use stm32f3_oscilloscope::sysclk::{Startup, StartupWait, HSE_STARTUP_TIMEOUT};

#[test]
fn wait_reports_ready_at_once() {
    let mut wait = StartupWait::new(HSE_STARTUP_TIMEOUT);
    assert_eq!(wait.poll(true), Startup::Ready);
    assert_eq!(wait.poll(true), Startup::Ready);
}

#[test]
fn wait_times_out_on_the_last_poll() {
    assert_eq!(HSE_STARTUP_TIMEOUT, 0x500);
    let mut wait = StartupWait::new(HSE_STARTUP_TIMEOUT);
    for _ in 0..0x4ff {
        assert_eq!(wait.poll(false), Startup::Waiting);
    }
    assert_eq!(wait.poll(false), Startup::TimedOut);
    assert_eq!(wait.poll(false), Startup::TimedOut);
}

#[test]
fn wait_that_becomes_ready_in_time_is_ready() {
    let mut wait = StartupWait::new(3);
    assert_eq!(wait.poll(false), Startup::Waiting);
    assert_eq!(wait.poll(false), Startup::Waiting);
    assert_eq!(wait.poll(true), Startup::Ready);
}

#[test]
fn ready_poll_does_not_use_up_the_wait() {
    let mut wait = StartupWait::new(2);
    assert_eq!(wait.poll(true), Startup::Ready);
    assert_eq!(wait.poll(false), Startup::Waiting);
    assert_eq!(wait.poll(false), Startup::TimedOut);
}

#[test]
fn wait_without_polls_times_out_at_once() {
    let mut none = StartupWait::new(0);
    assert_eq!(none.poll(false), Startup::TimedOut);
    let mut one = StartupWait::new(1);
    assert_eq!(one.poll(false), Startup::TimedOut);
}
