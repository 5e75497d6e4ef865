use stm32f3_oscilloscope::capture::{set_timebase, Timebase};
use stm32f3_oscilloscope::led::Led;
use stm32f3_oscilloscope::siggen::siggen_set_freq;
use stm32f3_oscilloscope::st7735::St7735Color;
use stm32f3_oscilloscope::sweep::{
    clear_status_line, erase_sample, graticule, plot_sample, report_overrun,
    set_capture_timebase_from_index, set_siggen_freq_from_index, Action, Pixel, Rect, Scope,
    SweepState, Text, SIGGEN_FREQUENCIES, SIGGEN_LABELS, TIMEBASE_LABELS, TIMEBASE_RATES,
};
use stm32f3_oscilloscope::tick::Ticker;

fn green(x: u8, y: u8, text: &'static str) -> Action {
    Action::Print(Text { x, y, text, fg: St7735Color::Green, bg: St7735Color::Black })
}

fn pixel(x: i16, y: i16, color: St7735Color) -> Action {
    Action::DrawPixel(Pixel { x, y, color })
}

fn cleared() -> Action {
    Action::FillRect(Rect { x: 0, y: 116, w: 160, h: 12, color: St7735Color::Black })
}

/// The row that the formula gives, worked out in wide signed arithmetic.
fn row(raw: u16) -> i64 {
    127 - (raw as i64 * 806) / 25_781
}

#[test]
fn zero_volts_plots_on_the_bottom_row() {
    assert_eq!(plot_sample(0, 0), Pixel { x: 0, y: 127, color: St7735Color::White });
}

#[test]
fn full_scale_is_clipped_to_the_top_row_in_red() {
    assert_eq!(4095u32 * 806, 3_300_570);
    assert_eq!(3_300_570 / 25_781, 128);
    assert_eq!(plot_sample(17, 4095), Pixel { x: 17, y: 0, color: St7735Color::Red });
}

#[test]
fn samples_below_full_scale_plot_in_white() {
    assert_eq!(plot_sample(1, 4094), Pixel { x: 1, y: 0, color: St7735Color::White });
    assert_eq!(plot_sample(2, 2048), Pixel { x: 2, y: 63, color: St7735Color::White });
    assert_eq!(plot_sample(3, 31), Pixel { x: 3, y: 127, color: St7735Color::White });
    assert_eq!(plot_sample(4, 32), Pixel { x: 4, y: 126, color: St7735Color::White });
    assert_eq!(plot_sample(159, 1000), Pixel { x: 159, y: 96, color: St7735Color::White });
}

#[test]
fn samples_wider_than_twelve_bits_are_clipped() {
    assert_eq!(plot_sample(0, 4096), Pixel { x: 0, y: 0, color: St7735Color::Red });
    assert_eq!(plot_sample(0, 65535), Pixel { x: 0, y: 0, color: St7735Color::Red });
}

#[test]
fn every_twelve_bit_sample_lands_on_the_clamped_row() {
    for raw in 0u16..=4095 {
        let p = plot_sample(5, raw);
        assert_eq!(p.x, 5);
        assert_eq!(p.y as i64, row(raw).clamp(0, 127));
        assert!((0..=127).contains(&p.y));
        let on_screen = (0..=127).contains(&row(raw));
        assert_eq!(p.color, if on_screen { St7735Color::White } else { St7735Color::Red });
    }
}

#[test]
fn higher_samples_never_plot_lower() {
    let mut last = plot_sample(0, 0).y;
    for raw in 1u16..=4095 {
        let y = plot_sample(0, raw).y;
        assert!(y <= last, "raw {}", raw);
        last = y;
    }
    assert_eq!(last, 0);
}

#[test]
fn nothing_to_erase_where_nothing_is_plotted() {
    assert_eq!(erase_sample(0, 255), None);
    assert_eq!(erase_sample(159, 255), None);
}

#[test]
fn erasing_restores_the_graticule() {
    let at = |x: usize, y: u8| erase_sample(x, y).unwrap();
    assert_eq!(at(32, 64), Pixel { x: 32, y: 64, color: St7735Color::Green });
    assert_eq!(at(0, 0), Pixel { x: 0, y: 0, color: St7735Color::Green });
    assert_eq!(at(128, 96), Pixel { x: 128, y: 96, color: St7735Color::Green });
    assert_eq!(at(32, 63), Pixel { x: 32, y: 63, color: St7735Color::Black });
    assert_eq!(at(33, 64), Pixel { x: 33, y: 64, color: St7735Color::Black });
    assert_eq!(at(159, 127), Pixel { x: 159, y: 127, color: St7735Color::Black });
    assert_eq!(at(64, 254), Pixel { x: 64, y: 254, color: St7735Color::Black });
}

#[test]
fn scope_starts_before_a_sweep_with_nothing_plotted() {
    let scope = Scope::new();
    assert_eq!(scope.state(), SweepState::Before);
    assert_eq!(scope.x_out(), 0);
    assert_eq!(scope.timebase_index(), 8);
    assert_eq!(scope.siggen_freq_index(), 6);
    for x in 0..160 {
        assert_eq!(scope.previous_y(x), 255);
    }
}

#[test]
fn first_step_starts_the_capture() {
    let samples = [0u16; 160];
    let mut scope = Scope::new();
    let actions = scope.sweep_step(0, &samples);
    assert_eq!(actions, vec![Action::BeginSweep, Action::LedOn(Led::LD3)]);
    assert_eq!(scope.state(), SweepState::During);
    assert_eq!(scope.x_out(), 0);
}

#[test]
fn step_without_a_new_sample_does_nothing() {
    let samples = [0u16; 160];
    let mut scope = Scope::new();
    scope.sweep_step(0, &samples);
    for _ in 0..10 {
        assert!(scope.sweep_step(0, &samples).is_empty());
        assert_eq!(scope.state(), SweepState::During);
        assert_eq!(scope.x_out(), 0);
    }
    scope.sweep_step(1, &samples);
    assert!(scope.sweep_step(1, &samples).is_empty());
    assert_eq!(scope.x_out(), 1);
}

#[test]
fn step_plots_one_sample_at_a_time() {
    let mut samples = [0u16; 160];
    samples[0] = 2048;
    samples[1] = 4095;
    samples[2] = 1000;
    let mut scope = Scope::new();
    scope.sweep_step(0, &samples);
    assert_eq!(scope.sweep_step(3, &samples), vec![pixel(0, 63, St7735Color::White)]);
    assert_eq!(scope.x_out(), 1);
    assert_eq!(scope.sweep_step(3, &samples), vec![pixel(1, 0, St7735Color::Red)]);
    assert_eq!(scope.x_out(), 2);
    assert_eq!(scope.sweep_step(3, &samples), vec![pixel(2, 96, St7735Color::White)]);
    assert_eq!(scope.x_out(), 3);
    assert!(scope.sweep_step(3, &samples).is_empty());
    assert_eq!(scope.x_out(), 3);
    assert_eq!(scope.previous_y(0), 63);
    assert_eq!(scope.previous_y(1), 0);
    assert_eq!(scope.previous_y(2), 96);
    assert_eq!(scope.previous_y(3), 255);
}

/// Runs one whole sweep with every sample on hand, and returns the actions
/// of its steps.
fn run_sweep(scope: &mut Scope, samples: &[u16; 160]) -> Vec<Vec<Action>> {
    let mut steps = Vec::new();
    assert_eq!(scope.state(), SweepState::Before);
    steps.push(scope.sweep_step(0, samples));
    for x in 0..160 {
        assert_eq!(scope.state(), SweepState::During);
        assert_eq!(scope.x_out(), x);
        steps.push(scope.sweep_step(160, samples));
    }
    assert_eq!(scope.state(), SweepState::After);
    assert_eq!(scope.x_out(), 160);
    steps.push(scope.sweep_step(160, samples));
    assert_eq!(scope.state(), SweepState::Before);
    steps
}

#[test]
fn sweep_goes_before_during_after_and_round_again() {
    let samples = [100u16; 160];
    let mut scope = Scope::new();
    for _ in 0..3 {
        let steps = run_sweep(&mut scope, &samples);
        assert_eq!(steps.len(), 162);
        assert_eq!(steps[0], vec![Action::BeginSweep, Action::LedOn(Led::LD3)]);
        assert_eq!(
            steps[161],
            vec![Action::FinishSweep, Action::CheckOverrun, Action::LedToggle(Led::LD5)]
        );
    }
}

#[test]
fn sweep_never_runs_ahead_of_the_transfer() {
    let samples = [7u16; 160];
    let mut scope = Scope::new();
    scope.sweep_step(0, &samples);
    for transferred in 0..=160usize {
        for _ in 0..3 {
            if scope.state() == SweepState::During {
                scope.sweep_step(transferred, &samples);
            }
            assert!(scope.x_out() <= transferred);
            assert!(scope.x_out() <= 160);
        }
        assert_eq!(scope.x_out(), transferred);
    }
    assert_eq!(scope.state(), SweepState::After);
}

#[test]
fn first_sweep_draws_without_erasing() {
    let mut samples = [0u16; 160];
    for x in 0..160 {
        samples[x] = (x * 25) as u16;
    }
    let mut scope = Scope::new();
    let steps = run_sweep(&mut scope, &samples);
    for x in 0..160 {
        assert_eq!(steps[x + 1], vec![Action::DrawPixel(plot_sample(x, samples[x]))]);
        assert_eq!(scope.previous_y(x) as i16, plot_sample(x, samples[x]).y);
    }
}

#[test]
fn next_sweep_erases_the_old_trace_column_by_column() {
    let first = [2048u16; 160];
    let second = [0u16; 160];
    let mut scope = Scope::new();
    run_sweep(&mut scope, &first);
    let steps = run_sweep(&mut scope, &second);
    for x in 0..160i16 {
        assert_eq!(
            steps[x as usize + 1],
            vec![pixel(x, 63, St7735Color::Black), pixel(x, 127, St7735Color::White)]
        );
    }
    for x in 0..160 {
        assert_eq!(scope.previous_y(x), 127);
    }
}

#[test]
fn erasing_on_a_grid_row_restores_the_grid_points() {
    // 2032 * 806 / 25781 = 63, so the trace lies on row 64.
    let first = [2032u16; 160];
    let second = [0u16; 160];
    let mut scope = Scope::new();
    run_sweep(&mut scope, &first);
    let steps = run_sweep(&mut scope, &second);
    for x in 0..160i16 {
        let erase = if x % 32 == 0 { St7735Color::Green } else { St7735Color::Black };
        assert_eq!(steps[x as usize + 1][0], pixel(x, 64, erase));
    }
}

#[test]
fn half_drawn_sweep_keeps_the_old_trace_to_its_right() {
    let first = [2048u16; 160];
    let second = [0u16; 160];
    let mut scope = Scope::new();
    run_sweep(&mut scope, &first);
    scope.sweep_step(0, &second);
    for _ in 0..80 {
        scope.sweep_step(80, &second);
    }
    assert_eq!(scope.x_out(), 80);
    for x in 0..80 {
        assert_eq!(scope.previous_y(x), 127);
    }
    for x in 80..160 {
        assert_eq!(scope.previous_y(x), 63);
    }
}

#[test]
fn graticule_is_four_columns_of_three_red_points() {
    let expected: Vec<Action> = [
        (32, 95),
        (32, 63),
        (32, 31),
        (64, 95),
        (64, 63),
        (64, 31),
        (96, 95),
        (96, 63),
        (96, 31),
        (128, 95),
        (128, 63),
        (128, 31),
    ]
    .iter()
    .map(|(x, y)| pixel(*x, *y, St7735Color::Red))
    .collect();
    assert_eq!(graticule(), expected);
}

#[test]
fn status_line_is_the_bottom_twelve_rows() {
    assert_eq!(clear_status_line(), cleared());
}

#[test]
fn timebase_table_has_its_rates_and_labels() {
    let labels = [
        "32s", "1s", ".5s", ".2s", ".1s", "50ms", "20ms", "10ms", "5ms", "2ms", "1ms", ".5ms",
        ".2ms", ".1ms", "~50us", "20us", "~10us",
    ];
    let rates = [
        1, 32, 64, 160, 320, 640, 1600, 3200, 6400, 16000, 32000, 64000, 160000, 320000, 640000,
        1600000, 3130434,
    ];
    assert_eq!(TIMEBASE_RATES, rates);
    assert_eq!(TIMEBASE_LABELS, labels);
}

#[test]
fn frequency_table_has_its_frequencies_and_labels() {
    let labels = ["1Hz", "3Hz", "10Hz", "33Hz", "100Hz", "333Hz", "1kHz", "3.3kHz", "10kHz"];
    assert_eq!(SIGGEN_FREQUENCIES, [1, 3, 10, 33, 100, 333, 1000, 3333, 10000]);
    assert_eq!(SIGGEN_LABELS, labels);
}

#[test]
fn choosing_a_timebase_loads_the_timer_and_shows_the_label() {
    assert_eq!(
        set_capture_timebase_from_index(1),
        vec![
            Action::SetTimebase(Timebase { reload: 999, prescale: 2249 }),
            cleared(),
            green(0, 116, "1s"),
            green(16, 116, "/div"),
        ]
    );
    assert_eq!(
        set_capture_timebase_from_index(14),
        vec![
            Action::SetTimebase(Timebase { reload: 111, prescale: 0 }),
            cleared(),
            green(0, 116, "~50us"),
            green(40, 116, "/div"),
        ]
    );
}

#[test]
fn every_timebase_entry_is_applied_with_its_own_rate_and_label() {
    for i in 0..17 {
        let label = TIMEBASE_LABELS[i];
        assert_eq!(
            set_capture_timebase_from_index(i),
            vec![
                Action::SetTimebase(set_timebase(TIMEBASE_RATES[i])),
                cleared(),
                green(0, 116, label),
                green(8 * label.len() as u8, 116, "/div"),
            ]
        );
    }
}

#[test]
fn choosing_a_frequency_loads_the_timer_and_shows_the_label() {
    assert_eq!(
        set_siggen_freq_from_index(6),
        vec![
            Action::SetSiggenReload(249),
            cleared(),
            green(0, 116, "siggen freq:"),
            green(104, 116, "1kHz"),
        ]
    );
    for i in 0..9 {
        assert_eq!(
            set_siggen_freq_from_index(i),
            vec![
                Action::SetSiggenReload(siggen_set_freq(SIGGEN_FREQUENCIES[i])),
                cleared(),
                green(0, 116, "siggen freq:"),
                green(104, 116, SIGGEN_LABELS[i]),
            ]
        );
    }
}

/// A ticker on which the given buttons have just been pressed.
fn pressed(buttons: &[usize]) -> Ticker {
    let mut idr: u32 = 0xffff_ffff;
    for i in buttons {
        idr &= !(1 << (12 + i));
    }
    let mut ticker = Ticker::new();
    ticker.systick_handler(idr);
    ticker
}

#[test]
fn timebase_button_moves_from_entry_8_to_entry_9() {
    let mut scope = Scope::new();
    let mut ticker = pressed(&[0]);
    assert_eq!(scope.timebase_index(), 8);
    let actions = scope.button_step(&mut ticker);
    assert_eq!(scope.timebase_index(), 9);
    assert_eq!(scope.siggen_freq_index(), 6);
    assert_eq!(
        actions,
        vec![
            Action::SetTimebase(Timebase { reload: 4499, prescale: 0 }),
            cleared(),
            green(0, 116, "2ms"),
            green(24, 116, "/div"),
        ]
    );
    assert!(!ticker.button_get_changed(0));
    assert!(ticker.button_get_state(0));
}

#[test]
fn generator_button_moves_to_the_next_frequency() {
    let mut scope = Scope::new();
    let mut ticker = pressed(&[3]);
    let actions = scope.button_step(&mut ticker);
    assert_eq!(scope.siggen_freq_index(), 7);
    assert_eq!(scope.timebase_index(), 8);
    assert_eq!(actions, set_siggen_freq_from_index(7));
    assert!(!ticker.button_get_changed(3));
}

#[test]
fn both_buttons_at_once_change_timebase_first() {
    let mut scope = Scope::new();
    let mut ticker = pressed(&[0, 3]);
    let actions = scope.button_step(&mut ticker);
    let mut expected = set_capture_timebase_from_index(9);
    expected.extend(set_siggen_freq_from_index(7));
    assert_eq!(actions, expected);
}

#[test]
fn a_press_counts_once() {
    let mut scope = Scope::new();
    let mut ticker = pressed(&[0]);
    assert_eq!(scope.button_step(&mut ticker).len(), 4);
    for _ in 0..300 {
        ticker.systick_handler(0xffff_efff);
        assert!(scope.button_step(&mut ticker).is_empty());
    }
    assert_eq!(scope.timebase_index(), 9);
}

#[test]
fn a_release_clears_the_flag_and_changes_nothing() {
    let mut scope = Scope::new();
    let mut ticker = pressed(&[0]);
    scope.button_step(&mut ticker);
    for _ in 0..101 {
        ticker.systick_handler(0xffff_ffff);
    }
    assert!(ticker.button_get_changed(0));
    assert!(!ticker.button_get_state(0));
    assert!(scope.button_step(&mut ticker).is_empty());
    assert!(!ticker.button_get_changed(0));
    assert_eq!(scope.timebase_index(), 9);
}

#[test]
fn the_middle_buttons_are_not_looked_at() {
    let mut scope = Scope::new();
    let mut ticker = pressed(&[1, 2]);
    assert!(scope.button_step(&mut ticker).is_empty());
    assert!(ticker.button_get_changed(1));
    assert!(ticker.button_get_changed(2));
    assert_eq!(scope.timebase_index(), 8);
    assert_eq!(scope.siggen_freq_index(), 6);
}

/// Presses and releases a button once, with the hold-offs run out, and
/// looks at the buttons after each.
fn click(scope: &mut Scope, ticker: &mut Ticker, button: usize) {
    let held = 0xffff_ffff & !(1u32 << (12 + button));
    for _ in 0..101 {
        ticker.systick_handler(held);
    }
    scope.button_step(ticker);
    for _ in 0..101 {
        ticker.systick_handler(0xffff_ffff);
    }
    scope.button_step(ticker);
}

#[test]
fn timebase_goes_round_after_the_last_entry() {
    let mut scope = Scope::new();
    let mut ticker = Ticker::new();
    let mut seen = Vec::new();
    for _ in 0..17 {
        click(&mut scope, &mut ticker, 0);
        seen.push(scope.timebase_index());
    }
    assert_eq!(seen, vec![9, 10, 11, 12, 13, 14, 15, 16, 0, 1, 2, 3, 4, 5, 6, 7, 8]);
}

#[test]
fn frequency_goes_round_after_the_last_entry() {
    let mut scope = Scope::new();
    let mut ticker = Ticker::new();
    let mut seen = Vec::new();
    for _ in 0..9 {
        click(&mut scope, &mut ticker, 3);
        seen.push(scope.siggen_freq_index());
    }
    assert_eq!(seen, vec![7, 8, 0, 1, 2, 3, 4, 5, 6]);
}

#[test]
fn buttons_do_not_disturb_a_sweep_in_progress() {
    let samples = [500u16; 160];
    let mut scope = Scope::new();
    scope.sweep_step(0, &samples);
    for _ in 0..40 {
        scope.sweep_step(40, &samples);
    }
    let mut ticker = pressed(&[0, 3]);
    scope.button_step(&mut ticker);
    assert_eq!(scope.state(), SweepState::During);
    assert_eq!(scope.x_out(), 40);
    assert_eq!(scope.previous_y(39) as i16, plot_sample(39, 500).y);
    assert_eq!(scope.previous_y(40), 255);
}

#[test]
fn overrun_is_shown_only_with_diagnostics_on() {
    assert_eq!(report_overrun(true, true), Some(green(0, 104, "OVR set")));
    assert_eq!(report_overrun(true, false), None);
    assert_eq!(report_overrun(false, true), None);
    assert_eq!(report_overrun(false, false), None);
}
