//! Waiting for the hardware to get ready: the oscillator to start, the
//! clock to lock, the converter to calibrate.
//!
//! Such a wait polls a ready flag a bounded number of times. A flag that
//! does not come up in that time shows a fault in the hardware, on which
//! the firmware halts.

use vstd::prelude::*;

verus! {

/// Number of polls after which the external oscillator is given up.
pub const HSE_STARTUP_TIMEOUT: u32 = 0x500;

/// How a wait stands after a poll.
#[derive(Clone, Copy, Debug, PartialEq, Eq)]
pub enum Startup {
    /// The flag is up.
    Ready,
    /// The flag is down, and there are polls left.
    Waiting,
    /// The flag is down, and this was the last poll.
    TimedOut,
}

/// A wait in progress: the number of polls left to it.
pub struct StartupWait {
    remaining: u32,
}

impl View for StartupWait {
    type V = nat;

    closed spec fn view(&self) -> nat {
        self.remaining as nat
    }
}

/// What a poll that finds the flag at `ready` reports, with `remaining`
/// polls left before it.
pub open spec fn poll_result(remaining: nat, ready: bool) -> Startup {
    if ready {
        Startup::Ready
    } else if remaining > 1 {
        Startup::Waiting
    } else {
        Startup::TimedOut
    }
}

/// The number of polls left after a poll that finds the flag at `ready`:
/// one fewer where the flag is down, down to none.
pub open spec fn poll_remaining(remaining: nat, ready: bool) -> nat {
    if ready || remaining == 0 {
        remaining
    } else {
        (remaining - 1) as nat
    }
}

impl StartupWait {
    /// A wait of at most `limit` polls.
    pub fn new(limit: u32) -> (wait: StartupWait)
        ensures
            wait@ == limit,
    {
        StartupWait { remaining: limit }
    }

    /// Takes note of one poll of the flag, which showed `ready`.
    pub fn poll(&mut self, ready: bool) -> (status: Startup)
        ensures
            status == poll_result(old(self)@, ready),
            final(self)@ == poll_remaining(old(self)@, ready),
    {
        if ready {
            return Startup::Ready;
        }
        if self.remaining > 0 {
            self.remaining = self.remaining - 1;
        }
        if self.remaining == 0 {
            Startup::TimedOut
        } else {
            Startup::Waiting
        }
    }
}

/// The number of polls left after a run of polls that all found the flag
/// down.
pub open spec fn remaining_after(limit: nat, polls: nat) -> nat
    decreases polls,
{
    if polls == 0 {
        limit
    } else {
        poll_remaining(remaining_after(limit, (polls - 1) as nat), false)
    }
}

/// A wait of `limit` polls whose flag stays down goes on for `limit` polls
/// and no longer: each poll before the last reports that it is waiting, and
/// the last that it has timed out.
pub proof fn lemma_wait_is_bounded(limit: nat, polls: nat)
    requires
        polls < limit,
    ensures
        remaining_after(limit, polls) == limit - polls,
        poll_result(remaining_after(limit, polls), false) == if polls + 1 < limit {
            Startup::Waiting
        } else {
            Startup::TimedOut
        },
    decreases polls,
{
    if polls > 0 {
        lemma_wait_is_bounded(limit, (polls - 1) as nat);
    }
}

} // verus!
