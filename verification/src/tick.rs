//! The millisecond tick: a countdown for blocking delays and four debounced
//! pushbuttons.
//!
//! The tick handler is the only writer of a button's state and hold-off; the
//! foreground reads the state and the changed flag and clears the flag.

use vstd::prelude::*;

verus! {

/// Number of pushbuttons.
pub const BUTTONS: usize = 4;

/// Port pin of the first pushbutton; the others follow on the next pins.
pub const FIRST_BUTTON_PIN: u32 = 12;

/// Ticks for which a button is left alone after its state has changed.
pub const DEBOUNCE_TICKS: u32 = 100;

/// The delay countdown and the state of the four buttons.
pub struct Ticker {
    timing_delay: u32,
    button_changed: [bool; 4],
    button_state: [bool; 4],
    button_debounce: [u32; 4],
}

/// One debounced button.
pub struct ButtonView {
    /// The debounced state: true while the button is held down.
    pub state: bool,
    /// Whether the state has changed since the flag was last cleared.
    pub changed: bool,
    /// Ticks left during which the pin is not looked at.
    pub debounce: nat,
}

/// What a `Ticker` stands for.
pub struct TickerView {
    /// Ticks left of the delay in progress; zero when none is.
    pub delay: nat,
    /// The four buttons.
    pub buttons: Seq<ButtonView>,
}

/// Whether the input data register `idr` shows button `i` held down. The
/// buttons short their pins to ground, so a held button reads as a zero bit.
pub open spec fn pressed(idr: u32, i: int) -> bool {
    idr & (1u32 << ((12 + i) as u32)) == 0
}

impl ButtonView {
    /// The button one tick later, with the pin showing `level`. While the
    /// hold-off runs it only counts down. Otherwise a level that differs
    /// from the state is taken over at once, flagged, and starts a hold-off.
    pub open spec fn tick(self, level: bool) -> ButtonView {
        if self.debounce > 0 {
            ButtonView { debounce: (self.debounce - 1) as nat, ..self }
        } else if level != self.state {
            ButtonView { state: level, changed: true, debounce: 100 }
        } else {
            self
        }
    }
}

impl TickerView {
    /// The ticker one tick later, with the buttons' port reading `idr`.
    pub open spec fn tick(self, idr: u32) -> TickerView {
        TickerView {
            delay: if self.delay > 0 {
                (self.delay - 1) as nat
            } else {
                0
            },
            buttons: Seq::new(4, |i: int| self.buttons[i].tick(pressed(idr, i))),
        }
    }

    /// The ticker after one tick for each reading in `readings`, in order.
    pub open spec fn run(self, readings: Seq<u32>) -> TickerView
        decreases readings.len(),
    {
        if readings.len() == 0 {
            self
        } else {
            self.run(readings.drop_last()).tick(readings.last())
        }
    }
}

/// A tick changes a button's state only when the hold-off has run out and
/// the pin shows the other level. It raises the changed flag with every such
/// change, starting a hold-off of a hundred ticks, and at no other time; and
/// it never lowers the flag.
pub proof fn lemma_tick_flags_transitions(b: ButtonView, level: bool)
    ensures
        b.tick(level).state != b.state <==> b.debounce == 0 && level != b.state,
        b.tick(level).state != b.state ==> b.tick(level) == (ButtonView {
            state: level,
            changed: true,
            debounce: 100,
        }),
        b.tick(level).state == b.state ==> b.tick(level).changed == b.changed,
        b.changed ==> b.tick(level).changed,
{
}

/// Ticks leave the number of buttons at four.
pub proof fn lemma_run_keeps_buttons(t: TickerView, readings: Seq<u32>)
    requires
        t.buttons.len() == 4,
    ensures
        t.run(readings).buttons.len() == 4,
    decreases readings.len(),
{
    if readings.len() > 0 {
        lemma_run_keeps_buttons(t, readings.drop_last());
    }
}

/// While a button's hold-off runs, ticks only count it down: whatever the
/// pin shows, the state and the changed flag stay as they are.
pub proof fn lemma_hold_off(t: TickerView, i: int, readings: Seq<u32>)
    requires
        t.buttons.len() == 4,
        0 <= i < 4,
        readings.len() <= t.buttons[i].debounce,
    ensures
        t.run(readings).buttons[i] == (ButtonView {
            debounce: (t.buttons[i].debounce - readings.len()) as nat,
            ..t.buttons[i]
        }),
    decreases readings.len(),
{
    if readings.len() > 0 {
        lemma_hold_off(t, i, readings.drop_last());
        lemma_run_keeps_buttons(t, readings.drop_last());
    }
}

/// Once as many ticks have passed as the hold-off was long, a hundred after
/// a change of state, the button follows its pin again: the next tick that
/// shows the other level changes the state and raises the flag.
pub proof fn lemma_ready_after_hold_off(t: TickerView, i: int, readings: Seq<u32>, idr: u32)
    requires
        t.buttons.len() == 4,
        0 <= i < 4,
        readings.len() == t.buttons[i].debounce,
        pressed(idr, i) != t.buttons[i].state,
    ensures
        t.run(readings).tick(idr).buttons[i] == (ButtonView {
            state: pressed(idr, i),
            changed: true,
            debounce: 100,
        }),
{
    lemma_hold_off(t, i, readings);
    lemma_run_keeps_buttons(t, readings);
}

/// Each tick takes one off the delay until it has run out: a delay of `ms`
/// milliseconds has elapsed after `ms` ticks and not before.
pub proof fn lemma_delay_counts_down(t: TickerView, readings: Seq<u32>)
    ensures
        t.run(readings).delay == if t.delay >= readings.len() {
            t.delay - readings.len()
        } else {
            0
        },
    decreases readings.len(),
{
    if readings.len() > 0 {
        lemma_delay_counts_down(t, readings.drop_last());
    }
}

impl View for Ticker {
    type V = TickerView;

    closed spec fn view(&self) -> TickerView {
        TickerView {
            delay: self.timing_delay as nat,
            buttons: Seq::new(
                4,
                |i: int|
                    ButtonView {
                        state: self.button_state[i],
                        changed: self.button_changed[i],
                        debounce: self.button_debounce[i] as nat,
                    },
            ),
        }
    }
}

impl Ticker {
    /// A ticker with no delay in progress and all buttons released,
    /// unflagged and ready to be read.
    pub fn new() -> (ticker: Ticker)
        ensures
            ticker@.delay == 0,
            ticker@.buttons == Seq::new(
                4,
                |i: int| ButtonView { state: false, changed: false, debounce: 0 },
            ),
    {
        Ticker {
            timing_delay: 0,
            button_changed: [false; 4],
            button_state: [false; 4],
            button_debounce: [0; 4],
        }
    }

    /// A ticker always has four buttons, and its counters fit 32 bits.
    pub proof fn lemma_view_bounds(&self)
        ensures
            self@.buttons.len() == 4,
            self@.delay <= u32::MAX,
            forall|i: int| 0 <= i < 4 ==> (#[trigger] self@.buttons[i]).debounce <= u32::MAX,
    {
    }

    /// Whether button `i` has changed state since its flag was last cleared.
    /// Reading leaves the flag as it is.
    pub fn button_get_changed(&self, i: usize) -> (changed: bool)
        requires
            i < 4,
        ensures
            changed == self@.buttons[i as int].changed,
    {
        self.button_changed[i]
    }

    /// Clears the changed flag of button `i`, and nothing else.
    pub fn button_reset_changed(&mut self, i: usize)
        requires
            i < 4,
        ensures
            final(self)@.delay == old(self)@.delay,
            final(self)@.buttons == old(self)@.buttons.update(
                i as int,
                ButtonView { changed: false, ..old(self)@.buttons[i as int] },
            ),
    {
        self.button_changed[i] = false;
    }

    /// The debounced state of button `i`: true while it is held down.
    pub fn button_get_state(&self, i: usize) -> (state: bool)
        requires
            i < 4,
        ensures
            state == self@.buttons[i as int].state,
    {
        self.button_state[i]
    }

    /// One millisecond tick, with the buttons' port reading `idr`.
    pub fn systick_handler(&mut self, idr: u32)
        ensures
            final(self)@ == old(self)@.tick(idr),
    {
        if self.timing_delay != 0 {
            self.timing_delay = self.timing_delay - 1;
        }
        let mut i: usize = 0;
        while i < BUTTONS
            invariant
                i <= 4,
                self.timing_delay as nat == old(self)@.tick(idr).delay,
                forall|j: int|
                    0 <= j < i ==> (ButtonView {
                        state: #[trigger] self.button_state[j],
                        changed: self.button_changed[j],
                        debounce: self.button_debounce[j] as nat,
                    }) == old(self)@.buttons[j].tick(pressed(idr, j)),
                forall|j: int|
                    i <= j < 4 ==> (ButtonView {
                        state: #[trigger] self.button_state[j],
                        changed: self.button_changed[j],
                        debounce: self.button_debounce[j] as nat,
                    }) == old(self)@.buttons[j],
            decreases 4 - i,
        {
            if self.button_debounce[i] > 0 {
                self.button_debounce[i] = self.button_debounce[i] - 1;
            } else {
                let state: bool = (idr & (1u32 << (FIRST_BUTTON_PIN + i as u32))) == 0;
                if state != self.button_state[i] {
                    self.button_state[i] = state;
                    self.button_changed[i] = true;
                    self.button_debounce[i] = DEBOUNCE_TICKS;
                }
            }
            i = i + 1;
        }
        assert(self@.buttons =~= old(self)@.tick(idr).buttons);
    }

    /// Starts a delay of `ms` milliseconds, in place of any in progress.
    pub fn delay_ms(&mut self, ms: u32)
        ensures
            final(self)@.delay == ms,
            final(self)@.buttons == old(self)@.buttons,
    {
        self.timing_delay = ms;
    }

    /// Whether the delay has run out.
    pub fn delay_elapsed(&self) -> (elapsed: bool)
        ensures
            elapsed == (self@.delay == 0),
    {
        self.timing_delay == 0
    }
}

} // verus!
