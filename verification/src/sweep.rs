//! The sweep: the state machine that takes a block of samples from the
//! converter to the screen, one column at a time, and the two buttons that
//! change the timebase and the generator's frequency.
//!
//! Nothing here touches the hardware. Each step takes what the foreground
//! loop has read and returns the list of things for it to do, in order.

use vstd::prelude::*;
use vstd::string::*;
use crate::capture::{
    set_timebase, timebase_prescale, timebase_reload, Timebase, SWEEP_SAMPLES,
};
use crate::led::Led;
use crate::siggen::{siggen_reload, siggen_set_freq};
use crate::st7735::St7735Color;
use crate::tick::{ButtonView, Ticker, TickerView};

verus! {

/// Value of a column's remembered row while nothing is plotted there.
pub const UNPLOTTED: u8 = 255;

/// Microvolts in one step of the converter: 3.3 V over 4096 steps.
pub const MICROVOLTS_PER_LSB: u32 = 806;

/// Microvolts in one row of the screen: 3.3 V over 128 rows.
pub const MICROVOLTS_PER_ROW: u32 = 25_781;

/// Spacing of the graticule's points, in pixels, both ways.
pub const GRID_STEP: usize = 32;

/// Top row of the status line at the bottom of the screen.
pub const STATUS_ROW: u8 = 116;

/// Button that steps the timebase.
pub const TIMEBASE_BUTTON: usize = 0;

/// Button that steps the generator's frequency.
pub const SIGGEN_BUTTON: usize = 3;

/// The sample rates that the timebase button steps through, in samples per
/// second.
pub const TIMEBASE_RATES: [u32; 17] = [
    1,
    32,
    64,
    160,
    320,
    640,
    1600,
    3200,
    6400,
    16000,
    32000,
    64000,
    160000,
    320000,
    640000,
    1600000,
    3130434,
];

/// The frequencies that the generator button steps through, in hertz.
pub const SIGGEN_FREQUENCIES: [u32; 9] = [1, 3, 10, 33, 100, 333, 1000, 3333, 10000];

/// Position in `TIMEBASE_RATES` that the instrument starts with.
pub const INITIAL_TIMEBASE: usize = 8;

/// Position in `SIGGEN_FREQUENCIES` that the instrument starts with.
pub const INITIAL_FREQUENCY: usize = 6;

/// The time that one division of the graticule spans at each sample rate,
/// as shown on the status line.
pub const TIMEBASE_LABELS: [&'static str; 17] = [
    "32s",
    "1s",
    ".5s",
    ".2s",
    ".1s",
    "50ms",
    "20ms",
    "10ms",
    "5ms",
    "2ms",
    "1ms",
    ".5ms",
    ".2ms",
    ".1ms",
    "~50us",
    "20us",
    "~10us",
];

/// The name of each generator frequency, as shown on the status line.
pub const SIGGEN_LABELS: [&'static str; 9] = [
    "1Hz",
    "3Hz",
    "10Hz",
    "33Hz",
    "100Hz",
    "333Hz",
    "1kHz",
    "3.3kHz",
    "10kHz",
];

/// One pixel to draw.
#[derive(Clone, Copy, Debug, PartialEq, Eq)]
pub struct Pixel {
    /// Column, from the left.
    pub x: i16,
    /// Row, from the top.
    pub y: i16,
    /// Colour to draw it in.
    pub color: St7735Color,
}

/// A rectangle to fill.
#[derive(Clone, Copy, Debug, PartialEq, Eq)]
pub struct Rect {
    /// Leftmost column.
    pub x: i16,
    /// Topmost row.
    pub y: i16,
    /// Width in pixels.
    pub w: i16,
    /// Height in pixels.
    pub h: i16,
    /// Colour to fill it with.
    pub color: St7735Color,
}

/// A line of text to print.
#[derive(Clone, Copy, Debug, PartialEq, Eq)]
pub struct Text {
    /// Column of the left edge of the first character.
    pub x: u8,
    /// Row of the top edge of the characters.
    pub y: u8,
    /// The characters.
    pub text: &'static str,
    /// Colour of the characters.
    pub fg: St7735Color,
    /// Colour behind the characters.
    pub bg: St7735Color,
}

/// Something for the foreground loop to do.
#[derive(Clone, Copy, Debug, PartialEq, Eq)]
pub enum Action {
    /// Arm the block transfer and start the conversions.
    BeginSweep,
    /// Disarm the block transfer and reset its count for the next sweep.
    FinishSweep,
    /// Test and clear the converter's overrun flag, and report it.
    CheckOverrun,
    /// Switch an LED on.
    LedOn(Led),
    /// Invert an LED.
    LedToggle(Led),
    /// Draw one pixel.
    DrawPixel(Pixel),
    /// Load the trigger timer of the capture with these settings.
    SetTimebase(Timebase),
    /// Load the pacing timer of the generator with this reload value.
    SetSiggenReload(u32),
    /// Fill a rectangle.
    FillRect(Rect),
    /// Print a line of text.
    Print(Text),
}

/// The row on which a raw sample falls before clipping: row 127 stands for
/// zero volts, and each 25 781 microvolts, at 806 microvolts to a converter
/// step, lift the trace by one row.
pub open spec fn sample_row(raw: int) -> int {
    127 - (raw * 806) / 25_781
}

/// A row brought onto the screen: rows above the top become the top row,
/// rows below the bottom the bottom row.
pub open spec fn clamp_row(row: int) -> int {
    if row < 0 {
        0
    } else if row > 127 {
        127
    } else {
        row
    }
}

/// Whether a row lies on the screen.
pub open spec fn row_on_screen(row: int) -> bool {
    0 <= row <= 127
}

/// The pixel that shows sample `raw` in column `x`: on the sample's row in
/// white, or, where that row is off the screen, on the nearest row in red.
pub open spec fn trace_pixel(x: int, raw: int) -> Pixel {
    Pixel {
        x: x as i16,
        y: clamp_row(sample_row(raw)) as i16,
        color: if row_on_screen(sample_row(raw)) {
            St7735Color::White
        } else {
            St7735Color::Red
        },
    }
}

/// Whether a point of the screen is one of the graticule's: both its column
/// and its row are multiples of 32.
pub open spec fn on_grid(x: int, y: int) -> bool {
    x % 32 == 0 && y % 32 == 0
}

/// The pixel that takes the old trace out of column `x`, where `previous`
/// is the row remembered for it: none while nothing is plotted there, else
/// the pixel on that row, in green on a point of the graticule and in black
/// elsewhere.
pub open spec fn erased_pixel(x: int, previous: u8) -> Option<Pixel> {
    if previous < 255 {
        Some(
            Pixel {
                x: x as i16,
                y: previous as i16,
                color: if on_grid(x, previous as int) {
                    St7735Color::Green
                } else {
                    St7735Color::Black
                },
            },
        )
    } else {
        None
    }
}

/// The actions that take the old trace out of column `x`: to draw the
/// erasing pixel, if there is one.
pub open spec fn erase_pixels(x: int, previous: u8) -> Seq<Action> {
    match erased_pixel(x, previous) {
        Some(pixel) => seq![Action::DrawPixel(pixel)],
        None => Seq::empty(),
    }
}

/// The pixel that shows sample `raw` in column `x`.
pub fn plot_sample(x: usize, raw: u16) -> (pixel: Pixel)
    requires
        x < 160,
    ensures
        pixel == trace_pixel(x as int, raw as int),
{
    let microvolts: u32 = raw as u32 * MICROVOLTS_PER_LSB;
    let y: i16 = 127 - (microvolts / MICROVOLTS_PER_ROW) as i16;
    if y < 0 {
        Pixel { x: x as i16, y: 0, color: St7735Color::Red }
    } else if y > 127 {
        Pixel { x: x as i16, y: 127, color: St7735Color::Red }
    } else {
        Pixel { x: x as i16, y, color: St7735Color::White }
    }
}

/// The pixel that takes the old trace out of column `x`, if there is one.
pub fn erase_sample(x: usize, previous: u8) -> (pixel: Option<Pixel>)
    requires
        x < 160,
    ensures
        pixel == erased_pixel(x as int, previous),
{
    if previous < UNPLOTTED {
        let color = if x % GRID_STEP == 0 && previous as usize % GRID_STEP == 0 {
            St7735Color::Green
        } else {
            St7735Color::Black
        };
        Some(Pixel { x: x as i16, y: previous as i16, color })
    } else {
        None
    }
}

/// The trace stays on the screen, and a higher sample never lies lower on
/// the screen: the drawn row does not grow with the sample.
pub proof fn lemma_trace_row_monotonic(low: int, high: int)
    requires
        0 <= low <= high,
    ensures
        0 <= clamp_row(sample_row(high)) <= clamp_row(sample_row(low)) <= 127,
{
}

/// Of the samples of a 12-bit converter only the highest, 4095, falls off
/// the screen, by one row above the top.
pub proof fn lemma_twelve_bit_rows(raw: int)
    requires
        0 <= raw <= 4095,
    ensures
        -1 <= sample_row(raw) <= 127,
        row_on_screen(sample_row(raw)) <==> raw < 4095,
{
}

/// The action that blanks the status line: the bottom twelve rows of the
/// screen, over its whole width, filled with black.
pub open spec fn status_line_cleared() -> Action {
    Action::FillRect(Rect { x: 0, y: 116, w: 160, h: 12, color: St7735Color::Black })
}

/// What choosing entry `i` of the timebase table asks for: the trigger timer
/// loaded for the entry's sample rate, the status line cleared, and on it
/// the entry's label followed by "/div".
pub open spec fn timebase_actions(i: int) -> Seq<Action> {
    seq![
        Action::SetTimebase(
            Timebase {
                reload: timebase_reload(TIMEBASE_RATES[i] as int) as u32,
                prescale: timebase_prescale(TIMEBASE_RATES[i] as int) as u16,
            },
        ),
        status_line_cleared(),
        Action::Print(Text {
            x: 0,
            y: 116,
            text: TIMEBASE_LABELS[i],
            fg: St7735Color::Green,
            bg: St7735Color::Black,
        }),
        Action::Print(Text {
            x: (8 * TIMEBASE_LABELS[i]@.len()) as u8,
            y: 116,
            text: "/div",
            fg: St7735Color::Green,
            bg: St7735Color::Black,
        }),
    ]
}

/// What choosing entry `i` of the frequency table asks for: the pacing timer
/// loaded for the entry's frequency, the status line cleared, and on it the
/// caption "siggen freq:" followed by the entry's label.
pub open spec fn siggen_actions(i: int) -> Seq<Action> {
    seq![
        Action::SetSiggenReload(siggen_reload(SIGGEN_FREQUENCIES[i] as int) as u32),
        status_line_cleared(),
        Action::Print(Text {
            x: 0,
            y: 116,
            text: "siggen freq:",
            fg: St7735Color::Green,
            bg: St7735Color::Black,
        }),
        Action::Print(Text {
            x: 104,
            y: 116,
            text: SIGGEN_LABELS[i],
            fg: St7735Color::Green,
            bg: St7735Color::Black,
        }),
    ]
}

/// The action that blanks the status line.
pub fn clear_status_line() -> (action: Action)
    ensures
        action == status_line_cleared(),
{
    Action::FillRect(Rect { x: 0, y: STATUS_ROW as i16, w: 160, h: 12, color: St7735Color::Black })
}

/// Every label of the timebase table is plain ASCII of two to five
/// characters.
proof fn lemma_timebase_label_len(i: int)
    requires
        0 <= i < 17,
    ensures
        is_ascii(TIMEBASE_LABELS[i]),
        2 <= TIMEBASE_LABELS[i]@.len() <= 5,
{
    reveal_strlit("32s");
    reveal_strlit("1s");
    reveal_strlit(".5s");
    reveal_strlit(".2s");
    reveal_strlit(".1s");
    reveal_strlit("50ms");
    reveal_strlit("20ms");
    reveal_strlit("10ms");
    reveal_strlit("5ms");
    reveal_strlit("2ms");
    reveal_strlit("1ms");
    reveal_strlit(".5ms");
    reveal_strlit(".2ms");
    reveal_strlit(".1ms");
    reveal_strlit("~50us");
    reveal_strlit("20us");
    reveal_strlit("~10us");
}

/// Applies entry `i` of the timebase table: the actions that load the
/// trigger timer and show the entry on the status line.
pub fn set_capture_timebase_from_index(i: usize) -> (actions: Vec<Action>)
    requires
        i < 17,
    ensures
        actions@ == timebase_actions(i as int),
{
    let rate: u32 = TIMEBASE_RATES[i];
    let label: &'static str = TIMEBASE_LABELS[i];
    proof {
        lemma_timebase_label_len(i as int);
        broadcast use is_ascii_spec_bytes;
    }
    let offset: u8 = 8 * (label.len() as u8);
    let mut actions: Vec<Action> = Vec::new();
    actions.push(Action::SetTimebase(set_timebase(rate)));
    actions.push(clear_status_line());
    actions.push(
        Action::Print(Text {
            x: 0,
            y: STATUS_ROW,
            text: label,
            fg: St7735Color::Green,
            bg: St7735Color::Black,
        }),
    );
    actions.push(
        Action::Print(Text {
            x: offset,
            y: STATUS_ROW,
            text: "/div",
            fg: St7735Color::Green,
            bg: St7735Color::Black,
        }),
    );
    actions
}

/// Applies entry `i` of the frequency table: the actions that load the
/// pacing timer and show the entry on the status line.
pub fn set_siggen_freq_from_index(i: usize) -> (actions: Vec<Action>)
    requires
        i < 9,
    ensures
        actions@ == siggen_actions(i as int),
{
    let freq: u32 = SIGGEN_FREQUENCIES[i];
    let mut actions: Vec<Action> = Vec::new();
    actions.push(Action::SetSiggenReload(siggen_set_freq(freq)));
    actions.push(clear_status_line());
    actions.push(
        Action::Print(Text {
            x: 0,
            y: STATUS_ROW,
            text: "siggen freq:",
            fg: St7735Color::Green,
            bg: St7735Color::Black,
        }),
    );
    actions.push(
        Action::Print(Text {
            x: 104,
            y: STATUS_ROW,
            text: SIGGEN_LABELS[i],
            fg: St7735Color::Green,
            bg: St7735Color::Black,
        }),
    );
    actions
}

/// The twelve points of the graticule, in red: four columns, 32 pixels
/// apart, of three points each, 32 pixels apart from the bottom row up.
pub open spec fn graticule_points() -> Seq<Action> {
    Seq::new(
        12,
        |k: int|
            Action::DrawPixel(
                Pixel {
                    x: (32 * (k / 3 + 1)) as i16,
                    y: (127 - 32 * (k % 3 + 1)) as i16,
                    color: St7735Color::Red,
                },
            ),
    )
}

/// The actions that paint the graticule.
pub fn graticule() -> (actions: Vec<Action>)
    ensures
        actions@ == graticule_points(),
{
    let mut actions: Vec<Action> = Vec::new();
    let mut x: i16 = 32;
    while x <= 128
        invariant
            32 <= x <= 160,
            x % 32 == 0,
            actions@.len() == 3 * (x / 32 - 1),
            forall|k: int| 0 <= k < actions@.len() ==> actions@[k] == graticule_points()[k],
        decreases 160 - x,
    {
        let mut y: i16 = 32;
        while y <= 96
            invariant
                32 <= x <= 128,
                x % 32 == 0,
                32 <= y <= 128,
                y % 32 == 0,
                actions@.len() == 3 * (x / 32 - 1) + (y / 32 - 1),
                forall|k: int| 0 <= k < actions@.len() ==> actions@[k] == graticule_points()[k],
            decreases 128 - y,
        {
            actions.push(Action::DrawPixel(Pixel { x, y: 127 - y, color: St7735Color::Red }));
            y = y + 32;
        }
        x = x + 32;
    }
    actions
}

/// What to show for the converter's overrun flag: a notice while
/// diagnostics are on and the flag was set, else nothing.
pub open spec fn overrun_notice(overrun: bool, diagnostics: bool) -> Option<Action> {
    if overrun && diagnostics {
        Some(
            Action::Print(Text {
                x: 0,
                y: 104,
                text: "OVR set",
                fg: St7735Color::Green,
                bg: St7735Color::Black,
            }),
        )
    } else {
        None
    }
}

/// Decides what to show once the overrun flag has been tested and cleared.
/// An overrun is not an error: the samples taken stand, and the sweep goes
/// on.
pub fn report_overrun(overrun: bool, diagnostics: bool) -> (notice: Option<Action>)
    ensures
        notice == overrun_notice(overrun, diagnostics),
{
    if overrun && diagnostics {
        Some(
            Action::Print(Text {
                x: 0,
                y: 104,
                text: "OVR set",
                fg: St7735Color::Green,
                bg: St7735Color::Black,
            }),
        )
    } else {
        None
    }
}

/// Where a sweep stands.
#[derive(Clone, Copy, Debug, PartialEq, Eq)]
pub enum SweepState {
    /// The trigger timer runs, but the transfer is not armed.
    Before,
    /// The transfer is armed or done, and the screen is catching up.
    During,
    /// Every sample is on the screen; the transfer waits to be reset.
    After,
}

/// The instrument as the foreground loop sees it: where the sweep stands,
/// what is on the screen, and which timebase and frequency are chosen.
pub struct Scope {
    state: SweepState,
    x_out: usize,
    previous_y: [u8; 160],
    timebase_index: usize,
    siggen_freq_index: usize,
}

/// What a `Scope` stands for.
pub struct ScopeView {
    /// Where the sweep stands.
    pub state: SweepState,
    /// Number of samples of this sweep that are on the screen: the column
    /// that the next sample goes to.
    pub x_out: int,
    /// For each column the row of the trace that is on the screen, or 255
    /// while there is none.
    pub previous_y: Seq<u8>,
    /// Chosen entry of the timebase table.
    pub timebase_index: int,
    /// Chosen entry of the frequency table.
    pub siggen_freq_index: int,
}

impl ScopeView {
    /// What holds of every instrument: the screen never holds more of a
    /// sweep than a sweep has samples, a sweep in progress has a column
    /// left to fill, every remembered row is on the screen, and the chosen
    /// entries are entries of their tables.
    pub open spec fn wf(self) -> bool {
        &&& 0 <= self.x_out <= 160
        &&& self.state == SweepState::During ==> self.x_out < 160
        &&& self.previous_y.len() == 160
        &&& forall|x: int|
            0 <= x < 160 ==> #[trigger] self.previous_y[x] == 255 || self.previous_y[x] <= 127
        &&& 0 <= self.timebase_index < 17
        &&& 0 <= self.siggen_freq_index < 9
    }

    /// Whether a step of a sweep in progress has a new sample to show: the
    /// transfer has brought more samples than are on the screen.
    pub open spec fn sample_ready(self, transferred: int) -> bool {
        self.state == SweepState::During && transferred > self.x_out
    }

    /// The instrument after one step of the sweep, where `transferred`
    /// samples have arrived so far and `samples` is the capture buffer.
    ///
    /// Before a sweep, the step starts one at column 0. During a sweep, a
    /// step with a new sample to show shows it, remembers its row, moves on
    /// by one column, and ends the sweep after the last column; a step
    /// without one changes nothing. After a sweep, the step goes back to
    /// before the next.
    pub open spec fn sweep_next(self, transferred: int, samples: Seq<u16>) -> ScopeView {
        match self.state {
            SweepState::Before => ScopeView { state: SweepState::During, x_out: 0, ..self },
            SweepState::During => if transferred > self.x_out {
                ScopeView {
                    state: if self.x_out + 1 >= 160 {
                        SweepState::After
                    } else {
                        SweepState::During
                    },
                    x_out: self.x_out + 1,
                    previous_y: self.previous_y.update(
                        self.x_out,
                        clamp_row(sample_row(samples[self.x_out] as int)) as u8,
                    ),
                    ..self
                }
            } else {
                self
            },
            SweepState::After => ScopeView { state: SweepState::Before, ..self },
        }
    }

    /// What one step of the sweep asks the foreground loop to do.
    ///
    /// Before a sweep: start the capture and light the sweep LED. During a
    /// sweep, with a new sample to show: take the old trace out of the
    /// column, then draw the new one. After a sweep: reset the transfer,
    /// look at the overrun flag, and toggle the heartbeat LED.
    pub open spec fn sweep_actions(self, transferred: int, samples: Seq<u16>) -> Seq<Action> {
        match self.state {
            SweepState::Before => seq![Action::BeginSweep, Action::LedOn(Led::LD3)],
            SweepState::During => if transferred > self.x_out {
                erase_pixels(self.x_out, self.previous_y[self.x_out]) + seq![
                    Action::DrawPixel(trace_pixel(self.x_out, samples[self.x_out] as int)),
                ]
            } else {
                Seq::empty()
            },
            SweepState::After => seq![
                Action::FinishSweep,
                Action::CheckOverrun,
                Action::LedToggle(Led::LD5),
            ],
        }
    }

    /// The instrument after a run of steps of the sweep over one capture
    /// buffer, where `counts` holds, for each step in turn, the number of
    /// samples that had arrived when it was taken.
    pub open spec fn sweep_run(self, counts: Seq<int>, samples: Seq<u16>) -> ScopeView
        decreases counts.len(),
    {
        if counts.len() == 0 {
            self
        } else {
            self.sweep_run(counts.drop_last(), samples).sweep_next(counts.last(), samples)
        }
    }

    /// Whether the timebase button has been pressed since it was last
    /// looked at: its flag is up and it is held down. A release raises the
    /// flag too, and is passed over.
    pub open spec fn timebase_pressed(buttons: TickerView) -> bool {
        buttons.buttons[0].changed && buttons.buttons[0].state
    }

    /// Whether the generator button has been pressed since it was last
    /// looked at.
    pub open spec fn siggen_pressed(buttons: TickerView) -> bool {
        buttons.buttons[3].changed && buttons.buttons[3].state
    }

    /// The instrument after the buttons have been looked at: a press of the
    /// timebase button moves on to the next entry of the timebase table, a
    /// press of the generator button to the next entry of the frequency
    /// table, each going round to the first entry after the last.
    pub open spec fn button_next(self, buttons: TickerView) -> ScopeView {
        ScopeView {
            timebase_index: if Self::timebase_pressed(buttons) {
                (self.timebase_index + 1) % 17
            } else {
                self.timebase_index
            },
            siggen_freq_index: if Self::siggen_pressed(buttons) {
                (self.siggen_freq_index + 1) % 9
            } else {
                self.siggen_freq_index
            },
            ..self
        }
    }

    /// What looking at the buttons asks the foreground loop to do: apply
    /// and show the new timebase if its button was pressed, then the new
    /// frequency if its button was.
    pub open spec fn button_actions(self, buttons: TickerView) -> Seq<Action> {
        (if Self::timebase_pressed(buttons) {
            timebase_actions(self.button_next(buttons).timebase_index)
        } else {
            Seq::empty()
        }) + (if Self::siggen_pressed(buttons) {
            siggen_actions(self.button_next(buttons).siggen_freq_index)
        } else {
            Seq::empty()
        })
    }
}

/// The buttons after the foreground loop has looked at them: the flags of
/// the timebase and generator buttons are down, and nothing else has
/// changed.
pub open spec fn buttons_seen(buttons: TickerView) -> TickerView {
    TickerView {
        buttons: buttons.buttons.update(
            0,
            ButtonView { changed: false, ..buttons.buttons[0] },
        ).update(3, ButtonView { changed: false, ..buttons.buttons[3] }),
        ..buttons
    }
}

/// The states of a sweep follow one another in one order: before, during,
/// after, and before again. A step before a sweep always starts one, a step
/// after a sweep always ends it, and a step during a sweep ends it exactly
/// when it fills the last column.
pub proof fn lemma_sweep_order(s: ScopeView, transferred: int, samples: Seq<u16>)
    requires
        s.wf(),
    ensures
        s.sweep_next(transferred, samples).wf(),
        s.state == SweepState::Before ==> s.sweep_next(transferred, samples).state
            == SweepState::During,
        s.state == SweepState::During ==> s.sweep_next(transferred, samples).state == (if s.x_out
            == 159 && transferred > s.x_out {
            SweepState::After
        } else {
            SweepState::During
        }),
        s.state == SweepState::After ==> s.sweep_next(transferred, samples).state
            == SweepState::Before,
{
}

/// During a sweep the column of the next sample moves on by exactly one
/// with every sample shown and stands still otherwise. It never passes the
/// width of the screen, and it never passes the number of samples that the
/// transfer has brought.
pub proof fn lemma_column_advances(s: ScopeView, transferred: int, samples: Seq<u16>)
    requires
        s.wf(),
        s.state == SweepState::During,
    ensures
        s.sweep_next(transferred, samples).x_out == if transferred > s.x_out {
            s.x_out + 1
        } else {
            s.x_out
        },
        s.sweep_next(transferred, samples).x_out <= 160,
        s.x_out <= transferred ==> s.sweep_next(transferred, samples).x_out <= transferred,
{
}

/// A step of the sweep that shows a sample touches one column only: it
/// remembers the sample's row for the column that it has drawn in, and
/// leaves what it remembers of every other column alone. A step that shows
/// none leaves the whole screen alone.
pub proof fn lemma_step_touches_one_column(
    s: ScopeView,
    transferred: int,
    samples: Seq<u16>,
    x: int,
)
    requires
        s.wf(),
        0 <= x < 160,
    ensures
        s.sweep_next(transferred, samples).previous_y[x] == if s.sample_ready(transferred) && x
            == s.x_out {
            clamp_row(sample_row(samples[x] as int)) as u8
        } else {
            s.previous_y[x]
        },
{
}

/// A run of steps during a sweep, each with a new sample on hand, shows
/// one sample a step, column by column from where the sweep stood: it
/// remembers for each of those columns the row of that column's sample,
/// leaves every other column as it was, and ends the sweep exactly when the
/// last column is filled.
pub proof fn lemma_sweep_shows_samples(s: ScopeView, counts: Seq<int>, samples: Seq<u16>)
    requires
        s.wf(),
        s.state == SweepState::During,
        counts.len() <= 160 - s.x_out,
        forall|k: int| 0 <= k < counts.len() ==> #[trigger] counts[k] > s.x_out + k,
    ensures
        s.sweep_run(counts, samples).wf(),
        s.sweep_run(counts, samples).x_out == s.x_out + counts.len(),
        s.sweep_run(counts, samples).state == if s.x_out + counts.len() == 160 {
            SweepState::After
        } else {
            SweepState::During
        },
        forall|x: int|
            0 <= x < 160 ==> #[trigger] s.sweep_run(counts, samples).previous_y[x] == if s.x_out
                <= x < s.x_out + counts.len() {
                clamp_row(sample_row(samples[x] as int)) as u8
            } else {
                s.previous_y[x]
            },
        s.sweep_run(counts, samples).timebase_index == s.timebase_index,
        s.sweep_run(counts, samples).siggen_freq_index == s.siggen_freq_index,
    decreases counts.len(),
{
    if counts.len() > 0 {
        lemma_sweep_shows_samples(s, counts.drop_last(), samples);
    }
}

/// A sweep that finds every sample on hand takes 162 steps from before one
/// sweep to before the next: one to start, one for each of the 160 columns,
/// and one to finish. It leaves on the screen the row of every sample of
/// the block.
pub proof fn lemma_whole_sweep(s: ScopeView, first: int, last: int, samples: Seq<u16>)
    requires
        s.wf(),
        s.state == SweepState::Before,
    ensures
        ({
            let started = s.sweep_next(first, samples);
            let shown = started.sweep_run(Seq::new(160, |k: int| 160int), samples);
            let finished = shown.sweep_next(last, samples);
            &&& started.state == SweepState::During
            &&& shown.state == SweepState::After
            &&& shown.x_out == 160
            &&& finished.state == SweepState::Before
            &&& finished.wf()
            &&& forall|x: int|
                0 <= x < 160 ==> #[trigger] finished.previous_y[x] == clamp_row(
                    sample_row(samples[x] as int),
                ) as u8
        }),
{
    let started = s.sweep_next(first, samples);
    lemma_sweep_shows_samples(started, Seq::new(160, |k: int| 160int), samples);
}

/// Sweeps do not overlap: the capture is started by the steps taken before
/// a sweep and by no others, and reset by the steps taken after a sweep and
/// by no others. As the states follow one another in one order, starts and
/// resets take turns.
pub proof fn lemma_one_sweep_at_a_time(s: ScopeView, transferred: int, samples: Seq<u16>)
    requires
        s.wf(),
    ensures
        s.sweep_actions(transferred, samples).contains(Action::BeginSweep) <==> s.state
            == SweepState::Before,
        s.sweep_actions(transferred, samples).contains(Action::FinishSweep) <==> s.state
            == SweepState::After,
{
    let actions = s.sweep_actions(transferred, samples);
    match s.state {
        SweepState::Before => {
            assert(actions[0] == Action::BeginSweep);
        },
        SweepState::During => {},
        SweepState::After => {
            assert(actions[0] == Action::FinishSweep);
        },
    }
}

/// During a sweep a step does nothing but draw, at most two pixels, and
/// every pixel that it draws lies in the column of the sample and on the
/// screen.
pub proof fn lemma_step_draws_on_screen(
    s: ScopeView,
    transferred: int,
    samples: Seq<u16>,
    k: int,
)
    requires
        s.wf(),
        s.state == SweepState::During,
        0 <= k < s.sweep_actions(transferred, samples).len(),
    ensures
        s.sweep_actions(transferred, samples).len() <= 2,
        s.sweep_actions(transferred, samples)[k] is DrawPixel,
        s.sweep_actions(transferred, samples)[k]->DrawPixel_0.x == s.x_out,
        0 <= s.sweep_actions(transferred, samples)[k]->DrawPixel_0.y <= 127,
{
    let previous = s.previous_y[s.x_out];
    assert(previous == 255 || previous <= 127);
}

/// Looking at the buttons never disturbs the sweep, and leaves the chosen
/// entries inside their tables.
pub proof fn lemma_buttons_leave_sweep(s: ScopeView, buttons: TickerView)
    requires
        s.wf(),
    ensures
        s.button_next(buttons).wf(),
        s.button_next(buttons).state == s.state,
        s.button_next(buttons).x_out == s.x_out,
        s.button_next(buttons).previous_y == s.previous_y,
{
}

/// The foreground loop only ever lowers changed flags, and only those of
/// the two buttons that it looks at: states, hold-offs, the other buttons
/// and the delay are the tick's alone.
pub proof fn lemma_buttons_seen(buttons: TickerView, i: int)
    requires
        buttons.buttons.len() == 4,
        0 <= i < 4,
    ensures
        buttons_seen(buttons).delay == buttons.delay,
        buttons_seen(buttons).buttons.len() == 4,
        buttons_seen(buttons).buttons[i].state == buttons.buttons[i].state,
        buttons_seen(buttons).buttons[i].debounce == buttons.buttons[i].debounce,
        buttons_seen(buttons).buttons[i].changed == (buttons.buttons[i].changed && i != 0 && i
            != 3),
{
}

impl View for Scope {
    type V = ScopeView;

    closed spec fn view(&self) -> ScopeView {
        ScopeView {
            state: self.state,
            x_out: self.x_out as int,
            previous_y: self.previous_y@,
            timebase_index: self.timebase_index as int,
            siggen_freq_index: self.siggen_freq_index as int,
        }
    }
}

impl Scope {
    #[verifier::type_invariant]
    spec fn inv(self) -> bool {
        self@.wf()
    }

    /// The instrument at power-up: before its first sweep, with nothing
    /// plotted, at the middle of the timebase table and at 1 kHz.
    pub fn new() -> (scope: Scope)
        ensures
            scope@ == (ScopeView {
                state: SweepState::Before,
                x_out: 0,
                previous_y: Seq::new(160, |x: int| 255u8),
                timebase_index: 8,
                siggen_freq_index: 6,
            }),
            scope@.wf(),
    {
        let scope = Scope {
            state: SweepState::Before,
            x_out: 0,
            previous_y: [UNPLOTTED; 160],
            timebase_index: INITIAL_TIMEBASE,
            siggen_freq_index: INITIAL_FREQUENCY,
        };
        assert(scope@.previous_y =~= Seq::new(160, |x: int| 255u8));
        scope
    }

    /// Where the sweep stands.
    pub fn state(&self) -> (state: SweepState)
        ensures
            state == self@.state,
            self@.wf(),
    {
        proof {
            use_type_invariant(self);
        }
        self.state
    }

    /// The column that the next sample goes to.
    pub fn x_out(&self) -> (x: usize)
        ensures
            x == self@.x_out,
            self@.wf(),
    {
        proof {
            use_type_invariant(self);
        }
        self.x_out
    }

    /// The row of the trace in column `x`, or 255 while there is none.
    pub fn previous_y(&self, x: usize) -> (y: u8)
        requires
            x < 160,
        ensures
            y == self@.previous_y[x as int],
            self@.wf(),
    {
        proof {
            use_type_invariant(self);
        }
        self.previous_y[x]
    }

    /// The chosen entry of the timebase table.
    pub fn timebase_index(&self) -> (i: usize)
        ensures
            i == self@.timebase_index,
            i < 17,
            self@.wf(),
    {
        proof {
            use_type_invariant(self);
        }
        self.timebase_index
    }

    /// The chosen entry of the frequency table.
    pub fn siggen_freq_index(&self) -> (i: usize)
        ensures
            i == self@.siggen_freq_index,
            i < 9,
            self@.wf(),
    {
        proof {
            use_type_invariant(self);
        }
        self.siggen_freq_index
    }

    /// One step of the sweep. `transferred` is the number of samples that
    /// the transfer has brought so far, and `samples` the capture buffer;
    /// neither is looked at unless a sweep is in progress.
    pub fn sweep_step(&mut self, transferred: usize, samples: &[u16; 160]) -> (actions: Vec<
        Action,
    >)
        ensures
            final(self)@ == old(self)@.sweep_next(transferred as int, samples@),
            actions@ == old(self)@.sweep_actions(transferred as int, samples@),
            old(self)@.wf(),
            final(self)@.wf(),
    {
        proof {
            use_type_invariant(&*self);
        }
        let mut actions: Vec<Action> = Vec::new();
        match self.state {
            SweepState::Before => {
                actions.push(Action::BeginSweep);
                actions.push(Action::LedOn(Led::LD3));
                self.x_out = 0;
                self.state = SweepState::During;
            },
            SweepState::During => {
                let x: usize = self.x_out;
                if transferred > x {
                    if let Some(pixel) = erase_sample(x, self.previous_y[x]) {
                        actions.push(Action::DrawPixel(pixel));
                    }
                    let pixel = plot_sample(x, samples[x]);
                    actions.push(Action::DrawPixel(pixel));
                    self.previous_y[x] = pixel.y as u8;
                    if x + 1 >= SWEEP_SAMPLES {
                        self.state = SweepState::After;
                    }
                    self.x_out = x + 1;
                }
            },
            SweepState::After => {
                actions.push(Action::FinishSweep);
                actions.push(Action::CheckOverrun);
                actions.push(Action::LedToggle(Led::LD5));
                self.state = SweepState::Before;
            },
        }
        actions
    }

    /// Looks at the timebase and generator buttons, and clears their flags.
    pub fn button_step(&mut self, ticker: &mut Ticker) -> (actions: Vec<Action>)
        ensures
            final(self)@ == old(self)@.button_next(old(ticker)@),
            final(ticker)@ == buttons_seen(old(ticker)@),
            actions@ == old(self)@.button_actions(old(ticker)@),
            old(self)@.wf(),
            final(self)@.wf(),
    {
        proof {
            use_type_invariant(&*self);
            ticker.lemma_view_bounds();
        }
        let mut actions: Vec<Action> = Vec::new();
        if ticker.button_get_changed(TIMEBASE_BUTTON) {
            ticker.button_reset_changed(TIMEBASE_BUTTON);
            if ticker.button_get_state(TIMEBASE_BUTTON) {
                self.timebase_index = (self.timebase_index + 1) % 17;
                let mut shown = set_capture_timebase_from_index(self.timebase_index);
                actions.append(&mut shown);
            }
        }
        if ticker.button_get_changed(SIGGEN_BUTTON) {
            ticker.button_reset_changed(SIGGEN_BUTTON);
            if ticker.button_get_state(SIGGEN_BUTTON) {
                self.siggen_freq_index = (self.siggen_freq_index + 1) % 9;
                let mut shown = set_siggen_freq_from_index(self.siggen_freq_index);
                actions.append(&mut shown);
            }
        }
        assert(ticker@.buttons =~= buttons_seen(old(ticker)@).buttons);
        actions
    }
}

} // verus!
