//! The display frame and the control cycle that rebuilds it.

use vstd::prelude::*;
use vstd::utf8::is_ascii_chars;
use crate::policy::{needs_water, relay_level, spec_needs_water, spec_relay_level, RelayLevel};
use crate::text::{
    decimal, lemma_decimal_len, line_clear, line_new, line_push_str, pow10, push_decimal, text_of,
    Line, LINE_CAPACITY,
};

verus! {

/// One decoded temperature/humidity reading, in whole degrees Celsius and
/// whole percent of relative humidity.
#[derive(Clone, Copy, Debug, PartialEq, Eq, Structural)]
pub struct Reading {
    pub temperature: u8,
    pub humidity: u8,
}

/// What one read of the temperature/humidity sensor gave.
#[derive(Clone, Copy, Debug, PartialEq, Eq, Structural)]
pub enum SensorOutcome {
    Success(Reading),
    TimingError,
}

/// The five lines of a frame, as character sequences.
pub struct FrameView {
    pub moisture: Seq<char>,
    pub relay: Seq<char>,
    pub temperature: Seq<char>,
    pub humidity: Seq<char>,
    pub error: Seq<char>,
}

/// The moisture line: the raw sample in decimal.
pub open spec fn moisture_text(sample: u16) -> Seq<char> {
    "Moisture Analog "@ + decimal(sample as nat)
}

/// The relay line: whether the pump is on.
pub open spec fn relay_text(level: RelayLevel) -> Seq<char> {
    match level {
        RelayLevel::On => "Pump On"@,
        RelayLevel::Off => "Pump Off"@,
    }
}

/// The temperature line, in degrees Celsius.
pub open spec fn temperature_text(t: u8) -> Seq<char> {
    "Temperature "@ + decimal(t as nat) + "C"@
}

/// The humidity line, in percent.
pub open spec fn humidity_text(h: u8) -> Seq<char> {
    "Humidity "@ + decimal(h as nat) + "%"@
}

/// The error line after a failed sensor read.
pub open spec fn error_text() -> Seq<char> {
    "DHT Timing Error"@
}

/// The frame before the first cycle: every line empty.
pub open spec fn initial_frame() -> FrameView {
    FrameView {
        moisture: Seq::empty(),
        relay: Seq::empty(),
        temperature: Seq::empty(),
        humidity: Seq::empty(),
        error: Seq::empty(),
    }
}

/// The frame after one cycle. Moisture, relay and error lines are rebuilt
/// from this cycle's inputs; temperature and humidity lines are rewritten
/// only on a successful read and otherwise keep their previous text.
pub open spec fn next_frame(prev: FrameView, outcome: SensorOutcome, sample: u16) -> FrameView {
    FrameView {
        moisture: moisture_text(sample),
        relay: relay_text(spec_relay_level(spec_needs_water(sample))),
        temperature: match outcome {
            SensorOutcome::Success(r) => temperature_text(r.temperature),
            SensorOutcome::TimingError => prev.temperature,
        },
        humidity: match outcome {
            SensorOutcome::Success(r) => humidity_text(r.humidity),
            SensorOutcome::TimingError => prev.humidity,
        },
        error: match outcome {
            SensorOutcome::Success(_) => Seq::empty(),
            SensorOutcome::TimingError => error_text(),
        },
    }
}

/// The text buffers of the status display.
pub struct DisplayFrame {
    pub moisture: Line,
    pub relay: Line,
    pub temperature: Line,
    pub humidity: Line,
    pub error: Line,
}

impl View for DisplayFrame {
    type V = FrameView;

    open spec fn view(&self) -> FrameView {
        FrameView {
            moisture: text_of(self.moisture),
            relay: text_of(self.relay),
            temperature: text_of(self.temperature),
            humidity: text_of(self.humidity),
            error: text_of(self.error),
        }
    }
}

/// The fixed texts of the display are ASCII, of these lengths.
proof fn lemma_ascii_literals()
    ensures
        is_ascii_chars("Moisture Analog "@),
        is_ascii_chars("Pump On"@),
        is_ascii_chars("Pump Off"@),
        is_ascii_chars("Temperature "@),
        is_ascii_chars("Humidity "@),
        is_ascii_chars("C"@),
        is_ascii_chars("%"@),
        is_ascii_chars("DHT Timing Error"@),
        "Moisture Analog "@.len() == 16,
        "Temperature "@.len() == 12,
        "Humidity "@.len() == 9,
        "C"@.len() == 1,
        "%"@.len() == 1,
        "Pump On"@.len() == 7,
        "Pump Off"@.len() == 8,
        "DHT Timing Error"@.len() == 16,
{
    reveal_strlit("Moisture Analog ");
    reveal_strlit("Pump On");
    reveal_strlit("Pump Off");
    reveal_strlit("Temperature ");
    reveal_strlit("Humidity ");
    reveal_strlit("C");
    reveal_strlit("%");
    reveal_strlit("DHT Timing Error");
}

impl DisplayFrame {
    /// A frame whose lines are all empty.
    pub fn new() -> (r: DisplayFrame)
        ensures
            r@ == initial_frame(),
    {
        DisplayFrame {
            moisture: line_new(),
            relay: line_new(),
            temperature: line_new(),
            humidity: line_new(),
            error: line_new(),
        }
    }
}

/// Writes `prefix`, the decimal notation of `value` and `suffix` into a
/// cleared line.
fn write_value_line(line: &mut Line, prefix: &str, value: u8, suffix: &str)
    requires
        is_ascii_chars(prefix@),
        is_ascii_chars(suffix@),
        prefix@.len() + 3 + suffix@.len() <= LINE_CAPACITY,
    ensures
        text_of(*final(line)) == prefix@ + decimal(value as nat) + suffix@,
{
    proof {
        reveal_with_fuel(pow10, 4);
        lemma_decimal_len(value as nat, 3, pow10(3));
    }
    line_clear(line);
    let _ = line_push_str(line, prefix);
    assert(text_of(*line) =~= prefix@);
    push_decimal(line, value as u32);
    let _ = line_push_str(line, suffix);
}

impl DisplayFrame {
    /// Runs the decisions of one control cycle on this cycle's sensor
    /// outcome and moisture sample: rebuilds the lines and returns the level
    /// the relay must be driven to.
    pub fn run_cycle(&mut self, outcome: SensorOutcome, sample: u16) -> (level: RelayLevel)
        ensures
            level == spec_relay_level(spec_needs_water(sample)),
            final(self)@ == next_frame(old(self)@, outcome, sample),
    {
        proof {
            lemma_ascii_literals();
            reveal_with_fuel(pow10, 6);
            lemma_decimal_len(sample as nat, 5, pow10(5));
        }
        line_clear(&mut self.moisture);
        line_clear(&mut self.relay);
        line_clear(&mut self.error);
        match outcome {
            SensorOutcome::Success(r) => {
                write_value_line(&mut self.temperature, "Temperature ", r.temperature, "C");
                write_value_line(&mut self.humidity, "Humidity ", r.humidity, "%");
            },
            SensorOutcome::TimingError => {
                let _ = line_push_str(&mut self.error, "DHT Timing Error");
                assert(text_of(self.error) =~= error_text());
            },
        }
        let level = relay_level(needs_water(sample));
        match level {
            RelayLevel::On => {
                let _ = line_push_str(&mut self.relay, "Pump On");
            },
            RelayLevel::Off => {
                let _ = line_push_str(&mut self.relay, "Pump Off");
            },
        }
        assert(text_of(self.relay) =~= relay_text(level));
        let _ = line_push_str(&mut self.moisture, "Moisture Analog ");
        assert(text_of(self.moisture) =~= "Moisture Analog "@);
        push_decimal(&mut self.moisture, sample as u32);
        assert(self@ =~= next_frame(old(self)@, outcome, sample));
        level
    }
}

/// Number of lines in a frame.
pub const LINE_COUNT: usize = 5;

/// Column at which every line starts.
pub const LINE_X: i32 = 5;

/// The text of line `i`, top to bottom: moisture, relay, temperature,
/// humidity, error.
pub open spec fn line_text(v: FrameView, i: int) -> Seq<char> {
    if i == 0 {
        v.moisture
    } else if i == 1 {
        v.relay
    } else if i == 2 {
        v.temperature
    } else if i == 3 {
        v.humidity
    } else {
        v.error
    }
}

/// The row at which line `i` is drawn: ten pixels apart, from row 5.
pub open spec fn line_row(i: int) -> int {
    5 + 10 * i
}

/// A full repaint: each line with the column and row it is drawn at, in
/// drawing order, after the display has been cleared.
pub open spec fn render_plan(v: FrameView) -> Seq<(Seq<char>, int, int)> {
    Seq::new(LINE_COUNT as nat, |i: int| (line_text(v, i), LINE_X as int, line_row(i)))
}

impl DisplayFrame {
    /// Line `index` of the frame, in drawing order.
    pub fn line(&self, index: usize) -> (r: &Line)
        requires
            index < LINE_COUNT,
        ensures
            text_of(*r) == line_text(self@, index as int),
    {
        if index == 0 {
            &self.moisture
        } else if index == 1 {
            &self.relay
        } else if index == 2 {
            &self.temperature
        } else if index == 3 {
            &self.humidity
        } else {
            &self.error
        }
    }
}

/// The column and row at which line `index` is drawn.
pub fn line_origin(index: usize) -> (r: (i32, i32))
    requires
        index < LINE_COUNT,
    ensures
        r.0 == LINE_X,
        r.1 == line_row(index as int),
{
    (LINE_X, 5 + 10 * index as i32)
}

/// Running a cycle a second time on the same sensor outcome and sample
/// leaves the frame, and so its repaint, exactly as the first run left it.
pub proof fn lemma_cycle_idempotent(prev: FrameView, outcome: SensorOutcome, sample: u16)
    ensures
        next_frame(next_frame(prev, outcome, sample), outcome, sample) == next_frame(
            prev,
            outcome,
            sample,
        ),
        render_plan(next_frame(next_frame(prev, outcome, sample), outcome, sample)) == render_plan(
            next_frame(prev, outcome, sample),
        ),
{
}

/// The frame after a sequence of cycles, each given by its sensor outcome
/// and moisture sample, starting from the empty frame.
pub open spec fn frame_after(cycles: Seq<(SensorOutcome, u16)>) -> FrameView
    decreases cycles.len(),
{
    if cycles.len() == 0 {
        initial_frame()
    } else {
        let last = cycles.last();
        next_frame(frame_after(cycles.drop_last()), last.0, last.1)
    }
}

/// The reading of the latest successful sensor read among `cycles`.
pub open spec fn last_success(cycles: Seq<(SensorOutcome, u16)>) -> Option<Reading>
    decreases cycles.len(),
{
    if cycles.len() == 0 {
        None
    } else {
        match cycles.last().0 {
            SensorOutcome::Success(r) => Some(r),
            SensorOutcome::TimingError => last_success(cycles.drop_last()),
        }
    }
}

/// After any sequence of cycles, the temperature and humidity lines show
/// the latest successful reading, or stay empty if no read has succeeded;
/// the error line is empty after a successful read and shows the timing
/// error text after a failed one.
pub proof fn lemma_sensor_lines(cycles: Seq<(SensorOutcome, u16)>)
    ensures
        frame_after(cycles).temperature == match last_success(cycles) {
            Some(r) => temperature_text(r.temperature),
            None => Seq::<char>::empty(),
        },
        frame_after(cycles).humidity == match last_success(cycles) {
            Some(r) => humidity_text(r.humidity),
            None => Seq::<char>::empty(),
        },
        cycles.len() > 0 && cycles.last().0 is Success ==> frame_after(cycles).error.len() == 0,
        cycles.len() > 0 && cycles.last().0 is TimingError ==> frame_after(cycles).error
            == error_text() && frame_after(cycles).error.len() > 0,
    decreases cycles.len(),
{
    lemma_ascii_literals();
    if cycles.len() > 0 {
        lemma_sensor_lines(cycles.drop_last());
    }
}

} // verus!
