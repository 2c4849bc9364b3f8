//! Trace lines: one line of text for each report that passes a filter.
use crate::hid::{Event, EventKind};
use crate::protocol::Axis3;
use crate::text;
use vstd::prelude::*;
use vstd::string::*;

verus! {

/// Which reports are traced.
#[derive(Clone, Copy, Debug, PartialEq, Eq, Structural, Hash)]
pub enum TraceFilter {
    All,
    Keys,
    Axes,
    Ir,
    MotionPlus,
}

/// Whether an event type is a button transition.
pub open spec fn is_key_code(code: u32) -> bool {
    code == 0 || code == 5 || code == 8 || code == 10 || code == 12 || code == 14
}

/// Whether an event type holds axes.
pub open spec fn is_axis_code(code: u32) -> bool {
    1 <= code <= 4 || code == 6 || code == 9 || code == 11 || code == 13 || code == 15
}

impl TraceFilter {
    /// Whether a filter lets an event type pass.
    pub open spec fn admits(self, code: u32) -> bool {
        match self {
            TraceFilter::All => true,
            TraceFilter::Keys => is_key_code(code),
            TraceFilter::Axes => is_axis_code(code),
            TraceFilter::Ir => code == 2,
            TraceFilter::MotionPlus => code == 4,
        }
    }

    /// The filter of a name.
    pub open spec fn named(name: Seq<char>) -> Option<TraceFilter> {
        if name == "all"@ {
            Some(TraceFilter::All)
        } else if name == "keys"@ {
            Some(TraceFilter::Keys)
        } else if name == "axes"@ {
            Some(TraceFilter::Axes)
        } else if name == "ir"@ {
            Some(TraceFilter::Ir)
        } else if name == "motion-plus"@ {
            Some(TraceFilter::MotionPlus)
        } else {
            None
        }
    }

    /// Whether the filter lets an event type pass.
    pub fn matches(&self, code: u32) -> (r: bool)
        ensures
            r == self.admits(code),
    {
        match self {
            TraceFilter::All => true,
            TraceFilter::Keys => code == 0 || code == 5 || code == 8 || code == 10 || code == 12
                || code == 14,
            TraceFilter::Axes => (code >= 1 && code <= 4) || code == 6 || code == 9 || code == 11
                || code == 13 || code == 15,
            TraceFilter::Ir => code == 2,
            TraceFilter::MotionPlus => code == 4,
        }
    }

    /// The filter of a name.
    pub fn parse(name: &str) -> (filter: Option<TraceFilter>)
        ensures
            filter == TraceFilter::named(name@),
    {
        if text::same_text(name, "all") {
            Some(TraceFilter::All)
        } else if text::same_text(name, "keys") {
            Some(TraceFilter::Keys)
        } else if text::same_text(name, "axes") {
            Some(TraceFilter::Axes)
        } else if text::same_text(name, "ir") {
            Some(TraceFilter::Ir)
        } else if text::same_text(name, "motion-plus") {
            Some(TraceFilter::MotionPlus)
        } else {
            None
        }
    }
}

/// A time in microseconds, as seconds with six decimals.
pub open spec fn time_text(us: int) -> Seq<char> {
    if us < 0 {
        "-"@ + text::decimal(((-us) / 1000000) as nat) + "."@ + text::padded_decimal(
            ((-us) % 1000000) as nat,
            6,
        )
    } else {
        text::decimal((us / 1000000) as nat) + "."@ + text::padded_decimal(
            (us % 1000000) as nat,
            6,
        )
    }
}

/// The first `n` axes of a report.
pub open spec fn axes_text(axes: Seq<Axis3>, n: nat) -> Seq<char>
    decreases n,
{
    if n == 0 {
        Seq::empty()
    } else {
        let axis = axes[n - 1];
        axes_text(axes, (n - 1) as nat) + " abs"@ + text::decimal((n - 1) as nat) + "="@
            + text::signed_decimal(axis.x as int) + ","@ + text::signed_decimal(axis.y as int)
            + ","@ + text::signed_decimal(axis.z as int)
    }
}

/// What a report holds.
pub open spec fn payload_text(kind: EventKind) -> Seq<char> {
    match kind.spec_key() {
        Some((_, key)) => " key="@ + text::decimal(key.button.spec_code() as nat) + " state="@
            + text::decimal(key.state.spec_value() as nat),
        None => axes_text(kind.spec_axes(), kind.spec_axes().len()),
    }
}

/// The trace line of a report.
pub open spec fn trace_line(sequence: u64, us: i64, syspath: Seq<char>, event: Event) -> Seq<char> {
    "time="@ + time_text(us as int) + " seq="@ + text::decimal(sequence as nat) + " "@ + syspath
        + " "@ + event.kind.spec_name() + " type="@ + text::decimal(event.kind.spec_code() as nat)
        + payload_text(event.kind)
}

fn append_time(out: &mut String, us: i64)
    ensures
        final(out)@ == old(out)@ + time_text(us as int),
{
    let magnitude: u64 = if us == i64::MIN {
        0x8000_0000_0000_0000
    } else if us < 0 {
        (-us) as u64
    } else {
        us as u64
    };
    if us < 0 {
        out.append("-");
    }
    text::append_decimal(out, magnitude / 1000000);
    out.append(".");
    text::append_padded(out, magnitude % 1000000, 6);
    assert(out@ =~= old(out)@ + time_text(us as int));
}

fn append_axes(out: &mut String, axes: &Vec<Axis3>)
    ensures
        final(out)@ == old(out)@ + axes_text(axes@, axes@.len()),
{
    let mut i: usize = 0;
    assert(out@ =~= old(out)@ + axes_text(axes@, 0));
    while i < axes.len()
        invariant
            i <= axes.len(),
            out@ == old(out)@ + axes_text(axes@, i as nat),
        decreases axes.len() - i,
    {
        let axis = axes[i];
        out.append(" abs");
        text::append_decimal(out, i as u64);
        out.append("=");
        text::append_signed(out, axis.x as i64);
        out.append(",");
        text::append_signed(out, axis.y as i64);
        out.append(",");
        text::append_signed(out, axis.z as i64);
        i = i + 1;
        assert(out@ =~= old(out)@ + axes_text(axes@, i as nat));
    }
}

/// The trace line of a report.
pub fn format_trace_line(sequence: u64, monotonic_us: i64, syspath: &str, event: &Event) -> (line:
    String)
    ensures
        line@ == trace_line(sequence, monotonic_us, syspath@, *event),
{
    let mut line = "time=".to_owned();
    append_time(&mut line, monotonic_us);
    line.append(" seq=");
    text::append_decimal(&mut line, sequence);
    line.append(" ");
    line.append(syspath);
    line.append(" ");
    line.append(event.kind.name());
    line.append(" type=");
    text::append_decimal(&mut line, event.kind.event_type_code() as u64);
    let ghost head = line@;
    match event.kind.key_event() {
        Some((_, key)) => {
            line.append(" key=");
            text::append_decimal(&mut line, key.button.code() as u64);
            line.append(" state=");
            text::append_decimal(&mut line, key.state.value() as u64);
        },
        None => {
            let axes = event.kind.axis_events();
            append_axes(&mut line, &axes);
        },
    }
    assert(line@ =~= head + payload_text(event.kind));
    line
}

/// The sequence number after `sequence`. Zero is left out.
pub open spec fn next_sequence(sequence: u64) -> u64 {
    if sequence == u64::MAX {
        1
    } else {
        (sequence + 1) as u64
    }
}

/// The trace of one device. Its lines are numbered together with those of the other devices.
#[derive(Clone, Copy, Debug, PartialEq, Eq, Structural)]
pub struct TraceContext {
    pub filter: TraceFilter,
}

impl TraceContext {
    /// The line for a report, with its number and the time at which it is written, if the report
    /// passes the filter. A report that does not pass uses up no number.
    pub fn emit(&self, sequence: &mut u64, monotonic_us: i64, syspath: &str, event: &Event) -> (line:
        Option<String>)
        ensures
            if self.filter.admits(event.kind.spec_code()) {
                &&& *final(sequence) == next_sequence(*old(sequence))
                &&& line matches Some(text) && text@ == trace_line(
                    next_sequence(*old(sequence)),
                    monotonic_us,
                    syspath@,
                    *event,
                )
            } else {
                *final(sequence) == *old(sequence) && line is None
            },
    {
        if !self.filter.matches(event.kind.event_type_code()) {
            return None;
        }
        let next: u64 = if *sequence == u64::MAX {
            1
        } else {
            *sequence + 1
        };
        *sequence = next;
        Some(format_trace_line(next, monotonic_us, syspath, event))
    }
}

/// The microseconds of a monotonic clock, as far as they are representable. Without a clock the
/// time is zero.
pub open spec fn clock_us(clock: Option<(i64, i64)>) -> int {
    match clock {
        None => 0,
        Some((seconds, nanoseconds)) => {
            let whole = seconds * 1000000;
            let bounded = if whole > i64::MAX {
                i64::MAX as int
            } else if whole < i64::MIN {
                i64::MIN as int
            } else {
                whole
            };
            let sum = bounded + nanoseconds / 1000;
            if sum > i64::MAX {
                i64::MAX as int
            } else {
                sum
            }
        },
    }
}

/// The microseconds of a monotonic clock that shows these seconds and nanoseconds.
pub fn monotonic_time_us(clock: Option<(i64, i64)>) -> (us: i64)
    requires
        clock matches Some((_, nanoseconds)) ==> 0 <= nanoseconds < 1000000000,
    ensures
        us == clock_us(clock),
{
    match clock {
        None => 0,
        Some((seconds, nanoseconds)) => {
            let whole: i128 = seconds as i128 * 1000000;
            let bounded: i128 = if whole > i64::MAX as i128 {
                i64::MAX as i128
            } else if whole < i64::MIN as i128 {
                i64::MIN as i128
            } else {
                whole
            };
            let sum: i128 = bounded + (nanoseconds / 1000) as i128;
            if sum > i64::MAX as i128 {
                i64::MAX
            } else {
                sum as i64
            }
        },
    }
}

/// Every number is used once before any is used again, and zero never.
pub proof fn sequence_numbers_advance(sequence: u64)
    ensures
        next_sequence(sequence) != 0,
        sequence < u64::MAX ==> next_sequence(sequence) == sequence + 1,
{
}

} // verus!
