//! Trace lines, their numbers and their filters.
use crate::hid::{Event, EventKind};
use crate::input::{ButtonEvent, InputSource};
use crate::protocol::Axis3;
use crate::text;
use crate::trace::{self, TraceContext, TraceFilter};
use vstd::prelude::*;
use vstd::string::*;

verus! {

/// A filter lets through what it is named after: all reports, those with a button, those with axes,
/// the camera's, or the gyroscope's.
pub proof fn filters_let_through_their_kind(
    filter: &TraceFilter,
    kind: &EventKind,
    code: u32,
    key: Option<(InputSource, ButtonEvent)>,
    axes: Vec<Axis3>,
    r: bool,
)
    requires
        call_ensures(EventKind::event_type_code, (kind, ), code),
        call_ensures(EventKind::key_event, (kind, ), key),
        call_ensures(EventKind::axis_events, (kind, ), axes),
        call_ensures(TraceFilter::matches, (filter, code), r),
        *kind !is Unknown,
    ensures
        *filter is All ==> r,
        *filter is Keys ==> r == (key is Some),
        *filter is Axes ==> r == (axes@.len() > 0),
        *filter is Ir ==> r == (*kind is Ir),
        *filter is MotionPlus ==> r == (*kind is MotionPlus),
{
}

/// Filters are named by these words, and by no other.
pub proof fn filters_have_names(name: &str, filter: Option<TraceFilter>)
    requires
        call_ensures(TraceFilter::parse, (name, ), filter),
    ensures
        filter == Some(TraceFilter::All) <==> name@ == "all"@,
        filter == Some(TraceFilter::Keys) <==> name@ == "keys"@,
        filter == Some(TraceFilter::Axes) <==> name@ == "axes"@,
        filter == Some(TraceFilter::Ir) <==> name@ == "ir"@,
        filter == Some(TraceFilter::MotionPlus) <==> name@ == "motion-plus"@,
{
    reveal_strlit("all");
    reveal_strlit("keys");
    reveal_strlit("axes");
    reveal_strlit("ir");
    reveal_strlit("motion-plus");
    assert("all"@[0] == 'a' && "all"@.len() == 3);
    assert("keys"@[0] == 'k' && "keys"@.len() == 4);
    assert("axes"@[0] == 'a' && "axes"@.len() == 4);
    assert("ir"@.len() == 2);
    assert("motion-plus"@.len() == 11);
}

/// A report that the filter lets through makes one line with the next number; any other makes none,
/// and takes no number.
pub proof fn lines_are_numbered(
    context: &TraceContext,
    sequence: &mut u64,
    us: i64,
    syspath: &str,
    event: &Event,
    line: Option<String>,
    code: u32,
    r: bool,
)
    requires
        call_ensures(TraceContext::emit, (context, sequence, us, syspath, event), line),
        call_ensures(EventKind::event_type_code, (&event.kind, ), code),
        call_ensures(TraceFilter::matches, (&context.filter, code), r),
    ensures
        line is Some <==> r,
        !r ==> *final(sequence) == *old(sequence),
        r ==> *final(sequence) != 0,
        r && *old(sequence) < u64::MAX ==> *final(sequence) == *old(sequence) + 1,
        r && *old(sequence) == u64::MAX ==> *final(sequence) == 1,
{
}

/// The line of a report is the line that is emitted, with the number that was taken.
pub proof fn emitted_lines_are_formatted_lines(
    context: &TraceContext,
    sequence: &mut u64,
    us: i64,
    syspath: &str,
    event: &Event,
    line: Option<String>,
    formatted: String,
)
    requires
        call_ensures(TraceContext::emit, (context, sequence, us, syspath, event), line),
        call_ensures(trace::format_trace_line, (*final(sequence), us, syspath, event), formatted),
    ensures
        line matches Some(text) ==> text@ == formatted@,
{
}

/// A line tells the time in seconds with six decimals, the number, the device, the kind with its
/// code, and the button with its state.
pub proof fn lines_of_buttons(
    sequence: u64,
    seconds: nat,
    micros: nat,
    us: i64,
    syspath: &str,
    event: &Event,
    line: String,
    button: ButtonEvent,
)
    requires
        call_ensures(trace::format_trace_line, (sequence, us, syspath, event), line),
        us == seconds * 1000000 + micros,
        micros < 1000000,
        event.kind == EventKind::Key(button),
    ensures
        line@ == "time="@ + text::decimal(seconds) + "."@ + text::padded_decimal(micros, 6)
            + " seq="@ + text::decimal(sequence as nat) + " "@ + syspath@ + " "@ + "key"@
            + " type="@ + text::decimal(0) + " key="@ + text::decimal(
            button.button.spec_code() as nat,
        ) + " state="@ + text::decimal(button.state.spec_value() as nat),
{
    assert(us / 1000000 == seconds && us % 1000000 == micros) by (nonlinear_arith)
        requires
            us == seconds * 1000000 + micros,
            0 <= micros < 1000000,
            seconds >= 0,
    ;
    assert(line@ =~= "time="@ + text::decimal(seconds) + "."@ + text::padded_decimal(micros, 6)
        + " seq="@ + text::decimal(sequence as nat) + " "@ + syspath@ + " "@ + "key"@ + " type="@
        + text::decimal(0) + " key="@ + text::decimal(button.button.spec_code() as nat)
        + " state="@ + text::decimal(button.state.spec_value() as nat));
}

/// A line of a sensor tells its three axes.
pub proof fn lines_of_sensors(
    sequence: u64,
    seconds: nat,
    micros: nat,
    us: i64,
    syspath: &str,
    event: &Event,
    line: String,
    reading: Axis3,
)
    requires
        call_ensures(trace::format_trace_line, (sequence, us, syspath, event), line),
        us == seconds * 1000000 + micros,
        micros < 1000000,
        event.kind == EventKind::Accel(reading),
    ensures
        line@ == "time="@ + text::decimal(seconds) + "."@ + text::padded_decimal(micros, 6)
            + " seq="@ + text::decimal(sequence as nat) + " "@ + syspath@ + " "@ + "accel"@
            + " type="@ + text::decimal(1) + " abs"@ + text::decimal(0) + "="@
            + text::signed_decimal(reading.x as int) + ","@ + text::signed_decimal(reading.y as int)
            + ","@ + text::signed_decimal(reading.z as int),
{
    assert(us / 1000000 == seconds && us % 1000000 == micros) by (nonlinear_arith)
        requires
            us == seconds * 1000000 + micros,
            0 <= micros < 1000000,
            seconds >= 0,
    ;
    reveal_with_fuel(trace::axes_text, 2);
    assert(line@ =~= "time="@ + text::decimal(seconds) + "."@ + text::padded_decimal(micros, 6)
        + " seq="@ + text::decimal(sequence as nat) + " "@ + syspath@ + " "@ + "accel"@ + " type="@
        + text::decimal(1) + " abs"@ + text::decimal(0) + "="@ + text::signed_decimal(
        reading.x as int,
    ) + ","@ + text::signed_decimal(reading.y as int) + ","@ + text::signed_decimal(
        reading.z as int,
    ));
}

/// The clock's seconds and nanoseconds are told in microseconds, and no clock is the time zero.
pub proof fn the_clock_counts_microseconds(clock: Option<(i64, i64)>, us: i64)
    requires
        call_ensures(trace::monotonic_time_us, (clock, ), us),
    ensures
        clock is None ==> us == 0,
        clock matches Some((s, ns)) ==> (0 <= ns < 1000000000 && -9000000000000 < s
            < 9000000000000 ==> 0 <= ns - (us - s * 1000000) * 1000 < 1000),
{
}

} // verus!
