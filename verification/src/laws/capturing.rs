//! Captures of a running daemon: what they print, measure and end with.
use crate::calibration;
use crate::client::ClientError;
use crate::config_text;
use crate::live::{self, Capture, CaptureView, Query, QueryResult};
use crate::process::ProcessResult;
use crate::protocol::{DeviceInfo, InputPayload, Notification, Timestamp};
use crate::session::SessionEvent;
use crate::text;
use crate::trace::TraceFilter;
use crate::validation::{self, CalibrationResult, CaptureResult, CaptureTask, ValidationKind};
use vstd::prelude::*;
use vstd::string::*;

verus! {

/// A capture starts with nothing measured; one with a duration is of a single device.
pub proof fn captures_start_empty(
    selector: String,
    filter: TraceFilter,
    duration: Option<u64>,
    capture: Capture,
)
    requires
        call_ensures(Capture::start, (selector, filter, duration), capture),
    ensures
        capture@.accel.len() == 0 && capture@.motion.len() == 0,
        capture@.started is None && capture@.failed is None,
        capture@.filter == filter && capture@.duration == duration,
        capture@.session.selector == selector@ && capture@.session.single == (duration is Some),
        !capture@.session.cancelled,
{
}

/// During a calibration the samples of the two sensors are collected, each with its own; without a
/// duration none is.
pub proof fn calibrations_collect_samples(
    view: CaptureView,
    payload: InputPayload,
)
    ensures
        view.duration is None ==> view.sampling(payload) == view,
        view.duration is Some && view.accel.len() < u64::MAX ==> (
        payload matches InputPayload::Accel(sample) ==> view.sampling(payload).accel
            == view.accel.push(sample) && view.sampling(payload).motion == view.motion),
        view.duration is Some && view.motion.len() < u64::MAX ==> (
        payload matches InputPayload::MotionPlus(sample) ==> view.sampling(payload).motion
            == view.motion.push(sample) && view.sampling(payload).accel == view.accel),
        view.duration is Some && (payload is Watch || payload is Gone) ==> view.sampling(
            payload,
        ).failed is Some && view.sampling(payload).session.cancelled,
        !(payload is Accel || payload is MotionPlus || payload is Watch || payload is Gone)
            ==> view.sampling(payload) == view,
{
}

/// A connection starts the clock, input is sampled, and the removal of the device fails the capture.
pub proof fn events_drive_the_capture(view: CaptureView, event: SessionEvent, now: u64)
    ensures
        event is Connected ==> view.taking(event, now).started == Some(now) && view.taking(
            event,
            now,
        ).failed == view.failed,
        event matches SessionEvent::Notification(n) ==> {
            &&& n matches Notification::Input { payload, .. } ==> view.taking(event, now)
                == view.sampling(payload)
            &&& n matches Notification::DeviceRemoved { syspath, .. } ==> view.taking(
                event,
                now,
            ).failed == Some("Device disconnected: "@ + syspath@) && view.taking(
                event,
                now,
            ).session.cancelled
            &&& n is DeviceAdded ==> view.taking(event, now) == view
        },
{
}

/// A trace prints what its filter lets through; a calibration prints no input; a connection is
/// always printed.
pub proof fn traces_print_what_the_filter_lets_through(
    view: CaptureView,
    event: SessionEvent,
    payload: InputPayload,
    filter: &TraceFilter,
    code: u32,
    r: bool,
)
    requires
        *filter == view.filter,
        call_ensures(InputPayload::event_code, (&payload, ), code),
        call_ensures(TraceFilter::matches, (filter, code), r),
    ensures
        event is Connected ==> view.line(event) is Some,
        event matches SessionEvent::Notification(n) ==> {
            &&& n matches Notification::Input { payload: p, .. } ==> (p == payload ==> (view.line(
                event,
            ) is Some <==> view.duration is None && r))
            &&& !(n is Input) ==> view.line(event) is None
        },
{
}

/// A calibration expires when its time has passed since the connection, and is cancelled then.
pub proof fn calibrations_expire(view: CaptureView, now: u64)
    ensures
        view.expiring(now).session.cancelled <==> view.session.cancelled || (view.duration
            matches Some(time) && (view.started matches Some(start) && now - start >= time)),
        view.expiring(now).accel == view.accel && view.expiring(now).motion == view.motion,
{
}

/// A capture that failed, or whose session failed, ends without success; a trace ends with success;
/// a calibration ends with success exactly where a sensor was at rest.
pub proof fn captures_end(view: CaptureView)
    ensures
        view.session.outcome matches Some(Err(_)) ==> !view.end().success,
        view.failed is Some ==> !view.end().success,
        !(view.session.outcome matches Some(Err(_))) && view.failed is None ==> {
            &&& view.duration is None ==> view.end().success && view.end().stdout.len() == 0
            &&& view.duration is Some ==> (view.end().success <==> calibration::rest_position(
                view.accel,
            ) is Some || calibration::rest_position(view.motion) is Some)
        },
{
}

/// A capture ends exactly when its session has ended and everything was received.
pub proof fn captures_end_with_their_session(
    capture: &mut Capture,
    now: u64,
    form: &mut crate::model::ConfigModel,
    result: Option<ProcessResult>,
)
    requires
        call_ensures(Capture::poll, (capture, now, form), result),
        old(capture)@.session.undelivered.len() == 0,
    ensures
        result is Some <==> old(capture)@.session.outcome is Some,
        result matches Some(end) ==> (end.success ==> old(capture)@.failed is None),
        final(form).config == old(form).config && final(form).dirty == old(form).dirty,
        final(form).output@ == old(form).output@,
{
    let view = old(capture)@;
    reveal_with_fuel(CaptureView::drained, 2);
    reveal_with_fuel(CaptureView::logged, 2);
    assert(view.drained(now, 256) == view);
    captures_end(view.expiring(now));
}

/// A capture that is cancelled is so for its session.
pub proof fn cancelled_captures_cancel_their_session(capture: &mut Capture)
    requires
        call_ensures(Capture::cancel, (capture, ), ()),
    ensures
        final(capture)@.session.cancelled,
        final(capture)@.accel == old(capture)@.accel,
{
}

/// A line of input tells the number, the time with six decimals, and the device.
pub proof fn input_lines_tell_their_device(
    sequence: u64,
    syspath: &str,
    timestamp: Timestamp,
    payload: &InputPayload,
    line: String,
)
    requires
        call_ensures(live::format_input_line, (sequence, syspath, timestamp, payload), line),
        *payload is Watch,
    ensures
        line@ == "seq="@ + text::decimal(sequence as nat) + " time="@ + text::signed_decimal(
            timestamp.seconds as int,
        ) + "."@ + text::padded_decimal(timestamp.micros as nat, 6) + " device="@ + syspath@ + " "@
            + "Watch"@ + "\n"@,
{
}

/// Devices are listed by their place, their path and their profile.
pub proof fn device_lines_tell_the_profile(devices: &Vec<DeviceInfo>, lines: String)
    requires
        call_ensures(live::format_devices, (devices, ), lines),
        devices@.len() == 1,
    ensures
        devices@[0].profile is Gamepad ==> lines@ == "1"@ + "\t"@ + devices@[0].syspath@ + "\t"@
            + "Gamepad"@ + "\n"@,
        devices@[0].profile is Desktop ==> lines@ == "1"@ + "\t"@ + devices@[0].syspath@ + "\t"@
            + "Desktop"@ + "\n"@,
        devices@[0].profile is Both ==> lines@ == "1"@ + "\t"@ + devices@[0].syspath@ + "\t"@
            + "Both"@ + "\n"@,
{
    reveal_with_fuel(live::device_lines, 2);
    reveal_strlit("1");
    assert(text::decimal(1) =~= "1"@);
    assert(lines@ =~= "1"@ + "\t"@ + devices@[0].syspath@ + "\t"@ + live::profile_name(
        devices@[0].profile,
    ) + "\n"@);
}

/// A query is answered once: the answer is taken, and then there is none.
pub proof fn queries_are_answered_once(
    query: &mut Query,
    answer: QueryResult,
    asked: &mut Query,
    first: Option<Result<QueryResult, String>>,
    again: &mut Query,
    second: Option<Result<QueryResult, String>>,
)
    requires
        call_ensures(Query::complete, (query, Ok(answer)), ()),
        *old(asked) == *final(query),
        call_ensures(Query::take, (asked, ), first),
        *old(again) == *final(asked),
        call_ensures(Query::take, (again, ), second),
    ensures
        first matches Some(Ok(a)) && a == answer,
        second is None,
{
}

/// A query that failed tells the reason.
pub proof fn failed_queries_tell_the_reason(
    query: &mut Query,
    error: ClientError,
    asked: &mut Query,
    answer: Option<Result<QueryResult, String>>,
)
    requires
        call_ensures(Query::complete, (query, Err(error)), ()),
        *old(asked) == *final(query),
        call_ensures(Query::take, (asked, ), answer),
    ensures
        answer matches Some(Err(reason)) && reason@ == "Cannot query running daemon: "@
            + error.text() + ". Start or upgrade the service and retry."@,
{
}

/// A query asks for devices or for the state, and has no answer before one arrives.
pub proof fn queries_start_unanswered(
    devices: bool,
    query: Query,
    asked: &Query,
    r: bool,
)
    requires
        call_ensures(Query::start, (devices, ), query),
        *asked == query,
        call_ensures(Query::is_status, (asked, ), r),
    ensures
        query@.answer is None,
        r == !devices,
{
}

/// A capture that failed gives its reason; a trace that succeeded gives nothing more; a calibration
/// that succeeded gives the sensors that were measured, at least one.
pub proof fn captures_give_their_results(
    result: ProcessResult,
    kind: ValidationKind,
    decoded: Result<CaptureResult, String>,
)
    requires
        call_ensures(validation::decode_capture_result, (result, kind), decoded),
    ensures
        !result.success ==> decoded is Err,
        !result.success ==> (result.error matches Some(e) ==> (decoded matches Err(reason)
            && reason@ == e@)),
        result.success && kind is Trace ==> decoded == Ok::<CaptureResult, String>(
            CaptureResult::TraceStopped,
        ),
        decoded matches Ok(CaptureResult::Calibrated(value)) ==> kind is Calibration
            && result.success && (value.accel is Some || value.motion_plus is Some),
{
}

/// A calibration is read from the two settings that hold it.
pub proof fn calibrations_are_read_from_settings(
    bytes: &[u8],
    result: Result<CalibrationResult, String>,
    config: crate::config::ConfigView,
)
    requires
        call_ensures(validation::decode_calibration, (bytes, ), result),
        config_text::parsed("calibration-output"@, bytes@) == Ok::<
            crate::config::ConfigView,
            config_text::ConfigErrorView,
        >(config),
    ensures
        result is Ok <==> config.aim_accel_zero is Some || config.aim_motion_plus_bias is Some,
        result matches Ok(value) ==> value.accel == config.aim_accel_zero && value.motion_plus
            == config.aim_motion_plus_bias,
{
}

/// Stopping a capture terminates its process, or cancels its session.
pub proof fn stopped_captures_stop(task: &mut CaptureTask)
    requires
        call_ensures(CaptureTask::terminate, (task, ), ()),
    ensures
        *old(task) is Direct ==> (final(task)@ matches validation::CaptureTaskView::Direct {
            terminated,
            ..
        } && terminated),
        *old(task) is Daemon ==> (final(task)@ matches validation::CaptureTaskView::Daemon(c)
            && c.session.cancelled),
{
}

/// A capture of a session that runs already goes on with it.
pub proof fn captures_take_over_sessions(
    session: crate::session::Session,
    filter: TraceFilter,
    duration: Option<u64>,
    capture: Capture,
)
    requires
        call_ensures(Capture::with_session, (session, filter, duration), capture),
    ensures
        capture@.session == session@,
        capture@.filter == filter && capture@.duration == duration,
        capture@.accel.len() == 0 && capture@.motion.len() == 0 && capture@.failed is None,
{
}

/// A capture task ends as its process or its session does.
pub proof fn capture_tasks_end(
    task: &mut CaptureTask,
    now: u64,
    form: &mut crate::model::ConfigModel,
    kind: ValidationKind,
    result: Option<Result<CaptureResult, String>>,
)
    requires
        call_ensures(CaptureTask::poll, (task, now, form, kind), result),
    ensures
        result is Some <==> old(task)@.end(now) is Some,
        old(task)@.end(now) matches Some(end) ==> (!end.success ==> (result matches Some(Err(_)))),
        old(task)@.end(now) matches Some(end) ==> (end.success && kind is Trace ==> result == Some(
            Ok::<CaptureResult, String>(CaptureResult::TraceStopped),
        )),
        final(form).config == old(form).config,
{
}

/// The text of an answer is given once.
pub proof fn answers_are_put_in_words(
    query: &mut Query,
    answer: Option<Result<String, String>>,
)
    requires
        call_ensures(Query::poll, (query, ), answer),
    ensures
        answer is None <==> old(query)@.answer is None,
        answer matches Some(Ok(_)) <==> old(query)@.answer matches Some(Ok(_)),
        final(query)@.answer is None,
{
}

} // verus!
