//! What is said: the messages of errors, and the words of the control center.
use crate::client::{self, Client, ClientError};
use crate::config::{AimMode, Config, ConfigProblem, Setting};
use crate::config_text::{ConfigError, ConfigFault};
use crate::control::{ConfigSection, ControlCenter};
use crate::failure::IoFailure;
use crate::form;
use crate::live;
use crate::process::{self, End, ServiceAction};
use crate::protocol::{
    Axis3, InputPayload, ProtocolError, ProtocolErrorCode, ResponseResult, Status,
};
use crate::rules;
use crate::smoke::SmokeReport;
use crate::text;
use vstd::prelude::*;

verus! {

/// The errors of a client say what went wrong, and with what.
pub proof fn client_errors_say_what_went_wrong(error: &ClientError, said: String)
    requires
        call_ensures(ClientError::describe, (error, ), said),
    ensures
        *error matches ClientError::Io(failure) ==> said@ == "IPC I/O error: "@ + failure.message@,
        *error matches ClientError::Frame(e) ==> said@ == "IPC framing error: "@ + e.message@,
        *error matches ClientError::Server { error: e } ==> said@ == "IPC server error: "@
            + e.message@,
        *error matches ClientError::UnexpectedResponseId { expected, actual } ==> said@
            == "IPC response id mismatch: expected "@ + text::decimal(expected as nat) + ", got "@
            + text::decimal(actual as nat),
        *error is UnexpectedMessage ==> said@ == "unexpected IPC message"@,
        *error matches ClientError::UnsupportedVersion { major, minor } ==> said@
            == "unsupported IPC protocol version "@ + text::decimal(major as nat) + "."@
            + text::decimal(minor as nat),
        *error matches ClientError::NotificationBacklogExceeded { limit } ==> said@
            == "IPC notification backlog exceeded the "@ + text::decimal(limit as nat)
            + "-byte limit"@,
        *error matches ClientError::SessionBacklogExceeded { limit } ==> said@
            == "IPC session exceeded its "@ + text::decimal(limit as nat)
            + "-event queue; reconnect to resume"@,
        *error matches ClientError::UnsupportedFeature { peer_minor, required_minor } ==> said@
            == "operation requires daemon protocol 1."@ + text::decimal(required_minor as nat)
            + "; connected daemon provides 1."@ + text::decimal(peer_minor as nat),
        *error is PrematureEof ==> said@ == "IPC peer closed the connection"@,
        *error is RuntimeDirectoryMissing ==> said@ == "XDG_RUNTIME_DIR is not set"@,
        *error matches ClientError::RuntimeDirectoryRelative(path) ==> said@
            == "XDG_RUNTIME_DIR is not absolute: "@ + path@,
{
}

/// A connection that broke is the end of it; any other failure is told as it is.
pub proof fn broken_connections_are_ends(failure: IoFailure, error: ClientError)
    requires
        call_ensures(client::map_stream_io_error, (failure, ), error),
    ensures
        failure.kind is ConnectionReset || failure.kind is BrokenPipe || failure.kind
            is UnexpectedEof ==> error is PrematureEof,
        failure.kind is WouldBlock || failure.kind is TimedOut || failure.kind is NotFound
            || failure.kind is PermissionDenied ==> error == ClientError::Io(failure),
{
}

/// A client takes part in a feature from its minor version on, and in nothing once it has ended.
pub proof fn features_need_a_version(
    client: &Client,
    required: u16,
    feature: Result<(), ClientError>,
    active: Result<(), ClientError>,
    version: (u16, u16),
)
    requires
        call_ensures(Client::require_minor, (client, required), feature),
        call_ensures(Client::ensure_active, (client, ), active),
        call_ensures(Client::protocol_version, (client, ), version),
    ensures
        feature is Ok <==> required <= client@.protocol_minor,
        active is Ok <==> !client@.terminated,
        version.0 == 1 && version.1 == client@.protocol_minor,
{
}

/// A request waits until its deadline, and no longer; without a deadline it waits.
pub proof fn requests_have_a_deadline(
    deadline: Option<u64>,
    now: u64,
    result: Result<Option<u64>, ClientError>,
)
    requires
        call_ensures(Client::read_timeout, (deadline, now), result),
    ensures
        deadline is None ==> result == Ok::<Option<u64>, ClientError>(None),
        deadline matches Some(end) ==> (now < end ==> (result matches Ok(Some(left)) && now + left
            == end)),
        deadline matches Some(end) ==> (now >= end ==> (result matches Err(ClientError::Io(failure))
            && failure.kind is TimedOut)),
{
}

/// A reply counts where the line was put back in order; a failure of the request counts first.
pub proof fn replies_count_on_a_line_in_order(
    reply: Result<ResponseResult, ClientError>,
    restored: Result<(), IoFailure>,
    result: Result<ResponseResult, ClientError>,
)
    requires
        call_ensures(Client::finish_request, (reply, restored), result),
    ensures
        restored is Ok ==> result == reply,
        reply is Err ==> result == reply,
        reply is Ok ==> (restored matches Err(failure) ==> result == Err::<
            ResponseResult,
            ClientError,
        >(ClientError::Io(failure))),
{
}

/// A fault of a configuration names the line or the problem, and the file where there is one.
pub proof fn configuration_errors_name_the_place(error: &ConfigError, said: String)
    requires
        call_ensures(ConfigError::describe, (error, ), said),
    ensures
        error.origin matches Some(file) ==> {
            &&& error.fault matches ConfigFault::Line(n) ==> said@ == file@ + ": "@ + (
            "invalid configuration on line "@ + text::decimal(n as nat))
            &&& error.fault is NotText ==> said@ == file@ + ": "@
                + "configuration is not valid UTF-8"@
            &&& error.fault is Incomplete ==> said@ == file@ + ": "@
                + "incomplete calibration values"@
            &&& error.fault matches ConfigFault::Io(failure) ==> said@ == file@ + ": "@
                + failure.message@
        },
        error.origin is None ==> (error.fault is NotText ==> said@
            == "configuration is not valid UTF-8"@),
{
    assert(error@.fault == error.fault);
    if let Some(file) = error.origin {
        assert(error@.origin == Some(file@));
    }
}

/// A problem names the setting, or the rule by its place counted from one.
pub proof fn problems_name_the_setting(problem: &ConfigProblem, said: String, name: &'static str)
    requires
        call_ensures(ConfigProblem::describe, (problem, ), said),
    ensures
        *problem matches ConfigProblem::OutOfRange(setting) ==> (call_ensures(
            Setting::as_str,
            (setting, ),
            name,
        ) ==> said@ == name@ + " is out of range"@),
        *problem is TooManyRules ==> said@ == "too many device rules"@,
        *problem matches ConfigProblem::BlankRule(i) ==> (i < usize::MAX ==> said@
            == "device rule "@
            + text::decimal((i + 1) as nat) + " has no match text"@),
{
}

/// The sections have their titles.
pub proof fn sections_have_titles(section: ConfigSection, label: &'static str)
    requires
        call_ensures(ConfigSection::label, (section, ), label),
    ensures
        section is Pointer ==> label@ == "Profile & pointer"@,
        section is Motion ==> label@ == "Motion aiming"@,
        section is Bindings ==> label@ == "Button bindings"@,
        section is Rules ==> label@ == "Device rules"@,
{
}

/// The note beside a mode of aiming is that mode's.
pub proof fn modes_have_notes(mode: AimMode, note: &'static str)
    requires
        call_ensures(form::aim_note, (mode, ), note),
    ensures
        mode is Off ==> note@
            == "Motion is off. Your response and calibration settings are kept for next time."@,
        mode is RightStick ==> note@
            == "Motion drives the gamepad right stick, even with the Desktop profile."@,
        mode is Mouse ==> note@
            == "Motion drives the mouse pointer, even with the Gamepad profile."@,
{
}

/// The rules are counted out of sixty-four.
pub proof fn rules_are_counted(config: &Config, said: String)
    requires
        call_ensures(rules::rule_count_text, (config, ), said),
    ensures
        said@ == text::decimal(config.device_rules@.len()) + " / "@ + text::decimal(64)
            + " rules"@,
{
}

/// An action on the service is told by its name, and whether it succeeded; a query is not told.
pub proof fn service_actions_are_told(center: ControlCenter, action: ServiceAction, end: End)
    ensures
        action is IsActive ==> center.status_after_service(action, end) == center.status@,
        action is Start && end.success ==> center.status_after_service(action, end) == "Service "@
            + "start"@ + " succeeded"@,
        action is Stop && end.success ==> center.status_after_service(action, end) == "Service "@
            + "stop"@ + " succeeded"@,
        action is Restart && end.success ==> center.status_after_service(action, end) == "Service "@
            + "restart"@ + " succeeded"@,
        action is Restart && !end.success ==> center.status_after_service(action, end)
            == "Service "@ + "restart"@ + " failed · see activity log"@,
{
}

/// An action has a name for the service manager, and the same with a capital for people.
pub proof fn service_actions_have_names(
    action: ServiceAction,
    name: &'static str,
    title: &'static str,
)
    requires
        call_ensures(ServiceAction::as_str, (action, ), name),
        call_ensures(ServiceAction::capitalize, (action, ), title),
    ensures
        action is IsActive ==> name@ == "is-active"@ && title@ == "Is-active"@,
        action is Start ==> name@ == "start"@ && title@ == "Start"@,
        action is Stop ==> name@ == "stop"@ && title@ == "Stop"@,
        action is Restart ==> name@ == "restart"@ && title@ == "Restart"@,
{
}

/// In quotes a quote is written as the end of them, an escaped quote and their beginning; any other
/// character is written as it is.
pub proof fn quotes_are_escaped(s: Seq<char>, c: char)
    ensures
        process::escaped(Seq::empty()) == Seq::<char>::empty(),
        process::escaped(s.push('\'')) == process::escaped(s) + "'\\''"@,
        c != '\'' ==> process::escaped(s.push(c)) == process::escaped(s).push(c),
{
    assert(s.push('\'').drop_last() =~= s);
    assert(s.push(c).drop_last() =~= s);
}

/// The window is drawn twenty-five times a second while anything runs, and four times otherwise.
pub proof fn the_window_is_drawn_often_while_working(center: &ControlCenter, ms: u64)
    requires
        call_ensures(ControlCenter::repaint_delay, (center, ), ms),
    ensures
        center.config_task is Some || center.command_task is Some || center.service_task is Some
            || center.validation_task is Some || center.ipc_query is Some ==> ms == 40,
        center.config_task is None && center.command_task is None && center.service_task is None
            && center.validation_task is None && center.ipc_query is None ==> ms == 250,
{
}

/// An error of the protocol has its code and its message.
pub proof fn protocol_errors_are_made(
    code: ProtocolErrorCode,
    message: &str,
    error: ProtocolError,
)
    requires
        call_ensures(crate::protocol::protocol_error, (code, message), error),
    ensures
        error.code == code && error.message@ == message@,
{
}

/// The readings of sensors are told from other payloads.
pub proof fn sensors_are_told_apart(payload: &InputPayload, r: bool)
    requires
        call_ensures(InputPayload::is_sensor, (payload, ), r),
    ensures
        r <==> !(*payload is Key || *payload is NunchukKey || *payload is ClassicControllerKey
            || *payload is ProControllerKey || *payload is DrumsKey || *payload is GuitarKey
            || *payload is Watch || *payload is Gone || *payload is Unknown),
{
}

/// An axis as it is printed.
pub open spec fn axis_words(a: Axis3) -> Seq<char> {
    "Axis3 { x: "@ + text::signed_decimal(a.x as int) + ", y: "@ + text::signed_decimal(a.y as int)
        + ", z: "@ + text::signed_decimal(a.z as int) + " }"@
}

/// A button as it is printed.
pub open spec fn button_words(e: crate::protocol::ButtonEvent) -> Seq<char> {
    "(ButtonEvent { code: "@ + text::decimal(e.code as nat) + ", state: "@ + text::decimal(
        e.state as nat,
    ) + " })"@
}

/// Payloads are printed by their name and what they carry.
pub proof fn payloads_are_printed(out: &mut String, payload: &InputPayload)
    requires
        call_ensures(live::append_payload, (out, payload), ()),
    ensures
        *payload matches InputPayload::Key(e) ==> final(out)@ == old(out)@ + ("Key"@
            + button_words(e)),
        *payload matches InputPayload::NunchukKey(e) ==> final(out)@ == old(out)@ + ("NunchukKey"@
            + button_words(e)),
        *payload matches InputPayload::ClassicControllerKey(e) ==> final(out)@ == old(out)@ + (
        "ClassicControllerKey"@ + button_words(e)),
        *payload matches InputPayload::ProControllerKey(e) ==> final(out)@ == old(out)@ + (
        "ProControllerKey"@ + button_words(e)),
        *payload matches InputPayload::DrumsKey(e) ==> final(out)@ == old(out)@ + ("DrumsKey"@
            + button_words(e)),
        *payload matches InputPayload::GuitarKey(e) ==> final(out)@ == old(out)@ + ("GuitarKey"@
            + button_words(e)),
        *payload matches InputPayload::Accel(a) ==> final(out)@ == old(out)@ + ("Accel"@ + "("@
            + axis_words(a) + ")"@),
        *payload matches InputPayload::MotionPlus(a) ==> final(out)@ == old(out)@ + ("MotionPlus"@
            + "("@ + axis_words(a) + ")"@),
        *payload matches InputPayload::NunchukMove(a) ==> final(out)@ == old(out)@ + (
        "NunchukMove"@ + "(["@ + axis_words(a@[0]) + ", "@ + axis_words(a@[1]) + "])"@),
        *payload matches InputPayload::ProControllerMove(a) ==> final(out)@ == old(out)@ + (
        "ProControllerMove"@ + "(["@ + axis_words(a@[0]) + ", "@ + axis_words(a@[1]) + "])"@),
        *payload is Watch ==> final(out)@ == old(out)@ + "Watch"@,
        *payload is Gone ==> final(out)@ == old(out)@ + "Gone"@,
{
    reveal_with_fuel(live::axes_text, 3);
    match *payload {
        InputPayload::Key(e)
        | InputPayload::NunchukKey(e)
        | InputPayload::ClassicControllerKey(e)
        | InputPayload::ProControllerKey(e)
        | InputPayload::DrumsKey(e)
        | InputPayload::GuitarKey(e) => {
            lemma_button("Key"@, e);
            lemma_button("NunchukKey"@, e);
            lemma_button("ClassicControllerKey"@, e);
            lemma_button("ProControllerKey"@, e);
            lemma_button("DrumsKey"@, e);
            lemma_button("GuitarKey"@, e);
        },
        InputPayload::NunchukMove(a) => {
            lemma_pair("NunchukMove"@, a@);
        },
        InputPayload::ProControllerMove(a) => {
            lemma_pair("ProControllerMove"@, a@);
        },
        _ => {},
    }
}

proof fn lemma_button(name: Seq<char>, e: crate::protocol::ButtonEvent)
    ensures
        live::button_text(name, e) == name + button_words(e),
{
    assert(live::button_text(name, e) =~= name + button_words(e));
}

proof fn lemma_pair(name: Seq<char>, a: Seq<Axis3>)
    requires
        a.len() == 2,
    ensures
        live::list_text(name, a) == name + "(["@ + axis_words(a[0]) + ", "@ + axis_words(a[1])
            + "])"@,
{
    reveal_with_fuel(live::axes_text, 3);
    assert(live::axes_text(a, 2) == axis_words(a[0]) + ", "@ + axis_words(a[1]));
    assert(live::list_text(name, a) =~= name + "(["@ + axis_words(a[0]) + ", "@ + axis_words(a[1])
        + "])"@);
}

/// The daemon's state is told with its version, its process and its devices.
pub proof fn the_daemon_is_summed_up(status: &Status, said: String)
    requires
        call_ensures(live::format_summary, (status, ), said),
    ensures
        said@ == "wiilandd "@ + status.daemon_version@ + " (pid "@ + text::decimal(
            status.pid as nat,
        ) + "): "@ + text::decimal(status.device_count as nat) + " device(s)"@,
{
}

/// How a process ended is told by its number, where it has one.
pub proof fn exits_are_told(out: &mut String, code: Option<i32>)
    requires
        call_ensures(process::append_exit, (out, code), ()),
    ensures
        code matches Some(n) ==> final(out)@ == old(out)@ + ("Some("@ + text::signed_decimal(
            n as int,
        ) + ")"@),
        code is None ==> final(out)@ == old(out)@ + "None"@,
{
}

/// What a check of the control center found is written line by line.
pub proof fn checks_are_written(report: &SmokeReport, platform: &str, out: String)
    requires
        call_ensures(SmokeReport::render, (report, platform), out),
    ensures
        out@ == "eframe.platform="@ + platform@
            + "\nservice.restart.explicit-config=disabled\ncalibration.partial-source="@ + (
        if report.calibration_isolated {
            "isolated"@
        } else {
            "coupled"@
        })
            + "\nconfig.choice-values=canonical\nconfig.compact-layout=responsive\nconfig.default-path="@
            + (if report.default_path_absolute {
            "absolute"@
        } else {
            "invalid"@
        }) + "\nconfig.unsaved-state=tracked\nconfig.transaction.load="@ + (
        if report.load_transaction_safe {
            "revision-safe"@
        } else {
            "stale"@
        }) + "\nconfig.transaction.save="@ + (if report.save_transaction_safe {
            "revision-safe"@
        } else {
            "stale"@
        }) + "\nconfig.transaction.error="@ + (if report.error_recovered {
            "recovered"@
        } else {
            "stuck"@
        }) + "\noutput.actions=available\noutput.buffer="@ + (if report.output_bounded {
            "bounded"@
        } else {
            "unbounded"@
        }) + "\nvalidation.controls=coordinated\nvalidation.form=visible\n"@,
{
}

} // verus!
