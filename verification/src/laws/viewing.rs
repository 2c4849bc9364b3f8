//! The terminal view: what it shows of a report, and when it ends.
use crate::hid::EventKind;
use crate::input::{Button, ButtonEvent, ButtonState};
use crate::protocol::{self, Axis3, DeviceInfo, InputPayload};
use crate::session::SessionEvent;
use crate::view::{self, KeyStep, Panels, Turn, Update, Viewer};
use vstd::prelude::*;
use vstd::string::*;

verus! {

/// Each panel is shown exactly for its interface.
pub proof fn panels_follow_the_interfaces(bits: u32, panels: Panels)
    requires
        call_ensures(view::configure, (bits, ), panels),
    ensures
        panels.keys_enabled == (bits & 0x1 != 0),
        panels.accel_enabled == (bits & 0x2 != 0),
        panels.ir_enabled == (bits & 0x4 != 0),
        panels.motion_plus_enabled == (bits & 0x100 != 0),
        panels.nunchuk_enabled == (bits & 0x200 != 0),
        panels.classic_enabled == (bits & 0x400 != 0),
        panels.balance_enabled == (bits & 0x800 != 0),
        panels.pro_enabled == (bits & 0x1000 != 0),
        panels.drums_enabled == (bits & 0x2000 != 0),
        panels.guitar_enabled == (bits & 0x4000 != 0),
{
}

/// A button of the protocol is the button with its code in the state with its number; numbers that
/// mean nothing give none.
pub proof fn numbers_are_buttons(
    v: protocol::ButtonEvent,
    event: Option<ButtonEvent>,
    button: Option<Button>,
    state: Option<ButtonState>,
)
    requires
        call_ensures(view::button, (v, ), event),
        call_ensures(Button::from_code, (v.code, ), button),
        call_ensures(ButtonState::from_value, (v.state, ), state),
    ensures
        event is None <==> button is None || state is None,
        event matches Some(e) ==> button == Some(e.button) && state == Some(e.state),
        v.code >= 28 || v.state > 2 <==> event is None,
{
}

/// A payload is shown as the report that it carries, with its values.
pub proof fn payloads_are_shown_as_they_are(
    payload: InputPayload,
    kind: Option<EventKind>,
    one: Axis3,
    two: [Axis3; 2],
    three: [Axis3; 3],
    four: [Axis3; 4],
    eight: [Axis3; 8],
)
    requires
        call_ensures(view::input, (payload, ), kind),
    ensures
        payload == InputPayload::Accel(one) <==> kind == Some(EventKind::Accel(one)),
        payload == InputPayload::MotionPlus(one) <==> kind == Some(EventKind::MotionPlus(one)),
        payload == InputPayload::Ir(four) <==> kind == Some(EventKind::Ir(four)),
        payload == InputPayload::BalanceBoard(four) <==> kind == Some(
            EventKind::BalanceBoard(four),
        ),
        payload == InputPayload::NunchukMove(two) <==> kind == Some(EventKind::NunchukMove(two)),
        payload == InputPayload::ProControllerMove(two) <==> kind == Some(
            EventKind::ProControllerMove(two),
        ),
        payload == InputPayload::ClassicControllerMove(three) <==> kind == Some(
            EventKind::ClassicControllerMove(three),
        ),
        payload == InputPayload::GuitarMove(three) <==> kind == Some(EventKind::GuitarMove(three)),
        payload == InputPayload::DrumsMove(eight) <==> kind == Some(EventKind::DrumsMove(eight)),
        payload is Watch <==> kind == Some(EventKind::Watch),
        payload is Gone <==> kind == Some(EventKind::Gone),
{
}

/// A button's payload is shown as the button's report, of the same part of the controller.
pub proof fn button_payloads_are_shown(
    payload: InputPayload,
    kind: Option<EventKind>,
    v: protocol::ButtonEvent,
    event: Option<ButtonEvent>,
)
    requires
        call_ensures(view::input, (payload, ), kind),
        call_ensures(view::button, (v, ), event),
    ensures
        payload == InputPayload::Key(v) ==> (event matches Some(e) ==> kind == Some(
            EventKind::Key(e),
        )),
        payload == InputPayload::NunchukKey(v) ==> (event matches Some(e) ==> kind == Some(
            EventKind::NunchukKey(e),
        )),
        payload == InputPayload::ClassicControllerKey(v) ==> (event matches Some(e) ==> kind
            == Some(EventKind::ClassicControllerKey(e))),
        payload == InputPayload::ProControllerKey(v) ==> (event matches Some(e) ==> kind == Some(
            EventKind::ProControllerKey(e),
        )),
        payload == InputPayload::DrumsKey(v) ==> (event matches Some(e) ==> kind == Some(
            EventKind::DrumsKey(e),
        )),
        payload == InputPayload::GuitarKey(v) ==> (event matches Some(e) ==> kind == Some(
            EventKind::GuitarKey(e),
        )),
        payload == InputPayload::Key(v) && event is None ==> kind is None,
{
}

/// The view needs a terminal on both ends, with a name, of eighty columns and twenty-four lines.
pub proof fn terminals_must_fit(
    input: bool,
    output: bool,
    term: Option<&str>,
    width: u16,
    height: u16,
    problem: Option<&'static str>,
)
    requires
        call_ensures(view::terminal_problem, (input, output, term, width, height), problem),
    ensures
        problem is None <==> input && output && width >= 80 && height >= 24 && (term matches Some(
            name,
        ) && name@.len() > 0 && name@ != "dumb"@),
{
}

/// One key quits, one freezes and goes on, and any other gives a hint.
pub proof fn keys_do_their_work(viewer: &mut Viewer, key: Option<char>, step: KeyStep)
    requires
        call_ensures(Viewer::key, (viewer, key), step),
    ensures
        step is Quit <==> key == Some('q'),
        step is Toggled <==> key == Some('f'),
        final(viewer).frozen == (old(viewer).frozen != (key == Some('f'))),
        final(viewer)@ == old(viewer)@,
{
}

/// A view that has nothing to show is drawn while its session runs, and ends with it.
pub proof fn views_end_with_their_session(
    viewer: &mut Viewer,
    updates: &mut Vec<Update>,
    turn: Turn,
)
    requires
        call_ensures(Viewer::turn, (viewer, updates), turn),
        old(viewer)@.undelivered.len() == 0,
    ensures
        old(viewer)@.outcome is None ==> turn is Draw,
        old(viewer)@.outcome matches Some(Ok(_)) ==> turn is Done,
        old(viewer)@.outcome matches Some(Err(_)) ==> turn is Failed,
        final(viewer).frozen == old(viewer).frozen,
{
    reveal_with_fuel(view::frame_after, 2);
}

/// A device that is removed ends the view, also where more was to be shown.
pub proof fn removed_devices_end_the_view(
    viewer: &mut Viewer,
    updates: &mut Vec<Update>,
    turn: Turn,
)
    requires
        call_ensures(Viewer::turn, (viewer, updates), turn),
        old(viewer)@.undelivered.len() > 0,
        old(viewer)@.undelivered[0] matches SessionEvent::Notification(n) && n is DeviceRemoved,
    ensures
        turn matches Turn::Failed(reason) && reason@ == "Device disconnected"@,
{
    reveal_with_fuel(view::frame_after, 3);
}

/// Input that waits is shown as its report, with its time, behind what was shown before.
pub proof fn input_is_shown(
    viewer: &mut Viewer,
    updates: &mut Vec<Update>,
    turn: Turn,
    time: protocol::Timestamp,
    reading: Axis3,
)
    requires
        call_ensures(Viewer::turn, (viewer, updates), turn),
        old(viewer)@.undelivered.len() == 1,
        old(viewer)@.undelivered[0] matches SessionEvent::Notification(n)
            && n matches protocol::Notification::Input { timestamp, payload, .. } && timestamp
            == time && payload == InputPayload::Accel(reading),
    ensures
        final(updates)@.len() == old(updates)@.len() + 1,
        final(updates)@.last() == (Update::Report { time, kind: EventKind::Accel(reading) }),
        final(viewer)@.undelivered.len() == 0,
{
    reveal_with_fuel(view::frame_after, 3);
    let before = view::update_views(old(updates)@);
    let after = view::update_views(final(updates)@);
    assert(after == before + seq![
        view::UpdateView::Report { time, kind: EventKind::Accel(reading) },
    ]);
    assert(after.len() == final(updates)@.len() && before.len() == old(updates)@.len());
    assert(after.last() == final(updates)@.last()@);
}

/// A connection is shown with the version and the process of the daemon, and the panels of the first
/// device.
pub proof fn connections_are_shown(
    viewer: &mut Viewer,
    updates: &mut Vec<Update>,
    turn: Turn,
    status: protocol::Status,
    devices: Vec<DeviceInfo>,
    panels: Panels,
)
    requires
        call_ensures(Viewer::turn, (viewer, updates), turn),
        old(viewer)@.undelivered.len() == 1,
        old(viewer)@.undelivered[0] == (SessionEvent::Connected { status, devices }),
        devices@.len() > 0,
        call_ensures(view::configure, (devices@[0].opened_interfaces, ), panels),
    ensures
        final(updates)@.len() == old(updates)@.len() + 2,
        final(updates)@[old(updates)@.len() as int] matches Update::Info(line) && line@
            == "Connected to wiilandd "@ + status.daemon_version@ + " (pid "@
            + crate::text::decimal(status.pid as nat) + ")"@,
        final(updates)@.last() == Update::Show(panels),
{
    reveal_with_fuel(view::frame_after, 3);
    let before = view::update_views(old(updates)@);
    let after = view::update_views(final(updates)@);
    assert(after == before + seq![
        view::UpdateView::Info(view::greeting(status)),
        view::UpdateView::Show(panels),
    ]);
    assert(after.len() == final(updates)@.len() && before.len() == old(updates)@.len());
    assert(after.last() == final(updates)@.last()@);
    let n = old(updates)@.len() as int;
    assert(after[n] == final(updates)@[n]@);
    assert(after[n] == view::UpdateView::Info(view::greeting(status)));
}

/// Devices are listed by their place, counted from one, and their path, one on each line.
pub proof fn devices_are_listed(devices: &Vec<DeviceInfo>, lines: String)
    requires
        call_ensures(view::list, (devices, ), lines),
    ensures
        devices@.len() == 0 ==> lines@.len() == 0,
        devices@.len() == 2 ==> lines@ == "1"@ + "\t"@ + devices@[0].syspath@ + "\n"@ + "2"@
            + "\t"@ + devices@[1].syspath@ + "\n"@,
{
    reveal_with_fuel(view::path_lines, 3);
    reveal_strlit("1");
    reveal_strlit("2");
    if devices@.len() == 2 {
        assert(crate::text::decimal(1) =~= "1"@);
        assert(crate::text::decimal(2) =~= "2"@);
        assert(lines@ =~= "1"@ + "\t"@ + devices@[0].syspath@ + "\n"@ + "2"@ + "\t"@
            + devices@[1].syspath@ + "\n"@);
    }
}

/// The view starts unfrozen, on one device, and loses no event.
pub proof fn views_start_on_one_device(socket: Option<String>, path: String, viewer: Viewer)
    requires
        call_ensures(Viewer::start, (socket, path), viewer),
    ensures
        !viewer.frozen,
        viewer@.selector == path@,
        viewer@.single,
        viewer@.policy is Strict,
{
}

/// The view shows the device that the selector chooses, and nothing where it chooses none.
pub proof fn selectors_choose_the_device(
    devices: Vec<DeviceInfo>,
    selector: &str,
    path: Result<String, String>,
)
    requires
        call_ensures(Viewer::device_path, (devices, selector), path),
        selector@.len() == 0,
    ensures
        devices@.len() > 0 ==> (path matches Ok(p) && p@ == devices@[0].syspath@),
        devices@.len() == 0 ==> path is Err,
{
}

} // verus!
