//! A bridged device: what it opens, what it forwards and what it sends.
use crate::bridge::{
    self, BridgeAction, BridgeDevice, Drain, DrainEvent, DrainStep, EventStep, OpenOutcome,
    VirtualKind, WatchEvent, WatchStep,
};
use crate::config::{Config, Profile};
use crate::engine::{EngineInput, OutputAction};
use crate::hid::{EventKind, Interface, InterfaceMask};
use crate::input::{ButtonEvent, InputSource};
use crate::protocol::Axis3;
use crate::text;
use vstd::prelude::*;

verus! {

/// Whether aiming reads an interface: the sensor of the chosen source, any of the three where the
/// choice is automatic, and the Nunchuk where one of its buttons activates aiming.
pub open spec fn aiming_reads(config: Config, i: Interface) -> bool {
    (config.aim_mode is Mouse || config.aim_mode is RightStick) && match i {
        Interface::Ir => config.aim_source is Ir || config.aim_source is Auto,
        Interface::MotionPlus => config.aim_source is MotionPlus || config.aim_source is Auto,
        Interface::Accel => config.aim_source is Accelerometer || config.aim_source is Auto,
        Interface::Nunchuk => config.aim_activation is Z || config.aim_activation is C,
        _ => false,
    }
}

/// Whether the engine needs an interface: a gamepad needs all but the camera, a desktop the buttons
/// and the camera, and aiming what it reads.
pub open spec fn is_needed(profile: Profile, config: Config, i: Interface) -> bool {
    match profile {
        Profile::Gamepad => !(i is Ir) || aiming_reads(config, i),
        Profile::Desktop => i is Core || i is Ir || aiming_reads(config, i),
        Profile::Both => true,
    }
}

/// Exactly the interfaces that the engine needs are requested.
pub proof fn needed_interfaces_are_exactly_requested(
    profile: Profile,
    config: &Config,
    mask: InterfaceMask,
    i: Interface,
    r: bool,
)
    requires
        call_ensures(bridge::requested_interfaces, (profile, config), mask),
        call_ensures(InterfaceMask::contains, (mask, i), r),
    ensures
        r <==> is_needed(profile, *config, i),
{
    assert(mask.has(i) == bridge::requests(profile, config@, i));
}

/// Exactly the reports of such interfaces are forwarded to the engine.
pub proof fn reports_of_needed_interfaces_are_forwarded(
    kind: &EventKind,
    interface: Option<Interface>,
    profile: Profile,
    config: &Config,
    r: bool,
)
    requires
        call_ensures(bridge::forwards_to_engine, (kind, profile, config), r),
        call_ensures(EventKind::interface, (kind, ), interface),
    ensures
        r <==> (interface matches Some(i) && is_needed(profile, *config, i)),
{
}

/// A point of the camera is visible unless both its coordinates are 1023, and keeps its place.
pub proof fn camera_points_reach_the_engine(
    kind: &EventKind,
    raw: [Axis3; 4],
    input: Option<EngineInput>,
    i: int,
)
    requires
        call_ensures(bridge::engine_input, (kind, ), input),
        *kind == EventKind::Ir(raw),
        0 <= i < 4,
    ensures
        input matches Some(EngineInput::Ir(frame)) && frame.points@[i].x == raw@[i].x
            && frame.points@[i].y == raw@[i].y && (frame.points@[i].valid <==> !(raw@[i].x == 1023
            && raw@[i].y == 1023)),
{
    if let Some(EngineInput::Ir(frame)) = input {
        assert(frame.points@[i] == bridge::ir_point(raw@[i]));
    }
}

/// A button reaches the engine under its source.
pub proof fn button_reports_reach_the_engine(
    kind: &EventKind,
    key: Option<(InputSource, ButtonEvent)>,
    input: Option<EngineInput>,
)
    requires
        call_ensures(bridge::engine_input, (kind, ), input),
        call_ensures(EventKind::key_event, (kind, ), key),
    ensures
        key matches Some((source, event)) ==> input == Some(
            EngineInput::Key { source, button: event.button, state: event.state },
        ),
{
}

/// A movement reaches the engine under its kind, with its axes in order and zeros behind them.
pub proof fn movement_reports_reach_the_engine(
    kind: &EventKind,
    axes: Vec<Axis3>,
    input: Option<EngineInput>,
    i: int,
)
    requires
        call_ensures(bridge::engine_input, (kind, ), input),
        call_ensures(EventKind::axis_events, (kind, ), axes),
        axes@.len() > 0,
        *kind !is Ir,
        0 <= i < 8,
    ensures
        input matches Some(EngineInput::Motion { kind: motion, axes: values }) && {
            &&& i < axes@.len() ==> values@[i].x == axes@[i].x && values@[i].y == axes@[i].y
                && values@[i].z == axes@[i].z
            &&& i >= axes@.len() ==> values@[i].x == 0 && values@[i].y == 0 && values@[i].z == 0
            &&& motion is Accel <==> *kind is Accel
            &&& motion is MotionPlus <==> *kind is MotionPlus
            &&& motion is Nunchuk <==> *kind is NunchukMove
            &&& motion is Classic <==> *kind is ClassicControllerMove
            &&& motion is Pro <==> *kind is ProControllerMove
            &&& motion is Guitar <==> *kind is GuitarMove
            &&& motion is Drums <==> *kind is DrumsMove
            &&& motion is Balance <==> *kind is BalanceBoard
        },
{
    if let Some(EngineInput::Motion { kind: motion, axes: values }) = input {
        assert(values@[i].x == values@[i].x);
    }
}

/// A device handles the end, a change and the reports that the engine needs, and ignores the rest.
pub proof fn reports_are_handled(
    device: &BridgeDevice,
    config: Config,
    kind: &EventKind,
    interface: Option<Interface>,
    step: EventStep,
)
    requires
        call_ensures(BridgeDevice::handle_event, (device, kind), step),
        call_ensures(EventKind::interface, (kind, ), interface),
        device@.config == config@,
    ensures
        *kind is Gone <==> step is Gone,
        *kind is Watch <==> step is Watch,
        interface matches Some(i) ==> (is_needed(device@.profile, config, i) <==> step is Process),
        step matches EventStep::Process(e) ==> bridge::stands_for(Some(e), *kind),
{
}

/// Virtual devices are made for the outputs that are needed, and none where outputs are off.
pub proof fn outputs_are_made(
    profile: Profile,
    config: &Config,
    enabled: bool,
    outputs: (Option<VirtualKind>, Option<VirtualKind>),
)
    requires
        call_ensures(bridge::create_outputs, (profile, config, enabled), outputs),
    ensures
        !enabled ==> outputs.0 is None && outputs.1 is None,
        enabled ==> {
            &&& outputs.0 == (if profile is Gamepad || profile is Both
                || config.aim_mode is RightStick {
                Some(VirtualKind::Controller)
            } else {
                None
            })
            &&& outputs.1 == (if profile is Desktop || profile is Both || config.aim_mode is Mouse {
                Some(VirtualKind::Desktop)
            } else {
                None
            })
        },
{
}

/// A device starts with what could be opened, waits for what else is needed, and captures nothing;
/// it fails where nothing could be opened and that failed.
pub proof fn devices_start_with_what_opened(
    config: &Config,
    profile: Profile,
    outcome: OpenOutcome,
    enabled: bool,
    result: Result<BridgeDevice, i32>,
    i: Interface,
)
    requires
        call_ensures(
            BridgeDevice::with_backend_outputs,
            (config, profile, outcome, enabled),
            result,
        ),
        config@.valid(),
    ensures
        outcome.opened.has(i) || outcome.failure is None ==> result is Ok,
        (forall|k: Interface| !#[trigger] outcome.opened.has(k)) && outcome.failure is Some
            ==> result == Err::<BridgeDevice, i32>(outcome.failure->0),
        result matches Ok(device) ==> {
            &&& device@.profile == profile
            &&& device@.config == config@
            &&& device@.opened == outcome.opened
            &&& device@.pending.has(i) == (is_needed(profile, *config, i) && !outcome.opened.has(
                i,
            ))
            &&& device@.outputs_enabled == enabled
            &&& device@.gamepad == (enabled && (profile is Gamepad || profile is Both
                || config.aim_mode is RightStick))
            &&& device@.desktop == (enabled && (profile is Desktop || profile is Both
                || config.aim_mode is Mouse))
            &&& !device@.capture
        },
{
    if let Ok(device) = result {
        assert(device@.pending.has(i) == (bridge::requests(profile, config@, i)
            && !outcome.opened.has(i)));
    }
}

/// A device is not made from settings that are out of their ranges.
pub proof fn devices_need_valid_settings(
    config: &Config,
    profile: Profile,
    outcome: OpenOutcome,
    enabled: bool,
    result: Result<BridgeDevice, i32>,
)
    requires
        call_ensures(
            BridgeDevice::with_backend_outputs,
            (config, profile, outcome, enabled),
            result,
        ),
        !config@.valid(),
    ensures
        result == Err::<BridgeDevice, i32>(-22i32),
{
}

/// While it captures, a device wants every interface; else those that the engine needs.
pub proof fn captures_want_everything(
    device: &BridgeDevice,
    config: Config,
    mask: InterfaceMask,
    i: Interface,
)
    requires
        call_ensures(BridgeDevice::requested_interfaces, (device, ), mask),
        device@.config == config@,
    ensures
        device@.capture ==> mask.has(i),
        !device@.capture ==> mask.has(i) == is_needed(device@.profile, config, i),
{
    assert(mask.has(i) == device@.wants(i));
}

/// When a capture begins nothing is closed; when it ends exactly what the engine does not need is
/// closed; and a capture that is as asked for changes nothing.
pub proof fn ended_captures_close_the_rest(
    device: &mut BridgeDevice,
    config: Config,
    enabled: bool,
    opened: InterfaceMask,
    close: Option<InterfaceMask>,
    i: Interface,
)
    requires
        call_ensures(BridgeDevice::set_capture, (device, enabled, opened), close),
        old(device)@.config == config@,
    ensures
        final(device)@.capture == enabled,
        enabled == old(device)@.capture ==> close is None,
        enabled && !old(device)@.capture ==> (close matches Some(mask) && !mask.has(i)),
        !enabled && old(device)@.capture ==> (close matches Some(mask) && mask.has(i)
            == (opened.has(
            i,
        ) && !is_needed(old(device)@.profile, config, i))),
        final(device)@.engine == old(device)@.engine,
        final(device)@.opened == old(device)@.opened,
{
    if let Some(mask) = close {
        assert(mask.has(i) == (opened.has(i) && !final(device)@.wants(i)));
    }
}

/// What a device wants and has not open is what it waits for.
pub proof fn missing_interfaces_are_pending(
    device: &mut BridgeDevice,
    config: Config,
    opened: InterfaceMask,
    pending: InterfaceMask,
    i: Interface,
)
    requires
        call_ensures(BridgeDevice::refresh, (device, opened), pending),
        old(device)@.config == config@,
    ensures
        final(device)@.opened == opened,
        final(device)@.pending == pending,
        pending.has(i) == ((old(device)@.capture || is_needed(old(device)@.profile, config, i))
            && !opened.has(i)),
{
    assert(pending.has(i) == (old(device)@.wants(i) && !opened.has(i)));
}

/// A device tries again exactly while it waits for an interface.
pub proof fn waiting_devices_try_again(device: &BridgeDevice, r: bool, i: Interface)
    requires
        call_ensures(BridgeDevice::needs_retry, (device, ), r),
    ensures
        device@.pending.has(i) ==> r,
        (forall|k: Interface| !#[trigger] device@.pending.has(k)) ==> !r,
{
}

/// Losing an interface that the engine needs resets the engine and takes the outputs away until they
/// are made again; a failure to make them ends it.
pub proof fn lost_interfaces_reset_the_engine(
    device: &mut BridgeDevice,
    config: Config,
    opened: InterfaceMask,
    step: WatchStep,
    i: Interface,
)
    requires
        call_ensures(BridgeDevice::handle_watch, (device, WatchEvent::Changed(opened)), step),
        old(device)@.config == config@,
        old(device)@.opened.has(i),
        !opened.has(i),
        is_needed(old(device)@.profile, config, i),
    ensures
        step == (WatchStep::Recreate { opened }),
        !final(device)@.gamepad && !final(device)@.desktop,
        final(device)@.engine == old(device)@.engine.after(EngineInput::Reset),
        final(device)@.opened == old(device)@.opened,
{
    assert(bridge::requests(old(device)@.profile, old(device)@.config, i));
}

/// The outputs are made again as at the start, and a failure to make them is the outcome.
pub proof fn outputs_are_made_again(
    device: &mut BridgeDevice,
    config: Config,
    opened: InterfaceMask,
    result: Result<(), i32>,
    step: WatchStep,
)
    requires
        call_ensures(
            BridgeDevice::handle_watch,
            (device, WatchEvent::Recreated { opened, result }),
            step,
        ),
        old(device)@.config == config@,
        old(device)@.outputs_enabled,
    ensures
        result matches Err(code) ==> step == WatchStep::Done(Err(code)) && final(device)@
            == old(device)@,
        result is Ok ==> {
            &&& final(device)@.opened == opened
            &&& final(device)@.gamepad == (old(device)@.profile is Gamepad
                || old(device)@.profile is Both || config.aim_mode is RightStick)
            &&& final(device)@.desktop == (old(device)@.profile is Desktop
                || old(device)@.profile is Both || config.aim_mode is Mouse)
        },
{
}

/// With outputs on, what the engine puts out is sent where it has a device; with outputs off nothing
/// is sent; either way the engine goes on.
pub proof fn engine_output_is_sent(
    device: &mut BridgeDevice,
    input: EngineInput,
    sent: Vec<OutputAction>,
)
    requires
        call_ensures(BridgeDevice::process, (device, input), sent),
    ensures
        !old(device)@.outputs_enabled ==> sent@.len() == 0,
        old(device)@.outputs_enabled && old(device)@.gamepad && old(device)@.desktop ==> sent@
            == old(device)@.engine.actions(input),
        old(device)@.outputs_enabled ==> sent@ == bridge::routed(
            old(device)@.engine.actions(input),
            old(device)@.gamepad,
            old(device)@.desktop,
        ),
        final(device)@.engine == old(device)@.engine.after(input),
        final(device)@.capture == old(device)@.capture,
        final(device)@.opened == old(device)@.opened,
{
    crate::laws::devices::actions_reach_their_device(
        old(device)@.engine.actions(input),
        old(device)@.gamepad,
        old(device)@.desktop,
    );
}

/// A tick of the pointer is sent as a report of the engine is, and changes nothing.
pub proof fn ticks_are_sent(device: &mut BridgeDevice, sent: Vec<OutputAction>)
    requires
        call_ensures(BridgeDevice::tick_pointer, (device, ), sent),
    ensures
        !old(device)@.outputs_enabled ==> sent@.len() == 0,
        old(device)@.outputs_enabled ==> sent@ == bridge::routed(
            old(device)@.engine.actions(EngineInput::PointerTick),
            old(device)@.gamepad,
            old(device)@.desktop,
        ),
        final(device)@ == old(device)@,
{
}

/// At most two hundred and fifty-six reports are taken in one turn.
pub proof fn turns_are_limited(drain: Drain, turn: &mut Drain, event: DrainEvent, step: DrainStep)
    requires
        call_ensures(Drain::new, (), drain),
        call_ensures(Drain::drain_with, (turn, event), step),
    ensures
        drain.left == 256,
        event is Begin || event == DrainEvent::Handled(Ok(BridgeAction::Continue)) ==> (step
            is Dispatch <==> old(turn).left > 0) && (old(turn).left == 0 ==> step
            == DrainStep::Done(Ok(BridgeAction::Continue))),
        event matches DrainEvent::Dispatched(Ok(report)) ==> step == DrainStep::Handle(report)
            && final(turn).left == old(turn).left - 1,
        event !is Dispatched ==> final(turn).left == old(turn).left,
{
}

/// A turn ends when nothing more is there, and with an error where reading or handling failed.
pub proof fn turns_end(turn: &mut Drain, event: DrainEvent, step: DrainStep)
    requires
        call_ensures(Drain::drain_with, (turn, event), step),
    ensures
        event matches DrainEvent::Dispatched(Err(failure)) ==> (if failure.kind is WouldBlock {
            step == DrainStep::Done(Ok(BridgeAction::Continue))
        } else {
            step matches DrainStep::Done(Err(code)) && (failure.errno matches Some(n) ==> (n
                > i32::MIN ==> code == -n)) && (failure.errno is None ==> code == -5)
        }),
        event == DrainEvent::Handled(Ok(BridgeAction::Gone)) ==> step == DrainStep::Done(
            Ok(BridgeAction::Gone),
        ),
        event matches DrainEvent::Handled(Err(code)) ==> step == DrainStep::Done(Err(code)),
{
}

/// An error number is handed on as its negative, and a missing one as that of input and output.
pub proof fn errors_are_negative_numbers(errno: Option<i32>, code: i32)
    requires
        call_ensures(bridge::io_errno, (errno, ), code),
    ensures
        errno matches Some(n) ==> code == -n,
        errno is None ==> code == -5,
{
}

/// A device's type counts without the white space around it; what is blank or no text is no type.
pub proof fn device_types_are_trimmed(
    config: &Config,
    syspath: &str,
    bytes: &[u8],
    name: &str,
    profile: Profile,
    expected: Profile,
    without: Profile,
)
    requires
        call_ensures(bridge::profile_for_device, (config, syspath, Some(bytes)), profile),
        call_ensures(Config::profile_for_device, (config, Some(syspath), Some(name)), expected),
        call_ensures(Config::profile_for_device, (config, Some(syspath), None), without),
    ensures
        text::decoded(bytes@) matches Some(t) ==> (text::trimmed(t) == name@ && name@.len() > 0
            ==> profile == expected),
        text::decoded(bytes@) matches Some(t) ==> (text::trimmed(t).len() == 0 ==> profile
            == without),
        text::decoded(bytes@) is None ==> profile == without,
{
}

/// A device tells its state as it is.
pub proof fn devices_tell_their_state(
    device: &BridgeDevice,
    profile: Profile,
    opened: InterfaceMask,
    pending: InterfaceMask,
    outputs: (Option<VirtualKind>, Option<VirtualKind>),
    active: bool,
)
    requires
        call_ensures(BridgeDevice::profile, (device, ), profile),
        call_ensures(BridgeDevice::opened, (device, ), opened),
        call_ensures(BridgeDevice::pending, (device, ), pending),
        call_ensures(BridgeDevice::outputs, (device, ), outputs),
        call_ensures(BridgeDevice::pointer_active, (device, ), active),
    ensures
        profile == device@.profile && opened == device@.opened && pending == device@.pending,
        outputs.0 is Some <==> device@.gamepad,
        outputs.1 is Some <==> device@.desktop,
        outputs.0 matches Some(kind) ==> kind is Controller,
        outputs.1 matches Some(kind) ==> kind is Desktop,
        active <==> device@.engine.pointer.keys.left || device@.engine.pointer.keys.right
            || device@.engine.pointer.keys.up || device@.engine.pointer.keys.down,
{
}

/// An attempt to open what is pending succeeds where any interface that the engine needs is open
/// after it, and fails with the reason, or as a device that is not there.
pub proof fn pending_interfaces_are_opened(
    device: &mut BridgeDevice,
    config: Config,
    outcome: OpenOutcome,
    result: Result<(), i32>,
    waiting: Interface,
    i: Interface,
)
    requires
        call_ensures(BridgeDevice::retry_open, (device, outcome), result),
        old(device)@.config == config@,
        old(device)@.pending.has(waiting),
    ensures
        outcome.opened.has(i) && is_needed(old(device)@.profile, config, i) ==> result is Ok,
        (forall|k: Interface| #[trigger]
            outcome.opened.has(k) ==> !is_needed(old(device)@.profile, config, k)) ==> result
            == Err::<(), i32>(
            match outcome.failure {
                Some(code) => code,
                None => -19i32,
            },
        ),
        final(device)@.opened == outcome.opened,
        final(device)@.pending.has(i) == (old(device)@.pending.has(i) && !outcome.opened.has(i)),
{
    let before = old(device)@;
    assert(!bridge::is_none(before.pending));
    assert(final(device)@.retried(before, outcome, result));
    assert(final(device)@.pending.has(i) == (before.pending.has(i) && !outcome.opened.has(i)));
    if outcome.opened.has(i) && is_needed(before.profile, config, i) {
        assert(bridge::requests(before.profile, before.config, i));
        assert(bridge::any_needed(before, outcome.opened));
    }
    if forall|k: Interface| #[trigger]
        outcome.opened.has(k) ==> !is_needed(before.profile, config, k) {
        assert(!bridge::any_needed(before, outcome.opened)) by {
            if bridge::any_needed(before, outcome.opened) {
                let k = choose|k: Interface| #[trigger]
                    outcome.opened.has(k) && bridge::requests(before.profile, before.config, k);
                assert(is_needed(before.profile, config, k));
            }
        }
    }
}

} // verus!
