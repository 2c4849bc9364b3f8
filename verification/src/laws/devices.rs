//! Reports of a controller: which interfaces are opened, which reports are forwarded, and what they
//! mean.
use crate::bridge;
use crate::bridge::{BridgeView, OpenOutcome, WatchStep};
use crate::config::{ConfigView, Profile};
use crate::engine;
use crate::engine::{EngineInput, EngineView, OutputAction, OutputDevice};
use crate::hid::{EventKind, Interface, InterfaceMask};
use crate::input::{ButtonEvent, InputSource};
use crate::laws::aiming;
use crate::laws::keys;
use crate::laws::pointing;
use crate::mapping::{Abs3, MotionKind};
use crate::pointer;
use crate::pointer::{IrFrame, IrPosition};
use crate::protocol::Axis3;
use vstd::prelude::*;

verus! {

/// A gamepad opens every interface but the camera, a desktop the buttons and the camera, aiming the
/// sensors of its source, and a nunchuk button that switches aiming on the nunchuk.
pub proof fn needed_interfaces_are_requested(profile: Profile, config: ConfigView, i: Interface)
    ensures
        bridge::requests(profile, config, Interface::Core),
        (profile is Gamepad || profile is Both) && !(i is Ir) ==> bridge::requests(
            profile,
            config,
            i,
        ),
        profile is Desktop || profile is Both ==> bridge::requests(profile, config, Interface::Ir),
        config.aim_mode is Mouse || config.aim_mode is RightStick ==> {
            &&& config.aim_source is Ir || config.aim_source is Auto ==> bridge::requests(
                profile,
                config,
                Interface::Ir,
            )
            &&& config.aim_source is MotionPlus || config.aim_source is Auto ==> bridge::requests(
                profile,
                config,
                Interface::MotionPlus,
            )
            &&& config.aim_source is Accelerometer || config.aim_source is Auto
                ==> bridge::requests(profile, config, Interface::Accel)
            &&& config.aim_activation is Z || config.aim_activation is C ==> bridge::requests(
                profile,
                config,
                Interface::Nunchuk,
            )
        },
{
}

/// Nothing is opened that nothing needs: a gamepad without aiming leaves the camera alone, and a
/// desktop without aiming everything but the buttons and the camera.
pub proof fn other_interfaces_are_not_requested(profile: Profile, config: ConfigView, i: Interface)
    ensures
        config.aim_mode is Off && profile is Gamepad ==> !bridge::requests(
            profile,
            config,
            Interface::Ir,
        ),
        config.aim_mode is Off && profile is Desktop && !(i is Core) && !(i is Ir)
            ==> !bridge::requests(profile, config, i),
        profile is Gamepad && (config.aim_source is MotionPlus || config.aim_source
            is Accelerometer) ==> !bridge::requests(profile, config, Interface::Ir),
        profile is Desktop && (i is ClassicController || i is BalanceBoard || i is ProController
            || i is Drums || i is Guitar) ==> !bridge::requests(profile, config, i),
        profile is Desktop && (config.aim_activation is B || config.aim_activation is Always) && i
            is Nunchuk ==> !bridge::requests(profile, config, i),
        profile is Desktop && (config.aim_source is Ir || config.aim_source is Accelerometer) && i
            is MotionPlus ==> !bridge::requests(profile, config, i),
        profile is Desktop && (config.aim_source is Ir || config.aim_source is MotionPlus) && i
            is Accel ==> !bridge::requests(profile, config, i),
{
}

/// A camera frame that makes the engine output anything comes from an interface that is opened, and
/// is forwarded.
pub proof fn frames_that_matter_are_forwarded(
    view: EngineView,
    raw: [Axis3; 4],
    frame: IrFrame,
)
    requires
        view.well_formed(),
        view.actions(EngineInput::Ir(frame)).len() > 0,
    ensures
        bridge::requests(view.profile, view.config, Interface::Ir),
        bridge::forwards(EventKind::Ir(raw), view.profile, view.config),
{
}

/// A sensor report that aiming answers comes from an interface that is opened, and is forwarded.
pub proof fn answered_sensors_are_forwarded(view: EngineView, raw: Axis3, axes: [Abs3; 8])
    requires
        view.well_formed(),
    ensures
        aiming::answer(view, MotionKind::Accel, axes) is Some ==> bridge::forwards(
            EventKind::Accel(raw),
            view.profile,
            view.config,
        ),
        aiming::answer(view, MotionKind::MotionPlus, axes) is Some ==> bridge::forwards(
            EventKind::MotionPlus(raw),
            view.profile,
            view.config,
        ),
{
}

/// The buttons of the remote are always forwarded. A gamepad gets every report but those of the
/// camera, and a desktop those of the camera.
pub proof fn reports_are_forwarded_to_their_profile(
    profile: Profile,
    config: ConfigView,
    key: ButtonEvent,
    points: [Axis3; 4],
    one: Axis3,
    two: [Axis3; 2],
    three: [Axis3; 3],
    eight: [Axis3; 8],
)
    ensures
        bridge::forwards(EventKind::Key(key), profile, config),
        profile is Desktop || profile is Both ==> bridge::forwards(
            EventKind::Ir(points),
            profile,
            config,
        ),
        profile is Gamepad || profile is Both ==> {
            &&& bridge::forwards(EventKind::Accel(one), profile, config)
            &&& bridge::forwards(EventKind::MotionPlus(one), profile, config)
            &&& bridge::forwards(EventKind::BalanceBoard(points), profile, config)
            &&& bridge::forwards(EventKind::NunchukKey(key), profile, config)
            &&& bridge::forwards(EventKind::NunchukMove(two), profile, config)
            &&& bridge::forwards(EventKind::ClassicControllerKey(key), profile, config)
            &&& bridge::forwards(EventKind::ClassicControllerMove(three), profile, config)
            &&& bridge::forwards(EventKind::ProControllerKey(key), profile, config)
            &&& bridge::forwards(EventKind::ProControllerMove(two), profile, config)
            &&& bridge::forwards(EventKind::DrumsKey(key), profile, config)
            &&& bridge::forwards(EventKind::DrumsMove(eight), profile, config)
            &&& bridge::forwards(EventKind::GuitarKey(key), profile, config)
            &&& bridge::forwards(EventKind::GuitarMove(three), profile, config)
        },
        !bridge::forwards(EventKind::Watch, profile, config),
        !bridge::forwards(EventKind::Gone, profile, config),
{
}

/// On a desktop without aiming, reports of attached controllers and of the motion sensors are not
/// forwarded, though a capture may have opened their interfaces.
pub proof fn captured_interfaces_do_not_reach_the_desktop(
    config: ConfigView,
    key: ButtonEvent,
    points: [Axis3; 4],
    one: Axis3,
    two: [Axis3; 2],
)
    requires
        config.aim_mode is Off,
    ensures
        !bridge::forwards(EventKind::Accel(one), Profile::Desktop, config),
        !bridge::forwards(EventKind::MotionPlus(one), Profile::Desktop, config),
        !bridge::forwards(EventKind::NunchukKey(key), Profile::Desktop, config),
        !bridge::forwards(EventKind::NunchukMove(two), Profile::Desktop, config),
        !bridge::forwards(EventKind::ClassicControllerKey(key), Profile::Desktop, config),
        !bridge::forwards(EventKind::ProControllerKey(key), Profile::Desktop, config),
        !bridge::forwards(EventKind::DrumsKey(key), Profile::Desktop, config),
        !bridge::forwards(EventKind::GuitarKey(key), Profile::Desktop, config),
        !bridge::forwards(EventKind::BalanceBoard(points), Profile::Desktop, config),
        !bridge::forwards(EventKind::Ir(points), Profile::Gamepad, config),
{
}

/// A point of a camera report is invisible exactly where the report puts both its coordinates at
/// 1023; every point keeps its place and its coordinates.
pub proof fn invisible_points_are_at_the_far_corner(
    raw: [Axis3; 4],
    input: Option<EngineInput>,
)
    requires
        bridge::stands_for(input, EventKind::Ir(raw)),
    ensures
        input matches Some(EngineInput::Ir(frame)) && forall|i: int|
            #![trigger frame.points@[i]]
            0 <= i < 4 ==> frame.points@[i].valid == !(raw@[i].x == 1023 && raw@[i].y == 1023)
                && frame.points@[i].x == raw@[i].x && frame.points@[i].y == raw@[i].y,
{
}

/// A camera report whose points all lie below 1023 gives four visible points.
pub proof fn ordinary_points_are_visible(raw: [Axis3; 4], input: Option<EngineInput>)
    requires
        bridge::stands_for(input, EventKind::Ir(raw)),
        forall|i: int| 0 <= i < 4 ==> (#[trigger] raw@[i]).x < 1023 && raw@[i].y < 1023,
    ensures
        input matches Some(EngineInput::Ir(frame)) && forall|i: int|
            0 <= i < 4 ==> (#[trigger] frame.points@[i]).valid,
{
    invisible_points_are_at_the_far_corner(raw, input);
    if let Some(EngineInput::Ir(frame)) = input {
        assert forall|i: int| 0 <= i < 4 implies (#[trigger] frame.points@[i]).valid by {
            assert(raw@[i].x < 1023);
        }
    }
}

/// Pointing works from the camera to the mouse: where two reports in a row show one point and no
/// other, the mouse follows its movement.
pub proof fn a_moving_point_moves_the_mouse(
    view: EngineView,
    first: [Axis3; 4],
    second: [Axis3; 4],
    a: EngineInput,
    b: EngineInput,
)
    requires
        view.profile is Desktop || view.profile is Both,
        view.config.aim_mode !is Mouse,
        view.well_formed(),
        bridge::stands_for(Some(a), EventKind::Ir(first)),
        bridge::stands_for(Some(b), EventKind::Ir(second)),
        first@[0].x < 1023,
        second@[0].x < 1023,
        forall|i: int|
            1 <= i < 4 ==> (#[trigger] first@[i]).x == 1023 && first@[i].y == 1023,
        forall|i: int|
            1 <= i < 4 ==> (#[trigger] second@[i]).x == 1023 && second@[i].y == 1023,
    ensures
        pointing::follows(
            view.pointer,
            second@[0].x - first@[0].x,
            keys::travel(0, view.after(a).actions(b)),
        ),
        pointing::follows(
            view.pointer,
            second@[0].y - first@[0].y,
            keys::travel(1, view.after(a).actions(b)),
        ),
{
    invisible_points_are_at_the_far_corner(first, Some(a));
    invisible_points_are_at_the_far_corner(second, Some(b));
    let fa = a->Ir_0;
    let fb = b->Ir_0;
    lemma_alone(first, fa);
    lemma_alone(second, fb);
    pointing::a_single_point_is_followed(fa.points@, view.config.ir_tracking, 0);
    pointing::a_single_point_is_followed(fb.points@, view.config.ir_tracking, 0);
    pointing::the_mouse_follows_the_position(
        view,
        fa,
        fb,
        IrPosition { x: first@[0].x, y: first@[0].y },
        IrPosition { x: second@[0].x, y: second@[0].y },
    );
}

proof fn lemma_alone(raw: [Axis3; 4], frame: IrFrame)
    requires
        raw@[0].x < 1023,
        forall|i: int| 1 <= i < 4 ==> (#[trigger] raw@[i]).x == 1023 && raw@[i].y == 1023,
        forall|i: int|
            #![trigger frame.points@[i]]
            0 <= i < 4 ==> frame.points@[i].valid == !(raw@[i].x == 1023 && raw@[i].y == 1023),
    ensures
        frame.points@[0].valid,
        forall|k: int| 0 < k < 4 ==> !(#[trigger] frame.points@[k]).valid,
        pointing::is_first_visible(frame.points@, 0),
{
    assert forall|k: int| 0 < k < 4 implies !(#[trigger] frame.points@[k]).valid by {
        assert(raw@[k].x == 1023 && raw@[k].y == 1023);
    }
}

/// Whether an input is this transition of a button of this source.
pub open spec fn is_key(input: Option<EngineInput>, from: InputSource, key: ButtonEvent) -> bool {
    input matches Some(EngineInput::Key { source, button, state }) && source == from && button
        == key.button && state == key.state
}

/// Button reports reach the engine as the transition that they report, of the source that sent them.
pub proof fn buttons_reach_the_engine(input: Option<EngineInput>, key: ButtonEvent)
    ensures
        bridge::stands_for(input, EventKind::Key(key)) ==> is_key(input, InputSource::Core, key),
        bridge::stands_for(input, EventKind::NunchukKey(key)) ==> is_key(
            input,
            InputSource::Nunchuk,
            key,
        ),
        bridge::stands_for(input, EventKind::ClassicControllerKey(key)) ==> is_key(
            input,
            InputSource::ClassicController,
            key,
        ),
        bridge::stands_for(input, EventKind::ProControllerKey(key)) ==> is_key(
            input,
            InputSource::ProController,
            key,
        ),
        bridge::stands_for(input, EventKind::DrumsKey(key)) ==> is_key(
            input,
            InputSource::Drums,
            key,
        ),
        bridge::stands_for(input, EventKind::GuitarKey(key)) ==> is_key(
            input,
            InputSource::Guitar,
            key,
        ),
{
}

/// Whether an input is a motion of this kind whose first axes are these values.
pub open spec fn is_motion(input: Option<EngineInput>, of: MotionKind, raw: Seq<Axis3>) -> bool {
    input matches Some(EngineInput::Motion { kind, axes }) && kind == of && forall|i: int|
        #![trigger axes@[i]]
        0 <= i < raw.len() ==> axes@[i].x == raw[i].x && axes@[i].y == raw[i].y && axes@[i].z
            == raw[i].z
}

/// Motion reports reach the engine with every value that they report, in their place.
pub proof fn motion_reaches_the_engine(
    input: Option<EngineInput>,
    one: Axis3,
    two: [Axis3; 2],
    three: [Axis3; 3],
    four: [Axis3; 4],
    eight: [Axis3; 8],
)
    ensures
        bridge::stands_for(input, EventKind::Accel(one)) ==> is_motion(
            input,
            MotionKind::Accel,
            seq![one],
        ),
        bridge::stands_for(input, EventKind::MotionPlus(one)) ==> is_motion(
            input,
            MotionKind::MotionPlus,
            seq![one],
        ),
        bridge::stands_for(input, EventKind::NunchukMove(two)) ==> is_motion(
            input,
            MotionKind::Nunchuk,
            two@,
        ),
        bridge::stands_for(input, EventKind::ProControllerMove(two)) ==> is_motion(
            input,
            MotionKind::Pro,
            two@,
        ),
        bridge::stands_for(input, EventKind::ClassicControllerMove(three)) ==> is_motion(
            input,
            MotionKind::Classic,
            three@,
        ),
        bridge::stands_for(input, EventKind::GuitarMove(three)) ==> is_motion(
            input,
            MotionKind::Guitar,
            three@,
        ),
        bridge::stands_for(input, EventKind::BalanceBoard(four)) ==> is_motion(
            input,
            MotionKind::Balance,
            four@,
        ),
        bridge::stands_for(input, EventKind::DrumsMove(eight)) ==> is_motion(
            input,
            MotionKind::Drums,
            eight@,
        ),
        bridge::stands_for(input, EventKind::Gone) ==> input is None,
        bridge::stands_for(input, EventKind::Watch) ==> input is None,
{
}

/// The bits of the interfaces, as clients are told them, and the types of reports, as traces and
/// clients are told them.
pub proof fn interfaces_have_their_bits(mask: InterfaceMask)
    ensures
        mask.spec_bits() == (if mask.has(Interface::Core) {
            0x1int
        } else {
            0
        }) + (if mask.has(Interface::Accel) {
            0x2int
        } else {
            0
        }) + (if mask.has(Interface::Ir) {
            0x4int
        } else {
            0
        }) + (if mask.has(Interface::MotionPlus) {
            0x100int
        } else {
            0
        }) + (if mask.has(Interface::Nunchuk) {
            0x200int
        } else {
            0
        }) + (if mask.has(Interface::ClassicController) {
            0x400int
        } else {
            0
        }) + (if mask.has(Interface::BalanceBoard) {
            0x800int
        } else {
            0
        }) + (if mask.has(Interface::ProController) {
            0x1000int
        } else {
            0
        }) + (if mask.has(Interface::Drums) {
            0x2000int
        } else {
            0
        }) + (if mask.has(Interface::Guitar) {
            0x4000int
        } else {
            0
        }),
        Interface::Core.spec_bit() == 0x1,
        Interface::Accel.spec_bit() == 0x2,
        Interface::Ir.spec_bit() == 0x4,
        Interface::MotionPlus.spec_bit() == 0x100,
        Interface::Nunchuk.spec_bit() == 0x200,
        Interface::ClassicController.spec_bit() == 0x400,
        Interface::BalanceBoard.spec_bit() == 0x800,
        Interface::ProController.spec_bit() == 0x1000,
        Interface::Drums.spec_bit() == 0x2000,
        Interface::Guitar.spec_bit() == 0x4000,
{
}

/// A bridge that has just created its outputs owns a gamepad where the profile or stick aiming needs
/// one and a desktop device where the profile or mouse aiming does, and none where outputs are
/// switched off.
pub proof fn outputs_are_those_that_are_used(view: BridgeView)
    ensures
        !view.outputs_enabled ==> !view.with_outputs().gamepad && !view.with_outputs().desktop,
        view.outputs_enabled ==> {
            &&& view.with_outputs().gamepad == (view.profile is Gamepad || view.profile is Both
                || view.config.aim_mode is RightStick)
            &&& view.with_outputs().desktop == (view.profile is Desktop || view.profile is Both
                || view.config.aim_mode is Mouse)
        },
{
}

/// Actions go to the device that they are for: what is sent is exactly those whose device is open,
/// in order.
pub proof fn actions_reach_their_device(
    actions: Seq<OutputAction>,
    gamepad: bool,
    desktop: bool,
)
    ensures
        gamepad && desktop ==> bridge::routed(actions, gamepad, desktop) == actions,
        !gamepad && !desktop ==> bridge::routed(actions, gamepad, desktop) == Seq::<
            OutputAction,
        >::empty(),
        desktop ==> keys::keys_on(
            OutputDevice::Desktop,
            bridge::routed(actions, gamepad, desktop),
        ) == keys::keys_on(OutputDevice::Desktop, actions),
        gamepad ==> keys::keys_on(
            OutputDevice::Gamepad,
            bridge::routed(actions, gamepad, desktop),
        ) == keys::keys_on(OutputDevice::Gamepad, actions),
        desktop ==> forall|axis: u16| #[trigger]
            keys::travel(axis, bridge::routed(actions, gamepad, desktop)) == keys::travel(
                axis,
                actions,
            ),
        !desktop ==> keys::keys_on(
            OutputDevice::Desktop,
            bridge::routed(actions, gamepad, desktop),
        ) == Seq::<OutputAction>::empty(),
        !gamepad ==> keys::keys_on(
            OutputDevice::Gamepad,
            bridge::routed(actions, gamepad, desktop),
        ) == Seq::<OutputAction>::empty(),
    decreases actions.len(),
{
    if actions.len() > 0 {
        let rest = actions.drop_last();
        let last = actions.last();
        actions_reach_their_device(rest, gamepad, desktop);
        let sent = bridge::routed(rest, gamepad, desktop);
        assert(sent.push(last).drop_last() =~= sent);
        assert(rest.push(last) =~= actions);
        assert forall|axis: u16| desktop implies #[trigger] keys::travel(
            axis,
            bridge::routed(actions, gamepad, desktop),
        ) == keys::travel(axis, actions) by {
            assert(keys::travel(axis, sent) == keys::travel(axis, rest));
        }
    }
}

/// Losing the buttons or, on a desktop, the camera ends a session. Losing what only a capture wants
/// does not, and neither does gaining anything.
pub proof fn losing_a_needed_interface_ends_the_session(view: BridgeView, opened: InterfaceMask)
    ensures
        view.opened.has(Interface::Core) && !opened.has(Interface::Core) ==> view.lost(opened),
        (view.profile is Desktop || view.profile is Both) && view.opened.has(Interface::Ir)
            && !opened.has(Interface::Ir) ==> view.lost(opened),
        (forall|i: Interface| #[trigger] view.opened.has(i) ==> opened.has(i)) ==> !view.lost(
            opened,
        ),
        view.profile is Desktop && view.config.aim_mode is Off && opened.has(Interface::Core)
            && opened.has(Interface::Ir) ==> !view.lost(opened),
        view.profile is Gamepad && view.config.aim_mode is Off && (forall|i: Interface|
            #[trigger] view.opened.has(i) && !(i is Ir) ==> opened.has(i)) ==> !view.lost(opened),
{
    assert(bridge::requests(view.profile, view.config, Interface::Core));
    if view.profile is Desktop || view.profile is Both {
        assert(bridge::requests(view.profile, view.config, Interface::Ir));
    }
}

/// After a change, exactly what is wanted and not open is opened again: everything during a capture,
/// and else what the profile and the configuration need.
pub proof fn missing_interfaces_are_reopened(
    before: BridgeView,
    after: BridgeView,
    opened: InterfaceMask,
    step: WatchStep,
    i: Interface,
)
    requires
        after.settles(before, opened, step),
    ensures
        after.opened == opened,
        before.capture ==> after.pending.has(i) == !opened.has(i),
        !before.capture ==> after.pending.has(i) == (bridge::requests(
            before.profile,
            before.config,
            i,
        ) && !opened.has(i)),
        after.pending.has(i) ==> step == WatchStep::Reopen(after.pending),
        (forall|k: Interface| !#[trigger] after.pending.has(k)) ==> step == WatchStep::Done(Ok(())),
        after.engine == before.engine,
        after.gamepad == before.gamepad,
        after.desktop == before.desktop,
{
    assert(after.pending.has(i) == (before.wants(i) && !opened.has(i)));
}

/// An attempt to open what is pending succeeds exactly where any interface that the engine needs is
/// open then. Otherwise it fails with the number of the failure, or that of a device that is not
/// there.
pub proof fn opening_succeeds_with_any_needed_interface(
    before: BridgeView,
    after: BridgeView,
    outcome: OpenOutcome,
    result: Result<(), i32>,
    i: Interface,
)
    requires
        after.retried(before, outcome, result),
        before.pending.has(i),
    ensures
        outcome.opened.has(Interface::Core) ==> result is Ok,
        (forall|k: Interface| !#[trigger] outcome.opened.has(k)) ==> result == Err::<(), i32>(
            match outcome.failure {
                Some(code) => code,
                None => -19i32,
            },
        ),
        after.opened == outcome.opened,
        after.pending.has(i) == !outcome.opened.has(i),
{
    assert(bridge::requests(before.profile, before.config, Interface::Core));
    assert(!bridge::is_none(before.pending));
}

} // verus!
