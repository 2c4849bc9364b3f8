//! Aiming with the sensors of the remote.
use crate::aim;
use crate::aim::{AimConfig, AimResult, AimSensor, AimState, AimVector};
use crate::config::{IrScreen, SensorCalibration};
use crate::engine;
use crate::engine::{EngineInput, EngineView, OutputAction, OutputDevice};
use crate::input::{Button, ButtonState, InputSource};
use crate::laws::keys;
use crate::laws::numbers;
use crate::mapping;
use crate::mapping::{Abs3, MotionKind};
use crate::pointer;
use crate::pointer::{IrFrame, IrPosition};
use vstd::prelude::*;

verus! {

/// The three values of a report.
pub open spec fn values(axes: [Abs3; 8]) -> Seq<i32> {
    seq![axes@[0].x, axes@[0].y, axes@[0].z]
}

/// What aiming answers to a report of the accelerometer or of MotionPlus.
pub open spec fn answer(view: EngineView, kind: MotionKind, axes: [Abs3; 8]) -> Option<AimVector> {
    match kind {
        MotionKind::Accel => view.aim.after_accelerometer(values(axes)).1.output,
        MotionKind::MotionPlus => view.aim.after_motion_plus(values(axes)).1.output,
        _ => None,
    }
}

proof fn lemma_axes_do_not_move_the_mouse(axes: Seq<mapping::MappedAxis>)
    ensures
        keys::travel(0, engine::axis_actions(axes)) == 0,
        keys::travel(1, engine::axis_actions(axes)) == 0,
{
    lemma_no_travel(engine::axis_actions(axes));
}

proof fn lemma_no_travel(actions: Seq<OutputAction>)
    requires
        forall|i: int| 0 <= i < actions.len() ==> !(#[trigger] actions[i] is Rel),
    ensures
        keys::travel(0, actions) == 0,
        keys::travel(1, actions) == 0,
    decreases actions.len(),
{
    if actions.len() > 0 {
        let rest = actions.drop_last();
        assert forall|i: int| 0 <= i < rest.len() implies !(#[trigger] rest[i] is Rel) by {
            assert(rest[i] == actions[i]);
        }
        lemma_no_travel(rest);
        assert(!(actions[actions.len() - 1] is Rel));
    }
}

/// In mouse mode the mouse moves by exactly what aiming answers to a sensor report, and a movement
/// that is not nothing takes effect at once: it is the last that the report outputs.
pub proof fn mouse_aiming_moves_the_mouse(
    view: EngineView,
    kind: MotionKind,
    axes: [Abs3; 8],
    v: AimVector,
)
    requires
        view.config.aim_mode is Mouse,
        answer(view, kind, axes) == Some(v),
    ensures
        ({
            let actions = view.actions(EngineInput::Motion { kind, axes });
            &&& keys::moves_by(actions, v.x as int, v.y as int)
            &&& v.x != 0 || v.y != 0 ==> seq![
                OutputAction::Rel(OutputDevice::Desktop, 0, v.x),
                OutputAction::Rel(OutputDevice::Desktop, 1, v.y),
                OutputAction::Sync(OutputDevice::Desktop),
            ].is_suffix_of(actions)
        }),
{
    let first = if engine::uses_gamepad(view.profile, view.config.aim_mode) {
        engine::axis_actions(mapping::motion_axes(kind, axes@))
    } else {
        Seq::empty()
    };
    let second = engine::aim_actions(view.config.aim_mode, AimResult { output: Some(v) });
    lemma_axes_do_not_move_the_mouse(mapping::motion_axes(kind, axes@));
    keys::lemma_one(OutputDevice::Desktop, 0, OutputAction::Sync(OutputDevice::Desktop));
    keys::lemma_one(OutputDevice::Desktop, 1, OutputAction::Sync(OutputDevice::Desktop));
    keys::lemma_pointer(OutputDevice::Desktop, 0, v.x, v.y);
    keys::lemma_pointer(OutputDevice::Desktop, 1, v.x, v.y);
    keys::lemma_travel_joins(0, first, second);
    keys::lemma_travel_joins(1, first, second);
    let actions = view.actions(EngineInput::Motion { kind, axes });
    assert(actions =~= first + second);
    if v.x != 0 || v.y != 0 {
        let end = seq![
            OutputAction::Rel(OutputDevice::Desktop, 0, v.x),
            OutputAction::Rel(OutputDevice::Desktop, 1, v.y),
            OutputAction::Sync(OutputDevice::Desktop),
        ];
        assert(second =~= end);
        assert(actions.subrange(actions.len() - end.len(), actions.len() as int) =~= end);
    }
}

/// In mouse mode an IR frame moves the mouse by what aiming answers to its position, on top of the
/// pointer's own movement where the profile has a pointer.
pub proof fn mouse_aiming_follows_ir(view: EngineView, frame: IrFrame, v: AimVector)
    requires
        view.config.aim_mode is Mouse,
        view.aim.after_ir(
            pointer::tracked_position(frame.points@, view.pointer.ir_tracking),
        ).1.output == Some(v),
    ensures
        view.profile is Gamepad ==> keys::moves_by(
            view.actions(EngineInput::Ir(frame)),
            v.x as int,
            v.y as int,
        ),
        view.profile is Desktop || view.profile is Both ==> keys::moves_by(
            view.actions(EngineInput::Ir(frame)),
            view.pointer.frame_delta(frame.points@).dx + v.x,
            view.pointer.frame_delta(frame.points@).dy + v.y,
        ),
{
    let delta = view.pointer.frame_delta(frame.points@);
    let first = engine::pointer_actions(delta.dx, delta.dy);
    let second = engine::pointer_actions(v.x, v.y);
    keys::lemma_pointer(OutputDevice::Desktop, 0, v.x, v.y);
    keys::lemma_pointer(OutputDevice::Desktop, 1, v.x, v.y);
    keys::lemma_pointer(OutputDevice::Desktop, 0, delta.dx, delta.dy);
    keys::lemma_pointer(OutputDevice::Desktop, 1, delta.dx, delta.dy);
    keys::lemma_travel_joins(0, first, second);
    keys::lemma_travel_joins(1, first, second);
    if view.profile is Gamepad {
        assert(view.actions(EngineInput::Ir(frame)) =~= second);
    } else {
        assert(view.actions(EngineInput::Ir(frame)) =~= first + second);
    }
}

/// Whether actions end by putting the right stick of the gamepad there, at once.
pub open spec fn stick_ends_at(actions: Seq<OutputAction>, x: int, y: int) -> bool {
    let n = actions.len();
    &&& n >= 3
    &&& actions[n - 3] matches OutputAction::Abs(OutputDevice::Gamepad, 3, value) && value == x
    &&& actions[n - 2] matches OutputAction::Abs(OutputDevice::Gamepad, 4, value) && value == y
    &&& actions[n - 1] == OutputAction::Sync(OutputDevice::Gamepad)
}

/// In stick mode the right stick goes where aiming answers, up to its ends.
pub proof fn stick_aiming_puts_the_right_stick(
    view: EngineView,
    kind: MotionKind,
    axes: [Abs3; 8],
    frame: IrFrame,
    v: AimVector,
)
    requires
        view.config.aim_mode is RightStick,
    ensures
        answer(view, kind, axes) == Some(v) ==> exists|x: int, y: int| #[trigger]
            stick_ends_at(view.actions(EngineInput::Motion { kind, axes }), x, y)
                && numbers::is_clamped(x, v.x as int, -32768, 32767) && numbers::is_clamped(
                y,
                v.y as int,
                -32768,
                32767,
            ),
        view.aim.after_ir(
            pointer::tracked_position(frame.points@, view.pointer.ir_tracking),
        ).1.output == Some(v) ==> exists|x: int, y: int| #[trigger]
            stick_ends_at(view.actions(EngineInput::Ir(frame)), x, y) && numbers::is_clamped(
                x,
                v.x as int,
                -32768,
                32767,
            ) && numbers::is_clamped(y, v.y as int, -32768, 32767),
{
    let x = engine::stick(v.x) as int;
    let y = engine::stick(v.y) as int;
    if answer(view, kind, axes) == Some(v) {
        let actions = view.actions(EngineInput::Motion { kind, axes });
        assert(stick_ends_at(actions, x, y));
    }
    if view.aim.after_ir(
        pointer::tracked_position(frame.points@, view.pointer.ir_tracking),
    ).1.output == Some(v) {
        let actions = view.actions(EngineInput::Ir(frame));
        assert(stick_ends_at(actions, x, y));
    }
}

/// Without aiming no sensor moves the mouse or the right stick: a motion report outputs what it
/// does without sensors' answers.
pub proof fn no_aiming_no_movement(view: EngineView, kind: MotionKind, axes: [Abs3; 8])
    requires
        view.config.aim_mode is Off,
    ensures
        keys::is_still(view.actions(EngineInput::Motion { kind, axes })),
{
    lemma_axes_do_not_move_the_mouse(mapping::motion_axes(kind, axes@));
    keys::lemma_one(OutputDevice::Desktop, 0, OutputAction::Sync(OutputDevice::Desktop));
    keys::lemma_one(OutputDevice::Desktop, 1, OutputAction::Sync(OutputDevice::Desktop));
    let first = engine::axis_actions(mapping::motion_axes(kind, axes@));
    let none = Seq::<OutputAction>::empty();
    assert(view.actions(EngineInput::Motion { kind, axes }) =~= first
        || view.actions(EngineInput::Motion { kind, axes }) =~= none);
}

/// Whether aiming is switched on: by its button, or always.
pub open spec fn is_on(state: AimState) -> bool {
    &&& state.config.output is Mouse || state.config.output is RightStick
    &&& state.held || state.config.activation is Always
}

/// A displacement that is outside the dead zone, and nothing for one within it.
pub open spec fn beyond(deadzone: int, displacement: int) -> int {
    if -deadzone <= displacement <= deadzone {
        0
    } else {
        displacement
    }
}

/// Whether a displacement along one axis is answered so: nothing within the dead zone, scaled by the
/// sensitivity in sixteenths, and blended with the last answer by the smoothing in hundredths.
pub open spec fn answers(config: AimConfig, displacement: int, last: int, now: int) -> bool {
    exists|scaled: int, blended: int| #[trigger]
        numbers::is_truncated(
            scaled,
            beyond(config.deadzone as int, displacement) * config.sensitivity,
            16,
        )
            && #[trigger] numbers::is_truncated(
            blended,
            scaled * (100 - config.smoothing) + last * config.smoothing,
            100,
        ) && numbers::is_clamped(now, blended, -0x7fff_ffff, 0x7fff_ffff)
}

proof fn lemma_response(config: AimConfig, displacement: int, last: i32)
    ensures
        answers(
            config,
            displacement,
            last as int,
            aim::response(config, displacement, last) as int,
        ),
{
    let live = beyond(config.deadzone as int, displacement);
    let scaled = pointer::quotient(live * config.sensitivity, 16);
    let sum = scaled * (100 - config.smoothing) + last * config.smoothing;
    let blended = pointer::quotient(sum, 100);
    numbers::division_rounds_towards_zero(live * config.sensitivity, 16);
    numbers::division_rounds_towards_zero(sum, 100);
    numbers::results_are_clamped(blended);
}

/// A value, or its opposite where the axis is inverted.
pub open spec fn turned(inverted: bool, value: int) -> int {
    if inverted {
        -value
    } else {
        value
    }
}

/// Whether a state and its output answer a displacement of both axes from a state before.
pub open spec fn aims(before: AimState, after: AimState, out: AimResult, dx: int, dy: int) -> bool {
    &&& out.output matches Some(v) && v.x == turned(before.config.invert_x, after.previous.x as int)
        && v.y == turned(before.config.invert_y, after.previous.y as int)
    &&& answers(before.config, dx, before.previous.x as int, after.previous.x as int)
    &&& answers(before.config, dy, before.previous.y as int, after.previous.y as int)
}

/// The rest position along one axis.
pub open spec fn rest_x(calibration: Option<SensorCalibration>) -> int {
    match calibration {
        Some(c) => c.x as int,
        None => 0,
    }
}

/// The rest position along the other axis.
pub open spec fn rest_y(calibration: Option<SensorCalibration>) -> int {
    match calibration {
        Some(c) => c.y as int,
        None => 0,
    }
}

proof fn lemma_moved(state: AimState, sensor: AimSensor, dx: int, dy: int)
    requires
        state.config.well_formed(),
        state.noticing(sensor).uses(sensor),
    ensures
        aims(state, state.moved(sensor, (dx, dy)).0, state.moved(sensor, (dx, dy)).1, dx, dy),
{
    lemma_response(state.config, dx, state.previous.x);
    lemma_response(state.config, dy, state.previous.y);
}

/// While aiming is on, the sensor that it is set to is answered: by how far it is from its rest
/// position.
pub proof fn the_chosen_sensor_is_answered(state: AimState, v: Seq<i32>)
    requires
        state.config.well_formed(),
        is_on(state),
        v.len() == 3,
    ensures
        state.config.source is Accelerometer ==> aims(
            state,
            state.after_accelerometer(v).0,
            state.after_accelerometer(v).1,
            v[0] - rest_x(state.config.accel_zero),
            v[1] - rest_y(state.config.accel_zero),
        ),
        state.config.source is MotionPlus ==> aims(
            state,
            state.after_motion_plus(v).0,
            state.after_motion_plus(v).1,
            v[0] - rest_x(state.config.motion_plus_bias),
            v[1] - rest_y(state.config.motion_plus_bias),
        ),
{
    if state.config.source is Accelerometer {
        lemma_moved(
            state,
            AimSensor::Accelerometer,
            v[0] - rest_x(state.config.accel_zero),
            v[1] - rest_y(state.config.accel_zero),
        );
    }
    if state.config.source is MotionPlus {
        lemma_moved(
            state,
            AimSensor::MotionPlus,
            v[0] - rest_x(state.config.motion_plus_bias),
            v[1] - rest_y(state.config.motion_plus_bias),
        );
    }
}

/// Sensors that aiming is not set to are not answered, and neither is any sensor while it is off.
pub proof fn other_sensors_are_not_answered(state: AimState, v: Seq<i32>, at: Option<IrPosition>)
    ensures
        !is_on(state) || state.config.source is Ir || state.config.source is MotionPlus
            ==> state.after_accelerometer(v).1.output is None,
        !is_on(state) || state.config.source is Ir || state.config.source is Accelerometer
            ==> state.after_motion_plus(v).1.output is None,
        !is_on(state) || state.config.source is MotionPlus || state.config.source is Accelerometer
            ==> state.after_ir(at).1.output is None,
        state.after_ir(None).1.output is None,
{
}

/// Left to itself, aiming prefers the camera over MotionPlus and MotionPlus over the accelerometer:
/// a sensor is answered until a better one has reported in the session.
pub proof fn better_sensors_are_preferred(state: AimState, v: Seq<i32>, at: IrPosition)
    requires
        state.config.well_formed(),
        is_on(state),
        v.len() == 3,
        state.config.source is Auto,
    ensures
        state.sensor is None || state.sensor == Some(AimSensor::Accelerometer) ==> aims(
            state,
            state.after_accelerometer(v).0,
            state.after_accelerometer(v).1,
            v[0] - rest_x(state.config.accel_zero),
            v[1] - rest_y(state.config.accel_zero),
        ),
        !(state.sensor == Some(AimSensor::Ir)) ==> aims(
            state,
            state.after_motion_plus(v).0,
            state.after_motion_plus(v).1,
            v[0] - rest_x(state.config.motion_plus_bias),
            v[1] - rest_y(state.config.motion_plus_bias),
        ),
        state.after_ir(Some(at)).1.output is Some,
        state.after_motion_plus(v).0.after_accelerometer(v).1.output is None,
        state.after_ir(Some(at)).0.after_accelerometer(v).1.output is None,
        state.after_ir(Some(at)).0.after_motion_plus(v).1.output is None,
        state.after_accelerometer(v).0.sensor is Some,
        state.after_motion_plus(v).0.sensor is Some,
{
    if state.sensor is None || state.sensor == Some(AimSensor::Accelerometer) {
        lemma_moved(
            state,
            AimSensor::Accelerometer,
            v[0] - rest_x(state.config.accel_zero),
            v[1] - rest_y(state.config.accel_zero),
        );
    }
    if state.sensor != Some(AimSensor::Ir) {
        lemma_moved(
            state,
            AimSensor::MotionPlus,
            v[0] - rest_x(state.config.motion_plus_bias),
            v[1] - rest_y(state.config.motion_plus_bias),
        );
    }
}

/// The camera aims by movement or by position. By movement, the answer is to the step from the last
/// position, and none to the first. By position, the left and top ends of the screen are the lowest
/// values of a stick, and the right and bottom ends the highest.
pub proof fn the_camera_is_answered(state: AimState, at: IrPosition)
    requires
        state.config.well_formed(),
        is_on(state),
        state.config.source is Ir || state.config.source is Auto,
    ensures
        state.after_ir(Some(at)).0.baseline == Some(at),
        state.config.ir_mapping is Relative && state.baseline is Some ==> aims(
            state,
            state.after_ir(Some(at)).0,
            state.after_ir(Some(at)).1,
            at.x - state.baseline->0.x,
            at.y - state.baseline->0.y,
        ),
        state.config.ir_mapping is Relative && state.baseline is None ==> aims(
            state,
            state.after_ir(Some(at)).0,
            state.after_ir(Some(at)).1,
            0,
            0,
        ),
        state.config.ir_mapping is Absolute ==> exists|dx: int, dy: int| #[trigger]
            aims(state, state.after_ir(Some(at)).0, state.after_ir(Some(at)).1, dx, dy) && is_place(
                screen_of(state.config),
                at,
                dx,
                dy,
            ),
{
    let d = aim::ir_displacement(state.config, state.baseline, at);
    lemma_moved(state, AimSensor::Ir, d.0, d.1);
    if state.config.ir_mapping is Absolute {
        let s = screen_of(state.config);
        numbers::division_rounds_towards_zero((at.x - s.left) * 65535, s.right - s.left);
        numbers::division_rounds_towards_zero((at.y - s.top) * 65535, s.bottom - s.top);
        assert(is_place(s, at, d.0, d.1));
        assert(aims(state, state.after_ir(Some(at)).0, state.after_ir(Some(at)).1, d.0, d.1));
    }
}

/// The part of the camera's picture that is the screen: all of it, where nothing else is set.
pub open spec fn screen_of(config: AimConfig) -> IrScreen {
    match config.ir_screen {
        Some(screen) => screen,
        None => IrScreen { left: 0, right: 1023, top: 0, bottom: 767 },
    }
}

/// Whether a displacement is the place of a position on a screen that reaches from -32768 to 32767.
pub open spec fn is_place(screen: IrScreen, at: IrPosition, dx: int, dy: int) -> bool {
    &&& numbers::is_truncated(
        dx + 32768,
        (at.x - screen.left) * 65535,
        screen.right - screen.left,
    )
    &&& numbers::is_truncated(
        dy + 32768,
        (at.y - screen.top) * 65535,
        screen.bottom - screen.top,
    )
}

/// The ends of the screen are the ends of the stick.
pub proof fn screen_ends_are_stick_ends(screen: IrScreen, at: IrPosition, dx: int, dy: int)
    requires
        screen.left < screen.right,
        screen.top < screen.bottom,
        is_place(screen, at, dx, dy),
    ensures
        at.x == screen.left ==> dx == -32768,
        at.x == screen.right ==> dx == 32767,
        at.y == screen.top ==> dy == -32768,
        at.y == screen.bottom ==> dy == 32767,
{
    let w = screen.right - screen.left;
    let h = screen.bottom - screen.top;
    assert(numbers::is_truncated(0, 0, w)) by (nonlinear_arith)
        requires
            w > 0,
    ;
    assert(numbers::is_truncated(0, 0, h)) by (nonlinear_arith)
        requires
            h > 0,
    ;
    assert(numbers::is_truncated(65535, w * 65535, w)) by (nonlinear_arith)
        requires
            w > 0,
    ;
    assert(numbers::is_truncated(65535, h * 65535, h)) by (nonlinear_arith)
        requires
            h > 0,
    ;
    if at.x == screen.left {
        numbers::quotients_are_unique(dx + 32768, 0, 0, w);
    }
    if at.x == screen.right {
        numbers::quotients_are_unique(dx + 32768, 65535, w * 65535, w);
    }
    if at.y == screen.top {
        numbers::quotients_are_unique(dy + 32768, 0, 0, h);
    }
    if at.y == screen.bottom {
        numbers::quotients_are_unique(dy + 32768, 65535, h * 65535, h);
    }
}

/// At the middle sensitivity and without smoothing, aiming answers a displacement with itself, and
/// one within the dead zone with nothing.
pub proof fn plain_aiming_is_one_to_one(config: AimConfig, d: int, last: int, now: int)
    requires
        config.sensitivity == 16,
        config.smoothing == 0,
        config.deadzone >= 0,
        -0x7fff_ffff <= d <= 0x7fff_ffff,
        answers(config, d, last, now),
    ensures
        -config.deadzone <= d <= config.deadzone ==> now == 0,
        d < -config.deadzone || d > config.deadzone ==> now == d,
{
    let live = beyond(config.deadzone as int, d);
    let (scaled, blended) = choose|scaled: int, blended: int| #[trigger]
        numbers::is_truncated(scaled, live * config.sensitivity, 16)
            && #[trigger] numbers::is_truncated(
            blended,
            scaled * (100 - config.smoothing) + last * config.smoothing,
            100,
        ) && numbers::is_clamped(now, blended, -0x7fff_ffff, 0x7fff_ffff);
    assert(numbers::is_truncated(live, live * 16, 16)) by (nonlinear_arith);
    numbers::quotients_are_unique(scaled, live, live * 16, 16);
    assert(scaled * (100 - config.smoothing) + last * config.smoothing == live * 100)
        by (nonlinear_arith)
        requires
            config.smoothing == 0,
            scaled == live,
    ;
    assert(numbers::is_truncated(live, live * 100, 100)) by (nonlinear_arith);
    numbers::quotients_are_unique(blended, live, live * 100, 100);
}

/// Inverting an axis turns its answer round and leaves the other as it was.
pub proof fn inversion_turns_one_axis(state: AimState, v: Seq<i32>)
    requires
        state.config.well_formed(),
        state.after_accelerometer(v).1.output is Some,
        !state.config.invert_x,
        !state.config.invert_y,
        v.len() == 3,
    ensures
        ({
            let plain = state.after_accelerometer(v).1.output->0;
            let sideways = AimState {
                config: AimConfig { invert_x: true, ..state.config },
                ..state
            };
            let upside = AimState {
                config: AimConfig { invert_y: true, ..state.config },
                ..state
            };
            &&& sideways.after_accelerometer(v).1.output matches Some(w) && w.x == -plain.x
                && w.y == plain.y
            &&& upside.after_accelerometer(v).1.output matches Some(w) && w.x == plain.x && w.y
                == -plain.y
        }),
{
    let next = state.noticing(AimSensor::Accelerometer);
    let d = (v[0] - rest_x(state.config.accel_zero), v[1] - rest_y(state.config.accel_zero));
    let p = next.blend(d);
    assert(p.x > i32::MIN && p.y > i32::MIN);
}

/// The button that switches aiming on is the one that the configuration names, and it does so while
/// it is held by anyone. Where aiming is always on, no button does.
pub proof fn the_activation_button_switches_aiming(
    view: EngineView,
    source: InputSource,
    button: Button,
)
    requires
        view.well_formed(),
        keys::is_up(view, button),
        view.config.aim_mode is Mouse || view.config.aim_mode is RightStick,
    ensures
        ({
            let press = EngineInput::Key { source, button, state: ButtonState::Pressed };
            let release = EngineInput::Key { source, button, state: ButtonState::Released };
            let named = (view.config.aim_activation is B && button is B) || (
            view.config.aim_activation is Z && button is Z) || (view.config.aim_activation is C
                && button is C);
            let down = view.after(press);
            &&& named ==> is_on(down.aim) && !is_on(down.after(release).aim)
            &&& !named ==> down.aim == view.aim && down.after(release).aim == view.aim
            &&& view.config.aim_activation is Always ==> is_on(view.aim)
        }),
{
    let press = EngineInput::Key { source, button, state: ButtonState::Pressed };
    let release = EngineInput::Key { source, button, state: ButtonState::Released };
    let down = view.after(press);
    let up = down.after(release);
    assert(!engine::is_down(view.held, button));
    assert(down.held.contains((source, button)));
    assert(engine::is_down(down.held, button));
    if engine::is_down(up.held, button) {
        let s = choose|s: InputSource| #[trigger] up.held.contains((s, button));
        assert(view.held.contains((s, button)));
    }
}

/// Letting the activation button go puts the right stick back to the middle.
pub proof fn letting_go_centres_the_stick(
    view: EngineView,
    source: InputSource,
    button: Button,
)
    requires
        view.well_formed(),
        view.config.aim_mode is RightStick,
        (view.config.aim_activation is B && button is B) || (view.config.aim_activation is Z
            && button is Z) || (view.config.aim_activation is C && button is C),
        view.held.contains((source, button)),
        forall|s: InputSource| s != source ==> !#[trigger] view.held.contains((s, button)),
    ensures
        stick_ends_at(
            view.actions(EngineInput::Key { source, button, state: ButtonState::Released }),
            0,
            0,
        ),
        view.after(
            EngineInput::Key { source, button, state: ButtonState::Released },
        ).aim.previous == (AimVector { x: 0, y: 0 }),
{
    let up = view.held_after(source, button, ButtonState::Released);
    assert(engine::is_down(view.held, button));
    if engine::is_down(up, button) {
        let s = choose|s: InputSource| #[trigger] up.contains((s, button));
        assert(view.held.contains((s, button)));
    }
    let actions = view.actions(EngineInput::Key { source, button, state: ButtonState::Released });
    let a = view.aim_key_actions(source, button, ButtonState::Released);
    assert(a.len() == 3);
    let n = actions.len();
    assert(actions[n - 3] == a[0]);
    assert(actions[n - 2] == a[1]);
    assert(actions[n - 1] == a[2]);
}

/// The settings of aiming are those of the configuration, each for itself.
pub proof fn aiming_reads_its_settings(config: crate::config::ConfigView)
    ensures
        ({
            let a = engine::EngineView::initial(config, config.profile).aim;
            &&& a.config.output == config.aim_mode
            &&& a.config.source == config.aim_source
            &&& a.config.activation == config.aim_activation
            &&& a.config.sensitivity == config.aim_sensitivity
            &&& a.config.deadzone == config.aim_deadzone
            &&& a.config.smoothing == config.aim_smoothing
            &&& a.config.invert_x == config.aim_invert_x
            &&& a.config.invert_y == config.aim_invert_y
            &&& a.config.accel_zero == config.aim_accel_zero
            &&& a.config.motion_plus_bias == config.aim_motion_plus_bias
            &&& a.config.ir_mapping == config.ir_aim_mapping
            &&& a.config.ir_screen == config.ir_screen
            &&& !a.held
            &&& a.sensor is None
            &&& a.baseline is None
        }),
{
}

} // verus!
