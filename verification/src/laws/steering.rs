//! The pointer and the aim by themselves: what a key, a frame and a button do to them.
use crate::aim::{AimConfig, AimResult, AimState};
use crate::config::{Config, IrTracking};
use crate::input::Button;
use crate::laws::numbers;
use crate::mapping::{self, Abs3, MappedAxis, MotionKind};
use crate::pointer;
use crate::pointer::{IrFrame, IrPosition, PointerDelta, PointerKey, PointerState};
use vstd::prelude::*;

verus! {

/// Whether any point of a frame is visible.
pub open spec fn sees_a_point(frame: IrFrame) -> bool {
    frame.points@[0].valid || frame.points@[1].valid || frame.points@[2].valid
        || frame.points@[3].valid
}

/// A pointer starts at rest with the settings that it was given.
pub proof fn pointers_start_at_rest(
    speed: i32,
    ir_speed: i32,
    ir_deadzone: i32,
    ir_smoothing: i32,
    ir_tracking: IrTracking,
    state: PointerState,
)
    requires
        call_ensures(
            PointerState::new,
            (speed, ir_speed, ir_deadzone, ir_smoothing, ir_tracking),
            state,
        ),
    ensures
        state.speed == speed && state.ir_speed == ir_speed && state.ir_deadzone == ir_deadzone,
        state.ir_smoothing == ir_smoothing && state.ir_tracking == ir_tracking,
        !state.keys.left && !state.keys.right && !state.keys.up && !state.keys.down,
        state.baseline is None,
{
}

/// A tick moves right and down by the speed, left and up against it, and opposite keys cancel out.
pub proof fn ticks_move_by_the_speed(state: &PointerState, delta: PointerDelta, active: bool)
    requires
        call_ensures(PointerState::tick, (state, ), delta),
        call_ensures(PointerState::active, (state, ), active),
        state.well_formed(),
    ensures
        state.keys.right && !state.keys.left ==> delta.dx == state.speed,
        state.keys.left && !state.keys.right ==> delta.dx == -state.speed,
        state.keys.left == state.keys.right ==> delta.dx == 0,
        state.keys.down && !state.keys.up ==> delta.dy == state.speed,
        state.keys.up && !state.keys.down ==> delta.dy == -state.speed,
        state.keys.up == state.keys.down ==> delta.dy == 0,
        active <==> state.keys.left || state.keys.right || state.keys.up || state.keys.down,
{
}

/// A key of the pointer changes that key, and moves as a tick after it would.
pub proof fn keys_change_one_by_one(
    state: &mut PointerState,
    key: PointerKey,
    held: bool,
    delta: PointerDelta,
    later: &PointerState,
    tick: PointerDelta,
)
    requires
        call_ensures(PointerState::update_key, (state, key, held), delta),
        *later == *final(state),
        call_ensures(PointerState::tick, (later, ), tick),
    ensures
        final(state).keys.left == (if key is Left {
            held
        } else {
            old(state).keys.left
        }),
        final(state).keys.right == (if key is Right {
            held
        } else {
            old(state).keys.right
        }),
        final(state).keys.up == (if key is Up {
            held
        } else {
            old(state).keys.up
        }),
        final(state).keys.down == (if key is Down {
            held
        } else {
            old(state).keys.down
        }),
        final(state).baseline == old(state).baseline,
        final(state).speed == old(state).speed,
        delta == tick,
{
}

/// Ending a session lets every key go and forgets the position, and keeps the settings.
pub proof fn resets_let_everything_go(state: &mut PointerState, aim: &mut AimState)
    requires
        call_ensures(PointerState::reset, (state, ), ()),
        call_ensures(AimState::reset_session, (aim, ), ()),
    ensures
        !final(state).keys.left && !final(state).keys.right && !final(state).keys.up
            && !final(state).keys.down,
        final(state).baseline is None,
        final(state).speed == old(state).speed && final(state).ir_speed == old(state).ir_speed,
        !final(aim).held && final(aim).sensor is None && final(aim).baseline is None,
        final(aim).previous.x == 0 && final(aim).previous.y == 0,
        final(aim).config == old(aim).config,
{
}

/// A frame is remembered by its position, and forgotten where it shows no point; without a position
/// before and after it nothing moves.
pub proof fn frames_move_from_position_to_position(
    state: &mut PointerState,
    frame: &IrFrame,
    delta: PointerDelta,
    before: &PointerState,
    position: Option<IrPosition>,
)
    requires
        call_ensures(PointerState::update_ir_frame, (state, frame), delta),
        *before == *old(state),
        call_ensures(PointerState::select_ir, (before, frame), position),
    ensures
        final(state).baseline == position,
        position is Some <==> sees_a_point(*frame),
        old(state).baseline is None || !sees_a_point(*frame) ==> delta.dx == 0 && delta.dy == 0,
        position == old(state).baseline && old(state).ir_deadzone >= 0 ==> delta.dx == 0 && delta.dy
            == 0,
        final(state).keys == old(state).keys,
        final(state).speed == old(state).speed,
{
    reveal_with_fuel(crate::pointer::first_valid, 5);
}

/// The button that switches aiming on does so while it is held; letting it go puts the output in the
/// centre, and forgets what was aimed at. Other buttons do nothing.
pub proof fn the_activation_button_is_held(
    aim: &mut AimState,
    button: Button,
    held: bool,
    result: AimResult,
)
    requires
        call_ensures(AimState::activation_key, (aim, button, held), result),
    ensures
        ({
            let own = (old(aim).config.activation is B && button is B)
                || (old(aim).config.activation is Z && button is Z)
                    || (old(aim).config.activation is C && button
                is C);
            &&& own && held ==> final(aim).held && result.output is None && final(aim).baseline
                == old(aim).baseline && final(aim).previous == old(aim).previous
            &&& own && !held ==> !final(aim).held && final(aim).baseline is None
                && final(aim).previous.x == 0 && final(aim).previous.y == 0 && (
            result.output matches Some(v) && v.x == 0 && v.y == 0)
            &&& !own ==> *final(aim) == *old(aim) && result.output is None
            &&& final(aim).config == old(aim).config
            &&& final(aim).sensor == old(aim).sensor
        }),
{
}

/// A position of the camera is remembered, whether or not it is used; where there is none, nothing is
/// put out and the last one is forgotten.
pub proof fn positions_are_remembered(
    aim: &mut AimState,
    point: Option<IrPosition>,
    result: AimResult,
)
    requires
        call_ensures(AimState::process_ir, (aim, point), result),
    ensures
        final(aim).baseline == point,
        point is None ==> result.output is None && final(aim).previous == old(aim).previous
            && final(aim).sensor == old(aim).sensor,
        point is Some ==> final(aim).sensor is Some,
        final(aim).held == old(aim).held && final(aim).config == old(aim).config,
{
}

/// Where aiming is off or not activated, no sensor puts anything out.
pub proof fn inactive_aiming_puts_nothing_out(
    a: &mut AimState,
    b: &mut AimState,
    c: &mut AimState,
    v: [i32; 3],
    point: Option<IrPosition>,
    x: AimResult,
    y: AimResult,
    z: AimResult,
)
    requires
        call_ensures(AimState::process_accelerometer, (a, v), x),
        call_ensures(AimState::process_motion_plus, (b, v), y),
        call_ensures(AimState::process_ir, (c, point), z),
    ensures
        old(a).config.output is Off || (!old(a).held && old(a).config.activation !is Always)
            ==> x.output is None && final(a).previous == old(a).previous,
        old(b).config.output is Off || (!old(b).held && old(b).config.activation !is Always)
            ==> y.output is None && final(b).previous == old(b).previous,
        old(c).config.output is Off || (!old(c).held && old(c).config.activation !is Always)
            ==> z.output is None && final(c).previous == old(c).previous,
        final(a).held == old(a).held && final(b).held == old(b).held,
        final(a).baseline == old(a).baseline && final(b).baseline == old(b).baseline,
{
}

/// Aiming starts at rest, with its part of the settings.
pub proof fn aiming_starts_at_rest(config: &Config, part: AimConfig, aim: AimState)
    requires
        call_ensures(AimConfig::from_config, (config, ), part),
        call_ensures(AimState::new, (part, ), aim),
    ensures
        aim.config == part,
        !aim.held && aim.sensor is None && aim.baseline is None && aim.previous.x == 0
            && aim.previous.y == 0,
        part.output == config.aim_mode && part.source == config.aim_source && part.activation
            == config.aim_activation,
        part.sensitivity == config.aim_sensitivity && part.deadzone == config.aim_deadzone
            && part.smoothing == config.aim_smoothing,
        part.invert_x == config.aim_invert_x && part.invert_y == config.aim_invert_y,
        part.accel_zero == config.aim_accel_zero && part.motion_plus_bias
            == config.aim_motion_plus_bias,
        part.ir_mapping == config.ir_aim_mapping && part.ir_screen == config.ir_screen,
{
}

/// A button has the gamepad key of its own: no two buttons share one.
pub proof fn gamepad_keys_are_distinct(a: Button, b: Button, x: u16, y: u16)
    requires
        call_ensures(mapping::map_button, (a, ), x),
        call_ensures(mapping::map_button, (b, ), y),
    ensures
        x == y <==> a == b,
        a is A ==> x == 0x130,
        a is B ==> x == 0x131,
        a is Home ==> x == 0x13c,
        a is Up ==> x == 0x220,
        a is Down ==> x == 0x221,
        a is Left ==> x == 0x222,
        a is Right ==> x == 0x223,
{
}

/// Two axes of one movement are never the same axis of the gamepad.
pub proof fn gamepad_axes_are_distinct(
    kind: MotionKind,
    axes: [Abs3; 8],
    mapped: Vec<MappedAxis>,
    i: int,
    j: int,
)
    requires
        call_ensures(mapping::map_motion, (kind, axes), mapped),
        0 <= i < j < mapped@.len(),
    ensures
        mapped@[i].code != mapped@[j].code,
{
}

/// Numbers are divided towards zero, and brought into range by the nearest that is in it.
pub proof fn numbers_are_divided_and_narrowed(n: i64, d: i64, q: i64, wide: i64, narrow: i32)
    requires
        d > 0,
        call_ensures(pointer::divide, (n, d), q),
        call_ensures(pointer::narrow, (wide, ), narrow),
    ensures
        numbers::is_truncated(q as int, n as int, d as int),
        numbers::is_clamped(narrow as int, wide as int, -0x7fff_ffff, 0x7fff_ffff),
{
    numbers::division_rounds_towards_zero(n as int, d as int);
}

} // verus!
