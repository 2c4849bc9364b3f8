//! Pointing with the IR camera.
use crate::config::IrTracking;
use crate::engine;
use crate::engine::{EngineInput, EngineView, OutputDevice};
use crate::laws::keys;
use crate::laws::numbers;
use crate::pointer;
use crate::pointer::{IrFrame, IrPoint, IrPosition, PointerState};
use vstd::prelude::*;

verus! {

/// Whether a point is the first of a frame that is visible.
pub open spec fn is_first_visible(points: Seq<IrPoint>, i: int) -> bool {
    &&& 0 <= i < points.len()
    &&& points[i].valid
    &&& forall|k: int| 0 <= k < i ==> !(#[trigger] points[k]).valid
}

proof fn lemma_first(points: Seq<IrPoint>, from: nat, i: int)
    requires
        from <= i < points.len(),
        points[i].valid,
        forall|k: int| from <= k < i ==> !(#[trigger] points[k]).valid,
    ensures
        pointer::first_valid(points, from) == Some(i as nat),
    decreases i - from,
{
    if from < i {
        assert(!points[from as int].valid);
        lemma_first(points, from + 1, i);
    }
}

proof fn lemma_none(points: Seq<IrPoint>, from: nat)
    requires
        forall|k: int| from <= k < points.len() ==> !(#[trigger] points[k]).valid,
    ensures
        pointer::first_valid(points, from) is None,
    decreases points.len() - from,
{
    if from < points.len() {
        assert(!points[from as int].valid);
        lemma_none(points, from + 1);
    }
}

/// A frame without a visible point shows nothing, whatever is tracked; any other shows a position.
pub proof fn only_visible_points_count(points: Seq<IrPoint>, tracking: IrTracking, i: int)
    ensures
        (forall|k: int| 0 <= k < points.len() ==> !(#[trigger] points[k]).valid)
            ==> pointer::tracked_position(points, tracking) is None,
        is_first_visible(points, i) ==> pointer::tracked_position(points, tracking) is Some,
{
    if forall|k: int| 0 <= k < points.len() ==> !(#[trigger] points[k]).valid {
        lemma_none(points, 0);
    }
    if is_first_visible(points, i) {
        lemma_first(points, 0, i);
    }
}

/// One visible point is followed exactly where it is, whatever is tracked.
pub proof fn a_single_point_is_followed(points: Seq<IrPoint>, tracking: IrTracking, i: int)
    requires
        points.len() == 4,
        is_first_visible(points, i),
        forall|k: int| i < k < points.len() ==> !(#[trigger] points[k]).valid,
    ensures
        pointer::tracked_position(points, tracking) == Some(
            IrPosition { x: points[i].x, y: points[i].y },
        ),
{
    lemma_first(points, 0, i);
    lemma_none(points, (i + 1) as nat);
    reveal_with_fuel(pointer::valid_sums, 5);
    let sums = pointer::valid_sums(points, 4);
    assert(sums == (1int, points[i].x as int, points[i].y as int)) by {
        assert(i == 0 || i == 1 || i == 2 || i == 3);
        assert(points[0].valid == (i == 0));
        assert(points[1].valid == (i == 1));
        assert(points[2].valid == (i == 2));
        assert(points[3].valid == (i == 3));
    }
    numbers::division_rounds_towards_zero(points[i].x as int, 1);
    numbers::division_rounds_towards_zero(points[i].y as int, 1);
}

/// Tracking the first point follows the first that is visible, whatever others show.
pub proof fn the_first_point_is_followed(points: Seq<IrPoint>, i: int)
    requires
        is_first_visible(points, i),
    ensures
        pointer::tracked_position(points, IrTracking::First) == Some(
            IrPosition { x: points[i].x, y: points[i].y },
        ),
{
    lemma_first(points, 0, i);
}

/// Tracking two points follows the middle between the first two that are visible.
pub proof fn two_points_give_their_middle(points: Seq<IrPoint>, i: int, j: int)
    requires
        is_first_visible(points, i),
        i < j < points.len(),
        points[j].valid,
        forall|k: int| i < k < j ==> !(#[trigger] points[k]).valid,
    ensures
        pointer::tracked_position(points, IrTracking::Dual) matches Some(at)
            && numbers::is_truncated(at.x as int, points[i].x + points[j].x, 2)
            && numbers::is_truncated(at.y as int, points[i].y + points[j].y, 2),
{
    lemma_first(points, 0, i);
    lemma_first(points, (i + 1) as nat, j);
    numbers::division_rounds_towards_zero(points[i].x + points[j].x, 2);
    numbers::division_rounds_towards_zero(points[i].y + points[j].y, 2);
}

/// A value of a point that is visible, and nothing of one that is not.
pub open spec fn seen(visible: bool, value: int) -> int {
    if visible {
        value
    } else {
        0
    }
}

/// Tracking the centroid follows the mean of all points that are visible.
pub proof fn all_points_give_their_mean(points: Seq<IrPoint>, i: int)
    requires
        points.len() == 4,
        is_first_visible(points, i),
    ensures
        ({
            let p = points;
            let n = seen(p[0].valid, 1) + seen(p[1].valid, 1) + seen(p[2].valid, 1) + seen(
                p[3].valid,
                1,
            );
            let x = seen(p[0].valid, p[0].x as int) + seen(p[1].valid, p[1].x as int) + seen(
                p[2].valid,
                p[2].x as int,
            ) + seen(p[3].valid, p[3].x as int);
            let y = seen(p[0].valid, p[0].y as int) + seen(p[1].valid, p[1].y as int) + seen(
                p[2].valid,
                p[2].y as int,
            ) + seen(p[3].valid, p[3].y as int);
            pointer::tracked_position(points, IrTracking::Centroid) matches Some(at)
                && numbers::is_truncated(at.x as int, x, n) && numbers::is_truncated(
                at.y as int,
                y,
                n,
            )
        }),
{
    lemma_first(points, 0, i);
    let p = points;
    reveal_with_fuel(pointer::valid_sums, 5);
    let sums = pointer::valid_sums(points, 4);
    let n = seen(p[0].valid, 1) + seen(p[1].valid, 1) + seen(p[2].valid, 1) + seen(p[3].valid, 1);
    assert(sums.0 == n);
    assert(n > 0) by {
        assert(i == 0 || i == 1 || i == 2 || i == 3);
    }
    numbers::division_rounds_towards_zero(sums.1, n);
    numbers::division_rounds_towards_zero(sums.2, n);
    lemma_mean_fits(sums.1, n);
    lemma_mean_fits(sums.2, n);
}

proof fn lemma_mean_fits(sum: int, n: int)
    requires
        1 <= n <= 4,
        -0x8000_0000 * n <= sum <= 0x7fff_ffff * n,
    ensures
        -0x8000_0000 <= pointer::quotient(sum, n) <= 0x7fff_ffff,
{
    let q = pointer::quotient(sum, n);
    numbers::division_rounds_towards_zero(sum, n);
    assert(-0x8000_0000 <= q <= 0x7fff_ffff) by (nonlinear_arith)
        requires
            1 <= n <= 4,
            -0x8000_0000 * n <= sum <= 0x7fff_ffff * n,
            sum >= 0 ==> 0 <= n * q <= sum,
            sum <= 0 ==> sum <= n * q <= 0,
    ;
}

/// Whether a pointer answers a step of the tracked position along one axis with this movement: none
/// within the dead zone, and else the step, damped by the smoothing and scaled by the speed in
/// sixty-fourths.
pub open spec fn follows(state: PointerState, step: int, moved: int) -> bool {
    if -state.ir_deadzone <= step <= state.ir_deadzone {
        moved == 0
    } else {
        exists|damped: int, scaled: int| #[trigger]
            numbers::is_truncated(damped, step * (100 - state.ir_smoothing), 100)
                && #[trigger] numbers::is_truncated(scaled, damped * state.ir_speed, 64)
                && numbers::is_clamped(moved, scaled, -0x7fff_ffff, 0x7fff_ffff)
    }
}

proof fn lemma_follows(state: PointerState, from: int, to: int)
    ensures
        follows(state, to - from, pointer::ir_response(state, from, to) as int),
{
    let step = to - from;
    let damped = pointer::quotient(step * (100 - state.ir_smoothing), 100);
    let scaled = pointer::quotient(damped * state.ir_speed, 64);
    numbers::division_rounds_towards_zero(step * (100 - state.ir_smoothing), 100);
    numbers::division_rounds_towards_zero(damped * state.ir_speed, 64);
    numbers::results_are_clamped(scaled);
}

/// On the desktop the mouse follows the tracked position: from one frame to the next it moves as far
/// as the position did, along both axes, by the settings of the configuration.
pub proof fn the_mouse_follows_the_position(
    view: EngineView,
    first: IrFrame,
    second: IrFrame,
    from: IrPosition,
    to: IrPosition,
)
    requires
        view.profile is Desktop || view.profile is Both,
        view.config.aim_mode !is Mouse,
        view.well_formed(),
        pointer::tracked_position(first.points@, view.config.ir_tracking) == Some(from),
        pointer::tracked_position(second.points@, view.config.ir_tracking) == Some(to),
    ensures
        ({
            let actions = view.after(EngineInput::Ir(first)).actions(EngineInput::Ir(second));
            &&& follows(view.pointer, to.x - from.x, keys::travel(0, actions))
            &&& follows(view.pointer, to.y - from.y, keys::travel(1, actions))
        }),
{
    let seen = view.after(EngineInput::Ir(first));
    let delta = seen.pointer.frame_delta(second.points@);
    let result = seen.aim.after_ir(
        pointer::tracked_position(second.points@, seen.pointer.ir_tracking),
    ).1;
    let a = engine::pointer_actions(delta.dx, delta.dy);
    let b = engine::aim_actions(view.config.aim_mode, result);
    keys::lemma_pointer(OutputDevice::Desktop, 0, delta.dx, delta.dy);
    keys::lemma_pointer(OutputDevice::Desktop, 1, delta.dx, delta.dy);
    keys::lemma_aiming(OutputDevice::Desktop, view.config.aim_mode, result);
    keys::lemma_travel_joins(0, a, b);
    keys::lemma_travel_joins(1, a, b);
    lemma_follows(seen.pointer, from.x as int, to.x as int);
    lemma_follows(seen.pointer, from.y as int, to.y as int);
    assert(follows(seen.pointer, to.x - from.x, delta.dx as int));
    assert(follows(seen.pointer, to.y - from.y, delta.dy as int));
    lemma_same_settings(view.pointer, seen.pointer, to.x - from.x, delta.dx as int);
    lemma_same_settings(view.pointer, seen.pointer, to.y - from.y, delta.dy as int);
}

proof fn lemma_same_settings(a: PointerState, b: PointerState, step: int, moved: int)
    requires
        a.ir_speed == b.ir_speed,
        a.ir_deadzone == b.ir_deadzone,
        a.ir_smoothing == b.ir_smoothing,
        follows(b, step, moved),
    ensures
        follows(a, step, moved),
{
}

/// With full speed and no smoothing the mouse moves exactly as far as the position did, and the
/// same way.
pub proof fn full_speed_is_one_to_one(state: PointerState, step: int, moved: int)
    requires
        state.ir_speed == 64,
        state.ir_smoothing == 0,
        0 <= state.ir_deadzone,
        step < -state.ir_deadzone || step > state.ir_deadzone,
        -0x7fff_ffff <= step <= 0x7fff_ffff,
        follows(state, step, moved),
    ensures
        moved == step,
{
    let (damped, scaled) = choose|damped: int, scaled: int| #[trigger]
        numbers::is_truncated(damped, step * (100 - state.ir_smoothing), 100)
            && #[trigger] numbers::is_truncated(scaled, damped * state.ir_speed, 64)
            && numbers::is_clamped(moved, scaled, -0x7fff_ffff, 0x7fff_ffff);
    assert(numbers::is_truncated(step, step * 100, 100)) by (nonlinear_arith);
    numbers::quotients_are_unique(damped, step, step * 100, 100);
    assert(numbers::is_truncated(step, step * 64, 64)) by (nonlinear_arith);
    numbers::quotients_are_unique(scaled, step, step * 64, 64);
}

/// The mouse never moves against the position.
pub proof fn the_mouse_moves_the_same_way(state: PointerState, step: int, moved: int)
    requires
        0 <= state.ir_speed,
        0 <= state.ir_smoothing <= 100,
        follows(state, step, moved),
    ensures
        step >= 0 ==> moved >= 0,
        step <= 0 ==> moved <= 0,
{
    if step < -state.ir_deadzone || step > state.ir_deadzone {
        let (damped, scaled) = choose|damped: int, scaled: int| #[trigger]
            numbers::is_truncated(damped, step * (100 - state.ir_smoothing), 100)
                && #[trigger] numbers::is_truncated(scaled, damped * state.ir_speed, 64)
                && numbers::is_clamped(moved, scaled, -0x7fff_ffff, 0x7fff_ffff);
        let share = 100 - state.ir_smoothing;
        let speed = state.ir_speed as int;
        if step >= 0 {
            assert(step * share >= 0) by (nonlinear_arith)
                requires
                    step >= 0,
                    share >= 0,
            ;
            assert(damped * speed >= 0) by (nonlinear_arith)
                requires
                    damped >= 0,
                    speed >= 0,
            ;
        }
        if step <= 0 {
            assert(step * share <= 0) by (nonlinear_arith)
                requires
                    step <= 0,
                    share >= 0,
            ;
            assert(damped * speed <= 0) by (nonlinear_arith)
                requires
                    damped <= 0,
                    speed >= 0,
            ;
        }
    }
}

} // verus!
