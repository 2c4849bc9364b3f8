//! The desktop pointer: held direction keys and IR tracking.
use crate::config::IrTracking;
use vstd::prelude::*;

verus! {

/// A direction key of the pointer.
#[derive(Clone, Copy, Debug, PartialEq, Eq, Structural, Hash)]
pub enum PointerKey {
    Left,
    Right,
    Up,
    Down,
}

/// The direction keys that are held.
#[derive(Clone, Copy, Debug, PartialEq, Eq, Structural, Hash)]
pub struct PointerKeys {
    pub left: bool,
    pub right: bool,
    pub up: bool,
    pub down: bool,
}

/// One point of an IR report.
#[derive(Clone, Copy, Debug, PartialEq, Eq, Structural, Hash)]
pub struct IrPoint {
    pub valid: bool,
    pub x: i32,
    pub y: i32,
}

/// The four points of an IR report.
#[derive(Clone, Copy, Debug, PartialEq, Eq)]
pub struct IrFrame {
    pub points: [IrPoint; 4],
}

impl Default for IrFrame {
    fn default() -> (frame: IrFrame)
        ensures
            forall|i: int|
                0 <= i < 4 ==> #[trigger] frame.points[i] == (IrPoint { valid: false, x: 0, y: 0 }),
    {
        IrFrame { points: [IrPoint { valid: false, x: 0, y: 0 };4] }
    }
}

/// A position on the IR sensor.
#[derive(Clone, Copy, Debug, PartialEq, Eq, Structural, Hash)]
pub struct IrPosition {
    pub x: i32,
    pub y: i32,
}

/// A pointer movement.
#[derive(Clone, Copy, Debug, PartialEq, Eq, Structural, Hash)]
pub struct PointerDelta {
    pub dx: i32,
    pub dy: i32,
}

/// `n / d`, rounded towards zero.
pub open spec fn quotient(n: int, d: int) -> int {
    if n >= 0 {
        n / d
    } else {
        -((-n) / d)
    }
}

/// The nearest value of `n` whose magnitude fits in 31 bits.
pub open spec fn saturate(n: int) -> i32 {
    if n > 0x7fff_ffff {
        0x7fff_ffff
    } else if n < -0x7fff_ffff {
        (-0x7fff_ffff) as i32
    } else {
        n as i32
    }
}

/// `n / d`, rounded towards zero.
pub fn divide(n: i64, d: i64) -> (q: i64)
    requires
        d > 0,
        n > i64::MIN,
    ensures
        q == quotient(n as int, d as int),
        n >= 0 ==> 0 <= q <= n,
        n < 0 ==> n <= q <= 0,
{
    proof {
        let m: int = if n >= 0 {
            n as int
        } else {
            -n
        };
        assert(0 <= m / (d as int) <= m) by (nonlinear_arith)
            requires
                m >= 0,
                d > 0,
        ;
    }
    if n >= 0 {
        n / d
    } else {
        -((-n) / d)
    }
}

/// The nearest value whose magnitude fits in 31 bits.
pub fn narrow(n: i64) -> (r: i32)
    ensures
        r == saturate(n as int),
{
    if n > 0x7fff_ffff {
        0x7fff_ffff
    } else if n < -0x7fff_ffff {
        -0x7fff_ffff
    } else {
        n as i32
    }
}

/// The first valid point from position `from` on.
pub open spec fn first_valid(points: Seq<IrPoint>, from: nat) -> Option<nat>
    decreases points.len() - from,
{
    if from >= points.len() {
        None
    } else if points[from as int].valid {
        Some(from)
    } else {
        first_valid(points, from + 1)
    }
}

/// The number of valid points among the first `n` and the sums of their coordinates.
pub open spec fn valid_sums(points: Seq<IrPoint>, n: nat) -> (int, int, int)
    decreases n,
{
    if n == 0 {
        (0, 0, 0)
    } else {
        let rest = valid_sums(points, (n - 1) as nat);
        let point = points[n - 1];
        if point.valid {
            (rest.0 + 1, rest.1 + point.x, rest.2 + point.y)
        } else {
            rest
        }
    }
}

/// The position that stands for the visible points of a frame.
pub open spec fn tracked_position(points: Seq<IrPoint>, tracking: IrTracking) -> Option<
    IrPosition,
> {
    match first_valid(points, 0) {
        None => None,
        Some(i) => {
            let first = points[i as int];
            match tracking {
                IrTracking::First => Some(IrPosition { x: first.x, y: first.y }),
                IrTracking::Dual => match first_valid(points, i + 1) {
                    None => Some(IrPosition { x: first.x, y: first.y }),
                    Some(j) => {
                        let second = points[j as int];
                        Some(
                            IrPosition {
                                x: quotient(first.x + second.x, 2) as i32,
                                y: quotient(first.y + second.y, 2) as i32,
                            },
                        )
                    },
                },
                IrTracking::Centroid => {
                    let sums = valid_sums(points, points.len());
                    Some(
                        IrPosition {
                            x: quotient(sums.1, sums.0) as i32,
                            y: quotient(sums.2, sums.0) as i32,
                        },
                    )
                },
            }
        },
    }
}

/// The state of one controller's pointer.
#[derive(Clone, Copy, Debug, PartialEq, Eq, Structural)]
pub struct PointerState {
    pub speed: i32,
    pub ir_speed: i32,
    pub ir_deadzone: i32,
    pub ir_smoothing: i32,
    pub ir_tracking: IrTracking,
    pub keys: PointerKeys,
    /// The last position seen, from which movement is measured.
    pub baseline: Option<IrPosition>,
}

/// No direction key.
pub open spec fn no_keys() -> PointerKeys {
    PointerKeys { left: false, right: false, up: false, down: false }
}

/// The pointer movement of one axis between two positions.
pub open spec fn ir_response(state: PointerState, from: int, to: int) -> i32 {
    let raw = to - from;
    if -state.ir_deadzone <= raw <= state.ir_deadzone {
        0
    } else {
        saturate(quotient(quotient(raw * (100 - state.ir_smoothing), 100) * state.ir_speed, 64))
    }
}

impl PointerState {
    /// Whether the settings are in range.
    pub open spec fn well_formed(self) -> bool {
        &&& 1 <= self.speed <= 127
        &&& 1 <= self.ir_speed <= 127
        &&& 0 <= self.ir_deadzone <= 127
        &&& 0 <= self.ir_smoothing <= 95
    }

    /// Whether any direction key is held.
    pub open spec fn moving(self) -> bool {
        self.keys != no_keys()
    }

    /// The movement of one tick.
    pub open spec fn tick_delta(self) -> PointerDelta {
        PointerDelta {
            dx: (if self.keys.right {
                self.speed as int
            } else {
                0
            } - if self.keys.left {
                self.speed as int
            } else {
                0
            }) as i32,
            dy: (if self.keys.down {
                self.speed as int
            } else {
                0
            } - if self.keys.up {
                self.speed as int
            } else {
                0
            }) as i32,
        }
    }

    /// The state after a direction key changed.
    pub open spec fn with_key(self, key: PointerKey, held: bool) -> PointerState {
        let keys = match key {
            PointerKey::Left => PointerKeys { left: held, ..self.keys },
            PointerKey::Right => PointerKeys { right: held, ..self.keys },
            PointerKey::Up => PointerKeys { up: held, ..self.keys },
            PointerKey::Down => PointerKeys { down: held, ..self.keys },
        };
        PointerState { keys, ..self }
    }

    /// The state after a session ended.
    pub open spec fn after_reset(self) -> PointerState {
        PointerState { keys: no_keys(), baseline: None, ..self }
    }

    /// The state after a frame.
    pub open spec fn after_frame(self, points: Seq<IrPoint>) -> PointerState {
        PointerState { baseline: tracked_position(points, self.ir_tracking), ..self }
    }

    /// The movement that a frame causes: none without a position to measure from.
    pub open spec fn frame_delta(self, points: Seq<IrPoint>) -> PointerDelta {
        match (self.baseline, tracked_position(points, self.ir_tracking)) {
            (Some(from), Some(to)) => PointerDelta {
                dx: ir_response(self, from.x as int, to.x as int),
                dy: ir_response(self, from.y as int, to.y as int),
            },
            _ => PointerDelta { dx: 0, dy: 0 },
        }
    }

    /// A pointer at rest.
    pub fn new(
        speed: i32,
        ir_speed: i32,
        ir_deadzone: i32,
        ir_smoothing: i32,
        ir_tracking: IrTracking,
    ) -> (state: PointerState)
        ensures
            state == (PointerState {
                speed,
                ir_speed,
                ir_deadzone,
                ir_smoothing,
                ir_tracking,
                keys: no_keys(),
                baseline: None,
            }),
    {
        PointerState {
            speed,
            ir_speed,
            ir_deadzone,
            ir_smoothing,
            ir_tracking,
            keys: PointerKeys { left: false, right: false, up: false, down: false },
            baseline: None,
        }
    }

    /// Whether any direction key is held.
    pub fn active(&self) -> (r: bool)
        ensures
            r == self.moving(),
    {
        self.keys.left || self.keys.right || self.keys.up || self.keys.down
    }

    /// Ends the session: no key is held, and no position is known.
    pub fn reset(&mut self)
        ensures
            *final(self) == old(self).after_reset(),
    {
        self.keys = PointerKeys { left: false, right: false, up: false, down: false };
        self.baseline = None;
    }

    /// The movement of one tick.
    pub fn tick(&self) -> (delta: PointerDelta)
        requires
            self.well_formed(),
        ensures
            delta == self.tick_delta(),
    {
        let mut dx: i32 = 0;
        let mut dy: i32 = 0;
        if self.keys.right {
            dx = dx + self.speed;
        }
        if self.keys.left {
            dx = dx - self.speed;
        }
        if self.keys.down {
            dy = dy + self.speed;
        }
        if self.keys.up {
            dy = dy - self.speed;
        }
        PointerDelta { dx, dy }
    }

    /// Holds or lets go a direction key, and gives the movement that follows at once.
    pub fn update_key(&mut self, key: PointerKey, held: bool) -> (delta: PointerDelta)
        requires
            old(self).well_formed(),
        ensures
            *final(self) == old(self).with_key(key, held),
            delta == old(self).with_key(key, held).tick_delta(),
    {
        match key {
            PointerKey::Left => {
                self.keys.left = held;
            },
            PointerKey::Right => {
                self.keys.right = held;
            },
            PointerKey::Up => {
                self.keys.up = held;
            },
            PointerKey::Down => {
                self.keys.down = held;
            },
        }
        self.tick()
    }

    /// The position that stands for the visible points of a frame.
    pub fn select_ir(&self, frame: &IrFrame) -> (position: Option<IrPosition>)
        ensures
            position == tracked_position(frame.points@, self.ir_tracking),
    {
        let points = &frame.points;
        let i: usize = match find_valid(points, 0) {
            None => {
                return None;
            },
            Some(i) => i,
        };
        match self.ir_tracking {
            IrTracking::First => Some(IrPosition { x: points[i].x, y: points[i].y }),
            IrTracking::Dual => match find_valid(points, i + 1) {
                None => Some(IrPosition { x: points[i].x, y: points[i].y }),
                Some(j) => {
                    let x: i64 = divide(points[i].x as i64 + points[j].x as i64, 2);
                    let y: i64 = divide(points[i].y as i64 + points[j].y as i64, 2);
                    Some(IrPosition { x: x as i32, y: y as i32 })
                },
            },
            IrTracking::Centroid => Some(centroid(points)),
        }
    }

    /// Follows a frame, and gives the movement since the last position.
    pub fn update_ir_frame(&mut self, frame: &IrFrame) -> (delta: PointerDelta)
        requires
            old(self).well_formed(),
        ensures
            *final(self) == old(self).after_frame(frame.points@),
            delta == old(self).frame_delta(frame.points@),
    {
        let position = self.select_ir(frame);
        let delta = match (self.baseline, position) {
            (Some(from), Some(to)) => PointerDelta {
                dx: self.respond(from.x, to.x),
                dy: self.respond(from.y, to.y),
            },
            _ => PointerDelta { dx: 0, dy: 0 },
        };
        self.baseline = position;
        delta
    }

    fn respond(&self, from: i32, to: i32) -> (delta: i32)
        requires
            self.well_formed(),
        ensures
            delta == ir_response(*self, from as int, to as int),
    {
        let raw: i64 = to as i64 - from as i64;
        let deadzone: i64 = self.ir_deadzone as i64;
        if -deadzone <= raw && raw <= deadzone {
            return 0;
        }
        let share: i64 = 100 - self.ir_smoothing as i64;
        assert(-0x1_0000_0000 * 100 <= raw * share <= 0x1_0000_0000 * 100) by (nonlinear_arith)
            requires
                -0x1_0000_0000 <= raw <= 0x1_0000_0000,
                0 <= share <= 100,
        ;
        let smooth: i64 = divide(raw * share, 100);
        let gain: i64 = self.ir_speed as i64;
        assert(-0x1_0000_0000 * 100 * 127 <= smooth * gain <= 0x1_0000_0000 * 100 * 127)
            by (nonlinear_arith)
            requires
                -0x1_0000_0000 * 100 <= smooth <= 0x1_0000_0000 * 100,
                0 <= gain <= 127,
        ;
        narrow(divide(smooth * gain, 64))
    }
}

fn find_valid(points: &[IrPoint; 4], from: usize) -> (found: Option<usize>)
    ensures
        match found {
            Some(i) => first_valid(points@, from as nat) == Some(i as nat) && from <= i < 4
                && points@[i as int].valid,
            None => first_valid(points@, from as nat) is None,
        },
{
    let mut i: usize = from;
    while i < 4
        invariant
            from <= i,
            first_valid(points@, from as nat) == first_valid(points@, i as nat),
        decreases 4 - i,
    {
        if points[i].valid {
            return Some(i);
        }
        i = i + 1;
    }
    None
}

proof fn lemma_sums_are_bounded(points: Seq<IrPoint>, n: nat)
    requires
        n <= points.len(),
    ensures
        0 <= valid_sums(points, n).0 <= n,
        -0x8000_0000 * valid_sums(points, n).0 <= valid_sums(points, n).1 <= 0x7fff_ffff
            * valid_sums(points, n).0,
        -0x8000_0000 * valid_sums(points, n).0 <= valid_sums(points, n).2 <= 0x7fff_ffff
            * valid_sums(points, n).0,
        forall|i: int| 0 <= i < n && (#[trigger] points[i]).valid ==> valid_sums(points, n).0 > 0,
    decreases n,
{
    if n > 0 {
        lemma_sums_are_bounded(points, (n - 1) as nat);
    }
}

proof fn lemma_mean_is_bounded(sum: int, count: int)
    requires
        count > 0,
        -0x8000_0000 * count <= sum <= 0x7fff_ffff * count,
    ensures
        -0x8000_0000 <= quotient(sum, count) <= 0x7fff_ffff,
{
    if sum >= 0 {
        assert(0 <= sum / count <= 0x7fff_ffff) by (nonlinear_arith)
            requires
                count > 0,
                0 <= sum <= 0x7fff_ffff * count,
        ;
    } else {
        assert(0 <= (-sum) / count <= 0x8000_0000) by (nonlinear_arith)
            requires
                count > 0,
                0 <= -sum <= 0x8000_0000 * count,
        ;
    }
}

fn centroid(points: &[IrPoint; 4]) -> (position: IrPosition)
    requires
        first_valid(points@, 0) is Some,
    ensures
        position.x == quotient(valid_sums(points@, 4).1, valid_sums(points@, 4).0) as i32,
        position.y == quotient(valid_sums(points@, 4).2, valid_sums(points@, 4).0) as i32,
{
    let mut i: usize = 0;
    let mut count: i64 = 0;
    let mut x: i64 = 0;
    let mut y: i64 = 0;
    while i < 4
        invariant
            i <= 4,
            (count as int, x as int, y as int) == valid_sums(points@, i as nat),
        decreases 4 - i,
    {
        proof {
            lemma_sums_are_bounded(points@, i as nat);
        }
        if points[i].valid {
            count = count + 1;
            x = x + points[i].x as i64;
            y = y + points[i].y as i64;
        }
        i = i + 1;
    }
    proof {
        lemma_sums_are_bounded(points@, 4);
        reveal_with_fuel(first_valid, 5);
        lemma_mean_is_bounded(x as int, count as int);
        lemma_mean_is_bounded(y as int, count as int);
    }
    IrPosition { x: divide(x, count) as i32, y: divide(y, count) as i32 }
}

/// Losing every IR point forgets the position, so the frame on which points reappear moves nothing,
/// wherever they are.
pub proof fn reacquired_points_do_not_jump(
    state: PointerState,
    lost: Seq<IrPoint>,
    found: Seq<IrPoint>,
)
    requires
        tracked_position(lost, state.ir_tracking) is None,
    ensures
        state.after_frame(lost).frame_delta(found) == (PointerDelta { dx: 0, dy: 0 }),
        state.frame_delta(lost) == (PointerDelta { dx: 0, dy: 0 }),
{
}

/// A pointer that has been reset does not move until a key is held or two frames have been seen.
pub proof fn reset_pointer_rests(state: PointerState, points: Seq<IrPoint>)
    ensures
        !state.after_reset().moving(),
        state.after_reset().tick_delta() == (PointerDelta { dx: 0, dy: 0 }),
        state.after_reset().frame_delta(points) == (PointerDelta { dx: 0, dy: 0 }),
{
}

/// Letting a key go undoes holding it.
pub proof fn releasing_undoes_holding(state: PointerState, key: PointerKey)
    requires
        state.with_key(key, false) == state,
    ensures
        state.with_key(key, true).with_key(key, false) == state,
        state.with_key(key, true).moving(),
{
}

} // verus!
