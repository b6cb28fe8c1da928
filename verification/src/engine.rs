//! Engine-level value types and services: 2D points and segments, the
//! segment-crossing predicate used by collision detection, the input
//! snapshot, and the fixed-timestep game-loop scheduler.

use vstd::prelude::*;

verus! {

/// Every piece position and velocity component is kept within this bound;
/// position integration clamps to it, so repeated ticks can never overflow.
pub const POS_LIMIT: i64 = 536870912;

/// Bound on the coordinates the segment-crossing test accepts: a body edge is
/// a piece position plus a body dimension, each within `POS_LIMIT`.
pub const SEG_LIMIT: i64 = 2 * POS_LIMIT;

/// A 2D point with integer coordinates.
#[derive(Clone, Copy, PartialEq, Eq, Structural, Debug)]
pub struct Point {
    pub x: i64,
    pub y: i64,
}

/// A velocity is a displacement applied per simulation tick.
pub type Velocity = Point;

impl Point {
    /// Both coordinates lie within `bound` in absolute value.
    pub open spec fn within(self, bound: i64) -> bool {
        -bound <= self.x <= bound && -bound <= self.y <= bound
    }

    pub fn new(x: i64, y: i64) -> (r: Point)
        ensures
            r.x == x,
            r.y == y,
    {
        Point { x, y }
    }

    /// Componentwise addition.
    pub fn add(&self, target: Point) -> (r: Point)
        requires
            i64::MIN <= self.x + target.x <= i64::MAX,
            i64::MIN <= self.y + target.y <= i64::MAX,
        ensures
            r.x == self.x + target.x,
            r.y == self.y + target.y,
    {
        Point { x: self.x + target.x, y: self.y + target.y }
    }
}

/// A directed pair of points: a wall edge or a body edge.
#[derive(Clone, Copy, PartialEq, Eq, Structural, Debug)]
pub struct Line {
    pub p: Point,
    pub q: Point,
}

impl Line {
    pub open spec fn within(self, bound: i64) -> bool {
        self.p.within(bound) && self.q.within(bound)
    }

    pub fn new(p: Point, q: Point) -> (r: Line)
        ensures
            r.p == p,
            r.q == q,
    {
        Line { p, q }
    }
}

/// Clamp a coordinate into `[-POS_LIMIT, POS_LIMIT]`.
pub open spec fn clamped(x: int) -> int {
    if x < -POS_LIMIT {
        -POS_LIMIT as int
    } else if x > POS_LIMIT {
        POS_LIMIT as int
    } else {
        x
    }
}

/// Saturating coordinate addition: exact whenever the sum stays in range.
pub fn clamp_add(a: i64, b: i64) -> (r: i64)
    requires
        -POS_LIMIT <= a <= POS_LIMIT,
        -POS_LIMIT <= b <= POS_LIMIT,
    ensures
        r == clamped(a + b),
        -POS_LIMIT <= r <= POS_LIMIT,
{
    let s = a + b;
    if s < -POS_LIMIT {
        -POS_LIMIT
    } else if s > POS_LIMIT {
        POS_LIMIT
    } else {
        s
    }
}

/// Signed area of the triangle spanned by segment `a` and point `p`:
/// the cross product `(a.p - a.q) x (p - a.p)`. Its sign says on which
/// side of the line through `a` the point `p` lies.
pub open spec fn side_of(a: Line, p: Point) -> int {
    (a.p.x - a.q.x) * (p.y - a.p.y) - (a.p.y - a.q.y) * (p.x - a.p.x)
}

/// The endpoints of `b` lie on strictly opposite sides of the line through `a`.
pub open spec fn straddles(a: Line, b: Line) -> bool {
    side_of(a, b.p) * side_of(a, b.q) < 0
}

/// Proper crossing: each segment's endpoints lie strictly on opposite sides
/// of the other. Touching, collinear, and endpoint-only contacts are false.
pub open spec fn segments_cross(a: Line, b: Line) -> bool {
    straddles(a, b) && straddles(b, a)
}

/// A true crossing is order-independent: whether two segments properly cross
/// does not depend on which of the pair is given first.
pub proof fn lemma_segments_cross_symmetric(a: Line, b: Line)
    ensures
        segments_cross(a, b) == segments_cross(b, a),
{
}

/// Exact signed-area computation, widened to `i128` so that no intermediate
/// product can overflow for coordinates within `SEG_LIMIT`.
fn side_of_exec(a: &Line, p: &Point) -> (r: i128)
    requires
        a.within(SEG_LIMIT),
        p.within(SEG_LIMIT),
    ensures
        r == side_of(*a, *p),
        -0x8000000000000000i128 <= r <= 0x8000000000000000i128,
{
    let ux = a.p.x as i128 - a.q.x as i128;
    let uy = a.p.y as i128 - a.q.y as i128;
    let wx = p.x as i128 - a.p.x as i128;
    let wy = p.y as i128 - a.p.y as i128;
    assert(-0x4000000000000000i128 <= ux * wy <= 0x4000000000000000i128) by (nonlinear_arith)
        requires
            -0x80000000i128 <= ux <= 0x80000000i128,
            -0x80000000i128 <= wy <= 0x80000000i128,
    ;
    assert(-0x4000000000000000i128 <= uy * wx <= 0x4000000000000000i128) by (nonlinear_arith)
        requires
            -0x80000000i128 <= uy <= 0x80000000i128,
            -0x80000000i128 <= wx <= 0x80000000i128,
    ;
    ux * wy - uy * wx
}

/// Collision Detector: strict segment-segment crossing via signed-area
/// orientation tests. Conservative on degeneracies: touching, collinear and
/// endpoint contacts resolve to `false`.
pub fn intersect(a: &Line, b: &Line) -> (r: bool)
    requires
        a.within(SEG_LIMIT),
        b.within(SEG_LIMIT),
    ensures
        r == segments_cross(*a, *b),
{
    let d1 = side_of_exec(a, &b.p);
    let d2 = side_of_exec(a, &b.q);
    let e1 = side_of_exec(b, &a.p);
    let e2 = side_of_exec(b, &a.q);
    assert(-0x40000000000000000000000000000000i128 <= d1 * d2
        <= 0x40000000000000000000000000000000i128) by (nonlinear_arith)
        requires
            -0x8000000000000000i128 <= d1 <= 0x8000000000000000i128,
            -0x8000000000000000i128 <= d2 <= 0x8000000000000000i128,
    ;
    assert(-0x40000000000000000000000000000000i128 <= e1 * e2
        <= 0x40000000000000000000000000000000i128) by (nonlinear_arith)
        requires
            -0x8000000000000000i128 <= e1 <= 0x8000000000000000i128,
            -0x8000000000000000i128 <= e2 <= 0x8000000000000000i128,
    ;
    d1 * d2 < 0 && e1 * e2 < 0
}

/// The key identifiers the simulation reads.
#[derive(Clone, Copy, PartialEq, Eq, Structural, Debug)]
pub enum Key {
    Space,
    ArrowUp,
    ArrowDown,
    ArrowLeft,
    ArrowRight,
}

/// A discrete press or release event delivered by the host.
#[derive(Clone, Copy, PartialEq, Eq, Structural, Debug)]
pub enum KeyPress {
    KeyUp(Key),
    KeyDown(Key),
}

/// Input Snapshot: a read-only, tick-scoped view of the currently held keys.
/// It changes only when a queue of press/release events is drained into it,
/// once per scheduler iteration, before any tick runs.
#[derive(Clone, Copy, PartialEq, Eq, Structural, Debug)]
pub struct KeyState {
    pub space: bool,
    pub up: bool,
    pub down: bool,
    pub left: bool,
    pub right: bool,
}

impl KeyState {
    /// Whether `code` is currently held.
    pub open spec fn pressed(self, code: Key) -> bool {
        match code {
            Key::Space => self.space,
            Key::ArrowUp => self.up,
            Key::ArrowDown => self.down,
            Key::ArrowLeft => self.left,
            Key::ArrowRight => self.right,
        }
    }

    /// The snapshot with `code` marked held (`true`) or released (`false`).
    pub open spec fn with_key(self, code: Key, held: bool) -> KeyState {
        match code {
            Key::Space => KeyState { space: held, ..self },
            Key::ArrowUp => KeyState { up: held, ..self },
            Key::ArrowDown => KeyState { down: held, ..self },
            Key::ArrowLeft => KeyState { left: held, ..self },
            Key::ArrowRight => KeyState { right: held, ..self },
        }
    }

    pub fn new() -> (r: KeyState)
        ensures
            forall|code: Key| !r.pressed(code),
    {
        KeyState { space: false, up: false, down: false, left: false, right: false }
    }

    pub fn is_pressed(&self, code: Key) -> (r: bool)
        ensures
            r == self.pressed(code),
    {
        match code {
            Key::Space => self.space,
            Key::ArrowUp => self.up,
            Key::ArrowDown => self.down,
            Key::ArrowLeft => self.left,
            Key::ArrowRight => self.right,
        }
    }

    pub fn set_pressed(&mut self, code: Key)
        ensures
            *final(self) == old(self).with_key(code, true),
    {
        match code {
            Key::Space => self.space = true,
            Key::ArrowUp => self.up = true,
            Key::ArrowDown => self.down = true,
            Key::ArrowLeft => self.left = true,
            Key::ArrowRight => self.right = true,
        }
    }

    pub fn set_released(&mut self, code: Key)
        ensures
            *final(self) == old(self).with_key(code, false),
    {
        match code {
            Key::Space => self.space = false,
            Key::ArrowUp => self.up = false,
            Key::ArrowDown => self.down = false,
            Key::ArrowLeft => self.left = false,
            Key::ArrowRight => self.right = false,
        }
    }
}

/// One event applied to a snapshot: a press inserts, a release removes.
pub open spec fn apply_press(s: KeyState, e: KeyPress) -> KeyState {
    match e {
        KeyPress::KeyDown(code) => s.with_key(code, true),
        KeyPress::KeyUp(code) => s.with_key(code, false),
    }
}

/// A whole queue of events applied to a snapshot in arrival order.
pub open spec fn apply_presses(s: KeyState, events: Seq<KeyPress>) -> KeyState
    decreases events.len(),
{
    if events.len() == 0 {
        s
    } else {
        apply_press(apply_presses(s, events.drop_last()), events.last())
    }
}

/// Drain a queue of press/release events into the snapshot, in arrival order.
pub fn process_input(state: &mut KeyState, events: &Vec<KeyPress>)
    ensures
        *final(state) == apply_presses(*old(state), events@),
{
    let ghost s0 = *state;
    let mut i: usize = 0;
    while i < events.len()
        invariant
            i <= events.len(),
            *state == apply_presses(s0, events@.take(i as int)),
        decreases events.len() - i,
    {
        match events[i] {
            KeyPress::KeyDown(code) => state.set_pressed(code),
            KeyPress::KeyUp(code) => state.set_released(code),
        }
        proof {
            assert(events@.take(i + 1).drop_last() =~= events@.take(i as int));
            assert(events@.take(i + 1).last() == events@[i as int]);
        }
        i = i + 1;
    }
    proof {
        assert(events@.take(events@.len() as int) =~= events@);
    }
}

/// One fixed simulation tick, in microseconds: 1/30 of a second.
pub const TICK_MICROS: i64 = 33333;

/// Game Loop Scheduler state: decouples variable render timing from fixed
/// simulation ticks. `accumulated_delta` carries the leftover time that did
/// not yet amount to a whole tick.
#[derive(Clone, Copy, PartialEq, Eq, Structural, Debug)]
pub struct GameLoop {
    pub last_frame: i64,
    pub accumulated_delta: i64,
}

impl GameLoop {
    /// Between frames the accumulator always holds less than one tick.
    pub open spec fn wf(self) -> bool {
        0 <= self.accumulated_delta < TICK_MICROS
    }

    pub fn new(now: i64) -> (r: GameLoop)
        ensures
            r.last_frame == now,
            r.accumulated_delta == 0,
            r.wf(),
    {
        GameLoop { last_frame: now, accumulated_delta: 0 }
    }
}

} // verus!
