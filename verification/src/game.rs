//! The session core: the generic piece state machine shared by walls and
//! ornaments, the world aggregate, and the session-level stage state machine
//! (Ready, Playing, GameOver, GameClear) with its per-tick transition.

use vstd::arithmetic::div_mod::lemma_fundamental_div_mod_converse;
use vstd::prelude::*;

use crate::cart::cart_hits;
use crate::cart::Cart;
use crate::cart::CartContext;
use crate::cart::CartState;
use crate::cart::CartStateMachine;
use crate::cart::Idle;
use crate::cart::CART_HEIGHT;
use crate::cart::CART_WIDTH;
use crate::engine::clamp_add;
use crate::engine::clamped;
use crate::engine::GameLoop;
use crate::engine::Key;
use crate::engine::KeyState;
use crate::engine::Line;
use crate::engine::Point;
use crate::engine::Velocity;
use crate::engine::POS_LIMIT;
use crate::engine::TICK_MICROS;
use crate::ornament::Ornament;
use crate::wall::build_level_walls;
use crate::wall::level_walls;
use crate::wall::Wall;

verus! {

/// Left border of the track area.
pub const STAGE_LEFT: i64 = 100;

/// Distance the cart must travel to clear the stage.
pub const STAGE_GOAL: i64 = 2300;

/// Where a fresh cart starts.
pub const CART_START_X: i64 = 220;

pub const CART_START_Y: i64 = 70;

/// Magnitude of the horizontal steering velocity.
pub const VELOCITY_X: i64 = 1;

/// Vertical speed gained per tick while accelerating below the limit.
pub const VELOCITY_STEP: i64 = 1;

/// Vertical speed lost per tick while braking; larger than the gain step.
pub const VELOCITY_BRAKE_STEP: i64 = 2;

/// The vertical speed limit: accelerating only applies below it.
pub const VELOCITY_LIMIT: i64 = 5;

/// The vertical speed floor: braking never makes the cart move backwards.
pub const VELOCITY_ZERO: i64 = 0;

/// Where the decoration starts.
pub const ORNAMENT_X: i64 = STAGE_LEFT + 20;

pub const ORNAMENT_Y: i64 = 50;

pub const ORNAMENT_WIDTH: i64 = 10;

pub const ORNAMENT_HEIGHT: i64 = 10;

/// The mutable state owned by one scrolling piece: a segment (its two
/// endpoints) and the velocity it scrolls with.
#[derive(Clone, Copy, Debug)]
pub struct Context {
    pub p: Point,
    pub q: Point,
    pub velocity: Velocity,
}

impl Context {
    /// Endpoints and velocity stay within the engine's position bound.
    pub open spec fn wf(self) -> bool {
        &&& self.p.within(POS_LIMIT)
        &&& self.q.within(POS_LIMIT)
        &&& self.velocity.within(POS_LIMIT)
    }

    /// Per-tick context refresh; the context carries no extra state, so
    /// this is the identity.
    pub fn update(self) -> (r: Self)
        ensures
            r == self,
    {
        self
    }

    /// Replace the velocity, leaving the endpoints untouched.
    pub fn run(self, velocity: Velocity) -> (r: Self)
        ensures
            r == (Context { velocity, ..self }),
    {
        Context { velocity, ..self }
    }
}

/// Marker: scrolling pieces are always in the Running state.
#[derive(Clone, Copy, Debug)]
pub struct Running;

/// One piece state together with its context.
#[derive(Clone, Copy, Debug)]
pub struct State<S> {
    pub context: Context,
    pub _state: S,
}

impl<S> State<S> {
    pub fn context(&self) -> (r: &Context)
        ensures
            *r == self.context,
    {
        &self.context
    }

    fn update_context(&mut self)
        ensures
            *final(self) == *old(self),
    {
        self.context = self.context.update();
    }
}

/// Events consumed by the piece state machine.
pub enum Event {
    /// Replace the scroll velocity.
    Run(Velocity),
    /// One tick of integration.
    Update,
}

/// A point moved by one tick of a velocity, each coordinate saturating at
/// the engine's position bound.
pub open spec fn moved_point(p: Point, v: Velocity) -> Point {
    Point { x: clamped(p.x + v.x) as i64, y: clamped(p.y + v.y) as i64 }
}

impl State<Running> {
    pub fn new(p: Point, q: Point, velocity: Velocity) -> (r: Self)
        ensures
            r == (State { context: Context { p, q, velocity }, _state: Running }),
    {
        State { context: Context { p, q, velocity }, _state: Running }
    }

    /// One tick of integration: both endpoints move by the velocity.
    pub fn update(self) -> (r: State<Running>)
        requires
            self.context.wf(),
        ensures
            r == (State {
                context: Context {
                    p: moved_point(self.context.p, self.context.velocity),
                    q: moved_point(self.context.q, self.context.velocity),
                    velocity: self.context.velocity,
                },
                _state: Running,
            }),
            r.context.wf(),
    {
        let mut next = self;
        next.context.p = Point {
            x: clamp_add(next.context.p.x, next.context.velocity.x),
            y: clamp_add(next.context.p.y, next.context.velocity.y),
        };
        next.context.q = Point {
            x: clamp_add(next.context.q.x, next.context.velocity.x),
            y: clamp_add(next.context.q.y, next.context.velocity.y),
        };
        next.update_context();
        next
    }

    /// Replace the velocity; the endpoints are unchanged.
    pub fn run(self, velocity: Velocity) -> (r: State<Running>)
        ensures
            r == (State { context: Context { velocity, ..self.context }, _state: Running }),
    {
        State { context: self.context.run(velocity), _state: Running }
    }
}

/// The piece state machine: walls and ornaments always scroll, so Running
/// is its only state.
#[derive(Clone, Copy, Debug)]
pub enum StateMachine {
    Running(State<Running>),
}

impl StateMachine {
    pub open spec fn context_spec(self) -> Context {
        match self {
            StateMachine::Running(state) => state.context,
        }
    }

    pub open spec fn wf(self) -> bool {
        self.context_spec().wf()
    }

    /// Total transition function: `Run` only sets the velocity, `Update`
    /// moves both endpoints by it.
    pub open spec fn transition_spec(self, event: Event) -> StateMachine {
        match (self, event) {
            (StateMachine::Running(state), Event::Run(velocity)) => StateMachine::Running(
                State { context: Context { velocity, ..state.context }, _state: Running },
            ),
            (StateMachine::Running(state), Event::Update) => StateMachine::Running(
                State {
                    context: Context {
                        p: moved_point(state.context.p, state.context.velocity),
                        q: moved_point(state.context.q, state.context.velocity),
                        velocity: state.context.velocity,
                    },
                    _state: Running,
                },
            ),
        }
    }

    /// Handle one event, per `transition_spec`.
    pub fn transition(self, event: Event) -> (r: Self)
        requires
            self.wf(),
            event matches Event::Run(velocity) ==> velocity.within(POS_LIMIT),
        ensures
            r == self.transition_spec(event),
            r.wf(),
    {
        match (self, event) {
            (StateMachine::Running(state), Event::Run(velocity)) => {
                StateMachine::Running(state.run(velocity))
            },
            (StateMachine::Running(state), Event::Update) => StateMachine::Running(state.update()),
        }
    }

    pub fn context(&self) -> (r: &Context)
        ensures
            *r == self.context_spec(),
    {
        match self {
            StateMachine::Running(state) => state.context(),
        }
    }

    /// Handle one `Update` event.
    pub fn update(self) -> (r: Self)
        requires
            self.wf(),
        ensures
            r == self.transition_spec(Event::Update),
            r.wf(),
    {
        self.transition(Event::Update)
    }
}

/// Any Piece in Running with velocity `v` moves by exactly `v` on one
/// `Update`, as long as neither coordinate saturates at the position bound.
pub proof fn lemma_running_update_moves_by_velocity(machine: StateMachine)
    requires
        -POS_LIMIT <= machine.context_spec().p.x + machine.context_spec().velocity.x <= POS_LIMIT,
        -POS_LIMIT <= machine.context_spec().p.y + machine.context_spec().velocity.y <= POS_LIMIT,
        -POS_LIMIT <= machine.context_spec().q.x + machine.context_spec().velocity.x <= POS_LIMIT,
        -POS_LIMIT <= machine.context_spec().q.y + machine.context_spec().velocity.y <= POS_LIMIT,
    ensures
        machine.transition_spec(Event::Update).context_spec().p.x == machine.context_spec().p.x
            + machine.context_spec().velocity.x,
        machine.transition_spec(Event::Update).context_spec().p.y == machine.context_spec().p.y
            + machine.context_spec().velocity.y,
        machine.transition_spec(Event::Update).context_spec().q.x == machine.context_spec().q.x
            + machine.context_spec().velocity.x,
        machine.transition_spec(Event::Update).context_spec().q.y == machine.context_spec().q.y
            + machine.context_spec().velocity.y,
        machine.transition_spec(Event::Update).context_spec().velocity
            == machine.context_spec().velocity,
{
}

/// A moving entity governed by the piece state machine: `sm` is its
/// machine's abstract value, and every operation is specified against it.
pub trait Piece: Sized {
    spec fn sm(&self) -> StateMachine;

    fn new(p: Point, q: Point, velocity: Velocity) -> (r: Self)
        ensures
            r.sm() == StateMachine::Running(
                State { context: Context { p, q, velocity }, _state: Running },
            ),
    ;

    fn get_state_machine(&self) -> (r: StateMachine)
        ensures
            r == self.sm(),
    ;

    fn set_state_machine(&mut self, state_machine: StateMachine)
        ensures
            final(self).sm() == state_machine,
    ;

    /// One tick of integration.
    fn update(&mut self)
        requires
            old(self).sm().wf(),
        ensures
            final(self).sm() == old(self).sm().transition_spec(Event::Update),
            final(self).sm().wf(),
    ;

    /// Replace the scroll velocity.
    fn run(&mut self, velocity: Velocity)
        requires
            old(self).sm().wf(),
            velocity.within(POS_LIMIT),
        ensures
            final(self).sm() == old(self).sm().transition_spec(Event::Run(velocity)),
            final(self).sm().wf(),
    ;

    /// The piece's segment at its live position.
    fn get_line(&self) -> (r: Line)
        ensures
            r == (Line { p: self.sm().context_spec().p, q: self.sm().context_spec().q }),
    ;

    fn p(&self) -> (r: Point)
        ensures
            r == self.sm().context_spec().p,
    ;

    fn q(&self) -> (r: Point)
        ensures
            r == self.sm().context_spec().q,
    ;
}

/// The abstract value of a whole world: the cart, the piece lists as
/// sequences, and the progress counters. A best time of 0 means "no best
/// time recorded yet"; a recorded best is always at least 1, since the
/// frame counter advances before the goal is ever checked.
#[verifier::ext_equal]
pub ghost struct WorldModel {
    pub frame: u64,
    pub distance: i64,
    pub highscore: u64,
    pub cart: Cart,
    pub ornaments: Seq<Ornament>,
    pub walls: Seq<Wall>,
}

impl WorldModel {
    pub open spec fn wf(self) -> bool {
        &&& self.cart.wf()
        &&& forall|i: int|
            0 <= i < self.walls.len() ==> (#[trigger] self.walls[i]).state_machine.wf()
        &&& forall|i: int|
            0 <= i < self.ornaments.len() ==> (#[trigger] self.ornaments[i]).state_machine.wf()
    }
}

/// The abstract value of the session: exactly one stage is live, and it
/// owns the one live world.
#[verifier::ext_equal]
pub ghost enum StageModel {
    Ready(WorldModel),
    Playing(WorldModel),
    GameOver(WorldModel),
    GameClear(WorldModel),
}

impl StageModel {
    pub open spec fn world(self) -> WorldModel {
        match self {
            StageModel::Ready(w) => w,
            StageModel::Playing(w) => w,
            StageModel::GameOver(w) => w,
            StageModel::GameClear(w) => w,
        }
    }

    pub open spec fn wf(self) -> bool {
        self.world().wf()
    }
}

/// The cart of a freshly built world: Idle at the start position, at rest,
/// with the fixed body dimensions.
pub open spec fn initial_cart() -> Cart {
    Cart {
        state_machine: CartStateMachine::Idle(
            CartState {
                context: CartContext {
                    position: Point { x: CART_START_X, y: CART_START_Y },
                    velocity: Point { x: 0, y: 0 },
                    width: CART_WIDTH,
                    height: CART_HEIGHT,
                },
                _state: Idle,
            },
        ),
    }
}

/// The decoration of a freshly built world.
pub open spec fn initial_ornament() -> Ornament {
    Ornament {
        state_machine: StateMachine::Running(
            State {
                context: Context {
                    p: Point { x: ORNAMENT_X, y: ORNAMENT_Y },
                    q: Point {
                        x: (ORNAMENT_X + ORNAMENT_WIDTH) as i64,
                        y: (ORNAMENT_Y + ORNAMENT_HEIGHT) as i64,
                    },
                    velocity: Point { x: 0, y: 0 },
                },
                _state: Running,
            },
        ),
    }
}

/// A freshly built world: zeroed counters, the fixed wall layout, and the
/// given best time carried over.
pub open spec fn initial_world(highscore: u64) -> WorldModel {
    WorldModel {
        frame: 0,
        distance: 0,
        highscore,
        cart: initial_cart(),
        ornaments: seq![initial_ornament()],
        walls: level_walls(),
    }
}

/// The frame counter advances by one each playing tick, saturating only at
/// the top of its type.
pub open spec fn next_frame(frame: u64) -> u64 {
    if frame == u64::MAX {
        u64::MAX
    } else {
        (frame + 1) as u64
    }
}

/// The distance accumulates the cart's vertical velocity each playing
/// tick, saturating only at the bounds of its type.
pub open spec fn accumulated_distance(distance: i64, dy: i64) -> i64 {
    if distance + dy > i64::MAX {
        i64::MAX
    } else if distance + dy < i64::MIN {
        i64::MIN
    } else {
        (distance + dy) as i64
    }
}

/// The best time after clearing the stage at frame count `frame`:
/// `min(frame, best)` if a previous best exists (`best != 0`), else `frame`.
pub open spec fn updated_best(frame: u64, best: u64) -> u64 {
    if best != 0 && best < frame {
        best
    } else {
        frame
    }
}

/// The cart velocity after one tick of steering input:
/// - holding "accelerate" (ArrowUp) adds `VELOCITY_STEP` vertically, but
///   only below `VELOCITY_LIMIT`;
/// - holding "brake" (Space) subtracts the larger `VELOCITY_BRAKE_STEP`;
/// - the vertical component is clamped to a minimum of zero;
/// - steering left/right sets the horizontal component to the fixed
///   magnitude, "straighten" (ArrowDown) zeroes it, right winning over
///   left winning over straighten when several are held.
pub open spec fn steered_velocity(v: Velocity, keystate: KeyState) -> Velocity {
    let vy_up = if keystate.up && v.y < VELOCITY_LIMIT {
        v.y + VELOCITY_STEP
    } else {
        v.y as int
    };
    let vy_braked = if keystate.space {
        vy_up - VELOCITY_BRAKE_STEP
    } else {
        vy_up
    };
    let vy = if vy_braked < VELOCITY_ZERO {
        VELOCITY_ZERO as int
    } else {
        vy_braked
    };
    let vx = if keystate.right {
        VELOCITY_X as int
    } else if keystate.left {
        -VELOCITY_X as int
    } else if keystate.down {
        VELOCITY_ZERO as int
    } else {
        v.x as int
    };
    Point { x: vx as i64, y: vy as i64 }
}

/// The scroll velocity handed to every wall and ornament: the negated
/// vertical cart velocity, the world scrolling under the anchored player.
pub open spec fn scroll_velocity(v: Velocity) -> Velocity {
    Point { x: 0, y: (-v.y) as i64 }
}

/// A cart after one playing tick's motion: `Run` with the steered velocity,
/// then one `Update`.
pub open spec fn moved_cart(cart: Cart, velocity: Velocity) -> Cart {
    Cart {
        state_machine: cart.state_machine.transition_spec(
            crate::cart::Event::Run(velocity),
        ).transition_spec(crate::cart::Event::Update),
    }
}

/// A cart knocked by a collision.
pub open spec fn knocked_cart(cart: Cart) -> Cart {
    Cart { state_machine: cart.state_machine.transition_spec(crate::cart::Event::Knocked) }
}

/// A wall after one playing tick's motion.
pub open spec fn moved_wall(wall: Wall, velocity: Velocity) -> Wall {
    Wall {
        state_machine: wall.state_machine.transition_spec(Event::Run(velocity)).transition_spec(
            Event::Update,
        ),
    }
}

/// An ornament after one playing tick's motion.
pub open spec fn moved_ornament(ornament: Ornament, velocity: Velocity) -> Ornament {
    Ornament {
        state_machine: ornament.state_machine.transition_spec(
            Event::Run(velocity),
        ).transition_spec(Event::Update),
    }
}

/// The segment a wall currently occupies.
pub open spec fn wall_line(wall: Wall) -> Line {
    Line { p: wall.state_machine.context_spec().p, q: wall.state_machine.context_spec().q }
}

/// A wall is in collision range once its vertical span has scrolled into
/// reach: its lower bound is at most the distance traveled. Segments still
/// ahead of the player are skipped.
pub open spec fn wall_in_range(wall: Wall, distance: i64) -> bool {
    vstd::math::min(
        wall.state_machine.context_spec().p.y as int,
        wall.state_machine.context_spec().q.y as int,
    ) <= distance
}

/// One playing tick: the frame counter advances, the distance accumulates
/// the cart's vertical velocity, input steers the cart, the world scrolls
/// under it, every piece integrates one tick, and then exactly one of three
/// outcomes holds: the goal was passed (GameClear, best time updated), a
/// wall in range crosses the cart's body (GameOver, cart Knocked), or the
/// stage remains Playing.
pub open spec fn playing_step(w: WorldModel, keystate: KeyState) -> StageModel {
    let v0 = w.cart.context_spec().velocity;
    let frame = next_frame(w.frame);
    let distance = accumulated_distance(w.distance, v0.y);
    let v1 = steered_velocity(v0, keystate);
    let scroll = scroll_velocity(v1);
    let cart = moved_cart(w.cart, v1);
    let ornaments = w.ornaments.map_values(|o: Ornament| moved_ornament(o, scroll));
    let walls = w.walls.map_values(|wl: Wall| moved_wall(wl, scroll));
    if distance > STAGE_GOAL {
        StageModel::GameClear(
            WorldModel {
                frame,
                distance,
                highscore: updated_best(frame, w.highscore),
                cart,
                ornaments,
                walls,
            },
        )
    } else if exists|i: int|
        0 <= i < walls.len() && wall_in_range(#[trigger] walls[i], distance) && cart_hits(
            cart.context_spec(),
            wall_line(walls[i]),
        ) {
        StageModel::GameOver(
            WorldModel {
                frame,
                distance,
                highscore: w.highscore,
                cart: knocked_cart(cart),
                ornaments,
                walls,
            },
        )
    } else {
        StageModel::Playing(
            WorldModel { frame, distance, highscore: w.highscore, cart, ornaments, walls },
        )
    }
}

/// One tick of the whole session:
/// - Ready plus the held confirm key starts Playing with the same world;
/// - Playing ticks per `playing_step`;
/// - GameOver or GameClear plus the confirm key rebuilds a fresh Ready
///   world, carrying only the best time over;
/// - every other combination leaves the stage unchanged.
pub open spec fn stage_step(m: StageModel, keystate: KeyState) -> StageModel {
    match m {
        StageModel::Ready(w) => if keystate.space {
            StageModel::Playing(w)
        } else {
            m
        },
        StageModel::Playing(w) => playing_step(w, keystate),
        StageModel::GameOver(w) => if keystate.space {
            StageModel::Ready(initial_world(w.highscore))
        } else {
            m
        },
        StageModel::GameClear(w) => if keystate.space {
            StageModel::Ready(initial_world(w.highscore))
        } else {
            m
        },
    }
}

/// A playing tick with the brake key held requests the one-shot brake
/// sound effect from the audio collaborator.
pub open spec fn step_requests_brake(m: StageModel, keystate: KeyState) -> bool {
    m is Playing && keystate.space
}

/// Everything one play session owns: exactly one cart, the fixed ordered
/// wall list, the decorations, and the progress counters.
#[derive(Debug)]
pub struct Material {
    pub frame: u64,
    pub distance: i64,
    pub highscore: u64,
    pub cart: Cart,
    pub ornaments: Vec<Ornament>,
    pub walls: Vec<Wall>,
}

impl Material {
    /// The abstract value of this world.
    pub open spec fn model(self) -> WorldModel {
        WorldModel {
            frame: self.frame,
            distance: self.distance,
            highscore: self.highscore,
            cart: self.cart,
            ornaments: self.ornaments@,
            walls: self.walls@,
        }
    }

    pub open spec fn wf(self) -> bool {
        self.model().wf()
    }

    /// Build a fresh world carrying the given best time.
    pub fn new(highscore: u64) -> (r: Material)
        ensures
            r.model() == initial_world(highscore),
            r.wf(),
    {
        let cart = Cart::new(
            Point::new(CART_START_X, CART_START_Y),
            Point::new(0, 0),
            CART_WIDTH,
            CART_HEIGHT,
        );
        let mut ornaments: Vec<Ornament> = Vec::new();
        ornaments.push(
            Ornament::new(
                Point::new(ORNAMENT_X, ORNAMENT_Y),
                Point::new(ORNAMENT_X + ORNAMENT_WIDTH, ORNAMENT_Y + ORNAMENT_HEIGHT),
                Point::new(0, 0),
            ),
        );
        let walls = build_level_walls();
        let material = Material { frame: 0, distance: 0, highscore, cart, ornaments, walls };
        proof {
            assert(material.ornaments@ =~= seq![initial_ornament()]);
            assert(material.model() =~= initial_world(highscore));
            lemma_initial_world_wf(highscore);
        }
        material
    }

    /// Rebuild the world for a new session, keeping only the best time.
    pub fn reset(material: Self) -> (r: Self)
        ensures
            r.model() == initial_world(material.highscore),
            r.wf(),
    {
        Material::new(material.highscore)
    }
}

/// A freshly built world is well-formed: every coordinate of the fixed
/// layout lies far within the position bound.
pub proof fn lemma_initial_world_wf(highscore: u64)
    ensures
        initial_world(highscore).wf(),
{
    assert forall|i: int| 0 <= i < level_walls().len() implies (#[trigger] level_walls()[i])
        .state_machine.wf() by {
        assert(level_walls()[i].state_machine.wf());
    }
}

/// While the cart is not moving backwards (its vertical velocity is never
/// negative, which steering guarantees), the distance never decreases on a
/// playing tick, whatever the tick's outcome.
pub proof fn lemma_playing_distance_non_decreasing(w: WorldModel, keystate: KeyState)
    requires
        w.cart.context_spec().velocity.y >= 0,
    ensures
        playing_step(w, keystate).world().distance >= w.distance,
{
}

/// The recorded best time only ever decreases: once a best exists, clearing
/// the stage again keeps the minimum of the old best and the new time.
pub proof fn lemma_best_time_only_improves(frame: u64, best: u64)
    requires
        best != 0,
    ensures
        updated_best(frame, best) <= best,
{
}

/// Steering never makes the cart move backwards: the vertical component of
/// the steered velocity is always at least zero.
pub proof fn lemma_steering_clamps_at_zero(v: Velocity, keystate: KeyState)
    ensures
        steered_velocity(v, keystate).y >= 0,
{
}

/// Exact exec counterpart of `steered_velocity`.
fn steered(v: Velocity, keystate: &KeyState) -> (r: Velocity)
    requires
        v.within(POS_LIMIT),
    ensures
        r == steered_velocity(v, *keystate),
        r.within(POS_LIMIT),
        r.y >= 0,
{
    let mut vy = v.y;
    if keystate.is_pressed(Key::ArrowUp) && vy < VELOCITY_LIMIT {
        vy = vy + VELOCITY_STEP;
    }
    if keystate.is_pressed(Key::Space) {
        vy = vy - VELOCITY_BRAKE_STEP;
    }
    if vy < VELOCITY_ZERO {
        vy = VELOCITY_ZERO;
    }
    let mut vx = v.x;
    if keystate.is_pressed(Key::ArrowDown) {
        vx = VELOCITY_ZERO;
    }
    if keystate.is_pressed(Key::ArrowLeft) {
        vx = -VELOCITY_X;
    }
    if keystate.is_pressed(Key::ArrowRight) {
        vx = VELOCITY_X;
    }
    Point { x: vx, y: vy }
}

/// Exact exec counterpart of `accumulated_distance`.
fn accumulate_distance(distance: i64, dy: i64) -> (r: i64)
    ensures
        r == accumulated_distance(distance, dy),
{
    if dy >= 0 {
        if distance > i64::MAX - dy {
            i64::MAX
        } else {
            distance + dy
        }
    } else {
        if distance < i64::MIN - dy {
            i64::MIN
        } else {
            distance + dy
        }
    }
}

/// Marker: pre-game, waiting for the confirm key.
#[derive(Clone, Copy, Debug)]
pub struct Ready;

/// Marker: the session is being played.
#[derive(Clone, Copy, Debug)]
pub struct Playing;

/// Marker: the cart was knocked; waiting for the confirm key to reset.
#[derive(Clone, Copy, Debug)]
pub struct GameOver;

/// Marker: the goal was passed; waiting for the confirm key to reset.
#[derive(Clone, Copy, Debug)]
pub struct GameClear;

/// One session stage together with the world it owns.
#[derive(Debug)]
pub struct GameStageState<T> {
    pub _state: T,
    pub material: Material,
}

impl GameStageState<Ready> {
    pub fn new(material: Material) -> (r: GameStageState<Ready>)
        ensures
            r.material == material,
    {
        GameStageState { _state: Ready, material }
    }

    /// The confirm key starts the session; the world is carried over
    /// unchanged.
    fn start_running(self) -> (r: GameStageState<Playing>)
        ensures
            r.material == self.material,
    {
        GameStageState { _state: Playing, material: self.material }
    }

    fn update(self, keystate: &KeyState) -> (r: GameStageStateMachine)
        ensures
            r.model() == stage_step(StageModel::Ready(self.material.model()), *keystate),
    {
        if keystate.is_pressed(Key::Space) {
            return GameStageStateMachine::Playing(self.start_running());
        }
        GameStageStateMachine::Ready(self)
    }
}

impl GameStageState<Playing> {
    /// One playing tick; see `playing_step` for the outcome it realizes.
    #[verifier::loop_isolation(false)]
    fn update(self, keystate: &KeyState) -> (r: GameStageStateMachine)
        requires
            self.material.wf(),
        ensures
            r.model() == playing_step(self.material.model(), *keystate),
            r.wf(),
    {
        let mut material = self.material;
        let ghost w0 = material.model();

        let v0 = material.cart.get_velocity();
        material.frame = if material.frame == u64::MAX {
            u64::MAX
        } else {
            material.frame + 1
        };
        material.distance = accumulate_distance(material.distance, v0.y);
        let v1 = steered(v0, keystate);
        material.cart.run(v1);
        material.cart.update();
        let scroll = Point { x: 0, y: -v1.y };
        assert(scroll == scroll_velocity(v1));
        assert(material.cart == moved_cart(w0.cart, v1));

        let ghost frame1 = material.frame;
        let ghost dist1 = material.distance;
        let ghost hs0 = material.highscore;
        let ghost cart1 = material.cart;

        let ghost orns0 = material.ornaments@;
        let mut i: usize = 0;
        while i < material.ornaments.len()
            invariant
                i <= material.ornaments.len(),
                material.ornaments@.len() == orns0.len(),
                scroll.within(POS_LIMIT),
                material.frame == frame1,
                material.distance == dist1,
                material.highscore == hs0,
                material.cart == cart1,
                material.walls@ == w0.walls,
                forall|j: int| 0 <= j < orns0.len() ==> (#[trigger] orns0[j]).state_machine.wf(),
                forall|j: int|
                    0 <= j < i ==> material.ornaments@[j] == moved_ornament(orns0[j], scroll),
                forall|j: int|
                    0 <= j < i ==> (#[trigger] material.ornaments@[j]).state_machine.wf(),
                forall|j: int| i <= j < orns0.len() ==> material.ornaments@[j] == orns0[j],
            decreases material.ornaments.len() - i,
        {
            let mut o = material.ornaments[i];
            proof {
                assert(o == orns0[i as int]);
            }
            o.run(scroll);
            o.update();
            material.ornaments.set(i, o);
            i = i + 1;
        }
        proof {
            assert(material.ornaments@ =~= orns0.map_values(
                |o: Ornament| moved_ornament(o, scroll),
            ));
        }
        let ghost orns1 = material.ornaments@;

        let ghost walls0 = material.walls@;
        let mut i: usize = 0;
        while i < material.walls.len()
            invariant
                i <= material.walls.len(),
                material.walls@.len() == walls0.len(),
                scroll.within(POS_LIMIT),
                material.frame == frame1,
                material.distance == dist1,
                material.highscore == hs0,
                material.cart == cart1,
                material.ornaments@ == orns1,
                forall|j: int| 0 <= j < orns1.len() ==> (#[trigger] orns1[j]).state_machine.wf(),
                forall|j: int| 0 <= j < walls0.len() ==> (#[trigger] walls0[j]).state_machine.wf(),
                forall|j: int|
                    0 <= j < i ==> material.walls@[j] == moved_wall(walls0[j], scroll),
                forall|j: int|
                    0 <= j < i ==> (#[trigger] material.walls@[j]).state_machine.wf(),
                forall|j: int| i <= j < walls0.len() ==> material.walls@[j] == walls0[j],
            decreases material.walls.len() - i,
        {
            let mut w = material.walls[i];
            proof {
                assert(w == walls0[i as int]);
            }
            w.run(scroll);
            w.update();
            material.walls.set(i, w);
            i = i + 1;
        }
        proof {
            assert(material.walls@ =~= walls0.map_values(|wl: Wall| moved_wall(wl, scroll)));
        }
        let ghost walls1 = material.walls@;

        if material.distance > STAGE_GOAL {
            material.highscore = if material.highscore != 0 && material.highscore < material.frame {
                material.highscore
            } else {
                material.frame
            };
            let r = GameStageStateMachine::GameClear(
                GameStageState { _state: GameClear, material },
            );
            proof {
                assert(r.model() =~= playing_step(w0, *keystate));
            }
            return r;
        }

        let mut i: usize = 0;
        while i < material.walls.len()
            invariant
                i <= material.walls.len(),
                material.walls@ == walls1,
                material.frame == frame1,
                material.distance == dist1,
                material.highscore == hs0,
                material.cart == cart1,
                material.cart.wf(),
                material.ornaments@ == orns1,
                forall|j: int| 0 <= j < walls1.len() ==> (#[trigger] walls1[j]).state_machine.wf(),
                forall|j: int|
                    0 <= j < i ==> !(wall_in_range(#[trigger] walls1[j], material.distance)
                        && cart_hits(material.cart.context_spec(), wall_line(walls1[j]))),
            decreases material.walls.len() - i,
        {
            let wall = material.walls[i];
            let line = Line {
                p: wall.state_machine.context().p,
                q: wall.state_machine.context().q,
            };
            let py = wall.state_machine.context().p.y;
            let qy = wall.state_machine.context().q.y;
            let lower = if py < qy {
                py
            } else {
                qy
            };
            if lower <= material.distance {
                if material.cart.intersect(line) {
                    let ghost hit_index = i as int;
                    material.cart.knocked();
                    let r = GameStageStateMachine::GameOver(
                        GameStageState { _state: GameOver, material },
                    );
                    proof {
                        assert(wall_in_range(walls1[hit_index], dist1) && cart_hits(
                            cart1.context_spec(),
                            wall_line(walls1[hit_index]),
                        ));
                        assert(r.model() =~= playing_step(w0, *keystate));
                    }
                    return r;
                }
            }
            i = i + 1;
        }

        let r = GameStageStateMachine::Playing(GameStageState { _state: Playing, material });
        proof {
            assert(forall|j: int|
                0 <= j < walls1.len() ==> !(wall_in_range(#[trigger] walls1[j], dist1) && cart_hits(
                    cart1.context_spec(),
                    wall_line(walls1[j]),
                )));
            assert(r.model() =~= playing_step(w0, *keystate));
        }
        r
    }
}


impl GameStageState<GameOver> {
    /// The confirm key starts a new session over a fresh world; only the
    /// best time survives.
    fn update(self, keystate: &KeyState) -> (r: GameStageStateMachine)
        ensures
            r.model() == stage_step(StageModel::GameOver(self.material.model()), *keystate),
            self.material.wf() ==> r.wf(),
    {
        if keystate.is_pressed(Key::Space) {
            GameStageStateMachine::Ready(self.new_game())
        } else {
            GameStageStateMachine::GameOver(self)
        }
    }

    fn new_game(self) -> (r: GameStageState<Ready>)
        ensures
            r.material.model() == initial_world(self.material.highscore),
            r.material.wf(),
    {
        GameStageState { _state: Ready, material: Material::reset(self.material) }
    }
}

impl GameStageState<GameClear> {
    /// The confirm key starts a new session over a fresh world; only the
    /// best time survives.
    fn update(self, keystate: &KeyState) -> (r: GameStageStateMachine)
        ensures
            r.model() == stage_step(StageModel::GameClear(self.material.model()), *keystate),
            self.material.wf() ==> r.wf(),
    {
        if keystate.is_pressed(Key::Space) {
            GameStageStateMachine::Ready(self.new_game())
        } else {
            GameStageStateMachine::GameClear(self)
        }
    }

    fn new_game(self) -> (r: GameStageState<Ready>)
        ensures
            r.material.model() == initial_world(self.material.highscore),
            r.material.wf(),
    {
        GameStageState { _state: Ready, material: Material::reset(self.material) }
    }
}

/// The session state machine: exactly one stage variant is live at a time,
/// and every transition consumes the old stage and produces a new one.
#[derive(Debug)]
pub enum GameStageStateMachine {
    Ready(GameStageState<Ready>),
    Playing(GameStageState<Playing>),
    GameOver(GameStageState<GameOver>),
    GameClear(GameStageState<GameClear>),
}

impl GameStageStateMachine {
    pub open spec fn model(self) -> StageModel {
        match self {
            GameStageStateMachine::Ready(state) => StageModel::Ready(state.material.model()),
            GameStageStateMachine::Playing(state) => StageModel::Playing(state.material.model()),
            GameStageStateMachine::GameOver(state) => StageModel::GameOver(state.material.model()),
            GameStageStateMachine::GameClear(state) => StageModel::GameClear(
                state.material.model(),
            ),
        }
    }

    pub open spec fn wf(self) -> bool {
        self.model().wf()
    }

    /// A new session starts in Ready over the given world.
    pub fn new(material: Material) -> (r: Self)
        ensures
            r.model() == StageModel::Ready(material.model()),
    {
        GameStageStateMachine::Ready(GameStageState::new(material))
    }

    /// One session tick, per `stage_step`; additionally reports whether
    /// this tick requests the brake sound effect.
    pub fn update(self, keystate: &KeyState) -> (r: (Self, bool))
        requires
            self.wf(),
        ensures
            r.0.model() == stage_step(self.model(), *keystate),
            r.0.wf(),
            r.1 == step_requests_brake(self.model(), *keystate),
    {
        match self {
            GameStageStateMachine::Ready(state) => (state.update(keystate), false),
            GameStageStateMachine::Playing(state) => {
                let brake = keystate.is_pressed(Key::Space);
                (state.update(keystate), brake)
            },
            GameStageStateMachine::GameOver(state) => (state.update(keystate), false),
            GameStageStateMachine::GameClear(state) => (state.update(keystate), false),
        }
    }

    /// The world the live stage owns, exposed read-only for rendering.
    pub fn material(&self) -> (r: &Material)
        ensures
            r.model() == self.model().world(),
    {
        match self {
            GameStageStateMachine::Ready(state) => &state.material,
            GameStageStateMachine::Playing(state) => &state.material,
            GameStageStateMachine::GameOver(state) => &state.material,
            GameStageStateMachine::GameClear(state) => &state.material,
        }
    }

    pub fn is_ready(&self) -> (r: bool)
        ensures
            r == (self.model() is Ready),
    {
        matches!(self, GameStageStateMachine::Ready(_))
    }

    pub fn is_playing(&self) -> (r: bool)
        ensures
            r == (self.model() is Playing),
    {
        matches!(self, GameStageStateMachine::Playing(_))
    }

    pub fn is_game_over(&self) -> (r: bool)
        ensures
            r == (self.model() is GameOver),
    {
        matches!(self, GameStageStateMachine::GameOver(_))
    }

    pub fn is_game_clear(&self) -> (r: bool)
        ensures
            r == (self.model() is GameClear),
    {
        matches!(self, GameStageStateMachine::GameClear(_))
    }
}

/// Errors of the session surface.
#[derive(Clone, Copy, PartialEq, Eq, Structural, Debug)]
pub enum StageError {
    /// The session was already initialized; re-initialization is a contract
    /// violation and is reported rather than silently accepted.
    AlreadyInitialized,
}

/// The top-level game: an optional session state machine. It holds none
/// until `initialize` builds the first world.
#[derive(Debug)]
pub struct GameStage {
    pub machine: Option<GameStageStateMachine>,
}

impl GameStage {
    pub open spec fn wf(self) -> bool {
        self.machine matches Some(machine) ==> machine.wf()
    }

    pub fn new() -> (r: GameStage)
        ensures
            r.machine is None,
            r.wf(),
    {
        GameStage { machine: None }
    }

    /// Build the first world and enter Ready. Initializing an
    /// already-initialized session is reported as an error and changes
    /// nothing.
    pub fn initialize(&mut self) -> (r: Result<(), StageError>)
        ensures
            old(self).machine is None ==> r is Ok && (final(self).machine matches Some(machine)
                && machine.model() == StageModel::Ready(initial_world(0))),
            old(self).machine is Some ==> r == Result::<(), StageError>::Err(
                StageError::AlreadyInitialized,
            ) && final(self).machine == old(self).machine,
            old(self).wf() ==> final(self).wf(),
    {
        if self.machine.is_some() {
            return Err(StageError::AlreadyInitialized);
        }
        let material = Material::new(0);
        self.machine = Some(GameStageStateMachine::new(material));
        Ok(())
    }

    /// One session tick: a no-op before initialization, otherwise one
    /// `stage_step`. Reports whether the tick requests the brake sound.
    pub fn update(&mut self, keystate: &KeyState) -> (brake: bool)
        requires
            old(self).wf(),
        ensures
            final(self).wf(),
            old(self).machine is None ==> final(self).machine is None && !brake,
            old(self).machine matches Some(m0) ==> (final(self).machine matches Some(m1)
                && m1.model() == stage_step(m0.model(), *keystate) && brake == step_requests_brake(
                m0.model(),
                *keystate,
            )),
    {
        match self.machine.take() {
            None => false,
            Some(machine) => {
                let (next, brake) = machine.update(keystate);
                self.machine = Some(next);
                brake
            },
        }
    }
}

/// The session after `n` ticks under one input snapshot.
pub open spec fn stage_after_ticks(m: StageModel, keystate: KeyState, n: nat) -> StageModel
    decreases n,
{
    if n == 0 {
        m
    } else {
        stage_step(stage_after_ticks(m, keystate, (n - 1) as nat), keystate)
    }
}

/// Whether any of `n` ticks under one input snapshot requests the brake
/// sound effect.
pub open spec fn brake_requested_during(m: StageModel, keystate: KeyState, n: nat) -> bool
    decreases n,
{
    if n == 0 {
        false
    } else {
        brake_requested_during(m, keystate, (n - 1) as nat) || step_requests_brake(
            stage_after_ticks(m, keystate, (n - 1) as nat),
            keystate,
        )
    }
}

impl GameLoop {
    /// One scheduler callback for the timestamp `now`: the elapsed time
    /// joins the accumulator, which then drains in whole ticks — each tick
    /// one synchronous `GameStage::update` — with no cap on the number of
    /// catch-up ticks after a long gap. Returns the number of ticks run and
    /// whether any of them requested the brake sound. Rendering runs after
    /// this, against the now-current world.
    #[verifier::loop_isolation(false)]
    pub fn run_frame(&mut self, game: &mut GameStage, keystate: &KeyState, now: i64) -> (r: (
        u64,
        bool,
    ))
        requires
            old(self).wf(),
            old(self).last_frame <= now,
            now - old(self).last_frame + old(self).accumulated_delta <= i64::MAX,
            old(game).wf(),
        ensures
            final(self).wf(),
            final(self).last_frame == now,
            final(self).accumulated_delta == (old(self).accumulated_delta + (now - old(
                self,
            ).last_frame)) % (TICK_MICROS as int),
            r.0 == (old(self).accumulated_delta + (now - old(self).last_frame)) / (
            TICK_MICROS as int),
            final(game).wf(),
            old(game).machine is None ==> final(game).machine is None && !r.1,
            old(game).machine matches Some(m0) ==> (final(game).machine matches Some(m1)
                && m1.model() == stage_after_ticks(m0.model(), *keystate, r.0 as nat) && r.1
                == brake_requested_during(m0.model(), *keystate, r.0 as nat)),
    {
        let elapsed = now - self.last_frame;
        self.accumulated_delta = self.accumulated_delta + elapsed;
        let ghost total = self.accumulated_delta as int;
        let mut ticks: u64 = 0;
        let mut brake = false;
        while self.accumulated_delta >= TICK_MICROS
            invariant
                game.wf(),
                0 <= self.accumulated_delta,
                total == self.accumulated_delta + ticks * TICK_MICROS,
                total <= i64::MAX,
                old(game).machine is None ==> game.machine is None && !brake,
                old(game).machine matches Some(m0) ==> (game.machine matches Some(mc)
                    && mc.model() == stage_after_ticks(m0.model(), *keystate, ticks as nat)
                    && brake == brake_requested_during(m0.model(), *keystate, ticks as nat)),
            decreases self.accumulated_delta,
        {
            let tick_brake = game.update(keystate);
            brake = brake || tick_brake;
            self.accumulated_delta = self.accumulated_delta - TICK_MICROS;
            ticks = ticks + 1;
        }
        self.last_frame = now;
        proof {
            lemma_fundamental_div_mod_converse(
                total,
                TICK_MICROS as int,
                ticks as int,
                self.accumulated_delta as int,
            );
        }
        (ticks, brake)
    }
}

} // verus!
