//! The player body: a typestate machine over Idle, Running and Knocked,
//! carrying a position/velocity context plus a fixed width and height used
//! for collision geometry.

use vstd::prelude::*;

use crate::engine::clamp_add;
use crate::engine::clamped;
use crate::engine::intersect;
use crate::engine::segments_cross;
use crate::engine::Line;
use crate::engine::Point;
use crate::engine::Velocity;
use crate::engine::POS_LIMIT;
use crate::engine::SEG_LIMIT;

verus! {

/// Width of the player body, used for hit detection.
pub const CART_WIDTH: i64 = 20;

/// Height of the player body, used for hit detection.
pub const CART_HEIGHT: i64 = 14;

/// The mutable state owned by one cart: position, velocity and the body
/// dimensions. Never aliased; each transition consumes and rebuilds it.
#[derive(Clone, Copy, Debug)]
pub struct CartContext {
    pub position: Point,
    pub velocity: Velocity,
    pub width: i64,
    pub height: i64,
}

impl CartContext {
    /// Coordinates and dimensions stay within the engine's position bound,
    /// so that integration and the crossing test cannot overflow.
    pub open spec fn wf(self) -> bool {
        &&& self.position.within(POS_LIMIT)
        &&& self.velocity.within(POS_LIMIT)
        &&& 0 <= self.width <= POS_LIMIT
        &&& 0 <= self.height <= POS_LIMIT
    }

    /// Per-tick context refresh; the context itself carries no extra state,
    /// so this is the identity.
    pub fn update(self) -> (r: Self)
        ensures
            r == self,
    {
        self
    }

    /// Replace the velocity, leaving everything else untouched.
    fn run(self, velocity: Velocity) -> (r: Self)
        ensures
            r == (CartContext { velocity, ..self }),
    {
        CartContext { velocity, ..self }
    }

    /// Entering the knocked state freezes the context as it is.
    fn knocked(self) -> (r: Self)
        ensures
            r == self,
    {
        self
    }
}

/// Marker: stationary, waiting for the first movement command.
#[derive(Clone, Copy, Debug)]
pub struct Idle;

/// Marker: moving with the context's velocity.
#[derive(Clone, Copy, Debug)]
pub struct Running;

/// Marker: hit by a collision; terminal until the world is rebuilt.
#[derive(Clone, Copy, Debug)]
pub struct Knocked;

/// One cart state together with its context.
#[derive(Clone, Copy, Debug)]
pub struct CartState<S> {
    pub context: CartContext,
    pub _state: S,
}

impl<S> CartState<S> {
    pub fn context(&self) -> (r: &CartContext)
        ensures
            *r == self.context,
    {
        &self.context
    }

    fn update_context(&mut self)
        ensures
            *final(self) == *old(self),
    {
        self.context = self.context.update();
    }
}

impl CartState<Idle> {
    pub fn new(position: Point, velocity: Velocity, width: i64, height: i64) -> (r: Self)
        ensures
            r == (CartState {
                context: CartContext { position, velocity, width, height },
                _state: Idle,
            }),
    {
        CartState {
            context: CartContext { position, velocity, width, height },
            _state: Idle,
        }
    }

    /// An idle cart does not move: `Update` leaves the context unchanged.
    pub fn update(self) -> (r: CartState<Idle>)
        ensures
            r == self,
    {
        let mut next = self;
        next.update_context();
        next
    }

    /// `Run` starts the cart: Idle becomes Running with the given velocity;
    /// the position is unchanged.
    pub fn run(self, velocity: Velocity) -> (r: CartState<Running>)
        ensures
            r == (CartState { context: CartContext { velocity, ..self.context }, _state: Running }),
    {
        CartState { context: self.context.run(velocity), _state: Running }
    }
}

/// Where a moving cart stands after one tick: the horizontal component of
/// the velocity is integrated (saturating at the position bound); the cart
/// is vertically anchored, so `y` never changes — the world scrolls instead.
pub open spec fn cart_moved_context(c: CartContext) -> CartContext {
    CartContext {
        position: Point { x: clamped(c.position.x + c.velocity.x) as i64, y: c.position.y },
        ..c
    }
}

impl CartState<Running> {
    /// One tick of integration while running.
    pub fn update(self) -> (r: CartState<Running>)
        requires
            self.context.wf(),
        ensures
            r == (CartState { context: cart_moved_context(self.context), _state: Running }),
            r.context.wf(),
    {
        let mut next = self;
        next.context.position.x = clamp_add(next.context.position.x, next.context.velocity.x);
        next.update_context();
        next
    }

    /// Replace the velocity while staying in Running; the position is
    /// unchanged.
    pub fn run(self, velocity: Velocity) -> (r: CartState<Running>)
        ensures
            r == (CartState { context: CartContext { velocity, ..self.context }, _state: Running }),
    {
        CartState { context: self.context.run(velocity), _state: Running }
    }

    /// A collision knocks the cart; the context is frozen as it is.
    pub fn knocked(self) -> (r: CartState<Knocked>)
        ensures
            r == (CartState { context: self.context, _state: Knocked }),
    {
        CartState { context: self.context.knocked(), _state: Knocked }
    }
}

/// Events consumed by the cart state machine.
pub enum Event {
    /// Start or redirect movement with the given velocity.
    Run(Velocity),
    /// One tick of integration.
    Update,
    /// The cart was hit by a collision.
    Knocked,
}

/// The cart's typestate machine. Transitions are total: every pair of state
/// and event not listed below is the identity, never a failure.
#[derive(Clone, Copy, Debug)]
pub enum CartStateMachine {
    Idle(CartState<Idle>),
    Running(CartState<Running>),
    Knocked(CartState<Knocked>),
}

impl CartStateMachine {
    /// The context of whichever state is live.
    pub open spec fn context_spec(self) -> CartContext {
        match self {
            CartStateMachine::Idle(state) => state.context,
            CartStateMachine::Running(state) => state.context,
            CartStateMachine::Knocked(state) => state.context,
        }
    }

    pub open spec fn wf(self) -> bool {
        self.context_spec().wf()
    }

    /// Total transition function of the cart machine. `Run` only sets the
    /// velocity, `Update` only integrates, `Knocked` is reachable only from
    /// Running, and a knocked cart ignores every further event.
    pub open spec fn transition_spec(self, event: Event) -> CartStateMachine {
        match (self, event) {
            (CartStateMachine::Idle(state), Event::Update) => CartStateMachine::Idle(state),
            (CartStateMachine::Idle(state), Event::Run(velocity)) => CartStateMachine::Running(
                CartState { context: CartContext { velocity, ..state.context }, _state: Running },
            ),
            (CartStateMachine::Running(state), Event::Run(velocity)) => CartStateMachine::Running(
                CartState { context: CartContext { velocity, ..state.context }, _state: Running },
            ),
            (CartStateMachine::Running(state), Event::Update) => CartStateMachine::Running(
                CartState { context: cart_moved_context(state.context), _state: Running },
            ),
            (CartStateMachine::Running(state), Event::Knocked) => CartStateMachine::Knocked(
                CartState { context: state.context, _state: Knocked },
            ),
            (_, _) => self,
        }
    }

    /// Handle one event, per `transition_spec`.
    pub fn transition(self, event: Event) -> (r: Self)
        requires
            self.wf(),
            event matches Event::Run(velocity) ==> velocity.within(POS_LIMIT),
        ensures
            r == self.transition_spec(event),
            r.wf(),
    {
        match (self, event) {
            (CartStateMachine::Idle(state), Event::Update) => state.update().into_machine(),
            (CartStateMachine::Idle(state), Event::Run(velocity)) => {
                state.run(velocity).into_machine()
            },
            (CartStateMachine::Running(state), Event::Run(velocity)) => {
                state.run(velocity).into_machine()
            },
            (CartStateMachine::Running(state), Event::Update) => state.update().into_machine(),
            (CartStateMachine::Running(state), Event::Knocked) => state.knocked().into_machine(),
            (machine, _) => machine,
        }
    }

    pub fn context(&self) -> (r: &CartContext)
        ensures
            *r == self.context_spec(),
    {
        match self {
            CartStateMachine::Idle(state) => state.context(),
            CartStateMachine::Running(state) => state.context(),
            CartStateMachine::Knocked(state) => state.context(),
        }
    }

    /// Handle one `Update` event.
    pub fn update(self) -> (r: Self)
        requires
            self.wf(),
        ensures
            r == self.transition_spec(Event::Update),
            r.wf(),
    {
        self.transition(Event::Update)
    }
}

impl CartState<Idle> {
    fn into_machine(self) -> (r: CartStateMachine)
        ensures
            r == CartStateMachine::Idle(self),
    {
        CartStateMachine::Idle(self)
    }
}

impl CartState<Running> {
    fn into_machine(self) -> (r: CartStateMachine)
        ensures
            r == CartStateMachine::Running(self),
    {
        CartStateMachine::Running(self)
    }
}

impl CartState<Knocked> {
    fn into_machine(self) -> (r: CartStateMachine)
        ensures
            r == CartStateMachine::Knocked(self),
    {
        CartStateMachine::Knocked(self)
    }
}

/// Knocked is sticky: once the machine is Knocked, no further event changes
/// it — in particular neither the position nor the velocity ever moves again.
pub proof fn lemma_knocked_sticky(machine: CartStateMachine, event: Event)
    requires
        machine is Knocked,
    ensures
        machine.transition_spec(event) == machine,
{
}

/// The machine after consuming a whole sequence of events, in order.
pub open spec fn cart_after_events(machine: CartStateMachine, events: Seq<Event>) -> CartStateMachine
    decreases events.len(),
{
    if events.len() == 0 {
        machine
    } else {
        cart_after_events(machine, events.drop_last()).transition_spec(events.last())
    }
}

/// Knocked is sticky under any whole sequence of further events: the
/// machine, and with it the frozen context, never changes again.
pub proof fn lemma_knocked_sticky_for_event_sequences(
    machine: CartStateMachine,
    events: Seq<Event>,
)
    requires
        machine is Knocked,
    ensures
        cart_after_events(machine, events) == machine,
    decreases events.len(),
{
    if events.len() > 0 {
        lemma_knocked_sticky_for_event_sequences(machine, events.drop_last());
    }
}

/// An idle cart does not move: `Update` leaves the whole machine unchanged.
pub proof fn lemma_idle_update_unchanged(machine: CartStateMachine)
    requires
        machine is Idle,
    ensures
        machine.transition_spec(Event::Update) == machine,
{
}

/// A running cart's `Update` integrates exactly the horizontal velocity
/// component, as long as it does not saturate at the position bound: the
/// player body is vertically anchored, so its height above the track never
/// changes — the world scrolls under it instead.
pub proof fn lemma_running_update_moves_horizontally(machine: CartStateMachine)
    requires
        machine is Running,
        -POS_LIMIT <= machine.context_spec().position.x + machine.context_spec().velocity.x
            <= POS_LIMIT,
    ensures
        machine.transition_spec(Event::Update).context_spec().position.x
            == machine.context_spec().position.x + machine.context_spec().velocity.x,
        machine.transition_spec(Event::Update).context_spec().position.y
            == machine.context_spec().position.y,
        machine.transition_spec(Event::Update).context_spec().velocity
            == machine.context_spec().velocity,
{
}

/// Cart transitions are monotone toward Knocked: a started cart never
/// returns to Idle, and a knocked cart never recovers — only rebuilding
/// the world yields a fresh Idle cart.
pub proof fn lemma_cart_no_recovery(machine: CartStateMachine, event: Event)
    ensures
        machine !is Idle ==> machine.transition_spec(event) !is Idle,
        machine is Knocked ==> machine.transition_spec(event) is Knocked,
{
}

/// The body edges tested against a wall segment: the left and right sides
/// and the top; the bottom is intentionally excluded, since the body cannot
/// be hit from below.
pub open spec fn cart_left_edge(c: CartContext) -> Line {
    Line {
        p: c.position,
        q: Point { x: c.position.x, y: (c.position.y + c.height) as i64 },
    }
}

pub open spec fn cart_right_edge(c: CartContext) -> Line {
    Line {
        p: Point { x: (c.position.x + c.width) as i64, y: c.position.y },
        q: Point { x: (c.position.x + c.width) as i64, y: (c.position.y + c.height) as i64 },
    }
}

pub open spec fn cart_top_edge(c: CartContext) -> Line {
    Line {
        p: c.position,
        q: Point { x: (c.position.x + c.width) as i64, y: c.position.y },
    }
}

/// The cart hits a wall segment iff the segment properly crosses one of the
/// three tested body edges.
pub open spec fn cart_hits(c: CartContext, wall_line: Line) -> bool {
    ||| segments_cross(cart_left_edge(c), wall_line)
    ||| segments_cross(cart_right_edge(c), wall_line)
    ||| segments_cross(cart_top_edge(c), wall_line)
}

/// A cart entity: one typestate machine over one context.
#[derive(Clone, Copy, Debug)]
pub struct Cart {
    pub state_machine: CartStateMachine,
}

impl Cart {
    pub open spec fn context_spec(self) -> CartContext {
        self.state_machine.context_spec()
    }

    pub open spec fn wf(self) -> bool {
        self.state_machine.wf()
    }

    /// A new cart starts Idle at the given position.
    pub fn new(position: Point, velocity: Velocity, width: i64, height: i64) -> (r: Self)
        ensures
            r.state_machine == CartStateMachine::Idle(
                CartState {
                    context: CartContext { position, velocity, width, height },
                    _state: Idle,
                },
            ),
    {
        Cart { state_machine: CartStateMachine::Idle(CartState::new(position, velocity, width, height)) }
    }

    fn get_state_machine(&self) -> (r: CartStateMachine)
        ensures
            r == self.state_machine,
    {
        self.state_machine
    }

    fn set_state_machine(&mut self, state_machine: CartStateMachine)
        ensures
            final(self).state_machine == state_machine,
    {
        self.state_machine = state_machine;
    }

    /// One tick of integration.
    pub fn update(&mut self)
        requires
            old(self).wf(),
        ensures
            final(self).state_machine == old(self).state_machine.transition_spec(Event::Update),
            final(self).wf(),
    {
        let state_machine = self.get_state_machine();
        self.set_state_machine(state_machine.transition(Event::Update));
    }

    /// Start or redirect movement with the given velocity.
    pub fn run(&mut self, velocity: Velocity)
        requires
            old(self).wf(),
            velocity.within(POS_LIMIT),
        ensures
            final(self).state_machine == old(self).state_machine.transition_spec(
                Event::Run(velocity),
            ),
            final(self).wf(),
    {
        let from_state_machine = self.get_state_machine();
        let to_state_machine = from_state_machine.transition(Event::Run(velocity));
        self.set_state_machine(to_state_machine);
    }

    /// Mark the cart as hit by a collision.
    pub fn knocked(&mut self)
        requires
            old(self).wf(),
        ensures
            final(self).state_machine == old(self).state_machine.transition_spec(Event::Knocked),
            final(self).wf(),
    {
        let state_machine = self.get_state_machine();
        self.set_state_machine(state_machine.transition(Event::Knocked));
    }

    /// Whether the cart's body crosses the given wall segment, per
    /// `cart_hits`: the left, right and top edges are each tested with the
    /// Collision Detector, and the first positive test decides.
    pub fn intersect(&self, wall_line: Line) -> (r: bool)
        requires
            self.wf(),
            wall_line.within(SEG_LIMIT),
        ensures
            r == cart_hits(self.context_spec(), wall_line),
    {
        let c = *self.state_machine.context();
        let left = Line {
            p: c.position,
            q: Point { x: c.position.x, y: c.position.y + c.height },
        };
        let right = Line {
            p: Point { x: c.position.x + c.width, y: c.position.y },
            q: Point { x: c.position.x + c.width, y: c.position.y + c.height },
        };
        let top = Line {
            p: c.position,
            q: Point { x: c.position.x + c.width, y: c.position.y },
        };
        intersect(&left, &wall_line) || intersect(&right, &wall_line) || intersect(
            &top,
            &wall_line,
        )
    }

    pub fn get_position(&self) -> (r: Point)
        ensures
            r == self.context_spec().position,
    {
        self.state_machine.context().position
    }

    pub fn get_velocity(&self) -> (r: Velocity)
        ensures
            r == self.context_spec().velocity,
    {
        self.state_machine.context().velocity
    }
}

} // verus!
