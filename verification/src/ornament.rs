//! Trackside decoration: an ornament is a scrolling piece with no role in
//! collision; it only rides along with the world.

use vstd::prelude::*;

use crate::engine::Line;
use crate::engine::Point;
use crate::engine::Velocity;
use crate::game::Event;
use crate::game::Piece;
use crate::game::State;
use crate::game::StateMachine;

verus! {

/// One decoration, as a scrolling piece.
#[derive(Clone, Copy, Debug)]
pub struct Ornament {
    pub state_machine: StateMachine,
}

impl Piece for Ornament {
    open spec fn sm(&self) -> StateMachine {
        self.state_machine
    }

    fn new(p: Point, q: Point, velocity: Velocity) -> (r: Self) {
        Ornament { state_machine: StateMachine::Running(State::new(p, q, velocity)) }
    }

    fn get_state_machine(&self) -> (r: StateMachine) {
        self.state_machine
    }

    fn set_state_machine(&mut self, state_machine: StateMachine) {
        self.state_machine = state_machine;
    }

    fn update(&mut self) {
        let state_machine = self.get_state_machine();
        self.set_state_machine(state_machine.transition(Event::Update));
    }

    fn run(&mut self, velocity: Velocity) {
        let from_state_machine = self.get_state_machine();
        let to_state_machine = from_state_machine.transition(Event::Run(velocity));
        self.set_state_machine(to_state_machine);
    }

    fn get_line(&self) -> (r: Line) {
        Line::new(
            Point::new(self.state_machine.context().p.x, self.state_machine.context().p.y),
            Point::new(self.state_machine.context().q.x, self.state_machine.context().q.y),
        )
    }

    fn p(&self) -> (r: Point) {
        self.state_machine.context().p
    }

    fn q(&self) -> (r: Point) {
        self.state_machine.context().q
    }
}

} // verus!
