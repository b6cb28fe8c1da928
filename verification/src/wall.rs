//! Track geometry: each wall is a scrolling piece whose segment content is
//! fixed level data; only its live position is translated per tick.

use vstd::prelude::*;

use crate::engine::Line;
use crate::engine::Point;
use crate::engine::Velocity;
use crate::game::Context;
use crate::game::Event;
use crate::game::Piece;
use crate::game::Running;
use crate::game::State;
use crate::game::StateMachine;

verus! {

/// One wall edge of the level, as a scrolling piece.
#[derive(Clone, Copy, Debug)]
pub struct Wall {
    pub state_machine: StateMachine,
}

impl Piece for Wall {
    open spec fn sm(&self) -> StateMachine {
        self.state_machine
    }

    fn new(p: Point, q: Point, velocity: Velocity) -> (r: Self) {
        Wall { state_machine: StateMachine::Running(State::new(p, q, velocity)) }
    }

    fn get_state_machine(&self) -> (r: StateMachine) {
        self.state_machine
    }

    fn set_state_machine(&mut self, state_machine: StateMachine) {
        self.state_machine = state_machine;
    }

    fn update(&mut self) {
        let state_machine = self.get_state_machine();
        self.set_state_machine(state_machine.transition(Event::Update));
    }

    fn run(&mut self, velocity: Velocity) {
        let from_state_machine = self.get_state_machine();
        let to_state_machine = from_state_machine.transition(Event::Run(velocity));
        self.set_state_machine(to_state_machine);
    }

    fn get_line(&self) -> (r: Line) {
        Line::new(
            Point::new(self.state_machine.context().p.x, self.state_machine.context().p.y),
            Point::new(self.state_machine.context().q.x, self.state_machine.context().q.y),
        )
    }

    fn p(&self) -> (r: Point) {
        self.state_machine.context().p
    }

    fn q(&self) -> (r: Point) {
        self.state_machine.context().q
    }
}

/// A wall piece resting at the given segment, not yet scrolling.
pub open spec fn wall_at(x1: i64, y1: i64, x2: i64, y2: i64) -> Wall {
    Wall {
        state_machine: StateMachine::Running(
            State {
                context: Context {
                    p: Point { x: x1, y: y1 },
                    q: Point { x: x2, y: y2 },
                    velocity: Point { x: 0, y: 0 },
                },
                _state: Running,
            },
        ),
    }
}

/// The fixed, ordered wall layout of the shipped level.
pub open spec fn level_walls() -> Seq<Wall> {
    seq![
        wall_at(30, 0, 30, 600),
        wall_at(30, 600, 140, 1000),
        wall_at(140, 1000, 30, 1600),
        wall_at(30, 1600, 200, 2000),
        wall_at(200, 2000, 200, 2400),
        wall_at(200, 2400, 30, 2400),
        wall_at(30, 2400, 30, 5500),
        wall_at(100, 4000, 300, 3400),
        wall_at(100, 4000, 250, 4300),
        wall_at(120, 2700, 120, 3000),
        wall_at(120, 2700, 190, 2700),
        wall_at(120, 3000, 190, 3000),
        wall_at(190, 2700, 190, 3000),
        wall_at(280, 2700, 280, 3000),
        wall_at(280, 2700, 350, 2700),
        wall_at(280, 3000, 350, 3000),
        wall_at(350, 2700, 350, 3000),
        wall_at(430, 0, 430, 600),
        wall_at(430, 600, 320, 1000),
        wall_at(320, 1000, 160, 1600),
        wall_at(160, 1600, 330, 2000),
        wall_at(330, 2000, 330, 2400),
        wall_at(330, 2400, 430, 2400),
        wall_at(430, 2400, 430, 5500),
        wall_at(300, 3400, 360, 4000),
        wall_at(250, 4300, 360, 4000),
    ]
}

fn push_wall(walls: &mut Vec<Wall>, x1: i64, y1: i64, x2: i64, y2: i64)
    ensures
        final(walls)@ == old(walls)@.push(wall_at(x1, y1, x2, y2)),
{
    walls.push(
        Wall {
            state_machine: StateMachine::Running(
                State::new(Point::new(x1, y1), Point::new(x2, y2), Point::new(0, 0)),
            ),
        },
    );
}

/// Build the level's wall list, in its fixed order.
pub fn build_level_walls() -> (r: Vec<Wall>)
    ensures
        r@ == level_walls(),
{
    let mut walls: Vec<Wall> = Vec::new();
    push_wall(&mut walls, 30, 0, 30, 600);
    push_wall(&mut walls, 30, 600, 140, 1000);
    push_wall(&mut walls, 140, 1000, 30, 1600);
    push_wall(&mut walls, 30, 1600, 200, 2000);
    push_wall(&mut walls, 200, 2000, 200, 2400);
    push_wall(&mut walls, 200, 2400, 30, 2400);
    push_wall(&mut walls, 30, 2400, 30, 5500);
    push_wall(&mut walls, 100, 4000, 300, 3400);
    push_wall(&mut walls, 100, 4000, 250, 4300);
    push_wall(&mut walls, 120, 2700, 120, 3000);
    push_wall(&mut walls, 120, 2700, 190, 2700);
    push_wall(&mut walls, 120, 3000, 190, 3000);
    push_wall(&mut walls, 190, 2700, 190, 3000);
    push_wall(&mut walls, 280, 2700, 280, 3000);
    push_wall(&mut walls, 280, 2700, 350, 2700);
    push_wall(&mut walls, 280, 3000, 350, 3000);
    push_wall(&mut walls, 350, 2700, 350, 3000);
    push_wall(&mut walls, 430, 0, 430, 600);
    push_wall(&mut walls, 430, 600, 320, 1000);
    push_wall(&mut walls, 320, 1000, 160, 1600);
    push_wall(&mut walls, 160, 1600, 330, 2000);
    push_wall(&mut walls, 330, 2000, 330, 2400);
    push_wall(&mut walls, 330, 2400, 430, 2400);
    push_wall(&mut walls, 430, 2400, 430, 5500);
    push_wall(&mut walls, 300, 3400, 360, 4000);
    push_wall(&mut walls, 250, 4300, 360, 4000);
    proof {
        assert(walls@ =~= level_walls());
    }
    walls
}

} // verus!
