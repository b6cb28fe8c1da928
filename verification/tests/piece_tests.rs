//! Tests for the generic piece state machine and its context.

use cartgame::engine::Point;
use cartgame::game::Context;
use cartgame::game::Event;
use cartgame::game::Piece;
use cartgame::game::Running;
use cartgame::game::State;
use cartgame::game::StateMachine;
use cartgame::wall::build_level_walls;
use cartgame::wall::Wall;

#[test]
fn test_context_creation() {
    let p = Point::new(10, 20);
    let q = Point::new(30, 40);
    let velocity = Point::new(1, 2);

    let context = Context { p, q, velocity };

    assert_eq!(context.p.x, 10);
    assert_eq!(context.p.y, 20);
    assert_eq!(context.q.x, 30);
    assert_eq!(context.q.y, 40);
    assert_eq!(context.velocity.x, 1);
    assert_eq!(context.velocity.y, 2);
}

#[test]
fn test_context_run() {
    let mut context = Context {
        p: Point::new(0, 0),
        q: Point::new(0, 0),
        velocity: Point::new(0, 0),
    };

    let new_velocity = Point::new(5, 3);
    context = context.run(new_velocity);

    assert_eq!(context.velocity.x, 5);
    assert_eq!(context.velocity.y, 3);
}

#[test]
fn test_state_running_creation() {
    let p = Point::new(100, 200);
    let q = Point::new(150, 250);
    let velocity = Point::new(2, 3);

    let state = State::<Running>::new(p, q, velocity);

    assert_eq!(state.context.p.x, 100);
    assert_eq!(state.context.p.y, 200);
    assert_eq!(state.context.q.x, 150);
    assert_eq!(state.context.q.y, 250);
    assert_eq!(state.context.velocity.x, 2);
    assert_eq!(state.context.velocity.y, 3);
}

#[test]
fn test_state_running_update() {
    let p = Point::new(100, 200);
    let q = Point::new(150, 250);
    let velocity = Point::new(2, 3);

    let state = State::<Running>::new(p, q, velocity);
    let updated_state = state.update();

    assert_eq!(updated_state.context.p.x, 102);
    assert_eq!(updated_state.context.p.y, 203);
    assert_eq!(updated_state.context.q.x, 152);
    assert_eq!(updated_state.context.q.y, 253);
}

#[test]
fn test_state_running_run() {
    let p = Point::new(100, 200);
    let q = Point::new(150, 250);
    let velocity = Point::new(2, 3);

    let state = State::<Running>::new(p, q, velocity);
    let new_velocity = Point::new(5, 7);
    let updated_state = state.run(new_velocity);

    assert_eq!(updated_state.context.velocity.x, 5);
    assert_eq!(updated_state.context.velocity.y, 7);
}

#[test]
fn test_state_machine_context() {
    let p = Point::new(10, 20);
    let q = Point::new(30, 40);
    let velocity = Point::new(1, 2);

    let state = State::<Running>::new(p, q, velocity);
    let machine = StateMachine::Running(state);

    let context = machine.context();
    assert_eq!(context.p.x, 10);
    assert_eq!(context.p.y, 20);
}

#[test]
fn test_state_machine_transition_run() {
    let p = Point::new(10, 20);
    let q = Point::new(30, 40);
    let velocity = Point::new(1, 2);

    let state = State::<Running>::new(p, q, velocity);
    let machine = StateMachine::Running(state);

    let new_velocity = Point::new(5, 7);
    let updated_machine = machine.transition(Event::Run(new_velocity));

    assert_eq!(updated_machine.context().velocity.x, 5);
    assert_eq!(updated_machine.context().velocity.y, 7);
}

#[test]
fn test_state_machine_transition_update() {
    let p = Point::new(100, 200);
    let q = Point::new(150, 250);
    let velocity = Point::new(2, 3);

    let state = State::<Running>::new(p, q, velocity);
    let machine = StateMachine::Running(state);

    let updated_machine = machine.transition(Event::Update);

    assert_eq!(updated_machine.context().p.x, 102);
    assert_eq!(updated_machine.context().p.y, 203);
    assert_eq!(updated_machine.context().q.x, 152);
    assert_eq!(updated_machine.context().q.y, 253);
}

#[test]
fn test_ready_state_creation() {
    let p = Point::new(100, 100);
    let q = Point::new(200, 200);
    let velocity = Point::new(0, 0);

    let state_machine = StateMachine::Running(State::<Running>::new(p, q, velocity));

    assert_eq!(state_machine.context().p.x, 100);
    assert_eq!(state_machine.context().p.y, 100);
}

#[test]
fn test_piece_trait_functions() {
    let p = Point::new(10, 20);
    let q = Point::new(30, 40);
    let velocity = Point::new(1, 2);

    let state = State::<Running>::new(p, q, velocity);
    let machine = StateMachine::Running(state);

    assert_eq!(machine.context().p.x, 10);
    assert_eq!(machine.context().p.y, 20);
    assert_eq!(machine.context().q.x, 30);
    assert_eq!(machine.context().q.y, 40);
}

#[test]
fn test_piece_run_then_update_moves_wall_by_velocity() {
    let mut wall = <Wall as Piece>::new(Point::new(0, 0), Point::new(10, 10), Point::new(0, 0));
    wall.run(Point::new(2, 3));
    // Run alone only sets the velocity.
    assert_eq!(wall.p().x, 0);
    assert_eq!(wall.p().y, 0);
    wall.update();
    assert_eq!(wall.p().x, 2);
    assert_eq!(wall.p().y, 3);
    assert_eq!(wall.q().x, 12);
    assert_eq!(wall.q().y, 13);
    let line = wall.get_line();
    assert_eq!(line.p.x, 2);
    assert_eq!(line.q.y, 13);
}

#[test]
fn test_level_wall_layout() {
    let walls = build_level_walls();
    assert_eq!(walls.len(), 26);
    let first = &walls[0];
    assert_eq!(first.state_machine.context().p.x, 30);
    assert_eq!(first.state_machine.context().p.y, 0);
    assert_eq!(first.state_machine.context().q.x, 30);
    assert_eq!(first.state_machine.context().q.y, 600);
    let last = &walls[25];
    assert_eq!(last.state_machine.context().p.x, 250);
    assert_eq!(last.state_machine.context().p.y, 4300);
    assert_eq!(last.state_machine.context().q.x, 360);
    assert_eq!(last.state_machine.context().q.y, 4000);
}
