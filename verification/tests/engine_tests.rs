//! Tests for the engine services: points, the input snapshot, and the
//! fixed-timestep scheduler.

use cartgame::engine::GameLoop;
use cartgame::engine::Key;
use cartgame::engine::KeyPress;
use cartgame::engine::KeyState;
use cartgame::engine::Point;
use cartgame::engine::process_input;
use cartgame::engine::TICK_MICROS;
use cartgame::game::GameStage;

#[test]
fn test_point_add() {
    let p = Point::new(1, 2);
    let r = p.add(Point::new(3, 4));
    assert_eq!(r.x, 4);
    assert_eq!(r.y, 6);
}

#[test]
fn test_keystate_press_and_release() {
    let mut keystate = KeyState::new();
    assert!(!keystate.is_pressed(Key::Space));
    keystate.set_pressed(Key::Space);
    keystate.set_pressed(Key::ArrowLeft);
    assert!(keystate.is_pressed(Key::Space));
    assert!(keystate.is_pressed(Key::ArrowLeft));
    assert!(!keystate.is_pressed(Key::ArrowRight));
    keystate.set_released(Key::Space);
    assert!(!keystate.is_pressed(Key::Space));
    assert!(keystate.is_pressed(Key::ArrowLeft));
}

#[test]
fn test_process_input_applies_events_in_arrival_order() {
    let mut keystate = KeyState::new();
    let events = vec![
        KeyPress::KeyDown(Key::Space),
        KeyPress::KeyDown(Key::ArrowUp),
        KeyPress::KeyUp(Key::Space),
    ];
    process_input(&mut keystate, &events);
    assert!(!keystate.is_pressed(Key::Space));
    assert!(keystate.is_pressed(Key::ArrowUp));
    assert!(!keystate.is_pressed(Key::ArrowDown));
}

#[test]
fn test_scheduler_runs_two_catch_up_ticks_in_one_callback() {
    let mut game_loop = GameLoop::new(1000);
    let mut stage = GameStage::new();
    assert!(stage.initialize().is_ok());
    let keystate = KeyState::new();
    let (ticks, brake) = game_loop.run_frame(&mut stage, &keystate, 1000 + 2 * TICK_MICROS);
    assert_eq!(ticks, 2);
    assert!(!brake);
    assert!(game_loop.accumulated_delta < TICK_MICROS);
    assert_eq!(game_loop.last_frame, 1000 + 2 * TICK_MICROS);
}

#[test]
fn test_scheduler_carries_partial_ticks_in_the_accumulator() {
    let mut game_loop = GameLoop::new(0);
    let mut stage = GameStage::new();
    assert!(stage.initialize().is_ok());
    let keystate = KeyState::new();
    let half = TICK_MICROS / 2;
    let (ticks, _brake) = game_loop.run_frame(&mut stage, &keystate, half);
    assert_eq!(ticks, 0);
    assert_eq!(game_loop.accumulated_delta, half);
    // The leftover joins the next frame's elapsed time.
    let (ticks, _brake) = game_loop.run_frame(&mut stage, &keystate, half + TICK_MICROS);
    assert_eq!(ticks, 1);
    assert_eq!(game_loop.accumulated_delta, half);
}

#[test]
fn test_scheduler_ticks_advance_the_stage() {
    let mut game_loop = GameLoop::new(0);
    let mut stage = GameStage::new();
    assert!(stage.initialize().is_ok());
    let mut keystate = KeyState::new();
    keystate.set_pressed(Key::Space);
    // One tick: Ready plus the held confirm key enters Playing.
    let (ticks, brake) = game_loop.run_frame(&mut stage, &keystate, TICK_MICROS);
    assert_eq!(ticks, 1);
    assert!(!brake);
    assert!(stage.machine.as_ref().unwrap().is_playing());
    // The next tick is a playing tick with the brake key held.
    let (ticks, brake) = game_loop.run_frame(&mut stage, &keystate, 2 * TICK_MICROS);
    assert_eq!(ticks, 1);
    assert!(brake);
}
