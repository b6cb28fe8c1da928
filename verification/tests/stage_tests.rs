//! Tests for the session-level stage state machine.

use cartgame::cart::Cart;
use cartgame::cart::CartContext;
use cartgame::cart::CartState;
use cartgame::cart::CartStateMachine;
use cartgame::cart::Running;
use cartgame::cart::CART_HEIGHT;
use cartgame::cart::CART_WIDTH;
use cartgame::engine::Key;
use cartgame::engine::KeyState;
use cartgame::engine::Point;
use cartgame::game::GameStage;
use cartgame::game::GameStageState;
use cartgame::game::GameStageStateMachine;
use cartgame::game::Material;
use cartgame::game::Playing;
use cartgame::game::StageError;
use cartgame::game::CART_START_X;
use cartgame::game::CART_START_Y;
use cartgame::game::ORNAMENT_HEIGHT;
use cartgame::game::ORNAMENT_WIDTH;
use cartgame::game::ORNAMENT_X;
use cartgame::game::ORNAMENT_Y;
use cartgame::game::STAGE_GOAL;
use cartgame::game::STAGE_LEFT;
use cartgame::game::VELOCITY_BRAKE_STEP;
use cartgame::game::VELOCITY_LIMIT;
use cartgame::game::VELOCITY_STEP;
use cartgame::game::VELOCITY_X;
use cartgame::game::VELOCITY_ZERO;

fn running_cart(x: i64, y: i64, vx: i64, vy: i64) -> Cart {
    Cart {
        state_machine: CartStateMachine::Running(CartState {
            context: CartContext {
                position: Point::new(x, y),
                velocity: Point::new(vx, vy),
                width: CART_WIDTH,
                height: CART_HEIGHT,
            },
            _state: Running,
        }),
    }
}

fn playing_over(material: Material) -> GameStageStateMachine {
    GameStageStateMachine::Playing(GameStageState { _state: Playing, material })
}

#[test]
fn test_constants() {
    assert_eq!(STAGE_LEFT, 100);
    assert_eq!(STAGE_GOAL, 2300);
    assert_eq!(CART_START_X, 220);
    assert_eq!(CART_START_Y, 70);
    assert_eq!(VELOCITY_X, 1);
    assert_eq!(VELOCITY_STEP, 1);
    assert_eq!(VELOCITY_BRAKE_STEP, 2);
    assert_eq!(VELOCITY_LIMIT, 5);
    assert_eq!(VELOCITY_ZERO, 0);
    assert_eq!(ORNAMENT_X, 120);
    assert_eq!(ORNAMENT_Y, 50);
    assert_eq!(ORNAMENT_WIDTH, 10);
    assert_eq!(ORNAMENT_HEIGHT, 10);
}

#[test]
fn test_gamestage_creation() {
    let game_stage = GameStage::new();
    assert!(game_stage.machine.is_none());
}

#[test]
fn test_initialize_builds_ready_world() {
    let mut stage = GameStage::new();
    assert!(stage.initialize().is_ok());
    let machine = stage.machine.as_ref().unwrap();
    assert!(machine.is_ready());
    let material = machine.material();
    assert_eq!(material.frame, 0);
    assert_eq!(material.distance, 0);
    assert_eq!(material.highscore, 0);
    assert_eq!(material.walls.len(), 26);
    assert_eq!(material.ornaments.len(), 1);
    assert_eq!(material.cart.get_position().x, CART_START_X);
    assert_eq!(material.cart.get_position().y, CART_START_Y);
}

#[test]
fn test_initialize_twice_reports_error() {
    let mut stage = GameStage::new();
    assert!(stage.initialize().is_ok());
    assert_eq!(stage.initialize(), Err(StageError::AlreadyInitialized));
    assert!(stage.machine.is_some());
}

#[test]
fn test_update_before_initialize_is_noop() {
    let mut stage = GameStage::new();
    let mut keystate = KeyState::new();
    keystate.set_pressed(Key::Space);
    let brake = stage.update(&keystate);
    assert!(!brake);
    assert!(stage.machine.is_none());
}

#[test]
fn test_ready_confirm_starts_playing_then_stays_playing() {
    let mut stage = GameStage::new();
    assert!(stage.initialize().is_ok());
    let mut keystate = KeyState::new();
    keystate.set_pressed(Key::Space);
    stage.update(&keystate);
    assert!(stage.machine.as_ref().unwrap().is_playing());
    // The key is still held on later ticks: the stage stays Playing.
    stage.update(&keystate);
    assert!(stage.machine.as_ref().unwrap().is_playing());
    stage.update(&keystate);
    assert!(stage.machine.as_ref().unwrap().is_playing());
}

#[test]
fn test_ready_without_confirm_stays_ready() {
    let mut stage = GameStage::new();
    assert!(stage.initialize().is_ok());
    let keystate = KeyState::new();
    stage.update(&keystate);
    assert!(stage.machine.as_ref().unwrap().is_ready());
}

#[test]
fn test_goal_reached_sets_best_time_when_unset() {
    let mut material = Material::new(0);
    material.frame = 41;
    material.distance = STAGE_GOAL;
    material.cart = running_cart(CART_START_X, CART_START_Y, 0, 1);
    let machine = playing_over(material);
    let keystate = KeyState::new();
    let (next, brake) = machine.update(&keystate);
    assert!(!brake);
    assert!(next.is_game_clear());
    let world = next.material();
    assert_eq!(world.distance, 2301);
    assert_eq!(world.frame, 42);
    assert_eq!(world.highscore, 42);
}

#[test]
fn test_goal_reached_keeps_smaller_best_time() {
    let mut material = Material::new(10);
    material.frame = 41;
    material.distance = STAGE_GOAL;
    material.cart = running_cart(CART_START_X, CART_START_Y, 0, 1);
    let machine = playing_over(material);
    let keystate = KeyState::new();
    let (next, _brake) = machine.update(&keystate);
    assert!(next.is_game_clear());
    assert_eq!(next.material().highscore, 10);
}

#[test]
fn test_game_over_confirm_resets_world_preserving_best_time() {
    let mut material = Material::new(0);
    material.frame = 77;
    material.distance = 500;
    material.highscore = 42;
    let machine =
        GameStageStateMachine::GameOver(GameStageState { _state: cartgame::game::GameOver, material });
    let mut keystate = KeyState::new();
    keystate.set_pressed(Key::Space);
    let (next, brake) = machine.update(&keystate);
    assert!(!brake);
    assert!(next.is_ready());
    let world = next.material();
    assert_eq!(world.highscore, 42);
    assert_eq!(world.frame, 0);
    assert_eq!(world.distance, 0);
    assert_eq!(world.walls.len(), 26);
}

#[test]
fn test_game_clear_confirm_resets_world_preserving_best_time() {
    let mut material = Material::new(0);
    material.frame = 50;
    material.distance = 2400;
    material.highscore = 50;
    let machine = GameStageStateMachine::GameClear(GameStageState {
        _state: cartgame::game::GameClear,
        material,
    });
    let mut keystate = KeyState::new();
    keystate.set_pressed(Key::Space);
    let (next, _brake) = machine.update(&keystate);
    assert!(next.is_ready());
    assert_eq!(next.material().highscore, 50);
    assert_eq!(next.material().frame, 0);
    assert_eq!(next.material().distance, 0);
}

#[test]
fn test_collision_knocks_cart_and_ends_game() {
    let mut material = Material::new(0);
    // Body at (20, 70): its top edge crosses the first wall, x = 30 from
    // y = 0 to 600, which is in range at distance 0.
    material.cart = Cart::new(Point::new(20, 70), Point::new(0, 0), CART_WIDTH, CART_HEIGHT);
    let machine = playing_over(material);
    let keystate = KeyState::new();
    let (next, _brake) = machine.update(&keystate);
    assert!(next.is_game_over());
    assert!(matches!(next.material().cart.state_machine, CartStateMachine::Knocked(_)));
}

#[test]
fn test_walls_ahead_are_skipped() {
    let mut material = Material::new(0);
    // The same crossing geometry, but against a wall whose whole span is
    // still ahead of the traveled distance: x = 30, y from 2400 to 5500.
    material.cart = Cart::new(Point::new(20, 2500), Point::new(0, 0), CART_WIDTH, CART_HEIGHT);
    let machine = playing_over(material);
    let keystate = KeyState::new();
    let (next, _brake) = machine.update(&keystate);
    assert!(next.is_playing());
}

#[test]
fn test_accelerate_increases_velocity_to_limit() {
    let mut stage = GameStage::new();
    assert!(stage.initialize().is_ok());
    let mut keystate = KeyState::new();
    keystate.set_pressed(Key::Space);
    stage.update(&keystate);
    assert!(stage.machine.as_ref().unwrap().is_playing());
    keystate.set_released(Key::Space);
    keystate.set_pressed(Key::ArrowUp);
    for tick in 0..5 {
        stage.update(&keystate);
        let vy = stage.machine.as_ref().unwrap().material().cart.get_velocity().y;
        assert_eq!(vy, tick + 1);
    }
    // At the limit the accelerate input no longer applies.
    stage.update(&keystate);
    let vy = stage.machine.as_ref().unwrap().material().cart.get_velocity().y;
    assert_eq!(vy, VELOCITY_LIMIT);
}

#[test]
fn test_brake_clamps_velocity_at_zero_and_requests_sound() {
    let mut material = Material::new(0);
    material.cart = running_cart(CART_START_X, CART_START_Y, 0, 1);
    let machine = playing_over(material);
    let mut keystate = KeyState::new();
    keystate.set_pressed(Key::Space);
    let (next, brake) = machine.update(&keystate);
    assert!(brake);
    assert!(next.is_playing());
    // Braking from 1 by the brake step of 2 clamps at the zero floor.
    assert_eq!(next.material().cart.get_velocity().y, 0);
}

#[test]
fn test_steering_sets_horizontal_velocity() {
    let mut material = Material::new(0);
    material.cart = running_cart(CART_START_X, CART_START_Y, 0, 0);
    let mut keystate = KeyState::new();
    keystate.set_pressed(Key::ArrowLeft);
    let (next, _brake) = playing_over(material).update(&keystate);
    assert_eq!(next.material().cart.get_velocity().x, -VELOCITY_X);
    assert_eq!(next.material().cart.get_position().x, CART_START_X - VELOCITY_X);

    let mut material = Material::new(0);
    material.cart = running_cart(CART_START_X, CART_START_Y, -1, 0);
    let mut keystate = KeyState::new();
    keystate.set_pressed(Key::ArrowRight);
    let (next, _brake) = playing_over(material).update(&keystate);
    assert_eq!(next.material().cart.get_velocity().x, VELOCITY_X);

    let mut material = Material::new(0);
    material.cart = running_cart(CART_START_X, CART_START_Y, 1, 0);
    let mut keystate = KeyState::new();
    keystate.set_pressed(Key::ArrowDown);
    let (next, _brake) = playing_over(material).update(&keystate);
    assert_eq!(next.material().cart.get_velocity().x, 0);
}

#[test]
fn test_distance_accumulates_previous_vertical_velocity() {
    let mut material = Material::new(0);
    material.distance = 7;
    material.cart = running_cart(CART_START_X, CART_START_Y, 0, 3);
    let keystate = KeyState::new();
    let (next, _brake) = playing_over(material).update(&keystate);
    assert!(next.is_playing());
    assert_eq!(next.material().distance, 10);
    assert_eq!(next.material().frame, 1);
    // The world scrolled down by the cart's vertical velocity.
    assert_eq!(next.material().walls[0].state_machine.context().p.y, -3);
    assert_eq!(next.material().ornaments[0].state_machine.context().p.y, ORNAMENT_Y - 3);
}
