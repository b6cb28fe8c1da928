//! Deterministic fixed-timestep simulation core for a single-lane scrolling
//! obstacle game: 2D value types and an exact segment-crossing predicate,
//! per-entity typestate machines for the moving bodies, a session-level stage
//! state machine owning the world, an input snapshot, and an accumulator-based
//! game-loop scheduler.

pub mod cart;
pub mod engine;
pub mod game;
pub mod ornament;
pub mod wall;
