//! Simulation core of a side-scrolling flapping-bird game: an entity store,
//! the scroll and gravity systems, a per-tick scheduler and the game-flow
//! state machine (splash, ready, play, paused).
//!
//! All quantities are integers in fixed units, so that every step of the
//! simulation is exact:
//! - lengths and positions are in micro-units (one world unit is 1_000_000);
//! - speeds are in milli-units per second;
//! - time steps are in whole milliseconds.
//!
//! With these units a speed times a time step is a length, and the gravity of
//! 1500 units per second squared is exactly 1500 speed units per millisecond.

pub mod components;
pub mod world;
pub mod systems;
pub mod scheduler;
pub mod sprites;
pub mod scenes;
pub mod state;
pub mod game;
pub mod input;
