//! Core logic of a third-person action-game character controller.
//!
//! The library models the simulation in fixed-point arithmetic: every scalar
//! is an `i64` holding a real quantity scaled by [`fixed::SCALE`]. The game
//! engine around it (entity storage, rendering, raw devices, the rigid-body
//! solver and its shape casts) is the unverified outside world; each tick it
//! hands the functions here plain values (input snapshots, shape-cast hits,
//! the current velocity) and writes back the velocities, timers and camera
//! parameters they return.

pub mod camera;
pub mod components;
pub mod fixed;
pub mod game_states;
pub mod input;
pub mod physics;
pub mod player;
pub mod states;
pub mod tilt;
pub mod vecs;
