//! A verified model of the classic snake game: grid geometry, the snake's
//! body with its movement and growth rules, collision detection, the
//! direction-change (reversal) guard, and random apple placement.
//!
//! Rendering and input polling are left to an unverified front end; the
//! model exposes pure state transitions with full functional contracts.

pub mod game;
pub mod geometry;
pub mod rng;
pub mod snake;
