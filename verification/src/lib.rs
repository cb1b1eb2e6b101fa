//! Core logic of a small 2D "dodge" arcade game, verified with Verus.
//!
//! The player sprite dodges enemies that drift across the screen and
//! accelerate gently; colliding with an enemy halves the score, and the game
//! restarts once the score falls below one point.  All world quantities
//! (positions, velocities, scores) are fixed-point integers counted in
//! thousandths of a world unit, so that the simulation arithmetic can be
//! specified and proved exactly.

pub mod camera;
pub mod character;
pub mod collision;
pub mod enemy;
pub mod fixed;
pub mod player;
pub mod score_label;
pub mod world;

use vstd::prelude::*;

verus! {

/// Fixed-point scale: one world unit is `SCALE` fixed-point steps.
pub const SCALE: i64 = 1000;

/// Global phase of the game, driving which simulation steps are active.
#[derive(Debug, Clone, Copy, PartialEq, Eq, Hash, Structural)]
pub enum AppState {
    Load,
    Setup,
    Game,
    Restart,
}

/// Domain signal: the player's box overlapped a fresh enemy this tick.
pub struct CollisionEvent;

/// Domain signal: the score fell below one point after a collision.
pub struct GameOverEvent;

/// Domain signal: the player asked for a new round from the restart panel.
pub struct RestartEvent;

} // verus!
