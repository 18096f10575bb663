//! Core simulation of a 2D side-view combat game.
//!
//! The library models the runtime logic that drives every animated actor:
//! the per-actor lifecycle state machine, the event bus that consolidates
//! state-change requests posted by independent per-tick passes, the staged
//! (windup-then-strike) enemy attack machine, and the combat resolver that
//! turns spatial proximity into damage, wounds, death and score.
//!
//! All quantities are plain integers: horizontal and vertical positions are
//! held in millipixels, velocities in pixels per second, and time deltas in
//! milliseconds, so every update is exact integer arithmetic.  Rendering,
//! asset decoding and device polling are external collaborators: sprite
//! sheets and fonts appear here only as opaque numeric handles, and input
//! devices as already-decoded button/axis records.

use vstd::prelude::*;

pub mod ape;
pub mod common;
pub mod eth;
pub mod inputs;
pub mod player;

verus! {

/// Width of the playfield, in millipixels.
pub const GLOBAL_WIDTH: i64 = 1_200_000;

/// Height of the playfield, in millipixels.
pub const GLOBAL_HEIGHT: i64 = 600_000;

/// Vertical half-extent of the camera projection, in millipixels.
pub const PROJECTION_SCALE: i64 = 300_000;

/// Vertical position of the ground, in millipixels.
pub const FLOOR_Y: i64 = -170_000;

/// Horizontal clamp for walking actors, in millipixels.
pub const WALL_X: i64 = 540_000;

/// Upper clamp for airborne actors, in millipixels.
pub const CEILING_Y: i64 = 400_000;

/// Largest tick delta the physics passes accept, in milliseconds.
pub const MAX_TICK_MS: u32 = 10_000;

/// Upward velocity set on entering `Jump`, in pixels per second.
pub const JUMP_VELOCITY: i64 = 500;

/// Largest downward speed an actor can reach, in pixels per second.
pub const MAX_FALL_VELOCITY: i64 = 600_000;

/// Walking speed, in pixels per second.
pub const WALK_VELOCITY: i64 = 150;

/// Dashing speed, in pixels per second.
pub const DASH_VELOCITY: i64 = 600;

/// Enemy patrol speed, in pixels per second.
pub const APE_VELOCITY: i64 = 60;

} // verus!
