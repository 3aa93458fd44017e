//! Core logic of a 2D asteroids arcade game: motion and wraparound on a
//! toroidal playfield, circle-circle collision detection, asteroid splitting,
//! scoring with a persisted high score, and the phase state machine that
//! sequences a run (Starting, GetReady, Playing, GameOver, Boss).
//!
//! All quantities are fixed-point integers:
//! - lengths (positions, radii) in tenths of a world unit,
//! - asteroid scale in ten-thousandths (`SCALE_ONE` is a scale of one),
//! - angles in milliradians,
//! - velocities in tenths of a world unit per second,
//! - time in milliseconds.
//!
//! Rendering, audio, keyboard polling and the high-score file live outside
//! this crate; they exchange plain integers and booleans with it.

use vstd::prelude::*;

pub mod components;
pub mod events;
pub mod resources;
pub mod states;
pub mod storage;
pub mod asteroid_systems;
pub mod bullet_systems;
pub mod collision;
pub mod explosion;
pub mod game;
pub mod rng;
pub mod shared_systems;
pub mod ship_systems;
pub mod ufo_systems;

verus! {

/// Width of the playfield, in tenths of a unit (1920 units).
pub const WORLD_WIDTH: i64 = 19200;

/// Height of the playfield, in tenths of a unit (1080 units).
pub const WORLD_HEIGHT: i64 = 10800;

/// Loose bound on any coordinate the world ever holds; wraparound keeps
/// live entities far inside it.
pub const POS_BOUND: i64 = 2_000_000;

/// Bound on each velocity component, in tenths of a unit per second.
pub const VEL_LIMIT: i64 = 100_000;

/// Longest tick the integrator accepts, in milliseconds.
pub const DT_LIMIT: u32 = 1000;

/// Bound on any timer duration, in milliseconds.
pub const DURATION_BOUND: u32 = 1_000_000;

/// Fixed-point representation of an asteroid scale of 1.0.
pub const SCALE_ONE: u32 = 10000;

/// Scale of a freshly spawned (wave) asteroid: 2.0.
pub const SPAWN_SCALE: u32 = 20000;

/// Splitting stops once a fragment's scale would be at or below 0.1.
pub const SCALE_LIMIT: u32 = 1000;

/// Collision radius of an asteroid of scale 1.0, in tenths of a unit (65 units).
pub const RADIUS_FACTOR: u32 = 650;

/// Bound on any collision radius, in tenths of a unit.
pub const SIZE_BOUND: i64 = 10000;

/// Collision radius of the ship (30 units).
pub const SHIP_SIZE: i64 = 300;

/// Collision radius of a bullet (7.5 units).
pub const BULLET_SIZE: i64 = 75;

/// Collision radius of a UFO (50 units).
pub const UFO_SIZE: i64 = 500;

/// A wave asteroid must spawn at least this far from the ship: twice the
/// radius at the spawn scale, in tenths of a unit.
pub const WAVE_SHIP_CLEARANCE: i64 = 2600;

/// How many random positions the spawner tries before it falls back to the
/// corner of the playfield farthest from the ship.
pub const SPAWN_ATTEMPTS: usize = 16;

/// Cap on the speed the spawner gives an asteroid, in tenths of a unit per
/// second.
pub const ASTEROID_SPEED_CAP: i64 = 50_000;

/// Milliradians in a full turn.
pub const TAU_MILLIRAD: i64 = 6283;

/// Rotation rate set by a held arrow key, in milliradians per second.
pub const ROTATE_RATE: i64 = 2000;

/// The rotation rate is clamped to this magnitude.
pub const ROTATE_LIMIT: i64 = 5000;

/// Thrust gained per thrusting tick, in tenths of a unit per second.
pub const THRUST_ACCEL: i64 = 10;

/// Speed of a fired bullet, in tenths of a unit per second (1000 units/s).
pub const BULLET_SPEED: i64 = 10000;

/// A ship bullet expires after this long, in milliseconds.
pub const BULLET_LIFE_MS: u32 = 1000;

/// Cooldown between ship shots, in milliseconds.
pub const FIRING_COOLDOWN_MS: u32 = 250;

/// At most this many ship bullets may be in flight.
pub const MAX_SHIP_BULLETS: usize = 3;

/// The get-ready countdown, in milliseconds.
pub const GET_READY_MS: u32 = 4000;

/// The UFO spawns this long after the countdown is armed, in milliseconds.
pub const UFO_SPAWN_MS: u32 = 15000;

/// Cooldown between UFO shots, in milliseconds.
pub const UFO_FIRING_MS: u32 = 500;

/// Magnitude of the random wander force a UFO feels each tick.
pub const UFO_WANDER: i64 = 10;

/// Opacity of a fresh explosion ring, in thousandths.
pub const EXPLOSION_ALPHA: i64 = 1000;

/// Opacity lost by an explosion ring each tick, in thousandths.
pub const EXPLOSION_ALPHA_STEP: i64 = 30;

/// Stroke width of a fresh explosion ring, in thousandths.
pub const EXPLOSION_WIDTH: i64 = 5000;

/// Stroke width lost by an explosion ring each tick, in thousandths.
pub const EXPLOSION_WIDTH_STEP: i64 = 150;

/// Visual radius multiplier of a fresh explosion ring, in thousandths.
pub const EXPLOSION_SCALE: i64 = 1000;

/// An explosion ring's radius multiplier grows by 5% each tick, up to this cap.
pub const EXPLOSION_SCALE_CAP: i64 = 1_000_000;

} // verus!
