//! Static configuration of the arena and the gameplay rules.
//!
//! World lengths are in milli-pixels (thousandths of a pixel), speeds in
//! milli-pixels per millisecond (numerically equal to pixels per second),
//! and times in milliseconds.

use vstd::prelude::*;

verus! {

/// Milli-pixels per pixel.
pub const MILLI: i64 = 1000;

/// Arena width in pixels.
pub const SCREEN_WIDTH: i64 = 800;

/// Arena height in pixels.
pub const SCREEN_HEIGHT: i64 = 600;

/// Arena width in milli-pixels.
pub const SCREEN_WIDTH_M: i64 = SCREEN_WIDTH * MILLI;

/// Arena height in milli-pixels.
pub const SCREEN_HEIGHT_M: i64 = SCREEN_HEIGHT * MILLI;

/// Speed of the player ship.
pub const PLAYER_SPEED: i64 = 300;

/// Largest magnitude of each velocity component a fresh enemy may get.
pub const ENEMY_SPEED: i64 = 150;

/// Speed of a newly fired bullet before any speed powerup.
pub const BULLET_SPEED: i64 = 500;

/// Upper cap on the player's bullet speed.
pub const BULLET_SPEED_MAX: i64 = 1500;

/// Speed gained from one bullet-speed powerup.
pub const BULLET_SPEED_STEP: i64 = 100;

/// Milliseconds between periodic enemy spawns.
pub const SPAWN_RATE: u64 = 2000;

/// Milliseconds between periodic powerup spawns.
pub const POWERUP_RATE: u64 = 10000;

/// Enemies closer to the player than this (in milli-pixels) may fire.
pub const ENEMY_FIRE_RANGE_M: i64 = 200000;

/// An enemy in range fires when the tick counter falls in the first
/// `ENEMY_FIRE_WINDOW` milliseconds of each `ENEMY_FIRE_PERIOD`.
pub const ENEMY_FIRE_PERIOD: u32 = 800;

/// See `ENEMY_FIRE_PERIOD`.
pub const ENEMY_FIRE_WINDOW: u32 = 2;

/// A held fire button shoots when the tick counter falls in the first
/// `AUTOFIRE_WINDOW` milliseconds of each `AUTOFIRE_PERIOD`.
pub const AUTOFIRE_PERIOD: u32 = 450;

/// See `AUTOFIRE_PERIOD`.
pub const AUTOFIRE_WINDOW: u32 = 4;

/// Score awarded for shooting down one enemy.
pub const SCORE_KILL: u64 = 500;

/// Life of a freshly constructed entity.
pub const START_LIFE: i32 = 5;

/// Shield of a freshly constructed entity.
pub const START_SHIELD: i32 = 3;

/// Where the player (re)spawns, in milli-pixels.
pub const PLAYER_SPAWN_X_M: i64 = 400 * MILLI;

/// See `PLAYER_SPAWN_X_M`.
pub const PLAYER_SPAWN_Y_M: i64 = 300 * MILLI;

/// Enemies and powerups spawn with both pixel coordinates inside
/// `[SPAWN_INSET_LO, SCREEN_WIDTH - SPAWN_INSET_HI]` (respectively
/// `SCREEN_HEIGHT` for the vertical axis).
pub const SPAWN_INSET_LO: i64 = 100;

/// See `SPAWN_INSET_LO`.
pub const SPAWN_INSET_HI: i64 = 108;

/// Bounding-box edge of ships, bullets and powerups, in milli-pixels.
pub const SPRITE_SCALE_M: i64 = 24 * MILLI;

/// Bounding-box edge of the shield particle, in milli-pixels.
pub const SHIELD_SCALE_M: i64 = 40 * MILLI;

/// How many enemies a fresh or restarted world holds.
pub const INITIAL_ENEMIES: usize = 3;

/// Positions are kept within this magnitude; far outside the arena, motion
/// saturates instead of overflowing.
pub const POS_LIMIT: i64 = 2000000000000;

/// No entity ever moves faster than this per component.
pub const VEL_LIMIT: i64 = 2000000;

/// Bounding boxes never exceed this edge length.
pub const SCALE_LIMIT: i64 = 1000000;

/// Aiming vectors (difference of two positions) stay within this magnitude
/// per component.
pub const DELTA_LIMIT: i64 = 10000000000000;

} // verus!
