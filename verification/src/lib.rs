//! Core simulation of a small arcade space shooter.
//!
//! The library models the game world — a player ship, enemies, bullets,
//! particles and powerups moving in a bounded arena — and the passes that a
//! game loop runs each frame: motion integration, arena-boundary bouncing,
//! sprite animation, collision resolution and removal of dead entities.
//!
//! All world coordinates are integers counted in thousandths of a pixel
//! (milli-pixels), velocities in milli-pixels per millisecond, and time in
//! milliseconds.  The facing angle drawn by a renderer is derived data: it
//! follows from an entity's velocity (or, for the player, the aim target),
//! so the core stores only the vectors themselves.

pub mod anim;
pub mod config;
pub mod entity;
pub mod geom;
mod rng;
pub mod world;
