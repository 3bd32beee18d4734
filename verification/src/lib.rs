//! Core simulation engine for a single-player arcade shooter.
//!
//! The ship sits at the centre of the play field, aims at the cursor and
//! fires projectiles at drifting asteroids while a scoreboard and a life
//! counter track progress. This crate holds the round simulation itself:
//! the match lifecycle state machine, the accelerating asteroid spawn
//! scheduler, motion integration with out-of-bounds despawning, collision
//! resolution, and the player survivability rules (lives, invincibility,
//! respawn timing).
//!
//! All simulation state is kept in fixed-point integers: distances in
//! thousandths of a world unit, durations in milliseconds. Rendering,
//! window management and input polling are external collaborators; they
//! hand the engine plain values (cursor position, pressed flags, frame
//! delta) and read the entity state back for presentation.

pub mod asteroid;
pub mod collision;
pub mod components;
pub mod constants;
pub mod game;
pub mod geom;
pub mod input;
pub mod movement;
pub mod player;
pub mod rng;
pub mod round;
pub mod timer;
