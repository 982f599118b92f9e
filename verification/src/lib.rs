//! Core logic of a small 2D arcade game: a player sprite moves inside a
//! window under keyboard control, wraps to the opposite edge when it leaves
//! the window, and a fixed number of enemies are spawned at random positions.
//!
//! All lengths are measured in milli-units: one thousandth of a world unit.
//! With time measured in milliseconds, a speed of `s` units per second is
//! exactly `s` milli-units per millisecond, so per-frame displacements are
//! computed without any rounding on the straight axes.

use vstd::prelude::*;

pub mod confinement;
pub mod entities;
pub mod geom;
pub mod input;
pub mod movement;
pub mod spawn;
pub mod world;

verus! {

/// Side length of the player sprite, in milli-units (64 units).
pub const PLAYER_SIZE: i64 = 64_000;

/// Player speed in units per second, which equals milli-units per millisecond.
pub const PLAYER_SPEED: i64 = 500;

/// Number of enemies spawned at startup.
pub const N_ENEMIES: usize = 4;

/// Largest coordinate or window dimension the library works with, in
/// milli-units (one billion units): keeps every intermediate sum in `i64`.
pub const MAX_COORD: i64 = 1_000_000_000_000;

/// Largest frame duration accepted, in milliseconds.
pub const MAX_FRAME_MS: i64 = 1_000_000;

} // verus!
