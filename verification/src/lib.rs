//! A first-person view of a square tile map, rendered by per-column
//! raycasting into a character-cell grid.
//!
//! All geometry is carried in fixed-point integers: positions and
//! distances in units of [`SCALE`] per map cell, angles in units of
//! [`FULL_TURN`] per revolution. The whole pipeline — trigonometry,
//! camera motion, ray marching, projection and shading, and frame
//! composition — is pure integer arithmetic, so every step of it is
//! verified. A surrounding application supplies the viewport size and
//! the input state and blits the composed frame to a display.

use vstd::prelude::*;

pub mod camera;
pub mod frame;
pub mod grid;
pub mod project;
pub mod raycast;
pub mod trig;

verus! {

/// Fixed-point scale: this many integer units make one map cell
/// (and one unit of marched distance).
pub const SCALE: i64 = 10000;

/// One ray-marching step: a tenth of a map cell.
pub const STEP: i64 = 1000;

/// Angle units in one full revolution.
pub const FULL_TURN: i64 = 46080;

/// Angle units in half a revolution.
pub const HALF_TURN: i64 = 23040;

/// Angle units in a quarter revolution.
pub const QUARTER_TURN: i64 = 11520;

/// One rotation step: two degrees.
pub const ROT_STEP: i64 = 256;

/// Largest edge length of a grid, in cells.
pub const SIDE_MAX: usize = 10000;

/// Largest magnitude of a camera coordinate, in `SCALE` units.
pub const COORD_MAX: i64 = 1_000_000_000_000;

/// Largest render depth, in `SCALE` units.
pub const DEPTH_MAX: i64 = 1_000_000_000;

/// Default field of view: a sixth of a revolution (60 degrees).
pub const DEFAULT_FOV: i64 = 7680;

/// Default render depth: 16 cells.
pub const DEFAULT_DEPTH: i64 = 160000;

/// Largest viewport width, in columns.
pub const WIDTH_MAX: usize = 1_000_000;

/// Largest viewport height, in rows.
pub const HEIGHT_MAX: usize = 1_000_000;

} // verus!
