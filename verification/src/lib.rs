//! Game rules of a small real-time-strategy game: unit and structure
//! catalogues, the bank, build queues, selection and cursor state, grid path
//! finding and formation layout.  Rendering, physics and input plumbing live
//! in the application crate; everything here works on plain values.
use vstd::prelude::*;

pub mod audio;
pub mod bank;
pub mod build_queue;
pub mod camera;
pub mod cmd_interface;
pub mod cursor;
pub mod map;
pub mod mouse;
pub mod path_finding;
pub mod resources;
pub mod structures;
pub mod tank;
pub mod units;

verus! {

/// Number of columns of the path-finding grid.
pub const MAP_GRID_COLUMNS: i32 = 120;

/// Number of rows of the path-finding grid.
pub const MAP_GRID_ROWS: i32 = 120;

/// Side length of one grid cell, in world units.
pub const CELL_SIZE: u32 = 10;

/// Width of the map, in world units.
pub const MAP_WIDTH: u32 = CELL_SIZE * 120;

/// Depth of the map, in world units.
pub const MAP_DEPTH: u32 = CELL_SIZE * 120;

/// Number of tanks spawned on each side at the start of a match.
pub const TANK_COUNT: usize = 50;

/// Common factor of all unit speeds.
pub const SPEED_QUANTIFIER: u32 = 10;

/// Speed of a rifleman.
pub const SPEED_RIFELMAN: u32 = SPEED_QUANTIFIER * 10;

/// Speed of a first generation tank.
pub const SPEED_TANK_GEN_1: u32 = SPEED_QUANTIFIER * 50;

/// Speed of a second generation tank.
pub const SPEED_TANK_GEN_2: u32 = SPEED_QUANTIFIER * 50;

/// Speed of an artillery piece.
pub const SPEED_ARTILLERY: u32 = SPEED_QUANTIFIER * 40;

} // verus!
