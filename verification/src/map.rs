//! The battlefield: its path-finding grid and its light.
use vstd::prelude::*;

use crate::path_finding::Grid;
use crate::MAP_GRID_ROWS;

verus! {

/// Marker for the part of the game that builds the map.
pub struct MapPlugin;

/// The sun: a directional light, with its angles in thousandths of a radian
/// and its biases in thousandths.
#[derive(Clone, Copy, PartialEq, Eq, Structural, Debug)]
pub struct SunLight {
    pub illuminance: u32,
    pub shadows_enabled: bool,
    pub shadow_depth_bias_milli: u32,
    pub shadow_normal_bias_milli: u32,
    /// Height of the light above the origin, in world units.
    pub height: u32,
    /// Rotation about the X, Y and Z axes, applied in that order.
    pub rotation_x_milliradians: i32,
    pub rotation_y_milliradians: i32,
    pub rotation_z_milliradians: i32,
}

/// The sun of every map: 5000 lux, casting shadows, ten units above the
/// origin and tilted by -0.7 rad about X and 0.2 rad about Y.
pub fn spawn_light() -> (r: SunLight)
    ensures
        r == (SunLight {
            illuminance: 5000,
            shadows_enabled: true,
            shadow_depth_bias_milli: 1500,
            shadow_normal_bias_milli: 1000,
            height: 10,
            rotation_x_milliradians: -700i32,
            rotation_y_milliradians: 200,
            rotation_z_milliradians: 0,
        }),
{
    SunLight {
        illuminance: 5000,
        shadows_enabled: true,
        shadow_depth_bias_milli: 1500,
        shadow_normal_bias_milli: 1000,
        height: 10,
        rotation_x_milliradians: -700,
        rotation_y_milliradians: 200,
        rotation_z_milliradians: 0,
    }
}

/// The path-finding grid of a new map: `MAP_GRID_ROWS` by `MAP_GRID_ROWS`
/// free cells.
pub fn spawn_grid() -> (g: Grid)
    ensures
        g.wf(),
        g.cells@.len() == MAP_GRID_ROWS,
        forall|r: int, c: int|
            0 <= r < MAP_GRID_ROWS && 0 <= c < MAP_GRID_ROWS ==> !#[trigger] g.occupancy()[r][c],
{
    Grid::new(MAP_GRID_ROWS as usize)
}

} // verus!
