//! Where the tanks of a new match appear.
use vstd::arithmetic::div_mod::lemma_fundamental_div_mod_converse;
use vstd::prelude::*;

use crate::structures::BorderSize;
use crate::units::UnitType;
use crate::TANK_COUNT;

verus! {

/// Marker for the part of the game that spawns the starting tanks.
pub struct TankPlugin;

/// Width of the selection border drawn around a unit, in pixels.
pub const BORDER_WIDTH: u32 = 50;

/// Height of the selection border drawn around a unit, in pixels.
pub const BORDER_HEIGHT: u32 = 50;

/// Size of the selection border drawn around a unit.
pub fn border_size() -> (r: BorderSize)
    ensures
        r == (BorderSize { width: BORDER_WIDTH, height: BORDER_HEIGHT }),
{
    BorderSize { width: BORDER_WIDTH, height: BORDER_HEIGHT }
}

/// A tank to spawn: its kind, its position in world units, and its heading
/// as a rotation about the vertical axis, in degrees.
#[derive(Clone, Copy, PartialEq, Eq, Structural, Debug)]
pub struct TankSpawn {
    pub unit: UnitType,
    pub x: i32,
    pub y: i32,
    pub z: i32,
    pub yaw_degrees: i32,
}

/// The three demonstration tanks, all turned half way round.
pub fn spawn_tank() -> (r: Vec<TankSpawn>)
    ensures
        r@ == seq![
            TankSpawn { unit: UnitType::TankGen1, x: -100i32, y: 2, z: 0, yaw_degrees: 180 },
            TankSpawn { unit: UnitType::TankGen2, x: -25i32, y: 2, z: 0, yaw_degrees: 180 },
            TankSpawn { unit: UnitType::TankGen2, x: 0, y: 2, z: 0, yaw_degrees: 180 },
        ],
{
    vec![
        TankSpawn { unit: UnitType::TankGen1, x: -100, y: 2, z: 0, yaw_degrees: 180 },
        TankSpawn { unit: UnitType::TankGen2, x: -25, y: 2, z: 0, yaw_degrees: 180 },
        TankSpawn { unit: UnitType::TankGen2, x: 0, y: 2, z: 0, yaw_degrees: 180 },
    ]
}

/// The side of the smallest square grid that holds `n` cells.
pub open spec fn is_ceil_sqrt(n: int, g: int) -> bool {
    &&& g >= 0
    &&& g * g >= n
    &&& (g == 0 || (g - 1) * (g - 1) < n)
}

/// The side of the smallest square grid that holds `n` cells (the ceiling of
/// the square root of `n`).
pub fn ceil_sqrt(n: usize) -> (g: usize)
    ensures
        is_ceil_sqrt(n as int, g as int),
        g <= n,
{
    let mut g: usize = 0;
    loop
        invariant
            g <= n,
            g == 0 || (g - 1) * (g - 1) < n,
        ensures
            is_ceil_sqrt(n as int, g as int),
            g <= n,
        decreases n - g,
    {
        let wide: u128 = g as u128;
        assert(wide * wide <= u128::MAX) by (nonlinear_arith)
            requires
                wide <= 0xffff_ffff_ffff_ffffu128,
        ;
        if wide * wide >= n as u128 {
            break;
        }
        assert(g < n) by (nonlinear_arith)
            requires
                g * g < n,
        ;
        g = g + 1;
    }
    g
}

/// The first `count` cells of a square grid of side `g`, row by row.
pub open spec fn grid_cells_spec(count: int, g: int, r: Seq<(usize, usize)>) -> bool {
    &&& r.len() == count
    &&& forall|i: int| 0 <= i < count ==> #[trigger] r[i] == ((i / g) as usize, (i % g) as usize)
}

/// Lays out `count` tanks on the smallest square grid that holds them,
/// filling it row by row; returns the side and the (row, column) cells.
pub fn grid_cells(count: usize) -> (r: (usize, Vec<(usize, usize)>))
    ensures
        is_ceil_sqrt(count as int, r.0 as int),
        r.0 <= count,
        grid_cells_spec(count as int, r.0 as int, r.1@),
{
    let grid_size = ceil_sqrt(count);
    let mut cells: Vec<(usize, usize)> = Vec::new();
    let mut placed: usize = 0;
    let mut row: usize = 0;
    assert(0 * grid_size == 0);
    while row < grid_size
        invariant
            row <= grid_size,
            grid_size * grid_size >= count,
            placed == cells@.len(),
            placed == if (row * grid_size) as int <= count as int {
                (row * grid_size) as int
            } else {
                count as int
            },
            forall|i: int|
                0 <= i < cells@.len() ==> #[trigger] cells@[i] == ((i / grid_size as int) as usize, (i
                    % grid_size as int) as usize),
        decreases grid_size - row,
    {
        assert(row * grid_size + grid_size == (row + 1) * grid_size) by (nonlinear_arith);
        let mut col: usize = 0;
        while col < grid_size
            invariant
                row < grid_size,
                col <= grid_size,
                grid_size * grid_size >= count,
                placed == cells@.len(),
                placed == if (row * grid_size + col) as int <= count as int {
                    (row * grid_size + col) as int
                } else {
                    count as int
                },
                forall|i: int|
                    0 <= i < cells@.len() ==> #[trigger] cells@[i] == ((i / grid_size as int) as usize, (i
                        % grid_size as int) as usize),
            decreases grid_size - col,
        {
            // once `count` tanks are placed the remaining cells stay empty
            if placed < count {
                proof {
                    lemma_fundamental_div_mod_converse(
                        (row * grid_size + col) as int,
                        grid_size as int,
                        row as int,
                        col as int,
                    );
                }
                cells.push((row, col));
                placed = placed + 1;
            }
            col = col + 1;
        }
        row = row + 1;
    }
    assert(placed == count) by (nonlinear_arith)
        requires
            placed == if grid_size * grid_size <= count {
                grid_size * grid_size
            } else {
                count as int
            },
            grid_size * grid_size >= count,
    ;
    (grid_size, cells)
}

/// Distance between neighbouring tanks of a formation, in world units.
pub const FORMATION_SPACING: i32 = 30;

/// Where the tank in cell `(row, col)` of the left group (facing right) or
/// of the right group (facing left) spawns.
pub open spec fn formation_spawn(left: bool, row: int, col: int) -> TankSpawn {
    if left {
        TankSpawn {
            unit: UnitType::TankGen1,
            x: (-200 + 30 * row) as i32,
            y: 2,
            z: (30 * col) as i32,
            yaw_degrees: -90i32,
        }
    } else {
        TankSpawn {
            unit: UnitType::TankGen1,
            x: (200 - 30 * row) as i32,
            y: 2,
            z: (30 * col) as i32,
            yaw_degrees: 90,
        }
    }
}

/// The starting tanks: `TANK_COUNT` first generation tanks on the left
/// facing right, then `TANK_COUNT` on the right facing left, each group laid
/// out 30 units apart on the smallest square grid that holds it, row by row.
pub fn spawn_tanks() -> (r: Vec<TankSpawn>)
    ensures
        r@.len() == 2 * TANK_COUNT,
        forall|i: int|
            0 <= i < TANK_COUNT ==> #[trigger] r@[i] == formation_spawn(true, i / 8, i % 8),
        forall|i: int|
            TANK_COUNT <= i < 2 * TANK_COUNT ==> #[trigger] r@[i] == formation_spawn(
                false,
                (i - TANK_COUNT) / 8,
                (i - TANK_COUNT) % 8,
            ),
{
    let (grid_size, cells) = grid_cells(TANK_COUNT);
    assert(grid_size == 8) by (nonlinear_arith)
        requires
            is_ceil_sqrt(50, grid_size as int),
            grid_size <= 50,
    ;
    let mut r: Vec<TankSpawn> = Vec::new();
    for k in 0..cells.len()
        invariant
            grid_size == 8,
            cells@.len() == TANK_COUNT,
            grid_cells_spec(50, 8, cells@),
            r@.len() == k,
            forall|i: int| 0 <= i < k ==> #[trigger] r@[i] == formation_spawn(true, i / 8, i % 8),
    {
        let (row, col) = cells[k];
        assert(row <= 6 && col < 8);
        r.push(
            TankSpawn {
                unit: UnitType::TankGen1,
                x: -200 + FORMATION_SPACING * row as i32,
                y: 2,
                z: FORMATION_SPACING * col as i32,
                yaw_degrees: -90,
            },
        );
    }
    for k in 0..cells.len()
        invariant
            grid_size == 8,
            cells@.len() == TANK_COUNT,
            grid_cells_spec(50, 8, cells@),
            r@.len() == TANK_COUNT + k,
            forall|i: int| 0 <= i < TANK_COUNT ==> #[trigger] r@[i] == formation_spawn(true, i / 8, i % 8),
            forall|i: int|
                TANK_COUNT <= i < TANK_COUNT + k ==> #[trigger] r@[i] == formation_spawn(
                    false,
                    (i - TANK_COUNT) / 8,
                    (i - TANK_COUNT) % 8,
                ),
    {
        let (row, col) = cells[k];
        assert(row <= 6 && col < 8);
        r.push(
            TankSpawn {
                unit: UnitType::TankGen1,
                x: 200 - FORMATION_SPACING * row as i32,
                y: 2,
                z: FORMATION_SPACING * col as i32,
                yaw_degrees: 90,
            },
        );
    }
    r
}

/// Law: no two starting tanks spawn at the same place, and the two groups
/// stay on their own side of the map.
pub proof fn lemma_tanks_do_not_overlap(r: Seq<TankSpawn>, i: int, j: int)
    requires
        r.len() == 2 * TANK_COUNT,
        forall|k: int| 0 <= k < TANK_COUNT ==> #[trigger] r[k] == formation_spawn(true, k / 8, k % 8),
        forall|k: int|
            TANK_COUNT <= k < 2 * TANK_COUNT ==> #[trigger] r[k] == formation_spawn(
                false,
                (k - TANK_COUNT) / 8,
                (k - TANK_COUNT) % 8,
            ),
        0 <= i < j < 2 * TANK_COUNT,
    ensures
        (r[i].x, r[i].z) != (r[j].x, r[j].z),
        i < TANK_COUNT ==> r[i].x < 0,
        j >= TANK_COUNT ==> r[j].x > 0,
{
    let a = r[i];
    let b = r[j];
    if j < TANK_COUNT {
        assert(a == formation_spawn(true, i / 8, i % 8));
        assert(b == formation_spawn(true, j / 8, j % 8));
        assert(i / 8 != j / 8 || i % 8 != j % 8) by {
            if i / 8 == j / 8 && i % 8 == j % 8 {
                lemma_fundamental_div_mod_converse(i, 8, i / 8, i % 8);
                lemma_fundamental_div_mod_converse(j, 8, j / 8, j % 8);
            }
        }
    } else if i >= TANK_COUNT {
        let ii = i - TANK_COUNT;
        let jj = j - TANK_COUNT;
        assert(b == formation_spawn(false, jj / 8, jj % 8));
        assert(a == formation_spawn(false, ii / 8, ii % 8));
        assert(ii / 8 != jj / 8 || ii % 8 != jj % 8) by {
            if ii / 8 == jj / 8 && ii % 8 == jj % 8 {
                lemma_fundamental_div_mod_converse(ii, 8, ii / 8, ii % 8);
                lemma_fundamental_div_mod_converse(jj, 8, jj / 8, jj % 8);
            }
        }
    } else {
        assert(a == formation_spawn(true, i / 8, i % 8));
        assert(b == formation_spawn(false, (j - TANK_COUNT) / 8, (j - TANK_COUNT) % 8));
    }
}

} // verus!
