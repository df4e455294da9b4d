//! Grid path finding: the neighbourhood of a cell, the distance estimate that
//! guides the search, and the search itself (A* from the `pathfinding` crate).
use vstd::prelude::*;

verus! {

/// One square of the path-finding grid.
#[derive(Clone, Copy, PartialEq, Eq, Structural, Debug)]
pub struct Cell {
    pub occupied: bool,
}

/// A square grid of cells, indexed `cells[row][column]`.
pub struct Grid {
    pub cells: Vec<Vec<Cell>>,
}

/// The value that `x as i32` yields for a `u32`.
pub open spec fn wrap_i32(x: u32) -> int {
    if x <= 0x7fff_ffff {
        x as int
    } else {
        x as int - 0x1_0000_0000
    }
}

/// The eight moves a unit may make, in the order the search tries them:
/// up, down, left, right, then the four diagonals.
pub open spec fn direction(k: int) -> (int, int) {
    if k == 0 {
        (-1, 0)
    } else if k == 1 {
        (1, 0)
    } else if k == 2 {
        (0, -1)
    } else if k == 3 {
        (0, 1)
    } else if k == 4 {
        (-1, -1)
    } else if k == 5 {
        (-1, 1)
    } else if k == 6 {
        (1, -1)
    } else {
        (1, 1)
    }
}

/// Whether `(r, c)` lies on a square grid whose occupancy is `g` and is free.
pub open spec fn free_cell(g: Seq<Seq<bool>>, r: int, c: int) -> bool {
    0 <= r < g.len() && 0 <= c < g.len() && !g[r][c]
}

/// The free neighbours of `(row, column)` found by trying the first `k`
/// moves, each with move cost 1, in the order the moves are tried.
pub open spec fn successors_upto(g: Seq<Seq<bool>>, row: u32, column: u32, k: nat) -> Seq<
    ((u32, u32), usize),
>
    decreases k,
{
    if k == 0 {
        seq![]
    } else {
        let prev = successors_upto(g, row, column, (k - 1) as nat);
        let d = direction(k - 1);
        let nr = wrap_i32(row) + d.0;
        let nc = wrap_i32(column) + d.1;
        if free_cell(g, nr, nc) {
            prev.push(((nr as u32, nc as u32), 1usize))
        } else {
            prev
        }
    }
}

/// The free neighbours of `(row, column)`, each with move cost 1.
pub open spec fn spec_successors(g: Seq<Seq<bool>>, row: u32, column: u32) -> Seq<
    ((u32, u32), usize),
> {
    successors_upto(g, row, column, 8)
}

/// `|a|` for integers.
pub open spec fn abs(a: int) -> int {
    if a < 0 {
        -a
    } else {
        a
    }
}

/// Whether the distance estimate between `(row, column)` and the goal can be
/// computed in 32-bit signed arithmetic without overflow.
pub open spec fn heuristic_defined(row: u32, column: u32, goal_row: u32, goal_column: u32) -> bool {
    let dx = wrap_i32(column) - wrap_i32(goal_column);
    let dy = wrap_i32(row) - wrap_i32(goal_row);
    &&& -0x7fff_ffff <= dx <= 0x7fff_ffff
    &&& -0x7fff_ffff <= dy <= 0x7fff_ffff
    &&& abs(dx) + abs(dy) <= 0x7fff_ffff
}

/// Manhattan distance between `(row, column)` and the goal.
pub open spec fn spec_heuristic(row: u32, column: u32, goal_row: u32, goal_column: u32) -> int {
    abs(wrap_i32(column) - wrap_i32(goal_column)) + abs(wrap_i32(row) - wrap_i32(goal_row))
}

/// `b` is one of the neighbours the search may move to from `a`.
pub open spec fn is_step(g: Seq<Seq<bool>>, a: (u32, u32), b: (u32, u32)) -> bool {
    spec_successors(g, a.0, a.1).contains((b, 1usize))
}

/// `p` walks from `start` to `goal` through free neighbouring cells.
pub open spec fn is_walk(g: Seq<Seq<bool>>, start: (u32, u32), goal: (u32, u32), p: Seq<(u32, u32)>) -> bool {
    &&& p.len() >= 1
    &&& p[0] == start
    &&& p.last() == goal
    &&& forall|i: int| 0 <= i < p.len() - 1 ==> #[trigger] is_step(g, p[i], p[i + 1])
}

/// The path the A* search of the `pathfinding` crate returns on the grid `g`.
pub uninterp spec fn astar_grid_path(g: Seq<Seq<bool>>, start: (u32, u32), goal: (u32, u32)) -> Option<
    Seq<(u32, u32)>,
>;

/// The view of an optional path.
pub open spec fn path_view(r: Option<Vec<(u32, u32)>>) -> Option<Seq<(u32, u32)>> {
    match r {
        Some(v) => Some(v@),
        None => None,
    }
}

/// Each neighbour found by the first `k` moves is a free cell one king move
/// away from `(row, column)`, offered at cost 1.
proof fn lemma_successors_upto_sound(g: Seq<Seq<bool>>, row: u32, column: u32, k: nat, i: int)
    requires
        g.len() <= 0x7fff_ffff,
        k <= 8,
        0 <= i < successors_upto(g, row, column, k).len(),
    ensures
        ({
            let e = successors_upto(g, row, column, k)[i];
            &&& e.1 == 1
            &&& free_cell(g, e.0.0 as int, e.0.1 as int)
            &&& abs(e.0.0 - wrap_i32(row)) <= 1
            &&& abs(e.0.1 - wrap_i32(column)) <= 1
            &&& (e.0.0 - wrap_i32(row), e.0.1 - wrap_i32(column)) != (0int, 0int)
        }),
    decreases k,
{
    if k > 0 {
        let prev = successors_upto(g, row, column, (k - 1) as nat);
        if i < prev.len() {
            lemma_successors_upto_sound(g, row, column, (k - 1) as nat, i);
        }
    }
}

/// The neighbours found by the first `k` moves come before those found by
/// the later ones.
proof fn lemma_successors_upto_prefix(g: Seq<Seq<bool>>, row: u32, column: u32, k: nat, k2: nat)
    requires
        k <= k2,
    ensures
        successors_upto(g, row, column, k).len() <= successors_upto(g, row, column, k2).len(),
        forall|i: int|
            0 <= i < successors_upto(g, row, column, k).len() ==> successors_upto(g, row, column, k)[i]
                == #[trigger] successors_upto(g, row, column, k2)[i],
    decreases k2,
{
    if k < k2 {
        lemma_successors_upto_prefix(g, row, column, k, (k2 - 1) as nat);
    }
}

/// Law: every neighbour offered to the search is a free cell of the grid one
/// king move (straight or diagonal) away from the cell, at cost 1.
pub proof fn lemma_successors_sound(g: Seq<Seq<bool>>, row: u32, column: u32, i: int)
    requires
        g.len() <= 0x7fff_ffff,
        0 <= i < spec_successors(g, row, column).len(),
    ensures
        ({
            let e = spec_successors(g, row, column)[i];
            &&& e.1 == 1
            &&& free_cell(g, e.0.0 as int, e.0.1 as int)
            &&& abs(e.0.0 - wrap_i32(row)) <= 1
            &&& abs(e.0.1 - wrap_i32(column)) <= 1
            &&& (e.0.0 - wrap_i32(row), e.0.1 - wrap_i32(column)) != (0int, 0int)
        }),
{
    lemma_successors_upto_sound(g, row, column, 8, i);
}

/// Law: every free cell one king move away is offered to the search.
pub proof fn lemma_successors_complete(g: Seq<Seq<bool>>, row: u32, column: u32, r: int, c: int)
    requires
        g.len() <= 0x7fff_ffff,
        free_cell(g, r, c),
        abs(r - wrap_i32(row)) <= 1,
        abs(c - wrap_i32(column)) <= 1,
        (r - wrap_i32(row), c - wrap_i32(column)) != (0int, 0int),
    ensures
        spec_successors(g, row, column).contains(((r as u32, c as u32), 1usize)),
{
    let dr = r - wrap_i32(row);
    let dc = c - wrap_i32(column);
    let k: nat = if dr == -1 && dc == 0 {
        0
    } else if dr == 1 && dc == 0 {
        1
    } else if dr == 0 && dc == -1 {
        2
    } else if dr == 0 && dc == 1 {
        3
    } else if dr == -1 && dc == -1 {
        4
    } else if dr == -1 && dc == 1 {
        5
    } else if dr == 1 && dc == -1 {
        6
    } else {
        7
    };
    assert(direction(k as int) == (dr, dc));
    let s = successors_upto(g, row, column, k + 1);
    let idx = s.len() - 1;
    assert(s[idx] == ((r as u32, c as u32), 1usize));
    lemma_successors_upto_prefix(g, row, column, k + 1, 8);
    assert(spec_successors(g, row, column)[idx] == ((r as u32, c as u32), 1usize));
}

/// Law: a walk (such as a path `find_path` returns) enters only free cells
/// of the grid, each one king move from the previous cell; only the starting
/// cell may be occupied.
pub proof fn lemma_walk_avoids_occupied(g: Seq<Seq<bool>>, start: (u32, u32), goal: (u32, u32), p: Seq<(u32, u32)>, i: int)
    requires
        g.len() <= 0x7fff_ffff,
        is_walk(g, start, goal, p),
        1 <= i < p.len(),
    ensures
        free_cell(g, p[i].0 as int, p[i].1 as int),
        abs(p[i].0 - wrap_i32(p[i - 1].0)) <= 1,
        abs(p[i].1 - wrap_i32(p[i - 1].1)) <= 1,
{
    let j = i - 1;
    assert(is_step(g, p[j], p[j + 1]));
    assert(j + 1 == i);
    let s = spec_successors(g, p[i - 1].0, p[i - 1].1);
    let k = choose|k: int| 0 <= k < s.len() && s[k] == (p[i], 1usize);
    lemma_successors_sound(g, p[i - 1].0, p[i - 1].1, k);
}

impl Grid {
    /// Occupancy of the grid, row by row.
    pub open spec fn occupancy(&self) -> Seq<Seq<bool>> {
        Seq::new(
            self.cells@.len(),
            |r: int| Seq::new(self.cells@[r]@.len(), |c: int| self.cells@[r]@[c].occupied),
        )
    }

    /// The grid is square and its side fits in an `i32`.
    pub open spec fn wf(&self) -> bool {
        &&& self.cells@.len() <= 0x7fff_ffff
        &&& forall|r: int| 0 <= r < self.cells@.len() ==> #[trigger] self.cells@[r]@.len() == self.cells@.len()
    }

    /// A grid of `size` by `size` free cells.
    pub fn new(size: usize) -> (g: Grid)
        requires
            size <= 0x7fff_ffff,
        ensures
            g.wf(),
            g.cells@.len() == size,
            forall|r: int, c: int| 0 <= r < size && 0 <= c < size ==> !#[trigger] g.occupancy()[r][c],
    {
        let mut cells: Vec<Vec<Cell>> = Vec::new();
        for r in 0..size
            invariant
                cells@.len() == r,
                forall|i: int| 0 <= i < r ==> #[trigger] cells@[i]@.len() == size,
                forall|i: int, j: int| 0 <= i < r && 0 <= j < size ==> !(#[trigger] cells@[i]@[j]).occupied,
        {
            let mut row: Vec<Cell> = Vec::new();
            for c in 0..size
                invariant
                    row@.len() == c,
                    forall|j: int| 0 <= j < c ==> !(#[trigger] row@[j]).occupied,
            {
                row.push(Cell { occupied: false });
            }
            cells.push(row);
        }
        Grid { cells }
    }

    /// Marks the cell at `(row, column)` as occupied or free.
    pub fn set_occupied(&mut self, row: usize, column: usize, occupied: bool)
        requires
            old(self).wf(),
            row < old(self).cells@.len(),
            column < old(self).cells@.len(),
        ensures
            final(self).wf(),
            final(self).cells@.len() == old(self).cells@.len(),
            final(self).occupancy() == old(self).occupancy().update(
                row as int,
                old(self).occupancy()[row as int].update(column as int, occupied),
            ),
    {
        let mut line = self.cells[row].clone();
        line.set(column, Cell { occupied });
        self.cells.set(row, line);
        assert(self.occupancy() =~~= old(self).occupancy().update(
            row as int,
            old(self).occupancy()[row as int].update(column as int, occupied),
        ));
    }
}

/// The free neighbours of `(row, column)` on the grid, each with cost 1, in
/// the order up, down, left, right, up-left, up-right, down-left, down-right.
/// A coordinate is read as the `i32` it casts to, as the game does.
pub fn successors(grid: &Grid, row: u32, column: u32) -> (r: Vec<((u32, u32), usize)>)
    requires
        grid.wf(),
        row != 0x8000_0000,
        column != 0x8000_0000,
    ensures
        r@ == spec_successors(grid.occupancy(), row, column),
{
    let ghost g = grid.occupancy();
    let size = grid.cells.len() as i64;
    let directions: [(i64, i64); 8] = [
        (-1, 0),
        (1, 0),
        (0, -1),
        (0, 1),
        (-1, -1),
        (-1, 1),
        (1, -1),
        (1, 1),
    ];
    let r0: i64 = if row <= 0x7fff_ffff {
        row as i64
    } else {
        row as i64 - 0x1_0000_0000
    };
    let c0: i64 = if column <= 0x7fff_ffff {
        column as i64
    } else {
        column as i64 - 0x1_0000_0000
    };
    let mut neighbors: Vec<((u32, u32), usize)> = Vec::new();
    let mut k: usize = 0;
    while k < 8
        invariant
            0 <= k <= 8,
            g == grid.occupancy(),
            grid.wf(),
            size == g.len(),
            r0 == wrap_i32(row),
            c0 == wrap_i32(column),
            forall|i: int| 0 <= i < 8 ==> #[trigger] directions@[i] == (direction(i).0 as i64, direction(i).1 as i64),
            neighbors@ == successors_upto(g, row, column, k as nat),
        decreases 8 - k,
    {
        let (d_row, d_col) = directions[k];
        let new_row = r0 + d_row;
        let new_col = c0 + d_col;
        if new_row >= 0 && new_row < size && new_col >= 0 && new_col < size {
            let cell = grid.cells[new_row as usize][new_col as usize];
            if !cell.occupied {
                neighbors.push(((new_row as u32, new_col as u32), 1));
            }
        }
        k = k + 1;
    }
    neighbors
}

/// Manhattan distance between `(row, column)` and the goal, computed the way
/// the game does, through `i32`.
pub fn heuristic(row: u32, column: u32, goal_row: u32, goal_column: u32) -> (r: usize)
    requires
        heuristic_defined(row, column, goal_row, goal_column),
    ensures
        r == spec_heuristic(row, column, goal_row, goal_column),
{
    let c: i64 = if column <= 0x7fff_ffff { column as i64 } else { column as i64 - 0x1_0000_0000 };
    let gc: i64 = if goal_column <= 0x7fff_ffff {
        goal_column as i64
    } else {
        goal_column as i64 - 0x1_0000_0000
    };
    let r: i64 = if row <= 0x7fff_ffff { row as i64 } else { row as i64 - 0x1_0000_0000 };
    let gr: i64 = if goal_row <= 0x7fff_ffff {
        goal_row as i64
    } else {
        goal_row as i64 - 0x1_0000_0000
    };
    let dx = if c - gc < 0 { gc - c } else { c - gc };
    let dy = if r - gr < 0 { gr - r } else { r - gr };
    (dx + dy) as usize
}

/// Whether the search has reached the goal.
pub fn at_goal(pos: (u32, u32), goal: (u32, u32)) -> (r: bool)
    ensures
        r == (pos == goal),
{
    pos.0 == goal.0 && pos.1 == goal.1
}

/// Calls `pathfinding::directed::astar::astar` on the grid, moving to free
/// neighbours at cost 1 and guided by the Manhattan distance, and keeps the
/// path.  Claimed of it: the result is a function of the grid, the start and
/// the goal; a path it returns starts at `start`, ends at `goal`, visits no
/// cell twice and moves only to neighbours that `successors` lists; it returns
/// no path only when no such walk exists.  Which of several walks it returns
/// is left unsaid.
#[verifier::external_body]
fn astar_search(grid: &Grid, start: (u32, u32), goal: (u32, u32)) -> (r: Option<Vec<(u32, u32)>>)
    requires
        grid.wf(),
        start.0 != 0x8000_0000,
        start.1 != 0x8000_0000,
        forall|rr: u32, cc: u32|
            rr < grid.cells@.len() && cc < grid.cells@.len() ==> #[trigger] heuristic_defined(rr, cc, goal.0, goal.1),
    ensures
        path_view(r) == astar_grid_path(grid.occupancy(), start, goal),
        r matches Some(p) ==> is_walk(grid.occupancy(), start, goal, p@) && p@.no_duplicates(),
        r is None ==> forall|p: Seq<(u32, u32)>| !#[trigger] is_walk(grid.occupancy(), start, goal, p),
{
    pathfinding::prelude::astar(
        &start,
        |&(row, column)| successors(grid, row, column),
        |&(row, column)| heuristic(row, column, goal.0, goal.1),
        |&pos| at_goal(pos, goal),
    ).map(|found| found.0)
}

/// A path of cells from `start` to `goal` through free cells, found by A*
/// search, or `None` when the goal cannot be reached.
pub fn find_path(grid: &Grid, start: (u32, u32), goal: (u32, u32)) -> (r: Option<Vec<(u32, u32)>>)
    requires
        grid.wf(),
        start.0 != 0x8000_0000,
        start.1 != 0x8000_0000,
        forall|rr: u32, cc: u32|
            rr < grid.cells@.len() && cc < grid.cells@.len() ==> #[trigger] heuristic_defined(rr, cc, goal.0, goal.1),
    ensures
        path_view(r) == astar_grid_path(grid.occupancy(), start, goal),
        r matches Some(p) ==> is_walk(grid.occupancy(), start, goal, p@) && p@.no_duplicates(),
        r is None <==> forall|p: Seq<(u32, u32)>| !#[trigger] is_walk(grid.occupancy(), start, goal, p),
{
    astar_search(grid, start, goal)
}

/// The path a selected unit standing in cell `start` is given this frame:
/// when a target cell is under the cursor and the left button was just
/// pressed, the path found to it (if any); otherwise nothing changes.
pub fn set_destination_path(
    grid: &Grid,
    start: (u32, u32),
    target_row: Option<u32>,
    target_column: Option<u32>,
    just_pressed_left: bool,
) -> (r: Option<Vec<(u32, u32)>>)
    requires
        grid.wf(),
        start.0 != 0x8000_0000,
        start.1 != 0x8000_0000,
        target_row is Some && target_column is Some ==> forall|rr: u32, cc: u32|
            rr < grid.cells@.len() && cc < grid.cells@.len() ==> #[trigger] heuristic_defined(
                rr,
                cc,
                target_row.unwrap(),
                target_column.unwrap(),
            ),
    ensures
        !(target_row is Some && target_column is Some && just_pressed_left) ==> r is None,
        target_row is Some && target_column is Some && just_pressed_left ==> path_view(r)
            == astar_grid_path(grid.occupancy(), start, (target_row.unwrap(), target_column.unwrap())),
        r matches Some(p) ==> is_walk(
            grid.occupancy(),
            start,
            (target_row.unwrap(), target_column.unwrap()),
            p@,
        ),
{
    match (target_row, target_column) {
        (Some(goal_row), Some(goal_column)) => {
            if just_pressed_left {
                find_path(grid, start, (goal_row, goal_column))
            } else {
                None
            }
        },
        _ => None,
    }
}

} // verus!
