//! The neighbour pass: what the cells around an interior cell of the wall
//! contribute to it.
//!
//! The wall is a grid laid out row by row. A cell is interior where it lies at
//! least `d` cells from every edge, `d` being the averaging radius. Around an
//! interior cell lies a window of `2 * d + 1` rows and as many columns,
//! centred on it. The pass adds up the positions in the window, row by row
//! and from left to right, and hands the sum to the cell.

use crate::particle::Particle;
use crate::physics::PhysicsSystem;
use crate::scalar::Scalar;
use crate::vector::Vec3;
use vstd::arithmetic::div_mod::{lemma_div_by_multiple, lemma_div_is_ordered};
use vstd::prelude::*;

verus! {

/// The positions of `particles`, in their order.
pub open spec fn positions_of<S: Scalar>(particles: Seq<Particle<S>>) -> Seq<Vec3<S>> {
    particles.map_values(|p: Particle<S>| p.position)
}

/// Whether the cell in `row` and `col` of a grid of `rows` by `cols` cells
/// lies at least `d` cells from every edge.
pub open spec fn is_interior(row: int, col: int, rows: int, cols: int, d: int) -> bool {
    d <= row < rows - d && d <= col < cols - d
}

/// The rows, and the columns, of the window for an averaging radius `d`.
pub open spec fn window_side(d: int) -> nat {
    if d >= 0 {
        (2 * d + 1) as nat
    } else {
        0
    }
}

/// `start` plus the positions in the first `n` cells of `row` from the column
/// `first_col` on, added one after the other. A cell whose index
/// `row * cols + column` is not an index of `positions` is passed over.
pub open spec fn row_scan<S: Scalar>(
    positions: Seq<Vec3<S>>,
    start: Vec3<S>,
    row: int,
    first_col: int,
    cols: int,
    n: nat,
) -> Vec3<S>
    decreases n,
{
    if n == 0 {
        start
    } else {
        let before = row_scan(positions, start, row, first_col, cols, (n - 1) as nat);
        let index = row * cols + first_col + (n - 1);
        if 0 <= index < positions.len() {
            before.sum(positions[index])
        } else {
            before
        }
    }
}

/// The sum of the first `m` rows of the window around the cell in `row` and
/// `col`, starting from the zero vector.
pub open spec fn window_scan<S: Scalar>(
    positions: Seq<Vec3<S>>,
    row: int,
    col: int,
    cols: int,
    d: int,
    m: nat,
) -> Vec3<S>
    decreases m,
{
    if m == 0 {
        Vec3::origin()
    } else {
        row_scan(
            positions,
            window_scan(positions, row, col, cols, d, (m - 1) as nat),
            row - d + (m - 1),
            col - d,
            cols,
            window_side(d),
        )
    }
}

/// The sum of the whole window around the cell in `row` and `col`.
pub open spec fn window_sum<S: Scalar>(
    positions: Seq<Vec3<S>>,
    row: int,
    col: int,
    cols: int,
    d: int,
) -> Vec3<S> {
    window_scan(positions, row, col, cols, d, window_side(d))
}

/// The wall particle at `index` after the neighbour pass over `walls`: with
/// the sum of its window added to `diff` where its cell is interior, as it
/// was elsewhere.
pub open spec fn gathered<S: Scalar>(
    walls: Seq<Particle<S>>,
    index: int,
    rows: int,
    cols: int,
    d: int,
) -> Particle<S> {
    let row = index / cols;
    let col = index % cols;
    if cols > 0 && row < rows && is_interior(row, col, rows, cols, d) {
        walls[index].with_contribution(window_sum(positions_of(walls), row, col, cols, d))
    } else {
        walls[index]
    }
}

/// The wall after the neighbour pass.
pub open spec fn after_neighbor_pass<S: Scalar>(
    walls: Seq<Particle<S>>,
    rows: int,
    cols: int,
    d: int,
) -> Seq<Particle<S>> {
    Seq::new(walls.len(), |index: int| gathered(walls, index, rows, cols, d))
}

/// The neighbour pass changes `diff` and nothing else: not the number of
/// wall particles, nor their order, nor any other field of any of them.
pub proof fn neighbor_pass_touches_diff_only<S: Scalar>(
    walls: Seq<Particle<S>>,
    rows: int,
    cols: int,
    d: int,
)
    ensures
        after_neighbor_pass(walls, rows, cols, d).len() == walls.len(),
        forall|k: int|
            0 <= k < walls.len() ==> #[trigger] after_neighbor_pass(walls, rows, cols, d)[k] == (
            Particle { diff: after_neighbor_pass(walls, rows, cols, d)[k].diff, ..walls[k] }),
{
}

/// A cell nearer than `d` to an edge gets nothing from its neighbours.
pub proof fn boundary_cell_gathers_nothing<S: Scalar>(
    walls: Seq<Particle<S>>,
    index: int,
    rows: int,
    cols: int,
    d: int,
)
    requires
        0 <= index < walls.len(),
        cols > 0,
        !is_interior(index / cols, index % cols, rows, cols, d),
    ensures
        after_neighbor_pass(walls, rows, cols, d)[index] == walls[index],
{
}

/// An interior cell of a wall gets the sum of its window.
pub proof fn interior_cell_gathers_its_window<S: Scalar>(
    walls: Seq<Particle<S>>,
    row: int,
    col: int,
    rows: int,
    cols: int,
    d: int,
)
    requires
        0 <= row < rows,
        0 <= col < cols,
        row * cols + col < walls.len(),
        is_interior(row, col, rows, cols, d),
    ensures
        after_neighbor_pass(walls, rows, cols, d)[row * cols + col] == walls[row * cols
            + col].with_contribution(window_sum(positions_of(walls), row, col, cols, d)),
{
    cell_of_index(row, col, cols);
    assert(row * cols + col >= 0) by (nonlinear_arith)
        requires
            0 <= row,
            0 <= col,
            0 < cols,
    ;
}

/// A grid whose rows or columns are no more than twice the averaging radius
/// has no interior cell: the pass changes nothing.
pub proof fn narrow_wall_has_no_interior<S: Scalar>(
    walls: Seq<Particle<S>>,
    rows: int,
    cols: int,
    d: int,
)
    requires
        d >= 0,
        rows <= 2 * d || cols <= 2 * d,
    ensures
        after_neighbor_pass(walls, rows, cols, d) == walls,
{
    assert(after_neighbor_pass(walls, rows, cols, d) =~= walls);
}

/// The window holds the cell and `4 * d * (d + 1)` neighbours: the number by
/// which neighbour gravity divides.
pub proof fn window_holds_the_cell_and_its_neighbors(d: int)
    requires
        d >= 0,
    ensures
        window_side(d) * window_side(d) == 4 * d * (d + 1) + 1,
{
    assert((2 * d + 1) * (2 * d + 1) == 4 * d * (d + 1) + 1) by (nonlinear_arith);
}

/// The window of an interior cell lies within the grid: each of its cells has
/// an index below `rows * cols`, so that in a wall with a particle in every
/// cell no cell of the window is passed over.
pub proof fn interior_window_lies_in_the_grid(
    row: int,
    col: int,
    rows: int,
    cols: int,
    d: int,
    m: int,
    n: int,
)
    requires
        is_interior(row, col, rows, cols, d),
        0 <= m < window_side(d),
        0 <= n < window_side(d),
    ensures
        0 <= row - d + m < rows,
        0 <= col - d + n < cols,
        0 <= (row - d + m) * cols + (col - d + n) < rows * cols,
{
    let r = row - d + m;
    let c = col - d + n;
    assert(0 <= r * cols && r * cols + cols <= rows * cols) by (nonlinear_arith)
        requires
            0 <= r < rows,
            0 < cols,
    ;
}

/// The index `row * cols + col` leads back to `row` and `col`.
pub proof fn cell_of_index(row: int, col: int, cols: int)
    requires
        0 <= col < cols,
    ensures
        (row * cols + col) / cols == row,
        (row * cols + col) % cols == col,
{
    vstd::arithmetic::div_mod::lemma_fundamental_div_mod_converse(row * cols + col, cols, row, col);
}

impl<S: Scalar> PhysicsSystem<S> {
    /// The sum of the window around the interior cell in `row` and `col`.
    fn window_total(&self, row: i64, col: i64) -> (total: Vec3<S>)
        requires
            0 <= row < self.sphere_height_number,
            0 <= col < self.sphere_width_number,
            is_interior(
                row as int,
                col as int,
                self.sphere_height_number as int,
                self.sphere_width_number as int,
                self.d as int,
            ),
        ensures
            total == window_sum(
                positions_of(self.wall_particles@),
                row as int,
                col as int,
                self.sphere_width_number as int,
                self.d as int,
            ),
    {
        let cols: i64 = self.sphere_width_number as i64;
        let d: i64 = self.d as i64;
        let side: i64 = if d >= 0 {
            2 * d + 1
        } else {
            0
        };
        let count: usize = self.wall_particles.len();
        let ghost positions = positions_of(self.wall_particles@);
        let mut total: Vec3<S> = Vec3::new();
        let mut m: i64 = 0;
        while m < side
            invariant
                0 <= m <= side,
                side == window_side(d as int),
                cols == self.sphere_width_number,
                d == self.d,
                count == self.wall_particles@.len(),
                positions == positions_of(self.wall_particles@),
                0 <= row < self.sphere_height_number,
                0 <= col < cols,
                is_interior(
                    row as int,
                    col as int,
                    self.sphere_height_number as int,
                    cols as int,
                    d as int,
                ),
                total == window_scan(
                    positions,
                    row as int,
                    col as int,
                    cols as int,
                    d as int,
                    m as nat,
                ),
            decreases side - m,
        {
            let r: i64 = row - d + m;
            let mut n: i64 = 0;
            while n < side
                invariant
                    0 <= n <= side,
                    0 <= m < side,
                    side == window_side(d as int),
                    cols == self.sphere_width_number,
                    d == self.d,
                    r == row - d + m,
                    count == self.wall_particles@.len(),
                    positions == positions_of(self.wall_particles@),
                    0 <= row < self.sphere_height_number,
                    0 <= col < cols,
                    is_interior(
                        row as int,
                        col as int,
                        self.sphere_height_number as int,
                        cols as int,
                        d as int,
                    ),
                    total == row_scan(
                        positions,
                        window_scan(
                            positions,
                            row as int,
                            col as int,
                            cols as int,
                            d as int,
                            m as nat,
                        ),
                        r as int,
                        col - d,
                        cols as int,
                        n as nat,
                    ),
                decreases side - n,
            {
                let c: i64 = col - d + n;
                assert(0 <= r * cols <= 0x4000_0000_0000_0000) by (nonlinear_arith)
                    requires
                        0 <= r <= 0x7fff_ffff,
                        0 <= cols <= 0x7fff_ffff,
                ;
                let index: i64 = r * cols + c;
                if (index as u64) < (count as u64) {
                    let place: usize = index as usize;
                    let neighbor: Vec3<S> = self.wall_particles[place].position;
                    total.add(&neighbor);
                }
                n = n + 1;
            }
            m = m + 1;
        }
        total
    }

    /// The neighbour pass: every interior cell of the wall gets the sum of the
    /// positions in its window added to `diff`. A cell without a particle,
    /// be it the centre or a neighbour, is passed over.
    pub fn update_wall_module_forces(&mut self)
        ensures
            final(self).wall_particles@ == after_neighbor_pass(
                old(self).wall_particles@,
                old(self).sphere_height_number as int,
                old(self).sphere_width_number as int,
                old(self).d as int,
            ),
            final(self).force_particles@ == old(self).force_particles@,
            final(self).same_parameters(*old(self)),
    {
        let count: usize = self.wall_particles.len();
        let rows: i64 = self.sphere_height_number as i64;
        let cols: i64 = self.sphere_width_number as i64;
        let d: i64 = self.d as i64;
        let ghost before = self.wall_particles@;
        if rows <= 0 || cols <= 0 {
            assert(self.wall_particles@ =~= after_neighbor_pass(
                before,
                rows as int,
                cols as int,
                d as int,
            )) by {
                assert forall|k: int| 0 <= k < before.len() implies before[k] == gathered(
                    before,
                    k,
                    rows as int,
                    cols as int,
                    d as int,
                ) by {
                    if cols > 0 {
                        assert(k / (cols as int) >= 0);
                    }
                }
            }
            return ;
        }
        assert(0 < rows * cols <= 0x4000_0000_0000_0000) by (nonlinear_arith)
            requires
                0 < rows <= 0x7fff_ffff,
                0 < cols <= 0x7fff_ffff,
        ;
        let cells: u64 = (rows * cols) as u64;
        let limit: usize = if (count as u64) < cells {
            count
        } else {
            cells as usize
        };
        let mut index: usize = 0;
        while index < limit
            invariant
                index <= limit <= count,
                limit <= cells,
                cells == rows * cols,
                0 < rows == old(self).sphere_height_number,
                0 < cols == old(self).sphere_width_number,
                d == old(self).d,
                before == old(self).wall_particles@,
                self.wall_particles@.len() == count == before.len(),
                self.force_particles@ == old(self).force_particles@,
                self.same_parameters(*old(self)),
                forall|k: int|
                    0 <= k < index ==> #[trigger] self.wall_particles@[k] == gathered(
                        before,
                        k,
                        rows as int,
                        cols as int,
                        d as int,
                    ),
                forall|k: int|
                    index <= k < count ==> #[trigger] self.wall_particles@[k] == before[k],
            decreases limit - index,
        {
            let row: i64 = ((index as u64) / (cols as u64)) as i64;
            let col: i64 = ((index as u64) % (cols as u64)) as i64;
            proof {
                lemma_div_is_ordered(index as int, cells as int - 1, cols as int);
                rows_of_the_grid(rows as int, cols as int);
            }
            if d <= row && row < rows - d && d <= col && col < cols - d {
                assert(positions_of(self.wall_particles@) =~= positions_of(before));
                let total = self.window_total(row, col);
                self.wall_particles[index].set_around_module(&total);
            }
            index = index + 1;
        }
        proof {
            assert forall|k: int| limit <= k < count implies before[k] == gathered(
                before,
                k,
                rows as int,
                cols as int,
                d as int,
            ) by {
                lemma_div_is_ordered(cells as int, k, cols as int);
                lemma_div_by_multiple(rows as int, cols as int);
            }
            assert(self.wall_particles@ =~= after_neighbor_pass(
                before,
                rows as int,
                cols as int,
                d as int,
            ));
        }
    }
}

/// The last cell of a grid lies in its last row.
proof fn rows_of_the_grid(rows: int, cols: int)
    requires
        0 < rows,
        0 < cols,
    ensures
        (rows * cols - 1) / cols == rows - 1,
{
    assert(rows * cols - 1 == (rows - 1) * cols + (cols - 1)) by (nonlinear_arith);
    cell_of_index(rows - 1, cols - 1, cols);
}

} // verus!
