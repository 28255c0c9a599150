//! The grid's state: its cells, the target dimension, and the operations that
//! read, write and resize them.

use vstd::prelude::*;
use crate::life::{
    dead_grid, is_square, law_resize_to_own_dimension, live_neighbours, population, resized,
    with_cell, Cells,
};

verus! {

/// The dimension the grid is asked to have. It is set by the size controls and
/// may differ from the dimension of the grid until the grid has been resized.
#[derive(Clone, Copy, Debug, PartialEq, Eq, Structural)]
pub struct GridSize(pub usize);

impl GridSize {
    /// One less, but never below zero.
    pub fn decrement(&mut self)
        ensures
            final(self).0 == if old(self).0 == 0 {
                0
            } else {
                old(self).0 - 1
            },
    {
        self.0 = self.0.saturating_sub(1);
    }

    /// One more, but never beyond what a `usize` holds.
    pub fn increment(&mut self)
        ensures
            final(self).0 == if old(self).0 == usize::MAX {
                usize::MAX as int
            } else {
                old(self).0 + 1
            },
    {
        self.0 = self.0.saturating_add(1);
    }

    /// Takes `value` if it differs from the dimension held, and tells whether
    /// it did.
    pub fn set_if_neq(&mut self, value: GridSize) -> (changed: bool)
        ensures
            *final(self) == value,
            changed == (*old(self) != value),
    {
        if *self == value {
            false
        } else {
            *self = value;
            true
        }
    }
}

/// A square matrix of cells, each dead or alive, with a mark that tells
/// observers that the cells have been written since they last looked.
#[derive(Debug)]
pub struct GridState {
    cells: Vec<Vec<bool>>,
    changed: bool,
}

impl View for GridState {
    type V = Cells;

    closed spec fn view(&self) -> Cells {
        self.cells@.map_values(|row: Vec<bool>| row@)
    }
}

/// The number of live cells of row `r` in the columns from `lo` up to, but
/// not including, `hi`.
spec fn row_population(g: Cells, r: int, lo: int, hi: int) -> nat
    decreases hi - lo,
{
    if hi <= lo {
        0
    } else {
        row_population(g, r, lo, hi - 1) + population(g, r, hi - 1)
    }
}

/// The number of live cells in the rows from `top` up to, but not including,
/// `bottom`, each taken over the columns from `lo` up to `hi`.
spec fn block_population(g: Cells, top: int, bottom: int, lo: int, hi: int) -> nat
    decreases bottom - top,
{
    if bottom <= top {
        0
    } else {
        block_population(g, top, bottom - 1, lo, hi) + row_population(g, bottom - 1, lo, hi)
    }
}

/// The live cells of the three by three block around a cell are its live
/// neighbours and, if it is alive, the cell itself.
proof fn lemma_block_around(g: Cells, r: int, c: int)
    ensures
        block_population(g, r - 1, r + 2, c - 1, c + 2) == live_neighbours(g, r, c) + population(
            g,
            r,
            c,
        ),
{
    reveal_with_fuel(row_population, 4);
    reveal_with_fuel(block_population, 4);
}

/// Cutting the block around a cell down to the grid loses no live cell.
proof fn lemma_clamped_block(g: Cells, r: int, c: int, top: int, bottom: int, lo: int, hi: int)
    requires
        is_square(g),
        0 <= r < g.len(),
        0 <= c < g.len(),
        top == if r > 0 { r - 1 } else { r },
        bottom == if r + 1 < g.len() { r + 2 } else { r + 1 },
        lo == if c > 0 { c - 1 } else { c },
        hi == if c + 1 < g.len() { c + 2 } else { c + 1 },
    ensures
        block_population(g, top, bottom, lo, hi) == live_neighbours(g, r, c) + population(g, r, c),
{
    reveal_with_fuel(row_population, 4);
    reveal_with_fuel(block_population, 4);
    lemma_block_around(g, r, c);
    assert(g[r].len() == g.len());
    if r > 0 {
        assert(g[r - 1].len() == g.len());
    }
    if r + 1 < g.len() {
        assert(g[r + 1].len() == g.len());
    }
}

impl GridState {
    /// The grid is square: every row has as many cells as there are rows.
    pub open spec fn wf(&self) -> bool {
        is_square(self@)
    }

    /// The number of rows, which is also the number of columns.
    pub open spec fn dim(&self) -> nat {
        self@.len()
    }

    /// Whether the cells have been written since the mark was last cleared.
    pub closed spec fn changed(&self) -> bool {
        self.changed
    }

    /// An all-dead grid of the dimension that `size` holds.
    pub fn new(size: &GridSize) -> (grid: Self)
        ensures
            grid.wf(),
            grid@ == dead_grid(size.0 as nat),
            !grid.changed(),
    {
        let grid = GridState { cells: vec![vec![false; size.0]; size.0], changed: false };
        assert(grid@ =~= dead_grid(size.0 as nat)) by {
            assert forall|r: int| 0 <= r < size.0 implies #[trigger] grid@[r] =~= Seq::new(
                size.0 as nat,
                |c: int| false,
            ) by {
            }
        }
        grid
    }

    /// The number of rows, which is also the number of columns.
    pub fn dimension(&self) -> (n: usize)
        ensures
            n == self.dim(),
    {
        self.cells.len()
    }

    /// The liveness of the cell at `(row, col)`.
    pub fn at(&self, row: usize, col: usize) -> (alive: &bool)
        requires
            self.wf(),
            row < self.dim(),
            col < self.dim(),
        ensures
            *alive == self@[row as int][col as int],
    {
        assert(self@[row as int].len() == self.dim());
        &self.cells[row][col]
    }

    /// A handle on the cell at `(row, col)`: it reads as the cell's liveness,
    /// and what is written through it becomes the cell's liveness. Taking the
    /// handle marks the grid as changed.
    pub fn at_mut(&mut self, row: usize, col: usize) -> (cell: &mut bool)
        requires
            old(self).wf(),
            row < old(self).dim(),
            col < old(self).dim(),
        ensures
            final(self).wf(),
            final(self).dim() == old(self).dim(),
            *cell == old(self)@[row as int][col as int],
            final(self)@ == with_cell(old(self)@, row as int, col as int, *final(cell)),
            final(self).changed(),
    {
        assert forall|r: int| 0 <= r < self.cells@.len() implies (#[trigger] self.cells@[r])@.len()
            == self.cells@.len() by {
            assert(self@[r].len() == self@.len());
        }
        self.changed = true;
        &mut self.cells[row][col]
    }

    /// Overwrites the liveness of the cell at `(row, col)` and marks the grid
    /// as changed.
    pub fn set(&mut self, row: usize, col: usize, alive: bool)
        requires
            old(self).wf(),
            row < old(self).dim(),
            col < old(self).dim(),
        ensures
            final(self).wf(),
            final(self)@ == with_cell(old(self)@, row as int, col as int, alive),
            final(self).changed(),
    {
        *self.at_mut(row, col) = alive;
    }

    /// The number of live cells around `(row, col)`, the cell itself left out.
    /// A cell at the border has fewer neighbours: nothing wraps around.
    pub fn neighbours(&self, row: usize, col: usize) -> (count: usize)
        requires
            self.wf(),
            row < self.dim(),
            col < self.dim(),
        ensures
            count == live_neighbours(self@, row as int, col as int),
    {
        let n = self.cells.len();
        let lcol = if col > 0 { col - 1 } else { col };
        let rcol = if col + 1 < n { col + 1 } else { col };
        let urow = if row > 0 { row - 1 } else { row };
        let lrow = if row + 1 < n { row + 1 } else { row };

        let mut neighbours: usize = 0;
        let mut r = urow;
        while r <= lrow
            invariant
                self.wf(),
                n == self.dim(),
                urow <= r <= lrow + 1,
                lrow < n,
                lcol <= rcol < n,
                rcol - lcol <= 2,
                lrow - urow <= 2,
                neighbours == block_population(self@, urow as int, r as int, lcol as int, rcol + 1),
                neighbours <= 3 * (r - urow),
            decreases lrow + 1 - r,
        {
            assert(self@[r as int].len() == n);
            let mut c = lcol;
            while c <= rcol
                invariant
                    self.wf(),
                    n == self.dim(),
                    r < n,
                    self@[r as int].len() == n,
                    lcol <= c <= rcol + 1,
                    rcol < n,
                    neighbours == block_population(
                        self@,
                        urow as int,
                        r as int,
                        lcol as int,
                        rcol + 1,
                    ) + row_population(self@, r as int, lcol as int, c as int),
                    neighbours <= 3 * (r - urow) + (c - lcol),
                    r - urow <= 2,
                    rcol - lcol <= 2,
                decreases rcol + 1 - c,
            {
                if self.cells[r][c] {
                    neighbours += 1;
                }
                c += 1;
            }
            r += 1;
        }
        proof {
            lemma_clamped_block(
                self@,
                row as int,
                col as int,
                urow as int,
                lrow + 1,
                lcol as int,
                rcol + 1,
            );
        }
        assert(self@[row as int].len() == n);
        if self.cells[row][col] {
            neighbours - 1
        } else {
            neighbours
        }
    }

    /// Brings the grid to the dimension that `size` holds. With the dimension
    /// it already has, nothing happens. Otherwise the cells that the old and
    /// the new grid share keep their liveness, every other cell is dead, and
    /// the grid is marked as changed.
    pub fn resize(&mut self, size: &GridSize)
        requires
            old(self).wf(),
        ensures
            final(self).wf(),
            final(self)@ == resized(old(self)@, size.0 as nat),
            size.0 == old(self).dim() ==> *final(self) == *old(self),
            final(self).changed() == (old(self).changed() || size.0 != old(self).dim()),
    {
        if self.cells.len() == size.0 {
            proof {
                law_resize_to_own_dimension(self@);
            }
            return ;
        }
        let n = size.0;
        let mut grid = vec![vec![false; n]; n];

        let sync_size = if n < self.cells.len() { n } else { self.cells.len() };
        let mut row: usize = 0;
        while row < sync_size
            invariant
                self.wf(),
                row <= sync_size,
                sync_size <= n,
                sync_size <= self.dim(),
                grid@.len() == n,
                forall|r: int| 0 <= r < n ==> (#[trigger] grid@[r])@.len() == n,
                forall|r: int, c: int|
                    0 <= r < n && 0 <= c < n ==> (#[trigger] grid@[r]@[c]) == (r < row
                        && c < sync_size && self@[r][c]),
            decreases sync_size - row,
        {
            assert(self@[row as int].len() == self.dim());
            let mut col: usize = 0;
            while col < sync_size
                invariant
                    self.wf(),
                    row < sync_size,
                    col <= sync_size,
                    sync_size <= n,
                    sync_size <= self.dim(),
                    self@[row as int].len() == self.dim(),
                    grid@.len() == n,
                    forall|r: int| 0 <= r < n ==> (#[trigger] grid@[r])@.len() == n,
                    forall|r: int, c: int|
                        0 <= r < n && 0 <= c < n ==> (#[trigger] grid@[r]@[c]) == ((r < row || (r
                            == row && c < col)) && c < sync_size && self@[r][c]),
                decreases sync_size - col,
            {
                grid[row][col] = self.cells[row][col];
                col += 1;
            }
            row += 1;
        }

        proof {
            let target = resized(self@, n as nat);
            let built = grid@.map_values(|line: Vec<bool>| line@);
            assert(built =~= target) by {
                assert forall|r: int| 0 <= r < n implies #[trigger] built[r] =~= target[r] by {
                    assert(grid@[r]@.len() == n);
                    if r < self.dim() {
                        assert(self@[r].len() == self.dim());
                    }
                    assert forall|c: int| 0 <= c < n implies built[r][c] == target[r][c] by {
                        assert(grid@[r]@[c] == (r < sync_size && c < sync_size && self@[r][c]));
                    }
                }
            }
        }
        self.cells = grid;
        self.changed = true;
    }

    /// Whether the cells have been written since the mark was last cleared.
    pub fn is_changed(&self) -> (changed: bool)
        ensures
            changed == self.changed(),
    {
        self.changed
    }

    /// Marks the grid as changed without writing a cell.
    pub fn set_changed(&mut self)
        ensures
            final(self)@ == old(self)@,
            final(self).changed(),
    {
        self.changed = true;
    }

    /// Clears the mark, as an observer does once it has caught up.
    pub fn clear_changed(&mut self)
        ensures
            final(self)@ == old(self)@,
            !final(self).changed(),
    {
        self.changed = false;
    }
}

impl Clone for GridState {
    fn clone(&self) -> (copy: Self)
        ensures
            copy@ == self@,
            copy.changed() == self.changed(),
    {
        let copy = GridState { cells: self.cells.clone(), changed: self.changed };
        assert(copy@ =~= self@) by {
            assert forall|r: int| 0 <= r < self@.len() implies #[trigger] copy@[r] =~= self@[r] by {
                assert(cloned(self.cells@[r], copy.cells@[r]));
            }
        }
        copy
    }
}

} // verus!
