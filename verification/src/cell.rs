//! The mirror that a display keeps of the grid: one record per cell, with the
//! liveness it last saw and whether the pointer is over it.

use vstd::prelude::*;
use vstd::arithmetic::div_mod::lemma_fundamental_div_mod_converse;
use crate::grid::GridState;
use crate::life::{Cells, with_cell};

verus! {

/// What a display knows of one cell. It is never the authority on liveness:
/// the grid is, and the record follows it.
#[derive(Clone, Copy, Debug, PartialEq, Eq)]
pub struct Cell {
    pub row: usize,
    pub col: usize,
    pub alive: bool,
    pub hovered: bool,
}

/// `cell` is the record of `(r, c)`, it shows the liveness that `g` has
/// there, and the pointer is not over it.
pub open spec fn mirrors(cell: Cell, g: Cells, r: int, c: int) -> bool {
    &&& cell.row == r
    &&& cell.col == c
    &&& cell.alive == g[r][c]
    &&& !cell.hovered
}

/// `cell` names a cell of `grid`.
pub open spec fn on_grid(cell: Cell, grid: GridState) -> bool {
    cell.row < grid.dim() && cell.col < grid.dim()
}

impl Cell {
    /// The record of `(row, col)` with the given liveness and no pointer
    /// over it.
    pub fn new(row: usize, col: usize, alive: bool) -> (cell: Self)
        ensures
            cell.row == row,
            cell.col == col,
            cell.alive == alive,
            !cell.hovered,
    {
        Cell { row, col, alive, hovered: false }
    }

    /// Whether the record names a cell of `grid`.
    pub fn is_on_grid(&self, grid: &GridState) -> (on: bool)
        ensures
            on == on_grid(*self, *grid),
    {
        let n = grid.dimension();
        self.row < n && self.col < n
    }

    /// Takes the liveness that the grid has for this cell.
    pub fn sync(&mut self, grid: &GridState)
        requires
            grid.wf(),
            on_grid(*old(self), *grid),
        ensures
            final(self).row == old(self).row,
            final(self).col == old(self).col,
            final(self).hovered == old(self).hovered,
            final(self).alive == grid@[old(self).row as int][old(self).col as int],
    {
        self.alive = *grid.at(self.row, self.col);
    }
}

/// The records of the top left `grid_size` by `grid_size` cells of the grid,
/// row after row, each showing the liveness that the grid has for it.
pub fn spawn_grid_cells(grid_size: usize, grid: &GridState) -> (cells: Vec<Cell>)
    requires
        grid.wf(),
        grid_size <= grid.dim(),
    ensures
        cells@.len() == grid_size * grid_size,
        forall|i: int|
            0 <= i < cells@.len() ==> mirrors(
                #[trigger] cells@[i],
                grid@,
                i / (grid_size as int),
                i % (grid_size as int),
            ),
{
    let mut cells: Vec<Cell> = Vec::new();
    let mut row: usize = 0;
    while row < grid_size
        invariant
            grid.wf(),
            row <= grid_size <= grid.dim(),
            cells@.len() == row * grid_size,
            forall|i: int|
                0 <= i < cells@.len() ==> mirrors(
                    #[trigger] cells@[i],
                    grid@,
                    i / (grid_size as int),
                    i % (grid_size as int),
                ),
        decreases grid_size - row,
    {
        let mut col: usize = 0;
        while col < grid_size
            invariant
                grid.wf(),
                row < grid_size <= grid.dim(),
                col <= grid_size,
                cells@.len() == row * grid_size + col,
                forall|i: int|
                    0 <= i < cells@.len() ==> mirrors(
                        #[trigger] cells@[i],
                        grid@,
                        i / (grid_size as int),
                        i % (grid_size as int),
                    ),
            decreases grid_size - col,
        {
            proof {
                lemma_fundamental_div_mod_converse(
                    row * grid_size + col,
                    grid_size as int,
                    row as int,
                    col as int,
                );
            }
            cells.push(Cell::new(row, col, *grid.at(row, col)));
            col += 1;
        }
        assert(row * grid_size + grid_size == (row + 1) * grid_size) by (nonlinear_arith);
        row += 1;
    }
    cells
}

/// Brings every record up to date with the grid: each takes the liveness
/// that the grid has at its place, whatever it showed before. The grid's
/// cells stay, and its mark is cleared, since its observer has caught up.
pub fn sync_cells(cells: &mut Vec<Cell>, grid: &mut GridState)
    requires
        old(grid).wf(),
        forall|i: int| 0 <= i < old(cells)@.len() ==> on_grid(#[trigger] old(cells)@[i], *old(grid)),
    ensures
        final(grid).wf(),
        final(grid)@ == old(grid)@,
        !final(grid).changed(),
        final(cells)@.len() == old(cells)@.len(),
        forall|i: int|
            0 <= i < old(cells)@.len() ==> {
                let before = old(cells)@[i];
                let after = #[trigger] final(cells)@[i];
                &&& after.row == before.row
                &&& after.col == before.col
                &&& after.hovered == before.hovered
                &&& after.alive == old(grid)@[before.row as int][before.col as int]
            },
{
    let mut i: usize = 0;
    while i < cells.len()
        invariant
            grid.wf(),
            *grid == *old(grid),
            i <= cells@.len(),
            cells@.len() == old(cells)@.len(),
            forall|j: int|
                0 <= j < cells@.len() ==> {
                    let before = old(cells)@[j];
                    let after = #[trigger] cells@[j];
                    &&& after.row == before.row
                    &&& after.col == before.col
                    &&& after.hovered == before.hovered
                    &&& after.alive == if j < i {
                        grid@[before.row as int][before.col as int]
                    } else {
                        before.alive
                    }
                },
            forall|j: int| 0 <= j < old(cells)@.len() ==> on_grid(#[trigger] old(cells)@[j], *grid),
        decreases cells@.len() - i,
    {
        assert(on_grid(old(cells)@[i as int], *grid));
        cells[i].sync(grid);
        i += 1;
    }
    grid.clear_changed();
}

/// Brings the records up to date only if the grid has been written since its
/// mark was last cleared, and tells whether it did. With no mark on the grid
/// the records and the grid stay exactly as they are, so a record that is out
/// of step stays out of step: this is the cheap check for every pass, and
/// [`sync_cells`] is the resynchronisation itself.
pub fn sync_cells_on_change(cells: &mut Vec<Cell>, grid: &mut GridState) -> (synced: bool)
    requires
        old(grid).wf(),
        old(grid).changed() ==> forall|i: int|
            0 <= i < old(cells)@.len() ==> on_grid(#[trigger] old(cells)@[i], *old(grid)),
    ensures
        synced == old(grid).changed(),
        final(grid).wf(),
        final(grid)@ == old(grid)@,
        !final(grid).changed(),
        final(cells)@.len() == old(cells)@.len(),
        !synced ==> final(cells)@ == old(cells)@ && *final(grid) == *old(grid),
        synced ==> forall|i: int|
            0 <= i < old(cells)@.len() ==> {
                let before = old(cells)@[i];
                let after = #[trigger] final(cells)@[i];
                &&& after.row == before.row
                &&& after.col == before.col
                &&& after.hovered == before.hovered
                &&& after.alive == old(grid)@[before.row as int][before.col as int]
            },
{
    if !grid.is_changed() {
        return false;
    }
    sync_cells(cells, grid);
    true
}

/// Writes `desired` to the grid at the cell's place and to the record.
pub fn toggle_cell_alive(cell: &mut Cell, desired: bool, grid: &mut GridState)
    requires
        old(grid).wf(),
        on_grid(*old(cell), *old(grid)),
    ensures
        final(grid).wf(),
        final(grid)@ == with_cell(old(grid)@, old(cell).row as int, old(cell).col as int, desired),
        final(grid).changed(),
        final(cell).row == old(cell).row,
        final(cell).col == old(cell).col,
        final(cell).hovered == old(cell).hovered,
        final(cell).alive == desired,
{
    cell.alive = desired;
    grid.set(cell.row, cell.col, desired);
}

/// What a pointer with these buttons held paints: life with the left button,
/// death with the right one, and with both the left one wins.
pub open spec fn painted(left: bool, right: bool) -> Option<bool> {
    if left {
        Some(true)
    } else if right {
        Some(false)
    } else {
        None
    }
}

/// A pointer button went down on the cell: the cell is painted, or left
/// alone if neither of the two buttons is held.
pub fn press_cell(cell: &mut Cell, left: bool, right: bool, grid: &mut GridState)
    requires
        old(grid).wf(),
        left || right ==> on_grid(*old(cell), *old(grid)),
    ensures
        final(grid).wf(),
        final(cell).row == old(cell).row,
        final(cell).col == old(cell).col,
        final(cell).hovered == old(cell).hovered,
        match painted(left, right) {
            Some(desired) => {
                &&& final(cell).alive == desired
                &&& final(grid)@ == with_cell(
                    old(grid)@,
                    old(cell).row as int,
                    old(cell).col as int,
                    desired,
                )
                &&& final(grid).changed()
            },
            None => *final(cell) == *old(cell) && *final(grid) == *old(grid),
        },
{
    if left {
        toggle_cell_alive(cell, true, grid);
    } else if right {
        toggle_cell_alive(cell, false, grid);
    }
}

/// The pointer came over the cell: the cell is hovered, and with a button
/// held it is painted as by a press, so that a drag paints every cell it
/// crosses.
pub fn over_cell(cell: &mut Cell, left: bool, right: bool, grid: &mut GridState)
    requires
        old(grid).wf(),
        left || right ==> on_grid(*old(cell), *old(grid)),
    ensures
        final(grid).wf(),
        final(cell).row == old(cell).row,
        final(cell).col == old(cell).col,
        final(cell).hovered,
        match painted(left, right) {
            Some(desired) => {
                &&& final(cell).alive == desired
                &&& final(grid)@ == with_cell(
                    old(grid)@,
                    old(cell).row as int,
                    old(cell).col as int,
                    desired,
                )
                &&& final(grid).changed()
            },
            None => final(cell).alive == old(cell).alive && *final(grid) == *old(grid),
        },
{
    cell.hovered = true;
    press_cell(cell, left, right, grid);
}

/// The pointer left the cell: the cell is no longer hovered.
pub fn out_cell(cell: &mut Cell)
    ensures
        final(cell).row == old(cell).row,
        final(cell).col == old(cell).col,
        final(cell).alive == old(cell).alive,
        !final(cell).hovered,
{
    cell.hovered = false;
}

} // verus!
