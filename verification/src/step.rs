//! The transition from one generation to the next.

use vstd::prelude::*;
use crate::grid::GridState;
use crate::life::{live_neighbours, next_alive, step_cells};

verus! {

/// The fate of a cell with `neighbours` live neighbours: it dies with fewer
/// than two or more than three, lives with exactly three, and stays as it is
/// with exactly two.
pub fn next_state(alive: bool, neighbours: usize) -> (next: bool)
    ensures
        next == next_alive(alive, neighbours as nat),
{
    if neighbours < 2 || neighbours > 3 {
        false
    } else if neighbours == 3 {
        true
    } else {
        alive
    }
}

/// Advances the grid by one generation. Every cell with both coordinates
/// below `grid_size` is judged by the neighbours it had before the step, so no
/// cell sees a neighbour that has already moved on. The grid is marked as
/// changed.
pub fn step_grid(grid: &mut GridState, grid_size: usize)
    requires
        old(grid).wf(),
        grid_size <= old(grid).dim(),
    ensures
        final(grid).wf(),
        final(grid)@ == step_cells(old(grid)@, grid_size as int),
        final(grid).changed(),
{
    let mut new_grid = grid.clone();

    let mut row: usize = 0;
    while row < grid_size
        invariant
            grid.wf(),
            new_grid.wf(),
            new_grid.dim() == grid.dim(),
            row <= grid_size <= grid.dim(),
            forall|r: int, c: int|
                0 <= r < grid.dim() && 0 <= c < grid.dim() ==> (#[trigger] new_grid@[r][c]) == (if r
                    < row && c < grid_size {
                    next_alive(grid@[r][c], live_neighbours(grid@, r, c))
                } else {
                    grid@[r][c]
                }),
        decreases grid_size - row,
    {
        let mut col: usize = 0;
        while col < grid_size
            invariant
                grid.wf(),
                new_grid.wf(),
                new_grid.dim() == grid.dim(),
                row < grid_size <= grid.dim(),
                col <= grid_size,
                forall|r: int, c: int|
                    0 <= r < grid.dim() && 0 <= c < grid.dim() ==> (#[trigger] new_grid@[r][c])
                        == (if (r < row && c < grid_size) || (r == row && c < col) {
                        next_alive(grid@[r][c], live_neighbours(grid@, r, c))
                    } else {
                        grid@[r][c]
                    }),
            decreases grid_size - col,
        {
            let neighbours = grid.neighbours(row, col);
            let alive = *grid.at(row, col);
            assert(new_grid@[row as int].len() == new_grid.dim());
            new_grid.set(row, col, next_state(alive, neighbours));
            col += 1;
        }
        row += 1;
    }

    new_grid.set_changed();
    proof {
        let target = step_cells(grid@, grid_size as int);
        assert(new_grid@ =~= target) by {
            assert forall|r: int| 0 <= r < grid.dim() implies #[trigger] new_grid@[r]
                =~= target[r] by {
                assert(grid@[r].len() == grid.dim());
                assert(new_grid@[r].len() == grid.dim());
            }
        }
    }
    *grid = new_grid;
}

} // verus!
