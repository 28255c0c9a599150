//! What the control surface asks of the simulation, and how the grid follows
//! a change of the target dimension.

use vstd::prelude::*;
use crate::cell::{mirrors, spawn_grid_cells, Cell};
use crate::clock::Simulation;
use crate::grid::{GridSize, GridState};
use crate::life::{dead_grid, law_resize_to_own_dimension, resized, step_cells};
use crate::step::step_grid;

verus! {

/// The dimension of the grid at startup.
pub const STARTING_GRID_SIZE: usize = 10;

/// A request from the control surface.
#[derive(Clone, Copy, Debug, PartialEq, Eq)]
pub enum Command {
    /// Advance the grid by one generation, running or not.
    Step,
    /// Start the simulation.
    Run,
    /// Stop the simulation.
    Pause,
    /// Lower the target dimension by one, not below zero.
    Shrink,
    /// Raise the target dimension by one.
    Grow,
    /// Set the target dimension.
    Resize(usize),
}

/// The state at startup: the starting dimension, an all-dead grid of that
/// dimension, and the records of its cells.
pub fn setup_grid() -> (out: (GridSize, GridState, Vec<Cell>))
    ensures
        out.0.0 == STARTING_GRID_SIZE,
        out.1.wf(),
        out.1@ == dead_grid(STARTING_GRID_SIZE as nat),
        !out.1.changed(),
        out.2@.len() == STARTING_GRID_SIZE * STARTING_GRID_SIZE,
        forall|i: int|
            0 <= i < out.2@.len() ==> mirrors(
                #[trigger] out.2@[i],
                out.1@,
                i / (STARTING_GRID_SIZE as int),
                i % (STARTING_GRID_SIZE as int),
            ),
{
    let grid_size = GridSize(STARTING_GRID_SIZE);
    let grid = GridState::new(&grid_size);
    let cells = spawn_grid_cells(grid_size.0, &grid);
    (grid_size, grid, cells)
}

/// Lets the grid follow the target dimension. While the grid has the
/// dimension that `grid_size` holds there is no change to react to, and
/// nothing is returned. Otherwise the grid is resized, once, and the records
/// of its cells are made anew.
pub fn rebuild_grid_on_resize(grid_size: &GridSize, grid: &mut GridState) -> (rebuilt: Option<
    Vec<Cell>,
>)
    requires
        old(grid).wf(),
    ensures
        final(grid).wf(),
        final(grid)@ == resized(old(grid)@, grid_size.0 as nat),
        grid_size.0 == old(grid).dim() ==> rebuilt is None && *final(grid) == *old(grid),
        grid_size.0 != old(grid).dim() ==> rebuilt is Some && final(grid).changed(),
        match rebuilt {
            Some(cells) => {
                &&& cells@.len() == grid_size.0 * grid_size.0
                &&& forall|i: int|
                    0 <= i < cells@.len() ==> mirrors(
                        #[trigger] cells@[i],
                        final(grid)@,
                        i / (grid_size.0 as int),
                        i % (grid_size.0 as int),
                    )
            },
            None => true,
        },
{
    if grid_size.0 == grid.dimension() {
        proof {
            law_resize_to_own_dimension(grid@);
        }
        return None;
    }
    grid.resize(grid_size);
    Some(spawn_grid_cells(grid_size.0, grid))
}

/// Carries out one request of the control surface.
pub fn grid_controls(
    command: Command,
    grid: &mut GridState,
    grid_size: &mut GridSize,
    sim: &mut Simulation,
)
    requires
        old(grid).wf(),
        command is Step ==> old(grid_size).0 <= old(grid).dim(),
    ensures
        final(grid).wf(),
        match command {
            Command::Step => {
                &&& final(grid)@ == step_cells(old(grid)@, old(grid_size).0 as int)
                &&& final(grid).changed()
                &&& *final(grid_size) == *old(grid_size)
                &&& *final(sim) == *old(sim)
            },
            Command::Run => {
                &&& final(sim).running()
                &&& final(sim).elapsed() == old(sim).elapsed()
                &&& *final(grid) == *old(grid)
                &&& *final(grid_size) == *old(grid_size)
            },
            Command::Pause => {
                &&& !final(sim).running()
                &&& final(sim).elapsed() == old(sim).elapsed()
                &&& *final(grid) == *old(grid)
                &&& *final(grid_size) == *old(grid_size)
            },
            Command::Shrink => {
                &&& final(grid_size).0 == if old(grid_size).0 == 0 {
                    0
                } else {
                    old(grid_size).0 - 1
                }
                &&& *final(grid) == *old(grid)
                &&& *final(sim) == *old(sim)
            },
            Command::Grow => {
                &&& final(grid_size).0 == if old(grid_size).0 == usize::MAX {
                    usize::MAX as int
                } else {
                    old(grid_size).0 + 1
                }
                &&& *final(grid) == *old(grid)
                &&& *final(sim) == *old(sim)
            },
            Command::Resize(dimension) => {
                &&& final(grid_size).0 == dimension
                &&& *final(grid) == *old(grid)
                &&& *final(sim) == *old(sim)
            },
        },
{
    match command {
        Command::Step => {
            step_grid(grid, grid_size.0);
        },
        Command::Run => {
            sim.run();
        },
        Command::Pause => {
            sim.pause();
        },
        Command::Shrink => {
            grid_size.decrement();
        },
        Command::Grow => {
            grid_size.increment();
        },
        Command::Resize(dimension) => {
            grid_size.set_if_neq(GridSize(dimension));
        },
    }
}

} // verus!
