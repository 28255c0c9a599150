//! Conway's Game of Life on a square, resizable, non-wrapping grid.
//!
//! [`GridState`] holds the cells, [`step_grid`] advances them by one
//! generation, and [`Simulation`] is the clock that says when to do so. The
//! module [`life`] holds the mathematical model that every contract is stated
//! over, and the laws that follow from it.

pub mod cell;
pub mod clock;
pub mod controls;
pub mod grid;
pub mod life;
pub mod step;

pub use cell::{
    out_cell, over_cell, press_cell, spawn_grid_cells, sync_cells, sync_cells_on_change,
    toggle_cell_alive, Cell,
};
pub use clock::{simulate, Simulation, TICK_PERIOD_NANOS};
pub use controls::{grid_controls, rebuild_grid_on_resize, setup_grid, Command, STARTING_GRID_SIZE};
pub use grid::{GridSize, GridState};
pub use step::{next_state, step_grid};
