use game_of_life::{
    out_cell, over_cell, press_cell, spawn_grid_cells, sync_cells, sync_cells_on_change,
    toggle_cell_alive, Cell, GridSize, GridState,
};

fn diagonal(n: usize) -> GridState {
    let mut grid = GridState::new(&GridSize(n));
    for i in 0..n {
        grid.set(i, i, true);
    }
    grid.clear_changed();
    grid
}

#[test]
fn new_cell_is_not_hovered() {
    let cell = Cell::new(2, 3, true);
    assert_eq!(cell, Cell { row: 2, col: 3, alive: true, hovered: false });
}

#[test]
fn spawned_cells_come_row_by_row_and_show_the_grid() {
    let grid = diagonal(3);
    let cells = spawn_grid_cells(3, &grid);
    assert_eq!(cells.len(), 9);
    for (i, cell) in cells.iter().enumerate() {
        assert_eq!(cell.row, i / 3);
        assert_eq!(cell.col, i % 3);
        assert_eq!(cell.alive, i / 3 == i % 3);
        assert!(!cell.hovered);
    }
    assert_eq!(cells[5], Cell::new(1, 2, false));
    assert_eq!(cells[8], Cell::new(2, 2, true));
}

#[test]
fn spawning_for_no_cells_gives_none() {
    let grid = GridState::new(&GridSize(0));
    assert!(spawn_grid_cells(0, &grid).is_empty());
    let grid = diagonal(4);
    assert!(spawn_grid_cells(0, &grid).is_empty());
}

#[test]
fn spawning_for_a_part_of_the_grid() {
    let grid = diagonal(4);
    let cells = spawn_grid_cells(2, &grid);
    assert_eq!(
        cells,
        vec![
            Cell::new(0, 0, true),
            Cell::new(0, 1, false),
            Cell::new(1, 0, false),
            Cell::new(1, 1, true),
        ]
    );
}

#[test]
fn cell_sync_takes_the_liveness_of_the_grid() {
    let grid = diagonal(2);
    let mut cell = Cell { row: 1, col: 1, alive: false, hovered: true };
    cell.sync(&grid);
    assert_eq!(cell, Cell { row: 1, col: 1, alive: true, hovered: true });
    let mut other = Cell::new(0, 1, true);
    other.sync(&grid);
    assert_eq!(other, Cell::new(0, 1, false));
}

#[test]
fn sync_cells_follows_a_changed_grid_and_clears_the_mark() {
    let mut grid = diagonal(2);
    let mut cells = spawn_grid_cells(2, &grid);
    cells[3].hovered = true;
    grid.set(0, 1, true);
    grid.set(1, 1, false);
    assert!(grid.is_changed());
    sync_cells(&mut cells, &mut grid);
    assert!(!grid.is_changed());
    assert_eq!(
        cells,
        vec![
            Cell::new(0, 0, true),
            Cell::new(0, 1, true),
            Cell::new(1, 0, false),
            Cell { row: 1, col: 1, alive: false, hovered: true },
        ]
    );
    assert!(*grid.at(0, 1));
    assert!(!*grid.at(1, 1));
}

#[test]
fn sync_cells_follows_the_grid_without_a_mark() {
    let mut grid = diagonal(2);
    assert!(!grid.is_changed());
    let mut cells = vec![
        Cell::new(0, 0, false),
        Cell { row: 0, col: 1, alive: true, hovered: true },
        Cell::new(1, 1, true),
    ];
    sync_cells(&mut cells, &mut grid);
    assert_eq!(
        cells,
        vec![
            Cell::new(0, 0, true),
            Cell { row: 0, col: 1, alive: false, hovered: true },
            Cell::new(1, 1, true),
        ]
    );
    assert!(!grid.is_changed());
    assert!(*grid.at(0, 0) && !*grid.at(0, 1) && !*grid.at(1, 0) && *grid.at(1, 1));
}

#[test]
fn sync_cells_brings_a_stale_record_of_a_new_grid_up_to_date() {
    let mut grid = GridState::new(&GridSize(1));
    let mut cells = vec![Cell::new(0, 0, true)];
    sync_cells(&mut cells, &mut grid);
    assert_eq!(cells, vec![Cell::new(0, 0, false)]);
    assert!(!*grid.at(0, 0));
}

#[test]
fn sync_cells_follows_a_write_whose_mark_was_cleared() {
    let mut grid = GridState::new(&GridSize(2));
    let mut cells = spawn_grid_cells(2, &grid);
    grid.set(0, 0, true);
    grid.clear_changed();
    sync_cells(&mut cells, &mut grid);
    assert_eq!(cells[0], Cell::new(0, 0, true));
    assert_eq!(cells[1], Cell::new(0, 1, false));
    assert!(*grid.at(0, 0));
}

#[test]
fn sync_cells_with_no_records() {
    let mut grid = diagonal(2);
    grid.set_changed();
    let mut cells: Vec<Cell> = Vec::new();
    sync_cells(&mut cells, &mut grid);
    assert!(cells.is_empty());
    assert!(!grid.is_changed());
}

#[test]
fn sync_on_change_does_nothing_without_a_mark() {
    let mut grid = diagonal(2);
    let mut cells = vec![Cell::new(0, 0, false), Cell::new(0, 1, true)];
    assert!(!sync_cells_on_change(&mut cells, &mut grid));
    assert_eq!(cells, vec![Cell::new(0, 0, false), Cell::new(0, 1, true)]);
    assert!(!grid.is_changed());
}

#[test]
fn sync_on_change_follows_a_marked_grid_once() {
    let mut grid = diagonal(2);
    let mut cells = vec![Cell::new(0, 0, false), Cell::new(0, 1, true)];
    grid.set(1, 0, true);
    assert!(sync_cells_on_change(&mut cells, &mut grid));
    assert_eq!(cells, vec![Cell::new(0, 0, true), Cell::new(0, 1, false)]);
    assert!(!grid.is_changed());
    assert!(*grid.at(1, 0));
    cells[0].alive = false;
    assert!(!sync_cells_on_change(&mut cells, &mut grid));
    assert_eq!(cells[0], Cell::new(0, 0, false));
}

#[test]
fn record_knows_whether_it_is_on_the_grid() {
    let grid = GridState::new(&GridSize(3));
    assert!(Cell::new(0, 0, false).is_on_grid(&grid));
    assert!(Cell::new(2, 2, true).is_on_grid(&grid));
    assert!(!Cell::new(3, 0, false).is_on_grid(&grid));
    assert!(!Cell::new(0, 3, false).is_on_grid(&grid));
    assert!(!Cell::new(0, 0, false).is_on_grid(&GridState::new(&GridSize(0))));
}

#[test]
fn toggle_writes_grid_and_record() {
    let mut grid = GridState::new(&GridSize(3));
    let mut cell = Cell::new(2, 1, false);
    toggle_cell_alive(&mut cell, true, &mut grid);
    assert!(cell.alive);
    assert!(*grid.at(2, 1));
    assert!(grid.is_changed());
    toggle_cell_alive(&mut cell, false, &mut grid);
    assert!(!cell.alive);
    assert!(!*grid.at(2, 1));
    assert_eq!((cell.row, cell.col, cell.hovered), (2, 1, false));
}

#[test]
fn left_press_gives_life() {
    let mut grid = GridState::new(&GridSize(3));
    let mut cell = Cell::new(0, 2, false);
    press_cell(&mut cell, true, false, &mut grid);
    assert_eq!(cell, Cell::new(0, 2, true));
    assert!(*grid.at(0, 2));
    assert!(grid.is_changed());
}

#[test]
fn right_press_takes_life() {
    let mut grid = diagonal(3);
    let mut cell = Cell::new(1, 1, true);
    press_cell(&mut cell, false, true, &mut grid);
    assert_eq!(cell, Cell::new(1, 1, false));
    assert!(!*grid.at(1, 1));
    assert!(grid.is_changed());
}

#[test]
fn left_button_wins_over_right() {
    let mut grid = GridState::new(&GridSize(2));
    let mut cell = Cell::new(1, 0, false);
    press_cell(&mut cell, true, true, &mut grid);
    assert!(cell.alive);
    assert!(*grid.at(1, 0));
}

#[test]
fn press_without_a_button_changes_nothing() {
    let mut grid = diagonal(2);
    let mut cell = Cell::new(1, 1, true);
    press_cell(&mut cell, false, false, &mut grid);
    assert_eq!(cell, Cell::new(1, 1, true));
    assert!(*grid.at(1, 1));
    assert!(!grid.is_changed());
}

#[test]
fn hover_alone_does_not_paint() {
    let mut grid = diagonal(2);
    let mut cell = Cell::new(0, 1, false);
    over_cell(&mut cell, false, false, &mut grid);
    assert_eq!(cell, Cell { row: 0, col: 1, alive: false, hovered: true });
    assert!(!*grid.at(0, 1));
    assert!(!grid.is_changed());
}

#[test]
fn drag_paints_every_cell_it_crosses() {
    let mut grid = GridState::new(&GridSize(3));
    let mut cells = spawn_grid_cells(3, &grid);
    for i in [3usize, 4, 5] {
        over_cell(&mut cells[i], true, false, &mut grid);
        out_cell(&mut cells[i]);
    }
    for c in 0..3 {
        assert!(*grid.at(1, c));
        assert!(cells[3 + c].alive);
        assert!(!cells[3 + c].hovered);
    }
    over_cell(&mut cells[4], false, true, &mut grid);
    assert!(!*grid.at(1, 1));
    assert_eq!(cells[4], Cell { row: 1, col: 1, alive: false, hovered: true });
    assert_eq!(grid.neighbours(1, 1), 2);
}

#[test]
fn leaving_a_cell_ends_the_hover() {
    let mut cell = Cell { row: 4, col: 5, alive: true, hovered: true };
    out_cell(&mut cell);
    assert_eq!(cell, Cell::new(4, 5, true));
    out_cell(&mut cell);
    assert_eq!(cell, Cell::new(4, 5, true));
}
