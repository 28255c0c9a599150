use game_of_life::{
    grid_controls, simulate, step_grid, Command, GridSize, GridState, Simulation,
    TICK_PERIOD_NANOS,
};

const MILLI: u64 = 1_000_000;

fn blinker() -> GridState {
    let mut grid = GridState::new(&GridSize(3));
    grid.set(1, 0, true);
    grid.set(1, 1, true);
    grid.set(1, 2, true);
    grid.clear_changed();
    grid
}

fn is_horizontal(grid: &GridState) -> bool {
    *grid.at(1, 0) && *grid.at(1, 1) && *grid.at(1, 2) && !*grid.at(0, 1) && !*grid.at(2, 1)
}

fn is_vertical(grid: &GridState) -> bool {
    *grid.at(0, 1) && *grid.at(1, 1) && *grid.at(2, 1) && !*grid.at(1, 0) && !*grid.at(1, 2)
}

#[test]
fn tick_period_is_a_fifth_of_a_second() {
    assert_eq!(TICK_PERIOD_NANOS, 200 * MILLI);
}

#[test]
fn new_clock_is_stopped_with_no_time_on_it() {
    let sim = Simulation::new();
    assert!(!sim.is_running());
    assert_eq!(sim.elapsed_nanos(), 0);
}

#[test]
fn run_and_pause_switch_the_flag() {
    let mut sim = Simulation::new();
    sim.run();
    assert!(sim.is_running());
    sim.run();
    assert!(sim.is_running());
    sim.pause();
    assert!(!sim.is_running());
    sim.pause();
    assert!(!sim.is_running());
}

#[test]
fn tick_counts_full_periods_and_keeps_the_rest() {
    let mut sim = Simulation::new();
    assert_eq!(sim.tick(150 * MILLI), 0);
    assert_eq!(sim.elapsed_nanos(), 150 * MILLI);
    assert_eq!(sim.tick(50 * MILLI), 1);
    assert_eq!(sim.elapsed_nanos(), 0);
    assert_eq!(sim.tick(199_999_999), 0);
    assert_eq!(sim.elapsed_nanos(), 199_999_999);
    assert_eq!(sim.tick(1), 1);
    assert_eq!(sim.elapsed_nanos(), 0);
    assert_eq!(sim.tick(0), 0);
    assert_eq!(sim.elapsed_nanos(), 0);
}

#[test]
fn tick_counts_every_period_of_a_long_delta() {
    let mut sim = Simulation::new();
    assert_eq!(sim.tick(1_250 * MILLI), 6);
    assert_eq!(sim.elapsed_nanos(), 50 * MILLI);
    assert_eq!(sim.tick(1_150 * MILLI), 6);
    assert_eq!(sim.elapsed_nanos(), 0);
}

#[test]
fn tick_takes_the_longest_delta() {
    let mut sim = Simulation::new();
    assert_eq!(sim.tick(123_456_789), 0);
    let total = 123_456_789u128 + u64::MAX as u128;
    let periods = sim.tick(u64::MAX);
    assert_eq!(periods as u128, total / TICK_PERIOD_NANOS as u128);
    assert_eq!(periods, 92_233_720_369);
    assert_eq!(sim.elapsed_nanos() as u128, total % TICK_PERIOD_NANOS as u128);
    assert_eq!(sim.elapsed_nanos(), 33_008_404);
}

#[test]
fn tick_just_past_what_the_timer_counts_in_one_piece() {
    let mut sim = Simulation::new();
    let limit = u32::MAX as u64 * TICK_PERIOD_NANOS;
    assert_eq!(sim.tick(limit), u32::MAX as u64);
    assert_eq!(sim.elapsed_nanos(), 0);
    assert_eq!(sim.tick(limit + TICK_PERIOD_NANOS + 7), u32::MAX as u64 + 1);
    assert_eq!(sim.elapsed_nanos(), 7);
}

#[test]
fn time_in_two_pieces_counts_as_in_one() {
    let mut split = Simulation::new();
    let mut whole = Simulation::new();
    let first = 730 * MILLI + 11;
    let second = 1_490 * MILLI + 989;
    let in_pieces = split.tick(first) + split.tick(second);
    assert_eq!(in_pieces, whole.tick(first + second));
    assert_eq!(in_pieces, 11);
    assert_eq!(split.elapsed_nanos(), whole.elapsed_nanos());
    assert_eq!(split.elapsed_nanos(), 20 * MILLI + 1_000);
}

#[test]
fn clock_is_due_when_a_period_would_elapse() {
    let mut sim = Simulation::new();
    assert!(!sim.is_due(0));
    assert!(!sim.is_due(199_999_999));
    assert!(sim.is_due(200_000_000));
    assert!(sim.is_due(u64::MAX));
    sim.tick(150 * MILLI);
    assert!(!sim.is_due(50 * MILLI - 1));
    assert!(sim.is_due(50 * MILLI));
    assert_eq!(sim.elapsed_nanos(), 150 * MILLI);
}

#[test]
fn tick_leaves_the_flag_alone() {
    let mut sim = Simulation::new();
    sim.tick(500 * MILLI);
    assert!(!sim.is_running());
    sim.run();
    sim.tick(500 * MILLI);
    assert!(sim.is_running());
}

#[test]
fn step_request_while_stopped_advances_one_generation() {
    let mut grid = blinker();
    let mut size = GridSize(3);
    let mut sim = Simulation::new();
    grid_controls(Command::Step, &mut grid, &mut size, &mut sim);
    assert!(is_vertical(&grid));
    assert!(!sim.is_running());
    assert_eq!(sim.elapsed_nanos(), 0);
    assert_eq!(size, GridSize(3));
    let mut expected = blinker();
    step_grid(&mut expected, 3);
    for r in 0..3 {
        for c in 0..3 {
            assert_eq!(*grid.at(r, c), *expected.at(r, c));
        }
    }
}

#[test]
fn step_request_while_running_advances_one_generation() {
    let mut grid = blinker();
    let mut size = GridSize(3);
    let mut sim = Simulation::new();
    sim.run();
    grid_controls(Command::Step, &mut grid, &mut size, &mut sim);
    assert!(is_vertical(&grid));
    assert!(sim.is_running());
}

#[test]
fn stopped_simulation_lets_time_go_by() {
    let mut grid = blinker();
    let size = GridSize(3);
    let mut sim = Simulation::new();
    assert_eq!(simulate(1_000 * MILLI, &mut sim, &mut grid, &size), 0);
    assert!(is_horizontal(&grid));
    assert!(!grid.is_changed());
    assert_eq!(sim.elapsed_nanos(), 0);
    assert!(!sim.is_running());
}

#[test]
fn running_simulation_steps_once_per_period() {
    let mut grid = blinker();
    let mut size = GridSize(3);
    let mut sim = Simulation::new();
    grid_controls(Command::Run, &mut grid, &mut size, &mut sim);
    assert!(sim.is_running());

    assert_eq!(simulate(100 * MILLI, &mut sim, &mut grid, &size), 0);
    assert!(is_horizontal(&grid));
    assert!(!grid.is_changed());

    assert_eq!(simulate(100 * MILLI, &mut sim, &mut grid, &size), 1);
    assert!(is_vertical(&grid));
    assert!(grid.is_changed());

    assert_eq!(simulate(200 * MILLI, &mut sim, &mut grid, &size), 1);
    assert!(is_horizontal(&grid));

    assert_eq!(simulate(199 * MILLI, &mut sim, &mut grid, &size), 0);
    assert!(is_horizontal(&grid));
    assert_eq!(simulate(MILLI, &mut sim, &mut grid, &size), 1);
    assert!(is_vertical(&grid));
    assert_eq!(sim.elapsed_nanos(), 0);
}

#[test]
fn running_simulation_catches_up_on_every_period() {
    let mut grid = blinker();
    let size = GridSize(3);
    let mut sim = Simulation::new();
    sim.run();
    assert_eq!(simulate(650 * MILLI, &mut sim, &mut grid, &size), 3);
    assert!(is_vertical(&grid));
    assert_eq!(sim.elapsed_nanos(), 50 * MILLI);
    assert_eq!(simulate(750 * MILLI, &mut sim, &mut grid, &size), 4);
    assert!(is_vertical(&grid));
    assert_eq!(sim.elapsed_nanos(), 0);
    assert_eq!(simulate(1_000 * MILLI, &mut sim, &mut grid, &size), 5);
    assert!(is_horizontal(&grid));
}

#[test]
fn pause_keeps_the_time_on_the_clock() {
    let mut grid = blinker();
    let mut size = GridSize(3);
    let mut sim = Simulation::new();
    sim.run();
    simulate(150 * MILLI, &mut sim, &mut grid, &size);
    grid_controls(Command::Pause, &mut grid, &mut size, &mut sim);
    assert!(!sim.is_running());
    assert_eq!(sim.elapsed_nanos(), 150 * MILLI);
    assert_eq!(simulate(500 * MILLI, &mut sim, &mut grid, &size), 0);
    assert_eq!(sim.elapsed_nanos(), 150 * MILLI);
    grid_controls(Command::Run, &mut grid, &mut size, &mut sim);
    assert_eq!(simulate(50 * MILLI, &mut sim, &mut grid, &size), 1);
    assert!(is_vertical(&grid));
}
