//! The simulation clock: a run flag and an accumulator of elapsed time that
//! releases one generation for every full tick period.

use bevy::time::{Timer, TimerMode};
use std::time::Duration;
use vstd::prelude::*;
use crate::grid::{GridSize, GridState};
use crate::life::step_many;
use crate::step::step_grid;

verus! {

/// The time between two generations while the simulation runs, in nanoseconds.
pub const TICK_PERIOD_NANOS: u64 = 200_000_000;

/// The longest time that is handed to the timer in one piece: with it, and
/// less than one period on the clock, fewer than 2^32 periods elapse.
const MAX_TIMER_DELTA_NANOS: u64 = 858_993_459_000_000_000;

/// The number of full periods that have elapsed once `delta` nanoseconds are
/// added to a clock that stands at `elapsed`.
pub open spec fn periods_elapsed(elapsed: nat, delta: nat) -> nat {
    (elapsed + delta) / (TICK_PERIOD_NANOS as nat)
}

/// Where the clock stands after those periods have been taken off.
pub open spec fn elapsed_after(elapsed: nat, delta: nat) -> nat {
    (elapsed + delta) % (TICK_PERIOD_NANOS as nat)
}

/// The clock of the simulation.
#[derive(Debug)]
pub struct Simulation {
    elapsed_nanos: u64,
    running: bool,
}

/// Runs a repeating `bevy::time::Timer` of the given period for one tick:
/// `Timer::new`, `Timer::set_elapsed` to put it at `elapsed_nanos`,
/// `Timer::tick` by `delta_nanos`, then `Timer::times_finished_this_tick` and
/// `Timer::elapsed`.
///
/// The contract claims what `Timer::tick` does to a repeating timer that is
/// not paused: the time on the timer and the delta are added up, the timer
/// reports how many times the period fits into the sum, and it keeps the
/// remainder. The timer counts in a `u32`, so the sum has to stay below 2^32
/// periods.
#[verifier::external_body]
fn timer_tick(period_nanos: u64, elapsed_nanos: u64, delta_nanos: u64) -> (out: (u32, u64))
    requires
        period_nanos > 0,
        elapsed_nanos + delta_nanos < 0x1_0000_0000 * period_nanos,
    ensures
        out.0 == (elapsed_nanos + delta_nanos) / (period_nanos as int),
        out.1 == (elapsed_nanos + delta_nanos) % (period_nanos as int),
{
    let mut timer = Timer::new(Duration::from_nanos(period_nanos), TimerMode::Repeating);
    timer.set_elapsed(Duration::from_nanos(elapsed_nanos));
    timer.tick(Duration::from_nanos(delta_nanos));
    (timer.times_finished_this_tick(), timer.elapsed().as_nanos() as u64)
}

/// Time is neither lost nor counted twice. The periods that elapse and the
/// time that stays on the clock make up the time that was on the clock and
/// the time that was added, and less than one period ever stays. Time that
/// arrives in two pieces releases as many periods, and leaves as much on the
/// clock, as the same time arriving in one piece.
pub proof fn law_no_period_lost(elapsed: nat, first: nat, second: nat)
    ensures
        periods_elapsed(elapsed, first) * TICK_PERIOD_NANOS + elapsed_after(elapsed, first)
            == elapsed + first,
        elapsed_after(elapsed, first) < TICK_PERIOD_NANOS,
        periods_elapsed(elapsed, first) + periods_elapsed(elapsed_after(elapsed, first), second)
            == periods_elapsed(elapsed, first + second),
        elapsed_after(elapsed_after(elapsed, first), second) == elapsed_after(
            elapsed,
            first + second,
        ),
{
}

impl Simulation {
    /// Whether the simulation is running.
    pub closed spec fn running(&self) -> bool {
        self.running
    }

    /// The time on the clock since the last full period, in nanoseconds.
    pub closed spec fn elapsed(&self) -> nat {
        self.elapsed_nanos as nat
    }

    /// Less than one period is on the clock.
    #[verifier::type_invariant]
    spec fn within_period(self) -> bool {
        self.elapsed_nanos < TICK_PERIOD_NANOS
    }

    /// A stopped clock with no time on it.
    pub fn new() -> (sim: Self)
        ensures
            !sim.running(),
            sim.elapsed() == 0,
    {
        Simulation { elapsed_nanos: 0, running: false }
    }

    /// Whether the simulation is running.
    pub fn is_running(&self) -> (running: bool)
        ensures
            running == self.running(),
    {
        self.running
    }

    /// The time on the clock since the last full period, in nanoseconds.
    pub fn elapsed_nanos(&self) -> (nanos: u64)
        ensures
            nanos == self.elapsed(),
            nanos < TICK_PERIOD_NANOS,
    {
        proof {
            use_type_invariant(self);
        }
        self.elapsed_nanos
    }

    /// Whether at least one full period would elapse if `delta_nanos` were
    /// added to the clock now. The clock stays as it is.
    pub fn is_due(&self, delta_nanos: u64) -> (due: bool)
        ensures
            due == (periods_elapsed(self.elapsed(), delta_nanos as nat) > 0),
    {
        proof {
            use_type_invariant(self);
        }
        delta_nanos >= TICK_PERIOD_NANOS - self.elapsed_nanos
    }

    /// Starts the simulation. The time on the clock stays.
    pub fn run(&mut self)
        ensures
            final(self).running(),
            final(self).elapsed() == old(self).elapsed(),
    {
        proof {
            use_type_invariant(&*self);
        }
        self.running = true;
    }

    /// Stops the simulation. The time on the clock stays.
    pub fn pause(&mut self)
        ensures
            !final(self).running(),
            final(self).elapsed() == old(self).elapsed(),
    {
        proof {
            use_type_invariant(&*self);
        }
        self.running = false;
    }

    /// Adds `delta_nanos` to the clock and returns the number of full periods
    /// that have elapsed with it. What is left of the last, unfinished period
    /// stays on the clock. No period is dropped, however long the delta.
    pub fn tick(&mut self, delta_nanos: u64) -> (periods: u64)
        ensures
            final(self).running() == old(self).running(),
            periods == periods_elapsed(old(self).elapsed(), delta_nanos as nat),
            final(self).elapsed() == elapsed_after(old(self).elapsed(), delta_nanos as nat),
    {
        proof {
            use_type_invariant(&*self);
        }
        let mut remaining = delta_nanos;
        let mut periods: u64 = 0;
        while remaining > MAX_TIMER_DELTA_NANOS
            invariant
                self.elapsed() < TICK_PERIOD_NANOS,
                self.running() == old(self).running(),
                remaining <= delta_nanos,
                periods + periods_elapsed(self.elapsed(), remaining as nat) == periods_elapsed(
                    old(self).elapsed(),
                    delta_nanos as nat,
                ),
                elapsed_after(self.elapsed(), remaining as nat) == elapsed_after(
                    old(self).elapsed(),
                    delta_nanos as nat,
                ),
            decreases remaining,
        {
            let (finished, elapsed) = timer_tick(
                TICK_PERIOD_NANOS,
                self.elapsed_nanos,
                MAX_TIMER_DELTA_NANOS,
            );
            periods = periods + finished as u64;
            self.elapsed_nanos = elapsed;
            remaining = remaining - MAX_TIMER_DELTA_NANOS;
        }
        let (finished, elapsed) = timer_tick(TICK_PERIOD_NANOS, self.elapsed_nanos, remaining);
        self.elapsed_nanos = elapsed;
        periods + finished as u64
    }
}

/// One pass of the clock. A stopped simulation lets the time go by: nothing
/// changes. A running one adds `delta_nanos` to its clock and advances the
/// grid by one generation for every full period that has elapsed.
pub fn simulate(
    delta_nanos: u64,
    sim: &mut Simulation,
    grid: &mut GridState,
    grid_size: &GridSize,
) -> (generations: u64)
    requires
        old(grid).wf(),
        old(sim).running() && periods_elapsed(old(sim).elapsed(), delta_nanos as nat) > 0
            ==> grid_size.0 <= old(grid).dim(),
    ensures
        final(grid).wf(),
        final(sim).running() == old(sim).running(),
        !old(sim).running() ==> generations == 0 && final(sim).elapsed() == old(sim).elapsed(),
        old(sim).running() ==> generations == periods_elapsed(
            old(sim).elapsed(),
            delta_nanos as nat,
        ) && final(sim).elapsed() == elapsed_after(old(sim).elapsed(), delta_nanos as nat),
        final(grid)@ == step_many(old(grid)@, grid_size.0 as int, generations as nat),
        final(grid).changed() == (old(grid).changed() || generations > 0),
{
    if !sim.is_running() {
        return 0;
    }
    let generations = sim.tick(delta_nanos);
    let mut done: u64 = 0;
    while done < generations
        invariant
            grid.wf(),
            done <= generations,
            grid.dim() == old(grid).dim(),
            generations > 0 ==> grid_size.0 <= grid.dim(),
            grid@ == step_many(old(grid)@, grid_size.0 as int, done as nat),
            grid.changed() == (old(grid).changed() || done > 0),
        decreases generations - done,
    {
        step_grid(grid, grid_size.0);
        done += 1;
    }
    generations
}

} // verus!
