//! The shared optimizer state and the decisions that serialize work on it.
//!
//! The state is meant to sit behind one mutual-exclusion lock; every method here is
//! one short critical section. The caller performs the actions that the methods
//! decide on (spawning a worker or a background loop, computing a generation,
//! sleeping) outside the lock.
use crate::advance::GaParams;
use crate::chromosome::MAX_GENE_VALUE;
use crate::population::{evaluated_by, Population};
use vstd::prelude::*;

verus! {

/// The three coordination flags.
#[derive(Clone, Copy, Debug, PartialEq, Eq)]
pub struct Flags {
    /// A generation is being computed.
    pub running: bool,
    /// The background loop should keep advancing.
    pub auto_active: bool,
    /// A background loop is alive.
    pub auto_thread_running: bool,
}

/// An advance may start on demand.
pub open spec fn can_begin(f: Flags) -> bool {
    !f.running
}

/// Flags after an on-demand advance was asked for.
pub open spec fn after_begin(f: Flags) -> Flags {
    if can_begin(f) {
        Flags { running: true, ..f }
    } else {
        f
    }
}

/// Flags after an advance has been published.
pub open spec fn after_finish(f: Flags) -> Flags {
    Flags { running: false, ..f }
}

/// Toggling auto mode starts a new background loop.
pub open spec fn toggle_spawns(f: Flags) -> bool {
    !f.auto_active && !f.auto_thread_running
}

/// Flags after auto mode was toggled.
pub open spec fn after_toggle(f: Flags) -> Flags {
    Flags {
        auto_active: !f.auto_active,
        auto_thread_running: f.auto_thread_running || toggle_spawns(f),
        ..f
    }
}

/// The background loop starts an advance at this poll.
pub open spec fn poll_starts(f: Flags) -> bool {
    f.auto_active && !f.running
}

/// Flags after a poll of the background loop.
pub open spec fn after_poll(f: Flags) -> Flags {
    if poll_starts(f) {
        Flags { running: true, ..f }
    } else {
        f
    }
}

/// The background loop goes on after its check.
pub open spec fn loop_continues(f: Flags) -> bool {
    f.auto_active
}

/// Flags after the background loop's end-of-round check.
pub open spec fn after_loop_check(f: Flags) -> Flags {
    if loop_continues(f) {
        f
    } else {
        Flags { auto_thread_running: false, ..f }
    }
}

/// Flags after `n` toggles of auto mode.
pub open spec fn after_toggles(f: Flags, n: nat) -> Flags
    decreases n,
{
    if n == 0 {
        f
    } else {
        after_toggle(after_toggles(f, (n - 1) as nat))
    }
}

/// Some toggle among the first `n` starts a background loop.
pub open spec fn some_toggle_spawns(f: Flags, n: nat) -> bool
    decreases n,
{
    if n == 0 {
        false
    } else {
        some_toggle_spawns(f, (n - 1) as nat) || toggle_spawns(after_toggles(f, (n - 1) as nat))
    }
}

/// What a worker needs to compute the next generation.
#[derive(Clone, Debug)]
pub struct AdvanceJob {
    pub population: Population,
    pub params: GaParams,
}

/// A consistent copy of what an observer displays.
#[derive(Clone, Debug)]
pub struct Snapshot {
    pub population: Population,
    pub running: bool,
    pub auto_active: bool,
}

/// The single source of truth shared by the display and the workers.
#[derive(Debug)]
pub struct OptimizerState {
    pub population: Population,
    pub params: GaParams,
    pub running: bool,
    pub auto_active: bool,
    pub auto_thread_running: bool,
}

/// `p` is an exact copy of `q`.
pub open spec fn same_population(p: Population, q: Population) -> bool {
    p.generation == q.generation && p.chromosomes@.len() == q.chromosomes@.len() && forall|i: int|
        0 <= i < q.chromosomes@.len() ==> #[trigger] p.chromosomes@[i].same_as(q.chromosomes@[i])
}

impl OptimizerState {
    pub open spec fn flags(&self) -> Flags {
        Flags {
            running: self.running,
            auto_active: self.auto_active,
            auto_thread_running: self.auto_thread_running,
        }
    }

    /// A non-empty sorted population and valid parameters.
    pub open spec fn wf(&self) -> bool {
        self.population.wf() && self.population.chromosomes@.len() >= 1 && self.params.wf()
    }

    /// A job `j` may be handed to the advancer.
    pub open spec fn job_of(&self, j: AdvanceJob) -> bool {
        same_population(j.population, self.population) && j.params == self.params
            && j.population.wf() && j.population.chromosomes@.len() >= 1 && j.params.wf()
    }

    /// Idle state around a first population.
    pub fn new(population: Population, params: GaParams) -> (r: OptimizerState)
        requires
            population.wf(),
            population.chromosomes@.len() >= 1,
            params.wf(),
        ensures
            r.wf(),
            r.population == population,
            r.params == params,
            !r.running && !r.auto_active && !r.auto_thread_running,
    {
        OptimizerState {
            population,
            params,
            running: false,
            auto_active: false,
            auto_thread_running: false,
        }
    }

    fn job(&self) -> (j: AdvanceJob)
        requires
            self.wf(),
        ensures
            self.job_of(j),
    {
        AdvanceJob { population: self.population.duplicate(), params: self.params }
    }

    /// Asks for one on-demand advance. Unless one is already in flight, marks the
    /// state as running and returns the job to compute outside the lock; the result
    /// goes back through [`OptimizerState::finish_advance`].
    pub fn begin_advance(&mut self) -> (r: Option<AdvanceJob>)
        requires
            old(self).wf(),
        ensures
            final(self).wf(),
            final(self).flags() == after_begin(old(self).flags()),
            final(self).population == old(self).population,
            final(self).params == old(self).params,
            r.is_some() == can_begin(old(self).flags()),
            r matches Some(j) ==> old(self).job_of(j),
    {
        if self.running {
            None
        } else {
            self.running = true;
            Some(self.job())
        }
    }

    /// Publishes a computed generation and clears the running flag.
    pub fn finish_advance(&mut self, next: Population)
        requires
            old(self).wf(),
            next.wf(),
            next.chromosomes@.len() >= 1,
        ensures
            final(self).wf(),
            final(self).flags() == after_finish(old(self).flags()),
            final(self).population == next,
            final(self).params == old(self).params,
    {
        self.population = next;
        self.running = false;
    }

    /// Flips auto mode. Returns whether the caller must start a background loop:
    /// only when auto mode turns on and no loop is alive.
    pub fn toggle_auto(&mut self) -> (spawn: bool)
        requires
            old(self).wf(),
        ensures
            final(self).wf(),
            final(self).flags() == after_toggle(old(self).flags()),
            final(self).population == old(self).population,
            final(self).params == old(self).params,
            spawn == toggle_spawns(old(self).flags()),
    {
        self.auto_active = !self.auto_active;
        let spawn = self.auto_active && !self.auto_thread_running;
        if spawn {
            self.auto_thread_running = true;
        }
        spawn
    }

    /// The background loop's poll: when auto mode is on and nothing is running,
    /// marks the state as running and returns the job to compute.
    pub fn auto_poll(&mut self) -> (r: Option<AdvanceJob>)
        requires
            old(self).wf(),
        ensures
            final(self).wf(),
            final(self).flags() == after_poll(old(self).flags()),
            final(self).population == old(self).population,
            final(self).params == old(self).params,
            r.is_some() == poll_starts(old(self).flags()),
            r matches Some(j) ==> old(self).job_of(j),
    {
        if self.auto_active && !self.running {
            self.running = true;
            Some(self.job())
        } else {
            None
        }
    }

    /// The background loop's end-of-round check: it goes on while auto mode is on;
    /// otherwise it records that no loop is alive and the loop must end.
    pub fn auto_loop_continues(&mut self) -> (go_on: bool)
        requires
            old(self).wf(),
        ensures
            final(self).wf(),
            final(self).flags() == after_loop_check(old(self).flags()),
            final(self).population == old(self).population,
            final(self).params == old(self).params,
            go_on == loop_continues(old(self).flags()),
    {
        if self.auto_active {
            true
        } else {
            self.auto_thread_running = false;
            false
        }
    }

    /// Replaces the population by a fresh random one at generation 0 of the current
    /// size, unless an advance is in flight (then nothing changes and `false` comes back).
    pub fn reset<F: Fn(u64) -> u64>(&mut self, seed: u64, objective: &F) -> (done: bool)
        requires
            old(self).wf(),
            forall|v: u64| v <= MAX_GENE_VALUE ==> #[trigger] objective.requires((v,)),
        ensures
            final(self).wf(),
            final(self).flags() == old(self).flags(),
            final(self).params == old(self).params,
            done == !old(self).running,
            done ==> final(self).population.generation == 0
                && final(self).population.chromosomes@.len() == old(self).params.pop_size,
            done ==> forall|i: int|
                0 <= i < final(self).population.chromosomes@.len() ==> evaluated_by(
                    #[trigger] final(self).population.chromosomes@[i],
                    *objective,
                ),
            !done ==> final(self).population == old(self).population,
    {
        if self.running {
            false
        } else {
            self.population = Population::random(self.params.pop_size, seed, objective);
            true
        }
    }

    /// Replaces the parameters; the next advance uses them.
    pub fn set_parameters(&mut self, params: GaParams)
        requires
            old(self).wf(),
            params.wf(),
        ensures
            final(self).wf(),
            final(self).params == params,
            final(self).flags() == old(self).flags(),
            final(self).population == old(self).population,
    {
        self.params = params;
    }

    /// A consistent copy of the population and the two flags an observer shows.
    pub fn snapshot(&self) -> (s: Snapshot)
        ensures
            same_population(s.population, self.population),
            s.running == self.running,
            s.auto_active == self.auto_active,
    {
        Snapshot {
            population: self.population.duplicate(),
            running: self.running,
            auto_active: self.auto_active,
        }
    }
}

/// While an advance is in flight no other can start, on demand or from the
/// background loop; starting one leaves the state running, and only publishing a
/// result clears it.
pub proof fn lemma_single_flight(f: Flags)
    ensures
        f.running ==> !can_begin(f) && !poll_starts(f),
        after_begin(f).running,
        after_poll(f).running == (f.running || poll_starts(f)),
        !can_begin(after_begin(f)) && !poll_starts(after_begin(f)),
        poll_starts(f) ==> !can_begin(after_poll(f)) && !poll_starts(after_poll(f)),
        after_toggle(f).running == f.running,
        after_loop_check(f).running == f.running,
        !after_finish(f).running,
{
}

/// Toggling never starts a second background loop: while one is alive, any number
/// of toggles starts none and it stays recorded as alive; a toggle starts one only
/// when none is alive.
pub proof fn lemma_single_auto_loop(f: Flags, n: nat)
    ensures
        toggle_spawns(f) ==> !f.auto_thread_running,
        f.auto_thread_running ==> !some_toggle_spawns(f, n) && after_toggles(
            f,
            n,
        ).auto_thread_running,
    decreases n,
{
    if n > 0 {
        lemma_single_auto_loop(f, (n - 1) as nat);
    }
}

/// Toggling auto on, off and on again in quick succession, before the loop has
/// seen the flag, starts exactly one loop.
pub proof fn lemma_quick_retoggle(f: Flags)
    requires
        toggle_spawns(f),
    ensures
        !toggle_spawns(after_toggle(f)),
        !toggle_spawns(after_toggle(after_toggle(f))),
        after_toggle(after_toggle(after_toggle(f))).auto_active,
        after_toggle(after_toggle(after_toggle(f))).auto_thread_running,
{
}

} // verus!
