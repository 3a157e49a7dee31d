use vstd::prelude::*;

use crate::plans::Plan;
use crate::target_sets::ResolvedTargetSet;
use crate::targets::Target;
use crate::tasks::{
    are_target_dependencies_completed, deps_complete, incomplete_after, lemma_last_index_of_bounds,
    dep_satisfied, task_complete, TaskProgress,
};

verus! {

/// The number of entries of `s` that are set.
pub open spec fn count_true(s: Seq<bool>) -> nat
    decreases s.len(),
{
    if s.len() == 0 {
        0
    } else {
        count_true(s.drop_last()) + if s.last() { 1nat } else { 0nat }
    }
}

proof fn lemma_count_update(s: Seq<bool>, i: int, v: bool)
    requires
        0 <= i < s.len(),
    ensures
        count_true(s.update(i, v)) == count_true(s) - (if s[i] { 1int } else { 0int }) + (if v { 1int } else { 0int }),
    decreases s.len(),
{
    if i == s.len() - 1 {
        assert(s.update(i, v).drop_last() =~= s.drop_last());
    } else {
        lemma_count_update(s.drop_last(), i, v);
        assert(s.update(i, v).drop_last() =~= s.drop_last().update(i, v));
    }
}

proof fn lemma_count_none(s: Seq<bool>)
    requires
        forall|i: int| 0 <= i < s.len() ==> !s[i],
    ensures
        count_true(s) == 0,
    decreases s.len(),
{
    if s.len() > 0 {
        lemma_count_none(s.drop_last());
    }
}

proof fn lemma_count_zero(s: Seq<bool>)
    requires
        count_true(s) == 0,
    ensures
        forall|i: int| 0 <= i < s.len() ==> !s[i],
    decreases s.len(),
{
    if s.len() > 0 {
        lemma_count_zero(s.drop_last());
        assert forall|i: int| 0 <= i < s.len() implies !s[i] by {
            if i < s.len() - 1 {
                assert(s[i] == s.drop_last()[i]);
            }
        }
    }
}

fn clear_all(v: &mut Vec<bool>)
    ensures
        final(v)@.len() == old(v)@.len(),
        forall|i: int| 0 <= i < old(v)@.len() ==> !#[trigger] final(v)@[i],
{
    let mut i: usize = 0;
    while i < v.len()
        invariant
            v@.len() == old(v)@.len(),
            i <= v@.len(),
            forall|u: int| 0 <= u < i ==> !#[trigger] v@[u],
        decreases v@.len() - i,
    {
        v.set(i, false);
        i = i + 1;
    }
}

fn all_false(n: usize) -> (r: Vec<bool>)
    ensures
        r@.len() == n,
        forall|i: int| 0 <= i < n ==> !r@[i],
{
    let mut r: Vec<bool> = Vec::new();
    while r.len() < n
        invariant
            r@.len() <= n,
            forall|i: int| 0 <= i < r@.len() ==> !r@[i],
        decreases n - r@.len(),
    {
        r.push(false);
    }
    r
}

/// How an all-targets run ended.
#[derive(Clone, Copy, Debug, PartialEq, Eq, Structural)]
pub enum RunOutcome {
    /// every target completed
    Success,
    /// fail-fast: this target failed first, and the run stopped dispatching
    TargetFailed(usize),
    /// keep-going: at least one target failed, and nothing more could be done
    SomeStepsFailed,
    /// targets remain that can never become ready
    CircularDependency,
}

/// What the driver of an all-targets run is to do next.
#[derive(Clone, Copy, Debug, PartialEq, Eq, Structural)]
pub enum RunAction {
    /// run the remaining incomplete steps of this target, in order, stopping at the first failure
    Start(usize),
    /// wait until a running target reports
    Wait,
    /// the run is over
    Finish(RunOutcome),
}

/// The scheduler of an all-targets run: wavefronts of ready targets,
/// dispatched up to a job limit, under a fail-fast or keep-going policy.
///
/// The driver asks `next_action` what to do, runs the targets it is told
/// to start, and reports each with `target_finished`.
pub struct AllTargetsRun {
    /// how many targets may run at once
    pub jobs: usize,
    /// whether failures let the other targets go on
    pub keep_going: bool,
    /// the targets that completed in this run
    pub finished: Vec<bool>,
    /// the targets that failed in this run
    pub failed: Vec<bool>,
    /// the targets running now
    pub running: Vec<bool>,
    /// how many targets are running now
    pub n_running: usize,
    /// the targets of the current wavefront that have not been started
    pub pending: Vec<bool>,
    /// fail-fast: the first target that failed
    pub first_failure: Option<usize>,
}

impl AllTargetsRun {
    /// The state is consistent for a set of `n` targets.
    pub open spec fn wf(&self, n: int) -> bool {
        &&& self.jobs >= 1
        &&& self.finished@.len() == n
        &&& self.failed@.len() == n
        &&& self.running@.len() == n
        &&& self.pending@.len() == n
        &&& self.n_running == count_true(self.running@)
        &&& self.n_running <= self.jobs
        &&& forall|t: int| 0 <= t < n && #[trigger] self.running@[t] ==> !self.finished@[t] && !self.failed@[t]
        &&& forall|t: int| 0 <= t < n && #[trigger] self.pending@[t] ==> !self.finished@[t] && !self.failed@[t] && !self.running@[t]
        &&& self.first_failure matches Some(f) ==> {
            &&& 0 <= f < n
            &&& self.failed@[f as int]
            &&& !self.keep_going
            &&& forall|t: int| 0 <= t < n ==> !#[trigger] self.pending@[t]
        }
    }

    /// Whether target `t` belongs to the next wavefront: not yet completed or
    /// failed in this run, with every dependency complete.
    pub open spec fn wave_member(&self, ts: Seq<Target>, p: TaskProgress, n_steps: int, t: int) -> bool {
        !self.finished@[t] && !self.failed@[t] && deps_complete(ts, p, n_steps, t)
    }

    /// How a run ends once no wavefront is left.
    pub open spec fn settled_outcome(&self) -> RunOutcome {
        if exists|t: int| 0 <= t < self.failed@.len() && #[trigger] self.failed@[t] {
            RunOutcome::SomeStepsFailed
        } else if exists|t: int| 0 <= t < self.finished@.len() && !#[trigger] self.finished@[t] {
            RunOutcome::CircularDependency
        } else {
            RunOutcome::Success
        }
    }

    /// A run over `n_targets` targets in which nothing has happened yet.
    pub fn new(n_targets: usize, jobs: usize, keep_going: bool) -> (r: AllTargetsRun)
        requires
            jobs >= 1,
        ensures
            r.wf(n_targets as int),
            r.jobs == jobs,
            r.keep_going == keep_going,
            r.n_running == 0,
            r.first_failure is None,
            forall|t: int| 0 <= t < n_targets ==> {
                &&& !r.finished@[t]
                &&& !r.failed@[t]
                &&& !r.running@[t]
                &&& !r.pending@[t]
            },
    {
        let running = all_false(n_targets);
        proof {
            lemma_count_none(running@);
        }
        AllTargetsRun {
            jobs,
            keep_going,
            finished: all_false(n_targets),
            failed: all_false(n_targets),
            running,
            n_running: 0,
            pending: all_false(n_targets),
            first_failure: None,
        }
    }

    fn compute_settled_outcome(&self) -> (r: RunOutcome)
        ensures
            r == self.settled_outcome(),
    {
        let mut i: usize = 0;
        while i < self.failed.len()
            invariant
                i <= self.failed@.len(),
                forall|t: int| 0 <= t < i ==> !self.failed@[t],
            decreases self.failed@.len() - i,
        {
            if self.failed[i] {
                return RunOutcome::SomeStepsFailed;
            }
            i = i + 1;
        }
        let mut j: usize = 0;
        while j < self.finished.len()
            invariant
                j <= self.finished@.len(),
                forall|t: int| 0 <= t < self.failed@.len() ==> !self.failed@[t],
                forall|t: int| 0 <= t < j ==> self.finished@[t],
            decreases self.finished@.len() - j,
        {
            if !self.finished[j] {
                return RunOutcome::CircularDependency;
            }
            j = j + 1;
        }
        RunOutcome::Success
    }

    fn start(&mut self, t: usize)
        requires
            old(self).wf(old(self).finished@.len() as int),
            t < old(self).finished@.len(),
            !old(self).running@[t as int],
            !old(self).pending@[t as int],
            !old(self).finished@[t as int],
            !old(self).failed@[t as int],
            old(self).n_running < old(self).jobs,
        ensures
            final(self).wf(old(self).finished@.len() as int),
            final(self).running@ == old(self).running@.update(t as int, true),
            final(self).n_running == old(self).n_running + 1,
            final(self).pending@ == old(self).pending@,
            final(self).finished@ == old(self).finished@,
            final(self).failed@ == old(self).failed@,
            final(self).first_failure == old(self).first_failure,
            final(self).jobs == old(self).jobs,
            final(self).keep_going == old(self).keep_going,
    {
        proof {
            lemma_count_update(self.running@, t as int, true);
        }
        self.running.set(t, true);
        self.n_running = self.n_running + 1;
    }

    /// Decides the next move of the run, given the completion record as it
    /// stands now.
    ///
    /// While targets of the current wavefront wait to be started and fewer
    /// than `jobs` run, the first of them whose dependencies are still
    /// complete is started (waiting ones whose dependencies no longer are
    /// complete are dropped). Once the wavefront is used up and nothing runs,
    /// the next wavefront is every target not completed or failed in this run
    /// whose dependencies are complete; when it is empty the run finishes.
    /// After a fail-fast failure nothing more is started, and the run finishes
    /// with that failure once the running targets have reported.
    pub fn next_action(
        &mut self,
        plan: &Plan,
        resolved_target_set: &ResolvedTargetSet,
        progress: &TaskProgress,
    ) -> (r: RunAction)
        requires
            old(self).wf(resolved_target_set.targets@.len() as int),
            progress.fits(resolved_target_set.targets@.len() as int, plan.steps@.len() as int),
        ensures
            final(self).wf(resolved_target_set.targets@.len() as int),
            final(self).jobs == old(self).jobs,
            final(self).keep_going == old(self).keep_going,
            final(self).finished@ == old(self).finished@,
            final(self).failed@ == old(self).failed@,
            final(self).first_failure == old(self).first_failure,
            r matches RunAction::Start(t) ==> {
                &&& t < resolved_target_set.targets@.len()
                &&& deps_complete(resolved_target_set.targets@, *progress, plan.steps@.len() as int, t as int)
                &&& !old(self).running@[t as int]
                &&& final(self).running@ == old(self).running@.update(t as int, true)
                &&& final(self).n_running == old(self).n_running + 1
                &&& old(self).first_failure is None
                &&& (old(self).pending@[t as int] || (old(self).n_running == 0
                    && old(self).wave_member(resolved_target_set.targets@, *progress, plan.steps@.len() as int, t as int)
                    && forall|u: int| 0 <= u < t ==> !old(self).wave_member(resolved_target_set.targets@, *progress, plan.steps@.len() as int, u)))
                &&& old(self).pending@[t as int] ==> {
                    &&& forall|u: int| 0 <= u < t && #[trigger] old(self).pending@[u] ==> !deps_complete(
                        resolved_target_set.targets@, *progress, plan.steps@.len() as int, u)
                    &&& forall|u: int| 0 <= u < resolved_target_set.targets@.len() ==> #[trigger] final(self).pending@[u]
                        == (u > t && old(self).pending@[u])
                }
                &&& !old(self).pending@[t as int] ==> forall|u: int| 0 <= u < resolved_target_set.targets@.len()
                    ==> #[trigger] final(self).pending@[u] == (u != t && old(self).wave_member(
                        resolved_target_set.targets@, *progress, plan.steps@.len() as int, u))
            },
            r is Wait ==> final(self).n_running > 0 && final(self).running@ == old(self).running@,
            r is Wait ==> old(self).first_failure is Some || old(self).n_running >= old(self).jobs || forall|u: int|
                0 <= u < resolved_target_set.targets@.len() && #[trigger] old(self).pending@[u] ==> !deps_complete(
                    resolved_target_set.targets@, *progress, plan.steps@.len() as int, u),
            r is Finish ==> forall|u: int| 0 <= u < resolved_target_set.targets@.len() && #[trigger] old(self).pending@[u]
                ==> !deps_complete(resolved_target_set.targets@, *progress, plan.steps@.len() as int, u),
            r matches RunAction::Finish(o) ==> {
                &&& old(self).n_running == 0
                &&& final(self).running@ == old(self).running@
                &&& forall|u: int| 0 <= u < resolved_target_set.targets@.len() ==> !#[trigger] final(self).pending@[u]
                &&& match old(self).first_failure {
                    Some(f) => o == RunOutcome::TargetFailed(f),
                    None => {
                        &&& o == old(self).settled_outcome()
                        &&& forall|u: int| 0 <= u < resolved_target_set.targets@.len() ==> !old(self).wave_member(
                            resolved_target_set.targets@, *progress, plan.steps@.len() as int, u)
                    },
                }
            },
    {
        let ghost n = resolved_target_set.targets@.len() as int;
        let ghost m = plan.steps@.len() as int;
        let ghost ts = resolved_target_set.targets@;
        let ghost old_pending = self.pending@;
        let n_targets = resolved_target_set.targets.len();
        if let Some(f) = self.first_failure {
            if self.n_running == 0 {
                return RunAction::Finish(RunOutcome::TargetFailed(f));
            } else {
                return RunAction::Wait;
            }
        }
        if self.n_running >= self.jobs {
            proof {
                assert(self.n_running > 0);
            }
            return RunAction::Wait;
        }
        let mut t: usize = 0;
        while t < n_targets
            invariant
                self.wf(n),
                n == n_targets,
                n == resolved_target_set.targets@.len(),
                ts == resolved_target_set.targets@,
                m == plan.steps@.len(),
                progress.fits(n, m),
                t <= n,
                self.first_failure is None,
                old(self).first_failure is None,
                self.n_running < self.jobs,
                self.jobs == old(self).jobs,
                self.keep_going == old(self).keep_going,
                self.finished@ == old(self).finished@,
                self.failed@ == old(self).failed@,
                self.running@ == old(self).running@,
                self.n_running == old(self).n_running,
                self.pending@.len() == n,
                forall|u: int| 0 <= u < t ==> !#[trigger] self.pending@[u],
                forall|u: int| t <= u < n ==> self.pending@[u] == old_pending[u],
                forall|u: int| 0 <= u < t && #[trigger] old_pending[u] ==> !deps_complete(ts, *progress, m, u),
                old_pending == old(self).pending@,
            decreases n - t,
        {
            if self.pending[t] {
                self.pending.set(t, false);
                if are_target_dependencies_completed(t, plan, resolved_target_set, progress) {
                    self.start(t);
                    return RunAction::Start(t);
                }
            }
            t = t + 1;
        }
        if self.n_running > 0 {
            return RunAction::Wait;
        }
        proof {
            lemma_count_zero(self.running@);
        }
        let mut first: Option<usize> = None;
        let mut t: usize = 0;
        while t < n_targets
            invariant
                self.wf(n),
                n == n_targets,
                n == resolved_target_set.targets@.len(),
                ts == resolved_target_set.targets@,
                m == plan.steps@.len(),
                progress.fits(n, m),
                t <= n,
                self.first_failure is None,
                old(self).first_failure is None,
                self.n_running == 0,
                forall|u: int| 0 <= u < n ==> !#[trigger] self.running@[u],
                self.jobs == old(self).jobs,
                self.keep_going == old(self).keep_going,
                self.finished@ == old(self).finished@,
                self.failed@ == old(self).failed@,
                self.running@ == old(self).running@,
                forall|u: int| 0 <= u < n && #[trigger] self.pending@[u] ==> t > u && old(self).wave_member(ts, *progress, m, u),
                forall|u: int| t <= u < n ==> !#[trigger] self.pending@[u],
                first matches Some(f) ==> f < t && old(self).wave_member(ts, *progress, m, f as int) && !self.pending@[f as int]
                    && forall|u: int| 0 <= u < f ==> !old(self).wave_member(ts, *progress, m, u),
                first matches Some(f) ==> forall|u: int| f < u < t ==> old(self).wave_member(ts, *progress, m, u) == self.pending@[u],
                first is None ==> forall|u: int| 0 <= u < t ==> !old(self).wave_member(ts, *progress, m, u),
            decreases n - t,
        {
            if !self.finished[t] && !self.failed[t]
                && are_target_dependencies_completed(t, plan, resolved_target_set, progress) {
                if first.is_none() {
                    first = Some(t);
                } else {
                    self.pending.set(t, true);
                }
            }
            t = t + 1;
        }
        match first {
            Some(f) => {
                self.start(f);
                RunAction::Start(f)
            },
            None => RunAction::Finish(self.compute_settled_outcome()),
        }
    }

    /// Takes the report of a running target: it completed every remaining
    /// step (`success`) or stopped at a failing one. Under fail-fast the
    /// first failure stops all further dispatch; under keep-going it is
    /// only recorded.
    pub fn target_finished(&mut self, target_idx: usize, success: bool)
        requires
            old(self).wf(old(self).finished@.len() as int),
            target_idx < old(self).finished@.len(),
            old(self).running@[target_idx as int],
        ensures
            final(self).wf(old(self).finished@.len() as int),
            final(self).jobs == old(self).jobs,
            final(self).keep_going == old(self).keep_going,
            final(self).running@ == old(self).running@.update(target_idx as int, false),
            final(self).n_running == old(self).n_running - 1,
            success ==> final(self).finished@ == old(self).finished@.update(target_idx as int, true),
            success ==> final(self).failed@ == old(self).failed@,
            success ==> final(self).first_failure == old(self).first_failure,
            success ==> final(self).pending@ == old(self).pending@,
            !success ==> final(self).finished@ == old(self).finished@,
            !success ==> final(self).failed@ == old(self).failed@.update(target_idx as int, true),
            !success && old(self).keep_going ==> final(self).pending@ == old(self).pending@
                && final(self).first_failure is None,
            !success && !old(self).keep_going ==> final(self).first_failure == (match old(self).first_failure {
                Some(f) => Some(f),
                None => Some(target_idx),
            }) && forall|u: int| 0 <= u < old(self).finished@.len() ==> !#[trigger] final(self).pending@[u],
    {
        let ghost n = self.finished@.len() as int;
        proof {
            lemma_count_update(self.running@, target_idx as int, false);
        }
        self.running.set(target_idx, false);
        self.n_running = self.n_running - 1;
        if success {
            self.finished.set(target_idx, true);
        } else {
            self.failed.set(target_idx, true);
            if !self.keep_going {
                if self.first_failure.is_none() {
                    self.first_failure = Some(target_idx);
                }
                clear_all(&mut self.pending);
            }
        }
    }
}

/// Keep-going aggregate: a run in which some target failed finishes with
/// the aggregate failure, never with success.
pub proof fn law_failure_is_reported(run: AllTargetsRun, t: int)
    requires
        0 <= t < run.failed@.len(),
        run.failed@[t],
    ensures
        run.settled_outcome() == RunOutcome::SomeStepsFailed,
{
}

/// Concurrency bound: in every consistent state of an all-targets run, and
/// so after every `next_action` and `target_finished`, at most `jobs`
/// targets are running.
pub proof fn law_running_within_jobs(run: AllTargetsRun, n_targets: int)
    requires
        run.wf(n_targets),
    ensures
        count_true(run.running@) <= run.jobs,
        run.n_running == count_true(run.running@),
{
}

/// Idempotence: on a task whose every step has succeeded, an all-targets
/// run puts every target in its first wavefront, no target has a step left
/// to execute, and once every target has reported success the next
/// wavefront is empty and the run finishes with success.
pub proof fn law_complete_task_runs_nothing(
    ts: Seq<Target>,
    p: TaskProgress,
    n_steps: int,
    fresh: AllTargetsRun,
    done: AllTargetsRun,
)
    requires
        p.fits(ts.len() as int, n_steps),
        task_complete(p, ts.len() as int, n_steps),
        fresh.wf(ts.len() as int),
        forall|t: int| 0 <= t < ts.len() ==> !fresh.finished@[t] && !fresh.failed@[t],
        done.wf(ts.len() as int),
        forall|t: int| 0 <= t < ts.len() ==> done.finished@[t] && !done.failed@[t],
    ensures
        forall|t: int| 0 <= t < ts.len() ==> !incomplete_after(p, t, n_steps, 0),
        forall|t: int| 0 <= t < ts.len() ==> fresh.wave_member(ts, p, n_steps, t),
        forall|t: int| 0 <= t < ts.len() ==> !done.wave_member(ts, p, n_steps, t),
        done.settled_outcome() == RunOutcome::Success,
{
    assert forall|t: int| 0 <= t < ts.len() implies fresh.wave_member(ts, p, n_steps, t) by {
        assert forall|j: int| 0 <= j < ts[t].dependencies@.len() implies dep_satisfied(
            ts,
            p,
            n_steps,
            #[trigger] ts[t].dependencies@[j]@,
        ) by {
            lemma_last_index_of_bounds(ts, ts[t].dependencies@[j]@);
        }
    }
}

} // verus!
