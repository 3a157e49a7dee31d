use vstd::prelude::*;

use crate::paths::{join_path, path_join};
use crate::plans::{Plan, Step};
use crate::target_sets::ResolvedTargetSet;
use crate::targets::Target;
use crate::{config_dir_of, config_dir_path, Environment};

verus! {

/// The directory that holds the tasks.
pub open spec fn tasks_dir_of(config_dir: Seq<char>) -> Seq<char> {
    path_join(config_dir_of(config_dir), "tasks"@)
}

/// The directory that holds the tasks.
pub fn dir_path(environment: &Environment) -> (r: String)
    ensures
        r@ == tasks_dir_of(environment.config_dir@),
{
    let dir = config_dir_path(environment);
    join_path(dir.as_str(), "tasks")
}

/// The directory of the task called `name`.
pub fn named_dir_path(name: &str, environment: &Environment) -> (r: String)
    ensures
        r@ == path_join(tasks_dir_of(environment.config_dir@), name@),
{
    let dir = dir_path(environment);
    join_path(dir.as_str(), name)
}

/// The completion record of a task: `completed[t][s - 1]` tells whether
/// step number `s` (1-based) has succeeded on target number `t` (0-based).
#[derive(Clone, Debug)]
pub struct TaskProgress {
    /// one row per target, one entry per step
    pub completed: Vec<Vec<bool>>,
}

impl TaskProgress {
    /// Whether the record has one row per target and one entry per step.
    pub open spec fn fits(&self, n_targets: int, n_steps: int) -> bool {
        &&& self.completed@.len() == n_targets
        &&& forall|t: int| 0 <= t < n_targets ==> (#[trigger] self.completed@[t])@.len() == n_steps
    }

    /// Whether step number `s` (1-based) of target `t` has succeeded.
    pub open spec fn done(&self, t: int, s: int) -> bool {
        self.completed@[t]@[s - 1]
    }

    /// A record in which nothing has succeeded yet.
    pub fn new(n_targets: usize, n_steps: usize) -> (r: TaskProgress)
        ensures
            r.fits(n_targets as int, n_steps as int),
            forall|t: int, s: int| 0 <= t < n_targets && 1 <= s <= n_steps ==> !r.done(t, s),
    {
        let mut rows: Vec<Vec<bool>> = Vec::new();
        let mut t: usize = 0;
        while t < n_targets
            invariant
                t <= n_targets,
                rows@.len() == t,
                forall|i: int| 0 <= i < t ==> (#[trigger] rows@[i])@.len() == n_steps,
                forall|i: int, j: int| 0 <= i < t && 0 <= j < n_steps ==> !(#[trigger] rows@[i]@[j]),
            decreases n_targets - t,
        {
            let mut row: Vec<bool> = Vec::new();
            let mut s: usize = 0;
            while s < n_steps
                invariant
                    s <= n_steps,
                    row@.len() == s,
                    forall|j: int| 0 <= j < s ==> !row@[j],
                decreases n_steps - s,
            {
                row.push(false);
                s = s + 1;
            }
            rows.push(row);
            t = t + 1;
        }
        TaskProgress { completed: rows }
    }

    /// Records whether step number `s` (1-based) of target `t` has succeeded.
    pub fn record(&mut self, t: usize, s: usize, success: bool)
        requires
            t < old(self).completed@.len(),
            1 <= s <= old(self).completed@[t as int]@.len(),
        ensures
            final(self).completed@.len() == old(self).completed@.len(),
            forall|i: int| 0 <= i < old(self).completed@.len() ==>
                (#[trigger] final(self).completed@[i])@.len() == old(self).completed@[i]@.len(),
            final(self).done(t as int, s as int) == success,
            forall|i: int, j: int|
                0 <= i < old(self).completed@.len() && 1 <= j <= old(self).completed@[i]@.len()
                    && (i != t || j != s) ==> final(self).done(i, j) == old(self).done(i, j),
    {
        let mut row = self.completed[t].clone();
        row.set(s - 1, success);
        self.completed.set(t, row);
    }
}

/// Whether every step of target `t` has succeeded.
pub open spec fn target_complete(p: TaskProgress, t: int, n_steps: int) -> bool {
    forall|s: int| 1 <= s <= n_steps ==> #[trigger] p.done(t, s)
}

/// The position of the last target of `ts` whose manifest directory is `dir`.
pub open spec fn last_index_of(ts: Seq<Target>, dir: Seq<char>) -> Option<int>
    decreases ts.len(),
{
    if ts.len() == 0 {
        None
    } else if ts.last().manifest_dir@ == dir {
        Some(ts.len() - 1)
    } else {
        last_index_of(ts.drop_last(), dir)
    }
}

/// Whether the dependency `dir` no longer holds anything up: it is either
/// outside the set or a target of the set that has completed every step.
pub open spec fn dep_satisfied(ts: Seq<Target>, p: TaskProgress, n_steps: int, dir: Seq<char>) -> bool {
    match last_index_of(ts, dir) {
        Some(i) => target_complete(p, i, n_steps),
        None => true,
    }
}

/// Whether every dependency of target `t` is satisfied.
pub open spec fn deps_complete(ts: Seq<Target>, p: TaskProgress, n_steps: int, t: int) -> bool {
    forall|j: int|
        0 <= j < ts[t].dependencies@.len() ==> dep_satisfied(
            ts,
            p,
            n_steps,
            #[trigger] ts[t].dependencies@[j]@,
        )
}

/// Whether target `t` has an incomplete step and all its dependencies complete.
pub open spec fn target_ready(ts: Seq<Target>, p: TaskProgress, n_steps: int, t: int) -> bool {
    !target_complete(p, t, n_steps) && deps_complete(ts, p, n_steps, t)
}

/// Whether `s` is the first incomplete step of target `t` after step number `after`.
pub open spec fn first_incomplete_after(p: TaskProgress, t: int, n_steps: int, after: int, s: int) -> bool {
    &&& after < s <= n_steps
    &&& !p.done(t, s)
    &&& forall|k: int| after < k < s ==> #[trigger] p.done(t, k)
}

/// Whether target `t` has an incomplete step after step number `after`.
pub open spec fn incomplete_after(p: TaskProgress, t: int, n_steps: int, after: int) -> bool {
    exists|s: int| after < s <= n_steps && !#[trigger] p.done(t, s)
}

pub(crate) proof fn lemma_last_index_of_bounds(ts: Seq<Target>, dir: Seq<char>)
    ensures
        last_index_of(ts, dir) matches Some(i) ==> 0 <= i < ts.len() && ts[i].manifest_dir@ == dir,
    decreases ts.len(),
{
    if ts.len() > 0 && ts.last().manifest_dir@ != dir {
        lemma_last_index_of_bounds(ts.drop_last(), dir);
    }
}

/// The position of the last target whose manifest directory is `dir`.
fn index_of_target(targets: &Vec<Target>, dir: &String) -> (r: Option<usize>)
    ensures
        r matches Some(i) ==> last_index_of(targets@, dir@) == Some(i as int),
        r is None ==> last_index_of(targets@, dir@) is None,
{
    let mut i: usize = targets.len();
    assert(targets@.take(i as int) =~= targets@);
    while i > 0
        invariant
            i <= targets@.len(),
            last_index_of(targets@, dir@) == last_index_of(targets@.take(i as int), dir@),
        decreases i,
    {
        assert(targets@.take(i as int).drop_last() =~= targets@.take(i - 1));
        if targets[i - 1].manifest_dir == *dir {
            return Some(i - 1);
        }
        i = i - 1;
    }
    assert(targets@.take(0) =~= Seq::<Target>::empty());
    None
}

/// Whether every step of the plan has succeeded on target `target_idx`.
pub fn is_target_completed(target_idx: usize, plan: &Plan, progress: &TaskProgress) -> (r: bool)
    requires
        target_idx < progress.completed@.len(),
        progress.completed@[target_idx as int]@.len() == plan.steps@.len(),
    ensures
        r == target_complete(*progress, target_idx as int, plan.steps@.len() as int),
{
    let row = &progress.completed[target_idx];
    let mut i: usize = 0;
    while i < plan.steps.len()
        invariant
            row == progress.completed@[target_idx as int],
            row@.len() == plan.steps@.len(),
            i <= plan.steps@.len(),
            forall|s: int| 1 <= s <= i ==> #[trigger] progress.done(target_idx as int, s),
        decreases plan.steps@.len() - i,
    {
        if !row[i] {
            assert(!progress.done(target_idx as int, i + 1));
            return false;
        }
        i = i + 1;
    }
    true
}

/// Whether every dependency of target `target_idx` that belongs to the set
/// has completed every step; dependencies outside the set are satisfied.
pub fn are_target_dependencies_completed(
    target_idx: usize,
    plan: &Plan,
    resolved_target_set: &ResolvedTargetSet,
    progress: &TaskProgress,
) -> (r: bool)
    requires
        target_idx < resolved_target_set.targets@.len(),
        progress.fits(resolved_target_set.targets@.len() as int, plan.steps@.len() as int),
    ensures
        r == deps_complete(
            resolved_target_set.targets@,
            *progress,
            plan.steps@.len() as int,
            target_idx as int,
        ),
{
    let ts = &resolved_target_set.targets;
    let deps = &ts[target_idx].dependencies;
    let ghost n = plan.steps@.len() as int;
    let mut j: usize = 0;
    while j < deps.len()
        invariant
            deps == ts@[target_idx as int].dependencies,
            target_idx < ts@.len(),
            ts == resolved_target_set.targets,
            progress.fits(ts@.len() as int, n),
            n == plan.steps@.len(),
            j <= deps@.len(),
            forall|k: int| 0 <= k < j ==> dep_satisfied(ts@, *progress, n, #[trigger] deps@[k]@),
        decreases deps@.len() - j,
    {
        match index_of_target(ts, &deps[j]) {
            Some(i) => {
                proof {
                    lemma_last_index_of_bounds(ts@, deps@[j as int]@);
                }
                if !is_target_completed(i, plan, progress) {
                    return false;
                }
            },
            None => {},
        }
        j = j + 1;
    }
    true
}

/// The first step after step number `after` (1-based; 0 for the start) that
/// has not succeeded on target `target_idx`, if there is one.
pub fn next_step_for_target(plan: &Plan, progress: &TaskProgress, target_idx: usize, after: usize) -> (r: Option<usize>)
    requires
        target_idx < progress.completed@.len(),
        progress.completed@[target_idx as int]@.len() == plan.steps@.len(),
    ensures
        r matches Some(s) ==> first_incomplete_after(*progress, target_idx as int, plan.steps@.len() as int, after as int, s as int),
        r is None ==> !incomplete_after(*progress, target_idx as int, plan.steps@.len() as int, after as int),
{
    let row = &progress.completed[target_idx];
    let n = plan.steps.len();
    if after >= n {
        return None;
    }
    let mut i: usize = after;
    while i < n
        invariant
            row == progress.completed@[target_idx as int],
            row@.len() == n,
            n == plan.steps@.len(),
            after <= i <= n,
            forall|k: int| after < k <= i ==> #[trigger] progress.done(target_idx as int, k),
        decreases n - i,
    {
        if !row[i] {
            return Some(i + 1);
        }
        i = i + 1;
    }
    None
}

/// The first target, in stored order, that has an incomplete step and whose
/// dependencies have all completed.
pub fn find_ready_target(plan: &Plan, resolved_target_set: &ResolvedTargetSet, progress: &TaskProgress) -> (r: Option<usize>)
    requires
        progress.fits(resolved_target_set.targets@.len() as int, plan.steps@.len() as int),
    ensures
        r matches Some(t) ==> t < resolved_target_set.targets@.len() && target_ready(
            resolved_target_set.targets@,
            *progress,
            plan.steps@.len() as int,
            t as int,
        ),
        r matches Some(t) ==> forall|u: int| 0 <= u < t ==> !target_ready(
            resolved_target_set.targets@,
            *progress,
            plan.steps@.len() as int,
            u,
        ),
        r is None ==> forall|u: int| 0 <= u < resolved_target_set.targets@.len() ==> !target_ready(
            resolved_target_set.targets@,
            *progress,
            plan.steps@.len() as int,
            u,
        ),
{
    let ghost ts = resolved_target_set.targets@;
    let ghost n = plan.steps@.len() as int;
    let mut t: usize = 0;
    while t < resolved_target_set.targets.len()
        invariant
            progress.fits(ts.len() as int, n),
            ts == resolved_target_set.targets@,
            n == plan.steps@.len(),
            t <= ts.len(),
            forall|u: int| 0 <= u < t ==> !target_ready(ts, *progress, n, u),
        decreases ts.len() - t,
    {
        if !is_target_completed(t, plan, progress)
            && are_target_dependencies_completed(t, plan, resolved_target_set, progress) {
            return Some(t);
        }
        t = t + 1;
    }
    None
}

/// The next unit of work of a task: one step on one target.
pub struct NextStep<'a> {
    /// the step to run
    pub step: &'a Step,
    /// the manifest directory of the target
    pub manifest_dir: &'a String,
    /// the name of the task
    pub task_name: &'a str,
    /// the 1-based number of the step in the plan
    pub step_number: usize,
    /// the 0-based number of the target in the resolved target set
    pub target_number: usize,
}

/// The first step that has not succeeded, in the first target that has such
/// a step and whose dependencies have all completed.
pub fn find_next_step<'a>(
    task_name: &'a str,
    plan: &'a Plan,
    resolved_target_set: &'a ResolvedTargetSet,
    progress: &TaskProgress,
) -> (r: Option<NextStep<'a>>)
    requires
        progress.fits(resolved_target_set.targets@.len() as int, plan.steps@.len() as int),
    ensures
        r matches Some(ns) ==> {
            let t = ns.target_number as int;
            &&& t < resolved_target_set.targets@.len()
            &&& target_ready(resolved_target_set.targets@, *progress, plan.steps@.len() as int, t)
            &&& forall|u: int| 0 <= u < t ==> !target_ready(resolved_target_set.targets@, *progress, plan.steps@.len() as int, u)
            &&& first_incomplete_after(*progress, t, plan.steps@.len() as int, 0, ns.step_number as int)
            &&& *ns.step == plan.steps@[ns.step_number - 1]
            &&& *ns.manifest_dir == resolved_target_set.targets@[t].manifest_dir
            &&& ns.task_name == task_name
        },
        r is None ==> forall|u: int| 0 <= u < resolved_target_set.targets@.len() ==> !target_ready(
            resolved_target_set.targets@,
            *progress,
            plan.steps@.len() as int,
            u,
        ),
{
    match find_ready_target(plan, resolved_target_set, progress) {
        None => None,
        Some(t) => {
            match next_step_for_target(plan, progress, t, 0) {
                Some(s) => Some(
                    NextStep {
                        step: &plan.steps[s - 1],
                        manifest_dir: &resolved_target_set.targets[t].manifest_dir,
                        task_name,
                        step_number: s,
                        target_number: t,
                    },
                ),
                None => {
                    assert(!target_complete(*progress, t as int, plan.steps@.len() as int));
                    assert(false);
                    None
                },
            }
        },
    }
}

/// Whether every step of every target has succeeded.
pub open spec fn task_complete(p: TaskProgress, n_targets: int, n_steps: int) -> bool {
    forall|t: int, s: int| 0 <= t < n_targets && 1 <= s <= n_steps ==> #[trigger] p.done(t, s)
}

/// Ordering: a target with a dependency in the same set that still has an
/// incomplete step is not ready, so neither `find_next_step`,
/// `find_ready_target` nor `AllTargetsRun::next_action` dispatches it.
pub proof fn law_dependents_wait(ts: Seq<Target>, p: TaskProgress, n_steps: int, t: int, j: int, s: int)
    requires
        0 <= t < ts.len(),
        0 <= j < ts[t].dependencies@.len(),
        last_index_of(ts, ts[t].dependencies@[j]@) matches Some(d) && !p.done(d, s),
        1 <= s <= n_steps,
    ensures
        !deps_complete(ts, p, n_steps, t),
        !target_ready(ts, p, n_steps, t),
{
    let d = last_index_of(ts, ts[t].dependencies@[j]@)->Some_0;
    assert(!target_complete(p, d, n_steps));
    assert(!dep_satisfied(ts, p, n_steps, ts[t].dependencies@[j]@));
}

/// Resumability: when the record of one step is deleted from a task whose
/// every step had succeeded, the next pass selects that target (no earlier
/// target is ready), its first step to run is exactly the deleted one, and
/// no step after it needs to run; every other target stays complete. A
/// target listed as its own dependency is left out: it could never become
/// ready.
pub proof fn law_deleted_record_reruns_that_step(ts: Seq<Target>, p: TaskProgress, n_steps: int, t: int, s: int)
    requires
        p.fits(ts.len() as int, n_steps),
        0 <= t < ts.len(),
        1 <= s <= n_steps,
        !p.done(t, s),
        forall|u: int, k: int| 0 <= u < ts.len() && 1 <= k <= n_steps && (u != t || k != s) ==> #[trigger] p.done(u, k),
        forall|j: int| 0 <= j < ts[t].dependencies@.len() ==> last_index_of(ts, #[trigger] ts[t].dependencies@[j]@) != Some(t),
    ensures
        target_ready(ts, p, n_steps, t),
        forall|u: int| 0 <= u < t ==> !target_ready(ts, p, n_steps, u),
        first_incomplete_after(p, t, n_steps, 0, s),
        !incomplete_after(p, t, n_steps, s),
        forall|u: int| 0 <= u < ts.len() && u != t ==> target_complete(p, u, n_steps),
{
    assert forall|j: int| 0 <= j < ts[t].dependencies@.len() implies dep_satisfied(
        ts,
        p,
        n_steps,
        #[trigger] ts[t].dependencies@[j]@,
    ) by {
        lemma_last_index_of_bounds(ts, ts[t].dependencies@[j]@);
    }
    assert forall|u: int| 0 <= u < t implies !target_ready(ts, p, n_steps, u) by {
        assert(target_complete(p, u, n_steps));
    }
}

/// Parameters for creating a task.
pub struct CreateTaskParameters {
    /// the name of the task
    pub name: String,
    /// the name of the plan to use
    pub plan: String,
    /// the name of the target set to use
    pub target_set: String,
}

/// Parameters for running a single step of a task.
pub struct RunSingleStepParameters {
    /// the name of the task
    pub name: String,
}

/// Parameters for running a task on a single target.
pub struct RunSingleTargetParameters {
    /// the name of the task
    pub name: String,
}

/// Parameters for running a task on all targets.
pub struct RunAllTargetsParameters {
    /// the name of the task
    pub name: String,
    /// how many targets may run at once (one when absent)
    pub jobs: Option<usize>,
    /// go on with independent targets when some fail
    pub keep_going: bool,
}

impl RunAllTargetsParameters {
    /// The job limit of the run: one when none is given; a limit of zero,
    /// under which nothing could ever run, counts as one too.
    pub fn job_limit(&self) -> (r: usize)
        ensures
            r >= 1,
            r == match self.jobs {
                Some(n) => if n == 0 { 1 } else { n },
                None => 1,
            },
    {
        match self.jobs {
            Some(n) => if n == 0 { 1 } else { n },
            None => 1,
        }
    }
}

/// The `task run` subcommands.
pub enum TaskRunSubCommand {
    /// run a single step
    SingleStep(RunSingleStepParameters),
    /// run the remaining steps of a single target
    SingleTarget(RunSingleTargetParameters),
    /// run all targets
    AllTargets(RunAllTargetsParameters),
}

/// Parameters of the `task run` subcommand.
pub struct TaskRunParameters {
    /// the `task run` subcommand to run
    pub sub_command: TaskRunSubCommand,
}

/// The `task` subcommands.
pub enum TaskSubCommand {
    /// create a task
    Create(CreateTaskParameters),
    /// remove a task
    Remove(RemoveTaskParameters),
    /// run a task
    Run(TaskRunParameters),
}

/// Parameters for removing a task.
pub struct RemoveTaskParameters {
    /// the name of the task
    pub name: String,
}

/// Parameters of the `task` subcommand.
pub struct TaskParameters {
    /// the `task` subcommand to run
    pub sub_command: TaskSubCommand,
}
} // verus!
