use cargo_for_each::plans::{Plan, Step};
use cargo_for_each::target_sets::ResolvedTargetSet;
use cargo_for_each::targets::Target;
use cargo_for_each::scheduler::{AllTargetsRun, RunAction, RunOutcome};
use cargo_for_each::tasks::{
    are_target_dependencies_completed, find_next_step, find_ready_target, is_target_completed, next_step_for_target,
    TaskProgress,
};

fn run_command(command: &str) -> Step {
    Step::RunCommand { command: command.to_string(), args: vec![] }
}

fn target(dir: &str, deps: &[&str]) -> Target {
    Target {
        manifest_dir: dir.to_string(),
        dependencies: deps.iter().map(|d| d.to_string()).collect(),
    }
}

/// Runs an all-targets pass to its end against an in-memory completion
/// record. `fails(t, s)` says whether step `s` of target `t` fails. Targets
/// that are started are run one at a time in start order once the
/// scheduler asks to wait, so up to `jobs` of them are in flight together.
/// Returns the outcome, the executed (target, step) pairs, the largest
/// number of targets running at once, and the start order.
fn drive(
    plan: &Plan,
    rts: &ResolvedTargetSet,
    progress: &mut TaskProgress,
    jobs: usize,
    keep_going: bool,
    fails: &dyn Fn(usize, usize) -> bool,
) -> (RunOutcome, Vec<(usize, usize)>, usize, Vec<usize>) {
    let mut run = AllTargetsRun::new(rts.targets.len(), jobs, keep_going);
    let mut executed = Vec::new();
    let mut in_flight: Vec<usize> = Vec::new();
    let mut peak = 0;
    let mut started = Vec::new();
    loop {
        match run.next_action(plan, rts, progress) {
            RunAction::Start(t) => {
                started.push(t);
                in_flight.push(t);
                peak = peak.max(run.n_running);
            }
            RunAction::Wait => {
                let t = in_flight.remove(0);
                let mut after = 0;
                let mut ok = true;
                while let Some(s) = next_step_for_target(plan, progress, t, after) {
                    executed.push((t, s));
                    let success = !fails(t, s);
                    progress.record(t, s, success);
                    if !success {
                        ok = false;
                        break;
                    }
                    after = s;
                }
                run.target_finished(t, ok);
            }
            RunAction::Finish(outcome) => return (outcome, executed, peak, started),
        }
    }
}

#[test]
fn single_target_run_retries_only_the_failed_step() {
    let plan = Plan { steps: vec![run_command("true"), run_command("false")] };
    let rts = ResolvedTargetSet { targets: vec![target("/x", &[]), target("/y", &["/x"])] };
    let mut progress = TaskProgress::new(2, 2);

    // first single-target run: X is the ready target, step 1 succeeds, step 2 fails
    let t = find_ready_target(&plan, &rts, &progress).unwrap();
    assert_eq!(t, 0);
    let mut executed = Vec::new();
    let mut after = 0;
    while let Some(s) = next_step_for_target(&plan, &progress, t, after) {
        executed.push(s);
        let success = s == 1;
        progress.record(t, s, success);
        if !success {
            break;
        }
        after = s;
    }
    assert_eq!(executed, vec![1, 2]);
    assert!(progress.completed[0][0]);
    assert!(!progress.completed[0][1]);

    // second run: still X, and only step 2 is attempted
    let t = find_ready_target(&plan, &rts, &progress).unwrap();
    assert_eq!(t, 0);
    assert_eq!(next_step_for_target(&plan, &progress, t, 0), Some(2));
    progress.record(t, 2, false);
    assert_eq!(next_step_for_target(&plan, &progress, t, 2), None);

    // Y never becomes ready while X is incomplete
    assert!(!are_target_dependencies_completed(1, &plan, &rts, &progress));
    assert_eq!(find_ready_target(&plan, &rts, &progress), Some(0));
}

#[test]
fn keep_going_finishes_independent_target_and_reports_failure() {
    let plan = Plan { steps: vec![run_command("a"), run_command("b")] };
    let rts = ResolvedTargetSet { targets: vec![target("/a", &[]), target("/b", &[])] };
    let mut progress = TaskProgress::new(2, 2);
    let (outcome, executed, _, _) = drive(&plan, &rts, &mut progress, 1, true, &|t, s| t == 0 && s == 1);
    assert_eq!(outcome, RunOutcome::SomeStepsFailed);
    assert!(is_target_completed(1, &plan, &progress));
    assert!(!progress.completed[0][0]);
    assert_eq!(executed, vec![(0, 1), (1, 1), (1, 2)]);
}

#[test]
fn fail_fast_returns_first_failure_without_starting_b() {
    let plan = Plan { steps: vec![run_command("a")] };
    let rts = ResolvedTargetSet { targets: vec![target("/a", &[]), target("/b", &[])] };
    let mut progress = TaskProgress::new(2, 1);
    let (outcome, executed, _, started) = drive(&plan, &rts, &mut progress, 1, false, &|t, _| t == 0);
    assert_eq!(outcome, RunOutcome::TargetFailed(0));
    assert_eq!(started, vec![0]);
    assert_eq!(executed, vec![(0, 1)]);
}

#[test]
fn fail_fast_lets_already_dispatched_targets_finish() {
    let plan = Plan { steps: vec![run_command("a")] };
    let rts = ResolvedTargetSet { targets: vec![target("/a", &[]), target("/b", &[]), target("/c", &[])] };
    let mut progress = TaskProgress::new(3, 1);
    let (outcome, executed, _, started) = drive(&plan, &rts, &mut progress, 2, false, &|t, _| t == 0);
    assert_eq!(outcome, RunOutcome::TargetFailed(0));
    assert_eq!(started, vec![0, 1]);
    assert_eq!(executed, vec![(0, 1), (1, 1)]);
    assert!(!progress.completed[2][0]);
}

#[test]
fn complete_task_runs_nothing_and_succeeds() {
    let plan = Plan { steps: vec![run_command("a"), run_command("b")] };
    let rts = ResolvedTargetSet { targets: vec![target("/a", &[]), target("/b", &["/a"])] };
    let mut progress = TaskProgress { completed: vec![vec![true, true], vec![true, true]] };
    let (outcome, executed, _, _) = drive(&plan, &rts, &mut progress, 1, false, &|_, _| true);
    assert_eq!(outcome, RunOutcome::Success);
    assert!(executed.is_empty());
}

#[test]
fn deleted_record_reruns_exactly_that_step() {
    let plan = Plan { steps: vec![run_command("a"), run_command("b"), run_command("c")] };
    let rts = ResolvedTargetSet { targets: vec![target("/a", &[]), target("/b", &["/a"])] };
    let progress = TaskProgress { completed: vec![vec![true, true, true], vec![true, false, true]] };
    let next = find_next_step("t", &plan, &rts, &progress).unwrap();
    assert_eq!(next.target_number, 1);
    assert_eq!(next.step_number, 2);
    assert_eq!(next.manifest_dir, "/b");
    assert_eq!(next.task_name, "t");
    assert!(matches!(next.step, Step::RunCommand { command, .. } if command == "b"));
    assert_eq!(next_step_for_target(&plan, &progress, 1, 2), None);
}

#[test]
fn find_next_step_reports_nothing_left() {
    let plan = Plan { steps: vec![run_command("a")] };
    let rts = ResolvedTargetSet { targets: vec![target("/a", &[])] };
    let progress = TaskProgress { completed: vec![vec![true]] };
    assert!(find_next_step("t", &plan, &rts, &progress).is_none());
}

#[test]
fn dependencies_run_before_dependents() {
    let plan = Plan { steps: vec![run_command("a"), run_command("b")] };
    let rts = ResolvedTargetSet {
        targets: vec![target("/c", &["/b"]), target("/b", &["/a"]), target("/a", &[])],
    };
    let mut progress = TaskProgress::new(3, 2);
    let (outcome, executed, _, started) = drive(&plan, &rts, &mut progress, 4, false, &|_, _| false);
    assert_eq!(outcome, RunOutcome::Success);
    assert_eq!(started, vec![2, 1, 0]);
    assert_eq!(executed, vec![(2, 1), (2, 2), (1, 1), (1, 2), (0, 1), (0, 2)]);
}

#[test]
fn dependency_outside_set_is_satisfied() {
    let plan = Plan { steps: vec![run_command("a")] };
    let rts = ResolvedTargetSet { targets: vec![target("/a", &["/elsewhere"])] };
    let progress = TaskProgress::new(1, 1);
    assert!(are_target_dependencies_completed(0, &plan, &rts, &progress));
}

#[test]
fn job_limit_bounds_running_targets() {
    let plan = Plan { steps: vec![run_command("a")] };
    let rts = ResolvedTargetSet {
        targets: vec![target("/a", &[]), target("/b", &[]), target("/c", &[]), target("/d", &[]), target("/e", &[])],
    };
    let mut progress = TaskProgress::new(5, 1);
    let (outcome, executed, peak, _) = drive(&plan, &rts, &mut progress, 2, false, &|_, _| false);
    assert_eq!(outcome, RunOutcome::Success);
    assert_eq!(executed.len(), 5);
    assert_eq!(peak, 2);

    let mut progress = TaskProgress::new(5, 1);
    let (_, _, peak, _) = drive(&plan, &rts, &mut progress, 1, false, &|_, _| false);
    assert_eq!(peak, 1);
}

#[test]
fn cycle_is_reported_as_circular_dependency() {
    let plan = Plan { steps: vec![run_command("a")] };
    let rts = ResolvedTargetSet { targets: vec![target("/a", &["/b"]), target("/b", &["/a"]), target("/c", &[])] };
    let mut progress = TaskProgress::new(3, 1);
    let (outcome, executed, _, _) = drive(&plan, &rts, &mut progress, 1, false, &|_, _| false);
    assert_eq!(outcome, RunOutcome::CircularDependency);
    assert_eq!(executed, vec![(2, 1)]);
}

#[test]
fn keep_going_blocks_dependents_of_failed_target() {
    let plan = Plan { steps: vec![run_command("a")] };
    let rts = ResolvedTargetSet { targets: vec![target("/a", &[]), target("/b", &["/a"]), target("/c", &[])] };
    let mut progress = TaskProgress::new(3, 1);
    let (outcome, executed, _, _) = drive(&plan, &rts, &mut progress, 1, true, &|t, _| t == 0);
    assert_eq!(outcome, RunOutcome::SomeStepsFailed);
    assert_eq!(executed, vec![(0, 1), (2, 1)]);
}

#[test]
fn empty_target_set_succeeds() {
    let plan = Plan { steps: vec![run_command("a")] };
    let rts = ResolvedTargetSet { targets: vec![] };
    let mut progress = TaskProgress::new(0, 1);
    let (outcome, executed, _, _) = drive(&plan, &rts, &mut progress, 1, false, &|_, _| false);
    assert_eq!(outcome, RunOutcome::Success);
    assert!(executed.is_empty());
}
