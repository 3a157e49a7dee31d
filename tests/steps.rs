use cargo_for_each::error::Error;
use cargo_for_each::plans::{Plan, Step};
use cargo_for_each::records::{
    command_line, command_step_result, confirmation_record, exit_status_record, is_affirmative, is_confirmation,
    is_step_completed, manual_step_result, record_file_name, record_shows_success, step_state_dir,
};
use cargo_for_each::tasks::{named_dir_path, RunAllTargetsParameters};
use cargo_for_each::utils::executable_candidates;
use cargo_for_each::{config_dir_path, config_file, Environment};

fn env() -> Environment {
    Environment { config_dir: "/home/u/.config".to_string(), state_dir: "/home/u/.local/state/".to_string(), paths: vec![] }
}

fn manual() -> Step {
    Step::ManualStep { title: "t".to_string(), instructions: "i".to_string() }
}

fn cmd() -> Step {
    Step::RunCommand { command: "cargo".to_string(), args: vec!["build".to_string()] }
}

#[test]
fn paths_are_composed_under_the_roots() {
    let e = env();
    assert_eq!(config_dir_path(&e), "/home/u/.config/cargo-for-each");
    assert_eq!(config_file(&e), "/home/u/.config/cargo-for-each/cargo-for-each.toml");
    assert_eq!(Plan::file_path("p", &e), "/home/u/.config/cargo-for-each/plans/p.toml");
    assert_eq!(cargo_for_each::target_sets::dir_path(&e), "/home/u/.config/cargo-for-each/target-sets");
    assert_eq!(named_dir_path("job", &e), "/home/u/.config/cargo-for-each/tasks/job");
    assert_eq!(step_state_dir(&e, "job", 3, 12), "/home/u/.local/state/cargo-for-each/tasks/job/3/12");
}

#[test]
fn step_completion_follows_the_record() {
    assert!(is_step_completed(&cmd(), Some("0\n")));
    assert!(!is_step_completed(&cmd(), Some("1")));
    assert!(!is_step_completed(&cmd(), Some("")));
    assert!(!is_step_completed(&cmd(), None));
    assert!(is_step_completed(&manual(), Some(" y ")));
    assert!(!is_step_completed(&manual(), Some("n")));
    assert!(!is_step_completed(&manual(), Some("0")));
    assert!(!record_shows_success(&cmd(), " 0"));
    assert_eq!(record_file_name(&cmd()), "exit_status");
    assert_eq!(record_file_name(&manual()), "manual_step_confirmed");
}

#[test]
fn confirmation_answers() {
    assert!(is_confirmation("y\n"));
    assert!(is_confirmation("  YES "));
    assert!(is_confirmation("Y"));
    assert!(!is_confirmation("no"));
    assert!(!is_confirmation(""));
    assert!(!is_confirmation("yess"));
    assert!(is_affirmative("yes"));
    assert!(!is_affirmative("YES"));
}

#[test]
fn command_lines_join_arguments() {
    assert_eq!(command_line("cargo", &vec!["build".to_string(), "--release".to_string()]), "cargo build --release");
    assert_eq!(command_line("true", &vec![]), "true ");
}

#[test]
fn insert_and_remove_steps() {
    let mut plan = Plan::new();
    assert!(matches!(plan.insert_step(2, cmd()), Err(Error::PlanStepOutOfBounds(2, 0))));
    assert!(matches!(plan.insert_step(0, cmd()), Err(Error::PlanStepOutOfBounds(0, 0))));
    assert!(plan.insert_step(1, cmd()).is_ok());
    assert!(plan.insert_step(1, manual()).is_ok());
    assert!(matches!(plan.steps[0], Step::ManualStep { .. }));
    assert!(matches!(plan.remove_step(3), Err(Error::PlanStepOutOfBounds(3, 2))));
    assert!(matches!(plan.remove_step(1), Ok(Step::ManualStep { .. })));
    assert_eq!(plan.steps.len(), 1);
    assert!(plan.insert_position_in_bounds(2));
    assert!(!plan.insert_position_in_bounds(3));
}

#[test]
fn executable_search() {
    let paths = vec!["/usr/bin".to_string(), "/bin/".to_string()];
    assert_eq!(executable_candidates("ls", &paths), vec!["/usr/bin/ls".to_string(), "/bin/ls".to_string()]);
    assert_eq!(executable_candidates("/opt/x", &paths), vec!["/opt/x".to_string()]);
}

#[test]
fn job_limit_defaults_to_one() {
    let mut p = RunAllTargetsParameters { name: "t".to_string(), jobs: None, keep_going: false };
    assert_eq!(p.job_limit(), 1);
    p.jobs = Some(4);
    assert_eq!(p.job_limit(), 4);
    p.jobs = Some(0);
    assert_eq!(p.job_limit(), 1);
}

#[test]
fn outcome_records_and_results() {
    assert_eq!(exit_status_record(Some(0)), "0");
    assert_eq!(exit_status_record(Some(101)), "101");
    assert_eq!(exit_status_record(Some(-1)), "-1");
    assert_eq!(exit_status_record(None), "");
    assert_eq!(confirmation_record(true), "y");
    assert_eq!(confirmation_record(false), "n");
    assert!(is_step_completed(&cmd(), Some(exit_status_record(Some(0)).as_str())));
    assert!(!is_step_completed(&cmd(), Some(exit_status_record(Some(2)).as_str())));
    assert!(command_step_result("true ".to_string(), "/x".to_string(), Some(0)).is_ok());
    match command_step_result("false ".to_string(), "/x".to_string(), Some(1)) {
        Err(Error::CommandFailed(line, dir, code)) => {
            assert_eq!(line, "false ");
            assert_eq!(dir, "/x");
            assert_eq!(code, Some(1));
        }
        _ => panic!("expected a command failure"),
    }
    assert!(matches!(command_step_result("x".to_string(), "/x".to_string(), None), Err(Error::CommandFailed(_, _, None))));
    assert!(manual_step_result(true).is_ok());
    assert!(matches!(manual_step_result(false), Err(Error::ManualStepNotConfirmed)));
}
