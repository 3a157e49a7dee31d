use vstd::prelude::*;

use crate::error::Error;
use crate::paths::{join_path, path_join};
use crate::plans::Step;
use crate::utils::str_eq;
use crate::Environment;

verus! {

/// What `str::trim` makes of a string.
pub uninterp spec fn trimmed(s: Seq<char>) -> Seq<char>;

/// What `str::to_lowercase` makes of a string.
pub uninterp spec fn lowercased(s: Seq<char>) -> Seq<char>;

/// Relies on `str::trim`: the string without leading and trailing whitespace.
#[verifier::external_body]
fn trim_str(s: &str) -> (r: &str)
    ensures
        r@ == trimmed(s@),
{
    s.trim()
}

/// Relies on `str::to_lowercase`: the lowercase form of the string.
#[verifier::external_body]
fn lowercase_str(s: &str) -> (r: String)
    ensures
        r@ == lowercased(s@),
{
    s.to_lowercase()
}

/// The decimal digits of `n`.
pub open spec fn decimal_of(n: nat) -> Seq<char>
    decreases n,
{
    let digit = seq!['0', '1', '2', '3', '4', '5', '6', '7', '8', '9'][(n % 10) as int];
    if n < 10 {
        seq![digit]
    } else {
        decimal_of(n / 10) + seq![digit]
    }
}

/// Relies on `usize::to_string`: the decimal digits of the number.
#[verifier::external_body]
fn decimal_string(n: usize) -> (r: String)
    ensures
        r@ == decimal_of(n as nat),
{
    n.to_string()
}

/// The decimal digits of `i`, after a minus sign when it is negative.
pub open spec fn signed_decimal_of(i: int) -> Seq<char> {
    if i < 0 {
        seq!['-'] + decimal_of((-i) as nat)
    } else {
        decimal_of(i as nat)
    }
}

/// Relies on `i32::to_string`: a minus sign for a negative number, then its decimal digits.
#[verifier::external_body]
fn signed_decimal_string(i: i32) -> (r: String)
    ensures
        r@ == signed_decimal_of(i as int),
{
    i.to_string()
}

/// What the outcome record of a command step holds: the exit code in
/// decimal, or nothing when the process was ended by a signal.
pub fn exit_status_record(exit_code: Option<i32>) -> (r: String)
    ensures
        r@ == match exit_code {
            Some(c) => signed_decimal_of(c as int),
            None => Seq::<char>::empty(),
        },
{
    match exit_code {
        Some(c) => signed_decimal_string(c),
        None => String::new(),
    }
}

/// What the outcome record of a manual step holds.
pub fn confirmation_record(confirmed: bool) -> (r: &'static str)
    ensures
        r@ == if confirmed { "y"@ } else { "n"@ },
{
    if confirmed { "y" } else { "n" }
}

/// The result of a command step that ran: success exactly when it exited
/// with code zero, else the failure with its command line, directory and code.
pub fn command_step_result(command_line: String, manifest_dir: String, exit_code: Option<i32>) -> (r: Result<(), Error>)
    ensures
        (r is Ok) == (exit_code == Some(0i32)),
        r is Err ==> r == Err::<(), Error>(Error::CommandFailed(command_line, manifest_dir, exit_code)),
{
    match exit_code {
        Some(0) => Ok(()),
        _ => Err(Error::CommandFailed(command_line, manifest_dir, exit_code)),
    }
}

/// The result of a manual step: success exactly when the operator confirmed it.
pub fn manual_step_result(confirmed: bool) -> (r: Result<(), Error>)
    ensures
        (r is Ok) == confirmed,
        r is Err ==> r == Err::<(), Error>(Error::ManualStepNotConfirmed),
{
    if confirmed { Ok(()) } else { Err(Error::ManualStepNotConfirmed) }
}

/// The name of the file in a step's state directory that records its outcome.
pub open spec fn record_file_of(step: Step) -> Seq<char> {
    match step {
        Step::RunCommand { .. } => "exit_status"@,
        Step::ManualStep { .. } => "manual_step_confirmed"@,
    }
}

/// Whether a trimmed outcome record shows success: exit code zero for a
/// command, an affirmative flag for a manual step.
pub open spec fn record_success(step: Step, trimmed_content: Seq<char>) -> bool {
    match step {
        Step::RunCommand { .. } => trimmed_content == "0"@,
        Step::ManualStep { .. } => trimmed_content == "y"@,
    }
}

/// The name of the file in a step's state directory that records its outcome.
pub fn record_file_name(step: &Step) -> (r: &'static str)
    ensures
        r@ == record_file_of(*step),
{
    match step {
        Step::RunCommand { .. } => "exit_status",
        Step::ManualStep { .. } => "manual_step_confirmed",
    }
}

/// Whether the outcome record of `step`, already trimmed, shows success.
pub fn record_shows_success(step: &Step, trimmed_content: &str) -> (r: bool)
    ensures
        r == record_success(*step, trimmed_content@),
{
    let expected = match step {
        Step::RunCommand { .. } => "0",
        Step::ManualStep { .. } => "y",
    };
    str_eq(trimmed_content, expected)
}

/// Whether a step is complete, given the content of its outcome record
/// (`None` when the record or its state directory is absent or unreadable).
pub fn is_step_completed(step: &Step, record: Option<&str>) -> (r: bool)
    ensures
        r == (record matches Some(c) && record_success(*step, trimmed(c@))),
{
    match record {
        None => false,
        Some(content) => record_shows_success(step, trim_str(content)),
    }
}

/// Whether an answer, trimmed and lowercased, is `y` or `yes`.
pub open spec fn affirmative(folded: Seq<char>) -> bool {
    folded == "y"@ || folded == "yes"@
}

/// Whether an answer that is already trimmed and lowercased is affirmative.
pub fn is_affirmative(folded: &str) -> (r: bool)
    ensures
        r == affirmative(folded@),
{
    str_eq(folded, "y") || str_eq(folded, "yes")
}

/// Whether the operator's answer confirms a manual step.
pub fn is_confirmation(answer: &str) -> (r: bool)
    ensures
        r == affirmative(lowercased(trimmed(answer@))),
{
    let folded = lowercase_str(trim_str(answer));
    is_affirmative(folded.as_str())
}

/// The arguments joined by single spaces.
pub open spec fn joined_args(args: Seq<String>) -> Seq<char>
    decreases args.len(),
{
    if args.len() == 0 {
        Seq::empty()
    } else if args.len() == 1 {
        args[0]@
    } else {
        joined_args(args.drop_last()) + " "@ + args.last()@
    }
}

/// The command line of a command step: the command, a space, and the
/// arguments separated by spaces.
pub fn command_line(command: &str, args: &Vec<String>) -> (r: String)
    ensures
        r@ == command@ + " "@ + joined_args(args@),
{
    let mut r = String::from_str(command);
    r.append(" ");
    let mut i: usize = 0;
    while i < args.len()
        invariant
            i <= args@.len(),
            r@ == command@ + " "@ + joined_args(args@.take(i as int)),
        decreases args@.len() - i,
    {
        assert(args@.take(i + 1).drop_last() =~= args@.take(i as int));
        if i > 0 {
            r.append(" ");
        }
        r.append(args[i].as_str());
        proof {
            if i == 0 {
                assert(joined_args(args@.take(1)) == args@[0]@);
            }
            assert(r@ =~= command@ + " "@ + joined_args(args@.take(i + 1)));
        }
        i = i + 1;
    }
    assert(args@.take(args@.len() as int) =~= args@);
    r
}

/// The state directory of step number `step_number` of target `target_number`.
pub open spec fn step_state_dir_of(state_dir: Seq<char>, task_name: Seq<char>, target_number: nat, step_number: nat) -> Seq<char> {
    path_join(
        path_join(
            path_join(path_join(path_join(state_dir, "cargo-for-each"@), "tasks"@), task_name),
            decimal_of(target_number),
        ),
        decimal_of(step_number),
    )
}

/// The state directory of step number `step_number` of target `target_number`,
/// which holds the outcome record and the transcript.
pub fn step_state_dir(environment: &Environment, task_name: &str, target_number: usize, step_number: usize) -> (r: String)
    ensures
        r@ == step_state_dir_of(environment.state_dir@, task_name@, target_number as nat, step_number as nat),
{
    let a = join_path(environment.state_dir.as_str(), "cargo-for-each");
    let b = join_path(a.as_str(), "tasks");
    let c = join_path(b.as_str(), task_name);
    let t = decimal_string(target_number);
    let d = join_path(c.as_str(), t.as_str());
    let s = decimal_string(step_number);
    join_path(d.as_str(), s.as_str())
}

} // verus!
