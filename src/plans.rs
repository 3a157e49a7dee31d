use vstd::prelude::*;

use crate::error::Error;
use crate::paths::{join_path, path_join};
use crate::{config_dir_of, config_dir_path, Environment};

verus! {

/// One step of a plan.
#[derive(Clone, Debug)]
pub enum Step {
    /// run a command with arguments in the target directory
    RunCommand {
        /// the command to execute
        command: String,
        /// its arguments
        args: Vec<String>,
    },
    /// a step an operator performs by hand and then confirms
    ManualStep {
        /// the title of the step
        title: String,
        /// what the operator is to do
        instructions: String,
    },
}

/// An ordered list of steps, run in this order on every target.
#[derive(Clone, Debug)]
pub struct Plan {
    /// the steps of the plan
    pub steps: Vec<Step>,
}

/// The directory that holds the saved plans.
pub open spec fn plans_dir_of(config_dir: Seq<char>) -> Seq<char> {
    path_join(config_dir_of(config_dir), "plans"@)
}

impl Plan {
    /// A plan without steps.
    pub fn new() -> (r: Plan)
        ensures
            r.steps@.len() == 0,
    {
        Plan { steps: Vec::new() }
    }

    /// The directory that holds the saved plans.
    pub fn dir_path(environment: &Environment) -> (r: String)
        ensures
            r@ == plans_dir_of(environment.config_dir@),
    {
        let dir = config_dir_path(environment);
        join_path(dir.as_str(), "plans")
    }

    /// The file of the plan called `name`.
    pub fn file_path(name: &str, environment: &Environment) -> (r: String)
        ensures
            r@ == path_join(plans_dir_of(environment.config_dir@), name@ + ".toml"@),
    {
        let dir = Self::dir_path(environment);
        let file = String::from_str(name).concat(".toml");
        join_path(dir.as_str(), file.as_str())
    }

    /// Whether a step can be inserted at the 1-based `position`: before an
    /// existing step or right after the last one.
    pub fn insert_position_in_bounds(&self, position: usize) -> (r: bool)
        ensures
            r == (1 <= position <= self.steps@.len() + 1),
    {
        position != 0 && position - 1 <= self.steps.len()
    }

    /// Inserts `step` so that it becomes step number `position` (1-based).
    pub fn insert_step(&mut self, position: usize, step: Step) -> (r: Result<(), Error>)
        ensures
            (1 <= position <= old(self).steps@.len() + 1) == (r is Ok),
            r is Ok ==> final(self).steps@ == old(self).steps@.insert(position - 1, step),
            r is Err ==> final(self).steps@ == old(self).steps@ && r == Err::<(), Error>(
                Error::PlanStepOutOfBounds(position, old(self).steps@.len() as usize),
            ),
    {
        if !self.insert_position_in_bounds(position) {
            return Err(Error::PlanStepOutOfBounds(position, self.steps.len()));
        }
        self.steps.insert(position - 1, step);
        Ok(())
    }

    /// Removes step number `position` (1-based) and returns it.
    pub fn remove_step(&mut self, position: usize) -> (r: Result<Step, Error>)
        ensures
            (1 <= position <= old(self).steps@.len()) == (r is Ok),
            r is Ok ==> final(self).steps@ == old(self).steps@.remove(position - 1) && r
                == Ok::<Step, Error>(old(self).steps@[position - 1]),
            r is Err ==> final(self).steps@ == old(self).steps@ && r == Err::<Step, Error>(
                Error::PlanStepOutOfBounds(position, old(self).steps@.len() as usize),
            ),
    {
        if position == 0 || position > self.steps.len() {
            return Err(Error::PlanStepOutOfBounds(position, self.steps.len()));
        }
        Ok(self.steps.remove(position - 1))
    }
}

/// Parameters for creating a plan.
pub struct CreatePlanParameters {
    /// the name of the plan
    pub name: String,
}

/// Parameters for appending a step to a plan.
pub struct AddStepParameters {
    /// the name of the plan
    pub name: String,
    /// the step to append
    pub step: Step,
}

/// Parameters for inserting a step into a plan.
pub struct InsertStepParameters {
    /// the name of the plan
    pub name: String,
    /// the 1-based position the step will have
    pub position: usize,
    /// the step to insert
    pub step: Step,
}

/// Parameters for removing a step from a plan.
pub struct RemoveStepParameters {
    /// the name of the plan
    pub name: String,
    /// the 1-based position of the step to remove
    pub position: usize,
}

/// Parameters for deleting a plan.
pub struct DeletePlanParameters {
    /// the name of the plan
    pub name: String,
}

/// Parameters for listing the steps of a plan.
pub struct ListStepsParameters {
    /// the name of the plan
    pub name: String,
}

/// The `plan step` subcommands.
pub enum PlanStepSubCommand {
    /// append a step
    Add(AddStepParameters),
    /// insert a step
    Insert(InsertStepParameters),
    /// remove a step
    Remove(RemoveStepParameters),
    /// list the steps
    List(ListStepsParameters),
}

/// Parameters of the `plan step` subcommand.
pub struct PlanStepParameters {
    /// the `plan step` subcommand to run
    pub sub_command: PlanStepSubCommand,
}

/// The `plan` subcommands.
pub enum PlanSubCommand {
    /// list all plans
    List,
    /// create a plan
    Create(CreatePlanParameters),
    /// delete a plan
    Delete(DeletePlanParameters),
    /// manage the steps of a plan
    Step(PlanStepParameters),
}

/// Parameters of the `plan` subcommand.
pub struct PlanParameters {
    /// the `plan` subcommand to run
    pub sub_command: PlanSubCommand,
}

} // verus!
