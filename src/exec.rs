use vstd::prelude::*;

use crate::target_sets::{select_candidates, candidates_of, views, TargetSet};
use crate::targets::{CrateListParameters, CrateType, WorkspaceListParameters};
use crate::Config;

verus! {

/// A command with its arguments.
pub struct ExecSubcommand {
    /// the command to execute
    pub command: String,
    /// its arguments
    pub args: Vec<String>,
}

/// Parameters for executing a command in crate directories.
pub struct CrateExecParameters {
    /// only crates of this type
    pub crate_type: Option<CrateType>,
    /// only crates whose workspace is standalone (or not)
    pub standalone: Option<bool>,
    /// the command to execute
    pub exec_subcommand: ExecSubcommand,
}

/// Parameters for executing a command in workspace directories.
pub struct WorkspaceExecParameters {
    /// leave out standalone workspaces
    pub no_standalone: bool,
    /// the command to execute
    pub exec_subcommand: ExecSubcommand,
}

/// Where to execute a command.
pub enum ExecType {
    /// in each selected workspace directory
    Workspaces(WorkspaceExecParameters),
    /// in each selected crate directory
    Crates(CrateExecParameters),
}

/// Parameters of the exec subcommand.
pub struct ExecParameters {
    /// where to execute
    pub exec_type: ExecType,
}

/// The filter an exec request selects its directories with.
pub open spec fn exec_filter(exec_type: ExecType) -> TargetSet {
    match exec_type {
        ExecType::Workspaces(p) => TargetSet::Workspaces(WorkspaceListParameters { no_standalone: p.no_standalone }),
        ExecType::Crates(p) => TargetSet::Crates(CrateListParameters { crate_type: p.crate_type, standalone: p.standalone }),
    }
}

impl ExecType {
    /// The filter this request selects its directories with.
    pub fn filter(&self) -> (r: TargetSet)
        ensures
            r == exec_filter(*self),
    {
        match self {
            ExecType::Workspaces(p) => TargetSet::Workspaces(WorkspaceListParameters { no_standalone: p.no_standalone }),
            ExecType::Crates(p) => TargetSet::Crates(CrateListParameters { crate_type: p.crate_type, standalone: p.standalone }),
        }
    }

    /// The command and its arguments.
    pub fn exec_subcommand(&self) -> (r: &ExecSubcommand)
        ensures
            r == match *self {
                ExecType::Workspaces(p) => p.exec_subcommand,
                ExecType::Crates(p) => p.exec_subcommand,
            },
    {
        match self {
            ExecType::Workspaces(p) => &p.exec_subcommand,
            ExecType::Crates(p) => &p.exec_subcommand,
        }
    }

    /// The directories to execute the command in, in registry order.
    pub fn target_dirs(&self, config: &Config) -> (r: Vec<String>)
        ensures
            views(r@) == candidates_of(exec_filter(*self), *config),
    {
        let f = self.filter();
        select_candidates(&f, config)
    }
}

} // verus!
