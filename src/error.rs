use vstd::prelude::*;

verus! {

/// The failures the library decides on.
#[derive(Debug)]
pub enum Error {
    /// a plan step position lies outside the plan (position, number of steps)
    PlanStepOutOfBounds(usize, usize),
    /// the named plan was not found
    PlanNotFound(String),
    /// the named target set was not found
    TargetSetNotFound(String),
    /// the named task was not found
    TaskNotFound(String),
    /// a target set, plan or task of that name already exists
    AlreadyExists(String),
    /// no package of the metadata lives in the given manifest directory
    FoundNoPackageInCargoMetadataWithGivenManifestPath(String),
    /// the given manifest path has no parent directory
    ManifestPathHasNoParentDir(String),
    /// the directory of the given manifest path could not be canonicalized
    CouldNotDetermineCanonicalManifestPath(String),
    /// the command of a step is not an executable
    CommandNotFound(String),
    /// a command ran and exited unsuccessfully (command line, directory, exit code if any)
    CommandFailed(String, String, Option<i32>),
    /// the operator did not confirm a manual step
    ManualStepNotConfirmed,
    /// some targets can never become ready
    CircularDependency,
    /// a keep-going run recorded at least one failed target
    SomeStepsFailed,
}

} // verus!
