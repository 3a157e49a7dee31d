use vstd::prelude::*;

use crate::utils::str_eq;

verus! {

/// The kind of a crate's build target.
#[derive(Clone, Copy, Debug, PartialEq, Eq, Structural)]
pub enum CrateType {
    /// a binary crate
    Bin,
    /// a library crate
    Lib,
    /// a proc-macro crate
    ProcMacro,
}

/// What the resolver and the registry read of one package of a metadata
/// query: its identity, where its manifest is, what it depends on, and the
/// kinds of its build targets.
#[derive(Clone, Debug)]
pub struct PackageInfo {
    /// the package identity
    pub id: String,
    /// the package name
    pub name: String,
    /// the path of the package manifest
    pub manifest_path: String,
    /// the directory of the manifest, if the path has a parent
    pub manifest_dir: Option<String>,
    /// the canonical form of that directory, if it could be determined
    pub canonical_dir: Option<String>,
    /// the names of the declared dependencies, in declaration order
    pub dependencies: Vec<String>,
    /// the kind names of every build target of the package (`bin`, `lib`, `proc-macro`, ...)
    pub target_kinds: Vec<String>,
}

/// A node of a resolved target set.
#[derive(Clone, Debug)]
pub struct Target {
    /// the manifest directory of the target
    pub manifest_dir: String,
    /// the manifest directories of the targets of the same set this one depends on
    pub dependencies: Vec<String>,
}

/// Whether some entry of `kinds` is `kind`.
pub open spec fn has_kind(kinds: Seq<String>, kind: Seq<char>) -> bool {
    exists|i: int| 0 <= i < kinds.len() && (#[trigger] kinds[i])@ == kind
}

/// The crate types of a package with the given target kinds, in the order Bin, Lib, ProcMacro.
pub open spec fn crate_types_of(kinds: Seq<String>) -> Seq<CrateType> {
    let a = if has_kind(kinds, "bin"@) { seq![CrateType::Bin] } else { Seq::empty() };
    let b = if has_kind(kinds, "lib"@) { seq![CrateType::Lib] } else { Seq::empty() };
    let c = if has_kind(kinds, "proc-macro"@) { seq![CrateType::ProcMacro] } else { Seq::empty() };
    a + b + c
}

/// Whether `types` holds `t`.
pub open spec fn has_type(types: Seq<CrateType>, t: CrateType) -> bool {
    exists|i: int| 0 <= i < types.len() && types[i] == t
}

fn has_target_kind(kinds: &Vec<String>, kind: &str) -> (r: bool)
    ensures
        r == has_kind(kinds@, kind@),
{
    let mut i: usize = 0;
    while i < kinds.len()
        invariant
            i <= kinds@.len(),
            forall|j: int| 0 <= j < i ==> (#[trigger] kinds@[j])@ != kind@,
        decreases kinds@.len() - i,
    {
        if str_eq(kinds[i].as_str(), kind) {
            return true;
        }
        i = i + 1;
    }
    false
}

impl CrateType {
    /// The set of crate types of a package, determined by the kinds of its build targets.
    pub fn from_package(package: &PackageInfo) -> (r: Vec<CrateType>)
        ensures
            r@ == crate_types_of(package.target_kinds@),
    {
        let mut r: Vec<CrateType> = Vec::new();
        proof {
            reveal_strlit("bin");
            reveal_strlit("lib");
            reveal_strlit("proc-macro");
        }
        if has_target_kind(&package.target_kinds, "bin") {
            r.push(CrateType::Bin);
        }
        if has_target_kind(&package.target_kinds, "lib") {
            r.push(CrateType::Lib);
        }
        if has_target_kind(&package.target_kinds, "proc-macro") {
            r.push(CrateType::ProcMacro);
        }
        assert(r@ =~= crate_types_of(package.target_kinds@));
        r
    }
}

/// Parameters for listing crates; also the crate filter of a target set.
pub struct CrateListParameters {
    /// only crates of this type
    pub crate_type: Option<CrateType>,
    /// only crates whose workspace is standalone (or not)
    pub standalone: Option<bool>,
}

/// Parameters for listing workspaces; also the workspace filter of a target set.
pub struct WorkspaceListParameters {
    /// leave out standalone workspaces
    pub no_standalone: bool,
}

/// The kind of object to list.
pub enum ListType {
    /// list workspaces
    Workspaces(WorkspaceListParameters),
    /// list crates
    Crates(CrateListParameters),
}

/// Parameters of the list subcommand.
pub struct ListParameters {
    /// what to list
    pub list_type: ListType,
}

/// Parameters of the add subcommand.
pub struct AddParameters {
    /// the manifest to add; a workspace manifest adds all its member crates too
    pub manifest_path: String,
}

/// Parameters of the remove subcommand.
pub struct RemoveParameters {
    /// the manifest directory to remove
    pub manifest_path: String,
}

/// The target subcommands.
pub enum TargetType {
    /// list workspaces or crates
    List(ListParameters),
    /// add a workspace or crate
    Add(AddParameters),
    /// remove a workspace or crate
    Remove(RemoveParameters),
    /// drop vanished entries, pick up new members and refresh crate types
    Refresh,
}

/// Parameters of the target subcommand.
pub struct TargetParameters {
    /// the target subcommand to run
    pub target_type: TargetType,
}

} // verus!
