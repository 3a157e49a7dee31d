//! Managing a fleet of cargo workspaces and crates, and running multi-step
//! plans across them in dependency order with resumable per-step state.
//!
//! The library holds the decisions: which targets a filter selects, how a
//! target set is resolved into a dependency graph, which step runs next, and
//! how an all-targets run schedules its wavefronts. Reading and writing files,
//! spawning processes and querying package metadata are left to the caller,
//! which hands the results in as plain values.

/// Errors of the library.
pub mod error;
/// Running one command in each selected directory.
pub mod exec;
/// Filesystem-style path composition.
pub mod paths;
/// Plans and their steps.
pub mod plans;
/// The completion records of steps, and the decisions of the step executor.
pub mod records;
/// The all-targets scheduler.
pub mod scheduler;
/// Target sets and their resolution into a dependency graph.
pub mod target_sets;
/// Targets, crate types and the package facts the resolver reads.
pub mod targets;
/// Tasks: completion records and the scheduler.
pub mod tasks;
/// Locating executables.
pub mod utils;

use vstd::prelude::*;

use crate::paths::{join_path, path_join};
use crate::targets::CrateType;

verus! {

/// The values that come from the process environment, held explicitly so
/// that every component can be run against a hermetic one.
#[derive(Clone, Debug)]
pub struct Environment {
    /// the user's configuration directory
    pub config_dir: String,
    /// the user's state directory
    pub state_dir: String,
    /// the directories of the executable search path
    pub paths: Vec<String>,
}

/// A known workspace.
#[derive(Clone, Debug)]
pub struct Workspace {
    /// the directory that contains the workspace manifest
    pub manifest_dir: String,
    /// whether the workspace consists of a single crate at its root
    pub is_standalone: bool,
}

/// A known crate.
#[derive(Clone, Debug)]
pub struct Crate {
    /// the directory that contains the crate manifest
    pub manifest_dir: String,
    /// the directory of the manifest of the workspace the crate belongs to
    pub workspace_manifest_dir: String,
    /// the build target kinds of the crate, in the order Bin, Lib, ProcMacro, each at most once
    pub types: Vec<CrateType>,
}

/// The registry of known workspaces and crates.
#[derive(Clone, Debug)]
pub struct Config {
    /// every known workspace
    pub workspaces: Vec<Workspace>,
    /// every known crate
    pub crates: Vec<Crate>,
}

/// Whether some workspace of `ws` lives in directory `dir`.
pub open spec fn has_workspace_dir(ws: Seq<Workspace>, dir: Seq<char>) -> bool {
    exists|i: int| 0 <= i < ws.len() && (#[trigger] ws[i]).manifest_dir@ == dir
}

/// Whether some crate of `cs` lives in directory `dir`.
pub open spec fn has_crate_dir(cs: Seq<Crate>, dir: Seq<char>) -> bool {
    exists|i: int| 0 <= i < cs.len() && (#[trigger] cs[i]).manifest_dir@ == dir
}

/// The workspaces of the first `n` of `ws` that do not live in `dir`.
pub open spec fn workspaces_without(ws: Seq<Workspace>, dir: Seq<char>, n: int) -> Seq<Workspace>
    decreases n,
{
    if n <= 0 {
        Seq::empty()
    } else if ws[n - 1].manifest_dir@ != dir {
        workspaces_without(ws, dir, n - 1).push(ws[n - 1])
    } else {
        workspaces_without(ws, dir, n - 1)
    }
}

/// The crates of the first `n` of `cs` that neither live in `dir` nor belong
/// to the workspace there.
pub open spec fn crates_without(cs: Seq<Crate>, dir: Seq<char>, n: int) -> Seq<Crate>
    decreases n,
{
    if n <= 0 {
        Seq::empty()
    } else if cs[n - 1].manifest_dir@ != dir && cs[n - 1].workspace_manifest_dir@ != dir {
        crates_without(cs, dir, n - 1).push(cs[n - 1])
    } else {
        crates_without(cs, dir, n - 1)
    }
}

/// The entries of the first `n` of `v` whose flag in `keep` is set.
pub open spec fn kept<T>(v: Seq<T>, keep: Seq<bool>, n: int) -> Seq<T>
    decreases n,
{
    if n <= 0 {
        Seq::empty()
    } else if keep[n - 1] {
        kept(v, keep, n - 1).push(v[n - 1])
    } else {
        kept(v, keep, n - 1)
    }
}

/// The crates after adding each of the first `n` of `members` in turn,
/// skipping those whose directory is already known.
pub open spec fn with_members(cs: Seq<Crate>, members: Seq<Crate>, n: int) -> Seq<Crate>
    decreases n,
{
    if n <= 0 {
        cs
    } else {
        let prev = with_members(cs, members, n - 1);
        if has_crate_dir(prev, members[n - 1].manifest_dir@) {
            prev
        } else {
            prev.push(members[n - 1])
        }
    }
}

/// Whether the members of a workspace make it standalone: a single member
/// whose manifest is the workspace manifest itself.
pub open spec fn standalone_members(member_manifest_paths: Seq<String>, workspace_manifest_path: Seq<char>) -> bool {
    member_manifest_paths.len() == 1 && member_manifest_paths[0]@ == workspace_manifest_path
}

/// Whether a workspace with these member manifests is standalone.
pub fn is_standalone_workspace(member_manifest_paths: &Vec<String>, workspace_manifest_path: &String) -> (r: bool)
    ensures
        r == standalone_members(member_manifest_paths@, workspace_manifest_path@),
{
    member_manifest_paths.len() == 1 && member_manifest_paths[0] == *workspace_manifest_path
}

/// The configuration directory of this tool under the user's configuration root.
pub open spec fn config_dir_of(config_dir: Seq<char>) -> Seq<char> {
    path_join(config_dir, "cargo-for-each"@)
}

impl Config {
    /// An empty registry.
    pub fn new() -> (r: Config)
        ensures
            r.workspaces@.len() == 0,
            r.crates@.len() == 0,
    {
        Config { workspaces: Vec::new(), crates: Vec::new() }
    }

    /// Adds a workspace unless one with the same manifest directory is already known.
    pub fn add_workspace(&mut self, workspace: Workspace)
        ensures
            final(self).crates@ == old(self).crates@,
            has_workspace_dir(old(self).workspaces@, workspace.manifest_dir@)
                ==> final(self).workspaces@ == old(self).workspaces@,
            !has_workspace_dir(old(self).workspaces@, workspace.manifest_dir@)
                ==> final(self).workspaces@ == old(self).workspaces@.push(workspace),
    {
        let mut i: usize = 0;
        while i < self.workspaces.len()
            invariant
                i <= self.workspaces@.len(),
                forall|j: int|
                    0 <= j < i ==> (#[trigger] self.workspaces@[j]).manifest_dir@
                        != workspace.manifest_dir@,
            decreases self.workspaces@.len() - i,
        {
            if self.workspaces[i].manifest_dir == workspace.manifest_dir {
                return;
            }
            i = i + 1;
        }
        self.workspaces.push(workspace);
    }

    /// Adds a crate unless one with the same manifest directory is already known.
    pub fn add_crate(&mut self, krate: Crate)
        ensures
            final(self).workspaces@ == old(self).workspaces@,
            has_crate_dir(old(self).crates@, krate.manifest_dir@)
                ==> final(self).crates@ == old(self).crates@,
            !has_crate_dir(old(self).crates@, krate.manifest_dir@)
                ==> final(self).crates@ == old(self).crates@.push(krate),
    {
        let mut i: usize = 0;
        while i < self.crates.len()
            invariant
                i <= self.crates@.len(),
                forall|j: int|
                    0 <= j < i ==> (#[trigger] self.crates@[j]).manifest_dir@
                        != krate.manifest_dir@,
            decreases self.crates@.len() - i,
        {
            if self.crates[i].manifest_dir == krate.manifest_dir {
                return;
            }
            i = i + 1;
        }
        self.crates.push(krate);
    }

    /// Adds a workspace and its member crates, each unless already known.
    pub fn register_workspace(&mut self, workspace: Workspace, members: Vec<Crate>)
        ensures
            has_workspace_dir(old(self).workspaces@, workspace.manifest_dir@)
                ==> final(self).workspaces@ == old(self).workspaces@,
            !has_workspace_dir(old(self).workspaces@, workspace.manifest_dir@)
                ==> final(self).workspaces@ == old(self).workspaces@.push(workspace),
            final(self).crates@ == with_members(old(self).crates@, members@, members@.len() as int),
    {
        self.add_workspace(workspace);
        let ghost ws = self.workspaces@;
        let mut members = members;
        let ghost all = members@;
        let mut taken: Vec<Crate> = Vec::new();
        let n = members.len();
        let mut i: usize = 0;
        while members.len() > 0
            invariant
                i <= n,
                members@.len() == n - i,
                n == all.len(),
                members@ == all.subrange(i as int, n as int),
                self.workspaces@ == ws,
                self.crates@ == with_members(old(self).crates@, all, i as int),
            decreases members@.len(),
        {
            let m = members.remove(0);
            assert(m == all[i as int]);
            self.add_crate(m);
            i = i + 1;
        }
    }

    /// Forgets the workspace in `manifest_dir`, the crate there, and every
    /// crate of that workspace.
    pub fn remove_target(&mut self, manifest_dir: &String)
        ensures
            final(self).workspaces@ == workspaces_without(old(self).workspaces@, manifest_dir@, old(self).workspaces@.len() as int),
            final(self).crates@ == crates_without(old(self).crates@, manifest_dir@, old(self).crates@.len() as int),
    {
        let mut workspaces: Vec<Workspace> = Vec::new();
        let mut old_workspaces: Vec<Workspace> = Vec::new();
        std::mem::swap(&mut old_workspaces, &mut self.workspaces);
        let ghost ws = old_workspaces@;
        let n = old_workspaces.len();
        let mut i: usize = 0;
        while old_workspaces.len() > 0
            invariant
                i <= ws.len(),
                n == ws.len(),
                old_workspaces@.len() == ws.len() - i,
                old_workspaces@ == ws.subrange(i as int, ws.len() as int),
                workspaces@ == workspaces_without(ws, manifest_dir@, i as int),
            decreases old_workspaces@.len(),
        {
            let w = old_workspaces.remove(0);
            assert(w == ws[i as int]);
            if w.manifest_dir != *manifest_dir {
                workspaces.push(w);
            }
            i = i + 1;
        }
        self.workspaces = workspaces;
        let mut crates: Vec<Crate> = Vec::new();
        let mut old_crates: Vec<Crate> = Vec::new();
        std::mem::swap(&mut old_crates, &mut self.crates);
        let ghost cs = old_crates@;
        let m = old_crates.len();
        let mut j: usize = 0;
        while old_crates.len() > 0
            invariant
                j <= cs.len(),
                m == cs.len(),
                old_crates@.len() == cs.len() - j,
                old_crates@ == cs.subrange(j as int, cs.len() as int),
                crates@ == crates_without(cs, manifest_dir@, j as int),
            decreases old_crates@.len(),
        {
            let c = old_crates.remove(0);
            assert(c == cs[j as int]);
            if c.manifest_dir != *manifest_dir && c.workspace_manifest_dir != *manifest_dir {
                crates.push(c);
            }
            j = j + 1;
        }
        self.crates = crates;
    }

    /// Keeps the workspaces and crates whose flag is set (their manifest
    /// still exists) and drops the others, keeping the order.
    pub fn retain_existing(&mut self, workspace_exists: &Vec<bool>, crate_exists: &Vec<bool>)
        requires
            workspace_exists@.len() == old(self).workspaces@.len(),
            crate_exists@.len() == old(self).crates@.len(),
        ensures
            final(self).workspaces@ == kept(old(self).workspaces@, workspace_exists@, workspace_exists@.len() as int),
            final(self).crates@ == kept(old(self).crates@, crate_exists@, crate_exists@.len() as int),
    {
        let mut workspaces: Vec<Workspace> = Vec::new();
        let mut old_workspaces: Vec<Workspace> = Vec::new();
        std::mem::swap(&mut old_workspaces, &mut self.workspaces);
        let ghost ws = old_workspaces@;
        let n = old_workspaces.len();
        let mut i: usize = 0;
        while old_workspaces.len() > 0
            invariant
                i <= ws.len(),
                n == ws.len(),
                ws.len() == workspace_exists@.len(),
                old_workspaces@.len() == ws.len() - i,
                old_workspaces@ == ws.subrange(i as int, ws.len() as int),
                workspaces@ == kept(ws, workspace_exists@, i as int),
            decreases old_workspaces@.len(),
        {
            let w = old_workspaces.remove(0);
            assert(w == ws[i as int]);
            if workspace_exists[i] {
                workspaces.push(w);
            }
            i = i + 1;
        }
        self.workspaces = workspaces;
        let mut crates: Vec<Crate> = Vec::new();
        let mut old_crates: Vec<Crate> = Vec::new();
        std::mem::swap(&mut old_crates, &mut self.crates);
        let ghost cs = old_crates@;
        let m = old_crates.len();
        let mut j: usize = 0;
        while old_crates.len() > 0
            invariant
                j <= cs.len(),
                m == cs.len(),
                cs.len() == crate_exists@.len(),
                old_crates@.len() == cs.len() - j,
                old_crates@ == cs.subrange(j as int, cs.len() as int),
                crates@ == kept(cs, crate_exists@, j as int),
            decreases old_crates@.len(),
        {
            let c = old_crates.remove(0);
            assert(c == cs[j as int]);
            if crate_exists[j] {
                crates.push(c);
            }
            j = j + 1;
        }
        self.crates = crates;
    }
}

/// The configuration directory of this tool.
pub fn config_dir_path(environment: &Environment) -> (r: String)
    ensures
        r@ == config_dir_of(environment.config_dir@),
{
    join_path(environment.config_dir.as_str(), "cargo-for-each")
}

/// The registry file.
pub fn config_file(environment: &Environment) -> (r: String)
    ensures
        r@ == path_join(config_dir_of(environment.config_dir@), "cargo-for-each.toml"@),
{
    let dir = config_dir_path(environment);
    join_path(dir.as_str(), "cargo-for-each.toml")
}

} // verus!
