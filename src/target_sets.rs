use vstd::prelude::*;

use crate::error::Error;
use crate::paths::{join_path, path_join};
use crate::targets::{has_type, CrateListParameters, CrateType, PackageInfo, Target, WorkspaceListParameters};
use crate::{config_dir_of, config_dir_path, Config, Crate, Environment, Workspace};

verus! {

/// The targets a target set resolved to, in the order the filter selected them.
#[derive(Clone, Debug)]
pub struct ResolvedTargetSet {
    /// the targets of the set
    pub targets: Vec<Target>,
}

/// A filter over the registry.
pub enum TargetSet {
    /// the crates that pass a crate filter
    Crates(CrateListParameters),
    /// the workspaces that pass a workspace filter
    Workspaces(WorkspaceListParameters),
}

/// The directory that holds the saved target sets.
pub open spec fn target_sets_dir_of(config_dir: Seq<char>) -> Seq<char> {
    path_join(config_dir_of(config_dir), "target-sets"@)
}

/// The directory that holds the saved target sets.
pub fn dir_path(environment: &Environment) -> (r: String)
    ensures
        r@ == target_sets_dir_of(environment.config_dir@),
{
    let dir = config_dir_path(environment);
    join_path(dir.as_str(), "target-sets")
}

/// The `target-set` subcommands.
pub enum TargetSetSubCommand {
    /// list the saved target sets
    List,
    /// create a target set
    Create(CreateTargetSetParameters),
    /// remove a target set
    Remove(RemoveTargetSetParameters),
}

/// Parameters of the `target-set` subcommand.
pub struct TargetSetParameters {
    /// the `target-set` subcommand to run
    pub sub_command: TargetSetSubCommand,
}

/// Parameters for creating a target set.
pub struct CreateTargetSetParameters {
    /// the name of the target set
    pub name: String,
    /// the filter the set stands for
    pub target_set: TargetSet,
}

/// Parameters for removing a target set.
pub struct RemoveTargetSetParameters {
    /// the name of the target set
    pub name: String,
}


/// The character sequences of a sequence of strings.
pub open spec fn views(v: Seq<String>) -> Seq<Seq<char>> {
    v.map_values(|s: String| s@)
}

/// Whether a workspace passes a workspace filter.
pub open spec fn workspace_passes(p: WorkspaceListParameters, w: Workspace) -> bool {
    !p.no_standalone || !w.is_standalone
}

/// The standalone flag of the last workspace of `ws` in directory `dir`.
pub open spec fn standalone_of(ws: Seq<Workspace>, dir: Seq<char>) -> Option<bool>
    decreases ws.len(),
{
    if ws.len() == 0 {
        None
    } else if ws.last().manifest_dir@ == dir {
        Some(ws.last().is_standalone)
    } else {
        standalone_of(ws.drop_last(), dir)
    }
}

/// Whether a crate passes a crate filter: it has the requested type, and its
/// workspace is known and has the requested standalone flag.
pub open spec fn crate_passes(p: CrateListParameters, ws: Seq<Workspace>, c: Crate) -> bool {
    &&& (p.crate_type matches Some(t) ==> has_type(c.types@, t))
    &&& (p.standalone matches Some(sa) ==> standalone_of(ws, c.workspace_manifest_dir@) == Some(sa))
}

/// The directories of the workspaces among the first `n` that pass the filter.
pub open spec fn selected_workspaces(p: WorkspaceListParameters, ws: Seq<Workspace>, n: int) -> Seq<Seq<char>>
    decreases n,
{
    if n <= 0 {
        Seq::empty()
    } else if workspace_passes(p, ws[n - 1]) {
        selected_workspaces(p, ws, n - 1).push(ws[n - 1].manifest_dir@)
    } else {
        selected_workspaces(p, ws, n - 1)
    }
}

/// The directories of the crates among the first `n` that pass the filter.
pub open spec fn selected_crates(p: CrateListParameters, ws: Seq<Workspace>, cs: Seq<Crate>, n: int) -> Seq<Seq<char>>
    decreases n,
{
    if n <= 0 {
        Seq::empty()
    } else if crate_passes(p, ws, cs[n - 1]) {
        selected_crates(p, ws, cs, n - 1).push(cs[n - 1].manifest_dir@)
    } else {
        selected_crates(p, ws, cs, n - 1)
    }
}

/// The manifest directories a target set selects from the registry, in registry order.
pub open spec fn candidates_of(target_set: TargetSet, config: Config) -> Seq<Seq<char>> {
    match target_set {
        TargetSet::Workspaces(p) => selected_workspaces(p, config.workspaces@, config.workspaces@.len() as int),
        TargetSet::Crates(p) => selected_crates(p, config.workspaces@, config.crates@, config.crates@.len() as int),
    }
}

/// Whether `types` holds `t`.
pub fn types_contain(types: &Vec<CrateType>, t: CrateType) -> (r: bool)
    ensures
        r == has_type(types@, t),
{
    let mut i: usize = 0;
    while i < types.len()
        invariant
            i <= types@.len(),
            forall|j: int| 0 <= j < i ==> types@[j] != t,
        decreases types@.len() - i,
    {
        if types[i] == t {
            return true;
        }
        i = i + 1;
    }
    false
}

fn find_standalone(workspaces: &Vec<Workspace>, dir: &String) -> (r: Option<bool>)
    ensures
        r == standalone_of(workspaces@, dir@),
{
    let mut i: usize = workspaces.len();
    assert(workspaces@.take(i as int) =~= workspaces@);
    while i > 0
        invariant
            i <= workspaces@.len(),
            standalone_of(workspaces@, dir@) == standalone_of(workspaces@.take(i as int), dir@),
        decreases i,
    {
        assert(workspaces@.take(i as int).drop_last() =~= workspaces@.take(i - 1));
        if workspaces[i - 1].manifest_dir == *dir {
            return Some(workspaces[i - 1].is_standalone);
        }
        i = i - 1;
    }
    assert(workspaces@.take(0) =~= Seq::<Workspace>::empty());
    None
}

/// Whether a workspace passes a workspace filter.
pub fn workspace_matches(params: &WorkspaceListParameters, workspace: &Workspace) -> (r: bool)
    ensures
        r == workspace_passes(*params, *workspace),
{
    !params.no_standalone || !workspace.is_standalone
}

/// Whether a crate of the registry passes a crate filter.
pub fn crate_matches(params: &CrateListParameters, config: &Config, krate: &Crate) -> (r: bool)
    ensures
        r == crate_passes(*params, config.workspaces@, *krate),
{
    if let Some(t) = params.crate_type {
        if !types_contain(&krate.types, t) {
            return false;
        }
    }
    if let Some(standalone) = params.standalone {
        match find_standalone(&config.workspaces, &krate.workspace_manifest_dir) {
            Some(s) => {
                if s != standalone {
                    return false;
                }
            },
            None => {
                return false;
            },
        }
    }
    true
}

/// The manifest directories a target set selects from the registry, in registry order.
pub fn select_candidates(target_set: &TargetSet, config: &Config) -> (r: Vec<String>)
    ensures
        views(r@) == candidates_of(*target_set, *config),
{
    let mut r: Vec<String> = Vec::new();
    match target_set {
        TargetSet::Workspaces(p) => {
            let mut i: usize = 0;
            while i < config.workspaces.len()
                invariant
                    i <= config.workspaces@.len(),
                    views(r@) == selected_workspaces(*p, config.workspaces@, i as int),
                decreases config.workspaces@.len() - i,
            {
                if workspace_matches(p, &config.workspaces[i]) {
                    r.push(config.workspaces[i].manifest_dir.clone());
                }
                assert(views(r@) =~= selected_workspaces(*p, config.workspaces@, i + 1));
                i = i + 1;
            }
        },
        TargetSet::Crates(p) => {
            let mut i: usize = 0;
            while i < config.crates.len()
                invariant
                    i <= config.crates@.len(),
                    views(r@) == selected_crates(*p, config.workspaces@, config.crates@, i as int),
                decreases config.crates@.len() - i,
            {
                if crate_matches(p, config, &config.crates[i]) {
                    r.push(config.crates[i].manifest_dir.clone());
                }
                assert(views(r@) =~= selected_crates(*p, config.workspaces@, config.crates@, i + 1));
                i = i + 1;
            }
        },
    }
    r
}

/// A resolved target, as values.
pub struct TargetModel {
    /// the manifest directory
    pub manifest_dir: Seq<char>,
    /// the in-set dependency directories
    pub dependencies: Seq<Seq<char>>,
}

/// Why a resolution fails, as values.
pub enum ResolveFailure {
    /// no package of the metadata lives in this candidate directory
    NoPackage(Seq<char>),
    /// the manifest path of a dependency has no parent directory
    NoParentDir(Seq<char>),
    /// the directory of the manifest path of a dependency has no canonical form
    NotCanonical(Seq<char>),
}

/// A target as values.
pub open spec fn target_model(t: Target) -> TargetModel {
    TargetModel { manifest_dir: t.manifest_dir@, dependencies: views(t.dependencies@) }
}

/// The targets of a sequence as values.
pub open spec fn target_models(ts: Seq<Target>) -> Seq<TargetModel> {
    ts.map_values(|t: Target| target_model(t))
}

/// Whether the error `e` reports the failure `f`.
pub open spec fn reports(e: Error, f: ResolveFailure) -> bool {
    match (e, f) {
        (Error::FoundNoPackageInCargoMetadataWithGivenManifestPath(p), ResolveFailure::NoPackage(q)) => p@ == q,
        (Error::ManifestPathHasNoParentDir(p), ResolveFailure::NoParentDir(q)) => p@ == q,
        (Error::CouldNotDetermineCanonicalManifestPath(p), ResolveFailure::NotCanonical(q)) => p@ == q,
        _ => false,
    }
}

/// The position of the last package named `name`.
pub open spec fn last_with_name(pk: Seq<PackageInfo>, name: Seq<char>) -> Option<int>
    decreases pk.len(),
{
    if pk.len() == 0 {
        None
    } else if pk.last().name@ == name {
        Some(pk.len() - 1)
    } else {
        last_with_name(pk.drop_last(), name)
    }
}

/// The position of the last package with identity `id`.
pub open spec fn last_with_id(pk: Seq<PackageInfo>, id: Seq<char>) -> Option<int>
    decreases pk.len(),
{
    if pk.len() == 0 {
        None
    } else if pk.last().id@ == id {
        Some(pk.len() - 1)
    } else {
        last_with_id(pk.drop_last(), id)
    }
}

/// The package the merged metadata knows under `name`: the name stands for
/// the identity of the last package so named, and the identity for the last
/// package with that identity.
pub open spec fn package_for_name(pk: Seq<PackageInfo>, name: Seq<char>) -> Option<int> {
    match last_with_name(pk, name) {
        Some(i) => last_with_id(pk, pk[i].id@),
        None => None,
    }
}

/// Whether package `j` lives in the canonical directory `canon`.
pub open spec fn lives_in(pk: Seq<PackageInfo>, j: int, canon: Seq<char>) -> bool {
    &&& pk[j].manifest_dir is Some
    &&& pk[j].canonical_dir matches Some(c) && c@ == canon
}

/// Whether the package known under the name of entry `k` lives in `canon`.
pub open spec fn entry_lives_in(pk: Seq<PackageInfo>, k: int, canon: Seq<char>) -> bool {
    package_for_name(pk, pk[k].name@) matches Some(j) && lives_in(pk, j, canon)
}

/// The first entry from `k` on whose named package lives in `canon`.
pub open spec fn first_entry_in(pk: Seq<PackageInfo>, canon: Seq<char>, k: int) -> Option<int>
    decreases pk.len() - k,
{
    if k < 0 || k >= pk.len() {
        None
    } else if entry_lives_in(pk, k, canon) {
        Some(k)
    } else {
        first_entry_in(pk, canon, k + 1)
    }
}

/// The package that a candidate with canonical directory `canon` is: the
/// package known under the first name, in order of the merged metadata,
/// whose package lives there.
pub open spec fn owner_of(pk: Seq<PackageInfo>, canon: Option<String>) -> Option<int> {
    match canon {
        None => None,
        Some(c) => match first_entry_in(pk, c@, 0) {
            Some(k) => package_for_name(pk, pk[k].name@),
            None => None,
        },
    }
}

/// The edge a dependency called `name` contributes: none when the metadata
/// does not know it or it lies outside the candidates, else its canonical
/// directory.
pub open spec fn dep_edge(pk: Seq<PackageInfo>, cands: Seq<Seq<char>>, name: Seq<char>) -> Result<Option<Seq<char>>, ResolveFailure> {
    match package_for_name(pk, name) {
        None => Ok(None),
        Some(d) => if pk[d].manifest_dir is None {
            Err(ResolveFailure::NoParentDir(pk[d].manifest_path@))
        } else {
            match pk[d].canonical_dir {
                None => Err(ResolveFailure::NotCanonical(pk[d].manifest_path@)),
                Some(c) => if cands.contains(c@) { Ok(Some(c@)) } else { Ok(None) },
            }
        },
    }
}

/// The in-set edges of the first `n` dependency names, or the first failure.
pub open spec fn dep_edges(pk: Seq<PackageInfo>, cands: Seq<Seq<char>>, names: Seq<String>, n: int) -> Result<Seq<Seq<char>>, ResolveFailure>
    decreases n,
{
    if n <= 0 {
        Ok(Seq::empty())
    } else {
        match dep_edges(pk, cands, names, n - 1) {
            Err(f) => Err(f),
            Ok(prev) => match dep_edge(pk, cands, names[n - 1]@) {
                Err(f) => Err(f),
                Ok(None) => Ok(prev),
                Ok(Some(d)) => Ok(prev.push(d)),
            },
        }
    }
}

/// The targets of the first `n` candidates, or the first failure.
pub open spec fn resolve_upto(cands: Seq<Seq<char>>, canon: Seq<Option<String>>, pk: Seq<PackageInfo>, n: int) -> Result<Seq<TargetModel>, ResolveFailure>
    decreases n,
{
    if n <= 0 {
        Ok(Seq::empty())
    } else {
        match resolve_upto(cands, canon, pk, n - 1) {
            Err(f) => Err(f),
            Ok(prev) => match owner_of(pk, canon[n - 1]) {
                None => Err(ResolveFailure::NoPackage(cands[n - 1])),
                Some(j) => match dep_edges(pk, cands, pk[j].dependencies@, pk[j].dependencies@.len() as int) {
                    Err(f) => Err(f),
                    Ok(ds) => Ok(prev.push(TargetModel { manifest_dir: cands[n - 1], dependencies: ds })),
                },
            },
        }
    }
}

/// The resolution of candidate directories `cands`, with their canonical
/// forms `canon`, against the packages of their metadata queries `pk`.
pub open spec fn resolution(cands: Seq<Seq<char>>, canon: Seq<Option<String>>, pk: Seq<PackageInfo>) -> Result<Seq<TargetModel>, ResolveFailure> {
    resolve_upto(cands, canon, pk, cands.len() as int)
}

proof fn lemma_dep_edges_failure_stays(pk: Seq<PackageInfo>, cands: Seq<Seq<char>>, names: Seq<String>, i: int, j: int)
    requires
        0 <= i <= j,
        dep_edges(pk, cands, names, i) is Err,
    ensures
        dep_edges(pk, cands, names, j) == dep_edges(pk, cands, names, i),
    decreases j - i,
{
    if j > i {
        lemma_dep_edges_failure_stays(pk, cands, names, i, j - 1);
    }
}

proof fn lemma_resolve_failure_stays(cands: Seq<Seq<char>>, canon: Seq<Option<String>>, pk: Seq<PackageInfo>, i: int, j: int)
    requires
        0 <= i <= j,
        resolve_upto(cands, canon, pk, i) is Err,
    ensures
        resolve_upto(cands, canon, pk, j) == resolve_upto(cands, canon, pk, i),
    decreases j - i,
{
    if j > i {
        lemma_resolve_failure_stays(cands, canon, pk, i, j - 1);
    }
}

proof fn lemma_last_with_name_bounds(pk: Seq<PackageInfo>, name: Seq<char>)
    ensures
        last_with_name(pk, name) matches Some(i) ==> 0 <= i < pk.len() && pk[i].name@ == name,
    decreases pk.len(),
{
    if pk.len() > 0 && pk.last().name@ != name {
        lemma_last_with_name_bounds(pk.drop_last(), name);
    }
}

proof fn lemma_last_with_id_bounds(pk: Seq<PackageInfo>, id: Seq<char>)
    ensures
        last_with_id(pk, id) matches Some(i) ==> 0 <= i < pk.len() && pk[i].id@ == id,
        (exists|k: int| 0 <= k < pk.len() && pk[k].id@ == id) ==> last_with_id(pk, id) is Some,
    decreases pk.len(),
{
    if pk.len() > 0 && pk.last().id@ != id {
        lemma_last_with_id_bounds(pk.drop_last(), id);
        if exists|k: int| 0 <= k < pk.len() && pk[k].id@ == id {
            let k = choose|k: int| 0 <= k < pk.len() && pk[k].id@ == id;
            assert(pk.drop_last()[k].id@ == id);
        }
    }
}

fn find_last_with_name(pk: &Vec<PackageInfo>, name: &String) -> (r: Option<usize>)
    ensures
        r matches Some(i) ==> last_with_name(pk@, name@) == Some(i as int),
        r is None ==> last_with_name(pk@, name@) is None,
{
    let mut i: usize = pk.len();
    assert(pk@.take(i as int) =~= pk@);
    while i > 0
        invariant
            i <= pk@.len(),
            last_with_name(pk@, name@) == last_with_name(pk@.take(i as int), name@),
        decreases i,
    {
        assert(pk@.take(i as int).drop_last() =~= pk@.take(i - 1));
        if pk[i - 1].name == *name {
            return Some(i - 1);
        }
        i = i - 1;
    }
    assert(pk@.take(0) =~= Seq::<PackageInfo>::empty());
    None
}

fn find_last_with_id(pk: &Vec<PackageInfo>, id: &String) -> (r: Option<usize>)
    ensures
        r matches Some(i) ==> last_with_id(pk@, id@) == Some(i as int),
        r is None ==> last_with_id(pk@, id@) is None,
{
    let mut i: usize = pk.len();
    assert(pk@.take(i as int) =~= pk@);
    while i > 0
        invariant
            i <= pk@.len(),
            last_with_id(pk@, id@) == last_with_id(pk@.take(i as int), id@),
        decreases i,
    {
        assert(pk@.take(i as int).drop_last() =~= pk@.take(i - 1));
        if pk[i - 1].id == *id {
            return Some(i - 1);
        }
        i = i - 1;
    }
    assert(pk@.take(0) =~= Seq::<PackageInfo>::empty());
    None
}

fn find_package_for_name(pk: &Vec<PackageInfo>, name: &String) -> (r: Option<usize>)
    ensures
        r matches Some(i) ==> package_for_name(pk@, name@) == Some(i as int) && i < pk@.len(),
        r is None ==> package_for_name(pk@, name@) is None,
{
    match find_last_with_name(pk, name) {
        None => None,
        Some(i) => {
            proof {
                lemma_last_with_name_bounds(pk@, name@);
            }
            let r = find_last_with_id(pk, &pk[i].id);
            proof {
                lemma_last_with_id_bounds(pk@, pk@[i as int].id@);
            }
            r
        },
    }
}

fn find_owner(pk: &Vec<PackageInfo>, canon: &Option<String>) -> (r: Option<usize>)
    ensures
        r matches Some(j) ==> owner_of(pk@, *canon) == Some(j as int) && j < pk@.len(),
        r is None ==> owner_of(pk@, *canon) is None,
{
    let c = match canon {
        None => {
            return None;
        },
        Some(c) => c,
    };
    let mut k: usize = 0;
    while k < pk.len()
        invariant
            k <= pk@.len(),
            *canon == Some(*c),
            first_entry_in(pk@, c@, 0) == first_entry_in(pk@, c@, k as int),
        decreases pk@.len() - k,
    {
        if let Some(j) = find_package_for_name(pk, &pk[k].name) {
            let found = match &pk[j].manifest_dir {
                None => false,
                Some(_) => match &pk[j].canonical_dir {
                    None => false,
                    Some(d) => *d == *c,
                },
            };
            if found {
                assert(entry_lives_in(pk@, k as int, c@));
                assert(first_entry_in(pk@, c@, k as int) == Some(k as int));
                assert(*canon == Some(*c));
                assert(owner_of(pk@, *canon) == package_for_name(pk@, pk@[k as int].name@));
                return Some(j);
            }
        }
        k = k + 1;
    }
    None
}

fn contains_dir(cands: &Vec<String>, dir: &String) -> (r: bool)
    ensures
        r == views(cands@).contains(dir@),
{
    let mut i: usize = 0;
    while i < cands.len()
        invariant
            i <= cands@.len(),
            forall|j: int| 0 <= j < i ==> cands@[j]@ != dir@,
        decreases cands@.len() - i,
    {
        if cands[i] == *dir {
            assert(views(cands@)[i as int] == dir@);
            return true;
        }
        i = i + 1;
    }
    false
}

fn dependency_edges(pk: &Vec<PackageInfo>, cands: &Vec<String>, names: &Vec<String>) -> (r: Result<Vec<String>, Error>)
    ensures
        match dep_edges(pk@, views(cands@), names@, names@.len() as int) {
            Ok(ds) => r matches Ok(v) && views(v@) == ds,
            Err(f) => r matches Err(e) && reports(e, f),
        },
{
    let mut out: Vec<String> = Vec::new();
    let mut i: usize = 0;
    assert(views(out@) =~= Seq::<Seq<char>>::empty());
    while i < names.len()
        invariant
            i <= names@.len(),
            dep_edges(pk@, views(cands@), names@, i as int) == Ok::<Seq<Seq<char>>, ResolveFailure>(views(out@)),
        decreases names@.len() - i,
    {
        let ghost before = views(out@);
        match find_package_for_name(pk, &names[i]) {
            None => {},
            Some(d) => {
                match &pk[d].manifest_dir {
                    None => {
                        let e = Error::ManifestPathHasNoParentDir(pk[d].manifest_path.clone());
                        proof {
                            lemma_dep_edges_failure_stays(pk@, views(cands@), names@, i + 1, names@.len() as int);
                        }
                        return Err(e);
                    },
                    Some(_) => {},
                }
                match &pk[d].canonical_dir {
                    None => {
                        let e = Error::CouldNotDetermineCanonicalManifestPath(pk[d].manifest_path.clone());
                        proof {
                            lemma_dep_edges_failure_stays(pk@, views(cands@), names@, i + 1, names@.len() as int);
                        }
                        return Err(e);
                    },
                    Some(c) => {
                        if contains_dir(cands, c) {
                            out.push(c.clone());
                            assert(views(out@) =~= before.push(c@));
                        }
                    },
                }
            },
        }
        i = i + 1;
    }
    Ok(out)
}

/// Resolves candidate directories against the merged package metadata of
/// their queries: each candidate becomes a target whose dependencies are the
/// canonical directories of those of its package's dependencies that are
/// candidates too. `canonical_candidates[i]` is the canonical form of
/// `candidates[i]`, `None` where it could not be determined.
pub fn resolve_candidates(
    candidates: &Vec<String>,
    canonical_candidates: &Vec<Option<String>>,
    packages: &Vec<PackageInfo>,
) -> (r: Result<ResolvedTargetSet, Error>)
    requires
        canonical_candidates@.len() == candidates@.len(),
    ensures
        match resolution(views(candidates@), canonical_candidates@, packages@) {
            Ok(ts) => r matches Ok(rts) && target_models(rts.targets@) == ts,
            Err(f) => r matches Err(e) && reports(e, f),
        },
{
    let ghost cands = views(candidates@);
    let mut targets: Vec<Target> = Vec::new();
    let mut i: usize = 0;
    assert(target_models(targets@) =~= Seq::<TargetModel>::empty());
    while i < candidates.len()
        invariant
            i <= candidates@.len(),
            canonical_candidates@.len() == candidates@.len(),
            cands == views(candidates@),
            resolve_upto(cands, canonical_candidates@, packages@, i as int) == Ok::<Seq<TargetModel>, ResolveFailure>(target_models(targets@)),
        decreases candidates@.len() - i,
    {
        match find_owner(packages, &canonical_candidates[i]) {
            None => {
                let e = Error::FoundNoPackageInCargoMetadataWithGivenManifestPath(candidates[i].clone());
                proof {
                    lemma_resolve_failure_stays(cands, canonical_candidates@, packages@, i + 1, candidates@.len() as int);
                }
                return Err(e);
            },
            Some(j) => {
                match dependency_edges(packages, candidates, &packages[j].dependencies) {
                    Err(e) => {
                        proof {
                            lemma_resolve_failure_stays(cands, canonical_candidates@, packages@, i + 1, candidates@.len() as int);
                        }
                        return Err(e);
                    },
                    Ok(deps) => {
                        let t = Target { manifest_dir: candidates[i].clone(), dependencies: deps };
                        let ghost before = targets@;
                        targets.push(t);
                        assert(target_models(targets@) =~= target_models(before).push(target_model(t)));
                    },
                }
            },
        }
        i = i + 1;
    }
    Ok(ResolvedTargetSet { targets })
}

/// Whether `r` is what resolving `target_set` over `config` gives, with the
/// canonical candidate directories `canonical_candidates` and the merged
/// package metadata `packages`.
pub open spec fn resolves_to(
    target_set: TargetSet,
    config: Config,
    canonical_candidates: Seq<Option<String>>,
    packages: Seq<PackageInfo>,
    r: Result<ResolvedTargetSet, Error>,
) -> bool {
    match resolution(candidates_of(target_set, config), canonical_candidates, packages) {
        Ok(ts) => r matches Ok(rts) && target_models(rts.targets@) == ts,
        Err(f) => r matches Err(e) && reports(e, f),
    }
}

/// Resolves a target set over the registry into targets with their in-set
/// dependency edges.
///
/// The candidates are the manifest directories the filter selects
/// (`select_candidates`); `canonical_candidates` holds their canonical forms
/// in the same order, and `packages` the packages of the metadata queries of
/// all candidates, in candidate order.
pub fn resolve_target_set(
    target_set: &TargetSet,
    config: &Config,
    canonical_candidates: &Vec<Option<String>>,
    packages: &Vec<PackageInfo>,
) -> (r: Result<ResolvedTargetSet, Error>)
    requires
        canonical_candidates@.len() == candidates_of(*target_set, *config).len(),
    ensures
        resolves_to(*target_set, *config, canonical_candidates@, packages@, r),
{
    let candidates = select_candidates(target_set, config);
    proof {
        assert(views(candidates@).len() == candidates@.len());
    }
    resolve_candidates(&candidates, canonical_candidates, packages)
}

/// Resolution depends on nothing but the filter, the registry and the
/// metadata answers: two resolutions of the same inputs agree on success,
/// on every target and edge, and on the failure they report.
pub proof fn law_resolution_is_deterministic(
    target_set: TargetSet,
    config: Config,
    canonical_candidates: Seq<Option<String>>,
    packages: Seq<PackageInfo>,
    r1: Result<ResolvedTargetSet, Error>,
    r2: Result<ResolvedTargetSet, Error>,
)
    requires
        resolves_to(target_set, config, canonical_candidates, packages, r1),
        resolves_to(target_set, config, canonical_candidates, packages, r2),
    ensures
        (r1 is Ok) == (r2 is Ok),
        r1 is Ok ==> target_models(r1->Ok_0.targets@) == target_models(r2->Ok_0.targets@),
        r1 is Err ==> exists|f: ResolveFailure| reports(r1->Err_0, f) && reports(r2->Err_0, f),
{
    match resolution(candidates_of(target_set, config), canonical_candidates, packages) {
        Ok(ts) => {},
        Err(f) => {
            assert(reports(r1->Err_0, f) && reports(r2->Err_0, f));
        },
    }
}

proof fn lemma_dep_edges_in_candidates(pk: Seq<PackageInfo>, cands: Seq<Seq<char>>, names: Seq<String>, n: int)
    ensures
        dep_edges(pk, cands, names, n) matches Ok(ds) ==> forall|j: int| 0 <= j < ds.len() ==> cands.contains(#[trigger] ds[j]),
    decreases n,
{
    if n > 0 {
        lemma_dep_edges_in_candidates(pk, cands, names, n - 1);
    }
}

proof fn lemma_resolve_upto_shape(cands: Seq<Seq<char>>, canon: Seq<Option<String>>, pk: Seq<PackageInfo>, n: int)
    requires
        0 <= n <= cands.len(),
    ensures
        resolve_upto(cands, canon, pk, n) matches Ok(ts) ==> {
            &&& ts.len() == n
            &&& forall|i: int| 0 <= i < n ==> (#[trigger] ts[i]).manifest_dir == cands[i]
            &&& forall|i: int, j: int| 0 <= i < n && 0 <= j < ts[i].dependencies.len() ==> cands.contains(#[trigger] ts[i].dependencies[j])
        },
    decreases n,
{
    if n > 0 {
        lemma_resolve_upto_shape(cands, canon, pk, n - 1);
        if let Ok(prev) = resolve_upto(cands, canon, pk, n - 1) {
            if let Some(j) = owner_of(pk, canon[n - 1]) {
                lemma_dep_edges_in_candidates(pk, cands, pk[j].dependencies@, pk[j].dependencies@.len() as int);
            }
        }
    }
}

/// Whether some target of `ts` has manifest directory `dir`.
pub open spec fn is_target_dir(ts: Seq<Target>, dir: Seq<char>) -> bool {
    exists|k: int| 0 <= k < ts.len() && (#[trigger] ts[k]).manifest_dir@ == dir
}

/// Closure: every dependency edge of a resolved target set points at the
/// manifest directory of a target of the same set.
pub proof fn law_edges_stay_in_set(
    target_set: TargetSet,
    config: Config,
    canonical_candidates: Seq<Option<String>>,
    packages: Seq<PackageInfo>,
    r: Result<ResolvedTargetSet, Error>,
)
    requires
        resolves_to(target_set, config, canonical_candidates, packages, r),
    ensures
        r matches Ok(rts) ==> forall|i: int, j: int|
            0 <= i < rts.targets@.len() && 0 <= j < rts.targets@[i].dependencies@.len()
                ==> is_target_dir(rts.targets@, (#[trigger] rts.targets@[i].dependencies@[j])@),
{
    let cands = candidates_of(target_set, config);
    lemma_resolve_upto_shape(cands, canonical_candidates, packages, cands.len() as int);
    if let Ok(rts) = r {
        let ts = resolution(cands, canonical_candidates, packages)->Ok_0;
        assert forall|i: int, j: int|
            0 <= i < rts.targets@.len() && 0 <= j < rts.targets@[i].dependencies@.len()
                implies is_target_dir(rts.targets@, (#[trigger] rts.targets@[i].dependencies@[j])@) by {
            assert(target_models(rts.targets@)[i] == ts[i]);
            assert(ts[i].dependencies[j] == rts.targets@[i].dependencies@[j]@);
            assert(cands.contains(ts[i].dependencies[j]));
            let k = choose|k: int| 0 <= k < cands.len() && cands[k] == ts[i].dependencies[j];
            assert(target_models(rts.targets@)[k] == ts[k]);
            assert(rts.targets@[k].manifest_dir@ == cands[k]);
        }
    }
}
} // verus!
