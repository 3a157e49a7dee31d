use cargo_for_each::error::Error;
use cargo_for_each::exec::{ExecSubcommand, ExecType, WorkspaceExecParameters};
use cargo_for_each::target_sets::{resolve_target_set, select_candidates, TargetSet};
use cargo_for_each::targets::{CrateListParameters, CrateType, PackageInfo, WorkspaceListParameters};
use cargo_for_each::{is_standalone_workspace, Config, Crate, Workspace};

fn workspace(dir: &str, standalone: bool) -> Workspace {
    Workspace { manifest_dir: dir.to_string(), is_standalone: standalone }
}

fn krate(dir: &str, ws: &str, types: Vec<CrateType>) -> Crate {
    Crate { manifest_dir: dir.to_string(), workspace_manifest_dir: ws.to_string(), types }
}

fn package(id: &str, name: &str, dir: &str, deps: &[&str]) -> PackageInfo {
    PackageInfo {
        id: id.to_string(),
        name: name.to_string(),
        manifest_path: format!("{dir}/Cargo.toml"),
        manifest_dir: Some(dir.to_string()),
        canonical_dir: Some(dir.to_string()),
        dependencies: deps.iter().map(|d| d.to_string()).collect(),
        target_kinds: vec!["lib".to_string()],
    }
}

fn two_crate_registry() -> Config {
    let mut config = Config::new();
    config.add_workspace(workspace("/w/lib", true));
    config.add_workspace(workspace("/w/app", true));
    config.add_crate(krate("/w/lib", "/w/lib", vec![CrateType::Lib]));
    config.add_crate(krate("/w/app", "/w/app", vec![CrateType::Bin, CrateType::Lib]));
    config
}

#[test]
fn bin_filter_selects_only_the_bin_crate() {
    let config = two_crate_registry();
    let filter = TargetSet::Crates(CrateListParameters { crate_type: Some(CrateType::Bin), standalone: None });
    let candidates = select_candidates(&filter, &config);
    assert_eq!(candidates, vec!["/w/app".to_string()]);
    let packages = vec![package("app 0.1", "app", "/w/app", &["lib"]), package("lib 0.1", "lib", "/w/lib", &[])];
    let rts = resolve_target_set(&filter, &config, &vec![Some("/w/app".to_string())], &packages).ok().unwrap();
    assert_eq!(rts.targets.len(), 1);
    assert_eq!(rts.targets[0].manifest_dir, "/w/app");
    // the lib dependency is not in the set, so no edge is kept
    assert!(rts.targets[0].dependencies.is_empty());
}

#[test]
fn resolution_keeps_in_set_edges_and_is_repeatable() {
    let config = two_crate_registry();
    let filter = TargetSet::Crates(CrateListParameters { crate_type: None, standalone: Some(true) });
    let canon = vec![Some("/w/lib".to_string()), Some("/w/app".to_string())];
    let packages = vec![
        package("lib 0.1", "lib", "/w/lib", &[]),
        package("app 0.1", "app", "/w/app", &["lib", "serde"]),
        package("lib 0.1", "lib", "/w/lib", &[]),
        package("serde 1", "serde", "/registry/serde", &[]),
    ];
    let first = resolve_target_set(&filter, &config, &canon, &packages).ok().unwrap();
    let second = resolve_target_set(&filter, &config, &canon, &packages).ok().unwrap();
    for rts in [&first, &second] {
        assert_eq!(rts.targets.len(), 2);
        assert_eq!(rts.targets[0].manifest_dir, "/w/lib");
        assert!(rts.targets[0].dependencies.is_empty());
        assert_eq!(rts.targets[1].manifest_dir, "/w/app");
        assert_eq!(rts.targets[1].dependencies, vec!["/w/lib".to_string()]);
    }
}

#[test]
fn resolution_reports_missing_package() {
    let config = two_crate_registry();
    let filter = TargetSet::Workspaces(WorkspaceListParameters { no_standalone: false });
    let canon = vec![Some("/w/lib".to_string()), None];
    let packages = vec![package("lib 0.1", "lib", "/w/lib", &[]), package("app 0.1", "app", "/w/app", &[])];
    match resolve_target_set(&filter, &config, &canon, &packages) {
        Err(Error::FoundNoPackageInCargoMetadataWithGivenManifestPath(p)) => assert_eq!(p, "/w/app"),
        _ => panic!("expected a missing package"),
    }
}

#[test]
fn resolution_reports_dependency_path_errors() {
    let config = two_crate_registry();
    let filter = TargetSet::Workspaces(WorkspaceListParameters { no_standalone: false });
    let canon = vec![Some("/w/lib".to_string()), Some("/w/app".to_string())];
    let mut orphan = package("x 1", "x", "/x", &[]);
    orphan.manifest_dir = None;
    orphan.canonical_dir = None;
    orphan.manifest_path = "Cargo.toml".to_string();
    let packages = vec![package("lib 0.1", "lib", "/w/lib", &["x"]), package("app 0.1", "app", "/w/app", &[]), orphan];
    match resolve_target_set(&filter, &config, &canon, &packages) {
        Err(Error::ManifestPathHasNoParentDir(p)) => assert_eq!(p, "Cargo.toml"),
        _ => panic!("expected a manifest path without parent"),
    }
    let mut gone = package("x 1", "x", "/x", &[]);
    gone.canonical_dir = None;
    let packages = vec![package("lib 0.1", "lib", "/w/lib", &["x"]), package("app 0.1", "app", "/w/app", &[]), gone];
    match resolve_target_set(&filter, &config, &canon, &packages) {
        Err(Error::CouldNotDetermineCanonicalManifestPath(p)) => assert_eq!(p, "/x/Cargo.toml"),
        _ => panic!("expected a canonicalization failure"),
    }
}

#[test]
fn later_package_of_same_name_wins() {
    let mut config = Config::new();
    config.add_workspace(workspace("/a", false));
    config.add_workspace(workspace("/b", false));
    let filter = TargetSet::Workspaces(WorkspaceListParameters { no_standalone: true });
    let canon = vec![Some("/a".to_string()), Some("/b".to_string())];
    let packages = vec![
        package("a 1", "a", "/a", &["shared"]),
        package("shared 1", "shared", "/elsewhere", &[]),
        package("b 1", "b", "/b", &[]),
        package("shared 2", "shared", "/b", &[]),
    ];
    let rts = resolve_target_set(&filter, &config, &canon, &packages).ok().unwrap();
    assert_eq!(rts.targets[0].dependencies, vec!["/b".to_string()]);
}

#[test]
fn workspace_filter_skips_standalone() {
    let mut config = two_crate_registry();
    config.add_workspace(workspace("/w/multi", false));
    let filter = TargetSet::Workspaces(WorkspaceListParameters { no_standalone: true });
    assert_eq!(select_candidates(&filter, &config), vec!["/w/multi".to_string()]);
    let all = TargetSet::Workspaces(WorkspaceListParameters { no_standalone: false });
    assert_eq!(select_candidates(&all, &config).len(), 3);
}

#[test]
fn standalone_filter_needs_known_workspace() {
    let mut config = two_crate_registry();
    config.add_crate(krate("/w/orphan", "/nowhere", vec![CrateType::Lib]));
    let filter = TargetSet::Crates(CrateListParameters { crate_type: None, standalone: Some(true) });
    assert_eq!(select_candidates(&filter, &config), vec!["/w/lib".to_string(), "/w/app".to_string()]);
    let not = TargetSet::Crates(CrateListParameters { crate_type: None, standalone: Some(false) });
    assert!(select_candidates(&not, &config).is_empty());
}

#[test]
fn add_is_insert_if_absent() {
    let mut config = two_crate_registry();
    config.add_workspace(workspace("/w/lib", false));
    config.add_crate(krate("/w/lib", "/other", vec![]));
    assert_eq!(config.workspaces.len(), 2);
    assert!(config.workspaces[0].is_standalone);
    assert_eq!(config.crates.len(), 2);
    assert_eq!(config.crates[0].workspace_manifest_dir, "/w/lib");
}

#[test]
fn register_and_remove_workspace() {
    let mut config = Config::new();
    config.register_workspace(
        workspace("/ws", false),
        vec![krate("/ws/a", "/ws", vec![CrateType::Lib]), krate("/ws/b", "/ws", vec![CrateType::Bin]), krate("/ws/a", "/ws", vec![])],
    );
    assert_eq!(config.workspaces.len(), 1);
    assert_eq!(config.crates.len(), 2);
    assert_eq!(config.crates[0].types, vec![CrateType::Lib]);
    config.add_crate(krate("/solo", "/solo", vec![CrateType::Bin]));
    config.remove_target(&"/ws".to_string());
    assert!(config.workspaces.is_empty());
    assert_eq!(config.crates.len(), 1);
    assert_eq!(config.crates[0].manifest_dir, "/solo");
}

#[test]
fn retain_existing_drops_vanished_entries() {
    let mut config = two_crate_registry();
    config.retain_existing(&vec![false, true], &vec![true, false]);
    assert_eq!(config.workspaces.len(), 1);
    assert_eq!(config.workspaces[0].manifest_dir, "/w/app");
    assert_eq!(config.crates.len(), 1);
    assert_eq!(config.crates[0].manifest_dir, "/w/lib");
}

#[test]
fn standalone_workspace_detection() {
    let ws = "/w/a/Cargo.toml".to_string();
    assert!(is_standalone_workspace(&vec![ws.clone()], &ws));
    assert!(!is_standalone_workspace(&vec!["/w/a/x/Cargo.toml".to_string()], &ws));
    assert!(!is_standalone_workspace(&vec![ws.clone(), ws.clone()], &ws));
}

#[test]
fn crate_types_come_from_target_kinds() {
    let mut p = package("p 1", "p", "/p", &[]);
    p.target_kinds = vec!["proc-macro".to_string(), "bin".to_string(), "test".to_string(), "bin".to_string()];
    assert_eq!(CrateType::from_package(&p), vec![CrateType::Bin, CrateType::ProcMacro]);
    p.target_kinds = vec!["rlib".to_string()];
    assert!(CrateType::from_package(&p).is_empty());
}

#[test]
fn exec_selects_like_target_sets() {
    let mut config = two_crate_registry();
    config.add_workspace(workspace("/w/multi", false));
    let exec = ExecType::Workspaces(WorkspaceExecParameters {
        no_standalone: true,
        exec_subcommand: ExecSubcommand { command: "ls".to_string(), args: vec![] },
    });
    assert_eq!(exec.target_dirs(&config), vec!["/w/multi".to_string()]);
    assert_eq!(exec.exec_subcommand().command, "ls");
}
