use openfare_js_lib::npm::{
    identify_dependency_files, identify_node_modules_directories, local_node_modules_directory,
    plan_install_tree, DependencyFileType, InstallTreeResolution,
};
use openfare_js_lib::paths::{AbsPath, FsSnapshot};

fn path(components: &[&str]) -> AbsPath {
    let v: Vec<String> = components.iter().map(|c| c.to_string()).collect();
    AbsPath::from_components(v)
}

fn snapshot(files: &[&[&str]], dirs: &[&[&str]]) -> FsSnapshot {
    FsSnapshot {
        files: files.iter().map(|p| path(p)).collect(),
        dirs: dirs.iter().map(|p| path(p)).collect(),
    }
}

#[test]
fn no_manifest_anywhere_returns_absent() {
    let fs = snapshot(&[], &[]);
    let wd = path(&["home", "user", "project"]);
    assert!(identify_dependency_files(&wd, &fs).is_none());
}

#[test]
fn manifest_in_working_directory_wins() {
    let fs = snapshot(&[&["home", "user", "project", "package.json"]], &[]);
    let wd = path(&["home", "user", "project"]);
    let files = identify_dependency_files(&wd, &fs).unwrap();
    assert_eq!(files.len(), 1);
    assert_eq!(files[0].file_type, DependencyFileType::PackageJson);
    assert_eq!(
        files[0].path.components,
        vec![
            "home".to_string(),
            "user".to_string(),
            "project".to_string(),
            "package.json".to_string()
        ]
    );
}

#[test]
fn nearest_level_wins_and_deeper_ancestors_are_ignored() {
    // Manifests exist both one level up and at the root; only the nearer
    // one may be reported.
    let fs = snapshot(&[&["home", "package.json"], &["package.json"]], &[]);
    let wd = path(&["home", "user"]);
    let files = identify_dependency_files(&wd, &fs).unwrap();
    assert_eq!(files.len(), 1);
    assert_eq!(
        files[0].path.components,
        vec!["home".to_string(), "package.json".to_string()]
    );
}

#[test]
fn both_dependency_files_are_reported_in_fixed_order() {
    let fs = snapshot(
        &[&["p", "package.json"], &["p", "package-lock.json"]],
        &[],
    );
    let wd = path(&["p"]);
    let files = identify_dependency_files(&wd, &fs).unwrap();
    assert_eq!(files.len(), 2);
    assert_eq!(files[0].file_type, DependencyFileType::PackageLockJson);
    assert_eq!(files[1].file_type, DependencyFileType::PackageJson);
}

#[test]
fn manifest_at_filesystem_root_is_found() {
    let fs = snapshot(&[&["package-lock.json"]], &[]);
    let wd = path(&["a", "b", "c"]);
    let files = identify_dependency_files(&wd, &fs).unwrap();
    assert_eq!(files.len(), 1);
    assert_eq!(
        files[0].path.components,
        vec!["package-lock.json".to_string()]
    );
}

#[test]
fn file_name_of_each_dependency_file_type() {
    assert_eq!(DependencyFileType::PackageJson.file_name(), "package.json");
    assert_eq!(
        DependencyFileType::PackageLockJson.file_name(),
        "package-lock.json"
    );
}

#[test]
fn search_from_filesystem_root_checks_the_root_itself() {
    let fs = snapshot(&[&["package.json"]], &[]);
    let wd = path(&[]);
    let files = identify_dependency_files(&wd, &fs).unwrap();
    assert_eq!(files.len(), 1);
    assert_eq!(files[0].path.components, vec!["package.json".to_string()]);
}

#[test]
fn install_tree_plan_follows_the_fallback_protocol() {
    let wd = path(&["p"]);
    let fs_without = snapshot(&[], &[]);
    assert!(matches!(
        plan_install_tree(&wd, &fs_without),
        InstallTreeResolution::InstallThenRetry
    ));
    let fs_with = snapshot(&[], &[&["p", "node_modules"]]);
    match plan_install_tree(&wd, &fs_with) {
        InstallTreeResolution::UseTree(p) => assert_eq!(
            p.components,
            vec!["p".to_string(), "node_modules".to_string()]
        ),
        InstallTreeResolution::InstallThenRetry => panic!("expected a tree"),
    }
}

#[test]
fn node_modules_not_found_without_directory() {
    let fs = snapshot(&[], &[]);
    let wd = path(&["home", "user", "project"]);
    assert!(local_node_modules_directory(&wd, &fs).is_none());
    assert!(identify_node_modules_directories(&wd, &fs).local.is_none());
}

#[test]
fn nearest_node_modules_directory_is_returned() {
    let fs = snapshot(
        &[],
        &[&["home", "node_modules"], &["node_modules"]],
    );
    let wd = path(&["home", "user"]);
    let found = local_node_modules_directory(&wd, &fs).unwrap();
    assert_eq!(
        found.components,
        vec!["home".to_string(), "node_modules".to_string()]
    );
}

#[test]
fn node_modules_in_working_directory_wins() {
    let fs = snapshot(&[], &[&["p", "node_modules"]]);
    let wd = path(&["p"]);
    let found = identify_node_modules_directories(&wd, &fs).local.unwrap();
    assert_eq!(
        found.components,
        vec!["p".to_string(), "node_modules".to_string()]
    );
}
