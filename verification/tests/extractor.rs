use openfare_js_lib::package::{DependencyMap, Package};
use openfare_js_lib::tree::{
    get_config, get_lock, get_node_modules_configs, get_node_modules_locks, get_package, FileRead,
    MetadataKind, ModuleEntry,
};
use openfare_js_lib::error::QueryError;

const LOCK: &str = r#"{"scheme-version":"1","plans":{},"payees":{}}"#;

fn manifest(name: &str, version: &str) -> String {
    format!(r#"{{"name":"{}","version":"{}"}}"#, name, version)
}

fn entry(manifest_text: Option<&str>, metadata: FileRead) -> ModuleEntry {
    ModuleEntry {
        is_dir: true,
        manifest: match manifest_text {
            Some(t) => FileRead::Contents(t.to_string()),
            None => FileRead::Absent,
        },
        metadata,
    }
}

fn assert_same_map(a: &DependencyMap, b: &DependencyMap) {
    assert_eq!(a.len(), b.len());
    for (pkg, doc) in a.items() {
        match b.get(pkg) {
            Some(other) => assert_eq!(doc, other),
            None => panic!("identity missing from second map"),
        }
    }
}

#[test]
fn install_tree_scenario_with_lock_without_lock_and_non_directory() {
    let pkg_a = manifest("a", "1.0.0");
    let pkg_b = manifest("b", "2.0.0");
    let entries = vec![
        entry(Some(pkg_a.as_str()), FileRead::Contents(LOCK.to_string())),
        entry(Some(pkg_b.as_str()), FileRead::Absent),
        // A plain file such as a README contributes nothing.
        ModuleEntry {
            is_dir: false,
            manifest: FileRead::Absent,
            metadata: FileRead::Absent,
        },
    ];
    let map = get_node_modules_locks(&entries);
    assert_eq!(map.len(), 2);
    let a = Package::new("a".to_string(), "1.0.0".to_string());
    let b = Package::new("b".to_string(), "2.0.0".to_string());
    assert_eq!(map.get(&a), Some(&Some(LOCK.to_string())));
    assert_eq!(map.get(&b), Some(&None));
}

#[test]
fn extraction_is_idempotent() {
    let pkg_a = manifest("a", "1.0.0");
    let pkg_b = manifest("b", "2.0.0");
    let entries = vec![
        entry(Some(pkg_a.as_str()), FileRead::Contents(LOCK.to_string())),
        entry(Some(pkg_b.as_str()), FileRead::Unreadable),
        entry(None, FileRead::Contents(LOCK.to_string())),
    ];
    let first = get_node_modules_locks(&entries);
    let second = get_node_modules_locks(&entries);
    assert_same_map(&first, &second);
    let third = get_node_modules_configs(&entries);
    let fourth = get_node_modules_configs(&entries);
    assert_same_map(&third, &fourth);
}

#[test]
fn entry_without_manifest_is_absent_entry_without_metadata_is_none() {
    let pkg_b = manifest("b", "2.0.0");
    let entries = vec![
        // No manifest at all: contributes nothing.
        entry(None, FileRead::Contents(LOCK.to_string())),
        // Manifest but no metadata file: present, with no document.
        entry(Some(pkg_b.as_str()), FileRead::Absent),
    ];
    let map = get_node_modules_locks(&entries);
    assert_eq!(map.len(), 1);
    let b = Package::new("b".to_string(), "2.0.0".to_string());
    // "present with no declared metadata" ...
    assert_eq!(map.get(&b), Some(&None));
    // ... is distinct from "not installed at all".
    let a = Package::new("a".to_string(), "1.0.0".to_string());
    assert_eq!(map.get(&a), None);
    assert!(!map.contains(&a));
    assert!(map.contains(&b));
}

#[test]
fn malformed_or_incomplete_manifests_are_skipped() {
    let entries = vec![
        entry(Some("not json"), FileRead::Absent),
        entry(Some(r#"{"name":"only-name"}"#), FileRead::Absent),
        entry(Some(r#"{"version":"1.0.0"}"#), FileRead::Absent),
        entry(Some(r#"{"name":"","version":"1.0.0"}"#), FileRead::Absent),
        entry(Some(r#"{"name":"x","version":""}"#), FileRead::Absent),
        entry(Some(r#"{"name":1,"version":"1.0.0"}"#), FileRead::Absent),
    ];
    let map = get_node_modules_locks(&entries);
    assert_eq!(map.len(), 0);
}

#[test]
fn malformed_metadata_is_recorded_as_absent_document() {
    let pkg_a = manifest("a", "1.0.0");
    let entries = vec![entry(
        Some(pkg_a.as_str()),
        FileRead::Contents("not a document".to_string()),
    )];
    let map = get_node_modules_locks(&entries);
    let a = Package::new("a".to_string(), "1.0.0".to_string());
    assert_eq!(map.get(&a), Some(&None));
}

#[test]
fn config_extraction_accepts_any_json_document() {
    let pkg_a = manifest("a", "1.0.0");
    let entries = vec![entry(
        Some(pkg_a.as_str()),
        FileRead::Contents(r#"{"fee":"1usd"}"#.to_string()),
    )];
    let map = get_node_modules_configs(&entries);
    let a = Package::new("a".to_string(), "1.0.0".to_string());
    assert_eq!(map.get(&a), Some(&Some(r#"{"fee":"1usd"}"#.to_string())));
}

#[test]
fn later_entry_with_same_identity_overrides_earlier() {
    let pkg_a = manifest("a", "1.0.0");
    let entries = vec![
        entry(Some(pkg_a.as_str()), FileRead::Contents(LOCK.to_string())),
        entry(Some(pkg_a.as_str()), FileRead::Absent),
    ];
    let map = get_node_modules_locks(&entries);
    assert_eq!(map.len(), 1);
    let a = Package::new("a".to_string(), "1.0.0".to_string());
    assert_eq!(map.get(&a), Some(&None));
}

#[test]
fn get_package_requires_nonempty_name_and_version() {
    let p = get_package(r#"{"name":"left-pad","version":"1.3.0"}"#).unwrap();
    assert_eq!(p.name, "left-pad");
    assert_eq!(p.version, "1.3.0");
    assert_eq!(
        get_package(r#"{"name":"","version":"1.3.0"}"#),
        Err(QueryError::ManifestParse)
    );
    assert_eq!(get_package("[]"), Err(QueryError::ManifestParse));
}

#[test]
fn get_lock_policies() {
    assert_eq!(get_lock(&FileRead::Absent), Ok(None));
    assert_eq!(
        get_lock(&FileRead::Unreadable),
        Err(QueryError::LockRead)
    );
    assert_eq!(
        get_lock(&FileRead::Contents(LOCK.to_string())),
        Ok(Some(LOCK.to_string()))
    );
    assert_eq!(
        get_lock(&FileRead::Contents("nope".to_string())),
        Err(QueryError::LockParse)
    );
    // The lock payload is opaque to the engine: any JSON document is kept as
    // it is, and the host interprets its schema at the edge.
    assert_eq!(
        get_lock(&FileRead::Contents("{}".to_string())),
        Ok(Some("{}".to_string()))
    );
}

#[test]
fn get_config_policies() {
    assert_eq!(get_config(&FileRead::Absent), Ok(None));
    assert_eq!(
        get_config(&FileRead::Unreadable),
        Err(QueryError::ConfigRead)
    );
    assert_eq!(
        get_config(&FileRead::Contents("{}".to_string())),
        Ok(Some("{}".to_string()))
    );
    assert_eq!(
        get_config(&FileRead::Contents("{".to_string())),
        Err(QueryError::ConfigParse)
    );
}

#[test]
fn metadata_file_names() {
    assert_eq!(MetadataKind::Lock.file_name(), "OpenFare.lock");
    assert_eq!(MetadataKind::Config.file_name(), "OpenFare.json");
}
