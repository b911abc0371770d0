use nested_workspace::roots::{join, nested_workspace_roots_for_package};
use nested_workspace::{
    all_nested_workspace_roots, current_package_nested_workspace_roots, Error, NestedMetadata,
    PackageRecord,
};

fn package(name: &str, manifest_path: &str, roots: Option<&[&str]>) -> PackageRecord {
    PackageRecord {
        name: name.to_string(),
        manifest_path: manifest_path.to_string(),
        metadata: match roots {
            Some(rs) => NestedMetadata::Roots(rs.iter().map(|s| s.to_string()).collect()),
            None => NestedMetadata::Absent,
        },
    }
}

#[test]
fn directory_scan_unions_declared_roots() {
    let packages = vec![
        package("one", "/ws/one/Cargo.toml", Some(&["a"])),
        package("two", "/ws/two/Cargo.toml", Some(&["b", "c"])),
        package("three", "/ws/three/Cargo.toml", None),
    ];
    let roots = all_nested_workspace_roots(&packages).unwrap();
    assert_eq!(roots, vec!["/ws/one/a", "/ws/two/b", "/ws/two/c"]);
    assert!(roots.iter().all(|r| r.starts_with('/')));
}

#[test]
fn directory_scan_keeps_duplicates() {
    let packages = vec![
        package("one", "/ws/one/Cargo.toml", Some(&["../shared"])),
        package("two", "/ws/two/Cargo.toml", Some(&["/ws/one/../shared"])),
    ];
    let roots = all_nested_workspace_roots(&packages).unwrap();
    assert_eq!(roots, vec!["/ws/one/../shared", "/ws/one/../shared"]);
}

#[test]
fn directory_scan_with_no_metadata_is_empty() {
    let packages = vec![package("one", "/ws/one/Cargo.toml", None)];
    assert!(all_nested_workspace_roots(&packages).unwrap().is_empty());
    assert!(all_nested_workspace_roots(&Vec::new()).unwrap().is_empty());
}

#[test]
fn malformed_metadata_is_an_error() {
    let mut p = package("one", "/ws/one/Cargo.toml", None);
    p.metadata = NestedMetadata::Malformed("missing field `roots`".to_string());
    match all_nested_workspace_roots(&vec![p]) {
        Err(Error::MalformedMetadata(m)) => assert_eq!(m, "missing field `roots`"),
        other => panic!("unexpected {other:?}"),
    }
}

#[test]
fn current_package_mode() {
    let packages = vec![
        package("one", "/ws/one/Cargo.toml", None),
        package("p", "/ws/P/Cargo.toml", Some(&["vendor/sub"])),
    ];
    let roots =
        current_package_nested_workspace_roots(&packages, &"/ws/P/Cargo.toml".to_string()).unwrap();
    assert_eq!(roots, vec!["/ws/P/vendor/sub"]);
    match current_package_nested_workspace_roots(&packages, &"/ws/one/Cargo.toml".to_string()) {
        Err(Error::NoNestedWorkspaceMetadata(m)) => assert_eq!(m, "/ws/one/Cargo.toml"),
        other => panic!("unexpected {other:?}"),
    }
    match current_package_nested_workspace_roots(&packages, &"/elsewhere/Cargo.toml".to_string())
    {
        Err(Error::PackageNotFound(m)) => assert_eq!(m, "/elsewhere/Cargo.toml"),
        other => panic!("unexpected {other:?}"),
    }
}

#[test]
fn roots_resolve_against_manifest_parent() {
    let p = package("x", "Cargo.toml", Some(&["a"]));
    assert_eq!(nested_workspace_roots_for_package(&p).unwrap(), Some(vec!["a".to_string()]));
    let p = package("x", "/Cargo.toml", Some(&["a"]));
    assert_eq!(nested_workspace_roots_for_package(&p).unwrap(), Some(vec!["/a".to_string()]));
    let p = package("x", "/ws/P/Cargo.toml", Some(&["vendor/sub", "/abs"]));
    assert_eq!(
        nested_workspace_roots_for_package(&p).unwrap(),
        Some(vec!["/ws/P/vendor/sub".to_string(), "/abs".to_string()])
    );
    let p = package("x", "/", Some(&["a"]));
    assert!(matches!(nested_workspace_roots_for_package(&p), Err(Error::NoManifestDir(_))));
    let p = package("x", "", Some(&["a"]));
    assert!(matches!(nested_workspace_roots_for_package(&p), Err(Error::NoManifestDir(_))));
    let p = package("x", "/", None);
    assert_eq!(nested_workspace_roots_for_package(&p).unwrap(), None);
}

#[test]
fn joins() {
    let s = |x: &str| x.to_string();
    assert_eq!(join(&s("/ws/P"), &s("vendor/sub")), "/ws/P/vendor/sub");
    assert_eq!(join(&s("/"), &s("a")), "/a");
    assert_eq!(join(&s("/ws/P"), &s("/abs")), "/abs");
    assert_eq!(join(&s(""), &s("a")), "a");
}
