use cargo_valgrind::metadata::{BinariesError, CrateType, Metadata, Package, Target, TargetKind};
use cargo_valgrind::{binaries_from, Build};

fn target(name: &str, kind: TargetKind, crate_type: CrateType) -> Target {
    Target { name: name.to_string(), kind: vec![kind], crate_types: vec![crate_type] }
}

fn metadata(targets: Vec<Target>) -> Metadata {
    Metadata {
        packages: vec![
            Package {
                manifest_path: "/ws/other/Cargo.toml".to_string(),
                targets: vec![target("other", TargetKind::Binary, CrateType::Binary)],
            },
            Package { manifest_path: "/ws/app/Cargo.toml".to_string(), targets },
        ],
        target_directory: "/ws/target".to_string(),
    }
}

#[test]
fn default_build_is_debug() {
    assert_eq!(Build::default(), Build::Debug);
}

#[test]
fn executables_of_the_requested_package() {
    let m = metadata(vec![
        target("app", TargetKind::Binary, CrateType::Binary),
        target("applib", TargetKind::Library, CrateType::Library),
        target("demo", TargetKind::Example, CrateType::Binary),
        target("speed", TargetKind::Bench, CrateType::Binary),
    ]);
    let paths = binaries_from(&m, "/ws/app/Cargo.toml", Build::Debug).unwrap();
    assert_eq!(
        paths,
        vec![
            "/ws/target/debug/app".to_string(),
            "/ws/target/debug/examples/demo".to_string(),
            "/ws/target/debug/benches/speed".to_string(),
        ]
    );
    let paths = binaries_from(&m, "/ws/app/Cargo.toml", Build::Release).unwrap();
    assert_eq!(paths[0], "/ws/target/release/app");
}

#[test]
fn unknown_manifest_has_no_executables() {
    let m = metadata(vec![target("app", TargetKind::Binary, CrateType::Binary)]);
    assert!(binaries_from(&m, "/elsewhere/Cargo.toml", Build::Debug).unwrap().is_empty());
}

#[test]
fn test_targets_are_unsupported() {
    let m = metadata(vec![
        target("app", TargetKind::Binary, CrateType::Binary),
        target("it", TargetKind::Test, CrateType::Binary),
    ]);
    assert_eq!(
        binaries_from(&m, "/ws/app/Cargo.toml", Build::Debug),
        Err(BinariesError::Unsupported("it".to_string()))
    );
}

#[test]
fn target_directory_with_trailing_slash() {
    let mut m = metadata(vec![target("app", TargetKind::Binary, CrateType::Binary)]);
    m.target_directory = "/ws/target/".to_string();
    assert_eq!(binaries_from(&m, "/ws/app/Cargo.toml", Build::Debug).unwrap(), vec!["/ws/target/debug/app".to_string()]);
}
