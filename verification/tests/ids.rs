use cargo_chrono::model::{BuildId, BuildProfile, CrateId, CrateKind};

#[test]
fn build_id_display_uses_hash_prefix() {
    assert_eq!(BuildId(42).to_string(), "#42");
    assert_eq!(BuildId(1).to_string(), "#1");
    assert_eq!(BuildId(0).to_string(), "#0");
}

#[test]
fn build_id_is_copy() {
    let a = BuildId(7);
    let b = a; // Copy, not move
    assert_eq!(a, b);
}

#[test]
fn crate_id_display_with_version() {
    let id = CrateId {
        name: "serde".to_string(),
        version: Some("1.0.210".to_string()),
    };
    assert_eq!(id.to_string(), "serde v1.0.210");
}

#[test]
fn crate_id_display_without_version() {
    let id = CrateId {
        name: "my-workspace-crate".to_string(),
        version: None,
    };
    assert_eq!(id.to_string(), "my-workspace-crate");
}

#[test]
fn crate_id_equality_considers_both_fields() {
    let a = CrateId {
        name: "foo".to_string(),
        version: Some("1.0".to_string()),
    };
    let b = CrateId {
        name: "foo".to_string(),
        version: Some("1.0".to_string()),
    };
    let c = CrateId {
        name: "foo".to_string(),
        version: Some("2.0".to_string()),
    };
    assert_eq!(a, b);
    assert_ne!(a, c);
    assert!(a.same_as(&b));
    assert!(!a.same_as(&c));
}

#[test]
fn build_id_display_of_negative_id() {
    assert_eq!(BuildId(-3).to_string(), "#-3");
}

#[test]
fn kind_and_profile_display_names() {
    assert_eq!(CrateKind::Lib.to_string(), "lib");
    assert_eq!(CrateKind::Bin.to_string(), "bin");
    assert_eq!(CrateKind::BuildScript.to_string(), "build-script");
    assert_eq!(CrateKind::ProcMacro.to_string(), "proc-macro");
    assert_eq!(CrateKind::Test.to_string(), "test");
    assert_eq!(CrateKind::Example.to_string(), "example");
    assert_eq!(CrateKind::Bench.to_string(), "bench");
    assert_eq!(CrateKind::Unknown.to_string(), "unknown");
    assert_eq!(BuildProfile::Dev.to_string(), "dev");
    assert_eq!(BuildProfile::Release.to_string(), "release");
    assert_eq!(BuildProfile::Custom.to_string(), "custom");
}
