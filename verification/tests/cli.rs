use cargo_chrono::cli::{
    infer_profile, join_path, started_column, status_label, BuildJson, CrateChangeJson,
    CrateIdJson, DiffJson, DurationChangeJson, LsJson,
};
use cargo_chrono::model::{
    Build, BuildDiff, BuildId, BuildProfile, CrateChange, CrateId, DurationChange,
};
use cargo_chrono::time::Duration;

fn sample_build() -> Build {
    Build {
        id: BuildId(7),
        started_at: "2026-05-03T01:00:00.123456Z".into(),
        finished_at: Some("2026-05-03T01:00:42".into()),
        commit_hash: Some("abc1234".into()),
        cargo_args: "[\"--release\"]".into(),
        profile: "release".into(),
        success: Some(true),
        total_duration: Some(Duration::from_millis(42_500)),
    }
}

#[test]
fn infer_profile_reads_release_flag() {
    assert_eq!(infer_profile(&vec!["--release".to_string()]), BuildProfile::Release);
    assert_eq!(
        infer_profile(&vec!["-p".to_string(), "demo".to_string(), "--release".to_string()]),
        BuildProfile::Release
    );
    assert_eq!(infer_profile(&vec![]), BuildProfile::Dev);
    assert_eq!(infer_profile(&vec!["--release=yes".to_string()]), BuildProfile::Dev);
}

#[test]
fn ls_columns() {
    let b = sample_build();
    assert_eq!(started_column(&b), "2026-05-03T01:00:00");
    let mut short = sample_build();
    short.started_at = "2026".into();
    assert_eq!(started_column(&short), "2026");
    assert_eq!(status_label(Some(true)), "ok");
    assert_eq!(status_label(Some(false)), "FAIL");
    assert_eq!(status_label(None), "???");
}

#[test]
fn critical_path_is_joined_with_arrows() {
    assert_eq!(join_path(&vec![]), "");
    assert_eq!(join_path(&vec!["a".to_string()]), "a");
    assert_eq!(
        join_path(&vec!["syn".to_string(), "serde".to_string(), "tokio".to_string()]),
        "syn → serde → tokio"
    );
}

#[test]
fn build_serializes_with_flat_id_and_ms_duration() {
    let j = BuildJson::from_build(&sample_build());
    assert_eq!(j.id, 7);
    assert_eq!(j.duration_ms, Some(42_500));
    assert_eq!(j.profile, "release");
    assert_eq!(j.success, Some(true));
}

#[test]
fn ls_envelope_wraps_builds_array() {
    let env = LsJson::from_builds(&vec![sample_build(), sample_build()]);
    assert_eq!(env.builds.len(), 2);
    assert_eq!(env.builds[1].id, 7);
}

#[test]
fn crate_change_is_tagged_by_kind() {
    let c = CrateChange::Added {
        crate_id: CrateId { name: "serde".into(), version: Some("1.0".into()) },
        duration: Duration::from_millis(1500),
    };
    match CrateChangeJson::from_change(&c) {
        CrateChangeJson::Added { crate_id, duration_ms } => {
            assert_eq!(crate_id.name, "serde");
            assert_eq!(crate_id.version.as_deref(), Some("1.0"));
            assert_eq!(duration_ms, 1500);
        }
        other => panic!("expected Added, got {:?}", other),
    }
    let id = CrateIdJson::from_crate_id(&CrateId { name: "x".into(), version: None });
    assert!(id.version.is_none());
}

#[test]
fn diff_serializes_with_numeric_ids() {
    let d = BuildDiff {
        before: BuildId(1),
        after: BuildId(2),
        total_change: DurationChange {
            before: Duration::from_millis(1000),
            after: Duration::from_millis(1500),
            abs_delta_ms: 500,
        },
        crate_changes: vec![],
        critical_path_before: vec![],
        critical_path_after: vec!["foo".into()],
    };
    let j = DiffJson::from_diff(&d);
    assert_eq!(j.before, 1);
    assert_eq!(j.after, 2);
    assert_eq!(j.total.delta_ms, 500);
    assert_eq!(j.total.before_ms, 1000);
    assert_eq!(j.total.after_ms, 1500);
    assert_eq!(j.critical_path_after, vec!["foo".to_string()]);
    let t = DurationChangeJson::from_change(&d.total_change);
    assert_eq!(t.after_ms, 1500);
}
