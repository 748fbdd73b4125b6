use cargo_chrono::isqrt::isqrt;
use cargo_chrono::model::{Build, BuildId, CrateCompilation};
use cargo_chrono::persist::{baseline_from_aggregates, BaselineRow, BuildRow, CompilationRow};
use cargo_chrono::time::Duration;

#[test]
fn fetch_baseline_computes_mean_min_max() {
    // Five compilations of 100, 200, 300, 400 and 500 ms.
    let row = BaselineRow {
        count: 5,
        sum_ms: 1500,
        sum_sq_ms: 550_000,
        min_ms: 100,
        max_ms: 500,
    };
    let b = baseline_from_aggregates("foo".to_string(), row).expect("baseline should exist with 5 samples");
    assert_eq!(b.sample_count, 5);
    assert_eq!(b.mean, Duration::from_millis(300));
    assert_eq!(b.min, Duration::from_millis(100));
    assert_eq!(b.max, Duration::from_millis(500));
    let std_ms = b.std_dev.as_millis();
    assert!((140..=142).contains(&std_ms), "std_dev out of expected range: {}ms", std_ms);
    assert_eq!(std_ms, 141);
    assert_eq!(b.crate_id.name, "foo");
    assert!(b.crate_id.version.is_none());
}

#[test]
fn fetch_baseline_none_when_no_data() {
    let row = BaselineRow { count: 0, sum_ms: 0, sum_sq_ms: 0, min_ms: 0, max_ms: 0 };
    assert!(baseline_from_aggregates("nonexistent".to_string(), row).is_none());
}

#[test]
fn single_sample_has_zero_deviation() {
    let row = BaselineRow { count: 1, sum_ms: 250, sum_sq_ms: 62_500, min_ms: 250, max_ms: 250 };
    let b = baseline_from_aggregates("x".to_string(), row).unwrap();
    assert_eq!(b.std_dev, Duration::zero());
    assert_eq!(b.mean, Duration::from_millis(250));
}

#[test]
fn isqrt_is_the_floor_square_root() {
    assert_eq!(isqrt(0), 0);
    assert_eq!(isqrt(1), 1);
    assert_eq!(isqrt(24), 4);
    assert_eq!(isqrt(25), 5);
    assert_eq!(isqrt(500_000), 707);
    assert_eq!(isqrt(u128::MAX), u64::MAX);
}

#[test]
fn build_row_maps_success_flag_and_duration() {
    let b = Build::from_row(BuildRow {
        id: 3,
        started_at: "2025-01-01T00:00:00Z".into(),
        finished_at: None,
        commit_hash: Some("deadbeef".into()),
        cargo_args: "[]".into(),
        profile: "dev".into(),
        success: Some(2),
        total_duration_ms: Some(5000),
    });
    assert_eq!(b.id, BuildId(3));
    assert_eq!(b.success, Some(true));
    assert_eq!(b.total_duration, Some(Duration::from_millis(5000)));
    let unfinished = Build::from_row(BuildRow {
        id: 4,
        started_at: "t".into(),
        finished_at: None,
        commit_hash: None,
        cargo_args: "[]".into(),
        profile: "dev".into(),
        success: None,
        total_duration_ms: None,
    });
    assert_eq!(unfinished.success, None);
    assert_eq!(unfinished.total_duration, None);
}

#[test]
fn compilation_row_maps_fields() {
    let c = CrateCompilation::from_row(CompilationRow {
        build_id: 9,
        crate_name: "demo".into(),
        crate_version: Some("0.1.0".into()),
        kind: "lib".into(),
        started_at: "a".into(),
        finished_at: "b".into(),
        duration_ms: 1234,
    });
    assert_eq!(c.build_id, BuildId(9));
    assert_eq!(c.crate_id.name, "demo");
    assert_eq!(c.crate_id.version.as_deref(), Some("0.1.0"));
    assert_eq!(c.duration, Duration::from_millis(1234));
}
