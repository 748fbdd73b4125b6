use std::cell::RefCell;

use cargo_chrono::anomaly::AnomalyVerdict;
use cargo_chrono::dashboard::{handle_event, is_quit_key, refresh_in_progress, BaselineCache, Key};
use cargo_chrono::diff::{compute_diff, details_for_diff, diff_from_fetched, pct_fraction, DiffError};
use cargo_chrono::model::{
    Baseline, Build, BuildDetails, BuildEvent, BuildId, BuildProfile, CrateChange,
    CrateCompilation, CrateId, CrateKind, RepoError,
};
use cargo_chrono::persist::{
    end_action, event_action, finish_run, first_action, perform, run_end_message,
    BuildRepository, EndAction, PersistAction, PersistError, RunEnd,
};
use cargo_chrono::time::Duration;
use cargo_chrono::tui::TuiState;

/// An in-memory repository that counts baseline lookups.
#[derive(Default)]
struct MemoryRepo {
    builds: RefCell<Vec<Build>>,
    compilations: RefCell<Vec<CrateCompilation>>,
    baselines: Vec<Baseline>,
    baseline_lookups: RefCell<Vec<String>>,
    fail_baselines: bool,
    fail_all: bool,
}

fn locked() -> RepoError {
    RepoError { message: "database is locked".to_string() }
}

impl BuildRepository for MemoryRepo {
    fn begin_build(
        &self,
        started_at: &str,
        commit_hash: Option<&str>,
        cargo_args: &str,
        profile: &BuildProfile,
    ) -> Result<BuildId, RepoError> {
        if self.fail_all {
            return Err(locked());
        }
        let mut builds = self.builds.borrow_mut();
        let id = BuildId(builds.len() as i64 + 1);
        builds.push(Build {
            id,
            started_at: started_at.to_string(),
            finished_at: None,
            commit_hash: commit_hash.map(|s| s.to_string()),
            cargo_args: cargo_args.to_string(),
            profile: profile.to_string(),
            success: None,
            total_duration: None,
        });
        Ok(id)
    }

    fn record_compilation(
        &self,
        build_id: BuildId,
        crate_id: &CrateId,
        kind: &str,
        started_at: &str,
        finished_at: &str,
        duration: Duration,
    ) -> Result<(), RepoError> {
        self.compilations.borrow_mut().push(CrateCompilation {
            build_id,
            crate_id: crate_id.clone(),
            kind: kind.to_string(),
            started_at: started_at.to_string(),
            finished_at: finished_at.to_string(),
            duration,
        });
        Ok(())
    }

    fn finalize_build(
        &self,
        build_id: BuildId,
        finished_at: &str,
        success: bool,
        total_duration: Duration,
    ) -> Result<(), RepoError> {
        let mut builds = self.builds.borrow_mut();
        match builds.iter_mut().find(|b| b.id == build_id) {
            Some(b) => {
                b.finished_at = Some(finished_at.to_string());
                b.success = Some(success);
                b.total_duration = Some(total_duration);
                Ok(())
            }
            None => Err(RepoError { message: "no such build".to_string() }),
        }
    }

    fn list_builds(&self, limit: usize) -> Result<Vec<Build>, RepoError> {
        let mut v: Vec<Build> = self.builds.borrow().iter().cloned().collect();
        v.reverse();
        v.truncate(limit);
        Ok(v)
    }

    fn fetch_build(&self, id: BuildId) -> Result<Option<BuildDetails>, RepoError> {
        if self.fail_all {
            return Err(locked());
        }
        let builds = self.builds.borrow();
        match builds.iter().find(|b| b.id == id) {
            Some(b) => Ok(Some(BuildDetails {
                build: b.clone(),
                compilations: self
                    .compilations
                    .borrow()
                    .iter()
                    .filter(|c| c.build_id == id)
                    .cloned()
                    .collect(),
            })),
            None => Ok(None),
        }
    }

    fn fetch_baseline(&self, crate_name: &str) -> Result<Option<Baseline>, RepoError> {
        self.baseline_lookups.borrow_mut().push(crate_name.to_string());
        if self.fail_baselines {
            return Err(RepoError { message: "database is locked".to_string() });
        }
        Ok(self.baselines.iter().find(|b| b.crate_id.name == crate_name).cloned())
    }

    fn delete_build(&self, id: BuildId) -> Result<(), RepoError> {
        self.builds.borrow_mut().retain(|b| b.id != id);
        self.compilations.borrow_mut().retain(|c| c.build_id != id);
        Ok(())
    }
}

fn crate_id(name: &str) -> CrateId {
    CrateId { name: name.to_string(), version: None }
}

fn baseline(name: &str, mean_ms: u64, std_ms: u64) -> Baseline {
    Baseline {
        crate_id: crate_id(name),
        sample_count: 5,
        mean: Duration::from_millis(mean_ms),
        std_dev: Duration::from_millis(std_ms),
        min: Duration::from_millis(mean_ms - std_ms),
        max: Duration::from_millis(mean_ms + std_ms),
    }
}

fn started_event() -> BuildEvent {
    BuildEvent::BuildStarted {
        at: "2025-01-01T00:00:00Z".into(),
        commit_hash: Some("abc123".into()),
        cargo_args: vec!["build".into()],
        profile: BuildProfile::Dev,
    }
}

fn compilation_started(name: &str) -> BuildEvent {
    BuildEvent::CompilationStarted {
        crate_id: crate_id(name),
        kind: CrateKind::Lib,
        at: "2025-01-01T00:00:00Z".into(),
    }
}

fn compilation_finished(name: &str, ms: u64) -> BuildEvent {
    BuildEvent::CompilationFinished {
        crate_id: crate_id(name),
        kind: CrateKind::Lib,
        started_at: "2025-01-01T00:00:00Z".into(),
        finished_at: "2025-01-01T00:00:01Z".into(),
        duration: Duration::from_millis(ms),
    }
}

fn build_finished(success: bool, ms: u64) -> BuildEvent {
    BuildEvent::BuildFinished {
        success,
        total_duration: Duration::from_millis(ms),
        at: "2025-01-01T00:00:01Z".into(),
    }
}

/// Records a stream of events the way the recorder does.
fn persist_all(repo: &MemoryRepo, events: Vec<BuildEvent>) -> Result<BuildId, PersistError> {
    let mut it = events.into_iter();
    let begin = first_action(it.next())?;
    let id = perform(repo, &begin)?.expect("begin gives an id");
    for e in it {
        let action = event_action(id, e);
        let finalize = matches!(action, PersistAction::Finalize { .. });
        perform(repo, &action)?;
        if finalize {
            break;
        }
    }
    Ok(id)
}

// ── recording ───────────────────────────────────────────────────────────────

#[test]
fn persists_full_build_and_returns_build_id() {
    let repo = MemoryRepo::default();
    let id = persist_all(
        &repo,
        vec![
            started_event(),
            compilation_finished("foo", 1000),
            compilation_finished("bar", 500),
            build_finished(true, 1500),
        ],
    )
    .unwrap();
    let details = repo.fetch_build(id).unwrap().expect("build recorded");
    assert_eq!(details.compilations.len(), 2);
    assert_eq!(details.build.success, Some(true));
    assert_eq!(details.build.total_duration, Some(Duration::from_millis(1500)));
}

#[test]
fn ignores_non_persisted_event_kinds() {
    let repo = MemoryRepo::default();
    let id = persist_all(
        &repo,
        vec![started_event(), compilation_started("foo"), build_finished(true, 100)],
    )
    .unwrap();
    let details = repo.fetch_build(id).unwrap().unwrap();
    assert!(details.compilations.is_empty());
}

#[test]
fn errors_if_first_event_is_not_build_started() {
    let repo = MemoryRepo::default();
    let result = persist_all(&repo, vec![build_finished(true, 0)]);
    assert!(
        result.is_err(),
        "expected error when first event is not BuildStarted, got {:?}",
        result
    );
}

#[test]
fn records_failed_build() {
    let repo = MemoryRepo::default();
    let id = persist_all(&repo, vec![started_event(), build_finished(false, 200)]).unwrap();
    let details = repo.fetch_build(id).unwrap().unwrap();
    assert_eq!(details.build.success, Some(false));
}

#[test]
fn begin_records_arguments_profile_and_commit() {
    let repo = MemoryRepo::default();
    let id = persist_all(
        &repo,
        vec![started_event(), compilation_finished("foo", 100), build_finished(true, 100)],
    )
    .unwrap();
    assert_eq!(id, BuildId(1));
    let d = repo.fetch_build(id).unwrap().unwrap();
    assert_eq!(d.build.cargo_args, r#"["build"]"#);
    assert_eq!(d.build.profile, "dev");
    assert_eq!(d.build.commit_hash.as_deref(), Some("abc123"));
    assert_eq!(d.build.finished_at.as_deref(), Some("2025-01-01T00:00:01Z"));
    assert_eq!(d.compilations[0].kind, "lib");
    assert_eq!(d.compilations[0].duration, Duration::from_millis(100));
}

#[test]
fn started_compilations_are_skipped() {
    let a = event_action(BuildId(3), compilation_started("foo"));
    assert!(matches!(a, PersistAction::Skip));
    let repo = MemoryRepo::default();
    assert!(matches!(perform(&repo, &a), Ok(None)));
    assert!(repo.builds.borrow().is_empty());
}

#[test]
fn first_action_names_the_refused_event() {
    let r = first_action(Some(compilation_started("foo")));
    assert!(matches!(
        r,
        Err(PersistError::FirstEventNotBuildStarted(BuildEvent::CompilationStarted { .. }))
    ));
    assert!(matches!(first_action(None), Err(PersistError::StreamClosedBeforeStart)));
}

#[test]
fn begin_action_writes_arguments_as_json() {
    match first_action(Some(BuildEvent::BuildStarted {
        at: "t".into(),
        commit_hash: None,
        cargo_args: vec!["-p".into(), "a \"b\"".into()],
        profile: BuildProfile::Dev,
    })) {
        Ok(PersistAction::Begin { cargo_args, commit_hash, .. }) => {
            assert_eq!(cargo_args, r#"["-p","a \"b\""]"#);
            assert!(commit_hash.is_none());
        }
        other => panic!("expected Begin, got {:?}", other),
    }
}

// ── comparing builds ────────────────────────────────────────────────────────

fn record_build(repo: &MemoryRepo, crates: &[(&str, u64)]) -> BuildId {
    let mut events = vec![started_event()];
    let mut total = 0;
    for (name, ms) in crates {
        events.push(compilation_finished(name, *ms));
        total += ms;
    }
    events.push(build_finished(true, total));
    persist_all(repo, events).unwrap()
}

#[test]
fn identical_builds_produce_only_unchanged_entries() {
    let repo = MemoryRepo::default();
    let a = record_build(&repo, &[("foo", 100), ("bar", 200)]);
    let b = record_build(&repo, &[("foo", 100), ("bar", 200)]);
    let diff = compute_diff(&repo, a, b).unwrap();
    assert_eq!(diff.crate_changes.len(), 2);
    for c in &diff.crate_changes {
        assert!(matches!(c, CrateChange::Unchanged { .. }), "expected Unchanged, got {:?}", c);
    }
    assert_eq!(diff.total_change.abs_delta_ms, 0);
}

#[test]
fn crate_only_in_after_is_added() {
    let repo = MemoryRepo::default();
    let a = record_build(&repo, &[("foo", 100)]);
    let b = record_build(&repo, &[("foo", 100), ("new", 50)]);
    let diff = compute_diff(&repo, a, b).unwrap();
    assert!(
        diff.crate_changes.iter().any(
            |c| matches!(c, CrateChange::Added { crate_id, .. } if crate_id.name == "new")
        ),
        "expected 'new' to be Added; got {:?}",
        diff.crate_changes
    );
}

#[test]
fn crate_only_in_before_is_removed() {
    let repo = MemoryRepo::default();
    let a = record_build(&repo, &[("foo", 100), ("old", 50)]);
    let b = record_build(&repo, &[("foo", 100)]);
    let diff = compute_diff(&repo, a, b).unwrap();
    assert!(
        diff.crate_changes.iter().any(
            |c| matches!(c, CrateChange::Removed { crate_id, .. } if crate_id.name == "old")
        ),
        "expected 'old' to be Removed; got {:?}",
        diff.crate_changes
    );
}

#[test]
fn slower_crate_reports_positive_delta_and_pct() {
    let repo = MemoryRepo::default();
    let a = record_build(&repo, &[("foo", 100)]);
    let b = record_build(&repo, &[("foo", 200)]);
    let diff = compute_diff(&repo, a, b).unwrap();
    match &diff.crate_changes[0] {
        CrateChange::Changed { change, .. } => {
            assert_eq!(change.abs_delta_ms, 100);
            assert_eq!(pct_fraction(change), Some((100, 100)));
        }
        other => panic!("expected 'foo' to be Changed, got {:?}", other),
    }
}

#[test]
fn faster_crate_reports_negative_delta() {
    let repo = MemoryRepo::default();
    let a = record_build(&repo, &[("foo", 300)]);
    let b = record_build(&repo, &[("foo", 100)]);
    let diff = compute_diff(&repo, a, b).unwrap();
    match &diff.crate_changes[0] {
        CrateChange::Changed { change, .. } => {
            assert_eq!(change.abs_delta_ms, -200);
            let (num, den) = pct_fraction(change).unwrap();
            assert!(num < 0 && den == 300);
        }
        other => panic!("expected 'foo' to be Changed, got {:?}", other),
    }
}

#[test]
fn changes_within_noise_threshold_are_unchanged() {
    let repo = MemoryRepo::default();
    let a = record_build(&repo, &[("foo", 100)]);
    let b = record_build(&repo, &[("foo", 105)]);
    let diff = compute_diff(&repo, a, b).unwrap();
    assert!(matches!(diff.crate_changes[0], CrateChange::Unchanged { .. }));
    let c = record_build(&repo, &[("foo", 106)]);
    let diff = compute_diff(&repo, a, c).unwrap();
    assert!(matches!(diff.crate_changes[0], CrateChange::Changed { .. }));
}

#[test]
fn changes_are_ordered_by_impact() {
    let repo = MemoryRepo::default();
    let a = record_build(&repo, &[("small", 100), ("big", 100), ("gone", 50)]);
    let b = record_build(&repo, &[("small", 120), ("big", 900), ("fresh", 400)]);
    let diff = compute_diff(&repo, a, b).unwrap();
    let names: Vec<String> = diff
        .crate_changes
        .iter()
        .map(|c| match c {
            CrateChange::Added { crate_id, .. }
            | CrateChange::Removed { crate_id, .. }
            | CrateChange::Changed { crate_id, .. }
            | CrateChange::Unchanged { crate_id, .. } => crate_id.name.clone(),
        })
        .collect();
    assert_eq!(names, vec!["big", "fresh", "gone", "small"]);
    assert_eq!(diff.critical_path_after, vec!["big", "fresh", "small"]);
}

#[test]
fn total_change_reflects_total_duration_delta() {
    let repo = MemoryRepo::default();
    let a = record_build(&repo, &[("foo", 1000)]);
    let b = record_build(&repo, &[("foo", 1500)]);
    let diff = compute_diff(&repo, a, b).unwrap();
    assert_eq!(diff.total_change.abs_delta_ms, 500);
    assert_eq!(pct_fraction(&diff.total_change), Some((500, 1000)));
}

#[test]
fn missing_build_returns_error() {
    let repo = MemoryRepo::default();
    let a = record_build(&repo, &[("foo", 100)]);
    let r = compute_diff(&repo, a, BuildId(9999));
    assert!(
        matches!(r, Err(DiffError::NotFound(BuildId(9999)))),
        "expected error for missing build"
    );
}

#[test]
fn pct_fraction_is_none_before_one_millisecond() {
    let repo = MemoryRepo::default();
    let a = record_build(&repo, &[("foo", 0)]);
    let b = record_build(&repo, &[("foo", 10)]);
    let diff = compute_diff(&repo, a, b).unwrap();
    assert_eq!(pct_fraction(&diff.total_change), None);
}

// ── the dashboard's loop decisions ──────────────────────────────────────────

#[test]
fn finished_compilation_gets_verdict_from_baseline() {
    let repo = MemoryRepo {
        baselines: vec![baseline("syn", 1000, 100)],
        ..Default::default()
    };
    let mut state = TuiState::new();
    let mut cache = BaselineCache::new();
    handle_event(&mut state, &mut cache, &repo, &compilation_started("syn"));
    handle_event(&mut state, &mut cache, &repo, &compilation_finished("syn", 1500));
    assert_eq!(state.recent[0].verdict, AnomalyVerdict::Slower);
    handle_event(&mut state, &mut cache, &repo, &compilation_finished("syn", 1000));
    assert_eq!(state.recent[1].verdict, AnomalyVerdict::Normal);
    handle_event(&mut state, &mut cache, &repo, &compilation_finished("other", 1));
    assert_eq!(state.recent[2].verdict, AnomalyVerdict::Unknown);
    // One lookup per crate name, whatever the number of compilations.
    assert_eq!(*repo.baseline_lookups.borrow(), vec!["syn".to_string(), "other".to_string()]);
}

#[test]
fn failed_baseline_lookup_counts_as_none_and_is_not_retried() {
    let repo = MemoryRepo { fail_baselines: true, ..Default::default() };
    let mut cache = BaselineCache::new();
    let name = "syn".to_string();
    assert!(cache.cached_baseline(&repo, &name).is_none());
    assert!(cache.cached_baseline(&repo, &name).is_none());
    assert_eq!(repo.baseline_lookups.borrow().len(), 1);
    assert!(matches!(cache.get(&name), Some(None)));
    assert!(cache.get(&"serde".to_string()).is_none());
}

#[test]
fn record_keeps_the_first_answer() {
    let mut cache = BaselineCache::new();
    let name = "syn".to_string();
    let first = cache.record(&name, Ok(Some(baseline("syn", 10, 1))));
    assert_eq!(first.unwrap().mean, Duration::from_millis(10));
    let second = cache.record(&name, Ok(None));
    assert_eq!(second.unwrap().mean, Duration::from_millis(10));
    let err = cache.record(&"x".to_string(), Err(RepoError { message: "boom".into() }));
    assert!(err.is_none());
}

#[test]
fn refresh_classifies_running_crates() {
    let repo = MemoryRepo {
        baselines: vec![baseline("fast", 1, 0), baseline("slow", 3_600_000, 1000)],
        ..Default::default()
    };
    let mut state = TuiState::new();
    let mut cache = BaselineCache::new();
    handle_event(&mut state, &mut cache, &repo, &compilation_started("fast"));
    handle_event(&mut state, &mut cache, &repo, &compilation_started("slow"));
    handle_event(&mut state, &mut cache, &repo, &compilation_started("new"));
    let t = std::time::Instant::now();
    while t.elapsed() < std::time::Duration::from_millis(5) {}
    let elapsed = refresh_in_progress(&mut state, &mut cache, &repo);
    assert_eq!(elapsed.len(), 3);
    assert_eq!(state.active[0].verdict, AnomalyVerdict::Slower);
    assert_eq!(state.active[1].verdict, AnomalyVerdict::Normal);
    assert_eq!(state.active[2].verdict, AnomalyVerdict::Unknown);
    refresh_in_progress(&mut state, &mut cache, &repo);
    assert_eq!(repo.baseline_lookups.borrow().len(), 3);
}

#[test]
fn quit_keys() {
    assert!(is_quit_key(Key::Char('q'), false));
    assert!(is_quit_key(Key::Char('Q'), true));
    assert!(is_quit_key(Key::Char('c'), true));
    assert!(is_quit_key(Key::Char('C'), true));
    assert!(!is_quit_key(Key::Char('c'), false));
    assert!(!is_quit_key(Key::Char('x'), true));
    assert!(!is_quit_key(Key::Other, true));
}

#[test]
fn interrupted_run_deletes_its_build() {
    let repo = MemoryRepo::default();
    let kept = record_build(&repo, &[("foo", 100)]);
    let dropped = record_build(&repo, &[("foo", 100)]);
    assert_eq!(finish_run(&repo, kept, false).unwrap(), RunEnd::Recorded(kept));
    assert_eq!(finish_run(&repo, dropped, true).unwrap(), RunEnd::Interrupted(dropped));
    assert!(repo.fetch_build(kept).unwrap().is_some());
    assert!(repo.fetch_build(dropped).unwrap().is_none());
    assert_eq!(repo.compilations.borrow().len(), 1);
    assert_eq!(run_end_message(RunEnd::Recorded(BuildId(12))), "Build #12 recorded.");
    assert_eq!(
        run_end_message(RunEnd::Interrupted(BuildId(12))),
        "Build interrupted — not recorded."
    );
}

#[test]
fn repository_failures_surface_as_errors() {
    let repo = MemoryRepo { fail_all: true, ..Default::default() };
    let begin = first_action(Some(started_event())).unwrap();
    assert!(matches!(perform(&repo, &begin), Err(PersistError::Repository(_))));
    assert!(matches!(
        compute_diff(&repo, BuildId(1), BuildId(2)),
        Err(DiffError::Repository(_))
    ));
}

#[test]
fn time_beyond_millisecond_range_is_refused() {
    let repo = MemoryRepo::default();
    let a = record_build(&repo, &[("foo", 100)]);
    let b = record_build(&repo, &[("foo", u64::MAX)]);
    assert!(matches!(compute_diff(&repo, a, b), Err(DiffError::OutOfRange(id)) if id == b));
}

#[test]
fn begin_action_arguments_match_serde_json() {
    let args: Vec<String> = vec![
        "--features".into(),
        "a,b \\ \"q\"".into(),
        "\u{1}\u{8}\t\n\u{b}\u{c}\r\u{1f}\u{7f}é→".into(),
        String::new(),
    ];
    match first_action(Some(BuildEvent::BuildStarted {
        at: "t".into(),
        commit_hash: None,
        cargo_args: args.clone(),
        profile: BuildProfile::Dev,
    })) {
        Ok(PersistAction::Begin { cargo_args, .. }) => {
            assert_eq!(cargo_args, serde_json::to_string(&args).unwrap());
            assert!(cargo_args.contains("\\u0001") && cargo_args.contains("\\u000b"));
        }
        other => panic!("expected Begin, got {:?}", other),
    }
}

#[test]
fn fetched_answers_decide_the_comparison() {
    let repo = MemoryRepo::default();
    let a = record_build(&repo, &[("foo", 100)]);
    let b = record_build(&repo, &[("foo", 300), ("bar", 5)]);
    let fa = || repo.fetch_build(a);
    let fb = || repo.fetch_build(b);
    let d = diff_from_fetched(a, b, fa(), fb()).unwrap();
    assert_eq!(d.before, a);
    assert_eq!(d.after, b);
    assert_eq!(d.critical_path_after, vec!["foo", "bar"]);
    assert!(matches!(
        diff_from_fetched(a, b, Ok(None), fb()),
        Err(DiffError::NotFound(id)) if id == a
    ));
    assert!(matches!(
        diff_from_fetched(a, b, fa(), Ok(None)),
        Err(DiffError::NotFound(id)) if id == b
    ));
    assert!(matches!(
        diff_from_fetched(a, b, Err(locked()), Err(locked())),
        Err(DiffError::Repository(_))
    ));
    assert!(matches!(details_for_diff(a, fa()), Ok(d) if d.build.id == a));
}

#[test]
fn end_action_deletes_only_interrupted_runs() {
    assert_eq!(end_action(BuildId(4), true), EndAction::Delete(BuildId(4)));
    assert_eq!(end_action(BuildId(4), false), EndAction::Keep(BuildId(4)));
}
