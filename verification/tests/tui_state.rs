use cargo_chrono::anomaly::AnomalyVerdict;
use cargo_chrono::model::{BuildEvent, BuildId, BuildProfile, CrateId, CrateKind, MessageLevel};
use cargo_chrono::time::Duration;
use cargo_chrono::tui::{SystemSnapshot, TuiState, MAX_RECENT};

fn crate_id(name: &str) -> CrateId {
    CrateId {
        name: name.to_string(),
        version: None,
    }
}

fn build_started() -> BuildEvent {
    BuildEvent::BuildStarted {
        at: "2025-01-01T00:00:00Z".into(),
        commit_hash: Some("abc123".into()),
        cargo_args: vec!["build".into()],
        profile: BuildProfile::Release,
    }
}

fn compilation_started(name: &str) -> BuildEvent {
    BuildEvent::CompilationStarted {
        crate_id: crate_id(name),
        kind: CrateKind::Lib,
        at: "2025-01-01T00:00:00Z".into(),
    }
}

fn compilation_finished(name: &str, ms: u64) -> BuildEvent {
    BuildEvent::CompilationFinished {
        crate_id: crate_id(name),
        kind: CrateKind::Lib,
        started_at: "2025-01-01T00:00:00Z".into(),
        finished_at: "2025-01-01T00:00:01Z".into(),
        duration: Duration::from_millis(ms),
    }
}

fn build_finished(success: bool) -> BuildEvent {
    BuildEvent::BuildFinished {
        success,
        total_duration: Duration::from_secs(5),
        at: "2025-01-01T00:00:05Z".into(),
    }
}

fn is_active(s: &TuiState, id: &CrateId) -> bool {
    s.active.iter().any(|a| a.crate_id == *id)
}

#[test]
fn new_state_is_empty() {
    let s = TuiState::new();
    assert!(s.build_id.is_none());
    assert!(s.profile.is_none());
    assert!(s.active.is_empty());
    assert!(s.recent.is_empty());
    assert_eq!(s.finished_count, 0);
    assert!(s.system.is_none());
    assert!(!s.is_finished());
    assert!(s.elapsed().is_none());
}

#[test]
fn build_started_sets_metadata() {
    let mut s = TuiState::new();
    s.apply_event(&build_started());

    assert_eq!(s.profile, Some(BuildProfile::Release));
    assert_eq!(s.commit_hash.as_deref(), Some("abc123"));
    assert!(s.started_at.is_some());
    assert!(s.elapsed().is_some());
}

#[test]
fn compilation_started_adds_to_active() {
    let mut s = TuiState::new();
    let finished = s.apply_event(&compilation_started("serde"));

    assert!(finished.is_empty());
    assert!(is_active(&s, &crate_id("serde")));
    assert_eq!(s.active.len(), 1);
}

#[test]
fn compilation_finished_moves_to_recent_and_returns_crate_id() {
    let mut s = TuiState::new();
    s.apply_event(&compilation_started("serde"));
    let finished = s.apply_event(&compilation_finished("serde", 1000));

    assert_eq!(finished, vec![crate_id("serde")]);
    assert!(s.active.is_empty());
    assert_eq!(s.recent.len(), 1);
    assert_eq!(s.recent[0].crate_id, crate_id("serde"));
    assert_eq!(s.recent[0].duration, Duration::from_millis(1000));
    assert_eq!(s.finished_count, 1);
}

#[test]
fn build_finished_clears_active_and_sets_result() {
    let mut s = TuiState::new();
    s.apply_event(&compilation_started("foo"));
    s.apply_event(&build_finished(true));

    assert!(s.active.is_empty());
    assert_eq!(s.build_result, Some(true));
    assert!(s.is_finished());
    assert_eq!(s.total_duration, Some(Duration::from_secs(5)));
}

#[test]
fn compiler_message_returns_empty_vec_and_does_not_mutate() {
    let mut s = TuiState::new();
    let before_count = s.finished_count;
    let finished = s.apply_event(&BuildEvent::CompilerMessage {
        crate_id: crate_id("foo"),
        level: MessageLevel::Warning,
        text: "unused var".into(),
    });

    assert!(finished.is_empty());
    assert_eq!(s.finished_count, before_count);
}

#[test]
fn recent_is_capped_at_max() {
    let mut s = TuiState::new();
    for i in 0..=MAX_RECENT {
        let name = format!("crate{}", i);
        s.apply_event(&compilation_started(&name));
        s.apply_event(&compilation_finished(&name, 100));
    }

    assert_eq!(s.recent.len(), MAX_RECENT);
    // Oldest entry (crate0) should have been evicted.
    assert!(!s.recent.iter().any(|c| c.crate_id.name == "crate0"));
}

#[test]
fn set_verdict_updates_most_recent_match() {
    let mut s = TuiState::new();
    s.apply_event(&compilation_started("serde"));
    s.apply_event(&compilation_finished("serde", 1000));

    s.set_verdict(&crate_id("serde"), AnomalyVerdict::Slower);

    let entry = s.recent.iter().find(|c| c.crate_id.name == "serde").unwrap();
    assert_eq!(entry.verdict, AnomalyVerdict::Slower);
}

#[test]
fn set_verdict_touches_only_the_last_of_repeated_crates() {
    let mut s = TuiState::new();
    s.apply_event(&compilation_finished("serde", 1000));
    s.apply_event(&compilation_finished("syn", 10));
    s.apply_event(&compilation_finished("serde", 2000));

    s.set_verdict(&crate_id("serde"), AnomalyVerdict::Faster);

    assert_eq!(s.recent[0].verdict, AnomalyVerdict::Unknown);
    assert_eq!(s.recent[1].verdict, AnomalyVerdict::Unknown);
    assert_eq!(s.recent[2].verdict, AnomalyVerdict::Faster);
}

#[test]
fn set_verdict_on_unknown_crate_does_not_panic() {
    let mut s = TuiState::new();
    s.set_verdict(&crate_id("nonexistent"), AnomalyVerdict::Slower);
    assert!(s.recent.is_empty());
}

#[test]
fn set_in_progress_verdict_updates_active_entry() {
    let mut s = TuiState::new();
    s.apply_event(&compilation_started("tokio"));

    s.set_in_progress_verdict(&crate_id("tokio"), AnomalyVerdict::Slower);

    let entry = s.active.iter().find(|a| a.crate_id == crate_id("tokio")).unwrap();
    assert_eq!(entry.verdict, AnomalyVerdict::Slower);
}

#[test]
fn set_in_progress_verdict_on_unknown_crate_does_not_panic() {
    let mut s = TuiState::new();
    s.set_in_progress_verdict(&crate_id("ghost"), AnomalyVerdict::Normal);
    assert!(s.active.is_empty());
}

#[test]
fn update_system_stores_snapshot() {
    let mut s = TuiState::new();
    assert!(s.system.is_none());

    let snap = SystemSnapshot {
        cpu_usage_tenths: 420,
        mem_used_bytes: 1024,
        mem_total_bytes: 8192,
    };
    s.update_system(snap);

    let stored = s.system.as_ref().unwrap();
    assert_eq!(stored.cpu_usage_tenths, 420);
    assert_eq!(stored.mem_total_bytes, 8192);
}

#[test]
fn set_build_id_is_stored() {
    let mut s = TuiState::new();
    s.set_build_id(BuildId(7));
    assert_eq!(s.build_id, Some(BuildId(7)));
}

#[test]
fn active_compilation_elapsed_is_non_negative() {
    let mut s = TuiState::new();
    s.apply_event(&compilation_started("syn"));
    let entry = s.active.iter().find(|a| a.crate_id == crate_id("syn")).unwrap();
    let elapsed = entry.elapsed();
    assert!(elapsed >= Duration::zero());
}

#[test]
fn restarting_a_crate_keeps_one_active_entry() {
    let mut s = TuiState::new();
    s.apply_event(&compilation_started("syn"));
    s.set_in_progress_verdict(&crate_id("syn"), AnomalyVerdict::Slower);
    s.apply_event(&compilation_started("syn"));
    assert_eq!(s.active.len(), 1);
    assert_eq!(s.active[0].verdict, AnomalyVerdict::Unknown);
}

#[test]
fn full_build_sequence_state_transitions() {
    let mut s = TuiState::new();

    s.apply_event(&build_started());
    assert!(s.started_at.is_some());
    assert!(!s.is_finished());

    s.apply_event(&compilation_started("proc-macro2"));
    s.apply_event(&compilation_started("syn"));
    assert_eq!(s.active.len(), 2);

    s.apply_event(&compilation_finished("proc-macro2", 800));
    assert_eq!(s.active.len(), 1);
    assert_eq!(s.finished_count, 1);

    s.apply_event(&compilation_finished("syn", 2000));
    assert_eq!(s.active.len(), 0);
    assert_eq!(s.finished_count, 2);

    s.apply_event(&build_finished(true));
    assert!(s.is_finished());
    assert_eq!(s.build_result, Some(true));
}
