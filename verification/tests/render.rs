use cargo_chrono::anomaly::AnomalyVerdict;
use cargo_chrono::model::{BuildEvent, BuildId, BuildProfile, CrateId, CrateKind};
use cargo_chrono::render::{
    active_lines, format_bytes, format_duration, recent_lines, status_line, system_line,
    title_line, verdict_color, verdict_label, LineColor,
};
use cargo_chrono::time::Duration;
use cargo_chrono::tui::{SystemSnapshot, TuiState};

fn crate_id(name: &str) -> CrateId {
    CrateId {
        name: name.to_string(),
        version: None,
    }
}

fn started(name: &str) -> BuildEvent {
    BuildEvent::CompilationStarted {
        crate_id: crate_id(name),
        kind: CrateKind::Lib,
        at: "2025-01-01T00:00:00Z".into(),
    }
}

fn finished(name: &str, ms: u64) -> BuildEvent {
    BuildEvent::CompilationFinished {
        crate_id: crate_id(name),
        kind: CrateKind::Lib,
        started_at: "2025-01-01T00:00:00Z".into(),
        finished_at: "2025-01-01T00:00:01Z".into(),
        duration: Duration::from_millis(ms),
    }
}

/// Every line of the dashboard, as the terminal shows them.
fn dashboard_text(state: &TuiState) -> String {
    let elapsed: Vec<Duration> = state.active.iter().map(|a| a.elapsed()).collect();
    let mut out = Vec::new();
    out.push(title_line(state, state.elapsed()));
    out.push(status_line(state));
    for l in active_lines(state, &elapsed) {
        out.push(l.text);
    }
    for l in recent_lines(state) {
        out.push(l.text);
    }
    out.push(system_line(state.system));
    out.join("\n")
}

// ── the dashboard's text ────────────────────────────────────────────────────

#[test]
fn empty_state_does_not_panic() {
    let state = TuiState::new();
    let text = dashboard_text(&state);
    assert!(text.contains("Build ? (dev)  •  no commit  •  elapsed 0:00"));
    assert!(text.contains("0 crates compiled"));
    assert!(text.contains("  (no active compilations)"));
    assert!(text.contains("  (none yet)"));
}

#[test]
fn header_shows_build_id_when_set() {
    let mut state = TuiState::new();
    state.build_id = Some(BuildId(42));
    assert!(dashboard_text(&state).contains("#42"), "expected '#42' in buffer");
}

#[test]
fn header_shows_profile_from_build_started() {
    let mut state = TuiState::new();
    state.apply_event(&BuildEvent::BuildStarted {
        at: "2025-01-01T00:00:00Z".into(),
        commit_hash: Some("deadbeef".into()),
        cargo_args: vec![],
        profile: BuildProfile::Release,
    });
    assert!(dashboard_text(&state).contains("release"));
}

#[test]
fn header_shows_commit_prefix() {
    let mut state = TuiState::new();
    state.apply_event(&BuildEvent::BuildStarted {
        at: "2025-01-01T00:00:00Z".into(),
        commit_hash: Some("abc1234def".into()),
        cargo_args: vec![],
        profile: BuildProfile::Dev,
    });
    let text = dashboard_text(&state);
    // Only the first 7 chars are shown.
    assert!(text.contains("abc1234"));
    assert!(text.contains("commit abc1234  •"));
    assert!(!text.contains("abc1234d"));
}

#[test]
fn active_section_shows_crate_name() {
    let mut state = TuiState::new();
    state.apply_event(&started("serde_derive"));
    assert!(dashboard_text(&state).contains("serde_derive"));
}

#[test]
fn active_section_shows_slower_verdict() {
    let mut state = TuiState::new();
    state.apply_event(&started("heavy_crate"));
    state.set_in_progress_verdict(&crate_id("heavy_crate"), AnomalyVerdict::Slower);
    assert!(dashboard_text(&state).contains("slower"));
}

#[test]
fn recent_section_shows_finished_crate_name() {
    let mut state = TuiState::new();
    state.apply_event(&started("syn"));
    state.apply_event(&finished("syn", 1500));
    assert!(dashboard_text(&state).contains("syn"));
}

#[test]
fn recent_section_shows_faster_verdict() {
    let mut state = TuiState::new();
    state.apply_event(&started("quote"));
    state.apply_event(&finished("quote", 200));
    state.set_verdict(&crate_id("quote"), AnomalyVerdict::Faster);
    assert!(dashboard_text(&state).contains("faster"));
}

#[test]
fn system_section_shows_cpu_when_snapshot_present() {
    let mut state = TuiState::new();
    state.update_system(SystemSnapshot {
        cpu_usage_tenths: 755,
        mem_used_bytes: 4 * 1024 * 1024 * 1024,
        mem_total_bytes: 16 * 1024 * 1024 * 1024,
    });
    let text = dashboard_text(&state);
    assert!(text.contains("75.5"), "expected CPU% in buffer");
    assert!(text.contains("GiB"), "expected GiB in buffer");
    assert!(text.contains("  CPU:  75.5%   Memory: 4.0 GiB / 16.0 GiB"));
}

#[test]
fn system_section_shows_placeholder_without_snapshot() {
    let state = TuiState::new();
    assert!(dashboard_text(&state).contains("--"));
    assert_eq!(system_line(None), "  CPU: --   Memory: --");
}

#[test]
fn finished_build_shows_success_status() {
    let mut state = TuiState::new();
    state.apply_event(&BuildEvent::BuildFinished {
        success: true,
        total_duration: Duration::from_secs(30),
        at: "2025-01-01T00:00:30Z".into(),
    });
    assert!(dashboard_text(&state).contains("succeeded"));
    assert_eq!(status_line(&state), "✓ Build succeeded  in 0:30  (0 crates)");
}

#[test]
fn finished_build_shows_failure_status() {
    let mut state = TuiState::new();
    state.apply_event(&BuildEvent::BuildFinished {
        success: false,
        total_duration: Duration::from_secs(5),
        at: "2025-01-01T00:00:05Z".into(),
    });
    assert!(dashboard_text(&state).contains("failed"));
    assert_eq!(status_line(&state), "✗ Build failed  in 0:05  (0 crates)");
}

#[test]
fn entry_lines_pad_name_and_time() {
    let mut state = TuiState::new();
    state.apply_event(&started("syn"));
    state.apply_event(&finished("syn", 61_000));
    let lines = recent_lines(&state);
    assert_eq!(lines.len(), 1);
    let expected = format!("  ✓ {:<32} {:>6}   {}", "syn", "1:01", "? unknown");
    assert_eq!(lines[0].text, expected);
    assert_eq!(lines[0].color, LineColor::DarkGray);
}

#[test]
fn active_lines_put_the_longest_running_first() {
    let mut state = TuiState::new();
    state.apply_event(&started("a"));
    state.apply_event(&started("b"));
    state.apply_event(&started("c"));
    let elapsed = vec![
        Duration::from_secs(5),
        Duration::from_secs(70),
        Duration::from_secs(5),
    ];
    let lines = active_lines(&state, &elapsed);
    let names: Vec<String> = lines
        .iter()
        .map(|l| l.text.split_whitespace().nth(1).unwrap().to_string())
        .collect();
    assert_eq!(names, vec!["b", "a", "c"]);
    assert!(lines[0].text.contains("  1:10   "));
}

#[test]
fn recent_lines_put_the_newest_first() {
    let mut state = TuiState::new();
    for name in ["one", "two", "three"] {
        state.apply_event(&started(name));
        state.apply_event(&finished(name, 100));
    }
    let lines = recent_lines(&state);
    assert!(lines[0].text.contains("three"));
    assert!(lines[1].text.contains("two"));
    assert!(lines[2].text.contains("one"));
}

#[test]
fn title_line_shows_crate_count_and_elapsed() {
    let mut state = TuiState::new();
    state.build_id = Some(BuildId(7));
    let t = title_line(&state, Some(Duration::from_secs(28)));
    assert_eq!(t, "Build #7 (dev)  •  no commit  •  elapsed 0:28");
    assert_eq!(status_line(&state), "0 crates compiled");
}

// ── format_duration ─────────────────────────────────────────────────────────

#[test]
fn format_duration_zero() {
    assert_eq!(format_duration(Duration::zero()), "0:00");
}

#[test]
fn format_duration_seconds_only() {
    assert_eq!(format_duration(Duration::from_secs(42)), "0:42");
}

#[test]
fn format_duration_over_one_minute() {
    assert_eq!(format_duration(Duration::from_secs(90)), "1:30");
}

#[test]
fn format_duration_over_one_hour() {
    assert_eq!(format_duration(Duration::from_secs(3661)), "1:01:01");
}

#[test]
fn format_duration_exactly_one_minute() {
    assert_eq!(format_duration(Duration::from_secs(60)), "1:00");
}

#[test]
fn format_duration_drops_fractions_and_grows_hours() {
    assert_eq!(format_duration(Duration::from_millis(59_999)), "0:59");
    assert_eq!(format_duration(Duration::from_secs(100 * 3600 + 5)), "100:00:05");
}

// ── format_bytes ────────────────────────────────────────────────────────────

#[test]
fn format_bytes_below_kib() {
    assert_eq!(format_bytes(500), "500 B");
}

#[test]
fn format_bytes_kib_boundary() {
    assert_eq!(format_bytes(2048), "2.0 KiB");
}

#[test]
fn format_bytes_mib() {
    assert_eq!(format_bytes(512 * 1024 * 1024), "512.0 MiB");
}

#[test]
fn format_bytes_gib() {
    assert_eq!(format_bytes(4 * 1024 * 1024 * 1024), "4.0 GiB");
}

/// The one-decimal text of `bytes / unit` as floating point formats it.
fn float_text(bytes: u64) -> String {
    const GIB: u64 = 1024 * 1024 * 1024;
    const MIB: u64 = 1024 * 1024;
    const KIB: u64 = 1024;
    if bytes >= GIB {
        format!("{:.1} GiB", bytes as f64 / GIB as f64)
    } else if bytes >= MIB {
        format!("{:.1} MiB", bytes as f64 / MIB as f64)
    } else if bytes >= KIB {
        format!("{:.1} KiB", bytes as f64 / KIB as f64)
    } else {
        format!("{} B", bytes)
    }
}

#[test]
fn format_bytes_agrees_with_float_formatting() {
    let mut samples: Vec<u64> = Vec::new();
    for b in 0..5000u64 {
        samples.push(b);
    }
    for k in 0..4000u64 {
        samples.push(k * 1_048_576 / 10 + 52_428); // near the MiB tenths
        samples.push(k * 1_073_741_824 / 10 + 53_687_091);
        samples.push(k * 104_857 + 51_200);
    }
    // Exact ties: 10 * bytes / unit ends in .5.
    samples.push(1024 + 51 * 10 + 2);
    samples.push(5 * 1_073_741_824 / 100);
    samples.push(1_073_741_824 + 1_073_741_824 / 20);
    samples.push(1_048_576 + 1_048_576 / 20);
    samples.push(3 * 1_048_576 / 20 * 10);
    for b in samples {
        assert_eq!(format_bytes(b), float_text(b), "bytes = {}", b);
    }
}

// ── verdict_label ───────────────────────────────────────────────────────────

#[test]
fn verdict_labels_all_variants() {
    assert_eq!(verdict_label(AnomalyVerdict::Slower), "⚠ slower");
    assert_eq!(verdict_label(AnomalyVerdict::Faster), "↓ faster");
    assert_eq!(verdict_label(AnomalyVerdict::Normal), "· normal");
    assert_eq!(verdict_label(AnomalyVerdict::Unknown), "? unknown");
}

#[test]
fn verdict_colors_all_variants() {
    assert_eq!(verdict_color(AnomalyVerdict::Slower), LineColor::Red);
    assert_eq!(verdict_color(AnomalyVerdict::Faster), LineColor::Green);
    assert_eq!(verdict_color(AnomalyVerdict::Normal), LineColor::Reset);
    assert_eq!(verdict_color(AnomalyVerdict::Unknown), LineColor::DarkGray);
}
