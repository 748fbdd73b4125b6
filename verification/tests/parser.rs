use cargo_chrono::model::{BuildEvent, BuildProfile, CrateKind, MessageLevel};
use cargo_chrono::parser::{
    extract_version, finish_event, parse_compiling_line, start_event, ParserConfig, ParserState,
};
use cargo_chrono::time::Duration;

fn default_config() -> ParserConfig {
    ParserConfig {
        commit_hash: Some("abc123".to_string()),
        cargo_args: vec!["build".to_string()],
        profile: BuildProfile::Dev,
    }
}

/// Runs the parser over `lines` read at one-second intervals, the way the
/// command line drives it.
fn collect_events(lines: Vec<&str>) -> Vec<BuildEvent> {
    let mut events = vec![start_event(default_config(), "2025-01-01T00:00:00Z".to_string())];
    let mut state = ParserState::new();
    let mut success = false;
    let mut t = 0u64;
    for line in lines {
        t += 1;
        let at = format!("2025-01-01T00:00:{:02}Z", t);
        let out = state.parse_line(line, Duration::from_secs(t), &at);
        events.extend(out.events);
        if let Some(s) = out.finished {
            success = s;
            break;
        }
    }
    events.push(finish_event(success, Duration::from_secs(t), "2025-01-01T00:01:00Z".to_string()));
    events
}

const FINISHED_OK: &str = r#"{"reason":"build-finished","success":true}"#;

const ARTIFACT: &str = r#"{"reason":"compiler-artifact","package_id":"demo 0.1.0 (path+file:///tmp/demo)","manifest_path":"/tmp/demo/Cargo.toml","target":{"kind":["lib"],"crate_types":["lib"],"name":"demo","src_path":"/tmp/demo/src/lib.rs","edition":"2021","doc":true,"doctest":true,"test":true},"profile":{"opt_level":"0","debuginfo":2,"debug_assertions":true,"overflow_checks":true,"test":false},"features":[],"filenames":["/tmp/target/debug/libdemo.rlib"],"executable":null,"fresh":false}"#;

#[test]
fn first_event_is_always_build_started() {
    let events = collect_events(vec![FINISHED_OK]);
    assert!(
        matches!(events.first(), Some(BuildEvent::BuildStarted { .. })),
        "first event must be BuildStarted, got {:?}",
        events.first()
    );
}

#[test]
fn last_event_is_always_build_finished() {
    let events = collect_events(vec![FINISHED_OK]);
    assert!(
        matches!(events.last(), Some(BuildEvent::BuildFinished { success: true, .. })),
        "last event must be BuildFinished(success=true), got {:?}",
        events.last()
    );
}

#[test]
fn build_started_carries_parser_config_values() {
    let events = collect_events(vec![FINISHED_OK]);
    match events.first() {
        Some(BuildEvent::BuildStarted { commit_hash, cargo_args, profile, .. }) => {
            assert_eq!(commit_hash.as_deref(), Some("abc123"));
            assert_eq!(cargo_args, &vec!["build".to_string()]);
            assert_eq!(profile, &BuildProfile::Dev);
        }
        other => panic!("expected BuildStarted, got {:?}", other),
    }
}

#[test]
fn compiler_artifact_becomes_compilation_finished() {
    let events = collect_events(vec![ARTIFACT, FINISHED_OK]);
    let finished = events
        .iter()
        .find(|e| matches!(e, BuildEvent::CompilationFinished { .. }));
    match finished {
        Some(BuildEvent::CompilationFinished { crate_id, kind, .. }) => {
            assert_eq!(crate_id.name, "demo");
            assert_eq!(crate_id.version.as_deref(), Some("0.1.0"));
            assert_eq!(*kind, CrateKind::Lib);
        }
        other => panic!("expected CompilationFinished for 'demo', got {:?}", other),
    }
}

#[test]
fn artifact_after_compiling_line_is_timed_from_that_line() {
    let events = collect_events(vec![
        "   Compiling demo v0.1.0 (/tmp/demo)",
        "some other text",
        ARTIFACT,
        FINISHED_OK,
    ]);
    assert_eq!(events.len(), 4);
    match &events[1] {
        BuildEvent::CompilationStarted { crate_id, kind, at } => {
            assert_eq!(crate_id.name, "demo");
            assert_eq!(*kind, CrateKind::Unknown);
            assert_eq!(at, "2025-01-01T00:00:01Z");
        }
        other => panic!("expected CompilationStarted, got {:?}", other),
    }
    match &events[2] {
        BuildEvent::CompilationFinished { duration, started_at, finished_at, kind, .. } => {
            assert_eq!(*duration, Duration::from_secs(2));
            assert_eq!(*kind, CrateKind::Lib);
            assert_eq!(started_at, "2025-01-01T00:00:01Z");
            assert_eq!(finished_at, "2025-01-01T00:00:03Z");
        }
        other => panic!("expected CompilationFinished, got {:?}", other),
    }
}

const OTHER_ARTIFACT: &str = r#"{"reason":"compiler-artifact","package_id":"other 0.2.0 (path+file:///tmp/other)","manifest_path":"/tmp/other/Cargo.toml","target":{"kind":["lib"],"crate_types":["lib"],"name":"other","src_path":"/tmp/other/src/lib.rs","edition":"2021","doc":true,"doctest":true,"test":true},"profile":{"opt_level":"0","debuginfo":2,"debug_assertions":true,"overflow_checks":true,"test":false},"features":[],"filenames":["/tmp/target/debug/libother.rlib"],"executable":null,"fresh":false}"#;

#[test]
fn announced_crate_starts_before_other_crates_finish() {
    let events = collect_events(vec![
        "   Compiling demo v0.1.0 (/tmp/demo)",
        OTHER_ARTIFACT,
        ARTIFACT,
        FINISHED_OK,
    ]);
    let names: Vec<(String, &str)> = events
        .iter()
        .filter_map(|e| match e {
            BuildEvent::CompilationStarted { crate_id, .. } => Some((crate_id.name.clone(), "start")),
            BuildEvent::CompilationFinished { crate_id, .. } => Some((crate_id.name.clone(), "finish")),
            _ => None,
        })
        .collect();
    assert_eq!(
        names,
        vec![
            ("demo".to_string(), "start"),
            ("other".to_string(), "start"),
            ("other".to_string(), "finish"),
            ("demo".to_string(), "finish"),
        ]
    );
    match &events[4] {
        BuildEvent::CompilationFinished { crate_id, duration, .. } => {
            assert_eq!(crate_id.name, "demo");
            assert_eq!(*duration, Duration::from_secs(2));
        }
        other => panic!("expected demo's CompilationFinished, got {:?}", other),
    }
}

#[test]
fn artifact_without_compiling_line_takes_zero_time() {
    let events = collect_events(vec![ARTIFACT, FINISHED_OK]);
    match &events[2] {
        BuildEvent::CompilationFinished { duration, started_at, finished_at, .. } => {
            assert_eq!(*duration, Duration::zero());
            assert_eq!(started_at, finished_at);
        }
        other => panic!("expected CompilationFinished, got {:?}", other),
    }
}

#[test]
fn compiler_message_becomes_compiler_message_event() {
    let msg = r#"{"reason":"compiler-message","package_id":"demo 0.1.0 (path+file:///tmp/demo)","manifest_path":"/tmp/demo/Cargo.toml","target":{"kind":["lib"],"crate_types":["lib"],"name":"demo","src_path":"/tmp/demo/src/lib.rs","edition":"2021","doc":true,"doctest":true,"test":true},"message":{"rendered":"warning: unused variable","children":[],"code":null,"level":"warning","message":"unused variable","spans":[]}}"#;
    let events = collect_events(vec![msg, FINISHED_OK]);
    let found = events.iter().find_map(|e| match e {
        BuildEvent::CompilerMessage { crate_id, level, text } => {
            Some((crate_id.name.clone(), *level, text.clone()))
        }
        _ => None,
    });
    assert_eq!(
        found,
        Some(("demo".to_string(), MessageLevel::Warning, "warning: unused variable".to_string())),
        "expected a CompilerMessage event, got {:?}",
        events
    );
}

#[test]
fn unknown_reasons_are_silently_ignored() {
    let events = collect_events(vec![
        r#"{"reason":"some-future-event-type","data":"whatever"}"#,
        FINISHED_OK,
    ]);
    assert_eq!(events.len(), 2, "unknown reasons must not produce events, got {:?}", events);
}

#[test]
fn malformed_json_does_not_crash_parser() {
    let events = collect_events(vec![r#"this is not json"#, FINISHED_OK]);
    assert!(matches!(events.first(), Some(BuildEvent::BuildStarted { .. })));
    assert!(matches!(events.last(), Some(BuildEvent::BuildFinished { .. })));
}

#[test]
fn build_finished_forwards_success_false() {
    let events = collect_events(vec![r#"{"reason":"build-finished","success":false}"#]);
    match events.last() {
        Some(BuildEvent::BuildFinished { success, .. }) => assert!(!success),
        other => panic!("expected BuildFinished, got {:?}", other),
    }
}

#[test]
fn output_without_build_finished_counts_as_failure() {
    let events = collect_events(vec![ARTIFACT]);
    assert!(matches!(events.last(), Some(BuildEvent::BuildFinished { success: false, .. })));
}

#[test]
fn parse_compiling_line_reads_name_and_version() {
    let c = parse_compiling_line("   Compiling serde_derive v1.0.210").unwrap();
    assert_eq!(c.name, "serde_derive");
    assert_eq!(c.version.as_deref(), Some("1.0.210"));
    assert!(parse_compiling_line("    Finished dev [unoptimized] target(s)").is_none());
    assert!(parse_compiling_line("Compiling foo 1.0").is_none());
}

#[test]
fn extract_version_old_format() {
    assert_eq!(
        extract_version("demo 0.1.0 (path+file:///tmp/demo)"),
        Some("0.1.0".to_string())
    );
}

#[test]
fn extract_version_new_format_with_at() {
    assert_eq!(
        extract_version("registry+https://github.com/rust-lang/crates.io-index#itoa@1.0.15"),
        Some("1.0.15".to_string())
    );
}

#[test]
fn extract_version_path_format_no_at() {
    assert_eq!(
        extract_version("path+file:///tmp/ripgrep#15.1.0"),
        Some("15.1.0".to_string())
    );
}

#[test]
fn extract_version_workspace_member_with_at() {
    assert_eq!(
        extract_version("path+file:///tmp/ripgrep/crates/cli#grep-cli@0.1.12"),
        Some("0.1.12".to_string())
    );
}

#[test]
fn extract_version_of_empty_id_is_none() {
    assert_eq!(extract_version(""), None);
}

#[test]
fn parse_line_reads_json_and_progress_lines() {
    let mut state = ParserState::new();
    let at = "2025-01-01T00:00:01Z".to_string();
    let out = state.parse_line("   Compiling demo v0.1.0 (/tmp/demo)", Duration::from_secs(1), &at);
    assert!(out.finished.is_none());
    assert_eq!(out.events.len(), 1);
    assert!(matches!(&out.events[0], BuildEvent::CompilationStarted { at: a, .. } if *a == at));
    let out = state.parse_line(ARTIFACT, Duration::from_secs(4), &"x".to_string());
    assert_eq!(out.events.len(), 1);
    match &out.events[0] {
        BuildEvent::CompilationFinished { duration, started_at, .. } => {
            assert_eq!(*duration, Duration::from_secs(3));
            assert_eq!(*started_at, at);
        }
        other => panic!("expected CompilationFinished, got {:?}", other),
    }
    let out = state.parse_line(r#"{"reason":"build-finished","success":true}"#, Duration::from_secs(5), &at);
    assert_eq!(out.finished, Some(true));
    let out = state.parse_line("{not json", Duration::from_secs(6), &at);
    assert!(out.events.is_empty() && out.finished.is_none());
}
