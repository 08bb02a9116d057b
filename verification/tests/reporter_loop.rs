use activityping::models::{ClientConfig, DiscordReportMode};
use activityping::platform::{ForegroundSnapshot, MediaInfo};
use activityping::reporter::lifecycle::{
    config_is_ready, record_start, record_stop, reporter_worker_stopping, sleep_slice_ms,
    STOP_CHECK_STEP_MS,
};
use activityping::reporter::state::{ReporterLogEntry, ReporterState, MAX_LOGS};
use activityping::reporter::worker::{
    effective_sleep_ms, heartbeat_interval_ms, new_log_entry, poll_interval_ms,
    reporter_iteration, should_emit_activity, CaptureOutcome, LoopClock, LoopMemory,
    MAX_ERROR_BACKOFF_MS,
};

fn clock(now_ms: u64) -> LoopClock {
    LoopClock {
        now_ns: now_ms * 1_000_000,
        unix_ms: now_ms,
        iso: format!("t{now_ms}"),
    }
}

fn memory() -> LoopMemory {
    LoopMemory {
        last_signature: None,
        last_emit_at_ns: None,
        consecutive_errors: 0,
        last_media_error: None,
        sequence: 0,
    }
}

fn music_config() -> ClientConfig {
    ClientConfig {
        discord_report_mode: DiscordReportMode::Music,
        heartbeat_interval_ms: 0,
        ..ClientConfig::default()
    }
}

fn playing() -> MediaInfo {
    MediaInfo {
        title: "Track Name".into(),
        artist: "Artist Name".into(),
        playback_state: "playing".into(),
        ..MediaInfo::default()
    }
}

fn snapshot() -> ForegroundSnapshot {
    ForegroundSnapshot {
        process_name: "Code.exe".into(),
        process_title: "main.rs".into(),
    }
}

fn captured(media: MediaInfo, media_error: Option<&str>) -> CaptureOutcome {
    CaptureOutcome::Captured {
        snapshot: snapshot(),
        media,
        media_error: media_error.map(|e| e.to_string()),
    }
}

fn entry(seq: &mut u64, title: &str) -> ReporterLogEntry {
    new_log_entry(seq, &clock(5), "info", title.to_string(), "detail".to_string())
}

#[test]
fn log_entry_id_joins_time_and_sequence() {
    let mut seq = 7;
    let e = new_log_entry(&mut seq, &clock(1_700_000_000_000), "warn", "T".into(), "D".into());
    assert_eq!(e.id, "1700000000000-7");
    assert_eq!(e.timestamp, "t1700000000000");
    assert_eq!(e.level, "warn");
    assert_eq!(e.title, "T");
    assert_eq!(e.detail, "D");
    assert!(e.payload.is_none());
    assert_eq!(seq, 8);
}

#[test]
fn log_keeps_the_newest_entries_first_and_is_capped() {
    let mut state = ReporterState::new();
    let mut seq = 0;
    for i in 0..25 {
        state.push_log(entry(&mut seq, &format!("line {i}")));
    }
    assert_eq!(state.logs.len(), MAX_LOGS);
    assert_eq!(state.logs[0].title, "line 24");
    assert_eq!(state.logs[19].title, "line 5");
}

#[test]
fn payload_goes_to_the_newest_entry() {
    let mut state = ReporterState::new();
    let mut seq = 0;
    state.push_log(entry(&mut seq, "old"));
    state.push_log(entry(&mut seq, "new"));
    state.attach_payload_to_newest(serde_json::Value::Bool(true));
    assert_eq!(state.logs[0].payload, Some(serde_json::Value::Bool(true)));
    assert!(state.logs[1].payload.is_none());
}

#[test]
fn stale_run_cannot_change_the_state() {
    let mut state = ReporterState::new();
    state.begin_run(2);
    state.update_snapshot(None, Some("boom".into()), Some("t".into()), 1);
    state.set_last_error(Some("boom".into()), 1);
    state.mark_stopped(Some("boom".into()), 1);
    assert!(state.running);
    assert_eq!(state.active_run_id, Some(2));
    assert!(state.last_error.is_none());
    assert!(state.last_heartbeat_at.is_none());
}

#[test]
fn owning_run_records_error_and_stop() {
    let mut state = ReporterState::new();
    state.begin_run(3);
    state.set_last_error(Some("boom".into()), 3);
    assert_eq!(state.last_error.as_deref(), Some("boom"));
    state.mark_stopped(None, 3);
    assert!(!state.running);
    assert!(state.active_run_id.is_none());
    assert_eq!(state.last_error.as_deref(), Some("boom"));
}

#[test]
fn start_then_clean_stop() {
    let mut state = ReporterState::new();
    let mut seq = 0;
    record_start(&mut state, 9, &mut seq, &clock(100));
    assert!(state.running);
    assert_eq!(state.active_run_id, Some(9));
    assert_eq!(state.logs[0].title, "Local monitor started");
    assert_eq!(state.logs[0].level, "info");
    record_stop(&mut state, true, &mut seq, &clock(200));
    assert!(!state.running);
    assert!(state.active_run_id.is_none());
    assert!(state.current_activity.is_none());
    assert_eq!(state.logs[0].title, "Local monitor stopped");
    assert_eq!(state.logs[0].level, "warn");
    assert_eq!(state.logs[0].id, "200-1");
    assert_eq!(seq, 2);
    let snap = state.snapshot();
    assert!(!snap.running);
    assert_eq!(snap.logs.len(), 2);
}

#[test]
fn stop_while_worker_still_running_says_so() {
    let mut state = ReporterState::new();
    let mut seq = 0;
    record_start(&mut state, 1, &mut seq, &clock(100));
    record_stop(&mut state, false, &mut seq, &clock(200));
    assert!(!state.running);
    assert_eq!(state.logs[0].title, "Local monitor is stopping");
}

#[test]
fn lifecycle_texts() {
    assert!(config_is_ready(&ClientConfig::default()));
    assert_eq!(
        reporter_worker_stopping(),
        "Local monitor is still stopping. Try again shortly."
    );
}

#[test]
fn poll_and_heartbeat_intervals_have_a_floor() {
    let mut c = ClientConfig::default();
    c.poll_interval_ms = 200;
    assert_eq!(poll_interval_ms(&c), 1000);
    c.poll_interval_ms = 2500;
    assert_eq!(poll_interval_ms(&c), 2500);
    c.heartbeat_interval_ms = 0;
    assert_eq!(heartbeat_interval_ms(&c), None);
    c.heartbeat_interval_ms = 10;
    assert_eq!(heartbeat_interval_ms(&c), Some(1000));
    c.heartbeat_interval_ms = 60_000;
    assert_eq!(heartbeat_interval_ms(&c), Some(60_000));
}

#[test]
fn backoff_values() {
    assert_eq!(effective_sleep_ms(2000, 0), 2000);
    assert_eq!(effective_sleep_ms(2000, 1), 2000);
    assert_eq!(effective_sleep_ms(2000, 2), 8000);
    assert_eq!(effective_sleep_ms(2000, 3), 16000);
    assert_eq!(effective_sleep_ms(1000, 4), 16000);
    assert_eq!(effective_sleep_ms(2000, 4), MAX_ERROR_BACKOFF_MS);
    assert_eq!(effective_sleep_ms(50_000, 2), MAX_ERROR_BACKOFF_MS);
    assert_eq!(effective_sleep_ms(50_000, 0), 50_000);
}

#[test]
fn backoff_never_shrinks_with_more_failures() {
    for poll in [1000u64, 1500, 3000, 9000] {
        let mut last = effective_sleep_ms(poll, 2);
        for e in 3..10u32 {
            let next = effective_sleep_ms(poll, e);
            assert!(next >= last);
            assert!(next <= MAX_ERROR_BACKOFF_MS);
            last = next;
        }
    }
}

#[test]
fn emit_decisions() {
    assert!(should_emit_activity(false, None, None, 0));
    assert!(!should_emit_activity(true, None, Some(0), 10_000_000_000));
    assert!(!should_emit_activity(true, Some(1000), None, 10_000_000_000));
    assert!(!should_emit_activity(true, Some(1000), Some(0), 999_999_999));
    assert!(should_emit_activity(true, Some(1000), Some(0), 1_000_000_000));
    assert!(!should_emit_activity(true, Some(1000), Some(5), 1));
}

#[test]
fn foreground_failure_is_logged_and_counted() {
    let mut state = ReporterState::new();
    state.begin_run(1);
    let mut m = memory();
    let c = music_config();
    let out = reporter_iteration(
        &mut state,
        &mut m,
        &c,
        CaptureOutcome::ForegroundFailed("no window".into()),
        &clock(10),
        1,
    );
    assert_eq!(m.consecutive_errors, 1);
    assert_eq!(m.sequence, 1);
    assert_eq!(state.logs[0].title, "Foreground capture failed");
    assert_eq!(state.logs[0].level, "error");
    assert_eq!(state.logs[0].detail, "no window");
    assert_eq!(state.last_error.as_deref(), Some("no window"));
    assert!(out.report.is_none());
    assert_eq!(out.sleep_ms, c.poll_interval_ms);
    assert_eq!(out.sleep_ms, 5000);
    let out2 = reporter_iteration(
        &mut state,
        &mut m,
        &c,
        CaptureOutcome::ForegroundFailed("no window".into()),
        &clock(20),
        1,
    );
    assert_eq!(m.consecutive_errors, 2);
    assert_eq!(out2.sleep_ms, 20000);
}

#[test]
fn capture_reports_then_stays_quiet_without_heartbeat() {
    let mut state = ReporterState::new();
    state.begin_run(1);
    let mut m = memory();
    m.consecutive_errors = 3;
    let c = music_config();
    let out = reporter_iteration(&mut state, &mut m, &c, captured(playing(), None), &clock(10), 1);
    assert!(out.report.is_some());
    assert_eq!(m.consecutive_errors, 0);
    assert_eq!(state.logs.len(), 1);
    assert_eq!(state.logs[0].title, "Activity updated");
    assert_eq!(state.logs[0].level, "success");
    assert!(state.logs[0].detail.starts_with("Captured "));
    assert_eq!(state.last_heartbeat_at.as_deref(), Some("t10"));
    let (resolved, shown) = out.report.unwrap();
    assert_eq!(shown.media_title.as_deref(), Some("Track Name"));
    assert_eq!(shown.updated_at.as_deref(), Some("t10"));
    assert_eq!(m.last_signature.as_deref(), Some(resolved.signature.as_str()));
    assert!(state.current_activity.is_some());

    let again = reporter_iteration(&mut state, &mut m, &c, captured(playing(), None), &clock(20), 1);
    assert!(again.report.is_none());
    assert_eq!(state.logs.len(), 1);
    assert_eq!(state.last_heartbeat_at.as_deref(), Some("t10"));
}

#[test]
fn unchanged_activity_is_reported_again_after_the_heartbeat() {
    let mut state = ReporterState::new();
    state.begin_run(1);
    let mut m = memory();
    let mut c = music_config();
    c.heartbeat_interval_ms = 1000;
    reporter_iteration(&mut state, &mut m, &c, captured(playing(), None), &clock(1000), 1);
    let early = reporter_iteration(&mut state, &mut m, &c, captured(playing(), None), &clock(1500), 1);
    assert!(early.report.is_none());
    let late = reporter_iteration(&mut state, &mut m, &c, captured(playing(), None), &clock(2000), 1);
    assert!(late.report.is_some());
    assert_eq!(state.logs[0].title, "Activity heartbeat");
    assert_eq!(state.logs[0].level, "info");
    assert!(state.logs[0].detail.starts_with("Heartbeat kept for "));
}

#[test]
fn activity_cleared_when_nothing_passes() {
    let mut state = ReporterState::new();
    state.begin_run(1);
    let mut m = memory();
    let c = music_config();
    reporter_iteration(&mut state, &mut m, &c, captured(playing(), None), &clock(10), 1);
    let out = reporter_iteration(
        &mut state,
        &mut m,
        &c,
        captured(MediaInfo::default(), None),
        &clock(20),
        1,
    );
    assert!(out.report.is_none());
    assert_eq!(state.logs[0].title, "Activity cleared");
    assert!(state.current_activity.is_none());
    assert!(m.last_signature.is_none());
}

#[test]
fn media_failure_is_logged_once_until_it_changes() {
    let mut state = ReporterState::new();
    state.begin_run(1);
    let mut m = memory();
    let c = ClientConfig {
        discord_report_mode: DiscordReportMode::App,
        ..ClientConfig::default()
    };
    reporter_iteration(&mut state, &mut m, &c, captured(MediaInfo::default(), Some("x")), &clock(1), 1);
    let logged = state.logs.iter().filter(|e| e.title == "Media capture failed").count();
    assert_eq!(logged, 1);
    reporter_iteration(&mut state, &mut m, &c, captured(MediaInfo::default(), Some("x")), &clock(2), 1);
    let logged = state.logs.iter().filter(|e| e.title == "Media capture failed").count();
    assert_eq!(logged, 1);
    reporter_iteration(&mut state, &mut m, &c, captured(MediaInfo::default(), Some("y")), &clock(3), 1);
    let logged = state.logs.iter().filter(|e| e.title == "Media capture failed").count();
    assert_eq!(logged, 2);
    assert_eq!(m.last_media_error.as_deref(), Some("y"));
}

#[test]
fn stale_pass_only_adds_log_lines() {
    let mut state = ReporterState::new();
    state.begin_run(5);
    let mut m = memory();
    let c = music_config();
    reporter_iteration(&mut state, &mut m, &c, captured(playing(), None), &clock(10), 4);
    assert!(state.running);
    assert_eq!(state.active_run_id, Some(5));
    assert!(state.current_activity.is_none());
    assert!(state.last_heartbeat_at.is_none());
    assert_eq!(state.logs.len(), 1);
}

#[test]
fn stale_run_over_many_passes_only_logs_and_stays_capped() {
    let mut state = ReporterState::new();
    state.begin_run(9);
    let mut m = memory();
    let c = ClientConfig {
        heartbeat_interval_ms: 1_000,
        ..music_config()
    };
    for i in 0..30u64 {
        let outcome = if i % 3 == 0 {
            CaptureOutcome::ForegroundFailed(format!("failure {i}"))
        } else {
            captured(playing(), None)
        };
        reporter_iteration(&mut state, &mut m, &c, outcome, &clock(10 + i * 2_000), 8);
        assert!(state.logs.len() <= MAX_LOGS);
    }
    assert!(state.running);
    assert_eq!(state.active_run_id, Some(9));
    assert!(state.current_activity.is_none());
    assert!(state.last_heartbeat_at.is_none());
    assert!(state.last_error.is_none());
    assert_eq!(state.logs.len(), MAX_LOGS);
}

#[test]
fn sleeps_are_cut_into_short_slices() {
    assert_eq!(STOP_CHECK_STEP_MS, 200);
    assert_eq!(sleep_slice_ms(1_000), 200);
    assert_eq!(sleep_slice_ms(200), 200);
    assert_eq!(sleep_slice_ms(150), 150);
    assert_eq!(sleep_slice_ms(0), 0);
    let mut remaining = 450;
    let mut slices = Vec::new();
    while remaining > 0 {
        let s = sleep_slice_ms(remaining);
        slices.push(s);
        remaining -= s;
    }
    assert_eq!(slices, vec![200, 200, 50]);
}
