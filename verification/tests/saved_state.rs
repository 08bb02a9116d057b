use activityping::models::ClientConfig;
use activityping::state_store::{
    is_blank_content, normalize_app_history, normalize_optional_string,
    normalize_play_source_history, normalize_state, state_from_file, AppHistoryEntry,
    AppStatePayload, PlaySourceHistoryEntry, StateFileRead, DEFAULT_LOCALE, MAX_HISTORY_RECORDS,
};

fn app(name: &str, title: Option<&str>) -> AppHistoryEntry {
    AppHistoryEntry {
        process_name: name.into(),
        process_title: title.map(String::from),
        status_text: None,
        updated_at: Some("  ".into()),
    }
}

fn source(name: &str) -> PlaySourceHistoryEntry {
    PlaySourceHistoryEntry {
        source: name.into(),
        media_title: Some(" Song ".into()),
        media_artist: None,
        media_album: Some("".into()),
        media_summary: None,
        updated_at: None,
    }
}

#[test]
fn optional_strings_are_trimmed_or_dropped() {
    assert_eq!(normalize_optional_string(&Some("  a b ".into())), Some("a b".into()));
    assert_eq!(normalize_optional_string(&Some(" \t ".into())), None);
    assert_eq!(normalize_optional_string(&None), None);
}

#[test]
fn app_history_is_deduplicated_case_insensitively_and_capped() {
    let out = normalize_app_history(&vec![
        app("  Code.exe ", Some(" main.rs ")),
        app("", None),
        app("code.EXE", Some("other")),
        app("chrome.exe", None),
        app("Slack.exe", None),
        app("zoom.exe", None),
    ]);
    assert_eq!(out.len(), MAX_HISTORY_RECORDS);
    assert_eq!(out[0].process_name, "Code.exe");
    assert_eq!(out[0].process_title.as_deref(), Some("main.rs"));
    assert_eq!(out[0].updated_at, None);
    assert_eq!(out[1].process_name, "chrome.exe");
    assert_eq!(out[2].process_name, "Slack.exe");
}

#[test]
fn play_sources_are_lower_cased_and_deduplicated() {
    let out = normalize_play_source_history(&vec![
        source(" Spotify "),
        source("SPOTIFY"),
        source("   "),
        source("Music"),
    ]);
    assert_eq!(out.len(), 2);
    assert_eq!(out[0].source, "spotify");
    assert_eq!(out[0].media_title.as_deref(), Some("Song"));
    assert_eq!(out[0].media_album, None);
    assert_eq!(out[1].source, "music");
}

#[test]
fn blank_content() {
    assert!(is_blank_content(""));
    assert!(is_blank_content(" \n\t "));
    assert!(!is_blank_content(" {} "));
}

#[test]
fn missing_or_corrupt_file_gives_a_fresh_state() {
    for read in [StateFileRead::Missing, StateFileRead::Blank, StateFileRead::Corrupt] {
        let s = state_from_file(read).unwrap();
        assert_eq!(s.locale, DEFAULT_LOCALE);
        assert_eq!(s.config, {
            let mut c = ClientConfig::default();
            activityping::rules::normalize_client_config(&mut c);
            c
        });
        assert!(s.app_history.is_empty());
        assert!(s.play_source_history.is_empty());
    }
}

#[test]
fn read_failure_is_an_error() {
    match state_from_file(StateFileRead::Failed("denied".into())) {
        Err(e) => assert_eq!(e, "Failed to read the state file: denied"),
        Ok(_) => panic!("expected an error"),
    }
}

#[test]
fn parsed_state_is_normalized() {
    let mut payload = AppStatePayload::fresh();
    payload.locale = "zh-CN".into();
    payload.config.poll_interval_ms = 10;
    payload.config.capture_history_record_limit = 500;
    payload.app_history = vec![app("a", None), app("A", None)];
    let s = state_from_file(StateFileRead::Parsed(payload)).unwrap();
    assert_eq!(s.locale, "zh-CN");
    assert_eq!(s.config.poll_interval_ms, 1000);
    assert_eq!(s.config.capture_history_record_limit, 50);
    assert_eq!(s.app_history.len(), 1);
}

#[test]
fn blank_locale_gets_the_default() {
    let mut payload = AppStatePayload::fresh();
    payload.locale = "   ".into();
    normalize_state(&mut payload);
    assert_eq!(payload.locale, "en-US");
}
