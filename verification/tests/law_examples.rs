use activityping::models::{
    AppFilterMode, AppMessageRuleGroup, AppMessageTitleRule, ClientConfig, DiscordCustomAsset,
    DiscordCustomPreset, DiscordReportMode, DiscordRichPresenceButtonConfig,
};
use activityping::platform::{ForegroundSnapshot, MediaInfo};
use activityping::rules::{normalize_client_config, resolve_activity};
use activityping::state_store::{
    normalize_state, AppHistoryEntry, AppStatePayload, PlaySourceHistoryEntry,
};

fn button(label: &str, url: &str) -> DiscordRichPresenceButtonConfig {
    DiscordRichPresenceButtonConfig { label: label.into(), url: url.into() }
}

fn messy_config() -> ClientConfig {
    let mut c = ClientConfig::default();
    c.poll_interval_ms = 3;
    c.capture_history_record_limit = 0;
    c.capture_history_title_limit = 90;
    c.legacy_discord_enabled = true;
    c.discord_application_id = "  123 ".into();
    c.discord_details_format = " __custom__ ".into();
    c.discord_state_format = "  {artist} ".into();
    c.discord_custom_buttons = vec![button(" a ", " https://a "), button("", "x"), button("b", "https://b"), button("c", "https://c")];
    c.discord_custom_party_size_current = Some(0);
    c.discord_custom_assets = vec![
        DiscordCustomAsset {
            id: " one ".into(),
            name: "n".into(),
            file_name: "f.png".into(),
            stored_path: "/p".into(),
            content_type: " IMAGE/PNG ".into(),
            byte_size: 10,
            created_at: "t".into(),
        },
        DiscordCustomAsset {
            id: "one".into(),
            name: "dup".into(),
            file_name: "g.png".into(),
            stored_path: "/q".into(),
            content_type: "image/png".into(),
            byte_size: 1,
            created_at: "t".into(),
        },
    ];
    c.discord_custom_presets = vec![DiscordCustomPreset {
        name: " P ".into(),
        details_format: " {title} ".into(),
        buttons: vec![button(" x ", " y ")],
        ..DiscordCustomPreset::default()
    }];
    c.app_blacklist = vec![" Code.exe ".into(), "code.EXE".into(), "  ".into(), "slack".into()];
    c.media_play_source_blocklist = vec![" Spotify ".into(), "SPOTIFY".into(), " ".into(), "VLC".into()];
    c.app_message_rules = vec![
        AppMessageRuleGroup {
            process_match: " chrome ".into(),
            default_text: " Browsing ".into(),
            title_rules: vec![
                AppMessageTitleRule { pattern: " GitHub ".into(), text: " Coding ".into(), ..AppMessageTitleRule::default() },
                AppMessageTitleRule { pattern: "".into(), text: "x".into(), ..AppMessageTitleRule::default() },
            ],
            ..AppMessageRuleGroup::default()
        },
        AppMessageRuleGroup { process_match: " empty ".into(), ..AppMessageRuleGroup::default() },
    ];
    c
}

#[test]
fn cleaning_twice_is_cleaning_once() {
    let mut once = messy_config();
    normalize_client_config(&mut once);
    let mut twice = once.clone();
    normalize_client_config(&mut twice);
    assert_eq!(once, twice);
    assert_eq!(once.poll_interval_ms, 1000);
    assert_eq!(once.capture_history_record_limit, 1);
    assert_eq!(once.capture_history_title_limit, 50);
    assert!(once.runtime_autostart_enabled);
    assert_eq!(once.discord_application_id, "123");
    assert_eq!(once.discord_details_format, "");
    assert_eq!(once.discord_custom_buttons.len(), 2);
    assert_eq!(once.discord_custom_assets.len(), 1);
    assert_eq!(once.discord_custom_assets[0].content_type, "image/png");
    assert_eq!(once.app_blacklist, vec!["Code.exe", "slack"]);
    assert_eq!(once.media_play_source_blocklist, vec!["spotify", "vlc"]);
    assert_eq!(once.app_message_rules.len(), 1);
    assert_eq!(once.app_message_rules[0].title_rules.len(), 1);
}

#[test]
fn saved_state_is_stable() {
    let mut state = AppStatePayload::fresh();
    state.config = messy_config();
    state.app_history = vec![
        AppHistoryEntry { process_name: " Code ".into(), process_title: Some(" x ".into()), status_text: None, updated_at: None },
        AppHistoryEntry { process_name: "code".into(), process_title: None, status_text: None, updated_at: None },
    ];
    let source = |s: &str, title: Option<&str>| PlaySourceHistoryEntry {
        source: s.into(),
        media_title: title.map(|t| t.to_string()),
        media_artist: None,
        media_album: None,
        media_summary: None,
        updated_at: Some(" t ".into()),
    };
    state.play_source_history = vec![
        source(" Spotify ", Some(" Song ")),
        source("SPOTIFY", None),
        source("  ", None),
        source("vlc", Some("  ")),
    ];
    normalize_state(&mut state);
    let view = |h: &Vec<PlaySourceHistoryEntry>| -> Vec<(String, Option<String>, Option<String>)> {
        h.iter().map(|e| (e.source.clone(), e.media_title.clone(), e.updated_at.clone())).collect()
    };
    let sources = view(&state.play_source_history);
    let locale = state.locale.clone();
    let config = state.config.clone();
    let names: Vec<String> = state.app_history.iter().map(|e| e.process_name.clone()).collect();
    normalize_state(&mut state);
    assert_eq!(state.locale, locale);
    assert_eq!(state.config, config);
    let again: Vec<String> = state.app_history.iter().map(|e| e.process_name.clone()).collect();
    assert_eq!(again, names);
    assert_eq!(names, vec!["Code"]);
    assert_eq!(state.app_history[0].process_title.as_deref(), Some("x"));
    assert_eq!(view(&state.play_source_history), sources);
    assert_eq!(
        sources,
        vec![
            ("spotify".to_string(), Some("Song".to_string()), Some("t".to_string())),
            ("vlc".to_string(), None, Some("t".to_string())),
        ]
    );
}

#[test]
fn uncaptured_media_never_matters_in_smart_mode() {
    let mut c = ClientConfig::default();
    c.report_media = false;
    c.report_play_source = false;
    let snapshot = ForegroundSnapshot { process_name: "Code.exe".into(), process_title: "main.rs".into() };
    let media = MediaInfo {
        title: "Song".into(),
        artist: "Band".into(),
        source_app_id: "spotify".into(),
        playback_state: "playing".into(),
        ..MediaInfo::default()
    };
    assert_eq!(
        resolve_activity(&c, &snapshot, &media),
        resolve_activity(&c, &snapshot, &MediaInfo::default())
    );
    c.discord_report_mode = DiscordReportMode::Music;
    assert_eq!(resolve_activity(&c, &snapshot, &media), None);
}

#[test]
fn filtered_processes_are_not_reported() {
    let mut c = ClientConfig::default();
    c.app_blacklist = vec!["CODE.EXE".into()];
    let snapshot = ForegroundSnapshot { process_name: " code.exe ".into(), process_title: "main.rs".into() };
    assert_eq!(resolve_activity(&c, &snapshot, &MediaInfo::default()), None);
    c.app_filter_mode = AppFilterMode::Whitelist;
    c.app_blacklist = Vec::new();
    assert_eq!(resolve_activity(&c, &snapshot, &MediaInfo::default()), None);
    c.app_whitelist = vec!["code.exe".into()];
    assert!(resolve_activity(&c, &snapshot, &MediaInfo::default()).is_some());
}
