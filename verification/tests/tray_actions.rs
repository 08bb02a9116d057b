use activityping::models::{
    ClientConfig, DiscordActivityType, DiscordCustomPreset, DiscordReportMode,
    DiscordRichPresenceButtonConfig,
};
use activityping::tray::{
    active_custom_preset_index, apply_custom_preset_to_config, apply_switch_target, configs_equal,
    custom_menu_entries, quick_switch_menu_entries, runtime_menu_entries, tray_menu_entries,
    TrayMenuEntry,
    config_matches_custom_preset, custom_preset_menu_id, failure_notice, format_tray_error,
    mode_label, parse_switch_target, preset_fallback_label, preset_label, quick_switch_notice,
    restart_plan, runtime_start_notice, runtime_start_plan, runtime_stop_notice, success_notice,
    tray_text, unsupported_switch_notice, AppliedSelection, BackendLocale, RuntimeStartOutcome,
    TraySwitchTarget, TrayText, MENU_ID_SWITCH_APP, MENU_ID_SWITCH_CUSTOM_CURRENT,
    MENU_ID_SWITCH_MIXED, MENU_ID_SWITCH_MUSIC,
};

fn preset(name: &str, details: &str) -> DiscordCustomPreset {
    DiscordCustomPreset {
        name: name.into(),
        activity_type: DiscordActivityType::Listening,
        details_format: details.into(),
        party_id: "  party ".into(),
        buttons: vec![
            DiscordRichPresenceButtonConfig { label: " Site ".into(), url: "https://a.example".into() },
            DiscordRichPresenceButtonConfig { label: "".into(), url: "https://b.example".into() },
            DiscordRichPresenceButtonConfig { label: "Two".into(), url: "https://c.example".into() },
            DiscordRichPresenceButtonConfig { label: "Three".into(), url: "https://d.example".into() },
        ],
        party_size_current: Some(0),
        party_size_max: Some(4),
        ..DiscordCustomPreset::default()
    }
}

#[test]
fn fixed_texts_in_both_languages() {
    assert_eq!(tray_text(BackendLocale::En, TrayText::Show), "Open main window");
    assert_eq!(tray_text(BackendLocale::ZhCn, TrayText::Quit), "退出应用");
    assert_eq!(mode_label(BackendLocale::En, &DiscordReportMode::Mixed), "Smart");
    assert_eq!(mode_label(BackendLocale::ZhCn, &DiscordReportMode::Custom), "自定义");
    assert_eq!(
        format_tray_error(BackendLocale::En, TrayText::LoadIconFailed, "bad png"),
        "Failed to load the tray icon: bad png"
    );
}

#[test]
fn preset_labels_fall_back_to_their_number() {
    assert_eq!(preset_fallback_label(BackendLocale::En, 0), "Preset 1");
    assert_eq!(preset_fallback_label(BackendLocale::ZhCn, 9), "预设 10");
    assert_eq!(preset_label(BackendLocale::En, &preset("  Focus ", ""), 2), "Focus");
    assert_eq!(preset_label(BackendLocale::En, &preset("   ", ""), 2), "Preset 3");
}

#[test]
fn menu_ids_round_trip() {
    for i in [0usize, 7, 12, 4096] {
        let id = custom_preset_menu_id(i);
        assert_eq!(parse_switch_target(&id), Some(TraySwitchTarget::CustomPreset(i)));
    }
    assert_eq!(custom_preset_menu_id(12), "tray_switch_custom_preset::12");
    assert_eq!(
        parse_switch_target(MENU_ID_SWITCH_MIXED),
        Some(TraySwitchTarget::Mode(DiscordReportMode::Mixed))
    );
    assert_eq!(
        parse_switch_target(MENU_ID_SWITCH_MUSIC),
        Some(TraySwitchTarget::Mode(DiscordReportMode::Music))
    );
    assert_eq!(
        parse_switch_target(MENU_ID_SWITCH_APP),
        Some(TraySwitchTarget::Mode(DiscordReportMode::App))
    );
    assert_eq!(
        parse_switch_target(MENU_ID_SWITCH_CUSTOM_CURRENT),
        Some(TraySwitchTarget::CustomCurrent)
    );
    assert_eq!(parse_switch_target("tray_switch_custom_preset::+3"), Some(TraySwitchTarget::CustomPreset(3)));
    assert_eq!(parse_switch_target("tray_switch_custom_preset::"), None);
    assert_eq!(parse_switch_target("tray_switch_custom_preset::x1"), None);
    assert_eq!(parse_switch_target("tray_quit"), None);
}

#[test]
fn switching_modes_changes_only_the_mode() {
    let mut c = ClientConfig::default();
    c.poll_interval_ms = 4321;
    let r = apply_switch_target(
        &mut c,
        &TraySwitchTarget::Mode(DiscordReportMode::App),
        BackendLocale::En,
    );
    assert!(matches!(r, Ok(AppliedSelection::Mode(DiscordReportMode::App))));
    assert_eq!(c.discord_report_mode, DiscordReportMode::App);
    assert_eq!(c.poll_interval_ms, 4321);
    let r = apply_switch_target(&mut c, &TraySwitchTarget::CustomCurrent, BackendLocale::En);
    assert!(matches!(r, Ok(AppliedSelection::CustomCurrent)));
    assert_eq!(c.discord_report_mode, DiscordReportMode::Custom);
}

#[test]
fn missing_preset_is_an_error_and_changes_nothing() {
    let mut c = ClientConfig::default();
    let before = c.clone();
    let r = apply_switch_target(&mut c, &TraySwitchTarget::CustomPreset(1), BackendLocale::En);
    match r {
        Err(e) => assert_eq!(e, "Custom preset 2 was not found."),
        Ok(_) => panic!("expected an error"),
    }
    assert_eq!(c, before);
    let r = apply_switch_target(&mut c, &TraySwitchTarget::CustomPreset(0), BackendLocale::ZhCn);
    match r {
        Err(e) => assert_eq!(e, "找不到自定义预设 1"),
        Ok(_) => panic!("expected an error"),
    }
}

#[test]
fn applying_a_preset_makes_it_the_active_one() {
    let mut c = ClientConfig::default();
    c.discord_custom_presets = vec![preset("First", "{title}"), preset(" Second ", "__custom__")];
    let r = apply_switch_target(&mut c, &TraySwitchTarget::CustomPreset(1), BackendLocale::En);
    match r {
        Ok(AppliedSelection::CustomPreset(label)) => assert_eq!(label, "Second"),
        _ => panic!("expected the preset to apply"),
    }
    assert_eq!(c.discord_report_mode, DiscordReportMode::Custom);
    assert_eq!(c.discord_activity_type, DiscordActivityType::Listening);
    assert_eq!(c.discord_details_format, "");
    assert_eq!(c.discord_custom_party_id, "party");
    assert_eq!(c.discord_custom_party_size_current, None);
    assert_eq!(c.discord_custom_party_size_max, Some(4));
    assert_eq!(c.discord_custom_buttons.len(), 2);
    assert_eq!(c.discord_custom_buttons[0].label, "Site");
    assert_eq!(c.discord_custom_buttons[1].label, "Two");
    assert!(config_matches_custom_preset(&c, &c.discord_custom_presets[1].clone()));
    assert!(!config_matches_custom_preset(&c, &c.discord_custom_presets[0].clone()));
    assert_eq!(active_custom_preset_index(&c), Some(1));
}

#[test]
fn no_active_preset_outside_custom_mode() {
    let mut c = ClientConfig::default();
    let p = preset("Only", "{title}");
    c.discord_custom_presets = vec![p.clone()];
    apply_custom_preset_to_config(&mut c, &p);
    assert_eq!(active_custom_preset_index(&c), Some(0));
    c.discord_report_mode = DiscordReportMode::Music;
    assert_eq!(active_custom_preset_index(&c), None);
}

#[test]
fn notices() {
    let n = success_notice(
        BackendLocale::En,
        &AppliedSelection::Mode(DiscordReportMode::Music),
        true,
        true,
    );
    assert_eq!(n.tone, "success");
    assert_eq!(n.title, "Switched to Music mode");
    assert_eq!(n.detail, "Running services were updated immediately.");
    assert!(n.reload_state);
    assert!(!n.refresh_runtime);

    let n = success_notice(BackendLocale::En, &AppliedSelection::CustomCurrent, false, false);
    assert_eq!(n.tone, "info");
    assert_eq!(n.title, "Custom mode already active");
    assert_eq!(n.detail, "No restart was needed.");

    let n = success_notice(
        BackendLocale::ZhCn,
        &AppliedSelection::CustomPreset("专注".into()),
        true,
        false,
    );
    assert_eq!(n.title, "已应用自定义预设：专注");
    assert_eq!(n.detail, "设置已保存，运行时下次启动时会使用新配置。");

    let n = failure_notice(BackendLocale::En, "oops".into(), true);
    assert_eq!(n.tone, "error");
    assert_eq!(n.title, "Tray switch failed");
    assert_eq!(n.detail, "oops");
    assert!(n.reload_state);

    let n = quick_switch_notice(
        BackendLocale::En,
        &AppliedSelection::Mode(DiscordReportMode::App),
        true,
        Err("rpc down".into()),
    );
    assert_eq!(n.tone, "error");
    assert_eq!(
        n.detail,
        "The new mode was saved, but the running services could not be updated: rpc down"
    );
    assert!(n.reload_state);

    let n = quick_switch_notice(
        BackendLocale::En,
        &AppliedSelection::Mode(DiscordReportMode::App),
        false,
        Ok(true),
    );
    assert_eq!(n.title, "App mode already active");
    assert!(!n.reload_state);

    let n = unsupported_switch_notice(BackendLocale::En);
    assert_eq!(n.tone, "error");
    assert_eq!(n.title, "Tray switch failed");
    assert_eq!(n.detail, "Unsupported tray quick switch.");
    assert!(!n.reload_state);
    assert!(!n.refresh_runtime);
}

#[test]
fn runtime_notices_and_plans() {
    let p = runtime_start_plan(true, false);
    assert!(!p.already_online && p.start_discord && !p.start_reporter);
    let p = runtime_start_plan(true, true);
    assert!(p.already_online && !p.start_discord && !p.start_reporter);

    let n = runtime_start_notice(BackendLocale::En, RuntimeStartOutcome::Started);
    assert_eq!(n.tone, "success");
    assert_eq!(n.title, "Runtime online");
    assert!(n.refresh_runtime);
    let n = runtime_start_notice(BackendLocale::En, RuntimeStartOutcome::Failed("no rpc".into()));
    assert_eq!(n.tone, "error");
    assert_eq!(n.detail, "no rpc");
    let n = runtime_stop_notice(BackendLocale::ZhCn, true);
    assert_eq!(n.title, "运行时已关闭");
    assert_eq!(n.detail, "本地监控和 Discord RPC 已经停止。");

    let r = restart_plan(false, true);
    assert!(r.needed && !r.restart_reporter && r.restart_discord);
    let r = restart_plan(false, false);
    assert!(!r.needed);
}

fn item(id: &str, label: &str, enabled: bool) -> TrayMenuEntry {
    TrayMenuEntry::Item { id: id.into(), label: label.into(), enabled }
}

fn check(id: &str, label: &str, checked: bool) -> TrayMenuEntry {
    TrayMenuEntry::Check { id: id.into(), label: label.into(), checked }
}

#[test]
fn menu_layout() {
    let top = tray_menu_entries(BackendLocale::En);
    assert_eq!(top.len(), 8);
    assert_eq!(top[0], item("tray_show", "Open main window", true));
    assert_eq!(top[2], TrayMenuEntry::Separator);
    assert_eq!(top[3], TrayMenuEntry::Submenu { id: "tray_runtime".into(), label: "Runtime".into() });
    assert_eq!(top[7], item("tray_quit", "Quit app", true));

    let runtime = runtime_menu_entries(BackendLocale::ZhCn, false, true);
    assert_eq!(runtime, vec![item("tray_runtime_start", "启动", false), item("tray_runtime_stop", "关闭", true)]);
    let runtime = runtime_menu_entries(BackendLocale::En, false, false);
    assert_eq!(runtime, vec![item("tray_runtime_start", "Start", true), item("tray_runtime_stop", "Stop", false)]);

    let mut c = ClientConfig::default();
    c.discord_report_mode = DiscordReportMode::Music;
    let modes = quick_switch_menu_entries(BackendLocale::En, &c);
    assert_eq!(modes[0], check("tray_switch_mixed", "Smart", false));
    assert_eq!(modes[1], check("tray_switch_music", "Music", true));
    assert_eq!(modes[2], check("tray_switch_app", "App", false));
    assert_eq!(modes[4], TrayMenuEntry::Submenu { id: "tray_switch_custom".into(), label: "Custom".into() });
}

#[test]
fn custom_menu_checks_the_active_preset() {
    let mut c = ClientConfig::default();
    assert_eq!(
        custom_menu_entries(BackendLocale::En, &c),
        vec![check("tray_switch_custom_current", "Current custom settings", false)]
    );
    c.discord_report_mode = DiscordReportMode::Custom;
    assert_eq!(
        custom_menu_entries(BackendLocale::En, &c),
        vec![check("tray_switch_custom_current", "Current custom settings", true)]
    );
    let p0 = preset("First", "{title}");
    let p1 = preset("", "{artist}");
    c.discord_custom_presets = vec![p0, p1.clone()];
    apply_custom_preset_to_config(&mut c, &p1);
    let entries = custom_menu_entries(BackendLocale::En, &c);
    assert_eq!(entries.len(), 4);
    assert_eq!(entries[0], check("tray_switch_custom_current", "Current custom settings", false));
    assert_eq!(entries[1], TrayMenuEntry::Separator);
    assert_eq!(entries[2], check("tray_switch_custom_preset::0", "First", false));
    assert_eq!(entries[3], check("tray_switch_custom_preset::1", "Preset 2", true));
}

#[test]
fn configs_compare_by_every_setting() {
    let base = ClientConfig {
        discord_custom_presets: vec![preset("Focus", "{title}")],
        media_play_source_blocklist: vec!["spotify".into()],
        ..ClientConfig::default()
    };
    assert!(configs_equal(&base, &base.clone()));

    let mut other = base.clone();
    other.discord_report_mode = DiscordReportMode::Music;
    assert!(!configs_equal(&base, &other));

    let mut other = base.clone();
    other.media_play_source_blocklist.push("vlc".into());
    assert!(!configs_equal(&base, &other));

    let mut other = base.clone();
    other.discord_custom_presets[0].details_format = "{artist}".into();
    assert!(!configs_equal(&base, &other));

    let mut other = base.clone();
    other.legacy_discord_custom_app_name = Some("x".into());
    assert!(!configs_equal(&base, &other));

    let mut switched = base.clone();
    apply_switch_target(&mut switched, &TraySwitchTarget::Mode(base.discord_report_mode), BackendLocale::En)
        .unwrap();
    assert!(configs_equal(&base, &switched));
}
