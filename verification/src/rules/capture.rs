//! Which parts of the foreground window and media the reporter needs to capture.
use crate::models::{
    AppFilterMode, ClientConfig, DiscordCustomAppIconSource, DiscordCustomArtworkSource,
    DiscordReportMode,
};
use vstd::prelude::*;

verus! {

/// The app filter reads the process name.
pub open spec fn filters_need_process_name(c: ClientConfig) -> bool {
    c.app_filter_mode == AppFilterMode::Whitelist || c.app_blacklist@.len() > 0
        || c.app_whitelist@.len() > 0
}

pub open spec fn capture_process_name_spec(c: ClientConfig) -> bool {
    match c.discord_report_mode {
        DiscordReportMode::Music => filters_need_process_name(c),
        _ => c.report_foreground_app || c.discord_smart_show_app_name
            || c.app_message_rules_show_process_name || c.app_message_rules@.len() > 0
            || c.app_name_only_list@.len() > 0 || filters_need_process_name(c),
    }
}

pub open spec fn capture_window_title_spec(c: ClientConfig) -> bool {
    match c.discord_report_mode {
        DiscordReportMode::Music => false,
        _ => c.report_window_title,
    }
}

pub open spec fn capture_media_spec(c: ClientConfig) -> bool {
    match c.discord_report_mode {
        DiscordReportMode::App => false,
        DiscordReportMode::Custom => c.report_media || c.report_play_source
            || c.discord_custom_artwork_source == DiscordCustomArtworkSource::Music
            || c.discord_custom_app_icon_source == DiscordCustomAppIconSource::Source,
        _ => c.report_media || c.report_play_source,
    }
}

pub open spec fn capture_app_icon_spec(c: ClientConfig) -> bool {
    (c.discord_use_app_artwork && c.discord_report_mode != DiscordReportMode::Music) || (
    c.discord_report_mode == DiscordReportMode::Custom && c.discord_custom_artwork_source
        == DiscordCustomArtworkSource::App) || (c.discord_report_mode == DiscordReportMode::Custom
        && c.discord_custom_app_icon_source == DiscordCustomAppIconSource::App)
}

pub open spec fn capture_snapshot_spec(c: ClientConfig) -> bool {
    capture_process_name_spec(c) || capture_window_title_spec(c) || capture_app_icon_spec(c)
}

pub fn requires_process_name_for_filters(config: &ClientConfig) -> (r: bool)
    ensures
        r == filters_need_process_name(*config),
{
    config.app_filter_mode == AppFilterMode::Whitelist || config.app_blacklist.len() != 0
        || config.app_whitelist.len() != 0
}

pub fn should_capture_process_name_for_reporting(config: &ClientConfig) -> (r: bool)
    ensures
        r == capture_process_name_spec(*config),
{
    let filter_capture = requires_process_name_for_filters(config);
    match config.discord_report_mode {
        DiscordReportMode::Music => filter_capture,
        _ => {
            config.report_foreground_app || config.discord_smart_show_app_name
                || config.app_message_rules_show_process_name || config.app_message_rules.len()
                != 0 || config.app_name_only_list.len() != 0 || filter_capture
        },
    }
}

pub fn should_capture_window_title_for_reporting(config: &ClientConfig) -> (r: bool)
    ensures
        r == capture_window_title_spec(*config),
{
    match config.discord_report_mode {
        DiscordReportMode::Music => false,
        _ => config.report_window_title,
    }
}

pub fn should_capture_media_for_reporting(config: &ClientConfig) -> (r: bool)
    ensures
        r == capture_media_spec(*config),
{
    match config.discord_report_mode {
        DiscordReportMode::App => false,
        DiscordReportMode::Custom => {
            config.report_media || config.report_play_source || config.discord_custom_artwork_source
                == DiscordCustomArtworkSource::Music || config.discord_custom_app_icon_source
                == DiscordCustomAppIconSource::Source
        },
        _ => config.report_media || config.report_play_source,
    }
}

pub fn should_capture_foreground_app_icon_for_reporting(config: &ClientConfig) -> (r: bool)
    ensures
        r == capture_app_icon_spec(*config),
{
    (config.discord_use_app_artwork && config.discord_report_mode != DiscordReportMode::Music) || (
    config.discord_report_mode == DiscordReportMode::Custom && config.discord_custom_artwork_source
        == DiscordCustomArtworkSource::App) || (config.discord_report_mode
        == DiscordReportMode::Custom && config.discord_custom_app_icon_source
        == DiscordCustomAppIconSource::App)
}

pub fn should_capture_foreground_snapshot_for_reporting(config: &ClientConfig) -> (r: bool)
    ensures
        r == capture_snapshot_spec(*config),
{
    should_capture_process_name_for_reporting(config) || should_capture_window_title_for_reporting(
        config,
    ) || should_capture_foreground_app_icon_for_reporting(config)
}

} // verus!
