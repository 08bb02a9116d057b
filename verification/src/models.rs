//! The client configuration and the records that the rules read and produce.
use vstd::prelude::*;

verus! {

/// Which text the Discord presence shows.
#[derive(Clone, Copy, Debug, PartialEq, Eq, Structural, Default)]
pub enum DiscordReportMode {
    /// Window title first, media and app name on the other line ("Smart").
    #[default]
    Mixed,
    Music,
    App,
    Custom,
}

#[derive(Clone, Copy, Debug, PartialEq, Eq, Structural, Default)]
pub enum AppFilterMode {
    #[default]
    Blacklist,
    Whitelist,
}

#[derive(Clone, Copy, Debug, PartialEq, Eq, Structural, Default)]
pub enum AppTitleRuleMode {
    #[default]
    Plain,
    Regex,
}

#[derive(Clone, Copy, Debug, PartialEq, Eq, Structural, Default)]
pub enum DiscordActivityType {
    #[default]
    Playing,
    Listening,
    Watching,
    Competing,
}

#[derive(Clone, Copy, Debug, PartialEq, Eq, Structural, Default)]
pub enum DiscordStatusDisplay {
    #[default]
    Name,
    State,
    Details,
}

#[derive(Clone, Copy, Debug, PartialEq, Eq, Structural, Default)]
pub enum DiscordAppNameMode {
    #[default]
    Default,
    Source,
    Custom,
}

#[derive(Clone, Copy, Debug, PartialEq, Eq, Structural, Default)]
pub enum DiscordCustomArtworkSource {
    #[default]
    Off,
    Music,
    App,
    Asset,
}

#[derive(Clone, Copy, Debug, PartialEq, Eq, Structural, Default)]
pub enum DiscordCustomAppIconSource {
    #[default]
    Off,
    App,
    Source,
    Asset,
}

#[derive(Clone, Copy, Debug, PartialEq, Eq, Structural, Default)]
pub enum DiscordAssetTextMode {
    #[default]
    Auto,
    Custom,
}

/// A Discord presence button.
#[derive(Clone, Debug, PartialEq, Eq, Default)]
pub struct DiscordRichPresenceButtonConfig {
    pub label: String,
    pub url: String,
}

/// An uploaded artwork asset.
#[derive(Clone, Debug, PartialEq, Eq, Default)]
pub struct DiscordCustomAsset {
    pub id: String,
    pub name: String,
    pub file_name: String,
    pub stored_path: String,
    pub content_type: String,
    pub byte_size: u64,
    pub created_at: String,
}

/// A saved set of Custom-mode settings.
#[derive(Clone, Debug, PartialEq, Eq, Default)]
pub struct DiscordCustomPreset {
    pub name: String,
    pub activity_type: DiscordActivityType,
    pub status_display: DiscordStatusDisplay,
    pub app_name_mode: DiscordAppNameMode,
    pub custom_app_name: String,
    pub details_format: String,
    pub state_format: String,
    pub custom_artwork_source: DiscordCustomArtworkSource,
    pub custom_artwork_text_mode: DiscordAssetTextMode,
    pub custom_artwork_text: String,
    pub custom_artwork_asset_id: String,
    pub custom_app_icon_source: DiscordCustomAppIconSource,
    pub custom_app_icon_text_mode: DiscordAssetTextMode,
    pub custom_app_icon_text: String,
    pub custom_app_icon_asset_id: String,
    pub buttons: Vec<DiscordRichPresenceButtonConfig>,
    pub party_id: String,
    pub party_size_current: Option<u32>,
    pub party_size_max: Option<u32>,
    pub join_secret: String,
    pub spectate_secret: String,
    pub match_secret: String,
}

/// A window-title rule inside a rule group.
#[derive(Clone, Debug, PartialEq, Eq, Default)]
pub struct AppMessageTitleRule {
    pub mode: AppTitleRuleMode,
    pub pattern: String,
    pub text: String,
    pub buttons: Vec<DiscordRichPresenceButtonConfig>,
}

/// A per-process message rule group.
#[derive(Clone, Debug, PartialEq, Eq, Default)]
pub struct AppMessageRuleGroup {
    pub process_match: String,
    pub default_text: String,
    pub title_rules: Vec<AppMessageTitleRule>,
    pub buttons: Vec<DiscordRichPresenceButtonConfig>,
    pub party_id: String,
    pub party_size_current: Option<u32>,
    pub party_size_max: Option<u32>,
    pub join_secret: String,
    pub spectate_secret: String,
    pub match_secret: String,
}

/// Everything the user configures.
#[derive(Clone, Debug, PartialEq, Eq)]
pub struct ClientConfig {
    pub poll_interval_ms: u64,
    pub heartbeat_interval_ms: u64,
    pub capture_history_record_limit: u32,
    pub capture_history_title_limit: u32,
    pub runtime_autostart_enabled: bool,
    pub legacy_reporter_enabled: bool,
    pub legacy_discord_enabled: bool,
    pub report_foreground_app: bool,
    pub report_window_title: bool,
    pub report_media: bool,
    pub report_play_source: bool,
    pub report_stopped_media: bool,
    pub discord_report_mode: DiscordReportMode,
    pub discord_activity_type: DiscordActivityType,
    pub discord_application_id: String,
    pub discord_artwork_worker_upload_url: String,
    pub discord_artwork_worker_token: String,
    pub discord_use_app_artwork: bool,
    pub discord_use_music_artwork: bool,
    pub legacy_discord_use_media_artwork: bool,
    pub discord_smart_show_app_name: bool,
    pub discord_smart_status_display: DiscordStatusDisplay,
    pub discord_app_status_display: DiscordStatusDisplay,
    pub discord_custom_mode_status_display: DiscordStatusDisplay,
    pub discord_music_status_display: DiscordStatusDisplay,
    pub discord_smart_app_name_mode: DiscordAppNameMode,
    pub discord_app_app_name_mode: DiscordAppNameMode,
    pub discord_custom_mode_app_name_mode: DiscordAppNameMode,
    pub discord_music_app_name_mode: DiscordAppNameMode,
    pub discord_smart_custom_app_name: String,
    pub discord_app_custom_app_name: String,
    pub discord_custom_mode_custom_app_name: String,
    pub discord_music_custom_app_name: String,
    pub legacy_discord_status_display: Option<DiscordStatusDisplay>,
    pub legacy_discord_app_name_mode: Option<DiscordAppNameMode>,
    pub legacy_discord_custom_app_name: Option<String>,
    pub discord_details_format: String,
    pub discord_state_format: String,
    pub discord_custom_artwork_source: DiscordCustomArtworkSource,
    pub discord_custom_artwork_text: String,
    pub discord_custom_artwork_asset_id: String,
    pub discord_custom_app_icon_source: DiscordCustomAppIconSource,
    pub discord_custom_app_icon_text: String,
    pub discord_custom_app_icon_asset_id: String,
    pub discord_custom_assets: Vec<DiscordCustomAsset>,
    pub discord_custom_buttons: Vec<DiscordRichPresenceButtonConfig>,
    pub discord_custom_party_id: String,
    pub discord_custom_party_size_current: Option<u32>,
    pub discord_custom_party_size_max: Option<u32>,
    pub discord_custom_join_secret: String,
    pub discord_custom_spectate_secret: String,
    pub discord_custom_match_secret: String,
    pub discord_custom_presets: Vec<DiscordCustomPreset>,
    pub app_filter_mode: AppFilterMode,
    pub app_blacklist: Vec<String>,
    pub app_whitelist: Vec<String>,
    pub app_name_only_list: Vec<String>,
    pub media_play_source_blocklist: Vec<String>,
    pub app_message_rules: Vec<AppMessageRuleGroup>,
    pub app_message_rules_show_process_name: bool,
}

/// The values a fresh configuration starts with.
pub open spec fn is_default_config(c: ClientConfig) -> bool {
    &&& c.poll_interval_ms == 5000
    &&& c.heartbeat_interval_ms == 60000
    &&& c.capture_history_record_limit == 5
    &&& c.capture_history_title_limit == 5
    &&& !c.runtime_autostart_enabled
    &&& !c.legacy_reporter_enabled
    &&& !c.legacy_discord_enabled
    &&& c.report_foreground_app
    &&& c.report_window_title
    &&& c.report_media
    &&& c.report_play_source
    &&& !c.report_stopped_media
    &&& c.discord_report_mode == DiscordReportMode::Mixed
    &&& c.discord_activity_type == DiscordActivityType::Playing
    &&& c.discord_application_id@.len() == 0
    &&& c.discord_artwork_worker_upload_url@.len() == 0
    &&& c.discord_artwork_worker_token@.len() == 0
    &&& !c.discord_use_app_artwork
    &&& !c.discord_use_music_artwork
    &&& !c.legacy_discord_use_media_artwork
    &&& !c.discord_smart_show_app_name
    &&& c.discord_smart_status_display == DiscordStatusDisplay::Name
    &&& c.discord_app_status_display == DiscordStatusDisplay::Name
    &&& c.discord_custom_mode_status_display == DiscordStatusDisplay::Name
    &&& c.discord_music_status_display == DiscordStatusDisplay::Name
    &&& c.discord_smart_app_name_mode == DiscordAppNameMode::Default
    &&& c.discord_app_app_name_mode == DiscordAppNameMode::Default
    &&& c.discord_custom_mode_app_name_mode == DiscordAppNameMode::Default
    &&& c.discord_music_app_name_mode == DiscordAppNameMode::Default
    &&& c.discord_smart_custom_app_name@.len() == 0
    &&& c.discord_app_custom_app_name@.len() == 0
    &&& c.discord_custom_mode_custom_app_name@.len() == 0
    &&& c.discord_music_custom_app_name@.len() == 0
    &&& c.legacy_discord_status_display is None
    &&& c.legacy_discord_app_name_mode is None
    &&& c.legacy_discord_custom_app_name is None
    &&& c.discord_details_format@.len() == 0
    &&& c.discord_state_format@.len() == 0
    &&& c.discord_custom_artwork_source == DiscordCustomArtworkSource::Off
    &&& c.discord_custom_artwork_text@.len() == 0
    &&& c.discord_custom_artwork_asset_id@.len() == 0
    &&& c.discord_custom_app_icon_source == DiscordCustomAppIconSource::Off
    &&& c.discord_custom_app_icon_text@.len() == 0
    &&& c.discord_custom_app_icon_asset_id@.len() == 0
    &&& c.discord_custom_assets@.len() == 0
    &&& c.discord_custom_buttons@.len() == 0
    &&& c.discord_custom_party_id@.len() == 0
    &&& c.discord_custom_party_size_current is None
    &&& c.discord_custom_party_size_max is None
    &&& c.discord_custom_join_secret@.len() == 0
    &&& c.discord_custom_spectate_secret@.len() == 0
    &&& c.discord_custom_match_secret@.len() == 0
    &&& c.discord_custom_presets@.len() == 0
    &&& c.app_filter_mode == AppFilterMode::Blacklist
    &&& c.app_blacklist@.len() == 0
    &&& c.app_whitelist@.len() == 0
    &&& c.app_name_only_list@.len() == 0
    &&& c.media_play_source_blocklist@.len() == 0
    &&& c.app_message_rules@.len() == 0
    &&& !c.app_message_rules_show_process_name
}

impl Default for ClientConfig {
    fn default() -> (c: Self)
        ensures
            is_default_config(c),
    {
        ClientConfig {
            poll_interval_ms: 5000,
            heartbeat_interval_ms: 60000,
            capture_history_record_limit: 5,
            capture_history_title_limit: 5,
            runtime_autostart_enabled: false,
            legacy_reporter_enabled: false,
            legacy_discord_enabled: false,
            report_foreground_app: true,
            report_window_title: true,
            report_media: true,
            report_play_source: true,
            report_stopped_media: false,
            discord_report_mode: DiscordReportMode::Mixed,
            discord_activity_type: DiscordActivityType::Playing,
            discord_application_id: String::new(),
            discord_artwork_worker_upload_url: String::new(),
            discord_artwork_worker_token: String::new(),
            discord_use_app_artwork: false,
            discord_use_music_artwork: false,
            legacy_discord_use_media_artwork: false,
            discord_smart_show_app_name: false,
            discord_smart_status_display: DiscordStatusDisplay::Name,
            discord_app_status_display: DiscordStatusDisplay::Name,
            discord_custom_mode_status_display: DiscordStatusDisplay::Name,
            discord_music_status_display: DiscordStatusDisplay::Name,
            discord_smart_app_name_mode: DiscordAppNameMode::Default,
            discord_app_app_name_mode: DiscordAppNameMode::Default,
            discord_custom_mode_app_name_mode: DiscordAppNameMode::Default,
            discord_music_app_name_mode: DiscordAppNameMode::Default,
            discord_smart_custom_app_name: String::new(),
            discord_app_custom_app_name: String::new(),
            discord_custom_mode_custom_app_name: String::new(),
            discord_music_custom_app_name: String::new(),
            legacy_discord_status_display: None,
            legacy_discord_app_name_mode: None,
            legacy_discord_custom_app_name: None,
            discord_details_format: String::new(),
            discord_state_format: String::new(),
            discord_custom_artwork_source: DiscordCustomArtworkSource::Off,
            discord_custom_artwork_text: String::new(),
            discord_custom_artwork_asset_id: String::new(),
            discord_custom_app_icon_source: DiscordCustomAppIconSource::Off,
            discord_custom_app_icon_text: String::new(),
            discord_custom_app_icon_asset_id: String::new(),
            discord_custom_assets: Vec::new(),
            discord_custom_buttons: Vec::new(),
            discord_custom_party_id: String::new(),
            discord_custom_party_size_current: None,
            discord_custom_party_size_max: None,
            discord_custom_join_secret: String::new(),
            discord_custom_spectate_secret: String::new(),
            discord_custom_match_secret: String::new(),
            discord_custom_presets: Vec::new(),
            app_filter_mode: AppFilterMode::Blacklist,
            app_blacklist: Vec::new(),
            app_whitelist: Vec::new(),
            app_name_only_list: Vec::new(),
            media_play_source_blocklist: Vec::new(),
            app_message_rules: Vec::new(),
            app_message_rules_show_process_name: false,
        }
    }
}

/// An owned copy of a button.
pub fn copy_button(b: &DiscordRichPresenceButtonConfig) -> (r: DiscordRichPresenceButtonConfig)
    ensures
        r.label@ == b.label@,
        r.url@ == b.url@,
{
    DiscordRichPresenceButtonConfig { label: b.label.clone(), url: b.url.clone() }
}

/// An owned copy of an optional string.
pub fn copy_opt_string(s: &Option<String>) -> (r: Option<String>)
    ensures
        r.deep_view() == s.deep_view(),
{
    match s {
        Some(v) => Some(v.clone()),
        None => None,
    }
}

} // verus!
