//! Turning a captured foreground window and now-playing media into the
//! activity and the Discord presence text that the user's rules ask for.
pub mod capture;
pub mod filters;
pub mod helpers;
pub mod types;
pub mod discord_text;
pub mod templates;
pub mod normalize;
pub mod message_rules;
pub mod resolve;
pub mod idempotence;
pub mod guarantees;

pub use capture::{
    should_capture_foreground_app_icon_for_reporting, should_capture_foreground_snapshot_for_reporting,
    should_capture_media_for_reporting, should_capture_process_name_for_reporting,
    should_capture_window_title_for_reporting,
};
pub use discord_text::build_discord_text;
pub use normalize::{normalize_client_config, normalize_string_list};
pub use resolve::resolve_activity;
pub use types::{ResolvedActivity, ResolvedDiscordAddons, ResolvedDiscordParty, ResolvedDiscordSecrets};
