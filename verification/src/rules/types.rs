//! What rule evaluation produces.
use crate::models::DiscordRichPresenceButtonConfig;
use vstd::prelude::*;

verus! {

/// The activity to report for one capture.
#[derive(Clone, Debug, PartialEq, Eq)]
pub struct ResolvedActivity {
    pub process_name: String,
    pub process_title: Option<String>,
    pub media_summary: Option<String>,
    pub play_source: Option<String>,
    pub status_text: Option<String>,
    pub discord_addons: ResolvedDiscordAddons,
    pub discord_details: String,
    pub discord_state: Option<String>,
    pub summary: String,
    pub signature: String,
}

/// Buttons, party and secrets that a matched rule group adds to the presence.
#[derive(Clone, Debug, PartialEq, Eq, Default)]
pub struct ResolvedDiscordAddons {
    pub buttons: Vec<DiscordRichPresenceButtonConfig>,
    pub party: Option<ResolvedDiscordParty>,
    pub secrets: Option<ResolvedDiscordSecrets>,
}

#[derive(Clone, Debug, PartialEq, Eq)]
pub struct ResolvedDiscordParty {
    pub id: Option<String>,
    pub size: Option<(u32, u32)>,
}

#[derive(Clone, Debug, PartialEq, Eq)]
pub struct ResolvedDiscordSecrets {
    pub join: Option<String>,
    pub spectate: Option<String>,
    pub match_secret: Option<String>,
}

pub open spec fn addons_are_empty(a: ResolvedDiscordAddons) -> bool {
    a.buttons@.len() == 0 && a.party is None && a.secrets is None
}

impl ResolvedDiscordAddons {
    /// No buttons, no party and no secrets.
    pub fn none() -> (r: Self)
        ensures
            addons_are_empty(r),
    {
        ResolvedDiscordAddons { buttons: Vec::new(), party: None, secrets: None }
    }

    pub fn is_empty(&self) -> (r: bool)
        ensures
            r == addons_are_empty(*self),
    {
        self.buttons.len() == 0 && self.party.is_none() && self.secrets.is_none()
    }
}

} // verus!
