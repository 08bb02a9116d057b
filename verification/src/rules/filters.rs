//! Which processes and media sources the rules let through.
use super::helpers::{normalize_process_name, process_key};
use crate::models::{AppFilterMode, ClientConfig};
use crate::text::{eq_ignore_ascii_case, eq_ignore_case_ascii, lowercased, str_eq, to_lowercase, trim, trim_string};
use vstd::prelude::*;

verus! {

/// Some entry of the list names the process (compared by `process_key`).
pub open spec fn listed(values: Seq<String>, process_name: Seq<char>) -> bool {
    exists|i: int| 0 <= i < values.len() && process_key(#[trigger] values[i]@) == process_key(process_name)
}

/// The app filter: a whitelist must be non-empty and list the process; a blacklist must not list it.
pub open spec fn passes_app_filter_spec(config: ClientConfig, process_name: Seq<char>) -> bool {
    match config.app_filter_mode {
        AppFilterMode::Whitelist => config.app_whitelist@.len() > 0 && listed(
            config.app_whitelist@,
            process_name,
        ),
        AppFilterMode::Blacklist => !listed(config.app_blacklist@, process_name),
    }
}

/// A source that is not blank and whose lower-cased key equals, ignoring
/// ASCII case, a trimmed blocklist entry.
pub open spec fn media_source_blocked_spec(config: ClientConfig, play_source: Seq<char>) -> bool {
    let key = lowercased(trim(play_source));
    trim(play_source).len() > 0 && exists|i: int|
        0 <= i < config.media_play_source_blocklist@.len() && eq_ignore_ascii_case(
            trim(#[trigger] config.media_play_source_blocklist@[i]@),
            key,
        )
}

pub fn passes_app_filter(config: &ClientConfig, process_name: &str) -> (r: bool)
    ensures
        r == passes_app_filter_spec(*config, process_name@),
{
    match config.app_filter_mode {
        AppFilterMode::Whitelist => {
            if config.app_whitelist.len() == 0 {
                return false;
            }
            in_process_list(&config.app_whitelist, process_name)
        },
        AppFilterMode::Blacklist => !in_process_list(&config.app_blacklist, process_name),
    }
}

pub fn in_process_list(values: &Vec<String>, process_name: &str) -> (r: bool)
    ensures
        r == listed(values@, process_name@),
{
    let key = normalize_process_name(process_name);
    let mut i: usize = 0;
    while i < values.len()
        invariant
            i <= values.len(),
            key@ == process_key(process_name@),
            forall|j: int| 0 <= j < i ==> process_key(#[trigger] values@[j]@) != key@,
        decreases values.len() - i,
    {
        let candidate = normalize_process_name(values[i].as_str());
        if str_eq(candidate.as_str(), key.as_str()) {
            return true;
        }
        i += 1;
    }
    false
}

pub fn is_media_source_blocked(config: &ClientConfig, play_source: &str) -> (r: bool)
    ensures
        r == media_source_blocked_spec(*config, play_source@),
{
    let trimmed = trim_string(play_source);
    let key = to_lowercase(trimmed.as_str());
    if key.as_str().is_empty() {
        return false;
    }
    let list = &config.media_play_source_blocklist;
    let mut i: usize = 0;
    while i < list.len()
        invariant
            i <= list.len(),
            list == &config.media_play_source_blocklist,
            key@ == lowercased(trim(play_source@)),
            trim(play_source@).len() > 0,
            forall|j: int| 0 <= j < i ==> !eq_ignore_ascii_case(trim(#[trigger] list@[j]@), key@),
        decreases list.len() - i,
    {
        let candidate = trim_string(list[i].as_str());
        if eq_ignore_case_ascii(candidate.as_str(), key.as_str()) {
            assert(eq_ignore_ascii_case(trim(config.media_play_source_blocklist@[i as int]@), key@));
            return true;
        }
        i += 1;
    }
    false
}

} // verus!
