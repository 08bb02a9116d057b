//! What the capture layer hands the rules: the foreground window, the
//! now-playing media, and self-test probe results.
pub mod images;
pub mod linux;
pub mod linux_desktop;
pub mod self_test;
pub mod macos;
pub mod stub;
pub mod windows;

use crate::text::{
    ascii_lower_seq, eq_ignore_ascii_case, eq_ignore_case_ascii, is_blank, join, owned, str_eq,
    to_ascii_lowercase, trim, trim_string, join_strings, views,
};
use vstd::prelude::*;

verus! {

/// `serde_json::Value`: the parameters and payloads of log entries and probe
/// texts. The library builds and copies such values but never looks inside.
#[verifier::external_type_specification]
#[verifier::external_body]
pub struct ExJsonValue(serde_json::Value);

/// `Clone` of a JSON value: the derived deep copy, equal to the value.
pub assume_specification[ <serde_json::Value as std::clone::Clone>::clone ](
    v: &serde_json::Value,
) -> (r: serde_json::Value)
    ensures
        r == *v,
;

/// The foreground application and its window title.
#[derive(Clone, Debug, Default)]
pub struct ForegroundSnapshot {
    pub process_name: String,
    pub process_title: String,
}

/// Encoded image bytes with their MIME type.
#[derive(Clone, Debug, Default)]
pub struct MediaArtwork {
    pub bytes: Vec<u8>,
    pub content_type: String,
}

/// Normalized playback states emitted by the platform capture layer.
pub const PLAYBACK_STATE_PLAYING: &'static str = "playing";

pub const PLAYBACK_STATE_PAUSED: &'static str = "paused";

pub const PLAYBACK_STATE_STOPPED: &'static str = "stopped";

/// Now-playing media.
#[derive(Clone, Debug)]
pub struct MediaInfo {
    pub title: String,
    pub artist: String,
    pub album: String,
    pub source_app_id: String,
    /// Normalized playback state: `"playing"`, `"paused"`, `"stopped"`, or
    /// empty when the platform could not determine it.
    pub playback_state: String,
    pub duration_ms: Option<u64>,
    pub position_ms: Option<u64>,
    pub artwork: Option<MediaArtwork>,
    pub source_icon: Option<MediaArtwork>,
}

/// Which optional assets a media capture fetches.
#[derive(Clone, Copy, Debug, Default)]
pub struct MediaCaptureOptions {
    pub include_artwork: bool,
    pub include_source_icon: bool,
}

/// A media record with no metadata at all.
pub open spec fn is_blank_media(m: MediaInfo) -> bool {
    &&& m.title@.len() == 0
    &&& m.artist@.len() == 0
    &&& m.album@.len() == 0
    &&& m.source_app_id@.len() == 0
    &&& m.playback_state@.len() == 0
    &&& m.duration_ms is None
    &&& m.position_ms is None
    &&& m.artwork is None
    &&& m.source_icon is None
}

impl Default for MediaInfo {
    fn default() -> (m: Self)
        ensures
            is_blank_media(m),
    {
        MediaInfo {
            title: String::new(),
            artist: String::new(),
            album: String::new(),
            source_app_id: String::new(),
            playback_state: String::new(),
            duration_ms: None,
            position_ms: None,
            artwork: None,
            source_icon: None,
        }
    }
}

impl ForegroundSnapshot {
    /// A snapshot with neither a process name nor a title.
    pub fn empty() -> (s: Self)
        ensures
            s.process_name@.len() == 0,
            s.process_title@.len() == 0,
    {
        ForegroundSnapshot { process_name: String::new(), process_title: String::new() }
    }
}

impl MediaCaptureOptions {
    pub fn with_assets() -> (o: Self)
        ensures
            o.include_artwork,
            o.include_source_icon,
    {
        Self { include_artwork: true, include_source_icon: true }
    }
}

/// No title, artist or album once trimmed.
pub open spec fn media_is_empty(m: MediaInfo) -> bool {
    trim(m.title@).len() == 0 && trim(m.artist@).len() == 0 && trim(m.album@).len() == 0
}

/// Whether playback counts as active: an explicit state decides; an unknown
/// state counts as playing when there is metadata.
pub open spec fn media_is_playing(m: MediaInfo) -> bool {
    let state = ascii_lower_seq(trim(m.playback_state@));
    if state == PLAYBACK_STATE_PLAYING@ {
        true
    } else if state == PLAYBACK_STATE_PAUSED@ || state == PLAYBACK_STATE_STOPPED@ {
        false
    } else {
        !media_is_empty(m)
    }
}

/// Whether the media is shown: it has metadata, and plays unless stopped media is included.
pub open spec fn media_is_reportable(m: MediaInfo, include_stopped: bool) -> bool {
    !media_is_empty(m) && (media_is_playing(m) || include_stopped)
}

/// The non-empty trimmed title, artist and album, in that order.
pub open spec fn summary_parts(m: MediaInfo) -> Seq<Seq<char>> {
    (if trim(m.title@).len() > 0 {
        seq![trim(m.title@)]
    } else {
        Seq::empty()
    }) + (if trim(m.artist@).len() > 0 {
        seq![trim(m.artist@)]
    } else {
        Seq::empty()
    }) + (if trim(m.album@).len() > 0 {
        seq![trim(m.album@)]
    } else {
        Seq::empty()
    })
}

/// "title / artist / album" over the parts that are present.
pub open spec fn media_summary(m: MediaInfo) -> Seq<char> {
    join(summary_parts(m), " / "@)
}

impl MediaInfo {
    pub fn is_empty(&self) -> (r: bool)
        ensures
            r == media_is_empty(*self),
    {
        is_blank(self.title.as_str()) && is_blank(self.artist.as_str()) && is_blank(
            self.album.as_str(),
        )
    }

    pub fn is_active(&self) -> (r: bool)
        ensures
            r == (media_is_playing(*self) && !media_is_empty(*self)),
    {
        self.is_playing() && !self.is_empty()
    }

    pub fn is_reportable(&self, include_stopped: bool) -> (r: bool)
        ensures
            r == media_is_reportable(*self, include_stopped),
    {
        !self.is_empty() && (self.is_playing() || include_stopped)
    }

    /// Whether playback is currently active. Treats an unknown (empty) state
    /// as playing when there is metadata.
    pub fn is_playing(&self) -> (r: bool)
        ensures
            r == media_is_playing(*self),
    {
        let trimmed = trim_string(self.playback_state.as_str());
        let state = to_ascii_lowercase(trimmed.as_str());
        if str_eq(state.as_str(), PLAYBACK_STATE_PLAYING) {
            true
        } else if str_eq(state.as_str(), PLAYBACK_STATE_PAUSED) || str_eq(
            state.as_str(),
            PLAYBACK_STATE_STOPPED,
        ) {
            false
        } else {
            !self.is_empty()
        }
    }

    /// Whether playback is explicitly paused (not stopped, not playing).
    pub fn is_paused(&self) -> (r: bool)
        ensures
            r == eq_ignore_ascii_case(trim(self.playback_state@), PLAYBACK_STATE_PAUSED@),
    {
        let trimmed = trim_string(self.playback_state.as_str());
        eq_ignore_case_ascii(trimmed.as_str(), PLAYBACK_STATE_PAUSED)
    }

    pub fn summary(&self) -> (r: String)
        ensures
            r@ == media_summary(*self),
    {
        let mut parts: Vec<String> = Vec::new();
        let title = trim_string(self.title.as_str());
        let artist = trim_string(self.artist.as_str());
        let album = trim_string(self.album.as_str());
        let ghost p1 = if trim(self.title@).len() > 0 {
            seq![trim(self.title@)]
        } else {
            Seq::<Seq<char>>::empty()
        };
        let ghost p2 = if trim(self.artist@).len() > 0 {
            seq![trim(self.artist@)]
        } else {
            Seq::<Seq<char>>::empty()
        };
        if !title.as_str().is_empty() {
            parts.push(title);
        }
        assert(views(parts@) =~= p1);
        if !artist.as_str().is_empty() {
            parts.push(artist);
        }
        assert(views(parts@) =~= p1 + p2);
        if !album.as_str().is_empty() {
            parts.push(album);
        }
        assert(views(parts@) =~= summary_parts(*self));
        join_strings(&parts, " / ")
    }
}

/// The platform label for an operating-system name as `std::env::consts::OS` gives it.
pub fn platform_name(os: &str) -> (r: &'static str)
    ensures
        r@ == platform_name_spec(os@),
{
    if str_eq(os, "windows") {
        "windows"
    } else if str_eq(os, "linux") {
        "linux"
    } else if str_eq(os, "macos") {
        "macos"
    } else {
        "unsupported"
    }
}

/// A human-readable name for a media source; only macOS bundles have one.
pub fn display_name_for_app_id(_app_id: &str) -> (r: Option<String>)
    ensures
        r is None,
{
    None
}

/// A localized text: a message key, optional parameters, and the English fallback.
pub struct ProbeTextSpec {
    pub key: Option<&'static str>,
    pub params: Option<serde_json::Value>,
    pub fallback: String,
}

/// A text with its message key and parameters, as the UI receives it.
pub struct LocalizedTextEntry {
    pub text: String,
    pub key: Option<String>,
    pub params: Option<serde_json::Value>,
}

/// The outcome of one self-test probe.
pub struct PlatformProbeResult {
    pub success: bool,
    pub summary: String,
    pub detail: String,
    pub guidance: Vec<String>,
    pub summary_key: Option<String>,
    pub summary_params: Option<serde_json::Value>,
    pub detail_key: Option<String>,
    pub detail_params: Option<serde_json::Value>,
    pub guidance_entries: Vec<LocalizedTextEntry>,
}

/// The self-test of the three capture channels.
pub struct PlatformSelfTestResult {
    pub platform: String,
    pub foreground: PlatformProbeResult,
    pub window_title: PlatformProbeResult,
    pub media: PlatformProbeResult,
}

pub fn localized_text(key: &'static str, params: Option<serde_json::Value>, fallback: String) -> (r:
    ProbeTextSpec)
    ensures
        r.key == Some(key),
        r.params == params,
        r.fallback == fallback,
{
    ProbeTextSpec { key: Some(key), params, fallback }
}

fn key_to_string(key: Option<&'static str>) -> (r: Option<String>)
    ensures
        r.deep_view() == key.deep_view(),
{
    match key {
        Some(k) => Some(owned(k)),
        None => None,
    }
}

/// Builds a probe result: the fallbacks are the plain texts, the keys and
/// parameters travel beside them.
pub fn make_probe(
    success: bool,
    summary: ProbeTextSpec,
    detail: ProbeTextSpec,
    guidance: Vec<ProbeTextSpec>,
) -> (r: PlatformProbeResult)
    ensures
        r.success == success,
        r.summary == summary.fallback,
        r.detail == detail.fallback,
        r.summary_key.deep_view() == summary.key.deep_view(),
        r.summary_params == summary.params,
        r.detail_key.deep_view() == detail.key.deep_view(),
        r.detail_params == detail.params,
        r.guidance@.len() == guidance@.len(),
        r.guidance_entries@.len() == guidance@.len(),
        forall|i: int|
            0 <= i < guidance@.len() ==> (#[trigger] r.guidance@[i])@ == guidance@[i].fallback@,
        forall|i: int|
            0 <= i < guidance@.len() ==> (#[trigger] r.guidance_entries@[i]).text@
                == guidance@[i].fallback@,
        forall|i: int|
            0 <= i < guidance@.len() ==> (#[trigger] r.guidance_entries@[i]).key.deep_view()
                == guidance@[i].key.deep_view(),
        forall|i: int|
            0 <= i < guidance@.len() ==> (#[trigger] r.guidance_entries@[i]).params
                == guidance@[i].params,
{
    let ProbeTextSpec { key: summary_key, params: summary_params, fallback: summary_fallback } =
        summary;
    let ProbeTextSpec { key: detail_key, params: detail_params, fallback: detail_fallback } =
        detail;
    let ghost g = guidance@;
    let mut texts: Vec<String> = Vec::new();
    let mut entries: Vec<LocalizedTextEntry> = Vec::new();
    let mut pending = guidance;
    let mut rest: Vec<ProbeTextSpec> = Vec::new();
    // Take the entries from the back, then put them in order.
    while pending.len() > 0
        invariant
            rest@.len() + pending@.len() == g.len(),
            pending@ == g.take(pending@.len() as int),
            forall|i: int|
                0 <= i < rest@.len() ==> #[trigger] rest@[i] == g[g.len() - 1 - i],
        decreases pending@.len(),
    {
        let item = pending.pop().unwrap();
        proof {
            assert(pending@ =~= g.take(pending@.len() as int));
        }
        rest.push(item);
    }
    while rest.len() > 0
        invariant
            texts@.len() == entries@.len(),
            texts@.len() + rest@.len() == g.len(),
            forall|i: int|
                0 <= i < rest@.len() ==> #[trigger] rest@[i] == g[g.len() - 1 - i],
            forall|i: int| 0 <= i < texts@.len() ==> (#[trigger] texts@[i])@ == g[i].fallback@,
            forall|i: int|
                0 <= i < entries@.len() ==> {
                    &&& (#[trigger] entries@[i]).text@ == g[i].fallback@
                    &&& entries@[i].key.deep_view() == g[i].key.deep_view()
                    &&& entries@[i].params == g[i].params
                },
        decreases rest@.len(),
    {
        let item = rest.pop().unwrap();
        let ProbeTextSpec { key, params, fallback } = item;
        texts.push(fallback.clone());
        entries.push(LocalizedTextEntry { text: fallback, key: key_to_string(key), params });
    }
    PlatformProbeResult {
        success,
        summary: summary_fallback,
        detail: detail_fallback,
        guidance: texts,
        summary_key: key_to_string(summary_key),
        summary_params,
        detail_key: key_to_string(detail_key),
        detail_params,
        guidance_entries: entries,
    }
}

/// Gathers the three probes under the platform's label.
pub fn build_self_test_result(
    os: &str,
    foreground: PlatformProbeResult,
    window_title: PlatformProbeResult,
    media: PlatformProbeResult,
) -> (r: PlatformSelfTestResult)
    ensures
        r.platform@ == platform_name_spec(os@),
        r.foreground == foreground,
        r.window_title == window_title,
        r.media == media,
{
    PlatformSelfTestResult { platform: owned(platform_name(os)), foreground, window_title, media }
}

pub open spec fn platform_name_spec(os: Seq<char>) -> Seq<char> {
    if os == "windows"@ {
        "windows"@
    } else if os == "linux"@ {
        "linux"@
    } else if os == "macos"@ {
        "macos"@
    } else {
        "unsupported"@
    }
}

} // verus!
