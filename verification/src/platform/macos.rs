//! macOS capture: what the native bridge and the `mediaremote-adapter`
//! (or `nowplaying-cli`) report, turned into snapshots and media, and the
//! self-test texts. Calling the bridge and running the tools is the caller's part.
use super::images::{decode_base64_image_payload, detect_image_content_type, image_payload_bytes, sniffed_image_type};
use super::self_test::{
    foreground_ok_probe, media_ok_probe, probe, probe_is, self_test_params_are, texts_view,
    window_title_probe, window_probe_is, media_probe_is, without_params,
};
use super::{
    is_blank_media, localized_text, ForegroundSnapshot, MediaArtwork, MediaCaptureOptions,
    MediaInfo, PlatformSelfTestResult, ProbeTextSpec, PLAYBACK_STATE_PAUSED, PLAYBACK_STATE_PLAYING,
};
use crate::text::{
    contains_str, contains_sub, eq_ignore_ascii_case, eq_ignore_case_ascii, is_blank, join,
    join_strings, lines_of, lowercased, non_empty, non_empty_spec, owned, push_str, split_lines,
    starts_with, starts_with_str, str_eq, to_lowercase, trim, trim_string, views,
};
use vstd::prelude::*;

verus! {

/// What the adapter reports about the current media. The playback rate is
/// given only as whether it is a finite positive number.
pub struct RawNowPlayingInfo {
    pub bundle_identifier: Option<String>,
    pub parent_application_bundle_identifier: Option<String>,
    pub playing: Option<bool>,
    pub title: Option<String>,
    pub artist: Option<String>,
    pub album: Option<String>,
    pub duration_micros: Option<i64>,
    pub elapsed_time_micros: Option<i64>,
    pub elapsed_time_now_micros: Option<i64>,
    pub playback_rate_positive: Option<bool>,
    pub artwork_data: Option<String>,
    pub artwork_mime_type: Option<String>,
}

/// A reported text: trimmed, and nothing when blank or `null`.
pub open spec fn clean_text(value: Option<Seq<char>>) -> Option<Seq<char>> {
    match value {
        Some(v) => if trim(v).len() == 0 || eq_ignore_ascii_case(trim(v), "null"@) {
            None
        } else {
            Some(trim(v))
        },
        None => None,
    }
}

pub open spec fn text_or_empty(value: Option<Seq<char>>) -> Seq<char> {
    match clean_text(value) {
        Some(v) => v,
        None => Seq::empty(),
    }
}

pub fn normalize_optional_str(value: Option<&str>) -> (r: Option<String>)
    ensures
        r.deep_view() == clean_text(str_opt_view(value)),
{
    match value {
        Some(raw) => {
            let t = trim_string(raw);
            if t.as_str().is_empty() || eq_ignore_case_ascii(t.as_str(), "null") {
                None
            } else {
                Some(t)
            }
        },
        None => None,
    }
}

fn as_opt_str(value: &Option<String>) -> (r: Option<&str>)
    ensures
        r.deep_view() == value.deep_view(),
        str_opt_view(r) == value.deep_view(),
{
    match value {
        Some(v) => Some(v.as_str()),
        None => None,
    }
}

pub fn normalize_text(value: &Option<String>) -> (r: String)
    ensures
        r@ == text_or_empty(value.deep_view()),
{
    match normalize_optional_str(as_opt_str(value)) {
        Some(v) => v,
        None => String::new(),
    }
}

/// The media's app: the bundle id, else the parent application's.
pub open spec fn source_app_id_spec(raw: RawNowPlayingInfo) -> Seq<char> {
    match clean_text(raw.bundle_identifier.deep_view()) {
        Some(v) => v,
        None => text_or_empty(raw.parent_application_bundle_identifier.deep_view()),
    }
}

pub fn resolve_source_app_id(raw: &RawNowPlayingInfo) -> (r: String)
    ensures
        r@ == source_app_id_spec(*raw),
{
    match normalize_optional_str(as_opt_str(&raw.bundle_identifier)) {
        Some(v) => v,
        None => normalize_text(&raw.parent_application_bundle_identifier),
    }
}

/// The playback state: the playing flag, else the playback rate, else
/// playing when there is any metadata.
pub open spec fn mac_playback_state(
    playing: Option<bool>,
    rate_positive: Option<bool>,
    title: Seq<char>,
    artist: Seq<char>,
    album: Seq<char>,
) -> Seq<char> {
    match playing {
        Some(true) => PLAYBACK_STATE_PLAYING@,
        Some(false) => PLAYBACK_STATE_PAUSED@,
        None => match rate_positive {
            Some(true) => PLAYBACK_STATE_PLAYING@,
            Some(false) => PLAYBACK_STATE_PAUSED@,
            None => if title.len() > 0 || artist.len() > 0 || album.len() > 0 {
                PLAYBACK_STATE_PLAYING@
            } else {
                Seq::empty()
            },
        },
    }
}

pub fn normalize_playback_state(
    playing: Option<bool>,
    rate_positive: Option<bool>,
    title: &str,
    artist: &str,
    album: &str,
) -> (r: String)
    ensures
        r@ == mac_playback_state(playing, rate_positive, title@, artist@, album@),
{
    match playing {
        Some(true) => owned(PLAYBACK_STATE_PLAYING),
        Some(false) => owned(PLAYBACK_STATE_PAUSED),
        None => match rate_positive {
            Some(true) => owned(PLAYBACK_STATE_PLAYING),
            Some(false) => owned(PLAYBACK_STATE_PAUSED),
            None => if !title.is_empty() || !artist.is_empty() || !album.is_empty() {
                owned(PLAYBACK_STATE_PLAYING)
            } else {
                String::new()
            },
        },
    }
}

/// Microseconds in whole milliseconds; nothing for a negative value.
pub open spec fn micros_to_ms_spec(value: Option<i64>) -> Option<u64> {
    match value {
        Some(m) => if m >= 0 {
            Some((m / 1000) as u64)
        } else {
            None
        },
        None => None,
    }
}

pub fn micros_to_ms(value: Option<i64>) -> (r: Option<u64>)
    ensures
        r == micros_to_ms_spec(value),
{
    match value {
        Some(m) => if m >= 0 {
            Some((m / 1000) as u64)
        } else {
            None
        },
        None => None,
    }
}

/// The position: the elapsed time at "now" when known, else the last elapsed time.
pub open spec fn position_spec(raw: RawNowPlayingInfo) -> Option<u64> {
    match micros_to_ms_spec(raw.elapsed_time_now_micros) {
        Some(v) => Some(v),
        None => micros_to_ms_spec(raw.elapsed_time_micros),
    }
}

pub fn resolve_position_ms(raw: &RawNowPlayingInfo) -> (r: Option<u64>)
    ensures
        r == position_spec(*raw),
{
    match micros_to_ms(raw.elapsed_time_now_micros) {
        Some(v) => Some(v),
        None => micros_to_ms(raw.elapsed_time_micros),
    }
}

/// The artwork: decoded bytes, typed by the MIME type when it names an
/// image, else by sniffing; nothing when neither gives a type.
pub open spec fn artwork_spec(data: Option<Seq<char>>, mime: Option<Seq<char>>) -> Option<
    (Seq<char>, Seq<u8>),
> {
    match data {
        None => None,
        Some(d) => match image_payload_bytes(d) {
            None => None,
            Some(bytes) => {
                let from_mime = match mime {
                    Some(m) => if starts_with(trim(m), "image/"@) {
                        Some(trim(m))
                    } else {
                        None
                    },
                    None => None,
                };
                match from_mime {
                    Some(t) => Some((t, bytes)),
                    None => match sniffed_image_type(bytes) {
                        Some(t) => Some((t, bytes)),
                        None => None,
                    },
                }
            },
        },
    }
}

pub open spec fn str_opt_view(o: Option<&str>) -> Option<Seq<char>> {
    match o {
        Some(s) => Some(s@),
        None => None,
    }
}

pub fn decode_artwork(artwork_data: Option<&str>, mime_type: Option<&str>) -> (r: Option<MediaArtwork>)
    ensures
        match r {
            Some(a) => artwork_spec(str_opt_view(artwork_data), str_opt_view(mime_type)) == Some(
                (a.content_type@, a.bytes@),
            ),
            None => artwork_spec(str_opt_view(artwork_data), str_opt_view(mime_type)) is None,
        },
{
    let bytes = match artwork_data {
        Some(d) => match decode_base64_image_payload(d) {
            Some(b) => {
                assert(b.deep_view() =~= b@);
                b
            },
            None => {
                return None;
            },
        },
        None => {
            return None;
        },
    };
    let from_mime = match mime_type {
        Some(m) => {
            let t = trim_string(m);
            if starts_with_str(t.as_str(), "image/") {
                Some(t)
            } else {
                None
            }
        },
        None => None,
    };
    let content_type = match from_mime {
        Some(t) => t,
        None => match detect_image_content_type(bytes.as_slice()) {
            Some(t) => owned(t),
            None => {
                return None;
            },
        },
    };
    Some(MediaArtwork { bytes, content_type })
}

/// The bundle ids to look an icon up by, in order.
pub fn source_icon_candidates(raw: &RawNowPlayingInfo) -> (r: Vec<String>)
    ensures
        views(r@) == (match clean_text(raw.bundle_identifier.deep_view()) {
            Some(a) => seq![a],
            None => Seq::empty(),
        }) + (match clean_text(raw.parent_application_bundle_identifier.deep_view()) {
            Some(b) => seq![b],
            None => Seq::empty(),
        }),
{
    let mut out: Vec<String> = Vec::new();
    if let Some(a) = normalize_optional_str(as_opt_str(&raw.bundle_identifier)) {
        out.push(a);
    }
    let ghost mid = views(out@);
    if let Some(b) = normalize_optional_str(as_opt_str(&raw.parent_application_bundle_identifier)) {
        out.push(b);
    }
    proof {
        assert(views(out@) =~= (match clean_text(raw.bundle_identifier.deep_view()) {
            Some(a) => seq![a],
            None => Seq::empty(),
        }) + (match clean_text(raw.parent_application_bundle_identifier.deep_view()) {
            Some(b) => seq![b],
            None => Seq::empty(),
        }));
    }
    out
}

/// The media from the adapter's report; the source icon, read by the
/// caller, only when asked for.
pub fn build_media_info(
    raw: &RawNowPlayingInfo,
    options: MediaCaptureOptions,
    source_icon: Option<MediaArtwork>,
) -> (r: MediaInfo)
    ensures
        r.title@ == text_or_empty(raw.title.deep_view()),
        r.artist@ == text_or_empty(raw.artist.deep_view()),
        r.album@ == text_or_empty(raw.album.deep_view()),
        r.source_app_id@ == source_app_id_spec(*raw),
        r.playback_state@ == mac_playback_state(
            raw.playing,
            raw.playback_rate_positive,
            text_or_empty(raw.title.deep_view()),
            text_or_empty(raw.artist.deep_view()),
            text_or_empty(raw.album.deep_view()),
        ),
        r.duration_ms == (match micros_to_ms_spec(raw.duration_micros) {
            Some(d) => if d > 0 {
                Some(d)
            } else {
                None
            },
            None => None,
        }),
        r.position_ms == position_spec(*raw),
        options.include_artwork ==> match r.artwork {
            Some(a) => artwork_spec(raw.artwork_data.deep_view(), raw.artwork_mime_type.deep_view())
                == Some((a.content_type@, a.bytes@)),
            None => artwork_spec(raw.artwork_data.deep_view(), raw.artwork_mime_type.deep_view()) is None,
        },
        !options.include_artwork ==> r.artwork is None,
        options.include_source_icon ==> r.source_icon == source_icon,
        !options.include_source_icon ==> r.source_icon is None,
{
    let title = normalize_text(&raw.title);
    let artist = normalize_text(&raw.artist);
    let album = normalize_text(&raw.album);
    let source_app_id = resolve_source_app_id(raw);
    let playback_state = normalize_playback_state(
        raw.playing,
        raw.playback_rate_positive,
        title.as_str(),
        artist.as_str(),
        album.as_str(),
    );
    let duration_ms = match micros_to_ms(raw.duration_micros) {
        Some(d) => if d > 0 {
            Some(d)
        } else {
            None
        },
        None => None,
    };
    let position_ms = resolve_position_ms(raw);
    let artwork = if options.include_artwork {
        decode_artwork(as_opt_str(&raw.artwork_data), as_opt_str(&raw.artwork_mime_type))
    } else {
        None
    };
    let source_icon = if options.include_source_icon {
        source_icon
    } else {
        None
    };
    MediaInfo {
        title,
        artist,
        album,
        source_app_id,
        playback_state,
        duration_ms,
        position_ms,
        artwork,
        source_icon,
    }
}

/// Why the adapter gave no media.
#[derive(Debug)]
pub enum MediaRemoteAdapterError {
    ResourceMissing(String),
    NotFound { path: String, attempted: Vec<String> },
    TimedOut,
    Failed(String),
}

pub open spec fn adapter_hint() -> Seq<char> {
    "Run `pnpm tauri dev` / `pnpm tauri build`, or run `pnpm prepare:mediaremote-adapter` manually."@
}

pub open spec fn adapter_message(e: MediaRemoteAdapterError) -> Seq<char> {
    match e {
        MediaRemoteAdapterError::ResourceMissing(path) => "Missing macOS mediaremote-adapter resource: "@
            + path@ + ". "@ + adapter_hint(),
        MediaRemoteAdapterError::NotFound { path, attempted } =>
            "Failed to run mediaremote-adapter: the script or framework was not found in the resource directory. Tried: "@
            + join(views(attempted@), ", "@) + ". PATH="@ + path@,
        MediaRemoteAdapterError::TimedOut => "mediaremote-adapter timed out (>5000ms)."@,
        MediaRemoteAdapterError::Failed(detail) => "mediaremote-adapter returned an error: "@
            + detail@,
    }
}

impl MediaRemoteAdapterError {
    /// The message the user sees.
    pub fn into_user_message(self) -> (r: String)
        ensures
            r@ == adapter_message(self),
    {
        match self {
            MediaRemoteAdapterError::ResourceMissing(path) => {
                let mut out = owned("Missing macOS mediaremote-adapter resource: ");
                push_str(&mut out, path.as_str());
                push_str(&mut out, ". ");
                push_str(
                    &mut out,
                    "Run `pnpm tauri dev` / `pnpm tauri build`, or run `pnpm prepare:mediaremote-adapter` manually.",
                );
                out
            },
            MediaRemoteAdapterError::NotFound { path, attempted } => {
                let mut out = owned(
                    "Failed to run mediaremote-adapter: the script or framework was not found in the resource directory. Tried: ",
                );
                let tried = join_strings(&attempted, ", ");
                push_str(&mut out, tried.as_str());
                push_str(&mut out, ". PATH=");
                push_str(&mut out, path.as_str());
                out
            },
            MediaRemoteAdapterError::TimedOut => owned("mediaremote-adapter timed out (>5000ms)."),
            MediaRemoteAdapterError::Failed(detail) => {
                let mut out = owned("mediaremote-adapter returned an error: ");
                push_str(&mut out, detail.as_str());
                out
            },
        }
    }
}

/// The output mentions that nothing is playing.
pub open spec fn reports_no_media(stdout: Seq<char>, stderr: Seq<char>) -> bool {
    let c = lowercased(stdout + "\n"@ + stderr);
    contains_sub(c, "null"@) || contains_sub(c, "no media"@) || contains_sub(c, "no now playing"@)
        || contains_sub(c, "nothing is playing"@) || contains_sub(c, "not playing"@)
        || contains_sub(c, "no player"@)
}

pub fn output_reports_no_media(stdout: &str, stderr: &str) -> (r: bool)
    ensures
        r == reports_no_media(stdout@, stderr@),
{
    let mut combined = owned(stdout);
    push_str(&mut combined, "\n");
    push_str(&mut combined, stderr);
    let c = to_lowercase(combined.as_str());
    let l = c.as_str();
    contains_str(l, "null") || contains_str(l, "no media") || contains_str(l, "no now playing")
        || contains_str(l, "nothing is playing") || contains_str(l, "not playing") || contains_str(
        l,
        "no player",
    )
}

/// The first non-blank line, trimmed.
pub open spec fn first_nonblank_line(lines: Seq<Seq<char>>) -> Option<Seq<char>>
    decreases lines.len(),
{
    if lines.len() == 0 {
        None
    } else if trim(lines[0]).len() > 0 {
        Some(trim(lines[0]))
    } else {
        first_nonblank_line(lines.drop_first())
    }
}

fn first_nonblank(text: &str) -> (r: Option<String>)
    ensures
        r.deep_view() == first_nonblank_line(lines_of(text@)),
{
    let lines = split_lines(text);
    let ghost ls = views(lines@);
    let mut i: usize = 0;
    assert(ls.skip(0) =~= ls);
    while i < lines.len()
        invariant
            i <= lines@.len(),
            ls == views(lines@),
            ls == lines_of(text@),
            first_nonblank_line(ls.skip(i as int)) == first_nonblank_line(ls),
        decreases lines@.len() - i,
    {
        proof {
            assert(ls.skip(i as int)[0] == lines@[i as int]@);
            assert(ls.skip(i as int).drop_first() =~= ls.skip(i + 1));
        }
        let t = trim_string(lines[i].as_str());
        if !t.as_str().is_empty() {
            return Some(t);
        }
        i += 1;
    }
    assert(ls.skip(i as int) =~= Seq::<Seq<char>>::empty());
    None
}

/// The error detail of a failed tool: the first non-blank line of stderr,
/// else of stdout, else "Unknown error".
pub open spec fn failure_detail(stdout: Seq<char>, stderr: Seq<char>) -> Seq<char> {
    match first_nonblank_line(lines_of(stderr)) {
        Some(l) => l,
        None => match first_nonblank_line(lines_of(stdout)) {
            Some(l) => l,
            None => "Unknown error"@,
        },
    }
}

/// The outcome of an unsuccessful adapter run: no media when its output
/// says so, else an error with its first line.
pub fn media_from_failed_adapter(stdout: &str, stderr: &str) -> (r: Result<MediaInfo, MediaRemoteAdapterError>)
    ensures
        reports_no_media(stdout@, stderr@) ==> (r matches Ok(m) && is_blank_media(m)),
        !reports_no_media(stdout@, stderr@) ==> (r matches Err(MediaRemoteAdapterError::Failed(d))
            && d@ == failure_detail(stdout@, stderr@)),
{
    if output_reports_no_media(stdout, stderr) {
        return Ok(MediaInfo::default());
    }
    let detail = match first_nonblank(stderr) {
        Some(l) => l,
        None => match first_nonblank(stdout) {
            Some(l) => l,
            None => owned("Unknown error"),
        },
    };
    Err(MediaRemoteAdapterError::Failed(detail))
}

/// A successful adapter run printed nothing to parse: blank output or `null`.
pub fn adapter_output_is_empty(stdout: &str) -> (r: bool)
    ensures
        r == (trim(stdout@).len() == 0 || trim(stdout@) == "null"@),
{
    let t = trim_string(stdout);
    t.as_str().is_empty() || str_eq(t.as_str(), "null")
}

/// The error for adapter output that does not parse.
pub fn adapter_parse_error(error: &str) -> (r: MediaRemoteAdapterError)
    ensures
        r matches MediaRemoteAdapterError::Failed(d) && d@ == "Failed to parse output: "@ + error@,
{
    let mut out = owned("Failed to parse output: ");
    push_str(&mut out, error);
    MediaRemoteAdapterError::Failed(out)
}

/// The arguments for `perl <script> <framework> get --now --micros`.
pub fn adapter_args(script_path: &str, framework_path: &str, include_artwork: bool) -> (r: Vec<String>)
    ensures
        views(r@) == seq![script_path@, framework_path@, "get"@, "--now"@, "--micros"@] + (if include_artwork {
            Seq::empty()
        } else {
            seq!["--no-artwork"@]
        }),
{
    let mut args: Vec<String> = Vec::new();
    args.push(owned(script_path));
    args.push(owned(framework_path));
    args.push(owned("get"));
    args.push(owned("--now"));
    args.push(owned("--micros"));
    if !include_artwork {
        args.push(owned("--no-artwork"));
    }
    assert(views(args@) =~= seq![script_path@, framework_path@, "get"@, "--now"@, "--micros"@] + (if include_artwork {
        Seq::empty()
    } else {
        seq!["--no-artwork"@]
    }));
    args
}

/// The now-playing result: the adapter's error as a message, and media
/// without title, artist and album as no media.
pub fn finish_now_playing(result: Result<MediaInfo, MediaRemoteAdapterError>) -> (r: Result<
    MediaInfo,
    String,
>)
    ensures
        match result {
            Err(e) => r matches Err(m) && m@ == adapter_message(e),
            Ok(media) => if crate::platform::media_is_empty(media) {
                r matches Ok(m) && is_blank_media(m)
            } else {
                r == Ok::<MediaInfo, String>(media)
            },
        },
{
    match result {
        Err(e) => Err(e.into_user_message()),
        Ok(media) => if media.is_empty() {
            Ok(MediaInfo::default())
        } else {
            Ok(media)
        },
    }
}

/// The foreground snapshot from the bridge: the frontmost app's name is
/// required, the window title is optional.
pub fn macos_foreground_snapshot(app_name: Option<String>, window_title: Option<String>) -> (r: Result<
    ForegroundSnapshot,
    String,
>)
    ensures
        match app_name {
            Some(n) => if trim(n@).len() > 0 {
                r matches Ok(s) && s.process_name@ == n@ && s.process_title@ == (match window_title {
                    Some(t) => t@,
                    None => Seq::empty(),
                })
            } else {
                r matches Err(e) && e@ == "Failed to read the macOS foreground app."@
            },
            None => r matches Err(e) && e@ == "Failed to read the macOS foreground app."@,
        },
{
    let process_name = match app_name {
        Some(n) => if is_blank(n.as_str()) {
            return Err(owned("Failed to read the macOS foreground app."));
        } else {
            n
        },
        None => {
            return Err(owned("Failed to read the macOS foreground app."));
        },
    };
    let process_title = match window_title {
        Some(t) => t,
        None => String::new(),
    };
    Ok(ForegroundSnapshot { process_name, process_title })
}

/// A bundle's display name: trimmed, nothing when blank.
pub fn bundle_display_name(raw: Option<String>) -> (r: Option<String>)
    ensures
        r.deep_view() == (match raw {
            Some(v) => non_empty_spec(v@),
            None => None,
        }),
{
    match raw {
        Some(v) => non_empty(v.as_str()),
        None => None,
    }
}

/// A bundle icon from the bridge's base64 PNG.
pub fn bundle_icon_from_base64(encoded: Option<String>) -> (r: Option<MediaArtwork>)
    ensures
        match r {
            Some(a) => a.content_type@ == "image/png"@ && encoded is Some && image_payload_bytes(
                encoded->0@,
            ) == Some(a.bytes@),
            None => encoded is None || image_payload_bytes(encoded->0@) is None,
        },
{
    match encoded {
        Some(e) => match decode_base64_image_payload(e.as_str()) {
            Some(bytes) => Some(MediaArtwork { bytes, content_type: owned("image/png") }),
            None => None,
        },
        None => None,
    }
}

/// What the macOS guidance says, in order.
pub open spec fn macos_guidance_spec(lower: Seq<char>, probe: Seq<char>, granted: bool) -> Seq<
    (Option<Seq<char>>, Seq<char>),
> {
    let g1: Seq<(Option<Seq<char>>, Seq<char>)> = if probe == "foreground"@ {
        seq![
            (Some("platformSelfTest.guidance.macosForegroundBridge"@), "This macOS foreground-app capture path uses the native bridge only and no longer relies on osascript."@),
            (Some("platformSelfTest.guidance.macosCheckSystemVersion"@), "If this still fails, check the macOS version and any window-list access restrictions."@),
        ]
    } else {
        Seq::empty()
    };
    let g2 = if probe == "window"@ {
        (if granted {
            g1.push(
                (Some("platformSelfTest.guidance.macosWindowPermissionGrantedButNoTitle"@), "Accessibility permission is already granted. If the title is still missing, the app likely does not expose a stable window title."@),
            )
        } else {
            g1.push(
                (Some("platformSelfTest.guidance.macosWindowPermissionRequired"@), "macOS window title capture requires Accessibility permission."@),
            ).push(
                (Some("platformSelfTest.guidance.macosWindowPermissionSettings"@), "Use the settings page to request Accessibility permission, or enable it manually in System Settings > Privacy & Security > Accessibility."@),
            )
        }).push(
            (Some("platformSelfTest.guidance.macosWindowTitleUnstable"@), "Some apps may still not return a stable window title even after permission is granted."@),
        )
    } else {
        g1
    };
    let g3 = if probe == "media"@ || contains_sub(lower, "nowplaying-cli"@) {
        g2.push(
            (Some("platformSelfTest.guidance.macosInstallNowPlayingCli"@), "Install nowplaying-cli first: `brew install nowplaying-cli`."@),
        ).push(
            (Some("platformSelfTest.guidance.macosMediaEmpty"@), "If no media is currently playing, the client now returns an empty result instead of treating it as a failure."@),
        )
    } else {
        g2
    };
    if g3.len() == 0 {
        seq![
            (Some("platformSelfTest.guidance.macosCheckPermissions"@), "If this looks like a permission issue, check macOS Accessibility and Automation permissions first."@),
        ]
    } else {
        g3
    }
}

fn push_text(g: &mut Vec<ProbeTextSpec>, key: &'static str, text: &str)
    ensures
        texts_view(final(g)@) == texts_view(old(g)@).push((Some(key@), text@)),
        without_params(old(g)@) ==> without_params(final(g)@),
{
    let ghost before = g@;
    g.push(localized_text(key, None, owned(text)));
    assert(texts_view(g@) =~= texts_view(before).push((Some(key@), text@)));
}

/// The hints for a macOS probe; `accessibility_granted` is what the bridge reports.
pub fn macos_guidance(error: &str, probe: &str, accessibility_granted: bool) -> (r: Vec<ProbeTextSpec>)
    ensures
        texts_view(r@) == macos_guidance_spec(lowercased(error@), probe@, accessibility_granted),
        without_params(r@),
{
    let lower = to_lowercase(error);
    let mut guidance: Vec<ProbeTextSpec> = Vec::new();
    assert(texts_view(guidance@) =~= Seq::empty());
    if str_eq(probe, "foreground") {
        push_text(
            &mut guidance,
            "platformSelfTest.guidance.macosForegroundBridge",
            "This macOS foreground-app capture path uses the native bridge only and no longer relies on osascript.",
        );
        push_text(
            &mut guidance,
            "platformSelfTest.guidance.macosCheckSystemVersion",
            "If this still fails, check the macOS version and any window-list access restrictions.",
        );
    }
    if str_eq(probe, "window") {
        if accessibility_granted {
            push_text(
                &mut guidance,
                "platformSelfTest.guidance.macosWindowPermissionGrantedButNoTitle",
                "Accessibility permission is already granted. If the title is still missing, the app likely does not expose a stable window title.",
            );
        } else {
            push_text(
                &mut guidance,
                "platformSelfTest.guidance.macosWindowPermissionRequired",
                "macOS window title capture requires Accessibility permission.",
            );
            push_text(
                &mut guidance,
                "platformSelfTest.guidance.macosWindowPermissionSettings",
                "Use the settings page to request Accessibility permission, or enable it manually in System Settings > Privacy & Security > Accessibility.",
            );
        }
        push_text(
            &mut guidance,
            "platformSelfTest.guidance.macosWindowTitleUnstable",
            "Some apps may still not return a stable window title even after permission is granted.",
        );
    }
    if str_eq(probe, "media") || contains_str(lower.as_str(), "nowplaying-cli") {
        push_text(
            &mut guidance,
            "platformSelfTest.guidance.macosInstallNowPlayingCli",
            "Install nowplaying-cli first: `brew install nowplaying-cli`.",
        );
        push_text(
            &mut guidance,
            "platformSelfTest.guidance.macosMediaEmpty",
            "If no media is currently playing, the client now returns an empty result instead of treating it as a failure.",
        );
    }
    if guidance.len() == 0 {
        push_text(
            &mut guidance,
            "platformSelfTest.guidance.macosCheckPermissions",
            "If this looks like a permission issue, check macOS Accessibility and Automation permissions first.",
        );
    }
    guidance
}

/// The macOS self-test from the three captures and the Accessibility state.
pub fn macos_self_test(
    foreground: Result<ForegroundSnapshot, String>,
    window: Result<ForegroundSnapshot, String>,
    media: Result<MediaInfo, String>,
    accessibility_granted: bool,
) -> (r: PlatformSelfTestResult)
    ensures
        r.platform@ == "macos"@,
        self_test_params_are(r, foreground, window, media),
        match foreground {
            Ok(s) => probe_is(
                r.foreground,
                true,
                "platformSelfTest.summary.foregroundOk"@,
                "Foreground app capture OK"@,
                "platformSelfTest.detail.foregroundCurrent"@,
                "Current foreground app: "@ + s.process_name@,
                Seq::empty(),
            ),
            Err(e) => probe_is(
                r.foreground,
                false,
                "platformSelfTest.summary.foregroundFailed"@,
                "Foreground app capture failed"@,
                "platformSelfTest.detail.foregroundReadFailed"@,
                e@,
                macos_guidance_spec(lowercased(e@), "foreground"@, accessibility_granted),
            ),
        },
        match window {
            Ok(s) => window_probe_is(
                r.window_title,
                s.process_title@,
                if accessibility_granted {
                    "platformSelfTest.detail.windowTitleEmpty"@
                } else {
                    "platformSelfTest.detail.windowTitleEmptyPermissionMissing"@
                },
                if accessibility_granted {
                    "The current foreground window has no usable title."@
                } else {
                    "The current foreground window has no usable title, and Accessibility permission is not granted."@
                },
                macos_guidance_spec(lowercased(Seq::empty()), "window"@, accessibility_granted),
            ),
            Err(e) => probe_is(
                r.window_title,
                false,
                "platformSelfTest.summary.windowTitleFailed"@,
                "Window title capture failed"@,
                "platformSelfTest.detail.windowTitleReadFailed"@,
                e@,
                macos_guidance_spec(lowercased(e@), "window"@, accessibility_granted),
            ),
        },
        match media {
            Ok(info) => media_probe_is(
                r.media,
                info,
                Some(
                    "If you are testing media capture, start playback first and run the self-test again."@,
                ),
            ),
            Err(e) => probe_is(
                r.media,
                false,
                "platformSelfTest.summary.mediaFailed"@,
                "Media capture failed"@,
                "platformSelfTest.detail.mediaReadFailed"@,
                e@,
                macos_guidance_spec(lowercased(e@), "media"@, accessibility_granted),
            ),
        },
{
    let foreground_probe = match &foreground {
        Ok(snapshot) => foreground_ok_probe(snapshot),
        Err(error) => probe(
            false,
            localized_text(
                "platformSelfTest.summary.foregroundFailed",
                None,
                owned("Foreground app capture failed"),
            ),
            localized_text("platformSelfTest.detail.foregroundReadFailed", None, error.clone()),
            macos_guidance(error.as_str(), "foreground", accessibility_granted),
        ),
    };
    let window_probe = match &window {
        Ok(snapshot) => window_title_probe(
            snapshot.process_title.as_str(),
            if accessibility_granted {
                localized_text(
                    "platformSelfTest.detail.windowTitleEmpty",
                    None,
                    owned("The current foreground window has no usable title."),
                )
            } else {
                localized_text(
                    "platformSelfTest.detail.windowTitleEmptyPermissionMissing",
                    None,
                    owned(
                        "The current foreground window has no usable title, and Accessibility permission is not granted.",
                    ),
                )
            },
            macos_guidance("", "window", accessibility_granted),
        ),
        Err(error) => probe(
            false,
            localized_text(
                "platformSelfTest.summary.windowTitleFailed",
                None,
                owned("Window title capture failed"),
            ),
            localized_text("platformSelfTest.detail.windowTitleReadFailed", None, error.clone()),
            macos_guidance(error.as_str(), "window", accessibility_granted),
        ),
    };
    let media_probe = match &media {
        Ok(info) => media_ok_probe(
            info,
            Some("If you are testing media capture, start playback first and run the self-test again."),
        ),
        Err(error) => probe(
            false,
            localized_text("platformSelfTest.summary.mediaFailed", None, owned("Media capture failed")),
            localized_text("platformSelfTest.detail.mediaReadFailed", None, error.clone()),
            macos_guidance(error.as_str(), "media", accessibility_granted),
        ),
    };
    proof {
        reveal_strlit("");
        assert(""@ =~= Seq::<char>::empty());
    }
    let r = super::build_self_test_result("macos", foreground_probe, window_probe, media_probe);
    proof {
        reveal_strlit("macos");
        reveal_strlit("windows");
        reveal_strlit("linux");
    }
    r
}

// ---------------------------------------------------------------------------
// nowplaying-cli
// ---------------------------------------------------------------------------

/// What `nowplaying-cli get-raw` reports. Durations come in seconds as
/// floating point numbers and are handed over already in whole milliseconds
/// (nothing when negative or not finite); the playback rate only as whether
/// it is a finite positive number.
pub struct NowPlayingCliRaw {
    pub title: Option<String>,
    pub artist: Option<String>,
    pub album: Option<String>,
    pub client_bundle_identifier: Option<String>,
    pub duration_ms: Option<u64>,
    pub elapsed_ms: Option<u64>,
    pub playback_rate_positive: Option<bool>,
}

/// Why `nowplaying-cli` gave no media.
#[derive(Debug)]
pub enum NowPlayingCliError {
    NotFound { path: String, attempted: Vec<String> },
    TimedOut,
    Failed(String),
}

pub const NOWPLAYING_CLI: &'static str = "nowplaying-cli";

pub const NOWPLAYING_CLI_HOMEBREW_ARM: &'static str = "/opt/homebrew/bin/nowplaying-cli";

pub const NOWPLAYING_CLI_HOMEBREW_INTEL: &'static str = "/usr/local/bin/nowplaying-cli";

/// Where `nowplaying-cli` is looked for, in order: by name on the search
/// path, then in the two usual Homebrew locations.
pub open spec fn cli_candidates() -> Seq<Seq<char>> {
    seq![NOWPLAYING_CLI@, NOWPLAYING_CLI_HOMEBREW_ARM@, NOWPLAYING_CLI_HOMEBREW_INTEL@]
}

pub fn nowplaying_cli_candidates() -> (r: Vec<String>)
    ensures
        views(r@) == cli_candidates(),
{
    let mut r: Vec<String> = Vec::new();
    r.push(owned(NOWPLAYING_CLI));
    r.push(owned(NOWPLAYING_CLI_HOMEBREW_ARM));
    r.push(owned(NOWPLAYING_CLI_HOMEBREW_INTEL));
    assert(views(r@) =~= cli_candidates());
    r
}

/// How one attempt to run a candidate ended.
pub enum CommandAttempt {
    Ran,
    NotFound,
    TimedOut,
    Failed(String),
}

/// What the search for `nowplaying-cli` does after an attempt.
pub enum CliSearchStep {
    /// Use the output of the candidate just run.
    UseOutput,
    /// Run the candidate at this index next.
    TryCandidate(usize),
    /// Stop with this error.
    Stop(NowPlayingCliError),
}

/// The search after the attempt with candidate `index`: its output is used
/// once it ran; a missing program moves on to the next candidate and, after
/// the last, fails as not found, naming every candidate and the search path;
/// a timeout or another failure stops the search with that error.
pub fn nowplaying_cli_search_step(index: usize, attempt: CommandAttempt, path: &str) -> (r:
    CliSearchStep)
    requires
        index < cli_candidates().len(),
    ensures
        match attempt {
            CommandAttempt::Ran => r is UseOutput,
            CommandAttempt::NotFound => if index + 1 < cli_candidates().len() {
                r == CliSearchStep::TryCandidate((index + 1) as usize)
            } else {
                r matches CliSearchStep::Stop(NowPlayingCliError::NotFound { path: p, attempted })
                    && p@ == path@ && views(attempted@) == cli_candidates()
            },
            CommandAttempt::TimedOut => r matches CliSearchStep::Stop(NowPlayingCliError::TimedOut),
            CommandAttempt::Failed(d) => r matches CliSearchStep::Stop(NowPlayingCliError::Failed(e))
                && e@ == d@,
        },
{
    match attempt {
        CommandAttempt::Ran => CliSearchStep::UseOutput,
        CommandAttempt::NotFound => {
            if index + 1 < 3 {
                CliSearchStep::TryCandidate(index + 1)
            } else {
                CliSearchStep::Stop(
                    NowPlayingCliError::NotFound {
                        path: owned(path),
                        attempted: nowplaying_cli_candidates(),
                    },
                )
            }
        },
        CommandAttempt::TimedOut => CliSearchStep::Stop(NowPlayingCliError::TimedOut),
        CommandAttempt::Failed(d) => CliSearchStep::Stop(NowPlayingCliError::Failed(d)),
    }
}

pub open spec fn cli_message(e: NowPlayingCliError) -> Seq<char> {
    match e {
        NowPlayingCliError::NotFound { path, attempted } =>
            "Failed to run nowplaying-cli: executable not found in PATH or common Homebrew locations. Tried: "@
            + join(views(attempted@), ", "@) + ". PATH="@ + path@,
        NowPlayingCliError::TimedOut => "nowplaying-cli timed out (>1500ms)."@,
        NowPlayingCliError::Failed(detail) => "nowplaying-cli returned an error: "@ + detail@,
    }
}

impl NowPlayingCliError {
    pub fn into_user_message(self) -> (r: String)
        ensures
            r@ == cli_message(self),
    {
        match self {
            NowPlayingCliError::NotFound { path, attempted } => {
                let mut out = owned(
                    "Failed to run nowplaying-cli: executable not found in PATH or common Homebrew locations. Tried: ",
                );
                let tried = join_strings(&attempted, ", ");
                push_str(&mut out, tried.as_str());
                push_str(&mut out, ". PATH=");
                push_str(&mut out, path.as_str());
                out
            },
            NowPlayingCliError::TimedOut => owned("nowplaying-cli timed out (>1500ms)."),
            NowPlayingCliError::Failed(detail) => {
                let mut out = owned("nowplaying-cli returned an error: ");
                push_str(&mut out, detail.as_str());
                out
            },
        }
    }
}

/// A `nowplaying-cli` text: `null` (any case) as empty, else trimmed.
pub open spec fn cli_text(value: Option<Seq<char>>) -> Seq<char> {
    match value {
        Some(v) => if eq_ignore_ascii_case(v, "null"@) {
            Seq::empty()
        } else {
            trim(v)
        },
        None => Seq::empty(),
    }
}

fn cli_text_exec(value: &Option<String>) -> (r: String)
    ensures
        r@ == cli_text(value.deep_view()),
{
    match value {
        Some(v) => if eq_ignore_case_ascii(v.as_str(), "null") {
            String::new()
        } else {
            trim_string(v.as_str())
        },
        None => String::new(),
    }
}

/// The media from `nowplaying-cli`: playing by the playback rate, else when
/// there is any metadata; the tool's own name when no app is reported.
pub fn nowplaying_cli_media(raw: &NowPlayingCliRaw, source_icon: Option<MediaArtwork>) -> (r: MediaInfo)
    ensures
        r.title@ == cli_text(raw.title.deep_view()),
        r.artist@ == cli_text(raw.artist.deep_view()),
        r.album@ == cli_text(raw.album.deep_view()),
        r.source_app_id@ == (if cli_text(raw.client_bundle_identifier.deep_view()).len() > 0 {
            cli_text(raw.client_bundle_identifier.deep_view())
        } else {
            "nowplaying-cli"@
        }),
        r.playback_state@ == (if (match raw.playback_rate_positive {
            Some(p) => p,
            None => cli_text(raw.title.deep_view()).len() > 0 || cli_text(raw.artist.deep_view()).len()
                > 0 || cli_text(raw.album.deep_view()).len() > 0,
        }) {
            PLAYBACK_STATE_PLAYING@
        } else {
            PLAYBACK_STATE_PAUSED@
        }),
        r.duration_ms == (match raw.duration_ms {
            Some(d) => if d > 0 {
                Some(d)
            } else {
                None
            },
            None => None,
        }),
        r.position_ms == raw.elapsed_ms,
        r.artwork is None,
        r.source_icon == source_icon,
{
    let title = cli_text_exec(&raw.title);
    let artist = cli_text_exec(&raw.artist);
    let album = cli_text_exec(&raw.album);
    let client = cli_text_exec(&raw.client_bundle_identifier);
    let source_app_id = if client.as_str().is_empty() {
        owned("nowplaying-cli")
    } else {
        client
    };
    let is_playing = match raw.playback_rate_positive {
        Some(p) => p,
        None => !title.as_str().is_empty() || !artist.as_str().is_empty() || !album.as_str().is_empty(),
    };
    MediaInfo {
        title,
        artist,
        album,
        source_app_id,
        playback_state: owned(
            if is_playing {
                PLAYBACK_STATE_PLAYING
            } else {
                PLAYBACK_STATE_PAUSED
            },
        ),
        duration_ms: match raw.duration_ms {
            Some(d) => if d > 0 {
                Some(d)
            } else {
                None
            },
            None => None,
        },
        position_ms: raw.elapsed_ms,
        artwork: None,
        source_icon,
    }
}

/// The outcome of an unsuccessful `nowplaying-cli` run: no media when its
/// output says so, else an error with its first line.
pub fn media_from_failed_nowplaying_cli(stdout: &str, stderr: &str) -> (r: Result<
    MediaInfo,
    NowPlayingCliError,
>)
    ensures
        reports_no_media(stdout@, stderr@) ==> (r matches Ok(m) && is_blank_media(m)),
        !reports_no_media(stdout@, stderr@) ==> (r matches Err(NowPlayingCliError::Failed(d)) && d@
            == failure_detail(stdout@, stderr@)),
{
    if output_reports_no_media(stdout, stderr) {
        return Ok(MediaInfo::default());
    }
    let detail = match first_nonblank(stderr) {
        Some(l) => l,
        None => match first_nonblank(stdout) {
            Some(l) => l,
            None => owned("Unknown error"),
        },
    };
    Err(NowPlayingCliError::Failed(detail))
}

/// The now-playing result of `nowplaying-cli`: a timeout counts as no
/// media, other errors as their message, and empty media as no media.
pub fn finish_nowplaying_cli(result: Result<MediaInfo, NowPlayingCliError>) -> (r: Result<MediaInfo, String>)
    ensures
        match result {
            Err(NowPlayingCliError::TimedOut) => r matches Ok(m) && is_blank_media(m),
            Err(e) => r matches Err(m) && m@ == cli_message(e),
            Ok(media) => if crate::platform::media_is_empty(media) {
                r matches Ok(m) && is_blank_media(m)
            } else {
                r == Ok::<MediaInfo, String>(media)
            },
        },
{
    match result {
        Err(NowPlayingCliError::TimedOut) => Ok(MediaInfo::default()),
        Err(e) => Err(e.into_user_message()),
        Ok(media) => if media.is_empty() {
            Ok(MediaInfo::default())
        } else {
            Ok(media)
        },
    }
}

} // verus!
