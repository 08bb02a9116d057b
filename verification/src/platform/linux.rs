//! Linux capture: what the output of `playerctl`, `xprop`, `gdbus` and
//! `kdotool` means, how desktop entries and themed icons are matched to a
//! media source, and what the self-test reports. Running the commands and
//! reading files is the caller's part.
use super::images::{decode_inline_data_url, inline_data_url_image, sniffed_image_type};
use super::linux_desktop::{first_ws, lemma_first_ws, pieces, split_pieces, Separators};
use super::self_test::{
    foreground_ok_probe, media_ok_probe, probe, probe_is, self_test_params_are, texts_view,
    window_title_probe, window_probe_is, media_probe_is, without_params,
};
use super::{
    is_blank_media, localized_text, PlatformSelfTestResult, ProbeTextSpec, ForegroundSnapshot, MediaArtwork, MediaInfo, PLAYBACK_STATE_PAUSED,
    PLAYBACK_STATE_PLAYING, PLAYBACK_STATE_STOPPED,
};
use crate::text::{
    ascii_lower_seq, chars_of, contains_str, contains_sub, first_index, is_blank, lines_of,
    lowercased, owned, parse_unsigned, parse_unsigned_exec, push_str, split_lines, starts_with,
    starts_with_str, str_eq, string_from_range, to_ascii_lowercase, to_lowercase, trim,
    trim_string, views,
};
use vstd::prelude::*;

verus! {

// ---------------------------------------------------------------------------
// Command output
// ---------------------------------------------------------------------------

/// `value`, or `fallback` when `value` is blank.
pub open spec fn if_empty_spec(value: Seq<char>, fallback: Seq<char>) -> Seq<char> {
    if trim(value).len() == 0 {
        fallback
    } else {
        value
    }
}

/// `value`, or `fallback` when `value` is blank.
pub fn if_empty<'a>(value: &'a str, fallback: &'a str) -> (r: &'a str)
    ensures
        r@ == if_empty_spec(value@, fallback@),
{
    if is_blank(value) {
        fallback
    } else {
        value
    }
}

/// The error text of a failed command: its trimmed stderr, else its trimmed
/// stdout, else `fallback`.
pub open spec fn command_error_spec(stdout: Seq<char>, stderr: Seq<char>, fallback: Seq<char>) -> Seq<
    char,
> {
    if_empty_spec(if_empty_spec(trim(stderr), trim(stdout)), fallback)
}

pub fn command_error_text(stdout: &str, stderr: &str, fallback: &str) -> (r: String)
    ensures
        r@ == command_error_spec(stdout@, stderr@, fallback@),
{
    let err = trim_string(stderr);
    let out = trim_string(stdout);
    owned(if_empty(if_empty(err.as_str(), out.as_str()), fallback))
}

/// What a successful command printed: its first line, trimmed.
pub open spec fn first_line_spec(stdout: Seq<char>) -> Seq<char> {
    if lines_of(stdout).len() > 0 {
        trim(lines_of(stdout)[0])
    } else {
        Seq::empty()
    }
}

pub fn first_line_trimmed(stdout: &str) -> (r: String)
    ensures
        r@ == first_line_spec(stdout@),
{
    let lines = split_lines(stdout);
    if lines.len() > 0 {
        trim_string(lines[0].as_str())
    } else {
        String::new()
    }
}

/// `playerctl` says that no player is there to ask.
pub open spec fn no_players_spec(stdout: Seq<char>, stderr: Seq<char>) -> bool {
    let combined = lowercased(stdout + "\n"@ + stderr);
    contains_sub(combined, "no players found"@) || contains_sub(
        combined,
        "no player could handle this command"@,
    )
}

pub fn playerctl_reports_no_players(stdout: &str, stderr: &str) -> (r: bool)
    ensures
        r == no_players_spec(stdout@, stderr@),
{
    let mut combined = owned(stdout);
    push_str(&mut combined, "\n");
    push_str(&mut combined, stderr);
    let lower = to_lowercase(combined.as_str());
    contains_str(lower.as_str(), "no players found") || contains_str(
        lower.as_str(),
        "no player could handle this command",
    )
}

// ---------------------------------------------------------------------------
// Media (playerctl)
// ---------------------------------------------------------------------------

/// A `{{status}}` value as a playback state: playing, paused, stopped, or
/// empty when unknown.
pub open spec fn playback_state_spec(value: Seq<char>) -> Seq<char> {
    let v = ascii_lower_seq(trim(value));
    if v == "playing"@ {
        PLAYBACK_STATE_PLAYING@
    } else if v == "paused"@ {
        PLAYBACK_STATE_PAUSED@
    } else if v == "stopped"@ {
        PLAYBACK_STATE_STOPPED@
    } else {
        Seq::empty()
    }
}

pub fn normalize_playback_state(value: &str) -> (r: String)
    ensures
        r@ == playback_state_spec(value@),
{
    let trimmed = trim_string(value);
    let lower = to_ascii_lowercase(trimmed.as_str());
    if str_eq(lower.as_str(), "playing") {
        owned(PLAYBACK_STATE_PLAYING)
    } else if str_eq(lower.as_str(), "paused") {
        owned(PLAYBACK_STATE_PAUSED)
    } else if str_eq(lower.as_str(), "stopped") {
        owned(PLAYBACK_STATE_STOPPED)
    } else {
        String::new()
    }
}

/// `{{mpris:length}}` (microseconds) in milliseconds; nothing for zero or junk.
pub open spec fn playerctl_length_spec(value: Seq<char>) -> Option<u64> {
    match parse_unsigned(trim(value), u64::MAX as nat) {
        Some(micros) => if micros > 0 {
            Some((micros / 1000) as u64)
        } else {
            None
        },
        None => None,
    }
}

pub fn parse_playerctl_length_ms(value: &str) -> (r: Option<u64>)
    ensures
        r == playerctl_length_spec(value@),
{
    let trimmed = trim_string(value);
    match parse_unsigned_exec(trimmed.as_str(), u64::MAX) {
        Some(micros) => if micros > 0 {
            Some(micros / 1000)
        } else {
            None
        },
        None => None,
    }
}

/// The metadata line at `i`, trimmed; empty past the end.
pub open spec fn line_at(lines: Seq<Seq<char>>, i: int) -> Seq<char> {
    if 0 <= i < lines.len() {
        trim(lines[i])
    } else {
        Seq::empty()
    }
}

/// What `playerctl metadata` printed, line by line.
pub struct PlayerctlMetadata {
    pub playback_state: String,
    pub title: String,
    pub artist: String,
    pub album: String,
    pub source_app_id: String,
    pub duration_ms: Option<u64>,
    pub art_url: String,
}

fn line_or_empty(lines: &Vec<String>, i: usize) -> (r: String)
    ensures
        r@ == line_at(views(lines@), i as int),
{
    if i < lines.len() {
        trim_string(lines[i].as_str())
    } else {
        String::new()
    }
}

/// Reads the status, title, artist, album, player, length and art-URL lines.
pub fn parse_playerctl_metadata(stdout: &str) -> (r: PlayerctlMetadata)
    ensures
        r.playback_state@ == playback_state_spec(line_at(lines_of(stdout@), 0)),
        r.title@ == line_at(lines_of(stdout@), 1),
        r.artist@ == line_at(lines_of(stdout@), 2),
        r.album@ == line_at(lines_of(stdout@), 3),
        r.source_app_id@ == line_at(lines_of(stdout@), 4),
        r.duration_ms == playerctl_length_spec(line_at(lines_of(stdout@), 5)),
        r.art_url@ == line_at(lines_of(stdout@), 6),
{
    let lines = split_lines(stdout);
    let status = line_or_empty(&lines, 0);
    let length = line_or_empty(&lines, 5);
    PlayerctlMetadata {
        playback_state: normalize_playback_state(status.as_str()),
        title: line_or_empty(&lines, 1),
        artist: line_or_empty(&lines, 2),
        album: line_or_empty(&lines, 3),
        source_app_id: line_or_empty(&lines, 4),
        duration_ms: parse_playerctl_length_ms(length.as_str()),
        art_url: line_or_empty(&lines, 6),
    }
}

/// The media for an unsuccessful `playerctl metadata`: none when no player
/// is there, else an error with what it printed.
pub fn media_from_failed_playerctl(stdout: &str, stderr: &str) -> (r: Result<MediaInfo, String>)
    ensures
        no_players_spec(stdout@, stderr@) ==> (r matches Ok(m) && is_blank_media(m)),
        !no_players_spec(stdout@, stderr@) ==> (r matches Err(e) && e@
            == "Failed to read media info: "@ + if_empty_spec(
            trim(stderr@),
            "playerctl returned an error"@,
        )),
{
    if playerctl_reports_no_players(stdout, stderr) {
        return Ok(MediaInfo::default());
    }
    let err = trim_string(stderr);
    let mut message = owned("Failed to read media info: ");
    push_str(&mut message, if_empty(err.as_str(), "playerctl returned an error"));
    Err(message)
}

/// The position for an unsuccessful `playerctl position`: none when no player
/// is there, else an error.
pub fn position_from_failed_playerctl(stdout: &str, stderr: &str) -> (r: Result<Option<u64>, String>)
    ensures
        no_players_spec(stdout@, stderr@) ==> r == Ok::<Option<u64>, String>(None),
        !no_players_spec(stdout@, stderr@) ==> (r matches Err(e) && e@ == command_error_spec(
            stdout@,
            stderr@,
            "playerctl position returned an error"@,
        )),
{
    if playerctl_reports_no_players(stdout, stderr) {
        return Ok(None);
    }
    Err(command_error_text(stdout, stderr, "playerctl position returned an error"))
}

/// The now-playing media from the metadata and what the other reads gave: a
/// failed position read counts as no position, and media without title,
/// artist and album is reported as no media at all.
pub fn linux_media_info(
    meta: PlayerctlMetadata,
    position: Result<Option<u64>, String>,
    artwork: Option<MediaArtwork>,
    source_icon: Option<MediaArtwork>,
) -> (r: MediaInfo)
    ensures
        (trim(meta.title@).len() == 0 && trim(meta.artist@).len() == 0 && trim(meta.album@).len()
            == 0) ==> is_blank_media(r),
        !(trim(meta.title@).len() == 0 && trim(meta.artist@).len() == 0 && trim(
            meta.album@,
        ).len() == 0) ==> {
            &&& r.title == meta.title
            &&& r.artist == meta.artist
            &&& r.album == meta.album
            &&& r.source_app_id == meta.source_app_id
            &&& r.playback_state == meta.playback_state
            &&& r.duration_ms == meta.duration_ms
            &&& r.position_ms == (match position {
                Ok(p) => p,
                Err(_) => None,
            })
            &&& r.artwork == artwork
            &&& r.source_icon == source_icon
        },
{
    let position_ms = match position {
        Ok(p) => p,
        Err(_) => None,
    };
    let media = MediaInfo {
        title: meta.title,
        artist: meta.artist,
        album: meta.album,
        source_app_id: meta.source_app_id,
        playback_state: meta.playback_state,
        duration_ms: meta.duration_ms,
        position_ms,
        artwork,
        source_icon,
    };
    if media.is_empty() {
        return MediaInfo::default();
    }
    media
}

/// How the artwork URL of a track is fetched.
pub enum ArtworkFetch {
    /// No usable URL.
    Skip,
    /// A `data:` URL, already decoded (or not decodable).
    Inline(Option<MediaArtwork>),
    /// An `http(s)` URL to download.
    Download(String),
}

/// Decides how to get the artwork behind `{{mpris:artUrl}}`.
pub fn classify_artwork_url(url: &str) -> (r: ArtworkFetch)
    ensures
        trim(url@).len() == 0 ==> r is Skip,
        trim(url@).len() > 0 && starts_with(trim(url@), "data:"@) ==> (r matches ArtworkFetch::Inline(
            a,
        ) && match a {
            Some(art) => inline_data_url_image(trim(url@)) == Some((art.content_type@, art.bytes@)),
            None => inline_data_url_image(trim(url@)) is None,
        }),
        trim(url@).len() > 0 && !starts_with(trim(url@), "data:"@) && (starts_with(
            trim(url@),
            "http://"@,
        ) || starts_with(trim(url@), "https://"@)) ==> (r matches ArtworkFetch::Download(u) && u@
            == trim(url@)),
        trim(url@).len() > 0 && !starts_with(trim(url@), "data:"@) && !starts_with(
            trim(url@),
            "http://"@,
        ) && !starts_with(trim(url@), "https://"@) ==> r is Skip,
{
    let trimmed = trim_string(url);
    if trimmed.as_str().is_empty() {
        return ArtworkFetch::Skip;
    }
    if starts_with_str(trimmed.as_str(), "data:") {
        return ArtworkFetch::Inline(decode_inline_data_url(trimmed.as_str()));
    }
    if !starts_with_str(trimmed.as_str(), "http://") && !starts_with_str(
        trimmed.as_str(),
        "https://",
    ) {
        return ArtworkFetch::Skip;
    }
    ArtworkFetch::Download(trimmed)
}

/// `s` with every leading repetition of the non-empty `p` removed.
pub open spec fn strip_all_prefix(s: Seq<char>, p: Seq<char>) -> Seq<char>
    decreases s.len(),
{
    if p.len() > 0 && s.len() >= p.len() && starts_with(s, p) {
        strip_all_prefix(s.skip(p.len() as int), p)
    } else {
        s
    }
}

/// The text before the first `c`, or all of it.
pub open spec fn before_char(s: Seq<char>, c: char) -> Seq<char> {
    match first_index(s, c) {
        Some(k) => s.take(k),
        None => s,
    }
}

/// The image type a `Content-Type` header names, if it names one.
pub open spec fn header_image_type(header: Seq<char>) -> Option<Seq<char>> {
    let t = before_char(strip_all_prefix(trim(header), "data:"@), ';');
    if starts_with(t, "image/"@) {
        Some(t)
    } else {
        None
    }
}

fn strip_data_prefixes(s: &str) -> (r: String)
    ensures
        r@ == strip_all_prefix(s@, "data:"@),
{
    let v = chars_of(s);
    let p = chars_of("data:");
    proof {
        reveal_strlit("data:");
    }
    assert(p@.len() == 5);
    let mut start: usize = 0;
    assert(v@.skip(0) =~= v@);
    loop
        invariant
            start <= v@.len(),
            p@ == "data:"@,
            p@.len() == 5,
            v@ == s@,
            strip_all_prefix(v@.skip(start as int), "data:"@) == strip_all_prefix(s@, "data:"@),
        ensures
            start <= v@.len(),
            v@ == s@,
            strip_all_prefix(v@.skip(start as int), "data:"@) == strip_all_prefix(s@, "data:"@),
            strip_all_prefix(v@.skip(start as int), "data:"@) == v@.skip(start as int),
        decreases v@.len() - start,
    {
        let ghost t = v@.skip(start as int);
        if v.len() - start < 5 {
            break;
        }
        if !crate::text::occurs_at_exec(&v, &p, start) {
            proof {
                if t.len() >= 5 && starts_with(t, "data:"@) {
                    assert(v@.subrange(start as int, start + 5) =~= t.subrange(0, 5));
                }
            }
            break;
        }
        proof {
            assert(t.subrange(0, 5) =~= v@.subrange(start as int, start + 5));
            assert(starts_with(t, "data:"@));
            assert(t.skip(5) =~= v@.skip(start + 5));
        }
        start = start + 5;
    }
    let r = string_from_range(&v, start, v.len());
    assert(r@ =~= v@.skip(start as int));
    r
}

/// The artwork from a download: nothing unless it succeeded with some bytes;
/// the type from the header when it names an image type, else sniffed from
/// the bytes, JPEG when unknown.
pub fn artwork_from_download(
    success: bool,
    content_type_header: Option<String>,
    bytes: Vec<u8>,
) -> (r: Option<MediaArtwork>)
    ensures
        !success || bytes@.len() == 0 ==> r is None,
        success && bytes@.len() > 0 ==> (r matches Some(a) && a.bytes@ == bytes@
            && a.content_type@ == (match content_type_header {
            Some(h) => match header_image_type(h@) {
                Some(t) => t,
                None => linux_image_type(bytes@),
            },
            None => linux_image_type(bytes@),
        })),
{
    if !success || bytes.len() == 0 {
        return None;
    }
    let from_header = match &content_type_header {
        Some(h) => {
            let trimmed = trim_string(h.as_str());
            let stripped = strip_data_prefixes(trimmed.as_str());
            let v = chars_of(stripped.as_str());
            let t = match super::images::find_char(&v, ';') {
                Some(k) => string_from_range(&v, 0, k),
                None => stripped,
            };
            assert(t@ == before_char(strip_all_prefix(trim(h@), "data:"@), ';'));
            if starts_with_str(t.as_str(), "image/") {
                Some(t)
            } else {
                None
            }
        },
        None => None,
    };
    let content_type = match from_header {
        Some(t) => t,
        None => detect_image_content_type(bytes.as_slice()),
    };
    Some(MediaArtwork { bytes, content_type })
}

/// The sniffed image type, JPEG when the bytes announce none.
pub open spec fn linux_image_type(b: Seq<u8>) -> Seq<char> {
    match sniffed_image_type(b) {
        Some(t) => t,
        None => "image/jpeg"@,
    }
}

/// The image type of downloaded artwork, JPEG when unknown.
pub fn detect_image_content_type(bytes: &[u8]) -> (r: String)
    ensures
        r@ == linux_image_type(bytes@),
{
    match super::images::detect_image_content_type(bytes) {
        Some(t) => owned(t),
        None => owned("image/jpeg"),
    }
}

// ---------------------------------------------------------------------------
// Foreground window (xprop, gdbus, kdotool)
// ---------------------------------------------------------------------------

/// The values between pairs of double quotes, in order; an unclosed quote
/// starts no value.
pub open spec fn quoted_values(line: Seq<char>) -> Seq<Seq<char>> {
    let ps = pieces(line, Separators::Quote);
    Seq::new(((ps.len() - 1) / 2) as nat, |k: int| ps[2 * k + 1])
}

pub fn extract_quoted_values(line: &str) -> (r: Vec<String>)
    ensures
        views(r@) == quoted_values(line@),
{
    let ps = split_pieces(line, Separators::Quote);
    let n = ps.len();
    let count = (n - 1) / 2;
    let mut out: Vec<String> = Vec::new();
    let mut k: usize = 0;
    while k < count
        invariant
            k <= count,
            count == (ps@.len() - 1) / 2,
            ps@.len() >= 1,
            2 * count + 1 <= ps@.len(),
            ps@.len() <= usize::MAX,
            out@.len() == k,
            forall|m: int| 0 <= m < k ==> (#[trigger] out@[m])@ == ps@[2 * m + 1]@,
        decreases count - k,
    {
        out.push(ps[2 * k + 1].clone());
        k += 1;
    }
    assert(views(out@) =~= quoted_values(line@));
    out
}

/// Scanning `xprop` lines: the `WM_CLASS` class name (the second value, or
/// the only one) of the first such line that has a value.
pub open spec fn wm_class_in(lines: Seq<Seq<char>>) -> Option<Seq<char>>
    decreases lines.len(),
{
    if lines.len() == 0 {
        None
    } else {
        let line = lines[0];
        let values = quoted_values(line);
        if starts_with(line, "WM_CLASS"@) && values.len() >= 2 {
            Some(values[1])
        } else if starts_with(line, "WM_CLASS"@) && values.len() == 1 {
            Some(values[0])
        } else {
            wm_class_in(lines.drop_first())
        }
    }
}

/// The first quoted value of the first line that starts with `key` and has one.
pub open spec fn first_value_in(lines: Seq<Seq<char>>, key: Seq<char>) -> Option<Seq<char>>
    decreases lines.len(),
{
    if lines.len() == 0 {
        None
    } else if starts_with(lines[0], key) && quoted_values(lines[0]).len() > 0 {
        Some(quoted_values(lines[0])[0])
    } else {
        first_value_in(lines.drop_first(), key)
    }
}

/// The window title: `_NET_WM_NAME`, else `WM_NAME`.
pub open spec fn window_title_in(lines: Seq<Seq<char>>) -> Option<Seq<char>> {
    match first_value_in(lines, "_NET_WM_NAME"@) {
        Some(v) => Some(v),
        None => first_value_in(lines, "WM_NAME"@),
    }
}

/// The process id on the first `_NET_WM_PID` line whose value (after the
/// first `=`) parses; a `_NET_WM_PID` line without `=` ends the search.
pub open spec fn window_pid_in(lines: Seq<Seq<char>>) -> Option<u32>
    decreases lines.len(),
{
    if lines.len() == 0 {
        None
    } else if starts_with(lines[0], "_NET_WM_PID"@) {
        let ps = pieces(lines[0], Separators::Equals);
        if ps.len() < 2 {
            None
        } else {
            match parse_unsigned(trim(ps[1]), u32::MAX as nat) {
                Some(pid) => Some(pid as u32),
                None => window_pid_in(lines.drop_first()),
            }
        }
    } else {
        window_pid_in(lines.drop_first())
    }
}

pub fn parse_wm_class(stdout: &str) -> (r: Option<String>)
    ensures
        r.deep_view() == wm_class_in(lines_of(stdout@)),
{
    let lines = split_lines(stdout);
    let ghost ls = views(lines@);
    let mut i: usize = 0;
    assert(ls.skip(0) =~= ls);
    while i < lines.len()
        invariant
            i <= lines@.len(),
            ls == views(lines@),
            ls == lines_of(stdout@),
            wm_class_in(ls.skip(i as int)) == wm_class_in(ls),
        decreases lines@.len() - i,
    {
        let line = lines[i].as_str();
        proof {
            assert(ls.skip(i as int)[0] == line@);
            assert(ls.skip(i as int).drop_first() =~= ls.skip(i + 1));
        }
        if starts_with_str(line, "WM_CLASS") {
            let values = extract_quoted_values(line);
            if values.len() >= 2 {
                return Some(values[1].clone());
            }
            if values.len() == 1 {
                return Some(values[0].clone());
            }
        }
        i += 1;
    }
    assert(ls.skip(i as int) =~= Seq::<Seq<char>>::empty());
    None
}

fn first_value_with_key(lines: &Vec<String>, key: &str) -> (r: Option<String>)
    ensures
        r.deep_view() == first_value_in(views(lines@), key@),
{
    let ghost ls = views(lines@);
    let mut i: usize = 0;
    assert(ls.skip(0) =~= ls);
    while i < lines.len()
        invariant
            i <= lines@.len(),
            ls == views(lines@),
            first_value_in(ls.skip(i as int), key@) == first_value_in(ls, key@),
        decreases lines@.len() - i,
    {
        let line = lines[i].as_str();
        proof {
            assert(ls.skip(i as int)[0] == line@);
            assert(ls.skip(i as int).drop_first() =~= ls.skip(i + 1));
        }
        if starts_with_str(line, key) {
            let values = extract_quoted_values(line);
            if values.len() > 0 {
                return Some(values[0].clone());
            }
        }
        i += 1;
    }
    assert(ls.skip(i as int) =~= Seq::<Seq<char>>::empty());
    None
}

pub fn parse_window_title(stdout: &str) -> (r: Option<String>)
    ensures
        r.deep_view() == window_title_in(lines_of(stdout@)),
{
    let lines = split_lines(stdout);
    match first_value_with_key(&lines, "_NET_WM_NAME") {
        Some(v) => Some(v),
        None => first_value_with_key(&lines, "WM_NAME"),
    }
}

pub fn parse_window_pid(stdout: &str) -> (r: Option<u32>)
    ensures
        r == window_pid_in(lines_of(stdout@)),
{
    let lines = split_lines(stdout);
    let ghost ls = views(lines@);
    let mut i: usize = 0;
    assert(ls.skip(0) =~= ls);
    while i < lines.len()
        invariant
            i <= lines@.len(),
            ls == views(lines@),
            ls == lines_of(stdout@),
            window_pid_in(ls.skip(i as int)) == window_pid_in(ls),
        decreases lines@.len() - i,
    {
        let line = lines[i].as_str();
        proof {
            assert(ls.skip(i as int)[0] == line@);
            assert(ls.skip(i as int).drop_first() =~= ls.skip(i + 1));
        }
        if starts_with_str(line, "_NET_WM_PID") {
            let ps = split_pieces(line, Separators::Equals);
            if ps.len() < 2 {
                return None;
            }
            let raw = trim_string(ps[1].as_str());
            match parse_unsigned_exec(raw.as_str(), u32::MAX as u64) {
                Some(pid) => {
                    return Some(pid as u32);
                },
                None => {},
            }
        }
        i += 1;
    }
    assert(ls.skip(i as int) =~= Seq::<Seq<char>>::empty());
    None
}

/// The window id after the `#` of `_NET_ACTIVE_WINDOW`: its first word.
pub open spec fn active_window_id_spec(stdout: Seq<char>) -> Option<Seq<char>> {
    let ps = pieces(stdout, Separators::Hash);
    if ps.len() < 2 {
        None
    } else {
        let t = trim(ps[1]);
        if t.len() == 0 {
            None
        } else {
            Some(t.take(first_ws(t, t.len() as int)))
        }
    }
}

pub fn parse_active_window_id(stdout: &str) -> (r: Option<String>)
    ensures
        r.deep_view() == active_window_id_spec(stdout@),
{
    let ps = split_pieces(stdout, Separators::Hash);
    if ps.len() < 2 {
        return None;
    }
    let t = trim_string(ps[1].as_str());
    let v = chars_of(t.as_str());
    if v.len() == 0 {
        return None;
    }
    let mut k: usize = 0;
    while k < v.len() && !crate::text::is_whitespace(v[k])
        invariant
            k <= v@.len(),
            forall|i: int| 0 <= i < k ==> !crate::text::is_ws(#[trigger] v@[i]),
        decreases v@.len() - k,
    {
        k += 1;
    }
    proof {
        lemma_first_ws(t@, t@.len() as int);
        let f = first_ws(t@, t@.len() as int);
        if f < k {
            assert(!crate::text::is_ws(v@[f]));
        }
        if k < f {
            assert(crate::text::is_ws(v@[k as int]));
        }
    }
    Some(string_from_range(&v, 0, k))
}

/// The active window from `xprop -root _NET_ACTIVE_WINDOW`.
pub fn active_window_from_xprop(stdout: &str) -> (r: Result<String, String>)
    ensures
        match active_window_id_spec(stdout@) {
            None => r matches Err(e) && e@ == "Failed to parse _NET_ACTIVE_WINDOW."@,
            Some(id) => if id == "0x0"@ {
                r matches Err(e) && e@ == "There is no active window."@
            } else {
                r matches Ok(w) && w@ == id
            },
        },
{
    match parse_active_window_id(stdout) {
        None => Err(owned("Failed to parse _NET_ACTIVE_WINDOW.")),
        Some(id) => if str_eq(id.as_str(), "0x0") {
            Err(owned("There is no active window."))
        } else {
            Ok(id)
        },
    }
}

/// The `xprop` arguments that read the details of `window_id`.
pub fn x11_detail_args(window_id: &str, include_process_name: bool, include_process_title: bool) -> (r:
    Vec<String>)
    ensures
        views(r@) == seq!["-id"@, window_id@] + (if include_process_name {
            seq!["WM_CLASS"@, "_NET_WM_PID"@]
        } else {
            Seq::empty()
        }) + (if include_process_title {
            seq!["_NET_WM_NAME"@, "WM_NAME"@]
        } else {
            Seq::empty()
        }),
{
    let mut args: Vec<String> = Vec::new();
    args.push(owned("-id"));
    args.push(owned(window_id));
    let ghost base = views(args@);
    if include_process_name {
        args.push(owned("WM_CLASS"));
        args.push(owned("_NET_WM_PID"));
    }
    let ghost mid = views(args@);
    if include_process_title {
        args.push(owned("_NET_WM_NAME"));
        args.push(owned("WM_NAME"));
    }
    assert(views(args@) =~= seq!["-id"@, window_id@] + (if include_process_name {
        seq!["WM_CLASS"@, "_NET_WM_PID"@]
    } else {
        Seq::empty()
    }) + (if include_process_title {
        seq!["_NET_WM_NAME"@, "WM_NAME"@]
    } else {
        Seq::empty()
    }));
    args
}

/// The process name from `/proc/<pid>/comm`: its trimmed content, if any.
pub fn process_name_from_comm(content: &str) -> (r: Option<String>)
    ensures
        r.deep_view() == crate::text::non_empty_spec(content@),
{
    crate::text::non_empty(content)
}

/// The X11 snapshot from `xprop`'s window details: the title when asked for,
/// and the name when asked for: the process name of the window's pid, else
/// its window class, else `unknown`.
pub fn x11_snapshot(
    detail: &str,
    include_process_name: bool,
    include_process_title: bool,
    pid_process_name: Option<String>,
) -> (r: ForegroundSnapshot)
    ensures
        r.process_title@ == (if include_process_title {
            match window_title_in(lines_of(detail@)) {
                Some(t) => t,
                None => Seq::empty(),
            }
        } else {
            Seq::empty()
        }),
        r.process_name@ == (if include_process_name {
            match pid_process_name {
                Some(n) => n@,
                None => match wm_class_in(lines_of(detail@)) {
                    Some(c) => if trim(c).len() > 0 {
                        c
                    } else {
                        "unknown"@
                    },
                    None => "unknown"@,
                },
            }
        } else {
            Seq::empty()
        }),
{
    let process_title = if include_process_title {
        match parse_window_title(detail) {
            Some(t) => t,
            None => String::new(),
        }
    } else {
        String::new()
    };
    let process_name = if include_process_name {
        match pid_process_name {
            Some(n) => n,
            None => match parse_wm_class(detail) {
                Some(c) => if is_blank(c.as_str()) {
                    owned("unknown")
                } else {
                    c
                },
                None => {
                    assert(trim(Seq::<char>::empty()).len() == 0);
                    owned("unknown")
                },
            },
        }
    } else {
        String::new()
    };
    ForegroundSnapshot { process_name, process_title }
}

/// The error for a failed `xprop` or `gdbus` call: a prefix and what it printed.
pub fn command_failure(prefix: &str, stderr: &str, fallback: &str) -> (r: String)
    ensures
        r@ == prefix@ + if_empty_spec(trim(stderr@), fallback@),
{
    let err = trim_string(stderr);
    let mut out = owned(prefix);
    push_str(&mut out, if_empty(err.as_str(), fallback));
    out
}

/// `kdotool getactivewindow` gave `0`: no window is active.
pub fn kde_active_window(window_id: String) -> (r: Result<String, String>)
    ensures
        window_id@ == "0"@ ==> (r matches Err(e) && e@ == "There is no active window."@),
        window_id@ != "0"@ ==> r == Ok::<String, String>(window_id),
{
    if str_eq(window_id.as_str(), "0") {
        Err(owned("There is no active window."))
    } else {
        Ok(window_id)
    }
}

/// `kdotool getwindowclassname` must name a class.
pub fn kde_window_class(value: String) -> (r: Result<String, String>)
    ensures
        value@.len() == 0 ==> (r matches Err(e) && e@
            == "kdotool did not return a window class name."@),
        value@.len() > 0 ==> r == Ok::<String, String>(value),
{
    if value.as_str().is_empty() {
        Err(owned("kdotool did not return a window class name."))
    } else {
        Ok(value)
    }
}

/// How a GVariant string in single quotes continues from `s`.
pub open spec fn gdbus_scan(s: Seq<char>, escaped: bool, acc: Seq<char>) -> Option<Seq<char>>
    decreases s.len(),
{
    if s.len() == 0 {
        None
    } else {
        let c = s[0];
        if escaped {
            let u = if c == 'n' {
                '\n'
            } else if c == 'r' {
                '\r'
            } else if c == 't' {
                '\t'
            } else {
                c
            };
            gdbus_scan(s.drop_first(), false, acc.push(u))
        } else if c == '\\' {
            gdbus_scan(s.drop_first(), true, acc)
        } else if c == '\'' {
            Some(acc)
        } else {
            gdbus_scan(s.drop_first(), false, acc.push(c))
        }
    }
}

/// The string inside the first single-quoted GVariant string of `gdbus`
/// output, with `\n`, `\r`, `\t` and other escapes resolved.
pub open spec fn gdbus_string_spec(stdout: Seq<char>) -> Option<Seq<char>> {
    match first_index(stdout, '\'') {
        Some(k) => gdbus_scan(stdout.skip(k + 1), false, Seq::empty()),
        None => None,
    }
}

pub fn parse_gdbus_string_tuple(stdout: &str) -> (r: Option<String>)
    ensures
        r.deep_view() == gdbus_string_spec(stdout@),
{
    let v = chars_of(stdout);
    let start = match super::images::find_char(&v, '\'') {
        Some(k) => k,
        None => {
            return None;
        },
    };
    let mut escaped = false;
    let mut value = String::new();
    let n = v.len();
    assert(start < n);
    let mut i: usize = start + 1;
    assert(v@.skip(start + 1) == v@.skip(i as int));
    while i < v.len()
        invariant
            start + 1 <= i <= v@.len(),
            gdbus_scan(v@.skip(i as int), escaped, value@) == gdbus_string_spec(stdout@),
            v@ == stdout@,
        decreases v@.len() - i,
    {
        let c = v[i];
        proof {
            assert(v@.skip(i as int)[0] == c);
            assert(v@.skip(i as int).drop_first() =~= v@.skip(i + 1));
        }
        if escaped {
            let u = if c == 'n' {
                '\n'
            } else if c == 'r' {
                '\r'
            } else if c == 't' {
                '\t'
            } else {
                c
            };
            crate::text::push_char(&mut value, u);
            escaped = false;
        } else if c == '\\' {
            escaped = true;
        } else if c == '\'' {
            return Some(value);
        } else {
            crate::text::push_char(&mut value, c);
        }
        i += 1;
    }
    assert(v@.skip(i as int) =~= Seq::<char>::empty());
    None
}

/// The string fields of the Focused Window extension's JSON reply (absent
/// when missing or not a string).
pub struct FocusedWindowPayload {
    pub wm_class_instance: Option<String>,
    pub wm_class: Option<String>,
    pub app_id: Option<String>,
    pub title: Option<String>,
}

pub open spec fn opt_text(s: Option<String>) -> Seq<char> {
    match s {
        Some(v) => v@,
        None => Seq::empty(),
    }
}

/// The snapshot from the Focused Window reply: the first usable of the
/// instance, class and app id as the name, and the title.
pub fn focused_window_snapshot(payload: &FocusedWindowPayload) -> (r: Result<ForegroundSnapshot, String>)
    ensures
        ({
            let a = crate::text::non_empty_spec(opt_text(payload.wm_class_instance));
            let b = crate::text::non_empty_spec(opt_text(payload.wm_class));
            let c = crate::text::non_empty_spec(opt_text(payload.app_id));
            let title = match crate::text::non_empty_spec(opt_text(payload.title)) {
                Some(t) => t,
                None => Seq::empty(),
            };
            if a is None && b is None && c is None {
                r matches Err(e) && e@
                    == "Focused Window D-Bus did not return a usable window class name."@
            } else {
                r matches Ok(s) && s.process_title@ == title && s.process_name@ == (if a is Some {
                    a->0
                } else if b is Some {
                    b->0
                } else {
                    c->0
                })
            }
        }),
{
    let a = match &payload.wm_class_instance {
        Some(v) => crate::text::non_empty(v.as_str()),
        None => None,
    };
    let b = match &payload.wm_class {
        Some(v) => crate::text::non_empty(v.as_str()),
        None => None,
    };
    let c = match &payload.app_id {
        Some(v) => crate::text::non_empty(v.as_str()),
        None => None,
    };
    proof {
        assert(trim(Seq::<char>::empty()).len() == 0);
    }
    let process_name = match a {
        Some(v) => v,
        None => match b {
            Some(v) => v,
            None => match c {
                Some(v) => v,
                None => {
                    return Err(owned("Focused Window D-Bus did not return a usable window class name."));
                },
            },
        },
    };
    let process_title = match &payload.title {
        Some(t) => match crate::text::non_empty(t.as_str()) {
            Some(v) => v,
            None => String::new(),
        },
        None => String::new(),
    };
    Ok(ForegroundSnapshot { process_name, process_title })
}

/// The error when both Wayland methods failed.
pub fn wayland_capture_error(gnome_error: &str, kde_error: &str) -> (r: String)
    ensures
        r@ == "Wayland foreground window capture failed. GNOME Focused Window D-Bus: "@
            + gnome_error@ + "; KDE kdotool: "@ + kde_error@,
{
    let mut out = owned("Wayland foreground window capture failed. GNOME Focused Window D-Bus: ");
    push_str(&mut out, gnome_error);
    push_str(&mut out, "; KDE kdotool: ");
    push_str(&mut out, kde_error);
    out
}

/// Whether the second way is tried after the first failed: always on X11
/// (Wayland next), on Wayland only when an X display is also there.
pub fn needs_fallback(wayland_session: bool, has_display: bool) -> (r: bool)
    ensures
        r == (!wayland_session || has_display),
{
    !wayland_session || has_display
}

/// The foreground result from the first way (Wayland in a Wayland session,
/// else X11) and, when it failed and a fallback applies, the second: the
/// first success wins; in a Wayland session the Wayland error is reported,
/// else both errors.
pub fn resolve_linux_foreground(
    wayland_session: bool,
    first: Result<ForegroundSnapshot, String>,
    second: Option<Result<ForegroundSnapshot, String>>,
) -> (r: Result<ForegroundSnapshot, String>)
    ensures
        first is Ok ==> r == first,
        first is Err && (second matches Some(Ok(_))) ==> r == second->0,
        wayland_session && first is Err && !(second matches Some(Ok(_))) ==> r == first,
        !wayland_session && first is Err && (second matches Some(Err(w))) ==> (r matches Err(e)
            && e@ == "Failed to read the Linux foreground window. X11: "@ + first->Err_0@
            + "; Wayland: "@ + second->0->Err_0@),
        !wayland_session && first is Err && second is None ==> r == first,
{
    match first {
        Ok(s) => Ok(s),
        Err(first_error) => match second {
            Some(Ok(s)) => Ok(s),
            Some(Err(second_error)) => {
                if wayland_session {
                    Err(first_error)
                } else {
                    let mut out = owned("Failed to read the Linux foreground window. X11: ");
                    push_str(&mut out, first_error.as_str());
                    push_str(&mut out, "; Wayland: ");
                    push_str(&mut out, second_error.as_str());
                    Err(out)
                }
            },
            None => Err(first_error),
        },
    }
}

// ---------------------------------------------------------------------------
// Self-test
// ---------------------------------------------------------------------------

/// The detail key for a failed Linux probe, by the lower-cased error.
pub open spec fn linux_detail_key(lower: Seq<char>, probe: Seq<char>) -> Seq<char> {
    if probe == "media"@ {
        if contains_sub(lower, "playerctl"@) {
            "platformSelfTest.detail.linuxMediaPlayerctlMissing"@
        } else {
            "platformSelfTest.detail.linuxMediaUnavailable"@
        }
    } else if contains_sub(lower, "focused window d-bus"@) || contains_sub(lower, "gdbus"@) {
        "platformSelfTest.detail.linuxForegroundGnomeSupportMissing"@
    } else if contains_sub(lower, "kdotool"@) {
        "platformSelfTest.detail.linuxForegroundKdeSupportMissing"@
    } else if contains_sub(lower, "xprop"@) {
        "platformSelfTest.detail.linuxForegroundXpropMissing"@
    } else {
        "platformSelfTest.detail.linuxForegroundUnavailable"@
    }
}

/// The detail of a failed Linux probe: the error, under a key that names the
/// missing tool.
pub fn linux_detail(error: &str, probe: &str) -> (r: ProbeTextSpec)
    ensures
        r.key.deep_view() == Some(linux_detail_key(lowercased(error@), probe@)),
        r.fallback@ == error@,
        r.params is None,
{
    let lower = to_lowercase(error);
    let key = if str_eq(probe, "media") {
        if contains_str(lower.as_str(), "playerctl") {
            "platformSelfTest.detail.linuxMediaPlayerctlMissing"
        } else {
            "platformSelfTest.detail.linuxMediaUnavailable"
        }
    } else if contains_str(lower.as_str(), "focused window d-bus") || contains_str(
        lower.as_str(),
        "gdbus",
    ) {
        "platformSelfTest.detail.linuxForegroundGnomeSupportMissing"
    } else if contains_str(lower.as_str(), "kdotool") {
        "platformSelfTest.detail.linuxForegroundKdeSupportMissing"
    } else if contains_str(lower.as_str(), "xprop") {
        "platformSelfTest.detail.linuxForegroundXpropMissing"
    } else {
        "platformSelfTest.detail.linuxForegroundUnavailable"
    };
    localized_text(key, None, owned(error))
}

/// What the Linux guidance says, in order, for an error and probe.
pub open spec fn linux_guidance_spec(lower: Seq<char>, probe: Seq<char>) -> Seq<
    (Option<Seq<char>>, Seq<char>),
> {
    let g1: Seq<(Option<Seq<char>>, Seq<char>)> = if probe == "foreground"@ || contains_sub(
        lower,
        "wayland"@,
    ) {
        seq![
            (Some("platformSelfTest.guidance.linuxX11"@), "On X11 sessions, the foreground window can be read directly with xprop."@),
            (Some("platformSelfTest.guidance.linuxGnomeFocusedWindow"@), "On GNOME Wayland, install the Focused Window D-Bus extension so the client can read the foreground window via gdbus."@),
            (Some("platformSelfTest.guidance.linuxKdeKdotool"@), "On KDE Plasma Wayland, install kdotool so the client can read the active window class and title."@),
        ]
    } else {
        Seq::empty()
    };
    let g2 = if contains_sub(lower, "xprop"@) {
        g1.push(
            (Some("platformSelfTest.guidance.linuxInstallXprop"@), "Install xprop first (usually provided by xorg-xprop / x11-utils)."@),
        )
    } else {
        g1
    };
    let g3 = if contains_sub(lower, "focused window d-bus"@) || contains_sub(lower, "gdbus"@) {
        g2.push(
            (Some("platformSelfTest.guidance.linuxGnomeFocusedWindow"@), "On GNOME, install the Focused Window D-Bus extension and ensure gdbus is available."@),
        )
    } else {
        g2
    };
    let g4 = if contains_sub(lower, "kdotool"@) {
        g3.push((Some("platformSelfTest.guidance.linuxInstallKdotool"@), "On KDE Plasma, install kdotool."@))
    } else {
        g3
    };
    let g5 = if probe == "media"@ || contains_sub(lower, "playerctl"@) {
        g4.push(
            (Some("platformSelfTest.guidance.linuxInstallPlayerctl"@), "Install playerctl and ensure the player implements MPRIS."@),
        )
    } else {
        g4
    };
    if g5.len() == 0 {
        seq![
            (Some("platformSelfTest.guidance.linuxCheckDesktopPermission"@), "Confirm that the current desktop environment allows foreground-window and media capture."@),
        ]
    } else {
        g5
    }
}

fn push_text(g: &mut Vec<ProbeTextSpec>, key: &'static str, text: &str)
    ensures
        texts_view(final(g)@) == texts_view(old(g)@).push((Some(key@), text@)),
        without_params(old(g)@) ==> without_params(final(g)@),
{
    let ghost before = g@;
    g.push(localized_text(key, None, owned(text)));
    assert(texts_view(g@) =~= texts_view(before).push((Some(key@), text@)));
}

/// The hints for a failed or suspicious Linux probe.
pub fn linux_guidance(error: &str, probe: &str) -> (r: Vec<ProbeTextSpec>)
    ensures
        texts_view(r@) == linux_guidance_spec(lowercased(error@), probe@),
        without_params(r@),
{
    let lower = to_lowercase(error);
    let l = lower.as_str();
    let mut guidance: Vec<ProbeTextSpec> = Vec::new();
    assert(texts_view(guidance@) =~= Seq::empty());
    if str_eq(probe, "foreground") || contains_str(l, "wayland") {
        push_text(
            &mut guidance,
            "platformSelfTest.guidance.linuxX11",
            "On X11 sessions, the foreground window can be read directly with xprop.",
        );
        push_text(
            &mut guidance,
            "platformSelfTest.guidance.linuxGnomeFocusedWindow",
            "On GNOME Wayland, install the Focused Window D-Bus extension so the client can read the foreground window via gdbus.",
        );
        push_text(
            &mut guidance,
            "platformSelfTest.guidance.linuxKdeKdotool",
            "On KDE Plasma Wayland, install kdotool so the client can read the active window class and title.",
        );
    }
    if contains_str(l, "xprop") {
        push_text(
            &mut guidance,
            "platformSelfTest.guidance.linuxInstallXprop",
            "Install xprop first (usually provided by xorg-xprop / x11-utils).",
        );
    }
    if contains_str(l, "focused window d-bus") || contains_str(l, "gdbus") {
        push_text(
            &mut guidance,
            "platformSelfTest.guidance.linuxGnomeFocusedWindow",
            "On GNOME, install the Focused Window D-Bus extension and ensure gdbus is available.",
        );
    }
    if contains_str(l, "kdotool") {
        push_text(
            &mut guidance,
            "platformSelfTest.guidance.linuxInstallKdotool",
            "On KDE Plasma, install kdotool.",
        );
    }
    if str_eq(probe, "media") || contains_str(l, "playerctl") {
        push_text(
            &mut guidance,
            "platformSelfTest.guidance.linuxInstallPlayerctl",
            "Install playerctl and ensure the player implements MPRIS.",
        );
    }
    if guidance.len() == 0 {
        push_text(
            &mut guidance,
            "platformSelfTest.guidance.linuxCheckDesktopPermission",
            "Confirm that the current desktop environment allows foreground-window and media capture.",
        );
    }
    guidance
}

/// The Linux self-test from the three captures: the foreground window, the
/// window title (a second foreground read) and the media.
pub fn linux_self_test(
    foreground: Result<ForegroundSnapshot, String>,
    window: Result<ForegroundSnapshot, String>,
    media: Result<MediaInfo, String>,
) -> (r: PlatformSelfTestResult)
    ensures
        r.platform@ == "linux"@,
        self_test_params_are(r, foreground, window, media),
        match foreground {
            Ok(s) => probe_is(
                r.foreground,
                true,
                "platformSelfTest.summary.foregroundOk"@,
                "Foreground app capture OK"@,
                "platformSelfTest.detail.foregroundCurrent"@,
                "Current foreground app: "@ + s.process_name@,
                Seq::empty(),
            ),
            Err(e) => probe_is(
                r.foreground,
                false,
                "platformSelfTest.summary.foregroundFailed"@,
                "Foreground app capture failed"@,
                linux_detail_key(lowercased(e@), "foreground"@),
                e@,
                linux_guidance_spec(lowercased(e@), "foreground"@),
            ),
        },
        match window {
            Ok(s) => window_probe_is(
                r.window_title,
                s.process_title@,
                "platformSelfTest.detail.windowTitleEmpty"@,
                "The current foreground window has no usable title."@,
                Seq::empty(),
            ),
            Err(e) => probe_is(
                r.window_title,
                false,
                "platformSelfTest.summary.windowTitleFailed"@,
                "Window title capture failed"@,
                linux_detail_key(lowercased(e@), "window"@),
                e@,
                linux_guidance_spec(lowercased(e@), "foreground"@),
            ),
        },
        match media {
            Ok(info) => media_probe_is(
                r.media,
                info,
                Some("To validate media capture, start audio or video playback first and retry."@),
            ),
            Err(e) => probe_is(
                r.media,
                false,
                "platformSelfTest.summary.mediaFailed"@,
                "Media capture failed"@,
                linux_detail_key(lowercased(e@), "media"@),
                e@,
                linux_guidance_spec(lowercased(e@), "media"@),
            ),
        },
{
    let foreground_probe = match &foreground {
        Ok(snapshot) => foreground_ok_probe(snapshot),
        Err(error) => probe(
            false,
            localized_text(
                "platformSelfTest.summary.foregroundFailed",
                None,
                owned("Foreground app capture failed"),
            ),
            linux_detail(error.as_str(), "foreground"),
            linux_guidance(error.as_str(), "foreground"),
        ),
    };
    let window_probe = match &window {
        Ok(snapshot) => window_title_probe(
            snapshot.process_title.as_str(),
            localized_text(
                "platformSelfTest.detail.windowTitleEmpty",
                None,
                owned("The current foreground window has no usable title."),
            ),
            Vec::new(),
        ),
        Err(error) => probe(
            false,
            localized_text(
                "platformSelfTest.summary.windowTitleFailed",
                None,
                owned("Window title capture failed"),
            ),
            linux_detail(error.as_str(), "window"),
            linux_guidance(error.as_str(), "foreground"),
        ),
    };
    let media_probe = match &media {
        Ok(info) => media_ok_probe(
            info,
            Some("To validate media capture, start audio or video playback first and retry."),
        ),
        Err(error) => probe(
            false,
            localized_text(
                "platformSelfTest.summary.mediaFailed",
                None,
                owned("Media capture failed"),
            ),
            linux_detail(error.as_str(), "media"),
            linux_guidance(error.as_str(), "media"),
        ),
    };
    proof {
        assert(texts_view(Seq::<ProbeTextSpec>::empty()) =~= Seq::empty());
    }
    let r = super::build_self_test_result("linux", foreground_probe, window_probe, media_probe);
    proof {
        reveal_strlit("linux");
        reveal_strlit("windows");
    }
    r
}

} // verus!
