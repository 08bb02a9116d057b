//! Windows capture: what the media session's timeline means, how a media
//! source is matched to a running process, turning the rendered icon bitmap
//! into a PNG, and the self-test. The Win32 and WinRT calls are the caller's part.
use super::self_test::{
    foreground_ok_probe, media_ok_probe, probe, probe_is, self_test_params_are, window_title_probe,
    window_probe_is, media_probe_is, without_params,
};
use super::{
    is_blank_media, localized_text, ForegroundSnapshot, MediaArtwork, MediaInfo,
    PlatformSelfTestResult, PLAYBACK_STATE_PAUSED, PLAYBACK_STATE_PLAYING,
};
use super::linux_desktop::{first_piece, last_piece, split_pieces, Separators};
use crate::text::{
    ascii_lower_seq, ends_with, eq_ignore_ascii_case, eq_ignore_case_ascii, owned, push_str, trim,
    trim_string, views,
};
use image::ImageEncoder;
use vstd::prelude::*;

verus! {

/// The edge length of the icons rendered for media sources.
pub const SOURCE_ICON_SIZE: u32 = 128;

/// A WinRT `TimeSpan` (100-nanosecond ticks) in whole milliseconds; nothing
/// when negative.
pub open spec fn ticks_to_ms(ticks: i64) -> Option<u64> {
    if ticks >= 0 {
        Some((ticks / 10000) as u64)
    } else {
        None
    }
}

pub fn windows_timespan_to_millis(ticks: i64) -> (r: Option<u64>)
    ensures
        r == ticks_to_ms(ticks),
{
    if ticks >= 0 {
        Some((ticks as u64) / 10000)
    } else {
        None
    }
}

pub open spec fn ms_or_zero(ticks: Option<i64>) -> u64 {
    match ticks {
        Some(t) => match ticks_to_ms(t) {
            Some(v) => v,
            None => 0,
        },
        None => 0,
    }
}

/// The media duration: end minus start when positive, else the end when
/// positive, else unknown.
pub open spec fn timeline_duration(start: u64, end: u64) -> Option<u64> {
    if end >= start && end - start > 0 {
        Some((end - start) as u64)
    } else if end > 0 {
        Some(end)
    } else {
        None
    }
}

/// The position from the start, capped at the duration; unknown when
/// neither a duration nor a positive position is known.
pub open spec fn timeline_position(start: u64, position: u64, duration: Option<u64>) -> Option<u64> {
    let base: u64 = if position >= start {
        (position - start) as u64
    } else {
        position
    };
    if duration is Some || base > 0 {
        match duration {
            Some(d) => Some(if base <= d {
                base
            } else {
                d
            }),
            None => Some(base),
        }
    } else {
        None
    }
}

/// Duration and position from the session's timeline (start, end and
/// position in ticks, each when it could be read); nothing without a timeline.
pub fn read_media_timeline(timeline: Option<(Option<i64>, Option<i64>, Option<i64>)>) -> (r: (
    Option<u64>,
    Option<u64>,
))
    ensures
        match timeline {
            None => r == (None::<u64>, None::<u64>),
            Some((s, e, p)) => {
                let start = ms_or_zero(s);
                let end = ms_or_zero(e);
                let position = ms_or_zero(p);
                &&& r.0 == timeline_duration(start, end)
                &&& r.1 == timeline_position(start, position, timeline_duration(start, end))
            },
        },
{
    let (s, e, p) = match timeline {
        None => {
            return (None, None);
        },
        Some(t) => t,
    };
    let to_ms = |t: Option<i64>| -> (v: u64)
        ensures
            v == ms_or_zero(t),
        {
            match t {
                Some(ticks) => match windows_timespan_to_millis(ticks) {
                    Some(v) => v,
                    None => 0,
                },
                None => 0,
            }
        };
    let start = to_ms(s);
    let end = to_ms(e);
    let position = to_ms(p);
    let duration = if end >= start && end - start > 0 {
        Some(end - start)
    } else if end > 0 {
        Some(end)
    } else {
        None
    };
    let base = if position >= start {
        position - start
    } else {
        position
    };
    let pos = if duration.is_some() || base > 0 {
        match duration {
            Some(d) => Some(if base <= d {
                base
            } else {
                d
            }),
            None => Some(base),
        }
    } else {
        None
    };
    (duration, pos)
}

/// The now-playing media from the session's values; media without title,
/// artist and album counts as none.
pub fn windows_media_info(
    title: String,
    artist: String,
    album: String,
    source_app_id: String,
    is_playing: bool,
    timeline: (Option<u64>, Option<u64>),
    artwork: Option<MediaArtwork>,
    source_icon: Option<MediaArtwork>,
) -> (r: MediaInfo)
    ensures
        (trim(title@).len() == 0 && trim(artist@).len() == 0 && trim(album@).len() == 0)
            ==> is_blank_media(r),
        !(trim(title@).len() == 0 && trim(artist@).len() == 0 && trim(album@).len() == 0) ==> {
            &&& r.title == title
            &&& r.artist == artist
            &&& r.album == album
            &&& r.source_app_id == source_app_id
            &&& r.playback_state@ == (if is_playing {
                PLAYBACK_STATE_PLAYING@
            } else {
                PLAYBACK_STATE_PAUSED@
            })
            &&& r.duration_ms == timeline.0
            &&& r.position_ms == timeline.1
            &&& r.artwork == artwork
            &&& r.source_icon == source_icon
        },
{
    let media = MediaInfo {
        title,
        artist,
        album,
        source_app_id,
        playback_state: owned(
            if is_playing {
                PLAYBACK_STATE_PLAYING
            } else {
                PLAYBACK_STATE_PAUSED
            },
        ),
        duration_ms: timeline.0,
        position_ms: timeline.1,
        artwork,
        source_icon,
    };
    if media.is_empty() {
        return MediaInfo::default();
    }
    media
}

/// Adds a trimmed candidate unless it is blank or already there (ASCII case ignored).
pub open spec fn add_candidate(list: Seq<Seq<char>>, value: Seq<char>) -> Seq<Seq<char>> {
    let t = trim(value);
    if t.len() == 0 || exists|i: int| 0 <= i < list.len() && eq_ignore_ascii_case(#[trigger] list[i], t) {
        list
    } else {
        list.push(t)
    }
}

/// The executable names a media source id may run as: the id's last path
/// segment up to `_`, its last dotted part, and both with `.exe`.
pub open spec fn process_candidates_spec(source_app_id: Seq<char>) -> Seq<Seq<char>> {
    let tail = first_piece(last_piece(trim(source_app_id), Separators::PathLike), Separators::Underscore);
    let dotted = last_piece(tail, Separators::Dot);
    let c1 = add_candidate(Seq::empty(), tail);
    let c2 = add_candidate(c1, dotted);
    let c3 = if !ends_with(ascii_lower_seq(tail), ".exe"@) {
        add_candidate(c2, tail + ".exe"@)
    } else {
        c2
    };
    if !ends_with(ascii_lower_seq(dotted), ".exe"@) {
        add_candidate(c3, dotted + ".exe"@)
    } else {
        c3
    }
}

fn push_candidate(list: &mut Vec<String>, value: &str)
    ensures
        views(final(list)@) == add_candidate(views(old(list)@), value@),
{
    let t = trim_string(value);
    if t.as_str().is_empty() {
        return ;
    }
    let mut i: usize = 0;
    while i < list.len()
        invariant
            i <= list@.len(),
            t@ == trim(value@),
            forall|j: int| 0 <= j < i ==> !eq_ignore_ascii_case(#[trigger] views(list@)[j], t@),
        decreases list@.len() - i,
    {
        assert(views(list@)[i as int] == list@[i as int]@);
        if eq_ignore_case_ascii(list[i].as_str(), t.as_str()) {
            proof {
                let l = views(list@);
                assert(eq_ignore_ascii_case(l[i as int], trim(value@)));
                assert(exists|k: int| 0 <= k < l.len() && eq_ignore_ascii_case(#[trigger] l[k], trim(value@)));
                assert(add_candidate(l, value@) == l);
            }
            return ;
        }
        i += 1;
    }
    let ghost before = views(list@);
    list.push(t);
    assert(views(list@) =~= before.push(t@));
}

pub fn process_name_candidates(source_app_id: &str) -> (r: Vec<String>)
    ensures
        views(r@) == process_candidates_spec(source_app_id@),
{
    let trimmed = trim_string(source_app_id);
    let paths = split_pieces(trimmed.as_str(), Separators::PathLike);
    let last = paths[paths.len() - 1].clone();
    let unders = split_pieces(last.as_str(), Separators::Underscore);
    let tail = unders[0].clone();
    let dots = split_pieces(tail.as_str(), Separators::Dot);
    let dotted = dots[dots.len() - 1].clone();
    let mut candidates: Vec<String> = Vec::new();
    assert(views(candidates@) =~= Seq::<Seq<char>>::empty());
    push_candidate(&mut candidates, tail.as_str());
    push_candidate(&mut candidates, dotted.as_str());
    proof {
        reveal_strlit(".exe");
    }
    let lower_tail = crate::text::to_ascii_lowercase(tail.as_str());
    if !crate::text::ends_with_str(lower_tail.as_str(), ".exe") {
        let mut with_exe = tail.clone();
        push_str(&mut with_exe, ".exe");
        push_candidate(&mut candidates, with_exe.as_str());
    }
    let lower_dotted = crate::text::to_ascii_lowercase(dotted.as_str());
    if !crate::text::ends_with_str(lower_dotted.as_str(), ".exe") {
        let mut with_exe = dotted.clone();
        push_str(&mut with_exe, ".exe");
        push_candidate(&mut candidates, with_exe.as_str());
    }
    candidates
}

/// Whether an executable name is one of the candidates (ASCII case ignored).
pub fn matches_process_candidate(executable_name: &str, candidates: &Vec<String>) -> (r: bool)
    ensures
        r == exists|i: int|
            0 <= i < candidates@.len() && eq_ignore_ascii_case(
                executable_name@,
                #[trigger] candidates@[i]@,
            ),
{
    let mut i: usize = 0;
    while i < candidates.len()
        invariant
            i <= candidates@.len(),
            forall|j: int|
                0 <= j < i ==> !eq_ignore_ascii_case(executable_name@, #[trigger] candidates@[j]@),
        decreases candidates@.len() - i,
    {
        if eq_ignore_case_ascii(executable_name, candidates[i].as_str()) {
            return true;
        }
        i += 1;
    }
    false
}

/// What UTF-16 units decode to: a unit outside the surrogate range is its
/// own character, a leading surrogate followed by a trailing one is the
/// character they encode together, and any other surrogate becomes U+FFFD
/// (the unit after an unpaired leading surrogate is decoded on its own).
pub open spec fn utf16_lossy(u: Seq<u16>) -> Seq<char>
    decreases u.len(),
{
    if u.len() == 0 {
        Seq::empty()
    } else if u[0] < 0xD800 || u[0] > 0xDFFF {
        seq![u[0] as char] + utf16_lossy(u.drop_first())
    } else if u[0] <= 0xDBFF && u.len() >= 2 && 0xDC00 <= u[1] <= 0xDFFF {
        seq![(0x10000 + (u[0] - 0xD800) * 0x400 + (u[1] - 0xDC00)) as char] + utf16_lossy(
            u.subrange(2, u.len() as int),
        )
    } else {
        seq!['\u{FFFD}'] + utf16_lossy(u.drop_first())
    }
}

/// `String::from_utf16_lossy`: decodes the units as `char::decode_utf16`
/// does, with U+FFFD for each decoding error (an unpaired surrogate).
#[verifier::external_body]
fn from_utf16_lossy(units: &[u16]) -> (r: String)
    ensures
        r@ == utf16_lossy(units@),
{
    String::from_utf16_lossy(units)
}

/// A zero-terminated UTF-16 buffer as text: the units before the first zero.
pub fn utf16z_to_string(buffer: &[u16]) -> (r: String)
    ensures
        exists|end: int|
            #![trigger buffer@.take(end)]
            0 <= end <= buffer@.len() && (end == buffer@.len() || buffer@[end] == 0) && (forall|
                j: int,
            | 0 <= j < end ==> buffer@[j] != 0) && r@ == utf16_lossy(buffer@.take(end)),
{
    let mut end: usize = 0;
    while end < buffer.len() && buffer[end] != 0
        invariant
            end <= buffer@.len(),
            forall|j: int| 0 <= j < end ==> buffer@[j] != 0,
        decreases buffer@.len() - end,
    {
        end += 1;
    }
    let mut units: Vec<u16> = Vec::new();
    let mut i: usize = 0;
    while i < end
        invariant
            i <= end <= buffer@.len(),
            units@ == buffer@.take(i as int),
        decreases end - i,
    {
        units.push(buffer[i]);
        assert(buffer@.take(i + 1) =~= buffer@.take(i as int).push(buffer@[i as int]));
        i += 1;
    }
    let r = from_utf16_lossy(units.as_slice());
    assert(r@ == utf16_lossy(buffer@.take(end as int)));
    r
}

/// A BGRA bitmap as RGBA: blue and red swapped in every whole pixel.
pub open spec fn swapped_pixel(raw: Seq<u8>, i: int) -> u8 {
    if i < raw.len() - raw.len() % 4 {
        if i % 4 == 0 {
            raw[i + 2]
        } else if i % 4 == 2 {
            raw[i - 2]
        } else {
            raw[i]
        }
    } else {
        raw[i]
    }
}

pub fn bgra_to_rgba(raw: Vec<u8>) -> (r: Vec<u8>)
    ensures
        r@.len() == raw@.len(),
        forall|i: int| 0 <= i < raw@.len() ==> #[trigger] r@[i] == swapped_pixel(raw@, i),
{
    let mut rgba = raw;
    let ghost orig = rgba@;
    let n = rgba.len();
    let whole = n - n % 4;
    let mut p: usize = 0;
    while p < whole
        invariant
            p <= whole,
            whole == orig.len() - orig.len() % 4,
            p % 4 == 0,
            rgba@.len() == orig.len(),
            n == orig.len(),
            forall|i: int| 0 <= i < p ==> #[trigger] rgba@[i] == swapped_pixel(orig, i),
            forall|i: int| p <= i < orig.len() ==> #[trigger] rgba@[i] == orig[i],
        decreases whole - p,
    {
        assert(p + 4 <= whole);
        let b = rgba[p];
        let red = rgba[p + 2];
        rgba.set(p, red);
        rgba.set(p + 2, b);
        proof {
            assert forall|i: int| p <= i < p + 4 implies #[trigger] rgba@[i] == swapped_pixel(orig, i) by {
                assert(i < whole);
                assert(i % 4 == i - p);
            }
        }
        p = p + 4;
    }
    rgba
}

/// The PNG encoding of an RGBA image, or the text of the encoder's error.
pub uninterp spec fn png_rgba8(rgba: Seq<u8>, width: u32, height: u32) -> Result<Seq<u8>, Seq<char>>;

/// `image::codecs::png::PngEncoder::write_image` with 8-bit RGBA into a
/// vector: the PNG file for the pixels, or the encoder's error as text
/// (`to_string`); both depend on the pixels and the dimensions alone.
/// The buffer must hold exactly `width * height` pixels, or the encoder panics.
#[verifier::external_body]
fn encode_png_rgba8(rgba: &[u8], width: u32, height: u32) -> (r: Result<Vec<u8>, String>)
    requires
        rgba@.len() == width * height * 4,
    ensures
        match r {
            Ok(png) => png_rgba8(rgba@, width, height) == Ok::<Seq<u8>, Seq<char>>(png@),
            Err(e) => png_rgba8(rgba@, width, height) == Err::<Seq<u8>, Seq<char>>(e@),
        },
{
    let mut png = Vec::new();
    match image::codecs::png::PngEncoder::new(&mut png).write_image(
        rgba,
        width,
        height,
        image::ExtendedColorType::Rgba8,
    ) {
        Ok(()) => Ok(png),
        Err(error) => Err(error.to_string()),
    }
}

/// The PNG of a rendered icon bitmap (BGRA rows of `SOURCE_ICON_SIZE` pixels).
pub fn icon_png_from_bgra(raw: Vec<u8>) -> (r: Result<Vec<u8>, String>)
    requires
        raw@.len() == SOURCE_ICON_SIZE * SOURCE_ICON_SIZE * 4,
    ensures
        ({
            let rgba = Seq::new(raw@.len(), |i: int| swapped_pixel(raw@, i));
            match r {
                Ok(png) => png_rgba8(rgba, SOURCE_ICON_SIZE, SOURCE_ICON_SIZE) == Ok::<
                    Seq<u8>,
                    Seq<char>,
                >(png@),
                Err(e) => png_rgba8(rgba, SOURCE_ICON_SIZE, SOURCE_ICON_SIZE) matches Err(t) && e@
                    == icon_error_prefix() + t,
            }
        }),
{
    let ghost orig = raw@;
    let rgba = bgra_to_rgba(raw);
    assert(rgba@ =~= Seq::new(orig.len(), |i: int| swapped_pixel(orig, i)));
    match encode_png_rgba8(rgba.as_slice(), SOURCE_ICON_SIZE, SOURCE_ICON_SIZE) {
        Ok(png) => Ok(png),
        Err(error) => {
            let mut message = owned("Failed to encode the app icon PNG: ");
            push_str(&mut message, error.as_str());
            Err(message)
        },
    }
}

pub open spec fn icon_error_prefix() -> Seq<char> {
    "Failed to encode the app icon PNG: "@
}

/// A rendered icon as artwork: a non-empty PNG, else nothing.
pub fn icon_artwork(rendered: Result<Vec<u8>, String>) -> (r: Option<MediaArtwork>)
    ensures
        match rendered {
            Ok(bytes) => if bytes@.len() > 0 {
                r matches Some(a) && a.bytes == bytes && a.content_type@ == "image/png"@
            } else {
                r is None
            },
            Err(_) => r is None,
        },
{
    match rendered {
        Ok(bytes) => if bytes.len() > 0 {
            Some(MediaArtwork { bytes, content_type: owned("image/png") })
        } else {
            None
        },
        Err(_) => None,
    }
}

/// The foreground snapshot from what Win32 reported: a window handle is
/// required, and a process id when the name is wanted; an unreadable
/// executable name reads as `unknown`.
pub fn windows_foreground_snapshot(
    has_window: bool,
    include_process_name: bool,
    include_process_title: bool,
    title: String,
    pid: u32,
    exe_name: Result<String, String>,
) -> (r: Result<ForegroundSnapshot, String>)
    ensures
        !include_process_name && !include_process_title ==> (r matches Ok(s)
            && s.process_name@.len() == 0 && s.process_title@.len() == 0),
        (include_process_name || include_process_title) && !has_window ==> (r matches Err(e) && e@
            == "Failed to read the foreground window: GetForegroundWindow returned a null handle."@),
        (include_process_name || include_process_title) && has_window && include_process_name && pid
            == 0 ==> (r matches Err(e) && e@
            == "Failed to read the foreground window: could not resolve the foreground process ID."@),
        (include_process_name || include_process_title) && has_window && !(include_process_name
            && pid == 0) ==> (r matches Ok(s) && s.process_title@ == (if include_process_title {
            title@
        } else {
            Seq::empty()
        }) && s.process_name@ == (if include_process_name {
            match exe_name {
                Ok(n) => n@,
                Err(_) => "unknown"@,
            }
        } else {
            Seq::empty()
        })),
{
    if !include_process_name && !include_process_title {
        return Ok(ForegroundSnapshot::empty());
    }
    if !has_window {
        return Err(
            owned("Failed to read the foreground window: GetForegroundWindow returned a null handle."),
        );
    }
    let process_title = if include_process_title {
        title
    } else {
        String::new()
    };
    let process_name = if include_process_name {
        if pid == 0 {
            return Err(
                owned(
                    "Failed to read the foreground window: could not resolve the foreground process ID.",
                ),
            );
        }
        match exe_name {
            Ok(n) => n,
            Err(_) => owned("unknown"),
        }
    } else {
        String::new()
    };
    Ok(ForegroundSnapshot { process_name, process_title })
}

/// The Windows self-test from the three captures.
pub fn windows_self_test(
    foreground: Result<ForegroundSnapshot, String>,
    window: Result<ForegroundSnapshot, String>,
    media: Result<MediaInfo, String>,
) -> (r: PlatformSelfTestResult)
    ensures
        r.platform@ == "windows"@,
        self_test_params_are(r, foreground, window, media),
        match foreground {
            Ok(s) => probe_is(
                r.foreground,
                true,
                "platformSelfTest.summary.foregroundOk"@,
                "Foreground app capture OK"@,
                "platformSelfTest.detail.foregroundCurrent"@,
                "Current foreground app: "@ + s.process_name@,
                Seq::empty(),
            ),
            Err(e) => probe_is(
                r.foreground,
                false,
                "platformSelfTest.summary.foregroundFailed"@,
                "Foreground app capture failed"@,
                "platformSelfTest.detail.foregroundReadFailed"@,
                e@,
                Seq::empty(),
            ),
        },
        match window {
            Ok(s) => window_probe_is(
                r.window_title,
                s.process_title@,
                "platformSelfTest.detail.windowTitleEmpty"@,
                "The current foreground window has no usable title."@,
                Seq::empty(),
            ),
            Err(e) => probe_is(
                r.window_title,
                false,
                "platformSelfTest.summary.windowTitleFailed"@,
                "Window title capture failed"@,
                "platformSelfTest.detail.windowTitleReadFailed"@,
                e@,
                Seq::empty(),
            ),
        },
        match media {
            Ok(info) => media_probe_is(r.media, info, None),
            Err(e) => probe_is(
                r.media,
                false,
                "platformSelfTest.summary.mediaFailed"@,
                "Media capture failed"@,
                "platformSelfTest.detail.mediaReadFailed"@,
                e@,
                Seq::empty(),
            ),
        },
{
    let foreground_probe = match &foreground {
        Ok(snapshot) => foreground_ok_probe(snapshot),
        Err(error) => probe(
            false,
            localized_text(
                "platformSelfTest.summary.foregroundFailed",
                None,
                owned("Foreground app capture failed"),
            ),
            localized_text("platformSelfTest.detail.foregroundReadFailed", None, error.clone()),
            Vec::new(),
        ),
    };
    let window_probe = match &window {
        Ok(snapshot) => window_title_probe(
            snapshot.process_title.as_str(),
            localized_text(
                "platformSelfTest.detail.windowTitleEmpty",
                None,
                owned("The current foreground window has no usable title."),
            ),
            Vec::new(),
        ),
        Err(error) => probe(
            false,
            localized_text(
                "platformSelfTest.summary.windowTitleFailed",
                None,
                owned("Window title capture failed"),
            ),
            localized_text("platformSelfTest.detail.windowTitleReadFailed", None, error.clone()),
            Vec::new(),
        ),
    };
    let media_probe = match &media {
        Ok(info) => media_ok_probe(info, None),
        Err(error) => probe(
            false,
            localized_text("platformSelfTest.summary.mediaFailed", None, owned("Media capture failed")),
            localized_text("platformSelfTest.detail.mediaReadFailed", None, error.clone()),
            Vec::new(),
        ),
    };
    proof {
        assert(super::self_test::texts_view(Seq::<super::ProbeTextSpec>::empty()) =~= Seq::empty());
    }
    let r = super::build_self_test_result("windows", foreground_probe, window_probe, media_probe);
    proof {
        reveal_strlit("windows");
    }
    r
}

} // verus!
