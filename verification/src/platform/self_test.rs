//! The probe results that every platform's self-test shares.
use super::{
    localized_text, make_probe, media_is_empty, media_is_playing, media_summary, ForegroundSnapshot, MediaInfo,
    PlatformProbeResult, PlatformSelfTestResult, ProbeTextSpec,
};
use crate::text::{is_blank, owned, push_str, trim};
use vstd::prelude::*;

verus! {

/// The JSON object whose one member is `key` with the string `value`.
pub uninterp spec fn json_object_param(key: Seq<char>, value: Seq<char>) -> serde_json::Value;

/// The parameters of a localized text: `serde_json::Value::from_iter` on the
/// one pair of `key` and the JSON string `value` builds the object named by
/// `json_object_param`, which depends on the key and the value alone.
#[verifier::external_body]
pub(crate) fn json_param(key: &str, value: &str) -> (r: serde_json::Value)
    ensures
        r == json_object_param(key@, value@),
{
    serde_json::Value::from_iter([(key.to_string(), serde_json::Value::String(value.to_string()))])
}

/// None of the texts carries JSON parameters.
pub open spec fn without_params(g: Seq<ProbeTextSpec>) -> bool {
    forall|i: int| 0 <= i < g.len() ==> (#[trigger] g[i]).params is None
}

/// The JSON parameters of a probe: `detail` beside its detail text, none
/// beside its summary or its hints.
pub open spec fn probe_params_are(r: PlatformProbeResult, detail: Option<serde_json::Value>) -> bool {
    &&& r.summary_params is None
    &&& r.detail_params == detail
    &&& forall|i: int|
        0 <= i < r.guidance_entries@.len() ==> (#[trigger] r.guidance_entries@[i]).params is None
}

/// The JSON parameters of a self-test's three probes, from its captures: the
/// process name, the window title when there is one, and the media summary
/// when something plays; none for a failed capture.
pub open spec fn self_test_params_are(
    r: PlatformSelfTestResult,
    foreground: Result<ForegroundSnapshot, String>,
    window: Result<ForegroundSnapshot, String>,
    media: Result<MediaInfo, String>,
) -> bool {
    &&& probe_params_are(
        r.foreground,
        match foreground {
            Ok(s) => Some(json_object_param("processName"@, s.process_name@)),
            Err(_) => None,
        },
    )
    &&& probe_params_are(
        r.window_title,
        match window {
            Ok(s) => if trim(s.process_title@).len() == 0 {
                None
            } else {
                Some(json_object_param("processTitle"@, s.process_title@))
            },
            Err(_) => None,
        },
    )
    &&& probe_params_are(
        r.media,
        match media {
            Ok(info) => if media_is_playing(info) && !media_is_empty(info) {
                Some(json_object_param("mediaSummary"@, media_summary(info)))
            } else {
                None
            },
            Err(_) => None,
        },
    )
}

/// A probe's texts by their keys and fallbacks.
pub open spec fn text_view(t: ProbeTextSpec) -> (Option<Seq<char>>, Seq<char>) {
    (t.key.deep_view(), t.fallback@)
}

pub open spec fn guidance_view(r: PlatformProbeResult) -> Seq<(Option<Seq<char>>, Seq<char>)> {
    Seq::new(
        r.guidance_entries@.len(),
        |i: int| (r.guidance_entries@[i].key.deep_view(), r.guidance_entries@[i].text@),
    )
}

pub open spec fn texts_view(g: Seq<ProbeTextSpec>) -> Seq<(Option<Seq<char>>, Seq<char>)> {
    g.map_values(|t: ProbeTextSpec| text_view(t))
}

/// The probe built from its parts, by its texts.
pub open spec fn probe_is(
    r: PlatformProbeResult,
    success: bool,
    summary_key: Seq<char>,
    summary: Seq<char>,
    detail_key: Seq<char>,
    detail: Seq<char>,
    guidance: Seq<(Option<Seq<char>>, Seq<char>)>,
) -> bool {
    &&& r.success == success
    &&& r.summary_key.deep_view() == Some(summary_key)
    &&& r.summary@ == summary
    &&& r.detail_key.deep_view() == Some(detail_key)
    &&& r.detail@ == detail
    &&& guidance_view(r) == guidance
    &&& r.guidance@.len() == guidance.len()
}

/// The window-title probe for a captured `title`: success with the title,
/// or failure explained by the empty-title detail.
pub open spec fn window_probe_is(
    r: PlatformProbeResult,
    title: Seq<char>,
    empty_key: Seq<char>,
    empty_detail: Seq<char>,
    guidance: Seq<(Option<Seq<char>>, Seq<char>)>,
) -> bool {
    if trim(title).len() == 0 {
        probe_is(
            r,
            false,
            "platformSelfTest.summary.windowTitleEmpty"@,
            "Window title is empty"@,
            empty_key,
            empty_detail,
            guidance,
        )
    } else {
        probe_is(
            r,
            true,
            "platformSelfTest.summary.windowTitleOk"@,
            "Window title capture OK"@,
            "platformSelfTest.detail.windowTitleCurrent"@,
            title,
            guidance,
        )
    }
}

/// The media probe after a capture that worked: what plays, or that nothing
/// plays with the optional hint to start playback.
pub open spec fn media_probe_is(r: PlatformProbeResult, info: MediaInfo, hint: Option<Seq<char>>) -> bool {
    if media_is_playing(info) && !media_is_empty(info) {
        probe_is(
            r,
            true,
            "platformSelfTest.summary.mediaOk"@,
            "Media capture OK"@,
            "platformSelfTest.detail.mediaCurrent"@,
            media_summary(info),
            Seq::empty(),
        )
    } else {
        probe_is(
            r,
            true,
            "platformSelfTest.summary.mediaNone"@,
            "No media is currently playing"@,
            "platformSelfTest.detail.mediaNone"@,
            "No now-playing media information is currently available."@,
            match hint {
                Some(h) => seq![(Some("platformSelfTest.guidance.playMediaThenRetry"@), h)],
                None => Seq::empty(),
            },
        )
    }
}

/// A probe from localized texts, by their views.
pub fn probe(
    success: bool,
    summary: ProbeTextSpec,
    detail: ProbeTextSpec,
    guidance: Vec<ProbeTextSpec>,
) -> (r: PlatformProbeResult)
    requires
        summary.key is Some,
        detail.key is Some,
    ensures
        probe_is(
            r,
            success,
            summary.key->0@,
            summary.fallback@,
            detail.key->0@,
            detail.fallback@,
            texts_view(guidance@),
        ),
        summary.params is None && without_params(guidance@) ==> probe_params_are(r, detail.params),
{
    let ghost g = guidance@;
    let r = make_probe(success, summary, detail, guidance);
    assert(guidance_view(r) =~= texts_view(g));
    r
}

/// Foreground capture worked.
pub fn foreground_ok_probe(snapshot: &ForegroundSnapshot) -> (r: PlatformProbeResult)
    ensures
        probe_is(
            r,
            true,
            "platformSelfTest.summary.foregroundOk"@,
            "Foreground app capture OK"@,
            "platformSelfTest.detail.foregroundCurrent"@,
            "Current foreground app: "@ + snapshot.process_name@,
            Seq::empty(),
        ),
        probe_params_are(r, Some(json_object_param("processName"@, snapshot.process_name@))),
{
    let mut detail = owned("Current foreground app: ");
    push_str(&mut detail, snapshot.process_name.as_str());
    let r = probe(
        true,
        localized_text(
            "platformSelfTest.summary.foregroundOk",
            None,
            owned("Foreground app capture OK"),
        ),
        localized_text(
            "platformSelfTest.detail.foregroundCurrent",
            Some(json_param("processName", snapshot.process_name.as_str())),
            detail,
        ),
        Vec::new(),
    );
    assert(texts_view(Seq::<ProbeTextSpec>::empty()) =~= Seq::empty());
    r
}

/// The window-title probe: a title counts as success; an empty one is
/// explained by `empty_detail`.
pub fn window_title_probe(
    title: &str,
    empty_detail: ProbeTextSpec,
    guidance: Vec<ProbeTextSpec>,
) -> (r: PlatformProbeResult)
    requires
        empty_detail.key is Some,
    ensures
        window_probe_is(r, title@, empty_detail.key->0@, empty_detail.fallback@, texts_view(guidance@)),
        without_params(guidance@) ==> probe_params_are(
            r,
            if trim(title@).len() == 0 {
                empty_detail.params
            } else {
                Some(json_object_param("processTitle"@, title@))
            },
        ),
{
    if is_blank(title) {
        probe(
            false,
            localized_text(
                "platformSelfTest.summary.windowTitleEmpty",
                None,
                owned("Window title is empty"),
            ),
            empty_detail,
            guidance,
        )
    } else {
        probe(
            true,
            localized_text(
                "platformSelfTest.summary.windowTitleOk",
                None,
                owned("Window title capture OK"),
            ),
            localized_text(
                "platformSelfTest.detail.windowTitleCurrent",
                Some(json_param("processTitle", title)),
                owned(title),
            ),
            guidance,
        )
    }
}

/// Media capture worked: what plays, or a hint to start playback.
pub fn media_ok_probe(info: &MediaInfo, retry_hint: Option<&str>) -> (r: PlatformProbeResult)
    ensures
        media_probe_is(
            r,
            *info,
            match retry_hint {
                Some(h) => Some(h@),
                None => None,
            },
        ),
        probe_params_are(
            r,
            if media_is_playing(*info) && !media_is_empty(*info) {
                Some(json_object_param("mediaSummary"@, media_summary(*info)))
            } else {
                None
            },
        ),
{
    if info.is_active() {
        let summary = info.summary();
        let r = probe(
            true,
            localized_text("platformSelfTest.summary.mediaOk", None, owned("Media capture OK")),
            localized_text(
                "platformSelfTest.detail.mediaCurrent",
                Some(json_param("mediaSummary", summary.as_str())),
                summary,
            ),
            Vec::new(),
        );
        assert(texts_view(Seq::<ProbeTextSpec>::empty()) =~= Seq::empty());
        r
    } else {
        let mut guidance: Vec<ProbeTextSpec> = Vec::new();
        if let Some(h) = retry_hint {
            guidance.push(
                localized_text("platformSelfTest.guidance.playMediaThenRetry", None, owned(h)),
            );
        }
        let ghost g = guidance@;
        let r = probe(
            true,
            localized_text(
                "platformSelfTest.summary.mediaNone",
                None,
                owned("No media is currently playing"),
            ),
            localized_text(
                "platformSelfTest.detail.mediaNone",
                None,
                owned("No now-playing media information is currently available."),
            ),
            guidance,
        );
        assert(texts_view(g) =~= match retry_hint {
            Some(h) => seq![(Some("platformSelfTest.guidance.playMediaThenRetry"@), h@)],
            None => Seq::empty(),
        });
        r
    }
}

} // verus!
