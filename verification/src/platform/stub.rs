//! Capture on a platform without support: nothing is captured and the
//! self-test reports every channel as unsupported.
use super::{
    build_self_test_result, localized_text, make_probe, platform_name_spec, ForegroundSnapshot,
    MediaArtwork, MediaInfo, PlatformSelfTestResult, is_blank_media,
};
use super::self_test::probe_params_are;
use crate::text::owned;
use vstd::prelude::*;

verus! {

pub fn get_foreground_snapshot() -> (r: Result<ForegroundSnapshot, String>)
    ensures
        r matches Err(e) && e@ == "Realtime capture is not supported on this platform."@,
{
    Err(owned("Realtime capture is not supported on this platform."))
}

pub fn get_foreground_snapshot_for_reporting(
    _include_process_name: bool,
    _include_process_title: bool,
) -> (r: Result<ForegroundSnapshot, String>)
    ensures
        r matches Ok(s) && s.process_name@.len() == 0 && s.process_title@.len() == 0,
{
    Ok(ForegroundSnapshot::empty())
}

pub fn get_now_playing() -> (r: Result<MediaInfo, String>)
    ensures
        r matches Ok(m) && is_blank_media(m),
{
    Ok(MediaInfo::default())
}

pub fn get_foreground_app_icon() -> (r: Result<Option<MediaArtwork>, String>)
    ensures
        r matches Ok(icon) && icon is None,
{
    Ok(None)
}

pub fn run_self_test() -> (r: PlatformSelfTestResult)
    ensures
        r.platform@ == platform_name_spec("unsupported"@),
        !r.foreground.success && !r.window_title.success && !r.media.success,
        r.foreground.summary@ == "Foreground app capture is unsupported"@,
        r.window_title.summary@ == "Window title capture is unsupported"@,
        r.media.summary@ == "Media capture is unsupported"@,
        r.foreground.detail@ == "Realtime capture is not supported on this platform."@,
        r.window_title.detail@ == "Realtime capture is not supported on this platform."@,
        r.media.detail@ == "Realtime capture is not supported on this platform."@,
        r.foreground.summary_key.deep_view() == Some("platformSelfTest.summary.foregroundFailed"@),
        r.window_title.summary_key.deep_view() == Some("platformSelfTest.summary.windowTitleFailed"@),
        r.media.summary_key.deep_view() == Some("platformSelfTest.summary.mediaFailed"@),
        r.foreground.detail_key.deep_view() == Some("platformSelfTest.detail.unsupportedPlatform"@),
        r.window_title.detail_key.deep_view() == Some("platformSelfTest.detail.unsupportedPlatform"@),
        r.media.detail_key.deep_view() == Some("platformSelfTest.detail.unsupportedPlatform"@),
        r.foreground.guidance@.len() == 0 && r.foreground.guidance_entries@.len() == 0,
        r.window_title.guidance@.len() == 0 && r.window_title.guidance_entries@.len() == 0,
        r.media.guidance@.len() == 0 && r.media.guidance_entries@.len() == 0,
        probe_params_are(r.foreground, None),
        probe_params_are(r.window_title, None),
        probe_params_are(r.media, None),
{
    build_self_test_result(
        "unsupported",
        make_probe(
            false,
            localized_text(
                "platformSelfTest.summary.foregroundFailed",
                None,
                owned("Foreground app capture is unsupported"),
            ),
            localized_text(
                "platformSelfTest.detail.unsupportedPlatform",
                None,
                owned("Realtime capture is not supported on this platform."),
            ),
            Vec::new(),
        ),
        make_probe(
            false,
            localized_text(
                "platformSelfTest.summary.windowTitleFailed",
                None,
                owned("Window title capture is unsupported"),
            ),
            localized_text(
                "platformSelfTest.detail.unsupportedPlatform",
                None,
                owned("Realtime capture is not supported on this platform."),
            ),
            Vec::new(),
        ),
        make_probe(
            false,
            localized_text(
                "platformSelfTest.summary.mediaFailed",
                None,
                owned("Media capture is unsupported"),
            ),
            localized_text(
                "platformSelfTest.detail.unsupportedPlatform",
                None,
                owned("Realtime capture is not supported on this platform."),
            ),
            Vec::new(),
        ),
    )
}

pub fn request_accessibility_permission() -> (r: Result<bool, String>)
    ensures
        r matches Err(e) && e@ == "Accessibility permission requests are not supported on this platform."@,
{
    Err(owned("Accessibility permission requests are not supported on this platform."))
}

} // verus!
