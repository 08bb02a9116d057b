use activityping::platform::images::{decode_base64_image_payload, decode_inline_data_url};
use activityping::platform::linux::{linux_detail, linux_guidance, linux_self_test};
use activityping::platform::macos::{
    adapter_args, adapter_output_is_empty, adapter_parse_error, build_media_info,
    bundle_display_name, bundle_icon_from_base64, decode_artwork, finish_now_playing,
    macos_foreground_snapshot, media_from_failed_adapter, media_from_failed_nowplaying_cli,
    micros_to_ms, normalize_optional_str,
    normalize_playback_state, normalize_text, output_reports_no_media, resolve_position_ms,
    resolve_source_app_id, source_icon_candidates, finish_nowplaying_cli, nowplaying_cli_media,
    MediaRemoteAdapterError, NowPlayingCliError, NowPlayingCliRaw, RawNowPlayingInfo,
    nowplaying_cli_candidates, nowplaying_cli_search_step, CliSearchStep, CommandAttempt,
};
use activityping::platform::windows::{
    bgra_to_rgba, icon_artwork, icon_png_from_bgra, matches_process_candidate,
    process_name_candidates, read_media_timeline, utf16z_to_string, windows_foreground_snapshot,
    windows_media_info, windows_self_test, windows_timespan_to_millis, SOURCE_ICON_SIZE,
};
use activityping::platform::{ForegroundSnapshot, MediaCaptureOptions, MediaInfo};

const PNG_MAGIC: [u8; 8] = [0x89, b'P', b'N', b'G', 0x0D, 0x0A, 0x1A, 0x0A];

fn raw() -> RawNowPlayingInfo {
    RawNowPlayingInfo {
        bundle_identifier: None,
        parent_application_bundle_identifier: None,
        playing: None,
        title: None,
        artist: None,
        album: None,
        duration_micros: None,
        elapsed_time_micros: None,
        elapsed_time_now_micros: None,
        playback_rate_positive: None,
        artwork_data: None,
        artwork_mime_type: None,
    }
}

#[test]
fn base64_payloads_and_data_urls() {
    assert_eq!(decode_base64_image_payload("iVBORw0KGgo="), Some(PNG_MAGIC.to_vec()));
    assert_eq!(
        decode_base64_image_payload("data:image/png;base64,iVBORw0KGgo="),
        Some(PNG_MAGIC.to_vec())
    );
    assert_eq!(decode_base64_image_payload("not base64!"), None);
    let a = decode_inline_data_url("data:image/png;base64,iVBORw0KGgo=").unwrap();
    assert_eq!(a.content_type, "image/png");
    assert_eq!(a.bytes, PNG_MAGIC.to_vec());
    assert!(decode_inline_data_url("https://example.com/a.png").is_none());
}

#[test]
fn macos_texts_and_state() {
    assert_eq!(normalize_optional_str(Some("  Song ")), Some("Song".into()));
    assert_eq!(normalize_optional_str(Some(" NULL ")), None);
    assert_eq!(normalize_optional_str(None), None);
    assert_eq!(normalize_text(&Some("null".into())), "");
    assert_eq!(normalize_playback_state(Some(false), Some(true), "", "", ""), "paused");
    assert_eq!(normalize_playback_state(None, Some(true), "", "", ""), "playing");
    assert_eq!(normalize_playback_state(None, None, "t", "", ""), "playing");
    assert_eq!(normalize_playback_state(None, None, "", "", ""), "");
    assert_eq!(micros_to_ms(Some(2_500_999)), Some(2500));
    assert_eq!(micros_to_ms(Some(-1)), None);
    let mut r = raw();
    r.elapsed_time_micros = Some(4_000_000);
    assert_eq!(resolve_position_ms(&r), Some(4000));
    r.elapsed_time_now_micros = Some(5_000_000);
    assert_eq!(resolve_position_ms(&r), Some(5000));
}

#[test]
fn macos_source_ids_and_artwork() {
    let mut r = raw();
    r.bundle_identifier = Some(" com.spotify.client ".into());
    r.parent_application_bundle_identifier = Some("com.apple.Safari".into());
    assert_eq!(resolve_source_app_id(&r), "com.spotify.client");
    assert_eq!(source_icon_candidates(&r), vec!["com.spotify.client", "com.apple.Safari"]);
    r.bundle_identifier = Some("null".into());
    assert_eq!(resolve_source_app_id(&r), "com.apple.Safari");

    let a = decode_artwork(Some("iVBORw0KGgo="), Some(" image/x-custom ")).unwrap();
    assert_eq!(a.content_type, "image/x-custom");
    let a = decode_artwork(Some("iVBORw0KGgo="), Some("application/octet-stream")).unwrap();
    assert_eq!(a.content_type, "image/png");
    assert!(decode_artwork(Some("AAAA"), None).is_none());
    assert!(decode_artwork(None, Some("image/png")).is_none());
}

#[test]
fn macos_media_from_the_adapter() {
    let mut r = raw();
    r.title = Some(" Song ".into());
    r.artist = Some("null".into());
    r.playing = Some(true);
    r.duration_micros = Some(180_000_000);
    r.artwork_data = Some("iVBORw0KGgo=".into());
    let m = build_media_info(
        &r,
        MediaCaptureOptions { include_artwork: false, include_source_icon: false },
        None,
    );
    assert_eq!(m.title, "Song");
    assert_eq!(m.artist, "");
    assert_eq!(m.playback_state, "playing");
    assert_eq!(m.duration_ms, Some(180_000));
    assert!(m.artwork.is_none());
    let m = build_media_info(&r, MediaCaptureOptions::with_assets(), None);
    assert!(m.artwork.is_some());
}

#[test]
fn macos_adapter_outcomes() {
    assert!(output_reports_no_media("", "Nothing is playing"));
    assert!(output_reports_no_media("NULL", ""));
    assert!(!output_reports_no_media("", "permission denied"));
    assert!(media_from_failed_adapter("null", "").unwrap().title.is_empty());
    match media_from_failed_adapter("  \nfirst out", "\n  \n") {
        Err(MediaRemoteAdapterError::Failed(d)) => assert_eq!(d, "first out"),
        _ => panic!("expected a failure"),
    }
    match media_from_failed_adapter("", "") {
        Err(MediaRemoteAdapterError::Failed(d)) => assert_eq!(d, "Unknown error"),
        _ => panic!("expected a failure"),
    }
    assert!(adapter_output_is_empty(" null "));
    assert!(!adapter_output_is_empty("{}"));
    assert_eq!(
        adapter_parse_error("eof").into_user_message(),
        "mediaremote-adapter returned an error: Failed to parse output: eof"
    );
    assert_eq!(
        MediaRemoteAdapterError::TimedOut.into_user_message(),
        "mediaremote-adapter timed out (>5000ms)."
    );
    assert_eq!(
        MediaRemoteAdapterError::NotFound { path: "/bin".into(), attempted: vec!["a".into(), "b".into()] }
            .into_user_message(),
        "Failed to run mediaremote-adapter: the script or framework was not found in the resource directory. Tried: a, b. PATH=/bin"
    );
    assert_eq!(
        adapter_args("s.pl", "F.framework", false),
        vec!["s.pl", "F.framework", "get", "--now", "--micros", "--no-artwork"]
    );
    assert_eq!(adapter_args("s", "f", true).len(), 5);
    assert_eq!(
        finish_now_playing(Err(MediaRemoteAdapterError::Failed("x".into()))).err(),
        Some("mediaremote-adapter returned an error: x".into())
    );
    let blank = finish_now_playing(Ok(MediaInfo { title: "  ".into(), playback_state: "playing".into(), ..MediaInfo::default() }))
        .unwrap();
    assert!(blank.playback_state.is_empty());
}

#[test]
fn macos_foreground_and_bundles() {
    let s = macos_foreground_snapshot(Some("Finder".into()), None).unwrap();
    assert_eq!(s.process_name, "Finder");
    assert_eq!(s.process_title, "");
    assert_eq!(
        macos_foreground_snapshot(Some("  ".into()), Some("t".into())).err(),
        Some("Failed to read the macOS foreground app.".into())
    );
    assert_eq!(bundle_display_name(Some(" Music ".into())), Some("Music".into()));
    assert_eq!(bundle_display_name(Some(" ".into())), None);
    let icon = bundle_icon_from_base64(Some("iVBORw0KGgo=".into())).unwrap();
    assert_eq!(icon.content_type, "image/png");
    assert_eq!(icon.bytes, PNG_MAGIC.to_vec());
    assert!(bundle_icon_from_base64(Some("%%%".into())).is_none());
}

#[test]
fn windows_timeline() {
    assert_eq!(windows_timespan_to_millis(12_345_678), Some(1234));
    assert_eq!(windows_timespan_to_millis(-1), None);
    assert_eq!(read_media_timeline(None), (None, None));
    assert_eq!(
        read_media_timeline(Some((Some(0), Some(2_000_000_000), Some(500_000_000)))),
        (Some(200_000), Some(50_000))
    );
    assert_eq!(
        read_media_timeline(Some((Some(0), Some(2_000_000_000), Some(3_000_000_000)))),
        (Some(200_000), Some(200_000))
    );
    assert_eq!(read_media_timeline(Some((None, None, None))), (None, None));
}

#[test]
fn windows_media_and_processes() {
    let m = windows_media_info(
        "Song".into(),
        "".into(),
        "".into(),
        "Spotify.exe".into(),
        false,
        (Some(10), Some(5)),
        None,
        None,
    );
    assert_eq!(m.playback_state, "paused");
    assert_eq!(m.position_ms, Some(5));
    let blank = windows_media_info(" ".into(), "".into(), "".into(), "x".into(), true, (Some(1), None), None, None);
    assert!(blank.source_app_id.is_empty() && blank.duration_ms.is_none());

    assert_eq!(
        process_name_candidates("Microsoft.ZuneMusic_8wekyb3d8bbwe!Microsoft.ZuneMusic"),
        vec!["Microsoft.ZuneMusic", "ZuneMusic", "Microsoft.ZuneMusic.exe", "ZuneMusic.exe"]
    );
    let c = process_name_candidates(" Spotify.exe ");
    assert_eq!(c, vec!["Spotify.exe", "exe", "exe.exe"]);
    assert!(matches_process_candidate("SPOTIFY.EXE", &c));
    assert!(!matches_process_candidate("chrome.exe", &c));
}

#[test]
fn windows_text_and_icons() {
    assert_eq!(utf16z_to_string(&[72, 105, 0, 65]), "Hi");
    assert_eq!(utf16z_to_string(&[72, 105]), "Hi");
    assert_eq!(utf16z_to_string(&[0xD800, 0]), "\u{FFFD}");
    assert_eq!(utf16z_to_string(&[0xD83D, 0xDE00, 0x41, 0]), "\u{1F600}A");
    assert_eq!(utf16z_to_string(&[0xD83D, 0x41, 0xDC00, 0]), "\u{FFFD}A\u{FFFD}");
    assert_eq!(bgra_to_rgba(vec![1, 2, 3, 4, 5, 6, 7, 8]), vec![3, 2, 1, 4, 7, 6, 5, 8]);
    let side = SOURCE_ICON_SIZE as usize;
    let png = icon_png_from_bgra(vec![0u8; side * side * 4]).unwrap();
    assert_eq!(&png[..8], &PNG_MAGIC);
    assert!(png.len() > 8);
    let art = icon_artwork(Ok(png.clone())).unwrap();
    assert_eq!(art.content_type, "image/png");
    assert!(icon_artwork(Ok(Vec::new())).is_none());
    assert!(icon_artwork(Err("x".into())).is_none());
}

#[test]
fn windows_foreground() {
    let s = windows_foreground_snapshot(true, true, true, "Doc".into(), 42, Err("denied".into())).unwrap();
    assert_eq!(s.process_name, "unknown");
    assert_eq!(s.process_title, "Doc");
    assert_eq!(
        windows_foreground_snapshot(false, true, false, String::new(), 1, Ok("a".into())).err(),
        Some("Failed to read the foreground window: GetForegroundWindow returned a null handle.".into())
    );
    assert_eq!(
        windows_foreground_snapshot(true, true, false, String::new(), 0, Ok("a".into())).err(),
        Some("Failed to read the foreground window: could not resolve the foreground process ID.".into())
    );
    let s = windows_foreground_snapshot(false, false, false, "x".into(), 0, Ok("a".into())).unwrap();
    assert!(s.process_name.is_empty() && s.process_title.is_empty());
}

#[test]
fn self_tests() {
    let fg = ForegroundSnapshot { process_name: "Code.exe".into(), process_title: "main.rs".into() };
    let r = windows_self_test(Ok(fg.clone()), Ok(fg.clone()), Ok(MediaInfo::default()));
    assert_eq!(r.platform, "windows");
    assert!(r.foreground.success);
    assert_eq!(r.foreground.detail, "Current foreground app: Code.exe");
    assert!(r.window_title.success);
    assert!(r.media.success);
    let r = windows_self_test(Err("boom".into()), Err("nope".into()), Err("bad".into()));
    assert!(!r.foreground.success && !r.window_title.success && !r.media.success);
    assert_eq!(r.foreground.detail, "boom");
    assert_eq!(r.foreground.summary_key.as_deref(), Some("platformSelfTest.summary.foregroundFailed"));

    let r = linux_self_test(Err("xprop: not found".into()), Ok(fg), Err("Failed to run playerctl".into()));
    assert_eq!(r.platform, "linux");
    assert!(!r.foreground.success);
    assert_eq!(
        r.foreground.detail_key.as_deref(),
        Some("platformSelfTest.detail.linuxForegroundXpropMissing")
    );
    assert_eq!(
        r.media.detail_key.as_deref(),
        Some("platformSelfTest.detail.linuxMediaPlayerctlMissing")
    );

    let d = linux_detail("GDBus call failed", "foreground");
    assert_eq!(d.key, Some("platformSelfTest.detail.linuxForegroundGnomeSupportMissing"));
    assert_eq!(d.fallback, "GDBus call failed");
    let g = linux_guidance("XPROP missing", "window");
    assert_eq!(g.len(), 1);
    assert_eq!(g[0].key, Some("platformSelfTest.guidance.linuxInstallXprop"));
}

#[test]
fn nowplaying_cli_results() {
    assert!(media_from_failed_nowplaying_cli("", "No now playing item").unwrap().title.is_empty());
    match media_from_failed_nowplaying_cli("", "  \n boom \n") {
        Err(NowPlayingCliError::Failed(d)) => assert_eq!(d, "boom"),
        _ => panic!("expected a failure"),
    }
    let raw = NowPlayingCliRaw {
        title: Some(" Song ".into()),
        artist: Some("NULL".into()),
        album: None,
        client_bundle_identifier: None,
        duration_ms: Some(0),
        elapsed_ms: Some(1200),
        playback_rate_positive: None,
    };
    let m = nowplaying_cli_media(&raw, None);
    assert_eq!(m.title, "Song");
    assert_eq!(m.artist, "");
    assert_eq!(m.source_app_id, "nowplaying-cli");
    assert_eq!(m.playback_state, "playing");
    assert_eq!(m.duration_ms, None);
    assert_eq!(m.position_ms, Some(1200));
    assert!(finish_nowplaying_cli(Err(NowPlayingCliError::TimedOut)).unwrap().title.is_empty());
    assert_eq!(
        finish_nowplaying_cli(Err(NowPlayingCliError::Failed("x".into()))).err(),
        Some("nowplaying-cli returned an error: x".into())
    );
}

#[test]
fn self_test_texts_for_empty_title_and_idle_media() {
    let fg = ForegroundSnapshot { process_name: "Code.exe".into(), process_title: "  ".into() };
    let r = windows_self_test(Ok(fg.clone()), Ok(fg.clone()), Ok(MediaInfo::default()));
    assert!(!r.window_title.success);
    assert_eq!(r.window_title.summary, "Window title is empty");
    assert_eq!(r.window_title.detail, "The current foreground window has no usable title.");
    assert_eq!(r.media.summary, "No media is currently playing");
    assert!(r.media.guidance.is_empty());
    let r = linux_self_test(Ok(fg.clone()), Ok(fg), Ok(MediaInfo::default()));
    assert_eq!(r.media.guidance_entries.len(), 1);
    assert_eq!(
        r.media.guidance[0],
        "To validate media capture, start audio or video playback first and retry."
    );
    let playing = MediaInfo { title: "Song".into(), artist: "Band".into(), playback_state: "playing".into(), ..MediaInfo::default() };
    let fg = ForegroundSnapshot { process_name: "a".into(), process_title: "t".into() };
    let r = windows_self_test(Ok(fg.clone()), Ok(fg), Ok(playing));
    assert_eq!(r.media.summary, "Media capture OK");
    assert_eq!(r.media.detail, "Song / Band");
    assert_eq!(r.window_title.detail, "t");
}

#[test]
fn nowplaying_cli_search_tries_each_location_then_reports_them() {
    assert_eq!(
        nowplaying_cli_candidates(),
        vec![
            "nowplaying-cli".to_string(),
            "/opt/homebrew/bin/nowplaying-cli".to_string(),
            "/usr/local/bin/nowplaying-cli".to_string(),
        ]
    );
    assert!(matches!(
        nowplaying_cli_search_step(0, CommandAttempt::Ran, "/bin"),
        CliSearchStep::UseOutput
    ));
    assert!(matches!(
        nowplaying_cli_search_step(0, CommandAttempt::NotFound, "/bin"),
        CliSearchStep::TryCandidate(1)
    ));
    assert!(matches!(
        nowplaying_cli_search_step(1, CommandAttempt::NotFound, "/bin"),
        CliSearchStep::TryCandidate(2)
    ));
    match nowplaying_cli_search_step(2, CommandAttempt::NotFound, "/usr/bin:/bin") {
        CliSearchStep::Stop(e) => assert_eq!(
            e.into_user_message(),
            "Failed to run nowplaying-cli: executable not found in PATH or common Homebrew locations. Tried: nowplaying-cli, /opt/homebrew/bin/nowplaying-cli, /usr/local/bin/nowplaying-cli. PATH=/usr/bin:/bin"
        ),
        _ => panic!("expected the search to stop"),
    }
    assert!(matches!(
        nowplaying_cli_search_step(1, CommandAttempt::TimedOut, "/bin"),
        CliSearchStep::Stop(NowPlayingCliError::TimedOut)
    ));
    match nowplaying_cli_search_step(0, CommandAttempt::Failed("denied".into()), "/bin") {
        CliSearchStep::Stop(NowPlayingCliError::Failed(d)) => assert_eq!(d, "denied"),
        _ => panic!("expected a failure"),
    }
}

fn one_member(key: &str, value: &str) -> serde_json::Value {
    serde_json::Value::from_iter([(key.to_string(), serde_json::Value::String(value.to_string()))])
}

#[test]
fn self_test_probes_carry_their_json_parameters() {
    let fg = ForegroundSnapshot {
        process_name: "Code".into(),
        process_title: "main.rs".into(),
    };
    let media = MediaInfo {
        title: "Song".into(),
        artist: "Singer".into(),
        playback_state: "playing".into(),
        ..MediaInfo::default()
    };
    let r = windows_self_test(Ok(fg.clone()), Ok(fg.clone()), Ok(media.clone()));
    assert!(r.foreground.summary_params.is_none());
    assert_eq!(r.foreground.detail_params, Some(one_member("processName", "Code")));
    assert_eq!(r.window_title.detail_params, Some(one_member("processTitle", "main.rs")));
    assert_eq!(r.media.detail_params, Some(one_member("mediaSummary", &media.summary())));
    assert!(r.media.guidance_entries.iter().all(|e| e.params.is_none()));

    let blank = ForegroundSnapshot {
        process_name: "Code".into(),
        process_title: "  ".into(),
    };
    let r = linux_self_test(Err("xprop: not found".into()), Ok(blank), Ok(MediaInfo::default()));
    assert!(r.foreground.detail_params.is_none());
    assert!(r.foreground.guidance_entries.iter().all(|e| e.params.is_none()));
    assert!(r.window_title.detail_params.is_none());
    assert!(r.media.detail_params.is_none());
}
