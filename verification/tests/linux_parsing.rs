use activityping::platform::linux::{
    active_window_from_xprop, artwork_from_download, classify_artwork_url, command_error_text,
    command_failure, detect_image_content_type, extract_quoted_values, first_line_trimmed,
    focused_window_snapshot, if_empty, kde_active_window, kde_window_class, linux_media_info,
    media_from_failed_playerctl, needs_fallback, normalize_playback_state,
    parse_active_window_id, parse_gdbus_string_tuple, parse_playerctl_length_ms,
    parse_playerctl_metadata, parse_window_pid, parse_window_title, parse_wm_class,
    playerctl_reports_no_players, position_from_failed_playerctl, process_name_from_comm,
    resolve_linux_foreground, wayland_capture_error, x11_detail_args, x11_snapshot, ArtworkFetch,
    FocusedWindowPayload,
};
use activityping::platform::ForegroundSnapshot;

const PNG: [u8; 8] = [0x89, b'P', b'N', b'G', 0x0D, 0x0A, 0x1A, 0x0A];

fn snap(name: &str) -> ForegroundSnapshot {
    ForegroundSnapshot { process_name: name.into(), process_title: String::new() }
}

#[test]
fn small_text_helpers() {
    assert_eq!(if_empty("  ", "fallback"), "fallback");
    assert_eq!(if_empty("x", "fallback"), "x");
    assert_eq!(command_error_text("out", "  bad thing \n", "fb"), "bad thing");
    assert_eq!(first_line_trimmed("  first \nsecond"), "first");
    assert_eq!(command_failure("Failed: ", "  ", "no output"), "Failed: no output");
    assert_eq!(process_name_from_comm(" firefox\n"), Some("firefox".into()));
    assert_eq!(process_name_from_comm("\n"), None);
}

#[test]
fn playerctl_no_players_is_recognised_in_any_case() {
    assert!(playerctl_reports_no_players("", "No players found"));
    assert!(playerctl_reports_no_players("NO PLAYER COULD HANDLE THIS COMMAND", ""));
    assert!(!playerctl_reports_no_players("", "connection refused"));
    let m = media_from_failed_playerctl("", "No players found").unwrap();
    assert!(m.title.is_empty() && m.playback_state.is_empty());
    match media_from_failed_playerctl("", "  ") {
        Err(e) => assert_eq!(e, "Failed to read media info: playerctl returned an error"),
        Ok(_) => panic!("expected an error"),
    }
    assert_eq!(position_from_failed_playerctl("", "No players found"), Ok(None));
    assert!(position_from_failed_playerctl("", "crash").is_err());
}

#[test]
fn playback_state_and_length() {
    assert_eq!(normalize_playback_state(" Playing "), "playing");
    assert_eq!(normalize_playback_state("PAUSED"), "paused");
    assert_eq!(normalize_playback_state("Stopped"), "stopped");
    assert_eq!(normalize_playback_state("buffering"), "");
    assert_eq!(parse_playerctl_length_ms(" 215000000 "), Some(215000));
    assert_eq!(parse_playerctl_length_ms("999"), Some(0));
    assert_eq!(parse_playerctl_length_ms("0"), None);
    assert_eq!(parse_playerctl_length_ms("-5"), None);
    assert_eq!(parse_playerctl_length_ms(""), None);
}

#[test]
fn metadata_lines_in_order() {
    let meta = parse_playerctl_metadata(
        "Playing\n Song \nArtist\nAlbum\nspotify\n180000000\nhttps://img.example/a.jpg\n",
    );
    assert_eq!(meta.playback_state, "playing");
    assert_eq!(meta.title, "Song");
    assert_eq!(meta.artist, "Artist");
    assert_eq!(meta.album, "Album");
    assert_eq!(meta.source_app_id, "spotify");
    assert_eq!(meta.duration_ms, Some(180000));
    assert_eq!(meta.art_url, "https://img.example/a.jpg");
    let m = linux_media_info(meta, Ok(Some(1500)), None, None);
    assert_eq!(m.title, "Song");
    assert_eq!(m.position_ms, Some(1500));

    let short = parse_playerctl_metadata("Paused\n\n\n");
    assert_eq!(short.playback_state, "paused");
    let m = linux_media_info(short, Ok(Some(3)), None, None);
    assert!(m.playback_state.is_empty());
    assert_eq!(m.position_ms, None);
}

#[test]
fn artwork_urls() {
    assert!(matches!(classify_artwork_url("   "), ArtworkFetch::Skip));
    assert!(matches!(classify_artwork_url("file:///tmp/a.png"), ArtworkFetch::Skip));
    match classify_artwork_url(" https://img.example/a.jpg ") {
        ArtworkFetch::Download(u) => assert_eq!(u, "https://img.example/a.jpg"),
        _ => panic!("expected a download"),
    }
    match classify_artwork_url("data:image/png;base64,iVBORw0KGgo=") {
        ArtworkFetch::Inline(Some(a)) => {
            assert_eq!(a.content_type, "image/png");
            assert_eq!(a.bytes, PNG.to_vec());
        }
        _ => panic!("expected inline artwork"),
    }
    assert!(matches!(
        classify_artwork_url("data:image/png;base64,@@@"),
        ArtworkFetch::Inline(None)
    ));
}

#[test]
fn downloaded_artwork_type() {
    assert!(artwork_from_download(false, None, PNG.to_vec()).is_none());
    assert!(artwork_from_download(true, None, Vec::new()).is_none());
    let a = artwork_from_download(true, Some(" image/webp; charset=x".into()), vec![1, 2]).unwrap();
    assert_eq!(a.content_type, "image/webp");
    let a = artwork_from_download(true, Some("text/html".into()), PNG.to_vec()).unwrap();
    assert_eq!(a.content_type, "image/png");
    let a = artwork_from_download(true, None, vec![1, 2, 3]).unwrap();
    assert_eq!(a.content_type, "image/jpeg");
    assert_eq!(detect_image_content_type(b"GIF89a...."), "image/gif");
    assert_eq!(detect_image_content_type(&[0, 1]), "image/jpeg");
}

#[test]
fn xprop_output() {
    assert_eq!(extract_quoted_values(r#"WM_CLASS(STRING) = "navigator", "Firefox""#), vec![
        "navigator".to_string(),
        "Firefox".to_string()
    ]);
    assert_eq!(extract_quoted_values(r#"a "open"#), Vec::<String>::new());
    let detail = "WM_CLASS(STRING) = \"navigator\", \"Firefox\"\n\
                  _NET_WM_PID(CARDINAL) = 4242\n\
                  WM_NAME(STRING) = \"old\"\n\
                  _NET_WM_NAME(UTF8_STRING) = \"New Tab - Mozilla Firefox\"\n";
    assert_eq!(parse_wm_class(detail), Some("Firefox".into()));
    assert_eq!(parse_wm_class("WM_CLASS(STRING) = \"only\""), Some("only".into()));
    assert_eq!(parse_window_title(detail), Some("New Tab - Mozilla Firefox".into()));
    assert_eq!(parse_window_title("WM_NAME(STRING) = \"plain\""), Some("plain".into()));
    assert_eq!(parse_window_pid(detail), Some(4242));
    assert_eq!(parse_window_pid("_NET_WM_PID(CARDINAL) = x"), None);
    assert_eq!(
        parse_active_window_id("_NET_ACTIVE_WINDOW(WINDOW): window id # 0x3a00007, 0x0"),
        Some("0x3a00007,".into())
    );
    assert_eq!(parse_active_window_id("no hash here"), None);
    assert_eq!(
        active_window_from_xprop("_NET_ACTIVE_WINDOW(WINDOW): window id # 0x1e00003"),
        Ok("0x1e00003".into())
    );
    assert_eq!(
        active_window_from_xprop("_NET_ACTIVE_WINDOW(WINDOW): window id # 0x0"),
        Err("There is no active window.".into())
    );
    assert_eq!(
        active_window_from_xprop("garbage"),
        Err("Failed to parse _NET_ACTIVE_WINDOW.".into())
    );
    assert_eq!(
        x11_detail_args("0x1", true, true),
        vec!["-id", "0x1", "WM_CLASS", "_NET_WM_PID", "_NET_WM_NAME", "WM_NAME"]
    );
    assert_eq!(x11_detail_args("0x1", false, false), vec!["-id", "0x1"]);

    let s = x11_snapshot(detail, true, true, None);
    assert_eq!(s.process_name, "Firefox");
    assert_eq!(s.process_title, "New Tab - Mozilla Firefox");
    let s = x11_snapshot(detail, true, false, Some("firefox-bin".into()));
    assert_eq!(s.process_name, "firefox-bin");
    assert_eq!(s.process_title, "");
}

#[test]
fn gdbus_and_kde() {
    assert_eq!(parse_gdbus_string_tuple(r"('a\tb\n',)"), Some("a\tb\n".into()));
    assert_eq!(parse_gdbus_string_tuple(r#"('{\"k\": 1}',)"#), Some("{\"k\": 1}".into()));
    assert_eq!(parse_gdbus_string_tuple("('it\\'s',)"), Some("it's".into()));
    assert_eq!(parse_gdbus_string_tuple("no quote"), None);
    assert_eq!(parse_gdbus_string_tuple("('unterminated"), None);
    assert_eq!(kde_active_window("0".into()), Err("There is no active window.".into()));
    assert_eq!(kde_active_window("42".into()), Ok("42".into()));
    assert_eq!(
        kde_window_class(String::new()),
        Err("kdotool did not return a window class name.".into())
    );
}

#[test]
fn focused_window_payload() {
    let p = FocusedWindowPayload {
        wm_class_instance: Some("  ".into()),
        wm_class: Some(" Code ".into()),
        app_id: Some("code".into()),
        title: None,
    };
    let s = focused_window_snapshot(&p).unwrap();
    assert_eq!(s.process_name, "Code");
    assert_eq!(s.process_title, "");
    let empty = FocusedWindowPayload { wm_class_instance: None, wm_class: None, app_id: None, title: Some("t".into()) };
    assert_eq!(
        focused_window_snapshot(&empty).err(),
        Some("Focused Window D-Bus did not return a usable window class name.".into())
    );
}

#[test]
fn foreground_fallbacks() {
    assert!(needs_fallback(false, false));
    assert!(needs_fallback(true, true));
    assert!(!needs_fallback(true, false));
    assert_eq!(
        wayland_capture_error("g", "k"),
        "Wayland foreground window capture failed. GNOME Focused Window D-Bus: g; KDE kdotool: k"
    );
    let r = resolve_linux_foreground(false, Err("x".into()), Some(Ok(snap("a"))));
    assert_eq!(r.unwrap().process_name, "a");
    let r = resolve_linux_foreground(false, Err("x".into()), Some(Err("w".into())));
    assert_eq!(r.err(), Some("Failed to read the Linux foreground window. X11: x; Wayland: w".into()));
    let r = resolve_linux_foreground(true, Err("w".into()), Some(Err("x".into())));
    assert_eq!(r.err(), Some("w".into()));
    let r = resolve_linux_foreground(true, Ok(snap("b")), None);
    assert_eq!(r.unwrap().process_name, "b");
}
