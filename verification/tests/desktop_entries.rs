use activityping::platform::linux_desktop::{
    best_desktop_entry, build_linux_source_match_keys, desktop_exec_basename, first_best,
    icon_content_type, is_supported_raster_icon, normalize_linux_id, parse_i32,
    parse_icon_size_component, parse_linux_desktop_entry, score_icon_path, score_icon_size,
    score_linux_desktop_entry, split_pieces, themed_icon_lookup_name, unix_file_stem,
    LinuxDesktopEntry, Separators,
};

fn entry(stem: &str, name: &str) -> LinuxDesktopEntry {
    LinuxDesktopEntry {
        file_stem: stem.into(),
        name: name.into(),
        icon: "icon".into(),
        exec_command: String::new(),
        startup_wm_class: String::new(),
    }
}

#[test]
fn ids_are_lower_cased_alphanumerics_without_suffix() {
    assert_eq!(normalize_linux_id("  Org.Gnome.Nautilus.desktop "), "orggnomenautilus");
    assert_eq!(normalize_linux_id("Spotify.EXE"), "spotify");
    assert_eq!(normalize_linux_id("my-app.app"), "myapp");
    assert_eq!(normalize_linux_id("   "), "");
}

#[test]
fn match_keys_cover_the_id_and_its_parts() {
    let mut keys = build_linux_source_match_keys("org.mozilla.firefox");
    keys.sort();
    assert_eq!(keys, vec!["firefox", "mozilla", "org", "orgmozillafirefox"]);
    let mut keys = build_linux_source_match_keys("/usr/bin/Code_Insiders");
    keys.sort();
    assert_eq!(keys, vec!["code", "codeinsiders", "insiders", "usrbincodeinsiders"]);
    assert!(build_linux_source_match_keys("  ").is_empty());
}

#[test]
fn desktop_file_fields() {
    let content = "# comment\n[Desktop Entry]\nName = Firefox \nIcon=firefox\nExec=/usr/lib/firefox/firefox %u\nName=Ignored\n[Desktop Action new]\nStartupWMClass=late\n";
    let e = parse_linux_desktop_entry(content, "firefox".into()).unwrap();
    assert_eq!(e.file_stem, "firefox");
    assert_eq!(e.name, "Firefox");
    assert_eq!(e.icon, "firefox");
    assert_eq!(e.exec_command, "/usr/lib/firefox/firefox %u");
    assert_eq!(e.startup_wm_class, "");
    assert!(parse_linux_desktop_entry("[Desktop Entry]\nName=NoIcon\n", "x".into()).is_none());
    assert!(parse_linux_desktop_entry("[Other]\nIcon=hidden\n", "x".into()).is_none());
}

#[test]
fn exec_and_path_stems() {
    assert_eq!(desktop_exec_basename("\"/opt/My App/app.bin\" --x"), "app");
    assert_eq!(desktop_exec_basename("/usr/bin/code --new-window %F"), "code");
    assert_eq!(desktop_exec_basename("  "), "");
    assert_eq!(unix_file_stem("/usr/share/applications/code.desktop"), Some("code".into()));
    assert_eq!(unix_file_stem("archive.tar.gz"), Some("archive.tar".into()));
}

#[test]
fn entry_scores() {
    let keys = vec!["firefox".to_string()];
    assert_eq!(score_linux_desktop_entry(&entry("firefox", ""), &keys), 130);
    assert_eq!(score_linux_desktop_entry(&entry("firefoxesr", ""), &keys), 80);
    assert_eq!(score_linux_desktop_entry(&entry("other", "Firefox"), &keys), 80);
    assert_eq!(score_linux_desktop_entry(&entry("other", "thing"), &keys), 0);
    let entries = vec![entry("other", "thing"), entry("firefoxesr", ""), entry("firefox", ""), entry("firefox", "")];
    assert_eq!(best_desktop_entry(&entries, &keys), Some(2));
    assert_eq!(best_desktop_entry(&vec![entry("a", "b")], &keys), None);
}

#[test]
fn integers_and_icon_sizes() {
    assert_eq!(parse_i32("-12"), Some(-12));
    assert_eq!(parse_i32("+7"), Some(7));
    assert_eq!(parse_i32("-+1"), None);
    assert_eq!(parse_i32("2147483647"), Some(i32::MAX));
    assert_eq!(parse_i32("2147483648"), None);
    assert_eq!(parse_i32("-2147483648"), Some(i32::MIN));
    assert_eq!(parse_i32(""), None);
    assert_eq!(parse_icon_size_component("48x32"), Some(32));
    assert_eq!(parse_icon_size_component("256x256@2"), None);
    assert_eq!(parse_icon_size_component("scalable"), None);
    assert_eq!(score_icon_size(128), 250);
    assert_eq!(score_icon_size(48), 170);
    assert_eq!(score_icon_size(256), 320);
    let names = vec!["hicolor".to_string(), "128x128".to_string(), "apps".to_string()];
    assert_eq!(score_icon_path("PNG", &names), 280);
    assert_eq!(score_icon_path("svg", &vec!["scalable".to_string()]), 0);
}

#[test]
fn icon_types_and_names() {
    assert!(is_supported_raster_icon("PNG"));
    assert!(is_supported_raster_icon("jpeg"));
    assert!(!is_supported_raster_icon("svg"));
    assert_eq!(icon_content_type("JPG"), Some("image/jpeg"));
    assert_eq!(icon_content_type("png"), Some("image/png"));
    assert_eq!(icon_content_type("xpm"), None);
    assert_eq!(themed_icon_lookup_name(" Code.svg "), Some("code".into()));
    assert_eq!(themed_icon_lookup_name("a.png.svg"), Some("a".into()));
    assert_eq!(themed_icon_lookup_name("  "), None);
    assert_eq!(first_best(&vec![1, 5, 5, 2]), Some(1));
    assert_eq!(first_best(&vec![]), None);
}

#[test]
fn splitting() {
    assert_eq!(split_pieces("a/b/c", Separators::Slash), vec!["a", "b", "c"]);
    assert_eq!(split_pieces("", Separators::Slash), vec![""]);
}
