use activityping::models::{AppMessageTitleRule, AppTitleRuleMode};
use activityping::platform::MediaInfo;
use activityping::rules::helpers::{first_non_empty, join_non_empty, normalize_process_name};
use activityping::rules::message_rules::{matches_title_rule, render_rule_text};
use activityping::rules::templates::{render_discord_template, DiscordTemplateValues};
use activityping::text::{
    contains_str, decimal_string, ends_with_str, eq_ignore_case_ascii, is_blank, join_strings,
    non_empty, parse_unsigned_exec, replace_str, split_lines, starts_with_str, to_ascii_lowercase,
    trim_edges, trim_string,
};

fn rule(mode: AppTitleRuleMode, pattern: &str) -> AppMessageTitleRule {
    AppMessageTitleRule { mode, pattern: pattern.into(), ..AppMessageTitleRule::default() }
}

fn values() -> DiscordTemplateValues {
    let media = MediaInfo {
        title: "Song".into(),
        artist: "Band".into(),
        album: "".into(),
        ..MediaInfo::default()
    };
    DiscordTemplateValues::new("Coding", "ctx", "Code", "main.rs", "rule text", &media, "spotify", true)
}

#[test]
fn trimming() {
    assert_eq!(trim_string("\u{3000} a b \u{a0}"), "a b");
    assert_eq!(trim_edges(" | a - b · ", true), "a - b");
    assert_eq!(trim_edges(" | a ", false), "| a");
    assert!(is_blank(" \t\n"));
    assert_eq!(non_empty("  x "), Some("x".into()));
    assert_eq!(non_empty("   "), None);
}

#[test]
fn searching_and_case() {
    assert!(contains_str("hello world", "o w"));
    assert!(!contains_str("hello", "world"));
    assert!(contains_str("abc", ""));
    assert!(starts_with_str("tray_show", "tray_"));
    assert!(ends_with_str("app.EXE", ".EXE"));
    assert!(eq_ignore_case_ascii("SpOtIfY", "spotify"));
    assert_eq!(to_ascii_lowercase("ÄBC"), "Äbc");
    assert_eq!(normalize_process_name("  Ärger.EXE "), "ärger.exe");
}

#[test]
fn joining_replacing_and_numbers() {
    assert_eq!(join_strings(&vec!["a".into(), "b".into(), "c".into()], ", "), "a, b, c");
    assert_eq!(join_strings(&vec![], ", "), "");
    assert_eq!(replace_str("a{x}b{x}", "{x}", "--"), "a--b--");
    assert_eq!(replace_str("aaa", "aa", "b"), "ba");
    assert_eq!(decimal_string(0), "0");
    assert_eq!(decimal_string(1234567890123), "1234567890123");
    assert_eq!(decimal_string(u64::MAX), "18446744073709551615");
    assert_eq!(parse_unsigned_exec("+42", 100), Some(42));
    assert_eq!(parse_unsigned_exec("101", 100), None);
    assert_eq!(parse_unsigned_exec("", 100), None);
    assert_eq!(parse_unsigned_exec("4a", 100), None);
}

#[test]
fn lines() {
    assert_eq!(split_lines("a\r\nb\n\nc"), vec!["a", "b", "", "c"]);
    assert_eq!(split_lines("a\n"), vec!["a"]);
    assert_eq!(split_lines(""), Vec::<String>::new());
}

#[test]
fn first_and_joined_parts() {
    assert_eq!(first_non_empty(&["  ", " b ", "c"]), Some("b".into()));
    assert_eq!(first_non_empty(&[" "]), None);
    assert_eq!(join_non_empty(&["a", " ", " b "]), Some("a · b".into()));
    assert_eq!(join_non_empty(&["", "  "]), None);
}

#[test]
fn templates() {
    let v = values();
    assert_eq!(
        render_discord_template("{activity} | {app} - {title}", &v),
        Some("Coding | Code - main.rs".into())
    );
    assert_eq!(render_discord_template("{ song } by {artist}", &v), Some("Song by Band".into()));
    assert_eq!(render_discord_template("{media}", &v), Some("Song / Band".into()));
    assert_eq!(render_discord_template("{process}", &v), Some("Code".into()));
    assert_eq!(render_discord_template("{unknown} x", &v), Some("{unknown} x".into()));
    assert_eq!(render_discord_template("x {open", &v), Some("x {open".into()));
    assert_eq!(render_discord_template(" {album} - ", &v), Some("".into()));
    assert_eq!(render_discord_template("   ", &v), None);
}

#[test]
fn title_rules() {
    assert!(matches_title_rule(Some("GitHub - Mozilla Firefox"), &rule(AppTitleRuleMode::Plain, " github ")));
    assert!(!matches_title_rule(Some("GitLab"), &rule(AppTitleRuleMode::Plain, "github")));
    assert!(matches_title_rule(Some("Issue #42 - Tracker"), &rule(AppTitleRuleMode::Regex, r"^issue #\d+")));
    assert!(!matches_title_rule(Some("Pull 42"), &rule(AppTitleRuleMode::Regex, r"^issue")));
    assert!(!matches_title_rule(Some("anything"), &rule(AppTitleRuleMode::Regex, "(unclosed")));
    assert!(!matches_title_rule(None, &rule(AppTitleRuleMode::Plain, "")));
    assert!(!matches_title_rule(Some("  "), &rule(AppTitleRuleMode::Plain, "")));
    assert_eq!(
        render_rule_text("  {process}: {title} ", "Code", Some("main.rs")),
        "Code: main.rs"
    );
    assert_eq!(render_rule_text("{title}!", "Code", None), "!");
}
