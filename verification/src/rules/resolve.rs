//! From one capture to the activity that gets reported.
use super::discord_text::{build_discord_text, discord_text_spec, Lines};
use super::filters::{
    in_process_list, is_media_source_blocked, listed, media_source_blocked_spec,
    passes_app_filter, passes_app_filter_spec,
};
use super::helpers::dot_sep;
use super::message_rules::{
    addons_view, match_message_rule, match_message_rule_spec, rule_match_view, AddonsV,
};
use super::types::{ ResolvedActivity, ResolvedDiscordAddons};
use crate::models::{ClientConfig, DiscordReportMode};
use crate::platform::{media_is_reportable, media_summary, ForegroundSnapshot, MediaInfo};
use crate::text::{join, join_strings, non_empty, non_empty_spec, str_eq, trim, trim_string, views};
use vstd::prelude::*;

verus! {

/// A resolved activity by its views.
pub struct ActivityView {
    pub process_name: Seq<char>,
    pub process_title: Option<Seq<char>>,
    pub media_summary: Option<Seq<char>>,
    pub play_source: Option<Seq<char>>,
    pub status_text: Option<Seq<char>>,
    pub discord_addons: AddonsV,
    pub discord_details: Seq<char>,
    pub discord_state: Option<Seq<char>>,
    pub summary: Seq<char>,
    pub signature: Seq<char>,
}

pub open spec fn activity_view(r: ResolvedActivity) -> ActivityView {
    ActivityView {
        process_name: r.process_name@,
        process_title: r.process_title.deep_view(),
        media_summary: r.media_summary.deep_view(),
        play_source: r.play_source.deep_view(),
        status_text: r.status_text.deep_view(),
        discord_addons: addons_view(r.discord_addons),
        discord_details: r.discord_details@,
        discord_state: r.discord_state.deep_view(),
        summary: r.summary@,
        signature: r.signature@,
    }
}

/// The presence lines as summary parts: details, then the state when there is one.
pub open spec fn lines_parts(lines: Lines) -> Seq<Seq<char>> {
    match lines.1 {
        Some(s) => seq![lines.0, s],
        None => seq![lines.0],
    }
}

/// In Smart mode the signature also carries the app name (when reported) and
/// the media summary, each unless already present, so that a change of either
/// counts as a new activity.
pub open spec fn signature_parts_spec(
    c: ClientConfig,
    process_name: Seq<char>,
    media_summary: Option<Seq<char>>,
    parts: Seq<Seq<char>>,
) -> Seq<Seq<char>> {
    if c.discord_report_mode != DiscordReportMode::Mixed {
        parts
    } else {
        let with_app = if c.report_foreground_app && process_name.len() > 0 && !parts.contains(
            process_name,
        ) {
            parts.push(process_name)
        } else {
            parts
        };
        match media_summary {
            Some(ms) => if !with_app.contains(ms) {
                with_app.push(ms)
            } else {
                with_app
            },
            None => with_app,
        }
    }
}

/// The play source as reported, when source reporting is on and it is non-blank.
pub open spec fn raw_source_spec(c: ClientConfig, m: MediaInfo) -> Option<Seq<char>> {
    if c.report_play_source {
        non_empty_spec(m.source_app_id@)
    } else {
        None
    }
}

/// The media is hidden when its play source is blocked.
pub open spec fn media_hidden_spec(c: ClientConfig, m: MediaInfo) -> bool {
    match raw_source_spec(c, m) {
        Some(s) => media_source_blocked_spec(c, s),
        None => false,
    }
}

pub open spec fn play_source_spec(c: ClientConfig, m: MediaInfo) -> Option<Seq<char>> {
    if c.report_play_source && media_is_reportable(m, c.report_stopped_media)
        && !media_hidden_spec(c, m) {
        raw_source_spec(c, m)
    } else {
        None
    }
}

pub open spec fn media_summary_spec(c: ClientConfig, m: MediaInfo) -> Option<Seq<char>> {
    if c.report_media && media_is_reportable(m, c.report_stopped_media) && !media_hidden_spec(c, m) {
        non_empty_spec(media_summary(m))
    } else {
        None
    }
}

/// The window title that rules may read: none for apps on the name-only list.
pub open spec fn masked_title_spec(c: ClientConfig, snapshot: ForegroundSnapshot) -> Option<Seq<char>> {
    if listed(c.app_name_only_list@, trim(snapshot.process_name@)) {
        None
    } else {
        non_empty_spec(snapshot.process_title@)
    }
}

pub open spec fn matched_spec(c: ClientConfig, snapshot: ForegroundSnapshot) -> Option<(Option<Seq<char>>, AddonsV)> {
    match_message_rule_spec(
        trim(snapshot.process_name@),
        non_empty_spec(snapshot.process_title@),
        masked_title_spec(c, snapshot),
        c.app_message_rules@,
    )
}

pub open spec fn status_spec(c: ClientConfig, snapshot: ForegroundSnapshot) -> Option<Seq<char>> {
    match matched_spec(c, snapshot) {
        Some(x) => x.0,
        None => None,
    }
}

/// The title shown: hidden when a rule supplies the status text.
pub open spec fn display_title_spec(c: ClientConfig, snapshot: ForegroundSnapshot) -> Option<Seq<char>> {
    if status_spec(c, snapshot) is Some {
        None
    } else {
        masked_title_spec(c, snapshot)
    }
}

/// The activity assembled from its parts and the presence lines.
pub open spec fn assemble_spec(
    c: ClientConfig,
    name: Seq<char>,
    display_title: Option<Seq<char>>,
    summary_of_media: Option<Seq<char>>,
    play_source: Option<Seq<char>>,
    status: Option<Seq<char>>,
    addons: AddonsV,
    lines: Lines,
) -> ActivityView {
    ActivityView {
        process_name: name,
        process_title: display_title,
        media_summary: summary_of_media,
        play_source,
        status_text: status,
        discord_addons: addons,
        discord_details: lines.0,
        discord_state: lines.1,
        summary: join(lines_parts(lines), dot_sep()),
        signature: join(signature_parts_spec(c, name, summary_of_media, lines_parts(lines)), dot_sep()),
    }
}

/// The activity for a capture, or `None` when the app filter rejects the
/// process or no presence text results.
pub open spec fn resolve_spec(c: ClientConfig, snapshot: ForegroundSnapshot, m: MediaInfo) -> Option<
    ActivityView,
> {
    let name = trim(snapshot.process_name@);
    if !passes_app_filter_spec(c, name) {
        None
    } else {
        match discord_text_spec(
            c,
            name,
            display_title_spec(c, snapshot),
            m,
            media_hidden_spec(c, m),
            status_spec(c, snapshot),
        ) {
            None => None,
            Some(lines) => Some(
                assemble_spec(
                    c,
                    name,
                    display_title_spec(c, snapshot),
                    media_summary_spec(c, m),
                    play_source_spec(c, m),
                    status_spec(c, snapshot),
                    match matched_spec(c, snapshot) {
                        Some(x) => x.1,
                        None => (Seq::empty(), None, None),
                    },
                    lines,
                ),
            ),
        }
    }
}

fn views_contains(v: &Vec<String>, s: &str) -> (r: bool)
    ensures
        r == views(v@).contains(s@),
{
    let mut i: usize = 0;
    while i < v.len()
        invariant
            i <= v.len(),
            forall|j: int| 0 <= j < i ==> v@[j]@ != s@,
        decreases v.len() - i,
    {
        if str_eq(v[i].as_str(), s) {
            assert(views(v@)[i as int] == s@);
            return true;
        }
        i += 1;
    }
    proof {
        if views(v@).contains(s@) {
            let k = choose|k: int| 0 <= k < views(v@).len() && views(v@)[k] == s@;
            assert(v@[k]@ == s@);
        }
    }
    false
}

fn clone_opt(o: &Option<String>) -> (r: Option<String>)
    ensures
        r.deep_view() == o.deep_view(),
{
    match o {
        Some(s) => Some(s.clone()),
        None => None,
    }
}

fn as_opt_str(o: &Option<String>) -> (r: Option<&str>)
    ensures
        r.deep_view() == o.deep_view(),
{
    match o {
        Some(s) => Some(s.as_str()),
        None => None,
    }
}

/// Media visibility for the capture: (hidden, play source, media summary).
fn media_context(config: &ClientConfig, media: &MediaInfo) -> (r: (bool, Option<String>, Option<String>))
    ensures
        r.0 == media_hidden_spec(*config, *media),
        r.1.deep_view() == play_source_spec(*config, *media),
        r.2.deep_view() == media_summary_spec(*config, *media),
{
    let raw_play_source = if config.report_play_source {
        non_empty(media.source_app_id.as_str())
    } else {
        None
    };
    let media_hidden = match &raw_play_source {
        Some(value) => is_media_source_blocked(config, value.as_str()),
        None => false,
    };
    let media_reportable = media.is_reportable(config.report_stopped_media);
    let play_source = if config.report_play_source && media_reportable && !media_hidden {
        raw_play_source
    } else {
        None
    };
    let media_summary = if config.report_media && media_reportable && !media_hidden {
        let summary = media.summary();
        non_empty(summary.as_str())
    } else {
        None
    };
    (media_hidden, play_source, media_summary)
}

/// Builds the activity from its parts: summary and signature join the lines with " · ".
fn assemble(
    config: &ClientConfig,
    process_name: String,
    display_title: Option<String>,
    media_summary: Option<String>,
    play_source: Option<String>,
    status_text: Option<String>,
    discord_addons: ResolvedDiscordAddons,
    discord_details: String,
    discord_state: Option<String>,
) -> (r: ResolvedActivity)
    ensures
        activity_view(r) == assemble_spec(
            *config,
            process_name@,
            display_title.deep_view(),
            media_summary.deep_view(),
            play_source.deep_view(),
            status_text.deep_view(),
            addons_view(discord_addons),
            (discord_details@, discord_state.deep_view()),
        ),
{
    let mut summary_parts: Vec<String> = Vec::new();
    summary_parts.push(discord_details.clone());
    if let Some(state) = &discord_state {
        summary_parts.push(state.clone());
    }
    let ghost lines: Lines = (discord_details@, discord_state.deep_view());
    assert(views(summary_parts@) =~= lines_parts(lines));
    let summary = join_strings(&summary_parts, " \u{b7} ");
    let mut signature_parts = summary_parts;
    if config.discord_report_mode == DiscordReportMode::Mixed {
        if config.report_foreground_app && !process_name.as_str().is_empty() {
            if !views_contains(&signature_parts, process_name.as_str()) {
                signature_parts.push(process_name.clone());
                assert(views(signature_parts@) =~= lines_parts(lines).push(process_name@));
            }
        }
        let ghost with_app = views(signature_parts@);
        if let Some(ms) = &media_summary {
            if !views_contains(&signature_parts, ms.as_str()) {
                signature_parts.push(ms.clone());
                assert(views(signature_parts@) =~= with_app.push(ms@));
            }
        }
    }
    assert(views(signature_parts@) == signature_parts_spec(
        *config,
        process_name@,
        media_summary.deep_view(),
        lines_parts(lines),
    ));
    let signature = join_strings(&signature_parts, " \u{b7} ");
    ResolvedActivity {
        process_name,
        process_title: display_title,
        media_summary,
        play_source,
        status_text,
        discord_addons,
        discord_details,
        discord_state,
        summary,
        signature,
    }
}

/// The activity to report for a capture: `None` when the app filter rejects
/// the process or the report mode has nothing to show.
pub fn resolve_activity(config: &ClientConfig, snapshot: &ForegroundSnapshot, media: &MediaInfo) -> (r:
    Option<ResolvedActivity>)
    ensures
        match r {
            Some(a) => resolve_spec(*config, *snapshot, *media) == Some(activity_view(a)),
            None => resolve_spec(*config, *snapshot, *media) is None,
        },
{
    let process_name = trim_string(snapshot.process_name.as_str());
    if !passes_app_filter(config, process_name.as_str()) {
        return None;
    }
    let process_title_raw = non_empty(snapshot.process_title.as_str());
    let process_title_masked = if in_process_list(&config.app_name_only_list, process_name.as_str()) {
        None
    } else {
        clone_opt(&process_title_raw)
    };
    assert(process_title_masked.deep_view() == masked_title_spec(*config, *snapshot));
    let (media_hidden, play_source, media_summary) = media_context(config, media);
    let matched_rule = match_message_rule(
        process_name.as_str(),
        as_opt_str(&process_title_raw),
        as_opt_str(&process_title_masked),
        &config.app_message_rules,
    );
    assert(rule_match_view(matched_rule) == matched_spec(*config, *snapshot));
    let status_text = match &matched_rule {
        Some(rule_match) => clone_opt(&rule_match.status_text),
        None => None,
    };
    assert(status_text.deep_view() == status_spec(*config, *snapshot));
    let display_title = if status_text.is_some() {
        None
    } else {
        process_title_masked
    };
    assert(display_title.deep_view() == display_title_spec(*config, *snapshot));
    let (discord_details, discord_state) = match build_discord_text(
        config,
        process_name.as_str(),
        as_opt_str(&display_title),
        media,
        media_hidden,
        as_opt_str(&status_text),
    ) {
        Some(lines) => lines,
        None => return None,
    };
    let discord_addons = match matched_rule {
        Some(rule_match) => rule_match.addons,
        None => ResolvedDiscordAddons::none(),
    };
    proof {
        assert(addons_view(discord_addons).0.len() == discord_addons.buttons@.len());
        assert(addons_view(discord_addons) == match matched_spec(*config, *snapshot) {
            Some(x) => x.1,
            None => (Seq::empty(), None, None),
        });
    }
    Some(
        assemble(
            config,
            process_name,
            display_title,
            media_summary,
            play_source,
            status_text,
            discord_addons,
            discord_details,
            discord_state,
        ),
    )
}

} // verus!
