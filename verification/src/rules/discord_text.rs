//! The two Discord presence lines ("details" and "state") for each report mode.
use super::helpers::{
    first_non_empty, first_non_empty_spec, join_non_empty, join_non_empty_spec, str_views,
};
use super::templates::{
    render_discord_template, render_spec, template_values, values_view, DiscordTemplateValues,
};
use crate::models::{ClientConfig, DiscordReportMode};
use crate::platform::{media_is_reportable, media_summary, MediaInfo};
use crate::text::{non_empty, non_empty_spec, push_str, trim, trim_string};
use vstd::prelude::*;

verus! {

/// A pair of presence lines: details, and an optional state.
pub type Lines = (Seq<char>, Option<Seq<char>>);

pub open spec fn opt_or_empty(o: Option<Seq<char>>) -> Seq<char> {
    match o {
        Some(s) => s,
        None => Seq::empty(),
    }
}

/// The media may be shown: media reporting is on, the source is not blocked, and it is reportable.
pub open spec fn media_shown(c: ClientConfig, m: MediaInfo, media_hidden: bool) -> bool {
    c.report_media && !media_hidden && media_is_reportable(m, c.report_stopped_media)
}

/// Music mode: the title (or the summary) over the artist.
pub open spec fn music_text_spec(c: ClientConfig, m: MediaInfo, media_hidden: bool) -> Option<Lines> {
    if !media_shown(c, m, media_hidden) {
        None
    } else {
        match first_non_empty_spec(seq![m.title@, media_summary(m)]) {
            Some(d) => Some((d, non_empty_spec(m.artist@))),
            None => None,
        }
    }
}

/// Media first, with artist, window title and app joined by " · " below.
pub open spec fn mixed_music_text_spec(
    c: ClientConfig,
    process_name: Seq<char>,
    process_title: Option<Seq<char>>,
    m: MediaInfo,
    media_hidden: bool,
) -> Option<Lines> {
    if !media_shown(c, m, media_hidden) {
        None
    } else {
        match first_non_empty_spec(seq![m.title@, media_summary(m)]) {
            Some(d) => Some(
                (
                    d,
                    join_non_empty_spec(
                        seq![
                            m.artist@,
                            if c.report_window_title {
                                opt_or_empty(process_title)
                            } else {
                                Seq::empty()
                            },
                            if c.report_foreground_app {
                                process_name
                            } else {
                                Seq::empty()
                            },
                        ],
                    ),
                ),
            ),
            None => None,
        }
    }
}

/// App mode: a rule's status text (with the process when asked), else the
/// window title (with the app when reported), else the app alone.
pub open spec fn app_text_spec(
    c: ClientConfig,
    process_name: Seq<char>,
    process_title: Option<Seq<char>>,
    status_text: Option<Seq<char>>,
) -> Option<Lines> {
    match status_text {
        Some(st) => if trim(st).len() == 0 {
            None
        } else {
            Some(
                (
                    trim(st),
                    if c.app_message_rules_show_process_name {
                        non_empty_spec(process_name)
                    } else {
                        None
                    },
                ),
            )
        },
        None => match process_title {
            Some(t) => if trim(t).len() == 0 {
                None
            } else {
                Some(
                    (
                        trim(t),
                        if c.report_foreground_app && trim(process_name).len() > 0 {
                            Some(trim(process_name))
                        } else {
                            None
                        },
                    ),
                )
            },
            None => if c.report_foreground_app && trim(process_name).len() > 0 {
                Some((trim(process_name), None))
            } else {
                None
            },
        },
    }
}

pub open spec fn smart_media_text_spec(c: ClientConfig, m: MediaInfo, media_hidden: bool) -> Option<
    Seq<char>,
> {
    if !media_shown(c, m, media_hidden) {
        None
    } else {
        non_empty_spec(media_summary(m))
    }
}

pub open spec fn has_text(o: Option<Seq<char>>) -> bool {
    o matches Some(s) && trim(s).len() > 0
}

pub open spec fn has_reported_app_name_spec(
    c: ClientConfig,
    process_name: Seq<char>,
    status_text: Option<Seq<char>>,
) -> bool {
    trim(process_name).len() > 0 && (c.report_foreground_app || c.discord_smart_show_app_name
        || has_text(status_text))
}

pub open spec fn smart_primary_title_spec(
    c: ClientConfig,
    process_name: Seq<char>,
    process_title: Option<Seq<char>>,
    status_text: Option<Seq<char>>,
) -> Option<Seq<char>> {
    if has_text(status_text) {
        Some(trim(status_text->0))
    } else if has_text(process_title) {
        Some(trim(process_title->0))
    } else if c.report_foreground_app {
        non_empty_spec(process_name)
    } else {
        None
    }
}

pub open spec fn smart_rule_hit_app_text_spec(
    c: ClientConfig,
    process_name: Seq<char>,
    status_text: Option<Seq<char>>,
    no_media_visible: bool,
) -> Option<Seq<char>> {
    if !c.discord_smart_show_app_name && (!no_media_visible || !c.app_message_rules_show_process_name
        || !has_text(status_text)) {
        None
    } else {
        non_empty_spec(process_name)
    }
}

pub open spec fn smart_layout_spec(
    title_text: Seq<char>,
    media_text: Option<Seq<char>>,
    app_text: Option<Seq<char>>,
) -> Lines {
    match (media_text, app_text) {
        (Some(m), Some(a)) => (title_text + " | "@ + a, Some(m)),
        (Some(m), None) => (title_text, Some(m)),
        (None, Some(a)) => (title_text, Some(a)),
        (None, None) => (title_text, None),
    }
}

/// Smart mode: the activity title over the media (or the app name); music
/// alone when there is media but no app name to show.
pub open spec fn smart_text_spec(
    c: ClientConfig,
    process_name: Seq<char>,
    process_title: Option<Seq<char>>,
    m: MediaInfo,
    media_hidden: bool,
    status_text: Option<Seq<char>>,
) -> Option<Lines> {
    let media_text = smart_media_text_spec(c, m, media_hidden);
    if media_text is Some && !has_reported_app_name_spec(c, process_name, status_text) {
        music_text_spec(c, m, media_hidden)
    } else {
        match smart_primary_title_spec(c, process_name, process_title, status_text) {
            Some(t) => Some(
                smart_layout_spec(
                    t,
                    media_text,
                    smart_rule_hit_app_text_spec(c, process_name, status_text, media_text is None),
                ),
            ),
            None => if media_text is Some {
                music_text_spec(c, m, media_hidden)
            } else {
                app_text_spec(c, process_name, process_title, status_text)
            },
        }
    }
}

/// Custom mode before templates: a rule hit wins; else media with context; else the app text.
pub open spec fn custom_base_text_spec(
    c: ClientConfig,
    process_name: Seq<char>,
    process_title: Option<Seq<char>>,
    m: MediaInfo,
    media_hidden: bool,
    status_text: Option<Seq<char>>,
) -> Option<Lines> {
    let app = app_text_spec(c, process_name, process_title, status_text);
    if app is Some && status_text is Some {
        app
    } else {
        match mixed_music_text_spec(c, process_name, process_title, m, media_hidden) {
            Some(x) => Some(x),
            None => app,
        }
    }
}

/// The lines of the report mode, before Custom templates.
pub open spec fn base_text_spec(
    c: ClientConfig,
    process_name: Seq<char>,
    process_title: Option<Seq<char>>,
    m: MediaInfo,
    media_hidden: bool,
    status_text: Option<Seq<char>>,
) -> Option<Lines> {
    match c.discord_report_mode {
        DiscordReportMode::Music => music_text_spec(c, m, media_hidden),
        DiscordReportMode::App => app_text_spec(c, process_name, process_title, status_text),
        DiscordReportMode::Mixed => smart_text_spec(
            c,
            process_name,
            process_title,
            m,
            media_hidden,
            status_text,
        ),
        DiscordReportMode::Custom => custom_base_text_spec(
            c,
            process_name,
            process_title,
            m,
            media_hidden,
            status_text,
        ),
    }
}

/// The presence lines: the mode's lines, and in Custom mode the user's templates over them.
pub open spec fn discord_text_spec(
    c: ClientConfig,
    process_name: Seq<char>,
    process_title: Option<Seq<char>>,
    m: MediaInfo,
    media_hidden: bool,
    status_text: Option<Seq<char>>,
) -> Option<Lines> {
    match base_text_spec(c, process_name, process_title, m, media_hidden, status_text) {
        None => None,
        Some(base) => if c.discord_report_mode != DiscordReportMode::Custom {
            Some(base)
        } else {
            let visible = media_is_reportable(m, c.report_stopped_media) && !media_hidden;
            let source = if visible && c.report_play_source && trim(m.source_app_id@).len() > 0 {
                m.source_app_id@
            } else {
                Seq::empty()
            };
            let values = template_values(
                base.0,
                opt_or_empty(base.1),
                process_name,
                opt_or_empty(process_title),
                opt_or_empty(status_text),
                m,
                source,
                visible,
            );
            let state = match render_spec(c.discord_state_format@, values) {
                Some(v) => if v.len() > 0 {
                    Some(v)
                } else {
                    None
                },
                None => None,
            };
            let details = if trim(c.discord_details_format@).len() == 0 {
                Seq::empty()
            } else {
                match render_spec(c.discord_details_format@, values) {
                    Some(v) => if v.len() > 0 {
                        v
                    } else {
                        base.0
                    },
                    None => base.0,
                }
            };
            Some((details, state))
        },
    }
}

fn opt_str_or_empty<'a>(o: Option<&'a str>) -> (r: &'a str)
    ensures
        r@ == opt_or_empty(o.deep_view()),
{
    match o {
        Some(s) => s,
        None => {
            proof {
                reveal_strlit("");
            }
            ""
        },
    }
}

fn opt_string_or_empty(o: &Option<String>) -> (r: &str)
    ensures
        r@ == opt_or_empty(o.deep_view()),
{
    match o {
        Some(s) => s.as_str(),
        None => {
            proof {
                reveal_strlit("");
            }
            ""
        },
    }
}

pub fn build_music_discord_text(config: &ClientConfig, media: &MediaInfo, media_hidden: bool) -> (r:
    Option<(String, Option<String>)>)
    ensures
        r.deep_view() == music_text_spec(*config, *media, media_hidden),
{
    if !config.report_media || media_hidden || !media.is_reportable(config.report_stopped_media) {
        return None;
    }
    let summary = media.summary();
    let candidates: [&str; 2] = [media.title.as_str(), summary.as_str()];
    proof {
        assert(str_views(candidates@) =~= seq![media.title@, media_summary(*media)]);
    }
    let details = match first_non_empty(&candidates) {
        Some(d) => d,
        None => return None,
    };
    let state = non_empty(media.artist.as_str());
    Some((details, state))
}

pub fn build_mixed_music_discord_text(
    config: &ClientConfig,
    process_name: &str,
    process_title: Option<&str>,
    media: &MediaInfo,
    media_hidden: bool,
) -> (r: Option<(String, Option<String>)>)
    ensures
        r.deep_view() == mixed_music_text_spec(
            *config,
            process_name@,
            process_title.deep_view(),
            *media,
            media_hidden,
        ),
{
    if !config.report_media || media_hidden || !media.is_reportable(config.report_stopped_media) {
        return None;
    }
    let summary = media.summary();
    let candidates: [&str; 2] = [media.title.as_str(), summary.as_str()];
    proof {
        assert(str_views(candidates@) =~= seq![media.title@, media_summary(*media)]);
    }
    let details = match first_non_empty(&candidates) {
        Some(d) => d,
        None => return None,
    };
    let title_part: &str = if config.report_window_title {
        opt_str_or_empty(process_title)
    } else {
        ""
    };
    let app_part: &str = if config.report_foreground_app {
        process_name
    } else {
        ""
    };
    let parts: [&str; 3] = [media.artist.as_str(), title_part, app_part];
    proof {
        assert(""@ =~= Seq::<char>::empty()) by {
            reveal_strlit("");
        }
        assert(str_views(parts@) =~= seq![
            media.artist@,
            if config.report_window_title {
                opt_or_empty(process_title.deep_view())
            } else {
                Seq::empty()
            },
            if config.report_foreground_app {
                process_name@
            } else {
                Seq::empty()
            },
        ]);
    }
    let state = join_non_empty(&parts);
    Some((details, state))
}

pub fn build_app_discord_text(
    config: &ClientConfig,
    process_name: &str,
    process_title: Option<&str>,
    status_text: Option<&str>,
) -> (r: Option<(String, Option<String>)>)
    ensures
        r.deep_view() == app_text_spec(
            *config,
            process_name@,
            process_title.deep_view(),
            status_text.deep_view(),
        ),
{
    if let Some(status_text) = status_text {
        let details = trim_string(status_text);
        if details.as_str().is_empty() {
            return None;
        }
        let state = if config.app_message_rules_show_process_name {
            non_empty(process_name)
        } else {
            None
        };
        return Some((details, state));
    }
    if let Some(process_title) = process_title {
        let details = trim_string(process_title);
        if details.as_str().is_empty() {
            return None;
        }
        let name = trim_string(process_name);
        let state = if config.report_foreground_app && !name.as_str().is_empty() {
            Some(name)
        } else {
            None
        };
        return Some((details, state));
    }
    let name = trim_string(process_name);
    if config.report_foreground_app && !name.as_str().is_empty() {
        return Some((name, None));
    }
    None
}

fn opt_has_text(o: Option<&str>) -> (r: Option<String>)
    ensures
        r.deep_view() == (if has_text(o.deep_view()) {
            Some(trim(o.deep_view()->0))
        } else {
            None
        }),
{
    match o {
        Some(s) => non_empty(s),
        None => None,
    }
}

pub fn build_smart_primary_title_text(
    config: &ClientConfig,
    process_name: &str,
    process_title: Option<&str>,
    status_text: Option<&str>,
) -> (r: Option<String>)
    ensures
        r.deep_view() == smart_primary_title_spec(
            *config,
            process_name@,
            process_title.deep_view(),
            status_text.deep_view(),
        ),
{
    if let Some(status) = opt_has_text(status_text) {
        return Some(status);
    }
    if let Some(title) = opt_has_text(process_title) {
        return Some(title);
    }
    if config.report_foreground_app {
        return non_empty(process_name);
    }
    None
}

pub fn build_smart_rule_hit_app_text(
    config: &ClientConfig,
    process_name: &str,
    status_text: Option<&str>,
    no_media_visible: bool,
) -> (r: Option<String>)
    ensures
        r.deep_view() == smart_rule_hit_app_text_spec(
            *config,
            process_name@,
            status_text.deep_view(),
            no_media_visible,
        ),
{
    if !config.discord_smart_show_app_name {
        if !no_media_visible || !config.app_message_rules_show_process_name || opt_has_text(
            status_text,
        ).is_none() {
            return None;
        }
    }
    non_empty(process_name)
}

pub fn build_smart_media_text(config: &ClientConfig, media: &MediaInfo, media_hidden: bool) -> (r:
    Option<String>)
    ensures
        r.deep_view() == smart_media_text_spec(*config, *media, media_hidden),
{
    if !config.report_media || media_hidden || !media.is_reportable(config.report_stopped_media) {
        return None;
    }
    let summary = media.summary();
    non_empty(summary.as_str())
}

pub fn has_reported_app_name(config: &ClientConfig, process_name: &str, status_text: Option<&str>) -> (r:
    bool)
    ensures
        r == has_reported_app_name_spec(*config, process_name@, status_text.deep_view()),
{
    if non_empty(process_name).is_none() {
        return false;
    }
    config.report_foreground_app || config.discord_smart_show_app_name || opt_has_text(
        status_text,
    ).is_some()
}

pub fn build_smart_text_layout(
    title_text: String,
    media_text: Option<String>,
    app_text: Option<String>,
) -> (r: (String, Option<String>))
    ensures
        r.deep_view() == smart_layout_spec(title_text@, media_text.deep_view(), app_text.deep_view()),
{
    match (media_text, app_text) {
        (Some(media_text), Some(app_text)) => {
            let mut details = title_text;
            push_str(&mut details, " | ");
            push_str(&mut details, app_text.as_str());
            (details, Some(media_text))
        },
        (Some(media_text), None) => (title_text, Some(media_text)),
        (None, Some(app_text)) => (title_text, Some(app_text)),
        (None, None) => (title_text, None),
    }
}

pub fn build_smart_discord_text(
    config: &ClientConfig,
    process_name: &str,
    process_title: Option<&str>,
    media: &MediaInfo,
    media_hidden: bool,
    status_text: Option<&str>,
) -> (r: Option<(String, Option<String>)>)
    ensures
        r.deep_view() == smart_text_spec(
            *config,
            process_name@,
            process_title.deep_view(),
            *media,
            media_hidden,
            status_text.deep_view(),
        ),
{
    let media_text = build_smart_media_text(config, media, media_hidden);
    if media_text.is_some() && !has_reported_app_name(config, process_name, status_text) {
        return build_music_discord_text(config, media, media_hidden);
    }
    if let Some(title_text) = build_smart_primary_title_text(
        config,
        process_name,
        process_title,
        status_text,
    ) {
        let no_media = media_text.is_none();
        let app_text = build_smart_rule_hit_app_text(config, process_name, status_text, no_media);
        return Some(build_smart_text_layout(title_text, media_text, app_text));
    }
    if media_text.is_some() {
        return build_music_discord_text(config, media, media_hidden);
    }
    build_app_discord_text(config, process_name, process_title, status_text)
}

pub fn build_custom_base_discord_text(
    config: &ClientConfig,
    process_name: &str,
    process_title: Option<&str>,
    media: &MediaInfo,
    media_hidden: bool,
    status_text: Option<&str>,
) -> (r: Option<(String, Option<String>)>)
    ensures
        r.deep_view() == custom_base_text_spec(
            *config,
            process_name@,
            process_title.deep_view(),
            *media,
            media_hidden,
            status_text.deep_view(),
        ),
{
    if let Some(app_text) = build_app_discord_text(
        config,
        process_name,
        process_title,
        status_text,
    ) {
        if status_text.is_some() {
            return Some(app_text);
        }
    }
    match build_mixed_music_discord_text(config, process_name, process_title, media, media_hidden) {
        Some(x) => Some(x),
        None => build_app_discord_text(config, process_name, process_title, status_text),
    }
}

/// The Discord presence lines for the configured report mode.
pub fn build_discord_text(
    config: &ClientConfig,
    process_name: &str,
    process_title: Option<&str>,
    media: &MediaInfo,
    media_hidden: bool,
    status_text: Option<&str>,
) -> (r: Option<(String, Option<String>)>)
    ensures
        r.deep_view() == discord_text_spec(
            *config,
            process_name@,
            process_title.deep_view(),
            *media,
            media_hidden,
            status_text.deep_view(),
        ),
{
    let base = match config.discord_report_mode {
        DiscordReportMode::Music => build_music_discord_text(config, media, media_hidden),
        DiscordReportMode::App => build_app_discord_text(
            config,
            process_name,
            process_title,
            status_text,
        ),
        DiscordReportMode::Mixed => build_smart_discord_text(
            config,
            process_name,
            process_title,
            media,
            media_hidden,
            status_text,
        ),
        DiscordReportMode::Custom => build_custom_base_discord_text(
            config,
            process_name,
            process_title,
            media,
            media_hidden,
            status_text,
        ),
    };
    let (base_details, base_state) = match base {
        Some(b) => b,
        None => return None,
    };
    if config.discord_report_mode != DiscordReportMode::Custom {
        return Some((base_details, base_state));
    }
    let media_visible = media.is_reportable(config.report_stopped_media) && !media_hidden;
    let source_blank = crate::text::is_blank(media.source_app_id.as_str());
    let visible_source: &str = if media_visible && config.report_play_source && !source_blank {
        media.source_app_id.as_str()
    } else {
        ""
    };
    proof {
        reveal_strlit("");
    }
    let values = DiscordTemplateValues::new(
        base_details.as_str(),
        opt_string_or_empty(&base_state),
        process_name,
        opt_str_or_empty(process_title),
        opt_str_or_empty(status_text),
        media,
        visible_source,
        media_visible,
    );
    let ghost base_v = base_text_spec(
        *config,
        process_name@,
        process_title.deep_view(),
        *media,
        media_hidden,
        status_text.deep_view(),
    );
    assert(base_v == Some((base_details@, base_state.deep_view())));
    assert(media_visible == (media_is_reportable(*media, config.report_stopped_media) && !media_hidden));
    assert(visible_source@ == (if media_visible && config.report_play_source && trim(media.source_app_id@).len() > 0 {
            media.source_app_id@
        } else {
            Seq::empty()
        }));
    assert(values_view(values) == template_values(
        base_details@,
        opt_or_empty(base_state.deep_view()),
        process_name@,
        opt_or_empty(process_title.deep_view()),
        opt_or_empty(status_text.deep_view()),
        *media,
        if media_visible && config.report_play_source && trim(media.source_app_id@).len() > 0 {
            media.source_app_id@
        } else {
            Seq::empty()
        },
        media_visible,
    ));
    let state = match render_discord_template(config.discord_state_format.as_str(), &values) {
        Some(v) => if v.as_str().is_empty() {
            None
        } else {
            Some(v)
        },
        None => None,
    };
    let details = if crate::text::is_blank(config.discord_details_format.as_str()) {
        String::new()
    } else {
        match render_discord_template(config.discord_details_format.as_str(), &values) {
            Some(v) => if v.as_str().is_empty() {
                base_details
            } else {
                v
            },
            None => base_details,
        }
    };
    Some((details, state))
}

} // verus!
