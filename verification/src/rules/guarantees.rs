//! What the rules promise of every capture: which message rule group
//! applies, what the app filter lets through, what a name-only app shows,
//! how placeholders are filled, and what Smart mode puts on its first line.
use super::discord_text::{discord_text_spec, has_text, media_shown};
use super::filters::{listed, passes_app_filter_spec};
use super::helpers::process_key;
use super::message_rules::{first_title_hit, match_message_rule_spec, match_rules_from, rule_text_spec};
use super::resolve::{masked_title_spec, matched_spec, resolve_spec};
use super::templates::{lemma_render_step_closed, render_chars, template_value, template_values};
use crate::models::{AppFilterMode, AppMessageRuleGroup, ClientConfig, DiscordReportMode};
use crate::platform::{media_summary, ForegroundSnapshot, MediaInfo};
use crate::text::{contains_sub, is_edge, lemma_trim_by_slice, lemma_trim_idempotent, lowercased, trim};
use vstd::prelude::*;

verus! {

// ---------------------------------------------------------------------------
// Message rules
// ---------------------------------------------------------------------------

/// The group's match, trimmed and lower-cased.
pub open spec fn group_matcher(g: AppMessageRuleGroup) -> Seq<char> {
    lowercased(trim(g.process_match@))
}

/// The group's match is not blank and occurs in `key`.
pub open spec fn group_applies(g: AppMessageRuleGroup, key: Seq<char>) -> bool {
    group_matcher(g).len() > 0 && contains_sub(key, group_matcher(g))
}

proof fn lemma_first_applying_group(
    key: Seq<char>,
    process_name: Seq<char>,
    title_for_match: Option<Seq<char>>,
    title_for_template: Option<Seq<char>>,
    rules: Seq<AppMessageRuleGroup>,
    i: int,
)
    requires
        0 <= i < rules.len(),
        group_applies(rules[i], key),
        forall|j: int| 0 <= j < i ==> !group_applies(#[trigger] rules[j], key),
    ensures
        first_title_hit(title_for_match, rules[i].title_rules@) matches Some(k) ==> (match_rules_from(
            key,
            process_name,
            title_for_match,
            title_for_template,
            rules,
        ) matches Some(x) && x.0 == Some(
            rule_text_spec(rules[i].title_rules@[k].text@, process_name, title_for_template),
        )),
        first_title_hit(title_for_match, rules[i].title_rules@) is None && trim(
            rules[i].default_text@,
        ).len() > 0 ==> (match_rules_from(
            key,
            process_name,
            title_for_match,
            title_for_template,
            rules,
        ) matches Some(x) && x.0 == Some(
            rule_text_spec(trim(rules[i].default_text@), process_name, title_for_template),
        )),
    decreases i,
{
    if i > 0 {
        assert(!group_applies(rules[0], key));
        let rest = rules.drop_first();
        assert forall|j: int| 0 <= j < i - 1 implies !group_applies(#[trigger] rest[j], key) by {
            assert(rest[j] == rules[j + 1]);
        }
        lemma_first_applying_group(key, process_name, title_for_match, title_for_template, rest, i - 1);
    }
}

/// A rule group applies to every process whose trimmed, lower-cased name
/// contains the group's trimmed, lower-cased match, when that match is not
/// blank; the first group that applies gives the status text of its first
/// title rule that hits, else its default text.
pub proof fn law_rule_group_applies_by_containment(
    process_name: Seq<char>,
    title_for_match: Option<Seq<char>>,
    title_for_template: Option<Seq<char>>,
    rules: Seq<AppMessageRuleGroup>,
    i: int,
)
    requires
        0 <= i < rules.len(),
        group_applies(rules[i], lowercased(trim(process_name))),
        forall|j: int|
            0 <= j < i ==> !group_applies(#[trigger] rules[j], lowercased(trim(process_name))),
    ensures
        first_title_hit(title_for_match, rules[i].title_rules@) matches Some(k)
            ==> (match_message_rule_spec(process_name, title_for_match, title_for_template, rules)
            matches Some(x) && x.0 == Some(
            rule_text_spec(rules[i].title_rules@[k].text@, process_name, title_for_template),
        )),
        first_title_hit(title_for_match, rules[i].title_rules@) is None && trim(
            rules[i].default_text@,
        ).len() > 0 ==> (match_message_rule_spec(
            process_name,
            title_for_match,
            title_for_template,
            rules,
        ) matches Some(x) && x.0 == Some(
            rule_text_spec(trim(rules[i].default_text@), process_name, title_for_template),
        )),
{
    let key = lowercased(trim(process_name));
    let m = group_matcher(rules[i]);
    let w = choose|p: int| crate::text::occurs_at(key, m, p);
    assert(crate::text::occurs_at(key, m, w));
    assert(key.len() > 0);
    lemma_first_applying_group(key, process_name, title_for_match, title_for_template, rules, i);
}

proof fn lemma_no_group_applies(
    key: Seq<char>,
    process_name: Seq<char>,
    title_for_match: Option<Seq<char>>,
    title_for_template: Option<Seq<char>>,
    rules: Seq<AppMessageRuleGroup>,
)
    requires
        forall|j: int| 0 <= j < rules.len() ==> !group_applies(#[trigger] rules[j], key),
    ensures
        match_rules_from(key, process_name, title_for_match, title_for_template, rules) is None,
    decreases rules.len(),
{
    if rules.len() > 0 {
        assert(!group_applies(rules[0], key));
        let rest = rules.drop_first();
        assert forall|j: int| 0 <= j < rest.len() implies !group_applies(#[trigger] rest[j], key) by {
            assert(rest[j] == rules[j + 1]);
        }
        lemma_no_group_applies(key, process_name, title_for_match, title_for_template, rest);
    }
}

/// No message rule matches a process to which no group applies.
pub proof fn law_no_rule_without_an_applying_group(
    process_name: Seq<char>,
    title_for_match: Option<Seq<char>>,
    title_for_template: Option<Seq<char>>,
    rules: Seq<AppMessageRuleGroup>,
)
    requires
        forall|j: int|
            0 <= j < rules.len() ==> !group_applies(#[trigger] rules[j], lowercased(trim(process_name))),
    ensures
        match_message_rule_spec(process_name, title_for_match, title_for_template, rules) is None,
{
    lemma_no_group_applies(
        lowercased(trim(process_name)),
        process_name,
        title_for_match,
        title_for_template,
        rules,
    );
}

// ---------------------------------------------------------------------------
// The app filter
// ---------------------------------------------------------------------------

/// A list entry names the process when their trimmed, lower-cased forms agree.
pub open spec fn entry_names(entry: Seq<char>, process_name: Seq<char>) -> bool {
    lowercased(trim(entry)) == lowercased(trim(process_name))
}

proof fn lemma_listed_at(values: Seq<String>, process_name: Seq<char>, i: int)
    requires
        0 <= i < values.len(),
        entry_names(values[i]@, process_name),
    ensures
        listed(values, process_name),
{
    assert(process_key(values[i]@) == process_key(process_name));
}

/// In blacklist mode, a process named by any entry of the blacklist fails
/// the filter and yields no activity; in whitelist mode, a process named by
/// any entry of the whitelist passes it.
pub proof fn law_listed_processes_are_filtered(
    c: ClientConfig,
    snapshot: ForegroundSnapshot,
    m: MediaInfo,
    i: int,
)
    ensures
        c.app_filter_mode == AppFilterMode::Blacklist && 0 <= i < c.app_blacklist@.len()
            && entry_names(c.app_blacklist@[i]@, snapshot.process_name@) ==> !passes_app_filter_spec(
            c,
            trim(snapshot.process_name@),
        ) && resolve_spec(c, snapshot, m) is None,
        c.app_filter_mode == AppFilterMode::Whitelist && 0 <= i < c.app_whitelist@.len()
            && entry_names(c.app_whitelist@[i]@, snapshot.process_name@) ==> passes_app_filter_spec(
            c,
            trim(snapshot.process_name@),
        ),
{
    lemma_trim_idempotent(snapshot.process_name@, false);
    let name = trim(snapshot.process_name@);
    if c.app_filter_mode == AppFilterMode::Blacklist && 0 <= i < c.app_blacklist@.len()
        && entry_names(c.app_blacklist@[i]@, snapshot.process_name@) {
        lemma_listed_at(c.app_blacklist@, name, i);
    }
    if c.app_filter_mode == AppFilterMode::Whitelist && 0 <= i < c.app_whitelist@.len()
        && entry_names(c.app_whitelist@[i]@, snapshot.process_name@) {
        lemma_listed_at(c.app_whitelist@, name, i);
    }
}

/// In whitelist mode a process that no entry names fails the filter.
pub proof fn law_unlisted_process_fails_whitelist(c: ClientConfig, process_name: Seq<char>)
    requires
        c.app_filter_mode == AppFilterMode::Whitelist,
        forall|i: int|
            0 <= i < c.app_whitelist@.len() ==> !entry_names(#[trigger] c.app_whitelist@[i]@, process_name),
    ensures
        !passes_app_filter_spec(c, process_name),
{
    if listed(c.app_whitelist@, process_name) {
        let i = choose|i: int|
            0 <= i < c.app_whitelist@.len() && process_key(#[trigger] c.app_whitelist@[i]@)
                == process_key(process_name);
        assert(entry_names(c.app_whitelist@[i]@, process_name));
    }
}

/// In blacklist mode a process that no entry names passes the filter.
pub proof fn law_unlisted_process_passes_blacklist(c: ClientConfig, process_name: Seq<char>)
    requires
        c.app_filter_mode == AppFilterMode::Blacklist,
        forall|i: int|
            0 <= i < c.app_blacklist@.len() ==> !entry_names(#[trigger] c.app_blacklist@[i]@, process_name),
    ensures
        passes_app_filter_spec(c, process_name),
{
    if listed(c.app_blacklist@, process_name) {
        let i = choose|i: int|
            0 <= i < c.app_blacklist@.len() && process_key(#[trigger] c.app_blacklist@[i]@)
                == process_key(process_name);
        assert(entry_names(c.app_blacklist@[i]@, process_name));
    }
}

// ---------------------------------------------------------------------------
// Name-only apps
// ---------------------------------------------------------------------------

/// For an app named on the name-only list, the resolved activity carries no
/// window title.
pub proof fn law_name_only_app_reports_no_title(
    c: ClientConfig,
    snapshot: ForegroundSnapshot,
    m: MediaInfo,
    i: int,
)
    requires
        0 <= i < c.app_name_only_list@.len(),
        entry_names(c.app_name_only_list@[i]@, snapshot.process_name@),
    ensures
        resolve_spec(c, snapshot, m) matches Some(a) ==> a.process_title is None,
{
    lemma_trim_idempotent(snapshot.process_name@, false);
    lemma_listed_at(c.app_name_only_list@, trim(snapshot.process_name@), i);
}

/// Without message rules, the window title of an app named on the name-only
/// list changes nothing in what is reported: two captures of that app with
/// different titles resolve alike.
pub proof fn law_name_only_app_ignores_its_title(
    c: ClientConfig,
    s1: ForegroundSnapshot,
    s2: ForegroundSnapshot,
    m: MediaInfo,
    i: int,
)
    requires
        c.app_message_rules@.len() == 0,
        s1.process_name@ == s2.process_name@,
        0 <= i < c.app_name_only_list@.len(),
        entry_names(c.app_name_only_list@[i]@, s1.process_name@),
    ensures
        resolve_spec(c, s1, m) == resolve_spec(c, s2, m),
{
    lemma_trim_idempotent(s1.process_name@, false);
    lemma_listed_at(c.app_name_only_list@, trim(s1.process_name@), i);
    assert(masked_title_spec(c, s1) is None && masked_title_spec(c, s2) is None);
    assert(matched_spec(c, s1) is None && matched_spec(c, s2) is None);
}

// ---------------------------------------------------------------------------
// Smart mode
// ---------------------------------------------------------------------------

/// In Smart mode with the foreground app reported (and not also shown beside
/// the title), a capture with a non-blank app name, no window title and no
/// rule text puts the app name on the first line, and the media summary,
/// when media is shown, on the second.
pub proof fn law_smart_mode_names_the_app(
    c: ClientConfig,
    process_name: Seq<char>,
    process_title: Option<Seq<char>>,
    m: MediaInfo,
    media_hidden: bool,
)
    requires
        c.discord_report_mode == DiscordReportMode::Mixed,
        c.report_foreground_app,
        !c.discord_smart_show_app_name,
        trim(process_name).len() > 0,
        process_title matches Some(t) ==> trim(t).len() == 0,
    ensures
        discord_text_spec(c, process_name, process_title, m, media_hidden, None) == Some(
            (
                trim(process_name),
                if media_shown(c, m, media_hidden) && trim(media_summary(m)).len() > 0 {
                    Some(trim(media_summary(m)))
                } else {
                    None
                },
            ),
        ),
{
}


/// In Smart mode with the foreground app reported (and not also shown beside
/// the title) and a non-blank app name, the first line is the rule's status
/// text when there is one, else the window title when it is not blank, else
/// the app name.
pub proof fn law_smart_mode_first_line(
    c: ClientConfig,
    process_name: Seq<char>,
    process_title: Option<Seq<char>>,
    m: MediaInfo,
    media_hidden: bool,
    status_text: Option<Seq<char>>,
)
    requires
        c.discord_report_mode == DiscordReportMode::Mixed,
        c.report_foreground_app,
        !c.discord_smart_show_app_name,
        trim(process_name).len() > 0,
    ensures
        discord_text_spec(c, process_name, process_title, m, media_hidden, status_text) matches Some(
            l,
        ) && l.0 == (if has_text(status_text) {
            trim(status_text->0)
        } else if has_text(process_title) {
            trim(process_title->0)
        } else {
            trim(process_name)
        }),
{
}

// ---------------------------------------------------------------------------
// Templates
// ---------------------------------------------------------------------------

/// No placeholder opens in `s`.
pub open spec fn no_brace(s: Seq<char>) -> bool {
    forall|i: int| 0 <= i < s.len() ==> s[i] != '{'
}

proof fn lemma_render_plain_prefix(p: Seq<char>, x: Seq<char>, vals: Seq<Seq<char>>)
    requires
        no_brace(p),
    ensures
        render_chars(p + x, vals) == p + render_chars(x, vals),
    decreases p.len(),
{
    if p.len() == 0 {
        assert(p + x =~= x);
    } else {
        let t = p + x;
        assert(t[0] == p[0]);
        assert(t.drop_first() =~= p.drop_first() + x);
        lemma_render_plain_prefix(p.drop_first(), x, vals);
        assert(seq![p[0]] + (p.drop_first() + render_chars(x, vals)) =~= p + render_chars(x, vals));
    }
}

/// `p`, the placeholder `{key}` and `q` rendered: the key's value between them.
proof fn lemma_fill(p: Seq<char>, key: Seq<char>, q: Seq<char>, vals: Seq<Seq<char>>)
    requires
        no_brace(p),
        no_brace(q),
        key.len() > 0,
        !is_edge(key[0], false) && !is_edge(key[key.len() - 1], false),
        forall|i: int| 0 <= i < key.len() ==> key[i] != '}',
        template_value(vals, key) is Some,
    ensures
        render_chars(p + (seq!['{'] + key + seq!['}']) + q, vals) == p + template_value(vals, key)->0
            + q,
{
    lemma_trim_by_slice(key, false, 0, key.len() as int);
    assert(key.subrange(0, key.len() as int) =~= key);
    let t = seq!['{'] + key + seq!['}'] + q;
    let j: int = key.len() as int + 1;
    assert forall|k: int| 0 < k < j implies t[k] != '}' by {
        assert(t[k] == key[k - 1]);
    }
    lemma_render_step_closed(t, 0, j, vals);
    assert(t.skip(0) =~= t);
    assert(t.subrange(1, j) =~= key);
    assert(t.skip(j + 1) =~= q);
    lemma_render_plain_prefix(q, Seq::empty(), vals);
    assert(q + Seq::<char>::empty() =~= q);
    assert(q + render_chars(Seq::<char>::empty(), vals) =~= q);
    lemma_render_plain_prefix(p, t, vals);
    assert(p + (seq!['{'] + key + seq!['}']) + q =~= p + t);
    assert(p + (template_value(vals, key)->0 + q) =~= p + template_value(vals, key)->0 + q);
}

/// Every placeholder is filled with the value given for it: in a template
/// made of text without `{`, one placeholder and more text without `{`, the
/// placeholder becomes the value passed for it (the media values only when
/// the media is visible, else nothing).
pub proof fn law_placeholders_take_their_values(
    p: Seq<char>,
    q: Seq<char>,
    activity: Seq<char>,
    context: Seq<char>,
    app: Seq<char>,
    title: Seq<char>,
    rule: Seq<char>,
    m: MediaInfo,
    source: Seq<char>,
    media_visible: bool,
)
    requires
        no_brace(p),
        no_brace(q),
    ensures
        ({
            let vals = template_values(activity, context, app, title, rule, m, source, media_visible);
            &&& render_chars(p + "{activity}"@ + q, vals) == p + activity + q
            &&& render_chars(p + "{context}"@ + q, vals) == p + context + q
            &&& render_chars(p + "{app}"@ + q, vals) == p + app + q
            &&& render_chars(p + "{process}"@ + q, vals) == p + app + q
            &&& render_chars(p + "{title}"@ + q, vals) == p + title + q
            &&& render_chars(p + "{rule}"@ + q, vals) == p + rule + q
            &&& render_chars(p + "{source}"@ + q, vals) == p + source + q
            &&& render_chars(p + "{media}"@ + q, vals) == p + (if media_visible {
                media_summary(m)
            } else {
                Seq::empty()
            }) + q
            &&& render_chars(p + "{song}"@ + q, vals) == p + (if media_visible {
                m.title@
            } else {
                Seq::empty()
            }) + q
            &&& render_chars(p + "{artist}"@ + q, vals) == p + (if media_visible {
                m.artist@
            } else {
                Seq::empty()
            }) + q
            &&& render_chars(p + "{album}"@ + q, vals) == p + (if media_visible {
                m.album@
            } else {
                Seq::empty()
            }) + q
        }),
{
    let vals = template_values(activity, context, app, title, rule, m, source, media_visible);
    reveal_strlit("activity");
    reveal_strlit("context");
    reveal_strlit("app");
    reveal_strlit("process");
    reveal_strlit("title");
    reveal_strlit("rule");
    reveal_strlit("media");
    reveal_strlit("song");
    reveal_strlit("artist");
    reveal_strlit("album");
    reveal_strlit("source");
    reveal_strlit("{activity}");
    reveal_strlit("{context}");
    reveal_strlit("{app}");
    reveal_strlit("{process}");
    reveal_strlit("{title}");
    reveal_strlit("{rule}");
    reveal_strlit("{media}");
    reveal_strlit("{song}");
    reveal_strlit("{artist}");
    reveal_strlit("{album}");
    reveal_strlit("{source}");
    assert(render_chars(p + "{activity}"@ + q, vals) == p + vals[0] + q) by {
        assert("{activity}"@ =~= seq!['{'] + "activity"@ + seq!['}']);
        assert(template_value(vals, "activity"@) == Some(vals[0]));
        lemma_fill(p, "activity"@, q, vals);
    }
    assert(render_chars(p + "{context}"@ + q, vals) == p + vals[1] + q) by {
        assert("{context}"@ =~= seq!['{'] + "context"@ + seq!['}']);
        assert(template_value(vals, "context"@) == Some(vals[1]));
        lemma_fill(p, "context"@, q, vals);
    }
    assert(render_chars(p + "{app}"@ + q, vals) == p + vals[2] + q) by {
        assert("{app}"@ =~= seq!['{'] + "app"@ + seq!['}']);
        assert(template_value(vals, "app"@) == Some(vals[2]));
        lemma_fill(p, "app"@, q, vals);
    }
    assert(render_chars(p + "{process}"@ + q, vals) == p + vals[2] + q) by {
        assert("{process}"@ =~= seq!['{'] + "process"@ + seq!['}']);
        assert("process"@[0] != "context"@[0]);
        assert(template_value(vals, "process"@) == Some(vals[2]));
        lemma_fill(p, "process"@, q, vals);
    }
    assert(render_chars(p + "{title}"@ + q, vals) == p + vals[3] + q) by {
        assert("{title}"@ =~= seq!['{'] + "title"@ + seq!['}']);
        assert(template_value(vals, "title"@) == Some(vals[3]));
        lemma_fill(p, "title"@, q, vals);
    }
    assert(render_chars(p + "{rule}"@ + q, vals) == p + vals[4] + q) by {
        assert("{rule}"@ =~= seq!['{'] + "rule"@ + seq!['}']);
        assert(template_value(vals, "rule"@) == Some(vals[4]));
        lemma_fill(p, "rule"@, q, vals);
    }
    assert(render_chars(p + "{media}"@ + q, vals) == p + vals[5] + q) by {
        assert("{media}"@ =~= seq!['{'] + "media"@ + seq!['}']);
        assert("media"@[0] != "title"@[0]);
        assert(template_value(vals, "media"@) == Some(vals[5]));
        lemma_fill(p, "media"@, q, vals);
    }
    assert(render_chars(p + "{song}"@ + q, vals) == p + vals[6] + q) by {
        assert("{song}"@ =~= seq!['{'] + "song"@ + seq!['}']);
        assert("song"@[0] != "rule"@[0]);
        assert(template_value(vals, "song"@) == Some(vals[6]));
        lemma_fill(p, "song"@, q, vals);
    }
    assert(render_chars(p + "{artist}"@ + q, vals) == p + vals[7] + q) by {
        assert("{artist}"@ =~= seq!['{'] + "artist"@ + seq!['}']);
        assert(template_value(vals, "artist"@) == Some(vals[7]));
        lemma_fill(p, "artist"@, q, vals);
    }
    assert(render_chars(p + "{album}"@ + q, vals) == p + vals[8] + q) by {
        assert("{album}"@ =~= seq!['{'] + "album"@ + seq!['}']);
        assert("album"@[0] != "title"@[0]);
        assert("album"@[0] != "media"@[0]);
        assert(template_value(vals, "album"@) == Some(vals[8]));
        lemma_fill(p, "album"@, q, vals);
    }
    assert(render_chars(p + "{source}"@ + q, vals) == p + vals[9] + q) by {
        assert("{source}"@ =~= seq!['{'] + "source"@ + seq!['}']);
        assert("source"@[0] != "artist"@[0]);
        assert(template_value(vals, "source"@) == Some(vals[9]));
        lemma_fill(p, "source"@, q, vals);
    }
}

} // verus!
