//! Per-process message rules: a status text and presence add-ons chosen by
//! process name and window title.
use super::discord_text::opt_or_empty;
use super::normalize::{
    button_views, normalize_discord_buttons, normalize_party_size, normalized_buttons,
    normalized_party_size, ButtonV,
};
use super::types::{ ResolvedDiscordAddons, ResolvedDiscordParty, ResolvedDiscordSecrets,
};
use crate::models::{AppMessageRuleGroup, AppMessageTitleRule, AppTitleRuleMode};
use crate::text::{
    contains_str, contains_sub, lowercased, non_empty, non_empty_spec, replace_all, replace_str,
    to_lowercase, trim, trim_string,
};
use vstd::prelude::*;

verus! {

/// Whether `text` matches `pattern` as a case-insensitive regular expression
/// (false when the pattern does not compile).
pub uninterp spec fn regex_ci_matches(pattern: Seq<char>, text: Seq<char>) -> bool;

/// Builds `pattern` with `regex::RegexBuilder` (case-insensitive) and tests
/// `text` with `Regex::is_match`; an invalid pattern gives `false`. The
/// contract only names the outcome: it depends on the two strings alone.
#[verifier::external_body]
fn regex_matches_case_insensitive(pattern: &str, text: &str) -> (r: bool)
    ensures
        r == regex_ci_matches(pattern@, text@),
{
    regex::RegexBuilder::new(pattern).case_insensitive(true).build().map(
        |regex| regex.is_match(text),
    ).unwrap_or(false)
}

/// The add-ons by their views: buttons, party (id and size), secrets (join, spectate, match).
pub type AddonsV = (
    Seq<ButtonV>,
    Option<(Option<Seq<char>>, Option<(u32, u32)>)>,
    Option<(Option<Seq<char>>, Option<Seq<char>>, Option<Seq<char>>)>,
);

pub open spec fn addons_view(a: ResolvedDiscordAddons) -> AddonsV {
    (
        button_views(a.buttons@),
        match a.party {
            Some(p) => Some((p.id.deep_view(), p.size)),
            None => None,
        },
        match a.secrets {
            Some(s) => Some((s.join.deep_view(), s.spectate.deep_view(), s.match_secret.deep_view())),
            None => None,
        },
    )
}

pub open spec fn addons_view_empty(a: AddonsV) -> bool {
    a.0.len() == 0 && a.1 is None && a.2 is None
}

/// A party size when both bounds are positive and the current one does not exceed the maximum.
pub open spec fn party_size_spec(current: Option<u32>, maximum: Option<u32>) -> Option<(u32, u32)> {
    match (normalized_party_size(current), normalized_party_size(maximum)) {
        (Some(c), Some(m)) => if c <= m {
            Some((c, m))
        } else {
            None
        },
        _ => None,
    }
}

/// The add-ons of a rule group.
pub open spec fn rule_addons_spec(rule: AppMessageRuleGroup) -> AddonsV {
    let party_id = non_empty_spec(rule.party_id@);
    let size = party_size_spec(rule.party_size_current, rule.party_size_max);
    let join = non_empty_spec(rule.join_secret@);
    let spectate = non_empty_spec(rule.spectate_secret@);
    let match_secret = non_empty_spec(rule.match_secret@);
    (
        normalized_buttons(rule.buttons@),
        if party_id is None && size is None {
            None
        } else {
            Some((party_id, size))
        },
        if join is None && spectate is None && match_secret is None {
            None
        } else {
            Some((join, spectate, match_secret))
        },
    )
}

/// A title rule hits a non-blank title: by regular expression, or by
/// case-insensitive containment of the trimmed pattern.
pub open spec fn title_rule_hits(title: Option<Seq<char>>, rule: AppMessageTitleRule) -> bool {
    match title {
        Some(t) => trim(t).len() > 0 && match rule.mode {
            AppTitleRuleMode::Regex => regex_ci_matches(rule.pattern@, trim(t)),
            AppTitleRuleMode::Plain => contains_sub(lowercased(trim(t)), lowercased(trim(rule.pattern@))),
        },
        None => false,
    }
}

/// The index of the first title rule that hits.
pub open spec fn first_title_hit(title: Option<Seq<char>>, rules: Seq<AppMessageTitleRule>) -> Option<
    int,
>
    decreases rules.len(),
{
    if rules.len() == 0 {
        None
    } else if title_rule_hits(title, rules[0]) {
        Some(0)
    } else {
        match first_title_hit(title, rules.drop_first()) {
            Some(k) => Some(k + 1),
            None => None,
        }
    }
}

/// A rule text with `{process}` and `{title}` filled in, trimmed.
pub open spec fn rule_text_spec(template: Seq<char>, process_name: Seq<char>, title: Option<Seq<char>>) -> Seq<
    char,
> {
    trim(replace_all(replace_all(template, "{process}"@, process_name), "{title}"@, opt_or_empty(title)))
}

/// The outcome of a rule group that applies to the process: a title-rule hit (its
/// buttons, when it has usable ones, replace the group's), else the default text,
/// else the add-ons alone for a group without title rules; `None` when nothing applies.
pub open spec fn group_outcome(
    rule: AppMessageRuleGroup,
    process_name: Seq<char>,
    title_for_match: Option<Seq<char>>,
    title_for_template: Option<Seq<char>>,
) -> Option<(Option<Seq<char>>, AddonsV)> {
    let addons = rule_addons_spec(rule);
    match first_title_hit(title_for_match, rule.title_rules@) {
        Some(k) => {
            let hit = rule.title_rules@[k];
            let own = normalized_buttons(hit.buttons@);
            Some(
                (
                    Some(rule_text_spec(hit.text@, process_name, title_for_template)),
                    if own.len() > 0 {
                        (own, addons.1, addons.2)
                    } else {
                        addons
                    },
                ),
            )
        },
        None => if trim(rule.default_text@).len() > 0 {
            Some(
                (
                    Some(rule_text_spec(trim(rule.default_text@), process_name, title_for_template)),
                    addons,
                ),
            )
        } else if rule.title_rules@.len() == 0 && !addons_view_empty(addons) {
            Some((None, addons))
        } else {
            None
        },
    }
}

/// The first rule group whose non-blank matcher occurs in the process key and that has an outcome.
pub open spec fn match_rules_from(
    key: Seq<char>,
    process_name: Seq<char>,
    title_for_match: Option<Seq<char>>,
    title_for_template: Option<Seq<char>>,
    rules: Seq<AppMessageRuleGroup>,
) -> Option<(Option<Seq<char>>, AddonsV)>
    decreases rules.len(),
{
    if rules.len() == 0 {
        None
    } else {
        let matcher = lowercased(trim(rules[0].process_match@));
        let outcome = if matcher.len() == 0 || !contains_sub(key, matcher) {
            None
        } else {
            group_outcome(rules[0], process_name, title_for_match, title_for_template)
        };
        match outcome {
            Some(o) => Some(o),
            None => match_rules_from(
                key,
                process_name,
                title_for_match,
                title_for_template,
                rules.drop_first(),
            ),
        }
    }
}

/// The message rule outcome for a process: nothing for a blank process name.
pub open spec fn match_message_rule_spec(
    process_name: Seq<char>,
    title_for_match: Option<Seq<char>>,
    title_for_template: Option<Seq<char>>,
    rules: Seq<AppMessageRuleGroup>,
) -> Option<(Option<Seq<char>>, AddonsV)> {
    let key = lowercased(trim(process_name));
    if key.len() == 0 {
        None
    } else {
        match_rules_from(key, process_name, title_for_match, title_for_template, rules)
    }
}

/// A rule hit: the status text (if any) and the add-ons.
#[derive(Clone, Debug, PartialEq, Eq)]
pub struct MessageRuleMatch {
    pub status_text: Option<String>,
    pub addons: ResolvedDiscordAddons,
}

pub open spec fn rule_match_view(m: Option<MessageRuleMatch>) -> Option<(Option<Seq<char>>, AddonsV)> {
    match m {
        Some(x) => Some((x.status_text.deep_view(), addons_view(x.addons))),
        None => None,
    }
}

pub fn resolve_rule_addons(rule: &AppMessageRuleGroup) -> (r: ResolvedDiscordAddons)
    ensures
        addons_view(r) == rule_addons_spec(*rule),
{
    let buttons = normalize_discord_buttons(&rule.buttons);
    let party_id = non_empty(rule.party_id.as_str());
    let party_size = match (
        normalize_party_size(rule.party_size_current),
        normalize_party_size(rule.party_size_max),
    ) {
        (Some(current), Some(maximum)) => if current <= maximum {
            Some((current, maximum))
        } else {
            None
        },
        _ => None,
    };
    let party = if party_id.is_none() && party_size.is_none() {
        None
    } else {
        Some(ResolvedDiscordParty { id: party_id, size: party_size })
    };
    let join = non_empty(rule.join_secret.as_str());
    let spectate = non_empty(rule.spectate_secret.as_str());
    let match_secret = non_empty(rule.match_secret.as_str());
    let secrets = if join.is_none() && spectate.is_none() && match_secret.is_none() {
        None
    } else {
        Some(ResolvedDiscordSecrets { join, spectate, match_secret })
    };
    ResolvedDiscordAddons { buttons, party, secrets }
}

pub fn matches_title_rule(process_title: Option<&str>, title_rule: &AppMessageTitleRule) -> (r:
    bool)
    ensures
        r == title_rule_hits(process_title.deep_view(), *title_rule),
{
    let title = match process_title {
        Some(t) => trim_string(t),
        None => return false,
    };
    if title.as_str().is_empty() {
        return false;
    }
    match title_rule.mode {
        AppTitleRuleMode::Regex => regex_matches_case_insensitive(
            title_rule.pattern.as_str(),
            title.as_str(),
        ),
        AppTitleRuleMode::Plain => {
            let lowered_title = to_lowercase(title.as_str());
            let pattern = trim_string(title_rule.pattern.as_str());
            let lowered_pattern = to_lowercase(pattern.as_str());
            contains_str(lowered_title.as_str(), lowered_pattern.as_str())
        },
    }
}

pub fn render_rule_text(template: &str, process_name: &str, process_title: Option<&str>) -> (r:
    String)
    ensures
        r@ == rule_text_spec(template@, process_name@, process_title.deep_view()),
{
    let title: &str = match process_title {
        Some(t) => t,
        None => {
            proof {
                reveal_strlit("");
            }
            ""
        },
    };
    assert(title@ == opt_or_empty(process_title.deep_view()));
    proof {
        reveal_strlit("{process}");
        reveal_strlit("{title}");
    }
    let with_process = replace_str(template, "{process}", process_name);
    let with_title = replace_str(with_process.as_str(), "{title}", title);
    trim_string(with_title.as_str())
}

fn first_title_hit_exec(title: Option<&str>, rules: &Vec<AppMessageTitleRule>) -> (r: Option<usize>)
    ensures
        match r {
            Some(k) => first_title_hit(title.deep_view(), rules@) == Some(k as int) && k
                < rules@.len(),
            None => first_title_hit(title.deep_view(), rules@) is None,
        },
{
    let ghost t = title.deep_view();
    let mut i: usize = 0;
    assert(rules@.skip(0) =~= rules@);
    while i < rules.len()
        invariant
            i <= rules.len(),
            t == title.deep_view(),
            forall|j: int| 0 <= j < i ==> !title_rule_hits(t, #[trigger] rules@[j]),
            first_title_hit(t, rules@) == (match first_title_hit(t, rules@.skip(i as int)) {
                Some(k) => Some(k + i),
                None => None,
            }),
        decreases rules.len() - i,
    {
        proof {
            let rest = rules@.skip(i as int);
            assert(rest[0] == rules@[i as int]);
            assert(rest.drop_first() =~= rules@.skip(i + 1));
        }
        if matches_title_rule(title, &rules[i]) {
            return Some(i);
        }
        i += 1;
    }
    assert(rules@.skip(i as int) =~= Seq::<AppMessageTitleRule>::empty());
    None
}

fn group_outcome_exec(
    rule: &AppMessageRuleGroup,
    process_name: &str,
    title_for_match: Option<&str>,
    title_for_template: Option<&str>,
) -> (r: Option<MessageRuleMatch>)
    ensures
        rule_match_view(r) == group_outcome(
            *rule,
            process_name@,
            title_for_match.deep_view(),
            title_for_template.deep_view(),
        ),
{
    let mut addons = resolve_rule_addons(rule);
    if let Some(k) = first_title_hit_exec(title_for_match, &rule.title_rules) {
        let hit = &rule.title_rules[k];
        let own = normalize_discord_buttons(&hit.buttons);
        if own.len() > 0 {
            addons.buttons = own;
        }
        proof {
            assert(button_views(own@).len() == own@.len());
        }
        let text = render_rule_text(hit.text.as_str(), process_name, title_for_template);
        return Some(MessageRuleMatch { status_text: Some(text), addons });
    }
    let template = trim_string(rule.default_text.as_str());
    if !template.as_str().is_empty() {
        let text = render_rule_text(template.as_str(), process_name, title_for_template);
        return Some(MessageRuleMatch { status_text: Some(text), addons });
    }
    if rule.title_rules.len() == 0 && !addons.is_empty() {
        proof {
            assert(button_views(addons.buttons@).len() == addons.buttons@.len());
        }
        return Some(MessageRuleMatch { status_text: None, addons });
    }
    proof {
        assert(button_views(addons.buttons@).len() == addons.buttons@.len());
    }
    None
}

/// The first rule group that applies to the process and gives an outcome.
pub fn match_message_rule(
    process_name: &str,
    process_title_for_match: Option<&str>,
    process_title_for_template: Option<&str>,
    rules: &Vec<AppMessageRuleGroup>,
) -> (r: Option<MessageRuleMatch>)
    ensures
        rule_match_view(r) == match_message_rule_spec(
            process_name@,
            process_title_for_match.deep_view(),
            process_title_for_template.deep_view(),
            rules@,
        ),
{
    let trimmed = trim_string(process_name);
    let process_lower = to_lowercase(trimmed.as_str());
    if process_lower.as_str().is_empty() {
        return None;
    }
    let ghost tm = process_title_for_match.deep_view();
    let ghost tt = process_title_for_template.deep_view();
    let mut i: usize = 0;
    assert(rules@.skip(0) =~= rules@);
    while i < rules.len()
        invariant
            i <= rules.len(),
            tm == process_title_for_match.deep_view(),
            tt == process_title_for_template.deep_view(),
            process_lower@ == lowercased(trim(process_name@)),
            process_lower@.len() > 0,
            match_rules_from(process_lower@, process_name@, tm, tt, rules@) == match_rules_from(
                process_lower@,
                process_name@,
                tm,
                tt,
                rules@.skip(i as int),
            ),
        decreases rules.len() - i,
    {
        let rule = &rules[i];
        proof {
            let rest = rules@.skip(i as int);
            assert(rest[0] == rules@[i as int]);
            assert(rest.drop_first() =~= rules@.skip(i + 1));
        }
        let matcher_trimmed = trim_string(rule.process_match.as_str());
        let matcher = to_lowercase(matcher_trimmed.as_str());
        if !matcher.as_str().is_empty() && contains_str(process_lower.as_str(), matcher.as_str()) {
            let outcome = group_outcome_exec(
                rule,
                process_name,
                process_title_for_match,
                process_title_for_template,
            );
            if outcome.is_some() {
                return outcome;
            }
        }
        i += 1;
    }
    assert(rules@.skip(i as int) =~= Seq::<AppMessageRuleGroup>::empty());
    None
}

} // verus!
