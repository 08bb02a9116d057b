//! Cleaning a configuration: trimming texts, dropping empty or duplicate
//! entries, and moving legacy settings to their current fields.
use crate::models::{
    DiscordActivityType, DiscordAppNameMode, DiscordAssetTextMode, DiscordCustomAppIconSource,
    DiscordCustomArtworkSource, DiscordStatusDisplay, AppTitleRuleMode, AppMessageRuleGroup, AppMessageTitleRule, ClientConfig, DiscordCustomAsset,
    DiscordCustomPreset, DiscordRichPresenceButtonConfig,
};
use crate::text::{
    ascii_lower_seq, lemma_trim_by_slice, lemma_trim_idempotent, lowercased, str_eq,
    to_ascii_lowercase, to_lowercase, trim, trim_string, views,
};
use vstd::prelude::*;

verus! {

/// A button by its label and URL.
pub type ButtonV = (Seq<char>, Seq<char>);

pub open spec fn button_views(bs: Seq<DiscordRichPresenceButtonConfig>) -> Seq<ButtonV> {
    bs.map_values(|b: DiscordRichPresenceButtonConfig| (b.label@, b.url@))
}

/// The buttons with trimmed label and URL, dropping those where either is empty.
pub open spec fn kept_buttons(bs: Seq<DiscordRichPresenceButtonConfig>) -> Seq<ButtonV>
    decreases bs.len(),
{
    if bs.len() == 0 {
        Seq::empty()
    } else {
        let rest = kept_buttons(bs.drop_last());
        let label = trim(bs.last().label@);
        let url = trim(bs.last().url@);
        if label.len() > 0 && url.len() > 0 {
            rest.push((label, url))
        } else {
            rest
        }
    }
}

pub open spec fn at_most_two(x: Seq<ButtonV>) -> Seq<ButtonV> {
    if x.len() > 2 {
        x.take(2)
    } else {
        x
    }
}

/// Discord shows at most two buttons: the first two usable ones.
pub open spec fn normalized_buttons(bs: Seq<DiscordRichPresenceButtonConfig>) -> Seq<ButtonV> {
    at_most_two(kept_buttons(bs))
}

pub open spec fn normalized_party_size(value: Option<u32>) -> Option<u32> {
    match value {
        Some(size) => if size > 0 {
            Some(size)
        } else {
            None
        },
        None => None,
    }
}

/// The line-format value that the settings UI stores for "custom text".
pub open spec fn custom_line_marker() -> Seq<char> {
    "__custom__"@
}

pub open spec fn normalized_line_format(value: Seq<char>) -> Seq<char> {
    if trim(value) == custom_line_marker() {
        Seq::empty()
    } else {
        trim(value)
    }
}

/// Every kept button has a non-empty label and URL that trimming leaves as they are.
pub proof fn lemma_kept_buttons_trimmed(bs: Seq<DiscordRichPresenceButtonConfig>)
    ensures
        forall|i: int|
            0 <= i < kept_buttons(bs).len() ==> {
                let b = #[trigger] kept_buttons(bs)[i];
                &&& b.0.len() > 0
                &&& b.1.len() > 0
                &&& trim(b.0) == b.0
                &&& trim(b.1) == b.1
            },
    decreases bs.len(),
{
    if bs.len() > 0 {
        lemma_kept_buttons_trimmed(bs.drop_last());
        let rest = kept_buttons(bs.drop_last());
        lemma_trim_idempotent(bs.last().label@, false);
        lemma_trim_idempotent(bs.last().url@, false);
        assert forall|i: int| 0 <= i < kept_buttons(bs).len() implies {
            let b = #[trigger] kept_buttons(bs)[i];
            &&& b.0.len() > 0
            &&& b.1.len() > 0
            &&& trim(b.0) == b.0
            &&& trim(b.1) == b.1
        } by {
            if i < rest.len() {
                assert(kept_buttons(bs)[i] == rest[i]);
            }
        }
    }
}

/// Buttons that are already trimmed and complete are all kept as they are.
pub proof fn lemma_kept_buttons_fixed(bs: Seq<DiscordRichPresenceButtonConfig>)
    requires
        forall|i: int|
            0 <= i < bs.len() ==> {
                let b = #[trigger] button_views(bs)[i];
                &&& b.0.len() > 0
                &&& b.1.len() > 0
                &&& trim(b.0) == b.0
                &&& trim(b.1) == b.1
            },
    ensures
        kept_buttons(bs) == button_views(bs),
    decreases bs.len(),
{
    if bs.len() > 0 {
        let t = bs.drop_last();
        assert(button_views(t) =~= button_views(bs).drop_last());
        assert forall|i: int| 0 <= i < t.len() implies {
            let b = #[trigger] button_views(t)[i];
            &&& b.0.len() > 0
            &&& b.1.len() > 0
            &&& trim(b.0) == b.0
            &&& trim(b.1) == b.1
        } by {
            assert(button_views(t)[i] == button_views(bs)[i]);
        }
        lemma_kept_buttons_fixed(t);
        let last = button_views(bs)[bs.len() - 1];
        assert(last == (bs.last().label@, bs.last().url@));
        assert(button_views(bs) =~= button_views(t).push(last));
    } else {
        assert(button_views(bs) =~= Seq::<ButtonV>::empty());
    }
}

/// Cleaning buttons that are already the cleaned form of others changes nothing.
pub proof fn lemma_buttons_idempotent(
    qs: Seq<DiscordRichPresenceButtonConfig>,
    bs: Seq<DiscordRichPresenceButtonConfig>,
)
    requires
        button_views(bs) == normalized_buttons(qs),
    ensures
        normalized_buttons(bs) == button_views(bs),
{
    lemma_kept_buttons_trimmed(qs);
    let k = kept_buttons(qs);
    assert forall|i: int| 0 <= i < bs.len() implies {
        let b = #[trigger] button_views(bs)[i];
        &&& b.0.len() > 0
        &&& b.1.len() > 0
        &&& trim(b.0) == b.0
        &&& trim(b.1) == b.1
    } by {
        assert(button_views(bs).len() == bs.len());
        assert(at_most_two(k).len() <= k.len());
        assert(at_most_two(k)[i] == k[i]);
    }
    lemma_kept_buttons_fixed(bs);
}

/// Cleaning a line format twice is cleaning it once.
pub proof fn lemma_line_format_idempotent(v: Seq<char>)
    ensures
        normalized_line_format(normalized_line_format(v)) == normalized_line_format(v),
{
    reveal_strlit("__custom__");
    lemma_trim_idempotent(v, false);
    let e = Seq::<char>::empty();
    assert(trim(e) =~= e) by {
        lemma_trim_by_slice(e, false, 0, 0);
    }
    assert(e != custom_line_marker()) by {
        assert(custom_line_marker().len() > 0);
    }
}

pub fn normalize_discord_buttons(buttons: &Vec<DiscordRichPresenceButtonConfig>) -> (r: Vec<
    DiscordRichPresenceButtonConfig,
>)
    ensures
        button_views(r@) == normalized_buttons(buttons@),
{
    let mut out: Vec<DiscordRichPresenceButtonConfig> = Vec::new();
    let mut i: usize = 0;
    while i < buttons.len()
        invariant
            i <= buttons.len(),
            button_views(out@) == at_most_two(kept_buttons(buttons@.take(i as int))),
        decreases buttons.len() - i,
    {
        let label = trim_string(buttons[i].label.as_str());
        let url = trim_string(buttons[i].url.as_str());
        proof {
            assert(buttons@.take(i + 1).drop_last() =~= buttons@.take(i as int));
            assert(buttons@.take(i + 1).last() == buttons@[i as int]);
        }
        if !label.as_str().is_empty() && !url.as_str().is_empty() {
            let ghost prev = kept_buttons(buttons@.take(i as int));
            assert(kept_buttons(buttons@.take(i + 1)) == prev.push((label@, url@)));
            if out.len() < 2 {
                assert(button_views(out@).len() == out@.len());
                assert(prev.len() < 2);
                assert(at_most_two(prev) == prev);
                out.push(DiscordRichPresenceButtonConfig { label, url });
                assert(button_views(out@) =~= at_most_two(kept_buttons(buttons@.take(i + 1))));
            } else {
                assert(at_most_two(kept_buttons(buttons@.take(i + 1))) =~= at_most_two(
                    kept_buttons(buttons@.take(i as int)),
                ));
            }
        }
        i += 1;
    }
    assert(buttons@.take(buttons@.len() as int) =~= buttons@);
    out
}

pub fn normalize_party_size(value: Option<u32>) -> (r: Option<u32>)
    ensures
        r == normalized_party_size(value),
{
    match value {
        Some(size) => if size > 0 {
            Some(size)
        } else {
            None
        },
        None => None,
    }
}

pub fn normalize_discord_line_format(value: &str) -> (r: String)
    ensures
        r@ == normalized_line_format(value@),
{
    let trimmed = trim_string(value);
    if str_eq(trimmed.as_str(), "__custom__") {
        String::new()
    } else {
        trimmed
    }
}

/// Entry `i` is the first non-blank entry with its key (trimmed, lower-cased).
pub open spec fn first_of_key(vs: Seq<Seq<char>>, i: int) -> bool {
    trim(vs[i]).len() > 0 && forall|j: int|
        0 <= j < i && trim(#[trigger] vs[j]).len() > 0 ==> lowercased(trim(vs[j])) != lowercased(
            trim(vs[i]),
        )
}

/// What a kept entry becomes: its key when lower-casing, else its trimmed text.
pub open spec fn list_entry(v: Seq<char>, lower: bool) -> Seq<char> {
    if lower {
        lowercased(trim(v))
    } else {
        trim(v)
    }
}

/// The first `n` entries with blanks and repeated keys dropped.
pub open spec fn kept_list(vs: Seq<Seq<char>>, n: int, lower: bool) -> Seq<Seq<char>>
    decreases n,
{
    if n <= 0 {
        Seq::empty()
    } else {
        let rest = kept_list(vs, n - 1, lower);
        if first_of_key(vs, n - 1) {
            rest.push(list_entry(vs[n - 1], lower))
        } else {
            rest
        }
    }
}

/// No two kept entries are equal, none equals what a later first entry of
/// its key would add, and without lower-casing none is empty.
pub proof fn lemma_kept_list(vs: Seq<Seq<char>>, n: int, lower: bool)
    requires
        0 <= n <= vs.len(),
    ensures
        forall|k1: int, k2: int|
            0 <= k1 < k2 < kept_list(vs, n, lower).len() ==> #[trigger] kept_list(vs, n, lower)[k1]
                != #[trigger] kept_list(vs, n, lower)[k2],
        forall|k: int, m: int|
            0 <= k < kept_list(vs, n, lower).len() && n <= m < vs.len() && first_of_key(vs, m)
                ==> #[trigger] kept_list(vs, n, lower)[k] != list_entry(#[trigger] vs[m], lower),
        !lower ==> forall|k: int|
            0 <= k < kept_list(vs, n, lower).len() ==> (#[trigger] kept_list(vs, n, lower)[k]).len()
                > 0,
    decreases n,
{
    if n > 0 {
        lemma_kept_list(vs, n - 1, lower);
        let prev = kept_list(vs, n - 1, lower);
        let cur = kept_list(vs, n, lower);
        if first_of_key(vs, n - 1) {
            let e = list_entry(vs[n - 1], lower);
            assert(cur == prev.push(e));
            assert forall|k1: int, k2: int| 0 <= k1 < k2 < cur.len() implies #[trigger] cur[k1]
                != #[trigger] cur[k2] by {
                assert(cur[k1] == prev[k1]);
                if k2 < prev.len() {
                    assert(cur[k2] == prev[k2]);
                } else {
                    assert(prev[k1] != list_entry(vs[n - 1], lower));
                }
            }
            assert forall|k: int, m: int|
                0 <= k < cur.len() && n <= m < vs.len() && first_of_key(vs, m) implies #[trigger] cur[k]
                != list_entry(#[trigger] vs[m], lower) by {
                if k < prev.len() {
                    assert(cur[k] == prev[k]);
                } else {
                    assert(trim(vs[n - 1]).len() > 0);
                    assert(lowercased(trim(vs[n - 1])) != lowercased(trim(vs[m])));
                }
            }
            if !lower {
                assert forall|k: int| 0 <= k < cur.len() implies (#[trigger] cur[k]).len() > 0 by {
                    if k < prev.len() {
                        assert(cur[k] == prev[k]);
                    }
                }
            }
        } else {
            assert(cur == prev);
        }
    }
}

pub open spec fn normalized_string_list(vs: Seq<Seq<char>>, lower: bool) -> Seq<Seq<char>> {
    kept_list(vs, vs.len() as int, lower)
}

/// No entry of `s` is empty.
pub open spec fn no_empty_entries(s: Seq<Seq<char>>) -> bool {
    forall|i: int| 0 <= i < s.len() ==> (#[trigger] s[i]).len() > 0
}

fn key_seen(seen: &Vec<String>, key: &str) -> (r: bool)
    ensures
        r == views(seen@).contains(key@),
{
    let mut i: usize = 0;
    while i < seen.len()
        invariant
            i <= seen.len(),
            forall|j: int| 0 <= j < i ==> seen@[j]@ != key@,
        decreases seen.len() - i,
    {
        if str_eq(seen[i].as_str(), key) {
            assert(views(seen@)[i as int] == key@);
            return true;
        }
        i += 1;
    }
    proof {
        if views(seen@).contains(key@) {
            let k = choose|k: int| 0 <= k < views(seen@).len() && views(seen@)[k] == key@;
            assert(seen@[k]@ == key@);
        }
    }
    false
}

/// Trims the entries and drops blanks and entries whose key (lower-cased) was
/// already seen; with `lowercase`, the kept entries are their keys. No kept
/// entry is empty.
pub fn normalize_string_list(values: &Vec<String>, lowercase: bool) -> (r: Vec<String>)
    ensures
        views(r@) == normalized_string_list(views(values@), lowercase),
        no_empty_entries(views(r@)),
{
    let ghost vs = views(values@);
    let mut result: Vec<String> = Vec::new();
    let mut seen: Vec<String> = Vec::new();
    let mut i: usize = 0;
    while i < values.len()
        invariant
            i <= values.len(),
            vs == views(values@),
            views(result@) == kept_list(vs, i as int, lowercase),
            no_empty_entries(views(result@)),
            forall|k: Seq<char>|
                views(seen@).contains(k) <==> exists|j: int|
                    0 <= j < i && trim(#[trigger] vs[j]).len() > 0 && lowercased(trim(vs[j])) == k,
        decreases values.len() - i,
    {
        let trimmed = trim_string(values[i].as_str());
        assert(vs[i as int] == values@[i as int]@);
        if trimmed.as_str().is_empty() {
            proof {
                assert(!first_of_key(vs, i as int));
                assert forall|k: Seq<char>|
                    views(seen@).contains(k) <==> exists|j: int|
                        0 <= j < i + 1 && trim(#[trigger] vs[j]).len() > 0 && lowercased(
                            trim(vs[j]),
                        ) == k by {
                    if exists|j: int|
                        0 <= j < i + 1 && trim(#[trigger] vs[j]).len() > 0 && lowercased(
                            trim(vs[j]),
                        ) == k {
                        let j = choose|j: int|
                            0 <= j < i + 1 && trim(#[trigger] vs[j]).len() > 0 && lowercased(
                                trim(vs[j]),
                            ) == k;
                        assert(j < i);
                    }
                }
            }
            i += 1;
            continue;
        }
        let key = to_lowercase(trimmed.as_str());
        if key_seen(&seen, key.as_str()) {
            proof {
                let j = choose|j: int|
                    0 <= j < i && trim(#[trigger] vs[j]).len() > 0 && lowercased(trim(vs[j]))
                        == key@;
                assert(!first_of_key(vs, i as int));
                assert forall|k: Seq<char>|
                    views(seen@).contains(k) <==> exists|j: int|
                        0 <= j < i + 1 && trim(#[trigger] vs[j]).len() > 0 && lowercased(
                            trim(vs[j]),
                        ) == k by {
                    if exists|j: int|
                        0 <= j < i + 1 && trim(#[trigger] vs[j]).len() > 0 && lowercased(
                            trim(vs[j]),
                        ) == k {
                        let j2 = choose|j: int|
                            0 <= j < i + 1 && trim(#[trigger] vs[j]).len() > 0 && lowercased(
                                trim(vs[j]),
                            ) == k;
                        if j2 == i {
                            assert(k == key@);
                        }
                    }
                }
            }
            i += 1;
            continue;
        }
        proof {
            assert forall|j: int|
                0 <= j < i && trim(#[trigger] vs[j]).len() > 0 implies lowercased(trim(vs[j]))
                != lowercased(trim(vs[i as int])) by {
                if lowercased(trim(vs[j])) == lowercased(trim(vs[i as int])) {
                    assert(views(seen@).contains(key@));
                }
            }
            assert(first_of_key(vs, i as int));
        }
        let ghost seen_before = views(seen@);
        let ghost result_before = views(result@);
        seen.push(key.clone());
        if lowercase {
            result.push(key);
        } else {
            result.push(trimmed);
        }
        proof {
            assert(views(result@) =~= kept_list(vs, i as int, lowercase).push(
                list_entry(vs[i as int], lowercase),
            ));
            assert forall|k: int| 0 <= k < views(result@).len() implies (#[trigger] views(
                result@,
            )[k]).len() > 0 by {
                if k < result_before.len() {
                    assert(views(result@)[k] == result_before[k]);
                }
            }
            assert(views(seen@) =~= seen_before.push(key@));
            assert forall|k: Seq<char>|
                views(seen@).contains(k) <==> exists|j: int|
                    0 <= j < i + 1 && trim(#[trigger] vs[j]).len() > 0 && lowercased(trim(vs[j]))
                        == k by {
                if views(seen@).contains(k) {
                    let m = choose|m: int| 0 <= m < views(seen@).len() && views(seen@)[m] == k;
                    if m < seen_before.len() {
                        assert(seen_before[m] == k);
                        assert(seen_before.contains(k));
                    } else {
                        assert(trim(vs[i as int]).len() > 0);
                    }
                }
                if exists|j: int|
                    0 <= j < i + 1 && trim(#[trigger] vs[j]).len() > 0 && lowercased(trim(vs[j]))
                        == k {
                    let j2 = choose|j: int|
                        0 <= j < i + 1 && trim(#[trigger] vs[j]).len() > 0 && lowercased(
                            trim(vs[j]),
                        ) == k;
                    if j2 == i {
                        assert(views(seen@)[seen_before.len() as int] == k);
                    } else {
                        assert(seen_before.contains(k));
                        let m = choose|m: int| 0 <= m < seen_before.len() && seen_before[m] == k;
                        assert(views(seen@)[m] == k);
                    }
                }
            }
        }
        i += 1;
    }
    result
}

/// A title rule by its views.
pub type TitleRuleV = (AppTitleRuleMode, Seq<char>, Seq<char>, Seq<ButtonV>);

pub open spec fn title_rule_view(t: AppMessageTitleRule) -> TitleRuleV {
    (t.mode, t.pattern@, t.text@, button_views(t.buttons@))
}

pub open spec fn title_rule_views(ts: Seq<AppMessageTitleRule>) -> Seq<TitleRuleV> {
    ts.map_values(|t: AppMessageTitleRule| title_rule_view(t))
}

/// Title rules with trimmed pattern and text, dropping those where either is blank.
pub open spec fn kept_title_rules(ts: Seq<AppMessageTitleRule>) -> Seq<TitleRuleV>
    decreases ts.len(),
{
    if ts.len() == 0 {
        Seq::empty()
    } else {
        let rest = kept_title_rules(ts.drop_last());
        let t = ts.last();
        if trim(t.pattern@).len() > 0 && trim(t.text@).len() > 0 {
            rest.push((t.mode, trim(t.pattern@), trim(t.text@), normalized_buttons(t.buttons@)))
        } else {
            rest
        }
    }
}

/// A rule group by its views: matcher, default text, title rules, buttons,
/// party id, party sizes, and the three secrets.
pub struct RuleGroupV {
    pub process_match: Seq<char>,
    pub default_text: Seq<char>,
    pub title_rules: Seq<TitleRuleV>,
    pub buttons: Seq<ButtonV>,
    pub party_id: Seq<char>,
    pub party_size_current: Option<u32>,
    pub party_size_max: Option<u32>,
    pub join_secret: Seq<char>,
    pub spectate_secret: Seq<char>,
    pub match_secret: Seq<char>,
}

pub open spec fn rule_group_view(r: AppMessageRuleGroup) -> RuleGroupV {
    RuleGroupV {
        process_match: r.process_match@,
        default_text: r.default_text@,
        title_rules: title_rule_views(r.title_rules@),
        buttons: button_views(r.buttons@),
        party_id: r.party_id@,
        party_size_current: r.party_size_current,
        party_size_max: r.party_size_max,
        join_secret: r.join_secret@,
        spectate_secret: r.spectate_secret@,
        match_secret: r.match_secret@,
    }
}

pub open spec fn rule_group_views(rs: Seq<AppMessageRuleGroup>) -> Seq<RuleGroupV> {
    rs.map_values(|r: AppMessageRuleGroup| rule_group_view(r))
}

/// A rule group with every text trimmed and its lists cleaned.
pub open spec fn cleaned_group(r: AppMessageRuleGroup) -> RuleGroupV {
    RuleGroupV {
        process_match: trim(r.process_match@),
        default_text: trim(r.default_text@),
        title_rules: kept_title_rules(r.title_rules@),
        buttons: normalized_buttons(r.buttons@),
        party_id: trim(r.party_id@),
        party_size_current: normalized_party_size(r.party_size_current),
        party_size_max: normalized_party_size(r.party_size_max),
        join_secret: trim(r.join_secret@),
        spectate_secret: trim(r.spectate_secret@),
        match_secret: trim(r.match_secret@),
    }
}

/// A cleaned group is kept when its matcher is set and it carries anything at all.
pub open spec fn group_is_kept(g: RuleGroupV) -> bool {
    g.process_match.len() > 0 && !(g.default_text.len() == 0 && g.title_rules.len() == 0
        && g.buttons.len() == 0 && g.party_id.len() == 0 && g.party_size_current is None
        && g.party_size_max is None && g.join_secret.len() == 0 && g.spectate_secret.len() == 0
        && g.match_secret.len() == 0)
}

pub open spec fn normalized_rule_groups(rs: Seq<AppMessageRuleGroup>) -> Seq<RuleGroupV>
    decreases rs.len(),
{
    if rs.len() == 0 {
        Seq::empty()
    } else {
        let rest = normalized_rule_groups(rs.drop_last());
        let g = cleaned_group(rs.last());
        if group_is_kept(g) {
            rest.push(g)
        } else {
            rest
        }
    }
}

fn normalize_title_rules(rules: &Vec<AppMessageTitleRule>) -> (r: Vec<AppMessageTitleRule>)
    ensures
        title_rule_views(r@) == kept_title_rules(rules@),
{
    let mut out: Vec<AppMessageTitleRule> = Vec::new();
    let mut i: usize = 0;
    while i < rules.len()
        invariant
            i <= rules.len(),
            title_rule_views(out@) == kept_title_rules(rules@.take(i as int)),
        decreases rules.len() - i,
    {
        let rule = &rules[i];
        let pattern = trim_string(rule.pattern.as_str());
        let text = trim_string(rule.text.as_str());
        let buttons = normalize_discord_buttons(&rule.buttons);
        proof {
            assert(rules@.take(i + 1).drop_last() =~= rules@.take(i as int));
            assert(rules@.take(i + 1).last() == rules@[i as int]);
        }
        if !pattern.as_str().is_empty() && !text.as_str().is_empty() {
            out.push(AppMessageTitleRule { mode: rule.mode, pattern, text, buttons });
            assert(title_rule_views(out@) =~= kept_title_rules(rules@.take(i + 1)));
        }
        i += 1;
    }
    assert(rules@.take(rules@.len() as int) =~= rules@);
    out
}

fn clean_group(rule: &AppMessageRuleGroup) -> (r: AppMessageRuleGroup)
    ensures
        rule_group_view(r) == cleaned_group(*rule),
{
    AppMessageRuleGroup {
        process_match: trim_string(rule.process_match.as_str()),
        default_text: trim_string(rule.default_text.as_str()),
        title_rules: normalize_title_rules(&rule.title_rules),
        buttons: normalize_discord_buttons(&rule.buttons),
        party_id: trim_string(rule.party_id.as_str()),
        party_size_current: normalize_party_size(rule.party_size_current),
        party_size_max: normalize_party_size(rule.party_size_max),
        join_secret: trim_string(rule.join_secret.as_str()),
        spectate_secret: trim_string(rule.spectate_secret.as_str()),
        match_secret: trim_string(rule.match_secret.as_str()),
    }
}

/// Cleans each rule group and drops groups without a matcher or without any content.
pub fn normalize_rule_groups(rules: &Vec<AppMessageRuleGroup>) -> (r: Vec<AppMessageRuleGroup>)
    ensures
        rule_group_views(r@) == normalized_rule_groups(rules@),
{
    let mut out: Vec<AppMessageRuleGroup> = Vec::new();
    let mut i: usize = 0;
    while i < rules.len()
        invariant
            i <= rules.len(),
            rule_group_views(out@) == normalized_rule_groups(rules@.take(i as int)),
        decreases rules.len() - i,
    {
        let g = clean_group(&rules[i]);
        proof {
            assert(rules@.take(i + 1).drop_last() =~= rules@.take(i as int));
            assert(rules@.take(i + 1).last() == rules@[i as int]);
            assert(title_rule_views(g.title_rules@).len() == g.title_rules@.len());
            assert(button_views(g.buttons@).len() == g.buttons@.len());
        }
        let keep = !g.process_match.as_str().is_empty() && !(g.default_text.as_str().is_empty()
            && g.title_rules.len() == 0 && g.buttons.len() == 0 && g.party_id.as_str().is_empty()
            && g.party_size_current.is_none() && g.party_size_max.is_none()
            && g.join_secret.as_str().is_empty() && g.spectate_secret.as_str().is_empty()
            && g.match_secret.as_str().is_empty());
        if keep {
            out.push(g);
            assert(rule_group_views(out@) =~= normalized_rule_groups(rules@.take(i + 1)));
        }
        i += 1;
    }
    assert(rules@.take(rules@.len() as int) =~= rules@);
    out
}

/// An asset by its views: id, name, file name, stored path, content type, size, creation time.
pub type AssetV = (Seq<char>, Seq<char>, Seq<char>, Seq<char>, Seq<char>, u64, Seq<char>);

pub open spec fn asset_view(a: DiscordCustomAsset) -> AssetV {
    (a.id@, a.name@, a.file_name@, a.stored_path@, a.content_type@, a.byte_size, a.created_at@)
}

pub open spec fn asset_views(v: Seq<DiscordCustomAsset>) -> Seq<AssetV> {
    v.map_values(|a: DiscordCustomAsset| asset_view(a))
}

/// The asset with trimmed texts and a lower-case (ASCII) content type.
pub open spec fn cleaned_asset(a: DiscordCustomAsset) -> AssetV {
    (
        trim(a.id@),
        trim(a.name@),
        trim(a.file_name@),
        trim(a.stored_path@),
        ascii_lower_seq(trim(a.content_type@)),
        a.byte_size,
        trim(a.created_at@),
    )
}

/// Every text of the cleaned asset is non-empty.
pub open spec fn asset_complete(a: DiscordCustomAsset) -> bool {
    let c = cleaned_asset(a);
    c.0.len() > 0 && c.1.len() > 0 && c.2.len() > 0 && c.3.len() > 0 && c.4.len() > 0 && c.6.len()
        > 0
}

/// Asset `i` is complete and no earlier complete asset has its id.
pub open spec fn first_of_id(v: Seq<DiscordCustomAsset>, i: int) -> bool {
    asset_complete(v[i]) && forall|j: int|
        0 <= j < i && asset_complete(#[trigger] v[j]) ==> trim(v[j].id@) != trim(v[i].id@)
}

pub open spec fn kept_assets(v: Seq<DiscordCustomAsset>, n: int) -> Seq<AssetV>
    decreases n,
{
    if n <= 0 {
        Seq::empty()
    } else {
        let rest = kept_assets(v, n - 1);
        if first_of_id(v, n - 1) {
            rest.push(cleaned_asset(v[n - 1]))
        } else {
            rest
        }
    }
}

/// Cleans the assets, dropping incomplete ones and later assets with an id already kept.
pub fn normalize_discord_custom_assets(assets: &Vec<DiscordCustomAsset>) -> (r: Vec<
    DiscordCustomAsset,
>)
    ensures
        asset_views(r@) == kept_assets(assets@, assets@.len() as int),
{
    let ghost v = assets@;
    let mut out: Vec<DiscordCustomAsset> = Vec::new();
    let mut seen: Vec<String> = Vec::new();
    let mut i: usize = 0;
    while i < assets.len()
        invariant
            i <= assets.len(),
            v == assets@,
            asset_views(out@) == kept_assets(v, i as int),
            forall|k: Seq<char>|
                views(seen@).contains(k) <==> exists|j: int|
                    0 <= j < i && asset_complete(#[trigger] v[j]) && trim(v[j].id@) == k,
        decreases assets.len() - i,
    {
        let asset = &assets[i];
        let id = trim_string(asset.id.as_str());
        let name = trim_string(asset.name.as_str());
        let file_name = trim_string(asset.file_name.as_str());
        let stored_path = trim_string(asset.stored_path.as_str());
        let content_trimmed = trim_string(asset.content_type.as_str());
        let content_type = to_ascii_lowercase(content_trimmed.as_str());
        let created_at = trim_string(asset.created_at.as_str());
        let complete = !id.as_str().is_empty() && !name.as_str().is_empty()
            && !file_name.as_str().is_empty() && !stored_path.as_str().is_empty()
            && !content_type.as_str().is_empty() && !created_at.as_str().is_empty();
        assert(complete == asset_complete(v[i as int]));
        if !complete {
            proof {
                assert forall|k: Seq<char>|
                    views(seen@).contains(k) <==> exists|j: int|
                        0 <= j < i + 1 && asset_complete(#[trigger] v[j]) && trim(v[j].id@)
                            == k by {
                    if exists|j: int|
                        0 <= j < i + 1 && asset_complete(#[trigger] v[j]) && trim(v[j].id@) == k {
                        let j = choose|j: int|
                            0 <= j < i + 1 && asset_complete(#[trigger] v[j]) && trim(v[j].id@)
                                == k;
                        assert(j < i);
                    }
                }
            }
            i += 1;
            continue;
        }
        if key_seen(&seen, id.as_str()) {
            proof {
                let j = choose|j: int|
                    0 <= j < i && asset_complete(#[trigger] v[j]) && trim(v[j].id@) == id@;
                assert(!first_of_id(v, i as int));
                assert forall|k: Seq<char>|
                    views(seen@).contains(k) <==> exists|j: int|
                        0 <= j < i + 1 && asset_complete(#[trigger] v[j]) && trim(v[j].id@)
                            == k by {
                    if exists|j: int|
                        0 <= j < i + 1 && asset_complete(#[trigger] v[j]) && trim(v[j].id@) == k {
                        let j2 = choose|j: int|
                            0 <= j < i + 1 && asset_complete(#[trigger] v[j]) && trim(v[j].id@)
                                == k;
                        if j2 == i {
                            assert(k == id@);
                        }
                    }
                }
            }
            i += 1;
            continue;
        }
        proof {
            assert forall|j: int|
                0 <= j < i && asset_complete(#[trigger] v[j]) implies trim(v[j].id@) != trim(
                v[i as int].id@,
            ) by {
                if trim(v[j].id@) == trim(v[i as int].id@) {
                    assert(views(seen@).contains(id@));
                }
            }
            assert(first_of_id(v, i as int));
        }
        let ghost seen_before = views(seen@);
        seen.push(id.clone());
        out.push(
            DiscordCustomAsset {
                id,
                name,
                file_name,
                stored_path,
                content_type,
                byte_size: asset.byte_size,
                created_at,
            },
        );
        proof {
            assert(asset_views(out@) =~= kept_assets(v, i as int).push(cleaned_asset(v[i as int])));
            assert(views(seen@) =~= seen_before.push(id@));
            assert forall|k: Seq<char>|
                views(seen@).contains(k) <==> exists|j: int|
                    0 <= j < i + 1 && asset_complete(#[trigger] v[j]) && trim(v[j].id@) == k by {
                if views(seen@).contains(k) {
                    let m = choose|m: int| 0 <= m < views(seen@).len() && views(seen@)[m] == k;
                    if m < seen_before.len() {
                        assert(seen_before[m] == k);
                        assert(seen_before.contains(k));
                    } else {
                        assert(asset_complete(v[i as int]));
                    }
                }
                if exists|j: int|
                    0 <= j < i + 1 && asset_complete(#[trigger] v[j]) && trim(v[j].id@) == k {
                    let j2 = choose|j: int|
                        0 <= j < i + 1 && asset_complete(#[trigger] v[j]) && trim(v[j].id@) == k;
                    if j2 == i {
                        assert(views(seen@)[seen_before.len() as int] == k);
                    } else {
                        assert(seen_before.contains(k));
                        let m = choose|m: int| 0 <= m < seen_before.len() && seen_before[m] == k;
                        assert(views(seen@)[m] == k);
                    }
                }
            }
        }
        i += 1;
    }
    out
}

/// A preset by its views.
pub struct PresetV {
    pub name: Seq<char>,
    pub activity_type: DiscordActivityType,
    pub status_display: DiscordStatusDisplay,
    pub app_name_mode: DiscordAppNameMode,
    pub custom_app_name: Seq<char>,
    pub details_format: Seq<char>,
    pub state_format: Seq<char>,
    pub custom_artwork_source: DiscordCustomArtworkSource,
    pub custom_artwork_text_mode: DiscordAssetTextMode,
    pub custom_artwork_text: Seq<char>,
    pub custom_artwork_asset_id: Seq<char>,
    pub custom_app_icon_source: DiscordCustomAppIconSource,
    pub custom_app_icon_text_mode: DiscordAssetTextMode,
    pub custom_app_icon_text: Seq<char>,
    pub custom_app_icon_asset_id: Seq<char>,
    pub buttons: Seq<ButtonV>,
    pub party_id: Seq<char>,
    pub party_size_current: Option<u32>,
    pub party_size_max: Option<u32>,
    pub join_secret: Seq<char>,
    pub spectate_secret: Seq<char>,
    pub match_secret: Seq<char>,
}

pub open spec fn preset_view(p: DiscordCustomPreset) -> PresetV {
    PresetV {
        name: p.name@,
        activity_type: p.activity_type,
        status_display: p.status_display,
        app_name_mode: p.app_name_mode,
        custom_app_name: p.custom_app_name@,
        details_format: p.details_format@,
        state_format: p.state_format@,
        custom_artwork_source: p.custom_artwork_source,
        custom_artwork_text_mode: p.custom_artwork_text_mode,
        custom_artwork_text: p.custom_artwork_text@,
        custom_artwork_asset_id: p.custom_artwork_asset_id@,
        custom_app_icon_source: p.custom_app_icon_source,
        custom_app_icon_text_mode: p.custom_app_icon_text_mode,
        custom_app_icon_text: p.custom_app_icon_text@,
        custom_app_icon_asset_id: p.custom_app_icon_asset_id@,
        buttons: button_views(p.buttons@),
        party_id: p.party_id@,
        party_size_current: p.party_size_current,
        party_size_max: p.party_size_max,
        join_secret: p.join_secret@,
        spectate_secret: p.spectate_secret@,
        match_secret: p.match_secret@,
    }
}

/// The preset with trimmed texts, cleaned line formats, buttons and party sizes.
pub open spec fn cleaned_preset(p: DiscordCustomPreset) -> PresetV {
    PresetV {
        name: trim(p.name@),
        activity_type: p.activity_type,
        status_display: p.status_display,
        app_name_mode: p.app_name_mode,
        custom_app_name: trim(p.custom_app_name@),
        details_format: normalized_line_format(p.details_format@),
        state_format: normalized_line_format(p.state_format@),
        custom_artwork_source: p.custom_artwork_source,
        custom_artwork_text_mode: p.custom_artwork_text_mode,
        custom_artwork_text: trim(p.custom_artwork_text@),
        custom_artwork_asset_id: trim(p.custom_artwork_asset_id@),
        custom_app_icon_source: p.custom_app_icon_source,
        custom_app_icon_text_mode: p.custom_app_icon_text_mode,
        custom_app_icon_text: trim(p.custom_app_icon_text@),
        custom_app_icon_asset_id: trim(p.custom_app_icon_asset_id@),
        buttons: normalized_buttons(p.buttons@),
        party_id: trim(p.party_id@),
        party_size_current: normalized_party_size(p.party_size_current),
        party_size_max: normalized_party_size(p.party_size_max),
        join_secret: trim(p.join_secret@),
        spectate_secret: trim(p.spectate_secret@),
        match_secret: trim(p.match_secret@),
    }
}

/// One preset, cleaned.
pub fn normalize_discord_custom_preset(preset: &DiscordCustomPreset) -> (r: DiscordCustomPreset)
    ensures
        preset_view(r) == cleaned_preset(*preset),
{
    DiscordCustomPreset {
        name: trim_string(preset.name.as_str()),
        activity_type: preset.activity_type,
        status_display: preset.status_display,
        app_name_mode: preset.app_name_mode,
        custom_app_name: trim_string(preset.custom_app_name.as_str()),
        details_format: normalize_discord_line_format(preset.details_format.as_str()),
        state_format: normalize_discord_line_format(preset.state_format.as_str()),
        custom_artwork_source: preset.custom_artwork_source,
        custom_artwork_text_mode: preset.custom_artwork_text_mode,
        custom_artwork_text: trim_string(preset.custom_artwork_text.as_str()),
        custom_artwork_asset_id: trim_string(preset.custom_artwork_asset_id.as_str()),
        custom_app_icon_source: preset.custom_app_icon_source,
        custom_app_icon_text_mode: preset.custom_app_icon_text_mode,
        custom_app_icon_text: trim_string(preset.custom_app_icon_text.as_str()),
        custom_app_icon_asset_id: trim_string(preset.custom_app_icon_asset_id.as_str()),
        buttons: normalize_discord_buttons(&preset.buttons),
        party_id: trim_string(preset.party_id.as_str()),
        party_size_current: normalize_party_size(preset.party_size_current),
        party_size_max: normalize_party_size(preset.party_size_max),
        join_secret: trim_string(preset.join_secret.as_str()),
        spectate_secret: trim_string(preset.spectate_secret.as_str()),
        match_secret: trim_string(preset.match_secret.as_str()),
    }
}

/// Every preset cleaned, in order.
pub fn normalize_discord_custom_presets(presets: &Vec<DiscordCustomPreset>) -> (r: Vec<
    DiscordCustomPreset,
>)
    ensures
        r@.len() == presets@.len(),
        forall|i: int| 0 <= i < r@.len() ==> preset_view(#[trigger] r@[i]) == cleaned_preset(presets@[i]),
{
    let mut out: Vec<DiscordCustomPreset> = Vec::new();
    let mut i: usize = 0;
    while i < presets.len()
        invariant
            i <= presets.len(),
            out@.len() == i,
            forall|j: int| 0 <= j < i ==> preset_view(#[trigger] out@[j]) == cleaned_preset(presets@[j]),
        decreases presets.len() - i,
    {
        out.push(normalize_discord_custom_preset(&presets[i]));
        i += 1;
    }
    out
}

pub open spec fn clamp_limit(v: u32) -> u32 {
    if v < 1 {
        1
    } else if v > 50 {
        50
    } else {
        v
    }
}

/// The title-history limit: clamped to 1..=50, and following the record
/// limit while it still has the old default of 5.
pub open spec fn title_limit_spec(record: u32, title: u32) -> u32 {
    if clamp_limit(title) == 5 && clamp_limit(record) != 5 {
        clamp_limit(record)
    } else {
        clamp_limit(title)
    }
}

/// A legacy value, when present, overrides the four per-mode values.
pub open spec fn legacy_or<T>(legacy: Option<T>, current: T) -> T {
    match legacy {
        Some(v) => v,
        None => current,
    }
}

/// The per-mode custom app name: the trimmed legacy name when present, else the trimmed current one.
pub open spec fn custom_app_name_spec(legacy: Option<Seq<char>>, current: Seq<char>) -> Seq<char> {
    match legacy {
        Some(v) => trim(v),
        None => trim(current),
    }
}

/// `n` is the cleaned form of `o`.
pub open spec fn config_normalized(o: ClientConfig, n: ClientConfig) -> bool {
    &&& n.poll_interval_ms == (if o.poll_interval_ms < 1000 {
        1000
    } else {
        o.poll_interval_ms
    })
    &&& n.heartbeat_interval_ms == o.heartbeat_interval_ms
    &&& n.capture_history_record_limit == clamp_limit(o.capture_history_record_limit)
    &&& n.capture_history_title_limit == title_limit_spec(
        o.capture_history_record_limit,
        o.capture_history_title_limit,
    )
    &&& n.runtime_autostart_enabled == (o.runtime_autostart_enabled || o.legacy_reporter_enabled
        || o.legacy_discord_enabled)
    &&& !n.legacy_reporter_enabled
    &&& !n.legacy_discord_enabled
    &&& n.report_foreground_app == o.report_foreground_app
    &&& n.report_window_title == o.report_window_title
    &&& n.report_media == o.report_media
    &&& n.report_play_source == o.report_play_source
    &&& n.report_stopped_media == o.report_stopped_media
    &&& n.discord_report_mode == o.discord_report_mode
    &&& n.discord_activity_type == o.discord_activity_type
    &&& n.discord_application_id@ == trim(o.discord_application_id@)
    &&& n.discord_artwork_worker_upload_url@ == trim(o.discord_artwork_worker_upload_url@)
    &&& n.discord_artwork_worker_token@ == trim(o.discord_artwork_worker_token@)
    &&& n.discord_use_app_artwork == (o.discord_use_app_artwork || o.legacy_discord_use_media_artwork)
    &&& n.discord_use_music_artwork == (o.discord_use_music_artwork
        || o.legacy_discord_use_media_artwork)
    &&& !n.legacy_discord_use_media_artwork
    &&& n.discord_smart_show_app_name == o.discord_smart_show_app_name
    &&& n.discord_smart_status_display == legacy_or(
        o.legacy_discord_status_display,
        o.discord_smart_status_display,
    )
    &&& n.discord_app_status_display == legacy_or(
        o.legacy_discord_status_display,
        o.discord_app_status_display,
    )
    &&& n.discord_custom_mode_status_display == legacy_or(
        o.legacy_discord_status_display,
        o.discord_custom_mode_status_display,
    )
    &&& n.discord_music_status_display == legacy_or(
        o.legacy_discord_status_display,
        o.discord_music_status_display,
    )
    &&& n.discord_smart_app_name_mode == legacy_or(
        o.legacy_discord_app_name_mode,
        o.discord_smart_app_name_mode,
    )
    &&& n.discord_app_app_name_mode == legacy_or(
        o.legacy_discord_app_name_mode,
        o.discord_app_app_name_mode,
    )
    &&& n.discord_custom_mode_app_name_mode == legacy_or(
        o.legacy_discord_app_name_mode,
        o.discord_custom_mode_app_name_mode,
    )
    &&& n.discord_music_app_name_mode == legacy_or(
        o.legacy_discord_app_name_mode,
        o.discord_music_app_name_mode,
    )
    &&& n.discord_smart_custom_app_name@ == custom_app_name_spec(
        o.legacy_discord_custom_app_name.deep_view(),
        o.discord_smart_custom_app_name@,
    )
    &&& n.discord_app_custom_app_name@ == custom_app_name_spec(
        o.legacy_discord_custom_app_name.deep_view(),
        o.discord_app_custom_app_name@,
    )
    &&& n.discord_custom_mode_custom_app_name@ == custom_app_name_spec(
        o.legacy_discord_custom_app_name.deep_view(),
        o.discord_custom_mode_custom_app_name@,
    )
    &&& n.discord_music_custom_app_name@ == custom_app_name_spec(
        o.legacy_discord_custom_app_name.deep_view(),
        o.discord_music_custom_app_name@,
    )
    &&& n.legacy_discord_status_display is None
    &&& n.legacy_discord_app_name_mode is None
    &&& n.legacy_discord_custom_app_name is None
    &&& n.discord_details_format@ == normalized_line_format(o.discord_details_format@)
    &&& n.discord_state_format@ == normalized_line_format(o.discord_state_format@)
    &&& n.discord_custom_artwork_source == o.discord_custom_artwork_source
    &&& n.discord_custom_artwork_text@ == trim(o.discord_custom_artwork_text@)
    &&& n.discord_custom_artwork_asset_id@ == trim(o.discord_custom_artwork_asset_id@)
    &&& n.discord_custom_app_icon_source == o.discord_custom_app_icon_source
    &&& n.discord_custom_app_icon_text@ == trim(o.discord_custom_app_icon_text@)
    &&& n.discord_custom_app_icon_asset_id@ == trim(o.discord_custom_app_icon_asset_id@)
    &&& asset_views(n.discord_custom_assets@) == kept_assets(
        o.discord_custom_assets@,
        o.discord_custom_assets@.len() as int,
    )
    &&& button_views(n.discord_custom_buttons@) == normalized_buttons(o.discord_custom_buttons@)
    &&& n.discord_custom_party_id@ == trim(o.discord_custom_party_id@)
    &&& n.discord_custom_party_size_current == normalized_party_size(
        o.discord_custom_party_size_current,
    )
    &&& n.discord_custom_party_size_max == normalized_party_size(o.discord_custom_party_size_max)
    &&& n.discord_custom_join_secret@ == trim(o.discord_custom_join_secret@)
    &&& n.discord_custom_spectate_secret@ == trim(o.discord_custom_spectate_secret@)
    &&& n.discord_custom_match_secret@ == trim(o.discord_custom_match_secret@)
    &&& n.discord_custom_presets@.len() == o.discord_custom_presets@.len()
    &&& (forall|i: int|
        0 <= i < n.discord_custom_presets@.len() ==> preset_view(
            #[trigger] n.discord_custom_presets@[i],
        ) == cleaned_preset(o.discord_custom_presets@[i]))
    &&& n.app_filter_mode == o.app_filter_mode
    &&& views(n.app_blacklist@) == normalized_string_list(views(o.app_blacklist@), false)
    &&& views(n.app_whitelist@) == normalized_string_list(views(o.app_whitelist@), false)
    &&& views(n.app_name_only_list@) == normalized_string_list(views(o.app_name_only_list@), false)
    &&& views(n.media_play_source_blocklist@) == normalized_string_list(
        views(o.media_play_source_blocklist@),
        true,
    )
    &&& no_empty_entries(views(n.media_play_source_blocklist@))
    &&& rule_group_views(n.app_message_rules@) == normalized_rule_groups(o.app_message_rules@)
    &&& n.app_message_rules_show_process_name == o.app_message_rules_show_process_name
}

fn clamp_u32(v: u32) -> (r: u32)
    ensures
        r == clamp_limit(v),
{
    if v < 1 {
        1
    } else if v > 50 {
        50
    } else {
        v
    }
}

fn custom_app_name(legacy: &Option<String>, current: &String) -> (r: String)
    ensures
        r@ == custom_app_name_spec(legacy.deep_view(), current@),
{
    match legacy {
        Some(v) => trim_string(v.as_str()),
        None => trim_string(current.as_str()),
    }
}

/// Cleans a configuration in place: limits clamped, texts trimmed, lists
/// de-duplicated, and legacy settings moved to their current fields and cleared.
pub fn normalize_client_config(config: &mut ClientConfig)
    ensures
        config_normalized(*old(config), *final(config)),
{
    let mut c = ClientConfig::default();
    std::mem::swap(&mut c, config);
    let poll_interval_ms: u64 = if c.poll_interval_ms < 1000 {
        1000
    } else {
        c.poll_interval_ms
    };
    let record_limit = clamp_u32(c.capture_history_record_limit);
    let title_clamped = clamp_u32(c.capture_history_title_limit);
    let title_limit = if title_clamped == 5 && record_limit != 5 {
        record_limit
    } else {
        title_clamped
    };
    let smart_status = match c.legacy_discord_status_display {
        Some(v) => v,
        None => c.discord_smart_status_display,
    };
    let app_status = match c.legacy_discord_status_display {
        Some(v) => v,
        None => c.discord_app_status_display,
    };
    let custom_status = match c.legacy_discord_status_display {
        Some(v) => v,
        None => c.discord_custom_mode_status_display,
    };
    let music_status = match c.legacy_discord_status_display {
        Some(v) => v,
        None => c.discord_music_status_display,
    };
    let smart_name_mode = match c.legacy_discord_app_name_mode {
        Some(v) => v,
        None => c.discord_smart_app_name_mode,
    };
    let app_name_mode = match c.legacy_discord_app_name_mode {
        Some(v) => v,
        None => c.discord_app_app_name_mode,
    };
    let custom_name_mode = match c.legacy_discord_app_name_mode {
        Some(v) => v,
        None => c.discord_custom_mode_app_name_mode,
    };
    let music_name_mode = match c.legacy_discord_app_name_mode {
        Some(v) => v,
        None => c.discord_music_app_name_mode,
    };
    let smart_custom_name = custom_app_name(
        &c.legacy_discord_custom_app_name,
        &c.discord_smart_custom_app_name,
    );
    let app_custom_name = custom_app_name(
        &c.legacy_discord_custom_app_name,
        &c.discord_app_custom_app_name,
    );
    let custom_custom_name = custom_app_name(
        &c.legacy_discord_custom_app_name,
        &c.discord_custom_mode_custom_app_name,
    );
    let music_custom_name = custom_app_name(
        &c.legacy_discord_custom_app_name,
        &c.discord_music_custom_app_name,
    );
    *config = ClientConfig {
        poll_interval_ms,
        heartbeat_interval_ms: c.heartbeat_interval_ms,
        capture_history_record_limit: record_limit,
        capture_history_title_limit: title_limit,
        runtime_autostart_enabled: c.runtime_autostart_enabled || c.legacy_reporter_enabled
            || c.legacy_discord_enabled,
        legacy_reporter_enabled: false,
        legacy_discord_enabled: false,
        report_foreground_app: c.report_foreground_app,
        report_window_title: c.report_window_title,
        report_media: c.report_media,
        report_play_source: c.report_play_source,
        report_stopped_media: c.report_stopped_media,
        discord_report_mode: c.discord_report_mode,
        discord_activity_type: c.discord_activity_type,
        discord_application_id: trim_string(c.discord_application_id.as_str()),
        discord_artwork_worker_upload_url: trim_string(
            c.discord_artwork_worker_upload_url.as_str(),
        ),
        discord_artwork_worker_token: trim_string(c.discord_artwork_worker_token.as_str()),
        discord_use_app_artwork: c.discord_use_app_artwork || c.legacy_discord_use_media_artwork,
        discord_use_music_artwork: c.discord_use_music_artwork
            || c.legacy_discord_use_media_artwork,
        legacy_discord_use_media_artwork: false,
        discord_smart_show_app_name: c.discord_smart_show_app_name,
        discord_smart_status_display: smart_status,
        discord_app_status_display: app_status,
        discord_custom_mode_status_display: custom_status,
        discord_music_status_display: music_status,
        discord_smart_app_name_mode: smart_name_mode,
        discord_app_app_name_mode: app_name_mode,
        discord_custom_mode_app_name_mode: custom_name_mode,
        discord_music_app_name_mode: music_name_mode,
        discord_smart_custom_app_name: smart_custom_name,
        discord_app_custom_app_name: app_custom_name,
        discord_custom_mode_custom_app_name: custom_custom_name,
        discord_music_custom_app_name: music_custom_name,
        legacy_discord_status_display: None,
        legacy_discord_app_name_mode: None,
        legacy_discord_custom_app_name: None,
        discord_details_format: normalize_discord_line_format(c.discord_details_format.as_str()),
        discord_state_format: normalize_discord_line_format(c.discord_state_format.as_str()),
        discord_custom_artwork_source: c.discord_custom_artwork_source,
        discord_custom_artwork_text: trim_string(c.discord_custom_artwork_text.as_str()),
        discord_custom_artwork_asset_id: trim_string(c.discord_custom_artwork_asset_id.as_str()),
        discord_custom_app_icon_source: c.discord_custom_app_icon_source,
        discord_custom_app_icon_text: trim_string(c.discord_custom_app_icon_text.as_str()),
        discord_custom_app_icon_asset_id: trim_string(
            c.discord_custom_app_icon_asset_id.as_str(),
        ),
        discord_custom_assets: normalize_discord_custom_assets(&c.discord_custom_assets),
        discord_custom_buttons: normalize_discord_buttons(&c.discord_custom_buttons),
        discord_custom_party_id: trim_string(c.discord_custom_party_id.as_str()),
        discord_custom_party_size_current: normalize_party_size(
            c.discord_custom_party_size_current,
        ),
        discord_custom_party_size_max: normalize_party_size(c.discord_custom_party_size_max),
        discord_custom_join_secret: trim_string(c.discord_custom_join_secret.as_str()),
        discord_custom_spectate_secret: trim_string(c.discord_custom_spectate_secret.as_str()),
        discord_custom_match_secret: trim_string(c.discord_custom_match_secret.as_str()),
        discord_custom_presets: normalize_discord_custom_presets(&c.discord_custom_presets),
        app_filter_mode: c.app_filter_mode,
        app_blacklist: normalize_string_list(&c.app_blacklist, false),
        app_whitelist: normalize_string_list(&c.app_whitelist, false),
        app_name_only_list: normalize_string_list(&c.app_name_only_list, false),
        media_play_source_blocklist: normalize_string_list(&c.media_play_source_blocklist, true),
        app_message_rules: normalize_rule_groups(&c.app_message_rules),
        app_message_rules_show_process_name: c.app_message_rules_show_process_name,
    };
}

/// Two configurations agree on every setting (by value), except the media
/// source blocklist.
pub open spec fn same_settings_but_blocklist(a: ClientConfig, b: ClientConfig) -> bool {
    &&& a.poll_interval_ms == b.poll_interval_ms
    &&& a.heartbeat_interval_ms == b.heartbeat_interval_ms
    &&& a.capture_history_record_limit == b.capture_history_record_limit
    &&& a.capture_history_title_limit == b.capture_history_title_limit
    &&& a.runtime_autostart_enabled == b.runtime_autostart_enabled
    &&& a.legacy_reporter_enabled == b.legacy_reporter_enabled
    &&& a.legacy_discord_enabled == b.legacy_discord_enabled
    &&& a.report_foreground_app == b.report_foreground_app
    &&& a.report_window_title == b.report_window_title
    &&& a.report_media == b.report_media
    &&& a.report_play_source == b.report_play_source
    &&& a.report_stopped_media == b.report_stopped_media
    &&& a.discord_report_mode == b.discord_report_mode
    &&& a.discord_activity_type == b.discord_activity_type
    &&& a.discord_application_id@ == b.discord_application_id@
    &&& a.discord_artwork_worker_upload_url@ == b.discord_artwork_worker_upload_url@
    &&& a.discord_artwork_worker_token@ == b.discord_artwork_worker_token@
    &&& a.discord_use_app_artwork == b.discord_use_app_artwork
    &&& a.discord_use_music_artwork == b.discord_use_music_artwork
    &&& a.legacy_discord_use_media_artwork == b.legacy_discord_use_media_artwork
    &&& a.discord_smart_show_app_name == b.discord_smart_show_app_name
    &&& a.discord_smart_status_display == b.discord_smart_status_display
    &&& a.discord_app_status_display == b.discord_app_status_display
    &&& a.discord_custom_mode_status_display == b.discord_custom_mode_status_display
    &&& a.discord_music_status_display == b.discord_music_status_display
    &&& a.discord_smart_app_name_mode == b.discord_smart_app_name_mode
    &&& a.discord_app_app_name_mode == b.discord_app_app_name_mode
    &&& a.discord_custom_mode_app_name_mode == b.discord_custom_mode_app_name_mode
    &&& a.discord_music_app_name_mode == b.discord_music_app_name_mode
    &&& a.discord_smart_custom_app_name@ == b.discord_smart_custom_app_name@
    &&& a.discord_app_custom_app_name@ == b.discord_app_custom_app_name@
    &&& a.discord_custom_mode_custom_app_name@ == b.discord_custom_mode_custom_app_name@
    &&& a.discord_music_custom_app_name@ == b.discord_music_custom_app_name@
    &&& a.legacy_discord_status_display == b.legacy_discord_status_display
    &&& a.legacy_discord_app_name_mode == b.legacy_discord_app_name_mode
    &&& a.legacy_discord_custom_app_name.deep_view() == b.legacy_discord_custom_app_name.deep_view()
    &&& a.discord_details_format@ == b.discord_details_format@
    &&& a.discord_state_format@ == b.discord_state_format@
    &&& a.discord_custom_artwork_source == b.discord_custom_artwork_source
    &&& a.discord_custom_artwork_text@ == b.discord_custom_artwork_text@
    &&& a.discord_custom_artwork_asset_id@ == b.discord_custom_artwork_asset_id@
    &&& a.discord_custom_app_icon_source == b.discord_custom_app_icon_source
    &&& a.discord_custom_app_icon_text@ == b.discord_custom_app_icon_text@
    &&& a.discord_custom_app_icon_asset_id@ == b.discord_custom_app_icon_asset_id@
    &&& asset_views(a.discord_custom_assets@) == asset_views(b.discord_custom_assets@)
    &&& button_views(a.discord_custom_buttons@) == button_views(b.discord_custom_buttons@)
    &&& a.discord_custom_party_id@ == b.discord_custom_party_id@
    &&& a.discord_custom_party_size_current == b.discord_custom_party_size_current
    &&& a.discord_custom_party_size_max == b.discord_custom_party_size_max
    &&& a.discord_custom_join_secret@ == b.discord_custom_join_secret@
    &&& a.discord_custom_spectate_secret@ == b.discord_custom_spectate_secret@
    &&& a.discord_custom_match_secret@ == b.discord_custom_match_secret@
    &&& a.discord_custom_presets@.len() == b.discord_custom_presets@.len()
    &&& (forall|i: int|
        0 <= i < a.discord_custom_presets@.len() ==> preset_view(#[trigger] a.discord_custom_presets@[i])
            == preset_view(b.discord_custom_presets@[i]))
    &&& a.app_filter_mode == b.app_filter_mode
    &&& views(a.app_blacklist@) == views(b.app_blacklist@)
    &&& views(a.app_whitelist@) == views(b.app_whitelist@)
    &&& views(a.app_name_only_list@) == views(b.app_name_only_list@)
    &&& rule_group_views(a.app_message_rules@) == rule_group_views(b.app_message_rules@)
    &&& a.app_message_rules_show_process_name == b.app_message_rules_show_process_name
}

} // verus!
