//! What cleaning leaves behind is already clean: each cleaned list or value
//! satisfies a "clean" predicate, and cleaning a clean value changes nothing.
use super::normalize::{
    asset_complete, asset_view, asset_views, at_most_two, button_views, cleaned_asset,
    cleaned_group, first_of_id, first_of_key, group_is_kept, kept_assets, kept_buttons,
    kept_list, kept_title_rules, lemma_kept_buttons_fixed, lemma_kept_buttons_trimmed, lemma_kept_list,
    list_entry, no_empty_entries, normalized_buttons, normalized_party_size, normalized_rule_groups,
    normalized_string_list, rule_group_view, rule_group_views, title_rule_view, title_rule_views,
    cleaned_preset, lemma_buttons_idempotent, lemma_line_format_idempotent, preset_view, AssetV,
    ButtonV, RuleGroupV, TitleRuleV,
};
use crate::models::{
    AppMessageRuleGroup, AppMessageTitleRule, DiscordCustomAsset, DiscordCustomPreset,
    DiscordRichPresenceButtonConfig,
};
use crate::text::{
    ascii_lower, ascii_lower_seq, is_edge, is_ws, lemma_trim_by_slice, lemma_trim_end_prefix,
    lemma_trim_idempotent, lemma_trim_start_head, lowercased, trim, trim_by, trim_end_by,
    trim_start_by,
};
use vstd::prelude::*;

verus! {

// ---------------------------------------------------------------------------
// Texts
// ---------------------------------------------------------------------------

/// A trimmed text starts and ends with a kept character.
pub proof fn lemma_trimmed_ends(t: Seq<char>, punct: bool)
    requires
        trim_by(t, punct) == t,
        t.len() > 0,
    ensures
        !is_edge(t[0], punct),
        !is_edge(t.last(), punct),
{
    let s = trim_start_by(t, punct);
    lemma_trim_start_head(t, punct);
    lemma_trim_end_prefix(s, punct);
    assert(t[0] == s[0]);
}

/// ASCII lower-casing a trimmed text keeps it trimmed, and doing it twice is doing it once.
pub proof fn lemma_ascii_lower_trimmed(t: Seq<char>)
    requires
        trim(t) == t,
    ensures
        trim(ascii_lower_seq(t)) == ascii_lower_seq(t),
        ascii_lower_seq(ascii_lower_seq(t)) == ascii_lower_seq(t),
{
    let u = ascii_lower_seq(t);
    assert forall|i: int| 0 <= i < t.len() implies is_ws(#[trigger] u[i]) == is_ws(t[i]) by {
        if 'A' <= t[i] && t[i] <= 'Z' {
            assert(u[i] == ((t[i] as u32) + 32) as char);
        }
    }
    if t.len() > 0 {
        lemma_trimmed_ends(t, false);
        assert(!is_ws(u[0]) && !is_ws(u[u.len() - 1]));
        lemma_trim_by_slice(u, false, 0, u.len() as int);
        assert(u.subrange(0, u.len() as int) =~= u);
    } else {
        lemma_trim_by_slice(u, false, 0, 0);
        assert(u =~= Seq::<char>::empty());
    }
    assert forall|i: int| 0 <= i < u.len() implies #[trigger] ascii_lower(u[i]) == u[i] by {
        if 'A' <= t[i] && t[i] <= 'Z' {
            assert(u[i] == ((t[i] as u32) + 32) as char);
        }
    }
    assert(ascii_lower_seq(u) =~= u);
}

// ---------------------------------------------------------------------------
// Buttons
// ---------------------------------------------------------------------------

/// A usable button: label and URL non-empty and trimmed.
pub open spec fn clean_button(b: ButtonV) -> bool {
    &&& b.0.len() > 0
    &&& b.1.len() > 0
    &&& trim(b.0) == b.0
    &&& trim(b.1) == b.1
}

/// At most two buttons, each usable.
pub open spec fn clean_buttons(bs: Seq<ButtonV>) -> bool {
    bs.len() <= 2 && forall|i: int| 0 <= i < bs.len() ==> clean_button(#[trigger] bs[i])
}

pub proof fn lemma_normalized_buttons_clean(qs: Seq<DiscordRichPresenceButtonConfig>)
    ensures
        clean_buttons(normalized_buttons(qs)),
{
    lemma_kept_buttons_trimmed(qs);
    let k = kept_buttons(qs);
    let a = at_most_two(k);
    assert forall|i: int| 0 <= i < a.len() implies clean_button(#[trigger] a[i]) by {
        assert(a[i] == k[i]);
    }
}

pub proof fn lemma_clean_buttons_fixed(bs: Seq<DiscordRichPresenceButtonConfig>)
    requires
        clean_buttons(button_views(bs)),
    ensures
        normalized_buttons(bs) == button_views(bs),
{
    assert forall|i: int| 0 <= i < bs.len() implies {
        let b = #[trigger] button_views(bs)[i];
        &&& b.0.len() > 0
        &&& b.1.len() > 0
        &&& trim(b.0) == b.0
        &&& trim(b.1) == b.1
    } by {
        assert(clean_button(button_views(bs)[i]));
    }
    lemma_kept_buttons_fixed(bs);
}

// ---------------------------------------------------------------------------
// Title rules and rule groups
// ---------------------------------------------------------------------------

/// A usable title rule: pattern and text non-empty and trimmed, buttons clean.
pub open spec fn clean_title_rule(t: TitleRuleV) -> bool {
    &&& t.1.len() > 0
    &&& trim(t.1) == t.1
    &&& t.2.len() > 0
    &&& trim(t.2) == t.2
    &&& clean_buttons(t.3)
}

pub proof fn lemma_kept_title_rules_clean(ts: Seq<AppMessageTitleRule>)
    ensures
        forall|k: int|
            0 <= k < kept_title_rules(ts).len() ==> clean_title_rule(
                #[trigger] kept_title_rules(ts)[k],
            ),
    decreases ts.len(),
{
    if ts.len() > 0 {
        lemma_kept_title_rules_clean(ts.drop_last());
        let rest = kept_title_rules(ts.drop_last());
        let t = ts.last();
        lemma_trim_idempotent(t.pattern@, false);
        lemma_trim_idempotent(t.text@, false);
        lemma_normalized_buttons_clean(t.buttons@);
        assert forall|k: int| 0 <= k < kept_title_rules(ts).len() implies clean_title_rule(
            #[trigger] kept_title_rules(ts)[k],
        ) by {
            if k < rest.len() {
                assert(kept_title_rules(ts)[k] == rest[k]);
            }
        }
    }
}

pub proof fn lemma_clean_title_rules_fixed(ts: Seq<AppMessageTitleRule>)
    requires
        forall|k: int| 0 <= k < ts.len() ==> clean_title_rule(#[trigger] title_rule_views(ts)[k]),
    ensures
        kept_title_rules(ts) == title_rule_views(ts),
    decreases ts.len(),
{
    if ts.len() > 0 {
        let p = ts.drop_last();
        assert(title_rule_views(p) =~= title_rule_views(ts).drop_last());
        assert forall|k: int| 0 <= k < p.len() implies clean_title_rule(
            #[trigger] title_rule_views(p)[k],
        ) by {
            assert(title_rule_views(p)[k] == title_rule_views(ts)[k]);
        }
        lemma_clean_title_rules_fixed(p);
        let t = ts.last();
        assert(title_rule_views(ts)[ts.len() - 1] == title_rule_view(t));
        assert(clean_title_rule(title_rule_view(t)));
        lemma_clean_buttons_fixed(t.buttons@);
        assert(title_rule_views(ts) =~= title_rule_views(p).push(title_rule_view(t)));
    } else {
        assert(title_rule_views(ts) =~= Seq::<TitleRuleV>::empty());
    }
}

/// A kept, cleaned rule group.
pub open spec fn clean_group(g: RuleGroupV) -> bool {
    &&& trim(g.process_match) == g.process_match
    &&& trim(g.default_text) == g.default_text
    &&& (forall|k: int| 0 <= k < g.title_rules.len() ==> clean_title_rule(#[trigger] g.title_rules[k]))
    &&& clean_buttons(g.buttons)
    &&& trim(g.party_id) == g.party_id
    &&& g.party_size_current != Some(0u32)
    &&& g.party_size_max != Some(0u32)
    &&& trim(g.join_secret) == g.join_secret
    &&& trim(g.spectate_secret) == g.spectate_secret
    &&& trim(g.match_secret) == g.match_secret
    &&& group_is_kept(g)
}

pub proof fn lemma_normalized_rule_groups_clean(rs: Seq<AppMessageRuleGroup>)
    ensures
        forall|k: int|
            0 <= k < normalized_rule_groups(rs).len() ==> clean_group(
                #[trigger] normalized_rule_groups(rs)[k],
            ),
    decreases rs.len(),
{
    if rs.len() > 0 {
        lemma_normalized_rule_groups_clean(rs.drop_last());
        let rest = normalized_rule_groups(rs.drop_last());
        let r = rs.last();
        lemma_trim_idempotent(r.process_match@, false);
        lemma_trim_idempotent(r.default_text@, false);
        lemma_trim_idempotent(r.party_id@, false);
        lemma_trim_idempotent(r.join_secret@, false);
        lemma_trim_idempotent(r.spectate_secret@, false);
        lemma_trim_idempotent(r.match_secret@, false);
        lemma_kept_title_rules_clean(r.title_rules@);
        lemma_normalized_buttons_clean(r.buttons@);
        assert forall|k: int| 0 <= k < normalized_rule_groups(rs).len() implies clean_group(
            #[trigger] normalized_rule_groups(rs)[k],
        ) by {
            if k < rest.len() {
                assert(normalized_rule_groups(rs)[k] == rest[k]);
            }
        }
    }
}

pub proof fn lemma_clean_group_fixed(r: AppMessageRuleGroup)
    requires
        clean_group(rule_group_view(r)),
    ensures
        cleaned_group(r) == rule_group_view(r),
{
    let ts = r.title_rules@;
    assert forall|k: int| 0 <= k < ts.len() implies clean_title_rule(
        #[trigger] title_rule_views(ts)[k],
    ) by {
        assert(rule_group_view(r).title_rules[k] == title_rule_views(ts)[k]);
    }
    lemma_clean_title_rules_fixed(ts);
    lemma_clean_buttons_fixed(r.buttons@);
}

pub proof fn lemma_clean_groups_fixed(rs: Seq<AppMessageRuleGroup>)
    requires
        forall|k: int| 0 <= k < rs.len() ==> clean_group(#[trigger] rule_group_views(rs)[k]),
    ensures
        normalized_rule_groups(rs) == rule_group_views(rs),
    decreases rs.len(),
{
    if rs.len() > 0 {
        let p = rs.drop_last();
        assert(rule_group_views(p) =~= rule_group_views(rs).drop_last());
        assert forall|k: int| 0 <= k < p.len() implies clean_group(
            #[trigger] rule_group_views(p)[k],
        ) by {
            assert(rule_group_views(p)[k] == rule_group_views(rs)[k]);
        }
        lemma_clean_groups_fixed(p);
        let r = rs.last();
        assert(rule_group_views(rs)[rs.len() - 1] == rule_group_view(r));
        lemma_clean_group_fixed(r);
        assert(rule_group_views(rs) =~= rule_group_views(p).push(rule_group_view(r)));
    } else {
        assert(rule_group_views(rs) =~= Seq::<RuleGroupV>::empty());
    }
}

// ---------------------------------------------------------------------------
// Assets
// ---------------------------------------------------------------------------

/// A complete, cleaned asset.
pub open spec fn clean_asset(a: AssetV) -> bool {
    &&& a.0.len() > 0 && trim(a.0) == a.0
    &&& a.1.len() > 0 && trim(a.1) == a.1
    &&& a.2.len() > 0 && trim(a.2) == a.2
    &&& a.3.len() > 0 && trim(a.3) == a.3
    &&& a.4.len() > 0 && trim(a.4) == a.4 && ascii_lower_seq(a.4) == a.4
    &&& a.6.len() > 0 && trim(a.6) == a.6
}

/// Complete, cleaned assets with distinct ids.
pub open spec fn clean_assets(v: Seq<AssetV>) -> bool {
    &&& forall|k: int| 0 <= k < v.len() ==> clean_asset(#[trigger] v[k])
    &&& forall|k1: int, k2: int| 0 <= k1 < k2 < v.len() ==> (#[trigger] v[k1]).0 != (#[trigger] v[k2]).0
}

proof fn lemma_cleaned_asset_clean(a: DiscordCustomAsset)
    requires
        asset_complete(a),
    ensures
        clean_asset(cleaned_asset(a)),
{
    lemma_trim_idempotent(a.id@, false);
    lemma_trim_idempotent(a.name@, false);
    lemma_trim_idempotent(a.file_name@, false);
    lemma_trim_idempotent(a.stored_path@, false);
    lemma_trim_idempotent(a.content_type@, false);
    lemma_trim_idempotent(a.created_at@, false);
    lemma_ascii_lower_trimmed(trim(a.content_type@));
}

pub proof fn lemma_kept_assets_clean(v: Seq<DiscordCustomAsset>, n: int)
    requires
        0 <= n <= v.len(),
    ensures
        clean_assets(kept_assets(v, n)),
        forall|k: int, m: int|
            0 <= k < kept_assets(v, n).len() && n <= m < v.len() && first_of_id(v, m)
                ==> (#[trigger] kept_assets(v, n)[k]).0 != trim((#[trigger] v[m]).id@),
    decreases n,
{
    if n > 0 {
        lemma_kept_assets_clean(v, n - 1);
        let prev = kept_assets(v, n - 1);
        let cur = kept_assets(v, n);
        if first_of_id(v, n - 1) {
            let e = cleaned_asset(v[n - 1]);
            lemma_cleaned_asset_clean(v[n - 1]);
            assert(cur == prev.push(e));
            assert forall|k: int| 0 <= k < cur.len() implies clean_asset(#[trigger] cur[k]) by {
                if k < prev.len() {
                    assert(cur[k] == prev[k]);
                }
            }
            assert forall|k1: int, k2: int| 0 <= k1 < k2 < cur.len() implies (#[trigger] cur[k1]).0
                != (#[trigger] cur[k2]).0 by {
                assert(cur[k1] == prev[k1]);
                if k2 < prev.len() {
                    assert(cur[k2] == prev[k2]);
                } else {
                    assert(prev[k1].0 != trim(v[n - 1].id@));
                }
            }
            assert forall|k: int, m: int|
                0 <= k < cur.len() && n <= m < v.len() && first_of_id(v, m) implies (
                #[trigger] cur[k]).0 != trim((#[trigger] v[m]).id@) by {
                if k < prev.len() {
                    assert(cur[k] == prev[k]);
                } else {
                    assert(asset_complete(v[n - 1]));
                }
            }
        } else {
            assert(cur == prev);
        }
    }
}

pub proof fn lemma_clean_assets_fixed(b: Seq<DiscordCustomAsset>, n: int)
    requires
        clean_assets(asset_views(b)),
        0 <= n <= b.len(),
    ensures
        kept_assets(b, n) == asset_views(b).take(n),
    decreases n,
{
    if n > 0 {
        lemma_clean_assets_fixed(b, n - 1);
        let a = b[n - 1];
        assert(asset_views(b)[n - 1] == asset_view(a));
        assert(clean_asset(asset_view(a)));
        lemma_ascii_lower_trimmed(a.content_type@);
        assert(cleaned_asset(a) == asset_view(a));
        assert forall|j: int| 0 <= j < n - 1 && asset_complete(#[trigger] b[j]) implies trim(
            b[j].id@,
        ) != trim(a.id@) by {
            assert(asset_views(b)[j] == asset_view(b[j]));
            assert(clean_asset(asset_views(b)[j]));
        }
        assert(first_of_id(b, n - 1));
        assert(asset_views(b).take(n) =~= asset_views(b).take(n - 1).push(asset_view(a)));
    } else {
        assert(asset_views(b).take(0) =~= Seq::<AssetV>::empty());
    }
}

// ---------------------------------------------------------------------------
// String lists
// ---------------------------------------------------------------------------

/// Non-empty trimmed entries whose keys (lower-cased) are distinct.
pub open spec fn clean_list(ws: Seq<Seq<char>>) -> bool {
    &&& forall|k: int| 0 <= k < ws.len() ==> (#[trigger] ws[k]).len() > 0 && trim(ws[k]) == ws[k]
    &&& forall|k1: int, k2: int|
        0 <= k1 < k2 < ws.len() ==> lowercased(#[trigger] ws[k1]) != lowercased(#[trigger] ws[k2])
}

pub proof fn lemma_kept_list_clean(vs: Seq<Seq<char>>, n: int)
    requires
        0 <= n <= vs.len(),
    ensures
        clean_list(kept_list(vs, n, false)),
        forall|k: int, m: int|
            0 <= k < kept_list(vs, n, false).len() && n <= m < vs.len() && first_of_key(vs, m)
                ==> lowercased(#[trigger] kept_list(vs, n, false)[k]) != lowercased(
                trim(#[trigger] vs[m]),
            ),
    decreases n,
{
    if n > 0 {
        lemma_kept_list_clean(vs, n - 1);
        let prev = kept_list(vs, n - 1, false);
        let cur = kept_list(vs, n, false);
        if first_of_key(vs, n - 1) {
            let e = list_entry(vs[n - 1], false);
            lemma_trim_idempotent(vs[n - 1], false);
            assert(cur == prev.push(e));
            assert forall|k: int| 0 <= k < cur.len() implies (#[trigger] cur[k]).len() > 0 && trim(
                cur[k],
            ) == cur[k] by {
                if k < prev.len() {
                    assert(cur[k] == prev[k]);
                }
            }
            assert forall|k1: int, k2: int| 0 <= k1 < k2 < cur.len() implies lowercased(
                #[trigger] cur[k1],
            ) != lowercased(#[trigger] cur[k2]) by {
                assert(cur[k1] == prev[k1]);
                if k2 < prev.len() {
                    assert(cur[k2] == prev[k2]);
                } else {
                    assert(lowercased(prev[k1]) != lowercased(trim(vs[n - 1])));
                }
            }
            assert forall|k: int, m: int|
                0 <= k < cur.len() && n <= m < vs.len() && first_of_key(vs, m) implies lowercased(
                #[trigger] cur[k],
            ) != lowercased(trim(#[trigger] vs[m])) by {
                if k < prev.len() {
                    assert(cur[k] == prev[k]);
                } else {
                    assert(trim(vs[n - 1]).len() > 0);
                }
            }
        } else {
            assert(cur == prev);
        }
    }
}

pub proof fn lemma_clean_list_fixed(ws: Seq<Seq<char>>, n: int)
    requires
        clean_list(ws),
        0 <= n <= ws.len(),
    ensures
        kept_list(ws, n, false) == ws.take(n),
    decreases n,
{
    if n > 0 {
        lemma_clean_list_fixed(ws, n - 1);
        assert forall|j: int| 0 <= j < n - 1 && trim(#[trigger] ws[j]).len() > 0 implies lowercased(
            trim(ws[j]),
        ) != lowercased(trim(ws[n - 1])) by {
            assert(trim(ws[j]) == ws[j]);
        }
        assert(first_of_key(ws, n - 1));
        assert(ws.take(n) =~= ws.take(n - 1).push(ws[n - 1]));
    } else {
        assert(ws.take(0) =~= Seq::<Seq<char>>::empty());
    }
}

/// Cleaning a cleaned list (without lower-casing) changes nothing.
pub proof fn lemma_string_list_idempotent(vs: Seq<Seq<char>>)
    ensures
        normalized_string_list(normalized_string_list(vs, false), false) == normalized_string_list(
            vs,
            false,
        ),
{
    let ws = normalized_string_list(vs, false);
    lemma_kept_list_clean(vs, vs.len() as int);
    lemma_clean_list_fixed(ws, ws.len() as int);
    assert(ws.take(ws.len() as int) =~= ws);
}

/// An entry that is its own key: trimmed and lower-cased already.
pub open spec fn is_own_key(e: Seq<char>) -> bool {
    trim(e) == e && lowercased(e) == e
}

/// A list of distinct, non-empty entries that are their own keys is kept as
/// it is by cleaning with lower-casing.
pub proof fn lemma_keyed_list_fixed(ws: Seq<Seq<char>>, n: int)
    requires
        0 <= n <= ws.len(),
        no_empty_entries(ws),
        forall|k: int| 0 <= k < ws.len() ==> is_own_key(#[trigger] ws[k]),
        forall|k1: int, k2: int| 0 <= k1 < k2 < ws.len() ==> #[trigger] ws[k1] != #[trigger] ws[k2],
    ensures
        kept_list(ws, n, true) == ws.take(n),
    decreases n,
{
    if n > 0 {
        lemma_keyed_list_fixed(ws, n - 1);
        assert(is_own_key(ws[n - 1]));
        assert(ws[n - 1].len() > 0);
        assert forall|j: int| 0 <= j < n - 1 && trim(#[trigger] ws[j]).len() > 0 implies lowercased(
            trim(ws[j]),
        ) != lowercased(trim(ws[n - 1])) by {
            assert(is_own_key(ws[j]));
            assert(ws[j] != ws[n - 1]);
        }
        assert(first_of_key(ws, n - 1));
        assert(list_entry(ws[n - 1], true) == ws[n - 1]);
        assert(ws.take(n) =~= ws.take(n - 1).push(ws[n - 1]));
    } else {
        assert(ws.take(0) =~= Seq::<Seq<char>>::empty());
    }
}

/// Cleaning a list cleaned with lower-casing changes nothing when each of
/// its entries is its own key.
pub proof fn lemma_keyed_list_idempotent(vs: Seq<Seq<char>>)
    requires
        no_empty_entries(normalized_string_list(vs, true)),
        forall|k: int|
            0 <= k < normalized_string_list(vs, true).len() ==> is_own_key(
                #[trigger] normalized_string_list(vs, true)[k],
            ),
    ensures
        normalized_string_list(normalized_string_list(vs, true), true) == normalized_string_list(
            vs,
            true,
        ),
{
    let ws = normalized_string_list(vs, true);
    lemma_kept_list(vs, vs.len() as int, true);
    lemma_keyed_list_fixed(ws, ws.len() as int);
    assert(ws.take(ws.len() as int) =~= ws);
}

// ---------------------------------------------------------------------------
// Presets
// ---------------------------------------------------------------------------

/// Cleaning a preset that is the cleaned form of another changes nothing.
pub proof fn lemma_clean_preset_fixed(p: DiscordCustomPreset, q: DiscordCustomPreset)
    requires
        preset_view(p) == cleaned_preset(q),
    ensures
        cleaned_preset(p) == preset_view(p),
{
    lemma_trim_idempotent(q.name@, false);
    lemma_trim_idempotent(q.custom_app_name@, false);
    lemma_line_format_idempotent(q.details_format@);
    lemma_line_format_idempotent(q.state_format@);
    lemma_trim_idempotent(q.custom_artwork_text@, false);
    lemma_trim_idempotent(q.custom_artwork_asset_id@, false);
    lemma_trim_idempotent(q.custom_app_icon_text@, false);
    lemma_trim_idempotent(q.custom_app_icon_asset_id@, false);
    lemma_buttons_idempotent(q.buttons@, p.buttons@);
    lemma_trim_idempotent(q.party_id@, false);
    lemma_trim_idempotent(q.join_secret@, false);
    lemma_trim_idempotent(q.spectate_secret@, false);
    lemma_trim_idempotent(q.match_secret@, false);
}

} // verus!
