//! The persisted client state and how it is cleaned before use and before saving.
use crate::models::ClientConfig;
use crate::rules::idempotence::is_own_key;
use crate::rules::normalize::{config_normalized, normalize_client_config};
use crate::text::{lemma_trim_by_slice, lemma_trim_idempotent, lowercased, non_empty,
    non_empty_spec, owned, str_eq, to_lowercase, trim, trim_string, views};
use vstd::prelude::*;

verus! {

/// The locale a state without one gets.
pub const DEFAULT_LOCALE: &'static str = "en-US";

/// The histories keep this many entries.
pub const MAX_HISTORY_RECORDS: usize = 3;

/// An app seen in the foreground.
pub struct AppHistoryEntry {
    pub process_name: String,
    pub process_title: Option<String>,
    pub status_text: Option<String>,
    pub updated_at: Option<String>,
}

/// A media source seen playing.
pub struct PlaySourceHistoryEntry {
    pub source: String,
    pub media_title: Option<String>,
    pub media_artist: Option<String>,
    pub media_album: Option<String>,
    pub media_summary: Option<String>,
    pub updated_at: Option<String>,
}

/// What the client keeps on disk.
pub struct AppStatePayload {
    pub locale: String,
    pub config: ClientConfig,
    pub app_history: Vec<AppHistoryEntry>,
    pub play_source_history: Vec<PlaySourceHistoryEntry>,
}

/// Entry `i` is not blank and no earlier non-blank entry has its key.
pub open spec fn is_first(keys: Seq<Seq<char>>, blank: Seq<bool>, i: int) -> bool {
    !blank[i] && forall|j: int| 0 <= j < i && !blank[j] ==> #[trigger] keys[j] != keys[i]
}

/// The indices below `n` of the first entry of each key, in order.
pub open spec fn firsts(keys: Seq<Seq<char>>, blank: Seq<bool>, n: int) -> Seq<int>
    decreases n,
{
    if n <= 0 {
        Seq::empty()
    } else if is_first(keys, blank, n - 1) {
        firsts(keys, blank, n - 1).push(n - 1)
    } else {
        firsts(keys, blank, n - 1)
    }
}

/// At most `MAX_HISTORY_RECORDS` of them, from the front.
pub open spec fn capped<T>(s: Seq<T>) -> Seq<T> {
    if s.len() > MAX_HISTORY_RECORDS {
        s.take(MAX_HISTORY_RECORDS as int)
    } else {
        s
    }
}

fn key_seen(seen: &Vec<String>, key: &str) -> (r: bool)
    ensures
        r == views(seen@).contains(key@),
{
    let mut i: usize = 0;
    while i < seen.len()
        invariant
            i <= seen.len(),
            forall|j: int| 0 <= j < i ==> seen@[j]@ != key@,
        decreases seen.len() - i,
    {
        if str_eq(seen[i].as_str(), key) {
            assert(views(seen@)[i as int] == key@);
            return true;
        }
        i += 1;
    }
    proof {
        if views(seen@).contains(key@) {
            let k = choose|k: int| 0 <= k < views(seen@).len() && views(seen@)[k] == key@;
            assert(seen@[k]@ == key@);
        }
    }
    false
}

/// The index of the first entry of each key, skipping blank entries.
fn first_occurrences(keys: &Vec<String>, blank: &Vec<bool>) -> (r: Vec<usize>)
    requires
        keys@.len() == blank@.len(),
    ensures
        r@.len() == firsts(views(keys@), blank@, keys@.len() as int).len(),
        forall|k: int|
            0 <= k < r@.len() ==> #[trigger] r@[k] as int == firsts(
                views(keys@),
                blank@,
                keys@.len() as int,
            )[k],
{
    let ghost ks = views(keys@);
    let mut out: Vec<usize> = Vec::new();
    let mut seen: Vec<String> = Vec::new();
    let mut i: usize = 0;
    while i < keys.len()
        invariant
            i <= keys@.len(),
            keys@.len() == blank@.len(),
            ks == views(keys@),
            out@.len() == firsts(ks, blank@, i as int).len(),
            forall|k: int|
                0 <= k < out@.len() ==> #[trigger] out@[k] as int == firsts(ks, blank@, i as int)[k],
            forall|k: Seq<char>|
                views(seen@).contains(k) <==> exists|j: int|
                    0 <= j < i && !blank@[j] && #[trigger] ks[j] == k,
        decreases keys@.len() - i,
    {
        assert(ks[i as int] == keys@[i as int]@);
        let dup = if blank[i] {
            true
        } else {
            key_seen(&seen, keys[i].as_str())
        };
        if dup {
            proof {
                if !blank@[i as int] {
                    let j = choose|j: int| 0 <= j < i && !blank@[j] && #[trigger] ks[j] == ks[i as int];
                    assert(ks[j] == ks[i as int]);
                }
                assert(!is_first(ks, blank@, i as int));
                assert(firsts(ks, blank@, i + 1) == firsts(ks, blank@, i as int));
                assert forall|k: Seq<char>|
                    views(seen@).contains(k) <==> exists|j: int|
                        0 <= j < i + 1 && !blank@[j] && #[trigger] ks[j] == k by {
                    if exists|j: int| 0 <= j < i + 1 && !blank@[j] && #[trigger] ks[j] == k {
                        let j2 = choose|j: int| 0 <= j < i + 1 && !blank@[j] && #[trigger] ks[j] == k;
                        if j2 == i {
                            assert(views(seen@).contains(ks[i as int]));
                        } else {
                            assert(0 <= j2 < i && !blank@[j2] && ks[j2] == k);
                        }
                    }
                }
            }
        } else {
            proof {
                assert forall|j: int| 0 <= j < i && !blank@[j] implies #[trigger] ks[j] != ks[i as int] by {
                    if ks[j] == ks[i as int] {
                        assert(views(seen@).contains(ks[i as int]));
                    }
                }
                assert(is_first(ks, blank@, i as int));
            }
            let ghost seen_before = views(seen@);
            let ghost out_before = out@;
            seen.push(keys[i].clone());
            out.push(i);
            proof {
                assert(firsts(ks, blank@, i + 1) == firsts(ks, blank@, i as int).push(i as int));
                assert(views(seen@) =~= seen_before.push(ks[i as int]));
                assert forall|k: Seq<char>|
                    views(seen@).contains(k) <==> exists|j: int|
                        0 <= j < i + 1 && !blank@[j] && #[trigger] ks[j] == k by {
                    if views(seen@).contains(k) {
                        let m = choose|m: int| 0 <= m < views(seen@).len() && views(seen@)[m] == k;
                        if m < seen_before.len() {
                            assert(seen_before[m] == k);
                            assert(seen_before.contains(k));
                        } else {
                            assert(0 <= i < i + 1 && !blank@[i as int] && ks[i as int] == k);
                        }
                    }
                    if exists|j: int| 0 <= j < i + 1 && !blank@[j] && #[trigger] ks[j] == k {
                        let j2 = choose|j: int| 0 <= j < i + 1 && !blank@[j] && #[trigger] ks[j] == k;
                        if j2 == i {
                            assert(views(seen@)[seen_before.len() as int] == k);
                        } else {
                            assert(seen_before.contains(k));
                            let m = choose|m: int| 0 <= m < seen_before.len() && seen_before[m] == k;
                            assert(views(seen@)[m] == k);
                        }
                    }
                }
            }
        }
        i += 1;
    }
    out
}

/// An app-history entry by its values.
pub struct AppHistoryView {
    pub process_name: Seq<char>,
    pub process_title: Option<Seq<char>>,
    pub status_text: Option<Seq<char>>,
    pub updated_at: Option<Seq<char>>,
}

pub open spec fn app_entry_view(e: AppHistoryEntry) -> AppHistoryView {
    AppHistoryView {
        process_name: e.process_name@,
        process_title: e.process_title.deep_view(),
        status_text: e.status_text.deep_view(),
        updated_at: e.updated_at.deep_view(),
    }
}

/// An entry cleaned: trimmed name, blank optional texts dropped.
pub open spec fn cleaned_app_entry(e: AppHistoryEntry) -> AppHistoryView {
    AppHistoryView {
        process_name: trim(e.process_name@),
        process_title: non_empty_spec(opt_text(e.process_title)),
        status_text: non_empty_spec(opt_text(e.status_text)),
        updated_at: non_empty_spec(opt_text(e.updated_at)),
    }
}

/// The text of an optional string, empty when absent.
pub open spec fn opt_text(s: Option<String>) -> Seq<char> {
    match s {
        Some(v) => v@,
        None => Seq::empty(),
    }
}

pub open spec fn app_keys(vs: Seq<AppHistoryEntry>) -> Seq<Seq<char>> {
    vs.map_values(|e: AppHistoryEntry| lowercased(trim(e.process_name@)))
}

pub open spec fn app_blanks(vs: Seq<AppHistoryEntry>) -> Seq<bool> {
    vs.map_values(|e: AppHistoryEntry| trim(e.process_name@).len() == 0)
}

/// The app history cleaned: blank names dropped, one entry per name
/// (compared case-insensitively, the first wins), at most three.
pub open spec fn normalized_app_history(vs: Seq<AppHistoryEntry>) -> Seq<AppHistoryView> {
    capped(firsts(app_keys(vs), app_blanks(vs), vs.len() as int)).map_values(
        |i: int| cleaned_app_entry(vs[i]),
    )
}

/// A present text trimmed, or nothing when it is absent or blank.
pub fn normalize_optional_string(value: &Option<String>) -> (r: Option<String>)
    ensures
        r.deep_view() == non_empty_spec(opt_text(*value)),
{
    match value {
        Some(v) => non_empty(v.as_str()),
        None => {
            assert(non_empty_spec(Seq::<char>::empty()) is None) by {
                assert(trim(Seq::<char>::empty()).len() == 0);
            }
            None
        },
    }
}

proof fn lemma_firsts_bounds(keys: Seq<Seq<char>>, blank: Seq<bool>, n: int)
    requires
        0 <= n,
    ensures
        forall|k: int| 0 <= k < firsts(keys, blank, n).len() ==> 0 <= #[trigger] firsts(keys, blank, n)[k] < n,
    decreases n,
{
    if n > 0 {
        lemma_firsts_bounds(keys, blank, n - 1);
        let prev = firsts(keys, blank, n - 1);
        assert forall|k: int| 0 <= k < firsts(keys, blank, n).len() implies 0 <= #[trigger] firsts(
            keys,
            blank,
            n,
        )[k] < n by {
            if k < prev.len() {
                assert(firsts(keys, blank, n)[k] == prev[k]);
            }
        }
    }
}

/// The kept indices are first entries of their key, below `n` and in increasing order.
pub proof fn lemma_firsts_ordered(keys: Seq<Seq<char>>, blank: Seq<bool>, n: int)
    requires
        0 <= n,
    ensures
        forall|k: int|
            0 <= k < firsts(keys, blank, n).len() ==> 0 <= #[trigger] firsts(keys, blank, n)[k] < n
                && is_first(keys, blank, firsts(keys, blank, n)[k]),
        forall|k1: int, k2: int|
            0 <= k1 < k2 < firsts(keys, blank, n).len() ==> #[trigger] firsts(keys, blank, n)[k1]
                < #[trigger] firsts(keys, blank, n)[k2],
    decreases n,
{
    if n > 0 {
        lemma_firsts_ordered(keys, blank, n - 1);
        let prev = firsts(keys, blank, n - 1);
        let cur = firsts(keys, blank, n);
        assert forall|k: int| 0 <= k < cur.len() implies 0 <= #[trigger] cur[k] < n && is_first(
            keys,
            blank,
            cur[k],
        ) by {
            if k < prev.len() {
                assert(cur[k] == prev[k]);
            }
        }
        assert forall|k1: int, k2: int| 0 <= k1 < k2 < cur.len() implies #[trigger] cur[k1]
            < #[trigger] cur[k2] by {
            assert(cur[k1] == prev[k1]);
            if k2 < prev.len() {
                assert(cur[k2] == prev[k2]);
            }
        }
    }
}

/// Blank names dropped, one entry per name (case-insensitive, first wins), at most three.
pub fn normalize_app_history(values: &Vec<AppHistoryEntry>) -> (r: Vec<AppHistoryEntry>)
    ensures
        r@.map_values(|e: AppHistoryEntry| app_entry_view(e)) == normalized_app_history(values@),
{
    let mut keys: Vec<String> = Vec::new();
    let mut blank: Vec<bool> = Vec::new();
    let mut i: usize = 0;
    while i < values.len()
        invariant
            i <= values@.len(),
            keys@.len() == i,
            blank@.len() == i,
            forall|k: int| 0 <= k < i ==> (#[trigger] keys@[k])@ == app_keys(values@)[k],
            forall|k: int| 0 <= k < i ==> #[trigger] blank@[k] == app_blanks(values@)[k],
        decreases values@.len() - i,
    {
        let name = trim_string(values[i].process_name.as_str());
        blank.push(name.as_str().is_empty());
        keys.push(to_lowercase(name.as_str()));
        i += 1;
    }
    assert(views(keys@) =~= app_keys(values@));
    assert(blank@ =~= app_blanks(values@));
    let firsts_found = first_occurrences(&keys, &blank);
    let ghost chosen = capped(firsts(app_keys(values@), app_blanks(values@), values@.len() as int));
    proof {
        lemma_firsts_bounds(app_keys(values@), app_blanks(values@), values@.len() as int);
    }
    let mut result: Vec<AppHistoryEntry> = Vec::new();
    let mut k: usize = 0;
    while k < firsts_found.len() && k < MAX_HISTORY_RECORDS
        invariant
            k <= firsts_found@.len(),
            k <= MAX_HISTORY_RECORDS,
            firsts_found@.len() == firsts(app_keys(values@), app_blanks(values@), values@.len() as int).len(),
            forall|m: int|
                0 <= m < firsts_found@.len() ==> #[trigger] firsts_found@[m] as int == firsts(
                    app_keys(values@),
                    app_blanks(values@),
                    values@.len() as int,
                )[m],
            forall|m: int|
                0 <= m < firsts(app_keys(values@), app_blanks(values@), values@.len() as int).len()
                    ==> 0 <= #[trigger] firsts(app_keys(values@), app_blanks(values@), values@.len() as int)[m]
                    < values@.len(),
            result@.len() == k,
            forall|m: int|
                0 <= m < k ==> app_entry_view(#[trigger] result@[m]) == cleaned_app_entry(
                    values@[firsts_found@[m] as int],
                ),
        decreases firsts_found@.len() - k,
    {
        let idx = firsts_found[k];
        assert(idx < values@.len());
        let entry = &values[idx];
        result.push(
            AppHistoryEntry {
                process_name: trim_string(entry.process_name.as_str()),
                process_title: normalize_optional_string(&entry.process_title),
                status_text: normalize_optional_string(&entry.status_text),
                updated_at: normalize_optional_string(&entry.updated_at),
            },
        );
        k += 1;
    }
    assert(result@.map_values(|e: AppHistoryEntry| app_entry_view(e)) =~= normalized_app_history(
        values@,
    ));
    result
}

/// A play-source entry by its values.
pub struct PlaySourceView {
    pub source: Seq<char>,
    pub media_title: Option<Seq<char>>,
    pub media_artist: Option<Seq<char>>,
    pub media_album: Option<Seq<char>>,
    pub media_summary: Option<Seq<char>>,
    pub updated_at: Option<Seq<char>>,
}

pub open spec fn source_entry_view(e: PlaySourceHistoryEntry) -> PlaySourceView {
    PlaySourceView {
        source: e.source@,
        media_title: e.media_title.deep_view(),
        media_artist: e.media_artist.deep_view(),
        media_album: e.media_album.deep_view(),
        media_summary: e.media_summary.deep_view(),
        updated_at: e.updated_at.deep_view(),
    }
}

/// An entry cleaned: its source lower-cased, blank optional texts dropped.
pub open spec fn cleaned_source_entry(e: PlaySourceHistoryEntry) -> PlaySourceView {
    PlaySourceView {
        source: lowercased(trim(e.source@)),
        media_title: non_empty_spec(opt_text(e.media_title)),
        media_artist: non_empty_spec(opt_text(e.media_artist)),
        media_album: non_empty_spec(opt_text(e.media_album)),
        media_summary: non_empty_spec(opt_text(e.media_summary)),
        updated_at: non_empty_spec(opt_text(e.updated_at)),
    }
}

pub open spec fn source_keys(vs: Seq<PlaySourceHistoryEntry>) -> Seq<Seq<char>> {
    vs.map_values(|e: PlaySourceHistoryEntry| lowercased(trim(e.source@)))
}

pub open spec fn source_blanks(vs: Seq<PlaySourceHistoryEntry>) -> Seq<bool> {
    vs.map_values(|e: PlaySourceHistoryEntry| lowercased(trim(e.source@)).len() == 0)
}

/// The play-source history cleaned: sources lower-cased, blank ones dropped,
/// one entry per source (the first wins), at most three.
pub open spec fn normalized_play_source_history(vs: Seq<PlaySourceHistoryEntry>) -> Seq<
    PlaySourceView,
> {
    capped(firsts(source_keys(vs), source_blanks(vs), vs.len() as int)).map_values(
        |i: int| cleaned_source_entry(vs[i]),
    )
}

/// Sources lower-cased, blank ones dropped, one entry per source, at most three.
pub fn normalize_play_source_history(values: &Vec<PlaySourceHistoryEntry>) -> (r: Vec<
    PlaySourceHistoryEntry,
>)
    ensures
        r@.map_values(|e: PlaySourceHistoryEntry| source_entry_view(e))
            == normalized_play_source_history(values@),
{
    let mut keys: Vec<String> = Vec::new();
    let mut blank: Vec<bool> = Vec::new();
    let mut i: usize = 0;
    while i < values.len()
        invariant
            i <= values@.len(),
            keys@.len() == i,
            blank@.len() == i,
            forall|k: int| 0 <= k < i ==> (#[trigger] keys@[k])@ == source_keys(values@)[k],
            forall|k: int| 0 <= k < i ==> #[trigger] blank@[k] == source_blanks(values@)[k],
        decreases values@.len() - i,
    {
        let source = trim_string(values[i].source.as_str());
        let key = to_lowercase(source.as_str());
        blank.push(key.as_str().is_empty());
        keys.push(key);
        i += 1;
    }
    assert(views(keys@) =~= source_keys(values@));
    assert(blank@ =~= source_blanks(values@));
    let firsts_found = first_occurrences(&keys, &blank);
    proof {
        lemma_firsts_bounds(source_keys(values@), source_blanks(values@), values@.len() as int);
    }
    let mut result: Vec<PlaySourceHistoryEntry> = Vec::new();
    let mut k: usize = 0;
    while k < firsts_found.len() && k < MAX_HISTORY_RECORDS
        invariant
            k <= firsts_found@.len(),
            k <= MAX_HISTORY_RECORDS,
            firsts_found@.len() == firsts(source_keys(values@), source_blanks(values@), values@.len() as int).len(),
            forall|m: int|
                0 <= m < firsts_found@.len() ==> #[trigger] firsts_found@[m] as int == firsts(
                    source_keys(values@),
                    source_blanks(values@),
                    values@.len() as int,
                )[m],
            forall|m: int|
                0 <= m < firsts(source_keys(values@), source_blanks(values@), values@.len() as int).len()
                    ==> 0 <= #[trigger] firsts(source_keys(values@), source_blanks(values@), values@.len() as int)[m]
                    < values@.len(),
            result@.len() == k,
            forall|m: int|
                0 <= m < k ==> source_entry_view(#[trigger] result@[m]) == cleaned_source_entry(
                    values@[firsts_found@[m] as int],
                ),
        decreases firsts_found@.len() - k,
    {
        let idx = firsts_found[k];
        assert(idx < values@.len());
        let entry = &values[idx];
        let source = trim_string(entry.source.as_str());
        result.push(
            PlaySourceHistoryEntry {
                source: to_lowercase(source.as_str()),
                media_title: normalize_optional_string(&entry.media_title),
                media_artist: normalize_optional_string(&entry.media_artist),
                media_album: normalize_optional_string(&entry.media_album),
                media_summary: normalize_optional_string(&entry.media_summary),
                updated_at: normalize_optional_string(&entry.updated_at),
            },
        );
        k += 1;
    }
    assert(result@.map_values(|e: PlaySourceHistoryEntry| source_entry_view(e))
        =~= normalized_play_source_history(values@));
    result
}

/// `n` is the cleaned form of the state `o`.
pub open spec fn state_normalized(o: AppStatePayload, n: AppStatePayload) -> bool {
    &&& n.locale@ == (if trim(o.locale@).len() == 0 {
        DEFAULT_LOCALE@
    } else {
        o.locale@
    })
    &&& config_normalized(o.config, n.config)
    &&& n.app_history@.map_values(|e: AppHistoryEntry| app_entry_view(e)) == normalized_app_history(
        o.app_history@,
    )
    &&& n.play_source_history@.map_values(|e: PlaySourceHistoryEntry| source_entry_view(e))
        == normalized_play_source_history(o.play_source_history@)
}

/// With distinct keys and no blank entry, every entry is the first of its key.
proof fn lemma_firsts_all(keys: Seq<Seq<char>>, blank: Seq<bool>, n: int)
    requires
        0 <= n <= keys.len(),
        n <= blank.len(),
        forall|i: int| 0 <= i < n ==> !(#[trigger] blank[i]),
        forall|i: int, j: int| 0 <= i < j < n ==> #[trigger] keys[i] != #[trigger] keys[j],
    ensures
        firsts(keys, blank, n) == Seq::new(n as nat, |i: int| i),
    decreases n,
{
    if n > 0 {
        lemma_firsts_all(keys, blank, n - 1);
        assert(is_first(keys, blank, n - 1));
        assert(Seq::new(n as nat, |i: int| i) =~= Seq::new((n - 1) as nat, |i: int| i).push(n - 1));
    } else {
        assert(Seq::new(0, |i: int| i) =~= Seq::<int>::empty());
    }
}

/// Cleaning a cleaned app history changes nothing.
pub proof fn lemma_app_history_stable(vs: Seq<AppHistoryEntry>, es: Seq<AppHistoryEntry>)
    requires
        es.map_values(|e: AppHistoryEntry| app_entry_view(e)) == normalized_app_history(vs),
    ensures
        normalized_app_history(es) == es.map_values(|e: AppHistoryEntry| app_entry_view(e)),
{
    let keys = app_keys(vs);
    let blank = app_blanks(vs);
    let f = firsts(keys, blank, vs.len() as int);
    lemma_firsts_ordered(keys, blank, vs.len() as int);
    let h = normalized_app_history(vs);
    let n = es.len() as int;
    assert(h.len() == n);
    assert forall|k: int| 0 <= k < n implies {
        &&& trim(#[trigger] es[k].process_name@) == es[k].process_name@
        &&& es[k].process_name@.len() > 0
        &&& cleaned_app_entry(es[k]) == app_entry_view(es[k])
    } by {
        let orig = vs[f[k]];
        assert(h[k] == cleaned_app_entry(orig));
        assert(app_entry_view(es[k]) == h[k]);
        lemma_trim_idempotent(orig.process_name@, false);
        lemma_trim_idempotent(opt_text(orig.process_title), false);
        lemma_trim_idempotent(opt_text(orig.status_text), false);
        lemma_trim_idempotent(opt_text(orig.updated_at), false);
        assert(!blank[f[k]]);
        assert(trim(Seq::<char>::empty()) =~= Seq::<char>::empty()) by {
            lemma_trim_by_slice(Seq::<char>::empty(), false, 0, 0);
        }
    }
    let keys2 = app_keys(es);
    let blank2 = app_blanks(es);
    assert forall|i: int, j: int| 0 <= i < j < n implies #[trigger] keys2[i] != #[trigger] keys2[j] by {
        assert(f[i] < f[j]);
        assert(!blank[f[i]]);
        assert(keys[f[i]] != keys[f[j]]);
        assert(h[i] == cleaned_app_entry(vs[f[i]]));
        assert(h[j] == cleaned_app_entry(vs[f[j]]));
        assert(app_entry_view(es[i]) == h[i]);
        assert(app_entry_view(es[j]) == h[j]);
    }
    assert forall|i: int| 0 <= i < n implies !(#[trigger] blank2[i]) by {
        assert(trim(es[i].process_name@) == es[i].process_name@);
    }
    lemma_firsts_all(keys2, blank2, n);
    let idx = Seq::new(n as nat, |i: int| i);
    assert(capped(idx) == idx);
    assert(normalized_app_history(es) =~= es.map_values(|e: AppHistoryEntry| app_entry_view(e)));
}

/// Cleaning a cleaned play-source history changes nothing when each kept
/// source is its own key (trimmed and lower-cased already).
pub proof fn lemma_play_source_history_stable(
    vs: Seq<PlaySourceHistoryEntry>,
    es: Seq<PlaySourceHistoryEntry>,
)
    requires
        es.map_values(|e: PlaySourceHistoryEntry| source_entry_view(e))
            == normalized_play_source_history(vs),
        forall|k: int| 0 <= k < es.len() ==> is_own_key(#[trigger] es[k].source@),
    ensures
        normalized_play_source_history(es) == es.map_values(
            |e: PlaySourceHistoryEntry| source_entry_view(e),
        ),
{
    let keys = source_keys(vs);
    let blank = source_blanks(vs);
    let f = firsts(keys, blank, vs.len() as int);
    lemma_firsts_ordered(keys, blank, vs.len() as int);
    let h = normalized_play_source_history(vs);
    let n = es.len() as int;
    assert(h.len() == n);
    assert forall|k: int| 0 <= k < n implies {
        &&& (#[trigger] es[k].source@).len() > 0
        &&& cleaned_source_entry(es[k]) == source_entry_view(es[k])
    } by {
        let orig = vs[f[k]];
        assert(h[k] == cleaned_source_entry(orig));
        assert(source_entry_view(es[k]) == h[k]);
        assert(is_own_key(es[k].source@));
        lemma_trim_idempotent(opt_text(orig.media_title), false);
        lemma_trim_idempotent(opt_text(orig.media_artist), false);
        lemma_trim_idempotent(opt_text(orig.media_album), false);
        lemma_trim_idempotent(opt_text(orig.media_summary), false);
        lemma_trim_idempotent(opt_text(orig.updated_at), false);
        assert(!blank[f[k]]);
        assert(trim(Seq::<char>::empty()) =~= Seq::<char>::empty()) by {
            lemma_trim_by_slice(Seq::<char>::empty(), false, 0, 0);
        }
    }
    let keys2 = source_keys(es);
    let blank2 = source_blanks(es);
    assert forall|i: int, j: int| 0 <= i < j < n implies #[trigger] keys2[i] != #[trigger] keys2[j] by {
        assert(f[i] < f[j]);
        assert(!blank[f[i]]);
        assert(keys[f[i]] != keys[f[j]]);
        assert(h[i] == cleaned_source_entry(vs[f[i]]));
        assert(h[j] == cleaned_source_entry(vs[f[j]]));
        assert(source_entry_view(es[i]) == h[i]);
        assert(source_entry_view(es[j]) == h[j]);
        assert(is_own_key(es[i].source@));
        assert(is_own_key(es[j].source@));
    }
    assert forall|i: int| 0 <= i < n implies !(#[trigger] blank2[i]) by {
        assert(is_own_key(es[i].source@));
        assert(es[i].source@.len() > 0);
    }
    lemma_firsts_all(keys2, blank2, n);
    let idx = Seq::new(n as nat, |i: int| i);
    assert(capped(idx) == idx);
    assert(normalized_play_source_history(es) =~= es.map_values(
        |e: PlaySourceHistoryEntry| source_entry_view(e),
    ));
}

/// The state cleaned before use and before saving: a locale set, the
/// configuration normalized, and both histories cleaned.
pub fn normalize_state(payload: &mut AppStatePayload)
    ensures
        state_normalized(*old(payload), *final(payload)),
{
    if trim_string(payload.locale.as_str()).as_str().is_empty() {
        payload.locale = owned(DEFAULT_LOCALE);
    }
    normalize_client_config(&mut payload.config);
    payload.app_history = normalize_app_history(&payload.app_history);
    payload.play_source_history = normalize_play_source_history(&payload.play_source_history);
}

impl AppStatePayload {
    /// A fresh state: no locale yet, the default configuration, empty histories.
    pub fn fresh() -> (r: Self)
        ensures
            r.locale@.len() == 0,
            crate::models::is_default_config(r.config),
            r.app_history@.len() == 0,
            r.play_source_history@.len() == 0,
    {
        AppStatePayload {
            locale: String::new(),
            config: ClientConfig::default(),
            app_history: Vec::new(),
            play_source_history: Vec::new(),
        }
    }
}

/// What reading the state file gave.
pub enum StateFileRead {
    /// There is no state file yet.
    Missing,
    /// The file could not be read.
    Failed(String),
    /// The file holds only whitespace.
    Blank,
    /// The file does not parse as a state (it was set aside).
    Corrupt,
    /// The parsed state.
    Parsed(AppStatePayload),
}

/// Whether file content counts as empty.
pub fn is_blank_content(content: &str) -> (r: bool)
    ensures
        r == (trim(content@).len() == 0),
{
    trim_string(content).as_str().is_empty()
}

/// The state to use after reading the file: a fresh one when the file is
/// missing, blank or corrupt, the parsed one otherwise, normalized either
/// way; a read failure is an error.
pub fn state_from_file(read: StateFileRead) -> (r: Result<AppStatePayload, String>)
    ensures
        match read {
            StateFileRead::Failed(e) => r matches Err(m) && m@ == "Failed to read the state file: "@
                + e@,
            StateFileRead::Parsed(p) => r matches Ok(n) && config_normalized(p.config, n.config)
                && n.locale@ == (if trim(p.locale@).len() == 0 {
                DEFAULT_LOCALE@
            } else {
                p.locale@
            }) && n.app_history@.map_values(|e: AppHistoryEntry| app_entry_view(e))
                == normalized_app_history(p.app_history@)
                && n.play_source_history@.map_values(
                |e: PlaySourceHistoryEntry| source_entry_view(e),
            ) == normalized_play_source_history(p.play_source_history@),
            _ => r matches Ok(n) && n.locale@ == DEFAULT_LOCALE@ && (exists|d: ClientConfig|
                crate::models::is_default_config(d) && config_normalized(d, n.config))
                && n.app_history@.len() == 0 && n.play_source_history@.len() == 0,
        },
{
    let mut payload = match read {
        StateFileRead::Failed(error) => {
            let mut message = owned("Failed to read the state file: ");
            crate::text::push_str(&mut message, error.as_str());
            return Err(message);
        },
        StateFileRead::Parsed(parsed) => parsed,
        _ => AppStatePayload::fresh(),
    };
    let ghost before = payload;
    normalize_state(&mut payload);
    proof {
        if !(read is Parsed) {
            assert(trim(before.locale@).len() == 0) by {
                assert(before.locale@ =~= Seq::<char>::empty());
                assert(trim(Seq::<char>::empty()) =~= Seq::<char>::empty());
            }
            assert(normalized_app_history(before.app_history@) =~= Seq::empty());
            assert(normalized_play_source_history(before.play_source_history@) =~= Seq::empty());
        }
    }
    Ok(payload)
}

} // verus!
