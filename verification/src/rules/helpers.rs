//! Small text helpers used by the rules.
use crate::text::{join, lowercased, push_str, to_lowercase, trim, trim_string};
use vstd::prelude::*;

verus! {

/// The key under which process names are compared: trimmed, then lower-cased.
pub open spec fn process_key(s: Seq<char>) -> Seq<char> {
    lowercased(trim(s))
}

/// Views of a sequence of string slices.
pub open spec fn str_views(vs: Seq<&str>) -> Seq<Seq<char>> {
    vs.map_values(|s: &str| s@)
}

/// The first value that is non-empty once trimmed, trimmed.
pub open spec fn first_non_empty_spec(vs: Seq<Seq<char>>) -> Option<Seq<char>>
    decreases vs.len(),
{
    if vs.len() == 0 {
        None
    } else if trim(vs[0]).len() > 0 {
        Some(trim(vs[0]))
    } else {
        first_non_empty_spec(vs.drop_first())
    }
}

/// The trimmed values that are non-empty, in order.
pub open spec fn non_empty_parts(vs: Seq<Seq<char>>) -> Seq<Seq<char>>
    decreases vs.len(),
{
    if vs.len() == 0 {
        Seq::empty()
    } else {
        let rest = non_empty_parts(vs.drop_last());
        if trim(vs.last()).len() > 0 {
            rest.push(trim(vs.last()))
        } else {
            rest
        }
    }
}

/// The separator between the parts of a presence line.
pub open spec fn dot_sep() -> Seq<char> {
    " \u{b7} "@
}

/// The non-empty parts joined by " · ", or nothing when there is none.
pub open spec fn join_non_empty_spec(vs: Seq<Seq<char>>) -> Option<Seq<char>> {
    if non_empty_parts(vs).len() == 0 {
        None
    } else {
        Some(join(non_empty_parts(vs), dot_sep()))
    }
}

pub fn normalize_process_name(value: &str) -> (r: String)
    ensures
        r@ == process_key(value@),
{
    let trimmed = trim_string(value);
    to_lowercase(trimmed.as_str())
}

pub fn first_non_empty(values: &[&str]) -> (r: Option<String>)
    ensures
        r.deep_view() == first_non_empty_spec(str_views(values@)),
{
    let ghost all = str_views(values@);
    let mut i: usize = 0;
    assert(all.skip(0) =~= all);
    while i < values.len()
        invariant
            i <= values.len(),
            all == str_views(values@),
            first_non_empty_spec(all) == first_non_empty_spec(all.skip(i as int)),
        decreases values.len() - i,
    {
        let trimmed = trim_string(values[i]);
        proof {
            let rest = all.skip(i as int);
            assert(rest[0] == values@[i as int]@);
            assert(rest.drop_first() =~= all.skip(i + 1));
        }
        if !trimmed.as_str().is_empty() {
            return Some(trimmed);
        }
        i += 1;
    }
    assert(all.skip(i as int) =~= Seq::<Seq<char>>::empty());
    None
}

pub fn join_non_empty(values: &[&str]) -> (r: Option<String>)
    ensures
        r.deep_view() == join_non_empty_spec(str_views(values@)),
{
    let ghost all = str_views(values@);
    let mut parts: Vec<String> = Vec::new();
    let mut i: usize = 0;
    while i < values.len()
        invariant
            i <= values.len(),
            all == str_views(values@),
            crate::text::views(parts@) == non_empty_parts(all.take(i as int)),
        decreases values.len() - i,
    {
        let trimmed = trim_string(values[i]);
        proof {
            assert(all.take(i + 1).drop_last() =~= all.take(i as int));
            assert(all.take(i + 1).last() == values@[i as int]@);
        }
        if !trimmed.as_str().is_empty() {
            parts.push(trimmed);
            assert(crate::text::views(parts@) =~= non_empty_parts(all.take(i + 1)));
        }
        i += 1;
    }
    assert(all.take(values.len() as int) =~= all);
    if parts.len() == 0 {
        None
    } else {
        let mut out = String::new();
        let joined = crate::text::join_strings(&parts, " \u{b7} ");
        push_str(&mut out, joined.as_str());
        Some(out)
    }
}

} // verus!
