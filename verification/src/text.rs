//! Character-level text primitives shared by the rules, the platform parsers
//! and the reporter: whitespace, trimming, ASCII case folding, substring
//! search, joining and integer parsing, each with an exact specification.
use vstd::prelude::*;

verus! {

// ---------------------------------------------------------------------------
// Specifications
// ---------------------------------------------------------------------------

/// Characters with the Unicode `White_Space` property (what `char::is_whitespace` tests).
pub open spec fn is_ws(c: char) -> bool {
    ('\u{9}' <= c && c <= '\u{d}') || c == ' ' || c == '\u{85}' || c == '\u{a0}' || c
        == '\u{1680}' || ('\u{2000}' <= c && c <= '\u{200a}') || c == '\u{2028}' || c
        == '\u{2029}' || c == '\u{202f}' || c == '\u{205f}' || c == '\u{3000}'
}

/// Separator characters that template rendering strips from both ends of a line.
pub open spec fn is_edge_punct(c: char) -> bool {
    c == '|' || c == '-' || c == '\u{b7}' || c == '/' || c == '\\' || c == ',' || c == ':' || c
        == ';'
}

/// The characters removed by a trim: whitespace, plus the separators when `punct` holds.
pub open spec fn is_edge(c: char, punct: bool) -> bool {
    is_ws(c) || (punct && is_edge_punct(c))
}

pub open spec fn trim_start_by(s: Seq<char>, punct: bool) -> Seq<char>
    decreases s.len(),
{
    if s.len() > 0 && is_edge(s[0], punct) {
        trim_start_by(s.drop_first(), punct)
    } else {
        s
    }
}

pub open spec fn trim_end_by(s: Seq<char>, punct: bool) -> Seq<char>
    decreases s.len(),
{
    if s.len() > 0 && is_edge(s.last(), punct) {
        trim_end_by(s.drop_last(), punct)
    } else {
        s
    }
}

pub open spec fn trim_by(s: Seq<char>, punct: bool) -> Seq<char> {
    trim_end_by(trim_start_by(s, punct), punct)
}

/// `str::trim`: the text without leading and trailing whitespace.
pub open spec fn trim(s: Seq<char>) -> Seq<char> {
    trim_by(s, false)
}

/// The trimmed text, or nothing when only whitespace remains.
pub open spec fn non_empty_spec(s: Seq<char>) -> Option<Seq<char>> {
    if trim(s).len() == 0 {
        None
    } else {
        Some(trim(s))
    }
}

/// `char::to_ascii_lowercase`.
pub open spec fn ascii_lower(c: char) -> char {
    if 'A' <= c && c <= 'Z' {
        ((c as u32) + 32) as char
    } else {
        c
    }
}

/// `str::to_ascii_lowercase`.
pub open spec fn ascii_lower_seq(s: Seq<char>) -> Seq<char> {
    s.map_values(|c: char| ascii_lower(c))
}

/// `str::eq_ignore_ascii_case`.
pub open spec fn eq_ignore_ascii_case(a: Seq<char>, b: Seq<char>) -> bool {
    ascii_lower_seq(a) == ascii_lower_seq(b)
}

/// The result of `str::to_lowercase` (full Unicode lower-case mapping).
pub uninterp spec fn lowercased(s: Seq<char>) -> Seq<char>;

/// `p` occurs in `s` starting at index `i`.
pub open spec fn occurs_at(s: Seq<char>, p: Seq<char>, i: int) -> bool {
    0 <= i && i + p.len() <= s.len() && s.subrange(i, i + p.len()) == p
}

/// `str::contains` with a string pattern.
pub open spec fn contains_sub(s: Seq<char>, p: Seq<char>) -> bool {
    exists|i: int| occurs_at(s, p, i)
}

pub open spec fn starts_with(s: Seq<char>, p: Seq<char>) -> bool {
    occurs_at(s, p, 0)
}

pub open spec fn ends_with(s: Seq<char>, p: Seq<char>) -> bool {
    occurs_at(s, p, s.len() - p.len())
}

/// The parts joined by `sep` (what `[String]::join` gives).
pub open spec fn join(parts: Seq<Seq<char>>, sep: Seq<char>) -> Seq<char>
    decreases parts.len(),
{
    if parts.len() == 0 {
        Seq::empty()
    } else if parts.len() == 1 {
        parts[0]
    } else {
        join(parts.drop_last(), sep) + sep + parts.last()
    }
}

/// Views of a sequence of strings.
pub open spec fn views(v: Seq<String>) -> Seq<Seq<char>> {
    v.map_values(|s: String| s@)
}

pub open spec fn is_digit(c: char) -> bool {
    '0' <= c && c <= '9'
}

pub open spec fn all_digits(s: Seq<char>) -> bool {
    forall|i: int| 0 <= i < s.len() ==> is_digit(#[trigger] s[i])
}

/// The decimal value of a string of digits.
pub open spec fn digits_value(s: Seq<char>) -> nat
    decreases s.len(),
{
    if s.len() == 0 {
        0
    } else {
        digits_value(s.drop_last()) * 10 + ((s.last() as u32) - ('0' as u32)) as nat
    }
}

/// What `str::parse` gives for an unsigned integer type whose largest value is `max`:
/// an optional `+`, then at least one decimal digit, and a value that fits.
pub open spec fn parse_unsigned(s: Seq<char>, max: nat) -> Option<nat> {
    let body = if s.len() > 0 && s[0] == '+' {
        s.drop_first()
    } else {
        s
    };
    if body.len() > 0 && all_digits(body) && digits_value(body) <= max {
        Some(digits_value(body))
    } else {
        None
    }
}

/// What `str::parse::<i32>` gives: an optional sign, then at least one digit, in range.
pub open spec fn parse_i32_spec(s: Seq<char>) -> Option<int> {
    if s.len() > 0 && s[0] == '-' {
        let body = s.drop_first();
        if body.len() > 0 && all_digits(body) && digits_value(body) <= 0x8000_0000 {
            Some(-(digits_value(body) as int))
        } else {
            None
        }
    } else {
        match parse_unsigned(s, 0x7fff_ffff) {
            Some(v) => Some(v as int),
            None => None,
        }
    }
}

/// The decimal digit for `d` (0..=9).
pub open spec fn digit_char(d: nat) -> char {
    ((d + 48) as u32) as char
}

/// The decimal representation of `n`, as `u64`'s `Display` writes it.
pub open spec fn decimal(n: nat) -> Seq<char>
    decreases n,
{
    if n < 10 {
        seq![digit_char(n)]
    } else {
        decimal(n / 10).push(digit_char(n % 10))
    }
}

/// The index of the first `c` in `s`, if any.
pub open spec fn first_index(s: Seq<char>, c: char) -> Option<int> {
    if exists|i: int| 0 <= i < s.len() && s[i] == c {
        Some(choose|i: int| 0 <= i < s.len() && s[i] == c && forall|j: int| 0 <= j < i ==> s[j] != c)
    } else {
        None
    }
}

/// A line without its trailing carriage return.
pub open spec fn strip_cr(l: Seq<char>) -> Seq<char> {
    if l.len() > 0 && l.last() == '\r' {
        l.drop_last()
    } else {
        l
    }
}

/// The lines of a text as `str::lines` yields them: split at `\n`, each
/// without a trailing `\r`, and no empty line after a final `\n`.
pub open spec fn lines_of(s: Seq<char>) -> Seq<Seq<char>>
    decreases s.len(),
{
    if s.len() == 0 {
        Seq::empty()
    } else {
        match first_index(s, '\n') {
            Some(k) => {
                if 0 <= k < s.len() {
                    seq![strip_cr(s.take(k))] + lines_of(s.skip(k + 1))
                } else {
                    Seq::empty()
                }
            },
            None => seq![strip_cr(s)],
        }
    }
}

/// Every occurrence of the non-empty `pat`, scanning from the left, replaced by `rep`.
pub open spec fn replace_all(s: Seq<char>, pat: Seq<char>, rep: Seq<char>) -> Seq<char>
    decreases s.len(),
{
    if s.len() == 0 {
        Seq::empty()
    } else if pat.len() > 0 && starts_with(s, pat) {
        rep + replace_all(s.skip(pat.len() as int), pat, rep)
    } else {
        seq![s[0]] + replace_all(s.drop_first(), pat, rep)
    }
}

// ---------------------------------------------------------------------------
// Lemmas
// ---------------------------------------------------------------------------

/// Trimming the front drops exactly the leading edge characters.
pub proof fn lemma_trim_start_by(s: Seq<char>, punct: bool, k: int)
    requires
        0 <= k <= s.len(),
        forall|i: int| 0 <= i < k ==> is_edge(#[trigger] s[i], punct),
        k == s.len() || !is_edge(s[k], punct),
    ensures
        trim_start_by(s, punct) == s.subrange(k, s.len() as int),
    decreases k,
{
    if k == 0 {
        assert(s.subrange(0, s.len() as int) =~= s);
    } else {
        let t = s.drop_first();
        assert forall|i: int| 0 <= i < k - 1 implies is_edge(#[trigger] t[i], punct) by {
            assert(t[i] == s[i + 1]);
        }
        lemma_trim_start_by(t, punct, k - 1);
        assert(t.subrange(k - 1, t.len() as int) =~= s.subrange(k, s.len() as int));
    }
}

/// Trimming the back drops exactly the trailing edge characters.
pub proof fn lemma_trim_end_by(s: Seq<char>, punct: bool, k: int)
    requires
        0 <= k <= s.len(),
        forall|i: int| k <= i < s.len() ==> is_edge(#[trigger] s[i], punct),
        k == 0 || !is_edge(s[k - 1], punct),
    ensures
        trim_end_by(s, punct) == s.subrange(0, k),
    decreases s.len() - k,
{
    if k == s.len() {
        assert(s.subrange(0, k) =~= s);
    } else {
        let t = s.drop_last();
        assert(is_edge(s.last(), punct));
        assert forall|i: int| k <= i < t.len() implies is_edge(#[trigger] t[i], punct) by {
            assert(t[i] == s[i]);
        }
        lemma_trim_end_by(t, punct, k);
        assert(t.subrange(0, k) =~= s.subrange(0, k));
    }
}

/// The trim of a string is the middle slice between the first and the last kept characters.
pub proof fn lemma_trim_by_slice(s: Seq<char>, punct: bool, lo: int, hi: int)
    requires
        0 <= lo <= hi <= s.len(),
        forall|i: int| 0 <= i < lo ==> is_edge(#[trigger] s[i], punct),
        forall|i: int| hi <= i < s.len() ==> is_edge(#[trigger] s[i], punct),
        lo < hi ==> !is_edge(s[lo], punct) && !is_edge(s[hi - 1], punct),
        lo == hi ==> forall|i: int| 0 <= i < s.len() ==> is_edge(#[trigger] s[i], punct),
    ensures
        trim_by(s, punct) == s.subrange(lo, hi),
{
    if lo < hi {
        lemma_trim_start_by(s, punct, lo);
        let t = s.subrange(lo, s.len() as int);
        assert forall|i: int| hi - lo <= i < t.len() implies is_edge(#[trigger] t[i], punct) by {
            assert(t[i] == s[i + lo]);
        }
        lemma_trim_end_by(t, punct, hi - lo);
        assert(t.subrange(0, hi - lo) =~= s.subrange(lo, hi));
    } else {
        lemma_trim_start_by(s, punct, s.len() as int);
        assert(s.subrange(s.len() as int, s.len() as int) =~= Seq::<char>::empty());
        assert(trim_end_by(Seq::<char>::empty(), punct) =~= Seq::<char>::empty());
        assert(s.subrange(lo, hi) =~= Seq::<char>::empty());
    }
}

/// What trimming the front leaves does not start with an edge character.
pub proof fn lemma_trim_start_head(s: Seq<char>, punct: bool)
    ensures
        trim_start_by(s, punct).len() == 0 || !is_edge(trim_start_by(s, punct)[0], punct),
    decreases s.len(),
{
    if s.len() > 0 && is_edge(s[0], punct) {
        lemma_trim_start_head(s.drop_first(), punct);
    }
}

/// What trimming the back leaves is a prefix that does not end with an edge character.
pub proof fn lemma_trim_end_prefix(s: Seq<char>, punct: bool)
    ensures
        trim_end_by(s, punct).len() <= s.len(),
        trim_end_by(s, punct) == s.subrange(0, trim_end_by(s, punct).len() as int),
        trim_end_by(s, punct).len() == 0 || !is_edge(trim_end_by(s, punct).last(), punct),
    decreases s.len(),
{
    if s.len() > 0 && is_edge(s.last(), punct) {
        let t = s.drop_last();
        lemma_trim_end_prefix(t, punct);
        let u = trim_end_by(t, punct);
        assert(u =~= s.subrange(0, u.len() as int));
    } else {
        assert(s =~= s.subrange(0, s.len() as int));
    }
}

/// Trimming twice is trimming once.
pub proof fn lemma_trim_idempotent(s: Seq<char>, punct: bool)
    ensures
        trim_by(trim_by(s, punct), punct) == trim_by(s, punct),
{
    let t = trim_start_by(s, punct);
    let u = trim_end_by(t, punct);
    lemma_trim_start_head(s, punct);
    lemma_trim_end_prefix(t, punct);
    if u.len() > 0 {
        assert(u[0] == t[0]);
        assert(!is_edge(u[0], punct));
    }
    assert(trim_start_by(u, punct) == u);
    assert(trim_end_by(u, punct) == u);
}

pub proof fn lemma_digits_value_push(s: Seq<char>, c: char)
    ensures
        digits_value(s.push(c)) == digits_value(s) * 10 + ((c as u32) - ('0' as u32)) as nat,
{
    assert(s.push(c).drop_last() =~= s);
}

/// The decimal representation of `n` is a non-empty run of digits whose value is `n`.
pub proof fn lemma_decimal(n: nat)
    ensures
        decimal(n).len() > 0,
        all_digits(decimal(n)),
        digits_value(decimal(n)) == n,
    decreases n,
{
    if n < 10 {
        let d = decimal(n);
        assert(d.drop_last() =~= Seq::<char>::empty());
        assert(((digit_char(n) as u32) - ('0' as u32)) as nat == n);
        assert(digits_value(d.drop_last()) == 0);
        assert(d.last() == digit_char(n));
    } else {
        lemma_decimal(n / 10);
        lemma_digits_value_push(decimal(n / 10), digit_char(n % 10));
        assert(((digit_char(n % 10) as u32) - ('0' as u32)) as nat == n % 10);
        assert((n / 10) * 10 + n % 10 == n);
        let d = decimal(n);
        assert(d == decimal(n / 10).push(digit_char(n % 10)));
        assert forall|i: int| 0 <= i < d.len() implies is_digit(#[trigger] d[i]) by {
            if i < d.len() - 1 {
                assert(d[i] == decimal(n / 10)[i]);
            }
        }
    }
}

/// Appending a digit never lowers the value.
pub proof fn lemma_digits_value_monotone(s: Seq<char>, k: int)
    requires
        0 <= k <= s.len(),
        all_digits(s),
    ensures
        digits_value(s.subrange(0, k)) <= digits_value(s),
    decreases s.len() - k,
{
    if k < s.len() {
        lemma_digits_value_monotone(s, k + 1);
        let p = s.subrange(0, k + 1);
        assert(p.drop_last() =~= s.subrange(0, k));
        assert(is_digit(s[k]));
        assert(p.last() == s[k]);
    } else {
        assert(s.subrange(0, k) =~= s);
    }
}

// ---------------------------------------------------------------------------
// Executable primitives
// ---------------------------------------------------------------------------

/// Appends one character (`String::push`).
#[verifier::external_body]
pub(crate) fn push_char(s: &mut String, c: char)
    ensures
        final(s)@ == old(s)@.push(c),
{
    s.push(c);
}

/// `str::to_lowercase`: the full Unicode lower-case mapping of `s`. Each
/// character maps to one or more characters, so the result is never shorter
/// than `s`, and it is empty only when `s` is. Nothing more is claimed of the
/// mapping (in particular not that applying it twice changes nothing).
#[verifier::external_body]
pub(crate) fn to_lowercase(s: &str) -> (r: String)
    ensures
        r@ == lowercased(s@),
        r@.len() >= s@.len(),
        s@.len() == 0 ==> r@.len() == 0,
{
    s.to_lowercase()
}

/// The characters of a string, in order.
pub fn chars_of(s: &str) -> (v: Vec<char>)
    ensures
        v@ == s@,
{
    let mut v: Vec<char> = Vec::new();
    for c in it: s.chars()
        invariant
            v@ == it.seq().take(it.index() as int),
            it.seq() == s@,
    {
        v.push(c);
    }
    v
}

/// A string holding `v[lo..hi]`.
pub fn string_from_range(v: &Vec<char>, lo: usize, hi: usize) -> (r: String)
    requires
        lo <= hi <= v.len(),
    ensures
        r@ == v@.subrange(lo as int, hi as int),
{
    let mut out = String::new();
    let mut i = lo;
    while i < hi
        invariant
            lo <= i <= hi <= v.len(),
            out@ == v@.subrange(lo as int, i as int),
        decreases hi - i,
    {
        push_char(&mut out, v[i]);
        assert(v@.subrange(lo as int, i + 1) =~= v@.subrange(lo as int, i as int).push(v@[i as int]));
        i += 1;
    }
    out
}

/// A string holding the characters of `v`.
pub fn string_from_chars(v: &Vec<char>) -> (r: String)
    ensures
        r@ == v@,
{
    let r = string_from_range(v, 0, v.len());
    assert(v@.subrange(0, v.len() as int) =~= v@);
    r
}

/// An owned copy of a string slice.
pub fn owned(s: &str) -> (r: String)
    ensures
        r@ == s@,
{
    s.to_owned()
}

/// Appends a string slice.
pub fn push_str(out: &mut String, s: &str)
    ensures
        final(out)@ == old(out)@ + s@,
{
    let ghost start = out@;
    for c in it: s.chars()
        invariant
            out@ == start + it.seq().take(it.index() as int),
            it.seq() == s@,
    {
        push_char(out, c);
        proof {
            assert(it.seq().take(it.index() + 1) =~= it.seq().take(it.index() as int).push(c));
        }
    }
    assert(s@.take(s@.len() as int) =~= s@);
}

/// `char::is_whitespace`.
pub fn is_whitespace(c: char) -> (r: bool)
    ensures
        r == is_ws(c),
{
    ('\u{9}' <= c && c <= '\u{d}') || c == ' ' || c == '\u{85}' || c == '\u{a0}' || c
        == '\u{1680}' || ('\u{2000}' <= c && c <= '\u{200a}') || c == '\u{2028}' || c
        == '\u{2029}' || c == '\u{202f}' || c == '\u{205f}' || c == '\u{3000}'
}

pub fn is_edge_char(c: char, punct: bool) -> (r: bool)
    ensures
        r == is_edge(c, punct),
{
    is_whitespace(c) || (punct && (c == '|' || c == '-' || c == '\u{b7}' || c == '/' || c == '\\'
        || c == ',' || c == ':' || c == ';'))
}

/// The bounds `lo..hi` of the trimmed part of `v`.
pub fn trim_bounds(v: &Vec<char>, punct: bool) -> (r: (usize, usize))
    ensures
        r.0 <= r.1 <= v.len(),
        trim_by(v@, punct) == v@.subrange(r.0 as int, r.1 as int),
{
    let n = v.len();
    let mut lo: usize = 0;
    while lo < n && is_edge_char(v[lo], punct)
        invariant
            lo <= n == v.len(),
            forall|i: int| 0 <= i < lo ==> is_edge(#[trigger] v@[i], punct),
        decreases n - lo,
    {
        lo += 1;
    }
    let mut hi: usize = n;
    while hi > lo && is_edge_char(v[hi - 1], punct)
        invariant
            lo <= hi <= n == v.len(),
            forall|i: int| hi <= i < n ==> is_edge(#[trigger] v@[i], punct),
            forall|i: int| 0 <= i < lo ==> is_edge(#[trigger] v@[i], punct),
            lo == n || !is_edge(v@[lo as int], punct),
        decreases hi - lo,
    {
        hi -= 1;
    }
    proof {
        if lo == hi {
            assert forall|i: int| 0 <= i < v@.len() implies is_edge(#[trigger] v@[i], punct) by {
                if i >= lo {
                    assert(i >= hi);
                }
            }
        }
        lemma_trim_by_slice(v@, punct, lo as int, hi as int);
    }
    (lo, hi)
}

/// `str::trim`, as an owned string.
pub fn trim_string(s: &str) -> (r: String)
    ensures
        r@ == trim(s@),
{
    let v = chars_of(s);
    let (lo, hi) = trim_bounds(&v, false);
    string_from_range(&v, lo, hi)
}

/// Trims whitespace, and the separators when `punct` holds, from both ends.
pub fn trim_edges(s: &str, punct: bool) -> (r: String)
    ensures
        r@ == trim_by(s@, punct),
{
    let v = chars_of(s);
    let (lo, hi) = trim_bounds(&v, punct);
    string_from_range(&v, lo, hi)
}

/// Whether the text is empty once trimmed.
pub fn is_blank(s: &str) -> (r: bool)
    ensures
        r == (trim(s@).len() == 0),
{
    let v = chars_of(s);
    let (lo, hi) = trim_bounds(&v, false);
    lo == hi
}

/// The trimmed text, or `None` when nothing but whitespace remains.
pub fn non_empty(value: &str) -> (r: Option<String>)
    ensures
        r.deep_view() == non_empty_spec(value@),
{
    let trimmed = trim_string(value);
    if trimmed.as_str().is_empty() {
        None
    } else {
        Some(trimmed)
    }
}

/// `char::to_ascii_lowercase`.
pub fn to_ascii_lower_char(c: char) -> (r: char)
    ensures
        r == ascii_lower(c),
{
    if 'A' <= c && c <= 'Z' {
        let code: u8 = c as u8;
        assert(code as u32 == c as u32);
        let lowered: u8 = code + 32;
        let r = lowered as char;
        assert(r as u32 == lowered as u32);
        r
    } else {
        c
    }
}

/// `str::to_ascii_lowercase`.
pub fn to_ascii_lowercase(s: &str) -> (r: String)
    ensures
        r@ == ascii_lower_seq(s@),
{
    let mut out = String::new();
    for c in it: s.chars()
        invariant
            out@ == ascii_lower_seq(it.seq().take(it.index() as int)),
            it.seq() == s@,
    {
        push_char(&mut out, to_ascii_lower_char(c));
        proof {
            assert(ascii_lower_seq(it.seq().take(it.index() + 1)) =~= ascii_lower_seq(
                it.seq().take(it.index() as int),
            ).push(ascii_lower(c)));
        }
    }
    assert(s@.take(s@.len() as int) =~= s@);
    out
}

/// Equality of two strings.
pub fn str_eq(a: &str, b: &str) -> (r: bool)
    ensures
        r == (a@ == b@),
{
    let va = chars_of(a);
    let vb = chars_of(b);
    if va.len() != vb.len() {
        return false;
    }
    let mut i: usize = 0;
    while i < va.len()
        invariant
            va.len() == vb.len(),
            i <= va.len(),
            va@ == a@,
            vb@ == b@,
            forall|j: int| 0 <= j < i ==> va@[j] == vb@[j],
        decreases va.len() - i,
    {
        if va[i] != vb[i] {
            return false;
        }
        i += 1;
    }
    assert(va@ =~= vb@);
    true
}

/// `str::eq_ignore_ascii_case`.
pub fn eq_ignore_case_ascii(a: &str, b: &str) -> (r: bool)
    ensures
        r == eq_ignore_ascii_case(a@, b@),
{
    let la = to_ascii_lowercase(a);
    let lb = to_ascii_lowercase(b);
    str_eq(la.as_str(), lb.as_str())
}

/// Whether `p` occurs in `s` at index `i` (characters).
pub fn occurs_at_exec(s: &Vec<char>, p: &Vec<char>, i: usize) -> (r: bool)
    requires
        i + p.len() <= s.len(),
    ensures
        r == occurs_at(s@, p@, i as int),
{
    let mut j: usize = 0;
    while j < p.len()
        invariant
            i + p.len() <= s.len(),
            j <= p.len(),
            forall|k: int| 0 <= k < j ==> s@[i + k] == p@[k],
        decreases p.len() - j,
    {
        if s[i + j] != p[j] {
            assert(s@.subrange(i as int, i + p.len())[j as int] != p@[j as int]);
            return false;
        }
        j += 1;
    }
    assert(s@.subrange(i as int, i + p.len()) =~= p@);
    true
}

/// The first index at or after `from` where `p` occurs in `s`.
pub fn find_from(s: &Vec<char>, p: &Vec<char>, from: usize) -> (r: Option<usize>)
    ensures
        match r {
            Some(i) => from <= i && occurs_at(s@, p@, i as int) && forall|k: int|
                from <= k < i ==> !occurs_at(s@, p@, k),
            None => forall|k: int| from <= k ==> !occurs_at(s@, p@, k),
        },
{
    if p.len() > s.len() {
        return None;
    }
    let last = s.len() - p.len();
    let mut i = from;
    while i <= last
        invariant
            last + p.len() == s.len(),
            from <= i,
            forall|k: int| from <= k < i ==> !occurs_at(s@, p@, k),
        decreases last + 1 - i,
    {
        if occurs_at_exec(s, p, i) {
            return Some(i);
        }
        if i == last {
            return None;
        }
        i += 1;
    }
    None
}

/// `str::contains` with a string pattern.
pub fn contains_str(s: &str, p: &str) -> (r: bool)
    ensures
        r == contains_sub(s@, p@),
{
    let vs = chars_of(s);
    let vp = chars_of(p);
    match find_from(&vs, &vp, 0) {
        Some(_) => true,
        None => {
            assert forall|k: int| !occurs_at(s@, p@, k) by {
                if k < 0 {
                }
            }
            false
        },
    }
}

/// `str::starts_with` with a string pattern.
pub fn starts_with_str(s: &str, p: &str) -> (r: bool)
    ensures
        r == starts_with(s@, p@),
{
    let vs = chars_of(s);
    let vp = chars_of(p);
    if vp.len() > vs.len() {
        return false;
    }
    occurs_at_exec(&vs, &vp, 0)
}

/// `str::ends_with` with a string pattern.
pub fn ends_with_str(s: &str, p: &str) -> (r: bool)
    ensures
        r == ends_with(s@, p@),
{
    let vs = chars_of(s);
    let vp = chars_of(p);
    if vp.len() > vs.len() {
        return false;
    }
    occurs_at_exec(&vs, &vp, vs.len() - vp.len())
}

/// Joins the parts with `sep` between consecutive ones.
pub fn join_strings(parts: &Vec<String>, sep: &str) -> (r: String)
    ensures
        r@ == join(views(parts@), sep@),
{
    let mut out = String::new();
    let ghost all = views(parts@);
    let mut i: usize = 0;
    while i < parts.len()
        invariant
            i <= parts.len(),
            all == views(parts@),
            out@ == join(all.take(i as int), sep@),
        decreases parts.len() - i,
    {
        proof {
            assert(all.take(i + 1).drop_last() =~= all.take(i as int));
            assert(all.take(i + 1).last() == parts@[i as int]@);
        }
        if i != 0 {
            push_str(&mut out, sep);
        } else {
            assert(all.take(1) =~= seq![parts@[0]@]);
        }
        push_str(&mut out, parts[i].as_str());
        i += 1;
    }
    assert(all.take(parts.len() as int) =~= all);
    out
}

/// `str::replace` with a non-empty pattern.
pub fn replace_str(s: &str, pat: &str, rep: &str) -> (r: String)
    requires
        pat@.len() > 0,
    ensures
        r@ == replace_all(s@, pat@, rep@),
{
    let v = chars_of(s);
    let p = chars_of(pat);
    let mut out = String::new();
    let mut i: usize = 0;
    assert(v@.skip(0) =~= v@);
    while i < v.len()
        invariant
            i <= v.len(),
            v@ == s@,
            p@ == pat@,
            p@.len() > 0,
            out@ + replace_all(v@.skip(i as int), p@, rep@) == replace_all(v@, p@, rep@),
        decreases v.len() - i,
    {
        let ghost rest = v@.skip(i as int);
        let ghost before = out@;
        if p.len() <= v.len() - i && occurs_at_exec(&v, &p, i) {
            proof {
                assert(rest.subrange(0, p@.len() as int) =~= v@.subrange(i as int, i + p@.len()));
                assert(rest.skip(p@.len() as int) =~= v@.skip(i + p@.len()));
            }
            push_str(&mut out, rep);
            proof {
                assert(out@ + replace_all(v@.skip(i + p@.len()), p@, rep@) =~= before + (rep@
                    + replace_all(rest.skip(p@.len() as int), p@, rep@)));
            }
            i = i + p.len();
        } else {
            proof {
                if starts_with(rest, p@) {
                    assert(rest.subrange(0, p@.len() as int) =~= v@.subrange(
                        i as int,
                        i + p@.len(),
                    ));
                }
                assert(rest.drop_first() =~= v@.skip(i + 1));
                assert(rest[0] == v@[i as int]);
            }
            push_char(&mut out, v[i]);
            proof {
                assert(out@ + replace_all(v@.skip(i + 1), p@, rep@) =~= before + (seq![v@[i as int]]
                    + replace_all(rest.drop_first(), p@, rep@)));
            }
            i += 1;
        }
    }
    assert(v@.skip(v.len() as int) =~= Seq::<char>::empty());
    assert(out@ + Seq::<char>::empty() =~= out@);
    out
}

/// The decimal representation of `n` (what `format!("{}", n)` writes).
pub fn decimal_string(n: u64) -> (r: String)
    ensures
        r@ == decimal(n as nat),
    decreases n,
{
    let d: u64 = n % 10;
    let c: char = if d == 0 { '0' } else if d == 1 { '1' } else if d == 2 { '2' } else if d == 3 {
        '3'
    } else if d == 4 { '4' } else if d == 5 { '5' } else if d == 6 { '6' } else if d == 7 {
        '7'
    } else if d == 8 { '8' } else { '9' };
    assert(c == digit_char(d as nat));
    if n < 10 {
        let mut r = String::new();
        push_char(&mut r, c);
        proof {
            assert(r@ =~= seq![digit_char(n as nat)]);
        }
        r
    } else {
        let mut r = decimal_string(n / 10);
        push_char(&mut r, c);
        r
    }
}

/// Proves that the first-index witness is the first match.
pub proof fn lemma_first_index(s: Seq<char>, c: char, k: int)
    requires
        0 <= k < s.len(),
        s[k] == c,
        forall|j: int| 0 <= j < k ==> s[j] != c,
    ensures
        first_index(s, c) == Some(k),
{
    let w = choose|i: int| 0 <= i < s.len() && s[i] == c && forall|j: int| 0 <= j < i ==> s[j] != c;
    assert(0 <= k < s.len() && s[k] == c && forall|j: int| 0 <= j < k ==> s[j] != c);
    if w < k {
        assert(s[w] != c);
    } else if w > k {
        assert(s[k] != c);
    }
}

/// The index of the first `c` at or after `start`.
pub fn find_char_from(v: &Vec<char>, c: char, start: usize) -> (r: Option<usize>)
    requires
        start <= v@.len(),
    ensures
        match r {
            Some(k) => start <= k < v@.len() && first_index(v@.skip(start as int), c) == Some(
                k - start,
            ),
            None => first_index(v@.skip(start as int), c) is None,
        },
{
    let ghost t = v@.skip(start as int);
    let mut i: usize = start;
    while i < v.len()
        invariant
            start <= i <= v@.len(),
            t == v@.skip(start as int),
            forall|j: int| start <= j < i ==> v@[j] != c,
        decreases v@.len() - i,
    {
        if v[i] == c {
            proof {
                assert forall|j: int| 0 <= j < i - start implies t[j] != c by {
                    assert(t[j] == v@[j + start]);
                }
                lemma_first_index(t, c, i - start);
            }
            return Some(i);
        }
        i += 1;
    }
    proof {
        if exists|k: int| 0 <= k < t.len() && t[k] == c {
            let k = choose|k: int| 0 <= k < t.len() && t[k] == c;
            assert(v@[k + start] == c);
        }
    }
    None
}

/// One step of `lines_of`: the line up to the first break, then the rest.
pub proof fn lemma_lines_of_step(t: Seq<char>, k: int)
    requires
        0 <= k < t.len(),
        first_index(t, '\n') == Some(k),
    ensures
        lines_of(t) == seq![strip_cr(t.take(k))] + lines_of(t.skip(k + 1)),
{
    reveal(lines_of);
}

/// The last line of `lines_of`, when no break is left.
pub proof fn lemma_lines_of_last(t: Seq<char>)
    requires
        t.len() > 0,
        first_index(t, '\n') is None,
    ensures
        lines_of(t) == seq![strip_cr(t)],
{
    reveal(lines_of);
}

pub proof fn lemma_lines_of_empty()
    ensures
        lines_of(Seq::<char>::empty()) == Seq::<Seq<char>>::empty(),
{
    reveal(lines_of);
}

fn line_without_cr(v: &Vec<char>, lo: usize, hi: usize) -> (r: String)
    requires
        lo <= hi <= v@.len(),
    ensures
        r@ == strip_cr(v@.subrange(lo as int, hi as int)),
{
    if hi > lo && v[hi - 1] == '\r' {
        let r = string_from_range(v, lo, hi - 1);
        assert(r@ =~= v@.subrange(lo as int, hi as int).drop_last());
        r
    } else {
        string_from_range(v, lo, hi)
    }
}

proof fn lemma_push_add(a: Seq<Seq<char>>, x: Seq<char>, b: Seq<Seq<char>>)
    ensures
        a.push(x) + b == a + (seq![x] + b),
{
    assert(a.push(x) + b =~= a + (seq![x] + b));
}

/// The line that starts at `start` and where the next one starts.
fn next_line(v: &Vec<char>, start: usize) -> (r: (String, usize))
    requires
        start < v@.len(),
    ensures
        start < r.1 <= v@.len(),
        lines_of(v@.skip(start as int)) == seq![r.0@] + lines_of(v@.skip(r.1 as int)),
{
    let ghost t = v@.skip(start as int);
    match find_char_from(v, '\n', start) {
        Some(k) => {
            let line = line_without_cr(v, start, k);
            proof {
                assert(t.take(k - start) =~= v@.subrange(start as int, k as int));
                assert(t.skip(k - start + 1) =~= v@.skip(k + 1));
                lemma_lines_of_step(t, k - start);
            }
            let n = v.len();
            assert(k < n);
            (line, k + 1)
        },
        None => {
            let line = line_without_cr(v, start, v.len());
            proof {
                assert(t =~= v@.subrange(start as int, v@.len() as int));
                lemma_lines_of_last(t);
                assert(v@.skip(v@.len() as int) =~= Seq::<char>::empty());
                lemma_lines_of_empty();
                assert(seq![line@] + Seq::<Seq<char>>::empty() =~= seq![line@]);
            }
            (line, v.len())
        },
    }
}

/// The lines of a text, as `str::lines` yields them.
pub fn split_lines(s: &str) -> (r: Vec<String>)
    ensures
        views(r@) == lines_of(s@),
{
    let v = chars_of(s);
    let ghost total = lines_of(s@);
    let mut out: Vec<String> = Vec::new();
    let mut start: usize = 0;
    let ghost mut done: Seq<Seq<char>> = Seq::empty();
    proof {
        assert(v@.skip(0) =~= v@);
        assert(views(out@) =~= done);
        assert(done + total =~= total);
    }
    while start < v.len()
        invariant
            start <= v@.len(),
            v@ == s@,
            views(out@) == done,
            done + lines_of(v@.skip(start as int)) == total,
        decreases v@.len() - start,
    {
        let (line, next) = next_line(&v, start);
        let ghost rest = lines_of(v@.skip(next as int));
        proof {
            lemma_push_add(done, line@, rest);
        }
        let ghost before = out@;
        out.push(line);
        proof {
            assert(out@ == before.push(line));
            assert(views(out@) =~= views(before).push(line@));
            done = done.push(line@);
        }
        start = next;
    }
    proof {
        assert(v@.skip(start as int) =~= Seq::<char>::empty());
        lemma_lines_of_empty();
        assert(done + Seq::<Seq<char>>::empty() =~= done);
    }
    out
}

/// Parses an unsigned decimal number whose value must not exceed `max`, as `str::parse` does.
pub fn parse_unsigned_exec(s: &str, max: u64) -> (r: Option<u64>)
    requires
        max >= 9,
    ensures
        match r {
            Some(v) => parse_unsigned(s@, max as nat) == Some(v as nat),
            None => parse_unsigned(s@, max as nat) is None,
        },
{
    let v = chars_of(s);
    let start: usize = if v.len() > 0 && v[0] == '+' {
        1
    } else {
        0
    };
    let ghost body = if s@.len() > 0 && s@[0] == '+' {
        s@.drop_first()
    } else {
        s@
    };
    assert(body =~= v@.subrange(start as int, v.len() as int));
    if start >= v.len() {
        return None;
    }
    let mut value: u64 = 0;
    let mut i = start;
    while i < v.len()
        invariant
            max >= 9,
            start < v.len(),
            start <= i <= v.len(),
            v@ == s@,
            body == v@.subrange(start as int, v.len() as int),
            body == (if s@.len() > 0 && s@[0] == '+' {
                s@.drop_first()
            } else {
                s@
            }),
            all_digits(v@.subrange(start as int, i as int)),
            value as nat == digits_value(v@.subrange(start as int, i as int)),
            value <= max,
        decreases v.len() - i,
    {
        let c = v[i];
        if !('0' <= c && c <= '9') {
            assert(body[i - start] == c);
            assert(!is_digit(body[i - start]));
            return None;
        }
        let d: u64 = (c as u32 - '0' as u32) as u64;
        proof {
            let pre = v@.subrange(start as int, i as int);
            assert(v@.subrange(start as int, i + 1) =~= pre.push(c));
            lemma_digits_value_push(pre, c);
        }
        if value > (max - d) / 10 {
            proof {
                assert(value * 10 + d > max) by (nonlinear_arith)
                    requires
                        value > (max - d) / 10,
                        d <= 9,
                        d <= max,
                ;
                assert forall|k: int| 0 <= k < (i + 1 - start) implies is_digit(
                    #[trigger] v@.subrange(start as int, i + 1)[k],
                ) by {
                    if k < i - start {
                        assert(v@.subrange(start as int, i + 1)[k] == v@.subrange(
                            start as int,
                            i as int,
                        )[k]);
                    }
                }
                let whole = body;
                if all_digits(whole) {
                    assert(whole.subrange(0, i + 1 - start) =~= v@.subrange(start as int, i + 1));
                    lemma_digits_value_monotone(whole, i + 1 - start);
                }
            }
            return None;
        }
        proof {
            assert(value * 10 + d <= max) by (nonlinear_arith)
                requires
                    value <= (max - d) / 10,
                    d <= 9,
            ;
            assert forall|k: int| 0 <= k < (i + 1 - start) implies is_digit(
                #[trigger] v@.subrange(start as int, i + 1)[k],
            ) by {
                if k < i - start {
                    assert(v@.subrange(start as int, i + 1)[k] == v@.subrange(
                        start as int,
                        i as int,
                    )[k]);
                }
            }
        }
        value = value * 10 + d;
        i += 1;
    }
    assert(v@.subrange(start as int, v.len() as int) == body);
    Some(value)
}

} // verus!
