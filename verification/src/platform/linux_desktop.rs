//! Matching a media source to a Linux desktop entry and its icon: ids
//! normalized to lower-case letters and digits, entries scored against the
//! source's keys, icon files scored by type and size.
use crate::text::{
    chars_of, contains_str, contains_sub, ends_with, eq_ignore_ascii_case, eq_ignore_case_ascii,
    is_whitespace, is_ws, lines_of, lowercased, parse_i32_spec, push_char, split_lines, str_eq, string_from_range, to_ascii_lowercase, to_lowercase, trim, trim_string,
    views, ascii_lower_seq,
};
use vstd::prelude::*;

verus! {

// ---------------------------------------------------------------------------
// Splitting
// ---------------------------------------------------------------------------

/// The separator sets that ids and paths are split at.
#[derive(Clone, Copy, Debug, PartialEq, Eq, Structural)]
pub enum Separators {
    /// `/`
    Slash,
    /// `\`, `/` and `!`
    PathLike,
    /// `.`
    Dot,
    /// `_`
    Underscore,
    /// `.`, `_`, `-` and space
    Words,
    /// `"`
    Quote,
    /// `#`
    Hash,
    /// `=`
    Equals,
}

pub open spec fn is_sep(kind: Separators, c: char) -> bool {
    match kind {
        Separators::Slash => c == '/',
        Separators::PathLike => c == '\\' || c == '/' || c == '!',
        Separators::Dot => c == '.',
        Separators::Underscore => c == '_',
        Separators::Words => c == '.' || c == '_' || c == '-' || c == ' ',
        Separators::Quote => c == '"',
        Separators::Hash => c == '#',
        Separators::Equals => c == '=',
    }
}

fn is_sep_exec(kind: Separators, c: char) -> (r: bool)
    ensures
        r == is_sep(kind, c),
{
    match kind {
        Separators::Slash => c == '/',
        Separators::PathLike => c == '\\' || c == '/' || c == '!',
        Separators::Dot => c == '.',
        Separators::Underscore => c == '_',
        Separators::Words => c == '.' || c == '_' || c == '-' || c == ' ',
        Separators::Quote => c == '"',
        Separators::Hash => c == '#',
        Separators::Equals => c == '=',
    }
}

/// The pieces between separators, as `str::split` yields them (empty pieces
/// included; one more piece than separators).
pub open spec fn pieces(s: Seq<char>, kind: Separators) -> Seq<Seq<char>>
    decreases s.len(),
{
    if s.len() == 0 {
        seq![Seq::empty()]
    } else {
        let rest = pieces(s.drop_last(), kind);
        if is_sep(kind, s.last()) {
            rest.push(Seq::empty())
        } else {
            rest.update(rest.len() - 1, rest.last().push(s.last()))
        }
    }
}

proof fn lemma_pieces_nonempty(s: Seq<char>, kind: Separators)
    ensures
        pieces(s, kind).len() >= 1,
    decreases s.len(),
{
    if s.len() > 0 {
        lemma_pieces_nonempty(s.drop_last(), kind);
    }
}

/// The pieces of `s` between the separators of `kind`.
pub fn split_pieces(s: &str, kind: Separators) -> (r: Vec<String>)
    ensures
        views(r@) == pieces(s@, kind),
        r@.len() >= 1,
{
    let v = chars_of(s);
    let mut out: Vec<String> = Vec::new();
    let mut cur = String::new();
    let mut i: usize = 0;
    while i < v.len()
        invariant
            i <= v@.len(),
            v@ == s@,
            views(out@).push(cur@) == pieces(v@.take(i as int), kind),
        decreases v@.len() - i,
    {
        let c = v[i];
        let ghost before = views(out@);
        let ghost cur_before = cur@;
        proof {
            lemma_pieces_nonempty(v@.take(i as int), kind);
            assert(v@.take(i + 1).drop_last() =~= v@.take(i as int));
            assert(v@.take(i + 1).last() == c);
        }
        if is_sep_exec(kind, c) {
            out.push(cur);
            cur = String::new();
            proof {
                assert(views(out@) =~= before.push(cur_before));
                assert(views(out@).push(cur@) =~= before.push(cur_before).push(Seq::empty()));
            }
        } else {
            push_char(&mut cur, c);
            proof {
                assert(views(out@).push(cur@) =~= before.push(cur_before).update(
                    before.len() as int,
                    cur_before.push(c),
                ));
            }
        }
        i += 1;
    }
    assert(v@.take(v@.len() as int) =~= v@);
    let ghost before = views(out@);
    out.push(cur);
    assert(views(out@) =~= before.push(cur@));
    out
}

// ---------------------------------------------------------------------------
// Linux ids
// ---------------------------------------------------------------------------

pub open spec fn is_ascii_alnum(c: char) -> bool {
    ('0' <= c && c <= '9') || ('a' <= c && c <= 'z') || ('A' <= c && c <= 'Z')
}

/// The ASCII letters and digits of `s`, in order.
pub open spec fn alnum_only(s: Seq<char>) -> Seq<char>
    decreases s.len(),
{
    if s.len() == 0 {
        Seq::empty()
    } else if is_ascii_alnum(s.last()) {
        alnum_only(s.drop_last()).push(s.last())
    } else {
        alnum_only(s.drop_last())
    }
}

/// Without a `.desktop`, `.exe` or `.app` ending (the first that applies).
pub open spec fn strip_app_suffix(t: Seq<char>) -> Seq<char> {
    if ends_with(t, ".desktop"@) {
        t.take(t.len() - 8)
    } else if ends_with(t, ".exe"@) {
        t.take(t.len() - 4)
    } else if ends_with(t, ".app"@) {
        t.take(t.len() - 4)
    } else {
        t
    }
}

/// An id reduced for comparison: trimmed, lower-cased, without an app
/// ending, and only its ASCII letters and digits.
pub open spec fn linux_id(value: Seq<char>) -> Seq<char> {
    alnum_only(strip_app_suffix(lowercased(trim(value))))
}

pub fn normalize_linux_id(value: &str) -> (r: String)
    ensures
        r@ == linux_id(value@),
{
    let trimmed = trim_string(value);
    let lower = to_lowercase(trimmed.as_str());
    let v = chars_of(lower.as_str());
    let n = v.len();
    proof {
        reveal_strlit(".desktop");
        reveal_strlit(".exe");
        reveal_strlit(".app");
    }
    let end: usize = if crate::text::ends_with_str(lower.as_str(), ".desktop") {
        n - 8
    } else if crate::text::ends_with_str(lower.as_str(), ".exe") {
        n - 4
    } else if crate::text::ends_with_str(lower.as_str(), ".app") {
        n - 4
    } else {
        n
    };
    assert(v@.take(end as int) == strip_app_suffix(lower@));
    let mut out = String::new();
    let mut i: usize = 0;
    while i < end
        invariant
            i <= end <= v@.len(),
            out@ == alnum_only(v@.take(i as int)),
        decreases end - i,
    {
        let c = v[i];
        proof {
            assert(v@.take(i + 1).drop_last() =~= v@.take(i as int));
            assert(v@.take(i + 1).last() == c);
        }
        if ('0' <= c && c <= '9') || ('a' <= c && c <= 'z') || ('A' <= c && c <= 'Z') {
            push_char(&mut out, c);
        }
        i += 1;
    }
    assert(v@.take(end as int).take(end as int) =~= v@.take(end as int));
    out
}

/// The last piece of a split.
pub open spec fn last_piece(s: Seq<char>, kind: Separators) -> Seq<char> {
    pieces(s, kind).last()
}

/// The first piece of a split.
pub open spec fn first_piece(s: Seq<char>, kind: Separators) -> Seq<char> {
    pieces(s, kind)[0]
}

/// The strings a source id is matched by: the whole id, its last path
/// segment, that segment's first and last dotted parts and first
/// underscore part, and every word of it.
pub open spec fn source_key_candidates(source_app_id: Seq<char>) -> Seq<Seq<char>> {
    let trimmed = lowercased(trim(source_app_id));
    let tail = last_piece(trimmed, Separators::PathLike);
    seq![
        trimmed,
        tail,
        first_piece(tail, Separators::Dot),
        last_piece(tail, Separators::Dot),
        first_piece(tail, Separators::Underscore),
    ] + pieces(tail, Separators::Words)
}

/// The non-empty normalized candidates of a source id.
pub open spec fn is_source_key(source_app_id: Seq<char>, k: Seq<char>) -> bool {
    lowercased(trim(source_app_id)).len() > 0 && k.len() > 0 && exists|i: int|
        0 <= i < source_key_candidates(source_app_id).len() && #[trigger] linux_id(
            source_key_candidates(source_app_id)[i],
        ) == k
}

fn add_key(keys: &mut Vec<String>, key: String)
    ensures
        views(final(keys)@).no_duplicates() <== views(old(keys)@).no_duplicates(),
        forall|k: Seq<char>|
            views(final(keys)@).contains(k) <==> (views(old(keys)@).contains(k) || (k == key@
                && key@.len() > 0)),
{
    if key.as_str().is_empty() {
        return ;
    }
    let mut i: usize = 0;
    while i < keys.len()
        invariant
            i <= keys@.len(),
            forall|j: int| 0 <= j < i ==> keys@[j]@ != key@,
        decreases keys@.len() - i,
    {
        if str_eq(keys[i].as_str(), key.as_str()) {
            proof {
                assert(views(keys@)[i as int] == key@);
            }
            return ;
        }
        i += 1;
    }
    let ghost before = views(keys@);
    proof {
        assert forall|j: int| 0 <= j < before.len() implies before[j] != key@ by {
            assert(before[j] == keys@[j]@);
        }
    }
    keys.push(key);
    proof {
        assert(views(keys@) =~= before.push(key@));
        assert forall|k: Seq<char>| views(keys@).contains(k) <== (before.contains(k) || k
            == key@) by {
            if before.contains(k) {
                let j = choose|j: int| 0 <= j < before.len() && before[j] == k;
                assert(views(keys@)[j] == k);
            }
            if k == key@ {
                assert(views(keys@)[before.len() as int] == k);
            }
        }
        assert forall|k: Seq<char>| views(keys@).contains(k) implies (before.contains(k) || k
            == key@) by {
            let j = choose|j: int| 0 <= j < views(keys@).len() && views(keys@)[j] == k;
            if j < before.len() {
                assert(before[j] == k);
            }
        }
    }
}

/// The keys a desktop entry is matched against: each distinct non-empty
/// normalized candidate of the source id (none for a blank id).
pub fn build_linux_source_match_keys(source_app_id: &str) -> (r: Vec<String>)
    ensures
        views(r@).no_duplicates(),
        forall|k: Seq<char>| views(r@).contains(k) <==> is_source_key(source_app_id@, k),
{
    let trimmed_raw = trim_string(source_app_id);
    let trimmed = to_lowercase(trimmed_raw.as_str());
    let mut keys: Vec<String> = Vec::new();
    if trimmed.as_str().is_empty() {
        return keys;
    }
    let paths = split_pieces(trimmed.as_str(), Separators::PathLike);
    let tail = paths[paths.len() - 1].clone();
    let dots = split_pieces(tail.as_str(), Separators::Dot);
    let unders = split_pieces(tail.as_str(), Separators::Underscore);
    let words = split_pieces(tail.as_str(), Separators::Words);
    let mut candidates: Vec<String> = Vec::new();
    candidates.push(trimmed.clone());
    candidates.push(tail.clone());
    candidates.push(dots[0].clone());
    candidates.push(dots[dots.len() - 1].clone());
    candidates.push(unders[0].clone());
    let mut w: usize = 0;
    while w < words.len()
        invariant
            w <= words@.len(),
            candidates@.len() == 5 + w,
            views(candidates@) == seq![
                trimmed@,
                tail@,
                dots@[0]@,
                dots@[dots@.len() - 1]@,
                unders@[0]@,
            ] + views(words@).take(w as int),
        decreases words@.len() - w,
    {
        let ghost before = views(candidates@);
        candidates.push(words[w].clone());
        proof {
            assert(views(candidates@) =~= before.push(words@[w as int]@));
            assert(views(words@).take(w + 1) =~= views(words@).take(w as int).push(
                views(words@)[w as int],
            ));
        }
        w += 1;
    }
    let ghost cands = views(candidates@);
    proof {
        assert(views(words@).take(words@.len() as int) =~= views(words@));
        assert(views(paths@).last() == tail@);
        assert(cands =~= source_key_candidates(source_app_id@));
    }
    let mut i: usize = 0;
    while i < candidates.len()
        invariant
            i <= candidates@.len(),
            cands == views(candidates@),
            cands == source_key_candidates(source_app_id@),
            lowercased(trim(source_app_id@)).len() > 0,
            views(keys@).no_duplicates(),
            forall|k: Seq<char>|
                views(keys@).contains(k) <==> (k.len() > 0 && exists|j: int|
                    0 <= j < i && #[trigger] linux_id(cands[j]) == k),
        decreases candidates@.len() - i,
    {
        let key = normalize_linux_id(candidates[i].as_str());
        let ghost kv = key@;
        assert(kv == linux_id(cands[i as int]));
        add_key(&mut keys, key);
        proof {
            assert forall|k: Seq<char>|
                views(keys@).contains(k) <==> (k.len() > 0 && exists|j: int|
                    0 <= j < i + 1 && #[trigger] linux_id(cands[j]) == k) by {
                if k.len() > 0 && exists|j: int| 0 <= j < i + 1 && #[trigger] linux_id(cands[j]) == k {
                    let j = choose|j: int| 0 <= j < i + 1 && #[trigger] linux_id(cands[j]) == k;
                    if j < i {
                        assert(0 <= j < i && linux_id(cands[j]) == k);
                    }
                }
            }
        }
        i += 1;
    }
    keys
}

// ---------------------------------------------------------------------------
// Desktop entries
// ---------------------------------------------------------------------------

/// What the logic reads of a `.desktop` file: its file stem and the first
/// `Name`, `Icon`, `Exec` and `StartupWMClass` of its `[Desktop Entry]` section.
pub struct LinuxDesktopEntry {
    pub file_stem: String,
    pub name: String,
    pub icon: String,
    pub exec_command: String,
    pub startup_wm_class: String,
}

/// The fields gathered so far while reading a desktop file.
pub struct EntryFields {
    pub in_section: bool,
    pub name: Seq<char>,
    pub icon: Seq<char>,
    pub exec_command: Seq<char>,
    pub startup_wm_class: Seq<char>,
}

/// The text before the first `=`, and the text after it, if there is one.
pub open spec fn split_once_eq(t: Seq<char>) -> Option<(Seq<char>, Seq<char>)> {
    match crate::text::first_index(t, '=') {
        Some(k) => Some((t.take(k), t.skip(k + 1))),
        None => None,
    }
}

/// One line of a desktop file applied to the fields gathered so far.
pub open spec fn entry_step(f: EntryFields, line: Seq<char>) -> EntryFields {
    let t = trim(line);
    if t.len() == 0 || t[0] == '#' {
        f
    } else if t[0] == '[' && t.last() == ']' {
        EntryFields { in_section: eq_ignore_ascii_case(t, "[Desktop Entry]"@), ..f }
    } else if !f.in_section {
        f
    } else {
        match split_once_eq(t) {
            None => f,
            Some((key, value)) => {
                let k = trim(key);
                let v = trim(value);
                if k == "Name"@ && f.name.len() == 0 {
                    EntryFields { name: v, ..f }
                } else if k == "Icon"@ && f.icon.len() == 0 {
                    EntryFields { icon: v, ..f }
                } else if k == "Exec"@ && f.exec_command.len() == 0 {
                    EntryFields { exec_command: v, ..f }
                } else if k == "StartupWMClass"@ && f.startup_wm_class.len() == 0 {
                    EntryFields { startup_wm_class: v, ..f }
                } else {
                    f
                }
            },
        }
    }
}

pub open spec fn entry_fields(lines: Seq<Seq<char>>) -> EntryFields
    decreases lines.len(),
{
    if lines.len() == 0 {
        EntryFields {
            in_section: false,
            name: Seq::empty(),
            icon: Seq::empty(),
            exec_command: Seq::empty(),
            startup_wm_class: Seq::empty(),
        }
    } else {
        entry_step(entry_fields(lines.drop_last()), lines.last())
    }
}

fn desktop_line(
    line: &str,
    in_section: &mut bool,
    name: &mut String,
    icon: &mut String,
    exec_command: &mut String,
    wm_class: &mut String,
)
    ensures
        ({
            let f = entry_step(
                EntryFields {
                    in_section: *old(in_section),
                    name: old(name)@,
                    icon: old(icon)@,
                    exec_command: old(exec_command)@,
                    startup_wm_class: old(wm_class)@,
                },
                line@,
            );
            &&& *final(in_section) == f.in_section
            &&& final(name)@ == f.name
            &&& final(icon)@ == f.icon
            &&& final(exec_command)@ == f.exec_command
            &&& final(wm_class)@ == f.startup_wm_class
        }),
{
    let t = trim_string(line);
    let v = chars_of(t.as_str());
    if v.len() == 0 || v[0] == '#' {
        return ;
    }
    if v[0] == '[' && v[v.len() - 1] == ']' {
        *in_section = eq_ignore_case_ascii(t.as_str(), "[Desktop Entry]");
        return ;
    }
    if !*in_section {
        return ;
    }
    let k = match super::images::find_char(&v, '=') {
        Some(k) => k,
        None => {
            return ;
        },
    };
    let key_raw = string_from_range(&v, 0, k);
    let value_raw = string_from_range(&v, k + 1, v.len());
    assert(key_raw@ =~= t@.take(k as int));
    assert(value_raw@ =~= t@.skip(k + 1));
    let key = trim_string(key_raw.as_str());
    let value = trim_string(value_raw.as_str());
    if str_eq(key.as_str(), "Name") && name.as_str().is_empty() {
        *name = value;
    } else if str_eq(key.as_str(), "Icon") && icon.as_str().is_empty() {
        *icon = value;
    } else if str_eq(key.as_str(), "Exec") && exec_command.as_str().is_empty() {
        *exec_command = value;
    } else if str_eq(key.as_str(), "StartupWMClass") && wm_class.as_str().is_empty() {
        *wm_class = value;
    }
}

/// Reads a desktop file's `[Desktop Entry]`; entries without an icon are of no use.
pub fn parse_linux_desktop_entry(content: &str, file_stem: String) -> (r: Option<LinuxDesktopEntry>)
    ensures
        ({
            let f = entry_fields(lines_of(content@));
            match r {
                Some(e) => trim(f.icon).len() > 0 && e.file_stem == file_stem && e.name@ == f.name
                    && e.icon@ == f.icon && e.exec_command@ == f.exec_command && e.startup_wm_class@
                    == f.startup_wm_class,
                None => trim(f.icon).len() == 0,
            }
        }),
{
    let lines = split_lines(content);
    let ghost ls = lines_of(content@);
    let mut in_section = false;
    let mut name = String::new();
    let mut icon = String::new();
    let mut exec_command = String::new();
    let mut wm_class = String::new();
    let mut i: usize = 0;
    while i < lines.len()
        invariant
            i <= lines@.len(),
            views(lines@) == ls,
            ({
                let f = entry_fields(ls.take(i as int));
                &&& in_section == f.in_section
                &&& name@ == f.name
                &&& icon@ == f.icon
                &&& exec_command@ == f.exec_command
                &&& wm_class@ == f.startup_wm_class
            }),
        decreases lines@.len() - i,
    {
        proof {
            assert(ls.take(i + 1).drop_last() =~= ls.take(i as int));
            assert(ls.take(i + 1).last() == lines@[i as int]@);
        }
        desktop_line(
            lines[i].as_str(),
            &mut in_section,
            &mut name,
            &mut icon,
            &mut exec_command,
            &mut wm_class,
        );
        i += 1;
    }
    assert(ls.take(lines@.len() as int) =~= ls);
    if crate::text::is_blank(icon.as_str()) {
        return None;
    }
    Some(LinuxDesktopEntry { file_stem, name, icon, exec_command, startup_wm_class: wm_class })
}

// ---------------------------------------------------------------------------
// Scoring entries
// ---------------------------------------------------------------------------

pub open spec fn is_name_piece(p: Seq<char>) -> bool {
    p.len() > 0 && p != "."@
}

/// The index of the last piece below `n` that names something.
pub open spec fn last_name_index(ps: Seq<Seq<char>>, n: int) -> Option<int>
    decreases n,
{
    if n <= 0 {
        None
    } else if is_name_piece(ps[n - 1]) {
        Some(n - 1)
    } else {
        last_name_index(ps, n - 1)
    }
}

/// The final component of a Unix path when it is a name (`Path::file_name`).
pub open spec fn path_file_name(s: Seq<char>) -> Option<Seq<char>> {
    let ps = pieces(s, Separators::Slash);
    match last_name_index(ps, ps.len() as int) {
        Some(i) => if ps[i] == ".."@ {
            None
        } else {
            Some(ps[i])
        },
        None => None,
    }
}

/// The index of the last `c` in `s`.
pub open spec fn last_index(s: Seq<char>, c: char, n: int) -> Option<int>
    decreases n,
{
    if n <= 0 {
        None
    } else if s[n - 1] == c {
        Some(n - 1)
    } else {
        last_index(s, c, n - 1)
    }
}

/// A file name without its extension, unless the only dot leads the name.
pub open spec fn name_stem(name: Seq<char>) -> Seq<char> {
    match last_index(name, '.', name.len() as int) {
        Some(k) => if k == 0 {
            name
        } else {
            name.take(k)
        },
        None => name,
    }
}

/// `Path::file_stem` for a Unix path.
pub open spec fn path_file_stem(s: Seq<char>) -> Option<Seq<char>> {
    match path_file_name(s) {
        Some(n) => Some(name_stem(n)),
        None => None,
    }
}

/// The index of the first whitespace character, or the length.
pub open spec fn first_ws(t: Seq<char>, n: int) -> int
    decreases n,
{
    if n <= 0 {
        0
    } else if exists|i: int| 0 <= i < n && is_ws(t[i]) {
        if first_ws(t, n - 1) < n - 1 {
            first_ws(t, n - 1)
        } else {
            n - 1
        }
    } else {
        n
    }
}

/// The program of an `Exec` line, by its file stem: the quoted path when the
/// line starts with a quote, else the first word.
pub open spec fn exec_basename(value: Seq<char>) -> Seq<char> {
    let t = trim(value);
    if t.len() == 0 {
        Seq::empty()
    } else {
        let command = if t[0] == '"' {
            first_piece(t.skip(1), Separators::Quote)
        } else {
            t.take(first_ws(t, t.len() as int))
        };
        match path_file_stem(command) {
            Some(stem) => stem,
            None => command,
        }
    }
}

fn last_name_piece(ps: &Vec<String>) -> (r: Option<usize>)
    ensures
        match r {
            Some(i) => last_name_index(views(ps@), ps@.len() as int) == Some(i as int) && i
                < ps@.len(),
            None => last_name_index(views(ps@), ps@.len() as int) is None,
        },
{
    let mut n: usize = ps.len();
    while n > 0
        invariant
            n <= ps@.len(),
            last_name_index(views(ps@), ps@.len() as int) == last_name_index(views(ps@), n as int),
        decreases n,
    {
        let p = &ps[n - 1];
        assert(views(ps@)[n - 1] == p@);
        if !p.as_str().is_empty() && !str_eq(p.as_str(), ".") {
            return Some(n - 1);
        }
        n -= 1;
    }
    None
}

fn last_char_index(v: &Vec<char>, c: char) -> (r: Option<usize>)
    ensures
        match r {
            Some(k) => last_index(v@, c, v@.len() as int) == Some(k as int) && k < v@.len(),
            None => last_index(v@, c, v@.len() as int) is None,
        },
{
    let mut n: usize = v.len();
    while n > 0
        invariant
            n <= v@.len(),
            last_index(v@, c, v@.len() as int) == last_index(v@, c, n as int),
        decreases n,
    {
        if v[n - 1] == c {
            return Some(n - 1);
        }
        n -= 1;
    }
    None
}

/// `Path::file_stem` of a Unix path.
pub fn unix_file_stem(path: &str) -> (r: Option<String>)
    ensures
        r.deep_view() == path_file_stem(path@),
{
    let ps = split_pieces(path, Separators::Slash);
    let i = match last_name_piece(&ps) {
        Some(i) => i,
        None => {
            return None;
        },
    };
    let name = &ps[i];
    assert(views(ps@)[i as int] == name@);
    if str_eq(name.as_str(), "..") {
        return None;
    }
    let v = chars_of(name.as_str());
    match last_char_index(&v, '.') {
        Some(k) => if k == 0 {
            Some(name.clone())
        } else {
            Some(string_from_range(&v, 0, k))
        },
        None => Some(name.clone()),
    }
}

pub proof fn lemma_first_ws(t: Seq<char>, n: int)
    requires
        0 <= n <= t.len(),
    ensures
        0 <= first_ws(t, n) <= n,
        forall|i: int| 0 <= i < first_ws(t, n) ==> !is_ws(#[trigger] t[i]),
        first_ws(t, n) < n ==> is_ws(t[first_ws(t, n)]),
    decreases n,
{
    if n > 0 {
        lemma_first_ws(t, n - 1);
        if exists|i: int| 0 <= i < n && is_ws(t[i]) {
            if first_ws(t, n - 1) == n - 1 {
                let i = choose|i: int| 0 <= i < n && is_ws(t[i]);
                if i < n - 1 {
                    assert(!is_ws(t[i]));
                }
            }
        } else {
            assert(!is_ws(t[n - 1]));
        }
    }
}

/// The program name of an `Exec` line.
pub fn desktop_exec_basename(value: &str) -> (r: String)
    ensures
        r@ == exec_basename(value@),
{
    let t = trim_string(value);
    let v = chars_of(t.as_str());
    if v.len() == 0 {
        return String::new();
    }
    let command = if v[0] == '"' {
        let rest = string_from_range(&v, 1, v.len());
        assert(rest@ =~= t@.skip(1));
        let parts = split_pieces(rest.as_str(), Separators::Quote);
        parts[0].clone()
    } else {
        let mut k: usize = 0;
        while k < v.len() && !is_whitespace(v[k])
            invariant
                k <= v@.len(),
                forall|i: int| 0 <= i < k ==> !is_ws(#[trigger] v@[i]),
            decreases v@.len() - k,
        {
            k += 1;
        }
        proof {
            lemma_first_ws(t@, t@.len() as int);
            let f = first_ws(t@, t@.len() as int);
            if f < k {
                assert(!is_ws(v@[f]));
            }
            if k < f {
                assert(is_ws(v@[k as int]));
            }
        }
        string_from_range(&v, 0, k)
    };
    match unix_file_stem(command.as_str()) {
        Some(stem) => stem,
        None => command,
    }
}

/// What a candidate scores against a key: `exact` when equal, `partial` when
/// one contains the other, else nothing; an empty candidate scores nothing.
pub open spec fn match_score(candidate: Seq<char>, key: Seq<char>, exact: int, partial: int) -> int {
    if candidate.len() == 0 {
        0
    } else if candidate == key {
        exact
    } else if contains_sub(candidate, key) || contains_sub(key, candidate) {
        partial
    } else {
        0
    }
}

pub open spec fn max_int(a: int, b: int) -> int {
    if a >= b {
        a
    } else {
        b
    }
}

/// The best score of an entry's ids (file stem, window class, program,
/// icon, name) against one non-empty key.
pub open spec fn key_score(e: LinuxDesktopEntry, key: Seq<char>) -> int {
    if key.len() == 0 {
        0
    } else {
        max_int(
            max_int(
                max_int(
                    max_int(
                        match_score(linux_id(e.file_stem@), key, 130, 80),
                        match_score(linux_id(e.startup_wm_class@), key, 120, 75),
                    ),
                    match_score(linux_id(exec_basename(e.exec_command@)), key, 110, 70),
                ),
                match_score(linux_id(e.icon@), key, 100, 65),
            ),
            match_score(linux_id(e.name@), key, 80, 50),
        )
    }
}

/// The entry's best score over all keys, at least zero.
pub open spec fn entry_score(e: LinuxDesktopEntry, keys: Seq<Seq<char>>) -> int
    decreases keys.len(),
{
    if keys.len() == 0 {
        0
    } else {
        max_int(entry_score(e, keys.drop_last()), key_score(e, keys.last()))
    }
}

fn match_score_exec(candidate: &str, key: &str, exact: i32, partial: i32) -> (r: i32)
    ensures
        r == match_score(candidate@, key@, exact as int, partial as int),
{
    if candidate.is_empty() {
        0
    } else if str_eq(candidate, key) {
        exact
    } else if contains_str(candidate, key) || contains_str(key, candidate) {
        partial
    } else {
        0
    }
}

fn max_i32(a: i32, b: i32) -> (r: i32)
    ensures
        r == max_int(a as int, b as int),
{
    if a >= b {
        a
    } else {
        b
    }
}

/// How well a desktop entry matches a source's keys.
pub fn score_linux_desktop_entry(entry: &LinuxDesktopEntry, keys: &Vec<String>) -> (r: i32)
    ensures
        r == entry_score(*entry, views(keys@)),
        0 <= r <= 130,
{
    let stem = normalize_linux_id(entry.file_stem.as_str());
    let wm = normalize_linux_id(entry.startup_wm_class.as_str());
    let program = desktop_exec_basename(entry.exec_command.as_str());
    let exec_id = normalize_linux_id(program.as_str());
    let icon = normalize_linux_id(entry.icon.as_str());
    let name = normalize_linux_id(entry.name.as_str());
    let mut best: i32 = 0;
    let mut i: usize = 0;
    while i < keys.len()
        invariant
            i <= keys@.len(),
            stem@ == linux_id(entry.file_stem@),
            wm@ == linux_id(entry.startup_wm_class@),
            exec_id@ == linux_id(exec_basename(entry.exec_command@)),
            icon@ == linux_id(entry.icon@),
            name@ == linux_id(entry.name@),
            best == entry_score(*entry, views(keys@).take(i as int)),
            0 <= best <= 130,
        decreases keys@.len() - i,
    {
        let key = keys[i].as_str();
        let score = if key.is_empty() {
            0
        } else {
            max_i32(
                max_i32(
                    max_i32(
                        max_i32(
                            match_score_exec(stem.as_str(), key, 130, 80),
                            match_score_exec(wm.as_str(), key, 120, 75),
                        ),
                        match_score_exec(exec_id.as_str(), key, 110, 70),
                    ),
                    match_score_exec(icon.as_str(), key, 100, 65),
                ),
                match_score_exec(name.as_str(), key, 80, 50),
            )
        };
        proof {
            assert(views(keys@).take(i + 1).drop_last() =~= views(keys@).take(i as int));
            assert(views(keys@).take(i + 1).last() == key@);
        }
        best = max_i32(best, score);
        i += 1;
    }
    assert(views(keys@).take(keys@.len() as int) =~= views(keys@));
    best
}

/// The entry to use: the first with the highest positive score.
pub fn best_desktop_entry(entries: &Vec<LinuxDesktopEntry>, keys: &Vec<String>) -> (r: Option<usize>)
    ensures
        match r {
            Some(i) => {
                &&& i < entries@.len()
                &&& entry_score(entries@[i as int], views(keys@)) > 0
                &&& forall|j: int|
                    0 <= j < entries@.len() ==> entry_score(#[trigger] entries@[j], views(keys@))
                        <= entry_score(entries@[i as int], views(keys@))
                &&& forall|j: int|
                    0 <= j < i ==> entry_score(#[trigger] entries@[j], views(keys@)) < entry_score(
                        entries@[i as int],
                        views(keys@),
                    )
            },
            None => forall|j: int|
                0 <= j < entries@.len() ==> entry_score(#[trigger] entries@[j], views(keys@)) <= 0,
        },
{
    let mut best: Option<(usize, i32)> = None;
    let mut i: usize = 0;
    while i < entries.len()
        invariant
            i <= entries@.len(),
            match best {
                Some((b, s)) => {
                    &&& b < i
                    &&& s == entry_score(entries@[b as int], views(keys@))
                    &&& s > 0
                    &&& forall|j: int|
                        0 <= j < i ==> entry_score(#[trigger] entries@[j], views(keys@)) <= s
                    &&& forall|j: int|
                        0 <= j < b ==> entry_score(#[trigger] entries@[j], views(keys@)) < s
                },
                None => forall|j: int|
                    0 <= j < i ==> entry_score(#[trigger] entries@[j], views(keys@)) <= 0,
            },
        decreases entries@.len() - i,
    {
        let score = score_linux_desktop_entry(&entries[i], keys);
        if score > 0 {
            let replace = match best {
                Some((_, s)) => score > s,
                None => true,
            };
            if replace {
                best = Some((i, score));
            }
        }
        i += 1;
    }
    match best {
        Some((b, _)) => Some(b),
        None => None,
    }
}

// ---------------------------------------------------------------------------
// Icons
// ---------------------------------------------------------------------------

/// `str::parse::<i32>`.
pub fn parse_i32(s: &str) -> (r: Option<i32>)
    ensures
        match r {
            Some(v) => parse_i32_spec(s@) == Some(v as int),
            None => parse_i32_spec(s@) is None,
        },
{
    let v = chars_of(s);
    if v.len() > 0 && v[0] == '-' {
        let body = string_from_range(&v, 1, v.len());
        assert(body@ =~= s@.drop_first());
        if v.len() > 1 && v[1] == '+' {
            assert(!crate::text::is_digit(body@[0]));
            return None;
        }
        match crate::text::parse_unsigned_exec(body.as_str(), 0x8000_0000) {
            Some(n) => {
                proof {
                    if body@.len() > 0 && body@[0] == '+' {
                        assert(!crate::text::is_digit(body@[0]));
                    }
                }
                Some((0 - (n as i64)) as i32)
            },
            None => {
                proof {
                    if body@.len() > 0 && crate::text::all_digits(body@) {
                        assert(!(body@[0] == '+')) by {
                            assert(crate::text::is_digit(body@[0]));
                        }
                    }
                }
                None
            },
        }
    } else {
        match crate::text::parse_unsigned_exec(s, 0x7fff_ffff) {
            Some(n) => Some(n as i32),
            None => None,
        }
    }
}

pub open spec fn min_int(a: int, b: int) -> int {
    if a <= b {
        a
    } else {
        b
    }
}

/// A directory name such as `128x128` as the smaller of its two numbers.
pub open spec fn icon_size_spec(value: Seq<char>) -> Option<int> {
    match crate::text::first_index(value, 'x') {
        Some(k) => match (parse_i32_spec(value.take(k)), parse_i32_spec(value.skip(k + 1))) {
            (Some(w), Some(h)) => Some(min_int(w, h)),
            _ => None,
        },
        None => None,
    }
}

pub fn parse_icon_size_component(value: &str) -> (r: Option<i32>)
    ensures
        match r {
            Some(v) => icon_size_spec(value@) == Some(v as int),
            None => icon_size_spec(value@) is None,
        },
{
    let v = chars_of(value);
    let k = match super::images::find_char(&v, 'x') {
        Some(k) => k,
        None => {
            return None;
        },
    };
    let w = string_from_range(&v, 0, k);
    let h = string_from_range(&v, k + 1, v.len());
    assert(w@ =~= value@.take(k as int));
    assert(h@ =~= value@.skip(k + 1));
    match (parse_i32(w.as_str()), parse_i32(h.as_str())) {
        (Some(a), Some(b)) => Some(if a <= b {
            a
        } else {
            b
        }),
        _ => None,
    }
}

pub open spec fn abs_int(a: int) -> int {
    if a < 0 {
        -a
    } else {
        a
    }
}

/// The preferred icon sizes, best first.
pub open spec fn preferred_size(i: int) -> int {
    if i == 0 {
        256
    } else if i == 1 {
        192
    } else if i == 2 {
        128
    } else if i == 3 {
        96
    } else {
        64
    }
}

pub open spec fn size_fit(size: int, i: int) -> int {
    320 - 35 * i - abs_int(size - preferred_size(i))
}

/// How close a size is to the preferred sizes, each closer one worth more.
pub open spec fn icon_size_score(size: int) -> int {
    max_int(
        max_int(max_int(max_int(size_fit(size, 0), size_fit(size, 1)), size_fit(size, 2)), size_fit(size, 3)),
        size_fit(size, 4),
    )
}

fn size_fit_exec(size: i32, preferred: i64, bonus: i64) -> (r: i64)
    requires
        0 <= preferred <= 256,
        0 <= bonus <= 320,
    ensures
        r == bonus - abs_int(size - preferred),
{
    let d: i64 = (size as i64) - preferred;
    if d < 0 {
        bonus + d
    } else {
        bonus - d
    }
}

fn max_i64(a: i64, b: i64) -> (r: i64)
    ensures
        r == max_int(a as int, b as int),
{
    if a >= b {
        a
    } else {
        b
    }
}

pub fn score_icon_size(size: i32) -> (r: i64)
    ensures
        r == icon_size_score(size as int),
{
    max_i64(
        max_i64(
            max_i64(
                max_i64(size_fit_exec(size, 256, 320), size_fit_exec(size, 192, 285)),
                size_fit_exec(size, 128, 250),
            ),
            size_fit_exec(size, 96, 215),
        ),
        size_fit_exec(size, 64, 180),
    )
}

/// What an icon's file type is worth: PNG over JPEG, others nothing.
pub open spec fn extension_score(ext: Seq<char>) -> int {
    let e = ascii_lower_seq(ext);
    if e == "png"@ {
        30
    } else if e == "jpg"@ || e == "jpeg"@ {
        20
    } else {
        0
    }
}

/// The best size score among the names that read as sizes, or zero.
pub open spec fn best_size_score(names: Seq<Seq<char>>) -> Option<int>
    decreases names.len(),
{
    if names.len() == 0 {
        None
    } else {
        let rest = best_size_score(names.drop_last());
        match icon_size_spec(names.last()) {
            Some(size) => match rest {
                Some(b) => Some(max_int(b, icon_size_score(size))),
                None => Some(icon_size_score(size)),
            },
            None => rest,
        }
    }
}

/// An icon file's score from its extension and the names of the
/// directories it sits in (and its own).
pub open spec fn icon_path_score(ext: Seq<char>, names: Seq<Seq<char>>) -> int {
    extension_score(ext) + match best_size_score(names) {
        Some(s) => s,
        None => 0,
    }
}

pub fn score_icon_path(extension: &str, component_names: &Vec<String>) -> (r: i64)
    ensures
        r == icon_path_score(extension@, views(component_names@)),
{
    let e = to_ascii_lowercase(extension);
    let ext_score: i64 = if str_eq(e.as_str(), "png") {
        30
    } else if str_eq(e.as_str(), "jpg") || str_eq(e.as_str(), "jpeg") {
        20
    } else {
        0
    };
    let mut best: Option<i64> = None;
    let mut i: usize = 0;
    while i < component_names.len()
        invariant
            i <= component_names@.len(),
            match best {
                Some(b) => best_size_score(views(component_names@).take(i as int)) == Some(b as int),
                None => best_size_score(views(component_names@).take(i as int)) is None,
            },
            match best {
                Some(b) => -2147484000 <= b <= 320,
                None => true,
            },
        decreases component_names@.len() - i,
    {
        proof {
            assert(views(component_names@).take(i + 1).drop_last() =~= views(component_names@).take(
                i as int,
            ));
            assert(views(component_names@).take(i + 1).last() == component_names@[i as int]@);
        }
        match parse_icon_size_component(component_names[i].as_str()) {
            Some(size) => {
                let s = score_icon_size(size);
                best = match best {
                    Some(b) => Some(max_i64(b, s)),
                    None => Some(s),
                };
            },
            None => {},
        }
        i += 1;
    }
    assert(views(component_names@).take(component_names@.len() as int) =~= views(component_names@));
    match best {
        Some(b) => ext_score + b,
        None => ext_score,
    }
}

/// Whether an extension names a raster icon this code can read.
pub fn is_supported_raster_icon(extension: &str) -> (r: bool)
    ensures
        r == (ascii_lower_seq(extension@) == "png"@ || ascii_lower_seq(extension@) == "jpg"@
            || ascii_lower_seq(extension@) == "jpeg"@),
{
    let e = to_ascii_lowercase(extension);
    str_eq(e.as_str(), "png") || str_eq(e.as_str(), "jpg") || str_eq(e.as_str(), "jpeg")
}

/// The MIME type of an icon file by its extension.
pub fn icon_content_type(extension: &str) -> (r: Option<&'static str>)
    ensures
        ascii_lower_seq(extension@) == "png"@ ==> r.deep_view() == Some("image/png"@),
        ascii_lower_seq(extension@) != "png"@ && (ascii_lower_seq(extension@) == "jpg"@
            || ascii_lower_seq(extension@) == "jpeg"@) ==> r.deep_view() == Some("image/jpeg"@),
        ascii_lower_seq(extension@) != "png"@ && ascii_lower_seq(extension@) != "jpg"@
            && ascii_lower_seq(extension@) != "jpeg"@ ==> r is None,
{
    let e = to_ascii_lowercase(extension);
    if str_eq(e.as_str(), "png") {
        Some("image/png")
    } else if str_eq(e.as_str(), "jpg") || str_eq(e.as_str(), "jpeg") {
        Some("image/jpeg")
    } else {
        None
    }
}

/// `s` with every trailing repetition of the non-empty `p` removed.
pub open spec fn strip_all_suffix(s: Seq<char>, p: Seq<char>) -> Seq<char>
    decreases s.len(),
{
    if p.len() > 0 && s.len() >= p.len() && ends_with(s, p) {
        strip_all_suffix(s.take(s.len() - p.len()), p)
    } else {
        s
    }
}

fn strip_suffixes(s: &str, p: &str) -> (r: String)
    requires
        p@.len() > 0,
    ensures
        r@ == strip_all_suffix(s@, p@),
{
    let v = chars_of(s);
    let pv = chars_of(p);
    let mut end: usize = v.len();
    assert(v@.take(v@.len() as int) =~= v@);
    loop
        invariant
            end <= v@.len(),
            pv@ == p@,
            p@.len() > 0,
            strip_all_suffix(v@.take(end as int), p@) == strip_all_suffix(s@, p@),
            v@ == s@,
        ensures
            end <= v@.len(),
            strip_all_suffix(v@.take(end as int), p@) == strip_all_suffix(s@, p@),
            strip_all_suffix(v@.take(end as int), p@) == v@.take(end as int),
        decreases end,
    {
        let ghost t = v@.take(end as int);
        if end < pv.len() {
            break;
        }
        let start = end - pv.len();
        if !crate::text::occurs_at_exec(&v, &pv, start) {
            proof {
                if ends_with(t, p@) {
                    assert(v@.subrange(start as int, end as int) =~= t.subrange(
                        t.len() - p@.len(),
                        t.len() as int,
                    ));
                }
            }
            break;
        }
        proof {
            assert(t.subrange(t.len() - p@.len(), t.len() as int) =~= v@.subrange(
                start as int,
                end as int,
            ));
            assert(ends_with(t, p@));
            assert(t.take(t.len() - p@.len()) =~= v@.take(start as int));
        }
        end = start;
    }
    proof {
        assert(v@.take(v@.len() as int) =~= v@);
    }
    string_from_range(&v, 0, end)
}

/// The themed-icon name to search for: the trimmed `Icon` value without
/// `.svg` and then `.png` endings, normalized; nothing for a blank icon.
pub open spec fn themed_icon_name(icon: Seq<char>) -> Option<Seq<char>> {
    let t = trim(icon);
    if t.len() == 0 {
        None
    } else {
        Some(linux_id(strip_all_suffix(strip_all_suffix(t, ".svg"@), ".png"@)))
    }
}

pub fn themed_icon_lookup_name(icon: &str) -> (r: Option<String>)
    ensures
        r.deep_view() == themed_icon_name(icon@),
{
    let t = trim_string(icon);
    if t.as_str().is_empty() {
        return None;
    }
    proof {
        reveal_strlit(".svg");
        reveal_strlit(".png");
    }
    let a = strip_suffixes(t.as_str(), ".svg");
    let b = strip_suffixes(a.as_str(), ".png");
    Some(normalize_linux_id(b.as_str()))
}

/// The first of the highest scores.
pub fn first_best(scores: &Vec<i64>) -> (r: Option<usize>)
    ensures
        match r {
            Some(i) => i < scores@.len() && (forall|j: int| 0 <= j < scores@.len() ==> scores@[j]
                <= scores@[i as int]) && (forall|j: int| 0 <= j < i ==> scores@[j] < scores@[i as int]),
            None => scores@.len() == 0,
        },
{
    if scores.len() == 0 {
        return None;
    }
    let mut b: usize = 0;
    let mut i: usize = 1;
    while i < scores.len()
        invariant
            1 <= i <= scores@.len(),
            b < i,
            forall|j: int| 0 <= j < i ==> scores@[j] <= scores@[b as int],
            forall|j: int| 0 <= j < b ==> scores@[j] < scores@[b as int],
        decreases scores@.len() - i,
    {
        if scores[i] > scores[b] {
            b = i;
        }
        i += 1;
    }
    Some(b)
}

} // verus!
