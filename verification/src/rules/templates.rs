//! Custom-mode line templates: `{key}` placeholders filled from the capture.
use crate::platform::{media_summary, MediaInfo};
use crate::text::{
    chars_of, is_whitespace, is_ws, join, owned, push_char, push_str, str_eq, string_from_range,
    trim, trim_by, trim_edges, trim_string,
};
use vstd::prelude::*;

verus! {

/// The values that placeholders stand for.
pub struct DiscordTemplateValues {
    activity: String,
    context: String,
    app: String,
    title: String,
    rule: String,
    media: String,
    song: String,
    artist: String,
    album: String,
    source: String,
}

/// The values in a fixed order: activity, context, app, title, rule, media, song, artist, album, source.
pub closed spec fn values_view(v: DiscordTemplateValues) -> Seq<Seq<char>> {
    seq![
        v.activity@,
        v.context@,
        v.app@,
        v.title@,
        v.rule@,
        v.media@,
        v.song@,
        v.artist@,
        v.album@,
        v.source@,
    ]
}

/// The values for one capture; the media fields are empty unless the media is visible.
pub open spec fn template_values(
    activity: Seq<char>,
    context: Seq<char>,
    app: Seq<char>,
    title: Seq<char>,
    rule: Seq<char>,
    m: MediaInfo,
    source: Seq<char>,
    media_visible: bool,
) -> Seq<Seq<char>> {
    seq![
        activity,
        context,
        app,
        title,
        rule,
        if media_visible {
            media_summary(m)
        } else {
            Seq::empty()
        },
        if media_visible {
            m.title@
        } else {
            Seq::empty()
        },
        if media_visible {
            m.artist@
        } else {
            Seq::empty()
        },
        if media_visible {
            m.album@
        } else {
            Seq::empty()
        },
        source,
    ]
}

/// The value a placeholder key names, if it names one.
pub open spec fn template_value(vals: Seq<Seq<char>>, key: Seq<char>) -> Option<Seq<char>> {
    if key == "activity"@ {
        Some(vals[0])
    } else if key == "context"@ {
        Some(vals[1])
    } else if key == "app"@ || key == "process"@ {
        Some(vals[2])
    } else if key == "title"@ {
        Some(vals[3])
    } else if key == "rule"@ {
        Some(vals[4])
    } else if key == "media"@ {
        Some(vals[5])
    } else if key == "song"@ {
        Some(vals[6])
    } else if key == "artist"@ {
        Some(vals[7])
    } else if key == "album"@ {
        Some(vals[8])
    } else if key == "source"@ {
        Some(vals[9])
    } else {
        None
    }
}

/// The index of the first occurrence of `c`.
pub open spec fn first_index_of(s: Seq<char>, c: char) -> Option<int>
    decreases s.len(),
{
    if s.len() == 0 {
        None
    } else if s[0] == c {
        Some(0)
    } else {
        match first_index_of(s.drop_first(), c) {
            Some(k) => Some(k + 1),
            None => None,
        }
    }
}

pub proof fn lemma_first_index_of(s: Seq<char>, c: char)
    ensures
        match first_index_of(s, c) {
            Some(k) => 0 <= k < s.len() && s[k] == c && forall|j: int| 0 <= j < k ==> s[j] != c,
            None => forall|j: int| 0 <= j < s.len() ==> s[j] != c,
        },
    decreases s.len(),
{
    if s.len() > 0 {
        lemma_first_index_of(s.drop_first(), c);
        match first_index_of(s.drop_first(), c) {
            Some(k) => {
                assert forall|j: int| 0 <= j < k + 1 && s[0] != c implies #[trigger] s[j] != c by {
                    if j > 0 {
                        assert(s[j] == s.drop_first()[j - 1]);
                    }
                }
            },
            None => {
                assert forall|j: int| 0 <= j < s.len() && s[0] != c implies #[trigger] s[j] != c by {
                    if j > 0 {
                        assert(s[j] == s.drop_first()[j - 1]);
                    }
                }
            },
        }
    }
}

pub proof fn lemma_first_index_of_at(s: Seq<char>, c: char, k: int)
    requires
        0 <= k < s.len(),
        s[k] == c,
        forall|j: int| 0 <= j < k ==> s[j] != c,
    ensures
        first_index_of(s, c) == Some(k),
{
    lemma_first_index_of(s, c);
}

/// The template with every closed `{key}` that names a value replaced by it;
/// other closed braces are kept as written, and an unclosed `{` keeps the rest verbatim.
pub open spec fn render_chars(t: Seq<char>, vals: Seq<Seq<char>>) -> Seq<char>
    decreases t.len(),
{
    if t.len() == 0 {
        Seq::empty()
    } else if t[0] != '{' {
        seq![t[0]] + render_chars(t.drop_first(), vals)
    } else {
        let rest = t.drop_first();
        match first_index_of(rest, '}') {
            Some(k) => {
                proof {
                    lemma_first_index_of(rest, '}');
                }
                let key = rest.take(k);
                (match template_value(vals, trim(key)) {
                    Some(v) => v,
                    None => seq!['{'] + key + seq!['}'],
                }) + render_chars(rest.skip(k + 1), vals)
            },
            None => seq!['{'] + rest,
        }
    }
}

/// Whitespace-separated words, in order.
pub open spec fn words(s: Seq<char>) -> Seq<Seq<char>>
    decreases s.len(),
{
    if s.len() == 0 {
        Seq::empty()
    } else {
        let w = words(s.drop_last());
        let c = s.last();
        if is_ws(c) {
            w
        } else if s.len() >= 2 && !is_ws(s[s.len() - 2]) && w.len() > 0 {
            w.update(w.len() - 1, w.last().push(c))
        } else {
            w.push(seq![c])
        }
    }
}

/// Words joined by single spaces, then separators and whitespace trimmed from both ends.
pub open spec fn clean_spec(s: Seq<char>) -> Seq<char> {
    trim(trim_by(join(words(s), " "@), true))
}

/// A rendered line, or nothing when the template is blank.
pub open spec fn render_spec(template: Seq<char>, vals: Seq<Seq<char>>) -> Option<Seq<char>> {
    if trim(template).len() == 0 {
        None
    } else {
        Some(clean_spec(render_chars(trim(template), vals)))
    }
}

impl DiscordTemplateValues {
    pub fn new(
        activity: &str,
        context: &str,
        app: &str,
        title: &str,
        rule: &str,
        media: &MediaInfo,
        source: &str,
        media_visible: bool,
    ) -> (r: Self)
        ensures
            values_view(r) == template_values(
                activity@,
                context@,
                app@,
                title@,
                rule@,
                *media,
                source@,
                media_visible,
            ),
    {
        let r = DiscordTemplateValues {
            activity: owned(activity),
            context: owned(context),
            app: owned(app),
            title: owned(title),
            rule: owned(rule),
            media: if media_visible {
                media.summary()
            } else {
                String::new()
            },
            song: if media_visible {
                media.title.clone()
            } else {
                String::new()
            },
            artist: if media_visible {
                media.artist.clone()
            } else {
                String::new()
            },
            album: if media_visible {
                media.album.clone()
            } else {
                String::new()
            },
            source: owned(source),
        };
        assert(values_view(r) =~= template_values(
            activity@,
            context@,
            app@,
            title@,
            rule@,
            *media,
            source@,
            media_visible,
        ));
        r
    }

    fn value(&self, key: &str) -> (r: Option<&str>)
        ensures
            r.deep_view() == template_value(values_view(*self), key@),
    {
        if str_eq(key, "activity") {
            Some(self.activity.as_str())
        } else if str_eq(key, "context") {
            Some(self.context.as_str())
        } else if str_eq(key, "app") || str_eq(key, "process") {
            Some(self.app.as_str())
        } else if str_eq(key, "title") {
            Some(self.title.as_str())
        } else if str_eq(key, "rule") {
            Some(self.rule.as_str())
        } else if str_eq(key, "media") {
            Some(self.media.as_str())
        } else if str_eq(key, "song") {
            Some(self.song.as_str())
        } else if str_eq(key, "artist") {
            Some(self.artist.as_str())
        } else if str_eq(key, "album") {
            Some(self.album.as_str())
        } else if str_eq(key, "source") {
            Some(self.source.as_str())
        } else {
            None
        }
    }
}

proof fn lemma_render_step_plain(t: Seq<char>, i: int, vals: Seq<Seq<char>>)
    requires
        0 <= i < t.len(),
        t[i] != '{',
    ensures
        render_chars(t.skip(i), vals) == seq![t[i]] + render_chars(t.skip(i + 1), vals),
{
    assert(t.skip(i).drop_first() =~= t.skip(i + 1));
}

pub proof fn lemma_render_step_closed(t: Seq<char>, i: int, j: int, vals: Seq<Seq<char>>)
    requires
        0 <= i < j < t.len(),
        t[i] == '{',
        t[j] == '}',
        forall|k: int| i < k < j ==> t[k] != '}',
    ensures
        render_chars(t.skip(i), vals) == (match template_value(vals, trim(t.subrange(i + 1, j))) {
            Some(v) => v,
            None => seq!['{'] + t.subrange(i + 1, j) + seq!['}'],
        }) + render_chars(t.skip(j + 1), vals),
{
    let s = t.skip(i);
    let rest = s.drop_first();
    assert(rest =~= t.skip(i + 1));
    assert forall|k: int| 0 <= k < j - i - 1 implies rest[k] != '}' by {
        assert(rest[k] == t[i + 1 + k]);
    }
    lemma_first_index_of_at(rest, '}', j - i - 1);
    assert(rest.take(j - i - 1) =~= t.subrange(i + 1, j));
    assert(rest.skip(j - i) =~= t.skip(j + 1));
}

proof fn lemma_render_step_open(t: Seq<char>, i: int, vals: Seq<Seq<char>>)
    requires
        0 <= i < t.len(),
        t[i] == '{',
        forall|k: int| i < k < t.len() ==> t[k] != '}',
    ensures
        render_chars(t.skip(i), vals) == seq!['{'] + t.skip(i + 1),
{
    let s = t.skip(i);
    let rest = s.drop_first();
    assert(rest =~= t.skip(i + 1));
    assert forall|k: int| 0 <= k < rest.len() implies rest[k] != '}' by {
        assert(rest[k] == t[i + 1 + k]);
    }
    lemma_first_index_of(rest, '}');
    if first_index_of(rest, '}') is Some {
        let k = first_index_of(rest, '}')->0;
        assert(rest[k] == '}');
    }
}

/// Fills the placeholders of a template.
pub fn render_chars_exec(t: &Vec<char>, values: &DiscordTemplateValues) -> (r: String)
    ensures
        r@ == render_chars(t@, values_view(*values)),
{
    let ghost vals = values_view(*values);
    let mut out = String::new();
    let mut i: usize = 0;
    assert(t@.skip(0) =~= t@);
    while i < t.len()
        invariant
            i <= t.len(),
            vals == values_view(*values),
            out@ + render_chars(t@.skip(i as int), vals) == render_chars(t@, vals),
        decreases t.len() - i,
    {
        let ch = t[i];
        if ch != '{' {
            proof {
                lemma_render_step_plain(t@, i as int, vals);
            }
            let ghost before = out@;
            push_char(&mut out, ch);
            proof {
                assert(out@ + render_chars(t@.skip(i + 1), vals) =~= before + (seq![ch] + render_chars(
                    t@.skip(i + 1),
                    vals,
                )));
            }
            i += 1;
            continue;
        }
        // Look for the closing brace.
        let mut j: usize = i + 1;
        while j < t.len() && t[j] != '}'
            invariant
                i < j <= t.len(),
                forall|k: int| i < k < j ==> t@[k] != '}',
            decreases t.len() - j,
        {
            j += 1;
        }
        if j < t.len() {
            proof {
                lemma_render_step_closed(t@, i as int, j as int, vals);
            }
            let key = string_from_range(t, i + 1, j);
            let trimmed = trim_string(key.as_str());
            let ghost before = out@;
            match values.value(trimmed.as_str()) {
                Some(v) => {
                    push_str(&mut out, v);
                },
                None => {
                    push_char(&mut out, '{');
                    push_str(&mut out, key.as_str());
                    push_char(&mut out, '}');
                    proof {
                        assert(out@ =~= before + (seq!['{'] + key@ + seq!['}']));
                    }
                },
            }
            proof {
                assert(out@ + render_chars(t@.skip(j + 1), vals) =~= before + (match template_value(
                    vals,
                    trim(t@.subrange(i + 1, j as int)),
                ) {
                    Some(v) => v,
                    None => seq!['{'] + t@.subrange(i + 1, j as int) + seq!['}'],
                }) + render_chars(t@.skip(j + 1), vals));
            }
            i = j + 1;
        } else {
            proof {
                lemma_render_step_open(t@, i as int, vals);
            }
            let ghost before = out@;
            push_char(&mut out, '{');
            let rest = string_from_range(t, i + 1, t.len());
            push_str(&mut out, rest.as_str());
            proof {
                assert(t@.skip(i + 1) =~= t@.subrange(i + 1, t.len() as int));
                assert(t@.skip(t.len() as int) =~= Seq::<char>::empty());
                assert(out@ + render_chars(t@.skip(t.len() as int), vals) =~= before + (seq!['{']
                    + t@.skip(i + 1)));
            }
            i = t.len();
        }
    }
    assert(t@.skip(t.len() as int) =~= Seq::<char>::empty());
    assert(out@ + Seq::<char>::empty() =~= out@);
    out
}

proof fn lemma_join_push_word(w: Seq<Seq<char>>, c: char)
    ensures
        join(w.push(seq![c]), " "@) == (if w.len() == 0 {
            seq![c]
        } else {
            join(w, " "@) + " "@ + seq![c]
        }),
{
    if w.len() == 0 {
        assert(w.push(seq![c]) =~= seq![seq![c]]);
    } else {
        assert(w.push(seq![c]).drop_last() =~= w);
    }
}

proof fn lemma_join_extend_last(w: Seq<Seq<char>>, c: char)
    requires
        w.len() > 0,
    ensures
        join(w.update(w.len() - 1, w.last().push(c)), " "@) == join(w, " "@).push(c),
{
    let u = w.update(w.len() - 1, w.last().push(c));
    if w.len() == 1 {
        assert(u[0] == w[0].push(c));
    } else {
        assert(u.drop_last() =~= w.drop_last());
        assert(join(u, " "@) == join(w.drop_last(), " "@) + " "@ + w.last().push(c));
        assert(join(w.drop_last(), " "@) + " "@ + w.last().push(c) =~= (join(w.drop_last(), " "@)
            + " "@ + w.last()).push(c));
    }
}

/// Collapses runs of whitespace into single spaces and drops leading and trailing whitespace.
pub fn collapse_whitespace(s: &Vec<char>) -> (r: String)
    ensures
        r@ == join(words(s@), " "@),
{
    let mut out = String::new();
    let mut i: usize = 0;
    let ghost mut w: Seq<Seq<char>> = Seq::empty();
    let mut any_word = false;
    proof {
        reveal_strlit(" ");
    }
    while i < s.len()
        invariant
            i <= s.len(),
            w == words(s@.take(i as int)),
            any_word == (w.len() > 0),
            out@ == join(w, " "@),
            i > 0 && !is_ws(s@[i - 1]) ==> w.len() > 0,
            " "@ == seq![' '],
        decreases s.len() - i,
    {
        let c = s[i];
        proof {
            assert(s@.take(i + 1).drop_last() =~= s@.take(i as int));
            assert(s@.take(i + 1).last() == c);
        }
        if is_whitespace(c) {
        } else if i >= 1 && !is_whitespace(s[i - 1]) {
            proof {
                assert(s@.take(i + 1)[i - 1] == s@[i - 1]);
                lemma_join_extend_last(w, c);
                w = w.update(w.len() - 1, w.last().push(c));
            }
            push_char(&mut out, c);
        } else {
            proof {
                if i >= 1 {
                    assert(s@.take(i + 1)[i - 1] == s@[i - 1]);
                }
                lemma_join_push_word(w, c);
            }
            if any_word {
                push_char(&mut out, ' ');
            }
            push_char(&mut out, c);
            any_word = true;
            proof {
                w = w.push(seq![c]);
            }
        }
        i += 1;
    }
    assert(s@.take(s.len() as int) =~= s@);
    out
}

/// Collapses whitespace, then trims separators and whitespace from both ends.
pub fn clean_rendered_text(value: &Vec<char>) -> (r: String)
    ensures
        r@ == clean_spec(value@),
{
    let collapsed = collapse_whitespace(value);
    let stripped = trim_edges(collapsed.as_str(), true);
    trim_string(stripped.as_str())
}

/// Renders a template, or gives nothing when it is blank.
pub fn render_discord_template(template: &str, values: &DiscordTemplateValues) -> (r: Option<
    String,
>)
    ensures
        r.deep_view() == render_spec(template@, values_view(*values)),
{
    let trimmed = trim_string(template);
    if trimmed.as_str().is_empty() {
        return None;
    }
    let chars = chars_of(trimmed.as_str());
    let rendered = render_chars_exec(&chars, values);
    let rendered_chars = chars_of(rendered.as_str());
    Some(clean_rendered_text(&rendered_chars))
}

} // verus!
