//! Image payloads: telling formats apart by their first bytes, and decoding
//! base64 text and `data:` URLs into bytes.
use super::MediaArtwork;
use crate::text::{
    chars_of, first_index, eq_ignore_ascii_case, eq_ignore_case_ascii, lowercased, starts_with,
    string_from_range, to_lowercase, trim, trim_string,
};
use base64::Engine;
use vstd::prelude::*;

verus! {

/// What standard base64 (with padding) decodes `s` to; `None` where it is not valid.
pub uninterp spec fn base64_standard_decoded(s: Seq<char>) -> Option<Seq<u8>>;

/// `base64::engine::general_purpose::STANDARD.decode`: the bytes that the
/// text encodes, or `None` when it is not valid padded standard base64.
#[verifier::external_body]
fn base64_decode_standard(s: &str) -> (r: Option<Vec<u8>>)
    ensures
        match r {
            Some(v) => base64_standard_decoded(s@) == Some(v@),
            None => base64_standard_decoded(s@) is None,
        },
{
    base64::engine::general_purpose::STANDARD.decode(s).ok()
}

pub open spec fn bytes_start_with(b: Seq<u8>, p: Seq<u8>) -> bool {
    b.len() >= p.len() && b.take(p.len() as int) == p
}

/// The image type that the leading bytes announce: JPEG, PNG, GIF or WebP.
pub open spec fn sniffed_image_type(b: Seq<u8>) -> Option<Seq<char>> {
    if bytes_start_with(b, seq![0xFFu8, 0xD8u8, 0xFFu8]) {
        Some("image/jpeg"@)
    } else if bytes_start_with(b, seq![0x89u8, 0x50u8, 0x4Eu8, 0x47u8, 0x0Du8, 0x0Au8, 0x1Au8, 0x0Au8]) {
        Some("image/png"@)
    } else if bytes_start_with(b, seq![0x47u8, 0x49u8, 0x46u8, 0x38u8, 0x37u8, 0x61u8])
        || bytes_start_with(b, seq![0x47u8, 0x49u8, 0x46u8, 0x38u8, 0x39u8, 0x61u8]) {
        Some("image/gif"@)
    } else if b.len() >= 12 && b.subrange(0, 4) == seq![0x52u8, 0x49u8, 0x46u8, 0x46u8]
        && b.subrange(8, 12) == seq![0x57u8, 0x45u8, 0x42u8, 0x50u8] {
        Some("image/webp"@)
    } else {
        None
    }
}

fn has_prefix(b: &[u8], p: &[u8]) -> (r: bool)
    ensures
        r == bytes_start_with(b@, p@),
{
    if b.len() < p.len() {
        return false;
    }
    let mut i: usize = 0;
    while i < p.len()
        invariant
            i <= p@.len(),
            p@.len() <= b@.len(),
            forall|k: int| 0 <= k < i ==> b@[k] == p@[k],
        decreases p@.len() - i,
    {
        if b[i] != p[i] {
            assert(b@.take(p@.len() as int)[i as int] != p@[i as int]);
            return false;
        }
        i += 1;
    }
    assert(b@.take(p@.len() as int) =~= p@);
    true
}

/// The image type announced by the first bytes, if any.
pub fn detect_image_content_type(bytes: &[u8]) -> (r: Option<&'static str>)
    ensures
        r.deep_view() == sniffed_image_type(bytes@),
{
    let jpeg: [u8; 3] = [0xFF, 0xD8, 0xFF];
    let png: [u8; 8] = [0x89, 0x50, 0x4E, 0x47, 0x0D, 0x0A, 0x1A, 0x0A];
    let gif7: [u8; 6] = [0x47, 0x49, 0x46, 0x38, 0x37, 0x61];
    let gif9: [u8; 6] = [0x47, 0x49, 0x46, 0x38, 0x39, 0x61];
    assert(jpeg@ =~= seq![0xFFu8, 0xD8u8, 0xFFu8]);
    assert(png@ =~= seq![0x89u8, 0x50u8, 0x4Eu8, 0x47u8, 0x0Du8, 0x0Au8, 0x1Au8, 0x0Au8]);
    assert(gif7@ =~= seq![0x47u8, 0x49u8, 0x46u8, 0x38u8, 0x37u8, 0x61u8]);
    assert(gif9@ =~= seq![0x47u8, 0x49u8, 0x46u8, 0x38u8, 0x39u8, 0x61u8]);
    if has_prefix(bytes, jpeg.as_slice()) {
        Some("image/jpeg")
    } else if has_prefix(bytes, png.as_slice()) {
        Some("image/png")
    } else if has_prefix(bytes, gif7.as_slice()) || has_prefix(bytes, gif9.as_slice()) {
        Some("image/gif")
    } else if bytes.len() >= 12 && bytes[0] == 0x52 && bytes[1] == 0x49 && bytes[2] == 0x46
        && bytes[3] == 0x46 && bytes[8] == 0x57 && bytes[9] == 0x45 && bytes[10] == 0x42
        && bytes[11] == 0x50 {
        assert(bytes@.subrange(0, 4) =~= seq![0x52u8, 0x49u8, 0x46u8, 0x46u8]);
        assert(bytes@.subrange(8, 12) =~= seq![0x57u8, 0x45u8, 0x42u8, 0x50u8]);
        Some("image/webp")
    } else {
        proof {
            if bytes@.len() >= 12 && bytes@.subrange(0, 4) == seq![0x52u8, 0x49u8, 0x46u8, 0x46u8]
                && bytes@.subrange(8, 12) == seq![0x57u8, 0x45u8, 0x42u8, 0x50u8] {
                assert(bytes@.subrange(0, 4)[0] == bytes@[0]);
                assert(bytes@.subrange(0, 4)[1] == bytes@[1]);
                assert(bytes@.subrange(0, 4)[2] == bytes@[2]);
                assert(bytes@.subrange(0, 4)[3] == bytes@[3]);
                assert(bytes@.subrange(8, 12)[0] == bytes@[8]);
                assert(bytes@.subrange(8, 12)[1] == bytes@[9]);
                assert(bytes@.subrange(8, 12)[2] == bytes@[10]);
                assert(bytes@.subrange(8, 12)[3] == bytes@[11]);
            }
        }
        None
    }
}

/// The base64 text of an image payload: after the first comma when there is
/// one (a `data:` prefix), else all of it; trimmed.
pub open spec fn payload_text(t: Seq<char>) -> Seq<char> {
    match first_index(t, ',') {
        Some(k) => trim(t.skip(k + 1)),
        None => trim(t),
    }
}

/// The bytes of a base64 image payload: nothing for blank text or `null`,
/// and nothing when the decoded payload is empty.
pub open spec fn image_payload_bytes(value: Seq<char>) -> Option<Seq<u8>> {
    let t = trim(value);
    if t.len() == 0 || eq_ignore_ascii_case(t, "null"@) {
        None
    } else {
        match base64_standard_decoded(payload_text(t)) {
            Some(b) => if b.len() > 0 {
                Some(b)
            } else {
                None
            },
            None => None,
        }
    }
}

/// The index of the first `c` in `v`, with its specification.
pub fn find_char(v: &Vec<char>, c: char) -> (r: Option<usize>)
    ensures
        match r {
            Some(k) => first_index(v@, c) == Some(k as int) && k < v@.len(),
            None => first_index(v@, c) is None,
        },
{
    let mut i: usize = 0;
    while i < v.len()
        invariant
            i <= v@.len(),
            forall|j: int| 0 <= j < i ==> v@[j] != c,
        decreases v@.len() - i,
    {
        if v[i] == c {
            proof {
                let w = choose|k: int|
                    0 <= k < v@.len() && v@[k] == c && forall|j: int| 0 <= j < k ==> v@[j] != c;
                assert(0 <= i < v@.len() && v@[i as int] == c && forall|j: int|
                    0 <= j < i ==> v@[j] != c);
                if w < i {
                    assert(v@[w] != c);
                } else if w > i {
                    assert(v@[i as int] != c);
                }
            }
            return Some(i);
        }
        i += 1;
    }
    None
}

/// Decodes a base64 image payload, with or without a `data:...,` prefix.
pub fn decode_base64_image_payload(value: &str) -> (r: Option<Vec<u8>>)
    ensures
        r.deep_view() == image_payload_bytes(value@),
{
    let trimmed = trim_string(value);
    if trimmed.as_str().is_empty() || eq_ignore_case_ascii(trimmed.as_str(), "null") {
        return None;
    }
    let chars = chars_of(trimmed.as_str());
    let encoded = match find_char(&chars, ',') {
        Some(k) => {
            let rest = string_from_range(&chars, k + 1, chars.len());
            assert(rest@ =~= trimmed@.skip(k + 1));
            trim_string(rest.as_str())
        },
        None => trim_string(trimmed.as_str()),
    };
    match base64_decode_standard(encoded.as_str()) {
        Some(bytes) => if bytes.len() > 0 {
            Some(bytes)
        } else {
            None
        },
        None => None,
    }
}

/// A `data:` URL: the text between `data:` and the first `;` (not empty),
/// then `;base64,`, then a payload without line breaks (not empty).
pub open spec fn data_url_parts(s: Seq<char>) -> Option<(Seq<char>, Seq<char>)> {
    if s.len() >= 5 && s.take(5) == "data:"@ {
        let rest = s.skip(5);
        match first_index(rest, ';') {
            Some(k) => {
                let tail = rest.skip(k);
                if k >= 1 && tail.len() > 8 && tail.take(8) == ";base64,"@ && forall|i: int|
                    8 <= i < tail.len() ==> tail[i] != '\n' {
                    Some((rest.take(k), tail.skip(8)))
                } else {
                    None
                }
            },
            None => None,
        }
    } else {
        None
    }
}

/// The image of an inline `data:` URL: its MIME type (lower-cased) must be an
/// image type and its payload must decode to some bytes.
pub open spec fn inline_data_url_image(url: Seq<char>) -> Option<(Seq<char>, Seq<u8>)> {
    match data_url_parts(trim(url)) {
        Some((mime, payload)) => {
            let lower = lowercased(mime);
            if starts_with(lower, "image/"@) {
                match base64_standard_decoded(trim(payload)) {
                    Some(b) => if b.len() > 0 {
                        Some((lower, b))
                    } else {
                        None
                    },
                    None => None,
                }
            } else {
                None
            }
        },
        None => None,
    }
}

fn has_data_prefix(v: &Vec<char>) -> (r: bool)
    ensures
        r == (v@.len() >= 5 && v@.take(5) == "data:"@),
{
    proof {
        reveal_strlit("data:");
    }
    if v.len() < 5 {
        return false;
    }
    let r = v[0] == 'd' && v[1] == 'a' && v[2] == 't' && v[3] == 'a' && v[4] == ':';
    proof {
        if r {
            assert(v@.take(5) =~= "data:"@);
        } else if v@.take(5) == "data:"@ {
            assert(v@.take(5)[0] == 'd');
            assert(v@.take(5)[1] == 'a');
            assert(v@.take(5)[2] == 't');
            assert(v@.take(5)[3] == 'a');
            assert(v@.take(5)[4] == ':');
        }
    }
    r
}

fn has_base64_marker(v: &Vec<char>, k: usize) -> (r: bool)
    requires
        k <= v@.len(),
    ensures
        r == (v@.skip(k as int).len() > 8 && v@.skip(k as int).take(8) == ";base64,"@),
{
    proof {
        reveal_strlit(";base64,");
    }
    if v.len() - k <= 8 {
        return false;
    }
    let r = v[k] == ';' && v[k + 1] == 'b' && v[k + 2] == 'a' && v[k + 3] == 's' && v[k + 4]
        == 'e' && v[k + 5] == '6' && v[k + 6] == '4' && v[k + 7] == ',';
    proof {
        let t = v@.skip(k as int).take(8);
        if r {
            assert(t =~= ";base64,"@);
        } else if t == ";base64,"@ {
            assert(t[0] == ';');
            assert(t[1] == 'b');
            assert(t[2] == 'a');
            assert(t[3] == 's');
            assert(t[4] == 'e');
            assert(t[5] == '6');
            assert(t[6] == '4');
            assert(t[7] == ',');
        }
    }
    r
}

fn no_line_break_from(v: &Vec<char>, start: usize) -> (r: bool)
    requires
        start <= v@.len(),
    ensures
        r == (forall|j: int| start <= j < v@.len() ==> v@[j] != '\n'),
{
    let mut i: usize = start;
    while i < v.len()
        invariant
            start <= i <= v@.len(),
            forall|j: int| start <= j < i ==> v@[j] != '\n',
        decreases v@.len() - i,
    {
        if v[i] == '\n' {
            return false;
        }
        i += 1;
    }
    true
}

fn split_data_url(s: &str) -> (r: Option<(String, String)>)
    ensures
        match r {
            Some((m, p)) => data_url_parts(s@) == Some((m@, p@)),
            None => data_url_parts(s@) is None,
        },
{
    let v = chars_of(s);
    if !has_data_prefix(&v) {
        return None;
    }
    let rest = string_from_range(&v, 5, v.len());
    let rv = chars_of(rest.as_str());
    assert(rv@ =~= s@.skip(5));
    let k = match find_char(&rv, ';') {
        Some(k) => k,
        None => {
            return None;
        },
    };
    let ghost tail = rv@.skip(k as int);
    if k < 1 || !has_base64_marker(&rv, k) {
        return None;
    }
    let ok = no_line_break_from(&rv, k + 8);
    proof {
        assert forall|j: int| 8 <= j < tail.len() implies tail[j] == rv@[j + k] by {}
        if !ok {
            let j = choose|j: int| k + 8 <= j < rv@.len() && rv@[j] == '\n';
            assert(tail[j - k] == '\n');
        }
    }
    if !ok {
        return None;
    }
    let mime = string_from_range(&rv, 0, k);
    let payload = string_from_range(&rv, k + 8, rv.len());
    assert(mime@ =~= rv@.take(k as int));
    assert(payload@ =~= tail.skip(8));
    Some((mime, payload))
}

/// The artwork in an inline `data:` URL, decoded without downloading anything.
pub fn decode_inline_data_url(data_url: &str) -> (r: Option<MediaArtwork>)
    ensures
        match r {
            Some(a) => inline_data_url_image(data_url@) == Some((a.content_type@, a.bytes@)),
            None => inline_data_url_image(data_url@) is None,
        },
{
    let trimmed = trim_string(data_url);
    let (mime, payload) = match split_data_url(trimmed.as_str()) {
        Some(parts) => parts,
        None => {
            return None;
        },
    };
    let lower = to_lowercase(mime.as_str());
    if !crate::text::starts_with_str(lower.as_str(), "image/") {
        return None;
    }
    let encoded = trim_string(payload.as_str());
    match base64_decode_standard(encoded.as_str()) {
        Some(bytes) => if bytes.len() > 0 {
            Some(MediaArtwork { bytes, content_type: lower })
        } else {
            None
        },
        None => None,
    }
}

} // verus!
