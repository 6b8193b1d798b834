//! `file://` URIs and the paths they name (with `/` as the separator).
use vstd::prelude::*;
use crate::strops::{starts_with, starts_with_str};
use crate::text::{push_char, push_range, push_str, str_to_lowercase, to_chars, unicode_lowercase};

verus! {

/// The value of a hexadecimal digit.
pub open spec fn hex_digit(c: char) -> Option<u8> {
    if '0' <= c && c <= '9' {
        Some((c as u32 - 48) as u8)
    } else if 'a' <= c && c <= 'f' {
        Some((c as u32 - 87) as u8)
    } else if 'A' <= c && c <= 'F' {
        Some((c as u32 - 55) as u8)
    } else {
        None
    }
}

/// `u8::from_str_radix(h, 16)` for a string of at most two characters: an
/// optional `+` and one or two hexadecimal digits.
pub open spec fn hex_byte(h: Seq<char>) -> Option<u8> {
    let d = if h.len() > 0 && h[0] == '+' {
        h.subrange(1, h.len() as int)
    } else {
        h
    };
    if d.len() == 1 {
        hex_digit(d[0])
    } else if d.len() == 2 {
        match (hex_digit(d[0]), hex_digit(d[1])) {
            (Some(a), Some(b)) => Some((a * 16 + b) as u8),
            _ => None,
        }
    } else {
        None
    }
}

/// Percent-decoding from index `i`: `%` and the two characters after it
/// (fewer at the end) become the byte they spell, read as a character, or
/// stay as they are when they spell none.
pub open spec fn percent_decode_from(s: Seq<char>, i: int) -> Seq<char>
    decreases s.len() - i,
{
    if i < 0 || i >= s.len() {
        Seq::empty()
    } else if s[i] == '%' {
        let end = if i + 3 <= s.len() {
            i + 3
        } else {
            s.len() as int
        };
        let h = s.subrange(i + 1, end);
        match hex_byte(h) {
            Some(b) => seq![b as char] + percent_decode_from(s, end),
            None => seq!['%'] + h + percent_decode_from(s, end),
        }
    } else {
        seq![s[i]] + percent_decode_from(s, i + 1)
    }
}

/// The path a `file://` URI names, percent-decoded.
pub open spec fn uri_path(uri: Seq<char>) -> Option<Seq<char>> {
    if starts_with(uri, "file://"@) {
        Some(percent_decode_from(uri.subrange(7, uri.len() as int), 0))
    } else {
        None
    }
}

/// `hex_digit` in exec code.
fn hex_digit_exec(c: char) -> (r: Option<u8>)
    ensures
        r == hex_digit(c),
{
    let u = c as u32;
    if 48 <= u && u <= 57 {
        Some((u - 48) as u8)
    } else if 97 <= u && u <= 102 {
        Some((u - 87) as u8)
    } else if 65 <= u && u <= 70 {
        Some((u - 55) as u8)
    } else {
        None
    }
}

/// `hex_byte(s[a..b])`, for at most two characters.
fn hex_byte_exec(s: &[char], a: usize, b: usize) -> (r: Option<u8>)
    requires
        a <= b <= s@.len(),
        b - a <= 2,
    ensures
        r == hex_byte(s@.subrange(a as int, b as int)),
{
    let ghost h = s@.subrange(a as int, b as int);
    let mut d = a;
    if a < b && s[a] == '+' {
        d = a + 1;
        assert(h.subrange(1, h.len() as int) =~= s@.subrange(d as int, b as int));
    } else {
        assert(h =~= s@.subrange(d as int, b as int));
    }
    if b - d == 1 {
        hex_digit_exec(s[d])
    } else if b - d == 2 {
        match (hex_digit_exec(s[d]), hex_digit_exec(s[d + 1])) {
            (Some(x), Some(y)) => Some(x * 16 + y),
            _ => None,
        }
    } else {
        None
    }
}

/// Percent-decodes a string.
pub fn urlencoding_decode(s: &str) -> (r: String)
    ensures
        r@ == percent_decode_from(s@, 0),
{
    let v = to_chars(s);
    let mut out = String::new();
    let mut i: usize = 0;
    while i < v.len()
        invariant
            i <= v@.len(),
            v@ == s@,
            out@ + percent_decode_from(v@, i as int) == percent_decode_from(v@, 0),
        decreases v.len() - i,
    {
        let ghost o0 = out@;
        if v[i] == '%' {
            let end = if v.len() - i >= 3 {
                i + 3
            } else {
                v.len()
            };
            match hex_byte_exec(v.as_slice(), i + 1, end) {
                Some(b) => {
                    push_char(&mut out, b as char);
                },
                None => {
                    push_char(&mut out, '%');
                    push_range(&mut out, v.as_slice(), i + 1, end);
                },
            }
            proof {
                assert(out@ + percent_decode_from(v@, end as int) =~= o0 + percent_decode_from(v@, i as int));
            }
            i = end;
        } else {
            push_char(&mut out, v[i]);
            proof {
                assert(out@ + percent_decode_from(v@, i + 1) =~= o0 + percent_decode_from(v@, i as int));
            }
            i = i + 1;
        }
    }
    proof {
        assert(out@ + Seq::<char>::empty() =~= out@);
    }
    out
}

/// The path a `file://` URI names, percent-decoded; `None` for other URIs.
pub fn uri_to_path(uri: &str) -> (r: Option<String>)
    ensures
        crate::text::opt_view(r) == uri_path(uri@),
{
    let v = to_chars(uri);
    proof {
        assert(v@.subrange(0, v@.len() as int) =~= v@);
    }
    if !starts_with_str(v.as_slice(), 0, v.len(), "file://") {
        return None;
    }
    proof {
        reveal_strlit("file://");
    }
    let mut rest = String::new();
    push_range(&mut rest, v.as_slice(), 7, v.len());
    Some(urlencoding_decode(rest.as_str()))
}

/// The `file://` URI of a path: backslashes become `/`, a leading `//?/`
/// is dropped, and a relative path gets `file:///`.
pub open spec fn path_uri(path: Seq<char>) -> Seq<char> {
    let s = path.map_values(|c: char| if c == '\\' { '/' } else { c });
    let clean = if starts_with(s, "//?/"@) {
        s.subrange(4, s.len() as int)
    } else {
        s
    };
    if starts_with(clean, seq!['/']) {
        "file://"@ + clean
    } else {
        "file:///"@ + clean
    }
}

/// The `file://` URI of a path.
pub fn path_to_uri(path: &str) -> (r: String)
    ensures
        r@ == path_uri(path@),
{
    let p = to_chars(path);
    let mut s: Vec<char> = Vec::new();
    let mut i: usize = 0;
    while i < p.len()
        invariant
            i <= p@.len(),
            s@ == p@.take(i as int).map_values(|c: char| if c == '\\' { '/' } else { c }),
        decreases p.len() - i,
    {
        let c = p[i];
        s.push(if c == '\\' { '/' } else { c });
        proof {
            assert(p@.take(i + 1) =~= p@.take(i as int).push(c));
            assert(s@ =~= p@.take(i + 1).map_values(|c: char| if c == '\\' { '/' } else { c }));
        }
        i = i + 1;
    }
    proof {
        assert(p@.take(p@.len() as int) =~= p@);
        reveal_strlit("//?/");
    }
    let n = s.len();
    assert(s@.subrange(0, n as int) =~= s@);
    let start: usize = if starts_with_str(s.as_slice(), 0, n, "//?/") {
        4
    } else {
        0
    };
    let mut out = String::new();
    if start < n && s[start] == '/' {
        push_str(&mut out, "file://");
    } else {
        push_str(&mut out, "file:///");
    }
    push_range(&mut out, s.as_slice(), start, n);
    proof {
        let clean = s@.subrange(start as int, n as int);
        if start < n {
            assert(clean[0] == s@[start as int]);
            if s@[start as int] == '/' {
                assert(clean.subrange(0, 1) =~= seq!['/']);
            } else {
                assert(clean.subrange(0, 1)[0] != seq!['/'][0]);
            }
        }
        assert(starts_with(clean, seq!['/']) == (start < n && s@[start as int] == '/'));
    }
    out
}

/// A URI in a form fit for comparison: the `file://` URI of its decoded
/// path, or, for other URIs, the URI in lowercase.
pub open spec fn normalized_uri(uri: Seq<char>) -> Seq<char> {
    match uri_path(uri) {
        Some(p) => "file://"@ + p,
        None => unicode_lowercase(uri),
    }
}

/// Normalizes a URI for comparison.
pub fn normalize_uri(uri: &str) -> (r: String)
    ensures
        r@ == normalized_uri(uri@),
{
    match uri_to_path(uri) {
        Some(p) => {
            let mut out = crate::text::str_string("file://");
            push_str(&mut out, p.as_str());
            out
        },
        None => str_to_lowercase(uri),
    }
}

} // verus!

verus! {

/// The key and text of each cached document, as sequences.
pub open spec fn cache_view(c: Seq<(String, String)>) -> Seq<(Seq<char>, Seq<char>)> {
    c.map_values(|e: (String, String)| (e.0@, e.1@))
}

/// Index of the first entry from `k` on whose key is `key`.
pub open spec fn key_at(c: Seq<(Seq<char>, Seq<char>)>, key: Seq<char>, k: int) -> Option<int>
    decreases c.len() - k,
{
    if 0 <= k < c.len() {
        if c[k].0 == key {
            Some(k)
        } else {
            key_at(c, key, k + 1)
        }
    } else {
        None
    }
}

/// Index of the first entry from `k` on whose key normalizes to `norm`.
pub open spec fn normalized_key_at(c: Seq<(Seq<char>, Seq<char>)>, norm: Seq<char>, k: int) -> Option<int>
    decreases c.len() - k,
{
    if 0 <= k < c.len() {
        if normalized_uri(c[k].0) == norm {
            Some(k)
        } else {
            normalized_key_at(c, norm, k + 1)
        }
    } else {
        None
    }
}

/// The entry of the cache that holds the document `uri`: the one stored
/// under `uri`, else the first whose key names the same document.
pub open spec fn cached_entry(c: Seq<(Seq<char>, Seq<char>)>, uri: Seq<char>) -> Option<int> {
    match key_at(c, uri, 0) {
        Some(i) => Some(i),
        None => normalized_key_at(c, normalized_uri(uri), 0),
    }
}

/// The text of the document `uri` in the cache, whose entries `doc_cache`
/// lists in the order the cache is walked.
pub fn get_document_from_cache<'a>(doc_cache: &'a [(String, String)], uri: &str) -> (r: Option<&'a str>)
    ensures
        match cached_entry(cache_view(doc_cache@), uri@) {
            Some(i) => r matches Some(s) && s@ == doc_cache@[i].1@,
            None => r is None,
        },
{
    let ghost cv = cache_view(doc_cache@);
    let target = crate::text::str_string(uri);
    let mut i: usize = 0;
    while i < doc_cache.len()
        invariant
            i <= doc_cache@.len(),
            cv == cache_view(doc_cache@),
            target@ == uri@,
            key_at(cv, uri@, 0) == key_at(cv, uri@, i as int),
        decreases doc_cache.len() - i,
    {
        assert(cv[i as int] == (doc_cache@[i as int].0@, doc_cache@[i as int].1@));
        if doc_cache[i].0 == target {
            return Some(doc_cache[i].1.as_str());
        }
        i = i + 1;
    }
    let norm = normalize_uri(uri);
    let mut j: usize = 0;
    while j < doc_cache.len()
        invariant
            j <= doc_cache@.len(),
            cv == cache_view(doc_cache@),
            norm@ == normalized_uri(uri@),
            key_at(cv, uri@, 0) is None,
            normalized_key_at(cv, norm@, 0) == normalized_key_at(cv, norm@, j as int),
        decreases doc_cache.len() - j,
    {
        assert(cv[j as int] == (doc_cache@[j as int].0@, doc_cache@[j as int].1@));
        let k = normalize_uri(doc_cache[j].0.as_str());
        if k == norm {
            return Some(doc_cache[j].1.as_str());
        }
        j = j + 1;
    }
    None
}

} // verus!
