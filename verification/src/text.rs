//! Character-level text model shared by every scanner of the crate.
//!
//! Text is handled as a sequence of `char`s (the view of a `&str`); a piece of
//! text is a half-open range `[a, b)` into such a sequence.  Columns reported to
//! editors are UTF-8 byte offsets, computed from the character prefix with
//! `blen`.
use vstd::prelude::*;
use vstd::std_specs::iter::IteratorSpec;

verus! {

// ---------------------------------------------------------------------------
// Character classes
// ---------------------------------------------------------------------------

/// The Unicode `White_Space` property, which `char::is_whitespace` tests.
pub open spec fn is_ws(c: char) -> bool {
    let u = c as u32;
    ||| (0x09 <= u && u <= 0x0D)
    ||| u == 0x20
    ||| u == 0x85
    ||| u == 0xA0
    ||| u == 0x1680
    ||| (0x2000 <= u && u <= 0x200A)
    ||| u == 0x2028
    ||| u == 0x2029
    ||| u == 0x202F
    ||| u == 0x205F
    ||| u == 0x3000
}

/// Whitespace test with the semantics of `char::is_whitespace`.
pub fn char_is_whitespace(c: char) -> (r: bool)
    ensures
        r == is_ws(c),
{
    let u = c as u32;
    (0x09 <= u && u <= 0x0D) || u == 0x20 || u == 0x85 || u == 0xA0 || u == 0x1680 || (0x2000
        <= u && u <= 0x200A) || u == 0x2028 || u == 0x2029 || u == 0x202F || u == 0x205F || u
        == 0x3000
}

/// ASCII letters and digits.
pub open spec fn is_ascii_alnum(c: char) -> bool {
    ('a' <= c && c <= 'z') || ('A' <= c && c <= 'Z') || ('0' <= c && c <= '9')
}

/// ASCII letters.
pub open spec fn is_ascii_alpha(c: char) -> bool {
    ('a' <= c && c <= 'z') || ('A' <= c && c <= 'Z')
}

/// What `char::is_alphanumeric` answers for a character (Unicode `Alphabetic`
/// or `Numeric`).
pub uninterp spec fn unicode_alphanumeric(c: char) -> bool;

/// What `char::is_alphabetic` answers for a character (Unicode `Alphabetic`).
pub uninterp spec fn unicode_alphabetic(c: char) -> bool;

/// Calls `char::is_alphanumeric`.  The contract names the answer and states
/// what the documentation gives for ASCII: letters and digits, nothing else.
/// For other characters the Unicode tables decide, and nothing more is said.
#[verifier::external_body]
pub(crate) fn char_is_alphanumeric(c: char) -> (r: bool)
    ensures
        r == unicode_alphanumeric(c),
        (c as u32) < 128 ==> (r <==> is_ascii_alnum(c)),
{
    c.is_alphanumeric()
}

/// Calls `char::is_alphabetic`.  The contract names the answer and states
/// what the documentation gives for ASCII: the letters, nothing else.
#[verifier::external_body]
pub(crate) fn char_is_alphabetic(c: char) -> (r: bool)
    ensures
        r == unicode_alphabetic(c),
        (c as u32) < 128 ==> (r <==> is_ascii_alpha(c)),
{
    c.is_alphabetic()
}

/// ASCII lowercase of one character; other characters are unchanged.
pub open spec fn ascii_lower_char(c: char) -> char {
    if 'A' <= c && c <= 'Z' {
        ((c as u32) + 32) as char
    } else {
        c
    }
}

/// What `str::to_lowercase` gives for a string (the Unicode lowercase
/// mapping of each character).
pub uninterp spec fn unicode_lowercase(s: Seq<char>) -> Seq<char>;

/// Calls `str::to_lowercase`.  The contract names the result and states
/// what Unicode gives for an ASCII string: `A`..`Z` become `a`..`z`, every
/// other character stays.  For other strings the Unicode tables decide.
#[verifier::external_body]
pub(crate) fn str_to_lowercase(s: &str) -> (r: String)
    ensures
        r@ == unicode_lowercase(s@),
        (forall|i: int| 0 <= i < s@.len() ==> (#[trigger] s@[i] as u32) < 128) ==> r@ == s@.map_values(
            |c: char| ascii_lower_char(c),
        ),
{
    s.to_lowercase()
}

/// A character that may stand inside an identifier: alphanumeric or `_`.
pub open spec fn is_word(c: char) -> bool {
    unicode_alphanumeric(c) || c == '_'
}

pub fn char_is_word(c: char) -> (r: bool)
    ensures
        r == is_word(c),
        (c as u32) < 128 ==> (r <==> is_ascii_alnum(c) || c == '_'),
{
    c == '_' || char_is_alphanumeric(c)
}

// ---------------------------------------------------------------------------
// UTF-8 byte lengths
// ---------------------------------------------------------------------------

/// Number of bytes of the UTF-8 encoding of one character.
pub open spec fn cw(c: char) -> nat {
    let u = c as u32;
    if u < 0x80 {
        1
    } else if u < 0x800 {
        2
    } else if u < 0x10000 {
        3
    } else {
        4
    }
}

/// Number of bytes of the UTF-8 encoding of a character sequence.
pub open spec fn blen(s: Seq<char>) -> nat
    decreases s.len(),
{
    if s.len() == 0 {
        0
    } else {
        blen(s.drop_last()) + cw(s.last())
    }
}

pub fn char_width(c: char) -> (r: usize)
    ensures
        r == cw(c),
{
    let u = c as u32;
    if u < 0x80 {
        1
    } else if u < 0x800 {
        2
    } else if u < 0x10000 {
        3
    } else {
        4
    }
}

pub proof fn lemma_blen_push(s: Seq<char>, c: char)
    ensures
        blen(s.push(c)) == blen(s) + cw(c),
{
    assert(s.push(c).drop_last() =~= s);
}

pub proof fn lemma_blen_concat(s: Seq<char>, t: Seq<char>)
    ensures
        blen(s + t) == blen(s) + blen(t),
    decreases t.len(),
{
    if t.len() == 0 {
        assert(s + t =~= s);
    } else {
        lemma_blen_concat(s, t.drop_last());
        assert((s + t).drop_last() =~= s + t.drop_last());
    }
}

pub proof fn lemma_blen_mono(s: Seq<char>, i: int, j: int)
    requires
        0 <= i <= j <= s.len(),
    ensures
        blen(s.take(i)) <= blen(s.take(j)),
    decreases j - i,
{
    if i < j {
        lemma_blen_mono(s, i, j - 1);
        assert(s.take(j).drop_last() =~= s.take(j - 1));
    }
}

pub proof fn lemma_blen_ge_len(s: Seq<char>)
    ensures
        blen(s) >= s.len(),
    decreases s.len(),
{
    if s.len() > 0 {
        lemma_blen_ge_len(s.drop_last());
    }
}

/// Byte offset of character index `k` in `s`, with the semantics of the byte
/// positions that `str` methods report.
pub fn byte_offset(s: &[char], k: usize) -> (r: usize)
    requires
        k <= s@.len(),
        blen(s@) <= usize::MAX,
    ensures
        r == blen(s@.take(k as int)),
{
    let mut i: usize = 0;
    let mut acc: usize = 0;
    while i < k
        invariant
            i <= k <= s@.len(),
            blen(s@) <= usize::MAX,
            acc == blen(s@.take(i as int)),
        decreases k - i,
    {
        proof {
            lemma_blen_push(s@.take(i as int), s@[i as int]);
            assert(s@.take(i as int).push(s@[i as int]) =~= s@.take(i + 1));
            lemma_blen_mono(s@, i + 1, s@.len() as int);
            assert(s@.take(s@.len() as int) =~= s@);
        }
        let w = char_width(s[i]);
        acc = acc + w;
        i = i + 1;
    }
    acc
}

/// Smallest character index whose byte offset reaches `byte`: the character
/// that holds byte `byte`, or the index after it when `byte` falls inside a
/// character.  Returns `s.len()` when `byte` is at or past the end.
pub open spec fn char_index_at_or_after(s: Seq<char>, byte: int, k: int) -> int
    decreases s.len() - k,
{
    if k >= s.len() || blen(s.take(k)) >= byte {
        if k >= s.len() { s.len() as int } else { k }
    } else {
        char_index_at_or_after(s, byte, k + 1)
    }
}

// ---------------------------------------------------------------------------
// Conversions between `str` and character vectors
// ---------------------------------------------------------------------------

/// The characters of a string slice.
pub fn to_chars(s: &str) -> (r: Vec<char>)
    ensures
        r@ == s@,
{
    let mut r: Vec<char> = Vec::new();
    let ghost all = s@;
    proof {
        vstd::string::axiom_spec_iter(s);
    }
    for c in it: s.chars()
        invariant
            it.seq() == all,
            r@ == it.seq().take(it.index() as int),
    {
        r.push(c);
        proof {
            assert(r@ =~= it.seq().take(it.index() + 1));
        }
    }
    r
}

/// Calls `String::push`: appends one character.
#[verifier::external_body]
pub(crate) fn push_char(out: &mut String, c: char)
    ensures
        final(out)@ == old(out)@.push(c),
{
    out.push(c);
}

/// Appends the characters `s[a..b]` to `out`.
pub fn push_range(out: &mut String, s: &[char], a: usize, b: usize)
    requires
        a <= b <= s@.len(),
    ensures
        final(out)@ == old(out)@ + s@.subrange(a as int, b as int),
{
    let mut i = a;
    while i < b
        invariant
            a <= i <= b <= s@.len(),
            out@ == old(out)@ + s@.subrange(a as int, i as int),
        decreases b - i,
    {
        push_char(out, s[i]);
        proof {
            assert(s@.subrange(a as int, i + 1) =~= s@.subrange(a as int, i as int).push(s@[i as int]));
        }
        i = i + 1;
    }
}

/// Appends a string slice to `out`.
pub fn push_str(out: &mut String, s: &str)
    ensures
        final(out)@ == old(out)@ + s@,
{
    let v = to_chars(s);
    push_range(out, v.as_slice(), 0, v.len());
    proof {
        assert(v@.subrange(0, v@.len() as int) =~= v@);
    }
}

/// A new `String` holding `s[a..b]`.
pub fn range_string(s: &[char], a: usize, b: usize) -> (r: String)
    requires
        a <= b <= s@.len(),
    ensures
        r@ == s@.subrange(a as int, b as int),
{
    let mut r = String::new();
    push_range(&mut r, s, a, b);
    r
}

/// A new `String` holding a copy of a string slice.
pub fn str_string(s: &str) -> (r: String)
    ensures
        r@ == s@,
{
    let mut r = String::new();
    push_str(&mut r, s);
    r
}

} // verus!

verus! {

pub proof fn lemma_blen_first(s: Seq<char>)
    requires
        s.len() > 0,
    ensures
        blen(s) == cw(s[0]) + blen(s.drop_first()),
{
    let one = seq![s[0]];
    assert(one.drop_last() =~= Seq::<char>::empty());
    assert(blen(one) == blen(one.drop_last()) + cw(one.last()));
    assert(blen(one) == cw(s[0]));
    lemma_blen_concat(one, s.drop_first());
    assert(one + s.drop_first() =~= s);
}

/// `blen` is the length of the UTF-8 encoding that `str` methods count in.
pub proof fn lemma_blen_utf8(s: Seq<char>)
    ensures
        blen(s) == vstd::utf8::encode_utf8(s).len(),
    decreases s.len(),
{
    if s.len() > 0 {
        lemma_blen_first(s);
        lemma_blen_utf8(s.drop_first());
        vstd::utf8::char_is_scalar(s[0]);
    }
}

/// The characters of a string slice, with the fact that its byte length fits
/// in `usize`.
pub fn to_chars_sized(s: &str) -> (r: Vec<char>)
    ensures
        r@ == s@,
        blen(s@) <= usize::MAX,
{
    let n = s.as_bytes().len();
    proof {
        lemma_blen_utf8(s@);
    }
    to_chars(s)
}

/// Largest character index at or after `k` whose byte offset does not pass
/// `byte`.
pub open spec fn floor_char_from(s: Seq<char>, byte: int, k: int) -> int
    decreases s.len() - k,
{
    if 0 <= k < s.len() && blen(s.take(k + 1)) <= byte {
        floor_char_from(s, byte, k + 1)
    } else {
        k
    }
}

/// Index of the character that holds byte `byte` of the encoding of `s` (the
/// character count of the longest prefix whose encoding fits in `byte`
/// bytes); `s.len()` when `byte` is at or past the end.
pub open spec fn floor_char(s: Seq<char>, byte: int) -> int {
    floor_char_from(s, byte, 0)
}

pub proof fn lemma_floor_char_from_bounds(s: Seq<char>, byte: int, k: int)
    requires
        0 <= k <= s.len(),
        blen(s.take(k)) <= byte,
    ensures
        k <= floor_char_from(s, byte, k) <= s.len(),
        blen(s.take(floor_char_from(s, byte, k))) <= byte,
        floor_char_from(s, byte, k) < s.len() ==> blen(s.take(floor_char_from(s, byte, k) + 1))
            > byte,
    decreases s.len() - k,
{
    if 0 <= k < s.len() && blen(s.take(k + 1)) <= byte {
        lemma_floor_char_from_bounds(s, byte, k + 1);
    }
}

/// The character index `floor_char(s, byte)` and its byte offset.
pub fn floor_char_index(s: &[char], byte: usize) -> (r: (usize, usize))
    requires
        blen(s@) <= usize::MAX,
    ensures
        r.0 == floor_char(s@, byte as int),
        r.1 == blen(s@.take(r.0 as int)),
        r.0 <= s@.len(),
        r.1 <= byte,
{
    let mut k: usize = 0;
    let mut off: usize = 0;
    proof {
        assert(s@.take(0) =~= Seq::<char>::empty());
    }
    while k < s.len()
        invariant
            k <= s@.len(),
            blen(s@) <= usize::MAX,
            off == blen(s@.take(k as int)),
            off <= byte,
            floor_char(s@, byte as int) == floor_char_from(s@, byte as int, k as int),
        decreases s.len() - k,
    {
        proof {
            lemma_blen_push(s@.take(k as int), s@[k as int]);
            assert(s@.take(k as int).push(s@[k as int]) =~= s@.take(k + 1));
            lemma_blen_mono(s@, k + 1, s@.len() as int);
            assert(s@.take(s@.len() as int) =~= s@);
        }
        let w = char_width(s[k]);
        if off + w > byte {
            return (k, off);
        }
        off = off + w;
        k = k + 1;
    }
    (k, off)
}

} // verus!

verus! {

/// A range's encoding is no longer than the whole sequence's.
pub proof fn lemma_blen_subrange(s: Seq<char>, a: int, b: int)
    requires
        0 <= a <= b <= s.len(),
    ensures
        blen(s.subrange(a, b)) <= blen(s),
{
    lemma_blen_concat(s.subrange(0, a), s.subrange(a, b));
    lemma_blen_concat(s.subrange(0, a) + s.subrange(a, b), s.subrange(b, s.len() as int));
    assert(s.subrange(0, a) + s.subrange(a, b) + s.subrange(b, s.len() as int) =~= s);
}

/// Optional string as an optional character sequence.
pub open spec fn opt_view(o: Option<String>) -> Option<Seq<char>> {
    match o {
        Some(s) => Some(s@),
        None => None,
    }
}

/// Copies an optional string slice into an optional `String`.
pub fn opt_string(o: Option<&str>) -> (r: Option<String>)
    ensures
        opt_view(r) == match o {
            Some(s) => Some(s@),
            None => None::<Seq<char>>,
        },
{
    match o {
        Some(s) => Some(str_string(s)),
        None => None,
    }
}

} // verus!

verus! {

pub proof fn lemma_blen_single(c: char)
    ensures
        blen(seq![c]) == cw(c),
{
    let e = Seq::<char>::empty();
    assert(seq![c].drop_last() =~= e);
    assert(seq![c].last() == c);
    assert(blen(e) == 0);
    assert(blen(seq![c]) == blen(seq![c].drop_last()) + cw(seq![c].last()));
}

pub proof fn lemma_blen_take_le(s: Seq<char>, k: int)
    requires
        0 <= k <= s.len(),
    ensures
        blen(s.take(k)) <= blen(s),
{
    lemma_blen_mono(s, k, s.len() as int);
    assert(s.take(s.len() as int) =~= s);
}

} // verus!
