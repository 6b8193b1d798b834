//! Words and identifiers around a cursor position.
use vstd::prelude::*;
use crate::strops::{occurs_at, find_from, trim_start, starts_with, trim_start_range, starts_with_char};
use crate::text::{
    blen, char_is_alphabetic, is_ascii_alnum, char_is_word, floor_char, floor_char_index, is_word,
    lemma_blen_mono, range_string, to_chars_sized, unicode_alphabetic, byte_offset,
};

verus! {

/// Start of the run of word characters that ends at character index `k`.
pub open spec fn word_left(s: Seq<char>, k: int) -> int
    decreases k,
{
    if 0 < k <= s.len() && is_word(s[k - 1]) {
        word_left(s, k - 1)
    } else {
        k
    }
}

/// End of the run of word characters that starts at character index `k`.
pub open spec fn word_right(s: Seq<char>, k: int) -> int
    decreases s.len() - k,
{
    if 0 <= k < s.len() && is_word(s[k]) {
        word_right(s, k + 1)
    } else {
        k
    }
}

pub proof fn lemma_word_left_bounds(s: Seq<char>, k: int)
    requires
        0 <= k <= s.len(),
    ensures
        0 <= word_left(s, k) <= k,
    decreases k,
{
    if 0 < k && is_word(s[k - 1]) {
        lemma_word_left_bounds(s, k - 1);
    }
}

pub proof fn lemma_word_right_bounds(s: Seq<char>, k: int)
    requires
        0 <= k <= s.len(),
    ensures
        k <= word_right(s, k) <= s.len(),
    decreases s.len() - k,
{
    if k < s.len() && is_word(s[k]) {
        lemma_word_right_bounds(s, k + 1);
    }
}

/// `word_left` over a slice.
pub fn word_left_exec(s: &[char], k: usize) -> (r: usize)
    requires
        k <= s@.len(),
    ensures
        r == word_left(s@, k as int),
        r <= k,
{
    let mut j = k;
    while j > 0 && char_is_word(s[j - 1])
        invariant
            j <= k <= s@.len(),
            word_left(s@, k as int) == word_left(s@, j as int),
        decreases j,
    {
        j = j - 1;
    }
    j
}

/// `word_right` over a slice.
pub fn word_right_exec(s: &[char], k: usize) -> (r: usize)
    requires
        k <= s@.len(),
    ensures
        r == word_right(s@, k as int),
        k <= r <= s@.len(),
{
    let mut j = k;
    while j < s.len() && char_is_word(s[j])
        invariant
            k <= j <= s@.len(),
            word_right(s@, k as int) == word_right(s@, j as int),
        decreases s.len() - j,
    {
        j = j + 1;
    }
    j
}

/// Byte offset of the character boundary at or before byte `index` of `s`;
/// `s.len()` when `index` is at or past the end.
pub fn safe_floor_char_boundary(s: &str, index: usize) -> (r: usize)
    ensures
        r == blen(s@.take(floor_char(s@, index as int))),
        index >= blen(s@) ==> r == blen(s@),
        r <= index || r == blen(s@),
{
    let v = to_chars_sized(s);
    let (k, off) = floor_char_index(v.as_slice(), index);
    proof {
        if index >= blen(s@) {
            crate::text::lemma_floor_char_from_bounds(s@, index as int, 0);
            assert(s@.take(0) =~= Seq::<char>::empty());
            if k < s@.len() {
                lemma_blen_mono(s@, k + 1, s@.len() as int);
                assert(s@.take(s@.len() as int) =~= s@);
            }
            assert(k == s@.len());
            assert(s@.take(k as int) =~= s@);
        }
    }
    off
}

/// The identifier-like word (alphanumeric or `_` characters) that touches the
/// byte column `col_idx` of `line`; the column is first moved back to a
/// character boundary.  Empty when no word character is adjacent.
pub fn extract_word_at_pos(line: &str, col_idx: usize) -> (r: String)
    ensures
        ({
            let k = floor_char(line@, col_idx as int);
            r@ == line@.subrange(word_left(line@, k), word_right(line@, k))
        }),
{
    let v = to_chars_sized(line);
    let (k, off) = floor_char_index(v.as_slice(), col_idx);
    let a = word_left_exec(v.as_slice(), k);
    let b = word_right_exec(v.as_slice(), k);
    range_string(v.as_slice(), a, b)
}

/// The word that ends a text prefix: its byte offset and its text.
pub fn extract_word_prefix(prefix: &str) -> (r: (usize, String))
    ensures
        ({
            let j = word_left(prefix@, prefix@.len() as int);
            &&& r.0 == blen(prefix@.take(j))
            &&& r.1@ == prefix@.subrange(j, prefix@.len() as int)
        }),
{
    let v = to_chars_sized(prefix);
    let j = word_left_exec(v.as_slice(), v.len());
    let off = byte_offset(v.as_slice(), j);
    (off, range_string(v.as_slice(), j, v.len()))
}

/// `safe_col` is a character boundary of `s`.
pub open spec fn is_boundary(s: Seq<char>, byte: int) -> bool {
    0 <= byte && blen(s.take(floor_char(s, byte))) == byte
}

/// From a character boundary, the byte end of the word that starts there, and
/// whether the rest of the line, past leading whitespace, opens a `(`.
pub fn check_following_paren(line: &str, safe_col: usize) -> (r: (usize, bool))
    requires
        is_boundary(line@, safe_col as int),
    ensures
        ({
            let e = word_right(line@, floor_char(line@, safe_col as int));
            &&& r.0 == blen(line@.take(e))
            &&& r.1 == starts_with(
                trim_start(line@.subrange(e, line@.len() as int)),
                seq!['('],
            )
        }),
{
    let v = to_chars_sized(line);
    let (k, off) = floor_char_index(v.as_slice(), safe_col);
    let e = word_right_exec(v.as_slice(), k);
    let end = byte_offset(v.as_slice(), e);
    let t = trim_start_range(v.as_slice(), e, v.len());
    let p = starts_with_char(v.as_slice(), t, v.len(), '(');
    (end, p)
}

/// ASCII lower case of a byte.
pub open spec fn ascii_lower(b: u8) -> u8 {
    if 65 <= b <= 90 {
        (b + 32) as u8
    } else {
        b
    }
}

/// The first bytes of `s` equal the bytes of `prefix` up to ASCII case.
pub open spec fn starts_with_ignoring_ascii_case(s: Seq<u8>, prefix: Seq<u8>) -> bool {
    prefix.len() <= s.len() && forall|i: int|
        0 <= i < prefix.len() ==> ascii_lower(#[trigger] s[i]) == ascii_lower(prefix[i])
}

fn lower_byte(b: u8) -> (r: u8)
    ensures
        r == ascii_lower(b),
{
    if 65 <= b && b <= 90 {
        b + 32
    } else {
        b
    }
}

/// Does `s` start with `prefix`, comparing bytes up to ASCII case?
pub fn starts_with_ignore_ascii_case(s: &str, prefix: &str) -> (r: bool)
    ensures
        r == starts_with_ignoring_ascii_case(vstd::utf8::encode_utf8(s@), vstd::utf8::encode_utf8(prefix@)),
{
    let sb = s.as_bytes();
    let pb = prefix.as_bytes();
    if pb.len() > sb.len() {
        return false;
    }
    let mut i: usize = 0;
    while i < pb.len()
        invariant
            pb@ == vstd::utf8::encode_utf8(prefix@),
            sb@ == vstd::utf8::encode_utf8(s@),
            pb@.len() <= sb@.len(),
            i <= pb@.len(),
            forall|j: int| 0 <= j < i ==> ascii_lower(#[trigger] sb@[j]) == ascii_lower(pb@[j]),
        decreases pb.len() - i,
    {
        if lower_byte(sb[i]) != lower_byte(pb[i]) {
            return false;
        }
        i = i + 1;
    }
    true
}

/// `s` is an identifier: a letter or `_` followed by letters, digits or `_`.
pub open spec fn valid_identifier(s: Seq<char>) -> bool {
    s.len() > 0 && (unicode_alphabetic(s[0]) || s[0] == '_') && forall|i: int|
        1 <= i < s.len() ==> is_word(#[trigger] s[i])
}

/// Every ASCII character of `s` is a letter, a digit or `_`.
pub open spec fn ascii_word_only(s: Seq<char>) -> bool {
    forall|j: int| 0 <= j < s.len() ==> ((#[trigger] s[j] as u32) < 128 ==> is_ascii_alnum(s[j]) || s[j] == '_')
}

/// `valid_identifier` of a range.
pub fn is_identifier_range(s: &[char], a: usize, b: usize) -> (r: bool)
    requires
        a <= b <= s@.len(),
    ensures
        r == valid_identifier(s@.subrange(a as int, b as int)),
        r ==> ascii_word_only(s@.subrange(a as int, b as int)),
{
    let ghost sub = s@.subrange(a as int, b as int);
    if a == b {
        return false;
    }
    if !(char_is_alphabetic(s[a]) || s[a] == '_') {
        return false;
    }
    assert(sub[0] == s@[a as int]);
    let mut i = a + 1;
    while i < b
        invariant
            a < i <= b <= s@.len(),
            sub == s@.subrange(a as int, b as int),
            forall|j: int| 1 <= j < i - a ==> is_word(#[trigger] sub[j]),
            ((sub[0] as u32) < 128 ==> is_ascii_alnum(sub[0]) || sub[0] == '_'),
            forall|j: int| 1 <= j < i - a ==> ((#[trigger] sub[j] as u32) < 128 ==> is_ascii_alnum(sub[j]) || sub[j] == '_'),
        decreases b - i,
    {
        if !char_is_word(s[i]) {
            assert(!is_word(sub[i - a]));
            return false;
        }
        assert(sub[i - a] == s@[i as int]);
        i = i + 1;
    }
    true
}

/// Is `s` a valid HLSL identifier?
pub fn is_valid_identifier(s: &str) -> (r: bool)
    ensures
        r == valid_identifier(s@),
{
    let v = to_chars_sized(s);
    proof {
        assert(v@.subrange(0, v@.len() as int) =~= v@);
    }
    is_identifier_range(v.as_slice(), 0, v.len())
}

/// The match of `p` in `s` that `str::match_indices` yields at or after `i`:
/// matches do not overlap, and an empty pattern matches at every index.
pub open spec fn next_match(s: Seq<char>, p: Seq<char>, i: int) -> Option<int> {
    find_from(s, p, i)
}

/// An occurrence at `k` stands alone: no word character touches it on either
/// side.
pub open spec fn standalone_at(s: Seq<char>, p: Seq<char>, k: int) -> bool {
    (k == 0 || !is_word(s[k - 1])) && (k + p.len() >= s.len() || !is_word(s[k + p.len()]))
}

/// First standalone occurrence of `p` among the non-overlapping matches at or
/// after `i`.
pub open spec fn standalone_from(s: Seq<char>, p: Seq<char>, i: int) -> Option<int>
    decreases s.len() + 1 - i,
{
    if i < 0 || i > s.len() {
        None
    } else {
        match find_from(s, p, i) {
            None => None,
            Some(k) => if standalone_at(s, p, k) {
                Some(k)
            } else if k + p.len() + (if p.len() == 0 { 1int } else { 0int }) > i && k + p.len() + (
            if p.len() == 0 { 1int } else { 0int }) <= s.len() + 1 {
                standalone_from(s, p, k + p.len() + if p.len() == 0 { 1int } else { 0int })
            } else {
                None
            },
        }
    }
}

pub proof fn lemma_find_from_ge(s: Seq<char>, p: Seq<char>, i: int)
    ensures
        find_from(s, p, i) matches Some(k) ==> i <= k && occurs_at(s, p, k),
    decreases s.len() + 1 - i,
{
    if !(i < 0 || i + p.len() > s.len()) && !occurs_at(s, p, i) {
        lemma_find_from_ge(s, p, i + 1);
    }
}

/// Byte offset of the first occurrence of `ident` in `line` that is not part
/// of a longer identifier.
pub fn find_identifier_in_line(line: &str, ident: &str) -> (r: Option<usize>)
    ensures
        match standalone_from(line@, ident@, 0) {
            Some(k) => r is Some && r->0 as int == blen(line@.take(k)),
            None => r is None,
        },
{
    let v = to_chars_sized(line);
    let p = to_chars_sized(ident);
    proof {
        assert(v@.subrange(0, v@.len() as int) =~= v@);
    }
    find_identifier_range(v.as_slice(), 0, v.len(), p.as_slice())
}

/// `find_identifier_in_line` on the line `s[a..b]` (byte offset within it).
pub fn find_identifier_range(s: &[char], a: usize, b: usize, pat: &[char]) -> (r: Option<usize>)
    requires
        a <= b <= s@.len(),
        blen(s@.subrange(a as int, b as int)) <= usize::MAX,
    ensures
        match standalone_from(s@.subrange(a as int, b as int), pat@, 0) {
            Some(k) => r is Some && r->0 as int == blen(s@.subrange(a as int, b as int).take(k)),
            None => r is None,
        },
{
    let v = crate::decls::slice_range(s, a, b);
    let p = pat;
    let n = v.len();
    let m = p.len();
    let mut i: usize = 0;
    proof {
        assert(v@.subrange(0, n as int) =~= v@);
    }
    while i <= n
        invariant
            a <= b <= s@.len(),
            v@ == s@.subrange(a as int, b as int),
            p@ == pat@,
            n == v@.len(),
            m == p@.len(),
            blen(v@) <= usize::MAX,
            i <= n + 1,
            standalone_from(v@, p@, 0) == standalone_from(v@, p@, i as int),
        decreases n + 1 - i,
    {
        assert(v@.subrange(i as int, n as int) =~= v@.subrange(0, n as int).subrange(i as int, n as int));
        match crate::strops::find_chars(v.as_slice(), i, n, p) {
            None => {
                proof {
                    lemma_find_shift_none(v@, p@, i as int);
                }
                return None;
            },
            Some(rel) => {
                let k = i + rel;
                proof {
                    lemma_find_shift_some(v@, p@, i as int, rel as int);
                }
                let before_ok = k == 0 || !char_is_word(v[k - 1]);
                let after_ok = k + m >= n || !char_is_word(v[k + m]);
                if before_ok && after_ok {
                    let off = byte_offset(v.as_slice(), k);
                    return Some(off);
                }
                proof {
                    lemma_find_from_ge(v@, p@, i as int);
                }
                if m == 0 {
                    if k == n {
                        assert(standalone_from(v@, p@, i as int) == standalone_from(
                            v@,
                            p@,
                            n + 1,
                        ));
                        return None;
                    }
                    i = k + 1;
                } else {
                    i = k + m;
                }
            },
        }
    }
    None
}

pub proof fn lemma_find_shift_some(s: Seq<char>, p: Seq<char>, i: int, rel: int)
    requires
        0 <= i <= s.len(),
        crate::strops::find(s.subrange(i, s.len() as int), p) == Some(rel),
    ensures
        find_from(s, p, i) == Some(i + rel),
{
    lemma_find_shift_gen(s, p, i, 0);
}

pub proof fn lemma_find_shift_none(s: Seq<char>, p: Seq<char>, i: int)
    requires
        0 <= i <= s.len(),
        crate::strops::find(s.subrange(i, s.len() as int), p) is None,
    ensures
        find_from(s, p, i) is None,
{
    lemma_find_shift_gen(s, p, i, 0);
}

/// Searching a suffix is searching the whole sequence from its start.
pub proof fn lemma_find_shift_gen(s: Seq<char>, p: Seq<char>, i: int, j: int)
    requires
        0 <= i <= s.len(),
        0 <= j,
    ensures
        match find_from(s.subrange(i, s.len() as int), p, j) {
            Some(r) => find_from(s, p, i + j) == Some(i + r),
            None => find_from(s, p, i + j) is None,
        },
    decreases s.len() + 1 - (i + j),
{
    let t = s.subrange(i, s.len() as int);
    if j + p.len() > t.len() {
    } else {
        crate::strops::lemma_occurs_shift(s, i, s.len() as int, p, j);
        if !occurs_at(t, p, j) {
            lemma_find_shift_gen(s, p, i, j + 1);
        }
    }
}

/// `r` is the overload to highlight and the parameter to highlight in it,
/// for a cursor at parameter `active` and overloads with `counts` parameters:
/// the first overload with the fewest parameters above `active`, else the
/// first with the most parameters (the first when none has any); the
/// parameter is `active`, at most the overload's last.
pub open spec fn best_overload(param_counts: Seq<usize>, active_param: int, r: (usize, usize)) -> bool {
    &&& (exists|i: int| 0 <= i < param_counts.len() && param_counts[i] > active_param) ==> {
        &&& r.0 < param_counts.len()
        &&& param_counts[r.0 as int] > active_param
        &&& forall|j: int|
            0 <= j < param_counts.len() && #[trigger] param_counts[j] > active_param ==> (param_counts[j]
                > param_counts[r.0 as int] || (param_counts[j] == param_counts[r.0 as int] && j >= r.0))
    }
    &&& !(exists|i: int| 0 <= i < param_counts.len() && param_counts[i] > active_param) ==> {
        &&& (forall|j: int| 0 <= j < param_counts.len() ==> #[trigger] param_counts[j] == 0) ==> r.0 == 0
        &&& (exists|j: int| 0 <= j < param_counts.len() && #[trigger] param_counts[j] > 0) ==> {
            &&& r.0 < param_counts.len()
            &&& forall|j: int|
                0 <= j < param_counts.len() ==> (#[trigger] param_counts[j] < param_counts[r.0 as int] || (
                param_counts[j] == param_counts[r.0 as int] && j >= r.0))
        }
    }
    &&& r.1 == if r.0 < param_counts.len() && param_counts[r.0 as int] > 0 {
        if active_param < param_counts[r.0 as int] - 1 {
            active_param
        } else {
            param_counts[r.0 as int] - 1
        }
    } else {
        0
    }
}

/// Picks the overload to highlight for a call whose cursor stands at
/// parameter `active_param`, given each overload's parameter count; returns
/// the overload index and the parameter to highlight in it.
pub fn select_best_overload(param_counts: &[usize], active_param: usize) -> (r: (usize, usize))
    ensures
        best_overload(param_counts@, active_param as int, r),
{
    let mut best: Option<usize> = None;
    let mut best_diff: usize = usize::MAX;
    let mut max_params: usize = 0;
    let mut max_params_sig: usize = 0;
    let mut idx: usize = 0;
    while idx < param_counts.len()
        invariant
            idx <= param_counts@.len(),
            max_params_sig < param_counts@.len() || max_params_sig == 0,
            max_params == 0 ==> max_params_sig == 0,
            max_params == 0 ==> forall|j: int| 0 <= j < idx ==> #[trigger] param_counts@[j] == 0,
            max_params > 0 ==> max_params_sig < idx && param_counts@[max_params_sig as int]
                == max_params,
            forall|j: int|
                0 <= j < idx ==> (#[trigger] param_counts@[j] < max_params || (param_counts@[j]
                    == max_params && j >= max_params_sig)),
            match best {
                Some(b) => {
                    &&& b < idx
                    &&& param_counts@[b as int] > active_param
                    &&& best_diff == param_counts@[b as int] - active_param
                    &&& forall|j: int|
                        0 <= j < idx && #[trigger] param_counts@[j] > active_param ==> (
                        param_counts@[j] > param_counts@[b as int] || (param_counts@[j]
                            == param_counts@[b as int] && j >= b))
                },
                None => forall|j: int| 0 <= j < idx ==> #[trigger] param_counts@[j] <= active_param,
            },
        decreases param_counts.len() - idx,
    {
        let p_count = param_counts[idx];
        if p_count > max_params {
            max_params = p_count;
            max_params_sig = idx;
        }
        if active_param < p_count {
            let diff = p_count - active_param;
            if best.is_none() || diff < best_diff {
                best_diff = diff;
                best = Some(idx);
            }
        }
        idx = idx + 1;
    }
    let active_sig = match best {
        Some(b) => b,
        None => max_params_sig,
    };
    let sig_param_len = if active_sig < param_counts.len() {
        param_counts[active_sig]
    } else {
        0
    };
    let active_p = if sig_param_len > 0 {
        if active_param < sig_param_len - 1 {
            active_param
        } else {
            sig_param_len - 1
        }
    } else {
        0
    };
    (active_sig, active_p)
}

} // verus!
