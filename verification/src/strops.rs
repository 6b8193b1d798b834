//! Searching and trimming inside character ranges.
//!
//! Every executable function here works on a range `s[a..b]` of a character
//! slice and states its result over `s@.subrange(a, b)`; indices it returns are
//! relative to `a`, as the offsets that `str` methods return are relative to
//! the slice they are called on.
use vstd::prelude::*;
use crate::text::{char_is_whitespace, is_ws, to_chars};

verus! {

/// `p` is a prefix of `s`.
pub open spec fn starts_with(s: Seq<char>, p: Seq<char>) -> bool {
    p.len() <= s.len() && s.subrange(0, p.len() as int) == p
}

/// `p` is a suffix of `s`.
pub open spec fn ends_with(s: Seq<char>, p: Seq<char>) -> bool {
    p.len() <= s.len() && s.subrange(s.len() - p.len(), s.len() as int) == p
}

/// `p` occurs in `s` starting at index `i`.
pub open spec fn occurs_at(s: Seq<char>, p: Seq<char>, i: int) -> bool {
    0 <= i && i + p.len() <= s.len() && s.subrange(i, i + p.len()) == p
}

/// First occurrence of `p` in `s` at or after index `i`.
pub open spec fn find_from(s: Seq<char>, p: Seq<char>, i: int) -> Option<int>
    decreases s.len() + 1 - i,
{
    if i < 0 || i + p.len() > s.len() {
        None
    } else if occurs_at(s, p, i) {
        Some(i)
    } else {
        find_from(s, p, i + 1)
    }
}

/// First occurrence of `p` in `s` (`str::find`).
pub open spec fn find(s: Seq<char>, p: Seq<char>) -> Option<int> {
    find_from(s, p, 0)
}

/// `p` occurs somewhere in `s` (`str::contains`).
pub open spec fn contains(s: Seq<char>, p: Seq<char>) -> bool {
    find(s, p) is Some
}

/// Last occurrence of `p` in `s` at or before index `i`.
pub open spec fn rfind_from(s: Seq<char>, p: Seq<char>, i: int) -> Option<int>
    decreases i + 1,
{
    if i < 0 {
        None
    } else if occurs_at(s, p, i) {
        Some(i)
    } else {
        rfind_from(s, p, i - 1)
    }
}

/// Last occurrence of `p` in `s` (`str::rfind`).
pub open spec fn rfind(s: Seq<char>, p: Seq<char>) -> Option<int> {
    rfind_from(s, p, s.len() - p.len())
}

/// Number of occurrences of the character `c` in `s`.
pub open spec fn count_char(s: Seq<char>, c: char) -> nat
    decreases s.len(),
{
    if s.len() == 0 {
        0
    } else {
        count_char(s.drop_last(), c) + if s.last() == c { 1nat } else { 0nat }
    }
}

/// Number of leading whitespace characters of `s`.
pub open spec fn lead_ws(s: Seq<char>) -> nat
    decreases s.len(),
{
    if s.len() > 0 && is_ws(s[0]) {
        1 + lead_ws(s.drop_first())
    } else {
        0
    }
}

/// Number of trailing whitespace characters of `s`.
pub open spec fn trail_ws(s: Seq<char>) -> nat
    decreases s.len(),
{
    if s.len() > 0 && is_ws(s.last()) {
        1 + trail_ws(s.drop_last())
    } else {
        0
    }
}

/// `str::trim_start`.
pub open spec fn trim_start(s: Seq<char>) -> Seq<char> {
    s.subrange(lead_ws(s) as int, s.len() as int)
}

/// `str::trim_end`.
pub open spec fn trim_end(s: Seq<char>) -> Seq<char> {
    s.subrange(0, s.len() - trail_ws(s))
}

/// `str::trim`.
pub open spec fn trim(s: Seq<char>) -> Seq<char> {
    trim_end(trim_start(s))
}

/// An optional exec index seen as an optional integer.
pub open spec fn oi(r: Option<usize>) -> Option<int> {
    match r {
        Some(k) => Some(k as int),
        None => None,
    }
}

pub proof fn lemma_lead_ws_le(s: Seq<char>)
    ensures
        lead_ws(s) <= s.len(),
    decreases s.len(),
{
    if s.len() > 0 && is_ws(s[0]) {
        lemma_lead_ws_le(s.drop_first());
    }
}

pub proof fn lemma_trail_ws_le(s: Seq<char>)
    ensures
        trail_ws(s) <= s.len(),
    decreases s.len(),
{
    if s.len() > 0 && is_ws(s.last()) {
        lemma_trail_ws_le(s.drop_last());
    }
}

/// Whole-sequence equality of a range with a literal.
pub fn eq_str(s: &[char], a: usize, b: usize, lit: &str) -> (r: bool)
    requires
        a <= b <= s@.len(),
    ensures
        r == (s@.subrange(a as int, b as int) == lit@),
{
    let p = to_chars(lit);
    if b - a != p.len() {
        return false;
    }
    let mut i: usize = 0;
    while i < p.len()
        invariant
            a <= b <= s@.len(),
            b - a == p@.len(),
            p@ == lit@,
            i <= p@.len(),
            forall|j: int| 0 <= j < i ==> s@[a + j] == p@[j],
        decreases p.len() - i,
    {
        if s[a + i] != p[i] {
            assert(s@.subrange(a as int, b as int)[i as int] != lit@[i as int]);
            return false;
        }
        i = i + 1;
    }
    assert(s@.subrange(a as int, b as int) =~= p@);
    true
}

/// Equality of two ranges.
pub fn eq_ranges(s: &[char], a: usize, b: usize, t: &[char], c: usize, d: usize) -> (r: bool)
    requires
        a <= b <= s@.len(),
        c <= d <= t@.len(),
    ensures
        r == (s@.subrange(a as int, b as int) == t@.subrange(c as int, d as int)),
{
    if b - a != d - c {
        assert(s@.subrange(a as int, b as int).len() != t@.subrange(c as int, d as int).len());
        return false;
    }
    let mut i: usize = 0;
    while i < b - a
        invariant
            a <= b <= s@.len(),
            c <= d <= t@.len(),
            b - a == d - c,
            i <= b - a,
            forall|j: int| 0 <= j < i ==> #[trigger] s@[a + j] == t@[c + j],
        decreases b - a - i,
    {
        if s[a + i] != t[c + i] {
            assert(s@.subrange(a as int, b as int)[i as int] != t@.subrange(
                c as int,
                d as int,
            )[i as int]);
            return false;
        }
        i = i + 1;
    }
    assert forall|k: int| 0 <= k < b - a implies #[trigger] s@.subrange(a as int, b as int)[k]
        == t@.subrange(c as int, d as int)[k] by {
        assert(s@[a + k] == t@[c + k]);
    }
    assert(s@.subrange(a as int, b as int) =~= t@.subrange(c as int, d as int));
    true
}

/// Does the literal occur in `s` at absolute index `i` (within `[i, b)`)?
fn occurs_at_exec(s: &[char], i: usize, b: usize, p: &[char]) -> (r: bool)
    requires
        i <= b <= s@.len(),
    ensures
        r == (i + p@.len() <= b && s@.subrange(i as int, i + p@.len()) == p@),
{
    if b - i < p.len() {
        return false;
    }
    let mut j: usize = 0;
    while j < p.len()
        invariant
            i <= b <= s@.len(),
            i + p@.len() <= b,
            j <= p@.len(),
            forall|k: int| 0 <= k < j ==> s@[i + k] == p@[k],
        decreases p.len() - j,
    {
        if s[i + j] != p[j] {
            assert(s@.subrange(i as int, i + p@.len())[j as int] != p@[j as int]);
            return false;
        }
        j = j + 1;
    }
    assert(s@.subrange(i as int, i + p@.len()) =~= p@);
    true
}

pub proof fn lemma_occurs_shift(s: Seq<char>, a: int, b: int, p: Seq<char>, i: int)
    requires
        0 <= a <= b <= s.len(),
        0 <= i,
    ensures
        occurs_at(s.subrange(a, b), p, i) == (i + p.len() <= b - a && s.subrange(
            a + i,
            a + i + p.len(),
        ) == p),
{
    if i + p.len() <= b - a {
        assert(s.subrange(a, b).subrange(i, i + p.len()) =~= s.subrange(a + i, a + i + p.len()));
    }
}

/// `starts_with` of a range against a literal.
pub fn starts_with_str(s: &[char], a: usize, b: usize, lit: &str) -> (r: bool)
    requires
        a <= b <= s@.len(),
    ensures
        r == starts_with(s@.subrange(a as int, b as int), lit@),
{
    let p = to_chars(lit);
    let r = occurs_at_exec(s, a, b, p.as_slice());
    proof {
        if p@.len() <= b - a {
            assert(s@.subrange(a as int, b as int).subrange(0, p@.len() as int) =~= s@.subrange(
                a as int,
                a + p@.len(),
            ));
        }
    }
    r
}

/// `ends_with` of a range against a literal.
pub fn ends_with_str(s: &[char], a: usize, b: usize, lit: &str) -> (r: bool)
    requires
        a <= b <= s@.len(),
    ensures
        r == ends_with(s@.subrange(a as int, b as int), lit@),
{
    let p = to_chars(lit);
    if b - a < p.len() {
        return false;
    }
    let r = occurs_at_exec(s, b - p.len(), b, p.as_slice());
    proof {
        let sub = s@.subrange(a as int, b as int);
        assert(sub.subrange(sub.len() - p@.len(), sub.len() as int) =~= s@.subrange(
            b - p@.len(),
            b as int,
        ));
    }
    r
}

/// `starts_with` of a range against one character.
pub fn starts_with_char(s: &[char], a: usize, b: usize, c: char) -> (r: bool)
    requires
        a <= b <= s@.len(),
    ensures
        r == starts_with(s@.subrange(a as int, b as int), seq![c]),
        r == (a < b && s@[a as int] == c),
{
    let r = a < b && s[a] == c;
    proof {
        if a < b {
            assert(s@.subrange(a as int, b as int).subrange(0, 1) =~= seq![s@[a as int]]);
            if s@[a as int] != c {
                assert(seq![s@[a as int]][0] != seq![c][0]);
            }
        }
        if r {
            assert(s@.subrange(a as int, b as int).subrange(0, 1) =~= seq![c]);
        }
    }
    r
}

/// `ends_with` of a range against one character.
pub fn ends_with_char(s: &[char], a: usize, b: usize, c: char) -> (r: bool)
    requires
        a <= b <= s@.len(),
    ensures
        r == ends_with(s@.subrange(a as int, b as int), seq![c]),
        r == (a < b && s@[b - 1] == c),
{
    let r = a < b && s[b - 1] == c;
    proof {
        let sub = s@.subrange(a as int, b as int);
        if a < b {
            assert(sub.subrange(sub.len() - 1, sub.len() as int) =~= seq![s@[b - 1]]);
            if s@[b - 1] != c {
                assert(seq![s@[b - 1]][0] != seq![c][0]);
            }
        }
    }
    r
}

/// First occurrence of a literal in a range (`str::find`).
pub fn find_str(s: &[char], a: usize, b: usize, lit: &str) -> (r: Option<usize>)
    requires
        a <= b <= s@.len(),
    ensures
        oi(r) == find(s@.subrange(a as int, b as int), lit@),
        r matches Some(k) ==> k + lit@.len() <= b - a,
{
    let p = to_chars(lit);
    find_chars(s, a, b, p.as_slice())
}

/// First occurrence of a character sequence in a range.
pub fn find_chars(s: &[char], a: usize, b: usize, p: &[char]) -> (r: Option<usize>)
    requires
        a <= b <= s@.len(),
    ensures
        oi(r) == find(s@.subrange(a as int, b as int), p@),
        r matches Some(k) ==> k + p@.len() <= b - a,
{
    let ghost sub = s@.subrange(a as int, b as int);
    if b - a < p.len() {
        return None;
    }
    if p.len() == 0 {
        assert(sub.subrange(0, 0) =~= p@);
        return Some(0);
    }
    let mut i: usize = 0;
    while i <= b - a - p.len()
        invariant
            a <= b <= s@.len(),
            sub == s@.subrange(a as int, b as int),
            0 < p@.len() <= b - a,
            i <= b - a,
            find(sub, p@) == find_from(sub, p@, i as int),
        decreases b - a - i,
    {
        proof {
            lemma_occurs_shift(s@, a as int, b as int, p@, i as int);
        }
        if occurs_at_exec(s, a + i, b, p) {
            return Some(i);
        }
        i = i + 1;
    }
    None
}

/// First occurrence of a character in a range (`str::find` with a `char`).
pub fn find_char(s: &[char], a: usize, b: usize, c: char) -> (r: Option<usize>)
    requires
        a <= b <= s@.len(),
    ensures
        oi(r) == find(s@.subrange(a as int, b as int), seq![c]),
        r matches Some(k) ==> k < b - a && s@[a + k] == c,
        r matches Some(k) ==> forall|j: int| a <= j < a + k ==> s@[j] != c,
        r is None ==> forall|j: int| a <= j < b ==> s@[j] != c,
{
    let ghost sub = s@.subrange(a as int, b as int);
    let mut i: usize = 0;
    while i < b - a
        invariant
            a <= b <= s@.len(),
            sub == s@.subrange(a as int, b as int),
            i <= b - a,
            find(sub, seq![c]) == find_from(sub, seq![c], i as int),
            forall|j: int| a <= j < a + i ==> s@[j] != c,
        decreases b - a - i,
    {
        proof {
            assert(sub.subrange(i as int, i + 1) =~= seq![sub[i as int]]);
            if sub[i as int] != c {
                assert(sub.subrange(i as int, i + 1) != seq![c]) by {
                    assert(sub.subrange(i as int, i + 1)[0] != seq![c][0]);
                }
            }
        }
        if s[a + i] == c {
            return Some(i);
        }
        i = i + 1;
    }
    None
}

/// Last occurrence of a character in a range (`str::rfind` with a `char`).
pub fn rfind_char(s: &[char], a: usize, b: usize, c: char) -> (r: Option<usize>)
    requires
        a <= b <= s@.len(),
    ensures
        oi(r) == rfind(s@.subrange(a as int, b as int), seq![c]),
        r matches Some(k) ==> k < b - a && s@[a + k] == c,
        r is None ==> forall|j: int| a <= j < b ==> s@[j] != c,
{
    let ghost sub = s@.subrange(a as int, b as int);
    let mut i: usize = b - a;
    while i > 0
        invariant
            a <= b <= s@.len(),
            sub == s@.subrange(a as int, b as int),
            i <= b - a,
            rfind(sub, seq![c]) == rfind_from(sub, seq![c], i - 1),
            forall|j: int| a + i <= j < b ==> s@[j] != c,
        decreases i,
    {
        let k = i - 1;
        proof {
            assert(sub.subrange(k as int, k + 1) =~= seq![sub[k as int]]);
            if sub[k as int] != c {
                assert(sub.subrange(k as int, k + 1) != seq![c]) by {
                    assert(sub.subrange(k as int, k + 1)[0] != seq![c][0]);
                }
            }
        }
        if s[a + k] == c {
            return Some(k);
        }
        i = k;
    }
    None
}

/// Last occurrence of a literal in a range (`str::rfind`).
pub fn rfind_str(s: &[char], a: usize, b: usize, lit: &str) -> (r: Option<usize>)
    requires
        a <= b <= s@.len(),
    ensures
        oi(r) == rfind(s@.subrange(a as int, b as int), lit@),
        r matches Some(k) ==> k + lit@.len() <= b - a,
{
    let p = to_chars(lit);
    let ghost sub = s@.subrange(a as int, b as int);
    if b - a < p.len() {
        assert(rfind_from(sub, p@, sub.len() - p@.len()) is None);
        return None;
    }
    let mut k: usize = b - a - p.len();
    loop
        invariant
            a <= b <= s@.len(),
            sub == s@.subrange(a as int, b as int),
            p@ == lit@,
            p@.len() <= b - a,
            k <= b - a - p@.len(),
            rfind(sub, p@) == rfind_from(sub, p@, k as int),
        decreases k,
    {
        proof {
            lemma_occurs_shift(s@, a as int, b as int, p@, k as int);
        }
        if occurs_at_exec(s, a + k, b, p.as_slice()) {
            return Some(k);
        }
        if k == 0 {
            return None;
        }
        k = k - 1;
    }
}

/// `str::contains` of a literal in a range.
pub fn contains_str(s: &[char], a: usize, b: usize, lit: &str) -> (r: bool)
    requires
        a <= b <= s@.len(),
    ensures
        r == contains(s@.subrange(a as int, b as int), lit@),
{
    find_str(s, a, b, lit).is_some()
}

/// `str::contains` of a character in a range.
pub fn contains_char(s: &[char], a: usize, b: usize, c: char) -> (r: bool)
    requires
        a <= b <= s@.len(),
    ensures
        r == contains(s@.subrange(a as int, b as int), seq![c]),
        r == (exists|j: int| a <= j < b && s@[j] == c),
{
    let f = find_char(s, a, b, c);
    f.is_some()
}

/// Number of occurrences of a character in a range.
pub fn count_char_in(s: &[char], a: usize, b: usize, c: char) -> (r: usize)
    requires
        a <= b <= s@.len(),
    ensures
        r == count_char(s@.subrange(a as int, b as int), c),
        r <= b - a,
{
    let mut i = a;
    let mut n: usize = 0;
    while i < b
        invariant
            a <= i <= b <= s@.len(),
            n == count_char(s@.subrange(a as int, i as int), c),
            n <= i - a,
        decreases b - i,
    {
        proof {
            assert(s@.subrange(a as int, i + 1).drop_last() =~= s@.subrange(a as int, i as int));
        }
        if s[i] == c {
            n = n + 1;
        }
        i = i + 1;
    }
    n
}

/// Bounds of `trim_start` of a range: the returned start index is absolute.
pub fn trim_start_range(s: &[char], a: usize, b: usize) -> (r: usize)
    requires
        a <= b <= s@.len(),
    ensures
        a <= r <= b,
        s@.subrange(r as int, b as int) == trim_start(s@.subrange(a as int, b as int)),
        r - a == lead_ws(s@.subrange(a as int, b as int)),
        forall|j: int| a <= j < r ==> is_ws(#[trigger] s@[j]),
{
    let mut i = a;
    while i < b && char_is_whitespace(s[i])
        invariant
            a <= i <= b <= s@.len(),
            forall|j: int| a <= j < i ==> is_ws(#[trigger] s@[j]),
            lead_ws(s@.subrange(a as int, b as int)) == (i - a) + lead_ws(
                s@.subrange(i as int, b as int),
            ),
        decreases b - i,
    {
        proof {
            assert(s@.subrange(i as int, b as int).drop_first() =~= s@.subrange(i + 1, b as int));
        }
        i = i + 1;
    }
    proof {
        assert(lead_ws(s@.subrange(i as int, b as int)) == 0);
        assert(s@.subrange(a as int, b as int).subrange(i - a, (b - a) as int) =~= s@.subrange(
            i as int,
            b as int,
        ));
    }
    i
}

/// Bounds of `trim_end` of a range: the returned end index is absolute.
pub fn trim_end_range(s: &[char], a: usize, b: usize) -> (r: usize)
    requires
        a <= b <= s@.len(),
    ensures
        a <= r <= b,
        s@.subrange(a as int, r as int) == trim_end(s@.subrange(a as int, b as int)),
        b - r == trail_ws(s@.subrange(a as int, b as int)),
        forall|k: int| r <= k < b ==> is_ws(#[trigger] s@[k]),
{
    let mut j = b;
    while j > a && char_is_whitespace(s[j - 1])
        invariant
            a <= j <= b <= s@.len(),
            forall|k: int| j <= k < b ==> is_ws(#[trigger] s@[k]),
            trail_ws(s@.subrange(a as int, b as int)) == (b - j) + trail_ws(
                s@.subrange(a as int, j as int),
            ),
        decreases j,
    {
        proof {
            assert(s@.subrange(a as int, j as int).drop_last() =~= s@.subrange(a as int, j - 1));
        }
        j = j - 1;
    }
    proof {
        assert(trail_ws(s@.subrange(a as int, j as int)) == 0);
        assert(s@.subrange(a as int, b as int).subrange(0, (j - a) as int) =~= s@.subrange(
            a as int,
            j as int,
        ));
    }
    j
}

/// Bounds of `trim` of a range, as absolute indices.
pub fn trim_range(s: &[char], a: usize, b: usize) -> (r: (usize, usize))
    requires
        a <= b <= s@.len(),
    ensures
        a <= r.0 <= r.1 <= b,
        s@.subrange(r.0 as int, r.1 as int) == trim(s@.subrange(a as int, b as int)),
        forall|j: int| a <= j < r.0 ==> is_ws(#[trigger] s@[j]),
        forall|j: int| r.1 <= j < b ==> is_ws(#[trigger] s@[j]),
{
    let a2 = trim_start_range(s, a, b);
    let b2 = trim_end_range(s, a2, b);
    proof {
        assert(trim_start(s@.subrange(a as int, b as int)) =~= s@.subrange(a2 as int, b as int));
    }
    (a2, b2)
}

} // verus!

verus! {

pub proof fn lemma_trim_len(s: Seq<char>)
    ensures
        trim(s).len() <= s.len(),
        trim_start(s).len() <= s.len(),
{
    lemma_lead_ws_le(s);
    lemma_trail_ws_le(trim_start(s));
}

} // verus!

verus! {

pub proof fn lemma_lead_ws_all(s: Seq<char>, j: int)
    requires
        0 <= j < lead_ws(s),
    ensures
        is_ws(s[j]),
    decreases s.len(),
{
    lemma_lead_ws_le(s);
    if j > 0 {
        lemma_lead_ws_all(s.drop_first(), j - 1);
    }
}

pub proof fn lemma_trail_ws_all(s: Seq<char>, j: int)
    requires
        s.len() - trail_ws(s) <= j < s.len(),
    ensures
        is_ws(s[j]),
    decreases s.len(),
{
    lemma_trail_ws_le(s);
    if j < s.len() - 1 {
        lemma_trail_ws_all(s.drop_last(), j);
    }
}

} // verus!
