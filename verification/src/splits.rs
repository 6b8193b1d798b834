//! Splitting text into lines, pieces and words, and trimming character sets.
use vstd::prelude::*;
use crate::strops::{lead_ws};
use crate::text::{char_is_whitespace, is_ws};

verus! {

/// Pieces of `s` between occurrences of `c` (`str::split` with a `char`).
/// There is always at least one piece.
pub open spec fn split_on(s: Seq<char>, c: char) -> Seq<Seq<char>>
    decreases s.len(),
{
    if s.len() == 0 {
        seq![Seq::empty()]
    } else {
        let p = split_on(s.drop_last(), c);
        if s.last() == c {
            p.push(Seq::empty())
        } else {
            p.update(p.len() - 1, p.last().push(s.last()))
        }
    }
}

pub proof fn lemma_split_on_nonempty(s: Seq<char>, c: char)
    ensures
        split_on(s, c).len() >= 1,
    decreases s.len(),
{
    if s.len() > 0 {
        lemma_split_on_nonempty(s.drop_last(), c);
    }
}

/// A line with one trailing carriage return removed.
pub open spec fn strip_cr(x: Seq<char>) -> Seq<char> {
    if x.len() > 0 && x.last() == '\r' {
        x.drop_last()
    } else {
        x
    }
}

/// `str::lines`: pieces between `'\n'`, a final empty piece dropped, and a
/// `'\r'` removed from the end of every piece that a `'\n'` ended.
pub open spec fn lines(s: Seq<char>) -> Seq<Seq<char>> {
    let p = split_on(s, '\n');
    let n = if p.last().len() == 0 { p.len() - 1 } else { p.len() as int };
    Seq::new(n as nat, |k: int| if k < p.len() - 1 { strip_cr(p[k]) } else { p[k] })
}

/// Words of `s` (`str::split_whitespace`): maximal runs of non-whitespace.
pub open spec fn words(s: Seq<char>) -> Seq<Seq<char>>
    decreases s.len(),
{
    if s.len() == 0 {
        seq![]
    } else {
        let w = words(s.drop_last());
        let c = s.last();
        if is_ws(c) {
            w
        } else if s.len() >= 2 && !is_ws(s[s.len() - 2]) {
            w.update(w.len() - 1, w.last().push(c))
        } else {
            w.push(seq![c])
        }
    }
}

pub proof fn lemma_words_last(s: Seq<char>)
    ensures
        s.len() > 0 && !is_ws(s.last()) ==> words(s).len() >= 1,
    decreases s.len(),
{
    if s.len() > 0 {
        lemma_words_last(s.drop_last());
    }
}

/// Ranges `[start, end)` in `s` all lie inside `[a, b]`.
pub open spec fn ranges_within(r: Seq<(usize, usize)>, a: int, b: int) -> bool {
    forall|k: int| 0 <= k < r.len() ==> a <= (#[trigger] r[k]).0 <= r[k].1 <= b
}

/// The ranges of `r` follow one another without overlap.
pub open spec fn ranges_sorted(r: Seq<(usize, usize)>) -> bool {
    forall|k: int, j: int| 0 <= k < j < r.len() ==> (#[trigger] r[k]).1 <= (#[trigger] r[j]).0
}

/// Consecutive ranges of `r` leave at least one character between them.
pub open spec fn ranges_gapped(r: Seq<(usize, usize)>) -> bool {
    forall|k: int| 0 <= k < r.len() - 1 ==> (#[trigger] r[k]).1 < r[k + 1].0
}

/// Each range of `r` holds the matching piece of `pieces`.
pub open spec fn ranges_hold(s: Seq<char>, r: Seq<(usize, usize)>, pieces: Seq<Seq<char>>) -> bool {
    &&& r.len() == pieces.len()
    &&& forall|k: int|
        0 <= k < r.len() ==> s.subrange((#[trigger] r[k]).0 as int, r[k].1 as int) == pieces[k]
}

/// The pieces of `v` that the ranges `rs` delimit.
pub open spec fn pieces(v: Seq<char>, rs: Seq<(usize, usize)>) -> Seq<Seq<char>> {
    Seq::new(rs.len(), |k: int| v.subrange(rs[k].0 as int, rs[k].1 as int))
}

pub proof fn lemma_pieces(v: Seq<char>, rs: Seq<(usize, usize)>, ps: Seq<Seq<char>>)
    requires
        ranges_hold(v, rs, ps),
    ensures
        pieces(v, rs) == ps,
{
    assert(pieces(v, rs) =~= ps);
}

/// The pieces of `s[a..b]` between occurrences of `c`, as absolute ranges.
pub fn split_ranges(s: &[char], a: usize, b: usize, c: char) -> (r: Vec<(usize, usize)>)
    requires
        a <= b <= s@.len(),
    ensures
        ranges_within(r@, a as int, b as int),
        ranges_sorted(r@),
        ranges_gapped(r@),
        ranges_hold(s@, r@, split_on(s@.subrange(a as int, b as int), c)),
{
    let mut r: Vec<(usize, usize)> = Vec::new();
    let mut start = a;
    let mut i = a;
    while i < b
        invariant
            a <= start <= i <= b <= s@.len(),
            ranges_within(r@, a as int, b as int),
            ranges_sorted(r@),
            ranges_gapped(r@),
            r@.len() > 0 ==> r@[r@.len() - 1].1 < start,
            forall|k: int| 0 <= k < r@.len() ==> (#[trigger] r@[k]).1 <= start,
            split_on(s@.subrange(a as int, i as int), c).len() == r@.len() + 1,
            forall|k: int|
                0 <= k < r@.len() ==> s@.subrange((#[trigger] r@[k]).0 as int, r@[k].1 as int)
                    == split_on(s@.subrange(a as int, i as int), c)[k],
            split_on(s@.subrange(a as int, i as int), c).last() == s@.subrange(
                start as int,
                i as int,
            ),
        decreases b - i,
    {
        let ghost before = split_on(s@.subrange(a as int, i as int), c);
        proof {
            assert(s@.subrange(a as int, i + 1).drop_last() =~= s@.subrange(a as int, i as int));
        }
        if s[i] == c {
            r.push((start, i));
            start = i + 1;
            proof {
                assert(s@.subrange(start as int, i + 1) =~= Seq::<char>::empty());
            }
        } else {
            proof {
                assert(s@.subrange(start as int, i + 1) =~= s@.subrange(start as int, i as int).push(
                    s@[i as int],
                ));
            }
        }
        i = i + 1;
    }
    r.push((start, b));
    proof {
        assert(s@.subrange(a as int, b as int) =~= s@.subrange(a as int, i as int));
    }
    r
}

/// The lines of `s` (`str::lines`), as absolute ranges.
pub fn line_ranges(s: &[char]) -> (r: Vec<(usize, usize)>)
    ensures
        ranges_within(r@, 0, s@.len() as int),
        ranges_sorted(r@),
        ranges_gapped(r@),
        ranges_hold(s@, r@, lines(s@)),
{
    let pieces = split_ranges(s, 0, s.len(), '\n');
    let ghost p = split_on(s@.subrange(0, s@.len() as int), '\n');
    proof {
        assert(s@.subrange(0, s@.len() as int) =~= s@);
        lemma_split_on_nonempty(s@, '\n');
    }
    let n = pieces.len();
    let last = pieces[n - 1];
    let count = if last.0 == last.1 { n - 1 } else { n };
    proof {
        assert(p.last() == s@.subrange(last.0 as int, last.1 as int));
    }
    let mut r: Vec<(usize, usize)> = Vec::new();
    let mut k: usize = 0;
    while k < count
        invariant
            n == pieces@.len() == p.len(),
            p == split_on(s@, '\n'),
            count <= n,
            count == lines(s@).len(),
            ranges_within(pieces@, 0, s@.len() as int),
            ranges_sorted(pieces@),
            ranges_gapped(pieces@),
            ranges_hold(s@, pieces@, p),
            k <= count,
            ranges_within(r@, 0, s@.len() as int),
            ranges_sorted(r@),
            ranges_gapped(r@),
            forall|j: int| 0 <= j < k ==> (#[trigger] r@[j]).1 <= pieces@[j].1 && r@[j].0 == pieces@[j].0,
            r@.len() == k,
            forall|j: int|
                0 <= j < k ==> s@.subrange((#[trigger] r@[j]).0 as int, r@[j].1 as int)
                    == lines(s@)[j],
        decreases count - k,
    {
        let (st, en) = pieces[k];
        let ghost piece = s@.subrange(st as int, en as int);
        assert(piece == p[k as int]);
        if k + 1 < n && en > st && s[en - 1] == '\r' {
            r.push((st, en - 1));
            proof {
                assert(s@.subrange(st as int, en - 1) =~= piece.drop_last());
            }
        } else {
            r.push((st, en));
        }
        k = k + 1;
    }
    r
}

/// The words of `s[a..b]` (`str::split_whitespace`), as absolute ranges.
pub fn word_ranges(s: &[char], a: usize, b: usize) -> (r: Vec<(usize, usize)>)
    requires
        a <= b <= s@.len(),
    ensures
        ranges_within(r@, a as int, b as int),
        ranges_hold(s@, r@, words(s@.subrange(a as int, b as int))),
{
    let mut r: Vec<(usize, usize)> = Vec::new();
    let mut i = a;
    let mut in_word = false;
    let mut start = a;
    while i < b
        invariant
            a <= start <= i <= b <= s@.len(),
            ranges_within(r@, a as int, b as int),
            in_word ==> (i > a && !is_ws(s@[i - 1])),
            !in_word ==> (i == a || is_ws(s@[i - 1])),
            words(s@.subrange(a as int, i as int)).len() == r@.len() + if in_word {
                1int
            } else {
                0int
            },
            forall|k: int|
                0 <= k < r@.len() ==> s@.subrange((#[trigger] r@[k]).0 as int, r@[k].1 as int)
                    == words(s@.subrange(a as int, i as int))[k],
            in_word ==> words(s@.subrange(a as int, i as int)).last() == s@.subrange(
                start as int,
                i as int,
            ),
        decreases b - i,
    {
        let ghost sub1 = s@.subrange(a as int, i + 1);
        proof {
            assert(sub1.drop_last() =~= s@.subrange(a as int, i as int));
            assert(sub1.last() == s@[i as int]);
            if i > a {
                assert(sub1[sub1.len() - 2] == s@[i - 1]);
            }
        }
        if char_is_whitespace(s[i]) {
            if in_word {
                r.push((start, i));
            }
            in_word = false;
        } else {
            if !in_word {
                start = i;
                in_word = true;
                proof {
                    assert(s@.subrange(start as int, i + 1) =~= seq![s@[i as int]]);
                }
            } else {
                proof {
                    assert(s@.subrange(start as int, i + 1) =~= s@.subrange(
                        start as int,
                        i as int,
                    ).push(s@[i as int]));
                }
            }
        }
        i = i + 1;
    }
    if in_word {
        r.push((start, b));
    }
    r
}

/// Number of leading characters of `s` that belong to `set`.
pub open spec fn lead_in(s: Seq<char>, set: Seq<char>) -> nat
    decreases s.len(),
{
    if s.len() > 0 && set.contains(s[0]) {
        1 + lead_in(s.drop_first(), set)
    } else {
        0
    }
}

/// Number of trailing characters of `s` that belong to `set`.
pub open spec fn trail_in(s: Seq<char>, set: Seq<char>) -> nat
    decreases s.len(),
{
    if s.len() > 0 && set.contains(s.last()) {
        1 + trail_in(s.drop_last(), set)
    } else {
        0
    }
}

/// `str::trim_matches` with a set of characters: strip them from both ends.
pub open spec fn trim_set(s: Seq<char>, set: Seq<char>) -> Seq<char> {
    let t = s.subrange(lead_in(s, set) as int, s.len() as int);
    t.subrange(0, t.len() - trail_in(t, set))
}

/// `str::trim_start_matches` with a set of characters.
pub open spec fn trim_start_set(s: Seq<char>, set: Seq<char>) -> Seq<char> {
    s.subrange(lead_in(s, set) as int, s.len() as int)
}

/// `str::trim_end_matches` with a set of characters.
pub open spec fn trim_end_set(s: Seq<char>, set: Seq<char>) -> Seq<char> {
    s.subrange(0, s.len() - trail_in(s, set))
}

fn in_set(set: &[char], c: char) -> (r: bool)
    ensures
        r == set@.contains(c),
{
    let mut i: usize = 0;
    while i < set.len()
        invariant
            i <= set@.len(),
            forall|j: int| 0 <= j < i ==> set@[j] != c,
        decreases set.len() - i,
    {
        if set[i] == c {
            assert(set@[i as int] == c);
            return true;
        }
        i = i + 1;
    }
    false
}

/// Start of `trim_start_matches(set)` of `s[a..b]`, absolute.
pub fn trim_start_set_range(s: &[char], a: usize, b: usize, set: &[char]) -> (r: usize)
    requires
        a <= b <= s@.len(),
    ensures
        a <= r <= b,
        s@.subrange(r as int, b as int) == trim_start_set(s@.subrange(a as int, b as int), set@),
{
    let mut i = a;
    while i < b && in_set(set, s[i])
        invariant
            a <= i <= b <= s@.len(),
            lead_in(s@.subrange(a as int, b as int), set@) == (i - a) + lead_in(
                s@.subrange(i as int, b as int),
                set@,
            ),
        decreases b - i,
    {
        proof {
            assert(s@.subrange(i as int, b as int).drop_first() =~= s@.subrange(i + 1, b as int));
        }
        i = i + 1;
    }
    proof {
        assert(lead_in(s@.subrange(i as int, b as int), set@) == 0);
        assert(s@.subrange(a as int, b as int).subrange(i - a, (b - a) as int) =~= s@.subrange(
            i as int,
            b as int,
        ));
    }
    i
}

/// End of `trim_end_matches(set)` of `s[a..b]`, absolute.
pub fn trim_end_set_range(s: &[char], a: usize, b: usize, set: &[char]) -> (r: usize)
    requires
        a <= b <= s@.len(),
    ensures
        a <= r <= b,
        s@.subrange(a as int, r as int) == trim_end_set(s@.subrange(a as int, b as int), set@),
{
    let mut j = b;
    while j > a && in_set(set, s[j - 1])
        invariant
            a <= j <= b <= s@.len(),
            trail_in(s@.subrange(a as int, b as int), set@) == (b - j) + trail_in(
                s@.subrange(a as int, j as int),
                set@,
            ),
        decreases j,
    {
        proof {
            assert(s@.subrange(a as int, j as int).drop_last() =~= s@.subrange(a as int, j - 1));
        }
        j = j - 1;
    }
    proof {
        assert(trail_in(s@.subrange(a as int, j as int), set@) == 0);
        assert(s@.subrange(a as int, b as int).subrange(0, (j - a) as int) =~= s@.subrange(
            a as int,
            j as int,
        ));
    }
    j
}

/// Bounds of `trim_matches(set)` of `s[a..b]`, absolute.
pub fn trim_set_range(s: &[char], a: usize, b: usize, set: &[char]) -> (r: (usize, usize))
    requires
        a <= b <= s@.len(),
    ensures
        a <= r.0 <= r.1 <= b,
        s@.subrange(r.0 as int, r.1 as int) == trim_set(s@.subrange(a as int, b as int), set@),
{
    let a2 = trim_start_set_range(s, a, b, set);
    let b2 = trim_end_set_range(s, a2, b, set);
    (a2, b2)
}

/// Index of the first character of `s` at or after `i` that belongs to `set`,
/// or `s.len()`.
pub open spec fn first_in_from(s: Seq<char>, set: Seq<char>, i: int) -> int
    decreases s.len() - i,
{
    if i >= s.len() {
        s.len() as int
    } else if set.contains(s[i]) {
        i
    } else {
        first_in_from(s, set, i + 1)
    }
}

/// The first piece of `s` when split at any character of `set`
/// (`s.split(set).next()`).
pub open spec fn before_any(s: Seq<char>, set: Seq<char>) -> Seq<char> {
    s.subrange(0, first_in_from(s, set, 0))
}

pub proof fn lemma_first_in_from_bounds(s: Seq<char>, set: Seq<char>, i: int)
    requires
        0 <= i <= s.len(),
    ensures
        i <= first_in_from(s, set, i) <= s.len(),
    decreases s.len() - i,
{
    if i < s.len() && !set.contains(s[i]) {
        lemma_first_in_from_bounds(s, set, i + 1);
    }
}

/// End (absolute) of the first piece of `s[a..b]` split at any of `set`.
pub fn before_any_range(s: &[char], a: usize, b: usize, set: &[char]) -> (r: usize)
    requires
        a <= b <= s@.len(),
    ensures
        a <= r <= b,
        s@.subrange(a as int, r as int) == before_any(s@.subrange(a as int, b as int), set@),
{
    let ghost sub = s@.subrange(a as int, b as int);
    let mut i = a;
    while i < b && !in_set(set, s[i])
        invariant
            a <= i <= b <= s@.len(),
            sub == s@.subrange(a as int, b as int),
            first_in_from(sub, set@, 0) == first_in_from(sub, set@, i - a),
        decreases b - i,
    {
        i = i + 1;
    }
    proof {
        assert(sub.subrange(0, i - a) =~= s@.subrange(a as int, i as int));
    }
    i
}

pub proof fn lemma_words_of_trimmed(s: Seq<char>)
    ensures
        lead_ws(s) <= s.len(),
{
    crate::strops::lemma_lead_ws_le(s);
}

} // verus!

verus! {

/// The characters of `s` together with the ranges of its lines.
pub fn lines_of(s: &str) -> (r: (Vec<char>, Vec<(usize, usize)>))
    ensures
        r.0@ == s@,
        crate::text::blen(s@) <= usize::MAX,
        ranges_within(r.1@, 0, s@.len() as int),
        ranges_sorted(r.1@),
        ranges_gapped(r.1@),
        ranges_hold(s@, r.1@, lines(s@)),
{
    let v = crate::text::to_chars_sized(s);
    let r = line_ranges(v.as_slice());
    (v, r)
}

} // verus!
