//! Comma-separated lists and joined strings.
use vstd::prelude::*;
use crate::splits::{ranges_hold, ranges_within, split_on, split_ranges};
use crate::strops::{eq_str, trim, trim_range};
use crate::text::{push_str, range_string};

verus! {

/// The views of a vector of strings.
pub open spec fn strings_view(v: Seq<String>) -> Seq<Seq<char>> {
    v.map_values(|x: String| x@)
}

/// Trimmed pieces that are not empty (and, when `drop_void`, not `void`).
pub open spec fn keep_params(ps: Seq<Seq<char>>, drop_void: bool) -> Seq<Seq<char>>
    decreases ps.len(),
{
    if ps.len() == 0 {
        Seq::empty()
    } else {
        let r = keep_params(ps.drop_last(), drop_void);
        let t = trim(ps.last());
        if t.len() > 0 && !(drop_void && t == "void"@) {
            r.push(t)
        } else {
            r
        }
    }
}

/// The entries of a comma-separated list: trimmed, empty ones (and `void`
/// when `drop_void`) left out.
pub open spec fn param_list(s: Seq<char>, drop_void: bool) -> Seq<Seq<char>> {
    keep_params(split_on(s, ','), drop_void)
}

/// Sequences joined with a separator.
pub open spec fn join_with(ts: Seq<Seq<char>>, sep: Seq<char>) -> Seq<char>
    decreases ts.len(),
{
    if ts.len() == 0 {
        Seq::empty()
    } else if ts.len() == 1 {
        ts[0]
    } else {
        join_with(ts.drop_last(), sep) + sep + ts.last()
    }
}

/// The entries of the list `s[a..b]`, as strings and as absolute ranges.
pub fn param_list_exec(s: &[char], a: usize, b: usize, drop_void: bool) -> (r: (
    Vec<String>,
    Vec<(usize, usize)>,
))
    requires
        a <= b <= s@.len(),
    ensures
        strings_view(r.0@) == param_list(s@.subrange(a as int, b as int), drop_void),
        ranges_within(r.1@, a as int, b as int),
        ranges_hold(s@, r.1@, param_list(s@.subrange(a as int, b as int), drop_void)),
{
    let pieces = split_ranges(s, a, b, ',');
    let ghost ps = split_on(s@.subrange(a as int, b as int), ',');
    let mut names: Vec<String> = Vec::new();
    let mut rs: Vec<(usize, usize)> = Vec::new();
    let mut i: usize = 0;
    while i < pieces.len()
        invariant
            a <= b <= s@.len(),
            ps == split_on(s@.subrange(a as int, b as int), ','),
            ranges_within(pieces@, a as int, b as int),
            ranges_hold(s@, pieces@, ps),
            i <= pieces@.len(),
            strings_view(names@) == keep_params(ps.take(i as int), drop_void),
            ranges_within(rs@, a as int, b as int),
            ranges_hold(s@, rs@, keep_params(ps.take(i as int), drop_void)),
        decreases pieces.len() - i,
    {
        let (pa, pb) = pieces[i];
        let (ta, tb) = trim_range(s, pa, pb);
        proof {
            assert(ps.take(i + 1).drop_last() =~= ps.take(i as int));
            assert(ps.take(i + 1).last() == s@.subrange(pa as int, pb as int));
        }
        if ta < tb && !(drop_void && eq_str(s, ta, tb, "void")) {
            let ghost old_names = strings_view(names@);
            let name = range_string(s, ta, tb);
            names.push(name);
            rs.push((ta, tb));
            proof {
                assert(strings_view(names@) =~= old_names.push(s@.subrange(ta as int, tb as int)));
            }
        }
        i = i + 1;
    }
    proof {
        assert(ps.take(pieces@.len() as int) =~= ps);
    }
    (names, rs)
}

/// Strings joined with a separator.
pub fn join_exec(v: &Vec<String>, sep: &str) -> (r: String)
    ensures
        r@ == join_with(strings_view(v@), sep@),
{
    let mut out = String::new();
    let mut i: usize = 0;
    proof {
        assert(strings_view(v@).take(0) =~= Seq::<Seq<char>>::empty());
    }
    while i < v.len()
        invariant
            i <= v@.len(),
            out@ == join_with(strings_view(v@).take(i as int), sep@),
        decreases v.len() - i,
    {
        if i > 0 {
            push_str(&mut out, sep);
        }
        push_str(&mut out, v[i].as_str());
        proof {
            let t1 = strings_view(v@).take(i + 1);
            assert(t1.drop_last() =~= strings_view(v@).take(i as int));
            assert(t1.last() == v@[i as int]@);
            if i == 0 {
                assert(join_with(t1, sep@) == t1[0]);
                assert(out@ =~= t1[0]);
            }
        }
        i = i + 1;
    }
    proof {
        assert(strings_view(v@).take(v@.len() as int) =~= strings_view(v@));
    }
    out
}

/// Joined documentation lines, or nothing when there are none.
pub open spec fn doc_of(docs: Seq<Seq<char>>) -> Option<Seq<char>> {
    if docs.len() == 0 {
        None
    } else {
        Some(join_with(docs, seq![' ']))
    }
}

pub fn doc_of_exec(docs: &Vec<String>) -> (r: Option<String>)
    ensures
        crate::text::opt_view(r) == doc_of(strings_view(docs@)),
{
    if docs.len() == 0 {
        None
    } else {
        let r = join_exec(docs, " ");
        proof {
            reveal_strlit(" ");
            assert(" "@ =~= seq![' ']);
        }
        Some(r)
    }
}

} // verus!
