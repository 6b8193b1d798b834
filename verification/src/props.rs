//! ShaderLab `Properties { ... }` declarations.
use vstd::prelude::*;
use crate::cursor::{is_identifier_range, valid_identifier};
use crate::decls::{col_of, col_of_exec};
use crate::splits::{lines, lines_of, ranges_hold, ranges_sorted, ranges_within};
use crate::strops::{
    count_char, count_char_in, find, find_char, starts_with, starts_with_char, starts_with_str,
    trim, trim_range,
};
use crate::text::{blen, lemma_blen_subrange, range_string};

verus! {

/// A material property declared in a ShaderLab `Properties` block.
#[derive(Debug, Clone, PartialEq)]
pub struct ShaderLabProperty {
    pub name: String,
    pub display_name: String,
    pub prop_type: String,
    pub default_val: String,
    pub line: usize,
    pub col: usize,
}

/// What a `ShaderLabProperty` holds.
pub struct PropModel {
    pub name: Seq<char>,
    pub display_name: Seq<char>,
    pub prop_type: Seq<char>,
    pub default_val: Seq<char>,
    pub line: int,
    pub col: int,
}

impl View for ShaderLabProperty {
    type V = PropModel;

    open spec fn view(&self) -> PropModel {
        PropModel {
            name: self.name@,
            display_name: self.display_name@,
            prop_type: self.prop_type@,
            default_val: self.default_val@,
            line: self.line as int,
            col: self.col as int,
        }
    }
}

/// The views of a vector of properties.
pub open spec fn props_view(v: Seq<ShaderLabProperty>) -> Seq<PropModel> {
    v.map_values(|p: ShaderLabProperty| p@)
}

/// A declaration with its leading `[Attribute]` groups removed; an unclosed
/// `[` stops the removal.
pub open spec fn strip_attrs(s: Seq<char>) -> Seq<char>
    decreases s.len(),
{
    if starts_with(s, seq!['[']) {
        match find(s, seq![']']) {
            Some(k) => if 0 <= k < s.len() {
                proof {
                    crate::strops::lemma_trim_len(s.subrange(k + 1, s.len() as int));
                }
                strip_attrs(trim(s.subrange(k + 1, s.len() as int)))
            } else {
                s
            },
            None => s,
        }
    } else {
        s
    }
}

/// Index in `s` of the `)` that closes the group the scan starts inside,
/// counting nested parentheses from `d` at index `i`; `s.len()` if none.
pub open spec fn close_paren_from(s: Seq<char>, i: int, d: nat) -> int
    decreases s.len() - i,
{
    if i < 0 || i >= s.len() {
        s.len() as int
    } else if s[i] == '(' {
        close_paren_from(s, i + 1, d + 1)
    } else if s[i] == ')' {
        if d == 0 {
            i
        } else {
            close_paren_from(s, i + 1, (d - 1) as nat)
        }
    } else {
        close_paren_from(s, i + 1, d)
    }
}

/// The property that a trimmed declaration line `t` (raw line `raw`, line
/// `idx`) declares: `Name ("Display", Type) = default`.
pub open spec fn property_of_line(t: Seq<char>, raw: Seq<char>, idx: int) -> Option<PropModel> {
    let w = strip_attrs(t);
    match find(w, seq!['(']) {
        None => None,
        Some(p) => {
            let name = trim(w.subrange(0, p));
            let after = w.subrange(p + 1, w.len() as int);
            if !valid_identifier(name) {
                None
            } else {
                match find(after, seq!['"']) {
                    None => None,
                    Some(q1) => {
                        let tail = after.subrange(q1 + 1, after.len() as int);
                        match find(tail, seq!['"']) {
                            None => None,
                            Some(q2) => {
                                let display = tail.subrange(0, q2);
                                let after_display = tail.subrange(q2 + 1, tail.len() as int);
                                match find(after_display, seq![',']) {
                                    None => None,
                                    Some(c) => {
                                        let rest = trim(
                                            after_display.subrange(c + 1, after_display.len() as int),
                                        );
                                        let te = close_paren_from(rest, 0, 0);
                                        let p_type = trim(rest.subrange(0, te));
                                        let after_type = if te < rest.len() {
                                            trim(rest.subrange(te + 1, rest.len() as int))
                                        } else {
                                            Seq::empty()
                                        };
                                        let def_val = if starts_with(after_type, seq!['=']) {
                                            trim(after_type.subrange(1, after_type.len() as int))
                                        } else {
                                            Seq::empty()
                                        };
                                        Some(
                                            PropModel {
                                                name,
                                                display_name: display,
                                                prop_type: p_type,
                                                default_val: def_val,
                                                line: idx,
                                                col: col_of(raw, name, 0),
                                            },
                                        )
                                    },
                                }
                            },
                        }
                    },
                }
            }
        },
    }
}

/// State of the property scanner: inside the block, its brace depth, and the
/// properties found.
pub struct PropScan {
    pub inside: bool,
    pub depth: nat,
    pub found: Seq<PropModel>,
}

/// One line of the property scanner.
pub open spec fn prop_step(st: PropScan, raw: Seq<char>, idx: int) -> PropScan {
    let t = trim(raw);
    if starts_with(t, "//"@) {
        st
    } else {
        let inside = st.inside || starts_with(t, "Properties"@);
        let depth0 = if starts_with(t, "Properties"@) && !st.inside { 0 } else { st.depth };
        if !inside {
            PropScan { inside, depth: depth0, found: st.found }
        } else {
            let d = depth0 + count_char(t, '{');
            let close = count_char(t, '}');
            let found = if d > 0 && !starts_with(t, "Properties"@) && !starts_with(t, seq!['{'])
                && !starts_with(t, seq!['}']) {
                match property_of_line(t, raw, idx) {
                    Some(p) => st.found.push(p),
                    None => st.found,
                }
            } else {
                st.found
            };
            if d > 0 && d <= close {
                PropScan { inside: false, depth: 0, found }
            } else {
                PropScan { inside: true, depth: if d >= close { (d - close) as nat } else { 0 }, found }
            }
        }
    }
}

/// The property scanner after the first `n` lines.
pub open spec fn prop_scan(ls: Seq<Seq<char>>, n: int) -> PropScan
    decreases n,
{
    if n <= 0 {
        PropScan { inside: false, depth: 0, found: Seq::empty() }
    } else {
        prop_step(prop_scan(ls, n - 1), ls[n - 1], n - 1)
    }
}

/// The properties a ShaderLab text declares.
pub open spec fn shaderlab_properties(text: Seq<char>) -> Seq<PropModel> {
    prop_scan(lines(text), lines(text).len() as int).found
}

/// Bounds (absolute) of `strip_attrs` of `s[a..b]`.
pub fn strip_attrs_range(s: &[char], a: usize, b: usize) -> (r: (usize, usize))
    requires
        a <= b <= s@.len(),
    ensures
        a <= r.0 <= r.1 <= b,
        s@.subrange(r.0 as int, r.1 as int) == strip_attrs(s@.subrange(a as int, b as int)),
{
    let mut i = a;
    let mut e = b;
    while starts_with_char(s, i, e, '[')
        invariant
            a <= i <= e <= b <= s@.len(),
            strip_attrs(s@.subrange(a as int, b as int)) == strip_attrs(
                s@.subrange(i as int, e as int),
            ),
        decreases e - i,
    {
        match find_char(s, i, e, ']') {
            Some(k) => {
                proof {
                    let sub = s@.subrange(i as int, e as int);
                    assert(sub.subrange(k + 1, sub.len() as int) =~= s@.subrange(
                        i + k + 1,
                        e as int,
                    ));
                }
                let (na, ne) = trim_range(s, i + k + 1, e);
                i = na;
                e = ne;
            },
            None => {
                return (i, e);
            },
        }
    }
    (i, e)
}

/// Absolute index of the `)` closing the group at `s[a..b]`, or `b`.
pub(crate) fn close_paren_exec(s: &[char], a: usize, b: usize) -> (r: usize)
    requires
        a <= b <= s@.len(),
    ensures
        a <= r <= b,
        r - a == close_paren_from(s@.subrange(a as int, b as int), 0, 0),
{
    let ghost sub = s@.subrange(a as int, b as int);
    let mut i = a;
    let mut d: usize = 0;
    while i < b
        invariant
            a <= i <= b <= s@.len(),
            sub == s@.subrange(a as int, b as int),
            d <= i - a,
            close_paren_from(sub, 0, 0) == close_paren_from(sub, i - a, d as nat),
        decreases b - i,
    {
        let c = s[i];
        if c == '(' {
            d = d + 1;
        } else if c == ')' {
            if d == 0 {
                return i;
            }
            d = d - 1;
        }
        i = i + 1;
    }
    b
}

#[verifier::rlimit(40)]
fn property_of_line_exec(s: &[char], ta: usize, tb: usize, la: usize, lb: usize, idx: usize) -> (r: Option<ShaderLabProperty>)
    requires
        ta <= tb <= s@.len(),
        la <= lb <= s@.len(),
        blen(s@.subrange(la as int, lb as int)) <= usize::MAX,
    ensures
        match property_of_line(s@.subrange(ta as int, tb as int), s@.subrange(la as int, lb as int), idx as int) {
            Some(p) => r matches Some(x) && x@ == p,
            None => r is None,
        },
{
    let (wa, we) = strip_attrs_range(s, ta, tb);
    let ghost w = s@.subrange(wa as int, we as int);
    let p = match find_char(s, wa, we, '(') {
        None => {
            return None;
        },
        Some(p) => p,
    };
    let (na, nb) = trim_range(s, wa, wa + p);
    proof {
        assert(w.subrange(0, p as int) =~= s@.subrange(wa as int, wa + p));
    }
    if !is_identifier_range(s, na, nb) {
        return None;
    }
    let aa = wa + p + 1;
    proof {
        assert(w.subrange(p + 1, w.len() as int) =~= s@.subrange(aa as int, we as int));
    }
    let q1 = match find_char(s, aa, we, '"') {
        None => {
            return None;
        },
        Some(q) => q,
    };
    let ta2 = aa + q1 + 1;
    proof {
        let after = s@.subrange(aa as int, we as int);
        assert(after.subrange(q1 + 1, after.len() as int) =~= s@.subrange(ta2 as int, we as int));
    }
    let q2 = match find_char(s, ta2, we, '"') {
        None => {
            return None;
        },
        Some(q) => q,
    };
    let da = ta2;
    let db = ta2 + q2;
    let ada = db + 1;
    proof {
        let tail = s@.subrange(ta2 as int, we as int);
        assert(tail.subrange(0, q2 as int) =~= s@.subrange(da as int, db as int));
        assert(tail.subrange(q2 + 1, tail.len() as int) =~= s@.subrange(ada as int, we as int));
    }
    let c = match find_char(s, ada, we, ',') {
        None => {
            return None;
        },
        Some(c) => c,
    };
    proof {
        let ad = s@.subrange(ada as int, we as int);
        assert(ad.subrange(c + 1, ad.len() as int) =~= s@.subrange(ada + c + 1, we as int));
    }
    let (ra, rb) = trim_range(s, ada + c + 1, we);
    let te = close_paren_exec(s, ra, rb);
    let (pa, pb) = trim_range(s, ra, te);
    proof {
        let rest = s@.subrange(ra as int, rb as int);
        assert(rest.subrange(0, te - ra) =~= s@.subrange(ra as int, te as int));
    }
    let (xa, xb) = if te < rb {
        proof {
            let rest = s@.subrange(ra as int, rb as int);
            assert(rest.subrange(te - ra + 1, rest.len() as int) =~= s@.subrange(te + 1, rb as int));
        }
        trim_range(s, te + 1, rb)
    } else {
        (rb, rb)
    };
    proof {
        if te >= rb {
            assert(s@.subrange(rb as int, rb as int) =~= Seq::<char>::empty());
        }
    }
    let (va, vb) = if starts_with_char(s, xa, xb, '=') {
        proof {
            let at = s@.subrange(xa as int, xb as int);
            assert(at.subrange(1, at.len() as int) =~= s@.subrange(xa + 1, xb as int));
        }
        trim_range(s, xa + 1, xb)
    } else {
        (xb, xb)
    };
    proof {
        assert(s@.subrange(xb as int, xb as int) =~= Seq::<char>::empty());
    }
    let col = col_of_exec(s, la, lb, na, nb, 0);
    Some(
        ShaderLabProperty {
            name: range_string(s, na, nb),
            display_name: range_string(s, da, db),
            prop_type: range_string(s, pa, pb),
            default_val: range_string(s, va, vb),
            line: idx,
            col,
        },
    )
}

/// The scanner state that the exec variables stand for.
pub open spec fn prop_state(inside: bool, depth: usize, found: Seq<ShaderLabProperty>) -> PropScan {
    PropScan { inside, depth: depth as nat, found: props_view(found) }
}

fn prop_line(
    v: &[char],
    la: usize,
    lb: usize,
    idx: usize,
    inside: &mut bool,
    depth: &mut usize,
    found: &mut Vec<ShaderLabProperty>,
)
    requires
        la <= lb <= v@.len(),
        blen(v@.subrange(la as int, lb as int)) <= usize::MAX,
        *old(depth) <= la,
    ensures
        prop_state(*final(inside), *final(depth), final(found)@) == prop_step(
            prop_state(*old(inside), *old(depth), old(found)@),
            v@.subrange(la as int, lb as int),
            idx as int,
        ),
        *final(depth) <= lb,
{
    let (ta, tb) = trim_range(v, la, lb);
    if starts_with_str(v, ta, tb, "//") {
        return;
    }
    let is_props = starts_with_str(v, ta, tb, "Properties");
    if is_props && !*inside {
        *inside = true;
        *depth = 0;
    }
    if !*inside {
        return;
    }
    let open_b = count_char_in(v, ta, tb, '{');
    let close_b = count_char_in(v, ta, tb, '}');
    *depth = *depth + open_b;
    if *depth > 0 && !is_props && !starts_with_char(v, ta, tb, '{') && !starts_with_char(
        v,
        ta,
        tb,
        '}',
    ) {
        match property_of_line_exec(v, ta, tb, la, lb, idx) {
            Some(p) => {
                let ghost old_found = props_view(found@);
                let ghost pv = p@;
                found.push(p);
                proof {
                    assert(props_view(found@) =~= old_found.push(pv));
                }
            },
            None => {},
        }
    }
    if *depth > 0 && *depth <= close_b {
        *inside = false;
        *depth = 0;
    } else {
        *depth = if *depth >= close_b {
            *depth - close_b
        } else {
            0
        };
    }
}

/// Collects the properties declared in the ShaderLab `Properties` blocks of a
/// text, in order.
pub fn scan_shaderlab_properties(text: &str) -> (r: Vec<ShaderLabProperty>)
    ensures
        props_view(r@) == shaderlab_properties(text@),
{
    let (v, ranges) = lines_of(text);
    let ghost ls = lines(text@);
    let mut found: Vec<ShaderLabProperty> = Vec::new();
    let mut inside = false;
    let mut depth: usize = 0;
    let mut i: usize = 0;
    proof {
        crate::text::lemma_blen_utf8(text@);
    }
    let _len_bytes = text.as_bytes().len();
    assert(props_view(found@) =~= Seq::<PropModel>::empty());
    while i < ranges.len()
        invariant
            v@ == text@,
            ls == lines(text@),
            blen(v@) <= usize::MAX,
            ranges_within(ranges@, 0, v@.len() as int),
            ranges_sorted(ranges@),
            ranges_hold(v@, ranges@, ls),
            i <= ranges@.len(),
            depth <= if i == 0 { 0 } else { ranges@[i - 1].1 as int },
            prop_scan(ls, i as int) == prop_state(inside, depth, found@),
        decreases ranges.len() - i,
    {
        let (la, lb) = ranges[i];
        proof {
            if i > 0 {
                assert(ranges@[i - 1].1 <= ranges@[i as int].0);
            }
            lemma_blen_subrange(v@, la as int, lb as int);
        }
        prop_line(&v, la, lb, i, &mut inside, &mut depth, &mut found);
        assert(ls[i as int] == v@.subrange(la as int, lb as int));
        i = i + 1;
    }
    found
}

} // verus!
