//! Checks of the ShaderLab render-state commands `Cull`, `ZWrite`, `ZTest`
//! and `ColorMask`.
use vstd::prelude::*;
use crate::diagnostics::{diags_view, find_col, find_col_exec, line_diag, on_line, DiagModel, Diagnostic};
use crate::splits::{lines, lines_of, ranges_gapped, ranges_hold, ranges_within};
use crate::strops::{
    contains, count_char, count_char_in, contains_char, eq_str, starts_with, starts_with_char, starts_with_str, trim, trim_range,
};
use crate::text::{blen, lemma_blen_subrange, push_range, push_str, to_chars};

verus! {

/// ASCII case folding of one character, as a code point.
pub open spec fn lower_code(c: char) -> u32 {
    if 'A' <= c && c <= 'Z' {
        (c as u32 + 32) as u32
    } else {
        c as u32
    }
}

/// `str::eq_ignore_ascii_case`.
pub open spec fn eq_ignore_case(a: Seq<char>, b: Seq<char>) -> bool {
    a.len() == b.len() && forall|i: int| 0 <= i < a.len() ==> lower_code(#[trigger] a[i]) == lower_code(b[i])
}

pub fn lower_code_exec(c: char) -> (r: u32)
    ensures
        r == lower_code(c),
{
    let u = c as u32;
    if 65 <= u && u <= 90 {
        u + 32
    } else {
        u
    }
}

/// `eq_ignore_case` of `s[a..b]` and `t[c..d]`.
pub fn eq_ignore_case_ranges(s: &[char], a: usize, b: usize, t: &[char], c: usize, d: usize) -> (r: bool)
    requires
        a <= b <= s@.len(),
        c <= d <= t@.len(),
    ensures
        r == eq_ignore_case(s@.subrange(a as int, b as int), t@.subrange(c as int, d as int)),
{
    let ghost x = s@.subrange(a as int, b as int);
    let ghost y = t@.subrange(c as int, d as int);
    if b - a != d - c {
        return false;
    }
    let mut i: usize = 0;
    while i < b - a
        invariant
            i <= b - a,
            b - a == d - c,
            a <= b <= s@.len(),
            c <= d <= t@.len(),
            x == s@.subrange(a as int, b as int),
            y == t@.subrange(c as int, d as int),
            forall|j: int| 0 <= j < i ==> lower_code(#[trigger] x[j]) == lower_code(y[j]),
        decreases b - a - i,
    {
        if lower_code_exec(s[a + i]) != lower_code_exec(t[c + i]) {
            assert(x[i as int] == s@[a + i]);
            assert(y[i as int] == t@[c + i]);
            return false;
        }
        assert(x[i as int] == s@[a + i]);
        assert(y[i as int] == t@[c + i]);
        i = i + 1;
    }
    true
}

/// `eq_ignore_case` of `s[a..b]` and `lit`.
pub fn eq_ignore_case_str(s: &[char], a: usize, b: usize, lit: &str) -> (r: bool)
    requires
        a <= b <= s@.len(),
    ensures
        r == eq_ignore_case(s@.subrange(a as int, b as int), lit@),
{
    let p = to_chars(lit);
    if b - a != p.len() {
        return false;
    }
    let mut i: usize = 0;
    while i < p.len()
        invariant
            i <= p@.len(),
            b - a == p@.len(),
            p@ == lit@,
            a <= b <= s@.len(),
            forall|j: int| 0 <= j < i ==> lower_code(#[trigger] s@[a + j]) == lower_code(p@[j]),
        decreases p.len() - i,
    {
        if lower_code_exec(s[a + i]) != lower_code_exec(p[i]) {
            assert(s@.subrange(a as int, b as int)[i as int] == s@[a + i]);
            assert(lower_code(s@.subrange(a as int, b as int)[i as int]) != lower_code(p@[i as int]));
            assert(!eq_ignore_case(s@.subrange(a as int, b as int), lit@));
            return false;
        }
        i = i + 1;
    }
    assert forall|j: int| 0 <= j < b - a implies lower_code(#[trigger] s@.subrange(a as int, b as int)[j])
        == lower_code(p@[j]) by {
        assert(s@.subrange(a as int, b as int)[j] == s@[a + j]);
    }
    true
}

/// The value after a render-state keyword `kw` that stands alone at the
/// start of the trimmed line `t`.
pub open spec fn keyword_value(t: Seq<char>, kw: Seq<char>) -> Option<Seq<char>> {
    if starts_with(t, kw) && (t.len() == kw.len() || t[kw.len() as int] == ' ' || t[kw.len() as int] == '\t') {
        Some(trim(t.subrange(kw.len() as int, t.len() as int)))
    } else {
        None
    }
}

/// An error on the value of a render state: at the value's first occurrence
/// in the raw line (else at `dflt`), as long as the value.
pub open spec fn value_error(raw: Seq<char>, idx: int, val: Seq<char>, dflt: int, message: Seq<char>) -> DiagModel {
    let cv = find_col(raw, val, dflt);
    on_line(idx, cv, cv + blen(val), 1, message, "shaderlab"@)
}

/// An error on a render state with no value: from the keyword to the end of
/// the raw line.
pub open spec fn missing_error(raw: Seq<char>, idx: int, kw: Seq<char>, message: Seq<char>) -> DiagModel {
    on_line(idx, find_col(raw, kw, 0), blen(raw) as int, 1, message, "shaderlab"@)
}

pub open spec fn cull_diags(t: Seq<char>, raw: Seq<char>, idx: int) -> Seq<DiagModel> {
    match keyword_value(t, "Cull"@) {
        None => seq![],
        Some(val) => if val.len() == 0 {
            seq![missing_error(raw, idx, "Cull"@, "Missing Cull mode. Expected: Cull Off, Cull Front, or Cull Back."@)]
        } else if !starts_with(val, seq!['[']) && val != "Off"@ && val != "Front"@ && val != "Back"@ {
            seq![
                value_error(
                    raw,
                    idx,
                    val,
                    find_col(raw, "Cull"@, 0) + 5,
                    "Unknown Cull mode '"@ + val + "'. Valid options: Off, Front, Back (or dynamic property '[_Cull]')."@,
                ),
            ]
        } else {
            seq![]
        },
    }
}

/// The hint for a `ZWrite` value.
pub open spec fn zwrite_hint(val: Seq<char>) -> Seq<char> {
    if eq_ignore_case(val, "true"@) || val == "1"@ {
        " Did you mean 'On'?"@
    } else if eq_ignore_case(val, "false"@) || val == "0"@ {
        " Did you mean 'Off'?"@
    } else {
        Seq::empty()
    }
}

pub open spec fn zwrite_diags(t: Seq<char>, raw: Seq<char>, idx: int) -> Seq<DiagModel> {
    match keyword_value(t, "ZWrite"@) {
        None => seq![],
        Some(val) => if val.len() == 0 {
            seq![missing_error(raw, idx, "ZWrite"@, "Missing ZWrite value. Expected: ZWrite On or ZWrite Off."@)]
        } else if !starts_with(val, seq!['[']) && val != "On"@ && val != "Off"@ {
            seq![
                value_error(
                    raw,
                    idx,
                    val,
                    find_col(raw, "ZWrite"@, 0) + 7,
                    "Invalid ZWrite value '"@ + val + "'. Expected 'On' or 'Off'."@ + zwrite_hint(val),
                ),
            ]
        } else {
            seq![]
        },
    }
}

/// The `ZTest` comparison modes.
pub open spec fn ztest_modes() -> Seq<Seq<char>> {
    seq!["Less"@, "Greater"@, "LEqual"@, "GEqual"@, "Equal"@, "NotEqual"@, "Always"@, "Off"@]
}

/// The first mode from `k` on that equals `val` ignoring ASCII case.
pub open spec fn ztest_like(val: Seq<char>, k: int) -> Option<Seq<char>>
    decreases 8 - k,
{
    if 0 <= k < 8 {
        if eq_ignore_case(ztest_modes()[k], val) {
            Some(ztest_modes()[k])
        } else {
            ztest_like(val, k + 1)
        }
    } else {
        None
    }
}

pub open spec fn ztest_diags(t: Seq<char>, raw: Seq<char>, idx: int) -> Seq<DiagModel> {
    match keyword_value(t, "ZTest"@) {
        None => seq![],
        Some(val) => if val.len() == 0 {
            seq![
                missing_error(
                    raw,
                    idx,
                    "ZTest"@,
                    "Missing ZTest mode. Expected: ZTest LEqual, Less, Greater, GEqual, Equal, NotEqual, Always, or Off."@,
                ),
            ]
        } else if !starts_with(val, seq!['[']) && !ztest_modes().contains(val) {
            seq![
                value_error(
                    raw,
                    idx,
                    val,
                    find_col(raw, "ZTest"@, 0) + 6,
                    "Unknown ZTest comparison mode '"@ + val
                        + "'. Valid options: LEqual, Less, Greater, GEqual, Equal, NotEqual, Always, Off."@
                        + match ztest_like(val, 0) {
                        Some(m) => " Did you mean '"@ + m + "'?"@,
                        None => Seq::empty(),
                    },
                ),
            ]
        } else {
            seq![]
        },
    }
}

/// Every character of `val` is one of `R`, `G`, `B`, `A`.
pub open spec fn channels_only(val: Seq<char>) -> bool {
    forall|i: int| 0 <= i < val.len() ==> seq!['R', 'G', 'B', 'A'].contains(#[trigger] val[i])
}

pub open spec fn colormask_diags(t: Seq<char>, raw: Seq<char>, idx: int) -> Seq<DiagModel> {
    match keyword_value(t, "ColorMask"@) {
        None => seq![],
        Some(val) => if val.len() == 0 {
            seq![
                missing_error(
                    raw,
                    idx,
                    "ColorMask"@,
                    "Missing ColorMask value. Expected: ColorMask RGBA, RGB, A, 0, or channel combination."@,
                ),
            ]
        } else if !starts_with(val, seq!['[']) && val != "0"@ && !channels_only(val) {
            seq![
                value_error(
                    raw,
                    idx,
                    val,
                    find_col(raw, "ColorMask"@, 0) + 10,
                    "Invalid ColorMask '"@ + val + "'. Must be combinations of R, G, B, A, or 0 (e.g. RGBA, RGB, 0)."@,
                ),
            ]
        } else {
            seq![]
        },
    }
}

/// State of the render-state checker: the diagnostics so far, whether an
/// HLSL block is open, and whether a `Properties` block is open with its
/// brace depth.
pub struct RsScan {
    pub diags: Seq<DiagModel>,
    pub in_hlsl: bool,
    pub in_props: bool,
    pub depth: nat,
}

pub open spec fn rs_step(st: RsScan, raw: Seq<char>, idx: int) -> RsScan {
    let t = trim(raw);
    if starts_with(t, "//"@) {
        st
    } else if t == "HLSLPROGRAM"@ || t == "CGPROGRAM"@ || t == "HLSLINCLUDE"@ || t == "CGINCLUDE"@ {
        RsScan { in_hlsl: true, ..st }
    } else if t == "ENDHLSL"@ || t == "ENDCG"@ {
        RsScan { in_hlsl: false, ..st }
    } else if st.in_hlsl {
        st
    } else if starts_with(t, "Properties"@) && contains(t, seq!['{']) {
        RsScan { in_props: true, depth: 1, ..st }
    } else if st.in_props {
        let d = st.depth + count_char(t, '{');
        let c = count_char(t, '}');
        if d <= c {
            RsScan { in_props: false, depth: 0, ..st }
        } else {
            RsScan { depth: (d - c) as nat, ..st }
        }
    } else {
        RsScan {
            diags: st.diags + cull_diags(t, raw, idx) + zwrite_diags(t, raw, idx) + ztest_diags(t, raw, idx)
                + colormask_diags(t, raw, idx),
            ..st
        }
    }
}

pub open spec fn rs_scan(ls: Seq<Seq<char>>, n: int) -> RsScan
    decreases n,
{
    if n <= 0 {
        RsScan { diags: seq![], in_hlsl: false, in_props: false, depth: 0 }
    } else {
        rs_step(rs_scan(ls, n - 1), ls[n - 1], n - 1)
    }
}

/// The render-state diagnostics of a ShaderLab text.
pub open spec fn render_state_diags(content: Seq<char>) -> Seq<DiagModel> {
    rs_scan(lines(content), lines(content).len() as int).diags
}

} // verus!

verus! {

/// Bounds (absolute) of `keyword_value(v[ta..tb], kw)`.
fn keyword_value_range(v: &[char], ta: usize, tb: usize, kw: &str) -> (r: Option<(usize, usize)>)
    requires
        ta <= tb <= v@.len(),
    ensures
        match keyword_value(v@.subrange(ta as int, tb as int), kw@) {
            Some(val) => r matches Some(p) && ta <= p.0 <= p.1 <= tb && v@.subrange(p.0 as int, p.1 as int) == val,
            None => r is None,
        },
{
    let ghost t = v@.subrange(ta as int, tb as int);
    if !starts_with_str(v, ta, tb, kw) {
        return None;
    }
    let k = to_chars(kw).len();
    let e = ta + k;
    if !(e == tb || v[e] == ' ' || v[e] == '\t') {
        proof {
            assert(t[k as int] == v@[e as int]);
        }
        return None;
    }
    proof {
        if e < tb {
            assert(t[k as int] == v@[e as int]);
        }
        assert(t.subrange(k as int, t.len() as int) =~= v@.subrange(e as int, tb as int));
    }
    let (a, b) = trim_range(v, e, tb);
    Some((a, b))
}

/// A message `pre + v[a..b] + post`.
fn quote_msg(pre: &str, v: &[char], a: usize, b: usize, post: &str) -> (r: String)
    requires
        a <= b <= v@.len(),
    ensures
        r@ == pre@ + v@.subrange(a as int, b as int) + post@,
{
    let mut m = String::new();
    push_str(&mut m, pre);
    push_range(&mut m, v, a, b);
    push_str(&mut m, post);
    m
}

/// Diagnostics of one render-state keyword whose value is `v[va..vb]`:
/// `bad` tells whether the value is invalid, `missing` and `msg` are the
/// two messages, `skip` the distance from the keyword to its default
/// value column.
fn state_check(
    out: &mut Vec<Diagnostic>,
    v: &[char],
    la: usize,
    lb: usize,
    va: usize,
    vb: usize,
    idx: usize,
    kw: &str,
    skip: usize,
    bad: bool,
    missing: &str,
    msg: String,
)
    requires
        la <= va <= vb <= lb <= v@.len(),
        blen(v@) <= usize::MAX,
        skip <= 10,
    ensures
        diags_view(final(out)@) == diags_view(old(out)@) + if va == vb {
            seq![missing_error(v@.subrange(la as int, lb as int), idx as int, kw@, missing@)]
        } else if bad {
            seq![
                value_error(
                    v@.subrange(la as int, lb as int),
                    idx as int,
                    v@.subrange(va as int, vb as int),
                    find_col(v@.subrange(la as int, lb as int), kw@, 0) + skip,
                    msg@,
                ),
            ]
        } else {
            seq![]
        },
{
    let ghost raw = v@.subrange(la as int, lb as int);
    let ghost d0 = diags_view(out@);
    proof {
        lemma_blen_subrange(v@, la as int, lb as int);
    }
    let kc = to_chars(kw);
    let col = find_col_exec(v, la, lb, kc.as_slice(), 0);
    if va == vb {
        let end = crate::diagnostics::range_blen(v, la, lb);
        out.push(line_diag(idx, col, end, 1, crate::text::str_string(missing), "shaderlab"));
        proof {
            assert(diags_view(out@) =~= d0.push(missing_error(raw, idx as int, kw@, missing@)));
        }
    } else if bad {
        // The value stands in the line, so it is found there and the
        // default column is never used.
        let (c, e) = crate::diagnostics::piece_span(v, la, lb, va, vb, col);
        proof {
            assert(raw.subrange(va - la, vb - la) =~= v@.subrange(va as int, vb as int));
            crate::diagnostics::lemma_find_some(raw, v@.subrange(va as int, vb as int), va - la);
        }
        out.push(line_diag(idx, c, e, 1, msg, "shaderlab"));
        proof {
            assert(diags_view(out@) =~= d0.push(value_error(raw, idx as int, v@.subrange(va as int, vb as int), col + skip, msg@)));
        }
    }
}

} // verus!

verus! {

fn cull_exec(out: &mut Vec<Diagnostic>, v: &[char], la: usize, lb: usize, ta: usize, tb: usize, idx: usize)
    requires
        la <= ta <= tb <= lb <= v@.len(),
        blen(v@) <= usize::MAX,
    ensures
        diags_view(final(out)@) == diags_view(old(out)@) + cull_diags(
            v@.subrange(ta as int, tb as int),
            v@.subrange(la as int, lb as int),
            idx as int,
        ),
{
    match keyword_value_range(v, ta, tb, "Cull") {
        None => {
            assert(diags_view(out@) =~= diags_view(out@) + Seq::<DiagModel>::empty());
        },
        Some((va, vb)) => {
            let bad = !starts_with_char(v, va, vb, '[') && !eq_str(v, va, vb, "Off") && !eq_str(
                v,
                va,
                vb,
                "Front",
            ) && !eq_str(v, va, vb, "Back");
            let msg = quote_msg(
                "Unknown Cull mode '",
                v,
                va,
                vb,
                "'. Valid options: Off, Front, Back (or dynamic property '[_Cull]').",
            );
            state_check(
                out,
                v,
                la,
                lb,
                va,
                vb,
                idx,
                "Cull",
                5,
                bad,
                "Missing Cull mode. Expected: Cull Off, Cull Front, or Cull Back.",
                msg,
            );
        },
    }
}

fn zwrite_exec(out: &mut Vec<Diagnostic>, v: &[char], la: usize, lb: usize, ta: usize, tb: usize, idx: usize)
    requires
        la <= ta <= tb <= lb <= v@.len(),
        blen(v@) <= usize::MAX,
    ensures
        diags_view(final(out)@) == diags_view(old(out)@) + zwrite_diags(
            v@.subrange(ta as int, tb as int),
            v@.subrange(la as int, lb as int),
            idx as int,
        ),
{
    match keyword_value_range(v, ta, tb, "ZWrite") {
        None => {
            assert(diags_view(out@) =~= diags_view(out@) + Seq::<DiagModel>::empty());
        },
        Some((va, vb)) => {
            let bad = !starts_with_char(v, va, vb, '[') && !eq_str(v, va, vb, "On") && !eq_str(
                v,
                va,
                vb,
                "Off",
            );
            let mut msg = quote_msg("Invalid ZWrite value '", v, va, vb, "'. Expected 'On' or 'Off'.");
            if eq_ignore_case_str(v, va, vb, "true") || eq_str(v, va, vb, "1") {
                push_str(&mut msg, " Did you mean 'On'?");
            } else if eq_ignore_case_str(v, va, vb, "false") || eq_str(v, va, vb, "0") {
                push_str(&mut msg, " Did you mean 'Off'?");
            }
            proof {
                let val = v@.subrange(va as int, vb as int);
                assert(msg@ =~= "Invalid ZWrite value '"@ + val + "'. Expected 'On' or 'Off'."@ + zwrite_hint(val));
            }
            state_check(
                out,
                v,
                la,
                lb,
                va,
                vb,
                idx,
                "ZWrite",
                7,
                bad,
                "Missing ZWrite value. Expected: ZWrite On or ZWrite Off.",
                msg,
            );
        },
    }
}

/// `ztest_like(v[va..vb], 0)`.
fn ztest_like_exec(v: &[char], va: usize, vb: usize) -> (r: Option<&'static str>)
    requires
        va <= vb <= v@.len(),
    ensures
        match ztest_like(v@.subrange(va as int, vb as int), 0) {
            Some(m) => r matches Some(x) && x@ == m,
            None => r is None,
        },
{
    let ghost val = v@.subrange(va as int, vb as int);
    proof {
        reveal_with_fuel(ztest_like, 9);
        assert(ztest_modes()[0] == "Less"@);
        assert(ztest_modes()[1] == "Greater"@);
        assert(ztest_modes()[2] == "LEqual"@);
        assert(ztest_modes()[3] == "GEqual"@);
        assert(ztest_modes()[4] == "Equal"@);
        assert(ztest_modes()[5] == "NotEqual"@);
        assert(ztest_modes()[6] == "Always"@);
        assert(ztest_modes()[7] == "Off"@);
    }
    if eq_ignore_case_str(v, va, vb, "Less") {
        assert(eq_ignore_case(ztest_modes()[0], val));
        Some("Less")
    } else if eq_ignore_case_str(v, va, vb, "Greater") {
        assert(eq_ignore_case(ztest_modes()[1], val));
        Some("Greater")
    } else if eq_ignore_case_str(v, va, vb, "LEqual") {
        assert(eq_ignore_case(ztest_modes()[2], val));
        Some("LEqual")
    } else if eq_ignore_case_str(v, va, vb, "GEqual") {
        assert(eq_ignore_case(ztest_modes()[3], val));
        Some("GEqual")
    } else if eq_ignore_case_str(v, va, vb, "Equal") {
        assert(eq_ignore_case(ztest_modes()[4], val));
        Some("Equal")
    } else if eq_ignore_case_str(v, va, vb, "NotEqual") {
        assert(eq_ignore_case(ztest_modes()[5], val));
        Some("NotEqual")
    } else if eq_ignore_case_str(v, va, vb, "Always") {
        assert(eq_ignore_case(ztest_modes()[6], val));
        Some("Always")
    } else if eq_ignore_case_str(v, va, vb, "Off") {
        assert(eq_ignore_case(ztest_modes()[7], val));
        Some("Off")
    } else {
        proof {
            lemma_eq_ignore_case_sym(ztest_modes()[0], val);
            lemma_eq_ignore_case_sym(ztest_modes()[1], val);
            lemma_eq_ignore_case_sym(ztest_modes()[2], val);
            lemma_eq_ignore_case_sym(ztest_modes()[3], val);
            lemma_eq_ignore_case_sym(ztest_modes()[4], val);
            lemma_eq_ignore_case_sym(ztest_modes()[5], val);
            lemma_eq_ignore_case_sym(ztest_modes()[6], val);
            lemma_eq_ignore_case_sym(ztest_modes()[7], val);
        }
        None
    }
}

pub proof fn lemma_eq_ignore_case_sym(a: Seq<char>, b: Seq<char>)
    ensures
        eq_ignore_case(a, b) == eq_ignore_case(b, a),
{
    if eq_ignore_case(a, b) {
        assert forall|i: int| 0 <= i < b.len() implies lower_code(#[trigger] b[i]) == lower_code(a[i]) by {
            assert(lower_code(a[i]) == lower_code(b[i]));
        }
    }
    if eq_ignore_case(b, a) {
        assert forall|i: int| 0 <= i < a.len() implies lower_code(#[trigger] a[i]) == lower_code(b[i]) by {
            assert(lower_code(b[i]) == lower_code(a[i]));
        }
    }
}

fn ztest_exec(out: &mut Vec<Diagnostic>, v: &[char], la: usize, lb: usize, ta: usize, tb: usize, idx: usize)
    requires
        la <= ta <= tb <= lb <= v@.len(),
        blen(v@) <= usize::MAX,
    ensures
        diags_view(final(out)@) == diags_view(old(out)@) + ztest_diags(
            v@.subrange(ta as int, tb as int),
            v@.subrange(la as int, lb as int),
            idx as int,
        ),
{
    match keyword_value_range(v, ta, tb, "ZTest") {
        None => {
            assert(diags_view(out@) =~= diags_view(out@) + Seq::<DiagModel>::empty());
        },
        Some((va, vb)) => {
            let ghost val = v@.subrange(va as int, vb as int);
            let known = eq_str(v, va, vb, "Less") || eq_str(v, va, vb, "Greater") || eq_str(
                v,
                va,
                vb,
                "LEqual",
            ) || eq_str(v, va, vb, "GEqual") || eq_str(v, va, vb, "Equal") || eq_str(
                v,
                va,
                vb,
                "NotEqual",
            ) || eq_str(v, va, vb, "Always") || eq_str(v, va, vb, "Off");
            proof {
                assert(ztest_modes()[0] == "Less"@);
                assert(ztest_modes()[1] == "Greater"@);
                assert(ztest_modes()[2] == "LEqual"@);
                assert(ztest_modes()[3] == "GEqual"@);
                assert(ztest_modes()[4] == "Equal"@);
                assert(ztest_modes()[5] == "NotEqual"@);
                assert(ztest_modes()[6] == "Always"@);
                assert(ztest_modes()[7] == "Off"@);
                if known {
                    assert(ztest_modes().contains(val));
                } else {
                    assert(!ztest_modes().contains(val));
                }
            }
            let bad = !starts_with_char(v, va, vb, '[') && !known;
            let mut msg = quote_msg(
                "Unknown ZTest comparison mode '",
                v,
                va,
                vb,
                "'. Valid options: LEqual, Less, Greater, GEqual, Equal, NotEqual, Always, Off.",
            );
            let ghost m0 = msg@;
            match ztest_like_exec(v, va, vb) {
                Some(m) => {
                    push_str(&mut msg, " Did you mean '");
                    push_str(&mut msg, m);
                    push_str(&mut msg, "'?");
                },
                None => {},
            }
            proof {
                assert(msg@ =~= m0 + match ztest_like(val, 0) {
                    Some(m) => " Did you mean '"@ + m + "'?"@,
                    None => Seq::empty(),
                });
            }
            state_check(
                out,
                v,
                la,
                lb,
                va,
                vb,
                idx,
                "ZTest",
                6,
                bad,
                "Missing ZTest mode. Expected: ZTest LEqual, Less, Greater, GEqual, Equal, NotEqual, Always, or Off.",
                msg,
            );
        },
    }
}

fn colormask_exec(out: &mut Vec<Diagnostic>, v: &[char], la: usize, lb: usize, ta: usize, tb: usize, idx: usize)
    requires
        la <= ta <= tb <= lb <= v@.len(),
        blen(v@) <= usize::MAX,
    ensures
        diags_view(final(out)@) == diags_view(old(out)@) + colormask_diags(
            v@.subrange(ta as int, tb as int),
            v@.subrange(la as int, lb as int),
            idx as int,
        ),
{
    match keyword_value_range(v, ta, tb, "ColorMask") {
        None => {
            assert(diags_view(out@) =~= diags_view(out@) + Seq::<DiagModel>::empty());
        },
        Some((va, vb)) => {
            let ghost val = v@.subrange(va as int, vb as int);
            let mut all = true;
            let mut i = va;
            while i < vb
                invariant
                    va <= i <= vb <= v@.len(),
                    val == v@.subrange(va as int, vb as int),
                    all == forall|j: int| va <= j < i ==> seq!['R', 'G', 'B', 'A'].contains(#[trigger] v@[j]),
                decreases vb - i,
            {
                let c = v[i];
                if !(c == 'R' || c == 'G' || c == 'B' || c == 'A') {
                    assert(!seq!['R', 'G', 'B', 'A'].contains(c));
                    all = false;
                } else {
                    assert(seq!['R', 'G', 'B', 'A'][0] == 'R');
                    assert(seq!['R', 'G', 'B', 'A'][1] == 'G');
                    assert(seq!['R', 'G', 'B', 'A'][2] == 'B');
                    assert(seq!['R', 'G', 'B', 'A'][3] == 'A');
                    assert(seq!['R', 'G', 'B', 'A'].contains(c));
                }
                i = i + 1;
            }
            proof {
                if all {
                    assert forall|j: int| 0 <= j < val.len() implies seq!['R', 'G', 'B', 'A'].contains(#[trigger] val[j]) by {
                        assert(val[j] == v@[va + j]);
                    }
                } else {
                    let j = choose|j: int| va <= j < vb && !seq!['R', 'G', 'B', 'A'].contains(#[trigger] v@[j]);
                    assert(val[j - va] == v@[j]);
                }
            }
            let bad = !starts_with_char(v, va, vb, '[') && !eq_str(v, va, vb, "0") && !all;
            let msg = quote_msg(
                "Invalid ColorMask '",
                v,
                va,
                vb,
                "'. Must be combinations of R, G, B, A, or 0 (e.g. RGBA, RGB, 0).",
            );
            state_check(
                out,
                v,
                la,
                lb,
                va,
                vb,
                idx,
                "ColorMask",
                10,
                bad,
                "Missing ColorMask value. Expected: ColorMask RGBA, RGB, A, 0, or channel combination.",
                msg,
            );
        },
    }
}

} // verus!

verus! {

/// Checks the render-state commands (`Cull`, `ZWrite`, `ZTest`,
/// `ColorMask`) of a ShaderLab text, outside comments, HLSL blocks and the
/// `Properties` block.
pub fn validate_shaderlab_render_states(content: &str) -> (r: Vec<Diagnostic>)
    ensures
        diags_view(r@) == render_state_diags(content@),
{
    let (v, ranges) = lines_of(content);
    let ghost ls = lines(v@);
    let mut out: Vec<Diagnostic> = Vec::new();
    let mut in_hlsl = false;
    let mut in_props = false;
    let mut depth: usize = 0;
    let mut idx: usize = 0;
    proof {
        assert(diags_view(out@) =~= Seq::<DiagModel>::empty());
    }
    while idx < ranges.len()
        invariant
            v@ == content@,
            ls == lines(v@),
            blen(v@) <= usize::MAX,
            ranges_within(ranges@, 0, v@.len() as int),
            ranges_hold(v@, ranges@, ls),
            ranges_gapped(ranges@),
            idx <= ranges@.len(),
            idx == 0 ==> depth == 0,
            idx > 0 ==> depth <= ranges@[idx - 1].1,
            rs_scan(ls, idx as int) == (RsScan {
                diags: diags_view(out@),
                in_hlsl,
                in_props,
                depth: depth as nat,
            }),
        decreases ranges.len() - idx,
    {
        let (la, lb) = ranges[idx];
        proof {
            if idx > 0 {
                assert(ranges@[idx - 1].1 < ranges@[idx as int].0);
            }
            assert(ls[idx as int] == v@.subrange(la as int, lb as int));
        }
        let vs = v.as_slice();
        let (ta, tb) = trim_range(vs, la, lb);
        if starts_with_str(vs, ta, tb, "//") {
        } else if eq_str(vs, ta, tb, "HLSLPROGRAM") || eq_str(vs, ta, tb, "CGPROGRAM") || eq_str(
            vs,
            ta,
            tb,
            "HLSLINCLUDE",
        ) || eq_str(vs, ta, tb, "CGINCLUDE") {
            in_hlsl = true;
        } else if eq_str(vs, ta, tb, "ENDHLSL") || eq_str(vs, ta, tb, "ENDCG") {
            in_hlsl = false;
        } else if in_hlsl {
        } else if starts_with_str(vs, ta, tb, "Properties") && contains_char(vs, ta, tb, '{') {
            in_props = true;
            depth = 1;
        } else if in_props {
            let d = depth + count_char_in(vs, ta, tb, '{');
            let c = count_char_in(vs, ta, tb, '}');
            if d <= c {
                in_props = false;
                depth = 0;
            } else {
                depth = d - c;
            }
        } else {
            let ghost d0 = diags_view(out@);
            cull_exec(&mut out, vs, la, lb, ta, tb, idx);
            zwrite_exec(&mut out, vs, la, lb, ta, tb, idx);
            ztest_exec(&mut out, vs, la, lb, ta, tb, idx);
            colormask_exec(&mut out, vs, la, lb, ta, tb, idx);
            proof {
                let t = v@.subrange(ta as int, tb as int);
                let raw = v@.subrange(la as int, lb as int);
                assert(diags_view(out@) =~= d0 + cull_diags(t, raw, idx as int) + zwrite_diags(t, raw, idx as int)
                    + ztest_diags(t, raw, idx as int) + colormask_diags(t, raw, idx as int));
            }
        }
        proof {
            assert(rs_scan(ls, idx + 1) == rs_step(rs_scan(ls, idx as int), ls[idx as int], idx as int));
        }
        idx = idx + 1;
    }
    out
}

} // verus!
