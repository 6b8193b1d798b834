//! Checks of `#pragma vertex|fragment|... <entry>` lines against the functions
//! that a shader and its includes define.
use vstd::prelude::*;
use crate::diagnostics::{diags_view, find_col, line_diag, on_line, piece_span, range_blen, DiagModel, Diagnostic};
use crate::functions::{fns_view, FnModel, FunctionSignature};
use crate::render_states::{eq_ignore_case, eq_ignore_case_ranges};
use crate::splits::{lines, lines_of, ranges_hold, ranges_within, word_ranges, words};
use crate::strops::{
    contains, contains_str, eq_ranges, eq_str, starts_with, starts_with_str, trim, trim_range,
};
use crate::text::{blen, byte_offset, lemma_blen_subrange, push_range, push_str, to_chars, to_chars_sized};

verus! {

/// The pragmas that name a shader stage's entry point.
pub open spec fn stage_pragmas() -> Seq<Seq<char>> {
    seq!["vertex"@, "fragment"@, "geometry"@, "hull"@, "domain"@, "compute"@, "kernel"@, "raytracing"@]
}

/// Entry points that Unity's render-pipeline packages define.
pub open spec fn known_unity_entry_points() -> Seq<Seq<char>> {
    seq![
        "LitPassVertex"@,
        "LitPassFragment"@,
        "DepthOnlyVertex"@,
        "DepthNormalsVertex"@,
        "ShadowCasterVertex"@,
        "Universal2DVertex"@,
        "Universal2DFragment"@,
        "UnlitPassVertex"@,
        "UnlitPassFragment"@,
        "MetaPassVertex"@,
        "MetaPassFragment"@,
        "SpriteVert"@,
        "SpriteFrag"@,
    ]
}

/// An `#include` of a package header that the validator cannot read.
pub open spec fn unresolved_include_line(raw: Seq<char>) -> bool {
    let t = trim(raw);
    starts_with(t, "#include"@) && (contains(t, "Packages/"@) || contains(t, "UnityCG"@) || contains(t, "Core.hlsl"@))
}

/// Some line of `ls` includes an unreadable package header.
pub open spec fn has_unresolved_packages(ls: Seq<Seq<char>>) -> bool {
    exists|i: int| 0 <= i < ls.len() && unresolved_include_line(#[trigger] ls[i])
}

/// The names of functions.
pub open spec fn fn_names(fs: Seq<FnModel>) -> Seq<Seq<char>> {
    fs.map_values(|f: FnModel| f.name)
}

/// A function name close to the entry name `e`: equal but for ASCII case, or
/// one a prefix of the other and at most three bytes shorter.
pub open spec fn similar_name(name: Seq<char>, e: Seq<char>) -> bool {
    ||| eq_ignore_case(name, e)
    ||| (starts_with(name, e) && blen(name) <= blen(e) + 3)
    ||| (starts_with(e, name) && blen(e) <= blen(name) + 3)
}

/// A function that looks like the entry point of `stage`.
pub open spec fn stage_candidate(f: FnModel, stage: Seq<char>) -> bool {
    if stage == "vertex"@ {
        contains(f.name, "vert"@) || contains(f.name, "Vert"@) || contains(f.label, "SV_POSITION"@) || contains(
            f.label,
            "positionCS"@,
        )
    } else if stage == "fragment"@ {
        contains(f.name, "frag"@) || contains(f.name, "Frag"@) || contains(f.label, "SV_Target"@)
    } else {
        false
    }
}

/// Index of the first function at or after `i` that satisfies `p`.
pub open spec fn first_where(fs: Seq<FnModel>, p: spec_fn(FnModel) -> bool, i: int) -> Option<int>
    decreases fs.len() - i,
{
    if i < 0 || i >= fs.len() {
        None
    } else if p(fs[i]) {
        Some(i)
    } else {
        first_where(fs, p, i + 1)
    }
}

/// The hint that ends the message on a missing entry point.
pub open spec fn pragma_suggestion(fs: Seq<FnModel>, stage: Seq<char>, e: Seq<char>) -> Seq<char> {
    match first_where(fs, |f: FnModel| similar_name(f.name, e), 0) {
        Some(k) => " Did you mean '"@ + fs[k].name + "'?"@,
        None => match first_where(fs, |f: FnModel| stage_candidate(f, stage), 0) {
            Some(k) => " Did you mean '"@ + fs[k].name + "'?"@,
            None => seq![],
        },
    }
}

/// The words after `#pragma` on a trimmed line, if it is a pragma.
pub open spec fn pragma_words(t: Seq<char>) -> Option<Seq<Seq<char>>> {
    if starts_with(t, "#pragma "@) || starts_with(t, "#pragma\t"@) {
        Some(words(t.subrange(7, t.len() as int)))
    } else {
        None
    }
}

/// The diagnostics of one line of a shader.
pub open spec fn pragma_line_diags(raw: Seq<char>, idx: int, fs: Seq<FnModel>, unresolved: bool) -> Seq<DiagModel> {
    match pragma_words(trim(raw)) {
        None => seq![],
        Some(ws) => if ws.len() == 0 || !stage_pragmas().contains(ws[0]) {
            seq![]
        } else if ws.len() == 1 {
            seq![
                on_line(
                    idx,
                    find_col(raw, ws[0], 0),
                    blen(raw) as int,
                    1,
                    "Missing entry point function name for '#pragma "@ + ws[0] + "'."@,
                    "shaderlab"@,
                ),
            ]
        } else if fn_names(fs).contains(ws[1]) || (unresolved && known_unity_entry_points().contains(ws[1])) {
            seq![]
        } else {
            let col = find_col(raw, ws[1], find_col(raw, ws[0], 0));
            seq![
                on_line(
                    idx,
                    col,
                    col + blen(ws[1]),
                    1,
                    "Entry point function '"@ + ws[1] + "' declared in '#pragma "@ + ws[0] + " "@ + ws[1]
                        + "' was not found in this shader or included headers."@ + pragma_suggestion(fs, ws[0], ws[1]),
                    "shaderlab"@,
                ),
            ]
        },
    }
}

pub open spec fn pragma_scan(ls: Seq<Seq<char>>, n: int, fs: Seq<FnModel>, unresolved: bool) -> Seq<DiagModel>
    decreases n,
{
    if n <= 0 {
        seq![]
    } else {
        pragma_scan(ls, n - 1, fs, unresolved) + pragma_line_diags(ls[n - 1], n - 1, fs, unresolved)
    }
}

/// The diagnostics on stage pragmas of `content`, given the functions that it
/// and its includes define.
pub open spec fn pragma_diags(content: Seq<char>, fs: Seq<FnModel>) -> Seq<DiagModel> {
    let ls = lines(content);
    pragma_scan(ls, ls.len() as int, fs, has_unresolved_packages(ls))
}

/// `unresolved_include_line` on the line `v[la..lb]`.
fn unresolved_include_exec(v: &[char], la: usize, lb: usize) -> (r: bool)
    requires
        la <= lb <= v@.len(),
    ensures
        r == unresolved_include_line(v@.subrange(la as int, lb as int)),
{
    let (ta, tb) = trim_range(v, la, lb);
    proof {
        assert(v@.subrange(la as int, lb as int).subrange((ta - la) as int, (tb - la) as int) =~= v@.subrange(
            ta as int,
            tb as int,
        ));
    }
    starts_with_str(v, ta, tb, "#include") && (contains_str(v, ta, tb, "Packages/") || contains_str(
        v,
        ta,
        tb,
        "UnityCG",
    ) || contains_str(v, ta, tb, "Core.hlsl"))
}

/// Membership of `v[a..b]` in `stage_pragmas()`.
fn is_stage_pragma(v: &[char], a: usize, b: usize) -> (r: bool)
    requires
        a <= b <= v@.len(),
    ensures
        r == stage_pragmas().contains(v@.subrange(a as int, b as int)),
{
    let ghost w = v@.subrange(a as int, b as int);
    let ghost sp = stage_pragmas();
    let r = eq_str(v, a, b, "vertex") || eq_str(v, a, b, "fragment") || eq_str(v, a, b, "geometry") || eq_str(
        v,
        a,
        b,
        "hull",
    ) || eq_str(v, a, b, "domain") || eq_str(v, a, b, "compute") || eq_str(v, a, b, "kernel") || eq_str(
        v,
        a,
        b,
        "raytracing",
    );
    proof {
        if r {
            if w == "vertex"@ {
                assert(sp[0] == w);
            } else if w == "fragment"@ {
                assert(sp[1] == w);
            } else if w == "geometry"@ {
                assert(sp[2] == w);
            } else if w == "hull"@ {
                assert(sp[3] == w);
            } else if w == "domain"@ {
                assert(sp[4] == w);
            } else if w == "compute"@ {
                assert(sp[5] == w);
            } else if w == "kernel"@ {
                assert(sp[6] == w);
            } else {
                assert(sp[7] == w);
            }
        } else {
            assert forall|k: int| 0 <= k < sp.len() implies sp[k] != w by {
            }
        }
    }
    r
}

/// Membership of `v[a..b]` in `known_unity_entry_points()`.
fn is_known_entry_point(v: &[char], a: usize, b: usize) -> (r: bool)
    requires
        a <= b <= v@.len(),
    ensures
        r == known_unity_entry_points().contains(v@.subrange(a as int, b as int)),
{
    let ghost w = v@.subrange(a as int, b as int);
    let ghost kp = known_unity_entry_points();
    let names: [&str; 13] = [
        "LitPassVertex",
        "LitPassFragment",
        "DepthOnlyVertex",
        "DepthNormalsVertex",
        "ShadowCasterVertex",
        "Universal2DVertex",
        "Universal2DFragment",
        "UnlitPassVertex",
        "UnlitPassFragment",
        "MetaPassVertex",
        "MetaPassFragment",
        "SpriteVert",
        "SpriteFrag",
    ];
    proof {
        assert(names@.map_values(|s: &str| s@) =~= kp);
    }
    let mut k: usize = 0;
    while k < 13
        invariant
            a <= b <= v@.len(),
            w == v@.subrange(a as int, b as int),
            kp == known_unity_entry_points(),
            names@.map_values(|s: &str| s@) == kp,
            k <= 13,
            forall|j: int| 0 <= j < k ==> kp[j] != w,
        decreases 13 - k,
    {
        if eq_str(v, a, b, names[k]) {
            proof {
                assert(kp[k as int] == names@[k as int]@);
            }
            return true;
        }
        proof {
            assert(kp[k as int] == names@[k as int]@);
        }
        k = k + 1;
    }
    false
}

/// Whether some function is named `v[a..b]`.
fn has_function_named(fs: &[FunctionSignature], v: &[char], a: usize, b: usize) -> (r: bool)
    requires
        a <= b <= v@.len(),
    ensures
        r == fn_names(fns_view(fs@)).contains(v@.subrange(a as int, b as int)),
{
    let ghost w = v@.subrange(a as int, b as int);
    let ghost ns = fn_names(fns_view(fs@));
    let mut k: usize = 0;
    while k < fs.len()
        invariant
            a <= b <= v@.len(),
            w == v@.subrange(a as int, b as int),
            ns == fn_names(fns_view(fs@)),
            k <= fs@.len(),
            forall|j: int| 0 <= j < k ==> ns[j] != w,
        decreases fs.len() - k,
    {
        if eq_str(v, a, b, fs[k].name.as_str()) {
            proof {
                assert(ns[k as int] == w);
            }
            return true;
        }
        k = k + 1;
    }
    false
}

/// `similar_name(name, v[a..b])`, where `eb` is the byte length of `v[a..b]`.
fn similar_name_exec(name: &str, v: &[char], a: usize, b: usize, eb: usize) -> (r: bool)
    requires
        a <= b <= v@.len(),
        eb == blen(v@.subrange(a as int, b as int)),
    ensures
        r == similar_name(name@, v@.subrange(a as int, b as int)),
{
    let ghost e = v@.subrange(a as int, b as int);
    let n = to_chars_sized(name);
    let nb = byte_offset(n.as_slice(), n.len());
    proof {
        assert(n@.take(n@.len() as int) =~= n@);
    }
    if eq_ignore_case_ranges(n.as_slice(), 0, n.len(), v, a, b) {
        proof {
            assert(n@.subrange(0, n@.len() as int) =~= n@);
        }
        return true;
    }
    proof {
        assert(n@.subrange(0, n@.len() as int) =~= n@);
    }
    let e_prefix_of_n = b - a <= n.len() && eq_ranges(n.as_slice(), 0, b - a, v, a, b);
    proof {
        if b - a <= n@.len() {
            assert(n@.subrange(0, (b - a) as int) =~= n@.take(e.len() as int));
        }
    }
    if e_prefix_of_n && (nb <= eb || nb - eb <= 3) {
        return true;
    }
    let n_prefix_of_e = n.len() <= b - a && eq_ranges(v, a, a + n.len(), n.as_slice(), 0, n.len());
    proof {
        if n@.len() <= b - a {
            assert(v@.subrange(a as int, a + n@.len()) =~= e.take(n@.len() as int));
        }
    }
    if n_prefix_of_e && (eb <= nb || eb - nb <= 3) {
        return true;
    }
    false
}

/// `stage_candidate(f, v[a..b])`.
fn stage_candidate_exec(f: &FunctionSignature, v: &[char], a: usize, b: usize) -> (r: bool)
    requires
        a <= b <= v@.len(),
    ensures
        r == stage_candidate(f@, v@.subrange(a as int, b as int)),
{
    let n = to_chars(f.name.as_str());
    let l = to_chars(f.label.as_str());
    proof {
        assert(n@.subrange(0, n@.len() as int) =~= n@);
        assert(l@.subrange(0, l@.len() as int) =~= l@);
    }
    if eq_str(v, a, b, "vertex") {
        contains_str(n.as_slice(), 0, n.len(), "vert") || contains_str(n.as_slice(), 0, n.len(), "Vert")
            || contains_str(l.as_slice(), 0, l.len(), "SV_POSITION") || contains_str(
            l.as_slice(),
            0,
            l.len(),
            "positionCS",
        )
    } else if eq_str(v, a, b, "fragment") {
        contains_str(n.as_slice(), 0, n.len(), "frag") || contains_str(n.as_slice(), 0, n.len(), "Frag")
            || contains_str(l.as_slice(), 0, l.len(), "SV_Target")
    } else {
        false
    }
}

/// `pragma_suggestion(fns_view(fs), v[sa..sb], v[ea..eb])`.
fn pragma_suggestion_exec(fs: &[FunctionSignature], v: &[char], sa: usize, sb: usize, ea: usize, eb: usize) -> (r: String)
    requires
        sa <= sb <= v@.len(),
        ea <= eb <= v@.len(),
        blen(v@) <= usize::MAX,
    ensures
        r@ == pragma_suggestion(fns_view(fs@), v@.subrange(sa as int, sb as int), v@.subrange(ea as int, eb as int)),
{
    let ghost fsv = fns_view(fs@);
    let ghost stage = v@.subrange(sa as int, sb as int);
    let ghost e = v@.subrange(ea as int, eb as int);
    let ghost p_sim = |f: FnModel| similar_name(f.name, e);
    let ghost p_cand = |f: FnModel| stage_candidate(f, stage);
    let e_bytes = range_blen(v, ea, eb);
    proof {
        lemma_blen_subrange(v@, ea as int, eb as int);
    }
    let mut k: usize = 0;
    while k < fs.len()
        invariant
            ea <= eb <= v@.len(),
            e == v@.subrange(ea as int, eb as int),
            e_bytes == blen(e),
            fsv == fns_view(fs@),
            p_sim == (|f: FnModel| similar_name(f.name, e)),
            k <= fs@.len(),
            first_where(fsv, p_sim, 0) == first_where(fsv, p_sim, k as int),
        decreases fs.len() - k,
    {
        if similar_name_exec(fs[k].name.as_str(), v, ea, eb, e_bytes) {
            let mut m = String::new();
            push_str(&mut m, " Did you mean '");
            push_str(&mut m, fs[k].name.as_str());
            push_str(&mut m, "'?");
            return m;
        }
        k = k + 1;
    }
    let mut k: usize = 0;
    while k < fs.len()
        invariant
            sa <= sb <= v@.len(),
            stage == v@.subrange(sa as int, sb as int),
            fsv == fns_view(fs@),
            p_cand == (|f: FnModel| stage_candidate(f, stage)),
            first_where(fsv, p_sim, 0) is None,
            e == v@.subrange(ea as int, eb as int),
            p_sim == (|f: FnModel| similar_name(f.name, e)),
            k <= fs@.len(),
            first_where(fsv, p_cand, 0) == first_where(fsv, p_cand, k as int),
        decreases fs.len() - k,
    {
        if stage_candidate_exec(&fs[k], v, sa, sb) {
            proof {
                assert(fsv[k as int] == fs@[k as int]@);
                assert(p_cand(fsv[k as int]));
                assert(first_where(fsv, p_cand, k as int) == Some(k as int));
            }
            let mut m = String::new();
            push_str(&mut m, " Did you mean '");
            push_str(&mut m, fs[k].name.as_str());
            push_str(&mut m, "'?");
            return m;
        }
        k = k + 1;
    }
    String::new()
}

/// Appends the diagnostics of the line `v[la..lb]`, line `idx`.
fn pragma_line_exec(
    out: &mut Vec<Diagnostic>,
    v: &[char],
    la: usize,
    lb: usize,
    idx: usize,
    fs: &[FunctionSignature],
    unresolved: bool,
)
    requires
        la <= lb <= v@.len(),
        blen(v@) <= usize::MAX,
    ensures
        diags_view(final(out)@) == diags_view(old(out)@) + pragma_line_diags(
            v@.subrange(la as int, lb as int),
            idx as int,
            fns_view(fs@),
            unresolved,
        ),
{
    let ghost raw = v@.subrange(la as int, lb as int);
    let ghost d0 = diags_view(out@);
    let ghost fsv = fns_view(fs@);
    let (ta, tb) = trim_range(v, la, lb);
    let ghost t = v@.subrange(ta as int, tb as int);
    if !(starts_with_str(v, ta, tb, "#pragma ") || starts_with_str(v, ta, tb, "#pragma\t")) {
        proof {
            assert(pragma_line_diags(raw, idx as int, fsv, unresolved) =~= seq![]);
            assert(diags_view(out@) =~= d0 + seq![]);
        }
        return;
    }
    proof {
        reveal_strlit("#pragma ");
        reveal_strlit("#pragma\t");
        assert(t.subrange(7, t.len() as int) =~= v@.subrange(ta + 7, tb as int));
    }
    let wr = word_ranges(v, ta + 7, tb);
    let ghost ws = words(v@.subrange(ta + 7, tb as int));
    proof {
        assert(pragma_words(t) == Some(ws));
    }
    if wr.len() == 0 {
        proof {
            assert(diags_view(out@) =~= d0 + seq![]);
        }
        return;
    }
    let (sa, sb) = wr[0];
    proof {
        assert(v@.subrange(sa as int, sb as int) == ws[0]);
    }
    if !is_stage_pragma(v, sa, sb) {
        proof {
            assert(diags_view(out@) =~= d0 + seq![]);
        }
        return;
    }
    if wr.len() == 1 {
        let (col, _) = piece_span(v, la, lb, sa, sb, 0);
        let end = range_blen(v, la, lb);
        let mut m = String::new();
        push_str(&mut m, "Missing entry point function name for '#pragma ");
        push_range(&mut m, v, sa, sb);
        push_str(&mut m, "'.");
        out.push(line_diag(idx, col, end, 1, m, "shaderlab"));
        proof {
            assert(diags_view(out@) =~= d0 + pragma_line_diags(raw, idx as int, fsv, unresolved));
        }
        return;
    }
    let (ea, eb) = wr[1];
    proof {
        assert(v@.subrange(ea as int, eb as int) == ws[1]);
    }
    if has_function_named(fs, v, ea, eb) || (unresolved && is_known_entry_point(v, ea, eb)) {
        proof {
            assert(diags_view(out@) =~= d0 + seq![]);
        }
        return;
    }
    let (scol, _) = piece_span(v, la, lb, sa, sb, 0);
    let (col, end) = piece_span(v, la, lb, ea, eb, scol);
    let mut m = String::new();
    push_str(&mut m, "Entry point function '");
    push_range(&mut m, v, ea, eb);
    push_str(&mut m, "' declared in '#pragma ");
    push_range(&mut m, v, sa, sb);
    push_str(&mut m, " ");
    push_range(&mut m, v, ea, eb);
    push_str(&mut m, "' was not found in this shader or included headers.");
    let sug = pragma_suggestion_exec(fs, v, sa, sb, ea, eb);
    push_str(&mut m, sug.as_str());
    out.push(line_diag(idx, col, end, 1, m, "shaderlab"));
    proof {
        assert(diags_view(out@) =~= d0 + pragma_line_diags(raw, idx as int, fsv, unresolved));
    }
}

/// Whether some line of `content` includes an unreadable package header.
fn has_unresolved_exec(v: &[char], ranges: &Vec<(usize, usize)>) -> (r: bool)
    requires
        ranges_within(ranges@, 0, v@.len() as int),
        ranges_hold(v@, ranges@, lines(v@)),
    ensures
        r == has_unresolved_packages(lines(v@)),
{
    let ghost ls = lines(v@);
    let mut k: usize = 0;
    while k < ranges.len()
        invariant
            ranges_within(ranges@, 0, v@.len() as int),
            ranges_hold(v@, ranges@, ls),
            ls == lines(v@),
            k <= ranges@.len(),
            forall|j: int| 0 <= j < k ==> !unresolved_include_line(#[trigger] ls[j]),
        decreases ranges.len() - k,
    {
        let (la, lb) = ranges[k];
        proof {
            assert(ls[k as int] == v@.subrange(la as int, lb as int));
        }
        if unresolved_include_exec(v, la, lb) {
            return true;
        }
        k = k + 1;
    }
    false
}

/// Diagnostics on the stage pragmas of a shader: a pragma without an entry
/// name, or whose entry point is none of `all_funcs` (the functions of the
/// shader and of its includes) and not a known package entry point while
/// package headers go unread; the message suggests a close function name.
pub fn validate_shader_pragmas(content: &str, all_funcs: &[FunctionSignature]) -> (r: Vec<Diagnostic>)
    ensures
        diags_view(r@) == pragma_diags(content@, fns_view(all_funcs@)),
{
    let (v, ranges) = lines_of(content);
    let ghost ls = lines(v@);
    let ghost fsv = fns_view(all_funcs@);
    let unresolved = has_unresolved_exec(v.as_slice(), &ranges);
    let mut out: Vec<Diagnostic> = Vec::new();
    let mut idx: usize = 0;
    proof {
        assert(diags_view(out@) =~= Seq::<DiagModel>::empty());
    }
    while idx < ranges.len()
        invariant
            v@ == content@,
            ls == lines(v@),
            fsv == fns_view(all_funcs@),
            blen(v@) <= usize::MAX,
            unresolved == has_unresolved_packages(ls),
            ranges_within(ranges@, 0, v@.len() as int),
            ranges_hold(v@, ranges@, ls),
            idx <= ranges@.len(),
            diags_view(out@) == pragma_scan(ls, idx as int, fsv, unresolved),
        decreases ranges.len() - idx,
    {
        let (la, lb) = ranges[idx];
        proof {
            assert(ls[idx as int] == v@.subrange(la as int, lb as int));
        }
        pragma_line_exec(&mut out, v.as_slice(), la, lb, idx, all_funcs, unresolved);
        idx = idx + 1;
    }
    out
}

} // verus!
