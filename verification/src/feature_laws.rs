//! Properties of the editor features stated over all inputs: the severity
//! of compiler diagnostics, the argument index of a call, the elements of a
//! matrix, the hover of a global variable and the file of a function's
//! definition.
use vstd::prelude::*;
use crate::diagnostics::DiagModel;
use crate::dxc_output::{dxc_diags_from, dxc_kind, dxc_line_diag, DxcMapping};
use crate::functions::{encloses, FnModel};
use crate::hover::{first_of, global_hover, hover_text, word_at};
use crate::splits::lines;
use crate::strops::{contains, find, starts_with, trim};
use crate::completion_members::{matrix_items, matrix_row, matrix_rows, matrix_shape, typed_members};
use crate::diagnostics::Range;
use crate::numbers::decimal;
use crate::structs::StructModel;
use crate::variables::VarModel;

verus! {

// ---------------------------------------------------------------------------
// Compiler diagnostics
// ---------------------------------------------------------------------------

/// A DXC output line tagged as a warning and not as an error.
pub open spec fn warning_line(l: Seq<char>) -> bool {
    contains(l, ": warning:"@) && !contains(l, ": error:"@) && !contains(l, ": fatal error:"@)
}

/// A DXC output line tagged as an error.
pub open spec fn error_line(l: Seq<char>) -> bool {
    contains(l, ": error:"@) || contains(l, ": fatal error:"@)
}

proof fn lemma_line_severity(l: Seq<char>, content: Seq<char>, m: DxcMapping)
    ensures
        dxc_line_diag(l, content, m) matches Some(d) ==> (d.severity == 2 <==> warning_line(l)) && (d.severity == 1
            <==> error_line(l)),
{
    match dxc_kind(l) {
        Some((sev, rest, ti, tl)) => {},
        None => {},
    }
}

/// Each diagnostic of DXC's output comes from one of its lines, and its
/// severity follows that line's tag: a warning (and no error tag) gives
/// severity 2, an error or fatal error gives severity 1.
pub proof fn law_dxc_severity_follows_tag(out: Seq<Seq<char>>, content: Seq<char>, m: DxcMapping, k: int)
    requires
        0 <= k,
    ensures
        forall|i: int|
            0 <= i < dxc_diags_from(out, content, m, k).len() ==> exists|j: int|
                k <= j < out.len() && dxc_line_diag(out[j], content, m) == Some(
                    #[trigger] dxc_diags_from(out, content, m, k)[i],
                ) && (dxc_diags_from(out, content, m, k)[i].severity == 2 <==> warning_line(out[j])) && (dxc_diags_from(
                    out,
                    content,
                    m,
                    k,
                )[i].severity == 1 <==> error_line(out[j])),
    decreases out.len() - k,
{
    if k < out.len() {
        law_dxc_severity_follows_tag(out, content, m, k + 1);
        lemma_line_severity(out[k], content, m);
        let rest = dxc_diags_from(out, content, m, k + 1);
        let all = dxc_diags_from(out, content, m, k);
        match dxc_line_diag(out[k], content, m) {
            Some(d) => {
                assert(all == seq![d] + rest);
                assert forall|i: int| 0 <= i < all.len() implies exists|j: int|
                    k <= j < out.len() && dxc_line_diag(out[j], content, m) == Some(#[trigger] all[i]) && (all[i].severity
                        == 2 <==> warning_line(out[j])) && (all[i].severity == 1 <==> error_line(out[j])) by {
                    if i == 0 {
                        assert(all[0] == d);
                    } else {
                        assert(all[i] == rest[i - 1]);
                        let j = choose|j: int|
                            k + 1 <= j < out.len() && dxc_line_diag(out[j], content, m) == Some(#[trigger] rest[i - 1])
                                && (rest[i - 1].severity == 2 <==> warning_line(out[j])) && (rest[i - 1].severity == 1
                                <==> error_line(out[j]));
                        assert(k <= j);
                    }
                }
            },
            None => {
                assert forall|i: int| 0 <= i < all.len() implies exists|j: int|
                    k <= j < out.len() && dxc_line_diag(out[j], content, m) == Some(#[trigger] all[i]) && (all[i].severity
                        == 2 <==> warning_line(out[j])) && (all[i].severity == 1 <==> error_line(out[j])) by {
                    assert(all[i] == rest[i]);
                    let j = choose|j: int|
                        k + 1 <= j < out.len() && dxc_line_diag(out[j], content, m) == Some(#[trigger] rest[i]) && (
                        rest[i].severity == 2 <==> warning_line(out[j])) && (rest[i].severity == 1 <==> error_line(
                            out[j]));
                    assert(k <= j);
                }
            },
        }
    }
}

proof fn lemma_first_of_some<T>(s: Seq<T>, p: spec_fn(T) -> bool, k: int)
    requires
        0 <= k,
    ensures
        first_of(s, p, k) matches Some(i) ==> k <= i < s.len() && p(s[i]),
    decreases s.len() - k,
{
    if k < s.len() && !p(s[k]) {
        lemma_first_of_some(s, p, k + 1);
    }
}

// ---------------------------------------------------------------------------
// Hover of a global variable
// ---------------------------------------------------------------------------

proof fn lemma_trim_keeps_prefix(p: Seq<char>, q: Seq<char>)
    requires
        p.len() > 0,
        !crate::text::is_ws(p[0]),
        !crate::text::is_ws(p.last()),
    ensures
        starts_with(trim(p + q), p),
        q.len() == 0 ==> trim(p + q) == p,
{
    let s = p + q;
    assert(s[0] == p[0]);
    assert(crate::strops::lead_ws(s) == 0);
    assert(crate::strops::trim_start(s) =~= s);
    assert(s.subrange(0, p.len() as int) =~= p);
    lemma_trail_ws_within(s, q.len() as int, p);
    let t = trim(s);
    assert(t == s.subrange(0, s.len() - crate::strops::trail_ws(s)));
    assert(t.subrange(0, p.len() as int) =~= p);
    if q.len() == 0 {
        assert(s =~= p);
        assert(crate::strops::trail_ws(s) == 0);
        assert(t =~= p);
    }
}

proof fn lemma_trail_ws_within(s: Seq<char>, n: int, p: Seq<char>)
    requires
        0 <= n,
        s.len() == p.len() + n,
        p.len() > 0,
        s.subrange(0, p.len() as int) == p,
        !crate::text::is_ws(p.last()),
    ensures
        crate::strops::trail_ws(s) <= n,
    decreases n,
{
    assert(s[p.len() - 1] == p.last());
    if n > 0 && crate::text::is_ws(s.last()) {
        assert(s.drop_last().subrange(0, p.len() as int) =~= p);
        lemma_trail_ws_within(s.drop_last(), n - 1, p);
    }
}

/// The hover of a word that is a global variable, and no intrinsic,
/// semantic, engine variable or user function, opens with an HLSL code
/// block holding the variable's declared type, a space and its name (and
/// is just that block when the variable has no documentation).
pub proof fn law_global_hover_shows_declared_type(
    w: Seq<char>,
    fs: Seq<FnModel>,
    vs: Seq<VarModel>,
    ss: Seq<crate::structs::StructModel>,
    ps: Seq<crate::props::PropModel>,
    k: int,
)
    requires
        forall|i: int| 0 <= i < crate::builtin_table::builtin_table().len() ==> #[trigger] crate::builtin_table::builtin_table()[i].name != w,
        crate::hover::semantic_named(w) is None,
        forall|i: int| 0 <= i < crate::engine_table::engine_table().len() ==> #[trigger] crate::engine_table::engine_table()[i].name != w,
        forall|i: int| 0 <= i < fs.len() ==> #[trigger] fs[i].name != w,
        0 <= k < vs.len(),
        vs[k].name == w,
        forall|i: int| 0 <= i < k ==> #[trigger] vs[i].name != w,
    ensures
        global_hover(w, fs, vs, ss, ps) matches Some(h) && starts_with(
            h,
            "```hlsl\n"@ + vs[k].var_type + " "@ + w + "\n```"@,
        ) && (vs[k].doc is None ==> h == "```hlsl\n"@ + vs[k].var_type + " "@ + w + "\n```"@),
{
    lemma_global_hover_reaches_variable(w, fs, vs, ss, ps, k);
    reveal_strlit("```hlsl\n");
    reveal_strlit("\n```");
    let p = "```hlsl\n"@ + vs[k].var_type + " "@ + w + "\n```"@;
    let q = crate::hover::doc_part(vs[k].doc);
    assert(p[0] == '`');
    assert(p.last() == '`');
    lemma_trim_keeps_prefix(p, q);
}

proof fn lemma_global_hover_reaches_variable(
    w: Seq<char>,
    fs: Seq<FnModel>,
    vs: Seq<VarModel>,
    ss: Seq<crate::structs::StructModel>,
    ps: Seq<crate::props::PropModel>,
    k: int,
)
    requires
        forall|i: int| 0 <= i < crate::builtin_table::builtin_table().len() ==> #[trigger] crate::builtin_table::builtin_table()[i].name != w,
        crate::hover::semantic_named(w) is None,
        forall|i: int| 0 <= i < crate::engine_table::engine_table().len() ==> #[trigger] crate::engine_table::engine_table()[i].name != w,
        forall|i: int| 0 <= i < fs.len() ==> #[trigger] fs[i].name != w,
        0 <= k < vs.len(),
        vs[k].name == w,
        forall|i: int| 0 <= i < k ==> #[trigger] vs[i].name != w,
    ensures
        global_hover(w, fs, vs, ss, ps) == Some(crate::hover::var_md(vs[k])),
{
    let bt = crate::builtin_table::builtin_table();
    assert(!crate::docs::function_names(bt).contains(w)) by {
        if crate::docs::function_names(bt).contains(w) {
            let i = choose|i: int| 0 <= i < crate::docs::function_names(bt).len() && crate::docs::function_names(bt)[i] == w;
            assert(crate::docs::function_names(bt)[i] == bt[i].name);
        }
    }
    assert(crate::help::builtin_named(w) is None);
    crate::hover::lemma_no_engine_named(w);
    crate::hover::lemma_first_of_none(fs, |f: FnModel| f.name == w, 0);
    crate::hover::lemma_first_of_at(vs, |v: VarModel| v.name == w, k, 0);
    assert(first_of(fs, |f: FnModel| f.name == w, 0) is None);
    assert(first_of(vs, |v: VarModel| v.name == w, 0) == Some(k));
}

/// On the word of a global variable, outside the scope of any parameter or
/// local of that name, the hover shows the variable's declared type and name.
pub proof fn law_hover_of_global_variable(
    text: Seq<char>,
    line: int,
    col: int,
    fs: Seq<FnModel>,
    vs: Seq<VarModel>,
    ss: Seq<crate::structs::StructModel>,
    k: int,
)
    requires
        0 <= line < lines(text).len(),
        word_at(lines(text)[line], col).len() > 0,
        forall|i: int, j: int|
            0 <= i < fs.len() && encloses(fs[i], line) && 0 <= j < fs[i].parsed_params.len() ==> #[trigger] fs[i].parsed_params[j].name
                != word_at(lines(text)[line], col),
        forall|i: int, j: int|
            0 <= i < fs.len() && encloses(fs[i], line) && 0 <= j < fs[i].local_vars.len() ==> #[trigger] fs[i].local_vars[j].name
                != word_at(lines(text)[line], col),
        forall|i: int| 0 <= i < crate::builtin_table::builtin_table().len() ==> #[trigger] crate::builtin_table::builtin_table()[i].name != word_at(lines(text)[line], col),
        crate::hover::semantic_named(word_at(lines(text)[line], col)) is None,
        forall|i: int| 0 <= i < crate::engine_table::engine_table().len() ==> #[trigger] crate::engine_table::engine_table()[i].name != word_at(lines(text)[line], col),
        forall|i: int| 0 <= i < fs.len() ==> #[trigger] fs[i].name != word_at(lines(text)[line], col),
        0 <= k < vs.len(),
        vs[k].name == word_at(lines(text)[line], col),
        forall|i: int| 0 <= i < k ==> #[trigger] vs[i].name != word_at(lines(text)[line], col),
    ensures
        hover_text(text, line, col, fs, vs, ss) matches Some(h) && starts_with(
            h,
            "```hlsl\n"@ + vs[k].var_type + " "@ + vs[k].name + "\n```"@,
        ) && (vs[k].doc is None ==> h == "```hlsl\n"@ + vs[k].var_type + " "@ + vs[k].name + "\n```"@),
{
    let w = word_at(lines(text)[line], col);
    match first_of(fs, |f: FnModel| encloses(f, line), 0) {
        Some(fi) => {
            lemma_first_of_some(fs, |f: FnModel| encloses(f, line), 0);
            let f = fs[fi];
            crate::hover::lemma_first_of_none(f.parsed_params, |p: crate::decls::ParamModel| p.name == w, 0);
            crate::hover::lemma_first_of_none(f.local_vars, |v: crate::decls::LocalModel| v.name == w, 0);
        },
        None => {},
    }
    law_global_hover_shows_declared_type(w, fs, vs, ss, crate::props::shaderlab_properties(text), k);
}

// ---------------------------------------------------------------------------
// Definition of a user function
// ---------------------------------------------------------------------------

/// On the word of a user function, outside the scope of any parameter or
/// local of that name and on no `#include` line, the definition is the
/// function's name where it is declared, in the function's own file: its
/// `file_uri`, and the document's URI only when it has none.
pub proof fn law_function_definition_in_its_own_file(
    text: Seq<char>,
    uri: Seq<char>,
    line: int,
    col: int,
    keys: Seq<Seq<char>>,
    include_hit: Option<Seq<char>>,
    fs: Seq<FnModel>,
    vs: Seq<VarModel>,
    ss: Seq<crate::structs::StructModel>,
    k: int,
)
    requires
        0 <= line < lines(text).len(),
        crate::includes::include_target(lines(text)[line]) is None,
        word_at(lines(text)[line], col).len() > 0,
        forall|i: int, j: int|
            0 <= i < fs.len() && encloses(fs[i], line) && 0 <= j < fs[i].parsed_params.len() ==> #[trigger] fs[i].parsed_params[j].name
                != word_at(lines(text)[line], col),
        forall|i: int, j: int|
            0 <= i < fs.len() && encloses(fs[i], line) && 0 <= j < fs[i].local_vars.len() ==> #[trigger] fs[i].local_vars[j].name
                != word_at(lines(text)[line], col),
        0 <= k < fs.len(),
        fs[k].name == word_at(lines(text)[line], col),
        forall|i: int| 0 <= i < k ==> #[trigger] fs[i].name != word_at(lines(text)[line], col),
    ensures
        crate::definition::definition_of(text, uri, line, col, keys, include_hit, fs, vs, ss) matches Some(loc) && loc.uri
            == (match fs[k].file_uri {
            Some(u) => u,
            None => uri,
        }) && loc.range.start.line == fs[k].line as usize && loc.range.start.character == fs[k].col as usize,
{
    let w = word_at(lines(text)[line], col);
    match first_of(fs, |f: FnModel| encloses(f, line), 0) {
        Some(fi) => {
            lemma_first_of_some(fs, |f: FnModel| encloses(f, line), 0);
            let f = fs[fi];
            crate::hover::lemma_first_of_none(f.parsed_params, |p: crate::decls::ParamModel| p.name == w, 0);
            crate::hover::lemma_first_of_none(f.local_vars, |v: crate::decls::LocalModel| v.name == w, 0);
        },
        None => {},
    }
    crate::hover::lemma_first_of_at(fs, |f: FnModel| f.name == w, k, 0);
}

} // verus!

verus! {

// ---------------------------------------------------------------------------
// The argument index of a call
// ---------------------------------------------------------------------------

/// A character that opens or closes nothing: no quote, parenthesis,
/// bracket or brace.
pub open spec fn plain_char(c: char) -> bool {
    c != '"' && c != '(' && c != ')' && c != '[' && c != ']' && c != '{' && c != '}'
}

/// Every character of `s[a..b]` is plain.
pub open spec fn plain_run(s: Seq<char>, a: int, b: int) -> bool {
    forall|j: int| a <= j < b ==> plain_char(#[trigger] s[j])
}

proof fn lemma_count_char_cons(x: Seq<char>, c: char)
    requires
        x.len() > 0,
    ensures
        crate::strops::count_char(x, c) == (if x[0] == c { 1nat } else { 0nat }) + crate::strops::count_char(
            x.drop_first(),
            c,
        ),
    decreases x.len(),
{
    if x.len() > 1 {
        lemma_count_char_cons(x.drop_last(), c);
        assert(x.drop_last().drop_first() =~= x.drop_first().drop_last());
        assert(x.drop_first().last() == x.last());
        assert(x.drop_last()[0] == x[0]);
        assert(crate::strops::count_char(x.drop_first(), c) == crate::strops::count_char(x.drop_first().drop_last(), c)
            + if x.drop_first().last() == c { 1nat } else { 0nat });
    } else {
        assert(x.drop_last().len() == 0);
        assert(x.drop_first().len() == 0);
        assert(x.last() == x[0]);
        assert(crate::strops::count_char(x.drop_last(), c) == 0);
        assert(crate::strops::count_char(x.drop_first(), c) == 0);
    }
}

/// A plain run adds its commas to the count at the top level, and nothing
/// inside an open group.
proof fn lemma_plain_run_count(s: Seq<char>, i: int, m: int, end: int, pd: nat)
    requires
        0 <= i <= m <= end <= s.len(),
        plain_run(s, i, m),
    ensures
        crate::lexer::count_args(s, i, end, pd, 0, 0, false) == (if pd == 0 {
            crate::strops::count_char(s.subrange(i, m), ',')
        } else {
            0nat
        }) + crate::lexer::count_args(s, m, end, pd, 0, 0, false),
    decreases m - i,
{
    if i < m {
        lemma_plain_run_count(s, i + 1, m, end, pd);
        lemma_count_char_cons(s.subrange(i, m), ',');
        assert(s.subrange(i, m).drop_first() =~= s.subrange(i + 1, m));
        assert(s.subrange(i, m)[0] == s[i]);
        assert(plain_char(s[i]));
    } else {
        assert(s.subrange(i, m).len() == 0);
    }
}

/// Where the arguments after a call's `(` hold no quote, bracket, brace or
/// parenthesis, the argument index is the number of commas.
pub proof fn law_argument_index_counts_commas(s: Seq<char>, i: int, end: int)
    requires
        0 <= i <= end <= s.len(),
        plain_run(s, i, end),
    ensures
        crate::lexer::count_args(s, i, end, 0, 0, 0, false) == crate::strops::count_char(s.subrange(i, end), ','),
{
    lemma_plain_run_count(s, i, end, end, 0);
}

/// A nested call's parenthesised arguments do not move the argument index:
/// for `a (g) b` after a call's `(`, with `a`, `g` and `b` holding no quote,
/// bracket, brace or parenthesis, the index counts the commas of `a` and `b`
/// only.
pub proof fn law_nested_call_commas_not_counted(s: Seq<char>, i: int, o: int, c: int, end: int)
    requires
        0 <= i <= o < c < end <= s.len(),
        s[o] == '(',
        s[c] == ')',
        plain_run(s, i, o),
        plain_run(s, o + 1, c),
        plain_run(s, c + 1, end),
    ensures
        crate::lexer::count_args(s, i, end, 0, 0, 0, false) == crate::strops::count_char(s.subrange(i, o), ',')
            + crate::strops::count_char(s.subrange(c + 1, end), ','),
{
    lemma_plain_run_count(s, i, o, end, 0);
    lemma_plain_run_count(s, o + 1, c, end, 1);
    lemma_plain_run_count(s, c + 1, end, end, 0);
}

} // verus!

verus! {

// ---------------------------------------------------------------------------
// Matrix elements
// ---------------------------------------------------------------------------

/// The digit that names a matrix dimension of 2, 3 or 4.
pub open spec fn dim_char(n: nat) -> char {
    if n == 2 {
        '2'
    } else if n == 3 {
        '3'
    } else {
        '4'
    }
}

/// The part `RxC` of a matrix type's name.
pub open spec fn shape_name(r: nat, c: nat) -> Seq<char> {
    seq![dim_char(r), 'x', dim_char(c)]
}

/// The matrix shapes whose names member completion recognises.
pub open spec fn known_shape(r: nat, c: nat) -> bool {
    (r == 4 && c == 4) || (r == 3 && c == 3) || (r == 2 && c == 2) || (r == 4 && c == 3) || (r == 3 && c == 4)
}

proof fn lemma_matrix_rows_at(first: nat, n: nat, cols: nat, base: nat, one_based: bool, range: Range)
    ensures
        matrix_rows(first, n, cols, base, one_based, range).len() == n * cols,
        forall|i: nat, j: nat|
            i < n && j < cols ==> #[trigger] matrix_rows(first, n, cols, base, one_based, range)[(i * cols + j) as int]
                == matrix_row(first + i, cols, base + i * cols, one_based, range)[j as int],
    decreases n,
{
    let all = matrix_rows(first, n, cols, base, one_based, range);
    if n > 0 {
        lemma_matrix_rows_at(first + 1, (n - 1) as nat, cols, base + cols, one_based, range);
        let head = matrix_row(first, cols, base, one_based, range);
        let rest = matrix_rows(first + 1, (n - 1) as nat, cols, base + cols, one_based, range);
        assert(all == head + rest);
        assert(n * cols == cols + (n - 1) * cols) by (nonlinear_arith);
        assert forall|i: nat, j: nat| i < n && j < cols implies #[trigger] all[(i * cols + j) as int] == matrix_row(
            first + i,
            cols,
            base + i * cols,
            one_based,
            range,
        )[j as int] by {
            if i == 0 {
                assert(i * cols == 0);
            } else {
                let i1 = (i - 1) as nat;
                assert(i * cols + j == cols + (i1 * cols + j)) by (nonlinear_arith)
                    requires i1 == i - 1;
                assert(i1 * cols + j < (n - 1) * cols) by (nonlinear_arith)
                    requires i1 < n - 1, j < cols;
                assert(all[(i * cols + j) as int] == rest[(i1 * cols + j) as int]);
                assert(first + 1 + i1 == first + i);
                assert(base + cols + i1 * cols == base + i * cols) by (nonlinear_arith)
                    requires i1 == i - 1;
            }
        }
    }
}

/// For a matrix type that names `r` rows and `c` columns (`floatRxC`, of a
/// shape that is recognised, and of no other), member completion offers
/// exactly `2 * r * c` elements: first `_mIJ` for each row `I < r` and column
/// `J < c`, row by row, then `_IJ` for each row `1 <= I <= r` and column
/// `1 <= J <= c`.
pub proof fn law_matrix_elements(t: Seq<char>, ss: Seq<StructModel>, range: Range, r: nat, c: nat)
    requires
        known_shape(r, c),
        contains(t, shape_name(r, c)),
        forall|r2: nat, c2: nat|
            known_shape(r2, c2) && !(r2 == r && c2 == c) ==> !contains(t, #[trigger] shape_name(r2, c2)),
        t != "matrix"@,
        forall|i: int| 0 <= i < ss.len() ==> #[trigger] ss[i].name != t,
        !starts_with(t, "RWTexture"@),
        !starts_with(t, "Texture"@),
        !contains(t, "Buffer"@),
    ensures
        typed_members(t, ss, range) matches Some(items) && items.len() == 2 * r * c && (forall|i: nat, j: nat|
            #![trigger decimal(i), decimal(j)]
            i < r && j < c ==> items[(i * c + j) as int].label == "_m"@ + decimal(i) + decimal(j)
                && items[(r * c + i * c + j) as int].label == "_"@ + decimal(i + 1) + decimal(j + 1)),
{
    reveal_strlit("4x4");
    reveal_strlit("3x3");
    reveal_strlit("2x2");
    reveal_strlit("4x3");
    reveal_strlit("3x4");
    reveal_strlit("x");
    assert("4x4"@ =~= shape_name(4, 4));
    assert("3x3"@ =~= shape_name(3, 3));
    assert("2x2"@ =~= shape_name(2, 2));
    assert("4x3"@ =~= shape_name(4, 3));
    assert("3x4"@ =~= shape_name(3, 4));
    assert(known_shape(4, 4) && known_shape(3, 3) && known_shape(2, 2) && known_shape(4, 3) && known_shape(3, 4));
    assert(matrix_shape(t) == (r, c));
    // the type holds an `x`, so it reads as a matrix
    let sh = shape_name(r, c);
    crate::cursor::lemma_find_from_ge(t, sh, 0);
    let k = find(t, sh)->0;
    assert(t.subrange(k, k + 3) == sh);
    assert(t.subrange(k + 1, k + 2) =~= "x"@);
    crate::diagnostics::lemma_find_some(t, "x"@, k + 1);
    lemma_first_of_none_structs(ss, t);
    let items = matrix_items(t, range);
    assert(typed_members(t, ss, range) == Some(items));
    lemma_matrix_rows_at(0, r, c, 0, false, range);
    lemma_matrix_rows_at(1, r, c, r * c, true, range);
    let zero = matrix_rows(0, r, c, 0, false, range);
    let one = matrix_rows(1, r, c, r * c, true, range);
    assert(items.len() == 2 * r * c) by (nonlinear_arith)
        requires items.len() == zero.len() + one.len(), zero.len() == r * c, one.len() == r * c;
    assert forall|i: nat, j: nat| #![trigger decimal(i), decimal(j)] i < r && j < c implies items[(i * c + j) as int].label
        == "_m"@ + decimal(i) + decimal(j) && items[(r * c + i * c + j) as int].label == "_"@ + decimal(i + 1) + decimal(
        j + 1) by {
        assert(i * c + j < r * c) by (nonlinear_arith)
            requires i < r, j < c;
        assert(items[(i * c + j) as int] == zero[(i * c + j) as int]);
        assert(zero[(i * c + j) as int] == matrix_row(i, c, i * c, false, range)[j as int]);
        assert(items[(r * c + i * c + j) as int] == one[(i * c + j) as int]);
        assert(one[(i * c + j) as int] == matrix_row(1 + i, c, r * c + i * c, true, range)[j as int]);
    }
}

proof fn lemma_first_of_none_structs(ss: Seq<StructModel>, t: Seq<char>)
    requires
        forall|i: int| 0 <= i < ss.len() ==> #[trigger] ss[i].name != t,
    ensures
        forall|p: spec_fn(StructModel) -> bool|
            (forall|s: StructModel| #[trigger] p(s) ==> s.name == t) ==> (#[trigger] first_of(ss, p, 0)) is None,
{
    assert forall|p: spec_fn(StructModel) -> bool|
        (forall|s: StructModel| #[trigger] p(s) ==> s.name == t) implies (#[trigger] first_of(ss, p, 0)) is None by {
        lemma_first_of_some(ss, p, 0);
        if let Some(i) = first_of(ss, p, 0) {
            assert(p(ss[i]));
            assert(ss[i].name != t);
        }
    }
}

} // verus!
