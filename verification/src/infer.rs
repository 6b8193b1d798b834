//! The declared type of a variable at a line of a text.
use vstd::prelude::*;
use crate::cursor::{is_identifier_range, valid_identifier};
use crate::decls::{LocalModel, ParamModel};
use crate::functions::{
    encloses, find_enclosing_function, fn_scan_well_formed, fns_view, scan_user_functions, user_functions, FnModel,
};
use crate::splits::{
    before_any, before_any_range, lemma_pieces, lines, lines_of, pieces, ranges_hold, ranges_within, split_on,
    split_ranges, trim_end_set, trim_end_set_range, word_ranges, words,
};
use crate::strops::{
    contains, contains_char, ends_with, ends_with_char, eq_ranges, find, find_chars,
    find_char, starts_with, starts_with_str, trim, trim_range,
};
use crate::text::{opt_view, range_string, str_string, to_chars};
use crate::variables::{scan_user_variables, user_variables, vars_view, VarModel};

verus! {

/// The type that a declaration's words give `name`: the first word from `k`
/// on whose part before `:` or `[` is `name`, when the word before it (up to
/// `:` or `<`) is an identifier.
pub open spec fn decl_type_from(toks: Seq<Seq<char>>, name: Seq<char>, k: int) -> Option<Seq<char>>
    decreases toks.len() - k,
{
    if 0 <= k < toks.len() {
        let ty = if k > 0 {
            trim(before_any(toks[k - 1], seq![':', '<']))
        } else {
            Seq::empty()
        };
        if k > 0 && trim(before_any(toks[k], seq![':', '['])) == name && valid_identifier(ty) {
            Some(ty)
        } else {
            decl_type_from(toks, name, k + 1)
        }
    } else {
        None
    }
}

/// The type that a parameter list gives `name`: the first entry from `k` on
/// (its part before `:`) of at least two words whose last word is `name` and
/// whose word before it is an identifier.
pub open spec fn param_type_from(ps: Seq<Seq<char>>, name: Seq<char>, k: int) -> Option<Seq<char>>
    decreases ps.len() - k,
{
    if 0 <= k < ps.len() {
        let toks = words(trim(before_any(ps[k], seq![':'])));
        if toks.len() >= 2 && trim(toks.last()) == name && valid_identifier(trim(toks[toks.len() - 2])) {
            Some(trim(toks[toks.len() - 2]))
        } else {
            param_type_from(ps, name, k + 1)
        }
    } else {
        None
    }
}

/// The type that one trimmed line gives `name`, as a declaration
/// (`Type name;`, `Type name = ..`) or else as a parameter of a signature.
pub open spec fn line_type(line: Seq<char>, name: Seq<char>) -> Option<Seq<char>> {
    if starts_with(line, "//"@) {
        None
    } else {
        let by_decl = if contains(line, name) && (ends_with(line, seq![';']) || contains(line, seq!['='])) {
            decl_type_from(words(trim(before_any(trim_end_set(line, seq![';']), seq!['=']))), name, 0)
        } else {
            None
        };
        if by_decl is Some {
            by_decl
        } else if contains(line, name) && contains(line, seq!['(']) {
            match find(line, seq!['(']) {
                Some(o) => param_type_from(
                    split_on(before_any(line.subrange(o + 1, line.len() as int), seq![')']), ','),
                    name,
                    0,
                ),
                None => None,
            }
        } else {
            None
        }
    }
}

/// The type that the lines before `i` give `name`, the nearest line first.
pub open spec fn backward_type(ls: Seq<Seq<char>>, name: Seq<char>, i: int) -> Option<Seq<char>>
    decreases i,
{
    if i <= 0 {
        None
    } else {
        match line_type(trim(ls[i - 1]), name) {
            Some(t) => Some(t),
            None => backward_type(ls, name, i - 1),
        }
    }
}

/// Index of the first function from `k` on whose span holds `line`.
pub open spec fn enclosing_index(fs: Seq<FnModel>, line: int, k: int) -> Option<int>
    decreases fs.len() - k,
{
    if 0 <= k < fs.len() {
        if encloses(fs[k], line) {
            Some(k)
        } else {
            enclosing_index(fs, line, k + 1)
        }
    } else {
        None
    }
}

/// Type of the first parameter from `k` on named `name`.
pub open spec fn param_named(ps: Seq<ParamModel>, name: Seq<char>, k: int) -> Option<Seq<char>>
    decreases ps.len() - k,
{
    if 0 <= k < ps.len() {
        if ps[k].name == name {
            Some(ps[k].param_type)
        } else {
            param_named(ps, name, k + 1)
        }
    } else {
        None
    }
}

/// Type of the first local variable from `k` on named `name` and declared
/// at or before `line`.
pub open spec fn local_named(vs: Seq<LocalModel>, name: Seq<char>, line: int, k: int) -> Option<Seq<char>>
    decreases vs.len() - k,
{
    if 0 <= k < vs.len() {
        if vs[k].line <= line && vs[k].name == name {
            Some(vs[k].var_type)
        } else {
            local_named(vs, name, line, k + 1)
        }
    } else {
        None
    }
}

/// Type of the first global variable from `k` on named `name`.
pub open spec fn global_named(vs: Seq<VarModel>, name: Seq<char>, k: int) -> Option<Seq<char>>
    decreases vs.len() - k,
{
    if 0 <= k < vs.len() {
        if vs[k].name == name {
            Some(vs[k].var_type)
        } else {
            global_named(vs, name, k + 1)
        }
    } else {
        None
    }
}

/// The type of `name` at line `cursor`: a parameter or earlier local of the
/// function around the line, else a global, else what the nearest earlier
/// line declares.
pub open spec fn inferred_type(text: Seq<char>, name: Seq<char>, cursor: int) -> Option<Seq<char>> {
    let fs = user_functions(text, None, None);
    let in_fn = match enclosing_index(fs, cursor, 0) {
        Some(i) => match param_named(fs[i].parsed_params, name, 0) {
            Some(t) => Some(t),
            None => local_named(fs[i].local_vars, name, cursor, 0),
        },
        None => None,
    };
    if in_fn is Some {
        in_fn
    } else {
        match global_named(user_variables(text, None, None, fs), name, 0) {
            Some(t) => Some(t),
            None => backward_type(
                lines(text),
                name,
                if cursor < lines(text).len() {
                    cursor
                } else {
                    lines(text).len() as int
                },
            ),
        }
    }
}

} // verus!

verus! {

/// `decl_type_from` over words given as ranges of `v`.
fn decl_type_exec(v: &[char], toks: &Vec<(usize, usize)>, pat: &[char]) -> (r: Option<String>)
    requires
        ranges_within(toks@, 0, v@.len() as int),
    ensures
        opt_view(r) == decl_type_from(pieces(v@, toks@), pat@, 0),
{
    let ghost ts = pieces(v@, toks@);
    let mut k: usize = 0;
    while k < toks.len()
        invariant
            k <= toks@.len(),
            ranges_within(toks@, 0, v@.len() as int),
            ts == pieces(v@, toks@),
            decl_type_from(ts, pat@, 0) == decl_type_from(ts, pat@, k as int),
        decreases toks.len() - k,
    {
        if k > 0 {
            let (xa, xb) = toks[k];
            let ne = before_any_range(v, xa, xb, &[':', '[']);
            let (na, nb) = trim_range(v, xa, ne);
            let (ya, yb) = toks[k - 1];
            let te = before_any_range(v, ya, yb, &[':', '<']);
            let (ka, kb) = trim_range(v, ya, te);
            proof {
                assert(seq![':', '['] =~= [':', '[']@);
                assert(seq![':', '<'] =~= [':', '<']@);
                assert(ts[k as int] == v@.subrange(xa as int, xb as int));
                assert(ts[k - 1] == v@.subrange(ya as int, yb as int));
            }
            if eq_ranges(v, na, nb, pat, 0, pat.len()) && is_identifier_range(v, ka, kb) {
                proof {
                    assert(pat@.subrange(0, pat@.len() as int) =~= pat@);
                }
                return Some(range_string(v, ka, kb));
            }
            proof {
                assert(pat@.subrange(0, pat@.len() as int) =~= pat@);
            }
        }
        k = k + 1;
    }
    None
}

/// `param_type_from` over entries given as ranges of `v`.
fn param_type_exec(v: &[char], ps: &Vec<(usize, usize)>, pat: &[char]) -> (r: Option<String>)
    requires
        ranges_within(ps@, 0, v@.len() as int),
    ensures
        opt_view(r) == param_type_from(pieces(v@, ps@), pat@, 0),
{
    let ghost qs = pieces(v@, ps@);
    proof {
        assert(seq![':'] =~= [':']@);
        assert(pat@.subrange(0, pat@.len() as int) =~= pat@);
    }
    let mut k: usize = 0;
    while k < ps.len()
        invariant
            k <= ps@.len(),
            ranges_within(ps@, 0, v@.len() as int),
            qs == pieces(v@, ps@),
            pat@.subrange(0, pat@.len() as int) == pat@,
            seq![':'] == [':']@,
            param_type_from(qs, pat@, 0) == param_type_from(qs, pat@, k as int),
        decreases ps.len() - k,
    {
        let (pa, pb) = ps[k];
        let ce = before_any_range(v, pa, pb, &[':']);
        let (ca, cb) = trim_range(v, pa, ce);
        let toks = word_ranges(v, ca, cb);
        let n = toks.len();
        proof {
            assert(qs[k as int] == v@.subrange(pa as int, pb as int));
        }
        if n >= 2 {
            let (xa, xb) = toks[n - 1];
            let (na, nb) = trim_range(v, xa, xb);
            let (ya, yb) = toks[n - 2];
            let (ka, kb) = trim_range(v, ya, yb);
            if eq_ranges(v, na, nb, pat, 0, pat.len()) && is_identifier_range(v, ka, kb) {
                return Some(range_string(v, ka, kb));
            }
        }
        k = k + 1;
    }
    None
}

/// `line_type` of the trimmed line `v[ta..tb]`.
fn line_type_exec(v: &[char], ta: usize, tb: usize, pat: &[char]) -> (r: Option<String>)
    requires
        ta <= tb <= v@.len(),
    ensures
        opt_view(r) == line_type(v@.subrange(ta as int, tb as int), pat@),
{
    let ghost line = v@.subrange(ta as int, tb as int);
    if starts_with_str(v, ta, tb, "//") {
        return None;
    }
    let has_name = find_chars(v, ta, tb, pat).is_some();
    proof {
        assert(seq![';'] =~= [';']@);
        assert(seq!['='] =~= ['=']@);
        assert(seq![')'] =~= [')']@);
    }
    if has_name && (ends_with_char(v, ta, tb, ';') || contains_char(v, ta, tb, '=')) {
        let ce = trim_end_set_range(v, ta, tb, &[';']);
        let de = before_any_range(v, ta, ce, &['=']);
        let (da, db) = trim_range(v, ta, de);
        let toks = word_ranges(v, da, db);
        proof {
            lemma_pieces(v@, toks@, words(v@.subrange(da as int, db as int)));
        }
        let t = decl_type_exec(v, &toks, pat);
        if t.is_some() {
            return t;
        }
    }
    if has_name && contains_char(v, ta, tb, '(') {
        match find_char(v, ta, tb, '(') {
            Some(o) => {
                let pe = before_any_range(v, ta + o + 1, tb, &[')']);
                let ps = split_ranges(v, ta + o + 1, pe, ',');
                proof {
                    assert(line.subrange(o + 1, line.len() as int) =~= v@.subrange(ta + o + 1, tb as int));
                    lemma_pieces(v@, ps@, split_on(v@.subrange(ta + o + 1, pe as int), ','));
                }
                return param_type_exec(v, &ps, pat);
            },
            None => {
                return None;
            },
        }
    }
    None
}

} // verus!

verus! {

proof fn lemma_enclosing_found(fs: Seq<FnModel>, line: int, k: int, i: int)
    requires
        0 <= k <= i < fs.len(),
        encloses(fs[i], line),
        forall|j: int| k <= j < i ==> !encloses(#[trigger] fs[j], line),
    ensures
        enclosing_index(fs, line, k) == Some(i),
    decreases i - k,
{
    if k < i {
        lemma_enclosing_found(fs, line, k + 1, i);
    }
}

proof fn lemma_enclosing_none(fs: Seq<FnModel>, line: int, k: int)
    requires
        0 <= k,
        forall|j: int| k <= j < fs.len() ==> !encloses(#[trigger] fs[j], line),
    ensures
        enclosing_index(fs, line, k) is None,
    decreases fs.len() - k,
{
    if k < fs.len() {
        lemma_enclosing_none(fs, line, k + 1);
    }
}

/// The declared type of `var_name` at line `cursor_line` of `text`: a
/// parameter of the function around the line, else one of its local
/// variables declared at or before the line, else a global variable, else
/// what the nearest line before the cursor declares (a variable or a
/// parameter of a signature).
pub fn infer_variable_type(text: &str, var_name: &str, cursor_line: usize) -> (r: Option<String>)
    requires
        fn_scan_well_formed(text@, None, None),
    ensures
        opt_view(r) == inferred_type(text@, var_name@, cursor_line as int),
{
    let funcs = scan_user_functions(text, None, None);
    let ghost fs = fns_view(funcs@);
    let ghost name = var_name@;
    let ghost cur = cursor_line as int;
    let ghost ans = inferred_type(text@, name, cur);
    let ghost rest = match global_named(user_variables(text@, None, None, fs), name, 0) {
        Some(t) => Some(t),
        None => backward_type(
            lines(text@),
            name,
            if cur < lines(text@).len() {
                cur
            } else {
                lines(text@).len() as int
            },
        ),
    };
    assert(fs == user_functions(text@, None, None));
    let target = str_string(var_name);
    match find_enclosing_function(funcs.as_slice(), cursor_line) {
        Some(f) => {
            proof {
                let i = choose|i: int|
                    0 <= i < funcs@.len() && *f == funcs@[i] && encloses(funcs@[i]@, cursor_line as int)
                        && forall|j: int| 0 <= j < i ==> !encloses(#[trigger] funcs@[j]@, cursor_line as int);
                assert forall|j: int| 0 <= j < i implies !encloses(#[trigger] fs[j], cursor_line as int) by {
                    assert(fs[j] == funcs@[j]@);
                }
                assert(fs[i] == f@);
                lemma_enclosing_found(fs, cursor_line as int, 0, i);
            }
            let ghost fps = f@.parsed_params;
            let mut j: usize = 0;
            while j < f.parsed_params.len()
                invariant
                    j <= f.parsed_params@.len(),
                    fps == f@.parsed_params,
                    target@ == var_name@,
                    param_named(fps, var_name@, 0) == param_named(fps, var_name@, j as int),
                    ans == inferred_type(text@, var_name@, cursor_line as int),
                    param_named(fps, var_name@, 0) is Some ==> ans == param_named(fps, var_name@, 0),
                decreases f.parsed_params.len() - j,
            {
                assert(fps[j as int] == f.parsed_params@[j as int]@);
                if f.parsed_params[j].name == target {
                    return Some(f.parsed_params[j].param_type.clone());
                }
                j = j + 1;
            }
            let ghost fls = f@.local_vars;
            assert(param_named(fps, var_name@, 0) is None);
            let mut j: usize = 0;
            while j < f.local_vars.len()
                invariant
                    j <= f.local_vars@.len(),
                    fls == f@.local_vars,
                    target@ == var_name@,
                    local_named(fls, var_name@, cursor_line as int, 0) == local_named(
                        fls,
                        var_name@,
                        cursor_line as int,
                        j as int,
                    ),
                    ans == inferred_type(text@, var_name@, cursor_line as int),
                    ans == match local_named(fls, var_name@, cursor_line as int, 0) {
                        Some(t) => Some(t),
                        None => rest,
                    },
                decreases f.local_vars.len() - j,
            {
                assert(fls[j as int] == f.local_vars@[j as int]@);
                if f.local_vars[j].line <= cursor_line && f.local_vars[j].name == target {
                    return Some(f.local_vars[j].var_type.clone());
                }
                j = j + 1;
            }
            assert(ans == rest);
        },
        None => {
            proof {
                assert forall|j: int| 0 <= j < fs.len() implies !encloses(#[trigger] fs[j], cursor_line as int) by {
                    assert(fs[j] == funcs@[j]@);
                }
                lemma_enclosing_none(fs, cursor_line as int, 0);
            }
            assert(ans == rest);
        },
    }
    let vars = scan_user_variables(text, None, None);
    let ghost gvs = vars_view(vars@);
    let mut j: usize = 0;
    while j < vars.len()
        invariant
            j <= vars@.len(),
            gvs == vars_view(vars@),
            target@ == var_name@,
            global_named(gvs, var_name@, 0) == global_named(gvs, var_name@, j as int),
            ans == inferred_type(text@, var_name@, cursor_line as int),
            ans == match global_named(gvs, var_name@, 0) {
                Some(t) => Some(t),
                None => backward_type(
                    lines(text@),
                    var_name@,
                    if cursor_line < lines(text@).len() {
                        cursor_line as int
                    } else {
                        lines(text@).len() as int
                    },
                ),
            },
        decreases vars.len() - j,
    {
        assert(gvs[j as int] == vars@[j as int]@);
        if vars[j].name == target {
            return Some(vars[j].var_type.clone());
        }
        j = j + 1;
    }
    let (v, ranges) = lines_of(text);
    let pat = to_chars(var_name);
    let mut i = if cursor_line < ranges.len() {
        cursor_line
    } else {
        ranges.len()
    };
    let ghost ls = lines(v@);
    while i > 0
        invariant
            i <= ranges@.len(),
            v@ == text@,
            ls == lines(v@),
            pat@ == var_name@,
            ranges_within(ranges@, 0, v@.len() as int),
            ranges_hold(v@, ranges@, ls),
            backward_type(ls, var_name@, i as int) == backward_type(
                ls,
                var_name@,
                if cursor_line < ls.len() {
                    cursor_line as int
                } else {
                    ls.len() as int
                },
            ),
            ans == inferred_type(text@, var_name@, cursor_line as int),
            ans == backward_type(
                ls,
                var_name@,
                if cursor_line < ls.len() {
                    cursor_line as int
                } else {
                    ls.len() as int
                },
            ),
        decreases i,
    {
        i = i - 1;
        let (la, lb) = ranges[i];
        let (ta, tb) = trim_range(v.as_slice(), la, lb);
        assert(ls[i as int] == v@.subrange(la as int, lb as int));
        match line_type_exec(v.as_slice(), ta, tb, pat.as_slice()) {
            Some(t) => {
                return Some(t);
            },
            None => {},
        }
    }
    None
}

} // verus!
