//! Global variables, `cbuffer` members and texture or sampler macros.
use vstd::prelude::*;
use crate::context::{before_line_comment, code_end};
use crate::cursor::{is_identifier_range, valid_identifier};
use crate::decls::{col_of, col_of_exec, is_invalid_name, is_invalid_name_exec};
use crate::functions::{fn_scan_well_formed, fns_view, opt_str_view, scan_user_functions, user_functions, FnModel, FunctionSignature};
use crate::lists::{doc_of, doc_of_exec, strings_view};
use crate::splits::{
    before_any, before_any_range, lines, lines_of, ranges_gapped, ranges_hold, ranges_within,
    trim_end_set, trim_end_set_range, trim_set, trim_set_range, trim_start_set,
    trim_start_set_range, word_ranges, words,
};
use crate::strops::{
    count_char, count_char_in, ends_with, ends_with_char, eq_str, find, find_char, starts_with,
    starts_with_char, starts_with_str, trim, trim_range,
};
use crate::text::{blen, lemma_blen_subrange, opt_string, opt_view, push_str, range_string, str_string};

verus! {

/// A global variable, `cbuffer` member or texture declared in a text.
#[derive(Debug, Clone, PartialEq)]
pub struct VariableSymbol {
    pub name: String,
    pub var_type: String,
    pub qualifier: String,
    pub doc: Option<String>,
    pub source: Option<String>,
    pub line: usize,
    pub col: usize,
    pub file_uri: Option<String>,
}

/// What a `VariableSymbol` holds.
pub struct VarModel {
    pub name: Seq<char>,
    pub var_type: Seq<char>,
    pub qualifier: Seq<char>,
    pub doc: Option<Seq<char>>,
    pub source: Option<Seq<char>>,
    pub line: int,
    pub col: int,
    pub file_uri: Option<Seq<char>>,
}

impl View for VariableSymbol {
    type V = VarModel;

    open spec fn view(&self) -> VarModel {
        VarModel {
            name: self.name@,
            var_type: self.var_type@,
            qualifier: self.qualifier@,
            doc: opt_view(self.doc),
            source: opt_view(self.source),
            line: self.line as int,
            col: self.col as int,
            file_uri: opt_view(self.file_uri),
        }
    }
}

/// The views of a vector of variables.
pub open spec fn vars_view(v: Seq<VariableSymbol>) -> Seq<VarModel> {
    v.map_values(|x: VariableSymbol| x@)
}

/// State of the variable scanner: the variables found, the pending doc
/// lines, the open `cbuffer` or `struct` block (its name and whether it is a
/// `cbuffer`) with its brace depth, and the index of the next function whose
/// body may still come.
pub struct VarScan {
    pub results: Seq<VarModel>,
    pub docs: Seq<Seq<char>>,
    pub depth: nat,
    pub block: Option<(Seq<char>, bool)>,
    pub fi: int,
}

/// The first function from `fi` on whose body does not end before line `idx`.
pub open spec fn advance_fn(fs: Seq<FnModel>, fi: int, idx: int) -> int
    decreases fs.len() - fi,
{
    if 0 <= fi < fs.len() && idx > fs[fi].body_end_line {
        advance_fn(fs, fi + 1, idx)
    } else {
        fi
    }
}

/// `s` with every leading repetition of `p` removed (`trim_start_matches`).
pub open spec fn strip_prefix_all(s: Seq<char>, p: Seq<char>) -> Seq<char>
    decreases s.len(),
{
    if p.len() > 0 && starts_with(s, p) {
        strip_prefix_all(s.subrange(p.len() as int, s.len() as int), p)
    } else {
        s
    }
}

/// A line that opens a `cbuffer`, a `struct` or a `CBUFFER_START(..)`
/// block, or closes one with `CBUFFER_END`.
pub open spec fn block_step(st: VarScan, line: Seq<char>) -> VarScan {
    if (starts_with(line, "cbuffer "@) || starts_with(line, "struct "@)) && st.block is None {
        let ws = words(line);
        if ws.len() >= 2 {
            let name = trim(before_any(ws[1], seq!['{', ':']));
            if valid_identifier(name) {
                VarScan { block: Some((name, ws[0] == "cbuffer"@)), depth: 0, ..st }
            } else {
                st
            }
        } else {
            st
        }
    } else if (starts_with(line, "CBUFFER_START("@) || starts_with(line, "CBUFFER_START "@))
        && st.block is None {
        let name = trim(
            trim_set(trim(strip_prefix_all(line, "CBUFFER_START"@)), seq!['(', ')', ';', '{']),
        );
        if valid_identifier(name) {
            VarScan { block: Some((name, true)), depth: 0, ..st }
        } else {
            st
        }
    } else if starts_with(line, "CBUFFER_END"@) {
        VarScan { block: None, depth: 0, ..st }
    } else {
        st
    }
}

/// A line starts with one of the texture or sampler macros.
pub open spec fn texture_macro_line(line: Seq<char>) -> bool {
    starts_with(line, "TEXTURE2D"@) || starts_with(line, "TEXTURE3D"@) || starts_with(
        line,
        "TEXTURECUBE"@,
    ) || starts_with(line, "SAMPLER"@)
}

/// `TEXTURE2D(_BaseMap);` and the like: a uniform named by the macro's
/// argument, whose type is the macro's name.
pub open spec fn texture_var(
    line: Seq<char>,
    raw: Seq<char>,
    idx: int,
    docs: Seq<Seq<char>>,
    src: Option<Seq<char>>,
    uri: Option<Seq<char>>,
) -> Option<VarModel> {
    if texture_macro_line(line) && ends_with(line, seq![';']) {
        match (find(line, seq!['(']), find(line, seq![')'])) {
            (Some(o), Some(c)) => if c > o + 1 {
                let name = trim(line.subrange(o + 1, c));
                if valid_identifier(name) {
                    Some(
                        VarModel {
                            name,
                            var_type: trim(line.subrange(0, o)),
                            qualifier: "uniform"@,
                            doc: doc_of(docs),
                            source: src,
                            line: idx,
                            col: col_of(raw, name, 0),
                            file_uri: uri,
                        },
                    )
                } else {
                    None
                }
            } else {
                None
            },
            _ => None,
        }
    } else {
        None
    }
}

/// The qualifier of a variable declared in `block`.
pub open spec fn block_qualifier(block: Option<(Seq<char>, bool)>) -> Seq<char> {
    match block {
        Some(b) => if b.1 {
            "cbuffer "@ + b.0
        } else {
            Seq::empty()
        },
        None => Seq::empty(),
    }
}

/// A declaration `Type name[..] : semantic = value;` outside a `struct`:
/// the last word before any `=` or `:` is the name (before `[`), the one
/// before it the type (before `<`).
pub open spec fn global_var(
    code: Seq<char>,
    raw: Seq<char>,
    idx: int,
    docs: Seq<Seq<char>>,
    block: Option<(Seq<char>, bool)>,
    src: Option<Seq<char>>,
    uri: Option<Seq<char>>,
) -> Option<VarModel> {
    let in_struct = match block {
        Some(b) => !b.1,
        None => false,
    };
    if ends_with(code, seq![';']) && !starts_with(code, seq!['#']) && !starts_with(code, "return"@)
        && !in_struct {
        let clean = trim(trim_end_set(code, seq![';']));
        let decl = trim(before_any(clean, seq!['=']));
        let toks = words(trim(before_any(decl, seq![':'])));
        if toks.len() >= 2 {
            let name = trim(before_any(toks.last(), seq!['[']));
            if valid_identifier(name) && !is_invalid_name(name) {
                Some(
                    VarModel {
                        name,
                        var_type: trim(before_any(toks[toks.len() - 2], seq!['<'])),
                        qualifier: block_qualifier(block),
                        doc: doc_of(docs),
                        source: src,
                        line: idx,
                        col: col_of(raw, name, 0),
                        file_uri: uri,
                    },
                )
            } else {
                None
            }
        } else {
            None
        }
    } else {
        None
    }
}

/// The braces of a code line inside a block: the block closes when they
/// balance the depth reached.
pub open spec fn braces_step(st: VarScan, code: Seq<char>) -> VarScan {
    if st.block is Some {
        let d = st.depth + count_char(code, '{');
        let c = count_char(code, '}');
        if d > 0 && d <= c {
            VarScan { block: None, depth: 0, ..st }
        } else {
            VarScan { depth: if d >= c { (d - c) as nat } else { 0 }, ..st }
        }
    } else {
        st
    }
}

/// Appends an optional variable.
pub open spec fn push_opt(rs: Seq<VarModel>, m: Option<VarModel>) -> Seq<VarModel> {
    match m {
        Some(x) => rs.push(x),
        None => rs,
    }
}

/// A non-empty line outside comments and function bodies.
pub open spec fn code_step(
    st: VarScan,
    raw: Seq<char>,
    line: Seq<char>,
    idx: int,
    src: Option<Seq<char>>,
    uri: Option<Seq<char>>,
) -> VarScan {
    let st2 = block_step(st, line);
    let code = trim(before_line_comment(line));
    let rs = push_opt(
        push_opt(st2.results, texture_var(line, raw, idx, st2.docs, src, uri)),
        global_var(code, raw, idx, st2.docs, st2.block, src, uri),
    );
    let st3 = braces_step(VarScan { results: rs, ..st2 }, code);
    if ends_with(line, seq![';']) || ends_with(line, seq!['}']) {
        VarScan { docs: Seq::empty(), ..st3 }
    } else {
        st3
    }
}

/// One line of the variable scanner; lines inside function bodies are
/// skipped.
pub open spec fn var_step(
    st: VarScan,
    fs: Seq<FnModel>,
    raw: Seq<char>,
    idx: int,
    src: Option<Seq<char>>,
    uri: Option<Seq<char>>,
) -> VarScan {
    let fi = advance_fn(fs, st.fi, idx);
    let st1 = VarScan { fi, ..st };
    if 0 <= fi < fs.len() && fs[fi].body_start_line <= idx <= fs[fi].body_end_line {
        st1
    } else {
        let line = trim(raw);
        if starts_with(line, "//"@) {
            let d = trim(trim_start_set(line, seq!['/']));
            if d.len() > 0 {
                VarScan { docs: st1.docs.push(d), ..st1 }
            } else {
                st1
            }
        } else if line.len() == 0 {
            if st1.block is None {
                VarScan { docs: Seq::empty(), ..st1 }
            } else {
                st1
            }
        } else {
            code_step(st1, raw, line, idx, src, uri)
        }
    }
}

/// The variable scanner after the first `n` lines.
pub open spec fn var_scan(
    ls: Seq<Seq<char>>,
    n: int,
    fs: Seq<FnModel>,
    src: Option<Seq<char>>,
    uri: Option<Seq<char>>,
) -> VarScan
    decreases n,
{
    if n <= 0 {
        VarScan { results: Seq::empty(), docs: Seq::empty(), depth: 0, block: None, fi: 0 }
    } else {
        var_step(var_scan(ls, n - 1, fs, src, uri), fs, ls[n - 1], n - 1, src, uri)
    }
}

/// The variables of a text, function bodies (as `fs` gives them) left out.
pub open spec fn user_variables(
    text: Seq<char>,
    src: Option<Seq<char>>,
    uri: Option<Seq<char>>,
    fs: Seq<FnModel>,
) -> Seq<VarModel> {
    var_scan(lines(text), lines(text).len() as int, fs, src, uri).results
}

} // verus!

verus! {

/// `texture_var` of the trimmed line `v[ta..tb]` of the raw line `v[la..lb]`.
fn texture_exec(
    v: &[char],
    la: usize,
    lb: usize,
    ta: usize,
    tb: usize,
    idx: usize,
    docs: &Vec<String>,
    src: Option<&str>,
    uri: Option<&str>,
) -> (r: Option<VariableSymbol>)
    requires
        la <= ta <= tb <= lb <= v@.len(),
        blen(v@) <= usize::MAX,
    ensures
        match texture_var(
            v@.subrange(ta as int, tb as int),
            v@.subrange(la as int, lb as int),
            idx as int,
            strings_view(docs@),
            opt_str_view(src),
            opt_str_view(uri),
        ) {
            Some(m) => r matches Some(x) && x@ == m,
            None => r is None,
        },
{
    let ghost line = v@.subrange(ta as int, tb as int);
    if !((starts_with_str(v, ta, tb, "TEXTURE2D") || starts_with_str(v, ta, tb, "TEXTURE3D")
        || starts_with_str(v, ta, tb, "TEXTURECUBE") || starts_with_str(v, ta, tb, "SAMPLER"))
        && ends_with_char(v, ta, tb, ';')) {
        return None;
    }
    let o = match find_char(v, ta, tb, '(') {
        Some(k) => k,
        None => {
            return None;
        },
    };
    let c = match find_char(v, ta, tb, ')') {
        Some(k) => k,
        None => {
            return None;
        },
    };
    if c <= o + 1 {
        return None;
    }
    let (na, nb) = trim_range(v, ta + o + 1, ta + c);
    proof {
        assert(line.subrange(o + 1, c as int) =~= v@.subrange(ta + o + 1, ta + c));
        assert(line.subrange(0, o as int) =~= v@.subrange(ta as int, ta + o));
    }
    if !is_identifier_range(v, na, nb) {
        return None;
    }
    let (ma, mb) = trim_range(v, ta, ta + o);
    proof {
        lemma_blen_subrange(v@, la as int, lb as int);
    }
    let col = col_of_exec(v, la, lb, na, nb, 0);
    Some(
        VariableSymbol {
            name: range_string(v, na, nb),
            var_type: range_string(v, ma, mb),
            qualifier: str_string("uniform"),
            doc: doc_of_exec(docs),
            source: opt_string(src),
            line: idx,
            col,
            file_uri: opt_string(uri),
        },
    )
}

} // verus!

verus! {

/// The view of an open block.
pub open spec fn block_view(b: Option<(String, bool)>) -> Option<(Seq<char>, bool)> {
    match b {
        Some(x) => Some((x.0@, x.1)),
        None => None,
    }
}

/// `global_var` of the code part `v[ca..cb]` of the raw line `v[la..lb]`.
fn global_exec(
    v: &[char],
    la: usize,
    lb: usize,
    ca: usize,
    cb: usize,
    idx: usize,
    docs: &Vec<String>,
    block: &Option<(String, bool)>,
    src: Option<&str>,
    uri: Option<&str>,
) -> (r: Option<VariableSymbol>)
    requires
        la <= lb <= v@.len(),
        ca <= cb <= v@.len(),
        blen(v@) <= usize::MAX,
    ensures
        match global_var(
            v@.subrange(ca as int, cb as int),
            v@.subrange(la as int, lb as int),
            idx as int,
            strings_view(docs@),
            block_view(*block),
            opt_str_view(src),
            opt_str_view(uri),
        ) {
            Some(m) => r matches Some(x) && x@ == m,
            None => r is None,
        },
{
    let in_struct = match block {
        Some(b) => !b.1,
        None => false,
    };
    if !(ends_with_char(v, ca, cb, ';') && !starts_with_char(v, ca, cb, '#') && !starts_with_str(
        v,
        ca,
        cb,
        "return",
    ) && !in_struct) {
        return None;
    }
    proof {
        assert(seq![';'] =~= [';']@);
        assert(seq!['='] =~= ['=']@);
        assert(seq![':'] =~= [':']@);
        assert(seq!['['] =~= ['[']@);
        assert(seq!['<'] =~= ['<']@);
    }
    let ce = trim_end_set_range(v, ca, cb, &[';']);
    let (xa, xb) = trim_range(v, ca, ce);
    let de = before_any_range(v, xa, xb, &['=']);
    let (da, db) = trim_range(v, xa, de);
    let be = before_any_range(v, da, db, &[':']);
    let (ba, bb) = trim_range(v, da, be);
    let toks = word_ranges(v, ba, bb);
    let n = toks.len();
    if n < 2 {
        return None;
    }
    let (wa, wb) = toks[n - 1];
    let ne = before_any_range(v, wa, wb, &['[']);
    let (na, nb) = trim_range(v, wa, ne);
    if !is_identifier_range(v, na, nb) || is_invalid_name_exec(v, na, nb) {
        return None;
    }
    let (ya, yb) = toks[n - 2];
    let te = before_any_range(v, ya, yb, &['<']);
    let (ka, kb) = trim_range(v, ya, te);
    proof {
        lemma_blen_subrange(v@, la as int, lb as int);
    }
    let col = col_of_exec(v, la, lb, na, nb, 0);
    let mut qualifier = String::new();
    match block {
        Some(b) => {
            if b.1 {
                push_str(&mut qualifier, "cbuffer ");
                push_str(&mut qualifier, b.0.as_str());
            }
        },
        None => {},
    }
    proof {
        assert(qualifier@ =~= block_qualifier(block_view(*block)));
    }
    Some(
        VariableSymbol {
            name: range_string(v, na, nb),
            var_type: range_string(v, ka, kb),
            qualifier,
            doc: doc_of_exec(docs),
            source: opt_string(src),
            line: idx,
            col,
            file_uri: opt_string(uri),
        },
    )
}

} // verus!

verus! {

/// The exec state of the variable scanner.
struct VarState {
    results: Vec<VariableSymbol>,
    docs: Vec<String>,
    depth: usize,
    block: Option<(String, bool)>,
    fi: usize,
}

spec fn var_state_model(st: &VarState) -> VarScan {
    VarScan {
        results: vars_view(st.results@),
        docs: strings_view(st.docs@),
        depth: st.depth as nat,
        block: block_view(st.block),
        fi: st.fi as int,
    }
}

/// Start (absolute) of `strip_prefix_all(v[a..b], "CBUFFER_START")`.
fn strip_cbuffer_start(v: &[char], a: usize, b: usize) -> (r: usize)
    requires
        a <= b <= v@.len(),
    ensures
        a <= r <= b,
        v@.subrange(r as int, b as int) == strip_prefix_all(v@.subrange(a as int, b as int), "CBUFFER_START"@),
{
    proof {
        reveal_strlit("CBUFFER_START");
    }
    let mut i = a;
    while starts_with_str(v, i, b, "CBUFFER_START")
        invariant
            a <= i <= b <= v@.len(),
            "CBUFFER_START"@.len() == 13,
            strip_prefix_all(v@.subrange(a as int, b as int), "CBUFFER_START"@) == strip_prefix_all(
                v@.subrange(i as int, b as int),
                "CBUFFER_START"@,
            ),
        decreases b - i,
    {
        proof {
            assert(v@.subrange(i as int, b as int).subrange(13, (b - i) as int) =~= v@.subrange(
                i + 13,
                b as int,
            ));
        }
        i = i + 13;
    }
    i
}

/// `block_step` on the trimmed line `v[ta..tb]`.
fn block_exec(st: &mut VarState, v: &[char], ta: usize, tb: usize)
    requires
        ta <= tb <= v@.len(),
    ensures
        var_state_model(final(st)) == block_step(var_state_model(old(st)), v@.subrange(ta as int, tb as int)),
        final(st).depth <= old(st).depth,
{
    let ghost line = v@.subrange(ta as int, tb as int);
    proof {
        assert(seq!['{', ':'] =~= ['{', ':']@);
        assert(seq!['(', ')', ';', '{'] =~= ['(', ')', ';', '{']@);
    }
    if (starts_with_str(v, ta, tb, "cbuffer ") || starts_with_str(v, ta, tb, "struct "))
        && st.block.is_none() {
        let ws = word_ranges(v, ta, tb);
        if ws.len() >= 2 {
            let (w1a, w1b) = ws[1];
            let e = before_any_range(v, w1a, w1b, &['{', ':']);
            let (na, nb) = trim_range(v, w1a, e);
            if is_identifier_range(v, na, nb) {
                let (w0a, w0b) = ws[0];
                let is_cb = eq_str(v, w0a, w0b, "cbuffer");
                st.block = Some((range_string(v, na, nb), is_cb));
                st.depth = 0;
            }
        }
    } else if (starts_with_str(v, ta, tb, "CBUFFER_START(") || starts_with_str(
        v,
        ta,
        tb,
        "CBUFFER_START ",
    )) && st.block.is_none() {
        let s = strip_cbuffer_start(v, ta, tb);
        let (ia, ib) = trim_range(v, s, tb);
        let (sa, sb) = trim_set_range(v, ia, ib, &['(', ')', ';', '{']);
        let (na, nb) = trim_range(v, sa, sb);
        if is_identifier_range(v, na, nb) {
            st.block = Some((range_string(v, na, nb), true));
            st.depth = 0;
        }
    } else if starts_with_str(v, ta, tb, "CBUFFER_END") {
        st.block = None;
        st.depth = 0;
    }
}

} // verus!

verus! {

/// One line `v[la..lb]` of the variable scanner.
fn var_line(
    st: &mut VarState,
    funcs: &[FunctionSignature],
    v: &[char],
    la: usize,
    lb: usize,
    idx: usize,
    src: Option<&str>,
    uri: Option<&str>,
)
    requires
        la <= lb <= v@.len(),
        blen(v@) <= usize::MAX,
        old(st).depth <= la,
        old(st).fi <= funcs@.len(),
    ensures
        var_state_model(final(st)) == var_step(
            var_state_model(old(st)),
            fns_view(funcs@),
            v@.subrange(la as int, lb as int),
            idx as int,
            opt_str_view(src),
            opt_str_view(uri),
        ),
        final(st).depth <= lb,
        final(st).fi <= funcs@.len(),
{
    let ghost fs = fns_view(funcs@);
    let ghost s0 = var_state_model(st);
    let mut fi = st.fi;
    while fi < funcs.len() && idx > funcs[fi].body_end_line
        invariant
            old(st).fi <= fi <= funcs@.len(),
            fs == fns_view(funcs@),
            advance_fn(fs, old(st).fi as int, idx as int) == advance_fn(fs, fi as int, idx as int),
        decreases funcs.len() - fi,
    {
        assert(fs[fi as int] == funcs@[fi as int]@);
        fi = fi + 1;
    }
    proof {
        if fi < funcs@.len() {
            assert(fs[fi as int] == funcs@[fi as int]@);
        }
    }
    st.fi = fi;
    if fi < funcs.len() && funcs[fi].body_start_line <= idx && idx <= funcs[fi].body_end_line {
        return;
    }
    let (ta, tb) = trim_range(v, la, lb);
    if starts_with_str(v, ta, tb, "//") {
        let sa = trim_start_set_range(v, ta, tb, &['/']);
        proof {
            assert(seq!['/'] =~= ['/']@);
        }
        let (da, db) = trim_range(v, sa, tb);
        if da < db {
            let ghost old_docs = strings_view(st.docs@);
            st.docs.push(range_string(v, da, db));
            proof {
                assert(strings_view(st.docs@) =~= old_docs.push(v@.subrange(da as int, db as int)));
            }
        }
        return;
    }
    if ta == tb {
        if st.block.is_none() {
            st.docs = Vec::new();
            proof {
                assert(strings_view(st.docs@) =~= Seq::<Seq<char>>::empty());
            }
        }
        return;
    }
    let ghost s1 = var_state_model(st);
    block_exec(st, v, ta, tb);
    let ghost s2 = var_state_model(st);
    let tex = texture_exec(v, la, lb, ta, tb, idx, &st.docs, src, uri);
    let ce = code_end(v, ta, tb);
    let (ca, cb) = trim_range(v, ta, ce);
    let glob = global_exec(v, la, lb, ca, cb, idx, &st.docs, &st.block, src, uri);
    let ghost r0 = vars_view(st.results@);
    match tex {
        Some(x) => {
            st.results.push(x);
        },
        None => {},
    }
    match glob {
        Some(x) => {
            st.results.push(x);
        },
        None => {},
    }
    proof {
        let line = v@.subrange(ta as int, tb as int);
        let raw = v@.subrange(la as int, lb as int);
        let code = v@.subrange(ca as int, cb as int);
        assert(vars_view(st.results@) =~= push_opt(
            push_opt(r0, texture_var(line, raw, idx as int, s2.docs, opt_str_view(src), opt_str_view(uri))),
            global_var(code, raw, idx as int, s2.docs, s2.block, opt_str_view(src), opt_str_view(uri)),
        ));
    }
    if st.block.is_some() {
        let ob = count_char_in(v, ca, cb, '{');
        let c = count_char_in(v, ca, cb, '}');
        let d = st.depth + ob;
        if d > 0 && d <= c {
            st.block = None;
            st.depth = 0;
        } else if d >= c {
            st.depth = d - c;
        } else {
            st.depth = 0;
        }
    }
    if ends_with_char(v, ta, tb, ';') || ends_with_char(v, ta, tb, '}') {
        st.docs = Vec::new();
        proof {
            assert(strings_view(st.docs@) =~= Seq::<Seq<char>>::empty());
        }
    }
}

} // verus!

verus! {

/// The variables of `text`, skipping the bodies of `funcs`.
fn scan_variables_skipping(
    text: &str,
    source_name: Option<&str>,
    file_uri: Option<&str>,
    funcs: &[FunctionSignature],
) -> (r: Vec<VariableSymbol>)
    ensures
        vars_view(r@) == user_variables(text@, opt_str_view(source_name), opt_str_view(file_uri), fns_view(funcs@)),
{
    let ghost src = opt_str_view(source_name);
    let ghost uri = opt_str_view(file_uri);
    let ghost fs = fns_view(funcs@);
    let (v, ranges) = lines_of(text);
    let ghost ls = lines(v@);
    let mut st = VarState { results: Vec::new(), docs: Vec::new(), depth: 0, block: None, fi: 0 };
    proof {
        assert(vars_view(st.results@) =~= Seq::<VarModel>::empty());
        assert(strings_view(st.docs@) =~= Seq::<Seq<char>>::empty());
    }
    let mut idx: usize = 0;
    while idx < ranges.len()
        invariant
            v@ == text@,
            ls == lines(v@),
            blen(v@) <= usize::MAX,
            ranges_within(ranges@, 0, v@.len() as int),
            ranges_hold(v@, ranges@, ls),
            ranges_gapped(ranges@),
            idx <= ranges@.len(),
            idx == 0 ==> st.depth == 0,
            idx > 0 ==> st.depth <= ranges@[idx - 1].1,
            st.fi <= funcs@.len(),
            src == opt_str_view(source_name),
            uri == opt_str_view(file_uri),
            fs == fns_view(funcs@),
            var_state_model(&st) == var_scan(ls, idx as int, fs, src, uri),
        decreases ranges.len() - idx,
    {
        let (la, lb) = ranges[idx];
        proof {
            if idx > 0 {
                assert(ranges@[idx - 1].1 < ranges@[idx as int].0);
            }
        }
        var_line(&mut st, funcs, v.as_slice(), la, lb, idx, source_name, file_uri);
        proof {
            assert(var_scan(ls, idx + 1, fs, src, uri) == var_step(var_scan(ls, idx as int, fs, src, uri), fs, ls[idx as int], idx as int, src, uri));
        }
        idx = idx + 1;
    }
    st.results
}

/// The global variables, `cbuffer` members and texture or sampler macros of
/// a text, each labelled with `source_name` and `file_uri`; lines inside the
/// bodies of `existing_funcs` (the text's own functions when `None`) are
/// skipped.
pub fn scan_user_variables_with_funcs(
    text: &str,
    source_name: Option<&str>,
    file_uri: Option<&str>,
    existing_funcs: Option<&[FunctionSignature]>,
) -> (r: Vec<VariableSymbol>)
    requires
        existing_funcs is None ==> fn_scan_well_formed(text@, None, None),
    ensures
        vars_view(r@) == user_variables(
            text@,
            opt_str_view(source_name),
            opt_str_view(file_uri),
            match existing_funcs {
                Some(f) => fns_view(f@),
                None => user_functions(text@, None, None),
            },
        ),
{
    match existing_funcs {
        Some(f) => scan_variables_skipping(text, source_name, file_uri, f),
        None => {
            let fallback = scan_user_functions(text, None, None);
            scan_variables_skipping(text, source_name, file_uri, fallback.as_slice())
        },
    }
}

/// The global variables of a text, skipping the bodies of its own functions.
pub fn scan_user_variables(text: &str, source_name: Option<&str>, file_uri: Option<&str>) -> (r: Vec<VariableSymbol>)
    requires
        fn_scan_well_formed(text@, None, None),
    ensures
        vars_view(r@) == user_variables(
            text@,
            opt_str_view(source_name),
            opt_str_view(file_uri),
            user_functions(text@, None, None),
        ),
{
    scan_user_variables_with_funcs(text, source_name, file_uri, None)
}

} // verus!
