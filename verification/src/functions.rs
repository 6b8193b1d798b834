//! User function signatures, with their parameters and local variables.
use vstd::prelude::*;
use crate::cursor::{is_identifier_range, standalone_from, valid_identifier};
use crate::decls::{
    col_of, col_of_exec, is_invalid_name, is_invalid_name_exec, is_invalid_type,
    is_invalid_type_exec, local_decl, parse_local_range, parse_parameter_range, param_decl,
    FunctionParam, LocalModel, LocalVar, ParamModel, slice_range,
};
use crate::lists::{
    doc_of, doc_of_exec, join_exec, join_with, param_list, param_list_exec, strings_view,
};
use crate::props::{strip_attrs, strip_attrs_range};
use crate::splits::{
    lines, lines_of, ranges_gapped, ranges_hold, ranges_within, trim_start_set, trim_start_set_range, word_ranges, words,
};
use crate::strops::{
    count_char, count_char_in, ends_with, ends_with_char, eq_str, find, find_char, starts_with,
    starts_with_char, starts_with_str, trim, trim_range,
};
use crate::text::{
    blen, byte_offset, is_ws, lemma_blen_subrange, opt_string, opt_view, push_char, push_str, range_string,
};

verus! {

/// A function (or function-like macro) found in a text.
#[derive(Debug, Clone)]
pub struct FunctionSignature {
    pub name: String,
    pub label: String,
    pub parameters: Vec<String>,
    pub parsed_params: Vec<FunctionParam>,
    pub local_vars: Vec<LocalVar>,
    pub body_start_line: usize,
    pub body_end_line: usize,
    pub doc: Option<String>,
    pub source: Option<String>,
    pub line: usize,
    pub col: usize,
    pub file_uri: Option<String>,
}

/// What a `FunctionSignature` holds.
pub struct FnModel {
    pub name: Seq<char>,
    pub label: Seq<char>,
    pub parameters: Seq<Seq<char>>,
    pub parsed_params: Seq<ParamModel>,
    pub local_vars: Seq<LocalModel>,
    pub body_start_line: int,
    pub body_end_line: int,
    pub doc: Option<Seq<char>>,
    pub source: Option<Seq<char>>,
    pub line: int,
    pub col: int,
    pub file_uri: Option<Seq<char>>,
}

impl View for FunctionSignature {
    type V = FnModel;

    open spec fn view(&self) -> FnModel {
        FnModel {
            name: self.name@,
            label: self.label@,
            parameters: strings_view(self.parameters@),
            parsed_params: self.parsed_params@.map_values(|p: FunctionParam| p@),
            local_vars: self.local_vars@.map_values(|v: LocalVar| v@),
            body_start_line: self.body_start_line as int,
            body_end_line: self.body_end_line as int,
            doc: opt_view(self.doc),
            source: opt_view(self.source),
            line: self.line as int,
            col: self.col as int,
            file_uri: opt_view(self.file_uri),
        }
    }
}

/// The views of a vector of signatures.
pub open spec fn fns_view(v: Seq<FunctionSignature>) -> Seq<FnModel> {
    v.map_values(|f: FunctionSignature| f@)
}

/// A function header whose parameter list continues on later lines.
pub struct PendingModel {
    pub name: Seq<char>,
    pub start: int,
    pub col: int,
    pub acc: Seq<char>,
}

/// State of the function scanner.
pub struct FnScan {
    pub results: Seq<FnModel>,
    pub docs: Seq<Seq<char>>,
    pub in_body: bool,
    pub expecting: bool,
    pub depth: nat,
    pub pending: Option<PendingModel>,
}

/// Sets the body start line of the last function.
pub open spec fn set_last_start(rs: Seq<FnModel>, line: int) -> Seq<FnModel> {
    if rs.len() == 0 {
        rs
    } else {
        rs.update(rs.len() - 1, FnModel { body_start_line: line, ..rs.last() })
    }
}

/// Sets the body end line of the last function.
pub open spec fn set_last_end(rs: Seq<FnModel>, line: int) -> Seq<FnModel> {
    if rs.len() == 0 {
        rs
    } else {
        rs.update(rs.len() - 1, FnModel { body_end_line: line, ..rs.last() })
    }
}

/// Adds a local variable to the last function.
pub open spec fn push_last_local(rs: Seq<FnModel>, lv: LocalModel) -> Seq<FnModel> {
    if rs.len() == 0 {
        rs
    } else {
        rs.update(rs.len() - 1, FnModel { local_vars: rs.last().local_vars.push(lv), ..rs.last() })
    }
}

/// The parameter located on the first line from `from` to `to` where its name
/// stands alone; unchanged when no such line exists.
pub open spec fn locate_param(ls: Seq<Seq<char>>, p: ParamModel, from: int, to: int) -> ParamModel
    decreases to + 1 - from,
{
    if from > to {
        p
    } else if 0 <= from < ls.len() && standalone_from(ls[from], p.name, 0) is Some {
        ParamModel {
            line: from,
            col: blen(ls[from].take(standalone_from(ls[from], p.name, 0)->0)) as int,
            ..p
        }
    } else {
        locate_param(ls, p, from + 1, to)
    }
}

/// Parameters of a header that spans lines `start..=idx`.
pub open spec fn cont_params(ps: Seq<Seq<char>>, start: int, idx: int, ls: Seq<Seq<char>>) -> Seq<ParamModel>
    decreases ps.len(),
{
    if ps.len() == 0 {
        Seq::empty()
    } else {
        let r = cont_params(ps.drop_last(), start, idx, ls);
        match param_decl(ps.last(), start, 0) {
            Some(fp) => r.push(locate_param(ls, fp, start, idx)),
            None => r,
        }
    }
}

/// Parameters of a header on one line `raw`; a parameter whose name does not
/// stand alone in the line gets column `base`.
pub open spec fn line_params(ps: Seq<Seq<char>>, idx: int, base: int, raw: Seq<char>) -> Seq<ParamModel>
    decreases ps.len(),
{
    if ps.len() == 0 {
        Seq::empty()
    } else {
        let r = line_params(ps.drop_last(), idx, base, raw);
        match param_decl(ps.last(), idx, 0) {
            Some(fp) => r.push(
                ParamModel {
                    col: match standalone_from(raw, fp.name, 0) {
                        Some(k) => blen(raw.take(k)) as int,
                        None => base,
                    },
                    ..fp
                },
            ),
            None => r,
        }
    }
}

/// Macro parameters: names of type `var` at column 0 of line `idx`.
pub open spec fn macro_params(ps: Seq<Seq<char>>, idx: int) -> Seq<ParamModel> {
    Seq::new(ps.len(), |k: int| ParamModel { name: ps[k], param_type: "var"@, line: idx, col: 0 })
}

/// Finishes a header: records the function and opens its body or waits for
/// it, depending on the braces after the closing `)`.
pub open spec fn finish_header(st: FnScan, f: FnModel, decl: Seq<char>, ci: int, idx: int) -> FnScan {
    let rest = decl.subrange(ci, decl.len() as int);
    let ob = count_char(rest, '{');
    let cb = count_char(rest, '}');
    if ob > cb {
        FnScan {
            results: st.results.push(FnModel { body_start_line: idx, ..f }),
            docs: Seq::empty(),
            in_body: true,
            depth: (ob - cb) as nat,
            pending: None,
            ..st
        }
    } else if ob == 0 && !ends_with(decl, seq![';']) {
        FnScan {
            results: st.results.push(f),
            docs: Seq::empty(),
            expecting: true,
            pending: None,
            ..st
        }
    } else {
        FnScan { results: st.results.push(f), docs: Seq::empty(), pending: None, ..st }
    }
}

/// A line that continues a pending header.
pub open spec fn continue_step(
    st: FnScan,
    pm: PendingModel,
    line: Seq<char>,
    idx: int,
    ls: Seq<Seq<char>>,
    src: Option<Seq<char>>,
    uri: Option<Seq<char>>,
) -> FnScan {
    let acc = pm.acc + seq![' '] + line;
    match find(acc, seq![')']) {
        None => FnScan { pending: Some(PendingModel { acc, ..pm }), ..st },
        Some(ci) => {
            let op = match find(acc, seq!['(']) {
                Some(k) => k,
                None => 0,
            };
            let params = param_list(acc.subrange(op + 1, ci), true);
            let f = FnModel {
                name: pm.name,
                label: acc.subrange(0, ci + 1),
                parameters: params,
                parsed_params: cont_params(params, pm.start, idx, ls),
                local_vars: Seq::empty(),
                body_start_line: pm.start,
                body_end_line: pm.start,
                doc: doc_of(st.docs),
                source: src,
                line: pm.start,
                col: pm.col,
                file_uri: uri,
            };
            finish_header(st, f, acc, ci, idx)
        },
    }
}

/// A `#define NAME(a, b) ...` line outside any body.
pub open spec fn define_step(
    st: FnScan,
    raw: Seq<char>,
    line: Seq<char>,
    idx: int,
    src: Option<Seq<char>>,
    uri: Option<Seq<char>>,
) -> FnScan {
    let t = trim(line.subrange(7, line.len() as int));
    match find(t, seq!['(']) {
        None => st,
        Some(op) => {
            let name = trim(t.subrange(0, op));
            if valid_identifier(name) && !is_invalid_name(name) {
                match find(t, seq![')']) {
                    None => st,
                    Some(cp) => {
                        let params = param_list(t.subrange(op + 1, cp), false);
                        let f = FnModel {
                            name,
                            label: name + seq!['('] + join_with(params, seq![',', ' ']) + seq![')'],
                            parameters: params,
                            parsed_params: macro_params(params, idx),
                            local_vars: Seq::empty(),
                            body_start_line: idx,
                            body_end_line: idx,
                            doc: doc_of(st.docs),
                            source: src,
                            line: idx,
                            col: col_of(raw, name, 0),
                            file_uri: uri,
                        };
                        FnScan { results: st.results.push(f), docs: Seq::empty(), ..st }
                    },
                }
            } else {
                st
            }
        },
    }
}

/// A declaration line outside any body: `[attr] Type Name(params) ...`.
pub open spec fn header_step(
    st: FnScan,
    raw: Seq<char>,
    line: Seq<char>,
    idx: int,
    src: Option<Seq<char>>,
    uri: Option<Seq<char>>,
) -> FnScan {
    let decl = strip_attrs(line);
    match find(decl, seq!['(']) {
        None => st,
        Some(op) => {
            let w = words(trim(decl.subrange(0, op)));
            if w.len() >= 2 {
                let fname = w.last();
                let ret = w[w.len() - 2];
                if valid_identifier(fname) && !is_invalid_name(fname) && fname != "register"@
                    && fname != "packoffset"@ && valid_identifier(ret) && !is_invalid_type(ret) {
                    let col = col_of(raw, fname, 0);
                    match find(decl, seq![')']) {
                        None => FnScan {
                            pending: Some(PendingModel { name: fname, start: idx, col, acc: decl }),
                            ..st
                        },
                        Some(ci) => {
                            let params = param_list(decl.subrange(op + 1, ci), true);
                            let f = FnModel {
                                name: fname,
                                label: decl.subrange(0, ci + 1),
                                parameters: params,
                                parsed_params: line_params(
                                    params,
                                    idx,
                                    (blen(decl.take(op)) + 1) as int,
                                    raw,
                                ),
                                local_vars: Seq::empty(),
                                body_start_line: idx,
                                body_end_line: idx,
                                doc: doc_of(st.docs),
                                source: src,
                                line: idx,
                                col,
                                file_uri: uri,
                            };
                            finish_header(st, f, decl, ci, idx)
                        },
                    }
                } else {
                    st
                }
            } else {
                st
            }
        },
    }
}

/// A line inside a function body: a local declaration is recorded, and the
/// body ends when its braces balance.
pub open spec fn body_step(st: FnScan, raw: Seq<char>, line: Seq<char>, idx: int) -> FnScan {
    let rs = match local_decl(raw, idx) {
        Some(lv) => push_last_local(st.results, lv),
        None => st.results,
    };
    let d = st.depth + count_char(line, '{');
    let c = count_char(line, '}');
    if d <= c {
        FnScan { results: set_last_end(rs, idx), in_body: false, depth: 0, ..st }
    } else {
        FnScan { results: rs, depth: (d - c) as nat, ..st }
    }
}

/// One line of the function scanner.
pub open spec fn fn_step(
    st: FnScan,
    ls: Seq<Seq<char>>,
    idx: int,
    src: Option<Seq<char>>,
    uri: Option<Seq<char>>,
) -> FnScan {
    let raw = ls[idx];
    let line = trim(raw);
    if starts_with(line, "//"@) {
        let d = trim(trim_start_set(line, seq!['/']));
        if !st.in_body && d.len() > 0 {
            FnScan { docs: st.docs.push(d), ..st }
        } else {
            st
        }
    } else if line.len() == 0 {
        if !st.in_body && !st.expecting && st.pending is None {
            FnScan { docs: Seq::empty(), ..st }
        } else {
            st
        }
    } else if st.pending is Some {
        continue_step(st, st.pending->0, line, idx, ls, src, uri)
    } else if st.expecting && count_char(line, '{') > 0 {
        let ob = count_char(line, '{');
        let cb = count_char(line, '}');
        let results = set_last_start(st.results, idx);
        if ob > cb {
            FnScan { results, expecting: false, in_body: true, depth: (ob - cb) as nat, ..st }
        } else {
            FnScan { results, expecting: false, ..st }
        }
    } else {
        let st2 = if st.expecting && ends_with(line, seq![';']) {
            FnScan { expecting: false, ..st }
        } else {
            st
        };
        if !st2.in_body && starts_with(line, "#define"@) {
            define_step(st2, raw, line, idx, src, uri)
        } else if !st2.in_body && !starts_with(line, "return"@) && !starts_with(line, seq!['#']) {
            header_step(st2, raw, line, idx, src, uri)
        } else if st2.in_body {
            body_step(st2, raw, line, idx)
        } else {
            st2
        }
    }
}

/// A declaration `[attr] Type Name(...` whose first `)` comes before its
/// first `(`.
pub open spec fn reversed_decl(line: Seq<char>) -> bool {
    let decl = strip_attrs(line);
    match (find(decl, seq!['(']), find(decl, seq![')'])) {
        (Some(op), Some(ci)) => {
            let w = words(trim(decl.subrange(0, op)));
            &&& w.len() >= 2
            &&& valid_identifier(w.last())
            &&& !is_invalid_name(w.last())
            &&& w.last() != "register"@
            &&& w.last() != "packoffset"@
            &&& valid_identifier(w[w.len() - 2])
            &&& !is_invalid_type(w[w.len() - 2])
            &&& ci < op
        },
        _ => false,
    }
}

/// A single-line header whose first `)` comes before its `(`, on a line the
/// scanner reads as a declaration: the slice between them is reversed.
pub open spec fn header_reversed(st: FnScan, ls: Seq<Seq<char>>, idx: int) -> bool {
    let line = trim(ls[idx]);
    &&& !starts_with(line, "//"@)
    &&& line.len() > 0
    &&& st.pending is None
    &&& !(st.expecting && count_char(line, '{') > 0)
    &&& !st.in_body
    &&& !starts_with(line, "#define"@)
    &&& !starts_with(line, "return"@)
    &&& !starts_with(line, seq!['#'])
    &&& reversed_decl(line)
}

/// The function scanner after the first `n` lines.
pub open spec fn fn_scan(ls: Seq<Seq<char>>, n: int, src: Option<Seq<char>>, uri: Option<Seq<char>>) -> FnScan
    decreases n,
{
    if n <= 0 {
        FnScan {
            results: Seq::empty(),
            docs: Seq::empty(),
            in_body: false,
            expecting: false,
            depth: 0,
            pending: None,
        }
    } else {
        fn_step(fn_scan(ls, n - 1, src, uri), ls, n - 1, src, uri)
    }
}

/// The scanner never meets a reversed single-line header (the one input on
/// which slicing the parameter list would panic).
pub open spec fn fn_scan_well_formed(text: Seq<char>, src: Option<Seq<char>>, uri: Option<Seq<char>>) -> bool {
    forall|k: int|
        0 <= k < lines(text).len() ==> !header_reversed(
            #[trigger] fn_scan(lines(text), k, src, uri),
            lines(text),
            k,
        )
}

/// The functions a text declares.
pub open spec fn user_functions(text: Seq<char>, src: Option<Seq<char>>, uri: Option<Seq<char>>) -> Seq<FnModel> {
    fn_scan(lines(text), lines(text).len() as int, src, uri).results
}

} // verus!

verus! {

/// A header whose parameter list continues on later lines.
pub struct Pending {
    pub name: String,
    pub start: usize,
    pub col: usize,
    pub acc: Vec<char>,
}

/// The exec state of the function scanner.
pub struct FnState {
    pub results: Vec<FunctionSignature>,
    pub docs: Vec<String>,
    pub in_body: bool,
    pub expecting: bool,
    pub depth: usize,
    pub pending: Option<Pending>,
}

/// What the exec state stands for.
pub open spec fn fn_state_model(st: &FnState) -> FnScan {
    FnScan {
        results: fns_view(st.results@),
        docs: strings_view(st.docs@),
        in_body: st.in_body,
        expecting: st.expecting,
        depth: st.depth as nat,
        pending: match st.pending {
            Some(p) => Some(PendingModel { name: p.name@, start: p.start as int, col: p.col as int, acc: p.acc@ }),
            None => None,
        },
    }
}

/// Facts the scanner keeps so that it can slice and count without overflow:
/// a pending header holds a `(` and no `)`, the brace depth is bounded by the
/// characters read, and the pending header's encoding by their encoding.
pub open spec fn fn_state_ok(st: &FnState, v: Seq<char>, bound: int) -> bool {
    &&& st.depth <= blen(v.take(bound))
    &&& !st.in_body ==> st.depth == 0
    &&& st.pending is Some ==> !st.in_body
    &&& match st.pending {
        Some(p) => {
            &&& (exists|j: int| 0 <= j < p.acc@.len() && p.acc@[j] == '(')
            &&& (forall|j: int| 0 <= j < p.acc@.len() ==> p.acc@[j] != ')')
            &&& blen(p.acc@) <= blen(v.take(bound))
        },
        None => true,
    }
}

/// Parameters of a multi-line header; `prs` are ranges in `acc`.
fn cont_params_exec(
    acc: &[char],
    prs: &Vec<(usize, usize)>,
    start: usize,
    idx: usize,
    v: &[char],
    ranges: &Vec<(usize, usize)>,
) -> (r: Vec<FunctionParam>)
    requires
        ranges_within(prs@, 0, acc@.len() as int),
        blen(acc@) <= usize::MAX,
        blen(v@) <= usize::MAX,
        ranges_within(ranges@, 0, v@.len() as int),
        ranges_hold(v@, ranges@, lines(v@)),
    ensures
        r@.map_values(|p: FunctionParam| p@) == cont_params(
            Seq::new(prs@.len(), |k: int| acc@.subrange(prs@[k].0 as int, prs@[k].1 as int)),
            start as int,
            idx as int,
            lines(v@),
        ),
{
    let ghost ps = Seq::new(prs@.len(), |k: int| acc@.subrange(prs@[k].0 as int, prs@[k].1 as int));
    let mut r: Vec<FunctionParam> = Vec::new();
    let mut i: usize = 0;
    while i < prs.len()
        invariant
            i <= prs@.len(),
            ranges_within(prs@, 0, acc@.len() as int),
            blen(acc@) <= usize::MAX,
            blen(v@) <= usize::MAX,
            ranges_within(ranges@, 0, v@.len() as int),
            ranges_hold(v@, ranges@, lines(v@)),
            ps == Seq::new(prs@.len(), |k: int| acc@.subrange(prs@[k].0 as int, prs@[k].1 as int)),
            r@.map_values(|p: FunctionParam| p@) == cont_params(ps.take(i as int), start as int, idx as int, lines(v@)),
        decreases prs.len() - i,
    {
        let (pa, pb) = prs[i];
        proof {
            assert(ps.take(i + 1).drop_last() =~= ps.take(i as int));
            assert(ps.take(i + 1).last() == acc@.subrange(pa as int, pb as int));
            lemma_blen_subrange(acc@, pa as int, pb as int);
        }
        match parse_parameter_range(acc, pa, pb, start, 0) {
            Some(fp) => {
                let located = locate_param_exec(fp, start, idx, v, ranges);
                let ghost old_r = r@.map_values(|p: FunctionParam| p@);
                r.push(located);
                proof {
                    assert(r@.map_values(|p: FunctionParam| p@) =~= old_r.push(located@));
                }
            },
            None => {},
        }
        i = i + 1;
    }
    proof {
        assert(ps.take(prs@.len() as int) =~= ps);
    }
    r
}

/// `locate_param` over the lines of `v`.
fn locate_param_exec(
    p: FunctionParam,
    from: usize,
    to: usize,
    v: &[char],
    ranges: &Vec<(usize, usize)>,
) -> (r: FunctionParam)
    requires
        blen(v@) <= usize::MAX,
        ranges_within(ranges@, 0, v@.len() as int),
        ranges_hold(v@, ranges@, lines(v@)),
    ensures
        r@ == locate_param(lines(v@), p@, from as int, to as int),
{
    let pat = crate::text::to_chars(p.name.as_str());
    let mut k = from;
    while k <= to
        invariant
            from <= k,
            blen(v@) <= usize::MAX,
            ranges_within(ranges@, 0, v@.len() as int),
            ranges_hold(v@, ranges@, lines(v@)),
            pat@ == p.name@,
            locate_param(lines(v@), p@, from as int, to as int) == locate_param(
                lines(v@),
                p@,
                k as int,
                to as int,
            ),
        decreases to + 1 - k,
    {
        if k < ranges.len() {
            let (la, lb) = ranges[k];
            proof {
                lemma_blen_subrange(v@, la as int, lb as int);
            }
            match crate::cursor::find_identifier_range(v, la, lb, pat.as_slice()) {
                Some(col) => {
                    let mut q = p;
                    q.line = k;
                    q.col = col;
                    return q;
                },
                None => {},
            }
        }
        if k == to {
            assert(locate_param(lines(v@), p@, k + 1, to as int) == p@);
            return p;
        }
        k = k + 1;
    }
    p
}

/// Parameters of a single-line header; `prs` are ranges in `v`, the line is
/// `v[la..lb]`.
fn line_params_exec(
    v: &[char],
    prs: &Vec<(usize, usize)>,
    idx: usize,
    base: usize,
    la: usize,
    lb: usize,
) -> (r: Vec<FunctionParam>)
    requires
        ranges_within(prs@, 0, v@.len() as int),
        blen(v@) <= usize::MAX,
        la <= lb <= v@.len(),
    ensures
        r@.map_values(|p: FunctionParam| p@) == line_params(
            Seq::new(prs@.len(), |k: int| v@.subrange(prs@[k].0 as int, prs@[k].1 as int)),
            idx as int,
            base as int,
            v@.subrange(la as int, lb as int),
        ),
{
    let ghost ps = Seq::new(prs@.len(), |k: int| v@.subrange(prs@[k].0 as int, prs@[k].1 as int));
    let mut r: Vec<FunctionParam> = Vec::new();
    let mut i: usize = 0;
    proof {
        lemma_blen_subrange(v@, la as int, lb as int);
    }
    while i < prs.len()
        invariant
            i <= prs@.len(),
            ranges_within(prs@, 0, v@.len() as int),
            blen(v@) <= usize::MAX,
            la <= lb <= v@.len(),
            blen(v@.subrange(la as int, lb as int)) <= usize::MAX,
            ps == Seq::new(prs@.len(), |k: int| v@.subrange(prs@[k].0 as int, prs@[k].1 as int)),
            r@.map_values(|p: FunctionParam| p@) == line_params(ps.take(i as int), idx as int, base as int, v@.subrange(la as int, lb as int)),
        decreases prs.len() - i,
    {
        let (pa, pb) = prs[i];
        proof {
            assert(ps.take(i + 1).drop_last() =~= ps.take(i as int));
            assert(ps.take(i + 1).last() == v@.subrange(pa as int, pb as int));
            lemma_blen_subrange(v@, pa as int, pb as int);
        }
        match parse_parameter_range(v, pa, pb, idx, 0) {
            Some(fp) => {
                let pat = crate::text::to_chars(fp.name.as_str());
                let col = match crate::cursor::find_identifier_range(v, la, lb, pat.as_slice()) {
                    Some(c) => c,
                    None => base,
                };
                let mut q = fp;
                q.col = col;
                let ghost old_r = r@.map_values(|p: FunctionParam| p@);
                r.push(q);
                proof {
                    assert(r@.map_values(|p: FunctionParam| p@) =~= old_r.push(q@));
                }
            },
            None => {},
        }
        i = i + 1;
    }
    proof {
        assert(ps.take(prs@.len() as int) =~= ps);
    }
    r
}

} // verus!

verus! {

/// The opt-view of an optional string slice.
pub open spec fn opt_str_view(o: Option<&str>) -> Option<Seq<char>> {
    match o {
        Some(s) => Some(s@),
        None => None,
    }
}

proof fn lemma_blen_take_split(v: Seq<char>, a: int, b: int)
    requires
        0 <= a <= b <= v.len(),
    ensures
        blen(v.take(b)) == blen(v.take(a)) + blen(v.subrange(a, b)),
        a < b ==> blen(v.take(b)) >= blen(v.take(a)) + 1,
{
    crate::text::lemma_blen_concat(v.take(a), v.subrange(a, b));
    assert(v.take(a) + v.subrange(a, b) =~= v.take(b));
    if a < b {
        crate::text::lemma_blen_first(v.subrange(a, b));
    }
}

/// Records a finished header: the function, and whether a body opens.
fn finish_header_exec(st: &mut FnState, f: FunctionSignature, decl: &[char], ci: usize, idx: usize)
    requires
        ci <= decl@.len(),
    ensures
        fn_state_model(final(st)) == finish_header(fn_state_model(old(st)), f@, decl@, ci as int, idx as int),
        final(st).depth <= old(st).depth + decl@.len(),
        final(st).pending is None,
        final(st).in_body ==> final(st).depth > 0 || old(st).in_body,
        !final(st).in_body ==> final(st).depth == old(st).depth,
        old(st).in_body ==> final(st).in_body,
{
    let ob = count_char_in(decl, ci, decl.len(), '{');
    let cb = count_char_in(decl, ci, decl.len(), '}');
    let mut f = f;
    let ghost old_results = fns_view(st.results@);
    if ob > cb {
        f.body_start_line = idx;
        let ghost fv = f@;
        st.results.push(f);
        st.docs = Vec::new();
        st.in_body = true;
        st.depth = ob - cb;
        st.pending = None;
        proof {
            assert(fns_view(st.results@) =~= old_results.push(fv));
            assert(strings_view(st.docs@) =~= Seq::<Seq<char>>::empty());
        }
    } else if ob == 0 && !ends_with_char(decl, 0, decl.len(), ';') {
        let ghost fv = f@;
        st.results.push(f);
        st.docs = Vec::new();
        st.expecting = true;
        st.pending = None;
        proof {
            assert(decl@.subrange(0, decl@.len() as int) =~= decl@);
            assert(fns_view(st.results@) =~= old_results.push(fv));
            assert(strings_view(st.docs@) =~= Seq::<Seq<char>>::empty());
        }
    } else {
        let ghost fv = f@;
        st.results.push(f);
        st.docs = Vec::new();
        st.pending = None;
        proof {
            assert(decl@.subrange(0, decl@.len() as int) =~= decl@);
            assert(fns_view(st.results@) =~= old_results.push(fv));
            assert(strings_view(st.docs@) =~= Seq::<Seq<char>>::empty());
        }
    }
}

/// Appends `v[a..b]` to a character vector.
fn extend_range(acc: &mut Vec<char>, v: &[char], a: usize, b: usize)
    requires
        a <= b <= v@.len(),
    ensures
        final(acc)@ == old(acc)@ + v@.subrange(a as int, b as int),
{
    let mut i = a;
    while i < b
        invariant
            a <= i <= b <= v@.len(),
            acc@ == old(acc)@ + v@.subrange(a as int, i as int),
        decreases b - i,
    {
        acc.push(v[i]);
        proof {
            assert(acc@ =~= old(acc)@ + v@.subrange(a as int, i + 1));
        }
        i = i + 1;
    }
}

/// A line (trimmed: `v[ta..tb]`) that continues a pending header.
fn continue_line(
    st: &mut FnState,
    v: &[char],
    ranges: &Vec<(usize, usize)>,
    ta: usize,
    tb: usize,
    prev: usize,
    lb: usize,
    idx: usize,
    src: Option<&str>,
    uri: Option<&str>,
)
    requires
        old(st).pending is Some,
        blen(v@) <= usize::MAX,
        prev < ta <= tb <= lb <= v@.len(),
        fn_state_ok(old(st), v@, prev as int),
        ranges_within(ranges@, 0, v@.len() as int),
        ranges_hold(v@, ranges@, lines(v@)),
    ensures
        fn_state_model(final(st)) == continue_step(
            fn_state_model(old(st)),
            fn_state_model(old(st)).pending->0,
            v@.subrange(ta as int, tb as int),
            idx as int,
            lines(v@),
            opt_str_view(src),
            opt_str_view(uri),
        ),
        fn_state_ok(final(st), v@, lb as int),
{
    let ghost st0 = fn_state_model(st);
    let Pending { name, start, col, acc } = st.pending.take().unwrap();
    let mut acc = acc;
    let ghost acc0 = acc@;
    acc.push(' ');
    extend_range(&mut acc, v, ta, tb);
    proof {
        assert(acc@ =~= acc0 + seq![' '] + v@.subrange(ta as int, tb as int));
        lemma_blen_take_split(v@, prev as int, ta as int);
        lemma_blen_take_split(v@, ta as int, tb as int);
        lemma_blen_take_split(v@, tb as int, lb as int);
        crate::text::lemma_blen_concat(acc0, seq![' ']);
        crate::text::lemma_blen_concat(acc0 + seq![' '], v@.subrange(ta as int, tb as int));
        crate::text::lemma_blen_single(' ');
        assert(blen(seq![' ']) == 1);
        crate::text::lemma_blen_take_le(v@, lb as int);
        crate::text::lemma_blen_ge_len(acc@);
    }
    let n = acc.len();
    match find_char(acc.as_slice(), 0, n, ')') {
        None => {
            st.pending = Some(Pending { name, start, col, acc });
            proof {
                assert(acc@.subrange(0, n as int) =~= acc@);
                let j0 = choose|j: int| 0 <= j < acc0.len() && acc0[j] == '(';
                assert(acc@[j0] == '(');
            }
        },
        Some(ci) => {
            proof {
                assert(acc@.subrange(0, n as int) =~= acc@);
                let j0 = choose|j: int| 0 <= j < acc0.len() && acc0[j] == '(';
                assert(acc@[j0] == '(');
                assert(ci >= acc0.len()) by {
                    if ci < acc0.len() {
                        assert(acc@[ci as int] == acc0[ci as int]);
                    }
                }
            }
            let op = match find_char(acc.as_slice(), 0, n, '(') {
                Some(k) => k,
                None => 0,
            };
            proof {
                let j0 = choose|j: int| 0 <= j < acc0.len() && acc0[j] == '(';
                assert(acc@[j0] == '(');
                assert(op <= j0);
            }
            let (pnames, prs) = param_list_exec(acc.as_slice(), op + 1, ci, true);
            let parsed = cont_params_exec(acc.as_slice(), &prs, start, idx, v, ranges);
            let doc = doc_of_exec(&st.docs);
            let label = range_string(acc.as_slice(), 0, ci + 1);
            let f = FunctionSignature {
                name,
                label,
                parameters: pnames,
                parsed_params: parsed,
                local_vars: Vec::new(),
                body_start_line: start,
                body_end_line: start,
                doc,
                source: opt_string(src),
                line: start,
                col,
                file_uri: opt_string(uri),
            };
            proof {
                let ps = crate::lists::param_list(acc@.subrange(op + 1, ci as int), true);
                assert(Seq::new(prs@.len(), |k: int| acc@.subrange(prs@[k].0 as int, prs@[k].1 as int)) =~= ps);
                assert(f@.local_vars =~= Seq::<LocalModel>::empty());
            }
            finish_header_exec(st, f, acc.as_slice(), ci, idx);
        },
    }
}

} // verus!

verus! {

/// A `//` line: its text, slashes and spaces removed, joins the pending doc
/// lines outside bodies.
fn comment_line(st: &mut FnState, v: &[char], ta: usize, tb: usize)
    requires
        ta <= tb <= v@.len(),
    ensures
        ({
            let line = v@.subrange(ta as int, tb as int);
            let d = trim(trim_start_set(line, seq!['/']));
            let s0 = fn_state_model(old(st));
            fn_state_model(final(st)) == if !s0.in_body && d.len() > 0 {
                FnScan { docs: s0.docs.push(d), ..s0 }
            } else {
                s0
            }
        }),
        final(st).depth == old(st).depth,
        final(st).pending == old(st).pending,
        final(st).in_body == old(st).in_body,
{
    let sa = trim_start_set_range(v, ta, tb, &['/']);
    proof {
        assert(seq!['/'] =~= ['/']@);
    }
    let (da, db) = trim_range(v, sa, tb);
    if !st.in_body && da < db {
        let ghost old_docs = strings_view(st.docs@);
        let d = range_string(v, da, db);
        st.docs.push(d);
        proof {
            assert(strings_view(st.docs@) =~= old_docs.push(v@.subrange(da as int, db as int)));
        }
    }
}

/// An empty line outside any body and pending header drops the doc lines.
fn empty_line(st: &mut FnState)
    ensures
        ({
            let s0 = fn_state_model(old(st));
            fn_state_model(final(st)) == if !s0.in_body && !s0.expecting && s0.pending is None {
                FnScan { docs: Seq::empty(), ..s0 }
            } else {
                s0
            }
        }),
        final(st).depth == old(st).depth,
        final(st).pending == old(st).pending,
        final(st).in_body == old(st).in_body,
{
    if !st.in_body && !st.expecting && st.pending.is_none() {
        st.docs = Vec::new();
        proof {
            assert(strings_view(st.docs@) =~= Seq::<Seq<char>>::empty());
        }
    }
}

/// Sets the body start line of the last function.
fn set_last_start_exec(results: &mut Vec<FunctionSignature>, line: usize)
    ensures
        fns_view(final(results)@) == set_last_start(fns_view(old(results)@), line as int),
{
    if results.len() > 0 {
        let ghost old_v = fns_view(results@);
        let mut f = results.pop().unwrap();
        f.body_start_line = line;
        results.push(f);
        proof {
            assert(fns_view(results@) =~= set_last_start(old_v, line as int));
        }
    }
}

/// Sets the body end line of the last function.
fn set_last_end_exec(results: &mut Vec<FunctionSignature>, line: usize)
    ensures
        fns_view(final(results)@) == set_last_end(fns_view(old(results)@), line as int),
{
    if results.len() > 0 {
        let ghost old_v = fns_view(results@);
        let mut f = results.pop().unwrap();
        f.body_end_line = line;
        results.push(f);
        proof {
            assert(fns_view(results@) =~= set_last_end(old_v, line as int));
        }
    }
}

/// Adds a local variable to the last function.
fn push_last_local_exec(results: &mut Vec<FunctionSignature>, lv: LocalVar)
    ensures
        fns_view(final(results)@) == push_last_local(fns_view(old(results)@), lv@),
{
    if results.len() > 0 {
        let ghost old_v = fns_view(results@);
        let ghost lvv = lv@;
        let mut f = results.pop().unwrap();
        let ghost old_locals = f@.local_vars;
        f.local_vars.push(lv);
        proof {
            assert(f@.local_vars =~= old_locals.push(lvv));
        }
        results.push(f);
        proof {
            assert(fns_view(results@) =~= push_last_local(old_v, lvv));
        }
    }
}

/// A line with `{` after a header that waits for its body.
fn expect_open_line(st: &mut FnState, ob: usize, cb: usize, idx: usize)
    requires
        ob > 0,
    ensures
        ({
            let s0 = fn_state_model(old(st));
            let results = set_last_start(s0.results, idx as int);
            fn_state_model(final(st)) == if ob > cb {
                FnScan { results, expecting: false, in_body: true, depth: (ob - cb) as nat, ..s0 }
            } else {
                FnScan { results, expecting: false, ..s0 }
            }
        }),
        final(st).pending == old(st).pending,
        final(st).depth <= old(st).depth + ob,
        !final(st).in_body ==> final(st).depth == old(st).depth,
        old(st).in_body ==> final(st).in_body,
{
    set_last_start_exec(&mut st.results, idx);
    st.expecting = false;
    if ob > cb {
        st.in_body = true;
        st.depth = ob - cb;
    }
}

/// A line inside a function body.
fn body_line(st: &mut FnState, v: &[char], la: usize, lb: usize, ta: usize, tb: usize, idx: usize)
    requires
        old(st).in_body,
        la <= ta <= tb <= lb <= v@.len(),
        blen(v@) <= usize::MAX,
        old(st).depth + (tb - ta) <= usize::MAX,
    ensures
        fn_state_model(final(st)) == body_step(
            fn_state_model(old(st)),
            v@.subrange(la as int, lb as int),
            v@.subrange(ta as int, tb as int),
            idx as int,
        ),
        final(st).depth <= old(st).depth + (tb - ta),
        final(st).pending == old(st).pending,
        final(st).in_body ==> final(st).depth > 0,
        !final(st).in_body ==> final(st).depth == 0,
{
    proof {
        lemma_blen_subrange(v@, la as int, lb as int);
    }
    match parse_local_range(v, la, lb, idx) {
        Some(lv) => push_last_local_exec(&mut st.results, lv),
        None => {},
    }
    let ob = count_char_in(v, ta, tb, '{');
    let cb = count_char_in(v, ta, tb, '}');
    let d = st.depth + ob;
    if d <= cb {
        set_last_end_exec(&mut st.results, idx);
        st.in_body = false;
        st.depth = 0;
    } else {
        st.depth = d - cb;
    }
}

} // verus!

verus! {

/// A `#define` line outside any body; the line (trimmed) is `v[ta..tb]`,
/// the raw line `v[la..lb]`.
fn define_line(
    st: &mut FnState,
    v: &[char],
    la: usize,
    lb: usize,
    ta: usize,
    tb: usize,
    idx: usize,
    src: Option<&str>,
    uri: Option<&str>,
)
    requires
        la <= ta <= tb <= lb <= v@.len(),
        ta + 7 <= tb,
        blen(v@) <= usize::MAX,
    ensures
        fn_state_model(final(st)) == define_step(
            fn_state_model(old(st)),
            v@.subrange(la as int, lb as int),
            v@.subrange(ta as int, tb as int),
            idx as int,
            opt_str_view(src),
            opt_str_view(uri),
        ),
        final(st).depth == old(st).depth,
        final(st).pending == old(st).pending,
        final(st).in_body == old(st).in_body,
{
    let ghost line = v@.subrange(ta as int, tb as int);
    let (a, b) = trim_range(v, ta + 7, tb);
    proof {
        assert(line.subrange(7, line.len() as int) =~= v@.subrange(ta + 7, tb as int));
    }
    let ghost t = v@.subrange(a as int, b as int);
    let op = match find_char(v, a, b, '(') {
        Some(k) => k,
        None => {
            return;
        },
    };
    let (na, nb) = trim_range(v, a, a + op);
    proof {
        assert(t.subrange(0, op as int) =~= v@.subrange(a as int, a + op));
    }
    if !is_identifier_range(v, na, nb) || is_invalid_name_exec(v, na, nb) {
        return;
    }
    let cp = match find_char(v, a, b, ')') {
        Some(k) => k,
        None => {
            return;
        },
    };
    proof {
        // A `)` before the `(` would stand in the name or in the blanks
        // around it; neither can hold one.
        if cp < op {
            let j = a + cp;
            assert(v@[j] == ')');
            if na <= j < nb {
                assert(v@.subrange(na as int, nb as int)[j - na] == ')');
            } else {
                assert(is_ws(v@[j]));
            }
        }
        assert(cp != op);
    }
    let (pnames, prs) = param_list_exec(v, a + op + 1, a + cp, false);
    proof {
        assert(t.subrange(op + 1, cp as int) =~= v@.subrange(a + op + 1, a + cp));
    }
    let mut label = range_string(v, na, nb);
    push_char(&mut label, '(');
    let joined = join_exec(&pnames, ", ");
    push_str(&mut label, joined.as_str());
    push_char(&mut label, ')');
    proof {
        reveal_strlit(", ");
        assert(", "@ =~= seq![',', ' ']);
    }
    let ghost params = strings_view(pnames@);
    let mut parsed: Vec<FunctionParam> = Vec::new();
    let mut i: usize = 0;
    while i < pnames.len()
        invariant
            i <= pnames@.len(),
            params == strings_view(pnames@),
            parsed@.map_values(|p: FunctionParam| p@) == macro_params(params, idx as int).take(i as int),
        decreases pnames.len() - i,
    {
        let ghost old_p = parsed@.map_values(|p: FunctionParam| p@);
        let fp = FunctionParam {
            name: pnames[i].clone(),
            param_type: crate::text::str_string("var"),
            line: idx,
            col: 0,
        };
        proof {
            assert(params[i as int] == pnames@[i as int]@);
            assert(fp@ == macro_params(params, idx as int)[i as int]);
        }
        let ghost fpv = fp@;
        parsed.push(fp);
        proof {
            assert(params.len() == pnames@.len());
            assert(parsed@.map_values(|p: FunctionParam| p@) =~= old_p.push(fpv));
            assert(macro_params(params, idx as int).take(i + 1) =~= macro_params(params, idx as int).take(i as int).push(fpv));
            assert(parsed@.map_values(|p: FunctionParam| p@) =~= macro_params(params, idx as int).take(i + 1));
        }
        i = i + 1;
    }
    proof {
        assert(macro_params(params, idx as int).take(pnames@.len() as int) =~= macro_params(params, idx as int));
        lemma_blen_subrange(v@, la as int, lb as int);
    }
    let col = col_of_exec(v, la, lb, na, nb, 0);
    let doc = doc_of_exec(&st.docs);
    let f = FunctionSignature {
        name: range_string(v, na, nb),
        label,
        parameters: pnames,
        parsed_params: parsed,
        local_vars: Vec::new(),
        body_start_line: idx,
        body_end_line: idx,
        doc,
        source: opt_string(src),
        line: idx,
        col,
        file_uri: opt_string(uri),
    };
    let ghost old_results = fns_view(st.results@);
    let ghost fv = f@;
    proof {
        let name = trim(t.subrange(0, op as int));
        assert(name == v@.subrange(na as int, nb as int));
        assert(find(t, seq!['(']) == Some(op as int));
        assert(find(t, seq![')']) == Some(cp as int));
        assert(fv.label == name + seq!['('] + join_with(params, seq![',', ' ']) + seq![')']);
        assert(fv.parameters == param_list(t.subrange(op + 1, cp as int), false));
        assert(fv.col == col_of(v@.subrange(la as int, lb as int), name, 0));
    }
    st.results.push(f);
    st.docs = Vec::new();
    proof {
        assert(fv.local_vars =~= Seq::<LocalModel>::empty());
        assert(fns_view(st.results@) =~= old_results.push(fv));
        assert(strings_view(st.docs@) =~= Seq::<Seq<char>>::empty());
    }
}

} // verus!

verus! {

/// A declaration line outside any body; the line (trimmed) is `v[ta..tb]`,
/// the raw line `v[la..lb]`.
fn header_line(
    st: &mut FnState,
    v: &[char],
    la: usize,
    lb: usize,
    ta: usize,
    tb: usize,
    idx: usize,
    src: Option<&str>,
    uri: Option<&str>,
)
    requires
        la <= ta <= tb <= lb <= v@.len(),
        blen(v@) <= usize::MAX,
        !old(st).in_body,
        old(st).pending is None,
        old(st).depth == 0,
        !reversed_decl(v@.subrange(ta as int, tb as int)),
    ensures
        fn_state_model(final(st)) == header_step(
            fn_state_model(old(st)),
            v@.subrange(la as int, lb as int),
            v@.subrange(ta as int, tb as int),
            idx as int,
            opt_str_view(src),
            opt_str_view(uri),
        ),
        fn_state_ok(final(st), v@, lb as int),
{
    let ghost line = v@.subrange(ta as int, tb as int);
    let (ds, de) = strip_attrs_range(v, ta, tb);
    let ghost decl = v@.subrange(ds as int, de as int);
    proof {
        lemma_blen_take_split(v@, ds as int, de as int);
        lemma_blen_take_split(v@, de as int, lb as int);
        crate::text::lemma_blen_take_le(v@, lb as int);
        crate::text::lemma_blen_ge_len(decl);
    }
    let op = match find_char(v, ds, de, '(') {
        Some(k) => k,
        None => {
            return;
        },
    };
    let (wa, wb) = trim_range(v, ds, ds + op);
    proof {
        assert(decl.subrange(0, op as int) =~= v@.subrange(ds as int, ds + op));
    }
    let wr = word_ranges(v, wa, wb);
    let ghost w = words(v@.subrange(wa as int, wb as int));
    let nw = wr.len();
    if nw < 2 {
        return;
    }
    let (fa, fb) = wr[nw - 1];
    let (ra, rb) = wr[nw - 2];
    proof {
        assert(v@.subrange(fa as int, fb as int) == w.last());
        assert(v@.subrange(ra as int, rb as int) == w[w.len() - 2]);
    }
    if !(is_identifier_range(v, fa, fb) && !is_invalid_name_exec(v, fa, fb) && !eq_str(
        v,
        fa,
        fb,
        "register",
    ) && !eq_str(v, fa, fb, "packoffset") && is_identifier_range(v, ra, rb)
        && !is_invalid_type_exec(v, ra, rb)) {
        return;
    }
    proof {
        lemma_blen_subrange(v@, la as int, lb as int);
    }
    let col = col_of_exec(v, la, lb, fa, fb, 0);
    let dv = slice_range(v, ds, de);
    match find_char(v, ds, de, ')') {
        None => {
            let name = range_string(v, fa, fb);
            proof {
                assert(dv@[op as int] == '(');
            }
            st.pending = Some(Pending { name, start: idx, col, acc: dv });
        },
        Some(ci) => {
            proof {
                assert(ci != op);
                assert(op < ci);
                lemma_blen_take_split(dv@, op as int, dv@.len() as int);
                assert(dv@.take(dv@.len() as int) =~= dv@);
            }
            let base = byte_offset(dv.as_slice(), op) + 1;
            let (pnames, prs) = param_list_exec(v, ds + op + 1, ds + ci, true);
            proof {
                assert(decl.subrange(op + 1, ci as int) =~= v@.subrange(ds + op + 1, ds + ci));
            }
            let parsed = line_params_exec(v, &prs, idx, base, la, lb);
            let doc = doc_of_exec(&st.docs);
            let f = FunctionSignature {
                name: range_string(v, fa, fb),
                label: range_string(v, ds, ds + ci + 1),
                parameters: pnames,
                parsed_params: parsed,
                local_vars: Vec::new(),
                body_start_line: idx,
                body_end_line: idx,
                doc,
                source: opt_string(src),
                line: idx,
                col,
                file_uri: opt_string(uri),
            };
            proof {
                let ps = param_list(decl.subrange(op + 1, ci as int), true);
                assert(Seq::new(prs@.len(), |k: int| v@.subrange(prs@[k].0 as int, prs@[k].1 as int)) =~= ps);
                assert(f@.local_vars =~= Seq::<LocalModel>::empty());
                assert(f@.label =~= decl.subrange(0, ci + 1));
            }
            finish_header_exec(st, f, dv.as_slice(), ci, idx);
        },
    }
}

} // verus!

verus! {

proof fn lemma_state_ok_mono(st: &FnState, v: Seq<char>, a: int, b: int)
    requires
        fn_state_ok(st, v, a),
        0 <= a <= b <= v.len(),
    ensures
        fn_state_ok(st, v, b),
{
    crate::text::lemma_blen_mono(v, a, b);
}

/// One line of the scanner, the raw line being `v[la..lb]` and `prev` the
/// end of the line before it.
fn fn_line(
    st: &mut FnState,
    v: &[char],
    ranges: &Vec<(usize, usize)>,
    idx: usize,
    prev: usize,
    la: usize,
    lb: usize,
    src: Option<&str>,
    uri: Option<&str>,
)
    requires
        blen(v@) <= usize::MAX,
        prev <= la <= lb <= v@.len(),
        old(st).pending is Some ==> prev < la,
        fn_state_ok(old(st), v@, prev as int),
        ranges_within(ranges@, 0, v@.len() as int),
        ranges_hold(v@, ranges@, lines(v@)),
        idx < lines(v@).len(),
        v@.subrange(la as int, lb as int) == lines(v@)[idx as int],
        !header_reversed(fn_state_model(old(st)), lines(v@), idx as int),
    ensures
        fn_state_model(final(st)) == fn_step(
            fn_state_model(old(st)),
            lines(v@),
            idx as int,
            opt_str_view(src),
            opt_str_view(uri),
        ),
        fn_state_ok(final(st), v@, lb as int),
{
    let ghost s0 = fn_state_model(st);
    let (ta, tb) = trim_range(v, la, lb);
    let ghost line = v@.subrange(ta as int, tb as int);
    proof {
        lemma_blen_take_split(v@, prev as int, ta as int);
        lemma_blen_take_split(v@, ta as int, tb as int);
        lemma_blen_take_split(v@, tb as int, lb as int);
        crate::text::lemma_blen_ge_len(line);
        crate::text::lemma_blen_take_le(v@, lb as int);
        lemma_state_ok_mono(st, v@, prev as int, lb as int);
    }
    if starts_with_str(v, ta, tb, "//") {
        comment_line(st, v, ta, tb);
        return;
    }
    if ta == tb {
        empty_line(st);
        return;
    }
    if st.pending.is_some() {
        continue_line(st, v, ranges, ta, tb, prev, lb, idx, src, uri);
        return;
    }
    let ob = count_char_in(v, ta, tb, '{');
    if st.expecting && ob > 0 {
        let cb = count_char_in(v, ta, tb, '}');
        expect_open_line(st, ob, cb, idx);
        return;
    }
    if st.expecting && ends_with_char(v, ta, tb, ';') {
        st.expecting = false;
    }
    proof {
        lemma_state_ok_mono(st, v@, prev as int, lb as int);
    }
    if !st.in_body && starts_with_str(v, ta, tb, "#define") {
        proof {
            reveal_strlit("#define");
        }
        define_line(st, v, la, lb, ta, tb, idx, src, uri);
    } else if !st.in_body && !starts_with_str(v, ta, tb, "return") && !starts_with_char(
        v,
        ta,
        tb,
        '#',
    ) {
        header_line(st, v, la, lb, ta, tb, idx, src, uri);
    } else if st.in_body {
        body_line(st, v, la, lb, ta, tb, idx);
    }
}

} // verus!

verus! {

/// The functions, function-like macros, parameters and local variables that
/// a text declares, each labelled with `source_name` and `file_uri`.
pub fn scan_user_functions(text: &str, source_name: Option<&str>, file_uri: Option<&str>) -> (r: Vec<
    FunctionSignature,
>)
    requires
        fn_scan_well_formed(text@, opt_str_view(source_name), opt_str_view(file_uri)),
    ensures
        fns_view(r@) == user_functions(text@, opt_str_view(source_name), opt_str_view(file_uri)),
{
    let ghost src = opt_str_view(source_name);
    let ghost uri = opt_str_view(file_uri);
    let (v, ranges) = lines_of(text);
    let ghost ls = lines(v@);
    let mut st = FnState {
        results: Vec::new(),
        docs: Vec::new(),
        in_body: false,
        expecting: false,
        depth: 0,
        pending: None,
    };
    proof {
        assert(fns_view(st.results@) =~= Seq::<FnModel>::empty());
        assert(strings_view(st.docs@) =~= Seq::<Seq<char>>::empty());
        assert(fn_state_model(&st) == fn_scan(ls, 0, src, uri));
    }
    let mut prev: usize = 0;
    let mut idx: usize = 0;
    while idx < ranges.len()
        invariant
            v@ == text@,
            ls == lines(v@),
            blen(v@) <= usize::MAX,
            ranges_within(ranges@, 0, v@.len() as int),
            ranges_gapped(ranges@),
            ranges_hold(v@, ranges@, ls),
            idx <= ranges@.len(),
            prev <= v@.len(),
            idx == 0 ==> prev == 0 && st.pending is None,
            idx > 0 ==> prev == ranges@[idx - 1].1,
            fn_state_model(&st) == fn_scan(ls, idx as int, src, uri),
            fn_state_ok(&st, v@, prev as int),
            fn_scan_well_formed(text@, src, uri),
            src == opt_str_view(source_name),
            uri == opt_str_view(file_uri),
        decreases ranges.len() - idx,
    {
        let (la, lb) = ranges[idx];
        proof {
            assert(!header_reversed(fn_scan(lines(text@), idx as int, src, uri), lines(text@), idx as int));
            if idx > 0 {
                assert(ranges@[idx - 1].1 < ranges@[idx as int].0);
            }
        }
        fn_line(&mut st, v.as_slice(), &ranges, idx, prev, la, lb, source_name, file_uri);
        proof {
            assert(fn_scan(ls, idx + 1, src, uri) == fn_step(fn_scan(ls, idx as int, src, uri), ls, idx as int, src, uri));
        }
        prev = lb;
        idx = idx + 1;
    }
    st.results
}

} // verus!

verus! {

/// Line `line` lies between the header of `f` and the end of its body.
pub open spec fn encloses(f: FnModel, line: int) -> bool {
    f.line <= line <= f.body_end_line
}

/// The first function whose header-to-body-end span holds `line_idx`.
pub fn find_enclosing_function(funcs: &[FunctionSignature], line_idx: usize) -> (r: Option<&FunctionSignature>)
    ensures
        r is None <==> forall|i: int| 0 <= i < funcs@.len() ==> !encloses(#[trigger] funcs@[i]@, line_idx as int),
        r matches Some(f) ==> exists|i: int|
            0 <= i < funcs@.len() && *f == funcs@[i] && encloses(funcs@[i]@, line_idx as int)
                && forall|j: int| 0 <= j < i ==> !encloses(#[trigger] funcs@[j]@, line_idx as int),
{
    let mut i: usize = 0;
    while i < funcs.len()
        invariant
            i <= funcs@.len(),
            forall|j: int| 0 <= j < i ==> !encloses(#[trigger] funcs@[j]@, line_idx as int),
        decreases funcs.len() - i,
    {
        if funcs[i].line <= line_idx && line_idx <= funcs[i].body_end_line {
            assert(encloses(funcs@[i as int]@, line_idx as int));
            return Some(&funcs[i]);
        }
        i = i + 1;
    }
    None
}

} // verus!

verus! {

/// Whether the trimmed line `v[ta..tb]` is a reversed declaration.
fn reversed_decl_exec(v: &[char], ta: usize, tb: usize) -> (r: bool)
    requires
        ta <= tb <= v@.len(),
    ensures
        r == reversed_decl(v@.subrange(ta as int, tb as int)),
{
    let (ds, de) = strip_attrs_range(v, ta, tb);
    let ghost decl = v@.subrange(ds as int, de as int);
    let op = match find_char(v, ds, de, '(') {
        Some(k) => k,
        None => return false,
    };
    let ci = match find_char(v, ds, de, ')') {
        Some(k) => k,
        None => return false,
    };
    let (wa, wb) = trim_range(v, ds, ds + op);
    proof {
        assert(decl.subrange(0, op as int) =~= v@.subrange(ds as int, ds + op));
    }
    let wr = word_ranges(v, wa, wb);
    let ghost w = words(v@.subrange(wa as int, wb as int));
    let nw = wr.len();
    if nw < 2 {
        return false;
    }
    let (fa, fb) = wr[nw - 1];
    let (ra, rb) = wr[nw - 2];
    proof {
        assert(v@.subrange(fa as int, fb as int) == w.last());
        assert(v@.subrange(ra as int, rb as int) == w[w.len() - 2]);
    }
    is_identifier_range(v, fa, fb) && !is_invalid_name_exec(v, fa, fb) && !eq_str(v, fa, fb, "register") && !eq_str(
        v,
        fa,
        fb,
        "packoffset",
    ) && is_identifier_range(v, ra, rb) && !is_invalid_type_exec(v, ra, rb) && ci < op
}

/// Whether the scanner in state `st` meets a reversed header on the line
/// `v[la..lb]`, line `idx` of `v`.
fn header_reversed_exec(st: &FnState, v: &[char], la: usize, lb: usize, idx: usize) -> (r: bool)
    requires
        la <= lb <= v@.len(),
        idx < lines(v@).len(),
        v@.subrange(la as int, lb as int) == lines(v@)[idx as int],
    ensures
        r == header_reversed(fn_state_model(st), lines(v@), idx as int),
{
    let (ta, tb) = trim_range(v, la, lb);
    if starts_with_str(v, ta, tb, "//") || ta == tb || st.pending.is_some() || st.in_body {
        return false;
    }
    if st.expecting && count_char_in(v, ta, tb, '{') > 0 {
        return false;
    }
    if starts_with_str(v, ta, tb, "#define") || starts_with_str(v, ta, tb, "return") || starts_with_char(v, ta, tb, '#') {
        return false;
    }
    reversed_decl_exec(v, ta, tb)
}

/// Whether `text` can be scanned for functions: the scanner meets no
/// reversed single-line header (`fn_scan_well_formed`).
pub fn functions_scan_ok(text: &str, source_name: Option<&str>, file_uri: Option<&str>) -> (r: bool)
    ensures
        r == fn_scan_well_formed(text@, opt_str_view(source_name), opt_str_view(file_uri)),
{
    let ghost src = opt_str_view(source_name);
    let ghost uri = opt_str_view(file_uri);
    let (v, ranges) = lines_of(text);
    let ghost ls = lines(v@);
    let mut st = FnState {
        results: Vec::new(),
        docs: Vec::new(),
        in_body: false,
        expecting: false,
        depth: 0,
        pending: None,
    };
    proof {
        assert(fns_view(st.results@) =~= Seq::<FnModel>::empty());
        assert(strings_view(st.docs@) =~= Seq::<Seq<char>>::empty());
        assert(fn_state_model(&st) == fn_scan(ls, 0, src, uri));
    }
    let mut prev: usize = 0;
    let mut idx: usize = 0;
    while idx < ranges.len()
        invariant
            v@ == text@,
            ls == lines(v@),
            blen(v@) <= usize::MAX,
            ranges_within(ranges@, 0, v@.len() as int),
            ranges_gapped(ranges@),
            ranges_hold(v@, ranges@, ls),
            idx <= ranges@.len(),
            prev <= v@.len(),
            idx == 0 ==> prev == 0 && st.pending is None,
            idx > 0 ==> prev == ranges@[idx - 1].1,
            fn_state_model(&st) == fn_scan(ls, idx as int, src, uri),
            fn_state_ok(&st, v@, prev as int),
            forall|k: int| 0 <= k < idx ==> !header_reversed(#[trigger] fn_scan(ls, k, src, uri), ls, k),
            src == opt_str_view(source_name),
            uri == opt_str_view(file_uri),
        decreases ranges.len() - idx,
    {
        let (la, lb) = ranges[idx];
        proof {
            if idx > 0 {
                assert(ranges@[idx - 1].1 < ranges@[idx as int].0);
            }
        }
        if header_reversed_exec(&st, v.as_slice(), la, lb, idx) {
            return false;
        }
        fn_line(&mut st, v.as_slice(), &ranges, idx, prev, la, lb, source_name, file_uri);
        proof {
            assert(fn_scan(ls, idx + 1, src, uri) == fn_step(fn_scan(ls, idx as int, src, uri), ls, idx as int, src, uri));
        }
        prev = lb;
        idx = idx + 1;
    }
    true
}

} // verus!
