//! Go to definition: where the include or the symbol under the cursor is
//! defined.
use vstd::prelude::*;
use crate::cursor::extract_word_at_pos;
use crate::decls::{LocalModel, ParamModel};
use crate::diagnostics::{Position, Range};
use crate::functions::{encloses, find_enclosing_function, fns_view, FnModel, FunctionSignature};
use crate::hover::{first_of, lemma_first_of_at, lemma_first_of_none, word_at};
use crate::includes::include_target;
use crate::lists::strings_view;
use crate::splits::{lines, lines_of};
use crate::strops::{ends_with, eq_ranges, eq_str};
use crate::structs::{structs_view, StructDef, StructModel};
use crate::symbols::span;
use crate::text::{blen, byte_offset, range_string, str_string, to_chars, to_chars_sized};
use crate::variables::{vars_view, VarModel, VariableSymbol};

verus! {

/// A place in a document.
#[derive(Debug, Clone)]
pub struct Location {
    pub uri: String,
    pub range: Range,
}

/// What a `Location` holds.
pub struct LocModel {
    pub uri: Seq<char>,
    pub range: Range,
}

impl View for Location {
    type V = LocModel;

    open spec fn view(&self) -> LocModel {
        LocModel { uri: self.uri@, range: self.range }
    }
}

pub open spec fn opt_loc(o: Option<Location>) -> Option<LocModel> {
    match o {
        Some(l) => Some(l@),
        None => None,
    }
}

/// The start of a document.
pub open spec fn doc_start(uri: Seq<char>) -> LocModel {
    LocModel { uri, range: span(0, 0, 0, 0) }
}

/// The span of `name` at `(line, col)` in the document `uri`.
pub open spec fn name_loc(uri: Seq<char>, line: int, col: int, name: Seq<char>) -> LocModel {
    LocModel { uri, range: span(line, col, line, col + blen(name)) }
}

pub open spec fn file_or(u: Option<Seq<char>>, dflt: Seq<char>) -> Seq<char> {
    match u {
        Some(x) => x,
        None => dflt,
    }
}

/// An open document whose URI ends with the include path (with `\` read as
/// `/`) after a `/`, or with the path itself.
pub open spec fn include_key_match(k: Seq<char>, inc: Seq<char>) -> bool {
    ends_with(k, seq!['/'] + inc.map_values(|c: char| if c == '\\' { '/' } else { c })) || ends_with(k, inc)
}

/// Every name's span fits in `usize`.
pub open spec fn spans_fit(fs: Seq<FnModel>, vs: Seq<VarModel>, ss: Seq<StructModel>) -> bool {
    &&& forall|i: int| 0 <= i < fs.len() ==> #[trigger] fs[i].col + blen(fs[i].name) <= usize::MAX
    &&& forall|i: int, k: int|
        0 <= i < fs.len() && 0 <= k < fs[i].parsed_params.len() ==> #[trigger] fs[i].parsed_params[k].col + blen(
            fs[i].parsed_params[k].name,
        ) <= usize::MAX
    &&& forall|i: int, k: int|
        0 <= i < fs.len() && 0 <= k < fs[i].local_vars.len() ==> #[trigger] fs[i].local_vars[k].col + blen(
            fs[i].local_vars[k].name,
        ) <= usize::MAX
    &&& forall|i: int| 0 <= i < vs.len() ==> #[trigger] vs[i].col + blen(vs[i].name) <= usize::MAX
    &&& forall|i: int| 0 <= i < ss.len() ==> #[trigger] ss[i].col + blen(ss[i].name) <= usize::MAX
}

/// The definition of `w` inside the function `f`: a parameter, else a local.
pub open spec fn scope_definition(f: FnModel, w: Seq<char>, uri: Seq<char>) -> Option<LocModel> {
    let file = file_or(f.file_uri, uri);
    match first_of(f.parsed_params, |p: ParamModel| p.name == w, 0) {
        Some(k) => Some(name_loc(file, f.parsed_params[k].line, f.parsed_params[k].col, f.parsed_params[k].name)),
        None => match first_of(f.local_vars, |v: LocalModel| v.name == w, 0) {
            Some(k) => Some(name_loc(file, f.local_vars[k].line, f.local_vars[k].col, f.local_vars[k].name)),
            None => None,
        },
    }
}

/// The definition of `w` among the functions, then the variables, then the
/// structs.
pub open spec fn global_definition(
    w: Seq<char>,
    uri: Seq<char>,
    fs: Seq<FnModel>,
    vs: Seq<VarModel>,
    ss: Seq<StructModel>,
) -> Option<LocModel> {
    match first_of(fs, |f: FnModel| f.name == w, 0) {
        Some(k) => Some(name_loc(file_or(fs[k].file_uri, uri), fs[k].line, fs[k].col, fs[k].name)),
        None => match first_of(vs, |v: VarModel| v.name == w, 0) {
            Some(k) => Some(name_loc(file_or(vs[k].file_uri, uri), vs[k].line, vs[k].col, vs[k].name)),
            None => match first_of(ss, |s: StructModel| s.name == w, 0) {
                Some(k) => Some(name_loc(file_or(ss[k].file_uri, uri), ss[k].line, ss[k].col, ss[k].name)),
                None => None,
            },
        },
    }
}

/// The definition at line `line`, byte column `col` of the document `uri`:
/// on an `#include` line, the included document (`include_hit`, found next to
/// the document, else the first open document whose URI ends with the
/// path); else, for the word under the cursor, a parameter or local of the
/// function around the line, else a function, variable or struct.
pub open spec fn definition_of(
    text: Seq<char>,
    uri: Seq<char>,
    line: int,
    col: int,
    keys: Seq<Seq<char>>,
    include_hit: Option<Seq<char>>,
    fs: Seq<FnModel>,
    vs: Seq<VarModel>,
    ss: Seq<StructModel>,
) -> Option<LocModel> {
    let ls = lines(text);
    if !(0 <= line < ls.len()) {
        None
    } else {
        let by_include = match include_target(ls[line]) {
            Some(inc) => match include_hit {
                Some(h) => Some(doc_start(h)),
                None => match first_of(keys, |k: Seq<char>| include_key_match(k, inc), 0) {
                    Some(i) => Some(doc_start(keys[i])),
                    None => None,
                },
            },
            None => None,
        };
        match by_include {
            Some(l) => Some(l),
            None => {
                let w = word_at(ls[line], col);
                if w.len() == 0 {
                    None
                } else {
                    let scoped = match first_of(fs, |f: FnModel| encloses(f, line), 0) {
                        Some(fi) => scope_definition(fs[fi], w, uri),
                        None => None,
                    };
                    match scoped {
                        Some(l) => Some(l),
                        None => global_definition(w, uri, fs, vs, ss),
                    }
                }
            },
        }
    }
}

/// The target of the `#include` on line `line_idx` of `text`, if that line is one.
pub fn include_target_at(text: &str, line_idx: usize) -> (r: Option<String>)
    ensures
        crate::text::opt_view(r) == (if line_idx < lines(text@).len() {
            include_target(lines(text@)[line_idx as int])
        } else {
            None
        }),
{
    let (v, ranges) = lines_of(text);
    if line_idx >= ranges.len() {
        return None;
    }
    let (la, lb) = ranges[line_idx];
    proof {
        assert(lines(v@)[line_idx as int] == v@.subrange(la as int, lb as int));
    }
    match crate::includes::include_target_range(v.as_slice(), la, lb) {
        Some((a, b)) => Some(range_string(v.as_slice(), a, b)),
        None => None,
    }
}

/// `include_key_match(k, v[a..b])`.
fn include_key_match_exec(k: &str, v: &[char], a: usize, b: usize) -> (r: bool)
    requires
        a <= b <= v@.len(),
    ensures
        r == include_key_match(k@, v@.subrange(a as int, b as int)),
{
    let ghost inc = v@.subrange(a as int, b as int);
    let mut suffix: Vec<char> = Vec::new();
    suffix.push('/');
    let mut i = a;
    while i < b
        invariant
            a <= i <= b <= v@.len(),
            inc == v@.subrange(a as int, b as int),
            suffix@ == seq!['/'] + v@.subrange(a as int, i as int).map_values(|c: char| if c == '\\' { '/' } else { c }),
        decreases b - i,
    {
        let c = v[i];
        suffix.push(if c == '\\' { '/' } else { c });
        proof {
            assert(v@.subrange(a as int, i + 1).map_values(|c: char| if c == '\\' { '/' } else { c })
                =~= v@.subrange(a as int, i as int).map_values(|c: char| if c == '\\' { '/' } else { c }).push(
                if c == '\\' { '/' } else { c },
            ));
        }
        i = i + 1;
    }
    let kc = to_chars(k);
    let kl = kc.len();
    let sl = suffix.len();
    let m1 = sl <= kl && eq_ranges(kc.as_slice(), kl - sl, kl, suffix.as_slice(), 0, sl);
    proof {
        assert(suffix@.subrange(0, sl as int) =~= suffix@);
        if sl <= kl {
            assert(kc@.subrange(kl - sl, kl as int) =~= kc@.subrange(kc@.len() - suffix@.len(), kc@.len() as int));
        }
    }
    let il = b - a;
    let m2 = il <= kl && eq_ranges(kc.as_slice(), kl - il, kl, v, a, b);
    proof {
        if il <= kl {
            assert(kc@.subrange(kl - il, kl as int) =~= kc@.subrange(kc@.len() - inc.len(), kc@.len() as int));
        }
    }
    m1 || m2
}

/// Byte length of a string.
fn str_blen(s: &str) -> (r: usize)
    ensures
        r == blen(s@),
{
    let c = to_chars_sized(s);
    proof {
        assert(c@.take(c@.len() as int) =~= c@);
    }
    byte_offset(c.as_slice(), c.len())
}

/// The location of `name` at `(line, col)` of `file`.
fn name_loc_exec(file: &str, line: usize, col: usize, name: &str) -> (r: Location)
    requires
        col + blen(name@) <= usize::MAX,
    ensures
        r@ == name_loc(file@, line as int, col as int, name@),
{
    let end = col + str_blen(name);
    Location {
        uri: str_string(file),
        range: Range { start: Position { line, character: col }, end: Position { line, character: end } },
    }
}

/// `file_or(u, dflt)` at run time.
fn file_or_exec<'a>(u: &'a Option<String>, dflt: &'a str) -> (r: &'a str)
    ensures
        r@ == file_or(crate::text::opt_view(*u), dflt@),
{
    match u {
        Some(x) => x.as_str(),
        None => dflt,
    }
}

/// `scope_definition(f@, w@, uri@)` at run time.
fn scope_definition_exec(f: &FunctionSignature, w: &[char], uri: &str) -> (r: Option<Location>)
    requires
        forall|k: int| 0 <= k < f@.parsed_params.len() ==> #[trigger] f@.parsed_params[k].col + blen(
            f@.parsed_params[k].name,
        ) <= usize::MAX,
        forall|k: int| 0 <= k < f@.local_vars.len() ==> #[trigger] f@.local_vars[k].col + blen(f@.local_vars[k].name)
            <= usize::MAX,
    ensures
        opt_loc(r) == scope_definition(f@, w@, uri@),
{
    let ghost fv = f@;
    let ghost pp = |p: ParamModel| p.name == w@;
    let ghost pl = |v: LocalModel| v.name == w@;
    let file = file_or_exec(&f.file_uri, uri);
    let mut k: usize = 0;
    while k < f.parsed_params.len()
        invariant
            fv == f@,
            pp == (|p: ParamModel| p.name == w@),
            file@ == file_or(fv.file_uri, uri@),
            forall|j: int| 0 <= j < fv.parsed_params.len() ==> #[trigger] fv.parsed_params[j].col + blen(
                fv.parsed_params[j].name,
            ) <= usize::MAX,
            k <= f.parsed_params@.len(),
            forall|j: int| 0 <= j < k ==> !pp(#[trigger] fv.parsed_params[j]),
        decreases f.parsed_params.len() - k,
    {
        proof {
            assert(w@.subrange(0, w@.len() as int) =~= w@);
            assert(fv.parsed_params[k as int] == f.parsed_params@[k as int]@);
        }
        if eq_str(w, 0, w.len(), f.parsed_params[k].name.as_str()) {
            proof {
                lemma_first_of_at(fv.parsed_params, pp, k as int, 0);
            }
            let p = &f.parsed_params[k];
            return Some(name_loc_exec(file, p.line, p.col, p.name.as_str()));
        }
        k = k + 1;
    }
    proof {
        lemma_first_of_none(fv.parsed_params, pp, 0);
    }
    let mut k: usize = 0;
    while k < f.local_vars.len()
        invariant
            fv == f@,
            pl == (|v: LocalModel| v.name == w@),
            pp == (|p: ParamModel| p.name == w@),
            first_of(fv.parsed_params, pp, 0) is None,
            file@ == file_or(fv.file_uri, uri@),
            forall|j: int| 0 <= j < fv.local_vars.len() ==> #[trigger] fv.local_vars[j].col + blen(fv.local_vars[j].name)
                <= usize::MAX,
            k <= f.local_vars@.len(),
            forall|j: int| 0 <= j < k ==> !pl(#[trigger] fv.local_vars[j]),
        decreases f.local_vars.len() - k,
    {
        proof {
            assert(w@.subrange(0, w@.len() as int) =~= w@);
            assert(fv.local_vars[k as int] == f.local_vars@[k as int]@);
        }
        if eq_str(w, 0, w.len(), f.local_vars[k].name.as_str()) {
            proof {
                lemma_first_of_at(fv.local_vars, pl, k as int, 0);
            }
            let v = &f.local_vars[k];
            return Some(name_loc_exec(file, v.line, v.col, v.name.as_str()));
        }
        k = k + 1;
    }
    proof {
        lemma_first_of_none(fv.local_vars, pl, 0);
    }
    None
}

/// `global_definition` at run time.
fn global_definition_exec(
    w: &[char],
    uri: &str,
    fs: &[FunctionSignature],
    vs: &[VariableSymbol],
    ss: &[StructDef],
) -> (r: Option<Location>)
    requires
        spans_fit(fns_view(fs@), vars_view(vs@), structs_view(ss@)),
    ensures
        opt_loc(r) == global_definition(w@, uri@, fns_view(fs@), vars_view(vs@), structs_view(ss@)),
{
    let ghost fsv = fns_view(fs@);
    let ghost vsv = vars_view(vs@);
    let ghost ssv = structs_view(ss@);
    let ghost pf = |f: FnModel| f.name == w@;
    let ghost pv = |v: VarModel| v.name == w@;
    let ghost psd = |x: StructModel| x.name == w@;
    proof {
        assert(w@.subrange(0, w@.len() as int) =~= w@);
    }
    let mut k: usize = 0;
    while k < fs.len()
        invariant
            fsv == fns_view(fs@),
            pf == (|f: FnModel| f.name == w@),
            w@.subrange(0, w@.len() as int) == w@,
            spans_fit(fsv, vsv, ssv),
            k <= fs@.len(),
            forall|j: int| 0 <= j < k ==> !pf(#[trigger] fsv[j]),
        decreases fs.len() - k,
    {
        proof {
            assert(fsv[k as int] == fs@[k as int]@);
        }
        if eq_str(w, 0, w.len(), fs[k].name.as_str()) {
            proof {
                lemma_first_of_at(fsv, pf, k as int, 0);
            }
            let f = &fs[k];
            let file = file_or_exec(&f.file_uri, uri);
            return Some(name_loc_exec(file, f.line, f.col, f.name.as_str()));
        }
        k = k + 1;
    }
    proof {
        lemma_first_of_none(fsv, pf, 0);
    }
    let mut k: usize = 0;
    while k < vs.len()
        invariant
            vsv == vars_view(vs@),
            pv == (|v: VarModel| v.name == w@),
            fsv == fns_view(fs@),
            pf == (|f: FnModel| f.name == w@),
            first_of(fsv, pf, 0) is None,
            w@.subrange(0, w@.len() as int) == w@,
            spans_fit(fsv, vsv, ssv),
            k <= vs@.len(),
            forall|j: int| 0 <= j < k ==> !pv(#[trigger] vsv[j]),
        decreases vs.len() - k,
    {
        proof {
            assert(vsv[k as int] == vs@[k as int]@);
        }
        if eq_str(w, 0, w.len(), vs[k].name.as_str()) {
            proof {
                lemma_first_of_at(vsv, pv, k as int, 0);
            }
            let v = &vs[k];
            let file = file_or_exec(&v.file_uri, uri);
            return Some(name_loc_exec(file, v.line, v.col, v.name.as_str()));
        }
        k = k + 1;
    }
    proof {
        lemma_first_of_none(vsv, pv, 0);
    }
    let mut k: usize = 0;
    while k < ss.len()
        invariant
            ssv == structs_view(ss@),
            psd == (|x: StructModel| x.name == w@),
            fsv == fns_view(fs@),
            pf == (|f: FnModel| f.name == w@),
            first_of(fsv, pf, 0) is None,
            vsv == vars_view(vs@),
            pv == (|v: VarModel| v.name == w@),
            first_of(vsv, pv, 0) is None,
            w@.subrange(0, w@.len() as int) == w@,
            spans_fit(fsv, vsv, ssv),
            k <= ss@.len(),
            forall|j: int| 0 <= j < k ==> !psd(#[trigger] ssv[j]),
        decreases ss.len() - k,
    {
        proof {
            assert(ssv[k as int] == ss@[k as int]@);
        }
        if eq_str(w, 0, w.len(), ss[k].name.as_str()) {
            proof {
                lemma_first_of_at(ssv, psd, k as int, 0);
            }
            let x = &ss[k];
            let file = file_or_exec(&x.file_uri, uri);
            return Some(name_loc_exec(file, x.line, x.col, x.name.as_str()));
        }
        k = k + 1;
    }
    proof {
        lemma_first_of_none(ssv, psd, 0);
    }
    None
}

/// The definition at line `line_idx`, byte column `col_idx` of the document
/// `uri` with text `text`: on an `#include` line, `include_hit` (the
/// included file next to the document, when it exists) or else the first
/// open document (`cache_keys`) whose URI ends with the path; otherwise, for
/// the word under the cursor, a parameter or local variable of the function
/// around the line, else the first of `user_funcs`, `user_vars` or
/// `user_structs` with that name; `None` when nothing matches.
pub fn get_definition(
    text: &str,
    uri: &str,
    line_idx: usize,
    col_idx: usize,
    cache_keys: &[String],
    include_hit: Option<&str>,
    user_funcs: &[FunctionSignature],
    user_vars: &[VariableSymbol],
    user_structs: &[StructDef],
) -> (r: Option<Location>)
    requires
        spans_fit(fns_view(user_funcs@), vars_view(user_vars@), structs_view(user_structs@)),
    ensures
        opt_loc(r) == definition_of(
            text@,
            uri@,
            line_idx as int,
            col_idx as int,
            strings_view(cache_keys@),
            crate::functions::opt_str_view(include_hit),
            fns_view(user_funcs@),
            vars_view(user_vars@),
            structs_view(user_structs@),
        ),
{
    let (v, ranges) = lines_of(text);
    let ghost ls = lines(v@);
    if line_idx >= ranges.len() {
        return None;
    }
    let (la, lb) = ranges[line_idx];
    proof {
        assert(ls[line_idx as int] == v@.subrange(la as int, lb as int));
    }
    let ghost keys = strings_view(cache_keys@);
    match crate::includes::include_target_range(v.as_slice(), la, lb) {
        Some((ia, ib)) => {
            match include_hit {
                Some(h) => {
                    return Some(
                        Location {
                            uri: str_string(h),
                            range: Range {
                                start: Position { line: 0, character: 0 },
                                end: Position { line: 0, character: 0 },
                            },
                        },
                    );
                },
                None => {},
            }
            let ghost inc = v@.subrange(ia as int, ib as int);
            let ghost pk = |k: Seq<char>| include_key_match(k, inc);
            let mut i: usize = 0;
            while i < cache_keys.len()
                invariant
                    keys == strings_view(cache_keys@),
                    pk == (|k: Seq<char>| include_key_match(k, inc)),
                    inc == v@.subrange(ia as int, ib as int),
                    ia <= ib <= v@.len(),
                    include_hit is None,
                    v@ == text@,
                    ls == lines(v@),
                    line_idx < ls.len(),
                    include_target(ls[line_idx as int]) == Some(inc),
                    i <= cache_keys@.len(),
                    forall|j: int| 0 <= j < i ==> !pk(#[trigger] keys[j]),
                decreases cache_keys.len() - i,
            {
                proof {
                    assert(keys[i as int] == cache_keys@[i as int]@);
                }
                if include_key_match_exec(cache_keys[i].as_str(), v.as_slice(), ia, ib) {
                    proof {
                        lemma_first_of_at(keys, pk, i as int, 0);
                    }
                    return Some(
                        Location {
                            uri: cache_keys[i].clone(),
                            range: Range {
                                start: Position { line: 0, character: 0 },
                                end: Position { line: 0, character: 0 },
                            },
                        },
                    );
                }
                i = i + 1;
            }
            proof {
                lemma_first_of_none(keys, pk, 0);
            }
        },
        None => {},
    }
    let line = range_string(v.as_slice(), la, lb);
    let word = extract_word_at_pos(line.as_str(), col_idx);
    let wc = to_chars(word.as_str());
    if wc.len() == 0 {
        return None;
    }
    let ghost fsv = fns_view(user_funcs@);
    let ghost pe = |f: FnModel| encloses(f, line_idx as int);
    let scoped = match find_enclosing_function(user_funcs, line_idx) {
        Some(f) => {
            let ghost i = choose|i: int|
                0 <= i < user_funcs@.len() && *f == user_funcs@[i] && encloses(user_funcs@[i]@, line_idx as int)
                    && forall|j: int| 0 <= j < i ==> !encloses(#[trigger] user_funcs@[j]@, line_idx as int);
            proof {
                assert forall|j: int| 0 <= j < i implies !pe(#[trigger] fsv[j]) by {
                    assert(fsv[j] == user_funcs@[j]@);
                }
                assert(fsv[i] == user_funcs@[i]@);
                lemma_first_of_at(fsv, pe, i, 0);
                assert forall|k: int| 0 <= k < f@.parsed_params.len() implies #[trigger] f@.parsed_params[k].col + blen(
                    f@.parsed_params[k].name,
                ) <= usize::MAX by {
                    assert(fsv[i].parsed_params[k] == f@.parsed_params[k]);
                }
                assert forall|k: int| 0 <= k < f@.local_vars.len() implies #[trigger] f@.local_vars[k].col + blen(
                    f@.local_vars[k].name,
                ) <= usize::MAX by {
                    assert(fsv[i].local_vars[k] == f@.local_vars[k]);
                }
            }
            scope_definition_exec(f, wc.as_slice(), uri)
        },
        None => {
            proof {
                assert forall|j: int| 0 <= j < fsv.len() implies !pe(#[trigger] fsv[j]) by {
                    assert(fsv[j] == user_funcs@[j]@);
                }
                lemma_first_of_none(fsv, pe, 0);
            }
            None
        },
    };
    match scoped {
        Some(l) => Some(l),
        None => global_definition_exec(wc.as_slice(), uri, user_funcs, user_vars, user_structs),
    }
}

} // verus!
