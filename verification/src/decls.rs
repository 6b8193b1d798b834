//! Single declarations: function parameters and local variables.
use vstd::prelude::*;
use crate::cursor::{is_identifier_range, valid_identifier};
use crate::splits::{
    before_any, before_any_range, ranges_hold, ranges_within, trim_end_set, trim_end_set_range,
    trim_set, trim_set_range, word_ranges, words,
};
use crate::strops::{
    contains, contains_char, ends_with, ends_with_char, eq_str, find, find_chars, starts_with,
    starts_with_char, starts_with_str, trim, trim_range,
};
use crate::text::{blen, byte_offset, push_char, push_range, push_str, range_string, to_chars_sized};

verus! {

/// A parameter of a user function.
#[derive(Debug, Clone, PartialEq)]
pub struct FunctionParam {
    pub name: String,
    pub param_type: String,
    pub line: usize,
    pub col: usize,
}

/// What a `FunctionParam` holds, as sequences and integers.
pub struct ParamModel {
    pub name: Seq<char>,
    pub param_type: Seq<char>,
    pub line: int,
    pub col: int,
}

impl View for FunctionParam {
    type V = ParamModel;

    open spec fn view(&self) -> ParamModel {
        ParamModel {
            name: self.name@,
            param_type: self.param_type@,
            line: self.line as int,
            col: self.col as int,
        }
    }
}

/// A local variable declared in a function body.
#[derive(Debug, Clone, PartialEq)]
pub struct LocalVar {
    pub name: String,
    pub var_type: String,
    pub line: usize,
    pub col: usize,
}

/// What a `LocalVar` holds.
pub struct LocalModel {
    pub name: Seq<char>,
    pub var_type: Seq<char>,
    pub line: int,
    pub col: int,
}

impl View for LocalVar {
    type V = LocalModel;

    open spec fn view(&self) -> LocalModel {
        LocalModel {
            name: self.name@,
            var_type: self.var_type@,
            line: self.line as int,
            col: self.col as int,
        }
    }
}

/// Qualifiers that may precede a parameter's type.
pub open spec fn is_param_qualifier(t: Seq<char>) -> bool {
    ||| t == "in"@
    ||| t == "out"@
    ||| t == "inout"@
    ||| t == "uniform"@
    ||| t == "const"@
    ||| t == "linear"@
    ||| t == "centroid"@
    ||| t == "nointerpolation"@
    ||| t == "noperspective"@
    ||| t == "sample"@
    ||| t == "precise"@
    ||| t == "point"@
    ||| t == "row_major"@
    ||| t == "column_major"@
    ||| t == "globallycoherent"@
}

/// Words that cannot name a declared symbol.
pub open spec fn is_invalid_name(t: Seq<char>) -> bool {
    ||| t == "if"@
    ||| t == "for"@
    ||| t == "while"@
    ||| t == "switch"@
    ||| t == "return"@
    ||| t == "struct"@
    ||| t == "cbuffer"@
    ||| t == "tbuffer"@
}

/// Words that cannot be a declaration's type.
pub open spec fn is_invalid_type(t: Seq<char>) -> bool {
    ||| t == "return"@
    ||| t == "else"@
    ||| t == "case"@
    ||| t == "default"@
    ||| t == "discard"@
    ||| t == "break"@
    ||| t == "continue"@
    ||| t == "goto"@
    ||| t == "packoffset"@
    ||| t == "register"@
}

/// Words that open statements, never declarations.
pub open spec fn is_statement_keyword(t: Seq<char>) -> bool {
    ||| t == "return"@
    ||| t == "break"@
    ||| t == "continue"@
    ||| t == "discard"@
    ||| t == "if"@
    ||| t == "else"@
    ||| t == "while"@
    ||| t == "do"@
    ||| t == "switch"@
    ||| t == "case"@
    ||| t == "default"@
}

pub fn is_param_qualifier_exec(s: &[char], a: usize, b: usize) -> (r: bool)
    requires
        a <= b <= s@.len(),
    ensures
        r == is_param_qualifier(s@.subrange(a as int, b as int)),
{
    eq_str(s, a, b, "in") || eq_str(s, a, b, "out") || eq_str(s, a, b, "inout") || eq_str(
        s,
        a,
        b,
        "uniform",
    ) || eq_str(s, a, b, "const") || eq_str(s, a, b, "linear") || eq_str(s, a, b, "centroid")
        || eq_str(s, a, b, "nointerpolation") || eq_str(s, a, b, "noperspective") || eq_str(
        s,
        a,
        b,
        "sample",
    ) || eq_str(s, a, b, "precise") || eq_str(s, a, b, "point") || eq_str(s, a, b, "row_major")
        || eq_str(s, a, b, "column_major") || eq_str(s, a, b, "globallycoherent")
}

pub fn is_invalid_name_exec(s: &[char], a: usize, b: usize) -> (r: bool)
    requires
        a <= b <= s@.len(),
    ensures
        r == is_invalid_name(s@.subrange(a as int, b as int)),
{
    eq_str(s, a, b, "if") || eq_str(s, a, b, "for") || eq_str(s, a, b, "while") || eq_str(
        s,
        a,
        b,
        "switch",
    ) || eq_str(s, a, b, "return") || eq_str(s, a, b, "struct") || eq_str(s, a, b, "cbuffer")
        || eq_str(s, a, b, "tbuffer")
}

pub fn is_invalid_type_exec(s: &[char], a: usize, b: usize) -> (r: bool)
    requires
        a <= b <= s@.len(),
    ensures
        r == is_invalid_type(s@.subrange(a as int, b as int)),
{
    eq_str(s, a, b, "return") || eq_str(s, a, b, "else") || eq_str(s, a, b, "case") || eq_str(
        s,
        a,
        b,
        "default",
    ) || eq_str(s, a, b, "discard") || eq_str(s, a, b, "break") || eq_str(s, a, b, "continue")
        || eq_str(s, a, b, "goto") || eq_str(s, a, b, "packoffset") || eq_str(s, a, b, "register")
}

fn is_statement_keyword_exec(s: &[char], a: usize, b: usize) -> (r: bool)
    requires
        a <= b <= s@.len(),
    ensures
        r == is_statement_keyword(s@.subrange(a as int, b as int)),
{
    eq_str(s, a, b, "return") || eq_str(s, a, b, "break") || eq_str(s, a, b, "continue")
        || eq_str(s, a, b, "discard") || eq_str(s, a, b, "if") || eq_str(s, a, b, "else")
        || eq_str(s, a, b, "while") || eq_str(s, a, b, "do") || eq_str(s, a, b, "switch")
        || eq_str(s, a, b, "case") || eq_str(s, a, b, "default")
}

/// The tokens that remain after dropping parameter qualifiers.
pub open spec fn drop_qualifiers(ts: Seq<Seq<char>>) -> Seq<Seq<char>>
    decreases ts.len(),
{
    if ts.len() == 0 {
        ts
    } else {
        let r = drop_qualifiers(ts.drop_last());
        if is_param_qualifier(ts.last()) {
            r
        } else {
            r.push(ts.last())
        }
    }
}

/// Tokens joined with single spaces.
pub open spec fn join_space(ts: Seq<Seq<char>>) -> Seq<char>
    decreases ts.len(),
{
    if ts.len() == 0 {
        Seq::empty()
    } else if ts.len() == 1 {
        ts[0]
    } else {
        join_space(ts.drop_last()) + seq![' '] + ts.last()
    }
}

/// Byte column of the first occurrence of `name` in `raw`, shifted by `base`;
/// `base` when there is none.
pub open spec fn col_of(raw: Seq<char>, name: Seq<char>, base: int) -> int {
    match find(raw, name) {
        Some(k) => base + blen(raw.take(k)),
        None => base,
    }
}

/// The parameter that one comma-separated piece of a parameter list declares:
/// default value and semantic removed, qualifiers dropped; the last token is
/// the name (array brackets trimmed) and the others, joined, the type; a lone
/// token is a name of type `var`.
pub open spec fn param_decl(raw: Seq<char>, line: int, base_col: int) -> Option<ParamModel> {
    let clean = trim(raw);
    if clean.len() == 0 || clean == "void"@ {
        None
    } else {
        let without_def = trim(before_any(clean, seq!['=']));
        let without_sem = trim(before_any(without_def, seq![':']));
        let f = drop_qualifiers(words(without_sem));
        if f.len() >= 2 {
            let name = trim_set(f.last(), seq!['[', ']']);
            if valid_identifier(name) && !is_invalid_name(name) {
                Some(
                    ParamModel {
                        name,
                        param_type: join_space(f.take(f.len() - 1)),
                        line,
                        col: col_of(raw, name, base_col),
                    },
                )
            } else {
                None
            }
        } else if f.len() == 1 {
            let name = f[0];
            if valid_identifier(name) && !is_invalid_name(name) {
                Some(ParamModel { name, param_type: "var"@, line, col: col_of(raw, name, base_col) })
            } else {
                None
            }
        } else {
            None
        }
    }
}

/// Ranges of `s` whose contents are the words that survive `drop_qualifiers`.
fn filter_qualifiers(s: &[char], ws: &Vec<(usize, usize)>) -> (r: Vec<(usize, usize)>)
    requires
        ranges_within(ws@, 0, s@.len() as int),
    ensures
        ranges_within(r@, 0, s@.len() as int),
        ranges_hold(
            s@,
            r@,
            drop_qualifiers(
                Seq::new(ws@.len(), |k: int| s@.subrange(ws@[k].0 as int, ws@[k].1 as int)),
            ),
        ),
{
    let ghost toks = Seq::new(ws@.len(), |k: int| s@.subrange(ws@[k].0 as int, ws@[k].1 as int));
    let mut r: Vec<(usize, usize)> = Vec::new();
    let mut i: usize = 0;
    while i < ws.len()
        invariant
            i <= ws@.len(),
            ranges_within(ws@, 0, s@.len() as int),
            toks == Seq::new(ws@.len(), |k: int| s@.subrange(ws@[k].0 as int, ws@[k].1 as int)),
            ranges_within(r@, 0, s@.len() as int),
            ranges_hold(s@, r@, drop_qualifiers(toks.take(i as int))),
        decreases ws.len() - i,
    {
        let (a, b) = ws[i];
        proof {
            assert(toks.take(i + 1).drop_last() =~= toks.take(i as int));
            assert(toks.take(i + 1).last() == s@.subrange(a as int, b as int));
        }
        if !is_param_qualifier_exec(s, a, b) {
            r.push((a, b));
        }
        i = i + 1;
    }
    assert(toks.take(ws@.len() as int) =~= toks);
    r
}

/// Appends the contents of the first `n` ranges, separated by single spaces.
fn push_joined(out: &mut String, s: &[char], rs: &Vec<(usize, usize)>, n: usize)
    requires
        n <= rs@.len(),
        ranges_within(rs@, 0, s@.len() as int),
    ensures
        final(out)@ == old(out)@ + join_space(
            Seq::new(n as nat, |k: int| s@.subrange(rs@[k].0 as int, rs@[k].1 as int)),
        ),
{
    let ghost toks = Seq::new(rs@.len(), |k: int| s@.subrange(rs@[k].0 as int, rs@[k].1 as int));
    let mut i: usize = 0;
    proof {
        assert(toks.take(0) =~= Seq::<Seq<char>>::empty());
        assert(out@ =~= old(out)@ + join_space(toks.take(0)));
    }
    while i < n
        invariant
            i <= n <= rs@.len(),
            ranges_within(rs@, 0, s@.len() as int),
            toks == Seq::new(rs@.len(), |k: int| s@.subrange(rs@[k].0 as int, rs@[k].1 as int)),
            out@ == old(out)@ + join_space(toks.take(i as int)),
        decreases n - i,
    {
        let (a, b) = rs[i];
        if i > 0 {
            push_char(out, ' ');
        }
        push_range(out, s, a, b);
        proof {
            let t1 = toks.take(i + 1);
            assert(t1.drop_last() =~= toks.take(i as int));
            assert(t1.last() == s@.subrange(a as int, b as int));
            if i == 0 {
                assert(join_space(t1) == t1[0]);
            }
            assert(out@ =~= old(out)@ + join_space(t1));
        }
        i = i + 1;
    }
    assert(toks.take(n as int) =~= Seq::new(
        n as nat,
        |k: int| s@.subrange(rs@[k].0 as int, rs@[k].1 as int),
    ));
}

/// Byte column of `name` (a range of `s`) inside the range `raw` of `s`,
/// shifted by `base`.
pub fn col_of_exec(s: &[char], ra: usize, rb: usize, na: usize, nb: usize, base: usize) -> (r: usize)
    requires
        ra <= rb <= s@.len(),
        na <= nb <= s@.len(),
        base + blen(s@.subrange(ra as int, rb as int)) <= usize::MAX,
    ensures
        r == col_of(s@.subrange(ra as int, rb as int), s@.subrange(na as int, nb as int), base as int),
{
    match find_chars(s, ra, rb, &s[na..nb]) {
        Some(k) => {
            let raw = slice_range(s, ra, rb);
            proof {
                crate::text::lemma_blen_mono(raw@, k as int, raw@.len() as int);
                assert(raw@.take(raw@.len() as int) =~= raw@);
            }
            base + byte_offset(raw.as_slice(), k)
        },
        None => base,
    }
}

/// A copy of `s[a..b]` as a vector.
pub fn slice_range(s: &[char], a: usize, b: usize) -> (r: Vec<char>)
    requires
        a <= b <= s@.len(),
    ensures
        r@ == s@.subrange(a as int, b as int),
{
    let mut r: Vec<char> = Vec::new();
    let mut i = a;
    while i < b
        invariant
            a <= i <= b <= s@.len(),
            r@ == s@.subrange(a as int, i as int),
        decreases b - i,
    {
        r.push(s[i]);
        proof {
            assert(r@ =~= s@.subrange(a as int, i + 1));
        }
        i = i + 1;
    }
    r
}

/// Parses one piece of a parameter list (`raw`), declared on line `line_idx`,
/// whose first byte stands at column `base_col`.
pub fn parse_parameter_decl(raw: &str, line_idx: usize, base_col: usize) -> (r: Option<FunctionParam>)
    requires
        base_col + blen(raw@) <= usize::MAX,
    ensures
        match param_decl(raw@, line_idx as int, base_col as int) {
            Some(m) => r matches Some(p) && p@ == m,
            None => r is None,
        },
{
    let s = to_chars_sized(raw);
    proof {
        assert(s@.subrange(0, s@.len() as int) =~= s@);
    }
    parse_parameter_range(s.as_slice(), 0, s.len(), line_idx, base_col)
}

/// `parse_parameter_decl` of the range `s[ra..rb]`.
pub fn parse_parameter_range(s: &[char], ra: usize, rb: usize, line_idx: usize, base_col: usize) -> (r: Option<FunctionParam>)
    requires
        ra <= rb <= s@.len(),
        base_col + blen(s@.subrange(ra as int, rb as int)) <= usize::MAX,
    ensures
        match param_decl(s@.subrange(ra as int, rb as int), line_idx as int, base_col as int) {
            Some(m) => r matches Some(p) && p@ == m,
            None => r is None,
        },
{
    let ghost raw = s@.subrange(ra as int, rb as int);
    let (ca, cb) = trim_range(s, ra, rb);
    if ca == cb || eq_str(s, ca, cb, "void") {
        return None;
    }
    let de = before_any_range(s, ca, cb, &['=']);
    let (da, db) = trim_range(s, ca, de);
    let se = before_any_range(s, da, db, &[':']);
    let (sa, sb) = trim_range(s, da, se);
    proof {
        assert(seq!['='] =~= ['=']@);
        assert(seq![':'] =~= [':']@);
    }
    let ws = word_ranges(s, sa, sb);
    let f = filter_qualifiers(s, &ws);
    let ghost toks = Seq::new(ws@.len(), |k: int| s@.subrange(ws@[k].0 as int, ws@[k].1 as int));
    proof {
        assert(toks =~= words(s@.subrange(sa as int, sb as int)));
    }
    let n = f.len();
    if n >= 2 {
        let (la, lb) = f[n - 1];
        let (na, nb) = trim_set_range(s, la, lb, &['[', ']']);
        proof {
            assert(seq!['[', ']'] =~= ['[', ']']@);
        }
        if is_identifier_range(s, na, nb) && !is_invalid_name_exec(s, na, nb) {
            let mut ty = String::new();
            push_joined(&mut ty, s, &f, n - 1);
            let ghost fs = drop_qualifiers(toks);
            proof {
                assert(Seq::new(
                    (n - 1) as nat,
                    |k: int| s@.subrange(f@[k].0 as int, f@[k].1 as int),
                ) =~= fs.take(fs.len() - 1));
            }
            let col = col_of_exec(s, ra, rb, na, nb, base_col);
            return Some(
                FunctionParam {
                    name: range_string(s, na, nb),
                    param_type: ty,
                    line: line_idx,
                    col,
                },
            );
        }
    } else if n == 1 {
        let (na, nb) = f[0];
        if is_identifier_range(s, na, nb) && !is_invalid_name_exec(s, na, nb) {
            let col = col_of_exec(s, ra, rb, na, nb, base_col);
            let mut ty = String::new();
            push_str(&mut ty, "var");
            return Some(
                FunctionParam {
                    name: range_string(s, na, nb),
                    param_type: ty,
                    line: line_idx,
                    col,
                },
            );
        }
    }
    None
}

/// The local variable that a body line declares: a statement that ends with
/// `;` or holds `=`, whose declared part has at least two words; the last is
/// the name (before any `:` or `[`), the one before it the type (before any
/// `:` or `<`).
pub open spec fn local_decl(line: Seq<char>, line_idx: int) -> Option<LocalModel> {
    let t = trim(line);
    let ws = words(t);
    let first = if ws.len() > 0 { ws[0] } else { Seq::empty() };
    if t.len() == 0 || starts_with(t, "//"@) || starts_with(t, seq!['#']) {
        None
    } else if is_statement_keyword(first) {
        None
    } else if !ends_with(t, seq![';']) && !contains(t, seq!['=']) {
        None
    } else {
        let clean = trim(trim_end_set(t, seq![';']));
        let decl = trim(before_any(clean, seq!['=']));
        let tokens = words(decl);
        if tokens.len() >= 2 {
            let name = trim(before_any(tokens.last(), seq![':', '[']));
            let ty = trim(before_any(tokens[tokens.len() - 2], seq![':', '<']));
            if valid_identifier(name) && !is_invalid_name(name) && valid_identifier(ty)
                && !is_invalid_type(ty) && !contains(ty, seq!['.']) && !contains(name, seq!['.']) {
                Some(
                    LocalModel {
                        name,
                        var_type: ty,
                        line: line_idx,
                        col: match find(line, name) {
                            Some(k) => blen(line.take(k)) as int,
                            None => 0,
                        },
                    },
                )
            } else {
                None
            }
        } else {
            None
        }
    }
}

/// Parses a local variable declaration from one line of a function body.
pub fn parse_local_var_decl(line: &str, line_idx: usize) -> (r: Option<LocalVar>)
    ensures
        match local_decl(line@, line_idx as int) {
            Some(m) => r matches Some(v) && v@ == m,
            None => r is None,
        },
{
    let s = to_chars_sized(line);
    proof {
        assert(s@.subrange(0, s@.len() as int) =~= s@);
    }
    parse_local_range(s.as_slice(), 0, s.len(), line_idx)
}

/// `parse_local_var_decl` of the range `s[la..lb]`.
pub fn parse_local_range(s: &[char], la: usize, lb: usize, line_idx: usize) -> (r: Option<LocalVar>)
    requires
        la <= lb <= s@.len(),
        blen(s@.subrange(la as int, lb as int)) <= usize::MAX,
    ensures
        match local_decl(s@.subrange(la as int, lb as int), line_idx as int) {
            Some(m) => r matches Some(v) && v@ == m,
            None => r is None,
        },
{
    let (ta, tb) = trim_range(s, la, lb);
    if ta == tb || starts_with_str(s, ta, tb, "//") || starts_with_char(s, ta, tb, '#') {
        return None;
    }
    let ws = word_ranges(s, ta, tb);
    if ws.len() > 0 {
        let (fa, fb) = ws[0];
        if is_statement_keyword_exec(s, fa, fb) {
            return None;
        }
    } else {
        assert(s@.subrange(ta as int, ta as int) =~= Seq::<char>::empty());
        if is_statement_keyword_exec(s, ta, ta) {
            return None;
        }
    }
    if !ends_with_char(s, ta, tb, ';') && !contains_char(s, ta, tb, '=') {
        return None;
    }
    let ce = trim_end_set_range(s, ta, tb, &[';']);
    proof {
        assert(seq![';'] =~= [';']@);
        assert(seq!['='] =~= ['=']@);
        assert(seq![':', '['] =~= [':', '[']@);
        assert(seq![':', '<'] =~= [':', '<']@);
    }
    let (ca, cb) = trim_range(s, ta, ce);
    let de = before_any_range(s, ca, cb, &['=']);
    let (da, db) = trim_range(s, ca, de);
    let toks = word_ranges(s, da, db);
    let n = toks.len();
    if n >= 2 {
        let (xa, xb) = toks[n - 1];
        let ne = before_any_range(s, xa, xb, &[':', '[']);
        let (na, nb) = trim_range(s, xa, ne);
        let (ya, yb) = toks[n - 2];
        let te = before_any_range(s, ya, yb, &[':', '<']);
        let (ka, kb) = trim_range(s, ya, te);
        if is_identifier_range(s, na, nb) && !is_invalid_name_exec(s, na, nb)
            && is_identifier_range(s, ka, kb) && !is_invalid_type_exec(s, ka, kb)
            && !contains_char(s, ka, kb, '.') && !contains_char(s, na, nb, '.') {
            let col = match find_chars(s, la, lb, &s[na..nb]) {
                Some(k) => {
                    let l = slice_range(s, la, lb);
                    proof {
                        crate::text::lemma_blen_mono(l@, k as int, l@.len() as int);
                        assert(l@.take(l@.len() as int) =~= l@);
                    }
                    byte_offset(l.as_slice(), k)
                },
                None => 0,
            };
            return Some(
                LocalVar {
                    name: range_string(s, na, nb),
                    var_type: range_string(s, ka, kb),
                    line: line_idx,
                    col,
                },
            );
        }
    }
    None
}

} // verus!
