//! `struct` and `cbuffer` definitions, and ShaderLab material properties.
use vstd::prelude::*;
use crate::context::{before_line_comment, code_end};
use crate::cursor::{is_identifier_range, valid_identifier};
use crate::decls::{col_of, col_of_exec};
use crate::splits::{
    before_any, before_any_range, lines, lines_of, ranges_hold, ranges_sorted, ranges_within,
    trim_end_set, trim_end_set_range, word_ranges, words,
};
use crate::strops::{
    contains, contains_char, count_char, count_char_in, ends_with, ends_with_char, starts_with, starts_with_str, trim, trim_range,
};
use crate::text::{blen, lemma_blen_subrange, opt_string, opt_view, range_string};

verus! {

/// A field of a structure.
#[derive(Debug, Clone, PartialEq)]
pub struct StructField {
    pub name: String,
    pub field_type: String,
}

/// What a `StructField` holds.
pub struct FieldModel {
    pub name: Seq<char>,
    pub field_type: Seq<char>,
}

impl View for StructField {
    type V = FieldModel;

    open spec fn view(&self) -> FieldModel {
        FieldModel { name: self.name@, field_type: self.field_type@ }
    }
}

/// A `struct` or `cbuffer` definition.
#[derive(Debug, Clone, PartialEq)]
pub struct StructDef {
    pub name: String,
    pub fields: Vec<StructField>,
    pub line: usize,
    pub col: usize,
    pub file_uri: Option<String>,
}

/// What a `StructDef` holds.
pub struct StructModel {
    pub name: Seq<char>,
    pub fields: Seq<FieldModel>,
    pub line: int,
    pub col: int,
    pub file_uri: Option<Seq<char>>,
}

impl View for StructDef {
    type V = StructModel;

    open spec fn view(&self) -> StructModel {
        StructModel {
            name: self.name@,
            fields: self.fields@.map_values(|f: StructField| f@),
            line: self.line as int,
            col: self.col as int,
            file_uri: opt_view(self.file_uri),
        }
    }
}

/// The views of a vector of definitions.
pub open spec fn structs_view(v: Seq<StructDef>) -> Seq<StructModel> {
    v.map_values(|d: StructDef| d@)
}

/// State of the definition scanner: the definition being read, its brace
/// depth, and the definitions already closed.
pub struct StructScan {
    pub cur: Option<StructModel>,
    pub depth: nat,
    pub done: Seq<StructModel>,
}

/// The field that a member line (`type name : SEMANTIC;`) declares.
pub open spec fn field_of_code(code: Seq<char>) -> Option<FieldModel> {
    let decl = trim(trim_end_set(code, seq![';']));
    let before_colon = trim(before_any(decl, seq![':']));
    let tokens = words(before_colon);
    if tokens.len() >= 2 {
        let name = trim(before_any(tokens.last(), seq!['[']));
        let ty = trim(before_any(tokens[tokens.len() - 2], seq!['<']));
        if valid_identifier(name) {
            Some(FieldModel { name, field_type: ty })
        } else {
            None
        }
    } else {
        None
    }
}

/// The name that a `struct Name` or `cbuffer Name` header line opens, when it
/// is an identifier.
pub open spec fn header_name(code: Seq<char>) -> Option<Seq<char>> {
    let parts = words(code);
    if parts.len() >= 2 {
        let name = trim(before_any(parts[1], seq!['{', ':', ';']));
        if valid_identifier(name) {
            Some(name)
        } else {
            None
        }
    } else {
        None
    }
}

/// One line of the definition scanner.
pub open spec fn struct_step(st: StructScan, raw: Seq<char>, idx: int, uri: Option<Seq<char>>) -> StructScan {
    let code = trim(before_line_comment(trim(raw)));
    if code.len() == 0 {
        st
    } else if (starts_with(code, "struct "@) || starts_with(code, "cbuffer "@)) && st.cur is None
        && ends_with(code, seq![';']) && !contains(code, seq!['{']) {
        st
    } else {
        let st1 = if (starts_with(code, "struct "@) || starts_with(code, "cbuffer "@))
            && st.cur is None {
            match header_name(code) {
                Some(name) => StructScan {
                    cur: Some(
                        StructModel {
                            name,
                            fields: Seq::empty(),
                            line: idx,
                            col: col_of(raw, name, 0),
                            file_uri: uri,
                        },
                    ),
                    depth: 0,
                    done: st.done,
                },
                None => st,
            }
        } else {
            st
        };
        match st1.cur {
            None => st1,
            Some(c) => {
                let d = st1.depth + count_char(code, '{');
                let close = count_char(code, '}');
                let c2 = if d > 0 && ends_with(code, seq![';']) {
                    match field_of_code(code) {
                        Some(f) => StructModel { fields: c.fields.push(f), ..c },
                        None => c,
                    }
                } else {
                    c
                };
                if d > 0 && d <= close {
                    StructScan { cur: None, depth: 0, done: st1.done.push(c2) }
                } else {
                    StructScan {
                        cur: Some(c2),
                        depth: if d >= close { (d - close) as nat } else { 0 },
                        done: st1.done,
                    }
                }
            },
        }
    }
}

/// The definition scanner after the first `n` lines.
pub open spec fn struct_scan(ls: Seq<Seq<char>>, n: int, uri: Option<Seq<char>>) -> StructScan
    decreases n,
{
    if n <= 0 {
        StructScan { cur: None, depth: 0, done: Seq::empty() }
    } else {
        struct_step(struct_scan(ls, n - 1, uri), ls[n - 1], n - 1, uri)
    }
}

/// The definitions of a text: those closed, then one left open at the end.
pub open spec fn struct_defs(text: Seq<char>, uri: Option<Seq<char>>) -> Seq<StructModel> {
    let st = struct_scan(lines(text), lines(text).len() as int, uri);
    match st.cur {
        Some(c) => st.done.push(c),
        None => st.done,
    }
}

fn field_of_code_exec(s: &[char], a: usize, b: usize) -> (r: Option<StructField>)
    requires
        a <= b <= s@.len(),
    ensures
        match field_of_code(s@.subrange(a as int, b as int)) {
            Some(f) => r matches Some(x) && x@ == f,
            None => r is None,
        },
{
    proof {
        assert(seq![';'] =~= [';']@);
        assert(seq![':'] =~= [':']@);
        assert(seq!['['] =~= ['[']@);
        assert(seq!['<'] =~= ['<']@);
    }
    let e = trim_end_set_range(s, a, b, &[';']);
    let (da, db) = trim_range(s, a, e);
    let ce = before_any_range(s, da, db, &[':']);
    let (ca, cb) = trim_range(s, da, ce);
    let toks = word_ranges(s, ca, cb);
    let n = toks.len();
    if n >= 2 {
        let (xa, xb) = toks[n - 1];
        let ne = before_any_range(s, xa, xb, &['[']);
        let (na, nb) = trim_range(s, xa, ne);
        let (ya, yb) = toks[n - 2];
        let te = before_any_range(s, ya, yb, &['<']);
        let (ka, kb) = trim_range(s, ya, te);
        if is_identifier_range(s, na, nb) {
            return Some(
                StructField { name: range_string(s, na, nb), field_type: range_string(s, ka, kb) },
            );
        }
    }
    None
}

fn header_name_exec(s: &[char], a: usize, b: usize) -> (r: Option<(usize, usize)>)
    requires
        a <= b <= s@.len(),
    ensures
        match header_name(s@.subrange(a as int, b as int)) {
            Some(name) => r matches Some((x, y)) && x <= y <= s@.len() && s@.subrange(
                x as int,
                y as int,
            ) == name,
            None => r is None,
        },
{
    proof {
        assert(seq!['{', ':', ';'] =~= ['{', ':', ';']@);
    }
    let parts = word_ranges(s, a, b);
    if parts.len() >= 2 {
        let (pa, pb) = parts[1];
        let e = before_any_range(s, pa, pb, &['{', ':', ';']);
        let (na, nb) = trim_range(s, pa, e);
        if is_identifier_range(s, na, nb) {
            return Some((na, nb));
        }
    }
    None
}

fn empty_struct() -> (r: StructDef)
    ensures
        r.fields@.len() == 0,
{
    StructDef { name: String::new(), fields: Vec::new(), line: 0, col: 0, file_uri: None }
}

/// The scanner state that the exec variables stand for.
pub open spec fn struct_state(has_cur: bool, cur: StructDef, depth: usize, done: Seq<StructDef>) -> StructScan {
    StructScan {
        cur: if has_cur { Some(cur@) } else { None },
        depth: depth as nat,
        done: structs_view(done),
    }
}

/// One line of the definition scanner, on the line `v[la..lb]`.
fn struct_line(
    v: &[char],
    la: usize,
    lb: usize,
    idx: usize,
    file_uri: Option<&str>,
    has_cur: &mut bool,
    cur: &mut StructDef,
    depth: &mut usize,
    structs: &mut Vec<StructDef>,
)
    requires
        la <= lb <= v@.len(),
        blen(v@.subrange(la as int, lb as int)) <= usize::MAX,
        *old(depth) <= la,
    ensures
        struct_state(*final(has_cur), *final(cur), *final(depth), final(structs)@) == struct_step(
            struct_state(*old(has_cur), *old(cur), *old(depth), old(structs)@),
            v@.subrange(la as int, lb as int),
            idx as int,
            match file_uri {
                Some(u) => Some(u@),
                None => None,
            },
        ),
        *final(depth) <= lb,
{
    let (ta, tb) = trim_range(v, la, lb);
    let ce = code_end(v, ta, tb);
    let (ca, cb) = trim_range(v, ta, ce);
    if ca == cb {
        return;
    }
    let is_header = (starts_with_str(v, ca, cb, "struct ") || starts_with_str(
        v,
        ca,
        cb,
        "cbuffer ",
    )) && !*has_cur;
    if is_header && ends_with_char(v, ca, cb, ';') && !contains_char(v, ca, cb, '{') {
        return;
    }
    if is_header {
        match header_name_exec(v, ca, cb) {
            Some((na, nb)) => {
                let col = col_of_exec(v, la, lb, na, nb, 0);
                *cur = StructDef {
                    name: range_string(v, na, nb),
                    fields: Vec::new(),
                    line: idx,
                    col,
                    file_uri: opt_string(file_uri),
                };
                proof {
                    assert(cur@.fields =~= Seq::<FieldModel>::empty());
                }
                *has_cur = true;
                *depth = 0;
            },
            None => {},
        }
    }
    if *has_cur {
        let open_b = count_char_in(v, ca, cb, '{');
        let close_b = count_char_in(v, ca, cb, '}');
        *depth = *depth + open_b;
        if *depth > 0 && ends_with_char(v, ca, cb, ';') {
            match field_of_code_exec(v, ca, cb) {
                Some(f) => {
                    let ghost old_fields = cur@.fields;
                    cur.fields.push(f);
                    proof {
                        assert(cur@.fields =~= old_fields.push(f@));
                    }
                },
                None => {},
            }
        }
        if *depth > 0 && *depth <= close_b {
            let ghost old_done = structs_view(structs@);
            let ghost c = cur@;
            let mut finished = empty_struct();
            std::mem::swap(cur, &mut finished);
            structs.push(finished);
            proof {
                assert(structs_view(structs@) =~= old_done.push(c));
            }
            *has_cur = false;
            *depth = 0;
        } else {
            *depth = if *depth >= close_b {
                *depth - close_b
            } else {
                0
            };
        }
    }
}

/// Collects `struct` and `cbuffer` definitions with their fields; forward
/// declarations (`struct Name;`) are skipped.  Every definition records
/// `file_uri`.
pub fn scan_struct_definitions_with_uri(text: &str, file_uri: Option<&str>) -> (r: Vec<StructDef>)
    ensures
        structs_view(r@) == struct_defs(
            text@,
            match file_uri {
                Some(u) => Some(u@),
                None => None,
            },
        ),
{
    let ghost uri = match file_uri {
        Some(u) => Some(u@),
        None => None::<Seq<char>>,
    };
    let (v, ranges) = lines_of(text);
    let ghost ls = lines(text@);
    let mut structs: Vec<StructDef> = Vec::new();
    let mut has_cur = false;
    let mut cur = empty_struct();
    let mut depth: usize = 0;
    let mut i: usize = 0;
    proof {
        crate::text::lemma_blen_utf8(text@);
    }
    let _len_bytes = text.as_bytes().len();
    assert(structs_view(structs@) =~= Seq::<StructModel>::empty());
    while i < ranges.len()
        invariant
            v@ == text@,
            ls == lines(text@),
            uri == match file_uri {
                Some(u) => Some(u@),
                None => None::<Seq<char>>,
            },
            blen(v@) <= usize::MAX,
            ranges_within(ranges@, 0, v@.len() as int),
            ranges_sorted(ranges@),
            ranges_hold(v@, ranges@, ls),
            i <= ranges@.len(),
            depth <= if i == 0 { 0 } else { ranges@[i - 1].1 as int },
            struct_scan(ls, i as int, uri) == struct_state(has_cur, cur, depth, structs@),
        decreases ranges.len() - i,
    {
        let (la, lb) = ranges[i];
        proof {
            if i > 0 {
                assert(ranges@[i - 1].1 <= ranges@[i as int].0);
            }
            lemma_blen_subrange(v@, la as int, lb as int);
        }
        struct_line(&v, la, lb, i, file_uri, &mut has_cur, &mut cur, &mut depth, &mut structs);
        assert(ls[i as int] == v@.subrange(la as int, lb as int));
        i = i + 1;
    }
    if has_cur {
        let ghost old_done = structs_view(structs@);
        let ghost c = cur@;
        structs.push(cur);
        proof {
            assert(structs_view(structs@) =~= old_done.push(c));
        }
    }
    structs
}

/// `scan_struct_definitions_with_uri` without a file URI.
pub fn scan_struct_definitions(text: &str) -> (r: Vec<StructDef>)
    ensures
        structs_view(r@) == struct_defs(text@, None),
{
    scan_struct_definitions_with_uri(text, None)
}

} // verus!
