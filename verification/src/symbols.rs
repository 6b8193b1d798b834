//! The outline of a document: ShaderLab blocks, properties, structs and
//! constant buffers with their fields, and functions.
use vstd::prelude::*;
use crate::cursor::{is_identifier_range, valid_identifier};
use crate::diagnostics::{range_blen, Position, Range};
use crate::functions::{fn_scan_well_formed, fns_view, scan_user_functions, user_functions, FnModel, FunctionSignature};
use crate::props::{props_view, scan_shaderlab_properties, shaderlab_properties, PropModel, ShaderLabProperty};
use crate::splits::{
    before_any, before_any_range, lines, lines_of, ranges_gapped, ranges_hold, ranges_within, trim_end_set,
    trim_end_set_range, word_ranges, words,
};
use crate::strops::{count_char, count_char_in, ends_with, starts_with, starts_with_str, trim, trim_range};
use crate::text::{blen, byte_offset, lemma_blen_subrange, push_str, range_string, str_string, to_chars_sized};

verus! {

/// A field of a struct or constant buffer in the outline.
#[derive(Debug, Clone)]
pub struct FieldSymbol {
    pub name: String,
    pub detail: String,
    pub range: Range,
}

/// An entry of the outline; `kind` is the LSP symbol kind (4 package,
/// 5 class, 6 method, 7 property, 12 function, 23 struct).
#[derive(Debug, Clone)]
pub struct DocumentSymbol {
    pub name: String,
    pub detail: String,
    pub kind: u8,
    pub range: Range,
    pub selection_range: Range,
    pub children: Vec<FieldSymbol>,
}

/// What a `FieldSymbol` holds.
pub struct FieldModel {
    pub name: Seq<char>,
    pub detail: Seq<char>,
    pub range: Range,
}

/// What a `DocumentSymbol` holds.
pub struct SymModel {
    pub name: Seq<char>,
    pub detail: Seq<char>,
    pub kind: u8,
    pub range: Range,
    pub selection_range: Range,
    pub children: Seq<FieldModel>,
}

impl View for FieldSymbol {
    type V = FieldModel;

    open spec fn view(&self) -> FieldModel {
        FieldModel { name: self.name@, detail: self.detail@, range: self.range }
    }
}

impl View for DocumentSymbol {
    type V = SymModel;

    open spec fn view(&self) -> SymModel {
        SymModel {
            name: self.name@,
            detail: self.detail@,
            kind: self.kind,
            range: self.range,
            selection_range: self.selection_range,
            children: self.children@.map_values(|f: FieldSymbol| f@),
        }
    }
}

pub open spec fn syms_view(v: Seq<DocumentSymbol>) -> Seq<SymModel> {
    v.map_values(|s: DocumentSymbol| s@)
}

pub open spec fn fields_view(v: Seq<FieldSymbol>) -> Seq<FieldModel> {
    v.map_values(|f: FieldSymbol| f@)
}

/// The range from `(l1, c1)` to `(l2, c2)`.
pub open spec fn span(l1: int, c1: int, l2: int, c2: int) -> Range {
    Range {
        start: Position { line: l1 as usize, character: c1 as usize },
        end: Position { line: l2 as usize, character: c2 as usize },
    }
}

/// `s` without every leading copy of `p` (`str::trim_start_matches`).
pub open spec fn strip_all_prefix(s: Seq<char>, p: Seq<char>) -> Seq<char>
    decreases s.len(),
{
    if p.len() > 0 && starts_with(s, p) {
        strip_all_prefix(s.subrange(p.len() as int, s.len() as int), p)
    } else {
        s
    }
}

/// `n - 1`, or 0.
pub open spec fn last_index(n: nat) -> int {
    if n >= 1 {
        n - 1
    } else {
        0
    }
}

/// The ShaderLab block that line `idx` opens, if any.
pub open spec fn block_symbol(ls: Seq<Seq<char>>, idx: int) -> Seq<SymModel> {
    let raw = ls[idx];
    let t = trim(raw);
    let next = if idx + 1 <= last_index(ls.len()) {
        idx + 1
    } else {
        last_index(ls.len())
    };
    let sel = span(idx, 0, idx, blen(raw) as int);
    if starts_with(t, "Shader \""@) {
        seq![
            SymModel {
                name: before_any(strip_all_prefix(t, "Shader \""@), seq!['"']),
                detail: "ShaderLab Shader"@,
                kind: 4,
                range: span(idx, 0, last_index(ls.len()), 0),
                selection_range: sel,
                children: seq![],
            },
        ]
    } else if starts_with(t, "SubShader"@) {
        seq![
            SymModel {
                name: "SubShader"@,
                detail: "ShaderLab SubShader"@,
                kind: 5,
                range: span(idx, 0, next, blen(ls[next]) as int),
                selection_range: sel,
                children: seq![],
            },
        ]
    } else if starts_with(t, "Pass"@) {
        seq![
            SymModel {
                name: "Pass"@,
                detail: "ShaderLab Pass"@,
                kind: 6,
                range: span(idx, 0, next, blen(ls[next]) as int),
                selection_range: sel,
                children: seq![],
            },
        ]
    } else {
        seq![]
    }
}

pub open spec fn blocks_upto(ls: Seq<Seq<char>>, n: int) -> Seq<SymModel>
    decreases n,
{
    if n <= 0 {
        seq![]
    } else {
        blocks_upto(ls, n - 1) + block_symbol(ls, n - 1)
    }
}

/// The outline entry of a ShaderLab property.
pub open spec fn prop_symbol(p: PropModel) -> SymModel {
    let r = span(p.line, p.col, p.line, p.col + blen(p.name));
    SymModel {
        name: p.name,
        detail: p.prop_type + " ("@ + p.display_name + ")"@,
        kind: 7,
        range: r,
        selection_range: r,
        children: seq![],
    }
}

/// The name of the struct or cbuffer that the trimmed line `t` opens, and
/// whether it is a struct.
pub open spec fn aggregate_head(t: Seq<char>) -> Option<(Seq<char>, bool)> {
    if (starts_with(t, "struct "@) || starts_with(t, "cbuffer "@)) && !ends_with(t, ";"@) && words(t).len() >= 2 {
        let name = trim(before_any(words(t)[1], seq!['{', ':', ';']));
        if valid_identifier(name) {
            Some((name, starts_with(t, "struct "@)))
        } else {
            None
        }
    } else {
        None
    }
}

/// The field that the line `raw` (line `j`, trimmed `cur`) declares.
pub open spec fn field_of(cur: Seq<char>, raw: Seq<char>, j: int) -> Seq<FieldModel> {
    let decl = trim(trim_end_set(cur, seq![';']));
    let toks = words(trim(before_any(decl, seq![':'])));
    if toks.len() >= 2 {
        let f_name = trim(before_any(toks[toks.len() - 1], seq!['[']));
        let f_type = trim(before_any(toks[toks.len() - 2], seq!['<']));
        if valid_identifier(f_name) {
            seq![FieldModel { name: f_name, detail: f_type, range: span(j, 0, j, blen(raw) as int) }]
        } else {
            seq![]
        }
    } else {
        seq![]
    }
}

/// The body of an aggregate from line `j` on, at brace depth `depth`: the line
/// that closes it (`start` when none does) and the fields declared so far.
pub open spec fn body_from(ls: Seq<Seq<char>>, start: int, j: int, depth: nat, kids: Seq<FieldModel>) -> (int, Seq<FieldModel>)
    decreases ls.len() - j,
{
    if j < 0 || j >= ls.len() {
        (start, kids)
    } else {
        let cur = trim(ls[j]);
        let d = depth + count_char(cur, '{');
        let c = count_char(cur, '}');
        let kids2 = if d > 0 && ends_with(cur, ";"@) {
            kids + field_of(cur, ls[j], j)
        } else {
            kids
        };
        if d > 0 && d <= c {
            (j, kids2)
        } else {
            body_from(ls, start, j + 1, if d >= c {
                (d - c) as nat
            } else {
                0
            }, kids2)
        }
    }
}

/// The outline entries of the structs and constant buffers from line `i` on.
pub open spec fn aggregates_from(ls: Seq<Seq<char>>, i: int) -> Seq<SymModel>
    decreases ls.len() - i,
{
    if i < 0 || i >= ls.len() {
        seq![]
    } else {
        match aggregate_head(trim(ls[i])) {
            Some((name, is_struct)) => {
                let (end, kids) = body_from(ls, i, i, 0, seq![]);
                let end2 = if end >= i {
                    end
                } else {
                    i
                };
                seq![
                    SymModel {
                        name,
                        detail: if is_struct {
                            "struct"@
                        } else {
                            "cbuffer"@
                        },
                        kind: if is_struct {
                            23u8
                        } else {
                            5u8
                        },
                        range: span(i, 0, end2, blen(ls[end2]) as int),
                        selection_range: span(i, 0, i, blen(ls[i]) as int),
                        children: kids,
                    },
                ] + if end2 + 1 <= ls.len() {
                    aggregates_from(ls, end2 + 1)
                } else {
                    seq![]
                }
            },
            None => aggregates_from(ls, i + 1),
        }
    }
}

/// The outline entry of a function.
pub open spec fn fn_symbol(f: FnModel, ls: Seq<Seq<char>>) -> SymModel {
    let end = if f.body_end_line >= f.line {
        f.body_end_line
    } else {
        f.line
    };
    SymModel {
        name: f.name,
        detail: f.label,
        kind: 12,
        range: span(f.line, 0, end, if 0 <= end < ls.len() {
            blen(ls[end]) as int
        } else {
            0
        }),
        selection_range: span(f.line, f.col, f.line, f.col + blen(f.name)),
        children: seq![],
    }
}

/// Every column that the outline computes fits in `usize`.
pub open spec fn outline_fits(text: Seq<char>) -> bool {
    &&& forall|k: int|
        0 <= k < shaderlab_properties(text).len() ==> #[trigger] shaderlab_properties(text)[k].col + blen(
            shaderlab_properties(text)[k].name,
        ) <= usize::MAX
    &&& forall|k: int|
        0 <= k < user_functions(text, None, None).len() ==> #[trigger] user_functions(text, None, None)[k].col
            + blen(user_functions(text, None, None)[k].name) <= usize::MAX
}

/// The outline of a text: ShaderLab blocks, then properties, then structs and
/// constant buffers, then functions.
pub open spec fn document_symbols(text: Seq<char>) -> Seq<SymModel> {
    let ls = lines(text);
    blocks_upto(ls, ls.len() as int) + shaderlab_properties(text).map_values(|p: PropModel| prop_symbol(p))
        + aggregates_from(ls, 0) + user_functions(text, None, None).map_values(|f: FnModel| fn_symbol(f, ls))
}

} // verus!

verus! {

/// Appends the outline entry of the ShaderLab block that line `idx` opens.
fn block_symbol_exec(out: &mut Vec<DocumentSymbol>, v: &[char], ranges: &Vec<(usize, usize)>, idx: usize)
    requires
        ranges_within(ranges@, 0, v@.len() as int),
        ranges_hold(v@, ranges@, lines(v@)),
        blen(v@) <= usize::MAX,
        idx < ranges@.len(),
    ensures
        syms_view(final(out)@) == syms_view(old(out)@) + block_symbol(lines(v@), idx as int),
{
    let ghost ls = lines(v@);
    let ghost d0 = syms_view(out@);
    let n = ranges.len();
    let (la, lb) = ranges[idx];
    proof {
        assert(ls[idx as int] == v@.subrange(la as int, lb as int));
        lemma_blen_subrange(v@, la as int, lb as int);
    }
    let line_len = range_blen(v, la, lb);
    let sel = Range { start: Position { line: idx, character: 0 }, end: Position { line: idx, character: line_len } };
    let next = if idx + 1 <= n - 1 {
        idx + 1
    } else {
        n - 1
    };
    let (ta, tb) = trim_range(v, la, lb);
    if starts_with_str(v, ta, tb, "Shader \"") {
        let mut a = ta;
        proof {
            reveal_strlit("Shader \"");
            let t = v@.subrange(ta as int, tb as int);
            assert(strip_all_prefix(t, "Shader \""@) == strip_all_prefix(v@.subrange(a as int, tb as int), "Shader \""@));
        }
        while starts_with_str(v, a, tb, "Shader \"")
            invariant
                ta <= a <= tb <= v@.len(),
                "Shader \""@.len() == 8,
                strip_all_prefix(v@.subrange(ta as int, tb as int), "Shader \""@) == strip_all_prefix(
                    v@.subrange(a as int, tb as int),
                    "Shader \""@,
                ),
            decreases tb - a,
        {
            proof {
                assert(v@.subrange(a as int, tb as int).subrange(8, tb - a) =~= v@.subrange(a + 8, tb as int));
            }
            a = a + 8;
        }
        let quote = ['"'];
        proof {
            assert(quote@ =~= seq!['"']);
        }
        let e = before_any_range(v, a, tb, &quote);
        let name = range_string(v, a, e);
        let ghost t = v@.subrange(ta as int, tb as int);
        proof {
            assert(strip_all_prefix(v@.subrange(a as int, tb as int), "Shader \""@) == v@.subrange(a as int, tb as int));
            assert(name@ == before_any(strip_all_prefix(t, "Shader \""@), seq!['"']));
            assert(line_len == blen(ls[idx as int]));
        }
        out.push(
            DocumentSymbol {
                name,
                detail: str_string("ShaderLab Shader"),
                kind: 4,
                range: Range { start: Position { line: idx, character: 0 }, end: Position { line: n - 1, character: 0 } },
                selection_range: sel,
                children: Vec::new(),
            },
        );
        proof {
            let ghost pushed = out@.last();
            assert(pushed@.children =~= Seq::<FieldModel>::empty());
            assert(pushed@ == block_symbol(ls, idx as int)[0]);
            assert(syms_view(out@) =~= d0 + block_symbol(ls, idx as int));
        }
    } else if starts_with_str(v, ta, tb, "SubShader") || starts_with_str(v, ta, tb, "Pass") {
        let is_sub = starts_with_str(v, ta, tb, "SubShader");
        let (na, nb) = ranges[next];
        proof {
            assert(ls[next as int] == v@.subrange(na as int, nb as int));
            lemma_blen_subrange(v@, na as int, nb as int);
        }
        let next_len = range_blen(v, na, nb);
        out.push(
            DocumentSymbol {
                name: str_string(
                    if is_sub {
                        "SubShader"
                    } else {
                        "Pass"
                    },
                ),
                detail: str_string(
                    if is_sub {
                        "ShaderLab SubShader"
                    } else {
                        "ShaderLab Pass"
                    },
                ),
                kind: if is_sub {
                    5
                } else {
                    6
                },
                range: Range {
                    start: Position { line: idx, character: 0 },
                    end: Position { line: next, character: next_len },
                },
                selection_range: sel,
                children: Vec::new(),
            },
        );
        proof {
            let ghost pushed = out@.last();
            assert(pushed@.children =~= Seq::<FieldModel>::empty());
            assert(pushed@ == block_symbol(ls, idx as int)[0]);
            assert(syms_view(out@) =~= d0 + block_symbol(ls, idx as int));
        }
    } else {
        proof {
            assert(syms_view(out@) =~= d0 + block_symbol(ls, idx as int));
        }
    }
}

/// Byte length of a string.
fn str_blen(s: &str) -> (r: usize)
    ensures
        r == blen(s@),
{
    let c = to_chars_sized(s);
    proof {
        assert(c@.take(c@.len() as int) =~= c@);
    }
    byte_offset(c.as_slice(), c.len())
}

/// The outline entry of a ShaderLab property.
fn prop_symbol_exec(p: &ShaderLabProperty) -> (r: DocumentSymbol)
    requires
        p.col + blen(p.name@) <= usize::MAX,
    ensures
        r@ == prop_symbol(p@),
{
    let end = p.col + str_blen(p.name.as_str());
    let r = Range { start: Position { line: p.line, character: p.col }, end: Position { line: p.line, character: end } };
    let mut detail = p.prop_type.clone();
    push_str(&mut detail, " (");
    push_str(&mut detail, p.display_name.as_str());
    push_str(&mut detail, ")");
    let s = DocumentSymbol {
        name: p.name.clone(),
        detail,
        kind: 7,
        range: r,
        selection_range: r,
        children: Vec::new(),
    };
    proof {
        assert(s@.children =~= Seq::<FieldModel>::empty());
    }
    s
}

/// The outline entry of a function.
fn fn_symbol_exec(f: &FunctionSignature, v: &[char], ranges: &Vec<(usize, usize)>) -> (r: DocumentSymbol)
    requires
        ranges_within(ranges@, 0, v@.len() as int),
        ranges_hold(v@, ranges@, lines(v@)),
        blen(v@) <= usize::MAX,
        f.col + blen(f.name@) <= usize::MAX,
    ensures
        r@ == fn_symbol(f@, lines(v@)),
{
    let ghost ls = lines(v@);
    let end = if f.body_end_line >= f.line {
        f.body_end_line
    } else {
        f.line
    };
    let end_len = if end < ranges.len() {
        let (la, lb) = ranges[end];
        proof {
            assert(ls[end as int] == v@.subrange(la as int, lb as int));
            lemma_blen_subrange(v@, la as int, lb as int);
        }
        range_blen(v, la, lb)
    } else {
        0
    };
    let name_end = f.col + str_blen(f.name.as_str());
    let s = DocumentSymbol {
        name: f.name.clone(),
        detail: f.label.clone(),
        kind: 12,
        range: Range { start: Position { line: f.line, character: 0 }, end: Position { line: end, character: end_len } },
        selection_range: Range {
            start: Position { line: f.line, character: f.col },
            end: Position { line: f.line, character: name_end },
        },
        children: Vec::new(),
    };
    proof {
        assert(s@.children =~= Seq::<FieldModel>::empty());
    }
    s
}

/// The bounds of the name that the trimmed line `v[ta..tb]` opens as a struct
/// or cbuffer, and whether it is a struct.
fn aggregate_head_exec(v: &[char], ta: usize, tb: usize) -> (r: Option<(usize, usize, bool)>)
    requires
        ta <= tb <= v@.len(),
    ensures
        match aggregate_head(v@.subrange(ta as int, tb as int)) {
            Some((name, is_struct)) => r matches Some(q) && ta <= q.0 <= q.1 <= tb && v@.subrange(q.0 as int, q.1 as int)
                == name && q.2 == is_struct,
            None => r is None,
        },
{
    let ghost t = v@.subrange(ta as int, tb as int);
    let is_struct = starts_with_str(v, ta, tb, "struct ");
    if !(is_struct || starts_with_str(v, ta, tb, "cbuffer ")) || crate::strops::ends_with_char(v, ta, tb, ';') {
        proof {
            reveal_strlit(";");
            assert(";"@ =~= seq![';']);
        }
        return None;
    }
    proof {
        reveal_strlit(";");
        assert(";"@ =~= seq![';']);
    }
    let ws = word_ranges(v, ta, tb);
    if ws.len() < 2 {
        return None;
    }
    let (wa, wb) = ws[1];
    proof {
        assert(v@.subrange(wa as int, wb as int) == words(t)[1]);
    }
    let set = ['{', ':', ';'];
    proof {
        assert(set@ =~= seq!['{', ':', ';']);
    }
    let e = before_any_range(v, wa, wb, &set);
    let (na, nb) = trim_range(v, wa, e);
    if is_identifier_range(v, na, nb) {
        Some((na, nb, is_struct))
    } else {
        None
    }
}

/// Appends the field that the line `v[la..lb]` (line `j`, trimmed
/// `v[ta..tb]`) declares.
fn field_exec(kids: &mut Vec<FieldSymbol>, v: &[char], la: usize, lb: usize, ta: usize, tb: usize, j: usize)
    requires
        la <= ta <= tb <= lb <= v@.len(),
        blen(v@) <= usize::MAX,
    ensures
        fields_view(final(kids)@) == fields_view(old(kids)@) + field_of(
            v@.subrange(ta as int, tb as int),
            v@.subrange(la as int, lb as int),
            j as int,
        ),
{
    let ghost k0 = fields_view(kids@);
    let semi = [';'];
    let colon = [':'];
    let bracket = ['['];
    let angle = ['<'];
    proof {
        assert(semi@ =~= seq![';']);
        assert(colon@ =~= seq![':']);
        assert(bracket@ =~= seq!['[']);
        assert(angle@ =~= seq!['<']);
    }
    let e1 = trim_end_set_range(v, ta, tb, &semi);
    let (da, db) = trim_range(v, ta, e1);
    let c = before_any_range(v, da, db, &colon);
    let (ba, bb) = trim_range(v, da, c);
    let toks = word_ranges(v, ba, bb);
    let ghost tk = words(v@.subrange(ba as int, bb as int));
    if toks.len() < 2 {
        proof {
            assert(fields_view(kids@) =~= k0 + seq![]);
        }
        return;
    }
    let n = toks.len();
    let (xa, xb) = toks[n - 1];
    let (ya, yb) = toks[n - 2];
    proof {
        assert(v@.subrange(xa as int, xb as int) == tk[tk.len() - 1]);
        assert(v@.subrange(ya as int, yb as int) == tk[tk.len() - 2]);
    }
    let xe = before_any_range(v, xa, xb, &bracket);
    let (fa, fb) = trim_range(v, xa, xe);
    let ye = before_any_range(v, ya, yb, &angle);
    let (ga, gb) = trim_range(v, ya, ye);
    if is_identifier_range(v, fa, fb) {
        proof {
            lemma_blen_subrange(v@, la as int, lb as int);
        }
        let len = range_blen(v, la, lb);
        kids.push(
            FieldSymbol {
                name: range_string(v, fa, fb),
                detail: range_string(v, ga, gb),
                range: Range { start: Position { line: j, character: 0 }, end: Position { line: j, character: len } },
            },
        );
        proof {
            assert(fields_view(kids@) =~= k0 + field_of(
                v@.subrange(ta as int, tb as int),
                v@.subrange(la as int, lb as int),
                j as int,
            ));
        }
    } else {
        proof {
            assert(fields_view(kids@) =~= k0 + seq![]);
        }
    }
}

/// The body of the aggregate opened on line `start`: the line that closes it
/// and its fields.
fn body_exec(v: &[char], ranges: &Vec<(usize, usize)>, start: usize) -> (r: (usize, Vec<FieldSymbol>))
    requires
        ranges_within(ranges@, 0, v@.len() as int),
        ranges_hold(v@, ranges@, lines(v@)),
        ranges_gapped(ranges@),
        blen(v@) <= usize::MAX,
        start < ranges@.len(),
    ensures
        (r.0 as int, fields_view(r.1@)) == body_from(lines(v@), start as int, start as int, 0, seq![]),
        start <= r.0 < ranges@.len(),
{
    let ghost ls = lines(v@);
    let mut kids: Vec<FieldSymbol> = Vec::new();
    let mut depth: usize = 0;
    let mut j = start;
    proof {
        assert(fields_view(kids@) =~= Seq::<FieldModel>::empty());
    }
    while j < ranges.len()
        invariant
            ranges_within(ranges@, 0, v@.len() as int),
            ranges_hold(v@, ranges@, ls),
            ranges_gapped(ranges@),
            ls == lines(v@),
            blen(v@) <= usize::MAX,
            start < ranges@.len(),
            start <= j <= ranges@.len(),
            j == start ==> depth == 0,
            j > start ==> depth <= ranges@[j - 1].1,
            body_from(ls, start as int, start as int, 0, seq![]) == body_from(
                ls,
                start as int,
                j as int,
                depth as nat,
                fields_view(kids@),
            ),
        decreases ranges.len() - j,
    {
        let (la, lb) = ranges[j];
        proof {
            if j > start {
                assert(ranges@[j - 1].1 < ranges@[j as int].0);
            }
            assert(ls[j as int] == v@.subrange(la as int, lb as int));
        }
        let (ta, tb) = trim_range(v, la, lb);
        let opens = count_char_in(v, ta, tb, '{');
        let closes = count_char_in(v, ta, tb, '}');
        let d = depth + opens;
        if d > 0 && crate::strops::ends_with_char(v, ta, tb, ';') {
            proof {
                reveal_strlit(";");
                assert(";"@ =~= seq![';']);
            }
            field_exec(&mut kids, v, la, lb, ta, tb, j);
        } else {
            proof {
                reveal_strlit(";");
                assert(";"@ =~= seq![';']);
                assert(fields_view(kids@) =~= fields_view(kids@) + seq![]);
            }
        }
        if d > 0 && d <= closes {
            return (j, kids);
        }
        depth = if d >= closes {
            d - closes
        } else {
            0
        };
        j = j + 1;
    }
    (start, kids)
}

/// The outline of a text: each ShaderLab `Shader`, `SubShader` and `Pass`
/// line, each property of the `Properties` block, each struct and constant
/// buffer (with its fields) and each function, with their ranges.
pub fn get_document_symbols(text: &str) -> (r: Vec<DocumentSymbol>)
    requires
        fn_scan_well_formed(text@, None, None),
        outline_fits(text@),
    ensures
        syms_view(r@) == document_symbols(text@),
{
    let (v, ranges) = lines_of(text);
    let ghost ls = lines(v@);
    let vs = v.as_slice();
    let mut out: Vec<DocumentSymbol> = Vec::new();
    let mut idx: usize = 0;
    proof {
        assert(syms_view(out@) =~= Seq::<SymModel>::empty());
    }
    while idx < ranges.len()
        invariant
            v@ == text@,
            ls == lines(v@),
            blen(v@) <= usize::MAX,
            ranges_within(ranges@, 0, v@.len() as int),
            ranges_hold(v@, ranges@, ls),
            idx <= ranges@.len(),
            vs@ == v@,
            syms_view(out@) == blocks_upto(ls, idx as int),
        decreases ranges.len() - idx,
    {
        block_symbol_exec(&mut out, vs, &ranges, idx);
        idx = idx + 1;
    }
    let ghost part1 = syms_view(out@);
    let props = scan_shaderlab_properties(text);
    let ghost ps = shaderlab_properties(text@);
    let mut k: usize = 0;
    while k < props.len()
        invariant
            props_view(props@) == ps,
            ps == shaderlab_properties(text@),
            outline_fits(text@),
            k <= props@.len(),
            syms_view(out@) == part1 + ps.take(k as int).map_values(|p: PropModel| prop_symbol(p)),
        decreases props.len() - k,
    {
        proof {
            assert(ps[k as int] == props@[k as int]@);
            assert(ps[k as int].col + blen(ps[k as int].name) <= usize::MAX);
        }
        let s = prop_symbol_exec(&props[k]);
        let ghost before = syms_view(out@);
        out.push(s);
        proof {
            assert(syms_view(out@) =~= before.push(s@));
            assert(ps.take(k + 1).map_values(|p: PropModel| prop_symbol(p)) =~= ps.take(k as int).map_values(
                |p: PropModel| prop_symbol(p),
            ).push(prop_symbol(ps[k as int])));
            assert(syms_view(out@) =~= part1 + ps.take(k + 1).map_values(|p: PropModel| prop_symbol(p)));
        }
        k = k + 1;
    }
    proof {
        assert(ps.take(ps.len() as int) =~= ps);
    }
    let ghost part2 = syms_view(out@);
    let mut i: usize = 0;
    while i < ranges.len()
        invariant
            v@ == text@,
            ls == lines(v@),
            blen(v@) <= usize::MAX,
            ranges_within(ranges@, 0, v@.len() as int),
            ranges_hold(v@, ranges@, ls),
            ranges_gapped(ranges@),
            vs@ == v@,
            i <= ranges@.len(),
            part2 + aggregates_from(ls, 0) == syms_view(out@) + aggregates_from(ls, i as int),
        decreases ranges.len() - i,
    {
        let (la, lb) = ranges[i];
        proof {
            assert(ls[i as int] == v@.subrange(la as int, lb as int));
        }
        let (ta, tb) = trim_range(vs, la, lb);
        match aggregate_head_exec(vs, ta, tb) {
            Some((na, nb, is_struct)) => {
                let (end, kids) = body_exec(vs, &ranges, i);
                let (ea, eb) = ranges[end];
                proof {
                    assert(ls[end as int] == v@.subrange(ea as int, eb as int));
                    lemma_blen_subrange(v@, ea as int, eb as int);
                    lemma_blen_subrange(v@, la as int, lb as int);
                }
                let end_len = range_blen(vs, ea, eb);
                let start_len = range_blen(vs, la, lb);
                let ghost before = syms_view(out@);
                out.push(
                    DocumentSymbol {
                        name: range_string(vs, na, nb),
                        detail: str_string(
                            if is_struct {
                                "struct"
                            } else {
                                "cbuffer"
                            },
                        ),
                        kind: if is_struct {
                            23
                        } else {
                            5
                        },
                        range: Range {
                            start: Position { line: i, character: 0 },
                            end: Position { line: end, character: end_len },
                        },
                        selection_range: Range {
                            start: Position { line: i, character: 0 },
                            end: Position { line: i, character: start_len },
                        },
                        children: kids,
                    },
                );
                proof {
                    assert(aggregates_from(ls, i as int).len() >= 1);
                    assert(out@.last()@ == aggregates_from(ls, i as int)[0]);
                    assert(aggregates_from(ls, i as int) =~= seq![out@.last()@] + aggregates_from(ls, end + 1));
                    assert(syms_view(out@) =~= before.push(out@.last()@));
                }
                i = end + 1;
            },
            None => {
                i = i + 1;
            },
        }
    }
    proof {
        assert(syms_view(out@) =~= part2 + aggregates_from(ls, 0));
    }
    let ghost part3 = syms_view(out@);
    let funcs = scan_user_functions(text, None, None);
    let ghost fs = user_functions(text@, None, None);
    let mut k: usize = 0;
    while k < funcs.len()
        invariant
            fns_view(funcs@) == fs,
            fs == user_functions(text@, None, None),
            outline_fits(text@),
            v@ == text@,
            ls == lines(v@),
            blen(v@) <= usize::MAX,
            ranges_within(ranges@, 0, v@.len() as int),
            ranges_hold(v@, ranges@, ls),
            vs@ == v@,
            k <= funcs@.len(),
            syms_view(out@) == part3 + fs.take(k as int).map_values(|f: FnModel| fn_symbol(f, ls)),
        decreases funcs.len() - k,
    {
        proof {
            assert(fs[k as int] == funcs@[k as int]@);
            assert(fs[k as int].col + blen(fs[k as int].name) <= usize::MAX);
        }
        let s = fn_symbol_exec(&funcs[k], vs, &ranges);
        let ghost before = syms_view(out@);
        out.push(s);
        proof {
            assert(syms_view(out@) =~= before.push(s@));
            assert(fs.take(k + 1).map_values(|f: FnModel| fn_symbol(f, ls)) =~= fs.take(k as int).map_values(
                |f: FnModel| fn_symbol(f, ls),
            ).push(fn_symbol(fs[k as int], ls)));
            assert(syms_view(out@) =~= part3 + fs.take(k + 1).map_values(|f: FnModel| fn_symbol(f, ls)));
        }
        k = k + 1;
    }
    proof {
        assert(fs.take(fs.len() as int) =~= fs);
        assert(syms_view(out@) =~= document_symbols(text@));
    }
    out
}

} // verus!
