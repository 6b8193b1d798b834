//! Completion after `.` (struct fields, texture and buffer methods, matrix
//! elements, swizzles) and after `:` (semantics).
use vstd::prelude::*;
use crate::completion::{dedup_matching, items_view, sort_key, sort_key_string, CompletionItem, ItemModel};
use crate::completion_words::mk;
use crate::diagnostics::{Position, Range};
use crate::docs::{methods_view, MethodDoc, MethodInfo};
use crate::engine_table::{buffer_method_table, buffer_methods, rwtexture_method_table, rwtexture_methods, texture_method_table, texture_methods};
use crate::hover::first_of;
use crate::infer::inferred_type;
use crate::numbers::decimal;
use crate::semantics::{semantic_table, semantics, pairs_view};
use crate::splits::split_on;
use crate::strops::{contains, ends_with, find, rfind, starts_with, trim, trim_end, trim_start};
use crate::structs::{structs_view, FieldModel, StructDef, StructModel};
use crate::symbols::span;
use crate::text::{blen, is_word, char_is_word, push_str, str_string, to_chars, range_string, byte_offset};
use crate::completion_words::mk_exec;
use crate::numbers::decimal_string;
use crate::strops::eq_str;
use crate::functions::fn_scan_well_formed;
use crate::text::opt_view;

verus! {

/// The completion of a semantic after the last `:` of `prefix`, when what
/// follows it is a word and the line holds no `?`, `;` or `{` before the
/// cursor: every documented semantic, replacing from after the `:` to the
/// cursor (byte `safe`).
pub open spec fn semantic_completion(prefix: Seq<char>, line_idx: int, safe: int) -> Option<Seq<ItemModel>> {
    match rfind(prefix, ":"@) {
        None => None,
        Some(ci) => {
            let after = trim(prefix.subrange(ci + 1, prefix.len() as int));
            if !contains(prefix, "?"@) && !contains(prefix, ";"@) && !contains(prefix, "{"@) && (forall|i: int|
                0 <= i < after.len() ==> is_word(#[trigger] after[i])) {
                let range = span(line_idx, (blen(prefix.take(ci)) + 1) as int, line_idx, safe);
                Some(
                    Seq::new(
                        semantic_table().len(),
                        |i: int|
                            {
                                let s = semantic_table()[i];
                                mk(s.0, 6, "HLSL Semantic"@, s.1, s.0, 1, range, sort_key("00"@, i as nat, 2, s.0))
                            },
                    ),
                )
            } else {
                None
            }
        },
    }
}

/// A character of a member-access expression.
pub open spec fn is_expr_char(c: char) -> bool {
    is_word(c) || c == '.' || c == ']'
}

/// Start of the run of expression characters that ends at `k`.
pub open spec fn expr_left(s: Seq<char>, k: int) -> int
    decreases k,
{
    if k > 0 && k <= s.len() && is_expr_char(s[k - 1]) {
        expr_left(s, k - 1)
    } else {
        k
    }
}

/// The type reached by following the fields `parts[i..]` from type `t`
/// through the structs `ss`.
pub open spec fn follow_fields(t: Option<Seq<char>>, parts: Seq<Seq<char>>, i: int, ss: Seq<StructModel>) -> Option<
    Seq<char>,
>
    decreases parts.len() - i,
{
    if i < 1 || i >= parts.len() {
        t
    } else {
        match t {
            None => None,
            Some(ct) => match first_of(ss, |s: StructModel| s.name == ct, 0) {
                None => None,
                Some(si) => follow_fields(
                    match first_of(ss[si].fields, |f: FieldModel| f.name == parts[i], 0) {
                        Some(fi) => Some(ss[si].fields[fi].field_type),
                        None => None,
                    },
                    parts,
                    i + 1,
                    ss,
                ),
            },
        }
    }
}

/// The item of a method.
pub open spec fn method_item(m: MethodDoc, group: Seq<char>, i: int, range: Range) -> ItemModel {
    mk(m.name, 2, m.signature, m.description, m.snippet + "$0"@, 2, range, sort_key(group, i as nat, 2, m.name))
}

pub open spec fn method_items(ms: Seq<MethodDoc>, group: Seq<char>, range: Range) -> Seq<ItemModel> {
    Seq::new(ms.len(), |i: int| method_item(ms[i], group, i, range))
}

/// The fields of a struct, as members.
pub open spec fn field_items(s: StructModel, range: Range) -> Seq<ItemModel> {
    Seq::new(
        s.fields.len(),
        |i: int|
            {
                let f = s.fields[i];
                mk(
                    f.name,
                    5,
                    f.field_type + " "@ + s.name + "."@ + f.name,
                    seq![],
                    f.name,
                    1,
                    range,
                    sort_key("00"@, i as nat, 2, f.name),
                )
            },
    )
}

/// The rows and columns of a matrix type.
pub open spec fn matrix_shape(t: Seq<char>) -> (nat, nat) {
    if contains(t, "4x4"@) || t == "matrix"@ {
        (4, 4)
    } else if contains(t, "3x3"@) {
        (3, 3)
    } else if contains(t, "2x2"@) {
        (2, 2)
    } else if contains(t, "4x3"@) {
        (4, 3)
    } else if contains(t, "3x4"@) {
        (3, 4)
    } else {
        (4, 4)
    }
}

/// The elements of row `r` of a matrix with `cols` columns, numbered from
/// `base`: `_mRC` (from 0) or `_RC` (from 1).
pub open spec fn matrix_row(r: nat, cols: nat, base: nat, one_based: bool, range: Range) -> Seq<ItemModel> {
    Seq::new(
        cols,
        |c: int|
            {
                let label = if one_based {
                    "_"@ + decimal(r) + decimal(c as nat + 1)
                } else {
                    "_m"@ + decimal(r) + decimal(c as nat)
                };
                mk(
                    label,
                    5,
                    "Matrix element ["@ + decimal(r) + "]["@ + decimal(
                        if one_based {
                            c as nat + 1
                        } else {
                            c as nat
                        },
                    ) + if one_based {
                        "] (1-based)"@
                    } else {
                        "] (0-based)"@
                    },
                    seq![],
                    label,
                    1,
                    range,
                    sort_key(
                        if one_based {
                            "01"@
                        } else {
                            "00"@
                        },
                        base + c as nat,
                        2,
                        label,
                    ),
                )
            },
    )
}

/// Rows `first..first + n` of a matrix's elements, numbered from `base`.
pub open spec fn matrix_rows(first: nat, n: nat, cols: nat, base: nat, one_based: bool, range: Range) -> Seq<ItemModel>
    decreases n,
{
    if n == 0 {
        seq![]
    } else {
        matrix_row(first, cols, base, one_based, range) + matrix_rows(
            first + 1,
            (n - 1) as nat,
            cols,
            base + cols,
            one_based,
            range,
        )
    }
}

/// The elements of a matrix: 0-based names, then 1-based names.
pub open spec fn matrix_items(t: Seq<char>, range: Range) -> Seq<ItemModel> {
    let (rows, cols) = matrix_shape(t);
    matrix_rows(0, rows, cols, 0, false, range) + matrix_rows(1, rows, cols, rows * cols, true, range)
}

/// The swizzles of a vector of dimension 2.
pub open spec fn swizzles2() -> Seq<Seq<char>> {
    seq!["x"@, "y"@, "r"@, "g"@, "xy"@, "yx"@, "xx"@, "yy"@, "rg"@, "gr"@, "rr"@, "gg"@]
}

/// The swizzles of a vector of dimension 3.
pub open spec fn swizzles3() -> Seq<Seq<char>> {
    seq![
        "x"@, "y"@, "z"@, "r"@, "g"@, "b"@, "xy"@, "xz"@, "yz"@, "yx"@, "zx"@, "zy"@, "xx"@, "yy"@, "zz"@,
        "rg"@, "rb"@, "gb"@, "gr"@, "br"@, "bg"@, "rr"@, "gg"@, "bb"@, "xyz"@, "xzy"@, "yxz"@, "yzx"@,
        "zxy"@, "zyx"@, "xxx"@, "yyy"@, "zzz"@, "rgb"@, "rbg"@, "grb"@, "gbr"@, "brg"@, "bgr"@,
    ]
}

/// The swizzles of a vector of dimension 4.
pub open spec fn swizzles4() -> Seq<Seq<char>> {
    seq![
        "x"@, "y"@, "z"@, "w"@, "r"@, "g"@, "b"@, "a"@, "xy"@, "xz"@, "xw"@, "yz"@, "yw"@, "zw"@, "yx"@,
        "zx"@, "wx"@, "zy"@, "wy"@, "wz"@, "xx"@, "yy"@, "zz"@, "ww"@, "rg"@, "rb"@, "ra"@, "gb"@, "ga"@,
        "ba"@, "gr"@, "br"@, "ar"@, "bg"@, "ag"@, "ab"@, "xyz"@, "xyw"@, "xzw"@, "yzw"@, "zyx"@, "wyx"@,
        "wzx"@, "wzy"@, "xxx"@, "yyy"@, "zzz"@, "www"@, "rgb"@, "rga"@, "gba"@, "bgr"@, "xyzw"@, "rgba"@,
        "bgra"@, "argb"@, "wzyx"@, "abgr"@,
    ]
}

/// The swizzles common to vectors of every dimension.
pub open spec fn common_swizzles() -> Seq<Seq<char>> {
    seq!["x"@, "y"@, "z"@, "w"@, "xy"@, "zw"@, "xyz"@, "rgb"@, "rgba"@]
}

pub open spec fn swizzle_items(sws: Seq<Seq<char>>, range: Range) -> Seq<ItemModel> {
    Seq::new(
        sws.len(),
        |i: int| mk(sws[i], 10, "Swizzle ."@ + sws[i], seq![], sws[i], 1, range, sort_key("00"@, i as nat, 2, sws[i])),
    )
}

/// A vector type (of one of the scalar families).
pub open spec fn is_vector_type(t: Seq<char>) -> bool {
    starts_with(t, "float"@) || starts_with(t, "half"@) || starts_with(t, "int"@) || starts_with(t, "uint"@)
        || starts_with(t, "fixed"@) || starts_with(t, "bool"@)
}

/// The swizzles of a vector type, by the dimension its name ends with.
pub open spec fn vector_swizzles(t: Seq<char>) -> Seq<Seq<char>> {
    if ends_with(t, "3"@) {
        swizzles3()
    } else if ends_with(t, "2"@) {
        swizzles2()
    } else {
        swizzles4()
    }
}

/// The members of a value of type `t`, if the type is known as a struct,
/// a read-write texture, a texture, a buffer, a matrix or a vector.
pub open spec fn typed_members(t: Seq<char>, ss: Seq<StructModel>, range: Range) -> Option<Seq<ItemModel>> {
    match first_of(ss, |s: StructModel| s.name == t, 0) {
        Some(si) => Some(field_items(ss[si], range)),
        None => if starts_with(t, "RWTexture"@) {
            Some(method_items(rwtexture_method_table(), "00"@, range))
        } else if starts_with(t, "Texture"@) {
            Some(method_items(texture_method_table(), "00"@, range))
        } else if contains(t, "Buffer"@) {
            Some(method_items(buffer_method_table(), "00"@, range))
        } else if contains(t, "x"@) || t == "matrix"@ {
            Some(matrix_items(t, range))
        } else if is_vector_type(t) {
            Some(swizzle_items(vector_swizzles(t), range))
        } else {
            None
        },
    }
}

/// The fields of all structs, as members of an unknown type.
pub open spec fn all_fields_upto(ss: Seq<StructModel>, n: int, range: Range) -> Seq<ItemModel>
    decreases n,
{
    if n <= 0 {
        seq![]
    } else {
        let s = ss[n - 1];
        all_fields_upto(ss, n - 1, range) + Seq::new(
            s.fields.len(),
            |i: int|
                mk(
                    s.fields[i].name,
                    5,
                    s.fields[i].field_type + " (field of "@ + s.name + ")"@,
                    seq![],
                    s.fields[i].name,
                    1,
                    range,
                    "05_"@ + s.fields[i].name,
                ),
        )
    }
}

/// The members offered when the type is unknown: common swizzles, the
/// fields of every struct, and texture and buffer methods, each label once.
pub open spec fn fallback_members(ss: Seq<StructModel>, range: Range) -> Seq<ItemModel> {
    let cs = swizzle_items(common_swizzles(), range) + all_fields_upto(ss, ss.len() as int, range) + method_items(
        texture_method_table(),
        "10"@,
        range,
    ) + method_items(buffer_method_table(), "11"@, range);
    dedup_matching(cs, seq![], cs.len() as int)
}

/// The member completion after the last `.` of `prefix` (line `line_idx`,
/// cursor at byte `safe`), when what follows the dot is a word and an
/// expression stands before it: the type of the expression is inferred from
/// its root variable and followed through struct fields.
pub open spec fn member_completion(
    text: Seq<char>,
    prefix: Seq<char>,
    line_idx: int,
    safe: int,
    ss: Seq<StructModel>,
) -> Option<Seq<ItemModel>> {
    match rfind(prefix, "."@) {
        None => None,
        Some(di) => {
            let before = trim_end(prefix.take(di));
            let after = trim_start(prefix.subrange(di + 1, prefix.len() as int));
            if !(forall|i: int| 0 <= i < after.len() ==> is_word(#[trigger] after[i])) {
                None
            } else {
                let expr = before.subrange(expr_left(before, before.len() as int), before.len() as int);
                if expr.len() == 0 {
                    None
                } else {
                    let clean = match find(expr, "["@) {
                        Some(b) => trim(expr.take(b)),
                        None => expr,
                    };
                    let parts = split_on(clean, '.');
                    let target = follow_fields(inferred_type(text, parts[0], line_idx), parts, 1, ss);
                    let range = span(line_idx, (blen(prefix.take(di)) + 1) as int, line_idx, safe);
                    match target {
                        Some(t) => match typed_members(t, ss, range) {
                            Some(items) => Some(items),
                            None => Some(fallback_members(ss, range)),
                        },
                        None => Some(fallback_members(ss, range)),
                    }
                }
            }
        },
    }
}

/// Whether every character of `v[a..b]` is a word character.
fn all_word(v: &[char], a: usize, b: usize) -> (r: bool)
    requires
        a <= b <= v@.len(),
    ensures
        r == forall|i: int| 0 <= i < b - a ==> is_word(#[trigger] v@.subrange(a as int, b as int)[i]),
{
    let mut i = a;
    while i < b
        invariant
            a <= i <= b <= v@.len(),
            forall|j: int| 0 <= j < i - a ==> is_word(#[trigger] v@.subrange(a as int, b as int)[j]),
        decreases b - i,
    {
        proof {
            assert(v@.subrange(a as int, b as int)[i - a] == v@[i as int]);
        }
        if !char_is_word(v[i]) {
            return false;
        }
        i = i + 1;
    }
    true
}

/// The byte column after the character at index `ci` of `v`.
fn column_after(v: &[char], ci: usize) -> (r: usize)
    requires
        ci < v@.len(),
        blen(v@) <= usize::MAX,
    ensures
        r == blen(v@.take(ci as int)) + 1,
{
    proof {
        crate::text::lemma_blen_push(v@.take(ci as int), v@[ci as int]);
        assert(v@.take(ci as int).push(v@[ci as int]) =~= v@.take(ci + 1));
        crate::text::lemma_blen_mono(v@, ci + 1, v@.len() as int);
        assert(v@.take(v@.len() as int) =~= v@);
        assert(crate::text::cw(v@[ci as int]) >= 1) by {
            reveal_with_fuel(crate::text::cw, 1);
        }
    }
    byte_offset(v, ci) + 1
}

/// `semantic_completion(v[..k], line_idx, safe)` at run time.
pub fn semantic_completion_exec(v: &[char], k: usize, line_idx: usize, safe: usize) -> (r: Option<Vec<CompletionItem>>)
    requires
        k <= v@.len(),
        blen(v@) <= usize::MAX,
    ensures
        match semantic_completion(v@.take(k as int), line_idx as int, safe as int) {
            Some(items) => r matches Some(rv) && items_view(rv@) == items,
            None => r is None,
        },
{
    let ghost prefix = v@.take(k as int);
    proof {
        assert(v@.subrange(0, k as int) =~= prefix);
        reveal_strlit(":");
        assert(":"@ =~= seq![':']);
    }
    let ci = match crate::strops::rfind_char(v, 0, k, ':') {
        Some(c) => c,
        None => return None,
    };
    let (aa, ab) = crate::strops::trim_range(v, ci + 1, k);
    proof {
        assert(prefix.subrange(ci + 1, prefix.len() as int) =~= v@.subrange(ci + 1, k as int));
    }
    let words_only = all_word(v, aa, ab);
    if crate::strops::contains_str(v, 0, k, "?") || crate::strops::contains_str(v, 0, k, ";") || crate::strops::contains_str(v, 0, k, "{") || !words_only {
        return None;
    }
    let start = column_after(v, ci);
    proof {
        assert(prefix.take(ci as int) =~= v@.take(ci as int));
    }
    let range = Range { start: Position { line: line_idx, character: start }, end: Position { line: line_idx, character: safe } };
    let t = semantics();
    let mut out: Vec<CompletionItem> = Vec::new();
    let mut i: usize = 0;
    let ghost st = semantic_table();
    let ghost want = Seq::new(
        st.len(),
        |i: int| mk(st[i].0, 6, "HLSL Semantic"@, st[i].1, st[i].0, 1, range, sort_key("00"@, i as nat, 2, st[i].0)),
    );
    while i < t.len()
        invariant
            pairs_view(t@) == st,
            st == semantic_table(),
            want == Seq::new(
                st.len(),
                |i: int| mk(st[i].0, 6, "HLSL Semantic"@, st[i].1, st[i].0, 1, range, sort_key("00"@, i as nat, 2, st[i].0)),
            ),
            i <= t@.len(),
            items_view(out@) == want.take(i as int),
        decreases t.len() - i,
    {
        let (name, desc) = t[i];
        proof {
            assert(st[i as int] == (name@, desc@));
        }
        let sort = sort_key_string("00", i, 2, name);
        let it = mk_exec(str_string(name), 6, str_string("HLSL Semantic"), str_string(desc), str_string(name), 1, range, sort);
        let ghost before = items_view(out@);
        out.push(it);
        proof {
            assert(items_view(out@) =~= before.push(it@));
            assert(want.take(i + 1) =~= want.take(i as int).push(want[i as int]));
        }
        i = i + 1;
    }
    proof {
        assert(want.take(st.len() as int) =~= want);
    }
    Some(out)
}

/// Appends the items of the methods `ms` in group `group`.
fn push_method_items(out: &mut Vec<CompletionItem>, ms: &Vec<MethodInfo>, group: &str, range: Range)
    ensures
        items_view(final(out)@) == items_view(old(out)@) + method_items(methods_view(ms@), group@, range),
{
    let ghost mv = methods_view(ms@);
    let ghost base = items_view(out@);
    let mut i: usize = 0;
    while i < ms.len()
        invariant
            mv == methods_view(ms@),
            base == items_view(old(out)@),
            i <= ms@.len(),
            items_view(out@) == base + method_items(mv, group@, range).take(i as int),
        decreases ms.len() - i,
    {
        let m = &ms[i];
        proof {
            assert(mv[i as int] == m@);
        }
        let mut snip = str_string(m.snippet);
        push_str(&mut snip, "$0");
        let sort = sort_key_string(group, i, 2, m.name);
        let it = mk_exec(str_string(m.name), 2, str_string(m.signature), str_string(m.description), snip, 2, range, sort);
        let ghost before = items_view(out@);
        out.push(it);
        proof {
            assert(items_view(out@) =~= before.push(it@));
            assert(method_items(mv, group@, range).take(i + 1) =~= method_items(mv, group@, range).take(i as int).push(
                method_items(mv, group@, range)[i as int],
            ));
        }
        i = i + 1;
    }
    proof {
        assert(method_items(mv, group@, range).take(mv.len() as int) =~= method_items(mv, group@, range));
    }
}

/// Appends the items of the swizzles `sws`.
fn push_swizzle_items(out: &mut Vec<CompletionItem>, sws: &Vec<&'static str>, range: Range)
    ensures
        items_view(final(out)@) == items_view(old(out)@) + swizzle_items(sws@.map_values(|s: &str| s@), range),
{
    let ghost sv = sws@.map_values(|s: &str| s@);
    let ghost base = items_view(out@);
    let mut i: usize = 0;
    while i < sws.len()
        invariant
            sv == sws@.map_values(|s: &str| s@),
            base == items_view(old(out)@),
            i <= sws@.len(),
            items_view(out@) == base + swizzle_items(sv, range).take(i as int),
        decreases sws.len() - i,
    {
        let sw = sws[i];
        proof {
            assert(sv[i as int] == sw@);
        }
        let mut detail = str_string("Swizzle .");
        push_str(&mut detail, sw);
        let sort = sort_key_string("00", i, 2, sw);
        let it = mk_exec(str_string(sw), 10, detail, String::new(), str_string(sw), 1, range, sort);
        let ghost before = items_view(out@);
        out.push(it);
        proof {
            assert(it@.documentation =~= Seq::<char>::empty());
            assert(items_view(out@) =~= before.push(it@));
            assert(swizzle_items(sv, range).take(i + 1) =~= swizzle_items(sv, range).take(i as int).push(
                swizzle_items(sv, range)[i as int],
            ));
        }
        i = i + 1;
    }
    proof {
        assert(swizzle_items(sv, range).take(sv.len() as int) =~= swizzle_items(sv, range));
    }
}

/// `swizzles2()` at run time.
fn swizzles2_exec() -> (r: Vec<&'static str>)
    ensures
        r@.map_values(|s: &str| s@) == swizzles2(),
{
    let r = vec!["x", "y", "r", "g", "xy", "yx", "xx", "yy", "rg", "gr", "rr", "gg"];
    proof {
        assert(r@.map_values(|s: &str| s@) =~= swizzles2());
    }
    r
}

/// `swizzles3()` at run time.
fn swizzles3_exec() -> (r: Vec<&'static str>)
    ensures
        r@.map_values(|s: &str| s@) == swizzles3(),
{
    let r = vec!["x", "y", "z", "r", "g", "b", "xy", "xz", "yz", "yx", "zx", "zy", "xx", "yy", "zz", "rg", "rb", "gb", "gr", "br", "bg", "rr", "gg", "bb", "xyz", "xzy", "yxz", "yzx", "zxy", "zyx", "xxx", "yyy", "zzz", "rgb", "rbg", "grb", "gbr", "brg", "bgr"];
    proof {
        assert(r@.map_values(|s: &str| s@) =~= swizzles3());
    }
    r
}

/// `swizzles4()` at run time.
fn swizzles4_exec() -> (r: Vec<&'static str>)
    ensures
        r@.map_values(|s: &str| s@) == swizzles4(),
{
    let r = vec!["x", "y", "z", "w", "r", "g", "b", "a", "xy", "xz", "xw", "yz", "yw", "zw", "yx", "zx", "wx", "zy", "wy", "wz", "xx", "yy", "zz", "ww", "rg", "rb", "ra", "gb", "ga", "ba", "gr", "br", "ar", "bg", "ag", "ab", "xyz", "xyw", "xzw", "yzw", "zyx", "wyx", "wzx", "wzy", "xxx", "yyy", "zzz", "www", "rgb", "rga", "gba", "bgr", "xyzw", "rgba", "bgra", "argb", "wzyx", "abgr"];
    proof {
        assert(r@.map_values(|s: &str| s@) =~= swizzles4());
    }
    r
}

/// `common_swizzles()` at run time.
fn common_swizzles_exec() -> (r: Vec<&'static str>)
    ensures
        r@.map_values(|s: &str| s@) == common_swizzles(),
{
    let r = vec!["x", "y", "z", "w", "xy", "zw", "xyz", "rgb", "rgba"];
    proof {
        assert(r@.map_values(|s: &str| s@) =~= common_swizzles());
    }
    r
}

/// Appends the elements of row `r` of a matrix.
fn push_matrix_row(out: &mut Vec<CompletionItem>, r: usize, cols: usize, base: usize, one_based: bool, range: Range)
    requires
        r <= 4,
        cols <= 4,
        base <= 32,
    ensures
        items_view(final(out)@) == items_view(old(out)@) + matrix_row(r as nat, cols as nat, base as nat, one_based, range),
{
    let ghost want = matrix_row(r as nat, cols as nat, base as nat, one_based, range);
    let ghost start = items_view(out@);
    let rs = decimal_string(r);
    let mut c: usize = 0;
    while c < cols
        invariant
            r <= 4,
            cols <= 4,
            base <= 32,
            rs@ == decimal(r as nat),
            want == matrix_row(r as nat, cols as nat, base as nat, one_based, range),
            start == items_view(old(out)@),
            c <= cols,
            items_view(out@) == start + want.take(c as int),
        decreases cols - c,
    {
        let cn = if one_based {
            c + 1
        } else {
            c
        };
        let cs = decimal_string(cn);
        let mut label = str_string(if one_based {
            "_"
        } else {
            "_m"
        });
        push_str(&mut label, rs.as_str());
        push_str(&mut label, cs.as_str());
        let mut detail = str_string("Matrix element [");
        push_str(&mut detail, rs.as_str());
        push_str(&mut detail, "][");
        push_str(&mut detail, cs.as_str());
        push_str(&mut detail, if one_based {
            "] (1-based)"
        } else {
            "] (0-based)"
        });
        let sort = sort_key_string(if one_based {
            "01"
        } else {
            "00"
        }, base + c, 2, label.as_str());
        let it = mk_exec(label.clone(), 5, detail, String::new(), label, 1, range, sort);
        let ghost before = items_view(out@);
        out.push(it);
        proof {
            assert(it@.documentation =~= Seq::<char>::empty());
            assert(items_view(out@) =~= before.push(it@));
            assert(want.take(c + 1) =~= want.take(c as int).push(want[c as int]));
        }
        c = c + 1;
    }
    proof {
        assert(want.take(cols as int) =~= want);
    }
}

/// Appends rows `first..first + n` of a matrix's elements.
fn push_matrix_rows(out: &mut Vec<CompletionItem>, first: usize, n: usize, cols: usize, base: usize, one_based: bool, range: Range)
    requires
        first + n <= 5,
        cols <= 4,
        base + n * cols <= 32,
    ensures
        items_view(final(out)@) == items_view(old(out)@) + matrix_rows(
            first as nat,
            n as nat,
            cols as nat,
            base as nat,
            one_based,
            range,
        ),
    decreases n,
{
    if n == 0 {
        proof {
            assert(items_view(out@) =~= items_view(out@) + Seq::<ItemModel>::empty());
        }
        return;
    }
    proof {
        assert(base + n * cols == base + cols + (n - 1) * cols) by (nonlinear_arith);
        assert(base + cols <= 32) by (nonlinear_arith)
            requires
                base + n * cols <= 32,
                n >= 1,
        ;
    }
    let ghost before = items_view(out@);
    push_matrix_row(out, first, cols, base, one_based, range);
    push_matrix_rows(out, first + 1, n - 1, cols, base + cols, one_based, range);
    proof {
        assert(items_view(out@) =~= before + matrix_rows(first as nat, n as nat, cols as nat, base as nat, one_based, range));
    }
}

/// `matrix_shape` at run time.
fn matrix_shape_exec(t: &[char]) -> (r: (usize, usize))
    ensures
        r.0 == matrix_shape(t@).0,
        r.1 == matrix_shape(t@).1,
{
    let n = t.len();
    proof {
        assert(t@.subrange(0, n as int) =~= t@);
    }
    if crate::strops::contains_str(t, 0, n, "4x4") || crate::strops::eq_str(t, 0, n, "matrix") {
        (4, 4)
    } else if crate::strops::contains_str(t, 0, n, "3x3") {
        (3, 3)
    } else if crate::strops::contains_str(t, 0, n, "2x2") {
        (2, 2)
    } else if crate::strops::contains_str(t, 0, n, "4x3") {
        (4, 3)
    } else if crate::strops::contains_str(t, 0, n, "3x4") {
        (3, 4)
    } else {
        (4, 4)
    }
}

/// Appends the field items of the struct `x`.
fn push_field_items(out: &mut Vec<CompletionItem>, x: &StructDef, range: Range)
    ensures
        items_view(final(out)@) == items_view(old(out)@) + field_items(x@, range),
{
    let ghost xv = x@;
    let ghost base = items_view(out@);
    let mut i: usize = 0;
    while i < x.fields.len()
        invariant
            xv == x@,
            base == items_view(old(out)@),
            i <= x.fields@.len(),
            items_view(out@) == base + field_items(xv, range).take(i as int),
        decreases x.fields.len() - i,
    {
        let f = &x.fields[i];
        proof {
            assert(xv.fields[i as int] == f@);
        }
        let mut detail = str_string(f.field_type.as_str());
        push_str(&mut detail, " ");
        push_str(&mut detail, x.name.as_str());
        push_str(&mut detail, ".");
        push_str(&mut detail, f.name.as_str());
        let sort = sort_key_string("00", i, 2, f.name.as_str());
        let it = mk_exec(f.name.clone(), 5, detail, String::new(), f.name.clone(), 1, range, sort);
        let ghost before = items_view(out@);
        out.push(it);
        proof {
            assert(it@.documentation =~= Seq::<char>::empty());
            assert(items_view(out@) =~= before.push(it@));
            assert(field_items(xv, range).take(i + 1) =~= field_items(xv, range).take(i as int).push(
                field_items(xv, range)[i as int],
            ));
        }
        i = i + 1;
    }
    proof {
        assert(field_items(xv, range).take(xv.fields.len() as int) =~= field_items(xv, range));
    }
}

/// The index of the first struct named `t`.
fn struct_named(ss: &[StructDef], t: &[char]) -> (r: Option<usize>)
    ensures
        r matches Some(i) ==> i < ss@.len(),
        match first_of(structs_view(ss@), |s: StructModel| s.name == t@, 0) {
            Some(i) => r matches Some(ri) && ri == i,
            None => r is None,
        },
{
    let ghost sv = structs_view(ss@);
    let ghost p = |s: StructModel| s.name == t@;
    proof {
        assert(t@.subrange(0, t@.len() as int) =~= t@);
    }
    let mut i: usize = 0;
    while i < ss.len()
        invariant
            sv == structs_view(ss@),
            p == (|s: StructModel| s.name == t@),
            t@.subrange(0, t@.len() as int) == t@,
            i <= ss@.len(),
            forall|j: int| 0 <= j < i ==> !p(#[trigger] sv[j]),
        decreases ss.len() - i,
    {
        proof {
            assert(sv[i as int] == ss@[i as int]@);
        }
        if crate::strops::eq_str(t, 0, t.len(), ss[i].name.as_str()) {
            proof {
                crate::hover::lemma_first_of_at(sv, p, i as int, 0);
            }
            return Some(i);
        }
        i = i + 1;
    }
    proof {
        crate::hover::lemma_first_of_none(sv, p, 0);
    }
    None
}

/// `typed_members(t@, structs, range)` at run time.
fn typed_members_exec(t: &str, structs: &[StructDef], range: Range) -> (r: Option<Vec<CompletionItem>>)
    ensures
        match typed_members(t@, structs_view(structs@), range) {
            Some(items) => r matches Some(rv) && items_view(rv@) == items,
            None => r is None,
        },
{
    let tc = to_chars(t);
    let n = tc.len();
    proof {
        assert(tc@.subrange(0, n as int) =~= tc@);
    }
    let mut out: Vec<CompletionItem> = Vec::new();
    proof {
        assert(items_view(out@) =~= Seq::<ItemModel>::empty());
    }
    let ts = tc.as_slice();
    match struct_named(structs, ts) {
        Some(si) => {
            proof {
                assert(structs_view(structs@)[si as int] == structs@[si as int]@);
            }
            let ghost before = items_view(out@);
            push_field_items(&mut out, &structs[si], range);
            proof {
                assert(ts@ == t@);
                assert((|s: StructModel| s.name == ts@) =~= (|s: StructModel| s.name == t@));
                assert(first_of(structs_view(structs@), |s: StructModel| s.name == t@, 0) == Some(si as int));
                assert(typed_members(t@, structs_view(structs@), range) == Some(field_items(structs_view(structs@)[si as int], range)));
                assert(items_view(out@) =~= before + field_items(structs_view(structs@)[si as int], range));
                assert(before + field_items(structs_view(structs@)[si as int], range) =~= field_items(
                    structs_view(structs@)[si as int],
                    range,
                ));
            }
            return Some(out);
        },
        None => {},
    }
    if crate::strops::starts_with_str(&tc, 0, n, "RWTexture") {
        push_method_items(&mut out, &rwtexture_methods(), "00", range);
        Some(out)
    } else if crate::strops::starts_with_str(&tc, 0, n, "Texture") {
        push_method_items(&mut out, &texture_methods(), "00", range);
        Some(out)
    } else if crate::strops::contains_str(&tc, 0, n, "Buffer") {
        push_method_items(&mut out, &buffer_methods(), "00", range);
        Some(out)
    } else if crate::strops::contains_str(&tc, 0, n, "x") || crate::strops::eq_str(&tc, 0, n, "matrix") {
        let (rows, cols) = matrix_shape_exec(tc.as_slice());
        proof {
            assert(rows * cols <= 16) by (nonlinear_arith)
                requires
                    rows <= 4,
                    cols <= 4,
            ;
        }
        push_matrix_rows(&mut out, 0, rows, cols, 0, false, range);
        push_matrix_rows(&mut out, 1, rows, cols, rows * cols, true, range);
        proof {
            assert(items_view(out@) =~= matrix_items(t@, range));
        }
        Some(out)
    } else if crate::strops::starts_with_str(&tc, 0, n, "float") || crate::strops::starts_with_str(&tc, 0, n, "half")
        || crate::strops::starts_with_str(&tc, 0, n, "int") || crate::strops::starts_with_str(&tc, 0, n, "uint")
        || crate::strops::starts_with_str(&tc, 0, n, "fixed") || crate::strops::starts_with_str(&tc, 0, n, "bool") {
        let sws = if crate::strops::ends_with_str(&tc, 0, n, "3") {
            swizzles3_exec()
        } else if crate::strops::ends_with_str(&tc, 0, n, "2") {
            swizzles2_exec()
        } else {
            swizzles4_exec()
        };
        push_swizzle_items(&mut out, &sws, range);
        Some(out)
    } else {
        None
    }
}

/// The member items offered when the type is unknown.
fn fallback_exec(structs: &[StructDef], range: Range) -> (r: Vec<CompletionItem>)
    ensures
        items_view(r@) == fallback_members(structs_view(structs@), range),
{
    let ghost sv = structs_view(structs@);
    let mut cands: Vec<CompletionItem> = Vec::new();
    proof {
        assert(items_view(cands@) =~= Seq::<ItemModel>::empty());
    }
    push_swizzle_items(&mut cands, &common_swizzles_exec(), range);
    let ghost base = items_view(cands@);
    let mut si: usize = 0;
    while si < structs.len()
        invariant
            sv == structs_view(structs@),
            base == swizzle_items(common_swizzles(), range),
            si <= structs@.len(),
            items_view(cands@) == base + all_fields_upto(sv, si as int, range),
        decreases structs.len() - si,
    {
        let x = &structs[si];
        let ghost xv = x@;
        proof {
            assert(sv[si as int] == xv);
        }
        let ghost before = items_view(cands@);
        let ghost row = Seq::new(
            xv.fields.len(),
            |i: int|
                mk(
                    xv.fields[i].name,
                    5,
                    xv.fields[i].field_type + " (field of "@ + xv.name + ")"@,
                    seq![],
                    xv.fields[i].name,
                    1,
                    range,
                    "05_"@ + xv.fields[i].name,
                ),
        );
        let mut fi: usize = 0;
        while fi < x.fields.len()
            invariant
                xv == x@,
                row == Seq::new(
                    xv.fields.len(),
                    |i: int|
                        mk(
                            xv.fields[i].name,
                            5,
                            xv.fields[i].field_type + " (field of "@ + xv.name + ")"@,
                            seq![],
                            xv.fields[i].name,
                            1,
                            range,
                            "05_"@ + xv.fields[i].name,
                        ),
                ),
                fi <= x.fields@.len(),
                items_view(cands@) == before + row.take(fi as int),
            decreases x.fields.len() - fi,
        {
            let f = &x.fields[fi];
            proof {
                assert(xv.fields[fi as int] == f@);
            }
            let mut detail = str_string(f.field_type.as_str());
            push_str(&mut detail, " (field of ");
            push_str(&mut detail, x.name.as_str());
            push_str(&mut detail, ")");
            let mut sort = str_string("05_");
            push_str(&mut sort, f.name.as_str());
            let it = mk_exec(f.name.clone(), 5, detail, String::new(), f.name.clone(), 1, range, sort);
            let ghost b2 = items_view(cands@);
            cands.push(it);
            proof {
                assert(it@.documentation =~= Seq::<char>::empty());
                assert(items_view(cands@) =~= b2.push(it@));
                assert(row.take(fi + 1) =~= row.take(fi as int).push(row[fi as int]));
            }
            fi = fi + 1;
        }
        proof {
            assert(row.take(xv.fields.len() as int) =~= row);
            assert(all_fields_upto(sv, si + 1, range) == all_fields_upto(sv, si as int, range) + row);
            assert(items_view(cands@) =~= base + all_fields_upto(sv, si + 1, range));
        }
        si = si + 1;
    }
    push_method_items(&mut cands, &texture_methods(), "10", range);
    push_method_items(&mut cands, &buffer_methods(), "11", range);
    let empty = String::new();
    proof {
        assert(items_view(cands@) =~= swizzle_items(common_swizzles(), range) + all_fields_upto(sv, sv.len() as int, range)
            + method_items(texture_method_table(), "10"@, range) + method_items(buffer_method_table(), "11"@, range));
    }
    crate::completion::filter_candidates(cands, empty.as_str())
}

/// The index of the first field of `x` named `v[a..b]`.
fn field_named(x: &StructDef, v: &[char], a: usize, b: usize) -> (r: Option<usize>)
    requires
        a <= b <= v@.len(),
    ensures
        r matches Some(i) ==> i < x.fields@.len(),
        match first_of(x@.fields, |f: FieldModel| f.name == v@.subrange(a as int, b as int), 0) {
            Some(i) => r matches Some(ri) && ri == i,
            None => r is None,
        },
{
    let ghost fv = x@.fields;
    let ghost p = |f: FieldModel| f.name == v@.subrange(a as int, b as int);
    let mut i: usize = 0;
    while i < x.fields.len()
        invariant
            a <= b <= v@.len(),
            fv == x@.fields,
            p == (|f: FieldModel| f.name == v@.subrange(a as int, b as int)),
            i <= x.fields@.len(),
            forall|j: int| 0 <= j < i ==> !p(#[trigger] fv[j]),
        decreases x.fields.len() - i,
    {
        proof {
            assert(fv[i as int] == x.fields@[i as int]@);
        }
        if eq_str(v, a, b, x.fields[i].name.as_str()) {
            proof {
                crate::hover::lemma_first_of_at(fv, p, i as int, 0);
            }
            return Some(i);
        }
        i = i + 1;
    }
    proof {
        crate::hover::lemma_first_of_none(fv, p, 0);
    }
    None
}

/// The start of the run of expression characters of `v` that ends at `k`.
fn expr_left_exec(v: &[char], k: usize) -> (r: usize)
    requires
        k <= v@.len(),
    ensures
        r == expr_left(v@.take(k as int), k as int),
        r <= k,
{
    let ghost s = v@.take(k as int);
    let mut j = k;
    while j > 0 && (char_is_word(v[j - 1]) || v[j - 1] == '.' || v[j - 1] == ']')
        invariant
            j <= k <= v@.len(),
            s == v@.take(k as int),
            expr_left(s, k as int) == expr_left(s, j as int),
        decreases j,
    {
        proof {
            assert(s[j - 1] == v@[j - 1]);
        }
        j = j - 1;
    }
    proof {
        if j > 0 {
            assert(s[j - 1] == v@[j - 1]);
        }
    }
    j
}

/// The type of the member-access expression `v[ca..cb]` (split on `.`):
/// the inferred type of its root, followed through struct fields.
fn member_type_exec(text: &str, v: &[char], ca: usize, cb: usize, line_idx: usize, structs: &[StructDef]) -> (r: Option<String>)
    requires
        ca <= cb <= v@.len(),
        fn_scan_well_formed(text@, None, None),
    ensures
        opt_view(r) == follow_fields(
            inferred_type(text@, split_on(v@.subrange(ca as int, cb as int), '.')[0], line_idx as int),
            split_on(v@.subrange(ca as int, cb as int), '.'),
            1,
            structs_view(structs@),
        ),
{
    let ghost ssv = structs_view(structs@);
    let ghost clean = v@.subrange(ca as int, cb as int);
    let rs = crate::splits::split_ranges(v, ca, cb, '.');
    let ghost parts = split_on(clean, '.');
    proof {
        crate::splits::lemma_split_on_nonempty(clean, '.');
    }
    let root = range_string(v, rs[0].0, rs[0].1);
    let inferred = crate::infer::infer_variable_type(text, root.as_str(), line_idx);
    let ghost target = follow_fields(inferred_type(text@, parts[0], line_idx as int), parts, 1, ssv);
    let mut cur: Option<String> = inferred;
    let mut i: usize = 1;
    while i < rs.len()
        invariant
            1 <= i,
            rs@.len() == parts.len(),
            ca <= cb <= v@.len(),
            crate::splits::ranges_within(rs@, ca as int, cb as int),
            crate::splits::ranges_hold(v@, rs@, parts),
            ssv == structs_view(structs@),
            target == follow_fields(opt_view(cur), parts, i as int, ssv),
        ensures
            target == follow_fields(opt_view(cur), parts, i as int, ssv),
            i >= rs@.len() || cur is None,
        decreases rs.len() - i,
    {
        let ct = match &cur {
            Some(c) => c,
            None => break,
        };
        let cc = to_chars(ct.as_str());
        let cs = cc.as_slice();
        let found = match struct_named(structs, cs) {
            Some(si) => {
                let x = &structs[si];
                let (fa, fb) = rs[i];
                proof {
                    assert(ssv[si as int] == x@);
                    assert(cs@ == opt_view(cur)->0);
                    assert((|s: StructModel| s.name == cs@) =~= (|s: StructModel| s.name == opt_view(cur)->0));
                    assert(v@.subrange(fa as int, fb as int) == parts[i as int]);
                    assert((|f: FieldModel| f.name == v@.subrange(fa as int, fb as int)) =~= (|f: FieldModel|
                        f.name == parts[i as int]));
                }
                match field_named(x, v, fa, fb) {
                    Some(fi) => {
                        proof {
                            assert(x@.fields[fi as int] == x.fields@[fi as int]@);
                        }
                        Some(x.fields[fi].field_type.clone())
                    },
                    None => None,
                }
            },
            None => {
                proof {
                    assert((|s: StructModel| s.name == cs@) =~= (|s: StructModel| s.name == opt_view(cur)->0));
                }
                cur = None;
                break;
            },
        };
        cur = found;
        i = i + 1;
    }
    proof {
        assert(target == opt_view(cur));
    }
    cur
}

/// `member_completion(text@, v[..k], line_idx, safe, structs)` at run time.
#[verifier::rlimit(40)]
pub fn member_completion_exec(
    text: &str,
    v: &[char],
    k: usize,
    line_idx: usize,
    safe: usize,
    structs: &[StructDef],
) -> (r: Option<Vec<CompletionItem>>)
    requires
        k <= v@.len(),
        blen(v@) <= usize::MAX,
        fn_scan_well_formed(text@, None, None),
    ensures
        match member_completion(text@, v@.take(k as int), line_idx as int, safe as int, structs_view(structs@)) {
            Some(items) => r matches Some(rv) && items_view(rv@) == items,
            None => r is None,
        },
{
    let ghost prefix = v@.take(k as int);
    let ghost ssv = structs_view(structs@);
    proof {
        assert(v@.subrange(0, k as int) =~= prefix);
        reveal_strlit(".");
        reveal_strlit("[");
        assert("."@ =~= seq!['.']);
        assert("["@ =~= seq!['[']);
    }
    let di = match crate::strops::rfind_char(v, 0, k, '.') {
        Some(d) => d,
        None => return None,
    };
    let be = crate::strops::trim_end_range(v, 0, di);
    let st = crate::strops::trim_start_range(v, di + 1, k);
    let ghost before = v@.subrange(0, be as int);
    proof {
        assert(prefix.take(di as int) =~= v@.subrange(0, di as int));
        assert(prefix.subrange(di + 1, prefix.len() as int) =~= v@.subrange(di + 1, k as int));
        assert(v@.take(be as int) =~= before);
    }
    if !all_word(v, st, k) {
        return None;
    }
    let el = expr_left_exec(v, be);
    let ghost expr = before.subrange(el as int, be as int);
    proof {
        assert(expr =~= v@.subrange(el as int, be as int));
    }
    if el == be {
        return None;
    }
    let (ca, cb) = match crate::strops::find_char(v, el, be, '[') {
        Some(b) => crate::strops::trim_range(v, el, el + b),
        None => (el, be),
    };
    proof {
        match find(expr, "["@) {
            Some(b) => {
                assert(expr.take(b) =~= v@.subrange(el as int, el + b));
            },
            None => {},
        }
    }
    let cur = member_type_exec(text, v, ca, cb, line_idx, structs);
    let start = column_after(v, di);
    proof {
        assert(prefix.take(di as int) =~= v@.take(di as int));
    }
    let range = Range { start: Position { line: line_idx, character: start }, end: Position { line: line_idx, character: safe } };
    match cur {
        Some(t) => match typed_members_exec(t.as_str(), structs, range) {
            Some(items) => Some(items),
            None => Some(fallback_exec(structs, range)),
        },
        None => Some(fallback_exec(structs, range)),
    }
}

} // verus!
