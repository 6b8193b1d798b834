//! Hover: the markdown shown for the word under the cursor.
use vstd::prelude::*;
use crate::cursor::{extract_word_at_pos, word_left, word_right};
use crate::decls::{LocalModel, ParamModel};
use crate::docs::{
    engine_names, find_engine_variable, first_index_of, EngineDoc, EngineVariable, FunctionDoc, OverloadDoc,
};
use crate::engine_table::engine_table;
use crate::functions::{encloses, find_enclosing_function, fns_view, FnModel, FunctionSignature};
use crate::help::builtin_named;
use crate::props::{props_view, scan_shaderlab_properties, shaderlab_properties, PropModel, ShaderLabProperty};
use crate::semantics::{find_semantic, semantic_table};
use crate::splits::{lines, lines_of};
use crate::strops::{trim, trim_end, trim_end_range, trim_range};
use crate::structs::{structs_view, StructDef, StructModel};
use crate::symbols::strip_all_prefix;
use crate::text::{floor_char, push_str, range_string, str_string, to_chars};
use crate::strops::eq_str;
use crate::variables::{vars_view, VarModel, VariableSymbol};

verus! {

/// Index of the first element at or after `i` that satisfies `p`.
pub open spec fn first_of<T>(s: Seq<T>, p: spec_fn(T) -> bool, i: int) -> Option<int>
    decreases s.len() - i,
{
    if i < 0 || i >= s.len() {
        None
    } else if p(s[i]) {
        Some(i)
    } else {
        first_of(s, p, i + 1)
    }
}

/// The word under byte column `col` of `line`, as `extract_word_at_pos` finds it.
pub open spec fn word_at(line: Seq<char>, col: int) -> Seq<char> {
    let k = floor_char(line, col);
    line.subrange(word_left(line, k), word_right(line, k))
}

/// `"\n\n" + d` for a doc comment, else nothing.
pub open spec fn doc_part(doc: Option<Seq<char>>) -> Seq<char> {
    match doc {
        Some(d) => "\n\n"@ + d,
        None => seq![],
    }
}

/// The hover of a parameter of the function `f`.
pub open spec fn param_md(p: ParamModel, f: Seq<char>) -> Seq<char> {
    "```hlsl\n"@ + p.param_type + " "@ + p.name + "\n```\n*(parameter of `"@ + f + "`)*"@
}

/// The hover of a local variable of the function `f`.
pub open spec fn local_md(v: LocalModel, f: Seq<char>) -> Seq<char> {
    "```hlsl\n"@ + v.var_type + " "@ + v.name + "\n```\n*(local variable in `"@ + f + "`)*"@
}

/// The labels of overloads, each followed by a newline.
pub open spec fn labels_text(os: Seq<OverloadDoc>, n: int) -> Seq<char>
    decreases n,
{
    if n <= 0 {
        seq![]
    } else {
        labels_text(os, n - 1) + os[n - 1].label + "\n"@
    }
}

/// The hover of an intrinsic: its signatures, then its description.
pub open spec fn builtin_md(b: FunctionDoc) -> Seq<char> {
    "```hlsl\n"@ + trim_end(labels_text(b.overloads, b.overloads.len() as int)) + "\n```\n\n"@ + b.description
}

/// The hover of a semantic.
pub open spec fn semantic_md(w: Seq<char>, d: Seq<char>) -> Seq<char> {
    "### `"@ + w + "`\n*HLSL Semantic*\n\n"@ + d
}

/// The hover of an engine variable.
pub open spec fn engine_md(e: EngineDoc) -> Seq<char> {
    "```hlsl\n"@ + e.detail + "\n```\n\n"@ + e.description
}

/// The hover of a user function.
pub open spec fn fn_md(f: FnModel) -> Seq<char> {
    "```hlsl\n"@ + f.label + "\n```"@ + doc_part(f.doc)
}

/// The hover of a global variable, trimmed.
pub open spec fn var_md(v: VarModel) -> Seq<char> {
    trim("```hlsl\n"@ + v.var_type + " "@ + v.name + "\n```"@ + doc_part(v.doc))
}

/// The fields of a struct, one declaration per line.
pub open spec fn fields_text(fs: Seq<crate::structs::FieldModel>, n: int) -> Seq<char>
    decreases n,
{
    if n <= 0 {
        seq![]
    } else {
        fields_text(fs, n - 1) + "    "@ + fs[n - 1].field_type + " "@ + fs[n - 1].name + ";\n"@
    }
}

/// The hover of a struct: its definition.
pub open spec fn struct_md(s: StructModel) -> Seq<char> {
    "```hlsl\nstruct "@ + s.name + "\n{\n"@ + fields_text(s.fields, s.fields.len() as int) + "};\n```"@
}

/// The hover of a ShaderLab property.
pub open spec fn prop_md(p: PropModel) -> Seq<char> {
    let def = if p.default_val.len() == 0 {
        seq![]
    } else {
        " = "@ + p.default_val
    };
    "### `"@ + p.name + "` ("@ + p.prop_type + ")\n*ShaderLab Property*\n\nDisplay Name: **\""@ + p.display_name
        + "\"**\nDefault: `"@ + strip_all_prefix(def, " = "@) + "`"@
}

/// The description of the first semantic named `w`.
pub open spec fn semantic_named(w: Seq<char>) -> Option<Seq<char>> {
    match first_of(semantic_table(), |p: (Seq<char>, Seq<char>)| p.0 == w, 0) {
        Some(i) => Some(semantic_table()[i].1),
        None => None,
    }
}

/// The documentation of the first engine variable named `w`.
pub open spec fn engine_named(w: Seq<char>) -> Option<EngineDoc> {
    match first_of(engine_table(), |e: EngineDoc| e.name == w, 0) {
        Some(i) => Some(engine_table()[i]),
        None => None,
    }
}

/// The hover of `w` inside the function `f`: a parameter, else a local.
pub open spec fn scope_hover(f: FnModel, w: Seq<char>) -> Option<Seq<char>> {
    match first_of(f.parsed_params, |p: ParamModel| p.name == w, 0) {
        Some(k) => Some(param_md(f.parsed_params[k], f.name)),
        None => match first_of(f.local_vars, |v: LocalModel| v.name == w, 0) {
            Some(k) => Some(local_md(f.local_vars[k], f.name)),
            None => None,
        },
    }
}

/// The hover of `w` outside any function's scope, in order of precedence:
/// an intrinsic, a semantic, an engine variable, a user function, a global
/// variable, a struct, a ShaderLab property.
pub open spec fn global_hover(
    w: Seq<char>,
    fs: Seq<FnModel>,
    vs: Seq<VarModel>,
    ss: Seq<StructModel>,
    ps: Seq<PropModel>,
) -> Option<Seq<char>> {
    match builtin_named(w) {
        Some(b) => Some(builtin_md(b)),
        None => match semantic_named(w) {
            Some(d) => Some(semantic_md(w, d)),
            None => match engine_named(w) {
                Some(e) => Some(engine_md(e)),
                None => match first_of(fs, |f: FnModel| f.name == w, 0) {
                    Some(k) => Some(fn_md(fs[k])),
                    None => match first_of(vs, |v: VarModel| v.name == w, 0) {
                        Some(k) => Some(var_md(vs[k])),
                        None => match first_of(ss, |s: StructModel| s.name == w, 0) {
                            Some(k) => Some(struct_md(ss[k])),
                            None => match first_of(ps, |p: PropModel| p.name == w, 0) {
                                Some(k) => Some(prop_md(ps[k])),
                                None => None,
                            },
                        },
                    },
                },
            },
        },
    }
}

/// The hover at line `line`, byte column `col` of `text`, given the
/// functions, variables and structs of the document and its includes.
pub open spec fn hover_text(
    text: Seq<char>,
    line: int,
    col: int,
    fs: Seq<FnModel>,
    vs: Seq<VarModel>,
    ss: Seq<StructModel>,
) -> Option<Seq<char>> {
    let ls = lines(text);
    if !(0 <= line < ls.len()) {
        None
    } else {
        let w = word_at(ls[line], col);
        if w.len() == 0 {
            None
        } else {
            let local = match first_of(fs, |f: FnModel| encloses(f, line), 0) {
                Some(fi) => scope_hover(fs[fi], w),
                None => None,
            };
            match local {
                Some(t) => Some(t),
                None => global_hover(w, fs, vs, ss, shaderlab_properties(text)),
            }
        }
    }
}

/// The first element that satisfies `p` is at `i` when `p` holds there and
/// nowhere before.
pub proof fn lemma_first_of_at<T>(s: Seq<T>, p: spec_fn(T) -> bool, i: int, k: int)
    requires
        0 <= k <= i < s.len(),
        p(s[i]),
        forall|j: int| 0 <= j < i ==> !p(#[trigger] s[j]),
    ensures
        first_of(s, p, k) == Some(i),
    decreases i - k,
{
    if k < i {
        lemma_first_of_at(s, p, i, k + 1);
    }
}

/// No element satisfies `p` from `k` on when none does at all.
pub proof fn lemma_first_of_none<T>(s: Seq<T>, p: spec_fn(T) -> bool, k: int)
    requires
        0 <= k,
        forall|j: int| 0 <= j < s.len() ==> !p(#[trigger] s[j]),
    ensures
        first_of(s, p, k) is None,
    decreases s.len() - k,
{
    if k < s.len() {
        lemma_first_of_none(s, p, k + 1);
    }
}

/// `scope_hover(f@, w)` at run time.
fn scope_hover_exec(f: &FunctionSignature, w: &[char]) -> (r: Option<String>)
    ensures
        crate::text::opt_view(r) == scope_hover(f@, w@),
{
    let ghost fv = f@;
    let ghost pp = |p: ParamModel| p.name == w@;
    let ghost pl = |v: LocalModel| v.name == w@;
    let mut k: usize = 0;
    while k < f.parsed_params.len()
        invariant
            fv == f@,
            pp == (|p: ParamModel| p.name == w@),
            k <= f.parsed_params@.len(),
            forall|j: int| 0 <= j < k ==> !pp(#[trigger] fv.parsed_params[j]),
        decreases f.parsed_params.len() - k,
    {
        proof {
            assert(w@.subrange(0, w@.len() as int) =~= w@);
            assert(fv.parsed_params[k as int] == f.parsed_params@[k as int]@);
        }
        if eq_str(w, 0, w.len(), f.parsed_params[k].name.as_str()) {
            proof {
                lemma_first_of_at(fv.parsed_params, pp, k as int, 0);
            }
            let p = &f.parsed_params[k];
            let mut m = str_string("```hlsl\n");
            push_str(&mut m, p.param_type.as_str());
            push_str(&mut m, " ");
            push_str(&mut m, p.name.as_str());
            push_str(&mut m, "\n```\n*(parameter of `");
            push_str(&mut m, f.name.as_str());
            push_str(&mut m, "`)*");
            return Some(m);
        }
        k = k + 1;
    }
    proof {
        lemma_first_of_none(fv.parsed_params, pp, 0);
    }
    let mut k: usize = 0;
    while k < f.local_vars.len()
        invariant
            fv == f@,
            pl == (|v: LocalModel| v.name == w@),
            pp == (|p: ParamModel| p.name == w@),
            first_of(fv.parsed_params, pp, 0) is None,
            k <= f.local_vars@.len(),
            forall|j: int| 0 <= j < k ==> !pl(#[trigger] fv.local_vars[j]),
        decreases f.local_vars.len() - k,
    {
        proof {
            assert(w@.subrange(0, w@.len() as int) =~= w@);
            assert(fv.local_vars[k as int] == f.local_vars@[k as int]@);
        }
        if eq_str(w, 0, w.len(), f.local_vars[k].name.as_str()) {
            proof {
                lemma_first_of_at(fv.local_vars, pl, k as int, 0);
            }
            let v = &f.local_vars[k];
            let mut m = str_string("```hlsl\n");
            push_str(&mut m, v.var_type.as_str());
            push_str(&mut m, " ");
            push_str(&mut m, v.name.as_str());
            push_str(&mut m, "\n```\n*(local variable in `");
            push_str(&mut m, f.name.as_str());
            push_str(&mut m, "`)*");
            return Some(m);
        }
        k = k + 1;
    }
    proof {
        lemma_first_of_none(fv.local_vars, pl, 0);
    }
    None
}

/// A string trimmed of surrounding whitespace.
fn trimmed_string(s: &String) -> (r: String)
    ensures
        r@ == trim(s@),
{
    let c = to_chars(s.as_str());
    let (a, b) = trim_range(c.as_slice(), 0, c.len());
    proof {
        assert(c@.subrange(0, c@.len() as int) =~= c@);
    }
    range_string(c.as_slice(), a, b)
}

/// `builtin_md(b@)` at run time.
fn builtin_md_exec(b: &crate::docs::BuiltinFunction) -> (r: String)
    ensures
        r@ == builtin_md(b@),
{
    let ghost os = b@.overloads;
    let mut labels = String::new();
    let mut k: usize = 0;
    while k < b.overloads.len()
        invariant
            os == b@.overloads,
            k <= b.overloads@.len(),
            labels@ == labels_text(os, k as int),
        decreases b.overloads.len() - k,
    {
        proof {
            assert(os[k as int] == b.overloads@[k as int]@);
        }
        push_str(&mut labels, b.overloads[k].label);
        push_str(&mut labels, "\n");
        k = k + 1;
    }
    let c = to_chars(labels.as_str());
    let e = trim_end_range(c.as_slice(), 0, c.len());
    proof {
        assert(c@.subrange(0, c@.len() as int) =~= c@);
    }
    let mut m = str_string("```hlsl\n");
    crate::text::push_range(&mut m, c.as_slice(), 0, e);
    push_str(&mut m, "\n```\n\n");
    push_str(&mut m, b.description);
    m
}

/// `struct_md(s@)` at run time.
fn struct_md_exec(s: &StructDef) -> (r: String)
    ensures
        r@ == struct_md(s@),
{
    let ghost fs = s@.fields;
    let mut t = String::new();
    let mut k: usize = 0;
    while k < s.fields.len()
        invariant
            fs == s@.fields,
            k <= s.fields@.len(),
            t@ == fields_text(fs, k as int),
        decreases s.fields.len() - k,
    {
        proof {
            assert(fs[k as int] == s.fields@[k as int]@);
        }
        push_str(&mut t, "    ");
        push_str(&mut t, s.fields[k].field_type.as_str());
        push_str(&mut t, " ");
        push_str(&mut t, s.fields[k].name.as_str());
        push_str(&mut t, ";\n");
        k = k + 1;
    }
    let mut m = str_string("```hlsl\nstruct ");
    push_str(&mut m, s.name.as_str());
    push_str(&mut m, "\n{\n");
    push_str(&mut m, t.as_str());
    push_str(&mut m, "};\n```");
    m
}

/// `prop_md(p@)` at run time.
fn prop_md_exec(p: &ShaderLabProperty) -> (r: String)
    ensures
        r@ == prop_md(p@),
{
    let mut def = String::new();
    let dv = to_chars(p.default_val.as_str());
    if dv.len() > 0 {
        push_str(&mut def, " = ");
        push_str(&mut def, p.default_val.as_str());
    }
    proof {
        if dv@.len() == 0 {
            assert(def@ =~= Seq::<char>::empty());
        }
    }
    let d = to_chars(def.as_str());
    let mut a: usize = 0;
    proof {
        reveal_strlit(" = ");
        assert(d@.subrange(0, d@.len() as int) =~= d@);
    }
    while crate::strops::starts_with_str(d.as_slice(), a, d.len(), " = ")
        invariant
            a <= d@.len(),
            " = "@.len() == 3,
            strip_all_prefix(d@, " = "@) == strip_all_prefix(d@.subrange(a as int, d@.len() as int), " = "@),
        decreases d.len() - a,
    {
        proof {
            assert(d@.subrange(a as int, d@.len() as int).subrange(3, d@.len() - a) =~= d@.subrange(
                a + 3,
                d@.len() as int,
            ));
        }
        a = a + 3;
    }
    let mut m = str_string("### `");
    push_str(&mut m, p.name.as_str());
    push_str(&mut m, "` (");
    push_str(&mut m, p.prop_type.as_str());
    push_str(&mut m, ")\n*ShaderLab Property*\n\nDisplay Name: **\"");
    push_str(&mut m, p.display_name.as_str());
    push_str(&mut m, "\"**\nDefault: `");
    crate::text::push_range(&mut m, d.as_slice(), a, d.len());
    push_str(&mut m, "`");
    proof {
        assert(strip_all_prefix(d@.subrange(a as int, d@.len() as int), " = "@) == d@.subrange(a as int, d@.len() as int));
    }
    m
}

/// `engine_named(w)` at run time.
fn engine_named_exec(w: &str) -> (r: Option<EngineVariable>)
    ensures
        match engine_named(w@) {
            Some(e) => r matches Some(re) && re@ == e,
            None => r is None,
        },
{
    let r = find_engine_variable(w);
    proof {
        let t = engine_table();
        let p = |e: EngineDoc| e.name == w@;
        if r is Some {
            let v = r->0;
            {
                let i = choose|i: int| first_index_of(engine_names(t), w@, i) && t[i] == v@;
                assert forall|j: int| 0 <= j < i implies !p(#[trigger] t[j]) by {
                    assert(engine_names(t)[j] == t[j].name);
                }
                assert(engine_names(t)[i] == t[i].name);
                lemma_first_of_at(t, p, i, 0);
            }
        } else {
            assert forall|j: int| 0 <= j < t.len() implies !p(#[trigger] t[j]) by {
                if t[j].name == w@ {
                    assert(engine_names(t)[j] == w@);
                }
            }
            lemma_first_of_none(t, p, 0);
        }
    }
    r
}

/// `semantic_named(w)` at run time.
fn semantic_named_exec(w: &str) -> (r: Option<&'static str>)
    ensures
        match semantic_named(w@) {
            Some(d) => r matches Some(rd) && rd@ == d,
            None => r is None,
        },
{
    let r = find_semantic(w);
    proof {
        let t = semantic_table();
        let p = |e: (Seq<char>, Seq<char>)| e.0 == w@;
        match r {
            Some(d) => {
                let i = choose|i: int|
                    0 <= i < t.len() && t[i] == (w@, d@) && forall|j: int| 0 <= j < i ==> t[j].0 != w@;
                assert forall|j: int| 0 <= j < i implies !p(#[trigger] t[j]) by {}
                lemma_first_of_at(t, p, i, 0);
            },
            None => {
                assert forall|j: int| 0 <= j < t.len() implies !p(#[trigger] t[j]) by {}
                lemma_first_of_none(t, p, 0);
            },
        }
    }
    r
}

/// `global_hover` at run time.
fn global_hover_exec(
    w: &str,
    fs: &[FunctionSignature],
    vs: &[VariableSymbol],
    ss: &[StructDef],
    ps: &Vec<ShaderLabProperty>,
) -> (r: Option<String>)
    ensures
        crate::text::opt_view(r) == global_hover(w@, fns_view(fs@), vars_view(vs@), structs_view(ss@), props_view(ps@)),
{
    match crate::help::builtin_named_exec(w) {
        Some(b) => return Some(builtin_md_exec(&b)),
        None => {},
    }
    match semantic_named_exec(w) {
        Some(d) => {
            let mut m = str_string("### `");
            push_str(&mut m, w);
            push_str(&mut m, "`\n*HLSL Semantic*\n\n");
            push_str(&mut m, d);
            return Some(m);
        },
        None => {},
    }
    match engine_named_exec(w) {
        Some(e) => {
            let mut m = str_string("```hlsl\n");
            push_str(&mut m, e.detail);
            push_str(&mut m, "\n```\n\n");
            push_str(&mut m, e.description);
            return Some(m);
        },
        None => {},
    }
    let key = to_chars(w);
    let ghost fsv = fns_view(fs@);
    let ghost pf = |f: FnModel| f.name == w@;
    let mut k: usize = 0;
    while k < fs.len()
        invariant
            fsv == fns_view(fs@),
            pf == (|f: FnModel| f.name == w@),
            builtin_named(w@) is None,
            semantic_named(w@) is None,
            engine_named(w@) is None,
            key@ == w@,
            k <= fs@.len(),
            forall|j: int| 0 <= j < k ==> !pf(#[trigger] fsv[j]),
        decreases fs.len() - k,
    {
        proof {
            assert(key@.subrange(0, key@.len() as int) =~= key@);
            assert(fsv[k as int] == fs@[k as int]@);
        }
        if eq_str(&key, 0, key.len(), fs[k].name.as_str()) {
            proof {
                lemma_first_of_at(fsv, pf, k as int, 0);
            }
            let f = &fs[k];
            let mut m = str_string("```hlsl\n");
            push_str(&mut m, f.label.as_str());
            push_str(&mut m, "\n```");
            match &f.doc {
                Some(d) => {
                    push_str(&mut m, "\n\n");
                    push_str(&mut m, d.as_str());
                },
                None => {},
            }
            return Some(m);
        }
        k = k + 1;
    }
    proof {
        lemma_first_of_none(fsv, pf, 0);
    }
    let ghost vsv = vars_view(vs@);
    let ghost pv = |v: VarModel| v.name == w@;
    let mut k: usize = 0;
    while k < vs.len()
        invariant
            vsv == vars_view(vs@),
            pv == (|v: VarModel| v.name == w@),
            builtin_named(w@) is None,
            semantic_named(w@) is None,
            engine_named(w@) is None,
            fsv == fns_view(fs@),
            pf == (|f: FnModel| f.name == w@),
            first_of(fsv, pf, 0) is None,
            key@ == w@,
            k <= vs@.len(),
            forall|j: int| 0 <= j < k ==> !pv(#[trigger] vsv[j]),
        decreases vs.len() - k,
    {
        proof {
            assert(key@.subrange(0, key@.len() as int) =~= key@);
            assert(vsv[k as int] == vs@[k as int]@);
        }
        if eq_str(&key, 0, key.len(), vs[k].name.as_str()) {
            proof {
                lemma_first_of_at(vsv, pv, k as int, 0);
            }
            let v = &vs[k];
            let mut m = str_string("```hlsl\n");
            push_str(&mut m, v.var_type.as_str());
            push_str(&mut m, " ");
            push_str(&mut m, v.name.as_str());
            push_str(&mut m, "\n```");
            match &v.doc {
                Some(d) => {
                    push_str(&mut m, "\n\n");
                    push_str(&mut m, d.as_str());
                },
                None => {},
            }
            proof {
                assert(vsv[k as int] == v@);
                assert(m@ =~= "```hlsl\n"@ + vsv[k as int].var_type + " "@ + vsv[k as int].name + "\n```"@ + doc_part(
                    vsv[k as int].doc,
                ));
            }
            return Some(trimmed_string(&m));
        }
        k = k + 1;
    }
    proof {
        lemma_first_of_none(vsv, pv, 0);
    }
    let ghost ssv = structs_view(ss@);
    let ghost psd = |x: StructModel| x.name == w@;
    let mut k: usize = 0;
    while k < ss.len()
        invariant
            ssv == structs_view(ss@),
            psd == (|x: StructModel| x.name == w@),
            builtin_named(w@) is None,
            semantic_named(w@) is None,
            engine_named(w@) is None,
            fsv == fns_view(fs@),
            pf == (|f: FnModel| f.name == w@),
            first_of(fsv, pf, 0) is None,
            vsv == vars_view(vs@),
            pv == (|v: VarModel| v.name == w@),
            first_of(vsv, pv, 0) is None,
            key@ == w@,
            k <= ss@.len(),
            forall|j: int| 0 <= j < k ==> !psd(#[trigger] ssv[j]),
        decreases ss.len() - k,
    {
        proof {
            assert(key@.subrange(0, key@.len() as int) =~= key@);
            assert(ssv[k as int] == ss@[k as int]@);
        }
        if eq_str(&key, 0, key.len(), ss[k].name.as_str()) {
            proof {
                lemma_first_of_at(ssv, psd, k as int, 0);
            }
            return Some(struct_md_exec(&ss[k]));
        }
        k = k + 1;
    }
    proof {
        lemma_first_of_none(ssv, psd, 0);
    }
    let ghost psv = props_view(ps@);
    let ghost pp = |x: PropModel| x.name == w@;
    let mut k: usize = 0;
    while k < ps.len()
        invariant
            psv == props_view(ps@),
            pp == (|x: PropModel| x.name == w@),
            builtin_named(w@) is None,
            semantic_named(w@) is None,
            engine_named(w@) is None,
            fsv == fns_view(fs@),
            pf == (|f: FnModel| f.name == w@),
            first_of(fsv, pf, 0) is None,
            vsv == vars_view(vs@),
            pv == (|v: VarModel| v.name == w@),
            first_of(vsv, pv, 0) is None,
            ssv == structs_view(ss@),
            psd == (|x: StructModel| x.name == w@),
            first_of(ssv, psd, 0) is None,
            key@ == w@,
            k <= ps@.len(),
            forall|j: int| 0 <= j < k ==> !pp(#[trigger] psv[j]),
        decreases ps.len() - k,
    {
        proof {
            assert(key@.subrange(0, key@.len() as int) =~= key@);
            assert(psv[k as int] == ps@[k as int]@);
        }
        if eq_str(&key, 0, key.len(), ps[k].name.as_str()) {
            proof {
                lemma_first_of_at(psv, pp, k as int, 0);
            }
            return Some(prop_md_exec(&ps[k]));
        }
        k = k + 1;
    }
    proof {
        lemma_first_of_none(psv, pp, 0);
    }
    None
}

/// The hover at line `line_idx`, byte column `col_idx` of `text`, for the
/// word there: within the function around the line, a parameter or local
/// variable of it; else an intrinsic, a semantic, an engine variable, one of
/// `user_funcs`, `user_vars` or `user_structs` (those of the document and its
/// includes), or a ShaderLab property of the text; `None` when there is no
/// word or nothing is known of it.
pub fn get_hover_info(
    text: &str,
    line_idx: usize,
    col_idx: usize,
    user_funcs: &[FunctionSignature],
    user_vars: &[VariableSymbol],
    user_structs: &[StructDef],
) -> (r: Option<String>)
    ensures
        crate::text::opt_view(r) == hover_text(
            text@,
            line_idx as int,
            col_idx as int,
            fns_view(user_funcs@),
            vars_view(user_vars@),
            structs_view(user_structs@),
        ),
{
    let (v, ranges) = lines_of(text);
    let ghost ls = lines(v@);
    if line_idx >= ranges.len() {
        return None;
    }
    let (la, lb) = ranges[line_idx];
    proof {
        assert(ls[line_idx as int] == v@.subrange(la as int, lb as int));
    }
    let line = range_string(v.as_slice(), la, lb);
    let word = extract_word_at_pos(line.as_str(), col_idx);
    let wc = to_chars(word.as_str());
    if wc.len() == 0 {
        return None;
    }
    let ghost fsv = fns_view(user_funcs@);
    let ghost pe = |f: FnModel| encloses(f, line_idx as int);
    let enclosing = find_enclosing_function(user_funcs, line_idx);
    let local = match enclosing {
        Some(f) => {
            proof {
                let i = choose|i: int|
                    0 <= i < user_funcs@.len() && *f == user_funcs@[i] && encloses(user_funcs@[i]@, line_idx as int)
                        && forall|j: int| 0 <= j < i ==> !encloses(#[trigger] user_funcs@[j]@, line_idx as int);
                assert forall|j: int| 0 <= j < i implies !pe(#[trigger] fsv[j]) by {
                    assert(fsv[j] == user_funcs@[j]@);
                }
                assert(fsv[i] == user_funcs@[i]@);
                lemma_first_of_at(fsv, pe, i, 0);
            }
            scope_hover_exec(f, wc.as_slice())
        },
        None => {
            proof {
                assert forall|j: int| 0 <= j < fsv.len() implies !pe(#[trigger] fsv[j]) by {
                    assert(fsv[j] == user_funcs@[j]@);
                }
                lemma_first_of_none(fsv, pe, 0);
            }
            None
        },
    };
    match local {
        Some(t) => Some(t),
        None => {
            let props = scan_shaderlab_properties(text);
            global_hover_exec(word.as_str(), user_funcs, user_vars, user_structs, &props)
        },
    }
}

} // verus!

verus! {

/// No engine variable named `w` is documented when no entry of the table
/// carries that name.
pub proof fn lemma_no_engine_named(w: Seq<char>)
    requires
        forall|i: int| 0 <= i < engine_table().len() ==> #[trigger] engine_table()[i].name != w,
    ensures
        engine_named(w) is None,
{
    lemma_first_of_none(engine_table(), |e: EngineDoc| e.name == w, 0);
}

} // verus!
