//! Word completion: the symbols, intrinsics, types, keywords and snippets
//! offered for the word before the cursor.
use vstd::prelude::*;
use crate::builtin_table::{builtin_functions, builtin_table};
use crate::completion::{items_view, sort_key, sort_key_string, CompletionItem, ItemModel};
use crate::context::ShaderContext;
use crate::decls::{LocalModel};
use crate::diagnostics::Range;
use crate::docs::{engine_view, functions_view, BuiltinFunction, EngineDoc, EngineVariable, FunctionDoc};
use crate::engine_table::{engine_table, engine_variables};
use crate::functions::{fns_view, FnModel, FunctionSignature};
use crate::lists::{join_exec, join_with, strings_view};
use crate::numbers::{decimal, decimal_string};
use crate::props::{props_view, PropModel, ShaderLabProperty};
use crate::strops::{contains, eq_str, starts_with, starts_with_str};
use crate::structs::{structs_view, StructDef, StructModel};
use crate::text::{push_str, str_string, to_chars};
use crate::variables::{vars_view, VarModel, VariableSymbol};
use crate::word_tables::{
    builtin_type_table, builtin_types, keyword_table, keywords, snippet_table, snippets, strs_of, triples_of,
};

verus! {

/// An item.
pub open spec fn mk(
    label: Seq<char>,
    kind: u8,
    detail: Seq<char>,
    doc: Seq<char>,
    insert: Seq<char>,
    fmt: u8,
    range: Range,
    sort: Seq<char>,
) -> ItemModel {
    ItemModel {
        label,
        kind,
        detail,
        documentation: doc,
        insert_text: insert,
        insert_text_format: Some(fmt),
        range: Some(range),
        sort_text: sort,
        filter_text: None,
    }
}

/// The parameters of the function around the cursor.
pub open spec fn param_items(f: FnModel, range: Range) -> Seq<ItemModel> {
    Seq::new(
        f.parsed_params.len(),
        |i: int|
            {
                let p = f.parsed_params[i];
                mk(
                    p.name,
                    6,
                    p.param_type + " "@ + p.name + " (parameter)"@,
                    "Parameter of function `"@ + f.name + "`"@,
                    p.name,
                    1,
                    range,
                    sort_key("00"@, i as nat, 2, p.name),
                )
            },
    )
}

/// The locals of `vs[..n]` declared at or before `line`.
pub open spec fn visible_locals(vs: Seq<LocalModel>, line: int, n: int) -> Seq<LocalModel>
    decreases n,
{
    if n <= 0 {
        seq![]
    } else if vs[n - 1].line <= line {
        visible_locals(vs, line, n - 1).push(vs[n - 1])
    } else {
        visible_locals(vs, line, n - 1)
    }
}

/// The local variables of the function around the cursor declared up to its line.
pub open spec fn local_items(f: FnModel, line: int, range: Range) -> Seq<ItemModel> {
    let vs = visible_locals(f.local_vars, line, f.local_vars.len() as int);
    Seq::new(
        vs.len(),
        |i: int|
            {
                let v = vs[i];
                mk(
                    v.name,
                    6,
                    v.var_type + " "@ + v.name + " (local)"@,
                    "Local variable declared in `"@ + f.name + "` at line "@ + decimal((v.line + 1) as nat),
                    v.name,
                    1,
                    range,
                    sort_key("01"@, i as nat, 2, v.name),
                )
            },
    )
}

/// The global variables.
pub open spec fn var_items(vs: Seq<VarModel>, range: Range) -> Seq<ItemModel> {
    Seq::new(
        vs.len(),
        |i: int|
            {
                let v = vs[i];
                mk(
                    v.name,
                    if v.qualifier == "struct"@ {
                        22u8
                    } else if v.qualifier == "const"@ || v.qualifier == "#define"@ {
                        21u8
                    } else {
                        6u8
                    },
                    if v.qualifier.len() == 0 {
                        v.var_type + " "@ + v.name
                    } else {
                        v.var_type + " "@ + v.name + " ("@ + v.qualifier + ")"@
                    },
                    match v.doc {
                        Some(d) => d,
                        None => "Global variable"@,
                    },
                    v.name,
                    1,
                    range,
                    sort_key("10"@, i as nat, 3, v.name),
                )
            },
    )
}

/// The text that completes a call: the name alone when a `(` follows, else
/// the name with its parentheses as a snippet.
pub open spec fn call_insert(name: Seq<char>, paren: bool, has_params: bool) -> (Seq<char>, u8) {
    if paren {
        (name, 1u8)
    } else if has_params {
        (name + "($1)$0"@, 2u8)
    } else {
        (name + "()$0"@, 2u8)
    }
}

/// The user functions.
pub open spec fn fn_items(fs: Seq<FnModel>, paren: bool, range: Range) -> Seq<ItemModel> {
    Seq::new(
        fs.len(),
        |i: int|
            {
                let f = fs[i];
                let ins = call_insert(f.name, paren, f.parameters.len() > 0);
                mk(
                    f.name,
                    3,
                    f.label,
                    match f.doc {
                        Some(d) => d,
                        None => "User function"@,
                    },
                    ins.0,
                    ins.1,
                    range,
                    sort_key("15"@, i as nat, 3, f.name),
                )
            },
    )
}

/// The documentation of a struct: its name and its fields.
pub open spec fn struct_doc(s: StructModel) -> Seq<char> {
    "```hlsl\nstruct "@ + s.name + "\n```"@ + if s.fields.len() == 0 {
        seq![]
    } else {
        "\n\n### Fields:\n"@ + join_with(
            s.fields.map_values(|f: crate::structs::FieldModel| "- `"@ + f.field_type + " "@ + f.name + "`"@),
            "\n"@,
        )
    }
}

/// The user structs.
pub open spec fn struct_items(ss: Seq<StructModel>, range: Range) -> Seq<ItemModel> {
    Seq::new(
        ss.len(),
        |i: int|
            {
                let s = ss[i];
                mk(s.name, 22, "struct "@ + s.name, struct_doc(s), s.name, 1, range, sort_key("20"@, i as nat, 2, s.name))
            },
    )
}

/// The HLSL type of a ShaderLab property type.
pub open spec fn prop_hlsl_type(t: Seq<char>) -> Seq<char> {
    if t == "Float"@ {
        "float"@
    } else if t == "Int"@ {
        "int"@
    } else if starts_with(t, "Range"@) {
        "float"@
    } else if t == "Color"@ {
        "half4"@
    } else if t == "Vector"@ {
        "float4"@
    } else if t == "2D"@ {
        "Texture2D"@
    } else if t == "3D"@ {
        "Texture3D"@
    } else if t == "Cube"@ {
        "TextureCube"@
    } else {
        "float4"@
    }
}

/// The material properties of a ShaderLab document.
pub open spec fn prop_items(ps: Seq<PropModel>, range: Range) -> Seq<ItemModel> {
    Seq::new(
        ps.len(),
        |i: int|
            {
                let p = ps[i];
                mk(
                    p.name,
                    6,
                    prop_hlsl_type(p.prop_type) + " "@ + p.name + " (from Properties)"@,
                    "Material property `"@ + p.name + "` (`"@ + p.prop_type + "`)\n\nShaderLab Property: `"@
                        + p.display_name + "`"@,
                    p.name,
                    1,
                    range,
                    sort_key("12"@, i as nat, 2, p.name),
                )
            },
    )
}

/// Engine variables belong to their engine's contexts; plain HLSL gets none.
pub open spec fn engine_allowed(ctx: ShaderContext, e: EngineDoc) -> bool {
    match ctx {
        ShaderContext::PureHlsl => false,
        ShaderContext::UnrealEngine => e.engine == "unreal"@,
        _ => e.engine == "unity"@,
    }
}

/// The item of the engine variable `e`, number `i` of the table.
pub open spec fn engine_item(e: EngineDoc, i: int, paren: bool, range: Range) -> ItemModel {
    let callable = (e.var_type == "function"@ || e.var_type == "macro"@) && contains(e.detail, "("@);
    let ins = if callable {
        call_insert(e.name, paren, true)
    } else {
        (e.name, 1u8)
    };
    mk(
        e.name,
        if e.var_type == "function"@ {
            3u8
        } else if e.var_type == "macro"@ {
            14u8
        } else {
            6u8
        },
        e.detail,
        e.description,
        ins.0,
        ins.1,
        range,
        sort_key("15"@, i as nat, 2, e.name),
    )
}

/// The engine variables of `es[..n]` that the context allows.
pub open spec fn engine_items(es: Seq<EngineDoc>, ctx: ShaderContext, paren: bool, range: Range, n: int) -> Seq<ItemModel>
    decreases n,
{
    if n <= 0 {
        seq![]
    } else if engine_allowed(ctx, es[n - 1]) {
        engine_items(es, ctx, paren, range, n - 1).push(engine_item(es[n - 1], n - 1, paren, range))
    } else {
        engine_items(es, ctx, paren, range, n - 1)
    }
}

/// Intrinsics documented as Unity's or Unreal's belong to that engine's
/// contexts; plain HLSL gets neither.
pub open spec fn builtin_allowed(ctx: ShaderContext, b: FunctionDoc) -> bool {
    let unity = contains(b.description, "Unity"@);
    let unreal = contains(b.description, "Unreal"@);
    match ctx {
        ShaderContext::PureHlsl => !unity && !unreal,
        ShaderContext::UnrealEngine => !unity,
        _ => !unreal,
    }
}

/// Some overload of `b` takes parameters.
pub open spec fn takes_params(b: FunctionDoc) -> bool {
    exists|k: int| 0 <= k < b.overloads.len() && b.overloads[k].params.len() > 0
}

/// The item of the intrinsic `b`, number `i` of the table.
pub open spec fn builtin_item(b: FunctionDoc, i: int, paren: bool, range: Range) -> ItemModel {
    let ins = call_insert(b.name, paren, takes_params(b));
    mk(
        b.name,
        3,
        if b.overloads.len() > 0 {
            b.overloads[0].label
        } else {
            b.name
        },
        b.description,
        ins.0,
        ins.1,
        range,
        sort_key("30"@, i as nat, 3, b.name),
    )
}

/// The intrinsics of `bs[..n]` that the context allows.
pub open spec fn builtin_items(bs: Seq<FunctionDoc>, ctx: ShaderContext, paren: bool, range: Range, n: int) -> Seq<
    ItemModel,
>
    decreases n,
{
    if n <= 0 {
        seq![]
    } else if builtin_allowed(ctx, bs[n - 1]) {
        builtin_items(bs, ctx, paren, range, n - 1).push(builtin_item(bs[n - 1], n - 1, paren, range))
    } else {
        builtin_items(bs, ctx, paren, range, n - 1)
    }
}

/// The built-in types.
pub open spec fn type_items(range: Range) -> Seq<ItemModel> {
    Seq::new(
        builtin_type_table().len(),
        |i: int|
            {
                let t = builtin_type_table()[i];
                mk(t, 25, "HLSL Type"@, seq![], t, 1, range, sort_key("35"@, i as nat, 3, t))
            },
    )
}

/// The keywords.
pub open spec fn keyword_items(range: Range) -> Seq<ItemModel> {
    Seq::new(
        keyword_table().len(),
        |i: int|
            {
                let k = keyword_table()[i];
                mk(k, 14, seq![], seq![], k, 1, range, sort_key("40"@, i as nat, 3, k))
            },
    )
}

/// The snippets.
pub open spec fn snippet_items(range: Range) -> Seq<ItemModel> {
    Seq::new(
        snippet_table().len(),
        |i: int|
            {
                let s = snippet_table()[i];
                mk(s.0, 15, s.1, seq![], s.2, 2, range, sort_key("50"@, i as nat, 2, s.0))
            },
    )
}

/// Builds an item.
pub(crate) fn mk_exec(label: String, kind: u8, detail: String, doc: String, insert: String, fmt: u8, range: Range, sort: String) -> (r:
    CompletionItem)
    ensures
        r@ == mk(label@, kind, detail@, doc@, insert@, fmt, range, sort@),
{
    CompletionItem {
        label,
        kind,
        detail,
        documentation: doc,
        insert_text: insert,
        insert_text_format: Some(fmt),
        range: Some(range),
        sort_text: sort,
        filter_text: None,
    }
}

/// `a + b + c` as a string.
fn cat3(a: &str, b: &str, c: &str) -> (r: String)
    ensures
        r@ == a@ + b@ + c@,
{
    let mut s = str_string(a);
    push_str(&mut s, b);
    push_str(&mut s, c);
    s
}

/// `call_insert` at run time.
fn call_insert_exec(name: &str, paren: bool, has_params: bool) -> (r: (String, u8))
    ensures
        (r.0@, r.1) == call_insert(name@, paren, has_params),
{
    if paren {
        (str_string(name), 1)
    } else if has_params {
        let mut t = str_string(name);
        push_str(&mut t, "($1)$0");
        (t, 2)
    } else {
        let mut t = str_string(name);
        push_str(&mut t, "()$0");
        (t, 2)
    }
}

/// Appends the parameter items of `f`.
fn push_param_items(out: &mut Vec<CompletionItem>, f: &FunctionSignature, range: Range)
    ensures
        items_view(final(out)@) == items_view(old(out)@) + param_items(f@, range),
{
    let ghost fv = f@;
    let ghost base = items_view(out@);
    let mut i: usize = 0;
    while i < f.parsed_params.len()
        invariant
            fv == f@,
            base == items_view(old(out)@),
            i <= f.parsed_params@.len(),
            items_view(out@) == base + param_items(fv, range).take(i as int),
        decreases f.parsed_params.len() - i,
    {
        let p = &f.parsed_params[i];
        proof {
            assert(fv.parsed_params[i as int] == p@);
        }
        let mut detail = cat3(p.param_type.as_str(), " ", p.name.as_str());
        push_str(&mut detail, " (parameter)");
        let doc = cat3("Parameter of function `", f.name.as_str(), "`");
        let sort = sort_key_string("00", i, 2, p.name.as_str());
        let it = mk_exec(p.name.clone(), 6, detail, doc, p.name.clone(), 1, range, sort);
        let ghost before = items_view(out@);
        out.push(it);
        proof {
            assert(items_view(out@) =~= before.push(it@));
            assert(param_items(fv, range).take(i + 1) =~= param_items(fv, range).take(i as int).push(param_items(fv, range)[i as int]));
        }
        i = i + 1;
    }
    proof {
        assert(param_items(fv, range).take(fv.parsed_params.len() as int) =~= param_items(fv, range));
    }
}

/// Appends the local-variable items of `f` declared up to line `line`.
fn push_local_items(out: &mut Vec<CompletionItem>, f: &FunctionSignature, line: usize, range: Range)
    requires
        line < usize::MAX,
    ensures
        items_view(final(out)@) == items_view(old(out)@) + local_items(f@, line as int, range),
{
    let ghost fv = f@;
    let ghost base = items_view(out@);
    let ghost all = visible_locals(fv.local_vars, line as int, fv.local_vars.len() as int);
    let mut i: usize = 0;
    let mut n: usize = 0;
    while i < f.local_vars.len()
        invariant
            fv == f@,
            line < usize::MAX,
            base == items_view(old(out)@),
            all == visible_locals(fv.local_vars, line as int, fv.local_vars.len() as int),
            i <= f.local_vars@.len(),
            n == visible_locals(fv.local_vars, line as int, i as int).len(),
            n <= i,
            items_view(out@) == base + Seq::new(
                n as nat,
                |k: int|
                    {
                        let v = visible_locals(fv.local_vars, line as int, i as int)[k];
                        mk(
                            v.name,
                            6,
                            v.var_type + " "@ + v.name + " (local)"@,
                            "Local variable declared in `"@ + fv.name + "` at line "@ + decimal((v.line + 1) as nat),
                            v.name,
                            1,
                            range,
                            sort_key("01"@, k as nat, 2, v.name),
                        )
                    },
            ),
        decreases f.local_vars.len() - i,
    {
        let v = &f.local_vars[i];
        let ghost vis = visible_locals(fv.local_vars, line as int, i as int);
        proof {
            assert(fv.local_vars[i as int] == v@);
        }
        if v.line <= line {
            let mut detail = cat3(v.var_type.as_str(), " ", v.name.as_str());
            push_str(&mut detail, " (local)");
            let mut doc = cat3("Local variable declared in `", f.name.as_str(), "` at line ");
            let num = decimal_string(v.line + 1);
            push_str(&mut doc, num.as_str());
            let sort = sort_key_string("01", n, 2, v.name.as_str());
            let it = mk_exec(v.name.clone(), 6, detail, doc, v.name.clone(), 1, range, sort);
            let ghost before = items_view(out@);
            out.push(it);
            proof {
                let vis2 = visible_locals(fv.local_vars, line as int, i + 1);
                assert(vis2 == vis.push(v@));
                assert(items_view(out@) =~= before.push(it@));
                assert(items_view(out@) =~= base + Seq::new(
                    (n + 1) as nat,
                    |k: int|
                        {
                            let w = vis2[k];
                            mk(
                                w.name,
                                6,
                                w.var_type + " "@ + w.name + " (local)"@,
                                "Local variable declared in `"@ + fv.name + "` at line "@ + decimal((w.line + 1) as nat),
                                w.name,
                                1,
                                range,
                                sort_key("01"@, k as nat, 2, w.name),
                            )
                        },
                ));
            }
            n = n + 1;
        } else {
            proof {
                assert(visible_locals(fv.local_vars, line as int, i + 1) == vis);
            }
        }
        i = i + 1;
    }
    proof {
        assert(items_view(out@) =~= base + local_items(fv, line as int, range));
    }
}

/// Appends the global-variable items.
fn push_var_items(out: &mut Vec<CompletionItem>, vs: &[VariableSymbol], range: Range)
    ensures
        items_view(final(out)@) == items_view(old(out)@) + var_items(vars_view(vs@), range),
{
    let ghost vv = vars_view(vs@);
    let ghost base = items_view(out@);
    let mut i: usize = 0;
    while i < vs.len()
        invariant
            vv == vars_view(vs@),
            base == items_view(old(out)@),
            i <= vs@.len(),
            items_view(out@) == base + var_items(vv, range).take(i as int),
        decreases vs.len() - i,
    {
        let v = &vs[i];
        proof {
            assert(vv[i as int] == v@);
        }
        let q = to_chars(v.qualifier.as_str());
        proof {
            assert(q@.subrange(0, q@.len() as int) =~= q@);
        }
        let kind: u8 = if eq_str(&q, 0, q.len(), "struct") {
            22
        } else if eq_str(&q, 0, q.len(), "const") || eq_str(&q, 0, q.len(), "#define") {
            21
        } else {
            6
        };
        let mut detail = cat3(v.var_type.as_str(), " ", v.name.as_str());
        if q.len() > 0 {
            push_str(&mut detail, " (");
            push_str(&mut detail, v.qualifier.as_str());
            push_str(&mut detail, ")");
        }
        let doc = match &v.doc {
            Some(d) => d.clone(),
            None => str_string("Global variable"),
        };
        let sort = sort_key_string("10", i, 3, v.name.as_str());
        let it = mk_exec(v.name.clone(), kind, detail, doc, v.name.clone(), 1, range, sort);
        let ghost before = items_view(out@);
        out.push(it);
        proof {
            assert(items_view(out@) =~= before.push(it@));
            assert(var_items(vv, range).take(i + 1) =~= var_items(vv, range).take(i as int).push(var_items(vv, range)[i as int]));
        }
        i = i + 1;
    }
    proof {
        assert(var_items(vv, range).take(vv.len() as int) =~= var_items(vv, range));
    }
}

/// Appends the user-function items.
fn push_fn_items(out: &mut Vec<CompletionItem>, fs: &[FunctionSignature], paren: bool, range: Range)
    ensures
        items_view(final(out)@) == items_view(old(out)@) + fn_items(fns_view(fs@), paren, range),
{
    let ghost fv = fns_view(fs@);
    let ghost base = items_view(out@);
    let mut i: usize = 0;
    while i < fs.len()
        invariant
            fv == fns_view(fs@),
            base == items_view(old(out)@),
            i <= fs@.len(),
            items_view(out@) == base + fn_items(fv, paren, range).take(i as int),
        decreases fs.len() - i,
    {
        let f = &fs[i];
        proof {
            assert(fv[i as int] == f@);
        }
        let (ins, fmt) = call_insert_exec(f.name.as_str(), paren, f.parameters.len() > 0);
        let doc = match &f.doc {
            Some(d) => d.clone(),
            None => str_string("User function"),
        };
        let sort = sort_key_string("15", i, 3, f.name.as_str());
        let it = mk_exec(f.name.clone(), 3, f.label.clone(), doc, ins, fmt, range, sort);
        let ghost before = items_view(out@);
        out.push(it);
        proof {
            assert(items_view(out@) =~= before.push(it@));
            assert(fn_items(fv, paren, range).take(i + 1) =~= fn_items(fv, paren, range).take(i as int).push(
                fn_items(fv, paren, range)[i as int],
            ));
        }
        i = i + 1;
    }
    proof {
        assert(fn_items(fv, paren, range).take(fv.len() as int) =~= fn_items(fv, paren, range));
    }
}

/// `struct_doc(s@)` at run time.
fn struct_doc_exec(s: &StructDef) -> (r: String)
    ensures
        r@ == struct_doc(s@),
{
    let mut d = cat3("```hlsl\nstruct ", s.name.as_str(), "\n```");
    if s.fields.len() > 0 {
        let mut lines: Vec<String> = Vec::new();
        let ghost fm = s@.fields;
        let mut k: usize = 0;
        while k < s.fields.len()
            invariant
                fm == s@.fields,
                k <= s.fields@.len(),
                strings_view(lines@) == fm.take(k as int).map_values(
                    |f: crate::structs::FieldModel| "- `"@ + f.field_type + " "@ + f.name + "`"@,
                ),
            decreases s.fields.len() - k,
        {
            let mut l = cat3("- `", s.fields[k].field_type.as_str(), " ");
            push_str(&mut l, s.fields[k].name.as_str());
            push_str(&mut l, "`");
            let ghost lv = l@;
            lines.push(l);
            proof {
                assert(fm[k as int] == s.fields@[k as int]@);
                assert(strings_view(lines@) =~= strings_view(lines@.drop_last()).push(lv));
                assert(fm.take(k + 1).map_values(|f: crate::structs::FieldModel| "- `"@ + f.field_type + " "@ + f.name + "`"@)
                    =~= fm.take(k as int).map_values(
                    |f: crate::structs::FieldModel| "- `"@ + f.field_type + " "@ + f.name + "`"@,
                ).push(lv));
            }
            k = k + 1;
        }
        proof {
            assert(fm.take(fm.len() as int) =~= fm);
        }
        push_str(&mut d, "\n\n### Fields:\n");
        let j = join_exec(&lines, "\n");
        push_str(&mut d, j.as_str());
    } else {
        proof {
            assert(d@ =~= d@ + Seq::<char>::empty());
        }
    }
    d
}

/// Appends the struct items.
fn push_struct_items(out: &mut Vec<CompletionItem>, ss: &[StructDef], range: Range)
    ensures
        items_view(final(out)@) == items_view(old(out)@) + struct_items(structs_view(ss@), range),
{
    let ghost sv = structs_view(ss@);
    let ghost base = items_view(out@);
    let mut i: usize = 0;
    while i < ss.len()
        invariant
            sv == structs_view(ss@),
            base == items_view(old(out)@),
            i <= ss@.len(),
            items_view(out@) == base + struct_items(sv, range).take(i as int),
        decreases ss.len() - i,
    {
        let x = &ss[i];
        proof {
            assert(sv[i as int] == x@);
        }
        let mut detail2 = str_string("struct ");
        push_str(&mut detail2, x.name.as_str());
        let doc = struct_doc_exec(x);
        let sort = sort_key_string("20", i, 2, x.name.as_str());
        let it = mk_exec(x.name.clone(), 22, detail2, doc, x.name.clone(), 1, range, sort);
        let ghost before = items_view(out@);
        out.push(it);
        proof {
            assert(items_view(out@) =~= before.push(it@));
            assert(struct_items(sv, range).take(i + 1) =~= struct_items(sv, range).take(i as int).push(
                struct_items(sv, range)[i as int],
            ));
        }
        i = i + 1;
    }
    proof {
        assert(struct_items(sv, range).take(sv.len() as int) =~= struct_items(sv, range));
    }
}

/// `prop_hlsl_type` at run time.
fn prop_hlsl_type_exec(t: &str) -> (r: &'static str)
    ensures
        r@ == prop_hlsl_type(t@),
{
    let c = to_chars(t);
    proof {
        assert(c@.subrange(0, c@.len() as int) =~= c@);
    }
    let n = c.len();
    if eq_str(&c, 0, n, "Float") {
        "float"
    } else if eq_str(&c, 0, n, "Int") {
        "int"
    } else if starts_with_str(&c, 0, n, "Range") {
        "float"
    } else if eq_str(&c, 0, n, "Color") {
        "half4"
    } else if eq_str(&c, 0, n, "Vector") {
        "float4"
    } else if eq_str(&c, 0, n, "2D") {
        "Texture2D"
    } else if eq_str(&c, 0, n, "3D") {
        "Texture3D"
    } else if eq_str(&c, 0, n, "Cube") {
        "TextureCube"
    } else {
        "float4"
    }
}

/// Appends the material-property items.
fn push_prop_items(out: &mut Vec<CompletionItem>, ps: &[ShaderLabProperty], range: Range)
    ensures
        items_view(final(out)@) == items_view(old(out)@) + prop_items(props_view(ps@), range),
{
    let ghost pv = props_view(ps@);
    let ghost base = items_view(out@);
    let mut i: usize = 0;
    while i < ps.len()
        invariant
            pv == props_view(ps@),
            base == items_view(old(out)@),
            i <= ps@.len(),
            items_view(out@) == base + prop_items(pv, range).take(i as int),
        decreases ps.len() - i,
    {
        let p = &ps[i];
        proof {
            assert(pv[i as int] == p@);
        }
        let mut detail = cat3(prop_hlsl_type_exec(p.prop_type.as_str()), " ", p.name.as_str());
        push_str(&mut detail, " (from Properties)");
        let mut doc = cat3("Material property `", p.name.as_str(), "` (`");
        push_str(&mut doc, p.prop_type.as_str());
        push_str(&mut doc, "`)\n\nShaderLab Property: `");
        push_str(&mut doc, p.display_name.as_str());
        push_str(&mut doc, "`");
        let sort = sort_key_string("12", i, 2, p.name.as_str());
        let it = mk_exec(p.name.clone(), 6, detail, doc, p.name.clone(), 1, range, sort);
        let ghost before = items_view(out@);
        out.push(it);
        proof {
            assert(items_view(out@) =~= before.push(it@));
            assert(prop_items(pv, range).take(i + 1) =~= prop_items(pv, range).take(i as int).push(prop_items(pv, range)[i as int]));
        }
        i = i + 1;
    }
    proof {
        assert(prop_items(pv, range).take(pv.len() as int) =~= prop_items(pv, range));
    }
}

/// `engine_allowed` at run time.
fn engine_allowed_exec(ctx: ShaderContext, e: &EngineVariable) -> (r: bool)
    ensures
        r == engine_allowed(ctx, e@),
{
    let c = to_chars(e.engine);
    proof {
        assert(c@.subrange(0, c@.len() as int) =~= c@);
    }
    match ctx {
        ShaderContext::PureHlsl => false,
        ShaderContext::UnrealEngine => eq_str(&c, 0, c.len(), "unreal"),
        _ => eq_str(&c, 0, c.len(), "unity"),
    }
}

/// `engine_item` at run time.
fn engine_item_exec(e: &EngineVariable, i: usize, paren: bool, range: Range) -> (r: CompletionItem)
    ensures
        r@ == engine_item(e@, i as int, paren, range),
{
    let t = to_chars(e.var_type);
    let d = to_chars(e.detail);
    proof {
        assert(t@.subrange(0, t@.len() as int) =~= t@);
        assert(d@.subrange(0, d@.len() as int) =~= d@);
    }
    let is_fn = eq_str(&t, 0, t.len(), "function");
    let is_macro = eq_str(&t, 0, t.len(), "macro");
    let callable = (is_fn || is_macro) && crate::strops::contains_str(&d, 0, d.len(), "(");
    let (ins, fmt) = if callable {
        call_insert_exec(e.name, paren, true)
    } else {
        (str_string(e.name), 1)
    };
    let kind: u8 = if is_fn {
        3
    } else if is_macro {
        14
    } else {
        6
    };
    let sort = sort_key_string("15", i, 2, e.name);
    mk_exec(str_string(e.name), kind, str_string(e.detail), str_string(e.description), ins, fmt, range, sort)
}

/// Appends the engine-variable items that the context allows.
fn push_engine_items(out: &mut Vec<CompletionItem>, ctx: ShaderContext, paren: bool, range: Range)
    ensures
        items_view(final(out)@) == items_view(old(out)@) + engine_items(
            engine_table(),
            ctx,
            paren,
            range,
            engine_table().len() as int,
        ),
{
    let es = engine_variables();
    let ghost ev = engine_table();
    let ghost base = items_view(out@);
    let mut i: usize = 0;
    while i < es.len()
        invariant
            engine_view(es@) == ev,
            ev == engine_table(),
            base == items_view(old(out)@),
            i <= es@.len(),
            items_view(out@) == base + engine_items(ev, ctx, paren, range, i as int),
        decreases es.len() - i,
    {
        let e = &es[i];
        proof {
            assert(ev[i as int] == e@);
        }
        if engine_allowed_exec(ctx, e) {
            let it = engine_item_exec(e, i, paren, range);
            let ghost before = items_view(out@);
            out.push(it);
            proof {
                assert(items_view(out@) =~= before.push(it@));
            }
        }
        i = i + 1;
    }
}

/// `builtin_allowed` at run time.
fn builtin_allowed_exec(ctx: ShaderContext, b: &BuiltinFunction) -> (r: bool)
    ensures
        r == builtin_allowed(ctx, b@),
{
    let d = to_chars(b.description);
    proof {
        assert(d@.subrange(0, d@.len() as int) =~= d@);
    }
    let unity = crate::strops::contains_str(&d, 0, d.len(), "Unity");
    let unreal = crate::strops::contains_str(&d, 0, d.len(), "Unreal");
    match ctx {
        ShaderContext::PureHlsl => !unity && !unreal,
        ShaderContext::UnrealEngine => !unity,
        _ => !unreal,
    }
}

/// `takes_params` at run time.
fn takes_params_exec(b: &BuiltinFunction) -> (r: bool)
    ensures
        r == takes_params(b@),
{
    let ghost bv = b@;
    let mut k: usize = 0;
    while k < b.overloads.len()
        invariant
            bv == b@,
            k <= b.overloads@.len(),
            forall|j: int| 0 <= j < k ==> bv.overloads[j].params.len() == 0,
        decreases b.overloads.len() - k,
    {
        proof {
            assert(bv.overloads[k as int] == b.overloads@[k as int]@);
        }
        if b.overloads[k].params.len() > 0 {
            return true;
        }
        k = k + 1;
    }
    false
}

/// `builtin_item` at run time.
fn builtin_item_exec(b: &BuiltinFunction, i: usize, paren: bool, range: Range) -> (r: CompletionItem)
    ensures
        r@ == builtin_item(b@, i as int, paren, range),
{
    let (ins, fmt) = call_insert_exec(b.name, paren, takes_params_exec(b));
    let detail = if b.overloads.len() > 0 {
        proof {
            assert(b@.overloads[0] == b.overloads@[0]@);
        }
        str_string(b.overloads[0].label)
    } else {
        str_string(b.name)
    };
    let sort = sort_key_string("30", i, 3, b.name);
    mk_exec(str_string(b.name), 3, detail, str_string(b.description), ins, fmt, range, sort)
}

/// Appends the intrinsic items that the context allows.
fn push_builtin_items(out: &mut Vec<CompletionItem>, ctx: ShaderContext, paren: bool, range: Range)
    ensures
        items_view(final(out)@) == items_view(old(out)@) + builtin_items(
            builtin_table(),
            ctx,
            paren,
            range,
            builtin_table().len() as int,
        ),
{
    let bs = builtin_functions();
    let ghost bv = builtin_table();
    let ghost base = items_view(out@);
    let mut i: usize = 0;
    while i < bs.len()
        invariant
            functions_view(bs@) == bv,
            bv == builtin_table(),
            base == items_view(old(out)@),
            i <= bs@.len(),
            items_view(out@) == base + builtin_items(bv, ctx, paren, range, i as int),
        decreases bs.len() - i,
    {
        let b = &bs[i];
        proof {
            assert(bv[i as int] == b@);
        }
        if builtin_allowed_exec(ctx, b) {
            let it = builtin_item_exec(b, i, paren, range);
            let ghost before = items_view(out@);
            out.push(it);
            proof {
                assert(items_view(out@) =~= before.push(it@));
            }
        }
        i = i + 1;
    }
}

/// Appends the type, keyword and snippet items.
fn push_fixed_items(out: &mut Vec<CompletionItem>, range: Range)
    ensures
        items_view(final(out)@) == items_view(old(out)@) + type_items(range) + keyword_items(range) + snippet_items(
            range,
        ),
{
    let ghost base = items_view(out@);
    let ts = builtin_types();
    let mut i: usize = 0;
    while i < ts.len()
        invariant
            strs_of(ts@) == builtin_type_table(),
            base == items_view(old(out)@),
            i <= ts@.len(),
            items_view(out@) == base + type_items(range).take(i as int),
        decreases ts.len() - i,
    {
        proof {
            assert(builtin_type_table()[i as int] == ts@[i as int]@);
        }
        let sort = sort_key_string("35", i, 3, ts[i]);
        let it = mk_exec(str_string(ts[i]), 25, str_string("HLSL Type"), String::new(), str_string(ts[i]), 1, range, sort);
        let ghost before = items_view(out@);
        out.push(it);
        proof {
            assert(it@.documentation =~= Seq::<char>::empty());
            assert(items_view(out@) =~= before.push(it@));
            assert(type_items(range).take(i + 1) =~= type_items(range).take(i as int).push(type_items(range)[i as int]));
        }
        i = i + 1;
    }
    proof {
        assert(type_items(range).take(ts@.len() as int) =~= type_items(range));
    }
    let ghost base2 = items_view(out@);
    let ks = keywords();
    let mut i: usize = 0;
    while i < ks.len()
        invariant
            strs_of(ks@) == keyword_table(),
            base2 == base + type_items(range),
            i <= ks@.len(),
            items_view(out@) == base2 + keyword_items(range).take(i as int),
        decreases ks.len() - i,
    {
        proof {
            assert(keyword_table()[i as int] == ks@[i as int]@);
        }
        let sort = sort_key_string("40", i, 3, ks[i]);
        let it = mk_exec(str_string(ks[i]), 14, String::new(), String::new(), str_string(ks[i]), 1, range, sort);
        let ghost before = items_view(out@);
        out.push(it);
        proof {
            assert(it@.documentation =~= Seq::<char>::empty());
            assert(it@.detail =~= Seq::<char>::empty());
            assert(items_view(out@) =~= before.push(it@));
            assert(keyword_items(range).take(i + 1) =~= keyword_items(range).take(i as int).push(
                keyword_items(range)[i as int],
            ));
        }
        i = i + 1;
    }
    proof {
        assert(keyword_items(range).take(ks@.len() as int) =~= keyword_items(range));
    }
    let ghost base3 = items_view(out@);
    let sn = snippets();
    let mut i: usize = 0;
    while i < sn.len()
        invariant
            triples_of(sn@) == snippet_table(),
            base3 == base + type_items(range) + keyword_items(range),
            i <= sn@.len(),
            items_view(out@) == base3 + snippet_items(range).take(i as int),
        decreases sn.len() - i,
    {
        let (l, d, t) = sn[i];
        proof {
            assert(snippet_table()[i as int] == (l@, d@, t@));
        }
        let sort = sort_key_string("50", i, 2, l);
        let it = mk_exec(str_string(l), 15, str_string(d), String::new(), str_string(t), 2, range, sort);
        let ghost before = items_view(out@);
        out.push(it);
        proof {
            assert(it@.documentation =~= Seq::<char>::empty());
            assert(items_view(out@) =~= before.push(it@));
            assert(snippet_items(range).take(i + 1) =~= snippet_items(range).take(i as int).push(
                snippet_items(range)[i as int],
            ));
        }
        i = i + 1;
    }
    proof {
        assert(snippet_items(range).take(sn@.len() as int) =~= snippet_items(range));
    }
}

/// The character index of the byte offset of character `k` is `k`.
pub proof fn lemma_floor_char_at(s: Seq<char>, k: int)
    requires
        0 <= k <= s.len(),
    ensures
        crate::text::floor_char(s, crate::text::blen(s.take(k)) as int) == k,
{
    let b = crate::text::blen(s.take(k)) as int;
    lemma_floor_char_from_walk(s, b, k, 0);
}

proof fn lemma_floor_char_from_walk(s: Seq<char>, b: int, k: int, j: int)
    requires
        0 <= j <= k <= s.len(),
        b == crate::text::blen(s.take(k)),
    ensures
        crate::text::floor_char_from(s, b, j) == k,
    decreases k - j,
{
    if j < k {
        crate::text::lemma_blen_mono(s, j + 1, k);
        lemma_floor_char_from_walk(s, b, k, j + 1);
    } else if k < s.len() {
        crate::text::lemma_blen_push(s.take(k), s[k]);
        assert(s.take(k).push(s[k]) =~= s.take(k + 1));
        assert(crate::text::cw(s[k]) >= 1) by {
            reveal_with_fuel(crate::text::cw, 1);
        }
    }
}

/// The candidates before the structs: the parameters and locals of the
/// function around the line, the variables and the functions.
pub open spec fn pre_struct_candidates(
    line_idx: int,
    paren: bool,
    range: Range,
    fs: Seq<FnModel>,
    vs: Seq<VarModel>,
) -> Seq<ItemModel> {
    let scope = match crate::hover::first_of(fs, |f: FnModel| crate::functions::encloses(f, line_idx), 0) {
        Some(fi) => param_items(fs[fi], range) + local_items(fs[fi], line_idx, range),
        None => seq![],
    };
    scope + var_items(vs, range) + fn_items(fs, paren, range)
}

/// The word candidates, in order: those before the structs, the structs,
/// the ShaderLab properties (in a ShaderLab shader), the engine variables,
/// the built-in functions, the types, the keywords and the snippets.
pub open spec fn word_candidates(
    line_idx: int,
    ctx: ShaderContext,
    paren: bool,
    range: Range,
    fs: Seq<FnModel>,
    vs: Seq<VarModel>,
    ss: Seq<StructModel>,
    ps: Seq<PropModel>,
) -> Seq<ItemModel> {
    pre_struct_candidates(line_idx, paren, range, fs, vs) + struct_items(ss, range) + (if ctx
        == ShaderContext::UnityShaderLab {
        prop_items(ps, range)
    } else {
        seq![]
    }) + engine_items(engine_table(), ctx, paren, range, engine_table().len() as int) + builtin_items(
        builtin_table(),
        ctx,
        paren,
        range,
        builtin_table().len() as int,
    ) + type_items(range) + keyword_items(range) + snippet_items(range)
}

/// The word completion at byte column `col` of `line` (line `line_idx`):
/// every candidate, each label once (the first wins); each replaces the
/// word before the cursor, up to the end of the word after it, and the
/// editor narrows them down by that word.
pub open spec fn word_completion(
    line: Seq<char>,
    line_idx: int,
    col: int,
    ctx: ShaderContext,
    fs: Seq<FnModel>,
    vs: Seq<VarModel>,
    ss: Seq<StructModel>,
    ps: Seq<PropModel>,
) -> Seq<ItemModel> {
    let bl = crate::text::blen(line) as int;
    let k = crate::text::floor_char(line, if col < bl { col } else { bl });
    let prefix = line.take(k);
    let j = crate::cursor::word_left(prefix, prefix.len() as int);
    let e = crate::cursor::word_right(line, k);
    let paren = starts_with(crate::strops::trim_start(line.subrange(e, line.len() as int)), seq!['(']);
    let range = Range {
        start: crate::diagnostics::Position {
            line: line_idx as usize,
            character: crate::text::blen(prefix.take(j)) as usize,
        },
        end: crate::diagnostics::Position { line: line_idx as usize, character: crate::text::blen(line.take(e)) as usize },
    };
    let cs = word_candidates(line_idx, ctx, paren, range, fs, vs, ss, ps);
    crate::completion::dedup_matching(cs, seq![], cs.len() as int)
}

/// The completions for the word before byte column `col_idx` of `line`
/// (line `line_idx` of a document of dialect `context`), given the functions,
/// variables and structs of the document and its includes and its ShaderLab
/// properties.
pub fn word_completions(
    line: &str,
    line_idx: usize,
    col_idx: usize,
    context: ShaderContext,
    funcs: &[FunctionSignature],
    vars: &[VariableSymbol],
    structs: &[StructDef],
    props: &[ShaderLabProperty],
) -> (r: Vec<CompletionItem>)
    requires
        line_idx < usize::MAX,
    ensures
        items_view(r@) == word_completion(
            line@,
            line_idx as int,
            col_idx as int,
            context,
            fns_view(funcs@),
            vars_view(vars@),
            structs_view(structs@),
            props_view(props@),
        ),
{
    let v = crate::text::to_chars_sized(line);
    let total = crate::text::byte_offset(v.as_slice(), v.len());
    proof {
        assert(v@.take(v@.len() as int) =~= v@);
    }
    let idx = if col_idx < total {
        col_idx
    } else {
        total
    };
    let (k, safe) = crate::text::floor_char_index(v.as_slice(), idx);
    let prefix = crate::text::range_string(v.as_slice(), 0, k);
    proof {
        assert(v@.subrange(0, k as int) =~= v@.take(k as int));
    }
    let (word_start, _word) = crate::cursor::extract_word_prefix(prefix.as_str());
    proof {
        lemma_floor_char_at(line@, k as int);
    }
    let (word_end, paren) = crate::cursor::check_following_paren(line, safe);
    let range = Range {
        start: crate::diagnostics::Position { line: line_idx, character: word_start },
        end: crate::diagnostics::Position { line: line_idx, character: word_end },
    };
    let ghost fsv = fns_view(funcs@);
    let ghost pe = |f: FnModel| crate::functions::encloses(f, line_idx as int);
    let mut cands: Vec<CompletionItem> = Vec::new();
    proof {
        assert(items_view(cands@) =~= Seq::<ItemModel>::empty());
    }
    match crate::functions::find_enclosing_function(funcs, line_idx) {
        Some(f) => {
            proof {
                let i = choose|i: int|
                    0 <= i < funcs@.len() && *f == funcs@[i] && crate::functions::encloses(funcs@[i]@, line_idx as int)
                        && forall|j: int| 0 <= j < i ==> !crate::functions::encloses(#[trigger] funcs@[j]@, line_idx as int);
                assert forall|j: int| 0 <= j < i implies !pe(#[trigger] fsv[j]) by {
                    assert(fsv[j] == funcs@[j]@);
                }
                assert(fsv[i] == funcs@[i]@);
                crate::hover::lemma_first_of_at(fsv, pe, i, 0);
            }
            push_param_items(&mut cands, f, range);
            push_local_items(&mut cands, f, line_idx, range);
        },
        None => {
            proof {
                assert forall|j: int| 0 <= j < fsv.len() implies !pe(#[trigger] fsv[j]) by {
                    assert(fsv[j] == funcs@[j]@);
                }
                crate::hover::lemma_first_of_none(fsv, pe, 0);
            }
        },
    }
    push_var_items(&mut cands, vars, range);
    push_fn_items(&mut cands, funcs, paren, range);
    push_struct_items(&mut cands, structs, range);
    let ghost before_props = items_view(cands@);
    if context == ShaderContext::UnityShaderLab {
        push_prop_items(&mut cands, props, range);
    } else {
        proof {
            assert(items_view(cands@) =~= before_props + Seq::<ItemModel>::empty());
        }
    }
    push_engine_items(&mut cands, context, paren, range);
    push_builtin_items(&mut cands, context, paren, range);
    push_fixed_items(&mut cands, range);
    proof {
        let cs = word_candidates(
            line_idx as int,
            context,
            paren,
            range,
            fsv,
            vars_view(vars@),
            structs_view(structs@),
            props_view(props@),
        );
        assert(items_view(cands@) =~= cs);
    }
    let all = String::new();
    proof {
        assert(all@ =~= Seq::<char>::empty());
    }
    crate::completion::filter_candidates(cands, all.as_str())
}

} // verus!
