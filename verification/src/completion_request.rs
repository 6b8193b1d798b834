//! The completion of a position in a document: ShaderLab completion in the
//! ShaderLab part of a Unity shader; elsewhere member access after `.`,
//! semantics after `:`, and words.
use vstd::prelude::*;
use crate::completion::{items_view, CompletionItem, ItemModel};
use crate::completion_members::{member_completion, member_completion_exec, semantic_completion, semantic_completion_exec};
use crate::completion_shaderlab::{shaderlab_completion, shaderlab_completions};
use crate::completion_words::{word_completion, word_completions};
use crate::context::{
    detect_shader_context, hlsl_block_open_after, is_inside_hlsl_block, is_inside_properties_block,
    is_inside_tags_block, is_unity_2d_context, props_line_inside, props_state, shader_context_of, tags_line_inside,
    tags_state, unity_2d_markers, ShaderContext,
};
use crate::functions::{fn_scan_well_formed, fns_view, FnModel, FunctionSignature};
use crate::lexer::{cs_scan, is_in_comment_or_string};
use crate::props::{props_view, scan_shaderlab_properties, shaderlab_properties, PropModel, ShaderLabProperty};
use crate::splits::{lines, lines_of};
use crate::strops::{contains, starts_with, trim_start};
use crate::structs::{structs_view, StructDef, StructModel};
use crate::text::{blen, floor_char};
use crate::variables::{vars_view, VarModel, VariableSymbol};

verus! {

/// Line `l` of `doc` lies inside a `Tags` block.
pub open spec fn inside_tags(doc: Seq<char>, l: int) -> bool {
    l < lines(doc).len() && tags_line_inside(tags_state(lines(doc), l), lines(doc)[l])
}

/// Line `l` of `doc` lies inside a `Properties` block.
pub open spec fn inside_properties(doc: Seq<char>, l: int) -> bool {
    l < lines(doc).len() && props_line_inside(props_state(lines(doc), l), lines(doc)[l])
}

/// Line `l` of `doc` lies inside an HLSL program block.
pub open spec fn inside_hlsl(doc: Seq<char>, l: int) -> bool {
    l < lines(doc).len() && hlsl_block_open_after(lines(doc), l + 1)
}

/// Position (`l`, `col`) of `doc` lies in a comment or a string literal.
pub open spec fn in_comment_or_string(doc: Seq<char>, l: int, col: int) -> bool {
    cs_scan(doc, 0, l, col, 0, 0, false, false, false, false)
}

/// The completions at line `l`, byte column `col` of the document `doc`
/// (at `uri`), given the functions, variables and structs of the document
/// and its includes.  Nothing is offered past the last line, nor in a
/// comment or string (unless the line is a `Tags` line or an `#include`).
/// In the ShaderLab part of a Unity shader, ShaderLab completion answers;
/// elsewhere member access after the last `.`, else a semantic after the
/// last `:`, else the words.
pub open spec fn completion(
    uri: Seq<char>,
    doc: Seq<char>,
    l: int,
    col: int,
    fs: Seq<FnModel>,
    vs: Seq<VarModel>,
    ss: Seq<StructModel>,
) -> Seq<ItemModel> {
    let ls = lines(doc);
    if l >= ls.len() {
        seq![]
    } else {
        let line = ls[l];
        let bl = blen(line) as int;
        let k = floor_char(line, if col < bl { col } else { bl });
        let prefix = line.take(k);
        let safe = blen(prefix) as int;
        let in_tags = inside_tags(doc, l);
        let is_tag = contains(line, "Tags"@) || in_tags;
        let is_include = starts_with(trim_start(prefix), "#include"@);
        let ctx = shader_context_of(uri, doc);
        if in_comment_or_string(doc, l, col) && !is_tag && !is_include {
            seq![]
        } else if ctx == ShaderContext::UnityShaderLab && !inside_hlsl(doc, l) {
            shaderlab_completion(line, k, inside_properties(doc, l), in_tags, unity_2d_markers(uri, doc))
        } else {
            match member_completion(doc, prefix, l, safe, ss) {
                Some(items) => items,
                None => match semantic_completion(prefix, l, safe) {
                    Some(items) => items,
                    None => word_completion(
                        line,
                        l,
                        col,
                        ctx,
                        fs,
                        vs,
                        ss,
                        if ctx == ShaderContext::UnityShaderLab {
                            shaderlab_properties(doc)
                        } else {
                            seq![]
                        },
                    ),
                },
            }
        }
    }
}

/// The completions at line `line_idx`, byte column `col_idx` of the
/// document `doc` (at `uri`), given the functions, variables and structs of
/// the document and its includes.
pub fn get_completions(
    uri: &str,
    doc: &str,
    line_idx: usize,
    col_idx: usize,
    funcs: &[FunctionSignature],
    vars: &[VariableSymbol],
    structs: &[StructDef],
) -> (r: Vec<CompletionItem>)
    requires
        fn_scan_well_formed(doc@, None, None),
        line_idx < usize::MAX,
    ensures
        items_view(r@) == completion(
            uri@,
            doc@,
            line_idx as int,
            col_idx as int,
            fns_view(funcs@),
            vars_view(vars@),
            structs_view(structs@),
        ),
{
    let (dv, ranges) = lines_of(doc);
    if line_idx >= ranges.len() {
        let none: Vec<CompletionItem> = Vec::new();
        proof {
            assert(items_view(none@) =~= Seq::<ItemModel>::empty());
        }
        return none;
    }
    let (a, b) = ranges[line_idx];
    proof {
        assert(crate::splits::ranges_within(ranges@, 0, dv@.len() as int));
    }
    let line = crate::text::range_string(dv.as_slice(), a, b);
    let lc = crate::text::to_chars_sized(line.as_str());
    let n = lc.len();
    proof {
        assert(lc@.take(n as int) =~= lc@);
        assert(lc@.subrange(0, n as int) =~= lc@);
    }
    let total = crate::text::byte_offset(lc.as_slice(), n);
    let idx = if col_idx < total {
        col_idx
    } else {
        total
    };
    let (k, safe) = crate::text::floor_char_index(lc.as_slice(), idx);
    proof {
        assert(lc@.subrange(0, k as int) =~= lc@.take(k as int));
    }
    let in_tags = is_inside_tags_block(doc, line_idx);
    let is_tag = crate::strops::contains_str(lc.as_slice(), 0, n, "Tags") || in_tags;
    let ts = crate::strops::trim_start_range(lc.as_slice(), 0, k);
    let is_include = crate::strops::starts_with_str(lc.as_slice(), ts, k, "#include");
    if is_in_comment_or_string(doc, line_idx, col_idx) && !is_tag && !is_include {
        let none: Vec<CompletionItem> = Vec::new();
        proof {
            assert(items_view(none@) =~= Seq::<ItemModel>::empty());
        }
        return none;
    }
    let ctx = detect_shader_context(uri, doc);
    if ctx == ShaderContext::UnityShaderLab && !is_inside_hlsl_block(doc, line_idx) {
        let in_props = is_inside_properties_block(doc, line_idx);
        let is_2d = is_unity_2d_context(uri, doc);
        return shaderlab_completions(lc.as_slice(), k, in_props, in_tags, is_2d);
    }
    match member_completion_exec(doc, lc.as_slice(), k, line_idx, safe, structs) {
        Some(items) => return items,
        None => {},
    }
    match semantic_completion_exec(lc.as_slice(), k, line_idx, safe) {
        Some(items) => return items,
        None => {},
    }
    let props: Vec<ShaderLabProperty> = if ctx == ShaderContext::UnityShaderLab {
        scan_shaderlab_properties(doc)
    } else {
        let none: Vec<ShaderLabProperty> = Vec::new();
        proof {
            assert(props_view(none@) =~= Seq::<PropModel>::empty());
        }
        none
    };
    word_completions(line.as_str(), line_idx, col_idx, ctx, funcs, vars, structs, props.as_slice())
}

} // verus!
