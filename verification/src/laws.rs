//! Properties that hold across the library's functions and inputs.
use vstd::prelude::*;
use crate::diagnostics::DiagModel;
use crate::dxc_output::{mapped_line, DxcMapping};
use crate::format::formatted_text;
use crate::functions::FnModel;
use crate::includes::{missing_upto, IncludeModel};
use crate::pragmas::{fn_names, pragma_diags, pragma_line_diags, pragma_scan, pragma_words};
use crate::render_states::{colormask_diags, cull_diags, render_state_diags, rs_scan, ztest_diags, zwrite_diags};
use crate::splits::{lines};
use crate::strops::{contains, trim};
use crate::symbols::{aggregates_from, body_from};
use crate::validation::{validation_plan, JobModel};
use crate::context::{shader_context_of, ShaderContext};

verus! {

/// Line index `i` as a position holds it.
pub open spec fn as_line(i: int) -> usize {
    i as usize
}

/// `d` is a diagnostic within one line, one of the first `n` lines.
pub open spec fn on_some_line(d: DiagModel, n: int) -> bool {
    exists|i: int| 0 <= i < n && d.range.start.line == #[trigger] as_line(i) && d.range.end.line == as_line(i)
}

proof fn lemma_pragma_scan_on_lines(ls: Seq<Seq<char>>, n: int, fs: Seq<FnModel>, u: bool)
    requires
        0 <= n <= ls.len(),
    ensures
        forall|k: int| 0 <= k < pragma_scan(ls, n, fs, u).len() ==> on_some_line(#[trigger] pragma_scan(ls, n, fs, u)[k], n),
    decreases n,
{
    if n > 0 {
        lemma_pragma_scan_on_lines(ls, n - 1, fs, u);
        let prev = pragma_scan(ls, n - 1, fs, u);
        let new = pragma_line_diags(ls[n - 1], n - 1, fs, u);
        assert forall|k: int| 0 <= k < pragma_scan(ls, n, fs, u).len() implies on_some_line(
            #[trigger] pragma_scan(ls, n, fs, u)[k],
            n,
        ) by {
            if k < prev.len() {
                assert(pragma_scan(ls, n, fs, u)[k] == prev[k]);
                assert(on_some_line(prev[k], n - 1));
                let i = choose|i: int| 0 <= i < n - 1 && prev[k].range.start.line == #[trigger] as_line(i) && prev[k].range.end.line == as_line(i);
                assert(0 <= i < n);
            } else {
                assert(pragma_scan(ls, n, fs, u)[k] == new[k - prev.len()]);
                assert(new[k - prev.len()].range.start.line == as_line(n - 1));
            }
        }
    }
}

/// Every diagnostic on the stage pragmas of a text lies within one line of
/// that text.
pub proof fn law_pragma_diagnostics_on_text_lines(content: Seq<char>, fs: Seq<FnModel>)
    ensures
        forall|k: int|
            0 <= k < pragma_diags(content, fs).len() ==> on_some_line(
                #[trigger] pragma_diags(content, fs)[k],
                lines(content).len() as int,
            ),
{
    let ls = lines(content);
    lemma_pragma_scan_on_lines(ls, ls.len() as int, fs, crate::pragmas::has_unresolved_packages(ls));
}

/// A stage pragma whose entry point is one of the functions found raises no
/// diagnostic, whatever else the shader holds.
pub proof fn law_defined_entry_point_accepted(raw: Seq<char>, idx: int, fs: Seq<FnModel>, u: bool)
    requires
        pragma_words(trim(raw)) matches Some(ws) && ws.len() >= 2 && fn_names(fs).contains(ws[1]),
    ensures
        pragma_line_diags(raw, idx, fs, u) == Seq::<DiagModel>::empty(),
{
}

proof fn lemma_rs_scan_on_lines(ls: Seq<Seq<char>>, n: int)
    requires
        0 <= n <= ls.len(),
    ensures
        forall|k: int| 0 <= k < rs_scan(ls, n).diags.len() ==> on_some_line(#[trigger] rs_scan(ls, n).diags[k], n),
    decreases n,
{
    if n > 0 {
        lemma_rs_scan_on_lines(ls, n - 1);
        let prev = rs_scan(ls, n - 1).diags;
        let raw = ls[n - 1];
        let t = trim(raw);
        let idx = n - 1;
        let new = cull_diags(t, raw, idx) + zwrite_diags(t, raw, idx) + ztest_diags(t, raw, idx) + colormask_diags(t, raw, idx);
        assert forall|k: int| 0 <= k < new.len() implies (#[trigger] new[k]).range.start.line == idx as usize
            && new[k].range.end.line == idx as usize by {
            let a = cull_diags(t, raw, idx);
            let b = zwrite_diags(t, raw, idx);
            let c = ztest_diags(t, raw, idx);
            let d = colormask_diags(t, raw, idx);
            if k < a.len() {
                assert(new[k] == a[k]);
            } else if k < a.len() + b.len() {
                assert(new[k] == b[k - a.len()]);
            } else if k < a.len() + b.len() + c.len() {
                assert(new[k] == c[k - a.len() - b.len()]);
            } else {
                assert(new[k] == d[k - a.len() - b.len() - c.len()]);
            }
        }
        let cur = rs_scan(ls, n).diags;
        assert forall|k: int| 0 <= k < cur.len() implies on_some_line(#[trigger] cur[k], n) by {
            if k < prev.len() {
                assert(cur[k] == prev[k]);
                let i = choose|i: int| 0 <= i < n - 1 && prev[k].range.start.line == #[trigger] as_line(i) && prev[k].range.end.line == as_line(i);
                assert(0 <= i < n);
            } else {
                assert(cur =~= prev + new);
                assert(cur[k] == new[k - prev.len()]);
                assert(cur[k].range.start.line == as_line(n - 1));
            }
        }
    }
}

/// Every render-state diagnostic of a ShaderLab text lies within one line of
/// that text.
pub proof fn law_render_state_diagnostics_on_text_lines(content: Seq<char>)
    ensures
        forall|k: int|
            0 <= k < render_state_diags(content).len() ==> on_some_line(
                #[trigger] render_state_diags(content)[k],
                lines(content).len() as int,
            ),
{
    lemma_rs_scan_on_lines(lines(content), lines(content).len() as int);
}

/// The number of `false` among the first `n` entries.
pub open spec fn not_found_count(found: Seq<bool>, n: int) -> nat
    decreases n,
{
    if n <= 0 {
        0
    } else {
        not_found_count(found, n - 1) + if found[n - 1] {
            0nat
        } else {
            1nat
        }
    }
}

proof fn lemma_missing_count(cs: Seq<IncludeModel>, found: Seq<bool>, n: int)
    requires
        0 <= n <= cs.len(),
        found.len() == cs.len(),
    ensures
        missing_upto(cs, found, n).len() == not_found_count(found, n),
    decreases n,
{
    if n > 0 {
        lemma_missing_count(cs, found, n - 1);
    }
}

/// There is one missing-include error per include candidate that was not
/// found on disk, so none when all were found.
pub proof fn law_one_error_per_missing_include(cs: Seq<IncludeModel>, found: Seq<bool>)
    requires
        found.len() == cs.len(),
    ensures
        missing_upto(cs, found, cs.len() as int).len() == not_found_count(found, cs.len() as int),
        (forall|i: int| 0 <= i < found.len() ==> #[trigger] found[i]) ==> missing_upto(cs, found, cs.len() as int).len()
            == 0,
{
    lemma_missing_count(cs, found, cs.len() as int);
    if forall|i: int| 0 <= i < found.len() ==> #[trigger] found[i] {
        lemma_all_found(found, cs.len() as int);
    }
}

proof fn lemma_all_found(found: Seq<bool>, n: int)
    requires
        0 <= n <= found.len(),
        forall|i: int| 0 <= i < found.len() ==> #[trigger] found[i],
    ensures
        not_found_count(found, n) == 0,
    decreases n,
{
    if n > 0 {
        lemma_all_found(found, n - 1);
    }
}

/// A block compiled in a generated file (whose name holds `hlsl_val_`)
/// without shared include code maps DXC's line `pl`, past the preamble, to
/// the document line `line_offset + pl - 1 - preamble lines`: the line of
/// the block that it reports on.
pub proof fn law_block_line_mapping(file: Seq<char>, pl: int, content: Seq<char>, m: DxcMapping)
    requires
        contains(file, "hlsl_val_"@),
        m.shared_include is None,
        pl > m.stubs_line_count,
    ensures
        mapped_line(file, pl, content, m) == m.line_offset + (pl - 1 - m.stubs_line_count),
{
}

/// A plain HLSL file is compiled as it is, at line 0, with no preamble and
/// no ShaderLab, `#include` or `#pragma` checks.
pub proof fn law_pure_hlsl_compiled_verbatim(uri: Seq<char>, content: Seq<char>, dxc: Seq<char>, ws: Option<Seq<char>>)
    requires
        shader_context_of(uri, content) == ShaderContext::PureHlsl,
    ensures
        validation_plan(uri, content, dxc, ws).jobs == seq![
            JobModel {
                code: content,
                mapping: DxcMapping { line_offset: 0, stubs_line_count: 0, shared_include: None },
            },
        ],
        validation_plan(uri, content, dxc, ws).diagnostics.len() == 0,
        validation_plan(uri, content, dxc, ws).property_findings.len() == 0,
        !validation_plan(uri, content, dxc, ws).check_includes,
        !validation_plan(uri, content, dxc, ws).check_pragmas,
{
}

proof fn lemma_body_from_bounds(ls: Seq<Seq<char>>, start: int, j: int, d: nat, kids: Seq<crate::symbols::FieldModel>)
    requires
        0 <= start <= j,
        start < ls.len(),
    ensures
        start <= body_from(ls, start, j, d, kids).0 < ls.len(),
    decreases ls.len() - j,
{
    if j < ls.len() {
        let cur = trim(ls[j]);
        let dd = d + crate::strops::count_char(cur, '{');
        let c = crate::strops::count_char(cur, '}');
        let kids2 = if dd > 0 && crate::strops::ends_with(cur, ";"@) {
            kids + crate::symbols::field_of(cur, ls[j], j)
        } else {
            kids
        };
        if !(dd > 0 && dd <= c) {
            lemma_body_from_bounds(ls, start, j + 1, if dd >= c {
                (dd - c) as nat
            } else {
                0
            }, kids2);
        }
    }
}

proof fn lemma_aggregates_ordered(ls: Seq<Seq<char>>, i: int)
    requires
        0 <= i,
        ls.len() <= usize::MAX,
    ensures
        forall|k: int|
            0 <= k < aggregates_from(ls, i).len() ==> (#[trigger] aggregates_from(ls, i)[k]).range.start.line
                <= aggregates_from(ls, i)[k].range.end.line && i <= aggregates_from(ls, i)[k].range.start.line,
    decreases ls.len() - i,
{
    if i < ls.len() {
        match crate::symbols::aggregate_head(trim(ls[i])) {
            Some((name, is_struct)) => {
                let (end, kids) = body_from(ls, i, i, 0, seq![]);
                lemma_body_from_bounds(ls, i, i, 0, seq![]);
                let end2 = if end >= i {
                    end
                } else {
                    i
                };
                let all = aggregates_from(ls, i);
                let rest = if end2 + 1 <= ls.len() {
                    aggregates_from(ls, end2 + 1)
                } else {
                    seq![]
                };
                if end2 + 1 <= ls.len() {
                    lemma_aggregates_ordered(ls, end2 + 1);
                }
                assert(all.len() == 1 + rest.len());
                assert(all[0].range.start.line == i as usize);
                assert(all[0].range.end.line == end2 as usize);
                assert forall|k: int| 0 <= k < all.len() implies (#[trigger] all[k]).range.start.line
                    <= all[k].range.end.line && i <= all[k].range.start.line by {
                    if k > 0 {
                        assert(all[k] == rest[k - 1]);
                    }
                }
            },
            None => {
                assert(aggregates_from(ls, i) == aggregates_from(ls, i + 1));
                lemma_aggregates_ordered(ls, i + 1);
            },
        }
    }
}

/// Each struct and constant buffer of the outline spans from its opening
/// line to a line at or after it, and they come in the order of the text.
pub proof fn law_outline_aggregates_ordered(text: Seq<char>)
    requires
        lines(text).len() <= usize::MAX,
    ensures
        forall|k: int|
            0 <= k < aggregates_from(lines(text), 0).len() ==> (#[trigger] aggregates_from(lines(text), 0)[k]).range.start.line
                <= aggregates_from(lines(text), 0)[k].range.end.line,
        forall|k: int, l: int|
            0 <= k < l < aggregates_from(lines(text), 0).len() ==> (#[trigger] aggregates_from(lines(text), 0)[k]).range.end.line
                < (#[trigger] aggregates_from(lines(text), 0)[l]).range.start.line,
{
    lemma_aggregates_ordered(lines(text), 0);
    lemma_aggregates_disjoint(lines(text), 0);
}

proof fn lemma_aggregates_disjoint(ls: Seq<Seq<char>>, i: int)
    requires
        0 <= i,
        ls.len() <= usize::MAX,
    ensures
        forall|k: int, l: int|
            0 <= k < l < aggregates_from(ls, i).len() ==> (#[trigger] aggregates_from(ls, i)[k]).range.end.line
                < (#[trigger] aggregates_from(ls, i)[l]).range.start.line,
    decreases ls.len() - i,
{
    if i < ls.len() {
        match crate::symbols::aggregate_head(trim(ls[i])) {
            Some((name, is_struct)) => {
                let (end, kids) = body_from(ls, i, i, 0, seq![]);
                lemma_body_from_bounds(ls, i, i, 0, seq![]);
                let end2 = if end >= i {
                    end
                } else {
                    i
                };
                let all = aggregates_from(ls, i);
                let rest = if end2 + 1 <= ls.len() {
                    aggregates_from(ls, end2 + 1)
                } else {
                    seq![]
                };
                if end2 + 1 <= ls.len() {
                    lemma_aggregates_disjoint(ls, end2 + 1);
                    lemma_aggregates_ordered(ls, end2 + 1);
                }
                assert(all.len() == 1 + rest.len());
                assert(all[0].range.end.line == end2 as usize);
                assert forall|k: int, l: int| 0 <= k < l < all.len() implies (#[trigger] all[k]).range.end.line
                    < (#[trigger] all[l]).range.start.line by {
                    assert(all[l] == rest[l - 1]);
                    if k > 0 {
                        assert(all[k] == rest[k - 1]);
                    } else {
                        assert(end2 + 1 <= rest[l - 1].range.start.line);
                    }
                }
            },
            None => {
                assert(aggregates_from(ls, i) == aggregates_from(ls, i + 1));
                lemma_aggregates_disjoint(ls, i + 1);
            },
        }
    }
}

/// A formatted document is empty or ends with a newline.
pub proof fn law_formatted_text_ends_with_newline(text: Seq<char>, tab_size: nat, insert_spaces: bool)
    ensures
        formatted_text(text, tab_size, insert_spaces).len() == 0 || formatted_text(text, tab_size, insert_spaces).last()
            == '\n',
{
}

} // verus!

verus! {

/// The labels of `items` are pairwise distinct.
pub open spec fn labels_distinct(items: Seq<crate::completion::ItemModel>) -> bool {
    forall|i: int, j: int| 0 <= i < j < items.len() ==> #[trigger] items[i].label != #[trigger] items[j].label
}

proof fn lemma_dedup_distinct(cs: Seq<crate::completion::ItemModel>, word: Seq<char>, n: int)
    ensures
        labels_distinct(crate::completion::dedup_matching(cs, word, n)),
    decreases n,
{
    if n > 0 {
        lemma_dedup_distinct(cs, word, n - 1);
        let kept = crate::completion::dedup_matching(cs, word, n - 1);
        let c = cs[n - 1];
        let ls = kept.map_values(|k: crate::completion::ItemModel| k.label);
        if crate::completion::label_matches(c.label, word) && !ls.contains(c.label) {
            let r = kept.push(c);
            assert forall|i: int, j: int| 0 <= i < j < r.len() implies #[trigger] r[i].label != #[trigger] r[j].label by {
                if j == r.len() - 1 {
                    assert(ls[i] == kept[i].label);
                }
            }
        }
    }
}

/// Word completion offers each label at most once.
pub proof fn law_word_completion_labels_distinct(
    line: Seq<char>,
    line_idx: int,
    col: int,
    ctx: ShaderContext,
    fs: Seq<FnModel>,
    vs: Seq<crate::variables::VarModel>,
    ss: Seq<crate::structs::StructModel>,
    ps: Seq<crate::props::PropModel>,
)
    ensures
        labels_distinct(crate::completion_words::word_completion(line, line_idx, col, ctx, fs, vs, ss, ps)),
{
    let bl = crate::text::blen(line) as int;
    let k = crate::text::floor_char(line, if col < bl { col } else { bl });
    let prefix = line.take(k);
    let j = crate::cursor::word_left(prefix, prefix.len() as int);
    let e = crate::cursor::word_right(line, k);
    let paren = crate::strops::starts_with(crate::strops::trim_start(line.subrange(e, line.len() as int)), seq!['(']);
    let range = crate::diagnostics::Range {
        start: crate::diagnostics::Position { line: line_idx as usize, character: crate::text::blen(prefix.take(j)) as usize },
        end: crate::diagnostics::Position { line: line_idx as usize, character: crate::text::blen(line.take(e)) as usize },
    };
    let cs = crate::completion_words::word_candidates(line_idx, ctx, paren, range, fs, vs, ss, ps);
    lemma_dedup_distinct(cs, seq![], cs.len() as int);
}

/// Member completion on a value of unknown type offers each label at most
/// once.
pub proof fn law_fallback_members_labels_distinct(ss: Seq<crate::structs::StructModel>, range: crate::diagnostics::Range)
    ensures
        labels_distinct(crate::completion_members::fallback_members(ss, range)),
{
    let cs = crate::completion_members::swizzle_items(crate::completion_members::common_swizzles(), range)
        + crate::completion_members::all_fields_upto(ss, ss.len() as int, range)
        + crate::completion_members::method_items(crate::engine_table::texture_method_table(), "10"@, range)
        + crate::completion_members::method_items(crate::engine_table::buffer_method_table(), "11"@, range);
    lemma_dedup_distinct(cs, seq![], cs.len() as int);
}

} // verus!

verus! {

/// Every character of `s` is one of `allowed`.
pub open spec fn within(s: Seq<char>, allowed: Seq<char>) -> bool {
    forall|i: int| 0 <= i < s.len() ==> allowed.contains(#[trigger] s[i])
}

/// The components that a vector of the type `t` has: two, three or four,
/// by the digit its name ends with.
pub open spec fn vector_components(t: Seq<char>) -> Seq<char> {
    if crate::strops::ends_with(t, "3"@) {
        seq!['x', 'y', 'z', 'r', 'g', 'b']
    } else if crate::strops::ends_with(t, "2"@) {
        seq!['x', 'y', 'r', 'g']
    } else {
        seq!['x', 'y', 'z', 'w', 'r', 'g', 'b', 'a']
    }
}

proof fn lemma_swizzle_tables_within()
    ensures
        forall|i: int| 0 <= i < crate::completion_members::swizzles2().len() ==> within(#[trigger] crate::completion_members::swizzles2()[i], seq!['x', 'y', 'r', 'g']),
        forall|i: int| 0 <= i < crate::completion_members::swizzles3().len() ==> within(#[trigger] crate::completion_members::swizzles3()[i], seq!['x', 'y', 'z', 'r', 'g', 'b']),
        forall|i: int| 0 <= i < crate::completion_members::swizzles4().len() ==> within(#[trigger] crate::completion_members::swizzles4()[i], seq!['x', 'y', 'z', 'w', 'r', 'g', 'b', 'a']),
{
    reveal_strlit("g");
    reveal_strlit("gg");
    reveal_strlit("gr");
    reveal_strlit("r");
    reveal_strlit("rg");
    reveal_strlit("rr");
    reveal_strlit("x");
    reveal_strlit("xx");
    reveal_strlit("xy");
    reveal_strlit("y");
    reveal_strlit("yx");
    reveal_strlit("yy");
    assert forall|i: int| 0 <= i < crate::completion_members::swizzles2().len() implies within(#[trigger] crate::completion_members::swizzles2()[i], seq!['x', 'y', 'r', 'g']) by {
            if i == 0 {
                assert(crate::completion_members::swizzles2()[i] == "x"@);
            } else if i == 1 {
                assert(crate::completion_members::swizzles2()[i] == "y"@);
            } else if i == 2 {
                assert(crate::completion_members::swizzles2()[i] == "r"@);
            } else if i == 3 {
                assert(crate::completion_members::swizzles2()[i] == "g"@);
            } else if i == 4 {
                assert(crate::completion_members::swizzles2()[i] == "xy"@);
            } else if i == 5 {
                assert(crate::completion_members::swizzles2()[i] == "yx"@);
            } else if i == 6 {
                assert(crate::completion_members::swizzles2()[i] == "xx"@);
            } else if i == 7 {
                assert(crate::completion_members::swizzles2()[i] == "yy"@);
            } else if i == 8 {
                assert(crate::completion_members::swizzles2()[i] == "rg"@);
            } else if i == 9 {
                assert(crate::completion_members::swizzles2()[i] == "gr"@);
            } else if i == 10 {
                assert(crate::completion_members::swizzles2()[i] == "rr"@);
            } else if i == 11 {
                assert(crate::completion_members::swizzles2()[i] == "gg"@);
            }
    }
    reveal_strlit("b");
    reveal_strlit("bb");
    reveal_strlit("bg");
    reveal_strlit("bgr");
    reveal_strlit("br");
    reveal_strlit("brg");
    reveal_strlit("g");
    reveal_strlit("gb");
    reveal_strlit("gbr");
    reveal_strlit("gg");
    reveal_strlit("gr");
    reveal_strlit("grb");
    reveal_strlit("r");
    reveal_strlit("rb");
    reveal_strlit("rbg");
    reveal_strlit("rg");
    reveal_strlit("rgb");
    reveal_strlit("rr");
    reveal_strlit("x");
    reveal_strlit("xx");
    reveal_strlit("xxx");
    reveal_strlit("xy");
    reveal_strlit("xyz");
    reveal_strlit("xz");
    reveal_strlit("xzy");
    reveal_strlit("y");
    reveal_strlit("yx");
    reveal_strlit("yxz");
    reveal_strlit("yy");
    reveal_strlit("yyy");
    reveal_strlit("yz");
    reveal_strlit("yzx");
    reveal_strlit("z");
    reveal_strlit("zx");
    reveal_strlit("zxy");
    reveal_strlit("zy");
    reveal_strlit("zyx");
    reveal_strlit("zz");
    reveal_strlit("zzz");
    assert forall|i: int| 0 <= i < crate::completion_members::swizzles3().len() implies within(#[trigger] crate::completion_members::swizzles3()[i], seq!['x', 'y', 'z', 'r', 'g', 'b']) by {
            if i == 0 {
                assert(crate::completion_members::swizzles3()[i] == "x"@);
            } else if i == 1 {
                assert(crate::completion_members::swizzles3()[i] == "y"@);
            } else if i == 2 {
                assert(crate::completion_members::swizzles3()[i] == "z"@);
            } else if i == 3 {
                assert(crate::completion_members::swizzles3()[i] == "r"@);
            } else if i == 4 {
                assert(crate::completion_members::swizzles3()[i] == "g"@);
            } else if i == 5 {
                assert(crate::completion_members::swizzles3()[i] == "b"@);
            } else if i == 6 {
                assert(crate::completion_members::swizzles3()[i] == "xy"@);
            } else if i == 7 {
                assert(crate::completion_members::swizzles3()[i] == "xz"@);
            } else if i == 8 {
                assert(crate::completion_members::swizzles3()[i] == "yz"@);
            } else if i == 9 {
                assert(crate::completion_members::swizzles3()[i] == "yx"@);
            } else if i == 10 {
                assert(crate::completion_members::swizzles3()[i] == "zx"@);
            } else if i == 11 {
                assert(crate::completion_members::swizzles3()[i] == "zy"@);
            } else if i == 12 {
                assert(crate::completion_members::swizzles3()[i] == "xx"@);
            } else if i == 13 {
                assert(crate::completion_members::swizzles3()[i] == "yy"@);
            } else if i == 14 {
                assert(crate::completion_members::swizzles3()[i] == "zz"@);
            } else if i == 15 {
                assert(crate::completion_members::swizzles3()[i] == "rg"@);
            } else if i == 16 {
                assert(crate::completion_members::swizzles3()[i] == "rb"@);
            } else if i == 17 {
                assert(crate::completion_members::swizzles3()[i] == "gb"@);
            } else if i == 18 {
                assert(crate::completion_members::swizzles3()[i] == "gr"@);
            } else if i == 19 {
                assert(crate::completion_members::swizzles3()[i] == "br"@);
            } else if i == 20 {
                assert(crate::completion_members::swizzles3()[i] == "bg"@);
            } else if i == 21 {
                assert(crate::completion_members::swizzles3()[i] == "rr"@);
            } else if i == 22 {
                assert(crate::completion_members::swizzles3()[i] == "gg"@);
            } else if i == 23 {
                assert(crate::completion_members::swizzles3()[i] == "bb"@);
            } else if i == 24 {
                assert(crate::completion_members::swizzles3()[i] == "xyz"@);
            } else if i == 25 {
                assert(crate::completion_members::swizzles3()[i] == "xzy"@);
            } else if i == 26 {
                assert(crate::completion_members::swizzles3()[i] == "yxz"@);
            } else if i == 27 {
                assert(crate::completion_members::swizzles3()[i] == "yzx"@);
            } else if i == 28 {
                assert(crate::completion_members::swizzles3()[i] == "zxy"@);
            } else if i == 29 {
                assert(crate::completion_members::swizzles3()[i] == "zyx"@);
            } else if i == 30 {
                assert(crate::completion_members::swizzles3()[i] == "xxx"@);
            } else if i == 31 {
                assert(crate::completion_members::swizzles3()[i] == "yyy"@);
            } else if i == 32 {
                assert(crate::completion_members::swizzles3()[i] == "zzz"@);
            } else if i == 33 {
                assert(crate::completion_members::swizzles3()[i] == "rgb"@);
            } else if i == 34 {
                assert(crate::completion_members::swizzles3()[i] == "rbg"@);
            } else if i == 35 {
                assert(crate::completion_members::swizzles3()[i] == "grb"@);
            } else if i == 36 {
                assert(crate::completion_members::swizzles3()[i] == "gbr"@);
            } else if i == 37 {
                assert(crate::completion_members::swizzles3()[i] == "brg"@);
            } else if i == 38 {
                assert(crate::completion_members::swizzles3()[i] == "bgr"@);
            }
    }
    reveal_strlit("a");
    reveal_strlit("ab");
    reveal_strlit("abgr");
    reveal_strlit("ag");
    reveal_strlit("ar");
    reveal_strlit("argb");
    reveal_strlit("b");
    reveal_strlit("ba");
    reveal_strlit("bg");
    reveal_strlit("bgr");
    reveal_strlit("bgra");
    reveal_strlit("br");
    reveal_strlit("g");
    reveal_strlit("ga");
    reveal_strlit("gb");
    reveal_strlit("gba");
    reveal_strlit("gr");
    reveal_strlit("r");
    reveal_strlit("ra");
    reveal_strlit("rb");
    reveal_strlit("rg");
    reveal_strlit("rga");
    reveal_strlit("rgb");
    reveal_strlit("rgba");
    reveal_strlit("w");
    reveal_strlit("ww");
    reveal_strlit("www");
    reveal_strlit("wx");
    reveal_strlit("wy");
    reveal_strlit("wyx");
    reveal_strlit("wz");
    reveal_strlit("wzx");
    reveal_strlit("wzy");
    reveal_strlit("wzyx");
    reveal_strlit("x");
    reveal_strlit("xw");
    reveal_strlit("xx");
    reveal_strlit("xxx");
    reveal_strlit("xy");
    reveal_strlit("xyw");
    reveal_strlit("xyz");
    reveal_strlit("xyzw");
    reveal_strlit("xz");
    reveal_strlit("xzw");
    reveal_strlit("y");
    reveal_strlit("yw");
    reveal_strlit("yx");
    reveal_strlit("yy");
    reveal_strlit("yyy");
    reveal_strlit("yz");
    reveal_strlit("yzw");
    reveal_strlit("z");
    reveal_strlit("zw");
    reveal_strlit("zx");
    reveal_strlit("zy");
    reveal_strlit("zyx");
    reveal_strlit("zz");
    reveal_strlit("zzz");
    assert forall|i: int| 0 <= i < crate::completion_members::swizzles4().len() implies within(#[trigger] crate::completion_members::swizzles4()[i], seq!['x', 'y', 'z', 'w', 'r', 'g', 'b', 'a']) by {
            if i == 0 {
                assert(crate::completion_members::swizzles4()[i] == "x"@);
            } else if i == 1 {
                assert(crate::completion_members::swizzles4()[i] == "y"@);
            } else if i == 2 {
                assert(crate::completion_members::swizzles4()[i] == "z"@);
            } else if i == 3 {
                assert(crate::completion_members::swizzles4()[i] == "w"@);
            } else if i == 4 {
                assert(crate::completion_members::swizzles4()[i] == "r"@);
            } else if i == 5 {
                assert(crate::completion_members::swizzles4()[i] == "g"@);
            } else if i == 6 {
                assert(crate::completion_members::swizzles4()[i] == "b"@);
            } else if i == 7 {
                assert(crate::completion_members::swizzles4()[i] == "a"@);
            } else if i == 8 {
                assert(crate::completion_members::swizzles4()[i] == "xy"@);
            } else if i == 9 {
                assert(crate::completion_members::swizzles4()[i] == "xz"@);
            } else if i == 10 {
                assert(crate::completion_members::swizzles4()[i] == "xw"@);
            } else if i == 11 {
                assert(crate::completion_members::swizzles4()[i] == "yz"@);
            } else if i == 12 {
                assert(crate::completion_members::swizzles4()[i] == "yw"@);
            } else if i == 13 {
                assert(crate::completion_members::swizzles4()[i] == "zw"@);
            } else if i == 14 {
                assert(crate::completion_members::swizzles4()[i] == "yx"@);
            } else if i == 15 {
                assert(crate::completion_members::swizzles4()[i] == "zx"@);
            } else if i == 16 {
                assert(crate::completion_members::swizzles4()[i] == "wx"@);
            } else if i == 17 {
                assert(crate::completion_members::swizzles4()[i] == "zy"@);
            } else if i == 18 {
                assert(crate::completion_members::swizzles4()[i] == "wy"@);
            } else if i == 19 {
                assert(crate::completion_members::swizzles4()[i] == "wz"@);
            } else if i == 20 {
                assert(crate::completion_members::swizzles4()[i] == "xx"@);
            } else if i == 21 {
                assert(crate::completion_members::swizzles4()[i] == "yy"@);
            } else if i == 22 {
                assert(crate::completion_members::swizzles4()[i] == "zz"@);
            } else if i == 23 {
                assert(crate::completion_members::swizzles4()[i] == "ww"@);
            } else if i == 24 {
                assert(crate::completion_members::swizzles4()[i] == "rg"@);
            } else if i == 25 {
                assert(crate::completion_members::swizzles4()[i] == "rb"@);
            } else if i == 26 {
                assert(crate::completion_members::swizzles4()[i] == "ra"@);
            } else if i == 27 {
                assert(crate::completion_members::swizzles4()[i] == "gb"@);
            } else if i == 28 {
                assert(crate::completion_members::swizzles4()[i] == "ga"@);
            } else if i == 29 {
                assert(crate::completion_members::swizzles4()[i] == "ba"@);
            } else if i == 30 {
                assert(crate::completion_members::swizzles4()[i] == "gr"@);
            } else if i == 31 {
                assert(crate::completion_members::swizzles4()[i] == "br"@);
            } else if i == 32 {
                assert(crate::completion_members::swizzles4()[i] == "ar"@);
            } else if i == 33 {
                assert(crate::completion_members::swizzles4()[i] == "bg"@);
            } else if i == 34 {
                assert(crate::completion_members::swizzles4()[i] == "ag"@);
            } else if i == 35 {
                assert(crate::completion_members::swizzles4()[i] == "ab"@);
            } else if i == 36 {
                assert(crate::completion_members::swizzles4()[i] == "xyz"@);
            } else if i == 37 {
                assert(crate::completion_members::swizzles4()[i] == "xyw"@);
            } else if i == 38 {
                assert(crate::completion_members::swizzles4()[i] == "xzw"@);
            } else if i == 39 {
                assert(crate::completion_members::swizzles4()[i] == "yzw"@);
            } else if i == 40 {
                assert(crate::completion_members::swizzles4()[i] == "zyx"@);
            } else if i == 41 {
                assert(crate::completion_members::swizzles4()[i] == "wyx"@);
            } else if i == 42 {
                assert(crate::completion_members::swizzles4()[i] == "wzx"@);
            } else if i == 43 {
                assert(crate::completion_members::swizzles4()[i] == "wzy"@);
            } else if i == 44 {
                assert(crate::completion_members::swizzles4()[i] == "xxx"@);
            } else if i == 45 {
                assert(crate::completion_members::swizzles4()[i] == "yyy"@);
            } else if i == 46 {
                assert(crate::completion_members::swizzles4()[i] == "zzz"@);
            } else if i == 47 {
                assert(crate::completion_members::swizzles4()[i] == "www"@);
            } else if i == 48 {
                assert(crate::completion_members::swizzles4()[i] == "rgb"@);
            } else if i == 49 {
                assert(crate::completion_members::swizzles4()[i] == "rga"@);
            } else if i == 50 {
                assert(crate::completion_members::swizzles4()[i] == "gba"@);
            } else if i == 51 {
                assert(crate::completion_members::swizzles4()[i] == "bgr"@);
            } else if i == 52 {
                assert(crate::completion_members::swizzles4()[i] == "xyzw"@);
            } else if i == 53 {
                assert(crate::completion_members::swizzles4()[i] == "rgba"@);
            } else if i == 54 {
                assert(crate::completion_members::swizzles4()[i] == "bgra"@);
            } else if i == 55 {
                assert(crate::completion_members::swizzles4()[i] == "argb"@);
            } else if i == 56 {
                assert(crate::completion_members::swizzles4()[i] == "wzyx"@);
            } else if i == 57 {
                assert(crate::completion_members::swizzles4()[i] == "abgr"@);
            }
    }
}

/// Member completion on a vector (of a type named like `float2`, `half3`,
/// `int4`, and that no struct is named) offers only swizzles of the
/// components that the vector has.
pub proof fn law_swizzles_within_dimension(
    t: Seq<char>,
    ss: Seq<crate::structs::StructModel>,
    range: crate::diagnostics::Range,
)
    requires
        crate::hover::first_of(ss, |s: crate::structs::StructModel| s.name == t, 0) is None,
        crate::completion_members::is_vector_type(t),
        !crate::strops::starts_with(t, "RWTexture"@),
        !crate::strops::starts_with(t, "Texture"@),
        !crate::strops::contains(t, "Buffer"@),
        !crate::strops::contains(t, "x"@),
        t != "matrix"@,
    ensures
        crate::completion_members::typed_members(t, ss, range) matches Some(items) && forall|i: int|
            0 <= i < items.len() ==> within(#[trigger] items[i].label, vector_components(t)),
{
    lemma_swizzle_tables_within();
}

} // verus!

verus! {

/// A plain HLSL document is offered no engine variable.
pub proof fn law_pure_hlsl_offers_no_engine_variables(
    es: Seq<crate::docs::EngineDoc>,
    paren: bool,
    range: crate::diagnostics::Range,
    n: int,
)
    ensures
        crate::completion_words::engine_items(es, ShaderContext::PureHlsl, paren, range, n) == Seq::<
            crate::completion::ItemModel,
        >::empty(),
    decreases n,
{
    if n > 0 {
        law_pure_hlsl_offers_no_engine_variables(es, paren, range, n - 1);
    }
}

/// The engine variables offered in a context are those of its engine: every
/// item stands for an entry of the table that the context allows.
pub proof fn law_engine_variables_follow_context(
    es: Seq<crate::docs::EngineDoc>,
    ctx: ShaderContext,
    paren: bool,
    range: crate::diagnostics::Range,
    n: int,
)
    ensures
        forall|k: int|
            0 <= k < crate::completion_words::engine_items(es, ctx, paren, range, n).len() ==> exists|j: int|
                0 <= j < n && crate::completion_words::engine_allowed(ctx, es[j])
                    && #[trigger] crate::completion_words::engine_items(es, ctx, paren, range, n)[k]
                    == crate::completion_words::engine_item(es[j], j, paren, range),
    decreases n,
{
    if n > 0 {
        law_engine_variables_follow_context(es, ctx, paren, range, n - 1);
        let prev = crate::completion_words::engine_items(es, ctx, paren, range, n - 1);
        let cur = crate::completion_words::engine_items(es, ctx, paren, range, n);
        assert forall|k: int| 0 <= k < cur.len() implies exists|j: int|
            0 <= j < n && crate::completion_words::engine_allowed(ctx, es[j]) && #[trigger] cur[k]
                == crate::completion_words::engine_item(es[j], j, paren, range) by {
            if k < prev.len() {
                assert(cur[k] == prev[k]);
                let j = choose|j: int|
                    0 <= j < n - 1 && crate::completion_words::engine_allowed(ctx, es[j]) && #[trigger] prev[k]
                        == crate::completion_words::engine_item(es[j], j, paren, range);
                assert(0 <= j < n);
            } else {
                assert(cur[k] == crate::completion_words::engine_item(es[n - 1], n - 1, paren, range));
            }
        }
    }
}

/// The intrinsics offered in a context are those that the context allows
/// (plain HLSL: neither Unity's nor Unreal's; Unreal: not Unity's; Unity:
/// not Unreal's): every item stands for such an entry of the table.
pub proof fn law_intrinsics_follow_context(
    bs: Seq<crate::docs::FunctionDoc>,
    ctx: ShaderContext,
    paren: bool,
    range: crate::diagnostics::Range,
    n: int,
)
    ensures
        forall|k: int|
            0 <= k < crate::completion_words::builtin_items(bs, ctx, paren, range, n).len() ==> exists|j: int|
                0 <= j < n && crate::completion_words::builtin_allowed(ctx, bs[j])
                    && #[trigger] crate::completion_words::builtin_items(bs, ctx, paren, range, n)[k]
                    == crate::completion_words::builtin_item(bs[j], j, paren, range),
    decreases n,
{
    if n > 0 {
        law_intrinsics_follow_context(bs, ctx, paren, range, n - 1);
        let prev = crate::completion_words::builtin_items(bs, ctx, paren, range, n - 1);
        let cur = crate::completion_words::builtin_items(bs, ctx, paren, range, n);
        assert forall|k: int| 0 <= k < cur.len() implies exists|j: int|
            0 <= j < n && crate::completion_words::builtin_allowed(ctx, bs[j]) && #[trigger] cur[k]
                == crate::completion_words::builtin_item(bs[j], j, paren, range) by {
            if k < prev.len() {
                assert(cur[k] == prev[k]);
                let j = choose|j: int|
                    0 <= j < n - 1 && crate::completion_words::builtin_allowed(ctx, bs[j]) && #[trigger] prev[k]
                        == crate::completion_words::builtin_item(bs[j], j, paren, range);
                assert(0 <= j < n);
            } else {
                assert(cur[k] == crate::completion_words::builtin_item(bs[n - 1], n - 1, paren, range));
            }
        }
    }
}

} // verus!
