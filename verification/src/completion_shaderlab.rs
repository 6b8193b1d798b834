//! Completion in the ShaderLab part of a Unity shader (outside its HLSL
//! blocks): property declarations, render state commands, tags and block
//! templates.
use vstd::prelude::*;
use crate::completion::{items_view, sort_key, sort_key_string, CompletionItem, ItemModel};
use crate::render_states::eq_ignore_case;
use crate::semantics::pairs_view;
use crate::shaderlab_tables::{
    block_snippets, block_snippets_table, color_defaults, color_defaults_table, common_properties,
    common_properties_table, number_defaults, number_defaults_table, property_attributes, property_attributes_table,
    property_keyword_snippets, property_keyword_snippets_table, property_types, property_types_table, quads_of,
    render_states, render_states_table, shaderlab_keywords, shaderlab_keywords_table, state_triggers,
    state_triggers_table, tag_descriptions, tag_descriptions_table, texture_defaults, texture_defaults_table,
    types_after_comma, types_after_comma_table, vector_defaults, vector_defaults_table,
};
use crate::splits::{split_on, trim_start_set, words};
use crate::strops::{contains, count_char, ends_with, find, rfind, starts_with, trim, trim_end, trim_start};
use crate::tags::{key_index, tag_table, trim_junk, unquote};
use crate::text::{opt_view, push_str, range_string, str_string};
use crate::word_tables::{strs_of, triples_of};

verus! {

/// An item that inserts its text at the cursor (no text edit).
pub open spec fn plain(
    label: Seq<char>,
    kind: u8,
    detail: Seq<char>,
    insert: Seq<char>,
    fmt: Option<u8>,
    filter: Option<Seq<char>>,
    sort: Seq<char>,
) -> ItemModel {
    ItemModel {
        label,
        kind,
        detail,
        documentation: seq![],
        insert_text: insert,
        insert_text_format: fmt,
        range: None,
        sort_text: sort,
        filter_text: filter,
    }
}

/// The items of a table of default values (value, description).
pub open spec fn value_items(t: Seq<(Seq<char>, Seq<char>)>) -> Seq<ItemModel> {
    Seq::new(t.len(), |i: int| plain(t[i].0, 12, t[i].1, t[i].0, None, None, sort_key("00"@, i as nat, 2, t[i].0)))
}

/// The bounds written in `Range(min, max)` in `s`, trimmed; `0.0` and `1.0`
/// when `s` does not hold exactly two of them.
pub open spec fn range_bounds(s: Seq<char>) -> (Seq<char>, Seq<char>) {
    match find(s, "Range("@) {
        Some(o) => match find(s.subrange(o, s.len() as int), seq![')']) {
            Some(c) => {
                let ps = split_on(s.subrange(o + 6, o + c), ',');
                if ps.len() == 2 {
                    (trim(ps[0]), trim(ps[1]))
                } else {
                    ("0.0"@, "1.0"@)
                }
            },
            None => ("0.0"@, "1.0"@),
        },
        None => ("0.0"@, "1.0"@),
    }
}

/// The values offered for a `Range` property: its minimum, its maximum and
/// the midpoint `0.5`.
pub open spec fn range_default_items(before: Seq<char>) -> Seq<ItemModel> {
    let (lo, hi) = range_bounds(before);
    seq![
        plain(lo, 12, "Range minimum value ("@ + lo + ")"@, lo, None, None, "00_00_min"@),
        plain(hi, 12, "Range maximum value ("@ + hi + ")"@, hi, None, None, "00_01_max"@),
        plain("0.5"@, 12, "Range midpoint (0.5)"@, "0.5"@, None, None, "00_02_mid"@),
    ]
}

/// The default values offered after the `=` of a property declaration,
/// by the property type written before it (`before`).
pub open spec fn default_items(before: Seq<char>) -> Seq<ItemModel> {
    if contains(before, "Color"@) {
        value_items(color_defaults_table())
    } else if contains(before, "Vector"@) {
        value_items(vector_defaults_table())
    } else if contains(before, "2D"@) || contains(before, "Cube"@) || contains(before, "3D"@) || contains(
        before,
        "2DArray"@,
    ) {
        value_items(texture_defaults_table())
    } else if contains(before, "Float"@) || contains(before, "Integer"@) || contains(before, "Int"@) {
        value_items(number_defaults_table())
    } else if contains(before, "Range"@) {
        range_default_items(before)
    } else {
        seq![]
    }
}

/// The attributes offered while an attribute is typed: an open `[` before
/// the cursor gets only the rest (and the `]` unless one follows the
/// cursor); otherwise the whole `[...]`.
pub open spec fn attribute_items(prefix: Seq<char>, after: Seq<char>) -> Seq<ItemModel> {
    let unclosed = match rfind(prefix, "["@) {
        Some(i) => !contains(prefix.subrange(i, prefix.len() as int), "]"@),
        None => false,
    };
    let closing = starts_with(trim_start(after), "]"@);
    let t = property_attributes_table();
    Seq::new(
        t.len(),
        |i: int|
            plain(
                "["@ + t[i].0 + "]"@,
                15,
                t[i].2,
                if unclosed {
                    if closing {
                        t[i].1
                    } else {
                        t[i].1 + "]"@
                    }
                } else {
                    "["@ + t[i].1 + "]"@
                },
                Some(2),
                None,
                sort_key("00"@, i as nat, 2, t[i].0),
            ),
    )
}

/// The property types offered after the display name of a declaration.
pub open spec fn type_items() -> Seq<ItemModel> {
    let t = types_after_comma_table();
    Seq::new(t.len(), |i: int| plain(t[i].0, 7, t[i].2, t[i].1, Some(2), None, sort_key("00"@, i as nat, 2, t[i].0)))
}

/// The property snippets, by keyword.
pub open spec fn keyword_snippet_items() -> Seq<ItemModel> {
    let ks = property_keyword_snippets_table();
    Seq::new(ks.len(), |i: int| plain(ks[i].0, 15, ks[i].2, ks[i].1, Some(2), None, sort_key("03"@, i as nat, 2, ks[i].0)))
}

/// The common property templates.
pub open spec fn common_property_items() -> Seq<ItemModel> {
    let cs = common_properties_table();
    Seq::new(cs.len(), |i: int| plain(cs[i].0, 15, cs[i].2, cs[i].1, None, None, sort_key("05"@, i as nat, 2, cs[i].0)))
}

/// The property types, with the template that follows a name already
/// written when `named`.
pub open spec fn property_type_items(named: bool) -> Seq<ItemModel> {
    let ts = property_types_table();
    Seq::new(
        ts.len(),
        |i: int|
            plain(
                ts[i].0,
                7,
                ts[i].3,
                if named {
                    ts[i].2
                } else {
                    ts[i].1
                },
                Some(2),
                None,
                sort_key("10"@, i as nat, 2, ts[i].0),
            ),
    )
}

/// The attributes, each as a whole `[...]`.
pub open spec fn standalone_attribute_items() -> Seq<ItemModel> {
    let ats = property_attributes_table();
    Seq::new(
        ats.len(),
        |i: int|
            plain("["@ + ats[i].0 + "]"@, 15, ats[i].2, "["@ + ats[i].1 + "]"@, Some(2), None, sort_key("15"@, i as nat, 2, ats[i].0)),
    )
}

/// Whole property declarations offered in a `Properties` block: the
/// keyword snippets, the common properties, the property types (without
/// the name when the line already starts with `_`) and the attributes.
pub open spec fn property_menu(prefix: Seq<char>) -> Seq<ItemModel> {
    keyword_snippet_items() + common_property_items() + property_type_items(starts_with(trim_start(prefix), "_"@))
        + standalone_attribute_items()
}

/// The completion of line `line` at character index `k` inside a
/// `Properties` block.
pub open spec fn properties_completion(line: Seq<char>, k: int) -> Seq<ItemModel> {
    let prefix = line.take(k);
    let defaults = match rfind(prefix, "="@) {
        Some(e) => default_items(line.take(e)),
        None => seq![],
    };
    if defaults.len() > 0 {
        defaults
    } else if starts_with(trim_start(prefix), "["@) || contains(prefix, "["@) {
        attribute_items(prefix, line.subrange(k, line.len() as int))
    } else if (match rfind(prefix, ","@) {
        Some(c) => {
            let b = trim(prefix.take(c));
            ends_with(b, "\""@) && contains(b, "("@)
        },
        None => false,
    }) {
        type_items()
    } else {
        property_menu(prefix)
    }
}

/// The items that answer a `ZCull` (the command is `Cull`, depth clipping
/// is `ZClip`).
pub open spec fn zcull_items() -> Seq<ItemModel> {
    seq![
        plain(
            "Cull Back (ZCull -> Cull)"@,
            12,
            "Unity ShaderLab uses 'Cull' for polygon culling and 'ZClip' for depth clipping"@,
            "Cull Back"@,
            None,
            None,
            "00_00_cull_back"@,
        ),
        plain("Cull Front"@, 12, "Culls front-facing polygons (renders back faces)"@, "Cull Front"@, None, None, "00_01_cull_front"@),
        plain("Cull Off"@, 12, "Disables polygon culling (double-sided)"@, "Cull Off"@, None, None, "00_02_cull_off"@),
        plain(
            "ZClip False"@,
            12,
            "Disables depth clipping (clamps near/far depth planes)"@,
            "ZClip False"@,
            None,
            None,
            "00_03_zclip_false"@,
        ),
    ]
}

/// `t` starts with `zcull`, ignoring ASCII case.
pub open spec fn is_zcull(t: Seq<char>) -> bool {
    t.len() >= 5 && eq_ignore_case(t.take(5), "zcull"@)
}

/// The first command word from index `i` on that `t` starts with.
pub open spec fn trigger_index(t: Seq<char>, i: int) -> Option<int>
    decreases state_triggers_table().len() - i,
{
    if 0 <= i < state_triggers_table().len() {
        if starts_with(t, state_triggers_table()[i].0) {
            Some(i)
        } else {
            trigger_index(t, i + 1)
        }
    } else {
        None
    }
}

/// `v` without the prefix `p`, or `v` when it does not start with `p`.
pub open spec fn strip_prefix_or(v: Seq<char>, p: Seq<char>) -> Seq<char> {
    if starts_with(v, p) {
        v.subrange(p.len() as int, v.len() as int)
    } else {
        v
    }
}

/// The render states of category `cat` among the first `n` entries of the
/// table, numbered in order; after a space only the value is inserted.
pub open spec fn category_items(cat: Seq<char>, spaced: bool, n: int) -> Seq<ItemModel>
    decreases n,
{
    if n <= 0 {
        seq![]
    } else {
        let prev = category_items(cat, spaced, n - 1);
        let e = render_states_table()[n - 1];
        if e.0 == cat {
            prev.push(
                plain(
                    e.1,
                    12,
                    e.2,
                    if spaced {
                        strip_prefix_or(e.1, cat + " "@)
                    } else {
                        e.1
                    },
                    None,
                    None,
                    sort_key("00"@, prev.len(), 2, e.1),
                ),
            )
        } else {
            prev
        }
    }
}

/// The values of the known tag key number `ki`, offered after its `=`
/// (`after_eq` is what follows the `=`, `after` what follows the cursor).
pub open spec fn tag_value_items(ki: int, after_eq: Seq<char>, after: Seq<char>) -> Seq<ItemModel> {
    let key = tag_table()[ki].0;
    let vals = tag_table()[ki].1;
    let quoted = starts_with(trim_start(after_eq), "\""@);
    let closing = starts_with(trim_start(after), "\""@);
    Seq::new(
        vals.len(),
        |i: int|
            plain(
                vals[i],
                12,
                key + ": "@ + tag_descriptions_table()[ki],
                if quoted && closing {
                    unquote(vals[i])
                } else if quoted {
                    unquote(vals[i]) + "\""@
                } else {
                    vals[i]
                },
                None,
                Some(unquote(vals[i])),
                sort_key("00"@, i as nat, 2, unquote(vals[i])),
            ),
    )
}

/// The tag key written before a `=` (`before`, trimmed): the text between
/// its last two quotes, else its last word, trimmed of braces, quotes and
/// whitespace.
pub open spec fn value_key(before: Seq<char>) -> Seq<char> {
    let ps = split_on(before, '"');
    let ws = words(before);
    let key = if ps.len() >= 2 {
        ps[ps.len() - 2]
    } else if ws.len() > 0 {
        ws.last()
    } else {
        before
    };
    trim_junk(trim(trim_start_set(key, seq!['{'])))
}

/// The values offered inside a tag value: after a `=` followed by fewer
/// than two quotes, when the key before it is a known tag key.
pub open spec fn tag_value_completion(prefix: Seq<char>, after: Seq<char>) -> Option<Seq<ItemModel>> {
    match rfind(prefix, "="@) {
        Some(e) => {
            let after_eq = prefix.subrange(e + 1, prefix.len() as int);
            let before = trim(prefix.take(e));
            let ck = value_key(before);
            if count_char(after_eq, '"') < 2 && ck.len() > 0 && !contains(before, "\"\""@) {
                match key_index(ck, 0) {
                    Some(ki) => Some(tag_value_items(ki, after_eq, after)),
                    None => None,
                }
            } else {
                None
            }
        },
        None => None,
    }
}

/// The tag keys, quoted as needed, and then (unless a `=` follows the
/// cursor) a whole `"Key" = "Value"` template for each.
pub open spec fn tag_key_items(prefix: Seq<char>, after: Seq<char>) -> Seq<ItemModel> {
    let t = tag_table();
    let d = tag_descriptions_table();
    let ws = words(prefix);
    let token = if ws.len() > 0 {
        ws.last()
    } else {
        seq![]
    };
    let sq = starts_with(token, "\""@) || ends_with(trim_end(prefix), "\""@);
    let closing = starts_with(trim_start(after), "\""@);
    let keys = Seq::new(
        t.len(),
        |i: int|
            plain(
                "\""@ + t[i].0 + "\""@,
                10,
                "Tag: "@ + d[i],
                if sq && closing {
                    t[i].0
                } else if sq {
                    t[i].0 + "\""@
                } else {
                    "\""@ + t[i].0 + "\""@
                },
                None,
                Some(
                    if sq {
                        "\""@ + t[i].0 + "\""@
                    } else {
                        t[i].0
                    },
                ),
                sort_key("00"@, i as nat, 2, t[i].0),
            ),
    );
    let templates = Seq::new(
        t.len(),
        |i: int|
            {
                let dv = if t[i].1.len() > 0 {
                    unquote(t[i].1[0])
                } else {
                    "Opaque"@
                };
                plain(
                    "\""@ + t[i].0 + "\" = \""@ + dv + "\""@,
                    15,
                    "Snippet: "@ + d[i],
                    if sq {
                        t[i].0 + "\" = \"${1:"@ + dv + "}\""@
                    } else {
                        "\""@ + t[i].0 + "\" = \"${1:"@ + dv + "}\""@
                    },
                    Some(2),
                    Some(
                        if sq {
                            "\""@ + t[i].0 + "\""@
                        } else {
                            t[i].0
                        },
                    ),
                    sort_key("01"@, i as nat, 2, t[i].0),
                )
            },
    );
    if contains(after, "="@) {
        keys
    } else {
        keys + templates
    }
}

/// A keyword left out of the ShaderLab keyword list.
pub open spec fn hlsl_only_keyword(k: Seq<char>) -> bool {
    k == "float"@ || k == "float4"@ || k == "cbuffer"@ || k == "struct"@ || k == "return"@
}

/// The keywords among the first `n`, numbered in order.
pub open spec fn keyword_items(n: int) -> Seq<ItemModel>
    decreases n,
{
    if n <= 0 {
        seq![]
    } else {
        let prev = keyword_items(n - 1);
        let k = shaderlab_keywords_table()[n - 1];
        if hlsl_only_keyword(k) {
            prev
        } else {
            prev.push(plain(k, 14, seq![], k, None, None, sort_key("15"@, prev.len(), 2, k)))
        }
    }
}

/// The depth-state categories, listed first for a lone `z`.
pub open spec fn is_depth_category(c: Seq<char>) -> bool {
    c == "ZWrite"@ || c == "ZTest"@ || c == "ZClip"@
}

/// Everything offered in a SubShader or Pass: the render states, the
/// keywords and the block templates (the 2D templates first in a 2D
/// shader).
pub open spec fn general_items(t: Seq<char>, is_2d: bool) -> Seq<ItemModel> {
    let zq = eq_ignore_case(t, "z"@);
    let rs = render_states_table();
    let sn = block_snippets_table();
    Seq::new(
        rs.len(),
        |i: int|
            plain(
                rs[i].1,
                12,
                rs[i].2,
                rs[i].1,
                None,
                None,
                sort_key(
                    if zq && is_depth_category(rs[i].0) {
                        "00"@
                    } else {
                        "08"@
                    },
                    i as nat,
                    2,
                    rs[i].1,
                ),
            ),
    ) + keyword_items(shaderlab_keywords_table().len() as int) + Seq::new(
        sn.len(),
        |i: int|
            plain(
                sn[i].0,
                15,
                sn[i].1,
                sn[i].2,
                Some(2),
                None,
                sort_key(
                    if is_2d && (sn[i].0 == "sprite"@ || sn[i].0 == "ui"@) {
                        "25"@
                    } else {
                        "30"@
                    },
                    i as nat,
                    2,
                    sn[i].0,
                ),
            ),
    )
}

/// The completion of line `line` at character index `k` in a SubShader or
/// Pass (`in_tags`: the line is inside a `Tags` block; `is_2d`: the shader
/// is a 2D one).
pub open spec fn commands_completion(line: Seq<char>, k: int, in_tags: bool, is_2d: bool) -> Seq<ItemModel> {
    let prefix = line.take(k);
    let after = line.subrange(k, line.len() as int);
    let t = trim(prefix);
    let n = render_states_table().len() as int;
    if is_zcull(t) {
        zcull_items()
    } else {
        match trigger_index(t, 0) {
            Some(i) => category_items(state_triggers_table()[i].1, contains(t, " "@), n),
            None => if starts_with(t, "Pass "@) {
                category_items("Pass"@, true, n)
            } else if starts_with(t, "Fail"@) {
                category_items("Fail"@, contains(t, " "@), n)
            } else if starts_with(t, "ZFail"@) {
                category_items("ZFail"@, contains(t, " "@), n)
            } else if contains(line, "Tags"@) || in_tags {
                match tag_value_completion(prefix, after) {
                    Some(items) => items,
                    None => tag_key_items(prefix, after),
                }
            } else {
                general_items(t, is_2d)
            },
        }
    }
}

/// The completion of line `line` at character index `k` in the ShaderLab
/// part of a shader.
pub open spec fn shaderlab_completion(line: Seq<char>, k: int, in_props: bool, in_tags: bool, is_2d: bool) -> Seq<
    ItemModel,
> {
    if in_props {
        properties_completion(line, k)
    } else {
        commands_completion(line, k, in_tags, is_2d)
    }
}

/// Appends a `plain` item.
fn push_plain(
    out: &mut Vec<CompletionItem>,
    label: String,
    kind: u8,
    detail: String,
    insert: String,
    fmt: Option<u8>,
    filter: Option<String>,
    sort: String,
)
    ensures
        items_view(final(out)@) == items_view(old(out)@).push(
            plain(label@, kind, detail@, insert@, fmt, opt_view(filter), sort@),
        ),
{
    let it = CompletionItem {
        label,
        kind,
        detail,
        documentation: String::new(),
        insert_text: insert,
        insert_text_format: fmt,
        range: None,
        sort_text: sort,
        filter_text: filter,
    };
    let ghost iv = it@;
    let ghost before = items_view(out@);
    out.push(it);
    proof {
        assert(iv.documentation =~= Seq::<char>::empty());
        assert(items_view(out@) =~= before.push(iv));
    }
}

/// The items of a table of default values.
fn value_items_exec(t: &Vec<(&'static str, &'static str)>) -> (r: Vec<CompletionItem>)
    ensures
        items_view(r@) == value_items(pairs_view(t@)),
{
    let ghost tv = pairs_view(t@);
    let mut out: Vec<CompletionItem> = Vec::new();
    let mut i: usize = 0;
    while i < t.len()
        invariant
            tv == pairs_view(t@),
            i <= t@.len(),
            items_view(out@) == value_items(tv).take(i as int),
        decreases t.len() - i,
    {
        let (val, desc) = t[i];
        proof {
            assert(tv[i as int] == (val@, desc@));
        }
        push_plain(&mut out, str_string(val), 12, str_string(desc), str_string(val), None, None, sort_key_string("00", i, 2, val));
        proof {
            assert(value_items(tv).take(i + 1) =~= value_items(tv).take(i as int).push(value_items(tv)[i as int]));
        }
        i = i + 1;
    }
    proof {
        assert(value_items(tv).take(tv.len() as int) =~= value_items(tv));
    }
    out
}

/// `range_bounds(v[..e])` at run time.
fn range_bounds_exec(v: &[char], e: usize) -> (r: (String, String))
    requires
        e <= v@.len(),
    ensures
        (r.0@, r.1@) == range_bounds(v@.take(e as int)),
{
    let ghost s = v@.take(e as int);
    proof {
        assert(v@.subrange(0, e as int) =~= s);
    }
    let o = match crate::strops::find_str(v, 0, e, "Range(") {
        Some(o) => o,
        None => return (str_string("0.0"), str_string("1.0")),
    };
    proof {
        crate::cursor::lemma_find_from_ge(s, "Range("@, 0);
        reveal_strlit("Range(");
        assert(s.subrange(o as int, s.len() as int) =~= v@.subrange(o as int, e as int));
    }
    let c = match crate::strops::find_char(v, o, e, ')') {
        Some(c) => c,
        None => return (str_string("0.0"), str_string("1.0")),
    };
    proof {
        if c < 6 {
            assert(s.subrange(o as int, o + 6)[c as int] == "Range("@[c as int]);
            assert(v@[o + c] == ')');
        }
        assert(s.subrange(o + 6, o + c) =~= v@.subrange(o + 6, o + c));
    }
    let rs = crate::splits::split_ranges(v, o + 6, o + c, ',');
    if rs.len() == 2 {
        let (a0, b0) = crate::strops::trim_range(v, rs[0].0, rs[0].1);
        let (a1, b1) = crate::strops::trim_range(v, rs[1].0, rs[1].1);
        (range_string(v, a0, b0), range_string(v, a1, b1))
    } else {
        (str_string("0.0"), str_string("1.0"))
    }
}

/// `default_items(v[..e])` at run time.
fn default_items_exec(v: &[char], e: usize) -> (r: Vec<CompletionItem>)
    requires
        e <= v@.len(),
    ensures
        items_view(r@) == default_items(v@.take(e as int)),
{
    proof {
        assert(v@.subrange(0, e as int) =~= v@.take(e as int));
    }
    if crate::strops::contains_str(v, 0, e, "Color") {
        value_items_exec(&color_defaults())
    } else if crate::strops::contains_str(v, 0, e, "Vector") {
        value_items_exec(&vector_defaults())
    } else if crate::strops::contains_str(v, 0, e, "2D") || crate::strops::contains_str(v, 0, e, "Cube")
        || crate::strops::contains_str(v, 0, e, "3D") || crate::strops::contains_str(v, 0, e, "2DArray") {
        value_items_exec(&texture_defaults())
    } else if crate::strops::contains_str(v, 0, e, "Float") || crate::strops::contains_str(v, 0, e, "Integer")
        || crate::strops::contains_str(v, 0, e, "Int") {
        value_items_exec(&number_defaults())
    } else if crate::strops::contains_str(v, 0, e, "Range") {
        let (lo, hi) = range_bounds_exec(v, e);
        let mut out: Vec<CompletionItem> = Vec::new();
        let mut d0 = str_string("Range minimum value (");
        push_str(&mut d0, lo.as_str());
        push_str(&mut d0, ")");
        push_plain(&mut out, lo.clone(), 12, d0, lo, None, None, str_string("00_00_min"));
        let mut d1 = str_string("Range maximum value (");
        push_str(&mut d1, hi.as_str());
        push_str(&mut d1, ")");
        push_plain(&mut out, hi.clone(), 12, d1, hi, None, None, str_string("00_01_max"));
        push_plain(&mut out, str_string("0.5"), 12, str_string("Range midpoint (0.5)"), str_string("0.5"), None, None, str_string("00_02_mid"));
        proof {
            assert(items_view(out@) =~= range_default_items(v@.take(e as int)));
        }
        out
    } else {
        let out: Vec<CompletionItem> = Vec::new();
        proof {
            assert(items_view(out@) =~= Seq::<ItemModel>::empty());
        }
        out
    }
}

/// `attribute_items(v[..k], v[k..])` at run time.
fn attribute_items_exec(v: &[char], k: usize) -> (r: Vec<CompletionItem>)
    requires
        k <= v@.len(),
    ensures
        items_view(r@) == attribute_items(v@.take(k as int), v@.subrange(k as int, v@.len() as int)),
{
    let ghost prefix = v@.take(k as int);
    let ghost after = v@.subrange(k as int, v@.len() as int);
    proof {
        assert(v@.subrange(0, k as int) =~= prefix);
    }
    let unclosed = match crate::strops::rfind_str(v, 0, k, "[") {
        Some(i) => {
            proof {
                assert(prefix.subrange(i as int, prefix.len() as int) =~= v@.subrange(i as int, k as int));
            }
            !crate::strops::contains_str(v, i, k, "]")
        },
        None => false,
    };
    let st = crate::strops::trim_start_range(v, k, v.len());
    let closing = crate::strops::starts_with_str(v, st, v.len(), "]");
    let t = property_attributes();
    let ghost tv = triples_of(t@);
    let ghost want = attribute_items(prefix, after);
    let mut out: Vec<CompletionItem> = Vec::new();
    let mut i: usize = 0;
    while i < t.len()
        invariant
            tv == triples_of(t@),
            tv == property_attributes_table(),
            want == attribute_items(prefix, after),
            unclosed == (match rfind(prefix, "["@) {
                Some(i) => !contains(prefix.subrange(i, prefix.len() as int), "]"@),
                None => false,
            }),
            closing == starts_with(trim_start(after), "]"@),
            i <= t@.len(),
            items_view(out@) == want.take(i as int),
        decreases t.len() - i,
    {
        let (name, snip, desc) = t[i];
        proof {
            assert(tv[i as int] == (name@, snip@, desc@));
        }
        let mut label = str_string("[");
        push_str(&mut label, name);
        push_str(&mut label, "]");
        let insert = if unclosed {
            if closing {
                str_string(snip)
            } else {
                let mut x = str_string(snip);
                push_str(&mut x, "]");
                x
            }
        } else {
            let mut x = str_string("[");
            push_str(&mut x, snip);
            push_str(&mut x, "]");
            x
        };
        push_plain(&mut out, label, 15, str_string(desc), insert, Some(2), None, sort_key_string("00", i, 2, name));
        proof {
            assert(want.take(i + 1) =~= want.take(i as int).push(want[i as int]));
        }
        i = i + 1;
    }
    proof {
        assert(want.take(tv.len() as int) =~= want);
    }
    out
}

/// `type_items()` at run time.
fn type_items_exec() -> (r: Vec<CompletionItem>)
    ensures
        items_view(r@) == type_items(),
{
    let t = types_after_comma();
    let ghost tv = triples_of(t@);
    let ghost want = type_items();
    let mut out: Vec<CompletionItem> = Vec::new();
    let mut i: usize = 0;
    while i < t.len()
        invariant
            tv == triples_of(t@),
            tv == types_after_comma_table(),
            want == type_items(),
            i <= t@.len(),
            items_view(out@) == want.take(i as int),
        decreases t.len() - i,
    {
        let (ty, snip, desc) = t[i];
        proof {
            assert(tv[i as int] == (ty@, snip@, desc@));
        }
        push_plain(&mut out, str_string(ty), 7, str_string(desc), str_string(snip), Some(2), None, sort_key_string("00", i, 2, ty));
        proof {
            assert(want.take(i + 1) =~= want.take(i as int).push(want[i as int]));
        }
        i = i + 1;
    }
    proof {
        assert(want.take(tv.len() as int) =~= want);
    }
    out
}

/// Appends `keyword_snippet_items()`.
fn push_keyword_snippet_items(out: &mut Vec<CompletionItem>)
    ensures
        items_view(final(out)@) == items_view(old(out)@) + keyword_snippet_items(),
{
    let t = property_keyword_snippets();
    let ghost tv = triples_of(t@);
    let ghost want = keyword_snippet_items();
    let ghost base = items_view(out@);
    let mut i: usize = 0;
    while i < t.len()
        invariant
            tv == triples_of(t@),
            tv == property_keyword_snippets_table(),
            want == keyword_snippet_items(),
            base == items_view(old(out)@),
            i <= t@.len(),
            items_view(out@) == base + want.take(i as int),
        decreases t.len() - i,
    {
        let (kw, snip, desc) = t[i];
        proof {
            assert(tv[i as int] == (kw@, snip@, desc@));
        }
        push_plain(out, str_string(kw), 15, str_string(desc), str_string(snip), Some(2), None, sort_key_string("03", i, 2, kw));
        proof {
            assert(want.take(i + 1) =~= want.take(i as int).push(want[i as int]));
        }
        i = i + 1;
    }
    proof {
        assert(want.take(tv.len() as int) =~= want);
    }
}

/// Appends `common_property_items()`.
fn push_common_property_items(out: &mut Vec<CompletionItem>)
    ensures
        items_view(final(out)@) == items_view(old(out)@) + common_property_items(),
{
    let t = common_properties();
    let ghost tv = triples_of(t@);
    let ghost want = common_property_items();
    let ghost base = items_view(out@);
    let mut i: usize = 0;
    while i < t.len()
        invariant
            tv == triples_of(t@),
            tv == common_properties_table(),
            want == common_property_items(),
            base == items_view(old(out)@),
            i <= t@.len(),
            items_view(out@) == base + want.take(i as int),
        decreases t.len() - i,
    {
        let (label, snip, desc) = t[i];
        proof {
            assert(tv[i as int] == (label@, snip@, desc@));
        }
        push_plain(out, str_string(label), 15, str_string(desc), str_string(snip), None, None, sort_key_string("05", i, 2, label));
        proof {
            assert(want.take(i + 1) =~= want.take(i as int).push(want[i as int]));
        }
        i = i + 1;
    }
    proof {
        assert(want.take(tv.len() as int) =~= want);
    }
}

/// Appends `property_type_items(named)`.
fn push_property_type_items(out: &mut Vec<CompletionItem>, named: bool)
    ensures
        items_view(final(out)@) == items_view(old(out)@) + property_type_items(named),
{
    let t = property_types();
    let ghost tv = quads_of(t@);
    let ghost want = property_type_items(named);
    let ghost base = items_view(out@);
    let mut i: usize = 0;
    while i < t.len()
        invariant
            tv == quads_of(t@),
            tv == property_types_table(),
            want == property_type_items(named),
            base == items_view(old(out)@),
            i <= t@.len(),
            items_view(out@) == base + want.take(i as int),
        decreases t.len() - i,
    {
        let (ty, full, rest, desc) = t[i];
        proof {
            assert(tv[i as int] == (ty@, full@, rest@, desc@));
        }
        let snip = if named {
            rest
        } else {
            full
        };
        push_plain(out, str_string(ty), 7, str_string(desc), str_string(snip), Some(2), None, sort_key_string("10", i, 2, ty));
        proof {
            assert(want.take(i + 1) =~= want.take(i as int).push(want[i as int]));
        }
        i = i + 1;
    }
    proof {
        assert(want.take(tv.len() as int) =~= want);
    }
}

/// Appends `standalone_attribute_items()`.
fn push_standalone_attribute_items(out: &mut Vec<CompletionItem>)
    ensures
        items_view(final(out)@) == items_view(old(out)@) + standalone_attribute_items(),
{
    let t = property_attributes();
    let ghost tv = triples_of(t@);
    let ghost want = standalone_attribute_items();
    let ghost base = items_view(out@);
    let mut i: usize = 0;
    while i < t.len()
        invariant
            tv == triples_of(t@),
            tv == property_attributes_table(),
            want == standalone_attribute_items(),
            base == items_view(old(out)@),
            i <= t@.len(),
            items_view(out@) == base + want.take(i as int),
        decreases t.len() - i,
    {
        let (name, snip, desc) = t[i];
        proof {
            assert(tv[i as int] == (name@, snip@, desc@));
        }
        let mut label = str_string("[");
        push_str(&mut label, name);
        push_str(&mut label, "]");
        let mut insert = str_string("[");
        push_str(&mut insert, snip);
        push_str(&mut insert, "]");
        push_plain(out, label, 15, str_string(desc), insert, Some(2), None, sort_key_string("15", i, 2, name));
        proof {
            assert(want.take(i + 1) =~= want.take(i as int).push(want[i as int]));
        }
        i = i + 1;
    }
    proof {
        assert(want.take(tv.len() as int) =~= want);
    }
}

/// `properties_completion(v, k)` at run time.
fn properties_completion_exec(v: &[char], k: usize) -> (r: Vec<CompletionItem>)
    requires
        k <= v@.len(),
    ensures
        items_view(r@) == properties_completion(v@, k as int),
{
    let ghost prefix = v@.take(k as int);
    proof {
        assert(v@.subrange(0, k as int) =~= prefix);
    }
    match crate::strops::rfind_str(v, 0, k, "=") {
        Some(e) => {
            proof {
                assert(prefix.take(e as int) =~= v@.take(e as int));
            }
            let d = default_items_exec(v, e);
            if d.len() > 0 {
                return d;
            }
        },
        None => {},
    }
    let ts = crate::strops::trim_start_range(v, 0, k);
    if crate::strops::starts_with_str(v, ts, k, "[") || crate::strops::contains_str(v, 0, k, "[") {
        return attribute_items_exec(v, k);
    }
    let after_comma = match crate::strops::rfind_str(v, 0, k, ",") {
        Some(c) => {
            let (ba, bb) = crate::strops::trim_range(v, 0, c);
            proof {
                assert(prefix.take(c as int) =~= v@.subrange(0, c as int));
            }
            crate::strops::ends_with_str(v, ba, bb, "\"") && crate::strops::contains_str(v, ba, bb, "(")
        },
        None => false,
    };
    if after_comma {
        return type_items_exec();
    }
    let named = crate::strops::starts_with_str(v, ts, k, "_");
    let mut out: Vec<CompletionItem> = Vec::new();
    proof {
        assert(items_view(out@) =~= Seq::<ItemModel>::empty());
    }
    push_keyword_snippet_items(&mut out);
    push_common_property_items(&mut out);
    push_property_type_items(&mut out, named);
    push_standalone_attribute_items(&mut out);
    proof {
        assert(items_view(out@) =~= property_menu(prefix));
    }
    out
}

/// Whether the characters of `s` are those of `lit`.
fn str_is(s: &str, lit: &str) -> (r: bool)
    ensures
        r == (s@ == lit@),
{
    let c = crate::text::to_chars(s);
    proof {
        assert(c@.subrange(0, c@.len() as int) =~= c@);
    }
    crate::strops::eq_str(c.as_slice(), 0, c.len(), lit)
}

/// `zcull_items()` at run time.
fn zcull_items_exec() -> (r: Vec<CompletionItem>)
    ensures
        items_view(r@) == zcull_items(),
{
    let mut out: Vec<CompletionItem> = Vec::new();
    push_plain(
        &mut out,
        str_string("Cull Back (ZCull -> Cull)"),
        12,
        str_string("Unity ShaderLab uses 'Cull' for polygon culling and 'ZClip' for depth clipping"),
        str_string("Cull Back"),
        None,
        None,
        str_string("00_00_cull_back"),
    );
    push_plain(
        &mut out,
        str_string("Cull Front"),
        12,
        str_string("Culls front-facing polygons (renders back faces)"),
        str_string("Cull Front"),
        None,
        None,
        str_string("00_01_cull_front"),
    );
    push_plain(
        &mut out,
        str_string("Cull Off"),
        12,
        str_string("Disables polygon culling (double-sided)"),
        str_string("Cull Off"),
        None,
        None,
        str_string("00_02_cull_off"),
    );
    push_plain(
        &mut out,
        str_string("ZClip False"),
        12,
        str_string("Disables depth clipping (clamps near/far depth planes)"),
        str_string("ZClip False"),
        None,
        None,
        str_string("00_03_zclip_false"),
    );
    proof {
        assert(items_view(out@) =~= zcull_items());
    }
    out
}

/// `trigger_index(v[ta..tb], 0)` at run time.
fn trigger_index_exec(v: &[char], ta: usize, tb: usize, t: &Vec<(&'static str, &'static str)>) -> (r: Option<usize>)
    requires
        ta <= tb <= v@.len(),
        pairs_view(t@) == state_triggers_table(),
    ensures
        crate::strops::oi(r) == trigger_index(v@.subrange(ta as int, tb as int), 0),
        r matches Some(i) ==> i < t@.len(),
{
    let ghost ts = v@.subrange(ta as int, tb as int);
    let mut i: usize = 0;
    while i < t.len()
        invariant
            ta <= tb <= v@.len(),
            ts == v@.subrange(ta as int, tb as int),
            pairs_view(t@) == state_triggers_table(),
            i <= t@.len(),
            trigger_index(ts, 0) == trigger_index(ts, i as int),
        decreases t.len() - i,
    {
        let (trig, _cat) = t[i];
        proof {
            assert(state_triggers_table()[i as int] == (trig@, _cat@));
        }
        if crate::strops::starts_with_str(v, ta, tb, trig) {
            return Some(i);
        }
        i = i + 1;
    }
    None
}

/// `category_items(cat@, spaced, n)` for the whole table, at run time.
fn category_items_exec(cat: &str, spaced: bool) -> (r: Vec<CompletionItem>)
    ensures
        items_view(r@) == category_items(cat@, spaced, render_states_table().len() as int),
{
    let t = render_states();
    let ghost tv = triples_of(t@);
    let mut sep = str_string(cat);
    push_str(&mut sep, " ");
    let sepc = crate::text::to_chars(sep.as_str());
    let mut out: Vec<CompletionItem> = Vec::new();
    proof {
        assert(items_view(out@) =~= Seq::<ItemModel>::empty());
    }
    let mut i: usize = 0;
    while i < t.len()
        invariant
            tv == triples_of(t@),
            tv == render_states_table(),
            sepc@ == cat@ + " "@,
            sep@ == cat@ + " "@,
            i <= t@.len(),
            items_view(out@) == category_items(cat@, spaced, i as int),
        decreases t.len() - i,
    {
        let (c, val, desc) = t[i];
        proof {
            assert(tv[i as int] == (c@, val@, desc@));
        }
        if str_is(c, cat) {
            let insert = if spaced {
                let vc = crate::text::to_chars(val);
                proof {
                    assert(vc@.subrange(0, vc@.len() as int) =~= vc@);
                }
                if crate::strops::starts_with_str(vc.as_slice(), 0, vc.len(), sep.as_str()) {
                    range_string(vc.as_slice(), sepc.len(), vc.len())
                } else {
                    str_string(val)
                }
            } else {
                str_string(val)
            };
            let n = out.len();
            push_plain(&mut out, str_string(val), 12, str_string(desc), insert, None, None, sort_key_string("00", n, 2, val));
        }
        i = i + 1;
    }
    out
}

/// Whether `c` is a depth-state category.
fn depth_category_exec(c: &str) -> (r: bool)
    ensures
        r == is_depth_category(c@),
{
    str_is(c, "ZWrite") || str_is(c, "ZTest") || str_is(c, "ZClip")
}

/// Whether `k` is left out of the ShaderLab keyword list.
fn hlsl_only_keyword_exec(k: &str) -> (r: bool)
    ensures
        r == hlsl_only_keyword(k@),
{
    str_is(k, "float") || str_is(k, "float4") || str_is(k, "cbuffer") || str_is(k, "struct") || str_is(k, "return")
}

/// `general_items(v[ta..tb], is_2d)` at run time.
fn general_items_exec(v: &[char], ta: usize, tb: usize, is_2d: bool) -> (r: Vec<CompletionItem>)
    requires
        ta <= tb <= v@.len(),
    ensures
        items_view(r@) == general_items(v@.subrange(ta as int, tb as int), is_2d),
{
    let ghost tt = v@.subrange(ta as int, tb as int);
    let zq = crate::render_states::eq_ignore_case_str(v, ta, tb, "z");
    let rs = render_states();
    let ghost rv = triples_of(rs@);
    let ghost part1 = Seq::new(
        rv.len(),
        |i: int|
            plain(
                rv[i].1,
                12,
                rv[i].2,
                rv[i].1,
                None,
                None,
                sort_key(
                    if zq && is_depth_category(rv[i].0) {
                        "00"@
                    } else {
                        "08"@
                    },
                    i as nat,
                    2,
                    rv[i].1,
                ),
            ),
    );
    let mut out: Vec<CompletionItem> = Vec::new();
    let mut i: usize = 0;
    while i < rs.len()
        invariant
            rv == triples_of(rs@),
            rv == render_states_table(),
            zq == eq_ignore_case(tt, "z"@),
            part1 == Seq::new(
                rv.len(),
                |i: int|
                    plain(
                        rv[i].1,
                        12,
                        rv[i].2,
                        rv[i].1,
                        None,
                        None,
                        sort_key(
                            if zq && is_depth_category(rv[i].0) {
                                "00"@
                            } else {
                                "08"@
                            },
                            i as nat,
                            2,
                            rv[i].1,
                        ),
                    ),
            ),
            i <= rs@.len(),
            items_view(out@) == part1.take(i as int),
        decreases rs.len() - i,
    {
        let (c, val, desc) = rs[i];
        proof {
            assert(rv[i as int] == (c@, val@, desc@));
        }
        let group = if zq && depth_category_exec(c) {
            "00"
        } else {
            "08"
        };
        push_plain(&mut out, str_string(val), 12, str_string(desc), str_string(val), None, None, sort_key_string(group, i, 2, val));
        proof {
            assert(part1.take(i + 1) =~= part1.take(i as int).push(part1[i as int]));
        }
        i = i + 1;
    }
    proof {
        assert(part1.take(rv.len() as int) =~= part1);
    }
    let kws = shaderlab_keywords();
    let ghost kv = strs_of(kws@);
    let mut j: usize = 0;
    while j < kws.len()
        invariant
            kv == strs_of(kws@),
            kv == shaderlab_keywords_table(),
            i == rv.len(),
            part1.len() == rv.len(),
            j <= kws@.len(),
            items_view(out@) == part1 + keyword_items(j as int),
        decreases kws.len() - j,
    {
        let kw = kws[j];
        proof {
            assert(kv[j as int] == kw@);
        }
        if !hlsl_only_keyword_exec(kw) {
            let ghost before = items_view(out@);
            proof {
                assert(before.len() == part1.len() + keyword_items(j as int).len());
                assert(before.len() == out@.len());
            }
            let n = out.len() - i;
            let empty = String::new();
            proof {
                assert(empty@ =~= Seq::<char>::empty());
            }
            push_plain(&mut out, str_string(kw), 14, empty, str_string(kw), None, None, sort_key_string("15", n, 2, kw));
            proof {
                assert(items_view(out@) =~= part1 + keyword_items(j + 1));
            }
        } else {
            proof {
                assert(keyword_items(j + 1) == keyword_items(j as int));
            }
        }
        j = j + 1;
    }
    let sn = block_snippets();
    let ghost sv = triples_of(sn@);
    let ghost part3 = Seq::new(
        sv.len(),
        |i: int|
            plain(
                sv[i].0,
                15,
                sv[i].1,
                sv[i].2,
                Some(2),
                None,
                sort_key(
                    if is_2d && (sv[i].0 == "sprite"@ || sv[i].0 == "ui"@) {
                        "25"@
                    } else {
                        "30"@
                    },
                    i as nat,
                    2,
                    sv[i].0,
                ),
            ),
    );
    let ghost base = items_view(out@);
    let mut m: usize = 0;
    while m < sn.len()
        invariant
            sv == triples_of(sn@),
            sv == block_snippets_table(),
            part3 == Seq::new(
                sv.len(),
                |i: int|
                    plain(
                        sv[i].0,
                        15,
                        sv[i].1,
                        sv[i].2,
                        Some(2),
                        None,
                        sort_key(
                            if is_2d && (sv[i].0 == "sprite"@ || sv[i].0 == "ui"@) {
                                "25"@
                            } else {
                                "30"@
                            },
                            i as nat,
                            2,
                            sv[i].0,
                        ),
                    ),
            ),
            m <= sn@.len(),
            items_view(out@) == base + part3.take(m as int),
        decreases sn.len() - m,
    {
        let (label, detail, snip) = sn[m];
        proof {
            assert(sv[m as int] == (label@, detail@, snip@));
        }
        let group = if is_2d && (str_is(label, "sprite") || str_is(label, "ui")) {
            "25"
        } else {
            "30"
        };
        push_plain(&mut out, str_string(label), 15, str_string(detail), str_string(snip), Some(2), None, sort_key_string(group, m, 2, label));
        proof {
            assert(part3.take(m + 1) =~= part3.take(m as int).push(part3[m as int]));
        }
        m = m + 1;
    }
    proof {
        assert(part3.take(sv.len() as int) =~= part3);
        assert(items_view(out@) =~= general_items(tt, is_2d));
    }
    out
}

/// Bounds (absolute) of `value_key(v[ba..bb])`.
fn value_key_range(v: &[char], ba: usize, bb: usize) -> (r: (usize, usize))
    requires
        ba <= bb <= v@.len(),
    ensures
        r.0 <= r.1 <= v@.len(),
        v@.subrange(r.0 as int, r.1 as int) == value_key(v@.subrange(ba as int, bb as int)),
{
    let ghost before = v@.subrange(ba as int, bb as int);
    let ps = crate::splits::split_ranges(v, ba, bb, '"');
    let (ka, kb) = if ps.len() >= 2 {
        let n = ps.len();
        proof {
            assert(crate::splits::ranges_within(ps@, ba as int, bb as int));
            assert(v@.subrange(ps@[n - 2].0 as int, ps@[n - 2].1 as int) == split_on(before, '"')[n - 2]);
        }
        ps[n - 2]
    } else {
        let ws = crate::splits::word_ranges(v, ba, bb);
        if ws.len() > 0 {
            let n = ws.len();
            proof {
                assert(v@.subrange(ws@[n - 1].0 as int, ws@[n - 1].1 as int) == words(before)[n - 1]);
            }
            ws[n - 1]
        } else {
            (ba, bb)
        }
    };
    proof {
        assert(ka <= kb <= v@.len()) by {
            if ps@.len() >= 2 {
                assert(crate::splits::ranges_within(ps@, ba as int, bb as int));
            }
        }
    }
    let set = ['{'];
    proof {
        assert(seq!['{'] =~= set@);
    }
    let k2 = crate::splits::trim_start_set_range(v, ka, kb, &set);
    let (k3, k4) = crate::strops::trim_range(v, k2, kb);
    crate::tags::trim_junk_range(v, k3, k4)
}

/// `unquote(s@)` as a string.
fn unquote_string(s: &str) -> (r: String)
    ensures
        r@ == unquote(s@),
{
    let c = crate::text::to_chars(s);
    let (a, b) = crate::tags::unquote_range(c.as_slice());
    range_string(c.as_slice(), a, b)
}

/// `tag_value_items(ki, v[ea..k], v[k..])` at run time.
fn tag_value_items_exec(
    table: &Vec<(&'static str, Vec<&'static str>)>,
    ki: usize,
    v: &[char],
    ea: usize,
    k: usize,
) -> (r: Vec<CompletionItem>)
    requires
        crate::tags::table_view(table@) == tag_table(),
        ki < tag_table().len(),
        ea <= k <= v@.len(),
    ensures
        items_view(r@) == tag_value_items(
            ki as int,
            v@.subrange(ea as int, k as int),
            v@.subrange(k as int, v@.len() as int),
        ),
{
    let ghost after_eq = v@.subrange(ea as int, k as int);
    let ghost after = v@.subrange(k as int, v@.len() as int);
    let ghost want = tag_value_items(ki as int, after_eq, after);
    let descs = tag_descriptions();
    proof {
        reveal(tag_descriptions_table);
        assert(tag_descriptions_table().len() == tag_table().len());
        assert(strs_of(descs@).len() == descs@.len());
        assert(strs_of(descs@)[ki as int] == descs@[ki as int]@);
    }
    let key = table[ki].0;
    let vals = &table[ki].1;
    let desc = descs[ki];
    proof {
        assert(tag_table()[ki as int].0 == key@);
        assert(tag_table()[ki as int].1 == vals@.map_values(|s: &str| s@));
    }
    let qa = crate::strops::trim_start_range(v, ea, k);
    let quoted = crate::strops::starts_with_str(v, qa, k, "\"");
    let ca = crate::strops::trim_start_range(v, k, v.len());
    let closing = crate::strops::starts_with_str(v, ca, v.len(), "\"");
    let mut detail = str_string(key);
    push_str(&mut detail, ": ");
    push_str(&mut detail, desc);
    let mut out: Vec<CompletionItem> = Vec::new();
    let mut i: usize = 0;
    while i < vals.len()
        invariant
            ki < tag_table().len(),
            tag_table()[ki as int].0 == key@,
            tag_table()[ki as int].1 == vals@.map_values(|s: &str| s@),
            tag_descriptions_table()[ki as int] == desc@,
            detail@ == key@ + ": "@ + desc@,
            quoted == starts_with(trim_start(after_eq), "\""@),
            closing == starts_with(trim_start(after), "\""@),
            want == tag_value_items(ki as int, after_eq, after),
            i <= vals@.len(),
            items_view(out@) == want.take(i as int),
        decreases vals.len() - i,
    {
        let val = vals[i];
        proof {
            assert(tag_table()[ki as int].1[i as int] == val@);
        }
        let cv = unquote_string(val);
        let insert = if quoted && closing {
            cv.clone()
        } else if quoted {
            let mut x = cv.clone();
            push_str(&mut x, "\"");
            x
        } else {
            str_string(val)
        };
        let sort = sort_key_string("00", i, 2, cv.as_str());
        push_plain(&mut out, str_string(val), 12, detail.clone(), insert, None, Some(cv), sort);
        proof {
            assert(want.take(i + 1) =~= want.take(i as int).push(want[i as int]));
        }
        i = i + 1;
    }
    proof {
        assert(want.take(vals@.len() as int) =~= want);
    }
    out
}

/// `tag_value_completion(v[..k], v[k..])` at run time.
fn tag_value_completion_exec(v: &[char], k: usize) -> (r: Option<Vec<CompletionItem>>)
    requires
        k <= v@.len(),
    ensures
        match tag_value_completion(v@.take(k as int), v@.subrange(k as int, v@.len() as int)) {
            Some(items) => r matches Some(rv) && items_view(rv@) == items,
            None => r is None,
        },
{
    let ghost prefix = v@.take(k as int);
    proof {
        assert(v@.subrange(0, k as int) =~= prefix);
    }
    let e = match crate::strops::rfind_str(v, 0, k, "=") {
        Some(e) => e,
        None => return None,
    };
    proof {
        reveal_strlit("=");
        assert(prefix.subrange(e + 1, prefix.len() as int) =~= v@.subrange(e + 1, k as int));
        assert(prefix.take(e as int) =~= v@.subrange(0, e as int));
    }
    let q = crate::strops::count_char_in(v, e + 1, k, '"');
    let (ba, bb) = crate::strops::trim_range(v, 0, e);
    let (ca, cb) = value_key_range(v, ba, bb);
    if q < 2 && ca < cb && !crate::strops::contains_str(v, ba, bb, "\"\"") {
        let table = crate::tags::tag_keys_and_values();
        match crate::tags::key_index_exec(v, ca, cb, &table) {
            Some(ki) => Some(tag_value_items_exec(&table, ki, v, e + 1, k)),
            None => None,
        }
    } else {
        None
    }
}

/// `tag_key_items(v[..k], v[k..])` at run time.
fn tag_key_items_exec(v: &[char], k: usize) -> (r: Vec<CompletionItem>)
    requires
        k <= v@.len(),
    ensures
        items_view(r@) == tag_key_items(v@.take(k as int), v@.subrange(k as int, v@.len() as int)),
{
    let ghost prefix = v@.take(k as int);
    let ghost after = v@.subrange(k as int, v@.len() as int);
    let ghost t = tag_table();
    let ghost d = tag_descriptions_table();
    proof {
        assert(v@.subrange(0, k as int) =~= prefix);
        reveal_strlit("\"");
    }
    let ws = crate::splits::word_ranges(v, 0, k);
    let starts_quoted = if ws.len() > 0 {
        let n = ws.len();
        proof {
            assert(v@.subrange(ws@[n - 1].0 as int, ws@[n - 1].1 as int) == words(prefix)[n - 1]);
        }
        crate::strops::starts_with_str(v, ws[n - 1].0, ws[n - 1].1, "\"")
    } else {
        false
    };
    let te = crate::strops::trim_end_range(v, 0, k);
    let sq = starts_quoted || crate::strops::ends_with_str(v, 0, te, "\"");
    let ca = crate::strops::trim_start_range(v, k, v.len());
    let closing = crate::strops::starts_with_str(v, ca, v.len(), "\"");
    let table = crate::tags::tag_keys_and_values();
    let descs = tag_descriptions();
    proof {
        reveal(tag_descriptions_table);
        assert(d.len() == t.len());
        assert(strs_of(descs@).len() == descs@.len());
    }
    let ghost keys = Seq::new(
        t.len(),
        |i: int|
            plain(
                "\""@ + t[i].0 + "\""@,
                10,
                "Tag: "@ + d[i],
                if sq && closing {
                    t[i].0
                } else if sq {
                    t[i].0 + "\""@
                } else {
                    "\""@ + t[i].0 + "\""@
                },
                None,
                Some(
                    if sq {
                        "\""@ + t[i].0 + "\""@
                    } else {
                        t[i].0
                    },
                ),
                sort_key("00"@, i as nat, 2, t[i].0),
            ),
    );
    let ghost templates = Seq::new(
        t.len(),
        |i: int|
            {
                let dv = if t[i].1.len() > 0 {
                    unquote(t[i].1[0])
                } else {
                    "Opaque"@
                };
                plain(
                    "\""@ + t[i].0 + "\" = \""@ + dv + "\""@,
                    15,
                    "Snippet: "@ + d[i],
                    if sq {
                        t[i].0 + "\" = \"${1:"@ + dv + "}\""@
                    } else {
                        "\""@ + t[i].0 + "\" = \"${1:"@ + dv + "}\""@
                    },
                    Some(2),
                    Some(
                        if sq {
                            "\""@ + t[i].0 + "\""@
                        } else {
                            t[i].0
                        },
                    ),
                    sort_key("01"@, i as nat, 2, t[i].0),
                )
            },
    );
    proof {
        assert(sq == (starts_with(if words(prefix).len() > 0 {
            words(prefix).last()
        } else {
            seq![]
        }, "\""@) || ends_with(trim_end(prefix), "\""@)));
    }
    let mut out: Vec<CompletionItem> = Vec::new();
    let mut i: usize = 0;
    while i < table.len()
        invariant
            crate::tags::table_view(table@) == t,
            t == tag_table(),
            d == tag_descriptions_table(),
            strs_of(descs@) == d,
            d.len() == t.len(),
            i <= table@.len(),
            keys == Seq::new(
                t.len(),
                |i: int|
                    plain(
                        "\""@ + t[i].0 + "\""@,
                        10,
                        "Tag: "@ + d[i],
                        if sq && closing {
                            t[i].0
                        } else if sq {
                            t[i].0 + "\""@
                        } else {
                            "\""@ + t[i].0 + "\""@
                        },
                        None,
                        Some(
                            if sq {
                                "\""@ + t[i].0 + "\""@
                            } else {
                                t[i].0
                            },
                        ),
                        sort_key("00"@, i as nat, 2, t[i].0),
                    ),
            ),
            items_view(out@) == keys.take(i as int),
        decreases table.len() - i,
    {
        let key = table[i].0;
        let desc = descs[i];
        proof {
            assert(t[i as int].0 == key@);
            assert(d[i as int] == desc@);
        }
        let mut label = str_string("\"");
        push_str(&mut label, key);
        push_str(&mut label, "\"");
        let insert = if sq && closing {
            str_string(key)
        } else if sq {
            let mut x = str_string(key);
            push_str(&mut x, "\"");
            x
        } else {
            label.clone()
        };
        let filter = if sq {
            label.clone()
        } else {
            str_string(key)
        };
        let mut detail = str_string("Tag: ");
        push_str(&mut detail, desc);
        push_plain(&mut out, label, 10, detail, insert, None, Some(filter), sort_key_string("00", i, 2, key));
        proof {
            assert(keys.take(i + 1) =~= keys.take(i as int).push(keys[i as int]));
        }
        i = i + 1;
    }
    proof {
        assert(keys.take(t.len() as int) =~= keys);
    }
    if crate::strops::contains_str(v, k, v.len(), "=") {
        return out;
    }
    let ghost base = items_view(out@);
    let mut j: usize = 0;
    while j < table.len()
        invariant
            crate::tags::table_view(table@) == t,
            t == tag_table(),
            d == tag_descriptions_table(),
            strs_of(descs@) == d,
            d.len() == t.len(),
            j <= table@.len(),
            templates == Seq::new(
                t.len(),
                |i: int|
                    {
                        let dv = if t[i].1.len() > 0 {
                            unquote(t[i].1[0])
                        } else {
                            "Opaque"@
                        };
                        plain(
                            "\""@ + t[i].0 + "\" = \""@ + dv + "\""@,
                            15,
                            "Snippet: "@ + d[i],
                            if sq {
                                t[i].0 + "\" = \"${1:"@ + dv + "}\""@
                            } else {
                                "\""@ + t[i].0 + "\" = \"${1:"@ + dv + "}\""@
                            },
                            Some(2),
                            Some(
                                if sq {
                                    "\""@ + t[i].0 + "\""@
                                } else {
                                    t[i].0
                                },
                            ),
                            sort_key("01"@, i as nat, 2, t[i].0),
                        )
                    },
            ),
            items_view(out@) == base + templates.take(j as int),
        decreases table.len() - j,
    {
        let key = table[j].0;
        let vals = &table[j].1;
        let desc = descs[j];
        proof {
            assert(t[j as int].0 == key@);
            assert(t[j as int].1 == vals@.map_values(|s: &str| s@));
            assert(d[j as int] == desc@);
        }
        let dv = if vals.len() > 0 {
            proof {
                assert(t[j as int].1[0] == vals@[0]@);
            }
            unquote_string(vals[0])
        } else {
            str_string("Opaque")
        };
        let mut label = str_string("\"");
        push_str(&mut label, key);
        push_str(&mut label, "\" = \"");
        push_str(&mut label, dv.as_str());
        push_str(&mut label, "\"");
        let mut insert = if sq {
            str_string(key)
        } else {
            let mut x = str_string("\"");
            push_str(&mut x, key);
            x
        };
        push_str(&mut insert, "\" = \"${1:");
        push_str(&mut insert, dv.as_str());
        push_str(&mut insert, "}\"");
        let filter = if sq {
            let mut x = str_string("\"");
            push_str(&mut x, key);
            push_str(&mut x, "\"");
            x
        } else {
            str_string(key)
        };
        let mut detail = str_string("Snippet: ");
        push_str(&mut detail, desc);
        push_plain(&mut out, label, 15, detail, insert, Some(2), Some(filter), sort_key_string("01", j, 2, key));
        proof {
            assert(templates.take(j + 1) =~= templates.take(j as int).push(templates[j as int]));
        }
        j = j + 1;
    }
    proof {
        assert(templates.take(t.len() as int) =~= templates);
    }
    out
}

/// `commands_completion(v, k, in_tags, is_2d)` at run time.
fn commands_completion_exec(v: &[char], k: usize, in_tags: bool, is_2d: bool) -> (r: Vec<CompletionItem>)
    requires
        k <= v@.len(),
    ensures
        items_view(r@) == commands_completion(v@, k as int, in_tags, is_2d),
{
    let ghost prefix = v@.take(k as int);
    proof {
        assert(v@.subrange(0, k as int) =~= prefix);
    }
    let (ta, tb) = crate::strops::trim_range(v, 0, k);
    let ghost t = v@.subrange(ta as int, tb as int);
    if tb - ta >= 5 && crate::render_states::eq_ignore_case_str(v, ta, ta + 5, "zcull") {
        proof {
            assert(t.take(5) =~= v@.subrange(ta as int, ta + 5));
        }
        return zcull_items_exec();
    }
    proof {
        if tb - ta >= 5 {
            assert(t.take(5) =~= v@.subrange(ta as int, ta + 5));
        }
    }
    let spaced = crate::strops::contains_str(v, ta, tb, " ");
    let triggers = state_triggers();
    match trigger_index_exec(v, ta, tb, &triggers) {
        Some(i) => {
            let (_trig, cat) = triggers[i];
            proof {
                assert(state_triggers_table()[i as int] == (_trig@, cat@));
            }
            return category_items_exec(cat, spaced);
        },
        None => {},
    }
    proof {
        assert(v@.subrange(0, v@.len() as int) =~= v@);
    }
    let tags_line = crate::strops::contains_str(v, 0, v.len(), "Tags") || in_tags;
    if crate::strops::starts_with_str(v, ta, tb, "Pass ") {
        category_items_exec("Pass", true)
    } else if crate::strops::starts_with_str(v, ta, tb, "Fail") {
        category_items_exec("Fail", spaced)
    } else if crate::strops::starts_with_str(v, ta, tb, "ZFail") {
        category_items_exec("ZFail", spaced)
    } else if tags_line {
        match tag_value_completion_exec(v, k) {
            Some(items) => items,
            None => tag_key_items_exec(v, k),
        }
    } else {
        general_items_exec(v, ta, tb, is_2d)
    }
}

/// The completions offered at character index `k` of the line `line` in
/// the ShaderLab part of a Unity shader: `in_props` tells that the line is
/// inside the `Properties` block, `in_tags` that it is inside a `Tags`
/// block, `is_2d` that the shader is a 2D one.
pub fn shaderlab_completions(line: &[char], k: usize, in_props: bool, in_tags: bool, is_2d: bool) -> (r: Vec<
    CompletionItem,
>)
    requires
        k <= line@.len(),
    ensures
        items_view(r@) == shaderlab_completion(line@, k as int, in_props, in_tags, is_2d),
{
    if in_props {
        properties_completion_exec(line, k)
    } else {
        commands_completion_exec(line, k, in_tags, is_2d)
    }
}

} // verus!
