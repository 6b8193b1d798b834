//! Checks of the ShaderLab `Properties` block and of the `CBUFFER` that a
//! URP shader needs for it.
//!
//! Two checks compare floating-point values (the limits of a `Range` and a
//! default against them); they are returned as findings with the numbers'
//! text, for the caller to compare.
use vstd::prelude::*;
use crate::cursor::{is_identifier_range, valid_identifier};
use crate::diagnostics::{diags_view, find_col, find_col_exec, line_diag, on_line, piece_span, range_blen, DiagModel, Diagnostic};
use crate::lists::{param_list};
use crate::numbers::{decimal, decimal_string, float_literal, is_float_literal};
use crate::props::close_paren_from;
use crate::render_states::{eq_ignore_case, eq_ignore_case_str};
use crate::splits::{before_any, before_any_range, lines, lines_of, ranges_hold, ranges_within, split_on, split_ranges, trim_end_set, trim_end_set_range, trim_set, words, word_ranges};
use crate::strops::{
    contains, contains_char, contains_str, count_char, count_char_in, ends_with, ends_with_char, eq_str, find,
    find_char, rfind, rfind_char, starts_with, starts_with_char, starts_with_str, trim, trim_range,
};
use crate::text::{blen, lemma_blen_subrange, push_range, push_str, range_string, str_string};

verus! {

/// The views of a vector of string slices.
pub open spec fn strs_view(v: Seq<&str>) -> Seq<Seq<char>> {
    v.map_values(|s: &str| s@)
}

/// The ShaderLab property types.
pub open spec fn valid_types_list() -> Seq<Seq<char>> {
    seq!["Color"@, "Vector"@, "Float"@, "Int"@, "Integer"@, "Range"@, "2D"@, "3D"@, "Cube"@, "2DArray"@, "Rect"@]
}

fn valid_types_exec() -> (r: Vec<&'static str>)
    ensures
        strs_view(r@) == valid_types_list(),
{
    let r = vec!["Color", "Vector", "Float", "Int", "Integer", "Range", "2D", "3D", "Cube", "2DArray", "Rect"];
    proof {
        assert(r@[0]@ == valid_types_list()[0]);
        assert(r@[1]@ == valid_types_list()[1]);
        assert(r@[2]@ == valid_types_list()[2]);
        assert(r@[3]@ == valid_types_list()[3]);
        assert(r@[4]@ == valid_types_list()[4]);
        assert(r@[5]@ == valid_types_list()[5]);
        assert(r@[6]@ == valid_types_list()[6]);
        assert(r@[7]@ == valid_types_list()[7]);
        assert(r@[8]@ == valid_types_list()[8]);
        assert(r@[9]@ == valid_types_list()[9]);
        assert(r@[10]@ == valid_types_list()[10]);
        assert(strs_view(r@) =~= valid_types_list());
    }
    r
}

/// The ShaderLab property attributes.
pub open spec fn known_attrs_list() -> Seq<Seq<char>> {
    seq!["MainColor"@, "MainTexture"@, "HDR"@, "HideInInspector"@, "NoScaleOffset"@, "Normal"@, "SingleLineTexture"@, "PerRendererData"@, "MaterialToggle"@, "Toggle"@, "KeywordEnum"@, "Enum"@, "Space"@, "Header"@, "IntRange"@, "Tooltip"@]
}

fn known_attrs_exec() -> (r: Vec<&'static str>)
    ensures
        strs_view(r@) == known_attrs_list(),
{
    let r = vec!["MainColor", "MainTexture", "HDR", "HideInInspector", "NoScaleOffset", "Normal", "SingleLineTexture", "PerRendererData", "MaterialToggle", "Toggle", "KeywordEnum", "Enum", "Space", "Header", "IntRange", "Tooltip"];
    proof {
        assert(r@[0]@ == known_attrs_list()[0]);
        assert(r@[1]@ == known_attrs_list()[1]);
        assert(r@[2]@ == known_attrs_list()[2]);
        assert(r@[3]@ == known_attrs_list()[3]);
        assert(r@[4]@ == known_attrs_list()[4]);
        assert(r@[5]@ == known_attrs_list()[5]);
        assert(r@[6]@ == known_attrs_list()[6]);
        assert(r@[7]@ == known_attrs_list()[7]);
        assert(r@[8]@ == known_attrs_list()[8]);
        assert(r@[9]@ == known_attrs_list()[9]);
        assert(r@[10]@ == known_attrs_list()[10]);
        assert(r@[11]@ == known_attrs_list()[11]);
        assert(r@[12]@ == known_attrs_list()[12]);
        assert(r@[13]@ == known_attrs_list()[13]);
        assert(r@[14]@ == known_attrs_list()[14]);
        assert(r@[15]@ == known_attrs_list()[15]);
        assert(strs_view(r@) =~= known_attrs_list());
    }
    r
}

/// The texture property types.
pub open spec fn texture_types_list() -> Seq<Seq<char>> {
    seq!["2D"@, "3D"@, "Cube"@, "2DArray"@, "Rect"@]
}

fn texture_types_exec() -> (r: Vec<&'static str>)
    ensures
        strs_view(r@) == texture_types_list(),
{
    let r = vec!["2D", "3D", "Cube", "2DArray", "Rect"];
    proof {
        assert(r@[0]@ == texture_types_list()[0]);
        assert(r@[1]@ == texture_types_list()[1]);
        assert(r@[2]@ == texture_types_list()[2]);
        assert(r@[3]@ == texture_types_list()[3]);
        assert(r@[4]@ == texture_types_list()[4]);
        assert(strs_view(r@) =~= texture_types_list());
    }
    r
}

/// The built-in texture names a texture default may give.
pub open spec fn builtin_textures_list() -> Seq<Seq<char>> {
    seq!["white"@, "black"@, "gray"@, "bump"@, "red"@, ""@, "_Skybox"@]
}

fn builtin_textures_exec() -> (r: Vec<&'static str>)
    ensures
        strs_view(r@) == builtin_textures_list(),
{
    let r = vec!["white", "black", "gray", "bump", "red", "", "_Skybox"];
    proof {
        assert(r@[0]@ == builtin_textures_list()[0]);
        assert(r@[1]@ == builtin_textures_list()[1]);
        assert(r@[2]@ == builtin_textures_list()[2]);
        assert(r@[3]@ == builtin_textures_list()[3]);
        assert(r@[4]@ == builtin_textures_list()[4]);
        assert(r@[5]@ == builtin_textures_list()[5]);
        assert(r@[6]@ == builtin_textures_list()[6]);
        assert(strs_view(r@) =~= builtin_textures_list());
    }
    r
}

/// What the check of a `Properties` block reports: a diagnostic, or one of
/// the two comparisons of floating-point values it leaves to the caller.
#[derive(Debug, Clone)]
pub enum PropertyFinding {
    /// A diagnostic.
    Report(Diagnostic),
    /// A `Range(min, max)` whose limits both parse as numbers: an error at
    /// `start..end` of `line` when `min` is greater than `max`.
    RangeLimits { line: usize, start: usize, end: usize, name: String, min: String, max: String },
    /// A numeric default of a `Range(min, max)` property whose limits both
    /// parse: a warning at `start..end` of `line` when `min` is not greater
    /// than `max` and the value lies outside them.
    RangeDefault {
        line: usize,
        start: usize,
        end: usize,
        name: String,
        value: String,
        min: String,
        max: String,
    },
}

/// What a `PropertyFinding` holds.
pub enum FindingModel {
    Report(DiagModel),
    RangeLimits { line: int, start: int, end: int, name: Seq<char>, min: Seq<char>, max: Seq<char> },
    RangeDefault {
        line: int,
        start: int,
        end: int,
        name: Seq<char>,
        value: Seq<char>,
        min: Seq<char>,
        max: Seq<char>,
    },
}

impl View for PropertyFinding {
    type V = FindingModel;

    open spec fn view(&self) -> FindingModel {
        match self {
            PropertyFinding::Report(d) => FindingModel::Report(d@),
            PropertyFinding::RangeLimits { line, start, end, name, min, max } => FindingModel::RangeLimits {
                line: *line as int,
                start: *start as int,
                end: *end as int,
                name: name@,
                min: min@,
                max: max@,
            },
            PropertyFinding::RangeDefault { line, start, end, name, value, min, max } => FindingModel::RangeDefault {
                line: *line as int,
                start: *start as int,
                end: *end as int,
                name: name@,
                value: value@,
                min: min@,
                max: max@,
            },
        }
    }
}

/// The views of a vector of findings.
pub open spec fn findings_view(v: Seq<PropertyFinding>) -> Seq<FindingModel> {
    v.map_values(|f: PropertyFinding| f@)
}

/// A ShaderLab diagnostic on one line.
pub open spec fn rep(line: int, start: int, end: int, severity: u8, message: Seq<char>) -> FindingModel {
    FindingModel::Report(on_line(line, start, end, severity, message, "shaderlab"@))
}

/// A property declared so far: its name, type, line and column.
pub struct PropEntry {
    pub name: Seq<char>,
    pub p_type: Seq<char>,
    pub line: int,
    pub col: int,
}

/// Byte column of the last `c` of `raw`, or `dflt`.
pub open spec fn rfind_col_or(raw: Seq<char>, c: char, dflt: int) -> int {
    match rfind(raw, seq![c]) {
        Some(k) => blen(raw.take(k)) as int,
        None => dflt,
    }
}

/// `n - 1`, or 0.
pub open spec fn minus_one(n: int) -> int {
    if n >= 1 {
        n - 1
    } else {
        0
    }
}

/// The leading `[...]` attributes of a declaration: what follows them,
/// whether one is left unclosed, and their comma-separated entries.
pub open spec fn split_attrs(s: Seq<char>) -> (Seq<char>, bool, Seq<Seq<char>>)
    decreases s.len(),
{
    if starts_with(s, seq!['[']) {
        match find(s, seq![']']) {
            Some(eb) => if 1 <= eb < s.len() {
                proof {
                    crate::strops::lemma_trim_len(s.subrange(eb + 1, s.len() as int));
                }
                let inner = param_list(trim(s.subrange(1, eb)), false);
                let r = split_attrs(trim(s.subrange(eb + 1, s.len() as int)));
                (r.0, r.1, inner + r.2)
            } else {
                (s, false, seq![])
            },
            None => (s, true, seq![]),
        }
    } else {
        (s, false, seq![])
    }
}

/// The suggestion added to an unknown property type.
pub open spec fn type_suggestion(base: Seq<char>) -> Seq<char> {
    if base == "float4"@ || base == "half4"@ || base == "Vector4"@ || base == "Vector3"@ || base == "float3"@ {
        " Did you mean 'Vector' or 'Color'?"@
    } else if base == "Texture"@ || base == "Texture2D"@ || base == "sampler2D"@ {
        " Did you mean '2D'?"@
    } else if base == "TextureCube"@ || base == "samplerCUBE"@ {
        " Did you mean 'Cube'?"@
    } else if base == "bool"@ || base == "Boolean"@ {
        " ShaderLab has no 'bool' property type. Use 'Float' with a [Toggle] attribute."@
    } else if base == "float"@ || base == "half"@ || base == "double"@ {
        " Did you mean 'Float'?"@
    } else if base == "int"@ || base == "uint"@ {
        " Did you mean 'Int'?"@
    } else if base == "float4x4"@ || base == "Matrix"@ || base == "matrix"@ {
        " ShaderLab Properties block does not support matrices (float4x4). Declare it in HLSL cbuffer and set via C# material.SetMatrix()."@
    } else if contains(base, seq!['[']) || contains(base, "Array"@) {
        " ShaderLab Properties block does not support arrays. Declare the array in HLSL and set via C# material.SetFloatArray() / material.SetMatrixArray()."@
    } else {
        " Valid ShaderLab types: Color, Float, Int, Range(min, max), 2D, 3D, Cube, 2DArray, Vector, Rect."@
    }
}

/// The typo hint for an unknown attribute.
pub open spec fn attr_hint(a: Seq<char>) -> Seq<char> {
    if eq_ignore_case(a, "MainColour"@) {
        " Did you mean '[MainColor]'?"@
    } else if eq_ignore_case(a, "MainTex"@) {
        " Did you mean '[MainTexture]'?"@
    } else {
        Seq::empty()
    }
}

/// The message on an attribute that does not fit the property's type, if
/// any.
pub open spec fn attr_mismatch(a: Seq<char>, base: Seq<char>, name: Seq<char>, p_type: Seq<char>) -> Option<Seq<char>> {
    let tail = name + "' is of type '"@ + p_type + "'."@;
    if a == "Normal"@ && base != "2D"@ {
        Some("[Normal] attribute can only be applied to 2D texture properties, but '"@ + tail)
    } else if a == "HDR"@ && base != "Color"@ {
        Some("[HDR] attribute can only be applied to Color properties, but '"@ + tail)
    } else if a == "IntRange"@ && base != "Range"@ {
        Some("[IntRange] attribute can only be applied to Range properties, but '"@ + tail)
    } else if (a == "SingleLineTexture"@ || a == "NoScaleOffset"@) && !texture_types_list().contains(base) {
        Some("["@ + a + "] attribute can only be applied to texture properties (2D, 3D, Cube), but '"@ + tail)
    } else if a == "MainColor"@ && base != "Color"@ {
        Some("[MainColor] attribute is intended for Color properties, but '"@ + tail)
    } else if a == "MainTexture"@ && base != "2D"@ {
        Some("[MainTexture] attribute is intended for 2D texture properties, but '"@ + tail)
    } else {
        None
    }
}

/// The diagnostics of the attributes from index `k` on.
pub open spec fn attr_findings(
    attrs: Seq<Seq<char>>,
    k: int,
    raw: Seq<char>,
    idx: int,
    col: int,
    base: Seq<char>,
    name: Seq<char>,
    p_type: Seq<char>,
) -> Seq<FindingModel>
    decreases attrs.len() - k,
{
    if 0 <= k < attrs.len() {
        let a = trim(before_any(attrs[k], seq!['(']));
        let ca = find_col(raw, a, col);
        let unknown = if !known_attrs_list().contains(a) {
            seq![rep(idx, ca, ca + blen(a), 2, "Unknown ShaderLab attribute '["@ + a + "]'."@ + attr_hint(a))]
        } else {
            Seq::<FindingModel>::empty()
        };
        let mismatch = match attr_mismatch(a, base, name, p_type) {
            Some(m) => seq![rep(idx, ca, ca + blen(a), 2, m)],
            None => Seq::<FindingModel>::empty(),
        };
        unknown + mismatch + attr_findings(attrs, k + 1, raw, idx, col, base, name, p_type)
    } else {
        seq![]
    }
}

/// The entries of a `Range(..)` type, each trimmed.
pub open spec fn range_parts(p_type: Seq<char>) -> Option<Seq<Seq<char>>> {
    match find(p_type, seq!['(']) {
        Some(ro) => match find(p_type.subrange(ro, p_type.len() as int), seq![')']) {
            Some(rc) => Some(split_on(p_type.subrange(ro + 1, ro + rc), ',').map_values(|x: Seq<char>| trim(x))),
            None => None,
        },
        None => None,
    }
}

/// The range limits of a `Range(min, max)` type when both parse as numbers.
pub open spec fn numeric_limits(base: Seq<char>, p_type: Seq<char>) -> Option<(Seq<char>, Seq<char>)> {
    if base == "Range"@ && contains(p_type, seq!['(']) && contains(p_type, seq![')']) {
        match range_parts(p_type) {
            Some(ps) => if ps.len() == 2 && float_literal(ps[0]) && float_literal(ps[1]) {
                Some((ps[0], ps[1]))
            } else {
                None
            },
            None => None,
        }
    } else {
        None
    }
}

/// The findings on the limits of a `Range` property.
pub open spec fn range_findings(raw: Seq<char>, idx: int, col: int, base: Seq<char>, name: Seq<char>, p_type: Seq<char>) -> Seq<FindingModel> {
    let ct = find_col(raw, p_type, col);
    let ce = ct + blen(p_type);
    if base != "Range"@ {
        seq![]
    } else if !contains(p_type, seq!['(']) || !contains(p_type, seq![')']) {
        seq![
            rep(
                idx,
                ct,
                ce,
                1,
                "Range property '"@ + name + "' requires min and max limits: Range(min, max). Example: Range(0.0, 1.0)"@,
            ),
        ]
    } else {
        match range_parts(p_type) {
            None => seq![],
            Some(ps) => if ps.len() != 2 {
                seq![
                    rep(
                        idx,
                        ct,
                        ce,
                        1,
                        "Invalid Range syntax '"@ + p_type + "'. Expected exactly two limits: Range(min, max)."@,
                    ),
                ]
            } else if float_literal(ps[0]) && float_literal(ps[1]) {
                seq![FindingModel::RangeLimits { line: idx, start: ct, end: ce, name, min: ps[0], max: ps[1] }]
            } else {
                seq![
                    rep(
                        idx,
                        ct,
                        ce,
                        1,
                        "Non-numeric bounds in Range '"@ + p_type + "'. Both min and max must be valid numbers."@,
                    ),
                ]
            },
        }
    }
}

/// Index of the first entry from `k` on that does not parse as a number.
pub open spec fn first_non_numeric(ps: Seq<Seq<char>>, k: int) -> Option<int>
    decreases ps.len() - k,
{
    if 0 <= k < ps.len() {
        if !float_literal(ps[k]) {
            Some(k)
        } else {
            first_non_numeric(ps, k + 1)
        }
    } else {
        None
    }
}

/// The findings on a vector default `(x, y, z, w)` of a Color or Vector.
pub open spec fn vector_default(val: Seq<char>, idx: int, cv: int, name: Seq<char>, p_type: Seq<char>) -> Seq<FindingModel> {
    let ve = cv + blen(val);
    if starts_with(val, seq!['"']) {
        seq![
            rep(
                idx,
                cv,
                ve,
                1,
                "Type mismatch: "@ + p_type + " property '"@ + name + "' cannot take texture default value '"@ + val
                    + "'. Expected vector literal (x, y, z, w)."@,
            ),
        ]
    } else if !starts_with(val, seq!['(']) || !ends_with(val, seq![')']) {
        seq![
            rep(idx, cv, ve, 1, "Malformed "@ + p_type + " literal '"@ + val + "'. Expected format: (x, y, z, w)"@),
        ]
    } else {
        let ps = split_on(trim(val.subrange(1, val.len() - 1)), ',').map_values(|x: Seq<char>| trim(x));
        if exists|i: int| 0 <= i < ps.len() && (#[trigger] ps[i]).len() == 0 {
            seq![
                rep(
                    idx,
                    cv,
                    ve,
                    1,
                    "Malformed "@ + p_type + " literal '"@ + val + "'. Trailing comma or empty component."@,
                ),
            ]
        } else if ps.len() != 4 {
            seq![
                rep(
                    idx,
                    cv,
                    ve,
                    1,
                    p_type + " property '"@ + name + "' requires 4 components (R, G, B, A), but found "@ + decimal(
                        ps.len(),
                    ) + "."@,
                ),
            ]
        } else {
            match first_non_numeric(ps, 0) {
                Some(c) => seq![
                    rep(
                        idx,
                        cv,
                        ve,
                        1,
                        "Invalid numeric value '"@ + ps[c] + "' in component "@ + decimal((c + 1) as nat) + " of "@
                            + p_type + " property '"@ + name + "'."@,
                    ),
                ],
                None => seq![],
            }
        }
    }
}

/// The findings on a scalar default of a Float, Int or Range.
pub open spec fn scalar_default(val: Seq<char>, idx: int, cv: int, name: Seq<char>, p_type: Seq<char>, limits: Option<(Seq<char>, Seq<char>)>) -> Seq<FindingModel> {
    let ve = cv + blen(val);
    if starts_with(val, seq!['(']) {
        seq![
            rep(
                idx,
                cv,
                ve,
                1,
                "Type mismatch: scalar property '"@ + name + "' of type "@ + p_type
                    + " cannot take vector default value '"@ + val + "'. Expected a numeric scalar (e.g. 0.0)."@,
            ),
        ]
    } else if starts_with(val, seq!['"']) {
        seq![
            rep(
                idx,
                cv,
                ve,
                1,
                "Type mismatch: scalar property '"@ + name + "' of type "@ + p_type
                    + " cannot take texture default value '"@ + val + "'. Expected a numeric scalar (e.g. 0.0)."@,
            ),
        ]
    } else if float_literal(val) {
        match limits {
            Some(l) => seq![
                FindingModel::RangeDefault { line: idx, start: cv, end: ve, name, value: val, min: l.0, max: l.1 },
            ],
            None => seq![],
        }
    } else {
        seq![
            rep(
                idx,
                cv,
                ve,
                1,
                "Invalid numeric default value '"@ + val + "' for "@ + p_type + " property '"@ + name + "'."@,
            ),
        ]
    }
}

/// The findings on the default of a texture property.
pub open spec fn texture_default(val: Seq<char>, idx: int, cv: int, name: Seq<char>, p_type: Seq<char>) -> Seq<FindingModel> {
    let ve = cv + blen(val);
    if starts_with(val, seq!['(']) {
        seq![
            rep(
                idx,
                cv,
                ve,
                1,
                "Type mismatch: texture property '"@ + name + "' of type "@ + p_type
                    + " cannot take vector default value '"@ + val + "'. Expected texture default like \"white\" {}."@,
            ),
        ]
    } else if float_literal(val) {
        seq![
            rep(
                idx,
                cv,
                ve,
                1,
                "Type mismatch: texture property '"@ + name + "' of type "@ + p_type
                    + " cannot take numeric default value '"@ + val + "'. Expected texture default like \"white\" {}."@,
            ),
        ]
    } else if !contains(val, seq!['{']) || !contains(val, seq!['}']) {
        seq![
            rep(
                idx,
                cv,
                ve,
                1,
                "Invalid texture default value '"@ + val + "' for property '"@ + name
                    + "'. Expected syntax: \"white\" {} or \"\" {}"@,
            ),
        ]
    } else {
        match find(val, seq!['"']) {
            Some(fq) => match find(val.subrange(fq + 1, val.len() as int), seq!['"']) {
                Some(sq) => {
                    let tex = val.subrange(fq + 1, fq + 1 + sq);
                    let ts = cv + blen(val.take(fq + 1));
                    if !builtin_textures_list().contains(tex) {
                        seq![
                            FindingModel::Report(
                                on_line(
                                    idx,
                                    ts,
                                    ts + blen(tex),
                                    2,
                                    "Unknown built-in texture default '"@ + tex
                                        + "'. Standard Unity texture defaults are: \"white\", \"black\", \"gray\", \"bump\", \"red\", or \"\"."@,
                                    "shaderlab"@,
                                ),
                            ),
                        ]
                    } else {
                        seq![]
                    }
                },
                None => seq![],
            },
            None => seq![],
        }
    }
}

/// The findings on the `= default` part of a declaration.
pub open spec fn default_findings(
    wa: Seq<char>,
    raw: Seq<char>,
    idx: int,
    col: int,
    base: Seq<char>,
    name: Seq<char>,
    p_type: Seq<char>,
) -> Seq<FindingModel> {
    match find(wa, seq!['=']) {
        Some(eq) => {
            let val = trim(wa.subrange(eq + 1, wa.len() as int));
            if val.len() == 0 {
                seq![
                    rep(
                        idx,
                        rfind_col_or(raw, '=', minus_one(blen(raw) as int)),
                        blen(raw) as int,
                        1,
                        "Missing default value after '=' for "@ + p_type + " property '"@ + name + "'."@,
                    ),
                ]
            } else {
                let cv = find_col(raw, val, col);
                if base == "Color"@ || base == "Vector"@ {
                    vector_default(val, idx, cv, name, p_type)
                } else if base == "Float"@ || base == "Int"@ || base == "Integer"@ || base == "Range"@ {
                    scalar_default(val, idx, cv, name, p_type, numeric_limits(base, p_type))
                } else if texture_types_list().contains(base) {
                    texture_default(val, idx, cv, name, p_type)
                } else {
                    seq![]
                }
            }
        },
        None => {
            let cn = find_col(raw, name, 0);
            seq![
                rep(
                    idx,
                    cn,
                    blen(raw) as int,
                    1,
                    "Missing '=' in property declaration for '"@ + name + "'. Expected: "@ + name + " (\"...\", "@
                        + p_type + ") = defaultValue"@,
                ),
            ]
        },
    }
}

/// The type of a declaration `Name (...)` given what follows its `(`, and
/// the error on an unclosed display-name quote.
pub open spec fn declared_type(after: Seq<char>, raw: Seq<char>, idx: int) -> (Seq<char>, Seq<FindingModel>) {
    match find(after, seq!['"']) {
        Some(q1) => match find(after.subrange(q1 + 1, after.len() as int), seq!['"']) {
            Some(q2) => {
                let after_second = after.subrange(q1 + q2 + 2, after.len() as int);
                match find(after_second, seq![',']) {
                    Some(ci) => {
                        let rest = trim(after_second.subrange(ci + 1, after_second.len() as int));
                        (trim(rest.subrange(0, close_paren_from(rest, 0, 0))), seq![])
                    },
                    None => (Seq::empty(), seq![]),
                }
            },
            None => (
                Seq::empty(),
                seq![
                    rep(
                        idx,
                        find_col(raw, seq!['"'], 0),
                        blen(raw) as int,
                        1,
                        "Unclosed string quote in property display name."@,
                    ),
                ],
            ),
        },
        None => match find(after, seq![')']) {
            Some(cp) => {
                let parts = split_on(after.subrange(0, cp), ',');
                (
                    if parts.len() > 1 {
                        trim(parts[1])
                    } else {
                        Seq::empty()
                    },
                    seq![],
                )
            },
            None => (Seq::empty(), seq![]),
        },
    }
}

/// A declared property is among `props`.
pub open spec fn declared_before(props: Seq<PropEntry>, name: Seq<char>) -> bool {
    exists|i: int| 0 <= i < props.len() && (#[trigger] props[i]).name == name
}

/// The findings on the type, attributes, limits and default of a property
/// named `name` (at column `cn`) of type `p_type`.
pub open spec fn typed_findings(
    wa: Seq<char>,
    attrs: Seq<Seq<char>>,
    raw: Seq<char>,
    idx: int,
    cn: int,
    name: Seq<char>,
    p_type: Seq<char>,
) -> Seq<FindingModel> {
    let base = trim(before_any(p_type, seq!['(']));
    let ct = find_col(raw, p_type, cn);
    let unknown = if !valid_types_list().contains(base) {
        seq![rep(idx, ct, ct + blen(p_type), 1, "Unknown property type '"@ + p_type + "'."@ + type_suggestion(base))]
    } else {
        Seq::<FindingModel>::empty()
    };
    unknown + attr_findings(attrs, 0, raw, idx, cn, base, name, p_type) + range_findings(raw, idx, cn, base, name, p_type)
        + default_findings(wa, raw, idx, cn, base, name, p_type)
}

/// The findings on a declaration `Name (...)` after its attributes, and
/// the properties known after it.
pub open spec fn named_findings(wa: Seq<char>, attrs: Seq<Seq<char>>, raw: Seq<char>, idx: int, props: Seq<PropEntry>) -> (Seq<FindingModel>, Seq<PropEntry>) {
    let name = trim(before_any(wa, seq!['(']));
    let cn = find_col(raw, name, 0);
    let cne = cn + if blen(name) >= 1 {
        blen(name) as int
    } else {
        1
    };
    if !valid_identifier(name) {
        (
            seq![
                rep(
                    idx,
                    cn,
                    cne,
                    1,
                    "Invalid property name '"@ + name + "'. Property names must start with an underscore or letter."@,
                ),
            ],
            props,
        )
    } else {
        let dup = if declared_before(props, name) {
            seq![rep(idx, cn, cne, 1, "Duplicate property name '"@ + name + "' in Properties block."@)]
        } else {
            Seq::<FindingModel>::empty()
        };
        let pi = match find(wa, seq!['(']) {
            Some(k) => k,
            None => 0,
        };
        let dt = declared_type(wa.subrange(pi + 1, wa.len() as int), raw, idx);
        let p_type = dt.0;
        if p_type.len() > 0 {
            (
                dup + dt.1 + typed_findings(wa, attrs, raw, idx, cn, name, p_type),
                props.push(PropEntry { name, p_type, line: idx, col: cn }),
            )
        } else {
            (dup + dt.1, props)
        }
    }
}

/// The findings on one declaration line inside `Properties`, and the
/// properties known after it.
pub open spec fn declaration_findings(t: Seq<char>, raw: Seq<char>, idx: int, props: Seq<PropEntry>) -> (Seq<FindingModel>, Seq<PropEntry>) {
    let semi = if ends_with(t, seq![';']) {
        let c = rfind_col_or(raw, ';', minus_one(blen(raw) as int));
        seq![
            rep(
                idx,
                c,
                c + 1,
                2,
                "ShaderLab property declarations do not use trailing semicolons ';'. Remove ';'"@,
            ),
        ]
    } else {
        Seq::<FindingModel>::empty()
    };
    let sa = split_attrs(trim(trim_end_set(t, seq![';'])));
    let wa = sa.0;
    let unclosed = if sa.1 {
        seq![
            rep(
                idx,
                find_col(raw, seq!['['], 0),
                blen(raw) as int,
                1,
                "Unclosed attribute bracket '['. Expected closing ']'."@,
            ),
        ]
    } else {
        Seq::<FindingModel>::empty()
    };
    let head = semi + unclosed;
    if starts_with(wa, seq!['(']) {
        let c = find_col(raw, seq!['('], 0);
        (
            head + seq![
                rep(
                    idx,
                    c,
                    c + blen(wa),
                    1,
                    "Missing property name before '('. Expected syntax: _PropertyName (\"DisplayName\", Type) = defaultValue"@,
                ),
            ],
            props,
        )
    } else if contains(wa, seq!['(']) {
        let nf = named_findings(wa, sa.2, raw, idx, props);
        (head + nf.0, nf.1)
    } else if wa.len() > 0 {
        let c = find_col(raw, wa, 0);
        (
            head + seq![
                rep(
                    idx,
                    c,
                    c + blen(wa),
                    1,
                    "Incomplete property declaration. Expected syntax: _PropertyName (\"DisplayName\", Type) = defaultValue"@,
                ),
            ],
            props,
        )
    } else {
        (head, props)
    }
}

/// State of the `Properties` check: findings so far, properties declared,
/// whether the block is open, and its brace depth.
pub struct PropCheck {
    pub findings: Seq<FindingModel>,
    pub props: Seq<PropEntry>,
    pub inside: bool,
    pub depth: nat,
}

pub open spec fn prop_check_step(st: PropCheck, raw: Seq<char>, idx: int) -> PropCheck {
    let t = trim(raw);
    if starts_with(t, "//"@) {
        st
    } else {
        let opens = starts_with(t, "Properties"@) && !st.inside;
        let inside = st.inside || opens;
        let d0 = if opens {
            0
        } else {
            st.depth
        };
        if !inside {
            st
        } else {
            let d = d0 + count_char(t, '{');
            let c = count_char(t, '}');
            let checked = if d > 0 && !starts_with(t, "Properties"@) && !starts_with(t, seq!['{']) && !starts_with(
                t,
                seq!['}'],
            ) && t.len() > 0 {
                declaration_findings(t, raw, idx, st.props)
            } else {
                (Seq::<FindingModel>::empty(), st.props)
            };
            PropCheck {
                findings: st.findings + checked.0,
                props: checked.1,
                inside: !(d > 0 && d <= c),
                depth: if d > 0 && d <= c {
                    0
                } else if d >= c {
                    (d - c) as nat
                } else {
                    0
                },
            }
        }
    }
}

pub open spec fn prop_check_scan(ls: Seq<Seq<char>>, n: int) -> PropCheck
    decreases n,
{
    if n <= 0 {
        PropCheck { findings: seq![], props: seq![], inside: false, depth: 0 }
    } else {
        prop_check_step(prop_check_scan(ls, n - 1), ls[n - 1], n - 1)
    }
}

} // verus!

verus! {

/// Shaderlab texture types a URP shader must declare in HLSL.
pub open spec fn urp_texture_type(p: Seq<char>) -> bool {
    p == "2D"@ || p == "3D"@ || p == "Cube"@ || p == "2DArray"@
}

/// A URP render pipeline is named in the text.
pub open spec fn is_urp(content: Seq<char>) -> bool {
    contains(content, "UniversalPipeline"@) || contains(content, "com.unity.render-pipelines.universal"@)
        || contains(content, "UniversalForward"@) || contains(content, "Universal2D"@)
}

/// The text declares a constant buffer.
pub open spec fn has_cbuffer(content: Seq<char>) -> bool {
    contains(content, "CBUFFER_START"@) || contains(content, "cbuffer "@)
}

/// The trimmed statement lines inside constant buffers.
pub open spec fn cb_scan(ls: Seq<Seq<char>>, n: int) -> (bool, Seq<Seq<char>>)
    decreases n,
{
    if n <= 0 {
        (false, seq![])
    } else {
        let st = cb_scan(ls, n - 1);
        let t = trim(ls[n - 1]);
        if starts_with(t, "CBUFFER_START"@) || starts_with(t, "cbuffer "@) {
            (true, st.1)
        } else if starts_with(t, "CBUFFER_END"@) || (st.0 && starts_with(t, "};"@)) {
            (false, st.1)
        } else if st.0 && ends_with(t, seq![';']) && !starts_with(t, "//"@) {
            (st.0, st.1.push(t))
        } else {
            st
        }
    }
}

pub open spec fn cbuffer_lines(content: Seq<char>) -> Seq<Seq<char>> {
    cb_scan(lines(content), lines(content).len() as int).1
}

/// A word of `line`, `;` and `,` trimmed, is `name`.
pub open spec fn line_declares(line: Seq<char>, name: Seq<char>) -> bool {
    exists|j: int| 0 <= j < words(line).len() && trim_set(#[trigger] words(line)[j], seq![';', ',']) == name
}

/// The HLSL type to suggest for a property type.
pub open spec fn suggested_type(p: Seq<char>) -> Seq<char> {
    if p == "Float"@ {
        "float"@
    } else if starts_with(p, "Range"@) {
        "float"@
    } else if p == "Int"@ {
        "int"@
    } else if p == "Color"@ {
        "half4"@
    } else {
        "float4"@
    }
}

/// The texture `name` is declared in HLSL by one of the usual forms.
pub open spec fn texture_declared(content: Seq<char>, name: Seq<char>) -> bool {
    ||| contains(content, "TEXTURE2D("@ + name + ")"@)
    ||| contains(content, "sampler2D "@ + name + ";"@)
    ||| contains(content, "Texture2D "@ + name + ";"@)
    ||| contains(content, "TEXTURECUBE("@ + name + ")"@)
    ||| contains(content, "TextureCube "@ + name + ";"@)
    ||| contains(content, "TEXTURE3D("@ + name + ")"@)
    ||| contains(content, "TEXTURE2D_ARRAY("@ + name + ")"@)
}

/// A URP warning at a property's name.
pub open spec fn urp_warning(p: PropEntry, message: Seq<char>) -> FindingModel {
    FindingModel::Report(on_line(p.line, p.col, p.col + blen(p.name), 2, message, "unity-urp"@))
}

/// The URP warnings on the properties from index `k` on.
pub open spec fn cbuffer_findings(content: Seq<char>, props: Seq<PropEntry>, k: int) -> Seq<FindingModel>
    decreases props.len() - k,
{
    if 0 <= k < props.len() {
        let p = props[k];
        let here = if urp_texture_type(p.p_type) {
            if !texture_declared(content, p.name) {
                seq![
                    urp_warning(
                        p,
                        "Texture property '"@ + p.name
                            + "' is defined in Properties but texture declaration is missing in HLSL (e.g. 'TEXTURE2D("@
                            + p.name + "); SAMPLER(sampler_"@ + p.name + ");')."@,
                    ),
                ]
            } else {
                Seq::<FindingModel>::empty()
            }
        } else if !(exists|j: int| 0 <= j < cbuffer_lines(content).len() && line_declares(#[trigger] cbuffer_lines(content)[j], p.name)) {
            seq![
                urp_warning(
                    p,
                    "Property '"@ + p.name
                        + "' is defined in Properties but not declared in 'CBUFFER_START(UnityPerMaterial)'. Add '"@
                        + suggested_type(p.p_type) + " "@ + p.name + ";' to CBuffer for SRP Batcher compatibility."@,
                ),
            ]
        } else {
            Seq::<FindingModel>::empty()
        };
        here + cbuffer_findings(content, props, k + 1)
    } else {
        seq![]
    }
}

/// The URP findings of a text whose `Properties` block declares `props`.
pub open spec fn urp_findings(content: Seq<char>, props: Seq<PropEntry>) -> Seq<FindingModel> {
    if is_urp(content) && props.len() > 0 && !has_cbuffer(content) {
        seq![
            urp_warning(
                props[0],
                "URP shader with material properties should define 'CBUFFER_START(UnityPerMaterial) ... CBUFFER_END' for SRP Batcher compatibility."@,
            ),
        ]
    } else if is_urp(content) && has_cbuffer(content) {
        cbuffer_findings(content, props, 0)
    } else {
        seq![]
    }
}

/// The findings on the `Properties` block of a ShaderLab text and on its
/// URP constant buffer.
pub open spec fn property_findings(content: Seq<char>) -> Seq<FindingModel> {
    let st = prop_check_scan(lines(content), lines(content).len() as int);
    st.findings + urp_findings(content, st.props)
}

} // verus!

verus! {

/// Whether `s[a..b]` is one of `list`.
fn in_list(s: &[char], a: usize, b: usize, list: &Vec<&'static str>) -> (r: bool)
    requires
        a <= b <= s@.len(),
    ensures
        r == strs_view(list@).contains(s@.subrange(a as int, b as int)),
{
    let ghost x = s@.subrange(a as int, b as int);
    let mut i: usize = 0;
    while i < list.len()
        invariant
            i <= list@.len(),
            a <= b <= s@.len(),
            x == s@.subrange(a as int, b as int),
            forall|j: int| 0 <= j < i ==> strs_view(list@)[j] != x,
        decreases list.len() - i,
    {
        if eq_str(s, a, b, list[i]) {
            assert(strs_view(list@)[i as int] == x);
            return true;
        }
        i = i + 1;
    }
    proof {
        if strs_view(list@).contains(x) {
            let j = choose|j: int| 0 <= j < strs_view(list@).len() && strs_view(list@)[j] == x;
            assert(strs_view(list@)[j] != x);
        }
    }
    false
}

/// Appends a ShaderLab diagnostic.
fn report(out: &mut Vec<PropertyFinding>, idx: usize, start: usize, end: usize, severity: u8, message: String)
    ensures
        findings_view(final(out)@) == findings_view(old(out)@).push(rep(idx as int, start as int, end as int, severity, message@)),
{
    let ghost f0 = findings_view(out@);
    out.push(PropertyFinding::Report(line_diag(idx, start, end, severity, message, "shaderlab")));
    proof {
        assert(findings_view(out@) =~= f0.push(rep(idx as int, start as int, end as int, severity, message@)));
    }
}

/// The column of the piece `v[pa..pb]` in the line `v[la..lb]`, or `dflt`,
/// and the piece's byte length.
fn col_and_len(v: &[char], la: usize, lb: usize, pa: usize, pb: usize, dflt: usize) -> (r: (usize, usize))
    requires
        la <= lb <= v@.len(),
        pa <= pb <= v@.len(),
        blen(v@) <= usize::MAX,
    ensures
        r.0 == find_col(v@.subrange(la as int, lb as int), v@.subrange(pa as int, pb as int), dflt as int),
        r.1 == blen(v@.subrange(pa as int, pb as int)),
        r.0 <= blen(v@) || r.0 == dflt,
        r.1 <= blen(v@),
{
    proof {
        lemma_blen_subrange(v@, la as int, lb as int);
        lemma_blen_subrange(v@, pa as int, pb as int);
    }
    let c = find_col_exec(v, la, lb, &v[pa..pb], dflt);
    let n = range_blen(v, pa, pb);
    (c, n)
}

/// The column of the first `c` in the line `v[la..lb]`, or 0.
fn char_col(v: &[char], la: usize, lb: usize, c: char) -> (r: usize)
    requires
        la <= lb <= v@.len(),
        blen(v@) <= usize::MAX,
    ensures
        r == find_col(v@.subrange(la as int, lb as int), seq![c], 0),
        r <= blen(v@),
{
    proof {
        lemma_blen_subrange(v@, la as int, lb as int);
        assert(seq![c] =~= [c]@);
    }
    find_col_exec(v, la, lb, &[c], 0)
}

/// The column of the last `c` in the line `v[la..lb]`, or `dflt`.
fn last_char_col(v: &[char], la: usize, lb: usize, c: char, dflt: usize) -> (r: usize)
    requires
        la <= lb <= v@.len(),
        blen(v@) <= usize::MAX,
    ensures
        r == rfind_col_or(v@.subrange(la as int, lb as int), c, dflt as int),
        r <= blen(v@) || r == dflt,
{
    match rfind_char(v, la, lb, c) {
        Some(k) => {
            let raw = crate::decls::slice_range(v, la, lb);
            proof {
                lemma_blen_subrange(v@, la as int, lb as int);
                crate::text::lemma_blen_mono(raw@, k as int, raw@.len() as int);
                assert(raw@.take(raw@.len() as int) =~= raw@);
            }
            crate::text::byte_offset(raw.as_slice(), k)
        },
        None => dflt,
    }
}

/// `split_attrs` of `v[a..b]`: bounds of what follows the attributes,
/// whether one is unclosed, and the ranges of the attribute entries.
fn split_attrs_exec(v: &[char], a: usize, b: usize) -> (r: (usize, usize, bool, Vec<(usize, usize)>))
    requires
        a <= b <= v@.len(),
    ensures
        a <= r.0 <= r.1 <= b,
        ranges_within(r.3@, a as int, b as int),
        ({
            let sa = split_attrs(v@.subrange(a as int, b as int));
            &&& v@.subrange(r.0 as int, r.1 as int) == sa.0
            &&& r.2 == sa.1
            &&& crate::splits::pieces(v@, r.3@) == sa.2
        }),
{
    let ghost whole = split_attrs(v@.subrange(a as int, b as int));
    let mut s = a;
    let mut e = b;
    let mut attrs: Vec<(usize, usize)> = Vec::new();
    loop
        invariant
            a <= s <= e <= b <= v@.len(),
            ranges_within(attrs@, a as int, b as int),
            whole == split_attrs(v@.subrange(a as int, b as int)),
            whole.0 == split_attrs(v@.subrange(s as int, e as int)).0,
            whole.1 == split_attrs(v@.subrange(s as int, e as int)).1,
            whole.2 == crate::splits::pieces(v@, attrs@) + split_attrs(v@.subrange(s as int, e as int)).2,
        decreases e - s,
    {
        let ghost cur = v@.subrange(s as int, e as int);
        if !starts_with_char(v, s, e, '[') {
            assert(split_attrs(cur).2 =~= Seq::<Seq<char>>::empty());
            assert(crate::splits::pieces(v@, attrs@) + Seq::<Seq<char>>::empty() =~= crate::splits::pieces(v@, attrs@));
            return (s, e, false, attrs);
        }
        match find_char(v, s, e, ']') {
            None => {
                assert(split_attrs(cur).2 =~= Seq::<Seq<char>>::empty());
                assert(crate::splits::pieces(v@, attrs@) + Seq::<Seq<char>>::empty() =~= crate::splits::pieces(v@, attrs@));
                return (s, e, true, attrs);
            },
            Some(eb) => {
                proof {
                    assert(cur[0] == '[');
                    assert(eb >= 1);
                    assert(cur.subrange(1, eb as int) =~= v@.subrange(s + 1, s + eb));
                    assert(cur.subrange(eb + 1, cur.len() as int) =~= v@.subrange(s + eb + 1, e as int));
                }
                let (ia, ib) = trim_range(v, s + 1, s + eb);
                let (_names, prs) = crate::lists::param_list_exec(v, ia, ib, false);
                proof {
                    crate::splits::lemma_pieces(v@, prs@, param_list(v@.subrange(ia as int, ib as int), false));
                }
                let ghost before = crate::splits::pieces(v@, attrs@);
                let mut k: usize = 0;
                while k < prs.len()
                    invariant
                        k <= prs@.len(),
                        ranges_within(prs@, ia as int, ib as int),
                        a <= s <= ia <= ib <= e <= b <= v@.len(),
                        ranges_within(attrs@, a as int, b as int),
                        crate::splits::pieces(v@, attrs@) == before + crate::splits::pieces(v@, prs@).take(k as int),
                    decreases prs.len() - k,
                {
                    let ghost old_a = attrs@;
                    attrs.push(prs[k]);
                    proof {
                        assert(crate::splits::pieces(v@, attrs@) =~= crate::splits::pieces(v@, old_a).push(
                            v@.subrange(prs@[k as int].0 as int, prs@[k as int].1 as int),
                        ));
                        assert(crate::splits::pieces(v@, prs@).take(k + 1) =~= crate::splits::pieces(v@, prs@).take(k as int).push(
                            v@.subrange(prs@[k as int].0 as int, prs@[k as int].1 as int),
                        ));
                        assert(crate::splits::pieces(v@, attrs@) =~= before + crate::splits::pieces(v@, prs@).take(k + 1));
                    }
                    k = k + 1;
                }
                proof {
                    assert(crate::splits::pieces(v@, prs@).take(prs@.len() as int) =~= crate::splits::pieces(v@, prs@));
                }
                let (ns, ne) = trim_range(v, s + eb + 1, e);
                proof {
                    assert(whole.2 =~= crate::splits::pieces(v@, attrs@) + split_attrs(v@.subrange(ns as int, ne as int)).2);
                }
                s = ns;
                e = ne;
            },
        }
    }
}

} // verus!

verus! {

/// `pre + v[na..nb] + "' is of type '" + v[pa..pb] + "'."`.
fn of_type_msg(pre: String, v: &[char], na: usize, nb: usize, pa: usize, pb: usize) -> (r: String)
    requires
        na <= nb <= v@.len(),
        pa <= pb <= v@.len(),
    ensures
        r@ == pre@ + (v@.subrange(na as int, nb as int) + "' is of type '"@ + v@.subrange(pa as int, pb as int) + "'."@),
{
    let mut m = pre;
    let ghost m0 = m@;
    push_range(&mut m, v, na, nb);
    push_str(&mut m, "' is of type '");
    push_range(&mut m, v, pa, pb);
    push_str(&mut m, "'.");
    proof {
        assert(m@ =~= m0 + (v@.subrange(na as int, nb as int) + "' is of type '"@ + v@.subrange(pa as int, pb as int) + "'."@));
    }
    m
}

/// `attr_mismatch` of the attribute `v[ia..ib]`, base type `v[ba..bb]`,
/// name `v[na..nb]` and type `v[pa..pb]`.
fn attr_mismatch_exec(
    v: &[char],
    ia: usize,
    ib: usize,
    ba: usize,
    bb: usize,
    na: usize,
    nb: usize,
    pa: usize,
    pb: usize,
    tex: &Vec<&'static str>,
) -> (r: Option<String>)
    requires
        ia <= ib <= v@.len(),
        ba <= bb <= v@.len(),
        na <= nb <= v@.len(),
        pa <= pb <= v@.len(),
        strs_view(tex@) == texture_types_list(),
    ensures
        match attr_mismatch(
            v@.subrange(ia as int, ib as int),
            v@.subrange(ba as int, bb as int),
            v@.subrange(na as int, nb as int),
            v@.subrange(pa as int, pb as int),
        ) {
            Some(m) => r matches Some(x) && x@ == m,
            None => r is None,
        },
{
    if eq_str(v, ia, ib, "Normal") && !eq_str(v, ba, bb, "2D") {
        Some(of_type_msg(str_string("[Normal] attribute can only be applied to 2D texture properties, but '"), v, na, nb, pa, pb))
    } else if eq_str(v, ia, ib, "HDR") && !eq_str(v, ba, bb, "Color") {
        Some(of_type_msg(str_string("[HDR] attribute can only be applied to Color properties, but '"), v, na, nb, pa, pb))
    } else if eq_str(v, ia, ib, "IntRange") && !eq_str(v, ba, bb, "Range") {
        Some(of_type_msg(str_string("[IntRange] attribute can only be applied to Range properties, but '"), v, na, nb, pa, pb))
    } else if (eq_str(v, ia, ib, "SingleLineTexture") || eq_str(v, ia, ib, "NoScaleOffset")) && !in_list(v, ba, bb, tex) {
        let mut pre = str_string("[");
        push_range(&mut pre, v, ia, ib);
        push_str(&mut pre, "] attribute can only be applied to texture properties (2D, 3D, Cube), but '");
        Some(of_type_msg(pre, v, na, nb, pa, pb))
    } else if eq_str(v, ia, ib, "MainColor") && !eq_str(v, ba, bb, "Color") {
        Some(of_type_msg(str_string("[MainColor] attribute is intended for Color properties, but '"), v, na, nb, pa, pb))
    } else if eq_str(v, ia, ib, "MainTexture") && !eq_str(v, ba, bb, "2D") {
        Some(of_type_msg(str_string("[MainTexture] attribute is intended for 2D texture properties, but '"), v, na, nb, pa, pb))
    } else {
        None
    }
}

/// Appends `attr_findings` of the attribute entries `attrs` (ranges of `v`).
fn attr_findings_exec(
    out: &mut Vec<PropertyFinding>,
    v: &[char],
    la: usize,
    lb: usize,
    attrs: &Vec<(usize, usize)>,
    idx: usize,
    col: usize,
    ba: usize,
    bb: usize,
    na: usize,
    nb: usize,
    pa: usize,
    pb: usize,
)
    requires
        la <= lb <= v@.len(),
        ba <= bb <= v@.len(),
        na <= nb <= v@.len(),
        pa <= pb <= v@.len(),
        ranges_within(attrs@, 0, v@.len() as int),
        blen(v@) <= isize::MAX,
        col <= blen(v@),
    ensures
        findings_view(final(out)@) == findings_view(old(out)@) + attr_findings(
            crate::splits::pieces(v@, attrs@),
            0,
            v@.subrange(la as int, lb as int),
            idx as int,
            col as int,
            v@.subrange(ba as int, bb as int),
            v@.subrange(na as int, nb as int),
            v@.subrange(pa as int, pb as int),
        ),
{
    let ghost f0 = findings_view(out@);
    let ghost ps = crate::splits::pieces(v@, attrs@);
    let ghost raw = v@.subrange(la as int, lb as int);
    let ghost base = v@.subrange(ba as int, bb as int);
    let ghost name = v@.subrange(na as int, nb as int);
    let ghost ptype = v@.subrange(pa as int, pb as int);
    let known = known_attrs_exec();
    let tex = texture_types_exec();
    proof {
        assert(seq!['('] =~= ['(']@);
    }
    let mut k: usize = 0;
    while k < attrs.len()
        invariant
            k <= attrs@.len(),
            la <= lb <= v@.len(),
            ba <= bb <= v@.len(),
            na <= nb <= v@.len(),
            pa <= pb <= v@.len(),
            ranges_within(attrs@, 0, v@.len() as int),
            blen(v@) <= isize::MAX,
            col <= blen(v@),
            strs_view(known@) == known_attrs_list(),
            strs_view(tex@) == texture_types_list(),
            ps == crate::splits::pieces(v@, attrs@),
            raw == v@.subrange(la as int, lb as int),
            base == v@.subrange(ba as int, bb as int),
            name == v@.subrange(na as int, nb as int),
            ptype == v@.subrange(pa as int, pb as int),
            seq!['('] == ['(']@,
            f0 + attr_findings(ps, 0, raw, idx as int, col as int, base, name, ptype) == findings_view(out@)
                + attr_findings(ps, k as int, raw, idx as int, col as int, base, name, ptype),
        decreases attrs.len() - k,
    {
        let ghost fk = findings_view(out@);
        let (xa, xb) = attrs[k];
        let e = before_any_range(v, xa, xb, &['(']);
        let (ia, ib) = trim_range(v, xa, e);
        proof {
            assert(ps[k as int] == v@.subrange(xa as int, xb as int));
        }
        let ghost a = v@.subrange(ia as int, ib as int);
        let (ca, alen) = col_and_len(v, la, lb, ia, ib, col);
        if !in_list(v, ia, ib, &known) {
            let mut m = str_string("Unknown ShaderLab attribute '[");
            push_range(&mut m, v, ia, ib);
            push_str(&mut m, "]'.");
            if eq_ignore_case_str(v, ia, ib, "MainColour") {
                push_str(&mut m, " Did you mean '[MainColor]'?");
            } else if eq_ignore_case_str(v, ia, ib, "MainTex") {
                push_str(&mut m, " Did you mean '[MainTexture]'?");
            }
            proof {
                assert(m@ =~= "Unknown ShaderLab attribute '["@ + a + "]'."@ + attr_hint(a));
            }
            report(out, idx, ca, ca + alen, 2, m);
        }
        match attr_mismatch_exec(v, ia, ib, ba, bb, na, nb, pa, pb, &tex) {
            Some(m) => {
                report(out, idx, ca, ca + alen, 2, m);
            },
            None => {},
        }
        proof {
            let unknown = if !known_attrs_list().contains(a) {
                seq![rep(idx as int, ca as int, ca + blen(a), 2, "Unknown ShaderLab attribute '["@ + a + "]'."@ + attr_hint(a))]
            } else {
                Seq::<FindingModel>::empty()
            };
            let mismatch = match attr_mismatch(a, base, name, ptype) {
                Some(m) => seq![rep(idx as int, ca as int, ca + blen(a), 2, m)],
                None => Seq::<FindingModel>::empty(),
            };
            assert(findings_view(out@) =~= fk + unknown + mismatch);
            assert(attr_findings(ps, k as int, raw, idx as int, col as int, base, name, ptype) == unknown + mismatch
                + attr_findings(ps, k + 1, raw, idx as int, col as int, base, name, ptype));
            assert(findings_view(out@) + attr_findings(ps, k + 1, raw, idx as int, col as int, base, name, ptype)
                =~= fk + attr_findings(ps, k as int, raw, idx as int, col as int, base, name, ptype));
        }
        k = k + 1;
    }
    proof {
        assert(f0 + attr_findings(ps, 0, raw, idx as int, col as int, base, name, ptype) =~= findings_view(out@));
    }
}

} // verus!

verus! {

/// The pieces of `v[a..b]` between occurrences of `c`, each trimmed, as
/// ranges of `v`.
fn trimmed_pieces(v: &[char], a: usize, b: usize, c: char) -> (r: Vec<(usize, usize)>)
    requires
        a <= b <= v@.len(),
    ensures
        ranges_within(r@, a as int, b as int),
        crate::splits::pieces(v@, r@) == split_on(v@.subrange(a as int, b as int), c).map_values(|x: Seq<char>| trim(x)),
{
    let ps = split_ranges(v, a, b, c);
    let ghost sp = split_on(v@.subrange(a as int, b as int), c);
    let mut r: Vec<(usize, usize)> = Vec::new();
    let mut k: usize = 0;
    while k < ps.len()
        invariant
            k <= ps@.len(),
            a <= b <= v@.len(),
            ranges_within(ps@, a as int, b as int),
            ranges_hold(v@, ps@, sp),
            ranges_within(r@, a as int, b as int),
            crate::splits::pieces(v@, r@) == sp.map_values(|x: Seq<char>| trim(x)).take(k as int),
        decreases ps.len() - k,
    {
        let (pa, pb) = ps[k];
        let (ta, tb) = trim_range(v, pa, pb);
        let ghost old_r = r@;
        r.push((ta, tb));
        proof {
            assert(sp[k as int] == v@.subrange(pa as int, pb as int));
            assert(crate::splits::pieces(v@, r@) =~= crate::splits::pieces(v@, old_r).push(v@.subrange(ta as int, tb as int)));
            assert(sp.map_values(|x: Seq<char>| trim(x)).take(k + 1) =~= sp.map_values(|x: Seq<char>| trim(x)).take(k as int).push(trim(sp[k as int])));
        }
        k = k + 1;
    }
    proof {
        assert(sp.map_values(|x: Seq<char>| trim(x)).take(ps@.len() as int) =~= sp.map_values(|x: Seq<char>| trim(x)));
    }
    r
}

/// `range_parts(v[pa..pb])` as ranges of `v`.
fn range_parts_exec(v: &[char], pa: usize, pb: usize) -> (r: Option<Vec<(usize, usize)>>)
    requires
        pa <= pb <= v@.len(),
    ensures
        match range_parts(v@.subrange(pa as int, pb as int)) {
            Some(ps) => r matches Some(x) && crate::splits::pieces(v@, x@) == ps && ranges_within(x@, pa as int, pb as int),
            None => r is None,
        },
{
    let ghost p = v@.subrange(pa as int, pb as int);
    let ro = match find_char(v, pa, pb, '(') {
        Some(k) => k,
        None => {
            return None;
        },
    };
    proof {
        assert(p.subrange(ro as int, p.len() as int) =~= v@.subrange(pa + ro, pb as int));
    }
    let rc = match find_char(v, pa + ro, pb, ')') {
        Some(k) => k,
        None => {
            return None;
        },
    };
    proof {
        assert(rc >= 1);
        assert(p.subrange(ro + 1, ro + rc) =~= v@.subrange(pa + ro + 1, pa + ro + rc));
    }
    Some(trimmed_pieces(v, pa + ro + 1, pa + ro + rc, ','))
}

/// `numeric_limits` of the base type `v[ba..bb]` and the type `v[pa..pb]`:
/// the ranges of the two limits.
fn numeric_limits_exec(v: &[char], ba: usize, bb: usize, pa: usize, pb: usize) -> (r: Option<((usize, usize), (usize, usize))>)
    requires
        ba <= bb <= v@.len(),
        pa <= pb <= v@.len(),
    ensures
        match numeric_limits(v@.subrange(ba as int, bb as int), v@.subrange(pa as int, pb as int)) {
            Some(l) => r matches Some(x) && v@.subrange(x.0.0 as int, x.0.1 as int) == l.0 && v@.subrange(
                x.1.0 as int,
                x.1.1 as int,
            ) == l.1 && pa <= x.0.0 <= x.0.1 <= pb && pa <= x.1.0 <= x.1.1 <= pb,
            None => r is None,
        },
{
    if !(eq_str(v, ba, bb, "Range") && contains_char(v, pa, pb, '(') && contains_char(v, pa, pb, ')')) {
        return None;
    }
    match range_parts_exec(v, pa, pb) {
        Some(ps) => {
            if ps.len() == 2 {
                let (xa, xb) = ps[0];
                let (ya, yb) = ps[1];
                proof {
                    assert(crate::splits::pieces(v@, ps@)[0] == v@.subrange(xa as int, xb as int));
                    assert(crate::splits::pieces(v@, ps@)[1] == v@.subrange(ya as int, yb as int));
                }
                if is_float_literal(v, xa, xb) && is_float_literal(v, ya, yb) {
                    return Some(((xa, xb), (ya, yb)));
                }
            }
            None
        },
        None => None,
    }
}

/// Appends `range_findings` for the property named `v[na..nb]` of type
/// `v[pa..pb]` (base type `v[ba..bb]`) on the line `v[la..lb]`.
fn range_findings_exec(
    out: &mut Vec<PropertyFinding>,
    v: &[char],
    la: usize,
    lb: usize,
    idx: usize,
    col: usize,
    ba: usize,
    bb: usize,
    na: usize,
    nb: usize,
    pa: usize,
    pb: usize,
)
    requires
        la <= lb <= v@.len(),
        ba <= bb <= v@.len(),
        na <= nb <= v@.len(),
        pa <= pb <= v@.len(),
        blen(v@) <= isize::MAX,
        col <= blen(v@),
    ensures
        findings_view(final(out)@) == findings_view(old(out)@) + range_findings(
            v@.subrange(la as int, lb as int),
            idx as int,
            col as int,
            v@.subrange(ba as int, bb as int),
            v@.subrange(na as int, nb as int),
            v@.subrange(pa as int, pb as int),
        ),
{
    let ghost f0 = findings_view(out@);
    let ghost raw = v@.subrange(la as int, lb as int);
    let ghost base = v@.subrange(ba as int, bb as int);
    let ghost name = v@.subrange(na as int, nb as int);
    let ghost ptype = v@.subrange(pa as int, pb as int);
    if !eq_str(v, ba, bb, "Range") {
        assert(findings_view(out@) =~= f0 + range_findings(raw, idx as int, col as int, base, name, ptype));
        return;
    }
    let (ct, tlen) = col_and_len(v, la, lb, pa, pb, col);
    let ce = ct + tlen;
    if !contains_char(v, pa, pb, '(') || !contains_char(v, pa, pb, ')') {
        let mut m = str_string("Range property '");
        push_range(&mut m, v, na, nb);
        push_str(&mut m, "' requires min and max limits: Range(min, max). Example: Range(0.0, 1.0)");
        report(out, idx, ct, ce, 1, m);
        assert(findings_view(out@) =~= f0 + range_findings(raw, idx as int, col as int, base, name, ptype));
        return;
    }
    match range_parts_exec(v, pa, pb) {
        None => {
            assert(findings_view(out@) =~= f0 + range_findings(raw, idx as int, col as int, base, name, ptype));
        },
        Some(ps) => {
            if ps.len() != 2 {
                let mut m = str_string("Invalid Range syntax '");
                push_range(&mut m, v, pa, pb);
                push_str(&mut m, "'. Expected exactly two limits: Range(min, max).");
                report(out, idx, ct, ce, 1, m);
            } else {
                let (xa, xb) = ps[0];
                let (ya, yb) = ps[1];
                proof {
                    assert(crate::splits::pieces(v@, ps@)[0] == v@.subrange(xa as int, xb as int));
                    assert(crate::splits::pieces(v@, ps@)[1] == v@.subrange(ya as int, yb as int));
                }
                if is_float_literal(v, xa, xb) && is_float_literal(v, ya, yb) {
                    let ghost f1 = findings_view(out@);
                    let f = PropertyFinding::RangeLimits {
                        line: idx,
                        start: ct,
                        end: ce,
                        name: range_string(v, na, nb),
                        min: range_string(v, xa, xb),
                        max: range_string(v, ya, yb),
                    };
                    let ghost fv = f@;
                    out.push(f);
                    assert(findings_view(out@) =~= f1.push(fv));
                } else {
                    let mut m = str_string("Non-numeric bounds in Range '");
                    push_range(&mut m, v, pa, pb);
                    push_str(&mut m, "'. Both min and max must be valid numbers.");
                    report(out, idx, ct, ce, 1, m);
                }
            }
            assert(findings_view(out@) =~= f0 + range_findings(raw, idx as int, col as int, base, name, ptype));
        },
    }
}

} // verus!

verus! {

/// Index of the first of `ps` (ranges of `v`) that does not parse as a
/// number.
fn first_non_numeric_exec(v: &[char], ps: &Vec<(usize, usize)>) -> (r: Option<usize>)
    requires
        ranges_within(ps@, 0, v@.len() as int),
    ensures
        crate::strops::oi(r) == first_non_numeric(crate::splits::pieces(v@, ps@), 0),
        r matches Some(c) ==> c < ps@.len(),
{
    let ghost qs = crate::splits::pieces(v@, ps@);
    let mut k: usize = 0;
    while k < ps.len()
        invariant
            k <= ps@.len(),
            ranges_within(ps@, 0, v@.len() as int),
            qs == crate::splits::pieces(v@, ps@),
            first_non_numeric(qs, 0) == first_non_numeric(qs, k as int),
        decreases ps.len() - k,
    {
        let (a, b) = ps[k];
        assert(qs[k as int] == v@.subrange(a as int, b as int));
        if !is_float_literal(v, a, b) {
            return Some(k);
        }
        k = k + 1;
    }
    None
}

/// Appends `vector_default` of the value `v[va..vb]` at column `cv`.
fn vector_default_exec(
    out: &mut Vec<PropertyFinding>,
    v: &[char],
    va: usize,
    vb: usize,
    idx: usize,
    cv: usize,
    na: usize,
    nb: usize,
    pa: usize,
    pb: usize,
)
    requires
        va <= vb <= v@.len(),
        na <= nb <= v@.len(),
        pa <= pb <= v@.len(),
        blen(v@) <= isize::MAX,
        cv <= blen(v@),
    ensures
        findings_view(final(out)@) == findings_view(old(out)@) + vector_default(
            v@.subrange(va as int, vb as int),
            idx as int,
            cv as int,
            v@.subrange(na as int, nb as int),
            v@.subrange(pa as int, pb as int),
        ),
{
    let ghost f0 = findings_view(out@);
    let ghost val = v@.subrange(va as int, vb as int);
    let ghost name = v@.subrange(na as int, nb as int);
    let ghost ptype = v@.subrange(pa as int, pb as int);
    proof {
        lemma_blen_subrange(v@, va as int, vb as int);
    }
    let ve = cv + range_blen(v, va, vb);
    if starts_with_char(v, va, vb, '"') {
        let mut m = str_string("Type mismatch: ");
        push_range(&mut m, v, pa, pb);
        push_str(&mut m, " property '");
        push_range(&mut m, v, na, nb);
        push_str(&mut m, "' cannot take texture default value '");
        push_range(&mut m, v, va, vb);
        push_str(&mut m, "'. Expected vector literal (x, y, z, w).");
        report(out, idx, cv, ve, 1, m);
    } else if !starts_with_char(v, va, vb, '(') || !ends_with_char(v, va, vb, ')') {
        let mut m = str_string("Malformed ");
        push_range(&mut m, v, pa, pb);
        push_str(&mut m, " literal '");
        push_range(&mut m, v, va, vb);
        push_str(&mut m, "'. Expected format: (x, y, z, w)");
        report(out, idx, cv, ve, 1, m);
    } else {
        proof {
            assert(val[0] == '(');
            assert(val.subrange(1, val.len() - 1) =~= v@.subrange(va + 1, vb - 1));
        }
        let (ia, ib) = trim_range(v, va + 1, vb - 1);
        let ps = trimmed_pieces(v, ia, ib, ',');
        let ghost qs = crate::splits::pieces(v@, ps@);
        let mut has_empty = false;
        let mut k: usize = 0;
        while k < ps.len()
            invariant
                k <= ps@.len(),
                ia <= ib <= v@.len(),
                ranges_within(ps@, ia as int, ib as int),
                qs == crate::splits::pieces(v@, ps@),
                has_empty == exists|i: int| 0 <= i < k && (#[trigger] qs[i]).len() == 0,
            decreases ps.len() - k,
        {
            let (a, b) = ps[k];
            assert(qs[k as int] == v@.subrange(a as int, b as int));
            if a == b {
                has_empty = true;
            }
            k = k + 1;
        }
        if has_empty {
            let mut m = str_string("Malformed ");
            push_range(&mut m, v, pa, pb);
            push_str(&mut m, " literal '");
            push_range(&mut m, v, va, vb);
            push_str(&mut m, "'. Trailing comma or empty component.");
            report(out, idx, cv, ve, 1, m);
        } else if ps.len() != 4 {
            let mut m = String::new();
            push_range(&mut m, v, pa, pb);
            push_str(&mut m, " property '");
            push_range(&mut m, v, na, nb);
            push_str(&mut m, "' requires 4 components (R, G, B, A), but found ");
            let n = decimal_string(ps.len());
            push_str(&mut m, n.as_str());
            push_str(&mut m, ".");
            report(out, idx, cv, ve, 1, m);
        } else {
            match first_non_numeric_exec(v, &ps) {
                Some(c) => {
                    let (a, b) = ps[c];
                    assert(qs[c as int] == v@.subrange(a as int, b as int));
                    let mut m = str_string("Invalid numeric value '");
                    push_range(&mut m, v, a, b);
                    push_str(&mut m, "' in component ");
                    let n = decimal_string(c + 1);
                    push_str(&mut m, n.as_str());
                    push_str(&mut m, " of ");
                    push_range(&mut m, v, pa, pb);
                    push_str(&mut m, " property '");
                    push_range(&mut m, v, na, nb);
                    push_str(&mut m, "'.");
                    report(out, idx, cv, ve, 1, m);
                },
                None => {},
            }
        }
    }
    proof {
        assert(findings_view(out@) =~= f0 + vector_default(val, idx as int, cv as int, name, ptype));
    }
}

} // verus!

verus! {

/// Appends `scalar_default` of the value `v[va..vb]` at column `cv`, the
/// limits being `lim`.
fn scalar_default_exec(
    out: &mut Vec<PropertyFinding>,
    v: &[char],
    va: usize,
    vb: usize,
    idx: usize,
    cv: usize,
    na: usize,
    nb: usize,
    pa: usize,
    pb: usize,
    lim: Option<((usize, usize), (usize, usize))>,
)
    requires
        va <= vb <= v@.len(),
        na <= nb <= v@.len(),
        pa <= pb <= v@.len(),
        blen(v@) <= isize::MAX,
        cv <= blen(v@),
        lim matches Some(l) ==> l.0.0 <= l.0.1 <= v@.len() && l.1.0 <= l.1.1 <= v@.len(),
    ensures
        findings_view(final(out)@) == findings_view(old(out)@) + scalar_default(
            v@.subrange(va as int, vb as int),
            idx as int,
            cv as int,
            v@.subrange(na as int, nb as int),
            v@.subrange(pa as int, pb as int),
            match lim {
                Some(l) => Some((v@.subrange(l.0.0 as int, l.0.1 as int), v@.subrange(l.1.0 as int, l.1.1 as int))),
                None => None,
            },
        ),
{
    let ghost f0 = findings_view(out@);
    proof {
        lemma_blen_subrange(v@, va as int, vb as int);
    }
    let ve = cv + range_blen(v, va, vb);
    if starts_with_char(v, va, vb, '(') {
        let mut m = str_string("Type mismatch: scalar property '");
        push_range(&mut m, v, na, nb);
        push_str(&mut m, "' of type ");
        push_range(&mut m, v, pa, pb);
        push_str(&mut m, " cannot take vector default value '");
        push_range(&mut m, v, va, vb);
        push_str(&mut m, "'. Expected a numeric scalar (e.g. 0.0).");
        report(out, idx, cv, ve, 1, m);
    } else if starts_with_char(v, va, vb, '"') {
        let mut m = str_string("Type mismatch: scalar property '");
        push_range(&mut m, v, na, nb);
        push_str(&mut m, "' of type ");
        push_range(&mut m, v, pa, pb);
        push_str(&mut m, " cannot take texture default value '");
        push_range(&mut m, v, va, vb);
        push_str(&mut m, "'. Expected a numeric scalar (e.g. 0.0).");
        report(out, idx, cv, ve, 1, m);
    } else if is_float_literal(v, va, vb) {
        match lim {
            Some(((xa, xb), (ya, yb))) => {
                let f = PropertyFinding::RangeDefault {
                    line: idx,
                    start: cv,
                    end: ve,
                    name: range_string(v, na, nb),
                    value: range_string(v, va, vb),
                    min: range_string(v, xa, xb),
                    max: range_string(v, ya, yb),
                };
                let ghost fv = f@;
                let ghost f1 = findings_view(out@);
                out.push(f);
                assert(findings_view(out@) =~= f1.push(fv));
            },
            None => {},
        }
    } else {
        let mut m = str_string("Invalid numeric default value '");
        push_range(&mut m, v, va, vb);
        push_str(&mut m, "' for ");
        push_range(&mut m, v, pa, pb);
        push_str(&mut m, " property '");
        push_range(&mut m, v, na, nb);
        push_str(&mut m, "'.");
        report(out, idx, cv, ve, 1, m);
    }
    proof {
        assert(findings_view(out@) =~= f0 + scalar_default(
            v@.subrange(va as int, vb as int),
            idx as int,
            cv as int,
            v@.subrange(na as int, nb as int),
            v@.subrange(pa as int, pb as int),
            match lim {
                Some(l) => Some((v@.subrange(l.0.0 as int, l.0.1 as int), v@.subrange(l.1.0 as int, l.1.1 as int))),
                None => None,
            },
        ));
    }
}

/// Appends `texture_default` of the value `v[va..vb]` at column `cv`.
fn texture_default_exec(
    out: &mut Vec<PropertyFinding>,
    v: &[char],
    va: usize,
    vb: usize,
    idx: usize,
    cv: usize,
    na: usize,
    nb: usize,
    pa: usize,
    pb: usize,
)
    requires
        va <= vb <= v@.len(),
        na <= nb <= v@.len(),
        pa <= pb <= v@.len(),
        blen(v@) <= isize::MAX,
        cv <= blen(v@),
    ensures
        findings_view(final(out)@) == findings_view(old(out)@) + texture_default(
            v@.subrange(va as int, vb as int),
            idx as int,
            cv as int,
            v@.subrange(na as int, nb as int),
            v@.subrange(pa as int, pb as int),
        ),
{
    let ghost f0 = findings_view(out@);
    let ghost val = v@.subrange(va as int, vb as int);
    proof {
        lemma_blen_subrange(v@, va as int, vb as int);
    }
    let ve = cv + range_blen(v, va, vb);
    if starts_with_char(v, va, vb, '(') {
        let mut m = str_string("Type mismatch: texture property '");
        push_range(&mut m, v, na, nb);
        push_str(&mut m, "' of type ");
        push_range(&mut m, v, pa, pb);
        push_str(&mut m, " cannot take vector default value '");
        push_range(&mut m, v, va, vb);
        push_str(&mut m, "'. Expected texture default like \"white\" {}.");
        report(out, idx, cv, ve, 1, m);
    } else if is_float_literal(v, va, vb) {
        let mut m = str_string("Type mismatch: texture property '");
        push_range(&mut m, v, na, nb);
        push_str(&mut m, "' of type ");
        push_range(&mut m, v, pa, pb);
        push_str(&mut m, " cannot take numeric default value '");
        push_range(&mut m, v, va, vb);
        push_str(&mut m, "'. Expected texture default like \"white\" {}.");
        report(out, idx, cv, ve, 1, m);
    } else if !contains_char(v, va, vb, '{') || !contains_char(v, va, vb, '}') {
        let mut m = str_string("Invalid texture default value '");
        push_range(&mut m, v, va, vb);
        push_str(&mut m, "' for property '");
        push_range(&mut m, v, na, nb);
        push_str(&mut m, "'. Expected syntax: \"white\" {} or \"\" {}");
        report(out, idx, cv, ve, 1, m);
    } else {
        match find_char(v, va, vb, '"') {
            Some(fq) => {
                proof {
                    assert(val.subrange(fq + 1, val.len() as int) =~= v@.subrange(va + fq + 1, vb as int));
                }
                match find_char(v, va + fq + 1, vb, '"') {
                    Some(sq) => {
                        let ta = va + fq + 1;
                        let tb = ta + sq;
                        proof {
                            assert(val.subrange(fq + 1, fq + 1 + sq) =~= v@.subrange(ta as int, tb as int));
                            assert(val.take(fq + 1) =~= v@.subrange(va as int, ta as int));
                            crate::text::lemma_blen_concat(v@.subrange(va as int, ta as int), v@.subrange(ta as int, tb as int));
                            assert(v@.subrange(va as int, ta as int) + v@.subrange(ta as int, tb as int) =~= v@.subrange(va as int, tb as int));
                            crate::text::lemma_blen_concat(v@.subrange(va as int, tb as int), v@.subrange(tb as int, vb as int));
                            assert(v@.subrange(va as int, tb as int) + v@.subrange(tb as int, vb as int) =~= val);
                        }
                        let builtin = builtin_textures_exec();
                        if !in_list(v, ta, tb, &builtin) {
                            let ts = cv + range_blen(v, va, ta);
                            let te = ts + range_blen(v, ta, tb);
                            let mut m = str_string("Unknown built-in texture default '");
                            push_range(&mut m, v, ta, tb);
                            push_str(
                                &mut m,
                                "'. Standard Unity texture defaults are: \"white\", \"black\", \"gray\", \"bump\", \"red\", or \"\".",
                            );
                            report(out, idx, ts, te, 2, m);
                        }
                    },
                    None => {},
                }
            },
            None => {},
        }
    }
    proof {
        assert(findings_view(out@) =~= f0 + texture_default(
            val,
            idx as int,
            cv as int,
            v@.subrange(na as int, nb as int),
            v@.subrange(pa as int, pb as int),
        ));
    }
}

} // verus!

verus! {

/// Appends `default_findings` of the declaration rest `v[wa..we]`.
fn default_findings_exec(
    out: &mut Vec<PropertyFinding>,
    v: &[char],
    la: usize,
    lb: usize,
    wa: usize,
    we: usize,
    idx: usize,
    col: usize,
    ba: usize,
    bb: usize,
    na: usize,
    nb: usize,
    pa: usize,
    pb: usize,
)
    requires
        la <= lb <= v@.len(),
        wa <= we <= v@.len(),
        ba <= bb <= v@.len(),
        na <= nb <= v@.len(),
        pa <= pb <= v@.len(),
        blen(v@) <= isize::MAX,
        col <= blen(v@),
    ensures
        findings_view(final(out)@) == findings_view(old(out)@) + default_findings(
            v@.subrange(wa as int, we as int),
            v@.subrange(la as int, lb as int),
            idx as int,
            col as int,
            v@.subrange(ba as int, bb as int),
            v@.subrange(na as int, nb as int),
            v@.subrange(pa as int, pb as int),
        ),
{
    let ghost f0 = findings_view(out@);
    let ghost w = v@.subrange(wa as int, we as int);
    let ghost raw = v@.subrange(la as int, lb as int);
    let ghost base = v@.subrange(ba as int, bb as int);
    let ghost name = v@.subrange(na as int, nb as int);
    let ghost ptype = v@.subrange(pa as int, pb as int);
    proof {
        lemma_blen_subrange(v@, la as int, lb as int);
    }
    match find_char(v, wa, we, '=') {
        Some(eq) => {
            let (va, vb) = trim_range(v, wa + eq + 1, we);
            proof {
                assert(w.subrange(eq + 1, w.len() as int) =~= v@.subrange(wa + eq + 1, we as int));
            }
            if va == vb {
                let rl = range_blen(v, la, lb);
                let dflt = if rl >= 1 {
                    rl - 1
                } else {
                    0
                };
                let c = last_char_col(v, la, lb, '=', dflt);
                let mut m = str_string("Missing default value after '=' for ");
                push_range(&mut m, v, pa, pb);
                push_str(&mut m, " property '");
                push_range(&mut m, v, na, nb);
                push_str(&mut m, "'.");
                report(out, idx, c, rl, 1, m);
                assert(findings_view(out@) =~= f0 + default_findings(w, raw, idx as int, col as int, base, name, ptype));
            } else {
                let (cv, _n) = col_and_len(v, la, lb, va, vb, col);
                if eq_str(v, ba, bb, "Color") || eq_str(v, ba, bb, "Vector") {
                    vector_default_exec(out, v, va, vb, idx, cv, na, nb, pa, pb);
                } else if eq_str(v, ba, bb, "Float") || eq_str(v, ba, bb, "Int") || eq_str(v, ba, bb, "Integer")
                    || eq_str(v, ba, bb, "Range") {
                    let lim = numeric_limits_exec(v, ba, bb, pa, pb);
                    scalar_default_exec(out, v, va, vb, idx, cv, na, nb, pa, pb, lim);
                } else {
                    let tex = texture_types_exec();
                    if in_list(v, ba, bb, &tex) {
                        texture_default_exec(out, v, va, vb, idx, cv, na, nb, pa, pb);
                    }
                }
                assert(findings_view(out@) =~= f0 + default_findings(w, raw, idx as int, col as int, base, name, ptype));
            }
        },
        None => {
            let (cn, _n) = col_and_len(v, la, lb, na, nb, 0);
            let rl = range_blen(v, la, lb);
            let mut m = str_string("Missing '=' in property declaration for '");
            push_range(&mut m, v, na, nb);
            push_str(&mut m, "'. Expected: ");
            push_range(&mut m, v, na, nb);
            push_str(&mut m, " (\"...\", ");
            push_range(&mut m, v, pa, pb);
            push_str(&mut m, ") = defaultValue");
            report(out, idx, cn, rl, 1, m);
            assert(findings_view(out@) =~= f0 + default_findings(w, raw, idx as int, col as int, base, name, ptype));
        },
    }
}

} // verus!

verus! {

/// Appends the findings of `declared_type` of `v[aa..ae]` and returns the
/// bounds of the type.
fn declared_type_exec(out: &mut Vec<PropertyFinding>, v: &[char], la: usize, lb: usize, aa: usize, ae: usize, idx: usize) -> (r: (usize, usize))
    requires
        la <= lb <= v@.len(),
        aa <= ae <= v@.len(),
        blen(v@) <= isize::MAX,
    ensures
        r.0 <= r.1 <= v@.len(),
        ({
            let dt = declared_type(v@.subrange(aa as int, ae as int), v@.subrange(la as int, lb as int), idx as int);
            &&& v@.subrange(r.0 as int, r.1 as int) == dt.0
            &&& findings_view(final(out)@) == findings_view(old(out)@) + dt.1
        }),
{
    let ghost f0 = findings_view(out@);
    let ghost after = v@.subrange(aa as int, ae as int);
    let ghost raw = v@.subrange(la as int, lb as int);
    proof {
        assert(v@.subrange(aa as int, aa as int) =~= Seq::<char>::empty());
        assert(f0 + Seq::<FindingModel>::empty() =~= f0);
    }
    match find_char(v, aa, ae, '"') {
        Some(q1) => {
            proof {
                assert(after.subrange(q1 + 1, after.len() as int) =~= v@.subrange(aa + q1 + 1, ae as int));
            }
            match find_char(v, aa + q1 + 1, ae, '"') {
                Some(q2) => {
                    let sa = aa + q1 + q2 + 2;
                    proof {
                        assert(after.subrange(q1 + q2 + 2, after.len() as int) =~= v@.subrange(sa as int, ae as int));
                    }
                    match find_char(v, sa, ae, ',') {
                        Some(ci) => {
                            proof {
                                let a2 = v@.subrange(sa as int, ae as int);
                                assert(a2.subrange(ci + 1, a2.len() as int) =~= v@.subrange(sa + ci + 1, ae as int));
                            }
                            let (ra, rb) = trim_range(v, sa + ci + 1, ae);
                            let te = crate::props::close_paren_exec(v, ra, rb);
                            proof {
                                assert(v@.subrange(ra as int, rb as int).subrange(0, te - ra) =~= v@.subrange(ra as int, te as int));
                            }
                            trim_range(v, ra, te)
                        },
                        None => (aa, aa),
                    }
                },
                None => {
                    let c = char_col(v, la, lb, '"');
                    proof {
                        lemma_blen_subrange(v@, la as int, lb as int);
                    }
                    let end = range_blen(v, la, lb);
                    report(out, idx, c, end, 1, str_string("Unclosed string quote in property display name."));
                    (aa, aa)
                },
            }
        },
        None => {
            match find_char(v, aa, ae, ')') {
                Some(cp) => {
                    let parts = split_ranges(v, aa, aa + cp, ',');
                    proof {
                        assert(after.subrange(0, cp as int) =~= v@.subrange(aa as int, aa + cp));
                    }
                    if parts.len() > 1 {
                        let (xa, xb) = parts[1];
                        trim_range(v, xa, xb)
                    } else {
                        (aa, aa)
                    }
                },
                None => (aa, aa),
            }
        },
    }
}

/// A property declared so far.
struct PropRec {
    name: String,
    p_type: String,
    line: usize,
    col: usize,
}

spec fn prop_rec_view(p: PropRec) -> PropEntry {
    PropEntry { name: p.name@, p_type: p.p_type@, line: p.line as int, col: p.col as int }
}

spec fn props_view(v: Seq<PropRec>) -> Seq<PropEntry> {
    v.map_values(|p: PropRec| prop_rec_view(p))
}

} // verus!

verus! {

/// `type_suggestion` of `v[ba..bb]`.
fn type_suggestion_exec(v: &[char], ba: usize, bb: usize) -> (r: &'static str)
    requires
        ba <= bb <= v@.len(),
    ensures
        r@ == type_suggestion(v@.subrange(ba as int, bb as int)),
{
    if eq_str(v, ba, bb, "float4") || eq_str(v, ba, bb, "half4") || eq_str(v, ba, bb, "Vector4") || eq_str(v, ba, bb, "Vector3")
        || eq_str(v, ba, bb, "float3") {
        " Did you mean 'Vector' or 'Color'?"
    } else if eq_str(v, ba, bb, "Texture") || eq_str(v, ba, bb, "Texture2D") || eq_str(v, ba, bb, "sampler2D") {
        " Did you mean '2D'?"
    } else if eq_str(v, ba, bb, "TextureCube") || eq_str(v, ba, bb, "samplerCUBE") {
        " Did you mean 'Cube'?"
    } else if eq_str(v, ba, bb, "bool") || eq_str(v, ba, bb, "Boolean") {
        " ShaderLab has no 'bool' property type. Use 'Float' with a [Toggle] attribute."
    } else if eq_str(v, ba, bb, "float") || eq_str(v, ba, bb, "half") || eq_str(v, ba, bb, "double") {
        " Did you mean 'Float'?"
    } else if eq_str(v, ba, bb, "int") || eq_str(v, ba, bb, "uint") {
        " Did you mean 'Int'?"
    } else if eq_str(v, ba, bb, "float4x4") || eq_str(v, ba, bb, "Matrix") || eq_str(v, ba, bb, "matrix") {
        " ShaderLab Properties block does not support matrices (float4x4). Declare it in HLSL cbuffer and set via C# material.SetMatrix()."
    } else if contains_char(v, ba, bb, '[') || contains_str(v, ba, bb, "Array") {
        " ShaderLab Properties block does not support arrays. Declare the array in HLSL and set via C# material.SetFloatArray() / material.SetMatrixArray()."
    } else {
        " Valid ShaderLab types: Color, Float, Int, Range(min, max), 2D, 3D, Cube, 2DArray, Vector, Rect."
    }
}

/// Every property's name stands within the text, at its column.
spec fn props_fit(props: Seq<PropRec>, v: Seq<char>) -> bool {
    forall|i: int| 0 <= i < props.len() ==> (#[trigger] props[i]).col + blen(props[i].name@) <= blen(v)
}

/// Appends the findings of `declaration_findings` of the trimmed line
/// `v[ta..tb]` (raw line `v[la..lb]`) and records its property.
fn declaration_exec(
    out: &mut Vec<PropertyFinding>,
    props: &mut Vec<PropRec>,
    v: &[char],
    la: usize,
    lb: usize,
    ta: usize,
    tb: usize,
    idx: usize,
)
    requires
        la <= ta <= tb <= lb <= v@.len(),
        blen(v@) <= isize::MAX,
        props_fit(old(props)@, v@),
    ensures
        props_fit(final(props)@, v@),
        ({
            let d = declaration_findings(
                v@.subrange(ta as int, tb as int),
                v@.subrange(la as int, lb as int),
                idx as int,
                props_view(old(props)@),
            );
            &&& findings_view(final(out)@) == findings_view(old(out)@) + d.0
            &&& props_view(final(props)@) == d.1
        }),
{
    let ghost f0 = findings_view(out@);
    let ghost p0 = props_view(props@);
    let ghost t = v@.subrange(ta as int, tb as int);
    let ghost raw = v@.subrange(la as int, lb as int);
    proof {
        lemma_blen_subrange(v@, la as int, lb as int);
        assert(seq![';'] =~= [';']@);
        assert(seq!['('] =~= ['(']@);
    }
    let rl = range_blen(v, la, lb);
    let rl1 = if rl >= 1 {
        rl - 1
    } else {
        0
    };
    if ends_with_char(v, ta, tb, ';') {
        let c = last_char_col(v, la, lb, ';', rl1);
        report(out, idx, c, c + 1, 2, str_string("ShaderLab property declarations do not use trailing semicolons ';'. Remove ';'"));
    }
    let ce = trim_end_set_range(v, ta, tb, &[';']);
    let (ca, cb) = trim_range(v, ta, ce);
    let (ws, we, unclosed, attrs) = split_attrs_exec(v, ca, cb);
    if unclosed {
        let c = char_col(v, la, lb, '[');
        report(out, idx, c, rl, 1, str_string("Unclosed attribute bracket '['. Expected closing ']'."));
    }
    let ghost fh = findings_view(out@);
    let ghost w = v@.subrange(ws as int, we as int);
    if starts_with_char(v, ws, we, '(') {
        let c = char_col(v, la, lb, '(');
        proof {
            lemma_blen_subrange(v@, ws as int, we as int);
        }
        let n = range_blen(v, ws, we);
        report(
            out,
            idx,
            c,
            c + n,
            1,
            str_string("Missing property name before '('. Expected syntax: _PropertyName (\"DisplayName\", Type) = defaultValue"),
        );
        assert(findings_view(out@) =~= f0 + declaration_findings(t, raw, idx as int, p0).0);
        return;
    }
    if contains_char(v, ws, we, '(') {
        named_exec(out, props, v, la, lb, ws, we, &attrs, idx);
        proof {
            assert(findings_view(out@) =~= f0 + declaration_findings(t, raw, idx as int, p0).0);
        }
        return;
    }
    if ws < we {
        let (c, n) = col_and_len(v, la, lb, ws, we, 0);
        report(
            out,
            idx,
            c,
            c + n,
            1,
            str_string("Incomplete property declaration. Expected syntax: _PropertyName (\"DisplayName\", Type) = defaultValue"),
        );
    }
    assert(findings_view(out@) =~= f0 + declaration_findings(t, raw, idx as int, p0).0);
}

} // verus!

verus! {

/// Appends `typed_findings` for the property `v[na..nb]` of type `v[pa..pb]`.
fn typed_exec(
    out: &mut Vec<PropertyFinding>,
    v: &[char],
    la: usize,
    lb: usize,
    ws: usize,
    we: usize,
    attrs: &Vec<(usize, usize)>,
    idx: usize,
    cn: usize,
    na: usize,
    nb: usize,
    pa: usize,
    pb: usize,
)
    requires
        la <= lb <= v@.len(),
        ws <= we <= v@.len(),
        na <= nb <= v@.len(),
        pa <= pb <= v@.len(),
        ranges_within(attrs@, 0, v@.len() as int),
        blen(v@) <= isize::MAX,
        cn <= blen(v@),
    ensures
        findings_view(final(out)@) == findings_view(old(out)@) + typed_findings(
            v@.subrange(ws as int, we as int),
            crate::splits::pieces(v@, attrs@),
            v@.subrange(la as int, lb as int),
            idx as int,
            cn as int,
            v@.subrange(na as int, nb as int),
            v@.subrange(pa as int, pb as int),
        ),
{
    let ghost f0 = findings_view(out@);
    proof {
        assert(seq!['('] =~= ['(']@);
    }
    let e2 = before_any_range(v, pa, pb, &['(']);
    let (ba, bb) = trim_range(v, pa, e2);
    let (ct, tl) = col_and_len(v, la, lb, pa, pb, cn);
    let valid = valid_types_exec();
    if !in_list(v, ba, bb, &valid) {
        let mut m = str_string("Unknown property type '");
        push_range(&mut m, v, pa, pb);
        push_str(&mut m, "'.");
        push_str(&mut m, type_suggestion_exec(v, ba, bb));
        report(out, idx, ct, ct + tl, 1, m);
    }
    let ghost f1 = findings_view(out@);
    attr_findings_exec(out, v, la, lb, attrs, idx, cn, ba, bb, na, nb, pa, pb);
    range_findings_exec(out, v, la, lb, idx, cn, ba, bb, na, nb, pa, pb);
    default_findings_exec(out, v, la, lb, ws, we, idx, cn, ba, bb, na, nb, pa, pb);
    proof {
        assert(findings_view(out@) =~= f0 + typed_findings(
            v@.subrange(ws as int, we as int),
            crate::splits::pieces(v@, attrs@),
            v@.subrange(la as int, lb as int),
            idx as int,
            cn as int,
            v@.subrange(na as int, nb as int),
            v@.subrange(pa as int, pb as int),
        ));
    }
}

/// Appends `named_findings` of the declaration rest `v[ws..we]` and records
/// its property.
fn named_exec(
    out: &mut Vec<PropertyFinding>,
    props: &mut Vec<PropRec>,
    v: &[char],
    la: usize,
    lb: usize,
    ws: usize,
    we: usize,
    attrs: &Vec<(usize, usize)>,
    idx: usize,
)
    requires
        la <= ws <= we <= lb <= v@.len(),
        ranges_within(attrs@, 0, v@.len() as int),
        blen(v@) <= isize::MAX,
        props_fit(old(props)@, v@),
    ensures
        props_fit(final(props)@, v@),
        ({
            let d = named_findings(
                v@.subrange(ws as int, we as int),
                crate::splits::pieces(v@, attrs@),
                v@.subrange(la as int, lb as int),
                idx as int,
                props_view(old(props)@),
            );
            &&& findings_view(final(out)@) == findings_view(old(out)@) + d.0
            &&& props_view(final(props)@) == d.1
        }),
{
    let ghost f0 = findings_view(out@);
    let ghost p0 = props_view(props@);
    let ghost w = v@.subrange(ws as int, we as int);
    let ghost raw = v@.subrange(la as int, lb as int);
    let ghost ats = crate::splits::pieces(v@, attrs@);
    proof {
        assert(seq!['('] =~= ['(']@);
        lemma_blen_subrange(v@, la as int, lb as int);
    }
    let e = before_any_range(v, ws, we, &['(']);
    let (na, nb) = trim_range(v, ws, e);
    let (cn, cne0) = piece_span(v, la, lb, na, nb, 0);
    let cne = if na < nb {
        cne0
    } else {
        cn + 1
    };
    let ghost name = v@.subrange(na as int, nb as int);
    proof {
        if na < nb {
            crate::text::lemma_blen_ge_len(name);
        } else {
            assert(name.len() == 0);
        }
    }
    if !is_identifier_range(v, na, nb) {
        let mut m = str_string("Invalid property name '");
        push_range(&mut m, v, na, nb);
        push_str(&mut m, "'. Property names must start with an underscore or letter.");
        report(out, idx, cn, cne, 1, m);
        assert(findings_view(out@) =~= f0 + named_findings(w, ats, raw, idx as int, p0).0);
        return;
    }
    let mut dup = false;
    let mut i: usize = 0;
    while i < props.len()
        invariant
            i <= props@.len(),
            na <= nb <= v@.len(),
            name == v@.subrange(na as int, nb as int),
            p0 == props_view(props@),
            dup == exists|j: int| 0 <= j < i && (#[trigger] p0[j]).name == name,
        decreases props.len() - i,
    {
        assert(p0[i as int] == prop_rec_view(props@[i as int]));
        if eq_str(v, na, nb, props[i].name.as_str()) {
            dup = true;
        }
        i = i + 1;
    }
    if dup {
        let mut m = str_string("Duplicate property name '");
        push_range(&mut m, v, na, nb);
        push_str(&mut m, "' in Properties block.");
        report(out, idx, cn, cne, 1, m);
    }
    let pi = match find_char(v, ws, we, '(') {
        Some(k) => k,
        None => 0,
    };
    proof {
        assert(w.subrange(pi + 1, w.len() as int) =~= v@.subrange(ws + pi + 1, we as int));
    }
    let (pa, pb) = declared_type_exec(out, v, la, lb, ws + pi + 1, we, idx);
    let ghost ptype = v@.subrange(pa as int, pb as int);
    if pa < pb {
        typed_exec(out, v, la, lb, ws, we, attrs, idx, cn, na, nb, pa, pb);
        let ghost old_props = props@;
        props.push(PropRec { name: range_string(v, na, nb), p_type: range_string(v, pa, pb), line: idx, col: cn });
        proof {
            assert(props_view(props@) =~= p0.push(PropEntry { name, p_type: ptype, line: idx as int, col: cn as int }));
            assert(forall|j: int| 0 <= j < old_props.len() ==> props@[j] == old_props[j]);
        }
    }
    proof {
        assert(findings_view(out@) =~= f0 + named_findings(w, ats, raw, idx as int, p0).0);
    }
}

} // verus!

verus! {

/// The trimmed constant-buffer statement lines of the text `v` (lines given
/// by `ranges`), as ranges.
fn cbuffer_lines_exec(v: &[char], ranges: &Vec<(usize, usize)>) -> (r: Vec<(usize, usize)>)
    requires
        ranges_within(ranges@, 0, v@.len() as int),
        ranges_hold(v@, ranges@, lines(v@)),
    ensures
        ranges_within(r@, 0, v@.len() as int),
        crate::splits::pieces(v@, r@) == cbuffer_lines(v@),
{
    let ghost ls = lines(v@);
    let mut r: Vec<(usize, usize)> = Vec::new();
    let mut in_cb = false;
    let mut i: usize = 0;
    while i < ranges.len()
        invariant
            i <= ranges@.len(),
            ls == lines(v@),
            ranges_within(ranges@, 0, v@.len() as int),
            ranges_hold(v@, ranges@, ls),
            ranges_within(r@, 0, v@.len() as int),
            cb_scan(ls, i as int) == (in_cb, crate::splits::pieces(v@, r@)),
        decreases ranges.len() - i,
    {
        let (la, lb) = ranges[i];
        assert(ls[i as int] == v@.subrange(la as int, lb as int));
        let (ta, tb) = trim_range(v, la, lb);
        if starts_with_str(v, ta, tb, "CBUFFER_START") || starts_with_str(v, ta, tb, "cbuffer ") {
            in_cb = true;
        } else if starts_with_str(v, ta, tb, "CBUFFER_END") || (in_cb && starts_with_str(v, ta, tb, "};")) {
            in_cb = false;
        } else if in_cb && ends_with_char(v, ta, tb, ';') && !starts_with_str(v, ta, tb, "//") {
            let ghost old_r = r@;
            r.push((ta, tb));
            assert(crate::splits::pieces(v@, r@) =~= crate::splits::pieces(v@, old_r).push(v@.subrange(ta as int, tb as int)));
        }
        i = i + 1;
    }
    r
}

/// `line_declares(v[a..b], name)`.
fn line_declares_exec(v: &[char], a: usize, b: usize, name: &str) -> (r: bool)
    requires
        a <= b <= v@.len(),
    ensures
        r == line_declares(v@.subrange(a as int, b as int), name@),
{
    let ghost ws = words(v@.subrange(a as int, b as int));
    let toks = word_ranges(v, a, b);
    proof {
        assert(seq![';', ','] =~= [';', ',']@);
    }
    let mut j: usize = 0;
    while j < toks.len()
        invariant
            j <= toks@.len(),
            a <= b <= v@.len(),
            ranges_within(toks@, a as int, b as int),
            ranges_hold(v@, toks@, ws),
            ws == words(v@.subrange(a as int, b as int)),
            seq![';', ','] == [';', ',']@,
            forall|k: int| 0 <= k < j ==> trim_set(#[trigger] ws[k], seq![';', ',']) != name@,
        decreases toks.len() - j,
    {
        let (x, y) = toks[j];
        assert(ws[j as int] == v@.subrange(x as int, y as int));
        let (p, q) = crate::splits::trim_set_range(v, x, y, &[';', ',']);
        if eq_str(v, p, q, name) {
            return true;
        }
        j = j + 1;
    }
    false
}

/// `contains(v, pre + name + post)`.
fn contains_wrapped(v: &[char], pre: &str, name: &str, post: &str) -> (r: bool)
    ensures
        r == contains(v@, pre@ + name@ + post@),
{
    let mut p = str_string(pre);
    push_str(&mut p, name);
    push_str(&mut p, post);
    let pc = crate::text::to_chars(p.as_str());
    proof {
        assert(v@.subrange(0, v@.len() as int) =~= v@);
    }
    crate::strops::find_chars(v, 0, v.len(), pc.as_slice()).is_some()
}

/// `texture_declared(v, name)`.
fn texture_declared_exec(v: &[char], name: &str) -> (r: bool)
    ensures
        r == texture_declared(v@, name@),
{
    contains_wrapped(v, "TEXTURE2D(", name, ")") || contains_wrapped(v, "sampler2D ", name, ";") || contains_wrapped(
        v,
        "Texture2D ",
        name,
        ";",
    ) || contains_wrapped(v, "TEXTURECUBE(", name, ")") || contains_wrapped(v, "TextureCube ", name, ";")
        || contains_wrapped(v, "TEXTURE3D(", name, ")") || contains_wrapped(v, "TEXTURE2D_ARRAY(", name, ")")
}

/// Appends a URP warning at a property.
fn urp_report(out: &mut Vec<PropertyFinding>, p: &PropRec, message: String)
    requires
        p.col + blen(p.name@) <= usize::MAX,
    ensures
        findings_view(final(out)@) == findings_view(old(out)@).push(urp_warning(prop_rec_view(*p), message@)),
{
    let ghost f0 = findings_view(out@);
    let n = crate::text::to_chars_sized(p.name.as_str());
    proof {
        assert(n@.take(n@.len() as int) =~= n@);
    }
    let len = crate::text::byte_offset(n.as_slice(), n.len());
    out.push(PropertyFinding::Report(line_diag(p.line, p.col, p.col + len, 2, message, "unity-urp")));
    assert(findings_view(out@) =~= f0.push(urp_warning(prop_rec_view(*p), message@)));
}

} // verus!

verus! {

/// Appends `urp_findings` of the text `v` for the properties `props`.
fn urp_findings_exec(out: &mut Vec<PropertyFinding>, v: &[char], ranges: &Vec<(usize, usize)>, props: &Vec<PropRec>)
    requires
        ranges_within(ranges@, 0, v@.len() as int),
        ranges_hold(v@, ranges@, lines(v@)),
        props_fit(props@, v@),
        blen(v@) <= usize::MAX,
    ensures
        findings_view(final(out)@) == findings_view(old(out)@) + urp_findings(v@, props_view(props@)),
{
    let ghost f0 = findings_view(out@);
    let ghost pv = props_view(props@);
    let n = v.len();
    proof {
        assert(v@.subrange(0, n as int) =~= v@);
    }
    let urp = contains_str(v, 0, n, "UniversalPipeline") || contains_str(v, 0, n, "com.unity.render-pipelines.universal")
        || contains_str(v, 0, n, "UniversalForward") || contains_str(v, 0, n, "Universal2D");
    let has_cb = contains_str(v, 0, n, "CBUFFER_START") || contains_str(v, 0, n, "cbuffer ");
    if urp && props.len() > 0 && !has_cb {
        assert(pv[0] == prop_rec_view(props@[0]));
        urp_report(
            out,
            &props[0],
            str_string("URP shader with material properties should define 'CBUFFER_START(UnityPerMaterial) ... CBUFFER_END' for SRP Batcher compatibility."),
        );
        assert(findings_view(out@) =~= f0 + urp_findings(v@, pv));
    } else if urp && has_cb {
        let cbl = cbuffer_lines_exec(v, ranges);
        let ghost cl = cbuffer_lines(v@);
        let mut k: usize = 0;
        while k < props.len()
            invariant
                k <= props@.len(),
                pv == props_view(props@),
                props_fit(props@, v@),
                blen(v@) <= usize::MAX,
                ranges_within(cbl@, 0, v@.len() as int),
                crate::splits::pieces(v@, cbl@) == cl,
                cl == cbuffer_lines(v@),
                f0 + cbuffer_findings(v@, pv, 0) == findings_view(out@) + cbuffer_findings(v@, pv, k as int),
            decreases props.len() - k,
        {
            let ghost fk = findings_view(out@);
            let p = &props[k];
            assert(pv[k as int] == prop_rec_view(props@[k as int]));
            assert(p.col + blen(p.name@) <= blen(v@));
            let tex = eq_str_whole(p.p_type.as_str(), "2D") || eq_str_whole(p.p_type.as_str(), "3D") || eq_str_whole(
                p.p_type.as_str(),
                "Cube",
            ) || eq_str_whole(p.p_type.as_str(), "2DArray");
            if tex {
                if !texture_declared_exec(v, p.name.as_str()) {
                    let mut m = str_string("Texture property '");
                    push_str(&mut m, p.name.as_str());
                    push_str(&mut m, "' is defined in Properties but texture declaration is missing in HLSL (e.g. 'TEXTURE2D(");
                    push_str(&mut m, p.name.as_str());
                    push_str(&mut m, "); SAMPLER(sampler_");
                    push_str(&mut m, p.name.as_str());
                    push_str(&mut m, ");').");
                    urp_report(out, p, m);
                }
            } else {
                let mut found = false;
                let mut j: usize = 0;
                while j < cbl.len()
                    invariant
                        j <= cbl@.len(),
                        ranges_within(cbl@, 0, v@.len() as int),
                        crate::splits::pieces(v@, cbl@) == cl,
                        found == exists|i: int| 0 <= i < j && line_declares(#[trigger] cl[i], p.name@),
                    decreases cbl.len() - j,
                {
                    let (x, y) = cbl[j];
                    assert(cl[j as int] == v@.subrange(x as int, y as int));
                    if line_declares_exec(v, x, y, p.name.as_str()) {
                        found = true;
                    }
                    j = j + 1;
                }
                if !found {
                    let mut m = str_string("Property '");
                    push_str(&mut m, p.name.as_str());
                    push_str(&mut m, "' is defined in Properties but not declared in 'CBUFFER_START(UnityPerMaterial)'. Add '");
                    push_str(&mut m, suggested_type_exec(p.p_type.as_str()));
                    push_str(&mut m, " ");
                    push_str(&mut m, p.name.as_str());
                    push_str(&mut m, ";' to CBuffer for SRP Batcher compatibility.");
                    urp_report(out, p, m);
                }
            }
            proof {
                assert(findings_view(out@) + cbuffer_findings(v@, pv, k + 1) =~= fk + cbuffer_findings(v@, pv, k as int));
            }
            k = k + 1;
        }
        assert(findings_view(out@) =~= f0 + urp_findings(v@, pv));
    } else {
        assert(findings_view(out@) =~= f0 + urp_findings(v@, pv));
    }
}

/// `s == lit`.
fn eq_str_whole(s: &str, lit: &str) -> (r: bool)
    ensures
        r == (s@ == lit@),
{
    let c = crate::text::to_chars(s);
    assert(c@.subrange(0, c@.len() as int) =~= c@);
    eq_str(c.as_slice(), 0, c.len(), lit)
}

/// `suggested_type(p)`.
fn suggested_type_exec(p: &str) -> (r: &'static str)
    ensures
        r@ == suggested_type(p@),
{
    let c = crate::text::to_chars(p);
    assert(c@.subrange(0, c@.len() as int) =~= c@);
    if eq_str(c.as_slice(), 0, c.len(), "Float") {
        "float"
    } else if starts_with_str(c.as_slice(), 0, c.len(), "Range") {
        "float"
    } else if eq_str(c.as_slice(), 0, c.len(), "Int") {
        "int"
    } else if eq_str(c.as_slice(), 0, c.len(), "Color") {
        "half4"
    } else {
        "float4"
    }
}

/// Checks the `Properties` block of a ShaderLab text (declaration syntax,
/// names, types, attributes, `Range` limits and defaults) and, for a URP
/// shader, that each property has its texture or `CBUFFER` declaration.
/// The two comparisons of floating-point values come back as findings.
pub fn validate_shaderlab_properties_and_cbuffer(content: &str) -> (r: Vec<PropertyFinding>)
    requires
        blen(content@) <= isize::MAX,
    ensures
        findings_view(r@) == property_findings(content@),
{
    let (v, ranges) = lines_of(content);
    let ghost ls = lines(v@);
    let mut out: Vec<PropertyFinding> = Vec::new();
    let mut props: Vec<PropRec> = Vec::new();
    let mut inside = false;
    let mut depth: usize = 0;
    let mut idx: usize = 0;
    proof {
        assert(findings_view(out@) =~= Seq::<FindingModel>::empty());
        assert(props_view(props@) =~= Seq::<PropEntry>::empty());
    }
    while idx < ranges.len()
        invariant
            v@ == content@,
            ls == lines(v@),
            blen(v@) <= isize::MAX,
            ranges_within(ranges@, 0, v@.len() as int),
            ranges_hold(v@, ranges@, ls),
            crate::splits::ranges_gapped(ranges@),
            idx <= ranges@.len(),
            idx == 0 ==> depth == 0,
            idx > 0 ==> depth <= ranges@[idx - 1].1,
            props_fit(props@, v@),
            prop_check_scan(ls, idx as int) == (PropCheck {
                findings: findings_view(out@),
                props: props_view(props@),
                inside,
                depth: depth as nat,
            }),
        decreases ranges.len() - idx,
    {
        let (la, lb) = ranges[idx];
        proof {
            if idx > 0 {
                assert(ranges@[idx - 1].1 < ranges@[idx as int].0);
            }
            assert(ls[idx as int] == v@.subrange(la as int, lb as int));
        }
        let vs = v.as_slice();
        let (ta, tb) = trim_range(vs, la, lb);
        let ghost f0 = findings_view(out@);
        if !starts_with_str(vs, ta, tb, "//") {
            let starts = starts_with_str(vs, ta, tb, "Properties");
            if starts && !inside {
                inside = true;
                depth = 0;
            }
            if inside {
                let d = depth + count_char_in(vs, ta, tb, '{');
                let c = count_char_in(vs, ta, tb, '}');
                if d > 0 && !starts && !starts_with_char(vs, ta, tb, '{') && !starts_with_char(vs, ta, tb, '}') && ta < tb {
                    declaration_exec(&mut out, &mut props, vs, la, lb, ta, tb, idx);
                } else {
                    assert(findings_view(out@) =~= f0 + Seq::<FindingModel>::empty());
                }
                if d > 0 && d <= c {
                    inside = false;
                    depth = 0;
                } else if d >= c {
                    depth = d - c;
                } else {
                    depth = 0;
                }
            }
        }
        proof {
            assert(prop_check_scan(ls, idx + 1) == prop_check_step(prop_check_scan(ls, idx as int), ls[idx as int], idx as int));
        }
        idx = idx + 1;
    }
    urp_findings_exec(&mut out, v.as_slice(), &ranges, &props);
    out
}

} // verus!

verus! {

/// The diagnostics among `fs`, in order.
pub open spec fn reports_of(fs: Seq<FindingModel>) -> Seq<DiagModel>
    decreases fs.len(),
{
    if fs.len() == 0 {
        seq![]
    } else {
        let r = reports_of(fs.drop_last());
        match fs.last() {
            FindingModel::Report(d) => r.push(d),
            _ => r,
        }
    }
}

/// The findings that are diagnostics already, in order; the comparisons
/// of numbers are left out.
pub fn reported(findings: &Vec<PropertyFinding>) -> (r: Vec<Diagnostic>)
    ensures
        diags_view(r@) == reports_of(findings_view(findings@)),
{
    let mut r: Vec<Diagnostic> = Vec::new();
    let mut i: usize = 0;
    while i < findings.len()
        invariant
            i <= findings@.len(),
            diags_view(r@) == reports_of(findings_view(findings@).take(i as int)),
        decreases findings.len() - i,
    {
        let ghost fs = findings_view(findings@).take(i + 1);
        assert(fs.drop_last() =~= findings_view(findings@).take(i as int));
        match &findings[i] {
            PropertyFinding::Report(d) => {
                let ghost r0 = diags_view(r@);
                r.push(crate::diagnostics::copy_diag(d));
                assert(diags_view(r@) =~= r0.push(d@));
            },
            _ => {},
        }
        i = i + 1;
    }
    assert(findings_view(findings@).take(findings@.len() as int) =~= findings_view(findings@));
    r
}

} // verus!
