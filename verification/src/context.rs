//! Which kind of shader a document is, and which block a line stands in.
use vstd::prelude::*;
use crate::splits::{lines, lines_of, ranges_hold, ranges_sorted, ranges_within};
use crate::strops::{
    contains, contains_str, count_char, count_char_in, ends_with, ends_with_str, eq_str, find,
    find_str, starts_with, starts_with_str, trim, trim_range,
};
use crate::text::to_chars;

verus! {

/// The dialect a shader document is written in.
#[derive(Debug, Clone, Copy, PartialEq, Eq, Structural)]
pub enum ShaderContext {
    PureHlsl,
    UnityShaderLab,
    UnityHlsl,
    UnrealEngine,
}

/// Some line of `content`, once trimmed, opens a ShaderLab `Shader "..."`
/// declaration and is no comment.
pub open spec fn has_shader_declaration(content: Seq<char>) -> bool {
    exists|k: int|
        0 <= k < lines(content).len() && {
            let t = trim(#[trigger] lines(content)[k]);
            !starts_with(t, "//"@) && !starts_with(t, "/*"@) && starts_with(t, "Shader \""@)
        }
}

/// The document is ShaderLab: a `.shader` file or one that declares a shader.
pub open spec fn is_shaderlab_doc(uri: Seq<char>, content: Seq<char>) -> bool {
    ends_with(uri, ".shader"@) || has_shader_declaration(content)
}

/// The document shows Unreal Engine markers in its location or its text.
pub open spec fn is_unreal_doc(uri: Seq<char>, content: Seq<char>) -> bool {
    ||| ends_with(uri, ".usf"@)
    ||| ends_with(uri, ".ush"@)
    ||| contains(uri, "/Engine/"@)
    ||| contains(uri, "\\Engine\\"@)
    ||| contains(uri, "/Shaders/Private"@)
    ||| contains(uri, "\\Shaders\\Private"@)
    ||| contains(uri, "/Shaders/Public"@)
    ||| contains(uri, "\\Shaders\\Public"@)
    ||| contains(content, "#include \"/Engine/"@)
    ||| contains(content, "#include \"Common.ush\""@)
    ||| contains(content, "FMaterialPixelParameters"@)
    ||| contains(content, "FMaterialVertexParameters"@)
    ||| contains(content, "ResolvedView."@)
    ||| contains(content, "SceneTexturesStruct"@)
}

/// The document lies in a Unity project or package location.
pub open spec fn in_unity_location(uri: Seq<char>) -> bool {
    ||| ends_with(uri, ".cginc"@)
    ||| ends_with(uri, ".compute"@)
    ||| contains(uri, "com.unity.render-pipelines"@)
    ||| contains(uri, "/Assets/"@)
    ||| contains(uri, "\\Assets\\"@)
    ||| contains(uri, "/Packages/"@)
    ||| contains(uri, "\\Packages\\"@)
}

/// The document's text uses Unity programs, macros or built-in variables.
pub open spec fn has_unity_markers(content: Seq<char>) -> bool {
    ||| contains(content, "HLSLPROGRAM"@)
    ||| contains(content, "CGPROGRAM"@)
    ||| contains(content, "#pragma kernel"@)
    ||| contains(content, "CBUFFER_START(UnityPerMaterial)"@)
    ||| contains(content, "TransformObjectToHClip"@)
    ||| contains(content, "TransformObjectToWorld"@)
    ||| contains(content, "UnityObjectToClipPos"@)
    ||| contains(content, "UnityShaderVariables"@)
    ||| contains(content, "UnityCG"@)
    ||| contains(content, "unity_ObjectToWorld"@)
    ||| contains(content, "unity_WorldToObject"@)
    ||| contains(content, "unity_MatrixVP"@)
    ||| contains(content, "UNITY_MATRIX_MVP"@)
    ||| contains(content, "_Time"@)
    ||| contains(content, "_SinTime"@)
    ||| contains(content, "_CosTime"@)
    ||| contains(content, "unity_DeltaTime"@)
    ||| contains(content, "SAMPLE_TEXTURE2D"@)
}

/// The dialect of a document, tested in order: ShaderLab, Unreal, Unity HLSL,
/// and plain HLSL when nothing matches.
pub open spec fn shader_context_of(uri: Seq<char>, content: Seq<char>) -> ShaderContext {
    if is_shaderlab_doc(uri, content) {
        ShaderContext::UnityShaderLab
    } else if is_unreal_doc(uri, content) {
        ShaderContext::UnrealEngine
    } else if in_unity_location(uri) || has_unity_markers(content) {
        ShaderContext::UnityHlsl
    } else {
        ShaderContext::PureHlsl
    }
}

fn has_shader_declaration_exec(v: &[char], ranges: &Vec<(usize, usize)>) -> (r: bool)
    requires
        ranges_within(ranges@, 0, v@.len() as int),
        ranges_hold(v@, ranges@, lines(v@)),
    ensures
        r == has_shader_declaration(v@),
{
    let mut i: usize = 0;
    while i < ranges.len()
        invariant
            i <= ranges@.len(),
            ranges_within(ranges@, 0, v@.len() as int),
            ranges_hold(v@, ranges@, lines(v@)),
            forall|k: int|
                0 <= k < i ==> !{
                    let t = trim(#[trigger] lines(v@)[k]);
                    !starts_with(t, "//"@) && !starts_with(t, "/*"@) && starts_with(
                        t,
                        "Shader \""@,
                    )
                },
        decreases ranges.len() - i,
    {
        let (a, b) = ranges[i];
        assert(v@.subrange(a as int, b as int) == lines(v@)[i as int]);
        let (ta, tb) = trim_range(v, a, b);
        if !starts_with_str(v, ta, tb, "//") && !starts_with_str(v, ta, tb, "/*")
            && starts_with_str(v, ta, tb, "Shader \"") {
            return true;
        }
        i = i + 1;
    }
    false
}

/// Detects the dialect of a shader document from its location and text.
pub fn detect_shader_context(uri: &str, content: &str) -> (r: ShaderContext)
    ensures
        r == shader_context_of(uri@, content@),
{
    let u = to_chars(uri);
    let un = u.len();
    let (c, ranges) = lines_of(content);
    let cn = c.len();
    proof {
        assert(u@.subrange(0, un as int) =~= u@);
        assert(c@.subrange(0, cn as int) =~= c@);
    }
    if ends_with_str(&u, 0, un, ".shader") || has_shader_declaration_exec(&c, &ranges) {
        return ShaderContext::UnityShaderLab;
    }
    let unreal_uri = ends_with_str(&u, 0, un, ".usf") || ends_with_str(&u, 0, un, ".ush")
        || contains_str(&u, 0, un, "/Engine/") || contains_str(&u, 0, un, "\\Engine\\")
        || contains_str(&u, 0, un, "/Shaders/Private") || contains_str(
        &u,
        0,
        un,
        "\\Shaders\\Private",
    ) || contains_str(&u, 0, un, "/Shaders/Public") || contains_str(
        &u,
        0,
        un,
        "\\Shaders\\Public",
    );
    let unreal_text = contains_str(&c, 0, cn, "#include \"/Engine/") || contains_str(
        &c,
        0,
        cn,
        "#include \"Common.ush\"",
    ) || contains_str(&c, 0, cn, "FMaterialPixelParameters") || contains_str(
        &c,
        0,
        cn,
        "FMaterialVertexParameters",
    ) || contains_str(&c, 0, cn, "ResolvedView.") || contains_str(
        &c,
        0,
        cn,
        "SceneTexturesStruct",
    );
    if unreal_uri || unreal_text {
        return ShaderContext::UnrealEngine;
    }
    let unity_uri = ends_with_str(&u, 0, un, ".cginc") || ends_with_str(&u, 0, un, ".compute")
        || contains_str(&u, 0, un, "com.unity.render-pipelines") || contains_str(
        &u,
        0,
        un,
        "/Assets/",
    ) || contains_str(&u, 0, un, "\\Assets\\") || contains_str(&u, 0, un, "/Packages/")
        || contains_str(&u, 0, un, "\\Packages\\");
    let unity_text = contains_str(&c, 0, cn, "HLSLPROGRAM") || contains_str(&c, 0, cn, "CGPROGRAM")
        || contains_str(&c, 0, cn, "#pragma kernel") || contains_str(
        &c,
        0,
        cn,
        "CBUFFER_START(UnityPerMaterial)",
    ) || contains_str(&c, 0, cn, "TransformObjectToHClip") || contains_str(
        &c,
        0,
        cn,
        "TransformObjectToWorld",
    ) || contains_str(&c, 0, cn, "UnityObjectToClipPos") || contains_str(
        &c,
        0,
        cn,
        "UnityShaderVariables",
    ) || contains_str(&c, 0, cn, "UnityCG") || contains_str(&c, 0, cn, "unity_ObjectToWorld")
        || contains_str(&c, 0, cn, "unity_WorldToObject") || contains_str(
        &c,
        0,
        cn,
        "unity_MatrixVP",
    ) || contains_str(&c, 0, cn, "UNITY_MATRIX_MVP") || contains_str(&c, 0, cn, "_Time")
        || contains_str(&c, 0, cn, "_SinTime") || contains_str(&c, 0, cn, "_CosTime")
        || contains_str(&c, 0, cn, "unity_DeltaTime") || contains_str(
        &c,
        0,
        cn,
        "SAMPLE_TEXTURE2D",
    );
    if unity_uri || unity_text {
        return ShaderContext::UnityHlsl;
    }
    ShaderContext::PureHlsl
}

/// Unity 2D sprite or UI markers in the location or the text.
pub open spec fn unity_2d_markers(uri: Seq<char>, content: Seq<char>) -> bool {
    ||| contains(content, "Universal2D"@)
    ||| contains(content, "CanUseSpriteAtlas"@)
    ||| contains(content, "PreviewType\"=\"Plane"@)
    ||| contains(content, "UnityPixelSnap"@)
    ||| contains(content, "[PerRendererData]"@)
    ||| contains(content, "Sprite"@)
    ||| contains(content, "UnityGet2DClipping"@)
    ||| contains(uri, "Sprite"@)
    ||| contains(uri, "2D"@)
    ||| contains(uri, "UI"@)
}

/// Does the document look like a Unity 2D (sprite or UI) shader?
pub fn is_unity_2d_context(uri: &str, content: &str) -> (r: bool)
    ensures
        r == unity_2d_markers(uri@, content@),
{
    let u = to_chars(uri);
    let c = to_chars(content);
    let un = u.len();
    let cn = c.len();
    proof {
        assert(u@.subrange(0, un as int) =~= u@);
        assert(c@.subrange(0, cn as int) =~= c@);
    }
    contains_str(&c, 0, cn, "Universal2D") || contains_str(&c, 0, cn, "CanUseSpriteAtlas")
        || contains_str(&c, 0, cn, "PreviewType\"=\"Plane") || contains_str(
        &c,
        0,
        cn,
        "UnityPixelSnap",
    ) || contains_str(&c, 0, cn, "[PerRendererData]") || contains_str(&c, 0, cn, "Sprite")
        || contains_str(&c, 0, cn, "UnityGet2DClipping") || contains_str(&u, 0, un, "Sprite")
        || contains_str(&u, 0, un, "2D") || contains_str(&u, 0, un, "UI")
}

/// An `#include` line whose target the validator replaces by a comment: Unity
/// packages, engine headers and the built-in Unity include files.
pub open spec fn stub_include_line(line: Seq<char>) -> bool {
    let t = trim(line);
    starts_with(t, "#include"@) && {
        ||| contains(t, "Packages/"@)
        ||| contains(t, "/Engine/"@)
        ||| contains(t, "/Plugin/"@)
        ||| contains(t, "UnityCG.cginc"@)
        ||| contains(t, "UnityUI.cginc"@)
        ||| contains(t, "AutoLight.cginc"@)
        ||| contains(t, "Lighting.cginc"@)
        ||| contains(t, "HLSLSupport.cginc"@)
        ||| contains(t, "TerrainEngine.cginc"@)
        ||| contains(t, "UnityShaderVariables.cginc"@)
        ||| contains(t, "UnityStandard"@)
        ||| contains(t, "UnityInstancing.cginc"@)
    }
}

/// Should this `#include` line be commented out before compiling?
pub fn should_stub_include(line: &str) -> (r: bool)
    ensures
        r == stub_include_line(line@),
{
    let v = to_chars(line);
    let (a, b) = trim_range(&v, 0, v.len());
    proof {
        assert(v@.subrange(0, v@.len() as int) =~= v@);
    }
    if !starts_with_str(&v, a, b, "#include") {
        return false;
    }
    contains_str(&v, a, b, "Packages/") || contains_str(&v, a, b, "/Engine/") || contains_str(
        &v,
        a,
        b,
        "/Plugin/",
    ) || contains_str(&v, a, b, "UnityCG.cginc") || contains_str(&v, a, b, "UnityUI.cginc")
        || contains_str(&v, a, b, "AutoLight.cginc") || contains_str(&v, a, b, "Lighting.cginc")
        || contains_str(&v, a, b, "HLSLSupport.cginc") || contains_str(
        &v,
        a,
        b,
        "TerrainEngine.cginc",
    ) || contains_str(&v, a, b, "UnityShaderVariables.cginc") || contains_str(
        &v,
        a,
        b,
        "UnityStandard",
    ) || contains_str(&v, a, b, "UnityInstancing.cginc")
}

/// A trimmed line that opens an HLSL program or include block.
pub open spec fn opens_hlsl_block(t: Seq<char>) -> bool {
    t == "HLSLPROGRAM"@ || t == "CGPROGRAM"@ || t == "HLSLINCLUDE"@ || t == "CGINCLUDE"@
}

/// A trimmed line that closes an HLSL block.
pub open spec fn closes_hlsl_block(t: Seq<char>) -> bool {
    t == "ENDHLSL"@ || t == "ENDCG"@
}

/// Whether an HLSL block is open after the first `n` lines: the last marker
/// line among them decides.
pub open spec fn hlsl_block_open_after(ls: Seq<Seq<char>>, n: int) -> bool
    decreases n,
{
    if n <= 0 {
        false
    } else {
        let t = trim(ls[n - 1]);
        if opens_hlsl_block(t) {
            true
        } else if closes_hlsl_block(t) {
            false
        } else {
            hlsl_block_open_after(ls, n - 1)
        }
    }
}

fn opens_hlsl_block_exec(v: &[char], a: usize, b: usize) -> (r: bool)
    requires
        a <= b <= v@.len(),
    ensures
        r == opens_hlsl_block(v@.subrange(a as int, b as int)),
{
    eq_str(v, a, b, "HLSLPROGRAM") || eq_str(v, a, b, "CGPROGRAM") || eq_str(v, a, b, "HLSLINCLUDE")
        || eq_str(v, a, b, "CGINCLUDE")
}

fn closes_hlsl_block_exec(v: &[char], a: usize, b: usize) -> (r: bool)
    requires
        a <= b <= v@.len(),
    ensures
        r == closes_hlsl_block(v@.subrange(a as int, b as int)),
{
    eq_str(v, a, b, "ENDHLSL") || eq_str(v, a, b, "ENDCG")
}

/// Does line `target_line` stand inside an `HLSLPROGRAM`/`CGPROGRAM`/
/// `HLSLINCLUDE`/`CGINCLUDE` block?  A marker line counts as inside when it
/// opens a block and outside when it closes one; a line past the end is
/// outside.
pub fn is_inside_hlsl_block(doc: &str, target_line: usize) -> (r: bool)
    ensures
        r == (target_line < lines(doc@).len() && hlsl_block_open_after(
            lines(doc@),
            target_line + 1,
        )),
{
    let (v, ranges) = lines_of(doc);
    let ghost ls = lines(doc@);
    let mut in_block = false;
    let mut i: usize = 0;
    while i < ranges.len()
        invariant
            v@ == doc@,
            ls == lines(doc@),
            ranges_within(ranges@, 0, v@.len() as int),
            ranges_hold(v@, ranges@, ls),
            i <= ranges@.len(),
            i <= target_line,
            in_block == hlsl_block_open_after(ls, i as int),
        decreases ranges.len() - i,
    {
        let (a, b) = ranges[i];
        let (ta, tb) = trim_range(&v, a, b);
        if opens_hlsl_block_exec(&v, ta, tb) {
            in_block = true;
        } else if closes_hlsl_block_exec(&v, ta, tb) {
            in_block = false;
        }
        if i == target_line {
            return in_block;
        }
        i = i + 1;
    }
    false
}

/// State while looking for a ShaderLab `Properties` block: whether one is open
/// and the brace depth inside it.
pub open spec fn props_step(st: (bool, nat), line: Seq<char>) -> (bool, nat) {
    let t = trim(line);
    if starts_with(t, "//"@) {
        st
    } else {
        let inside = st.0 || starts_with(t, "Properties"@);
        if inside {
            let d = st.1 + count_char(line, '{');
            let close = count_char(line, '}');
            if d > 0 && close >= d {
                (false, 0nat)
            } else {
                (true, if d >= close { (d - close) as nat } else { 0nat })
            }
        } else {
            (false, st.1)
        }
    }
}

/// The `Properties` state after the first `n` lines.
pub open spec fn props_state(ls: Seq<Seq<char>>, n: int) -> (bool, nat)
    decreases n,
{
    if n <= 0 {
        (false, 0nat)
    } else {
        props_step(props_state(ls, n - 1), ls[n - 1])
    }
}

/// Is a line, reached in state `st`, inside a `Properties` block?  A comment
/// line keeps the state; any other line counts when the block is open, or
/// opens here, and its depth with this line's `{` added is positive.
pub open spec fn props_line_inside(st: (bool, nat), line: Seq<char>) -> bool {
    let t = trim(line);
    if starts_with(t, "//"@) {
        st.0 && st.1 > 0
    } else {
        (st.0 || starts_with(t, "Properties"@)) && st.1 + count_char(line, '{') > 0
    }
}

/// Is line `target_line` inside a ShaderLab `Properties { ... }` block?
pub fn is_inside_properties_block(doc: &str, target_line: usize) -> (r: bool)
    ensures
        r == (target_line < lines(doc@).len() && props_line_inside(
            props_state(lines(doc@), target_line as int),
            lines(doc@)[target_line as int],
        )),
{
    let (v, ranges) = lines_of(doc);
    let ghost ls = lines(doc@);
    let mut in_props = false;
    let mut depth: usize = 0;
    let mut i: usize = 0;
    while i < ranges.len()
        invariant
            v@ == doc@,
            ls == lines(doc@),
            ranges_within(ranges@, 0, v@.len() as int),
            ranges_sorted(ranges@),
            ranges_hold(v@, ranges@, ls),
            i <= ranges@.len(),
            i <= target_line,
            (in_props, depth as nat) == props_state(ls, i as int),
            depth <= if i == 0 { 0 } else { ranges@[i - 1].1 as int },
        decreases ranges.len() - i,
    {
        let (a, b) = ranges[i];
        proof {
            if i > 0 {
                assert(ranges@[i - 1].1 <= ranges@[i as int].0);
            }
        }
        let (ta, tb) = trim_range(&v, a, b);
        if starts_with_str(&v, ta, tb, "//") {
            if i == target_line {
                return in_props && depth > 0;
            }
        } else {
            if starts_with_str(&v, ta, tb, "Properties") {
                in_props = true;
            }
            if in_props {
                let open_b = count_char_in(&v, a, b, '{');
                let close_b = count_char_in(&v, a, b, '}');
                depth = depth + open_b;
                if depth > 0 && close_b >= depth {
                    if i == target_line {
                        return true;
                    }
                    in_props = false;
                    depth = 0;
                } else {
                    depth = if depth >= close_b { depth - close_b } else { 0 };
                }
            }
            if i == target_line {
                return in_props && depth > 0;
            }
        }
        i = i + 1;
    }
    false
}

/// The code of a line: what stands before its first `//`.
pub open spec fn before_line_comment(line: Seq<char>) -> Seq<char> {
    match find(line, "//"@) {
        Some(k) => line.subrange(0, k),
        None => line,
    }
}

/// Absolute end of the code part of `v[a..b]` (before its first `//`).
pub fn code_end(v: &[char], a: usize, b: usize) -> (r: usize)
    requires
        a <= b <= v@.len(),
    ensures
        a <= r <= b,
        v@.subrange(a as int, r as int) == before_line_comment(v@.subrange(a as int, b as int)),
{
    match find_str(v, a, b, "//") {
        Some(k) => {
            assert(v@.subrange(a as int, b as int).subrange(0, k as int) =~= v@.subrange(
                a as int,
                a + k,
            ));
            a + k
        },
        None => {
            b
        },
    }
}

/// State while looking for a ShaderLab `Tags` block: whether one is open and
/// the brace depth inside it.  Only the trimmed code part of a line counts.
pub open spec fn tags_step(st: (bool, nat), line: Seq<char>) -> (bool, nat) {
    let code = trim(before_line_comment(line));
    if code.len() == 0 || starts_with(code, "/*"@) {
        st
    } else {
        let inside = st.0 || starts_with(code, "Tags"@) || contains(code, "Tags {"@) || contains(
            code,
            "Tags{"@,
        );
        if inside {
            let d = st.1 + count_char(code, '{');
            let close = count_char(code, '}');
            if d > 0 && close >= d {
                (false, 0nat)
            } else {
                (true, if d >= close { (d - close) as nat } else { 0nat })
            }
        } else {
            (false, st.1)
        }
    }
}

/// The `Tags` state after the first `n` lines.
pub open spec fn tags_state(ls: Seq<Seq<char>>, n: int) -> (bool, nat)
    decreases n,
{
    if n <= 0 {
        (false, 0nat)
    } else {
        tags_step(tags_state(ls, n - 1), ls[n - 1])
    }
}

/// Is a line, reached in state `st`, inside a `Tags` block?
pub open spec fn tags_line_inside(st: (bool, nat), line: Seq<char>) -> bool {
    let code = trim(before_line_comment(line));
    if code.len() == 0 || starts_with(code, "/*"@) {
        st.0 && st.1 > 0
    } else {
        (st.0 || starts_with(code, "Tags"@) || contains(code, "Tags {"@) || contains(
            code,
            "Tags{"@,
        )) && st.1 + count_char(code, '{') > 0
    }
}

/// Is line `target_line` inside a ShaderLab `Tags { ... }` block?
pub fn is_inside_tags_block(doc: &str, target_line: usize) -> (r: bool)
    ensures
        r == (target_line < lines(doc@).len() && tags_line_inside(
            tags_state(lines(doc@), target_line as int),
            lines(doc@)[target_line as int],
        )),
{
    let (v, ranges) = lines_of(doc);
    let ghost ls = lines(doc@);
    let mut in_tags = false;
    let mut depth: usize = 0;
    let mut i: usize = 0;
    while i < ranges.len()
        invariant
            v@ == doc@,
            ls == lines(doc@),
            ranges_within(ranges@, 0, v@.len() as int),
            ranges_sorted(ranges@),
            ranges_hold(v@, ranges@, ls),
            i <= ranges@.len(),
            i <= target_line,
            (in_tags, depth as nat) == tags_state(ls, i as int),
            depth <= if i == 0 { 0 } else { ranges@[i - 1].1 as int },
        decreases ranges.len() - i,
    {
        let (a, b) = ranges[i];
        proof {
            if i > 0 {
                assert(ranges@[i - 1].1 <= ranges@[i as int].0);
            }
        }
        let ce = code_end(&v, a, b);
        let (ca, cb) = trim_range(&v, a, ce);
        if ca == cb || starts_with_str(&v, ca, cb, "/*") {
            if i == target_line {
                return in_tags && depth > 0;
            }
        } else {
            if !in_tags && (starts_with_str(&v, ca, cb, "Tags") || contains_str(&v, ca, cb, "Tags {")
                || contains_str(&v, ca, cb, "Tags{")) {
                in_tags = true;
            }
            if in_tags {
                let open_b = count_char_in(&v, ca, cb, '{');
                let close_b = count_char_in(&v, ca, cb, '}');
                depth = depth + open_b;
                if depth > 0 && close_b >= depth {
                    if i == target_line {
                        return true;
                    }
                    in_tags = false;
                    depth = 0;
                } else {
                    depth = if depth >= close_b { depth - close_b } else { 0 };
                }
            }
            if i == target_line {
                return in_tags && depth > 0;
            }
        }
        i = i + 1;
    }
    false
}

} // verus!
