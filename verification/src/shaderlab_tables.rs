//! The ShaderLab tables that completion offers: property types, render
//! states, attributes, tag descriptions, property templates and snippets,
//! keywords, default values and block templates.
use vstd::prelude::*;
use crate::semantics::pairs_view;
use crate::word_tables::{strs_of, triples_of};

verus! {

pub open spec fn quads_of(v: Seq<(&str, &str, &str, &str)>) -> Seq<(Seq<char>, Seq<char>, Seq<char>, Seq<char>)> {
    v.map_values(|t: (&str, &str, &str, &str)| (t.0@, t.1@, t.2@, t.3@))
}

/// The property types: name, full template, template after a name, description.
#[verifier::opaque]
pub open spec fn property_types_table() -> Seq<(Seq<char>, Seq<char>, Seq<char>, Seq<char>)> {
    seq![
        ("Float"@, "_${1:Float} (\"${2:Float}\", Float) = ${3:0.0}"@, " (\"${1:Float}\", Float) = ${2:0.0}"@, "Floating-point scalar property"@),
        ("Int"@, "_${1:Int} (\"${2:Int}\", Int) = ${3:0}"@, " (\"${1:Int}\", Int) = ${2:0}"@, "Integer scalar property"@),
        ("Range"@, "_${1:Range} (\"${2:Range}\", Range(${3:0}, ${4:1})) = ${5:0.5}"@, " (\"${1:Range}\", Range(${2:0}, ${3:1})) = ${4:0.5}"@, "Bounded slider floating-point property"@),
        ("Color"@, "_${1:Color} (\"${2:Color}\", Color) = (${3:1, 1, 1, 1})"@, " (\"${1:Color}\", Color) = (${2:1, 1, 1, 1})"@, "RGBA color property with color picker"@),
        ("Vector"@, "_${1:Vector} (\"${2:Vector}\", Vector) = (${3:0, 0, 0, 0})"@, " (\"${1:Vector}\", Vector) = (${2:0, 0, 0, 0})"@, "4D floating-point vector property"@),
        ("2D"@, "_${1:MainTex} (\"${2:Texture}\", 2D) = \"${3:white}\" {}"@, " (\"${1:Texture}\", 2D) = \"${2:white}\" {}"@, "2D texture slot with default tint"@),
        ("3D"@, "_${1:Volume} (\"${2:Volume}\", 3D) = \"\" {}"@, " (\"${1:Volume}\", 3D) = \"\" {}"@, "3D volumetric texture slot"@),
        ("Cube"@, "_${1:Cubemap} (\"${2:Cubemap}\", Cube) = \"\" {}"@, " (\"${1:Cubemap}\", Cube) = \"\" {}"@, "Cubemap reflection texture slot"@),
        ("2DArray"@, "_${1:TexArray} (\"${2:TextureArray}\", 2DArray) = \"\" {}"@, " (\"${1:TextureArray}\", 2DArray) = \"\" {}"@, "2D texture array slot"@),
    ]
}

/// The property types: name, full template, template after a name, description.
pub fn property_types() -> (r: Vec<(&'static str, &'static str, &'static str, &'static str)>)
    ensures
        quads_of(r@) == property_types_table(),
{
    let r = vec![
        ("Float", "_${1:Float} (\"${2:Float}\", Float) = ${3:0.0}", " (\"${1:Float}\", Float) = ${2:0.0}", "Floating-point scalar property"),
        ("Int", "_${1:Int} (\"${2:Int}\", Int) = ${3:0}", " (\"${1:Int}\", Int) = ${2:0}", "Integer scalar property"),
        ("Range", "_${1:Range} (\"${2:Range}\", Range(${3:0}, ${4:1})) = ${5:0.5}", " (\"${1:Range}\", Range(${2:0}, ${3:1})) = ${4:0.5}", "Bounded slider floating-point property"),
        ("Color", "_${1:Color} (\"${2:Color}\", Color) = (${3:1, 1, 1, 1})", " (\"${1:Color}\", Color) = (${2:1, 1, 1, 1})", "RGBA color property with color picker"),
        ("Vector", "_${1:Vector} (\"${2:Vector}\", Vector) = (${3:0, 0, 0, 0})", " (\"${1:Vector}\", Vector) = (${2:0, 0, 0, 0})", "4D floating-point vector property"),
        ("2D", "_${1:MainTex} (\"${2:Texture}\", 2D) = \"${3:white}\" {}", " (\"${1:Texture}\", 2D) = \"${2:white}\" {}", "2D texture slot with default tint"),
        ("3D", "_${1:Volume} (\"${2:Volume}\", 3D) = \"\" {}", " (\"${1:Volume}\", 3D) = \"\" {}", "3D volumetric texture slot"),
        ("Cube", "_${1:Cubemap} (\"${2:Cubemap}\", Cube) = \"\" {}", " (\"${1:Cubemap}\", Cube) = \"\" {}", "Cubemap reflection texture slot"),
        ("2DArray", "_${1:TexArray} (\"${2:TextureArray}\", 2DArray) = \"\" {}", " (\"${1:TextureArray}\", 2DArray) = \"\" {}", "2D texture array slot"),
    ];
    proof {
        reveal(property_types_table);
        assert(quads_of(r@) =~= property_types_table());
    }
    r
}

/// The render state commands: category, command, description.
#[verifier::opaque]
pub open spec fn render_states_table() -> Seq<(Seq<char>, Seq<char>, Seq<char>)> {
    seq![
        ("Cull"@, "Cull Back"@, "Culls back-facing polygons (default)"@),
        ("Cull"@, "Cull Front"@, "Culls front-facing polygons (renders back faces)"@),
        ("Cull"@, "Cull Off"@, "Disables culling (renders double-sided geometry)"@),
        ("ZWrite"@, "ZWrite On"@, "Enables writing to the depth buffer (default for opaque)"@),
        ("ZWrite"@, "ZWrite Off"@, "Disables writing to the depth buffer (standard for transparent)"@),
        ("ZTest"@, "ZTest LEqual"@, "Passes if fragment depth is less than or equal to current depth (default)"@),
        ("ZTest"@, "ZTest Always"@, "Always passes depth test (renders on top of everything)"@),
        ("ZTest"@, "ZTest Equal"@, "Passes only if fragment depth equals current depth"@),
        ("ZTest"@, "ZTest Less"@, "Passes if fragment depth is strictly less than current depth"@),
        ("ZTest"@, "ZTest Greater"@, "Passes if fragment depth is greater than current depth"@),
        ("ZTest"@, "ZTest GEqual"@, "Passes if fragment depth is greater than or equal to current depth"@),
        ("ZTest"@, "ZTest NotEqual"@, "Passes if fragment depth does not equal current depth"@),
        ("ZTest"@, "ZTest Off"@, "Disables depth testing completely (equivalent to ZTest Always)"@),
        ("ZClip"@, "ZClip True"@, "Enables depth clipping (default). Fragments outside near/far clipping planes are clipped"@),
        ("ZClip"@, "ZClip False"@, "Disables depth clipping (depth clamping). Fragments outside near/far planes are clamped instead of clipped (useful for shadow maps and portals)"@),
        ("Blend"@, "Blend Off"@, "Disables alpha blending (opaque rendering)"@),
        ("Blend"@, "Blend SrcAlpha OneMinusSrcAlpha"@, "Standard traditional alpha blending: (Src * A) + (Dst * (1 - A))"@),
        ("Blend"@, "Blend One One"@, "Additive blending (useful for particle effects, fire, lights)"@),
        ("Blend"@, "Blend OneMinusDstColor One"@, "Soft additive blending"@),
        ("Blend"@, "Blend DstColor Zero"@, "Multiplicative blending (shadows, darkening)"@),
        ("Blend"@, "Blend DstColor SrcColor"@, "2x multiplicative blending: Result = 2 * (Src * Dst)"@),
        ("Blend"@, "Blend SrcColor OneMinusSrcColor"@, "Color-weighted blending"@),
        ("Blend"@, "Blend One OneMinusSrcAlpha"@, "Premultiplied alpha blending"@),
        ("Blend"@, "Blend SrcAlpha OneMinusSrcAlpha, One OneMinusSrcAlpha"@, "Separate blend: standard alpha blend for color, premultiplied alpha blend for alpha"@),
        ("Blend"@, "Blend One One, One Zero"@, "Separate blend: additive color, preserves destination alpha"@),
        ("Blend"@, "Blend 0 SrcAlpha OneMinusSrcAlpha"@, "Alpha blending specifically for render target 0"@),
        ("Blend"@, "Blend 1 One One"@, "Additive blending specifically for render target 1"@),
        ("BlendOp"@, "BlendOp Add"@, "Adds source and destination results together (default): Result = Src + Dst"@),
        ("BlendOp"@, "BlendOp Sub"@, "Subtracts destination from source: Result = Src - Dst"@),
        ("BlendOp"@, "BlendOp RevSub"@, "Subtracts source from destination: Result = Dst - Src"@),
        ("BlendOp"@, "BlendOp Min"@, "Takes the smaller value between source and destination: Result = min(Src, Dst)"@),
        ("BlendOp"@, "BlendOp Max"@, "Takes the larger value between source and destination: Result = max(Src, Dst)"@),
        ("BlendOp"@, "BlendOp LogicalClear"@, "Logical blend operation: Result = 0 (DirectX 11.1+ / Vulkan)"@),
        ("BlendOp"@, "BlendOp LogicalSet"@, "Logical blend operation: Result = ~0"@),
        ("BlendOp"@, "BlendOp LogicalCopy"@, "Logical blend operation: Result = Src"@),
        ("BlendOp"@, "BlendOp LogicalCopyInverted"@, "Logical blend operation: Result = ~Src"@),
        ("BlendOp"@, "BlendOp LogicalNoop"@, "Logical blend operation: Result = Dst"@),
        ("BlendOp"@, "BlendOp LogicalInvert"@, "Logical blend operation: Result = ~Dst"@),
        ("BlendOp"@, "BlendOp LogicalAnd"@, "Logical blend operation: Result = Src & Dst"@),
        ("BlendOp"@, "BlendOp LogicalNand"@, "Logical blend operation: Result = ~(Src & Dst)"@),
        ("BlendOp"@, "BlendOp LogicalOr"@, "Logical blend operation: Result = Src | Dst"@),
        ("BlendOp"@, "BlendOp LogicalNor"@, "Logical blend operation: Result = ~(Src | Dst)"@),
        ("BlendOp"@, "BlendOp LogicalXor"@, "Logical blend operation: Result = Src ^ Dst"@),
        ("BlendOp"@, "BlendOp LogicalEquiv"@, "Logical blend operation: Result = ~(Src ^ Dst)"@),
        ("BlendOp"@, "BlendOp LogicalAndReverse"@, "Logical blend operation: Result = Src & ~Dst"@),
        ("BlendOp"@, "BlendOp LogicalAndInverted"@, "Logical blend operation: Result = ~Src & Dst"@),
        ("BlendOp"@, "BlendOp LogicalOrReverse"@, "Logical blend operation: Result = Src | ~Dst"@),
        ("BlendOp"@, "BlendOp LogicalOrInverted"@, "Logical blend operation: Result = ~Src & Dst"@),
        ("BlendOp"@, "BlendOp Add, Add"@, "Separate blend operation for color and alpha channels"@),
        ("BlendOp"@, "BlendOp Min, Max"@, "Separate blend operation: Min for color, Max for alpha"@),
        ("ColorMask"@, "ColorMask RGBA"@, "Writes to Red, Green, Blue, and Alpha channels (default)"@),
        ("ColorMask"@, "ColorMask RGB"@, "Writes to Red, Green, and Blue channels, leaving Alpha untouched"@),
        ("ColorMask"@, "ColorMask A"@, "Writes only to the Alpha channel"@),
        ("ColorMask"@, "ColorMask 0"@, "Disables color output entirely (useful for depth-only or stencil-only passes)"@),
        ("ColorMask"@, "ColorMask R"@, "Writes only to the Red channel"@),
        ("ColorMask"@, "ColorMask G"@, "Writes only to the Green channel"@),
        ("ColorMask"@, "ColorMask B"@, "Writes only to the Blue channel"@),
        ("ColorMask"@, "ColorMask RGBA 0"@, "Sets color mask to RGBA for render target 0"@),
        ("ColorMask"@, "ColorMask 0 1"@, "Disables color output on render target 1"@),
        ("Offset"@, "Offset -1, -1"@, "Pulls polygon closer to camera (negative depth offset). Prevents Z-fighting on decals and wireframes"@),
        ("Offset"@, "Offset 1, 1"@, "Pushes polygon further away from camera (positive depth offset)"@),
        ("Offset"@, "Offset 0, 0"@, "Default depth offset (no bias)"@),
        ("Conservative"@, "Conservative True"@, "Enables conservative rasterization (pixel rendered if any polygon part touches it). Useful for shadow mapping and voxelization"@),
        ("Conservative"@, "Conservative False"@, "Disables conservative rasterization (standard center sampling)"@),
        ("AlphaToMask"@, "AlphaToMask On"@, "Enables Alpha-to-Coverage (MSAA alpha testing). Smooth alpha cutout on foliage and fences"@),
        ("AlphaToMask"@, "AlphaToMask Off"@, "Disables Alpha-to-Coverage (default)"@),
        ("Ref"@, "Ref 1"@, "Stencil reference value to compare against and/or write (0-255)"@),
        ("ReadMask"@, "ReadMask 255"@, "Stencil 8-bit read mask (0-255)"@),
        ("WriteMask"@, "WriteMask 255"@, "Stencil 8-bit write mask (0-255)"@),
        ("Comp"@, "Comp Always"@, "Stencil test comparison: Always pass"@),
        ("Comp"@, "Comp Equal"@, "Stencil test comparison: Pass if stencil buffer equals reference value"@),
        ("Comp"@, "Comp NotEqual"@, "Stencil test comparison: Pass if stencil buffer does not equal reference value"@),
        ("Comp"@, "Comp Less"@, "Stencil test comparison: Pass if stencil buffer is less than reference value"@),
        ("Comp"@, "Comp Greater"@, "Stencil test comparison: Pass if stencil buffer is greater than reference value"@),
        ("Comp"@, "Comp LEqual"@, "Stencil test comparison: Pass if stencil buffer is less than or equal to reference value"@),
        ("Comp"@, "Comp GEqual"@, "Stencil test comparison: Pass if stencil buffer is greater than or equal to reference value"@),
        ("Comp"@, "Comp Never"@, "Stencil test comparison: Never pass"@),
        ("Pass"@, "Pass Keep"@, "Stencil operation when stencil and depth tests pass: Keep current stencil value"@),
        ("Pass"@, "Pass Replace"@, "Stencil operation when stencil and depth tests pass: Replace with reference value"@),
        ("Pass"@, "Pass Zero"@, "Stencil operation when stencil and depth tests pass: Set stencil to 0"@),
        ("Pass"@, "Pass IncrSat"@, "Stencil operation when stencil and depth tests pass: Increment value, clamp at 255"@),
        ("Pass"@, "Pass DecrSat"@, "Stencil operation when stencil and depth tests pass: Decrement value, clamp at 0"@),
        ("Pass"@, "Pass Invert"@, "Stencil operation when stencil and depth tests pass: Bitwise invert stencil bits"@),
        ("Pass"@, "Pass IncrWrap"@, "Stencil operation when stencil and depth tests pass: Increment value, wrap 255 to 0"@),
        ("Pass"@, "Pass DecrWrap"@, "Stencil operation when stencil and depth tests pass: Decrement value, wrap 0 to 255"@),
        ("Fail"@, "Fail Keep"@, "Stencil operation when stencil test fails: Keep current stencil value"@),
        ("Fail"@, "Fail Replace"@, "Stencil operation when stencil test fails: Replace with reference value"@),
        ("Fail"@, "Fail Zero"@, "Stencil operation when stencil test fails: Set stencil to 0"@),
        ("ZFail"@, "ZFail Keep"@, "Stencil operation when stencil passes but depth test fails: Keep current stencil value"@),
        ("ZFail"@, "ZFail Replace"@, "Stencil operation when stencil passes but depth test fails: Replace with reference value"@),
        ("ZFail"@, "ZFail Zero"@, "Stencil operation when stencil passes but depth test fails: Set stencil to 0"@),
        ("UsePass"@, "UsePass \"Shader/PASSNAME\""@, "Inserts a named pass from another shader into this SubShader"@),
        ("GrabPass"@, "GrabPass { \"_BackgroundTexture\" }"@, "Captures current frame buffer into a named texture before executing this pass"@),
        ("GrabPass"@, "GrabPass { }"@, "Captures current frame buffer into default _GrabTexture"@),
        ("Name"@, "Name \"PassName\""@, "Assigns a name to this pass (used by UsePass and frame debugger)"@),
        ("LOD"@, "LOD 100"@, "Sets level of detail limit for SubShader (compared against Shader.globalMaximumLOD)"@),
        ("LOD"@, "LOD 200"@, "Sets level of detail limit for SubShader"@),
        ("Lighting"@, "Lighting Off"@, "Disables fixed-function lighting (standard for 2D sprites, UI, and unlit shaders)"@),
        ("Lighting"@, "Lighting On"@, "Enables fixed-function lighting"@),
    ]
}

/// The render state commands: category, command, description.
pub fn render_states() -> (r: Vec<(&'static str, &'static str, &'static str)>)
    ensures
        triples_of(r@) == render_states_table(),
{
    let r = vec![
        ("Cull", "Cull Back", "Culls back-facing polygons (default)"),
        ("Cull", "Cull Front", "Culls front-facing polygons (renders back faces)"),
        ("Cull", "Cull Off", "Disables culling (renders double-sided geometry)"),
        ("ZWrite", "ZWrite On", "Enables writing to the depth buffer (default for opaque)"),
        ("ZWrite", "ZWrite Off", "Disables writing to the depth buffer (standard for transparent)"),
        ("ZTest", "ZTest LEqual", "Passes if fragment depth is less than or equal to current depth (default)"),
        ("ZTest", "ZTest Always", "Always passes depth test (renders on top of everything)"),
        ("ZTest", "ZTest Equal", "Passes only if fragment depth equals current depth"),
        ("ZTest", "ZTest Less", "Passes if fragment depth is strictly less than current depth"),
        ("ZTest", "ZTest Greater", "Passes if fragment depth is greater than current depth"),
        ("ZTest", "ZTest GEqual", "Passes if fragment depth is greater than or equal to current depth"),
        ("ZTest", "ZTest NotEqual", "Passes if fragment depth does not equal current depth"),
        ("ZTest", "ZTest Off", "Disables depth testing completely (equivalent to ZTest Always)"),
        ("ZClip", "ZClip True", "Enables depth clipping (default). Fragments outside near/far clipping planes are clipped"),
        ("ZClip", "ZClip False", "Disables depth clipping (depth clamping). Fragments outside near/far planes are clamped instead of clipped (useful for shadow maps and portals)"),
        ("Blend", "Blend Off", "Disables alpha blending (opaque rendering)"),
        ("Blend", "Blend SrcAlpha OneMinusSrcAlpha", "Standard traditional alpha blending: (Src * A) + (Dst * (1 - A))"),
        ("Blend", "Blend One One", "Additive blending (useful for particle effects, fire, lights)"),
        ("Blend", "Blend OneMinusDstColor One", "Soft additive blending"),
        ("Blend", "Blend DstColor Zero", "Multiplicative blending (shadows, darkening)"),
        ("Blend", "Blend DstColor SrcColor", "2x multiplicative blending: Result = 2 * (Src * Dst)"),
        ("Blend", "Blend SrcColor OneMinusSrcColor", "Color-weighted blending"),
        ("Blend", "Blend One OneMinusSrcAlpha", "Premultiplied alpha blending"),
        ("Blend", "Blend SrcAlpha OneMinusSrcAlpha, One OneMinusSrcAlpha", "Separate blend: standard alpha blend for color, premultiplied alpha blend for alpha"),
        ("Blend", "Blend One One, One Zero", "Separate blend: additive color, preserves destination alpha"),
        ("Blend", "Blend 0 SrcAlpha OneMinusSrcAlpha", "Alpha blending specifically for render target 0"),
        ("Blend", "Blend 1 One One", "Additive blending specifically for render target 1"),
        ("BlendOp", "BlendOp Add", "Adds source and destination results together (default): Result = Src + Dst"),
        ("BlendOp", "BlendOp Sub", "Subtracts destination from source: Result = Src - Dst"),
        ("BlendOp", "BlendOp RevSub", "Subtracts source from destination: Result = Dst - Src"),
        ("BlendOp", "BlendOp Min", "Takes the smaller value between source and destination: Result = min(Src, Dst)"),
        ("BlendOp", "BlendOp Max", "Takes the larger value between source and destination: Result = max(Src, Dst)"),
        ("BlendOp", "BlendOp LogicalClear", "Logical blend operation: Result = 0 (DirectX 11.1+ / Vulkan)"),
        ("BlendOp", "BlendOp LogicalSet", "Logical blend operation: Result = ~0"),
        ("BlendOp", "BlendOp LogicalCopy", "Logical blend operation: Result = Src"),
        ("BlendOp", "BlendOp LogicalCopyInverted", "Logical blend operation: Result = ~Src"),
        ("BlendOp", "BlendOp LogicalNoop", "Logical blend operation: Result = Dst"),
        ("BlendOp", "BlendOp LogicalInvert", "Logical blend operation: Result = ~Dst"),
        ("BlendOp", "BlendOp LogicalAnd", "Logical blend operation: Result = Src & Dst"),
        ("BlendOp", "BlendOp LogicalNand", "Logical blend operation: Result = ~(Src & Dst)"),
        ("BlendOp", "BlendOp LogicalOr", "Logical blend operation: Result = Src | Dst"),
        ("BlendOp", "BlendOp LogicalNor", "Logical blend operation: Result = ~(Src | Dst)"),
        ("BlendOp", "BlendOp LogicalXor", "Logical blend operation: Result = Src ^ Dst"),
        ("BlendOp", "BlendOp LogicalEquiv", "Logical blend operation: Result = ~(Src ^ Dst)"),
        ("BlendOp", "BlendOp LogicalAndReverse", "Logical blend operation: Result = Src & ~Dst"),
        ("BlendOp", "BlendOp LogicalAndInverted", "Logical blend operation: Result = ~Src & Dst"),
        ("BlendOp", "BlendOp LogicalOrReverse", "Logical blend operation: Result = Src | ~Dst"),
        ("BlendOp", "BlendOp LogicalOrInverted", "Logical blend operation: Result = ~Src & Dst"),
        ("BlendOp", "BlendOp Add, Add", "Separate blend operation for color and alpha channels"),
        ("BlendOp", "BlendOp Min, Max", "Separate blend operation: Min for color, Max for alpha"),
        ("ColorMask", "ColorMask RGBA", "Writes to Red, Green, Blue, and Alpha channels (default)"),
        ("ColorMask", "ColorMask RGB", "Writes to Red, Green, and Blue channels, leaving Alpha untouched"),
        ("ColorMask", "ColorMask A", "Writes only to the Alpha channel"),
        ("ColorMask", "ColorMask 0", "Disables color output entirely (useful for depth-only or stencil-only passes)"),
        ("ColorMask", "ColorMask R", "Writes only to the Red channel"),
        ("ColorMask", "ColorMask G", "Writes only to the Green channel"),
        ("ColorMask", "ColorMask B", "Writes only to the Blue channel"),
        ("ColorMask", "ColorMask RGBA 0", "Sets color mask to RGBA for render target 0"),
        ("ColorMask", "ColorMask 0 1", "Disables color output on render target 1"),
        ("Offset", "Offset -1, -1", "Pulls polygon closer to camera (negative depth offset). Prevents Z-fighting on decals and wireframes"),
        ("Offset", "Offset 1, 1", "Pushes polygon further away from camera (positive depth offset)"),
        ("Offset", "Offset 0, 0", "Default depth offset (no bias)"),
        ("Conservative", "Conservative True", "Enables conservative rasterization (pixel rendered if any polygon part touches it). Useful for shadow mapping and voxelization"),
        ("Conservative", "Conservative False", "Disables conservative rasterization (standard center sampling)"),
        ("AlphaToMask", "AlphaToMask On", "Enables Alpha-to-Coverage (MSAA alpha testing). Smooth alpha cutout on foliage and fences"),
        ("AlphaToMask", "AlphaToMask Off", "Disables Alpha-to-Coverage (default)"),
        ("Ref", "Ref 1", "Stencil reference value to compare against and/or write (0-255)"),
        ("ReadMask", "ReadMask 255", "Stencil 8-bit read mask (0-255)"),
        ("WriteMask", "WriteMask 255", "Stencil 8-bit write mask (0-255)"),
        ("Comp", "Comp Always", "Stencil test comparison: Always pass"),
        ("Comp", "Comp Equal", "Stencil test comparison: Pass if stencil buffer equals reference value"),
        ("Comp", "Comp NotEqual", "Stencil test comparison: Pass if stencil buffer does not equal reference value"),
        ("Comp", "Comp Less", "Stencil test comparison: Pass if stencil buffer is less than reference value"),
        ("Comp", "Comp Greater", "Stencil test comparison: Pass if stencil buffer is greater than reference value"),
        ("Comp", "Comp LEqual", "Stencil test comparison: Pass if stencil buffer is less than or equal to reference value"),
        ("Comp", "Comp GEqual", "Stencil test comparison: Pass if stencil buffer is greater than or equal to reference value"),
        ("Comp", "Comp Never", "Stencil test comparison: Never pass"),
        ("Pass", "Pass Keep", "Stencil operation when stencil and depth tests pass: Keep current stencil value"),
        ("Pass", "Pass Replace", "Stencil operation when stencil and depth tests pass: Replace with reference value"),
        ("Pass", "Pass Zero", "Stencil operation when stencil and depth tests pass: Set stencil to 0"),
        ("Pass", "Pass IncrSat", "Stencil operation when stencil and depth tests pass: Increment value, clamp at 255"),
        ("Pass", "Pass DecrSat", "Stencil operation when stencil and depth tests pass: Decrement value, clamp at 0"),
        ("Pass", "Pass Invert", "Stencil operation when stencil and depth tests pass: Bitwise invert stencil bits"),
        ("Pass", "Pass IncrWrap", "Stencil operation when stencil and depth tests pass: Increment value, wrap 255 to 0"),
        ("Pass", "Pass DecrWrap", "Stencil operation when stencil and depth tests pass: Decrement value, wrap 0 to 255"),
        ("Fail", "Fail Keep", "Stencil operation when stencil test fails: Keep current stencil value"),
        ("Fail", "Fail Replace", "Stencil operation when stencil test fails: Replace with reference value"),
        ("Fail", "Fail Zero", "Stencil operation when stencil test fails: Set stencil to 0"),
        ("ZFail", "ZFail Keep", "Stencil operation when stencil passes but depth test fails: Keep current stencil value"),
        ("ZFail", "ZFail Replace", "Stencil operation when stencil passes but depth test fails: Replace with reference value"),
        ("ZFail", "ZFail Zero", "Stencil operation when stencil passes but depth test fails: Set stencil to 0"),
        ("UsePass", "UsePass \"Shader/PASSNAME\"", "Inserts a named pass from another shader into this SubShader"),
        ("GrabPass", "GrabPass { \"_BackgroundTexture\" }", "Captures current frame buffer into a named texture before executing this pass"),
        ("GrabPass", "GrabPass { }", "Captures current frame buffer into default _GrabTexture"),
        ("Name", "Name \"PassName\"", "Assigns a name to this pass (used by UsePass and frame debugger)"),
        ("LOD", "LOD 100", "Sets level of detail limit for SubShader (compared against Shader.globalMaximumLOD)"),
        ("LOD", "LOD 200", "Sets level of detail limit for SubShader"),
        ("Lighting", "Lighting Off", "Disables fixed-function lighting (standard for 2D sprites, UI, and unlit shaders)"),
        ("Lighting", "Lighting On", "Enables fixed-function lighting"),
    ];
    proof {
        reveal(render_states_table);
        assert(triples_of(r@) =~= render_states_table());
    }
    r
}

/// The property attributes: name, snippet, description.
#[verifier::opaque]
pub open spec fn property_attributes_table() -> Seq<(Seq<char>, Seq<char>, Seq<char>)> {
    seq![
        ("MainColor"@, "MainColor"@, "Marks property as primary diffuse/base color in Material Inspector and URP/HDRP"@),
        ("MainTexture"@, "MainTexture"@, "Marks property as primary diffuse/albedo texture in Material Inspector and URP/HDRP"@),
        ("HDR"@, "HDR"@, "Enables high dynamic range (HDR) color picker with wide intensity range and exposure control"@),
        ("HideInInspector"@, "HideInInspector"@, "Hides this property from the Unity Material Inspector"@),
        ("NoScaleOffset"@, "NoScaleOffset"@, "Hides texture tiling and offset controls in the Material Inspector"@),
        ("Normal"@, "Normal"@, "Validates that the assigned texture is marked as a Normal Map"@),
        ("SingleLineTexture"@, "SingleLineTexture"@, "Displays texture property in a compact single-line field"@),
        ("PerRendererData"@, "PerRendererData"@, "Fetches texture/property from SpriteRenderer or MaterialPropertyBlock"@),
        ("MaterialToggle"@, "MaterialToggle"@, "Renders float as a checkbox toggle and defines a shader keyword (e.g. PROPERTY_ON)"@),
        ("Toggle"@, "Toggle"@, "Renders float property as a checkbox toggle"@),
        ("Toggle"@, "Toggle(${1:KEYWORD})"@, "Checkbox toggle setting a specific shader keyword when enabled"@),
        ("KeywordEnum"@, "KeywordEnum(${1:ChoiceA, ChoiceB, ChoiceC})"@, "Displays a dropdown popup setting mutually exclusive shader keywords"@),
        ("Enum"@, "Enum(${1:UnityEngine.Rendering.CullMode})"@, "Displays an enum dropdown from a C# Enum or custom values"@),
        ("Space"@, "Space"@, "Adds vertical spacing in the Material Inspector"@),
        ("Header"@, "Header(\"${1:Section Title}\")"@, "Adds a bold header section title in the Material Inspector"@),
        ("IntRange"@, "IntRange"@, "Restricts Range slider values to whole integers"@),
        ("Tooltip"@, "Tooltip(\"${1:Description}\")"@, "Adds a hover tooltip in the Material Inspector"@),
    ]
}

/// The property attributes: name, snippet, description.
pub fn property_attributes() -> (r: Vec<(&'static str, &'static str, &'static str)>)
    ensures
        triples_of(r@) == property_attributes_table(),
{
    let r = vec![
        ("MainColor", "MainColor", "Marks property as primary diffuse/base color in Material Inspector and URP/HDRP"),
        ("MainTexture", "MainTexture", "Marks property as primary diffuse/albedo texture in Material Inspector and URP/HDRP"),
        ("HDR", "HDR", "Enables high dynamic range (HDR) color picker with wide intensity range and exposure control"),
        ("HideInInspector", "HideInInspector", "Hides this property from the Unity Material Inspector"),
        ("NoScaleOffset", "NoScaleOffset", "Hides texture tiling and offset controls in the Material Inspector"),
        ("Normal", "Normal", "Validates that the assigned texture is marked as a Normal Map"),
        ("SingleLineTexture", "SingleLineTexture", "Displays texture property in a compact single-line field"),
        ("PerRendererData", "PerRendererData", "Fetches texture/property from SpriteRenderer or MaterialPropertyBlock"),
        ("MaterialToggle", "MaterialToggle", "Renders float as a checkbox toggle and defines a shader keyword (e.g. PROPERTY_ON)"),
        ("Toggle", "Toggle", "Renders float property as a checkbox toggle"),
        ("Toggle", "Toggle(${1:KEYWORD})", "Checkbox toggle setting a specific shader keyword when enabled"),
        ("KeywordEnum", "KeywordEnum(${1:ChoiceA, ChoiceB, ChoiceC})", "Displays a dropdown popup setting mutually exclusive shader keywords"),
        ("Enum", "Enum(${1:UnityEngine.Rendering.CullMode})", "Displays an enum dropdown from a C# Enum or custom values"),
        ("Space", "Space", "Adds vertical spacing in the Material Inspector"),
        ("Header", "Header(\"${1:Section Title}\")", "Adds a bold header section title in the Material Inspector"),
        ("IntRange", "IntRange", "Restricts Range slider values to whole integers"),
        ("Tooltip", "Tooltip(\"${1:Description}\")", "Adds a hover tooltip in the Material Inspector"),
    ];
    proof {
        reveal(property_attributes_table);
        assert(triples_of(r@) =~= property_attributes_table());
    }
    r
}

/// The description of each known tag key, in the order of the tag table.
#[verifier::opaque]
pub open spec fn tag_descriptions_table() -> Seq<Seq<char>> {
    seq![
        "Classifies shader for replacement shaders and depth/shadow passes"@,
        "Restricts SubShader to a specific Scriptable Render Pipeline"@,
        "Determines render sorting order queue"@,
        "Specifies pass role in lighting and pipeline execution"@,
        "Whether 3D projectors affect this material (True for 2D sprites/UI)"@,
        "Shape displayed in the material preview Inspector (Plane for 2D/UI)"@,
        "Enables UV coordinate packing for 2D sprite atlas rendering"@,
        "Disables draw call dynamic batching if vertex shader modifies positions"@,
        "Prevents objects using this shader from casting shadows"@,
        "URP material classification"@,
        "Pass execution flags"@,
        "Renders pass only when specified graphics options are enabled"@,
        "Determines pass sorting order for draw calls"@,
        "Disables shader compiler performance warnings for this pass"@,
        "Target HLSL shader model requirement"@,
    ]
}

/// The description of each known tag key, in the order of the tag table.
pub fn tag_descriptions() -> (r: Vec<&'static str>)
    ensures
        strs_of(r@) == tag_descriptions_table(),
{
    let r = vec![
        "Classifies shader for replacement shaders and depth/shadow passes",
        "Restricts SubShader to a specific Scriptable Render Pipeline",
        "Determines render sorting order queue",
        "Specifies pass role in lighting and pipeline execution",
        "Whether 3D projectors affect this material (True for 2D sprites/UI)",
        "Shape displayed in the material preview Inspector (Plane for 2D/UI)",
        "Enables UV coordinate packing for 2D sprite atlas rendering",
        "Disables draw call dynamic batching if vertex shader modifies positions",
        "Prevents objects using this shader from casting shadows",
        "URP material classification",
        "Pass execution flags",
        "Renders pass only when specified graphics options are enabled",
        "Determines pass sorting order for draw calls",
        "Disables shader compiler performance warnings for this pass",
        "Target HLSL shader model requirement",
    ];
    proof {
        reveal(tag_descriptions_table);
        assert(strs_of(r@) =~= tag_descriptions_table());
    }
    r
}

/// The common property templates: label, template, description.
#[verifier::opaque]
pub open spec fn common_properties_table() -> Seq<(Seq<char>, Seq<char>, Seq<char>)> {
    seq![
        ("[MainColor] _BaseColor"@, "[MainColor] _BaseColor (\"Base Color\", Color) = (1, 1, 1, 1)"@, "Standard URP/HDRP primary diffuse color"@),
        ("[MainTexture] _BaseMap"@, "[MainTexture] _BaseMap (\"Base Map\", 2D) = \"white\" {}"@, "Standard URP/HDRP primary albedo texture"@),
        ("_Color"@, "_Color (\"Color\", Color) = (1, 1, 1, 1)"@, "Built-in / Legacy standard color property"@),
        ("_MainTex"@, "_MainTex (\"Texture\", 2D) = \"white\" {}"@, "Built-in / Legacy standard texture property"@),
        ("_BumpMap"@, "[Normal] _BumpMap (\"Normal Map\", 2D) = \"bump\" {}"@, "Tangent-space normal map texture"@),
        ("_Metallic"@, "_Metallic (\"Metallic\", Range(0.0, 1.0)) = 0.0"@, "Metallic surface parameter (0 = dielectric, 1 = metal)"@),
        ("_Smoothness"@, "_Smoothness (\"Smoothness\", Range(0.0, 1.0)) = 0.5"@, "Surface smoothness / microfacet roughness parameter"@),
        ("_EmissionColor"@, "[HDR] _EmissionColor (\"Emission Color\", Color) = (0, 0, 0, 1)"@, "HDR emissive glow color"@),
        ("_EmissionMap"@, "_EmissionMap (\"Emission Map\", 2D) = \"black\" {}"@, "Emissive light mask texture"@),
        ("_Cutoff"@, "_Cutoff (\"Alpha Cutoff\", Range(0.0, 1.0)) = 0.5"@, "Alpha testing / clipping threshold"@),
        ("_BumpScale"@, "_BumpScale (\"Normal Scale\", Float) = 1.0"@, "Normal map perturbation intensity"@),
        ("_OcclusionMap"@, "_OcclusionMap (\"Occlusion Map\", 2D) = \"white\" {}"@, "Ambient occlusion texture"@),
        ("_OcclusionStrength"@, "_OcclusionStrength (\"Occlusion Strength\", Range(0.0, 1.0)) = 1.0"@, "Ambient occlusion shadow intensity"@),
        ("_Glossiness"@, "_Glossiness (\"Smoothness\", Range(0.0, 1.0)) = 0.5"@, "Legacy / Standard shader smoothness parameter"@),
        ("_SpecColor"@, "_SpecColor (\"Specular\", Color) = (0.2, 0.2, 0.2, 1.0)"@, "Specular reflection highlight color"@),
        ("_DetailAlbedoMap"@, "_DetailAlbedoMap (\"Detail Albedo x2\", 2D) = \"gray\" {}"@, "Secondary detail albedo texture multiplied by 2"@),
        ("_DetailNormalMap"@, "[Normal] _DetailNormalMap (\"Normal Map\", 2D) = \"bump\" {}"@, "Secondary high-frequency detail normal map"@),
        ("_DetailNormalMapScale"@, "_DetailNormalMapScale (\"Scale\", Float) = 1.0"@, "Detail normal map perturbation scale"@),
        ("_Surface"@, "_Surface (\"Surface Type\", Float) = 0.0"@, "URP surface type (0.0 = Opaque, 1.0 = Transparent)"@),
        ("_Blend"@, "_Blend (\"Blend Mode\", Float) = 0.0"@, "URP blend mode (0 = Alpha, 1 = Premultiply, 2 = Additive, 3 = Multiply)"@),
        ("_Cull"@, "_Cull (\"Culling\", Float) = 2.0"@, "Polygon culling mode (0 = Off, 1 = Front, 2 = Back)"@),
        ("_ZWrite"@, "_ZWrite (\"ZWrite\", Float) = 1.0"@, "Depth write control (0.0 = Off, 1.0 = On)"@),
        ("_QueueOffset"@, "_QueueOffset (\"Queue Offset\", Float) = 0.0"@, "Render queue priority offset"@),
        ("_ReceiveShadows"@, "_ReceiveShadows (\"Receive Shadows\", Float) = 1.0"@, "Toggles receiving real-time shadows (0.0 = Off, 1.0 = On)"@),
    ]
}

/// The common property templates: label, template, description.
pub fn common_properties() -> (r: Vec<(&'static str, &'static str, &'static str)>)
    ensures
        triples_of(r@) == common_properties_table(),
{
    let r = vec![
        ("[MainColor] _BaseColor", "[MainColor] _BaseColor (\"Base Color\", Color) = (1, 1, 1, 1)", "Standard URP/HDRP primary diffuse color"),
        ("[MainTexture] _BaseMap", "[MainTexture] _BaseMap (\"Base Map\", 2D) = \"white\" {}", "Standard URP/HDRP primary albedo texture"),
        ("_Color", "_Color (\"Color\", Color) = (1, 1, 1, 1)", "Built-in / Legacy standard color property"),
        ("_MainTex", "_MainTex (\"Texture\", 2D) = \"white\" {}", "Built-in / Legacy standard texture property"),
        ("_BumpMap", "[Normal] _BumpMap (\"Normal Map\", 2D) = \"bump\" {}", "Tangent-space normal map texture"),
        ("_Metallic", "_Metallic (\"Metallic\", Range(0.0, 1.0)) = 0.0", "Metallic surface parameter (0 = dielectric, 1 = metal)"),
        ("_Smoothness", "_Smoothness (\"Smoothness\", Range(0.0, 1.0)) = 0.5", "Surface smoothness / microfacet roughness parameter"),
        ("_EmissionColor", "[HDR] _EmissionColor (\"Emission Color\", Color) = (0, 0, 0, 1)", "HDR emissive glow color"),
        ("_EmissionMap", "_EmissionMap (\"Emission Map\", 2D) = \"black\" {}", "Emissive light mask texture"),
        ("_Cutoff", "_Cutoff (\"Alpha Cutoff\", Range(0.0, 1.0)) = 0.5", "Alpha testing / clipping threshold"),
        ("_BumpScale", "_BumpScale (\"Normal Scale\", Float) = 1.0", "Normal map perturbation intensity"),
        ("_OcclusionMap", "_OcclusionMap (\"Occlusion Map\", 2D) = \"white\" {}", "Ambient occlusion texture"),
        ("_OcclusionStrength", "_OcclusionStrength (\"Occlusion Strength\", Range(0.0, 1.0)) = 1.0", "Ambient occlusion shadow intensity"),
        ("_Glossiness", "_Glossiness (\"Smoothness\", Range(0.0, 1.0)) = 0.5", "Legacy / Standard shader smoothness parameter"),
        ("_SpecColor", "_SpecColor (\"Specular\", Color) = (0.2, 0.2, 0.2, 1.0)", "Specular reflection highlight color"),
        ("_DetailAlbedoMap", "_DetailAlbedoMap (\"Detail Albedo x2\", 2D) = \"gray\" {}", "Secondary detail albedo texture multiplied by 2"),
        ("_DetailNormalMap", "[Normal] _DetailNormalMap (\"Normal Map\", 2D) = \"bump\" {}", "Secondary high-frequency detail normal map"),
        ("_DetailNormalMapScale", "_DetailNormalMapScale (\"Scale\", Float) = 1.0", "Detail normal map perturbation scale"),
        ("_Surface", "_Surface (\"Surface Type\", Float) = 0.0", "URP surface type (0.0 = Opaque, 1.0 = Transparent)"),
        ("_Blend", "_Blend (\"Blend Mode\", Float) = 0.0", "URP blend mode (0 = Alpha, 1 = Premultiply, 2 = Additive, 3 = Multiply)"),
        ("_Cull", "_Cull (\"Culling\", Float) = 2.0", "Polygon culling mode (0 = Off, 1 = Front, 2 = Back)"),
        ("_ZWrite", "_ZWrite (\"ZWrite\", Float) = 1.0", "Depth write control (0.0 = Off, 1.0 = On)"),
        ("_QueueOffset", "_QueueOffset (\"Queue Offset\", Float) = 0.0", "Render queue priority offset"),
        ("_ReceiveShadows", "_ReceiveShadows (\"Receive Shadows\", Float) = 1.0", "Toggles receiving real-time shadows (0.0 = Off, 1.0 = On)"),
    ];
    proof {
        reveal(common_properties_table);
        assert(triples_of(r@) =~= common_properties_table());
    }
    r
}

/// The property snippets by keyword: keyword, template, description.
#[verifier::opaque]
pub open spec fn property_keyword_snippets_table() -> Seq<(Seq<char>, Seq<char>, Seq<char>)> {
    seq![
        ("float"@, "_${1:Float} (\"${2:Float}\", Float) = ${3:0.0}"@, "Snippet: Float scalar property"@),
        ("range"@, "_${1:Range} (\"${2:Range}\", Range(${3:0.0}, ${4:1.0})) = ${5:0.5}"@, "Snippet: Bounded Range slider property"@),
        ("color"@, "_${1:Color} (\"${2:Color}\", Color) = (${3:1, 1, 1, 1})"@, "Snippet: RGBA Color property"@),
        ("hdr"@, "[HDR] _${1:EmissionColor} (\"${2:Emission Color}\", Color) = (${3:0, 0, 0, 1})"@, "Snippet: High Dynamic Range (HDR) Color property"@),
        ("vector"@, "_${1:Vector} (\"${2:Vector}\", Vector) = (${3:0, 0, 0, 0})"@, "Snippet: 4D Vector property"@),
        ("2d"@, "_${1:Texture} (\"${2:Texture}\", 2D) = \"${3:white}\" {}"@, "Snippet: 2D Texture property"@),
        ("tex"@, "_${1:Texture} (\"${2:Texture}\", 2D) = \"${3:white}\" {}"@, "Snippet: 2D Texture property"@),
        ("texture"@, "_${1:Texture} (\"${2:Texture}\", 2D) = \"${3:white}\" {}"@, "Snippet: 2D Texture property"@),
        ("normal"@, "[Normal] _${1:BumpMap} (\"${2:Normal Map}\", 2D) = \"bump\" {}"@, "Snippet: Normal Map 2D texture property"@),
        ("cube"@, "_${1:Cubemap} (\"${2:Cubemap}\", Cube) = \"\" {}"@, "Snippet: Reflection Cubemap property"@),
        ("int"@, "_${1:Int} (\"${2:Int}\", Int) = ${3:0}"@, "Snippet: Integer scalar property"@),
        ("toggle"@, "[Toggle] _${1:Feature} (\"${2:Enable Feature}\", Float) = ${3:0}"@, "Snippet: Checkbox toggle property"@),
        ("keywordenum"@, "[KeywordEnum(${1:ChoiceA, ChoiceB})] _${2:Mode} (\"${3:Mode}\", Float) = 0"@, "Snippet: KeywordEnum dropdown property"@),
        ("space"@, "[Space]"@, "Snippet: Vertical inspector spacing"@),
        ("header"@, "[Header(\"${1:Section Title}\")]"@, "Snippet: Bold inspector section header"@),
    ]
}

/// The property snippets by keyword: keyword, template, description.
pub fn property_keyword_snippets() -> (r: Vec<(&'static str, &'static str, &'static str)>)
    ensures
        triples_of(r@) == property_keyword_snippets_table(),
{
    let r = vec![
        ("float", "_${1:Float} (\"${2:Float}\", Float) = ${3:0.0}", "Snippet: Float scalar property"),
        ("range", "_${1:Range} (\"${2:Range}\", Range(${3:0.0}, ${4:1.0})) = ${5:0.5}", "Snippet: Bounded Range slider property"),
        ("color", "_${1:Color} (\"${2:Color}\", Color) = (${3:1, 1, 1, 1})", "Snippet: RGBA Color property"),
        ("hdr", "[HDR] _${1:EmissionColor} (\"${2:Emission Color}\", Color) = (${3:0, 0, 0, 1})", "Snippet: High Dynamic Range (HDR) Color property"),
        ("vector", "_${1:Vector} (\"${2:Vector}\", Vector) = (${3:0, 0, 0, 0})", "Snippet: 4D Vector property"),
        ("2d", "_${1:Texture} (\"${2:Texture}\", 2D) = \"${3:white}\" {}", "Snippet: 2D Texture property"),
        ("tex", "_${1:Texture} (\"${2:Texture}\", 2D) = \"${3:white}\" {}", "Snippet: 2D Texture property"),
        ("texture", "_${1:Texture} (\"${2:Texture}\", 2D) = \"${3:white}\" {}", "Snippet: 2D Texture property"),
        ("normal", "[Normal] _${1:BumpMap} (\"${2:Normal Map}\", 2D) = \"bump\" {}", "Snippet: Normal Map 2D texture property"),
        ("cube", "_${1:Cubemap} (\"${2:Cubemap}\", Cube) = \"\" {}", "Snippet: Reflection Cubemap property"),
        ("int", "_${1:Int} (\"${2:Int}\", Int) = ${3:0}", "Snippet: Integer scalar property"),
        ("toggle", "[Toggle] _${1:Feature} (\"${2:Enable Feature}\", Float) = ${3:0}", "Snippet: Checkbox toggle property"),
        ("keywordenum", "[KeywordEnum(${1:ChoiceA, ChoiceB})] _${2:Mode} (\"${3:Mode}\", Float) = 0", "Snippet: KeywordEnum dropdown property"),
        ("space", "[Space]", "Snippet: Vertical inspector spacing"),
        ("header", "[Header(\"${1:Section Title}\")]", "Snippet: Bold inspector section header"),
    ];
    proof {
        reveal(property_keyword_snippets_table);
        assert(triples_of(r@) =~= property_keyword_snippets_table());
    }
    r
}

/// The property types offered after the display name: type, rest of the declaration, description.
#[verifier::opaque]
pub open spec fn types_after_comma_table() -> Seq<(Seq<char>, Seq<char>, Seq<char>)> {
    seq![
        ("Color"@, "Color) = (1, 1, 1, 1)"@, "Color property with RGBA default (1, 1, 1, 1)"@),
        ("Float"@, "Float) = 0.0"@, "Floating-point scalar property with default 0.0"@),
        ("Int"@, "Int) = 0"@, "Integer scalar property with default 0"@),
        ("Range"@, "Range(${1:0.0}, ${2:1.0})) = ${3:0.5}"@, "Bounded Range slider property"@),
        ("2D"@, "2D) = \"${1:white}\" {}"@, "2D texture property with default 'white' tint"@),
        ("Vector"@, "Vector) = (${1:0}, ${2:0}, ${3:0}, ${4:0})"@, "4D vector property with default (0, 0, 0, 0)"@),
        ("Cube"@, "Cube) = \"\" {}"@, "Cubemap reflection texture slot"@),
        ("3D"@, "3D) = \"\" {}"@, "3D volumetric texture slot"@),
        ("2DArray"@, "2DArray) = \"\" {}"@, "2D texture array slot"@),
        ("Rect"@, "Rect) = \"white\" {}"@, "Rect texture slot"@),
    ]
}

/// The property types offered after the display name: type, rest of the declaration, description.
pub fn types_after_comma() -> (r: Vec<(&'static str, &'static str, &'static str)>)
    ensures
        triples_of(r@) == types_after_comma_table(),
{
    let r = vec![
        ("Color", "Color) = (1, 1, 1, 1)", "Color property with RGBA default (1, 1, 1, 1)"),
        ("Float", "Float) = 0.0", "Floating-point scalar property with default 0.0"),
        ("Int", "Int) = 0", "Integer scalar property with default 0"),
        ("Range", "Range(${1:0.0}, ${2:1.0})) = ${3:0.5}", "Bounded Range slider property"),
        ("2D", "2D) = \"${1:white}\" {}", "2D texture property with default 'white' tint"),
        ("Vector", "Vector) = (${1:0}, ${2:0}, ${3:0}, ${4:0})", "4D vector property with default (0, 0, 0, 0)"),
        ("Cube", "Cube) = \"\" {}", "Cubemap reflection texture slot"),
        ("3D", "3D) = \"\" {}", "3D volumetric texture slot"),
        ("2DArray", "2DArray) = \"\" {}", "2D texture array slot"),
        ("Rect", "Rect) = \"white\" {}", "Rect texture slot"),
    ];
    proof {
        reveal(types_after_comma_table);
        assert(triples_of(r@) =~= types_after_comma_table());
    }
    r
}

/// The keywords of HLSL and ShaderLab.
#[verifier::opaque]
pub open spec fn shaderlab_keywords_table() -> Seq<Seq<char>> {
    seq![
        "groupshared"@,
        "cbuffer"@,
        "tbuffer"@,
        "struct"@,
        "register"@,
        "packoffset"@,
        "static"@,
        "const"@,
        "inline"@,
        "extern"@,
        "volatile"@,
        "precise"@,
        "return"@,
        "if"@,
        "else"@,
        "for"@,
        "while"@,
        "do"@,
        "switch"@,
        "case"@,
        "default"@,
        "break"@,
        "continue"@,
        "discard"@,
        "true"@,
        "false"@,
        "in"@,
        "out"@,
        "inout"@,
        "row_major"@,
        "column_major"@,
        "numthreads"@,
        "Shader"@,
        "Properties"@,
        "SubShader"@,
        "Pass"@,
        "Tags"@,
        "Blend"@,
        "BlendOp"@,
        "ZWrite"@,
        "ZTest"@,
        "ZClip"@,
        "Cull"@,
        "ColorMask"@,
        "Offset"@,
        "Conservative"@,
        "AlphaToMask"@,
        "UsePass"@,
        "GrabPass"@,
        "Stencil"@,
        "Ref"@,
        "ReadMask"@,
        "WriteMask"@,
        "Comp"@,
        "Fail"@,
        "ZFail"@,
        "CompFront"@,
        "PassFront"@,
        "FailFront"@,
        "ZFailFront"@,
        "CompBack"@,
        "PassBack"@,
        "FailBack"@,
        "ZFailBack"@,
        "HLSLPROGRAM"@,
        "ENDHLSL"@,
        "CGPROGRAM"@,
        "ENDCG"@,
        "HLSLINCLUDE"@,
        "CGINCLUDE"@,
        "LOD"@,
        "Name"@,
        "Fallback"@,
        "CustomEditor"@,
    ]
}

/// The keywords of HLSL and ShaderLab.
pub fn shaderlab_keywords() -> (r: Vec<&'static str>)
    ensures
        strs_of(r@) == shaderlab_keywords_table(),
{
    let r = vec![
        "groupshared",
        "cbuffer",
        "tbuffer",
        "struct",
        "register",
        "packoffset",
        "static",
        "const",
        "inline",
        "extern",
        "volatile",
        "precise",
        "return",
        "if",
        "else",
        "for",
        "while",
        "do",
        "switch",
        "case",
        "default",
        "break",
        "continue",
        "discard",
        "true",
        "false",
        "in",
        "out",
        "inout",
        "row_major",
        "column_major",
        "numthreads",
        "Shader",
        "Properties",
        "SubShader",
        "Pass",
        "Tags",
        "Blend",
        "BlendOp",
        "ZWrite",
        "ZTest",
        "ZClip",
        "Cull",
        "ColorMask",
        "Offset",
        "Conservative",
        "AlphaToMask",
        "UsePass",
        "GrabPass",
        "Stencil",
        "Ref",
        "ReadMask",
        "WriteMask",
        "Comp",
        "Fail",
        "ZFail",
        "CompFront",
        "PassFront",
        "FailFront",
        "ZFailFront",
        "CompBack",
        "PassBack",
        "FailBack",
        "ZFailBack",
        "HLSLPROGRAM",
        "ENDHLSL",
        "CGPROGRAM",
        "ENDCG",
        "HLSLINCLUDE",
        "CGINCLUDE",
        "LOD",
        "Name",
        "Fallback",
        "CustomEditor",
    ];
    proof {
        reveal(shaderlab_keywords_table);
        assert(strs_of(r@) =~= shaderlab_keywords_table());
    }
    r
}

/// Default values of a `Color` property: value, description.
#[verifier::opaque]
pub open spec fn color_defaults_table() -> Seq<(Seq<char>, Seq<char>)> {
    seq![
        ("(1, 1, 1, 1)"@, "Opaque White (1, 1, 1, 1)"@),
        ("(0, 0, 0, 1)"@, "Opaque Black (0, 0, 0, 1)"@),
        ("(1, 0, 0, 1)"@, "Opaque Red (1, 0, 0, 1)"@),
        ("(0, 1, 0, 1)"@, "Opaque Green (0, 1, 0, 1)"@),
        ("(0, 0, 1, 1)"@, "Opaque Blue (0, 0, 1, 1)"@),
        ("(0, 0, 0, 0)"@, "Transparent Black (0, 0, 0, 0)"@),
        ("(1, 1, 1, 0)"@, "Transparent White (1, 1, 1, 0)"@),
    ]
}

/// Default values of a `Color` property: value, description.
pub fn color_defaults() -> (r: Vec<(&'static str, &'static str)>)
    ensures
        pairs_view(r@) == color_defaults_table(),
{
    let r = vec![
        ("(1, 1, 1, 1)", "Opaque White (1, 1, 1, 1)"),
        ("(0, 0, 0, 1)", "Opaque Black (0, 0, 0, 1)"),
        ("(1, 0, 0, 1)", "Opaque Red (1, 0, 0, 1)"),
        ("(0, 1, 0, 1)", "Opaque Green (0, 1, 0, 1)"),
        ("(0, 0, 1, 1)", "Opaque Blue (0, 0, 1, 1)"),
        ("(0, 0, 0, 0)", "Transparent Black (0, 0, 0, 0)"),
        ("(1, 1, 1, 0)", "Transparent White (1, 1, 1, 0)"),
    ];
    proof {
        reveal(color_defaults_table);
        assert(pairs_view(r@) =~= color_defaults_table());
    }
    r
}

/// Default values of a `Vector` property: value, description.
#[verifier::opaque]
pub open spec fn vector_defaults_table() -> Seq<(Seq<char>, Seq<char>)> {
    seq![
        ("(0, 0, 0, 0)"@, "Zero Vector (0, 0, 0, 0)"@),
        ("(1, 1, 1, 1)"@, "One Vector (1, 1, 1, 1)"@),
        ("(0, 0, 1, 1)"@, "UV Tiling (1,1), Offset (0,0)"@),
    ]
}

/// Default values of a `Vector` property: value, description.
pub fn vector_defaults() -> (r: Vec<(&'static str, &'static str)>)
    ensures
        pairs_view(r@) == vector_defaults_table(),
{
    let r = vec![
        ("(0, 0, 0, 0)", "Zero Vector (0, 0, 0, 0)"),
        ("(1, 1, 1, 1)", "One Vector (1, 1, 1, 1)"),
        ("(0, 0, 1, 1)", "UV Tiling (1,1), Offset (0,0)"),
    ];
    proof {
        reveal(vector_defaults_table);
        assert(pairs_view(r@) =~= vector_defaults_table());
    }
    r
}

/// Default values of a texture property: value, description.
#[verifier::opaque]
pub open spec fn texture_defaults_table() -> Seq<(Seq<char>, Seq<char>)> {
    seq![
        ("\"white\" {}"@, "Default white 2D texture (RGB 1, 1, 1)"@),
        ("\"black\" {}"@, "Default black 2D texture (RGB 0, 0, 0)"@),
        ("\"gray\" {}"@, "Default neutral gray texture (RGB 0.5, 0.5, 0.5)"@),
        ("\"bump\" {}"@, "Default flat normal map (RGB 0.5, 0.5, 1.0)"@),
        ("\"normal\" {}"@, "Default normal map slot"@),
        ("\"red\" {}"@, "Default red texture (RGB 1, 0, 0)"@),
        ("\"\" {}"@, "Empty texture slot"@),
    ]
}

/// Default values of a texture property: value, description.
pub fn texture_defaults() -> (r: Vec<(&'static str, &'static str)>)
    ensures
        pairs_view(r@) == texture_defaults_table(),
{
    let r = vec![
        ("\"white\" {}", "Default white 2D texture (RGB 1, 1, 1)"),
        ("\"black\" {}", "Default black 2D texture (RGB 0, 0, 0)"),
        ("\"gray\" {}", "Default neutral gray texture (RGB 0.5, 0.5, 0.5)"),
        ("\"bump\" {}", "Default flat normal map (RGB 0.5, 0.5, 1.0)"),
        ("\"normal\" {}", "Default normal map slot"),
        ("\"red\" {}", "Default red texture (RGB 1, 0, 0)"),
        ("\"\" {}", "Empty texture slot"),
    ];
    proof {
        reveal(texture_defaults_table);
        assert(pairs_view(r@) =~= texture_defaults_table());
    }
    r
}

/// Default values of a `Float` or `Int` property: value, description.
#[verifier::opaque]
pub open spec fn number_defaults_table() -> Seq<(Seq<char>, Seq<char>)> {
    seq![
        ("0.0"@, "Zero (0.0)"@),
        ("1.0"@, "One (1.0)"@),
        ("0.5"@, "Half (0.5)"@),
        ("-1.0"@, "Negative One (-1.0)"@),
        ("0"@, "Integer Zero (0)"@),
        ("1"@, "Integer One (1)"@),
    ]
}

/// Default values of a `Float` or `Int` property: value, description.
pub fn number_defaults() -> (r: Vec<(&'static str, &'static str)>)
    ensures
        pairs_view(r@) == number_defaults_table(),
{
    let r = vec![
        ("0.0", "Zero (0.0)"),
        ("1.0", "One (1.0)"),
        ("0.5", "Half (0.5)"),
        ("-1.0", "Negative One (-1.0)"),
        ("0", "Integer Zero (0)"),
        ("1", "Integer One (1)"),
    ];
    proof {
        reveal(number_defaults_table);
        assert(pairs_view(r@) =~= number_defaults_table());
    }
    r
}

/// The command words after which render state values are offered, with their category.
#[verifier::opaque]
pub open spec fn state_triggers_table() -> Seq<(Seq<char>, Seq<char>)> {
    seq![
        ("BlendOp"@, "BlendOp"@),
        ("Blend"@, "Blend"@),
        ("Cull"@, "Cull"@),
        ("ZWrite"@, "ZWrite"@),
        ("ZTest"@, "ZTest"@),
        ("ZClip"@, "ZClip"@),
        ("ColorMask"@, "ColorMask"@),
        ("Offset"@, "Offset"@),
        ("Conservative"@, "Conservative"@),
        ("AlphaToMask"@, "AlphaToMask"@),
        ("Lighting"@, "Lighting"@),
        ("Ref"@, "Ref"@),
        ("ReadMask"@, "ReadMask"@),
        ("WriteMask"@, "WriteMask"@),
        ("Comp"@, "Comp"@),
        ("UsePass"@, "UsePass"@),
        ("GrabPass"@, "GrabPass"@),
        ("Name"@, "Name"@),
        ("LOD"@, "LOD"@),
    ]
}

/// The command words after which render state values are offered, with their category.
pub fn state_triggers() -> (r: Vec<(&'static str, &'static str)>)
    ensures
        pairs_view(r@) == state_triggers_table(),
{
    let r = vec![
        ("BlendOp", "BlendOp"),
        ("Blend", "Blend"),
        ("Cull", "Cull"),
        ("ZWrite", "ZWrite"),
        ("ZTest", "ZTest"),
        ("ZClip", "ZClip"),
        ("ColorMask", "ColorMask"),
        ("Offset", "Offset"),
        ("Conservative", "Conservative"),
        ("AlphaToMask", "AlphaToMask"),
        ("Lighting", "Lighting"),
        ("Ref", "Ref"),
        ("ReadMask", "ReadMask"),
        ("WriteMask", "WriteMask"),
        ("Comp", "Comp"),
        ("UsePass", "UsePass"),
        ("GrabPass", "GrabPass"),
        ("Name", "Name"),
        ("LOD", "LOD"),
    ];
    proof {
        reveal(state_triggers_table);
        assert(pairs_view(r@) =~= state_triggers_table());
    }
    r
}

/// The ShaderLab block templates: label, description, template.
#[verifier::opaque]
pub open spec fn block_snippets_table() -> Seq<(Seq<char>, Seq<char>, Seq<char>)> {
    seq![
        ("shader"@, "Unity ShaderLab 3D Shader template"@, "Shader \"$1\"\n{\n    Properties\n    {\n        _MainTex (\"Texture\", 2D) = \"white\" {}\n    }\n    SubShader\n    {\n        Tags { \"RenderType\"=\"Opaque\" \"RenderPipeline\"=\"UniversalPipeline\" }\n        Pass\n        {\n            HLSLPROGRAM\n            #pragma vertex vert\n            #pragma fragment frag\n            $0\n            ENDHLSL\n        }\n    }\n}"@),
        ("sprite"@, "Unity 2D Sprite Shader template"@, "Shader \"Sprites/${1:CustomSprite}\"\n{\n    Properties\n    {\n        [PerRendererData] _MainTex (\"Sprite Texture\", 2D) = \"white\" {}\n        _Color (\"Tint\", Color) = (1,1,1,1)\n        [MaterialToggle] PixelSnap (\"Pixel snap\", Float) = 0\n        [HideInInspector] _RendererColor (\"RendererColor\", Color) = (1,1,1,1)\n        [HideInInspector] _Flip (\"Flip\", Vector) = (1,1,1,1)\n    }\n    SubShader\n    {\n        Tags\n        {\n            \"Queue\"=\"Transparent\"\n            \"IgnoreProjector\"=\"True\"\n            \"RenderType\"=\"Transparent\"\n            \"PreviewType\"=\"Plane\"\n            \"CanUseSpriteAtlas\"=\"True\"\n        }\n        Cull Off\n        Lighting Off\n        ZWrite Off\n        Blend One OneMinusSrcAlpha\n        Pass\n        {\n            CGPROGRAM\n            #pragma vertex vert\n            #pragma fragment frag\n            #pragma multi_compile _ PIXELSNAP_ON\n            #include \"UnityCG.cginc\"\n\n            struct appdata_t\n            {\n                float4 vertex   : POSITION;\n                float4 color    : COLOR;\n                float2 texcoord : TEXCOORD0;\n            };\n\n            struct v2f\n            {\n                float4 vertex   : SV_POSITION;\n                fixed4 color    : COLOR;\n                float2 texcoord : TEXCOORD0;\n            };\n\n            sampler2D _MainTex;\n            fixed4 _Color;\n            fixed4 _RendererColor;\n            float4 _Flip;\n\n            v2f vert(appdata_t IN)\n            {\n                v2f OUT;\n                IN.vertex.xy *= _Flip.xy;\n                OUT.vertex = UnityObjectToClipPos(IN.vertex);\n                OUT.texcoord = IN.texcoord;\n                OUT.color = IN.color * _Color * _RendererColor;\n                #ifdef PIXELSNAP_ON\n                OUT.vertex = UnityPixelSnap(OUT.vertex);\n                #endif\n                return OUT;\n            }\n\n            fixed4 frag(v2f IN) : SV_Target\n            {\n                fixed4 c = tex2D(_MainTex, IN.texcoord) * IN.color;\n                c.rgb *= c.a;\n                return c;\n            }\n            ENDCG\n        }\n    }\n}"@),
        ("ui"@, "Unity UI (Canvas 2D) Shader template"@, "Shader \"UI/${1:CustomUI}\"\n{\n    Properties\n    {\n        [PerRendererData] _MainTex (\"Sprite Texture\", 2D) = \"white\" {}\n        _Color (\"Tint\", Color) = (1,1,1,1)\n        _ClipRect (\"Clip Rect\", Vector) = (-32767, -32767, 32767, 32767)\n        _ColorMask (\"Color Mask\", Float) = 15\n    }\n    SubShader\n    {\n        Tags\n        {\n            \"Queue\"=\"Transparent\"\n            \"IgnoreProjector\"=\"True\"\n            \"RenderType\"=\"Transparent\"\n            \"PreviewType\"=\"Plane\"\n            \"CanUseSpriteAtlas\"=\"True\"\n        }\n        Cull Off\n        Lighting Off\n        ZWrite Off\n        Blend SrcAlpha OneMinusSrcAlpha\n        ColorMask [_ColorMask]\n        Pass\n        {\n            CGPROGRAM\n            #pragma vertex vert\n            #pragma fragment frag\n            #include \"UnityCG.cginc\"\n\n            struct appdata_t\n            {\n                float4 vertex   : POSITION;\n                float4 color    : COLOR;\n                float2 texcoord : TEXCOORD0;\n            };\n\n            struct v2f\n            {\n                float4 vertex   : SV_POSITION;\n                fixed4 color    : COLOR;\n                float2 texcoord : TEXCOORD0;\n                float4 worldPosition : TEXCOORD1;\n            };\n\n            sampler2D _MainTex;\n            fixed4 _Color;\n            float4 _ClipRect;\n\n            v2f vert(appdata_t v)\n            {\n                v2f OUT;\n                OUT.worldPosition = v.vertex;\n                OUT.vertex = UnityObjectToClipPos(OUT.worldPosition);\n                OUT.texcoord = v.texcoord;\n                OUT.color = v.color * _Color;\n                return OUT;\n            }\n\n            fixed4 frag(v2f IN) : SV_Target\n            {\n                half4 color = tex2D(_MainTex, IN.texcoord) * IN.color;\n                color.a *= UnityGet2DClipping(IN.worldPosition.xy, _ClipRect);\n                return color;\n            }\n            ENDCG\n        }\n    }\n}"@),
        ("pass"@, "Unity ShaderLab Pass block"@, "Pass\n{\n    Name \"$1\"\n    HLSLPROGRAM\n    #pragma vertex vert\n    #pragma fragment frag\n    $0\n    ENDHLSL\n}"@),
        ("stencil"@, "ShaderLab Stencil buffer block"@, "Stencil\n{\n    Ref ${1:1}\n    Comp ${2:Always}\n    Pass ${3:Replace}\n}"@),
        ("usepass"@, "ShaderLab UsePass command"@, "UsePass \"${1:Shader/PASSNAME}\""@),
        ("grabpass"@, "ShaderLab GrabPass command"@, "GrabPass { \"${1:_BackgroundTexture}\" }"@),
        ("name"@, "Pass Name command"@, "Name \"${1:PassName}\""@),
        ("lod"@, "SubShader LOD level"@, "LOD ${1:100}"@),
        ("tags"@, "ShaderLab Tags block"@, "Tags { \"${1:RenderType}\" = \"${2:Opaque}\" }"@),
        ("properties"@, "Properties block"@, "Properties\n{\n    $0\n}"@),
        ("subshader"@, "SubShader block"@, "SubShader\n{\n    $0\n}"@),
    ]
}

/// The ShaderLab block templates: label, description, template.
pub fn block_snippets() -> (r: Vec<(&'static str, &'static str, &'static str)>)
    ensures
        triples_of(r@) == block_snippets_table(),
{
    let r = vec![
        ("shader", "Unity ShaderLab 3D Shader template", "Shader \"$1\"\n{\n    Properties\n    {\n        _MainTex (\"Texture\", 2D) = \"white\" {}\n    }\n    SubShader\n    {\n        Tags { \"RenderType\"=\"Opaque\" \"RenderPipeline\"=\"UniversalPipeline\" }\n        Pass\n        {\n            HLSLPROGRAM\n            #pragma vertex vert\n            #pragma fragment frag\n            $0\n            ENDHLSL\n        }\n    }\n}"),
        ("sprite", "Unity 2D Sprite Shader template", "Shader \"Sprites/${1:CustomSprite}\"\n{\n    Properties\n    {\n        [PerRendererData] _MainTex (\"Sprite Texture\", 2D) = \"white\" {}\n        _Color (\"Tint\", Color) = (1,1,1,1)\n        [MaterialToggle] PixelSnap (\"Pixel snap\", Float) = 0\n        [HideInInspector] _RendererColor (\"RendererColor\", Color) = (1,1,1,1)\n        [HideInInspector] _Flip (\"Flip\", Vector) = (1,1,1,1)\n    }\n    SubShader\n    {\n        Tags\n        {\n            \"Queue\"=\"Transparent\"\n            \"IgnoreProjector\"=\"True\"\n            \"RenderType\"=\"Transparent\"\n            \"PreviewType\"=\"Plane\"\n            \"CanUseSpriteAtlas\"=\"True\"\n        }\n        Cull Off\n        Lighting Off\n        ZWrite Off\n        Blend One OneMinusSrcAlpha\n        Pass\n        {\n            CGPROGRAM\n            #pragma vertex vert\n            #pragma fragment frag\n            #pragma multi_compile _ PIXELSNAP_ON\n            #include \"UnityCG.cginc\"\n\n            struct appdata_t\n            {\n                float4 vertex   : POSITION;\n                float4 color    : COLOR;\n                float2 texcoord : TEXCOORD0;\n            };\n\n            struct v2f\n            {\n                float4 vertex   : SV_POSITION;\n                fixed4 color    : COLOR;\n                float2 texcoord : TEXCOORD0;\n            };\n\n            sampler2D _MainTex;\n            fixed4 _Color;\n            fixed4 _RendererColor;\n            float4 _Flip;\n\n            v2f vert(appdata_t IN)\n            {\n                v2f OUT;\n                IN.vertex.xy *= _Flip.xy;\n                OUT.vertex = UnityObjectToClipPos(IN.vertex);\n                OUT.texcoord = IN.texcoord;\n                OUT.color = IN.color * _Color * _RendererColor;\n                #ifdef PIXELSNAP_ON\n                OUT.vertex = UnityPixelSnap(OUT.vertex);\n                #endif\n                return OUT;\n            }\n\n            fixed4 frag(v2f IN) : SV_Target\n            {\n                fixed4 c = tex2D(_MainTex, IN.texcoord) * IN.color;\n                c.rgb *= c.a;\n                return c;\n            }\n            ENDCG\n        }\n    }\n}"),
        ("ui", "Unity UI (Canvas 2D) Shader template", "Shader \"UI/${1:CustomUI}\"\n{\n    Properties\n    {\n        [PerRendererData] _MainTex (\"Sprite Texture\", 2D) = \"white\" {}\n        _Color (\"Tint\", Color) = (1,1,1,1)\n        _ClipRect (\"Clip Rect\", Vector) = (-32767, -32767, 32767, 32767)\n        _ColorMask (\"Color Mask\", Float) = 15\n    }\n    SubShader\n    {\n        Tags\n        {\n            \"Queue\"=\"Transparent\"\n            \"IgnoreProjector\"=\"True\"\n            \"RenderType\"=\"Transparent\"\n            \"PreviewType\"=\"Plane\"\n            \"CanUseSpriteAtlas\"=\"True\"\n        }\n        Cull Off\n        Lighting Off\n        ZWrite Off\n        Blend SrcAlpha OneMinusSrcAlpha\n        ColorMask [_ColorMask]\n        Pass\n        {\n            CGPROGRAM\n            #pragma vertex vert\n            #pragma fragment frag\n            #include \"UnityCG.cginc\"\n\n            struct appdata_t\n            {\n                float4 vertex   : POSITION;\n                float4 color    : COLOR;\n                float2 texcoord : TEXCOORD0;\n            };\n\n            struct v2f\n            {\n                float4 vertex   : SV_POSITION;\n                fixed4 color    : COLOR;\n                float2 texcoord : TEXCOORD0;\n                float4 worldPosition : TEXCOORD1;\n            };\n\n            sampler2D _MainTex;\n            fixed4 _Color;\n            float4 _ClipRect;\n\n            v2f vert(appdata_t v)\n            {\n                v2f OUT;\n                OUT.worldPosition = v.vertex;\n                OUT.vertex = UnityObjectToClipPos(OUT.worldPosition);\n                OUT.texcoord = v.texcoord;\n                OUT.color = v.color * _Color;\n                return OUT;\n            }\n\n            fixed4 frag(v2f IN) : SV_Target\n            {\n                half4 color = tex2D(_MainTex, IN.texcoord) * IN.color;\n                color.a *= UnityGet2DClipping(IN.worldPosition.xy, _ClipRect);\n                return color;\n            }\n            ENDCG\n        }\n    }\n}"),
        ("pass", "Unity ShaderLab Pass block", "Pass\n{\n    Name \"$1\"\n    HLSLPROGRAM\n    #pragma vertex vert\n    #pragma fragment frag\n    $0\n    ENDHLSL\n}"),
        ("stencil", "ShaderLab Stencil buffer block", "Stencil\n{\n    Ref ${1:1}\n    Comp ${2:Always}\n    Pass ${3:Replace}\n}"),
        ("usepass", "ShaderLab UsePass command", "UsePass \"${1:Shader/PASSNAME}\""),
        ("grabpass", "ShaderLab GrabPass command", "GrabPass { \"${1:_BackgroundTexture}\" }"),
        ("name", "Pass Name command", "Name \"${1:PassName}\""),
        ("lod", "SubShader LOD level", "LOD ${1:100}"),
        ("tags", "ShaderLab Tags block", "Tags { \"${1:RenderType}\" = \"${2:Opaque}\" }"),
        ("properties", "Properties block", "Properties\n{\n    $0\n}"),
        ("subshader", "SubShader block", "SubShader\n{\n    $0\n}"),
    ];
    proof {
        reveal(block_snippets_table);
        assert(triples_of(r@) =~= block_snippets_table());
    }
    r
}

} // verus!
