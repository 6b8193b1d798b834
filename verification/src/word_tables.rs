//! The built-in types, keywords and code snippets that completion offers.
use vstd::prelude::*;

verus! {

/// The HLSL built-in types.
#[verifier::opaque]
pub open spec fn builtin_type_table() -> Seq<Seq<char>> {
    seq![
        "float"@,
        "float2"@,
        "float3"@,
        "float4"@,
        "half"@,
        "half2"@,
        "half3"@,
        "half4"@,
        "int"@,
        "int2"@,
        "int3"@,
        "int4"@,
        "uint"@,
        "uint2"@,
        "uint3"@,
        "uint4"@,
        "bool"@,
        "bool2"@,
        "bool3"@,
        "bool4"@,
        "double"@,
        "float4x4"@,
        "float3x3"@,
        "float2x2"@,
        "half4x4"@,
        "half3x3"@,
        "matrix"@,
        "Texture1D"@,
        "Texture1DArray"@,
        "Texture2D"@,
        "Texture2DArray"@,
        "Texture2DMS"@,
        "Texture2DMSArray"@,
        "Texture3D"@,
        "TextureCube"@,
        "TextureCubeArray"@,
        "SamplerState"@,
        "SamplerComparisonState"@,
        "sampler2D"@,
        "samplerCUBE"@,
        "RWTexture1D"@,
        "RWTexture1DArray"@,
        "RWTexture2D"@,
        "RWTexture2DArray"@,
        "RWTexture3D"@,
        "Buffer"@,
        "RWBuffer"@,
        "StructuredBuffer"@,
        "RWStructuredBuffer"@,
        "AppendStructuredBuffer"@,
        "ConsumeStructuredBuffer"@,
        "ByteAddressBuffer"@,
        "RWByteAddressBuffer"@,
        "tbuffer"@,
        "RasterizerOrderedTexture2D"@,
        "RasterizerOrderedStructuredBuffer"@,
        "RasterizerOrderedByteAddressBuffer"@,
        "PointStream"@,
        "LineStream"@,
        "TriangleStream"@,
        "InputPatch"@,
        "OutputPatch"@,
    ]
}

/// The HLSL keywords offered as words.
#[verifier::opaque]
pub open spec fn keyword_table() -> Seq<Seq<char>> {
    seq![
        "groupshared"@,
        "cbuffer"@,
        "tbuffer"@,
        "struct"@,
        "register"@,
        "packoffset"@,
        "static"@,
        "const"@,
        "inline"@,
        "extern"@,
        "volatile"@,
        "precise"@,
        "return"@,
        "if"@,
        "else"@,
        "for"@,
        "while"@,
        "do"@,
        "switch"@,
        "case"@,
        "default"@,
        "break"@,
        "continue"@,
        "discard"@,
        "true"@,
        "false"@,
        "in"@,
        "out"@,
        "inout"@,
        "row_major"@,
        "column_major"@,
        "numthreads"@,
    ]
}

/// The code snippets: label, description and snippet text.
#[verifier::opaque]
pub open spec fn snippet_table() -> Seq<(Seq<char>, Seq<char>, Seq<char>)> {
    seq![
        ("vert"@, "Vertex Shader function"@, "Varyings vert(Attributes input)\n{\n    Varyings output = (Varyings)0;\n    output.positionCS = TransformObjectToHClip(input.positionOS.xyz);\n    $0\n    return output;\n}"@),
        ("frag"@, "Fragment/Pixel Shader function"@, "float4 frag(Varyings input) : SV_Target\n{\n    $0\n    return float4(1.0, 1.0, 1.0, 1.0);\n}"@),
        ("kernel"@, "Compute Shader kernel"@, "[numthreads(${1:8}, ${2:8}, ${3:1})]\nvoid ${4:CSMain}(uint3 id : SV_DispatchThreadID)\n{\n    $0\n}"@),
        ("struct"@, "Struct declaration"@, "struct $1\n{\n    $0\n};"@),
        ("cbuffer"@, "Constant Buffer with register"@, "cbuffer $1 : register(b${2:0})\n{\n    $0\n};"@),
        ("cbuffer_unity_per_material"@, "CBUFFER_START(UnityPerMaterial) block"@, "CBUFFER_START(UnityPerMaterial)\n    $0\nCBUFFER_END"@),
        ("cbuffer_unity_per_draw"@, "CBUFFER_START(UnityPerDraw) block"@, "CBUFFER_START(UnityPerDraw)\n    $0\nCBUFFER_END"@),
        ("cbuffer_unity_per_camera"@, "CBUFFER_START(UnityPerCamera) block"@, "CBUFFER_START(UnityPerCamera)\n    $0\nCBUFFER_END"@),
        ("tex2d"@, "Texture2D and SamplerState pair"@, "Texture2D $1 : register(t${2:0});\nSamplerState sampler_$1 : register(s${2:0});"@),
        ("for"@, "For loop"@, "for (int ${1:i} = 0; ${1:i} < ${2:count}; ++${1:i})\n{\n    $0\n}"@),
        ("while"@, "While loop"@, "while ($1)\n{\n    $0\n}"@),
        ("if"@, "If condition"@, "if ($1)\n{\n    $0\n}"@),
        ("ifelse"@, "If-Else statement"@, "if ($1)\n{\n    $2\n}\nelse\n{\n    $0\n}"@),
        ("switch"@, "Switch statement"@, "switch ($1)\n{\n    case $2:\n        break;\n    default:\n        break;\n}"@),
    ]
}

pub open spec fn strs_of(v: Seq<&str>) -> Seq<Seq<char>> {
    v.map_values(|s: &str| s@)
}

pub open spec fn triples_of(v: Seq<(&str, &str, &str)>) -> Seq<(Seq<char>, Seq<char>, Seq<char>)> {
    v.map_values(|t: (&str, &str, &str)| (t.0@, t.1@, t.2@))
}

/// The HLSL built-in types.
pub fn builtin_types() -> (r: Vec<&'static str>)
    ensures
        strs_of(r@) == builtin_type_table(),
{
    let r = vec![
        "float",
        "float2",
        "float3",
        "float4",
        "half",
        "half2",
        "half3",
        "half4",
        "int",
        "int2",
        "int3",
        "int4",
        "uint",
        "uint2",
        "uint3",
        "uint4",
        "bool",
        "bool2",
        "bool3",
        "bool4",
        "double",
        "float4x4",
        "float3x3",
        "float2x2",
        "half4x4",
        "half3x3",
        "matrix",
        "Texture1D",
        "Texture1DArray",
        "Texture2D",
        "Texture2DArray",
        "Texture2DMS",
        "Texture2DMSArray",
        "Texture3D",
        "TextureCube",
        "TextureCubeArray",
        "SamplerState",
        "SamplerComparisonState",
        "sampler2D",
        "samplerCUBE",
        "RWTexture1D",
        "RWTexture1DArray",
        "RWTexture2D",
        "RWTexture2DArray",
        "RWTexture3D",
        "Buffer",
        "RWBuffer",
        "StructuredBuffer",
        "RWStructuredBuffer",
        "AppendStructuredBuffer",
        "ConsumeStructuredBuffer",
        "ByteAddressBuffer",
        "RWByteAddressBuffer",
        "tbuffer",
        "RasterizerOrderedTexture2D",
        "RasterizerOrderedStructuredBuffer",
        "RasterizerOrderedByteAddressBuffer",
        "PointStream",
        "LineStream",
        "TriangleStream",
        "InputPatch",
        "OutputPatch",
    ];
    proof {
        reveal(builtin_type_table);
        assert(strs_of(r@) =~= builtin_type_table());
    }
    r
}

/// The HLSL keywords offered as words.
pub fn keywords() -> (r: Vec<&'static str>)
    ensures
        strs_of(r@) == keyword_table(),
{
    let r = vec![
        "groupshared",
        "cbuffer",
        "tbuffer",
        "struct",
        "register",
        "packoffset",
        "static",
        "const",
        "inline",
        "extern",
        "volatile",
        "precise",
        "return",
        "if",
        "else",
        "for",
        "while",
        "do",
        "switch",
        "case",
        "default",
        "break",
        "continue",
        "discard",
        "true",
        "false",
        "in",
        "out",
        "inout",
        "row_major",
        "column_major",
        "numthreads",
    ];
    proof {
        reveal(keyword_table);
        assert(strs_of(r@) =~= keyword_table());
    }
    r
}

/// The code snippets.
pub fn snippets() -> (r: Vec<(&'static str, &'static str, &'static str)>)
    ensures
        triples_of(r@) == snippet_table(),
{
    let r = vec![
        ("vert", "Vertex Shader function", "Varyings vert(Attributes input)\n{\n    Varyings output = (Varyings)0;\n    output.positionCS = TransformObjectToHClip(input.positionOS.xyz);\n    $0\n    return output;\n}"),
        ("frag", "Fragment/Pixel Shader function", "float4 frag(Varyings input) : SV_Target\n{\n    $0\n    return float4(1.0, 1.0, 1.0, 1.0);\n}"),
        ("kernel", "Compute Shader kernel", "[numthreads(${1:8}, ${2:8}, ${3:1})]\nvoid ${4:CSMain}(uint3 id : SV_DispatchThreadID)\n{\n    $0\n}"),
        ("struct", "Struct declaration", "struct $1\n{\n    $0\n};"),
        ("cbuffer", "Constant Buffer with register", "cbuffer $1 : register(b${2:0})\n{\n    $0\n};"),
        ("cbuffer_unity_per_material", "CBUFFER_START(UnityPerMaterial) block", "CBUFFER_START(UnityPerMaterial)\n    $0\nCBUFFER_END"),
        ("cbuffer_unity_per_draw", "CBUFFER_START(UnityPerDraw) block", "CBUFFER_START(UnityPerDraw)\n    $0\nCBUFFER_END"),
        ("cbuffer_unity_per_camera", "CBUFFER_START(UnityPerCamera) block", "CBUFFER_START(UnityPerCamera)\n    $0\nCBUFFER_END"),
        ("tex2d", "Texture2D and SamplerState pair", "Texture2D $1 : register(t${2:0});\nSamplerState sampler_$1 : register(s${2:0});"),
        ("for", "For loop", "for (int ${1:i} = 0; ${1:i} < ${2:count}; ++${1:i})\n{\n    $0\n}"),
        ("while", "While loop", "while ($1)\n{\n    $0\n}"),
        ("if", "If condition", "if ($1)\n{\n    $0\n}"),
        ("ifelse", "If-Else statement", "if ($1)\n{\n    $2\n}\nelse\n{\n    $0\n}"),
        ("switch", "Switch statement", "switch ($1)\n{\n    case $2:\n        break;\n    default:\n        break;\n}"),
    ];
    proof {
        reveal(snippet_table);
        assert(triples_of(r@) =~= snippet_table());
    }
    r
}

} // verus!
