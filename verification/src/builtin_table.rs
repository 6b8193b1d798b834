//! The table of intrinsic and engine functions that hover and signature help document.
use vstd::prelude::*;
use crate::docs::{functions_view, BuiltinFunction, BuiltinOverload, FunctionDoc, OverloadDoc};

verus! {

/// Entries 0 to 25 of the function table.
#[verifier::opaque]
pub open spec fn builtin_part_0() -> Seq<FunctionDoc> {
    seq![
        FunctionDoc {
            name: "float4"@,
            description: "### `float4`\n*HLSL Vector Constructor*\n\nConstructs a 4-component floating-point vector from scalar or vector components."@,
            overloads: seq![
                OverloadDoc { label: "float4(float x, float y, float z, float w)"@, params: seq!["float x"@, "float y"@, "float z"@, "float w"@] },
                OverloadDoc { label: "float4(float3 xyz, float w)"@, params: seq!["float3 xyz"@, "float w"@] },
                OverloadDoc { label: "float4(float x, float3 yzw)"@, params: seq!["float x"@, "float3 yzw"@] },
                OverloadDoc { label: "float4(float2 xy, float2 zw)"@, params: seq!["float2 xy"@, "float2 zw"@] },
                OverloadDoc { label: "float4(float2 xy, float z, float w)"@, params: seq!["float2 xy"@, "float z"@, "float w"@] },
                OverloadDoc { label: "float4(float s)"@, params: seq!["float s"@] },
            ],
        },
        FunctionDoc {
            name: "float3"@,
            description: "### `float3`\n*HLSL Vector Constructor*\n\nConstructs a 3-component floating-point vector from scalar or vector components."@,
            overloads: seq![
                OverloadDoc { label: "float3(float x, float y, float z)"@, params: seq!["float x"@, "float y"@, "float z"@] },
                OverloadDoc { label: "float3(float2 xy, float z)"@, params: seq!["float2 xy"@, "float z"@] },
                OverloadDoc { label: "float3(float x, float2 yz)"@, params: seq!["float x"@, "float2 yz"@] },
                OverloadDoc { label: "float3(float s)"@, params: seq!["float s"@] },
            ],
        },
        FunctionDoc {
            name: "float2"@,
            description: "### `float2`\n*HLSL Vector Constructor*\n\nConstructs a 2-component floating-point vector."@,
            overloads: seq![
                OverloadDoc { label: "float2(float x, float y)"@, params: seq!["float x"@, "float y"@] },
                OverloadDoc { label: "float2(float s)"@, params: seq!["float s"@] },
            ],
        },
        FunctionDoc {
            name: "half4"@,
            description: "### `half4`\n*HLSL Half-Precision Vector Constructor*\n\nConstructs a 4-component half-precision vector."@,
            overloads: seq![
                OverloadDoc { label: "half4(half x, half y, half z, half w)"@, params: seq!["half x"@, "half y"@, "half z"@, "half w"@] },
                OverloadDoc { label: "half4(half3 xyz, half w)"@, params: seq!["half3 xyz"@, "half w"@] },
                OverloadDoc { label: "half4(half2 xy, half2 zw)"@, params: seq!["half2 xy"@, "half2 zw"@] },
                OverloadDoc { label: "half4(half s)"@, params: seq!["half s"@] },
            ],
        },
        FunctionDoc {
            name: "half3"@,
            description: "### `half3`\n*HLSL Half-Precision Vector Constructor*\n\nConstructs a 3-component half-precision vector."@,
            overloads: seq![
                OverloadDoc { label: "half3(half x, half y, half z)"@, params: seq!["half x"@, "half y"@, "half z"@] },
                OverloadDoc { label: "half3(half2 xy, half z)"@, params: seq!["half2 xy"@, "half z"@] },
                OverloadDoc { label: "half3(half s)"@, params: seq!["half s"@] },
            ],
        },
        FunctionDoc {
            name: "half2"@,
            description: "### `half2`\n*HLSL Half-Precision Vector Constructor*\n\nConstructs a 2-component half-precision vector."@,
            overloads: seq![
                OverloadDoc { label: "half2(half x, half y)"@, params: seq!["half x"@, "half y"@] },
                OverloadDoc { label: "half2(half s)"@, params: seq!["half s"@] },
            ],
        },
        FunctionDoc {
            name: "lerp"@,
            description: "### `lerp`\n*Microsoft HLSL Intrinsic*\n\nPerforms a linear interpolation between `x` and `y` using factor `s`.\n\n$$\\text{lerp}(x, y, s) = x + s \\cdot (y - x)$$\n\n**Parameters:**\n* `x`: Start value (scalar or vector).\n* `y`: End value (scalar or vector).\n* `s`: Interpolation weight factor, typically in $[0.0, 1.0]$."@,
            overloads: seq![
                OverloadDoc { label: "float lerp(float x, float y, float s)"@, params: seq!["float x"@, "float y"@, "float s"@] },
                OverloadDoc { label: "float2 lerp(float2 x, float2 y, float2 s)"@, params: seq!["float2 x"@, "float2 y"@, "float2 s"@] },
                OverloadDoc { label: "float2 lerp(float2 x, float2 y, float s)"@, params: seq!["float2 x"@, "float2 y"@, "float s"@] },
                OverloadDoc { label: "float3 lerp(float3 x, float3 y, float3 s)"@, params: seq!["float3 x"@, "float3 y"@, "float3 s"@] },
                OverloadDoc { label: "float3 lerp(float3 x, float3 y, float s)"@, params: seq!["float3 x"@, "float3 y"@, "float s"@] },
                OverloadDoc { label: "float4 lerp(float4 x, float4 y, float4 s)"@, params: seq!["float4 x"@, "float4 y"@, "float4 s"@] },
                OverloadDoc { label: "float4 lerp(float4 x, float4 y, float s)"@, params: seq!["float4 x"@, "float4 y"@, "float s"@] },
                OverloadDoc { label: "half lerp(half x, half y, half s)"@, params: seq!["half x"@, "half y"@, "half s"@] },
                OverloadDoc { label: "half3 lerp(half3 x, half3 y, half s)"@, params: seq!["half3 x"@, "half3 y"@, "half s"@] },
                OverloadDoc { label: "half4 lerp(half4 x, half4 y, half s)"@, params: seq!["half4 x"@, "half4 y"@, "half s"@] },
            ],
        },
        FunctionDoc {
            name: "saturate"@,
            description: "### `saturate`\n*Microsoft HLSL Intrinsic*\n\nClamps the specified value to the range $[0.0, 1.0]$. Extremely fast on GPU hardware.\n\n$$\\text{saturate}(x) = \\min(\\max(x, 0.0), 1.0)$$\n\n**Parameters:**\n* `x`: Input value to clamp."@,
            overloads: seq![
                OverloadDoc { label: "float saturate(float x)"@, params: seq!["float x"@] },
                OverloadDoc { label: "float2 saturate(float2 x)"@, params: seq!["float2 x"@] },
                OverloadDoc { label: "float3 saturate(float3 x)"@, params: seq!["float3 x"@] },
                OverloadDoc { label: "float4 saturate(float4 x)"@, params: seq!["float4 x"@] },
                OverloadDoc { label: "half saturate(half x)"@, params: seq!["half x"@] },
                OverloadDoc { label: "half3 saturate(half3 x)"@, params: seq!["half3 x"@] },
                OverloadDoc { label: "half4 saturate(half4 x)"@, params: seq!["half4 x"@] },
            ],
        },
        FunctionDoc {
            name: "clamp"@,
            description: "### `clamp`\n*Microsoft HLSL Intrinsic*\n\nClamps value `x` to the specified `[min, max]` range.\n\n$$\\text{clamp}(x, min, max) = \\min(\\max(x, min), max)$$\n\n**Parameters:**\n* `x`: Input value to clamp.\n* `min`: Minimum allowed value.\n* `max`: Maximum allowed value."@,
            overloads: seq![
                OverloadDoc { label: "float clamp(float x, float min, float max)"@, params: seq!["float x"@, "float min"@, "float max"@] },
                OverloadDoc { label: "float2 clamp(float2 x, float2 min, float2 max)"@, params: seq!["float2 x"@, "float2 min"@, "float2 max"@] },
                OverloadDoc { label: "float3 clamp(float3 x, float3 min, float3 max)"@, params: seq!["float3 x"@, "float3 min"@, "float3 max"@] },
                OverloadDoc { label: "float4 clamp(float4 x, float4 min, float4 max)"@, params: seq!["float4 x"@, "float4 min"@, "float4 max"@] },
            ],
        },
        FunctionDoc {
            name: "step"@,
            description: "### `step`\n*Microsoft HLSL Intrinsic*\n\nCompares two values, returning 0 if `x < y`, or 1 otherwise.\n\n**Parameters:**\n* `y`: The threshold/edge value.\n* `x`: Value to compare against `y`."@,
            overloads: seq![
                OverloadDoc { label: "float step(float y, float x)"@, params: seq!["float y"@, "float x"@] },
                OverloadDoc { label: "float2 step(float2 y, float2 x)"@, params: seq!["float2 y"@, "float2 x"@] },
                OverloadDoc { label: "float3 step(float3 y, float3 x)"@, params: seq!["float3 y"@, "float3 x"@] },
                OverloadDoc { label: "float4 step(float4 y, float4 x)"@, params: seq!["float4 y"@, "float4 x"@] },
            ],
        },
        FunctionDoc {
            name: "smoothstep"@,
            description: "### `smoothstep`\n*Microsoft HLSL Intrinsic*\n\nReturns a smooth Hermite interpolation between 0 and 1, if `x` is in the range `[min, max]`.\n\n**Parameters:**\n* `min`: Lower edge.\n* `max`: Upper edge.\n* `x`: Input value."@,
            overloads: seq![
                OverloadDoc { label: "float smoothstep(float min, float max, float x)"@, params: seq!["float min"@, "float max"@, "float x"@] },
                OverloadDoc { label: "float2 smoothstep(float2 min, float2 max, float2 x)"@, params: seq!["float2 min"@, "float2 max"@, "float2 x"@] },
                OverloadDoc { label: "float3 smoothstep(float3 min, float3 max, float3 x)"@, params: seq!["float3 min"@, "float3 max"@, "float3 x"@] },
                OverloadDoc { label: "float4 smoothstep(float4 min, float4 max, float4 x)"@, params: seq!["float4 min"@, "float4 max"@, "float4 x"@] },
            ],
        },
        FunctionDoc {
            name: "frac"@,
            description: "### `frac`\n*Microsoft HLSL Intrinsic*\n\nReturns the fractional (decimal) part of `x`.\n\n$$\\text{frac}(x) = x - \\lfloor x \\rfloor$$\n\n**Parameters:**\n* `x`: Floating point input."@,
            overloads: seq![
                OverloadDoc { label: "float frac(float x)"@, params: seq!["float x"@] },
                OverloadDoc { label: "float2 frac(float2 x)"@, params: seq!["float2 x"@] },
                OverloadDoc { label: "float3 frac(float3 x)"@, params: seq!["float3 x"@] },
                OverloadDoc { label: "float4 frac(float4 x)"@, params: seq!["float4 x"@] },
            ],
        },
        FunctionDoc {
            name: "fmod"@,
            description: "### `fmod`\n*Microsoft HLSL Intrinsic*\n\nReturns the floating-point remainder of `x / y`.\n\n**Parameters:**\n* `x`: Numerator.\n* `y`: Denominator."@,
            overloads: seq![
                OverloadDoc { label: "float fmod(float x, float y)"@, params: seq!["float x"@, "float y"@] },
                OverloadDoc { label: "float2 fmod(float2 x, float2 y)"@, params: seq!["float2 x"@, "float2 y"@] },
                OverloadDoc { label: "float3 fmod(float3 x, float3 y)"@, params: seq!["float3 x"@, "float3 y"@] },
                OverloadDoc { label: "float4 fmod(float4 x, float4 y)"@, params: seq!["float4 x"@, "float4 y"@] },
            ],
        },
        FunctionDoc {
            name: "abs"@,
            description: "### `abs`\n*Microsoft HLSL Intrinsic*\n\nReturns the absolute value of `x`."@,
            overloads: seq![
                OverloadDoc { label: "float abs(float x)"@, params: seq!["float x"@] },
                OverloadDoc { label: "float2 abs(float2 x)"@, params: seq!["float2 x"@] },
                OverloadDoc { label: "float3 abs(float3 x)"@, params: seq!["float3 x"@] },
                OverloadDoc { label: "float4 abs(float4 x)"@, params: seq!["float4 x"@] },
                OverloadDoc { label: "int abs(int x)"@, params: seq!["int x"@] },
            ],
        },
        FunctionDoc {
            name: "sign"@,
            description: "### `sign`\n*Microsoft HLSL Intrinsic*\n\nReturns -1 if `x < 0`, 0 if `x == 0`, and 1 if `x > 0`."@,
            overloads: seq![
                OverloadDoc { label: "float sign(float x)"@, params: seq!["float x"@] },
                OverloadDoc { label: "float2 sign(float2 x)"@, params: seq!["float2 x"@] },
                OverloadDoc { label: "float3 sign(float3 x)"@, params: seq!["float3 x"@] },
                OverloadDoc { label: "float4 sign(float4 x)"@, params: seq!["float4 x"@] },
            ],
        },
        FunctionDoc {
            name: "floor"@,
            description: "### `floor`\n*Microsoft HLSL Intrinsic*\n\nReturns the largest integer that is less than or equal to `x`."@,
            overloads: seq![
                OverloadDoc { label: "float floor(float x)"@, params: seq!["float x"@] },
                OverloadDoc { label: "float2 floor(float2 x)"@, params: seq!["float2 x"@] },
                OverloadDoc { label: "float3 floor(float3 x)"@, params: seq!["float3 x"@] },
                OverloadDoc { label: "float4 floor(float4 x)"@, params: seq!["float4 x"@] },
            ],
        },
        FunctionDoc {
            name: "ceil"@,
            description: "### `ceil`\n*Microsoft HLSL Intrinsic*\n\nReturns the smallest integer that is greater than or equal to `x`."@,
            overloads: seq![
                OverloadDoc { label: "float ceil(float x)"@, params: seq!["float x"@] },
                OverloadDoc { label: "float2 ceil(float2 x)"@, params: seq!["float2 x"@] },
                OverloadDoc { label: "float3 ceil(float3 x)"@, params: seq!["float3 x"@] },
                OverloadDoc { label: "float4 ceil(float4 x)"@, params: seq!["float4 x"@] },
            ],
        },
        FunctionDoc {
            name: "round"@,
            description: "### `round`\n*Microsoft HLSL Intrinsic*\n\nRounds `x` to the nearest integer."@,
            overloads: seq![
                OverloadDoc { label: "float round(float x)"@, params: seq!["float x"@] },
                OverloadDoc { label: "float2 round(float2 x)"@, params: seq!["float2 x"@] },
                OverloadDoc { label: "float3 round(float3 x)"@, params: seq!["float3 x"@] },
                OverloadDoc { label: "float4 round(float4 x)"@, params: seq!["float4 x"@] },
            ],
        },
        FunctionDoc {
            name: "min"@,
            description: "### `min`\n*Microsoft HLSL Intrinsic*\n\nReturns the lesser of `x` and `y`."@,
            overloads: seq![
                OverloadDoc { label: "float min(float x, float y)"@, params: seq!["float x"@, "float y"@] },
                OverloadDoc { label: "float2 min(float2 x, float2 y)"@, params: seq!["float2 x"@, "float2 y"@] },
                OverloadDoc { label: "float3 min(float3 x, float3 y)"@, params: seq!["float3 x"@, "float3 y"@] },
                OverloadDoc { label: "float4 min(float4 x, float4 y)"@, params: seq!["float4 x"@, "float4 y"@] },
            ],
        },
        FunctionDoc {
            name: "max"@,
            description: "### `max`\n*Microsoft HLSL Intrinsic*\n\nReturns the greater of `x` and `y`."@,
            overloads: seq![
                OverloadDoc { label: "float max(float x, float y)"@, params: seq!["float x"@, "float y"@] },
                OverloadDoc { label: "float2 max(float2 x, float2 y)"@, params: seq!["float2 x"@, "float2 y"@] },
                OverloadDoc { label: "float3 max(float3 x, float3 y)"@, params: seq!["float3 x"@, "float3 y"@] },
                OverloadDoc { label: "float4 max(float4 x, float4 y)"@, params: seq!["float4 x"@, "float4 y"@] },
            ],
        },
        FunctionDoc {
            name: "dot"@,
            description: "### `dot`\n*Microsoft HLSL Intrinsic*\n\nComputes the dot product of two vectors.\n\n$$\\text{dot}(x, y) = \\sum x_i \\cdot y_i$$\n\n**Parameters:**\n* `x`: First vector.\n* `y`: Second vector."@,
            overloads: seq![
                OverloadDoc { label: "float dot(float x, float y)"@, params: seq!["float x"@, "float y"@] },
                OverloadDoc { label: "float dot(float2 x, float2 y)"@, params: seq!["float2 x"@, "float2 y"@] },
                OverloadDoc { label: "float dot(float3 x, float3 y)"@, params: seq!["float3 x"@, "float3 y"@] },
                OverloadDoc { label: "float dot(float4 x, float4 y)"@, params: seq!["float4 x"@, "float4 y"@] },
                OverloadDoc { label: "half dot(half3 x, half3 y)"@, params: seq!["half3 x"@, "half3 y"@] },
                OverloadDoc { label: "half dot(half4 x, half4 y)"@, params: seq!["half4 x"@, "half4 y"@] },
            ],
        },
        FunctionDoc {
            name: "cross"@,
            description: "### `cross`\n*Microsoft HLSL Intrinsic*\n\nComputes the cross product of two 3-component vectors.\n\n$$\\text{cross}(x, y) = (x_y y_z - x_z y_y, \\, x_z y_x - x_x y_z, \\, x_x y_y - x_y y_x)$$\n\n**Parameters:**\n* `x`: First 3D vector.\n* `y`: Second 3D vector."@,
            overloads: seq![
                OverloadDoc { label: "float3 cross(float3 x, float3 y)"@, params: seq!["float3 x"@, "float3 y"@] },
                OverloadDoc { label: "half3 cross(half3 x, half3 y)"@, params: seq!["half3 x"@, "half3 y"@] },
            ],
        },
        FunctionDoc {
            name: "normalize"@,
            description: "### `normalize`\n*Microsoft HLSL Intrinsic*\n\nNormalizes the specified vector so that its length equals 1.\n\n$$\\text{normalize}(v) = \\frac{v}{\\text{length}(v)}$$\n\n**Parameters:**\n* `v`: Vector to normalize."@,
            overloads: seq![
                OverloadDoc { label: "float normalize(float v)"@, params: seq!["float v"@] },
                OverloadDoc { label: "float2 normalize(float2 v)"@, params: seq!["float2 v"@] },
                OverloadDoc { label: "float3 normalize(float3 v)"@, params: seq!["float3 v"@] },
                OverloadDoc { label: "float4 normalize(float4 v)"@, params: seq!["float4 v"@] },
                OverloadDoc { label: "half3 normalize(half3 v)"@, params: seq!["half3 v"@] },
            ],
        },
        FunctionDoc {
            name: "length"@,
            description: "### `length`\n*Microsoft HLSL Intrinsic*\n\nReturns the Euclidean length (magnitude) of a vector.\n\n$$\\text{length}(v) = \\sqrt{\\text{dot}(v, v)}$$\n\n**Parameters:**\n* `v`: Input vector."@,
            overloads: seq![
                OverloadDoc { label: "float length(float v)"@, params: seq!["float v"@] },
                OverloadDoc { label: "float length(float2 v)"@, params: seq!["float2 v"@] },
                OverloadDoc { label: "float length(float3 v)"@, params: seq!["float3 v"@] },
                OverloadDoc { label: "float length(float4 v)"@, params: seq!["float4 v"@] },
            ],
        },
        FunctionDoc {
            name: "distance"@,
            description: "### `distance`\n*Microsoft HLSL Intrinsic*\n\nReturns the Euclidean distance between two points.\n\n$$\\text{distance}(x, y) = \\text{length}(x - y)$$\n\n**Parameters:**\n* `x`: First point.\n* `y`: Second point."@,
            overloads: seq![
                OverloadDoc { label: "float distance(float x, float y)"@, params: seq!["float x"@, "float y"@] },
                OverloadDoc { label: "float distance(float2 x, float2 y)"@, params: seq!["float2 x"@, "float2 y"@] },
                OverloadDoc { label: "float distance(float3 x, float3 y)"@, params: seq!["float3 x"@, "float3 y"@] },
                OverloadDoc { label: "float distance(float4 x, float4 y)"@, params: seq!["float4 x"@, "float4 y"@] },
            ],
        },
        FunctionDoc {
            name: "reflect"@,
            description: "### `reflect`\n*Microsoft HLSL Intrinsic*\n\nReturns a reflection vector using an incident ray `i` and surface normal `n`.\n\n$$v = i - 2 \\cdot \\text{dot}(n, i) \\cdot n$$\n\n**Parameters:**\n* `i`: Incident ray vector.\n* `n`: Surface normal vector."@,
            overloads: seq![
                OverloadDoc { label: "float3 reflect(float3 i, float3 n)"@, params: seq!["float3 i"@, "float3 n"@] },
                OverloadDoc { label: "float4 reflect(float4 i, float4 n)"@, params: seq!["float4 i"@, "float4 n"@] },
            ],
        },
    ]
}

/// Builds entries 0 to 25 of the function table.
fn builtin_functions_0() -> (r: Vec<BuiltinFunction>)
    ensures
        functions_view(r@) == builtin_part_0(),
{
    let r = vec![
        BuiltinFunction {
            name: "float4",
            description: "### `float4`\n*HLSL Vector Constructor*\n\nConstructs a 4-component floating-point vector from scalar or vector components.",
            overloads: vec![
                BuiltinOverload { label: "float4(float x, float y, float z, float w)", params: vec!["float x", "float y", "float z", "float w"] },
                BuiltinOverload { label: "float4(float3 xyz, float w)", params: vec!["float3 xyz", "float w"] },
                BuiltinOverload { label: "float4(float x, float3 yzw)", params: vec!["float x", "float3 yzw"] },
                BuiltinOverload { label: "float4(float2 xy, float2 zw)", params: vec!["float2 xy", "float2 zw"] },
                BuiltinOverload { label: "float4(float2 xy, float z, float w)", params: vec!["float2 xy", "float z", "float w"] },
                BuiltinOverload { label: "float4(float s)", params: vec!["float s"] },
            ],
        },
        BuiltinFunction {
            name: "float3",
            description: "### `float3`\n*HLSL Vector Constructor*\n\nConstructs a 3-component floating-point vector from scalar or vector components.",
            overloads: vec![
                BuiltinOverload { label: "float3(float x, float y, float z)", params: vec!["float x", "float y", "float z"] },
                BuiltinOverload { label: "float3(float2 xy, float z)", params: vec!["float2 xy", "float z"] },
                BuiltinOverload { label: "float3(float x, float2 yz)", params: vec!["float x", "float2 yz"] },
                BuiltinOverload { label: "float3(float s)", params: vec!["float s"] },
            ],
        },
        BuiltinFunction {
            name: "float2",
            description: "### `float2`\n*HLSL Vector Constructor*\n\nConstructs a 2-component floating-point vector.",
            overloads: vec![
                BuiltinOverload { label: "float2(float x, float y)", params: vec!["float x", "float y"] },
                BuiltinOverload { label: "float2(float s)", params: vec!["float s"] },
            ],
        },
        BuiltinFunction {
            name: "half4",
            description: "### `half4`\n*HLSL Half-Precision Vector Constructor*\n\nConstructs a 4-component half-precision vector.",
            overloads: vec![
                BuiltinOverload { label: "half4(half x, half y, half z, half w)", params: vec!["half x", "half y", "half z", "half w"] },
                BuiltinOverload { label: "half4(half3 xyz, half w)", params: vec!["half3 xyz", "half w"] },
                BuiltinOverload { label: "half4(half2 xy, half2 zw)", params: vec!["half2 xy", "half2 zw"] },
                BuiltinOverload { label: "half4(half s)", params: vec!["half s"] },
            ],
        },
        BuiltinFunction {
            name: "half3",
            description: "### `half3`\n*HLSL Half-Precision Vector Constructor*\n\nConstructs a 3-component half-precision vector.",
            overloads: vec![
                BuiltinOverload { label: "half3(half x, half y, half z)", params: vec!["half x", "half y", "half z"] },
                BuiltinOverload { label: "half3(half2 xy, half z)", params: vec!["half2 xy", "half z"] },
                BuiltinOverload { label: "half3(half s)", params: vec!["half s"] },
            ],
        },
        BuiltinFunction {
            name: "half2",
            description: "### `half2`\n*HLSL Half-Precision Vector Constructor*\n\nConstructs a 2-component half-precision vector.",
            overloads: vec![
                BuiltinOverload { label: "half2(half x, half y)", params: vec!["half x", "half y"] },
                BuiltinOverload { label: "half2(half s)", params: vec!["half s"] },
            ],
        },
        BuiltinFunction {
            name: "lerp",
            description: "### `lerp`\n*Microsoft HLSL Intrinsic*\n\nPerforms a linear interpolation between `x` and `y` using factor `s`.\n\n$$\\text{lerp}(x, y, s) = x + s \\cdot (y - x)$$\n\n**Parameters:**\n* `x`: Start value (scalar or vector).\n* `y`: End value (scalar or vector).\n* `s`: Interpolation weight factor, typically in $[0.0, 1.0]$.",
            overloads: vec![
                BuiltinOverload { label: "float lerp(float x, float y, float s)", params: vec!["float x", "float y", "float s"] },
                BuiltinOverload { label: "float2 lerp(float2 x, float2 y, float2 s)", params: vec!["float2 x", "float2 y", "float2 s"] },
                BuiltinOverload { label: "float2 lerp(float2 x, float2 y, float s)", params: vec!["float2 x", "float2 y", "float s"] },
                BuiltinOverload { label: "float3 lerp(float3 x, float3 y, float3 s)", params: vec!["float3 x", "float3 y", "float3 s"] },
                BuiltinOverload { label: "float3 lerp(float3 x, float3 y, float s)", params: vec!["float3 x", "float3 y", "float s"] },
                BuiltinOverload { label: "float4 lerp(float4 x, float4 y, float4 s)", params: vec!["float4 x", "float4 y", "float4 s"] },
                BuiltinOverload { label: "float4 lerp(float4 x, float4 y, float s)", params: vec!["float4 x", "float4 y", "float s"] },
                BuiltinOverload { label: "half lerp(half x, half y, half s)", params: vec!["half x", "half y", "half s"] },
                BuiltinOverload { label: "half3 lerp(half3 x, half3 y, half s)", params: vec!["half3 x", "half3 y", "half s"] },
                BuiltinOverload { label: "half4 lerp(half4 x, half4 y, half s)", params: vec!["half4 x", "half4 y", "half s"] },
            ],
        },
        BuiltinFunction {
            name: "saturate",
            description: "### `saturate`\n*Microsoft HLSL Intrinsic*\n\nClamps the specified value to the range $[0.0, 1.0]$. Extremely fast on GPU hardware.\n\n$$\\text{saturate}(x) = \\min(\\max(x, 0.0), 1.0)$$\n\n**Parameters:**\n* `x`: Input value to clamp.",
            overloads: vec![
                BuiltinOverload { label: "float saturate(float x)", params: vec!["float x"] },
                BuiltinOverload { label: "float2 saturate(float2 x)", params: vec!["float2 x"] },
                BuiltinOverload { label: "float3 saturate(float3 x)", params: vec!["float3 x"] },
                BuiltinOverload { label: "float4 saturate(float4 x)", params: vec!["float4 x"] },
                BuiltinOverload { label: "half saturate(half x)", params: vec!["half x"] },
                BuiltinOverload { label: "half3 saturate(half3 x)", params: vec!["half3 x"] },
                BuiltinOverload { label: "half4 saturate(half4 x)", params: vec!["half4 x"] },
            ],
        },
        BuiltinFunction {
            name: "clamp",
            description: "### `clamp`\n*Microsoft HLSL Intrinsic*\n\nClamps value `x` to the specified `[min, max]` range.\n\n$$\\text{clamp}(x, min, max) = \\min(\\max(x, min), max)$$\n\n**Parameters:**\n* `x`: Input value to clamp.\n* `min`: Minimum allowed value.\n* `max`: Maximum allowed value.",
            overloads: vec![
                BuiltinOverload { label: "float clamp(float x, float min, float max)", params: vec!["float x", "float min", "float max"] },
                BuiltinOverload { label: "float2 clamp(float2 x, float2 min, float2 max)", params: vec!["float2 x", "float2 min", "float2 max"] },
                BuiltinOverload { label: "float3 clamp(float3 x, float3 min, float3 max)", params: vec!["float3 x", "float3 min", "float3 max"] },
                BuiltinOverload { label: "float4 clamp(float4 x, float4 min, float4 max)", params: vec!["float4 x", "float4 min", "float4 max"] },
            ],
        },
        BuiltinFunction {
            name: "step",
            description: "### `step`\n*Microsoft HLSL Intrinsic*\n\nCompares two values, returning 0 if `x < y`, or 1 otherwise.\n\n**Parameters:**\n* `y`: The threshold/edge value.\n* `x`: Value to compare against `y`.",
            overloads: vec![
                BuiltinOverload { label: "float step(float y, float x)", params: vec!["float y", "float x"] },
                BuiltinOverload { label: "float2 step(float2 y, float2 x)", params: vec!["float2 y", "float2 x"] },
                BuiltinOverload { label: "float3 step(float3 y, float3 x)", params: vec!["float3 y", "float3 x"] },
                BuiltinOverload { label: "float4 step(float4 y, float4 x)", params: vec!["float4 y", "float4 x"] },
            ],
        },
        BuiltinFunction {
            name: "smoothstep",
            description: "### `smoothstep`\n*Microsoft HLSL Intrinsic*\n\nReturns a smooth Hermite interpolation between 0 and 1, if `x` is in the range `[min, max]`.\n\n**Parameters:**\n* `min`: Lower edge.\n* `max`: Upper edge.\n* `x`: Input value.",
            overloads: vec![
                BuiltinOverload { label: "float smoothstep(float min, float max, float x)", params: vec!["float min", "float max", "float x"] },
                BuiltinOverload { label: "float2 smoothstep(float2 min, float2 max, float2 x)", params: vec!["float2 min", "float2 max", "float2 x"] },
                BuiltinOverload { label: "float3 smoothstep(float3 min, float3 max, float3 x)", params: vec!["float3 min", "float3 max", "float3 x"] },
                BuiltinOverload { label: "float4 smoothstep(float4 min, float4 max, float4 x)", params: vec!["float4 min", "float4 max", "float4 x"] },
            ],
        },
        BuiltinFunction {
            name: "frac",
            description: "### `frac`\n*Microsoft HLSL Intrinsic*\n\nReturns the fractional (decimal) part of `x`.\n\n$$\\text{frac}(x) = x - \\lfloor x \\rfloor$$\n\n**Parameters:**\n* `x`: Floating point input.",
            overloads: vec![
                BuiltinOverload { label: "float frac(float x)", params: vec!["float x"] },
                BuiltinOverload { label: "float2 frac(float2 x)", params: vec!["float2 x"] },
                BuiltinOverload { label: "float3 frac(float3 x)", params: vec!["float3 x"] },
                BuiltinOverload { label: "float4 frac(float4 x)", params: vec!["float4 x"] },
            ],
        },
        BuiltinFunction {
            name: "fmod",
            description: "### `fmod`\n*Microsoft HLSL Intrinsic*\n\nReturns the floating-point remainder of `x / y`.\n\n**Parameters:**\n* `x`: Numerator.\n* `y`: Denominator.",
            overloads: vec![
                BuiltinOverload { label: "float fmod(float x, float y)", params: vec!["float x", "float y"] },
                BuiltinOverload { label: "float2 fmod(float2 x, float2 y)", params: vec!["float2 x", "float2 y"] },
                BuiltinOverload { label: "float3 fmod(float3 x, float3 y)", params: vec!["float3 x", "float3 y"] },
                BuiltinOverload { label: "float4 fmod(float4 x, float4 y)", params: vec!["float4 x", "float4 y"] },
            ],
        },
        BuiltinFunction {
            name: "abs",
            description: "### `abs`\n*Microsoft HLSL Intrinsic*\n\nReturns the absolute value of `x`.",
            overloads: vec![
                BuiltinOverload { label: "float abs(float x)", params: vec!["float x"] },
                BuiltinOverload { label: "float2 abs(float2 x)", params: vec!["float2 x"] },
                BuiltinOverload { label: "float3 abs(float3 x)", params: vec!["float3 x"] },
                BuiltinOverload { label: "float4 abs(float4 x)", params: vec!["float4 x"] },
                BuiltinOverload { label: "int abs(int x)", params: vec!["int x"] },
            ],
        },
        BuiltinFunction {
            name: "sign",
            description: "### `sign`\n*Microsoft HLSL Intrinsic*\n\nReturns -1 if `x < 0`, 0 if `x == 0`, and 1 if `x > 0`.",
            overloads: vec![
                BuiltinOverload { label: "float sign(float x)", params: vec!["float x"] },
                BuiltinOverload { label: "float2 sign(float2 x)", params: vec!["float2 x"] },
                BuiltinOverload { label: "float3 sign(float3 x)", params: vec!["float3 x"] },
                BuiltinOverload { label: "float4 sign(float4 x)", params: vec!["float4 x"] },
            ],
        },
        BuiltinFunction {
            name: "floor",
            description: "### `floor`\n*Microsoft HLSL Intrinsic*\n\nReturns the largest integer that is less than or equal to `x`.",
            overloads: vec![
                BuiltinOverload { label: "float floor(float x)", params: vec!["float x"] },
                BuiltinOverload { label: "float2 floor(float2 x)", params: vec!["float2 x"] },
                BuiltinOverload { label: "float3 floor(float3 x)", params: vec!["float3 x"] },
                BuiltinOverload { label: "float4 floor(float4 x)", params: vec!["float4 x"] },
            ],
        },
        BuiltinFunction {
            name: "ceil",
            description: "### `ceil`\n*Microsoft HLSL Intrinsic*\n\nReturns the smallest integer that is greater than or equal to `x`.",
            overloads: vec![
                BuiltinOverload { label: "float ceil(float x)", params: vec!["float x"] },
                BuiltinOverload { label: "float2 ceil(float2 x)", params: vec!["float2 x"] },
                BuiltinOverload { label: "float3 ceil(float3 x)", params: vec!["float3 x"] },
                BuiltinOverload { label: "float4 ceil(float4 x)", params: vec!["float4 x"] },
            ],
        },
        BuiltinFunction {
            name: "round",
            description: "### `round`\n*Microsoft HLSL Intrinsic*\n\nRounds `x` to the nearest integer.",
            overloads: vec![
                BuiltinOverload { label: "float round(float x)", params: vec!["float x"] },
                BuiltinOverload { label: "float2 round(float2 x)", params: vec!["float2 x"] },
                BuiltinOverload { label: "float3 round(float3 x)", params: vec!["float3 x"] },
                BuiltinOverload { label: "float4 round(float4 x)", params: vec!["float4 x"] },
            ],
        },
        BuiltinFunction {
            name: "min",
            description: "### `min`\n*Microsoft HLSL Intrinsic*\n\nReturns the lesser of `x` and `y`.",
            overloads: vec![
                BuiltinOverload { label: "float min(float x, float y)", params: vec!["float x", "float y"] },
                BuiltinOverload { label: "float2 min(float2 x, float2 y)", params: vec!["float2 x", "float2 y"] },
                BuiltinOverload { label: "float3 min(float3 x, float3 y)", params: vec!["float3 x", "float3 y"] },
                BuiltinOverload { label: "float4 min(float4 x, float4 y)", params: vec!["float4 x", "float4 y"] },
            ],
        },
        BuiltinFunction {
            name: "max",
            description: "### `max`\n*Microsoft HLSL Intrinsic*\n\nReturns the greater of `x` and `y`.",
            overloads: vec![
                BuiltinOverload { label: "float max(float x, float y)", params: vec!["float x", "float y"] },
                BuiltinOverload { label: "float2 max(float2 x, float2 y)", params: vec!["float2 x", "float2 y"] },
                BuiltinOverload { label: "float3 max(float3 x, float3 y)", params: vec!["float3 x", "float3 y"] },
                BuiltinOverload { label: "float4 max(float4 x, float4 y)", params: vec!["float4 x", "float4 y"] },
            ],
        },
        BuiltinFunction {
            name: "dot",
            description: "### `dot`\n*Microsoft HLSL Intrinsic*\n\nComputes the dot product of two vectors.\n\n$$\\text{dot}(x, y) = \\sum x_i \\cdot y_i$$\n\n**Parameters:**\n* `x`: First vector.\n* `y`: Second vector.",
            overloads: vec![
                BuiltinOverload { label: "float dot(float x, float y)", params: vec!["float x", "float y"] },
                BuiltinOverload { label: "float dot(float2 x, float2 y)", params: vec!["float2 x", "float2 y"] },
                BuiltinOverload { label: "float dot(float3 x, float3 y)", params: vec!["float3 x", "float3 y"] },
                BuiltinOverload { label: "float dot(float4 x, float4 y)", params: vec!["float4 x", "float4 y"] },
                BuiltinOverload { label: "half dot(half3 x, half3 y)", params: vec!["half3 x", "half3 y"] },
                BuiltinOverload { label: "half dot(half4 x, half4 y)", params: vec!["half4 x", "half4 y"] },
            ],
        },
        BuiltinFunction {
            name: "cross",
            description: "### `cross`\n*Microsoft HLSL Intrinsic*\n\nComputes the cross product of two 3-component vectors.\n\n$$\\text{cross}(x, y) = (x_y y_z - x_z y_y, \\, x_z y_x - x_x y_z, \\, x_x y_y - x_y y_x)$$\n\n**Parameters:**\n* `x`: First 3D vector.\n* `y`: Second 3D vector.",
            overloads: vec![
                BuiltinOverload { label: "float3 cross(float3 x, float3 y)", params: vec!["float3 x", "float3 y"] },
                BuiltinOverload { label: "half3 cross(half3 x, half3 y)", params: vec!["half3 x", "half3 y"] },
            ],
        },
        BuiltinFunction {
            name: "normalize",
            description: "### `normalize`\n*Microsoft HLSL Intrinsic*\n\nNormalizes the specified vector so that its length equals 1.\n\n$$\\text{normalize}(v) = \\frac{v}{\\text{length}(v)}$$\n\n**Parameters:**\n* `v`: Vector to normalize.",
            overloads: vec![
                BuiltinOverload { label: "float normalize(float v)", params: vec!["float v"] },
                BuiltinOverload { label: "float2 normalize(float2 v)", params: vec!["float2 v"] },
                BuiltinOverload { label: "float3 normalize(float3 v)", params: vec!["float3 v"] },
                BuiltinOverload { label: "float4 normalize(float4 v)", params: vec!["float4 v"] },
                BuiltinOverload { label: "half3 normalize(half3 v)", params: vec!["half3 v"] },
            ],
        },
        BuiltinFunction {
            name: "length",
            description: "### `length`\n*Microsoft HLSL Intrinsic*\n\nReturns the Euclidean length (magnitude) of a vector.\n\n$$\\text{length}(v) = \\sqrt{\\text{dot}(v, v)}$$\n\n**Parameters:**\n* `v`: Input vector.",
            overloads: vec![
                BuiltinOverload { label: "float length(float v)", params: vec!["float v"] },
                BuiltinOverload { label: "float length(float2 v)", params: vec!["float2 v"] },
                BuiltinOverload { label: "float length(float3 v)", params: vec!["float3 v"] },
                BuiltinOverload { label: "float length(float4 v)", params: vec!["float4 v"] },
            ],
        },
        BuiltinFunction {
            name: "distance",
            description: "### `distance`\n*Microsoft HLSL Intrinsic*\n\nReturns the Euclidean distance between two points.\n\n$$\\text{distance}(x, y) = \\text{length}(x - y)$$\n\n**Parameters:**\n* `x`: First point.\n* `y`: Second point.",
            overloads: vec![
                BuiltinOverload { label: "float distance(float x, float y)", params: vec!["float x", "float y"] },
                BuiltinOverload { label: "float distance(float2 x, float2 y)", params: vec!["float2 x", "float2 y"] },
                BuiltinOverload { label: "float distance(float3 x, float3 y)", params: vec!["float3 x", "float3 y"] },
                BuiltinOverload { label: "float distance(float4 x, float4 y)", params: vec!["float4 x", "float4 y"] },
            ],
        },
        BuiltinFunction {
            name: "reflect",
            description: "### `reflect`\n*Microsoft HLSL Intrinsic*\n\nReturns a reflection vector using an incident ray `i` and surface normal `n`.\n\n$$v = i - 2 \\cdot \\text{dot}(n, i) \\cdot n$$\n\n**Parameters:**\n* `i`: Incident ray vector.\n* `n`: Surface normal vector.",
            overloads: vec![
                BuiltinOverload { label: "float3 reflect(float3 i, float3 n)", params: vec!["float3 i", "float3 n"] },
                BuiltinOverload { label: "float4 reflect(float4 i, float4 n)", params: vec!["float4 i", "float4 n"] },
            ],
        },
    ];
    proof {
        reveal(builtin_part_0);
        assert(r@[0].overloads@[0]@.params =~= builtin_part_0()[0].overloads[0].params);
        assert(r@[0].overloads@[1]@.params =~= builtin_part_0()[0].overloads[1].params);
        assert(r@[0].overloads@[2]@.params =~= builtin_part_0()[0].overloads[2].params);
        assert(r@[0].overloads@[3]@.params =~= builtin_part_0()[0].overloads[3].params);
        assert(r@[0].overloads@[4]@.params =~= builtin_part_0()[0].overloads[4].params);
        assert(r@[0].overloads@[5]@.params =~= builtin_part_0()[0].overloads[5].params);
        assert(r@[0]@.overloads =~= builtin_part_0()[0].overloads);
        assert(r@[1].overloads@[0]@.params =~= builtin_part_0()[1].overloads[0].params);
        assert(r@[1].overloads@[1]@.params =~= builtin_part_0()[1].overloads[1].params);
        assert(r@[1].overloads@[2]@.params =~= builtin_part_0()[1].overloads[2].params);
        assert(r@[1].overloads@[3]@.params =~= builtin_part_0()[1].overloads[3].params);
        assert(r@[1]@.overloads =~= builtin_part_0()[1].overloads);
        assert(r@[2].overloads@[0]@.params =~= builtin_part_0()[2].overloads[0].params);
        assert(r@[2].overloads@[1]@.params =~= builtin_part_0()[2].overloads[1].params);
        assert(r@[2]@.overloads =~= builtin_part_0()[2].overloads);
        assert(r@[3].overloads@[0]@.params =~= builtin_part_0()[3].overloads[0].params);
        assert(r@[3].overloads@[1]@.params =~= builtin_part_0()[3].overloads[1].params);
        assert(r@[3].overloads@[2]@.params =~= builtin_part_0()[3].overloads[2].params);
        assert(r@[3].overloads@[3]@.params =~= builtin_part_0()[3].overloads[3].params);
        assert(r@[3]@.overloads =~= builtin_part_0()[3].overloads);
        assert(r@[4].overloads@[0]@.params =~= builtin_part_0()[4].overloads[0].params);
        assert(r@[4].overloads@[1]@.params =~= builtin_part_0()[4].overloads[1].params);
        assert(r@[4].overloads@[2]@.params =~= builtin_part_0()[4].overloads[2].params);
        assert(r@[4]@.overloads =~= builtin_part_0()[4].overloads);
        assert(r@[5].overloads@[0]@.params =~= builtin_part_0()[5].overloads[0].params);
        assert(r@[5].overloads@[1]@.params =~= builtin_part_0()[5].overloads[1].params);
        assert(r@[5]@.overloads =~= builtin_part_0()[5].overloads);
        assert(r@[6].overloads@[0]@.params =~= builtin_part_0()[6].overloads[0].params);
        assert(r@[6].overloads@[1]@.params =~= builtin_part_0()[6].overloads[1].params);
        assert(r@[6].overloads@[2]@.params =~= builtin_part_0()[6].overloads[2].params);
        assert(r@[6].overloads@[3]@.params =~= builtin_part_0()[6].overloads[3].params);
        assert(r@[6].overloads@[4]@.params =~= builtin_part_0()[6].overloads[4].params);
        assert(r@[6].overloads@[5]@.params =~= builtin_part_0()[6].overloads[5].params);
        assert(r@[6].overloads@[6]@.params =~= builtin_part_0()[6].overloads[6].params);
        assert(r@[6].overloads@[7]@.params =~= builtin_part_0()[6].overloads[7].params);
        assert(r@[6].overloads@[8]@.params =~= builtin_part_0()[6].overloads[8].params);
        assert(r@[6].overloads@[9]@.params =~= builtin_part_0()[6].overloads[9].params);
        assert(r@[6]@.overloads =~= builtin_part_0()[6].overloads);
        assert(r@[7].overloads@[0]@.params =~= builtin_part_0()[7].overloads[0].params);
        assert(r@[7].overloads@[1]@.params =~= builtin_part_0()[7].overloads[1].params);
        assert(r@[7].overloads@[2]@.params =~= builtin_part_0()[7].overloads[2].params);
        assert(r@[7].overloads@[3]@.params =~= builtin_part_0()[7].overloads[3].params);
        assert(r@[7].overloads@[4]@.params =~= builtin_part_0()[7].overloads[4].params);
        assert(r@[7].overloads@[5]@.params =~= builtin_part_0()[7].overloads[5].params);
        assert(r@[7].overloads@[6]@.params =~= builtin_part_0()[7].overloads[6].params);
        assert(r@[7]@.overloads =~= builtin_part_0()[7].overloads);
        assert(r@[8].overloads@[0]@.params =~= builtin_part_0()[8].overloads[0].params);
        assert(r@[8].overloads@[1]@.params =~= builtin_part_0()[8].overloads[1].params);
        assert(r@[8].overloads@[2]@.params =~= builtin_part_0()[8].overloads[2].params);
        assert(r@[8].overloads@[3]@.params =~= builtin_part_0()[8].overloads[3].params);
        assert(r@[8]@.overloads =~= builtin_part_0()[8].overloads);
        assert(r@[9].overloads@[0]@.params =~= builtin_part_0()[9].overloads[0].params);
        assert(r@[9].overloads@[1]@.params =~= builtin_part_0()[9].overloads[1].params);
        assert(r@[9].overloads@[2]@.params =~= builtin_part_0()[9].overloads[2].params);
        assert(r@[9].overloads@[3]@.params =~= builtin_part_0()[9].overloads[3].params);
        assert(r@[9]@.overloads =~= builtin_part_0()[9].overloads);
        assert(r@[10].overloads@[0]@.params =~= builtin_part_0()[10].overloads[0].params);
        assert(r@[10].overloads@[1]@.params =~= builtin_part_0()[10].overloads[1].params);
        assert(r@[10].overloads@[2]@.params =~= builtin_part_0()[10].overloads[2].params);
        assert(r@[10].overloads@[3]@.params =~= builtin_part_0()[10].overloads[3].params);
        assert(r@[10]@.overloads =~= builtin_part_0()[10].overloads);
        assert(r@[11].overloads@[0]@.params =~= builtin_part_0()[11].overloads[0].params);
        assert(r@[11].overloads@[1]@.params =~= builtin_part_0()[11].overloads[1].params);
        assert(r@[11].overloads@[2]@.params =~= builtin_part_0()[11].overloads[2].params);
        assert(r@[11].overloads@[3]@.params =~= builtin_part_0()[11].overloads[3].params);
        assert(r@[11]@.overloads =~= builtin_part_0()[11].overloads);
        assert(r@[12].overloads@[0]@.params =~= builtin_part_0()[12].overloads[0].params);
        assert(r@[12].overloads@[1]@.params =~= builtin_part_0()[12].overloads[1].params);
        assert(r@[12].overloads@[2]@.params =~= builtin_part_0()[12].overloads[2].params);
        assert(r@[12].overloads@[3]@.params =~= builtin_part_0()[12].overloads[3].params);
        assert(r@[12]@.overloads =~= builtin_part_0()[12].overloads);
        assert(r@[13].overloads@[0]@.params =~= builtin_part_0()[13].overloads[0].params);
        assert(r@[13].overloads@[1]@.params =~= builtin_part_0()[13].overloads[1].params);
        assert(r@[13].overloads@[2]@.params =~= builtin_part_0()[13].overloads[2].params);
        assert(r@[13].overloads@[3]@.params =~= builtin_part_0()[13].overloads[3].params);
        assert(r@[13].overloads@[4]@.params =~= builtin_part_0()[13].overloads[4].params);
        assert(r@[13]@.overloads =~= builtin_part_0()[13].overloads);
        assert(r@[14].overloads@[0]@.params =~= builtin_part_0()[14].overloads[0].params);
        assert(r@[14].overloads@[1]@.params =~= builtin_part_0()[14].overloads[1].params);
        assert(r@[14].overloads@[2]@.params =~= builtin_part_0()[14].overloads[2].params);
        assert(r@[14].overloads@[3]@.params =~= builtin_part_0()[14].overloads[3].params);
        assert(r@[14]@.overloads =~= builtin_part_0()[14].overloads);
        assert(r@[15].overloads@[0]@.params =~= builtin_part_0()[15].overloads[0].params);
        assert(r@[15].overloads@[1]@.params =~= builtin_part_0()[15].overloads[1].params);
        assert(r@[15].overloads@[2]@.params =~= builtin_part_0()[15].overloads[2].params);
        assert(r@[15].overloads@[3]@.params =~= builtin_part_0()[15].overloads[3].params);
        assert(r@[15]@.overloads =~= builtin_part_0()[15].overloads);
        assert(r@[16].overloads@[0]@.params =~= builtin_part_0()[16].overloads[0].params);
        assert(r@[16].overloads@[1]@.params =~= builtin_part_0()[16].overloads[1].params);
        assert(r@[16].overloads@[2]@.params =~= builtin_part_0()[16].overloads[2].params);
        assert(r@[16].overloads@[3]@.params =~= builtin_part_0()[16].overloads[3].params);
        assert(r@[16]@.overloads =~= builtin_part_0()[16].overloads);
        assert(r@[17].overloads@[0]@.params =~= builtin_part_0()[17].overloads[0].params);
        assert(r@[17].overloads@[1]@.params =~= builtin_part_0()[17].overloads[1].params);
        assert(r@[17].overloads@[2]@.params =~= builtin_part_0()[17].overloads[2].params);
        assert(r@[17].overloads@[3]@.params =~= builtin_part_0()[17].overloads[3].params);
        assert(r@[17]@.overloads =~= builtin_part_0()[17].overloads);
        assert(r@[18].overloads@[0]@.params =~= builtin_part_0()[18].overloads[0].params);
        assert(r@[18].overloads@[1]@.params =~= builtin_part_0()[18].overloads[1].params);
        assert(r@[18].overloads@[2]@.params =~= builtin_part_0()[18].overloads[2].params);
        assert(r@[18].overloads@[3]@.params =~= builtin_part_0()[18].overloads[3].params);
        assert(r@[18]@.overloads =~= builtin_part_0()[18].overloads);
        assert(r@[19].overloads@[0]@.params =~= builtin_part_0()[19].overloads[0].params);
        assert(r@[19].overloads@[1]@.params =~= builtin_part_0()[19].overloads[1].params);
        assert(r@[19].overloads@[2]@.params =~= builtin_part_0()[19].overloads[2].params);
        assert(r@[19].overloads@[3]@.params =~= builtin_part_0()[19].overloads[3].params);
        assert(r@[19]@.overloads =~= builtin_part_0()[19].overloads);
        assert(r@[20].overloads@[0]@.params =~= builtin_part_0()[20].overloads[0].params);
        assert(r@[20].overloads@[1]@.params =~= builtin_part_0()[20].overloads[1].params);
        assert(r@[20].overloads@[2]@.params =~= builtin_part_0()[20].overloads[2].params);
        assert(r@[20].overloads@[3]@.params =~= builtin_part_0()[20].overloads[3].params);
        assert(r@[20].overloads@[4]@.params =~= builtin_part_0()[20].overloads[4].params);
        assert(r@[20].overloads@[5]@.params =~= builtin_part_0()[20].overloads[5].params);
        assert(r@[20]@.overloads =~= builtin_part_0()[20].overloads);
        assert(r@[21].overloads@[0]@.params =~= builtin_part_0()[21].overloads[0].params);
        assert(r@[21].overloads@[1]@.params =~= builtin_part_0()[21].overloads[1].params);
        assert(r@[21]@.overloads =~= builtin_part_0()[21].overloads);
        assert(r@[22].overloads@[0]@.params =~= builtin_part_0()[22].overloads[0].params);
        assert(r@[22].overloads@[1]@.params =~= builtin_part_0()[22].overloads[1].params);
        assert(r@[22].overloads@[2]@.params =~= builtin_part_0()[22].overloads[2].params);
        assert(r@[22].overloads@[3]@.params =~= builtin_part_0()[22].overloads[3].params);
        assert(r@[22].overloads@[4]@.params =~= builtin_part_0()[22].overloads[4].params);
        assert(r@[22]@.overloads =~= builtin_part_0()[22].overloads);
        assert(r@[23].overloads@[0]@.params =~= builtin_part_0()[23].overloads[0].params);
        assert(r@[23].overloads@[1]@.params =~= builtin_part_0()[23].overloads[1].params);
        assert(r@[23].overloads@[2]@.params =~= builtin_part_0()[23].overloads[2].params);
        assert(r@[23].overloads@[3]@.params =~= builtin_part_0()[23].overloads[3].params);
        assert(r@[23]@.overloads =~= builtin_part_0()[23].overloads);
        assert(r@[24].overloads@[0]@.params =~= builtin_part_0()[24].overloads[0].params);
        assert(r@[24].overloads@[1]@.params =~= builtin_part_0()[24].overloads[1].params);
        assert(r@[24].overloads@[2]@.params =~= builtin_part_0()[24].overloads[2].params);
        assert(r@[24].overloads@[3]@.params =~= builtin_part_0()[24].overloads[3].params);
        assert(r@[24]@.overloads =~= builtin_part_0()[24].overloads);
        assert(r@[25].overloads@[0]@.params =~= builtin_part_0()[25].overloads[0].params);
        assert(r@[25].overloads@[1]@.params =~= builtin_part_0()[25].overloads[1].params);
        assert(r@[25]@.overloads =~= builtin_part_0()[25].overloads);
        assert(functions_view(r@) =~= builtin_part_0());
    }
    r
}

/// Entries 26 to 51 of the function table.
#[verifier::opaque]
pub open spec fn builtin_part_1() -> Seq<FunctionDoc> {
    seq![
        FunctionDoc {
            name: "refract"@,
            description: "### `refract`\n*Microsoft HLSL Intrinsic*\n\nCalculates a refraction vector using Snell's law.\n\n**Parameters:**\n* `i`: Incident vector.\n* `n`: Normal vector.\n* `eta`: Ratio of indices of refraction."@,
            overloads: seq![
                OverloadDoc { label: "float3 refract(float3 i, float3 n, float eta)"@, params: seq!["float3 i"@, "float3 n"@, "float eta"@] },
            ],
        },
        FunctionDoc {
            name: "mul"@,
            description: "### `mul`\n*Microsoft HLSL Intrinsic*\n\nMultiplies `x` and `y` using matrix multiplication rules.\nSupports vector-matrix, matrix-vector, and matrix-matrix products.\n\n**Parameters:**\n* `x`: Left operand (vector or matrix).\n* `y`: Right operand (vector or matrix)."@,
            overloads: seq![
                OverloadDoc { label: "float4 mul(float4 v, float4x4 m)"@, params: seq!["float4 v"@, "float4x4 m"@] },
                OverloadDoc { label: "float4 mul(float4x4 m, float4 v)"@, params: seq!["float4x4 m"@, "float4 v"@] },
                OverloadDoc { label: "float3 mul(float3 v, float3x3 m)"@, params: seq!["float3 v"@, "float3x3 m"@] },
                OverloadDoc { label: "float3 mul(float3x3 m, float3 v)"@, params: seq!["float3x3 m"@, "float3 v"@] },
                OverloadDoc { label: "float4x4 mul(float4x4 a, float4x4 b)"@, params: seq!["float4x4 a"@, "float4x4 b"@] },
            ],
        },
        FunctionDoc {
            name: "transpose"@,
            description: "### `transpose`\n*Microsoft HLSL Intrinsic*\n\nReturns the transpose of matrix `m`."@,
            overloads: seq![
                OverloadDoc { label: "float4x4 transpose(float4x4 m)"@, params: seq!["float4x4 m"@] },
                OverloadDoc { label: "float3x3 transpose(float3x3 m)"@, params: seq!["float3x3 m"@] },
            ],
        },
        FunctionDoc {
            name: "determinant"@,
            description: "### `determinant`\n*Microsoft HLSL Intrinsic*\n\nComputes the determinant of a square matrix."@,
            overloads: seq![
                OverloadDoc { label: "float determinant(float4x4 m)"@, params: seq!["float4x4 m"@] },
                OverloadDoc { label: "float determinant(float3x3 m)"@, params: seq!["float3x3 m"@] },
            ],
        },
        FunctionDoc {
            name: "sin"@,
            description: "### `sin`\n*Microsoft HLSL Intrinsic*\n\nComputes the sine of `x` (in radians)."@,
            overloads: seq![
                OverloadDoc { label: "float sin(float x)"@, params: seq!["float x"@] },
                OverloadDoc { label: "float2 sin(float2 x)"@, params: seq!["float2 x"@] },
                OverloadDoc { label: "float3 sin(float3 x)"@, params: seq!["float3 x"@] },
                OverloadDoc { label: "float4 sin(float4 x)"@, params: seq!["float4 x"@] },
            ],
        },
        FunctionDoc {
            name: "cos"@,
            description: "### `cos`\n*Microsoft HLSL Intrinsic*\n\nComputes the cosine of `x` (in radians)."@,
            overloads: seq![
                OverloadDoc { label: "float cos(float x)"@, params: seq!["float x"@] },
                OverloadDoc { label: "float2 cos(float2 x)"@, params: seq!["float2 x"@] },
                OverloadDoc { label: "float3 cos(float3 x)"@, params: seq!["float3 x"@] },
                OverloadDoc { label: "float4 cos(float4 x)"@, params: seq!["float4 x"@] },
            ],
        },
        FunctionDoc {
            name: "tan"@,
            description: "### `tan`\n*Microsoft HLSL Intrinsic*\n\nComputes the tangent of `x` (in radians)."@,
            overloads: seq![
                OverloadDoc { label: "float tan(float x)"@, params: seq!["float x"@] },
                OverloadDoc { label: "float2 tan(float2 x)"@, params: seq!["float2 x"@] },
                OverloadDoc { label: "float3 tan(float3 x)"@, params: seq!["float3 x"@] },
                OverloadDoc { label: "float4 tan(float4 x)"@, params: seq!["float4 x"@] },
            ],
        },
        FunctionDoc {
            name: "atan2"@,
            description: "### `atan2`\n*Microsoft HLSL Intrinsic*\n\nComputes the 2-argument arctangent of `y / x`."@,
            overloads: seq![
                OverloadDoc { label: "float atan2(float y, float x)"@, params: seq!["float y"@, "float x"@] },
                OverloadDoc { label: "float2 atan2(float2 y, float2 x)"@, params: seq!["float2 y"@, "float2 x"@] },
                OverloadDoc { label: "float3 atan2(float3 y, float3 x)"@, params: seq!["float3 y"@, "float3 x"@] },
                OverloadDoc { label: "float4 atan2(float4 y, float4 x)"@, params: seq!["float4 y"@, "float4 x"@] },
            ],
        },
        FunctionDoc {
            name: "sincos"@,
            description: "### `sincos`\n*Microsoft HLSL Intrinsic*\n\nComputes both sine and cosine simultaneously.\n\n**Parameters:**\n* `x`: Angle in radians.\n* `s`: Output sine variable (`out`).\n* `c`: Output cosine variable (`out`)."@,
            overloads: seq![
                OverloadDoc { label: "void sincos(float x, out float s, out float c)"@, params: seq!["float x"@, "out float s"@, "out float c"@] },
                OverloadDoc { label: "void sincos(float2 x, out float2 s, out float2 c)"@, params: seq!["float2 x"@, "out float2 s"@, "out float2 c"@] },
                OverloadDoc { label: "void sincos(float3 x, out float3 s, out float3 c)"@, params: seq!["float3 x"@, "out float3 s"@, "out float3 c"@] },
                OverloadDoc { label: "void sincos(float4 x, out float4 s, out float4 c)"@, params: seq!["float4 x"@, "out float4 s"@, "out float4 c"@] },
            ],
        },
        FunctionDoc {
            name: "pow"@,
            description: "### `pow`\n*Microsoft HLSL Intrinsic*\n\nComputes $x^y$.\n\n**Parameters:**\n* `x`: Base.\n* `y`: Exponent."@,
            overloads: seq![
                OverloadDoc { label: "float pow(float x, float y)"@, params: seq!["float x"@, "float y"@] },
                OverloadDoc { label: "float2 pow(float2 x, float2 y)"@, params: seq!["float2 x"@, "float2 y"@] },
                OverloadDoc { label: "float3 pow(float3 x, float3 y)"@, params: seq!["float3 x"@, "float3 y"@] },
                OverloadDoc { label: "float4 pow(float4 x, float4 y)"@, params: seq!["float4 x"@, "float4 y"@] },
            ],
        },
        FunctionDoc {
            name: "sqrt"@,
            description: "### `sqrt`\n*Microsoft HLSL Intrinsic*\n\nComputes square root of `x`."@,
            overloads: seq![
                OverloadDoc { label: "float sqrt(float x)"@, params: seq!["float x"@] },
                OverloadDoc { label: "float2 sqrt(float2 x)"@, params: seq!["float2 x"@] },
                OverloadDoc { label: "float3 sqrt(float3 x)"@, params: seq!["float3 x"@] },
                OverloadDoc { label: "float4 sqrt(float4 x)"@, params: seq!["float4 x"@] },
            ],
        },
        FunctionDoc {
            name: "rsqrt"@,
            description: "### `rsqrt`\n*Microsoft HLSL Intrinsic*\n\nComputes fast reciprocal square root $1 / \\sqrt{x}$."@,
            overloads: seq![
                OverloadDoc { label: "float rsqrt(float x)"@, params: seq!["float x"@] },
                OverloadDoc { label: "float2 rsqrt(float2 x)"@, params: seq!["float2 x"@] },
                OverloadDoc { label: "float3 rsqrt(float3 x)"@, params: seq!["float3 x"@] },
                OverloadDoc { label: "float4 rsqrt(float4 x)"@, params: seq!["float4 x"@] },
            ],
        },
        FunctionDoc {
            name: "exp"@,
            description: "### `exp`\n*Microsoft HLSL Intrinsic*\n\nComputes base-$e$ exponential $e^x$."@,
            overloads: seq![
                OverloadDoc { label: "float exp(float x)"@, params: seq!["float x"@] },
                OverloadDoc { label: "float2 exp(float2 x)"@, params: seq!["float2 x"@] },
                OverloadDoc { label: "float3 exp(float3 x)"@, params: seq!["float3 x"@] },
                OverloadDoc { label: "float4 exp(float4 x)"@, params: seq!["float4 x"@] },
            ],
        },
        FunctionDoc {
            name: "exp2"@,
            description: "### `exp2`\n*Microsoft HLSL Intrinsic*\n\nComputes base-2 exponential $2^x$."@,
            overloads: seq![
                OverloadDoc { label: "float exp2(float x)"@, params: seq!["float x"@] },
                OverloadDoc { label: "float2 exp2(float2 x)"@, params: seq!["float2 x"@] },
                OverloadDoc { label: "float3 exp2(float3 x)"@, params: seq!["float3 x"@] },
                OverloadDoc { label: "float4 exp2(float4 x)"@, params: seq!["float4 x"@] },
            ],
        },
        FunctionDoc {
            name: "log"@,
            description: "### `log`\n*Microsoft HLSL Intrinsic*\n\nComputes natural logarithm $\\ln(x)$."@,
            overloads: seq![
                OverloadDoc { label: "float log(float x)"@, params: seq!["float x"@] },
                OverloadDoc { label: "float2 log(float2 x)"@, params: seq!["float2 x"@] },
                OverloadDoc { label: "float3 log(float3 x)"@, params: seq!["float3 x"@] },
                OverloadDoc { label: "float4 log(float4 x)"@, params: seq!["float4 x"@] },
            ],
        },
        FunctionDoc {
            name: "log2"@,
            description: "### `log2`\n*Microsoft HLSL Intrinsic*\n\nComputes base-2 logarithm $\\log_2(x)$."@,
            overloads: seq![
                OverloadDoc { label: "float log2(float x)"@, params: seq!["float x"@] },
                OverloadDoc { label: "float2 log2(float2 x)"@, params: seq!["float2 x"@] },
                OverloadDoc { label: "float3 log2(float3 x)"@, params: seq!["float3 x"@] },
                OverloadDoc { label: "float4 log2(float4 x)"@, params: seq!["float4 x"@] },
            ],
        },
        FunctionDoc {
            name: "ddx"@,
            description: "### `ddx`\n*Microsoft HLSL Intrinsic*\n\nComputes the partial derivative of `x` with respect to screen-space x-coordinate."@,
            overloads: seq![
                OverloadDoc { label: "float ddx(float x)"@, params: seq!["float x"@] },
                OverloadDoc { label: "float2 ddx(float2 x)"@, params: seq!["float2 x"@] },
                OverloadDoc { label: "float3 ddx(float3 x)"@, params: seq!["float3 x"@] },
                OverloadDoc { label: "float4 ddx(float4 x)"@, params: seq!["float4 x"@] },
            ],
        },
        FunctionDoc {
            name: "ddy"@,
            description: "### `ddy`\n*Microsoft HLSL Intrinsic*\n\nComputes the partial derivative of `x` with respect to screen-space y-coordinate."@,
            overloads: seq![
                OverloadDoc { label: "float ddy(float x)"@, params: seq!["float x"@] },
                OverloadDoc { label: "float2 ddy(float2 x)"@, params: seq!["float2 x"@] },
                OverloadDoc { label: "float3 ddy(float3 x)"@, params: seq!["float3 x"@] },
                OverloadDoc { label: "float4 ddy(float4 x)"@, params: seq!["float4 x"@] },
            ],
        },
        FunctionDoc {
            name: "fwidth"@,
            description: "### `fwidth`\n*Microsoft HLSL Intrinsic*\n\nReturns the sum of the absolute values of derivatives: `abs(ddx(x)) + abs(ddy(x))`."@,
            overloads: seq![
                OverloadDoc { label: "float fwidth(float x)"@, params: seq!["float x"@] },
                OverloadDoc { label: "float2 fwidth(float2 x)"@, params: seq!["float2 x"@] },
                OverloadDoc { label: "float3 fwidth(float3 x)"@, params: seq!["float3 x"@] },
                OverloadDoc { label: "float4 fwidth(float4 x)"@, params: seq!["float4 x"@] },
            ],
        },
        FunctionDoc {
            name: "clip"@,
            description: "### `clip`\n*Microsoft HLSL Intrinsic*\n\nDiscards the current pixel if the specified value is less than zero.\nEquivalent to `if (any(x < 0)) discard;`\n\n**Parameters:**\n* `x`: Cutoff scalar or vector."@,
            overloads: seq![
                OverloadDoc { label: "void clip(float x)"@, params: seq!["float x"@] },
                OverloadDoc { label: "void clip(float2 x)"@, params: seq!["float2 x"@] },
                OverloadDoc { label: "void clip(float3 x)"@, params: seq!["float3 x"@] },
                OverloadDoc { label: "void clip(float4 x)"@, params: seq!["float4 x"@] },
            ],
        },
        FunctionDoc {
            name: "all"@,
            description: "### `all`\n*Microsoft HLSL Intrinsic*\n\nReturns `true` if all components of `x` are non-zero."@,
            overloads: seq![
                OverloadDoc { label: "bool all(bool x)"@, params: seq!["bool x"@] },
                OverloadDoc { label: "bool all(bool2 x)"@, params: seq!["bool2 x"@] },
                OverloadDoc { label: "bool all(bool3 x)"@, params: seq!["bool3 x"@] },
                OverloadDoc { label: "bool all(bool4 x)"@, params: seq!["bool4 x"@] },
            ],
        },
        FunctionDoc {
            name: "any"@,
            description: "### `any`\n*Microsoft HLSL Intrinsic*\n\nReturns `true` if any component of `x` is non-zero."@,
            overloads: seq![
                OverloadDoc { label: "bool any(bool x)"@, params: seq!["bool x"@] },
                OverloadDoc { label: "bool any(bool2 x)"@, params: seq!["bool2 x"@] },
                OverloadDoc { label: "bool any(bool3 x)"@, params: seq!["bool3 x"@] },
                OverloadDoc { label: "bool any(bool4 x)"@, params: seq!["bool4 x"@] },
            ],
        },
        FunctionDoc {
            name: "tex2D"@,
            description: "### `tex2D`\n*HLSL / Cg Texture Sampling*\n\nSamples a 2D texture using UV coordinates.\n\n**Parameters:**\n* `s`: Sampler2D object.\n* `uv`: 2D texture coordinates."@,
            overloads: seq![
                OverloadDoc { label: "float4 tex2D(sampler2D s, float2 uv)"@, params: seq!["sampler2D s"@, "float2 uv"@] },
                OverloadDoc { label: "float4 tex2D(sampler2D s, float2 uv, float2 dx, float2 dy)"@, params: seq!["sampler2D s"@, "float2 uv"@, "float2 dx"@, "float2 dy"@] },
            ],
        },
        FunctionDoc {
            name: "tex2Dlod"@,
            description: "### `tex2Dlod`\n*HLSL Texture Sampling*\n\nSamples a 2D texture with a specific mipmap LOD level.\n\n**Parameters:**\n* `s`: Sampler2D object.\n* `uv_lod`: `float4(uv.x, uv.y, 0, lod)`."@,
            overloads: seq![
                OverloadDoc { label: "float4 tex2Dlod(sampler2D s, float4 uv_lod)"@, params: seq!["sampler2D s"@, "float4 uv_lod"@] },
            ],
        },
        FunctionDoc {
            name: "texCUBE"@,
            description: "### `texCUBE`\n*HLSL Texture Sampling*\n\nSamples a cubemap texture using a 3D direction vector."@,
            overloads: seq![
                OverloadDoc { label: "float4 texCUBE(samplerCUBE s, float3 dir)"@, params: seq!["samplerCUBE s"@, "float3 dir"@] },
            ],
        },
        FunctionDoc {
            name: "TRANSFORM_TEX"@,
            description: "### `TRANSFORM_TEX(uv, name)`\n*Unity Built-in Macro*\n\nTransforms UV coordinates using the tiling and offset parameters (`name_ST`) of a texture.\n\n$$\\text{uv}' = \\text{uv} \\cdot \\text{name\\_ST.xy} + \\text{name\\_ST.zw}$$\n\n**Parameters:**\n* `uv`: Input 2D texture coordinates.\n* `name`: Texture identifier (requires matching uniform `float4 name_ST`)."@,
            overloads: seq![
                OverloadDoc { label: "float2 TRANSFORM_TEX(float2 uv, TextureName name)"@, params: seq!["float2 uv"@, "TextureName name"@] },
            ],
        },
    ]
}

/// Builds entries 26 to 51 of the function table.
fn builtin_functions_1() -> (r: Vec<BuiltinFunction>)
    ensures
        functions_view(r@) == builtin_part_1(),
{
    let r = vec![
        BuiltinFunction {
            name: "refract",
            description: "### `refract`\n*Microsoft HLSL Intrinsic*\n\nCalculates a refraction vector using Snell's law.\n\n**Parameters:**\n* `i`: Incident vector.\n* `n`: Normal vector.\n* `eta`: Ratio of indices of refraction.",
            overloads: vec![
                BuiltinOverload { label: "float3 refract(float3 i, float3 n, float eta)", params: vec!["float3 i", "float3 n", "float eta"] },
            ],
        },
        BuiltinFunction {
            name: "mul",
            description: "### `mul`\n*Microsoft HLSL Intrinsic*\n\nMultiplies `x` and `y` using matrix multiplication rules.\nSupports vector-matrix, matrix-vector, and matrix-matrix products.\n\n**Parameters:**\n* `x`: Left operand (vector or matrix).\n* `y`: Right operand (vector or matrix).",
            overloads: vec![
                BuiltinOverload { label: "float4 mul(float4 v, float4x4 m)", params: vec!["float4 v", "float4x4 m"] },
                BuiltinOverload { label: "float4 mul(float4x4 m, float4 v)", params: vec!["float4x4 m", "float4 v"] },
                BuiltinOverload { label: "float3 mul(float3 v, float3x3 m)", params: vec!["float3 v", "float3x3 m"] },
                BuiltinOverload { label: "float3 mul(float3x3 m, float3 v)", params: vec!["float3x3 m", "float3 v"] },
                BuiltinOverload { label: "float4x4 mul(float4x4 a, float4x4 b)", params: vec!["float4x4 a", "float4x4 b"] },
            ],
        },
        BuiltinFunction {
            name: "transpose",
            description: "### `transpose`\n*Microsoft HLSL Intrinsic*\n\nReturns the transpose of matrix `m`.",
            overloads: vec![
                BuiltinOverload { label: "float4x4 transpose(float4x4 m)", params: vec!["float4x4 m"] },
                BuiltinOverload { label: "float3x3 transpose(float3x3 m)", params: vec!["float3x3 m"] },
            ],
        },
        BuiltinFunction {
            name: "determinant",
            description: "### `determinant`\n*Microsoft HLSL Intrinsic*\n\nComputes the determinant of a square matrix.",
            overloads: vec![
                BuiltinOverload { label: "float determinant(float4x4 m)", params: vec!["float4x4 m"] },
                BuiltinOverload { label: "float determinant(float3x3 m)", params: vec!["float3x3 m"] },
            ],
        },
        BuiltinFunction {
            name: "sin",
            description: "### `sin`\n*Microsoft HLSL Intrinsic*\n\nComputes the sine of `x` (in radians).",
            overloads: vec![
                BuiltinOverload { label: "float sin(float x)", params: vec!["float x"] },
                BuiltinOverload { label: "float2 sin(float2 x)", params: vec!["float2 x"] },
                BuiltinOverload { label: "float3 sin(float3 x)", params: vec!["float3 x"] },
                BuiltinOverload { label: "float4 sin(float4 x)", params: vec!["float4 x"] },
            ],
        },
        BuiltinFunction {
            name: "cos",
            description: "### `cos`\n*Microsoft HLSL Intrinsic*\n\nComputes the cosine of `x` (in radians).",
            overloads: vec![
                BuiltinOverload { label: "float cos(float x)", params: vec!["float x"] },
                BuiltinOverload { label: "float2 cos(float2 x)", params: vec!["float2 x"] },
                BuiltinOverload { label: "float3 cos(float3 x)", params: vec!["float3 x"] },
                BuiltinOverload { label: "float4 cos(float4 x)", params: vec!["float4 x"] },
            ],
        },
        BuiltinFunction {
            name: "tan",
            description: "### `tan`\n*Microsoft HLSL Intrinsic*\n\nComputes the tangent of `x` (in radians).",
            overloads: vec![
                BuiltinOverload { label: "float tan(float x)", params: vec!["float x"] },
                BuiltinOverload { label: "float2 tan(float2 x)", params: vec!["float2 x"] },
                BuiltinOverload { label: "float3 tan(float3 x)", params: vec!["float3 x"] },
                BuiltinOverload { label: "float4 tan(float4 x)", params: vec!["float4 x"] },
            ],
        },
        BuiltinFunction {
            name: "atan2",
            description: "### `atan2`\n*Microsoft HLSL Intrinsic*\n\nComputes the 2-argument arctangent of `y / x`.",
            overloads: vec![
                BuiltinOverload { label: "float atan2(float y, float x)", params: vec!["float y", "float x"] },
                BuiltinOverload { label: "float2 atan2(float2 y, float2 x)", params: vec!["float2 y", "float2 x"] },
                BuiltinOverload { label: "float3 atan2(float3 y, float3 x)", params: vec!["float3 y", "float3 x"] },
                BuiltinOverload { label: "float4 atan2(float4 y, float4 x)", params: vec!["float4 y", "float4 x"] },
            ],
        },
        BuiltinFunction {
            name: "sincos",
            description: "### `sincos`\n*Microsoft HLSL Intrinsic*\n\nComputes both sine and cosine simultaneously.\n\n**Parameters:**\n* `x`: Angle in radians.\n* `s`: Output sine variable (`out`).\n* `c`: Output cosine variable (`out`).",
            overloads: vec![
                BuiltinOverload { label: "void sincos(float x, out float s, out float c)", params: vec!["float x", "out float s", "out float c"] },
                BuiltinOverload { label: "void sincos(float2 x, out float2 s, out float2 c)", params: vec!["float2 x", "out float2 s", "out float2 c"] },
                BuiltinOverload { label: "void sincos(float3 x, out float3 s, out float3 c)", params: vec!["float3 x", "out float3 s", "out float3 c"] },
                BuiltinOverload { label: "void sincos(float4 x, out float4 s, out float4 c)", params: vec!["float4 x", "out float4 s", "out float4 c"] },
            ],
        },
        BuiltinFunction {
            name: "pow",
            description: "### `pow`\n*Microsoft HLSL Intrinsic*\n\nComputes $x^y$.\n\n**Parameters:**\n* `x`: Base.\n* `y`: Exponent.",
            overloads: vec![
                BuiltinOverload { label: "float pow(float x, float y)", params: vec!["float x", "float y"] },
                BuiltinOverload { label: "float2 pow(float2 x, float2 y)", params: vec!["float2 x", "float2 y"] },
                BuiltinOverload { label: "float3 pow(float3 x, float3 y)", params: vec!["float3 x", "float3 y"] },
                BuiltinOverload { label: "float4 pow(float4 x, float4 y)", params: vec!["float4 x", "float4 y"] },
            ],
        },
        BuiltinFunction {
            name: "sqrt",
            description: "### `sqrt`\n*Microsoft HLSL Intrinsic*\n\nComputes square root of `x`.",
            overloads: vec![
                BuiltinOverload { label: "float sqrt(float x)", params: vec!["float x"] },
                BuiltinOverload { label: "float2 sqrt(float2 x)", params: vec!["float2 x"] },
                BuiltinOverload { label: "float3 sqrt(float3 x)", params: vec!["float3 x"] },
                BuiltinOverload { label: "float4 sqrt(float4 x)", params: vec!["float4 x"] },
            ],
        },
        BuiltinFunction {
            name: "rsqrt",
            description: "### `rsqrt`\n*Microsoft HLSL Intrinsic*\n\nComputes fast reciprocal square root $1 / \\sqrt{x}$.",
            overloads: vec![
                BuiltinOverload { label: "float rsqrt(float x)", params: vec!["float x"] },
                BuiltinOverload { label: "float2 rsqrt(float2 x)", params: vec!["float2 x"] },
                BuiltinOverload { label: "float3 rsqrt(float3 x)", params: vec!["float3 x"] },
                BuiltinOverload { label: "float4 rsqrt(float4 x)", params: vec!["float4 x"] },
            ],
        },
        BuiltinFunction {
            name: "exp",
            description: "### `exp`\n*Microsoft HLSL Intrinsic*\n\nComputes base-$e$ exponential $e^x$.",
            overloads: vec![
                BuiltinOverload { label: "float exp(float x)", params: vec!["float x"] },
                BuiltinOverload { label: "float2 exp(float2 x)", params: vec!["float2 x"] },
                BuiltinOverload { label: "float3 exp(float3 x)", params: vec!["float3 x"] },
                BuiltinOverload { label: "float4 exp(float4 x)", params: vec!["float4 x"] },
            ],
        },
        BuiltinFunction {
            name: "exp2",
            description: "### `exp2`\n*Microsoft HLSL Intrinsic*\n\nComputes base-2 exponential $2^x$.",
            overloads: vec![
                BuiltinOverload { label: "float exp2(float x)", params: vec!["float x"] },
                BuiltinOverload { label: "float2 exp2(float2 x)", params: vec!["float2 x"] },
                BuiltinOverload { label: "float3 exp2(float3 x)", params: vec!["float3 x"] },
                BuiltinOverload { label: "float4 exp2(float4 x)", params: vec!["float4 x"] },
            ],
        },
        BuiltinFunction {
            name: "log",
            description: "### `log`\n*Microsoft HLSL Intrinsic*\n\nComputes natural logarithm $\\ln(x)$.",
            overloads: vec![
                BuiltinOverload { label: "float log(float x)", params: vec!["float x"] },
                BuiltinOverload { label: "float2 log(float2 x)", params: vec!["float2 x"] },
                BuiltinOverload { label: "float3 log(float3 x)", params: vec!["float3 x"] },
                BuiltinOverload { label: "float4 log(float4 x)", params: vec!["float4 x"] },
            ],
        },
        BuiltinFunction {
            name: "log2",
            description: "### `log2`\n*Microsoft HLSL Intrinsic*\n\nComputes base-2 logarithm $\\log_2(x)$.",
            overloads: vec![
                BuiltinOverload { label: "float log2(float x)", params: vec!["float x"] },
                BuiltinOverload { label: "float2 log2(float2 x)", params: vec!["float2 x"] },
                BuiltinOverload { label: "float3 log2(float3 x)", params: vec!["float3 x"] },
                BuiltinOverload { label: "float4 log2(float4 x)", params: vec!["float4 x"] },
            ],
        },
        BuiltinFunction {
            name: "ddx",
            description: "### `ddx`\n*Microsoft HLSL Intrinsic*\n\nComputes the partial derivative of `x` with respect to screen-space x-coordinate.",
            overloads: vec![
                BuiltinOverload { label: "float ddx(float x)", params: vec!["float x"] },
                BuiltinOverload { label: "float2 ddx(float2 x)", params: vec!["float2 x"] },
                BuiltinOverload { label: "float3 ddx(float3 x)", params: vec!["float3 x"] },
                BuiltinOverload { label: "float4 ddx(float4 x)", params: vec!["float4 x"] },
            ],
        },
        BuiltinFunction {
            name: "ddy",
            description: "### `ddy`\n*Microsoft HLSL Intrinsic*\n\nComputes the partial derivative of `x` with respect to screen-space y-coordinate.",
            overloads: vec![
                BuiltinOverload { label: "float ddy(float x)", params: vec!["float x"] },
                BuiltinOverload { label: "float2 ddy(float2 x)", params: vec!["float2 x"] },
                BuiltinOverload { label: "float3 ddy(float3 x)", params: vec!["float3 x"] },
                BuiltinOverload { label: "float4 ddy(float4 x)", params: vec!["float4 x"] },
            ],
        },
        BuiltinFunction {
            name: "fwidth",
            description: "### `fwidth`\n*Microsoft HLSL Intrinsic*\n\nReturns the sum of the absolute values of derivatives: `abs(ddx(x)) + abs(ddy(x))`.",
            overloads: vec![
                BuiltinOverload { label: "float fwidth(float x)", params: vec!["float x"] },
                BuiltinOverload { label: "float2 fwidth(float2 x)", params: vec!["float2 x"] },
                BuiltinOverload { label: "float3 fwidth(float3 x)", params: vec!["float3 x"] },
                BuiltinOverload { label: "float4 fwidth(float4 x)", params: vec!["float4 x"] },
            ],
        },
        BuiltinFunction {
            name: "clip",
            description: "### `clip`\n*Microsoft HLSL Intrinsic*\n\nDiscards the current pixel if the specified value is less than zero.\nEquivalent to `if (any(x < 0)) discard;`\n\n**Parameters:**\n* `x`: Cutoff scalar or vector.",
            overloads: vec![
                BuiltinOverload { label: "void clip(float x)", params: vec!["float x"] },
                BuiltinOverload { label: "void clip(float2 x)", params: vec!["float2 x"] },
                BuiltinOverload { label: "void clip(float3 x)", params: vec!["float3 x"] },
                BuiltinOverload { label: "void clip(float4 x)", params: vec!["float4 x"] },
            ],
        },
        BuiltinFunction {
            name: "all",
            description: "### `all`\n*Microsoft HLSL Intrinsic*\n\nReturns `true` if all components of `x` are non-zero.",
            overloads: vec![
                BuiltinOverload { label: "bool all(bool x)", params: vec!["bool x"] },
                BuiltinOverload { label: "bool all(bool2 x)", params: vec!["bool2 x"] },
                BuiltinOverload { label: "bool all(bool3 x)", params: vec!["bool3 x"] },
                BuiltinOverload { label: "bool all(bool4 x)", params: vec!["bool4 x"] },
            ],
        },
        BuiltinFunction {
            name: "any",
            description: "### `any`\n*Microsoft HLSL Intrinsic*\n\nReturns `true` if any component of `x` is non-zero.",
            overloads: vec![
                BuiltinOverload { label: "bool any(bool x)", params: vec!["bool x"] },
                BuiltinOverload { label: "bool any(bool2 x)", params: vec!["bool2 x"] },
                BuiltinOverload { label: "bool any(bool3 x)", params: vec!["bool3 x"] },
                BuiltinOverload { label: "bool any(bool4 x)", params: vec!["bool4 x"] },
            ],
        },
        BuiltinFunction {
            name: "tex2D",
            description: "### `tex2D`\n*HLSL / Cg Texture Sampling*\n\nSamples a 2D texture using UV coordinates.\n\n**Parameters:**\n* `s`: Sampler2D object.\n* `uv`: 2D texture coordinates.",
            overloads: vec![
                BuiltinOverload { label: "float4 tex2D(sampler2D s, float2 uv)", params: vec!["sampler2D s", "float2 uv"] },
                BuiltinOverload { label: "float4 tex2D(sampler2D s, float2 uv, float2 dx, float2 dy)", params: vec!["sampler2D s", "float2 uv", "float2 dx", "float2 dy"] },
            ],
        },
        BuiltinFunction {
            name: "tex2Dlod",
            description: "### `tex2Dlod`\n*HLSL Texture Sampling*\n\nSamples a 2D texture with a specific mipmap LOD level.\n\n**Parameters:**\n* `s`: Sampler2D object.\n* `uv_lod`: `float4(uv.x, uv.y, 0, lod)`.",
            overloads: vec![
                BuiltinOverload { label: "float4 tex2Dlod(sampler2D s, float4 uv_lod)", params: vec!["sampler2D s", "float4 uv_lod"] },
            ],
        },
        BuiltinFunction {
            name: "texCUBE",
            description: "### `texCUBE`\n*HLSL Texture Sampling*\n\nSamples a cubemap texture using a 3D direction vector.",
            overloads: vec![
                BuiltinOverload { label: "float4 texCUBE(samplerCUBE s, float3 dir)", params: vec!["samplerCUBE s", "float3 dir"] },
            ],
        },
        BuiltinFunction {
            name: "TRANSFORM_TEX",
            description: "### `TRANSFORM_TEX(uv, name)`\n*Unity Built-in Macro*\n\nTransforms UV coordinates using the tiling and offset parameters (`name_ST`) of a texture.\n\n$$\\text{uv}' = \\text{uv} \\cdot \\text{name\\_ST.xy} + \\text{name\\_ST.zw}$$\n\n**Parameters:**\n* `uv`: Input 2D texture coordinates.\n* `name`: Texture identifier (requires matching uniform `float4 name_ST`).",
            overloads: vec![
                BuiltinOverload { label: "float2 TRANSFORM_TEX(float2 uv, TextureName name)", params: vec!["float2 uv", "TextureName name"] },
            ],
        },
    ];
    proof {
        reveal(builtin_part_1);
        assert(r@[0].overloads@[0]@.params =~= builtin_part_1()[0].overloads[0].params);
        assert(r@[0]@.overloads =~= builtin_part_1()[0].overloads);
        assert(r@[1].overloads@[0]@.params =~= builtin_part_1()[1].overloads[0].params);
        assert(r@[1].overloads@[1]@.params =~= builtin_part_1()[1].overloads[1].params);
        assert(r@[1].overloads@[2]@.params =~= builtin_part_1()[1].overloads[2].params);
        assert(r@[1].overloads@[3]@.params =~= builtin_part_1()[1].overloads[3].params);
        assert(r@[1].overloads@[4]@.params =~= builtin_part_1()[1].overloads[4].params);
        assert(r@[1]@.overloads =~= builtin_part_1()[1].overloads);
        assert(r@[2].overloads@[0]@.params =~= builtin_part_1()[2].overloads[0].params);
        assert(r@[2].overloads@[1]@.params =~= builtin_part_1()[2].overloads[1].params);
        assert(r@[2]@.overloads =~= builtin_part_1()[2].overloads);
        assert(r@[3].overloads@[0]@.params =~= builtin_part_1()[3].overloads[0].params);
        assert(r@[3].overloads@[1]@.params =~= builtin_part_1()[3].overloads[1].params);
        assert(r@[3]@.overloads =~= builtin_part_1()[3].overloads);
        assert(r@[4].overloads@[0]@.params =~= builtin_part_1()[4].overloads[0].params);
        assert(r@[4].overloads@[1]@.params =~= builtin_part_1()[4].overloads[1].params);
        assert(r@[4].overloads@[2]@.params =~= builtin_part_1()[4].overloads[2].params);
        assert(r@[4].overloads@[3]@.params =~= builtin_part_1()[4].overloads[3].params);
        assert(r@[4]@.overloads =~= builtin_part_1()[4].overloads);
        assert(r@[5].overloads@[0]@.params =~= builtin_part_1()[5].overloads[0].params);
        assert(r@[5].overloads@[1]@.params =~= builtin_part_1()[5].overloads[1].params);
        assert(r@[5].overloads@[2]@.params =~= builtin_part_1()[5].overloads[2].params);
        assert(r@[5].overloads@[3]@.params =~= builtin_part_1()[5].overloads[3].params);
        assert(r@[5]@.overloads =~= builtin_part_1()[5].overloads);
        assert(r@[6].overloads@[0]@.params =~= builtin_part_1()[6].overloads[0].params);
        assert(r@[6].overloads@[1]@.params =~= builtin_part_1()[6].overloads[1].params);
        assert(r@[6].overloads@[2]@.params =~= builtin_part_1()[6].overloads[2].params);
        assert(r@[6].overloads@[3]@.params =~= builtin_part_1()[6].overloads[3].params);
        assert(r@[6]@.overloads =~= builtin_part_1()[6].overloads);
        assert(r@[7].overloads@[0]@.params =~= builtin_part_1()[7].overloads[0].params);
        assert(r@[7].overloads@[1]@.params =~= builtin_part_1()[7].overloads[1].params);
        assert(r@[7].overloads@[2]@.params =~= builtin_part_1()[7].overloads[2].params);
        assert(r@[7].overloads@[3]@.params =~= builtin_part_1()[7].overloads[3].params);
        assert(r@[7]@.overloads =~= builtin_part_1()[7].overloads);
        assert(r@[8].overloads@[0]@.params =~= builtin_part_1()[8].overloads[0].params);
        assert(r@[8].overloads@[1]@.params =~= builtin_part_1()[8].overloads[1].params);
        assert(r@[8].overloads@[2]@.params =~= builtin_part_1()[8].overloads[2].params);
        assert(r@[8].overloads@[3]@.params =~= builtin_part_1()[8].overloads[3].params);
        assert(r@[8]@.overloads =~= builtin_part_1()[8].overloads);
        assert(r@[9].overloads@[0]@.params =~= builtin_part_1()[9].overloads[0].params);
        assert(r@[9].overloads@[1]@.params =~= builtin_part_1()[9].overloads[1].params);
        assert(r@[9].overloads@[2]@.params =~= builtin_part_1()[9].overloads[2].params);
        assert(r@[9].overloads@[3]@.params =~= builtin_part_1()[9].overloads[3].params);
        assert(r@[9]@.overloads =~= builtin_part_1()[9].overloads);
        assert(r@[10].overloads@[0]@.params =~= builtin_part_1()[10].overloads[0].params);
        assert(r@[10].overloads@[1]@.params =~= builtin_part_1()[10].overloads[1].params);
        assert(r@[10].overloads@[2]@.params =~= builtin_part_1()[10].overloads[2].params);
        assert(r@[10].overloads@[3]@.params =~= builtin_part_1()[10].overloads[3].params);
        assert(r@[10]@.overloads =~= builtin_part_1()[10].overloads);
        assert(r@[11].overloads@[0]@.params =~= builtin_part_1()[11].overloads[0].params);
        assert(r@[11].overloads@[1]@.params =~= builtin_part_1()[11].overloads[1].params);
        assert(r@[11].overloads@[2]@.params =~= builtin_part_1()[11].overloads[2].params);
        assert(r@[11].overloads@[3]@.params =~= builtin_part_1()[11].overloads[3].params);
        assert(r@[11]@.overloads =~= builtin_part_1()[11].overloads);
        assert(r@[12].overloads@[0]@.params =~= builtin_part_1()[12].overloads[0].params);
        assert(r@[12].overloads@[1]@.params =~= builtin_part_1()[12].overloads[1].params);
        assert(r@[12].overloads@[2]@.params =~= builtin_part_1()[12].overloads[2].params);
        assert(r@[12].overloads@[3]@.params =~= builtin_part_1()[12].overloads[3].params);
        assert(r@[12]@.overloads =~= builtin_part_1()[12].overloads);
        assert(r@[13].overloads@[0]@.params =~= builtin_part_1()[13].overloads[0].params);
        assert(r@[13].overloads@[1]@.params =~= builtin_part_1()[13].overloads[1].params);
        assert(r@[13].overloads@[2]@.params =~= builtin_part_1()[13].overloads[2].params);
        assert(r@[13].overloads@[3]@.params =~= builtin_part_1()[13].overloads[3].params);
        assert(r@[13]@.overloads =~= builtin_part_1()[13].overloads);
        assert(r@[14].overloads@[0]@.params =~= builtin_part_1()[14].overloads[0].params);
        assert(r@[14].overloads@[1]@.params =~= builtin_part_1()[14].overloads[1].params);
        assert(r@[14].overloads@[2]@.params =~= builtin_part_1()[14].overloads[2].params);
        assert(r@[14].overloads@[3]@.params =~= builtin_part_1()[14].overloads[3].params);
        assert(r@[14]@.overloads =~= builtin_part_1()[14].overloads);
        assert(r@[15].overloads@[0]@.params =~= builtin_part_1()[15].overloads[0].params);
        assert(r@[15].overloads@[1]@.params =~= builtin_part_1()[15].overloads[1].params);
        assert(r@[15].overloads@[2]@.params =~= builtin_part_1()[15].overloads[2].params);
        assert(r@[15].overloads@[3]@.params =~= builtin_part_1()[15].overloads[3].params);
        assert(r@[15]@.overloads =~= builtin_part_1()[15].overloads);
        assert(r@[16].overloads@[0]@.params =~= builtin_part_1()[16].overloads[0].params);
        assert(r@[16].overloads@[1]@.params =~= builtin_part_1()[16].overloads[1].params);
        assert(r@[16].overloads@[2]@.params =~= builtin_part_1()[16].overloads[2].params);
        assert(r@[16].overloads@[3]@.params =~= builtin_part_1()[16].overloads[3].params);
        assert(r@[16]@.overloads =~= builtin_part_1()[16].overloads);
        assert(r@[17].overloads@[0]@.params =~= builtin_part_1()[17].overloads[0].params);
        assert(r@[17].overloads@[1]@.params =~= builtin_part_1()[17].overloads[1].params);
        assert(r@[17].overloads@[2]@.params =~= builtin_part_1()[17].overloads[2].params);
        assert(r@[17].overloads@[3]@.params =~= builtin_part_1()[17].overloads[3].params);
        assert(r@[17]@.overloads =~= builtin_part_1()[17].overloads);
        assert(r@[18].overloads@[0]@.params =~= builtin_part_1()[18].overloads[0].params);
        assert(r@[18].overloads@[1]@.params =~= builtin_part_1()[18].overloads[1].params);
        assert(r@[18].overloads@[2]@.params =~= builtin_part_1()[18].overloads[2].params);
        assert(r@[18].overloads@[3]@.params =~= builtin_part_1()[18].overloads[3].params);
        assert(r@[18]@.overloads =~= builtin_part_1()[18].overloads);
        assert(r@[19].overloads@[0]@.params =~= builtin_part_1()[19].overloads[0].params);
        assert(r@[19].overloads@[1]@.params =~= builtin_part_1()[19].overloads[1].params);
        assert(r@[19].overloads@[2]@.params =~= builtin_part_1()[19].overloads[2].params);
        assert(r@[19].overloads@[3]@.params =~= builtin_part_1()[19].overloads[3].params);
        assert(r@[19]@.overloads =~= builtin_part_1()[19].overloads);
        assert(r@[20].overloads@[0]@.params =~= builtin_part_1()[20].overloads[0].params);
        assert(r@[20].overloads@[1]@.params =~= builtin_part_1()[20].overloads[1].params);
        assert(r@[20].overloads@[2]@.params =~= builtin_part_1()[20].overloads[2].params);
        assert(r@[20].overloads@[3]@.params =~= builtin_part_1()[20].overloads[3].params);
        assert(r@[20]@.overloads =~= builtin_part_1()[20].overloads);
        assert(r@[21].overloads@[0]@.params =~= builtin_part_1()[21].overloads[0].params);
        assert(r@[21].overloads@[1]@.params =~= builtin_part_1()[21].overloads[1].params);
        assert(r@[21].overloads@[2]@.params =~= builtin_part_1()[21].overloads[2].params);
        assert(r@[21].overloads@[3]@.params =~= builtin_part_1()[21].overloads[3].params);
        assert(r@[21]@.overloads =~= builtin_part_1()[21].overloads);
        assert(r@[22].overloads@[0]@.params =~= builtin_part_1()[22].overloads[0].params);
        assert(r@[22].overloads@[1]@.params =~= builtin_part_1()[22].overloads[1].params);
        assert(r@[22]@.overloads =~= builtin_part_1()[22].overloads);
        assert(r@[23].overloads@[0]@.params =~= builtin_part_1()[23].overloads[0].params);
        assert(r@[23]@.overloads =~= builtin_part_1()[23].overloads);
        assert(r@[24].overloads@[0]@.params =~= builtin_part_1()[24].overloads[0].params);
        assert(r@[24]@.overloads =~= builtin_part_1()[24].overloads);
        assert(r@[25].overloads@[0]@.params =~= builtin_part_1()[25].overloads[0].params);
        assert(r@[25]@.overloads =~= builtin_part_1()[25].overloads);
        assert(functions_view(r@) =~= builtin_part_1());
    }
    r
}

/// Entries 52 to 77 of the function table.
#[verifier::opaque]
pub open spec fn builtin_part_2() -> Seq<FunctionDoc> {
    seq![
        FunctionDoc {
            name: "TransformObjectToHClip"@,
            description: "### `TransformObjectToHClip`\n*Unity URP / HDRP*\n\nTransforms an object-space vertex position directly to Homogeneous Clip Space (CS).\n\n**Parameters:**\n* `positionOS`: Object-space position (`float3`)."@,
            overloads: seq![
                OverloadDoc { label: "float4 TransformObjectToHClip(float3 positionOS)"@, params: seq!["float3 positionOS"@] },
            ],
        },
        FunctionDoc {
            name: "TransformObjectToWorld"@,
            description: "### `TransformObjectToWorld`\n*Unity URP / HDRP*\n\nTransforms a position from Object Space (OS) to World Space (WS).\n\n**Parameters:**\n* `positionOS`: Object-space position (`float3`)."@,
            overloads: seq![
                OverloadDoc { label: "float3 TransformObjectToWorld(float3 positionOS)"@, params: seq!["float3 positionOS"@] },
            ],
        },
        FunctionDoc {
            name: "TransformWorldToObject"@,
            description: "### `TransformWorldToObject`\n*Unity URP / HDRP*\n\nTransforms a position from World Space (WS) to Object Space (OS).\n\n**Parameters:**\n* `positionWS`: World-space position (`float3`)."@,
            overloads: seq![
                OverloadDoc { label: "float3 TransformWorldToObject(float3 positionWS)"@, params: seq!["float3 positionWS"@] },
            ],
        },
        FunctionDoc {
            name: "TransformWorldToHClip"@,
            description: "### `TransformWorldToHClip`\n*Unity URP / HDRP*\n\nTransforms a position from World Space (WS) to Homogeneous Clip Space (CS)."@,
            overloads: seq![
                OverloadDoc { label: "float4 TransformWorldToHClip(float3 positionWS)"@, params: seq!["float3 positionWS"@] },
            ],
        },
        FunctionDoc {
            name: "TransformObjectToWorldNormal"@,
            description: "### `TransformObjectToWorldNormal`\n*Unity URP / HDRP*\n\nTransforms a normal vector from Object Space to normalized World Space."@,
            overloads: seq![
                OverloadDoc { label: "float3 TransformObjectToWorldNormal(float3 normalOS)"@, params: seq!["float3 normalOS"@] },
            ],
        },
        FunctionDoc {
            name: "SAMPLE_TEXTURE2D"@,
            description: "### `SAMPLE_TEXTURE2D(textureName, samplerName, coord2)`\n*Unity Modern Macro*\n\nSamples a Texture2D using the designated SamplerState."@,
            overloads: seq![
                OverloadDoc { label: "float4 SAMPLE_TEXTURE2D(Texture2D tex, SamplerState smp, float2 uv)"@, params: seq!["Texture2D tex"@, "SamplerState smp"@, "float2 uv"@] },
            ],
        },
        FunctionDoc {
            name: "UnpackNormal"@,
            description: "### `UnpackNormal`\n*Unity Built-in*\n\nUnpacks a normal map vector sampled from a standard or DXT5nm texture into a tangent-space normal vector."@,
            overloads: seq![
                OverloadDoc { label: "float3 UnpackNormal(float4 packedNormal)"@, params: seq!["float4 packedNormal"@] },
            ],
        },
        FunctionDoc {
            name: "UnityObjectToClipPos"@,
            description: "### `UnityObjectToClipPos`\n*Unity Built-in RP (Legacy)*\n\nTransforms a position from Object Space directly to Homogeneous Clip Space.\n\n$$\\text{UnityObjectToClipPos}(pos) = \\text{mul}(\\text{UNITY\\_MATRIX\\_MVP}, \\text{float4}(pos, 1.0))$$"@,
            overloads: seq![
                OverloadDoc { label: "float4 UnityObjectToClipPos(float3 pos)"@, params: seq!["float3 pos"@] },
                OverloadDoc { label: "float4 UnityObjectToClipPos(float4 pos)"@, params: seq!["float4 pos"@] },
            ],
        },
        FunctionDoc {
            name: "UnityPixelSnap"@,
            description: "### `UnityPixelSnap`\n*Unity 2D Sprite Function*\n\nSnaps vertex position to screen pixel grid for pixel-perfect 2D rendering.\n\n**Parameters:**\n* `pos`: Clip-space position (`float4`)."@,
            overloads: seq![
                OverloadDoc { label: "float4 UnityPixelSnap(float4 pos)"@, params: seq!["float4 pos"@] },
            ],
        },
        FunctionDoc {
            name: "UnityGet2DClipping"@,
            description: "### `UnityGet2DClipping`\n*Unity 2D UI Function*\n\nCalculates rectangular clip mask factor for 2D UI Canvas elements.\n\n**Parameters:**\n* `position`: Screen/World-space position (`float2`).\n* `clipRect`: Rectangular clip boundaries min/max (`float4`)."@,
            overloads: seq![
                OverloadDoc { label: "float UnityGet2DClipping(float2 position, float4 clipRect)"@, params: seq!["float2 position"@, "float4 clipRect"@] },
            ],
        },
        FunctionDoc {
            name: "UnityWorldToClipPos"@,
            description: "### `UnityWorldToClipPos`\n*Unity Built-in RP*\n\nTransforms a position from World Space to Homogeneous Clip Space.\n\n**Parameters:**\n* `pos`: World-space position (`float3`)."@,
            overloads: seq![
                OverloadDoc { label: "float4 UnityWorldToClipPos(float3 pos)"@, params: seq!["float3 pos"@] },
            ],
        },
        FunctionDoc {
            name: "UnityObjectToViewPos"@,
            description: "### `UnityObjectToViewPos`\n*Unity Built-in RP*\n\nTransforms a position from Object Space into View/Eye Space.\n\n**Parameters:**\n* `pos`: Object-space position (`float3`)."@,
            overloads: seq![
                OverloadDoc { label: "float3 UnityObjectToViewPos(float3 pos)"@, params: seq!["float3 pos"@] },
            ],
        },
        FunctionDoc {
            name: "rcp"@,
            description: "### `rcp`\n*Microsoft HLSL Intrinsic*\n\nCalculates a fast per-component reciprocal $1 / x$.\n\n**Parameters:**\n* `x`: Floating point input."@,
            overloads: seq![
                OverloadDoc { label: "float rcp(float x)"@, params: seq!["float x"@] },
                OverloadDoc { label: "float2 rcp(float2 x)"@, params: seq!["float2 x"@] },
                OverloadDoc { label: "float3 rcp(float3 x)"@, params: seq!["float3 x"@] },
                OverloadDoc { label: "float4 rcp(float4 x)"@, params: seq!["float4 x"@] },
            ],
        },
        FunctionDoc {
            name: "fma"@,
            description: "### `fma`\n*Microsoft HLSL Intrinsic*\n\nPerforms a single-precision fused multiply-accumulate: $a \\cdot b + c$.\n\n**Parameters:**\n* `a`: Multiplicand.\n* `b`: Multiplier.\n* `c`: Addend."@,
            overloads: seq![
                OverloadDoc { label: "float fma(float a, float b, float c)"@, params: seq!["float a"@, "float b"@, "float c"@] },
                OverloadDoc { label: "float2 fma(float2 a, float2 b, float2 c)"@, params: seq!["float2 a"@, "float2 b"@, "float2 c"@] },
                OverloadDoc { label: "float3 fma(float3 a, float3 b, float3 c)"@, params: seq!["float3 a"@, "float3 b"@, "float3 c"@] },
                OverloadDoc { label: "float4 fma(float4 a, float4 b, float4 c)"@, params: seq!["float4 a"@, "float4 b"@, "float4 c"@] },
            ],
        },
        FunctionDoc {
            name: "mad"@,
            description: "### `mad`\n*Microsoft HLSL Intrinsic*\n\nPerforms multiply-add: $m \\cdot a + b$.\n\n**Parameters:**\n* `m`: Multiplicand.\n* `a`: Multiplier.\n* `b`: Addend."@,
            overloads: seq![
                OverloadDoc { label: "float mad(float m, float a, float b)"@, params: seq!["float m"@, "float a"@, "float b"@] },
                OverloadDoc { label: "float2 mad(float2 m, float2 a, float2 b)"@, params: seq!["float2 m"@, "float2 a"@, "float2 b"@] },
                OverloadDoc { label: "float3 mad(float3 m, float3 a, float3 b)"@, params: seq!["float3 m"@, "float3 a"@, "float3 b"@] },
                OverloadDoc { label: "float4 mad(float4 m, float4 a, float4 b)"@, params: seq!["float4 m"@, "float4 a"@, "float4 b"@] },
            ],
        },
        FunctionDoc {
            name: "modf"@,
            description: "### `modf`\n*Microsoft HLSL Intrinsic*\n\nSplits value `x` into fractional and integer parts.\n\n**Parameters:**\n* `x`: Input value.\n* `ip`: Output variable receiving the integer part."@,
            overloads: seq![
                OverloadDoc { label: "float modf(float x, out float ip)"@, params: seq!["float x"@, "out float ip"@] },
                OverloadDoc { label: "float2 modf(float2 x, out float2 ip)"@, params: seq!["float2 x"@, "out float2 ip"@] },
                OverloadDoc { label: "float3 modf(float3 x, out float3 ip)"@, params: seq!["float3 x"@, "out float3 ip"@] },
                OverloadDoc { label: "float4 modf(float4 x, out float4 ip)"@, params: seq!["float4 x"@, "out float4 ip"@] },
            ],
        },
        FunctionDoc {
            name: "degrees"@,
            description: "### `degrees`\n*Microsoft HLSL Intrinsic*\n\nConverts radians to degrees.\n\n$$\\text{degrees}(x) = x \\cdot \\frac{180}{\\pi}$$\n\n**Parameters:**\n* `x`: Angle in radians."@,
            overloads: seq![
                OverloadDoc { label: "float degrees(float x)"@, params: seq!["float x"@] },
                OverloadDoc { label: "float2 degrees(float2 x)"@, params: seq!["float2 x"@] },
                OverloadDoc { label: "float3 degrees(float3 x)"@, params: seq!["float3 x"@] },
                OverloadDoc { label: "float4 degrees(float4 x)"@, params: seq!["float4 x"@] },
            ],
        },
        FunctionDoc {
            name: "radians"@,
            description: "### `radians`\n*Microsoft HLSL Intrinsic*\n\nConverts degrees to radians.\n\n$$\\text{radians}(x) = x \\cdot \\frac{\\pi}{180}$$\n\n**Parameters:**\n* `x`: Angle in degrees."@,
            overloads: seq![
                OverloadDoc { label: "float radians(float x)"@, params: seq!["float x"@] },
                OverloadDoc { label: "float2 radians(float2 x)"@, params: seq!["float2 x"@] },
                OverloadDoc { label: "float3 radians(float3 x)"@, params: seq!["float3 x"@] },
                OverloadDoc { label: "float4 radians(float4 x)"@, params: seq!["float4 x"@] },
            ],
        },
        FunctionDoc {
            name: "asin"@,
            description: "### `asin`\n*Microsoft HLSL Intrinsic*\n\nComputes the arcsine of `x`."@,
            overloads: seq![
                OverloadDoc { label: "float asin(float x)"@, params: seq!["float x"@] },
                OverloadDoc { label: "float2 asin(float2 x)"@, params: seq!["float2 x"@] },
                OverloadDoc { label: "float3 asin(float3 x)"@, params: seq!["float3 x"@] },
                OverloadDoc { label: "float4 asin(float4 x)"@, params: seq!["float4 x"@] },
            ],
        },
        FunctionDoc {
            name: "acos"@,
            description: "### `acos`\n*Microsoft HLSL Intrinsic*\n\nComputes the arccosine of `x`."@,
            overloads: seq![
                OverloadDoc { label: "float acos(float x)"@, params: seq!["float x"@] },
                OverloadDoc { label: "float2 acos(float2 x)"@, params: seq!["float2 x"@] },
                OverloadDoc { label: "float3 acos(float3 x)"@, params: seq!["float3 x"@] },
                OverloadDoc { label: "float4 acos(float4 x)"@, params: seq!["float4 x"@] },
            ],
        },
        FunctionDoc {
            name: "atan"@,
            description: "### `atan`\n*Microsoft HLSL Intrinsic*\n\nComputes the arctangent of `x`."@,
            overloads: seq![
                OverloadDoc { label: "float atan(float x)"@, params: seq!["float x"@] },
                OverloadDoc { label: "float2 atan(float2 x)"@, params: seq!["float2 x"@] },
                OverloadDoc { label: "float3 atan(float3 x)"@, params: seq!["float3 x"@] },
                OverloadDoc { label: "float4 atan(float4 x)"@, params: seq!["float4 x"@] },
            ],
        },
        FunctionDoc {
            name: "sinh"@,
            description: "### `sinh`\n*Microsoft HLSL Intrinsic*\n\nComputes the hyperbolic sine of `x`."@,
            overloads: seq![
                OverloadDoc { label: "float sinh(float x)"@, params: seq!["float x"@] },
                OverloadDoc { label: "float2 sinh(float2 x)"@, params: seq!["float2 x"@] },
                OverloadDoc { label: "float3 sinh(float3 x)"@, params: seq!["float3 x"@] },
                OverloadDoc { label: "float4 sinh(float4 x)"@, params: seq!["float4 x"@] },
            ],
        },
        FunctionDoc {
            name: "cosh"@,
            description: "### `cosh`\n*Microsoft HLSL Intrinsic*\n\nComputes the hyperbolic cosine of `x`."@,
            overloads: seq![
                OverloadDoc { label: "float cosh(float x)"@, params: seq!["float x"@] },
                OverloadDoc { label: "float2 cosh(float2 x)"@, params: seq!["float2 x"@] },
                OverloadDoc { label: "float3 cosh(float3 x)"@, params: seq!["float3 x"@] },
                OverloadDoc { label: "float4 cosh(float4 x)"@, params: seq!["float4 x"@] },
            ],
        },
        FunctionDoc {
            name: "tanh"@,
            description: "### `tanh`\n*Microsoft HLSL Intrinsic*\n\nComputes the hyperbolic tangent of `x`."@,
            overloads: seq![
                OverloadDoc { label: "float tanh(float x)"@, params: seq!["float x"@] },
                OverloadDoc { label: "float2 tanh(float2 x)"@, params: seq!["float2 x"@] },
                OverloadDoc { label: "float3 tanh(float3 x)"@, params: seq!["float3 x"@] },
                OverloadDoc { label: "float4 tanh(float4 x)"@, params: seq!["float4 x"@] },
            ],
        },
        FunctionDoc {
            name: "trunc"@,
            description: "### `trunc`\n*Microsoft HLSL Intrinsic*\n\nTruncates the floating-point value to integer, dropping fractional digits."@,
            overloads: seq![
                OverloadDoc { label: "float trunc(float x)"@, params: seq!["float x"@] },
                OverloadDoc { label: "float2 trunc(float2 x)"@, params: seq!["float2 x"@] },
                OverloadDoc { label: "float3 trunc(float3 x)"@, params: seq!["float3 x"@] },
                OverloadDoc { label: "float4 trunc(float4 x)"@, params: seq!["float4 x"@] },
            ],
        },
        FunctionDoc {
            name: "isnan"@,
            description: "### `isnan`\n*Microsoft HLSL Intrinsic*\n\nReturns `true` if `x` is NaN (Not a Number)."@,
            overloads: seq![
                OverloadDoc { label: "bool isnan(float x)"@, params: seq!["float x"@] },
                OverloadDoc { label: "bool2 isnan(float2 x)"@, params: seq!["float2 x"@] },
                OverloadDoc { label: "bool3 isnan(float3 x)"@, params: seq!["float3 x"@] },
                OverloadDoc { label: "bool4 isnan(float4 x)"@, params: seq!["float4 x"@] },
            ],
        },
    ]
}

/// Builds entries 52 to 77 of the function table.
fn builtin_functions_2() -> (r: Vec<BuiltinFunction>)
    ensures
        functions_view(r@) == builtin_part_2(),
{
    let r = vec![
        BuiltinFunction {
            name: "TransformObjectToHClip",
            description: "### `TransformObjectToHClip`\n*Unity URP / HDRP*\n\nTransforms an object-space vertex position directly to Homogeneous Clip Space (CS).\n\n**Parameters:**\n* `positionOS`: Object-space position (`float3`).",
            overloads: vec![
                BuiltinOverload { label: "float4 TransformObjectToHClip(float3 positionOS)", params: vec!["float3 positionOS"] },
            ],
        },
        BuiltinFunction {
            name: "TransformObjectToWorld",
            description: "### `TransformObjectToWorld`\n*Unity URP / HDRP*\n\nTransforms a position from Object Space (OS) to World Space (WS).\n\n**Parameters:**\n* `positionOS`: Object-space position (`float3`).",
            overloads: vec![
                BuiltinOverload { label: "float3 TransformObjectToWorld(float3 positionOS)", params: vec!["float3 positionOS"] },
            ],
        },
        BuiltinFunction {
            name: "TransformWorldToObject",
            description: "### `TransformWorldToObject`\n*Unity URP / HDRP*\n\nTransforms a position from World Space (WS) to Object Space (OS).\n\n**Parameters:**\n* `positionWS`: World-space position (`float3`).",
            overloads: vec![
                BuiltinOverload { label: "float3 TransformWorldToObject(float3 positionWS)", params: vec!["float3 positionWS"] },
            ],
        },
        BuiltinFunction {
            name: "TransformWorldToHClip",
            description: "### `TransformWorldToHClip`\n*Unity URP / HDRP*\n\nTransforms a position from World Space (WS) to Homogeneous Clip Space (CS).",
            overloads: vec![
                BuiltinOverload { label: "float4 TransformWorldToHClip(float3 positionWS)", params: vec!["float3 positionWS"] },
            ],
        },
        BuiltinFunction {
            name: "TransformObjectToWorldNormal",
            description: "### `TransformObjectToWorldNormal`\n*Unity URP / HDRP*\n\nTransforms a normal vector from Object Space to normalized World Space.",
            overloads: vec![
                BuiltinOverload { label: "float3 TransformObjectToWorldNormal(float3 normalOS)", params: vec!["float3 normalOS"] },
            ],
        },
        BuiltinFunction {
            name: "SAMPLE_TEXTURE2D",
            description: "### `SAMPLE_TEXTURE2D(textureName, samplerName, coord2)`\n*Unity Modern Macro*\n\nSamples a Texture2D using the designated SamplerState.",
            overloads: vec![
                BuiltinOverload { label: "float4 SAMPLE_TEXTURE2D(Texture2D tex, SamplerState smp, float2 uv)", params: vec!["Texture2D tex", "SamplerState smp", "float2 uv"] },
            ],
        },
        BuiltinFunction {
            name: "UnpackNormal",
            description: "### `UnpackNormal`\n*Unity Built-in*\n\nUnpacks a normal map vector sampled from a standard or DXT5nm texture into a tangent-space normal vector.",
            overloads: vec![
                BuiltinOverload { label: "float3 UnpackNormal(float4 packedNormal)", params: vec!["float4 packedNormal"] },
            ],
        },
        BuiltinFunction {
            name: "UnityObjectToClipPos",
            description: "### `UnityObjectToClipPos`\n*Unity Built-in RP (Legacy)*\n\nTransforms a position from Object Space directly to Homogeneous Clip Space.\n\n$$\\text{UnityObjectToClipPos}(pos) = \\text{mul}(\\text{UNITY\\_MATRIX\\_MVP}, \\text{float4}(pos, 1.0))$$",
            overloads: vec![
                BuiltinOverload { label: "float4 UnityObjectToClipPos(float3 pos)", params: vec!["float3 pos"] },
                BuiltinOverload { label: "float4 UnityObjectToClipPos(float4 pos)", params: vec!["float4 pos"] },
            ],
        },
        BuiltinFunction {
            name: "UnityPixelSnap",
            description: "### `UnityPixelSnap`\n*Unity 2D Sprite Function*\n\nSnaps vertex position to screen pixel grid for pixel-perfect 2D rendering.\n\n**Parameters:**\n* `pos`: Clip-space position (`float4`).",
            overloads: vec![
                BuiltinOverload { label: "float4 UnityPixelSnap(float4 pos)", params: vec!["float4 pos"] },
            ],
        },
        BuiltinFunction {
            name: "UnityGet2DClipping",
            description: "### `UnityGet2DClipping`\n*Unity 2D UI Function*\n\nCalculates rectangular clip mask factor for 2D UI Canvas elements.\n\n**Parameters:**\n* `position`: Screen/World-space position (`float2`).\n* `clipRect`: Rectangular clip boundaries min/max (`float4`).",
            overloads: vec![
                BuiltinOverload { label: "float UnityGet2DClipping(float2 position, float4 clipRect)", params: vec!["float2 position", "float4 clipRect"] },
            ],
        },
        BuiltinFunction {
            name: "UnityWorldToClipPos",
            description: "### `UnityWorldToClipPos`\n*Unity Built-in RP*\n\nTransforms a position from World Space to Homogeneous Clip Space.\n\n**Parameters:**\n* `pos`: World-space position (`float3`).",
            overloads: vec![
                BuiltinOverload { label: "float4 UnityWorldToClipPos(float3 pos)", params: vec!["float3 pos"] },
            ],
        },
        BuiltinFunction {
            name: "UnityObjectToViewPos",
            description: "### `UnityObjectToViewPos`\n*Unity Built-in RP*\n\nTransforms a position from Object Space into View/Eye Space.\n\n**Parameters:**\n* `pos`: Object-space position (`float3`).",
            overloads: vec![
                BuiltinOverload { label: "float3 UnityObjectToViewPos(float3 pos)", params: vec!["float3 pos"] },
            ],
        },
        BuiltinFunction {
            name: "rcp",
            description: "### `rcp`\n*Microsoft HLSL Intrinsic*\n\nCalculates a fast per-component reciprocal $1 / x$.\n\n**Parameters:**\n* `x`: Floating point input.",
            overloads: vec![
                BuiltinOverload { label: "float rcp(float x)", params: vec!["float x"] },
                BuiltinOverload { label: "float2 rcp(float2 x)", params: vec!["float2 x"] },
                BuiltinOverload { label: "float3 rcp(float3 x)", params: vec!["float3 x"] },
                BuiltinOverload { label: "float4 rcp(float4 x)", params: vec!["float4 x"] },
            ],
        },
        BuiltinFunction {
            name: "fma",
            description: "### `fma`\n*Microsoft HLSL Intrinsic*\n\nPerforms a single-precision fused multiply-accumulate: $a \\cdot b + c$.\n\n**Parameters:**\n* `a`: Multiplicand.\n* `b`: Multiplier.\n* `c`: Addend.",
            overloads: vec![
                BuiltinOverload { label: "float fma(float a, float b, float c)", params: vec!["float a", "float b", "float c"] },
                BuiltinOverload { label: "float2 fma(float2 a, float2 b, float2 c)", params: vec!["float2 a", "float2 b", "float2 c"] },
                BuiltinOverload { label: "float3 fma(float3 a, float3 b, float3 c)", params: vec!["float3 a", "float3 b", "float3 c"] },
                BuiltinOverload { label: "float4 fma(float4 a, float4 b, float4 c)", params: vec!["float4 a", "float4 b", "float4 c"] },
            ],
        },
        BuiltinFunction {
            name: "mad",
            description: "### `mad`\n*Microsoft HLSL Intrinsic*\n\nPerforms multiply-add: $m \\cdot a + b$.\n\n**Parameters:**\n* `m`: Multiplicand.\n* `a`: Multiplier.\n* `b`: Addend.",
            overloads: vec![
                BuiltinOverload { label: "float mad(float m, float a, float b)", params: vec!["float m", "float a", "float b"] },
                BuiltinOverload { label: "float2 mad(float2 m, float2 a, float2 b)", params: vec!["float2 m", "float2 a", "float2 b"] },
                BuiltinOverload { label: "float3 mad(float3 m, float3 a, float3 b)", params: vec!["float3 m", "float3 a", "float3 b"] },
                BuiltinOverload { label: "float4 mad(float4 m, float4 a, float4 b)", params: vec!["float4 m", "float4 a", "float4 b"] },
            ],
        },
        BuiltinFunction {
            name: "modf",
            description: "### `modf`\n*Microsoft HLSL Intrinsic*\n\nSplits value `x` into fractional and integer parts.\n\n**Parameters:**\n* `x`: Input value.\n* `ip`: Output variable receiving the integer part.",
            overloads: vec![
                BuiltinOverload { label: "float modf(float x, out float ip)", params: vec!["float x", "out float ip"] },
                BuiltinOverload { label: "float2 modf(float2 x, out float2 ip)", params: vec!["float2 x", "out float2 ip"] },
                BuiltinOverload { label: "float3 modf(float3 x, out float3 ip)", params: vec!["float3 x", "out float3 ip"] },
                BuiltinOverload { label: "float4 modf(float4 x, out float4 ip)", params: vec!["float4 x", "out float4 ip"] },
            ],
        },
        BuiltinFunction {
            name: "degrees",
            description: "### `degrees`\n*Microsoft HLSL Intrinsic*\n\nConverts radians to degrees.\n\n$$\\text{degrees}(x) = x \\cdot \\frac{180}{\\pi}$$\n\n**Parameters:**\n* `x`: Angle in radians.",
            overloads: vec![
                BuiltinOverload { label: "float degrees(float x)", params: vec!["float x"] },
                BuiltinOverload { label: "float2 degrees(float2 x)", params: vec!["float2 x"] },
                BuiltinOverload { label: "float3 degrees(float3 x)", params: vec!["float3 x"] },
                BuiltinOverload { label: "float4 degrees(float4 x)", params: vec!["float4 x"] },
            ],
        },
        BuiltinFunction {
            name: "radians",
            description: "### `radians`\n*Microsoft HLSL Intrinsic*\n\nConverts degrees to radians.\n\n$$\\text{radians}(x) = x \\cdot \\frac{\\pi}{180}$$\n\n**Parameters:**\n* `x`: Angle in degrees.",
            overloads: vec![
                BuiltinOverload { label: "float radians(float x)", params: vec!["float x"] },
                BuiltinOverload { label: "float2 radians(float2 x)", params: vec!["float2 x"] },
                BuiltinOverload { label: "float3 radians(float3 x)", params: vec!["float3 x"] },
                BuiltinOverload { label: "float4 radians(float4 x)", params: vec!["float4 x"] },
            ],
        },
        BuiltinFunction {
            name: "asin",
            description: "### `asin`\n*Microsoft HLSL Intrinsic*\n\nComputes the arcsine of `x`.",
            overloads: vec![
                BuiltinOverload { label: "float asin(float x)", params: vec!["float x"] },
                BuiltinOverload { label: "float2 asin(float2 x)", params: vec!["float2 x"] },
                BuiltinOverload { label: "float3 asin(float3 x)", params: vec!["float3 x"] },
                BuiltinOverload { label: "float4 asin(float4 x)", params: vec!["float4 x"] },
            ],
        },
        BuiltinFunction {
            name: "acos",
            description: "### `acos`\n*Microsoft HLSL Intrinsic*\n\nComputes the arccosine of `x`.",
            overloads: vec![
                BuiltinOverload { label: "float acos(float x)", params: vec!["float x"] },
                BuiltinOverload { label: "float2 acos(float2 x)", params: vec!["float2 x"] },
                BuiltinOverload { label: "float3 acos(float3 x)", params: vec!["float3 x"] },
                BuiltinOverload { label: "float4 acos(float4 x)", params: vec!["float4 x"] },
            ],
        },
        BuiltinFunction {
            name: "atan",
            description: "### `atan`\n*Microsoft HLSL Intrinsic*\n\nComputes the arctangent of `x`.",
            overloads: vec![
                BuiltinOverload { label: "float atan(float x)", params: vec!["float x"] },
                BuiltinOverload { label: "float2 atan(float2 x)", params: vec!["float2 x"] },
                BuiltinOverload { label: "float3 atan(float3 x)", params: vec!["float3 x"] },
                BuiltinOverload { label: "float4 atan(float4 x)", params: vec!["float4 x"] },
            ],
        },
        BuiltinFunction {
            name: "sinh",
            description: "### `sinh`\n*Microsoft HLSL Intrinsic*\n\nComputes the hyperbolic sine of `x`.",
            overloads: vec![
                BuiltinOverload { label: "float sinh(float x)", params: vec!["float x"] },
                BuiltinOverload { label: "float2 sinh(float2 x)", params: vec!["float2 x"] },
                BuiltinOverload { label: "float3 sinh(float3 x)", params: vec!["float3 x"] },
                BuiltinOverload { label: "float4 sinh(float4 x)", params: vec!["float4 x"] },
            ],
        },
        BuiltinFunction {
            name: "cosh",
            description: "### `cosh`\n*Microsoft HLSL Intrinsic*\n\nComputes the hyperbolic cosine of `x`.",
            overloads: vec![
                BuiltinOverload { label: "float cosh(float x)", params: vec!["float x"] },
                BuiltinOverload { label: "float2 cosh(float2 x)", params: vec!["float2 x"] },
                BuiltinOverload { label: "float3 cosh(float3 x)", params: vec!["float3 x"] },
                BuiltinOverload { label: "float4 cosh(float4 x)", params: vec!["float4 x"] },
            ],
        },
        BuiltinFunction {
            name: "tanh",
            description: "### `tanh`\n*Microsoft HLSL Intrinsic*\n\nComputes the hyperbolic tangent of `x`.",
            overloads: vec![
                BuiltinOverload { label: "float tanh(float x)", params: vec!["float x"] },
                BuiltinOverload { label: "float2 tanh(float2 x)", params: vec!["float2 x"] },
                BuiltinOverload { label: "float3 tanh(float3 x)", params: vec!["float3 x"] },
                BuiltinOverload { label: "float4 tanh(float4 x)", params: vec!["float4 x"] },
            ],
        },
        BuiltinFunction {
            name: "trunc",
            description: "### `trunc`\n*Microsoft HLSL Intrinsic*\n\nTruncates the floating-point value to integer, dropping fractional digits.",
            overloads: vec![
                BuiltinOverload { label: "float trunc(float x)", params: vec!["float x"] },
                BuiltinOverload { label: "float2 trunc(float2 x)", params: vec!["float2 x"] },
                BuiltinOverload { label: "float3 trunc(float3 x)", params: vec!["float3 x"] },
                BuiltinOverload { label: "float4 trunc(float4 x)", params: vec!["float4 x"] },
            ],
        },
        BuiltinFunction {
            name: "isnan",
            description: "### `isnan`\n*Microsoft HLSL Intrinsic*\n\nReturns `true` if `x` is NaN (Not a Number).",
            overloads: vec![
                BuiltinOverload { label: "bool isnan(float x)", params: vec!["float x"] },
                BuiltinOverload { label: "bool2 isnan(float2 x)", params: vec!["float2 x"] },
                BuiltinOverload { label: "bool3 isnan(float3 x)", params: vec!["float3 x"] },
                BuiltinOverload { label: "bool4 isnan(float4 x)", params: vec!["float4 x"] },
            ],
        },
    ];
    proof {
        reveal(builtin_part_2);
        assert(r@[0].overloads@[0]@.params =~= builtin_part_2()[0].overloads[0].params);
        assert(r@[0]@.overloads =~= builtin_part_2()[0].overloads);
        assert(r@[1].overloads@[0]@.params =~= builtin_part_2()[1].overloads[0].params);
        assert(r@[1]@.overloads =~= builtin_part_2()[1].overloads);
        assert(r@[2].overloads@[0]@.params =~= builtin_part_2()[2].overloads[0].params);
        assert(r@[2]@.overloads =~= builtin_part_2()[2].overloads);
        assert(r@[3].overloads@[0]@.params =~= builtin_part_2()[3].overloads[0].params);
        assert(r@[3]@.overloads =~= builtin_part_2()[3].overloads);
        assert(r@[4].overloads@[0]@.params =~= builtin_part_2()[4].overloads[0].params);
        assert(r@[4]@.overloads =~= builtin_part_2()[4].overloads);
        assert(r@[5].overloads@[0]@.params =~= builtin_part_2()[5].overloads[0].params);
        assert(r@[5]@.overloads =~= builtin_part_2()[5].overloads);
        assert(r@[6].overloads@[0]@.params =~= builtin_part_2()[6].overloads[0].params);
        assert(r@[6]@.overloads =~= builtin_part_2()[6].overloads);
        assert(r@[7].overloads@[0]@.params =~= builtin_part_2()[7].overloads[0].params);
        assert(r@[7].overloads@[1]@.params =~= builtin_part_2()[7].overloads[1].params);
        assert(r@[7]@.overloads =~= builtin_part_2()[7].overloads);
        assert(r@[8].overloads@[0]@.params =~= builtin_part_2()[8].overloads[0].params);
        assert(r@[8]@.overloads =~= builtin_part_2()[8].overloads);
        assert(r@[9].overloads@[0]@.params =~= builtin_part_2()[9].overloads[0].params);
        assert(r@[9]@.overloads =~= builtin_part_2()[9].overloads);
        assert(r@[10].overloads@[0]@.params =~= builtin_part_2()[10].overloads[0].params);
        assert(r@[10]@.overloads =~= builtin_part_2()[10].overloads);
        assert(r@[11].overloads@[0]@.params =~= builtin_part_2()[11].overloads[0].params);
        assert(r@[11]@.overloads =~= builtin_part_2()[11].overloads);
        assert(r@[12].overloads@[0]@.params =~= builtin_part_2()[12].overloads[0].params);
        assert(r@[12].overloads@[1]@.params =~= builtin_part_2()[12].overloads[1].params);
        assert(r@[12].overloads@[2]@.params =~= builtin_part_2()[12].overloads[2].params);
        assert(r@[12].overloads@[3]@.params =~= builtin_part_2()[12].overloads[3].params);
        assert(r@[12]@.overloads =~= builtin_part_2()[12].overloads);
        assert(r@[13].overloads@[0]@.params =~= builtin_part_2()[13].overloads[0].params);
        assert(r@[13].overloads@[1]@.params =~= builtin_part_2()[13].overloads[1].params);
        assert(r@[13].overloads@[2]@.params =~= builtin_part_2()[13].overloads[2].params);
        assert(r@[13].overloads@[3]@.params =~= builtin_part_2()[13].overloads[3].params);
        assert(r@[13]@.overloads =~= builtin_part_2()[13].overloads);
        assert(r@[14].overloads@[0]@.params =~= builtin_part_2()[14].overloads[0].params);
        assert(r@[14].overloads@[1]@.params =~= builtin_part_2()[14].overloads[1].params);
        assert(r@[14].overloads@[2]@.params =~= builtin_part_2()[14].overloads[2].params);
        assert(r@[14].overloads@[3]@.params =~= builtin_part_2()[14].overloads[3].params);
        assert(r@[14]@.overloads =~= builtin_part_2()[14].overloads);
        assert(r@[15].overloads@[0]@.params =~= builtin_part_2()[15].overloads[0].params);
        assert(r@[15].overloads@[1]@.params =~= builtin_part_2()[15].overloads[1].params);
        assert(r@[15].overloads@[2]@.params =~= builtin_part_2()[15].overloads[2].params);
        assert(r@[15].overloads@[3]@.params =~= builtin_part_2()[15].overloads[3].params);
        assert(r@[15]@.overloads =~= builtin_part_2()[15].overloads);
        assert(r@[16].overloads@[0]@.params =~= builtin_part_2()[16].overloads[0].params);
        assert(r@[16].overloads@[1]@.params =~= builtin_part_2()[16].overloads[1].params);
        assert(r@[16].overloads@[2]@.params =~= builtin_part_2()[16].overloads[2].params);
        assert(r@[16].overloads@[3]@.params =~= builtin_part_2()[16].overloads[3].params);
        assert(r@[16]@.overloads =~= builtin_part_2()[16].overloads);
        assert(r@[17].overloads@[0]@.params =~= builtin_part_2()[17].overloads[0].params);
        assert(r@[17].overloads@[1]@.params =~= builtin_part_2()[17].overloads[1].params);
        assert(r@[17].overloads@[2]@.params =~= builtin_part_2()[17].overloads[2].params);
        assert(r@[17].overloads@[3]@.params =~= builtin_part_2()[17].overloads[3].params);
        assert(r@[17]@.overloads =~= builtin_part_2()[17].overloads);
        assert(r@[18].overloads@[0]@.params =~= builtin_part_2()[18].overloads[0].params);
        assert(r@[18].overloads@[1]@.params =~= builtin_part_2()[18].overloads[1].params);
        assert(r@[18].overloads@[2]@.params =~= builtin_part_2()[18].overloads[2].params);
        assert(r@[18].overloads@[3]@.params =~= builtin_part_2()[18].overloads[3].params);
        assert(r@[18]@.overloads =~= builtin_part_2()[18].overloads);
        assert(r@[19].overloads@[0]@.params =~= builtin_part_2()[19].overloads[0].params);
        assert(r@[19].overloads@[1]@.params =~= builtin_part_2()[19].overloads[1].params);
        assert(r@[19].overloads@[2]@.params =~= builtin_part_2()[19].overloads[2].params);
        assert(r@[19].overloads@[3]@.params =~= builtin_part_2()[19].overloads[3].params);
        assert(r@[19]@.overloads =~= builtin_part_2()[19].overloads);
        assert(r@[20].overloads@[0]@.params =~= builtin_part_2()[20].overloads[0].params);
        assert(r@[20].overloads@[1]@.params =~= builtin_part_2()[20].overloads[1].params);
        assert(r@[20].overloads@[2]@.params =~= builtin_part_2()[20].overloads[2].params);
        assert(r@[20].overloads@[3]@.params =~= builtin_part_2()[20].overloads[3].params);
        assert(r@[20]@.overloads =~= builtin_part_2()[20].overloads);
        assert(r@[21].overloads@[0]@.params =~= builtin_part_2()[21].overloads[0].params);
        assert(r@[21].overloads@[1]@.params =~= builtin_part_2()[21].overloads[1].params);
        assert(r@[21].overloads@[2]@.params =~= builtin_part_2()[21].overloads[2].params);
        assert(r@[21].overloads@[3]@.params =~= builtin_part_2()[21].overloads[3].params);
        assert(r@[21]@.overloads =~= builtin_part_2()[21].overloads);
        assert(r@[22].overloads@[0]@.params =~= builtin_part_2()[22].overloads[0].params);
        assert(r@[22].overloads@[1]@.params =~= builtin_part_2()[22].overloads[1].params);
        assert(r@[22].overloads@[2]@.params =~= builtin_part_2()[22].overloads[2].params);
        assert(r@[22].overloads@[3]@.params =~= builtin_part_2()[22].overloads[3].params);
        assert(r@[22]@.overloads =~= builtin_part_2()[22].overloads);
        assert(r@[23].overloads@[0]@.params =~= builtin_part_2()[23].overloads[0].params);
        assert(r@[23].overloads@[1]@.params =~= builtin_part_2()[23].overloads[1].params);
        assert(r@[23].overloads@[2]@.params =~= builtin_part_2()[23].overloads[2].params);
        assert(r@[23].overloads@[3]@.params =~= builtin_part_2()[23].overloads[3].params);
        assert(r@[23]@.overloads =~= builtin_part_2()[23].overloads);
        assert(r@[24].overloads@[0]@.params =~= builtin_part_2()[24].overloads[0].params);
        assert(r@[24].overloads@[1]@.params =~= builtin_part_2()[24].overloads[1].params);
        assert(r@[24].overloads@[2]@.params =~= builtin_part_2()[24].overloads[2].params);
        assert(r@[24].overloads@[3]@.params =~= builtin_part_2()[24].overloads[3].params);
        assert(r@[24]@.overloads =~= builtin_part_2()[24].overloads);
        assert(r@[25].overloads@[0]@.params =~= builtin_part_2()[25].overloads[0].params);
        assert(r@[25].overloads@[1]@.params =~= builtin_part_2()[25].overloads[1].params);
        assert(r@[25].overloads@[2]@.params =~= builtin_part_2()[25].overloads[2].params);
        assert(r@[25].overloads@[3]@.params =~= builtin_part_2()[25].overloads[3].params);
        assert(r@[25]@.overloads =~= builtin_part_2()[25].overloads);
        assert(functions_view(r@) =~= builtin_part_2());
    }
    r
}

/// Entries 78 to 103 of the function table.
#[verifier::opaque]
pub open spec fn builtin_part_3() -> Seq<FunctionDoc> {
    seq![
        FunctionDoc {
            name: "isinf"@,
            description: "### `isinf`\n*Microsoft HLSL Intrinsic*\n\nReturns `true` if `x` is infinite (+/- INF)."@,
            overloads: seq![
                OverloadDoc { label: "bool isinf(float x)"@, params: seq!["float x"@] },
                OverloadDoc { label: "bool2 isinf(float2 x)"@, params: seq!["float2 x"@] },
                OverloadDoc { label: "bool3 isinf(float3 x)"@, params: seq!["float3 x"@] },
                OverloadDoc { label: "bool4 isinf(float4 x)"@, params: seq!["float4 x"@] },
            ],
        },
        FunctionDoc {
            name: "isfinite"@,
            description: "### `isfinite`\n*Microsoft HLSL Intrinsic*\n\nReturns `true` if `x` is a finite number (not NaN or INF)."@,
            overloads: seq![
                OverloadDoc { label: "bool isfinite(float x)"@, params: seq!["float x"@] },
                OverloadDoc { label: "bool2 isfinite(float2 x)"@, params: seq!["float2 x"@] },
                OverloadDoc { label: "bool3 isfinite(float3 x)"@, params: seq!["float3 x"@] },
                OverloadDoc { label: "bool4 isfinite(float4 x)"@, params: seq!["float4 x"@] },
            ],
        },
        FunctionDoc {
            name: "ldexp"@,
            description: "### `ldexp`\n*Microsoft HLSL Intrinsic*\n\nComputes $x \\cdot 2^{\\text{exp}}$."@,
            overloads: seq![
                OverloadDoc { label: "float ldexp(float x, float exp)"@, params: seq!["float x"@, "float exp"@] },
                OverloadDoc { label: "float2 ldexp(float2 x, float2 exp)"@, params: seq!["float2 x"@, "float2 exp"@] },
                OverloadDoc { label: "float3 ldexp(float3 x, float3 exp)"@, params: seq!["float3 x"@, "float3 exp"@] },
                OverloadDoc { label: "float4 ldexp(float4 x, float4 exp)"@, params: seq!["float4 x"@, "float4 exp"@] },
            ],
        },
        FunctionDoc {
            name: "asfloat"@,
            description: "### `asfloat`\n*Microsoft HLSL Intrinsic*\n\nReinterprets the bit pattern of an integer/uint as a float."@,
            overloads: seq![
                OverloadDoc { label: "float asfloat(int x)"@, params: seq!["int x"@] },
                OverloadDoc { label: "float asfloat(uint x)"@, params: seq!["uint x"@] },
                OverloadDoc { label: "float4 asfloat(uint4 x)"@, params: seq!["uint4 x"@] },
            ],
        },
        FunctionDoc {
            name: "asint"@,
            description: "### `asint`\n*Microsoft HLSL Intrinsic*\n\nReinterprets the bit pattern of a float/uint as a signed integer."@,
            overloads: seq![
                OverloadDoc { label: "int asint(float x)"@, params: seq!["float x"@] },
                OverloadDoc { label: "int asint(uint x)"@, params: seq!["uint x"@] },
                OverloadDoc { label: "int4 asint(float4 x)"@, params: seq!["float4 x"@] },
            ],
        },
        FunctionDoc {
            name: "asuint"@,
            description: "### `asuint`\n*Microsoft HLSL Intrinsic*\n\nReinterprets the bit pattern of a float/int as an unsigned integer."@,
            overloads: seq![
                OverloadDoc { label: "uint asuint(float x)"@, params: seq!["float x"@] },
                OverloadDoc { label: "uint asuint(int x)"@, params: seq!["int x"@] },
                OverloadDoc { label: "uint4 asuint(float4 x)"@, params: seq!["float4 x"@] },
            ],
        },
        FunctionDoc {
            name: "countbits"@,
            description: "### `countbits`\n*Microsoft HLSL Intrinsic*\n\nCounts the number of set bits (1s) in an integer."@,
            overloads: seq![
                OverloadDoc { label: "uint countbits(uint value)"@, params: seq!["uint value"@] },
                OverloadDoc { label: "uint2 countbits(uint2 value)"@, params: seq!["uint2 value"@] },
                OverloadDoc { label: "uint3 countbits(uint3 value)"@, params: seq!["uint3 value"@] },
                OverloadDoc { label: "uint4 countbits(uint4 value)"@, params: seq!["uint4 value"@] },
            ],
        },
        FunctionDoc {
            name: "firstbitlow"@,
            description: "### `firstbitlow`\n*Microsoft HLSL Intrinsic*\n\nReturns the index of the first set bit (1) starting from bit 0 (least significant bit)."@,
            overloads: seq![
                OverloadDoc { label: "uint firstbitlow(uint value)"@, params: seq!["uint value"@] },
                OverloadDoc { label: "uint4 firstbitlow(uint4 value)"@, params: seq!["uint4 value"@] },
            ],
        },
        FunctionDoc {
            name: "firstbithigh"@,
            description: "### `firstbithigh`\n*Microsoft HLSL Intrinsic*\n\nReturns the index of the first set bit (1) starting from bit 31 (most significant bit)."@,
            overloads: seq![
                OverloadDoc { label: "uint firstbithigh(uint value)"@, params: seq!["uint value"@] },
                OverloadDoc { label: "uint4 firstbithigh(uint4 value)"@, params: seq!["uint4 value"@] },
            ],
        },
        FunctionDoc {
            name: "reversebits"@,
            description: "### `reversebits`\n*Microsoft HLSL Intrinsic*\n\nReverses the bit order of the specified 32-bit integer."@,
            overloads: seq![
                OverloadDoc { label: "uint reversebits(uint value)"@, params: seq!["uint value"@] },
                OverloadDoc { label: "uint4 reversebits(uint4 value)"@, params: seq!["uint4 value"@] },
            ],
        },
        FunctionDoc {
            name: "f32tof16"@,
            description: "### `f32tof16`\n*Microsoft HLSL Intrinsic*\n\nConverts a 32-bit float to a 16-bit half precision float encoded as a uint."@,
            overloads: seq![
                OverloadDoc { label: "uint f32tof16(float value)"@, params: seq!["float value"@] },
                OverloadDoc { label: "uint4 f32tof16(float4 value)"@, params: seq!["float4 value"@] },
            ],
        },
        FunctionDoc {
            name: "f16tof32"@,
            description: "### `f16tof32`\n*Microsoft HLSL Intrinsic*\n\nConverts a 16-bit half precision float encoded in uint to a 32-bit float."@,
            overloads: seq![
                OverloadDoc { label: "float f16tof32(uint value)"@, params: seq!["uint value"@] },
                OverloadDoc { label: "float4 f16tof32(uint4 value)"@, params: seq!["uint4 value"@] },
            ],
        },
        FunctionDoc {
            name: "WaveIsFirstLane"@,
            description: "### `WaveIsFirstLane`\n*HLSL Wave Intrinsic (SM 6.0+)*\n\nReturns `true` only for the active lane with the smallest index in the current wave."@,
            overloads: seq![
                OverloadDoc { label: "bool WaveIsFirstLane()"@, params: seq![] },
            ],
        },
        FunctionDoc {
            name: "WaveGetLaneCount"@,
            description: "### `WaveGetLaneCount`\n*HLSL Wave Intrinsic (SM 6.0+)*\n\nReturns the number of lanes in the current wave."@,
            overloads: seq![
                OverloadDoc { label: "uint WaveGetLaneCount()"@, params: seq![] },
            ],
        },
        FunctionDoc {
            name: "WaveGetLaneIndex"@,
            description: "### `WaveGetLaneIndex`\n*HLSL Wave Intrinsic (SM 6.0+)*\n\nReturns the lane index of the executing thread within the current wave."@,
            overloads: seq![
                OverloadDoc { label: "uint WaveGetLaneIndex()"@, params: seq![] },
            ],
        },
        FunctionDoc {
            name: "WaveActiveAnyTrue"@,
            description: "### `WaveActiveAnyTrue`\n*HLSL Wave Intrinsic (SM 6.0+)*\n\nReturns `true` if `expr` evaluates to true for any active lane in the current wave."@,
            overloads: seq![
                OverloadDoc { label: "bool WaveActiveAnyTrue(bool expr)"@, params: seq!["bool expr"@] },
            ],
        },
        FunctionDoc {
            name: "WaveActiveAllTrue"@,
            description: "### `WaveActiveAllTrue`\n*HLSL Wave Intrinsic (SM 6.0+)*\n\nReturns `true` if `expr` evaluates to true for all active lanes in the current wave."@,
            overloads: seq![
                OverloadDoc { label: "bool WaveActiveAllTrue(bool expr)"@, params: seq!["bool expr"@] },
            ],
        },
        FunctionDoc {
            name: "WaveActiveSum"@,
            description: "### `WaveActiveSum`\n*HLSL Wave Intrinsic (SM 6.0+)*\n\nSums up value across all active lanes in the wave."@,
            overloads: seq![
                OverloadDoc { label: "float WaveActiveSum(float expr)"@, params: seq!["float expr"@] },
                OverloadDoc { label: "float4 WaveActiveSum(float4 expr)"@, params: seq!["float4 expr"@] },
                OverloadDoc { label: "uint WaveActiveSum(uint expr)"@, params: seq!["uint expr"@] },
            ],
        },
        FunctionDoc {
            name: "WaveActiveBallot"@,
            description: "### `WaveActiveBallot`\n*HLSL Wave Intrinsic (SM 6.0+)*\n\nReturns a 4-component unsigned integer bitmask representing evaluation of `expr` for all active lanes in the wave."@,
            overloads: seq![
                OverloadDoc { label: "uint4 WaveActiveBallot(bool expr)"@, params: seq!["bool expr"@] },
            ],
        },
        FunctionDoc {
            name: "GetMainLight"@,
            description: "### `GetMainLight`\n*Unity URP / HDRP*\n\nRetrieves lighting information (direction, color, shadow attenuation) for the primary directional light."@,
            overloads: seq![
                OverloadDoc { label: "Light GetMainLight()"@, params: seq![] },
                OverloadDoc { label: "Light GetMainLight(float4 shadowCoord)"@, params: seq!["float4 shadowCoord"@] },
            ],
        },
        FunctionDoc {
            name: "GetAdditionalLight"@,
            description: "### `GetAdditionalLight`\n*Unity URP*\n\nRetrieves lighting data for an additional light (point, spot)."@,
            overloads: seq![
                OverloadDoc { label: "Light GetAdditionalLight(uint i, float3 positionWS)"@, params: seq!["uint i"@, "float3 positionWS"@] },
            ],
        },
        FunctionDoc {
            name: "GetAdditionalLightsCount"@,
            description: "### `GetAdditionalLightsCount`\n*Unity URP*\n\nReturns the number of additional per-pixel lights affecting the object."@,
            overloads: seq![
                OverloadDoc { label: "uint GetAdditionalLightsCount()"@, params: seq![] },
            ],
        },
        FunctionDoc {
            name: "ComputeFogFactor"@,
            description: "### `ComputeFogFactor`\n*Unity URP*\n\nCalculates the fog blend factor based on clip space depth."@,
            overloads: seq![
                OverloadDoc { label: "float ComputeFogFactor(float z)"@, params: seq!["float z"@] },
            ],
        },
        FunctionDoc {
            name: "MixFog"@,
            description: "### `MixFog`\n*Unity URP*\n\nMixes fog color into the final fragment color using calculated fog factor."@,
            overloads: seq![
                OverloadDoc { label: "float3 MixFog(float3 fragColor, float fogFactor)"@, params: seq!["float3 fragColor"@, "float fogFactor"@] },
            ],
        },
        FunctionDoc {
            name: "TransformWorldToViewNormal"@,
            description: "### `TransformWorldToViewNormal`\n*Unity URP*\n\nTransforms a normal vector from World Space to View Space."@,
            overloads: seq![
                OverloadDoc { label: "float3 TransformWorldToViewNormal(float3 normalWS, bool doNormalize = true)"@, params: seq!["float3 normalWS"@, "bool doNormalize"@] },
            ],
        },
        FunctionDoc {
            name: "UnpackNormalScale"@,
            description: "### `UnpackNormalScale`\n*Unity Built-in*\n\nUnpacks a tangent space normal and scales its intensity with `scale`."@,
            overloads: seq![
                OverloadDoc { label: "float3 UnpackNormalScale(float4 packedNormal, float bumpScale)"@, params: seq!["float4 packedNormal"@, "float bumpScale"@] },
            ],
        },
    ]
}

/// Builds entries 78 to 103 of the function table.
fn builtin_functions_3() -> (r: Vec<BuiltinFunction>)
    ensures
        functions_view(r@) == builtin_part_3(),
{
    let r = vec![
        BuiltinFunction {
            name: "isinf",
            description: "### `isinf`\n*Microsoft HLSL Intrinsic*\n\nReturns `true` if `x` is infinite (+/- INF).",
            overloads: vec![
                BuiltinOverload { label: "bool isinf(float x)", params: vec!["float x"] },
                BuiltinOverload { label: "bool2 isinf(float2 x)", params: vec!["float2 x"] },
                BuiltinOverload { label: "bool3 isinf(float3 x)", params: vec!["float3 x"] },
                BuiltinOverload { label: "bool4 isinf(float4 x)", params: vec!["float4 x"] },
            ],
        },
        BuiltinFunction {
            name: "isfinite",
            description: "### `isfinite`\n*Microsoft HLSL Intrinsic*\n\nReturns `true` if `x` is a finite number (not NaN or INF).",
            overloads: vec![
                BuiltinOverload { label: "bool isfinite(float x)", params: vec!["float x"] },
                BuiltinOverload { label: "bool2 isfinite(float2 x)", params: vec!["float2 x"] },
                BuiltinOverload { label: "bool3 isfinite(float3 x)", params: vec!["float3 x"] },
                BuiltinOverload { label: "bool4 isfinite(float4 x)", params: vec!["float4 x"] },
            ],
        },
        BuiltinFunction {
            name: "ldexp",
            description: "### `ldexp`\n*Microsoft HLSL Intrinsic*\n\nComputes $x \\cdot 2^{\\text{exp}}$.",
            overloads: vec![
                BuiltinOverload { label: "float ldexp(float x, float exp)", params: vec!["float x", "float exp"] },
                BuiltinOverload { label: "float2 ldexp(float2 x, float2 exp)", params: vec!["float2 x", "float2 exp"] },
                BuiltinOverload { label: "float3 ldexp(float3 x, float3 exp)", params: vec!["float3 x", "float3 exp"] },
                BuiltinOverload { label: "float4 ldexp(float4 x, float4 exp)", params: vec!["float4 x", "float4 exp"] },
            ],
        },
        BuiltinFunction {
            name: "asfloat",
            description: "### `asfloat`\n*Microsoft HLSL Intrinsic*\n\nReinterprets the bit pattern of an integer/uint as a float.",
            overloads: vec![
                BuiltinOverload { label: "float asfloat(int x)", params: vec!["int x"] },
                BuiltinOverload { label: "float asfloat(uint x)", params: vec!["uint x"] },
                BuiltinOverload { label: "float4 asfloat(uint4 x)", params: vec!["uint4 x"] },
            ],
        },
        BuiltinFunction {
            name: "asint",
            description: "### `asint`\n*Microsoft HLSL Intrinsic*\n\nReinterprets the bit pattern of a float/uint as a signed integer.",
            overloads: vec![
                BuiltinOverload { label: "int asint(float x)", params: vec!["float x"] },
                BuiltinOverload { label: "int asint(uint x)", params: vec!["uint x"] },
                BuiltinOverload { label: "int4 asint(float4 x)", params: vec!["float4 x"] },
            ],
        },
        BuiltinFunction {
            name: "asuint",
            description: "### `asuint`\n*Microsoft HLSL Intrinsic*\n\nReinterprets the bit pattern of a float/int as an unsigned integer.",
            overloads: vec![
                BuiltinOverload { label: "uint asuint(float x)", params: vec!["float x"] },
                BuiltinOverload { label: "uint asuint(int x)", params: vec!["int x"] },
                BuiltinOverload { label: "uint4 asuint(float4 x)", params: vec!["float4 x"] },
            ],
        },
        BuiltinFunction {
            name: "countbits",
            description: "### `countbits`\n*Microsoft HLSL Intrinsic*\n\nCounts the number of set bits (1s) in an integer.",
            overloads: vec![
                BuiltinOverload { label: "uint countbits(uint value)", params: vec!["uint value"] },
                BuiltinOverload { label: "uint2 countbits(uint2 value)", params: vec!["uint2 value"] },
                BuiltinOverload { label: "uint3 countbits(uint3 value)", params: vec!["uint3 value"] },
                BuiltinOverload { label: "uint4 countbits(uint4 value)", params: vec!["uint4 value"] },
            ],
        },
        BuiltinFunction {
            name: "firstbitlow",
            description: "### `firstbitlow`\n*Microsoft HLSL Intrinsic*\n\nReturns the index of the first set bit (1) starting from bit 0 (least significant bit).",
            overloads: vec![
                BuiltinOverload { label: "uint firstbitlow(uint value)", params: vec!["uint value"] },
                BuiltinOverload { label: "uint4 firstbitlow(uint4 value)", params: vec!["uint4 value"] },
            ],
        },
        BuiltinFunction {
            name: "firstbithigh",
            description: "### `firstbithigh`\n*Microsoft HLSL Intrinsic*\n\nReturns the index of the first set bit (1) starting from bit 31 (most significant bit).",
            overloads: vec![
                BuiltinOverload { label: "uint firstbithigh(uint value)", params: vec!["uint value"] },
                BuiltinOverload { label: "uint4 firstbithigh(uint4 value)", params: vec!["uint4 value"] },
            ],
        },
        BuiltinFunction {
            name: "reversebits",
            description: "### `reversebits`\n*Microsoft HLSL Intrinsic*\n\nReverses the bit order of the specified 32-bit integer.",
            overloads: vec![
                BuiltinOverload { label: "uint reversebits(uint value)", params: vec!["uint value"] },
                BuiltinOverload { label: "uint4 reversebits(uint4 value)", params: vec!["uint4 value"] },
            ],
        },
        BuiltinFunction {
            name: "f32tof16",
            description: "### `f32tof16`\n*Microsoft HLSL Intrinsic*\n\nConverts a 32-bit float to a 16-bit half precision float encoded as a uint.",
            overloads: vec![
                BuiltinOverload { label: "uint f32tof16(float value)", params: vec!["float value"] },
                BuiltinOverload { label: "uint4 f32tof16(float4 value)", params: vec!["float4 value"] },
            ],
        },
        BuiltinFunction {
            name: "f16tof32",
            description: "### `f16tof32`\n*Microsoft HLSL Intrinsic*\n\nConverts a 16-bit half precision float encoded in uint to a 32-bit float.",
            overloads: vec![
                BuiltinOverload { label: "float f16tof32(uint value)", params: vec!["uint value"] },
                BuiltinOverload { label: "float4 f16tof32(uint4 value)", params: vec!["uint4 value"] },
            ],
        },
        BuiltinFunction {
            name: "WaveIsFirstLane",
            description: "### `WaveIsFirstLane`\n*HLSL Wave Intrinsic (SM 6.0+)*\n\nReturns `true` only for the active lane with the smallest index in the current wave.",
            overloads: vec![
                BuiltinOverload { label: "bool WaveIsFirstLane()", params: vec![] },
            ],
        },
        BuiltinFunction {
            name: "WaveGetLaneCount",
            description: "### `WaveGetLaneCount`\n*HLSL Wave Intrinsic (SM 6.0+)*\n\nReturns the number of lanes in the current wave.",
            overloads: vec![
                BuiltinOverload { label: "uint WaveGetLaneCount()", params: vec![] },
            ],
        },
        BuiltinFunction {
            name: "WaveGetLaneIndex",
            description: "### `WaveGetLaneIndex`\n*HLSL Wave Intrinsic (SM 6.0+)*\n\nReturns the lane index of the executing thread within the current wave.",
            overloads: vec![
                BuiltinOverload { label: "uint WaveGetLaneIndex()", params: vec![] },
            ],
        },
        BuiltinFunction {
            name: "WaveActiveAnyTrue",
            description: "### `WaveActiveAnyTrue`\n*HLSL Wave Intrinsic (SM 6.0+)*\n\nReturns `true` if `expr` evaluates to true for any active lane in the current wave.",
            overloads: vec![
                BuiltinOverload { label: "bool WaveActiveAnyTrue(bool expr)", params: vec!["bool expr"] },
            ],
        },
        BuiltinFunction {
            name: "WaveActiveAllTrue",
            description: "### `WaveActiveAllTrue`\n*HLSL Wave Intrinsic (SM 6.0+)*\n\nReturns `true` if `expr` evaluates to true for all active lanes in the current wave.",
            overloads: vec![
                BuiltinOverload { label: "bool WaveActiveAllTrue(bool expr)", params: vec!["bool expr"] },
            ],
        },
        BuiltinFunction {
            name: "WaveActiveSum",
            description: "### `WaveActiveSum`\n*HLSL Wave Intrinsic (SM 6.0+)*\n\nSums up value across all active lanes in the wave.",
            overloads: vec![
                BuiltinOverload { label: "float WaveActiveSum(float expr)", params: vec!["float expr"] },
                BuiltinOverload { label: "float4 WaveActiveSum(float4 expr)", params: vec!["float4 expr"] },
                BuiltinOverload { label: "uint WaveActiveSum(uint expr)", params: vec!["uint expr"] },
            ],
        },
        BuiltinFunction {
            name: "WaveActiveBallot",
            description: "### `WaveActiveBallot`\n*HLSL Wave Intrinsic (SM 6.0+)*\n\nReturns a 4-component unsigned integer bitmask representing evaluation of `expr` for all active lanes in the wave.",
            overloads: vec![
                BuiltinOverload { label: "uint4 WaveActiveBallot(bool expr)", params: vec!["bool expr"] },
            ],
        },
        BuiltinFunction {
            name: "GetMainLight",
            description: "### `GetMainLight`\n*Unity URP / HDRP*\n\nRetrieves lighting information (direction, color, shadow attenuation) for the primary directional light.",
            overloads: vec![
                BuiltinOverload { label: "Light GetMainLight()", params: vec![] },
                BuiltinOverload { label: "Light GetMainLight(float4 shadowCoord)", params: vec!["float4 shadowCoord"] },
            ],
        },
        BuiltinFunction {
            name: "GetAdditionalLight",
            description: "### `GetAdditionalLight`\n*Unity URP*\n\nRetrieves lighting data for an additional light (point, spot).",
            overloads: vec![
                BuiltinOverload { label: "Light GetAdditionalLight(uint i, float3 positionWS)", params: vec!["uint i", "float3 positionWS"] },
            ],
        },
        BuiltinFunction {
            name: "GetAdditionalLightsCount",
            description: "### `GetAdditionalLightsCount`\n*Unity URP*\n\nReturns the number of additional per-pixel lights affecting the object.",
            overloads: vec![
                BuiltinOverload { label: "uint GetAdditionalLightsCount()", params: vec![] },
            ],
        },
        BuiltinFunction {
            name: "ComputeFogFactor",
            description: "### `ComputeFogFactor`\n*Unity URP*\n\nCalculates the fog blend factor based on clip space depth.",
            overloads: vec![
                BuiltinOverload { label: "float ComputeFogFactor(float z)", params: vec!["float z"] },
            ],
        },
        BuiltinFunction {
            name: "MixFog",
            description: "### `MixFog`\n*Unity URP*\n\nMixes fog color into the final fragment color using calculated fog factor.",
            overloads: vec![
                BuiltinOverload { label: "float3 MixFog(float3 fragColor, float fogFactor)", params: vec!["float3 fragColor", "float fogFactor"] },
            ],
        },
        BuiltinFunction {
            name: "TransformWorldToViewNormal",
            description: "### `TransformWorldToViewNormal`\n*Unity URP*\n\nTransforms a normal vector from World Space to View Space.",
            overloads: vec![
                BuiltinOverload { label: "float3 TransformWorldToViewNormal(float3 normalWS, bool doNormalize = true)", params: vec!["float3 normalWS", "bool doNormalize"] },
            ],
        },
        BuiltinFunction {
            name: "UnpackNormalScale",
            description: "### `UnpackNormalScale`\n*Unity Built-in*\n\nUnpacks a tangent space normal and scales its intensity with `scale`.",
            overloads: vec![
                BuiltinOverload { label: "float3 UnpackNormalScale(float4 packedNormal, float bumpScale)", params: vec!["float4 packedNormal", "float bumpScale"] },
            ],
        },
    ];
    proof {
        reveal(builtin_part_3);
        assert(r@[0].overloads@[0]@.params =~= builtin_part_3()[0].overloads[0].params);
        assert(r@[0].overloads@[1]@.params =~= builtin_part_3()[0].overloads[1].params);
        assert(r@[0].overloads@[2]@.params =~= builtin_part_3()[0].overloads[2].params);
        assert(r@[0].overloads@[3]@.params =~= builtin_part_3()[0].overloads[3].params);
        assert(r@[0]@.overloads =~= builtin_part_3()[0].overloads);
        assert(r@[1].overloads@[0]@.params =~= builtin_part_3()[1].overloads[0].params);
        assert(r@[1].overloads@[1]@.params =~= builtin_part_3()[1].overloads[1].params);
        assert(r@[1].overloads@[2]@.params =~= builtin_part_3()[1].overloads[2].params);
        assert(r@[1].overloads@[3]@.params =~= builtin_part_3()[1].overloads[3].params);
        assert(r@[1]@.overloads =~= builtin_part_3()[1].overloads);
        assert(r@[2].overloads@[0]@.params =~= builtin_part_3()[2].overloads[0].params);
        assert(r@[2].overloads@[1]@.params =~= builtin_part_3()[2].overloads[1].params);
        assert(r@[2].overloads@[2]@.params =~= builtin_part_3()[2].overloads[2].params);
        assert(r@[2].overloads@[3]@.params =~= builtin_part_3()[2].overloads[3].params);
        assert(r@[2]@.overloads =~= builtin_part_3()[2].overloads);
        assert(r@[3].overloads@[0]@.params =~= builtin_part_3()[3].overloads[0].params);
        assert(r@[3].overloads@[1]@.params =~= builtin_part_3()[3].overloads[1].params);
        assert(r@[3].overloads@[2]@.params =~= builtin_part_3()[3].overloads[2].params);
        assert(r@[3]@.overloads =~= builtin_part_3()[3].overloads);
        assert(r@[4].overloads@[0]@.params =~= builtin_part_3()[4].overloads[0].params);
        assert(r@[4].overloads@[1]@.params =~= builtin_part_3()[4].overloads[1].params);
        assert(r@[4].overloads@[2]@.params =~= builtin_part_3()[4].overloads[2].params);
        assert(r@[4]@.overloads =~= builtin_part_3()[4].overloads);
        assert(r@[5].overloads@[0]@.params =~= builtin_part_3()[5].overloads[0].params);
        assert(r@[5].overloads@[1]@.params =~= builtin_part_3()[5].overloads[1].params);
        assert(r@[5].overloads@[2]@.params =~= builtin_part_3()[5].overloads[2].params);
        assert(r@[5]@.overloads =~= builtin_part_3()[5].overloads);
        assert(r@[6].overloads@[0]@.params =~= builtin_part_3()[6].overloads[0].params);
        assert(r@[6].overloads@[1]@.params =~= builtin_part_3()[6].overloads[1].params);
        assert(r@[6].overloads@[2]@.params =~= builtin_part_3()[6].overloads[2].params);
        assert(r@[6].overloads@[3]@.params =~= builtin_part_3()[6].overloads[3].params);
        assert(r@[6]@.overloads =~= builtin_part_3()[6].overloads);
        assert(r@[7].overloads@[0]@.params =~= builtin_part_3()[7].overloads[0].params);
        assert(r@[7].overloads@[1]@.params =~= builtin_part_3()[7].overloads[1].params);
        assert(r@[7]@.overloads =~= builtin_part_3()[7].overloads);
        assert(r@[8].overloads@[0]@.params =~= builtin_part_3()[8].overloads[0].params);
        assert(r@[8].overloads@[1]@.params =~= builtin_part_3()[8].overloads[1].params);
        assert(r@[8]@.overloads =~= builtin_part_3()[8].overloads);
        assert(r@[9].overloads@[0]@.params =~= builtin_part_3()[9].overloads[0].params);
        assert(r@[9].overloads@[1]@.params =~= builtin_part_3()[9].overloads[1].params);
        assert(r@[9]@.overloads =~= builtin_part_3()[9].overloads);
        assert(r@[10].overloads@[0]@.params =~= builtin_part_3()[10].overloads[0].params);
        assert(r@[10].overloads@[1]@.params =~= builtin_part_3()[10].overloads[1].params);
        assert(r@[10]@.overloads =~= builtin_part_3()[10].overloads);
        assert(r@[11].overloads@[0]@.params =~= builtin_part_3()[11].overloads[0].params);
        assert(r@[11].overloads@[1]@.params =~= builtin_part_3()[11].overloads[1].params);
        assert(r@[11]@.overloads =~= builtin_part_3()[11].overloads);
        assert(r@[12].overloads@[0]@.params =~= builtin_part_3()[12].overloads[0].params);
        assert(r@[12]@.overloads =~= builtin_part_3()[12].overloads);
        assert(r@[13].overloads@[0]@.params =~= builtin_part_3()[13].overloads[0].params);
        assert(r@[13]@.overloads =~= builtin_part_3()[13].overloads);
        assert(r@[14].overloads@[0]@.params =~= builtin_part_3()[14].overloads[0].params);
        assert(r@[14]@.overloads =~= builtin_part_3()[14].overloads);
        assert(r@[15].overloads@[0]@.params =~= builtin_part_3()[15].overloads[0].params);
        assert(r@[15]@.overloads =~= builtin_part_3()[15].overloads);
        assert(r@[16].overloads@[0]@.params =~= builtin_part_3()[16].overloads[0].params);
        assert(r@[16]@.overloads =~= builtin_part_3()[16].overloads);
        assert(r@[17].overloads@[0]@.params =~= builtin_part_3()[17].overloads[0].params);
        assert(r@[17].overloads@[1]@.params =~= builtin_part_3()[17].overloads[1].params);
        assert(r@[17].overloads@[2]@.params =~= builtin_part_3()[17].overloads[2].params);
        assert(r@[17]@.overloads =~= builtin_part_3()[17].overloads);
        assert(r@[18].overloads@[0]@.params =~= builtin_part_3()[18].overloads[0].params);
        assert(r@[18]@.overloads =~= builtin_part_3()[18].overloads);
        assert(r@[19].overloads@[0]@.params =~= builtin_part_3()[19].overloads[0].params);
        assert(r@[19].overloads@[1]@.params =~= builtin_part_3()[19].overloads[1].params);
        assert(r@[19]@.overloads =~= builtin_part_3()[19].overloads);
        assert(r@[20].overloads@[0]@.params =~= builtin_part_3()[20].overloads[0].params);
        assert(r@[20]@.overloads =~= builtin_part_3()[20].overloads);
        assert(r@[21].overloads@[0]@.params =~= builtin_part_3()[21].overloads[0].params);
        assert(r@[21]@.overloads =~= builtin_part_3()[21].overloads);
        assert(r@[22].overloads@[0]@.params =~= builtin_part_3()[22].overloads[0].params);
        assert(r@[22]@.overloads =~= builtin_part_3()[22].overloads);
        assert(r@[23].overloads@[0]@.params =~= builtin_part_3()[23].overloads[0].params);
        assert(r@[23]@.overloads =~= builtin_part_3()[23].overloads);
        assert(r@[24].overloads@[0]@.params =~= builtin_part_3()[24].overloads[0].params);
        assert(r@[24]@.overloads =~= builtin_part_3()[24].overloads);
        assert(r@[25].overloads@[0]@.params =~= builtin_part_3()[25].overloads[0].params);
        assert(r@[25]@.overloads =~= builtin_part_3()[25].overloads);
        assert(functions_view(r@) =~= builtin_part_3());
    }
    r
}

/// Entries 104 to 129 of the function table.
#[verifier::opaque]
pub open spec fn builtin_part_4() -> Seq<FunctionDoc> {
    seq![
        FunctionDoc {
            name: "UnityObjectToWorldNormal"@,
            description: "### `UnityObjectToWorldNormal`\n*Unity Built-in RP*\n\nTransforms an object-space normal to normalized world space."@,
            overloads: seq![
                OverloadDoc { label: "float3 UnityObjectToWorldNormal(float3 norm)"@, params: seq!["float3 norm"@] },
            ],
        },
        FunctionDoc {
            name: "UnityObjectToWorldDir"@,
            description: "### `UnityObjectToWorldDir`\n*Unity Built-in RP*\n\nTransforms an object-space direction vector to normalized world space."@,
            overloads: seq![
                OverloadDoc { label: "float3 UnityObjectToWorldDir(float3 dir)"@, params: seq!["float3 dir"@] },
            ],
        },
        FunctionDoc {
            name: "RotateAboutAxis"@,
            description: "### `RotateAboutAxis`\n*Unreal Engine Shader Function*\n\nRotates vector `Position` around `NormalizedRotationAxisAndAngle.xyz` by angle `w` (in radians)."@,
            overloads: seq![
                OverloadDoc { label: "float3 RotateAboutAxis(float4 NormalizedRotationAxisAndAngle, float3 PositionOnAxis, float3 Position)"@, params: seq!["float4 NormalizedRotationAxisAndAngle"@, "float3 PositionOnAxis"@, "float3 Position"@] },
            ],
        },
        FunctionDoc {
            name: "GetWorldPosition"@,
            description: "### `GetWorldPosition`\n*Unreal Engine Material Expression*\n\nReturns the absolute world space position of the current vertex/pixel."@,
            overloads: seq![
                OverloadDoc { label: "float3 GetWorldPosition(FMaterialVertexParameters Parameters)"@, params: seq!["FMaterialVertexParameters Parameters"@] },
                OverloadDoc { label: "float3 GetWorldPosition(FMaterialPixelParameters Parameters)"@, params: seq!["FMaterialPixelParameters Parameters"@] },
            ],
        },
        FunctionDoc {
            name: "LinearToSrgb"@,
            description: "### `LinearToSrgb`\n*Unreal Engine / Color Transform*\n\nConverts color from Linear space to gamma sRGB space."@,
            overloads: seq![
                OverloadDoc { label: "float3 LinearToSrgb(float3 Color)"@, params: seq!["float3 Color"@] },
            ],
        },
        FunctionDoc {
            name: "SrgbToLinear"@,
            description: "### `SrgbToLinear`\n*Unreal Engine / Color Transform*\n\nConverts color from gamma sRGB space to Linear space."@,
            overloads: seq![
                OverloadDoc { label: "float3 SrgbToLinear(float3 Color)"@, params: seq!["float3 Color"@] },
            ],
        },
        FunctionDoc {
            name: "Luminance"@,
            description: "### `Luminance`\n*Unreal Engine / Common Utility*\n\nCalculates perceptual photometric luminance (grayscale intensity) of an RGB color."@,
            overloads: seq![
                OverloadDoc { label: "float Luminance(float3 LinearColor)"@, params: seq!["float3 LinearColor"@] },
            ],
        },
        FunctionDoc {
            name: "faceforward"@,
            description: "### `faceforward`\n*Microsoft HLSL Intrinsic*\n\nFlips a surface normal `n` to face away from the incident vector `i` relative to geometric normal `ng`.\n\n$$\\text{faceforward}(n, i, ng) = -n \\cdot \\text{sign}(\\text{dot}(i, ng))$$\n\n**Parameters:**\n* `n`: Vector to orient.\n* `i`: Incident vector.\n* `ng`: Reference geometric normal vector."@,
            overloads: seq![
                OverloadDoc { label: "float faceforward(float n, float i, float ng)"@, params: seq!["float n"@, "float i"@, "float ng"@] },
                OverloadDoc { label: "float2 faceforward(float2 n, float2 i, float2 ng)"@, params: seq!["float2 n"@, "float2 i"@, "float2 ng"@] },
                OverloadDoc { label: "float3 faceforward(float3 n, float3 i, float3 ng)"@, params: seq!["float3 n"@, "float3 i"@, "float3 ng"@] },
                OverloadDoc { label: "float4 faceforward(float4 n, float4 i, float4 ng)"@, params: seq!["float4 n"@, "float4 i"@, "float4 ng"@] },
            ],
        },
        FunctionDoc {
            name: "lit"@,
            description: "### `lit`\n*Microsoft HLSL Intrinsic*\n\nComputes lighting coefficients for ambient, diffuse, and specular illumination.\n\nReturns a `float4(ambient, diffuse, specular, 1.0)`.\n\n**Parameters:**\n* `n_dot_l`: Dot product between surface normal and light direction.\n* `n_dot_h`: Dot product between surface normal and half-angle vector.\n* `m`: Specular exponent."@,
            overloads: seq![
                OverloadDoc { label: "float4 lit(float n_dot_l, float n_dot_h, float m)"@, params: seq!["float n_dot_l"@, "float n_dot_h"@, "float m"@] },
            ],
        },
        FunctionDoc {
            name: "dst"@,
            description: "### `dst`\n*Microsoft HLSL Intrinsic*\n\nCalculates a distance/attenuation vector `(1.0, src0.y * src1.y, src0.z, src1.w)` from distance terms.\n\n**Parameters:**\n* `src0`: First source vector containing `(1.0, d, d^2, _)`. \n* `src1`: Second source vector containing `(1.0, 1/d, 1/d^2, _)`. "@,
            overloads: seq![
                OverloadDoc { label: "float4 dst(float4 src0, float4 src1)"@, params: seq!["float4 src0"@, "float4 src1"@] },
            ],
        },
        FunctionDoc {
            name: "msad4"@,
            description: "### `msad4`\n*Microsoft HLSL Intrinsic*\n\nCompares a 4-byte reference value and an 8-byte source value, accumulating the sum of absolute differences.\n\n**Parameters:**\n* `reference`: 32-bit integer containing 4 reference bytes.\n* `source`: `uint2` containing 8 source bytes.\n* `accum`: `uint4` accumulator vector."@,
            overloads: seq![
                OverloadDoc { label: "uint4 msad4(uint reference, uint2 source, uint4 accum)"@, params: seq!["uint reference"@, "uint2 source"@, "uint4 accum"@] },
            ],
        },
        FunctionDoc {
            name: "ubfe"@,
            description: "### `ubfe`\n*Microsoft HLSL Intrinsic*\n\nExtracts a bitfield from an unsigned integer without sign extension.\n\n**Parameters:**\n* `width`: Bitfield width in bits.\n* `offset`: Bitfield start offset in bits.\n* `value`: Integer value to extract from."@,
            overloads: seq![
                OverloadDoc { label: "uint ubfe(uint width, uint offset, uint value)"@, params: seq!["uint width"@, "uint offset"@, "uint value"@] },
                OverloadDoc { label: "uint2 ubfe(uint width, uint offset, uint2 value)"@, params: seq!["uint width"@, "uint offset"@, "uint2 value"@] },
                OverloadDoc { label: "uint3 ubfe(uint width, uint offset, uint3 value)"@, params: seq!["uint width"@, "uint offset"@, "uint3 value"@] },
                OverloadDoc { label: "uint4 ubfe(uint width, uint offset, uint4 value)"@, params: seq!["uint width"@, "uint offset"@, "uint4 value"@] },
            ],
        },
        FunctionDoc {
            name: "ibfe"@,
            description: "### `ibfe`\n*Microsoft HLSL Intrinsic*\n\nExtracts a bitfield from a signed integer with sign extension.\n\n**Parameters:**\n* `width`: Bitfield width in bits.\n* `offset`: Bitfield start offset in bits.\n* `value`: Integer value to extract from."@,
            overloads: seq![
                OverloadDoc { label: "int ibfe(uint width, uint offset, int value)"@, params: seq!["uint width"@, "uint offset"@, "int value"@] },
                OverloadDoc { label: "int2 ibfe(uint width, uint offset, int2 value)"@, params: seq!["uint width"@, "uint offset"@, "int2 value"@] },
                OverloadDoc { label: "int3 ibfe(uint width, uint offset, int3 value)"@, params: seq!["uint width"@, "uint offset"@, "int3 value"@] },
                OverloadDoc { label: "int4 ibfe(uint width, uint offset, int4 value)"@, params: seq!["uint width"@, "uint offset"@, "int4 value"@] },
            ],
        },
        FunctionDoc {
            name: "ddx_fine"@,
            description: "### `ddx_fine`\n*Microsoft HLSL Intrinsic*\n\nComputes a high-precision per-pixel screen-space partial derivative in the X direction."@,
            overloads: seq![
                OverloadDoc { label: "float ddx_fine(float x)"@, params: seq!["float x"@] },
                OverloadDoc { label: "float2 ddx_fine(float2 x)"@, params: seq!["float2 x"@] },
                OverloadDoc { label: "float3 ddx_fine(float3 x)"@, params: seq!["float3 x"@] },
                OverloadDoc { label: "float4 ddx_fine(float4 x)"@, params: seq!["float4 x"@] },
            ],
        },
        FunctionDoc {
            name: "ddy_fine"@,
            description: "### `ddy_fine`\n*Microsoft HLSL Intrinsic*\n\nComputes a high-precision per-pixel screen-space partial derivative in the Y direction."@,
            overloads: seq![
                OverloadDoc { label: "float ddy_fine(float x)"@, params: seq!["float x"@] },
                OverloadDoc { label: "float2 ddy_fine(float2 x)"@, params: seq!["float2 x"@] },
                OverloadDoc { label: "float3 ddy_fine(float3 x)"@, params: seq!["float3 x"@] },
                OverloadDoc { label: "float4 ddy_fine(float4 x)"@, params: seq!["float4 x"@] },
            ],
        },
        FunctionDoc {
            name: "ddx_coarse"@,
            description: "### `ddx_coarse`\n*Microsoft HLSL Intrinsic*\n\nComputes a coarse (per-quad) screen-space partial derivative in the X direction."@,
            overloads: seq![
                OverloadDoc { label: "float ddx_coarse(float x)"@, params: seq!["float x"@] },
                OverloadDoc { label: "float2 ddx_coarse(float2 x)"@, params: seq!["float2 x"@] },
                OverloadDoc { label: "float3 ddx_coarse(float3 x)"@, params: seq!["float3 x"@] },
                OverloadDoc { label: "float4 ddx_coarse(float4 x)"@, params: seq!["float4 x"@] },
            ],
        },
        FunctionDoc {
            name: "ddy_coarse"@,
            description: "### `ddy_coarse`\n*Microsoft HLSL Intrinsic*\n\nComputes a coarse (per-quad) screen-space partial derivative in the Y direction."@,
            overloads: seq![
                OverloadDoc { label: "float ddy_coarse(float x)"@, params: seq!["float x"@] },
                OverloadDoc { label: "float2 ddy_coarse(float2 x)"@, params: seq!["float2 x"@] },
                OverloadDoc { label: "float3 ddy_coarse(float3 x)"@, params: seq!["float3 x"@] },
                OverloadDoc { label: "float4 ddy_coarse(float4 x)"@, params: seq!["float4 x"@] },
            ],
        },
        FunctionDoc {
            name: "fwidth_fine"@,
            description: "### `fwidth_fine`\n*Microsoft HLSL Intrinsic*\n\nReturns the fine absolute sum of screen-space derivatives: `abs(ddx_fine(x)) + abs(ddy_fine(x))`."@,
            overloads: seq![
                OverloadDoc { label: "float fwidth_fine(float x)"@, params: seq!["float x"@] },
                OverloadDoc { label: "float2 fwidth_fine(float2 x)"@, params: seq!["float2 x"@] },
                OverloadDoc { label: "float3 fwidth_fine(float3 x)"@, params: seq!["float3 x"@] },
                OverloadDoc { label: "float4 fwidth_fine(float4 x)"@, params: seq!["float4 x"@] },
            ],
        },
        FunctionDoc {
            name: "fwidth_coarse"@,
            description: "### `fwidth_coarse`\n*Microsoft HLSL Intrinsic*\n\nReturns the coarse absolute sum of screen-space derivatives: `abs(ddx_coarse(x)) + abs(ddy_coarse(x))`."@,
            overloads: seq![
                OverloadDoc { label: "float fwidth_coarse(float x)"@, params: seq!["float x"@] },
                OverloadDoc { label: "float2 fwidth_coarse(float2 x)"@, params: seq!["float2 x"@] },
                OverloadDoc { label: "float3 fwidth_coarse(float3 x)"@, params: seq!["float3 x"@] },
                OverloadDoc { label: "float4 fwidth_coarse(float4 x)"@, params: seq!["float4 x"@] },
            ],
        },
        FunctionDoc {
            name: "WaveActiveMin"@,
            description: "### `WaveActiveMin`\n*Microsoft HLSL Wave Intrinsic (SM 6.0+)*\n\nComputes the minimum value of `expr` across all active lanes in the wave."@,
            overloads: seq![
                OverloadDoc { label: "float WaveActiveMin(float expr)"@, params: seq!["float expr"@] },
                OverloadDoc { label: "int WaveActiveMin(int expr)"@, params: seq!["int expr"@] },
                OverloadDoc { label: "uint WaveActiveMin(uint expr)"@, params: seq!["uint expr"@] },
            ],
        },
        FunctionDoc {
            name: "WaveActiveMax"@,
            description: "### `WaveActiveMax`\n*Microsoft HLSL Wave Intrinsic (SM 6.0+)*\n\nComputes the maximum value of `expr` across all active lanes in the wave."@,
            overloads: seq![
                OverloadDoc { label: "float WaveActiveMax(float expr)"@, params: seq!["float expr"@] },
                OverloadDoc { label: "int WaveActiveMax(int expr)"@, params: seq!["int expr"@] },
                OverloadDoc { label: "uint WaveActiveMax(uint expr)"@, params: seq!["uint expr"@] },
            ],
        },
        FunctionDoc {
            name: "WaveActiveProduct"@,
            description: "### `WaveActiveProduct`\n*Microsoft HLSL Wave Intrinsic (SM 6.0+)*\n\nComputes the product of `expr` across all active lanes in the current wave."@,
            overloads: seq![
                OverloadDoc { label: "float WaveActiveProduct(float expr)"@, params: seq!["float expr"@] },
                OverloadDoc { label: "uint WaveActiveProduct(uint expr)"@, params: seq!["uint expr"@] },
            ],
        },
        FunctionDoc {
            name: "WaveActiveBitAnd"@,
            description: "### `WaveActiveBitAnd`\n*Microsoft HLSL Wave Intrinsic (SM 6.0+)*\n\nComputes a bitwise AND reduction of `expr` across all active lanes in the wave."@,
            overloads: seq![
                OverloadDoc { label: "uint WaveActiveBitAnd(uint expr)"@, params: seq!["uint expr"@] },
                OverloadDoc { label: "uint4 WaveActiveBitAnd(uint4 expr)"@, params: seq!["uint4 expr"@] },
            ],
        },
        FunctionDoc {
            name: "WaveActiveBitOr"@,
            description: "### `WaveActiveBitOr`\n*Microsoft HLSL Wave Intrinsic (SM 6.0+)*\n\nComputes a bitwise OR reduction of `expr` across all active lanes in the wave."@,
            overloads: seq![
                OverloadDoc { label: "uint WaveActiveBitOr(uint expr)"@, params: seq!["uint expr"@] },
                OverloadDoc { label: "uint4 WaveActiveBitOr(uint4 expr)"@, params: seq!["uint4 expr"@] },
            ],
        },
        FunctionDoc {
            name: "WaveActiveBitXor"@,
            description: "### `WaveActiveBitXor`\n*Microsoft HLSL Wave Intrinsic (SM 6.0+)*\n\nComputes a bitwise XOR reduction of `expr` across all active lanes in the wave."@,
            overloads: seq![
                OverloadDoc { label: "uint WaveActiveBitXor(uint expr)"@, params: seq!["uint expr"@] },
                OverloadDoc { label: "uint4 WaveActiveBitXor(uint4 expr)"@, params: seq!["uint4 expr"@] },
            ],
        },
        FunctionDoc {
            name: "WaveActiveCountBits"@,
            description: "### `WaveActiveCountBits`\n*Microsoft HLSL Wave Intrinsic (SM 6.0+)*\n\nCounts the total number of active lanes for which `bBit` evaluates to `true`."@,
            overloads: seq![
                OverloadDoc { label: "uint WaveActiveCountBits(bool bBit)"@, params: seq!["bool bBit"@] },
            ],
        },
    ]
}

/// Builds entries 104 to 129 of the function table.
fn builtin_functions_4() -> (r: Vec<BuiltinFunction>)
    ensures
        functions_view(r@) == builtin_part_4(),
{
    let r = vec![
        BuiltinFunction {
            name: "UnityObjectToWorldNormal",
            description: "### `UnityObjectToWorldNormal`\n*Unity Built-in RP*\n\nTransforms an object-space normal to normalized world space.",
            overloads: vec![
                BuiltinOverload { label: "float3 UnityObjectToWorldNormal(float3 norm)", params: vec!["float3 norm"] },
            ],
        },
        BuiltinFunction {
            name: "UnityObjectToWorldDir",
            description: "### `UnityObjectToWorldDir`\n*Unity Built-in RP*\n\nTransforms an object-space direction vector to normalized world space.",
            overloads: vec![
                BuiltinOverload { label: "float3 UnityObjectToWorldDir(float3 dir)", params: vec!["float3 dir"] },
            ],
        },
        BuiltinFunction {
            name: "RotateAboutAxis",
            description: "### `RotateAboutAxis`\n*Unreal Engine Shader Function*\n\nRotates vector `Position` around `NormalizedRotationAxisAndAngle.xyz` by angle `w` (in radians).",
            overloads: vec![
                BuiltinOverload { label: "float3 RotateAboutAxis(float4 NormalizedRotationAxisAndAngle, float3 PositionOnAxis, float3 Position)", params: vec!["float4 NormalizedRotationAxisAndAngle", "float3 PositionOnAxis", "float3 Position"] },
            ],
        },
        BuiltinFunction {
            name: "GetWorldPosition",
            description: "### `GetWorldPosition`\n*Unreal Engine Material Expression*\n\nReturns the absolute world space position of the current vertex/pixel.",
            overloads: vec![
                BuiltinOverload { label: "float3 GetWorldPosition(FMaterialVertexParameters Parameters)", params: vec!["FMaterialVertexParameters Parameters"] },
                BuiltinOverload { label: "float3 GetWorldPosition(FMaterialPixelParameters Parameters)", params: vec!["FMaterialPixelParameters Parameters"] },
            ],
        },
        BuiltinFunction {
            name: "LinearToSrgb",
            description: "### `LinearToSrgb`\n*Unreal Engine / Color Transform*\n\nConverts color from Linear space to gamma sRGB space.",
            overloads: vec![
                BuiltinOverload { label: "float3 LinearToSrgb(float3 Color)", params: vec!["float3 Color"] },
            ],
        },
        BuiltinFunction {
            name: "SrgbToLinear",
            description: "### `SrgbToLinear`\n*Unreal Engine / Color Transform*\n\nConverts color from gamma sRGB space to Linear space.",
            overloads: vec![
                BuiltinOverload { label: "float3 SrgbToLinear(float3 Color)", params: vec!["float3 Color"] },
            ],
        },
        BuiltinFunction {
            name: "Luminance",
            description: "### `Luminance`\n*Unreal Engine / Common Utility*\n\nCalculates perceptual photometric luminance (grayscale intensity) of an RGB color.",
            overloads: vec![
                BuiltinOverload { label: "float Luminance(float3 LinearColor)", params: vec!["float3 LinearColor"] },
            ],
        },
        BuiltinFunction {
            name: "faceforward",
            description: "### `faceforward`\n*Microsoft HLSL Intrinsic*\n\nFlips a surface normal `n` to face away from the incident vector `i` relative to geometric normal `ng`.\n\n$$\\text{faceforward}(n, i, ng) = -n \\cdot \\text{sign}(\\text{dot}(i, ng))$$\n\n**Parameters:**\n* `n`: Vector to orient.\n* `i`: Incident vector.\n* `ng`: Reference geometric normal vector.",
            overloads: vec![
                BuiltinOverload { label: "float faceforward(float n, float i, float ng)", params: vec!["float n", "float i", "float ng"] },
                BuiltinOverload { label: "float2 faceforward(float2 n, float2 i, float2 ng)", params: vec!["float2 n", "float2 i", "float2 ng"] },
                BuiltinOverload { label: "float3 faceforward(float3 n, float3 i, float3 ng)", params: vec!["float3 n", "float3 i", "float3 ng"] },
                BuiltinOverload { label: "float4 faceforward(float4 n, float4 i, float4 ng)", params: vec!["float4 n", "float4 i", "float4 ng"] },
            ],
        },
        BuiltinFunction {
            name: "lit",
            description: "### `lit`\n*Microsoft HLSL Intrinsic*\n\nComputes lighting coefficients for ambient, diffuse, and specular illumination.\n\nReturns a `float4(ambient, diffuse, specular, 1.0)`.\n\n**Parameters:**\n* `n_dot_l`: Dot product between surface normal and light direction.\n* `n_dot_h`: Dot product between surface normal and half-angle vector.\n* `m`: Specular exponent.",
            overloads: vec![
                BuiltinOverload { label: "float4 lit(float n_dot_l, float n_dot_h, float m)", params: vec!["float n_dot_l", "float n_dot_h", "float m"] },
            ],
        },
        BuiltinFunction {
            name: "dst",
            description: "### `dst`\n*Microsoft HLSL Intrinsic*\n\nCalculates a distance/attenuation vector `(1.0, src0.y * src1.y, src0.z, src1.w)` from distance terms.\n\n**Parameters:**\n* `src0`: First source vector containing `(1.0, d, d^2, _)`. \n* `src1`: Second source vector containing `(1.0, 1/d, 1/d^2, _)`. ",
            overloads: vec![
                BuiltinOverload { label: "float4 dst(float4 src0, float4 src1)", params: vec!["float4 src0", "float4 src1"] },
            ],
        },
        BuiltinFunction {
            name: "msad4",
            description: "### `msad4`\n*Microsoft HLSL Intrinsic*\n\nCompares a 4-byte reference value and an 8-byte source value, accumulating the sum of absolute differences.\n\n**Parameters:**\n* `reference`: 32-bit integer containing 4 reference bytes.\n* `source`: `uint2` containing 8 source bytes.\n* `accum`: `uint4` accumulator vector.",
            overloads: vec![
                BuiltinOverload { label: "uint4 msad4(uint reference, uint2 source, uint4 accum)", params: vec!["uint reference", "uint2 source", "uint4 accum"] },
            ],
        },
        BuiltinFunction {
            name: "ubfe",
            description: "### `ubfe`\n*Microsoft HLSL Intrinsic*\n\nExtracts a bitfield from an unsigned integer without sign extension.\n\n**Parameters:**\n* `width`: Bitfield width in bits.\n* `offset`: Bitfield start offset in bits.\n* `value`: Integer value to extract from.",
            overloads: vec![
                BuiltinOverload { label: "uint ubfe(uint width, uint offset, uint value)", params: vec!["uint width", "uint offset", "uint value"] },
                BuiltinOverload { label: "uint2 ubfe(uint width, uint offset, uint2 value)", params: vec!["uint width", "uint offset", "uint2 value"] },
                BuiltinOverload { label: "uint3 ubfe(uint width, uint offset, uint3 value)", params: vec!["uint width", "uint offset", "uint3 value"] },
                BuiltinOverload { label: "uint4 ubfe(uint width, uint offset, uint4 value)", params: vec!["uint width", "uint offset", "uint4 value"] },
            ],
        },
        BuiltinFunction {
            name: "ibfe",
            description: "### `ibfe`\n*Microsoft HLSL Intrinsic*\n\nExtracts a bitfield from a signed integer with sign extension.\n\n**Parameters:**\n* `width`: Bitfield width in bits.\n* `offset`: Bitfield start offset in bits.\n* `value`: Integer value to extract from.",
            overloads: vec![
                BuiltinOverload { label: "int ibfe(uint width, uint offset, int value)", params: vec!["uint width", "uint offset", "int value"] },
                BuiltinOverload { label: "int2 ibfe(uint width, uint offset, int2 value)", params: vec!["uint width", "uint offset", "int2 value"] },
                BuiltinOverload { label: "int3 ibfe(uint width, uint offset, int3 value)", params: vec!["uint width", "uint offset", "int3 value"] },
                BuiltinOverload { label: "int4 ibfe(uint width, uint offset, int4 value)", params: vec!["uint width", "uint offset", "int4 value"] },
            ],
        },
        BuiltinFunction {
            name: "ddx_fine",
            description: "### `ddx_fine`\n*Microsoft HLSL Intrinsic*\n\nComputes a high-precision per-pixel screen-space partial derivative in the X direction.",
            overloads: vec![
                BuiltinOverload { label: "float ddx_fine(float x)", params: vec!["float x"] },
                BuiltinOverload { label: "float2 ddx_fine(float2 x)", params: vec!["float2 x"] },
                BuiltinOverload { label: "float3 ddx_fine(float3 x)", params: vec!["float3 x"] },
                BuiltinOverload { label: "float4 ddx_fine(float4 x)", params: vec!["float4 x"] },
            ],
        },
        BuiltinFunction {
            name: "ddy_fine",
            description: "### `ddy_fine`\n*Microsoft HLSL Intrinsic*\n\nComputes a high-precision per-pixel screen-space partial derivative in the Y direction.",
            overloads: vec![
                BuiltinOverload { label: "float ddy_fine(float x)", params: vec!["float x"] },
                BuiltinOverload { label: "float2 ddy_fine(float2 x)", params: vec!["float2 x"] },
                BuiltinOverload { label: "float3 ddy_fine(float3 x)", params: vec!["float3 x"] },
                BuiltinOverload { label: "float4 ddy_fine(float4 x)", params: vec!["float4 x"] },
            ],
        },
        BuiltinFunction {
            name: "ddx_coarse",
            description: "### `ddx_coarse`\n*Microsoft HLSL Intrinsic*\n\nComputes a coarse (per-quad) screen-space partial derivative in the X direction.",
            overloads: vec![
                BuiltinOverload { label: "float ddx_coarse(float x)", params: vec!["float x"] },
                BuiltinOverload { label: "float2 ddx_coarse(float2 x)", params: vec!["float2 x"] },
                BuiltinOverload { label: "float3 ddx_coarse(float3 x)", params: vec!["float3 x"] },
                BuiltinOverload { label: "float4 ddx_coarse(float4 x)", params: vec!["float4 x"] },
            ],
        },
        BuiltinFunction {
            name: "ddy_coarse",
            description: "### `ddy_coarse`\n*Microsoft HLSL Intrinsic*\n\nComputes a coarse (per-quad) screen-space partial derivative in the Y direction.",
            overloads: vec![
                BuiltinOverload { label: "float ddy_coarse(float x)", params: vec!["float x"] },
                BuiltinOverload { label: "float2 ddy_coarse(float2 x)", params: vec!["float2 x"] },
                BuiltinOverload { label: "float3 ddy_coarse(float3 x)", params: vec!["float3 x"] },
                BuiltinOverload { label: "float4 ddy_coarse(float4 x)", params: vec!["float4 x"] },
            ],
        },
        BuiltinFunction {
            name: "fwidth_fine",
            description: "### `fwidth_fine`\n*Microsoft HLSL Intrinsic*\n\nReturns the fine absolute sum of screen-space derivatives: `abs(ddx_fine(x)) + abs(ddy_fine(x))`.",
            overloads: vec![
                BuiltinOverload { label: "float fwidth_fine(float x)", params: vec!["float x"] },
                BuiltinOverload { label: "float2 fwidth_fine(float2 x)", params: vec!["float2 x"] },
                BuiltinOverload { label: "float3 fwidth_fine(float3 x)", params: vec!["float3 x"] },
                BuiltinOverload { label: "float4 fwidth_fine(float4 x)", params: vec!["float4 x"] },
            ],
        },
        BuiltinFunction {
            name: "fwidth_coarse",
            description: "### `fwidth_coarse`\n*Microsoft HLSL Intrinsic*\n\nReturns the coarse absolute sum of screen-space derivatives: `abs(ddx_coarse(x)) + abs(ddy_coarse(x))`.",
            overloads: vec![
                BuiltinOverload { label: "float fwidth_coarse(float x)", params: vec!["float x"] },
                BuiltinOverload { label: "float2 fwidth_coarse(float2 x)", params: vec!["float2 x"] },
                BuiltinOverload { label: "float3 fwidth_coarse(float3 x)", params: vec!["float3 x"] },
                BuiltinOverload { label: "float4 fwidth_coarse(float4 x)", params: vec!["float4 x"] },
            ],
        },
        BuiltinFunction {
            name: "WaveActiveMin",
            description: "### `WaveActiveMin`\n*Microsoft HLSL Wave Intrinsic (SM 6.0+)*\n\nComputes the minimum value of `expr` across all active lanes in the wave.",
            overloads: vec![
                BuiltinOverload { label: "float WaveActiveMin(float expr)", params: vec!["float expr"] },
                BuiltinOverload { label: "int WaveActiveMin(int expr)", params: vec!["int expr"] },
                BuiltinOverload { label: "uint WaveActiveMin(uint expr)", params: vec!["uint expr"] },
            ],
        },
        BuiltinFunction {
            name: "WaveActiveMax",
            description: "### `WaveActiveMax`\n*Microsoft HLSL Wave Intrinsic (SM 6.0+)*\n\nComputes the maximum value of `expr` across all active lanes in the wave.",
            overloads: vec![
                BuiltinOverload { label: "float WaveActiveMax(float expr)", params: vec!["float expr"] },
                BuiltinOverload { label: "int WaveActiveMax(int expr)", params: vec!["int expr"] },
                BuiltinOverload { label: "uint WaveActiveMax(uint expr)", params: vec!["uint expr"] },
            ],
        },
        BuiltinFunction {
            name: "WaveActiveProduct",
            description: "### `WaveActiveProduct`\n*Microsoft HLSL Wave Intrinsic (SM 6.0+)*\n\nComputes the product of `expr` across all active lanes in the current wave.",
            overloads: vec![
                BuiltinOverload { label: "float WaveActiveProduct(float expr)", params: vec!["float expr"] },
                BuiltinOverload { label: "uint WaveActiveProduct(uint expr)", params: vec!["uint expr"] },
            ],
        },
        BuiltinFunction {
            name: "WaveActiveBitAnd",
            description: "### `WaveActiveBitAnd`\n*Microsoft HLSL Wave Intrinsic (SM 6.0+)*\n\nComputes a bitwise AND reduction of `expr` across all active lanes in the wave.",
            overloads: vec![
                BuiltinOverload { label: "uint WaveActiveBitAnd(uint expr)", params: vec!["uint expr"] },
                BuiltinOverload { label: "uint4 WaveActiveBitAnd(uint4 expr)", params: vec!["uint4 expr"] },
            ],
        },
        BuiltinFunction {
            name: "WaveActiveBitOr",
            description: "### `WaveActiveBitOr`\n*Microsoft HLSL Wave Intrinsic (SM 6.0+)*\n\nComputes a bitwise OR reduction of `expr` across all active lanes in the wave.",
            overloads: vec![
                BuiltinOverload { label: "uint WaveActiveBitOr(uint expr)", params: vec!["uint expr"] },
                BuiltinOverload { label: "uint4 WaveActiveBitOr(uint4 expr)", params: vec!["uint4 expr"] },
            ],
        },
        BuiltinFunction {
            name: "WaveActiveBitXor",
            description: "### `WaveActiveBitXor`\n*Microsoft HLSL Wave Intrinsic (SM 6.0+)*\n\nComputes a bitwise XOR reduction of `expr` across all active lanes in the wave.",
            overloads: vec![
                BuiltinOverload { label: "uint WaveActiveBitXor(uint expr)", params: vec!["uint expr"] },
                BuiltinOverload { label: "uint4 WaveActiveBitXor(uint4 expr)", params: vec!["uint4 expr"] },
            ],
        },
        BuiltinFunction {
            name: "WaveActiveCountBits",
            description: "### `WaveActiveCountBits`\n*Microsoft HLSL Wave Intrinsic (SM 6.0+)*\n\nCounts the total number of active lanes for which `bBit` evaluates to `true`.",
            overloads: vec![
                BuiltinOverload { label: "uint WaveActiveCountBits(bool bBit)", params: vec!["bool bBit"] },
            ],
        },
    ];
    proof {
        reveal(builtin_part_4);
        assert(r@[0].overloads@[0]@.params =~= builtin_part_4()[0].overloads[0].params);
        assert(r@[0]@.overloads =~= builtin_part_4()[0].overloads);
        assert(r@[1].overloads@[0]@.params =~= builtin_part_4()[1].overloads[0].params);
        assert(r@[1]@.overloads =~= builtin_part_4()[1].overloads);
        assert(r@[2].overloads@[0]@.params =~= builtin_part_4()[2].overloads[0].params);
        assert(r@[2]@.overloads =~= builtin_part_4()[2].overloads);
        assert(r@[3].overloads@[0]@.params =~= builtin_part_4()[3].overloads[0].params);
        assert(r@[3].overloads@[1]@.params =~= builtin_part_4()[3].overloads[1].params);
        assert(r@[3]@.overloads =~= builtin_part_4()[3].overloads);
        assert(r@[4].overloads@[0]@.params =~= builtin_part_4()[4].overloads[0].params);
        assert(r@[4]@.overloads =~= builtin_part_4()[4].overloads);
        assert(r@[5].overloads@[0]@.params =~= builtin_part_4()[5].overloads[0].params);
        assert(r@[5]@.overloads =~= builtin_part_4()[5].overloads);
        assert(r@[6].overloads@[0]@.params =~= builtin_part_4()[6].overloads[0].params);
        assert(r@[6]@.overloads =~= builtin_part_4()[6].overloads);
        assert(r@[7].overloads@[0]@.params =~= builtin_part_4()[7].overloads[0].params);
        assert(r@[7].overloads@[1]@.params =~= builtin_part_4()[7].overloads[1].params);
        assert(r@[7].overloads@[2]@.params =~= builtin_part_4()[7].overloads[2].params);
        assert(r@[7].overloads@[3]@.params =~= builtin_part_4()[7].overloads[3].params);
        assert(r@[7]@.overloads =~= builtin_part_4()[7].overloads);
        assert(r@[8].overloads@[0]@.params =~= builtin_part_4()[8].overloads[0].params);
        assert(r@[8]@.overloads =~= builtin_part_4()[8].overloads);
        assert(r@[9].overloads@[0]@.params =~= builtin_part_4()[9].overloads[0].params);
        assert(r@[9]@.overloads =~= builtin_part_4()[9].overloads);
        assert(r@[10].overloads@[0]@.params =~= builtin_part_4()[10].overloads[0].params);
        assert(r@[10]@.overloads =~= builtin_part_4()[10].overloads);
        assert(r@[11].overloads@[0]@.params =~= builtin_part_4()[11].overloads[0].params);
        assert(r@[11].overloads@[1]@.params =~= builtin_part_4()[11].overloads[1].params);
        assert(r@[11].overloads@[2]@.params =~= builtin_part_4()[11].overloads[2].params);
        assert(r@[11].overloads@[3]@.params =~= builtin_part_4()[11].overloads[3].params);
        assert(r@[11]@.overloads =~= builtin_part_4()[11].overloads);
        assert(r@[12].overloads@[0]@.params =~= builtin_part_4()[12].overloads[0].params);
        assert(r@[12].overloads@[1]@.params =~= builtin_part_4()[12].overloads[1].params);
        assert(r@[12].overloads@[2]@.params =~= builtin_part_4()[12].overloads[2].params);
        assert(r@[12].overloads@[3]@.params =~= builtin_part_4()[12].overloads[3].params);
        assert(r@[12]@.overloads =~= builtin_part_4()[12].overloads);
        assert(r@[13].overloads@[0]@.params =~= builtin_part_4()[13].overloads[0].params);
        assert(r@[13].overloads@[1]@.params =~= builtin_part_4()[13].overloads[1].params);
        assert(r@[13].overloads@[2]@.params =~= builtin_part_4()[13].overloads[2].params);
        assert(r@[13].overloads@[3]@.params =~= builtin_part_4()[13].overloads[3].params);
        assert(r@[13]@.overloads =~= builtin_part_4()[13].overloads);
        assert(r@[14].overloads@[0]@.params =~= builtin_part_4()[14].overloads[0].params);
        assert(r@[14].overloads@[1]@.params =~= builtin_part_4()[14].overloads[1].params);
        assert(r@[14].overloads@[2]@.params =~= builtin_part_4()[14].overloads[2].params);
        assert(r@[14].overloads@[3]@.params =~= builtin_part_4()[14].overloads[3].params);
        assert(r@[14]@.overloads =~= builtin_part_4()[14].overloads);
        assert(r@[15].overloads@[0]@.params =~= builtin_part_4()[15].overloads[0].params);
        assert(r@[15].overloads@[1]@.params =~= builtin_part_4()[15].overloads[1].params);
        assert(r@[15].overloads@[2]@.params =~= builtin_part_4()[15].overloads[2].params);
        assert(r@[15].overloads@[3]@.params =~= builtin_part_4()[15].overloads[3].params);
        assert(r@[15]@.overloads =~= builtin_part_4()[15].overloads);
        assert(r@[16].overloads@[0]@.params =~= builtin_part_4()[16].overloads[0].params);
        assert(r@[16].overloads@[1]@.params =~= builtin_part_4()[16].overloads[1].params);
        assert(r@[16].overloads@[2]@.params =~= builtin_part_4()[16].overloads[2].params);
        assert(r@[16].overloads@[3]@.params =~= builtin_part_4()[16].overloads[3].params);
        assert(r@[16]@.overloads =~= builtin_part_4()[16].overloads);
        assert(r@[17].overloads@[0]@.params =~= builtin_part_4()[17].overloads[0].params);
        assert(r@[17].overloads@[1]@.params =~= builtin_part_4()[17].overloads[1].params);
        assert(r@[17].overloads@[2]@.params =~= builtin_part_4()[17].overloads[2].params);
        assert(r@[17].overloads@[3]@.params =~= builtin_part_4()[17].overloads[3].params);
        assert(r@[17]@.overloads =~= builtin_part_4()[17].overloads);
        assert(r@[18].overloads@[0]@.params =~= builtin_part_4()[18].overloads[0].params);
        assert(r@[18].overloads@[1]@.params =~= builtin_part_4()[18].overloads[1].params);
        assert(r@[18].overloads@[2]@.params =~= builtin_part_4()[18].overloads[2].params);
        assert(r@[18].overloads@[3]@.params =~= builtin_part_4()[18].overloads[3].params);
        assert(r@[18]@.overloads =~= builtin_part_4()[18].overloads);
        assert(r@[19].overloads@[0]@.params =~= builtin_part_4()[19].overloads[0].params);
        assert(r@[19].overloads@[1]@.params =~= builtin_part_4()[19].overloads[1].params);
        assert(r@[19].overloads@[2]@.params =~= builtin_part_4()[19].overloads[2].params);
        assert(r@[19]@.overloads =~= builtin_part_4()[19].overloads);
        assert(r@[20].overloads@[0]@.params =~= builtin_part_4()[20].overloads[0].params);
        assert(r@[20].overloads@[1]@.params =~= builtin_part_4()[20].overloads[1].params);
        assert(r@[20].overloads@[2]@.params =~= builtin_part_4()[20].overloads[2].params);
        assert(r@[20]@.overloads =~= builtin_part_4()[20].overloads);
        assert(r@[21].overloads@[0]@.params =~= builtin_part_4()[21].overloads[0].params);
        assert(r@[21].overloads@[1]@.params =~= builtin_part_4()[21].overloads[1].params);
        assert(r@[21]@.overloads =~= builtin_part_4()[21].overloads);
        assert(r@[22].overloads@[0]@.params =~= builtin_part_4()[22].overloads[0].params);
        assert(r@[22].overloads@[1]@.params =~= builtin_part_4()[22].overloads[1].params);
        assert(r@[22]@.overloads =~= builtin_part_4()[22].overloads);
        assert(r@[23].overloads@[0]@.params =~= builtin_part_4()[23].overloads[0].params);
        assert(r@[23].overloads@[1]@.params =~= builtin_part_4()[23].overloads[1].params);
        assert(r@[23]@.overloads =~= builtin_part_4()[23].overloads);
        assert(r@[24].overloads@[0]@.params =~= builtin_part_4()[24].overloads[0].params);
        assert(r@[24].overloads@[1]@.params =~= builtin_part_4()[24].overloads[1].params);
        assert(r@[24]@.overloads =~= builtin_part_4()[24].overloads);
        assert(r@[25].overloads@[0]@.params =~= builtin_part_4()[25].overloads[0].params);
        assert(r@[25]@.overloads =~= builtin_part_4()[25].overloads);
        assert(functions_view(r@) =~= builtin_part_4());
    }
    r
}

/// Entries 130 to 155 of the function table.
#[verifier::opaque]
pub open spec fn builtin_part_5() -> Seq<FunctionDoc> {
    seq![
        FunctionDoc {
            name: "WaveActivePrefixSum"@,
            description: "### `WaveActivePrefixSum`\n*Microsoft HLSL Wave Intrinsic (SM 6.0+)*\n\nComputes the exclusive prefix sum of `value` across lanes with lower indices than the current lane."@,
            overloads: seq![
                OverloadDoc { label: "float WaveActivePrefixSum(float value)"@, params: seq!["float value"@] },
                OverloadDoc { label: "uint WaveActivePrefixSum(uint value)"@, params: seq!["uint value"@] },
            ],
        },
        FunctionDoc {
            name: "WaveActivePrefixProduct"@,
            description: "### `WaveActivePrefixProduct`\n*Microsoft HLSL Wave Intrinsic (SM 6.0+)*\n\nComputes the exclusive prefix multiplication of `value` across lower-indexed lanes."@,
            overloads: seq![
                OverloadDoc { label: "float WaveActivePrefixProduct(float value)"@, params: seq!["float value"@] },
                OverloadDoc { label: "uint WaveActivePrefixProduct(uint value)"@, params: seq!["uint value"@] },
            ],
        },
        FunctionDoc {
            name: "WaveReadLaneFirst"@,
            description: "### `WaveReadLaneFirst`\n*Microsoft HLSL Wave Intrinsic (SM 6.0+)*\n\nBroadcasts the value of `expr` evaluated on the first active lane in the wave to all lanes."@,
            overloads: seq![
                OverloadDoc { label: "float WaveReadLaneFirst(float expr)"@, params: seq!["float expr"@] },
                OverloadDoc { label: "uint WaveReadLaneFirst(uint expr)"@, params: seq!["uint expr"@] },
                OverloadDoc { label: "float4 WaveReadLaneFirst(float4 expr)"@, params: seq!["float4 expr"@] },
            ],
        },
        FunctionDoc {
            name: "WaveReadLaneAt"@,
            description: "### `WaveReadLaneAt`\n*Microsoft HLSL Wave Intrinsic (SM 6.0+)*\n\nReads `expr` from a specific lane index `laneIndex` within the wave."@,
            overloads: seq![
                OverloadDoc { label: "float WaveReadLaneAt(float expr, uint laneIndex)"@, params: seq!["float expr"@, "uint laneIndex"@] },
                OverloadDoc { label: "uint WaveReadLaneAt(uint expr, uint laneIndex)"@, params: seq!["uint expr"@, "uint laneIndex"@] },
                OverloadDoc { label: "float4 WaveReadLaneAt(float4 expr, uint laneIndex)"@, params: seq!["float4 expr"@, "uint laneIndex"@] },
            ],
        },
        FunctionDoc {
            name: "QuadReadAcrossX"@,
            description: "### `QuadReadAcrossX`\n*Microsoft HLSL Quad Intrinsic (SM 6.0+)*\n\nReturns the value of `localValue` from the neighboring lane horizontally across the quad."@,
            overloads: seq![
                OverloadDoc { label: "float QuadReadAcrossX(float localValue)"@, params: seq!["float localValue"@] },
                OverloadDoc { label: "float4 QuadReadAcrossX(float4 localValue)"@, params: seq!["float4 localValue"@] },
            ],
        },
        FunctionDoc {
            name: "QuadReadAcrossY"@,
            description: "### `QuadReadAcrossY`\n*Microsoft HLSL Quad Intrinsic (SM 6.0+)*\n\nReturns the value of `localValue` from the neighboring lane vertically across the quad."@,
            overloads: seq![
                OverloadDoc { label: "float QuadReadAcrossY(float localValue)"@, params: seq!["float localValue"@] },
                OverloadDoc { label: "float4 QuadReadAcrossY(float4 localValue)"@, params: seq!["float4 localValue"@] },
            ],
        },
        FunctionDoc {
            name: "QuadReadAcrossDiagonal"@,
            description: "### `QuadReadAcrossDiagonal`\n*Microsoft HLSL Quad Intrinsic (SM 6.0+)*\n\nReturns the value of `localValue` from the diagonally opposite lane in the quad."@,
            overloads: seq![
                OverloadDoc { label: "float QuadReadAcrossDiagonal(float localValue)"@, params: seq!["float localValue"@] },
                OverloadDoc { label: "float4 QuadReadAcrossDiagonal(float4 localValue)"@, params: seq!["float4 localValue"@] },
            ],
        },
        FunctionDoc {
            name: "QuadReadLaneAt"@,
            description: "### `QuadReadLaneAt`\n*Microsoft HLSL Quad Intrinsic (SM 6.0+)*\n\nReturns the value of `sourceValue` from a specific lane index (0 to 3) within the quad."@,
            overloads: seq![
                OverloadDoc { label: "float QuadReadLaneAt(float sourceValue, uint quadLaneID)"@, params: seq!["float sourceValue"@, "uint quadLaneID"@] },
                OverloadDoc { label: "float4 QuadReadLaneAt(float4 sourceValue, uint quadLaneID)"@, params: seq!["float4 sourceValue"@, "uint quadLaneID"@] },
            ],
        },
        FunctionDoc {
            name: "GroupMemoryBarrier"@,
            description: "### `GroupMemoryBarrier`\n*Microsoft HLSL Barrier Intrinsic*\n\nBlocks execution of all threads in a thread group until all group shared memory accesses are completed."@,
            overloads: seq![
                OverloadDoc { label: "void GroupMemoryBarrier()"@, params: seq![] },
            ],
        },
        FunctionDoc {
            name: "GroupMemoryBarrierWithGroupSync"@,
            description: "### `GroupMemoryBarrierWithGroupSync`\n*Microsoft HLSL Barrier Intrinsic*\n\nExecutes a group memory barrier and synchronizes execution of all threads in the compute group."@,
            overloads: seq![
                OverloadDoc { label: "void GroupMemoryBarrierWithGroupSync()"@, params: seq![] },
            ],
        },
        FunctionDoc {
            name: "DeviceMemoryBarrier"@,
            description: "### `DeviceMemoryBarrier`\n*Microsoft HLSL Barrier Intrinsic*\n\nBlocks execution until all device memory accesses (UAVs / textures) are completed."@,
            overloads: seq![
                OverloadDoc { label: "void DeviceMemoryBarrier()"@, params: seq![] },
            ],
        },
        FunctionDoc {
            name: "DeviceMemoryBarrierWithGroupSync"@,
            description: "### `DeviceMemoryBarrierWithGroupSync`\n*Microsoft HLSL Barrier Intrinsic*\n\nExecutes a device memory barrier and synchronizes all threads in the compute group."@,
            overloads: seq![
                OverloadDoc { label: "void DeviceMemoryBarrierWithGroupSync()"@, params: seq![] },
            ],
        },
        FunctionDoc {
            name: "AllMemoryBarrier"@,
            description: "### `AllMemoryBarrier`\n*Microsoft HLSL Barrier Intrinsic*\n\nBlocks execution until both group shared memory and device memory accesses are completed."@,
            overloads: seq![
                OverloadDoc { label: "void AllMemoryBarrier()"@, params: seq![] },
            ],
        },
        FunctionDoc {
            name: "AllMemoryBarrierWithGroupSync"@,
            description: "### `AllMemoryBarrierWithGroupSync`\n*Microsoft HLSL Barrier Intrinsic*\n\nExecutes a full memory barrier and synchronizes all threads in the compute group."@,
            overloads: seq![
                OverloadDoc { label: "void AllMemoryBarrierWithGroupSync()"@, params: seq![] },
            ],
        },
        FunctionDoc {
            name: "InterlockedAdd"@,
            description: "### `InterlockedAdd`\n*Microsoft HLSL Atomic Intrinsic*\n\nPerforms an atomic addition of `value` to destination `dest`."@,
            overloads: seq![
                OverloadDoc { label: "void InterlockedAdd(inout int dest, int value)"@, params: seq!["inout int dest"@, "int value"@] },
                OverloadDoc { label: "void InterlockedAdd(inout uint dest, uint value)"@, params: seq!["inout uint dest"@, "uint value"@] },
                OverloadDoc { label: "void InterlockedAdd(inout int dest, int value, out int original_value)"@, params: seq!["inout int dest"@, "int value"@, "out int original_value"@] },
                OverloadDoc { label: "void InterlockedAdd(inout uint dest, uint value, out uint original_value)"@, params: seq!["inout uint dest"@, "uint value"@, "out uint original_value"@] },
            ],
        },
        FunctionDoc {
            name: "InterlockedMin"@,
            description: "### `InterlockedMin`\n*Microsoft HLSL Atomic Intrinsic*\n\nPerforms an atomic minimum comparison and update."@,
            overloads: seq![
                OverloadDoc { label: "void InterlockedMin(inout int dest, int value)"@, params: seq!["inout int dest"@, "int value"@] },
                OverloadDoc { label: "void InterlockedMin(inout uint dest, uint value)"@, params: seq!["inout uint dest"@, "uint value"@] },
                OverloadDoc { label: "void InterlockedMin(inout int dest, int value, out int original_value)"@, params: seq!["inout int dest"@, "int value"@, "out int original_value"@] },
                OverloadDoc { label: "void InterlockedMin(inout uint dest, uint value, out uint original_value)"@, params: seq!["inout uint dest"@, "uint value"@, "out uint original_value"@] },
            ],
        },
        FunctionDoc {
            name: "InterlockedMax"@,
            description: "### `InterlockedMax`\n*Microsoft HLSL Atomic Intrinsic*\n\nPerforms an atomic maximum comparison and update."@,
            overloads: seq![
                OverloadDoc { label: "void InterlockedMax(inout int dest, int value)"@, params: seq!["inout int dest"@, "int value"@] },
                OverloadDoc { label: "void InterlockedMax(inout uint dest, uint value)"@, params: seq!["inout uint dest"@, "uint value"@] },
                OverloadDoc { label: "void InterlockedMax(inout int dest, int value, out int original_value)"@, params: seq!["inout int dest"@, "int value"@, "out int original_value"@] },
                OverloadDoc { label: "void InterlockedMax(inout uint dest, uint value, out uint original_value)"@, params: seq!["inout uint dest"@, "uint value"@, "out uint original_value"@] },
            ],
        },
        FunctionDoc {
            name: "InterlockedAnd"@,
            description: "### `InterlockedAnd`\n*Microsoft HLSL Atomic Intrinsic*\n\nPerforms an atomic bitwise AND operation."@,
            overloads: seq![
                OverloadDoc { label: "void InterlockedAnd(inout int dest, int value)"@, params: seq!["inout int dest"@, "int value"@] },
                OverloadDoc { label: "void InterlockedAnd(inout uint dest, uint value)"@, params: seq!["inout uint dest"@, "uint value"@] },
                OverloadDoc { label: "void InterlockedAnd(inout int dest, int value, out int original_value)"@, params: seq!["inout int dest"@, "int value"@, "out int original_value"@] },
                OverloadDoc { label: "void InterlockedAnd(inout uint dest, uint value, out uint original_value)"@, params: seq!["inout uint dest"@, "uint value"@, "out uint original_value"@] },
            ],
        },
        FunctionDoc {
            name: "InterlockedOr"@,
            description: "### `InterlockedOr`\n*Microsoft HLSL Atomic Intrinsic*\n\nPerforms an atomic bitwise OR operation."@,
            overloads: seq![
                OverloadDoc { label: "void InterlockedOr(inout int dest, int value)"@, params: seq!["inout int dest"@, "int value"@] },
                OverloadDoc { label: "void InterlockedOr(inout uint dest, uint value)"@, params: seq!["inout uint dest"@, "uint value"@] },
                OverloadDoc { label: "void InterlockedOr(inout int dest, int value, out int original_value)"@, params: seq!["inout int dest"@, "int value"@, "out int original_value"@] },
                OverloadDoc { label: "void InterlockedOr(inout uint dest, uint value, out uint original_value)"@, params: seq!["inout uint dest"@, "uint value"@, "out uint original_value"@] },
            ],
        },
        FunctionDoc {
            name: "InterlockedXor"@,
            description: "### `InterlockedXor`\n*Microsoft HLSL Atomic Intrinsic*\n\nPerforms an atomic bitwise XOR operation."@,
            overloads: seq![
                OverloadDoc { label: "void InterlockedXor(inout int dest, int value)"@, params: seq!["inout int dest"@, "int value"@] },
                OverloadDoc { label: "void InterlockedXor(inout uint dest, uint value)"@, params: seq!["inout uint dest"@, "uint value"@] },
                OverloadDoc { label: "void InterlockedXor(inout int dest, int value, out int original_value)"@, params: seq!["inout int dest"@, "int value"@, "out int original_value"@] },
                OverloadDoc { label: "void InterlockedXor(inout uint dest, uint value, out uint original_value)"@, params: seq!["inout uint dest"@, "uint value"@, "out uint original_value"@] },
            ],
        },
        FunctionDoc {
            name: "InterlockedExchange"@,
            description: "### `InterlockedExchange`\n*Microsoft HLSL Atomic Intrinsic*\n\nAtomically assigns `value` to `dest` and returns the old value."@,
            overloads: seq![
                OverloadDoc { label: "void InterlockedExchange(inout int dest, int value, out int original_value)"@, params: seq!["inout int dest"@, "int value"@, "out int original_value"@] },
                OverloadDoc { label: "void InterlockedExchange(inout uint dest, uint value, out uint original_value)"@, params: seq!["inout uint dest"@, "uint value"@, "out uint original_value"@] },
            ],
        },
        FunctionDoc {
            name: "InterlockedCompareExchange"@,
            description: "### `InterlockedCompareExchange`\n*Microsoft HLSL Atomic Intrinsic*\n\nAtomically compares `dest` to `compare_value`. If they are equal, assigns `value` to `dest`."@,
            overloads: seq![
                OverloadDoc { label: "void InterlockedCompareExchange(inout int dest, int compare_value, int value, out int original_value)"@, params: seq!["inout int dest"@, "int compare_value"@, "int value"@, "out int original_value"@] },
                OverloadDoc { label: "void InterlockedCompareExchange(inout uint dest, uint compare_value, uint value, out uint original_value)"@, params: seq!["inout uint dest"@, "uint compare_value"@, "uint value"@, "out uint original_value"@] },
            ],
        },
        FunctionDoc {
            name: "CheckAccessFullyMapped"@,
            description: "### `CheckAccessFullyMapped`\n*Microsoft HLSL Intrinsic (Tiled Resources)*\n\nChecks whether all bytes accessed in a tiled resource were mapped in physical memory."@,
            overloads: seq![
                OverloadDoc { label: "bool CheckAccessFullyMapped(uint status)"@, params: seq!["uint status"@] },
            ],
        },
        FunctionDoc {
            name: "TraceRay"@,
            description: "### `TraceRay`\n*DirectX Raytracing (DXR) Intrinsic (SM 6.3+)*\n\nInitiates a ray traversal and intersection test through an acceleration structure."@,
            overloads: seq![
                OverloadDoc { label: "void TraceRay(RaytracingAccelerationStructure AccelerationStructure, uint RayFlags, uint InstanceInclusionMask, uint RayContributionToHitGroupIndex, uint MultiplierForGeometryContributionToHitGroupIndex, uint MissShaderIndex, RayDesc Ray, inout payload_t Payload)"@, params: seq!["RaytracingAccelerationStructure AccelerationStructure"@, "uint RayFlags"@, "uint InstanceInclusionMask"@, "uint RayContributionToHitGroupIndex"@, "uint MultiplierForGeometryContributionToHitGroupIndex"@, "uint MissShaderIndex"@, "RayDesc Ray"@, "inout payload_t Payload"@] },
            ],
        },
        FunctionDoc {
            name: "WorldRayOrigin"@,
            description: "### `WorldRayOrigin`\n*DirectX Raytracing (DXR) Intrinsic (SM 6.3+)*\n\nReturns the origin of the current ray in world space coordinates (`float3`)."@,
            overloads: seq![
                OverloadDoc { label: "float3 WorldRayOrigin()"@, params: seq![] },
            ],
        },
        FunctionDoc {
            name: "WorldRayDirection"@,
            description: "### `WorldRayDirection`\n*DirectX Raytracing (DXR) Intrinsic (SM 6.3+)*\n\nReturns the direction vector of the current ray in world space coordinates (`float3`)."@,
            overloads: seq![
                OverloadDoc { label: "float3 WorldRayDirection()"@, params: seq![] },
            ],
        },
    ]
}

/// Builds entries 130 to 155 of the function table.
fn builtin_functions_5() -> (r: Vec<BuiltinFunction>)
    ensures
        functions_view(r@) == builtin_part_5(),
{
    let r = vec![
        BuiltinFunction {
            name: "WaveActivePrefixSum",
            description: "### `WaveActivePrefixSum`\n*Microsoft HLSL Wave Intrinsic (SM 6.0+)*\n\nComputes the exclusive prefix sum of `value` across lanes with lower indices than the current lane.",
            overloads: vec![
                BuiltinOverload { label: "float WaveActivePrefixSum(float value)", params: vec!["float value"] },
                BuiltinOverload { label: "uint WaveActivePrefixSum(uint value)", params: vec!["uint value"] },
            ],
        },
        BuiltinFunction {
            name: "WaveActivePrefixProduct",
            description: "### `WaveActivePrefixProduct`\n*Microsoft HLSL Wave Intrinsic (SM 6.0+)*\n\nComputes the exclusive prefix multiplication of `value` across lower-indexed lanes.",
            overloads: vec![
                BuiltinOverload { label: "float WaveActivePrefixProduct(float value)", params: vec!["float value"] },
                BuiltinOverload { label: "uint WaveActivePrefixProduct(uint value)", params: vec!["uint value"] },
            ],
        },
        BuiltinFunction {
            name: "WaveReadLaneFirst",
            description: "### `WaveReadLaneFirst`\n*Microsoft HLSL Wave Intrinsic (SM 6.0+)*\n\nBroadcasts the value of `expr` evaluated on the first active lane in the wave to all lanes.",
            overloads: vec![
                BuiltinOverload { label: "float WaveReadLaneFirst(float expr)", params: vec!["float expr"] },
                BuiltinOverload { label: "uint WaveReadLaneFirst(uint expr)", params: vec!["uint expr"] },
                BuiltinOverload { label: "float4 WaveReadLaneFirst(float4 expr)", params: vec!["float4 expr"] },
            ],
        },
        BuiltinFunction {
            name: "WaveReadLaneAt",
            description: "### `WaveReadLaneAt`\n*Microsoft HLSL Wave Intrinsic (SM 6.0+)*\n\nReads `expr` from a specific lane index `laneIndex` within the wave.",
            overloads: vec![
                BuiltinOverload { label: "float WaveReadLaneAt(float expr, uint laneIndex)", params: vec!["float expr", "uint laneIndex"] },
                BuiltinOverload { label: "uint WaveReadLaneAt(uint expr, uint laneIndex)", params: vec!["uint expr", "uint laneIndex"] },
                BuiltinOverload { label: "float4 WaveReadLaneAt(float4 expr, uint laneIndex)", params: vec!["float4 expr", "uint laneIndex"] },
            ],
        },
        BuiltinFunction {
            name: "QuadReadAcrossX",
            description: "### `QuadReadAcrossX`\n*Microsoft HLSL Quad Intrinsic (SM 6.0+)*\n\nReturns the value of `localValue` from the neighboring lane horizontally across the quad.",
            overloads: vec![
                BuiltinOverload { label: "float QuadReadAcrossX(float localValue)", params: vec!["float localValue"] },
                BuiltinOverload { label: "float4 QuadReadAcrossX(float4 localValue)", params: vec!["float4 localValue"] },
            ],
        },
        BuiltinFunction {
            name: "QuadReadAcrossY",
            description: "### `QuadReadAcrossY`\n*Microsoft HLSL Quad Intrinsic (SM 6.0+)*\n\nReturns the value of `localValue` from the neighboring lane vertically across the quad.",
            overloads: vec![
                BuiltinOverload { label: "float QuadReadAcrossY(float localValue)", params: vec!["float localValue"] },
                BuiltinOverload { label: "float4 QuadReadAcrossY(float4 localValue)", params: vec!["float4 localValue"] },
            ],
        },
        BuiltinFunction {
            name: "QuadReadAcrossDiagonal",
            description: "### `QuadReadAcrossDiagonal`\n*Microsoft HLSL Quad Intrinsic (SM 6.0+)*\n\nReturns the value of `localValue` from the diagonally opposite lane in the quad.",
            overloads: vec![
                BuiltinOverload { label: "float QuadReadAcrossDiagonal(float localValue)", params: vec!["float localValue"] },
                BuiltinOverload { label: "float4 QuadReadAcrossDiagonal(float4 localValue)", params: vec!["float4 localValue"] },
            ],
        },
        BuiltinFunction {
            name: "QuadReadLaneAt",
            description: "### `QuadReadLaneAt`\n*Microsoft HLSL Quad Intrinsic (SM 6.0+)*\n\nReturns the value of `sourceValue` from a specific lane index (0 to 3) within the quad.",
            overloads: vec![
                BuiltinOverload { label: "float QuadReadLaneAt(float sourceValue, uint quadLaneID)", params: vec!["float sourceValue", "uint quadLaneID"] },
                BuiltinOverload { label: "float4 QuadReadLaneAt(float4 sourceValue, uint quadLaneID)", params: vec!["float4 sourceValue", "uint quadLaneID"] },
            ],
        },
        BuiltinFunction {
            name: "GroupMemoryBarrier",
            description: "### `GroupMemoryBarrier`\n*Microsoft HLSL Barrier Intrinsic*\n\nBlocks execution of all threads in a thread group until all group shared memory accesses are completed.",
            overloads: vec![
                BuiltinOverload { label: "void GroupMemoryBarrier()", params: vec![] },
            ],
        },
        BuiltinFunction {
            name: "GroupMemoryBarrierWithGroupSync",
            description: "### `GroupMemoryBarrierWithGroupSync`\n*Microsoft HLSL Barrier Intrinsic*\n\nExecutes a group memory barrier and synchronizes execution of all threads in the compute group.",
            overloads: vec![
                BuiltinOverload { label: "void GroupMemoryBarrierWithGroupSync()", params: vec![] },
            ],
        },
        BuiltinFunction {
            name: "DeviceMemoryBarrier",
            description: "### `DeviceMemoryBarrier`\n*Microsoft HLSL Barrier Intrinsic*\n\nBlocks execution until all device memory accesses (UAVs / textures) are completed.",
            overloads: vec![
                BuiltinOverload { label: "void DeviceMemoryBarrier()", params: vec![] },
            ],
        },
        BuiltinFunction {
            name: "DeviceMemoryBarrierWithGroupSync",
            description: "### `DeviceMemoryBarrierWithGroupSync`\n*Microsoft HLSL Barrier Intrinsic*\n\nExecutes a device memory barrier and synchronizes all threads in the compute group.",
            overloads: vec![
                BuiltinOverload { label: "void DeviceMemoryBarrierWithGroupSync()", params: vec![] },
            ],
        },
        BuiltinFunction {
            name: "AllMemoryBarrier",
            description: "### `AllMemoryBarrier`\n*Microsoft HLSL Barrier Intrinsic*\n\nBlocks execution until both group shared memory and device memory accesses are completed.",
            overloads: vec![
                BuiltinOverload { label: "void AllMemoryBarrier()", params: vec![] },
            ],
        },
        BuiltinFunction {
            name: "AllMemoryBarrierWithGroupSync",
            description: "### `AllMemoryBarrierWithGroupSync`\n*Microsoft HLSL Barrier Intrinsic*\n\nExecutes a full memory barrier and synchronizes all threads in the compute group.",
            overloads: vec![
                BuiltinOverload { label: "void AllMemoryBarrierWithGroupSync()", params: vec![] },
            ],
        },
        BuiltinFunction {
            name: "InterlockedAdd",
            description: "### `InterlockedAdd`\n*Microsoft HLSL Atomic Intrinsic*\n\nPerforms an atomic addition of `value` to destination `dest`.",
            overloads: vec![
                BuiltinOverload { label: "void InterlockedAdd(inout int dest, int value)", params: vec!["inout int dest", "int value"] },
                BuiltinOverload { label: "void InterlockedAdd(inout uint dest, uint value)", params: vec!["inout uint dest", "uint value"] },
                BuiltinOverload { label: "void InterlockedAdd(inout int dest, int value, out int original_value)", params: vec!["inout int dest", "int value", "out int original_value"] },
                BuiltinOverload { label: "void InterlockedAdd(inout uint dest, uint value, out uint original_value)", params: vec!["inout uint dest", "uint value", "out uint original_value"] },
            ],
        },
        BuiltinFunction {
            name: "InterlockedMin",
            description: "### `InterlockedMin`\n*Microsoft HLSL Atomic Intrinsic*\n\nPerforms an atomic minimum comparison and update.",
            overloads: vec![
                BuiltinOverload { label: "void InterlockedMin(inout int dest, int value)", params: vec!["inout int dest", "int value"] },
                BuiltinOverload { label: "void InterlockedMin(inout uint dest, uint value)", params: vec!["inout uint dest", "uint value"] },
                BuiltinOverload { label: "void InterlockedMin(inout int dest, int value, out int original_value)", params: vec!["inout int dest", "int value", "out int original_value"] },
                BuiltinOverload { label: "void InterlockedMin(inout uint dest, uint value, out uint original_value)", params: vec!["inout uint dest", "uint value", "out uint original_value"] },
            ],
        },
        BuiltinFunction {
            name: "InterlockedMax",
            description: "### `InterlockedMax`\n*Microsoft HLSL Atomic Intrinsic*\n\nPerforms an atomic maximum comparison and update.",
            overloads: vec![
                BuiltinOverload { label: "void InterlockedMax(inout int dest, int value)", params: vec!["inout int dest", "int value"] },
                BuiltinOverload { label: "void InterlockedMax(inout uint dest, uint value)", params: vec!["inout uint dest", "uint value"] },
                BuiltinOverload { label: "void InterlockedMax(inout int dest, int value, out int original_value)", params: vec!["inout int dest", "int value", "out int original_value"] },
                BuiltinOverload { label: "void InterlockedMax(inout uint dest, uint value, out uint original_value)", params: vec!["inout uint dest", "uint value", "out uint original_value"] },
            ],
        },
        BuiltinFunction {
            name: "InterlockedAnd",
            description: "### `InterlockedAnd`\n*Microsoft HLSL Atomic Intrinsic*\n\nPerforms an atomic bitwise AND operation.",
            overloads: vec![
                BuiltinOverload { label: "void InterlockedAnd(inout int dest, int value)", params: vec!["inout int dest", "int value"] },
                BuiltinOverload { label: "void InterlockedAnd(inout uint dest, uint value)", params: vec!["inout uint dest", "uint value"] },
                BuiltinOverload { label: "void InterlockedAnd(inout int dest, int value, out int original_value)", params: vec!["inout int dest", "int value", "out int original_value"] },
                BuiltinOverload { label: "void InterlockedAnd(inout uint dest, uint value, out uint original_value)", params: vec!["inout uint dest", "uint value", "out uint original_value"] },
            ],
        },
        BuiltinFunction {
            name: "InterlockedOr",
            description: "### `InterlockedOr`\n*Microsoft HLSL Atomic Intrinsic*\n\nPerforms an atomic bitwise OR operation.",
            overloads: vec![
                BuiltinOverload { label: "void InterlockedOr(inout int dest, int value)", params: vec!["inout int dest", "int value"] },
                BuiltinOverload { label: "void InterlockedOr(inout uint dest, uint value)", params: vec!["inout uint dest", "uint value"] },
                BuiltinOverload { label: "void InterlockedOr(inout int dest, int value, out int original_value)", params: vec!["inout int dest", "int value", "out int original_value"] },
                BuiltinOverload { label: "void InterlockedOr(inout uint dest, uint value, out uint original_value)", params: vec!["inout uint dest", "uint value", "out uint original_value"] },
            ],
        },
        BuiltinFunction {
            name: "InterlockedXor",
            description: "### `InterlockedXor`\n*Microsoft HLSL Atomic Intrinsic*\n\nPerforms an atomic bitwise XOR operation.",
            overloads: vec![
                BuiltinOverload { label: "void InterlockedXor(inout int dest, int value)", params: vec!["inout int dest", "int value"] },
                BuiltinOverload { label: "void InterlockedXor(inout uint dest, uint value)", params: vec!["inout uint dest", "uint value"] },
                BuiltinOverload { label: "void InterlockedXor(inout int dest, int value, out int original_value)", params: vec!["inout int dest", "int value", "out int original_value"] },
                BuiltinOverload { label: "void InterlockedXor(inout uint dest, uint value, out uint original_value)", params: vec!["inout uint dest", "uint value", "out uint original_value"] },
            ],
        },
        BuiltinFunction {
            name: "InterlockedExchange",
            description: "### `InterlockedExchange`\n*Microsoft HLSL Atomic Intrinsic*\n\nAtomically assigns `value` to `dest` and returns the old value.",
            overloads: vec![
                BuiltinOverload { label: "void InterlockedExchange(inout int dest, int value, out int original_value)", params: vec!["inout int dest", "int value", "out int original_value"] },
                BuiltinOverload { label: "void InterlockedExchange(inout uint dest, uint value, out uint original_value)", params: vec!["inout uint dest", "uint value", "out uint original_value"] },
            ],
        },
        BuiltinFunction {
            name: "InterlockedCompareExchange",
            description: "### `InterlockedCompareExchange`\n*Microsoft HLSL Atomic Intrinsic*\n\nAtomically compares `dest` to `compare_value`. If they are equal, assigns `value` to `dest`.",
            overloads: vec![
                BuiltinOverload { label: "void InterlockedCompareExchange(inout int dest, int compare_value, int value, out int original_value)", params: vec!["inout int dest", "int compare_value", "int value", "out int original_value"] },
                BuiltinOverload { label: "void InterlockedCompareExchange(inout uint dest, uint compare_value, uint value, out uint original_value)", params: vec!["inout uint dest", "uint compare_value", "uint value", "out uint original_value"] },
            ],
        },
        BuiltinFunction {
            name: "CheckAccessFullyMapped",
            description: "### `CheckAccessFullyMapped`\n*Microsoft HLSL Intrinsic (Tiled Resources)*\n\nChecks whether all bytes accessed in a tiled resource were mapped in physical memory.",
            overloads: vec![
                BuiltinOverload { label: "bool CheckAccessFullyMapped(uint status)", params: vec!["uint status"] },
            ],
        },
        BuiltinFunction {
            name: "TraceRay",
            description: "### `TraceRay`\n*DirectX Raytracing (DXR) Intrinsic (SM 6.3+)*\n\nInitiates a ray traversal and intersection test through an acceleration structure.",
            overloads: vec![
                BuiltinOverload { label: "void TraceRay(RaytracingAccelerationStructure AccelerationStructure, uint RayFlags, uint InstanceInclusionMask, uint RayContributionToHitGroupIndex, uint MultiplierForGeometryContributionToHitGroupIndex, uint MissShaderIndex, RayDesc Ray, inout payload_t Payload)", params: vec!["RaytracingAccelerationStructure AccelerationStructure", "uint RayFlags", "uint InstanceInclusionMask", "uint RayContributionToHitGroupIndex", "uint MultiplierForGeometryContributionToHitGroupIndex", "uint MissShaderIndex", "RayDesc Ray", "inout payload_t Payload"] },
            ],
        },
        BuiltinFunction {
            name: "WorldRayOrigin",
            description: "### `WorldRayOrigin`\n*DirectX Raytracing (DXR) Intrinsic (SM 6.3+)*\n\nReturns the origin of the current ray in world space coordinates (`float3`).",
            overloads: vec![
                BuiltinOverload { label: "float3 WorldRayOrigin()", params: vec![] },
            ],
        },
        BuiltinFunction {
            name: "WorldRayDirection",
            description: "### `WorldRayDirection`\n*DirectX Raytracing (DXR) Intrinsic (SM 6.3+)*\n\nReturns the direction vector of the current ray in world space coordinates (`float3`).",
            overloads: vec![
                BuiltinOverload { label: "float3 WorldRayDirection()", params: vec![] },
            ],
        },
    ];
    proof {
        reveal(builtin_part_5);
        assert(r@[0].overloads@[0]@.params =~= builtin_part_5()[0].overloads[0].params);
        assert(r@[0].overloads@[1]@.params =~= builtin_part_5()[0].overloads[1].params);
        assert(r@[0]@.overloads =~= builtin_part_5()[0].overloads);
        assert(r@[1].overloads@[0]@.params =~= builtin_part_5()[1].overloads[0].params);
        assert(r@[1].overloads@[1]@.params =~= builtin_part_5()[1].overloads[1].params);
        assert(r@[1]@.overloads =~= builtin_part_5()[1].overloads);
        assert(r@[2].overloads@[0]@.params =~= builtin_part_5()[2].overloads[0].params);
        assert(r@[2].overloads@[1]@.params =~= builtin_part_5()[2].overloads[1].params);
        assert(r@[2].overloads@[2]@.params =~= builtin_part_5()[2].overloads[2].params);
        assert(r@[2]@.overloads =~= builtin_part_5()[2].overloads);
        assert(r@[3].overloads@[0]@.params =~= builtin_part_5()[3].overloads[0].params);
        assert(r@[3].overloads@[1]@.params =~= builtin_part_5()[3].overloads[1].params);
        assert(r@[3].overloads@[2]@.params =~= builtin_part_5()[3].overloads[2].params);
        assert(r@[3]@.overloads =~= builtin_part_5()[3].overloads);
        assert(r@[4].overloads@[0]@.params =~= builtin_part_5()[4].overloads[0].params);
        assert(r@[4].overloads@[1]@.params =~= builtin_part_5()[4].overloads[1].params);
        assert(r@[4]@.overloads =~= builtin_part_5()[4].overloads);
        assert(r@[5].overloads@[0]@.params =~= builtin_part_5()[5].overloads[0].params);
        assert(r@[5].overloads@[1]@.params =~= builtin_part_5()[5].overloads[1].params);
        assert(r@[5]@.overloads =~= builtin_part_5()[5].overloads);
        assert(r@[6].overloads@[0]@.params =~= builtin_part_5()[6].overloads[0].params);
        assert(r@[6].overloads@[1]@.params =~= builtin_part_5()[6].overloads[1].params);
        assert(r@[6]@.overloads =~= builtin_part_5()[6].overloads);
        assert(r@[7].overloads@[0]@.params =~= builtin_part_5()[7].overloads[0].params);
        assert(r@[7].overloads@[1]@.params =~= builtin_part_5()[7].overloads[1].params);
        assert(r@[7]@.overloads =~= builtin_part_5()[7].overloads);
        assert(r@[8].overloads@[0]@.params =~= builtin_part_5()[8].overloads[0].params);
        assert(r@[8]@.overloads =~= builtin_part_5()[8].overloads);
        assert(r@[9].overloads@[0]@.params =~= builtin_part_5()[9].overloads[0].params);
        assert(r@[9]@.overloads =~= builtin_part_5()[9].overloads);
        assert(r@[10].overloads@[0]@.params =~= builtin_part_5()[10].overloads[0].params);
        assert(r@[10]@.overloads =~= builtin_part_5()[10].overloads);
        assert(r@[11].overloads@[0]@.params =~= builtin_part_5()[11].overloads[0].params);
        assert(r@[11]@.overloads =~= builtin_part_5()[11].overloads);
        assert(r@[12].overloads@[0]@.params =~= builtin_part_5()[12].overloads[0].params);
        assert(r@[12]@.overloads =~= builtin_part_5()[12].overloads);
        assert(r@[13].overloads@[0]@.params =~= builtin_part_5()[13].overloads[0].params);
        assert(r@[13]@.overloads =~= builtin_part_5()[13].overloads);
        assert(r@[14].overloads@[0]@.params =~= builtin_part_5()[14].overloads[0].params);
        assert(r@[14].overloads@[1]@.params =~= builtin_part_5()[14].overloads[1].params);
        assert(r@[14].overloads@[2]@.params =~= builtin_part_5()[14].overloads[2].params);
        assert(r@[14].overloads@[3]@.params =~= builtin_part_5()[14].overloads[3].params);
        assert(r@[14]@.overloads =~= builtin_part_5()[14].overloads);
        assert(r@[15].overloads@[0]@.params =~= builtin_part_5()[15].overloads[0].params);
        assert(r@[15].overloads@[1]@.params =~= builtin_part_5()[15].overloads[1].params);
        assert(r@[15].overloads@[2]@.params =~= builtin_part_5()[15].overloads[2].params);
        assert(r@[15].overloads@[3]@.params =~= builtin_part_5()[15].overloads[3].params);
        assert(r@[15]@.overloads =~= builtin_part_5()[15].overloads);
        assert(r@[16].overloads@[0]@.params =~= builtin_part_5()[16].overloads[0].params);
        assert(r@[16].overloads@[1]@.params =~= builtin_part_5()[16].overloads[1].params);
        assert(r@[16].overloads@[2]@.params =~= builtin_part_5()[16].overloads[2].params);
        assert(r@[16].overloads@[3]@.params =~= builtin_part_5()[16].overloads[3].params);
        assert(r@[16]@.overloads =~= builtin_part_5()[16].overloads);
        assert(r@[17].overloads@[0]@.params =~= builtin_part_5()[17].overloads[0].params);
        assert(r@[17].overloads@[1]@.params =~= builtin_part_5()[17].overloads[1].params);
        assert(r@[17].overloads@[2]@.params =~= builtin_part_5()[17].overloads[2].params);
        assert(r@[17].overloads@[3]@.params =~= builtin_part_5()[17].overloads[3].params);
        assert(r@[17]@.overloads =~= builtin_part_5()[17].overloads);
        assert(r@[18].overloads@[0]@.params =~= builtin_part_5()[18].overloads[0].params);
        assert(r@[18].overloads@[1]@.params =~= builtin_part_5()[18].overloads[1].params);
        assert(r@[18].overloads@[2]@.params =~= builtin_part_5()[18].overloads[2].params);
        assert(r@[18].overloads@[3]@.params =~= builtin_part_5()[18].overloads[3].params);
        assert(r@[18]@.overloads =~= builtin_part_5()[18].overloads);
        assert(r@[19].overloads@[0]@.params =~= builtin_part_5()[19].overloads[0].params);
        assert(r@[19].overloads@[1]@.params =~= builtin_part_5()[19].overloads[1].params);
        assert(r@[19].overloads@[2]@.params =~= builtin_part_5()[19].overloads[2].params);
        assert(r@[19].overloads@[3]@.params =~= builtin_part_5()[19].overloads[3].params);
        assert(r@[19]@.overloads =~= builtin_part_5()[19].overloads);
        assert(r@[20].overloads@[0]@.params =~= builtin_part_5()[20].overloads[0].params);
        assert(r@[20].overloads@[1]@.params =~= builtin_part_5()[20].overloads[1].params);
        assert(r@[20]@.overloads =~= builtin_part_5()[20].overloads);
        assert(r@[21].overloads@[0]@.params =~= builtin_part_5()[21].overloads[0].params);
        assert(r@[21].overloads@[1]@.params =~= builtin_part_5()[21].overloads[1].params);
        assert(r@[21]@.overloads =~= builtin_part_5()[21].overloads);
        assert(r@[22].overloads@[0]@.params =~= builtin_part_5()[22].overloads[0].params);
        assert(r@[22]@.overloads =~= builtin_part_5()[22].overloads);
        assert(r@[23].overloads@[0]@.params =~= builtin_part_5()[23].overloads[0].params);
        assert(r@[23]@.overloads =~= builtin_part_5()[23].overloads);
        assert(r@[24].overloads@[0]@.params =~= builtin_part_5()[24].overloads[0].params);
        assert(r@[24]@.overloads =~= builtin_part_5()[24].overloads);
        assert(r@[25].overloads@[0]@.params =~= builtin_part_5()[25].overloads[0].params);
        assert(r@[25]@.overloads =~= builtin_part_5()[25].overloads);
        assert(functions_view(r@) =~= builtin_part_5());
    }
    r
}

/// Entries 156 to 181 of the function table.
#[verifier::opaque]
pub open spec fn builtin_part_6() -> Seq<FunctionDoc> {
    seq![
        FunctionDoc {
            name: "RayTCurrent"@,
            description: "### `RayTCurrent`\n*DirectX Raytracing (DXR) Intrinsic (SM 6.3+)*\n\nReturns the current parametric distance `t` along the ray for the closest hit found so far (`float`)."@,
            overloads: seq![
                OverloadDoc { label: "float RayTCurrent()"@, params: seq![] },
            ],
        },
        FunctionDoc {
            name: "RayTMin"@,
            description: "### `RayTMin`\n*DirectX Raytracing (DXR) Intrinsic (SM 6.3+)*\n\nReturns the minimum parametric distance `t_min` along the ray (`float`)."@,
            overloads: seq![
                OverloadDoc { label: "float RayTMin()"@, params: seq![] },
            ],
        },
        FunctionDoc {
            name: "TransformWorldToView"@,
            description: "### `TransformWorldToView`\n*Unity URP / ShaderVariablesFunctions.hlsl*\n\nTransforms a 3D position from World Space to View (Camera) Space."@,
            overloads: seq![
                OverloadDoc { label: "float3 TransformWorldToView(float3 positionWS)"@, params: seq!["float3 positionWS"@] },
            ],
        },
        FunctionDoc {
            name: "TransformViewToHClip"@,
            description: "### `TransformViewToHClip`\n*Unity URP / ShaderVariablesFunctions.hlsl*\n\nTransforms a 3D position from View (Camera) Space to Homogeneous Clip Space."@,
            overloads: seq![
                OverloadDoc { label: "float4 TransformViewToHClip(float3 positionVS)"@, params: seq!["float3 positionVS"@] },
            ],
        },
        FunctionDoc {
            name: "TransformHClipToView"@,
            description: "### `TransformHClipToView`\n*Unity URP / ShaderVariablesFunctions.hlsl*\n\nTransforms a position from Homogeneous Clip Space back to View Space."@,
            overloads: seq![
                OverloadDoc { label: "float3 TransformHClipToView(float4 positionCS)"@, params: seq!["float4 positionCS"@] },
            ],
        },
        FunctionDoc {
            name: "TransformObjectToWorldDir"@,
            description: "### `TransformObjectToWorldDir`\n*Unity URP / ShaderVariablesFunctions.hlsl*\n\nTransforms a direction vector from Object Space to World Space (ignoring translation)."@,
            overloads: seq![
                OverloadDoc { label: "float3 TransformObjectToWorldDir(float3 dirOS, bool doNormalize = true)"@, params: seq!["float3 dirOS"@, "bool doNormalize = true"@] },
            ],
        },
        FunctionDoc {
            name: "TransformWorldToObjectDir"@,
            description: "### `TransformWorldToObjectDir`\n*Unity URP / ShaderVariablesFunctions.hlsl*\n\nTransforms a direction vector from World Space to Object Space (ignoring translation)."@,
            overloads: seq![
                OverloadDoc { label: "float3 TransformWorldToObjectDir(float3 dirWS, bool doNormalize = true)"@, params: seq!["float3 dirWS"@, "bool doNormalize = true"@] },
            ],
        },
        FunctionDoc {
            name: "TransformViewToWorld"@,
            description: "### `TransformViewToWorld`\n*Unity URP / ShaderVariablesFunctions.hlsl*\n\nTransforms a position from View (Camera) Space to World Space."@,
            overloads: seq![
                OverloadDoc { label: "float3 TransformViewToWorld(float3 positionVS)"@, params: seq!["float3 positionVS"@] },
            ],
        },
        FunctionDoc {
            name: "TransformWorldToObjectNormal"@,
            description: "### `TransformWorldToObjectNormal`\n*Unity URP / ShaderVariablesFunctions.hlsl*\n\nTransforms a normal vector from World Space to Object Space using inverse transpose."@,
            overloads: seq![
                OverloadDoc { label: "float3 TransformWorldToObjectNormal(float3 normalWS, bool doNormalize = true)"@, params: seq!["float3 normalWS"@, "bool doNormalize = true"@] },
            ],
        },
        FunctionDoc {
            name: "TransformWorldToTangent"@,
            description: "### `TransformWorldToTangent`\n*Unity URP / ShaderVariablesFunctions.hlsl*\n\nTransforms a world space vector into Tangent Space."@,
            overloads: seq![
                OverloadDoc { label: "float3 TransformWorldToTangent(float3 dirWS, float3 normalWS, float4 tangentWS)"@, params: seq!["float3 dirWS"@, "float3 normalWS"@, "float4 tangentWS"@] },
            ],
        },
        FunctionDoc {
            name: "TransformTangentToWorld"@,
            description: "### `TransformTangentToWorld`\n*Unity URP / ShaderVariablesFunctions.hlsl*\n\nTransforms a tangent space vector into World Space."@,
            overloads: seq![
                OverloadDoc { label: "float3 TransformTangentToWorld(float3 dirTS, float3 normalWS, float4 tangentWS)"@, params: seq!["float3 dirTS"@, "float3 normalWS"@, "float4 tangentWS"@] },
            ],
        },
        FunctionDoc {
            name: "ComputeScreenPos"@,
            description: "### `ComputeScreenPos`\n*Unity URP & Built-in / Common.hlsl*\n\nCalculates normalized device screen coordinates suitable for projected texture sampling."@,
            overloads: seq![
                OverloadDoc { label: "float4 ComputeScreenPos(float4 positionCS)"@, params: seq!["float4 positionCS"@] },
            ],
        },
        FunctionDoc {
            name: "GetVertexPositionInputs"@,
            description: "### `GetVertexPositionInputs`\n*Unity URP / Core.hlsl*\n\nHelper structure providing `positionWS`, `positionVS`, `positionCS`, and `positionNDC` from object-space vertex position."@,
            overloads: seq![
                OverloadDoc { label: "VertexPositionInputs GetVertexPositionInputs(float3 positionOS)"@, params: seq!["float3 positionOS"@] },
            ],
        },
        FunctionDoc {
            name: "GetVertexNormalInputs"@,
            description: "### `GetVertexNormalInputs`\n*Unity URP / Core.hlsl*\n\nHelper structure returning `normalWS`, `tangentWS`, and `bitangentWS`."@,
            overloads: seq![
                OverloadDoc { label: "VertexNormalInputs GetVertexNormalInputs(float3 normalOS)"@, params: seq!["float3 normalOS"@] },
                OverloadDoc { label: "VertexNormalInputs GetVertexNormalInputs(float3 normalOS, float4 tangentOS)"@, params: seq!["float3 normalOS"@, "float4 tangentOS"@] },
            ],
        },
        FunctionDoc {
            name: "LinearEyeDepth"@,
            description: "### `LinearEyeDepth`\n*Unity Shader Library*\n\nConverts non-linear hardware Z buffer depth into linear eye-space units (distance in world meters from near plane)."@,
            overloads: seq![
                OverloadDoc { label: "float LinearEyeDepth(float depth, float4 zBufferParam)"@, params: seq!["float depth"@, "float4 zBufferParam"@] },
            ],
        },
        FunctionDoc {
            name: "Linear01Depth"@,
            description: "### `Linear01Depth`\n*Unity Shader Library*\n\nConverts non-linear hardware Z buffer depth into linear [0, 1] range."@,
            overloads: seq![
                OverloadDoc { label: "float Linear01Depth(float depth, float4 zBufferParam)"@, params: seq!["float depth"@, "float4 zBufferParam"@] },
            ],
        },
        FunctionDoc {
            name: "SampleSceneDepth"@,
            description: "### `SampleSceneDepth`\n*Unity URP / DeclareDepthTexture.hlsl*\n\nSamples the screen depth buffer texture (`_CameraDepthTexture`)."@,
            overloads: seq![
                OverloadDoc { label: "float SampleSceneDepth(float2 uv)"@, params: seq!["float2 uv"@] },
            ],
        },
        FunctionDoc {
            name: "SampleSceneColor"@,
            description: "### `SampleSceneColor`\n*Unity URP / DeclareOpaqueTexture.hlsl*\n\nSamples the camera opaque color texture (`_CameraOpaqueTexture`)."@,
            overloads: seq![
                OverloadDoc { label: "float3 SampleSceneColor(float2 uv)"@, params: seq!["float2 uv"@] },
            ],
        },
        FunctionDoc {
            name: "SAMPLE_TEXTURE2D_LOD"@,
            description: "### `SAMPLE_TEXTURE2D_LOD`\n*Unity URP Macro / Common.hlsl*\n\nSamples a 2D texture at an explicit level-of-detail (mip level)."@,
            overloads: seq![
                OverloadDoc { label: "float4 SAMPLE_TEXTURE2D_LOD(Texture2D textureName, SamplerState samplerName, float2 coord2, float lod)"@, params: seq!["Texture2D textureName"@, "SamplerState samplerName"@, "float2 coord2"@, "float lod"@] },
            ],
        },
        FunctionDoc {
            name: "SAMPLE_TEXTURE2D_BIAS"@,
            description: "### `SAMPLE_TEXTURE2D_BIAS`\n*Unity URP Macro / Common.hlsl*\n\nSamples a 2D texture with a specified mip level bias offset."@,
            overloads: seq![
                OverloadDoc { label: "float4 SAMPLE_TEXTURE2D_BIAS(Texture2D textureName, SamplerState samplerName, float2 coord2, float bias)"@, params: seq!["Texture2D textureName"@, "SamplerState samplerName"@, "float2 coord2"@, "float bias"@] },
            ],
        },
        FunctionDoc {
            name: "SAMPLE_TEXTURE2D_ARRAY"@,
            description: "### `SAMPLE_TEXTURE2D_ARRAY`\n*Unity URP Macro / Common.hlsl*\n\nSamples a slice from a Texture2DArray."@,
            overloads: seq![
                OverloadDoc { label: "float4 SAMPLE_TEXTURE2D_ARRAY(Texture2DArray textureName, SamplerState samplerName, float2 coord2, float index)"@, params: seq!["Texture2DArray textureName"@, "SamplerState samplerName"@, "float2 coord2"@, "float index"@] },
            ],
        },
        FunctionDoc {
            name: "SAMPLE_TEXTURECUBE"@,
            description: "### `SAMPLE_TEXTURECUBE`\n*Unity URP Macro / Common.hlsl*\n\nSamples a cubemap reflection texture using a 3D direction vector."@,
            overloads: seq![
                OverloadDoc { label: "float4 SAMPLE_TEXTURECUBE(TextureCube textureName, SamplerState samplerName, float3 coord3)"@, params: seq!["TextureCube textureName"@, "SamplerState samplerName"@, "float3 coord3"@] },
            ],
        },
        FunctionDoc {
            name: "SAMPLE_TEXTURECUBE_LOD"@,
            description: "### `SAMPLE_TEXTURECUBE_LOD`\n*Unity URP Macro / Common.hlsl*\n\nSamples a cubemap texture at an explicit mip level (commonly used for roughness-based specular IBL reflections)."@,
            overloads: seq![
                OverloadDoc { label: "float4 SAMPLE_TEXTURECUBE_LOD(TextureCube textureName, SamplerState samplerName, float3 coord3, float lod)"@, params: seq!["TextureCube textureName"@, "SamplerState samplerName"@, "float3 coord3"@, "float lod"@] },
            ],
        },
        FunctionDoc {
            name: "SAMPLE_DEPTH_TEXTURE"@,
            description: "### `SAMPLE_DEPTH_TEXTURE`\n*Unity URP Macro / Common.hlsl*\n\nSamples a single float depth value from a depth texture."@,
            overloads: seq![
                OverloadDoc { label: "float SAMPLE_DEPTH_TEXTURE(Texture2D textureName, SamplerState samplerName, float2 coord2)"@, params: seq!["Texture2D textureName"@, "SamplerState samplerName"@, "float2 coord2"@] },
            ],
        },
        FunctionDoc {
            name: "LightingPhysicallyBased"@,
            description: "### `LightingPhysicallyBased`\n*Unity URP / Lighting.hlsl*\n\nCalculates physically based BRDF direct lighting from a Light source on a surface."@,
            overloads: seq![
                OverloadDoc { label: "half3 LightingPhysicallyBased(BRDFData brdfData, Light light, half3 normalWS, half3 viewDirectionWS)"@, params: seq!["BRDFData brdfData"@, "Light light"@, "half3 normalWS"@, "half3 viewDirectionWS"@] },
            ],
        },
        FunctionDoc {
            name: "LightingSpecular"@,
            description: "### `LightingSpecular`\n*Unity URP / Lighting.hlsl*\n\nComputes Blinn-Phong specular highlight illumination."@,
            overloads: seq![
                OverloadDoc { label: "half3 LightingSpecular(half3 lightColor, half3 lightDir, half3 normalWS, half3 viewDirectionWS, half4 specular, half smoothness)"@, params: seq!["half3 lightColor"@, "half3 lightDir"@, "half3 normalWS"@, "half3 viewDirectionWS"@, "half4 specular"@, "half smoothness"@] },
            ],
        },
    ]
}

/// Builds entries 156 to 181 of the function table.
fn builtin_functions_6() -> (r: Vec<BuiltinFunction>)
    ensures
        functions_view(r@) == builtin_part_6(),
{
    let r = vec![
        BuiltinFunction {
            name: "RayTCurrent",
            description: "### `RayTCurrent`\n*DirectX Raytracing (DXR) Intrinsic (SM 6.3+)*\n\nReturns the current parametric distance `t` along the ray for the closest hit found so far (`float`).",
            overloads: vec![
                BuiltinOverload { label: "float RayTCurrent()", params: vec![] },
            ],
        },
        BuiltinFunction {
            name: "RayTMin",
            description: "### `RayTMin`\n*DirectX Raytracing (DXR) Intrinsic (SM 6.3+)*\n\nReturns the minimum parametric distance `t_min` along the ray (`float`).",
            overloads: vec![
                BuiltinOverload { label: "float RayTMin()", params: vec![] },
            ],
        },
        BuiltinFunction {
            name: "TransformWorldToView",
            description: "### `TransformWorldToView`\n*Unity URP / ShaderVariablesFunctions.hlsl*\n\nTransforms a 3D position from World Space to View (Camera) Space.",
            overloads: vec![
                BuiltinOverload { label: "float3 TransformWorldToView(float3 positionWS)", params: vec!["float3 positionWS"] },
            ],
        },
        BuiltinFunction {
            name: "TransformViewToHClip",
            description: "### `TransformViewToHClip`\n*Unity URP / ShaderVariablesFunctions.hlsl*\n\nTransforms a 3D position from View (Camera) Space to Homogeneous Clip Space.",
            overloads: vec![
                BuiltinOverload { label: "float4 TransformViewToHClip(float3 positionVS)", params: vec!["float3 positionVS"] },
            ],
        },
        BuiltinFunction {
            name: "TransformHClipToView",
            description: "### `TransformHClipToView`\n*Unity URP / ShaderVariablesFunctions.hlsl*\n\nTransforms a position from Homogeneous Clip Space back to View Space.",
            overloads: vec![
                BuiltinOverload { label: "float3 TransformHClipToView(float4 positionCS)", params: vec!["float4 positionCS"] },
            ],
        },
        BuiltinFunction {
            name: "TransformObjectToWorldDir",
            description: "### `TransformObjectToWorldDir`\n*Unity URP / ShaderVariablesFunctions.hlsl*\n\nTransforms a direction vector from Object Space to World Space (ignoring translation).",
            overloads: vec![
                BuiltinOverload { label: "float3 TransformObjectToWorldDir(float3 dirOS, bool doNormalize = true)", params: vec!["float3 dirOS", "bool doNormalize = true"] },
            ],
        },
        BuiltinFunction {
            name: "TransformWorldToObjectDir",
            description: "### `TransformWorldToObjectDir`\n*Unity URP / ShaderVariablesFunctions.hlsl*\n\nTransforms a direction vector from World Space to Object Space (ignoring translation).",
            overloads: vec![
                BuiltinOverload { label: "float3 TransformWorldToObjectDir(float3 dirWS, bool doNormalize = true)", params: vec!["float3 dirWS", "bool doNormalize = true"] },
            ],
        },
        BuiltinFunction {
            name: "TransformViewToWorld",
            description: "### `TransformViewToWorld`\n*Unity URP / ShaderVariablesFunctions.hlsl*\n\nTransforms a position from View (Camera) Space to World Space.",
            overloads: vec![
                BuiltinOverload { label: "float3 TransformViewToWorld(float3 positionVS)", params: vec!["float3 positionVS"] },
            ],
        },
        BuiltinFunction {
            name: "TransformWorldToObjectNormal",
            description: "### `TransformWorldToObjectNormal`\n*Unity URP / ShaderVariablesFunctions.hlsl*\n\nTransforms a normal vector from World Space to Object Space using inverse transpose.",
            overloads: vec![
                BuiltinOverload { label: "float3 TransformWorldToObjectNormal(float3 normalWS, bool doNormalize = true)", params: vec!["float3 normalWS", "bool doNormalize = true"] },
            ],
        },
        BuiltinFunction {
            name: "TransformWorldToTangent",
            description: "### `TransformWorldToTangent`\n*Unity URP / ShaderVariablesFunctions.hlsl*\n\nTransforms a world space vector into Tangent Space.",
            overloads: vec![
                BuiltinOverload { label: "float3 TransformWorldToTangent(float3 dirWS, float3 normalWS, float4 tangentWS)", params: vec!["float3 dirWS", "float3 normalWS", "float4 tangentWS"] },
            ],
        },
        BuiltinFunction {
            name: "TransformTangentToWorld",
            description: "### `TransformTangentToWorld`\n*Unity URP / ShaderVariablesFunctions.hlsl*\n\nTransforms a tangent space vector into World Space.",
            overloads: vec![
                BuiltinOverload { label: "float3 TransformTangentToWorld(float3 dirTS, float3 normalWS, float4 tangentWS)", params: vec!["float3 dirTS", "float3 normalWS", "float4 tangentWS"] },
            ],
        },
        BuiltinFunction {
            name: "ComputeScreenPos",
            description: "### `ComputeScreenPos`\n*Unity URP & Built-in / Common.hlsl*\n\nCalculates normalized device screen coordinates suitable for projected texture sampling.",
            overloads: vec![
                BuiltinOverload { label: "float4 ComputeScreenPos(float4 positionCS)", params: vec!["float4 positionCS"] },
            ],
        },
        BuiltinFunction {
            name: "GetVertexPositionInputs",
            description: "### `GetVertexPositionInputs`\n*Unity URP / Core.hlsl*\n\nHelper structure providing `positionWS`, `positionVS`, `positionCS`, and `positionNDC` from object-space vertex position.",
            overloads: vec![
                BuiltinOverload { label: "VertexPositionInputs GetVertexPositionInputs(float3 positionOS)", params: vec!["float3 positionOS"] },
            ],
        },
        BuiltinFunction {
            name: "GetVertexNormalInputs",
            description: "### `GetVertexNormalInputs`\n*Unity URP / Core.hlsl*\n\nHelper structure returning `normalWS`, `tangentWS`, and `bitangentWS`.",
            overloads: vec![
                BuiltinOverload { label: "VertexNormalInputs GetVertexNormalInputs(float3 normalOS)", params: vec!["float3 normalOS"] },
                BuiltinOverload { label: "VertexNormalInputs GetVertexNormalInputs(float3 normalOS, float4 tangentOS)", params: vec!["float3 normalOS", "float4 tangentOS"] },
            ],
        },
        BuiltinFunction {
            name: "LinearEyeDepth",
            description: "### `LinearEyeDepth`\n*Unity Shader Library*\n\nConverts non-linear hardware Z buffer depth into linear eye-space units (distance in world meters from near plane).",
            overloads: vec![
                BuiltinOverload { label: "float LinearEyeDepth(float depth, float4 zBufferParam)", params: vec!["float depth", "float4 zBufferParam"] },
            ],
        },
        BuiltinFunction {
            name: "Linear01Depth",
            description: "### `Linear01Depth`\n*Unity Shader Library*\n\nConverts non-linear hardware Z buffer depth into linear [0, 1] range.",
            overloads: vec![
                BuiltinOverload { label: "float Linear01Depth(float depth, float4 zBufferParam)", params: vec!["float depth", "float4 zBufferParam"] },
            ],
        },
        BuiltinFunction {
            name: "SampleSceneDepth",
            description: "### `SampleSceneDepth`\n*Unity URP / DeclareDepthTexture.hlsl*\n\nSamples the screen depth buffer texture (`_CameraDepthTexture`).",
            overloads: vec![
                BuiltinOverload { label: "float SampleSceneDepth(float2 uv)", params: vec!["float2 uv"] },
            ],
        },
        BuiltinFunction {
            name: "SampleSceneColor",
            description: "### `SampleSceneColor`\n*Unity URP / DeclareOpaqueTexture.hlsl*\n\nSamples the camera opaque color texture (`_CameraOpaqueTexture`).",
            overloads: vec![
                BuiltinOverload { label: "float3 SampleSceneColor(float2 uv)", params: vec!["float2 uv"] },
            ],
        },
        BuiltinFunction {
            name: "SAMPLE_TEXTURE2D_LOD",
            description: "### `SAMPLE_TEXTURE2D_LOD`\n*Unity URP Macro / Common.hlsl*\n\nSamples a 2D texture at an explicit level-of-detail (mip level).",
            overloads: vec![
                BuiltinOverload { label: "float4 SAMPLE_TEXTURE2D_LOD(Texture2D textureName, SamplerState samplerName, float2 coord2, float lod)", params: vec!["Texture2D textureName", "SamplerState samplerName", "float2 coord2", "float lod"] },
            ],
        },
        BuiltinFunction {
            name: "SAMPLE_TEXTURE2D_BIAS",
            description: "### `SAMPLE_TEXTURE2D_BIAS`\n*Unity URP Macro / Common.hlsl*\n\nSamples a 2D texture with a specified mip level bias offset.",
            overloads: vec![
                BuiltinOverload { label: "float4 SAMPLE_TEXTURE2D_BIAS(Texture2D textureName, SamplerState samplerName, float2 coord2, float bias)", params: vec!["Texture2D textureName", "SamplerState samplerName", "float2 coord2", "float bias"] },
            ],
        },
        BuiltinFunction {
            name: "SAMPLE_TEXTURE2D_ARRAY",
            description: "### `SAMPLE_TEXTURE2D_ARRAY`\n*Unity URP Macro / Common.hlsl*\n\nSamples a slice from a Texture2DArray.",
            overloads: vec![
                BuiltinOverload { label: "float4 SAMPLE_TEXTURE2D_ARRAY(Texture2DArray textureName, SamplerState samplerName, float2 coord2, float index)", params: vec!["Texture2DArray textureName", "SamplerState samplerName", "float2 coord2", "float index"] },
            ],
        },
        BuiltinFunction {
            name: "SAMPLE_TEXTURECUBE",
            description: "### `SAMPLE_TEXTURECUBE`\n*Unity URP Macro / Common.hlsl*\n\nSamples a cubemap reflection texture using a 3D direction vector.",
            overloads: vec![
                BuiltinOverload { label: "float4 SAMPLE_TEXTURECUBE(TextureCube textureName, SamplerState samplerName, float3 coord3)", params: vec!["TextureCube textureName", "SamplerState samplerName", "float3 coord3"] },
            ],
        },
        BuiltinFunction {
            name: "SAMPLE_TEXTURECUBE_LOD",
            description: "### `SAMPLE_TEXTURECUBE_LOD`\n*Unity URP Macro / Common.hlsl*\n\nSamples a cubemap texture at an explicit mip level (commonly used for roughness-based specular IBL reflections).",
            overloads: vec![
                BuiltinOverload { label: "float4 SAMPLE_TEXTURECUBE_LOD(TextureCube textureName, SamplerState samplerName, float3 coord3, float lod)", params: vec!["TextureCube textureName", "SamplerState samplerName", "float3 coord3", "float lod"] },
            ],
        },
        BuiltinFunction {
            name: "SAMPLE_DEPTH_TEXTURE",
            description: "### `SAMPLE_DEPTH_TEXTURE`\n*Unity URP Macro / Common.hlsl*\n\nSamples a single float depth value from a depth texture.",
            overloads: vec![
                BuiltinOverload { label: "float SAMPLE_DEPTH_TEXTURE(Texture2D textureName, SamplerState samplerName, float2 coord2)", params: vec!["Texture2D textureName", "SamplerState samplerName", "float2 coord2"] },
            ],
        },
        BuiltinFunction {
            name: "LightingPhysicallyBased",
            description: "### `LightingPhysicallyBased`\n*Unity URP / Lighting.hlsl*\n\nCalculates physically based BRDF direct lighting from a Light source on a surface.",
            overloads: vec![
                BuiltinOverload { label: "half3 LightingPhysicallyBased(BRDFData brdfData, Light light, half3 normalWS, half3 viewDirectionWS)", params: vec!["BRDFData brdfData", "Light light", "half3 normalWS", "half3 viewDirectionWS"] },
            ],
        },
        BuiltinFunction {
            name: "LightingSpecular",
            description: "### `LightingSpecular`\n*Unity URP / Lighting.hlsl*\n\nComputes Blinn-Phong specular highlight illumination.",
            overloads: vec![
                BuiltinOverload { label: "half3 LightingSpecular(half3 lightColor, half3 lightDir, half3 normalWS, half3 viewDirectionWS, half4 specular, half smoothness)", params: vec!["half3 lightColor", "half3 lightDir", "half3 normalWS", "half3 viewDirectionWS", "half4 specular", "half smoothness"] },
            ],
        },
    ];
    proof {
        reveal(builtin_part_6);
        assert(r@[0].overloads@[0]@.params =~= builtin_part_6()[0].overloads[0].params);
        assert(r@[0]@.overloads =~= builtin_part_6()[0].overloads);
        assert(r@[1].overloads@[0]@.params =~= builtin_part_6()[1].overloads[0].params);
        assert(r@[1]@.overloads =~= builtin_part_6()[1].overloads);
        assert(r@[2].overloads@[0]@.params =~= builtin_part_6()[2].overloads[0].params);
        assert(r@[2]@.overloads =~= builtin_part_6()[2].overloads);
        assert(r@[3].overloads@[0]@.params =~= builtin_part_6()[3].overloads[0].params);
        assert(r@[3]@.overloads =~= builtin_part_6()[3].overloads);
        assert(r@[4].overloads@[0]@.params =~= builtin_part_6()[4].overloads[0].params);
        assert(r@[4]@.overloads =~= builtin_part_6()[4].overloads);
        assert(r@[5].overloads@[0]@.params =~= builtin_part_6()[5].overloads[0].params);
        assert(r@[5]@.overloads =~= builtin_part_6()[5].overloads);
        assert(r@[6].overloads@[0]@.params =~= builtin_part_6()[6].overloads[0].params);
        assert(r@[6]@.overloads =~= builtin_part_6()[6].overloads);
        assert(r@[7].overloads@[0]@.params =~= builtin_part_6()[7].overloads[0].params);
        assert(r@[7]@.overloads =~= builtin_part_6()[7].overloads);
        assert(r@[8].overloads@[0]@.params =~= builtin_part_6()[8].overloads[0].params);
        assert(r@[8]@.overloads =~= builtin_part_6()[8].overloads);
        assert(r@[9].overloads@[0]@.params =~= builtin_part_6()[9].overloads[0].params);
        assert(r@[9]@.overloads =~= builtin_part_6()[9].overloads);
        assert(r@[10].overloads@[0]@.params =~= builtin_part_6()[10].overloads[0].params);
        assert(r@[10]@.overloads =~= builtin_part_6()[10].overloads);
        assert(r@[11].overloads@[0]@.params =~= builtin_part_6()[11].overloads[0].params);
        assert(r@[11]@.overloads =~= builtin_part_6()[11].overloads);
        assert(r@[12].overloads@[0]@.params =~= builtin_part_6()[12].overloads[0].params);
        assert(r@[12]@.overloads =~= builtin_part_6()[12].overloads);
        assert(r@[13].overloads@[0]@.params =~= builtin_part_6()[13].overloads[0].params);
        assert(r@[13].overloads@[1]@.params =~= builtin_part_6()[13].overloads[1].params);
        assert(r@[13]@.overloads =~= builtin_part_6()[13].overloads);
        assert(r@[14].overloads@[0]@.params =~= builtin_part_6()[14].overloads[0].params);
        assert(r@[14]@.overloads =~= builtin_part_6()[14].overloads);
        assert(r@[15].overloads@[0]@.params =~= builtin_part_6()[15].overloads[0].params);
        assert(r@[15]@.overloads =~= builtin_part_6()[15].overloads);
        assert(r@[16].overloads@[0]@.params =~= builtin_part_6()[16].overloads[0].params);
        assert(r@[16]@.overloads =~= builtin_part_6()[16].overloads);
        assert(r@[17].overloads@[0]@.params =~= builtin_part_6()[17].overloads[0].params);
        assert(r@[17]@.overloads =~= builtin_part_6()[17].overloads);
        assert(r@[18].overloads@[0]@.params =~= builtin_part_6()[18].overloads[0].params);
        assert(r@[18]@.overloads =~= builtin_part_6()[18].overloads);
        assert(r@[19].overloads@[0]@.params =~= builtin_part_6()[19].overloads[0].params);
        assert(r@[19]@.overloads =~= builtin_part_6()[19].overloads);
        assert(r@[20].overloads@[0]@.params =~= builtin_part_6()[20].overloads[0].params);
        assert(r@[20]@.overloads =~= builtin_part_6()[20].overloads);
        assert(r@[21].overloads@[0]@.params =~= builtin_part_6()[21].overloads[0].params);
        assert(r@[21]@.overloads =~= builtin_part_6()[21].overloads);
        assert(r@[22].overloads@[0]@.params =~= builtin_part_6()[22].overloads[0].params);
        assert(r@[22]@.overloads =~= builtin_part_6()[22].overloads);
        assert(r@[23].overloads@[0]@.params =~= builtin_part_6()[23].overloads[0].params);
        assert(r@[23]@.overloads =~= builtin_part_6()[23].overloads);
        assert(r@[24].overloads@[0]@.params =~= builtin_part_6()[24].overloads[0].params);
        assert(r@[24]@.overloads =~= builtin_part_6()[24].overloads);
        assert(r@[25].overloads@[0]@.params =~= builtin_part_6()[25].overloads[0].params);
        assert(r@[25]@.overloads =~= builtin_part_6()[25].overloads);
        assert(functions_view(r@) =~= builtin_part_6());
    }
    r
}

/// Entries 182 to 202 of the function table.
#[verifier::opaque]
pub open spec fn builtin_part_7() -> Seq<FunctionDoc> {
    seq![
        FunctionDoc {
            name: "UniversalFragmentPBR"@,
            description: "### `UniversalFragmentPBR`\n*Unity URP / UniversalFragmentPBR.hlsl*\n\nStandard complete Universal Render Pipeline fragment PBR shading evaluation."@,
            overloads: seq![
                OverloadDoc { label: "half4 UniversalFragmentPBR(inout InputData inputData, SurfaceData surfaceData)"@, params: seq!["inout InputData inputData"@, "SurfaceData surfaceData"@] },
            ],
        },
        FunctionDoc {
            name: "UniversalFragmentBlinnPhong"@,
            description: "### `UniversalFragmentBlinnPhong`\n*Unity URP / UniversalFragmentBlinnPhong.hlsl*\n\nStandard SimpleLit Blinn-Phong fragment evaluation."@,
            overloads: seq![
                OverloadDoc { label: "half4 UniversalFragmentBlinnPhong(inout InputData inputData, SurfaceData surfaceData)"@, params: seq!["inout InputData inputData"@, "SurfaceData surfaceData"@] },
            ],
        },
        FunctionDoc {
            name: "SRGBToLinear"@,
            description: "### `SRGBToLinear`\n*Unity Core Library / Color.hlsl*\n\nConverts color values from sRGB gamma space to linear RGB space."@,
            overloads: seq![
                OverloadDoc { label: "half3 SRGBToLinear(half3 c)"@, params: seq!["half3 c"@] },
                OverloadDoc { label: "half4 SRGBToLinear(half4 c)"@, params: seq!["half4 c"@] },
            ],
        },
        FunctionDoc {
            name: "LinearToSRGB"@,
            description: "### `LinearToSRGB`\n*Unity Core Library / Color.hlsl*\n\nConverts linear color values to standard sRGB gamma space."@,
            overloads: seq![
                OverloadDoc { label: "half3 LinearToSRGB(half3 c)"@, params: seq!["half3 c"@] },
                OverloadDoc { label: "half4 LinearToSRGB(half4 c)"@, params: seq!["half4 c"@] },
            ],
        },
        FunctionDoc {
            name: "FastSRGBToLinear"@,
            description: "### `FastSRGBToLinear`\n*Unity Core Library / Color.hlsl*\n\nApproximates sRGB to linear conversion using quadratic gamma 2.0 approximation ($c^2$)."@,
            overloads: seq![
                OverloadDoc { label: "half3 FastSRGBToLinear(half3 c)"@, params: seq!["half3 c"@] },
            ],
        },
        FunctionDoc {
            name: "FastLinearToSRGB"@,
            description: "### `FastLinearToSRGB`\n*Unity Core Library / Color.hlsl*\n\nApproximates linear to sRGB conversion using square-root gamma 2.0 approximation ($\\sqrt{c}$)."@,
            overloads: seq![
                OverloadDoc { label: "half3 FastLinearToSRGB(half3 c)"@, params: seq!["half3 c"@] },
            ],
        },
        FunctionDoc {
            name: "SafeNormalize"@,
            description: "### `SafeNormalize`\n*Unity & Unreal Math Helper*\n\nNormalizes vector safely, preventing division-by-zero NaN artifacts if vector magnitude is near 0."@,
            overloads: seq![
                OverloadDoc { label: "float3 SafeNormalize(float3 inVec)"@, params: seq!["float3 inVec"@] },
                OverloadDoc { label: "float2 SafeNormalize(float2 inVec)"@, params: seq!["float2 inVec"@] },
            ],
        },
        FunctionDoc {
            name: "SafePositivePow"@,
            description: "### `SafePositivePow`\n*Unity Core Library / Common.hlsl*\n\nComputes $\\max(\\text{base}, 0)^{\\text{power}}$ safely avoiding negative base undefined behaviors."@,
            overloads: seq![
                OverloadDoc { label: "float SafePositivePow(float base, float power)"@, params: seq!["float base"@, "float power"@] },
            ],
        },
        FunctionDoc {
            name: "UnityWorldToViewPos"@,
            description: "### `UnityWorldToViewPos`\n*Unity Built-in / UnityCG.cginc*\n\nTransforms a world space position into view (camera) space."@,
            overloads: seq![
                OverloadDoc { label: "float3 UnityWorldToViewPos(float3 pos)"@, params: seq!["float3 pos"@] },
            ],
        },
        FunctionDoc {
            name: "UnityViewToClipPos"@,
            description: "### `UnityViewToClipPos`\n*Unity Built-in / UnityCG.cginc*\n\nTransforms a view space position into clip space using projection matrix."@,
            overloads: seq![
                OverloadDoc { label: "float4 UnityViewToClipPos(float3 pos)"@, params: seq!["float3 pos"@] },
            ],
        },
        FunctionDoc {
            name: "GetWorldNormal"@,
            description: "### `GetWorldNormal`\n*Unreal Engine Material Template*\n\nReturns the interpolated world space normal vector of the pixel."@,
            overloads: seq![
                OverloadDoc { label: "float3 GetWorldNormal(FMaterialPixelParameters Parameters)"@, params: seq!["FMaterialPixelParameters Parameters"@] },
            ],
        },
        FunctionDoc {
            name: "GetMaterialEmissive"@,
            description: "### `GetMaterialEmissive`\n*Unreal Engine Material Template*\n\nEvaluates the emissive color output from the pixel material graph."@,
            overloads: seq![
                OverloadDoc { label: "float3 GetMaterialEmissive(FPixelMaterialInputs PixelMaterialInputs)"@, params: seq!["FPixelMaterialInputs PixelMaterialInputs"@] },
            ],
        },
        FunctionDoc {
            name: "GetMaterialBaseColor"@,
            description: "### `GetMaterialBaseColor`\n*Unreal Engine Material Template*\n\nEvaluates the diffuse albedo base color output from the pixel material inputs."@,
            overloads: seq![
                OverloadDoc { label: "float3 GetMaterialBaseColor(FPixelMaterialInputs PixelMaterialInputs)"@, params: seq!["FPixelMaterialInputs PixelMaterialInputs"@] },
            ],
        },
        FunctionDoc {
            name: "AntialiasedTextureMask"@,
            description: "### `AntialiasedTextureMask`\n*Unreal Engine Material Function*\n\nProduces an anti-aliased procedural alpha cutout mask from a texture channel."@,
            overloads: seq![
                OverloadDoc { label: "float AntialiasedTextureMask(Texture2D Tex, SamplerState Sampler, float2 UV, float Threshold, float Width)"@, params: seq!["Texture2D Tex"@, "SamplerState Sampler"@, "float2 UV"@, "float Threshold"@, "float Width"@] },
            ],
        },
        FunctionDoc {
            name: "VectorToRadialValue"@,
            description: "### `VectorToRadialValue`\n*Unreal Engine Material Function*\n\nConverts a 2D UV direction offset into a normalized angle $[0, 1]$."@,
            overloads: seq![
                OverloadDoc { label: "float VectorToRadialValue(float2 Vector)"@, params: seq!["float2 Vector"@] },
            ],
        },
        FunctionDoc {
            name: "UnitVectorToOctahedron"@,
            description: "### `UnitVectorToOctahedron`\n*Unreal Engine Octahedral Normal Encoding*\n\nEncodes a 3D unit normal vector into a 2D octahedral UV coordinate."@,
            overloads: seq![
                OverloadDoc { label: "float2 UnitVectorToOctahedron(float3 N)"@, params: seq!["float3 N"@] },
            ],
        },
        FunctionDoc {
            name: "OctahedronToUnitVector"@,
            description: "### `OctahedronToUnitVector`\n*Unreal Engine Octahedral Normal Decoding*\n\nDecodes a 2D octahedral coordinate back into a normalized 3D unit vector."@,
            overloads: seq![
                OverloadDoc { label: "float3 OctahedronToUnitVector(float2 Oct)"@, params: seq!["float2 Oct"@] },
            ],
        },
        FunctionDoc {
            name: "RGBToHSV"@,
            description: "### `RGBToHSV`\n*Unreal Engine / Color Utility*\n\nConverts RGB color tuple to Hue, Saturation, Value (HSV) color space."@,
            overloads: seq![
                OverloadDoc { label: "float3 RGBToHSV(float3 RGB)"@, params: seq!["float3 RGB"@] },
            ],
        },
        FunctionDoc {
            name: "HSVToRGB"@,
            description: "### `HSVToRGB`\n*Unreal Engine / Color Utility*\n\nConverts Hue, Saturation, Value (HSV) color back to RGB space."@,
            overloads: seq![
                OverloadDoc { label: "float3 HSVToRGB(float3 HSV)"@, params: seq!["float3 HSV"@] },
            ],
        },
        FunctionDoc {
            name: "DeriveFilterWidth"@,
            description: "### `DeriveFilterWidth`\n*Unreal Engine Utility*\n\nCalculates anisotropic filter footprint width from UV screen space derivatives."@,
            overloads: seq![
                OverloadDoc { label: "float2 DeriveFilterWidth(float2 UV)"@, params: seq!["float2 UV"@] },
            ],
        },
        FunctionDoc {
            name: "DepthBiasedAlpha"@,
            description: "### `DepthBiasedAlpha`\n*Unreal Engine Material Function*\n\nCalculates soft particle depth fading alpha factor against scene geometry."@,
            overloads: seq![
                OverloadDoc { label: "float DepthBiasedAlpha(FMaterialPixelParameters Parameters, float InAlpha, float InBias, float InFactor)"@, params: seq!["FMaterialPixelParameters Parameters"@, "float InAlpha"@, "float InBias"@, "float InFactor"@] },
            ],
        },
    ]
}

/// Builds entries 182 to 202 of the function table.
fn builtin_functions_7() -> (r: Vec<BuiltinFunction>)
    ensures
        functions_view(r@) == builtin_part_7(),
{
    let r = vec![
        BuiltinFunction {
            name: "UniversalFragmentPBR",
            description: "### `UniversalFragmentPBR`\n*Unity URP / UniversalFragmentPBR.hlsl*\n\nStandard complete Universal Render Pipeline fragment PBR shading evaluation.",
            overloads: vec![
                BuiltinOverload { label: "half4 UniversalFragmentPBR(inout InputData inputData, SurfaceData surfaceData)", params: vec!["inout InputData inputData", "SurfaceData surfaceData"] },
            ],
        },
        BuiltinFunction {
            name: "UniversalFragmentBlinnPhong",
            description: "### `UniversalFragmentBlinnPhong`\n*Unity URP / UniversalFragmentBlinnPhong.hlsl*\n\nStandard SimpleLit Blinn-Phong fragment evaluation.",
            overloads: vec![
                BuiltinOverload { label: "half4 UniversalFragmentBlinnPhong(inout InputData inputData, SurfaceData surfaceData)", params: vec!["inout InputData inputData", "SurfaceData surfaceData"] },
            ],
        },
        BuiltinFunction {
            name: "SRGBToLinear",
            description: "### `SRGBToLinear`\n*Unity Core Library / Color.hlsl*\n\nConverts color values from sRGB gamma space to linear RGB space.",
            overloads: vec![
                BuiltinOverload { label: "half3 SRGBToLinear(half3 c)", params: vec!["half3 c"] },
                BuiltinOverload { label: "half4 SRGBToLinear(half4 c)", params: vec!["half4 c"] },
            ],
        },
        BuiltinFunction {
            name: "LinearToSRGB",
            description: "### `LinearToSRGB`\n*Unity Core Library / Color.hlsl*\n\nConverts linear color values to standard sRGB gamma space.",
            overloads: vec![
                BuiltinOverload { label: "half3 LinearToSRGB(half3 c)", params: vec!["half3 c"] },
                BuiltinOverload { label: "half4 LinearToSRGB(half4 c)", params: vec!["half4 c"] },
            ],
        },
        BuiltinFunction {
            name: "FastSRGBToLinear",
            description: "### `FastSRGBToLinear`\n*Unity Core Library / Color.hlsl*\n\nApproximates sRGB to linear conversion using quadratic gamma 2.0 approximation ($c^2$).",
            overloads: vec![
                BuiltinOverload { label: "half3 FastSRGBToLinear(half3 c)", params: vec!["half3 c"] },
            ],
        },
        BuiltinFunction {
            name: "FastLinearToSRGB",
            description: "### `FastLinearToSRGB`\n*Unity Core Library / Color.hlsl*\n\nApproximates linear to sRGB conversion using square-root gamma 2.0 approximation ($\\sqrt{c}$).",
            overloads: vec![
                BuiltinOverload { label: "half3 FastLinearToSRGB(half3 c)", params: vec!["half3 c"] },
            ],
        },
        BuiltinFunction {
            name: "SafeNormalize",
            description: "### `SafeNormalize`\n*Unity & Unreal Math Helper*\n\nNormalizes vector safely, preventing division-by-zero NaN artifacts if vector magnitude is near 0.",
            overloads: vec![
                BuiltinOverload { label: "float3 SafeNormalize(float3 inVec)", params: vec!["float3 inVec"] },
                BuiltinOverload { label: "float2 SafeNormalize(float2 inVec)", params: vec!["float2 inVec"] },
            ],
        },
        BuiltinFunction {
            name: "SafePositivePow",
            description: "### `SafePositivePow`\n*Unity Core Library / Common.hlsl*\n\nComputes $\\max(\\text{base}, 0)^{\\text{power}}$ safely avoiding negative base undefined behaviors.",
            overloads: vec![
                BuiltinOverload { label: "float SafePositivePow(float base, float power)", params: vec!["float base", "float power"] },
            ],
        },
        BuiltinFunction {
            name: "UnityWorldToViewPos",
            description: "### `UnityWorldToViewPos`\n*Unity Built-in / UnityCG.cginc*\n\nTransforms a world space position into view (camera) space.",
            overloads: vec![
                BuiltinOverload { label: "float3 UnityWorldToViewPos(float3 pos)", params: vec!["float3 pos"] },
            ],
        },
        BuiltinFunction {
            name: "UnityViewToClipPos",
            description: "### `UnityViewToClipPos`\n*Unity Built-in / UnityCG.cginc*\n\nTransforms a view space position into clip space using projection matrix.",
            overloads: vec![
                BuiltinOverload { label: "float4 UnityViewToClipPos(float3 pos)", params: vec!["float3 pos"] },
            ],
        },
        BuiltinFunction {
            name: "GetWorldNormal",
            description: "### `GetWorldNormal`\n*Unreal Engine Material Template*\n\nReturns the interpolated world space normal vector of the pixel.",
            overloads: vec![
                BuiltinOverload { label: "float3 GetWorldNormal(FMaterialPixelParameters Parameters)", params: vec!["FMaterialPixelParameters Parameters"] },
            ],
        },
        BuiltinFunction {
            name: "GetMaterialEmissive",
            description: "### `GetMaterialEmissive`\n*Unreal Engine Material Template*\n\nEvaluates the emissive color output from the pixel material graph.",
            overloads: vec![
                BuiltinOverload { label: "float3 GetMaterialEmissive(FPixelMaterialInputs PixelMaterialInputs)", params: vec!["FPixelMaterialInputs PixelMaterialInputs"] },
            ],
        },
        BuiltinFunction {
            name: "GetMaterialBaseColor",
            description: "### `GetMaterialBaseColor`\n*Unreal Engine Material Template*\n\nEvaluates the diffuse albedo base color output from the pixel material inputs.",
            overloads: vec![
                BuiltinOverload { label: "float3 GetMaterialBaseColor(FPixelMaterialInputs PixelMaterialInputs)", params: vec!["FPixelMaterialInputs PixelMaterialInputs"] },
            ],
        },
        BuiltinFunction {
            name: "AntialiasedTextureMask",
            description: "### `AntialiasedTextureMask`\n*Unreal Engine Material Function*\n\nProduces an anti-aliased procedural alpha cutout mask from a texture channel.",
            overloads: vec![
                BuiltinOverload { label: "float AntialiasedTextureMask(Texture2D Tex, SamplerState Sampler, float2 UV, float Threshold, float Width)", params: vec!["Texture2D Tex", "SamplerState Sampler", "float2 UV", "float Threshold", "float Width"] },
            ],
        },
        BuiltinFunction {
            name: "VectorToRadialValue",
            description: "### `VectorToRadialValue`\n*Unreal Engine Material Function*\n\nConverts a 2D UV direction offset into a normalized angle $[0, 1]$.",
            overloads: vec![
                BuiltinOverload { label: "float VectorToRadialValue(float2 Vector)", params: vec!["float2 Vector"] },
            ],
        },
        BuiltinFunction {
            name: "UnitVectorToOctahedron",
            description: "### `UnitVectorToOctahedron`\n*Unreal Engine Octahedral Normal Encoding*\n\nEncodes a 3D unit normal vector into a 2D octahedral UV coordinate.",
            overloads: vec![
                BuiltinOverload { label: "float2 UnitVectorToOctahedron(float3 N)", params: vec!["float3 N"] },
            ],
        },
        BuiltinFunction {
            name: "OctahedronToUnitVector",
            description: "### `OctahedronToUnitVector`\n*Unreal Engine Octahedral Normal Decoding*\n\nDecodes a 2D octahedral coordinate back into a normalized 3D unit vector.",
            overloads: vec![
                BuiltinOverload { label: "float3 OctahedronToUnitVector(float2 Oct)", params: vec!["float2 Oct"] },
            ],
        },
        BuiltinFunction {
            name: "RGBToHSV",
            description: "### `RGBToHSV`\n*Unreal Engine / Color Utility*\n\nConverts RGB color tuple to Hue, Saturation, Value (HSV) color space.",
            overloads: vec![
                BuiltinOverload { label: "float3 RGBToHSV(float3 RGB)", params: vec!["float3 RGB"] },
            ],
        },
        BuiltinFunction {
            name: "HSVToRGB",
            description: "### `HSVToRGB`\n*Unreal Engine / Color Utility*\n\nConverts Hue, Saturation, Value (HSV) color back to RGB space.",
            overloads: vec![
                BuiltinOverload { label: "float3 HSVToRGB(float3 HSV)", params: vec!["float3 HSV"] },
            ],
        },
        BuiltinFunction {
            name: "DeriveFilterWidth",
            description: "### `DeriveFilterWidth`\n*Unreal Engine Utility*\n\nCalculates anisotropic filter footprint width from UV screen space derivatives.",
            overloads: vec![
                BuiltinOverload { label: "float2 DeriveFilterWidth(float2 UV)", params: vec!["float2 UV"] },
            ],
        },
        BuiltinFunction {
            name: "DepthBiasedAlpha",
            description: "### `DepthBiasedAlpha`\n*Unreal Engine Material Function*\n\nCalculates soft particle depth fading alpha factor against scene geometry.",
            overloads: vec![
                BuiltinOverload { label: "float DepthBiasedAlpha(FMaterialPixelParameters Parameters, float InAlpha, float InBias, float InFactor)", params: vec!["FMaterialPixelParameters Parameters", "float InAlpha", "float InBias", "float InFactor"] },
            ],
        },
    ];
    proof {
        reveal(builtin_part_7);
        assert(r@[0].overloads@[0]@.params =~= builtin_part_7()[0].overloads[0].params);
        assert(r@[0]@.overloads =~= builtin_part_7()[0].overloads);
        assert(r@[1].overloads@[0]@.params =~= builtin_part_7()[1].overloads[0].params);
        assert(r@[1]@.overloads =~= builtin_part_7()[1].overloads);
        assert(r@[2].overloads@[0]@.params =~= builtin_part_7()[2].overloads[0].params);
        assert(r@[2].overloads@[1]@.params =~= builtin_part_7()[2].overloads[1].params);
        assert(r@[2]@.overloads =~= builtin_part_7()[2].overloads);
        assert(r@[3].overloads@[0]@.params =~= builtin_part_7()[3].overloads[0].params);
        assert(r@[3].overloads@[1]@.params =~= builtin_part_7()[3].overloads[1].params);
        assert(r@[3]@.overloads =~= builtin_part_7()[3].overloads);
        assert(r@[4].overloads@[0]@.params =~= builtin_part_7()[4].overloads[0].params);
        assert(r@[4]@.overloads =~= builtin_part_7()[4].overloads);
        assert(r@[5].overloads@[0]@.params =~= builtin_part_7()[5].overloads[0].params);
        assert(r@[5]@.overloads =~= builtin_part_7()[5].overloads);
        assert(r@[6].overloads@[0]@.params =~= builtin_part_7()[6].overloads[0].params);
        assert(r@[6].overloads@[1]@.params =~= builtin_part_7()[6].overloads[1].params);
        assert(r@[6]@.overloads =~= builtin_part_7()[6].overloads);
        assert(r@[7].overloads@[0]@.params =~= builtin_part_7()[7].overloads[0].params);
        assert(r@[7]@.overloads =~= builtin_part_7()[7].overloads);
        assert(r@[8].overloads@[0]@.params =~= builtin_part_7()[8].overloads[0].params);
        assert(r@[8]@.overloads =~= builtin_part_7()[8].overloads);
        assert(r@[9].overloads@[0]@.params =~= builtin_part_7()[9].overloads[0].params);
        assert(r@[9]@.overloads =~= builtin_part_7()[9].overloads);
        assert(r@[10].overloads@[0]@.params =~= builtin_part_7()[10].overloads[0].params);
        assert(r@[10]@.overloads =~= builtin_part_7()[10].overloads);
        assert(r@[11].overloads@[0]@.params =~= builtin_part_7()[11].overloads[0].params);
        assert(r@[11]@.overloads =~= builtin_part_7()[11].overloads);
        assert(r@[12].overloads@[0]@.params =~= builtin_part_7()[12].overloads[0].params);
        assert(r@[12]@.overloads =~= builtin_part_7()[12].overloads);
        assert(r@[13].overloads@[0]@.params =~= builtin_part_7()[13].overloads[0].params);
        assert(r@[13]@.overloads =~= builtin_part_7()[13].overloads);
        assert(r@[14].overloads@[0]@.params =~= builtin_part_7()[14].overloads[0].params);
        assert(r@[14]@.overloads =~= builtin_part_7()[14].overloads);
        assert(r@[15].overloads@[0]@.params =~= builtin_part_7()[15].overloads[0].params);
        assert(r@[15]@.overloads =~= builtin_part_7()[15].overloads);
        assert(r@[16].overloads@[0]@.params =~= builtin_part_7()[16].overloads[0].params);
        assert(r@[16]@.overloads =~= builtin_part_7()[16].overloads);
        assert(r@[17].overloads@[0]@.params =~= builtin_part_7()[17].overloads[0].params);
        assert(r@[17]@.overloads =~= builtin_part_7()[17].overloads);
        assert(r@[18].overloads@[0]@.params =~= builtin_part_7()[18].overloads[0].params);
        assert(r@[18]@.overloads =~= builtin_part_7()[18].overloads);
        assert(r@[19].overloads@[0]@.params =~= builtin_part_7()[19].overloads[0].params);
        assert(r@[19]@.overloads =~= builtin_part_7()[19].overloads);
        assert(r@[20].overloads@[0]@.params =~= builtin_part_7()[20].overloads[0].params);
        assert(r@[20]@.overloads =~= builtin_part_7()[20].overloads);
        assert(functions_view(r@) =~= builtin_part_7());
    }
    r
}

/// The whole function table, in the order in which lookups search it.
pub open spec fn builtin_table() -> Seq<FunctionDoc> {
    builtin_part_0() + builtin_part_1() + builtin_part_2() + builtin_part_3() + builtin_part_4() + builtin_part_5() + builtin_part_6() + builtin_part_7()
}

/// The whole function table.
pub fn builtin_functions() -> (r: Vec<BuiltinFunction>)
    ensures
        functions_view(r@) == builtin_table(),
{
    let mut r = builtin_functions_0();
    let mut p1 = builtin_functions_1();
    r.append(&mut p1);
    let mut p2 = builtin_functions_2();
    r.append(&mut p2);
    let mut p3 = builtin_functions_3();
    r.append(&mut p3);
    let mut p4 = builtin_functions_4();
    r.append(&mut p4);
    let mut p5 = builtin_functions_5();
    r.append(&mut p5);
    let mut p6 = builtin_functions_6();
    r.append(&mut p6);
    let mut p7 = builtin_functions_7();
    r.append(&mut p7);
    proof {
        assert(functions_view(r@) =~= builtin_table());
    }
    r
}

} // verus!
