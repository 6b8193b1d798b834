//! The tables of engine variables and of texture and buffer methods.
use vstd::prelude::*;
use crate::docs::{engine_view, methods_view, EngineDoc, EngineVariable, MethodDoc, MethodInfo};

verus! {

/// Entries 0 to 34 of the engine variable table.
#[verifier::opaque]
pub open spec fn engine_part_0() -> Seq<EngineDoc> {
    seq![
        EngineDoc {
            name: "_Time"@,
            var_type: "float4"@,
            engine: "unity"@,
            detail: "float4 _Time (t/20, t, t*2, t*3)"@,
            description: "### `_Time`\n*Unity Built-in Shader Variable*\n\nTime since level load in seconds:\n- `x`: `t / 20`\n- `y`: `t` (current time in seconds)\n- `z`: `t * 2`\n- `w`: `t * 3`"@,
        },
        EngineDoc {
            name: "_SinTime"@,
            var_type: "float4"@,
            engine: "unity"@,
            detail: "float4 _SinTime (sin(t/8), sin(t/4), sin(t/2), sin(t))"@,
            description: "### `_SinTime`\n*Unity Built-in Shader Variable*\n\nSine of time since level load:\n- `x`: `sin(t / 8)`\n- `y`: `sin(t / 4)`\n- `z`: `sin(t / 2)`\n- `w`: `sin(t)`"@,
        },
        EngineDoc {
            name: "_CosTime"@,
            var_type: "float4"@,
            engine: "unity"@,
            detail: "float4 _CosTime (cos(t/8), cos(t/4), cos(t/2), cos(t))"@,
            description: "### `_CosTime`\n*Unity Built-in Shader Variable*\n\nCosine of time since level load:\n- `x`: `cos(t / 8)`\n- `y`: `cos(t / 4)`\n- `z`: `cos(t / 2)`\n- `w`: `cos(t)`"@,
        },
        EngineDoc {
            name: "unity_DeltaTime"@,
            var_type: "float4"@,
            engine: "unity"@,
            detail: "float4 unity_DeltaTime (dt, 1/dt, smoothDt, 1/smoothDt)"@,
            description: "### `unity_DeltaTime`\n*Unity Built-in Shader Variable*\n\nDelta time between rendering frames in seconds:\n- `x`: `dt` (frame delta time)\n- `y`: `1.0 / dt`\n- `z`: `smoothDeltaTime`\n- `w`: `1.0 / smoothDeltaTime`"@,
        },
        EngineDoc {
            name: "_WorldSpaceCameraPos"@,
            var_type: "float3"@,
            engine: "unity"@,
            detail: "float3 _WorldSpaceCameraPos"@,
            description: "### `_WorldSpaceCameraPos`\n*Unity Built-in Shader Variable*\n\nCamera position in World Space coordinates (`float3`)."@,
        },
        EngineDoc {
            name: "_ProjectionParams"@,
            var_type: "float4"@,
            engine: "unity"@,
            detail: "float4 _ProjectionParams (sign, near, far, 1/far)"@,
            description: "### `_ProjectionParams`\n*Unity Built-in Shader Variable*\n\nCamera projection parameters:\n- `x`: `1.0` (or `-1.0` if flipping projection for render-textures)\n- `y`: Camera near plane\n- `z`: Camera far plane\n- `w`: `1.0 / far`"@,
        },
        EngineDoc {
            name: "_ScreenParams"@,
            var_type: "float4"@,
            engine: "unity"@,
            detail: "float4 _ScreenParams (width, height, 1+1/width, 1+1/height)"@,
            description: "### `_ScreenParams`\n*Unity Built-in Shader Variable*\n\nCurrent render target resolution in pixels:\n- `x`: Width in pixels\n- `y`: Height in pixels\n- `z`: `1.0 + 1.0 / width`\n- `w`: `1.0 + 1.0 / height`"@,
        },
        EngineDoc {
            name: "_ScaledScreenParams"@,
            var_type: "float4"@,
            engine: "unity"@,
            detail: "float4 _ScaledScreenParams (URP)"@,
            description: "### `_ScaledScreenParams`\n*Unity URP Shader Variable*\n\nRender scale-adjusted screen resolution in pixels for Dynamic Resolution Scaling."@,
        },
        EngineDoc {
            name: "_ZBufferParams"@,
            var_type: "float4"@,
            engine: "unity"@,
            detail: "float4 _ZBufferParams"@,
            description: "### `_ZBufferParams`\n*Unity Built-in Shader Variable*\n\nParameters to linearize non-linear Z buffer depth values to view space distance."@,
        },
        EngineDoc {
            name: "unity_OrthoParams"@,
            var_type: "float4"@,
            engine: "unity"@,
            detail: "float4 unity_OrthoParams (width, height, unused, isOrtho)"@,
            description: "### `unity_OrthoParams`\n*Unity Built-in Shader Variable*\n\nOrthographic projection parameters:\n- `x`: Orthographic width\n- `y`: Orthographic height\n- `w`: `1.0` if orthographic camera, `0.0` if perspective"@,
        },
        EngineDoc {
            name: "unity_CameraWorldClipPlanes"@,
            var_type: "float4[6]"@,
            engine: "unity"@,
            detail: "float4 unity_CameraWorldClipPlanes[6]"@,
            description: "### `unity_CameraWorldClipPlanes`\n*Unity Built-in Shader Variable*\n\nWorld space frustum clipping planes (Left, Right, Bottom, Top, Near, Far)."@,
        },
        EngineDoc {
            name: "unity_ObjectToWorld"@,
            var_type: "float4x4"@,
            engine: "unity"@,
            detail: "float4x4 unity_ObjectToWorld"@,
            description: "### `unity_ObjectToWorld`\n*Unity Transformation Matrix*\n\nCurrent model matrix. Transforms coordinates from Object Space to World Space."@,
        },
        EngineDoc {
            name: "unity_WorldToObject"@,
            var_type: "float4x4"@,
            engine: "unity"@,
            detail: "float4x4 unity_WorldToObject"@,
            description: "### `unity_WorldToObject`\n*Unity Transformation Matrix*\n\nInverse model matrix. Transforms coordinates from World Space to Object Space."@,
        },
        EngineDoc {
            name: "unity_MatrixVP"@,
            var_type: "float4x4"@,
            engine: "unity"@,
            detail: "float4x4 unity_MatrixVP"@,
            description: "### `unity_MatrixVP`\n*Unity Transformation Matrix*\n\nView-Projection matrix. Transforms coordinates from World Space to Homogeneous Clip Space."@,
        },
        EngineDoc {
            name: "unity_MatrixV"@,
            var_type: "float4x4"@,
            engine: "unity"@,
            detail: "float4x4 unity_MatrixV"@,
            description: "### `unity_MatrixV`\n*Unity Transformation Matrix*\n\nView matrix. Transforms coordinates from World Space to Camera (View) Space."@,
        },
        EngineDoc {
            name: "unity_MatrixInvV"@,
            var_type: "float4x4"@,
            engine: "unity"@,
            detail: "float4x4 unity_MatrixInvV"@,
            description: "### `unity_MatrixInvV`\n*Unity Transformation Matrix*\n\nInverse View matrix. Transforms coordinates from Camera (View) Space to World Space."@,
        },
        EngineDoc {
            name: "unity_MatrixP"@,
            var_type: "float4x4"@,
            engine: "unity"@,
            detail: "float4x4 unity_MatrixP"@,
            description: "### `unity_MatrixP`\n*Unity Transformation Matrix*\n\nProjection matrix. Transforms coordinates from Camera (View) Space to Clip Space."@,
        },
        EngineDoc {
            name: "unity_MatrixInvP"@,
            var_type: "float4x4"@,
            engine: "unity"@,
            detail: "float4x4 unity_MatrixInvP"@,
            description: "### `unity_MatrixInvP`\n*Unity Transformation Matrix*\n\nInverse Projection matrix. Transforms coordinates from Clip Space to Camera (View) Space."@,
        },
        EngineDoc {
            name: "UNITY_MATRIX_MVP"@,
            var_type: "float4x4"@,
            engine: "unity"@,
            detail: "float4x4 / macro UNITY_MATRIX_MVP"@,
            description: "### `UNITY_MATRIX_MVP`\n*Unity Transformation Matrix*\n\nModel-View-Projection matrix. Transforms coordinates directly from Object Space to Clip Space."@,
        },
        EngineDoc {
            name: "UNITY_MATRIX_MV"@,
            var_type: "float4x4"@,
            engine: "unity"@,
            detail: "float4x4 UNITY_MATRIX_MV"@,
            description: "### `UNITY_MATRIX_MV`\n*Unity Transformation Matrix*\n\nModel-View matrix. Transforms coordinates from Object Space to Eye/View Space."@,
        },
        EngineDoc {
            name: "UNITY_MATRIX_M"@,
            var_type: "float4x4"@,
            engine: "unity"@,
            detail: "float4x4 UNITY_MATRIX_M"@,
            description: "### `UNITY_MATRIX_M`\n*Unity Transformation Matrix*\n\nAlias for `unity_ObjectToWorld`."@,
        },
        EngineDoc {
            name: "UNITY_MATRIX_V"@,
            var_type: "float4x4"@,
            engine: "unity"@,
            detail: "float4x4 UNITY_MATRIX_V"@,
            description: "### `UNITY_MATRIX_V`\n*Unity Transformation Matrix*\n\nAlias for `unity_MatrixV`."@,
        },
        EngineDoc {
            name: "UNITY_MATRIX_P"@,
            var_type: "float4x4"@,
            engine: "unity"@,
            detail: "float4x4 UNITY_MATRIX_P"@,
            description: "### `UNITY_MATRIX_P`\n*Unity Transformation Matrix*\n\nAlias for `unity_MatrixP`."@,
        },
        EngineDoc {
            name: "UNITY_MATRIX_VP"@,
            var_type: "float4x4"@,
            engine: "unity"@,
            detail: "float4x4 UNITY_MATRIX_VP"@,
            description: "### `UNITY_MATRIX_VP`\n*Unity Transformation Matrix*\n\nAlias for `unity_MatrixVP`."@,
        },
        EngineDoc {
            name: "_WorldSpaceLightPos0"@,
            var_type: "float4"@,
            engine: "unity"@,
            detail: "float4 _WorldSpaceLightPos0"@,
            description: "### `_WorldSpaceLightPos0`\n*Unity Lighting Variable*\n\nPosition or direction of the primary light:\n- `w == 0.0`: Directional light (`xyz` is direction toward light source)\n- `w == 1.0`: Point or Spot light (`xyz` is position in world space)"@,
        },
        EngineDoc {
            name: "_LightColor0"@,
            var_type: "half4"@,
            engine: "unity"@,
            detail: "half4 _LightColor0"@,
            description: "### `_LightColor0`\n*Unity Lighting Variable*\n\nColor and intensity of the main light in the current pass."@,
        },
        EngineDoc {
            name: "_MainLightPosition"@,
            var_type: "float4"@,
            engine: "unity"@,
            detail: "float4 _MainLightPosition (URP)"@,
            description: "### `_MainLightPosition`\n*Unity URP Lighting Variable*\n\nWorld space direction or position of the URP Main Directional Light."@,
        },
        EngineDoc {
            name: "_MainLightColor"@,
            var_type: "half4"@,
            engine: "unity"@,
            detail: "half4 _MainLightColor (URP)"@,
            description: "### `_MainLightColor`\n*Unity URP Lighting Variable*\n\nColor and intensity of the URP Main Directional Light."@,
        },
        EngineDoc {
            name: "_AdditionalLightsCount"@,
            var_type: "half4"@,
            engine: "unity"@,
            detail: "half4 _AdditionalLightsCount (URP)"@,
            description: "### `_AdditionalLightsCount`\n*Unity URP Lighting Variable*\n\n`x` channel specifies the count of non-directional additional lights affecting the current object."@,
        },
        EngineDoc {
            name: "_CameraDepthTexture"@,
            var_type: "Texture2D"@,
            engine: "unity"@,
            detail: "Texture2D _CameraDepthTexture"@,
            description: "### `_CameraDepthTexture`\n*Unity Screen Texture*\n\nScreen-space depth buffer texture rendered by the camera."@,
        },
        EngineDoc {
            name: "_CameraNormalsTexture"@,
            var_type: "Texture2D"@,
            engine: "unity"@,
            detail: "Texture2D _CameraNormalsTexture (URP)"@,
            description: "### `_CameraNormalsTexture`\n*Unity URP Screen Texture*\n\nScreen-space normals texture rendered by the camera during the DepthNormals pass."@,
        },
        EngineDoc {
            name: "_CameraOpaqueTexture"@,
            var_type: "Texture2D"@,
            engine: "unity"@,
            detail: "Texture2D _CameraOpaqueTexture (URP)"@,
            description: "### `_CameraOpaqueTexture`\n*Unity URP Screen Texture*\n\nScreen-space color texture copy captured after rendering all opaque geometry."@,
        },
        EngineDoc {
            name: "TRANSFORM_TEX"@,
            var_type: "macro"@,
            engine: "unity"@,
            detail: "TRANSFORM_TEX(tex, name)"@,
            description: "### `TRANSFORM_TEX(tex, name)`\n*Unity UV Macro*\n\nTransforms UV coordinates using Material Inspector Tiling & Offset (`_ST` vector):\n`((tex.xy) * name##_ST.xy + name##_ST.zw)`"@,
        },
        EngineDoc {
            name: "UnityObjectToClipPos"@,
            var_type: "function"@,
            engine: "unity"@,
            detail: "float4 UnityObjectToClipPos(float3 pos)"@,
            description: "### `UnityObjectToClipPos`\n*Unity Built-in Transform Function*\n\nTransforms coordinates from Object Space to Homogeneous Clip Space."@,
        },
        EngineDoc {
            name: "TransformObjectToHClip"@,
            var_type: "function"@,
            engine: "unity"@,
            detail: "float4 TransformObjectToHClip(float3 positionOS)"@,
            description: "### `TransformObjectToHClip`\n*Unity URP Transform Function*\n\nTransforms vertex position from Object Space to Homogeneous Clip Space."@,
        },
    ]
}

/// Builds entries 0 to 34 of the engine variable table.
fn engine_variables_0() -> (r: Vec<EngineVariable>)
    ensures
        engine_view(r@) == engine_part_0(),
{
    let r = vec![
        EngineVariable {
            name: "_Time",
            var_type: "float4",
            engine: "unity",
            detail: "float4 _Time (t/20, t, t*2, t*3)",
            description: "### `_Time`\n*Unity Built-in Shader Variable*\n\nTime since level load in seconds:\n- `x`: `t / 20`\n- `y`: `t` (current time in seconds)\n- `z`: `t * 2`\n- `w`: `t * 3`",
        },
        EngineVariable {
            name: "_SinTime",
            var_type: "float4",
            engine: "unity",
            detail: "float4 _SinTime (sin(t/8), sin(t/4), sin(t/2), sin(t))",
            description: "### `_SinTime`\n*Unity Built-in Shader Variable*\n\nSine of time since level load:\n- `x`: `sin(t / 8)`\n- `y`: `sin(t / 4)`\n- `z`: `sin(t / 2)`\n- `w`: `sin(t)`",
        },
        EngineVariable {
            name: "_CosTime",
            var_type: "float4",
            engine: "unity",
            detail: "float4 _CosTime (cos(t/8), cos(t/4), cos(t/2), cos(t))",
            description: "### `_CosTime`\n*Unity Built-in Shader Variable*\n\nCosine of time since level load:\n- `x`: `cos(t / 8)`\n- `y`: `cos(t / 4)`\n- `z`: `cos(t / 2)`\n- `w`: `cos(t)`",
        },
        EngineVariable {
            name: "unity_DeltaTime",
            var_type: "float4",
            engine: "unity",
            detail: "float4 unity_DeltaTime (dt, 1/dt, smoothDt, 1/smoothDt)",
            description: "### `unity_DeltaTime`\n*Unity Built-in Shader Variable*\n\nDelta time between rendering frames in seconds:\n- `x`: `dt` (frame delta time)\n- `y`: `1.0 / dt`\n- `z`: `smoothDeltaTime`\n- `w`: `1.0 / smoothDeltaTime`",
        },
        EngineVariable {
            name: "_WorldSpaceCameraPos",
            var_type: "float3",
            engine: "unity",
            detail: "float3 _WorldSpaceCameraPos",
            description: "### `_WorldSpaceCameraPos`\n*Unity Built-in Shader Variable*\n\nCamera position in World Space coordinates (`float3`).",
        },
        EngineVariable {
            name: "_ProjectionParams",
            var_type: "float4",
            engine: "unity",
            detail: "float4 _ProjectionParams (sign, near, far, 1/far)",
            description: "### `_ProjectionParams`\n*Unity Built-in Shader Variable*\n\nCamera projection parameters:\n- `x`: `1.0` (or `-1.0` if flipping projection for render-textures)\n- `y`: Camera near plane\n- `z`: Camera far plane\n- `w`: `1.0 / far`",
        },
        EngineVariable {
            name: "_ScreenParams",
            var_type: "float4",
            engine: "unity",
            detail: "float4 _ScreenParams (width, height, 1+1/width, 1+1/height)",
            description: "### `_ScreenParams`\n*Unity Built-in Shader Variable*\n\nCurrent render target resolution in pixels:\n- `x`: Width in pixels\n- `y`: Height in pixels\n- `z`: `1.0 + 1.0 / width`\n- `w`: `1.0 + 1.0 / height`",
        },
        EngineVariable {
            name: "_ScaledScreenParams",
            var_type: "float4",
            engine: "unity",
            detail: "float4 _ScaledScreenParams (URP)",
            description: "### `_ScaledScreenParams`\n*Unity URP Shader Variable*\n\nRender scale-adjusted screen resolution in pixels for Dynamic Resolution Scaling.",
        },
        EngineVariable {
            name: "_ZBufferParams",
            var_type: "float4",
            engine: "unity",
            detail: "float4 _ZBufferParams",
            description: "### `_ZBufferParams`\n*Unity Built-in Shader Variable*\n\nParameters to linearize non-linear Z buffer depth values to view space distance.",
        },
        EngineVariable {
            name: "unity_OrthoParams",
            var_type: "float4",
            engine: "unity",
            detail: "float4 unity_OrthoParams (width, height, unused, isOrtho)",
            description: "### `unity_OrthoParams`\n*Unity Built-in Shader Variable*\n\nOrthographic projection parameters:\n- `x`: Orthographic width\n- `y`: Orthographic height\n- `w`: `1.0` if orthographic camera, `0.0` if perspective",
        },
        EngineVariable {
            name: "unity_CameraWorldClipPlanes",
            var_type: "float4[6]",
            engine: "unity",
            detail: "float4 unity_CameraWorldClipPlanes[6]",
            description: "### `unity_CameraWorldClipPlanes`\n*Unity Built-in Shader Variable*\n\nWorld space frustum clipping planes (Left, Right, Bottom, Top, Near, Far).",
        },
        EngineVariable {
            name: "unity_ObjectToWorld",
            var_type: "float4x4",
            engine: "unity",
            detail: "float4x4 unity_ObjectToWorld",
            description: "### `unity_ObjectToWorld`\n*Unity Transformation Matrix*\n\nCurrent model matrix. Transforms coordinates from Object Space to World Space.",
        },
        EngineVariable {
            name: "unity_WorldToObject",
            var_type: "float4x4",
            engine: "unity",
            detail: "float4x4 unity_WorldToObject",
            description: "### `unity_WorldToObject`\n*Unity Transformation Matrix*\n\nInverse model matrix. Transforms coordinates from World Space to Object Space.",
        },
        EngineVariable {
            name: "unity_MatrixVP",
            var_type: "float4x4",
            engine: "unity",
            detail: "float4x4 unity_MatrixVP",
            description: "### `unity_MatrixVP`\n*Unity Transformation Matrix*\n\nView-Projection matrix. Transforms coordinates from World Space to Homogeneous Clip Space.",
        },
        EngineVariable {
            name: "unity_MatrixV",
            var_type: "float4x4",
            engine: "unity",
            detail: "float4x4 unity_MatrixV",
            description: "### `unity_MatrixV`\n*Unity Transformation Matrix*\n\nView matrix. Transforms coordinates from World Space to Camera (View) Space.",
        },
        EngineVariable {
            name: "unity_MatrixInvV",
            var_type: "float4x4",
            engine: "unity",
            detail: "float4x4 unity_MatrixInvV",
            description: "### `unity_MatrixInvV`\n*Unity Transformation Matrix*\n\nInverse View matrix. Transforms coordinates from Camera (View) Space to World Space.",
        },
        EngineVariable {
            name: "unity_MatrixP",
            var_type: "float4x4",
            engine: "unity",
            detail: "float4x4 unity_MatrixP",
            description: "### `unity_MatrixP`\n*Unity Transformation Matrix*\n\nProjection matrix. Transforms coordinates from Camera (View) Space to Clip Space.",
        },
        EngineVariable {
            name: "unity_MatrixInvP",
            var_type: "float4x4",
            engine: "unity",
            detail: "float4x4 unity_MatrixInvP",
            description: "### `unity_MatrixInvP`\n*Unity Transformation Matrix*\n\nInverse Projection matrix. Transforms coordinates from Clip Space to Camera (View) Space.",
        },
        EngineVariable {
            name: "UNITY_MATRIX_MVP",
            var_type: "float4x4",
            engine: "unity",
            detail: "float4x4 / macro UNITY_MATRIX_MVP",
            description: "### `UNITY_MATRIX_MVP`\n*Unity Transformation Matrix*\n\nModel-View-Projection matrix. Transforms coordinates directly from Object Space to Clip Space.",
        },
        EngineVariable {
            name: "UNITY_MATRIX_MV",
            var_type: "float4x4",
            engine: "unity",
            detail: "float4x4 UNITY_MATRIX_MV",
            description: "### `UNITY_MATRIX_MV`\n*Unity Transformation Matrix*\n\nModel-View matrix. Transforms coordinates from Object Space to Eye/View Space.",
        },
        EngineVariable {
            name: "UNITY_MATRIX_M",
            var_type: "float4x4",
            engine: "unity",
            detail: "float4x4 UNITY_MATRIX_M",
            description: "### `UNITY_MATRIX_M`\n*Unity Transformation Matrix*\n\nAlias for `unity_ObjectToWorld`.",
        },
        EngineVariable {
            name: "UNITY_MATRIX_V",
            var_type: "float4x4",
            engine: "unity",
            detail: "float4x4 UNITY_MATRIX_V",
            description: "### `UNITY_MATRIX_V`\n*Unity Transformation Matrix*\n\nAlias for `unity_MatrixV`.",
        },
        EngineVariable {
            name: "UNITY_MATRIX_P",
            var_type: "float4x4",
            engine: "unity",
            detail: "float4x4 UNITY_MATRIX_P",
            description: "### `UNITY_MATRIX_P`\n*Unity Transformation Matrix*\n\nAlias for `unity_MatrixP`.",
        },
        EngineVariable {
            name: "UNITY_MATRIX_VP",
            var_type: "float4x4",
            engine: "unity",
            detail: "float4x4 UNITY_MATRIX_VP",
            description: "### `UNITY_MATRIX_VP`\n*Unity Transformation Matrix*\n\nAlias for `unity_MatrixVP`.",
        },
        EngineVariable {
            name: "_WorldSpaceLightPos0",
            var_type: "float4",
            engine: "unity",
            detail: "float4 _WorldSpaceLightPos0",
            description: "### `_WorldSpaceLightPos0`\n*Unity Lighting Variable*\n\nPosition or direction of the primary light:\n- `w == 0.0`: Directional light (`xyz` is direction toward light source)\n- `w == 1.0`: Point or Spot light (`xyz` is position in world space)",
        },
        EngineVariable {
            name: "_LightColor0",
            var_type: "half4",
            engine: "unity",
            detail: "half4 _LightColor0",
            description: "### `_LightColor0`\n*Unity Lighting Variable*\n\nColor and intensity of the main light in the current pass.",
        },
        EngineVariable {
            name: "_MainLightPosition",
            var_type: "float4",
            engine: "unity",
            detail: "float4 _MainLightPosition (URP)",
            description: "### `_MainLightPosition`\n*Unity URP Lighting Variable*\n\nWorld space direction or position of the URP Main Directional Light.",
        },
        EngineVariable {
            name: "_MainLightColor",
            var_type: "half4",
            engine: "unity",
            detail: "half4 _MainLightColor (URP)",
            description: "### `_MainLightColor`\n*Unity URP Lighting Variable*\n\nColor and intensity of the URP Main Directional Light.",
        },
        EngineVariable {
            name: "_AdditionalLightsCount",
            var_type: "half4",
            engine: "unity",
            detail: "half4 _AdditionalLightsCount (URP)",
            description: "### `_AdditionalLightsCount`\n*Unity URP Lighting Variable*\n\n`x` channel specifies the count of non-directional additional lights affecting the current object.",
        },
        EngineVariable {
            name: "_CameraDepthTexture",
            var_type: "Texture2D",
            engine: "unity",
            detail: "Texture2D _CameraDepthTexture",
            description: "### `_CameraDepthTexture`\n*Unity Screen Texture*\n\nScreen-space depth buffer texture rendered by the camera.",
        },
        EngineVariable {
            name: "_CameraNormalsTexture",
            var_type: "Texture2D",
            engine: "unity",
            detail: "Texture2D _CameraNormalsTexture (URP)",
            description: "### `_CameraNormalsTexture`\n*Unity URP Screen Texture*\n\nScreen-space normals texture rendered by the camera during the DepthNormals pass.",
        },
        EngineVariable {
            name: "_CameraOpaqueTexture",
            var_type: "Texture2D",
            engine: "unity",
            detail: "Texture2D _CameraOpaqueTexture (URP)",
            description: "### `_CameraOpaqueTexture`\n*Unity URP Screen Texture*\n\nScreen-space color texture copy captured after rendering all opaque geometry.",
        },
        EngineVariable {
            name: "TRANSFORM_TEX",
            var_type: "macro",
            engine: "unity",
            detail: "TRANSFORM_TEX(tex, name)",
            description: "### `TRANSFORM_TEX(tex, name)`\n*Unity UV Macro*\n\nTransforms UV coordinates using Material Inspector Tiling & Offset (`_ST` vector):\n`((tex.xy) * name##_ST.xy + name##_ST.zw)`",
        },
        EngineVariable {
            name: "UnityObjectToClipPos",
            var_type: "function",
            engine: "unity",
            detail: "float4 UnityObjectToClipPos(float3 pos)",
            description: "### `UnityObjectToClipPos`\n*Unity Built-in Transform Function*\n\nTransforms coordinates from Object Space to Homogeneous Clip Space.",
        },
        EngineVariable {
            name: "TransformObjectToHClip",
            var_type: "function",
            engine: "unity",
            detail: "float4 TransformObjectToHClip(float3 positionOS)",
            description: "### `TransformObjectToHClip`\n*Unity URP Transform Function*\n\nTransforms vertex position from Object Space to Homogeneous Clip Space.",
        },
    ];
    proof {
        reveal(engine_part_0);
        assert(engine_view(r@) =~= engine_part_0());
    }
    r
}

/// Entries 35 to 69 of the engine variable table.
#[verifier::opaque]
pub open spec fn engine_part_1() -> Seq<EngineDoc> {
    seq![
        EngineDoc {
            name: "TransformObjectToWorld"@,
            var_type: "function"@,
            engine: "unity"@,
            detail: "float3 TransformObjectToWorld(float3 positionOS)"@,
            description: "### `TransformObjectToWorld`\n*Unity URP Transform Function*\n\nTransforms coordinates from Object Space to World Space."@,
        },
        EngineDoc {
            name: "TransformWorldToObject"@,
            var_type: "function"@,
            engine: "unity"@,
            detail: "float3 TransformWorldToObject(float3 positionWS)"@,
            description: "### `TransformWorldToObject`\n*Unity URP Transform Function*\n\nTransforms coordinates from World Space to Object Space."@,
        },
        EngineDoc {
            name: "TransformWorldToHClip"@,
            var_type: "function"@,
            engine: "unity"@,
            detail: "float4 TransformWorldToHClip(float3 positionWS)"@,
            description: "### `TransformWorldToHClip`\n*Unity URP Transform Function*\n\nTransforms coordinates from World Space to Homogeneous Clip Space."@,
        },
        EngineDoc {
            name: "TransformObjectToWorldNormal"@,
            var_type: "function"@,
            engine: "unity"@,
            detail: "float3 TransformObjectToWorldNormal(float3 normalOS)"@,
            description: "### `TransformObjectToWorldNormal`\n*Unity URP Normal Transform Function*\n\nTransforms a normal vector from Object Space to World Space with proper inverse transpose scaling."@,
        },
        EngineDoc {
            name: "TransformObjectToWorldDir"@,
            var_type: "function"@,
            engine: "unity"@,
            detail: "float3 TransformObjectToWorldDir(float3 dirOS)"@,
            description: "### `TransformObjectToWorldDir`\n*Unity URP Direction Transform Function*\n\nTransforms a direction vector from Object Space to World Space without translation."@,
        },
        EngineDoc {
            name: "GetVertexPositionInputs"@,
            var_type: "function"@,
            engine: "unity"@,
            detail: "VertexPositionInputs GetVertexPositionInputs(float3 positionOS)"@,
            description: "### `GetVertexPositionInputs`\n*Unity URP Helper Function*\n\nCalculates vertex positions simultaneously in Object, World, View, Clip, and NDC spaces."@,
        },
        EngineDoc {
            name: "GetVertexNormalInputs"@,
            var_type: "function"@,
            engine: "unity"@,
            detail: "VertexNormalInputs GetVertexNormalInputs(float3 normalOS, float4 tangentOS)"@,
            description: "### `GetVertexNormalInputs`\n*Unity URP Helper Function*\n\nCalculates world space normal, tangent, and bitangent vectors."@,
        },
        EngineDoc {
            name: "GetMainLight"@,
            var_type: "function"@,
            engine: "unity"@,
            detail: "Light GetMainLight()"@,
            description: "### `GetMainLight`\n*Unity URP Lighting Function*\n\nReturns the `Light` struct for the main directional light in the scene."@,
        },
        EngineDoc {
            name: "GetAdditionalLight"@,
            var_type: "function"@,
            engine: "unity"@,
            detail: "Light GetAdditionalLight(uint i, float3 positionWS)"@,
            description: "### `GetAdditionalLight`\n*Unity URP Lighting Function*\n\nReturns the `Light` struct for the additional light at index `i` affecting `positionWS`."@,
        },
        EngineDoc {
            name: "SAMPLE_TEXTURE2D"@,
            var_type: "macro"@,
            engine: "unity"@,
            detail: "SAMPLE_TEXTURE2D(textureName, samplerName, coord2)"@,
            description: "### `SAMPLE_TEXTURE2D`\n*Unity URP Texture Macro*\n\nSamples a 2D Texture using the specified SamplerState."@,
        },
        EngineDoc {
            name: "SAMPLE_TEXTURE2D_LOD"@,
            var_type: "macro"@,
            engine: "unity"@,
            detail: "SAMPLE_TEXTURE2D_LOD(textureName, samplerName, coord2, lod)"@,
            description: "### `SAMPLE_TEXTURE2D_LOD`\n*Unity URP Texture Macro*\n\nSamples a 2D Texture at an explicit LOD mipmap level."@,
        },
        EngineDoc {
            name: "TEXTURE2D"@,
            var_type: "macro"@,
            engine: "unity"@,
            detail: "TEXTURE2D(textureName)"@,
            description: "### `TEXTURE2D`\n*Unity URP Texture Macro*\n\nCross-platform declaration macro for a 2D texture."@,
        },
        EngineDoc {
            name: "SAMPLER"@,
            var_type: "macro"@,
            engine: "unity"@,
            detail: "SAMPLER(samplerName)"@,
            description: "### `SAMPLER`\n*Unity URP Sampler Macro*\n\nCross-platform declaration macro for a SamplerState."@,
        },
        EngineDoc {
            name: "UnityPixelSnap"@,
            var_type: "function"@,
            engine: "unity"@,
            detail: "float4 UnityPixelSnap(float4 pos)"@,
            description: "### `UnityPixelSnap`\n*Unity 2D Sprite Function*\n\nSnaps vertex position to pixel boundaries for crisp pixel-perfect 2D sprites."@,
        },
        EngineDoc {
            name: "UnityGet2DClipping"@,
            var_type: "function"@,
            engine: "unity"@,
            detail: "float UnityGet2DClipping(float2 position, float4 clipRect)"@,
            description: "### `UnityGet2DClipping`\n*Unity 2D UI Canvas Function*\n\nEvaluates 2D UI rectangular clipping against `clipRect`."@,
        },
        EngineDoc {
            name: "ResolvedView.WorldCameraOrigin"@,
            var_type: "float3"@,
            engine: "unreal"@,
            detail: "float3 ResolvedView.WorldCameraOrigin"@,
            description: "### `ResolvedView.WorldCameraOrigin`\n*Unreal Engine View Uniform*\n\nCamera position in World Space coordinates (`float3`)."@,
        },
        EngineDoc {
            name: "ResolvedView.GameTime"@,
            var_type: "float"@,
            engine: "unreal"@,
            detail: "float ResolvedView.GameTime"@,
            description: "### `ResolvedView.GameTime`\n*Unreal Engine View Uniform*\n\nCurrent game time in seconds."@,
        },
        EngineDoc {
            name: "ResolvedView.RealTime"@,
            var_type: "float"@,
            engine: "unreal"@,
            detail: "float ResolvedView.RealTime"@,
            description: "### `ResolvedView.RealTime`\n*Unreal Engine View Uniform*\n\nReal wall-clock time in seconds."@,
        },
        EngineDoc {
            name: "ResolvedView.DeltaTime"@,
            var_type: "float"@,
            engine: "unreal"@,
            detail: "float ResolvedView.DeltaTime"@,
            description: "### `ResolvedView.DeltaTime`\n*Unreal Engine View Uniform*\n\nDelta time between rendering frames in seconds."@,
        },
        EngineDoc {
            name: "ResolvedView.ViewSizeAndInvSize"@,
            var_type: "float4"@,
            engine: "unreal"@,
            detail: "float4 ResolvedView.ViewSizeAndInvSize (w, h, 1/w, 1/h)"@,
            description: "### `ResolvedView.ViewSizeAndInvSize`\n*Unreal Engine View Uniform*\n\nViewport dimensions: `xy` is pixel width and height, `zw` is inverse width and height."@,
        },
        EngineDoc {
            name: "ResolvedView.WorldToClip"@,
            var_type: "float4x4"@,
            engine: "unreal"@,
            detail: "float4x4 ResolvedView.WorldToClip"@,
            description: "### `ResolvedView.WorldToClip`\n*Unreal Engine View Uniform*\n\nTransforms coordinates from World Space to Clip Space."@,
        },
        EngineDoc {
            name: "ResolvedView.ClipToWorld"@,
            var_type: "float4x4"@,
            engine: "unreal"@,
            detail: "float4x4 ResolvedView.ClipToWorld"@,
            description: "### `ResolvedView.ClipToWorld`\n*Unreal Engine View Uniform*\n\nTransforms coordinates from Clip Space to World Space."@,
        },
        EngineDoc {
            name: "GetWorldPosition"@,
            var_type: "function"@,
            engine: "unreal"@,
            detail: "float3 GetWorldPosition(FMaterialVertexParameters Parameters)"@,
            description: "### `GetWorldPosition`\n*Unreal Engine Material Function*\n\nReturns the world position of the current vertex or pixel."@,
        },
        EngineDoc {
            name: "CalcPixelDepth"@,
            var_type: "function"@,
            engine: "unreal"@,
            detail: "float CalcPixelDepth(FMaterialPixelParameters Parameters)"@,
            description: "### `CalcPixelDepth`\n*Unreal Engine Material Function*\n\nCalculates camera-to-pixel depth in Unreal Units."@,
        },
        EngineDoc {
            name: "UnityPerMaterial"@,
            var_type: "cbuffer"@,
            engine: "unity"@,
            detail: "CBUFFER_START(UnityPerMaterial)"@,
            description: "### `UnityPerMaterial`\n*Unity URP/HDRP Constant Buffer*\n\nContains all material properties exposed in the Inspector. Required by the SRP Batcher to persist material data across draw calls and achieve maximum performance."@,
        },
        EngineDoc {
            name: "UnityPerDraw"@,
            var_type: "cbuffer"@,
            engine: "unity"@,
            detail: "CBUFFER_START(UnityPerDraw)"@,
            description: "### `UnityPerDraw`\n*Unity Built-in Constant Buffer*\n\nContains per-object transformation matrices (`unity_ObjectToWorld`, `unity_WorldToObject`) and GPU instancing properties."@,
        },
        EngineDoc {
            name: "UnityPerCamera"@,
            var_type: "cbuffer"@,
            engine: "unity"@,
            detail: "CBUFFER_START(UnityPerCamera)"@,
            description: "### `UnityPerCamera`\n*Unity Built-in Constant Buffer*\n\nContains camera-specific projection, view matrices, and camera world position parameters."@,
        },
        EngineDoc {
            name: "UnityPerFrame"@,
            var_type: "cbuffer"@,
            engine: "unity"@,
            detail: "CBUFFER_START(UnityPerFrame)"@,
            description: "### `UnityPerFrame`\n*Unity Built-in Constant Buffer*\n\nContains global per-frame time parameters (`_Time`, `_SinTime`, `_CosTime`, `unity_DeltaTime`)."@,
        },
        EngineDoc {
            name: "UnityPerPass"@,
            var_type: "cbuffer"@,
            engine: "unity"@,
            detail: "CBUFFER_START(UnityPerPass)"@,
            description: "### `UnityPerPass`\n*Unity Built-in Constant Buffer*\n\nContains per-pass parameters such as shadow cascade parameters, light count, and ambient lighting."@,
        },
        EngineDoc {
            name: "UnityPerDrawRare"@,
            var_type: "cbuffer"@,
            engine: "unity"@,
            detail: "CBUFFER_START(UnityPerDrawRare)"@,
            description: "### `UnityPerDrawRare`\n*Unity Built-in Constant Buffer*\n\nContains rarely updated draw call state parameters."@,
        },
        EngineDoc {
            name: "CBUFFER_START"@,
            var_type: "macro"@,
            engine: "unity"@,
            detail: "CBUFFER_START(name)"@,
            description: "### `CBUFFER_START(name)`\n*Unity URP/HDRP Macro*\n\nBegins a constant buffer block declaration. For SRP Batcher compatibility, expose material properties within `CBUFFER_START(UnityPerMaterial) ... CBUFFER_END`."@,
        },
        EngineDoc {
            name: "CBUFFER_END"@,
            var_type: "macro"@,
            engine: "unity"@,
            detail: "CBUFFER_END"@,
            description: "### `CBUFFER_END`\n*Unity URP/HDRP Macro*\n\nCloses a constant buffer block declaration started with `CBUFFER_START(name)`."@,
        },
        EngineDoc {
            name: "TEXTURE2D"@,
            var_type: "macro"@,
            engine: "unity"@,
            detail: "TEXTURE2D(textureName)"@,
            description: "### `TEXTURE2D(textureName)`\n*Unity URP/HDRP Texture Macro*\n\nDeclares a 2D texture object separate from its sampler (e.g. `TEXTURE2D(_BaseMap);`)."@,
        },
        EngineDoc {
            name: "SAMPLER"@,
            var_type: "macro"@,
            engine: "unity"@,
            detail: "SAMPLER(samplerName)"@,
            description: "### `SAMPLER(samplerName)`\n*Unity URP/HDRP Sampler Macro*\n\nDeclares a texture sampler state (e.g. `SAMPLER(sampler_BaseMap);`)."@,
        },
        EngineDoc {
            name: "SAMPLE_TEXTURE2D"@,
            var_type: "macro"@,
            engine: "unity"@,
            detail: "SAMPLE_TEXTURE2D(textureName, samplerName, coord2)"@,
            description: "### `SAMPLE_TEXTURE2D(texture, sampler, uv)`\n*Unity URP/HDRP Texture Sampling Macro*\n\nSamples a 2D texture using the specified sampler state and UV coordinates."@,
        },
    ]
}

/// Builds entries 35 to 69 of the engine variable table.
fn engine_variables_1() -> (r: Vec<EngineVariable>)
    ensures
        engine_view(r@) == engine_part_1(),
{
    let r = vec![
        EngineVariable {
            name: "TransformObjectToWorld",
            var_type: "function",
            engine: "unity",
            detail: "float3 TransformObjectToWorld(float3 positionOS)",
            description: "### `TransformObjectToWorld`\n*Unity URP Transform Function*\n\nTransforms coordinates from Object Space to World Space.",
        },
        EngineVariable {
            name: "TransformWorldToObject",
            var_type: "function",
            engine: "unity",
            detail: "float3 TransformWorldToObject(float3 positionWS)",
            description: "### `TransformWorldToObject`\n*Unity URP Transform Function*\n\nTransforms coordinates from World Space to Object Space.",
        },
        EngineVariable {
            name: "TransformWorldToHClip",
            var_type: "function",
            engine: "unity",
            detail: "float4 TransformWorldToHClip(float3 positionWS)",
            description: "### `TransformWorldToHClip`\n*Unity URP Transform Function*\n\nTransforms coordinates from World Space to Homogeneous Clip Space.",
        },
        EngineVariable {
            name: "TransformObjectToWorldNormal",
            var_type: "function",
            engine: "unity",
            detail: "float3 TransformObjectToWorldNormal(float3 normalOS)",
            description: "### `TransformObjectToWorldNormal`\n*Unity URP Normal Transform Function*\n\nTransforms a normal vector from Object Space to World Space with proper inverse transpose scaling.",
        },
        EngineVariable {
            name: "TransformObjectToWorldDir",
            var_type: "function",
            engine: "unity",
            detail: "float3 TransformObjectToWorldDir(float3 dirOS)",
            description: "### `TransformObjectToWorldDir`\n*Unity URP Direction Transform Function*\n\nTransforms a direction vector from Object Space to World Space without translation.",
        },
        EngineVariable {
            name: "GetVertexPositionInputs",
            var_type: "function",
            engine: "unity",
            detail: "VertexPositionInputs GetVertexPositionInputs(float3 positionOS)",
            description: "### `GetVertexPositionInputs`\n*Unity URP Helper Function*\n\nCalculates vertex positions simultaneously in Object, World, View, Clip, and NDC spaces.",
        },
        EngineVariable {
            name: "GetVertexNormalInputs",
            var_type: "function",
            engine: "unity",
            detail: "VertexNormalInputs GetVertexNormalInputs(float3 normalOS, float4 tangentOS)",
            description: "### `GetVertexNormalInputs`\n*Unity URP Helper Function*\n\nCalculates world space normal, tangent, and bitangent vectors.",
        },
        EngineVariable {
            name: "GetMainLight",
            var_type: "function",
            engine: "unity",
            detail: "Light GetMainLight()",
            description: "### `GetMainLight`\n*Unity URP Lighting Function*\n\nReturns the `Light` struct for the main directional light in the scene.",
        },
        EngineVariable {
            name: "GetAdditionalLight",
            var_type: "function",
            engine: "unity",
            detail: "Light GetAdditionalLight(uint i, float3 positionWS)",
            description: "### `GetAdditionalLight`\n*Unity URP Lighting Function*\n\nReturns the `Light` struct for the additional light at index `i` affecting `positionWS`.",
        },
        EngineVariable {
            name: "SAMPLE_TEXTURE2D",
            var_type: "macro",
            engine: "unity",
            detail: "SAMPLE_TEXTURE2D(textureName, samplerName, coord2)",
            description: "### `SAMPLE_TEXTURE2D`\n*Unity URP Texture Macro*\n\nSamples a 2D Texture using the specified SamplerState.",
        },
        EngineVariable {
            name: "SAMPLE_TEXTURE2D_LOD",
            var_type: "macro",
            engine: "unity",
            detail: "SAMPLE_TEXTURE2D_LOD(textureName, samplerName, coord2, lod)",
            description: "### `SAMPLE_TEXTURE2D_LOD`\n*Unity URP Texture Macro*\n\nSamples a 2D Texture at an explicit LOD mipmap level.",
        },
        EngineVariable {
            name: "TEXTURE2D",
            var_type: "macro",
            engine: "unity",
            detail: "TEXTURE2D(textureName)",
            description: "### `TEXTURE2D`\n*Unity URP Texture Macro*\n\nCross-platform declaration macro for a 2D texture.",
        },
        EngineVariable {
            name: "SAMPLER",
            var_type: "macro",
            engine: "unity",
            detail: "SAMPLER(samplerName)",
            description: "### `SAMPLER`\n*Unity URP Sampler Macro*\n\nCross-platform declaration macro for a SamplerState.",
        },
        EngineVariable {
            name: "UnityPixelSnap",
            var_type: "function",
            engine: "unity",
            detail: "float4 UnityPixelSnap(float4 pos)",
            description: "### `UnityPixelSnap`\n*Unity 2D Sprite Function*\n\nSnaps vertex position to pixel boundaries for crisp pixel-perfect 2D sprites.",
        },
        EngineVariable {
            name: "UnityGet2DClipping",
            var_type: "function",
            engine: "unity",
            detail: "float UnityGet2DClipping(float2 position, float4 clipRect)",
            description: "### `UnityGet2DClipping`\n*Unity 2D UI Canvas Function*\n\nEvaluates 2D UI rectangular clipping against `clipRect`.",
        },
        EngineVariable {
            name: "ResolvedView.WorldCameraOrigin",
            var_type: "float3",
            engine: "unreal",
            detail: "float3 ResolvedView.WorldCameraOrigin",
            description: "### `ResolvedView.WorldCameraOrigin`\n*Unreal Engine View Uniform*\n\nCamera position in World Space coordinates (`float3`).",
        },
        EngineVariable {
            name: "ResolvedView.GameTime",
            var_type: "float",
            engine: "unreal",
            detail: "float ResolvedView.GameTime",
            description: "### `ResolvedView.GameTime`\n*Unreal Engine View Uniform*\n\nCurrent game time in seconds.",
        },
        EngineVariable {
            name: "ResolvedView.RealTime",
            var_type: "float",
            engine: "unreal",
            detail: "float ResolvedView.RealTime",
            description: "### `ResolvedView.RealTime`\n*Unreal Engine View Uniform*\n\nReal wall-clock time in seconds.",
        },
        EngineVariable {
            name: "ResolvedView.DeltaTime",
            var_type: "float",
            engine: "unreal",
            detail: "float ResolvedView.DeltaTime",
            description: "### `ResolvedView.DeltaTime`\n*Unreal Engine View Uniform*\n\nDelta time between rendering frames in seconds.",
        },
        EngineVariable {
            name: "ResolvedView.ViewSizeAndInvSize",
            var_type: "float4",
            engine: "unreal",
            detail: "float4 ResolvedView.ViewSizeAndInvSize (w, h, 1/w, 1/h)",
            description: "### `ResolvedView.ViewSizeAndInvSize`\n*Unreal Engine View Uniform*\n\nViewport dimensions: `xy` is pixel width and height, `zw` is inverse width and height.",
        },
        EngineVariable {
            name: "ResolvedView.WorldToClip",
            var_type: "float4x4",
            engine: "unreal",
            detail: "float4x4 ResolvedView.WorldToClip",
            description: "### `ResolvedView.WorldToClip`\n*Unreal Engine View Uniform*\n\nTransforms coordinates from World Space to Clip Space.",
        },
        EngineVariable {
            name: "ResolvedView.ClipToWorld",
            var_type: "float4x4",
            engine: "unreal",
            detail: "float4x4 ResolvedView.ClipToWorld",
            description: "### `ResolvedView.ClipToWorld`\n*Unreal Engine View Uniform*\n\nTransforms coordinates from Clip Space to World Space.",
        },
        EngineVariable {
            name: "GetWorldPosition",
            var_type: "function",
            engine: "unreal",
            detail: "float3 GetWorldPosition(FMaterialVertexParameters Parameters)",
            description: "### `GetWorldPosition`\n*Unreal Engine Material Function*\n\nReturns the world position of the current vertex or pixel.",
        },
        EngineVariable {
            name: "CalcPixelDepth",
            var_type: "function",
            engine: "unreal",
            detail: "float CalcPixelDepth(FMaterialPixelParameters Parameters)",
            description: "### `CalcPixelDepth`\n*Unreal Engine Material Function*\n\nCalculates camera-to-pixel depth in Unreal Units.",
        },
        EngineVariable {
            name: "UnityPerMaterial",
            var_type: "cbuffer",
            engine: "unity",
            detail: "CBUFFER_START(UnityPerMaterial)",
            description: "### `UnityPerMaterial`\n*Unity URP/HDRP Constant Buffer*\n\nContains all material properties exposed in the Inspector. Required by the SRP Batcher to persist material data across draw calls and achieve maximum performance.",
        },
        EngineVariable {
            name: "UnityPerDraw",
            var_type: "cbuffer",
            engine: "unity",
            detail: "CBUFFER_START(UnityPerDraw)",
            description: "### `UnityPerDraw`\n*Unity Built-in Constant Buffer*\n\nContains per-object transformation matrices (`unity_ObjectToWorld`, `unity_WorldToObject`) and GPU instancing properties.",
        },
        EngineVariable {
            name: "UnityPerCamera",
            var_type: "cbuffer",
            engine: "unity",
            detail: "CBUFFER_START(UnityPerCamera)",
            description: "### `UnityPerCamera`\n*Unity Built-in Constant Buffer*\n\nContains camera-specific projection, view matrices, and camera world position parameters.",
        },
        EngineVariable {
            name: "UnityPerFrame",
            var_type: "cbuffer",
            engine: "unity",
            detail: "CBUFFER_START(UnityPerFrame)",
            description: "### `UnityPerFrame`\n*Unity Built-in Constant Buffer*\n\nContains global per-frame time parameters (`_Time`, `_SinTime`, `_CosTime`, `unity_DeltaTime`).",
        },
        EngineVariable {
            name: "UnityPerPass",
            var_type: "cbuffer",
            engine: "unity",
            detail: "CBUFFER_START(UnityPerPass)",
            description: "### `UnityPerPass`\n*Unity Built-in Constant Buffer*\n\nContains per-pass parameters such as shadow cascade parameters, light count, and ambient lighting.",
        },
        EngineVariable {
            name: "UnityPerDrawRare",
            var_type: "cbuffer",
            engine: "unity",
            detail: "CBUFFER_START(UnityPerDrawRare)",
            description: "### `UnityPerDrawRare`\n*Unity Built-in Constant Buffer*\n\nContains rarely updated draw call state parameters.",
        },
        EngineVariable {
            name: "CBUFFER_START",
            var_type: "macro",
            engine: "unity",
            detail: "CBUFFER_START(name)",
            description: "### `CBUFFER_START(name)`\n*Unity URP/HDRP Macro*\n\nBegins a constant buffer block declaration. For SRP Batcher compatibility, expose material properties within `CBUFFER_START(UnityPerMaterial) ... CBUFFER_END`.",
        },
        EngineVariable {
            name: "CBUFFER_END",
            var_type: "macro",
            engine: "unity",
            detail: "CBUFFER_END",
            description: "### `CBUFFER_END`\n*Unity URP/HDRP Macro*\n\nCloses a constant buffer block declaration started with `CBUFFER_START(name)`.",
        },
        EngineVariable {
            name: "TEXTURE2D",
            var_type: "macro",
            engine: "unity",
            detail: "TEXTURE2D(textureName)",
            description: "### `TEXTURE2D(textureName)`\n*Unity URP/HDRP Texture Macro*\n\nDeclares a 2D texture object separate from its sampler (e.g. `TEXTURE2D(_BaseMap);`).",
        },
        EngineVariable {
            name: "SAMPLER",
            var_type: "macro",
            engine: "unity",
            detail: "SAMPLER(samplerName)",
            description: "### `SAMPLER(samplerName)`\n*Unity URP/HDRP Sampler Macro*\n\nDeclares a texture sampler state (e.g. `SAMPLER(sampler_BaseMap);`).",
        },
        EngineVariable {
            name: "SAMPLE_TEXTURE2D",
            var_type: "macro",
            engine: "unity",
            detail: "SAMPLE_TEXTURE2D(textureName, samplerName, coord2)",
            description: "### `SAMPLE_TEXTURE2D(texture, sampler, uv)`\n*Unity URP/HDRP Texture Sampling Macro*\n\nSamples a 2D texture using the specified sampler state and UV coordinates.",
        },
    ];
    proof {
        reveal(engine_part_1);
        assert(engine_view(r@) =~= engine_part_1());
    }
    r
}

/// The whole engine variable table, in the order in which lookups search it.
pub open spec fn engine_table() -> Seq<EngineDoc> {
    engine_part_0() + engine_part_1()
}

/// The whole engine variable table.
pub fn engine_variables() -> (r: Vec<EngineVariable>)
    ensures
        engine_view(r@) == engine_table(),
{
    let mut r = engine_variables_0();
    let mut p1 = engine_variables_1();
    r.append(&mut p1);
    proof {
        assert(engine_view(r@) =~= engine_table());
    }
    r
}

/// The methods of texture objects.
#[verifier::opaque]
pub open spec fn texture_method_table() -> Seq<MethodDoc> {
    seq![
        MethodDoc {
            name: "Sample"@,
            signature: "float4 Sample(SamplerState s, float2 uv)"@,
            snippet: "Sample($1, $2)"@,
            description: "### `Texture.Sample`\n*HLSL Texture Method*\n\nSamples a texture using specified SamplerState and coordinates."@,
        },
        MethodDoc {
            name: "SampleLevel"@,
            signature: "float4 SampleLevel(SamplerState s, float2 uv, float lod)"@,
            snippet: "SampleLevel($1, $2, $3)"@,
            description: "### `Texture.SampleLevel`\n*HLSL Texture Method*\n\nSamples a texture with an explicit mipmap level of detail (LOD)."@,
        },
        MethodDoc {
            name: "SampleBias"@,
            signature: "float4 SampleBias(SamplerState s, float2 uv, float bias)"@,
            snippet: "SampleBias($1, $2, $3)"@,
            description: "### `Texture.SampleBias`\n*HLSL Texture Method*\n\nSamples a texture after applying a bias to the calculated mipmap level."@,
        },
        MethodDoc {
            name: "SampleGrad"@,
            signature: "float4 SampleGrad(SamplerState s, float2 uv, float2 ddx, float2 ddy)"@,
            snippet: "SampleGrad($1, $2, $3, $4)"@,
            description: "### `Texture.SampleGrad`\n*HLSL Texture Method*\n\nSamples a texture using explicit screen-space gradients (derivatives)."@,
        },
        MethodDoc {
            name: "SampleCmp"@,
            signature: "float SampleCmp(SamplerComparisonState s, float2 uv, float compare_value)"@,
            snippet: "SampleCmp($1, $2, $3)"@,
            description: "### `Texture.SampleCmp`\n*HLSL Texture Method*\n\nSamples a shadow/depth texture and compares against a reference value."@,
        },
        MethodDoc {
            name: "SampleCmpLevelZero"@,
            signature: "float SampleCmpLevelZero(SamplerComparisonState s, float2 uv, float compare_value)"@,
            snippet: "SampleCmpLevelZero($1, $2, $3)"@,
            description: "### `Texture.SampleCmpLevelZero`\n*HLSL Texture Method*\n\nSamples a shadow/depth texture at mip level 0 and compares against a reference value."@,
        },
        MethodDoc {
            name: "Load"@,
            signature: "float4 Load(int3 location)"@,
            snippet: "Load($1)"@,
            description: "### `Texture.Load`\n*HLSL Texture Method*\n\nReads raw texel data without any filtering or sampler state."@,
        },
        MethodDoc {
            name: "GetDimensions"@,
            signature: "void GetDimensions(out uint width, out uint height)"@,
            snippet: "GetDimensions($1, $2)"@,
            description: "### `Texture.GetDimensions`\n*HLSL Texture Method*\n\nRetrieves texture dimensions (width and height in texels)."@,
        },
        MethodDoc {
            name: "Gather"@,
            signature: "float4 Gather(SamplerState s, float2 uv)"@,
            snippet: "Gather($1, $2)"@,
            description: "### `Texture.Gather`\n*HLSL Texture Method*\n\nGets the four texel values that would be used in a bi-linear filtering operation."@,
        },
        MethodDoc {
            name: "GatherRed"@,
            signature: "float4 GatherRed(SamplerState s, float2 uv)"@,
            snippet: "GatherRed($1, $2)"@,
            description: "### `Texture.GatherRed`\n*HLSL Texture Method*\n\nGets the red component of the four texel values used in bi-linear filtering."@,
        },
        MethodDoc {
            name: "GatherGreen"@,
            signature: "float4 GatherGreen(SamplerState s, float2 uv)"@,
            snippet: "GatherGreen($1, $2)"@,
            description: "### `Texture.GatherGreen`\n*HLSL Texture Method*\n\nGets the green component of the four texel values used in bi-linear filtering."@,
        },
        MethodDoc {
            name: "GatherBlue"@,
            signature: "float4 GatherBlue(SamplerState s, float2 uv)"@,
            snippet: "GatherBlue($1, $2)"@,
            description: "### `Texture.GatherBlue`\n*HLSL Texture Method*\n\nGets the blue component of the four texel values used in bi-linear filtering."@,
        },
        MethodDoc {
            name: "GatherAlpha"@,
            signature: "float4 GatherAlpha(SamplerState s, float2 uv)"@,
            snippet: "GatherAlpha($1, $2)"@,
            description: "### `Texture.GatherAlpha`\n*HLSL Texture Method*\n\nGets the alpha component of the four texel values used in bi-linear filtering."@,
        },
        MethodDoc {
            name: "GatherCmp"@,
            signature: "float4 GatherCmp(SamplerComparisonState s, float2 uv, float compare_value)"@,
            snippet: "GatherCmp($1, $2, $3)"@,
            description: "### `Texture.GatherCmp`\n*HLSL Texture Method*\n\nSamples four texels, compares each against a reference value, and returns comparison results in a float4."@,
        },
        MethodDoc {
            name: "CalculateLevelOfDetail"@,
            signature: "float CalculateLevelOfDetail(SamplerState s, float2 uv)"@,
            snippet: "CalculateLevelOfDetail($1, $2)"@,
            description: "### `Texture.CalculateLevelOfDetail`\n*HLSL Texture Method*\n\nCalculates the mipmap level of detail from UV gradients."@,
        },
    ]
}

/// Builds the table of methods of texture objects.
pub fn texture_methods() -> (r: Vec<MethodInfo>)
    ensures
        methods_view(r@) == texture_method_table(),
{
    let r = vec![
        MethodInfo {
            name: "Sample",
            signature: "float4 Sample(SamplerState s, float2 uv)",
            snippet: "Sample($1, $2)",
            description: "### `Texture.Sample`\n*HLSL Texture Method*\n\nSamples a texture using specified SamplerState and coordinates.",
        },
        MethodInfo {
            name: "SampleLevel",
            signature: "float4 SampleLevel(SamplerState s, float2 uv, float lod)",
            snippet: "SampleLevel($1, $2, $3)",
            description: "### `Texture.SampleLevel`\n*HLSL Texture Method*\n\nSamples a texture with an explicit mipmap level of detail (LOD).",
        },
        MethodInfo {
            name: "SampleBias",
            signature: "float4 SampleBias(SamplerState s, float2 uv, float bias)",
            snippet: "SampleBias($1, $2, $3)",
            description: "### `Texture.SampleBias`\n*HLSL Texture Method*\n\nSamples a texture after applying a bias to the calculated mipmap level.",
        },
        MethodInfo {
            name: "SampleGrad",
            signature: "float4 SampleGrad(SamplerState s, float2 uv, float2 ddx, float2 ddy)",
            snippet: "SampleGrad($1, $2, $3, $4)",
            description: "### `Texture.SampleGrad`\n*HLSL Texture Method*\n\nSamples a texture using explicit screen-space gradients (derivatives).",
        },
        MethodInfo {
            name: "SampleCmp",
            signature: "float SampleCmp(SamplerComparisonState s, float2 uv, float compare_value)",
            snippet: "SampleCmp($1, $2, $3)",
            description: "### `Texture.SampleCmp`\n*HLSL Texture Method*\n\nSamples a shadow/depth texture and compares against a reference value.",
        },
        MethodInfo {
            name: "SampleCmpLevelZero",
            signature: "float SampleCmpLevelZero(SamplerComparisonState s, float2 uv, float compare_value)",
            snippet: "SampleCmpLevelZero($1, $2, $3)",
            description: "### `Texture.SampleCmpLevelZero`\n*HLSL Texture Method*\n\nSamples a shadow/depth texture at mip level 0 and compares against a reference value.",
        },
        MethodInfo {
            name: "Load",
            signature: "float4 Load(int3 location)",
            snippet: "Load($1)",
            description: "### `Texture.Load`\n*HLSL Texture Method*\n\nReads raw texel data without any filtering or sampler state.",
        },
        MethodInfo {
            name: "GetDimensions",
            signature: "void GetDimensions(out uint width, out uint height)",
            snippet: "GetDimensions($1, $2)",
            description: "### `Texture.GetDimensions`\n*HLSL Texture Method*\n\nRetrieves texture dimensions (width and height in texels).",
        },
        MethodInfo {
            name: "Gather",
            signature: "float4 Gather(SamplerState s, float2 uv)",
            snippet: "Gather($1, $2)",
            description: "### `Texture.Gather`\n*HLSL Texture Method*\n\nGets the four texel values that would be used in a bi-linear filtering operation.",
        },
        MethodInfo {
            name: "GatherRed",
            signature: "float4 GatherRed(SamplerState s, float2 uv)",
            snippet: "GatherRed($1, $2)",
            description: "### `Texture.GatherRed`\n*HLSL Texture Method*\n\nGets the red component of the four texel values used in bi-linear filtering.",
        },
        MethodInfo {
            name: "GatherGreen",
            signature: "float4 GatherGreen(SamplerState s, float2 uv)",
            snippet: "GatherGreen($1, $2)",
            description: "### `Texture.GatherGreen`\n*HLSL Texture Method*\n\nGets the green component of the four texel values used in bi-linear filtering.",
        },
        MethodInfo {
            name: "GatherBlue",
            signature: "float4 GatherBlue(SamplerState s, float2 uv)",
            snippet: "GatherBlue($1, $2)",
            description: "### `Texture.GatherBlue`\n*HLSL Texture Method*\n\nGets the blue component of the four texel values used in bi-linear filtering.",
        },
        MethodInfo {
            name: "GatherAlpha",
            signature: "float4 GatherAlpha(SamplerState s, float2 uv)",
            snippet: "GatherAlpha($1, $2)",
            description: "### `Texture.GatherAlpha`\n*HLSL Texture Method*\n\nGets the alpha component of the four texel values used in bi-linear filtering.",
        },
        MethodInfo {
            name: "GatherCmp",
            signature: "float4 GatherCmp(SamplerComparisonState s, float2 uv, float compare_value)",
            snippet: "GatherCmp($1, $2, $3)",
            description: "### `Texture.GatherCmp`\n*HLSL Texture Method*\n\nSamples four texels, compares each against a reference value, and returns comparison results in a float4.",
        },
        MethodInfo {
            name: "CalculateLevelOfDetail",
            signature: "float CalculateLevelOfDetail(SamplerState s, float2 uv)",
            snippet: "CalculateLevelOfDetail($1, $2)",
            description: "### `Texture.CalculateLevelOfDetail`\n*HLSL Texture Method*\n\nCalculates the mipmap level of detail from UV gradients.",
        },
    ];
    proof {
        reveal(texture_method_table);
        assert(methods_view(r@) =~= texture_method_table());
    }
    r
}

/// The methods of read-write textures.
#[verifier::opaque]
pub open spec fn rwtexture_method_table() -> Seq<MethodDoc> {
    seq![
        MethodDoc {
            name: "GetDimensions"@,
            signature: "void GetDimensions(out uint width, out uint height)"@,
            snippet: "GetDimensions($1, $2)"@,
            description: "### `RWTexture.GetDimensions`\n*HLSL Unordered Access View Method*\n\nRetrieves the dimensions (width and height in texels) of this writable texture UAV."@,
        },
        MethodDoc {
            name: "Load"@,
            signature: "float4 Load(int2 location)"@,
            snippet: "Load($1)"@,
            description: "### `RWTexture.Load`\n*HLSL Unordered Access View Method*\n\nReads raw texel data from this writable UAV at the specified integer coordinate without sampling."@,
        },
    ]
}

/// Builds the table of methods of read-write textures.
pub fn rwtexture_methods() -> (r: Vec<MethodInfo>)
    ensures
        methods_view(r@) == rwtexture_method_table(),
{
    let r = vec![
        MethodInfo {
            name: "GetDimensions",
            signature: "void GetDimensions(out uint width, out uint height)",
            snippet: "GetDimensions($1, $2)",
            description: "### `RWTexture.GetDimensions`\n*HLSL Unordered Access View Method*\n\nRetrieves the dimensions (width and height in texels) of this writable texture UAV.",
        },
        MethodInfo {
            name: "Load",
            signature: "float4 Load(int2 location)",
            snippet: "Load($1)",
            description: "### `RWTexture.Load`\n*HLSL Unordered Access View Method*\n\nReads raw texel data from this writable UAV at the specified integer coordinate without sampling.",
        },
    ];
    proof {
        reveal(rwtexture_method_table);
        assert(methods_view(r@) =~= rwtexture_method_table());
    }
    r
}

/// The methods of buffer objects.
#[verifier::opaque]
pub open spec fn buffer_method_table() -> Seq<MethodDoc> {
    seq![
        MethodDoc {
            name: "GetDimensions"@,
            signature: "void GetDimensions(out uint numStructs, out uint stride)"@,
            snippet: "GetDimensions($1, $2)"@,
            description: "### `Buffer.GetDimensions`\n*HLSL Buffer Method*\n\nRetrieves the number of elements and byte stride of the buffer."@,
        },
        MethodDoc {
            name: "Load"@,
            signature: "T Load(int location)"@,
            snippet: "Load($1)"@,
            description: "### `StructuredBuffer.Load`\n*HLSL Buffer Method*\n\nReads an element from the buffer at the specified index."@,
        },
        MethodDoc {
            name: "Append"@,
            signature: "void Append(T value)"@,
            snippet: "Append($1)"@,
            description: "### `AppendStructuredBuffer.Append`\n*HLSL Buffer Method*\n\nAppends a new structure element to the end of the buffer and increments its internal counter."@,
        },
        MethodDoc {
            name: "Consume"@,
            signature: "T Consume()"@,
            snippet: "Consume()"@,
            description: "### `ConsumeStructuredBuffer.Consume`\n*HLSL Buffer Method*\n\nConsumes and returns an element from the buffer and decrements its internal counter."@,
        },
        MethodDoc {
            name: "IncrementCounter"@,
            signature: "uint IncrementCounter()"@,
            snippet: "IncrementCounter()"@,
            description: "### `RWStructuredBuffer.IncrementCounter`\n*HLSL Buffer Method*\n\nIncrements the hidden atomic counter associated with the UAV and returns the previous value."@,
        },
        MethodDoc {
            name: "DecrementCounter"@,
            signature: "uint DecrementCounter()"@,
            snippet: "DecrementCounter()"@,
            description: "### `RWStructuredBuffer.DecrementCounter`\n*HLSL Buffer Method*\n\nDecrements the hidden atomic counter associated with the UAV and returns the new value."@,
        },
        MethodDoc {
            name: "Load2"@,
            signature: "uint2 Load2(uint byteOffset)"@,
            snippet: "Load2($1)"@,
            description: "### `ByteAddressBuffer.Load2`\n*HLSL ByteAddressBuffer Method*\n\nLoads two 32-bit unsigned integers (64 bits) starting from the byte offset."@,
        },
        MethodDoc {
            name: "Load3"@,
            signature: "uint3 Load3(uint byteOffset)"@,
            snippet: "Load3($1)"@,
            description: "### `ByteAddressBuffer.Load3`\n*HLSL ByteAddressBuffer Method*\n\nLoads three 32-bit unsigned integers (96 bits) starting from the byte offset."@,
        },
        MethodDoc {
            name: "Load4"@,
            signature: "uint4 Load4(uint byteOffset)"@,
            snippet: "Load4($1)"@,
            description: "### `ByteAddressBuffer.Load4`\n*HLSL ByteAddressBuffer Method*\n\nLoads four 32-bit unsigned integers (128 bits) starting from the byte offset."@,
        },
        MethodDoc {
            name: "Store"@,
            signature: "void Store(uint byteOffset, uint value)"@,
            snippet: "Store($1, $2)"@,
            description: "### `RWByteAddressBuffer.Store`\n*HLSL ByteAddressBuffer Method*\n\nStores a 32-bit unsigned integer into the raw buffer at the specified byte offset."@,
        },
        MethodDoc {
            name: "Store2"@,
            signature: "void Store2(uint byteOffset, uint2 value)"@,
            snippet: "Store2($1, $2)"@,
            description: "### `RWByteAddressBuffer.Store2`\n*HLSL ByteAddressBuffer Method*\n\nStores two 32-bit unsigned integers into the raw buffer at the specified byte offset."@,
        },
        MethodDoc {
            name: "Store3"@,
            signature: "void Store3(uint byteOffset, uint3 value)"@,
            snippet: "Store3($1, $2)"@,
            description: "### `RWByteAddressBuffer.Store3`\n*HLSL ByteAddressBuffer Method*\n\nStores three 32-bit unsigned integers into the raw buffer at the specified byte offset."@,
        },
        MethodDoc {
            name: "Store4"@,
            signature: "void Store4(uint byteOffset, uint4 value)"@,
            snippet: "Store4($1, $2)"@,
            description: "### `RWByteAddressBuffer.Store4`\n*HLSL ByteAddressBuffer Method*\n\nStores four 32-bit unsigned integers into the raw buffer at the specified byte offset."@,
        },
        MethodDoc {
            name: "InterlockedAdd"@,
            signature: "void InterlockedAdd(uint dest, uint value, out uint original_value)"@,
            snippet: "InterlockedAdd($1, $2, $3)"@,
            description: "### `RWByteAddressBuffer.InterlockedAdd`\n*HLSL Atomic Method*\n\nPerforms an atomic addition on the specified byte offset location."@,
        },
        MethodDoc {
            name: "InterlockedAnd"@,
            signature: "void InterlockedAnd(uint dest, uint value, out uint original_value)"@,
            snippet: "InterlockedAnd($1, $2, $3)"@,
            description: "### `RWByteAddressBuffer.InterlockedAnd`\n*HLSL Atomic Method*\n\nPerforms an atomic bitwise AND on the specified byte offset location."@,
        },
        MethodDoc {
            name: "InterlockedCompareExchange"@,
            signature: "void InterlockedCompareExchange(uint dest, uint compare_value, uint value, out uint original_value)"@,
            snippet: "InterlockedCompareExchange($1, $2, $3, $4)"@,
            description: "### `RWByteAddressBuffer.InterlockedCompareExchange`\n*HLSL Atomic Method*\n\nCompares the destination value with a reference value and conditionally stores a new value atomically."@,
        },
        MethodDoc {
            name: "InterlockedCompareStore"@,
            signature: "void InterlockedCompareStore(uint dest, uint compare_value, uint value)"@,
            snippet: "InterlockedCompareStore($1, $2, $3)"@,
            description: "### `RWByteAddressBuffer.InterlockedCompareStore`\n*HLSL Atomic Method*\n\nCompares the destination value with a reference value and conditionally stores a new value atomically without returning the original."@,
        },
        MethodDoc {
            name: "InterlockedExchange"@,
            signature: "void InterlockedExchange(uint dest, uint value, out uint original_value)"@,
            snippet: "InterlockedExchange($1, $2, $3)"@,
            description: "### `RWByteAddressBuffer.InterlockedExchange`\n*HLSL Atomic Method*\n\nAtomically assigns a value to the destination and returns the original value."@,
        },
        MethodDoc {
            name: "InterlockedMax"@,
            signature: "void InterlockedMax(uint dest, uint value, out uint original_value)"@,
            snippet: "InterlockedMax($1, $2, $3)"@,
            description: "### `RWByteAddressBuffer.InterlockedMax`\n*HLSL Atomic Method*\n\nPerforms an atomic maximum comparison and stores the larger value."@,
        },
        MethodDoc {
            name: "InterlockedMin"@,
            signature: "void InterlockedMin(uint dest, uint value, out uint original_value)"@,
            snippet: "InterlockedMin($1, $2, $3)"@,
            description: "### `RWByteAddressBuffer.InterlockedMin`\n*HLSL Atomic Method*\n\nPerforms an atomic minimum comparison and stores the smaller value."@,
        },
        MethodDoc {
            name: "InterlockedOr"@,
            signature: "void InterlockedOr(uint dest, uint value, out uint original_value)"@,
            snippet: "InterlockedOr($1, $2, $3)"@,
            description: "### `RWByteAddressBuffer.InterlockedOr`\n*HLSL Atomic Method*\n\nPerforms an atomic bitwise OR on the specified byte offset location."@,
        },
        MethodDoc {
            name: "InterlockedXor"@,
            signature: "void InterlockedXor(uint dest, uint value, out uint original_value)"@,
            snippet: "InterlockedXor($1, $2, $3)"@,
            description: "### `RWByteAddressBuffer.InterlockedXor`\n*HLSL Atomic Method*\n\nPerforms an atomic bitwise XOR on the specified byte offset location."@,
        },
    ]
}

/// Builds the table of methods of buffer objects.
pub fn buffer_methods() -> (r: Vec<MethodInfo>)
    ensures
        methods_view(r@) == buffer_method_table(),
{
    let r = vec![
        MethodInfo {
            name: "GetDimensions",
            signature: "void GetDimensions(out uint numStructs, out uint stride)",
            snippet: "GetDimensions($1, $2)",
            description: "### `Buffer.GetDimensions`\n*HLSL Buffer Method*\n\nRetrieves the number of elements and byte stride of the buffer.",
        },
        MethodInfo {
            name: "Load",
            signature: "T Load(int location)",
            snippet: "Load($1)",
            description: "### `StructuredBuffer.Load`\n*HLSL Buffer Method*\n\nReads an element from the buffer at the specified index.",
        },
        MethodInfo {
            name: "Append",
            signature: "void Append(T value)",
            snippet: "Append($1)",
            description: "### `AppendStructuredBuffer.Append`\n*HLSL Buffer Method*\n\nAppends a new structure element to the end of the buffer and increments its internal counter.",
        },
        MethodInfo {
            name: "Consume",
            signature: "T Consume()",
            snippet: "Consume()",
            description: "### `ConsumeStructuredBuffer.Consume`\n*HLSL Buffer Method*\n\nConsumes and returns an element from the buffer and decrements its internal counter.",
        },
        MethodInfo {
            name: "IncrementCounter",
            signature: "uint IncrementCounter()",
            snippet: "IncrementCounter()",
            description: "### `RWStructuredBuffer.IncrementCounter`\n*HLSL Buffer Method*\n\nIncrements the hidden atomic counter associated with the UAV and returns the previous value.",
        },
        MethodInfo {
            name: "DecrementCounter",
            signature: "uint DecrementCounter()",
            snippet: "DecrementCounter()",
            description: "### `RWStructuredBuffer.DecrementCounter`\n*HLSL Buffer Method*\n\nDecrements the hidden atomic counter associated with the UAV and returns the new value.",
        },
        MethodInfo {
            name: "Load2",
            signature: "uint2 Load2(uint byteOffset)",
            snippet: "Load2($1)",
            description: "### `ByteAddressBuffer.Load2`\n*HLSL ByteAddressBuffer Method*\n\nLoads two 32-bit unsigned integers (64 bits) starting from the byte offset.",
        },
        MethodInfo {
            name: "Load3",
            signature: "uint3 Load3(uint byteOffset)",
            snippet: "Load3($1)",
            description: "### `ByteAddressBuffer.Load3`\n*HLSL ByteAddressBuffer Method*\n\nLoads three 32-bit unsigned integers (96 bits) starting from the byte offset.",
        },
        MethodInfo {
            name: "Load4",
            signature: "uint4 Load4(uint byteOffset)",
            snippet: "Load4($1)",
            description: "### `ByteAddressBuffer.Load4`\n*HLSL ByteAddressBuffer Method*\n\nLoads four 32-bit unsigned integers (128 bits) starting from the byte offset.",
        },
        MethodInfo {
            name: "Store",
            signature: "void Store(uint byteOffset, uint value)",
            snippet: "Store($1, $2)",
            description: "### `RWByteAddressBuffer.Store`\n*HLSL ByteAddressBuffer Method*\n\nStores a 32-bit unsigned integer into the raw buffer at the specified byte offset.",
        },
        MethodInfo {
            name: "Store2",
            signature: "void Store2(uint byteOffset, uint2 value)",
            snippet: "Store2($1, $2)",
            description: "### `RWByteAddressBuffer.Store2`\n*HLSL ByteAddressBuffer Method*\n\nStores two 32-bit unsigned integers into the raw buffer at the specified byte offset.",
        },
        MethodInfo {
            name: "Store3",
            signature: "void Store3(uint byteOffset, uint3 value)",
            snippet: "Store3($1, $2)",
            description: "### `RWByteAddressBuffer.Store3`\n*HLSL ByteAddressBuffer Method*\n\nStores three 32-bit unsigned integers into the raw buffer at the specified byte offset.",
        },
        MethodInfo {
            name: "Store4",
            signature: "void Store4(uint byteOffset, uint4 value)",
            snippet: "Store4($1, $2)",
            description: "### `RWByteAddressBuffer.Store4`\n*HLSL ByteAddressBuffer Method*\n\nStores four 32-bit unsigned integers into the raw buffer at the specified byte offset.",
        },
        MethodInfo {
            name: "InterlockedAdd",
            signature: "void InterlockedAdd(uint dest, uint value, out uint original_value)",
            snippet: "InterlockedAdd($1, $2, $3)",
            description: "### `RWByteAddressBuffer.InterlockedAdd`\n*HLSL Atomic Method*\n\nPerforms an atomic addition on the specified byte offset location.",
        },
        MethodInfo {
            name: "InterlockedAnd",
            signature: "void InterlockedAnd(uint dest, uint value, out uint original_value)",
            snippet: "InterlockedAnd($1, $2, $3)",
            description: "### `RWByteAddressBuffer.InterlockedAnd`\n*HLSL Atomic Method*\n\nPerforms an atomic bitwise AND on the specified byte offset location.",
        },
        MethodInfo {
            name: "InterlockedCompareExchange",
            signature: "void InterlockedCompareExchange(uint dest, uint compare_value, uint value, out uint original_value)",
            snippet: "InterlockedCompareExchange($1, $2, $3, $4)",
            description: "### `RWByteAddressBuffer.InterlockedCompareExchange`\n*HLSL Atomic Method*\n\nCompares the destination value with a reference value and conditionally stores a new value atomically.",
        },
        MethodInfo {
            name: "InterlockedCompareStore",
            signature: "void InterlockedCompareStore(uint dest, uint compare_value, uint value)",
            snippet: "InterlockedCompareStore($1, $2, $3)",
            description: "### `RWByteAddressBuffer.InterlockedCompareStore`\n*HLSL Atomic Method*\n\nCompares the destination value with a reference value and conditionally stores a new value atomically without returning the original.",
        },
        MethodInfo {
            name: "InterlockedExchange",
            signature: "void InterlockedExchange(uint dest, uint value, out uint original_value)",
            snippet: "InterlockedExchange($1, $2, $3)",
            description: "### `RWByteAddressBuffer.InterlockedExchange`\n*HLSL Atomic Method*\n\nAtomically assigns a value to the destination and returns the original value.",
        },
        MethodInfo {
            name: "InterlockedMax",
            signature: "void InterlockedMax(uint dest, uint value, out uint original_value)",
            snippet: "InterlockedMax($1, $2, $3)",
            description: "### `RWByteAddressBuffer.InterlockedMax`\n*HLSL Atomic Method*\n\nPerforms an atomic maximum comparison and stores the larger value.",
        },
        MethodInfo {
            name: "InterlockedMin",
            signature: "void InterlockedMin(uint dest, uint value, out uint original_value)",
            snippet: "InterlockedMin($1, $2, $3)",
            description: "### `RWByteAddressBuffer.InterlockedMin`\n*HLSL Atomic Method*\n\nPerforms an atomic minimum comparison and stores the smaller value.",
        },
        MethodInfo {
            name: "InterlockedOr",
            signature: "void InterlockedOr(uint dest, uint value, out uint original_value)",
            snippet: "InterlockedOr($1, $2, $3)",
            description: "### `RWByteAddressBuffer.InterlockedOr`\n*HLSL Atomic Method*\n\nPerforms an atomic bitwise OR on the specified byte offset location.",
        },
        MethodInfo {
            name: "InterlockedXor",
            signature: "void InterlockedXor(uint dest, uint value, out uint original_value)",
            snippet: "InterlockedXor($1, $2, $3)",
            description: "### `RWByteAddressBuffer.InterlockedXor`\n*HLSL Atomic Method*\n\nPerforms an atomic bitwise XOR on the specified byte offset location.",
        },
    ];
    proof {
        reveal(buffer_method_table);
        assert(methods_view(r@) =~= buffer_method_table());
    }
    r
}

} // verus!
