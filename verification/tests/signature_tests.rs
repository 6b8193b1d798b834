use hlsl_validator::context::{detect_shader_context, ShaderContext};
use hlsl_validator::functions::scan_user_functions;
use hlsl_validator::lexer::find_enclosing_call;
use hlsl_validator::props::scan_shaderlab_properties;
use hlsl_validator::structs::scan_struct_definitions;
use hlsl_validator::variables::scan_user_variables;

#[test]
fn test_signature_help_parsing() {
    let code = "float4 col = lerp(colorA, colorB, ";
    let (fn_name, param_idx) = find_enclosing_call(code, 0, code.len()).expect("Should find call");
    assert_eq!(fn_name, "lerp");
    assert_eq!(param_idx, 2);

    let code_first_param = "float x = saturate(";
    let (fn_name_sat, param_idx_sat) =
        find_enclosing_call(code_first_param, 0, code_first_param.len()).expect("Should find call");
    assert_eq!(fn_name_sat, "saturate");
    assert_eq!(param_idx_sat, 0);
}

#[test]
fn test_user_symbol_scanning() {
    let code = r#"
struct Attributes {
    float3 positionOS : POSITION;
    float2 uv : TEXCOORD0;
};

float4 MyVertShader(Attributes input) : SV_Position {
    return float4(input.positionOS, 1.0);
}
"#;
    let funcs = scan_user_functions(code, None, None);
    assert_eq!(funcs.len(), 1);
    assert_eq!(funcs[0].name, "MyVertShader");
    assert_eq!(funcs[0].parameters.len(), 1);
    assert_eq!(funcs[0].parsed_params.len(), 1);
    assert_eq!(funcs[0].parsed_params[0].name, "input");
    assert_eq!(funcs[0].parsed_params[0].param_type, "Attributes");

    let structs = scan_struct_definitions(code);
    assert!(structs.iter().any(|s| s.name == "Attributes" && s.fields.len() == 2));
}

#[test]
fn test_auto_context_detection() {
    let pure_hlsl = "Texture2D tex : register(t0);\nfloat4 main() : SV_Target { return float4(1, 0, 0, 1); }";
    assert_eq!(detect_shader_context("file:///C:/projects/game/render.hlsl", pure_hlsl), ShaderContext::PureHlsl);

    let sl_code = "Shader \"Custom/MyShader\" { SubShader { Pass {} } }";
    assert_eq!(detect_shader_context("file:///C:/projects/MyShader.shader", sl_code), ShaderContext::UnityShaderLab);

    let unity_hlsl_by_var = "float4 main() : SV_Target { return _Time; }";
    assert_eq!(detect_shader_context("file:///C:/projects/render.hlsl", unity_hlsl_by_var), ShaderContext::UnityHlsl);

    let unity_hlsl_by_fn = "float4 main(float3 pos : POSITION) : SV_Position { return TransformObjectToHClip(pos); }";
    assert_eq!(detect_shader_context("file:///C:/projects/vert.hlsl", unity_hlsl_by_fn), ShaderContext::UnityHlsl);

    let ue_code = "float4 main() : SV_Target { return ResolvedView.WorldCameraOrigin.xyzz; }";
    assert_eq!(
        detect_shader_context("file:///C:/UnrealProjects/MyGame/Shaders/Private/Test.usf", ue_code),
        ShaderContext::UnrealEngine
    );
    assert_eq!(detect_shader_context("file:///C:/somewhere/test.hlsl", ue_code), ShaderContext::UnrealEngine);
}

#[test]
fn test_forward_declaration_struct_scanning() {
    let code = r#"
struct ForwardType;
struct TargetStruct {
    float3 pos;
    float2 uv;
};
"#;
    let structs = scan_struct_definitions(code);
    assert!(
        structs.iter().any(|s| s.name == "TargetStruct"),
        "TargetStruct must be found even with preceding forward declaration"
    );
    assert!(
        !structs.iter().any(|s| s.name == "ForwardType"),
        "Forward declaration must not be recorded as a complete struct"
    );
}

#[test]
fn test_local_variables_not_in_global_symbols() {
    let code = r#"
float4 g_GlobalColor;

float4 FragmentFunction(float4 inColor)
{
    float4 localColor = inColor * 2.0;
    return localColor;
}
"#;
    let vars = scan_user_variables(code, None, None);
    assert!(vars.iter().any(|v| v.name == "g_GlobalColor"), "g_GlobalColor must be in global variables");
    assert!(!vars.iter().any(|v| v.name == "localColor"), "localColor must NOT be in global variables");
}

#[test]
fn test_register_and_packoffset_variables() {
    let code = r#"
Texture2D _MainTex : register(t0);
SamplerState _Sampler : register(s0);
float4 _Color : packoffset(c0);
"#;
    let vars = scan_user_variables(code, None, None);
    assert!(vars.iter().any(|v| v.name == "_MainTex"), "_MainTex with register binding must be detected");
    assert!(vars.iter().any(|v| v.name == "_Sampler"), "_Sampler with register binding must be detected");
    assert!(vars.iter().any(|v| v.name == "_Color"), "_Color with packoffset binding must be detected");
}

#[test]
fn test_compute_shader_attributes_and_multiline_params() {
    let code = r#"
[numthreads(64, 1, 1)]
void CSMain(
    uint3 id : SV_DispatchThreadID,
    uint groupIndex : SV_GroupIndex
) {
    // Body
}
"#;
    let funcs = scan_user_functions(code, None, None);
    assert_eq!(funcs.len(), 1, "Must parse function with [numthreads] attribute");
    assert_eq!(funcs[0].name, "CSMain");
    assert_eq!(funcs[0].parsed_params.len(), 2);
    assert_eq!(funcs[0].parsed_params[0].name, "id");
    assert_eq!(funcs[0].parsed_params[0].line, 3);
    assert_eq!(funcs[0].parsed_params[1].name, "groupIndex");
    assert_eq!(funcs[0].parsed_params[1].line, 4);
}

#[test]
fn test_multi_attribute_and_comma_in_shaderlab_properties() {
    let code = r#"
Shader "Test/MultiAttr"
{
    Properties
    {
        [HideInInspector] [HDR] _Color ("Main, Secondary (RGB)", Color) = (1, 1, 1, 1)
        _Smoothness ("Smoothness (0 to 1)", Range(0, 1)) = 0.5
    }
    SubShader { Pass {} }
}
"#;
    let props = scan_shaderlab_properties(code);
    assert_eq!(props.len(), 2);
    assert_eq!(props[0].name, "_Color");
    assert_eq!(props[0].display_name, "Main, Secondary (RGB)");
    assert_eq!(props[0].prop_type, "Color");
    assert_eq!(props[1].name, "_Smoothness");
    assert_eq!(props[1].prop_type, "Range(0, 1)");

    let diags = hlsl_validator::property_checks::reported(&hlsl_validator::property_checks::validate_shaderlab_properties_and_cbuffer(code));
    assert!(
        !diags.iter().any(|d| d.message.contains("Invalid property name")),
        "Multi-attributes should not trigger invalid name error"
    );
}
