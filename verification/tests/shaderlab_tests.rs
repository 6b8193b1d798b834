use hlsl_validator::diagnostics::Diagnostic;
use hlsl_validator::property_checks::{reported, validate_shaderlab_properties_and_cbuffer, PropertyFinding};
use hlsl_validator::render_states::validate_shaderlab_render_states;
use hlsl_validator::tags::validate_shaderlab_tags;

fn property_diags(code: &str) -> Vec<Diagnostic> {
    reported(&validate_shaderlab_properties_and_cbuffer(code))
}

#[test]
fn test_shaderlab_property_syntax_error_and_cbuffer_warning() {
    let code_with_syntax_err = r#"Shader "Test/Error"
{
    Properties
    {
        ("Float", Float) = 0.0
    }
    SubShader
    {
        Pass
        {
            HLSLPROGRAM
            ENDHLSL
        }
    }
}"#;
    let diags = property_diags(code_with_syntax_err);
    assert!(
        diags.iter().any(|d| d.severity == 1 && d.message.contains("Missing property name")),
        "Should report syntax error for property missing name"
    );

    let code_missing_cbuffer = r#"Shader "Test/URP"
{
    Properties
    {
        _BaseColor("Base Color", Color) = (1, 1, 1, 1)
        _Speed("Speed", Float) = 1.0
    }
    SubShader
    {
        Tags { "RenderPipeline" = "UniversalPipeline" }
        Pass
        {
            HLSLPROGRAM
            // No CBUFFER_START(UnityPerMaterial)
            ENDHLSL
        }
    }
}"#;
    let diags2 = property_diags(code_missing_cbuffer);
    assert!(
        diags2.iter().any(|d| d.severity == 2 && d.message.contains("UnityPerMaterial")),
        "Should warn about missing CBUFFER_START(UnityPerMaterial)"
    );

    let code_with_cbuffer = r#"Shader "Test/URP"
{
    Properties
    {
        _BaseColor("Base Color", Color) = (1, 1, 1, 1)
    }
    SubShader
    {
        Tags { "RenderPipeline" = "UniversalPipeline" }
        Pass
        {
            HLSLPROGRAM
            CBUFFER_START(UnityPerMaterial)
                half4 _BaseColor;
            CBUFFER_END
            ENDHLSL
        }
    }
}"#;
    let diags3 = property_diags(code_with_cbuffer);
    assert!(
        !diags3.iter().any(|d| d.message.contains("not declared in 'CBUFFER_START(UnityPerMaterial)'")),
        "Should not warn when property is declared in CBuffer"
    );
}

#[test]
fn test_shaderlab_user_image_diagnostics() {
    let code = r#"Shader "Custom/Test"
{
    Properties
    {
        [MainColor] _BaseColor("Base Color", Color) = (1, 1, 1, 1)
        [MainTexture] _BaseMap("Base Map", 2D) = "white" {}
        _Freq ("freq", Float) = 
        _Amp ("Amp", Float) = 0.0
        _Speed ("Speed", Float) = 0.0
    }
    SubShader
    {
        Tags { "RenderType" = "Opaque" "RenderPipeline" = "UniversalPipeline" }
    }
}"#;
    let diags = property_diags(code);
    let freq_err = diags
        .iter()
        .find(|d| d.message.contains("Missing default value after '=' for Float property '_Freq'"));
    assert!(freq_err.is_some(), "Must report missing default value for _Freq: {:?}", diags);
}

#[test]
fn test_shaderlab_malformed_vector_and_attribute_diagnostic() {
    let code = r#"Shader "Custom/Test2"
{
    Properties
    {
        [MainColor] _BaseColor("Base Color", Color) = (1, 1, 1,)
        [UnclosedBracket _BadProp("Bad", Float) = 1.0
    }
    SubShader { Pass {} }
}"#;
    let diags = property_diags(code);
    assert!(
        diags.iter().any(|d| d.message.contains("Trailing comma or empty component")),
        "Must detect trailing comma in (1, 1, 1,): {:?}",
        diags
    );
    assert!(
        diags.iter().any(|d| d.message.contains("Unclosed attribute bracket")),
        "Must detect unclosed '[': {:?}",
        diags
    );
}

#[test]
fn property_checks_report_extended_errors() {
    let code = r#"Shader "Test/Extended"
{
    Properties
    {
        [Normal] _Color ("Color", Color) = (1, 1, 1, 1)
        _Dup ("Dup 1", Float) = 0.0
        _Dup ("Dup 2", Float) = 1.0
        _InvalidType ("Bad", Texture) = "white" {}
        _InvertedRange ("Range", Range(2.0, 0.0)) = 1.0
        _OutOfRange ("Range", Range(0.0, 1.0)) = 5.0
        _ScalarWithVector ("Float", Float) = (1, 1, 1, 1)
        _Semi ("WithSemi", Float) = 0.0;
    }
    SubShader { Pass {} }
}"#;
    let findings = validate_shaderlab_properties_and_cbuffer(code);
    let diags = reported(&findings);
    assert!(diags.iter().any(|d| d.message.contains("[Normal] attribute can only be applied to 2D texture")));
    assert!(diags.iter().any(|d| d.message.contains("Duplicate property name '_Dup'")));
    assert!(diags
        .iter()
        .any(|d| d.message.contains("Unknown property type 'Texture'") && d.message.contains("Did you mean '2D'?")));
    assert!(diags.iter().any(|d| d
        .message
        .contains("Type mismatch: scalar property '_ScalarWithVector' of type Float cannot take vector default value")));
    assert!(diags
        .iter()
        .any(|d| d.message.contains("ShaderLab property declarations do not use trailing semicolons ';'. Remove ';'")));
    // The two comparisons of numbers come back with their text.
    assert!(findings.iter().any(|f| matches!(f,
        PropertyFinding::RangeLimits { name, min, max, .. } if name == "_InvertedRange" && min == "2.0" && max == "0.0")));
    assert!(findings.iter().any(|f| matches!(f,
        PropertyFinding::RangeDefault { name, value, min, max, .. }
            if name == "_OutOfRange" && value == "5.0" && min == "0.0" && max == "1.0")));
}

#[test]
fn tags_and_render_states_report_bad_values() {
    let bad_shader = r#"
Shader "Custom/BadStates" {
    SubShader {
        Tags { "RenderType" = "opaque" "RenderPipeline" = "Universal" "IgnoreProjector" = "true" }
        Cull Backface
        ZWrite True
        ZTest Alwayss
        ColorMask XYZ
    }
}
"#;
    let tags = validate_shaderlab_tags(bad_shader);
    assert!(tags
        .iter()
        .any(|d| d.message.contains("Unknown RenderType 'opaque'") && d.message.contains("Opaque")));
    assert!(tags.iter().any(|d| d.message.contains("UniversalPipeline")));
    assert!(tags
        .iter()
        .any(|d| d.message.contains("Unknown IgnoreProjector 'true'") && d.message.contains("Did you mean 'True'?")));
    let states = validate_shaderlab_render_states(bad_shader);
    assert!(states.iter().any(|d| d.message.contains("Unknown Cull mode 'Backface'")));
    assert!(states.iter().any(|d| d.message == "Invalid ZWrite value 'True'. Expected 'On' or 'Off'. Did you mean 'On'?"));
    assert!(states.iter().any(|d| d.message.contains("Unknown ZTest comparison mode 'Alwayss'")
        && d.message.ends_with("NotEqual, Always, Off.")));
    assert!(states.iter().any(|d| d.message.contains("Invalid ColorMask 'XYZ'")));
    let cull = states.iter().find(|d| d.message.contains("Cull")).unwrap();
    assert_eq!((cull.range.start.line, cull.range.start.character, cull.range.end.character), (4, 13, 21));
}
