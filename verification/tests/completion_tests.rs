use hlsl_validator::completion::{completion_command, CompletionItem};
use hlsl_validator::completion_request::get_completions;
use hlsl_validator::diagnostics::{Position, Range};
use hlsl_validator::functions::{functions_scan_ok, scan_user_functions};
use hlsl_validator::property_checks::{reported, validate_shaderlab_properties_and_cbuffer, PropertyFinding};
use hlsl_validator::structs::{scan_struct_definitions, scan_struct_definitions_with_uri};
use hlsl_validator::tags::validate_shaderlab_tags;
use hlsl_validator::variables::scan_user_variables_with_funcs;

/// The completions at (`line`, `col`) of a document with no includes, with
/// the symbols the server gathers for it.
fn complete(uri: &str, code: &str, line: usize, col: usize) -> Vec<CompletionItem> {
    let funcs = scan_user_functions(code, None, Some(uri));
    let vars = scan_user_variables_with_funcs(code, None, Some(uri), Some(funcs.as_slice()));
    let structs = scan_struct_definitions_with_uri(code, Some(uri));
    get_completions(uri, code, line, col, &funcs, &vars, &structs)
}

fn find<'a>(items: &'a [CompletionItem], label: &str) -> Option<&'a CompletionItem> {
    items.iter().find(|i| i.label == label)
}

fn has(items: &[CompletionItem], label: &str) -> bool {
    find(items, label).is_some()
}

#[test]
fn test_function_parameter_completion_and_deduplication() {
    let code = r#"
struct VSInput {
    float3 position : POSITION;
    float4 color : COLOR;
};

struct VSOutput {
    float4 position : SV_Position;
    float4 color : COLOR;
};

VSOutput VSMain(VSInput input)
{
    VSOutput output;

    output.position = float4(inpu, 1.0);
    output.color = input.color;

    return output;
}
"#;
    let arr = complete("file:///test.hlsl", code, 17, 33);

    let input_obj = find(&arr, "input").expect("Function parameter 'input' MUST be in completions!");
    assert_eq!(input_obj.kind, 6);
    assert!(input_obj.sort_text.starts_with("00_"));

    let output_item = find(&arr, "output").expect("Local variable 'output' MUST be in completions!");
    assert_eq!(output_item.kind, 6);
    assert!(output_item.sort_text.starts_with("01_"));

    let vsinput_count = arr.iter().filter(|i| i.label == "VSInput").count();
    assert_eq!(vsinput_count, 1, "VSInput should appear exactly once, got {}", vsinput_count);
}

#[test]
fn test_context_filter_completion() {
    let arr_pure = complete("file:///pure.hlsl", "float4 frag() : SV_Target {\n    \n}", 1, 4);
    assert!(has(&arr_pure, "lerp"));
    assert!(!has(&arr_pure, "TransformObjectToHClip"));
    assert!(!has(&arr_pure, "RotateAboutAxis"));

    let arr_unreal = complete("file:///unreal.usf", "float3 frag() { ", 0, 16);
    assert!(has(&arr_unreal, "RotateAboutAxis"));
    assert!(!has(&arr_unreal, "TransformObjectToHClip"));

    let arr_unity = complete("file:///unity.cginc", "float4 frag() { ", 0, 16);
    assert!(has(&arr_unity, "TransformObjectToHClip"));
    assert!(!has(&arr_unity, "RotateAboutAxis"));
}

#[test]
fn test_shaderlab_properties_completion() {
    let code = "Shader \"Test\" {\nProperties {\n    _\n}\n}";
    let arr = complete("file:///test.shader", code, 2, 5);
    assert!(has(&arr, "_MainTex"));
    assert!(has(&arr, "_Color"));
    assert!(has(&arr, "Range"));
}

#[test]
fn test_member_access_completion() {
    let code = r#"
struct Varyings {
    float4 position : SV_Position;
    float4 color : COLOR;
};

float4 frag(Varyings output) : SV_Target {
    output.po
}
"#;
    let arr = complete("file:///test.hlsl", code, 7, 13);
    assert!(has(&arr, "position"));
    assert!(has(&arr, "color"));
}

#[test]
fn test_texture_method_completion() {
    let code = r#"
Texture2D _MainTex;
SamplerState sampler_MainTex;

float4 frag() : SV_Target {
    _MainTex.
}
"#;
    let arr = complete("file:///test.hlsl", code, 5, 13);
    assert!(has(&arr, "Sample"));
    assert!(has(&arr, "SampleLevel"));
    assert!(has(&arr, "Load"));
}

#[test]
fn test_semantic_completion() {
    let arr = complete("file:///test.hlsl", "float4 pos : SV_", 0, 16);
    assert!(has(&arr, "SV_Position"));
    assert!(has(&arr, "SV_Target"));
}

#[test]
fn test_matrix_element_completion() {
    let code = r#"
void TestMatrix()
{
    float4x4 mvp;
    float val = mvp.
}
"#;
    let arr = complete("file:///test.hlsl", code, 4, 20);
    assert!(has(&arr, "_m00"), "Matrix should offer _m00");
    assert!(has(&arr, "_m33"), "Matrix should offer _m33");
    assert!(has(&arr, "_11"), "Matrix should offer _11");
    assert!(has(&arr, "_44"), "Matrix should offer _44");
}

#[test]
fn test_vector_swizzle_dimension() {
    let code = r#"
void TestVec()
{
    float2 uv;
    float val = uv.
}
"#;
    let arr = complete("file:///test.hlsl", code, 4, 19);
    assert!(has(&arr, "x"), "float2 should have x");
    assert!(has(&arr, "y"), "float2 should have y");
    assert!(has(&arr, "xy"), "float2 should have xy");
    assert!(!has(&arr, "z"), "float2 MUST NOT have z");
    assert!(!has(&arr, "w"), "float2 MUST NOT have w");
    assert!(!has(&arr, "rgba"), "float2 MUST NOT have rgba");
}

#[test]
fn test_extended_semantics() {
    let arr = complete("file:///test.hlsl", "float4 col : SV_", 0, 16);
    assert!(has(&arr, "SV_Target7"), "Should have SV_Target7");
    assert!(has(&arr, "SV_DepthGreaterEqual"), "Should have SV_DepthGreaterEqual");
    assert!(has(&arr, "SV_IsFrontFace"), "Should have SV_IsFrontFace");
    assert!(has(&arr, "SV_Barycentrics"), "Should have SV_Barycentrics");
    assert!(has(&arr, "BINORMAL0"), "Should have BINORMAL0");
}

#[test]
fn test_shader_snippets() {
    let arr = complete("file:///test.hlsl", "\n", 0, 0);
    assert!(has(&arr, "kernel"), "Should have kernel snippet");
    assert!(has(&arr, "tex2d"), "Should have tex2d snippet");
    assert!(has(&arr, "cbuffer"), "Should have cbuffer snippet");
    assert!(has(&arr, "for"), "Should have for snippet");
}

#[test]
fn test_shaderlab_nested_structs_completion() {
    let code = r#"Shader "Test/URPUnlit"
{
    SubShader
    {
        Pass
        {
            HLSLPROGRAM
            struct Attributes
            {
                float4 positionOS : POSITION;
            };

            struct Varyings
            {
                float4 positionCS : SV_POSITION;
            };

            Vary
            ENDHLSL
        }
    }
}"#;
    let structs = scan_struct_definitions(code);
    assert_eq!(structs.len(), 2, "Should discover both Attributes and Varyings");
    assert_eq!(structs[0].name, "Attributes");
    assert_eq!(structs[1].name, "Varyings");

    let arr = complete("file:///test.shader", code, 17, 16);
    assert!(has(&arr, "Varyings"), "Completion should contain Varyings");
    assert!(has(&arr, "Attributes"), "Completion should contain Attributes");
}

#[test]
fn test_unity_builtins_completion_and_filtering() {
    let unity_code = "float4 main() : SV_Target\n{\n    _Ti\n    return float4(0, 0, 0, 0);\n}";
    let items_unity = complete("file:///C:/UnityProject/Assets/Shaders/test.hlsl", unity_code, 2, 7);
    assert!(has(&items_unity, "_Time"), "Unity completion MUST include _Time");
    assert!(has(&items_unity, "_SinTime"), "Unity completion MUST include _SinTime");
    assert!(has(&items_unity, "unity_ObjectToWorld"), "Unity completion MUST include unity_ObjectToWorld");
    assert!(has(&items_unity, "TransformObjectToHClip"), "Unity completion MUST include TransformObjectToHClip");

    let pure_code = "float4 main() : SV_Target\n{\n    \n    return float4(0, 0, 0, 0);\n}";
    let items_pure = complete("file:///C:/PureHLSL/shader.hlsl", pure_code, 2, 4);
    assert!(!has(&items_pure, "_Time"), "Pure HLSL completion MUST NOT include _Time");
    assert!(!has(&items_pure, "unity_ObjectToWorld"), "Pure HLSL completion MUST NOT include unity_ObjectToWorld");
    assert!(!has(&items_pure, "ResolvedView.WorldCameraOrigin"), "Pure HLSL completion MUST NOT include ResolvedView");
}

#[test]
fn test_shaderlab_pass_render_states() {
    let uri = "file:///test.shader";
    let code = "Shader \"Test/RenderStates\"\n{\n    SubShader\n    {\n        Z\n    }\n}";
    let items_z = complete(uri, code, 4, 9);
    assert!(items_z.iter().any(|i| i.label.starts_with("ZWrite")), "Should suggest ZWrite on Z");
    assert!(items_z.iter().any(|i| i.label.starts_with("ZTest")), "Should suggest ZTest on Z");
    assert!(items_z.iter().any(|i| i.label.starts_with("ZClip")), "Should suggest ZClip on Z");

    let items_zcull = complete(uri, "Shader \"Test\" { SubShader { ZCull } }", 0, 33);
    assert!(items_zcull.iter().any(|i| i.label.contains("Cull")), "ZCull should suggest Cull");

    let items_blendop = complete(uri, "Shader \"Test\" { SubShader { BlendOp  } }", 0, 36);
    assert!(has(&items_blendop, "BlendOp Add"), "Should suggest BlendOp Add");
    assert!(has(&items_blendop, "BlendOp Min"), "Should suggest BlendOp Min");

    let items_zclip = complete(uri, "Shader \"Test\" { SubShader { ZClip  } }", 0, 34);
    assert!(has(&items_zclip, "ZClip False"), "Should suggest ZClip False");
}

#[test]
fn test_shaderlab_tag_validation_and_completion() {
    let code_typo = r#"Shader "Test" { SubShader { Tags { "RenderType" = "Opque" } Pass {} } }"#;
    let tag_diags = validate_shaderlab_tags(code_typo);
    assert!(
        tag_diags.iter().any(|d| d.message.contains("Unknown RenderType 'Opque'. Did you mean 'Opaque'?")),
        "Must warn on Opque typo: {:?}",
        tag_diags
    );

    let doc = "Shader \"Test\" { SubShader { Tags { \"RenderType\" =  } } }";
    let items = complete("file:///test.shader", doc, 0, 50);
    assert!(has(&items, "\"Opaque\""), "Should suggest \"Opaque\" for RenderType");
    assert!(has(&items, "\"Transparent\""), "Should suggest \"Transparent\" for RenderType");
}

#[test]
fn test_shaderlab_property_default_value_and_attribute_completion() {
    let uri = "file:///test.shader";

    let doc_color = "Shader \"T\" {\n    Properties {\n        _BaseColor (\"Color\", Color) = \n    }\n}";
    let items_color = complete(uri, doc_color, 2, 39);
    assert!(has(&items_color, "(1, 1, 1, 1)"), "Should suggest (1, 1, 1, 1) for Color");

    let doc_tex = "Shader \"T\" {\n    Properties {\n        _BaseMap (\"Map\", 2D) = \n    }\n}";
    let items_tex = complete(uri, doc_tex, 2, 32);
    assert!(has(&items_tex, "\"white\" {}"), "Should suggest \"white\" {{}} for 2D");
    assert!(has(&items_tex, "\"bump\" {}"), "Should suggest \"bump\" {{}} for 2D");

    let doc_attr = "Shader \"T\" {\n    Properties {\n        [\n    }\n}";
    let items_attr = complete(uri, doc_attr, 2, 9);
    assert!(has(&items_attr, "[MainColor]"), "Should suggest [MainColor]");
    assert!(has(&items_attr, "[MainTexture]"), "Should suggest [MainTexture]");
    assert!(has(&items_attr, "[HDR]"), "Should suggest [HDR]");
}

#[test]
fn test_shaderlab_extended_properties_validation_and_completion() {
    let code = r#"Shader "Test/Extended"
{
    Properties
    {
        [Normal] _Color ("Color", Color) = (1, 1, 1, 1)
        _Dup ("Dup 1", Float) = 0.0
        _Dup ("Dup 2", Float) = 1.0
        _InvalidType ("Bad", Texture) = "white" {}
        _InvertedRange ("Range", Range(2.0, 0.0)) = 1.0
        _OutOfRange ("Range", Range(0.0, 1.0)) = 5.0
        _ScalarWithVector ("Float", Float) = (1, 1, 1, 1)
        _Semi ("WithSemi", Float) = 0.0;
    }
    SubShader { Pass {} }
}"#;
    let findings = validate_shaderlab_properties_and_cbuffer(code);
    let diags = reported(&findings);
    assert!(
        diags.iter().any(|d| d.message.contains("[Normal] attribute can only be applied to 2D texture")),
        "Must detect [Normal] on Color: {:?}",
        diags
    );
    assert!(diags.iter().any(|d| d.message.contains("Duplicate property name '_Dup'")), "Must detect duplicate property: {:?}", diags);
    assert!(
        diags.iter().any(|d| d.message.contains("Unknown property type 'Texture'") && d.message.contains("Did you mean '2D'?")),
        "Must detect unknown type Texture with suggestion: {:?}",
        diags
    );
    // The limits are compared as numbers by the server, which words them so.
    assert!(
        findings.iter().any(|f| matches!(f, PropertyFinding::RangeLimits { min, max, .. }
            if format!("Invalid Range limits: min ({}) is greater than max ({})", min.parse::<f64>().unwrap(), max.parse::<f64>().unwrap())
                .contains("min (2) is greater than max (0)"))),
        "Must detect inverted Range bounds"
    );
    assert!(
        findings.iter().any(|f| matches!(f, PropertyFinding::RangeDefault { name, value, min, max, .. }
            if format!(
                "Default value '{}' for Range property '{}' is outside the range [{}, {}]",
                value,
                name,
                min.parse::<f64>().unwrap(),
                max.parse::<f64>().unwrap()
            ) == "Default value '5.0' for Range property '_OutOfRange' is outside the range [0, 1]")),
        "Must detect out-of-range value"
    );
    assert!(
        diags.iter().any(|d| d
            .message
            .contains("Type mismatch: scalar property '_ScalarWithVector' of type Float cannot take vector default value")),
        "Must detect scalar with vector default: {:?}",
        diags
    );
    assert!(
        diags.iter().any(|d| d.message.contains("ShaderLab property declarations do not use trailing semicolons ';'. Remove ';'")),
        "Must warn on trailing semicolon: {:?}",
        diags
    );

    let uri = "file:///test_comma.shader";
    let doc_comma = "Shader \"T\" {\n    Properties {\n        _Test (\"Display Name\", \n    }\n}";
    let items_comma = complete(uri, doc_comma, 2, 32);
    assert!(has(&items_comma, "Color"), "Must suggest Color after comma");
    assert!(has(&items_comma, "2D"), "Must suggest 2D after comma");
    assert!(has(&items_comma, "Range"), "Must suggest Range after comma");
    assert!(has(&items_comma, "Float"), "Must suggest Float after comma");

    let doc_empty = "Shader \"T\" {\n    Properties {\n        \n    }\n}";
    let items_empty = complete(uri, doc_empty, 2, 8);
    assert!(has(&items_empty, "float"), "Must suggest 'float' snippet");
    assert!(has(&items_empty, "range"), "Must suggest 'range' snippet");
    assert!(has(&items_empty, "color"), "Must suggest 'color' snippet");
    assert!(has(&items_empty, "normal"), "Must suggest 'normal' snippet");
    assert!(has(&items_empty, "toggle"), "Must suggest 'toggle' snippet");
}

#[test]
fn test_dot_access_fallback_and_ternary_prevention() {
    let uri = "file:///test_dot.hlsl";
    let doc = r#"
struct SurfaceData {
    float4 albedo;
    float3 normal;
};

float4 TestFunc(float x) {
    SurfaceData surf;
    unknownVar.
    float val = x > 0.0 ? 1.0 : 
    return surf.albedo;
}
"#;
    let items_dot = complete(uri, doc, 8, 15);
    assert!(has(&items_dot, "x"), "Must suggest swizzle x");
    assert!(has(&items_dot, "albedo"), "Must suggest known struct field 'albedo'");
    assert!(has(&items_dot, "normal"), "Must suggest known struct field 'normal'");
    assert!(!has(&items_dot, "cbuffer"), "Must NOT suggest cbuffer on dot access");

    let items_ternary = complete(uri, doc, 9, 32);
    assert!(!has(&items_ternary, "SV_Target"), "Ternary ':' must NOT trigger SV_Target");
}

#[test]
fn test_completion_items_have_parameter_hints_command() {
    let uri = "file:///test_cmd.hlsl";
    let doc = r#"
int my_custom_func(int x, int y) { return x + y; }
void main() {
    
}
"#;
    let items = complete(uri, doc, 3, 4);
    let user_fn = find(&items, "my_custom_func").expect("my_custom_func must be present");
    assert_eq!(completion_command(user_fn), Some("editor.action.triggerParameterHints"));
    let clamp_fn = find(&items, "clamp").expect("clamp must be present");
    assert_eq!(completion_command(clamp_fn), Some("editor.action.triggerParameterHints"));
}

fn range(line: usize, a: usize, b: usize) -> Range {
    Range { start: Position { line, character: a }, end: Position { line, character: b } }
}

#[test]
fn member_items_replace_from_after_the_dot() {
    let code = "struct S {\n    float4 a;\n    float b;\n};\nvoid f(S s) {\n    s.a\n}\n";
    let items = complete("file:///m.hlsl", code, 5, 7);
    let a = find(&items, "a").expect("field a");
    assert_eq!(a.kind, 5);
    assert_eq!(a.detail, "float4 S.a");
    assert_eq!(a.sort_text, "00_00_a");
    assert_eq!(a.range, Some(range(5, 6, 7)));
    assert_eq!(a.insert_text_format, Some(1));
    let b = find(&items, "b").expect("field b");
    assert_eq!(b.sort_text, "00_01_b");
    assert_eq!(items.len(), 2);
}

#[test]
fn nested_member_access_follows_struct_fields() {
    let code = "struct In {\n    float3 p;\n};\nstruct Out {\n    In inner;\n};\nvoid f(Out o) {\n    o.inner.\n}\n";
    let items = complete("file:///n.hlsl", code, 7, 12);
    assert!(has(&items, "p"));
    assert_eq!(items.len(), 1);
}

#[test]
fn matrix_shape_follows_the_type_name() {
    let code = "void f() {\n    float3x3 m;\n    m.\n}\n";
    let items = complete("file:///x.hlsl", code, 2, 6);
    assert_eq!(items.len(), 18);
    assert!(has(&items, "_m22"));
    assert!(!has(&items, "_m33"));
    let first_one_based = find(&items, "_11").unwrap();
    assert_eq!(first_one_based.sort_text, "01_09__11");
    assert_eq!(first_one_based.detail, "Matrix element [1][1] (1-based)");
}

#[test]
fn semantic_items_replace_after_the_colon() {
    let items = complete("file:///s.hlsl", "float4 p : SV_Po", 0, 16);
    let sp = find(&items, "SV_Position").expect("SV_Position");
    assert_eq!(sp.kind, 6);
    assert_eq!(sp.detail, "HLSL Semantic");
    assert_eq!(sp.range, Some(range(0, 10, 16)));
}

#[test]
fn no_completion_inside_comments_or_past_the_end() {
    let code = "// float\nfloat x;\n";
    assert!(complete("file:///c.hlsl", code, 0, 7).is_empty());
    assert!(complete("file:///c.hlsl", code, 9, 0).is_empty());
}

#[test]
fn range_property_defaults_read_the_bounds() {
    let doc = "Shader \"T\" {\n    Properties {\n        _R (\"R\", Range(0.25, 4)) = \n    }\n}";
    let items = complete("file:///r.shader", doc, 2, 35);
    assert_eq!(items.len(), 3);
    assert_eq!(items[0].label, "0.25");
    assert_eq!(items[0].detail, "Range minimum value (0.25)");
    assert_eq!(items[0].sort_text, "00_00_min");
    assert_eq!(items[1].label, "4");
    assert_eq!(items[2].label, "0.5");
    assert!(items[0].range.is_none());
}

#[test]
fn open_attribute_bracket_inserts_only_the_rest() {
    let doc = "Shader \"T\" {\n    Properties {\n        [H]\n    }\n}";
    let items = complete("file:///a.shader", doc, 2, 10);
    let hdr = find(&items, "[HDR]").expect("[HDR]");
    assert_eq!(hdr.insert_text, "HDR");
    let doc2 = "Shader \"T\" {\n    Properties {\n        [H\n    }\n}";
    let items2 = complete("file:///a.shader", doc2, 2, 10);
    assert_eq!(find(&items2, "[HDR]").unwrap().insert_text, "HDR]");
}

#[test]
fn render_state_values_after_the_command_drop_the_command() {
    let doc = "Shader \"T\"\n{\n    SubShader\n    {\n        Cull B\n    }\n}";
    let items = complete("file:///b.shader", doc, 4, 14);
    let back = find(&items, "Cull Back").expect("Cull Back");
    assert_eq!(back.insert_text, "Back");
    assert_eq!(back.sort_text, "00_00_Cull Back");
    assert_eq!(items.len(), 3);
    assert!(items.iter().all(|i| i.label.starts_with("Cull")));
    let doc2 = "Shader \"T\"\n{\n    SubShader\n    {\n        Cull\n    }\n}";
    let items2 = complete("file:///b.shader", doc2, 4, 12);
    assert_eq!(find(&items2, "Cull Back").unwrap().insert_text, "Cull Back");
    let doc3 = "Shader \"T\"\n{\n    SubShader\n    {\n        ZCULL\n    }\n}";
    assert_eq!(complete("file:///b.shader", doc3, 4, 13).len(), 4);
}

#[test]
fn tag_values_complete_an_opened_quote() {
    let doc = "Shader \"T\" { SubShader { Tags { \"Queue\" = \"Geo } } }";
    let items = complete("file:///t.shader", doc, 0, 46);
    let geo = find(&items, "\"Geometry\"").expect("Geometry");
    assert_eq!(geo.insert_text, "Geometry\"");
    assert_eq!(geo.filter_text.as_deref(), Some("Geometry"));
    assert_eq!(geo.detail, "Queue: Determines render sorting order queue");
}

#[test]
fn tag_keys_are_offered_with_templates() {
    let doc = "Shader \"T\" { SubShader { Tags { } } }";
    let items = complete("file:///t.shader", doc, 0, 33);
    let rt = find(&items, "\"RenderType\"").expect("RenderType key");
    assert_eq!(rt.kind, 10);
    assert_eq!(rt.insert_text, "\"RenderType\"");
    let tpl = find(&items, "\"RenderType\" = \"Opaque\"").expect("RenderType template");
    assert_eq!(tpl.insert_text, "\"RenderType\" = \"${1:Opaque}\"");
    assert_eq!(tpl.insert_text_format, Some(2));
}

#[test]
fn subshader_keywords_leave_out_hlsl_only_words() {
    let items = complete("file:///k.shader", "Shader \"T\" { SubShader { } }", 0, 25);
    assert!(has(&items, "Stencil"));
    assert!(!items.iter().any(|i| i.kind == 14 && i.label == "struct"));
    let pass = find(&items, "pass").expect("pass template");
    assert_eq!(pass.sort_text, "30_03_pass");
}

#[test]
fn word_items_replace_the_word_and_come_once() {
    let code = "float4 lerpish;\nvoid f() {\n    ler\n}\n";
    let items = complete("file:///w.hlsl", code, 2, 7);
    let v = find(&items, "lerpish").expect("variable");
    assert_eq!(v.range, Some(range(2, 4, 7)));
    assert_eq!(v.sort_text, "10_000_lerpish");
    assert!(has(&items, "lerp"));
    let mut labels: Vec<&str> = items.iter().map(|i| i.label.as_str()).collect();
    let n = labels.len();
    labels.sort();
    labels.dedup();
    assert_eq!(labels.len(), n);
}

#[test]
fn a_header_closing_before_opening_cannot_be_scanned() {
    assert!(functions_scan_ok("float4 f(float x) { return x; }\n", None, None));
    assert!(!functions_scan_ok("x) void f(int a) {}\n", None, None));
    assert!(functions_scan_ok("// x) void f(int a) {}\n", None, None));
}

#[test]
fn tag_value_typo_names_the_nearest_value() {
    let code = "Shader \"T\" { SubShader { Tags { \"Queue\" = \"Geomtry\" } } }";
    let diags = validate_shaderlab_tags(code);
    assert!(diags.iter().any(|d| d.message == "Unknown Queue 'Geomtry'. Did you mean 'Geometry'?"), "{:?}", diags);
    let code_lower = "Shader \"T\" { SubShader { Tags { \"Queue\" = \"geomtry\" } } }";
    let diags_lower = validate_shaderlab_tags(code_lower);
    assert!(diags_lower.iter().any(|d| d.message == "Unknown Queue 'geomtry'. Did you mean 'Geometry'?"), "{:?}", diags_lower);
    let code2 = "Shader \"T\" { SubShader { Tags { \"Queue\" = \"Zzz\" } } }";
    let diags2 = validate_shaderlab_tags(code2);
    assert!(diags2.iter().any(|d| d.message == "Unknown Queue value 'Zzz'."), "{:?}", diags2);
}
