use hlsl_validator::definition::get_definition;
use hlsl_validator::functions::{scan_user_functions, FunctionSignature};
use hlsl_validator::help::get_signature_help;
use hlsl_validator::hover::get_hover_info;
use hlsl_validator::structs::{scan_struct_definitions_with_uri, StructDef};
use hlsl_validator::variables::{scan_user_variables_with_funcs, VariableSymbol};

/// The symbols of one document, as the server gathers them when it has no
/// includes to read.
fn symbols_of(code: &str, uri: &str) -> (Vec<FunctionSignature>, Vec<VariableSymbol>, Vec<StructDef>) {
    let funcs = scan_user_functions(code, None, Some(uri));
    let vars = scan_user_variables_with_funcs(code, None, Some(uri), Some(funcs.as_slice()));
    let structs = scan_struct_definitions_with_uri(code, Some(uri));
    (funcs, vars, structs)
}

#[test]
fn test_range_signature_help() {
    let code = "    _Gloss (\"Smoothness\", Range(0, ";
    let (funcs, _, _) = symbols_of(code, "file:///test.shader");
    let sig = get_signature_help(code, 0, code.len(), &funcs).expect("Range help");
    assert_eq!(sig.signatures[0].label, "Range(float min, float max)");
    assert_eq!(sig.active_parameter, 1);
}

#[test]
fn test_hover_info() {
    let code = "float v = saturate(val);";
    let (f, v, s) = symbols_of(code, "file:///test.hlsl");
    let hover = get_hover_info(code, 0, 12, &f, &v, &s).expect("hover on saturate");
    assert!(hover.contains("saturate"));
}

#[test]
fn test_parameter_hover_and_definition() {
    let code = r#"
VSOutput VSMain(VSInput input)
{
    VSOutput output;
    output.color = input.color;
    return output;
}
"#;
    let uri = "file:///test.hlsl";
    let (f, v, s) = symbols_of(code, uri);
    let keys = vec![uri.to_string()];

    let hover_md = get_hover_info(code, 4, 20, &f, &v, &s).expect("Hover on parameter 'input' should return markdown!");
    assert!(hover_md.contains("VSInput input"), "Hover should show 'VSInput input'");
    assert!(hover_md.contains("parameter of `VSMain`"), "Hover should mention 'parameter of VSMain'");

    let def = get_definition(code, uri, 4, 20, &keys, None, &f, &v, &s).expect("Go to definition on 'input' should not be null!");
    assert_eq!(def.range.start.line, 1, "Parameter 'input' is declared on line 1");

    let hover_out_md = get_hover_info(code, 4, 6, &f, &v, &s).expect("Hover on local 'output' should return markdown!");
    assert!(hover_out_md.contains("VSOutput output"), "Hover should show 'VSOutput output'");
    assert!(hover_out_md.contains("local variable in `VSMain`"), "Hover should mention local variable");

    let def_out = get_definition(code, uri, 4, 6, &keys, None, &f, &v, &s).expect("Go to definition on 'output' should not be null!");
    assert_eq!(def_out.range.start.line, 3, "Local 'output' is declared on line 3");
}

#[test]
fn test_engine_variable_hover() {
    let code = "float4 t = _Time;\nfloat4x4 m = unity_ObjectToWorld;\n";
    let (f, v, s) = symbols_of(code, "file:///test.hlsl");
    let hover_time_str = get_hover_info(code, 0, 13, &f, &v, &s).unwrap_or_default();
    assert!(hover_time_str.contains("_Time"), "Hover should describe _Time");
    assert!(hover_time_str.contains("t / 20"), "Hover should explain _Time components");
    let hover_mat_str = get_hover_info(code, 1, 16, &f, &v, &s).unwrap_or_default();
    assert!(hover_mat_str.contains("unity_ObjectToWorld"), "Hover should describe unity_ObjectToWorld");
}

#[test]
fn test_hover_local_precedence_over_intrinsics() {
    let uri = "file:///test_hover.hlsl";
    let doc = r#"
float4 Calculate(float distance, float saturate) {
    return float4(distance, saturate, 0, 1);
}
"#;
    let (f, v, s) = symbols_of(doc, uri);
    let val_str = get_hover_info(doc, 2, 19, &f, &v, &s).unwrap_or_default();
    assert!(val_str.contains("parameter of `Calculate`"), "Hover must show parameter doc: {}", val_str);
    assert!(!val_str.contains("Microsoft HLSL Intrinsic"), "Hover must NOT show intrinsic doc for local parameter");
}

#[test]
fn test_user_signature_help() {
    let uri = "file:///test_sig.shader";
    let doc = r#"Shader "Custom/Test"
{
    SubShader
    {
        Pass
        {
            HLSLPROGRAM
            int test(int a){
                return a;
            }

            void frag() {
                int b = test()
            }
            ENDHLSL
        }
    }
}
"#;
    let (funcs, _, _) = symbols_of(doc, uri);
    let line_12 = doc.lines().nth(12).unwrap();
    let open_col = line_12.find('(').unwrap() + 1;
    let after_col = line_12.find(')').unwrap() + 1;

    let sig_inside = get_signature_help(doc, 12, open_col, &funcs).expect("Signature help must work inside ()!");
    let sig_after = get_signature_help(doc, 12, after_col, &funcs).expect("Signature help must work right after ()!");
    assert_eq!(sig_inside.signatures[0].label, "int test(int a)");
    assert_eq!(sig_after.signatures[0].label, "int test(int a)");
}

#[test]
fn test_included_signature_help_and_hybrid_collision() {
    let main_uri = "file:///workspace/Shaders/Main.shader";
    let inc_uri = "file:///workspace/Shaders/UnityCG.cginc";
    let inc_doc = r#"
// Transforms 2D UV by texture scale and offset
float2 TRANSFORM_TEX(float2 uv, float4 st) {
    return uv * st.xy + st.zw;
}

float CustomHelper(float a, float b, float c) {
    return (a + b) * c;
}
"#;
    let main_doc = r#"Shader "Custom/Main"
{
    SubShader
    {
        Pass
        {
            HLSLPROGRAM
            #include "UnityCG.cginc"

            void frag() {
                float2 uv = TRANSFORM_TEX(
                float val = CustomHelper(
            }
            ENDHLSL
        }
    }
}
"#;
    // The main document's functions, then those of the include it names.
    let mut funcs = scan_user_functions(main_doc, None, Some(main_uri));
    funcs.extend(scan_user_functions(inc_doc, Some("UnityCG.cginc"), Some(inc_uri)));

    let sig_custom = get_signature_help(main_doc, 11, 41, &funcs).expect("CustomHelper signature help must resolve from include!");
    assert!(sig_custom.signatures[0].label.contains("CustomHelper(float a, float b, float c)"));
    assert!(sig_custom.signatures[0].documentation.contains("*(Defined in `UnityCG.cginc`)*"), "Must show source provenance");

    let sig_trans = get_signature_help(main_doc, 10, 42, &funcs).expect("TRANSFORM_TEX signature help must resolve from include!");
    assert!(sig_trans.signatures[0].label.contains("TRANSFORM_TEX(float2 uv, float4 st)"));
    let doc_trans = &sig_trans.signatures[0].documentation;
    assert!(doc_trans.contains("*(Defined in `UnityCG.cginc`)*"), "Must show source provenance");
    assert!(doc_trans.contains("Transforms 2D UV"), "Must show enriched documentation");
}

#[test]
fn test_utf8_char_boundary_no_panic() {
    let uri = "file:///test_utf8.hlsl";
    let code = "// Türkçe açıklama: değişkenler 🚀 ve fonksiyonlar\nfloat4 renk = float4(1, 0, 0, 1);\n";
    let (f, v, s) = symbols_of(code, uri);
    let keys = vec![uri.to_string()];
    for col in 0..code.lines().next().unwrap().len() {
        let _ = get_hover_info(code, 0, col, &f, &v, &s);
        let _ = get_definition(code, uri, 0, col, &keys, None, &f, &v, &s);
    }
}

#[test]
fn builtin_signature_help_picks_the_overload_for_the_argument() {
    let code = "float4 c = float4(a, b, ";
    let help = get_signature_help(code, 0, code.len(), &[]).expect("float4 overloads");
    assert_eq!(help.signatures.len(), 6);
    assert_eq!(help.signatures[0].label, "float4(float x, float y, float z, float w)");
    assert_eq!(help.active_parameter, 2);
    // The fewest parameters above the cursor's: 3 (`float2 xy, float z, float w`).
    assert_eq!(help.active_signature, 4);
    assert!(get_signature_help("no call here", 0, 3, &[]).is_none());
}

#[test]
fn hover_on_semantics_structs_and_properties() {
    let code = "struct V\n{\n    float4 pos : SV_POSITION;\n};\nfloat4 frag() : SV_Target { return 0; }\n";
    let (f, v, s) = symbols_of(code, "file:///a.hlsl");
    let sem = get_hover_info(code, 4, 18, &f, &v, &s).unwrap();
    assert_eq!(sem, "### `SV_Target`\n*HLSL Semantic*\n\nSystem-Value: Render target output 0 color (`float4`).");
    let st = get_hover_info(code, 0, 7, &f, &v, &s).unwrap();
    assert_eq!(st, "```hlsl\nstruct V\n{\n    float4 pos;\n};\n```");
    assert!(get_hover_info(code, 5, 0, &f, &v, &s).is_none());
    let shader = "Shader \"X\" {\n    Properties {\n        _Tint (\"Tint\", Color) = (1, 1, 1, 1)\n    }\n}\n";
    let (f2, v2, s2) = symbols_of(shader, "file:///x.shader");
    let p = get_hover_info(shader, 2, 10, &f2, &v2, &s2).unwrap();
    assert_eq!(p, "### `_Tint` (Color)\n*ShaderLab Property*\n\nDisplay Name: **\"Tint\"**\nDefault: `(1, 1, 1, 1)`");
}

#[test]
fn definition_of_an_include_line() {
    let code = "#include \"Common.hlsl\"\nfloat x;\n";
    let keys = vec!["file:///proj/src/Common.hlsl".to_string()];
    let d = get_definition(code, "file:///proj/src/a.hlsl", 0, 3, &keys, None, &[], &[], &[]).unwrap();
    assert_eq!(d.uri, "file:///proj/src/Common.hlsl");
    assert_eq!((d.range.start.line, d.range.end.character), (0, 0));
    let hit = get_definition(code, "file:///proj/src/a.hlsl", 0, 3, &keys, Some("file:///disk/Common.hlsl"), &[], &[], &[]).unwrap();
    assert_eq!(hit.uri, "file:///disk/Common.hlsl");
    assert!(get_definition(code, "file:///proj/src/a.hlsl", 7, 0, &keys, None, &[], &[], &[]).is_none());
}
