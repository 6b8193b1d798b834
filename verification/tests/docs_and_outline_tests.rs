use hlsl_validator::docs::{find_builtin_function, find_engine_variable};
use hlsl_validator::engine_table::{buffer_methods, rwtexture_methods, texture_methods};
use hlsl_validator::format::format_document;
use hlsl_validator::include_paths::{include_search_dirs, AncestorDir, WorkspaceDir};
use hlsl_validator::functions::scan_user_functions;
use hlsl_validator::includes::{
    cached_include_uri, extract_include_targets, is_package_dir, missing_include_candidates, package_include_parts,
    validate_missing_includes,
};
use hlsl_validator::pragmas::validate_shader_pragmas;
use hlsl_validator::symbols::get_document_symbols;
use hlsl_validator::validation::{dxc_arch, validate_shader};

#[test]
fn test_dxc_architecture_constants() {
    assert!(!dxc_arch("x86_64").is_empty());
    assert_eq!(dxc_arch("x86_64"), "x64");
    assert_eq!(dxc_arch("aarch64"), "arm64");
    assert_eq!(dxc_arch("x86"), "x86");
}

#[test]
fn test_docs_builtin_functions() {
    let lerp = find_builtin_function("lerp").expect("lerp should exist in docs");
    assert_eq!(lerp.name, "lerp");
    assert!(!lerp.overloads.is_empty());
    assert!(lerp.description.contains("linear interpolation"));

    let saturate = find_builtin_function("saturate").expect("saturate should exist in docs");
    assert_eq!(saturate.name, "saturate");

    let mul = find_builtin_function("mul").expect("mul should exist in docs");
    assert_eq!(mul.name, "mul");

    let unity_transform = find_builtin_function("TransformObjectToHClip").expect("TransformObjectToHClip should exist");
    assert_eq!(unity_transform.name, "TransformObjectToHClip");

    let unreal_norm = find_builtin_function("GetWorldNormal").expect("GetWorldNormal should exist");
    assert_eq!(unreal_norm.name, "GetWorldNormal");
}

#[test]
fn test_dxr_raytracing_docs() {
    assert!(find_builtin_function("TraceRay").is_some(), "TraceRay must be in docs");
    assert!(find_builtin_function("WorldRayOrigin").is_some(), "WorldRayOrigin must be in docs");
    assert!(find_builtin_function("RayTCurrent").is_some(), "RayTCurrent must be in docs");
}

#[test]
fn builtin_lookup_misses_unknown_names() {
    assert!(find_builtin_function("notAnIntrinsic").is_none());
    assert!(find_builtin_function("").is_none());
    assert!(find_builtin_function("Lerp").is_none());
    let f4 = find_builtin_function("float4").unwrap();
    assert_eq!(f4.overloads.len(), 6);
    assert_eq!(f4.overloads[0].params, vec!["float x", "float y", "float z", "float w"]);
}

#[test]
fn engine_variable_lookup_finds_first_entry() {
    let t = find_engine_variable("_Time").expect("_Time is documented");
    assert_eq!(t.name, "_Time");
    assert_eq!(t.var_type, "float4");
    assert_eq!(t.engine, "unity");
    assert!(find_engine_variable("_NoSuchVariable").is_none());
}

#[test]
fn method_tables_hold_their_methods() {
    assert!(texture_methods().iter().any(|m| m.name == "Sample"));
    assert_eq!(rwtexture_methods().len(), 2);
    assert!(buffer_methods().iter().any(|m| m.name == "InterlockedXor"));
}

#[test]
fn test_shaderlab_render_states_and_generalized_tags() {
    let bad_shader = r#"
Shader "Custom/BadStates" {
    Properties {
        _Color ("Color", Color) = (1, 1, 1, 1)
    }
    SubShader {
        Tags { "RenderType" = "opaque" "RenderPipeline" = "Universal" "IgnoreProjector" = "true" }
        Cull Backface
        ZWrite True
        ZTest Alwayss
        ColorMask XYZ
        Pass {
            HLSLPROGRAM
            float4 frag() : SV_Target { return 0; }
            ENDHLSL
        }
    }
}
"#;
    let diags = validate_shader("file:///bad.shader", bad_shader, "dxc", None).diagnostics;

    assert!(diags.iter().any(|d| d.message.contains("Unknown RenderType 'opaque'") && d.message.contains("Opaque")),
        "Must suggest Opaque: {:?}", diags);
    assert!(diags.iter().any(|d| d.message.contains("UniversalPipeline")),
        "Must suggest UniversalPipeline: {:?}", diags);
    assert!(diags.iter().any(|d| d.message.contains("Unknown IgnoreProjector 'true'") && d.message.contains("Did you mean 'True'?")),
        "Must warn on lowercase true: {:?}", diags);
    assert!(diags.iter().any(|d| d.message.contains("Unknown Cull mode 'Backface'")),
        "Must catch invalid Cull mode: {:?}", diags);
    assert!(diags.iter().any(|d| d.message.contains("Invalid ZWrite value 'True'")),
        "Must catch ZWrite True: {:?}", diags);
    assert!(diags.iter().any(|d| d.message.contains("Unknown ZTest comparison mode 'Alwayss'")),
        "Must catch ZTest Alwayss: {:?}", diags);
    assert!(diags.iter().any(|d| d.message.contains("Invalid ColorMask 'XYZ'")),
        "Must catch invalid ColorMask: {:?}", diags);
}

#[test]
fn test_document_symbols() {
    let code = r#"
Shader "Custom/MyShader"
{
    SubShader
    {
        Pass
        {
            struct Attributes {
                float3 pos : POSITION;
            };

            float4 vert(Attributes input) : SV_Position {
                return float4(input.pos, 1.0);
            }
        }
    }
}
"#;
    let symbols = get_document_symbols(code);
    assert!(symbols.iter().any(|s| s.name == "Custom/MyShader"));
    assert!(symbols.iter().any(|s| s.name == "SubShader"));
    assert!(symbols.iter().any(|s| s.name == "Pass"));
    assert!(symbols.iter().any(|s| s.name == "Attributes"));
    assert!(symbols.iter().any(|s| s.name == "vert"));
}

#[test]
fn outline_struct_spans_and_fields() {
    let code = "struct Varyings {\n    float4 pos : SV_POSITION;\n    float2 uv[2];\n};\ncbuffer Params {\n    float _Speed;\n};\n";
    let symbols = get_document_symbols(code);
    let v = symbols.iter().find(|s| s.name == "Varyings").unwrap();
    assert_eq!(v.kind, 23);
    assert_eq!(v.detail, "struct");
    assert_eq!(v.range.start.line, 0);
    assert_eq!(v.range.end.line, 3);
    assert_eq!(v.range.end.character, 2);
    assert_eq!(v.children.len(), 2);
    assert_eq!(v.children[0].name, "pos");
    assert_eq!(v.children[0].detail, "float4");
    assert_eq!(v.children[1].name, "uv");
    let p = symbols.iter().find(|s| s.name == "Params").unwrap();
    assert_eq!(p.kind, 5);
    assert_eq!(p.detail, "cbuffer");
    assert_eq!(p.range.start.line, 4);
    assert_eq!(p.range.end.line, 6);
    assert_eq!(p.children[0].name, "_Speed");
}

#[test]
fn test_format_document() {
    let messy = "Shader \"Test\" {\nSubShader {\nPass {\nHLSLPROGRAM\nfloat4 frag() : SV_Target {\nreturn 1;\n}\nENDHLSL\n}\n}\n}";
    let edits = format_document(messy, 4, true);
    assert!(!edits.is_empty());
    let new_text = edits[0].new_text.as_str();
    assert!(new_text.contains("    SubShader"));
    assert!(new_text.contains("        Pass"));
}

#[test]
fn format_document_exact_output() {
    let src = "void f() {\n\n\n  int a = 1; // {\n}\n#define X 1\n";
    let edits = format_document(src, 2, true);
    assert_eq!(edits.len(), 1);
    assert_eq!(edits[0].new_text, "void f() {\n\n  int a = 1; // {\n}\n#define X 1\n");
    assert_eq!(edits[0].range.start.line, 0);
    assert_eq!(edits[0].range.end.line, 5);
    assert_eq!(edits[0].range.end.character, 11);
    let tabs = format_document("a {\nb;\n}", 4, false);
    assert_eq!(tabs[0].new_text, "a {\n\tb;\n}\n");
    let empty = format_document("", 4, true);
    assert_eq!(empty[0].new_text, "");
    assert_eq!(empty[0].range.end.line, 0);
}

#[test]
fn include_targets_are_extracted() {
    let text = "#include \"Common.hlsl\"\n  #include <Lighting.hlsl>\n#include\nfloat x;\n";
    assert_eq!(extract_include_targets(text), vec!["Common.hlsl".to_string(), "Lighting.hlsl".to_string()]);
}

#[test]
fn missing_includes_are_reported_once_each() {
    let text = "#include \"Missing.hlsl\"\n#include \"Packages/com.unity/Core.hlsl\"\n#include \"Open.hlsl\"\n";
    let keys = vec!["file:///proj/Open.hlsl".to_string()];
    let cands = missing_include_candidates(text, &keys);
    assert_eq!(cands.len(), 1);
    assert_eq!(cands[0].path, "Missing.hlsl");
    assert_eq!(cands[0].line, 0);
    assert_eq!(cands[0].start, 10);
    assert_eq!(cands[0].end, 22);
    let diags = validate_missing_includes(&cands, &[false]);
    assert_eq!(diags.len(), 1);
    assert_eq!(diags[0].message, "Cannot find include file 'Missing.hlsl'.");
    assert_eq!(diags[0].severity, 1);
    assert_eq!(diags[0].source, "hlsl");
    assert!(validate_missing_includes(&cands, &[true]).is_empty());
}

#[test]
fn pragma_entry_points_are_checked() {
    let shader = "#pragma vertex vert\n#pragma fragment fragg\n#pragma geometry\n#pragma target 4.5\nfloat4 vert() : SV_POSITION { return 0; }\nfloat4 frag() : SV_Target { return 0; }\n";
    let funcs = scan_user_functions(shader, None, None);
    let diags = validate_shader_pragmas(shader, &funcs);
    assert_eq!(diags.len(), 2, "{:?}", diags);
    assert_eq!(diags[0].range.start.line, 1);
    assert_eq!(diags[0].range.start.character, 17);
    assert_eq!(diags[0].range.end.character, 22);
    assert_eq!(
        diags[0].message,
        "Entry point function 'fragg' declared in '#pragma fragment fragg' was not found in this shader or included headers. Did you mean 'frag'?"
    );
    assert_eq!(diags[1].message, "Missing entry point function name for '#pragma geometry'.");
    assert_eq!(diags[1].range.start.line, 2);
}

#[test]
fn known_package_entry_points_are_accepted_when_packages_are_unread() {
    let shader = "#include \"Packages/com.unity.render-pipelines.universal/ShaderLibrary/Core.hlsl\"\n#pragma vertex LitPassVertex\n";
    assert!(validate_shader_pragmas(shader, &[]).is_empty());
    let plain = "#pragma vertex LitPassVertex\n";
    assert_eq!(validate_shader_pragmas(plain, &[]).len(), 1);
}

#[test]
fn open_documents_provide_includes_by_path_end() {
    let keys = vec![
        "file:///proj/other.hlsl".to_string(),
        "file:///proj/lib/common.hlsl".to_string(),
        "file:///proj/common.hlsl".to_string(),
    ];
    assert_eq!(cached_include_uri(&keys, "lib\\common.hlsl"), Some(1));
    assert_eq!(cached_include_uri(&keys, "common.hlsl"), Some(1));
    assert_eq!(cached_include_uri(&keys, "missing.hlsl"), None);
}

#[test]
fn unity_package_includes_split_into_package_and_path() {
    assert_eq!(
        package_include_parts("Packages/com.unity.render-pipelines.core/ShaderLibrary/Common.hlsl"),
        Some(("com.unity.render-pipelines.core".to_string(), "ShaderLibrary/Common.hlsl".to_string()))
    );
    assert_eq!(package_include_parts("packages/pkg"), None);
    assert_eq!(package_include_parts("Assets/x.hlsl"), None);
    assert!(is_package_dir("com.unity.render-pipelines.core@14.0.8", "com.unity.render-pipelines.core"));
    assert!(!is_package_dir("com.unity.render-pipelines.core", "com.unity.render-pipelines.core"));
}

fn ancestor(path: &str, unity: bool, unreal: bool, cache: bool, shaders: bool) -> AncestorDir {
    AncestorDir {
        path: path.to_string(),
        assets: format!("{path}/Assets"),
        packages: format!("{path}/Packages"),
        package_cache: format!("{path}/Library/PackageCache"),
        shaders: format!("{path}/Shaders"),
        unity_project: unity,
        unreal_project: unreal,
        has_package_cache: cache,
        has_shaders: shaders,
    }
}

#[test]
fn include_dirs_of_a_unity_project() {
    let anc = vec![ancestor("/p/Assets", false, false, false, false), ancestor("/p", true, false, true, false)];
    let ws = WorkspaceDir {
        path: "/p".to_string(),
        assets: "/p/Assets".to_string(),
        packages: "/p/Packages".to_string(),
        package_cache: "/p/Library/PackageCache".to_string(),
        has_assets: true,
        has_packages: true,
        has_package_cache: true,
    };
    assert_eq!(
        include_search_dirs(Some("/p/Assets/Shaders".to_string()), &anc, Some(ws)),
        vec!["/p/Assets/Shaders", "/p", "/p/Assets", "/p/Packages", "/p/Library/PackageCache"]
    );
}

#[test]
fn include_dirs_of_an_unreal_project_and_no_workspace() {
    let anc = vec![ancestor("/u/Shaders", false, false, false, false), ancestor("/u", false, true, false, true), ancestor("/", true, false, true, false)];
    assert_eq!(include_search_dirs(Some("/u/Shaders/Private".to_string()), &anc, None), vec!["/u/Shaders/Private", "/u", "/u/Shaders"]);
    assert_eq!(include_search_dirs(None, &[], None), Vec::<String>::new());
}

#[test]
fn formatting_twice_gives_the_same_text() {
    let messy = "Shader \"Test\" {\nSubShader {\n\n\n   Pass {\n#pragma vertex v\n// note\nfloat4 frag() : SV_Target {\nreturn 1;\n}\n}\n}\n}";
    let once = format_document(messy, 4, true);
    let first = once[0].new_text.clone();
    let twice = format_document(&first, 4, true);
    assert_eq!(twice[0].new_text, first);
}
