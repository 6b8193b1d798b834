//! What validating a shader takes: the checks that need no compiler, and
//! the code blocks to compile with DXC, with how to map its messages back.
use vstd::prelude::*;
use crate::context::{detect_shader_context, shader_context_of, should_stub_include, stub_include_line, ShaderContext};
use crate::diagnostics::{diags_view, DiagModel, Diagnostic};
use crate::dxc_output::DxcMapping;
use crate::property_checks::{findings_view, property_findings, validate_shaderlab_properties_and_cbuffer, FindingModel, PropertyFinding};
use crate::render_states::{render_state_diags, validate_shaderlab_render_states};
use crate::splits::{lines, lines_of, ranges_hold, ranges_within};
use crate::strops::{contains, ends_with, eq_str, trim, trim_start};
use crate::tags::{tag_diags, validate_shaderlab_tags};
use crate::text::{blen, push_range, push_str, to_chars};

verus! {

/// Declarations that stand in for the Unity shader library, put before
/// Unity code so that it compiles alone.
pub const UNITY_COMPAT_PREAMBLE: &'static str = r#"
#ifndef __UNITY_BUILTIN_STUBS__
#define __UNITY_BUILTIN_STUBS__
#define fixed4 float4
#define fixed3 float3
#define fixed2 float2
#define fixed float
#define half4 float4
#define half3 float3
#define half2 float2
#define half float

// Texture sampling macros
struct UnitySampler2D { Texture2D t; SamplerState s; };
#define sampler2D UnitySampler2D
#define tex2D(tex, uv) (tex.t.Sample(tex.s, uv))
#define tex2Dlod(tex, uv) (tex.t.SampleLevel(tex.s, (uv).xy, (uv).w))
#define TRANSFORM_TEX(tex,name) ((tex.xy) * name##_ST.xy + name##_ST.zw)

#define TEXTURE2D(name) Texture2D name
#define SAMPLER(name) SamplerState name
#define SAMPLE_TEXTURE2D(name, samplerName, coord2) name.Sample(samplerName, coord2)

// Global Unity Matrices (3D & 2D)
float4x4 UNITY_MATRIX_MVP;
float4x4 UNITY_MATRIX_MV;
float4x4 UNITY_MATRIX_V;
float4x4 UNITY_MATRIX_P;
float4x4 UNITY_MATRIX_VP;
float4x4 unity_ObjectToWorld;
float4x4 unity_WorldToObject;
float4x4 unity_MatrixVP;
float4x4 unity_MatrixV;
float4x4 unity_MatrixInvV;
float4x4 unity_MatrixP;
float4x4 unity_MatrixInvP;

// Global Unity Parameters (Time, Screen, Fog, Camera, Lighting)
float4 _Time;
float4 _SinTime;
float4 _CosTime;
float4 unity_DeltaTime;
float4 _ScreenParams;
float4 _ScaledScreenParams;
float4 _ProjectionParams;
float4 _ZBufferParams;
float4 unity_OrthoParams;
float3 _WorldSpaceCameraPos;
float4 _WorldSpaceLightPos0;
float4 _LightColor0;
float4 _MainLightPosition;
float4 _MainLightColor;
float4 _AdditionalLightsCount;

// Unity 2D Pixel Snapping (Pixel-perfect 2D Sprites)
inline float4 UnityPixelSnap(float4 pos) {
    float2 hpc = _ScreenParams.xy * 0.5;
    float2 temp = floor(pos.xy / pos.w * hpc + 0.5) / hpc;
    pos.xy = temp * pos.w;
    return pos;
}

// Unity 2D UI Canvas Rect Clipping
inline float UnityGet2DClipping(float2 position, float4 clipRect) {
    float2 inside = step(clipRect.xy, position.xy) * step(position.xy, clipRect.zw);
    return inside.x * inside.y;
}

// Coordinate Transforms (Built-in Pipeline)
inline float4 UnityObjectToClipPos(float3 pos) { return mul(UNITY_MATRIX_MVP, float4(pos, 1.0)); }
inline float4 UnityObjectToClipPos(float4 pos) { return mul(UNITY_MATRIX_MVP, pos); }
inline float4 UnityWorldToClipPos(float3 pos) { return mul(UNITY_MATRIX_VP, float4(pos, 1.0)); }
inline float3 UnityObjectToViewPos(float3 pos) { return mul(UNITY_MATRIX_MV, float4(pos, 1.0)).xyz; }
inline float3 UnityObjectToWorldNormal(float3 norm) { return normalize(mul(norm, (float3x3)unity_WorldToObject)); }
inline float3 UnityObjectToWorldDir(float3 dir) { return normalize(mul((float3x3)unity_ObjectToWorld, dir)); }
inline float3 UnityWorldSpaceViewDir(float3 worldPos) { return _WorldSpaceCameraPos - worldPos; }

// Coordinate Transforms (Universal Render Pipeline - URP 2D & 3D)
inline float4 TransformObjectToHClip(float3 pos) { return mul(UNITY_MATRIX_MVP, float4(pos, 1.0)); }
inline float4 TransformObjectToHClip(float4 pos) { return mul(UNITY_MATRIX_MVP, pos); }
inline float3 TransformObjectToWorld(float3 posOS) { return mul(unity_ObjectToWorld, float4(posOS, 1.0)).xyz; }
inline float3 TransformWorldToObject(float3 posWS) { return mul(unity_WorldToObject, float4(posWS, 1.0)).xyz; }
inline float4 TransformWorldToHClip(float3 posWS) { return mul(UNITY_MATRIX_VP, float4(posWS, 1.0)); }
inline float3 TransformObjectToWorldNormal(float3 norm) { return normalize(mul(norm, (float3x3)unity_WorldToObject)); }
inline float3 TransformObjectToWorldDir(float3 dir) { return normalize(mul((float3x3)unity_ObjectToWorld, dir)); }
inline float3 TransformWorldToView(float3 posWS) { return mul(unity_MatrixV, float4(posWS, 1.0)).xyz; }

// URP 2D Lighting Structs
struct SurfaceData2D {
    half4 albedo;
    half3 normalTS;
    half4 mask;
};

// Unity Instancing & Multi-compile stubs
#define UNITY_VERTEX_INPUT_INSTANCE_ID
#define UNITY_VERTEX_OUTPUT_STEREO
#define UNITY_SETUP_INSTANCE_ID(v)
#define UNITY_TRANSFER_INSTANCE_ID(v, o)
#define UNITY_INITIALIZE_VERTEX_OUTPUT_STEREO(o)
#define UNITY_ACCESS_INSTANCED_PROP(arr, var) var

// Constant Buffer macros (URP / HDRP / SRP)
#define CBUFFER_START(name) cbuffer name {
#define CBUFFER_END };
#endif
"#;

/// Declarations that stand in for the Unreal shader library.
pub const UNREAL_COMPAT_PREAMBLE: &'static str = r#"
#ifndef __UNREAL_BUILTIN_STUBS__
#define __UNREAL_BUILTIN_STUBS__
struct FViewUniformShaderParameters {
    float3 WorldCameraOrigin;
    float GameTime;
    float RealTime;
    float DeltaTime;
    float4 ViewSizeAndInvSize;
    float4x4 WorldToClip;
    float4x4 ClipToWorld;
    float4x4 TranslatedWorldToClip;
    float4 ScreenPositionScaleBias;
};
static const FViewUniformShaderParameters ResolvedView = (FViewUniformShaderParameters)0;
static const FViewUniformShaderParameters View = (FViewUniformShaderParameters)0;

struct FMaterialPixelParameters {
    float3 WorldPosition;
    float3 WorldPosition_CamRelative;
    float3 WorldNormal;
    float4 ScreenPosition;
    float2 TexCoords[4];
};
struct FMaterialVertexParameters {
    float3 WorldPosition;
    float3 WorldNormal;
    float4 TangentToWorld[3];
};
struct FPixelMaterialInputs {
    float3 EmissiveColor;
    float3 BaseColor;
};
inline float3 Luminance(float3 LinearColor) {
    return dot(LinearColor, float3(0.3, 0.59, 0.11));
}
inline float3 RotateAboutAxis(float4 NormalizedRotationAxisAndAngle, float3 PivotPoint, float3 Position) {
    float3 Axis = NormalizedRotationAxisAndAngle.xyz;
    float Angle = NormalizedRotationAxisAndAngle.w;
    return Position + sin(Angle) * cross(Axis, Position - PivotPoint);
}
inline float3 GetWorldPosition(FMaterialVertexParameters Parameters) {
    return Parameters.WorldPosition;
}
inline float CalcPixelDepth(FMaterialPixelParameters Parameters) {
    return Parameters.ScreenPosition.w;
}
#endif
"#;

/// Declarations that stand in for the Unreal material functions, used for
/// code that reads `FMaterialPixelParameters`.
pub const UNREAL_MATERIAL_PREAMBLE: &'static str = "float3 Luminance(float3 LinearColor) { return dot(LinearColor, float3(0.3, 0.59, 0.11)); }\nfloat3 RotateAboutAxis(float4 NormalizedRotationAxisAndAngle, float3 PivotPoint, float3 Position) {\n    float3 Axis = NormalizedRotationAxisAndAngle.xyz;\n    float Angle = NormalizedRotationAxisAndAngle.w;\n    return Position + sin(Angle) * cross(Axis, Position - PivotPoint);\n}\n";

} // verus!

verus! {

/// A code block to compile with DXC, and how its messages map back.
#[derive(Debug, Clone)]
pub struct DxcJob {
    pub code: String,
    pub mapping: DxcMapping,
}

/// What a `DxcJob` holds.
pub struct JobModel {
    pub code: Seq<char>,
    pub mapping: DxcMapping,
}

impl View for DxcJob {
    type V = JobModel;

    open spec fn view(&self) -> JobModel {
        JobModel { code: self.code@, mapping: self.mapping }
    }
}

pub open spec fn jobs_view(v: Seq<DxcJob>) -> Seq<JobModel> {
    v.map_values(|j: DxcJob| j@)
}

/// A preamble as it is put before code: leading whitespace removed, ending
/// with a newline.
pub open spec fn prepared_preamble(p: Seq<char>) -> Seq<char> {
    let t = trim_start(p);
    if ends_with(t, seq!['\n']) {
        t
    } else {
        t.push('\n')
    }
}

/// A line as it is compiled: commented out when `test` is an `#include`
/// of an engine header, and ended by a newline.
pub open spec fn stubbed_line(test: Seq<char>, line: Seq<char>) -> Seq<char> {
    (if stub_include_line(test) {
        "// "@
    } else {
        Seq::empty()
    }) + line + seq!['\n']
}

/// The first `n` lines, each stubbed and ended by a newline.
pub open spec fn stubbed_text(ls: Seq<Seq<char>>, n: int) -> Seq<char>
    decreases n,
{
    if n <= 0 {
        Seq::empty()
    } else {
        stubbed_text(ls, n - 1) + stubbed_line(ls[n - 1], ls[n - 1])
    }
}

/// A trimmed line that opens an HLSL program block.
pub open spec fn opens_program(t: Seq<char>) -> bool {
    t == "HLSLPROGRAM"@ || t == "CGPROGRAM"@
}

/// A trimmed line that opens a shared HLSL block.
pub open spec fn opens_shared(t: Seq<char>) -> bool {
    t == "HLSLINCLUDE"@ || t == "CGINCLUDE"@
}

/// A trimmed line that closes an HLSL block.
pub open spec fn closes_block(t: Seq<char>) -> bool {
    t == "ENDHLSL"@ || t == "ENDCG"@
}

/// The shared code of a ShaderLab text after `n` lines: whether a shared
/// block is open, the line after the last opening, the lines gathered, and
/// their code.
pub open spec fn shared_scan(ls: Seq<Seq<char>>, n: int) -> (bool, int, int, Seq<char>)
    decreases n,
{
    if n <= 0 {
        (false, 0, 0, Seq::empty())
    } else {
        let st = shared_scan(ls, n - 1);
        let t = trim(ls[n - 1]);
        if opens_shared(t) {
            (true, n, st.2, st.3)
        } else if closes_block(t) {
            (false, st.1, st.2, st.3)
        } else if st.0 {
            (true, st.1, st.2 + 1, st.3 + stubbed_line(t, ls[n - 1]))
        } else {
            st
        }
    }
}

/// The program blocks of a ShaderLab text after `n` lines: whether one is
/// open, the line after its opening, its code so far, and the jobs of the
/// blocks closed.
pub open spec fn block_scan(ls: Seq<Seq<char>>, n: int, pre: Seq<char>, shared: (bool, int, int, Seq<char>)) -> (bool, int, Seq<char>, Seq<JobModel>)
    decreases n,
{
    if n <= 0 {
        (false, 0, Seq::empty(), seq![])
    } else {
        let st = block_scan(ls, n - 1, pre, shared);
        let t = trim(ls[n - 1]);
        if opens_program(t) {
            (true, n, pre + shared.3, st.3)
        } else if closes_block(t) {
            if st.0 {
                (
                    false,
                    st.1,
                    st.2,
                    st.3.push(
                        JobModel {
                            code: st.2,
                            mapping: DxcMapping {
                                line_offset: st.1 as usize,
                                stubs_line_count: lines(pre).len() as usize,
                                shared_include: if shared.2 > 0 {
                                    Some((shared.2 as usize, shared.1 as usize))
                                } else {
                                    None
                                },
                            },
                        },
                    ),
                )
            } else {
                (false, st.1, st.2, st.3)
            }
        } else if st.0 {
            (true, st.1, st.2 + stubbed_line(t, ls[n - 1]), st.3)
        } else {
            st
        }
    }
}

/// The one job for a whole text put after a preamble.
pub open spec fn whole_text_job(content: Seq<char>, pre: Seq<char>) -> JobModel {
    let ls = lines(content);
    JobModel {
        code: pre + stubbed_text(ls, ls.len() as int),
        mapping: DxcMapping { line_offset: 0, stubs_line_count: lines(pre).len() as usize, shared_include: None },
    }
}

/// The DXC jobs for a text in a context.
pub open spec fn dxc_jobs(ctx: ShaderContext, content: Seq<char>) -> Seq<JobModel> {
    let ls = lines(content);
    match ctx {
        ShaderContext::UnityShaderLab => block_scan(
            ls,
            ls.len() as int,
            prepared_preamble(UNITY_COMPAT_PREAMBLE@),
            shared_scan(ls, ls.len() as int),
        ).3,
        ShaderContext::UnityHlsl => seq![whole_text_job(content, prepared_preamble(UNITY_COMPAT_PREAMBLE@))],
        ShaderContext::UnrealEngine => seq![
            whole_text_job(
                content,
                prepared_preamble(
                    if contains(content, "FMaterialPixelParameters"@) {
                        UNREAL_MATERIAL_PREAMBLE@
                    } else {
                        UNREAL_COMPAT_PREAMBLE@
                    },
                ),
            ),
        ],
        ShaderContext::PureHlsl => seq![
            JobModel {
                code: content,
                mapping: DxcMapping { line_offset: 0, stubs_line_count: 0, shared_include: None },
            },
        ],
    }
}

} // verus!

verus! {

/// `prepared_preamble(p)`.
fn prepared_preamble_exec(p: &str) -> (r: String)
    ensures
        r@ == prepared_preamble(p@),
{
    let v = to_chars(p);
    let n = v.len();
    let s = crate::strops::trim_start_range(v.as_slice(), 0, n);
    proof {
        assert(v@.subrange(0, n as int) =~= v@);
    }
    let mut r = crate::text::range_string(v.as_slice(), s, n);
    if !crate::strops::ends_with_char(v.as_slice(), s, n, '\n') {
        crate::text::push_char(&mut r, '\n');
    }
    r
}

/// Appends `stubbed_line(v[ta..tb], v[la..lb])`.
fn push_stubbed_line(out: &mut String, v: &[char], ta: usize, tb: usize, la: usize, lb: usize)
    requires
        ta <= tb <= v@.len(),
        la <= lb <= v@.len(),
    ensures
        final(out)@ == old(out)@ + stubbed_line(v@.subrange(ta as int, tb as int), v@.subrange(la as int, lb as int)),
{
    let ghost o0 = out@;
    let test = crate::text::range_string(v, ta, tb);
    let stub = should_stub_include(test.as_str());
    if stub {
        push_str(out, "// ");
    }
    push_range(out, v, la, lb);
    crate::text::push_char(out, '\n');
    proof {
        assert(out@ =~= o0 + stubbed_line(v@.subrange(ta as int, tb as int), v@.subrange(la as int, lb as int)));
    }
}

/// The shared code of the text `v` with lines `ranges`: the line after the
/// last opening, the number of lines and the code.
fn shared_scan_exec(v: &[char], ranges: &Vec<(usize, usize)>) -> (r: (usize, usize, String))
    requires
        ranges_within(ranges@, 0, v@.len() as int),
        ranges_hold(v@, ranges@, lines(v@)),
    ensures
        ({
            let s = shared_scan(lines(v@), lines(v@).len() as int);
            r.0 == s.1 && r.1 == s.2 && r.2@ == s.3
        }),
{
    let ghost ls = lines(v@);
    let mut inside = false;
    let mut start: usize = 0;
    let mut count: usize = 0;
    let mut code = String::new();
    let mut i: usize = 0;
    while i < ranges.len()
        invariant
            i <= ranges@.len(),
            ls == lines(v@),
            ranges_within(ranges@, 0, v@.len() as int),
            ranges_hold(v@, ranges@, ls),
            count <= i,
            shared_scan(ls, i as int) == (inside, start as int, count as int, code@),
        decreases ranges.len() - i,
    {
        let (la, lb) = ranges[i];
        assert(ls[i as int] == v@.subrange(la as int, lb as int));
        let (ta, tb) = crate::strops::trim_range(v, la, lb);
        if eq_str(v, ta, tb, "HLSLINCLUDE") || eq_str(v, ta, tb, "CGINCLUDE") {
            inside = true;
            start = i + 1;
        } else if eq_str(v, ta, tb, "ENDHLSL") || eq_str(v, ta, tb, "ENDCG") {
            inside = false;
        } else if inside {
            count = count + 1;
            push_stubbed_line(&mut code, v, ta, tb, la, lb);
        }
        i = i + 1;
    }
    (start, count, code)
}

/// The jobs of the program blocks of the text `v` with lines `ranges`.
fn block_scan_exec(
    v: &[char],
    ranges: &Vec<(usize, usize)>,
    pre: &String,
    shared_start: usize,
    shared_count: usize,
    shared_code: &String,
) -> (r: Vec<DxcJob>)
    requires
        ranges_within(ranges@, 0, v@.len() as int),
        ranges_hold(v@, ranges@, lines(v@)),
    ensures
        jobs_view(r@) == block_scan(
            lines(v@),
            lines(v@).len() as int,
            pre@,
            (false, shared_start as int, shared_count as int, shared_code@),
        ).3,
{
    let ghost ls = lines(v@);
    let ghost sh = (false, shared_start as int, shared_count as int, shared_code@);
    let (_pv, pranges) = lines_of(pre.as_str());
    let stubs = pranges.len();
    assert(stubs == lines(pre@).len());
    let mut jobs: Vec<DxcJob> = Vec::new();
    let mut inside = false;
    let mut start: usize = 0;
    let mut code = String::new();
    let mut i: usize = 0;
    proof {
        assert(jobs_view(jobs@) =~= Seq::<JobModel>::empty());
    }
    while i < ranges.len()
        invariant
            i <= ranges@.len(),
            ls == lines(v@),
            ranges_within(ranges@, 0, v@.len() as int),
            ranges_hold(v@, ranges@, ls),
            stubs == lines(pre@).len(),
            sh == (false, shared_start as int, shared_count as int, shared_code@),
            start <= i,
            block_scan(ls, i as int, pre@, sh) == (inside, start as int, code@, jobs_view(jobs@)),
        decreases ranges.len() - i,
    {
        let (la, lb) = ranges[i];
        assert(ls[i as int] == v@.subrange(la as int, lb as int));
        let (ta, tb) = crate::strops::trim_range(v, la, lb);
        if eq_str(v, ta, tb, "HLSLPROGRAM") || eq_str(v, ta, tb, "CGPROGRAM") {
            inside = true;
            start = i + 1;
            code = pre.clone();
            push_str(&mut code, shared_code.as_str());
        } else if eq_str(v, ta, tb, "ENDHLSL") || eq_str(v, ta, tb, "ENDCG") {
            if inside {
                inside = false;
                let shared = if shared_count > 0 {
                    Some((shared_count, shared_start))
                } else {
                    None
                };
                let job = DxcJob {
                    code: code.clone(),
                    mapping: DxcMapping { line_offset: start, stubs_line_count: stubs, shared_include: shared },
                };
                let ghost jv = job@;
                let ghost j0 = jobs_view(jobs@);
                jobs.push(job);
                assert(jobs_view(jobs@) =~= j0.push(jv));
            }
        } else if inside {
            push_stubbed_line(&mut code, v, ta, tb, la, lb);
        }
        i = i + 1;
    }
    jobs
}

/// `whole_text_job(content, pre)`.
fn whole_text_job_exec(content: &str, pre: String) -> (r: DxcJob)
    ensures
        r@ == whole_text_job(content@, pre@),
{
    let (v, ranges) = lines_of(content);
    let ghost ls = lines(v@);
    let (_pv, pranges) = lines_of(pre.as_str());
    let stubs = pranges.len();
    let ghost p0 = pre@;
    let mut code = pre;
    let mut i: usize = 0;
    while i < ranges.len()
        invariant
            i <= ranges@.len(),
            v@ == content@,
            ls == lines(v@),
            ranges_within(ranges@, 0, v@.len() as int),
            ranges_hold(v@, ranges@, ls),
            code@ == p0 + stubbed_text(ls, i as int),
        decreases ranges.len() - i,
    {
        let (la, lb) = ranges[i];
        assert(ls[i as int] == v@.subrange(la as int, lb as int));
        let ghost c0 = code@;
        push_stubbed_line(&mut code, v.as_slice(), la, lb, la, lb);
        assert(code@ =~= p0 + stubbed_text(ls, i + 1));
        i = i + 1;
    }
    DxcJob { code, mapping: DxcMapping { line_offset: 0, stubs_line_count: stubs, shared_include: None } }
}

} // verus!

verus! {

/// What validating a shader takes.  The caller adds, in order: the missing
/// `#include` diagnostics (when `check_includes`), the property findings,
/// `diagnostics`, the `#pragma` entry-point diagnostics (when
/// `check_pragmas`), and the diagnostics of each DXC job.
#[derive(Debug, Clone)]
pub struct ValidationPlan {
    pub context: ShaderContext,
    pub dxc_path: String,
    pub workspace_root: Option<String>,
    pub check_includes: bool,
    pub property_findings: Vec<PropertyFinding>,
    pub diagnostics: Vec<Diagnostic>,
    pub check_pragmas: bool,
    pub jobs: Vec<DxcJob>,
}

/// What a `ValidationPlan` holds.
pub struct PlanModel {
    pub context: ShaderContext,
    pub dxc_path: Seq<char>,
    pub workspace_root: Option<Seq<char>>,
    pub check_includes: bool,
    pub property_findings: Seq<FindingModel>,
    pub diagnostics: Seq<DiagModel>,
    pub check_pragmas: bool,
    pub jobs: Seq<JobModel>,
}

impl View for ValidationPlan {
    type V = PlanModel;

    open spec fn view(&self) -> PlanModel {
        PlanModel {
            context: self.context,
            dxc_path: self.dxc_path@,
            workspace_root: crate::text::opt_view(self.workspace_root),
            check_includes: self.check_includes,
            property_findings: findings_view(self.property_findings@),
            diagnostics: diags_view(self.diagnostics@),
            check_pragmas: self.check_pragmas,
            jobs: jobs_view(self.jobs@),
        }
    }
}

/// The plan for validating `content` at `uri`: ShaderLab gets its
/// property, tag and render-state checks and one DXC job per program
/// block; Unity HLSL and Unreal sources compile whole after a preamble;
/// plain HLSL compiles as it is.  Only Unity sources get the `#include` and
/// `#pragma` checks.
pub open spec fn validation_plan(uri: Seq<char>, content: Seq<char>, dxc_path: Seq<char>, ws: Option<Seq<char>>) -> PlanModel {
    let ctx = shader_context_of(uri, content);
    let shaderlab = ctx == ShaderContext::UnityShaderLab;
    let unity = shaderlab || ctx == ShaderContext::UnityHlsl;
    PlanModel {
        context: ctx,
        dxc_path,
        workspace_root: ws,
        check_includes: unity,
        property_findings: if shaderlab {
            property_findings(content)
        } else {
            seq![]
        },
        diagnostics: if shaderlab {
            tag_diags(content) + render_state_diags(content)
        } else {
            seq![]
        },
        check_pragmas: unity,
        jobs: dxc_jobs(ctx, content),
    }
}

/// Plans the validation of the document `content` at `uri`.
pub fn validate_shader(uri: &str, content: &str, dxc_path: &str, workspace_root: Option<&str>) -> (r: ValidationPlan)
    requires
        blen(content@) <= isize::MAX,
    ensures
        r@ == validation_plan(uri@, content@, dxc_path@, crate::functions::opt_str_view(workspace_root)),
{
    let ctx = detect_shader_context(uri, content);
    let shaderlab = match ctx {
        ShaderContext::UnityShaderLab => true,
        _ => false,
    };
    let unity = match ctx {
        ShaderContext::UnityShaderLab | ShaderContext::UnityHlsl => true,
        _ => false,
    };
    let mut findings: Vec<PropertyFinding> = Vec::new();
    let mut diagnostics: Vec<Diagnostic> = Vec::new();
    let mut jobs: Vec<DxcJob> = Vec::new();
    match ctx {
        ShaderContext::UnityShaderLab => {
            findings = validate_shaderlab_properties_and_cbuffer(content);
            diagnostics = validate_shaderlab_tags(content);
            let mut states = validate_shaderlab_render_states(content);
            let ghost d0 = diags_view(diagnostics@);
            let ghost s0 = diags_view(states@);
            diagnostics.append(&mut states);
            assert(diags_view(diagnostics@) =~= d0 + s0);
            let (v, ranges) = lines_of(content);
            let (start, count, shared) = shared_scan_exec(v.as_slice(), &ranges);
            let pre = prepared_preamble_exec(UNITY_COMPAT_PREAMBLE);
            jobs = block_scan_exec(v.as_slice(), &ranges, &pre, start, count, &shared);
        },
        ShaderContext::UnityHlsl => {
            let pre = prepared_preamble_exec(UNITY_COMPAT_PREAMBLE);
            let job = whole_text_job_exec(content, pre);
            jobs.push(job);
        },
        ShaderContext::UnrealEngine => {
            let c = to_chars(content);
            assert(c@.subrange(0, c@.len() as int) =~= c@);
            let material = crate::strops::contains_str(c.as_slice(), 0, c.len(), "FMaterialPixelParameters");
            let pre = if material {
                prepared_preamble_exec(UNREAL_MATERIAL_PREAMBLE)
            } else {
                prepared_preamble_exec(UNREAL_COMPAT_PREAMBLE)
            };
            let job = whole_text_job_exec(content, pre);
            jobs.push(job);
        },
        ShaderContext::PureHlsl => {
            jobs.push(
                DxcJob {
                    code: crate::text::str_string(content),
                    mapping: DxcMapping { line_offset: 0, stubs_line_count: 0, shared_include: None },
                },
            );
        },
    }
    let r = ValidationPlan {
        context: ctx,
        dxc_path: crate::text::str_string(dxc_path),
        workspace_root: crate::text::opt_string(workspace_root),
        check_includes: unity,
        property_findings: findings,
        diagnostics,
        check_pragmas: unity,
        jobs,
    };
    proof {
        let ls = lines(content@);
        if ctx == ShaderContext::UnityShaderLab {
            let sh = shared_scan(ls, ls.len() as int);
            assert(block_scan(ls, ls.len() as int, prepared_preamble(UNITY_COMPAT_PREAMBLE@), sh) == block_scan(
                ls,
                ls.len() as int,
                prepared_preamble(UNITY_COMPAT_PREAMBLE@),
                (false, sh.1, sh.2, sh.3),
            )) by {
                lemma_block_scan_shared_flag(ls, ls.len() as int, prepared_preamble(UNITY_COMPAT_PREAMBLE@), sh, false);
            }
        }
        assert(r@.jobs =~= dxc_jobs(ctx, content@));
        assert(r@.property_findings =~= validation_plan(uri@, content@, dxc_path@, crate::functions::opt_str_view(workspace_root)).property_findings);
        assert(r@.diagnostics =~= validation_plan(uri@, content@, dxc_path@, crate::functions::opt_str_view(workspace_root)).diagnostics);
    }
    r
}

/// The block scan does not read whether a shared block was left open.
proof fn lemma_block_scan_shared_flag(ls: Seq<Seq<char>>, n: int, pre: Seq<char>, sh: (bool, int, int, Seq<char>), b: bool)
    ensures
        block_scan(ls, n, pre, sh) == block_scan(ls, n, pre, (b, sh.1, sh.2, sh.3)),
    decreases n,
{
    if n > 0 {
        lemma_block_scan_shared_flag(ls, n - 1, pre, sh, b);
    }
}

/// A document to validate, as the server queues it.
pub struct ValidationTask {
    pub uri: String,
    pub content: String,
}

/// The name of the DXC release directory for a Rust target architecture:
/// `arm64` for `aarch64`, `x86` for `x86`, else `x64`.
pub fn dxc_arch(target_arch: &str) -> (r: &'static str)
    ensures
        r@ == (if target_arch@ == "aarch64"@ {
            "arm64"@
        } else if target_arch@ == "x86"@ {
            "x86"@
        } else {
            "x64"@
        }),
{
    let a = crate::text::to_chars(target_arch);
    proof {
        assert(a@.subrange(0, a@.len() as int) =~= a@);
    }
    if crate::strops::eq_str(a.as_slice(), 0, a.len(), "aarch64") {
        "arm64"
    } else if crate::strops::eq_str(a.as_slice(), 0, a.len(), "x86") {
        "x86"
    } else {
        "x64"
    }
}

} // verus!
