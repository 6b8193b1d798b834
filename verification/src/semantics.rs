//! The system-value and vertex-attribute semantics that hover and completion
//! document.
use vstd::prelude::*;
use crate::strops::eq_str;
use crate::text::to_chars;

verus! {

/// Each documented semantic and its description, in lookup order.
#[verifier::opaque]
pub open spec fn semantic_table() -> Seq<(Seq<char>, Seq<char>)> {
    seq![
        ("SV_Target"@, "System-Value: Render target output 0 color (`float4`)."@),
        ("SV_Target0"@, "System-Value: Render target output 0 color (`float4`)."@),
        ("SV_Target1"@, "System-Value: Render target output 1 color (`float4`)."@),
        ("SV_Target2"@, "System-Value: Render target output 2 color (`float4`)."@),
        ("SV_Target3"@, "System-Value: Render target output 3 color (`float4`)."@),
        ("SV_Target4"@, "System-Value: Render target output 4 color (`float4`)."@),
        ("SV_Target5"@, "System-Value: Render target output 5 color (`float4`)."@),
        ("SV_Target6"@, "System-Value: Render target output 6 color (`float4`)."@),
        ("SV_Target7"@, "System-Value: Render target output 7 color (`float4`)."@),
        ("SV_Depth"@, "System-Value: Output pixel depth (`float`)."@),
        ("SV_DepthGreaterEqual"@, "System-Value: Output depth must be >= rasterized depth (`float`)."@),
        ("SV_DepthLessEqual"@, "System-Value: Output depth must be <= rasterized depth (`float`)."@),
        ("SV_Coverage"@, "System-Value: Input/output MSAA sample coverage mask (`uint`)."@),
        ("SV_InnerCoverage"@, "System-Value: MSAA inner-conservative coverage mask (`uint`)."@),
        ("SV_IsFrontFace"@, "System-Value: Specifies whether primitive is front-facing (`bool`)."@),
        ("SV_SampleIndex"@, "System-Value: MSAA sample index (`uint`)."@),
        ("SV_ShadingRate"@, "System-Value: Variable Rate Shading (VRS) mask (`uint`)."@),
        ("SV_Barycentrics"@, "System-Value: Pixel barycentric coordinates (`float3`)."@),
        ("SV_RenderTargetArrayIndex"@, "System-Value: Target slice in a render-target array (`uint`)."@),
        ("SV_ViewportArrayIndex"@, "System-Value: Viewport index for geometry rendering (`uint`)."@),
        ("SV_Position"@, "System-Value: Homogeneous clip-space vertex position (`float4`)."@),
        ("SV_VertexID"@, "System-Value: Per-vertex identifier generated by GPU (`uint`)."@),
        ("SV_InstanceID"@, "System-Value: Per-instance identifier generated by GPU (`uint`)."@),
        ("SV_PrimitiveID"@, "System-Value: Primitive index in geometry/pixel shader (`uint`)."@),
        ("SV_GSInstanceID"@, "System-Value: Geometry shader instance identifier (`uint`)."@),
        ("SV_ClipDistance"@, "System-Value: Hardware user clipping distance plane (`float`)."@),
        ("SV_ClipDistance0"@, "System-Value: Hardware user clipping distance plane 0 (`float`)."@),
        ("SV_ClipDistance1"@, "System-Value: Hardware user clipping distance plane 1 (`float`)."@),
        ("SV_ClipDistance2"@, "System-Value: Hardware user clipping distance plane 2 (`float`)."@),
        ("SV_ClipDistance3"@, "System-Value: Hardware user clipping distance plane 3 (`float`)."@),
        ("SV_CullDistance"@, "System-Value: Hardware user culling distance plane (`float`)."@),
        ("SV_CullDistance0"@, "System-Value: Hardware user culling distance plane 0 (`float`)."@),
        ("SV_CullDistance1"@, "System-Value: Hardware user culling distance plane 1 (`float`)."@),
        ("SV_CullDistance2"@, "System-Value: Hardware user culling distance plane 2 (`float`)."@),
        ("SV_CullDistance3"@, "System-Value: Hardware user culling distance plane 3 (`float`)."@),
        ("SV_DispatchThreadID"@, "System-Value: Global compute thread index across all groups (`uint3`)."@),
        ("SV_GroupID"@, "System-Value: Compute thread group index (`uint3`)."@),
        ("SV_GroupIndex"@, "System-Value: Flattened 1D thread index within current group (`uint`)."@),
        ("SV_GroupThreadID"@, "System-Value: 3D thread index within current compute group (`uint3`)."@),
        ("SV_DispatchGrid"@, "System-Value: Amplification shader dispatch grid dimension (`uint3`)."@),
        ("SV_TessFactor"@, "System-Value: Patch edge tessellation factors (`float[2]`, `float[3]`, or `float[4]`)."@),
        ("SV_InsideTessFactor"@, "System-Value: Patch interior tessellation factors (`float` or `float[2]`)."@),
        ("SV_DomainLocation"@, "System-Value: Barycentric/domain coordinates for domain shader (`float2` or `float3`)."@),
        ("SV_OutputControlPointID"@, "System-Value: Control point index processed by hull shader (`uint`)."@),
        ("POSITION"@, "Vertex attribute semantic: Object-space vertex position."@),
        ("POSITION0"@, "Vertex attribute semantic: Object-space vertex position 0."@),
        ("POSITION1"@, "Vertex attribute semantic: Object-space vertex position 1."@),
        ("NORMAL"@, "Vertex attribute semantic: Surface normal vector."@),
        ("NORMAL0"@, "Vertex attribute semantic: Surface normal vector 0."@),
        ("NORMAL1"@, "Vertex attribute semantic: Surface normal vector 1."@),
        ("TANGENT"@, "Vertex attribute semantic: Surface tangent vector."@),
        ("TANGENT0"@, "Vertex attribute semantic: Surface tangent vector 0."@),
        ("TANGENT1"@, "Vertex attribute semantic: Surface tangent vector 1."@),
        ("BINORMAL"@, "Vertex attribute semantic: Surface binormal/bitangent vector."@),
        ("BINORMAL0"@, "Vertex attribute semantic: Surface binormal/bitangent vector 0."@),
        ("BINORMAL1"@, "Vertex attribute semantic: Surface binormal/bitangent vector 1."@),
        ("TEXCOORD0"@, "Vertex attribute / interpolator semantic: UV coordinate channel 0."@),
        ("TEXCOORD1"@, "Vertex attribute / interpolator semantic: UV coordinate channel 1."@),
        ("TEXCOORD2"@, "Vertex attribute / interpolator semantic: UV coordinate channel 2."@),
        ("TEXCOORD3"@, "Vertex attribute / interpolator semantic: UV coordinate channel 3."@),
        ("TEXCOORD4"@, "Vertex attribute / interpolator semantic: UV coordinate channel 4."@),
        ("TEXCOORD5"@, "Vertex attribute / interpolator semantic: UV coordinate channel 5."@),
        ("TEXCOORD6"@, "Vertex attribute / interpolator semantic: UV coordinate channel 6."@),
        ("TEXCOORD7"@, "Vertex attribute / interpolator semantic: UV coordinate channel 7."@),
        ("COLOR"@, "Vertex attribute / interpolator semantic: Primary color."@),
        ("COLOR0"@, "Vertex attribute / interpolator semantic: Per-vertex primary color channel 0."@),
        ("COLOR1"@, "Vertex attribute / interpolator semantic: Per-vertex secondary color channel 1."@),
        ("BLENDWEIGHT"@, "Vertex attribute semantic: Bone blend weight."@),
        ("BLENDWEIGHT0"@, "Vertex attribute semantic: Bone blend weight 0."@),
        ("BLENDWEIGHT1"@, "Vertex attribute semantic: Bone blend weight 1."@),
        ("BLENDINDICES"@, "Vertex attribute semantic: Bone blend indices."@),
        ("BLENDINDICES0"@, "Vertex attribute semantic: Bone blend indices 0."@),
        ("BLENDINDICES1"@, "Vertex attribute semantic: Bone blend indices 1."@),
        ("PSIZE"@, "Vertex attribute semantic: Point size for point sprites."@),
    ]
}

/// The views of the semantic table.
pub open spec fn pairs_view(v: Seq<(&str, &str)>) -> Seq<(Seq<char>, Seq<char>)> {
    v.map_values(|p: (&str, &str)| (p.0@, p.1@))
}

/// The documented semantics with their descriptions.
pub fn semantics() -> (r: Vec<(&'static str, &'static str)>)
    ensures
        pairs_view(r@) == semantic_table(),
{
    let r = vec![
        ("SV_Target", "System-Value: Render target output 0 color (`float4`)."),
        ("SV_Target0", "System-Value: Render target output 0 color (`float4`)."),
        ("SV_Target1", "System-Value: Render target output 1 color (`float4`)."),
        ("SV_Target2", "System-Value: Render target output 2 color (`float4`)."),
        ("SV_Target3", "System-Value: Render target output 3 color (`float4`)."),
        ("SV_Target4", "System-Value: Render target output 4 color (`float4`)."),
        ("SV_Target5", "System-Value: Render target output 5 color (`float4`)."),
        ("SV_Target6", "System-Value: Render target output 6 color (`float4`)."),
        ("SV_Target7", "System-Value: Render target output 7 color (`float4`)."),
        ("SV_Depth", "System-Value: Output pixel depth (`float`)."),
        ("SV_DepthGreaterEqual", "System-Value: Output depth must be >= rasterized depth (`float`)."),
        ("SV_DepthLessEqual", "System-Value: Output depth must be <= rasterized depth (`float`)."),
        ("SV_Coverage", "System-Value: Input/output MSAA sample coverage mask (`uint`)."),
        ("SV_InnerCoverage", "System-Value: MSAA inner-conservative coverage mask (`uint`)."),
        ("SV_IsFrontFace", "System-Value: Specifies whether primitive is front-facing (`bool`)."),
        ("SV_SampleIndex", "System-Value: MSAA sample index (`uint`)."),
        ("SV_ShadingRate", "System-Value: Variable Rate Shading (VRS) mask (`uint`)."),
        ("SV_Barycentrics", "System-Value: Pixel barycentric coordinates (`float3`)."),
        ("SV_RenderTargetArrayIndex", "System-Value: Target slice in a render-target array (`uint`)."),
        ("SV_ViewportArrayIndex", "System-Value: Viewport index for geometry rendering (`uint`)."),
        ("SV_Position", "System-Value: Homogeneous clip-space vertex position (`float4`)."),
        ("SV_VertexID", "System-Value: Per-vertex identifier generated by GPU (`uint`)."),
        ("SV_InstanceID", "System-Value: Per-instance identifier generated by GPU (`uint`)."),
        ("SV_PrimitiveID", "System-Value: Primitive index in geometry/pixel shader (`uint`)."),
        ("SV_GSInstanceID", "System-Value: Geometry shader instance identifier (`uint`)."),
        ("SV_ClipDistance", "System-Value: Hardware user clipping distance plane (`float`)."),
        ("SV_ClipDistance0", "System-Value: Hardware user clipping distance plane 0 (`float`)."),
        ("SV_ClipDistance1", "System-Value: Hardware user clipping distance plane 1 (`float`)."),
        ("SV_ClipDistance2", "System-Value: Hardware user clipping distance plane 2 (`float`)."),
        ("SV_ClipDistance3", "System-Value: Hardware user clipping distance plane 3 (`float`)."),
        ("SV_CullDistance", "System-Value: Hardware user culling distance plane (`float`)."),
        ("SV_CullDistance0", "System-Value: Hardware user culling distance plane 0 (`float`)."),
        ("SV_CullDistance1", "System-Value: Hardware user culling distance plane 1 (`float`)."),
        ("SV_CullDistance2", "System-Value: Hardware user culling distance plane 2 (`float`)."),
        ("SV_CullDistance3", "System-Value: Hardware user culling distance plane 3 (`float`)."),
        ("SV_DispatchThreadID", "System-Value: Global compute thread index across all groups (`uint3`)."),
        ("SV_GroupID", "System-Value: Compute thread group index (`uint3`)."),
        ("SV_GroupIndex", "System-Value: Flattened 1D thread index within current group (`uint`)."),
        ("SV_GroupThreadID", "System-Value: 3D thread index within current compute group (`uint3`)."),
        ("SV_DispatchGrid", "System-Value: Amplification shader dispatch grid dimension (`uint3`)."),
        ("SV_TessFactor", "System-Value: Patch edge tessellation factors (`float[2]`, `float[3]`, or `float[4]`)."),
        ("SV_InsideTessFactor", "System-Value: Patch interior tessellation factors (`float` or `float[2]`)."),
        ("SV_DomainLocation", "System-Value: Barycentric/domain coordinates for domain shader (`float2` or `float3`)."),
        ("SV_OutputControlPointID", "System-Value: Control point index processed by hull shader (`uint`)."),
        ("POSITION", "Vertex attribute semantic: Object-space vertex position."),
        ("POSITION0", "Vertex attribute semantic: Object-space vertex position 0."),
        ("POSITION1", "Vertex attribute semantic: Object-space vertex position 1."),
        ("NORMAL", "Vertex attribute semantic: Surface normal vector."),
        ("NORMAL0", "Vertex attribute semantic: Surface normal vector 0."),
        ("NORMAL1", "Vertex attribute semantic: Surface normal vector 1."),
        ("TANGENT", "Vertex attribute semantic: Surface tangent vector."),
        ("TANGENT0", "Vertex attribute semantic: Surface tangent vector 0."),
        ("TANGENT1", "Vertex attribute semantic: Surface tangent vector 1."),
        ("BINORMAL", "Vertex attribute semantic: Surface binormal/bitangent vector."),
        ("BINORMAL0", "Vertex attribute semantic: Surface binormal/bitangent vector 0."),
        ("BINORMAL1", "Vertex attribute semantic: Surface binormal/bitangent vector 1."),
        ("TEXCOORD0", "Vertex attribute / interpolator semantic: UV coordinate channel 0."),
        ("TEXCOORD1", "Vertex attribute / interpolator semantic: UV coordinate channel 1."),
        ("TEXCOORD2", "Vertex attribute / interpolator semantic: UV coordinate channel 2."),
        ("TEXCOORD3", "Vertex attribute / interpolator semantic: UV coordinate channel 3."),
        ("TEXCOORD4", "Vertex attribute / interpolator semantic: UV coordinate channel 4."),
        ("TEXCOORD5", "Vertex attribute / interpolator semantic: UV coordinate channel 5."),
        ("TEXCOORD6", "Vertex attribute / interpolator semantic: UV coordinate channel 6."),
        ("TEXCOORD7", "Vertex attribute / interpolator semantic: UV coordinate channel 7."),
        ("COLOR", "Vertex attribute / interpolator semantic: Primary color."),
        ("COLOR0", "Vertex attribute / interpolator semantic: Per-vertex primary color channel 0."),
        ("COLOR1", "Vertex attribute / interpolator semantic: Per-vertex secondary color channel 1."),
        ("BLENDWEIGHT", "Vertex attribute semantic: Bone blend weight."),
        ("BLENDWEIGHT0", "Vertex attribute semantic: Bone blend weight 0."),
        ("BLENDWEIGHT1", "Vertex attribute semantic: Bone blend weight 1."),
        ("BLENDINDICES", "Vertex attribute semantic: Bone blend indices."),
        ("BLENDINDICES0", "Vertex attribute semantic: Bone blend indices 0."),
        ("BLENDINDICES1", "Vertex attribute semantic: Bone blend indices 1."),
        ("PSIZE", "Vertex attribute semantic: Point size for point sprites."),
    ];
    proof {
        reveal(semantic_table);
        assert(pairs_view(r@) =~= semantic_table());
    }
    r
}

/// The description of the first semantic named `name`, if any.
pub fn find_semantic(name: &str) -> (r: Option<&'static str>)
    ensures
        match r {
            Some(d) => exists|i: int|
                0 <= i < semantic_table().len() && semantic_table()[i] == (name@, d@) && forall|j: int|
                    0 <= j < i ==> semantic_table()[j].0 != name@,
            None => forall|i: int| 0 <= i < semantic_table().len() ==> semantic_table()[i].0 != name@,
        },
{
    let t = semantics();
    let key = to_chars(name);
    let mut i: usize = 0;
    while i < t.len()
        invariant
            pairs_view(t@) == semantic_table(),
            key@ == name@,
            i <= t@.len(),
            forall|j: int| 0 <= j < i ==> semantic_table()[j].0 != name@,
        decreases t.len() - i,
    {
        proof {
            assert(key@.subrange(0, key@.len() as int) =~= key@);
            assert(semantic_table()[i as int] == (t@[i as int].0@, t@[i as int].1@));
        }
        if eq_str(&key, 0, key.len(), t[i].0) {
            return Some(t[i].1);
        }
        i = i + 1;
    }
    None
}

} // verus!
