use vstd::prelude::*;

use crate::blend::{spec_blend_state, WGPUBlend};
use crate::pipeline::{
    ColorWrite, Face, IndexFormat, LayoutKind, PrimitiveTopology, ShaderEntry, VertexLayout,
};
use crate::pipeline_cache::pipeline_spec;
use crate::plan::PipelineKind;
use crate::states::{CompareFunction, StencilFaceState, StencilOperation, StencilState, TextureFormat};

verus! {

/// The pipelines that draw the triangles of an index list or a vertex list: the fans of a
/// convex fill, the fans of a concave fill, and free triangles. Every other pipeline draws
/// triangle strips.
pub open spec fn draws_lists(kind: PipelineKind) -> bool {
    kind == PipelineKind::ConvexFillBuffer || kind == PipelineKind::ConcaveFillVerts
        || kind == PipelineKind::Triangles
}

/// The pipelines that only write the stencil.
pub open spec fn stencil_only(kind: PipelineKind) -> bool {
    kind == PipelineKind::ConcaveFillVerts || kind == PipelineKind::StencilStrokeClearStencil
}

/// The stencil state of a pipeline.
pub open spec fn stencil_of(kind: PipelineKind, blend: WGPUBlend, format: TextureFormat, vertex: VertexLayout) -> StencilState {
    pipeline_spec(kind, blend, format, vertex).depth_stencil.unwrap().stencil
}

/// A face that tests with `compare` and does `op` whatever the outcome.
pub open spec fn face_all(f: StencilFaceState, compare: CompareFunction, op: StencilOperation) -> bool {
    f.compare == compare && f.fail_op == op && f.depth_fail_op == op && f.pass_op == op
}

/// Law: strips are drawn as strips and lists as lists. Every pipeline that draws vertex
/// strips (the stroke strips of a convex fill, the fringes and covers of a concave fill,
/// strokes, and the three passes of a stencil stroke) has the triangle-strip topology with
/// 32-bit strip indices; exactly the pipelines of index fans and free triangles use
/// triangle lists, with no strip index format. Back faces are culled everywhere but in
/// the two-sided stencil fill and the clear rect, which culls nothing.
pub proof fn lemma_pipeline_primitives(kind: PipelineKind, blend: WGPUBlend, format: TextureFormat, vertex: VertexLayout)
    ensures
        (pipeline_spec(kind, blend, format, vertex).primitive.topology == PrimitiveTopology::TriangleList)
            == draws_lists(kind),
        !draws_lists(kind) ==> pipeline_spec(kind, blend, format, vertex).primitive.topology
            == PrimitiveTopology::TriangleStrip,
        !draws_lists(kind) && kind != PipelineKind::ClearRect ==> pipeline_spec(kind, blend, format, vertex).primitive.strip_index_format
            == Some(IndexFormat::Uint32),
        draws_lists(kind) ==> pipeline_spec(kind, blend, format, vertex).primitive.strip_index_format is None,
        (pipeline_spec(kind, blend, format, vertex).primitive.cull_mode == Some(Face::Back))
            == (kind != PipelineKind::ConcaveFillVerts && kind != PipelineKind::ClearRect),
        kind == PipelineKind::ConcaveFillVerts || kind == PipelineKind::ClearRect
            ==> pipeline_spec(kind, blend, format, vertex).primitive.cull_mode is None,
        kind == PipelineKind::ClearRect ==> pipeline_spec(kind, blend, format, vertex).primitive.strip_index_format is None,
{
}

/// Law: what every pipeline draws into and with. Each one targets the pass's format; the
/// paint pipelines take the vertex buffer, blend with the command's blend state and run
/// the antialiasing fragment shader; the two stencil-only pipelines write no color and
/// run the pass-through shader; only the clear rect has its own layout, no vertex buffer
/// and no blending. Every pipeline has the depth-stencil format, writes no depth, and
/// always passes the depth test.
pub proof fn lemma_pipeline_targets(kind: PipelineKind, blend: WGPUBlend, format: TextureFormat, vertex: VertexLayout)
    ensures
        pipeline_spec(kind, blend, format, vertex).target.format == format,
        pipeline_spec(kind, blend, format, vertex).depth_stencil is Some,
        pipeline_spec(kind, blend, format, vertex).depth_stencil.unwrap().format == TextureFormat::Depth24PlusStencil8,
        !pipeline_spec(kind, blend, format, vertex).depth_stencil.unwrap().depth_write_enabled,
        pipeline_spec(kind, blend, format, vertex).depth_stencil.unwrap().depth_compare == CompareFunction::Always,
        kind != PipelineKind::ClearRect ==> {
            &&& pipeline_spec(kind, blend, format, vertex).layout == LayoutKind::Paint
            &&& pipeline_spec(kind, blend, format, vertex).vertex_buffer == Some(vertex)
            &&& pipeline_spec(kind, blend, format, vertex).vertex_entry == ShaderEntry::VertexShader
            &&& pipeline_spec(kind, blend, format, vertex).target.blend == Some(spec_blend_state(blend))
        },
        kind != PipelineKind::ClearRect && !stencil_only(kind) ==> {
            &&& pipeline_spec(kind, blend, format, vertex).fragment_entry == ShaderEntry::FragmentShaderAa
            &&& pipeline_spec(kind, blend, format, vertex).target.write_mask == ColorWrite::All
            &&& pipeline_spec(kind, blend, format, vertex).label_blend == Some(blend)
        },
        stencil_only(kind) ==> {
            &&& pipeline_spec(kind, blend, format, vertex).fragment_entry == ShaderEntry::Passthrough
            &&& pipeline_spec(kind, blend, format, vertex).target.write_mask == ColorWrite::Empty
            &&& pipeline_spec(kind, blend, format, vertex).label_blend is None
        },
        kind == PipelineKind::ClearRect ==> {
            &&& pipeline_spec(kind, blend, format, vertex).layout == LayoutKind::ClearRect
            &&& pipeline_spec(kind, blend, format, vertex).vertex_buffer is None
            &&& pipeline_spec(kind, blend, format, vertex).vertex_entry == ShaderEntry::VertexClearRect
            &&& pipeline_spec(kind, blend, format, vertex).fragment_entry == ShaderEntry::FragmentClearRect
            &&& pipeline_spec(kind, blend, format, vertex).target.blend is None
            &&& pipeline_spec(kind, blend, format, vertex).target.write_mask == ColorWrite::All
            &&& pipeline_spec(kind, blend, format, vertex).label_blend is None
        },
{
}

/// Law: a concave fill is drawn by the rule it was given. Its fans count each pixel's
/// winding into the stencil (front faces up, back faces down, wrapping, on both faces).
/// The non-zero fringe and cover pipelines read all eight stencil bits, so any non-zero
/// winding counts as inside; the even-odd ones read only the low bit, so only odd winding
/// does; the two rules' pipelines are otherwise the same. Fringes are drawn where the
/// stencil equals the reference and keep it; covers are drawn where it differs and reset
/// it to zero, on front faces; back faces ignore the stencil.
pub proof fn lemma_fill_rule_pipelines(blend: WGPUBlend, format: TextureFormat, vertex: VertexLayout)
    ensures
        stencil_of(PipelineKind::ConcaveFillVerts, blend, format, vertex).front.fail_op == StencilOperation::Keep,
        stencil_of(PipelineKind::ConcaveFillVerts, blend, format, vertex).back.fail_op == StencilOperation::Keep,
        stencil_of(PipelineKind::ConcaveFillVerts, blend, format, vertex).read_mask == 0xff,
        stencil_of(PipelineKind::ConcaveFillVerts, blend, format, vertex).front.compare == CompareFunction::Always,
        stencil_of(PipelineKind::ConcaveFillVerts, blend, format, vertex).front.pass_op == StencilOperation::IncrementWrap,
        stencil_of(PipelineKind::ConcaveFillVerts, blend, format, vertex).back.compare == CompareFunction::Always,
        stencil_of(PipelineKind::ConcaveFillVerts, blend, format, vertex).back.pass_op == StencilOperation::DecrementWrap,
        stencil_of(PipelineKind::ConcaveFillVerts, blend, format, vertex).write_mask == 0xff,
        stencil_of(PipelineKind::ConcaveFringesNonZero, blend, format, vertex).read_mask == 0xff,
        stencil_of(PipelineKind::ConcaveFillsNonZero, blend, format, vertex).read_mask == 0xff,
        stencil_of(PipelineKind::ConcaveFringesEvenOdd, blend, format, vertex).read_mask == 0x1,
        stencil_of(PipelineKind::ConcaveFillsEvenOdd, blend, format, vertex).read_mask == 0x1,
        stencil_of(PipelineKind::ConcaveFringesEvenOdd, blend, format, vertex)
            == (StencilState { read_mask: 0x1, ..stencil_of(PipelineKind::ConcaveFringesNonZero, blend, format, vertex) }),
        stencil_of(PipelineKind::ConcaveFillsEvenOdd, blend, format, vertex)
            == (StencilState { read_mask: 0x1, ..stencil_of(PipelineKind::ConcaveFillsNonZero, blend, format, vertex) }),
        face_all(stencil_of(PipelineKind::ConcaveFringesNonZero, blend, format, vertex).front, CompareFunction::Equal, StencilOperation::Keep),
        face_all(stencil_of(PipelineKind::ConcaveFillsNonZero, blend, format, vertex).front, CompareFunction::NotEqual, StencilOperation::Zero),
        face_all(stencil_of(PipelineKind::ConcaveFringesNonZero, blend, format, vertex).back, CompareFunction::Always, StencilOperation::Keep),
        face_all(stencil_of(PipelineKind::ConcaveFillsNonZero, blend, format, vertex).back, CompareFunction::Always, StencilOperation::Keep),
        stencil_of(PipelineKind::ConcaveFringesNonZero, blend, format, vertex).write_mask == 0xff,
        stencil_of(PipelineKind::ConcaveFillsNonZero, blend, format, vertex).write_mask == 0xff,
{
}

/// Law: a stencil stroke draws each pixel once. Its base is drawn where the stencil equals
/// the reference and then raises it (clamped), its antialiased pixels are drawn where the
/// stencil still equals the reference, keeping it, and its last pass resets every
/// touched pixel's stencil to zero without drawing color. The pipelines that use no
/// stencil (convex fills, strokes, triangles) neither test nor write it: both faces
/// always pass and keep, and both masks are zero.
pub proof fn lemma_stroke_and_plain_pipelines(kind: PipelineKind, blend: WGPUBlend, format: TextureFormat, vertex: VertexLayout)
    ensures
        stencil_of(PipelineKind::StencilStrokeBase, blend, format, vertex).front.compare == CompareFunction::Equal,
        stencil_of(PipelineKind::StencilStrokeBase, blend, format, vertex).front.pass_op == StencilOperation::IncrementClamp,
        stencil_of(PipelineKind::StencilStrokeBase, blend, format, vertex).front.fail_op == StencilOperation::Keep,
        face_all(stencil_of(PipelineKind::StencilStrokeAaPixels, blend, format, vertex).front, CompareFunction::Equal, StencilOperation::Keep),
        face_all(stencil_of(PipelineKind::StencilStrokeClearStencil, blend, format, vertex).front, CompareFunction::Always, StencilOperation::Zero),
        kind == PipelineKind::StencilStrokeBase || kind == PipelineKind::StencilStrokeAaPixels
            || kind == PipelineKind::StencilStrokeClearStencil ==> {
            &&& stencil_of(kind, blend, format, vertex).read_mask == 0xff
            &&& stencil_of(kind, blend, format, vertex).write_mask == 0xff
            &&& face_all(stencil_of(kind, blend, format, vertex).back, CompareFunction::Always, StencilOperation::Keep)
        },
        kind == PipelineKind::ConvexFillBuffer || kind == PipelineKind::ConvexStrokeBuffer
            || kind == PipelineKind::Stroke || kind == PipelineKind::Triangles
            || kind == PipelineKind::ClearRect ==> {
            &&& stencil_of(kind, blend, format, vertex).read_mask == 0
            &&& stencil_of(kind, blend, format, vertex).write_mask == 0
            &&& face_all(stencil_of(kind, blend, format, vertex).front, CompareFunction::Always, StencilOperation::Keep)
            &&& face_all(stencil_of(kind, blend, format, vertex).back, CompareFunction::Always, StencilOperation::Keep)
        },
{
}

} // verus!
