use vstd::prelude::*;

use crate::blend::{BlendState, WGPUBlend, spec_blend_state};
use crate::states::{
    DepthStencilState, TextureFormat, default_stencil_state, fill_anti_alias_stencil_state_evenodd,
    fill_anti_alias_stencil_state_nonzero, fill_shape_stencil_state, fill_stencil_state_evenodd,
    fill_stencil_state_nonzero, stroke_anti_alias_stencil_state, stroke_clear_stencil_state,
    stroke_shape_stencil_state,
};

verus! {

/// How vertices are assembled into primitives.
#[derive(Clone, Copy, Debug, PartialEq, Eq, Structural, Hash)]
pub enum PrimitiveTopology {
    PointList,
    LineList,
    LineStrip,
    TriangleList,
    TriangleStrip,
}

/// The type of the indices of an index buffer.
#[derive(Clone, Copy, Debug, PartialEq, Eq, Structural, Hash)]
pub enum IndexFormat {
    Uint16,
    Uint32,
}

/// Which face of a triangle to cull.
#[derive(Clone, Copy, Debug, PartialEq, Eq, Structural, Hash)]
pub enum Face {
    Front,
    Back,
}

/// Which color channels a pipeline writes.
#[derive(Clone, Copy, Debug, PartialEq, Eq, Structural, Hash)]
pub enum ColorWrite {
    All,
    Empty,
}

/// The shader entry points of the renderer's shader module.
#[derive(Clone, Copy, Debug, PartialEq, Eq, Structural, Hash)]
pub enum ShaderEntry {
    VertexShader,
    FragmentShaderAa,
    Passthrough,
    VertexClearRect,
    FragmentClearRect,
}

impl ShaderEntry {
    /// The entry point's name in the shader source.
    pub fn name(&self) -> (r: &'static str)
        ensures
            r@ == match *self {
                ShaderEntry::VertexShader => "vertex_shader"@,
                ShaderEntry::FragmentShaderAa => "fragment_shader_aa"@,
                ShaderEntry::Passthrough => "passthrough"@,
                ShaderEntry::VertexClearRect => "vertex_clear_rect"@,
                ShaderEntry::FragmentClearRect => "fragment_clear_rect"@,
            },
    {
        match self {
            ShaderEntry::VertexShader => "vertex_shader",
            ShaderEntry::FragmentShaderAa => "fragment_shader_aa",
            ShaderEntry::Passthrough => "passthrough",
            ShaderEntry::VertexClearRect => "vertex_clear_rect",
            ShaderEntry::FragmentClearRect => "fragment_clear_rect",
        }
    }
}

/// Which pipeline layout a pipeline uses.
#[derive(Clone, Copy, Debug, PartialEq, Eq, Structural, Hash)]
pub enum LayoutKind {
    /// The layout of the paint pipelines: the uniform, image and alpha bind group, and the
    /// view size as a vertex push constant.
    Paint,
    /// The layout of the clear-rect pipeline.
    ClearRect,
}

/// The layout of the vertex buffer: one `Float32x4` attribute at offset 0, location 0,
/// stepping per vertex, `stride` bytes per vertex.
#[derive(Clone, Copy, Debug, PartialEq, Eq, Structural, Hash)]
pub struct VertexLayout {
    pub stride: u64,
}

/// The vertex buffer layout of the paint pipelines, for vertices of `vertex_size` bytes.
pub fn vertex_desc(vertex_size: u64) -> (r: VertexLayout)
    ensures
        r.stride == vertex_size,
{
    VertexLayout { stride: vertex_size }
}

/// The color target of a pipeline.
#[derive(Clone, Copy, Debug, PartialEq, Eq, Structural, Hash)]
pub struct ColorTarget {
    pub format: TextureFormat,
    pub blend: Option<BlendState>,
    pub write_mask: ColorWrite,
}

/// The primitive state of a pipeline; the front face is counter-clockwise and the other
/// settings are the defaults.
#[derive(Clone, Copy, Debug, PartialEq, Eq, Structural, Hash)]
pub struct PrimitiveSpec {
    pub topology: PrimitiveTopology,
    pub strip_index_format: Option<IndexFormat>,
    pub cull_mode: Option<Face>,
}

/// Everything a render pipeline is made from, besides the device and shader module.
#[derive(Clone, Copy, Debug)]
pub struct RenderPipelineSpec {
    /// The pipeline's name.
    pub label: &'static str,
    /// When set, the pipeline's label is the debug form of `Some(label)` and of these
    /// blend factors, separated by a space; otherwise it is `label` itself.
    pub label_blend: Option<WGPUBlend>,
    pub layout: LayoutKind,
    pub vertex_entry: ShaderEntry,
    /// The vertex buffer layout, or `None` for a pipeline without vertex buffers.
    pub vertex_buffer: Option<VertexLayout>,
    pub fragment_entry: ShaderEntry,
    pub target: ColorTarget,
    pub primitive: PrimitiveSpec,
    pub depth_stencil: Option<DepthStencilState>,
}

/// A paint pipeline: the anti-aliasing fragment shader writing every channel.
pub open spec fn spec_pipeline(
    label: &'static str,
    vertex: VertexLayout,
    format: TextureFormat,
    blend_func: WGPUBlend,
    topology: PrimitiveTopology,
    strip_index_format: Option<IndexFormat>,
    cull_mode: Option<Face>,
    depth_stencil: DepthStencilState,
) -> RenderPipelineSpec {
    RenderPipelineSpec {
        label,
        label_blend: Some(blend_func),
        layout: LayoutKind::Paint,
        vertex_entry: ShaderEntry::VertexShader,
        vertex_buffer: Some(vertex),
        fragment_entry: ShaderEntry::FragmentShaderAa,
        target: ColorTarget {
            format,
            blend: Some(spec_blend_state(blend_func)),
            write_mask: ColorWrite::All,
        },
        primitive: PrimitiveSpec { topology, strip_index_format, cull_mode },
        depth_stencil: Some(depth_stencil),
    }
}

/// A stencil-only pipeline: like a paint pipeline but with the pass-through fragment
/// shader, writing no color channel, and labelled by its name alone.
pub open spec fn spec_stencil_only_pipeline(
    label: &'static str,
    vertex: VertexLayout,
    format: TextureFormat,
    blend_func: WGPUBlend,
    topology: PrimitiveTopology,
    strip_index_format: Option<IndexFormat>,
    cull_mode: Option<Face>,
    depth_stencil: DepthStencilState,
) -> RenderPipelineSpec {
    RenderPipelineSpec {
        label,
        label_blend: None,
        layout: LayoutKind::Paint,
        vertex_entry: ShaderEntry::VertexShader,
        vertex_buffer: Some(vertex),
        fragment_entry: ShaderEntry::Passthrough,
        target: ColorTarget {
            format,
            blend: Some(spec_blend_state(blend_func)),
            write_mask: ColorWrite::Empty,
        },
        primitive: PrimitiveSpec { topology, strip_index_format, cull_mode },
        depth_stencil: Some(depth_stencil),
    }
}

/// The clear-rect pipeline: no vertex buffer, no blending, a triangle strip, and no
/// stencil test.
pub open spec fn spec_clear_rect_pipeline(
    format: TextureFormat,
    stencil_format: TextureFormat,
) -> RenderPipelineSpec {
    RenderPipelineSpec {
        label: "clear_rect",
        label_blend: None,
        layout: LayoutKind::ClearRect,
        vertex_entry: ShaderEntry::VertexClearRect,
        vertex_buffer: None,
        fragment_entry: ShaderEntry::FragmentClearRect,
        target: ColorTarget { format, blend: None, write_mask: ColorWrite::All },
        primitive: PrimitiveSpec {
            topology: PrimitiveTopology::TriangleStrip,
            strip_index_format: None,
            cull_mode: None,
        },
        depth_stencil: Some(crate::states::depth_stencil(
            stencil_format,
            crate::states::ignore_face(),
            crate::states::ignore_face(),
            0,
            0,
        )),
    }
}

/// Describes a paint pipeline.
pub fn create_pipeline(
    label: &'static str,
    vertex: VertexLayout,
    format: TextureFormat,
    blend_func: WGPUBlend,
    topology: PrimitiveTopology,
    strip_index_format: Option<IndexFormat>,
    cull_mode: Option<Face>,
    depth_stencil: DepthStencilState,
) -> (r: RenderPipelineSpec)
    ensures
        r == spec_pipeline(label, vertex, format, blend_func, topology, strip_index_format, cull_mode, depth_stencil),
{
    RenderPipelineSpec {
        label,
        label_blend: Some(blend_func),
        layout: LayoutKind::Paint,
        vertex_entry: ShaderEntry::VertexShader,
        vertex_buffer: Some(vertex),
        fragment_entry: ShaderEntry::FragmentShaderAa,
        target: ColorTarget {
            format,
            blend: Some(BlendState::from(blend_func)),
            write_mask: ColorWrite::All,
        },
        primitive: PrimitiveSpec { topology, strip_index_format, cull_mode },
        depth_stencil: Some(depth_stencil),
    }
}

/// Describes a stencil-only pipeline.
pub fn create_stencil_only_pipeline(
    label: &'static str,
    vertex: VertexLayout,
    format: TextureFormat,
    blend_func: WGPUBlend,
    topology: PrimitiveTopology,
    strip_index_format: Option<IndexFormat>,
    cull_mode: Option<Face>,
    depth_stencil: DepthStencilState,
) -> (r: RenderPipelineSpec)
    ensures
        r == spec_stencil_only_pipeline(label, vertex, format, blend_func, topology, strip_index_format, cull_mode, depth_stencil),
{
    RenderPipelineSpec {
        label,
        label_blend: None,
        layout: LayoutKind::Paint,
        vertex_entry: ShaderEntry::VertexShader,
        vertex_buffer: Some(vertex),
        fragment_entry: ShaderEntry::Passthrough,
        target: ColorTarget {
            format,
            blend: Some(BlendState::from(blend_func)),
            write_mask: ColorWrite::Empty,
        },
        primitive: PrimitiveSpec { topology, strip_index_format, cull_mode },
        depth_stencil: Some(depth_stencil),
    }
}

/// Describes the clear-rect pipeline.
pub fn create_clear_rect_pipeline(format: TextureFormat, stencil_format: TextureFormat) -> (r: RenderPipelineSpec)
    ensures
        r == spec_clear_rect_pipeline(format, stencil_format),
{
    RenderPipelineSpec {
        label: "clear_rect",
        label_blend: None,
        layout: LayoutKind::ClearRect,
        vertex_entry: ShaderEntry::VertexClearRect,
        vertex_buffer: None,
        fragment_entry: ShaderEntry::FragmentClearRect,
        target: ColorTarget { format, blend: None, write_mask: ColorWrite::All },
        primitive: PrimitiveSpec {
            topology: PrimitiveTopology::TriangleStrip,
            strip_index_format: None,
            cull_mode: None,
        },
        depth_stencil: Some(default_stencil_state(stencil_format)),
    }
}

} // verus!
