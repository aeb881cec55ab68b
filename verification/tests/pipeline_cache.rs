use std::cell::Cell;

use femtovg_wgpu::blend::{BlendState, GpuBlendFactor, WGPUBlend};
use femtovg_wgpu::pipeline::{
    vertex_desc, ColorWrite, Face, IndexFormat, LayoutKind, PrimitiveTopology, RenderPipelineSpec, ShaderEntry,
};
use femtovg_wgpu::pipeline_cache::{WGPUPipelineCache, WGPUPipelineStates};
use femtovg_wgpu::plan::PipelineKind;
use femtovg_wgpu::states::{
    default_stencil_state, fill_shape_stencil_state, stroke_clear_stencil_state, TextureFormat,
};

fn blend(src: GpuBlendFactor) -> WGPUBlend {
    WGPUBlend { src_rgb: src, dst_rgb: GpuBlendFactor::Zero, src_alpha: src, dst_alpha: GpuBlendFactor::Zero }
}

const ALL: [PipelineKind; 13] = [
    PipelineKind::ConvexFillBuffer,
    PipelineKind::ConvexStrokeBuffer,
    PipelineKind::ConcaveFillVerts,
    PipelineKind::ConcaveFringesNonZero,
    PipelineKind::ConcaveFringesEvenOdd,
    PipelineKind::ConcaveFillsNonZero,
    PipelineKind::ConcaveFillsEvenOdd,
    PipelineKind::Stroke,
    PipelineKind::StencilStrokeBase,
    PipelineKind::StencilStrokeAaPixels,
    PipelineKind::StencilStrokeClearStencil,
    PipelineKind::Triangles,
    PipelineKind::ClearRect,
];

#[test]
fn pipeline_states_build_thirteen_pipelines() {
    let b = blend(GpuBlendFactor::One);
    let specs = std::cell::RefCell::new(Vec::new());
    let build = |s: RenderPipelineSpec| {
        specs.borrow_mut().push(s);
        s.label
    };
    let states = WGPUPipelineStates::new(b, TextureFormat::Bgra8Unorm, vertex_desc(16), &build);
    assert_eq!(specs.borrow().len(), 13);
    assert!(states.matches(b, TextureFormat::Bgra8Unorm));
    assert!(!states.matches(b, TextureFormat::Rgba8Unorm));
    assert_eq!(*states.convex_fill().fill_buffer(), "convex_fill/fill_buffer");
    assert_eq!(*states.concave_fill().fills_evenodd(), "concave_fill/fills_evenodd");
    assert_eq!(*states.stencil_stroke().clear_stencil(), "clear_stencil");
    assert_eq!(*states.triangles(), "triangles");
    assert_eq!(*states.clear_rect(), "clear_rect");
    assert_eq!(*states.pipeline(PipelineKind::StencilStrokeAaPixels), "aa_pixels");
    let labels: Vec<&str> = ALL.iter().map(|k| *states.pipeline(*k)).collect();
    assert_eq!(
        labels,
        vec![
            "convex_fill/fill_buffer",
            "convex_fill/stroke_buffer",
            "concave_fill/fill_verts",
            "concave_fill/fringes_nonzero",
            "concave_fill/fringes_evenodd",
            "concave_fill/fills_nonzero",
            "concave_fill/fills_evenodd",
            "stroke",
            "stroke_base",
            "aa_pixels",
            "clear_stencil",
            "triangles",
            "clear_rect",
        ]
    );
    let specs = specs.borrow();
    let fill = specs[0];
    assert_eq!(fill.label_blend, Some(b));
    assert_eq!(fill.layout, LayoutKind::Paint);
    assert_eq!(fill.vertex_entry, ShaderEntry::VertexShader);
    assert_eq!(fill.fragment_entry, ShaderEntry::FragmentShaderAa);
    assert_eq!(fill.vertex_buffer, Some(vertex_desc(16)));
    assert_eq!(fill.target.blend, Some(BlendState::from(b)));
    assert_eq!(fill.target.write_mask, ColorWrite::All);
    assert_eq!(fill.primitive.topology, PrimitiveTopology::TriangleList);
    assert_eq!(fill.primitive.strip_index_format, None);
    assert_eq!(fill.primitive.cull_mode, Some(Face::Back));
    assert_eq!(fill.depth_stencil, Some(default_stencil_state(TextureFormat::Depth24PlusStencil8)));
    let verts = specs[2];
    assert_eq!(verts.label_blend, None);
    assert_eq!(verts.fragment_entry, ShaderEntry::Passthrough);
    assert_eq!(verts.target.write_mask, ColorWrite::Empty);
    assert_eq!(verts.primitive.cull_mode, None);
    assert_eq!(verts.depth_stencil, Some(fill_shape_stencil_state(TextureFormat::Depth24PlusStencil8)));
    let clear = specs[10];
    assert_eq!(clear.primitive.topology, PrimitiveTopology::TriangleStrip);
    assert_eq!(clear.primitive.strip_index_format, Some(IndexFormat::Uint32));
    assert_eq!(clear.depth_stencil, Some(stroke_clear_stencil_state(TextureFormat::Depth24PlusStencil8)));
    let rect = specs[12];
    assert_eq!(rect.layout, LayoutKind::ClearRect);
    assert_eq!(rect.vertex_buffer, None);
    assert_eq!(rect.vertex_entry, ShaderEntry::VertexClearRect);
    assert_eq!(rect.fragment_entry, ShaderEntry::FragmentClearRect);
    assert_eq!(rect.target.blend, None);
    assert_eq!(rect.target.format, TextureFormat::Bgra8Unorm);
    assert_eq!(rect.depth_stencil, Some(default_stencil_state(TextureFormat::Depth24PlusStencil8)));
}

#[test]
fn pipeline_cache_builds_each_key_once() {
    let built = Cell::new(0usize);
    let build = |_s: RenderPipelineSpec| {
        built.set(built.get() + 1);
        built.get()
    };
    let mut cache: WGPUPipelineCache<usize> = WGPUPipelineCache::new(vertex_desc(16));
    let a = cache.get(blend(GpuBlendFactor::One), TextureFormat::Bgra8Unorm, &build);
    assert_eq!(built.get(), 13);
    let again = cache.get(blend(GpuBlendFactor::One), TextureFormat::Bgra8Unorm, &build);
    assert_eq!(again, a);
    assert_eq!(built.get(), 13);
    let other_format = cache.get(blend(GpuBlendFactor::One), TextureFormat::Rgba8Unorm, &build);
    assert_ne!(other_format, a);
    assert_eq!(built.get(), 26);
    let other_blend = cache.get(blend(GpuBlendFactor::Dst), TextureFormat::Bgra8Unorm, &build);
    assert_eq!(built.get(), 39);
    assert!(cache.states(other_blend).matches(blend(GpuBlendFactor::Dst), TextureFormat::Bgra8Unorm));
    assert!(cache.states(a).matches(blend(GpuBlendFactor::One), TextureFormat::Bgra8Unorm));
    cache.clear();
    cache.get(blend(GpuBlendFactor::One), TextureFormat::Bgra8Unorm, &build);
    assert_eq!(built.get(), 52);
}

#[test]
fn shader_entry_names() {
    assert_eq!(ShaderEntry::VertexShader.name(), "vertex_shader");
    assert_eq!(ShaderEntry::FragmentShaderAa.name(), "fragment_shader_aa");
    assert_eq!(ShaderEntry::Passthrough.name(), "passthrough");
    assert_eq!(ShaderEntry::VertexClearRect.name(), "vertex_clear_rect");
    assert_eq!(ShaderEntry::FragmentClearRect.name(), "fragment_clear_rect");
}
