use vstd::prelude::*;

use crate::blend::WGPUBlend;
use crate::pipeline::{
    Face, IndexFormat, PrimitiveTopology, RenderPipelineSpec, VertexLayout, create_clear_rect_pipeline,
    create_pipeline, create_stencil_only_pipeline, spec_clear_rect_pipeline, spec_pipeline,
    spec_stencil_only_pipeline,
};
use crate::plan::PipelineKind;
use crate::states::{
    TextureFormat, default_stencil_state, fill_anti_alias_stencil_state_evenodd,
    fill_anti_alias_stencil_state_nonzero, fill_shape_stencil_state, fill_stencil_state_evenodd,
    fill_stencil_state_nonzero, spec_default_stencil_state, spec_fill_anti_alias_stencil_state_evenodd,
    spec_fill_anti_alias_stencil_state_nonzero, spec_fill_shape_stencil_state,
    spec_fill_stencil_state_evenodd, spec_fill_stencil_state_nonzero, spec_stroke_anti_alias_stencil_state,
    spec_stroke_clear_stencil_state, spec_stroke_shape_stencil_state, stroke_anti_alias_stencil_state,
    stroke_clear_stencil_state, stroke_shape_stencil_state,
};

verus! {

/// The depth-stencil format of every pipeline.
pub open spec fn stencil_format() -> TextureFormat {
    TextureFormat::Depth24PlusStencil8
}

/// What the pipeline of each kind is made from, for a blend state, a target format and a
/// vertex layout.
pub open spec fn pipeline_spec(
    kind: PipelineKind,
    blend: WGPUBlend,
    format: TextureFormat,
    vertex: VertexLayout,
) -> RenderPipelineSpec {
    let sf = stencil_format();
    let strip = PrimitiveTopology::TriangleStrip;
    let list = PrimitiveTopology::TriangleList;
    let u32i = Some(IndexFormat::Uint32);
    let back = Some(Face::Back);
    match kind {
        PipelineKind::ConvexFillBuffer => spec_pipeline("convex_fill/fill_buffer", vertex, format, blend, list, None, back, spec_default_stencil_state(sf)),
        PipelineKind::ConvexStrokeBuffer => spec_pipeline("convex_fill/stroke_buffer", vertex, format, blend, strip, u32i, back, spec_default_stencil_state(sf)),
        PipelineKind::ConcaveFillVerts => spec_stencil_only_pipeline("concave_fill/fill_verts", vertex, format, blend, list, None, None, spec_fill_shape_stencil_state(sf)),
        PipelineKind::ConcaveFringesNonZero => spec_pipeline("concave_fill/fringes_nonzero", vertex, format, blend, strip, u32i, back, spec_fill_anti_alias_stencil_state_nonzero(sf)),
        PipelineKind::ConcaveFringesEvenOdd => spec_pipeline("concave_fill/fringes_evenodd", vertex, format, blend, strip, u32i, back, spec_fill_anti_alias_stencil_state_evenodd(sf)),
        PipelineKind::ConcaveFillsNonZero => spec_pipeline("concave_fill/fills_nonzero", vertex, format, blend, strip, u32i, back, spec_fill_stencil_state_nonzero(sf)),
        PipelineKind::ConcaveFillsEvenOdd => spec_pipeline("concave_fill/fills_evenodd", vertex, format, blend, strip, u32i, back, spec_fill_stencil_state_evenodd(sf)),
        PipelineKind::Stroke => spec_pipeline("stroke", vertex, format, blend, strip, u32i, back, spec_default_stencil_state(sf)),
        PipelineKind::StencilStrokeBase => spec_pipeline("stroke_base", vertex, format, blend, strip, u32i, back, spec_stroke_shape_stencil_state(sf)),
        PipelineKind::StencilStrokeAaPixels => spec_pipeline("aa_pixels", vertex, format, blend, strip, u32i, back, spec_stroke_anti_alias_stencil_state(sf)),
        PipelineKind::StencilStrokeClearStencil => spec_stencil_only_pipeline("clear_stencil", vertex, format, blend, strip, u32i, back, spec_stroke_clear_stencil_state(sf)),
        PipelineKind::Triangles => spec_pipeline("triangles", vertex, format, blend, list, None, back, spec_default_stencil_state(sf)),
        PipelineKind::ClearRect => spec_clear_rect_pipeline(format, sf),
    }
}

/// The pipelines of a convex fill.
pub struct ConvexFill<P> {
    pub fill_buffer: P,
    pub stroke_buffer: P,
}

impl<P> ConvexFill<P> {
    pub fn fill_buffer(&self) -> (r: &P)
        ensures
            *r == self.fill_buffer,
    {
        &self.fill_buffer
    }

    pub fn stroke_buffer(&self) -> (r: &P)
        ensures
            *r == self.stroke_buffer,
    {
        &self.stroke_buffer
    }
}

/// The pipelines of a concave fill.
pub struct ConcaveFill<P> {
    pub fill_verts: P,
    pub fringes_nonzero: P,
    pub fringes_evenodd: P,
    pub fills_nonzero: P,
    pub fills_evenodd: P,
}

impl<P> ConcaveFill<P> {
    pub fn fill_verts(&self) -> (r: &P)
        ensures
            *r == self.fill_verts,
    {
        &self.fill_verts
    }

    pub fn fringes_nonzero(&self) -> (r: &P)
        ensures
            *r == self.fringes_nonzero,
    {
        &self.fringes_nonzero
    }

    pub fn fringes_evenodd(&self) -> (r: &P)
        ensures
            *r == self.fringes_evenodd,
    {
        &self.fringes_evenodd
    }

    pub fn fills_nonzero(&self) -> (r: &P)
        ensures
            *r == self.fills_nonzero,
    {
        &self.fills_nonzero
    }

    pub fn fills_evenodd(&self) -> (r: &P)
        ensures
            *r == self.fills_evenodd,
    {
        &self.fills_evenodd
    }
}

/// The pipelines of a stencil stroke.
pub struct StencilStroke<P> {
    pub stroke_base: P,
    pub aa_pixels: P,
    pub clear_stencil: P,
}

impl<P> StencilStroke<P> {
    pub fn stroke_base(&self) -> (r: &P)
        ensures
            *r == self.stroke_base,
    {
        &self.stroke_base
    }

    pub fn aa_pixels(&self) -> (r: &P)
        ensures
            *r == self.aa_pixels,
    {
        &self.aa_pixels
    }

    pub fn clear_stencil(&self) -> (r: &P)
        ensures
            *r == self.clear_stencil,
    {
        &self.clear_stencil
    }
}

/// Every pipeline of one blend state and target format.
pub struct WGPUPipelineStates<P> {
    pub blend_func: WGPUBlend,
    pub format: TextureFormat,
    pub convex_fill: ConvexFill<P>,
    pub concave_fill: ConcaveFill<P>,
    pub stroke: P,
    pub stencil_stroke: StencilStroke<P>,
    pub triangles: P,
    pub clear_rect: P,
}

impl<P> WGPUPipelineStates<P> {
    /// The pipeline of a kind.
    pub open spec fn pipeline_of(self, kind: PipelineKind) -> P {
        match kind {
            PipelineKind::ConvexFillBuffer => self.convex_fill.fill_buffer,
            PipelineKind::ConvexStrokeBuffer => self.convex_fill.stroke_buffer,
            PipelineKind::ConcaveFillVerts => self.concave_fill.fill_verts,
            PipelineKind::ConcaveFringesNonZero => self.concave_fill.fringes_nonzero,
            PipelineKind::ConcaveFringesEvenOdd => self.concave_fill.fringes_evenodd,
            PipelineKind::ConcaveFillsNonZero => self.concave_fill.fills_nonzero,
            PipelineKind::ConcaveFillsEvenOdd => self.concave_fill.fills_evenodd,
            PipelineKind::Stroke => self.stroke,
            PipelineKind::StencilStrokeBase => self.stencil_stroke.stroke_base,
            PipelineKind::StencilStrokeAaPixels => self.stencil_stroke.aa_pixels,
            PipelineKind::StencilStrokeClearStencil => self.stencil_stroke.clear_stencil,
            PipelineKind::Triangles => self.triangles,
            PipelineKind::ClearRect => self.clear_rect,
        }
    }

    /// Whether these are the pipelines of the blend state and format.
    pub fn matches(&self, blend_func: WGPUBlend, format: TextureFormat) -> (r: bool)
        ensures
            r == (self.blend_func == blend_func && self.format == format),
    {
        self.blend_func == blend_func && self.format == format
    }

    pub fn blend_func(&self) -> (r: WGPUBlend)
        ensures
            r == self.blend_func,
    {
        self.blend_func
    }

    pub fn convex_fill(&self) -> (r: &ConvexFill<P>)
        ensures
            *r == self.convex_fill,
    {
        &self.convex_fill
    }

    pub fn concave_fill(&self) -> (r: &ConcaveFill<P>)
        ensures
            *r == self.concave_fill,
    {
        &self.concave_fill
    }

    pub fn stroke(&self) -> (r: &P)
        ensures
            *r == self.stroke,
    {
        &self.stroke
    }

    pub fn stencil_stroke(&self) -> (r: &StencilStroke<P>)
        ensures
            *r == self.stencil_stroke,
    {
        &self.stencil_stroke
    }

    pub fn triangles(&self) -> (r: &P)
        ensures
            *r == self.triangles,
    {
        &self.triangles
    }

    pub fn clear_rect(&self) -> (r: &P)
        ensures
            *r == self.clear_rect,
    {
        &self.clear_rect
    }

    /// The pipeline of a kind.
    pub fn pipeline(&self, kind: PipelineKind) -> (r: &P)
        ensures
            *r == self.pipeline_of(kind),
    {
        match kind {
            PipelineKind::ConvexFillBuffer => &self.convex_fill.fill_buffer,
            PipelineKind::ConvexStrokeBuffer => &self.convex_fill.stroke_buffer,
            PipelineKind::ConcaveFillVerts => &self.concave_fill.fill_verts,
            PipelineKind::ConcaveFringesNonZero => &self.concave_fill.fringes_nonzero,
            PipelineKind::ConcaveFringesEvenOdd => &self.concave_fill.fringes_evenodd,
            PipelineKind::ConcaveFillsNonZero => &self.concave_fill.fills_nonzero,
            PipelineKind::ConcaveFillsEvenOdd => &self.concave_fill.fills_evenodd,
            PipelineKind::Stroke => &self.stroke,
            PipelineKind::StencilStrokeBase => &self.stencil_stroke.stroke_base,
            PipelineKind::StencilStrokeAaPixels => &self.stencil_stroke.aa_pixels,
            PipelineKind::StencilStrokeClearStencil => &self.stencil_stroke.clear_stencil,
            PipelineKind::Triangles => &self.triangles,
            PipelineKind::ClearRect => &self.clear_rect,
        }
    }

    /// Builds every pipeline of a blend state and target format: `build` makes one
    /// pipeline from its description.
    pub fn new<F: Fn(RenderPipelineSpec) -> P>(
        blend_func: WGPUBlend,
        format: TextureFormat,
        vertex: VertexLayout,
        build: &F,
    ) -> (r: Self)
        requires
            forall|s: RenderPipelineSpec| build.requires((s,)),
        ensures
            r.blend_func == blend_func,
            r.format == format,
            forall|k: PipelineKind|
                build.ensures((pipeline_spec(k, blend_func, format, vertex),), #[trigger] r.pipeline_of(k)),
    {
        let sf = TextureFormat::Depth24PlusStencil8;
        let strip = PrimitiveTopology::TriangleStrip;
        let list = PrimitiveTopology::TriangleList;
        let u32i = Some(IndexFormat::Uint32);
        let back = Some(Face::Back);
        let convex_fill = ConvexFill {
            fill_buffer: build(create_pipeline("convex_fill/fill_buffer", vertex, format, blend_func, list, None, back, default_stencil_state(sf))),
            stroke_buffer: build(create_pipeline("convex_fill/stroke_buffer", vertex, format, blend_func, strip, u32i, back, default_stencil_state(sf))),
        };
        let concave_fill = ConcaveFill {
            fill_verts: build(create_stencil_only_pipeline("concave_fill/fill_verts", vertex, format, blend_func, list, None, None, fill_shape_stencil_state(sf))),
            fringes_nonzero: build(create_pipeline("concave_fill/fringes_nonzero", vertex, format, blend_func, strip, u32i, back, fill_anti_alias_stencil_state_nonzero(sf))),
            fringes_evenodd: build(create_pipeline("concave_fill/fringes_evenodd", vertex, format, blend_func, strip, u32i, back, fill_anti_alias_stencil_state_evenodd(sf))),
            fills_nonzero: build(create_pipeline("concave_fill/fills_nonzero", vertex, format, blend_func, strip, u32i, back, fill_stencil_state_nonzero(sf))),
            fills_evenodd: build(create_pipeline("concave_fill/fills_evenodd", vertex, format, blend_func, strip, u32i, back, fill_stencil_state_evenodd(sf))),
        };
        let stroke = build(create_pipeline("stroke", vertex, format, blend_func, strip, u32i, back, default_stencil_state(sf)));
        let stencil_stroke = StencilStroke {
            stroke_base: build(create_pipeline("stroke_base", vertex, format, blend_func, strip, u32i, back, stroke_shape_stencil_state(sf))),
            aa_pixels: build(create_pipeline("aa_pixels", vertex, format, blend_func, strip, u32i, back, stroke_anti_alias_stencil_state(sf))),
            clear_stencil: build(create_stencil_only_pipeline("clear_stencil", vertex, format, blend_func, strip, u32i, back, stroke_clear_stencil_state(sf))),
        };
        let triangles = build(create_pipeline("triangles", vertex, format, blend_func, list, None, back, default_stencil_state(sf)));
        let clear_rect = build(create_clear_rect_pipeline(format, sf));
        let r = WGPUPipelineStates {
            blend_func,
            format,
            convex_fill,
            concave_fill,
            stroke,
            stencil_stroke,
            triangles,
            clear_rect,
        };
        assert forall|k: PipelineKind|
            build.ensures((pipeline_spec(k, blend_func, format, vertex),), #[trigger] r.pipeline_of(k)) by {}
        r
    }
}

/// The key of the pipeline cache.
#[derive(Clone, Copy, Debug, PartialEq, Eq, Structural, Hash)]
pub struct PipelineCacheKey {
    pub blend_func: WGPUBlend,
    pub texture_format: TextureFormat,
}

/// Whether `states` are what `build` made for a blend state, format and vertex layout.
pub open spec fn built_by<P, F: Fn(RenderPipelineSpec) -> P>(
    build: F,
    states: WGPUPipelineStates<P>,
    blend: WGPUBlend,
    format: TextureFormat,
    vertex: VertexLayout,
) -> bool {
    &&& states.blend_func == blend
    &&& states.format == format
    &&& forall|k: PipelineKind|
        build.ensures((pipeline_spec(k, blend, format, vertex),), #[trigger] states.pipeline_of(k))
}

/// The pipelines built so far, one entry per blend state and target format.
pub struct WGPUPipelineCache<P> {
    vertex: VertexLayout,
    keys: Vec<PipelineCacheKey>,
    states: Vec<WGPUPipelineStates<P>>,
}

impl<P> WGPUPipelineCache<P> {
    /// The cached keys, in the order they were added.
    pub closed spec fn keys(&self) -> Seq<PipelineCacheKey> {
        self.keys@
    }

    /// The cached pipelines, entry `i` for key `i`.
    pub closed spec fn entries(&self) -> Seq<WGPUPipelineStates<P>> {
        self.states@
    }

    /// The vertex layout every cached pipeline is made with.
    pub closed spec fn vertex(&self) -> VertexLayout {
        self.vertex
    }

    /// Each key is cached once, and each entry holds the pipelines of its key.
    pub open spec fn wf(&self) -> bool {
        &&& self.keys().len() == self.entries().len()
        &&& forall|i: int, j: int|
            0 <= i < j < self.keys().len() ==> self.keys()[i] != self.keys()[j]
        &&& forall|i: int|
            0 <= i < self.keys().len() ==> (#[trigger] self.entries()[i]).blend_func
                == self.keys()[i].blend_func && self.entries()[i].format
                == self.keys()[i].texture_format
    }

    /// An empty cache of pipelines that use the vertex layout `vertex`.
    pub fn new(vertex: VertexLayout) -> (r: Self)
        ensures
            r.wf(),
            r.keys() == Seq::<PipelineCacheKey>::empty(),
            r.vertex() == vertex,
    {
        WGPUPipelineCache { vertex, keys: Vec::new(), states: Vec::new() }
    }

    /// The entry of the key, if cached.
    fn inner(&self, key: PipelineCacheKey) -> (r: Option<usize>)
        requires
            self.wf(),
        ensures
            r matches Some(i) ==> i < self.keys().len() && self.keys()[i as int] == key,
            r is None ==> !self.keys().contains(key),
    {
        let mut i: usize = 0;
        while i < self.keys.len()
            invariant
                0 <= i <= self.keys@.len(),
                forall|j: int| 0 <= j < i ==> self.keys@[j] != key,
            decreases self.keys@.len() - i,
        {
            if self.keys[i] == key {
                return Some(i);
            }
            i = i + 1;
        }
        None
    }

    /// The entry of a blend state and target format, building its pipelines with `build`
    /// if they are not cached yet.
    pub fn get<F: Fn(RenderPipelineSpec) -> P>(
        &mut self,
        blend_func: WGPUBlend,
        texture_format: TextureFormat,
        build: &F,
    ) -> (slot: usize)
        requires
            old(self).wf(),
            forall|s: RenderPipelineSpec| build.requires((s,)),
        ensures
            final(self).wf(),
            final(self).vertex() == old(self).vertex(),
            slot < final(self).keys().len(),
            final(self).keys()[slot as int] == (PipelineCacheKey { blend_func, texture_format }),
            old(self).keys().contains(PipelineCacheKey { blend_func, texture_format }) ==> {
                &&& final(self).keys() == old(self).keys()
                &&& final(self).entries() == old(self).entries()
            },
            !old(self).keys().contains(PipelineCacheKey { blend_func, texture_format }) ==> {
                &&& final(self).keys() == old(self).keys().push(PipelineCacheKey { blend_func, texture_format })
                &&& final(self).entries().drop_last() == old(self).entries()
                &&& built_by(*build, final(self).entries().last(), blend_func, texture_format, old(self).vertex())
            },
    {
        let key = PipelineCacheKey { blend_func, texture_format };
        match self.inner(key) {
            Some(i) => i,
            None => {
                let ps = WGPUPipelineStates::new(blend_func, texture_format, self.vertex, build);
                let ghost old_states = self.states@;
                self.keys.push(key);
                self.states.push(ps);
                proof {
                    assert(self.states@.drop_last() =~= old_states);
                    assert forall|i: int, j: int| 0 <= i < j < self.keys@.len() implies self.keys@[i] != self.keys@[j] by {
                        if j == self.keys@.len() - 1 {
                            assert(old(self).keys@[i] != key);
                        }
                    }
                }
                self.keys.len() - 1
            },
        }
    }

    /// The pipelines of an entry.
    pub fn states(&self, slot: usize) -> (r: &WGPUPipelineStates<P>)
        requires
            slot < self.entries().len(),
        ensures
            *r == self.entries()[slot as int],
    {
        &self.states[slot]
    }

    /// Drops every cached pipeline.
    pub fn clear(&mut self)
        ensures
            final(self).wf(),
            final(self).keys() == Seq::<PipelineCacheKey>::empty(),
            final(self).vertex() == old(self).vertex(),
    {
        self.keys.clear();
        self.states.clear();
    }
}

/// Law: the cache memoizes. Asking twice for the same blend state and format builds at
/// most once: a key already cached is found at its one entry and nothing is rebuilt.
pub proof fn lemma_pipeline_cache_unique<P>(c: WGPUPipelineCache<P>, i: int, j: int)
    requires
        c.wf(),
        0 <= i < c.keys().len(),
        0 <= j < c.keys().len(),
        c.keys()[i] == c.keys()[j],
    ensures
        i == j,
{
}

} // verus!
