use vstd::prelude::*;
use vstd::std_specs::convert::FromSpecImpl;

verus! {

/// A factor of the canvas's compositing equation.
#[derive(Clone, Copy, Debug, PartialEq, Eq, Structural, Hash)]
pub enum BlendFactor {
    Zero,
    One,
    SrcColor,
    OneMinusSrcColor,
    DstColor,
    OneMinusDstColor,
    SrcAlpha,
    OneMinusSrcAlpha,
    DstAlpha,
    OneMinusDstAlpha,
    SrcAlphaSaturate,
}

/// The four factors of the canvas's compositing equation.
#[derive(Clone, Copy, Debug, PartialEq, Eq, Structural, Hash)]
pub struct CompositeOperationState {
    pub src_rgb: BlendFactor,
    pub src_alpha: BlendFactor,
    pub dst_rgb: BlendFactor,
    pub dst_alpha: BlendFactor,
}

/// A blend factor as the GPU pipeline names it.
#[derive(Clone, Copy, Debug, PartialEq, Eq, Structural, Hash)]
pub enum GpuBlendFactor {
    Zero,
    One,
    Src,
    OneMinusSrc,
    SrcAlpha,
    OneMinusSrcAlpha,
    Dst,
    OneMinusDst,
    DstAlpha,
    OneMinusDstAlpha,
    SrcAlphaSaturated,
    Constant,
    OneMinusConstant,
}

/// How a blend component combines source and destination.
#[derive(Clone, Copy, Debug, PartialEq, Eq, Structural, Hash)]
pub enum BlendOperation {
    Add,
    Subtract,
    ReverseSubtract,
    Min,
    Max,
}

/// Blending of one component (color or alpha) of a render target.
#[derive(Clone, Copy, Debug, PartialEq, Eq, Structural, Hash)]
pub struct BlendComponent {
    pub src_factor: GpuBlendFactor,
    pub dst_factor: GpuBlendFactor,
    pub operation: BlendOperation,
}

/// Blending of a render target's color and alpha.
#[derive(Clone, Copy, Debug, PartialEq, Eq, Structural, Hash)]
pub struct BlendState {
    pub color: BlendComponent,
    pub alpha: BlendComponent,
}

/// The blend factors of one pipeline; pipelines are cached by them.
#[derive(Clone, Copy, Debug, PartialEq, Eq, Structural, Hash)]
pub struct WGPUBlend {
    pub src_rgb: GpuBlendFactor,
    pub dst_rgb: GpuBlendFactor,
    pub src_alpha: GpuBlendFactor,
    pub dst_alpha: GpuBlendFactor,
}

/// The GPU factor that stands for a canvas factor.
pub open spec fn gpu_blend_factor(a: BlendFactor) -> GpuBlendFactor {
    match a {
        BlendFactor::Zero => GpuBlendFactor::Zero,
        BlendFactor::One => GpuBlendFactor::One,
        BlendFactor::SrcColor => GpuBlendFactor::Src,
        BlendFactor::OneMinusSrcColor => GpuBlendFactor::OneMinusSrc,
        BlendFactor::DstColor => GpuBlendFactor::Dst,
        BlendFactor::OneMinusDstColor => GpuBlendFactor::OneMinusDst,
        BlendFactor::SrcAlpha => GpuBlendFactor::SrcAlpha,
        BlendFactor::OneMinusSrcAlpha => GpuBlendFactor::OneMinusSrcAlpha,
        BlendFactor::DstAlpha => GpuBlendFactor::DstAlpha,
        BlendFactor::OneMinusDstAlpha => GpuBlendFactor::OneMinusDstAlpha,
        BlendFactor::SrcAlphaSaturate => GpuBlendFactor::SrcAlphaSaturated,
    }
}

/// The pipeline blend factors of a compositing state, factor by factor.
pub open spec fn spec_wgpu_blend(v: CompositeOperationState) -> WGPUBlend {
    WGPUBlend {
        src_rgb: gpu_blend_factor(v.src_rgb),
        dst_rgb: gpu_blend_factor(v.dst_rgb),
        src_alpha: gpu_blend_factor(v.src_alpha),
        dst_alpha: gpu_blend_factor(v.dst_alpha),
    }
}

/// The blend state of a pipeline: both components add, with the pipeline's factors.
pub open spec fn spec_blend_state(a: WGPUBlend) -> BlendState {
    BlendState {
        color: BlendComponent {
            src_factor: a.src_rgb,
            dst_factor: a.dst_rgb,
            operation: BlendOperation::Add,
        },
        alpha: BlendComponent {
            src_factor: a.src_alpha,
            dst_factor: a.dst_alpha,
            operation: BlendOperation::Add,
        },
    }
}

impl From<BlendFactor> for GpuBlendFactor {
    fn from(a: BlendFactor) -> (r: Self) {
        match a {
            BlendFactor::Zero => GpuBlendFactor::Zero,
            BlendFactor::One => GpuBlendFactor::One,
            BlendFactor::SrcColor => GpuBlendFactor::Src,
            BlendFactor::OneMinusSrcColor => GpuBlendFactor::OneMinusSrc,
            BlendFactor::DstColor => GpuBlendFactor::Dst,
            BlendFactor::OneMinusDstColor => GpuBlendFactor::OneMinusDst,
            BlendFactor::SrcAlpha => GpuBlendFactor::SrcAlpha,
            BlendFactor::OneMinusSrcAlpha => GpuBlendFactor::OneMinusSrcAlpha,
            BlendFactor::DstAlpha => GpuBlendFactor::DstAlpha,
            BlendFactor::OneMinusDstAlpha => GpuBlendFactor::OneMinusDstAlpha,
            BlendFactor::SrcAlphaSaturate => GpuBlendFactor::SrcAlphaSaturated,
        }
    }
}

impl FromSpecImpl<BlendFactor> for GpuBlendFactor {
    open spec fn obeys_from_spec() -> bool {
        true
    }

    open spec fn from_spec(v: BlendFactor) -> Self {
        gpu_blend_factor(v)
    }
}

impl From<CompositeOperationState> for WGPUBlend {
    fn from(v: CompositeOperationState) -> (r: Self) {
        WGPUBlend {
            src_rgb: GpuBlendFactor::from(v.src_rgb),
            dst_rgb: GpuBlendFactor::from(v.dst_rgb),
            src_alpha: GpuBlendFactor::from(v.src_alpha),
            dst_alpha: GpuBlendFactor::from(v.dst_alpha),
        }
    }
}

impl FromSpecImpl<CompositeOperationState> for WGPUBlend {
    open spec fn obeys_from_spec() -> bool {
        true
    }

    open spec fn from_spec(v: CompositeOperationState) -> Self {
        spec_wgpu_blend(v)
    }
}

impl From<WGPUBlend> for BlendState {
    fn from(a: WGPUBlend) -> (r: Self) {
        BlendState {
            color: BlendComponent {
                src_factor: a.src_rgb,
                dst_factor: a.dst_rgb,
                operation: BlendOperation::Add,
            },
            alpha: BlendComponent {
                src_factor: a.src_alpha,
                dst_factor: a.dst_alpha,
                operation: BlendOperation::Add,
            },
        }
    }
}

impl FromSpecImpl<WGPUBlend> for BlendState {
    open spec fn obeys_from_spec() -> bool {
        true
    }

    open spec fn from_spec(v: WGPUBlend) -> Self {
        spec_blend_state(v)
    }
}

/// Converts a compositing state to the blend factors of its pipeline.
pub fn wgpu_blend(v: CompositeOperationState) -> (r: WGPUBlend)
    ensures
        r == spec_wgpu_blend(v),
{
    WGPUBlend::from(v)
}

/// Distinct canvas factors become distinct GPU factors, so the pipeline cache never merges
/// two different compositing states.
pub proof fn lemma_gpu_blend_factor_injective(a: BlendFactor, b: BlendFactor)
    ensures
        gpu_blend_factor(a) == gpu_blend_factor(b) ==> a == b,
{
}

/// Distinct compositing states give distinct pipeline blend factors.
pub proof fn lemma_wgpu_blend_injective(a: CompositeOperationState, b: CompositeOperationState)
    ensures
        spec_wgpu_blend(a) == spec_wgpu_blend(b) ==> a == b,
{
    lemma_gpu_blend_factor_injective(a.src_rgb, b.src_rgb);
    lemma_gpu_blend_factor_injective(a.dst_rgb, b.dst_rgb);
    lemma_gpu_blend_factor_injective(a.src_alpha, b.src_alpha);
    lemma_gpu_blend_factor_injective(a.dst_alpha, b.dst_alpha);
}

/// The weight that a canvas factor gives a channel, for a source color channel `sc` and
/// alpha `sa`, a destination color channel `dc` and alpha `da`, on a scale where `one` is
/// full weight.
pub open spec fn canvas_factor_weight(f: BlendFactor, sc: int, sa: int, dc: int, da: int, one: int) -> int {
    match f {
        BlendFactor::Zero => 0,
        BlendFactor::One => one,
        BlendFactor::SrcColor => sc,
        BlendFactor::OneMinusSrcColor => one - sc,
        BlendFactor::DstColor => dc,
        BlendFactor::OneMinusDstColor => one - dc,
        BlendFactor::SrcAlpha => sa,
        BlendFactor::OneMinusSrcAlpha => one - sa,
        BlendFactor::DstAlpha => da,
        BlendFactor::OneMinusDstAlpha => one - da,
        BlendFactor::SrcAlphaSaturate => if sa <= one - da { sa } else { one - da },
    }
}

/// The weight that a GPU blend factor gives a channel, with the same inputs and the
/// pipeline's blend constant `k`.
pub open spec fn gpu_factor_weight(g: GpuBlendFactor, sc: int, sa: int, dc: int, da: int, one: int, k: int) -> int {
    match g {
        GpuBlendFactor::Zero => 0,
        GpuBlendFactor::One => one,
        GpuBlendFactor::Src => sc,
        GpuBlendFactor::OneMinusSrc => one - sc,
        GpuBlendFactor::SrcAlpha => sa,
        GpuBlendFactor::OneMinusSrcAlpha => one - sa,
        GpuBlendFactor::Dst => dc,
        GpuBlendFactor::OneMinusDst => one - dc,
        GpuBlendFactor::DstAlpha => da,
        GpuBlendFactor::OneMinusDstAlpha => one - da,
        GpuBlendFactor::SrcAlphaSaturated => if sa <= one - da { sa } else { one - da },
        GpuBlendFactor::Constant => k,
        GpuBlendFactor::OneMinusConstant => one - k,
    }
}

/// Law: a canvas factor and the GPU factor it becomes weigh every channel alike, for all
/// source and destination colors and any blend constant; so the pipeline blends exactly as
/// the canvas's compositing equation asks.
pub proof fn lemma_gpu_blend_factor_weight(f: BlendFactor, sc: int, sa: int, dc: int, da: int, one: int, k: int)
    ensures
        gpu_factor_weight(gpu_blend_factor(f), sc, sa, dc, da, one, k) == canvas_factor_weight(f, sc, sa, dc, da, one),
{
}

/// Law: a pipeline blends both its color and its alpha by adding the source, weighed by the
/// compositing state's source factor of that component, to the destination, weighed by
/// its destination factor of that component.
pub proof fn lemma_blend_state_components(v: CompositeOperationState, sc: int, sa: int, dc: int, da: int, one: int, k: int)
    ensures
        spec_blend_state(spec_wgpu_blend(v)).color.operation == BlendOperation::Add,
        spec_blend_state(spec_wgpu_blend(v)).alpha.operation == BlendOperation::Add,
        gpu_factor_weight(spec_blend_state(spec_wgpu_blend(v)).color.src_factor, sc, sa, dc, da, one, k)
            == canvas_factor_weight(v.src_rgb, sc, sa, dc, da, one),
        gpu_factor_weight(spec_blend_state(spec_wgpu_blend(v)).color.dst_factor, sc, sa, dc, da, one, k)
            == canvas_factor_weight(v.dst_rgb, sc, sa, dc, da, one),
        gpu_factor_weight(spec_blend_state(spec_wgpu_blend(v)).alpha.src_factor, sc, sa, dc, da, one, k)
            == canvas_factor_weight(v.src_alpha, sc, sa, dc, da, one),
        gpu_factor_weight(spec_blend_state(spec_wgpu_blend(v)).alpha.dst_factor, sc, sa, dc, da, one, k)
            == canvas_factor_weight(v.dst_alpha, sc, sa, dc, da, one),
{
}

} // verus!
