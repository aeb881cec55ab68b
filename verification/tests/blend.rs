use femtovg_wgpu::blend::{
    wgpu_blend, BlendComponent, BlendFactor, BlendOperation, BlendState, CompositeOperationState,
    GpuBlendFactor, WGPUBlend,
};

#[test]
fn each_blend_factor_maps_to_its_gpu_factor() {
    let pairs = [
        (BlendFactor::Zero, GpuBlendFactor::Zero),
        (BlendFactor::One, GpuBlendFactor::One),
        (BlendFactor::SrcColor, GpuBlendFactor::Src),
        (BlendFactor::OneMinusSrcColor, GpuBlendFactor::OneMinusSrc),
        (BlendFactor::DstColor, GpuBlendFactor::Dst),
        (BlendFactor::OneMinusDstColor, GpuBlendFactor::OneMinusDst),
        (BlendFactor::SrcAlpha, GpuBlendFactor::SrcAlpha),
        (BlendFactor::OneMinusSrcAlpha, GpuBlendFactor::OneMinusSrcAlpha),
        (BlendFactor::DstAlpha, GpuBlendFactor::DstAlpha),
        (BlendFactor::OneMinusDstAlpha, GpuBlendFactor::OneMinusDstAlpha),
        (BlendFactor::SrcAlphaSaturate, GpuBlendFactor::SrcAlphaSaturated),
    ];
    for (a, b) in pairs {
        assert_eq!(GpuBlendFactor::from(a), b);
    }
}

#[test]
fn composite_state_becomes_pipeline_blend() {
    let state = CompositeOperationState {
        src_rgb: BlendFactor::One,
        src_alpha: BlendFactor::SrcAlpha,
        dst_rgb: BlendFactor::OneMinusSrcAlpha,
        dst_alpha: BlendFactor::DstColor,
    };
    let b = wgpu_blend(state);
    assert_eq!(
        b,
        WGPUBlend {
            src_rgb: GpuBlendFactor::One,
            dst_rgb: GpuBlendFactor::OneMinusSrcAlpha,
            src_alpha: GpuBlendFactor::SrcAlpha,
            dst_alpha: GpuBlendFactor::Dst,
        }
    );
    assert_eq!(WGPUBlend::from(state), b);
}

#[test]
fn blend_state_adds_both_components() {
    let b = WGPUBlend {
        src_rgb: GpuBlendFactor::One,
        dst_rgb: GpuBlendFactor::Zero,
        src_alpha: GpuBlendFactor::SrcAlpha,
        dst_alpha: GpuBlendFactor::OneMinusSrcAlpha,
    };
    assert_eq!(
        BlendState::from(b),
        BlendState {
            color: BlendComponent {
                src_factor: GpuBlendFactor::One,
                dst_factor: GpuBlendFactor::Zero,
                operation: BlendOperation::Add,
            },
            alpha: BlendComponent {
                src_factor: GpuBlendFactor::SrcAlpha,
                dst_factor: GpuBlendFactor::OneMinusSrcAlpha,
                operation: BlendOperation::Add,
            },
        }
    );
}
