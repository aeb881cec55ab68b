use femtovg_wgpu::blend::{wgpu_blend, BlendFactor, CompositeOperationState};
use femtovg_wgpu::command::{Command, CommandType, Drawable, FillRule, ImageId, RenderTarget};
use femtovg_wgpu::plan::{plan_draws, DrawOp, PipelineKind, PlanConfig};
use femtovg_wgpu::prepare::{prepare_buffers, IndexRange};

fn comp() -> CompositeOperationState {
    CompositeOperationState {
        src_rgb: BlendFactor::One,
        src_alpha: BlendFactor::One,
        dst_rgb: BlendFactor::OneMinusSrcAlpha,
        dst_alpha: BlendFactor::OneMinusSrcAlpha,
    }
}

fn cmd(t: CommandType<u32, u32>, drawables: Vec<Drawable>) -> Command<u32, u32> {
    Command {
        cmd_type: t,
        drawables,
        triangles_verts: None,
        image: Some(ImageId(7)),
        alpha_mask: None,
        fill_rule: FillRule::NonZero,
        composite_operation: comp(),
    }
}

fn d(fill: Option<(usize, usize)>, stroke: Option<(usize, usize)>) -> Drawable {
    Drawable { fill_verts: fill, stroke_verts: stroke }
}

fn cfg(antialias: bool) -> PlanConfig {
    PlanConfig { antialias, uniform_stride: 256, clear_rect_stride: 256 }
}

#[test]
fn prepare_collects_buffers_in_command_order() {
    let cmds = vec![
        cmd(CommandType::ConvexFill { params: 1 }, vec![d(Some((0, 4)), Some((4, 6))), d(Some((10, 3)), None)]),
        cmd(CommandType::Stroke { params: 2 }, vec![d(Some((20, 5)), Some((30, 4)))]),
        cmd(CommandType::ConcaveFill { stencil_params: 3, fill_params: 4 }, vec![d(None, None), d(Some((40, 3)), None)]),
        cmd(CommandType::StencilStroke { params1: 5, params2: 6 }, vec![]),
        cmd(CommandType::ClearRect { x: 1, y: 2, width: 3, height: 4, color: 99 }, vec![]),
        cmd(CommandType::Triangles { params: 7 }, vec![]),
        cmd(CommandType::SetRenderTarget(RenderTarget::Screen), vec![]),
    ];
    let out = prepare_buffers(&cmds);
    assert_eq!(out.uniforms, vec![1, 2, 3, 4, 6, 5, 7]);
    assert_eq!(out.clear_colors, vec![99]);
    assert_eq!(out.indices, vec![0, 1, 2, 0, 2, 3, 10, 11, 12, 40, 41, 42]);
    assert_eq!(
        out.index_ranges,
        vec![
            IndexRange { start: 0, end: 6, e_start: 0, e_count: 4 },
            IndexRange { start: 6, end: 9, e_start: 10, e_count: 3 },
            IndexRange { start: 9, end: 12, e_start: 40, e_count: 3 },
        ]
    );
}

#[test]
fn plan_of_an_empty_frame_is_empty() {
    let cmds: Vec<Command<u32, u32>> = vec![];
    let ops = plan_draws(&cmds, RenderTarget::Screen, &vec![], 0, 0, cfg(true));
    assert!(ops.is_empty());
}

#[test]
fn plan_of_a_convex_fill() {
    let cmds = vec![cmd(CommandType::ConvexFill { params: 1 }, vec![d(Some((0, 4)), Some((4, 6)))])];
    let out = prepare_buffers(&cmds);
    let ops = plan_draws(&cmds, RenderTarget::Screen, &out.index_ranges, out.uniforms.len(), 0, cfg(true));
    let blend = wgpu_blend(comp());
    assert_eq!(
        ops,
        vec![
            DrawOp::BeginPass(RenderTarget::Screen),
            DrawOp::SelectPipelines(blend),
            DrawOp::SetPipeline(PipelineKind::ConvexFillBuffer),
            DrawOp::BindUniforms { image: Some(ImageId(7)), alpha_mask: None, slot: 0, offset: 0 },
            DrawOp::SetPipeline(PipelineKind::ConvexFillBuffer),
            DrawOp::PushViewSize,
            DrawOp::DrawIndexed { slot: 0, start: 0, end: 6 },
            DrawOp::SetPipeline(PipelineKind::ConvexStrokeBuffer),
            DrawOp::Draw { start: 4, end: 10 },
            DrawOp::Submit,
        ]
    );
}

#[test]
fn plan_of_a_concave_fill_with_and_without_antialiasing() {
    let mut c = cmd(CommandType::ConcaveFill { stencil_params: 3, fill_params: 4 }, vec![d(Some((0, 3)), Some((3, 4)))]);
    c.fill_rule = FillRule::EvenOdd;
    c.triangles_verts = Some((10, 4));
    let cmds = vec![c];
    let out = prepare_buffers(&cmds);
    let blend = wgpu_blend(comp());
    let with_aa = plan_draws(&cmds, RenderTarget::Screen, &out.index_ranges, 2, 0, cfg(true));
    assert_eq!(
        with_aa,
        vec![
            DrawOp::BeginPass(RenderTarget::Screen),
            DrawOp::SelectPipelines(blend),
            DrawOp::SetPipeline(PipelineKind::ConcaveFillVerts),
            DrawOp::PushViewSize,
            DrawOp::BindUniforms { image: None, alpha_mask: None, slot: 0, offset: 0 },
            DrawOp::DrawIndexed { slot: 0, start: 0, end: 3 },
            DrawOp::BindUniforms { image: Some(ImageId(7)), alpha_mask: None, slot: 1, offset: 256 },
            DrawOp::SetPipeline(PipelineKind::ConcaveFringesEvenOdd),
            DrawOp::Draw { start: 3, end: 7 },
            DrawOp::SetPipeline(PipelineKind::ConcaveFillsEvenOdd),
            DrawOp::Draw { start: 10, end: 14 },
            DrawOp::Submit,
        ]
    );
    let without_aa = plan_draws(&cmds, RenderTarget::Screen, &out.index_ranges, 2, 0, cfg(false));
    assert!(!without_aa.contains(&DrawOp::SetPipeline(PipelineKind::ConcaveFringesEvenOdd)));
    assert!(!without_aa.contains(&DrawOp::Draw { start: 3, end: 7 }));
    assert_eq!(without_aa.len(), with_aa.len() - 2);
}

#[test]
fn plan_of_a_stencil_stroke_binds_two_blocks() {
    let cmds = vec![cmd(CommandType::StencilStroke { params1: 5, params2: 6 }, vec![d(None, Some((0, 4)))])];
    let ops = plan_draws(&cmds, RenderTarget::Screen, &vec![], 2, 0, cfg(true));
    let blend = wgpu_blend(comp());
    assert_eq!(
        ops,
        vec![
            DrawOp::BeginPass(RenderTarget::Screen),
            DrawOp::SelectPipelines(blend),
            DrawOp::SetPipeline(PipelineKind::StencilStrokeBase),
            DrawOp::BindUniforms { image: Some(ImageId(7)), alpha_mask: None, slot: 0, offset: 0 },
            DrawOp::PushViewSize,
            DrawOp::Draw { start: 0, end: 4 },
            DrawOp::SetPipeline(PipelineKind::StencilStrokeAaPixels),
            DrawOp::BindUniforms { image: Some(ImageId(7)), alpha_mask: None, slot: 1, offset: 256 },
            DrawOp::Draw { start: 0, end: 4 },
            DrawOp::SetPipeline(PipelineKind::StencilStrokeClearStencil),
            DrawOp::Draw { start: 0, end: 4 },
            DrawOp::Submit,
        ]
    );
}

#[test]
fn plan_of_clear_rect_and_triangles() {
    let mut t = cmd(CommandType::Triangles { params: 7 }, vec![]);
    t.triangles_verts = Some((5, 3));
    let cmds = vec![cmd(CommandType::ClearRect { x: 1, y: 2, width: 3, height: 4, color: 9 }, vec![]), t];
    let ops = plan_draws(&cmds, RenderTarget::Screen, &vec![], 1, 1, cfg(true));
    let blend = wgpu_blend(comp());
    assert_eq!(
        ops,
        vec![
            DrawOp::BeginPass(RenderTarget::Screen),
            DrawOp::SelectPipelines(blend),
            DrawOp::SetPipeline(PipelineKind::ClearRect),
            DrawOp::BindClearRect { slot: 0, offset: 0 },
            DrawOp::SetViewport { x: 1, y: 2, width: 3, height: 4 },
            DrawOp::Draw { start: 0, end: 4 },
            DrawOp::ResetViewport,
            DrawOp::SelectPipelines(blend),
            DrawOp::SetPipeline(PipelineKind::Triangles),
            DrawOp::PushViewSize,
            DrawOp::BindUniforms { image: Some(ImageId(7)), alpha_mask: None, slot: 0, offset: 0 },
            DrawOp::Draw { start: 5, end: 8 },
            DrawOp::Submit,
        ]
    );
}

#[test]
fn switching_targets_submits_and_reopens() {
    let img = RenderTarget::Image(ImageId(3));
    let cmds = vec![
        cmd(CommandType::SetRenderTarget(RenderTarget::Screen), vec![]),
        cmd(CommandType::SetRenderTarget(img), vec![]),
        cmd(CommandType::Stroke { params: 1 }, vec![]),
        cmd(CommandType::SetRenderTarget(RenderTarget::Screen), vec![]),
    ];
    let ops = plan_draws(&cmds, RenderTarget::Screen, &vec![], 1, 0, cfg(true));
    let blend = wgpu_blend(comp());
    assert_eq!(
        ops,
        vec![
            DrawOp::BeginPass(RenderTarget::Screen),
            DrawOp::SelectPipelines(blend),
            DrawOp::SelectPipelines(blend),
            DrawOp::Submit,
            DrawOp::BeginPass(img),
            DrawOp::SelectPipelines(blend),
            DrawOp::SetPipeline(PipelineKind::Stroke),
            DrawOp::BindUniforms { image: Some(ImageId(7)), alpha_mask: None, slot: 0, offset: 0 },
            DrawOp::PushViewSize,
            DrawOp::SelectPipelines(blend),
            DrawOp::Submit,
        ]
    );
}

#[test]
fn every_block_is_bound_once_in_order() {
    let cmds = vec![
        cmd(CommandType::ConvexFill { params: 1 }, vec![d(Some((0, 4)), None), d(Some((4, 3)), None)]),
        cmd(CommandType::ConcaveFill { stencil_params: 2, fill_params: 3 }, vec![d(Some((7, 5)), Some((12, 2)))]),
        cmd(CommandType::ClearRect { x: 0, y: 0, width: 1, height: 1, color: 0 }, vec![]),
        cmd(CommandType::SetRenderTarget(RenderTarget::Image(ImageId(1))), vec![]),
        cmd(CommandType::StencilStroke { params1: 4, params2: 5 }, vec![d(None, Some((0, 2)))]),
        cmd(CommandType::ClearRect { x: 0, y: 0, width: 1, height: 1, color: 1 }, vec![]),
        cmd(CommandType::Triangles { params: 6 }, vec![]),
    ];
    let out = prepare_buffers(&cmds);
    let ops = plan_draws(&cmds, RenderTarget::Screen, &out.index_ranges, out.uniforms.len(), out.clear_colors.len(), cfg(true));
    let mut uniform_slots = vec![];
    let mut range_slots = vec![];
    let mut clear_slots = vec![];
    let mut open = false;
    for op in &ops {
        match op {
            DrawOp::BeginPass(_) => {
                assert!(!open);
                open = true;
            }
            DrawOp::Submit => {
                assert!(open);
                open = false;
            }
            _ => assert!(open),
        }
        match op {
            DrawOp::BindUniforms { slot, offset, .. } => {
                assert_eq!(*offset as usize, slot * 256);
                uniform_slots.push(*slot);
            }
            DrawOp::DrawIndexed { slot, start, end } => {
                assert_eq!(out.index_ranges[*slot].start, *start);
                assert_eq!(out.index_ranges[*slot].end, *end);
                range_slots.push(*slot);
            }
            DrawOp::BindClearRect { slot, .. } => clear_slots.push(*slot),
            _ => {}
        }
    }
    assert!(!open);
    assert_eq!(uniform_slots, (0..out.uniforms.len()).collect::<Vec<_>>());
    assert_eq!(range_slots, (0..out.index_ranges.len()).collect::<Vec<_>>());
    assert_eq!(clear_slots, vec![0, 1]);
}
