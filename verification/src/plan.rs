use vstd::prelude::*;

use crate::blend::{spec_wgpu_blend, wgpu_blend, WGPUBlend};
use crate::command::{Command, CommandType, Drawable, FillRule, ImageId, RenderTarget};
use crate::indices::vert_range;
use crate::prepare::{
    cmd_clear_colors, cmd_fans, cmd_uniforms, drawable_fans, fan_ranges, fans_of, IndexRange,
    lemma_drawable_fans_add, lemma_take_push, uniforms_of, clear_colors_of,
};

verus! {

/// The render pipelines of one blend state and target format.
#[derive(Clone, Copy, Debug, PartialEq, Eq, Structural, Hash)]
pub enum PipelineKind {
    ConvexFillBuffer,
    ConvexStrokeBuffer,
    ConcaveFillVerts,
    ConcaveFringesNonZero,
    ConcaveFringesEvenOdd,
    ConcaveFillsNonZero,
    ConcaveFillsEvenOdd,
    Stroke,
    StencilStrokeBase,
    StencilStrokeAaPixels,
    StencilStrokeClearStencil,
    Triangles,
    ClearRect,
}

/// One step of recording a frame's render passes.
#[derive(Clone, Copy, Debug, PartialEq, Eq, Structural)]
pub enum DrawOp {
    /// Start a command encoder and a render pass on `target`, with the pass's viewport,
    /// vertex buffer, index buffer and a stencil reference of 0.
    BeginPass(RenderTarget),
    /// Look up (building if needed) the pipelines of this blend state for the pass's format.
    SelectPipelines(WGPUBlend),
    /// Set one of the selected pipelines.
    SetPipeline(PipelineKind),
    /// Push the pass's view size as the vertex push constant.
    PushViewSize,
    /// Bind the images' bind group with the uniform block `slot`, at byte `offset`.
    BindUniforms { image: Option<ImageId>, alpha_mask: Option<ImageId>, slot: usize, offset: u32 },
    /// Bind the clear-rect bind group with clear rect `slot`, at byte `offset`.
    BindClearRect { slot: usize, offset: u32 },
    /// Draw the indices `start .. end` of index range `slot`.
    DrawIndexed { slot: usize, start: u32, end: u32 },
    /// Draw the vertices `start .. end`.
    Draw { start: u32, end: u32 },
    /// Set the viewport to a rectangle.
    SetViewport { x: u32, y: u32, width: u32, height: u32 },
    /// Set the viewport back to the whole view.
    ResetViewport,
    /// End the pass and submit its encoder.
    Submit,
}

/// Settings of the recording.
#[derive(Clone, Copy, Debug)]
pub struct PlanConfig {
    pub antialias: bool,
    /// Byte size of one uniform block.
    pub uniform_stride: u32,
    /// Byte size of one clear rect.
    pub clear_rect_stride: u32,
}

/// The recording's position: the current target, whether a pass is open, and how many
/// uniform blocks, index ranges and clear rects were used.
#[derive(Clone, Copy, Debug)]
pub struct PlanState {
    pub target: RenderTarget,
    pub pass_open: bool,
    pub uniform_slot: usize,
    pub range_slot: usize,
    pub clear_slot: usize,
}

/// The recording's position before the first command.
pub open spec fn initial_state(target: RenderTarget) -> PlanState {
    PlanState { target, pass_open: false, uniform_slot: 0, range_slot: 0, clear_slot: 0 }
}

pub open spec fn vert_draw(v: (usize, usize)) -> DrawOp {
    DrawOp::Draw { start: v.0 as u32, end: (v.0 + v.1) as u32 }
}

pub open spec fn indexed_draw(slot: int, ranges: Seq<IndexRange>) -> DrawOp {
    DrawOp::DrawIndexed { slot: slot as usize, start: ranges[slot].start, end: ranges[slot].end }
}

pub open spec fn bind_uniforms<P, C>(cmd: Command<P, C>, slot: int, cfg: PlanConfig) -> DrawOp {
    DrawOp::BindUniforms {
        image: cmd.image,
        alpha_mask: cmd.alpha_mask,
        slot: slot as usize,
        offset: (slot * cfg.uniform_stride) as u32,
    }
}

/// The draws of the drawables' stroke strips.
pub open spec fn stroke_draws(ds: Seq<Drawable>) -> Seq<DrawOp>
    decreases ds.len(),
{
    if ds.len() == 0 {
        Seq::empty()
    } else {
        stroke_draws(ds.drop_last()) + match ds.last().stroke_verts {
            Some(v) => seq![vert_draw(v)],
            None => Seq::empty(),
        }
    }
}

/// The indexed draws of the drawables' fill fans; the first uses index range `r`.
pub open spec fn fill_draws(ds: Seq<Drawable>, r: int, ranges: Seq<IndexRange>) -> Seq<DrawOp>
    decreases ds.len(),
{
    if ds.len() == 0 {
        Seq::empty()
    } else {
        fill_draws(ds.drop_last(), r, ranges) + match ds.last().fill_verts {
            Some(_) => seq![indexed_draw(r + drawable_fans(ds.drop_last()).len(), ranges)],
            None => Seq::empty(),
        }
    }
}

/// The draws of a convex fill's drawables: each fan, then each stroke strip.
pub open spec fn convex_draws(ds: Seq<Drawable>, r: int, ranges: Seq<IndexRange>) -> Seq<DrawOp>
    decreases ds.len(),
{
    if ds.len() == 0 {
        Seq::empty()
    } else {
        convex_draws(ds.drop_last(), r, ranges) + seq![
            DrawOp::SetPipeline(PipelineKind::ConvexFillBuffer),
            DrawOp::PushViewSize,
        ] + match ds.last().fill_verts {
            Some(_) => seq![indexed_draw(r + drawable_fans(ds.drop_last()).len(), ranges)],
            None => Seq::empty(),
        } + match ds.last().stroke_verts {
            Some(v) => seq![DrawOp::SetPipeline(PipelineKind::ConvexStrokeBuffer), vert_draw(v)],
            None => Seq::empty(),
        }
    }
}

pub open spec fn triangle_draws(t: Option<(usize, usize)>) -> Seq<DrawOp> {
    match t {
        Some(v) => seq![vert_draw(v)],
        None => Seq::empty(),
    }
}

pub open spec fn fringes_pipeline(rule: FillRule) -> PipelineKind {
    match rule {
        FillRule::NonZero => PipelineKind::ConcaveFringesNonZero,
        FillRule::EvenOdd => PipelineKind::ConcaveFringesEvenOdd,
    }
}

pub open spec fn fills_pipeline(rule: FillRule) -> PipelineKind {
    match rule {
        FillRule::NonZero => PipelineKind::ConcaveFillsNonZero,
        FillRule::EvenOdd => PipelineKind::ConcaveFillsEvenOdd,
    }
}

/// The draw steps of a convex fill.
pub open spec fn convex_body<P, C>(cmd: Command<P, C>, u: int, r: int, ranges: Seq<IndexRange>, cfg: PlanConfig) -> Seq<DrawOp> {
    seq![DrawOp::SetPipeline(PipelineKind::ConvexFillBuffer), bind_uniforms(cmd, u, cfg)]
        + convex_draws(cmd.drawables@, r, ranges)
}

/// The draw steps of a concave fill: the fans into the stencil with no images, then the
/// fringes (when antialiased) and the covering triangles with the command's images.
pub open spec fn concave_body<P, C>(cmd: Command<P, C>, u: int, r: int, ranges: Seq<IndexRange>, cfg: PlanConfig) -> Seq<DrawOp> {
    seq![
        DrawOp::SetPipeline(PipelineKind::ConcaveFillVerts),
        DrawOp::PushViewSize,
        DrawOp::BindUniforms {
            image: None,
            alpha_mask: None,
            slot: u as usize,
            offset: (u * cfg.uniform_stride) as u32,
        },
    ] + fill_draws(cmd.drawables@, r, ranges) + seq![bind_uniforms(cmd, u + 1, cfg)] + (if cfg.antialias {
        seq![DrawOp::SetPipeline(fringes_pipeline(cmd.fill_rule))] + stroke_draws(cmd.drawables@)
    } else {
        Seq::empty()
    }) + seq![DrawOp::SetPipeline(fills_pipeline(cmd.fill_rule))] + triangle_draws(cmd.triangles_verts)
}

/// The draw steps of a stroke.
pub open spec fn stroke_body<P, C>(cmd: Command<P, C>, u: int, cfg: PlanConfig) -> Seq<DrawOp> {
    seq![
        DrawOp::SetPipeline(PipelineKind::Stroke),
        bind_uniforms(cmd, u, cfg),
        DrawOp::PushViewSize,
    ] + stroke_draws(cmd.drawables@)
}

/// The draw steps of a stencil stroke: the base, the antialiased pixels, then clearing
/// the stencil.
pub open spec fn stencil_stroke_body<P, C>(cmd: Command<P, C>, u: int, cfg: PlanConfig) -> Seq<DrawOp> {
    seq![
        DrawOp::SetPipeline(PipelineKind::StencilStrokeBase),
        bind_uniforms(cmd, u, cfg),
        DrawOp::PushViewSize,
    ] + stroke_draws(cmd.drawables@) + seq![
        DrawOp::SetPipeline(PipelineKind::StencilStrokeAaPixels),
        bind_uniforms(cmd, u + 1, cfg),
    ] + stroke_draws(cmd.drawables@) + seq![DrawOp::SetPipeline(PipelineKind::StencilStrokeClearStencil)]
        + stroke_draws(cmd.drawables@)
}

/// The draw steps of a triangle list.
pub open spec fn triangles_body<P, C>(cmd: Command<P, C>, u: int, cfg: PlanConfig) -> Seq<DrawOp> {
    seq![
        DrawOp::SetPipeline(PipelineKind::Triangles),
        DrawOp::PushViewSize,
        bind_uniforms(cmd, u, cfg),
    ] + triangle_draws(cmd.triangles_verts)
}

/// The draw steps of one command, after its pipelines are selected.
pub open spec fn cmd_body<P, C>(
    cmd: Command<P, C>,
    st: PlanState,
    ranges: Seq<IndexRange>,
    cfg: PlanConfig,
) -> Seq<DrawOp> {
    let u = st.uniform_slot as int;
    let r = st.range_slot as int;
    match cmd.cmd_type {
        CommandType::ConvexFill { .. } => convex_body(cmd, u, r, ranges, cfg),
        CommandType::ConcaveFill { .. } => concave_body(cmd, u, r, ranges, cfg),
        CommandType::Stroke { .. } => stroke_body(cmd, u, cfg),
        CommandType::StencilStroke { .. } => stencil_stroke_body(cmd, u, cfg),
        CommandType::Triangles { .. } => triangles_body(cmd, u, cfg),
        CommandType::ClearRect { x, y, width, height, .. } => seq![
            DrawOp::SetPipeline(PipelineKind::ClearRect),
            DrawOp::BindClearRect {
                slot: st.clear_slot,
                offset: (st.clear_slot * cfg.clear_rect_stride) as u32,
            },
            DrawOp::SetViewport { x, y, width, height },
            DrawOp::Draw { start: 0, end: 4 },
            DrawOp::ResetViewport,
        ],
        CommandType::SetRenderTarget(t) => if t != st.target {
            seq![DrawOp::Submit]
        } else {
            Seq::empty()
        },
    }
}

/// All steps of one command: open a pass if none is open, select the pipelines of the
/// command's blend state, then draw.
pub open spec fn cmd_ops<P, C>(
    cmd: Command<P, C>,
    st: PlanState,
    ranges: Seq<IndexRange>,
    cfg: PlanConfig,
) -> Seq<DrawOp> {
    (if st.pass_open {
        Seq::empty()
    } else {
        seq![DrawOp::BeginPass(st.target)]
    }) + seq![DrawOp::SelectPipelines(spec_wgpu_blend(cmd.composite_operation))] + cmd_body(
        cmd,
        st,
        ranges,
        cfg,
    )
}

/// The recording's position after one command.
pub open spec fn cmd_next<P, C>(cmd: Command<P, C>, st: PlanState) -> PlanState {
    let (target, pass_open) = match cmd.cmd_type {
        CommandType::SetRenderTarget(t) => if t != st.target {
            (t, false)
        } else {
            (st.target, true)
        },
        _ => (st.target, true),
    };
    PlanState {
        target,
        pass_open,
        uniform_slot: (st.uniform_slot + cmd_uniforms(cmd.cmd_type).len()) as usize,
        range_slot: (st.range_slot + cmd_fans(cmd).len()) as usize,
        clear_slot: (st.clear_slot + cmd_clear_colors(cmd.cmd_type).len()) as usize,
    }
}

/// The recording's position after a list of commands.
pub open spec fn plan_state<P, C>(cmds: Seq<Command<P, C>>, st0: PlanState) -> PlanState
    decreases cmds.len(),
{
    if cmds.len() == 0 {
        st0
    } else {
        cmd_next(cmds.last(), plan_state(cmds.drop_last(), st0))
    }
}

/// The steps of a list of commands.
pub open spec fn plan_ops<P, C>(
    cmds: Seq<Command<P, C>>,
    st0: PlanState,
    ranges: Seq<IndexRange>,
    cfg: PlanConfig,
) -> Seq<DrawOp>
    decreases cmds.len(),
{
    if cmds.len() == 0 {
        Seq::empty()
    } else {
        plan_ops(cmds.drop_last(), st0, ranges, cfg) + cmd_ops(
            cmds.last(),
            plan_state(cmds.drop_last(), st0),
            ranges,
            cfg,
        )
    }
}

/// The steps of a whole frame: those of its commands, and a last submit if a pass is open.
pub open spec fn render_plan<P, C>(
    cmds: Seq<Command<P, C>>,
    target: RenderTarget,
    ranges: Seq<IndexRange>,
    cfg: PlanConfig,
) -> Seq<DrawOp> {
    plan_ops(cmds, initial_state(target), ranges, cfg) + if plan_state(
        cmds,
        initial_state(target),
    ).pass_open {
        seq![DrawOp::Submit]
    } else {
        Seq::empty()
    }
}

/// Whether a command draws its stroke strips.
pub open spec fn strokes_drawn<P, C>(t: CommandType<P, C>, antialias: bool) -> bool {
    t is ConvexFill || (t is ConcaveFill && antialias) || t is Stroke || t is StencilStroke
}

/// Whether a command draws its triangle vertices.
pub open spec fn triangles_drawn<P, C>(t: CommandType<P, C>) -> bool {
    t is ConcaveFill || t is Triangles
}

pub open spec fn verts_ok(v: Option<(usize, usize)>) -> bool {
    v matches Some(p) ==> p.0 + p.1 <= usize::MAX
}

pub open spec fn strokes_ok(ds: Seq<Drawable>) -> bool {
    forall|j: int| 0 <= j < ds.len() ==> verts_ok(#[trigger] ds[j].stroke_verts)
}

/// The vertex ranges that a command draws do not overflow.
pub open spec fn cmd_verts_ok<P, C>(cmd: Command<P, C>, antialias: bool) -> bool {
    &&& strokes_drawn(cmd.cmd_type, antialias) ==> strokes_ok(cmd.drawables@)
    &&& triangles_drawn(cmd.cmd_type) ==> verts_ok(cmd.triangles_verts)
}

/// What recording asks of a frame: drawn vertex ranges fit, the index ranges are those of
/// the frame's fans, and every uniform and clear-rect offset fits in `u32`.
pub open spec fn plan_ok<P, C>(
    cmds: Seq<Command<P, C>>,
    ranges: Seq<IndexRange>,
    n_uniforms: int,
    n_clear_rects: int,
    cfg: PlanConfig,
) -> bool {
    &&& forall|i: int| 0 <= i < cmds.len() ==> cmd_verts_ok(#[trigger] cmds[i], cfg.antialias)
    &&& ranges.len() == fans_of(cmds).len()
    &&& n_uniforms == uniforms_of(cmds).len()
    &&& n_clear_rects == clear_colors_of(cmds).len()
    &&& n_uniforms * cfg.uniform_stride <= u32::MAX
    &&& n_clear_rects * cfg.clear_rect_stride <= u32::MAX
}

// ---- counting lemmas ----

pub proof fn lemma_uniforms_of_add<P, C>(a: Seq<Command<P, C>>, b: Seq<Command<P, C>>)
    ensures
        uniforms_of(a + b) == uniforms_of(a) + uniforms_of(b),
    decreases b.len(),
{
    if b.len() == 0 {
        assert(a + b =~= a);
        assert(uniforms_of(a) + uniforms_of(b) =~= uniforms_of(a));
    } else {
        assert((a + b).drop_last() =~= a + b.drop_last());
        lemma_uniforms_of_add(a, b.drop_last());
        assert((a + b).last() == b.last());
        assert(uniforms_of(a + b) =~= uniforms_of(a) + uniforms_of(b));
    }
}

pub proof fn lemma_clear_colors_of_add<P, C>(a: Seq<Command<P, C>>, b: Seq<Command<P, C>>)
    ensures
        clear_colors_of(a + b) == clear_colors_of(a) + clear_colors_of(b),
    decreases b.len(),
{
    if b.len() == 0 {
        assert(a + b =~= a);
        assert(clear_colors_of(a) + clear_colors_of(b) =~= clear_colors_of(a));
    } else {
        assert((a + b).drop_last() =~= a + b.drop_last());
        lemma_clear_colors_of_add(a, b.drop_last());
        assert((a + b).last() == b.last());
        assert(clear_colors_of(a + b) =~= clear_colors_of(a) + clear_colors_of(b));
    }
}

/// The counters of the position after a prefix count what the prefix used.
pub proof fn lemma_plan_state_counts<P, C>(cmds: Seq<Command<P, C>>, target: RenderTarget)
    requires
        uniforms_of(cmds).len() <= usize::MAX,
        fans_of(cmds).len() <= usize::MAX,
        clear_colors_of(cmds).len() <= usize::MAX,
    ensures
        plan_state(cmds, initial_state(target)).uniform_slot == uniforms_of(cmds).len(),
        plan_state(cmds, initial_state(target)).range_slot == fans_of(cmds).len(),
        plan_state(cmds, initial_state(target)).clear_slot == clear_colors_of(cmds).len(),
    decreases cmds.len(),
{
    if cmds.len() > 0 {
        lemma_plan_state_counts(cmds.drop_last(), target);
    }
}

/// Taking a prefix of the commands takes a prefix of their uniforms, fans and clear rects.
pub proof fn lemma_prefix_counts<P, C>(cmds: Seq<Command<P, C>>, i: int)
    requires
        0 <= i < cmds.len(),
    ensures
        uniforms_of(cmds.take(i)).len() + cmd_uniforms(cmds[i].cmd_type).len()
            <= uniforms_of(cmds).len(),
        fans_of(cmds.take(i)).len() + cmd_fans(cmds[i]).len() <= fans_of(cmds).len(),
        clear_colors_of(cmds.take(i)).len() + cmd_clear_colors(cmds[i].cmd_type).len()
            <= clear_colors_of(cmds).len(),
{
    assert(cmds =~= cmds.take(i + 1) + cmds.skip(i + 1));
    lemma_take_push(cmds, i);
    lemma_uniforms_of_add(cmds.take(i + 1), cmds.skip(i + 1));
    crate::prepare::lemma_fans_of_add(cmds.take(i + 1), cmds.skip(i + 1));
    lemma_clear_colors_of_add(cmds.take(i + 1), cmds.skip(i + 1));
}

// ---- recording ----

/// The byte offset of block `slot` when each block takes `stride` bytes.
fn slot_offset(slot: usize, stride: u32) -> (offset: u32)
    requires
        slot * stride <= u32::MAX,
    ensures
        offset == slot * stride,
{
    if stride == 0 {
        0
    } else {
        assert(slot <= u32::MAX) by (nonlinear_arith)
            requires
                slot * stride <= u32::MAX,
                stride >= 1,
        ;
        (slot as u32) * stride
    }
}

fn push_stroke_draws(ops: &mut Vec<DrawOp>, ds: &Vec<Drawable>)
    requires
        strokes_ok(ds@),
    ensures
        final(ops)@ == old(ops)@ + stroke_draws(ds@),
{
    let ghost start = ops@;
    let n = ds.len();
    let mut j: usize = 0;
    assert(ds@.take(0) =~= Seq::<Drawable>::empty());
    assert(start + stroke_draws(ds@.take(0)) =~= start);
    while j < n
        invariant
            n == ds@.len(),
            0 <= j <= n,
            strokes_ok(ds@),
            ops@ == start + stroke_draws(ds@.take(j as int)),
        decreases n - j,
    {
        proof {
            lemma_take_push(ds@, j as int);
        }
        let d = ds[j];
        match d.stroke_verts {
            Some((s, c)) => {
                assert(verts_ok(ds@[j as int].stroke_verts));
                let r = vert_range(s, c);
                ops.push(DrawOp::Draw { start: r.start, end: r.end });
            },
            None => {},
        }
        proof {
            assert(ops@ =~= start + stroke_draws(ds@.take(j as int + 1)));
        }
        j = j + 1;
    }
    assert(ds@.take(n as int) =~= ds@);
}

fn push_fill_draws(ops: &mut Vec<DrawOp>, ds: &Vec<Drawable>, r: usize, ranges: &Vec<IndexRange>) -> (r_next: usize)
    requires
        r + drawable_fans(ds@).len() <= ranges@.len(),
    ensures
        final(ops)@ == old(ops)@ + fill_draws(ds@, r as int, ranges@),
        r_next == r + drawable_fans(ds@).len(),
{
    let ghost start = ops@;
    let n = ds.len();
    let mut j: usize = 0;
    let mut slot: usize = r;
    assert(ds@.take(0) =~= Seq::<Drawable>::empty());
    assert(start + fill_draws(ds@.take(0), r as int, ranges@) =~= start);
    while j < n
        invariant
            n == ds@.len(),
            0 <= j <= n,
            r + drawable_fans(ds@).len() <= ranges@.len(),
            slot == r + drawable_fans(ds@.take(j as int)).len(),
            ops@ == start + fill_draws(ds@.take(j as int), r as int, ranges@),
        decreases n - j,
    {
        proof {
            lemma_take_push(ds@, j as int);
            assert(ds@ =~= ds@.take(j as int + 1) + ds@.skip(j as int + 1));
            lemma_drawable_fans_add(ds@.take(j as int + 1), ds@.skip(j as int + 1));
        }
        let d = ds[j];
        match d.fill_verts {
            Some(_) => {
                assert(drawable_fans(ds@.take(j as int + 1)) =~= drawable_fans(ds@.take(j as int)).push(
                    ds@[j as int].fill_verts->0,
                ));
                assert(slot + 1 <= ranges@.len());
                assert(ranges@.len() == ranges.len());
                let range = ranges[slot];
                ops.push(DrawOp::DrawIndexed { slot, start: range.start, end: range.end });
                slot = slot + 1;
            },
            None => {},
        }
        proof {
            assert(ops@ =~= start + fill_draws(ds@.take(j as int + 1), r as int, ranges@));
        }
        j = j + 1;
    }
    assert(ds@.take(n as int) =~= ds@);
    slot
}

fn push_convex_draws(ops: &mut Vec<DrawOp>, ds: &Vec<Drawable>, r: usize, ranges: &Vec<IndexRange>) -> (r_next: usize)
    requires
        r + drawable_fans(ds@).len() <= ranges@.len(),
        strokes_ok(ds@),
    ensures
        final(ops)@ == old(ops)@ + convex_draws(ds@, r as int, ranges@),
        r_next == r + drawable_fans(ds@).len(),
{
    let ghost start = ops@;
    let n = ds.len();
    let mut j: usize = 0;
    let mut slot: usize = r;
    assert(ds@.take(0) =~= Seq::<Drawable>::empty());
    assert(start + convex_draws(ds@.take(0), r as int, ranges@) =~= start);
    while j < n
        invariant
            n == ds@.len(),
            0 <= j <= n,
            strokes_ok(ds@),
            r + drawable_fans(ds@).len() <= ranges@.len(),
            slot == r + drawable_fans(ds@.take(j as int)).len(),
            ops@ == start + convex_draws(ds@.take(j as int), r as int, ranges@),
        decreases n - j,
    {
        proof {
            lemma_take_push(ds@, j as int);
            assert(ds@ =~= ds@.take(j as int + 1) + ds@.skip(j as int + 1));
            lemma_drawable_fans_add(ds@.take(j as int + 1), ds@.skip(j as int + 1));
        }
        let d = ds[j];
        ops.push(DrawOp::SetPipeline(PipelineKind::ConvexFillBuffer));
        ops.push(DrawOp::PushViewSize);
        match d.fill_verts {
            Some(_) => {
                assert(drawable_fans(ds@.take(j as int + 1)) =~= drawable_fans(ds@.take(j as int)).push(
                    ds@[j as int].fill_verts->0,
                ));
                assert(slot + 1 <= ranges@.len());
                assert(ranges@.len() == ranges.len());
                let range = ranges[slot];
                ops.push(DrawOp::DrawIndexed { slot, start: range.start, end: range.end });
                slot = slot + 1;
            },
            None => {},
        }
        match d.stroke_verts {
            Some((s, c)) => {
                assert(verts_ok(ds@[j as int].stroke_verts));
                ops.push(DrawOp::SetPipeline(PipelineKind::ConvexStrokeBuffer));
                let vr = vert_range(s, c);
                ops.push(DrawOp::Draw { start: vr.start, end: vr.end });
            },
            None => {},
        }
        proof {
            assert(ops@ =~= start + convex_draws(ds@.take(j as int + 1), r as int, ranges@));
        }
        j = j + 1;
    }
    assert(ds@.take(n as int) =~= ds@);
    slot
}

fn push_triangle_draws(ops: &mut Vec<DrawOp>, t: Option<(usize, usize)>)
    requires
        verts_ok(t),
    ensures
        final(ops)@ == old(ops)@ + triangle_draws(t),
{
    match t {
        Some((s, c)) => {
            let vr = vert_range(s, c);
            ops.push(DrawOp::Draw { start: vr.start, end: vr.end });
        },
        None => {},
    }
    assert(ops@ =~= old(ops)@ + triangle_draws(t));
}

/// What each per-kind recorder of a command asks.
pub open spec fn cmd_fits<P, C>(cmd: Command<P, C>, st: PlanState, ranges: Seq<IndexRange>, cfg: PlanConfig) -> bool {
    &&& cmd_verts_ok(cmd, cfg.antialias)
    &&& st.range_slot + cmd_fans(cmd).len() <= ranges.len()
    &&& st.uniform_slot + cmd_uniforms(cmd.cmd_type).len() <= usize::MAX
    &&& (st.uniform_slot + cmd_uniforms(cmd.cmd_type).len()) * cfg.uniform_stride <= u32::MAX
    &&& st.clear_slot + cmd_clear_colors(cmd.cmd_type).len() <= usize::MAX
    &&& (st.clear_slot + cmd_clear_colors(cmd.cmd_type).len()) * cfg.clear_rect_stride <= u32::MAX
}

/// The position after a command's body, before any target switch.
pub open spec fn body_next<P, C>(cmd: Command<P, C>, st: PlanState) -> PlanState {
    PlanState { pass_open: true, ..cmd_next(cmd, st) }
}

fn plan_convex<P: Copy, C: Copy>(ops: &mut Vec<DrawOp>, cmd: &Command<P, C>, st: PlanState, ranges: &Vec<IndexRange>, cfg: PlanConfig) -> (next: PlanState)
    requires
        cmd.cmd_type is ConvexFill,
        cmd_fits(*cmd, st, ranges@, cfg),
    ensures
        final(ops)@ == old(ops)@ + convex_body(*cmd, st.uniform_slot as int, st.range_slot as int, ranges@, cfg),
        next == body_next(*cmd, st),
{
    let u = st.uniform_slot;
    let us = cfg.uniform_stride;
    assert(u * us <= u32::MAX) by (nonlinear_arith)
        requires
            (u + 1) * us <= u32::MAX,
    ;
    ops.push(DrawOp::SetPipeline(PipelineKind::ConvexFillBuffer));
    ops.push(
        DrawOp::BindUniforms {
            image: cmd.image,
            alpha_mask: cmd.alpha_mask,
            slot: u,
            offset: slot_offset(u, us),
        },
    );
    let r = push_convex_draws(ops, &cmd.drawables, st.range_slot, ranges);
    assert(ops@ =~= old(ops)@ + convex_body(*cmd, st.uniform_slot as int, st.range_slot as int, ranges@, cfg));
    PlanState { target: st.target, pass_open: true, uniform_slot: u + 1, range_slot: r, clear_slot: st.clear_slot }
}

fn plan_concave<P: Copy, C: Copy>(ops: &mut Vec<DrawOp>, cmd: &Command<P, C>, st: PlanState, ranges: &Vec<IndexRange>, cfg: PlanConfig) -> (next: PlanState)
    requires
        cmd.cmd_type is ConcaveFill,
        cmd_fits(*cmd, st, ranges@, cfg),
    ensures
        final(ops)@ == old(ops)@ + concave_body(*cmd, st.uniform_slot as int, st.range_slot as int, ranges@, cfg),
        next == body_next(*cmd, st),
{
    let u = st.uniform_slot;
    let us = cfg.uniform_stride;
    assert(u * us <= u32::MAX && (u + 1) * us <= u32::MAX) by (nonlinear_arith)
        requires
            (u + 2) * us <= u32::MAX,
    ;
    ops.push(DrawOp::SetPipeline(PipelineKind::ConcaveFillVerts));
    ops.push(DrawOp::PushViewSize);
    ops.push(DrawOp::BindUniforms { image: None, alpha_mask: None, slot: u, offset: slot_offset(u, us) });
    let r = push_fill_draws(ops, &cmd.drawables, st.range_slot, ranges);
    ops.push(
        DrawOp::BindUniforms {
            image: cmd.image,
            alpha_mask: cmd.alpha_mask,
            slot: u + 1,
            offset: slot_offset(u + 1, us),
        },
    );
    let ghost mid = ops@;
    if cfg.antialias {
        match cmd.fill_rule {
            FillRule::NonZero => {
                ops.push(DrawOp::SetPipeline(PipelineKind::ConcaveFringesNonZero));
            },
            FillRule::EvenOdd => {
                ops.push(DrawOp::SetPipeline(PipelineKind::ConcaveFringesEvenOdd));
            },
        }
        push_stroke_draws(ops, &cmd.drawables);
    }
    match cmd.fill_rule {
        FillRule::NonZero => {
            ops.push(DrawOp::SetPipeline(PipelineKind::ConcaveFillsNonZero));
        },
        FillRule::EvenOdd => {
            ops.push(DrawOp::SetPipeline(PipelineKind::ConcaveFillsEvenOdd));
        },
    }
    push_triangle_draws(ops, cmd.triangles_verts);
    assert(ops@ =~= old(ops)@ + concave_body(*cmd, st.uniform_slot as int, st.range_slot as int, ranges@, cfg));
    PlanState { target: st.target, pass_open: true, uniform_slot: u + 2, range_slot: r, clear_slot: st.clear_slot }
}

fn plan_stroke<P: Copy, C: Copy>(ops: &mut Vec<DrawOp>, cmd: &Command<P, C>, st: PlanState, ranges: &Vec<IndexRange>, cfg: PlanConfig) -> (next: PlanState)
    requires
        cmd.cmd_type is Stroke,
        cmd_fits(*cmd, st, ranges@, cfg),
    ensures
        final(ops)@ == old(ops)@ + stroke_body(*cmd, st.uniform_slot as int, cfg),
        next == body_next(*cmd, st),
{
    let u = st.uniform_slot;
    let us = cfg.uniform_stride;
    assert(u * us <= u32::MAX) by (nonlinear_arith)
        requires
            (u + 1) * us <= u32::MAX,
    ;
    ops.push(DrawOp::SetPipeline(PipelineKind::Stroke));
    ops.push(
        DrawOp::BindUniforms {
            image: cmd.image,
            alpha_mask: cmd.alpha_mask,
            slot: u,
            offset: slot_offset(u, us),
        },
    );
    ops.push(DrawOp::PushViewSize);
    push_stroke_draws(ops, &cmd.drawables);
    assert(ops@ =~= old(ops)@ + stroke_body(*cmd, st.uniform_slot as int, cfg));
    PlanState { target: st.target, pass_open: true, uniform_slot: u + 1, range_slot: st.range_slot, clear_slot: st.clear_slot }
}

fn plan_stencil_stroke<P: Copy, C: Copy>(ops: &mut Vec<DrawOp>, cmd: &Command<P, C>, st: PlanState, ranges: &Vec<IndexRange>, cfg: PlanConfig) -> (next: PlanState)
    requires
        cmd.cmd_type is StencilStroke,
        cmd_fits(*cmd, st, ranges@, cfg),
    ensures
        final(ops)@ == old(ops)@ + stencil_stroke_body(*cmd, st.uniform_slot as int, cfg),
        next == body_next(*cmd, st),
{
    let u = st.uniform_slot;
    let us = cfg.uniform_stride;
    assert(u * us <= u32::MAX && (u + 1) * us <= u32::MAX) by (nonlinear_arith)
        requires
            (u + 2) * us <= u32::MAX,
    ;
    ops.push(DrawOp::SetPipeline(PipelineKind::StencilStrokeBase));
    ops.push(
        DrawOp::BindUniforms {
            image: cmd.image,
            alpha_mask: cmd.alpha_mask,
            slot: u,
            offset: slot_offset(u, us),
        },
    );
    ops.push(DrawOp::PushViewSize);
    push_stroke_draws(ops, &cmd.drawables);
    ops.push(DrawOp::SetPipeline(PipelineKind::StencilStrokeAaPixels));
    ops.push(
        DrawOp::BindUniforms {
            image: cmd.image,
            alpha_mask: cmd.alpha_mask,
            slot: u + 1,
            offset: slot_offset(u + 1, us),
        },
    );
    push_stroke_draws(ops, &cmd.drawables);
    ops.push(DrawOp::SetPipeline(PipelineKind::StencilStrokeClearStencil));
    push_stroke_draws(ops, &cmd.drawables);
    assert(ops@ =~= old(ops)@ + stencil_stroke_body(*cmd, st.uniform_slot as int, cfg));
    PlanState { target: st.target, pass_open: true, uniform_slot: u + 2, range_slot: st.range_slot, clear_slot: st.clear_slot }
}

fn plan_triangles<P: Copy, C: Copy>(ops: &mut Vec<DrawOp>, cmd: &Command<P, C>, st: PlanState, ranges: &Vec<IndexRange>, cfg: PlanConfig) -> (next: PlanState)
    requires
        cmd.cmd_type is Triangles,
        cmd_fits(*cmd, st, ranges@, cfg),
    ensures
        final(ops)@ == old(ops)@ + triangles_body(*cmd, st.uniform_slot as int, cfg),
        next == body_next(*cmd, st),
{
    let u = st.uniform_slot;
    let us = cfg.uniform_stride;
    assert(u * us <= u32::MAX) by (nonlinear_arith)
        requires
            (u + 1) * us <= u32::MAX,
    ;
    ops.push(DrawOp::SetPipeline(PipelineKind::Triangles));
    ops.push(DrawOp::PushViewSize);
    ops.push(
        DrawOp::BindUniforms {
            image: cmd.image,
            alpha_mask: cmd.alpha_mask,
            slot: u,
            offset: slot_offset(u, us),
        },
    );
    push_triangle_draws(ops, cmd.triangles_verts);
    assert(ops@ =~= old(ops)@ + triangles_body(*cmd, st.uniform_slot as int, cfg));
    PlanState { target: st.target, pass_open: true, uniform_slot: u + 1, range_slot: st.range_slot, clear_slot: st.clear_slot }
}

/// Records the steps of one command at position `st`, and returns the position after it.
fn plan_command<P: Copy, C: Copy>(
    ops: &mut Vec<DrawOp>,
    cmd: &Command<P, C>,
    st: PlanState,
    ranges: &Vec<IndexRange>,
    cfg: PlanConfig,
) -> (next: PlanState)
    requires
        cmd_fits(*cmd, st, ranges@, cfg),
    ensures
        final(ops)@ == old(ops)@ + cmd_ops(*cmd, st, ranges@, cfg),
        next == cmd_next(*cmd, st),
{
    if !st.pass_open {
        ops.push(DrawOp::BeginPass(st.target));
    }
    ops.push(DrawOp::SelectPipelines(wgpu_blend(cmd.composite_operation)));
    let ghost head = ops@;
    let next = match &cmd.cmd_type {
        CommandType::ConvexFill { .. } => plan_convex(ops, cmd, st, ranges, cfg),
        CommandType::ConcaveFill { .. } => plan_concave(ops, cmd, st, ranges, cfg),
        CommandType::Stroke { .. } => plan_stroke(ops, cmd, st, ranges, cfg),
        CommandType::StencilStroke { .. } => plan_stencil_stroke(ops, cmd, st, ranges, cfg),
        CommandType::Triangles { .. } => plan_triangles(ops, cmd, st, ranges, cfg),
        CommandType::ClearRect { x, y, width, height, .. } => {
            let c = st.clear_slot;
            let cs = cfg.clear_rect_stride;
            assert(c * cs <= u32::MAX) by (nonlinear_arith)
                requires
                    (c + 1) * cs <= u32::MAX,
            ;
            ops.push(DrawOp::SetPipeline(PipelineKind::ClearRect));
            ops.push(DrawOp::BindClearRect { slot: c, offset: slot_offset(c, cs) });
            ops.push(DrawOp::SetViewport { x: *x, y: *y, width: *width, height: *height });
            ops.push(DrawOp::Draw { start: 0, end: 4 });
            ops.push(DrawOp::ResetViewport);
            assert(ops@ =~= head + cmd_body(*cmd, st, ranges@, cfg));
            PlanState { target: st.target, pass_open: true, uniform_slot: st.uniform_slot, range_slot: st.range_slot, clear_slot: c + 1 }
        },
        CommandType::SetRenderTarget(t) => {
            if *t != st.target {
                ops.push(DrawOp::Submit);
                assert(ops@ =~= head + cmd_body(*cmd, st, ranges@, cfg));
                PlanState { target: *t, pass_open: false, ..st }
            } else {
                assert(ops@ =~= head + cmd_body(*cmd, st, ranges@, cfg));
                PlanState { pass_open: true, ..st }
            }
        },
    };
    assert(ops@ =~= old(ops)@ + cmd_ops(*cmd, st, ranges@, cfg));
    next
}

/// Plans the render passes of a frame: which passes to open on which targets, which
/// pipelines, uniform blocks and clear rects to bind, and which vertices and index ranges
/// to draw, in the order the GPU commands are recorded.
pub fn plan_draws<P: Copy, C: Copy>(
    commands: &[Command<P, C>],
    initial_target: RenderTarget,
    index_ranges: &Vec<IndexRange>,
    n_uniforms: usize,
    n_clear_rects: usize,
    cfg: PlanConfig,
) -> (ops: Vec<DrawOp>)
    requires
        plan_ok(commands@, index_ranges@, n_uniforms as int, n_clear_rects as int, cfg),
    ensures
        ops@ == render_plan(commands@, initial_target, index_ranges@, cfg),
{
    let mut ops: Vec<DrawOp> = Vec::new();
    let mut st = PlanState {
        target: initial_target,
        pass_open: false,
        uniform_slot: 0,
        range_slot: 0,
        clear_slot: 0,
    };
    let n = commands.len();
    let mut i: usize = 0;
    assert(commands@.take(0) =~= Seq::<Command<P, C>>::empty());
    while i < n
        invariant
            n == commands@.len(),
            0 <= i <= n,
            plan_ok(commands@, index_ranges@, n_uniforms as int, n_clear_rects as int, cfg),
            st == plan_state(commands@.take(i as int), initial_state(initial_target)),
            ops@ == plan_ops(commands@.take(i as int), initial_state(initial_target), index_ranges@, cfg),
        decreases n - i,
    {
        proof {
            lemma_take_push(commands@, i as int);
            lemma_prefix_counts(commands@, i as int);
            assert(index_ranges@.len() == index_ranges.len());
            lemma_plan_state_counts(commands@.take(i as int), initial_target);
            let k = uniforms_of(commands@.take(i as int)).len() + cmd_uniforms(commands@[i as int].cmd_type).len();
            let cs = cfg.clear_rect_stride;
            let us = cfg.uniform_stride;
            assert(k * us <= n_uniforms * us) by (nonlinear_arith)
                requires k <= n_uniforms;
            let kc = clear_colors_of(commands@.take(i as int)).len() + cmd_clear_colors(commands@[i as int].cmd_type).len();
            assert(kc * cs <= n_clear_rects * cs) by (nonlinear_arith)
                requires kc <= n_clear_rects;
            assert(cmd_verts_ok(commands@[i as int], cfg.antialias));
        }
        st = plan_command(&mut ops, &commands[i], st, index_ranges, cfg);
        i = i + 1;
    }
    proof {
        assert(commands@.take(n as int) =~= commands@);
    }
    if st.pass_open {
        ops.push(DrawOp::Submit);
    }
    proof {
        assert(ops@ =~= render_plan(commands@, initial_target, index_ranges@, cfg));
    }
    ops
}

} // verus!
