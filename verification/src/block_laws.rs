use vstd::prelude::*;

use crate::command::{Command, CommandType, FillRule, ImageId, RenderTarget};
use crate::plan::{
    DrawOp, PipelineKind, PlanConfig, PlanState, cmd_ops, fill_draws, initial_state, plan_ops,
    plan_state, render_plan, stroke_draws, triangle_draws, convex_draws,
};
use crate::prepare::{IndexRange, cmd_clear_colors, cmd_uniforms, uniforms_of, clear_colors_of, fans_of};

verus! {

/// Whether `op` binds, for the images `image` and `alpha`, a uniform block of `blocks` that
/// holds `p`.
pub open spec fn binds<P>(op: DrawOp, blocks: Seq<P>, image: Option<ImageId>, alpha: Option<ImageId>, p: P) -> bool {
    op matches DrawOp::BindUniforms { image: im, alpha_mask: am, slot, .. } && im == image && am == alpha
        && slot < blocks.len() && blocks[slot as int] == p
}

/// Some step of `ops` sets the pipeline `kind` and is followed by the binding of a block
/// holding `p` for the images, the step in between (if `d` is 2) only pushing the view
/// size.
pub open spec fn binds_after<P>(
    ops: Seq<DrawOp>,
    blocks: Seq<P>,
    kind: PipelineKind,
    d: int,
    image: Option<ImageId>,
    alpha: Option<ImageId>,
    p: P,
) -> bool {
    exists|j: int|
        0 <= j && j + d < ops.len() && #[trigger] ops[j] == DrawOp::SetPipeline(kind) && (d == 2 ==> ops[j + 1]
            == DrawOp::PushViewSize) && binds(ops[j + d], blocks, image, alpha, p)
}

/// Some step of `ops` binds a block holding `p` for the images, and a later step sets the
/// pipeline `kind` with no binding in between: the pipeline draws with that block.
pub open spec fn draws_with<P>(
    ops: Seq<DrawOp>,
    blocks: Seq<P>,
    kind: PipelineKind,
    image: Option<ImageId>,
    alpha: Option<ImageId>,
    p: P,
) -> bool {
    exists|j: int, m: int|
        #![trigger ops[j], ops[m]]
        0 <= j < m < ops.len() && binds(ops[j], blocks, image, alpha, p) && ops[m] == DrawOp::SetPipeline(kind)
            && forall|e: int| j < e < m ==> !(#[trigger] ops[e] is BindUniforms)
}

/// Some step of `ops` sets the clear-rect pipeline, then binds a clear rect holding
/// `color`, sets the viewport to the rectangle, draws its four corners and resets the
/// viewport.
pub open spec fn clears_rect<C>(ops: Seq<DrawOp>, clears: Seq<C>, x: u32, y: u32, width: u32, height: u32, color: C) -> bool {
    exists|j: int|
        0 <= j && j + 4 < ops.len() && #[trigger] ops[j] == DrawOp::SetPipeline(PipelineKind::ClearRect) && (ops[j
            + 1] matches DrawOp::BindClearRect { slot, .. } && slot < clears.len() && clears[slot as int] == color)
            && ops[j + 2] == (DrawOp::SetViewport { x, y, width, height }) && ops[j + 3] == (DrawOp::Draw {
            start: 0,
            end: 4,
        }) && ops[j + 4] == DrawOp::ResetViewport
}

/// What each command's pipelines draw with, given the uniform blocks `blocks` and the
/// clear rects `clears`.
pub open spec fn draws_its_blocks<P, C>(ops: Seq<DrawOp>, blocks: Seq<P>, clears: Seq<C>, cmd: Command<P, C>, antialias: bool) -> bool {
    let im = cmd.image;
    let am = cmd.alpha_mask;
    match cmd.cmd_type {
        CommandType::ConvexFill { params } => binds_after(ops, blocks, PipelineKind::ConvexFillBuffer, 1, im, am, params),
        CommandType::Stroke { params } => binds_after(ops, blocks, PipelineKind::Stroke, 1, im, am, params),
        CommandType::Triangles { params } => binds_after(ops, blocks, PipelineKind::Triangles, 2, im, am, params),
        CommandType::StencilStroke { params1, params2 } => {
            &&& binds_after(ops, blocks, PipelineKind::StencilStrokeBase, 1, im, am, params2)
            &&& binds_after(ops, blocks, PipelineKind::StencilStrokeAaPixels, 1, im, am, params1)
        },
        CommandType::ConcaveFill { stencil_params, fill_params } => {
            &&& binds_after(ops, blocks, PipelineKind::ConcaveFillVerts, 2, None, None, stencil_params)
            &&& cmd.fill_rule == FillRule::NonZero ==> draws_with(ops, blocks, PipelineKind::ConcaveFillsNonZero, im, am, fill_params)
            &&& cmd.fill_rule == FillRule::EvenOdd ==> draws_with(ops, blocks, PipelineKind::ConcaveFillsEvenOdd, im, am, fill_params)
            &&& antialias && cmd.fill_rule == FillRule::NonZero ==> draws_with(ops, blocks, PipelineKind::ConcaveFringesNonZero, im, am, fill_params)
            &&& antialias && cmd.fill_rule == FillRule::EvenOdd ==> draws_with(ops, blocks, PipelineKind::ConcaveFringesEvenOdd, im, am, fill_params)
        },
        CommandType::ClearRect { x, y, width, height, color } => clears_rect(ops, clears, x, y, width, height, color),
        CommandType::SetRenderTarget(_) => true,
    }
}

proof fn lemma_no_binds_stroke(ds: Seq<crate::command::Drawable>)
    ensures
        forall|e: int| 0 <= e < stroke_draws(ds).len() ==> !(#[trigger] stroke_draws(ds)[e] is BindUniforms),
    decreases ds.len(),
{
    if ds.len() > 0 {
        lemma_no_binds_stroke(ds.drop_last());
        let a = stroke_draws(ds.drop_last());
        let b: Seq<DrawOp> = match ds.last().stroke_verts {
            Some(v) => seq![crate::plan::vert_draw(v)],
            None => Seq::empty(),
        };
        assert(stroke_draws(ds) == a + b);
        assert forall|e: int| 0 <= e < (a + b).len() implies !(#[trigger] (a + b)[e] is BindUniforms) by {
            if e < a.len() {
                assert((a + b)[e] == a[e]);
            } else {
                assert((a + b)[e] == b[e - a.len()]);
            }
        }
    }
}

/// Each pipeline of a command draws with the uniform block prepared for it, when the
/// command's blocks stand at the position's uniform slot of `blocks`.
#[verifier::spinoff_prover]
#[verifier::rlimit(60)]
pub proof fn lemma_cmd_blocks<P, C>(cmd: Command<P, C>, st: PlanState, ranges: Seq<IndexRange>, cfg: PlanConfig, blocks: Seq<P>, clears: Seq<C>)
    requires
        st.clear_slot + cmd_clear_colors(cmd.cmd_type).len() <= clears.len(),
        clears.len() <= usize::MAX,
        forall|k: int|
            0 <= k < cmd_clear_colors(cmd.cmd_type).len() ==> clears[st.clear_slot + k] == #[trigger] cmd_clear_colors(
                cmd.cmd_type,
            )[k],
        st.uniform_slot + cmd_uniforms(cmd.cmd_type).len() <= blocks.len(),
        blocks.len() <= usize::MAX,
        forall|k: int|
            0 <= k < cmd_uniforms(cmd.cmd_type).len() ==> blocks[st.uniform_slot + k] == #[trigger] cmd_uniforms(
                cmd.cmd_type,
            )[k],
    ensures
        draws_its_blocks(cmd_ops(cmd, st, ranges, cfg), blocks, clears, cmd, cfg.antialias),
{
    let aa = cfg.antialias;
    let begin: Seq<DrawOp> = if st.pass_open { Seq::empty() } else { seq![DrawOp::BeginPass(st.target)] };
    let select = seq![DrawOp::SelectPipelines(crate::blend::spec_wgpu_blend(cmd.composite_operation))];
    let body = crate::plan::cmd_body(cmd, st, ranges, cfg);
    let head = begin + select;
    let ops = cmd_ops(cmd, st, ranges, cfg);
    assert(ops == head + body);
    let h = head.len() as int;
    assert forall|e: int| 0 <= e < body.len() implies ops[h + e] == body[e] by {}
    let u = st.uniform_slot as int;
    let r = st.range_slot as int;
    let ds = cmd.drawables@;
    let im = cmd.image;
    let am = cmd.alpha_mask;
    match cmd.cmd_type {
        CommandType::ConvexFill { params } => {
            assert(blocks[u + 0] == cmd_uniforms(cmd.cmd_type)[0]);
            let a = seq![DrawOp::SetPipeline(PipelineKind::ConvexFillBuffer), crate::plan::bind_uniforms(cmd, u, cfg)];
            assert(body == a + convex_draws(ds, r, ranges));
            assert(body[0] == a[0] && body[1] == a[1]);
            assert(ops[h] == DrawOp::SetPipeline(PipelineKind::ConvexFillBuffer));
            assert(binds(ops[h + 1], blocks, im, am, params));
        },
        CommandType::Stroke { params } => {
            assert(blocks[u + 0] == cmd_uniforms(cmd.cmd_type)[0]);
            let a = seq![
                DrawOp::SetPipeline(PipelineKind::Stroke),
                crate::plan::bind_uniforms(cmd, u, cfg),
                DrawOp::PushViewSize,
            ];
            assert(body == a + stroke_draws(ds));
            assert(body[0] == a[0] && body[1] == a[1]);
            assert(ops[h] == DrawOp::SetPipeline(PipelineKind::Stroke));
            assert(binds(ops[h + 1], blocks, im, am, params));
        },
        CommandType::Triangles { params } => {
            assert(blocks[u + 0] == cmd_uniforms(cmd.cmd_type)[0]);
            let a = seq![
                DrawOp::SetPipeline(PipelineKind::Triangles),
                DrawOp::PushViewSize,
                crate::plan::bind_uniforms(cmd, u, cfg),
            ];
            assert(body == a + triangle_draws(cmd.triangles_verts));
            assert(body[0] == a[0] && body[1] == a[1] && body[2] == a[2]);
            assert(ops[h] == DrawOp::SetPipeline(PipelineKind::Triangles));
            assert(ops[h + 1] == DrawOp::PushViewSize);
            assert(binds(ops[h + 2], blocks, im, am, params));
        },
        CommandType::StencilStroke { params1, params2 } => {
            assert(blocks[u + 0] == cmd_uniforms(cmd.cmd_type)[0]);
            assert(blocks[u + 1] == cmd_uniforms(cmd.cmd_type)[1]);
            let a = seq![
                DrawOp::SetPipeline(PipelineKind::StencilStrokeBase),
                crate::plan::bind_uniforms(cmd, u, cfg),
                DrawOp::PushViewSize,
            ];
            let sd = stroke_draws(ds);
            let b = seq![
                DrawOp::SetPipeline(PipelineKind::StencilStrokeAaPixels),
                crate::plan::bind_uniforms(cmd, u + 1, cfg),
            ];
            let rest = sd + seq![DrawOp::SetPipeline(PipelineKind::StencilStrokeClearStencil)] + sd;
            assert(body == a + sd + b + rest);
            assert(body[0] == a[0] && body[1] == a[1]);
            let q: int = 3 + sd.len() as int;
            assert(body[q] == b[0] && body[q + 1] == b[1]);
            assert(ops[h] == DrawOp::SetPipeline(PipelineKind::StencilStrokeBase));
            assert(binds(ops[h + 1], blocks, im, am, params2));
            assert(ops[h + q] == DrawOp::SetPipeline(PipelineKind::StencilStrokeAaPixels));
            assert(binds(ops[h + q + 1], blocks, im, am, params1));
        },
        CommandType::ConcaveFill { stencil_params, fill_params } => {
            assert(blocks[u + 0] == cmd_uniforms(cmd.cmd_type)[0]);
            assert(blocks[u + 1] == cmd_uniforms(cmd.cmd_type)[1]);
            let a = seq![
                DrawOp::SetPipeline(PipelineKind::ConcaveFillVerts),
                DrawOp::PushViewSize,
                DrawOp::BindUniforms {
                    image: None,
                    alpha_mask: None,
                    slot: u as usize,
                    offset: (u * cfg.uniform_stride) as u32,
                },
            ];
            let fd = fill_draws(ds, r, ranges);
            let bnd = seq![crate::plan::bind_uniforms(cmd, u + 1, cfg)];
            let fr = DrawOp::SetPipeline(crate::plan::fringes_pipeline(cmd.fill_rule));
            let fi = DrawOp::SetPipeline(crate::plan::fills_pipeline(cmd.fill_rule));
            let sd = stroke_draws(ds);
            let f: Seq<DrawOp> = if aa { seq![fr] + sd } else { Seq::empty() };
            let tri = triangle_draws(cmd.triangles_verts);
            assert(body == a + fd + bnd + f + seq![fi] + tri);
            assert(body[0] == a[0] && body[1] == a[1] && body[2] == a[2]);
            assert(ops[h] == DrawOp::SetPipeline(PipelineKind::ConcaveFillVerts));
            assert(ops[h + 1] == DrawOp::PushViewSize);
            assert(binds(ops[h + 2], blocks, None, None, stencil_params));
            let jb: int = 3 + fd.len() as int;
            let mfi: int = jb + 1 + f.len();
            assert(body[jb] == bnd[0]);
            assert(body[mfi] == fi);
            lemma_no_binds_stroke(ds);
            assert(binds(ops[h + jb], blocks, im, am, fill_params));
            assert(ops[h + mfi] == fi);
            assert forall|e: int| h + jb < e < h + mfi implies !(#[trigger] ops[e] is BindUniforms) by {
                assert(ops[e] == body[e - h]);
                assert(body[e - h] == f[e - h - jb - 1]);
                if aa {
                    if e - h - jb - 1 > 0 {
                        assert(f[e - h - jb - 1] == sd[e - h - jb - 2]);
                    }
                }
            }
            if aa {
                assert(body[jb + 1] == fr);
                assert(ops[h + jb + 1] == fr);
                assert(forall|e: int| h + jb < e < h + jb + 1 ==> !(#[trigger] ops[e] is BindUniforms));
            }
        },
        CommandType::ClearRect { x, y, width, height, color } => {
            assert(clears[st.clear_slot + 0] == cmd_clear_colors(cmd.cmd_type)[0]);
            assert(ops[h] == body[0]);
            assert(ops[h + 1] == body[1]);
            assert(ops[h + 2] == body[2]);
            assert(ops[h + 3] == body[3]);
            assert(ops[h + 4] == body[4]);
            assert(ops[h] == DrawOp::SetPipeline(PipelineKind::ClearRect));
        },
        CommandType::SetRenderTarget(_) => {},
    }
}

/// The position after two lists of commands is the position after the second, started at
/// the position after the first.
pub proof fn lemma_plan_state_add<P, C>(a: Seq<Command<P, C>>, b: Seq<Command<P, C>>, st0: PlanState)
    ensures
        plan_state(a + b, st0) == plan_state(b, plan_state(a, st0)),
    decreases b.len(),
{
    if b.len() == 0 {
        assert(a + b =~= a);
    } else {
        assert((a + b).drop_last() =~= a + b.drop_last());
        lemma_plan_state_add(a, b.drop_last(), st0);
    }
}

/// The steps of two lists of commands are those of the first, then those of the second
/// started at the position after the first.
pub proof fn lemma_plan_ops_add<P, C>(a: Seq<Command<P, C>>, b: Seq<Command<P, C>>, st0: PlanState, ranges: Seq<IndexRange>, cfg: PlanConfig)
    ensures
        plan_ops(a + b, st0, ranges, cfg) == plan_ops(a, st0, ranges, cfg) + plan_ops(b, plan_state(a, st0), ranges, cfg),
    decreases b.len(),
{
    if b.len() == 0 {
        assert(a + b =~= a);
        assert(plan_ops(a, st0, ranges, cfg) + plan_ops(b, plan_state(a, st0), ranges, cfg) =~= plan_ops(a, st0, ranges, cfg));
    } else {
        assert((a + b).drop_last() =~= a + b.drop_last());
        assert((a + b).last() == b.last());
        lemma_plan_ops_add(a, b.drop_last(), st0, ranges, cfg);
        lemma_plan_state_add(a, b.drop_last(), st0);
        let sa = plan_state(a, st0);
        assert(plan_ops(a + b, st0, ranges, cfg) =~= plan_ops(a, st0, ranges, cfg) + plan_ops(b, sa, ranges, cfg));
    }
}

proof fn lemma_lift_after<P>(x: Seq<DrawOp>, pre: Seq<DrawOp>, post: Seq<DrawOp>, blocks: Seq<P>, kind: PipelineKind, d: int, im: Option<ImageId>, am: Option<ImageId>, p: P)
    requires
        1 <= d <= 2,
        binds_after(x, blocks, kind, d, im, am, p),
    ensures
        binds_after(pre + x + post, blocks, kind, d, im, am, p),
{
    let j = choose|j: int|
        0 <= j && j + d < x.len() && #[trigger] x[j] == DrawOp::SetPipeline(kind) && (d == 2 ==> x[j + 1]
            == DrawOp::PushViewSize) && binds(x[j + d], blocks, im, am, p);
    let s = pre + x + post;
    let o = pre.len() as int;
    assert(s[o + j] == x[j]);
    if d == 2 {
        assert(s[o + j + 1] == x[j + 1]);
    }
    assert(s[o + j + d] == x[j + d]);
}

proof fn lemma_lift_with<P>(x: Seq<DrawOp>, pre: Seq<DrawOp>, post: Seq<DrawOp>, blocks: Seq<P>, kind: PipelineKind, im: Option<ImageId>, am: Option<ImageId>, p: P)
    requires
        draws_with(x, blocks, kind, im, am, p),
    ensures
        draws_with(pre + x + post, blocks, kind, im, am, p),
{
    let (j, m) = choose|j: int, m: int|
        #![trigger x[j], x[m]]
        0 <= j < m < x.len() && binds(x[j], blocks, im, am, p) && x[m] == DrawOp::SetPipeline(kind)
            && forall|e: int| j < e < m ==> !(#[trigger] x[e] is BindUniforms);
    let s = pre + x + post;
    let o = pre.len() as int;
    assert(s[o + j] == x[j]);
    assert(s[o + m] == x[m]);
    assert forall|e: int| o + j < e < o + m implies !(#[trigger] s[e] is BindUniforms) by {
        assert(s[e] == x[e - o]);
    }
}

proof fn lemma_lift_clear<C>(x: Seq<DrawOp>, pre: Seq<DrawOp>, post: Seq<DrawOp>, clears: Seq<C>, rx: u32, ry: u32, w: u32, h: u32, color: C)
    requires
        clears_rect(x, clears, rx, ry, w, h, color),
    ensures
        clears_rect(pre + x + post, clears, rx, ry, w, h, color),
{
    let j = choose|j: int|
        0 <= j && j + 4 < x.len() && #[trigger] x[j] == DrawOp::SetPipeline(PipelineKind::ClearRect) && (x[j
            + 1] matches DrawOp::BindClearRect { slot, .. } && slot < clears.len() && clears[slot as int] == color)
            && x[j + 2] == (DrawOp::SetViewport { x: rx, y: ry, width: w, height: h }) && x[j + 3] == (DrawOp::Draw {
            start: 0,
            end: 4,
        }) && x[j + 4] == DrawOp::ResetViewport;
    let s = pre + x + post;
    let o = pre.len() as int;
    assert(s[o + j] == x[j]);
    assert(s[o + j + 1] == x[j + 1]);
    assert(s[o + j + 2] == x[j + 2]);
    assert(s[o + j + 3] == x[j + 3]);
    assert(s[o + j + 4] == x[j + 4]);
}

proof fn lemma_lift_blocks<P, C>(x: Seq<DrawOp>, pre: Seq<DrawOp>, post: Seq<DrawOp>, blocks: Seq<P>, clears: Seq<C>, cmd: Command<P, C>, aa: bool)
    requires
        draws_its_blocks(x, blocks, clears, cmd, aa),
    ensures
        draws_its_blocks(pre + x + post, blocks, clears, cmd, aa),
{
    let im = cmd.image;
    let am = cmd.alpha_mask;
    match cmd.cmd_type {
        CommandType::ConvexFill { params } => lemma_lift_after(x, pre, post, blocks, PipelineKind::ConvexFillBuffer, 1, im, am, params),
        CommandType::Stroke { params } => lemma_lift_after(x, pre, post, blocks, PipelineKind::Stroke, 1, im, am, params),
        CommandType::Triangles { params } => lemma_lift_after(x, pre, post, blocks, PipelineKind::Triangles, 2, im, am, params),
        CommandType::StencilStroke { params1, params2 } => {
            lemma_lift_after(x, pre, post, blocks, PipelineKind::StencilStrokeBase, 1, im, am, params2);
            lemma_lift_after(x, pre, post, blocks, PipelineKind::StencilStrokeAaPixels, 1, im, am, params1);
        },
        CommandType::ConcaveFill { stencil_params, fill_params } => {
            lemma_lift_after(x, pre, post, blocks, PipelineKind::ConcaveFillVerts, 2, None, None, stencil_params);
            if cmd.fill_rule == FillRule::NonZero {
                lemma_lift_with(x, pre, post, blocks, PipelineKind::ConcaveFillsNonZero, im, am, fill_params);
                if aa {
                    lemma_lift_with(x, pre, post, blocks, PipelineKind::ConcaveFringesNonZero, im, am, fill_params);
                }
            } else {
                lemma_lift_with(x, pre, post, blocks, PipelineKind::ConcaveFillsEvenOdd, im, am, fill_params);
                if aa {
                    lemma_lift_with(x, pre, post, blocks, PipelineKind::ConcaveFringesEvenOdd, im, am, fill_params);
                }
            }
        },
        CommandType::ClearRect { x: rx, y: ry, width, height, color } => lemma_lift_clear(x, pre, post, clears, rx, ry, width, height, color),
        CommandType::SetRenderTarget(_) => {},
    }
}

#[verifier::spinoff_prover]
#[verifier::rlimit(80)]
proof fn lemma_blocks_at<P, C>(cmds: Seq<Command<P, C>>, target: RenderTarget, ranges: Seq<IndexRange>, cfg: PlanConfig, i: int)
    requires
        uniforms_of(cmds).len() <= usize::MAX,
        fans_of(cmds).len() <= usize::MAX,
        clear_colors_of(cmds).len() <= usize::MAX,
        0 <= i < cmds.len(),
    ensures
        draws_its_blocks(render_plan(cmds, target, ranges, cfg), uniforms_of(cmds), clear_colors_of(cmds), cmds[i], cfg.antialias),
{
    let st0 = initial_state(target);
    let blocks = uniforms_of(cmds);
    let clears = clear_colors_of(cmds);
    let last: Seq<DrawOp> = if plan_state(cmds, st0).pass_open { seq![DrawOp::Submit] } else { Seq::empty() };
    let c = cmds[i];
    let pre = cmds.take(i);
    let one = seq![c];
    let post = cmds.skip(i + 1);
    assert(cmds =~= pre + one + post);
    assert(pre + one + post =~= pre + (one + post));
    lemma_plan_ops_add(pre, one + post, st0, ranges, cfg);
    let st = plan_state(pre, st0);
    lemma_plan_ops_add(one, post, st, ranges, cfg);
    assert(one.drop_last() =~= Seq::<Command<P, C>>::empty());
    assert(one.last() == c);
    assert(plan_ops(one.drop_last(), st, ranges, cfg) =~= Seq::<DrawOp>::empty());
    assert(plan_state(one.drop_last(), st) == st);
    assert(Seq::<DrawOp>::empty() + cmd_ops(c, st, ranges, cfg) =~= cmd_ops(c, st, ranges, cfg));
    assert(plan_ops(one, st, ranges, cfg) == cmd_ops(c, st, ranges, cfg));
    crate::plan::lemma_prefix_counts(cmds, i);
    crate::plan::lemma_plan_state_counts(pre, target);
    crate::plan::lemma_uniforms_of_add(pre + one, post);
    crate::plan::lemma_uniforms_of_add(pre, one);
    assert(uniforms_of(one) == cmd_uniforms(c.cmd_type)) by {
        assert(uniforms_of(one.drop_last()) =~= Seq::<P>::empty());
        assert(Seq::<P>::empty() + cmd_uniforms(c.cmd_type) =~= cmd_uniforms(c.cmd_type));
    }
    let n = cmd_uniforms(c.cmd_type).len() as int;
    let up = uniforms_of(pre).len() as int;
    assert forall|k: int| 0 <= k < n implies blocks[st.uniform_slot + k] == #[trigger] cmd_uniforms(c.cmd_type)[k] by {
        assert(blocks == uniforms_of(pre) + cmd_uniforms(c.cmd_type) + uniforms_of(post));
        assert(blocks[up + k] == cmd_uniforms(c.cmd_type)[k]);
    }
    crate::plan::lemma_clear_colors_of_add(pre + one, post);
    crate::plan::lemma_clear_colors_of_add(pre, one);
    assert(clear_colors_of(one) == cmd_clear_colors(c.cmd_type)) by {
        assert(clear_colors_of(one.drop_last()) =~= Seq::<C>::empty());
        assert(Seq::<C>::empty() + cmd_clear_colors(c.cmd_type) =~= cmd_clear_colors(c.cmd_type));
    }
    let nc = cmd_clear_colors(c.cmd_type).len() as int;
    let cp = clear_colors_of(pre).len() as int;
    assert forall|k: int| 0 <= k < nc implies clears[st.clear_slot + k] == #[trigger] cmd_clear_colors(c.cmd_type)[k] by {
        assert(clears == clear_colors_of(pre) + cmd_clear_colors(c.cmd_type) + clear_colors_of(post));
        assert(clears[cp + k] == cmd_clear_colors(c.cmd_type)[k]);
    }
    lemma_cmd_blocks(c, st, ranges, cfg, blocks, clears);
    let a = plan_ops(pre, st0, ranges, cfg);
    let x = cmd_ops(c, st, ranges, cfg);
    let b = plan_ops(post, plan_state(one, st), ranges, cfg) + last;
    assert(render_plan(cmds, target, ranges, cfg) == plan_ops(cmds, st0, ranges, cfg) + last);
    assert(render_plan(cmds, target, ranges, cfg) =~= a + x + b);
    lemma_lift_blocks(x, a, b, blocks, clears, c, cfg.antialias);
}

/// Law: every pipeline draws with the uniform block written for it. In the steps of a
/// frame, with the blocks the frame's commands write, a convex fill, a stroke and a
/// triangle list bind their paint right after setting their pipeline; a stencil stroke
/// binds its second paint for its base and its first paint for its antialiased pixels; a
/// concave fill binds its stencil paint, with no images, for its fans, and its fill paint,
/// with its images, for the cover pipeline of its fill rule and, antialiased, for the
/// fringe pipeline of its rule. Every clear rect binds its own color, sets the viewport to
/// its rectangle, draws it and resets the viewport.
pub proof fn lemma_render_plan_blocks<P, C>(cmds: Seq<Command<P, C>>, target: RenderTarget, ranges: Seq<IndexRange>, cfg: PlanConfig)
    requires
        uniforms_of(cmds).len() <= usize::MAX,
        fans_of(cmds).len() <= usize::MAX,
        clear_colors_of(cmds).len() <= usize::MAX,
    ensures
        forall|i: int|
            0 <= i < cmds.len() ==> draws_its_blocks(
                render_plan(cmds, target, ranges, cfg),
                uniforms_of(cmds),
                clear_colors_of(cmds),
                #[trigger] cmds[i],
                cfg.antialias,
            ),
{
    assert forall|i: int| 0 <= i < cmds.len() implies draws_its_blocks(
        render_plan(cmds, target, ranges, cfg),
        uniforms_of(cmds),
        clear_colors_of(cmds),
        #[trigger] cmds[i],
        cfg.antialias,
    ) by {
        lemma_blocks_at(cmds, target, ranges, cfg, i);
    }
}

/// Whether `op`, if it opens a pass, opens it on `target` or on a target that one of the
/// commands switches to.
pub open spec fn opens_known_target<P, C>(op: DrawOp, target: RenderTarget, cmds: Seq<Command<P, C>>) -> bool {
    match op {
        DrawOp::BeginPass(t) => t == target || exists|i: int|
            0 <= i < cmds.len() && (#[trigger] cmds[i]).cmd_type == CommandType::<P, C>::SetRenderTarget(t),
        _ => true,
    }
}

/// No step of `s` opens a pass.
pub open spec fn opens_none(s: Seq<DrawOp>) -> bool {
    forall|e: int| 0 <= e < s.len() ==> !(#[trigger] s[e] is BeginPass)
}

proof fn lemma_opens_none_add(a: Seq<DrawOp>, b: Seq<DrawOp>)
    requires
        opens_none(a),
        opens_none(b),
    ensures
        opens_none(a + b),
{
    assert forall|e: int| 0 <= e < (a + b).len() implies !(#[trigger] (a + b)[e] is BeginPass) by {
        if e < a.len() {
            assert((a + b)[e] == a[e]);
        } else {
            assert((a + b)[e] == b[e - a.len()]);
        }
    }
}

proof fn lemma_stroke_opens_none(ds: Seq<crate::command::Drawable>)
    ensures
        opens_none(stroke_draws(ds)),
    decreases ds.len(),
{
    if ds.len() > 0 {
        lemma_stroke_opens_none(ds.drop_last());
        let b: Seq<DrawOp> = match ds.last().stroke_verts {
            Some(v) => seq![crate::plan::vert_draw(v)],
            None => Seq::empty(),
        };
        lemma_opens_none_add(stroke_draws(ds.drop_last()), b);
    }
}

proof fn lemma_fill_opens_none(ds: Seq<crate::command::Drawable>, r: int, ranges: Seq<IndexRange>)
    ensures
        opens_none(fill_draws(ds, r, ranges)),
    decreases ds.len(),
{
    if ds.len() > 0 {
        lemma_fill_opens_none(ds.drop_last(), r, ranges);
        let b: Seq<DrawOp> = match ds.last().fill_verts {
            Some(_) => seq![crate::plan::indexed_draw(r + crate::prepare::drawable_fans(ds.drop_last()).len(), ranges)],
            None => Seq::empty(),
        };
        lemma_opens_none_add(fill_draws(ds.drop_last(), r, ranges), b);
    }
}

proof fn lemma_convex_opens_none(ds: Seq<crate::command::Drawable>, r: int, ranges: Seq<IndexRange>)
    ensures
        opens_none(convex_draws(ds, r, ranges)),
    decreases ds.len(),
{
    if ds.len() > 0 {
        lemma_convex_opens_none(ds.drop_last(), r, ranges);
        let a = seq![DrawOp::SetPipeline(PipelineKind::ConvexFillBuffer), DrawOp::PushViewSize];
        let b: Seq<DrawOp> = match ds.last().fill_verts {
            Some(_) => seq![crate::plan::indexed_draw(r + crate::prepare::drawable_fans(ds.drop_last()).len(), ranges)],
            None => Seq::empty(),
        };
        let c: Seq<DrawOp> = match ds.last().stroke_verts {
            Some(v) => seq![DrawOp::SetPipeline(PipelineKind::ConvexStrokeBuffer), crate::plan::vert_draw(v)],
            None => Seq::empty(),
        };
        assert(opens_none(a));
        assert(opens_none(b));
        assert(opens_none(c));
        let pre = convex_draws(ds.drop_last(), r, ranges);
        lemma_opens_none_add(pre, a);
        lemma_opens_none_add(pre + a, b);
        lemma_opens_none_add(pre + a + b, c);
    }
}

/// One command's steps open a pass only as their first step, and only on the position's
/// target when no pass is open.
#[verifier::spinoff_prover]
#[verifier::rlimit(60)]
proof fn lemma_cmd_opens<P, C>(cmd: Command<P, C>, st: PlanState, ranges: Seq<IndexRange>, cfg: PlanConfig)
    ensures
        forall|e: int|
            0 <= e < cmd_ops(cmd, st, ranges, cfg).len() && (#[trigger] cmd_ops(cmd, st, ranges, cfg)[e]) is BeginPass
                ==> e == 0 && !st.pass_open && cmd_ops(cmd, st, ranges, cfg)[e] == DrawOp::BeginPass(st.target),
        !st.pass_open ==> cmd_ops(cmd, st, ranges, cfg)[0] == DrawOp::BeginPass(st.target),
{
    let begin: Seq<DrawOp> = if st.pass_open { Seq::empty() } else { seq![DrawOp::BeginPass(st.target)] };
    let select = seq![DrawOp::SelectPipelines(crate::blend::spec_wgpu_blend(cmd.composite_operation))];
    let body = crate::plan::cmd_body(cmd, st, ranges, cfg);
    let ops = cmd_ops(cmd, st, ranges, cfg);
    assert(ops == begin + (select + body));
    let u = st.uniform_slot as int;
    let r = st.range_slot as int;
    let ds = cmd.drawables@;
    lemma_stroke_opens_none(ds);
    lemma_fill_opens_none(ds, r, ranges);
    lemma_convex_opens_none(ds, r, ranges);
    let sd = stroke_draws(ds);
    let tri = triangle_draws(cmd.triangles_verts);
    assert(opens_none(tri));
    assert(opens_none(select));
    match cmd.cmd_type {
        CommandType::ConvexFill { .. } => {
            let a = seq![DrawOp::SetPipeline(PipelineKind::ConvexFillBuffer), crate::plan::bind_uniforms(cmd, u, cfg)];
            assert(opens_none(a));
            lemma_opens_none_add(a, convex_draws(ds, r, ranges));
        },
        CommandType::ConcaveFill { .. } => {
            let a = seq![
                DrawOp::SetPipeline(PipelineKind::ConcaveFillVerts),
                DrawOp::PushViewSize,
                DrawOp::BindUniforms {
                    image: None,
                    alpha_mask: None,
                    slot: u as usize,
                    offset: (u * cfg.uniform_stride) as u32,
                },
            ];
            let bnd = seq![crate::plan::bind_uniforms(cmd, u + 1, cfg)];
            let fr = seq![DrawOp::SetPipeline(crate::plan::fringes_pipeline(cmd.fill_rule))];
            let fi = seq![DrawOp::SetPipeline(crate::plan::fills_pipeline(cmd.fill_rule))];
            let f: Seq<DrawOp> = if cfg.antialias { fr + sd } else { Seq::empty() };
            let fd = fill_draws(ds, r, ranges);
            assert(body == a + fd + bnd + f + fi + tri);
            assert(opens_none(a));
            assert(opens_none(bnd));
            assert(opens_none(fr));
            assert(opens_none(fi));
            lemma_opens_none_add(fr, sd);
            assert(opens_none(f));
            lemma_opens_none_add(a, fd);
            lemma_opens_none_add(a + fd, bnd);
            lemma_opens_none_add(a + fd + bnd, f);
            lemma_opens_none_add(a + fd + bnd + f, fi);
            lemma_opens_none_add(a + fd + bnd + f + fi, tri);
        },
        CommandType::Stroke { .. } => {
            let a = seq![
                DrawOp::SetPipeline(PipelineKind::Stroke),
                crate::plan::bind_uniforms(cmd, u, cfg),
                DrawOp::PushViewSize,
            ];
            assert(opens_none(a));
            lemma_opens_none_add(a, sd);
        },
        CommandType::StencilStroke { .. } => {
            let a = seq![
                DrawOp::SetPipeline(PipelineKind::StencilStrokeBase),
                crate::plan::bind_uniforms(cmd, u, cfg),
                DrawOp::PushViewSize,
            ];
            let b = seq![
                DrawOp::SetPipeline(PipelineKind::StencilStrokeAaPixels),
                crate::plan::bind_uniforms(cmd, u + 1, cfg),
            ];
            let c = seq![DrawOp::SetPipeline(PipelineKind::StencilStrokeClearStencil)];
            assert(opens_none(a));
            assert(opens_none(b));
            assert(opens_none(c));
            lemma_opens_none_add(a, sd);
            lemma_opens_none_add(a + sd, b);
            lemma_opens_none_add(a + sd + b, sd);
            lemma_opens_none_add(a + sd + b + sd, c);
            lemma_opens_none_add(a + sd + b + sd + c, sd);
            assert(body == a + sd + b + sd + c + sd);
        },
        CommandType::Triangles { .. } => {
            let a = seq![
                DrawOp::SetPipeline(PipelineKind::Triangles),
                DrawOp::PushViewSize,
                crate::plan::bind_uniforms(cmd, u, cfg),
            ];
            assert(opens_none(a));
            lemma_opens_none_add(a, tri);
        },
        _ => {
            assert(opens_none(body));
        },
    }
    lemma_opens_none_add(select, body);
    assert forall|e: int| 0 <= e < ops.len() && (#[trigger] ops[e]) is BeginPass implies e == 0 && !st.pass_open
        && ops[e] == DrawOp::BeginPass(st.target) by {
        if e >= begin.len() {
            assert(ops[e] == (select + body)[e - begin.len()]);
        } else {
            assert(ops[e] == begin[e]);
        }
    }
    if !st.pass_open {
        assert(ops[0] == begin[0]);
    }
}

/// Whether a binding step binds its block at the block's byte position: the slot times
/// the stride of its kind of block, wherever that position fits in `u32`.
pub open spec fn offset_ok(op: DrawOp, cfg: PlanConfig) -> bool {
    match op {
        DrawOp::BindUniforms { slot, offset, .. } => slot * cfg.uniform_stride <= u32::MAX ==> offset == slot
            * cfg.uniform_stride,
        DrawOp::BindClearRect { slot, offset } => slot * cfg.clear_rect_stride <= u32::MAX ==> offset == slot
            * cfg.clear_rect_stride,
        _ => true,
    }
}

/// Every binding step of `s` binds at its block's byte position.
pub open spec fn offsets_ok(s: Seq<DrawOp>, cfg: PlanConfig) -> bool {
    forall|e: int| 0 <= e < s.len() ==> offset_ok(#[trigger] s[e], cfg)
}

proof fn lemma_offsets_add(a: Seq<DrawOp>, b: Seq<DrawOp>, cfg: PlanConfig)
    requires
        offsets_ok(a, cfg),
        offsets_ok(b, cfg),
    ensures
        offsets_ok(a + b, cfg),
{
    assert forall|e: int| 0 <= e < (a + b).len() implies offset_ok(#[trigger] (a + b)[e], cfg) by {
        if e < a.len() {
            assert((a + b)[e] == a[e]);
        } else {
            assert((a + b)[e] == b[e - a.len()]);
        }
    }
}

proof fn lemma_stroke_offsets_ok(ds: Seq<crate::command::Drawable>, cfg: PlanConfig)
    ensures
        offsets_ok(stroke_draws(ds), cfg),
    decreases ds.len(),
{
    if ds.len() > 0 {
        lemma_stroke_offsets_ok(ds.drop_last(), cfg);
        let b: Seq<DrawOp> = match ds.last().stroke_verts {
            Some(v) => seq![crate::plan::vert_draw(v)],
            None => Seq::empty(),
        };
        lemma_offsets_add(stroke_draws(ds.drop_last()), b, cfg);
    }
}

proof fn lemma_fill_offsets_ok(ds: Seq<crate::command::Drawable>, r: int, ranges: Seq<IndexRange>, cfg: PlanConfig)
    ensures
        offsets_ok(fill_draws(ds, r, ranges), cfg),
    decreases ds.len(),
{
    if ds.len() > 0 {
        lemma_fill_offsets_ok(ds.drop_last(), r, ranges, cfg);
        let b: Seq<DrawOp> = match ds.last().fill_verts {
            Some(_) => seq![crate::plan::indexed_draw(r + crate::prepare::drawable_fans(ds.drop_last()).len(), ranges)],
            None => Seq::empty(),
        };
        lemma_offsets_add(fill_draws(ds.drop_last(), r, ranges), b, cfg);
    }
}

proof fn lemma_convex_offsets_ok(ds: Seq<crate::command::Drawable>, r: int, ranges: Seq<IndexRange>, cfg: PlanConfig)
    ensures
        offsets_ok(convex_draws(ds, r, ranges), cfg),
    decreases ds.len(),
{
    if ds.len() > 0 {
        lemma_convex_offsets_ok(ds.drop_last(), r, ranges, cfg);
        let a = seq![DrawOp::SetPipeline(PipelineKind::ConvexFillBuffer), DrawOp::PushViewSize];
        let b: Seq<DrawOp> = match ds.last().fill_verts {
            Some(_) => seq![crate::plan::indexed_draw(r + crate::prepare::drawable_fans(ds.drop_last()).len(), ranges)],
            None => Seq::empty(),
        };
        let c: Seq<DrawOp> = match ds.last().stroke_verts {
            Some(v) => seq![DrawOp::SetPipeline(PipelineKind::ConvexStrokeBuffer), crate::plan::vert_draw(v)],
            None => Seq::empty(),
        };
        assert(offsets_ok(a, cfg));
        assert(offsets_ok(b, cfg));
        assert(offsets_ok(c, cfg));
        let pre = convex_draws(ds.drop_last(), r, ranges);
        lemma_offsets_add(pre, a, cfg);
        lemma_offsets_add(pre + a, b, cfg);
        lemma_offsets_add(pre + a + b, c, cfg);
    }
}

/// One command's binding steps bind at their blocks' byte positions.
#[verifier::spinoff_prover]
#[verifier::rlimit(60)]
proof fn lemma_cmd_offsets<P, C>(cmd: Command<P, C>, st: PlanState, ranges: Seq<IndexRange>, cfg: PlanConfig)
    requires
        st.uniform_slot + cmd_uniforms(cmd.cmd_type).len() <= usize::MAX,
    ensures
        offsets_ok(cmd_ops(cmd, st, ranges, cfg), cfg),
{
    let begin: Seq<DrawOp> = if st.pass_open { Seq::empty() } else { seq![DrawOp::BeginPass(st.target)] };
    let select = seq![DrawOp::SelectPipelines(crate::blend::spec_wgpu_blend(cmd.composite_operation))];
    let body = crate::plan::cmd_body(cmd, st, ranges, cfg);
    let ops = cmd_ops(cmd, st, ranges, cfg);
    assert(ops == begin + (select + body));
    let u = st.uniform_slot as int;
    let r = st.range_slot as int;
    let ds = cmd.drawables@;
    lemma_stroke_offsets_ok(ds, cfg);
    lemma_fill_offsets_ok(ds, r, ranges, cfg);
    lemma_convex_offsets_ok(ds, r, ranges, cfg);
    let sd = stroke_draws(ds);
    let tri = triangle_draws(cmd.triangles_verts);
    assert(offsets_ok(tri, cfg));
    assert(offsets_ok(select, cfg));
    assert(offsets_ok(begin, cfg));
    match cmd.cmd_type {
        CommandType::ConvexFill { .. } => {
            let a = seq![DrawOp::SetPipeline(PipelineKind::ConvexFillBuffer), crate::plan::bind_uniforms(cmd, u, cfg)];
            assert(offsets_ok(a, cfg));
            lemma_offsets_add(a, convex_draws(ds, r, ranges), cfg);
        },
        CommandType::ConcaveFill { .. } => {
            let a = seq![
                DrawOp::SetPipeline(PipelineKind::ConcaveFillVerts),
                DrawOp::PushViewSize,
                DrawOp::BindUniforms {
                    image: None,
                    alpha_mask: None,
                    slot: u as usize,
                    offset: (u * cfg.uniform_stride) as u32,
                },
            ];
            let bnd = seq![crate::plan::bind_uniforms(cmd, u + 1, cfg)];
            let fr = seq![DrawOp::SetPipeline(crate::plan::fringes_pipeline(cmd.fill_rule))];
            let fi = seq![DrawOp::SetPipeline(crate::plan::fills_pipeline(cmd.fill_rule))];
            let f: Seq<DrawOp> = if cfg.antialias { fr + sd } else { Seq::empty() };
            let fd = fill_draws(ds, r, ranges);
            assert(body == a + fd + bnd + f + fi + tri);
            assert(offsets_ok(a, cfg));
            assert(offsets_ok(bnd, cfg));
            assert(offsets_ok(fr, cfg));
            assert(offsets_ok(fi, cfg));
            lemma_offsets_add(fr, sd, cfg);
            assert(offsets_ok(f, cfg));
            lemma_offsets_add(a, fd, cfg);
            lemma_offsets_add(a + fd, bnd, cfg);
            lemma_offsets_add(a + fd + bnd, f, cfg);
            lemma_offsets_add(a + fd + bnd + f, fi, cfg);
            lemma_offsets_add(a + fd + bnd + f + fi, tri, cfg);
        },
        CommandType::Stroke { .. } => {
            let a = seq![
                DrawOp::SetPipeline(PipelineKind::Stroke),
                crate::plan::bind_uniforms(cmd, u, cfg),
                DrawOp::PushViewSize,
            ];
            assert(offsets_ok(a, cfg));
            lemma_offsets_add(a, sd, cfg);
        },
        CommandType::StencilStroke { .. } => {
            let a = seq![
                DrawOp::SetPipeline(PipelineKind::StencilStrokeBase),
                crate::plan::bind_uniforms(cmd, u, cfg),
                DrawOp::PushViewSize,
            ];
            let b = seq![
                DrawOp::SetPipeline(PipelineKind::StencilStrokeAaPixels),
                crate::plan::bind_uniforms(cmd, u + 1, cfg),
            ];
            let c = seq![DrawOp::SetPipeline(PipelineKind::StencilStrokeClearStencil)];
            assert(offsets_ok(a, cfg));
            assert(offsets_ok(b, cfg));
            assert(offsets_ok(c, cfg));
            lemma_offsets_add(a, sd, cfg);
            lemma_offsets_add(a + sd, b, cfg);
            lemma_offsets_add(a + sd + b, sd, cfg);
            lemma_offsets_add(a + sd + b + sd, c, cfg);
            lemma_offsets_add(a + sd + b + sd + c, sd, cfg);
            assert(body == a + sd + b + sd + c + sd);
        },
        CommandType::Triangles { .. } => {
            let a = seq![
                DrawOp::SetPipeline(PipelineKind::Triangles),
                DrawOp::PushViewSize,
                crate::plan::bind_uniforms(cmd, u, cfg),
            ];
            assert(offsets_ok(a, cfg));
            lemma_offsets_add(a, tri, cfg);
        },
        _ => {
            assert(offsets_ok(body, cfg));
        },
    }
    lemma_offsets_add(select, body, cfg);
    lemma_offsets_add(begin, select + body, cfg);
}


proof fn lemma_plan_offsets<P, C>(cmds: Seq<Command<P, C>>, target: RenderTarget, ranges: Seq<IndexRange>, cfg: PlanConfig)
    requires
        uniforms_of(cmds).len() <= usize::MAX,
        fans_of(cmds).len() <= usize::MAX,
        clear_colors_of(cmds).len() <= usize::MAX,
    ensures
        offsets_ok(plan_ops(cmds, initial_state(target), ranges, cfg), cfg),
    decreases cmds.len(),
{
    if cmds.len() > 0 {
        let st0 = initial_state(target);
        let pre = cmds.drop_last();
        let cmd = cmds.last();
        assert(uniforms_of(cmds) == uniforms_of(pre) + cmd_uniforms(cmd.cmd_type));
        assert(fans_of(cmds) == fans_of(pre) + crate::prepare::cmd_fans(cmd));
        assert(clear_colors_of(cmds) == clear_colors_of(pre) + cmd_clear_colors(cmd.cmd_type));
        lemma_plan_offsets(pre, target, ranges, cfg);
        crate::plan::lemma_plan_state_counts(pre, target);
        lemma_cmd_offsets(cmd, plan_state(pre, st0), ranges, cfg);
        lemma_offsets_add(plan_ops(pre, st0, ranges, cfg), cmd_ops(cmd, plan_state(pre, st0), ranges, cfg), cfg);
    }
}

/// Law: every binding step of a frame binds its block at the block's byte position: a
/// uniform block at its slot times the uniform stride, a clear rect at its slot times the
/// clear-rect stride, wherever that position fits in `u32`.
pub proof fn lemma_render_plan_offsets<P, C>(cmds: Seq<Command<P, C>>, target: RenderTarget, ranges: Seq<IndexRange>, cfg: PlanConfig)
    requires
        uniforms_of(cmds).len() <= usize::MAX,
        fans_of(cmds).len() <= usize::MAX,
        clear_colors_of(cmds).len() <= usize::MAX,
    ensures
        forall|j: int|
            0 <= j < render_plan(cmds, target, ranges, cfg).len() ==> offset_ok(#[trigger] render_plan(cmds, target, ranges, cfg)[j], cfg),
{
    let st0 = initial_state(target);
    lemma_plan_offsets(cmds, target, ranges, cfg);
    let last: Seq<DrawOp> = if plan_state(cmds, st0).pass_open { seq![DrawOp::Submit] } else { Seq::empty() };
    assert(offsets_ok(last, cfg));
    lemma_offsets_add(plan_ops(cmds, st0, ranges, cfg), last, cfg);
    assert(render_plan(cmds, target, ranges, cfg) == plan_ops(cmds, st0, ranges, cfg) + last);
}

/// The target of the position after some commands is the starting target or one that a
/// command switched to.
proof fn lemma_state_target<P, C>(cmds: Seq<Command<P, C>>, target: RenderTarget)
    ensures
        plan_state(cmds, initial_state(target)).target == target || exists|i: int|
            0 <= i < cmds.len() && (#[trigger] cmds[i]).cmd_type == CommandType::<P, C>::SetRenderTarget(
                plan_state(cmds, initial_state(target)).target,
            ),
    decreases cmds.len(),
{
    if cmds.len() > 0 {
        let pre = cmds.drop_last();
        lemma_state_target(pre, target);
        let t = plan_state(cmds, initial_state(target)).target;
        let t0 = plan_state(pre, initial_state(target)).target;
        if t != target {
            if t == t0 {
                let i = choose|i: int| 0 <= i < pre.len() && (#[trigger] pre[i]).cmd_type == CommandType::<P, C>::SetRenderTarget(t0);
                assert(cmds[i] == pre[i]);
            } else {
                assert(cmds[cmds.len() - 1] == cmds.last());
            }
        }
    }
}

proof fn lemma_plan_opens<P, C>(cmds: Seq<Command<P, C>>, target: RenderTarget, ranges: Seq<IndexRange>, cfg: PlanConfig)
    ensures
        forall|j: int|
            0 <= j < plan_ops(cmds, initial_state(target), ranges, cfg).len() ==> opens_known_target(
                #[trigger] plan_ops(cmds, initial_state(target), ranges, cfg)[j],
                target,
                cmds,
            ),
    decreases cmds.len(),
{
    if cmds.len() > 0 {
        let pre = cmds.drop_last();
        let cmd = cmds.last();
        let st0 = initial_state(target);
        lemma_plan_opens(pre, target, ranges, cfg);
        let st = plan_state(pre, st0);
        lemma_cmd_opens(cmd, st, ranges, cfg);
        lemma_state_target(pre, target);
        let a = plan_ops(pre, st0, ranges, cfg);
        let b = cmd_ops(cmd, st, ranges, cfg);
        let all = plan_ops(cmds, st0, ranges, cfg);
        assert(all == a + b);
        assert forall|j: int| 0 <= j < all.len() implies opens_known_target(#[trigger] all[j], target, cmds) by {
            if j < a.len() {
                assert(all[j] == a[j]);
                assert(opens_known_target(a[j], target, pre));
                if all[j] is BeginPass && all[j]->BeginPass_0 != target {
                    let t = all[j]->BeginPass_0;
                    let i = choose|i: int| 0 <= i < pre.len() && (#[trigger] pre[i]).cmd_type == CommandType::<P, C>::SetRenderTarget(t);
                    assert(cmds[i] == pre[i]);
                }
            } else {
                assert(all[j] == b[j - a.len()]);
                if all[j] is BeginPass && all[j]->BeginPass_0 != target {
                    assert(b[j - a.len()] is BeginPass);
                    let i = choose|i: int| 0 <= i < pre.len() && (#[trigger] pre[i]).cmd_type == CommandType::<P, C>::SetRenderTarget(st.target);
                    assert(cmds[i] == pre[i]);
                }
            }
        }
    }
}

/// Law: passes are opened on the right targets. A frame with commands first opens a pass
/// on the target it starts with, and every pass it opens is on that target or on a target
/// that one of its commands switches to.
pub proof fn lemma_render_plan_targets<P, C>(cmds: Seq<Command<P, C>>, target: RenderTarget, ranges: Seq<IndexRange>, cfg: PlanConfig)
    ensures
        cmds.len() > 0 ==> render_plan(cmds, target, ranges, cfg)[0] == DrawOp::BeginPass(target),
        forall|j: int|
            0 <= j < render_plan(cmds, target, ranges, cfg).len() ==> opens_known_target(
                #[trigger] render_plan(cmds, target, ranges, cfg)[j],
                target,
                cmds,
            ),
{
    let st0 = initial_state(target);
    lemma_plan_opens(cmds, target, ranges, cfg);
    let a = plan_ops(cmds, st0, ranges, cfg);
    let last: Seq<DrawOp> = if plan_state(cmds, st0).pass_open { seq![DrawOp::Submit] } else { Seq::empty() };
    let all = render_plan(cmds, target, ranges, cfg);
    assert(all == a + last);
    assert forall|j: int| 0 <= j < all.len() implies opens_known_target(#[trigger] all[j], target, cmds) by {
        if j < a.len() {
            assert(all[j] == a[j]);
        } else {
            assert(all[j] == last[j - a.len()]);
        }
    }
    if cmds.len() > 0 {
        let one = cmds.take(1);
        let rest = cmds.skip(1);
        assert(cmds =~= one + rest);
        lemma_plan_ops_add(one, rest, st0, ranges, cfg);
        assert(one.drop_last() =~= Seq::<Command<P, C>>::empty());
        assert(one.last() == cmds[0]);
        assert(plan_ops(one.drop_last(), st0, ranges, cfg) =~= Seq::<DrawOp>::empty());
        assert(plan_state(one.drop_last(), st0) == st0);
        assert(Seq::<DrawOp>::empty() + cmd_ops(cmds[0], st0, ranges, cfg) =~= cmd_ops(cmds[0], st0, ranges, cfg));
        assert(plan_ops(one, st0, ranges, cfg) =~= cmd_ops(cmds[0], st0, ranges, cfg));
        lemma_cmd_opens(cmds[0], st0, ranges, cfg);
        let x = cmd_ops(cmds[0], st0, ranges, cfg);
        assert(x.len() > 0);
        assert(all[0] == x[0]);
    }
}

} // verus!
