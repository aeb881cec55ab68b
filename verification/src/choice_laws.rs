use vstd::prelude::*;

use crate::command::{Command, CommandType, Drawable, RenderTarget};
use crate::plan::{
    DrawOp, PipelineKind, PlanConfig, PlanState, cmd_ops, convex_draws, fill_draws, initial_state,
    plan_ops, plan_state, render_plan, stroke_draws, triangle_draws,
};
use crate::prepare::IndexRange;
use crate::rule_laws::rule_op_of;

verus! {

/// Whether drawing `cmd` may use the pipeline `kind`: a convex fill its fan and stroke
/// pipelines, a concave fill its stencil pipeline and the pipelines of its fill rule, a
/// stroke the stroke pipeline, a stencil stroke its three pipelines, a triangle list the
/// triangle pipeline, a clear rect the clear-rect pipeline, and a change of target none.
pub open spec fn pipeline_for<P, C>(kind: PipelineKind, cmd: Command<P, C>, antialias: bool) -> bool {
    match cmd.cmd_type {
        CommandType::ConvexFill { .. } => kind == PipelineKind::ConvexFillBuffer || kind
            == PipelineKind::ConvexStrokeBuffer,
        CommandType::ConcaveFill { .. } => kind == PipelineKind::ConcaveFillVerts || rule_op_of(
            DrawOp::SetPipeline(kind),
            cmd.fill_rule,
            antialias,
        ),
        CommandType::Stroke { .. } => kind == PipelineKind::Stroke,
        CommandType::StencilStroke { .. } => kind == PipelineKind::StencilStrokeBase || kind
            == PipelineKind::StencilStrokeAaPixels || kind == PipelineKind::StencilStrokeClearStencil,
        CommandType::Triangles { .. } => kind == PipelineKind::Triangles,
        CommandType::ClearRect { .. } => kind == PipelineKind::ClearRect,
        CommandType::SetRenderTarget(_) => false,
    }
}

/// Every pipeline that `s` sets may be used by `cmd`.
pub open spec fn sets_only_for<P, C>(s: Seq<DrawOp>, cmd: Command<P, C>, antialias: bool) -> bool {
    forall|i: int| 0 <= i < s.len() && (#[trigger] s[i]) is SetPipeline ==> pipeline_for(s[i]->0, cmd, antialias)
}

/// `s` sets no pipeline.
pub open spec fn sets_none(s: Seq<DrawOp>) -> bool {
    forall|i: int| 0 <= i < s.len() ==> !((#[trigger] s[i]) is SetPipeline)
}

proof fn lemma_contains_add(a: Seq<DrawOp>, b: Seq<DrawOp>, x: DrawOp)
    ensures
        a.contains(x) ==> (a + b).contains(x),
        b.contains(x) ==> (a + b).contains(x),
{
    if a.contains(x) {
        let i = choose|i: int| 0 <= i < a.len() && a[i] == x;
        assert((a + b)[i] == x);
    }
    if b.contains(x) {
        let i = choose|i: int| 0 <= i < b.len() && b[i] == x;
        assert((a + b)[a.len() + i] == x);
    }
}

proof fn lemma_first_contains(a: Seq<DrawOp>, b: Seq<DrawOp>)
    requires
        a.len() > 0,
    ensures
        (a + b).contains(a[0]),
{
    assert((a + b)[0] == a[0]);
}

proof fn lemma_sets_none_add(a: Seq<DrawOp>, b: Seq<DrawOp>)
    requires
        sets_none(a),
        sets_none(b),
    ensures
        sets_none(a + b),
{
    assert forall|i: int| 0 <= i < (a + b).len() implies !((#[trigger] (a + b)[i]) is SetPipeline) by {
        if i < a.len() {
            assert((a + b)[i] == a[i]);
        } else {
            assert((a + b)[i] == b[i - a.len()]);
        }
    }
}

proof fn lemma_only_add<P, C>(a: Seq<DrawOp>, b: Seq<DrawOp>, cmd: Command<P, C>, aa: bool)
    requires
        sets_only_for(a, cmd, aa),
        sets_only_for(b, cmd, aa),
    ensures
        sets_only_for(a + b, cmd, aa),
{
    assert forall|i: int| 0 <= i < (a + b).len() && (#[trigger] (a + b)[i]) is SetPipeline implies pipeline_for(
        (a + b)[i]->0,
        cmd,
        aa,
    ) by {
        if i < a.len() {
            assert((a + b)[i] == a[i]);
        } else {
            assert((a + b)[i] == b[i - a.len()]);
        }
    }
}

proof fn lemma_none_only<P, C>(s: Seq<DrawOp>, cmd: Command<P, C>, aa: bool)
    requires
        sets_none(s),
    ensures
        sets_only_for(s, cmd, aa),
{
}

proof fn lemma_stroke_draws_none(ds: Seq<Drawable>)
    ensures
        sets_none(stroke_draws(ds)),
    decreases ds.len(),
{
    if ds.len() > 0 {
        lemma_stroke_draws_none(ds.drop_last());
        let last: Seq<DrawOp> = match ds.last().stroke_verts {
            Some(v) => seq![crate::plan::vert_draw(v)],
            None => Seq::empty(),
        };
        lemma_sets_none_add(stroke_draws(ds.drop_last()), last);
    }
}

proof fn lemma_fill_draws_none(ds: Seq<Drawable>, r: int, ranges: Seq<IndexRange>)
    ensures
        sets_none(fill_draws(ds, r, ranges)),
    decreases ds.len(),
{
    if ds.len() > 0 {
        lemma_fill_draws_none(ds.drop_last(), r, ranges);
        let last: Seq<DrawOp> = match ds.last().fill_verts {
            Some(_) => seq![crate::plan::indexed_draw(r + crate::prepare::drawable_fans(ds.drop_last()).len(), ranges)],
            None => Seq::empty(),
        };
        lemma_sets_none_add(fill_draws(ds.drop_last(), r, ranges), last);
    }
}

proof fn lemma_convex_draws_only<P, C>(ds: Seq<Drawable>, r: int, ranges: Seq<IndexRange>, cmd: Command<P, C>, aa: bool)
    requires
        cmd.cmd_type is ConvexFill,
    ensures
        sets_only_for(convex_draws(ds, r, ranges), cmd, aa),
    decreases ds.len(),
{
    if ds.len() > 0 {
        lemma_convex_draws_only(ds.drop_last(), r, ranges, cmd, aa);
        let a = seq![DrawOp::SetPipeline(PipelineKind::ConvexFillBuffer), DrawOp::PushViewSize];
        let b: Seq<DrawOp> = match ds.last().fill_verts {
            Some(_) => seq![crate::plan::indexed_draw(r + crate::prepare::drawable_fans(ds.drop_last()).len(), ranges)],
            None => Seq::empty(),
        };
        let c: Seq<DrawOp> = match ds.last().stroke_verts {
            Some(v) => seq![DrawOp::SetPipeline(PipelineKind::ConvexStrokeBuffer), crate::plan::vert_draw(v)],
            None => Seq::empty(),
        };
        assert(sets_only_for(a, cmd, aa));
        assert(sets_only_for(b, cmd, aa));
        assert(sets_only_for(c, cmd, aa));
        let pre = convex_draws(ds.drop_last(), r, ranges);
        lemma_only_add(pre, a, cmd, aa);
        lemma_only_add(pre + a, b, cmd, aa);
        lemma_only_add(pre + a + b, c, cmd, aa);
    }
}

/// The steps of one command set only pipelines that the command may use, and always its
/// first pipeline (each of the three of a stencil stroke).
#[verifier::spinoff_prover]
#[verifier::rlimit(60)]
pub proof fn lemma_cmd_pipelines<P, C>(cmd: Command<P, C>, st: PlanState, ranges: Seq<IndexRange>, cfg: PlanConfig)
    ensures
        sets_only_for(cmd_ops(cmd, st, ranges, cfg), cmd, cfg.antialias),
        cmd.cmd_type is ConvexFill ==> cmd_ops(cmd, st, ranges, cfg).contains(DrawOp::SetPipeline(PipelineKind::ConvexFillBuffer)),
        cmd.cmd_type is ConcaveFill ==> cmd_ops(cmd, st, ranges, cfg).contains(DrawOp::SetPipeline(PipelineKind::ConcaveFillVerts)),
        cmd.cmd_type is Stroke ==> cmd_ops(cmd, st, ranges, cfg).contains(DrawOp::SetPipeline(PipelineKind::Stroke)),
        cmd.cmd_type is StencilStroke ==> {
            &&& cmd_ops(cmd, st, ranges, cfg).contains(DrawOp::SetPipeline(PipelineKind::StencilStrokeBase))
            &&& cmd_ops(cmd, st, ranges, cfg).contains(DrawOp::SetPipeline(PipelineKind::StencilStrokeAaPixels))
            &&& cmd_ops(cmd, st, ranges, cfg).contains(DrawOp::SetPipeline(PipelineKind::StencilStrokeClearStencil))
        },
        cmd.cmd_type is Triangles ==> cmd_ops(cmd, st, ranges, cfg).contains(DrawOp::SetPipeline(PipelineKind::Triangles)),
        cmd.cmd_type is ClearRect ==> cmd_ops(cmd, st, ranges, cfg).contains(DrawOp::SetPipeline(PipelineKind::ClearRect)),
{
    let aa = cfg.antialias;
    let begin: Seq<DrawOp> = if st.pass_open { Seq::empty() } else { seq![DrawOp::BeginPass(st.target)] };
    let select = seq![DrawOp::SelectPipelines(crate::blend::spec_wgpu_blend(cmd.composite_operation))];
    let body = crate::plan::cmd_body(cmd, st, ranges, cfg);
    let head = begin + select;
    assert(cmd_ops(cmd, st, ranges, cfg) == head + body);
    assert(sets_none(begin));
    assert(sets_none(select));
    lemma_sets_none_add(begin, select);
    lemma_none_only(head, cmd, aa);
    let u = st.uniform_slot as int;
    let r = st.range_slot as int;
    let ds = cmd.drawables@;
    lemma_stroke_draws_none(ds);
    lemma_fill_draws_none(ds, r, ranges);
    let sd = stroke_draws(ds);
    let tri = triangle_draws(cmd.triangles_verts);
    assert(sets_none(tri));
    lemma_none_only(sd, cmd, aa);
    lemma_none_only(tri, cmd, aa);
    match cmd.cmd_type {
        CommandType::ConvexFill { .. } => {
            let a = seq![DrawOp::SetPipeline(PipelineKind::ConvexFillBuffer), crate::plan::bind_uniforms(cmd, u, cfg)];
            assert(sets_only_for(a, cmd, aa));
            lemma_convex_draws_only(ds, r, ranges, cmd, aa);
            lemma_only_add(a, convex_draws(ds, r, ranges), cmd, aa);
            lemma_first_contains(a, convex_draws(ds, r, ranges));
            assert(body == a + convex_draws(ds, r, ranges));
        },
        CommandType::ConcaveFill { .. } => {
            let a = seq![
                DrawOp::SetPipeline(PipelineKind::ConcaveFillVerts),
                DrawOp::PushViewSize,
                DrawOp::BindUniforms {
                    image: None,
                    alpha_mask: None,
                    slot: u as usize,
                    offset: (u * cfg.uniform_stride) as u32,
                },
            ];
            let b = seq![crate::plan::bind_uniforms(cmd, u + 1, cfg)];
            let fr = DrawOp::SetPipeline(crate::plan::fringes_pipeline(cmd.fill_rule));
            let fi = DrawOp::SetPipeline(crate::plan::fills_pipeline(cmd.fill_rule));
            let f: Seq<DrawOp> = if aa { seq![fr] + sd } else { Seq::empty() };
            let fd = fill_draws(ds, r, ranges);
            assert(body == a + fd + b + f + seq![fi] + tri);
            assert(sets_only_for(a, cmd, aa));
            assert(sets_only_for(b, cmd, aa));
            lemma_none_only(fd, cmd, aa);
            assert(sets_only_for(seq![fi], cmd, aa));
            if aa {
                assert(sets_only_for(seq![fr], cmd, aa));
                lemma_only_add(seq![fr], sd, cmd, aa);
            }
            assert(sets_only_for(f, cmd, aa));
            lemma_only_add(a, fd, cmd, aa);
            lemma_only_add(a + fd, b, cmd, aa);
            lemma_only_add(a + fd + b, f, cmd, aa);
            lemma_only_add(a + fd + b + f, seq![fi], cmd, aa);
            lemma_only_add(a + fd + b + f + seq![fi], tri, cmd, aa);
            lemma_first_contains(a, fd + b + f + seq![fi] + tri);
            assert(a + fd + b + f + seq![fi] + tri == a + (fd + b + f + seq![fi] + tri));
        },
        CommandType::Stroke { .. } => {
            let a = seq![
                DrawOp::SetPipeline(PipelineKind::Stroke),
                crate::plan::bind_uniforms(cmd, u, cfg),
                DrawOp::PushViewSize,
            ];
            assert(sets_only_for(a, cmd, aa));
            lemma_only_add(a, sd, cmd, aa);
            lemma_first_contains(a, sd);
            assert(body == a + sd);
        },
        CommandType::StencilStroke { .. } => {
            let a = seq![
                DrawOp::SetPipeline(PipelineKind::StencilStrokeBase),
                crate::plan::bind_uniforms(cmd, u, cfg),
                DrawOp::PushViewSize,
            ];
            let b = seq![
                DrawOp::SetPipeline(PipelineKind::StencilStrokeAaPixels),
                crate::plan::bind_uniforms(cmd, u + 1, cfg),
            ];
            let c = seq![DrawOp::SetPipeline(PipelineKind::StencilStrokeClearStencil)];
            assert(sets_only_for(a, cmd, aa));
            assert(sets_only_for(b, cmd, aa));
            assert(sets_only_for(c, cmd, aa));
            lemma_only_add(a, sd, cmd, aa);
            lemma_only_add(a + sd, b, cmd, aa);
            lemma_only_add(a + sd + b, sd, cmd, aa);
            lemma_only_add(a + sd + b + sd, c, cmd, aa);
            lemma_only_add(a + sd + b + sd + c, sd, cmd, aa);
            assert(body == a + sd + b + sd + c + sd);
            lemma_first_contains(a, sd + b + sd + c + sd);
            assert(a + sd + b + sd + c + sd == a + (sd + b + sd + c + sd));
            lemma_first_contains(b, sd + c + sd);
            lemma_contains_add(a + sd, b + sd + c + sd, b[0]);
            assert(a + sd + b + sd + c + sd == (a + sd) + (b + sd + c + sd));
            assert(b + sd + c + sd == b + (sd + c + sd));
            lemma_first_contains(c, sd);
            lemma_contains_add(a + sd + b + sd, c + sd, c[0]);
            assert(a + sd + b + sd + c + sd == (a + sd + b + sd) + (c + sd));
        },
        CommandType::Triangles { .. } => {
            let a = seq![
                DrawOp::SetPipeline(PipelineKind::Triangles),
                DrawOp::PushViewSize,
                crate::plan::bind_uniforms(cmd, u, cfg),
            ];
            assert(sets_only_for(a, cmd, aa));
            lemma_only_add(a, tri, cmd, aa);
            lemma_first_contains(a, tri);
            assert(body == a + tri);
        },
        CommandType::ClearRect { .. } => {
            assert(sets_only_for(body, cmd, aa));
            assert(body[0] == DrawOp::SetPipeline(PipelineKind::ClearRect));
        },
        CommandType::SetRenderTarget(_) => {
            assert(sets_none(body));
        },
    }
    lemma_only_add(head, body, cmd, aa);
    lemma_contains_add(head, body, DrawOp::SetPipeline(PipelineKind::ConvexFillBuffer));
    lemma_contains_add(head, body, DrawOp::SetPipeline(PipelineKind::ConcaveFillVerts));
    lemma_contains_add(head, body, DrawOp::SetPipeline(PipelineKind::Stroke));
    lemma_contains_add(head, body, DrawOp::SetPipeline(PipelineKind::StencilStrokeBase));
    lemma_contains_add(head, body, DrawOp::SetPipeline(PipelineKind::StencilStrokeAaPixels));
    lemma_contains_add(head, body, DrawOp::SetPipeline(PipelineKind::StencilStrokeClearStencil));
    lemma_contains_add(head, body, DrawOp::SetPipeline(PipelineKind::Triangles));
    lemma_contains_add(head, body, DrawOp::SetPipeline(PipelineKind::ClearRect));
    if cmd.cmd_type is ClearRect {
        assert(body.contains(DrawOp::SetPipeline(PipelineKind::ClearRect)));
    }
}

/// Whether the steps `s` set the first pipeline of `cmd` (each of the three of a stencil
/// stroke).
pub open spec fn sets_first<P, C>(s: Seq<DrawOp>, cmd: Command<P, C>) -> bool {
    match cmd.cmd_type {
        CommandType::ConvexFill { .. } => s.contains(DrawOp::SetPipeline(PipelineKind::ConvexFillBuffer)),
        CommandType::ConcaveFill { .. } => s.contains(DrawOp::SetPipeline(PipelineKind::ConcaveFillVerts)),
        CommandType::Stroke { .. } => s.contains(DrawOp::SetPipeline(PipelineKind::Stroke)),
        CommandType::StencilStroke { .. } => {
            &&& s.contains(DrawOp::SetPipeline(PipelineKind::StencilStrokeBase))
            &&& s.contains(DrawOp::SetPipeline(PipelineKind::StencilStrokeAaPixels))
            &&& s.contains(DrawOp::SetPipeline(PipelineKind::StencilStrokeClearStencil))
        },
        CommandType::Triangles { .. } => s.contains(DrawOp::SetPipeline(PipelineKind::Triangles)),
        CommandType::ClearRect { .. } => s.contains(DrawOp::SetPipeline(PipelineKind::ClearRect)),
        CommandType::SetRenderTarget(_) => true,
    }
}

proof fn lemma_sets_first_add<P, C>(a: Seq<DrawOp>, b: Seq<DrawOp>, cmd: Command<P, C>)
    ensures
        sets_first(a, cmd) ==> sets_first(a + b, cmd),
        sets_first(b, cmd) ==> sets_first(a + b, cmd),
{
    lemma_contains_add(a, b, DrawOp::SetPipeline(PipelineKind::ConvexFillBuffer));
    lemma_contains_add(a, b, DrawOp::SetPipeline(PipelineKind::ConcaveFillVerts));
    lemma_contains_add(a, b, DrawOp::SetPipeline(PipelineKind::Stroke));
    lemma_contains_add(a, b, DrawOp::SetPipeline(PipelineKind::StencilStrokeBase));
    lemma_contains_add(a, b, DrawOp::SetPipeline(PipelineKind::StencilStrokeAaPixels));
    lemma_contains_add(a, b, DrawOp::SetPipeline(PipelineKind::StencilStrokeClearStencil));
    lemma_contains_add(a, b, DrawOp::SetPipeline(PipelineKind::Triangles));
    lemma_contains_add(a, b, DrawOp::SetPipeline(PipelineKind::ClearRect));
}

proof fn lemma_plan_pipelines<P, C>(cmds: Seq<Command<P, C>>, st0: PlanState, ranges: Seq<IndexRange>, cfg: PlanConfig)
    ensures
        forall|j: int|
            0 <= j < plan_ops(cmds, st0, ranges, cfg).len() && (#[trigger] plan_ops(cmds, st0, ranges, cfg)[j]) is SetPipeline
                ==> exists|i: int|
                0 <= i < cmds.len() && pipeline_for(plan_ops(cmds, st0, ranges, cfg)[j]->0, #[trigger] cmds[i], cfg.antialias),
        forall|i: int| 0 <= i < cmds.len() ==> sets_first(plan_ops(cmds, st0, ranges, cfg), #[trigger] cmds[i]),
    decreases cmds.len(),
{
    if cmds.len() > 0 {
        let pre = cmds.drop_last();
        let cmd = cmds.last();
        let n = cmds.len() - 1;
        lemma_plan_pipelines(pre, st0, ranges, cfg);
        let st = plan_state(pre, st0);
        lemma_cmd_pipelines(cmd, st, ranges, cfg);
        let a = plan_ops(pre, st0, ranges, cfg);
        let b = cmd_ops(cmd, st, ranges, cfg);
        let all = plan_ops(cmds, st0, ranges, cfg);
        assert(all == a + b);
        assert forall|j: int| 0 <= j < all.len() && (#[trigger] all[j]) is SetPipeline implies exists|i: int|
            0 <= i < cmds.len() && pipeline_for(all[j]->0, #[trigger] cmds[i], cfg.antialias) by {
            if j < a.len() {
                assert(all[j] == a[j]);
                let i = choose|i: int| 0 <= i < pre.len() && pipeline_for(a[j]->0, #[trigger] pre[i], cfg.antialias);
                assert(cmds[i] == pre[i]);
            } else {
                assert(all[j] == b[j - a.len()]);
                assert(b[j - a.len()] is SetPipeline);
                assert(cmds[n] == cmd);
            }
        }
        assert forall|i: int| 0 <= i < cmds.len() implies sets_first(all, #[trigger] cmds[i]) by {
            lemma_sets_first_add(a, b, cmds[i]);
            if i < n {
                assert(cmds[i] == pre[i]);
            } else {
                assert(cmds[i] == cmd);
            }
        }
    }
}

/// Law: each command is drawn with its own pipelines. Every pipeline set in the steps of a
/// frame is one that some command of the frame may use (`pipeline_for`: a convex fill its
/// fan and stroke pipelines, a concave fill its stencil pipeline and those of its fill
/// rule, a stroke the stroke pipeline, a stencil stroke its three pipelines, a triangle
/// list the triangle pipeline, a clear rect the clear-rect pipeline); and every command
/// of the frame has its first pipeline set, each of the three of a stencil stroke.
pub proof fn lemma_render_plan_pipelines<P, C>(cmds: Seq<Command<P, C>>, target: RenderTarget, ranges: Seq<IndexRange>, cfg: PlanConfig)
    ensures
        forall|j: int|
            0 <= j < render_plan(cmds, target, ranges, cfg).len() && (#[trigger] render_plan(cmds, target, ranges, cfg)[j]) is SetPipeline
                ==> exists|i: int|
                0 <= i < cmds.len() && pipeline_for(render_plan(cmds, target, ranges, cfg)[j]->0, #[trigger] cmds[i], cfg.antialias),
        forall|i: int| 0 <= i < cmds.len() ==> sets_first(render_plan(cmds, target, ranges, cfg), #[trigger] cmds[i]),
{
    let st0 = initial_state(target);
    lemma_plan_pipelines(cmds, st0, ranges, cfg);
    let a = plan_ops(cmds, st0, ranges, cfg);
    let last: Seq<DrawOp> = if plan_state(cmds, st0).pass_open { seq![DrawOp::Submit] } else { Seq::empty() };
    let all = render_plan(cmds, target, ranges, cfg);
    assert(all == a + last);
    assert forall|j: int| 0 <= j < all.len() && (#[trigger] all[j]) is SetPipeline implies exists|i: int|
        0 <= i < cmds.len() && pipeline_for(all[j]->0, #[trigger] cmds[i], cfg.antialias) by {
        if j < a.len() {
            assert(all[j] == a[j]);
        } else {
            assert(all[j] == last[j - a.len()]);
        }
    }
    assert forall|i: int| 0 <= i < cmds.len() implies sets_first(all, #[trigger] cmds[i]) by {
        lemma_sets_first_add(a, last, cmds[i]);
    }
}

} // verus!
