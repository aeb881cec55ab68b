use vstd::prelude::*;

use crate::block_laws::lemma_plan_ops_add;
use crate::command::{Command, CommandType, Drawable, RenderTarget};
use crate::plan::{
    DrawOp, PipelineKind, PlanConfig, PlanState, cmd_ops, convex_draws, fill_draws, initial_state,
    plan_ops, plan_state, render_plan, stroke_draws, triangle_draws,
};
use crate::prepare::IndexRange;

verus! {

/// The draw of the vertices `v.0 .. v.0 + v.1`, each end cut to `u32`.
pub open spec fn draw_of(v: (usize, usize)) -> DrawOp {
    DrawOp::Draw { start: v.0 as u32, end: (v.0 + v.1) as u32 }
}

/// Whether `ops` draws every vertex range that `cmd` asks to draw: the stroke strips of
/// its drawables for a convex fill, a stroke, a stencil stroke and an antialiased
/// concave fill, and its triangle vertices for a concave fill and a triangle list.
pub open spec fn draws_its_vertices<P, C>(ops: Seq<DrawOp>, cmd: Command<P, C>, antialias: bool) -> bool {
    &&& (cmd.cmd_type is ConvexFill || cmd.cmd_type is Stroke || cmd.cmd_type is StencilStroke
        || (cmd.cmd_type is ConcaveFill && antialias)) ==> forall|k: int|
        0 <= k < cmd.drawables@.len() && (#[trigger] cmd.drawables@[k]).stroke_verts is Some
            ==> ops.contains(draw_of(cmd.drawables@[k].stroke_verts->Some_0))
    &&& (cmd.cmd_type is ConcaveFill || cmd.cmd_type is Triangles) && cmd.triangles_verts is Some
        ==> ops.contains(draw_of(cmd.triangles_verts->Some_0))
}

proof fn lemma_contains_add(a: Seq<DrawOp>, b: Seq<DrawOp>, x: DrawOp)
    ensures
        a.contains(x) ==> (a + b).contains(x),
        b.contains(x) ==> (a + b).contains(x),
{
    if a.contains(x) {
        let i = choose|i: int| 0 <= i < a.len() && a[i] == x;
        assert((a + b)[i] == x);
    }
    if b.contains(x) {
        let i = choose|i: int| 0 <= i < b.len() && b[i] == x;
        assert((a + b)[a.len() + i] == x);
    }
}

proof fn lemma_stroke_draws_contains(ds: Seq<Drawable>, k: int)
    requires
        0 <= k < ds.len(),
        ds[k].stroke_verts is Some,
    ensures
        stroke_draws(ds).contains(draw_of(ds[k].stroke_verts->Some_0)),
    decreases ds.len(),
{
    let pre = ds.drop_last();
    let x = draw_of(ds[k].stroke_verts->Some_0);
    let last: Seq<DrawOp> = match ds.last().stroke_verts {
        Some(v) => seq![crate::plan::vert_draw(v)],
        None => Seq::empty(),
    };
    assert(stroke_draws(ds) == stroke_draws(pre) + last);
    if k == ds.len() - 1 {
        assert(last[0] == x);
        lemma_contains_add(stroke_draws(pre), last, x);
    } else {
        assert(pre[k] == ds[k]);
        lemma_stroke_draws_contains(pre, k);
        lemma_contains_add(stroke_draws(pre), last, x);
    }
}

proof fn lemma_convex_draws_contains(ds: Seq<Drawable>, r: int, ranges: Seq<IndexRange>, k: int)
    requires
        0 <= k < ds.len(),
        ds[k].stroke_verts is Some,
    ensures
        convex_draws(ds, r, ranges).contains(draw_of(ds[k].stroke_verts->Some_0)),
    decreases ds.len(),
{
    let pre = ds.drop_last();
    let x = draw_of(ds[k].stroke_verts->Some_0);
    let a = seq![DrawOp::SetPipeline(PipelineKind::ConvexFillBuffer), DrawOp::PushViewSize];
    let b: Seq<DrawOp> = match ds.last().fill_verts {
        Some(_) => seq![crate::plan::indexed_draw(r + crate::prepare::drawable_fans(pre).len(), ranges)],
        None => Seq::empty(),
    };
    let c: Seq<DrawOp> = match ds.last().stroke_verts {
        Some(v) => seq![DrawOp::SetPipeline(PipelineKind::ConvexStrokeBuffer), crate::plan::vert_draw(v)],
        None => Seq::empty(),
    };
    let p = convex_draws(pre, r, ranges);
    assert(convex_draws(ds, r, ranges) == p + a + b + c);
    if k == ds.len() - 1 {
        assert(c[1] == x);
        lemma_contains_add(p + a + b, c, x);
    } else {
        assert(pre[k] == ds[k]);
        lemma_convex_draws_contains(pre, r, ranges, k);
        lemma_contains_add(p, a, x);
        lemma_contains_add(p + a, b, x);
        lemma_contains_add(p + a + b, c, x);
    }
}

/// One command's steps draw every vertex range the command asks to draw.
#[verifier::spinoff_prover]
#[verifier::rlimit(60)]
pub proof fn lemma_cmd_vertices<P, C>(cmd: Command<P, C>, st: PlanState, ranges: Seq<IndexRange>, cfg: PlanConfig)
    ensures
        draws_its_vertices(cmd_ops(cmd, st, ranges, cfg), cmd, cfg.antialias),
{
    let aa = cfg.antialias;
    let begin: Seq<DrawOp> = if st.pass_open { Seq::empty() } else { seq![DrawOp::BeginPass(st.target)] };
    let select = seq![DrawOp::SelectPipelines(crate::blend::spec_wgpu_blend(cmd.composite_operation))];
    let body = crate::plan::cmd_body(cmd, st, ranges, cfg);
    let head = begin + select;
    let ops = cmd_ops(cmd, st, ranges, cfg);
    assert(ops == head + body);
    let u = st.uniform_slot as int;
    let r = st.range_slot as int;
    let ds = cmd.drawables@;
    let sd = stroke_draws(ds);
    let tri = triangle_draws(cmd.triangles_verts);
    if cmd.triangles_verts is Some {
        assert(tri[0] == draw_of(cmd.triangles_verts->Some_0));
        assert(tri.contains(draw_of(cmd.triangles_verts->Some_0)));
    }
    match cmd.cmd_type {
        CommandType::ConvexFill { .. } => {
            let a = seq![DrawOp::SetPipeline(PipelineKind::ConvexFillBuffer), crate::plan::bind_uniforms(cmd, u, cfg)];
            assert(body == a + convex_draws(ds, r, ranges));
            assert forall|k: int| 0 <= k < ds.len() && (#[trigger] ds[k]).stroke_verts is Some implies ops.contains(
                draw_of(ds[k].stroke_verts->Some_0),
            ) by {
                let x = draw_of(ds[k].stroke_verts->Some_0);
                lemma_convex_draws_contains(ds, r, ranges, k);
                lemma_contains_add(a, convex_draws(ds, r, ranges), x);
                lemma_contains_add(head, body, x);
            }
        },
        CommandType::Stroke { .. } => {
            let a = seq![
                DrawOp::SetPipeline(PipelineKind::Stroke),
                crate::plan::bind_uniforms(cmd, u, cfg),
                DrawOp::PushViewSize,
            ];
            assert(body == a + sd);
            assert forall|k: int| 0 <= k < ds.len() && (#[trigger] ds[k]).stroke_verts is Some implies ops.contains(
                draw_of(ds[k].stroke_verts->Some_0),
            ) by {
                let x = draw_of(ds[k].stroke_verts->Some_0);
                lemma_stroke_draws_contains(ds, k);
                lemma_contains_add(a, sd, x);
                lemma_contains_add(head, body, x);
            }
        },
        CommandType::StencilStroke { .. } => {
            let a = seq![
                DrawOp::SetPipeline(PipelineKind::StencilStrokeBase),
                crate::plan::bind_uniforms(cmd, u, cfg),
                DrawOp::PushViewSize,
            ];
            let rest = seq![
                DrawOp::SetPipeline(PipelineKind::StencilStrokeAaPixels),
                crate::plan::bind_uniforms(cmd, u + 1, cfg),
            ] + sd + seq![DrawOp::SetPipeline(PipelineKind::StencilStrokeClearStencil)] + sd;
            assert(body == a + sd + rest);
            assert forall|k: int| 0 <= k < ds.len() && (#[trigger] ds[k]).stroke_verts is Some implies ops.contains(
                draw_of(ds[k].stroke_verts->Some_0),
            ) by {
                let x = draw_of(ds[k].stroke_verts->Some_0);
                lemma_stroke_draws_contains(ds, k);
                lemma_contains_add(a, sd, x);
                lemma_contains_add(a + sd, rest, x);
                lemma_contains_add(head, body, x);
            }
        },
        CommandType::Triangles { .. } => {
            let a = seq![
                DrawOp::SetPipeline(PipelineKind::Triangles),
                DrawOp::PushViewSize,
                crate::plan::bind_uniforms(cmd, u, cfg),
            ];
            assert(body == a + tri);
            if cmd.triangles_verts is Some {
                let x = draw_of(cmd.triangles_verts->Some_0);
                lemma_contains_add(a, tri, x);
                lemma_contains_add(head, body, x);
            }
        },
        CommandType::ConcaveFill { .. } => {
            let a = seq![
                DrawOp::SetPipeline(PipelineKind::ConcaveFillVerts),
                DrawOp::PushViewSize,
                DrawOp::BindUniforms {
                    image: None,
                    alpha_mask: None,
                    slot: u as usize,
                    offset: (u * cfg.uniform_stride) as u32,
                },
            ];
            let bnd = seq![crate::plan::bind_uniforms(cmd, u + 1, cfg)];
            let fr = seq![DrawOp::SetPipeline(crate::plan::fringes_pipeline(cmd.fill_rule))];
            let fi = seq![DrawOp::SetPipeline(crate::plan::fills_pipeline(cmd.fill_rule))];
            let f: Seq<DrawOp> = if aa { fr + sd } else { Seq::empty() };
            let front = a + fill_draws(ds, r, ranges) + bnd;
            assert(body == front + f + fi + tri);
            if cmd.triangles_verts is Some {
                let x = draw_of(cmd.triangles_verts->Some_0);
                lemma_contains_add(front + f + fi, tri, x);
                lemma_contains_add(head, body, x);
            }
            if aa {
                assert forall|k: int| 0 <= k < ds.len() && (#[trigger] ds[k]).stroke_verts is Some implies ops.contains(
                    draw_of(ds[k].stroke_verts->Some_0),
                ) by {
                    let x = draw_of(ds[k].stroke_verts->Some_0);
                    lemma_stroke_draws_contains(ds, k);
                    lemma_contains_add(fr, sd, x);
                    lemma_contains_add(front, f, x);
                    lemma_contains_add(front + f, fi, x);
                    lemma_contains_add(front + f + fi, tri, x);
                    lemma_contains_add(head, body, x);
                }
            }
        },
        _ => {},
    }
}

#[verifier::spinoff_prover]
#[verifier::rlimit(60)]
proof fn lemma_vertices_at<P, C>(cmds: Seq<Command<P, C>>, target: RenderTarget, ranges: Seq<IndexRange>, cfg: PlanConfig, i: int)
    requires
        0 <= i < cmds.len(),
    ensures
        draws_its_vertices(render_plan(cmds, target, ranges, cfg), cmds[i], cfg.antialias),
{
    let st0 = initial_state(target);
    let last: Seq<DrawOp> = if plan_state(cmds, st0).pass_open { seq![DrawOp::Submit] } else { Seq::empty() };
    let c = cmds[i];
    let pre = cmds.take(i);
    let one = seq![c];
    let post = cmds.skip(i + 1);
    assert(cmds =~= pre + one + post);
    assert(pre + one + post =~= pre + (one + post));
    lemma_plan_ops_add(pre, one + post, st0, ranges, cfg);
    let st = plan_state(pre, st0);
    lemma_plan_ops_add(one, post, st, ranges, cfg);
    assert(one.drop_last() =~= Seq::<Command<P, C>>::empty());
    assert(one.last() == c);
    assert(plan_ops(one.drop_last(), st, ranges, cfg) =~= Seq::<DrawOp>::empty());
    assert(plan_state(one.drop_last(), st) == st);
    assert(Seq::<DrawOp>::empty() + cmd_ops(c, st, ranges, cfg) =~= cmd_ops(c, st, ranges, cfg));
    assert(plan_ops(one, st, ranges, cfg) == cmd_ops(c, st, ranges, cfg));
    lemma_cmd_vertices(c, st, ranges, cfg);
    let a = plan_ops(pre, st0, ranges, cfg);
    let x = cmd_ops(c, st, ranges, cfg);
    let b = plan_ops(post, plan_state(one, st), ranges, cfg) + last;
    let all = render_plan(cmds, target, ranges, cfg);
    assert(all == plan_ops(cmds, st0, ranges, cfg) + last);
    assert(all =~= a + x + b);
    let ds = c.drawables@;
    assert forall|k: int| 0 <= k < ds.len() && (#[trigger] ds[k]).stroke_verts is Some && x.contains(
        draw_of(ds[k].stroke_verts->Some_0),
    ) implies all.contains(draw_of(ds[k].stroke_verts->Some_0)) by {
        let d = draw_of(ds[k].stroke_verts->Some_0);
        lemma_contains_add(a, x, d);
        lemma_contains_add(a + x, b, d);
    }
    if c.triangles_verts is Some {
        let d = draw_of(c.triangles_verts->Some_0);
        lemma_contains_add(a, x, d);
        lemma_contains_add(a + x, b, d);
    }
}

/// Law: a frame draws every vertex range its commands ask for. The stroke strip of each
/// drawable of a convex fill, a stroke, a stencil stroke or (antialiased) a concave fill is
/// drawn, as is the triangle list of a concave fill or a triangle command.
pub proof fn lemma_render_plan_vertices<P, C>(cmds: Seq<Command<P, C>>, target: RenderTarget, ranges: Seq<IndexRange>, cfg: PlanConfig)
    ensures
        forall|i: int|
            0 <= i < cmds.len() ==> draws_its_vertices(render_plan(cmds, target, ranges, cfg), #[trigger] cmds[i], cfg.antialias),
{
    assert forall|i: int| 0 <= i < cmds.len() implies draws_its_vertices(
        render_plan(cmds, target, ranges, cfg),
        #[trigger] cmds[i],
        cfg.antialias,
    ) by {
        lemma_vertices_at(cmds, target, ranges, cfg, i);
    }
}

} // verus!
