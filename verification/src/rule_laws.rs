use vstd::prelude::*;

use crate::command::{Command, CommandType, Drawable, FillRule, RenderTarget};
use crate::plan::{
    DrawOp, PipelineKind, PlanConfig, PlanState, cmd_ops, concave_body, convex_draws, fill_draws,
    initial_state, plan_ops, plan_state, render_plan, stroke_draws, triangle_draws,
};
use crate::prepare::IndexRange;

verus! {

/// Whether an op sets one of the pipelines that depend on a fill rule: the fringe and
/// cover pipelines of concave fills.
pub open spec fn rule_op(op: DrawOp) -> bool {
    ||| op == DrawOp::SetPipeline(PipelineKind::ConcaveFringesNonZero)
    ||| op == DrawOp::SetPipeline(PipelineKind::ConcaveFringesEvenOdd)
    ||| op == DrawOp::SetPipeline(PipelineKind::ConcaveFillsNonZero)
    ||| op == DrawOp::SetPipeline(PipelineKind::ConcaveFillsEvenOdd)
}

/// Whether `op` sets a pipeline of the fill rule `rule`: its cover pipeline, or, when
/// antialiasing, its fringe pipeline.
pub open spec fn rule_op_of(op: DrawOp, rule: FillRule, antialias: bool) -> bool {
    match rule {
        FillRule::NonZero => op == DrawOp::SetPipeline(PipelineKind::ConcaveFillsNonZero) || (antialias
            && op == DrawOp::SetPipeline(PipelineKind::ConcaveFringesNonZero)),
        FillRule::EvenOdd => op == DrawOp::SetPipeline(PipelineKind::ConcaveFillsEvenOdd) || (antialias
            && op == DrawOp::SetPipeline(PipelineKind::ConcaveFringesEvenOdd)),
    }
}

/// No op of `s` sets a fill-rule pipeline.
pub open spec fn no_rule_ops(s: Seq<DrawOp>) -> bool {
    forall|i: int| 0 <= i < s.len() ==> !rule_op(#[trigger] s[i])
}

/// Every fill-rule pipeline that `s` sets is one of `rule`.
pub open spec fn only_rule_ops(s: Seq<DrawOp>, rule: FillRule, antialias: bool) -> bool {
    forall|i: int| 0 <= i < s.len() && rule_op(#[trigger] s[i]) ==> rule_op_of(s[i], rule, antialias)
}

/// Some command of `cmds` is a concave fill with the fill rule `rule`.
pub open spec fn concave_with<P, C>(cmds: Seq<Command<P, C>>, rule: FillRule) -> bool {
    exists|i: int| 0 <= i < cmds.len() && (#[trigger] cmds[i]).cmd_type is ConcaveFill && cmds[i].fill_rule == rule
}

proof fn lemma_contains_add(a: Seq<DrawOp>, b: Seq<DrawOp>, x: DrawOp)
    ensures
        a.contains(x) ==> (a + b).contains(x),
        b.contains(x) ==> (a + b).contains(x),
{
    if a.contains(x) {
        let i = choose|i: int| 0 <= i < a.len() && a[i] == x;
        assert((a + b)[i] == x);
    }
    if b.contains(x) {
        let i = choose|i: int| 0 <= i < b.len() && b[i] == x;
        assert((a + b)[a.len() + i] == x);
    }
}

proof fn lemma_no_rule_add(a: Seq<DrawOp>, b: Seq<DrawOp>)
    requires
        no_rule_ops(a),
        no_rule_ops(b),
    ensures
        no_rule_ops(a + b),
{
    assert forall|i: int| 0 <= i < (a + b).len() implies !rule_op(#[trigger] (a + b)[i]) by {
        if i < a.len() {
            assert((a + b)[i] == a[i]);
        } else {
            assert((a + b)[i] == b[i - a.len()]);
        }
    }
}

proof fn lemma_only_rule_add(a: Seq<DrawOp>, b: Seq<DrawOp>, rule: FillRule, aa: bool)
    requires
        only_rule_ops(a, rule, aa),
        only_rule_ops(b, rule, aa),
    ensures
        only_rule_ops(a + b, rule, aa),
{
    assert forall|i: int| 0 <= i < (a + b).len() && rule_op(#[trigger] (a + b)[i]) implies rule_op_of((a + b)[i], rule, aa) by {
        if i < a.len() {
            assert((a + b)[i] == a[i]);
        } else {
            assert((a + b)[i] == b[i - a.len()]);
        }
    }
}

proof fn lemma_stroke_draws_plain(ds: Seq<Drawable>)
    ensures
        no_rule_ops(stroke_draws(ds)),
    decreases ds.len(),
{
    if ds.len() > 0 {
        lemma_stroke_draws_plain(ds.drop_last());
        let last: Seq<DrawOp> = match ds.last().stroke_verts {
            Some(v) => seq![crate::plan::vert_draw(v)],
            None => Seq::empty(),
        };
        lemma_no_rule_add(stroke_draws(ds.drop_last()), last);
    }
}

proof fn lemma_fill_draws_plain(ds: Seq<Drawable>, r: int, ranges: Seq<IndexRange>)
    ensures
        no_rule_ops(fill_draws(ds, r, ranges)),
    decreases ds.len(),
{
    if ds.len() > 0 {
        lemma_fill_draws_plain(ds.drop_last(), r, ranges);
        let last: Seq<DrawOp> = match ds.last().fill_verts {
            Some(_) => seq![crate::plan::indexed_draw(r + crate::prepare::drawable_fans(ds.drop_last()).len(), ranges)],
            None => Seq::empty(),
        };
        lemma_no_rule_add(fill_draws(ds.drop_last(), r, ranges), last);
    }
}

proof fn lemma_convex_draws_plain(ds: Seq<Drawable>, r: int, ranges: Seq<IndexRange>)
    ensures
        no_rule_ops(convex_draws(ds, r, ranges)),
    decreases ds.len(),
{
    if ds.len() > 0 {
        lemma_convex_draws_plain(ds.drop_last(), r, ranges);
        let a = seq![DrawOp::SetPipeline(PipelineKind::ConvexFillBuffer), DrawOp::PushViewSize];
        let b: Seq<DrawOp> = match ds.last().fill_verts {
            Some(_) => seq![crate::plan::indexed_draw(r + crate::prepare::drawable_fans(ds.drop_last()).len(), ranges)],
            None => Seq::empty(),
        };
        let c: Seq<DrawOp> = match ds.last().stroke_verts {
            Some(v) => seq![DrawOp::SetPipeline(PipelineKind::ConvexStrokeBuffer), crate::plan::vert_draw(v)],
            None => Seq::empty(),
        };
        assert(no_rule_ops(a));
        assert(no_rule_ops(b));
        assert(no_rule_ops(c));
        lemma_no_rule_add(convex_draws(ds.drop_last(), r, ranges), a);
        lemma_no_rule_add(convex_draws(ds.drop_last(), r, ranges) + a, b);
        lemma_no_rule_add(convex_draws(ds.drop_last(), r, ranges) + a + b, c);
    }
}

proof fn lemma_no_rule_only(s: Seq<DrawOp>, rule: FillRule, aa: bool)
    requires
        no_rule_ops(s),
    ensures
        only_rule_ops(s, rule, aa),
{
}

/// The steps of one command set fill-rule pipelines only for a concave fill, and then
/// exactly those of its own rule: its cover pipeline always, its fringe pipeline when
/// antialiasing.
#[verifier::spinoff_prover]
#[verifier::rlimit(60)]
pub proof fn lemma_cmd_rule_ops<P, C>(cmd: Command<P, C>, st: PlanState, ranges: Seq<IndexRange>, cfg: PlanConfig)
    ensures
        !(cmd.cmd_type is ConcaveFill) ==> no_rule_ops(cmd_ops(cmd, st, ranges, cfg)),
        cmd.cmd_type is ConcaveFill ==> only_rule_ops(cmd_ops(cmd, st, ranges, cfg), cmd.fill_rule, cfg.antialias),
        cmd.cmd_type is ConcaveFill && cmd.fill_rule == FillRule::NonZero ==> {
            &&& cmd_ops(cmd, st, ranges, cfg).contains(DrawOp::SetPipeline(PipelineKind::ConcaveFillsNonZero))
            &&& cfg.antialias ==> cmd_ops(cmd, st, ranges, cfg).contains(DrawOp::SetPipeline(PipelineKind::ConcaveFringesNonZero))
        },
        cmd.cmd_type is ConcaveFill && cmd.fill_rule == FillRule::EvenOdd ==> {
            &&& cmd_ops(cmd, st, ranges, cfg).contains(DrawOp::SetPipeline(PipelineKind::ConcaveFillsEvenOdd))
            &&& cfg.antialias ==> cmd_ops(cmd, st, ranges, cfg).contains(DrawOp::SetPipeline(PipelineKind::ConcaveFringesEvenOdd))
        },
{
    let begin: Seq<DrawOp> = if st.pass_open { Seq::empty() } else { seq![DrawOp::BeginPass(st.target)] };
    let select = seq![DrawOp::SelectPipelines(crate::blend::spec_wgpu_blend(cmd.composite_operation))];
    let body = crate::plan::cmd_body(cmd, st, ranges, cfg);
    let ops = cmd_ops(cmd, st, ranges, cfg);
    assert(ops == begin + select + body);
    assert(no_rule_ops(begin));
    assert(no_rule_ops(select));
    lemma_no_rule_add(begin, select);
    let u = st.uniform_slot as int;
    let r = st.range_slot as int;
    let ds = cmd.drawables@;
    lemma_stroke_draws_plain(ds);
    lemma_fill_draws_plain(ds, r, ranges);
    lemma_convex_draws_plain(ds, r, ranges);
    let tri = triangle_draws(cmd.triangles_verts);
    assert(no_rule_ops(tri));
    match cmd.cmd_type {
        CommandType::ConcaveFill { .. } => {
            let a = seq![
                DrawOp::SetPipeline(PipelineKind::ConcaveFillVerts),
                DrawOp::PushViewSize,
                DrawOp::BindUniforms {
                    image: None,
                    alpha_mask: None,
                    slot: u as usize,
                    offset: (u * cfg.uniform_stride) as u32,
                },
            ];
            let b = seq![crate::plan::bind_uniforms(cmd, u + 1, cfg)];
            let fr = DrawOp::SetPipeline(crate::plan::fringes_pipeline(cmd.fill_rule));
            let fi = DrawOp::SetPipeline(crate::plan::fills_pipeline(cmd.fill_rule));
            let f: Seq<DrawOp> = if cfg.antialias { seq![fr] + stroke_draws(ds) } else { Seq::empty() };
            let front = a + fill_draws(ds, r, ranges) + b;
            assert(body == front + f + seq![fi] + tri);
            assert(no_rule_ops(a));
            assert(no_rule_ops(b));
            lemma_no_rule_add(a, fill_draws(ds, r, ranges));
            lemma_no_rule_add(a + fill_draws(ds, r, ranges), b);
            let rule = cmd.fill_rule;
            let aa = cfg.antialias;
            lemma_no_rule_only(begin + select, rule, aa);
            lemma_no_rule_only(front, rule, aa);
            lemma_no_rule_only(stroke_draws(ds), rule, aa);
            lemma_no_rule_only(tri, rule, aa);
            assert(only_rule_ops(seq![fi], rule, aa));
            if aa {
                assert(only_rule_ops(seq![fr], rule, aa));
                lemma_only_rule_add(seq![fr], stroke_draws(ds), rule, aa);
            }
            assert(only_rule_ops(f, rule, aa));
            lemma_only_rule_add(front, f, rule, aa);
            lemma_only_rule_add(front + f, seq![fi], rule, aa);
            lemma_only_rule_add(front + f + seq![fi], tri, rule, aa);
            lemma_only_rule_add(begin + select, body, rule, aa);
            assert(seq![fi].contains(fi)) by {
                assert(seq![fi][0] == fi);
            }
            lemma_contains_add(front + f, seq![fi], fi);
            lemma_contains_add(front + f + seq![fi], tri, fi);
            lemma_contains_add(begin + select, body, fi);
            if aa {
                assert((seq![fr] + stroke_draws(ds))[0] == fr);
                assert(f.contains(fr));
                lemma_contains_add(front, f, fr);
                lemma_contains_add(front + f, seq![fi], fr);
                lemma_contains_add(front + f + seq![fi], tri, fr);
                lemma_contains_add(begin + select, body, fr);
            }
        },
        CommandType::ConvexFill { .. } => {
            let a = seq![DrawOp::SetPipeline(PipelineKind::ConvexFillBuffer), crate::plan::bind_uniforms(cmd, u, cfg)];
            assert(no_rule_ops(a));
            lemma_no_rule_add(a, convex_draws(ds, r, ranges));
            lemma_no_rule_add(begin + select, body);
        },
        CommandType::Stroke { .. } => {
            let a = seq![
                DrawOp::SetPipeline(PipelineKind::Stroke),
                crate::plan::bind_uniforms(cmd, u, cfg),
                DrawOp::PushViewSize,
            ];
            assert(no_rule_ops(a));
            lemma_no_rule_add(a, stroke_draws(ds));
            lemma_no_rule_add(begin + select, body);
        },
        CommandType::StencilStroke { .. } => {
            let a = seq![
                DrawOp::SetPipeline(PipelineKind::StencilStrokeBase),
                crate::plan::bind_uniforms(cmd, u, cfg),
                DrawOp::PushViewSize,
            ];
            let b = seq![
                DrawOp::SetPipeline(PipelineKind::StencilStrokeAaPixels),
                crate::plan::bind_uniforms(cmd, u + 1, cfg),
            ];
            let c = seq![DrawOp::SetPipeline(PipelineKind::StencilStrokeClearStencil)];
            let sd = stroke_draws(ds);
            assert(no_rule_ops(a));
            assert(no_rule_ops(b));
            assert(no_rule_ops(c));
            lemma_no_rule_add(a, sd);
            lemma_no_rule_add(a + sd, b);
            lemma_no_rule_add(a + sd + b, sd);
            lemma_no_rule_add(a + sd + b + sd, c);
            lemma_no_rule_add(a + sd + b + sd + c, sd);
            assert(body == a + sd + b + sd + c + sd);
            lemma_no_rule_add(begin + select, body);
        },
        CommandType::Triangles { .. } => {
            let a = seq![
                DrawOp::SetPipeline(PipelineKind::Triangles),
                DrawOp::PushViewSize,
                crate::plan::bind_uniforms(cmd, u, cfg),
            ];
            assert(no_rule_ops(a));
            lemma_no_rule_add(a, tri);
            lemma_no_rule_add(begin + select, body);
        },
        CommandType::ClearRect { .. } => {
            assert(no_rule_ops(body));
            lemma_no_rule_add(begin + select, body);
        },
        CommandType::SetRenderTarget(_) => {
            assert(no_rule_ops(body));
            lemma_no_rule_add(begin + select, body);
        },
    }
}

/// The steps of a list of commands set a fill-rule pipeline only for a concave fill of that
/// rule among them, and set the pipelines of every concave fill's rule.
proof fn lemma_plan_rule_ops<P, C>(cmds: Seq<Command<P, C>>, st0: PlanState, ranges: Seq<IndexRange>, cfg: PlanConfig)
    ensures
        forall|j: int|
            0 <= j < plan_ops(cmds, st0, ranges, cfg).len() && rule_op(#[trigger] plan_ops(cmds, st0, ranges, cfg)[j])
                ==> exists|i: int|
                0 <= i < cmds.len() && (#[trigger] cmds[i]).cmd_type is ConcaveFill && rule_op_of(
                    plan_ops(cmds, st0, ranges, cfg)[j],
                    cmds[i].fill_rule,
                    cfg.antialias,
                ),
        forall|i: int|
            0 <= i < cmds.len() && (#[trigger] cmds[i]).cmd_type is ConcaveFill && cmds[i].fill_rule == FillRule::NonZero
                ==> {
                &&& plan_ops(cmds, st0, ranges, cfg).contains(DrawOp::SetPipeline(PipelineKind::ConcaveFillsNonZero))
                &&& cfg.antialias ==> plan_ops(cmds, st0, ranges, cfg).contains(DrawOp::SetPipeline(PipelineKind::ConcaveFringesNonZero))
            },
        forall|i: int|
            0 <= i < cmds.len() && (#[trigger] cmds[i]).cmd_type is ConcaveFill && cmds[i].fill_rule == FillRule::EvenOdd
                ==> {
                &&& plan_ops(cmds, st0, ranges, cfg).contains(DrawOp::SetPipeline(PipelineKind::ConcaveFillsEvenOdd))
                &&& cfg.antialias ==> plan_ops(cmds, st0, ranges, cfg).contains(DrawOp::SetPipeline(PipelineKind::ConcaveFringesEvenOdd))
            },
    decreases cmds.len(),
{
    if cmds.len() > 0 {
        let pre = cmds.drop_last();
        let cmd = cmds.last();
        let n = cmds.len() - 1;
        lemma_plan_rule_ops(pre, st0, ranges, cfg);
        let st = plan_state(pre, st0);
        lemma_cmd_rule_ops(cmd, st, ranges, cfg);
        let a = plan_ops(pre, st0, ranges, cfg);
        let b = cmd_ops(cmd, st, ranges, cfg);
        let all = plan_ops(cmds, st0, ranges, cfg);
        assert(all == a + b);
        assert forall|j: int| 0 <= j < all.len() && rule_op(#[trigger] all[j]) implies exists|i: int|
            0 <= i < cmds.len() && (#[trigger] cmds[i]).cmd_type is ConcaveFill && rule_op_of(all[j], cmds[i].fill_rule, cfg.antialias) by {
            if j < a.len() {
                assert(all[j] == a[j]);
                let i = choose|i: int|
                    0 <= i < pre.len() && (#[trigger] pre[i]).cmd_type is ConcaveFill && rule_op_of(a[j], pre[i].fill_rule, cfg.antialias);
                assert(cmds[i] == pre[i]);
            } else {
                assert(all[j] == b[j - a.len()]);
                assert(rule_op(b[j - a.len()]));
                assert(cmds[n] == cmd);
            }
        }
        let fnz = DrawOp::SetPipeline(PipelineKind::ConcaveFillsNonZero);
        let rnz = DrawOp::SetPipeline(PipelineKind::ConcaveFringesNonZero);
        let feo = DrawOp::SetPipeline(PipelineKind::ConcaveFillsEvenOdd);
        let reo = DrawOp::SetPipeline(PipelineKind::ConcaveFringesEvenOdd);
        lemma_contains_add(a, b, fnz);
        lemma_contains_add(a, b, rnz);
        lemma_contains_add(a, b, feo);
        lemma_contains_add(a, b, reo);
        assert forall|i: int| 0 <= i < cmds.len() && (#[trigger] cmds[i]).cmd_type is ConcaveFill && cmds[i].fill_rule == FillRule::NonZero
            implies all.contains(fnz) && (cfg.antialias ==> all.contains(rnz)) by {
            if i < n {
                assert(cmds[i] == pre[i]);
            } else {
                assert(cmds[i] == cmd);
            }
        }
        assert forall|i: int| 0 <= i < cmds.len() && (#[trigger] cmds[i]).cmd_type is ConcaveFill && cmds[i].fill_rule == FillRule::EvenOdd
            implies all.contains(feo) && (cfg.antialias ==> all.contains(reo)) by {
            if i < n {
                assert(cmds[i] == pre[i]);
            } else {
                assert(cmds[i] == cmd);
            }
        }
    }
}

/// Law: a concave fill is drawn with the pipelines of its own fill rule. In the steps of a
/// frame, the non-zero fringe and cover pipelines are set only if some concave fill of the
/// frame has the non-zero rule, the even-odd ones only if some has the even-odd rule, and
/// fringe pipelines only when antialiasing; and for every concave fill the cover pipeline
/// of its rule is set, with the fringe pipeline of its rule when antialiasing. More
/// precisely, each fill-rule pipeline that is set belongs to the rule of some concave fill
/// of the frame.
pub proof fn lemma_render_plan_fill_rules<P, C>(cmds: Seq<Command<P, C>>, target: RenderTarget, ranges: Seq<IndexRange>, cfg: PlanConfig)
    ensures
        forall|j: int|
            0 <= j < render_plan(cmds, target, ranges, cfg).len() && rule_op(#[trigger] render_plan(cmds, target, ranges, cfg)[j])
                ==> exists|i: int|
                0 <= i < cmds.len() && (#[trigger] cmds[i]).cmd_type is ConcaveFill && rule_op_of(
                    render_plan(cmds, target, ranges, cfg)[j],
                    cmds[i].fill_rule,
                    cfg.antialias,
                ),
        render_plan(cmds, target, ranges, cfg).contains(DrawOp::SetPipeline(PipelineKind::ConcaveFillsNonZero))
            || render_plan(cmds, target, ranges, cfg).contains(DrawOp::SetPipeline(PipelineKind::ConcaveFringesNonZero))
            ==> concave_with(cmds, FillRule::NonZero),
        render_plan(cmds, target, ranges, cfg).contains(DrawOp::SetPipeline(PipelineKind::ConcaveFillsEvenOdd))
            || render_plan(cmds, target, ranges, cfg).contains(DrawOp::SetPipeline(PipelineKind::ConcaveFringesEvenOdd))
            ==> concave_with(cmds, FillRule::EvenOdd),
        render_plan(cmds, target, ranges, cfg).contains(DrawOp::SetPipeline(PipelineKind::ConcaveFringesNonZero))
            || render_plan(cmds, target, ranges, cfg).contains(DrawOp::SetPipeline(PipelineKind::ConcaveFringesEvenOdd))
            ==> cfg.antialias,
        forall|i: int|
            0 <= i < cmds.len() && (#[trigger] cmds[i]).cmd_type is ConcaveFill && cmds[i].fill_rule == FillRule::NonZero
                ==> {
                &&& render_plan(cmds, target, ranges, cfg).contains(DrawOp::SetPipeline(PipelineKind::ConcaveFillsNonZero))
                &&& cfg.antialias ==> render_plan(cmds, target, ranges, cfg).contains(DrawOp::SetPipeline(PipelineKind::ConcaveFringesNonZero))
            },
        forall|i: int|
            0 <= i < cmds.len() && (#[trigger] cmds[i]).cmd_type is ConcaveFill && cmds[i].fill_rule == FillRule::EvenOdd
                ==> {
                &&& render_plan(cmds, target, ranges, cfg).contains(DrawOp::SetPipeline(PipelineKind::ConcaveFillsEvenOdd))
                &&& cfg.antialias ==> render_plan(cmds, target, ranges, cfg).contains(DrawOp::SetPipeline(PipelineKind::ConcaveFringesEvenOdd))
            },
{
    let st0 = initial_state(target);
    lemma_plan_rule_ops(cmds, st0, ranges, cfg);
    let a = plan_ops(cmds, st0, ranges, cfg);
    let last: Seq<DrawOp> = if plan_state(cmds, st0).pass_open { seq![DrawOp::Submit] } else { Seq::empty() };
    let all = render_plan(cmds, target, ranges, cfg);
    assert(all == a + last);
    assert(no_rule_ops(last));
    assert forall|j: int| 0 <= j < all.len() && rule_op(#[trigger] all[j]) implies exists|i: int|
        0 <= i < cmds.len() && (#[trigger] cmds[i]).cmd_type is ConcaveFill && rule_op_of(all[j], cmds[i].fill_rule, cfg.antialias) by {
        if j < a.len() {
            assert(all[j] == a[j]);
        } else {
            assert(all[j] == last[j - a.len()]);
        }
    }
    let ops = seq![
        DrawOp::SetPipeline(PipelineKind::ConcaveFillsNonZero),
        DrawOp::SetPipeline(PipelineKind::ConcaveFringesNonZero),
        DrawOp::SetPipeline(PipelineKind::ConcaveFillsEvenOdd),
        DrawOp::SetPipeline(PipelineKind::ConcaveFringesEvenOdd),
    ];
    assert forall|k: int| 0 <= k < 4 implies (a.contains(#[trigger] ops[k]) ==> all.contains(ops[k])) && (all.contains(ops[k]) ==> {
        let j = choose|j: int| 0 <= j < all.len() && all[j] == ops[k];
        rule_op(all[j]) && exists|i: int|
            0 <= i < cmds.len() && (#[trigger] cmds[i]).cmd_type is ConcaveFill && rule_op_of(all[j], cmds[i].fill_rule, cfg.antialias)
    }) by {
        lemma_contains_add(a, last, ops[k]);
        if all.contains(ops[k]) {
            let j = choose|j: int| 0 <= j < all.len() && all[j] == ops[k];
            assert(rule_op(all[j]));
        }
    }
    assert(ops[0] == DrawOp::SetPipeline(PipelineKind::ConcaveFillsNonZero));
    assert(ops[1] == DrawOp::SetPipeline(PipelineKind::ConcaveFringesNonZero));
    assert(ops[2] == DrawOp::SetPipeline(PipelineKind::ConcaveFillsEvenOdd));
    assert(ops[3] == DrawOp::SetPipeline(PipelineKind::ConcaveFringesEvenOdd));
}

} // verus!
