use vstd::prelude::*;

use crate::command::{Command, CommandType, Drawable, RenderTarget};
use crate::plan::{
    DrawOp, PipelineKind, PlanConfig, PlanState, bind_uniforms, cmd_body, fills_pipeline, fringes_pipeline, cmd_next, cmd_ops, concave_body,
    convex_body, convex_draws, fill_draws, indexed_draw, initial_state, plan_ops, plan_state,
    render_plan, stencil_stroke_body, stroke_body, stroke_draws, triangle_draws, triangles_body,
    vert_draw,
};
use crate::prepare::{
    IndexRange, clear_colors_of, cmd_clear_colors, cmd_fans, cmd_uniforms, drawable_fans, fans_of,
    uniforms_of,
};

verus! {

/// Which kind of numbered block an op uses.
pub enum SlotKind {
    Uniform,
    Range,
    ClearRect,
}

/// The numbered block of the given kind that one op uses, if any.
pub open spec fn op_slots(op: DrawOp, k: SlotKind) -> Seq<usize> {
    match op {
        DrawOp::BindUniforms { slot, .. } => if k is Uniform {
            seq![slot]
        } else {
            Seq::empty()
        },
        DrawOp::DrawIndexed { slot, .. } => if k is Range {
            seq![slot]
        } else {
            Seq::empty()
        },
        DrawOp::BindClearRect { slot, .. } => if k is ClearRect {
            seq![slot]
        } else {
            Seq::empty()
        },
        _ => Seq::empty(),
    }
}

/// The numbered blocks of the given kind that a list of ops uses, in order.
pub open spec fn slots(ops: Seq<DrawOp>, k: SlotKind) -> Seq<usize>
    decreases ops.len(),
{
    if ops.len() == 0 {
        Seq::empty()
    } else {
        slots(ops.drop_last(), k) + op_slots(ops.last(), k)
    }
}

/// The block numbers `from, from + 1, ..., from + n - 1`.
pub open spec fn slot_run(from: int, n: int) -> Seq<usize> {
    Seq::new(n as nat, |i: int| (from + i) as usize)
}

/// Whether an op neither opens nor submits a pass.
pub open spec fn in_pass(op: DrawOp) -> bool {
    !(op is BeginPass) && !(op is Submit)
}

/// Whether a pass is open after one op, or `None` if the op is out of place: a pass opened
/// while one is open, a submit with none open, or any other op with none open.
pub open spec fn pass_step(open: bool, op: DrawOp) -> Option<bool> {
    match op {
        DrawOp::BeginPass(_) => if open {
            None
        } else {
            Some(true)
        },
        DrawOp::Submit => if open {
            Some(false)
        } else {
            None
        },
        _ => if open {
            Some(true)
        } else {
            None
        },
    }
}

/// Whether a pass is open after a list of ops, or `None` if some op is out of place.
pub open spec fn pass_run(open: bool, ops: Seq<DrawOp>) -> Option<bool>
    decreases ops.len(),
{
    if ops.len() == 0 {
        Some(open)
    } else {
        match pass_run(open, ops.drop_last()) {
            Some(o) => pass_step(o, ops.last()),
            None => None,
        }
    }
}

// ---- sequence lemmas ----

pub broadcast proof fn lemma_slots_push(s: Seq<DrawOp>, x: DrawOp, k: SlotKind)
    ensures
        #[trigger] slots(s.push(x), k) == slots(s, k) + op_slots(x, k),
{
    assert(s.push(x).drop_last() =~= s);
}

pub broadcast proof fn lemma_slots_add(a: Seq<DrawOp>, b: Seq<DrawOp>, k: SlotKind)
    ensures
        #[trigger] slots(a + b, k) == slots(a, k) + slots(b, k),
    decreases b.len(),
{
    if b.len() == 0 {
        assert(a + b =~= a);
        assert(slots(a, k) + slots(b, k) =~= slots(a, k));
    } else {
        assert((a + b).drop_last() =~= a + b.drop_last());
        lemma_slots_add(a, b.drop_last(), k);
        assert((a + b).last() == b.last());
        assert(slots(a + b, k) =~= slots(a, k) + slots(b, k));
    }
}

pub broadcast proof fn lemma_pass_run_add(o: bool, a: Seq<DrawOp>, b: Seq<DrawOp>)
    ensures
        #[trigger] pass_run(o, a + b) == match pass_run(o, a) {
            Some(p) => pass_run(p, b),
            None => None,
        },
    decreases b.len(),
{
    if b.len() == 0 {
        assert(a + b =~= a);
    } else {
        assert((a + b).drop_last() =~= a + b.drop_last());
        lemma_pass_run_add(o, a, b.drop_last());
        assert((a + b).last() == b.last());
    }
}

/// Ops that neither open nor submit keep an open pass open.
pub proof fn lemma_pass_run_in_pass(ops: Seq<DrawOp>)
    requires
        forall|i: int| 0 <= i < ops.len() ==> in_pass(#[trigger] ops[i]),
    ensures
        pass_run(true, ops) == Some(true),
    decreases ops.len(),
{
    if ops.len() > 0 {
        lemma_pass_run_in_pass(ops.drop_last());
    }
}

pub proof fn lemma_slots_one(a: DrawOp, k: SlotKind)
    ensures
        slots(seq![a], k) == op_slots(a, k),
{
    assert(seq![a].drop_last() =~= Seq::<DrawOp>::empty());
    assert(seq![a].last() == a);
    assert(slots(Seq::<DrawOp>::empty(), k) =~= Seq::<usize>::empty());
    assert(slots(seq![a], k) =~= op_slots(a, k));
}

pub proof fn lemma_slots_two(a: DrawOp, b: DrawOp, k: SlotKind)
    ensures
        slots(seq![a, b], k) == op_slots(a, k) + op_slots(b, k),
{
    lemma_slots_one(a, k);
    assert(seq![a, b].drop_last() =~= seq![a]);
    assert(slots(seq![a, b], k) =~= op_slots(a, k) + op_slots(b, k));
}

pub proof fn lemma_slots_three(a: DrawOp, b: DrawOp, c: DrawOp, k: SlotKind)
    ensures
        slots(seq![a, b, c], k) == op_slots(a, k) + op_slots(b, k) + op_slots(c, k),
{
    lemma_slots_two(a, b, k);
    assert(seq![a, b, c].drop_last() =~= seq![a, b]);
    assert(slots(seq![a, b, c], k) =~= op_slots(a, k) + op_slots(b, k) + op_slots(c, k));
}

pub proof fn lemma_pass_run_one(o: bool, a: DrawOp)
    ensures
        pass_run(o, seq![a]) == pass_step(o, a),
{
    assert(seq![a].drop_last() =~= Seq::<DrawOp>::empty());
    assert(seq![a].last() == a);
    assert(pass_run(o, Seq::<DrawOp>::empty()) == Some(o));
}

pub proof fn lemma_slot_run_add(a: int, n: int, m: int)
    requires
        0 <= n,
        0 <= m,
    ensures
        slot_run(a, n) + slot_run(a + n, m) == slot_run(a, n + m),
{
    assert(slot_run(a, n) + slot_run(a + n, m) =~= slot_run(a, n + m));
}

// ---- the draws of drawables ----

pub proof fn lemma_stroke_draws(ds: Seq<Drawable>, k: SlotKind)
    ensures
        slots(stroke_draws(ds), k) == Seq::<usize>::empty(),
        forall|i: int| 0 <= i < stroke_draws(ds).len() ==> in_pass(#[trigger] stroke_draws(ds)[i]),
    decreases ds.len(),
{
    broadcast use lemma_slots_add, lemma_slots_push;
    if ds.len() > 0 {
        lemma_stroke_draws(ds.drop_last(), k);
        let tail = match ds.last().stroke_verts {
            Some(v) => seq![vert_draw(v)],
            None => Seq::<DrawOp>::empty(),
        };
        assert(slots(tail, k) =~= Seq::<usize>::empty()) by {
            if tail.len() > 0 {
                assert(tail.drop_last() =~= Seq::<DrawOp>::empty());
            }
        }
        assert(slots(stroke_draws(ds), k) =~= Seq::<usize>::empty());
    }
}

pub proof fn lemma_triangle_draws(t: Option<(usize, usize)>, k: SlotKind)
    ensures
        slots(triangle_draws(t), k) == Seq::<usize>::empty(),
        forall|i: int| 0 <= i < triangle_draws(t).len() ==> in_pass(#[trigger] triangle_draws(t)[i]),
{
    broadcast use lemma_slots_push;
    assert(slots(triangle_draws(t), k) =~= Seq::<usize>::empty());
}

pub proof fn lemma_fill_draws(ds: Seq<Drawable>, r: int, ranges: Seq<IndexRange>, k: SlotKind)
    requires
        0 <= r,
        r + drawable_fans(ds).len() <= usize::MAX,
    ensures
        slots(fill_draws(ds, r, ranges), k) == if k is Range {
            slot_run(r, drawable_fans(ds).len() as int)
        } else {
            Seq::<usize>::empty()
        },
        forall|i: int|
            0 <= i < fill_draws(ds, r, ranges).len() ==> in_pass(#[trigger] fill_draws(ds, r, ranges)[i]),
    decreases ds.len(),
{
    broadcast use lemma_slots_add, lemma_slots_push;
    if ds.len() == 0 {
        assert(slot_run(r, 0) =~= Seq::<usize>::empty());
    } else {
        lemma_fill_draws(ds.drop_last(), r, ranges, k);
        let n = drawable_fans(ds.drop_last()).len() as int;
        let tail = match ds.last().fill_verts {
            Some(_) => seq![indexed_draw(r + n, ranges)],
            None => Seq::<DrawOp>::empty(),
        };
        if tail.len() > 0 {
            assert(tail.drop_last() =~= Seq::<DrawOp>::empty());
        }
        if k is Range {
            lemma_slot_run_add(r, n, tail.len() as int);
            assert(slots(tail, k) =~= slot_run(r + n, tail.len() as int));
        } else {
            assert(slots(tail, k) =~= Seq::<usize>::empty());
        }
        assert(slots(fill_draws(ds, r, ranges), k) =~= (if k is Range {
            slot_run(r, drawable_fans(ds).len() as int)
        } else {
            Seq::<usize>::empty()
        }));
    }
}

pub proof fn lemma_convex_draws(ds: Seq<Drawable>, r: int, ranges: Seq<IndexRange>, k: SlotKind)
    requires
        0 <= r,
        r + drawable_fans(ds).len() <= usize::MAX,
    ensures
        slots(convex_draws(ds, r, ranges), k) == if k is Range {
            slot_run(r, drawable_fans(ds).len() as int)
        } else {
            Seq::<usize>::empty()
        },
        forall|i: int|
            0 <= i < convex_draws(ds, r, ranges).len() ==> in_pass(
                #[trigger] convex_draws(ds, r, ranges)[i],
            ),
    decreases ds.len(),
{
    broadcast use lemma_slots_add, lemma_slots_push;
    if ds.len() == 0 {
        assert(slot_run(r, 0) =~= Seq::<usize>::empty());
    } else {
        lemma_convex_draws(ds.drop_last(), r, ranges, k);
        let n = drawable_fans(ds.drop_last()).len() as int;
        let head = seq![DrawOp::SetPipeline(PipelineKind::ConvexFillBuffer), DrawOp::PushViewSize];
        let fill = match ds.last().fill_verts {
            Some(_) => seq![indexed_draw(r + n, ranges)],
            None => Seq::<DrawOp>::empty(),
        };
        let stroke = match ds.last().stroke_verts {
            Some(v) => seq![DrawOp::SetPipeline(PipelineKind::ConvexStrokeBuffer), vert_draw(v)],
            None => Seq::<DrawOp>::empty(),
        };
        lemma_slots_two(DrawOp::SetPipeline(PipelineKind::ConvexFillBuffer), DrawOp::PushViewSize, k);
        assert(slots(head, k) =~= Seq::<usize>::empty());
        if let Some(v) = ds.last().stroke_verts {
            lemma_slots_two(DrawOp::SetPipeline(PipelineKind::ConvexStrokeBuffer), vert_draw(v), k);
        }
        assert(slots(stroke, k) =~= Seq::<usize>::empty());
        if k is Range {
            lemma_slot_run_add(r, n, fill.len() as int);
            assert(slots(fill, k) =~= slot_run(r + n, fill.len() as int));
        } else {
            assert(slots(fill, k) =~= Seq::<usize>::empty());
        }
        let all = convex_draws(ds, r, ranges);
        assert(all == convex_draws(ds.drop_last(), r, ranges) + head + fill + stroke);
        assert(slots(all, k) =~= (if k is Range {
            slot_run(r, drawable_fans(ds).len() as int)
        } else {
            Seq::<usize>::empty()
        }));
        assert forall|i: int| 0 <= i < all.len() implies in_pass(#[trigger] all[i]) by {
            let p = convex_draws(ds.drop_last(), r, ranges);
            if i >= p.len() {
                assert(all[i] == (head + fill + stroke)[i - p.len()]);
            }
        }
    }
}

} // verus!

verus! {

/// The block numbers of a kind that a step of the plan uses, given where each kind's
/// numbering stands (`u`, `r`, `c`) and how many blocks of each kind the step uses.
pub open spec fn kind_run(k: SlotKind, u: int, nu: int, r: int, nr: int, c: int, nc: int) -> Seq<usize> {
    match k {
        SlotKind::Uniform => slot_run(u, nu),
        SlotKind::Range => slot_run(r, nr),
        SlotKind::ClearRect => slot_run(c, nc),
    }
}

/// The position of a kind's numbering.
pub open spec fn counter(st: PlanState, k: SlotKind) -> int {
    match k {
        SlotKind::Uniform => st.uniform_slot as int,
        SlotKind::Range => st.range_slot as int,
        SlotKind::ClearRect => st.clear_slot as int,
    }
}

/// How many blocks of a kind one command uses.
pub open spec fn cmd_count<P, C>(cmd: Command<P, C>, k: SlotKind) -> int {
    match k {
        SlotKind::Uniform => cmd_uniforms(cmd.cmd_type).len() as int,
        SlotKind::Range => cmd_fans(cmd).len() as int,
        SlotKind::ClearRect => cmd_clear_colors(cmd.cmd_type).len() as int,
    }
}

/// How many blocks of a kind a list of commands uses.
pub open spec fn total<P, C>(cmds: Seq<Command<P, C>>, k: SlotKind) -> int {
    match k {
        SlotKind::Uniform => uniforms_of(cmds).len() as int,
        SlotKind::Range => fans_of(cmds).len() as int,
        SlotKind::ClearRect => clear_colors_of(cmds).len() as int,
    }
}

pub proof fn lemma_slot_run_empty(a: int)
    ensures
        slot_run(a, 0) == Seq::<usize>::empty(),
{
    assert(slot_run(a, 0) =~= Seq::<usize>::empty());
}

pub proof fn lemma_slot_run_one(a: int)
    requires
        0 <= a <= usize::MAX,
    ensures
        slot_run(a, 1) == seq![a as usize],
{
    assert(slot_run(a, 1) =~= seq![a as usize]);
}

pub proof fn lemma_slot_run_two(a: int)
    requires
        0 <= a,
        a + 1 <= usize::MAX,
    ensures
        slot_run(a, 2) == seq![a as usize, (a + 1) as usize],
{
    assert(slot_run(a, 2) =~= seq![a as usize, (a + 1) as usize]);
}

proof fn lemma_convex_body<P, C>(cmd: Command<P, C>, u: int, r: int, ranges: Seq<IndexRange>, cfg: PlanConfig, k: SlotKind)
    requires
        cmd.cmd_type is ConvexFill,
        0 <= u < usize::MAX,
        0 <= r,
        r + cmd_fans(cmd).len() <= usize::MAX,
    ensures
        slots(convex_body(cmd, u, r, ranges, cfg), k) == kind_run(k, u, 1, r, cmd_fans(cmd).len() as int, 0, 0),
        pass_run(true, convex_body(cmd, u, r, ranges, cfg)) == Some(true),
{
    broadcast use lemma_slots_add, lemma_pass_run_add;
    let ds = cmd.drawables@;
    let head = seq![DrawOp::SetPipeline(PipelineKind::ConvexFillBuffer), bind_uniforms(cmd, u, cfg)];
    lemma_slots_two(DrawOp::SetPipeline(PipelineKind::ConvexFillBuffer), bind_uniforms(cmd, u, cfg), k);
    lemma_convex_draws(ds, r, ranges, k);
    lemma_pass_run_in_pass(head);
    lemma_pass_run_in_pass(convex_draws(ds, r, ranges));
    lemma_slot_run_empty(0);
    lemma_slot_run_one(u);
    if !(k is Range) {
        lemma_slot_run_empty(r);
    }
    assert(slots(convex_body(cmd, u, r, ranges, cfg), k) =~= kind_run(k, u, 1, r, cmd_fans(cmd).len() as int, 0, 0));
}

proof fn lemma_concave_body<P, C>(cmd: Command<P, C>, u: int, r: int, ranges: Seq<IndexRange>, cfg: PlanConfig, k: SlotKind)
    requires
        cmd.cmd_type is ConcaveFill,
        0 <= u,
        u + 2 <= usize::MAX,
        0 <= r,
        r + cmd_fans(cmd).len() <= usize::MAX,
    ensures
        slots(concave_body(cmd, u, r, ranges, cfg), k) == kind_run(k, u, 2, r, cmd_fans(cmd).len() as int, 0, 0),
        pass_run(true, concave_body(cmd, u, r, ranges, cfg)) == Some(true),
{
    broadcast use lemma_slots_add, lemma_pass_run_add;
    let ds = cmd.drawables@;
    let first = DrawOp::BindUniforms {
        image: None,
        alpha_mask: None,
        slot: u as usize,
        offset: (u * cfg.uniform_stride) as u32,
    };
    let p1 = seq![DrawOp::SetPipeline(PipelineKind::ConcaveFillVerts), DrawOp::PushViewSize, first];
    let p3 = seq![bind_uniforms(cmd, u + 1, cfg)];
    let p4 = if cfg.antialias {
        seq![DrawOp::SetPipeline(fringes_pipeline(cmd.fill_rule))] + stroke_draws(ds)
    } else {
        Seq::empty()
    };
    let p5 = seq![DrawOp::SetPipeline(fills_pipeline(cmd.fill_rule))];
    let p6 = triangle_draws(cmd.triangles_verts);
    assert(concave_body(cmd, u, r, ranges, cfg) == p1 + fill_draws(ds, r, ranges) + p3 + p4 + p5 + p6);
    lemma_slots_three(DrawOp::SetPipeline(PipelineKind::ConcaveFillVerts), DrawOp::PushViewSize, first, k);
    lemma_slots_one(bind_uniforms(cmd, u + 1, cfg), k);
    lemma_slots_one(DrawOp::SetPipeline(fringes_pipeline(cmd.fill_rule)), k);
    lemma_slots_one(DrawOp::SetPipeline(fills_pipeline(cmd.fill_rule)), k);
    lemma_fill_draws(ds, r, ranges, k);
    lemma_stroke_draws(ds, k);
    lemma_triangle_draws(cmd.triangles_verts, k);
    lemma_pass_run_in_pass(p1);
    lemma_pass_run_in_pass(fill_draws(ds, r, ranges));
    lemma_pass_run_in_pass(p3);
    lemma_pass_run_in_pass(seq![DrawOp::SetPipeline(fringes_pipeline(cmd.fill_rule))]);
    lemma_pass_run_in_pass(stroke_draws(ds));
    lemma_pass_run_in_pass(p5);
    lemma_pass_run_in_pass(p6);
    assert(pass_run(true, p4) == Some(true));
    lemma_slot_run_empty(0);
    lemma_slot_run_two(u);
    if !(k is Range) {
        lemma_slot_run_empty(r);
    }
    assert(slots(p4, k) =~= Seq::<usize>::empty());
    assert(slots(concave_body(cmd, u, r, ranges, cfg), k) =~= kind_run(k, u, 2, r, cmd_fans(cmd).len() as int, 0, 0));
}

proof fn lemma_stroke_body<P, C>(cmd: Command<P, C>, u: int, cfg: PlanConfig, k: SlotKind)
    requires
        0 <= u < usize::MAX,
    ensures
        slots(stroke_body(cmd, u, cfg), k) == kind_run(k, u, 1, 0, 0, 0, 0),
        pass_run(true, stroke_body(cmd, u, cfg)) == Some(true),
{
    broadcast use lemma_slots_add, lemma_pass_run_add;
    let ds = cmd.drawables@;
    let p1 = seq![DrawOp::SetPipeline(PipelineKind::Stroke), bind_uniforms(cmd, u, cfg), DrawOp::PushViewSize];
    lemma_slots_three(DrawOp::SetPipeline(PipelineKind::Stroke), bind_uniforms(cmd, u, cfg), DrawOp::PushViewSize, k);
    lemma_stroke_draws(ds, k);
    lemma_pass_run_in_pass(p1);
    lemma_pass_run_in_pass(stroke_draws(ds));
    lemma_slot_run_empty(0);
    lemma_slot_run_one(u);
    assert(slots(stroke_body(cmd, u, cfg), k) =~= kind_run(k, u, 1, 0, 0, 0, 0));
}

proof fn lemma_stencil_stroke_body<P, C>(cmd: Command<P, C>, u: int, cfg: PlanConfig, k: SlotKind)
    requires
        0 <= u,
        u + 2 <= usize::MAX,
    ensures
        slots(stencil_stroke_body(cmd, u, cfg), k) == kind_run(k, u, 2, 0, 0, 0, 0),
        pass_run(true, stencil_stroke_body(cmd, u, cfg)) == Some(true),
{
    broadcast use lemma_slots_add, lemma_pass_run_add;
    let ds = cmd.drawables@;
    let p1 = seq![
        DrawOp::SetPipeline(PipelineKind::StencilStrokeBase),
        bind_uniforms(cmd, u, cfg),
        DrawOp::PushViewSize,
    ];
    let p3 = seq![DrawOp::SetPipeline(PipelineKind::StencilStrokeAaPixels), bind_uniforms(cmd, u + 1, cfg)];
    let p5 = seq![DrawOp::SetPipeline(PipelineKind::StencilStrokeClearStencil)];
    lemma_slots_three(DrawOp::SetPipeline(PipelineKind::StencilStrokeBase), bind_uniforms(cmd, u, cfg), DrawOp::PushViewSize, k);
    lemma_slots_two(DrawOp::SetPipeline(PipelineKind::StencilStrokeAaPixels), bind_uniforms(cmd, u + 1, cfg), k);
    lemma_slots_one(DrawOp::SetPipeline(PipelineKind::StencilStrokeClearStencil), k);
    lemma_stroke_draws(ds, k);
    lemma_pass_run_in_pass(p1);
    lemma_pass_run_in_pass(p3);
    lemma_pass_run_in_pass(p5);
    lemma_pass_run_in_pass(stroke_draws(ds));
    lemma_slot_run_empty(0);
    lemma_slot_run_two(u);
    assert(slots(stencil_stroke_body(cmd, u, cfg), k) =~= kind_run(k, u, 2, 0, 0, 0, 0));
}

proof fn lemma_triangles_body<P, C>(cmd: Command<P, C>, u: int, cfg: PlanConfig, k: SlotKind)
    requires
        0 <= u < usize::MAX,
    ensures
        slots(triangles_body(cmd, u, cfg), k) == kind_run(k, u, 1, 0, 0, 0, 0),
        pass_run(true, triangles_body(cmd, u, cfg)) == Some(true),
{
    broadcast use lemma_slots_add, lemma_pass_run_add;
    let p1 = seq![DrawOp::SetPipeline(PipelineKind::Triangles), DrawOp::PushViewSize, bind_uniforms(cmd, u, cfg)];
    lemma_slots_three(DrawOp::SetPipeline(PipelineKind::Triangles), DrawOp::PushViewSize, bind_uniforms(cmd, u, cfg), k);
    lemma_triangle_draws(cmd.triangles_verts, k);
    lemma_pass_run_in_pass(p1);
    lemma_pass_run_in_pass(triangle_draws(cmd.triangles_verts));
    lemma_slot_run_empty(0);
    lemma_slot_run_one(u);
    assert(slots(triangles_body(cmd, u, cfg), k) =~= kind_run(k, u, 1, 0, 0, 0, 0));
}

/// One command's steps use the next blocks of each kind, in order, and leave the pass
/// open unless the command switches target.
pub proof fn lemma_cmd_ops<P, C>(cmd: Command<P, C>, st: PlanState, ranges: Seq<IndexRange>, cfg: PlanConfig, k: SlotKind)
    requires
        st.uniform_slot + cmd_uniforms(cmd.cmd_type).len() <= usize::MAX,
        st.range_slot + cmd_fans(cmd).len() <= usize::MAX,
        st.clear_slot + cmd_clear_colors(cmd.cmd_type).len() <= usize::MAX,
    ensures
        slots(cmd_ops(cmd, st, ranges, cfg), k) == slot_run(counter(st, k), cmd_count(cmd, k)),
        pass_run(st.pass_open, cmd_ops(cmd, st, ranges, cfg)) == Some(cmd_next(cmd, st).pass_open),
{
    broadcast use lemma_slots_add, lemma_pass_run_add;
    let begin: Seq<DrawOp> = if st.pass_open { Seq::empty() } else { seq![DrawOp::BeginPass(st.target)] };
    let select = seq![DrawOp::SelectPipelines(crate::blend::spec_wgpu_blend(cmd.composite_operation))];
    let body = cmd_body(cmd, st, ranges, cfg);
    assert(cmd_ops(cmd, st, ranges, cfg) == begin + select + body);
    if !st.pass_open {
        lemma_slots_one(DrawOp::BeginPass(st.target), k);
        lemma_pass_run_one(false, DrawOp::BeginPass(st.target));
    }
    assert(slots(begin, k) =~= Seq::<usize>::empty());
    assert(pass_run(st.pass_open, begin) == Some(true));
    lemma_slots_one(DrawOp::SelectPipelines(crate::blend::spec_wgpu_blend(cmd.composite_operation)), k);
    lemma_pass_run_in_pass(select);
    let u = st.uniform_slot as int;
    let r = st.range_slot as int;
    let c = st.clear_slot as int;
    lemma_slot_run_empty(u);
    lemma_slot_run_empty(r);
    lemma_slot_run_empty(c);
    match cmd.cmd_type {
        CommandType::ConvexFill { .. } => {
            lemma_convex_body(cmd, u, r, ranges, cfg, k);
        },
        CommandType::ConcaveFill { .. } => {
            lemma_concave_body(cmd, u, r, ranges, cfg, k);
        },
        CommandType::Stroke { .. } => {
            lemma_stroke_body(cmd, u, cfg, k);
        },
        CommandType::StencilStroke { .. } => {
            lemma_stencil_stroke_body(cmd, u, cfg, k);
        },
        CommandType::Triangles { .. } => {
            lemma_triangles_body(cmd, u, cfg, k);
        },
        CommandType::ClearRect { x, y, width, height, .. } => {
            let b = DrawOp::BindClearRect {
                slot: st.clear_slot,
                offset: (st.clear_slot * cfg.clear_rect_stride) as u32,
            };
            let ops5 = seq![
                DrawOp::SetPipeline(PipelineKind::ClearRect),
                b,
                DrawOp::SetViewport { x, y, width, height },
                DrawOp::Draw { start: 0, end: 4 },
                DrawOp::ResetViewport,
            ];
            assert(body == ops5);
            lemma_slots_three(DrawOp::SetPipeline(PipelineKind::ClearRect), b, DrawOp::SetViewport { x, y, width, height }, k);
            lemma_slots_two(DrawOp::Draw { start: 0, end: 4 }, DrawOp::ResetViewport, k);
            let first3 = seq![DrawOp::SetPipeline(PipelineKind::ClearRect), b, DrawOp::SetViewport { x, y, width, height }];
            let last2 = seq![DrawOp::Draw { start: 0, end: 4 }, DrawOp::ResetViewport];
            assert(ops5 =~= first3 + last2);
            lemma_slot_run_one(c);
            lemma_pass_run_in_pass(ops5);
        },
        CommandType::SetRenderTarget(t) => {
            if t != st.target {
                lemma_slots_one(DrawOp::Submit, k);
                lemma_pass_run_one(true, DrawOp::Submit);
            }
        },
    }
    assert(slots(cmd_ops(cmd, st, ranges, cfg), k) =~= slot_run(counter(st, k), cmd_count(cmd, k)));
}

/// The steps of a list of commands use each kind's blocks `0, 1, 2, ...` in order, and
/// leave a pass open exactly when the recording's position says so.
pub proof fn lemma_plan_ops<P, C>(cmds: Seq<Command<P, C>>, target: RenderTarget, ranges: Seq<IndexRange>, cfg: PlanConfig, k: SlotKind)
    requires
        uniforms_of(cmds).len() <= usize::MAX,
        fans_of(cmds).len() <= usize::MAX,
        clear_colors_of(cmds).len() <= usize::MAX,
    ensures
        slots(plan_ops(cmds, initial_state(target), ranges, cfg), k) == slot_run(0, total(cmds, k)),
        pass_run(false, plan_ops(cmds, initial_state(target), ranges, cfg)) == Some(
            plan_state(cmds, initial_state(target)).pass_open,
        ),
    decreases cmds.len(),
{
    broadcast use lemma_slots_add, lemma_pass_run_add;
    if cmds.len() == 0 {
        lemma_slot_run_empty(0);
    } else {
        let pre = cmds.drop_last();
        let cmd = cmds.last();
        assert(cmds =~= pre.push(cmd));
        assert(uniforms_of(cmds) == uniforms_of(pre) + cmd_uniforms(cmd.cmd_type));
        assert(fans_of(cmds) == fans_of(pre) + cmd_fans(cmd));
        assert(clear_colors_of(cmds) == clear_colors_of(pre) + cmd_clear_colors(cmd.cmd_type));
        lemma_plan_ops(pre, target, ranges, cfg, k);
        crate::plan::lemma_plan_state_counts(pre, target);
        let st = plan_state(pre, initial_state(target));
        lemma_cmd_ops(cmd, st, ranges, cfg, k);
        lemma_slot_run_add(0, total(pre, k), cmd_count(cmd, k));
    }
}

/// Law: recording a frame binds every uniform block, draws every index range and binds
/// every clear rect exactly once, in the order they were written; in particular the index
/// range drawn for a filled drawable is always the one made from its fan.
pub proof fn lemma_render_plan_slots<P, C>(cmds: Seq<Command<P, C>>, target: RenderTarget, ranges: Seq<IndexRange>, cfg: PlanConfig, k: SlotKind)
    requires
        uniforms_of(cmds).len() <= usize::MAX,
        fans_of(cmds).len() <= usize::MAX,
        clear_colors_of(cmds).len() <= usize::MAX,
    ensures
        slots(render_plan(cmds, target, ranges, cfg), k) == slot_run(0, total(cmds, k)),
{
    broadcast use lemma_slots_add;
    lemma_plan_ops(cmds, target, ranges, cfg, k);
    lemma_slots_one(DrawOp::Submit, k);
    assert(seq![DrawOp::Submit].drop_last() =~= Seq::<DrawOp>::empty());
    assert(slots(render_plan(cmds, target, ranges, cfg), k) =~= slot_run(0, total(cmds, k)));
}

/// Law: every step of a frame happens inside an open render pass, passes never nest, and
/// the last pass is submitted.
pub proof fn lemma_render_plan_passes<P, C>(cmds: Seq<Command<P, C>>, target: RenderTarget, ranges: Seq<IndexRange>, cfg: PlanConfig)
    requires
        uniforms_of(cmds).len() <= usize::MAX,
        fans_of(cmds).len() <= usize::MAX,
        clear_colors_of(cmds).len() <= usize::MAX,
    ensures
        pass_run(false, render_plan(cmds, target, ranges, cfg)) == Some(false),
{
    broadcast use lemma_pass_run_add;
    lemma_plan_ops(cmds, target, ranges, cfg, SlotKind::Uniform);
    let last: Seq<DrawOp> = if plan_state(cmds, initial_state(target)).pass_open { seq![DrawOp::Submit] } else { Seq::empty() };
    assert(render_plan(cmds, target, ranges, cfg) == plan_ops(cmds, initial_state(target), ranges, cfg) + last);
    lemma_pass_run_one(true, DrawOp::Submit);
}

} // verus!
