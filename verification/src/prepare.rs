use vstd::prelude::*;

use crate::command::{Command, CommandType, Drawable};
use crate::indices::{fan_fits, fan_indices, fan_triangles, lemma_fan_len, VecExt};

verus! {

/// Where the indices of one filled drawable lie in the index buffer, and which fill
/// vertices `(e_start, e_count)` they were made from.
#[derive(Clone, Copy, Debug, PartialEq, Eq, Structural)]
pub struct IndexRange {
    pub start: u32,
    pub end: u32,
    pub e_start: usize,
    pub e_count: usize,
}

impl IndexRange {
    /// The indices `start .. end` to draw.
    pub fn range(&self) -> (r: std::ops::Range<u32>)
        ensures
            r.start == self.start,
            r.end == self.end,
    {
        self.start..self.end
    }
}

/// A fan of fill vertices `(first, count)` that the index buffer can hold.
pub open spec fn fan_ok(f: (usize, usize)) -> bool {
    &&& 1 <= f.1 <= u32::MAX
    &&& f.0 + f.1 <= 0x1_0000_0000
}

/// Whether a command type draws its fill vertices as triangle fans.
pub open spec fn has_fans<P, C>(t: CommandType<P, C>) -> bool {
    t is ConvexFill || t is ConcaveFill
}

/// The fill fans of a list of drawables, in order.
pub open spec fn drawable_fans(ds: Seq<Drawable>) -> Seq<(usize, usize)>
    decreases ds.len(),
{
    if ds.len() == 0 {
        Seq::empty()
    } else {
        drawable_fans(ds.drop_last()) + match ds.last().fill_verts {
            Some(f) => seq![f],
            None => Seq::empty(),
        }
    }
}

/// The fill fans of one command.
pub open spec fn cmd_fans<P, C>(c: Command<P, C>) -> Seq<(usize, usize)> {
    if has_fans(c.cmd_type) {
        drawable_fans(c.drawables@)
    } else {
        Seq::empty()
    }
}

/// The fill fans of a frame, in command order.
pub open spec fn fans_of<P, C>(cmds: Seq<Command<P, C>>) -> Seq<(usize, usize)>
    decreases cmds.len(),
{
    if cmds.len() == 0 {
        Seq::empty()
    } else {
        fans_of(cmds.drop_last()) + cmd_fans(cmds.last())
    }
}

/// The indices of one fan.
pub open spec fn fan_of(f: (usize, usize)) -> Seq<u32> {
    fan_indices(f.0 as u32, fan_triangles(f.1 as u32))
}

/// The index buffer of a list of fans: their indices one after the other.
pub open spec fn fan_buffer(fans: Seq<(usize, usize)>) -> Seq<u32>
    decreases fans.len(),
{
    if fans.len() == 0 {
        Seq::empty()
    } else {
        fan_buffer(fans.drop_last()) + fan_of(fans.last())
    }
}

/// Where each fan's indices lie in the index buffer.
pub open spec fn fan_ranges(fans: Seq<(usize, usize)>) -> Seq<IndexRange>
    decreases fans.len(),
{
    if fans.len() == 0 {
        Seq::empty()
    } else {
        fan_ranges(fans.drop_last()).push(
            IndexRange {
                start: fan_buffer(fans.drop_last()).len() as u32,
                end: fan_buffer(fans).len() as u32,
                e_start: fans.last().0,
                e_count: fans.last().1,
            },
        )
    }
}

/// The uniform blocks one command writes, in the order its draws bind them.
pub open spec fn cmd_uniforms<P, C>(t: CommandType<P, C>) -> Seq<P> {
    match t {
        CommandType::ConvexFill { params } => seq![params],
        CommandType::ConcaveFill { stencil_params, fill_params } => seq![stencil_params, fill_params],
        CommandType::Stroke { params } => seq![params],
        CommandType::StencilStroke { params1, params2 } => seq![params2, params1],
        CommandType::Triangles { params } => seq![params],
        CommandType::ClearRect { .. } => Seq::empty(),
        CommandType::SetRenderTarget(_) => Seq::empty(),
    }
}

/// The uniform blocks of a frame, in command order.
pub open spec fn uniforms_of<P, C>(cmds: Seq<Command<P, C>>) -> Seq<P>
    decreases cmds.len(),
{
    if cmds.len() == 0 {
        Seq::empty()
    } else {
        uniforms_of(cmds.drop_last()) + cmd_uniforms(cmds.last().cmd_type)
    }
}

/// The clear color of one command, if it clears a rectangle.
pub open spec fn cmd_clear_colors<P, C>(t: CommandType<P, C>) -> Seq<C> {
    match t {
        CommandType::ClearRect { color, .. } => seq![color],
        _ => Seq::empty(),
    }
}

/// The clear colors of a frame, in command order.
pub open spec fn clear_colors_of<P, C>(cmds: Seq<Command<P, C>>) -> Seq<C>
    decreases cmds.len(),
{
    if cmds.len() == 0 {
        Seq::empty()
    } else {
        clear_colors_of(cmds.drop_last()) + cmd_clear_colors(cmds.last().cmd_type)
    }
}

/// Every fill fan of the frame's fan-drawing commands fits the index buffer.
pub open spec fn fans_valid<P, C>(cmds: Seq<Command<P, C>>) -> bool {
    forall|i: int, j: int|
        0 <= i < cmds.len() && has_fans(cmds[i].cmd_type) && 0 <= j < cmds[i].drawables@.len()
            && cmds[i].drawables@[j].fill_verts is Some ==> #[trigger] fan_ok(
            cmds[i].drawables@[j].fill_verts->0,
        )
}

/// What the frame's commands ask of the buffers: valid fans, and an index buffer whose
/// positions fit in `u32`.
pub open spec fn prepare_ok<P, C>(cmds: Seq<Command<P, C>>) -> bool {
    &&& fans_valid(cmds)
    &&& fan_buffer(fans_of(cmds)).len() <= u32::MAX
}

/// The CPU-side buffers of a frame.
pub struct PreparedBuffers<P, C> {
    pub indices: Vec<u32>,
    pub index_ranges: Vec<IndexRange>,
    pub uniforms: Vec<P>,
    pub clear_colors: Vec<C>,
}

// ---- lemmas ----

pub proof fn lemma_drawable_fans_add(a: Seq<Drawable>, b: Seq<Drawable>)
    ensures
        drawable_fans(a + b) == drawable_fans(a) + drawable_fans(b),
    decreases b.len(),
{
    if b.len() == 0 {
        assert(a + b =~= a);
        assert(drawable_fans(b) =~= Seq::<(usize, usize)>::empty());
        assert(drawable_fans(a) + drawable_fans(b) =~= drawable_fans(a));
    } else {
        assert((a + b).drop_last() =~= a + b.drop_last());
        lemma_drawable_fans_add(a, b.drop_last());
        assert((a + b).last() == b.last());
        assert(drawable_fans(a + b) =~= drawable_fans(a) + drawable_fans(b));
    }
}

pub proof fn lemma_fans_of_add<P, C>(a: Seq<Command<P, C>>, b: Seq<Command<P, C>>)
    ensures
        fans_of(a + b) == fans_of(a) + fans_of(b),
    decreases b.len(),
{
    if b.len() == 0 {
        assert(a + b =~= a);
        assert(fans_of(a) + fans_of(b) =~= fans_of(a));
    } else {
        assert((a + b).drop_last() =~= a + b.drop_last());
        lemma_fans_of_add(a, b.drop_last());
        assert((a + b).last() == b.last());
        assert(fans_of(a + b) =~= fans_of(a) + fans_of(b));
    }
}

pub proof fn lemma_fan_buffer_add(a: Seq<(usize, usize)>, b: Seq<(usize, usize)>)
    ensures
        fan_buffer(a + b) == fan_buffer(a) + fan_buffer(b),
    decreases b.len(),
{
    if b.len() == 0 {
        assert(a + b =~= a);
        assert(fan_buffer(a) + fan_buffer(b) =~= fan_buffer(a));
    } else {
        assert((a + b).drop_last() =~= a + b.drop_last());
        lemma_fan_buffer_add(a, b.drop_last());
        assert((a + b).last() == b.last());
        assert(fan_buffer(a + b) =~= fan_buffer(a) + fan_buffer(b));
    }
}

/// Taking one more element of a sequence adds that element at the end.
pub proof fn lemma_take_push<T>(s: Seq<T>, i: int)
    requires
        0 <= i < s.len(),
    ensures
        s.take(i + 1).drop_last() == s.take(i),
        s.take(i + 1).last() == s[i],
        s.take(i + 1).len() == i + 1,
{
    assert(s.take(i + 1).drop_last() =~= s.take(i));
}

/// The index buffer of a prefix of the commands is no longer than that of all of them.
pub proof fn lemma_fan_buffer_prefix<P, C>(cmds: Seq<Command<P, C>>, i: int, extra: Seq<(usize, usize)>)
    requires
        0 <= i < cmds.len(),
        extra.is_prefix_of(cmd_fans(cmds[i])),
    ensures
        fan_buffer(fans_of(cmds.take(i)) + extra).len() <= fan_buffer(fans_of(cmds)).len(),
        (fans_of(cmds.take(i)) + extra).is_prefix_of(fans_of(cmds)),
{
    let rest = cmd_fans(cmds[i]).subrange(extra.len() as int, cmd_fans(cmds[i]).len() as int);
    assert(cmd_fans(cmds[i]) =~= extra + rest);
    assert(cmds =~= cmds.take(i + 1) + cmds.skip(i + 1));
    lemma_fans_of_add(cmds.take(i + 1), cmds.skip(i + 1));
    lemma_take_push(cmds, i);
    assert(fans_of(cmds.take(i + 1)) == fans_of(cmds.take(i)) + cmd_fans(cmds[i]));
    let tail = rest + fans_of(cmds.skip(i + 1));
    assert(fans_of(cmds) =~= (fans_of(cmds.take(i)) + extra) + tail);
    lemma_fan_buffer_add(fans_of(cmds.take(i)) + extra, tail);
}

/// The position of index range `k` is that of its fan in the index buffer.
pub proof fn lemma_fan_ranges(fans: Seq<(usize, usize)>, k: int)
    requires
        0 <= k < fans.len(),
        fan_buffer(fans).len() <= u32::MAX,
    ensures
        fan_ranges(fans).len() == fans.len(),
        fan_ranges(fans)[k].start == fan_buffer(fans.take(k)).len(),
        fan_ranges(fans)[k].end == fan_buffer(fans.take(k + 1)).len(),
        fan_ranges(fans)[k].e_start == fans[k].0,
        fan_ranges(fans)[k].e_count == fans[k].1,
        fan_buffer(fans).subrange(
            fan_ranges(fans)[k].start as int,
            fan_ranges(fans)[k].end as int,
        ) == fan_of(fans[k]),
    decreases fans.len(),
{
    lemma_fan_ranges_len(fans);
    let n = fans.len() - 1;
    assert(fans.take(n) =~= fans.drop_last());
    assert(fans.take(n + 1) =~= fans);
    if k < n {
        lemma_fan_ranges(fans.drop_last(), k);
        assert(fans.drop_last().take(k) =~= fans.take(k));
        assert(fans.drop_last().take(k + 1) =~= fans.take(k + 1));
        let rest = fans.drop_last().skip(k + 1);
        assert(fans.drop_last() =~= fans.take(k + 1) + rest);
        lemma_fan_buffer_add(fans.take(k + 1), rest);
        let lo = fan_ranges(fans)[k].start as int;
        let hi = fan_ranges(fans)[k].end as int;
        assert(hi <= fan_buffer(fans.drop_last()).len());
        assert(fans.take(k + 1).drop_last() =~= fans.take(k));
        assert(lo <= hi);
        assert(fan_buffer(fans) == fan_buffer(fans.drop_last()) + fan_of(fans.last()));
        assert(fan_buffer(fans).subrange(lo, hi) =~= fan_buffer(fans.drop_last()).subrange(lo, hi));
    } else {
        assert(fan_buffer(fans).subrange(
            fan_buffer(fans.drop_last()).len() as int,
            fan_buffer(fans).len() as int,
        ) =~= fan_of(fans[k]));
    }
}

pub proof fn lemma_fan_ranges_len(fans: Seq<(usize, usize)>)
    ensures
        fan_ranges(fans).len() == fans.len(),
    decreases fans.len(),
{
    if fans.len() > 0 {
        lemma_fan_ranges_len(fans.drop_last());
    }
}

// ---- the CPU pass over the commands ----

/// Collects the indices, index ranges, uniform blocks and clear colors that a frame's
/// commands need, in command order.
pub fn prepare_buffers<P: Copy, C: Copy>(commands: &[Command<P, C>]) -> (out: PreparedBuffers<P, C>)
    requires
        prepare_ok(commands@),
    ensures
        out.indices@ == fan_buffer(fans_of(commands@)),
        out.index_ranges@ == fan_ranges(fans_of(commands@)),
        out.uniforms@ == uniforms_of(commands@),
        out.clear_colors@ == clear_colors_of(commands@),
{
    let mut indices: Vec<u32> = Vec::new();
    let mut index_ranges: Vec<IndexRange> = Vec::new();
    let mut uniforms: Vec<P> = Vec::new();
    let mut clear_colors: Vec<C> = Vec::new();
    let n = commands.len();
    let mut i: usize = 0;
    assert(commands@.take(0) =~= Seq::<Command<P, C>>::empty());
    while i < n
        invariant
            n == commands@.len(),
            0 <= i <= n,
            prepare_ok(commands@),
            indices@ == fan_buffer(fans_of(commands@.take(i as int))),
            index_ranges@ == fan_ranges(fans_of(commands@.take(i as int))),
            uniforms@ == uniforms_of(commands@.take(i as int)),
            clear_colors@ == clear_colors_of(commands@.take(i as int)),
        decreases n - i,
    {
        let cmd = &commands[i];
        proof {
            lemma_take_push(commands@, i as int);
        }
        let ghost before = fans_of(commands@.take(i as int));
        if matches!(cmd.cmd_type, CommandType::ConvexFill { .. })
            || matches!(cmd.cmd_type, CommandType::ConcaveFill { .. }) {
            push_fans::<P, C>(&mut indices, &mut index_ranges, &cmd.drawables, Ghost(commands@), Ghost(i as int));
        } else {
            proof {
                assert(fans_of(commands@.take(i as int + 1)) =~= before);
            }
        }
        match cmd.cmd_type {
            CommandType::ConvexFill { params } => {
                uniforms.push(params);
            },
            CommandType::ConcaveFill { stencil_params, fill_params } => {
                uniforms.push(stencil_params);
                uniforms.push(fill_params);
            },
            CommandType::Stroke { params } => {
                uniforms.push(params);
            },
            CommandType::StencilStroke { params1, params2 } => {
                uniforms.push(params2);
                uniforms.push(params1);
            },
            CommandType::Triangles { params } => {
                uniforms.push(params);
            },
            CommandType::ClearRect { color, .. } => {
                clear_colors.push(color);
            },
            CommandType::SetRenderTarget(_) => {},
        }
        proof {
            assert(uniforms@ =~= uniforms_of(commands@.take(i as int + 1)));
            assert(clear_colors@ =~= clear_colors_of(commands@.take(i as int + 1)));
        }
        i = i + 1;
    }
    proof {
        assert(commands@.take(n as int) =~= commands@);
    }
    PreparedBuffers { indices, index_ranges, uniforms, clear_colors }
}

/// Appends the fans of one fan-drawing command's drawables.
fn push_fans<P, C>(
    indices: &mut Vec<u32>,
    index_ranges: &mut Vec<IndexRange>,
    drawables: &Vec<Drawable>,
    Ghost(cmds): Ghost<Seq<Command<P, C>>>,
    Ghost(i): Ghost<int>,
)
    requires
        0 <= i < cmds.len(),
        prepare_ok(cmds),
        has_fans(cmds[i].cmd_type),
        cmds[i].drawables@ == drawables@,
        old(indices)@ == fan_buffer(fans_of(cmds.take(i))),
        old(index_ranges)@ == fan_ranges(fans_of(cmds.take(i))),
    ensures
        final(indices)@ == fan_buffer(fans_of(cmds.take(i + 1))),
        final(index_ranges)@ == fan_ranges(fans_of(cmds.take(i + 1))),
{
    let ghost before = fans_of(cmds.take(i));
    let m = drawables.len();
    let mut j: usize = 0;
    proof {
        lemma_take_push(cmds, i);
        assert(drawables@.take(0) =~= Seq::<Drawable>::empty());
        assert(before + drawable_fans(drawables@.take(0)) =~= before);
    }
    while j < m
        invariant
            0 <= i < cmds.len(),
            prepare_ok(cmds),
            has_fans(cmds[i].cmd_type),
            cmds[i].drawables@ == drawables@,
            m == drawables@.len(),
            0 <= j <= m,
            before == fans_of(cmds.take(i)),
            indices@ == fan_buffer(before + drawable_fans(drawables@.take(j as int))),
            index_ranges@ == fan_ranges(before + drawable_fans(drawables@.take(j as int))),
        decreases m - j,
    {
        let d = drawables[j];
        proof {
            lemma_take_push(drawables@, j as int);
        }
        match d.fill_verts {
            Some((start, count)) => {
                let ghost prev = before + drawable_fans(drawables@.take(j as int));
                let ghost next = before + drawable_fans(drawables@.take(j as int + 1));
                proof {
                    assert(next =~= prev.push((start, count)));
                    assert(fan_ok(cmds[i].drawables@[j as int].fill_verts->0));
                    // the fans so far are a prefix of the command's fans
                    lemma_drawable_fans_add(drawables@.take(j as int + 1), drawables@.skip(j as int + 1));
                    assert(drawables@ =~= drawables@.take(j as int + 1) + drawables@.skip(j as int + 1));
                    lemma_fan_buffer_prefix(cmds, i, drawable_fans(drawables@.take(j as int + 1)));
                    assert(next.drop_last() =~= prev);
                    lemma_fan_len(start as u32, fan_triangles(count as u32));
                }
                let range_start = indices.len();
                indices.extend_with_triange_fan_indices_cw(start as u32, count as u32);
                let range_end = indices.len();
                index_ranges.push(
                    IndexRange {
                        start: range_start as u32,
                        end: range_end as u32,
                        e_start: start,
                        e_count: count,
                    },
                );
                proof {
                    assert(indices@ =~= fan_buffer(next));
                    assert(index_ranges@ =~= fan_ranges(next));
                }
            },
            None => {
                proof {
                    assert(before + drawable_fans(drawables@.take(j as int + 1)) =~= before
                        + drawable_fans(drawables@.take(j as int)));
                }
            },
        }
        j = j + 1;
    }
    proof {
        assert(drawables@.take(m as int) =~= drawables@);
        assert(fans_of(cmds.take(i + 1)) == before + drawable_fans(drawables@));
    }
}

} // verus!
