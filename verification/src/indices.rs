use vstd::prelude::*;

verus! {

/// The indices of a fan of `tris` triangles around vertex `start`, listed clockwise:
/// triangle `k` (counting from 1) is `start, start + k, start + k + 1`.
pub open spec fn fan_indices(start: u32, tris: nat) -> Seq<u32>
    decreases tris,
{
    if tris == 0 {
        Seq::empty()
    } else {
        fan_indices(start, (tris - 1) as nat).push(start).push((start + tris) as u32).push(
            (start + tris + 1) as u32,
        )
    }
}

/// How many triangles a fan over `count` vertices has.
pub open spec fn fan_triangles(count: u32) -> nat {
    if count >= 2 {
        (count - 2) as nat
    } else {
        0
    }
}

/// The fan over `count` vertices starting at `start` only names vertices that fit in `u32`.
pub open spec fn fan_fits(start: u32, count: u32) -> bool {
    count >= 3 ==> start + count - 1 <= u32::MAX
}

/// A fan of `tris` triangles has three indices per triangle.
pub proof fn lemma_fan_len(start: u32, tris: nat)
    ensures
        fan_indices(start, tris).len() == 3 * tris,
    decreases tris,
{
    if tris > 0 {
        lemma_fan_len(start, (tris - 1) as nat);
    }
}

/// Triangle `k` of a fan is `start, start + k + 1, start + k + 2`.
pub proof fn lemma_fan_index(start: u32, tris: nat, k: int)
    requires
        0 <= k < tris,
        start + tris + 1 <= u32::MAX,
    ensures
        fan_indices(start, tris).len() == 3 * tris,
        fan_indices(start, tris)[3 * k as int] == start,
        fan_indices(start, tris)[3 * k + 1] == start + k + 1,
        fan_indices(start, tris)[3 * k + 2] == start + k + 2,
    decreases tris,
{
    lemma_fan_len(start, tris);
    lemma_fan_len(start, (tris - 1) as nat);
    if k + 1 < tris {
        lemma_fan_index(start, (tris - 1) as nat, k);
    }
}

/// Index-buffer helpers.
pub trait VecExt: Sized {
    /// The indices held so far.
    spec fn index_seq(&self) -> Seq<u32>;

    /// Appends the indices of the clockwise triangle fan over the `count` vertices that
    /// start at `start`, and returns how many indices were added.
    fn extend_with_triange_fan_indices_cw(&mut self, start: u32, count: u32) -> (added: usize)
        requires
            count >= 1,
            fan_fits(start, count),
            old(self).index_seq().len() + 3 * fan_triangles(count) <= usize::MAX,
        ensures
            final(self).index_seq() == old(self).index_seq() + fan_indices(start, fan_triangles(count)),
            added == 3 * fan_triangles(count),
    ;
}

impl VecExt for Vec<u32> {
    open spec fn index_seq(&self) -> Seq<u32> {
        self@
    }

    fn extend_with_triange_fan_indices_cw(&mut self, start: u32, count: u32) -> (added: usize)
        ensures
            final(self)@ == old(self)@ + fan_indices(start, fan_triangles(count)),
            added == 3 * fan_triangles(count),
    {
        let ghost old_seq = self@;
        let mut added: usize = 0;
        let mut index: u32 = 1;
        let last: u32 = count - 1;
        proof {
            lemma_fan_len(start, 0);
        }
        while index < last
            invariant
                1 <= index,
                index <= last || (last == 0 && index == 1),
                last == count - 1,
                count >= 1,
                fan_fits(start, count),
                old_seq.len() + 3 * fan_triangles(count) <= usize::MAX,
                added == 3 * (index - 1),
                self@ == old_seq + fan_indices(start, (index - 1) as nat),
            decreases last - index,
        {
            proof {
                lemma_fan_len(start, (index - 1) as nat);
            }
            self.push(start);
            self.push(start + index);
            self.push(start + index + 1);
            added = added + 3;
            proof {
                assert(self@ =~= old_seq + fan_indices(start, index as nat));
            }
            index = index + 1;
        }
        proof {
            if count >= 2 {
                assert(index == count - 1);
            } else {
                assert(index == 1);
            }
        }
        added
    }
}

/// The vertices `start .. start + count`, each end cut to `u32` as the draw call takes them.
pub fn vert_range(start: usize, count: usize) -> (r: std::ops::Range<u32>)
    requires
        start + count <= usize::MAX,
    ensures
        r.start == start as u32,
        r.end == (start + count) as u32,
{
    (start as u32)..((start + count) as u32)
}

} // verus!
