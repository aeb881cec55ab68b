use vstd::prelude::*;
use vstd::std_specs::convert::FromSpecImpl;

verus! {

/// A size in pixels.
#[derive(Clone, Copy, Debug, PartialEq, Eq, Structural, Hash)]
pub struct Size {
    pub w: u32,
    pub h: u32,
}

impl Size {
    pub fn new(w: u32, h: u32) -> (r: Self)
        ensures
            r.w == w,
            r.h == h,
    {
        Size { w, h }
    }
}

/// The extent of a texture.
#[derive(Clone, Copy, Debug, PartialEq, Eq, Structural, Hash)]
pub struct Extent3d {
    pub width: u32,
    pub height: u32,
    pub depth_or_array_layers: u32,
}

/// A size as a texture extent of one layer.
pub open spec fn spec_extent(s: Size) -> Extent3d {
    Extent3d { width: s.w, height: s.h, depth_or_array_layers: 1 }
}

impl From<Size> for Extent3d {
    fn from(s: Size) -> (r: Self) {
        Extent3d { width: s.w, height: s.h, depth_or_array_layers: 1 }
    }
}

impl FromSpecImpl<Size> for Extent3d {
    open spec fn obeys_from_spec() -> bool {
        true
    }

    open spec fn from_spec(v: Size) -> Self {
        spec_extent(v)
    }
}

/// `2^k`.
pub open spec fn pow2(k: nat) -> nat
    decreases k,
{
    if k == 0 {
        1
    } else {
        2 * pow2((k - 1) as nat)
    }
}

/// The number of mip levels for a largest side of `n`: the least `k` with `2^k >= n`,
/// that is the logarithm of `n` to base 2 rounded up (0 for `n` of 0 or 1).
pub open spec fn ceil_log2(n: nat) -> nat
    decreases n,
{
    if n <= 1 {
        0
    } else {
        1 + ceil_log2(((n + 1) / 2) as nat)
    }
}

pub proof fn lemma_pow2_pos(k: nat)
    ensures
        pow2(k) >= 1,
    decreases k,
{
    if k > 0 {
        lemma_pow2_pos((k - 1) as nat);
    }
}

/// `ceil_log2(n)` is the least `k` with `2^k >= n`.
pub proof fn lemma_ceil_log2(n: nat)
    ensures
        pow2(ceil_log2(n)) >= n,
        n >= 2 ==> pow2((ceil_log2(n) - 1) as nat) < n,
    decreases n,
{
    if n > 1 {
        let m = ((n + 1) / 2) as nat;
        lemma_ceil_log2(m);
        lemma_pow2_pos(ceil_log2(m));
        if m >= 2 {
            assert(pow2((ceil_log2(m) - 1) as nat) < m);
            assert(ceil_log2(m) >= 1);
            assert(pow2(ceil_log2(m)) == 2 * pow2((ceil_log2(m) - 1) as nat));
        } else {
            assert(ceil_log2(m) == 0);
        }
    } else {
        lemma_pow2_pos(0);
    }
}

pub proof fn lemma_pow2_mono(a: nat, b: nat)
    requires
        a <= b,
    ensures
        pow2(a) <= pow2(b),
    decreases b,
{
    if a < b {
        lemma_pow2_mono(a, (b - 1) as nat);
        lemma_pow2_pos((b - 1) as nat);
    }
}

/// A `u32` has at most 32 mip levels.
pub proof fn lemma_ceil_log2_le_32(n: nat)
    requires
        n <= u32::MAX,
    ensures
        ceil_log2(n) <= 32,
{
    lemma_ceil_log2(n);
    if ceil_log2(n) > 32 {
        reveal_with_fuel(pow2, 33);
        assert(pow2(32) == 0x1_0000_0000);
        lemma_pow2_mono(32, (ceil_log2(n) - 1) as nat);
    }
}

/// The largest side of an extent.
pub open spec fn max_side(e: Extent3d) -> u32 {
    let wh = if e.width >= e.height { e.width } else { e.height };
    if wh >= e.depth_or_array_layers { wh } else { e.depth_or_array_layers }
}

/// Mip levels of an extent.
pub trait WGPUExtentExt {
    /// The number of mip levels a full mip chain of this extent has: the logarithm to
    /// base 2 of its largest side, rounded up.
    fn mip_mipmap_level_count(&self) -> u32;
}

impl WGPUExtentExt for Extent3d {
    fn mip_mipmap_level_count(&self) -> (r: u32)
        ensures
            r == ceil_log2(max_side(*self) as nat),
    {
        let wh = if self.width >= self.height { self.width } else { self.height };
        let m = if wh >= self.depth_or_array_layers { wh } else { self.depth_or_array_layers };
        proof {
            lemma_ceil_log2_le_32(m as nat);
        }
        let mut n: u32 = m;
        let mut k: u32 = 0;
        while n > 1
            invariant
                k + ceil_log2(n as nat) == ceil_log2(m as nat),
                ceil_log2(m as nat) <= 32,
            decreases n,
        {
            n = n / 2 + n % 2;
            k = k + 1;
        }
        k
    }
}

} // verus!
