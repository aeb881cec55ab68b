use vstd::prelude::*;

use crate::geometry::Size;
use crate::texture::{TextureSpec, new_stencil_descriptor, spec_stencil_descriptor, texture_parts};

verus! {

/// The decimal digit `d`.
pub open spec fn digit(d: nat) -> char {
    (48 + d) as char
}

/// The decimal form of `n`, without sign or leading zeros.
pub open spec fn decimal(n: nat) -> Seq<char>
    decreases n,
{
    if n < 10 {
        seq![digit(n)]
    } else {
        decimal(n / 10).push(digit(n % 10))
    }
}

/// Calls `u32::to_string`: std's `Display` of an integer writes it in decimal, without
/// sign, padding or leading zeros.
#[verifier::external_body]
fn u32_to_string(n: u32) -> (r: String)
    ensures
        r@ == decimal(n as nat),
{
    n.to_string()
}

/// The label of the stencil texture of generation `gen`.
pub open spec fn spec_label(gen: u32) -> Seq<char> {
    "stencil texture "@ + decimal(gen as nat)
}

/// Labels the stencil texture of generation `gen`: "stencil texture " and the number.
pub fn label(gen: u32) -> (r: String)
    ensures
        r@ == spec_label(gen),
{
    let digits = u32_to_string(gen);
    let mut r = "stencil texture ".to_owned();
    r.append(digits.as_str());
    r
}

/// The stencil texture of the screen, with the size it was made for and how many times it
/// was remade; `T` is the texture and its view.
pub struct WGPUStencilTexture<T> {
    size: Size,
    tex: T,
    gen: u32,
}

/// Whether `t` is what `create` made for a stencil texture of `size` and generation `gen`.
pub open spec fn made_for<T, F: Fn(TextureSpec) -> T>(create: F, t: T, size: Size, gen: u32) -> bool {
    exists|d: TextureSpec|
        texture_parts(d) == spec_stencil_descriptor(size, spec_label(gen)) && #[trigger] create.ensures((d,), t)
}

impl<T> WGPUStencilTexture<T> {
    pub closed spec fn size_spec(&self) -> Size {
        self.size
    }

    pub closed spec fn gen_spec(&self) -> u32 {
        self.gen
    }

    pub closed spec fn texture_spec(&self) -> T {
        self.tex
    }

    /// Makes the stencil texture of a size, generation 0; `create` makes the texture and its
    /// view from their description.
    pub fn new<F: Fn(TextureSpec) -> T>(size: Size, create: &F) -> (r: Self)
        requires
            forall|d: TextureSpec| create.requires((d,)),
        ensures
            r.size_spec() == size,
            r.gen_spec() == 0,
            made_for(*create, r.texture_spec(), size, 0),
    {
        let gen: u32 = 0;
        let label = label(gen);
        let desc = new_stencil_descriptor(size, label);
        let ghost d = desc;
        let tex = create(desc);
        assert(create.ensures((d,), tex));
        WGPUStencilTexture { size, tex, gen }
    }

    /// The size the texture was made for.
    pub fn size(&self) -> (r: Size)
        ensures
            r == self.size_spec(),
    {
        self.size
    }

    /// Remakes the texture for a new size, unless the size is the one it was made for; the
    /// recorded size stays the one it was made with. `recreate` is handed the old texture,
    /// to release, and the description of the new one.
    pub fn resize<F: Fn(&T, TextureSpec) -> T>(&mut self, size: Size, recreate: &F)
        requires
            size != old(self).size_spec() ==> old(self).gen_spec() < u32::MAX,
            forall|t: &T, d: TextureSpec| recreate.requires((t, d)),
        ensures
            final(self).size_spec() == old(self).size_spec(),
            size == old(self).size_spec() ==> {
                &&& final(self).gen_spec() == old(self).gen_spec()
                &&& final(self).texture_spec() == old(self).texture_spec()
            },
            size != old(self).size_spec() ==> {
                &&& final(self).gen_spec() == old(self).gen_spec() + 1
                &&& exists|d: TextureSpec|
                    texture_parts(d) == spec_stencil_descriptor(size, spec_label(final(self).gen_spec()))
                        && #[trigger] recreate.ensures((&old(self).texture_spec(), d), final(self).texture_spec())
            },
    {
        if size == self.size {
            return;
        }
        self.gen = self.gen + 1;
        let label = label(self.gen);
        let desc = new_stencil_descriptor(size, label);
        let ghost d = desc;
        let tex = recreate(&self.tex, desc);
        assert(recreate.ensures((&old(self).tex, d), tex));
        self.tex = tex;
        assert(texture_parts(d) == spec_stencil_descriptor(size, spec_label(self.gen_spec()))
            && recreate.ensures((&old(self).texture_spec(), d), self.texture_spec()));
    }

    /// How many times the texture was remade.
    pub fn generation(&self) -> (r: u32)
        ensures
            r == self.gen_spec(),
    {
        self.gen
    }

    /// The texture and its view.
    pub fn view(&self) -> (r: &T)
        ensures
            *r == self.texture_spec(),
    {
        &self.tex
    }
}

} // verus!
