use vstd::prelude::*;

use crate::geometry::Size;
use crate::states::TextureFormat;

verus! {

/// How frames are presented.
#[derive(Clone, Copy, Debug, PartialEq, Eq, Structural, Hash)]
pub enum PresentMode {
    Immediate,
    Mailbox,
    Fifo,
}

/// Everything a swap chain is made from, besides the device and surface: its frames are
/// render attachments of this format and size.
#[derive(Clone, Copy, Debug, PartialEq, Eq, Structural, Hash)]
pub struct SwapChainSpec {
    pub format: TextureFormat,
    pub width: u32,
    pub height: u32,
    pub present_mode: PresentMode,
}

/// A swap chain of a format and size, presenting in order.
pub open spec fn spec_sc_desc(format: TextureFormat, size: Size) -> SwapChainSpec {
    SwapChainSpec { format, width: size.w, height: size.h, present_mode: PresentMode::Fifo }
}

/// Describes a swap chain of a format and size.
pub fn sc_desc(format: TextureFormat, size: Size) -> (r: SwapChainSpec)
    ensures
        r == spec_sc_desc(format, size),
        r.format == format,
        r.width == size.w,
        r.height == size.h,
        r.present_mode == PresentMode::Fifo,
{
    SwapChainSpec { format, width: size.w, height: size.h, present_mode: PresentMode::Fifo }
}

/// The screen's swap chain `S`, with its size and format.
pub struct WGPUSwapChain<S> {
    size: Size,
    inner: S,
    format: TextureFormat,
}

impl<S> WGPUSwapChain<S> {
    pub closed spec fn size_spec(&self) -> Size {
        self.size
    }

    pub closed spec fn format_spec(&self) -> TextureFormat {
        self.format
    }

    pub closed spec fn inner_spec(&self) -> S {
        self.inner
    }

    /// Makes the swap chain of a size, in the BGRA format; `create` makes it from its
    /// description.
    pub fn new<F: Fn(SwapChainSpec) -> S>(size: Size, create: &F) -> (r: Self)
        requires
            forall|d: SwapChainSpec| create.requires((d,)),
        ensures
            r.size_spec() == size,
            r.format_spec() == TextureFormat::Bgra8Unorm,
            create.ensures((spec_sc_desc(TextureFormat::Bgra8Unorm, size),), r.inner_spec()),
    {
        let format = TextureFormat::Bgra8Unorm;
        let desc = sc_desc(format, size);
        let inner = create(desc);
        WGPUSwapChain { size, inner, format }
    }

    /// The format of the frames.
    pub fn format(&self) -> (r: TextureFormat)
        ensures
            r == self.format_spec(),
    {
        self.format
    }

    /// The swap chain, to get its current frame from.
    pub fn inner(&self) -> (r: &S)
        ensures
            *r == self.inner_spec(),
    {
        &self.inner
    }

    /// Remakes the swap chain for a size, in the same format.
    pub fn resize<F: Fn(SwapChainSpec) -> S>(&mut self, size: Size, create: &F)
        requires
            forall|d: SwapChainSpec| create.requires((d,)),
        ensures
            final(self).size_spec() == size,
            final(self).format_spec() == old(self).format_spec(),
            create.ensures((spec_sc_desc(old(self).format_spec(), size),), final(self).inner_spec()),
    {
        let desc = sc_desc(self.format, size);
        self.size = size;
        self.inner = create(desc);
    }
}

} // verus!
