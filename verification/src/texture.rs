use vstd::prelude::*;

use crate::geometry::{Extent3d, Size, WGPUExtentExt, ceil_log2, max_side, spec_extent};
use crate::states::TextureFormat;

verus! {

/// The pixel format of an image.
#[derive(Clone, Copy, Debug, PartialEq, Eq, Structural, Hash)]
pub enum PixelFormat {
    Rgb8,
    Rgba8,
    Bgra8,
    Gray8,
}

/// How an image is sampled and kept.
#[derive(Clone, Copy, Debug, PartialEq, Eq, Structural, Hash)]
pub struct ImageFlags {
    pub generate_mipmaps: bool,
    pub repeat_x: bool,
    pub repeat_y: bool,
    pub flip_y: bool,
    pub premultiplied: bool,
    pub nearest: bool,
}

/// The flags, format and size of an image.
#[derive(Clone, Copy, Debug, PartialEq, Eq, Structural, Hash)]
pub struct ImageInfo {
    pub flags: ImageFlags,
    pub width: usize,
    pub height: usize,
    pub format: PixelFormat,
}

impl ImageInfo {
    pub fn new(flags: ImageFlags, width: usize, height: usize, format: PixelFormat) -> (r: Self)
        ensures
            r == (ImageInfo { flags, width, height, format }),
    {
        ImageInfo { flags, width, height, format }
    }

    /// The image's size, each side cut to `u32`.
    pub fn size(&self) -> (r: Size)
        ensures
            r.w == self.width as u32,
            r.h == self.height as u32,
    {
        Size::new(self.width as u32, self.height as u32)
    }
}

/// The errors of updating a texture.
#[derive(Clone, Copy, Debug, PartialEq, Eq, Structural, Hash)]
pub enum ErrorKind {
    ImageUpdateOutOfBounds,
    ImageUpdateWithDifferentFormat,
}

/// The pixels to write into an image: their format and size. The pixel data itself stays
/// with the caller.
#[derive(Clone, Copy, Debug, PartialEq, Eq, Structural, Hash)]
pub enum ImageSource {
    Rgb { width: usize, height: usize },
    Rgba { width: usize, height: usize },
    Gray { width: usize, height: usize },
}

impl ImageSource {
    pub open spec fn spec_dimensions(self) -> (usize, usize) {
        match self {
            ImageSource::Rgb { width, height } => (width, height),
            ImageSource::Rgba { width, height } => (width, height),
            ImageSource::Gray { width, height } => (width, height),
        }
    }

    pub open spec fn spec_format(self) -> PixelFormat {
        match self {
            ImageSource::Rgb { .. } => PixelFormat::Rgb8,
            ImageSource::Rgba { .. } => PixelFormat::Rgba8,
            ImageSource::Gray { .. } => PixelFormat::Gray8,
        }
    }

    /// The width and height of the pixels.
    pub fn dimensions(&self) -> (r: (usize, usize))
        ensures
            r == self.spec_dimensions(),
    {
        match self {
            ImageSource::Rgb { width, height } => (*width, *height),
            ImageSource::Rgba { width, height } => (*width, *height),
            ImageSource::Gray { width, height } => (*width, *height),
        }
    }

    /// The pixel format of the pixels.
    pub fn format(&self) -> (r: PixelFormat)
        ensures
            r == self.spec_format(),
    {
        match self {
            ImageSource::Rgb { .. } => PixelFormat::Rgb8,
            ImageSource::Rgba { .. } => PixelFormat::Rgba8,
            ImageSource::Gray { .. } => PixelFormat::Gray8,
        }
    }
}

/// The texture format that holds a pixel format; there is none for RGB.
pub open spec fn spec_texture_format(p: PixelFormat) -> TextureFormat {
    match p {
        PixelFormat::Rgba8 => TextureFormat::Rgba8Unorm,
        PixelFormat::Bgra8 => TextureFormat::Bgra8Unorm,
        PixelFormat::Gray8 => TextureFormat::R8Unorm,
        PixelFormat::Rgb8 => TextureFormat::Rgba8Unorm,
    }
}

/// The texture format of a pixel format other than RGB, which textures do not support.
pub fn texture_format(p: PixelFormat) -> (r: TextureFormat)
    requires
        p != PixelFormat::Rgb8,
    ensures
        r == spec_texture_format(p),
{
    match p {
        PixelFormat::Rgba8 => TextureFormat::Rgba8Unorm,
        PixelFormat::Bgra8 => TextureFormat::Bgra8Unorm,
        PixelFormat::Gray8 => TextureFormat::R8Unorm,
        PixelFormat::Rgb8 => TextureFormat::Rgba8Unorm,
    }
}

/// How a texture may be used.
#[derive(Clone, Copy, Debug, PartialEq, Eq, Structural, Hash)]
pub struct TextureUsage {
    pub sampled: bool,
    pub render_attachment: bool,
    pub copy_dst: bool,
}

/// A texture sampler's filter.
#[derive(Clone, Copy, Debug, PartialEq, Eq, Structural, Hash)]
pub enum FilterMode {
    Nearest,
    Linear,
}

/// What a sampler does outside the texture.
#[derive(Clone, Copy, Debug, PartialEq, Eq, Structural, Hash)]
pub enum AddressMode {
    ClampToEdge,
    Repeat,
    MirrorRepeat,
    ClampToBorder,
}

/// A two-dimensional texture of one sample per pixel.
#[derive(Clone, Debug)]
pub struct TextureSpec {
    pub label: String,
    pub size: Extent3d,
    pub mip_level_count: u32,
    pub sample_count: u32,
    pub format: TextureFormat,
    pub usage: TextureUsage,
}

/// The sampler of a texture, labelled "Texture Sampler"; settings not named here are the
/// defaults.
#[derive(Clone, Copy, Debug, PartialEq, Eq, Structural, Hash)]
pub struct SamplerSpec {
    pub mag_filter: FilterMode,
    pub min_filter: FilterMode,
    pub mipmap_filter: FilterMode,
    pub address_mode_u: AddressMode,
    pub address_mode_v: AddressMode,
}

/// Everything an image's GPU objects are made from: its texture and the view of it, its
/// sampler, and its stencil texture and the view of that.
#[derive(Clone, Debug)]
pub struct TextureSetSpec {
    pub texture: TextureSpec,
    pub sampler: SamplerSpec,
    pub stencil: TextureSpec,
}

/// The debug form of a string: quoted, with its special characters escaped.
pub uninterp spec fn debug_str(s: Seq<char>) -> Seq<char>;

/// Calls `format!("{:?}", s)`: std's debug formatting of a string. What it returns is
/// named by `debug_str`; nothing more is claimed of it here.
#[verifier::external_body]
fn debug_string(s: &str) -> (r: String)
    ensures
        r@ == debug_str(s@),
{
    format!("{:?}", s)
}

/// A stencil texture: one mip level, the depth-stencil format, used as a render attachment.
pub open spec fn spec_stencil_descriptor(size: Size, label: Seq<char>) -> (Seq<char>, Extent3d, u32, u32, TextureFormat, TextureUsage) {
    (
        label,
        spec_extent(size),
        1,
        1,
        TextureFormat::Depth24PlusStencil8,
        TextureUsage { sampled: false, render_attachment: true, copy_dst: false },
    )
}

/// The parts of a texture description.
pub open spec fn texture_parts(t: TextureSpec) -> (Seq<char>, Extent3d, u32, u32, TextureFormat, TextureUsage) {
    (t.label@, t.size, t.mip_level_count, t.sample_count, t.format, t.usage)
}

/// Describes a stencil texture of a size.
pub fn new_stencil_descriptor(size: Size, label: String) -> (r: TextureSpec)
    ensures
        texture_parts(r) == spec_stencil_descriptor(size, label@),
{
    TextureSpec {
        label,
        size: Extent3d::from(size),
        mip_level_count: 1,
        sample_count: 1,
        format: TextureFormat::Depth24PlusStencil8,
        usage: TextureUsage { sampled: false, render_attachment: true, copy_dst: false },
    }
}

/// The filter of an image: nearest if its flags ask for it, else linear.
pub open spec fn image_filter(flags: ImageFlags) -> FilterMode {
    if flags.nearest {
        FilterMode::Nearest
    } else {
        FilterMode::Linear
    }
}

/// Repeating along an axis if the flag asks for it, else clamping to the edge.
pub open spec fn address_mode(repeat: bool) -> AddressMode {
    if repeat {
        AddressMode::Repeat
    } else {
        AddressMode::ClampToEdge
    }
}

/// The GPU objects of an image: its texture (a full mip chain when mipmaps are asked for,
/// else one level), its sampler, and a stencil texture of the same size.
pub open spec fn spec_texture_set(info: ImageInfo, label: Seq<char>, t: TextureSetSpec) -> bool {
    let size = spec_extent(info.size_spec());
    let filter = image_filter(info.flags);
    &&& texture_parts(t.texture) == (
        label,
        size,
        (if info.flags.generate_mipmaps {
            ceil_log2(max_side(size) as nat) as u32
        } else {
            1u32
        }),
        1u32,
        spec_texture_format(info.format),
        TextureUsage { sampled: true, render_attachment: true, copy_dst: true },
    )
    &&& t.sampler == SamplerSpec {
        mag_filter: filter,
        min_filter: filter,
        mipmap_filter: if info.flags.generate_mipmaps {
            filter
        } else {
            FilterMode::Nearest
        },
        address_mode_u: address_mode(info.flags.repeat_x),
        address_mode_v: address_mode(info.flags.repeat_y),
    }
    &&& texture_parts(t.stencil) == spec_stencil_descriptor(
        info.size_spec(),
        debug_str(label) + " stencil"@,
    )
}

impl ImageInfo {
    pub open spec fn size_spec(self) -> Size {
        Size { w: self.width as u32, h: self.height as u32 }
    }
}

/// Describes the GPU objects of an image.
pub fn texture_set(info: ImageInfo, label: &str) -> (r: TextureSetSpec)
    requires
        info.format != PixelFormat::Rgb8,
    ensures
        spec_texture_set(info, label@, r),
{
    let generate_mipmaps = info.flags.generate_mipmaps;
    let nearest = info.flags.nearest;
    let repeatx = info.flags.repeat_x;
    let repeaty = info.flags.repeat_y;
    let format = texture_format(info.format);
    let size = Extent3d::from(info.size());
    let mip_level_count = if generate_mipmaps {
        size.mip_mipmap_level_count()
    } else {
        1
    };
    let texture = TextureSpec {
        label: label.to_owned(),
        size,
        mip_level_count,
        sample_count: 1,
        format,
        usage: TextureUsage { sampled: true, render_attachment: true, copy_dst: true },
    };
    let filter = if nearest {
        FilterMode::Nearest
    } else {
        FilterMode::Linear
    };
    let sampler = SamplerSpec {
        mag_filter: filter,
        min_filter: filter,
        mipmap_filter: if generate_mipmaps {
            filter
        } else {
            FilterMode::Nearest
        },
        address_mode_u: if repeatx {
            AddressMode::Repeat
        } else {
            AddressMode::ClampToEdge
        },
        address_mode_v: if repeaty {
            AddressMode::Repeat
        } else {
            AddressMode::ClampToEdge
        },
    };
    let mut stencil_label = debug_string(label);
    stencil_label.append(" stencil");
    let stencil = new_stencil_descriptor(info.size(), stencil_label);
    TextureSetSpec { texture, sampler, stencil }
}

/// Law: an image's sampler follows its flags, each flag on its own. Minification and
/// magnification use the same filter, nearest exactly when the image asks for nearest
/// sampling and linear otherwise; mip levels are filtered that way only when they are
/// generated; and each axis repeats exactly when its own repeat flag is set, clamping to
/// the edge otherwise, whatever the other axis asks.
pub proof fn lemma_texture_set_sampler(info: ImageInfo, label: Seq<char>, t: TextureSetSpec)
    requires
        spec_texture_set(info, label, t),
    ensures
        t.sampler.min_filter == t.sampler.mag_filter,
        (t.sampler.mag_filter == FilterMode::Nearest) == info.flags.nearest,
        (t.sampler.min_filter == FilterMode::Nearest) == info.flags.nearest,
        (t.sampler.min_filter == FilterMode::Linear) == !info.flags.nearest,
        info.flags.generate_mipmaps ==> t.sampler.mipmap_filter == t.sampler.min_filter,
        !info.flags.generate_mipmaps ==> t.sampler.mipmap_filter == FilterMode::Nearest,
        (t.sampler.address_mode_u == AddressMode::Repeat) == info.flags.repeat_x,
        (t.sampler.address_mode_u == AddressMode::ClampToEdge) == !info.flags.repeat_x,
        (t.sampler.address_mode_v == AddressMode::Repeat) == info.flags.repeat_y,
        (t.sampler.address_mode_v == AddressMode::ClampToEdge) == !info.flags.repeat_y,
{
}

/// Law: an image's texture has the image's size, one sample per pixel, and one mip level
/// unless mipmaps are asked for, when it has a full chain: the least number `m` of levels
/// with `2^m` at least the largest side. It can be sampled, drawn into and written to, and
/// its stencil texture has the same size, one level, the depth-stencil format, and is
/// only drawn into.
pub proof fn lemma_texture_set_texture(info: ImageInfo, label: Seq<char>, t: TextureSetSpec)
    requires
        spec_texture_set(info, label, t),
    ensures
        t.texture.label@ == label,
        t.texture.size.width == info.width as u32,
        t.texture.size.height == info.height as u32,
        t.texture.size.depth_or_array_layers == 1,
        t.texture.sample_count == 1,
        !info.flags.generate_mipmaps ==> t.texture.mip_level_count == 1,
        info.flags.generate_mipmaps ==> {
            let m = max_side(t.texture.size) as nat;
            &&& crate::geometry::pow2(t.texture.mip_level_count as nat) >= m
            &&& m >= 2 ==> crate::geometry::pow2((t.texture.mip_level_count - 1) as nat) < m
        },
        t.texture.usage == (TextureUsage { sampled: true, render_attachment: true, copy_dst: true }),
        info.format == PixelFormat::Rgba8 ==> t.texture.format == TextureFormat::Rgba8Unorm,
        info.format == PixelFormat::Bgra8 ==> t.texture.format == TextureFormat::Bgra8Unorm,
        info.format == PixelFormat::Gray8 ==> t.texture.format == TextureFormat::R8Unorm,
        t.stencil.size == t.texture.size,
        t.stencil.mip_level_count == 1,
        t.stencil.sample_count == 1,
        t.stencil.format == TextureFormat::Depth24PlusStencil8,
        t.stencil.usage == (TextureUsage { sampled: false, render_attachment: true, copy_dst: false }),
{
    if info.flags.generate_mipmaps {
        let m = max_side(t.texture.size) as nat;
        crate::geometry::lemma_ceil_log2(m);
        crate::geometry::lemma_ceil_log2_le_32(m);
    }
}

/// Where and how pixels are written into a texture: at `(x, y)` in mip level 0, a
/// `width` x `height` block whose rows are `bytes_per_row` bytes apart (`None` when
/// that would be zero).
#[derive(Clone, Copy, Debug, PartialEq, Eq, Structural, Hash)]
pub struct TextureWrite {
    pub x: u32,
    pub y: u32,
    pub width: u32,
    pub height: u32,
    pub bytes_per_row: Option<u32>,
}

/// A row length as the texture copy takes it: none when zero.
pub open spec fn non_zero(n: u32) -> Option<u32> {
    if n == 0 {
        None
    } else {
        Some(n)
    }
}

/// What an update of a texture of `info` with `src` at `(x, y)` does: refuse pixels that
/// fall outside the texture or have another format, else write them.
pub open spec fn spec_update(info: ImageInfo, src: ImageSource, x: usize, y: usize) -> Result<TextureWrite, ErrorKind> {
    let (w, h) = src.spec_dimensions();
    if x + w > info.width || y + h > info.height {
        Err(ErrorKind::ImageUpdateOutOfBounds)
    } else if info.format != src.spec_format() {
        Err(ErrorKind::ImageUpdateWithDifferentFormat)
    } else {
        Ok(TextureWrite {
            x: x as u32,
            y: y as u32,
            width: w as u32,
            height: h as u32,
            bytes_per_row: match src {
                ImageSource::Rgba { .. } => non_zero((4 * (w as u32)) as u32),
                _ => non_zero(w as u32),
            },
        })
    }
}

/// The arithmetic of an update does not overflow.
pub open spec fn update_ok(info: ImageInfo, src: ImageSource, x: usize, y: usize) -> bool {
    let (w, h) = src.spec_dimensions();
    &&& x + w <= usize::MAX
    &&& x + w <= info.width ==> y + h <= usize::MAX
    &&& (x + w <= info.width && y + h <= info.height && info.format == src.spec_format()
        && src is Rgba) ==> 4 * (w as u32) <= u32::MAX
}

/// The width, height and pixel format of the pixels to write, and how many bytes a row of
/// them takes.
pub open spec fn pixels_of(src: ImageSource) -> (usize, usize, PixelFormat, int) {
    match src {
        ImageSource::Rgb { width, height } => (width, height, PixelFormat::Rgb8, 3 * width),
        ImageSource::Rgba { width, height } => (width, height, PixelFormat::Rgba8, 4 * width),
        ImageSource::Gray { width, height } => (width, height, PixelFormat::Gray8, width as int),
    }
}

/// Law: an update writes pixels only inside the texture and only of the texture's format.
/// It is refused as out of bounds exactly when the block at `(x, y)` reaches past the
/// right or bottom edge, and otherwise for another format exactly when the formats
/// differ. An accepted update writes the whole block at `(x, y)`, with rows as long in
/// bytes as a row of its pixels (none for an empty row). Textures never hold RGB pixels,
/// so RGB pixels are always refused.
pub proof fn lemma_texture_update(info: ImageInfo, src: ImageSource, x: usize, y: usize)
    requires
        info.format != PixelFormat::Rgb8,
    ensures
        src is Rgb ==> spec_update(info, src, x, y) is Err,
        (spec_update(info, src, x, y) == Err::<TextureWrite, ErrorKind>(ErrorKind::ImageUpdateOutOfBounds))
            == (x + pixels_of(src).0 > info.width || y + pixels_of(src).1 > info.height),
        (spec_update(info, src, x, y) == Err::<TextureWrite, ErrorKind>(ErrorKind::ImageUpdateWithDifferentFormat))
            == (x + pixels_of(src).0 <= info.width && y + pixels_of(src).1 <= info.height && info.format != pixels_of(src).2),
        spec_update(info, src, x, y) is Ok ==> {
            &&& spec_update(info, src, x, y)->Ok_0.x == x as u32
            &&& spec_update(info, src, x, y)->Ok_0.y == y as u32
            &&& spec_update(info, src, x, y)->Ok_0.width == pixels_of(src).0 as u32
            &&& spec_update(info, src, x, y)->Ok_0.height == pixels_of(src).1 as u32
        },
        spec_update(info, src, x, y) is Ok && pixels_of(src).3 <= u32::MAX ==> {
            &&& pixels_of(src).0 == 0 ==> spec_update(info, src, x, y)->Ok_0.bytes_per_row is None
            &&& pixels_of(src).0 > 0 ==> spec_update(info, src, x, y)->Ok_0.bytes_per_row
                == Some(pixels_of(src).3 as u32)
        },
{
}

/// An image's texture: its info, and the GPU objects `H` made for it.
pub struct WGPUTexture<H> {
    info: ImageInfo,
    handles: H,
}

impl<H> WGPUTexture<H> {
    pub closed spec fn info_spec(&self) -> ImageInfo {
        self.info
    }

    pub closed spec fn handles_spec(&self) -> H {
        self.handles
    }

    /// A texture is never RGB and never asks for mipmaps, which the renderer cannot
    /// generate.
    pub open spec fn wf(&self) -> bool {
        &&& self.info_spec().format != PixelFormat::Rgb8
        &&& !self.info_spec().flags.generate_mipmaps
    }

    /// Makes an image's texture: `create` makes the GPU objects from their description.
    pub fn new<F: Fn(TextureSetSpec) -> H>(info: ImageInfo, label: &str, create: &F) -> (r: Result<Self, ErrorKind>)
        requires
            info.format != PixelFormat::Rgb8,
            !info.flags.generate_mipmaps,
            forall|s: TextureSetSpec| create.requires((s,)),
        ensures
            r matches Ok(t) && t.wf() && t.info_spec() == info && exists|s: TextureSetSpec|
                spec_texture_set(info, label@, s) && create.ensures((s,), t.handles_spec()),
    {
        let set = texture_set(info, label);
        let ghost s = set;
        let handles = create(set);
        Ok(WGPUTexture { info, handles })
    }

    /// Makes the 1x1 gray stand-in texture that is bound where a draw has no image.
    pub fn new_pseudo_texture<F: Fn(TextureSetSpec) -> H>(create: &F) -> (r: Result<Self, ErrorKind>)
        requires
            forall|s: TextureSetSpec| create.requires((s,)),
        ensures
            r matches Ok(t) && t.wf() && t.info_spec() == pseudo_info() && exists|s: TextureSetSpec|
                spec_texture_set(pseudo_info(), "pseudo texture"@, s) && create.ensures(
                    (s,),
                    t.handles_spec(),
                ),
    {
        let flags = ImageFlags {
            generate_mipmaps: false,
            repeat_x: false,
            repeat_y: false,
            flip_y: false,
            premultiplied: false,
            nearest: false,
        };
        let info = ImageInfo::new(flags, 1, 1, PixelFormat::Gray8);
        Self::new(info, "pseudo texture", create)
    }

    /// Checks an update of the texture with `src` at `(x, y)`, and says where and how to
    /// write its pixels.
    pub fn update(&self, src: ImageSource, x: usize, y: usize) -> (r: Result<TextureWrite, ErrorKind>)
        requires
            self.wf(),
            update_ok(self.info_spec(), src, x, y),
        ensures
            r == spec_update(self.info_spec(), src, x, y),
    {
        let (width, height) = src.dimensions();
        if x + width > self.info.width {
            return Err(ErrorKind::ImageUpdateOutOfBounds);
        }
        if y + height > self.info.height {
            return Err(ErrorKind::ImageUpdateOutOfBounds);
        }
        if self.info.format != src.format() {
            return Err(ErrorKind::ImageUpdateWithDifferentFormat);
        }
        let w = width as u32;
        let bytes_per_row = match src {
            ImageSource::Gray { .. } => w,
            ImageSource::Rgba { .. } => 4 * w,
            ImageSource::Rgb { .. } => w,
        };
        Ok(TextureWrite {
            x: x as u32,
            y: y as u32,
            width: w,
            height: height as u32,
            bytes_per_row: if bytes_per_row == 0 { None } else { Some(bytes_per_row) },
        })
    }

    /// The GPU objects of the texture.
    pub fn handles(&self) -> (r: &H)
        ensures
            *r == self.handles_spec(),
    {
        &self.handles
    }

    /// The image's size.
    pub fn size(&self) -> (r: Size)
        ensures
            r == self.info_spec().size_spec(),
    {
        self.info.size()
    }

    /// The texture's format.
    pub fn format(&self) -> (r: TextureFormat)
        requires
            self.wf(),
        ensures
            r == spec_texture_format(self.info_spec().format),
    {
        texture_format(self.info.format)
    }

    /// The image's info.
    pub fn info(&self) -> (r: ImageInfo)
        ensures
            r == self.info_spec(),
    {
        self.info
    }
}

/// The info of the stand-in texture: 1x1, gray, no flags.
pub open spec fn pseudo_info() -> ImageInfo {
    ImageInfo {
        flags: ImageFlags {
            generate_mipmaps: false,
            repeat_x: false,
            repeat_y: false,
            flip_y: false,
            premultiplied: false,
            nearest: false,
        },
        width: 1,
        height: 1,
        format: PixelFormat::Gray8,
    }
}

} // verus!
