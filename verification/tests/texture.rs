use femtovg_wgpu::geometry::{Extent3d, Size};
use femtovg_wgpu::states::TextureFormat;
use femtovg_wgpu::texture::{
    new_stencil_descriptor, texture_format, texture_set, AddressMode, ErrorKind, FilterMode, ImageFlags, ImageInfo,
    ImageSource, PixelFormat, SamplerSpec, TextureSetSpec, TextureUsage, TextureWrite, WGPUTexture,
};

fn flags() -> ImageFlags {
    ImageFlags { generate_mipmaps: false, repeat_x: false, repeat_y: false, flip_y: false, premultiplied: false, nearest: false }
}

fn tex(w: usize, h: usize, format: PixelFormat) -> WGPUTexture<()> {
    WGPUTexture::new(ImageInfo::new(flags(), w, h, format), "t", &|_s: TextureSetSpec| ()).unwrap()
}

#[test]
fn pixel_formats_map_to_texture_formats() {
    assert_eq!(texture_format(PixelFormat::Rgba8), TextureFormat::Rgba8Unorm);
    assert_eq!(texture_format(PixelFormat::Bgra8), TextureFormat::Bgra8Unorm);
    assert_eq!(texture_format(PixelFormat::Gray8), TextureFormat::R8Unorm);
}

#[test]
fn texture_set_of_a_plain_image() {
    let info = ImageInfo::new(flags(), 30, 20, PixelFormat::Rgba8);
    let s = texture_set(info, "img");
    assert_eq!(s.texture.label, "img");
    assert_eq!(s.texture.size, Extent3d { width: 30, height: 20, depth_or_array_layers: 1 });
    assert_eq!(s.texture.mip_level_count, 1);
    assert_eq!(s.texture.sample_count, 1);
    assert_eq!(s.texture.format, TextureFormat::Rgba8Unorm);
    assert_eq!(s.texture.usage, TextureUsage { sampled: true, render_attachment: true, copy_dst: true });
    assert_eq!(
        s.sampler,
        SamplerSpec {
            mag_filter: FilterMode::Linear,
            min_filter: FilterMode::Linear,
            mipmap_filter: FilterMode::Nearest,
            address_mode_u: AddressMode::ClampToEdge,
            address_mode_v: AddressMode::ClampToEdge,
        }
    );
    assert_eq!(s.stencil.label, "\"img\" stencil");
    assert_eq!(s.stencil.format, TextureFormat::Depth24PlusStencil8);
    assert_eq!(s.stencil.size, s.texture.size);
    assert_eq!(s.stencil.usage, TextureUsage { sampled: false, render_attachment: true, copy_dst: false });
}

#[test]
fn texture_set_follows_the_flags() {
    let mut f = flags();
    f.generate_mipmaps = true;
    f.nearest = true;
    f.repeat_x = true;
    let s = texture_set(ImageInfo::new(f, 100, 7, PixelFormat::Gray8), "a\"b");
    assert_eq!(s.texture.mip_level_count, 7);
    assert_eq!(s.texture.format, TextureFormat::R8Unorm);
    assert_eq!(s.sampler.mag_filter, FilterMode::Nearest);
    assert_eq!(s.sampler.mipmap_filter, FilterMode::Nearest);
    assert_eq!(s.sampler.address_mode_u, AddressMode::Repeat);
    assert_eq!(s.sampler.address_mode_v, AddressMode::ClampToEdge);
    assert_eq!(s.stencil.label, "\"a\\\"b\" stencil");
    let mut g = flags();
    g.generate_mipmaps = true;
    let t = texture_set(ImageInfo::new(g, 5, 5, PixelFormat::Bgra8), "m");
    assert_eq!(t.sampler.mipmap_filter, FilterMode::Linear);
    assert_eq!(t.texture.mip_level_count, 3);
}

#[test]
fn stencil_descriptor_of_a_size() {
    let d = new_stencil_descriptor(Size::new(8, 9), "s".to_string());
    assert_eq!(d.label, "s");
    assert_eq!(d.size, Extent3d { width: 8, height: 9, depth_or_array_layers: 1 });
    assert_eq!(d.mip_level_count, 1);
    assert_eq!(d.format, TextureFormat::Depth24PlusStencil8);
}

#[test]
fn update_out_of_bounds() {
    let t = tex(10, 10, PixelFormat::Rgba8);
    assert_eq!(t.update(ImageSource::Rgba { width: 5, height: 5 }, 6, 0), Err(ErrorKind::ImageUpdateOutOfBounds));
    assert_eq!(t.update(ImageSource::Rgba { width: 5, height: 5 }, 0, 6), Err(ErrorKind::ImageUpdateOutOfBounds));
    assert_eq!(t.update(ImageSource::Gray { width: 11, height: 1 }, 0, 0), Err(ErrorKind::ImageUpdateOutOfBounds));
}

#[test]
fn update_with_another_format() {
    let t = tex(10, 10, PixelFormat::Rgba8);
    assert_eq!(t.update(ImageSource::Gray { width: 5, height: 5 }, 0, 0), Err(ErrorKind::ImageUpdateWithDifferentFormat));
    assert_eq!(t.update(ImageSource::Rgb { width: 5, height: 5 }, 0, 0), Err(ErrorKind::ImageUpdateWithDifferentFormat));
}

#[test]
fn update_writes_rows_of_the_source() {
    let t = tex(10, 10, PixelFormat::Rgba8);
    assert_eq!(
        t.update(ImageSource::Rgba { width: 5, height: 4 }, 5, 6),
        Ok(TextureWrite { x: 5, y: 6, width: 5, height: 4, bytes_per_row: Some(20) })
    );
    let g = tex(10, 10, PixelFormat::Gray8);
    assert_eq!(
        g.update(ImageSource::Gray { width: 3, height: 2 }, 0, 0),
        Ok(TextureWrite { x: 0, y: 0, width: 3, height: 2, bytes_per_row: Some(3) })
    );
    assert_eq!(
        g.update(ImageSource::Gray { width: 0, height: 2 }, 10, 0),
        Ok(TextureWrite { x: 10, y: 0, width: 0, height: 2, bytes_per_row: None })
    );
}

#[test]
fn pseudo_texture_is_one_gray_pixel() {
    let p: WGPUTexture<()> = WGPUTexture::new_pseudo_texture(&|_s: TextureSetSpec| ()).unwrap();
    assert_eq!(p.size(), Size::new(1, 1));
    assert_eq!(p.format(), TextureFormat::R8Unorm);
    assert_eq!(p.info(), ImageInfo::new(flags(), 1, 1, PixelFormat::Gray8));
}
