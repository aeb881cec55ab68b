use std::cell::Cell;

use femtovg_wgpu::bind_group::{
    create_bind_group, BindGroupEntry, BindGroupSpec, BindingResource, TextureSource, WGPUBindGroupCache,
};
use femtovg_wgpu::command::ImageId;

#[test]
fn missing_images_use_the_stand_in() {
    let s = create_bind_group(None, Some(ImageId(4)));
    assert_eq!(s, BindGroupSpec { texture: TextureSource::Pseudo, alpha: TextureSource::Image(ImageId(4)) });
    assert_eq!(
        s.entries(),
        vec![
            BindGroupEntry { binding: 2, resource: BindingResource::TextureView(TextureSource::Pseudo) },
            BindGroupEntry { binding: 3, resource: BindingResource::Sampler(TextureSource::Pseudo) },
            BindGroupEntry { binding: 4, resource: BindingResource::TextureView(TextureSource::Image(ImageId(4))) },
            BindGroupEntry { binding: 5, resource: BindingResource::Sampler(TextureSource::Image(ImageId(4))) },
        ]
    );
}

#[test]
fn bind_group_cache_makes_each_pair_once() {
    let made = Cell::new(0u32);
    let build = |s: BindGroupSpec| {
        made.set(made.get() + 1);
        s
    };
    let mut cache = WGPUBindGroupCache::new();
    let a = cache.get(Some(ImageId(1)), None, &build);
    let b = cache.get(None, None, &build);
    let a2 = cache.get(Some(ImageId(1)), None, &build);
    assert_eq!(a, a2);
    assert_ne!(a, b);
    assert_eq!(made.get(), 2);
    assert_eq!(cache.group(a).texture, TextureSource::Image(ImageId(1)));
    assert_eq!(cache.group(b).alpha, TextureSource::Pseudo);
    cache.clear();
    cache.get(None, None, &build);
    assert_eq!(made.get(), 2);
}
