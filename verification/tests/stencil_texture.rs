use std::cell::RefCell;

use femtovg_wgpu::geometry::Size;
use femtovg_wgpu::stencil_texture::{label, WGPUStencilTexture};
use femtovg_wgpu::texture::TextureSpec;

#[test]
fn stencil_labels_count_generations() {
    assert_eq!(label(0), "stencil texture 0");
    assert_eq!(label(42), "stencil texture 42");
    assert_eq!(label(u32::MAX), "stencil texture 4294967295");
}

#[test]
fn resize_remakes_only_for_another_size() {
    let made = RefCell::new(Vec::<String>::new());
    let create = |d: TextureSpec| {
        made.borrow_mut().push(d.label.clone());
        (d.size.width, d.size.height)
    };
    let recreate = |_old: &(u32, u32), d: TextureSpec| create(d);
    let mut t = WGPUStencilTexture::new(Size::new(100, 50), &create);
    assert_eq!(*t.view(), (100, 50));
    t.resize(Size::new(100, 50), &recreate);
    assert_eq!(made.borrow().len(), 1);
    t.resize(Size::new(200, 80), &recreate);
    assert_eq!(*t.view(), (200, 80));
    assert_eq!(t.size(), Size::new(100, 50));
    t.resize(Size::new(200, 80), &recreate);
    assert_eq!(
        *made.borrow(),
        vec!["stencil texture 0".to_string(), "stencil texture 1".to_string(), "stencil texture 2".to_string()]
    );
}
