use std::cell::RefCell;

use femtovg_wgpu::buffer::{BufferSpec, BufferUsage, MemAlign, ResizeResult, WGPUVec};

#[test]
fn resized_tells_the_two_results_apart() {
    assert!(ResizeResult::Resized.resized());
    assert!(!ResizeResult::NotResized.resized());
}

#[test]
fn mem_align_counts_bytes() {
    assert_eq!(MemAlign::new::<u32>(10), MemAlign { capacity: 10, byte_size: 40 });
    assert_eq!(MemAlign::new::<[f32; 4]>(3), MemAlign { capacity: 3, byte_size: 48 });
}

#[test]
fn buffers_are_made_with_their_usage() {
    let made = RefCell::new(Vec::<(String, usize, BufferUsage)>::new());
    let create = |d: BufferSpec| {
        made.borrow_mut().push((d.label.to_string(), d.size, d.usage));
        made.borrow().len()
    };
    let v: WGPUVec<u32, usize> = WGPUVec::new_vertex(1024, &create);
    let u: WGPUVec<[u8; 256], usize> = WGPUVec::new_uniform(32, &create);
    let i: WGPUVec<u32, usize> = WGPUVec::new_index(1024, &create);
    assert_eq!(*v.as_ref(), 1);
    assert_eq!(*u.as_ref(), 2);
    assert_eq!(*i.as_ref(), 3);
    assert_eq!(v.capacity(), 1024);
    let m = made.borrow();
    assert_eq!(m[0], ("vertex buffer".to_string(), 4096, BufferUsage { vertex: true, index: false, uniform: false, copy_dst: true }));
    assert_eq!(m[1], ("uniform buffer".to_string(), 8192, BufferUsage { vertex: false, index: false, uniform: true, copy_dst: true }));
    assert_eq!(m[2], ("index buffer".to_string(), 4096, BufferUsage { vertex: false, index: true, uniform: false, copy_dst: true }));
}

#[test]
fn resize_grows_only() {
    let made = RefCell::new(Vec::<(usize, usize)>::new());
    let create = |d: BufferSpec| d.size;
    let recreate = |old: &usize, d: BufferSpec| {
        made.borrow_mut().push((*old, d.size));
        d.size
    };
    let mut v: WGPUVec<u32, usize> = WGPUVec::new_index(16, &create);
    assert_eq!(v.resize(10, &recreate), ResizeResult::NotResized);
    assert_eq!(v.resize(16, &recreate), ResizeResult::NotResized);
    assert_eq!(v.capacity(), 16);
    assert_eq!(v.resize(17, &recreate), ResizeResult::Resized);
    assert_eq!(v.capacity(), 17);
    assert_eq!(*v.as_ref(), 68);
    assert_eq!(v.resize(3, &recreate), ResizeResult::NotResized);
    assert_eq!(v.capacity(), 17);
    assert_eq!(*made.borrow(), vec![(64, 68)]);
}
