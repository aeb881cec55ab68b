use femtovg_wgpu::geometry::{Extent3d, Size, WGPUExtentExt};

fn levels(width: u32, height: u32, depth: u32) -> u32 {
    Extent3d { width, height, depth_or_array_layers: depth }.mip_mipmap_level_count()
}

#[test]
fn mip_levels_round_the_logarithm_up() {
    assert_eq!(levels(0, 0, 0), 0);
    assert_eq!(levels(1, 1, 1), 0);
    assert_eq!(levels(2, 1, 1), 1);
    assert_eq!(levels(3, 1, 1), 2);
    assert_eq!(levels(4, 4, 1), 2);
    assert_eq!(levels(5, 3, 1), 3);
    assert_eq!(levels(1024, 512, 1), 10);
    assert_eq!(levels(1, 1025, 1), 11);
    assert_eq!(levels(1, 1, 17), 5);
    assert_eq!(levels(u32::MAX, 1, 1), 32);
}

#[test]
fn mip_levels_agree_with_the_float_formula() {
    for n in [1u32, 2, 3, 7, 8, 9, 100, 255, 256, 257, 4095, 4096, 4097, 65535, 65536, 1 << 20, (1 << 20) + 1] {
        let expected = (n as f64).log2().ceil() as u32;
        assert_eq!(levels(n, 1, 1), expected, "n = {}", n);
    }
}

#[test]
fn size_is_one_layer_extent() {
    let e = Extent3d::from(Size::new(640, 480));
    assert_eq!(e, Extent3d { width: 640, height: 480, depth_or_array_layers: 1 });
}
