use femtovg_wgpu::indices::{vert_range, VecExt};

#[test]
fn fan_of_five_vertices() {
    let mut v: Vec<u32> = vec![7];
    let added = v.extend_with_triange_fan_indices_cw(10, 5);
    assert_eq!(added, 9);
    assert_eq!(v, vec![7, 10, 11, 12, 10, 12, 13, 10, 13, 14]);
}

#[test]
fn fan_of_one_or_two_vertices_is_empty() {
    let mut v: Vec<u32> = Vec::new();
    assert_eq!(v.extend_with_triange_fan_indices_cw(3, 1), 0);
    assert_eq!(v.extend_with_triange_fan_indices_cw(3, 2), 0);
    assert!(v.is_empty());
}

#[test]
fn fan_of_three_vertices_is_one_triangle() {
    let mut v: Vec<u32> = Vec::new();
    assert_eq!(v.extend_with_triange_fan_indices_cw(0, 3), 3);
    assert_eq!(v, vec![0, 1, 2]);
}

#[test]
fn fan_reaching_the_last_u32() {
    let mut v: Vec<u32> = Vec::new();
    let start = u32::MAX - 3;
    assert_eq!(v.extend_with_triange_fan_indices_cw(start, 4), 6);
    assert_eq!(v, vec![start, start + 1, start + 2, start, start + 2, start + 3]);
}

#[test]
fn vert_range_counts_from_start() {
    let r = vert_range(3, 4);
    assert_eq!(r, 3..7);
    assert_eq!(vert_range(0, 0), 0..0);
}

#[test]
fn vert_range_cuts_to_u32() {
    let big = (u32::MAX as usize) + 2;
    assert_eq!(vert_range(big, 3), 1..4);
}
