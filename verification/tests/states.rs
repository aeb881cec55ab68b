use femtovg_wgpu::states::{
    default_stencil_state, fill_anti_alias_stencil_state_evenodd, fill_anti_alias_stencil_state_nonzero,
    fill_shape_stencil_state, fill_stencil_state_evenodd, fill_stencil_state_nonzero,
    stroke_anti_alias_stencil_state, stroke_clear_stencil_state, stroke_shape_stencil_state, CompareFunction,
    DepthStencilState, StencilFaceState, StencilOperation, StencilState, TextureFormat,
};

use StencilOperation::{DecrementWrap, IncrementClamp, IncrementWrap, Keep, Zero};

const F: TextureFormat = TextureFormat::Depth24PlusStencil8;

fn face(c: CompareFunction, f: StencilOperation, d: StencilOperation, p: StencilOperation) -> StencilFaceState {
    StencilFaceState { compare: c, fail_op: f, depth_fail_op: d, pass_op: p }
}

fn ignore() -> StencilFaceState {
    face(CompareFunction::Always, StencilOperation::Keep, StencilOperation::Keep, StencilOperation::Keep)
}

fn state(front: StencilFaceState, back: StencilFaceState, read_mask: u32, write_mask: u32) -> DepthStencilState {
    DepthStencilState {
        format: F,
        depth_write_enabled: false,
        depth_compare: CompareFunction::Always,
        stencil: StencilState { front, back, read_mask, write_mask },
    }
}

#[test]
fn fill_shape_counts_faces() {
    assert_eq!(
        fill_shape_stencil_state(F),
        state(
            face(CompareFunction::Always, Keep, Keep, IncrementWrap),
            face(CompareFunction::Always, Keep, Keep, DecrementWrap),
            0xff,
            0xff
        )
    );
}

#[test]
fn fringe_states_differ_only_in_read_mask() {
    let eq = face(CompareFunction::Equal, Keep, Keep, Keep);
    assert_eq!(fill_anti_alias_stencil_state_nonzero(F), state(eq, ignore(), 0xff, 0xff));
    assert_eq!(fill_anti_alias_stencil_state_evenodd(F), state(eq, ignore(), 0x1, 0xff));
    assert_eq!(stroke_anti_alias_stencil_state(F), state(eq, ignore(), 0xff, 0xff));
}

#[test]
fn fill_states_reset_the_stencil() {
    let ne = face(CompareFunction::NotEqual, Zero, Zero, Zero);
    assert_eq!(fill_stencil_state_nonzero(F), state(ne, ignore(), 0xff, 0xff));
    assert_eq!(fill_stencil_state_evenodd(F), state(ne, ignore(), 0x1, 0xff));
}

#[test]
fn stroke_states() {
    assert_eq!(
        stroke_shape_stencil_state(F),
        state(face(CompareFunction::Equal, Keep, Keep, IncrementClamp), ignore(), 0xff, 0xff)
    );
    assert_eq!(
        stroke_clear_stencil_state(F),
        state(face(CompareFunction::Always, Zero, Zero, Zero), ignore(), 0xff, 0xff)
    );
}

#[test]
fn default_state_has_no_stencil() {
    assert_eq!(default_stencil_state(TextureFormat::Bgra8Unorm).stencil, StencilState {
        front: ignore(),
        back: ignore(),
        read_mask: 0,
        write_mask: 0,
    });
    assert_eq!(default_stencil_state(TextureFormat::Bgra8Unorm).format, TextureFormat::Bgra8Unorm);
}
