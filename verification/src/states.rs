use vstd::prelude::*;

verus! {

/// The texture formats the renderer uses.
#[derive(Clone, Copy, Debug, PartialEq, Eq, Structural, Hash)]
pub enum TextureFormat {
    R8Unorm,
    Rgba8Unorm,
    Bgra8Unorm,
    Depth24PlusStencil8,
}

/// A comparison of a new value with the one stored.
#[derive(Clone, Copy, Debug, PartialEq, Eq, Structural, Hash)]
pub enum CompareFunction {
    Never,
    Less,
    Equal,
    LessEqual,
    Greater,
    NotEqual,
    GreaterEqual,
    Always,
}

/// What happens to a stencil value.
#[derive(Clone, Copy, Debug, PartialEq, Eq, Structural, Hash)]
pub enum StencilOperation {
    Keep,
    Zero,
    Replace,
    Invert,
    IncrementClamp,
    DecrementClamp,
    IncrementWrap,
    DecrementWrap,
}

/// The stencil test and operations of one face.
#[derive(Clone, Copy, Debug, PartialEq, Eq, Structural, Hash)]
pub struct StencilFaceState {
    pub compare: CompareFunction,
    pub fail_op: StencilOperation,
    pub depth_fail_op: StencilOperation,
    pub pass_op: StencilOperation,
}

/// The stencil test of both faces with its masks.
#[derive(Clone, Copy, Debug, PartialEq, Eq, Structural, Hash)]
pub struct StencilState {
    pub front: StencilFaceState,
    pub back: StencilFaceState,
    pub read_mask: u32,
    pub write_mask: u32,
}

/// The depth-stencil state of a pipeline; its depth bias is always the default (none).
#[derive(Clone, Copy, Debug, PartialEq, Eq, Structural, Hash)]
pub struct DepthStencilState {
    pub format: TextureFormat,
    pub depth_write_enabled: bool,
    pub depth_compare: CompareFunction,
    pub stencil: StencilState,
}

/// The face state that ignores the stencil: always pass, keep every value.
pub open spec fn ignore_face() -> StencilFaceState {
    StencilFaceState {
        compare: CompareFunction::Always,
        fail_op: StencilOperation::Keep,
        depth_fail_op: StencilOperation::Keep,
        pass_op: StencilOperation::Keep,
    }
}

/// A face state that keeps every value and passes by `compare`.
pub open spec fn keep_face(compare: CompareFunction) -> StencilFaceState {
    StencilFaceState { compare, ..ignore_face() }
}

/// A state with no depth writes, an always-passing depth test, the given stencil faces
/// and masks.
pub open spec fn depth_stencil(
    format: TextureFormat,
    front: StencilFaceState,
    back: StencilFaceState,
    read_mask: u32,
    write_mask: u32,
) -> DepthStencilState {
    DepthStencilState {
        format,
        depth_write_enabled: false,
        depth_compare: CompareFunction::Always,
        stencil: StencilState { front, back, read_mask, write_mask },
    }
}

fn face(
    compare: CompareFunction,
    fail_op: StencilOperation,
    depth_fail_op: StencilOperation,
    pass_op: StencilOperation,
) -> (r: StencilFaceState)
    ensures
        r == (StencilFaceState { compare, fail_op, depth_fail_op, pass_op }),
{
    StencilFaceState { compare, fail_op, depth_fail_op, pass_op }
}

fn ignore() -> (r: StencilFaceState)
    ensures
        r == ignore_face(),
{
    face(CompareFunction::Always, StencilOperation::Keep, StencilOperation::Keep, StencilOperation::Keep)
}

fn make(
    format: TextureFormat,
    front: StencilFaceState,
    back: StencilFaceState,
    read_mask: u32,
    write_mask: u32,
) -> (r: DepthStencilState)
    ensures
        r == depth_stencil(format, front, back, read_mask, write_mask),
{
    DepthStencilState {
        format,
        depth_write_enabled: false,
        depth_compare: CompareFunction::Always,
        stencil: StencilState { front, back, read_mask, write_mask },
    }
}

/// Writing a concave shape into the stencil: front faces count up, back faces count
/// down, both wrapping.
pub open spec fn spec_fill_shape_stencil_state(format: TextureFormat) -> DepthStencilState {
    depth_stencil(
            format,
            StencilFaceState { pass_op: StencilOperation::IncrementWrap, ..ignore_face() },
            StencilFaceState { pass_op: StencilOperation::DecrementWrap, ..ignore_face() },
            0xff,
            0xff,
        )
}

/// Writing a concave shape into the stencil: front faces count up, back faces count
/// down, both wrapping.
pub fn fill_shape_stencil_state(format: TextureFormat) -> (r: DepthStencilState)
    ensures
        r == spec_fill_shape_stencil_state(format),
{
    let front = face(CompareFunction::Always, StencilOperation::Keep, StencilOperation::Keep, StencilOperation::IncrementWrap);
    let back = face(CompareFunction::Always, StencilOperation::Keep, StencilOperation::Keep, StencilOperation::DecrementWrap);
    make(format, front, back, 0xff, 0xff)
}

/// The fringes of a non-zero fill: drawn where the stencil equals the reference.
pub open spec fn spec_fill_anti_alias_stencil_state_nonzero(format: TextureFormat) -> DepthStencilState {
    depth_stencil(format, keep_face(CompareFunction::Equal), ignore_face(), 0xff, 0xff)
}

/// The fringes of a non-zero fill: drawn where the stencil equals the reference.
pub fn fill_anti_alias_stencil_state_nonzero(format: TextureFormat) -> (r: DepthStencilState)
    ensures
        r == spec_fill_anti_alias_stencil_state_nonzero(format),
{
    let front = face(CompareFunction::Equal, StencilOperation::Keep, StencilOperation::Keep, StencilOperation::Keep);
    make(format, front, ignore(), 0xff, 0xff)
}

/// The fringes of an even-odd fill: drawn where the stencil's low bit equals the
/// reference.
pub open spec fn spec_fill_anti_alias_stencil_state_evenodd(format: TextureFormat) -> DepthStencilState {
    depth_stencil(format, keep_face(CompareFunction::Equal), ignore_face(), 0x1, 0xff)
}

/// The fringes of an even-odd fill: drawn where the stencil's low bit equals the
/// reference.
pub fn fill_anti_alias_stencil_state_evenodd(format: TextureFormat) -> (r: DepthStencilState)
    ensures
        r == spec_fill_anti_alias_stencil_state_evenodd(format),
{
    let front = face(CompareFunction::Equal, StencilOperation::Keep, StencilOperation::Keep, StencilOperation::Keep);
    make(format, front, ignore(), 0x1, 0xff)
}

/// Covering a non-zero fill: drawn where the stencil is not zero, which it resets.
pub open spec fn spec_fill_stencil_state_nonzero(format: TextureFormat) -> DepthStencilState {
    depth_stencil(
            format,
            StencilFaceState {
                compare: CompareFunction::NotEqual,
                fail_op: StencilOperation::Zero,
                depth_fail_op: StencilOperation::Zero,
                pass_op: StencilOperation::Zero,
            },
            ignore_face(),
            0xff,
            0xff,
        )
}

/// Covering a non-zero fill: drawn where the stencil is not zero, which it resets.
pub fn fill_stencil_state_nonzero(format: TextureFormat) -> (r: DepthStencilState)
    ensures
        r == spec_fill_stencil_state_nonzero(format),
{
    let front = face(CompareFunction::NotEqual, StencilOperation::Zero, StencilOperation::Zero, StencilOperation::Zero);
    make(format, front, ignore(), 0xff, 0xff)
}

/// Covering an even-odd fill: drawn where the stencil's low bit is set, resetting it.
pub open spec fn spec_fill_stencil_state_evenodd(format: TextureFormat) -> DepthStencilState {
    depth_stencil(
            format,
            StencilFaceState {
                compare: CompareFunction::NotEqual,
                fail_op: StencilOperation::Zero,
                depth_fail_op: StencilOperation::Zero,
                pass_op: StencilOperation::Zero,
            },
            ignore_face(),
            0x1,
            0xff,
        )
}

/// Covering an even-odd fill: drawn where the stencil's low bit is set, resetting it.
pub fn fill_stencil_state_evenodd(format: TextureFormat) -> (r: DepthStencilState)
    ensures
        r == spec_fill_stencil_state_evenodd(format),
{
    let front = face(CompareFunction::NotEqual, StencilOperation::Zero, StencilOperation::Zero, StencilOperation::Zero);
    make(format, front, ignore(), 0x1, 0xff)
}

/// The base of a stencil stroke: drawn where the stencil equals the reference, which it
/// then raises so no pixel is drawn twice.
pub open spec fn spec_stroke_shape_stencil_state(format: TextureFormat) -> DepthStencilState {
    depth_stencil(
            format,
            StencilFaceState { compare: CompareFunction::Equal, pass_op: StencilOperation::IncrementClamp, ..ignore_face() },
            ignore_face(),
            0xff,
            0xff,
        )
}

/// The base of a stencil stroke: drawn where the stencil equals the reference, which it
/// then raises so no pixel is drawn twice.
pub fn stroke_shape_stencil_state(format: TextureFormat) -> (r: DepthStencilState)
    ensures
        r == spec_stroke_shape_stencil_state(format),
{
    let front = face(CompareFunction::Equal, StencilOperation::Keep, StencilOperation::Keep, StencilOperation::IncrementClamp);
    make(format, front, ignore(), 0xff, 0xff)
}

/// The antialiased pixels of a stencil stroke: drawn where the stencil equals the
/// reference.
pub open spec fn spec_stroke_anti_alias_stencil_state(format: TextureFormat) -> DepthStencilState {
    depth_stencil(format, keep_face(CompareFunction::Equal), ignore_face(), 0xff, 0xff)
}

/// The antialiased pixels of a stencil stroke: drawn where the stencil equals the
/// reference.
pub fn stroke_anti_alias_stencil_state(format: TextureFormat) -> (r: DepthStencilState)
    ensures
        r == spec_stroke_anti_alias_stencil_state(format),
{
    let front = face(CompareFunction::Equal, StencilOperation::Keep, StencilOperation::Keep, StencilOperation::Keep);
    make(format, front, ignore(), 0xff, 0xff)
}

/// Clearing after a stencil stroke: every pixel's stencil is reset to zero.
pub open spec fn spec_stroke_clear_stencil_state(format: TextureFormat) -> DepthStencilState {
    depth_stencil(
            format,
            StencilFaceState {
                compare: CompareFunction::Always,
                fail_op: StencilOperation::Zero,
                depth_fail_op: StencilOperation::Zero,
                pass_op: StencilOperation::Zero,
            },
            ignore_face(),
            0xff,
            0xff,
        )
}

/// Clearing after a stencil stroke: every pixel's stencil is reset to zero.
pub fn stroke_clear_stencil_state(format: TextureFormat) -> (r: DepthStencilState)
    ensures
        r == spec_stroke_clear_stencil_state(format),
{
    let front = face(CompareFunction::Always, StencilOperation::Zero, StencilOperation::Zero, StencilOperation::Zero);
    make(format, front, ignore(), 0xff, 0xff)
}

/// No stencil test at all: both faces ignore the stencil and both masks are zero.
pub open spec fn spec_default_stencil_state(format: TextureFormat) -> DepthStencilState {
    depth_stencil(format, ignore_face(), ignore_face(), 0, 0)
}

/// No stencil test at all: both faces ignore the stencil and both masks are zero.
pub fn default_stencil_state(format: TextureFormat) -> (r: DepthStencilState)
    ensures
        r == spec_default_stencil_state(format),
{
    make(format, ignore(), ignore(), 0, 0)
}

} // verus!
