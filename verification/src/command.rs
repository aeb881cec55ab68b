use vstd::prelude::*;

use crate::blend::CompositeOperationState;

verus! {

/// Names an image of the image store.
#[derive(Clone, Copy, Debug, PartialEq, Eq, Structural, Hash)]
pub struct ImageId(pub usize);

/// Where a pass draws: the screen or an image.
#[derive(Clone, Copy, Debug, PartialEq, Eq, Structural, Hash)]
pub enum RenderTarget {
    Screen,
    Image(ImageId),
}

/// How the inside of a path is decided.
#[derive(Clone, Copy, Debug, PartialEq, Eq, Structural, Hash)]
pub enum FillRule {
    EvenOdd,
    NonZero,
}

/// One piece of a path: an optional fan of fill vertices and an optional strip of stroke
/// vertices, each given as `(first vertex, vertex count)`.
#[derive(Clone, Copy, Debug)]
pub struct Drawable {
    pub fill_verts: Option<(usize, usize)>,
    pub stroke_verts: Option<(usize, usize)>,
}

/// What a command does; `P` is the uniform block of a paint, `C` a color.
#[derive(Clone, Copy, Debug)]
pub enum CommandType<P, C> {
    SetRenderTarget(RenderTarget),
    ClearRect { x: u32, y: u32, width: u32, height: u32, color: C },
    ConvexFill { params: P },
    ConcaveFill { stencil_params: P, fill_params: P },
    Stroke { params: P },
    StencilStroke { params1: P, params2: P },
    Triangles { params: P },
}

/// One drawing command of a frame.
#[derive(Clone, Debug)]
pub struct Command<P, C> {
    pub cmd_type: CommandType<P, C>,
    pub drawables: Vec<Drawable>,
    pub triangles_verts: Option<(usize, usize)>,
    pub image: Option<ImageId>,
    pub alpha_mask: Option<ImageId>,
    pub fill_rule: FillRule,
    pub composite_operation: CompositeOperationState,
}

} // verus!
