use vstd::prelude::*;

verus! {

/// Whether a buffer was remade.
#[derive(Clone, Copy, Debug, PartialEq, Eq, Structural, Hash)]
pub enum ResizeResult {
    NotResized,
    Resized,
}

impl ResizeResult {
    /// Whether the buffer was remade.
    pub fn resized(&self) -> (r: bool)
        ensures
            r == (*self == ResizeResult::Resized),
    {
        *self == ResizeResult::Resized
    }
}

/// How a buffer may be used.
#[derive(Clone, Copy, Debug, PartialEq, Eq, Structural, Hash)]
pub struct BufferUsage {
    pub vertex: bool,
    pub index: bool,
    pub uniform: bool,
    pub copy_dst: bool,
}

/// The room of a buffer of `T`s: how many it holds and its size in bytes.
#[derive(Clone, Copy, Debug, PartialEq, Eq, Structural, Hash)]
pub struct MemAlign {
    pub capacity: usize,
    pub byte_size: usize,
}

/// The room for `capacity` elements of `element_size` bytes.
pub open spec fn spec_mem_align(capacity: usize, element_size: nat) -> MemAlign {
    MemAlign { capacity, byte_size: (capacity * element_size) as usize }
}

impl MemAlign {
    /// The room for `capacity` elements of `T`.
    pub fn new<T>(capacity: usize) -> (r: Self)
        requires
            capacity * vstd::layout::size_of::<T>() <= usize::MAX,
        ensures
            r == spec_mem_align(capacity, vstd::layout::size_of::<T>()),
            r.capacity == capacity,
            r.byte_size == capacity * vstd::layout::size_of::<T>(),
    {
        let element_size = core::mem::size_of::<T>();
        MemAlign { capacity, byte_size: capacity * element_size }
    }
}

/// A buffer to create: a label, a size in bytes, its usage, not mapped at creation.
#[derive(Clone, Copy, Debug)]
pub struct BufferSpec {
    pub label: &'static str,
    pub size: usize,
    pub usage: BufferUsage,
}

/// A GPU buffer `B` of `T`s that grows when asked for more room than it has.
pub struct WGPUVec<T, B> {
    inner: B,
    mem_align: MemAlign,
    usage: BufferUsage,
    ph: core::marker::PhantomData<T>,
}

pub open spec fn vertex_usage() -> BufferUsage {
    BufferUsage { vertex: true, index: false, uniform: false, copy_dst: true }
}

pub open spec fn uniform_usage() -> BufferUsage {
    BufferUsage { vertex: false, index: false, uniform: true, copy_dst: true }
}

pub open spec fn index_usage() -> BufferUsage {
    BufferUsage { vertex: false, index: true, uniform: false, copy_dst: true }
}

/// Room for `capacity` elements of `T` fits in `usize`.
pub open spec fn fits<T>(capacity: usize) -> bool {
    capacity * vstd::layout::size_of::<T>() <= usize::MAX
}

impl<T, B> WGPUVec<T, B> {
    pub closed spec fn inner_spec(&self) -> B {
        self.inner
    }

    pub closed spec fn mem_align_spec(&self) -> MemAlign {
        self.mem_align
    }

    pub closed spec fn usage_spec(&self) -> BufferUsage {
        self.usage
    }

    fn with_usage<F: Fn(BufferSpec) -> B>(capacity: usize, label: &'static str, usage: BufferUsage, create: &F) -> (r: Self)
        requires
            fits::<T>(capacity),
            forall|d: BufferSpec| create.requires((d,)),
        ensures
            r.mem_align_spec() == spec_mem_align(capacity, vstd::layout::size_of::<T>()),
            r.usage_spec() == usage,
            create.ensures(
                (BufferSpec { label, size: r.mem_align_spec().byte_size, usage },),
                r.inner_spec(),
            ),
    {
        let mem_align = MemAlign::new::<T>(capacity);
        let inner = create(BufferSpec { label, size: mem_align.byte_size, usage });
        WGPUVec { inner, mem_align, usage, ph: core::marker::PhantomData }
    }

    /// A vertex buffer with room for `capacity` elements.
    pub fn new_vertex<F: Fn(BufferSpec) -> B>(capacity: usize, create: &F) -> (r: Self)
        requires
            fits::<T>(capacity),
            forall|d: BufferSpec| create.requires((d,)),
        ensures
            r.mem_align_spec() == spec_mem_align(capacity, vstd::layout::size_of::<T>()),
            r.usage_spec() == vertex_usage(),
            r.usage_spec() == (BufferUsage { vertex: true, index: false, uniform: false, copy_dst: true }),
            r.mem_align_spec().capacity == capacity,
            r.mem_align_spec().byte_size == capacity * vstd::layout::size_of::<T>(),
            create.ensures(
                (BufferSpec { label: "vertex buffer", size: r.mem_align_spec().byte_size, usage: vertex_usage() },),
                r.inner_spec(),
            ),
    {
        Self::with_usage(capacity, "vertex buffer", BufferUsage { vertex: true, index: false, uniform: false, copy_dst: true }, create)
    }

    /// A uniform buffer with room for `capacity` elements.
    pub fn new_uniform<F: Fn(BufferSpec) -> B>(capacity: usize, create: &F) -> (r: Self)
        requires
            fits::<T>(capacity),
            forall|d: BufferSpec| create.requires((d,)),
        ensures
            r.mem_align_spec() == spec_mem_align(capacity, vstd::layout::size_of::<T>()),
            r.usage_spec() == uniform_usage(),
            r.usage_spec() == (BufferUsage { vertex: false, index: false, uniform: true, copy_dst: true }),
            r.mem_align_spec().capacity == capacity,
            r.mem_align_spec().byte_size == capacity * vstd::layout::size_of::<T>(),
            create.ensures(
                (BufferSpec { label: "uniform buffer", size: r.mem_align_spec().byte_size, usage: uniform_usage() },),
                r.inner_spec(),
            ),
    {
        Self::with_usage(capacity, "uniform buffer", BufferUsage { vertex: false, index: false, uniform: true, copy_dst: true }, create)
    }

    /// An index buffer with room for `capacity` elements.
    pub fn new_index<F: Fn(BufferSpec) -> B>(capacity: usize, create: &F) -> (r: Self)
        requires
            fits::<T>(capacity),
            forall|d: BufferSpec| create.requires((d,)),
        ensures
            r.mem_align_spec() == spec_mem_align(capacity, vstd::layout::size_of::<T>()),
            r.usage_spec() == index_usage(),
            r.usage_spec() == (BufferUsage { vertex: false, index: true, uniform: false, copy_dst: true }),
            r.mem_align_spec().capacity == capacity,
            r.mem_align_spec().byte_size == capacity * vstd::layout::size_of::<T>(),
            create.ensures(
                (BufferSpec { label: "index buffer", size: r.mem_align_spec().byte_size, usage: index_usage() },),
                r.inner_spec(),
            ),
    {
        Self::with_usage(capacity, "index buffer", BufferUsage { vertex: false, index: true, uniform: false, copy_dst: true }, create)
    }

    /// How many elements the buffer has room for.
    pub fn capacity(&self) -> (r: usize)
        ensures
            r == self.mem_align_spec().capacity,
    {
        self.mem_align.capacity
    }

    /// Makes room for `capacity` elements: when the buffer has less, `recreate` is handed
    /// the old buffer, to release, and the description of one with exactly that room, in
    /// the same usage; otherwise nothing changes.
    pub fn resize<F: Fn(&B, BufferSpec) -> B>(&mut self, capacity: usize, recreate: &F) -> (r: ResizeResult)
        requires
            capacity > old(self).mem_align_spec().capacity ==> fits::<T>(capacity),
            forall|b: &B, d: BufferSpec| recreate.requires((b, d)),
        ensures
            final(self).usage_spec() == old(self).usage_spec(),
            final(self).mem_align_spec().capacity >= capacity,
            final(self).mem_align_spec().capacity >= old(self).mem_align_spec().capacity,
            capacity <= old(self).mem_align_spec().capacity ==> {
                &&& r == ResizeResult::NotResized
                &&& final(self).mem_align_spec() == old(self).mem_align_spec()
                &&& final(self).inner_spec() == old(self).inner_spec()
            },
            capacity > old(self).mem_align_spec().capacity ==> {
                &&& r == ResizeResult::Resized
                &&& final(self).mem_align_spec() == spec_mem_align(capacity, vstd::layout::size_of::<T>())
                &&& final(self).mem_align_spec().capacity == capacity
                &&& final(self).mem_align_spec().byte_size == capacity * vstd::layout::size_of::<T>()
                &&& recreate.ensures(
                    (
                        &old(self).inner_spec(),
                        BufferSpec { label: "vertex buffer", size: final(self).mem_align_spec().byte_size, usage: old(self).usage_spec() },
                    ),
                    final(self).inner_spec(),
                )
            },
    {
        if capacity <= self.capacity() {
            return ResizeResult::NotResized;
        }
        let mem_align = MemAlign::new::<T>(capacity);
        let inner = recreate(&self.inner, BufferSpec { label: "vertex buffer", size: mem_align.byte_size, usage: self.usage });
        self.mem_align = mem_align;
        self.inner = inner;
        ResizeResult::Resized
    }

    /// The buffer.
    pub fn as_ref(&self) -> (r: &B)
        ensures
            *r == self.inner_spec(),
    {
        &self.inner
    }
}

} // verus!
