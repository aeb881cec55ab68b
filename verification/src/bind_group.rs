use vstd::prelude::*;

use crate::command::ImageId;

verus! {

/// Where a bound texture comes from: an image of the store, or the 1x1 stand-in texture.
#[derive(Clone, Copy, Debug, PartialEq, Eq, Structural, Hash)]
pub enum TextureSource {
    Image(ImageId),
    Pseudo,
}

/// What a bind group entry binds.
#[derive(Clone, Copy, Debug, PartialEq, Eq, Structural, Hash)]
pub enum BindingResource {
    TextureView(TextureSource),
    Sampler(TextureSource),
}

/// One entry of a bind group.
#[derive(Clone, Copy, Debug, PartialEq, Eq, Structural, Hash)]
pub struct BindGroupEntry {
    pub binding: u32,
    pub resource: BindingResource,
}

/// A bind group of the paint layout: the image texture and the alpha-mask texture, each
/// with its sampler.
#[derive(Clone, Copy, Debug, PartialEq, Eq, Structural, Hash)]
pub struct BindGroupSpec {
    pub texture: TextureSource,
    pub alpha: TextureSource,
}

/// The texture that stands for an optional image: the image, or the stand-in.
pub open spec fn source_of(id: Option<ImageId>) -> TextureSource {
    match id {
        Some(i) => TextureSource::Image(i),
        None => TextureSource::Pseudo,
    }
}

/// The entries of a bind group, in order: the texture's view at binding 2, its sampler at
/// 3, the alpha texture's view at 4 and its sampler at 5.
pub open spec fn spec_entries(spec: BindGroupSpec) -> Seq<BindGroupEntry> {
    seq![
        BindGroupEntry { binding: 2, resource: BindingResource::TextureView(spec.texture) },
        BindGroupEntry { binding: 3, resource: BindingResource::Sampler(spec.texture) },
        BindGroupEntry { binding: 4, resource: BindingResource::TextureView(spec.alpha) },
        BindGroupEntry { binding: 5, resource: BindingResource::Sampler(spec.alpha) },
    ]
}

fn texture_source(id: Option<ImageId>) -> (r: TextureSource)
    ensures
        r == source_of(id),
{
    match id {
        Some(i) => TextureSource::Image(i),
        None => TextureSource::Pseudo,
    }
}

/// Describes the bind group of an image and an alpha mask; a missing one is replaced by
/// the stand-in texture.
pub fn create_bind_group(image_tex: Option<ImageId>, alpha_tex: Option<ImageId>) -> (r: BindGroupSpec)
    ensures
        r.texture == source_of(image_tex),
        r.alpha == source_of(alpha_tex),
        image_tex matches Some(i) ==> r.texture == TextureSource::Image(i),
        image_tex is None ==> r.texture == TextureSource::Pseudo,
        alpha_tex matches Some(i) ==> r.alpha == TextureSource::Image(i),
        alpha_tex is None ==> r.alpha == TextureSource::Pseudo,
{
    BindGroupSpec { texture: texture_source(image_tex), alpha: texture_source(alpha_tex) }
}

impl BindGroupSpec {
    /// The entries of the bind group.
    pub fn entries(&self) -> (r: Vec<BindGroupEntry>)
        ensures
            r@ == spec_entries(*self),
    {
        let r = vec![
            BindGroupEntry { binding: 2, resource: BindingResource::TextureView(self.texture) },
            BindGroupEntry { binding: 3, resource: BindingResource::Sampler(self.texture) },
            BindGroupEntry { binding: 4, resource: BindingResource::TextureView(self.alpha) },
            BindGroupEntry { binding: 5, resource: BindingResource::Sampler(self.alpha) },
        ];
        assert(r@ =~= spec_entries(*self));
        r
    }
}

/// The key of the bind group cache.
#[derive(Clone, Copy, Debug, PartialEq, Eq, Structural, Hash)]
pub struct CacheKey {
    pub image_tex: Option<ImageId>,
    pub alpha_tex: Option<ImageId>,
}

/// The bind groups made so far, one per image and alpha mask.
pub struct WGPUBindGroupCache<G> {
    keys: Vec<CacheKey>,
    groups: Vec<G>,
}

impl<G> WGPUBindGroupCache<G> {
    /// The cached keys, in the order they were added.
    pub closed spec fn keys(&self) -> Seq<CacheKey> {
        self.keys@
    }

    /// The cached bind groups, entry `i` for key `i`.
    pub closed spec fn entries(&self) -> Seq<G> {
        self.groups@
    }

    /// Each key is cached once, with one bind group.
    pub open spec fn wf(&self) -> bool {
        &&& self.keys().len() == self.entries().len()
        &&& forall|i: int, j: int|
            0 <= i < j < self.keys().len() ==> self.keys()[i] != self.keys()[j]
    }

    /// An empty cache.
    pub fn new() -> (r: Self)
        ensures
            r.wf(),
            r.keys() == Seq::<CacheKey>::empty(),
    {
        WGPUBindGroupCache { keys: Vec::new(), groups: Vec::new() }
    }

    fn find(&self, key: CacheKey) -> (r: Option<usize>)
        requires
            self.wf(),
        ensures
            r matches Some(i) ==> i < self.keys().len() && self.keys()[i as int] == key,
            r is None ==> !self.keys().contains(key),
    {
        let mut i: usize = 0;
        while i < self.keys.len()
            invariant
                0 <= i <= self.keys@.len(),
                forall|j: int| 0 <= j < i ==> self.keys@[j] != key,
            decreases self.keys@.len() - i,
        {
            if self.keys[i] == key {
                return Some(i);
            }
            i = i + 1;
        }
        None
    }

    /// The entry of an image and alpha mask, making its bind group with `build` if it is
    /// not cached yet.
    pub fn get<F: Fn(BindGroupSpec) -> G>(
        &mut self,
        image_tex: Option<ImageId>,
        alpha_tex: Option<ImageId>,
        build: &F,
    ) -> (slot: usize)
        requires
            old(self).wf(),
            forall|s: BindGroupSpec| build.requires((s,)),
        ensures
            final(self).wf(),
            slot < final(self).keys().len(),
            final(self).keys()[slot as int] == (CacheKey { image_tex, alpha_tex }),
            old(self).keys().contains(CacheKey { image_tex, alpha_tex }) ==> {
                &&& final(self).keys() == old(self).keys()
                &&& final(self).entries() == old(self).entries()
            },
            !old(self).keys().contains(CacheKey { image_tex, alpha_tex }) ==> {
                &&& final(self).keys() == old(self).keys().push(CacheKey { image_tex, alpha_tex })
                &&& final(self).entries().drop_last() == old(self).entries()
                &&& build.ensures(
                    (BindGroupSpec { texture: source_of(image_tex), alpha: source_of(alpha_tex) },),
                    final(self).entries().last(),
                )
            },
    {
        let key = CacheKey { image_tex, alpha_tex };
        match self.find(key) {
            Some(i) => i,
            None => {
                let bg = build(create_bind_group(image_tex, alpha_tex));
                let ghost old_groups = self.groups@;
                self.keys.push(key);
                self.groups.push(bg);
                proof {
                    assert(self.groups@.drop_last() =~= old_groups);
                    assert forall|i: int, j: int| 0 <= i < j < self.keys@.len() implies self.keys@[i] != self.keys@[j] by {
                        if j == self.keys@.len() - 1 {
                            assert(old(self).keys@[i] != key);
                        }
                    }
                }
                self.keys.len() - 1
            },
        }
    }

    /// The bind group of an entry.
    pub fn group(&self, slot: usize) -> (r: &G)
        requires
            slot < self.entries().len(),
        ensures
            *r == self.entries()[slot as int],
    {
        &self.groups[slot]
    }

    /// Keeps every cached bind group: clearing does not flush the cache.
    pub fn clear(&mut self)
        ensures
            final(self).keys() == old(self).keys(),
            final(self).entries() == old(self).entries(),
    {
    }
}

} // verus!
