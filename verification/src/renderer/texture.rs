use vstd::prelude::*;

verus! {

/// The identifier of a texture in a texture cache.
#[derive(Debug, Clone, Copy, PartialEq, Eq, Structural, Hash)]
pub struct Id(usize);

impl Id {
    pub closed spec fn spec_index(&self) -> usize {
        self.0
    }
}

impl core::ops::Deref for Id {
    type Target = usize;

    fn deref(&self) -> (index: &usize)
        ensures
            *index == self.spec_index(),
    {
        &self.0
    }
}

/// The dimensions of a texture.
pub struct Info {
    pub(crate) width: u32,
    pub(crate) height: u32,
}

impl Info {
    pub closed spec fn spec_width(&self) -> u32 {
        self.width
    }

    pub closed spec fn spec_height(&self) -> u32 {
        self.height
    }

    /// The dimensions `width` by `height`.
    pub fn new(width: u32, height: u32) -> (info: Self)
        ensures
            info.spec_width() == width,
            info.spec_height() == height,
    {
        Self { width, height }
    }

    pub fn width(&self) -> (w: u32)
        ensures
            w == self.spec_width(),
    {
        self.width
    }

    pub fn height(&self) -> (h: u32)
        ensures
            h == self.spec_height(),
    {
        self.height
    }
}

/// Textures with their dimensions, each under the identifier it was inserted with.
pub struct Cache<T> {
    infos: Vec<Info>,
    textures: Vec<T>,
}

impl<T> Cache<T> {
    #[verifier::type_invariant]
    spec fn same_length(&self) -> bool {
        self.infos@.len() == self.textures@.len()
    }

    /// The dimensions of each texture, by identifier.
    pub closed spec fn spec_infos(&self) -> Seq<Info> {
        self.infos@
    }

    /// The textures, by identifier.
    pub closed spec fn spec_textures(&self) -> Seq<T> {
        self.textures@
    }

    pub fn new() -> (c: Self)
        ensures
            c.spec_infos() == Seq::<Info>::empty(),
            c.spec_textures() == Seq::<T>::empty(),
    {
        Self { infos: Vec::new(), textures: Vec::new() }
    }

    /// Inserts a texture with its dimensions, after the others.
    pub fn insert(&mut self, texture_info: Info, texture: T) -> (id: Id)
        requires
            old(self).spec_textures().len() < usize::MAX,
        ensures
            final(self).spec_infos() == old(self).spec_infos().push(texture_info),
            final(self).spec_textures() == old(self).spec_textures().push(texture),
            id.spec_index() == old(self).spec_textures().len(),
            id.spec_index() == old(self).spec_infos().len(),
            final(self).spec_infos().len() == final(self).spec_textures().len(),
    {
        proof {
            use_type_invariant(&*self);
        }
        let mut taken = Self::new();
        core::mem::swap(&mut taken, self);
        let Cache { mut infos, mut textures } = taken;
        infos.push(texture_info);
        textures.push(texture);
        let id = Id(textures.len() - 1);
        *self = Cache { infos, textures };
        id
    }

    /// The dimensions of the texture `id`.
    pub fn info(&self, id: Id) -> (info: &Info)
        requires
            id.spec_index() < self.spec_infos().len(),
        ensures
            *info == self.spec_infos()[id.spec_index() as int],
    {
        &self.infos[*id]
    }

    /// The texture `id`.
    pub fn get(&self, id: Id) -> (texture: &T)
        requires
            id.spec_index() < self.spec_textures().len(),
        ensures
            *texture == self.spec_textures()[id.spec_index() as int],
    {
        &self.textures[*id]
    }
}

impl<T> Default for Cache<T> {
    fn default() -> (c: Self)
        ensures
            c.spec_infos() == Seq::<Info>::empty(),
            c.spec_textures() == Seq::<T>::empty(),
    {
        Self::new()
    }
}

/// A texture inserted into a cache is found again under the identifier the insertion gave,
/// with the dimensions it was inserted with, and the other textures stay where they were.
pub proof fn lemma_insert_then_get<T>(before: Cache<T>, after: Cache<T>, info: Info, texture: T, id: Id, other: Id)
    requires
        after.spec_infos() == before.spec_infos().push(info),
        after.spec_textures() == before.spec_textures().push(texture),
        id.spec_index() == before.spec_textures().len(),
        other.spec_index() < before.spec_textures().len(),
        before.spec_infos().len() == before.spec_textures().len(),
    ensures
        after.spec_infos()[id.spec_index() as int] == info,
        after.spec_textures()[id.spec_index() as int] == texture,
        after.spec_infos()[other.spec_index() as int] == before.spec_infos()[other.spec_index() as int],
        after.spec_textures()[other.spec_index() as int] == before.spec_textures()[other.spec_index() as int],
{
}

} // verus!
