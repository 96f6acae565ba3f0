use vstd::prelude::*;

verus! {

/// The identifier of a mesh in a mesh cache.
#[derive(Debug, Clone, Copy, PartialEq, Eq, Structural)]
pub struct Id(usize);

impl Id {
    pub closed spec fn spec_index(&self) -> usize {
        self.0
    }
}

impl core::ops::Deref for Id {
    type Target = usize;

    fn deref(&self) -> (index: &usize)
        ensures
            *index == self.spec_index(),
    {
        &self.0
    }
}

/// Meshes, each under the identifier it was inserted with.
pub struct Cache<M> {
    meshes: Vec<M>,
}

impl<M> Cache<M> {
    /// The meshes, by identifier.
    pub closed spec fn spec_meshes(&self) -> Seq<M> {
        self.meshes@
    }

    pub fn new() -> (c: Self)
        ensures
            c.spec_meshes() == Seq::<M>::empty(),
    {
        Self { meshes: Vec::new() }
    }

    /// Inserts a mesh after the others.
    pub fn insert(&mut self, mesh: M) -> (id: Id)
        requires
            old(self).spec_meshes().len() < usize::MAX,
        ensures
            final(self).spec_meshes() == old(self).spec_meshes().push(mesh),
            id.spec_index() == old(self).spec_meshes().len(),
    {
        self.meshes.push(mesh);
        Id(self.meshes.len() - 1)
    }

    /// The mesh `id`.
    pub fn get(&self, id: Id) -> (mesh: &M)
        requires
            id.spec_index() < self.spec_meshes().len(),
        ensures
            *mesh == self.spec_meshes()[id.spec_index() as int],
    {
        &self.meshes[*id]
    }
}

} // verus!
