use vstd::prelude::*;

verus! {

/// The identifier of a material in a material cache.
#[derive(Debug, Clone, Copy, PartialEq, Eq, Structural)]
pub struct Id(usize);

impl Id {
    pub closed spec fn spec_index(&self) -> usize {
        self.0
    }
}

impl core::ops::Deref for Id {
    type Target = usize;

    fn deref(&self) -> (index: &usize)
        ensures
            *index == self.spec_index(),
    {
        &self.0
    }
}

/// Materials, each under the identifier it was inserted with.
pub struct Cache<M> {
    material: Vec<M>,
}

impl<M> Cache<M> {
    /// The materials, by identifier.
    pub closed spec fn spec_materials(&self) -> Seq<M> {
        self.material@
    }

    pub fn new() -> (c: Self)
        ensures
            c.spec_materials() == Seq::<M>::empty(),
    {
        Self { material: Vec::new() }
    }

    /// Inserts a material after the others.
    pub fn insert(&mut self, material: M) -> (id: Id)
        requires
            old(self).spec_materials().len() < usize::MAX,
        ensures
            final(self).spec_materials() == old(self).spec_materials().push(material),
            id.spec_index() == old(self).spec_materials().len(),
    {
        self.material.push(material);
        Id(self.material.len() - 1)
    }

    /// The material `id`, if the cache has one under it.
    pub fn get(&self, id: Id) -> (material: Option<&M>)
        ensures
            id.spec_index() < self.spec_materials().len() ==> material == Some(
                &self.spec_materials()[id.spec_index() as int],
            ),
            id.spec_index() >= self.spec_materials().len() ==> material is None,
    {
        self.material.get(*id)
    }
}

impl<M> Default for Cache<M> {
    fn default() -> (c: Self)
        ensures
            c.spec_materials() == Seq::<M>::empty(),
    {
        Self::new()
    }
}

} // verus!
