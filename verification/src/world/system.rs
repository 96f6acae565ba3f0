use vstd::prelude::*;

verus! {

/// Systems that run together, in the order they were added.
pub struct SystemSet<S> {
    systems: Vec<S>,
}

impl<S> SystemSet<S> {
    pub closed spec fn spec_systems(&self) -> Seq<S> {
        self.systems@
    }

    pub fn new() -> (s: Self)
        ensures
            s.spec_systems() == Seq::<S>::empty(),
    {
        SystemSet { systems: Vec::new() }
    }

    /// Adds a system that runs after the ones already added.
    pub fn add_system(&mut self, system: S)
        ensures
            final(self).spec_systems() == old(self).spec_systems().push(system),
    {
        self.systems.push(system);
    }

    /// The systems, in run order, for running them.
    pub fn systems_mut(&mut self) -> (r: &mut Vec<S>)
        ensures
            r@ == old(self).spec_systems(),
            final(r)@ == final(self).spec_systems(),
    {
        &mut self.systems
    }
}

impl<S> Default for SystemSet<S> {
    fn default() -> (s: Self)
        ensures
            s.spec_systems() == Seq::<S>::empty(),
    {
        Self::new()
    }
}

} // verus!
