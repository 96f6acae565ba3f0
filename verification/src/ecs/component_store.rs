use crate::ecs::bitset::{bit_of, BitSet};
use vstd::prelude::*;

verus! {

/// Largest number of entities whose components a store can hold.
pub const MAX_ENTITY_COUNT: usize = 1024;

/// Bytes needed for one bit per entity.
pub const ENTITY_BITSET_BYTES: usize = 128;

/// Storage for the components of one type, indexed by entity id, with a presence bit and a
/// dirty bit per entity.
pub struct ComponentStore<C> {
    zero_sized: bool,
    cap: usize,
    data: Vec<Option<C>>,
    entities_bitset: [u8; ENTITY_BITSET_BYTES],
    dirty_bitset: [u8; ENTITY_BITSET_BYTES],
}

impl<C> ComponentStore<C> {
    /// Internal consistency: a present component is stored, and only zero-sized
    /// components make the store unbounded.
    pub closed spec fn wf(&self) -> bool {
        &&& self.zero_sized ==> self.cap == usize::MAX
        &&& !self.zero_sized ==> self.cap == self.data@.len()
        &&& self.data@.len() <= MAX_ENTITY_COUNT
        &&& forall|i: int|
            0 <= i < MAX_ENTITY_COUNT && #[trigger] bit_of(self.entities_bitset@, i) ==> i
                < self.data@.len() && self.data@[i] is Some
    }

    /// The stored components, by entity id.
    pub closed spec fn components(&self) -> Map<usize, C> {
        Map::new(
            |i: usize| i < MAX_ENTITY_COUNT && bit_of(self.entities_bitset@, i as int),
            |i: usize| self.data@[i as int]->Some_0,
        )
    }

    /// The entities whose component is marked dirty.
    pub closed spec fn dirty_set(&self) -> Set<usize> {
        Set::new(|i: usize| i < MAX_ENTITY_COUNT && bit_of(self.dirty_bitset@, i as int))
    }

    /// The number of entity slots allocated so far (unbounded for zero-sized components).
    pub closed spec fn spec_capacity(&self) -> usize {
        self.cap
    }

    /// Creates an empty store; a store of zero-sized components never needs to grow.
    pub fn new() -> (s: Self)
        ensures
            s.wf(),
            s.components() == Map::<usize, C>::empty(),
            s.dirty_set() == Set::<usize>::empty(),
            s.spec_capacity() == (if vstd::layout::size_of::<C>() == 0 {
                usize::MAX
            } else {
                0
            }),
    {
        let zero_sized = core::mem::size_of::<C>() == 0;
        let cap = if zero_sized {
            usize::MAX
        } else {
            0usize
        };
        let s = ComponentStore {
            zero_sized,
            cap,
            data: Vec::new(),
            entities_bitset: [0u8; ENTITY_BITSET_BYTES],
            dirty_bitset: [0u8; ENTITY_BITSET_BYTES],
        };
        proof {
            assert forall|i: int| 0 <= i < MAX_ENTITY_COUNT implies !#[trigger] bit_of(s.entities_bitset@, i) by {
                lemma_zero_byte_bits(s.entities_bitset@, i);
            }
            assert forall|i: int| 0 <= i < MAX_ENTITY_COUNT implies !#[trigger] bit_of(s.dirty_bitset@, i) by {
                lemma_zero_byte_bits(s.dirty_bitset@, i);
            }
            assert(s.components() =~= Map::<usize, C>::empty());
            assert(s.dirty_set() =~= Set::<usize>::empty());
        }
        s
    }

    /// The number of entity slots allocated so far.
    pub fn capacity(&self) -> (c: usize)
        ensures
            c == self.spec_capacity(),
    {
        self.cap
    }

    /// Marks the component of `entity_id` as modified.
    pub fn set_dirty(&mut self, entity_id: usize)
        requires
            old(self).wf(),
            entity_id < MAX_ENTITY_COUNT,
        ensures
            final(self).wf(),
            final(self).dirty_set() == old(self).dirty_set().insert(entity_id),
            final(self).components() == old(self).components(),
            final(self).spec_capacity() == old(self).spec_capacity(),
    {
        self.dirty_bitset.set_bit(entity_id);
        proof {
            assert(self.dirty_set() =~= old(self).dirty_set().insert(entity_id));
            assert(self.components() =~= old(self).components());
        }
    }

    /// Whether the component of `entity_id` is marked as modified.
    pub fn dirty(&self, entity_id: usize) -> (r: bool)
        requires
            entity_id < MAX_ENTITY_COUNT,
        ensures
            r == self.dirty_set().contains(entity_id),
    {
        self.dirty_bitset.bit(entity_id)
    }

    /// Clears every dirty mark.
    pub fn clear_dirty_bitset(&mut self)
        requires
            old(self).wf(),
        ensures
            final(self).wf(),
            final(self).dirty_set() == Set::<usize>::empty(),
            final(self).components() == old(self).components(),
            final(self).spec_capacity() == old(self).spec_capacity(),
    {
        self.dirty_bitset.clear_bits();
        proof {
            assert(self.dirty_set() =~= Set::<usize>::empty());
            assert(self.components() =~= old(self).components());
        }
    }

    /// Grows the slots so that `capacity_to_ensure` entities fit.
    fn ensure_capacity(&mut self, capacity_to_ensure: usize)
        requires
            old(self).wf(),
            capacity_to_ensure <= MAX_ENTITY_COUNT,
        ensures
            final(self).wf(),
            final(self).components() == old(self).components(),
            final(self).dirty_set() == old(self).dirty_set(),
            final(self).spec_capacity() == (if old(self).spec_capacity() >= capacity_to_ensure {
                old(self).spec_capacity()
            } else {
                capacity_to_ensure
            }),
            final(self).spec_capacity() >= capacity_to_ensure,
            final(self).data@.len() >= capacity_to_ensure,
    {
        if self.data.len() < capacity_to_ensure {
            let ghost before = self.data@;
            while self.data.len() < capacity_to_ensure
                invariant
                    self.cap == old(self).cap,
                    self.zero_sized == old(self).zero_sized,
                    self.entities_bitset == old(self).entities_bitset,
                    self.dirty_bitset == old(self).dirty_bitset,
                    old(self).wf(),
                    capacity_to_ensure <= MAX_ENTITY_COUNT,
                    self.data@.len() <= capacity_to_ensure,
                    self.data@.len() >= before.len(),
                    forall|i: int| 0 <= i < before.len() ==> self.data@[i] == before[i],
                decreases capacity_to_ensure - self.data@.len(),
            {
                self.data.push(None);
            }
        }
        if self.cap >= capacity_to_ensure {
            proof {
                assert(self.components() =~= old(self).components());
            }
            return;
        }
        self.cap = capacity_to_ensure;
        proof {
            assert(self.components() =~= old(self).components());
        }
    }

    /// Stores `component` as the component of `entity_id`, replacing any previous one.
    pub fn store(&mut self, entity_id: usize, component: C)
        requires
            old(self).wf(),
            entity_id < MAX_ENTITY_COUNT,
        ensures
            final(self).wf(),
            final(self).components() == old(self).components().insert(entity_id, component),
            final(self).dirty_set() == old(self).dirty_set(),
            final(self).spec_capacity() == (if old(self).spec_capacity() > entity_id {
                old(self).spec_capacity()
            } else {
                (entity_id + 1) as usize
            }),
    {
        self.ensure_capacity(entity_id + 1);
        self.data.set(entity_id, Some(component));
        self.entities_bitset.set_bit(entity_id);
        proof {
            assert(self.components() =~= old(self).components().insert(entity_id, component));
        }
    }

    /// Removes the component of `entity_id`, if there is one.
    pub fn delete(&mut self, entity_id: usize)
        requires
            old(self).wf(),
            entity_id < MAX_ENTITY_COUNT || entity_id >= old(self).spec_capacity(),
        ensures
            final(self).wf(),
            final(self).components() == old(self).components().remove(entity_id),
            final(self).dirty_set() == old(self).dirty_set(),
            final(self).spec_capacity() == old(self).spec_capacity(),
    {
        if entity_id >= self.cap || !self.entities_bitset.bit(entity_id) {
            proof {
                assert(self.components() =~= old(self).components().remove(entity_id));
            }
            return;
        }
        self.entities_bitset.unset_bit(entity_id);
        self.data.set(entity_id, None);
        proof {
            assert(self.components() =~= old(self).components().remove(entity_id));
        }
    }

    /// The component of `entity_id`, if there is one.
    pub fn get(&self, entity_id: usize) -> (r: Option<&C>)
        requires
            self.wf(),
        ensures
            match r {
                Some(c) => self.components().contains_key(entity_id) && *c == self.components()[entity_id],
                None => !self.components().contains_key(entity_id),
            },
    {
        if entity_id >= MAX_ENTITY_COUNT {
            return None;
        }
        if entity_id >= self.cap {
            return None;
        }
        if !self.entities_bitset.bit(entity_id) {
            return None;
        }
        self.data[entity_id].as_ref()
    }

    /// Mutable access to the component of `entity_id`, if there is one.
    pub fn get_mut(&mut self, entity_id: usize) -> (r: Option<&mut C>)
        requires
            old(self).wf(),
        ensures
            final(self).wf(),
            final(self).dirty_set() == old(self).dirty_set(),
            final(self).spec_capacity() == old(self).spec_capacity(),
            match r {
                Some(c) => old(self).components().contains_key(entity_id) && *c == old(self).components()[entity_id]
                    && final(self).components() == old(self).components().insert(entity_id, *final(c)),
                None => !old(self).components().contains_key(entity_id) && final(self).components() == old(self).components(),
            },
    {
        if entity_id >= MAX_ENTITY_COUNT {
            return None;
        }
        if entity_id >= self.cap {
            return None;
        }
        if !self.entities_bitset.bit(entity_id) {
            return None;
        }
        self.data[entity_id].as_mut()
    }

    /// Removes every component.
    pub fn clear(&mut self)
        requires
            old(self).wf(),
            old(self).spec_capacity() <= MAX_ENTITY_COUNT,
        ensures
            final(self).wf(),
            final(self).components() == Map::<usize, C>::empty(),
            final(self).dirty_set() == old(self).dirty_set(),
            final(self).spec_capacity() == old(self).spec_capacity(),
    {
        let cap = self.cap;
        for i in 0..cap
            invariant
                self.wf(),
                self.cap == cap,
                cap <= MAX_ENTITY_COUNT,
                self.dirty_set() == old(self).dirty_set(),
                forall|k: usize| #[trigger] self.components().contains_key(k) ==> i <= k && old(self).components().contains_key(k),
        {
            if self.entities_bitset.bit(i) {
                self.delete(i);
            }
        }
        proof {
            assert forall|k: usize| !#[trigger] self.components().contains_key(k) by {
                if self.components().contains_key(k) {
                    assert(bit_of(self.entities_bitset@, k as int));
                }
            }
            assert(self.components() =~= Map::<usize, C>::empty());
        }
    }
}

proof fn lemma_zero_byte_bits(bytes: Seq<u8>, i: int)
    requires
        0 <= i < 8 * bytes.len(),
        forall|k: int| 0 <= k < bytes.len() ==> bytes[k] == 0u8,
    ensures
        !bit_of(bytes, i),
{
    let j = (i % 8) as u8;
    assert((0u8 >> j) & 1u8 == 0u8) by (bit_vector)
        requires
            j < 8,
    ;
    assert(bytes[i / 8] == 0u8);
}

/// Law: once a component is stored for an entity, reading that entity gives the component and
/// every other entity keeps what it had; once it is deleted, reading it gives nothing.
pub proof fn lemma_store_then_get<C>(store: ComponentStore<C>, entity_id: usize, component: C, other: usize)
    requires
        other != entity_id,
    ensures
        store.components().insert(entity_id, component).contains_key(entity_id),
        store.components().insert(entity_id, component)[entity_id] == component,
        store.components().insert(entity_id, component).contains_key(other) == store.components().contains_key(other),
        store.components().contains_key(other) ==> store.components().insert(entity_id, component)[other]
            == store.components()[other],
        !store.components().remove(entity_id).contains_key(entity_id),
        store.components().remove(entity_id).contains_key(other) == store.components().contains_key(other),
{
}

} // verus!
