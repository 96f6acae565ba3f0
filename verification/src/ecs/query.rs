use crate::ecs::storage::EntityId;
use vstd::prelude::*;

verus! {

/// Whether `x` occurs in `s`.
pub fn slice_contains(s: &[EntityId], x: EntityId) -> (r: bool)
    ensures
        r == s@.contains(x),
{
    let mut i: usize = 0;
    while i < s.len()
        invariant
            i <= s@.len(),
            forall|k: int| 0 <= k < i ==> s@[k] != x,
        decreases s@.len() - i,
    {
        if s[i] == x {
            return true;
        }
        i = i + 1;
    }
    false
}

/// The position of a query over the entity ids `0..=max_entity_index`.
pub struct QueryCursor {
    current_entity_index: usize,
    max_entity_index: usize,
}

impl QueryCursor {
    pub closed spec fn spec_current(&self) -> nat {
        self.current_entity_index as nat
    }

    pub closed spec fn spec_max(&self) -> nat {
        self.max_entity_index as nat
    }

    pub fn new(max_entity_index: usize) -> (c: Self)
        ensures
            c.spec_current() == 0,
            c.spec_max() == max_entity_index,
    {
        QueryCursor { current_entity_index: 0, max_entity_index }
    }

    /// Moves to the next entity that is not deleted and for which `fetch` yields an item,
    /// and returns its id with the item; `None` once every id up to the maximum has been
    /// visited.
    pub fn next_with_id<T, F: Fn(EntityId) -> Option<T>>(
        &mut self,
        deleted_entities: &[EntityId],
        fetch: &F,
    ) -> (r: Option<(EntityId, T)>)
        requires
            old(self).spec_max() < usize::MAX,
            forall|i: EntityId| #[trigger] fetch.requires((i,)),
        ensures
            final(self).spec_max() == old(self).spec_max(),
            match r {
                Some((id, item)) => {
                    &&& old(self).spec_current() <= id <= old(self).spec_max()
                    &&& !deleted_entities@.contains(id)
                    &&& fetch.ensures((id,), Some(item))
                    &&& final(self).spec_current() == id + 1
                    &&& forall|j: EntityId| old(self).spec_current() <= j < id ==> deleted_entities@.contains(j)
                        || #[trigger] fetch.ensures((j,), None)
                },
                None => {
                    &&& final(self).spec_current() == (if old(self).spec_current() > old(self).spec_max() {
                        old(self).spec_current()
                    } else {
                        old(self).spec_max() + 1
                    })
                    &&& forall|j: EntityId| old(self).spec_current() <= j <= old(self).spec_max() ==> deleted_entities@.contains(j)
                        || #[trigger] fetch.ensures((j,), None)
                },
            },
    {
        if self.current_entity_index > self.max_entity_index {
            return None;
        }
        let mut fetched: Option<T> = None;
        if !slice_contains(deleted_entities, self.current_entity_index) {
            fetched = fetch(self.current_entity_index);
        }
        while fetched.is_none()
            invariant
                self.max_entity_index == old(self).max_entity_index,
                self.max_entity_index < usize::MAX,
                old(self).current_entity_index <= self.current_entity_index <= self.max_entity_index,
                forall|i: EntityId| #[trigger] fetch.requires((i,)),
                fetched is None ==> (deleted_entities@.contains(self.current_entity_index) || fetch.ensures((self.current_entity_index,), None::<T>)),
                fetched is Some ==> !deleted_entities@.contains(self.current_entity_index) && fetch.ensures((self.current_entity_index,), fetched),
                forall|j: EntityId| old(self).current_entity_index <= j < self.current_entity_index ==> deleted_entities@.contains(j)
                    || #[trigger] fetch.ensures((j,), None),
            decreases self.max_entity_index - self.current_entity_index,
        {
            self.current_entity_index += 1;
            if self.current_entity_index > self.max_entity_index {
                return None;
            }
            if slice_contains(deleted_entities, self.current_entity_index) {
                continue;
            }
            fetched = fetch(self.current_entity_index);
        }
        let entity_id = self.current_entity_index;
        self.current_entity_index += 1;
        match fetched {
            Some(item) => Some((entity_id, item)),
            None => None,
        }
    }
}

} // verus!
