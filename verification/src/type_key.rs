use core::any::TypeId;
use core::hash::{Hash, Hasher};
use std::collections::hash_map::DefaultHasher;
use vstd::prelude::*;

verus! {

#[verifier::external_type_specification]
#[verifier::external_body]
pub struct ExTypeId(TypeId);

/// `core::any::TypeId::of`: the identifier of the type `T`; nothing is stated of the value.
pub assume_specification<T: ?Sized + 'static>[ TypeId::of::<T> ]() -> TypeId;

/// `<TypeId as Hash>::hash`: feeds the identifier to the hasher; nothing is stated of the state.
pub assume_specification<H: Hasher>[ <TypeId as Hash>::hash::<H> ](value: &TypeId, state: &mut H);

/// The key under which the library files things of the type `T` (relationship kinds, schedule
/// stages): the hash of `T`'s `TypeId` by a `DefaultHasher` made with `new`, whose keys are
/// fixed. One type gets one key; two types share one only where these hashes collide. What
/// the key is depends on the build, so nothing is stated of it: what the library does with a
/// key is stated in the functions that take it.
pub fn type_key<T: ?Sized + 'static>() -> u64 {
    let id = TypeId::of::<T>();
    let mut hasher = DefaultHasher::new();
    id.hash(&mut hasher);
    hasher.finish()
}

} // verus!
