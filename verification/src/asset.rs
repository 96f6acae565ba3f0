pub mod vfs;

use core::marker::PhantomData;
use vstd::prelude::*;

verus! {

#[verifier::external_type_specification]
#[verifier::external_body]
pub struct ExIoError(std::io::Error);

/// Why an asset could not be had.
#[derive(Debug)]
pub enum AssetError {
    PathCanonicalizationFailed,
    ImageDecodingFailed,
    ReadFailed,
    AssetPathIsInvalidUTF8,
    ExecutablePathAcquisitionFailed(std::io::Error),
}

/// The identifier of a stored asset of type `T`.
#[derive(Debug)]
pub struct AssetHandle<T> {
    id: usize,
    _marker: PhantomData<T>,
}

impl<T> AssetHandle<T> {
    pub closed spec fn spec_id(&self) -> usize {
        self.id
    }

    /// The handle of the asset stored under `id`.
    pub fn new(id: usize) -> (h: Self)
        ensures
            h.spec_id() == id,
    {
        Self { id, _marker: PhantomData }
    }

    pub fn id(&self) -> (id: usize)
        ensures
            id == self.spec_id(),
    {
        self.id
    }
}

impl<T> Clone for AssetHandle<T> {
    fn clone(&self) -> (h: Self)
        ensures
            h.spec_id() == self.spec_id(),
    {
        Self { id: self.id, _marker: PhantomData }
    }
}

impl<T> Copy for AssetHandle<T> {

}

impl<T> PartialEq for AssetHandle<T> {
    fn eq(&self, other: &Self) -> (r: bool) {
        self.id == other.id
    }
}

impl<T> vstd::std_specs::cmp::PartialEqSpecImpl for AssetHandle<T> {
    open spec fn obeys_eq_spec() -> bool {
        true
    }

    open spec fn eq_spec(&self, other: &Self) -> bool {
        self.spec_id() == other.spec_id()
    }
}

impl<T> Eq for AssetHandle<T> {

}

/// `<usize as Hash>::hash`: feeds the integer to the hasher; nothing is stated of the state.
pub assume_specification<H: core::hash::Hasher>[ <usize as core::hash::Hash>::hash::<H> ](value: &usize, state: &mut H);

impl<T> core::hash::Hash for AssetHandle<T> {
    fn hash<H: core::hash::Hasher>(&self, state: &mut H) {
        self.id.hash(state);
    }
}

/// An asset type, with the loader that makes it from a file's bytes.
pub trait Asset: Sized {
    type Loader: AssetLoader<Self>;
}

/// Makes assets of type `T` from a file's bytes.
pub trait AssetLoader<T> {
    /// Loads an asset; fails if the bytes do not make one.
    fn load(file_content: &[u8]) -> Result<T, AssetError>;
}

} // verus!
