use crate::asset::ExIoError;
use core::marker::PhantomData;
use std::rc::Rc;
use vstd::prelude::*;

verus! {

#[verifier::external_type_specification]
#[verifier::external_body]
pub struct ExSpannedError(ron::error::SpannedError);

/// Why an asset could not be had.
#[derive(Debug)]
pub enum AssetError {
    PathCanonicalizationFailed,
    ImageDecodingFailed,
    ReadFailed,
    AssetPathIsInvalidUTF8,
    ExecutablePathAcquisitionFailed(std::io::Error),
    RonAssetParsingFailed(ron::error::SpannedError),
}

/// The identifier of a stored asset of type `T`.
#[derive(Debug)]
pub struct AssetHandle<T> {
    id: usize,
    _marker: PhantomData<T>,
}

impl<T> AssetHandle<T> {
    pub closed spec fn spec_id(&self) -> usize {
        self.id
    }

    /// The handle of the asset stored under `id`.
    pub fn new(id: usize) -> (h: Self)
        ensures
            h.spec_id() == id,
    {
        Self { id, _marker: PhantomData }
    }

    pub fn id(&self) -> (id: usize)
        ensures
            id == self.spec_id(),
    {
        self.id
    }
}

impl<T> Clone for AssetHandle<T> {
    fn clone(&self) -> (h: Self)
        ensures
            h.spec_id() == self.spec_id(),
    {
        Self { id: self.id, _marker: PhantomData }
    }
}

impl<T> Copy for AssetHandle<T> {

}

impl<T> PartialEq for AssetHandle<T> {
    fn eq(&self, other: &Self) -> (r: bool) {
        self.id == other.id
    }
}

impl<T> vstd::std_specs::cmp::PartialEqSpecImpl for AssetHandle<T> {
    open spec fn obeys_eq_spec() -> bool {
        true
    }

    open spec fn eq_spec(&self, other: &Self) -> bool {
        self.spec_id() == other.spec_id()
    }
}

impl<T> Eq for AssetHandle<T> {

}

impl<T> core::hash::Hash for AssetHandle<T> {
    fn hash<H: core::hash::Hasher>(&self, state: &mut H) {
        self.id.hash(state);
    }
}

/// The assets of one type, each under the index at which it was stored.
pub struct Assets<T> {
    assets: Vec<Rc<T>>,
}

impl<T> View for Assets<T> {
    type V = Seq<T>;

    closed spec fn view(&self) -> Seq<T> {
        self.assets@.map_values(|a: Rc<T>| *a)
    }
}

impl<T> Assets<T> {
    pub fn new() -> (a: Self)
        ensures
            a@ == Seq::<T>::empty(),
    {
        let a = Self { assets: Vec::new() };
        assert(a@ =~= Seq::<T>::empty());
        a
    }

    /// How many assets are stored.
    pub fn len(&self) -> (n: usize)
        ensures
            n == self@.len(),
    {
        self.assets.len()
    }

    /// The asset stored under `index`.
    pub fn get(&self, index: usize) -> (a: Rc<T>)
        requires
            index < self@.len(),
        ensures
            *a == self@[index as int],
    {
        Rc::clone(&self.assets[index])
    }

    /// Stores `asset` after the others and gives its index.
    pub fn store(&mut self, asset: T) -> (index: usize)
        requires
            old(self)@.len() < usize::MAX,
        ensures
            final(self)@ == old(self)@.push(asset),
            index == old(self)@.len(),
    {
        let ghost before = self.assets@;
        self.assets.push(Rc::new(asset));
        assert(self@ =~= before.map_values(|a: Rc<T>| *a).push(asset));
        self.assets.len() - 1
    }
}

impl<T> Default for Assets<T> {
    fn default() -> (a: Self)
        ensures
            a@ == Seq::<T>::empty(),
    {
        Self::new()
    }
}

/// Reading a stored asset gives back what was stored, and storing leaves the other assets as
/// they were.
pub proof fn lemma_get_after_store<T>(before: Seq<T>, asset: T, after: Seq<T>, index: int)
    requires
        after == before.push(asset),
        0 <= index < after.len(),
    ensures
        index == before.len() ==> after[index] == asset,
        index < before.len() ==> after[index] == before[index],
{
}

/// A place that files can be read from.
pub trait FileSystem {
    /// Reads the content of the file at the given path; fails if it cannot be read.
    fn read_bytes(path: &str) -> Result<Vec<u8>, AssetError>;
}

/// An asset type, with the loader that makes it from a file's bytes.
pub trait Asset: Sized {
    type Loader: AssetLoader<Self>;
}

/// Makes assets of type `T` from a file's bytes.
pub trait AssetLoader<T> {
    /// Loads an asset; fails if the bytes do not make one.
    fn load(file_content: &[u8]) -> Result<T, AssetError>;
}

} // verus!
