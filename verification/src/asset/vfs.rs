use crate::asset::AssetError;
use vstd::prelude::*;

verus! {

/// A place that files can be read from.
pub trait VirtualFileSystem {
    /// Reads the content of the file at the given path; fails if it cannot be read.
    fn read_bytes(&self, path: &str) -> Result<Vec<u8>, AssetError>;
}

} // verus!
