//! Errors reported by the persistence and scanning layers.
use vstd::prelude::*;

verus! {

/// An error of the layers around the library, with its message.
#[derive(Debug)]
pub enum Error {
    RepositoryError(String),
    FileSystemError(String),
    MetadataError(String),
    ScannerError(String),
}

} // verus!
