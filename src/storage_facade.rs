//! Identity and metadata of a data store, and the errors every facade reports.
use vstd::prelude::*;

verus! {

/// Identifies a data store by backend kind and a backend-specific location.
///
/// `S3` holds the bucket's ARN; `Local` holds the root directory of a store on
/// the local file system, written as a path string.
#[derive(Debug)]
pub enum DataStoreId {
    S3(String),
    Local(String),
}

/// Metadata common to every storage backend: who the store is, what it is
/// called, and why it exists.
#[derive(Debug)]
pub struct StoreMetadata {
    pub id: DataStoreId,
    pub name: String,
    pub description: String,
}

impl StoreMetadata {
    /// A store is named, and says why it exists.
    pub open spec fn wf(&self) -> bool {
        self.name@.len() > 0 && self.description@.len() > 0
    }
}

/// The kinds of failure that a facade operation reports.
#[derive(Debug)]
pub enum FacadeError {
    /// The store could not be reached, found or accessed when the facade was built.
    Construction(String),
    /// A caller-supplied encrypt or decrypt function failed.
    Transform(String),
    /// The requested object does not exist.
    NotFound(String),
    /// Any other transport, authorisation or service failure.
    Backend(String),
}

} // verus!
