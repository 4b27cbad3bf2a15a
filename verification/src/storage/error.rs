//! What can go wrong at the backing store, and at the store with its cache.

use crate::cache::error::CacheError;
use vstd::prelude::*;
use vstd::string::*;

verus! {

/// A failure of an operation on the backing store.
#[derive(Debug, PartialEq, Eq)]
pub enum StorageError {
    /// The store or the way to it failed; `source` describes the lower-level
    /// failure, of which this library reads nothing.
    InternalError { source: String },
    /// No data is stored at the path.
    NotFound,
}

impl StorageError {
    /// The message of the error, which leaves the cause out.
    pub open spec fn text(&self) -> Seq<char> {
        match self {
            StorageError::InternalError { .. } => "Internal error occurred"@,
            StorageError::NotFound => "Data not found"@,
        }
    }

    /// The message of the error.
    pub fn to_string(&self) -> (s: String)
        ensures
            s@ == self.text(),
    {
        match self {
            StorageError::InternalError { .. } => String::from_str("Internal error occurred"),
            StorageError::NotFound => String::from_str("Data not found"),
        }
    }

    /// The description of the lower-level failure, where there was one.
    pub fn source(&self) -> (r: Option<&String>)
        ensures
            match self {
                StorageError::InternalError { source } => r == Some(source),
                StorageError::NotFound => r is None,
            },
    {
        match self {
            StorageError::InternalError { source } => Some(source),
            StorageError::NotFound => None,
        }
    }
}

/// A failure of a store that works with a cache, tagged with the side on
/// which it arose.
#[derive(Debug, PartialEq, Eq)]
#[allow(inconsistent_fields)]
pub enum DataStorerError {
    /// The cache failed.
    CacheError { source: CacheError },
    /// The backing store failed.
    StorageError { source: StorageError },
}

/// The error beneath a `DataStorerError`.
#[derive(Debug, PartialEq, Eq)]
pub enum ErrorSource<'a> {
    Cache(&'a CacheError),
    Storage(&'a StorageError),
}

impl DataStorerError {
    /// The message of the error, which names the side and no more.
    pub open spec fn text(&self) -> Seq<char> {
        match self {
            DataStorerError::CacheError { .. } => "Cache error"@,
            DataStorerError::StorageError { .. } => "Storage error"@,
        }
    }

    /// The message of the error.
    pub fn to_string(&self) -> (s: String)
        ensures
            s@ == self.text(),
    {
        match self {
            DataStorerError::CacheError { .. } => String::from_str("Cache error"),
            DataStorerError::StorageError { .. } => String::from_str("Storage error"),
        }
    }

    /// The error of the cache or of the store that lies beneath this one.
    pub fn source(&self) -> (r: Option<ErrorSource<'_>>)
        ensures
            match self {
                DataStorerError::CacheError { source } => r == Some(ErrorSource::Cache(source)),
                DataStorerError::StorageError { source } => r == Some(ErrorSource::Storage(source)),
            },
    {
        match self {
            DataStorerError::CacheError { source } => Some(ErrorSource::Cache(source)),
            DataStorerError::StorageError { source } => Some(ErrorSource::Storage(source)),
        }
    }
}

impl From<CacheError> for DataStorerError {
    fn from(e: CacheError) -> (r: DataStorerError)
        ensures
            r == (DataStorerError::CacheError { source: e }),
    {
        DataStorerError::CacheError { source: e }
    }
}

impl vstd::std_specs::convert::FromSpecImpl<CacheError> for DataStorerError {
    open spec fn obeys_from_spec() -> bool {
        true
    }

    open spec fn from_spec(e: CacheError) -> Self {
        DataStorerError::CacheError { source: e }
    }
}

} // verus!
