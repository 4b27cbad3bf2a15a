//! What can go wrong at the cache.

use vstd::prelude::*;
use vstd::string::*;

verus! {

/// A failure of a cache operation.
#[derive(Debug, PartialEq, Eq)]
pub enum CacheError {
    /// The cache or the way to it failed; `source` describes the lower-level
    /// failure, of which this library reads nothing.
    InternalError { source: String },
    /// No entry is cached under the key, or it has expired.
    NotFound,
}

impl CacheError {
    /// The message of the error, which leaves the cause out.
    pub open spec fn text(&self) -> Seq<char> {
        match self {
            CacheError::InternalError { .. } => "Internal error occurred"@,
            CacheError::NotFound => "Cache entry not found"@,
        }
    }

    /// The message of the error.
    pub fn to_string(&self) -> (s: String)
        ensures
            s@ == self.text(),
    {
        match self {
            CacheError::InternalError { .. } => String::from_str("Internal error occurred"),
            CacheError::NotFound => String::from_str("Cache entry not found"),
        }
    }

    /// The description of the lower-level failure, where there was one.
    pub fn source(&self) -> (r: Option<&String>)
        ensures
            match self {
                CacheError::InternalError { source } => r == Some(source),
                CacheError::NotFound => r is None,
            },
    {
        match self {
            CacheError::InternalError { source } => Some(source),
            CacheError::NotFound => None,
        }
    }
}

} // verus!
