//! What a cache of data units has to offer.

pub mod error;
pub mod redis;

use crate::cache::error::CacheError;
use crate::data::Data;
use crate::storage::protocol::{read_view, RequestView, ResponseView};
use std::sync::Arc;
use vstd::prelude::*;

verus! {

/// The operations of a cache of data units. Entries are kept under string
/// keys and leave the cache when their time is up.
///
/// A cache is a remote service, and no operation promises what it answers.
/// What each operation states is only that its answer is one that this cache
/// `gives` to that call: a relation that the cache itself defines, and by
/// which a caller can say which answers its own result was made of.
pub trait DataCacher: Clone + Send + Sync {
    /// Whether `response` is an answer of this cache to the call `request`.
    /// A cache that says nothing of itself may answer anything.
    open spec fn gives(&self, request: RequestView, response: ResponseView) -> bool {
        true
    }

    /// Whether this cache reports `seconds` as the time for which it keeps an
    /// entry where nothing else is said. A cache that says nothing of itself
    /// may report any time.
    open spec fn defaults_to(&self, seconds: usize) -> bool {
        true
    }

    /// Stores `value` under `key` for `seconds`, in place of any entry that is
    /// there.
    fn set(&self, key: &str, value: Data, seconds: usize) -> (r: Result<(), CacheError>)
        ensures
            self.gives(
                RequestView::CacheSet { key: key@, value: value@, seconds },
                ResponseView::CacheSet(r),
            ),
    ;

    /// Reads the entry under `key`. An absent or expired entry is reported as
    /// `CacheError::NotFound`.
    fn get(&self, key: &str) -> (r: Result<Data, CacheError>)
        ensures
            self.gives(RequestView::CacheGet { key: key@ }, ResponseView::CacheGet(read_view(r))),
    ;

    /// Says whether there is an entry under `key`. Absence is an answer, not
    /// an error.
    fn key_exists(&self, key: &str) -> (r: Result<bool, CacheError>)
        ensures
            self.gives(RequestView::CacheExists { key: key@ }, ResponseView::CacheExists(r)),
    ;

    /// Has the entry under `key` kept for `seconds` from now on. The answer
    /// is `false` where there is no such entry.
    fn expire(&self, key: &str, seconds: usize) -> (r: Result<bool, CacheError>)
        ensures
            self.gives(
                RequestView::CacheExpire { key: key@, seconds },
                ResponseView::CacheExpire(r),
            ),
    ;

    /// The time in seconds for which an entry is kept where nothing else is
    /// said.
    fn get_default_key_expiration_seconds(&self) -> (seconds: usize)
        ensures
            self.defaults_to(seconds),
    ;
}

/// A shared cache is a cache: each call goes to the cache behind the pointer,
/// and the answer is that cache's.
impl<U: DataCacher> DataCacher for Arc<U> {
    open spec fn gives(&self, request: RequestView, response: ResponseView) -> bool {
        (**self).gives(request, response)
    }

    open spec fn defaults_to(&self, seconds: usize) -> bool {
        (**self).defaults_to(seconds)
    }

    fn set(&self, key: &str, value: Data, seconds: usize) -> Result<(), CacheError> {
        (**self).set(key, value, seconds)
    }

    fn get(&self, key: &str) -> Result<Data, CacheError> {
        (**self).get(key)
    }

    fn key_exists(&self, key: &str) -> Result<bool, CacheError> {
        (**self).key_exists(key)
    }

    fn expire(&self, key: &str, seconds: usize) -> Result<bool, CacheError> {
        (**self).expire(key, seconds)
    }

    fn get_default_key_expiration_seconds(&self) -> usize {
        (**self).get_default_key_expiration_seconds()
    }
}

} // verus!
