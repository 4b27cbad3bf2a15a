//! The store behind a redact-store server, without the wire.
//!
//! What is here decides which address a request goes to and what an answer
//! means. Sending the request is left to the caller.

use crate::data::{is_normalized, Data, DataCollection};
use crate::storage::error::{DataStorerError, StorageError};
use crate::text::{push_signed_decimal, signed_decimal};
use vstd::prelude::*;
use vstd::string::*;

verus! {

/// A store of data units behind a redact-store server, known by the server's
/// address.
#[derive(Debug, PartialEq, Eq)]
pub struct RedactDataStorer {
    url: String,
}

impl View for RedactDataStorer {
    type V = Seq<char>;

    closed spec fn view(&self) -> Seq<char> {
        self.url@
    }
}

impl Clone for RedactDataStorer {
    fn clone(&self) -> (r: Self)
        ensures
            r@ == self@,
    {
        RedactDataStorer { url: self.url.clone() }
    }
}

/// The address at which the server at `url` serves the data at `path`.
pub open spec fn data_address(url: Seq<char>, path: Seq<char>) -> Seq<char> {
    url + "/data/"@ + path
}

/// The address at which the server at `url` serves a page of the data at or
/// under `path`: up to `page_size` units after the first `skip`.
pub open spec fn page_address(url: Seq<char>, path: Seq<char>, skip: i64, page_size: i64) -> Seq<
    char,
> {
    url + "/data/"@ + path + "?skip="@ + signed_decimal(skip as int) + "&page_size="@
        + signed_decimal(page_size as int)
}

/// The address at which the server at `url` takes data for `path`.
pub open spec fn create_address(url: Seq<char>, path: Seq<char>) -> Seq<char> {
    url + "/data?path="@ + path
}

/// What a request that was to bring back a value means for the caller: the
/// value, or an internal error with the description of what failed on the way
/// or in reading the answer.
pub open spec fn received_outcome<T>(outcome: Result<T, String>) -> Result<T, DataStorerError> {
    match outcome {
        Ok(value) => Ok(value),
        Err(cause) => Err(
            DataStorerError::StorageError { source: StorageError::InternalError { source: cause } },
        ),
    }
}

/// What a request that was to write means for the caller: `true` once it was
/// sent and answered, or an internal error with the description of what
/// failed on the way.
pub open spec fn sent_outcome(outcome: Result<(), String>) -> Result<bool, DataStorerError> {
    match outcome {
        Ok(_) => Ok(true),
        Err(cause) => Err(
            DataStorerError::StorageError { source: StorageError::InternalError { source: cause } },
        ),
    }
}

impl RedactDataStorer {
    /// The store behind the server at `url`.
    pub fn new(url: &str) -> (r: RedactDataStorer)
        ensures
            r@ == url@,
    {
        RedactDataStorer { url: String::from_str(url) }
    }

    /// The address of the server.
    pub fn url(&self) -> (s: &str)
        ensures
            s@ == self@,
    {
        self.url.as_str()
    }

    /// The address to read the data at `path` from.
    pub fn get_address(&self, path: &str) -> (s: String)
        ensures
            s@ == data_address(self@, path@),
    {
        let mut out = self.url.clone();
        out.append("/data/");
        out.append(path);
        out
    }

    /// The address to read a page of the data at or under `path` from.
    pub fn get_collection_address(&self, path: &str, skip: i64, page_size: i64) -> (s: String)
        ensures
            s@ == page_address(self@, path@, skip, page_size),
    {
        let mut out = self.url.clone();
        out.append("/data/");
        out.append(path);
        out.append("?skip=");
        push_signed_decimal(&mut out, skip);
        out.append("&page_size=");
        push_signed_decimal(&mut out, page_size);
        out
    }

    /// The address to send `data` to, which names the data's path.
    pub fn create_address(&self, data: &Data) -> (s: String)
        ensures
            s@ == create_address(self@, data@.path),
            is_normalized(data@.path),
    {
        let mut out = self.url.clone();
        out.append("/data?path=");
        out.append(data.path().as_str());
        out
    }

    /// Turns the outcome of a read of one unit into the store's answer.
    pub fn got(outcome: Result<Data, String>) -> (r: Result<Data, DataStorerError>)
        ensures
            r == received_outcome(outcome),
    {
        match outcome {
            Ok(value) => Ok(value),
            Err(cause) => Err(
                DataStorerError::StorageError {
                    source: StorageError::InternalError { source: cause },
                },
            ),
        }
    }

    /// Turns the outcome of a read of many units into the store's answer.
    pub fn got_collection(outcome: Result<DataCollection, String>) -> (r: Result<
        DataCollection,
        DataStorerError,
    >)
        ensures
            r == received_outcome(outcome),
    {
        match outcome {
            Ok(value) => Ok(value),
            Err(cause) => Err(
                DataStorerError::StorageError {
                    source: StorageError::InternalError { source: cause },
                },
            ),
        }
    }

    /// Turns the outcome of a write into the store's answer.
    pub fn created(outcome: Result<(), String>) -> (r: Result<bool, DataStorerError>)
        ensures
            r == sent_outcome(outcome),
    {
        match outcome {
            Ok(_) => Ok(true),
            Err(cause) => Err(
                DataStorerError::StorageError {
                    source: StorageError::InternalError { source: cause },
                },
            ),
        }
    }
}

} // verus!
