//! The store in a MongoDB database, without the driver.
//!
//! What is here names the place where the units are kept and decides what an
//! answer of the database means. Talking to the database is left to the
//! caller.

use crate::data::Data;
use crate::storage::error::{DataStorerError, StorageError};
use vstd::prelude::*;
use vstd::string::*;

verus! {

/// A store of data units in a MongoDB database, known by the address of the
/// cluster and the name of the database.
#[derive(Debug, PartialEq, Eq)]
pub struct MongoDataStorer {
    url: String,
    db_name: String,
}

/// What a `MongoDataStorer` is, as a mathematical value.
pub struct MongoDataStorerView {
    pub url: Seq<char>,
    pub db_name: Seq<char>,
}

impl View for MongoDataStorer {
    type V = MongoDataStorerView;

    closed spec fn view(&self) -> MongoDataStorerView {
        MongoDataStorerView { url: self.url@, db_name: self.db_name@ }
    }
}

impl Clone for MongoDataStorer {
    fn clone(&self) -> (r: Self)
        ensures
            r@ == self@,
    {
        MongoDataStorer { url: self.url.clone(), db_name: self.db_name.clone() }
    }
}

/// What the answer of the database to a search for one unit means: the unit
/// that was found; `NotFound` where the search went through and found none;
/// an internal error with the description of what failed otherwise.
pub open spec fn found_outcome(outcome: Result<Option<Data>, String>) -> Result<
    Data,
    DataStorerError,
> {
    match outcome {
        Ok(Some(data)) => Ok(data),
        Ok(None) => Err(DataStorerError::StorageError { source: StorageError::NotFound }),
        Err(cause) => Err(
            DataStorerError::StorageError { source: StorageError::InternalError { source: cause } },
        ),
    }
}

/// What the answer of the database to a replacement means: `true` where it
/// went through, an internal error with the description of what failed
/// otherwise.
pub open spec fn replaced_outcome(outcome: Result<(), String>) -> Result<bool, DataStorerError> {
    match outcome {
        Ok(_) => Ok(true),
        Err(cause) => Err(
            DataStorerError::StorageError { source: StorageError::InternalError { source: cause } },
        ),
    }
}

impl MongoDataStorer {
    /// The store in the database `db_name` of the cluster at `url`.
    pub fn new(url: &str, db_name: &str) -> (r: MongoDataStorer)
        ensures
            r@ == (MongoDataStorerView { url: url@, db_name: db_name@ }),
    {
        MongoDataStorer { url: String::from_str(url), db_name: String::from_str(db_name) }
    }

    /// The address of the cluster.
    pub fn url(&self) -> (s: &str)
        ensures
            s@ == self@.url,
    {
        self.url.as_str()
    }

    /// The name of the database.
    pub fn db_name(&self) -> (s: &str)
        ensures
            s@ == self@.db_name,
    {
        self.db_name.as_str()
    }

    /// The name of the collection that holds the units.
    pub fn collection_name() -> (s: &'static str)
        ensures
            s@ == "data"@,
    {
        "data"
    }

    /// The name of the field by which a unit is found: its path.
    pub fn key_field() -> (s: &'static str)
        ensures
            s@ == "path"@,
    {
        "path"
    }

    /// Turns the answer of the database to a search for one unit into the
    /// store's answer.
    pub fn found(outcome: Result<Option<Data>, String>) -> (r: Result<Data, DataStorerError>)
        ensures
            r == found_outcome(outcome),
    {
        match outcome {
            Ok(Some(data)) => Ok(data),
            Ok(None) => Err(DataStorerError::StorageError { source: StorageError::NotFound }),
            Err(cause) => Err(
                DataStorerError::StorageError {
                    source: StorageError::InternalError { source: cause },
                },
            ),
        }
    }

    /// Turns the answer of the database to a replacement into the store's
    /// answer.
    pub fn replaced(outcome: Result<(), String>) -> (r: Result<bool, DataStorerError>)
        ensures
            r == replaced_outcome(outcome),
    {
        match outcome {
            Ok(_) => Ok(true),
            Err(cause) => Err(
                DataStorerError::StorageError {
                    source: StorageError::InternalError { source: cause },
                },
            ),
        }
    }
}

} // verus!
