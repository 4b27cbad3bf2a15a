//! Data units for the redact system, and the storage layer that serves them.
//!
//! A [`Data`] is a value (or several) located at a dotted [`DataPath`], together
//! with the names of the keys that encrypted it.
//!
//! - `data`: paths, values and units, and how they are written out as text
//! - `text`: decimal notation, which `data` and the adapters write and read
//! - `cache`: what a cache has to offer; its errors; the setup of a cache in Redis
//! - `storage`: what a store has to offer; its errors; the store that keeps a
//!   cache warm, with its protocol; what the adapters for MongoDB and for a
//!   redact-store server decide

pub mod data;
pub mod text;
pub mod cache;
pub mod storage;

pub use cache::error::CacheError;
pub use cache::redis::{RedisCacheConfig, RedisDataCacher};
pub use cache::DataCacher;
pub use data::{
    Data, DataCollection, DataPath, DataType, DataValue, DataValueCollection, EncryptedDataValue,
    Float64, UnencryptedDataValue,
};
pub use storage::error::{DataStorerError, StorageError};
pub use storage::mongodb::MongoDataStorer;
pub use storage::redact::RedactDataStorer;
pub use storage::{CachedDataStorer, DataStorer};
