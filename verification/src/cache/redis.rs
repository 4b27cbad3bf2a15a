//! The cache in a Redis server, reached through a pool of connections.
//!
//! What is here sets the pool up. The commands that go over a connection are
//! left to the caller, who takes connections from `RedisDataCacher::pool`.

use crate::cache::error::CacheError;
use mobc_redis::mobc::Pool;
use mobc_redis::redis::{Client, RedisError};
use mobc_redis::RedisConnectionManager;
use std::time::Duration;
use vstd::prelude::*;

verus! {

/// The Redis client of the `redis` crate: an address that has been checked.
#[verifier::external_type_specification]
#[verifier::external_body]
pub struct ExClient(Client);

/// The error type of the `redis` crate.
#[verifier::external_type_specification]
#[verifier::external_body]
pub struct ExRedisError(RedisError);

/// A pool of connections to a Redis server, as the `mobc` crate keeps it.
/// Nothing is known of its inside here.
#[verifier::external_body]
pub struct RedisPool {
    pub inner: Pool<RedisConnectionManager>,
}

/// Whether `address` is one that the Redis client takes: whether
/// `redis::Client::open` returns a client for it.
pub uninterp spec fn redis_address_accepted(address: Seq<char>) -> bool;

/// Makes a client for the server at `address` with `redis::Client::open`,
/// which checks the address, connects to nothing, and fails where the address
/// does not pass.
#[verifier::external_body]
fn open_client(address: &str) -> (r: Result<Client, RedisError>)
    ensures
        r is Ok <==> redis_address_accepted(address@),
{
    Client::open(address)
}

/// Describes `error` as its `Display` does.
#[verifier::external_body]
fn describe(error: &RedisError) -> String {
    format!("{}", error)
}

/// Builds the pool of `mobc` around `client` with the builder of `mobc::Pool`.
/// The builder panics on a waiting time or a lifetime of zero, and the pool's
/// semaphore on more than an eighth of the largest `usize` in open
/// connections, so these are left out. Nothing is connected yet.
#[verifier::external_body]
fn build_pool(client: Client, timeout: u64, max_open: u64, max_idle: u64, lifetime: u64) -> RedisPool
    requires
        timeout != 0,
        lifetime != 0,
        max_open <= usize::MAX / 8,
{
    let inner = Pool::builder()
        .get_timeout(Some(Duration::from_secs(timeout)))
        .max_open(max_open)
        .max_idle(max_idle)
        .max_lifetime(Some(Duration::from_secs(lifetime)))
        .build(RedisConnectionManager::new(client));
    RedisPool { inner }
}

/// Another handle on the same pool, from `Clone` of `mobc::Pool`.
#[verifier::external_body]
fn share_pool(pool: &RedisPool) -> RedisPool {
    RedisPool { inner: pool.inner.clone() }
}

/// The settings of a cache in a Redis server.
#[derive(Debug, Clone, Copy, PartialEq, Eq)]
pub struct RedisCacheConfig<'a> {
    /// The address of the server.
    pub connection_string: &'a str,
    /// How long a caller waits for a connection, in seconds.
    pub cache_pool_timeout_seconds: u64,
    /// The largest number of open connections; 0 for no limit.
    pub cache_pool_max_open: u64,
    /// The largest number of idle connections; 0 for no limit.
    pub cache_pool_max_idle: u64,
    /// The lifetime of a connection, in seconds.
    pub cache_pool_expire_seconds: u64,
    /// How long an entry is kept where nothing else is said, in seconds.
    pub cache_default_key_expiration_seconds: u64,
}

impl<'a> RedisCacheConfig<'a> {
    /// Whether a pool can be built with these settings: the waiting time and
    /// the lifetime are not zero, and the number of open connections is within
    /// what the pool can count.
    pub open spec fn usable(&self) -> bool {
        &&& self.cache_pool_timeout_seconds != 0
        &&& self.cache_pool_expire_seconds != 0
        &&& self.cache_pool_max_open <= usize::MAX / 8
    }

    /// Whether a pool can be built with these settings.
    pub fn is_usable(&self) -> (b: bool)
        ensures
            b == self.usable(),
    {
        self.cache_pool_timeout_seconds != 0 && self.cache_pool_expire_seconds != 0
            && self.cache_pool_max_open <= (usize::MAX / 8) as u64
    }
}

/// A cache in a Redis server: the pool of connections to it, and the time
/// for which an entry is kept by default.
pub struct RedisDataCacher {
    pool: RedisPool,
    cache_default_key_expiration_seconds: u64,
}

impl RedisDataCacher {
    /// The pool from which the cache takes its connections.
    pub closed spec fn connections(&self) -> RedisPool {
        self.pool
    }

    /// The time for which an entry is kept by default, in seconds, as it was
    /// given.
    pub closed spec fn default_seconds(&self) -> u64 {
        self.cache_default_key_expiration_seconds
    }

    /// Sets up the cache that `config` describes, with the client `opened`
    /// where the address passed. A refused address gives an internal error.
    pub fn with_client(opened: Result<Client, RedisError>, config: RedisCacheConfig) -> (r: Result<
        RedisDataCacher,
        CacheError,
    >)
        requires
            config.usable(),
        ensures
            r is Ok <==> opened is Ok,
            r matches Ok(cacher) ==> cacher.default_seconds()
                == config.cache_default_key_expiration_seconds,
            r matches Err(e) ==> e is InternalError,
    {
        match opened {
            Err(e) => Err(CacheError::InternalError { source: describe(&e) }),
            Ok(client) => {
                let pool = build_pool(
                    client,
                    config.cache_pool_timeout_seconds,
                    config.cache_pool_max_open,
                    config.cache_pool_max_idle,
                    config.cache_pool_expire_seconds,
                );
                Ok(
                    RedisDataCacher {
                        pool,
                        cache_default_key_expiration_seconds:
                            config.cache_default_key_expiration_seconds,
                    },
                )
            },
        }
    }

    /// Sets up the cache that `config` describes. No connection is opened
    /// yet. An address that the Redis client refuses gives an internal error.
    pub fn new(config: RedisCacheConfig) -> (r: Result<RedisDataCacher, CacheError>)
        requires
            config.usable(),
        ensures
            r is Ok <==> redis_address_accepted(config.connection_string@),
            r matches Ok(cacher) ==> cacher.default_seconds()
                == config.cache_default_key_expiration_seconds,
            r matches Err(e) ==> e is InternalError,
    {
        Self::with_client(open_client(config.connection_string), config)
    }

    /// The pool of connections.
    pub fn pool(&self) -> (p: &RedisPool)
        ensures
            *p == self.connections(),
    {
        &self.pool
    }

    /// The time for which an entry is kept by default, in seconds. A time
    /// that does not fit the machine's word is cut to its low bits.
    pub fn get_default_key_expiration_seconds(&self) -> (seconds: usize)
        ensures
            seconds == self.default_seconds() as usize,
    {
        self.cache_default_key_expiration_seconds as usize
    }
}

impl Clone for RedisDataCacher {
    /// A cache on the same pool, with the same default time.
    fn clone(&self) -> (r: Self)
        ensures
            r.default_seconds() == self.default_seconds(),
    {
        RedisDataCacher {
            pool: share_pool(&self.pool),
            cache_default_key_expiration_seconds: self.cache_default_key_expiration_seconds,
        }
    }
}

} // verus!
