use redact_data::cache::error::CacheError;
use redact_data::cache::redis::{RedisCacheConfig, RedisDataCacher};
use redact_data::data::{Data, DataCollection, DataValue};
use redact_data::storage::error::{DataStorerError, StorageError};
use redact_data::storage::mongodb::MongoDataStorer;
use redact_data::storage::redact::RedactDataStorer;

fn internal(cause: &str) -> DataStorerError {
    DataStorerError::StorageError { source: StorageError::InternalError { source: cause.to_owned() } }
}

#[test]
fn redact_addresses() {
    let s = RedactDataStorer::new("http://host:8080");
    assert_eq!(s.url(), "http://host:8080");
    assert_eq!(s.get_address(".my.path."), "http://host:8080/data/.my.path.");
    assert_eq!(
        s.get_collection_address(".my.", 0, 10),
        "http://host:8080/data/.my.?skip=0&page_size=10"
    );
    assert_eq!(
        s.get_collection_address("p", -3, i64::MAX),
        "http://host:8080/data/p?skip=-3&page_size=9223372036854775807"
    );
    let d = Data::new("my.path", DataValue::from("v"), None);
    assert_eq!(s.create_address(&d), "http://host:8080/data?path=.my.path.");
    assert_eq!(s.clone(), s);
}

#[test]
fn redact_addresses_are_what_formatting_gives() {
    let url = "https://example.org/base";
    let s = RedactDataStorer::new(url);
    for (path, skip, page_size) in [("", 0i64, 0i64), (".a.", 1, 2), ("x", i64::MIN, -1), ("é", 100, 1000)] {
        assert_eq!(s.get_address(path), format!("{}/data/{}", url, path));
        assert_eq!(
            s.get_collection_address(path, skip, page_size),
            format!("{}/data/{}?skip={}&page_size={}", url, path, skip, page_size)
        );
    }
}

#[test]
fn redact_outcomes() {
    let d = Data::new(".p.", DataValue::from("v"), None);
    assert_eq!(RedactDataStorer::got(Ok(d.clone())), Ok(d.clone()));
    assert_eq!(RedactDataStorer::got(Err("timed out".to_owned())), Err(internal("timed out")));
    let page = RedactDataStorer::got_collection(Ok(DataCollection { data: vec![d.clone()] })).unwrap();
    assert_eq!(page.data, vec![d]);
    assert_eq!(
        RedactDataStorer::got_collection(Err("bad json".to_owned())).unwrap_err(),
        internal("bad json")
    );
    assert_eq!(RedactDataStorer::created(Ok(())), Ok(true));
    assert_eq!(RedactDataStorer::created(Err("refused".to_owned())), Err(internal("refused")));
}

#[test]
fn mongo_settings_and_outcomes() {
    let m = MongoDataStorer::new("mongodb://host", "redact");
    assert_eq!(m.url(), "mongodb://host");
    assert_eq!(m.db_name(), "redact");
    assert_eq!(m.clone(), m);
    assert_eq!(MongoDataStorer::collection_name(), "data");
    assert_eq!(MongoDataStorer::key_field(), "path");
    let d = Data::new(".p.", DataValue::from("v"), None);
    assert_eq!(MongoDataStorer::found(Ok(Some(d.clone()))), Ok(d));
    assert_eq!(
        MongoDataStorer::found(Ok(None)),
        Err(DataStorerError::StorageError { source: StorageError::NotFound })
    );
    assert_eq!(MongoDataStorer::found(Err("no primary".to_owned())), Err(internal("no primary")));
    assert_eq!(MongoDataStorer::replaced(Ok(())), Ok(true));
    assert_eq!(MongoDataStorer::replaced(Err("no primary".to_owned())), Err(internal("no primary")));
}

fn config(address: &str) -> RedisCacheConfig<'_> {
    RedisCacheConfig {
        connection_string: address,
        cache_pool_timeout_seconds: 5,
        cache_pool_max_open: 16,
        cache_pool_max_idle: 8,
        cache_pool_expire_seconds: 60,
        cache_default_key_expiration_seconds: 3600,
    }
}

#[test]
fn redis_cache_is_set_up_without_connecting() {
    let c = config("redis://127.0.0.1:6379/");
    assert!(c.is_usable());
    let cacher = RedisDataCacher::new(c).unwrap();
    assert_eq!(cacher.get_default_key_expiration_seconds(), 3600);
    assert_eq!(cacher.clone().get_default_key_expiration_seconds(), 3600);
    let _pool = &cacher.pool().inner;
}

#[test]
fn redis_cache_refuses_a_bad_address() {
    match RedisDataCacher::new(config("this is no address")) {
        Err(CacheError::InternalError { source }) => assert!(!source.is_empty()),
        Err(other) => panic!("unexpected {:?}", other),
        Ok(_) => panic!("the address should have been refused"),
    }
}

#[test]
fn redis_settings_that_no_pool_takes() {
    let mut c = config("redis://127.0.0.1/");
    c.cache_pool_timeout_seconds = 0;
    assert!(!c.is_usable());
    let mut c = config("redis://127.0.0.1/");
    c.cache_pool_expire_seconds = 0;
    assert!(!c.is_usable());
    let mut c = config("redis://127.0.0.1/");
    c.cache_pool_max_open = u64::MAX;
    assert!(!c.is_usable());
    let mut c = config("redis://127.0.0.1/");
    c.cache_pool_max_open = 0;
    c.cache_pool_max_idle = 0;
    assert!(c.is_usable());
    assert!(RedisDataCacher::new(c).is_ok());
}

#[test]
fn redis_cache_from_a_client_that_was_opened_elsewhere() {
    let opened = mobc_redis::redis::Client::open("redis://localhost/3");
    let cacher = RedisDataCacher::with_client(opened, config("unused")).unwrap();
    assert_eq!(cacher.get_default_key_expiration_seconds(), 3600);
    let refused = mobc_redis::redis::Client::open("http://localhost/");
    assert!(refused.is_err());
    match RedisDataCacher::with_client(refused, config("unused")) {
        Err(CacheError::InternalError { source }) => assert!(!source.is_empty()),
        Err(other) => panic!("unexpected {:?}", other),
        Ok(_) => panic!("a refused address gives no cache"),
    }
}
