use redact_data::cache::error::CacheError;
use redact_data::storage::error::{DataStorerError, ErrorSource, StorageError};

#[test]
fn test_to_string_internal_error() {
    let s = CacheError::InternalError {
        source: CacheError::NotFound.to_string(),
    }
    .to_string();
    assert_eq!(s, "Internal error occurred");
}

#[test]
fn test_to_string_not_found() {
    let s = CacheError::NotFound.to_string();
    assert_eq!(s, "Cache entry not found");
}

#[test]
fn error_test_to_string_internal_error() {
    let s = StorageError::InternalError {
        source: StorageError::NotFound.to_string(),
    }
    .to_string();
    assert_eq!(s, "Internal error occurred");
}

#[test]
fn error_test_to_string_not_found() {
    let s = StorageError::NotFound.to_string();
    assert_eq!(s, "Data not found");
}

#[test]
fn merged_error_names_its_side() {
    let cache = DataStorerError::CacheError { source: CacheError::NotFound };
    let storage = DataStorerError::StorageError { source: StorageError::NotFound };
    assert_eq!(cache.to_string(), "Cache error");
    assert_eq!(storage.to_string(), "Storage error");
    assert_eq!(cache.source(), Some(ErrorSource::Cache(&CacheError::NotFound)));
    assert_eq!(storage.source(), Some(ErrorSource::Storage(&StorageError::NotFound)));
}

#[test]
fn cache_error_becomes_a_merged_error() {
    let e: DataStorerError = CacheError::NotFound.into();
    assert_eq!(e, DataStorerError::CacheError { source: CacheError::NotFound });
    let cause = CacheError::InternalError { source: "down".to_owned() };
    let e = DataStorerError::from(cause);
    assert_eq!(
        e,
        DataStorerError::CacheError { source: CacheError::InternalError { source: "down".to_owned() } }
    );
}

#[test]
fn sources_of_errors() {
    assert_eq!(CacheError::NotFound.source(), None);
    assert_eq!(StorageError::NotFound.source(), None);
    let c = CacheError::InternalError { source: "timeout".to_owned() };
    assert_eq!(c.source(), Some(&"timeout".to_owned()));
    let s = StorageError::InternalError { source: "refused".to_owned() };
    assert_eq!(s.source(), Some(&"refused".to_owned()));
}
