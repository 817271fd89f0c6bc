use mlflow::api::error::{BatchError, GetError, Limit, StorageError};
use mlflow::api::limits::{check_batch, BATCH_METRICS, BATCH_PARAMS, BATCH_TAGS, BATCH_TOTAL};

#[test]
fn the_limits_are_those_of_the_server() {
    assert_eq!(BATCH_METRICS, 1000);
    assert_eq!(BATCH_PARAMS, 100);
    assert_eq!(BATCH_TAGS, 100);
    assert_eq!(BATCH_TOTAL, 1000);
}

#[test]
fn a_batch_within_the_limits_passes() {
    assert_eq!(check_batch(0, 0, 0), Ok(()));
    assert_eq!(check_batch(1000, 0, 0), Ok(()));
    assert_eq!(check_batch(800, 100, 100), Ok(()));
    assert_eq!(check_batch(0, 100, 100), Ok(()));
}

#[test]
fn the_first_limit_that_is_broken_is_reported() {
    assert_eq!(check_batch(1001, 0, 0), Err(BatchError::TooManyMetrics(1001)));
    assert_eq!(check_batch(0, 101, 0), Err(BatchError::TooManyParams(101)));
    assert_eq!(check_batch(0, 0, 101), Err(BatchError::TooManyTags(101)));
    assert_eq!(check_batch(999, 1, 1), Err(BatchError::TooManyItems(1001)));
    assert_eq!(check_batch(1000, 100, 100), Err(BatchError::TooManyItems(1200)));
    assert_eq!(check_batch(2000, 200, 200), Err(BatchError::TooManyMetrics(2000)));
    assert_eq!(check_batch(1000, 200, 200), Err(BatchError::TooManyParams(200)));
    assert_eq!(check_batch(1000, 100, 200), Err(BatchError::TooManyTags(200)));
    assert_eq!(check_batch(usize::MAX, usize::MAX, usize::MAX), Err(BatchError::TooManyMetrics(usize::MAX)));
}

#[test]
fn other_errors_become_storage_errors() {
    assert_eq!(StorageError::of_batch(BatchError::TooManyItems(1001)), StorageError::TooMany(Limit::Items, 1001));
    assert_eq!(StorageError::of_batch(BatchError::TooManyMetrics(1001)), StorageError::TooMany(Limit::Metrics, 1001));
    assert_eq!(StorageError::of_batch(BatchError::TooManyParams(101)), StorageError::TooMany(Limit::Params, 101));
    assert_eq!(StorageError::of_batch(BatchError::TooManyTags(101)), StorageError::TooMany(Limit::Tags, 101));
    assert_eq!(StorageError::of_batch(BatchError::Storage(StorageError::Unreadable)), StorageError::Unreadable);
    assert_eq!(StorageError::of_get(GetError::DoesNotExist("r".to_string())), StorageError::Missing("r".to_string()));
    assert_eq!(StorageError::of_get(GetError::Storage(StorageError::Request)), StorageError::Request);
}
