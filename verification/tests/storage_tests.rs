use api_keys::errors::ApiKeyStorageError;
use api_keys::mock::get_mock_api_key;
use api_keys::storage::HashMapStorage;
use api_keys::traits::ApiKeyStorage;

#[test]
fn it_can_store_an_api_key() {
    let mut storage = HashMapStorage::new();

    let key = "test_key";

    let api_key = get_mock_api_key(Some(key.to_string()));

    let result = storage.store_api_key(key, &api_key);

    match result {
        Ok(storage_key) => {
            assert_eq!(key, storage_key, "The stored key should match the key that was passed in")
        }
        Err(e) => assert_eq!(
            true,
            false,
            "The key should have been stored {}",
            e.to_message()
        ),
    }
}

#[test]
fn it_can_rietrieve_an_api_key() {
    let mut storage = HashMapStorage::new();

    let key = "test_key";

    let api_key = get_mock_api_key(Some(key.to_string()));

    let result = storage.store_api_key(key, &api_key);

    match result {
        Ok(storage_key) => {
            assert_eq!(key, storage_key, "The stored key should match the key that was passed in")
        }
        Err(e) => assert_eq!(
            true,
            false,
            "The key should have been stored {}",
            e.to_message()
        ),
    }

    let result = storage.retrieve_api_key(key);

    match result {
        Ok(retrieved_api_key) => assert_eq!(
            api_key.key, retrieved_api_key.key,
            "The retrieved key should match the key that was passed in"
        ),
        Err(e) => match e {
            ApiKeyStorageError::KeyNotFound => {
                assert_eq!(true, false, "The key should have been found {}", e.to_message())
            }
            _ => assert_eq!(true, false, "The key should have been found {}", e.to_message()),
        },
    }
}

#[test]
fn round_trip_preserves_every_field() {
    let mut storage = HashMapStorage::new();
    let api_key = get_mock_api_key(Some("test_key".to_string()));

    storage.store_api_key("test_key", &api_key).unwrap();
    let retrieved = storage.retrieve_api_key("test_key").unwrap();

    assert_eq!(retrieved.key, api_key.key);
    assert_eq!(retrieved.limits, api_key.limits);
    assert_eq!(
        retrieved.restrictions.allowed_domains,
        api_key.restrictions.allowed_domains
    );
    assert_eq!(retrieved.status, api_key.status);
    assert_eq!(retrieved.created_at, api_key.created_at);
    assert_eq!(retrieved.updated_at, api_key.updated_at);
}

#[test]
fn storing_a_duplicate_identifier_is_rejected() {
    let mut storage = HashMapStorage::new();
    let api_key = get_mock_api_key(None);

    storage.store_api_key("test_key", &api_key).unwrap();
    let second = storage.store_api_key("test_key", &api_key);

    match second {
        Err(ApiKeyStorageError::KeyAlreadyExists) => {}
        _ => panic!("a duplicate identifier must be rejected with KeyAlreadyExists"),
    }
}

#[test]
fn delete_is_idempotent_and_not_an_error() {
    let mut storage = HashMapStorage::new();
    let api_key = get_mock_api_key(None);

    assert_eq!(storage.delete_api_key("absent").unwrap(), false);

    storage.store_api_key("test_key", &api_key).unwrap();
    assert_eq!(storage.delete_api_key("test_key").unwrap(), true);

    match storage.retrieve_api_key("test_key") {
        Err(ApiKeyStorageError::KeyNotFound) => {}
        _ => panic!("a deleted identifier must resolve to KeyNotFound"),
    }

    assert_eq!(storage.delete_api_key("test_key").unwrap(), false);
}
