use proton_sdk::cache::{CacheError, CacheRepositoryTrait, InMemoryCacheRepository};
use proton_sdk::encoding::can_encode;
use proton_sdk::secret::{
    decode_secret, encode_secret, read_outcome, stored_outcome, SecretError, SessionSecretCache,
    SessionSecretCaching,
};
use tokio_util::sync::CancellationToken;

fn token() -> CancellationToken {
    CancellationToken::new()
}

#[test]
fn stored_passphrase_reads_back_exactly() {
    let mut cache = SessionSecretCache::new(InMemoryCacheRepository::new());
    assert_eq!(
        cache.set_account_key_passphrase("k1".to_string(), &[0, 1, 2, 255], token()),
        Ok(())
    );
    assert_eq!(
        cache.try_get_account_key_passphrase("k1".to_string(), token()),
        Ok(Some(vec![0, 1, 2, 255]))
    );
}

#[test]
fn passphrase_is_stored_as_base64_under_the_namespaced_key_without_tags() {
    let mut cache = SessionSecretCache::new(InMemoryCacheRepository::new());
    cache.set_account_key_passphrase("k1".to_string(), &[0, 1, 2, 255], token()).unwrap();
    assert_eq!(
        cache.repository().try_get("account:passphrase:k1", token()),
        Ok(Some("AAEC/w==".to_string()))
    );
    assert_eq!(cache.repository().try_get("k1", token()), Ok(None));
    assert_eq!(cache.repository().get_by_tags(vec!["k1".to_string()], token()), Ok(vec![]));
}

#[test]
fn cache_key_is_the_prefix_followed_by_the_key_id() {
    assert_eq!(
        SessionSecretCache::<InMemoryCacheRepository>::get_account_passphrase_cache_key(
            &"k1".to_string()
        ),
        "account:passphrase:k1"
    );
    assert_eq!(
        SessionSecretCache::<InMemoryCacheRepository>::get_account_passphrase_cache_key(
            &String::new()
        ),
        "account:passphrase:"
    );
}

#[test]
fn absent_passphrase_reads_as_none() {
    let cache = SessionSecretCache::new(InMemoryCacheRepository::new());
    assert_eq!(cache.try_get_account_key_passphrase("k1".to_string(), token()), Ok(None));
}

#[test]
fn empty_passphrase_reads_back_as_empty() {
    let mut cache = SessionSecretCache::new(InMemoryCacheRepository::new());
    cache.set_account_key_passphrase("k".to_string(), &[], token()).unwrap();
    assert_eq!(cache.repository().try_get("account:passphrase:k", token()), Ok(Some(String::new())));
    assert_eq!(cache.try_get_account_key_passphrase("k".to_string(), token()), Ok(Some(vec![])));
}

#[test]
fn passphrases_of_every_remainder_length_read_back() {
    let mut cache = SessionSecretCache::new(InMemoryCacheRepository::new());
    cache.set_account_key_passphrase("one".to_string(), b"f", token()).unwrap();
    cache.set_account_key_passphrase("two".to_string(), b"fo", token()).unwrap();
    cache.set_account_key_passphrase("three".to_string(), b"foo", token()).unwrap();
    assert_eq!(
        cache.repository().try_get("account:passphrase:one", token()),
        Ok(Some("Zg==".to_string()))
    );
    assert_eq!(
        cache.repository().try_get("account:passphrase:two", token()),
        Ok(Some("Zm8=".to_string()))
    );
    assert_eq!(
        cache.repository().try_get("account:passphrase:three", token()),
        Ok(Some("Zm9v".to_string()))
    );
    assert_eq!(
        cache.try_get_account_key_passphrase("one".to_string(), token()),
        Ok(Some(b"f".to_vec()))
    );
    assert_eq!(
        cache.try_get_account_key_passphrase("two".to_string(), token()),
        Ok(Some(b"fo".to_vec()))
    );
    assert_eq!(
        cache.try_get_account_key_passphrase("three".to_string(), token()),
        Ok(Some(b"foo".to_vec()))
    );
}

#[test]
fn storing_again_replaces_the_passphrase() {
    let mut cache = SessionSecretCache::new(InMemoryCacheRepository::new());
    cache.set_account_key_passphrase("k1".to_string(), &[1, 2, 3], token()).unwrap();
    cache.set_account_key_passphrase("k1".to_string(), &[9], token()).unwrap();
    assert_eq!(
        cache.try_get_account_key_passphrase("k1".to_string(), token()),
        Ok(Some(vec![9]))
    );
}

#[test]
fn passphrases_of_different_keys_do_not_mix() {
    let mut cache = SessionSecretCache::new(InMemoryCacheRepository::new());
    cache.set_account_key_passphrase("k1".to_string(), &[1], token()).unwrap();
    cache.set_account_key_passphrase("k2".to_string(), &[2], token()).unwrap();
    assert_eq!(cache.try_get_account_key_passphrase("k1".to_string(), token()), Ok(Some(vec![1])));
    assert_eq!(cache.try_get_account_key_passphrase("k2".to_string(), token()), Ok(Some(vec![2])));
    assert_eq!(cache.try_get_account_key_passphrase("k3".to_string(), token()), Ok(None));
}

#[test]
fn corrupted_stored_value_is_a_decoding_error() {
    let mut repository = InMemoryCacheRepository::new();
    repository
        .set("account:passphrase:k1", "not base64!".to_string(), vec![], token())
        .unwrap();
    let cache = SessionSecretCache::new(repository);
    assert_eq!(
        cache.try_get_account_key_passphrase("k1".to_string(), token()),
        Err(SecretError::Decoding)
    );
}

#[test]
fn stored_value_without_its_padding_is_a_decoding_error() {
    let mut repository = InMemoryCacheRepository::new();
    repository.set("account:passphrase:k1", "AAEC/w".to_string(), vec![], token()).unwrap();
    let cache = SessionSecretCache::new(repository);
    assert_eq!(
        cache.try_get_account_key_passphrase("k1".to_string(), token()),
        Err(SecretError::Decoding)
    );
}

#[test]
fn decode_secret_tells_absent_from_corrupted() {
    assert_eq!(decode_secret(None), Ok(None));
    assert_eq!(decode_secret(Some("AAEC/w==".to_string())), Ok(Some(vec![0, 1, 2, 255])));
    assert_eq!(decode_secret(Some(String::new())), Ok(Some(vec![])));
    assert_eq!(decode_secret(Some("AAEC/w=".to_string())), Err(SecretError::Decoding));
    assert_eq!(decode_secret(Some("****".to_string())), Err(SecretError::Decoding));
}

#[test]
fn secret_errors_are_told_apart() {
    assert_ne!(SecretError::Decoding, SecretError::Store(CacheError::Backend));
    assert_ne!(SecretError::Store(CacheError::Cancelled), SecretError::Store(CacheError::Backend));
}

#[test]
fn encode_secret_gives_padded_standard_base64() {
    assert_eq!(encode_secret(&[0, 1, 2, 255]), Some("AAEC/w==".to_string()));
    assert_eq!(encode_secret(&[]), Some(String::new()));
    assert_eq!(encode_secret(&[0xfb, 0xff]), Some("+/8=".to_string()));
    assert_eq!(encode_secret(b"hello world~"), Some("aGVsbG8gd29ybGR+".to_string()));
}

#[test]
fn encoded_and_decoded_secrets_are_inverse_on_all_single_bytes() {
    for byte in 0..=255u8 {
        let text = encode_secret(&[byte]).unwrap();
        assert_eq!(text.len(), 4);
        assert_eq!(decode_secret(Some(text)), Ok(Some(vec![byte])));
    }
}

#[test]
fn can_encode_follows_the_length_of_the_text() {
    assert!(can_encode(0));
    assert!(can_encode(1));
    assert!(can_encode(1 << 20));
    assert!(!can_encode(usize::MAX));
    assert!(!can_encode(isize::MAX as usize));
    if usize::BITS == 64 {
        assert!(can_encode(6917529027641081852));
        assert!(!can_encode(6917529027641081853));
    }
}

#[test]
fn a_store_error_on_write_reaches_the_caller_as_it_is() {
    assert_eq!(stored_outcome(Ok(())), Ok(()));
    assert_eq!(
        stored_outcome(Err(CacheError::Backend)),
        Err(SecretError::Store(CacheError::Backend))
    );
    assert_eq!(
        stored_outcome(Err(CacheError::Cancelled)),
        Err(SecretError::Store(CacheError::Cancelled))
    );
}

#[test]
fn a_store_error_on_read_reaches_the_caller_as_it_is() {
    assert_eq!(
        read_outcome(Err(CacheError::Backend)),
        Err(SecretError::Store(CacheError::Backend))
    );
    assert_eq!(
        read_outcome(Err(CacheError::Cancelled)),
        Err(SecretError::Store(CacheError::Cancelled))
    );
}

#[test]
fn a_successful_read_is_decoded() {
    assert_eq!(read_outcome(Ok(None)), Ok(None));
    assert_eq!(read_outcome(Ok(Some("AAEC/w==".to_string()))), Ok(Some(vec![0, 1, 2, 255])));
    assert_eq!(read_outcome(Ok(Some("AAEC/w".to_string()))), Err(SecretError::Decoding));
}
