//! The secret cache: binary secrets kept in a cache store as text, under
//! namespaced keys.

use crate::cache::{CacheEntry, CacheError, CacheModel, CacheRepositoryTrait};
use crate::encoding::{
    can_encode, decode_standard, encodable_len, encode_standard, standard_base64,
    standard_base64_decoded,
};
use crate::text::{lemma_text_set_empty, Text};
use tokio_util::sync::CancellationToken;
use vstd::prelude::*;
use vstd::string::StringExecFns;

verus! {

/// Why a secret could not be stored or read.
#[derive(Debug, Clone, Copy, PartialEq, Eq, Structural)]
pub enum SecretError {
    /// The store under the cache failed.
    Store(CacheError),
    /// What is stored under the key is not the text of any byte string.
    Decoding,
}

/// The cache key under which the passphrase of the account key `key_id` is
/// kept.
pub open spec fn account_passphrase_key(key_id: Text) -> Text {
    "account:passphrase:"@ + key_id
}

/// What reading a secret gives, by what the store returned for its key: no
/// secret where nothing is stored, the decoded bytes where the stored text
/// decodes, a decoding error where it does not.
pub open spec fn reads_as(stored: Option<Text>, outcome: Result<Option<Vec<u8>>, SecretError>)
    -> bool {
    match stored {
        None => outcome == Ok::<Option<Vec<u8>>, SecretError>(None),
        Some(text) => match standard_base64_decoded(text) {
            Some(bytes) => outcome matches Ok(Some(secret)) && secret@ == bytes,
            None => outcome == Err::<Option<Vec<u8>>, SecretError>(SecretError::Decoding),
        },
    }
}

/// The text stored under `key` in `model`, if the key is present.
pub open spec fn stored_text(model: CacheModel, key: Text) -> Option<Text> {
    if model.contains_key(key) {
        Some(model[key].value)
    } else {
        None
    }
}

/// The text under which a secret is stored: its standard base64, which
/// decodes back to the secret. There is none where the text would not fit in
/// one allocation.
pub fn encode_secret(secret: &[u8]) -> (text: Option<String>)
    ensures
        text is Some <==> encodable_len(secret@.len()),
        text matches Some(encoded) ==> encoded@ == standard_base64(secret@)
            && standard_base64_decoded(encoded@) == Some(secret@),
{
    if can_encode(secret.len()) {
        Some(encode_standard(secret))
    } else {
        None
    }
}

/// Turns what the store returned for a secret's key into the secret.
pub fn decode_secret(stored: Option<String>) -> (outcome: Result<Option<Vec<u8>>, SecretError>)
    ensures
        reads_as(
            match stored {
                Some(text) => Some(text@),
                None => None,
            },
            outcome,
        ),
{
    match stored {
        Some(text) => match decode_standard(text.as_str()) {
            Ok(bytes) => Ok(Some(bytes)),
            Err(_) => Err(SecretError::Decoding),
        },
        None => Ok(None),
    }
}

/// What storing a secret comes to, by what the store answered: success where
/// the store succeeded, the store's own error where it failed.
pub fn stored_outcome(outcome: Result<(), CacheError>) -> (result: Result<(), SecretError>)
    ensures
        result == match outcome {
            Ok(()) => Ok::<(), SecretError>(()),
            Err(error) => Err(SecretError::Store(error)),
        },
{
    match outcome {
        Ok(()) => Ok(()),
        Err(error) => Err(SecretError::Store(error)),
    }
}

/// What reading a secret comes to, by what the store answered: the store's
/// own error where it failed, and what `decode_secret` makes of the stored
/// text where it did not.
pub fn read_outcome(fetched: Result<Option<String>, CacheError>) -> (outcome: Result<
    Option<Vec<u8>>,
    SecretError,
>)
    ensures
        fetched matches Err(error) ==> outcome == Err::<Option<Vec<u8>>, SecretError>(
            SecretError::Store(error),
        ),
        fetched matches Ok(stored) ==> reads_as(
            match stored {
                Some(text) => Some(text@),
                None => None,
            },
            outcome,
        ),
{
    match fetched {
        Ok(stored) => decode_secret(stored),
        Err(error) => Err(SecretError::Store(error)),
    }
}

/// A cache of the secrets of one session.
pub trait SessionSecretCaching {
    /// The store that holds the secrets.
    spec fn store(&self) -> CacheModel;

    /// Whether the store never reports an error.
    spec fn store_never_fails(&self) -> bool;

    /// The cache's own consistency condition.
    spec fn valid(&self) -> bool;

    /// Stores `passphrase` as the passphrase of the account key `key_id`.
    fn set_account_key_passphrase(
        &mut self,
        key_id: String,
        passphrase: &[u8],
        cancellation_token: CancellationToken,
    ) -> (outcome: Result<(), SecretError>)
        requires
            old(self).valid(),
            encodable_len(passphrase@.len()),
        ensures
            final(self).valid(),
            final(self).store_never_fails() == old(self).store_never_fails(),
            old(self).store_never_fails() ==> outcome is Ok,
            outcome is Ok ==> final(self).store() == old(self).store().insert(
                account_passphrase_key(key_id@),
                (CacheEntry { value: standard_base64(passphrase@), tags: Set::empty() }),
            ),
            outcome is Ok ==> standard_base64_decoded(
                final(self).store()[account_passphrase_key(key_id@)].value,
            ) == Some(passphrase@),
            outcome matches Err(error) ==> error is Store,
    ;

    /// The passphrase of the account key `key_id`, if one is stored.
    fn try_get_account_key_passphrase(
        &self,
        key_id: String,
        cancellation_token: CancellationToken,
    ) -> (outcome: Result<Option<Vec<u8>>, SecretError>)
        requires
            self.valid(),
        ensures
            outcome matches Err(SecretError::Store(_)) || reads_as(
                stored_text(self.store(), account_passphrase_key(key_id@)),
                outcome,
            ),
            self.store_never_fails() ==> !(outcome matches Err(SecretError::Store(_))),
    ;
}

/// The secret cache over a store of kind `R`.
pub struct SessionSecretCache<R: CacheRepositoryTrait> {
    repository: R,
}

impl<R: CacheRepositoryTrait> SessionSecretCache<R> {
    /// The store under the cache.
    pub closed spec fn backing(&self) -> R {
        self.repository
    }

    /// A secret cache that keeps its secrets in `repository`.
    pub fn new(repository: R) -> (cache: Self)
        ensures
            cache.backing() == repository,
    {
        Self { repository }
    }

    /// The store under the cache.
    pub fn repository(&self) -> (repository: &R)
        ensures
            *repository == self.backing(),
    {
        &self.repository
    }

    /// The cache key under which the passphrase of the account key `key_id`
    /// is kept.
    pub fn get_account_passphrase_cache_key(key_id: &String) -> (key: String)
        ensures
            key@ == account_passphrase_key(key_id@),
    {
        String::from_str("account:passphrase:").concat(key_id.as_str())
    }
}

impl<R: CacheRepositoryTrait> SessionSecretCaching for SessionSecretCache<R> {
    open spec fn store(&self) -> CacheModel {
        self.backing().model()
    }

    open spec fn store_never_fails(&self) -> bool {
        self.backing().never_fails()
    }

    open spec fn valid(&self) -> bool {
        self.backing().valid()
    }

    fn set_account_key_passphrase(
        &mut self,
        key_id: String,
        passphrase: &[u8],
        cancellation_token: CancellationToken,
    ) -> (outcome: Result<(), SecretError>) {
        let cache_key = Self::get_account_passphrase_cache_key(&key_id);
        let serialized_value = encode_standard(passphrase);
        proof {
            lemma_text_set_empty();
        }
        stored_outcome(
            self.repository.set(
                cache_key.as_str(),
                serialized_value,
                Vec::new(),
                cancellation_token,
            ),
        )
    }

    fn try_get_account_key_passphrase(
        &self,
        key_id: String,
        cancellation_token: CancellationToken,
    ) -> (outcome: Result<Option<Vec<u8>>, SecretError>) {
        let cache_key = Self::get_account_passphrase_cache_key(&key_id);
        read_outcome(self.repository.try_get(cache_key.as_str(), cancellation_token))
    }
}

} // verus!
