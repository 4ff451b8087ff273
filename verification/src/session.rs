//! An established session: who it belongs to, its token credential, and its
//! secret cache.

use crate::auth::TokenCredential;
use crate::cache::CacheRepositoryTrait;
use crate::client::ProtonClientConfiguration;
use crate::identity::{PasswordMode, SessionId, UserId};
use crate::secret::SessionSecretCache;
use vstd::prelude::*;

verus! {

/// A session with the platform, with its secrets kept in a store of kind `R`.
pub struct ProtonAPISession<R: CacheRepositoryTrait> {
    pub session_id: SessionId,
    pub username: String,
    pub user_id: UserId,
    pub token_credential: TokenCredential,
    pub scopes: Vec<String>,
    pub is_waiting_for_second_factor_code: bool,
    pub password_mode: PasswordMode,
    pub client_config: ProtonClientConfiguration,
    pub secret_cache: SessionSecretCache<R>,
}

impl<R: CacheRepositoryTrait> ProtonAPISession<R> {
    /// The session made of these parts, with a secret cache over
    /// `secret_cache_repository`.
    pub fn new(
        session_id: SessionId,
        username: String,
        user_id: UserId,
        token_credential: TokenCredential,
        scopes: Vec<String>,
        is_waiting_for_second_factor_code: bool,
        password_mode: PasswordMode,
        client_config: ProtonClientConfiguration,
        secret_cache_repository: R,
    ) -> (session: Self)
        ensures
            session.session_id == session_id,
            session.username == username,
            session.user_id == user_id,
            session.token_credential == token_credential,
            session.scopes == scopes,
            session.is_waiting_for_second_factor_code == is_waiting_for_second_factor_code,
            session.password_mode == password_mode,
            session.client_config == client_config,
            session.secret_cache.backing() == secret_cache_repository,
    {
        let secret_cache = SessionSecretCache::new(secret_cache_repository);
        Self {
            session_id,
            username,
            user_id,
            token_credential,
            scopes,
            is_waiting_for_second_factor_code,
            password_mode,
            client_config,
            secret_cache,
        }
    }
}

} // verus!
