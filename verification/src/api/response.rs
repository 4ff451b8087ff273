//! The bodies of the responses that establish and renew a session.

use crate::api::ApiResponse;
use crate::identity::{EventId, SessionId, UserId};
use vstd::prelude::*;

verus! {

/// The platform's answer to the opening of the login handshake.
pub struct SesisonInitiationResponse {
    pub(crate) version: i32,
    pub(crate) modulus: String,
    pub(crate) server_ephemeral: Vec<u8>,
    pub(crate) salt: Vec<u8>,
    pub(crate) srp_session_id: String,
    pub(crate) response: ApiResponse,
}

/// The platform's answer to a completed login handshake.
pub struct AuthenticationResponse {
    pub(crate) session_id: SessionId,
    pub(crate) user_id: UserId,
    pub(crate) event_id: Option<EventId>,
}

/// The platform's answer to a request to renew a session's tokens.
pub struct RefreshSessionResponse {
    pub access_token: String,
    pub refresh_token: String,
}

} // verus!
