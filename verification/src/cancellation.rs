//! The cancellation signal that callers thread through the library.

use tokio_util::sync::CancellationToken;
use vstd::prelude::*;

verus! {

#[verifier::external_type_specification]
#[verifier::external_body]
pub struct ExCancellationToken(CancellationToken);

/// `CancellationToken::is_cancelled`: whether cancellation has been requested
/// by the time of the call. Another task may request it at any moment, so
/// nothing is promised of the answer.
#[verifier::external_body]
pub(crate) fn is_cancelled(token: &CancellationToken) -> bool {
    token.is_cancelled()
}

} // verus!
