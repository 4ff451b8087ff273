//! The binary-to-text transform under which secrets are stored: standard
//! base64 with padding, as the `base64` crate implements it.

use base64::engine::general_purpose::STANDARD;
use base64::{DecodeError, Engine};
use vstd::prelude::*;

verus! {

#[verifier::external_type_specification]
#[verifier::external_body]
pub struct ExDecodeError(DecodeError);

/// The standard base64 text of a byte string.
pub uninterp spec fn standard_base64(bytes: Seq<u8>) -> Seq<char>;

/// The byte string that a text stands for in standard base64, if it stands
/// for one.
pub uninterp spec fn standard_base64_decoded(text: Seq<char>) -> Option<Seq<u8>>;

/// Whether the text of a byte string of this length fits in one allocation.
pub open spec fn encodable_len(len: nat) -> bool {
    len / 3 * 4 + 4 <= isize::MAX
}

/// Whether the text of a byte string of this length fits in one allocation.
pub fn can_encode(len: usize) -> (fits: bool)
    ensures
        fits == encodable_len(len as nat),
{
    len / 3 <= (isize::MAX as usize - 4) / 4
}

/// `Engine::encode` of `general_purpose::STANDARD`: the text depends on the
/// bytes alone, and it is text that the same engine decodes to those bytes.
/// The call panics where the length of the text overflows; `requires` keeps
/// such inputs out.
#[verifier::external_body]
pub(crate) fn encode_standard(bytes: &[u8]) -> (text: String)
    requires
        encodable_len(bytes@.len()),
    ensures
        text@ == standard_base64(bytes@),
        standard_base64_decoded(text@) == Some(bytes@),
{
    STANDARD.encode(bytes)
}

/// `Engine::decode` of `general_purpose::STANDARD`: the bytes that the text
/// stands for, or an error where it stands for none. Which of the two depends
/// on the text alone.
#[verifier::external_body]
pub(crate) fn decode_standard(text: &str) -> (decoded: Result<Vec<u8>, DecodeError>)
    ensures
        decoded is Ok <==> standard_base64_decoded(text@) is Some,
        decoded is Ok ==> standard_base64_decoded(text@) == Some(decoded->Ok_0@),
{
    STANDARD.decode(text)
}

} // verus!
