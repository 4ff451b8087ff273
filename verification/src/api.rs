//! What the platform answers: its response codes and the envelope they
//! travel in.

use vstd::prelude::*;

pub mod response;

verus! {

/// The code of a response. The codes share one numeric space: codes taken
/// over from HTTP, the platform's general codes from 1000 on, the codes of
/// the storage service from 200000 on, and codes that the client gives to
/// failures of its own from 10000000 on.
#[derive(Debug, Clone, Copy, PartialEq, Eq, Structural)]
pub enum ResponseCode {
    Unknown,
    Unauthorized,
    Forbidden,
    RequestTimeout,
    Success,
    MultipleResponses,
    InvalidRequirements,
    InvalidValue,
    InvalidEncryptedIdFormat,
    AlreadyExists,
    DoesNotExist,
    Timeout,
    IncompatibleState,
    InvalidApp,
    OutdatedApp,
    Offline,
    IncorrectLoginCredentials,
    /// Account is disabled
    AccountDeleted,
    /// Account is disabled due to abuse or fraud
    AccountDisabled,
    InvalidRefreshToken,
    /// Free account
    NoActiveSubscription,
    UnknownAddress,
    ProtonDriveUnknown,
    InsufficientQuota,
    InsufficientSpace,
    MaxFileSizeForFreeUser,
    TooManyChildren,
    CustomCode,
    SocketError,
    SessionRefreshFailed,
    SrpError,
}

/// The first code of the storage service's range.
pub const PROTON_DRIVE_BASE: u32 = 200000;

/// The first code of the client's own range.
pub const CUSTOM_BASE: u32 = 10000000;

impl ResponseCode {
    /// The number of the code.
    pub open spec fn number(self) -> int {
        match self {
            ResponseCode::Unknown => 0,
            ResponseCode::Unauthorized => 401,
            ResponseCode::Forbidden => 403,
            ResponseCode::RequestTimeout => 408,
            ResponseCode::Success => 1000,
            ResponseCode::MultipleResponses => 1001,
            ResponseCode::InvalidRequirements => 2000,
            ResponseCode::InvalidValue => 2001,
            ResponseCode::InvalidEncryptedIdFormat => 2061,
            ResponseCode::AlreadyExists => 2500,
            ResponseCode::DoesNotExist => 2501,
            ResponseCode::Timeout => 2503,
            ResponseCode::IncompatibleState => 2511,
            ResponseCode::InvalidApp => 5002,
            ResponseCode::OutdatedApp => 5003,
            ResponseCode::Offline => 7001,
            ResponseCode::IncorrectLoginCredentials => 8002,
            ResponseCode::AccountDeleted => 10002,
            ResponseCode::AccountDisabled => 10003,
            ResponseCode::InvalidRefreshToken => 10013,
            ResponseCode::NoActiveSubscription => 22110,
            ResponseCode::UnknownAddress => 33102,
            ResponseCode::ProtonDriveUnknown => PROTON_DRIVE_BASE as int,
            ResponseCode::InsufficientQuota => PROTON_DRIVE_BASE + 1,
            ResponseCode::InsufficientSpace => PROTON_DRIVE_BASE + 2,
            ResponseCode::MaxFileSizeForFreeUser => PROTON_DRIVE_BASE + 3,
            ResponseCode::TooManyChildren => PROTON_DRIVE_BASE + 300,
            ResponseCode::CustomCode => CUSTOM_BASE as int,
            ResponseCode::SocketError => CUSTOM_BASE + 1,
            ResponseCode::SessionRefreshFailed => CUSTOM_BASE + 3,
            ResponseCode::SrpError => CUSTOM_BASE + 4,
        }
    }

    /// The number of the code.
    pub fn value(&self) -> (number: u32)
        ensures
            number == self.number(),
    {
        match self {
            ResponseCode::Unknown => 0,
            ResponseCode::Unauthorized => 401,
            ResponseCode::Forbidden => 403,
            ResponseCode::RequestTimeout => 408,
            ResponseCode::Success => 1000,
            ResponseCode::MultipleResponses => 1001,
            ResponseCode::InvalidRequirements => 2000,
            ResponseCode::InvalidValue => 2001,
            ResponseCode::InvalidEncryptedIdFormat => 2061,
            ResponseCode::AlreadyExists => 2500,
            ResponseCode::DoesNotExist => 2501,
            ResponseCode::Timeout => 2503,
            ResponseCode::IncompatibleState => 2511,
            ResponseCode::InvalidApp => 5002,
            ResponseCode::OutdatedApp => 5003,
            ResponseCode::Offline => 7001,
            ResponseCode::IncorrectLoginCredentials => 8002,
            ResponseCode::AccountDeleted => 10002,
            ResponseCode::AccountDisabled => 10003,
            ResponseCode::InvalidRefreshToken => 10013,
            ResponseCode::NoActiveSubscription => 22110,
            ResponseCode::UnknownAddress => 33102,
            ResponseCode::ProtonDriveUnknown => PROTON_DRIVE_BASE,
            ResponseCode::InsufficientQuota => PROTON_DRIVE_BASE + 1,
            ResponseCode::InsufficientSpace => PROTON_DRIVE_BASE + 2,
            ResponseCode::MaxFileSizeForFreeUser => PROTON_DRIVE_BASE + 3,
            ResponseCode::TooManyChildren => PROTON_DRIVE_BASE + 300,
            ResponseCode::CustomCode => CUSTOM_BASE,
            ResponseCode::SocketError => CUSTOM_BASE + 1,
            ResponseCode::SessionRefreshFailed => CUSTOM_BASE + 3,
            ResponseCode::SrpError => CUSTOM_BASE + 4,
        }
    }
}

/// No two codes share a number.
pub proof fn lemma_code_numbers_are_distinct(first: ResponseCode, second: ResponseCode)
    ensures
        first.number() == second.number() <==> first == second,
{
}

/// The envelope of every response: its code and, on failure, a message.
pub struct ApiResponse {
    code: ResponseCode,
    error_message: Option<String>,
}

impl ApiResponse {
    /// The code of the response.
    pub closed spec fn code(&self) -> ResponseCode {
        self.code
    }

    /// The message of the response, if it carries one.
    pub closed spec fn error_message(&self) -> Option<String> {
        self.error_message
    }

    pub fn new(code: ResponseCode, error_message: Option<String>) -> (response: Self)
        ensures
            response.code() == code,
            response.error_message() == error_message,
    {
        Self { code, error_message }
    }

    /// Whether the platform reported success.
    pub fn is_success(&self) -> (success: bool)
        ensures
            success == (self.code() == ResponseCode::Success),
    {
        self.code == ResponseCode::Success
    }
}

} // verus!
