//! The failures that an operation of the service can report.

use vstd::prelude::*;

verus! {

/// Why an operation did not succeed.
#[derive(Debug, Clone, Copy, PartialEq, Eq, Structural)]
pub enum ApiError {
    /// The entity is absent, or it belongs to another owner.
    NotFound,
    /// The storage backend or a cryptographic primitive failed.
    InternalError,
    /// The request carried no usable body.
    MissingPayload,
    /// Bad password, bad token, or the token's subject no longer exists.
    Unathorized,
    /// The username or the email address is already taken.
    UserExist,
    /// The token was well formed and correctly signed, but its time has passed.
    TokenExpired,
    /// A credential field or the authorization header is missing.
    MissingCredential,
    /// A write reached the backend without changing anything.
    NothingChanged,
}

impl ApiError {
    /// The HTTP status that the transport layer answers with.
    pub open spec fn spec_status_code(self) -> u16 {
        match self {
            ApiError::NotFound => 404,
            ApiError::InternalError => 500,
            ApiError::MissingPayload => 400,
            ApiError::Unathorized => 401,
            ApiError::UserExist => 302,
            ApiError::TokenExpired => 401,
            ApiError::MissingCredential => 401,
            ApiError::NothingChanged => 304,
        }
    }

    /// The text shown to the client.
    pub open spec fn spec_message(self) -> Seq<char> {
        match self {
            ApiError::NotFound => "Resource not found"@,
            ApiError::InternalError => "Something went wrong"@,
            ApiError::MissingPayload => "Something is missing"@,
            ApiError::Unathorized => "User unathorized"@,
            ApiError::UserExist => "User already exists"@,
            ApiError::TokenExpired => "Your token expired"@,
            ApiError::MissingCredential => "Missing auth.. "@,
            ApiError::NothingChanged => "Nothing changed"@,
        }
    }

    pub fn status_code(&self) -> (code: u16)
        ensures
            code == self.spec_status_code(),
    {
        match self {
            ApiError::NotFound => 404,
            ApiError::InternalError => 500,
            ApiError::MissingPayload => 400,
            ApiError::Unathorized => 401,
            ApiError::UserExist => 302,
            ApiError::TokenExpired => 401,
            ApiError::MissingCredential => 401,
            ApiError::NothingChanged => 304,
        }
    }

    pub fn message(&self) -> (text: String)
        ensures
            text@ == self.spec_message(),
    {
        match self {
            ApiError::NotFound => "Resource not found".to_owned(),
            ApiError::InternalError => "Something went wrong".to_owned(),
            ApiError::MissingPayload => "Something is missing".to_owned(),
            ApiError::Unathorized => "User unathorized".to_owned(),
            ApiError::UserExist => "User already exists".to_owned(),
            ApiError::TokenExpired => "Your token expired".to_owned(),
            ApiError::MissingCredential => "Missing auth.. ".to_owned(),
            ApiError::NothingChanged => "Nothing changed".to_owned(),
        }
    }
}

} // verus!
