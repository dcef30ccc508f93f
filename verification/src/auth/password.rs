//! Password hashing, done by the `bcrypt` crate.

use crate::error::ApiError;
use vstd::prelude::*;

verus! {

/// The error type of the `bcrypt` crate. A value of it is carried from the
/// call that failed to where the failure is answered, and never looked into.
#[verifier::external_type_specification]
#[verifier::external_body]
pub struct ExHashFailure(bcrypt::BcryptError);

/// What `bcrypt::verify` answers for a password and a stored hash: whether
/// they match, or `None` where it reports an error, as it does for a string
/// that is no bcrypt hash.
pub uninterp spec fn password_matches(password: Seq<char>, hash: Seq<char>) -> Option<bool>;

/// Calls `bcrypt::hash` with the crate's default cost. The salt is random, so
/// the hash itself is not determined by the password. What is claimed is what
/// the crate's pair of functions is for, and what its own test
/// `can_verify_own_generated` states: `bcrypt::verify` reads cost and salt
/// back out of the hash, hashes the password again and compares, so it accepts
/// the password that the hash was made from.
#[verifier::external_body]
pub(crate) fn bcrypt_hash(password: &str) -> (hashed: Result<String, bcrypt::BcryptError>)
    ensures
        hashed matches Ok(hash) ==> password_matches(password@, hash@) == Some(true),
{
    bcrypt::hash(password, bcrypt::DEFAULT_COST)
}

/// Calls `bcrypt::verify`, which computes a function of the password and the
/// hash; the contract gives that function its name.
#[verifier::external_body]
fn bcrypt_verify(password: &str, hash: &str) -> (verified: Result<bool, bcrypt::BcryptError>)
    ensures
        match verified {
            Ok(matches) => password_matches(password@, hash@) == Some(matches),
            Err(_) => password_matches(password@, hash@) is None,
        },
{
    bcrypt::verify(password, hash)
}

/// What storing a password answers, given what the hash function returned.
pub fn hashed_password(hashed: Result<String, bcrypt::BcryptError>) -> (hash: Result<
    String,
    ApiError,
>)
    ensures
        match hashed {
            Ok(h) => hash == Ok::<String, ApiError>(h),
            Err(_) => hash == Err::<String, ApiError>(ApiError::InternalError),
        },
{
    match hashed {
        Ok(h) => Ok(h),
        Err(_) => Err(ApiError::InternalError),
    }
}

/// What a login answers to a password, given what comparing it with the
/// stored hash returned: a mismatch is unauthorized, a failed comparison an
/// internal error.
pub fn password_verdict(verified: Result<bool, bcrypt::BcryptError>) -> (verdict: Result<
    (),
    ApiError,
>)
    ensures
        verdict == (match verified {
            Ok(true) => Ok::<(), ApiError>(()),
            Ok(false) => Err(ApiError::Unathorized),
            Err(_) => Err(ApiError::InternalError),
        }),
{
    match verified {
        Ok(true) => Ok(()),
        Ok(false) => Err(ApiError::Unathorized),
        Err(_) => Err(ApiError::InternalError),
    }
}

/// What a login answers to a password whose comparison with a stored hash has
/// the outcome `matches`.
pub open spec fn login_verdict(matches: Option<bool>) -> Result<(), ApiError> {
    match matches {
        Some(true) => Ok(()),
        Some(false) => Err(ApiError::Unathorized),
        None => Err(ApiError::InternalError),
    }
}

/// Hashes a password for storage.
pub fn hash_password(password: &str) -> (hash: Result<String, ApiError>)
    ensures
        match hash {
            Ok(h) => password_matches(password@, h@) == Some(true),
            Err(e) => e == ApiError::InternalError,
        },
{
    hashed_password(bcrypt_hash(password))
}

/// Compares a password with a stored hash.
pub fn check_password(password: &str, hash: &str) -> (verdict: Result<(), ApiError>)
    ensures
        verdict == login_verdict(password_matches(password@, hash@)),
{
    password_verdict(bcrypt_verify(password, hash))
}

} // verus!
