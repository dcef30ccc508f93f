use flexnotes::auth::password::{check_password, hash_password, hashed_password, password_verdict};
use flexnotes::auth::{check_claims, new_claims, signed_token, Claims, TokenError};
use flexnotes::error::ApiError;

fn claims(exp: usize) -> Claims {
    Claims { username: "alice".to_string(), company: "flexnotes".to_string(), exp }
}

fn token_failure() -> jsonwebtoken::errors::Error {
    jsonwebtoken::errors::Error::from(jsonwebtoken::errors::ErrorKind::InvalidSignature)
}

fn hash_failure() -> bcrypt::BcryptError {
    bcrypt::BcryptError::InvalidHash("no hash".to_string())
}

#[test]
fn claims_carry_the_issuer_and_the_expiry() {
    assert_eq!(new_claims("alice", 1000, 7200), Some(claims(8200)));
    assert_eq!(new_claims("alice", 0, 0), Some(claims(0)));
    assert_eq!(new_claims("alice", usize::MAX - 7200, 7200), Some(claims(usize::MAX)));
    assert_eq!(new_claims("alice", usize::MAX - 7199, 7200), None);
}

#[test]
fn signing_failure_is_an_internal_error() {
    assert_eq!(signed_token(Ok("a.b.c".to_string())), Ok("a.b.c".to_string()));
    assert_eq!(signed_token(Err(token_failure())), Err(ApiError::InternalError));
}

#[test]
fn claims_expire_after_their_last_second() {
    assert_eq!(check_claims(Ok(claims(8200)), 8199), Ok(claims(8200)));
    assert_eq!(check_claims(Ok(claims(8200)), 8200), Ok(claims(8200)));
    assert_eq!(check_claims(Ok(claims(8200)), 8201), Err(TokenError::TokenExpired));
    assert_eq!(check_claims(Ok(claims(0)), 0), Ok(claims(0)));
    assert_eq!(check_claims(Ok(claims(0)), usize::MAX), Err(TokenError::TokenExpired));
}

#[test]
fn token_that_cannot_be_read_is_invalid_at_any_time() {
    assert_eq!(check_claims(Err(token_failure()), 0), Err(TokenError::InvalidToken));
    assert_eq!(check_claims(Err(token_failure()), usize::MAX), Err(TokenError::InvalidToken));
}

#[test]
fn hashing_failure_is_an_internal_error() {
    assert_eq!(hashed_password(Ok("$2b$12$hash".to_string())), Ok("$2b$12$hash".to_string()));
    assert_eq!(hashed_password(Err(hash_failure())), Err(ApiError::InternalError));
}

#[test]
fn verdict_on_a_password() {
    assert_eq!(password_verdict(Ok(true)), Ok(()));
    assert_eq!(password_verdict(Ok(false)), Err(ApiError::Unathorized));
    assert_eq!(password_verdict(Err(hash_failure())), Err(ApiError::InternalError));
}

#[test]
fn hash_accepts_its_password_and_no_other() {
    let hash = hash_password("pw123").unwrap();
    assert_eq!(check_password("pw123", &hash), Ok(()));
    assert_eq!(check_password("pw124", &hash), Err(ApiError::Unathorized));
    assert_eq!(check_password("", &hash), Err(ApiError::Unathorized));
}

#[test]
fn hashes_of_one_password_differ() {
    assert_ne!(hash_password("pw123").unwrap(), hash_password("pw123").unwrap());
}

#[test]
fn hash_has_the_default_cost() {
    assert!(hash_password("pw123").unwrap().starts_with("$2b$12$"));
}

#[test]
fn comparison_with_what_is_no_hash_fails() {
    assert_eq!(check_password("pw123", "pw123"), Err(ApiError::InternalError));
    assert_eq!(check_password("pw123", ""), Err(ApiError::InternalError));
}
