use flexnotes::auth::{
    generate_acces_token, generate_refresh_token, verify_token, AuthResponseBody, Keys, TokenError,
};
use flexnotes::error::ApiError;

#[test]
fn access_token_round_trip() {
    let keys = Keys::new(b"secret");
    let token = generate_acces_token(&keys, "alice", 1000).unwrap();
    let claims = verify_token(&keys, &token, 1000).unwrap();
    assert_eq!(claims.username, "alice");
    assert_eq!(claims.company, "flexnotes");
    assert_eq!(claims.exp, 1000 + 7200);
}

#[test]
fn refresh_token_lives_two_days() {
    let keys = Keys::new(b"secret");
    let token = generate_refresh_token(&keys, "alice", 5).unwrap();
    let claims = verify_token(&keys, &token, 5).unwrap();
    assert_eq!(claims.exp, 5 + 172800);
}

#[test]
fn token_is_good_until_its_last_second() {
    let keys = Keys::new(b"secret");
    let token = generate_acces_token(&keys, "alice", 1000).unwrap();
    assert!(verify_token(&keys, &token, 8200).is_ok());
    assert_eq!(verify_token(&keys, &token, 8201), Err(TokenError::TokenExpired));
}

#[test]
fn token_of_another_key_is_invalid() {
    let keys = Keys::new(b"secret");
    let other = Keys::new(b"another");
    let token = generate_acces_token(&keys, "alice", 1000).unwrap();
    assert_eq!(verify_token(&other, &token, 1000), Err(TokenError::InvalidToken));
}

#[test]
fn garbage_is_invalid_not_expired() {
    let keys = Keys::new(b"secret");
    assert_eq!(verify_token(&keys, "a.jwt.token", 0), Err(TokenError::InvalidToken));
    assert_eq!(verify_token(&keys, "", 0), Err(TokenError::InvalidToken));
}

#[test]
fn token_has_three_parts_and_the_known_header() {
    let keys = Keys::new(b"secret");
    let token = generate_acces_token(&keys, "alice", 1000).unwrap();
    let parts: Vec<&str> = token.split('.').collect();
    assert_eq!(parts.len(), 3);
    assert_eq!(parts[0], "eyJ0eXAiOiJKV1QiLCJhbGciOiJIUzI1NiJ9");
    // {"username":"alice","company":"flexnotes","exp":8200}
    assert_eq!(parts[1], "eyJ1c2VybmFtZSI6ImFsaWNlIiwiY29tcGFueSI6ImZsZXhub3RlcyIsImV4cCI6ODIwMH0");
}

#[test]
fn expiry_that_does_not_fit_is_an_internal_error() {
    let keys = Keys::new(b"secret");
    assert_eq!(generate_acces_token(&keys, "alice", usize::MAX), Err(ApiError::InternalError));
    assert_eq!(generate_refresh_token(&keys, "alice", usize::MAX - 172799), Err(ApiError::InternalError));
}

#[test]
fn response_body_is_a_bearer() {
    let body = AuthResponseBody::new("a".to_string(), "r".to_string(), "alice".to_string());
    assert_eq!(body.access_token, "a");
    assert_eq!(body.refresh_token, "r");
    assert_eq!(body.username, "alice");
    assert_eq!(body.token_type, "Bearer");
}
