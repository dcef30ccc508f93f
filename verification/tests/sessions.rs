use flexnotes::auth::{
    auth_middleware, generate_acces_token, generate_refresh_token, issue_session, verify_token,
    Authenticated, Claims, Keys, TokenError,
};
use flexnotes::error::ApiError;
use flexnotes::models::oid::ObjectId;
use flexnotes::models::user::User;
use flexnotes::repository::memory_users::MemoryUsers;
use flexnotes::repository::user_collection::UserCollection;
use flexnotes::repository::user_store::MongoUserRepo;
use flexnotes::routes::auth::{check_auth, refresh_token, RefreshRequest};

const NOW: usize = 1_700_000_000;

fn alice() -> User {
    User {
        id: ObjectId::from_bytes([1; 12]),
        username: "alice".to_string(),
        email: "alice@x.com".to_string(),
        password: "hash".to_string(),
    }
}

fn users() -> MongoUserRepo<MemoryUsers> {
    let mut users = MemoryUsers::new();
    users.insert_one(&alice()).unwrap();
    MongoUserRepo::new(users)
}

fn authenticated(exp: usize) -> Authenticated {
    let claims = Claims { username: "alice".to_string(), company: "flexnotes".to_string(), exp };
    Authenticated { claims, user: alice() }
}

fn bearer(token: &str) -> String {
    format!("Bearer {}", token)
}

#[test]
fn issued_token_has_its_subject_and_a_future_expiry() {
    let keys = Keys::new(b"secret");
    for subject in ["alice", "a", "Zażółć gęślą jaźń", "with \"quotes\" and \\ and \n", "x.y@z"] {
        let token = generate_acces_token(&keys, subject, NOW).unwrap();
        let claims = verify_token(&keys, &token, NOW).unwrap();
        assert_eq!(claims.username, subject);
        assert!(claims.exp > NOW);
    }
}

#[test]
fn session_holds_both_tokens() {
    let keys = Keys::new(b"secret");
    let body = issue_session(&keys, "alice", NOW).unwrap();
    assert_eq!(body.access_token, generate_acces_token(&keys, "alice", NOW).unwrap());
    assert_eq!(body.refresh_token, generate_refresh_token(&keys, "alice", NOW).unwrap());
    assert_ne!(body.access_token, body.refresh_token);
    assert_eq!(body.username, "alice");
}

#[test]
fn refresh_rotates_the_pair() {
    let keys = Keys::new(b"secret");
    let old = generate_refresh_token(&keys, "alice", NOW).unwrap();
    let later = NOW + 3600;
    let pair = refresh_token(&keys, RefreshRequest { refresh_token: old.clone() }, later).ok().unwrap();
    let access = verify_token(&keys, &pair.acces_token, later).unwrap();
    assert_eq!(access.username, "alice");
    assert_eq!(access.exp, later + 7200);
    let refresh = verify_token(&keys, &pair.refresh_token, later).unwrap();
    assert_eq!(refresh.username, "alice");
    assert_eq!(refresh.exp, later + 172800);
    assert_ne!(pair.refresh_token, old);
    // The old refresh token is not revoked: it is good until its own expiry.
    assert!(refresh_token(&keys, RefreshRequest { refresh_token: old }, later).is_ok());
}

#[test]
fn refresh_with_an_expired_token() {
    let keys = Keys::new(b"secret");
    let old = generate_refresh_token(&keys, "alice", NOW).unwrap();
    let last = NOW + 172800;
    assert!(refresh_token(&keys, RefreshRequest { refresh_token: old.clone() }, last).is_ok());
    let answer = refresh_token(&keys, RefreshRequest { refresh_token: old }, last + 1);
    assert_eq!(answer.err(), Some(ApiError::TokenExpired));
}

#[test]
fn refresh_with_garbage() {
    let keys = Keys::new(b"secret");
    let answer = refresh_token(&keys, RefreshRequest { refresh_token: "garbage".to_string() }, NOW);
    assert_eq!(answer.err(), Some(ApiError::Unathorized));
    let forged = generate_refresh_token(&Keys::new(b"other"), "alice", NOW).unwrap();
    let answer = refresh_token(&keys, RefreshRequest { refresh_token: forged }, NOW);
    assert_eq!(answer.err(), Some(ApiError::Unathorized));
}

#[test]
fn refresh_with_a_tampered_token() {
    let keys = Keys::new(b"secret");
    let token = generate_refresh_token(&keys, "alice", NOW).unwrap();
    let other = generate_refresh_token(&keys, "mallory", NOW).unwrap();
    let parts: Vec<&str> = token.split('.').collect();
    let other_parts: Vec<&str> = other.split('.').collect();
    let tampered = format!("{}.{}.{}", parts[0], other_parts[1], parts[2]);
    assert_eq!(verify_token(&keys, &tampered, NOW), Err(TokenError::InvalidToken));
    let answer = refresh_token(&keys, RefreshRequest { refresh_token: tampered }, NOW);
    assert_eq!(answer.err(), Some(ApiError::Unathorized));
}

#[test]
fn middleware_resolves_the_caller() {
    let keys = Keys::new(b"secret");
    let repo = users();
    let token = generate_acces_token(&keys, "alice", NOW).unwrap();
    let caller = auth_middleware(&repo, &keys, Some(&bearer(&token)), NOW + 60);
    assert_eq!(caller, Ok(authenticated(NOW + 7200)));
    assert_eq!(check_auth(&caller.unwrap().user), Ok(202));
}

#[test]
fn middleware_takes_a_token_without_the_scheme() {
    let keys = Keys::new(b"secret");
    let repo = users();
    let token = generate_acces_token(&keys, "alice", NOW).unwrap();
    assert_eq!(auth_middleware(&repo, &keys, Some(&token), NOW), Ok(authenticated(NOW + 7200)));
}

#[test]
fn middleware_without_a_header() {
    let keys = Keys::new(b"secret");
    assert_eq!(auth_middleware(&users(), &keys, None, NOW), Err(ApiError::MissingCredential));
}

#[test]
fn middleware_with_an_expired_token() {
    let keys = Keys::new(b"secret");
    let repo = users();
    let token = generate_acces_token(&keys, "alice", NOW).unwrap();
    assert_eq!(
        auth_middleware(&repo, &keys, Some(&bearer(&token)), NOW + 7200),
        Ok(authenticated(NOW + 7200))
    );
    assert_eq!(
        auth_middleware(&repo, &keys, Some(&bearer(&token)), NOW + 7201),
        Err(ApiError::Unathorized)
    );
}

#[test]
fn middleware_with_garbage() {
    let keys = Keys::new(b"secret");
    let repo = users();
    assert_eq!(auth_middleware(&repo, &keys, Some("Bearer garbage"), NOW), Err(ApiError::Unathorized));
    assert_eq!(auth_middleware(&repo, &keys, Some(""), NOW), Err(ApiError::Unathorized));
    assert_eq!(auth_middleware(&repo, &keys, Some("Bearer "), NOW), Err(ApiError::Unathorized));
}

#[test]
fn middleware_with_a_token_for_a_user_that_is_gone() {
    let keys = Keys::new(b"secret");
    let repo = users();
    let token = generate_acces_token(&keys, "bob", NOW).unwrap();
    assert_eq!(
        auth_middleware(&repo, &keys, Some(&bearer(&token)), NOW),
        Err(ApiError::Unathorized)
    );
}

#[test]
fn middleware_with_a_token_of_another_key() {
    let repo = users();
    let token = generate_acces_token(&Keys::new(b"other"), "alice", NOW).unwrap();
    assert_eq!(
        auth_middleware(&repo, &Keys::new(b"secret"), Some(&bearer(&token)), NOW),
        Err(ApiError::Unathorized)
    );
}
