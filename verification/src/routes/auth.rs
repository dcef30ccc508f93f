//! Login, registration and token refresh.

use crate::auth::bearer::bearer_token;
use crate::auth::middleware::{middleware_outcome, Authenticated};
use crate::auth::{
    can_issue, claims_for, generate_acces_token, generate_refresh_token, issued_token,
    jwt_decoded, verified_claims, verify_token, AuthResponseBody, ClaimsView, Keys, TokenError,
    ACCESS_TOKEN_SECONDS, REFRESH_TOKEN_SECONDS,
};
use crate::error::ApiError;
use crate::models::user::{User, UserView};
use crate::repository::user_repo::UserRepo;
use crate::services::user_service::{login_outcome, login_user, register_outcome, register_user};
use vstd::prelude::*;

verus! {

/// The body of a login request.
#[derive(Debug)]
pub struct AuthPayload {
    pub username: String,
    pub password: String,
}

/// The body of a registration request.
#[derive(Debug)]
pub struct RegisterPayload {
    pub username: String,
    pub email: String,
    pub password: String,
}

/// The body of a refresh request.
pub struct RefreshRequest {
    pub refresh_token: String,
}

/// The answer to a refresh request: a new pair of tokens.
pub struct RefreshResponse {
    pub acces_token: String,
    pub refresh_token: String,
}

/// Signs the account of `payload` in.
pub fn authorize<R: UserRepo>(repo: &R, keys: &Keys, payload: AuthPayload, now: usize) -> (answer:
    Result<AuthResponseBody, ApiError>)
    ensures
        login_outcome(
            repo.users(),
            repo.reliable(),
            keys@,
            payload.username@,
            payload.password@,
            now as nat,
            answer,
        ),
{
    login_user(repo, keys, payload.username.as_str(), payload.password.as_str(), now)
}

/// Registers the account of `payload` and signs it in.
pub fn register<R: UserRepo>(repo: &mut R, keys: &Keys, payload: RegisterPayload, now: usize)
    -> (answer: Result<AuthResponseBody, ApiError>)
    ensures
        final(repo).reliable() == old(repo).reliable(),
        register_outcome(
            old(repo).users(),
            final(repo).users(),
            old(repo).reliable(),
            keys@,
            payload.username@,
            payload.email@,
            payload.password@,
            now as nat,
            answer,
        ),
{
    register_user(
        repo,
        keys,
        payload.username.as_str(),
        payload.email.as_str(),
        payload.password.as_str(),
        now,
    )
}

/// What a refresh answers to a token at the time `now`.
///
/// An expired token is answered with `TokenExpired`, so that the client knows
/// to sign in again, and any other token that does not verify with
/// `Unathorized`. A token that verifies is answered with a new access token
/// and a new refresh token for its subject, both issued at `now`. The old
/// refresh token stays good until its own expiry.
pub open spec fn refresh_outcome(
    secret: Seq<u8>,
    token: Seq<char>,
    now: nat,
    answer: Result<RefreshResponse, ApiError>,
) -> bool {
    match verified_claims(jwt_decoded(secret, token), now) {
        Err(TokenError::TokenExpired) => answer matches Err(e) && e == ApiError::TokenExpired,
        Err(TokenError::InvalidToken) => answer matches Err(e) && e == ApiError::Unathorized,
        Ok(claims) => match answer {
            Ok(pair) => {
                &&& issued_token(secret, claims.username, now, ACCESS_TOKEN_SECONDS as nat) == Ok::<
                    Seq<char>,
                    ApiError,
                >(pair.acces_token@)
                &&& issued_token(secret, claims.username, now, REFRESH_TOKEN_SECONDS as nat)
                    == Ok::<Seq<char>, ApiError>(pair.refresh_token@)
                &&& jwt_decoded(secret, pair.acces_token@) == Some(
                    claims_for(claims.username, now + ACCESS_TOKEN_SECONDS as nat),
                )
                &&& jwt_decoded(secret, pair.refresh_token@) == Some(
                    claims_for(claims.username, now + REFRESH_TOKEN_SECONDS as nat),
                )
            },
            Err(e) => e == ApiError::InternalError && !can_issue(secret, claims.username, now),
        },
    }
}

/// Trades a refresh token for a new pair of tokens, at the time `now`.
pub fn refresh_token(keys: &Keys, payload: RefreshRequest, now: usize) -> (answer: Result<
    RefreshResponse,
    ApiError,
>)
    ensures
        refresh_outcome(keys@, payload.refresh_token@, now as nat, answer),
{
    match verify_token(keys, payload.refresh_token.as_str(), now) {
        Ok(claims) => {
            let acces_token = generate_acces_token(keys, claims.username.as_str(), now)?;
            let refresh_token = generate_refresh_token(keys, claims.username.as_str(), now)?;
            Ok(RefreshResponse { acces_token, refresh_token })
        },
        Err(TokenError::TokenExpired) => Err(ApiError::TokenExpired),
        Err(TokenError::InvalidToken) => Err(ApiError::Unathorized),
    }
}

/// A token whose expiry has passed is told apart from garbage where the
/// client can act on it, and nowhere else: a refresh answers `TokenExpired`,
/// the middleware answers `Unathorized`, whatever the store holds.
pub proof fn lemma_expired_token_is_turned_away(
    secret: Seq<u8>,
    header: &str,
    claims: ClaimsView,
    now: nat,
    users: Seq<UserView>,
    reliable: bool,
    refreshed: Result<RefreshResponse, ApiError>,
    caller: Result<Authenticated, ApiError>,
)
    requires
        jwt_decoded(secret, bearer_token(header@)) == Some(claims),
        claims.exp < now,
        refresh_outcome(secret, bearer_token(header@), now, refreshed),
        middleware_outcome(users, reliable, secret, Some(header), now, caller),
    ensures
        refreshed matches Err(e) && e == ApiError::TokenExpired,
        caller matches Err(e) && e == ApiError::Unathorized,
{
}

/// The status that a request answers with once the middleware has let it
/// through: accepted.
pub fn check_auth(user: &User) -> (status: Result<u16, ApiError>)
    ensures
        status == Ok::<u16, ApiError>(202),
{
    Ok(202)
}

} // verus!
