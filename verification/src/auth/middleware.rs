//! The trust boundary: from the `Authorization` header of a request to the
//! account that made it.

use crate::auth::bearer::{bearer_token, strip_bearer};
use crate::auth::{claims_for, jwt_decoded, verified_claims, verify_token, Claims, Keys};
use crate::error::ApiError;
use crate::models::user::{User, UserView};
use crate::repository::user_repo::{name_known, UserRepo};
use vstd::prelude::*;

verus! {

/// What the middleware attaches to a request that it lets through: the claims
/// of the token, and the user that they name.
#[derive(Debug, PartialEq, Eq)]
pub struct Authenticated {
    pub claims: Claims,
    pub user: User,
}

/// What the middleware answers to a request.
///
/// A request without the header is answered with `MissingCredential`. A token
/// that does not verify at `now` is answered with `Unathorized`, whether it is
/// malformed or expired. A token that verifies stands for the user that its
/// subject names: a reliable store resolves it exactly when it holds a user of
/// that name, and a token for a user that is gone is unauthorized too. What is
/// attached on success is the claims as they were read, and a stored user of
/// the name that is their subject.
pub open spec fn middleware_outcome(
    users: Seq<UserView>,
    reliable: bool,
    secret: Seq<u8>,
    authorization: Option<&str>,
    now: nat,
    caller: Result<Authenticated, ApiError>,
) -> bool {
    match authorization {
        None => caller matches Err(e) && e == ApiError::MissingCredential,
        Some(header) => match verified_claims(jwt_decoded(secret, bearer_token(header@)), now) {
            Err(_) => caller matches Err(e) && e == ApiError::Unathorized,
            Ok(claims) => {
                &&& reliable ==> (caller is Ok <==> name_known(users, claims.username))
                &&& match caller {
                    Ok(authenticated) => {
                        &&& authenticated.claims@ == claims
                        &&& authenticated.user@.username == claims.username
                        &&& users.contains(authenticated.user@)
                    },
                    Err(ApiError::Unathorized) => !name_known(users, claims.username),
                    Err(ApiError::InternalError) => !reliable,
                    Err(_) => false,
                }
            },
        },
    }
}

/// A token that reads as claims for `username` that have not expired at `now`
/// resolves to a stored user of that name, and to no other: the answer is
/// never `MissingCredential`, and it is `Unathorized` only where the store
/// holds no user of the name. A reliable store that holds one lets the request
/// through.
pub proof fn lemma_good_token_resolves(
    users: Seq<UserView>,
    reliable: bool,
    secret: Seq<u8>,
    header: &str,
    username: Seq<char>,
    exp: nat,
    now: nat,
    caller: Result<Authenticated, ApiError>,
)
    requires
        jwt_decoded(secret, bearer_token(header@)) == Some(claims_for(username, exp)),
        now <= exp,
        middleware_outcome(users, reliable, secret, Some(header), now, caller),
    ensures
        caller matches Ok(authenticated) ==> {
            &&& authenticated.claims@ == claims_for(username, exp)
            &&& authenticated.user@.username == username
            &&& users.contains(authenticated.user@)
        },
        caller matches Err(e) ==> {
            ||| e == ApiError::Unathorized && !name_known(users, username)
            ||| e == ApiError::InternalError && !reliable
        },
        reliable && name_known(users, username) ==> caller is Ok,
{
}

/// Resolves the caller of a request from its `Authorization` header, at the
/// time `now`. Nothing downstream verifies the token again.
pub fn auth_middleware<R: UserRepo>(
    repo: &R,
    keys: &Keys,
    authorization: Option<&str>,
    now: usize,
) -> (caller: Result<Authenticated, ApiError>)
    ensures
        middleware_outcome(repo.users(), repo.reliable(), keys@, authorization, now as nat, caller),
{
    let header = match authorization {
        Some(header) => header,
        None => {
            return Err(ApiError::MissingCredential);
        },
    };
    let claims = match verify_token(keys, strip_bearer(header), now) {
        Ok(claims) => claims,
        Err(_) => {
            return Err(ApiError::Unathorized);
        },
    };
    match repo.get_user(claims.username.as_str()) {
        Ok(user) => Ok(Authenticated { claims, user }),
        Err(ApiError::NotFound) => Err(ApiError::Unathorized),
        Err(e) => Err(e),
    }
}

} // verus!
