//! Signed, time-bounded bearer tokens.
//!
//! A token carries [`Claims`] and an HMAC-SHA-256 signature over them. The
//! signing itself is done by the `jsonwebtoken` crate; what is decided here is
//! what goes into a token, how long it lives, and when a presented token is
//! turned away.

pub mod bearer;
pub mod middleware;
pub mod password;

pub use crate::auth::middleware::{auth_middleware, middleware_outcome, Authenticated};
use crate::error::ApiError;
use vstd::prelude::*;
use vstd::slice::slice_to_vec;

verus! {

/// Seconds for which an access token is valid: two hours.
pub const ACCESS_TOKEN_SECONDS: usize = 7200;

/// Seconds for which a refresh token is valid: two days.
pub const REFRESH_TOKEN_SECONDS: usize = 172800;

/// The issuer tag that every token of this service carries.
pub open spec fn issuer() -> Seq<char> {
    "flexnotes"@
}

/// The payload of a token.
#[derive(Debug, PartialEq, Eq)]
pub struct Claims {
    /// The subject: the account that the token was issued to.
    pub username: String,
    /// The issuer tag.
    pub company: String,
    /// The second, counted from the Unix epoch, after which the token is expired.
    pub exp: usize,
}

/// What [`Claims`] hold.
pub struct ClaimsView {
    pub username: Seq<char>,
    pub company: Seq<char>,
    pub exp: nat,
}

impl View for Claims {
    type V = ClaimsView;

    open spec fn view(&self) -> ClaimsView {
        ClaimsView { username: self.username@, company: self.company@, exp: self.exp as nat }
    }
}

/// The symmetric secret that tokens are signed and checked with.
pub struct Keys {
    secret: Vec<u8>,
}

impl View for Keys {
    type V = Seq<u8>;

    closed spec fn view(&self) -> Seq<u8> {
        self.secret@
    }
}

impl Keys {
    pub fn new(secret: &[u8]) -> (keys: Self)
        ensures
            keys@ == secret@,
    {
        Self { secret: slice_to_vec(secret) }
    }
}

/// What a successful login or registration answers with.
#[derive(Debug, PartialEq, Eq)]
pub struct AuthResponseBody {
    pub access_token: String,
    pub token_type: String,
    pub refresh_token: String,
    pub username: String,
}

impl AuthResponseBody {
    pub fn new(access_token: String, refresh_token: String, username: String) -> (body: Self)
        ensures
            body.access_token == access_token,
            body.token_type@ == "Bearer"@,
            body.refresh_token == refresh_token,
            body.username == username,
    {
        Self { access_token, token_type: "Bearer".to_owned(), refresh_token, username }
    }
}

/// Why a presented token was turned away.
#[derive(Debug, Clone, Copy, PartialEq, Eq, Structural)]
pub enum TokenError {
    /// The token is malformed, or its signature does not match.
    InvalidToken,
    /// The token is genuine, but its expiry lies in the past.
    TokenExpired,
}

/// The error type of the `jsonwebtoken` crate. A value of it is carried from
/// the call that failed to where the failure is answered, and never looked
/// into.
#[verifier::external_type_specification]
#[verifier::external_body]
pub struct ExTokenFailure(jsonwebtoken::errors::Error);

/// The compact token that `jsonwebtoken::encode` produces for these claims
/// under an HS256 header and this secret, or `None` where it reports an error.
pub uninterp spec fn jwt_encoded(secret: Seq<u8>, claims: ClaimsView) -> Option<Seq<char>>;

/// The claims that `jsonwebtoken::decode` reads from a token whose HS256
/// signature matches this secret, or `None` where it reports an error or the
/// payload lacks one of the three claims.
pub uninterp spec fn jwt_decoded(secret: Seq<u8>, token: Seq<char>) -> Option<ClaimsView>;

/// Calls `jsonwebtoken::encode` on a JSON object with the members `username`,
/// `company` and `exp`, in this order, under an HS256 header. The call computes
/// a function of its arguments, and the contract gives that function its name.
///
/// It also claims what the crate's pair of functions is for, and what its own
/// test `round_trip_claim` states: a token that `encode` made under a secret
/// is one that `decode` accepts under the same secret, and the payload that
/// comes out is the one that went in. `decode` recomputes the signature over
/// the first two parts and compares, and reads the payload from the JSON text
/// that `encode` wrote.
#[verifier::external_body]
fn sign_claims(secret: &[u8], claims: &Claims) -> (signed: Result<
    String,
    jsonwebtoken::errors::Error,
>)
    ensures
        match signed {
            Ok(token) => {
                &&& jwt_encoded(secret@, claims@) == Some(token@)
                &&& jwt_decoded(secret@, token@) == Some(claims@)
            },
            Err(_) => jwt_encoded(secret@, claims@) is None,
        },
{
    let mut payload = serde_json::Map::new();
    payload.insert("username".to_owned(), serde_json::Value::from(claims.username.as_str()));
    payload.insert("company".to_owned(), serde_json::Value::from(claims.company.as_str()));
    payload.insert("exp".to_owned(), serde_json::Value::from(claims.exp));
    let header = jsonwebtoken::Header::new(jsonwebtoken::Algorithm::HS256);
    jsonwebtoken::encode(&header, &payload, &jsonwebtoken::EncodingKey::from_secret(secret))
}

/// Calls `jsonwebtoken::decode` for HS256 with its own expiry check switched
/// off, so that the outcome depends on the token and the secret alone, and
/// reads the members `username`, `company` and `exp` of the payload. The
/// contract gives the outcome its name and claims nothing else of it.
#[verifier::external_body]
fn read_claims(secret: &[u8], token: &str) -> (read: Result<Claims, jsonwebtoken::errors::Error>)
    ensures
        match read {
            Ok(claims) => jwt_decoded(secret@, token@) == Some(claims@),
            Err(_) => jwt_decoded(secret@, token@) is None,
        },
{
    let mut validation = jsonwebtoken::Validation::new(jsonwebtoken::Algorithm::HS256);
    validation.validate_exp = false;
    let key = jsonwebtoken::DecodingKey::from_secret(secret);
    let payload = jsonwebtoken::decode::<serde_json::Value>(token, &key, &validation)?.claims;
    Ok(
        Claims {
            username: serde_json::from_value(payload["username"].clone())?,
            company: serde_json::from_value(payload["company"].clone())?,
            exp: serde_json::from_value(payload["exp"].clone())?,
        },
    )
}

/// The claims of a token for `username` that expires at `exp`.
pub open spec fn claims_for(username: Seq<char>, exp: nat) -> ClaimsView {
    ClaimsView { username, company: issuer(), exp }
}

/// The claims of a token issued to `username` at `now` for `lifetime` seconds,
/// or `None` where the expiry does not fit the machine's integers.
pub fn new_claims(username: &str, now: usize, lifetime: usize) -> (claims: Option<Claims>)
    ensures
        match claims {
            Some(c) => now + lifetime <= usize::MAX && c@ == claims_for(
                username@,
                (now + lifetime) as nat,
            ),
            None => now + lifetime > usize::MAX,
        },
{
    match now.checked_add(lifetime) {
        Some(exp) => Some(
            Claims { username: username.to_owned(), company: "flexnotes".to_owned(), exp },
        ),
        None => None,
    }
}

/// What issuing a token answers, given what the signing primitive returned.
pub fn signed_token(signed: Result<String, jsonwebtoken::errors::Error>) -> (token: Result<
    String,
    ApiError,
>)
    ensures
        match signed {
            Ok(t) => token == Ok::<String, ApiError>(t),
            Err(_) => token == Err::<String, ApiError>(ApiError::InternalError),
        },
{
    match signed {
        Ok(t) => Ok(t),
        Err(_) => Err(ApiError::InternalError),
    }
}

/// The token issued to `username` at `now` for `lifetime` seconds under
/// `secret`: the signed claims, or an internal error where the expiry does not
/// fit the machine's integers or the signing primitive fails.
pub open spec fn issued_token(secret: Seq<u8>, username: Seq<char>, now: nat, lifetime: nat)
    -> Result<Seq<char>, ApiError> {
    if now + lifetime > usize::MAX {
        Err(ApiError::InternalError)
    } else {
        match jwt_encoded(secret, claims_for(username, now + lifetime)) {
            Some(token) => Ok(token),
            None => Err(ApiError::InternalError),
        }
    }
}

/// The contents of the outcome of issuing a token.
pub open spec fn token_view(token: Result<String, ApiError>) -> Result<Seq<char>, ApiError> {
    match token {
        Ok(t) => Ok(t@),
        Err(e) => Err(e),
    }
}

fn issue_token(keys: &Keys, username: &str, now: usize, lifetime: usize) -> (token: Result<
    String,
    ApiError,
>)
    ensures
        token_view(token) == issued_token(keys@, username@, now as nat, lifetime as nat),
        token matches Ok(t) ==> jwt_decoded(keys@, t@) == Some(
            claims_for(username@, (now + lifetime) as nat),
        ),
{
    match new_claims(username, now, lifetime) {
        Some(claims) => signed_token(sign_claims(keys.secret.as_slice(), &claims)),
        None => Err(ApiError::InternalError),
    }
}

/// Issues an access token for `username` at the time `now`, valid for two hours.
///
/// The token that comes out reads back as claims for `username` that expire
/// two hours after `now`. Verified at `now`, it yields those claims: their
/// subject is `username` and their expiry lies in the future.
pub fn generate_acces_token(keys: &Keys, username: &str, now: usize) -> (token: Result<
    String,
    ApiError,
>)
    ensures
        token_view(token) == issued_token(
            keys@,
            username@,
            now as nat,
            ACCESS_TOKEN_SECONDS as nat,
        ),
        token matches Ok(t) ==> jwt_decoded(keys@, t@) == Some(
            claims_for(username@, (now + ACCESS_TOKEN_SECONDS) as nat),
        ),
        token matches Ok(t) ==> verified_claims(jwt_decoded(keys@, t@), now as nat) == Ok::<
            ClaimsView,
            TokenError,
        >(claims_for(username@, (now + ACCESS_TOKEN_SECONDS) as nat)),
        token is Ok ==> claims_for(username@, (now + ACCESS_TOKEN_SECONDS) as nat).exp > now,
{
    issue_token(keys, username, now, ACCESS_TOKEN_SECONDS)
}

/// Issues a refresh token for `username` at the time `now`, valid for two days.
///
/// The token that comes out reads back as claims for `username` that expire
/// two days after `now`. Verified at `now`, it yields those claims.
pub fn generate_refresh_token(keys: &Keys, username: &str, now: usize) -> (token: Result<
    String,
    ApiError,
>)
    ensures
        token_view(token) == issued_token(
            keys@,
            username@,
            now as nat,
            REFRESH_TOKEN_SECONDS as nat,
        ),
        token matches Ok(t) ==> jwt_decoded(keys@, t@) == Some(
            claims_for(username@, (now + REFRESH_TOKEN_SECONDS) as nat),
        ),
        token matches Ok(t) ==> verified_claims(jwt_decoded(keys@, t@), now as nat) == Ok::<
            ClaimsView,
            TokenError,
        >(claims_for(username@, (now + REFRESH_TOKEN_SECONDS) as nat)),
        token is Ok ==> claims_for(username@, (now + REFRESH_TOKEN_SECONDS) as nat).exp > now,
{
    issue_token(keys, username, now, REFRESH_TOKEN_SECONDS)
}

/// Whether `body` is the answer to a sign-in of `username` at `now`: a bearer
/// answer with an access token and a refresh token issued at that time, each
/// of which reads back as claims with `username` as their subject.
pub open spec fn is_session(body: AuthResponseBody, secret: Seq<u8>, username: Seq<char>, now: nat)
    -> bool {
    &&& body.username@ == username
    &&& body.token_type@ == "Bearer"@
    &&& issued_token(secret, username, now, ACCESS_TOKEN_SECONDS as nat) == Ok::<
        Seq<char>,
        ApiError,
    >(body.access_token@)
    &&& issued_token(secret, username, now, REFRESH_TOKEN_SECONDS as nat) == Ok::<
        Seq<char>,
        ApiError,
    >(body.refresh_token@)
    &&& jwt_decoded(secret, body.access_token@) == Some(
        claims_for(username, now + ACCESS_TOKEN_SECONDS as nat),
    )
    &&& jwt_decoded(secret, body.refresh_token@) == Some(
        claims_for(username, now + REFRESH_TOKEN_SECONDS as nat),
    )
}

/// Whether both tokens of a sign-in of `username` at `now` can be issued.
pub open spec fn can_issue(secret: Seq<u8>, username: Seq<char>, now: nat) -> bool {
    &&& issued_token(secret, username, now, ACCESS_TOKEN_SECONDS as nat) is Ok
    &&& issued_token(secret, username, now, REFRESH_TOKEN_SECONDS as nat) is Ok
}

/// Issues the pair of tokens that signs `username` in at the time `now`.
pub fn issue_session(keys: &Keys, username: &str, now: usize) -> (session: Result<
    AuthResponseBody,
    ApiError,
>)
    ensures
        match session {
            Ok(body) => is_session(body, keys@, username@, now as nat),
            Err(e) => e == ApiError::InternalError && !can_issue(keys@, username@, now as nat),
        },
{
    let access_token = generate_acces_token(keys, username, now)?;
    let refresh_token = generate_refresh_token(keys, username, now)?;
    Ok(AuthResponseBody::new(access_token, refresh_token, username.to_owned()))
}

/// Whether claims are still good at the time `now`: they are expired exactly
/// when their expiry lies before `now`.
pub open spec fn checked_claims(claims: ClaimsView, now: nat) -> Result<ClaimsView, TokenError> {
    if claims.exp < now {
        Err(TokenError::TokenExpired)
    } else {
        Ok(claims)
    }
}

/// What verifying a token answers at the time `now`, given what reading it
/// gave: a token that could not be read is invalid, one that could is checked
/// against the clock, whatever the signing primitive thinks of its expiry.
pub open spec fn verified_claims(read: Option<ClaimsView>, now: nat) -> Result<
    ClaimsView,
    TokenError,
> {
    match read {
        Some(claims) => checked_claims(claims, now),
        None => Err(TokenError::InvalidToken),
    }
}

/// A token that reads as claims for `username` with the expiry `exp` verifies
/// at every time up to and including `exp`, with `username` as its subject,
/// and at no later time: from then on it is expired, not invalid.
pub proof fn lemma_verifies_until_expiry(
    secret: Seq<u8>,
    token: Seq<char>,
    username: Seq<char>,
    exp: nat,
    now: nat,
)
    requires
        jwt_decoded(secret, token) == Some(claims_for(username, exp)),
    ensures
        now <= exp ==> verified_claims(jwt_decoded(secret, token), now) == Ok::<
            ClaimsView,
            TokenError,
        >(claims_for(username, exp)),
        now > exp ==> verified_claims(jwt_decoded(secret, token), now) == Err::<
            ClaimsView,
            TokenError,
        >(TokenError::TokenExpired),
        claims_for(username, exp).username == username,
{
}

/// The contents of the outcome of verifying a token.
pub open spec fn claims_view(claims: Result<Claims, TokenError>) -> Result<
    ClaimsView,
    TokenError,
> {
    match claims {
        Ok(c) => Ok(c@),
        Err(e) => Err(e),
    }
}

/// Decides on a token that was read, at the time `now`.
pub fn check_claims(read: Result<Claims, jsonwebtoken::errors::Error>, now: usize) -> (claims:
    Result<Claims, TokenError>)
    ensures
        match read {
            Ok(c) => claims_view(claims) == checked_claims(c@, now as nat),
            Err(_) => claims == Err::<Claims, TokenError>(TokenError::InvalidToken),
        },
{
    match read {
        Ok(c) => {
            if c.exp < now {
                Err(TokenError::TokenExpired)
            } else {
                Ok(c)
            }
        },
        Err(_) => Err(TokenError::InvalidToken),
    }
}

/// Verifies a token at the time `now`: its signature and structure first, then
/// its expiry.
pub fn verify_token(keys: &Keys, token: &str, now: usize) -> (claims: Result<Claims, TokenError>)
    ensures
        claims_view(claims) == verified_claims(jwt_decoded(keys@, token@), now as nat),
{
    check_claims(read_claims(keys.secret.as_slice(), token), now)
}

} // verus!
