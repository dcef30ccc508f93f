//! Registration and login.

use crate::auth::password::{bcrypt_hash, check_password, hashed_password, password_matches};
use crate::auth::{can_issue, is_session, issue_session, AuthResponseBody, Keys};
use crate::error::ApiError;
use crate::models::oid::ObjectId;
use crate::models::user::{User, UserView};
use crate::repository::user_repo::{
    clashes, is_named, name_known, taken, unused_id, UserRepo,
};
use vstd::prelude::*;

verus! {

/// Whether `after` is `before` with one more user at its end, who goes by
/// `username`, has the address `email`, and whose stored hash accepts
/// `password`.
pub open spec fn registered(
    before: Seq<UserView>,
    after: Seq<UserView>,
    username: Seq<char>,
    email: Seq<char>,
    password: Seq<char>,
) -> bool {
    &&& after.len() == before.len() + 1
    &&& after.drop_last() == before
    &&& after.last().username == username
    &&& after.last().email == email
    &&& password_matches(password, after.last().password) == Some(true)
}

/// Whether some user goes by `username` and comparing `password` with that
/// user's stored hash has the outcome `outcome`.
pub open spec fn password_outcome(
    users: Seq<UserView>,
    username: Seq<char>,
    password: Seq<char>,
    outcome: Option<bool>,
) -> bool {
    exists|i: int|
        is_named(users, i, username) && password_matches(password, users[i].password) == outcome
}

/// What a registration answers and does.
///
/// An empty field is answered with `MissingCredential`, whatever else holds.
/// A username or an email address that is in use is answered with
/// `UserExist`. Neither changes the store. Success means that the user was
/// stored and a pair of tokens issued. An internal error comes from a store
/// that failed, from a password that could not be hashed or a user that could
/// not be stored, or, after the user was stored, from tokens that could not
/// be issued.
pub open spec fn register_outcome(
    before: Seq<UserView>,
    after: Seq<UserView>,
    reliable: bool,
    secret: Seq<u8>,
    username: Seq<char>,
    email: Seq<char>,
    password: Seq<char>,
    now: nat,
    answer: Result<AuthResponseBody, ApiError>,
) -> bool {
    let incomplete = username.len() == 0 || email.len() == 0 || password.len() == 0;
    &&& incomplete ==> answer == Err::<AuthResponseBody, ApiError>(ApiError::MissingCredential)
    &&& !incomplete && reliable && taken(before, username, email) ==> answer == Err::<
        AuthResponseBody,
        ApiError,
    >(ApiError::UserExist)
    &&& match answer {
        Ok(body) => {
            &&& !incomplete
            &&& !taken(before, username, email)
            &&& registered(before, after, username, email, password)
            &&& is_session(body, secret, username, now)
        },
        Err(ApiError::MissingCredential) => incomplete && after == before,
        Err(ApiError::UserExist) => taken(before, username, email) && after == before,
        Err(ApiError::InternalError) => {
            ||| !reliable
            ||| !taken(before, username, email) && after == before
            ||| {
                &&& !taken(before, username, email)
                &&& registered(before, after, username, email, password)
                &&& !can_issue(secret, username, now)
            }
        },
        Err(_) => false,
    }
}

/// Whether no two users share a username, and no two an email address.
pub open spec fn unique_users(users: Seq<UserView>) -> bool {
    forall|i: int, j: int|
        0 <= i < j < users.len() ==> users[i].username != users[j].username && users[i].email
            != users[j].email
}

/// Registration keeps usernames and email addresses unique: where no two
/// users share either, none do after a registration, however it ends, unless
/// it ends in the failure of an unreliable store.
pub proof fn lemma_registration_keeps_users_unique(
    before: Seq<UserView>,
    after: Seq<UserView>,
    reliable: bool,
    secret: Seq<u8>,
    username: Seq<char>,
    email: Seq<char>,
    password: Seq<char>,
    now: nat,
    answer: Result<AuthResponseBody, ApiError>,
)
    requires
        unique_users(before),
        register_outcome(
            before,
            after,
            reliable,
            secret,
            username,
            email,
            password,
            now,
            answer,
        ),
    ensures
        reliable || !(answer matches Err(ApiError::InternalError)) ==> unique_users(after),
{
    if after != before && (reliable || !(answer matches Err(ApiError::InternalError))) {
        assert(registered(before, after, username, email, password) && !taken(
            before,
            username,
            email,
        ));
        let last = after.len() - 1;
        assert forall|i: int, j: int| 0 <= i < j < after.len() implies after[i].username
            != after[j].username && after[i].email != after[j].email by {
            assert(after.drop_last()[i] == after[i]);
            if j == last {
                assert(!clashes(before, i, username, email));
            } else {
                assert(after.drop_last()[j] == after[j]);
            }
        }
    }
}

/// What a login answers.
///
/// An empty field is answered with `MissingCredential`. An unknown username
/// and a password that the stored hash rejects are both answered with
/// `Unathorized`. Success means that a user of that name has a hash that
/// accepts the password, and that a pair of tokens was issued. An internal
/// error comes from a store that failed, from a stored hash that could not be
/// compared with, or from tokens that could not be issued.
pub open spec fn login_outcome(
    users: Seq<UserView>,
    reliable: bool,
    secret: Seq<u8>,
    username: Seq<char>,
    password: Seq<char>,
    now: nat,
    answer: Result<AuthResponseBody, ApiError>,
) -> bool {
    let incomplete = username.len() == 0 || password.len() == 0;
    &&& incomplete ==> answer == Err::<AuthResponseBody, ApiError>(ApiError::MissingCredential)
    &&& !incomplete && reliable && !name_known(users, username) ==> answer == Err::<
        AuthResponseBody,
        ApiError,
    >(ApiError::Unathorized)
    &&& match answer {
        Ok(body) => {
            &&& !incomplete
            &&& password_outcome(users, username, password, Some(true))
            &&& is_session(body, secret, username, now)
        },
        Err(ApiError::MissingCredential) => incomplete,
        Err(ApiError::Unathorized) => {
            ||| !name_known(users, username)
            ||| password_outcome(users, username, password, Some(false))
        },
        Err(ApiError::InternalError) => {
            ||| !reliable
            ||| password_outcome(users, username, password, None)
            ||| password_outcome(users, username, password, Some(true)) && !can_issue(
                secret,
                username,
                now,
            )
        },
        Err(_) => false,
    }
}

/// Whether an answer is the error `expected`, or the internal error of a
/// store that failed.
pub open spec fn refused_or_failed(
    answer: Result<AuthResponseBody, ApiError>,
    expected: ApiError,
    reliable: bool,
) -> bool {
    answer matches Err(e) && (e == expected || (e == ApiError::InternalError && !reliable))
}

/// Once an account is registered, its username and its email address are
/// taken: no later registration under the same username, whatever its email
/// address, or under the same email address, whatever its username,
/// succeeds. One with an empty field is answered with `MissingCredential`;
/// every other with `UserExist`, unless the store itself failed. A reliable
/// store stays as it was.
pub proof fn lemma_second_registration_is_rejected(
    before: Seq<UserView>,
    between: Seq<UserView>,
    after: Seq<UserView>,
    reliable: bool,
    secret: Seq<u8>,
    username: Seq<char>,
    email: Seq<char>,
    password: Seq<char>,
    now: nat,
    first: Result<AuthResponseBody, ApiError>,
    second_username: Seq<char>,
    second_email: Seq<char>,
    second_password: Seq<char>,
    later: nat,
    second: Result<AuthResponseBody, ApiError>,
)
    requires
        register_outcome(
            before,
            between,
            reliable,
            secret,
            username,
            email,
            password,
            now,
            first,
        ),
        first is Ok,
        register_outcome(
            between,
            after,
            reliable,
            secret,
            second_username,
            second_email,
            second_password,
            later,
            second,
        ),
        second_username == username || second_email == email,
    ensures
        if second_username.len() == 0 || second_email.len() == 0 || second_password.len() == 0 {
            second == Err::<AuthResponseBody, ApiError>(ApiError::MissingCredential)
        } else {
            refused_or_failed(second, ApiError::UserExist, reliable)
        },
        reliable || !(second matches Err(ApiError::InternalError)) ==> after == between,
{
    let last = between.len() - 1;
    assert(clashes(between, last, second_username, second_email));
}

/// A login under the name of the user at position `i`, the only one of that
/// name, with a password whose comparison with that user's hash has the
/// outcome `matches`.
proof fn lemma_login_of_the_only_user(
    users: Seq<UserView>,
    i: int,
    reliable: bool,
    secret: Seq<u8>,
    password: Seq<char>,
    now: nat,
    answer: Result<AuthResponseBody, ApiError>,
    matches: bool,
)
    requires
        0 <= i < users.len(),
        forall|j: int| is_named(users, j, users[i].username) ==> j == i,
        password_matches(password, users[i].password) == Some(matches),
        login_outcome(users, reliable, secret, users[i].username, password, now, answer),
    ensures
        answer matches Ok(body) ==> matches && is_session(body, secret, users[i].username, now),
        answer matches Err(ApiError::Unathorized) ==> !matches,
        users[i].username.len() > 0 && password.len() > 0 && reliable && !matches ==> answer
            == Err::<AuthResponseBody, ApiError>(ApiError::Unathorized),
        users[i].username.len() > 0 && password.len() > 0 && reliable && matches && can_issue(
            secret,
            users[i].username,
            now,
        ) ==> answer is Ok,
{
    assert(is_named(users, i, users[i].username));
}

/// Where usernames are unique, the user at position `i` is the only one of
/// its name.
proof fn lemma_only_user_of_its_name(users: Seq<UserView>, i: int)
    requires
        0 <= i < users.len(),
        unique_users(users),
    ensures
        forall|j: int| is_named(users, j, users[i].username) ==> j == i,
{
    assert forall|j: int| is_named(users, j, users[i].username) implies j == i by {
        if j < i {
            assert(users[j].username != users[i].username);
        } else if i < j {
            assert(users[i].username != users[j].username);
        }
    }
}

/// A login with the password that the stored hash of the user accepts is
/// never answered with `Unathorized`, and what it answers on success is a
/// session whose tokens have the username as their subject. With a reliable
/// store and complete fields it succeeds whenever the tokens can be issued.
pub proof fn lemma_login_with_the_right_password(
    users: Seq<UserView>,
    i: int,
    reliable: bool,
    secret: Seq<u8>,
    password: Seq<char>,
    now: nat,
    answer: Result<AuthResponseBody, ApiError>,
)
    requires
        0 <= i < users.len(),
        unique_users(users),
        password_matches(password, users[i].password) == Some(true),
        login_outcome(users, reliable, secret, users[i].username, password, now, answer),
    ensures
        answer matches Ok(body) ==> is_session(body, secret, users[i].username, now),
        !(answer matches Err(ApiError::Unathorized)),
        users[i].username.len() > 0 && password.len() > 0 && reliable && can_issue(
            secret,
            users[i].username,
            now,
        ) ==> answer is Ok,
{
    lemma_only_user_of_its_name(users, i);
    lemma_login_of_the_only_user(users, i, reliable, secret, password, now, answer, true);
}

/// A login with a password that the stored hash of the user rejects never
/// succeeds, so it yields no token. With complete fields the answer is
/// `Unathorized`, unless the store itself failed.
pub proof fn lemma_login_with_a_wrong_password(
    users: Seq<UserView>,
    i: int,
    reliable: bool,
    secret: Seq<u8>,
    password: Seq<char>,
    now: nat,
    answer: Result<AuthResponseBody, ApiError>,
)
    requires
        0 <= i < users.len(),
        unique_users(users),
        password_matches(password, users[i].password) == Some(false),
        login_outcome(users, reliable, secret, users[i].username, password, now, answer),
    ensures
        answer is Err,
        users[i].username.len() > 0 && password.len() > 0 ==> refused_or_failed(
            answer,
            ApiError::Unathorized,
            reliable,
        ),
{
    lemma_only_user_of_its_name(users, i);
    lemma_login_of_the_only_user(users, i, reliable, secret, password, now, answer, false);
}

/// A registration that succeeded is one to sign in with: the store that it
/// leaves behind holds one user of the name, and the stored hash accepts the
/// password. A login with the same username and password is never answered
/// with `Unathorized`, and with a reliable store it succeeds whenever the
/// tokens can be issued.
pub proof fn lemma_registered_can_log_in(
    before: Seq<UserView>,
    after: Seq<UserView>,
    reliable: bool,
    secret: Seq<u8>,
    username: Seq<char>,
    email: Seq<char>,
    password: Seq<char>,
    now: nat,
    first: Result<AuthResponseBody, ApiError>,
    later: nat,
    answer: Result<AuthResponseBody, ApiError>,
)
    requires
        register_outcome(
            before,
            after,
            reliable,
            secret,
            username,
            email,
            password,
            now,
            first,
        ),
        first is Ok,
        login_outcome(after, reliable, secret, username, password, later, answer),
    ensures
        answer matches Ok(body) ==> is_session(body, secret, username, later),
        !(answer matches Err(ApiError::Unathorized)),
        reliable && can_issue(secret, username, later) ==> answer is Ok,
{
    let last = after.len() - 1;
    assert(is_named(after, last, username));
    assert forall|j: int| is_named(after, j, username) implies j == last by {
        if j != last {
            assert(after.drop_last()[j] == after[j]);
            assert(clashes(before, j, username, email));
        }
    }
    lemma_login_of_the_only_user(after, last, reliable, secret, password, later, answer, true);
}

/// The user that a registration stores.
pub open spec fn new_user(
    id: ObjectId,
    username: Seq<char>,
    email: Seq<char>,
    hash: Seq<char>,
) -> UserView {
    UserView { id, username, email, password: hash }
}

/// What the second half of a registration answers and does, once the fields
/// are known to be complete and free: given the identifier drawn for the user
/// and what hashing the password returned.
///
/// With a reliable store it succeeds exactly when the password could be
/// hashed, no user has the identifier, and both tokens can be issued. The user
/// that it stores has the identifier, the username, the email address and the
/// hash, and goes to the end. A password that could not be hashed and an
/// identifier in use leave the store as it was; tokens that cannot be issued
/// are found out after the user was stored.
pub open spec fn register_hashed_outcome(
    before: Seq<UserView>,
    after: Seq<UserView>,
    reliable: bool,
    secret: Seq<u8>,
    id: ObjectId,
    username: Seq<char>,
    email: Seq<char>,
    hashed: Result<String, bcrypt::BcryptError>,
    now: nat,
    answer: Result<AuthResponseBody, ApiError>,
) -> bool {
    &&& reliable ==> (answer is Ok <==> hashed is Ok && unused_id(before, id) && can_issue(
        secret,
        username,
        now,
    ))
    &&& match answer {
        Ok(body) => {
            &&& hashed matches Ok(hash) && after == before.push(
                new_user(id, username, email, hash@),
            )
            &&& unused_id(before, id) || !reliable
            &&& is_session(body, secret, username, now)
        },
        Err(e) => {
            &&& e == ApiError::InternalError
            &&& match hashed {
                Ok(hash) => reliable ==> if unused_id(before, id) {
                    after == before.push(new_user(id, username, email, hash@))
                } else {
                    after == before
                },
                Err(_) => after == before,
            }
        },
    }
}

/// Stores the user of a registration and signs it in, given the identifier
/// drawn for the user and what hashing the password returned.
/// [`register_user`] is this once the fields are known to be complete and
/// free, under a new identifier and with the hash of the password.
pub fn register_hashed<R: UserRepo>(
    repo: &mut R,
    keys: &Keys,
    id: ObjectId,
    username: &str,
    email: &str,
    hashed: Result<String, bcrypt::BcryptError>,
    now: usize,
) -> (answer: Result<AuthResponseBody, ApiError>)
    ensures
        final(repo).reliable() == old(repo).reliable(),
        register_hashed_outcome(
            old(repo).users(),
            final(repo).users(),
            old(repo).reliable(),
            keys@,
            id,
            username@,
            email@,
            hashed,
            now as nat,
            answer,
        ),
{
    let password = hashed_password(hashed)?;
    let user = User { id, username: username.to_owned(), email: email.to_owned(), password };
    repo.create_user(&user)?;
    issue_session(keys, username, now)
}

/// Registers a new account and signs it in.
///
/// Empty fields are rejected first. A username or an email address that is
/// in use is rejected next. Otherwise an identifier is drawn and the password
/// hashed, and [`register_hashed`] stores the user and issues the tokens.
pub fn register_user<R: UserRepo>(
    repo: &mut R,
    keys: &Keys,
    username: &str,
    email: &str,
    password: &str,
    now: usize,
) -> (answer: Result<AuthResponseBody, ApiError>)
    ensures
        final(repo).reliable() == old(repo).reliable(),
        register_outcome(
            old(repo).users(),
            final(repo).users(),
            old(repo).reliable(),
            keys@,
            username@,
            email@,
            password@,
            now as nat,
            answer,
        ),
{
    if username.is_empty() || email.is_empty() || password.is_empty() {
        return Err(ApiError::MissingCredential);
    }
    if repo.user_exist(username, email)? {
        return Err(ApiError::UserExist);
    }
    let id = ObjectId::new();
    let hashed = bcrypt_hash(password);
    let ghost with_user = match &hashed {
        Ok(hash) => old(repo).users().push(new_user(id, username@, email@, hash@)),
        Err(_) => old(repo).users(),
    };
    let answer = register_hashed(repo, keys, id, username, email, hashed, now);
    assert(with_user.drop_last() =~= old(repo).users() || with_user == old(repo).users());
    answer
}

/// Signs an account in.
///
/// Empty fields are rejected first. Then the user is looked up by name and
/// the password compared with the stored hash. No token is issued unless the
/// hash accepts the password.
pub fn login_user<R: UserRepo>(repo: &R, keys: &Keys, username: &str, password: &str, now: usize)
    -> (answer: Result<AuthResponseBody, ApiError>)
    ensures
        login_outcome(
            repo.users(),
            repo.reliable(),
            keys@,
            username@,
            password@,
            now as nat,
            answer,
        ),
{
    if username.is_empty() || password.is_empty() {
        return Err(ApiError::MissingCredential);
    }
    let user = match repo.get_user(username) {
        Ok(user) => user,
        Err(ApiError::NotFound) => {
            return Err(ApiError::Unathorized);
        },
        Err(e) => {
            return Err(e);
        },
    };
    proof {
        let i = repo.users().index_of(user@);
        assert(is_named(repo.users(), i, username@));
        assert(password_outcome(
            repo.users(),
            username@,
            password@,
            password_matches(password@, user.password@),
        ));
    }
    check_password(password, user.password.as_str())?;
    issue_session(keys, user.username.as_str(), now)
}

} // verus!
