//! The collection of users that a document store keeps: what the credential
//! store asks of its backend.

use crate::models::user::{User, UserView};
use crate::repository::user_repo::unused_id;
use crate::repository::StoreError;
use vstd::prelude::*;

verus! {

/// A filter on users.
#[derive(Debug)]
pub enum UserFilter {
    /// The users of this name.
    Named(String),
    /// The users that have this name or this email address.
    NamedOrReachableAt(String, String),
}

impl UserFilter {
    /// Whether `user` passes the filter.
    pub open spec fn matches(self, user: UserView) -> bool {
        match self {
            UserFilter::Named(username) => user.username == username@,
            UserFilter::NamedOrReachableAt(username, email) => {
                user.username == username@ || user.email == email@
            },
        }
    }

    /// The users of this name.
    pub fn named(username: &str) -> (filter: Self)
        ensures
            forall|user: UserView| filter.matches(user) <==> user.username == username@,
    {
        UserFilter::Named(username.to_owned())
    }

    /// The users that have this name or this email address.
    pub fn named_or_reachable_at(username: &str, email: &str) -> (filter: Self)
        ensures
            forall|user: UserView|
                filter.matches(user) <==> (user.username == username@ || user.email == email@),
    {
        UserFilter::NamedOrReachableAt(username.to_owned(), email.to_owned())
    }
}

/// Whether the user at position `i` passes the filter.
pub open spec fn user_at(users: Seq<UserView>, i: int, filter: UserFilter) -> bool {
    0 <= i < users.len() && filter.matches(users[i])
}

/// What looking for one user answers.
pub open spec fn find_user_outcome(
    users: Seq<UserView>,
    reliable: bool,
    filter: UserFilter,
    found: Result<Option<User>, StoreError>,
) -> bool {
    match found {
        Ok(Some(user)) => users.contains(user@) && filter.matches(user@),
        Ok(None) => forall|i: int| !user_at(users, i, filter),
        Err(_) => !reliable,
    }
}

/// What inserting a user answers and does. Identifiers are unique: a reliable
/// store takes the user exactly when no user has its identifier.
pub open spec fn insert_user_outcome(
    before: Seq<UserView>,
    after: Seq<UserView>,
    reliable: bool,
    user: UserView,
    inserted: Result<(), StoreError>,
) -> bool {
    &&& reliable ==> (inserted is Ok <==> unused_id(before, user.id))
    &&& match inserted {
        Ok(()) => after == before.push(user),
        Err(_) => reliable ==> after == before,
    }
}

/// A collection of users in a document store. Each call is one atomic
/// operation of the store.
pub trait UserCollection {
    /// The users that the collection holds.
    spec fn users(&self) -> Seq<UserView>;

    /// Whether the store never fails.
    spec fn reliable(&self) -> bool;

    /// A user that passes the filter.
    fn find_one(&self, filter: &UserFilter) -> (found: Result<Option<User>, StoreError>)
        ensures
            find_user_outcome(self.users(), self.reliable(), *filter, found),
    ;

    /// Inserts a user.
    fn insert_one(&mut self, user: &User) -> (inserted: Result<(), StoreError>)
        ensures
            final(self).reliable() == old(self).reliable(),
            insert_user_outcome(
                old(self).users(),
                final(self).users(),
                old(self).reliable(),
                user@,
                inserted,
            ),
    ;
}

} // verus!
