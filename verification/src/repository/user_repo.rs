//! The credential store.

use crate::error::ApiError;
use crate::models::oid::ObjectId;
use crate::models::user::{User, UserView};
pub use crate::repository::user_store::MongoUserRepo;
use vstd::prelude::*;

verus! {

/// Whether the user at position `i` goes by `username`.
pub open spec fn is_named(users: Seq<UserView>, i: int, username: Seq<char>) -> bool {
    0 <= i < users.len() && users[i].username == username
}

/// Whether some user goes by `username`.
pub open spec fn name_known(users: Seq<UserView>, username: Seq<char>) -> bool {
    exists|i: int| is_named(users, i, username)
}

/// Whether the user at position `i` has this username or this email address.
pub open spec fn clashes(users: Seq<UserView>, i: int, username: Seq<char>, email: Seq<char>)
    -> bool {
    0 <= i < users.len() && (users[i].username == username || users[i].email == email)
}

/// Whether the username or the email address is already in use.
pub open spec fn taken(users: Seq<UserView>, username: Seq<char>, email: Seq<char>) -> bool {
    exists|i: int| clashes(users, i, username, email)
}

/// Whether the user at position `i` has this identifier.
pub open spec fn same_user_id(users: Seq<UserView>, i: int, id: ObjectId) -> bool {
    0 <= i < users.len() && users[i].id == id
}

/// Whether no user has this identifier.
pub open spec fn unused_id(users: Seq<UserView>, id: ObjectId) -> bool {
    forall|i: int| !same_user_id(users, i, id)
}

/// What a credential store does.
pub trait UserRepo {
    /// The users that the store holds.
    spec fn users(&self) -> Seq<UserView>;

    /// Whether the store never answers with an internal error of its own.
    spec fn reliable(&self) -> bool;

    /// Looks a user up by name.
    fn get_user(&self, username: &str) -> (found: Result<User, ApiError>)
        ensures
            self.reliable() ==> (found is Ok <==> name_known(self.users(), username@)),
            match found {
                Ok(user) => user@.username == username@ && self.users().contains(user@),
                Err(ApiError::NotFound) => !name_known(self.users(), username@),
                Err(ApiError::InternalError) => !self.reliable(),
                Err(_) => false,
            },
    ;

    /// Tells whether the username or the email address is in use.
    fn user_exist(&self, username: &str, email: &str) -> (answer: Result<bool, ApiError>)
        ensures
            self.reliable() ==> answer is Ok,
            match answer {
                Ok(found) => found == taken(self.users(), username@, email@),
                Err(e) => e == ApiError::InternalError && !self.reliable(),
            },
    ;

    /// Stores a user as the last one. Identifiers are unique: a reliable store
    /// takes the user exactly when no user has its identifier. Usernames and
    /// email addresses are not looked at here: a registration does that first.
    fn create_user(&mut self, user: &User) -> (created: Result<User, ApiError>)
        ensures
            final(self).reliable() == old(self).reliable(),
            old(self).reliable() ==> (created is Ok <==> unused_id(old(self).users(), user.id)),
            match created {
                Ok(stored) => {
                    &&& stored@ == user@
                    &&& final(self).users() == old(self).users().push(user@)
                },
                Err(e) => {
                    &&& e == ApiError::InternalError
                    &&& old(self).reliable() ==> final(self).users() == old(self).users()
                },
            },
    ;
}

} // verus!
