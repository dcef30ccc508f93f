//! The credential store over a collection of a document store.

use crate::error::ApiError;
use crate::models::user::{User, UserView};
use crate::repository::user_collection::{user_at, UserCollection, UserFilter};
use crate::repository::user_repo::{clashes, is_named, name_known, taken, UserRepo};
use vstd::prelude::*;

verus! {

/// The credential store over a collection that is spoken to the way MongoDB
/// is: every operation becomes one call on the collection.
pub struct MongoUserRepo<C: UserCollection> {
    collection: C,
}

impl<C: UserCollection> MongoUserRepo<C> {
    /// The credential store over `collection`.
    pub fn new(collection: C) -> (store: Self)
        ensures
            store.users() == collection.users(),
            store.reliable() == collection.reliable(),
    {
        MongoUserRepo { collection }
    }
}

impl<C: UserCollection> UserRepo for MongoUserRepo<C> {
    closed spec fn users(&self) -> Seq<UserView> {
        self.collection.users()
    }

    closed spec fn reliable(&self) -> bool {
        self.collection.reliable()
    }

    fn get_user(&self, username: &str) -> (found: Result<User, ApiError>)
    {
        let filter = UserFilter::named(username);
        match self.collection.find_one(&filter) {
            Ok(Some(user)) => {
                proof {
                    let i = self.users().index_of(user@);
                    assert(is_named(self.users(), i, username@));
                }
                Ok(user)
            },
            Ok(None) => {
                assert forall|i: int| !is_named(self.users(), i, username@) by {
                    assert(!user_at(self.users(), i, filter));
                }
                Err(ApiError::NotFound)
            },
            Err(_) => Err(ApiError::InternalError),
        }
    }

    fn user_exist(&self, username: &str, email: &str) -> (answer: Result<bool, ApiError>)
    {
        let filter = UserFilter::named_or_reachable_at(username, email);
        match self.collection.find_one(&filter) {
            Ok(Some(user)) => {
                proof {
                    let i = self.users().index_of(user@);
                    assert(clashes(self.users(), i, username@, email@));
                }
                Ok(true)
            },
            Ok(None) => {
                assert forall|i: int| !clashes(self.users(), i, username@, email@) by {
                    assert(!user_at(self.users(), i, filter));
                }
                Ok(false)
            },
            Err(_) => Err(ApiError::InternalError),
        }
    }

    fn create_user(&mut self, user: &User) -> (created: Result<User, ApiError>)
    {
        match self.collection.insert_one(user) {
            Ok(()) => Ok(user.clone()),
            Err(_) => Err(ApiError::InternalError),
        }
    }
}

} // verus!
