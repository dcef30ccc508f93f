//! Accounts.

use crate::models::oid::ObjectId;
use vstd::prelude::*;

verus! {

/// An account: who may sign in, and with which password hash.
#[derive(Debug, PartialEq, Eq)]
pub struct User {
    pub id: ObjectId,
    pub username: String,
    pub email: String,
    /// The salted hash of the password, never the password itself.
    pub password: String,
}

/// What a [`User`] holds.
pub struct UserView {
    pub id: ObjectId,
    pub username: Seq<char>,
    pub email: Seq<char>,
    pub password: Seq<char>,
}

/// The users of a collection, in the order in which it holds them.
pub type UserViews = Seq<UserView>;

impl View for User {
    type V = UserView;

    open spec fn view(&self) -> UserView {
        UserView {
            id: self.id,
            username: self.username@,
            email: self.email@,
            password: self.password@,
        }
    }
}

impl Clone for User {
    fn clone(&self) -> (copy: Self)
        ensures
            copy@ == self@,
    {
        User {
            id: self.id,
            username: self.username.clone(),
            email: self.email.clone(),
            password: self.password.clone(),
        }
    }
}

} // verus!
