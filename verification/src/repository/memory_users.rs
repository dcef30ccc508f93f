//! A collection of users that lives in memory.

use crate::models::user::{User, UserView};
use crate::repository::user_collection::{user_at, UserCollection, UserFilter};
use crate::repository::user_repo::same_user_id;
use crate::repository::StoreError;
use vstd::prelude::*;

verus! {

/// A collection of users that lives in memory, in the order in which the
/// users were inserted. It has no connection to lose: the one call that can
/// fail is an insert under an identifier that is already in use.
pub struct MemoryUsers {
    users: Vec<User>,
}

/// Whether `user` passes the filter.
fn accepts(filter: &UserFilter, user: &User) -> (passes: bool)
    ensures
        passes == filter.matches(user@),
{
    match filter {
        UserFilter::Named(username) => user.username == *username,
        UserFilter::NamedOrReachableAt(username, email) => {
            user.username == *username || user.email == *email
        },
    }
}

impl MemoryUsers {
    /// A collection without users.
    pub fn new() -> (collection: Self)
        ensures
            collection.users() == Seq::<UserView>::empty(),
            collection.reliable(),
    {
        let collection = MemoryUsers { users: Vec::new() };
        assert(collection.users() =~= Seq::<UserView>::empty());
        collection
    }

    /// How many users the collection holds.
    pub fn len(&self) -> (n: usize)
        ensures
            n == self.users().len(),
    {
        self.users.len()
    }
}

impl UserCollection for MemoryUsers {
    closed spec fn users(&self) -> Seq<UserView> {
        self.users@.map_values(|u: User| u@)
    }

    open spec fn reliable(&self) -> bool {
        true
    }

    /// The first user that passes the filter.
    fn find_one(&self, filter: &UserFilter) -> (found: Result<Option<User>, StoreError>)
    {
        let mut i: usize = 0;
        while i < self.users.len()
            invariant
                i <= self.users.len(),
                forall|j: int| 0 <= j < i ==> !user_at(self.users(), j, *filter),
            decreases self.users.len() - i,
        {
            if accepts(filter, &self.users[i]) {
                let user = self.users[i].clone();
                assert(self.users()[i as int] == user@);
                return Ok(Some(user));
            }
            i += 1;
        }
        Ok(None)
    }

    fn insert_one(&mut self, user: &User) -> (inserted: Result<(), StoreError>)
    {
        let mut i: usize = 0;
        while i < self.users.len()
            invariant
                i <= self.users.len(),
                forall|j: int| 0 <= j < i ==> !same_user_id(self.users(), j, user.id),
            decreases self.users.len() - i,
        {
            if self.users[i].id == user.id {
                assert(same_user_id(self.users(), i as int, user.id));
                return Err(StoreError);
            }
            i += 1;
        }
        self.users.push(user.clone());
        assert(self.users() =~= old(self).users().push(user@));
        Ok(())
    }
}

} // verus!
