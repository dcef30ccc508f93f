//! The stores: what each of them does for the service, what it asks of the
//! document store behind it, and a document store that lives in memory.
//!
//! The contracts speak of the sequence of documents that a collection holds.
//! A backend that can lose its connection may fail at any call; one that
//! calls itself reliable may not.

pub mod memory_notes;
pub mod memory_todo_lists;
pub mod memory_users;
pub mod note_collection;
pub mod note_repo;
pub mod note_store;
pub mod todo_collection;
pub mod todo_repo;
pub mod todo_store;
pub mod user_collection;
pub mod user_repo;
pub mod user_store;

use vstd::prelude::*;

verus! {

/// The document store failed: the connection broke, or the store refused the
/// operation. What went wrong is for the log, not for the caller.
#[derive(Debug, Clone, Copy, PartialEq, Eq, Structural)]
pub struct StoreError;

} // verus!
