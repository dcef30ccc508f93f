//! Notes.

use crate::models::oid::ObjectId;
use crate::models::{clone_texts, texts};
use vstd::prelude::*;

verus! {

/// A note of one account, with the todo lists pinned to it.
#[derive(Debug, PartialEq, Eq)]
pub struct Note {
    pub id: ObjectId,
    /// The owner.
    pub user_id: ObjectId,
    pub title: String,
    pub content: String,
    pub tags: Vec<String>,
    /// The pinned todo lists, in the order in which they were pinned.
    pub todo_lists: Vec<ObjectId>,
}

/// What a [`Note`] holds.
pub struct NoteView {
    pub id: ObjectId,
    pub user_id: ObjectId,
    pub title: Seq<char>,
    pub content: Seq<char>,
    pub tags: Seq<Seq<char>>,
    pub todo_lists: Seq<ObjectId>,
}

/// The notes of a collection, in the order in which it holds them.
pub type NoteViews = Seq<NoteView>;

impl View for Note {
    type V = NoteView;

    open spec fn view(&self) -> NoteView {
        NoteView {
            id: self.id,
            user_id: self.user_id,
            title: self.title@,
            content: self.content@,
            tags: texts(self.tags@),
            todo_lists: self.todo_lists@,
        }
    }
}

impl Clone for Note {
    fn clone(&self) -> (copy: Self)
        ensures
            copy@ == self@,
    {
        Note {
            id: self.id,
            user_id: self.user_id,
            title: self.title.clone(),
            content: self.content.clone(),
            tags: clone_texts(&self.tags),
            todo_lists: self.todo_lists.clone(),
        }
    }
}

} // verus!
