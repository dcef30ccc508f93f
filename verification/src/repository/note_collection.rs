//! The collection of notes that a document store keeps: what the note store
//! asks of its backend.

use crate::models::note::{Note, NoteView};
use crate::models::oid::ObjectId;
use crate::repository::note_repo::{
    distinct_note_ids, pinned, rewritten, unpinned, unused_note_id,
};
use crate::repository::StoreError;
use vstd::prelude::*;

verus! {

/// An equality filter on notes. A field that is `None` asks for nothing.
#[derive(Debug, Clone, Copy)]
pub struct NoteFilter {
    /// The identifier that the note must have.
    pub id: Option<ObjectId>,
    /// The owner that the note must have.
    pub user_id: Option<ObjectId>,
    /// A todo list that the note must refer to.
    pub todo_list: Option<ObjectId>,
}

impl NoteFilter {
    /// Whether `note` passes the filter.
    pub open spec fn matches(self, note: NoteView) -> bool {
        &&& self.id matches Some(id) ==> note.id == id
        &&& self.user_id matches Some(user_id) ==> note.user_id == user_id
        &&& self.todo_list matches Some(list_id) ==> note.todo_lists.contains(list_id)
    }

    /// The notes of one owner.
    pub fn of_owner(user_id: ObjectId) -> (filter: Self)
        ensures
            filter == (NoteFilter { id: None, user_id: Some(user_id), todo_list: None }),
    {
        NoteFilter { id: None, user_id: Some(user_id), todo_list: None }
    }

    /// The owner's note with this identifier.
    pub fn owned(note_id: ObjectId, user_id: ObjectId) -> (filter: Self)
        ensures
            filter == (NoteFilter { id: Some(note_id), user_id: Some(user_id), todo_list: None }),
    {
        NoteFilter { id: Some(note_id), user_id: Some(user_id), todo_list: None }
    }

    /// The owner's note with this identifier, where it refers to the list.
    pub fn owned_with_pin(note_id: ObjectId, user_id: ObjectId, todo_list_id: ObjectId) -> (filter:
        Self)
        ensures
            filter == (NoteFilter {
                id: Some(note_id),
                user_id: Some(user_id),
                todo_list: Some(todo_list_id),
            }),
    {
        NoteFilter { id: Some(note_id), user_id: Some(user_id), todo_list: Some(todo_list_id) }
    }
}

/// Whether the note at position `i` passes the filter.
pub open spec fn note_at(notes: Seq<NoteView>, i: int, filter: NoteFilter) -> bool {
    0 <= i < notes.len() && filter.matches(notes[i])
}

/// Whether some note passes the filter.
pub open spec fn any_note(notes: Seq<NoteView>, filter: NoteFilter) -> bool {
    exists|i: int| note_at(notes, i, filter)
}

/// Whether `note` is a note that passes the filter.
pub open spec fn selects(notes: Seq<NoteView>, filter: NoteFilter, note: NoteView) -> bool {
    exists|i: int| note_at(notes, i, filter) && notes[i] == note
}

/// The contents of what a query returned: a document that could not be read
/// as a note stands as `None`.
pub open spec fn found_views(found: Seq<Option<Note>>) -> Seq<Option<NoteView>> {
    found.map_values(
        |d: Option<Note>|
            match d {
                Some(n) => Some(n@),
                None => None,
            },
    )
}

/// Whether `found` is what a query with this filter returns: each note that
/// passes the filter once, in any order, and nothing else that can be read.
pub open spec fn selection(notes: Seq<NoteView>, filter: NoteFilter, found: Seq<Option<NoteView>>)
    -> bool {
    &&& forall|k: int|
        0 <= k < found.len() ==> (#[trigger] found[k] matches Some(note) ==> selects(
            notes,
            filter,
            note,
        ))
    &&& forall|i: int| note_at(notes, i, filter) ==> found.contains(Some(notes[i]))
    &&& forall|a: int, b: int|
        0 <= a < b < found.len() && (#[trigger] found[a]) is Some && (#[trigger] found[b]) is Some
            ==> found[a].unwrap().id != found[b].unwrap().id
}

/// What inserting a note answers and does. Identifiers are unique: a reliable
/// store takes the note exactly when no note has its identifier.
pub open spec fn insert_note_outcome(
    before: Seq<NoteView>,
    after: Seq<NoteView>,
    reliable: bool,
    note: NoteView,
    inserted: Result<(), StoreError>,
) -> bool {
    &&& reliable ==> (inserted is Ok <==> unused_note_id(before, note.id))
    &&& match inserted {
        Ok(()) => unused_note_id(before, note.id) && after == before.push(note),
        Err(_) => reliable ==> after == before,
    }
}

/// What looking for one note answers.
pub open spec fn find_note_outcome(
    notes: Seq<NoteView>,
    reliable: bool,
    filter: NoteFilter,
    found: Result<Option<Note>, StoreError>,
) -> bool {
    match found {
        Ok(Some(note)) => selects(notes, filter, note@),
        Ok(None) => !any_note(notes, filter),
        Err(_) => !reliable,
    }
}

/// What looking for all notes that pass a filter answers.
pub open spec fn find_notes_outcome(
    notes: Seq<NoteView>,
    reliable: bool,
    filter: NoteFilter,
    found: Result<Vec<Option<Note>>, StoreError>,
) -> bool {
    match found {
        Ok(all) => selection(notes, filter, found_views(all@)),
        Err(_) => !reliable,
    }
}

/// What deleting one note answers and does: `true` where a note passed the
/// filter and is gone, `false` where none did.
pub open spec fn delete_one_note_outcome(
    before: Seq<NoteView>,
    after: Seq<NoteView>,
    reliable: bool,
    filter: NoteFilter,
    deleted: Result<bool, StoreError>,
) -> bool {
    match deleted {
        Ok(true) => exists|i: int| note_at(before, i, filter) && after == before.remove(i),
        Ok(false) => !any_note(before, filter) && after == before,
        Err(_) => !reliable,
    }
}

/// What setting title, content and tags of one note answers and does.
pub open spec fn rewrite_one_outcome(
    before: Seq<NoteView>,
    after: Seq<NoteView>,
    reliable: bool,
    filter: NoteFilter,
    title: Seq<char>,
    content: Seq<char>,
    tags: Seq<Seq<char>>,
    matched: Result<bool, StoreError>,
) -> bool {
    match matched {
        Ok(true) => exists|i: int|
            note_at(before, i, filter) && after == before.update(
                i,
                rewritten(before[i], title, content, tags),
            ),
        Ok(false) => !any_note(before, filter) && after == before,
        Err(_) => !reliable,
    }
}

/// What appending a reference to one note answers and does.
pub open spec fn push_ref_outcome(
    before: Seq<NoteView>,
    after: Seq<NoteView>,
    reliable: bool,
    filter: NoteFilter,
    list_id: ObjectId,
    matched: Result<bool, StoreError>,
) -> bool {
    match matched {
        Ok(true) => exists|i: int|
            note_at(before, i, filter) && after == before.update(i, pinned(before[i], list_id)),
        Ok(false) => !any_note(before, filter) && after == before,
        Err(_) => !reliable,
    }
}

/// What pulling a reference out of one note answers and does.
pub open spec fn pull_ref_outcome(
    before: Seq<NoteView>,
    after: Seq<NoteView>,
    reliable: bool,
    filter: NoteFilter,
    list_id: ObjectId,
    matched: Result<bool, StoreError>,
) -> bool {
    match matched {
        Ok(true) => exists|i: int|
            note_at(before, i, filter) && after == before.update(i, unpinned(before[i], list_id)),
        Ok(false) => !any_note(before, filter) && after == before,
        Err(_) => !reliable,
    }
}

/// A collection of notes in a document store. Each call is one atomic
/// operation of the store, on at most one note.
pub trait NoteCollection {
    /// The notes that the collection holds.
    spec fn notes(&self) -> Seq<NoteView>;

    /// Whether the store never fails.
    spec fn reliable(&self) -> bool;

    /// Inserts a note.
    fn insert_one(&mut self, note: &Note) -> (inserted: Result<(), StoreError>)
        requires
            distinct_note_ids(old(self).notes()),
        ensures
            final(self).reliable() == old(self).reliable(),
            distinct_note_ids(final(self).notes()),
            insert_note_outcome(
                old(self).notes(),
                final(self).notes(),
                old(self).reliable(),
                note@,
                inserted,
            ),
    ;

    /// A note that passes the filter.
    fn find_one(&self, filter: NoteFilter) -> (found: Result<Option<Note>, StoreError>)
        ensures
            find_note_outcome(self.notes(), self.reliable(), filter, found),
    ;

    /// All notes that pass the filter. A document that cannot be read as a
    /// note is handed out as `None`.
    fn find(&self, filter: NoteFilter) -> (found: Result<Vec<Option<Note>>, StoreError>)
        requires
            distinct_note_ids(self.notes()),
        ensures
            find_notes_outcome(self.notes(), self.reliable(), filter, found),
    ;

    /// Deletes a note that passes the filter.
    fn delete_one(&mut self, filter: NoteFilter) -> (deleted: Result<bool, StoreError>)
        requires
            distinct_note_ids(old(self).notes()),
        ensures
            final(self).reliable() == old(self).reliable(),
            distinct_note_ids(final(self).notes()),
            delete_one_note_outcome(
                old(self).notes(),
                final(self).notes(),
                old(self).reliable(),
                filter,
                deleted,
            ),
    ;

    /// Sets title, content and tags of a note that passes the filter.
    fn rewrite_one(&mut self, filter: NoteFilter, title: &str, content: &str, tags: Vec<String>)
        -> (matched: Result<bool, StoreError>)
        requires
            distinct_note_ids(old(self).notes()),
        ensures
            final(self).reliable() == old(self).reliable(),
            distinct_note_ids(final(self).notes()),
            rewrite_one_outcome(
                old(self).notes(),
                final(self).notes(),
                old(self).reliable(),
                filter,
                title@,
                content@,
                crate::models::texts(tags@),
                matched,
            ),
    ;

    /// Appends a reference to the references of a note that passes the filter.
    fn push_ref(&mut self, filter: NoteFilter, todo_list_id: ObjectId) -> (matched: Result<
        bool,
        StoreError,
    >)
        requires
            distinct_note_ids(old(self).notes()),
        ensures
            final(self).reliable() == old(self).reliable(),
            distinct_note_ids(final(self).notes()),
            push_ref_outcome(
                old(self).notes(),
                final(self).notes(),
                old(self).reliable(),
                filter,
                todo_list_id,
                matched,
            ),
    ;

    /// Takes every reference to the list out of a note that passes the filter.
    fn pull_ref(&mut self, filter: NoteFilter, todo_list_id: ObjectId) -> (matched: Result<
        bool,
        StoreError,
    >)
        requires
            distinct_note_ids(old(self).notes()),
        ensures
            final(self).reliable() == old(self).reliable(),
            distinct_note_ids(final(self).notes()),
            pull_ref_outcome(
                old(self).notes(),
                final(self).notes(),
                old(self).reliable(),
                filter,
                todo_list_id,
                matched,
            ),
    ;
}

} // verus!
