//! The note store over a collection of a document store.

use crate::error::ApiError;
use crate::models::note::{Note, NoteView};
use crate::models::oid::ObjectId;
use crate::models::{clone_texts, texts};
use crate::repository::note_collection::{
    any_note, found_views, note_at, selection, selects, NoteCollection, NoteFilter,
};
use crate::repository::note_repo::{
    create_note_under_outcome, distinct_lines, distinct_note_ids, has_note, has_pin, line_views,
    note_of, owns_note, owns_pin, summaries_of, summarizes, summary, NoteRepo,
};
use crate::repository::todo_repo::{owns_list, TodoRepo};
use crate::routes::notes::{AllNotesResponse, AllNotesResponseView};
use vstd::prelude::*;

verus! {

/// The note store over a collection that is spoken to the way MongoDB is:
/// every operation becomes one call on the collection, under a filter that
/// names the owner.
pub struct MongoNoteRepo<C: NoteCollection> {
    collection: C,
}

/// The listing of what a query returned: one line for each document that
/// could be read as a note, in the order of the documents, and none for the
/// others.
pub open spec fn listed_lines(found: Seq<Option<NoteView>>) -> Seq<AllNotesResponseView>
    decreases found.len(),
{
    if found.len() == 0 {
        Seq::empty()
    } else {
        let rest = listed_lines(found.drop_last());
        match found.last() {
            Some(note) => rest.push(summary(note)),
            None => rest,
        }
    }
}

/// Makes the listing of what a query returned. A document that could not be
/// read as a note is passed over in silence.
pub fn summaries(found: &Vec<Option<Note>>) -> (lines: Vec<AllNotesResponse>)
    ensures
        line_views(lines@) == listed_lines(found_views(found@)),
{
    let mut lines: Vec<AllNotesResponse> = Vec::new();
    let mut n: usize = 0;
    let ghost docs = found_views(found@);
    assert(docs.take(0) =~= Seq::<Option<NoteView>>::empty());
    assert(line_views(lines@) =~= Seq::<AllNotesResponseView>::empty());
    while n < found.len()
        invariant
            n <= found.len(),
            docs == found_views(found@),
            line_views(lines@) == listed_lines(docs.take(n as int)),
        decreases found.len() - n,
    {
        proof {
            assert(docs.take(n + 1).drop_last() =~= docs.take(n as int));
            assert(docs.take(n + 1).last() == docs[n as int]);
        }
        match &found[n] {
            Some(note) => {
                let line = AllNotesResponse {
                    title: note.title.clone(),
                    id: note.id,
                    tags: clone_texts(&note.tags),
                };
                assert(line@ == summary(note@));
                assert(line_views(lines@.push(line)) =~= line_views(lines@).push(line@));
                lines.push(line);
            },
            None => {},
        }
        n += 1;
    }
    assert(docs.take(n as int) =~= docs);
    lines
}

/// Whether `line` stands for a note among the documents `found`.
spec fn line_of(found: Seq<Option<NoteView>>, line: AllNotesResponseView) -> bool {
    exists|j: int| 0 <= j < found.len() && found[j] is Some && summary(found[j].unwrap()) == line
}

/// Whether no two notes among the documents `found` share an identifier.
spec fn distinct_found(found: Seq<Option<NoteView>>) -> bool {
    forall|a: int, b: int|
        0 <= a < b < found.len() && (#[trigger] found[a]) is Some && (#[trigger] found[b]) is Some
            ==> found[a].unwrap().id != found[b].unwrap().id
}

/// The listing has a line for each note among the documents, only such
/// lines, and no identifier twice where the notes have none twice.
proof fn lemma_listed_lines(found: Seq<Option<NoteView>>)
    ensures
        forall|k: int|
            0 <= k < listed_lines(found).len() ==> line_of(
                found,
                #[trigger] listed_lines(found)[k],
            ),
        forall|j: int|
            0 <= j < found.len() && (#[trigger] found[j]) is Some ==> listed_lines(found).contains(
                summary(found[j].unwrap()),
            ),
        distinct_found(found) ==> distinct_lines(listed_lines(found)),
    decreases found.len(),
{
    if found.len() > 0 {
        let init = found.drop_last();
        let last = found.len() - 1;
        let lines = listed_lines(found);
        let rest = listed_lines(init);
        lemma_listed_lines(init);
        assert forall|k: int| 0 <= k < lines.len() implies line_of(found, #[trigger] lines[k]) by {
            if k < rest.len() {
                assert(lines[k] == rest[k]);
                assert(line_of(init, rest[k]));
                let j = choose|j: int|
                    0 <= j < init.len() && init[j] is Some && summary(init[j].unwrap()) == rest[k];
                assert(found[j] == init[j]);
            } else {
                assert(found[last] is Some && summary(found[last].unwrap()) == lines[k]);
            }
        }
        assert forall|j: int|
            0 <= j < found.len() && (#[trigger] found[j]) is Some implies lines.contains(
            summary(found[j].unwrap()),
        ) by {
            if j < last {
                assert(init[j] == found[j]);
                let k = rest.index_of(summary(init[j].unwrap()));
                assert(lines[k] == rest[k]);
            } else {
                assert(lines[lines.len() - 1] == summary(found[j].unwrap()));
            }
        }
        if distinct_found(found) {
            assert(distinct_found(init)) by {
                assert forall|a: int, b: int|
                    0 <= a < b < init.len() && (#[trigger] init[a]) is Some && (
                    #[trigger] init[b]) is Some implies init[a].unwrap().id
                    != init[b].unwrap().id by {
                    assert(found[a] == init[a] && found[b] == init[b]);
                }
            }
            assert forall|a: int, b: int| 0 <= a < b < lines.len() implies lines[a].id
                != lines[b].id by {
                if b < rest.len() {
                    assert(lines[a] == rest[a] && lines[b] == rest[b]);
                } else {
                    assert(lines[a] == rest[a]);
                    assert(line_of(init, rest[a]));
                    let j = choose|j: int|
                        0 <= j < init.len() && init[j] is Some && summary(init[j].unwrap())
                            == rest[a];
                    assert(found[j] == init[j]);
                    assert(found[last] is Some);
                    assert(found[j].unwrap().id != found[last].unwrap().id);
                }
            }
        }
    }
}

impl<C: NoteCollection> MongoNoteRepo<C> {
    /// The note store over `collection`.
    pub fn new(collection: C) -> (store: Self)
        ensures
            store.notes() == collection.notes(),
            store.reliable() == collection.reliable(),
    {
        MongoNoteRepo { collection }
    }

    /// Stores a new note with nothing pinned to it under the identifier
    /// `note_id`. [`NoteRepo::create_note`] is this under an identifier that is
    /// drawn for the note.
    pub fn create_note_under(
        &mut self,
        note_id: ObjectId,
        user_id: ObjectId,
        title: &str,
        content: &str,
        tags: Vec<String>,
    ) -> (created: Result<Note, ApiError>)
        requires
            distinct_note_ids(old(self).notes()),
        ensures
            final(self).reliable() == old(self).reliable(),
            distinct_note_ids(final(self).notes()),
            create_note_under_outcome(
                old(self).notes(),
                final(self).notes(),
                old(self).reliable(),
                note_id,
                user_id,
                title@,
                content@,
                texts(tags@),
                created,
            ),
    {
        let new_note = Note {
            id: note_id,
            user_id,
            title: title.to_owned(),
            content: content.to_owned(),
            tags,
            todo_lists: Vec::new(),
        };
        assert(new_note@.todo_lists =~= Seq::<ObjectId>::empty());
        match self.collection.insert_one(&new_note) {
            Ok(()) => Ok(new_note),
            Err(_) => Err(ApiError::InternalError),
        }
    }
}

/// Under the filter for an owner's note, the notes that pass are the owner's
/// notes with that identifier.
proof fn lemma_owned_filter(notes: Seq<NoteView>, note_id: ObjectId, user_id: ObjectId)
    ensures
        forall|i: int|
            note_at(
                notes,
                i,
                NoteFilter { id: Some(note_id), user_id: Some(user_id), todo_list: None },
            ) <==> owns_note(notes, i, note_id, user_id),
        any_note(notes, NoteFilter { id: Some(note_id), user_id: Some(user_id), todo_list: None })
            <==> has_note(notes, note_id, user_id),
{
    let filter = NoteFilter { id: Some(note_id), user_id: Some(user_id), todo_list: None };
    assert forall|i: int| note_at(notes, i, filter) <==> owns_note(notes, i, note_id, user_id) by {}
    if any_note(notes, filter) {
        let i = choose|i: int| note_at(notes, i, filter);
        assert(owns_note(notes, i, note_id, user_id));
    }
    if has_note(notes, note_id, user_id) {
        let i = choose|i: int| owns_note(notes, i, note_id, user_id);
        assert(note_at(notes, i, filter));
    }
}

/// Under the filter for an owner's note that refers to a list, the notes that
/// pass are the owner's notes with that identifier that refer to the list.
proof fn lemma_pin_filter(
    notes: Seq<NoteView>,
    note_id: ObjectId,
    user_id: ObjectId,
    list_id: ObjectId,
)
    ensures
        forall|i: int|
            note_at(
                notes,
                i,
                NoteFilter { id: Some(note_id), user_id: Some(user_id), todo_list: Some(list_id) },
            ) <==> owns_pin(notes, i, note_id, user_id, list_id),
        any_note(
            notes,
            NoteFilter { id: Some(note_id), user_id: Some(user_id), todo_list: Some(list_id) },
        ) <==> has_pin(notes, note_id, user_id, list_id),
{
    let filter = NoteFilter {
        id: Some(note_id),
        user_id: Some(user_id),
        todo_list: Some(list_id),
    };
    assert forall|i: int|
        note_at(notes, i, filter) <==> owns_pin(notes, i, note_id, user_id, list_id) by {}
    if any_note(notes, filter) {
        let i = choose|i: int| note_at(notes, i, filter);
        assert(owns_pin(notes, i, note_id, user_id, list_id));
    }
    if has_pin(notes, note_id, user_id, list_id) {
        let i = choose|i: int| owns_pin(notes, i, note_id, user_id, list_id);
        assert(note_at(notes, i, filter));
    }
}

/// The listing of the notes that a query for an owner returned is a listing
/// of the owner's notes.
proof fn lemma_listing_of_selection(
    notes: Seq<NoteView>,
    user_id: ObjectId,
    found: Seq<Option<NoteView>>,
)
    requires
        selection(notes, NoteFilter { id: None, user_id: Some(user_id), todo_list: None }, found),
    ensures
        summaries_of(notes, user_id, listed_lines(found)),
{
    let filter = NoteFilter { id: None, user_id: Some(user_id), todo_list: None };
    let lines = listed_lines(found);
    lemma_listed_lines(found);
    assert(distinct_found(found));
    assert forall|k: int| 0 <= k < lines.len() implies summarizes(
        notes,
        user_id,
        #[trigger] lines[k],
    ) by {
        assert(line_of(found, lines[k]));
        let j = choose|j: int|
            0 <= j < found.len() && found[j] is Some && summary(found[j].unwrap()) == lines[k];
        assert(selects(notes, filter, found[j].unwrap()));
        let i = choose|i: int| note_at(notes, i, filter) && notes[i] == found[j].unwrap();
        assert(note_of(notes, i, user_id) && summary(notes[i]) == lines[k]);
    }
    assert forall|i: int| note_of(notes, i, user_id) implies lines.contains(
        summary(notes[i]),
    ) by {
        assert(note_at(notes, i, filter));
        let j = found.index_of(Some(notes[i]));
        assert(found[j] is Some);
    }
}

impl<C: NoteCollection> NoteRepo for MongoNoteRepo<C> {
    closed spec fn notes(&self) -> Seq<NoteView> {
        self.collection.notes()
    }

    closed spec fn reliable(&self) -> bool {
        self.collection.reliable()
    }

    fn create_note(&mut self, user_id: ObjectId, title: &str, content: &str, tags: Vec<String>)
        -> (created: Result<Note, ApiError>)
    {
        self.create_note_under(ObjectId::new(), user_id, title, content, tags)
    }

    fn delete_note(&mut self, note_id: ObjectId, user_id: ObjectId) -> (deleted: Result<
        (),
        ApiError,
    >)
    {
        proof {
            lemma_owned_filter(self.notes(), note_id, user_id);
        }
        match self.collection.delete_one(NoteFilter::owned(note_id, user_id)) {
            Ok(true) => Ok(()),
            Ok(false) => Err(ApiError::NotFound),
            Err(_) => Err(ApiError::InternalError),
        }
    }

    fn update_note(
        &mut self,
        user_id: ObjectId,
        note_id: ObjectId,
        title: &str,
        content: &str,
        tags: Vec<String>,
    ) -> (updated: Result<(), ApiError>)
    {
        proof {
            lemma_owned_filter(self.notes(), note_id, user_id);
        }
        let filter = NoteFilter::owned(note_id, user_id);
        match self.collection.rewrite_one(filter, title, content, tags) {
            Ok(true) => Ok(()),
            Ok(false) => Err(ApiError::NotFound),
            Err(_) => Err(ApiError::InternalError),
        }
    }

    fn get_note_by_id(&self, note_id: ObjectId, user_id: ObjectId) -> (found: Result<
        Note,
        ApiError,
    >)
    {
        proof {
            lemma_owned_filter(self.notes(), note_id, user_id);
        }
        match self.collection.find_one(NoteFilter::owned(note_id, user_id)) {
            Ok(Some(note)) => {
                proof {
                    let filter = NoteFilter {
                        id: Some(note_id),
                        user_id: Some(user_id),
                        todo_list: None,
                    };
                    let i = choose|i: int|
                        note_at(self.notes(), i, filter) && self.notes()[i] == note@;
                    assert(self.notes()[i] == note@);
                }
                Ok(note)
            },
            Ok(None) => Err(ApiError::NotFound),
            Err(_) => Err(ApiError::InternalError),
        }
    }

    fn get_all_notes_from_user(&self, user_id: ObjectId) -> (found: Result<
        Vec<AllNotesResponse>,
        ApiError,
    >)
    {
        match self.collection.find(NoteFilter::of_owner(user_id)) {
            Ok(documents) => {
                proof {
                    lemma_listing_of_selection(self.notes(), user_id, found_views(documents@));
                }
                Ok(summaries(&documents))
            },
            Err(_) => Err(ApiError::InternalError),
        }
    }

    fn pin_todo_list<T: TodoRepo>(
        &mut self,
        todo_repo: &T,
        todo_list_id: ObjectId,
        note_id: ObjectId,
        user_id: ObjectId,
    ) -> (done: Result<(), ApiError>)
    {
        let todo_list = todo_repo.get_todo_list(todo_list_id, user_id)?;
        proof {
            let i = todo_repo.lists().index_of(todo_list@);
            assert(owns_list(todo_repo.lists(), i, todo_list_id, user_id));
            lemma_owned_filter(self.notes(), note_id, user_id);
        }
        match self.collection.push_ref(NoteFilter::owned(note_id, user_id), todo_list.id) {
            Ok(true) => Ok(()),
            Ok(false) => Err(ApiError::NotFound),
            Err(_) => Err(ApiError::InternalError),
        }
    }

    fn unpin_todo_list(&mut self, todo_list_id: ObjectId, note_id: ObjectId, user_id: ObjectId)
        -> (done: Result<(), ApiError>)
    {
        proof {
            lemma_pin_filter(self.notes(), note_id, user_id, todo_list_id);
        }
        match self.collection.pull_ref(
            NoteFilter::owned_with_pin(note_id, user_id, todo_list_id),
            todo_list_id,
        ) {
            Ok(true) => Ok(()),
            Ok(false) => Err(ApiError::NotFound),
            Err(_) => Err(ApiError::InternalError),
        }
    }
}

} // verus!
