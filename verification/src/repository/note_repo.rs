//! The note store.

use crate::error::ApiError;
use crate::models::note::{Note, NoteView};
use crate::models::oid::ObjectId;
use crate::models::texts;
use crate::models::todo::TodoListView;
pub use crate::repository::note_store::MongoNoteRepo;
use crate::repository::todo_repo::{has_list, owns_list, TodoRepo};
use crate::routes::notes::{AllNotesResponse, AllNotesResponseView};
use vstd::prelude::*;

verus! {

/// Whether the note at position `i` has this identifier and this owner.
pub open spec fn owns_note(notes: Seq<NoteView>, i: int, note_id: ObjectId, user_id: ObjectId)
    -> bool {
    0 <= i < notes.len() && notes[i].id == note_id && notes[i].user_id == user_id
}

/// Whether the owner has a note with this identifier.
pub open spec fn has_note(notes: Seq<NoteView>, note_id: ObjectId, user_id: ObjectId) -> bool {
    exists|i: int| owns_note(notes, i, note_id, user_id)
}

/// Whether the note at position `i` belongs to this owner.
pub open spec fn note_of(notes: Seq<NoteView>, i: int, user_id: ObjectId) -> bool {
    0 <= i < notes.len() && notes[i].user_id == user_id
}

/// Whether the note at position `i` has this identifier, whoever owns it.
pub open spec fn note_with_id(notes: Seq<NoteView>, i: int, note_id: ObjectId) -> bool {
    0 <= i < notes.len() && notes[i].id == note_id
}

/// Whether no two notes share an identifier.
pub open spec fn distinct_note_ids(notes: Seq<NoteView>) -> bool {
    forall|i: int, j: int| 0 <= i < j < notes.len() ==> notes[i].id != notes[j].id
}

/// Whether no note has this identifier.
pub open spec fn unused_note_id(notes: Seq<NoteView>, note_id: ObjectId) -> bool {
    forall|i: int| !note_with_id(notes, i, note_id)
}

/// Taking a note out leaves the identifiers distinct.
pub proof fn lemma_distinct_without(notes: Seq<NoteView>, i: int)
    requires
        distinct_note_ids(notes),
        0 <= i < notes.len(),
    ensures
        distinct_note_ids(notes.remove(i)),
{
    let rest = notes.remove(i);
    assert forall|a: int, b: int| 0 <= a < b < rest.len() implies rest[a].id != rest[b].id by {
        let from_a = if a < i { a } else { a + 1 };
        let from_b = if b < i { b } else { b + 1 };
        assert(rest[a] == notes[from_a] && rest[b] == notes[from_b]);
    }
}

/// Adding a note under an identifier that no note has leaves the identifiers
/// distinct.
pub proof fn lemma_distinct_with(notes: Seq<NoteView>, note: NoteView)
    requires
        distinct_note_ids(notes),
        unused_note_id(notes, note.id),
    ensures
        distinct_note_ids(notes.push(note)),
{
    let more = notes.push(note);
    assert forall|a: int, b: int| 0 <= a < b < more.len() implies more[a].id != more[b].id by {
        if b == notes.len() {
            assert(!note_with_id(notes, a, note.id));
        }
    }
}

/// A note as it is created: with nothing pinned to it.
pub open spec fn new_note(
    id: ObjectId,
    user_id: ObjectId,
    title: Seq<char>,
    content: Seq<char>,
    tags: Seq<Seq<char>>,
) -> NoteView {
    NoteView { id, user_id, title, content, tags, todo_lists: Seq::empty() }
}

/// `note` with another title, content and tags. What is pinned to it stays.
pub open spec fn rewritten(
    note: NoteView,
    title: Seq<char>,
    content: Seq<char>,
    tags: Seq<Seq<char>>,
) -> NoteView {
    NoteView { title, content, tags, ..note }
}

/// `note` with one more reference, at the end of those it has. A list that is
/// pinned already is pinned once more.
pub open spec fn pinned(note: NoteView, list_id: ObjectId) -> NoteView {
    NoteView { todo_lists: note.todo_lists.push(list_id), ..note }
}

/// `refs` without this identifier, however often it occurs.
pub open spec fn without_ref(refs: Seq<ObjectId>, list_id: ObjectId) -> Seq<ObjectId> {
    refs.filter(|id: ObjectId| id != list_id)
}

/// `note` without the references to this list.
pub open spec fn unpinned(note: NoteView, list_id: ObjectId) -> NoteView {
    NoteView { todo_lists: without_ref(note.todo_lists, list_id), ..note }
}

/// The line of a listing that stands for `note`.
pub open spec fn summary(note: NoteView) -> AllNotesResponseView {
    AllNotesResponseView { title: note.title, id: note.id, tags: note.tags }
}

/// Whether `line` stands for a note of this owner.
pub open spec fn summarizes(notes: Seq<NoteView>, user_id: ObjectId, line: AllNotesResponseView)
    -> bool {
    exists|i: int| note_of(notes, i, user_id) && summary(notes[i]) == line
}

/// Whether no two lines of a listing share an identifier.
pub open spec fn distinct_lines(found: Seq<AllNotesResponseView>) -> bool {
    forall|a: int, b: int| 0 <= a < b < found.len() ==> found[a].id != found[b].id
}

/// Whether `found` is what a listing for this owner returns: one line for
/// each of the owner's notes, and nothing else, in any order.
pub open spec fn summaries_of(
    notes: Seq<NoteView>,
    user_id: ObjectId,
    found: Seq<AllNotesResponseView>,
) -> bool {
    &&& forall|k: int| 0 <= k < found.len() ==> summarizes(notes, user_id, #[trigger] found[k])
    &&& forall|i: int| note_of(notes, i, user_id) ==> found.contains(summary(notes[i]))
    &&& distinct_lines(found)
}

/// Whether `after` is `before` with a new note of this owner, title, content
/// and tags at its end, under an identifier that no note had.
pub open spec fn note_created(
    before: Seq<NoteView>,
    after: Seq<NoteView>,
    created: NoteView,
    user_id: ObjectId,
    title: Seq<char>,
    content: Seq<char>,
    tags: Seq<Seq<char>>,
) -> bool {
    &&& created == new_note(created.id, user_id, title, content, tags)
    &&& after == before.push(created)
    &&& unused_note_id(before, created.id)
}

/// Whether `after` is `before` without the owner's note with this identifier.
pub open spec fn note_deleted(
    before: Seq<NoteView>,
    after: Seq<NoteView>,
    note_id: ObjectId,
    user_id: ObjectId,
) -> bool {
    exists|i: int| owns_note(before, i, note_id, user_id) && after == before.remove(i)
}

/// Whether `after` is `before` with title, content and tags of the owner's
/// note with this identifier replaced.
pub open spec fn note_updated(
    before: Seq<NoteView>,
    after: Seq<NoteView>,
    note_id: ObjectId,
    user_id: ObjectId,
    title: Seq<char>,
    content: Seq<char>,
    tags: Seq<Seq<char>>,
) -> bool {
    exists|i: int|
        owns_note(before, i, note_id, user_id) && after == before.update(
            i,
            rewritten(before[i], title, content, tags),
        )
}

/// Whether `after` is `before` with one more reference, to `list_id`, at the
/// end of the references of the owner's note with this identifier.
pub open spec fn ref_appended(
    before: Seq<NoteView>,
    after: Seq<NoteView>,
    note_id: ObjectId,
    user_id: ObjectId,
    list_id: ObjectId,
) -> bool {
    exists|i: int|
        owns_note(before, i, note_id, user_id) && after == before.update(
            i,
            pinned(before[i], list_id),
        )
}

/// Whether the owner's note at position `i` has this identifier and refers to
/// the list `list_id`.
pub open spec fn owns_pin(
    notes: Seq<NoteView>,
    i: int,
    note_id: ObjectId,
    user_id: ObjectId,
    list_id: ObjectId,
) -> bool {
    owns_note(notes, i, note_id, user_id) && notes[i].todo_lists.contains(list_id)
}

/// Whether the owner has a note with this identifier that refers to the list
/// `list_id`.
pub open spec fn has_pin(
    notes: Seq<NoteView>,
    note_id: ObjectId,
    user_id: ObjectId,
    list_id: ObjectId,
) -> bool {
    exists|i: int| owns_pin(notes, i, note_id, user_id, list_id)
}

/// Whether `after` is `before` with the references to `list_id` taken out of
/// the owner's note with this identifier, which had at least one.
pub open spec fn ref_removed(
    before: Seq<NoteView>,
    after: Seq<NoteView>,
    note_id: ObjectId,
    user_id: ObjectId,
    list_id: ObjectId,
) -> bool {
    exists|i: int|
        owns_pin(before, i, note_id, user_id, list_id) && after == before.update(
            i,
            unpinned(before[i], list_id),
        )
}

/// The contents of a sequence of notes.
pub open spec fn note_views(notes: Seq<Note>) -> Seq<NoteView> {
    notes.map_values(|n: Note| n@)
}

/// The contents of a listing.
pub open spec fn line_views(lines: Seq<AllNotesResponse>) -> Seq<AllNotesResponseView> {
    lines.map_values(|l: AllNotesResponse| l@)
}

/// What creating a note under the identifier `note_id` answers and does. A
/// reliable store takes the note exactly when no note has the identifier; the
/// note that it takes has nothing pinned to it and goes to the end.
pub open spec fn create_note_under_outcome(
    before: Seq<NoteView>,
    after: Seq<NoteView>,
    reliable: bool,
    note_id: ObjectId,
    user_id: ObjectId,
    title: Seq<char>,
    content: Seq<char>,
    tags: Seq<Seq<char>>,
    created: Result<Note, ApiError>,
) -> bool {
    &&& reliable ==> (created is Ok <==> unused_note_id(before, note_id))
    &&& match created {
        Ok(note) => {
            &&& note@ == new_note(note_id, user_id, title, content, tags)
            &&& after == before.push(note@)
            &&& unused_note_id(before, note_id)
        },
        Err(e) => e == ApiError::InternalError && (reliable ==> after == before),
    }
}

/// What creating a note answers and does, under an identifier that is drawn
/// for it. Only a failure of the store can keep the note out, and a reliable
/// store fails only where the identifier drawn is in use: it cannot be in a
/// store without notes, so there the note is created.
pub open spec fn create_note_outcome(
    before: Seq<NoteView>,
    after: Seq<NoteView>,
    reliable: bool,
    user_id: ObjectId,
    title: Seq<char>,
    content: Seq<char>,
    tags: Seq<Seq<char>>,
    created: Result<Note, ApiError>,
) -> bool {
    &&& reliable && before.len() == 0 ==> created is Ok
    &&& match created {
        Ok(note) => note_created(before, after, note@, user_id, title, content, tags),
        Err(e) => {
            &&& e == ApiError::InternalError
            &&& reliable ==> after == before && before.len() > 0
        },
    }
}

/// What deleting a note answers and does: a reliable store succeeds exactly
/// when the owner has the note.
pub open spec fn delete_note_outcome(
    before: Seq<NoteView>,
    after: Seq<NoteView>,
    reliable: bool,
    note_id: ObjectId,
    user_id: ObjectId,
    deleted: Result<(), ApiError>,
) -> bool {
    &&& reliable ==> (deleted is Ok <==> has_note(before, note_id, user_id))
    &&& match deleted {
        Ok(()) => note_deleted(before, after, note_id, user_id),
        Err(ApiError::NotFound) => !has_note(before, note_id, user_id) && after == before,
        Err(ApiError::InternalError) => !reliable,
        Err(_) => false,
    }
}

/// What updating a note answers and does: a reliable store succeeds exactly
/// when the owner has the note.
pub open spec fn update_note_outcome(
    before: Seq<NoteView>,
    after: Seq<NoteView>,
    reliable: bool,
    note_id: ObjectId,
    user_id: ObjectId,
    title: Seq<char>,
    content: Seq<char>,
    tags: Seq<Seq<char>>,
    updated: Result<(), ApiError>,
) -> bool {
    &&& reliable ==> (updated is Ok <==> has_note(before, note_id, user_id))
    &&& match updated {
        Ok(()) => note_updated(before, after, note_id, user_id, title, content, tags),
        Err(ApiError::NotFound) => !has_note(before, note_id, user_id) && after == before,
        Err(ApiError::InternalError) => !reliable,
        Err(_) => false,
    }
}

/// What looking a note up answers: a reliable store finds it exactly when the
/// owner has it.
pub open spec fn get_note_outcome(
    notes: Seq<NoteView>,
    reliable: bool,
    note_id: ObjectId,
    user_id: ObjectId,
    found: Result<Note, ApiError>,
) -> bool {
    &&& reliable ==> (found is Ok <==> has_note(notes, note_id, user_id))
    &&& match found {
        Ok(note) => notes.contains(note@) && note.id == note_id && note.user_id == user_id,
        Err(ApiError::NotFound) => !has_note(notes, note_id, user_id),
        Err(ApiError::InternalError) => !reliable,
        Err(_) => false,
    }
}

/// What listing the notes of an owner answers: a reliable store always
/// answers, with an empty listing where the owner has no notes.
pub open spec fn all_notes_outcome(
    notes: Seq<NoteView>,
    reliable: bool,
    user_id: ObjectId,
    found: Result<Vec<AllNotesResponse>, ApiError>,
) -> bool {
    match found {
        Ok(lines) => summaries_of(notes, user_id, line_views(lines@)),
        Err(e) => e == ApiError::InternalError && !reliable,
    }
}

/// What pinning answers and does, where `list_known` says whether the owner
/// has the list: with reliable stores it succeeds exactly when the owner has
/// both the list and the note. Where the owner lacks either, the answer is
/// `NotFound` and the notes stay as they were.
pub open spec fn pin_outcome(
    before: Seq<NoteView>,
    after: Seq<NoteView>,
    reliable: bool,
    lists_reliable: bool,
    list_known: bool,
    list_id: ObjectId,
    note_id: ObjectId,
    user_id: ObjectId,
    done: Result<(), ApiError>,
) -> bool {
    &&& reliable && lists_reliable ==> (done is Ok <==> list_known && has_note(
        before,
        note_id,
        user_id,
    ))
    &&& match done {
        Ok(()) => list_known && ref_appended(before, after, note_id, user_id, list_id),
        Err(ApiError::NotFound) => {
            &&& !list_known || !has_note(before, note_id, user_id)
            &&& after == before
        },
        Err(ApiError::InternalError) => {
            ||| !lists_reliable && after == before
            ||| !reliable && list_known
        },
        Err(_) => false,
    }
}

/// What unpinning answers and does: a reliable store succeeds exactly when
/// the owner has the note and the note refers to the list.
pub open spec fn unpin_outcome(
    before: Seq<NoteView>,
    after: Seq<NoteView>,
    reliable: bool,
    list_id: ObjectId,
    note_id: ObjectId,
    user_id: ObjectId,
    done: Result<(), ApiError>,
) -> bool {
    &&& reliable ==> (done is Ok <==> has_pin(before, note_id, user_id, list_id))
    &&& match done {
        Ok(()) => ref_removed(before, after, note_id, user_id, list_id),
        Err(ApiError::NotFound) => !has_pin(before, note_id, user_id, list_id) && after == before,
        Err(ApiError::InternalError) => !reliable,
        Err(_) => false,
    }
}

/// Among notes with distinct identifiers, a note is absent for every account
/// but its owner: nobody else has a note with its identifier.
pub proof fn lemma_foreign_note_is_absent(notes: Seq<NoteView>, k: int, other: ObjectId)
    requires
        distinct_note_ids(notes),
        0 <= k < notes.len(),
        notes[k].user_id != other,
    ensures
        !has_note(notes, notes[k].id, other),
{
    assert forall|i: int| !owns_note(notes, i, notes[k].id, other) by {
        if owns_note(notes, i, notes[k].id, other) {
            assert(i != k);
            if i < k {
                assert(notes[i].id != notes[k].id);
            } else {
                assert(notes[k].id != notes[i].id);
            }
        }
    }
}

/// Whether an answer is `NotFound`, or the internal error of a store that
/// failed.
pub open spec fn not_found_or_failed<T>(answer: Result<T, ApiError>, reliable: bool) -> bool {
    answer matches Err(e) && (e == ApiError::NotFound || (e == ApiError::InternalError
        && !reliable))
}

/// No account but the owner of a note gets at the note, whether it asks to
/// read, to update or to delete it: the answer is never a success. It is
/// `NotFound`, unless the store itself failed, and a reliable store leaves the
/// notes as they are.
pub proof fn lemma_foreign_note_is_not_found(
    notes: Seq<NoteView>,
    k: int,
    other: ObjectId,
    reliable: bool,
    found: Result<Note, ApiError>,
    title: Seq<char>,
    content: Seq<char>,
    tags: Seq<Seq<char>>,
    after_update: Seq<NoteView>,
    updated: Result<(), ApiError>,
    after_delete: Seq<NoteView>,
    deleted: Result<(), ApiError>,
)
    requires
        distinct_note_ids(notes),
        0 <= k < notes.len(),
        notes[k].user_id != other,
        get_note_outcome(notes, reliable, notes[k].id, other, found),
        update_note_outcome(
            notes,
            after_update,
            reliable,
            notes[k].id,
            other,
            title,
            content,
            tags,
            updated,
        ),
        delete_note_outcome(notes, after_delete, reliable, notes[k].id, other, deleted),
    ensures
        not_found_or_failed(found, reliable),
        not_found_or_failed(updated, reliable),
        not_found_or_failed(deleted, reliable),
        reliable || updated == Err::<(), ApiError>(ApiError::NotFound) ==> after_update == notes,
        reliable || deleted == Err::<(), ApiError>(ApiError::NotFound) ==> after_delete == notes,
{
    lemma_foreign_note_is_absent(notes, k, other);
}

/// Pinning a list that does not exist, or that belongs to another owner,
/// never succeeds and changes no note. The answer is `NotFound`, unless the
/// list store itself failed.
pub proof fn lemma_pin_of_unknown_list(
    lists: Seq<TodoListView>,
    before: Seq<NoteView>,
    after: Seq<NoteView>,
    reliable: bool,
    lists_reliable: bool,
    list_id: ObjectId,
    note_id: ObjectId,
    user_id: ObjectId,
    done: Result<(), ApiError>,
)
    requires
        forall|i: int|
            0 <= i < lists.len() && lists[i].id == list_id ==> lists[i].user_id != user_id,
        pin_outcome(
            before,
            after,
            reliable,
            lists_reliable,
            has_list(lists, list_id, user_id),
            list_id,
            note_id,
            user_id,
            done,
        ),
    ensures
        not_found_or_failed(done, lists_reliable),
        after == before,
{
    assert forall|i: int| !owns_list(lists, i, list_id, user_id) by {}
}

/// Unpinning a list that the note does not refer to never succeeds. The
/// answer is `NotFound`, unless the store itself failed, and a reliable store
/// leaves the notes as they are.
pub proof fn lemma_unpin_of_unpinned_list(
    before: Seq<NoteView>,
    after: Seq<NoteView>,
    reliable: bool,
    list_id: ObjectId,
    note_id: ObjectId,
    user_id: ObjectId,
    done: Result<(), ApiError>,
)
    requires
        forall|i: int|
            owns_note(before, i, note_id, user_id) ==> !before[i].todo_lists.contains(list_id),
        unpin_outcome(before, after, reliable, list_id, note_id, user_id, done),
    ensures
        not_found_or_failed(done, reliable),
        reliable || done == Err::<(), ApiError>(ApiError::NotFound) ==> after == before,
{
    assert forall|i: int| !owns_pin(before, i, note_id, user_id, list_id) by {}
}

/// Whether every reference of every note names a list of the owner of the
/// note.
pub open spec fn references_resolve(notes: Seq<NoteView>, lists: Seq<TodoListView>) -> bool {
    forall|i: int, k: int|
        0 <= i < notes.len() && 0 <= k < notes[i].todo_lists.len() ==> has_list(
            lists,
            #[trigger] notes[i].todo_lists[k],
            notes[i].user_id,
        )
}

/// Pinning keeps the references resolvable: where every reference names a
/// list of the owner of its note, every reference does after a pin, however
/// the pin ends, unless it ends in the failure of an unreliable note store.
/// (A list that is deleted later leaves its references behind; no pin puts
/// one there.)
pub proof fn lemma_pin_keeps_references_resolved(
    lists: Seq<TodoListView>,
    before: Seq<NoteView>,
    after: Seq<NoteView>,
    reliable: bool,
    lists_reliable: bool,
    list_id: ObjectId,
    note_id: ObjectId,
    user_id: ObjectId,
    done: Result<(), ApiError>,
)
    requires
        references_resolve(before, lists),
        pin_outcome(
            before,
            after,
            reliable,
            lists_reliable,
            has_list(lists, list_id, user_id),
            list_id,
            note_id,
            user_id,
            done,
        ),
    ensures
        reliable || !(done matches Err(ApiError::InternalError)) ==> references_resolve(
            after,
            lists,
        ),
{
    if after != before && (reliable || !(done matches Err(ApiError::InternalError))) {
        let at = choose|at: int|
            owns_note(before, at, note_id, user_id) && after == before.update(
                at,
                pinned(before[at], list_id),
            );
        assert forall|i: int, k: int|
            0 <= i < after.len() && 0 <= k < after[i].todo_lists.len() implies has_list(
            lists,
            #[trigger] after[i].todo_lists[k],
            after[i].user_id,
        ) by {
            if i == at && k == before[at].todo_lists.len() {
                assert(after[i].todo_lists[k] == list_id);
            } else {
                assert(after[i].todo_lists[k] == before[i].todo_lists[k]);
            }
        }
    }
}

/// What a note store does. Every operation is scoped by owner: a note of
/// another owner is treated as absent.
pub trait NoteRepo {
    /// The notes that the store holds.
    spec fn notes(&self) -> Seq<NoteView>;

    /// Whether the store never answers with an internal error of its own.
    spec fn reliable(&self) -> bool;

    /// Stores a new note with nothing pinned to it, under a new identifier.
    fn create_note(&mut self, user_id: ObjectId, title: &str, content: &str, tags: Vec<String>)
        -> (created: Result<Note, ApiError>)
        requires
            distinct_note_ids(old(self).notes()),
        ensures
            final(self).reliable() == old(self).reliable(),
            distinct_note_ids(final(self).notes()),
            create_note_outcome(
                old(self).notes(),
                final(self).notes(),
                old(self).reliable(),
                user_id,
                title@,
                content@,
                texts(tags@),
                created,
            ),
    ;

    /// Removes the owner's note with this identifier.
    fn delete_note(&mut self, note_id: ObjectId, user_id: ObjectId) -> (deleted: Result<
        (),
        ApiError,
    >)
        requires
            distinct_note_ids(old(self).notes()),
        ensures
            final(self).reliable() == old(self).reliable(),
            distinct_note_ids(final(self).notes()),
            delete_note_outcome(
                old(self).notes(),
                final(self).notes(),
                old(self).reliable(),
                note_id,
                user_id,
                deleted,
            ),
    ;

    /// Replaces title, content and tags of the owner's note with this
    /// identifier. What is pinned to the note is not touched.
    fn update_note(
        &mut self,
        user_id: ObjectId,
        note_id: ObjectId,
        title: &str,
        content: &str,
        tags: Vec<String>,
    ) -> (updated: Result<(), ApiError>)
        requires
            distinct_note_ids(old(self).notes()),
        ensures
            final(self).reliable() == old(self).reliable(),
            distinct_note_ids(final(self).notes()),
            update_note_outcome(
                old(self).notes(),
                final(self).notes(),
                old(self).reliable(),
                note_id,
                user_id,
                title@,
                content@,
                texts(tags@),
                updated,
            ),
    ;

    /// The owner's note with this identifier.
    fn get_note_by_id(&self, note_id: ObjectId, user_id: ObjectId) -> (found: Result<
        Note,
        ApiError,
    >)
        ensures
            get_note_outcome(self.notes(), self.reliable(), note_id, user_id, found),
    ;

    /// One line for each note of the owner. An owner without notes gets an
    /// empty listing.
    fn get_all_notes_from_user(&self, user_id: ObjectId) -> (found: Result<
        Vec<AllNotesResponse>,
        ApiError,
    >)
        requires
            distinct_note_ids(self.notes()),
        ensures
            all_notes_outcome(self.notes(), self.reliable(), user_id, found),
    ;

    /// Pins a todo list to a note. The list is looked up under the owner
    /// first; where the owner has no such list, nothing is written. A list
    /// that is pinned already is pinned once more.
    fn pin_todo_list<T: TodoRepo>(
        &mut self,
        todo_repo: &T,
        todo_list_id: ObjectId,
        note_id: ObjectId,
        user_id: ObjectId,
    ) -> (done: Result<(), ApiError>)
        requires
            distinct_note_ids(old(self).notes()),
        ensures
            final(self).reliable() == old(self).reliable(),
            distinct_note_ids(final(self).notes()),
            pin_outcome(
                old(self).notes(),
                final(self).notes(),
                old(self).reliable(),
                todo_repo.reliable(),
                has_list(todo_repo.lists(), todo_list_id, user_id),
                todo_list_id,
                note_id,
                user_id,
                done,
            ),
    ;

    /// Takes a todo list off a note: removes the references to the list from
    /// the owner's note with this identifier, where it has one.
    fn unpin_todo_list(&mut self, todo_list_id: ObjectId, note_id: ObjectId, user_id: ObjectId)
        -> (done: Result<(), ApiError>)
        requires
            distinct_note_ids(old(self).notes()),
        ensures
            final(self).reliable() == old(self).reliable(),
            distinct_note_ids(final(self).notes()),
            unpin_outcome(
                old(self).notes(),
                final(self).notes(),
                old(self).reliable(),
                todo_list_id,
                note_id,
                user_id,
                done,
            ),
    ;
}

} // verus!
