//! Notes, and the pinning of todo lists to them.

use crate::error::ApiError;
use crate::models::note::Note;
use crate::models::oid::ObjectId;
use crate::models::texts;
use crate::repository::note_repo::{
    all_notes_outcome, create_note_outcome, delete_note_outcome, distinct_note_ids,
    get_note_outcome, pin_outcome, unpin_outcome, update_note_outcome, NoteRepo,
};
use crate::repository::todo_repo::{has_list, TodoRepo};
use crate::routes::notes::AllNotesResponse;
use vstd::prelude::*;

verus! {

/// Creates a note of `user_id` with nothing pinned to it.
pub fn create_note<R: NoteRepo>(
    repo: &mut R,
    user_id: ObjectId,
    title: &str,
    content: &str,
    tags: Vec<String>,
) -> (created: Result<Note, ApiError>)
    requires
        distinct_note_ids(old(repo).notes()),
    ensures
        final(repo).reliable() == old(repo).reliable(),
        distinct_note_ids(final(repo).notes()),
        create_note_outcome(
            old(repo).notes(),
            final(repo).notes(),
            old(repo).reliable(),
            user_id,
            title@,
            content@,
            texts(tags@),
            created,
        ),
{
    repo.create_note(user_id, title, content, tags)
}

/// Deletes the note `note_id` of `user_id`.
pub fn delete_note<R: NoteRepo>(repo: &mut R, note_id: ObjectId, user_id: ObjectId) -> (deleted:
    Result<(), ApiError>)
    requires
        distinct_note_ids(old(repo).notes()),
    ensures
        final(repo).reliable() == old(repo).reliable(),
        distinct_note_ids(final(repo).notes()),
        delete_note_outcome(
            old(repo).notes(),
            final(repo).notes(),
            old(repo).reliable(),
            note_id,
            user_id,
            deleted,
        ),
{
    repo.delete_note(note_id, user_id)
}

/// Replaces title, content and tags of the note `note_id` of `user_id`.
pub fn update_note<R: NoteRepo>(
    repo: &mut R,
    user_id: ObjectId,
    note_id: ObjectId,
    title: &str,
    content: &str,
    tags: Vec<String>,
) -> (updated: Result<(), ApiError>)
    requires
        distinct_note_ids(old(repo).notes()),
    ensures
        final(repo).reliable() == old(repo).reliable(),
        distinct_note_ids(final(repo).notes()),
        update_note_outcome(
            old(repo).notes(),
            final(repo).notes(),
            old(repo).reliable(),
            note_id,
            user_id,
            title@,
            content@,
            texts(tags@),
            updated,
        ),
{
    repo.update_note(user_id, note_id, title, content, tags)
}

/// The note `note_id` of `user_id`.
pub fn get_note_by_id<R: NoteRepo>(repo: &R, user_id: ObjectId, note_id: ObjectId) -> (found:
    Result<Note, ApiError>)
    ensures
        get_note_outcome(repo.notes(), repo.reliable(), note_id, user_id, found),
{
    repo.get_note_by_id(note_id, user_id)
}

/// One line for each note of `user_id`.
pub fn get_all_notes_from_user<R: NoteRepo>(repo: &R, user_id: ObjectId) -> (found: Result<
    Vec<AllNotesResponse>,
    ApiError,
>)
    requires
        distinct_note_ids(repo.notes()),
    ensures
        all_notes_outcome(repo.notes(), repo.reliable(), user_id, found),
{
    repo.get_all_notes_from_user(user_id)
}

/// Pins the todo list `todo_list_id` to the note `note_id`, both of `user_id`.
pub fn pin_todo_list<R: NoteRepo, T: TodoRepo>(
    note_repo: &mut R,
    todo_repo: &T,
    user_id: ObjectId,
    note_id: ObjectId,
    todo_list_id: ObjectId,
) -> (done: Result<(), ApiError>)
    requires
        distinct_note_ids(old(note_repo).notes()),
    ensures
        final(note_repo).reliable() == old(note_repo).reliable(),
        distinct_note_ids(final(note_repo).notes()),
        pin_outcome(
            old(note_repo).notes(),
            final(note_repo).notes(),
            old(note_repo).reliable(),
            todo_repo.reliable(),
            has_list(todo_repo.lists(), todo_list_id, user_id),
            todo_list_id,
            note_id,
            user_id,
            done,
        ),
{
    note_repo.pin_todo_list(todo_repo, todo_list_id, note_id, user_id)
}

/// Takes the todo list `todo_list_id` off the note `note_id` of `user_id`.
pub fn unpin_todo_list<R: NoteRepo>(
    note_repo: &mut R,
    user_id: ObjectId,
    note_id: ObjectId,
    todo_list_id: ObjectId,
) -> (done: Result<(), ApiError>)
    requires
        distinct_note_ids(old(note_repo).notes()),
    ensures
        final(note_repo).reliable() == old(note_repo).reliable(),
        distinct_note_ids(final(note_repo).notes()),
        unpin_outcome(
            old(note_repo).notes(),
            final(note_repo).notes(),
            old(note_repo).reliable(),
            todo_list_id,
            note_id,
            user_id,
            done,
        ),
{
    note_repo.unpin_todo_list(todo_list_id, note_id, user_id)
}

} // verus!
