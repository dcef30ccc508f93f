//! Notes of the authenticated caller.

use crate::error::ApiError;
use crate::models::note::Note;
use crate::models::oid::ObjectId;
use crate::models::texts;
use crate::models::user::User;
use crate::repository::note_repo::{
    all_notes_outcome, create_note_outcome, delete_note_outcome, distinct_note_ids,
    get_note_outcome, pin_outcome, unpin_outcome, update_note_outcome, NoteRepo,
};
use crate::repository::todo_repo::{has_list, TodoRepo};
use crate::services::note_service;
use vstd::prelude::*;

verus! {

/// The body of a request that creates or updates a note.
#[derive(Debug)]
pub struct CreateNotePayload {
    pub title: String,
    pub content: String,
    pub tags: Vec<String>,
}

/// One line of a listing of notes: what identifies a note, without its content.
#[derive(Debug, PartialEq, Eq)]
pub struct AllNotesResponse {
    pub title: String,
    pub id: ObjectId,
    pub tags: Vec<String>,
}

/// What an [`AllNotesResponse`] holds.
pub struct AllNotesResponseView {
    pub title: Seq<char>,
    pub id: ObjectId,
    pub tags: Seq<Seq<char>>,
}

impl View for AllNotesResponse {
    type V = AllNotesResponseView;

    open spec fn view(&self) -> AllNotesResponseView {
        AllNotesResponseView { title: self.title@, id: self.id, tags: texts(self.tags@) }
    }
}

/// Creates a note of the caller.
pub fn create_note<R: NoteRepo>(repo: &mut R, user: &User, payload: CreateNotePayload) -> (created:
    Result<Note, ApiError>)
    requires
        distinct_note_ids(old(repo).notes()),
    ensures
        final(repo).reliable() == old(repo).reliable(),
        distinct_note_ids(final(repo).notes()),
        create_note_outcome(
            old(repo).notes(),
            final(repo).notes(),
            old(repo).reliable(),
            user.id,
            payload.title@,
            payload.content@,
            texts(payload.tags@),
            created,
        ),
{
    note_service::create_note(
        repo,
        user.id,
        payload.title.as_str(),
        payload.content.as_str(),
        payload.tags,
    )
}

/// Deletes the caller's note `id`.
pub fn delete_note<R: NoteRepo>(repo: &mut R, user: &User, id: ObjectId) -> (deleted: Result<
    (),
    ApiError,
>)
    requires
        distinct_note_ids(old(repo).notes()),
    ensures
        final(repo).reliable() == old(repo).reliable(),
        distinct_note_ids(final(repo).notes()),
        delete_note_outcome(
            old(repo).notes(),
            final(repo).notes(),
            old(repo).reliable(),
            id,
            user.id,
            deleted,
        ),
{
    note_service::delete_note(repo, id, user.id)
}

/// One line for each note of the caller.
pub fn get_all_notes_info<R: NoteRepo>(repo: &R, user: &User) -> (found: Result<
    Vec<AllNotesResponse>,
    ApiError,
>)
    requires
        distinct_note_ids(repo.notes()),
    ensures
        all_notes_outcome(repo.notes(), repo.reliable(), user.id, found),
{
    note_service::get_all_notes_from_user(repo, user.id)
}

/// The caller's note `id`.
pub fn get_note_by_id<R: NoteRepo>(repo: &R, user: &User, id: ObjectId) -> (found: Result<
    Note,
    ApiError,
>)
    ensures
        get_note_outcome(repo.notes(), repo.reliable(), id, user.id, found),
{
    note_service::get_note_by_id(repo, user.id, id)
}

/// Replaces title, content and tags of the caller's note `id`.
pub fn update_note_by_id<R: NoteRepo>(
    repo: &mut R,
    user: &User,
    id: ObjectId,
    payload: CreateNotePayload,
) -> (updated: Result<(), ApiError>)
    requires
        distinct_note_ids(old(repo).notes()),
    ensures
        final(repo).reliable() == old(repo).reliable(),
        distinct_note_ids(final(repo).notes()),
        update_note_outcome(
            old(repo).notes(),
            final(repo).notes(),
            old(repo).reliable(),
            id,
            user.id,
            payload.title@,
            payload.content@,
            texts(payload.tags@),
            updated,
        ),
{
    note_service::update_note(
        repo,
        user.id,
        id,
        payload.title.as_str(),
        payload.content.as_str(),
        payload.tags,
    )
}

/// Pins the caller's todo list `todo_list_id` to the caller's note `id`.
pub fn pin_todo_list<R: NoteRepo, T: TodoRepo>(
    note_repo: &mut R,
    todo_repo: &T,
    user: &User,
    id: ObjectId,
    todo_list_id: ObjectId,
) -> (done: Result<(), ApiError>)
    requires
        distinct_note_ids(old(note_repo).notes()),
    ensures
        final(note_repo).reliable() == old(note_repo).reliable(),
        distinct_note_ids(final(note_repo).notes()),
        pin_outcome(
            old(note_repo).notes(),
            final(note_repo).notes(),
            old(note_repo).reliable(),
            todo_repo.reliable(),
            has_list(todo_repo.lists(), todo_list_id, user.id),
            todo_list_id,
            id,
            user.id,
            done,
        ),
{
    note_service::pin_todo_list(note_repo, todo_repo, user.id, id, todo_list_id)
}

/// Takes the todo list `todo_list_id` off the caller's note `id`.
pub fn unpin_todo_list<R: NoteRepo>(
    note_repo: &mut R,
    user: &User,
    id: ObjectId,
    todo_list_id: ObjectId,
) -> (done: Result<(), ApiError>)
    requires
        distinct_note_ids(old(note_repo).notes()),
    ensures
        final(note_repo).reliable() == old(note_repo).reliable(),
        distinct_note_ids(final(note_repo).notes()),
        unpin_outcome(
            old(note_repo).notes(),
            final(note_repo).notes(),
            old(note_repo).reliable(),
            todo_list_id,
            id,
            user.id,
            done,
        ),
{
    note_service::unpin_todo_list(note_repo, user.id, id, todo_list_id)
}

} // verus!
