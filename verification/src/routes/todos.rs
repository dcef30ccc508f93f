//! Todo lists of the authenticated caller.

use crate::error::ApiError;
use crate::models::oid::ObjectId;
use crate::models::todo::{TodoList, TodoPriority};
use crate::models::user::User;
use crate::repository::todo_repo::{
    all_lists_outcome, create_list_outcome, create_todo_outcome, delete_list_outcome,
    delete_todo_outcome, distinct_list_ids, get_lists_outcome, modify_todo_outcome,
    rename_list_outcome, TodoRepo,
};
use crate::services::todo_service;
use vstd::prelude::*;

verus! {

/// The body of a request that creates or renames a todo list.
#[derive(Debug)]
pub struct TodoListPayload {
    pub title: String,
}

/// The body of a request for several todo lists at once.
#[derive(Debug)]
pub struct TodoListVecPayload {
    pub list: Vec<ObjectId>,
}

/// The body of a request that creates or modifies a todo.
#[derive(Debug)]
pub struct TodoPayload {
    pub title: String,
    pub status: bool,
    pub priority: TodoPriority,
}

/// Creates a todo list of the caller.
pub fn create_todo_list<R: TodoRepo>(repo: &mut R, user: &User, payload: TodoListPayload)
    -> (created: Result<TodoList, ApiError>)
    requires
        distinct_list_ids(old(repo).lists()),
    ensures
        final(repo).reliable() == old(repo).reliable(),
        distinct_list_ids(final(repo).lists()),
        create_list_outcome(
            old(repo).lists(),
            final(repo).lists(),
            old(repo).reliable(),
            user.id,
            payload.title@,
            created,
        ),
{
    todo_service::create_todo_list(repo, user.id, payload.title)
}

/// All todo lists of the caller, or `NotFound` where there is none.
pub fn get_all_todo_lists<R: TodoRepo>(repo: &R, user: &User) -> (found: Result<
    Vec<TodoList>,
    ApiError,
>)
    requires
        distinct_list_ids(repo.lists()),
    ensures
        all_lists_outcome(repo.lists(), repo.reliable(), user.id, found),
{
    todo_service::get_all_todo_list(repo, user.id)
}

/// The caller's todo lists that the identifiers of `payload` resolve to.
pub fn get_all_todos_by_id<R: TodoRepo>(repo: &R, user: &User, payload: TodoListVecPayload)
    -> (found: Result<Vec<TodoList>, ApiError>)
    requires
        distinct_list_ids(repo.lists()),
    ensures
        get_lists_outcome(repo.lists(), repo.reliable(), payload.list@, user.id, found),
{
    todo_service::get_todo_lists(repo, payload.list, user.id)
}

/// Gives the caller's todo list `todo_list_id` the title of `payload`.
pub fn rename_todo_list<R: TodoRepo>(
    repo: &mut R,
    user: &User,
    todo_list_id: ObjectId,
    payload: TodoListPayload,
) -> (renamed: Result<(), ApiError>)
    requires
        distinct_list_ids(old(repo).lists()),
    ensures
        final(repo).reliable() == old(repo).reliable(),
        distinct_list_ids(final(repo).lists()),
        rename_list_outcome(
            old(repo).lists(),
            final(repo).lists(),
            old(repo).reliable(),
            todo_list_id,
            user.id,
            payload.title@,
            renamed,
        ),
{
    todo_service::rename_todo_list(repo, todo_list_id, user.id, payload.title)
}

/// Deletes the caller's todo list `todo_list_id`.
pub fn delete_todo_list<R: TodoRepo>(repo: &mut R, user: &User, todo_list_id: ObjectId) -> (deleted:
    Result<(), ApiError>)
    requires
        distinct_list_ids(old(repo).lists()),
    ensures
        final(repo).reliable() == old(repo).reliable(),
        distinct_list_ids(final(repo).lists()),
        delete_list_outcome(
            old(repo).lists(),
            final(repo).lists(),
            old(repo).reliable(),
            todo_list_id,
            user.id,
            deleted,
        ),
{
    todo_service::delete_todo_list(repo, todo_list_id, user.id)
}

/// Appends the todo of `payload` to the caller's todo list `todo_list_id`.
pub fn create_todo<R: TodoRepo>(
    repo: &mut R,
    user: &User,
    todo_list_id: ObjectId,
    payload: TodoPayload,
) -> (created: Result<(), ApiError>)
    requires
        distinct_list_ids(old(repo).lists()),
    ensures
        final(repo).reliable() == old(repo).reliable(),
        distinct_list_ids(final(repo).lists()),
        create_todo_outcome(
            old(repo).lists(),
            final(repo).lists(),
            old(repo).reliable(),
            todo_list_id,
            user.id,
            payload.title@,
            payload.status,
            payload.priority,
            created,
        ),
{
    todo_service::create_todo(
        repo,
        todo_list_id,
        user.id,
        payload.title,
        payload.status,
        payload.priority,
    )
}

/// Replaces title, state and priority of the todo `todo_id` in the caller's
/// todo list `todo_list_id` by those of `payload`.
pub fn modify_todo<R: TodoRepo>(
    repo: &mut R,
    user: &User,
    todo_list_id: ObjectId,
    todo_id: ObjectId,
    payload: TodoPayload,
) -> (modified: Result<(), ApiError>)
    requires
        distinct_list_ids(old(repo).lists()),
    ensures
        final(repo).reliable() == old(repo).reliable(),
        distinct_list_ids(final(repo).lists()),
        modify_todo_outcome(
            old(repo).lists(),
            final(repo).lists(),
            old(repo).reliable(),
            todo_list_id,
            user.id,
            todo_id,
            payload.title@,
            payload.status,
            payload.priority,
            modified,
        ),
{
    todo_service::modify_todo(
        repo,
        todo_list_id,
        user.id,
        todo_id,
        payload.title,
        payload.status,
        payload.priority,
    )
}

/// Takes the todo `todo_id` out of the caller's todo list `todo_list_id`.
pub fn delete_todo<R: TodoRepo>(
    repo: &mut R,
    user: &User,
    todo_list_id: ObjectId,
    todo_id: ObjectId,
) -> (deleted: Result<(), ApiError>)
    requires
        distinct_list_ids(old(repo).lists()),
    ensures
        final(repo).reliable() == old(repo).reliable(),
        distinct_list_ids(final(repo).lists()),
        delete_todo_outcome(
            old(repo).lists(),
            final(repo).lists(),
            old(repo).reliable(),
            todo_list_id,
            user.id,
            todo_id,
            deleted,
        ),
{
    todo_service::delete_todo(repo, todo_list_id, user.id, todo_id)
}

} // verus!
