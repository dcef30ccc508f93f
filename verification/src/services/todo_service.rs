//! Todo lists and their todos.

use crate::error::ApiError;
use crate::models::oid::ObjectId;
use crate::models::todo::{TodoList, TodoPriority};
use crate::repository::todo_repo::{
    all_lists_outcome, create_list_outcome, create_todo_outcome, delete_list_outcome,
    delete_todo_outcome, distinct_list_ids, get_lists_outcome, modify_todo_outcome,
    rename_list_outcome, TodoRepo,
};
use vstd::prelude::*;

verus! {

/// Creates a list of `user_id` without todos.
pub fn create_todo_list<R: TodoRepo>(repo: &mut R, user_id: ObjectId, title: String) -> (created:
    Result<TodoList, ApiError>)
    requires
        distinct_list_ids(old(repo).lists()),
    ensures
        final(repo).reliable() == old(repo).reliable(),
        distinct_list_ids(final(repo).lists()),
        create_list_outcome(
            old(repo).lists(),
            final(repo).lists(),
            old(repo).reliable(),
            user_id,
            title@,
            created,
        ),
{
    repo.create_todo_list(title, user_id)
}

/// All lists of `user_id`, or `NotFound` where there is none.
pub fn get_all_todo_list<R: TodoRepo>(repo: &R, user_id: ObjectId) -> (found: Result<
    Vec<TodoList>,
    ApiError,
>)
    requires
        distinct_list_ids(repo.lists()),
    ensures
        all_lists_outcome(repo.lists(), repo.reliable(), user_id, found),
{
    repo.get_all_todo_lists(user_id)
}

/// The lists of `user_id` that the identifiers in `list` resolve to.
pub fn get_todo_lists<R: TodoRepo>(repo: &R, list: Vec<ObjectId>, user_id: ObjectId) -> (found:
    Result<Vec<TodoList>, ApiError>)
    requires
        distinct_list_ids(repo.lists()),
    ensures
        get_lists_outcome(repo.lists(), repo.reliable(), list@, user_id, found),
{
    repo.get_todo_lists(list, user_id)
}

/// Deletes the list `todo_list_id` of `user_id`.
pub fn delete_todo_list<R: TodoRepo>(repo: &mut R, todo_list_id: ObjectId, user_id: ObjectId)
    -> (deleted: Result<(), ApiError>)
    requires
        distinct_list_ids(old(repo).lists()),
    ensures
        final(repo).reliable() == old(repo).reliable(),
        distinct_list_ids(final(repo).lists()),
        delete_list_outcome(
            old(repo).lists(),
            final(repo).lists(),
            old(repo).reliable(),
            todo_list_id,
            user_id,
            deleted,
        ),
{
    repo.delete_todo_list(todo_list_id, user_id)
}

/// Gives the list `todo_list_id` of `user_id` the title `title`.
pub fn rename_todo_list<R: TodoRepo>(
    repo: &mut R,
    todo_list_id: ObjectId,
    user_id: ObjectId,
    title: String,
) -> (renamed: Result<(), ApiError>)
    requires
        distinct_list_ids(old(repo).lists()),
    ensures
        final(repo).reliable() == old(repo).reliable(),
        distinct_list_ids(final(repo).lists()),
        rename_list_outcome(
            old(repo).lists(),
            final(repo).lists(),
            old(repo).reliable(),
            todo_list_id,
            user_id,
            title@,
            renamed,
        ),
{
    repo.rename_todo_list(todo_list_id, user_id, title)
}

/// Appends a new todo to the list `todo_list_id` of `user_id`.
pub fn create_todo<R: TodoRepo>(
    repo: &mut R,
    todo_list_id: ObjectId,
    user_id: ObjectId,
    title: String,
    status: bool,
    priority: TodoPriority,
) -> (created: Result<(), ApiError>)
    requires
        distinct_list_ids(old(repo).lists()),
    ensures
        final(repo).reliable() == old(repo).reliable(),
        distinct_list_ids(final(repo).lists()),
        create_todo_outcome(
            old(repo).lists(),
            final(repo).lists(),
            old(repo).reliable(),
            todo_list_id,
            user_id,
            title@,
            status,
            priority,
            created,
        ),
{
    repo.create_todo(todo_list_id, user_id, title, status, priority)
}

/// Replaces title, state and priority of the todo `todo_id` in the list
/// `todo_list_id` of `user_id`.
pub fn modify_todo<R: TodoRepo>(
    repo: &mut R,
    todo_list_id: ObjectId,
    user_id: ObjectId,
    todo_id: ObjectId,
    title: String,
    status: bool,
    priority: TodoPriority,
) -> (modified: Result<(), ApiError>)
    requires
        distinct_list_ids(old(repo).lists()),
    ensures
        final(repo).reliable() == old(repo).reliable(),
        distinct_list_ids(final(repo).lists()),
        modify_todo_outcome(
            old(repo).lists(),
            final(repo).lists(),
            old(repo).reliable(),
            todo_list_id,
            user_id,
            todo_id,
            title@,
            status,
            priority,
            modified,
        ),
{
    repo.modify_todo(todo_list_id, user_id, todo_id, title, status, priority)
}

/// Takes the todo `todo_id` out of the list `todo_list_id` of `user_id`.
pub fn delete_todo<R: TodoRepo>(
    repo: &mut R,
    todo_list_id: ObjectId,
    user_id: ObjectId,
    todo_id: ObjectId,
) -> (deleted: Result<(), ApiError>)
    requires
        distinct_list_ids(old(repo).lists()),
    ensures
        final(repo).reliable() == old(repo).reliable(),
        distinct_list_ids(final(repo).lists()),
        delete_todo_outcome(
            old(repo).lists(),
            final(repo).lists(),
            old(repo).reliable(),
            todo_list_id,
            user_id,
            todo_id,
            deleted,
        ),
{
    repo.delete_todo(todo_list_id, user_id, todo_id)
}

} // verus!
