//! The collection of todo lists that a document store keeps: what the todo
//! list store asks of its backend.

use crate::models::oid::ObjectId;
use crate::models::todo::{Todo, TodoList, TodoListView, TodoPriority, TodoView};
use crate::repository::todo_repo::{
    distinct_list_ids, first_todo, has_todo, list_views, retitled, unused_list_id, with_todos,
    without_todo,
};
use crate::repository::StoreError;
use vstd::prelude::*;

verus! {

/// An equality filter on todo lists. A field that is `None` asks for nothing.
#[derive(Debug, Clone, Copy)]
pub struct TodoFilter {
    /// The identifier that the list must have.
    pub id: Option<ObjectId>,
    /// The owner that the list must have.
    pub user_id: Option<ObjectId>,
    /// The identifier of a todo that the list must hold.
    pub todo: Option<ObjectId>,
    /// The identifier of a todo that the list must not hold.
    pub without_todo: Option<ObjectId>,
}

/// The filter for the lists of one owner.
pub open spec fn lists_of_owner(user_id: ObjectId) -> TodoFilter {
    TodoFilter { id: None, user_id: Some(user_id), todo: None, without_todo: None }
}

/// The filter for the list with this identifier, whoever owns it.
pub open spec fn list_by_id(list_id: ObjectId) -> TodoFilter {
    TodoFilter { id: Some(list_id), user_id: None, todo: None, without_todo: None }
}

/// The filter for the owner's list with this identifier.
pub open spec fn owned_list(list_id: ObjectId, user_id: ObjectId) -> TodoFilter {
    TodoFilter { id: Some(list_id), user_id: Some(user_id), todo: None, without_todo: None }
}

/// The filter for the owner's list with this identifier, where it holds a
/// todo with the identifier `todo_id`.
pub open spec fn owned_list_with(list_id: ObjectId, user_id: ObjectId, todo_id: ObjectId)
    -> TodoFilter {
    TodoFilter {
        id: Some(list_id),
        user_id: Some(user_id),
        todo: Some(todo_id),
        without_todo: None,
    }
}

/// The filter for the owner's list with this identifier, where it holds no
/// todo with the identifier `todo_id`.
pub open spec fn owned_list_without(list_id: ObjectId, user_id: ObjectId, todo_id: ObjectId)
    -> TodoFilter {
    TodoFilter {
        id: Some(list_id),
        user_id: Some(user_id),
        todo: None,
        without_todo: Some(todo_id),
    }
}

impl TodoFilter {
    /// Whether `list` passes the filter.
    pub open spec fn matches(self, list: TodoListView) -> bool {
        &&& self.id matches Some(id) ==> list.id == id
        &&& self.user_id matches Some(user_id) ==> list.user_id == user_id
        &&& self.todo matches Some(todo_id) ==> has_todo(list.todos, todo_id)
        &&& self.without_todo matches Some(todo_id) ==> !has_todo(list.todos, todo_id)
    }

    /// The lists of one owner.
    pub fn of_owner(user_id: ObjectId) -> (filter: Self)
        ensures
            filter == lists_of_owner(user_id),
    {
        TodoFilter { id: None, user_id: Some(user_id), todo: None, without_todo: None }
    }

    /// The list with this identifier, whoever owns it.
    pub fn with_id(list_id: ObjectId) -> (filter: Self)
        ensures
            filter == list_by_id(list_id),
    {
        TodoFilter { id: Some(list_id), user_id: None, todo: None, without_todo: None }
    }

    /// The owner's list with this identifier.
    pub fn owned(list_id: ObjectId, user_id: ObjectId) -> (filter: Self)
        ensures
            filter == owned_list(list_id, user_id),
    {
        TodoFilter { id: Some(list_id), user_id: Some(user_id), todo: None, without_todo: None }
    }

    /// The owner's list with this identifier, where it holds the todo.
    pub fn owned_with_todo(list_id: ObjectId, user_id: ObjectId, todo_id: ObjectId) -> (filter:
        Self)
        ensures
            filter == owned_list_with(list_id, user_id, todo_id),
    {
        TodoFilter {
            id: Some(list_id),
            user_id: Some(user_id),
            todo: Some(todo_id),
            without_todo: None,
        }
    }

    /// The owner's list with this identifier, where it holds no todo with the
    /// identifier `todo_id`.
    pub fn owned_without_todo(list_id: ObjectId, user_id: ObjectId, todo_id: ObjectId) -> (filter:
        Self)
        ensures
            filter == owned_list_without(list_id, user_id, todo_id),
    {
        TodoFilter {
            id: Some(list_id),
            user_id: Some(user_id),
            todo: None,
            without_todo: Some(todo_id),
        }
    }
}

/// Whether the list at position `i` passes the filter.
pub open spec fn list_at_position(lists: Seq<TodoListView>, i: int, filter: TodoFilter) -> bool {
    0 <= i < lists.len() && filter.matches(lists[i])
}

/// Whether some list passes the filter.
pub open spec fn any_list(lists: Seq<TodoListView>, filter: TodoFilter) -> bool {
    exists|i: int| list_at_position(lists, i, filter)
}

/// Whether `list` is a list that passes the filter.
pub open spec fn selects_list(lists: Seq<TodoListView>, filter: TodoFilter, list: TodoListView)
    -> bool {
    exists|i: int| list_at_position(lists, i, filter) && lists[i] == list
}

/// Whether `found` is what a query with this filter returns: each list that
/// passes the filter once, in any order, and nothing else.
pub open spec fn list_selection(
    lists: Seq<TodoListView>,
    filter: TodoFilter,
    found: Seq<TodoListView>,
) -> bool {
    &&& forall|k: int| 0 <= k < found.len() ==> selects_list(lists, filter, #[trigger] found[k])
    &&& forall|i: int| list_at_position(lists, i, filter) ==> found.contains(lists[i])
    &&& distinct_list_ids(found)
}

/// What inserting a list answers and does. Identifiers are unique: a reliable
/// store takes the list exactly when no list has its identifier.
pub open spec fn insert_list_outcome(
    before: Seq<TodoListView>,
    after: Seq<TodoListView>,
    reliable: bool,
    list: TodoListView,
    inserted: Result<(), StoreError>,
) -> bool {
    &&& reliable ==> (inserted is Ok <==> unused_list_id(before, list.id))
    &&& match inserted {
        Ok(()) => unused_list_id(before, list.id) && after == before.push(list),
        Err(_) => reliable ==> after == before,
    }
}

/// What looking for one list answers.
pub open spec fn find_list_outcome(
    lists: Seq<TodoListView>,
    reliable: bool,
    filter: TodoFilter,
    found: Result<Option<TodoList>, StoreError>,
) -> bool {
    match found {
        Ok(Some(list)) => selects_list(lists, filter, list@),
        Ok(None) => !any_list(lists, filter),
        Err(_) => !reliable,
    }
}

/// What looking for all lists that pass a filter answers.
pub open spec fn find_lists_outcome(
    lists: Seq<TodoListView>,
    reliable: bool,
    filter: TodoFilter,
    found: Result<Vec<TodoList>, StoreError>,
) -> bool {
    match found {
        Ok(all) => list_selection(lists, filter, list_views(all@)),
        Err(_) => !reliable,
    }
}

/// What deleting one list answers and does: `true` where a list passed the
/// filter and is gone, `false` where none did.
pub open spec fn delete_one_list_outcome(
    before: Seq<TodoListView>,
    after: Seq<TodoListView>,
    reliable: bool,
    filter: TodoFilter,
    deleted: Result<bool, StoreError>,
) -> bool {
    match deleted {
        Ok(true) => exists|i: int|
            list_at_position(before, i, filter) && after == before.remove(i),
        Ok(false) => !any_list(before, filter) && after == before,
        Err(_) => !reliable,
    }
}

/// What setting the title of one list answers and does.
pub open spec fn set_title_outcome(
    before: Seq<TodoListView>,
    after: Seq<TodoListView>,
    reliable: bool,
    filter: TodoFilter,
    title: Seq<char>,
    matched: Result<bool, StoreError>,
) -> bool {
    match matched {
        Ok(true) => exists|i: int|
            list_at_position(before, i, filter) && after == before.update(
                i,
                retitled(before[i], title),
            ),
        Ok(false) => !any_list(before, filter) && after == before,
        Err(_) => !reliable,
    }
}

/// What appending a todo to one list answers and does.
pub open spec fn push_todo_outcome(
    before: Seq<TodoListView>,
    after: Seq<TodoListView>,
    reliable: bool,
    filter: TodoFilter,
    todo: TodoView,
    matched: Result<bool, StoreError>,
) -> bool {
    match matched {
        Ok(true) => exists|i: int|
            list_at_position(before, i, filter) && after == before.update(
                i,
                with_todos(before[i], before[i].todos.push(todo)),
            ),
        Ok(false) => !any_list(before, filter) && after == before,
        Err(_) => !reliable,
    }
}

/// Whether `after` is `before` with title, state and priority of the first
/// todo with the identifier `todo_id`, in a list that passes the filter,
/// replaced.
pub open spec fn todo_set(
    before: Seq<TodoListView>,
    after: Seq<TodoListView>,
    filter: TodoFilter,
    todo_id: ObjectId,
    title: Seq<char>,
    status: bool,
    priority: TodoPriority,
) -> bool {
    exists|i: int, k: int|
        list_at_position(before, i, filter) && first_todo(before[i].todos, k, todo_id) && after
            == before.update(
            i,
            with_todos(
                before[i],
                before[i].todos.update(k, TodoView { id: todo_id, title, status, priority }),
            ),
        )
}

/// What replacing title, state and priority of the todo that the filter asks
/// for, in one list, answers and does. The todo is found by the filter: under
/// a filter that asks for no todo nothing is replaced, and the call fails
/// where a list passes.
pub open spec fn set_todo_outcome(
    before: Seq<TodoListView>,
    after: Seq<TodoListView>,
    reliable: bool,
    filter: TodoFilter,
    title: Seq<char>,
    status: bool,
    priority: TodoPriority,
    matched: Result<bool, StoreError>,
) -> bool {
    match filter.todo {
        Some(todo_id) => match matched {
            Ok(true) => todo_set(before, after, filter, todo_id, title, status, priority),
            Ok(false) => !any_list(before, filter) && after == before,
            Err(_) => !reliable,
        },
        None => !(matched matches Ok(true)) && (reliable ==> after == before),
    }
}

/// What pulling the todos with the identifier `todo_id` out of one list
/// answers and does.
pub open spec fn pull_todo_outcome(
    before: Seq<TodoListView>,
    after: Seq<TodoListView>,
    reliable: bool,
    filter: TodoFilter,
    todo_id: ObjectId,
    matched: Result<bool, StoreError>,
) -> bool {
    match matched {
        Ok(true) => exists|i: int|
            list_at_position(before, i, filter) && after == before.update(
                i,
                with_todos(before[i], without_todo(before[i].todos, todo_id)),
            ),
        Ok(false) => !any_list(before, filter) && after == before,
        Err(_) => !reliable,
    }
}

/// A collection of todo lists in a document store. Each call is one atomic
/// operation of the store, on at most one list.
pub trait TodoCollection {
    /// The lists that the collection holds.
    spec fn lists(&self) -> Seq<TodoListView>;

    /// Whether the store never fails.
    spec fn reliable(&self) -> bool;

    /// Inserts a list.
    fn insert_one(&mut self, list: &TodoList) -> (inserted: Result<(), StoreError>)
        requires
            distinct_list_ids(old(self).lists()),
        ensures
            final(self).reliable() == old(self).reliable(),
            distinct_list_ids(final(self).lists()),
            insert_list_outcome(
                old(self).lists(),
                final(self).lists(),
                old(self).reliable(),
                list@,
                inserted,
            ),
    ;

    /// A list that passes the filter.
    fn find_one(&self, filter: TodoFilter) -> (found: Result<Option<TodoList>, StoreError>)
        ensures
            find_list_outcome(self.lists(), self.reliable(), filter, found),
    ;

    /// All lists that pass the filter.
    fn find(&self, filter: TodoFilter) -> (found: Result<Vec<TodoList>, StoreError>)
        requires
            distinct_list_ids(self.lists()),
        ensures
            find_lists_outcome(self.lists(), self.reliable(), filter, found),
    ;

    /// Deletes a list that passes the filter.
    fn delete_one(&mut self, filter: TodoFilter) -> (deleted: Result<bool, StoreError>)
        requires
            distinct_list_ids(old(self).lists()),
        ensures
            final(self).reliable() == old(self).reliable(),
            distinct_list_ids(final(self).lists()),
            delete_one_list_outcome(
                old(self).lists(),
                final(self).lists(),
                old(self).reliable(),
                filter,
                deleted,
            ),
    ;

    /// Sets the title of a list that passes the filter.
    fn set_title(&mut self, filter: TodoFilter, title: String) -> (matched: Result<
        bool,
        StoreError,
    >)
        requires
            distinct_list_ids(old(self).lists()),
        ensures
            final(self).reliable() == old(self).reliable(),
            distinct_list_ids(final(self).lists()),
            set_title_outcome(
                old(self).lists(),
                final(self).lists(),
                old(self).reliable(),
                filter,
                title@,
                matched,
            ),
    ;

    /// Appends a todo to the todos of a list that passes the filter.
    fn push_todo(&mut self, filter: TodoFilter, todo: Todo) -> (matched: Result<bool, StoreError>)
        requires
            distinct_list_ids(old(self).lists()),
        ensures
            final(self).reliable() == old(self).reliable(),
            distinct_list_ids(final(self).lists()),
            push_todo_outcome(
                old(self).lists(),
                final(self).lists(),
                old(self).reliable(),
                filter,
                todo@,
                matched,
            ),
    ;

    /// Replaces title, state and priority of the first todo with the
    /// identifier that the filter asks for, in a list that passes the filter.
    /// The filter has to ask for a todo: it is how the store finds the place.
    fn set_todo(
        &mut self,
        filter: TodoFilter,
        title: String,
        status: bool,
        priority: TodoPriority,
    ) -> (matched: Result<bool, StoreError>)
        requires
            distinct_list_ids(old(self).lists()),
        ensures
            final(self).reliable() == old(self).reliable(),
            distinct_list_ids(final(self).lists()),
            set_todo_outcome(
                old(self).lists(),
                final(self).lists(),
                old(self).reliable(),
                filter,
                title@,
                status,
                priority,
                matched,
            ),
    ;

    /// Takes every todo with the identifier `todo_id` out of a list that
    /// passes the filter.
    fn pull_todo(&mut self, filter: TodoFilter, todo_id: ObjectId) -> (matched: Result<
        bool,
        StoreError,
    >)
        requires
            distinct_list_ids(old(self).lists()),
        ensures
            final(self).reliable() == old(self).reliable(),
            distinct_list_ids(final(self).lists()),
            pull_todo_outcome(
                old(self).lists(),
                final(self).lists(),
                old(self).reliable(),
                filter,
                todo_id,
                matched,
            ),
    ;
}

} // verus!
