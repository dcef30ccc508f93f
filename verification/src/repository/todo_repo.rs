//! The todo list store.

use crate::error::ApiError;
use crate::models::oid::ObjectId;
use crate::models::todo::{TodoList, TodoListView, TodoPriority, TodoView};
pub use crate::repository::todo_store::MongoTodoRepo;
use vstd::prelude::*;

verus! {

/// Whether the list at position `i` has this identifier and this owner.
pub open spec fn owns_list(lists: Seq<TodoListView>, i: int, list_id: ObjectId, user_id: ObjectId)
    -> bool {
    0 <= i < lists.len() && lists[i].id == list_id && lists[i].user_id == user_id
}

/// Whether the owner has a list with this identifier.
pub open spec fn has_list(lists: Seq<TodoListView>, list_id: ObjectId, user_id: ObjectId) -> bool {
    exists|i: int| owns_list(lists, i, list_id, user_id)
}

/// Whether the list at position `i` belongs to this owner.
pub open spec fn list_of(lists: Seq<TodoListView>, i: int, user_id: ObjectId) -> bool {
    0 <= i < lists.len() && lists[i].user_id == user_id
}

/// Whether no two lists share an identifier.
pub open spec fn distinct_list_ids(lists: Seq<TodoListView>) -> bool {
    forall|i: int, j: int| 0 <= i < j < lists.len() ==> lists[i].id != lists[j].id
}

/// Whether the list at position `i` has this identifier, whoever owns it.
pub open spec fn list_with_id(lists: Seq<TodoListView>, i: int, list_id: ObjectId) -> bool {
    0 <= i < lists.len() && lists[i].id == list_id
}

/// Whether no list has this identifier.
pub open spec fn unused_list_id(lists: Seq<TodoListView>, list_id: ObjectId) -> bool {
    forall|i: int| !list_with_id(lists, i, list_id)
}

/// Taking a list out leaves the identifiers distinct.
pub proof fn lemma_distinct_without(lists: Seq<TodoListView>, i: int)
    requires
        distinct_list_ids(lists),
        0 <= i < lists.len(),
    ensures
        distinct_list_ids(lists.remove(i)),
{
    let rest = lists.remove(i);
    assert forall|a: int, b: int| 0 <= a < b < rest.len() implies rest[a].id != rest[b].id by {
        let from_a = if a < i { a } else { a + 1 };
        let from_b = if b < i { b } else { b + 1 };
        assert(rest[a] == lists[from_a] && rest[b] == lists[from_b]);
    }
}

/// Adding a list under an identifier that no list has leaves the identifiers
/// distinct.
pub proof fn lemma_distinct_with(lists: Seq<TodoListView>, list: TodoListView)
    requires
        distinct_list_ids(lists),
        unused_list_id(lists, list.id),
    ensures
        distinct_list_ids(lists.push(list)),
{
    let more = lists.push(list);
    assert forall|a: int, b: int| 0 <= a < b < more.len() implies more[a].id != more[b].id by {
        if b == lists.len() {
            assert(!list_with_id(lists, a, list.id));
        }
    }
}

/// Whether `found` is what a listing for this owner returns: each of the
/// owner's lists once, and nothing else, in any order.
pub open spec fn lists_of(lists: Seq<TodoListView>, user_id: ObjectId, found: Seq<TodoListView>)
    -> bool {
    &&& forall|k: int|
        0 <= k < found.len() ==> lists.contains(#[trigger] found[k]) && found[k].user_id == user_id
    &&& forall|i: int| list_of(lists, i, user_id) ==> found.contains(lists[i])
    &&& distinct_list_ids(found)
}

/// The owner's list with this identifier.
pub open spec fn list_at(lists: Seq<TodoListView>, list_id: ObjectId, user_id: ObjectId)
    -> TodoListView {
    lists[choose|i: int| owns_list(lists, i, list_id, user_id)]
}

/// The lists that the identifiers `ids` resolve to for this owner, in the
/// order of `ids`. An identifier that resolves to nothing is passed over.
pub open spec fn resolved(lists: Seq<TodoListView>, ids: Seq<ObjectId>, user_id: ObjectId) -> Seq<
    TodoListView,
>
    decreases ids.len(),
{
    if ids.len() == 0 {
        Seq::empty()
    } else {
        let rest = resolved(lists, ids.drop_last(), user_id);
        if has_list(lists, ids.last(), user_id) {
            rest.push(list_at(lists, ids.last(), user_id))
        } else {
            rest
        }
    }
}

/// A list as it is created: without todos.
pub open spec fn empty_list(id: ObjectId, user_id: ObjectId, title: Seq<char>) -> TodoListView {
    TodoListView { id, user_id, todos: Seq::empty(), title }
}

/// `list` under another title.
pub open spec fn retitled(list: TodoListView, title: Seq<char>) -> TodoListView {
    TodoListView { title, ..list }
}

/// `list` with other todos.
pub open spec fn with_todos(list: TodoListView, todos: Seq<TodoView>) -> TodoListView {
    TodoListView { todos, ..list }
}

/// Whether `k` is the first position in `todos` with this identifier.
pub open spec fn first_todo(todos: Seq<TodoView>, k: int, todo_id: ObjectId) -> bool {
    &&& 0 <= k < todos.len()
    &&& todos[k].id == todo_id
    &&& forall|j: int| 0 <= j < k ==> todos[j].id != todo_id
}

/// Whether some todo in `todos` has this identifier.
pub open spec fn has_todo(todos: Seq<TodoView>, todo_id: ObjectId) -> bool {
    exists|k: int| 0 <= k < todos.len() && todos[k].id == todo_id
}

/// `todos` without those with this identifier.
pub open spec fn without_todo(todos: Seq<TodoView>, todo_id: ObjectId) -> Seq<TodoView> {
    todos.filter(|t: TodoView| t.id != todo_id)
}

/// Whether `after` is `before` with a new, empty list of this owner and title
/// at its end, under an identifier that no list had.
pub open spec fn list_created(
    before: Seq<TodoListView>,
    after: Seq<TodoListView>,
    created: TodoListView,
    user_id: ObjectId,
    title: Seq<char>,
) -> bool {
    &&& created == empty_list(created.id, user_id, title)
    &&& after == before.push(created)
    &&& unused_list_id(before, created.id)
}

/// Whether `after` is `before` without the owner's list with this identifier.
pub open spec fn list_deleted(
    before: Seq<TodoListView>,
    after: Seq<TodoListView>,
    list_id: ObjectId,
    user_id: ObjectId,
) -> bool {
    exists|i: int| owns_list(before, i, list_id, user_id) && after == before.remove(i)
}

/// Whether `after` is `before` with the owner's list of this identifier under
/// a new title.
pub open spec fn list_renamed(
    before: Seq<TodoListView>,
    after: Seq<TodoListView>,
    list_id: ObjectId,
    user_id: ObjectId,
    title: Seq<char>,
) -> bool {
    exists|i: int|
        owns_list(before, i, list_id, user_id) && after == before.update(
            i,
            retitled(before[i], title),
        )
}

/// Whether the list at position `i` is the owner's list with this identifier
/// and holds no todo with the identifier `todo_id`.
pub open spec fn owns_list_without(
    lists: Seq<TodoListView>,
    i: int,
    list_id: ObjectId,
    user_id: ObjectId,
    todo_id: ObjectId,
) -> bool {
    owns_list(lists, i, list_id, user_id) && !has_todo(lists[i].todos, todo_id)
}

/// Whether the owner has a list with this identifier that holds no todo with
/// the identifier `todo_id`.
pub open spec fn has_list_without(
    lists: Seq<TodoListView>,
    list_id: ObjectId,
    user_id: ObjectId,
    todo_id: ObjectId,
) -> bool {
    exists|i: int| owns_list_without(lists, i, list_id, user_id, todo_id)
}

/// Whether `after` is `before` with `todo` at the end of the owner's list
/// with this identifier, which held no todo with the identifier of `todo`.
/// The list keeps its identifier, owner, title and the todos it had, and every
/// other list stays as it was.
pub open spec fn todo_added(
    before: Seq<TodoListView>,
    after: Seq<TodoListView>,
    list_id: ObjectId,
    user_id: ObjectId,
    todo: TodoView,
) -> bool {
    exists|i: int|
        owns_list_without(before, i, list_id, user_id, todo.id) && after == before.update(
            i,
            with_todos(before[i], before[i].todos.push(todo)),
        )
}

/// Whether the list at position `i` is the owner's list with this identifier
/// and holds no todos.
pub open spec fn owns_empty_list(
    lists: Seq<TodoListView>,
    i: int,
    list_id: ObjectId,
    user_id: ObjectId,
) -> bool {
    owns_list(lists, i, list_id, user_id) && lists[i].todos.len() == 0
}

/// Whether `after` is `before` with one more todo, of this title, state and
/// priority and under an identifier that is new in the list, at the end of
/// the owner's list with this identifier.
pub open spec fn todo_created(
    before: Seq<TodoListView>,
    after: Seq<TodoListView>,
    list_id: ObjectId,
    user_id: ObjectId,
    title: Seq<char>,
    status: bool,
    priority: TodoPriority,
) -> bool {
    exists|todo_id: ObjectId|
        todo_added(
            before,
            after,
            list_id,
            user_id,
            TodoView { id: todo_id, title, status, priority },
        )
}

/// Whether the owner's list at position `i` has this identifier and holds the
/// first todo of the identifier `todo_id` at position `k`.
pub open spec fn owns_todo(
    lists: Seq<TodoListView>,
    i: int,
    k: int,
    list_id: ObjectId,
    user_id: ObjectId,
    todo_id: ObjectId,
) -> bool {
    owns_list(lists, i, list_id, user_id) && first_todo(lists[i].todos, k, todo_id)
}

/// Whether the owner has a list with this identifier that holds a todo with
/// the identifier `todo_id`.
pub open spec fn has_list_with_todo(
    lists: Seq<TodoListView>,
    list_id: ObjectId,
    user_id: ObjectId,
    todo_id: ObjectId,
) -> bool {
    exists|i: int, k: int| owns_todo(lists, i, k, list_id, user_id, todo_id)
}

/// Whether `after` is `before` with the first todo of the identifier
/// `todo_id`, in the owner's list with this identifier, given a new title,
/// state and priority in its place.
pub open spec fn todo_modified(
    before: Seq<TodoListView>,
    after: Seq<TodoListView>,
    list_id: ObjectId,
    user_id: ObjectId,
    todo_id: ObjectId,
    title: Seq<char>,
    status: bool,
    priority: TodoPriority,
) -> bool {
    exists|i: int, k: int|
        owns_todo(before, i, k, list_id, user_id, todo_id) && after == before.update(
            i,
            with_todos(
                before[i],
                before[i].todos.update(k, TodoView { id: todo_id, title, status, priority }),
            ),
        )
}

/// Whether `after` is `before` with the todos of the identifier `todo_id`
/// taken out of the owner's list with this identifier.
pub open spec fn todo_deleted(
    before: Seq<TodoListView>,
    after: Seq<TodoListView>,
    list_id: ObjectId,
    user_id: ObjectId,
    todo_id: ObjectId,
) -> bool {
    exists|i: int|
        owns_list(before, i, list_id, user_id) && after == before.update(
            i,
            with_todos(before[i], without_todo(before[i].todos, todo_id)),
        )
}

/// The contents of a sequence of lists.
pub open spec fn list_views(lists: Seq<TodoList>) -> Seq<TodoListView> {
    lists.map_values(|l: TodoList| l@)
}

/// What creating a list under the identifier `list_id` answers and does. A
/// reliable store takes the list exactly when no list has the identifier; the
/// list that it takes has no todos and goes to the end.
pub open spec fn create_list_under_outcome(
    before: Seq<TodoListView>,
    after: Seq<TodoListView>,
    reliable: bool,
    list_id: ObjectId,
    user_id: ObjectId,
    title: Seq<char>,
    created: Result<TodoList, ApiError>,
) -> bool {
    &&& reliable ==> (created is Ok <==> unused_list_id(before, list_id))
    &&& match created {
        Ok(list) => {
            &&& list@ == empty_list(list_id, user_id, title)
            &&& after == before.push(list@)
            &&& unused_list_id(before, list_id)
        },
        Err(e) => e == ApiError::InternalError && (reliable ==> after == before),
    }
}

/// What creating a list answers and does, under an identifier that is drawn
/// for it. Only a failure of the store can keep the list out, and a reliable
/// store fails only where the identifier drawn is in use: it cannot be in a
/// store without lists, so there the list is created.
pub open spec fn create_list_outcome(
    before: Seq<TodoListView>,
    after: Seq<TodoListView>,
    reliable: bool,
    user_id: ObjectId,
    title: Seq<char>,
    created: Result<TodoList, ApiError>,
) -> bool {
    &&& reliable && before.len() == 0 ==> created is Ok
    &&& match created {
        Ok(list) => list_created(before, after, list@, user_id, title),
        Err(e) => {
            &&& e == ApiError::InternalError
            &&& reliable ==> after == before && before.len() > 0
        },
    }
}

/// What listing the lists of an owner answers: a reliable store answers with
/// the lists exactly when the owner has one, and with `NotFound` otherwise.
pub open spec fn all_lists_outcome(
    lists: Seq<TodoListView>,
    reliable: bool,
    user_id: ObjectId,
    found: Result<Vec<TodoList>, ApiError>,
) -> bool {
    &&& reliable ==> (found is Ok <==> exists|i: int| list_of(lists, i, user_id))
    &&& match found {
        Ok(all) => all.len() > 0 && lists_of(lists, user_id, list_views(all@)),
        Err(ApiError::NotFound) => forall|i: int| !list_of(lists, i, user_id),
        Err(ApiError::InternalError) => !reliable,
        Err(_) => false,
    }
}

/// What looking a list up answers: a reliable store finds it exactly when the
/// owner has it.
pub open spec fn get_list_outcome(
    lists: Seq<TodoListView>,
    reliable: bool,
    list_id: ObjectId,
    user_id: ObjectId,
    found: Result<TodoList, ApiError>,
) -> bool {
    &&& reliable ==> (found is Ok <==> has_list(lists, list_id, user_id))
    &&& match found {
        Ok(list) => lists.contains(list@) && list.id == list_id && list.user_id == user_id,
        Err(ApiError::NotFound) => !has_list(lists, list_id, user_id),
        Err(ApiError::InternalError) => !reliable,
        Err(_) => false,
    }
}

/// What looking several lists up answers: a reliable store always answers,
/// with the lists that the identifiers resolve to.
pub open spec fn get_lists_outcome(
    lists: Seq<TodoListView>,
    reliable: bool,
    ids: Seq<ObjectId>,
    user_id: ObjectId,
    found: Result<Vec<TodoList>, ApiError>,
) -> bool {
    match found {
        Ok(some) => list_views(some@) == resolved(lists, ids, user_id),
        Err(e) => e == ApiError::InternalError && !reliable,
    }
}

/// What deleting a list answers and does: a reliable store succeeds exactly
/// when the owner has the list.
pub open spec fn delete_list_outcome(
    before: Seq<TodoListView>,
    after: Seq<TodoListView>,
    reliable: bool,
    list_id: ObjectId,
    user_id: ObjectId,
    deleted: Result<(), ApiError>,
) -> bool {
    &&& reliable ==> (deleted is Ok <==> has_list(before, list_id, user_id))
    &&& match deleted {
        Ok(()) => list_deleted(before, after, list_id, user_id),
        Err(ApiError::NotFound) => !has_list(before, list_id, user_id) && after == before,
        Err(ApiError::InternalError) => !reliable,
        Err(_) => false,
    }
}

/// What renaming a list answers and does: a reliable store succeeds exactly
/// when the owner has the list.
pub open spec fn rename_list_outcome(
    before: Seq<TodoListView>,
    after: Seq<TodoListView>,
    reliable: bool,
    list_id: ObjectId,
    user_id: ObjectId,
    title: Seq<char>,
    renamed: Result<(), ApiError>,
) -> bool {
    &&& reliable ==> (renamed is Ok <==> has_list(before, list_id, user_id))
    &&& match renamed {
        Ok(()) => list_renamed(before, after, list_id, user_id, title),
        Err(ApiError::NotFound) => !has_list(before, list_id, user_id) && after == before,
        Err(ApiError::InternalError) => !reliable,
        Err(_) => false,
    }
}

/// What creating a todo under the identifier `todo_id` answers and does.
///
/// Identifiers are unique within a list: a reliable store succeeds exactly
/// when the owner has the list and the list holds no todo with the
/// identifier. The todo that goes to the end of the list has this identifier,
/// title, state and priority. A list that the owner has not is answered with
/// `NotFound`, an identifier that the list holds already with an internal
/// error; neither changes anything.
pub open spec fn create_todo_under_outcome(
    before: Seq<TodoListView>,
    after: Seq<TodoListView>,
    reliable: bool,
    todo_id: ObjectId,
    list_id: ObjectId,
    user_id: ObjectId,
    title: Seq<char>,
    status: bool,
    priority: TodoPriority,
    created: Result<(), ApiError>,
) -> bool {
    &&& reliable ==> (created is Ok <==> has_list_without(before, list_id, user_id, todo_id))
    &&& reliable && !has_list(before, list_id, user_id) ==> created == Err::<(), ApiError>(
        ApiError::NotFound,
    )
    &&& match created {
        Ok(()) => todo_added(
            before,
            after,
            list_id,
            user_id,
            TodoView { id: todo_id, title, status, priority },
        ),
        Err(ApiError::NotFound) => !has_list(before, list_id, user_id) && after == before,
        Err(ApiError::InternalError) => {
            ||| !reliable
            ||| {
                &&& has_list(before, list_id, user_id)
                &&& !has_list_without(before, list_id, user_id, todo_id)
                &&& after == before
            }
        },
        Err(_) => false,
    }
}

/// What creating a todo answers and does, under an identifier that is drawn
/// for it. A reliable store answers `NotFound` exactly when the owner has not
/// the list, and fails otherwise only where the identifier drawn is one that
/// the list holds: it cannot be in a list without todos, so there the todo is
/// created.
pub open spec fn create_todo_outcome(
    before: Seq<TodoListView>,
    after: Seq<TodoListView>,
    reliable: bool,
    list_id: ObjectId,
    user_id: ObjectId,
    title: Seq<char>,
    status: bool,
    priority: TodoPriority,
    created: Result<(), ApiError>,
) -> bool {
    &&& reliable && !has_list(before, list_id, user_id) ==> created == Err::<(), ApiError>(
        ApiError::NotFound,
    )
    &&& reliable && (exists|i: int| owns_empty_list(before, i, list_id, user_id))
        ==> created is Ok
    &&& match created {
        Ok(()) => todo_created(before, after, list_id, user_id, title, status, priority),
        Err(ApiError::NotFound) => !has_list(before, list_id, user_id) && after == before,
        Err(ApiError::InternalError) => {
            ||| !reliable
            ||| has_list(before, list_id, user_id) && after == before
        },
        Err(_) => false,
    }
}

/// What modifying a todo answers and does: a reliable store succeeds exactly
/// when the owner has the list and the list holds the todo.
pub open spec fn modify_todo_outcome(
    before: Seq<TodoListView>,
    after: Seq<TodoListView>,
    reliable: bool,
    list_id: ObjectId,
    user_id: ObjectId,
    todo_id: ObjectId,
    title: Seq<char>,
    status: bool,
    priority: TodoPriority,
    modified: Result<(), ApiError>,
) -> bool {
    &&& reliable ==> (modified is Ok <==> has_list_with_todo(before, list_id, user_id, todo_id))
    &&& match modified {
        Ok(()) => todo_modified(
            before,
            after,
            list_id,
            user_id,
            todo_id,
            title,
            status,
            priority,
        ),
        Err(ApiError::NotFound) => {
            &&& !has_list_with_todo(before, list_id, user_id, todo_id)
            &&& after == before
        },
        Err(ApiError::InternalError) => !reliable,
        Err(_) => false,
    }
}

/// What deleting a todo answers and does: a reliable store succeeds exactly
/// when the owner has the list, whether or not the list holds the todo.
pub open spec fn delete_todo_outcome(
    before: Seq<TodoListView>,
    after: Seq<TodoListView>,
    reliable: bool,
    list_id: ObjectId,
    user_id: ObjectId,
    todo_id: ObjectId,
    deleted: Result<(), ApiError>,
) -> bool {
    &&& reliable ==> (deleted is Ok <==> has_list(before, list_id, user_id))
    &&& match deleted {
        Ok(()) => todo_deleted(before, after, list_id, user_id, todo_id),
        Err(ApiError::NotFound) => !has_list(before, list_id, user_id) && after == before,
        Err(ApiError::InternalError) => !reliable,
        Err(_) => false,
    }
}

/// What a todo list store does. Every operation is scoped by owner: a list of
/// another owner is treated as absent.
pub trait TodoRepo {
    /// The lists that the store holds.
    spec fn lists(&self) -> Seq<TodoListView>;

    /// Whether the store never answers with an internal error of its own.
    spec fn reliable(&self) -> bool;

    /// Stores a new list without todos, under a new identifier.
    fn create_todo_list(&mut self, title: String, user_id: ObjectId) -> (created: Result<
        TodoList,
        ApiError,
    >)
        requires
            distinct_list_ids(old(self).lists()),
        ensures
            final(self).reliable() == old(self).reliable(),
            distinct_list_ids(final(self).lists()),
            create_list_outcome(
                old(self).lists(),
                final(self).lists(),
                old(self).reliable(),
                user_id,
                title@,
                created,
            ),
    ;

    /// All lists of an owner. An owner without lists is answered with
    /// `NotFound`.
    fn get_all_todo_lists(&self, user_id: ObjectId) -> (found: Result<Vec<TodoList>, ApiError>)
        requires
            distinct_list_ids(self.lists()),
        ensures
            all_lists_outcome(self.lists(), self.reliable(), user_id, found),
    ;

    /// The owner's list with this identifier.
    fn get_todo_list(&self, todo_list_id: ObjectId, user_id: ObjectId) -> (found: Result<
        TodoList,
        ApiError,
    >)
        ensures
            get_list_outcome(self.lists(), self.reliable(), todo_list_id, user_id, found),
    ;

    /// The owner's lists with these identifiers, each looked up on its own. An
    /// identifier that resolves to nothing is passed over in silence.
    fn get_todo_lists(&self, list: Vec<ObjectId>, user_id: ObjectId) -> (found: Result<
        Vec<TodoList>,
        ApiError,
    >)
        requires
            distinct_list_ids(self.lists()),
        ensures
            get_lists_outcome(self.lists(), self.reliable(), list@, user_id, found),
    ;

    /// Removes the owner's list with this identifier.
    fn delete_todo_list(&mut self, todo_list_id: ObjectId, user_id: ObjectId) -> (deleted: Result<
        (),
        ApiError,
    >)
        requires
            distinct_list_ids(old(self).lists()),
        ensures
            final(self).reliable() == old(self).reliable(),
            distinct_list_ids(final(self).lists()),
            delete_list_outcome(
                old(self).lists(),
                final(self).lists(),
                old(self).reliable(),
                todo_list_id,
                user_id,
                deleted,
            ),
    ;

    /// Gives the owner's list with this identifier a new title.
    fn rename_todo_list(&mut self, todo_list_id: ObjectId, user_id: ObjectId, title: String)
        -> (renamed: Result<(), ApiError>)
        requires
            distinct_list_ids(old(self).lists()),
        ensures
            final(self).reliable() == old(self).reliable(),
            distinct_list_ids(final(self).lists()),
            rename_list_outcome(
                old(self).lists(),
                final(self).lists(),
                old(self).reliable(),
                todo_list_id,
                user_id,
                title@,
                renamed,
            ),
    ;

    /// Appends a new todo to the owner's list with this identifier, under an
    /// identifier that is drawn for it and is new in the list.
    fn create_todo(
        &mut self,
        todo_list_id: ObjectId,
        user_id: ObjectId,
        title: String,
        status: bool,
        priority: TodoPriority,
    ) -> (created: Result<(), ApiError>)
        requires
            distinct_list_ids(old(self).lists()),
        ensures
            final(self).reliable() == old(self).reliable(),
            distinct_list_ids(final(self).lists()),
            create_todo_outcome(
                old(self).lists(),
                final(self).lists(),
                old(self).reliable(),
                todo_list_id,
                user_id,
                title@,
                status,
                priority,
                created,
            ),
    ;

    /// Replaces title, state and priority of the first todo with the
    /// identifier `todo_id` in the owner's list with this identifier. The todo
    /// keeps its identifier and its place.
    fn modify_todo(
        &mut self,
        todo_list_id: ObjectId,
        user_id: ObjectId,
        todo_id: ObjectId,
        title: String,
        status: bool,
        priority: TodoPriority,
    ) -> (modified: Result<(), ApiError>)
        requires
            distinct_list_ids(old(self).lists()),
        ensures
            final(self).reliable() == old(self).reliable(),
            distinct_list_ids(final(self).lists()),
            modify_todo_outcome(
                old(self).lists(),
                final(self).lists(),
                old(self).reliable(),
                todo_list_id,
                user_id,
                todo_id,
                title@,
                status,
                priority,
                modified,
            ),
    ;

    /// Takes the todos with the identifier `todo_id` out of the owner's list
    /// with this identifier. A list that holds no such todo stays as it is,
    /// and the call still succeeds.
    fn delete_todo(&mut self, todo_list_id: ObjectId, user_id: ObjectId, todo_id: ObjectId)
        -> (deleted: Result<(), ApiError>)
        requires
            distinct_list_ids(old(self).lists()),
        ensures
            final(self).reliable() == old(self).reliable(),
            distinct_list_ids(final(self).lists()),
            delete_todo_outcome(
                old(self).lists(),
                final(self).lists(),
                old(self).reliable(),
                todo_list_id,
                user_id,
                todo_id,
                deleted,
            ),
    ;
}

/// Among lists with distinct identifiers, a list is absent for every account
/// but its owner: nobody else has a list with its identifier.
pub proof fn lemma_foreign_list_is_absent(lists: Seq<TodoListView>, k: int, other: ObjectId)
    requires
        distinct_list_ids(lists),
        0 <= k < lists.len(),
        lists[k].user_id != other,
    ensures
        !has_list(lists, lists[k].id, other),
{
    assert forall|i: int| !owns_list(lists, i, lists[k].id, other) by {
        if owns_list(lists, i, lists[k].id, other) {
            assert(i != k);
            if i < k {
                assert(lists[i].id != lists[k].id);
            } else {
                assert(lists[k].id != lists[i].id);
            }
        }
    }
}

/// Among lists with distinct identifiers, a list that is held under its owner
/// is the one that its identifier resolves to.
pub proof fn lemma_list_at(lists: Seq<TodoListView>, list: TodoListView, user_id: ObjectId)
    requires
        distinct_list_ids(lists),
        lists.contains(list),
        list.user_id == user_id,
    ensures
        has_list(lists, list.id, user_id),
        list_at(lists, list.id, user_id) == list,
{
    let i = lists.index_of(list);
    assert(owns_list(lists, i, list.id, user_id));
    let j = choose|j: int| owns_list(lists, j, list.id, user_id);
    assert(i == j);
}

} // verus!
