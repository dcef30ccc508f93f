//! The todo list store over a collection of a document store.

use crate::error::ApiError;
use crate::models::oid::ObjectId;
use crate::models::todo::{Todo, TodoList, TodoListView, TodoPriority, TodoView};
use crate::repository::todo_collection::{
    any_list, list_at_position, list_by_id, list_selection, lists_of_owner, owned_list,
    owned_list_with, owned_list_without, selects_list, TodoCollection, TodoFilter,
};
use crate::repository::todo_repo::{
    create_list_under_outcome, create_todo_under_outcome, distinct_list_ids, first_todo,
    has_list, has_list_with_todo, has_list_without, has_todo, lemma_list_at, list_of,
    list_views, list_with_id, lists_of, owns_empty_list, owns_list, owns_list_without,
    owns_todo, resolved, retitled, todo_added, with_todos, TodoRepo,
};
use vstd::prelude::*;

verus! {

/// The todo list store over a collection that is spoken to the way MongoDB
/// is: every operation becomes one call on the collection, or two, under a
/// filter that names the owner.
pub struct MongoTodoRepo<C: TodoCollection> {
    collection: C,
}

impl<C: TodoCollection> MongoTodoRepo<C> {
    /// The todo list store over `collection`.
    pub fn new(collection: C) -> (store: Self)
        ensures
            store.lists() == collection.lists(),
            store.reliable() == collection.reliable(),
    {
        MongoTodoRepo { collection }
    }

    /// Stores a new list without todos under the identifier `list_id`.
    /// [`TodoRepo::create_todo_list`] is this under an identifier that is drawn
    /// for the list.
    pub fn create_todo_list_under(&mut self, list_id: ObjectId, title: String, user_id: ObjectId)
        -> (created: Result<TodoList, ApiError>)
        requires
            distinct_list_ids(old(self).lists()),
        ensures
            final(self).reliable() == old(self).reliable(),
            distinct_list_ids(final(self).lists()),
            create_list_under_outcome(
                old(self).lists(),
                final(self).lists(),
                old(self).reliable(),
                list_id,
                user_id,
                title@,
                created,
            ),
    {
        let new_todo_list = TodoList { id: list_id, user_id, title, todos: Vec::new() };
        assert(new_todo_list@.todos =~= Seq::<TodoView>::empty());
        match self.collection.insert_one(&new_todo_list) {
            Ok(()) => Ok(new_todo_list),
            Err(_) => Err(ApiError::InternalError),
        }
    }

    /// Appends a new todo under the identifier `todo_id` to the owner's list
    /// with the identifier `todo_list_id`, where the list holds no todo with
    /// that identifier. Where nothing was appended, a second call tells a list
    /// that the owner has not from an identifier in use.
    /// [`TodoRepo::create_todo`] is this under an identifier that is drawn for
    /// the todo.
    pub fn create_todo_under(
        &mut self,
        todo_id: ObjectId,
        todo_list_id: ObjectId,
        user_id: ObjectId,
        title: String,
        status: bool,
        priority: TodoPriority,
    ) -> (created: Result<(), ApiError>)
        requires
            distinct_list_ids(old(self).lists()),
        ensures
            final(self).reliable() == old(self).reliable(),
            distinct_list_ids(final(self).lists()),
            create_todo_under_outcome(
                old(self).lists(),
                final(self).lists(),
                old(self).reliable(),
                todo_id,
                todo_list_id,
                user_id,
                title@,
                status,
                priority,
                created,
            ),
    {
        let todo = Todo { id: todo_id, title, status, priority };
        proof {
            lemma_owned_filter(self.lists(), todo_list_id, user_id);
            lemma_without_filter(self.lists(), todo_list_id, user_id, todo_id);
        }
        let ghost before = self.lists();
        let ghost added = todo@;
        let ghost owned = owned_list(todo_list_id, user_id);
        let unused = TodoFilter::owned_without_todo(todo_list_id, user_id, todo_id);
        match self.collection.push_todo(unused, todo) {
            Ok(true) => {
                proof {
                    let i = choose|i: int|
                        list_at_position(before, i, unused) && self.lists() == before.update(
                            i,
                            with_todos(before[i], before[i].todos.push(added)),
                        );
                    assert(owns_list_without(before, i, todo_list_id, user_id, added.id));
                    assert(owns_list(before, i, todo_list_id, user_id));
                    assert(todo_added(before, self.lists(), todo_list_id, user_id, added));
                }
                Ok(())
            },
            Ok(false) => match self.collection.find_one(TodoFilter::owned(todo_list_id, user_id)) {
                Ok(Some(held)) => {
                    proof {
                        let i = choose|i: int|
                            list_at_position(before, i, owned) && before[i] == held@;
                        assert(owns_list(before, i, todo_list_id, user_id));
                    }
                    Err(ApiError::InternalError)
                },
                Ok(None) => Err(ApiError::NotFound),
                Err(_) => Err(ApiError::InternalError),
            },
            Err(_) => Err(ApiError::InternalError),
        }
    }
}

/// Under the filter for an owner's list, the lists that pass are the owner's
/// lists with that identifier.
proof fn lemma_owned_filter(lists: Seq<TodoListView>, list_id: ObjectId, user_id: ObjectId)
    ensures
        forall|i: int|
            list_at_position(
                lists,
                i,
                owned_list(list_id, user_id),
            ) <==> owns_list(lists, i, list_id, user_id),
        any_list(lists, owned_list(list_id, user_id))
            <==> has_list(lists, list_id, user_id),
{
    let filter = owned_list(list_id, user_id);
    assert forall|i: int|
        list_at_position(lists, i, filter) <==> owns_list(lists, i, list_id, user_id) by {}
    if any_list(lists, filter) {
        let i = choose|i: int| list_at_position(lists, i, filter);
        assert(owns_list(lists, i, list_id, user_id));
    }
    if has_list(lists, list_id, user_id) {
        let i = choose|i: int| owns_list(lists, i, list_id, user_id);
        assert(list_at_position(lists, i, filter));
    }
}

/// Under the filter for an owner's list that holds no todo of an identifier,
/// the lists that pass are the owner's lists with that identifier that hold
/// no such todo.
proof fn lemma_without_filter(
    lists: Seq<TodoListView>,
    list_id: ObjectId,
    user_id: ObjectId,
    todo_id: ObjectId,
)
    ensures
        forall|i: int|
            list_at_position(
                lists,
                i,
                owned_list_without(list_id, user_id, todo_id),
            ) <==> owns_list_without(lists, i, list_id, user_id, todo_id),
        any_list(
            lists,
            owned_list_without(list_id, user_id, todo_id),
        ) <==> has_list_without(lists, list_id, user_id, todo_id),
{
    let filter = owned_list_without(list_id, user_id, todo_id);
    assert forall|i: int|
        list_at_position(lists, i, filter) <==> owns_list_without(
            lists,
            i,
            list_id,
            user_id,
            todo_id,
        ) by {}
    if any_list(lists, filter) {
        let i = choose|i: int| list_at_position(lists, i, filter);
        assert(owns_list_without(lists, i, list_id, user_id, todo_id));
    }
    if has_list_without(lists, list_id, user_id, todo_id) {
        let i = choose|i: int| owns_list_without(lists, i, list_id, user_id, todo_id);
        assert(list_at_position(lists, i, filter));
    }
}

/// A todo with the identifier has a first one.
proof fn lemma_first_todo(todos: Seq<TodoView>, todo_id: ObjectId, k: int)
    requires
        0 <= k < todos.len(),
        todos[k].id == todo_id,
    ensures
        exists|first: int| first_todo(todos, first, todo_id),
    decreases k,
{
    if exists|j: int| 0 <= j < k && todos[j].id == todo_id {
        let j = choose|j: int| 0 <= j < k && todos[j].id == todo_id;
        lemma_first_todo(todos, todo_id, j);
    } else {
        assert(first_todo(todos, k, todo_id));
    }
}

/// Under the filter for an owner's list that holds a todo, the lists that
/// pass are the owner's lists with that identifier that hold the todo.
proof fn lemma_todo_filter(
    lists: Seq<TodoListView>,
    list_id: ObjectId,
    user_id: ObjectId,
    todo_id: ObjectId,
)
    ensures
        any_list(
            lists,
            owned_list_with(list_id, user_id, todo_id),
        ) <==> has_list_with_todo(lists, list_id, user_id, todo_id),
{
    let filter = owned_list_with(list_id, user_id, todo_id);
    if any_list(lists, filter) {
        let i = choose|i: int| list_at_position(lists, i, filter);
        let k = choose|k: int| 0 <= k < lists[i].todos.len() && lists[i].todos[k].id == todo_id;
        lemma_first_todo(lists[i].todos, todo_id, k);
        let first = choose|first: int| first_todo(lists[i].todos, first, todo_id);
        assert(owns_todo(lists, i, first, list_id, user_id, todo_id));
    }
    if has_list_with_todo(lists, list_id, user_id, todo_id) {
        let (i, k) = choose|i: int, k: int| owns_todo(lists, i, k, list_id, user_id, todo_id);
        assert(list_at_position(lists, i, filter));
    }
}

/// What a query for the lists of an owner returned is a listing of the
/// owner's lists.
proof fn lemma_lists_of_selection(
    lists: Seq<TodoListView>,
    user_id: ObjectId,
    found: Seq<TodoListView>,
)
    requires
        list_selection(lists, lists_of_owner(user_id), found),
    ensures
        lists_of(lists, user_id, found),
        found.len() > 0 <==> exists|i: int| list_of(lists, i, user_id),
{
    let filter = lists_of_owner(user_id);
    assert forall|k: int| 0 <= k < found.len() implies lists.contains(#[trigger] found[k])
        && found[k].user_id == user_id by {
        assert(selects_list(lists, filter, found[k]));
        let i = choose|i: int| list_at_position(lists, i, filter) && lists[i] == found[k];
        assert(lists[i] == found[k]);
    }
    assert forall|i: int| list_of(lists, i, user_id) implies found.contains(lists[i]) by {
        assert(list_at_position(lists, i, filter));
    }
    if found.len() > 0 {
        assert(selects_list(lists, filter, found[0]));
        let i = choose|i: int| list_at_position(lists, i, filter) && lists[i] == found[0];
        assert(list_of(lists, i, user_id));
    }
    if exists|i: int| list_of(lists, i, user_id) {
        let i = choose|i: int| list_of(lists, i, user_id);
        assert(found.contains(lists[i]));
    }
}

impl<C: TodoCollection> TodoRepo for MongoTodoRepo<C> {
    closed spec fn lists(&self) -> Seq<TodoListView> {
        self.collection.lists()
    }

    closed spec fn reliable(&self) -> bool {
        self.collection.reliable()
    }

    fn create_todo_list(&mut self, title: String, user_id: ObjectId) -> (created: Result<
        TodoList,
        ApiError,
    >)
    {
        self.create_todo_list_under(ObjectId::new(), title, user_id)
    }

    fn get_all_todo_lists(&self, user_id: ObjectId) -> (found: Result<Vec<TodoList>, ApiError>)
    {
        match self.collection.find(TodoFilter::of_owner(user_id)) {
            Ok(todos) => {
                proof {
                    lemma_lists_of_selection(self.lists(), user_id, list_views(todos@));
                }
                if todos.len() > 0 {
                    Ok(todos)
                } else {
                    assert forall|i: int| !list_of(self.lists(), i, user_id) by {}
                    Err(ApiError::NotFound)
                }
            },
            Err(_) => Err(ApiError::InternalError),
        }
    }

    fn get_todo_list(&self, todo_list_id: ObjectId, user_id: ObjectId) -> (found: Result<
        TodoList,
        ApiError,
    >)
    {
        proof {
            lemma_owned_filter(self.lists(), todo_list_id, user_id);
        }
        match self.collection.find_one(TodoFilter::owned(todo_list_id, user_id)) {
            Ok(Some(todo_list)) => {
                proof {
                    let filter = owned_list(todo_list_id, user_id);
                    let i = choose|i: int|
                        list_at_position(self.lists(), i, filter) && self.lists()[i] == todo_list@;
                    assert(self.lists()[i] == todo_list@);
                }
                Ok(todo_list)
            },
            Ok(None) => Err(ApiError::NotFound),
            Err(_) => Err(ApiError::InternalError),
        }
    }

    fn get_todo_lists(&self, list: Vec<ObjectId>, user_id: ObjectId) -> (found: Result<
        Vec<TodoList>,
        ApiError,
    >)
    {
        let mut temp: Vec<TodoList> = Vec::new();
        let mut n: usize = 0;
        assert(list@.take(0) =~= Seq::<ObjectId>::empty());
        assert(list_views(temp@) =~= Seq::<TodoListView>::empty());
        while n < list.len()
            invariant
                n <= list.len(),
                distinct_list_ids(self.lists()),
                list_views(temp@) == resolved(self.lists(), list@.take(n as int), user_id),
            decreases list.len() - n,
        {
            proof {
                assert(list@.take(n + 1).drop_last() =~= list@.take(n as int));
                assert(list@.take(n + 1).last() == list@[n as int]);
                lemma_owned_filter(self.lists(), list@[n as int], user_id);
            }
            match self.collection.find_one(TodoFilter::owned(list[n], user_id)) {
                Ok(Some(todo)) => {
                    proof {
                        let filter = owned_list(list@[n as int], user_id);
                        let i = choose|i: int|
                            list_at_position(self.lists(), i, filter) && self.lists()[i] == todo@;
                        assert(self.lists()[i] == todo@);
                        lemma_list_at(self.lists(), todo@, user_id);
                        assert(list_views(temp@.push(todo)) =~= list_views(temp@).push(todo@));
                    }
                    temp.push(todo);
                },
                Ok(None) => {},
                Err(_) => {
                    return Err(ApiError::InternalError);
                },
            }
            n += 1;
        }
        assert(list@.take(n as int) =~= list@);
        Ok(temp)
    }

    fn delete_todo_list(&mut self, todo_list_id: ObjectId, user_id: ObjectId) -> (deleted: Result<
        (),
        ApiError,
    >)
    {
        proof {
            lemma_owned_filter(self.lists(), todo_list_id, user_id);
        }
        match self.collection.delete_one(TodoFilter::owned(todo_list_id, user_id)) {
            Ok(true) => Ok(()),
            Ok(false) => Err(ApiError::NotFound),
            Err(_) => Err(ApiError::InternalError),
        }
    }

    /// The list is looked up under its owner first, and then written by its
    /// identifier alone: the lookup has settled whose it is.
    fn rename_todo_list(&mut self, todo_list_id: ObjectId, user_id: ObjectId, title: String)
        -> (renamed: Result<(), ApiError>)
    {
        proof {
            lemma_owned_filter(self.lists(), todo_list_id, user_id);
        }
        let todo_list = match self.collection.find_one(TodoFilter::owned(todo_list_id, user_id)) {
            Ok(Some(todo_list)) => todo_list,
            Ok(None) => {
                return Err(ApiError::NotFound);
            },
            Err(_) => {
                return Err(ApiError::InternalError);
            },
        };
        let ghost owned = owned_list(todo_list_id, user_id);
        let ghost by_id = list_by_id(todo_list.id);
        let ghost before = self.lists();
        let ghost i = choose|i: int| list_at_position(before, i, owned) && before[i] == todo_list@;
        assert(list_at_position(before, i, by_id));
        match self.collection.set_title(TodoFilter::with_id(todo_list.id), title) {
            Ok(true) => {
                proof {
                    let j = choose|j: int|
                        list_at_position(before, j, by_id) && self.lists() == before.update(
                            j,
                            retitled(before[j], title@),
                        );
                    assert(i == j);
                    assert(owns_list(before, i, todo_list_id, user_id));
                }
                Ok(())
            },
            Ok(false) => Err(ApiError::NotFound),
            Err(_) => Err(ApiError::InternalError),
        }
    }

    fn create_todo(
        &mut self,
        todo_list_id: ObjectId,
        user_id: ObjectId,
        title: String,
        status: bool,
        priority: TodoPriority,
    ) -> (created: Result<(), ApiError>)
    {
        let todo_id = ObjectId::new();
        let created = self.create_todo_under(
            todo_id,
            todo_list_id,
            user_id,
            title,
            status,
            priority,
        );
        proof {
            let before = old(self).lists();
            if created is Ok {
                assert(todo_added(
                    before,
                    self.lists(),
                    todo_list_id,
                    user_id,
                    TodoView { id: todo_id, title: title@, status, priority },
                ));
            }
            if exists|i: int| owns_empty_list(before, i, todo_list_id, user_id) {
                let i = choose|i: int| owns_empty_list(before, i, todo_list_id, user_id);
                assert(owns_list_without(before, i, todo_list_id, user_id, todo_id));
            }
        }
        created
    }

    fn modify_todo(
        &mut self,
        todo_list_id: ObjectId,
        user_id: ObjectId,
        todo_id: ObjectId,
        title: String,
        status: bool,
        priority: TodoPriority,
    ) -> (modified: Result<(), ApiError>)
    {
        proof {
            lemma_todo_filter(self.lists(), todo_list_id, user_id, todo_id);
        }
        match self.collection.set_todo(
            TodoFilter::owned_with_todo(todo_list_id, user_id, todo_id),
            title,
            status,
            priority,
        ) {
            Ok(true) => Ok(()),
            Ok(false) => Err(ApiError::NotFound),
            Err(_) => Err(ApiError::InternalError),
        }
    }

    fn delete_todo(&mut self, todo_list_id: ObjectId, user_id: ObjectId, todo_id: ObjectId)
        -> (deleted: Result<(), ApiError>)
    {
        proof {
            lemma_owned_filter(self.lists(), todo_list_id, user_id);
        }
        match self.collection.pull_todo(TodoFilter::owned(todo_list_id, user_id), todo_id) {
            Ok(true) => Ok(()),
            Ok(false) => Err(ApiError::NotFound),
            Err(_) => Err(ApiError::InternalError),
        }
    }
}

} // verus!
