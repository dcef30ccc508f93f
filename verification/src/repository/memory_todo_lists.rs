//! A collection of todo lists that lives in memory.

use crate::models::oid::ObjectId;
use crate::models::todo::{
    clone_todos, todo_views, Todo, TodoList, TodoListView, TodoPriority, TodoView,
};
use crate::repository::todo_collection::{
    any_list, list_at_position, selects_list, TodoCollection, TodoFilter,
};
use crate::repository::todo_repo::{
    distinct_list_ids, first_todo, has_todo, lemma_distinct_with, lemma_distinct_without,
    list_views, list_with_id, retitled, with_todos, without_todo,
};
use crate::repository::StoreError;
use vstd::prelude::*;

verus! {

/// A collection of todo lists that lives in memory, in the order in which the
/// lists were inserted. It has no connection to lose: the one call that can
/// fail is an insert under an identifier that is already in use.
pub struct MemoryTodoLists {
    lists: Vec<TodoList>,
}

/// The todos of `todos.take(n + 1)` that are kept are those of `todos.take(n)`,
/// and the one at `n` where it has another identifier.
proof fn lemma_without_todo_step(todos: Seq<TodoView>, n: int, todo_id: ObjectId)
    requires
        0 <= n < todos.len(),
    ensures
        without_todo(todos.take(n + 1), todo_id) == if todos[n].id == todo_id {
            without_todo(todos.take(n), todo_id)
        } else {
            without_todo(todos.take(n), todo_id).push(todos[n])
        },
{
    reveal(Seq::filter);
    assert(todos.take(n + 1).drop_last() =~= todos.take(n));
}

/// The position of the first todo with this identifier.
fn find_todo(todos: &Vec<Todo>, todo_id: ObjectId) -> (found: Option<usize>)
    ensures
        match found {
            Some(k) => first_todo(todo_views(todos@), k as int, todo_id),
            None => !has_todo(todo_views(todos@), todo_id),
        },
{
    let mut k: usize = 0;
    while k < todos.len()
        invariant
            k <= todos.len(),
            forall|j: int| 0 <= j < k ==> todo_views(todos@)[j].id != todo_id,
        decreases todos.len() - k,
    {
        if todos[k].id == todo_id {
            return Some(k);
        }
        k += 1;
    }
    None
}

/// The position of the first todo with this identifier, in todos that hold
/// one.
fn first_todo_of(todos: &Vec<Todo>, todo_id: ObjectId) -> (k: usize)
    requires
        has_todo(todo_views(todos@), todo_id),
    ensures
        first_todo(todo_views(todos@), k as int, todo_id),
{
    let ghost held = choose|w: int|
        0 <= w < todo_views(todos@).len() && todo_views(todos@)[w].id == todo_id;
    let mut k: usize = 0;
    while todos[k].id != todo_id
        invariant
            0 <= k <= held < todos.len(),
            todo_views(todos@)[held].id == todo_id,
            forall|j: int| 0 <= j < k ==> todo_views(todos@)[j].id != todo_id,
        decreases todos.len() - k,
    {
        k += 1;
    }
    k
}

/// A copy of the todos that have another identifier.
fn todos_without(todos: &Vec<Todo>, todo_id: ObjectId) -> (kept: Vec<Todo>)
    ensures
        todo_views(kept@) == without_todo(todo_views(todos@), todo_id),
{
    let mut kept: Vec<Todo> = Vec::new();
    let mut n: usize = 0;
    proof {
        reveal(Seq::filter);
        assert(todo_views(todos@).take(0) =~= Seq::<TodoView>::empty());
        assert(todo_views(kept@) =~= Seq::<TodoView>::empty());
    }
    while n < todos.len()
        invariant
            n <= todos.len(),
            todo_views(kept@) == without_todo(todo_views(todos@).take(n as int), todo_id),
        decreases todos.len() - n,
    {
        proof {
            lemma_without_todo_step(todo_views(todos@), n as int, todo_id);
        }
        if todos[n].id != todo_id {
            let todo = todos[n].clone();
            assert(todo_views(kept@.push(todo)) =~= todo_views(kept@).push(todo@));
            kept.push(todo);
        }
        n += 1;
    }
    assert(todo_views(todos@).take(n as int) =~= todo_views(todos@));
    kept
}

/// Whether `list` passes the filter.
fn accepts(filter: &TodoFilter, list: &TodoList) -> (passes: bool)
    ensures
        passes == filter.matches(list@),
{
    let id_fits = match filter.id {
        Some(id) => list.id == id,
        None => true,
    };
    let owner_fits = match filter.user_id {
        Some(user_id) => list.user_id == user_id,
        None => true,
    };
    let todo_fits = match filter.todo {
        Some(todo_id) => {
            let found = find_todo(&list.todos, todo_id);
            proof {
                if let Some(k) = found {
                    assert(todo_views(list.todos@)[k as int].id == todo_id);
                }
            }
            found.is_some()
        },
        None => true,
    };
    let other_fits = match filter.without_todo {
        Some(todo_id) => {
            let found = find_todo(&list.todos, todo_id);
            proof {
                if let Some(k) = found {
                    assert(todo_views(list.todos@)[k as int].id == todo_id);
                }
            }
            found.is_none()
        },
        None => true,
    };
    id_fits && owner_fits && todo_fits && other_fits
}

/// Whether `list` is one of the first `n` lists and passes the filter.
spec fn seen(lists: Seq<TodoListView>, n: int, filter: TodoFilter, list: TodoListView) -> bool {
    exists|i: int| 0 <= i < n && list_at_position(lists, i, filter) && lists[i] == list
}

impl MemoryTodoLists {
    /// A collection without lists.
    pub fn new() -> (collection: Self)
        ensures
            collection.lists() == Seq::<TodoListView>::empty(),
            distinct_list_ids(collection.lists()),
            collection.reliable(),
    {
        let collection = MemoryTodoLists { lists: Vec::new() };
        assert(collection.lists() =~= Seq::<TodoListView>::empty());
        collection
    }

    /// How many lists the collection holds.
    pub fn len(&self) -> (n: usize)
        ensures
            n == self.lists().len(),
    {
        self.lists.len()
    }

    /// The position of the first list that passes the filter.
    fn position(&self, filter: &TodoFilter) -> (found: Option<usize>)
        ensures
            match found {
                Some(i) => list_at_position(self.lists(), i as int, *filter),
                None => !any_list(self.lists(), *filter),
            },
    {
        let mut i: usize = 0;
        while i < self.lists.len()
            invariant
                i <= self.lists.len(),
                forall|j: int| 0 <= j < i ==> !list_at_position(self.lists(), j, *filter),
            decreases self.lists.len() - i,
        {
            if accepts(filter, &self.lists[i]) {
                return Some(i);
            }
            i += 1;
        }
        None
    }

    /// Whether some list has this identifier.
    fn holds_id(&self, list_id: ObjectId) -> (found: bool)
        ensures
            found == exists|i: int| list_with_id(self.lists(), i, list_id),
    {
        let mut i: usize = 0;
        while i < self.lists.len()
            invariant
                i <= self.lists.len(),
                forall|j: int| 0 <= j < i ==> !list_with_id(self.lists(), j, list_id),
            decreases self.lists.len() - i,
        {
            if self.lists[i].id == list_id {
                assert(list_with_id(self.lists(), i as int, list_id));
                return true;
            }
            i += 1;
        }
        false
    }

    /// Puts `list`, which has the same identifier, in the place of the list at
    /// position `i`.
    fn replace(&mut self, i: usize, list: TodoList)
        requires
            i < old(self).lists().len(),
            list.id == old(self).lists()[i as int].id,
            distinct_list_ids(old(self).lists()),
        ensures
            final(self).lists() == old(self).lists().update(i as int, list@),
            distinct_list_ids(final(self).lists()),
    {
        self.lists.set(i, list);
        assert(self.lists() =~= old(self).lists().update(i as int, list@));
    }
}

impl TodoCollection for MemoryTodoLists {
    closed spec fn lists(&self) -> Seq<TodoListView> {
        list_views(self.lists@)
    }

    open spec fn reliable(&self) -> bool {
        true
    }

    fn insert_one(&mut self, list: &TodoList) -> (inserted: Result<(), StoreError>)
    {
        if self.holds_id(list.id) {
            return Err(StoreError);
        }
        self.lists.push(list.clone());
        proof {
            assert(self.lists() =~= old(self).lists().push(list@));
            lemma_distinct_with(old(self).lists(), list@);
        }
        Ok(())
    }

    /// The first list that passes the filter.
    fn find_one(&self, filter: TodoFilter) -> (found: Result<Option<TodoList>, StoreError>)
    {
        match self.position(&filter) {
            Some(i) => {
                let list = self.lists[i].clone();
                assert(list_at_position(self.lists(), i as int, filter) && self.lists()[i as int]
                    == list@);
                Ok(Some(list))
            },
            None => Ok(None),
        }
    }

    /// The lists that pass the filter, in the order in which they were
    /// inserted.
    fn find(&self, filter: TodoFilter) -> (found: Result<Vec<TodoList>, StoreError>)
    {
        let mut found: Vec<TodoList> = Vec::new();
        let mut n: usize = 0;
        while n < self.lists.len()
            invariant
                n <= self.lists.len(),
                distinct_list_ids(self.lists()),
                forall|k: int|
                    0 <= k < found.len() ==> seen(
                        self.lists(),
                        n as int,
                        filter,
                        #[trigger] list_views(found@)[k],
                    ),
                forall|i: int|
                    0 <= i < n && list_at_position(self.lists(), i, filter) ==> list_views(
                        found@,
                    ).contains(self.lists()[i]),
                distinct_list_ids(list_views(found@)),
            decreases self.lists.len() - n,
        {
            let ghost before = list_views(found@);
            if accepts(&filter, &self.lists[n]) {
                let list = self.lists[n].clone();
                proof {
                    let after = list_views(found@.push(list));
                    assert(after =~= before.push(list@));
                    assert(list@ == self.lists()[n as int]);
                    assert(list_at_position(self.lists(), n as int, filter));
                    assert forall|i: int|
                        0 <= i < n + 1 && list_at_position(
                            self.lists(),
                            i,
                            filter,
                        ) implies after.contains(self.lists()[i]) by {
                        if i < n {
                            let k = before.index_of(self.lists()[i]);
                            assert(after[k] == self.lists()[i]);
                        } else {
                            assert(after[before.len() as int] == self.lists()[i]);
                        }
                    }
                    assert forall|a: int, b: int| 0 <= a < b < after.len() implies after[a].id
                        != after[b].id by {
                        if b == before.len() {
                            assert(seen(self.lists(), n as int, filter, before[a]));
                        }
                    }
                }
                found.push(list);
            }
            proof {
                let after = list_views(found@);
                assert forall|k: int| 0 <= k < after.len() implies seen(
                    self.lists(),
                    n + 1,
                    filter,
                    #[trigger] after[k],
                ) by {
                    if k < before.len() {
                        assert(after[k] == before[k]);
                        assert(seen(self.lists(), n as int, filter, before[k]));
                    }
                }
            }
            n += 1;
        }
        proof {
            let views = list_views(found@);
            assert forall|k: int| 0 <= k < views.len() implies selects_list(
                self.lists(),
                filter,
                #[trigger] views[k],
            ) by {
                assert(seen(self.lists(), n as int, filter, views[k]));
            }
        }
        Ok(found)
    }

    /// Deletes the first list that passes the filter.
    fn delete_one(&mut self, filter: TodoFilter) -> (deleted: Result<bool, StoreError>)
    {
        match self.position(&filter) {
            Some(i) => {
                self.lists.remove(i);
                proof {
                    assert(self.lists() =~= old(self).lists().remove(i as int));
                    assert(list_at_position(old(self).lists(), i as int, filter));
                    lemma_distinct_without(old(self).lists(), i as int);
                }
                Ok(true)
            },
            None => Ok(false),
        }
    }

    /// Retitles the first list that passes the filter.
    fn set_title(&mut self, filter: TodoFilter, title: String) -> (matched: Result<
        bool,
        StoreError,
    >)
    {
        match self.position(&filter) {
            Some(i) => {
                let list = TodoList {
                    id: self.lists[i].id,
                    user_id: self.lists[i].user_id,
                    todos: clone_todos(&self.lists[i].todos),
                    title,
                };
                assert(list@ == retitled(self.lists()[i as int], title@));
                self.replace(i, list);
                assert(list_at_position(old(self).lists(), i as int, filter));
                Ok(true)
            },
            None => Ok(false),
        }
    }

    /// Appends the todo to the first list that passes the filter.
    fn push_todo(&mut self, filter: TodoFilter, todo: Todo) -> (matched: Result<bool, StoreError>)
    {
        match self.position(&filter) {
            Some(i) => {
                let mut todos = clone_todos(&self.lists[i].todos);
                assert(todo_views(todos@.push(todo)) =~= todo_views(todos@).push(todo@));
                todos.push(todo);
                let list = TodoList {
                    id: self.lists[i].id,
                    user_id: self.lists[i].user_id,
                    todos,
                    title: self.lists[i].title.clone(),
                };
                assert(list@ == with_todos(
                    self.lists()[i as int],
                    self.lists()[i as int].todos.push(todo@),
                ));
                self.replace(i, list);
                assert(list_at_position(old(self).lists(), i as int, filter));
                Ok(true)
            },
            None => Ok(false),
        }
    }

    /// Rewrites the todo in the first list that passes the filter.
    fn set_todo(
        &mut self,
        filter: TodoFilter,
        title: String,
        status: bool,
        priority: TodoPriority,
    ) -> (matched: Result<bool, StoreError>)
    {
        let todo_id = match filter.todo {
            Some(todo_id) => todo_id,
            None => {
                return Err(StoreError);
            },
        };
        let i = match self.position(&filter) {
            Some(i) => i,
            None => {
                return Ok(false);
            },
        };
        let k = first_todo_of(&self.lists[i].todos, todo_id);
        let todo = Todo { id: todo_id, title, status, priority };
        let mut todos = clone_todos(&self.lists[i].todos);
        todos.set(k, todo);
        assert(todo_views(todos@) =~= self.lists()[i as int].todos.update(k as int, todo@));
        let list = TodoList {
            id: self.lists[i].id,
            user_id: self.lists[i].user_id,
            todos,
            title: self.lists[i].title.clone(),
        };
        self.replace(i, list);
        assert(list_at_position(old(self).lists(), i as int, filter) && first_todo(
            old(self).lists()[i as int].todos,
            k as int,
            todo_id,
        ));
        Ok(true)
    }

    /// Takes the todos out of the first list that passes the filter.
    fn pull_todo(&mut self, filter: TodoFilter, todo_id: ObjectId) -> (matched: Result<
        bool,
        StoreError,
    >)
    {
        match self.position(&filter) {
            Some(i) => {
                let list = TodoList {
                    id: self.lists[i].id,
                    user_id: self.lists[i].user_id,
                    todos: todos_without(&self.lists[i].todos, todo_id),
                    title: self.lists[i].title.clone(),
                };
                self.replace(i, list);
                assert(list_at_position(old(self).lists(), i as int, filter));
                Ok(true)
            },
            None => Ok(false),
        }
    }
}

} // verus!
