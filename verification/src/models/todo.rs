//! Todo lists and the todos embedded in them.

use crate::models::oid::ObjectId;
use vstd::prelude::*;

verus! {

/// How urgent a todo is. The stores attach no order to the three values.
#[derive(Debug, Clone, Copy, PartialEq, Eq, Structural)]
pub enum TodoPriority {
    High,
    Normal,
    Low,
}

/// One entry of a todo list.
#[derive(Debug, PartialEq, Eq)]
pub struct Todo {
    pub id: ObjectId,
    pub title: String,
    /// Whether the todo is done.
    pub status: bool,
    pub priority: TodoPriority,
}

/// What a [`Todo`] holds.
pub struct TodoView {
    pub id: ObjectId,
    pub title: Seq<char>,
    pub status: bool,
    pub priority: TodoPriority,
}

impl View for Todo {
    type V = TodoView;

    open spec fn view(&self) -> TodoView {
        TodoView { id: self.id, title: self.title@, status: self.status, priority: self.priority }
    }
}

impl Clone for Todo {
    fn clone(&self) -> (copy: Self)
        ensures
            copy@ == self@,
    {
        Todo {
            id: self.id,
            title: self.title.clone(),
            status: self.status,
            priority: self.priority,
        }
    }
}

/// The contents of a sequence of todos.
pub open spec fn todo_views(todos: Seq<Todo>) -> Seq<TodoView> {
    todos.map_values(|t: Todo| t@)
}

/// A copy of a sequence of todos.
pub fn clone_todos(todos: &Vec<Todo>) -> (copy: Vec<Todo>)
    ensures
        todo_views(copy@) == todo_views(todos@),
{
    let mut copy: Vec<Todo> = Vec::new();
    let mut i: usize = 0;
    while i < todos.len()
        invariant
            i <= todos.len(),
            copy.len() == i,
            forall|j: int| 0 <= j < i ==> copy[j]@ == todos[j]@,
        decreases todos.len() - i,
    {
        copy.push(todos[i].clone());
        i += 1;
    }
    assert(todo_views(copy@) =~= todo_views(todos@));
    copy
}

/// A titled, ordered collection of todos that belongs to one account.
#[derive(Debug, PartialEq, Eq)]
pub struct TodoList {
    pub id: ObjectId,
    /// The owner.
    pub user_id: ObjectId,
    pub todos: Vec<Todo>,
    pub title: String,
}

/// What a [`TodoList`] holds.
pub struct TodoListView {
    pub id: ObjectId,
    pub user_id: ObjectId,
    pub todos: Seq<TodoView>,
    pub title: Seq<char>,
}

/// The todo lists of a collection, in the order in which it holds them.
pub type TodoListViews = Seq<TodoListView>;

impl View for TodoList {
    type V = TodoListView;

    open spec fn view(&self) -> TodoListView {
        TodoListView {
            id: self.id,
            user_id: self.user_id,
            todos: todo_views(self.todos@),
            title: self.title@,
        }
    }
}

impl Clone for TodoList {
    fn clone(&self) -> (copy: Self)
        ensures
            copy@ == self@,
    {
        TodoList {
            id: self.id,
            user_id: self.user_id,
            todos: clone_todos(&self.todos),
            title: self.title.clone(),
        }
    }
}

} // verus!
