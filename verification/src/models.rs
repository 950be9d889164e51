//! The records that the service stores and accepts.

use vstd::prelude::*;

verus! {

/// A stored todo: the row of the `todos` table.
#[derive(Debug, PartialEq, Eq)]
pub struct Todo {
    /// Assigned by the store when the row is created; never changes.
    pub id: i32,
    pub title: String,
    pub done: bool,
}

/// What a `Todo` holds, as mathematical values.
pub struct TodoView {
    pub id: int,
    pub title: Seq<char>,
    pub done: bool,
}

impl View for Todo {
    type V = TodoView;

    open spec fn view(&self) -> TodoView {
        TodoView { id: self.id as int, title: self.title@, done: self.done }
    }
}

impl Clone for Todo {
    fn clone(&self) -> (copy: Self)
        ensures
            copy == *self,
    {
        Todo { id: self.id, title: self.title.clone(), done: self.done }
    }
}

/// The payload that creates a todo: the store assigns the id, and `done`
/// starts out false.
#[derive(Debug, PartialEq, Eq)]
pub struct NewTodo {
    pub title: String,
}

impl View for NewTodo {
    type V = Seq<char>;

    open spec fn view(&self) -> Seq<char> {
        self.title@
    }
}

/// The views of a sequence of todos, in the same order.
pub open spec fn views(rows: Seq<Todo>) -> Seq<TodoView> {
    rows.map_values(|row: Todo| row@)
}

} // verus!
