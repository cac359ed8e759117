//! The task store: a named, ordered list of tasks.

pub mod todo;

pub use todo::{Todo, TodoList, TodoListView, TodoView};
