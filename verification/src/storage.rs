//! Where the list is kept, and what stands for a list that was never saved.

use vstd::prelude::*;
use crate::domain::{TodoList, TodoListView};

verus! {

/// The directory of the application, below the directory that the system
/// gives to applications for their data or their configuration.
pub const APP_DIR: &'static str = "todo-rs";

/// The file of the list, in the application's data directory.
pub const TODOS_FILE: &'static str = "todos.json";

/// The file of the key bindings, in the application's configuration
/// directory.
pub const KEYBINDINGS_FILE: &'static str = "keybindings.json";

/// The name of the list that is made when none is stored.
pub const DEFAULT_LIST_NAME: &'static str = "Default";

/// The list to start with: the stored list where there is one, and an
/// empty list with the default name where nothing is stored yet. A missing
/// store is no error.
pub fn load(stored: Option<TodoList>) -> (list: TodoList)
    ensures
        match stored {
            Some(found) => list == found,
            None => list@ == TodoListView::empty(DEFAULT_LIST_NAME@),
        },
{
    match stored {
        Some(found) => found,
        None => TodoList::new(DEFAULT_LIST_NAME.to_owned()),
    }
}

} // verus!
