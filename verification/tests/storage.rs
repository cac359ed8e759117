use todo_rs::domain::TodoList;
use todo_rs::storage::{load, APP_DIR, DEFAULT_LIST_NAME, KEYBINDINGS_FILE, TODOS_FILE};

#[test]
fn nothing_stored_gives_the_empty_default_list() {
    let list = load(None);
    assert_eq!(list.name, "Default");
    assert!(list.todos.is_empty());
}

#[test]
fn a_stored_list_is_taken_as_it_is() {
    let mut stored = TodoList::new("Errands".to_string());
    stored.add_todo("milk".to_string());
    stored.add_todo("post".to_string());
    stored.toggle(1);
    stored.todos[0].description = Some("two litres".to_string());
    stored.todos[0].id = 41;
    let list = load(Some(stored.clone()));
    assert_eq!(list, stored);
}

#[test]
fn a_stored_empty_list_keeps_its_name() {
    let list = load(Some(TodoList::new("Mine".to_string())));
    assert_eq!(list.name, "Mine");
    assert!(list.todos.is_empty());
}

#[test]
fn names_of_the_store() {
    assert_eq!(APP_DIR, "todo-rs");
    assert_eq!(TODOS_FILE, "todos.json");
    assert_eq!(KEYBINDINGS_FILE, "keybindings.json");
    assert_eq!(DEFAULT_LIST_NAME, "Default");
}
