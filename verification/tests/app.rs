use todo_rs::app::{App, Effect, Event};
use todo_rs::domain::{Todo, TodoList};
use todo_rs::input::{Action, KeyBinding, KeyBindings, KeyCode, KeyEvent, KeyModifiers};

fn key(c: char) -> Event {
    Event::Key(KeyEvent { code: KeyCode::Char(c), modifiers: KeyModifiers::none() })
}

fn fresh_app() -> App {
    App::new(TodoList::new("Default".to_string()), KeyBindings::default())
}

fn app_with(count: usize) -> App {
    let mut list = TodoList::new("Default".to_string());
    for i in 0..count {
        list.add_todo(format!("task {}", i));
    }
    App::new(list, KeyBindings::default())
}

fn order(app: &App) -> Vec<usize> {
    app.todo_list().todos.iter().map(|todo| todo.id).collect()
}

fn done(id: usize, title: &str, completed: bool) -> Todo {
    Todo { id, title: title.to_string(), description: None, completed }
}

#[test]
fn new_app_runs_with_the_cursor_at_the_top() {
    let app = app_with(3);
    assert!(app.is_running());
    assert_eq!(app.selected_index(), 0);
    assert_eq!(order(&app), vec![0, 1, 2]);
    assert_eq!(app.todo_list().name, "Default");
    assert_eq!(app.keybindings().get(Action::Quit), Some(&KeyBinding::plain("q")));
}

#[test]
fn walk_through() {
    let mut app = fresh_app();
    assert!(app.todo_list().todos.is_empty());

    assert_eq!(app.apply(Action::NewTodo), Effect::Persist);
    assert_eq!(app.todo_list().todos, vec![done(0, "New Todo", false)]);
    assert_eq!(app.selected_index(), 0);

    assert_eq!(app.apply(Action::ToggleTodo), Effect::Persist);
    assert_eq!(app.todo_list().todos, vec![done(0, "New Todo", true)]);

    assert_eq!(app.apply(Action::NewTodo), Effect::Persist);
    assert_eq!(
        app.todo_list().todos,
        vec![done(0, "New Todo", true), done(1, "New Todo", false)]
    );
    assert_eq!(app.selected_index(), 0);

    assert_eq!(app.apply(Action::MoveTodoDown), Effect::Persist);
    assert_eq!(
        app.todo_list().todos,
        vec![done(1, "New Todo", false), done(0, "New Todo", true)]
    );
    assert_eq!(app.selected_index(), 1);

    assert_eq!(app.apply(Action::DeleteTodo), Effect::Persist);
    assert_eq!(app.todo_list().todos, vec![done(1, "New Todo", false)]);
    assert_eq!(app.selected_index(), 0);
    assert!(app.is_running());
    assert_eq!(app.todo_list().name, "Default");
}

#[test]
fn walk_through_by_keys() {
    let mut app = fresh_app();
    assert_eq!(app.handle_event(&key('n')), Effect::Persist);
    assert_eq!(app.handle_event(&key(' ')), Effect::Persist);
    assert_eq!(app.handle_event(&key('n')), Effect::Persist);
    assert_eq!(app.handle_event(&key('j')), Effect::Persist);
    assert_eq!(
        app.todo_list().todos,
        vec![done(1, "New Todo", false), done(0, "New Todo", true)]
    );
    assert_eq!(app.selected_index(), 1);
    assert_eq!(app.handle_event(&key('k')), Effect::Persist);
    assert_eq!(
        app.todo_list().todos,
        vec![done(0, "New Todo", true), done(1, "New Todo", false)]
    );
    assert_eq!(app.selected_index(), 0);
    assert_eq!(app.handle_event(&key('d')), Effect::Persist);
    assert_eq!(app.todo_list().todos, vec![done(1, "New Todo", false)]);
    assert_eq!(app.selected_index(), 0);
    assert_eq!(app.handle_event(&key('q')), Effect::Nothing);
    assert!(!app.is_running());
}

#[test]
fn creations_append_in_order() {
    let mut app = fresh_app();
    for count in 1..=25 {
        assert_eq!(app.apply(Action::NewTodo), Effect::Persist);
        assert_eq!(app.todo_list().todos.len(), count);
        assert_eq!(app.selected_index(), 0);
    }
    for (place, todo) in app.todo_list().todos.iter().enumerate() {
        assert_eq!(*todo, done(place, "New Todo", false));
    }
}

#[test]
fn creations_keep_what_was_there() {
    let mut app = app_with(2);
    app.apply(Action::MoveTodoDown);
    app.apply(Action::ToggleTodo);
    let before = app.todo_list().todos.clone();
    app.apply(Action::NewTodo);
    app.apply(Action::NewTodo);
    assert_eq!(&app.todo_list().todos[..2], &before[..]);
    assert_eq!(app.todo_list().todos[2], done(2, "New Todo", false));
    assert_eq!(app.todo_list().todos[3], done(3, "New Todo", false));
    assert_eq!(app.selected_index(), 1);
}

#[test]
fn toggle_twice_restores() {
    let mut app = app_with(3);
    app.apply(Action::MoveTodoDown);
    let before = app.todo_list().clone();
    assert_eq!(app.apply(Action::ToggleTodo), Effect::Persist);
    assert!(app.todo_list().todos[1].completed);
    assert!(!app.todo_list().todos[0].completed);
    assert!(!app.todo_list().todos[2].completed);
    assert_eq!(app.apply(Action::ToggleTodo), Effect::Persist);
    assert_eq!(*app.todo_list(), before);
    assert_eq!(app.selected_index(), 1);
}

#[test]
fn toggle_in_an_empty_list_does_nothing() {
    let mut app = fresh_app();
    assert_eq!(app.apply(Action::ToggleTodo), Effect::Nothing);
    assert!(app.todo_list().todos.is_empty());
    assert_eq!(app.selected_index(), 0);
    assert!(app.is_running());
}

#[test]
fn delete_in_the_middle_keeps_the_cursor() {
    let mut app = app_with(4);
    app.apply(Action::MoveTodoDown);
    assert_eq!(order(&app), vec![1, 0, 2, 3]);
    assert_eq!(app.apply(Action::DeleteTodo), Effect::Persist);
    assert_eq!(order(&app), vec![1, 2, 3]);
    assert_eq!(app.selected_index(), 1);
}

#[test]
fn delete_at_the_end_moves_the_cursor_up() {
    let mut app = app_with(3);
    app.apply(Action::MoveTodoDown);
    app.apply(Action::MoveTodoDown);
    assert_eq!(app.selected_index(), 2);
    assert_eq!(order(&app), vec![1, 2, 0]);
    assert_eq!(app.apply(Action::DeleteTodo), Effect::Persist);
    assert_eq!(order(&app), vec![1, 2]);
    assert_eq!(app.selected_index(), 1);
    assert_eq!(app.apply(Action::DeleteTodo), Effect::Persist);
    assert_eq!(order(&app), vec![1]);
    assert_eq!(app.selected_index(), 0);
    assert_eq!(app.apply(Action::DeleteTodo), Effect::Persist);
    assert_eq!(order(&app), Vec::<usize>::new());
    assert_eq!(app.selected_index(), 0);
}

#[test]
fn delete_at_the_top_until_empty() {
    let mut app = app_with(4);
    for left in (0..4).rev() {
        assert_eq!(app.apply(Action::DeleteTodo), Effect::Persist);
        assert_eq!(order(&app), (4 - left..4).collect::<Vec<usize>>());
        assert_eq!(app.selected_index(), 0);
    }
    assert!(app.todo_list().todos.is_empty());
    assert_eq!(app.apply(Action::DeleteTodo), Effect::Nothing);
    assert!(app.todo_list().todos.is_empty());
    assert_eq!(app.selected_index(), 0);
    assert!(app.is_running());
    assert_eq!(app.todo_list().name, "Default");
}

#[test]
fn move_up_at_the_top_does_nothing() {
    let mut app = app_with(3);
    assert_eq!(app.apply(Action::MoveTodoUp), Effect::Nothing);
    assert_eq!(order(&app), vec![0, 1, 2]);
    assert_eq!(app.selected_index(), 0);
    let mut empty = fresh_app();
    assert_eq!(empty.apply(Action::MoveTodoUp), Effect::Nothing);
    assert!(empty.todo_list().todos.is_empty());
    assert_eq!(empty.selected_index(), 0);
}

#[test]
fn move_down_at_the_bottom_does_nothing() {
    let mut app = app_with(3);
    app.apply(Action::MoveTodoDown);
    app.apply(Action::MoveTodoDown);
    assert_eq!(order(&app), vec![1, 2, 0]);
    assert_eq!(app.selected_index(), 2);
    assert_eq!(app.apply(Action::MoveTodoDown), Effect::Nothing);
    assert_eq!(order(&app), vec![1, 2, 0]);
    assert_eq!(app.selected_index(), 2);
    let mut single = app_with(1);
    assert_eq!(single.apply(Action::MoveTodoDown), Effect::Nothing);
    assert_eq!(order(&single), vec![0]);
    assert_eq!(single.selected_index(), 0);
}

#[test]
fn move_down_in_an_empty_list_does_nothing() {
    let mut app = fresh_app();
    assert_eq!(app.apply(Action::MoveTodoDown), Effect::Nothing);
    assert_eq!(app.handle_event(&key('j')), Effect::Nothing);
    assert!(app.todo_list().todos.is_empty());
    assert_eq!(app.selected_index(), 0);
    assert!(app.is_running());
}

#[test]
fn moves_carry_the_task_with_the_cursor() {
    let mut app = app_with(4);
    assert_eq!(app.apply(Action::MoveTodoDown), Effect::Persist);
    assert_eq!(order(&app), vec![1, 0, 2, 3]);
    assert_eq!(app.selected_index(), 1);
    assert_eq!(app.apply(Action::MoveTodoDown), Effect::Persist);
    assert_eq!(order(&app), vec![1, 2, 0, 3]);
    assert_eq!(app.selected_index(), 2);
    assert_eq!(app.apply(Action::MoveTodoUp), Effect::Persist);
    assert_eq!(order(&app), vec![1, 0, 2, 3]);
    assert_eq!(app.selected_index(), 1);
    assert_eq!(app.apply(Action::MoveTodoUp), Effect::Persist);
    assert_eq!(order(&app), vec![0, 1, 2, 3]);
    assert_eq!(app.selected_index(), 0);
}

#[test]
fn quit_stops_and_asks_for_nothing() {
    let mut app = app_with(2);
    let before = app.todo_list().clone();
    assert_eq!(app.apply(Action::Quit), Effect::Nothing);
    assert!(!app.is_running());
    assert_eq!(*app.todo_list(), before);
    assert_eq!(app.selected_index(), 0);
}

#[test]
fn a_stopped_app_stays_as_it_is() {
    let mut app = app_with(2);
    app.apply(Action::Quit);
    let before = app.todo_list().clone();
    for action in [
        Action::NewTodo,
        Action::ToggleTodo,
        Action::DeleteTodo,
        Action::MoveTodoDown,
        Action::MoveTodoUp,
        Action::Quit,
    ] {
        assert_eq!(app.apply(action), Effect::Nothing);
        assert!(!app.is_running());
        assert_eq!(*app.todo_list(), before);
        assert_eq!(app.selected_index(), 0);
    }
    assert_eq!(app.handle_event(&key('n')), Effect::Nothing);
    assert_eq!(*app.todo_list(), before);
}

#[test]
fn events_that_are_no_key_press_are_ignored() {
    let mut app = app_with(2);
    let before = app.todo_list().clone();
    assert_eq!(app.handle_event(&Event::Other), Effect::Nothing);
    assert!(app.is_running());
    assert_eq!(*app.todo_list(), before);
    assert_eq!(app.selected_index(), 0);
}

#[test]
fn keys_without_a_binding_are_ignored() {
    let mut app = app_with(2);
    let before = app.todo_list().clone();
    let unbound = [
        key('x'),
        key('Q'),
        Event::Key(KeyEvent { code: KeyCode::Esc, modifiers: KeyModifiers::none() }),
        Event::Key(KeyEvent { code: KeyCode::Other, modifiers: KeyModifiers::none() }),
        Event::Key(KeyEvent {
            code: KeyCode::Char('q'),
            modifiers: KeyModifiers { control: true, alt: false, shift: false },
        }),
        Event::Key(KeyEvent {
            code: KeyCode::Char('n'),
            modifiers: KeyModifiers { control: false, alt: false, shift: true },
        }),
    ];
    for event in unbound {
        assert_eq!(app.handle_event(&event), Effect::Nothing);
        assert!(app.is_running());
        assert_eq!(*app.todo_list(), before);
        assert_eq!(app.selected_index(), 0);
    }
}

#[test]
fn keys_follow_the_table_of_the_app() {
    let table = KeyBindings::new()
        .bind(Action::NewTodo, KeyBinding { code: "a".to_string(), modifiers: vec!["ctrl".to_string()] })
        .bind(Action::Quit, KeyBinding::plain("esc"));
    let mut app = App::new(TodoList::new("Mine".to_string()), table);
    assert_eq!(app.handle_event(&key('n')), Effect::Nothing);
    assert_eq!(app.handle_event(&key('a')), Effect::Nothing);
    assert!(app.todo_list().todos.is_empty());
    let ctrl_a = Event::Key(KeyEvent {
        code: KeyCode::Char('a'),
        modifiers: KeyModifiers { control: true, alt: false, shift: false },
    });
    assert_eq!(app.handle_event(&ctrl_a), Effect::Persist);
    assert_eq!(app.todo_list().todos, vec![done(0, "New Todo", false)]);
    assert_eq!(app.todo_list().name, "Mine");
    assert_eq!(app.handle_event(&key('q')), Effect::Nothing);
    assert!(app.is_running());
    let esc = Event::Key(KeyEvent { code: KeyCode::Esc, modifiers: KeyModifiers::none() });
    assert_eq!(app.handle_event(&esc), Effect::Nothing);
    assert!(!app.is_running());
}

#[test]
fn cursor_stays_on_a_task() {
    let mut app = fresh_app();
    let script = "nnjjdkkdnnnjjjjdddkdjnjdd dk jd";
    for c in script.chars() {
        app.handle_event(&key(c));
        let len = app.todo_list().todos.len();
        assert!(app.selected_index() == 0 || app.selected_index() < len);
    }
}
