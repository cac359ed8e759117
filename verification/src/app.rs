//! The application as a state machine: a task list, a cursor into it and a
//! key-binding table, driven by one input event at a time.
//!
//! The machine does no input or output. Its caller draws the list, waits
//! for the next event, hands it to [`App::handle_event`] and carries out
//! the [`Effect`] that comes back, until [`App::is_running`] is false.

use vstd::prelude::*;
use crate::domain::todo::{lemma_delete_keeps_others, lemma_toggle_twice};
use crate::domain::{TodoList, TodoListView, TodoView};
use crate::input::{resolve, Action, KeyBindingView, KeyBindings, KeyEvent};

verus! {

/// What the terminal reports.
#[derive(Debug, Clone, Copy, PartialEq, Eq, Structural)]
pub enum Event {
    /// A key was pressed.
    Key(KeyEvent),
    /// Anything else: the window was resized, the mouse moved.
    Other,
}

/// What the caller must do after an event.
#[derive(Debug, Clone, Copy, PartialEq, Eq, Structural)]
pub enum Effect {
    /// Nothing: the list is as it was.
    Nothing,
    /// Write the list to the store, and stop with the error if that fails.
    Persist,
}

/// The application: the list on the screen, the selected task and the
/// key bindings.
#[derive(Debug)]
pub struct App {
    running: bool,
    todo_list: TodoList,
    keybindings: KeyBindings,
    selected_index: usize,
}

/// What an [`App`] holds, as mathematical values.
pub struct AppView {
    pub running: bool,
    pub list: TodoListView,
    pub cursor: nat,
    pub bindings: Map<Action, KeyBindingView>,
}

/// The title of every task that the application creates.
pub open spec fn new_todo_title() -> Seq<char> {
    "New Todo"@
}

impl AppView {
    /// Whether the cursor is where it can be: on a task, or at 0 when the
    /// list is empty.
    pub open spec fn valid(self) -> bool {
        self.cursor == 0 || self.cursor < self.list.todos.len()
    }

    /// Whether the cursor is on a task.
    pub open spec fn on_task(self) -> bool {
        self.cursor < self.list.todos.len()
    }

    /// Whether `action` changes the list: the task that it works on is
    /// there, and for a move the place to move it to.
    pub open spec fn changes(self, action: Action) -> bool {
        self.running && match action {
            Action::Quit => false,
            Action::NewTodo => true,
            Action::ToggleTodo => self.on_task(),
            Action::DeleteTodo => self.on_task(),
            Action::MoveTodoUp => 0 < self.cursor && self.on_task(),
            Action::MoveTodoDown => self.cursor + 1 < self.list.todos.len(),
        }
    }

    /// The state after `action`.
    ///
    /// An action that does not change the list leaves the whole state as
    /// it is, but for `Quit`, which stops the machine. A stopped machine
    /// stays as it is.
    pub open spec fn apply(self, action: Action) -> AppView {
        if !self.running {
            self
        } else if action == Action::Quit {
            AppView { running: false, ..self }
        } else if !self.changes(action) {
            self
        } else {
            let at = self.cursor as int;
            match action {
                Action::Quit => self,
                Action::NewTodo => AppView { list: self.list.create(new_todo_title()), ..self },
                Action::ToggleTodo => AppView { list: self.list.toggle(at), ..self },
                Action::DeleteTodo => {
                    let list = self.list.delete(at);
                    let last = at > 0 && at >= list.todos.len();
                    AppView { list, cursor: if last { (at - 1) as nat } else { self.cursor }, ..self }
                },
                Action::MoveTodoUp => AppView {
                    list: self.list.swap(at, at - 1),
                    cursor: (at - 1) as nat,
                    ..self
                },
                Action::MoveTodoDown => AppView {
                    list: self.list.swap(at, at + 1),
                    cursor: (at + 1) as nat,
                    ..self
                },
            }
        }
    }

    /// What the caller must do after `action`: persist the list if the
    /// action changed it.
    pub open spec fn effect(self, action: Action) -> Effect {
        if self.changes(action) {
            Effect::Persist
        } else {
            Effect::Nothing
        }
    }

    /// The action that `event` asks for: that of the key, for a key press
    /// that the bindings resolve, and none for any other event.
    pub open spec fn action_of(self, event: Event) -> Option<Action> {
        match event {
            Event::Key(key) => resolve(self.bindings, key),
            Event::Other => None,
        }
    }

    /// The state after `event`.
    pub open spec fn handle(self, event: Event) -> AppView {
        match self.action_of(event) {
            Some(action) => self.apply(action),
            None => self,
        }
    }

    /// What the caller must do after `event`.
    pub open spec fn effect_of(self, event: Event) -> Effect {
        match self.action_of(event) {
            Some(action) => self.effect(action),
            None => Effect::Nothing,
        }
    }

    /// The state after the actions of `actions`, applied first to last.
    pub open spec fn apply_all(self, actions: Seq<Action>) -> AppView
        decreases actions.len(),
    {
        if actions.len() == 0 {
            self
        } else {
            self.apply_all(actions.drop_last()).apply(actions.last())
        }
    }
}

impl View for App {
    type V = AppView;

    closed spec fn view(&self) -> AppView {
        AppView {
            running: self.running,
            list: self.todo_list@,
            cursor: self.selected_index as nat,
            bindings: self.keybindings@,
        }
    }
}

impl App {
    /// The running application on `todo_list`, with the cursor at the top.
    pub fn new(todo_list: TodoList, keybindings: KeyBindings) -> (app: Self)
        ensures
            app@ == (AppView {
                running: true,
                list: todo_list@,
                cursor: 0,
                bindings: keybindings@,
            }),
            app@.valid(),
    {
        App { running: true, todo_list, keybindings, selected_index: 0 }
    }

    /// Whether the application has not been asked to quit.
    pub fn is_running(&self) -> (running: bool)
        ensures
            running == self@.running,
    {
        self.running
    }

    /// The list as it is now.
    pub fn todo_list(&self) -> (list: &TodoList)
        ensures
            list@ == self@.list,
    {
        &self.todo_list
    }

    /// The position of the cursor.
    pub fn selected_index(&self) -> (index: usize)
        ensures
            index == self@.cursor,
    {
        self.selected_index
    }

    /// The key bindings.
    pub fn keybindings(&self) -> (table: &KeyBindings)
        ensures
            table@ == self@.bindings,
    {
        &self.keybindings
    }

    /// Carries out `action` and says whether the list must be persisted.
    pub fn apply(&mut self, action: Action) -> (effect: Effect)
        ensures
            final(self)@ == old(self)@.apply(action),
            effect == old(self)@.effect(action),
            old(self)@.valid() ==> final(self)@.valid(),
    {
        if !self.running {
            return Effect::Nothing;
        }
        let cursor = self.selected_index;
        let len = self.todo_list.todos.len();
        match action {
            Action::Quit => {
                self.running = false;
                Effect::Nothing
            },
            Action::NewTodo => {
                self.todo_list.add_todo("New Todo".to_owned());
                Effect::Persist
            },
            Action::ToggleTodo => {
                if cursor < len {
                    self.todo_list.toggle(cursor);
                    Effect::Persist
                } else {
                    Effect::Nothing
                }
            },
            Action::DeleteTodo => {
                if cursor < len {
                    self.todo_list.delete(cursor);
                    if cursor > 0 && cursor >= self.todo_list.todos.len() {
                        self.selected_index = cursor - 1;
                    }
                    Effect::Persist
                } else {
                    Effect::Nothing
                }
            },
            Action::MoveTodoUp => {
                if 0 < cursor && cursor < len {
                    self.todo_list.swap(cursor, cursor - 1);
                    self.selected_index = cursor - 1;
                    Effect::Persist
                } else {
                    Effect::Nothing
                }
            },
            Action::MoveTodoDown => {
                if len > 0 && cursor < len - 1 {
                    self.todo_list.swap(cursor, cursor + 1);
                    self.selected_index = cursor + 1;
                    Effect::Persist
                } else {
                    Effect::Nothing
                }
            },
        }
    }

    /// Handles one event: carries out the action that it asks for, if it
    /// asks for one, and says whether the list must be persisted.
    pub fn handle_event(&mut self, event: &Event) -> (effect: Effect)
        ensures
            final(self)@ == old(self)@.handle(*event),
            effect == old(self)@.effect_of(*event),
            old(self)@.valid() ==> final(self)@.valid(),
    {
        match event {
            Event::Key(key) => match self.keybindings.get_action(key) {
                Some(action) => self.apply(action),
                None => Effect::Nothing,
            },
            Event::Other => Effect::Nothing,
        }
    }
}

/// A valid cursor stays valid, whatever the action.
pub proof fn lemma_apply_keeps_valid(state: AppView, action: Action)
    requires
        state.valid(),
    ensures
        state.apply(action).valid(),
{
}

/// Creating tasks, any number of times, appends that many tasks in the
/// order of their creation: the tasks that were there stay in front, and
/// the task of each creation is fresh, with the id of its position.
/// Nothing else changes. From an empty list the result holds as many tasks
/// as were created, with the ids 0, 1, 2 and so on.
pub proof fn lemma_creations_append_in_order(state: AppView, count: nat)
    requires
        state.running,
    ensures
        ({
            let before = state.list.todos;
            let after = state.apply_all(Seq::new(count, |i: int| Action::NewTodo));
            &&& after.list.todos.len() == before.len() + count
            &&& after.list.todos.subrange(0, before.len() as int) == before
            &&& forall|k: int|
                before.len() <= k < before.len() + count ==> after.list.todos[k]
                    == TodoView::fresh(k as nat, new_todo_title())
            &&& after == AppView { list: after.list, ..state }
            &&& after.list.name == state.list.name
        }),
    decreases count,
{
    let creations = Seq::new(count, |i: int| Action::NewTodo);
    let before = state.list.todos;
    if count > 0 {
        let shorter = (count - 1) as nat;
        lemma_creations_append_in_order(state, shorter);
        assert(creations.drop_last() =~= Seq::new(shorter, |i: int| Action::NewTodo));
        let middle = state.apply_all(creations.drop_last());
        let after = state.apply_all(creations);
        assert(after == middle.apply(Action::NewTodo));
        assert(after.list.todos.subrange(0, before.len() as int) =~= middle.list.todos.subrange(
            0,
            before.len() as int,
        ));
    } else {
        assert(state.list.todos.subrange(0, before.len() as int) =~= before);
    }
}

/// Toggling twice with the cursor in the same place gives the state back.
pub proof fn lemma_toggle_twice_restores(state: AppView)
    ensures
        state.apply(Action::ToggleTodo).apply(Action::ToggleTodo) == state,
{
    lemma_toggle_twice(state.list, state.cursor as int);
}

/// Deleting with the cursor on a task removes exactly that task: the list
/// is one shorter, the tasks in front of the cursor stay where they were
/// and each task behind it moves one place to the front.
pub proof fn lemma_delete_removes_one(state: AppView)
    requires
        state.running,
        state.on_task(),
    ensures
        ({
            let before = state.list.todos;
            let after = state.apply(Action::DeleteTodo).list.todos;
            &&& after.len() == before.len() - 1
            &&& forall|k: int| 0 <= k < state.cursor ==> after[k] == before[k]
            &&& forall|k: int| state.cursor <= k < after.len() ==> after[k] == before[k + 1]
        }),
{
    lemma_delete_keeps_others(state.list, state.cursor as int);
}

/// Deleting at the top again and again removes the tasks from the front,
/// one for each deletion, and keeps the cursor at the top. After as many
/// deletions as there were tasks the list is empty; a deletion more
/// changes nothing.
pub proof fn lemma_delete_from_top(state: AppView, count: nat)
    requires
        state.running,
        state.cursor == 0,
    ensures
        ({
            let before = state.list.todos;
            let after = state.apply_all(Seq::new(count, |i: int| Action::DeleteTodo));
            let gone = if count <= before.len() { count as int } else { before.len() as int };
            &&& after.list.todos == before.subrange(gone, before.len() as int)
            &&& after == AppView { list: after.list, ..state }
            &&& after.list.name == state.list.name
            &&& count >= before.len() ==> after.list.todos.len() == 0
        }),
    decreases count,
{
    let deletions = Seq::new(count, |i: int| Action::DeleteTodo);
    let before = state.list.todos;
    if count > 0 {
        let shorter = (count - 1) as nat;
        lemma_delete_from_top(state, shorter);
        assert(deletions.drop_last() =~= Seq::new(shorter, |i: int| Action::DeleteTodo));
        let middle = state.apply_all(deletions.drop_last());
        let after = state.apply_all(deletions);
        assert(after == middle.apply(Action::DeleteTodo));
        let gone = if count <= before.len() { count as int } else { before.len() as int };
        assert(after.list.todos =~= before.subrange(gone, before.len() as int));
    } else {
        assert(state.list.todos =~= before.subrange(0, before.len() as int));
    }
}

/// Moving up with the cursor at the top changes nothing and asks for
/// nothing.
pub proof fn lemma_move_up_at_top(state: AppView)
    requires
        state.cursor == 0,
    ensures
        state.apply(Action::MoveTodoUp) == state,
        state.effect(Action::MoveTodoUp) == Effect::Nothing,
{
}

/// Moving down with the cursor on the last task changes nothing and asks
/// for nothing.
pub proof fn lemma_move_down_at_bottom(state: AppView)
    requires
        state.list.todos.len() > 0,
        state.cursor == state.list.todos.len() - 1,
    ensures
        state.apply(Action::MoveTodoDown) == state,
        state.effect(Action::MoveTodoDown) == Effect::Nothing,
{
}

/// Moving down in an empty list changes nothing and asks for nothing.
pub proof fn lemma_move_down_in_empty_list(state: AppView)
    requires
        state.list.todos.len() == 0,
    ensures
        state.apply(Action::MoveTodoDown) == state,
        state.effect(Action::MoveTodoDown) == Effect::Nothing,
{
}

} // verus!
