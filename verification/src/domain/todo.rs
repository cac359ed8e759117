//! Tasks and the list that holds them.
//!
//! The position of a task in the list is its only rank and the only handle
//! by which the operations address it. The `id` of a task is the length the
//! list had when the task was appended; after a removal a later task can
//! carry the id of one that is gone, so the id identifies nothing.

use vstd::prelude::*;

verus! {

/// One to-do item.
#[derive(Debug, Clone, PartialEq, Eq)]
pub struct Todo {
    pub id: usize,
    pub title: String,
    pub description: Option<String>,
    pub completed: bool,
}

/// A named list of tasks, in display order.
#[derive(Debug, Clone, PartialEq, Eq)]
pub struct TodoList {
    pub name: String,
    pub todos: Vec<Todo>,
}

/// What a [`Todo`] holds, as mathematical values.
pub struct TodoView {
    pub id: nat,
    pub title: Seq<char>,
    pub description: Option<Seq<char>>,
    pub completed: bool,
}

/// What a [`TodoList`] holds, as mathematical values.
pub struct TodoListView {
    pub name: Seq<char>,
    pub todos: Seq<TodoView>,
}

impl View for Todo {
    type V = TodoView;

    open spec fn view(&self) -> TodoView {
        TodoView {
            id: self.id as nat,
            title: self.title@,
            description: match self.description {
                Some(text) => Some(text@),
                None => None,
            },
            completed: self.completed,
        }
    }
}

impl View for TodoList {
    type V = TodoListView;

    open spec fn view(&self) -> TodoListView {
        TodoListView { name: self.name@, todos: self.todos@.map_values(|todo: Todo| todo@) }
    }
}

impl TodoView {
    /// The task as it is when created: open, without a description.
    pub open spec fn fresh(id: nat, title: Seq<char>) -> TodoView {
        TodoView { id, title, description: None, completed: false }
    }

    /// The same task with its completion flag flipped.
    pub open spec fn toggled(self) -> TodoView {
        TodoView { completed: !self.completed, ..self }
    }
}

impl TodoListView {
    /// The list with that name and no task.
    pub open spec fn empty(name: Seq<char>) -> TodoListView {
        TodoListView { name, todos: Seq::empty() }
    }

    /// Whether `index` is the position of a task.
    pub open spec fn has(self, index: int) -> bool {
        0 <= index < self.todos.len()
    }

    /// The list with a fresh task at its end, whose id is the old length.
    pub open spec fn create(self, title: Seq<char>) -> TodoListView {
        TodoListView { todos: self.todos.push(TodoView::fresh(self.todos.len(), title)), ..self }
    }

    /// The list with the task at `index` toggled; the same list where
    /// `index` is no position.
    pub open spec fn toggle(self, index: int) -> TodoListView {
        if self.has(index) {
            TodoListView { todos: self.todos.update(index, self.todos[index].toggled()), ..self }
        } else {
            self
        }
    }

    /// The list without the task at `index`, the later tasks moved one
    /// place to the front; the same list where `index` is no position.
    pub open spec fn delete(self, index: int) -> TodoListView {
        if self.has(index) {
            TodoListView { todos: self.todos.remove(index), ..self }
        } else {
            self
        }
    }

    /// The list with the tasks at `i` and `j` exchanged; the same list
    /// where either is no position.
    pub open spec fn swap(self, i: int, j: int) -> TodoListView {
        if self.has(i) && self.has(j) {
            TodoListView {
                todos: self.todos.update(i, self.todos[j]).update(j, self.todos[i]),
                ..self
            }
        } else {
            self
        }
    }
}

impl Todo {
    /// A fresh task: open, without a description.
    pub fn new(id: usize, title: String) -> (todo: Self)
        ensures
            todo@ == TodoView::fresh(id as nat, title@),
    {
        Self { id, title, description: None, completed: false }
    }
}

impl TodoList {
    /// The list with that name and no task.
    pub fn new(name: String) -> (list: Self)
        ensures
            list@ == TodoListView::empty(name@),
    {
        let list = Self { name, todos: Vec::new() };
        assert(list@.todos =~= Seq::empty());
        list
    }

    /// Appends a fresh task with that title. Its id is the number of tasks
    /// that the list held before.
    pub fn add_todo(&mut self, title: String)
        ensures
            final(self)@ == old(self)@.create(title@),
    {
        let id = self.todos.len();
        self.todos.push(Todo::new(id, title));
        assert(self@.todos =~= old(self)@.create(title@).todos);
    }

    /// Flips `completed` of the task at `index`. Does nothing where `index`
    /// is out of bounds.
    pub fn toggle(&mut self, index: usize)
        ensures
            final(self)@ == old(self)@.toggle(index as int),
    {
        if index < self.todos.len() {
            self.todos[index].completed = !self.todos[index].completed;
            assert(self@.todos =~= old(self)@.toggle(index as int).todos);
        }
    }

    /// Removes the task at `index` and moves the later ones one place to
    /// the front. Does nothing where `index` is out of bounds.
    pub fn delete(&mut self, index: usize)
        ensures
            final(self)@ == old(self)@.delete(index as int),
    {
        if index < self.todos.len() {
            self.todos.remove(index);
            assert(self@.todos =~= old(self)@.delete(index as int).todos);
        }
    }

    /// Exchanges the tasks at `i` and `j`. Does nothing where either is out
    /// of bounds.
    pub fn swap(&mut self, i: usize, j: usize)
        ensures
            final(self)@ == old(self)@.swap(i as int, j as int),
    {
        let len = self.todos.len();
        if i < len && j < len {
            if i != j {
                let (low, high) = if i < j { (i, j) } else { (j, i) };
                let (head, tail) = self.todos.as_mut_slice().split_at_mut(high);
                core::mem::swap(&mut head[low], &mut tail[0]);
            }
            assert(self@.todos =~= old(self)@.swap(i as int, j as int).todos);
        }
    }
}

/// Toggling the same position twice gives the list back: each task is
/// as completed as it was.
pub proof fn lemma_toggle_twice(list: TodoListView, index: int)
    ensures
        list.toggle(index).toggle(index) == list,
{
    assert(list.toggle(index).toggle(index).todos =~= list.todos);
}

/// Deleting at a position removes exactly the task there: the list is one
/// shorter, the tasks before the position stay where they were, and each
/// task behind it moves one place to the front. The others keep their
/// order.
pub proof fn lemma_delete_keeps_others(list: TodoListView, index: int)
    requires
        list.has(index),
    ensures
        list.delete(index).name == list.name,
        list.delete(index).todos.len() == list.todos.len() - 1,
        forall|k: int| 0 <= k < index ==> list.delete(index).todos[k] == list.todos[k],
        forall|k: int|
            index <= k < list.todos.len() - 1 ==> list.delete(index).todos[k] == list.todos[k + 1],
{
}

} // verus!
