//! Keys, key bindings and the table that resolves a key press to an action.

use vstd::prelude::*;
use vstd::utf8::{encode_utf8, encode_utf8_decode_utf8};

verus! {

/// What a key press can ask for.
#[derive(Debug, Clone, Copy, PartialEq, Eq, Hash, Structural)]
pub enum Action {
    Quit,
    NewTodo,
    ToggleTodo,
    DeleteTodo,
    MoveTodoUp,
    MoveTodoDown,
}

/// The identity of a key. Every key that no binding can name is `Other`.
#[derive(Debug, Clone, Copy, PartialEq, Eq, Structural)]
pub enum KeyCode {
    Char(char),
    Esc,
    Enter,
    Up,
    Down,
    Other,
}

/// The modifier keys held down during a key press.
#[derive(Debug, Clone, Copy, PartialEq, Eq, Structural)]
pub struct KeyModifiers {
    pub control: bool,
    pub alt: bool,
    pub shift: bool,
}

/// One key press: a key and the modifiers held down with it.
#[derive(Debug, Clone, Copy, PartialEq, Eq, Structural)]
pub struct KeyEvent {
    pub code: KeyCode,
    pub modifiers: KeyModifiers,
}

/// The name by which a binding refers to a key: the character itself for
/// a printable key other than the space bar, a word for the space bar and
/// the four special keys, and none for any other key.
pub open spec fn key_name(code: KeyCode) -> Option<Seq<char>> {
    match code {
        KeyCode::Char(c) => if c == ' ' {
            Some("space"@)
        } else {
            Some(seq![c])
        },
        KeyCode::Esc => Some("esc"@),
        KeyCode::Enter => Some("enter"@),
        KeyCode::Up => Some("up"@),
        KeyCode::Down => Some("down"@),
        KeyCode::Other => None,
    }
}

/// The names of the modifiers that are held down.
pub open spec fn modifier_names(modifiers: KeyModifiers) -> Set<Seq<char>> {
    Set::new(
        |name: Seq<char>|
            {
                ||| modifiers.control && name == "ctrl"@
                ||| modifiers.alt && name == "alt"@
                ||| modifiers.shift && name == "shift"@
            },
    )
}

/// Whether two strings hold the same text.
fn same_text(a: &str, b: &str) -> (same: bool)
    ensures
        same == (a@ == b@),
{
    let left = a.as_bytes();
    let right = b.as_bytes();
    proof {
        encode_utf8_decode_utf8(a@);
        encode_utf8_decode_utf8(b@);
    }
    if left.len() != right.len() {
        return false;
    }
    let mut i: usize = 0;
    while i < left.len()
        invariant
            i <= left@.len(),
            left@.len() == right@.len(),
            left@ == encode_utf8(a@),
            right@ == encode_utf8(b@),
            forall|k: int| 0 <= k < i ==> left@[k] == right@[k],
        decreases left@.len() - i,
    {
        if left[i] != right[i] {
            return false;
        }
        i += 1;
    }
    assert(left@ =~= right@);
    true
}

impl KeyCode {
    /// Whether `name` is the name of this key.
    pub fn is_named(&self, name: &str) -> (named: bool)
        ensures
            named == (key_name(*self) == Some(name@)),
    {
        match *self {
            KeyCode::Char(c) => {
                if c == ' ' {
                    same_text(name, "space")
                } else {
                    let named = name.unicode_len() == 1 && name.get_char(0) == c;
                    assert(named == (name@ =~= seq![c]));
                    named
                }
            },
            KeyCode::Esc => same_text(name, "esc"),
            KeyCode::Enter => same_text(name, "enter"),
            KeyCode::Up => same_text(name, "up"),
            KeyCode::Down => same_text(name, "down"),
            KeyCode::Other => false,
        }
    }
}

impl KeyModifiers {
    /// No modifier held down.
    pub fn none() -> (modifiers: Self)
        ensures
            modifiers == (KeyModifiers { control: false, alt: false, shift: false }),
    {
        KeyModifiers { control: false, alt: false, shift: false }
    }

    /// Whether `name` names a modifier that is held down.
    pub fn holds(&self, name: &str) -> (held: bool)
        ensures
            held == modifier_names(*self).contains(name@),
    {
        (self.control && same_text(name, "ctrl")) || (self.alt && same_text(name, "alt")) || (
        self.shift && same_text(name, "shift"))
    }
}

/// A key chord: the name of a key and the modifiers to hold with it.
///
/// `modifiers` is read as a set: neither the order of the names nor a
/// repeated name makes a difference.
#[derive(Debug, Clone, PartialEq, Eq, Hash)]
pub struct KeyBinding {
    pub code: String,
    pub modifiers: Vec<String>,
}

/// What a [`KeyBinding`] holds, as mathematical values.
pub struct KeyBindingView {
    pub code: Seq<char>,
    pub modifiers: Seq<Seq<char>>,
}

impl View for KeyBinding {
    type V = KeyBindingView;

    open spec fn view(&self) -> KeyBindingView {
        KeyBindingView {
            code: self.code@,
            modifiers: self.modifiers@.map_values(|name: String| name@),
        }
    }
}

impl KeyBindingView {
    /// The chord of the key named `code` alone, with no modifier.
    pub open spec fn plain(code: Seq<char>) -> KeyBindingView {
        KeyBindingView { code, modifiers: Seq::empty() }
    }

    /// The modifiers that the chord asks for.
    pub open spec fn modifier_set(self) -> Set<Seq<char>> {
        self.modifiers.to_set()
    }

    /// Whether `key` is this chord: the key has the chord's name, and the
    /// modifiers held down are exactly those that the chord asks for.
    pub open spec fn matches(self, key: KeyEvent) -> bool {
        &&& key_name(key.code) == Some(self.code)
        &&& self.modifier_set() == modifier_names(key.modifiers)
    }
}

impl KeyBinding {
    /// The chord of the key named `code` alone, with no modifier.
    pub fn plain(code: &str) -> (binding: Self)
        ensures
            binding@ == KeyBindingView::plain(code@),
    {
        let binding = KeyBinding { code: code.to_owned(), modifiers: Vec::new() };
        assert(binding@.modifiers =~= Seq::empty());
        binding
    }

    /// Whether the chord asks for the modifier `name`.
    pub fn asks_for(&self, name: &str) -> (asked: bool)
        ensures
            asked == self@.modifier_set().contains(name@),
    {
        let mut i: usize = 0;
        while i < self.modifiers.len()
            invariant
                i <= self.modifiers@.len(),
                forall|k: int| 0 <= k < i ==> self@.modifiers[k] != name@,
            decreases self.modifiers@.len() - i,
        {
            if same_text(self.modifiers[i].as_str(), name) {
                assert(self@.modifiers[i as int] == name@);
                return true;
            }
            i += 1;
        }
        false
    }

    /// Whether every modifier that the chord asks for is held down.
    fn asks_only_for(&self, modifiers: &KeyModifiers) -> (only: bool)
        ensures
            only == self@.modifier_set().subset_of(modifier_names(*modifiers)),
    {
        let mut i: usize = 0;
        while i < self.modifiers.len()
            invariant
                i <= self.modifiers@.len(),
                forall|k: int| 0 <= k < i ==> modifier_names(*modifiers).contains(self@.modifiers[k]),
            decreases self.modifiers@.len() - i,
        {
            if !modifiers.holds(self.modifiers[i].as_str()) {
                assert(self@.modifier_set().contains(self@.modifiers[i as int]));
                return false;
            }
            i += 1;
        }
        true
    }

    /// Whether `key` is this chord.
    pub fn matches(&self, key: &KeyEvent) -> (hit: bool)
        ensures
            hit == self@.matches(*key),
    {
        let held = &key.modifiers;
        let hit = key.code.is_named(self.code.as_str()) && self.asks_only_for(held) && (
        !held.control || self.asks_for("ctrl")) && (!held.alt || self.asks_for("alt")) && (
        !held.shift || self.asks_for("shift"));
        proof {
            let asked = self@.modifier_set();
            let names = modifier_names(*held);
            if hit {
                assert(asked =~= names);
            } else if asked == names {
                assert(names.subset_of(asked));
                assert(held.control ==> names.contains("ctrl"@));
                assert(held.alt ==> names.contains("alt"@));
                assert(held.shift ==> names.contains("shift"@));
            }
        }
        hit
    }
}

/// The number of actions.
pub const ACTION_COUNT: usize = 6;

impl Action {
    /// The place of the action in the order in which the table is searched.
    pub open spec fn rank(self) -> int {
        match self {
            Action::Quit => 0,
            Action::NewTodo => 1,
            Action::ToggleTodo => 2,
            Action::DeleteTodo => 3,
            Action::MoveTodoUp => 4,
            Action::MoveTodoDown => 5,
        }
    }

    /// The place of the action in the order in which the table is searched.
    pub fn index(self) -> (index: usize)
        ensures
            index == self.rank(),
            index < ACTION_COUNT,
    {
        match self {
            Action::Quit => 0,
            Action::NewTodo => 1,
            Action::ToggleTodo => 2,
            Action::DeleteTodo => 3,
            Action::MoveTodoUp => 4,
            Action::MoveTodoDown => 5,
        }
    }

    /// The action at that place, if there is one.
    pub fn from_index(index: usize) -> (action: Option<Action>)
        ensures
            match action {
                Some(a) => a.rank() == index,
                None => index >= ACTION_COUNT,
            },
    {
        match index {
            0 => Some(Action::Quit),
            1 => Some(Action::NewTodo),
            2 => Some(Action::ToggleTodo),
            3 => Some(Action::DeleteTodo),
            4 => Some(Action::MoveTodoUp),
            5 => Some(Action::MoveTodoDown),
            _ => None,
        }
    }
}

/// Whether `table` binds `action` to a chord and `key` is that chord.
pub open spec fn fires(table: Map<Action, KeyBindingView>, action: Action, key: KeyEvent) -> bool {
    table.contains_key(action) && table[action].matches(key)
}

/// The action that `key` asks for under `table`: the first action, in the
/// order of their declaration, whose chord `key` is.
///
/// Nothing keeps a table from binding two actions to one chord. The order
/// decides between them, so that a table resolves a key the same way each
/// time, whatever the order in which its bindings were set.
pub open spec fn resolve(table: Map<Action, KeyBindingView>, key: KeyEvent) -> Option<Action> {
    if fires(table, Action::Quit, key) {
        Some(Action::Quit)
    } else if fires(table, Action::NewTodo, key) {
        Some(Action::NewTodo)
    } else if fires(table, Action::ToggleTodo, key) {
        Some(Action::ToggleTodo)
    } else if fires(table, Action::DeleteTodo, key) {
        Some(Action::DeleteTodo)
    } else if fires(table, Action::MoveTodoUp, key) {
        Some(Action::MoveTodoUp)
    } else if fires(table, Action::MoveTodoDown, key) {
        Some(Action::MoveTodoDown)
    } else {
        None
    }
}

/// The bindings of a table that was never configured: each action on a
/// key of its own, none with a modifier.
pub open spec fn default_bindings() -> Map<Action, KeyBindingView> {
    map![
        Action::Quit => KeyBindingView::plain("q"@),
        Action::NewTodo => KeyBindingView::plain("n"@),
        Action::ToggleTodo => KeyBindingView::plain("space"@),
        Action::DeleteTodo => KeyBindingView::plain("d"@),
        Action::MoveTodoUp => KeyBindingView::plain("k"@),
        Action::MoveTodoDown => KeyBindingView::plain("j"@),
    ]
}

/// The table of key bindings: for each action at most one chord.
#[derive(Debug)]
pub struct KeyBindings {
    /// One slot for each action, at the action's index.
    bindings: Vec<Option<KeyBinding>>,
}

impl View for KeyBindings {
    type V = Map<Action, KeyBindingView>;

    closed spec fn view(&self) -> Map<Action, KeyBindingView> {
        Map::new(
            |action: Action| self.bindings@[action.rank()] is Some,
            |action: Action| self.bindings@[action.rank()]->0@,
        )
    }
}

impl KeyBindings {
    #[verifier::type_invariant]
    spec fn one_slot_for_each_action(&self) -> bool {
        self.bindings@.len() == ACTION_COUNT
    }

    /// The table that binds no action.
    pub fn new() -> (table: Self)
        ensures
            table@ == Map::<Action, KeyBindingView>::empty(),
    {
        let mut bindings: Vec<Option<KeyBinding>> = Vec::new();
        let mut i: usize = 0;
        while i < ACTION_COUNT
            invariant
                i <= ACTION_COUNT,
                bindings@.len() == i,
                forall|k: int| 0 <= k < i ==> bindings@[k] is None,
            decreases ACTION_COUNT - i,
        {
            bindings.push(None);
            i += 1;
        }
        let table = KeyBindings { bindings };
        assert(table@ =~= Map::<Action, KeyBindingView>::empty());
        table
    }

    /// The table that binds `action` to `binding`, in place of the chord
    /// that it was bound to before, and every other action as before.
    pub fn bind(self, action: Action, binding: KeyBinding) -> (table: Self)
        ensures
            table@ == self@.insert(action, binding@),
    {
        proof {
            use_type_invariant(&self);
        }
        let mut bindings = self.bindings;
        bindings.set(action.index(), Some(binding));
        let table = KeyBindings { bindings };
        assert(table@ =~= self@.insert(action, binding@));
        table
    }

    /// The chord that `action` is bound to.
    pub fn get(&self, action: Action) -> (binding: Option<&KeyBinding>)
        ensures
            match binding {
                Some(found) => self@.contains_key(action) && found@ == self@[action],
                None => !self@.contains_key(action),
            },
    {
        proof {
            use_type_invariant(self);
        }
        self.bindings[action.index()].as_ref()
    }

    /// The action that `key` asks for, if it asks for one.
    pub fn get_action(&self, key: &KeyEvent) -> (action: Option<Action>)
        ensures
            action == resolve(self@, *key),
    {
        proof {
            use_type_invariant(self);
        }
        let mut i: usize = 0;
        while i < ACTION_COUNT
            invariant
                i <= ACTION_COUNT,
                self.bindings@.len() == ACTION_COUNT,
                forall|a: Action| a.rank() < i ==> !fires(self@, a, *key),
            decreases ACTION_COUNT - i,
        {
            let hit = match &self.bindings[i] {
                Some(binding) => binding.matches(key),
                None => false,
            };
            if hit {
                let action = Action::from_index(i);
                assert(fires(self@, action->0, *key));
                return action;
            }
            assert forall|a: Action| a.rank() < i + 1 implies !fires(self@, a, *key) by {
                if a.rank() == i {
                    assert(!fires(self@, a, *key));
                }
            }
            i += 1;
        }
        None
    }
}

impl Default for KeyBindings {
    /// The table with the default bindings.
    fn default() -> (table: Self)
        ensures
            table@ == default_bindings(),
    {
        KeyBindings::new().bind(Action::Quit, KeyBinding::plain("q")).bind(
            Action::NewTodo,
            KeyBinding::plain("n"),
        ).bind(Action::ToggleTodo, KeyBinding::plain("space")).bind(
            Action::DeleteTodo,
            KeyBinding::plain("d"),
        ).bind(Action::MoveTodoUp, KeyBinding::plain("k")).bind(
            Action::MoveTodoDown,
            KeyBinding::plain("j"),
        )
    }
}

impl KeyBindings {
    /// The table to start with, and whether it is new and must be written
    /// to the configuration: the stored table where there is one, the
    /// default table where nothing is stored yet.
    pub fn load(stored: Option<KeyBindings>) -> (loaded: (KeyBindings, bool))
        ensures
            match stored {
                Some(table) => loaded.0 == table && !loaded.1,
                None => loaded.0@ == default_bindings() && loaded.1,
            },
    {
        match stored {
            Some(table) => (table, false),
            None => (KeyBindings::default(), true),
        }
    }
}

/// A chord without modifiers is its key pressed alone: it matches the
/// press of the key that it names with no modifier held down, and no
/// press with control, alt or shift.
pub proof fn lemma_plain_chord_is_key_alone(code: Seq<char>, key: KeyEvent)
    ensures
        KeyBindingView::plain(code).matches(key) <==> {
            &&& key_name(key.code) == Some(code)
            &&& !key.modifiers.control
            &&& !key.modifiers.alt
            &&& !key.modifiers.shift
        },
{
    let asked = KeyBindingView::plain(code).modifier_set();
    let held = modifier_names(key.modifiers);
    assert(asked =~= Set::empty());
    if !key.modifiers.control && !key.modifiers.alt && !key.modifiers.shift {
        assert(held =~= Set::empty());
    } else {
        assert(held.contains("ctrl"@) || held.contains("alt"@) || held.contains("shift"@));
    }
}

/// A chord matches only a press with exactly its modifiers: a chord
/// that asks for a modifier matches no press without it, and a chord
/// that does not ask for it matches no press with it.
pub proof fn lemma_chord_modifiers_are_exact(binding: KeyBindingView, key: KeyEvent)
    requires
        binding.matches(key),
    ensures
        binding.modifier_set().contains("ctrl"@) <==> key.modifiers.control,
        binding.modifier_set().contains("alt"@) <==> key.modifiers.alt,
        binding.modifier_set().contains("shift"@) <==> key.modifiers.shift,
{
    reveal_strlit("ctrl");
    reveal_strlit("alt");
    reveal_strlit("shift");
    assert("ctrl"@.len() == 4 && "alt"@.len() == 3 && "shift"@.len() == 5);
}

} // verus!
