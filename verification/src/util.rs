//! Choosing a template name from a list: the selection logic of the
//! picker. Drawing the list and reading keys are the caller's business.

use vstd::prelude::*;

verus! {

/// A list of items and which of them, if any, is selected.
pub struct StatefulList<T> {
    selected: Option<usize>,
    items: Vec<T>,
}

/// Where the selection goes when it moves one item down a list of `len`
/// items: to the next item, from the last to the first, and to the first
/// place when nothing was selected, whatever the list holds.
pub open spec fn selection_after_next(cursor: Option<usize>, len: nat) -> Option<usize> {
    match cursor {
        Some(i) => if i + 1 >= len {
            Some(0usize)
        } else {
            Some((i + 1) as usize)
        },
        None => Some(0usize),
    }
}

/// Where the selection goes when it moves one item up a list of `len`
/// items: to the item before, from the first to the last, and to the first
/// place when nothing was selected, whatever the list holds.
pub open spec fn selection_after_previous(cursor: Option<usize>, len: nat) -> Option<usize> {
    match cursor {
        Some(i) => if i == 0 {
            Some((len - 1) as usize)
        } else {
            Some((i - 1) as usize)
        },
        None => Some(0usize),
    }
}

/// Whether the selection can move down: in an empty list only while nothing
/// is selected.
pub open spec fn can_move_down(cursor: Option<usize>, len: nat) -> bool {
    !(len == 0 && cursor is Some)
}

/// Whether the selection can move up: in an empty list not from the first
/// place.
pub open spec fn can_move_up(cursor: Option<usize>, len: nat) -> bool {
    !(len == 0 && cursor == Some(0usize))
}

/// Whether the selection can be picked: it is an item of the list, or
/// nothing is selected.
pub open spec fn can_pick(cursor: Option<usize>, len: nat) -> bool {
    cursor matches Some(i) ==> i < len
}

impl<T> StatefulList<T> {
    #[verifier::type_invariant]
    spec fn in_range(self) -> bool {
        self.selected matches Some(i) ==> i < self.items.len() || i == 0
    }

    /// The items, in order.
    pub closed spec fn entries(self) -> Seq<T> {
        self.items@
    }

    /// The index that is selected. It is an index of the list, or the first
    /// place of an empty list.
    pub closed spec fn cursor(self) -> Option<usize> {
        self.selected
    }

    /// A list with nothing selected.
    pub fn with_items(items: Vec<T>) -> (list: StatefulList<T>)
        ensures
            list.entries() == items@,
            list.entries().len() <= usize::MAX,
            list.cursor() is None,
    {
        assert(items@.len() == items.len());
        StatefulList { selected: None, items }
    }

    /// Moves the selection one item down, wrapping at the end.
    pub fn next(&mut self)
        requires
            can_move_down(old(self).cursor(), old(self).entries().len()),
        ensures
            final(self).entries() == old(self).entries(),
            final(self).entries().len() <= usize::MAX,
            final(self).cursor() == selection_after_next(
                old(self).cursor(),
                old(self).entries().len(),
            ),
    {
        proof {
            use_type_invariant(&*self);
        }
        let i: usize = match self.selected {
            Some(i) => if i >= self.items.len() - 1 {
                0
            } else {
                i + 1
            },
            None => 0,
        };
        self.selected = Some(i);
    }

    /// Moves the selection one item up, wrapping at the start.
    pub fn previous(&mut self)
        requires
            can_move_up(old(self).cursor(), old(self).entries().len()),
        ensures
            final(self).entries() == old(self).entries(),
            final(self).entries().len() <= usize::MAX,
            final(self).cursor() == selection_after_previous(
                old(self).cursor(),
                old(self).entries().len(),
            ),
    {
        proof {
            use_type_invariant(&*self);
        }
        let i: usize = match self.selected {
            Some(i) => if i == 0 {
                self.items.len() - 1
            } else {
                i - 1
            },
            None => 0,
        };
        self.selected = Some(i);
    }

    /// The index that is selected.
    pub fn selected(&self) -> (r: Option<usize>)
        ensures
            r == self.cursor(),
            r matches Some(i) ==> i < self.entries().len() || i == 0,
    {
        proof {
            use_type_invariant(self);
        }
        self.selected
    }

    /// The number of items.
    pub fn len(&self) -> (n: usize)
        ensures
            n == self.entries().len(),
    {
        self.items.len()
    }

    /// The item at `index`.
    pub fn item(&self, index: usize) -> (r: &T)
        requires
            index < self.entries().len(),
        ensures
            *r == self.entries()[index as int],
    {
        &self.items[index]
    }
}

/// A key press, as far as the picker tells keys apart.
#[derive(Clone, Copy, Debug, PartialEq, Eq, Structural)]
pub enum Key {
    Char(char),
    Enter,
    Down,
    Up,
    Other,
}

/// What a key press leads to.
#[derive(Debug)]
pub enum Outcome {
    /// The picker stays open.
    Pending,
    /// The operator left without choosing.
    Quit,
    /// The operator chose this name.
    Picked(String),
}

/// Which way a key moves the selection.
pub enum Motion {
    Down,
    Up,
    Stay,
}

/// The motion that a key stands for: `j` and the down arrow move down, `k`
/// and the up arrow move up.
pub open spec fn motion_of(key: Key) -> Motion {
    match key {
        Key::Char(c) => if c == 'j' {
            Motion::Down
        } else if c == 'k' {
            Motion::Up
        } else {
            Motion::Stay
        },
        Key::Down => Motion::Down,
        Key::Up => Motion::Up,
        _ => Motion::Stay,
    }
}

/// The selection after `key` was pressed.
pub open spec fn selection_after_key(key: Key, cursor: Option<usize>, len: nat) -> Option<usize> {
    match motion_of(key) {
        Motion::Down => selection_after_next(cursor, len),
        Motion::Up => selection_after_previous(cursor, len),
        Motion::Stay => cursor,
    }
}

/// Whether the picker can take `key`: the selection can move the way the key
/// asks, and Enter finds an item of the list selected, or nothing.
pub open spec fn can_press(key: Key, cursor: Option<usize>, len: nat) -> bool {
    match motion_of(key) {
        Motion::Down => can_move_down(cursor, len),
        Motion::Up => can_move_up(cursor, len),
        Motion::Stay => key == Key::Enter ==> can_pick(cursor, len),
    }
}

/// The state of the picker.
pub struct App {
    pub items: StatefulList<String>,
}

impl App {
    /// A picker over `items`, with nothing selected yet.
    pub fn from(items: Vec<String>) -> (app: App)
        ensures
            app.items.entries() == items@,
            app.items.cursor() is None,
    {
        App { items: StatefulList::with_items(items) }
    }

    /// A picker over `items` as it opens: the selection has moved down once,
    /// to the first place.
    pub fn open(items: Vec<String>) -> (app: App)
        ensures
            app.items.entries() == items@,
            app.items.cursor() == selection_after_next(None, items@.len()),
    {
        let mut list = StatefulList::with_items(items);
        list.next();
        App { items: list }
    }

    /// Whether the picker can take `key`.
    pub fn accepts(&self, key: Key) -> (r: bool)
        ensures
            r == can_press(key, self.items.cursor(), self.items.entries().len()),
    {
        let empty: bool = self.items.len() == 0;
        let cursor: Option<usize> = self.items.selected();
        match key {
            Key::Char(c) => {
                if c == 'j' {
                    !(empty && cursor.is_some())
                } else if c == 'k' {
                    !(empty && cursor == Some(0))
                } else {
                    true
                }
            },
            Key::Down => !(empty && cursor.is_some()),
            Key::Up => !(empty && cursor == Some(0)),
            Key::Enter => match cursor {
                Some(i) => i < self.items.len(),
                None => true,
            },
            Key::Other => true,
        }
    }

    /// Handles one key press. `q` leaves; Enter picks the selected name, and
    /// does nothing while none is selected; the other keys move the
    /// selection or are ignored.
    pub fn on_key(&mut self, key: Key) -> (outcome: Outcome)
        requires
            can_press(key, old(self).items.cursor(), old(self).items.entries().len()),
        ensures
            final(self).items.entries() == old(self).items.entries(),
            final(self).items.cursor() == selection_after_key(
                key,
                old(self).items.cursor(),
                old(self).items.entries().len(),
            ),
            key == Key::Char('q') ==> outcome is Quit,
            key == Key::Enter ==> match old(self).items.cursor() {
                Some(i) => {
                    &&& i < old(self).items.entries().len()
                    &&& outcome matches Outcome::Picked(name)
                    &&& name@ == old(self).items.entries()[i as int]@
                },
                None => outcome is Pending,
            },
            key != Key::Char('q') && key != Key::Enter ==> outcome is Pending,
    {
        match key {
            Key::Char(c) => {
                if c == 'q' {
                    Outcome::Quit
                } else if c == 'j' {
                    self.items.next();
                    Outcome::Pending
                } else if c == 'k' {
                    self.items.previous();
                    Outcome::Pending
                } else {
                    Outcome::Pending
                }
            },
            Key::Enter => match self.items.selected() {
                Some(i) => Outcome::Picked(self.items.item(i).clone()),
                None => Outcome::Pending,
            },
            Key::Down => {
                self.items.next();
                Outcome::Pending
            },
            Key::Up => {
                self.items.previous();
                Outcome::Pending
            },
            Key::Other => Outcome::Pending,
        }
    }
}

/// What the picker hands back once it has closed: the picked name, or
/// nothing when the operator left without picking. While the picker is open
/// it hands back nothing at all.
pub fn picked_name(outcome: Outcome) -> (r: Option<Option<String>>)
    ensures
        match outcome {
            Outcome::Pending => r is None,
            Outcome::Quit => r == Some(None::<String>),
            Outcome::Picked(chosen) => r == Some(Some(chosen)),
        },
{
    match outcome {
        Outcome::Pending => None,
        Outcome::Quit => Some(None),
        Outcome::Picked(chosen) => Some(Some(chosen)),
    }
}

} // verus!
