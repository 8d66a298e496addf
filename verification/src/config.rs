//! The keymap: the binding table that the host consults, and the dispatch
//! from an input event and the current mode to a command.

use crate::action::{Action, Mode};
use crate::defaults::{default_bindings, default_list};
use crate::event::{Event, MouseButton, MouseEvent};
use crate::key::Key;
use crate::table::{
    bound, distinct_keys, lemma_last_binding_wins, lemma_rebind_in_place, lemma_table_size,
    lemma_unbound_is_absent, table_of, Binding,
};
use vstd::prelude::*;

verus! {

/// The command that `event` stands for in `mode` under `table`.
///
/// A plain character takes its binding if it has one and is otherwise typed
/// as itself. Any other key takes its binding or stands for nothing. Mouse
/// input never consults the table: a right press is a right click, any other
/// press a left click, a release a release, and a hold is ignored. Input that
/// the terminal driver could not interpret stands for nothing.
pub open spec fn resolve(table: Map<(Mode, Key), Action>, event: Event, mode: Mode) -> Option<
    Action,
> {
    match event {
        Event::Key(Key::Char(c)) => match bound(table, mode, Key::Char(c)) {
            Some(action) => Some(action),
            None => Some(Action::Char(mode, c)),
        },
        Event::Key(key) => bound(table, mode, key),
        Event::Mouse(MouseEvent::Press(MouseButton::Right, x, y)) => Some(
            Action::RightClick(x, y),
        ),
        Event::Mouse(MouseEvent::Press(_, x, y)) => Some(Action::LeftClick(x, y)),
        Event::Mouse(MouseEvent::Release(x, y)) => Some(Action::Release(x, y)),
        Event::Mouse(MouseEvent::Hold(_, _)) => None,
        Event::Unsupported(_) => None,
    }
}

/// What is worth a warning about an event that stands for nothing.
#[derive(Debug, Copy, Clone, Hash, PartialEq, Eq, Structural)]
pub enum Diagnostic {
    /// A key other than a plain character that is not bound in the current
    /// mode.
    UnboundKey(Key),
    /// Input that the terminal driver could not interpret.
    UnknownEvent,
}

/// The warning that resolving `event` in `mode` under `table` is worth: one
/// for a key without a binding and without the fallback of plain characters,
/// one for input of unknown kind, and none otherwise.
pub open spec fn diagnosis(table: Map<(Mode, Key), Action>, event: Event, mode: Mode) -> Option<
    Diagnostic,
> {
    match event {
        Event::Key(Key::Char(_)) => None,
        Event::Key(key) => if table.contains_key((mode, key)) {
            None
        } else {
            Some(Diagnostic::UnboundKey(key))
        },
        Event::Mouse(_) => None,
        Event::Unsupported(_) => Some(Diagnostic::UnknownEvent),
    }
}

/// The binding table. Its view is the map from (mode, key) to command; each
/// pair is bound at most once.
#[derive(Debug)]
pub struct Config {
    entries: Vec<Binding>,
}

impl View for Config {
    type V = Map<(Mode, Key), Action>;

    closed spec fn view(&self) -> Map<(Mode, Key), Action> {
        table_of(self.entries@)
    }
}

impl Config {
    #[verifier::type_invariant]
    spec fn well_formed(self) -> bool {
        distinct_keys(self.entries@)
    }

    /// The bindings of the table, each pair once, in the order in which
    /// `bindings` lists and `describe` prints them. Nothing is promised of
    /// that order.
    pub closed spec fn listing(&self) -> Seq<Binding> {
        self.entries@
    }

    /// A table with no bindings.
    pub fn empty() -> (config: Config)
        ensures
            config@ == Map::<(Mode, Key), Action>::empty(),
    {
        Config { entries: Vec::new() }
    }

    /// The table that results from applying `bindings` in order, a later
    /// binding of a pair replacing an earlier one.
    pub fn from_bindings(bindings: &Vec<Binding>) -> (config: Config)
        ensures
            config@ == table_of(bindings@),
    {
        let mut config = Config::empty();
        let mut i: usize = 0;
        while i < bindings.len()
            invariant
                i <= bindings.len(),
                config@ == table_of(bindings@.take(i as int)),
            decreases bindings.len() - i,
        {
            let b = bindings[i];
            proof {
                assert(bindings@.take(i + 1).drop_last() =~= bindings@.take(i as int));
            }
            config = config.with_binding(b.mode, b.key, b.action);
            i += 1;
        }
        proof {
            assert(bindings@.take(i as int) =~= bindings@);
        }
        config
    }

    /// This table with `key` in `mode` bound to `action`, in place of what
    /// the pair was bound to before, if anything.
    pub fn with_binding(self, mode: Mode, key: Key, action: Action) -> (config: Config)
        ensures
            config@ == self@.insert((mode, key), action),
    {
        proof {
            use_type_invariant(&self);
        }
        let mut entries = self.entries;
        let mut i: usize = 0;
        while i < entries.len()
            invariant
                i <= entries.len(),
                entries == self.entries,
                distinct_keys(entries@),
                forall|j: int| 0 <= j < i ==> !(#[trigger] entries@[j]).binds(mode, key),
            decreases entries.len() - i,
        {
            let b = entries[i];
            if b.mode == mode && b.key == key {
                proof {
                    lemma_rebind_in_place(entries@, i as int, action);
                }
                entries.set(i, Binding { mode, key, action });
                return Config { entries };
            }
            i += 1;
        }
        proof {
            assert(entries@.push(Binding { mode, key, action }).drop_last() =~= entries@);
        }
        entries.push(Binding { mode, key, action });
        Config { entries }
    }

    /// What the table holds for `key` in `mode`, if anything.
    pub fn lookup(&self, mode: Mode, key: Key) -> (r: Option<Action>)
        ensures
            r == bound(self@, mode, key),
    {
        proof {
            use_type_invariant(self);
        }
        let mut i: usize = 0;
        while i < self.entries.len()
            invariant
                i <= self.entries.len(),
                distinct_keys(self.entries@),
                forall|j: int| 0 <= j < i ==> !(#[trigger] self.entries@[j]).binds(mode, key),
            decreases self.entries.len() - i,
        {
            let b = self.entries[i];
            if b.mode == mode && b.key == key {
                proof {
                    lemma_last_binding_wins(self.entries@, i as int);
                }
                return Some(b.action);
            }
            i += 1;
        }
        proof {
            lemma_unbound_is_absent(self.entries@, mode, key);
        }
        None
    }

    /// The number of bound pairs.
    pub fn len(&self) -> (n: usize)
        ensures
            n == self@.dom().len(),
            self@.dom().finite(),
    {
        proof {
            use_type_invariant(self);
            lemma_table_size(self.entries@);
        }
        self.entries.len()
    }

    /// Every binding of the table, each pair once.
    pub fn bindings(&self) -> (list: Vec<Binding>)
        ensures
            list@ == self.listing(),
            distinct_keys(list@),
            table_of(list@) == self@,
    {
        proof {
            use_type_invariant(self);
        }
        copy_of(&self.entries)
    }

    /// Resolves an input event in the current mode to the command it stands
    /// for, or to nothing when the event is to be ignored.
    pub fn map(&self, e: Event, mode: Mode) -> (r: Option<Action>)
        ensures
            r == resolve(self@, e, mode),
    {
        match e {
            Event::Key(Key::Char(c)) => match self.lookup(mode, Key::Char(c)) {
                Some(action) => Some(action),
                None => Some(Action::Char(mode, c)),
            },
            Event::Key(key) => self.lookup(mode, key),
            Event::Mouse(MouseEvent::Press(MouseButton::Right, x, y)) => Some(
                Action::RightClick(x, y),
            ),
            Event::Mouse(MouseEvent::Press(_, x, y)) => Some(Action::LeftClick(x, y)),
            Event::Mouse(MouseEvent::Release(x, y)) => Some(Action::Release(x, y)),
            Event::Mouse(MouseEvent::Hold(_, _)) => None,
            Event::Unsupported(_) => None,
        }
    }

    /// The warning, if any, that goes with resolving `e` in the current
    /// mode. Warnings are for the log only: the host needs none of them.
    pub fn diagnose(&self, e: &Event, mode: Mode) -> (r: Option<Diagnostic>)
        ensures
            r == diagnosis(self@, *e, mode),
    {
        match e {
            Event::Key(Key::Char(_)) => None,
            Event::Key(key) => match self.lookup(mode, *key) {
                Some(_) => None,
                None => Some(Diagnostic::UnboundKey(*key)),
            },
            Event::Mouse(_) => None,
            Event::Unsupported(_) => Some(Diagnostic::UnknownEvent),
        }
    }
}

impl Default for Config {
    /// The keymap of the built-in bindings.
    fn default() -> (config: Config)
        ensures
            config@ == table_of(default_bindings()),
    {
        Config::from_bindings(&default_list())
    }
}

impl Clone for Config {
    fn clone(&self) -> (config: Config)
        ensures
            config@ == self@,
    {
        proof {
            use_type_invariant(self);
        }
        Config { entries: copy_of(&self.entries) }
    }
}

/// A fresh vector holding the same bindings.
fn copy_of(bindings: &Vec<Binding>) -> (list: Vec<Binding>)
    ensures
        list@ == bindings@,
{
    let mut list: Vec<Binding> = Vec::new();
    let mut i: usize = 0;
    while i < bindings.len()
        invariant
            i <= bindings.len(),
            list@ == bindings@.take(i as int),
        decreases bindings.len() - i,
    {
        list.push(bindings[i]);
        i += 1;
    }
    list
}

} // verus!
