//! The built-in bindings that every keymap starts from.

use crate::action::{Action, Mode};
use crate::key::Key;
use crate::table::Binding;
use vstd::prelude::*;

verus! {

/// The binding of `key` in `mode` to `action`.
#[verifier::allow_in_spec]
pub fn binding(mode: Mode, key: Key, action: Action) -> Binding
    returns
        (Binding { mode, key, action }),
{
    Binding { mode, key, action }
}

/// The built-in bindings, in the order in which they are applied. Ctrl-p in
/// normal mode is listed twice; as the later binding of a pair replaces the
/// earlier one, it selects the previous sibling.
pub open spec fn default_bindings() -> Seq<Binding> {
    seq![
        binding(Mode::Normal, Key::Char('i'), Action::Mode(Mode::Insert)),
        binding(Mode::Normal, Key::Char('A'), Action::Mode(Mode::Insert)),
        binding(Mode::Insert, Key::Esc, Action::Mode(Mode::Normal)),
        binding(Mode::Normal, Key::PageUp, Action::ScrollUp),
        binding(Mode::Normal, Key::PageDown, Action::ScrollDown),
        binding(Mode::Normal, Key::Delete, Action::DeleteSelected),
        binding(Mode::Normal, Key::Char('k'), Action::SelectUp),
        binding(Mode::Normal, Key::Char('j'), Action::SelectDown),
        binding(Mode::Normal, Key::Char('h'), Action::SelectLeft),
        binding(Mode::Normal, Key::Char('l'), Action::SelectRight),
        binding(Mode::Insert, Key::Backspace, Action::EraseChar),
        binding(Mode::Normal, Key::F(1), Action::PrefixJump),
        binding(Mode::Normal, Key::Char('o'), Action::CreateSibling),
        binding(Mode::Normal, Key::Char('\t'), Action::CreateChild),
        binding(Mode::Normal, Key::Char('n'), Action::CreateFreeNode),
        binding(Mode::Normal, Key::Ctrl('k'), Action::ExecSelected),
        binding(Mode::Normal, Key::Ctrl('w'), Action::DrillDown),
        binding(Mode::Normal, Key::Ctrl('q'), Action::PopUp),
        binding(Mode::Normal, Key::Char('f'), Action::PrefixJump),
        binding(Mode::Normal, Key::Ctrl('a'), Action::ToggleCompleted),
        binding(Mode::Normal, Key::Ctrl('h'), Action::ToggleHideCompleted),
        binding(Mode::Normal, Key::Ctrl('r'), Action::Arrow),
        binding(Mode::Normal, Key::Ctrl('p'), Action::AutoArrange),
        binding(Mode::Normal, Key::Char(' '), Action::ToggleCollapsed),
        binding(Mode::Normal, Key::Ctrl('c'), Action::Quit),
        binding(Mode::Normal, Key::Ctrl('x'), Action::Save),
        binding(Mode::Normal, Key::Ctrl('l'), Action::ToggleShowLogs),
        binding(Mode::Normal, Key::Char(':'), Action::EnterCmd),
        binding(Mode::Normal, Key::Ctrl('v'), Action::FindTask),
        binding(Mode::Normal, Key::Char('y'), Action::YankPasteNode),
        binding(Mode::Normal, Key::Char('K'), Action::RaiseSelected),
        binding(Mode::Normal, Key::Char('J'), Action::LowerSelected),
        binding(Mode::Normal, Key::Char('/'), Action::Search),
        binding(Mode::Normal, Key::Char('u'), Action::UndoDelete),
        binding(Mode::Normal, Key::Ctrl('?'), Action::Help),
        binding(Mode::Normal, Key::Alt('P'), Action::SelectParent),
        binding(Mode::Normal, Key::Ctrl('n'), Action::SelectNextSibling),
        binding(Mode::Normal, Key::Ctrl('p'), Action::SelectPrevSibling),
    ]
}

/// The built-in bindings as a list.
pub fn default_list() -> (list: Vec<Binding>)
    ensures
        list@ == default_bindings(),
{
    let list = vec![
        binding(Mode::Normal, Key::Char('i'), Action::Mode(Mode::Insert)),
        binding(Mode::Normal, Key::Char('A'), Action::Mode(Mode::Insert)),
        binding(Mode::Insert, Key::Esc, Action::Mode(Mode::Normal)),
        binding(Mode::Normal, Key::PageUp, Action::ScrollUp),
        binding(Mode::Normal, Key::PageDown, Action::ScrollDown),
        binding(Mode::Normal, Key::Delete, Action::DeleteSelected),
        binding(Mode::Normal, Key::Char('k'), Action::SelectUp),
        binding(Mode::Normal, Key::Char('j'), Action::SelectDown),
        binding(Mode::Normal, Key::Char('h'), Action::SelectLeft),
        binding(Mode::Normal, Key::Char('l'), Action::SelectRight),
        binding(Mode::Insert, Key::Backspace, Action::EraseChar),
        binding(Mode::Normal, Key::F(1), Action::PrefixJump),
        binding(Mode::Normal, Key::Char('o'), Action::CreateSibling),
        binding(Mode::Normal, Key::Char('\t'), Action::CreateChild),
        binding(Mode::Normal, Key::Char('n'), Action::CreateFreeNode),
        binding(Mode::Normal, Key::Ctrl('k'), Action::ExecSelected),
        binding(Mode::Normal, Key::Ctrl('w'), Action::DrillDown),
        binding(Mode::Normal, Key::Ctrl('q'), Action::PopUp),
        binding(Mode::Normal, Key::Char('f'), Action::PrefixJump),
        binding(Mode::Normal, Key::Ctrl('a'), Action::ToggleCompleted),
        binding(Mode::Normal, Key::Ctrl('h'), Action::ToggleHideCompleted),
        binding(Mode::Normal, Key::Ctrl('r'), Action::Arrow),
        binding(Mode::Normal, Key::Ctrl('p'), Action::AutoArrange),
        binding(Mode::Normal, Key::Char(' '), Action::ToggleCollapsed),
        binding(Mode::Normal, Key::Ctrl('c'), Action::Quit),
        binding(Mode::Normal, Key::Ctrl('x'), Action::Save),
        binding(Mode::Normal, Key::Ctrl('l'), Action::ToggleShowLogs),
        binding(Mode::Normal, Key::Char(':'), Action::EnterCmd),
        binding(Mode::Normal, Key::Ctrl('v'), Action::FindTask),
        binding(Mode::Normal, Key::Char('y'), Action::YankPasteNode),
        binding(Mode::Normal, Key::Char('K'), Action::RaiseSelected),
        binding(Mode::Normal, Key::Char('J'), Action::LowerSelected),
        binding(Mode::Normal, Key::Char('/'), Action::Search),
        binding(Mode::Normal, Key::Char('u'), Action::UndoDelete),
        binding(Mode::Normal, Key::Ctrl('?'), Action::Help),
        binding(Mode::Normal, Key::Alt('P'), Action::SelectParent),
        binding(Mode::Normal, Key::Ctrl('n'), Action::SelectNextSibling),
        binding(Mode::Normal, Key::Ctrl('p'), Action::SelectPrevSibling),
    ];
    assert(list@ =~= default_bindings());
    list
}

} // verus!
