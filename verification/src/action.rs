//! The command vocabulary: the two interaction modes, the commands an input
//! can stand for, and the names by which a keyfile refers to commands.

use crate::text::{chars_of, spells};
use vstd::prelude::*;

verus! {

/// The editor's interaction state, which scopes the bindings that apply.
#[derive(Debug, Copy, Clone, Hash, PartialOrd, Ord, PartialEq, Eq, Structural)]
pub enum Mode {
    Normal,
    Insert,
}

/// An abstract command for the host to carry out. Pure data: the resolver
/// never interprets it.
#[derive(Debug, Copy, Clone, Hash, PartialOrd, Ord, PartialEq, Eq, Structural)]
pub enum Action {
    /// Switch to the given mode.
    Mode(Mode),
    /// A mouse press other than the right button, at a column and row.
    LeftClick(u16, u16),
    /// A right button press, at a column and row.
    RightClick(u16, u16),
    /// A mouse release, at a column and row.
    Release(u16, u16),
    /// A typed character that no binding claims, with the mode it was typed in.
    Char(Mode, char),
    UnselectRet,
    ScrollUp,
    ScrollDown,
    DeleteSelected,
    SelectUp,
    SelectDown,
    SelectLeft,
    SelectRight,
    EraseChar,
    CreateSibling,
    CreateChild,
    CreateFreeNode,
    ExecSelected,
    DrillDown,
    PopUp,
    PrefixJump,
    ToggleCompleted,
    ToggleHideCompleted,
    Arrow,
    AutoArrange,
    ToggleCollapsed,
    Quit,
    Save,
    ToggleShowLogs,
    EnterCmd,
    FindTask,
    YankPasteNode,
    RaiseSelected,
    LowerSelected,
    Search,
    UndoDelete,
    Help,
    SelectParent,
    SelectNextSibling,
    SelectPrevSibling,
}

/// The command that a keyfile name stands for. Names are case-sensitive and
/// only payload-free commands have one; any other text names nothing.
pub open spec fn action_of_name(name: Seq<char>) -> Option<Action> {
    if name == "unselect"@ {
        Some(Action::UnselectRet)
    } else if name == "scroll_up"@ {
        Some(Action::ScrollUp)
    } else if name == "scroll_down"@ {
        Some(Action::ScrollDown)
    } else if name == "delete"@ {
        Some(Action::DeleteSelected)
    } else if name == "select_up"@ {
        Some(Action::SelectUp)
    } else if name == "select_down"@ {
        Some(Action::SelectDown)
    } else if name == "select_left"@ {
        Some(Action::SelectLeft)
    } else if name == "select_right"@ {
        Some(Action::SelectRight)
    } else if name == "erase"@ {
        Some(Action::EraseChar)
    } else if name == "create_sibling"@ {
        Some(Action::CreateSibling)
    } else if name == "create_child"@ {
        Some(Action::CreateChild)
    } else if name == "create_free_node"@ {
        Some(Action::CreateFreeNode)
    } else if name == "execute"@ {
        Some(Action::ExecSelected)
    } else if name == "drill_down"@ {
        Some(Action::DrillDown)
    } else if name == "pop_up"@ {
        Some(Action::PopUp)
    } else if name == "jump"@ {
        Some(Action::PrefixJump)
    } else if name == "toggle_completed"@ {
        Some(Action::ToggleCompleted)
    } else if name == "toggle_hide_completed"@ {
        Some(Action::ToggleHideCompleted)
    } else if name == "arrow"@ {
        Some(Action::Arrow)
    } else if name == "auto_arrange"@ {
        Some(Action::AutoArrange)
    } else if name == "toggle_collapsed"@ {
        Some(Action::ToggleCollapsed)
    } else if name == "quit"@ {
        Some(Action::Quit)
    } else if name == "save"@ {
        Some(Action::Save)
    } else if name == "toggle_show_logs"@ {
        Some(Action::ToggleShowLogs)
    } else if name == "enter_command"@ {
        Some(Action::EnterCmd)
    } else if name == "find_task"@ {
        Some(Action::FindTask)
    } else if name == "yank_paste_node"@ {
        Some(Action::YankPasteNode)
    } else if name == "raise_selected"@ {
        Some(Action::RaiseSelected)
    } else if name == "lower_selected"@ {
        Some(Action::LowerSelected)
    } else if name == "search"@ {
        Some(Action::Search)
    } else if name == "undo_delete"@ {
        Some(Action::UndoDelete)
    } else if name == "help"@ {
        Some(Action::Help)
    } else if name == "select_parent"@ {
        Some(Action::SelectParent)
    } else if name == "select_next_sibling"@ {
        Some(Action::SelectNextSibling)
    } else if name == "select_prev_sibling"@ {
        Some(Action::SelectPrevSibling)
    } else {
        None
    }
}

/// Resolves the command named by the characters `s[from..to]`.
pub fn action_in(s: &Vec<char>, from: usize, to: usize) -> (r: Option<Action>)
    requires
        from <= to <= s.len(),
    ensures
        r == action_of_name(s@.subrange(from as int, to as int)),
{
    if spells(s, from, to, "unselect") {
        Some(Action::UnselectRet)
    } else if spells(s, from, to, "scroll_up") {
        Some(Action::ScrollUp)
    } else if spells(s, from, to, "scroll_down") {
        Some(Action::ScrollDown)
    } else if spells(s, from, to, "delete") {
        Some(Action::DeleteSelected)
    } else if spells(s, from, to, "select_up") {
        Some(Action::SelectUp)
    } else if spells(s, from, to, "select_down") {
        Some(Action::SelectDown)
    } else if spells(s, from, to, "select_left") {
        Some(Action::SelectLeft)
    } else if spells(s, from, to, "select_right") {
        Some(Action::SelectRight)
    } else if spells(s, from, to, "erase") {
        Some(Action::EraseChar)
    } else if spells(s, from, to, "create_sibling") {
        Some(Action::CreateSibling)
    } else if spells(s, from, to, "create_child") {
        Some(Action::CreateChild)
    } else if spells(s, from, to, "create_free_node") {
        Some(Action::CreateFreeNode)
    } else if spells(s, from, to, "execute") {
        Some(Action::ExecSelected)
    } else if spells(s, from, to, "drill_down") {
        Some(Action::DrillDown)
    } else if spells(s, from, to, "pop_up") {
        Some(Action::PopUp)
    } else if spells(s, from, to, "jump") {
        Some(Action::PrefixJump)
    } else if spells(s, from, to, "toggle_completed") {
        Some(Action::ToggleCompleted)
    } else if spells(s, from, to, "toggle_hide_completed") {
        Some(Action::ToggleHideCompleted)
    } else if spells(s, from, to, "arrow") {
        Some(Action::Arrow)
    } else if spells(s, from, to, "auto_arrange") {
        Some(Action::AutoArrange)
    } else if spells(s, from, to, "toggle_collapsed") {
        Some(Action::ToggleCollapsed)
    } else if spells(s, from, to, "quit") {
        Some(Action::Quit)
    } else if spells(s, from, to, "save") {
        Some(Action::Save)
    } else if spells(s, from, to, "toggle_show_logs") {
        Some(Action::ToggleShowLogs)
    } else if spells(s, from, to, "enter_command") {
        Some(Action::EnterCmd)
    } else if spells(s, from, to, "find_task") {
        Some(Action::FindTask)
    } else if spells(s, from, to, "yank_paste_node") {
        Some(Action::YankPasteNode)
    } else if spells(s, from, to, "raise_selected") {
        Some(Action::RaiseSelected)
    } else if spells(s, from, to, "lower_selected") {
        Some(Action::LowerSelected)
    } else if spells(s, from, to, "search") {
        Some(Action::Search)
    } else if spells(s, from, to, "undo_delete") {
        Some(Action::UndoDelete)
    } else if spells(s, from, to, "help") {
        Some(Action::Help)
    } else if spells(s, from, to, "select_parent") {
        Some(Action::SelectParent)
    } else if spells(s, from, to, "select_next_sibling") {
        Some(Action::SelectNextSibling)
    } else if spells(s, from, to, "select_prev_sibling") {
        Some(Action::SelectPrevSibling)
    } else {
        None
    }
}

/// Resolves a keyfile name to the command it stands for, or to nothing when
/// the name is not in the vocabulary.
pub fn to_action(input: String) -> (r: Option<Action>)
    ensures
        r == action_of_name(input@),
{
    let chars = chars_of(input.as_str());
    assert(chars@.subrange(0, chars@.len() as int) =~= chars@);
    action_in(&chars, 0, chars.len())
}

} // verus!
