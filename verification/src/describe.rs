//! The help text: every binding of a keymap on a line of its own, commands
//! and keys written as the debugging format of the language writes them.

use crate::action::{Action, Mode};
use crate::config::Config;
use crate::error::{append_decimal, decimal};
use crate::key::Key;
use crate::table::{distinct_keys, table_of, Binding};
use vstd::prelude::*;
use vstd::string::StringExecFns;

verus! {

/// The text that the standard library's debugging format gives for a
/// character: the character between single quotes, escaped where it is not
/// printable or would be mistaken for a quote.
pub uninterp spec fn char_debug(c: char) -> Seq<char>;

/// The standard library's `Debug` formatting of a `char`, as `format!` with
/// `{:?}` applies it. Nothing of the text is proved: the contract only claims
/// that it depends on `c` alone, and gives it its name.
#[verifier::external_body]
fn debug_char(c: char) -> (text: String)
    ensures
        text@ == char_debug(c),
{
    format!("{:?}", c)
}

/// The name of a mode.
pub open spec fn mode_name(mode: Mode) -> Seq<char> {
    match mode {
        Mode::Normal => "Normal"@,
        Mode::Insert => "Insert"@,
    }
}

/// The name of a key's kind.
pub open spec fn key_name(key: Key) -> Seq<char> {
    match key {
        Key::Backspace => "Backspace"@,
        Key::Left => "Left"@,
        Key::Right => "Right"@,
        Key::Up => "Up"@,
        Key::Down => "Down"@,
        Key::Home => "Home"@,
        Key::End => "End"@,
        Key::PageUp => "PageUp"@,
        Key::PageDown => "PageDown"@,
        Key::BackTab => "BackTab"@,
        Key::Delete => "Delete"@,
        Key::Insert => "Insert"@,
        Key::Null => "Null"@,
        Key::Esc => "Esc"@,
        Key::F(_) => "F"@,
        Key::Char(_) => "Char"@,
        Key::Alt(_) => "Alt"@,
        Key::Ctrl(_) => "Ctrl"@,
    }
}

/// The name of a command's kind.
pub open spec fn action_name(action: Action) -> Seq<char> {
    match action {
        Action::Mode(_) => "Mode"@,
        Action::LeftClick(_, _) => "LeftClick"@,
        Action::RightClick(_, _) => "RightClick"@,
        Action::Release(_, _) => "Release"@,
        Action::Char(_, _) => "Char"@,
        Action::UnselectRet => "UnselectRet"@,
        Action::ScrollUp => "ScrollUp"@,
        Action::ScrollDown => "ScrollDown"@,
        Action::DeleteSelected => "DeleteSelected"@,
        Action::SelectUp => "SelectUp"@,
        Action::SelectDown => "SelectDown"@,
        Action::SelectLeft => "SelectLeft"@,
        Action::SelectRight => "SelectRight"@,
        Action::EraseChar => "EraseChar"@,
        Action::CreateSibling => "CreateSibling"@,
        Action::CreateChild => "CreateChild"@,
        Action::CreateFreeNode => "CreateFreeNode"@,
        Action::ExecSelected => "ExecSelected"@,
        Action::DrillDown => "DrillDown"@,
        Action::PopUp => "PopUp"@,
        Action::PrefixJump => "PrefixJump"@,
        Action::ToggleCompleted => "ToggleCompleted"@,
        Action::ToggleHideCompleted => "ToggleHideCompleted"@,
        Action::Arrow => "Arrow"@,
        Action::AutoArrange => "AutoArrange"@,
        Action::ToggleCollapsed => "ToggleCollapsed"@,
        Action::Quit => "Quit"@,
        Action::Save => "Save"@,
        Action::ToggleShowLogs => "ToggleShowLogs"@,
        Action::EnterCmd => "EnterCmd"@,
        Action::FindTask => "FindTask"@,
        Action::YankPasteNode => "YankPasteNode"@,
        Action::RaiseSelected => "RaiseSelected"@,
        Action::LowerSelected => "LowerSelected"@,
        Action::Search => "Search"@,
        Action::UndoDelete => "UndoDelete"@,
        Action::Help => "Help"@,
        Action::SelectParent => "SelectParent"@,
        Action::SelectNextSibling => "SelectNextSibling"@,
        Action::SelectPrevSibling => "SelectPrevSibling"@,
    }
}

/// The character that a key carries, if it carries one.
pub open spec fn key_char(key: Key) -> Option<char> {
    match key {
        Key::Char(c) => Some(c),
        Key::Alt(c) => Some(c),
        Key::Ctrl(c) => Some(c),
        _ => None,
    }
}

/// The character that a command carries, if it carries one.
pub open spec fn action_char(action: Action) -> Option<char> {
    match action {
        Action::Char(_, c) => Some(c),
        _ => None,
    }
}

/// A key as text, where `quoted` is the text of the character it carries:
/// the name of its kind, and in brackets what it carries.
pub open spec fn key_text(key: Key, quoted: Seq<char>) -> Seq<char> {
    match key {
        Key::F(n) => key_name(key) + "("@ + decimal(n as nat) + ")"@,
        Key::Char(_) | Key::Alt(_) | Key::Ctrl(_) => key_name(key) + "("@ + quoted + ")"@,
        _ => key_name(key),
    }
}

/// A command as text, where `quoted` is the text of the character it
/// carries: the name of its kind, and in brackets what it carries.
pub open spec fn action_text(action: Action, quoted: Seq<char>) -> Seq<char> {
    match action {
        Action::Mode(mode) => action_name(action) + "("@ + mode_name(mode) + ")"@,
        Action::LeftClick(x, y) | Action::RightClick(x, y) | Action::Release(x, y) => action_name(
            action,
        ) + "("@ + decimal(x as nat) + ", "@ + decimal(y as nat) + ")"@,
        Action::Char(mode, _) => action_name(action) + "("@ + mode_name(mode) + ", "@ + quoted
            + ")"@,
        _ => action_name(action),
    }
}

/// The help line for a binding, where `action_quoted` and `key_quoted` are
/// the texts of the characters that its command and its key carry: the
/// command, a colon, and the mode and key as a pair.
pub open spec fn binding_text(b: Binding, action_quoted: Seq<char>, key_quoted: Seq<char>) -> Seq<
    char,
> {
    "    "@ + action_text(b.action, action_quoted) + ": ("@ + mode_name(b.mode) + ", "@
        + key_text(b.key, key_quoted) + ")\n"@
}

/// The text of the character that `carried` holds, or nothing where there is
/// no character.
pub open spec fn quoted(carried: Option<char>) -> Seq<char> {
    match carried {
        Some(c) => char_debug(c),
        None => Seq::empty(),
    }
}

/// The help line for a binding.
pub open spec fn binding_line(b: Binding) -> Seq<char> {
    binding_text(b, quoted(action_char(b.action)), quoted(key_char(b.key)))
}

/// The help lines for a list of bindings, in the list's order.
pub open spec fn binding_lines(list: Seq<Binding>) -> Seq<char>
    decreases list.len(),
{
    if list.len() == 0 {
        Seq::empty()
    } else {
        binding_lines(list.drop_last()) + binding_line(list.last())
    }
}

/// The help text for a list of bindings: a heading, then a line for each.
pub open spec fn description_of(list: Seq<Binding>) -> Seq<char> {
    "Configured Hotkeys:\n"@ + binding_lines(list)
}

fn mode_word(mode: Mode) -> (word: &'static str)
    ensures
        word@ == mode_name(mode),
{
    match mode {
        Mode::Normal => "Normal",
        Mode::Insert => "Insert",
    }
}

fn key_word(key: Key) -> (word: &'static str)
    ensures
        word@ == key_name(key),
{
    match key {
        Key::Backspace => "Backspace",
        Key::Left => "Left",
        Key::Right => "Right",
        Key::Up => "Up",
        Key::Down => "Down",
        Key::Home => "Home",
        Key::End => "End",
        Key::PageUp => "PageUp",
        Key::PageDown => "PageDown",
        Key::BackTab => "BackTab",
        Key::Delete => "Delete",
        Key::Insert => "Insert",
        Key::Null => "Null",
        Key::Esc => "Esc",
        Key::F(_) => "F",
        Key::Char(_) => "Char",
        Key::Alt(_) => "Alt",
        Key::Ctrl(_) => "Ctrl",
    }
}

fn action_word(action: Action) -> (word: &'static str)
    ensures
        word@ == action_name(action),
{
    match action {
        Action::Mode(_) => "Mode",
        Action::LeftClick(_, _) => "LeftClick",
        Action::RightClick(_, _) => "RightClick",
        Action::Release(_, _) => "Release",
        Action::Char(_, _) => "Char",
        Action::UnselectRet => "UnselectRet",
        Action::ScrollUp => "ScrollUp",
        Action::ScrollDown => "ScrollDown",
        Action::DeleteSelected => "DeleteSelected",
        Action::SelectUp => "SelectUp",
        Action::SelectDown => "SelectDown",
        Action::SelectLeft => "SelectLeft",
        Action::SelectRight => "SelectRight",
        Action::EraseChar => "EraseChar",
        Action::CreateSibling => "CreateSibling",
        Action::CreateChild => "CreateChild",
        Action::CreateFreeNode => "CreateFreeNode",
        Action::ExecSelected => "ExecSelected",
        Action::DrillDown => "DrillDown",
        Action::PopUp => "PopUp",
        Action::PrefixJump => "PrefixJump",
        Action::ToggleCompleted => "ToggleCompleted",
        Action::ToggleHideCompleted => "ToggleHideCompleted",
        Action::Arrow => "Arrow",
        Action::AutoArrange => "AutoArrange",
        Action::ToggleCollapsed => "ToggleCollapsed",
        Action::Quit => "Quit",
        Action::Save => "Save",
        Action::ToggleShowLogs => "ToggleShowLogs",
        Action::EnterCmd => "EnterCmd",
        Action::FindTask => "FindTask",
        Action::YankPasteNode => "YankPasteNode",
        Action::RaiseSelected => "RaiseSelected",
        Action::LowerSelected => "LowerSelected",
        Action::Search => "Search",
        Action::UndoDelete => "UndoDelete",
        Action::Help => "Help",
        Action::SelectParent => "SelectParent",
        Action::SelectNextSibling => "SelectNextSibling",
        Action::SelectPrevSibling => "SelectPrevSibling",
    }
}

/// Appends `key` as text to `out`, where `quoted` is the text of the
/// character that `key` carries.
pub fn write_key(out: &mut String, key: Key, quoted: &str)
    ensures
        final(out)@ == old(out)@ + key_text(key, quoted@),
{
    out.append(key_word(key));
    match key {
        Key::F(n) => {
            out.append("(");
            append_decimal(out, n as usize);
            out.append(")");
        },
        Key::Char(_) | Key::Alt(_) | Key::Ctrl(_) => {
            out.append("(");
            out.append(quoted);
            out.append(")");
        },
        _ => {},
    }
}

/// Appends `action` as text to `out`, where `quoted` is the text of the
/// character that `action` carries.
pub fn write_action(out: &mut String, action: Action, quoted: &str)
    ensures
        final(out)@ == old(out)@ + action_text(action, quoted@),
{
    out.append(action_word(action));
    match action {
        Action::Mode(mode) => {
            out.append("(");
            out.append(mode_word(mode));
            out.append(")");
        },
        Action::LeftClick(x, y) | Action::RightClick(x, y) | Action::Release(x, y) => {
            out.append("(");
            append_decimal(out, x as usize);
            out.append(", ");
            append_decimal(out, y as usize);
            out.append(")");
        },
        Action::Char(mode, _) => {
            out.append("(");
            out.append(mode_word(mode));
            out.append(", ");
            out.append(quoted);
            out.append(")");
        },
        _ => {},
    }
}

/// Appends the help line for `b` to `out`, where `action_quoted` and
/// `key_quoted` are the texts of the characters that the command and the key
/// of `b` carry.
pub fn write_binding(out: &mut String, b: Binding, action_quoted: &str, key_quoted: &str)
    ensures
        final(out)@ == old(out)@ + binding_text(b, action_quoted@, key_quoted@),
{
    out.append("    ");
    write_action(out, b.action, action_quoted);
    out.append(": (");
    out.append(mode_word(b.mode));
    out.append(", ");
    write_key(out, b.key, key_quoted);
    out.append(")\n");
}

/// The text of the character that `carried` holds, as the debugging format
/// writes it, or no text where there is no character.
fn quote(carried: Option<char>) -> (text: String)
    ensures
        text@ == quoted(carried),
{
    match carried {
        Some(c) => debug_char(c),
        None => String::new(),
    }
}

/// The help text for `list`: a heading, then a line for each binding in the
/// list's order.
pub fn describe_bindings(list: &Vec<Binding>) -> (text: String)
    ensures
        text@ == description_of(list@),
{
    let mut text = String::from_str("Configured Hotkeys:\n");
    let mut i: usize = 0;
    while i < list.len()
        invariant
            i <= list.len(),
            text@ == "Configured Hotkeys:\n"@ + binding_lines(list@.take(i as int)),
        decreases list.len() - i,
    {
        let b = list[i];
        let action_quoted = quote(
            match b.action {
                Action::Char(_, c) => Some(c),
                _ => None,
            },
        );
        let key_quoted = quote(
            match b.key {
                Key::Char(c) => Some(c),
                Key::Alt(c) => Some(c),
                Key::Ctrl(c) => Some(c),
                _ => None,
            },
        );
        write_binding(&mut text, b, action_quoted.as_str(), key_quoted.as_str());
        proof {
            assert(list@.take(i + 1).drop_last() =~= list@.take(i as int));
        }
        i += 1;
    }
    proof {
        assert(list@.take(i as int) =~= list@);
    }
    text
}

impl Config {
    /// The help text for this keymap: a heading, then a line for each
    /// binding, every bound pair on one line.
    pub fn describe(&self) -> (text: String)
        ensures
            text@ == description_of(self.listing()),
            distinct_keys(self.listing()),
            table_of(self.listing()) == self@,
    {
        describe_bindings(&self.bindings())
    }
}

} // verus!
