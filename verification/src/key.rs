//! Keys as the terminal reports them, and the keyfile's way of writing one.

use crate::text::{chars_of, spells};
use vstd::prelude::*;

verus! {

/// A single physical input: a named key, a function key, a character, or a
/// character combined with Alt or Ctrl. Two keys are the same input exactly
/// when they are structurally equal.
#[derive(Debug, Copy, Clone, Hash, PartialEq, Eq, Structural)]
pub enum Key {
    Backspace,
    Left,
    Right,
    Up,
    Down,
    Home,
    End,
    PageUp,
    PageDown,
    BackTab,
    Delete,
    Insert,
    /// A function key, by its number.
    F(u8),
    /// A plain character.
    Char(char),
    /// A character typed with Alt held.
    Alt(char),
    /// A character typed with Ctrl held.
    Ctrl(char),
    Null,
    Esc,
}

/// The key that a keyfile token denotes. Tokens are case-sensitive: first the
/// fixed names, then any single character as itself, then `A-` or `C-`
/// followed by the character to modify (whatever follows that character is
/// ignored). Any other token denotes nothing.
pub open spec fn key_of_token(token: Seq<char>) -> Option<Key> {
    if token == "esc"@ {
        Some(Key::Esc)
    } else if token == "pgup"@ {
        Some(Key::PageUp)
    } else if token == "pgdn"@ {
        Some(Key::PageDown)
    } else if token == "del"@ {
        Some(Key::Delete)
    } else if token == "backspace"@ {
        Some(Key::Backspace)
    } else if token == "up"@ {
        Some(Key::Up)
    } else if token == "down"@ {
        Some(Key::Down)
    } else if token == "left"@ {
        Some(Key::Left)
    } else if token == "right"@ {
        Some(Key::Right)
    } else if token == "space"@ {
        Some(Key::Char(' '))
    } else if token == "enter"@ {
        Some(Key::Char('\n'))
    } else if token == "tab"@ {
        Some(Key::Char('\t'))
    } else if token.len() == 1 {
        Some(Key::Char(token[0]))
    } else if token.len() >= 3 && token[0] == 'A' && token[1] == '-' {
        Some(Key::Alt(token[2]))
    } else if token.len() >= 3 && token[0] == 'C' && token[1] == '-' {
        Some(Key::Ctrl(token[2]))
    } else {
        None
    }
}

/// Resolves the key denoted by the characters `s[from..to]`.
pub fn key_in(s: &Vec<char>, from: usize, to: usize) -> (r: Option<Key>)
    requires
        from <= to <= s.len(),
    ensures
        r == key_of_token(s@.subrange(from as int, to as int)),
{
    if spells(s, from, to, "esc") {
        Some(Key::Esc)
    } else if spells(s, from, to, "pgup") {
        Some(Key::PageUp)
    } else if spells(s, from, to, "pgdn") {
        Some(Key::PageDown)
    } else if spells(s, from, to, "del") {
        Some(Key::Delete)
    } else if spells(s, from, to, "backspace") {
        Some(Key::Backspace)
    } else if spells(s, from, to, "up") {
        Some(Key::Up)
    } else if spells(s, from, to, "down") {
        Some(Key::Down)
    } else if spells(s, from, to, "left") {
        Some(Key::Left)
    } else if spells(s, from, to, "right") {
        Some(Key::Right)
    } else if spells(s, from, to, "space") {
        Some(Key::Char(' '))
    } else if spells(s, from, to, "enter") {
        Some(Key::Char('\n'))
    } else if spells(s, from, to, "tab") {
        Some(Key::Char('\t'))
    } else if to - from == 1 {
        Some(Key::Char(s[from]))
    } else if to - from >= 3 && s[from] == 'A' && s[from + 1] == '-' {
        Some(Key::Alt(s[from + 2]))
    } else if to - from >= 3 && s[from] == 'C' && s[from + 1] == '-' {
        Some(Key::Ctrl(s[from + 2]))
    } else {
        None
    }
}

/// Resolves a keyfile token to the key it denotes, or to nothing when the
/// token is not in the grammar.
pub fn to_key(raw_key: String) -> (r: Option<Key>)
    ensures
        r == key_of_token(raw_key@),
{
    let chars = chars_of(raw_key.as_str());
    assert(chars@.subrange(0, chars@.len() as int) =~= chars@);
    key_in(&chars, 0, chars.len())
}

} // verus!
