//! Keybinding resolution for a terminal outline editor.
//!
//! A keymap maps a key in a mode to a command. It starts from built-in
//! bindings, can be overridden by a keyfile, and resolves each input event
//! of the terminal to the command that the event stands for.
//!
//! - `action`: the modes, the commands, and the names of commands.
//! - `key`, `event`: keys and input events, and the tokens that denote keys.
//! - `table`: the binding table as a map, built from a list of bindings.
//! - `defaults`: the built-in bindings.
//! - `config`: the keymap and the resolution of events.
//! - `keyfile`: the override format and its parser.
//! - `error`: what is wrong with a keyfile.
//! - `describe`: the help text that lists a keymap's bindings.
//! - `text`: characters, white space and lines.
//! - `laws`: what holds of every keymap.

pub mod action;
pub mod config;
pub mod defaults;
pub mod describe;
pub mod error;
pub mod event;
pub mod key;
pub mod keyfile;
pub mod laws;
pub mod table;
pub mod text;
