//! The keyfile: a text of one binding per line, `<command>: <key>`, which
//! overrides bindings of a keymap.
//!
//! Empty lines and lines that start with `#` are passed over. Every other
//! line holds exactly one colon, with a command name before it and a key
//! token after it, white space around either being ignored. The format has
//! no way to name a mode, so every line binds its key in normal mode.

use crate::action::{action_in, action_of_name, Action, Mode};
use crate::config::Config;
use crate::defaults::default_bindings;
use crate::error::{ConfigError, SpecConfigError};
use crate::key::{key_in, key_of_token, Key};
use crate::table::{table_of, Binding};
use crate::text::{chars_of, find_first, first_index_of, lines_of, split_lines, trim, trim_span};
use vstd::prelude::*;
use vstd::string::{StrSliceExecFns, StringExecFns};

verus! {

/// Whether the parser passes over `line`: it is empty or a comment.
pub open spec fn is_skipped(line: Seq<char>) -> bool {
    line.len() == 0 || line[0] == '#'
}

/// The binding that `line`, the `number`-th of its file, asks for, or what is
/// wrong with the line.
pub open spec fn override_of_line(line: Seq<char>, number: nat) -> Result<
    Binding,
    SpecConfigError,
> {
    let colon = first_index_of(line, ':') as int;
    if colon >= line.len() || line.skip(colon + 1).contains(':') {
        Err(SpecConfigError::MalformedLine { line: number })
    } else {
        match (action_of_name(trim(line.take(colon))), key_of_token(trim(line.skip(colon + 1)))) {
            (Some(action), Some(key)) => Ok(Binding { mode: Mode::Normal, key, action }),
            _ => Err(SpecConfigError::InvalidBinding { line: number, text: line }),
        }
    }
}

/// The table that results from applying the lines from the `done`-th on to
/// `table`, in order, or what is wrong with the first line that is at fault.
pub open spec fn apply_lines(
    lines: Seq<Seq<char>>,
    done: nat,
    table: Map<(Mode, Key), Action>,
) -> Result<Map<(Mode, Key), Action>, SpecConfigError>
    decreases lines.len() - done,
{
    if done >= lines.len() {
        Ok(table)
    } else if is_skipped(lines[done as int]) {
        apply_lines(lines, done + 1, table)
    } else {
        match override_of_line(lines[done as int], done + 1) {
            Ok(b) => apply_lines(lines, done + 1, table.insert((b.mode, b.key), b.action)),
            Err(error) => Err(error),
        }
    }
}

/// The table that results from overriding `base` with the keyfile `text`, or
/// what is wrong with the first line of `text` that is at fault.
pub open spec fn overridden(base: Map<(Mode, Key), Action>, text: Seq<char>) -> Result<
    Map<(Mode, Key), Action>,
    SpecConfigError,
> {
    apply_lines(lines_of(text), 0, base)
}

/// Whether `got` is the outcome `want`, a table being taken by its view and
/// an error by its.
pub open spec fn is_outcome(
    got: Result<Config, ConfigError>,
    want: Result<Map<(Mode, Key), Action>, SpecConfigError>,
) -> bool {
    match want {
        Ok(table) => got is Ok && got->Ok_0@ == table,
        Err(error) => got is Err && got->Err_0@ == error,
    }
}

/// Reads the binding that the line `chars[from..to]` of the keyfile `text`
/// asks for; `number` is the line's number.
fn read_override(text: &str, chars: &Vec<char>, from: usize, to: usize, number: usize) -> (r:
    Result<Binding, ConfigError>)
    requires
        chars@ == text@,
        from <= to <= chars.len(),
    ensures
        match override_of_line(chars@.subrange(from as int, to as int), number as nat) {
            Ok(b) => r == Ok::<Binding, ConfigError>(b),
            Err(error) => r is Err && r->Err_0@ == error,
        },
{
    let ghost line = chars@.subrange(from as int, to as int);
    let colon = find_first(chars, from, to, ':');
    if colon == to {
        return Err(ConfigError::MalformedLine { line: number });
    }
    let next = find_first(chars, colon + 1, to, ':');
    proof {
        let tail = line.skip(colon - from + 1);
        assert(tail =~= chars@.subrange(colon + 1, to as int));
        assert(line.take(colon - from) =~= chars@.subrange(from as int, colon as int));
        if next < to {
            assert(tail[next - colon - 1] == ':');
        }
    }
    if next < to {
        return Err(ConfigError::MalformedLine { line: number });
    }
    let (name_from, name_to) = trim_span(chars, from, colon);
    let (token_from, token_to) = trim_span(chars, colon + 1, to);
    match (action_in(chars, name_from, name_to), key_in(chars, token_from, token_to)) {
        (Some(action), Some(key)) => Ok(Binding { mode: Mode::Normal, key, action }),
        _ => {
            let written = String::from_str(text.substring_char(from, to));
            Err(ConfigError::InvalidBinding { line: number, text: written })
        },
    }
}

impl Config {
    /// Overrides this keymap with the bindings of the keyfile `text`. Each
    /// line's binding replaces what its key was bound to in normal mode. The
    /// first line at fault fails the whole: no keymap comes of a keyfile
    /// that is applied in part.
    pub fn with_overrides(self, text: &str) -> (r: Result<Config, ConfigError>)
        ensures
            is_outcome(r, overridden(self@, text@)),
    {
        let chars = chars_of(text);
        let spans = split_lines(&chars);
        let ghost lines = lines_of(text@);
        let ghost base = self@;
        let mut config = self;
        let mut i: usize = 0;
        while i < spans.len()
            invariant
                i <= spans.len(),
                chars@ == text@,
                base == self@,
                lines == lines_of(text@),
                spans@.len() == lines.len(),
                forall|k: int|
                    0 <= k < spans@.len() ==> {
                        let (from, to) = #[trigger] spans@[k];
                        from <= to <= chars@.len() && chars@.subrange(from as int, to as int)
                            == lines[k]
                    },
                apply_lines(lines, 0, base) == apply_lines(lines, i as nat, config@),
            decreases spans.len() - i,
        {
            let (from, to) = spans[i];
            if from < to && chars[from] != '#' {
                match read_override(text, &chars, from, to, i + 1) {
                    Ok(b) => {
                        config = config.with_binding(b.mode, b.key, b.action);
                    },
                    Err(error) => {
                        return Err(error);
                    },
                }
            }
            i += 1;
        }
        Ok(config)
    }

    /// The keymap of the built-in bindings overridden with the keyfile
    /// `text`.
    pub fn parse_keyfile(text: String) -> (r: Result<Config, ConfigError>)
        ensures
            is_outcome(r, overridden(table_of(default_bindings()), text@)),
    {
        Config::default().with_overrides(text.as_str())
    }

    /// The keymap to start with: the built-in bindings, overridden with the
    /// keyfile `keyfile` where the environment names one.
    pub fn maybe_parsed_from_env(keyfile: Option<String>) -> (r: Result<Config, ConfigError>)
        ensures
            is_outcome(
                r,
                match keyfile {
                    Some(text) => overridden(table_of(default_bindings()), text@),
                    None => Ok(table_of(default_bindings())),
                },
            ),
    {
        match keyfile {
            Some(text) => Config::parse_keyfile(text),
            None => Ok(Config::default()),
        }
    }
}

} // verus!
