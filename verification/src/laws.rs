//! What holds of every keymap, stated over the tables and the dispatch rule
//! that the contracts of the library speak of.

use crate::action::{Action, Mode};
use crate::config::{diagnosis, resolve};
use crate::defaults::default_bindings;
use crate::event::{Event, MouseButton, MouseEvent};
use crate::key::Key;
use crate::error::SpecConfigError;
use crate::keyfile::{apply_lines, is_skipped, override_of_line};
use crate::table::{bound, lemma_last_binding_wins, table_of, Binding};
use vstd::prelude::*;

verus! {

/// The position of the earlier of the two built-in bindings of Ctrl-p in
/// normal mode, the one that the later replaces.
pub open spec fn replaced_default() -> int {
    22
}

/// The position of the later of the two built-in bindings of Ctrl-p in
/// normal mode.
pub open spec fn replacing_default() -> int {
    37
}

/// Among the built-in bindings only Ctrl-p in normal mode is bound twice.
pub proof fn lemma_one_default_is_replaced()
    ensures
        forall|i: int, j: int|
            #![trigger default_bindings()[i], default_bindings()[j]]
            0 <= i < j < default_bindings().len() && default_bindings()[i].binds(
                default_bindings()[j].mode,
                default_bindings()[j].key,
            ) ==> i == replaced_default() && j == replacing_default(),
{
}

/// With no keyfile, every built-in binding but the replaced one resolves to
/// its command: a press of its key in its mode stands for its command.
pub proof fn lemma_defaults_resolve(i: int)
    requires
        0 <= i < default_bindings().len(),
        i != replaced_default(),
    ensures
        resolve(
            table_of(default_bindings()),
            Event::Key(default_bindings()[i].key),
            default_bindings()[i].mode,
        ) == Some(default_bindings()[i].action),
{
    lemma_one_default_is_replaced();
    lemma_last_binding_wins(default_bindings(), i);
}

/// A plain character that the table does not bind in the current mode is
/// typed as itself.
pub proof fn lemma_unbound_char_is_typed(table: Map<(Mode, Key), Action>, mode: Mode, c: char)
    requires
        !table.contains_key((mode, Key::Char(c))),
    ensures
        resolve(table, Event::Key(Key::Char(c)), mode) == Some(Action::Char(mode, c)),
{
}

/// A key other than a plain character that the table does not bind in the
/// current mode stands for nothing.
pub proof fn lemma_unbound_key_is_dropped(table: Map<(Mode, Key), Action>, mode: Mode, key: Key)
    requires
        !(key is Char),
        !table.contains_key((mode, key)),
    ensures
        resolve(table, Event::Key(key), mode) == None::<Action>,
{
}

/// A key that the table binds in the current mode stands for the command it
/// is bound to.
pub proof fn lemma_bound_key_resolves(table: Map<(Mode, Key), Action>, mode: Mode, key: Key)
    requires
        table.contains_key((mode, key)),
    ensures
        resolve(table, Event::Key(key), mode) == Some(table[(mode, key)]),
{
}

/// A right button press is a right click where it happened, whatever the
/// table and the mode.
pub proof fn lemma_right_press_is_right_click(
    table: Map<(Mode, Key), Action>,
    mode: Mode,
    x: u16,
    y: u16,
)
    ensures
        resolve(table, Event::Mouse(MouseEvent::Press(MouseButton::Right, x, y)), mode) == Some(
            Action::RightClick(x, y),
        ),
{
}

/// A mouse hold stands for nothing, whatever the table and the mode.
pub proof fn lemma_hold_is_ignored(table: Map<(Mode, Key), Action>, mode: Mode, x: u16, y: u16)
    ensures
        resolve(table, Event::Mouse(MouseEvent::Hold(x, y)), mode) == None::<Action>,
{
}

/// Resolution is a function of the table, the event and the mode: two
/// resolutions of one event in one mode against one table agree.
pub proof fn lemma_resolution_is_deterministic(
    table: Map<(Mode, Key), Action>,
    event: Event,
    mode: Mode,
    first: Option<Action>,
    second: Option<Action>,
)
    requires
        first == resolve(table, event, mode),
        second == resolve(table, event, mode),
    ensures
        first == second,
{
}

/// A warning goes only with an event that stands for nothing, and every such
/// event but a mouse hold has one.
pub proof fn lemma_warnings_go_with_nothing(
    table: Map<(Mode, Key), Action>,
    event: Event,
    mode: Mode,
)
    ensures
        diagnosis(table, event, mode) is Some ==> resolve(table, event, mode) is None,
        resolve(table, event, mode) is None ==> diagnosis(table, event, mode) is Some || (event
            matches Event::Mouse(MouseEvent::Hold(_, _))),
{
}

/// The number of the line that `error` is about.
pub open spec fn line_of(error: SpecConfigError) -> nat {
    match error {
        SpecConfigError::MalformedLine { line } => line,
        SpecConfigError::InvalidBinding { line, .. } => line,
    }
}

/// Whether line `i` of `lines` asks for a binding of `key`.
pub open spec fn line_binds(lines: Seq<Seq<char>>, i: int, key: Key) -> bool {
    &&& !is_skipped(lines[i])
    &&& override_of_line(lines[i], (i + 1) as nat) matches Ok(b)
    &&& b.key == key
}

/// Applying lines none of which binds `key` leaves what `key` stands for in
/// normal mode as it was.
pub proof fn lemma_other_lines_keep_binding(
    lines: Seq<Seq<char>>,
    done: nat,
    table: Map<(Mode, Key), Action>,
    key: Key,
)
    requires
        apply_lines(lines, done, table) is Ok,
        forall|j: int| done <= j < lines.len() ==> !#[trigger] line_binds(lines, j, key),
    ensures
        bound(apply_lines(lines, done, table)->Ok_0, Mode::Normal, key) == bound(
            table,
            Mode::Normal,
            key,
        ),
    decreases lines.len() - done,
{
    if done < lines.len() {
        assert(!line_binds(lines, done as int, key));
        if is_skipped(lines[done as int]) {
            lemma_other_lines_keep_binding(lines, done + 1, table, key);
        } else {
            let b = override_of_line(lines[done as int], done + 1)->Ok_0;
            lemma_other_lines_keep_binding(
                lines,
                done + 1,
                table.insert((b.mode, b.key), b.action),
                key,
            );
        }
    }
}

/// In a keyfile that is accepted, the last line that binds a key decides
/// what the key stands for in normal mode, whatever the table held before.
pub proof fn lemma_last_override_wins(
    lines: Seq<Seq<char>>,
    done: nat,
    table: Map<(Mode, Key), Action>,
    i: int,
    key: Key,
)
    requires
        done <= i < lines.len(),
        apply_lines(lines, done, table) is Ok,
        line_binds(lines, i, key),
        forall|j: int| i < j < lines.len() ==> !#[trigger] line_binds(lines, j, key),
    ensures
        bound(apply_lines(lines, done, table)->Ok_0, Mode::Normal, key) == Some(
            override_of_line(lines[i], (i + 1) as nat)->Ok_0.action,
        ),
    decreases lines.len() - done,
{
    if done == i {
        let b = override_of_line(lines[i], (i + 1) as nat)->Ok_0;
        lemma_other_lines_keep_binding(
            lines,
            done + 1,
            table.insert((b.mode, b.key), b.action),
            key,
        );
    } else if is_skipped(lines[done as int]) {
        lemma_last_override_wins(lines, done + 1, table, i, key);
    } else {
        let b = override_of_line(lines[done as int], done + 1)->Ok_0;
        lemma_last_override_wins(lines, done + 1, table.insert((b.mode, b.key), b.action), i, key);
    }
}

/// A keyfile is refused for its first line at fault: the error carries that
/// line's number, counted from one over all lines, and every line before it
/// is passed over or in order.
pub proof fn lemma_error_names_first_fault(
    lines: Seq<Seq<char>>,
    done: nat,
    table: Map<(Mode, Key), Action>,
)
    requires
        apply_lines(lines, done, table) is Err,
    ensures
        ({
            let error = apply_lines(lines, done, table)->Err_0;
            let at = line_of(error) - 1;
            &&& done <= at < lines.len()
            &&& !is_skipped(lines[at])
            &&& override_of_line(lines[at], line_of(error)) == Err::<Binding, SpecConfigError>(
                error,
            )
            &&& forall|j: int|
                done <= j < at ==> is_skipped(#[trigger] lines[j]) || override_of_line(
                    lines[j],
                    (j + 1) as nat,
                ) is Ok
        }),
    decreases lines.len() - done,
{
    if done < lines.len() {
        if is_skipped(lines[done as int]) {
            lemma_error_names_first_fault(lines, done + 1, table);
        } else {
            match override_of_line(lines[done as int], done + 1) {
                Ok(b) => {
                    lemma_error_names_first_fault(
                        lines,
                        done + 1,
                        table.insert((b.mode, b.key), b.action),
                    );
                },
                Err(_) => {},
            }
        }
    }
}

/// A keyfile all of whose lines are in order or passed over is accepted.
pub proof fn lemma_sound_keyfile_is_accepted(
    lines: Seq<Seq<char>>,
    done: nat,
    table: Map<(Mode, Key), Action>,
)
    requires
        forall|j: int|
            done <= j < lines.len() ==> is_skipped(#[trigger] lines[j]) || override_of_line(
                lines[j],
                (j + 1) as nat,
            ) is Ok,
    ensures
        apply_lines(lines, done, table) is Ok,
    decreases lines.len() - done,
{
    if done < lines.len() {
        if is_skipped(lines[done as int]) {
            lemma_sound_keyfile_is_accepted(lines, done + 1, table);
        } else {
            let b = override_of_line(lines[done as int], done + 1)->Ok_0;
            lemma_sound_keyfile_is_accepted(
                lines,
                done + 1,
                table.insert((b.mode, b.key), b.action),
            );
        }
    }
}

} // verus!
