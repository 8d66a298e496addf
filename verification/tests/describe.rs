use keymap::action::{Action, Mode};
use keymap::config::Config;
use keymap::describe::{describe_bindings, write_action, write_binding, write_key};
use keymap::key::Key;
use keymap::table::Binding;

fn key_text(key: Key, quoted: &str) -> String {
    let mut out = String::new();
    write_key(&mut out, key, quoted);
    out
}

fn action_text(action: Action, quoted: &str) -> String {
    let mut out = String::new();
    write_action(&mut out, action, quoted);
    out
}

#[test]
fn keys_are_written_as_their_debug_text() {
    let keys = vec![
        Key::Backspace,
        Key::Left,
        Key::Right,
        Key::Up,
        Key::Down,
        Key::Home,
        Key::End,
        Key::PageUp,
        Key::PageDown,
        Key::BackTab,
        Key::Delete,
        Key::Insert,
        Key::Null,
        Key::Esc,
        Key::F(0),
        Key::F(1),
        Key::F(12),
        Key::F(255),
    ];
    for key in keys {
        assert_eq!(key_text(key, ""), format!("{:?}", key));
    }
    for c in ['a', 'Z', ' ', '\t', '\n', '\'', '"', '\\', '\u{e9}', '\u{0}', '\u{301}'] {
        let quoted = format!("{:?}", c);
        for key in [Key::Char(c), Key::Alt(c), Key::Ctrl(c)] {
            assert_eq!(key_text(key, &quoted), format!("{:?}", key));
        }
    }
}

#[test]
fn key_text_uses_the_quoted_character_it_is_given() {
    assert_eq!(key_text(Key::Char('i'), "'i'"), "Char('i')");
    assert_eq!(key_text(Key::Ctrl('c'), "<c>"), "Ctrl(<c>)");
    assert_eq!(key_text(Key::Alt('P'), ""), "Alt()");
    assert_eq!(key_text(Key::Esc, "ignored"), "Esc");
    assert_eq!(key_text(Key::F(7), "ignored"), "F(7)");
}

#[test]
fn actions_are_written_as_their_debug_text() {
    let actions = vec![
        Action::Mode(Mode::Normal),
        Action::Mode(Mode::Insert),
        Action::LeftClick(0, 0),
        Action::LeftClick(10, 4),
        Action::RightClick(65535, 1),
        Action::Release(123, 45678),
        Action::UnselectRet,
        Action::ScrollUp,
        Action::ScrollDown,
        Action::DeleteSelected,
        Action::SelectUp,
        Action::SelectDown,
        Action::SelectLeft,
        Action::SelectRight,
        Action::EraseChar,
        Action::CreateSibling,
        Action::CreateChild,
        Action::CreateFreeNode,
        Action::ExecSelected,
        Action::DrillDown,
        Action::PopUp,
        Action::PrefixJump,
        Action::ToggleCompleted,
        Action::ToggleHideCompleted,
        Action::Arrow,
        Action::AutoArrange,
        Action::ToggleCollapsed,
        Action::Quit,
        Action::Save,
        Action::ToggleShowLogs,
        Action::EnterCmd,
        Action::FindTask,
        Action::YankPasteNode,
        Action::RaiseSelected,
        Action::LowerSelected,
        Action::Search,
        Action::UndoDelete,
        Action::Help,
        Action::SelectParent,
        Action::SelectNextSibling,
        Action::SelectPrevSibling,
    ];
    for action in actions {
        assert_eq!(action_text(action, ""), format!("{:?}", action));
    }
    for c in ['a', '\n', '\''] {
        let quoted = format!("{:?}", c);
        for mode in [Mode::Normal, Mode::Insert] {
            let action = Action::Char(mode, c);
            assert_eq!(action_text(action, &quoted), format!("{:?}", action));
        }
    }
}

#[test]
fn action_text_uses_the_quoted_character_it_is_given() {
    assert_eq!(action_text(Action::Char(Mode::Insert, 'x'), "'x'"), "Char(Insert, 'x')");
    assert_eq!(action_text(Action::Char(Mode::Normal, 'x'), "?"), "Char(Normal, ?)");
    assert_eq!(action_text(Action::Quit, "ignored"), "Quit");
    assert_eq!(action_text(Action::Release(3, 40), "ignored"), "Release(3, 40)");
}

#[test]
fn binding_line_is_indented_and_terminated() {
    let mut out = String::from("head\n");
    let b = Binding { mode: Mode::Normal, key: Key::Ctrl('c'), action: Action::Quit };
    write_binding(&mut out, b, "", "'c'");
    assert_eq!(out, "head\n    Quit: (Normal, Ctrl('c'))\n");
    let b = Binding {
        mode: Mode::Insert,
        key: Key::Char('q'),
        action: Action::Char(Mode::Insert, 'w'),
    };
    write_binding(&mut out, b, "'w'", "'q'");
    assert_eq!(
        out,
        "head\n    Quit: (Normal, Ctrl('c'))\n    Char(Insert, 'w'): (Insert, Char('q'))\n"
    );
}

#[test]
fn description_of_no_bindings_is_the_heading() {
    assert_eq!(describe_bindings(&vec![]), "Configured Hotkeys:\n");
    assert_eq!(Config::empty().describe(), "Configured Hotkeys:\n");
}

#[test]
fn description_lists_each_binding_in_order() {
    let list = vec![
        Binding { mode: Mode::Normal, key: Key::Char('i'), action: Action::Mode(Mode::Insert) },
        Binding { mode: Mode::Insert, key: Key::Esc, action: Action::Mode(Mode::Normal) },
        Binding { mode: Mode::Normal, key: Key::F(1), action: Action::PrefixJump },
        Binding { mode: Mode::Normal, key: Key::Char('\t'), action: Action::CreateChild },
        Binding { mode: Mode::Normal, key: Key::Alt('P'), action: Action::SelectParent },
        Binding { mode: Mode::Normal, key: Key::Char('\''), action: Action::LeftClick(1, 20) },
    ];
    let expected = "Configured Hotkeys:\n\
                    \x20   Mode(Insert): (Normal, Char('i'))\n\
                    \x20   Mode(Normal): (Insert, Esc)\n\
                    \x20   PrefixJump: (Normal, F(1))\n\
                    \x20   CreateChild: (Normal, Char('\\t'))\n\
                    \x20   SelectParent: (Normal, Alt('P'))\n\
                    \x20   LeftClick(1, 20): (Normal, Char('\\''))\n";
    assert_eq!(describe_bindings(&list), expected);
    assert_eq!(Config::from_bindings(&list).describe(), expected);
}

#[test]
fn description_matches_the_debug_text_of_each_binding() {
    let config = Config::default();
    let mut expected = String::from("Configured Hotkeys:\n");
    for b in config.bindings() {
        expected.push_str(&format!("    {:?}: {:?}\n", b.action, (b.mode, b.key)));
    }
    assert_eq!(config.describe(), expected);
    assert_eq!(config.describe().lines().count(), 38);
}

#[test]
fn description_escapes_characters_that_do_not_print() {
    let config = Config::default();
    let text = config.describe();
    assert!(text.contains("    CreateChild: (Normal, Char('\\t'))\n"));
    assert!(text.contains("    ToggleCollapsed: (Normal, Char(' '))\n"));
    assert!(!text.contains('\t'));
}

#[test]
fn description_follows_overrides() {
    let config = Config::parse_keyfile("quit: k".to_string()).unwrap();
    let text = config.describe();
    assert!(text.contains("    Quit: (Normal, Char('k'))\n"));
    assert!(!text.contains("SelectUp"));
}
