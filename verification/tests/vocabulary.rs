use keymap::action::{to_action, Action};
use keymap::key::{to_key, Key};

fn action(name: &str) -> Option<Action> {
    to_action(name.to_string())
}

fn key(token: &str) -> Option<Key> {
    to_key(token.to_string())
}

#[test]
fn every_action_name_resolves() {
    let table = vec![
        ("unselect", Action::UnselectRet),
        ("scroll_up", Action::ScrollUp),
        ("scroll_down", Action::ScrollDown),
        ("delete", Action::DeleteSelected),
        ("select_up", Action::SelectUp),
        ("select_down", Action::SelectDown),
        ("select_left", Action::SelectLeft),
        ("select_right", Action::SelectRight),
        ("erase", Action::EraseChar),
        ("create_sibling", Action::CreateSibling),
        ("create_child", Action::CreateChild),
        ("create_free_node", Action::CreateFreeNode),
        ("execute", Action::ExecSelected),
        ("drill_down", Action::DrillDown),
        ("pop_up", Action::PopUp),
        ("jump", Action::PrefixJump),
        ("toggle_completed", Action::ToggleCompleted),
        ("toggle_hide_completed", Action::ToggleHideCompleted),
        ("arrow", Action::Arrow),
        ("auto_arrange", Action::AutoArrange),
        ("toggle_collapsed", Action::ToggleCollapsed),
        ("quit", Action::Quit),
        ("save", Action::Save),
        ("toggle_show_logs", Action::ToggleShowLogs),
        ("enter_command", Action::EnterCmd),
        ("find_task", Action::FindTask),
        ("yank_paste_node", Action::YankPasteNode),
        ("raise_selected", Action::RaiseSelected),
        ("lower_selected", Action::LowerSelected),
        ("search", Action::Search),
        ("undo_delete", Action::UndoDelete),
        ("help", Action::Help),
        ("select_parent", Action::SelectParent),
        ("select_next_sibling", Action::SelectNextSibling),
        ("select_prev_sibling", Action::SelectPrevSibling),
    ];
    assert_eq!(table.len(), 35);
    for (name, expected) in table {
        assert_eq!(action(name), Some(expected), "{}", name);
    }
}

#[test]
fn unknown_action_names_resolve_to_nothing() {
    assert_eq!(action("bogus_action"), None);
    assert_eq!(action(""), None);
    assert_eq!(action("quit "), None);
    assert_eq!(action(" quit"), None);
    assert_eq!(action("qui"), None);
    assert_eq!(action("quite"), None);
    assert_eq!(action("select"), None);
    assert_eq!(action("select_"), None);
}

#[test]
fn action_names_are_case_sensitive() {
    assert_eq!(action("Quit"), None);
    assert_eq!(action("QUIT"), None);
    assert_eq!(action("Scroll_Up"), None);
}

#[test]
fn payload_actions_have_no_name() {
    assert_eq!(action("mode"), None);
    assert_eq!(action("char"), None);
    assert_eq!(action("left_click"), None);
    assert_eq!(action("right_click"), None);
    assert_eq!(action("release"), None);
}

#[test]
fn named_key_tokens_resolve() {
    assert_eq!(key("esc"), Some(Key::Esc));
    assert_eq!(key("pgup"), Some(Key::PageUp));
    assert_eq!(key("pgdn"), Some(Key::PageDown));
    assert_eq!(key("del"), Some(Key::Delete));
    assert_eq!(key("backspace"), Some(Key::Backspace));
    assert_eq!(key("up"), Some(Key::Up));
    assert_eq!(key("down"), Some(Key::Down));
    assert_eq!(key("left"), Some(Key::Left));
    assert_eq!(key("right"), Some(Key::Right));
    assert_eq!(key("space"), Some(Key::Char(' ')));
    assert_eq!(key("enter"), Some(Key::Char('\n')));
    assert_eq!(key("tab"), Some(Key::Char('\t')));
}

#[test]
fn single_character_tokens_are_that_character() {
    assert_eq!(key("k"), Some(Key::Char('k')));
    assert_eq!(key("K"), Some(Key::Char('K')));
    assert_eq!(key(":"), Some(Key::Char(':')));
    assert_eq!(key("A"), Some(Key::Char('A')));
    assert_eq!(key("C"), Some(Key::Char('C')));
    assert_eq!(key("-"), Some(Key::Char('-')));
    assert_eq!(key(" "), Some(Key::Char(' ')));
}

#[test]
fn single_character_tokens_need_not_be_ascii() {
    assert_eq!(key("\u{e9}"), Some(Key::Char('\u{e9}')));
    assert_eq!(key("\u{4e2d}"), Some(Key::Char('\u{4e2d}')));
}

#[test]
fn modifier_tokens_take_the_third_character() {
    assert_eq!(key("A-P"), Some(Key::Alt('P')));
    assert_eq!(key("C-c"), Some(Key::Ctrl('c')));
    assert_eq!(key("C-?"), Some(Key::Ctrl('?')));
    assert_eq!(key("A--"), Some(Key::Alt('-')));
    assert_eq!(key("C-\u{e9}"), Some(Key::Ctrl('\u{e9}')));
}

#[test]
fn modifier_tokens_ignore_what_follows_the_third_character() {
    assert_eq!(key("A-xyz"), Some(Key::Alt('x')));
    assert_eq!(key("C-cc"), Some(Key::Ctrl('c')));
}

#[test]
fn modifier_prefix_alone_is_no_key() {
    assert_eq!(key("A-"), None);
    assert_eq!(key("C-"), None);
}

#[test]
fn modifier_prefixes_are_case_sensitive() {
    assert_eq!(key("a-x"), None);
    assert_eq!(key("c-x"), None);
    assert_eq!(key("S-x"), None);
}

#[test]
fn other_tokens_are_no_key() {
    assert_eq!(key(""), None);
    assert_eq!(key("ab"), None);
    assert_eq!(key("Esc"), None);
    assert_eq!(key("ESC"), None);
    assert_eq!(key("escape"), None);
    assert_eq!(key("home"), None);
    assert_eq!(key("f1"), None);
    assert_eq!(key("nothing"), None);
    assert_eq!(key("Ax-"), None);
}
