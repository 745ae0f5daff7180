use modal_editor::editor::{Editor, EditorAction};
use modal_editor::editor_config::{EditorConfig, Keymap};
use modal_editor::types::{
    Cursor, EditorCommand, KeyCode, KeyEvent, KeyModifiers, Mode, When,
};

fn document(lines: &[&str]) -> Vec<Vec<char>> {
    lines.iter().map(|l| l.chars().collect()).collect()
}

fn editor(lines: &[&str], row: usize, col: usize, mode: Mode) -> Editor {
    Editor { mode, cursor: Cursor { col, row }, doc: document(lines) }
}

fn binding(
    key: KeyCode,
    modifiers: KeyModifiers,
    when: Option<When>,
    command: EditorCommand,
) -> Keymap {
    Keymap { key, command, modifiers, when }
}

#[test]
fn default_config_binds_control_q_to_quit() {
    let config = EditorConfig::new();
    assert_eq!(config.keymaps.len(), 1);
    assert!(matches!(config.keymaps[0].key, KeyCode::Char('q')));
    assert!(matches!(config.keymaps[0].modifiers, KeyModifiers::CONTROL));
    assert!(matches!(config.keymaps[0].command, EditorCommand::Quit));
    assert!(config.keymaps[0].when.is_none());
}

#[test]
fn control_q_resolves_to_quit_in_normal_mode() {
    let config = EditorConfig::new();
    let mut ed = editor(&["ab"], 0, 1, Mode::Normal);
    let event = KeyEvent { key: KeyCode::Char('q'), modifiers: KeyModifiers::CONTROL };
    let found = ed.find_matching_keymap(&config, &event);
    assert!(matches!(found.map(|k| k.command), Some(EditorCommand::Quit)));
    let r = ed.handle_event(&config, &event);
    assert_eq!(r, Ok(EditorAction::Quit));
    assert_eq!(ed.doc, document(&["ab"]));
    assert_eq!(ed.cursor, Cursor { col: 1, row: 0 });
}

#[test]
fn binding_with_modifier_ignores_unmodified_event() {
    let config = EditorConfig::new();
    let ed = editor(&[""], 0, 0, Mode::Normal);
    let event = KeyEvent { key: KeyCode::Char('q'), modifiers: KeyModifiers::NONE };
    assert!(ed.find_matching_keymap(&config, &event).is_none());
}

#[test]
fn binding_without_modifier_ignores_modified_event() {
    let table = vec![binding(
        KeyCode::Char('h'),
        KeyModifiers::NONE,
        None,
        EditorCommand::MoveCursorLeft,
    )];
    let config = EditorConfig { keymaps: table };
    let ed = editor(&["ab"], 0, 1, Mode::Normal);
    let plain = KeyEvent { key: KeyCode::Char('h'), modifiers: KeyModifiers::NONE };
    let control = KeyEvent { key: KeyCode::Char('h'), modifiers: KeyModifiers::CONTROL };
    assert!(matches!(
        ed.find_matching_keymap(&config, &plain).map(|k| k.command),
        Some(EditorCommand::MoveCursorLeft)
    ));
    assert!(ed.find_matching_keymap(&config, &control).is_none());
}

#[test]
fn unmatched_char_in_visual_mode_mutates_nothing() {
    let config = EditorConfig::new();
    let mut ed = editor(&["ab"], 0, 1, Mode::Visual);
    let event = KeyEvent { key: KeyCode::Char('x'), modifiers: KeyModifiers::NONE };
    let r = ed.handle_event(&config, &event);
    assert_eq!(r, Ok(EditorAction::Continue));
    assert_eq!(ed.doc, document(&["ab"]));
    assert_eq!(ed.cursor, Cursor { col: 1, row: 0 });
    assert!(matches!(ed.mode, Mode::Visual));
}

#[test]
fn unmatched_char_in_normal_mode_mutates_nothing() {
    let config = EditorConfig::new();
    let mut ed = editor(&["ab"], 0, 1, Mode::Normal);
    let event = KeyEvent { key: KeyCode::Char('x'), modifiers: KeyModifiers::NONE };
    let r = ed.handle_event(&config, &event);
    assert_eq!(r, Ok(EditorAction::Continue));
    assert_eq!(ed.doc, document(&["ab"]));
}

#[test]
fn unmatched_char_in_insert_mode_falls_back_to_insertion() {
    let config = EditorConfig::new();
    let mut ed = editor(&["ab"], 0, 1, Mode::Insert);
    let event = KeyEvent { key: KeyCode::Char('z'), modifiers: KeyModifiers::NONE };
    let r = ed.handle_event(&config, &event);
    assert_eq!(r, Ok(EditorAction::Continue));
    assert_eq!(ed.doc, document(&["azb"]));
    assert_eq!(ed.cursor, Cursor { col: 2, row: 0 });
}

#[test]
fn unmatched_named_key_produces_no_effect() {
    let config = EditorConfig::new();
    let mut ed = editor(&["ab"], 0, 1, Mode::Insert);
    let event = KeyEvent { key: KeyCode::Escape, modifiers: KeyModifiers::NONE };
    let r = ed.handle_event(&config, &event);
    assert_eq!(r, Ok(EditorAction::Continue));
    assert_eq!(ed.doc, document(&["ab"]));
    assert_eq!(ed.cursor, Cursor { col: 1, row: 0 });
}

#[test]
fn tiebreak_first_matching_entry_wins() {
    let guarded = binding(
        KeyCode::Char('x'),
        KeyModifiers::NONE,
        Some(When::ModeIs(Mode::Normal)),
        EditorCommand::MoveCursorLeft,
    );
    let unguarded = binding(
        KeyCode::Char('x'),
        KeyModifiers::NONE,
        None,
        EditorCommand::MoveCursorRight,
    );
    let config = EditorConfig { keymaps: vec![guarded, unguarded] };
    let ed = editor(&["ab"], 0, 1, Mode::Normal);
    let event = KeyEvent { key: KeyCode::Char('x'), modifiers: KeyModifiers::NONE };
    assert!(matches!(
        ed.find_matching_keymap(&config, &event).map(|k| k.command),
        Some(EditorCommand::MoveCursorLeft)
    ));
}

#[test]
fn tiebreak_reversed_order_selects_other_entry() {
    let guarded = binding(
        KeyCode::Char('x'),
        KeyModifiers::NONE,
        Some(When::ModeIs(Mode::Normal)),
        EditorCommand::MoveCursorLeft,
    );
    let unguarded = binding(
        KeyCode::Char('x'),
        KeyModifiers::NONE,
        None,
        EditorCommand::MoveCursorRight,
    );
    let config = EditorConfig { keymaps: vec![unguarded, guarded] };
    let ed = editor(&["ab"], 0, 1, Mode::Normal);
    let event = KeyEvent { key: KeyCode::Char('x'), modifiers: KeyModifiers::NONE };
    assert!(matches!(
        ed.find_matching_keymap(&config, &event).map(|k| k.command),
        Some(EditorCommand::MoveCursorRight)
    ));
}

#[test]
fn guard_skips_entry_in_other_mode_and_later_entry_fires() {
    let guarded = binding(
        KeyCode::Char('x'),
        KeyModifiers::NONE,
        Some(When::ModeIs(Mode::Normal)),
        EditorCommand::MoveCursorLeft,
    );
    let unguarded = binding(
        KeyCode::Char('x'),
        KeyModifiers::NONE,
        None,
        EditorCommand::MoveCursorRight,
    );
    let config = EditorConfig { keymaps: vec![guarded, unguarded] };
    let ed = editor(&["ab"], 0, 1, Mode::Visual);
    let event = KeyEvent { key: KeyCode::Char('x'), modifiers: KeyModifiers::NONE };
    assert!(matches!(
        ed.find_matching_keymap(&config, &event).map(|k| k.command),
        Some(EditorCommand::MoveCursorRight)
    ));
}

#[test]
fn guard_expressions_evaluate_over_modes() {
    assert!(When::ModeIs(Mode::Normal).evaluate(Mode::Normal));
    assert!(!When::ModeIs(Mode::Normal).evaluate(Mode::Insert));
    assert!(When::Not(Box::new(When::ModeIs(Mode::Insert))).evaluate(Mode::Visual));
    assert!(!When::Not(Box::new(When::ModeIs(Mode::Insert))).evaluate(Mode::Insert));
    let normal_or_visual = When::Or(
        Box::new(When::ModeIs(Mode::Normal)),
        Box::new(When::ModeIs(Mode::Visual)),
    );
    assert!(normal_or_visual.evaluate(Mode::Visual));
    assert!(!normal_or_visual.evaluate(Mode::Insert));
    let contradiction = When::And(
        Box::new(When::ModeIs(Mode::Normal)),
        Box::new(When::ModeIs(Mode::Visual)),
    );
    assert!(!contradiction.evaluate(Mode::Normal));
}

#[test]
fn guarded_binding_dispatches_only_in_its_mode() {
    let table = vec![binding(
        KeyCode::Char('d'),
        KeyModifiers::NONE,
        Some(When::ModeIs(Mode::Normal)),
        EditorCommand::DeleteChar,
    )];
    let config = EditorConfig { keymaps: table };
    let event = KeyEvent { key: KeyCode::Char('d'), modifiers: KeyModifiers::NONE };

    let mut normal = editor(&["abc"], 0, 0, Mode::Normal);
    normal.handle_event(&config, &event).unwrap();
    assert_eq!(normal.doc, document(&["bc"]));

    let mut visual = editor(&["abc"], 0, 0, Mode::Visual);
    visual.handle_event(&config, &event).unwrap();
    assert_eq!(visual.doc, document(&["abc"]));
}
