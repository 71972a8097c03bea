use lildbsh::editor::{EditOutcome, Key, LineEditor};

fn type_text(ed: &mut LineEditor, text: &str) {
    for c in text.chars() {
        assert_eq!(ed.on_key(Key::Char(c)), EditOutcome::Show(c));
    }
}

#[test]
fn typed_text_is_submitted_on_enter() {
    let mut ed = LineEditor::new(Vec::new());
    type_text(&mut ed, "select 1");
    assert_eq!(ed.current(), "select 1");
    assert_eq!(ed.on_key(Key::Enter), EditOutcome::Submitted("select 1".to_string()));
    assert_eq!(ed.current(), "");
}

#[test]
fn enter_on_an_empty_entry_does_nothing() {
    let mut ed = LineEditor::new(Vec::new());
    assert_eq!(ed.on_key(Key::Enter), EditOutcome::Idle);
    assert_eq!(ed.on_key(Key::Backspace), EditOutcome::Idle);
}

#[test]
fn alt_enter_adds_a_newline() {
    let mut ed = LineEditor::new(Vec::new());
    type_text(&mut ed, "a");
    assert_eq!(ed.on_key(Key::AltEnter), EditOutcome::NewLine);
    type_text(&mut ed, "b");
    assert_eq!(ed.on_key(Key::Enter), EditOutcome::Submitted("a\nb".to_string()));
}

#[test]
fn backspace_removes_the_last_character() {
    let mut ed = LineEditor::new(Vec::new());
    type_text(&mut ed, "ab");
    assert_eq!(ed.on_key(Key::Backspace), EditOutcome::EraseLast);
    assert_eq!(ed.current(), "a");
}

#[test]
fn ctrl_c_interrupts() {
    let mut ed = LineEditor::new(Vec::new());
    type_text(&mut ed, "x");
    assert_eq!(ed.on_key(Key::Interrupt), EditOutcome::Interrupted);
    assert_eq!(ed.on_key(Key::Other), EditOutcome::Idle);
}

#[test]
fn history_is_walked_with_up_and_down() {
    let mut ed = LineEditor::new(vec!["one".to_string(), "two".to_string()]);
    assert_eq!(ed.on_key(Key::Down), EditOutcome::Idle);
    assert_eq!(ed.on_key(Key::Up), EditOutcome::Redraw("two".to_string()));
    assert_eq!(ed.on_key(Key::Up), EditOutcome::Redraw("one".to_string()));
    assert_eq!(ed.on_key(Key::Up), EditOutcome::Idle);
    assert_eq!(ed.current(), "one");
    assert_eq!(ed.on_key(Key::Down), EditOutcome::Redraw("two".to_string()));
    assert_eq!(ed.on_key(Key::Down), EditOutcome::ClearLine);
    assert_eq!(ed.current(), "");
    assert_eq!(ed.on_key(Key::Down), EditOutcome::Idle);
}

#[test]
fn submitted_entries_join_the_history() {
    let mut ed = LineEditor::new(Vec::new());
    type_text(&mut ed, "é1");
    assert_eq!(ed.on_key(Key::Enter), EditOutcome::Submitted("é1".to_string()));
    assert_eq!(ed.on_key(Key::Up), EditOutcome::Redraw("é1".to_string()));
    type_text(&mut ed, "!");
    assert_eq!(ed.on_key(Key::Enter), EditOutcome::Submitted("é1!".to_string()));
}
