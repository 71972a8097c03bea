use lildbsh::command::{classify_line, classify_trimmed, LineKind};

#[test]
fn exit_sentinel_is_recognised_after_trimming() {
    assert_eq!(classify_line("exit".to_string()), LineKind::Exit);
    assert_eq!(classify_line("  exit \t".to_string()), LineKind::Exit);
}

#[test]
fn blank_lines_are_not_commands() {
    assert_eq!(classify_line(String::new()), LineKind::Blank);
    assert_eq!(classify_line("   \n\t ".to_string()), LineKind::Blank);
}

#[test]
fn other_lines_are_sent_as_typed() {
    assert_eq!(classify_line(" select 1 ".to_string()), LineKind::Command(" select 1 ".to_string()));
    assert_eq!(classify_line("exit now".to_string()), LineKind::Command("exit now".to_string()));
    assert_eq!(classify_line("a\nb".to_string()), LineKind::Command("a\nb".to_string()));
    assert_eq!(classify_line("EXIT".to_string()), LineKind::Command("EXIT".to_string()));
}

#[test]
fn classification_from_trimmed_text() {
    assert_eq!(classify_trimmed(" exit".to_string(), "exit"), LineKind::Exit);
    assert_eq!(classify_trimmed("  ".to_string(), ""), LineKind::Blank);
    assert_eq!(classify_trimmed("x ".to_string(), "x"), LineKind::Command("x ".to_string()));
}

#[test]
fn unicode_white_space_is_trimmed() {
    assert_eq!(classify_line("\u{3000}exit\u{a0}".to_string()), LineKind::Exit);
    assert_eq!(classify_line("\u{2028}\u{85}".to_string()), LineKind::Blank);
    assert_eq!(
        classify_line("\u{200b}exit".to_string()),
        LineKind::Command("\u{200b}exit".to_string())
    );
}
