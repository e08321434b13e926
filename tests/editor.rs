use geekpad::editor::{scroll_offset, Editor, Key};

fn lines(e: &Editor) -> Vec<String> {
    (0..e.line_count()).map(|i| e.line(i).iter().collect()).collect()
}

#[test]
fn empty_text_gives_one_empty_line() {
    let e = Editor::new("");
    assert_eq!(e.line_count(), 1);
    assert_eq!(lines(&e), vec![String::new()]);
    assert_eq!((e.row(), e.col()), (0, 0));
}

#[test]
fn two_lines_cursor_at_end() {
    let e = Editor::new("a\nb");
    assert_eq!(lines(&e), vec!["a".to_string(), "b".to_string()]);
    assert_eq!((e.row(), e.col()), (1, 1));
}

#[test]
fn trailing_newline_and_carriage_returns() {
    let e = Editor::new("one\r\ntwo\n");
    assert_eq!(lines(&e), vec!["one".to_string(), "two".to_string()]);
    assert_eq!((e.row(), e.col()), (1, 3));
    assert_eq!(e.text(), "one\ntwo");
}

#[test]
fn blank_lines_are_kept() {
    let e = Editor::new("\n\nx");
    assert_eq!(lines(&e), vec!["".to_string(), "".to_string(), "x".to_string()]);
}

#[test]
fn insert_then_backspace_restores() {
    let mut e = Editor::new("abc\ndef");
    e.handle_key(Key::Left);
    e.handle_key(Key::Left);
    let before = (lines(&e), e.row(), e.col());
    e.handle_key(Key::Char('x'));
    assert_eq!(e.text(), "abc\ndxef");
    assert_eq!(e.col(), 2);
    e.handle_key(Key::Backspace);
    assert_eq!((lines(&e), e.row(), e.col()), before);
}

#[test]
fn insert_then_backspace_at_line_start() {
    let mut e = Editor::new("abc\ndef");
    e.handle_key(Key::Up);
    e.handle_key(Key::Down);
    for _ in 0..3 {
        e.handle_key(Key::Left);
    }
    assert_eq!((e.row(), e.col()), (1, 0));
    e.handle_key(Key::Char('z'));
    e.handle_key(Key::Backspace);
    assert_eq!(e.text(), "abc\ndef");
    assert_eq!((e.row(), e.col()), (1, 0));
}

#[test]
fn enter_then_backspace_restores() {
    let mut e = Editor::new("hello");
    for _ in 0..5 {
        e.handle_key(Key::Left);
    }
    e.handle_key(Key::Enter);
    assert_eq!(lines(&e), vec!["".to_string(), "hello".to_string()]);
    assert_eq!((e.row(), e.col()), (1, 0));
    e.handle_key(Key::Backspace);
    assert_eq!(lines(&e), vec!["hello".to_string()]);
    assert_eq!((e.row(), e.col()), (0, 0));
}

#[test]
fn enter_mid_line_splits() {
    let mut e = Editor::new("hello");
    e.handle_key(Key::Left);
    e.handle_key(Key::Left);
    e.handle_key(Key::Enter);
    assert_eq!(e.text(), "hel\nlo");
    e.handle_key(Key::Backspace);
    assert_eq!(e.text(), "hello");
    assert_eq!((e.row(), e.col()), (0, 3));
}

#[test]
fn multibyte_characters_count_as_one() {
    let mut e = Editor::new("é");
    assert_eq!(e.col(), 1);
    e.handle_key(Key::Left);
    e.handle_key(Key::Char('ü'));
    assert_eq!(e.text(), "üé");
    assert_eq!(e.col(), 1);
    e.handle_key(Key::Right);
    assert_eq!(e.col(), 2);
    e.handle_key(Key::Right);
    assert_eq!(e.col(), 2);
    e.handle_key(Key::Backspace);
    assert_eq!(e.text(), "ü");
    e.handle_key(Key::Backspace);
    assert_eq!(e.text(), "");
    assert_eq!(e.col(), 0);
}

#[test]
fn backspace_at_origin_does_nothing() {
    let mut e = Editor::new("");
    e.handle_key(Key::Backspace);
    assert_eq!(e.text(), "");
    assert_eq!((e.row(), e.col()), (0, 0));
}

#[test]
fn vertical_moves_clamp_the_column() {
    let mut e = Editor::new("ab\nlonger line");
    assert_eq!((e.row(), e.col()), (1, 11));
    e.handle_key(Key::Up);
    assert_eq!((e.row(), e.col()), (0, 2));
    e.handle_key(Key::Up);
    assert_eq!((e.row(), e.col()), (0, 2));
    e.handle_key(Key::Down);
    assert_eq!((e.row(), e.col()), (1, 2));
    e.handle_key(Key::Down);
    assert_eq!((e.row(), e.col()), (1, 2));
}

#[test]
fn horizontal_moves_wrap_between_rows() {
    let mut e = Editor::new("ab\ncd");
    e.handle_key(Key::Left);
    e.handle_key(Key::Left);
    e.handle_key(Key::Left);
    assert_eq!((e.row(), e.col()), (0, 2));
    e.handle_key(Key::Right);
    assert_eq!((e.row(), e.col()), (1, 0));
}

#[test]
fn escape_ends_editing() {
    let mut e = Editor::new("x");
    assert!(!e.handle_key(Key::Char('y')));
    assert!(!e.handle_key(Key::Other));
    assert!(e.handle_key(Key::Esc));
    assert_eq!(e.text(), "xy");
}

#[test]
fn scrolling_keeps_cursor_visible() {
    assert_eq!(scroll_offset(0, 10), 0);
    assert_eq!(scroll_offset(9, 10), 0);
    assert_eq!(scroll_offset(10, 10), 1);
    assert_eq!(scroll_offset(25, 10), 16);
    assert_eq!(scroll_offset(4, 0), 4);
}
