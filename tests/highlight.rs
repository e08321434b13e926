use geekpad::highlight::parse_spans;

fn spans(line: &str) -> Vec<(String, bool)> {
    parse_spans(line).into_iter().map(|s| (s.text, s.accent)).collect()
}

#[test]
fn full_command_is_accented() {
    assert_eq!(spans("/alldone"), vec![("/alldone".to_string(), true)]);
}

#[test]
fn unknown_command_is_plain() {
    assert_eq!(spans("/unknown"), vec![("/unknown".to_string(), false)]);
}

#[test]
fn mixed_line() {
    assert_eq!(
        spans("/all do /alldone rest"),
        vec![
            ("/all ".to_string(), true),
            ("do ".to_string(), false),
            ("/alldone ".to_string(), true),
            ("rest".to_string(), false),
        ]
    );
}

#[test]
fn slash_closes_the_word_before_it() {
    assert_eq!(
        spans("a/bold/x"),
        vec![("a".to_string(), false), ("/bold".to_string(), false), ("/x".to_string(), false)]
    );
}

#[test]
fn empty_line_has_no_spans() {
    assert!(spans("").is_empty());
}

#[test]
fn spans_join_to_the_line() {
    let line = "  /hr é\t/reset/ x";
    let joined: String = parse_spans(line).into_iter().map(|s| s.text).collect();
    assert_eq!(joined, line);
}
