use geekpad::notes::{entry_line, get_note_path};
use geekpad::shell::{parse_command, Command, NoteVerb};

#[test]
fn verbs_with_names() {
    assert!(matches!(parse_command("new  my note \n"), Command::Note(NoteVerb::New, n) if n == "my note"));
    assert!(matches!(parse_command("view a"), Command::Note(NoteVerb::View, n) if n == "a"));
    assert!(matches!(parse_command("rm b"), Command::Note(NoteVerb::Remove, n) if n == "b"));
    assert!(matches!(parse_command("  edit c  "), Command::Note(NoteVerb::Edit, n) if n == "c"));
}

#[test]
fn verbs_without_names() {
    assert!(matches!(parse_command("new"), Command::Usage(NoteVerb::New)));
    assert!(matches!(parse_command("edit   "), Command::Usage(NoteVerb::Edit)));
}

#[test]
fn plain_commands() {
    assert!(matches!(parse_command("help\n"), Command::Help));
    assert!(matches!(parse_command("ls"), Command::List));
    assert!(matches!(parse_command("theme"), Command::Theme));
    assert!(matches!(parse_command("clear"), Command::Clear));
    assert!(matches!(parse_command("exit"), Command::Exit));
    assert!(matches!(parse_command("quit"), Command::Exit));
    assert!(matches!(parse_command("   \n"), Command::Blank));
}

#[test]
fn unknown_command_keeps_the_line() {
    assert!(matches!(parse_command(" frob it \n"), Command::Unknown(l) if l == "frob it"));
}

#[test]
fn note_paths() {
    assert_eq!(get_note_path("/home/u/.geekpad_notes", "todo"), "/home/u/.geekpad_notes/todo.enc");
}

#[test]
fn entry_lines() {
    assert_eq!(entry_line("first line  \n"), Some("first line".to_string()));
    assert_eq!(entry_line("/alldone\n"), None);
    assert_eq!(entry_line("/alldone x"), Some("/alldone x".to_string()));
}
