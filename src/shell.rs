//! Reading a line typed at the prompt as a command.
use vstd::prelude::*;
use crate::text::{chars_of, same_chars, string_of, sub_chars, trim_chars, trim_end_of, trim_start_of};

verus! {

/// The commands that act on one named note.
#[derive(Clone, Copy, Debug, PartialEq, Eq, Structural)]
pub enum NoteVerb {
    New,
    View,
    Remove,
    Edit,
}

/// A command typed at the prompt.
#[derive(Debug)]
pub enum Command {
    Help,
    /// A verb with the name of the note it acts on.
    Note(NoteVerb, String),
    /// A verb typed without a note name.
    Usage(NoteVerb),
    List,
    Theme,
    Clear,
    Exit,
    /// Nothing was typed.
    Blank,
    /// A line that names no command, trimmed.
    Unknown(String),
}

/// The word that names a verb.
pub open spec fn verb_word(v: NoteVerb) -> Seq<char> {
    match v {
        NoteVerb::New => "new"@,
        NoteVerb::View => "view"@,
        NoteVerb::Remove => "rm"@,
        NoteVerb::Edit => "edit"@,
    }
}

/// Where the first space of `s` stands, or its length if it has none.
pub open spec fn space_index(s: Seq<char>) -> int
    decreases s.len(),
{
    if s.len() == 0 || s[0] == ' ' {
        0
    } else {
        1 + space_index(s.skip(1))
    }
}

/// The trimmed line.
pub open spec fn command_line(input: Seq<char>) -> Seq<char> {
    trim_chars(input)
}

/// The first word of the trimmed line: what comes before its first space.
pub open spec fn command_word(input: Seq<char>) -> Seq<char> {
    command_line(input).take(space_index(command_line(input)))
}

/// What follows the first space of the trimmed line, trimmed in turn.
pub open spec fn command_argument(input: Seq<char>) -> Seq<char> {
    let line = command_line(input);
    let k = space_index(line);
    if k < line.len() {
        trim_chars(line.skip(k + 1))
    } else {
        Seq::empty()
    }
}

/// What the command `c` says of the line it was read from.
pub open spec fn reads_as(c: Command, input: Seq<char>) -> bool {
    let word = command_word(input);
    let arg = command_argument(input);
    match c {
        Command::Help => word == "help"@,
        Command::Note(v, name) => word == verb_word(v) && arg.len() > 0 && name@ == arg,
        Command::Usage(v) => word == verb_word(v) && arg.len() == 0,
        Command::List => word == "ls"@,
        Command::Theme => word == "theme"@,
        Command::Clear => word == "clear"@,
        Command::Exit => word == "exit"@ || word == "quit"@,
        Command::Blank => word.len() == 0,
        Command::Unknown(line) => {
            &&& word.len() > 0
            &&& line@ == command_line(input)
            &&& word != "help"@ && word != "ls"@ && word != "theme"@ && word != "clear"@
            &&& word != "exit"@ && word != "quit"@
            &&& forall|v: NoteVerb| word != #[trigger] verb_word(v)
        },
    }
}

/// The position of the first space in `cs`, or its length.
fn find_space(cs: &Vec<char>) -> (r: usize)
    ensures
        r == space_index(cs@),
        r <= cs@.len(),
{
    let mut i: usize = 0;
    assert(cs@.skip(0) =~= cs@);
    while i < cs.len() && cs[i] != ' '
        invariant
            i <= cs@.len(),
            space_index(cs@) == i + space_index(cs@.skip(i as int)),
        decreases cs@.len() - i,
    {
        assert(cs@.skip(i as int).skip(1) =~= cs@.skip(i + 1));
        i = i + 1;
    }
    i
}

/// The verb that `word` names, if any.
fn verb_of(word: &Vec<char>) -> (r: Option<NoteVerb>)
    ensures
        r matches Some(v) ==> word@ == verb_word(v),
        r is None ==> forall|v: NoteVerb| word@ != #[trigger] verb_word(v),
{
    if same_chars(word, "new") {
        Some(NoteVerb::New)
    } else if same_chars(word, "view") {
        Some(NoteVerb::View)
    } else if same_chars(word, "rm") {
        Some(NoteVerb::Remove)
    } else if same_chars(word, "edit") {
        Some(NoteVerb::Edit)
    } else {
        None
    }
}

/// Reads a line typed at the prompt: its first word picks the command and
/// the rest, trimmed, is the note name.
pub fn parse_command(input: &str) -> (r: Command)
    ensures
        reads_as(r, input@),
{
    let raw = chars_of(input);
    let line = trim_end_of(&trim_start_of(&raw));
    let k = find_space(&line);
    let word = sub_chars(&line, 0, k);
    let arg = if k < line.len() {
        trim_end_of(&trim_start_of(&sub_chars(&line, k + 1, line.len())))
    } else {
        Vec::new()
    };
    assert(word@ == command_word(input@));
    assert(k < line@.len() ==> line@.subrange(k + 1, line@.len() as int) =~= line@.skip(k + 1));
    assert(arg@ == command_argument(input@));
    if word.len() == 0 {
        return Command::Blank;
    }
    match verb_of(&word) {
        Some(v) => {
            if arg.len() == 0 {
                Command::Usage(v)
            } else {
                Command::Note(v, string_of(&arg))
            }
        },
        None => {
            if same_chars(&word, "help") {
                Command::Help
            } else if same_chars(&word, "ls") {
                Command::List
            } else if same_chars(&word, "theme") {
                Command::Theme
            } else if same_chars(&word, "clear") {
                Command::Clear
            } else if same_chars(&word, "exit") || same_chars(&word, "quit") {
                Command::Exit
            } else {
                Command::Unknown(string_of(&line))
            }
        },
    }
}

} // verus!
