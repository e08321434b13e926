//! Where notes live, and the typed entry of a new note.
use vstd::prelude::*;
use crate::text::{chars_of, push_chars, same_chars, string_of, trim_end_chars, trim_end_of};

verus! {

/// The file of note `name` in directory `dir`: `<dir>/<name>.enc`.
pub open spec fn note_path(dir: Seq<char>, name: Seq<char>) -> Seq<char> {
    dir + seq!['/'] + name + ".enc"@
}

/// The path of the encrypted file that holds note `name`.
pub fn get_note_path(notes_dir: &str, name: &str) -> (r: String)
    ensures
        r@ == note_path(notes_dir@, name@),
{
    let mut path = string_of(&chars_of(notes_dir));
    push_chars(&mut path, &vec!['/']);
    push_chars(&mut path, &chars_of(name));
    push_chars(&mut path, &chars_of(".enc"));
    path
}

/// What one typed line adds to a new note: nothing, ending the entry, when
/// it reads `/alldone` once trailing white space is cut; else the line
/// without that white space.
pub fn entry_line(raw: &str) -> (r: Option<String>)
    ensures
        r is None <==> trim_end_chars(raw@) == "/alldone"@,
        r matches Some(s) ==> s@ == trim_end_chars(raw@),
{
    let line = trim_end_of(&chars_of(raw));
    if same_chars(&line, "/alldone") {
        None
    } else {
        Some(string_of(&line))
    }
}

} // verus!
