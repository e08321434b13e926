//! The editing buffer: lines of characters with a two-dimensional cursor,
//! changed one key at a time.
use vstd::prelude::*;
use crate::text::{chars_of, push_chars};

verus! {

/// A key that the editor reacts to.
#[derive(Clone, Copy, Debug, PartialEq, Eq, Structural)]
pub enum Key {
    Char(char),
    Enter,
    Backspace,
    Up,
    Down,
    Left,
    Right,
    Esc,
    Other,
}

/// What an editor holds, as mathematics: its lines and its cursor.
pub struct EditorModel {
    pub lines: Seq<Seq<char>>,
    pub row: int,
    pub col: int,
}

/// At least one line, the row indexes a line, and the column lies within it.
pub open spec fn well_formed(m: EditorModel) -> bool {
    &&& m.lines.len() >= 1
    &&& 0 <= m.row < m.lines.len()
    &&& 0 <= m.col <= m.lines[m.row].len()
}

/// `line` without one carriage return at its end, if it has one.
pub open spec fn strip_cr(line: Seq<char>) -> Seq<char> {
    if line.len() > 0 && line.last() == '\r' {
        line.drop_last()
    } else {
        line
    }
}

/// Reading `s` from the left: the lines closed by a line feed so far, and the
/// characters read since the last one.
pub open spec fn scan_lines(s: Seq<char>) -> (Seq<Seq<char>>, Seq<char>)
    decreases s.len(),
{
    if s.len() == 0 {
        (Seq::empty(), Seq::empty())
    } else {
        let (done, cur) = scan_lines(s.drop_last());
        if s.last() == '\n' {
            (done.push(strip_cr(cur)), Seq::empty())
        } else {
            (done, cur.push(s.last()))
        }
    }
}

/// The lines of `s`: the pieces between line feeds, a carriage return before
/// a line feed dropped, and the piece after the last line feed only when it
/// is not empty.
pub open spec fn text_lines(s: Seq<char>) -> Seq<Seq<char>> {
    let (done, cur) = scan_lines(s);
    if cur.len() == 0 {
        done
    } else {
        done.push(cur)
    }
}

/// The editor opened on `s`: its lines (one empty line if it has none), with
/// the cursor at the end of the last one.
pub open spec fn initial_model(s: Seq<char>) -> EditorModel {
    let ls = if text_lines(s).len() == 0 {
        seq![Seq::<char>::empty()]
    } else {
        text_lines(s)
    };
    EditorModel { lines: ls, row: ls.len() - 1, col: ls.last().len() as int }
}

/// The lines joined with a line feed between each two.
pub open spec fn join_lines(ls: Seq<Seq<char>>) -> Seq<char>
    decreases ls.len(),
{
    if ls.len() == 0 {
        Seq::empty()
    } else if ls.len() == 1 {
        ls[0]
    } else {
        join_lines(ls.drop_last()).push('\n') + ls.last()
    }
}

/// Typing `c`: it goes in at the cursor, which moves past it.
pub open spec fn insert_model(m: EditorModel, c: char) -> EditorModel {
    EditorModel {
        lines: m.lines.update(m.row, m.lines[m.row].insert(m.col, c)),
        row: m.row,
        col: m.col + 1,
    }
}

/// A line break: the line splits at the cursor, its tail goes on a new line
/// below, and the cursor goes to the start of that line.
pub open spec fn break_model(m: EditorModel) -> EditorModel {
    let line = m.lines[m.row];
    EditorModel {
        lines: m.lines.update(m.row, line.take(m.col)).insert(m.row + 1, line.skip(m.col)),
        row: m.row + 1,
        col: 0,
    }
}

/// Backward delete: the character before the cursor goes; at the start of a
/// line other than the first, the line joins the end of the one above.
pub open spec fn backspace_model(m: EditorModel) -> EditorModel {
    if m.col > 0 {
        EditorModel {
            lines: m.lines.update(m.row, m.lines[m.row].remove(m.col - 1)),
            row: m.row,
            col: m.col - 1,
        }
    } else if m.row > 0 {
        let prev = m.lines[m.row - 1];
        EditorModel {
            lines: m.lines.update(m.row - 1, prev + m.lines[m.row]).remove(m.row),
            row: m.row - 1,
            col: prev.len() as int,
        }
    } else {
        m
    }
}

/// `col` held to the length of line `row`.
pub open spec fn clamp_col(m: EditorModel, row: int) -> int {
    if m.col <= m.lines[row].len() {
        m.col
    } else {
        m.lines[row].len() as int
    }
}

/// The cursor one row up, if there is one.
pub open spec fn up_model(m: EditorModel) -> EditorModel {
    if m.row > 0 {
        EditorModel { row: m.row - 1, col: clamp_col(m, m.row - 1), ..m }
    } else {
        m
    }
}

/// The cursor one row down, if there is one.
pub open spec fn down_model(m: EditorModel) -> EditorModel {
    if m.row + 1 < m.lines.len() {
        EditorModel { row: m.row + 1, col: clamp_col(m, m.row + 1), ..m }
    } else {
        m
    }
}

/// The cursor one character left, or to the end of the row above.
pub open spec fn left_model(m: EditorModel) -> EditorModel {
    if m.col > 0 {
        EditorModel { col: m.col - 1, ..m }
    } else if m.row > 0 {
        EditorModel { row: m.row - 1, col: m.lines[m.row - 1].len() as int, ..m }
    } else {
        m
    }
}

/// The cursor one character right, or to the start of the row below.
pub open spec fn right_model(m: EditorModel) -> EditorModel {
    if m.col < m.lines[m.row].len() {
        EditorModel { col: m.col + 1, ..m }
    } else if m.row + 1 < m.lines.len() {
        EditorModel { row: m.row + 1, col: 0, ..m }
    } else {
        m
    }
}

/// What one key does to the editor.
pub open spec fn key_model(m: EditorModel, k: Key) -> EditorModel {
    match k {
        Key::Char(c) => insert_model(m, c),
        Key::Enter => break_model(m),
        Key::Backspace => backspace_model(m),
        Key::Up => up_model(m),
        Key::Down => down_model(m),
        Key::Left => left_model(m),
        Key::Right => right_model(m),
        Key::Esc => m,
        Key::Other => m,
    }
}

/// Every key keeps the buffer well formed: at least one line, and the cursor
/// on a line with its column, counted in characters, within that line.
pub proof fn lemma_key_keeps_well_formed(m: EditorModel, k: Key)
    requires
        well_formed(m),
    ensures
        well_formed(key_model(m, k)),
{
    let line = m.lines[m.row];
    match k {
        Key::Enter => {
            assert(break_model(m).lines[m.row + 1] == line.skip(m.col));
        },
        Key::Backspace => {
            if m.col == 0 && m.row > 0 {
                let b = backspace_model(m);
                assert(b.lines[m.row - 1] == m.lines[m.row - 1] + line);
            }
        },
        _ => {},
    }
}

/// Typing a character and then deleting backward leaves the lines and the
/// cursor as they were, wherever the cursor stood.
pub proof fn lemma_insert_then_backspace(m: EditorModel, c: char)
    requires
        well_formed(m),
    ensures
        backspace_model(insert_model(m, c)) == m,
{
    let line = m.lines[m.row];
    assert(line.insert(m.col, c).remove(m.col) =~= line);
    assert(insert_model(m, c).lines.update(m.row, line) =~= m.lines);
}

/// A line break followed by a backward delete joins the two halves again and
/// puts the cursor back where it was.
pub proof fn lemma_break_then_backspace(m: EditorModel)
    requires
        well_formed(m),
    ensures
        backspace_model(break_model(m)) == m,
{
    let line = m.lines[m.row];
    let b = break_model(m);
    assert(line.take(m.col) + line.skip(m.col) =~= line);
    assert(b.lines.update(m.row, line).remove(m.row + 1) =~= m.lines);
}

/// The first row to show in a window of `visible` rows so that `row` is in
/// view: the window starts at the top until `row` would fall below it, and
/// then keeps `row` on its last line. With no rows to show, it starts at `row`.
pub open spec fn scroll_model(row: int, visible: int) -> int {
    if visible == 0 {
        row
    } else if row < visible {
        0
    } else {
        row - visible + 1
    }
}

/// The first row to show, as [`scroll_model`] gives it.
pub fn scroll_offset(row: usize, visible: usize) -> (r: usize)
    ensures
        r == scroll_model(row as int, visible as int),
        visible > 0 ==> r <= row < r + visible,
{
    if visible == 0 {
        row
    } else if row < visible {
        0
    } else {
        row - visible + 1
    }
}

/// A buffer of lines with a cursor at (`row`, `col`), the column counted in
/// characters.
pub struct Editor {
    lines: Vec<Vec<char>>,
    row: usize,
    col: usize,
}

impl View for Editor {
    type V = EditorModel;

    closed spec fn view(&self) -> EditorModel {
        EditorModel {
            lines: self.lines@.map_values(|l: Vec<char>| l@),
            row: self.row as int,
            col: self.col as int,
        }
    }
}

/// The lines of `s`, as [`text_lines`] gives them.
fn split_lines(s: &str) -> (r: Vec<Vec<char>>)
    ensures
        r@.map_values(|l: Vec<char>| l@) == text_lines(s@),
{
    let cs = chars_of(s);
    let mut done: Vec<Vec<char>> = Vec::new();
    let mut cur: Vec<char> = Vec::new();
    let mut i: usize = 0;
    while i < cs.len()
        invariant
            i <= cs@.len(),
            cs@ == s@,
            (done@.map_values(|l: Vec<char>| l@), cur@) == scan_lines(cs@.take(i as int)),
        decreases cs@.len() - i,
    {
        let c = cs[i];
        assert(cs@.take(i + 1).drop_last() == cs@.take(i as int));
        if c == '\n' {
            let n = cur.len();
            if n > 0 && cur[n - 1] == '\r' {
                cur.pop();
            }
            let line = cur;
            cur = Vec::new();
            done.push(line);
        } else {
            cur.push(c);
        }
        i = i + 1;
        assert(done@.map_values(|l: Vec<char>| l@) =~= scan_lines(cs@.take(i as int)).0);
        assert(cur@ =~= scan_lines(cs@.take(i as int)).1);
    }
    assert(cs@.take(i as int) == s@);
    if cur.len() > 0 {
        done.push(cur);
    }
    assert(done@.map_values(|l: Vec<char>| l@) =~= text_lines(s@));
    done
}

impl Editor {
    /// An editor on `initial`: its lines, or one empty line if it has none,
    /// with the cursor at the end of the last line.
    pub fn new(initial: &str) -> (r: Editor)
        ensures
            r.wf(),
            r@ == initial_model(initial@),
    {
        let mut lines = split_lines(initial);
        if lines.len() == 0 {
            lines.push(Vec::new());
        }
        let row = lines.len() - 1;
        let col = lines[row].len();
        let r = Editor { lines, row, col };
        assert(r@.lines =~= initial_model(initial@).lines);
        r
    }

    /// The whole text: the lines joined by line feeds.
    pub fn text(&self) -> (r: String)
        ensures
            r@ == join_lines(self@.lines),
    {
        let mut out = String::new();
        let mut i: usize = 0;
        while i < self.lines.len()
            invariant
                i <= self.lines@.len(),
                out@ == join_lines(self@.lines.take(i as int)),
            decreases self.lines@.len() - i,
        {
            let ghost before = self@.lines.take(i as int);
            if i > 0 {
                push_chars(&mut out, &vec!['\n']);
            }
            push_chars(&mut out, &self.lines[i]);
            i = i + 1;
            assert(self@.lines.take(i as int).drop_last() =~= before);
        }
        assert(self@.lines.take(i as int) =~= self@.lines);
        out
    }

    /// The lines and the cursor hold together.
    pub open spec fn wf(&self) -> bool {
        well_formed(self@)
    }

    /// The row of the cursor.
    pub fn row(&self) -> (r: usize)
        ensures
            r == self@.row,
    {
        self.row
    }

    /// The column of the cursor, in characters.
    pub fn col(&self) -> (r: usize)
        ensures
            r == self@.col,
    {
        self.col
    }

    /// How many lines the buffer holds.
    pub fn line_count(&self) -> (r: usize)
        ensures
            r == self@.lines.len(),
    {
        self.lines.len()
    }

    /// The characters of line `i`.
    pub fn line(&self, i: usize) -> (r: &Vec<char>)
        requires
            i < self@.lines.len(),
        ensures
            r@ == self@.lines[i as int],
    {
        &self.lines[i]
    }

    /// Types `c` at the cursor.
    pub fn insert_char(&mut self, c: char)
        requires
            old(self).wf(),
        ensures
            final(self).wf(),
            final(self)@ == insert_model(old(self)@, c),
    {
        let row = self.row;
        let col = self.col;
        self.lines[row].insert(col, c);
        proof { assert(self.lines@[row as int]@.len() == self.lines@[row as int].len()); }
        self.col = col + 1;
        assert(self@.lines =~= insert_model(old(self)@, c).lines);
    }

    /// Splits the line at the cursor.
    pub fn break_line(&mut self)
        requires
            old(self).wf(),
        ensures
            final(self).wf(),
            final(self)@ == break_model(old(self)@),
    {
        let row = self.row;
        proof { assert(self.lines@.len() == self.lines.len()); }
        let tail = self.lines[row].split_off(self.col);
        self.lines.insert(row + 1, tail);
        self.row = row + 1;
        self.col = 0;
        assert(self@.lines =~= break_model(old(self)@).lines);
    }

    /// Deletes backward from the cursor.
    pub fn backspace(&mut self)
        requires
            old(self).wf(),
        ensures
            final(self).wf(),
            final(self)@ == backspace_model(old(self)@),
    {
        if self.col > 0 {
            let row = self.row;
            let col = self.col;
            self.lines[row].remove(col - 1);
            self.col = col - 1;
            assert(self@.lines =~= backspace_model(old(self)@).lines);
        } else if self.row > 0 {
            let row = self.row;
            let mut removed = self.lines.remove(row);
            let prev_len = self.lines[row - 1].len();
            self.lines[row - 1].append(&mut removed);
            self.row = row - 1;
            self.col = prev_len;
            assert(self@.lines =~= backspace_model(old(self)@).lines);
        }
    }

    /// Moves the cursor up one row.
    pub fn move_up(&mut self)
        requires
            old(self).wf(),
        ensures
            final(self).wf(),
            final(self)@ == up_model(old(self)@),
    {
        if self.row > 0 {
            self.row = self.row - 1;
            let n = self.lines[self.row].len();
            if self.col > n {
                self.col = n;
            }
        }
    }

    /// Moves the cursor down one row.
    pub fn move_down(&mut self)
        requires
            old(self).wf(),
        ensures
            final(self).wf(),
            final(self)@ == down_model(old(self)@),
    {
        if self.row < self.lines.len() - 1 {
            self.row = self.row + 1;
            let n = self.lines[self.row].len();
            if self.col > n {
                self.col = n;
            }
        }
    }

    /// Moves the cursor left one character.
    pub fn move_left(&mut self)
        requires
            old(self).wf(),
        ensures
            final(self).wf(),
            final(self)@ == left_model(old(self)@),
    {
        if self.col > 0 {
            self.col = self.col - 1;
        } else if self.row > 0 {
            self.row = self.row - 1;
            self.col = self.lines[self.row].len();
        }
    }

    /// Moves the cursor right one character.
    pub fn move_right(&mut self)
        requires
            old(self).wf(),
        ensures
            final(self).wf(),
            final(self)@ == right_model(old(self)@),
    {
        if self.col < self.lines[self.row].len() {
            self.col = self.col + 1;
        } else if self.row < self.lines.len() - 1 {
            self.row = self.row + 1;
            self.col = 0;
        }
    }

    /// Applies one key; returns `true` when the key ends the editing.
    pub fn handle_key(&mut self, key: Key) -> (done: bool)
        requires
            old(self).wf(),
        ensures
            final(self).wf(),
            final(self)@ == key_model(old(self)@, key),
            done == (key == Key::Esc),
    {
        match key {
            Key::Char(c) => self.insert_char(c),
            Key::Enter => self.break_line(),
            Key::Backspace => self.backspace(),
            Key::Up => self.move_up(),
            Key::Down => self.move_down(),
            Key::Left => self.move_left(),
            Key::Right => self.move_right(),
            Key::Esc => {
                return true;
            },
            Key::Other => {},
        }
        false
    }
}

} // verus!
