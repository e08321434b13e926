//! Splitting a line into plain and accented spans: a `/`-led word that
//! begins one of the known commands is accented.
use vstd::prelude::*;
use crate::text::{chars_of, is_white_space, string_of, white_space};

verus! {

/// A piece of a line and whether it is drawn in the accent style.
pub struct StyledSpan {
    pub text: String,
    pub accent: bool,
}

impl View for StyledSpan {
    type V = (Seq<char>, bool);

    open spec fn view(&self) -> (Seq<char>, bool) {
        (self.text@, self.accent)
    }
}

/// The commands that the editor's highlighting knows.
pub open spec fn known_commands() -> Seq<Seq<char>> {
    seq![
        seq!['/', 'a', 'l', 'l', 'd', 'o', 'n', 'e'],
        seq!['/', 'r', 'e', 's', 'e', 't'],
        seq!['/', 'b', 'o', 'l', 'd'],
        seq!['/', 'i', 't', 'a', 'l', 'i', 'c'],
        seq!['/', 'h', 'r'],
    ]
}

/// `p` is a prefix of `s`.
pub open spec fn is_prefix(p: Seq<char>, s: Seq<char>) -> bool {
    p.len() <= s.len() && s.take(p.len() as int) == p
}

/// A word is accented when it starts with `/` and begins a known command.
pub open spec fn is_accented(word: Seq<char>) -> bool {
    &&& word.len() > 0
    &&& word[0] == '/'
    &&& exists|i: int| 0 <= i < known_commands().len() && is_prefix(word, #[trigger] known_commands()[i])
}

/// Reading `line` from the left: the spans finished so far and the word in
/// progress. A `/` closes the word before it (as plain text) and starts a new
/// one; a white-space character ends the word, itself included.
pub open spec fn scan_spans(line: Seq<char>) -> (Seq<(Seq<char>, bool)>, Seq<char>)
    decreases line.len(),
{
    if line.len() == 0 {
        (Seq::empty(), Seq::empty())
    } else {
        let (spans, word) = scan_spans(line.drop_last());
        let c = line.last();
        if c == '/' {
            (if word.len() > 0 { spans.push((word, false)) } else { spans }, seq!['/'])
        } else if is_white_space(c) {
            (spans.push((word.push(c), is_accented(word))), Seq::empty())
        } else {
            (spans, word.push(c))
        }
    }
}

/// The spans of `line`: those of [`scan_spans`], then the word left at the
/// end if there is one.
pub open spec fn line_spans(line: Seq<char>) -> Seq<(Seq<char>, bool)> {
    let (spans, word) = scan_spans(line);
    if word.len() > 0 {
        spans.push((word, is_accented(word)))
    } else {
        spans
    }
}

/// The texts of `spans`, one after another.
pub open spec fn span_texts(spans: Seq<(Seq<char>, bool)>) -> Seq<char>
    decreases spans.len(),
{
    if spans.len() == 0 {
        Seq::empty()
    } else {
        span_texts(spans.drop_last()) + spans.last().0
    }
}

proof fn lemma_span_texts_push(spans: Seq<(Seq<char>, bool)>, s: (Seq<char>, bool))
    ensures
        span_texts(spans.push(s)) == span_texts(spans) + s.0,
{
    assert(spans.push(s).drop_last() =~= spans);
}

proof fn lemma_scan_covers(line: Seq<char>)
    ensures
        span_texts(scan_spans(line).0) + scan_spans(line).1 == line,
    decreases line.len(),
{
    if line.len() > 0 {
        let p = line.drop_last();
        let c = line.last();
        lemma_scan_covers(p);
        let (spans, word) = scan_spans(p);
        assert(p.push(c) =~= line);
        if c == '/' {
            if word.len() > 0 {
                lemma_span_texts_push(spans, (word, false));
            }
            assert(span_texts(scan_spans(line).0) + seq!['/'] =~= line);
        } else if is_white_space(c) {
            lemma_span_texts_push(spans, (word.push(c), is_accented(word)));
            assert(span_texts(scan_spans(line).0) + Seq::<char>::empty() =~= line);
        } else {
            assert(span_texts(spans) + word.push(c) =~= line);
        }
    } else {
        assert(span_texts(scan_spans(line).0) + scan_spans(line).1 =~= line);
    }
}

/// The spans of a line, joined, give the line back: highlighting only
/// splits and styles, it never adds, drops or changes a character.
pub proof fn lemma_spans_join_to_line(line: Seq<char>)
    ensures
        span_texts(line_spans(line)) == line,
{
    lemma_scan_covers(line);
    let (spans, word) = scan_spans(line);
    if word.len() > 0 {
        lemma_span_texts_push(spans, (word, is_accented(word)));
    } else {
        assert(span_texts(spans) + word =~= span_texts(spans));
    }
}

/// Whether `p` is a prefix of `s`.
fn prefix_of(p: &Vec<char>, s: &Vec<char>) -> (r: bool)
    ensures
        r == is_prefix(p@, s@),
{
    if p.len() > s.len() {
        return false;
    }
    let mut i: usize = 0;
    while i < p.len()
        invariant
            i <= p@.len() <= s@.len(),
            p@.take(i as int) == s@.take(i as int),
        decreases p@.len() - i,
    {
        if p[i] != s[i] {
            assert(s@.take(p@.len() as int)[i as int] != p@[i as int]);
            return false;
        }
        i = i + 1;
        assert(p@.take(i as int) =~= s@.take(i as int));
    }
    assert(p@.take(i as int) =~= p@);
    true
}

/// Whether `word` is accented, as [`is_accented`] says.
fn accented(word: &Vec<char>) -> (r: bool)
    ensures
        r == is_accented(word@),
{
    if word.len() == 0 || word[0] != '/' {
        return false;
    }
    let cmds: Vec<Vec<char>> = vec![
        vec!['/', 'a', 'l', 'l', 'd', 'o', 'n', 'e'],
        vec!['/', 'r', 'e', 's', 'e', 't'],
        vec!['/', 'b', 'o', 'l', 'd'],
        vec!['/', 'i', 't', 'a', 'l', 'i', 'c'],
        vec!['/', 'h', 'r'],
    ];
    assert(cmds@.map_values(|c: Vec<char>| c@) =~= known_commands());
    let mut i: usize = 0;
    while i < cmds.len()
        invariant
            i <= cmds@.len(),
            cmds@.map_values(|c: Vec<char>| c@) == known_commands(),
            word@.len() > 0 && word@[0] == '/',
            forall|j: int| 0 <= j < i ==> !is_prefix(word@, #[trigger] known_commands()[j]),
        decreases cmds@.len() - i,
    {
        if prefix_of(word, &cmds[i]) {
            assert(known_commands()[i as int] == cmds@[i as int]@);
            return true;
        }
        assert(known_commands()[i as int] == cmds@[i as int]@);
        i = i + 1;
    }
    false
}

/// The spans of `line` with their styles, as [`line_spans`] gives them.
pub fn parse_spans(line: &str) -> (r: Vec<StyledSpan>)
    ensures
        r@.map_values(|s: StyledSpan| s@) == line_spans(line@),
{
    let cs = chars_of(line);
    let mut spans: Vec<StyledSpan> = Vec::new();
    let mut word: Vec<char> = Vec::new();
    let mut i: usize = 0;
    while i < cs.len()
        invariant
            i <= cs@.len(),
            cs@ == line@,
            (spans@.map_values(|s: StyledSpan| s@), word@) == scan_spans(cs@.take(i as int)),
        decreases cs@.len() - i,
    {
        let c = cs[i];
        assert(cs@.take(i + 1).drop_last() == cs@.take(i as int));
        if c == '/' {
            if word.len() > 0 {
                spans.push(StyledSpan { text: string_of(&word), accent: false });
            }
            word = vec!['/'];
        } else if white_space(c) {
            let accent = accented(&word);
            word.push(c);
            spans.push(StyledSpan { text: string_of(&word), accent });
            word = Vec::new();
        } else {
            word.push(c);
        }
        i = i + 1;
        assert(spans@.map_values(|s: StyledSpan| s@) =~= scan_spans(cs@.take(i as int)).0);
        assert(word@ =~= scan_spans(cs@.take(i as int)).1);
    }
    assert(cs@.take(i as int) == line@);
    if word.len() > 0 {
        let accent = accented(&word);
        spans.push(StyledSpan { text: string_of(&word), accent });
    }
    assert(spans@.map_values(|s: StyledSpan| s@) =~= line_spans(line@));
    spans
}

} // verus!
