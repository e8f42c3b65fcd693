//! Text helpers used when a run's summary is assembled.

use vstd::prelude::*;
use vstd::string::*;

verus! {

/// The text that results from appending `line` to `text` on a line of its own:
/// a line break separates the two exactly when neither is empty.
pub open spec fn line_appended(text: Seq<char>, line: Seq<char>) -> Seq<char> {
    if text.len() > 0 && line.len() > 0 {
        text + seq!['\n'] + line
    } else {
        text + line
    }
}

/// Appends `l` to `s`, starting from a new line.
///
/// If neither string is empty, a line break is inserted between them;
/// otherwise the two are simply concatenated.
pub fn append_line(s: &mut String, l: &str)
    ensures
        final(s)@ == line_appended(old(s)@, l@),
{
    if !s.as_str().is_empty() && !l.is_empty() {
        proof {
            reveal_strlit("\n");
        }
        s.append("\n");
        assert("\n"@ =~= seq!['\n']);
    }
    s.append(l);
}

/// Appending a line to an empty text yields the line unchanged.
pub proof fn lemma_append_to_empty(line: Seq<char>)
    ensures
        line_appended(Seq::empty(), line) == line,
{
    assert(Seq::<char>::empty() + line =~= line);
}

/// Appending an empty line leaves the text unchanged.
pub proof fn lemma_append_empty_line(text: Seq<char>)
    ensures
        line_appended(text, Seq::empty()) == text,
{
    assert(text + Seq::<char>::empty() =~= text);
}

/// Between a text and a line of which neither is empty stands exactly one
/// line break: the text comes first, unchanged, then the break, then the
/// line, unchanged, and nothing else.
pub proof fn lemma_append_inserts_one_break(text: Seq<char>, line: Seq<char>)
    requires
        text.len() > 0,
        line.len() > 0,
    ensures
        line_appended(text, line).len() == text.len() + 1 + line.len(),
        line_appended(text, line).subrange(0, text.len() as int) == text,
        line_appended(text, line)[text.len() as int] == '\n',
        line_appended(text, line).subrange(
            text.len() as int + 1,
            text.len() as int + 1 + line.len() as int,
        ) == line,
{
    let joined = line_appended(text, line);
    assert(joined.subrange(0, text.len() as int) =~= text);
    let after = text.len() as int + 1;
    assert(joined.subrange(after, after + line.len() as int) =~= line);
}

} // verus!
