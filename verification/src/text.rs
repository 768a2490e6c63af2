//! Text as sequences of Unicode scalar values: blank runs, widths, and lists
//! of lines.

use vstd::prelude::*;
use vstd::std_specs::iter::IteratorSpec;

verus! {

/// What a list of strings holds, each string as its characters.
pub open spec fn texts(lines: Seq<String>) -> Seq<Seq<char>> {
    Seq::new(lines.len(), |i: int| lines[i]@)
}

/// A list of strings has as many texts as strings, and each text is what its
/// string holds.
pub proof fn lemma_texts(lines: Seq<String>)
    ensures
        texts(lines).len() == lines.len(),
        forall|i: int| 0 <= i < lines.len() ==> texts(lines)[i] == (#[trigger] lines[i])@,
{
}

/// A run of `count` spaces.
pub open spec fn blank(count: nat) -> Seq<char> {
    Seq::new(count, |i: int| ' ')
}

/// Makes a string of `count` spaces.
pub fn spaces(count: usize) -> (run: String)
    ensures
        run@ == blank(count as nat),
{
    let mut run: String = String::new();
    let mut made: usize = 0;
    while made < count
        invariant
            made <= count,
            run@ == blank(made as nat),
        decreases count - made,
    {
        run.append(" ");
        proof {
            reveal_strlit(" ");
        }
        made = made + 1;
    }
    run
}

/// The number of Unicode scalar values in a string. A character of several
/// bytes counts once.
pub fn width(line: &str) -> (count: usize)
    ensures
        count == line@.len(),
{
    line.unicode_len()
}

/// Where the first line of a text ends: the index of its first line feed, or
/// its length if it has none.
pub open spec fn line_end(text: Seq<char>) -> nat
    decreases text.len(),
{
    if text.len() == 0 || text[0] == '\n' {
        0
    } else {
        1 + line_end(text.drop_first())
    }
}

/// A line without the carriage return that ended it, if one did.
pub open spec fn without_return(line: Seq<char>) -> Seq<char> {
    if line.len() > 0 && line.last() == '\r' {
        line.drop_last()
    } else {
        line
    }
}

/// The lines of a text. A line ends at a line feed, or at a carriage return
/// directly before a line feed; neither belongs to the line. What follows the
/// last line feed is a line of its own unless it is empty, so the empty text
/// has no lines.
pub open spec fn lines_of(text: Seq<char>) -> Seq<Seq<char>>
    decreases text.len(),
{
    if text.len() == 0 {
        Seq::empty()
    } else if line_end(text) >= text.len() {
        seq![text]
    } else {
        seq![without_return(text.take(line_end(text) as int))] + lines_of(
            text.skip(line_end(text) as int + 1),
        )
    }
}

/// The first line of a text ends at `end` if no line feed comes before `end`
/// and one stands there, or the text ends there.
pub proof fn lemma_line_end(text: Seq<char>, end: int)
    requires
        0 <= end <= text.len(),
        forall|j: int| 0 <= j < end ==> text[j] != '\n',
        end == text.len() || text[end] == '\n',
    ensures
        line_end(text) == end,
    decreases end,
{
    if end > 0 {
        let rest: Seq<char> = text.drop_first();
        lemma_line_end(rest, end - 1);
    }
}

/// Splits a text into its lines.
pub fn split_lines(text: &str) -> (lines: Vec<String>)
    ensures
        texts(lines@) == lines_of(text@),
        lines@.len() == lines_of(text@).len(),
        forall|i: int| 0 <= i < lines@.len() ==> (#[trigger] lines@[i])@ == lines_of(text@)[i],
{
    let total: usize = width(text);
    let mut lines: Vec<String> = Vec::new();
    let mut chars = text.chars();
    let mut start: usize = 0;
    let mut at: usize = 0;
    let mut after_return: bool = false;
    proof {
        assert(text@.skip(0) =~= text@);
    }
    loop
        invariant
            start <= at <= total,
            total == text@.len(),
            chars.obeys_prophetic_iter_laws(),
            chars.remaining() == text@.skip(at as int),
            forall|j: int| start <= j < at ==> text@[j] != '\n',
            after_return <==> (at > start && text@[at - 1] == '\r'),
            lines_of(text@) == texts(lines@) + lines_of(text@.skip(start as int)),
        ensures
            at == total,
        decreases total - at,
    {
        let next: Option<char> = chars.next();
        match next {
            None => {
                break ;
            },
            Some(c) => {
                if c == '\n' {
                    let end: usize = if after_return {
                        at - 1
                    } else {
                        at
                    };
                    let line: String = String::from_str(text.substring_char(start, end));
                    proof {
                        let tail: Seq<char> = text@.skip(start as int);
                        lemma_line_end(tail, at - start);
                        assert(line@ =~= without_return(tail.take(at - start)));
                        assert(tail.skip(at - start + 1) =~= text@.skip(at + 1));
                    }
                    lines.push(line);
                    start = at + 1;
                    after_return = false;
                } else {
                    after_return = c == '\r';
                }
                at = at + 1;
            },
        }
    }
    proof {
        let tail: Seq<char> = text@.skip(start as int);
        lemma_line_end(tail, total - start);
    }
    if start < total {
        let line: String = String::from_str(text.substring_char(start, total));
        lines.push(line);
    }
    proof {
        lemma_texts(lines@);
    }
    lines
}

} // verus!
