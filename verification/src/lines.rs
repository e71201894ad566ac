//! Text as a sequence of lines.
//!
//! A line ends at a line feed, or at a carriage return directly followed by a
//! line feed; neither belongs to the line. The last line may lack its line
//! feed, and a text that ends with a line feed has no empty line after it.

use vstd::prelude::*;
use vstd::std_specs::iter::IteratorSpec;

verus! {

/// The number of characters of `text` that stand before its first line feed:
/// the whole length where it has none.
pub open spec fn line_end(text: Seq<char>) -> nat
    decreases text.len(),
{
    if text.len() == 0 || text[0] == '\n' {
        0
    } else {
        1 + line_end(text.drop_first())
    }
}

/// `line` without the carriage return at its end, if it has one.
pub open spec fn without_carriage_return(line: Seq<char>) -> Seq<char> {
    if line.len() > 0 && line.last() == '\r' {
        line.drop_last()
    } else {
        line
    }
}

/// The first line of a text that is not empty.
pub open spec fn first_line(text: Seq<char>) -> Seq<char> {
    let end = line_end(text) as int;
    if end == text.len() {
        text
    } else {
        without_carriage_return(text.take(end))
    }
}

/// What follows the first line of `text` and the line feed that ends it.
pub open spec fn after_first_line(text: Seq<char>) -> Seq<char> {
    let end = line_end(text) as int;
    if end == text.len() {
        Seq::empty()
    } else {
        text.skip(end + 1)
    }
}

/// The lines of `text`, in order.
pub open spec fn lines(text: Seq<char>) -> Seq<Seq<char>>
    decreases text.len(),
    via lines_decreases
{
    if text.len() == 0 {
        Seq::empty()
    } else {
        seq![first_line(text)] + lines(after_first_line(text))
    }
}

#[via_fn]
proof fn lines_decreases(text: Seq<char>) {
    lemma_line_end(text);
}

/// `line_end` is the place of the first line feed: it lies within the text,
/// no line feed stands before it, and one stands at it unless it is the end.
pub proof fn lemma_line_end(text: Seq<char>)
    ensures
        line_end(text) <= text.len(),
        forall|i: int| 0 <= i < line_end(text) ==> text[i] != '\n',
        line_end(text) < text.len() ==> text[line_end(text) as int] == '\n',
    decreases text.len(),
{
    if text.len() == 0 || text[0] == '\n' {
    } else {
        let rest = text.drop_first();
        lemma_line_end(rest);
        assert forall|i: int| 0 <= i < line_end(text) implies text[i] != '\n' by {
            if i > 0 {
                assert(text[i] == rest[i - 1]);
            }
        }
    }
}

/// The first line feed is where `line_end` says: a place with a line feed and
/// none before it is `line_end`, and so is the length of a text without one.
pub proof fn lemma_line_end_is(text: Seq<char>, end: int)
    requires
        0 <= end <= text.len(),
        forall|i: int| 0 <= i < end ==> text[i] != '\n',
        end < text.len() ==> text[end] == '\n',
    ensures
        line_end(text) == end,
{
    lemma_line_end(text);
}

/// A text has no line if it is empty; else its lines are its first line and
/// the lines of what follows that.
pub proof fn lemma_lines_unfold(text: Seq<char>)
    ensures
        text.len() == 0 ==> lines(text).len() == 0,
        text.len() > 0 ==> lines(text).len() == 1 + lines(after_first_line(text)).len(),
        text.len() > 0 ==> lines(text)[0] == first_line(text),
        text.len() > 0 ==> forall|i: int|
            0 <= i < lines(after_first_line(text)).len() ==> lines(text)[i + 1] == lines(
                after_first_line(text),
            )[i],
{
}

/// Where the first line feed of `text` stands, counted in characters; the
/// length of `text` where there is none.
fn find_line_end(text: &str, length: usize) -> (end: usize)
    requires
        length == text@.len(),
    ensures
        end == line_end(text@),
        end <= length,
{
    let mut rest = text.chars();
    let mut end: usize = 0;
    loop
        invariant_except_break
            rest.remaining() == text@.skip(end as int),
        invariant
            end <= length == text@.len(),
            forall|i: int| 0 <= i < end ==> text@[i] != '\n',
        ensures
            end < length ==> text@[end as int] == '\n',
        decreases length - end,
    {
        match rest.next() {
            Some(c) => {
                if c == '\n' {
                    break ;
                }
                end = end + 1;
            },
            None => {
                break ;
            },
        }
    }
    proof {
        lemma_line_end_is(text@, end as int);
    }
    end
}

/// Takes the first line off `text`: the line, and what follows it. An empty
/// text has no line.
pub fn next_line<'a>(text: &'a str) -> (taken: Option<(&'a str, &'a str)>)
    ensures
        taken is None <==> text@.len() == 0,
        taken matches Some((line, rest)) ==> line@ == first_line(text@) && rest@
            == after_first_line(text@),
{
    let length: usize = text.unicode_len();
    if length == 0 {
        return None;
    }
    let end: usize = find_line_end(text, length);
    if end == length {
        let rest = text.substring_char(length, length);
        Some((text, rest))
    } else {
        let cut: usize = if end > 0 && text.get_char(end - 1) == '\r' {
            end - 1
        } else {
            end
        };
        let line = text.substring_char(0, cut);
        let rest = text.substring_char(end + 1, length);
        Some((line, rest))
    }
}

} // verus!
