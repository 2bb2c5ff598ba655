//! Input lines and the message text they carry.

use vstd::prelude::*;

verus! {

/// Carriage return and line feed, the characters that end a line.
pub open spec fn is_line_end(c: char) -> bool {
    c == '\n' || c == '\r'
}

/// `line` without its trailing run of carriage returns and line feeds.
pub open spec fn without_line_ending(line: Seq<char>) -> Seq<char>
    decreases line.len(),
{
    if line.len() > 0 && is_line_end(line.last()) {
        without_line_ending(line.drop_last())
    } else {
        line
    }
}

/// The stripped line is the longest prefix of the line that does not end in
/// a carriage return or line feed: it is a prefix, everything behind it is a
/// line end, and its own last character is none.
pub proof fn lemma_without_line_ending(line: Seq<char>)
    ensures
        without_line_ending(line).is_prefix_of(line),
        without_line_ending(line).len() > 0 ==> !is_line_end(without_line_ending(line).last()),
        forall|i: int| without_line_ending(line).len() <= i < line.len() ==> is_line_end(line[i]),
    decreases line.len(),
{
    if line.len() > 0 && is_line_end(line.last()) {
        let shorter = line.drop_last();
        lemma_without_line_ending(shorter);
        assert forall|i: int| without_line_ending(line).len() <= i < line.len() implies is_line_end(
            line[i],
        ) by {
            if i < shorter.len() {
                assert(shorter[i] == line[i]);
            }
        }
    }
}

/// A line free of trailing line ends is left as it is.
pub proof fn lemma_without_line_ending_fixed(line: Seq<char>)
    requires
        line.len() == 0 || !is_line_end(line.last()),
    ensures
        without_line_ending(line) == line,
{
}

/// Stripping twice is stripping once.
pub proof fn lemma_without_line_ending_idempotent(line: Seq<char>)
    ensures
        without_line_ending(without_line_ending(line)) == without_line_ending(line),
{
    lemma_without_line_ending(line);
}

fn is_line_end_char(c: char) -> (yes: bool)
    ensures
        yes == is_line_end(c),
{
    c == '\n' || c == '\r'
}

/// Strips the end-of-line characters from the end of `line`; whitespace and
/// line ends inside the line stay.
pub fn strip_line_ending(line: &str) -> (text: &str)
    ensures
        text@ == without_line_ending(line@),
{
    let mut end: usize = line.unicode_len();
    assert(line@.take(end as int) == line@);
    while end > 0 && is_line_end_char(line.get_char(end - 1))
        invariant
            end <= line@.len(),
            without_line_ending(line@) == without_line_ending(line@.take(end as int)),
        decreases end,
    {
        assert(line@.take(end as int).drop_last() == line@.take(end as int - 1));
        end = end - 1;
    }
    line.substring_char(0, end)
}

/// Whether `text` begins with `prefix`.
pub fn has_prefix(text: &str, prefix: &str) -> (yes: bool)
    ensures
        yes == prefix@.is_prefix_of(text@),
{
    let wanted: usize = prefix.unicode_len();
    if text.unicode_len() < wanted {
        return false;
    }
    let mut at: usize = 0;
    while at < wanted
        invariant
            at <= wanted,
            wanted == prefix@.len(),
            wanted <= text@.len(),
            forall|i: int| 0 <= i < at ==> text@[i] == prefix@[i],
        decreases wanted - at,
    {
        if text.get_char(at) != prefix.get_char(at) {
            assert(text@.subrange(0, wanted as int)[at as int] != prefix@[at as int]);
            return false;
        }
        at = at + 1;
    }
    true
}

} // verus!
