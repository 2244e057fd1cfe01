//! Character classes and the word count that token estimates rest on.

use vstd::prelude::*;
use vstd::std_specs::iter::IteratorSpec;

verus! {

/// Whether `c` is alphanumeric as `char::is_alphanumeric` decides it.
pub uninterp spec fn char_is_alphanumeric(c: char) -> bool;

/// `c` is an ASCII letter or an ASCII digit.
pub open spec fn ascii_alphanumeric(c: char) -> bool {
    ('0' <= c && c <= '9') || ('a' <= c && c <= 'z') || ('A' <= c && c <= 'Z')
}

/// `c` is alphanumeric: a letter or a digit among the ASCII characters,
/// and beyond them whatever `char::is_alphanumeric` says.
pub open spec fn alphanumeric(c: char) -> bool {
    if (c as u32) < 0x80 {
        ascii_alphanumeric(c)
    } else {
        char_is_alphanumeric(c)
    }
}

/// Calls `char::is_alphanumeric`. The answer depends on `c` alone, by the
/// Unicode tables that the standard library was built with, and the
/// contract gives it its name. Of the ASCII characters, which no version
/// of those tables treats differently, it says which they are: the letters
/// and the digits.
#[verifier::external_body]
pub(crate) fn is_alphanumeric(c: char) -> (answer: bool)
    ensures
        answer == char_is_alphanumeric(c),
        (c as u32) < 0x80 ==> answer == ascii_alphanumeric(c),
{
    c.is_alphanumeric()
}

/// `c` is white space: it has the Unicode property White_Space, as the
/// characters that `char::is_whitespace` accepts do.
pub open spec fn char_is_whitespace(c: char) -> bool {
    let code = c as u32;
    ||| 0x09 <= code <= 0x0d
    ||| code == 0x20
    ||| code == 0x85
    ||| code == 0xa0
    ||| code == 0x1680
    ||| 0x2000 <= code <= 0x200a
    ||| code == 0x2028
    ||| code == 0x2029
    ||| code == 0x202f
    ||| code == 0x205f
    ||| code == 0x3000
}

/// Whether `c` is white space.
pub fn is_whitespace(c: char) -> (answer: bool)
    ensures
        answer == char_is_whitespace(c),
{
    let code = c as u32;
    (0x09 <= code && code <= 0x0d) || code == 0x20 || code == 0x85 || code == 0xa0 || code
        == 0x1680 || (0x2000 <= code && code <= 0x200a) || code == 0x2028 || code == 0x2029
        || code == 0x202f || code == 0x205f || code == 0x3000
}

/// `c` separates tokens: it is white space or it is not alphanumeric.
pub open spec fn is_separator(c: char) -> bool {
    char_is_whitespace(c) || !alphanumeric(c)
}

/// `tokens`, or the largest count that an estimate can give.
pub open spec fn capped(tokens: int) -> int {
    if tokens <= u32::MAX {
        tokens
    } else {
        u32::MAX as int
    }
}

/// A token begins at position `i` of `text`: the character there belongs
/// to a token and the one before it, if there is one, does not.
pub open spec fn token_starts_at(text: Seq<char>, i: int) -> bool {
    &&& 0 <= i < text.len()
    &&& !is_separator(text[i])
    &&& (i == 0 || is_separator(text[i - 1]))
}

/// The number of tokens that begin among the first `n` positions of `text`.
pub open spec fn tokens_before(text: Seq<char>, n: int) -> nat
    decreases n,
{
    if n <= 0 {
        0
    } else {
        tokens_before(text, n - 1) + if token_starts_at(text, n - 1) { 1nat } else { 0nat }
    }
}

/// The number of tokens of `text`: of its maximal runs of characters that
/// are not separators.
pub open spec fn token_count(text: Seq<char>) -> nat {
    tokens_before(text, text.len() as int)
}

/// Counts the tokens of `text`. A count beyond the largest estimate is
/// given as that estimate.
pub fn count_tokens(text: &str) -> (count: u32)
    ensures
        count == capped(token_count(text@) as int),
{
    let mut count: u32 = 0;
    let mut in_token = false;
    for c in it: text.chars()
        invariant
            it.seq() == text@,
            count == capped(tokens_before(text@, it.index() as int) as int),
            in_token == (it.index() > 0 && !is_separator(text@[it.index() - 1])),
    {
        let separator = is_whitespace(c) || !is_alphanumeric(c);
        if !separator && !in_token {
            count = count.saturating_add(1);
        }
        in_token = !separator;
    }
    count
}

/// Calls `String::push`, which appends one character to the end of a
/// string and leaves the characters before it as they were.
#[verifier::external_body]
pub(crate) fn push_char(text: &mut String, c: char)
    ensures
        final(text)@ == old(text)@.push(c),
{
    text.push(c)
}

/// The characters of `text`, in order.
pub fn chars_of(text: &str) -> (chars: Vec<char>)
    ensures
        chars@ == text@,
{
    let mut chars: Vec<char> = Vec::new();
    for c in it: text.chars()
        invariant
            it.seq() == text@,
            chars@ == text@.take(it.index() as int),
    {
        chars.push(c);
        assert(chars@ =~= text@.take(it.index() + 1));
    }
    assert(chars@ =~= text@);
    chars
}

/// The string made of the characters of `chars` from position `from` up
/// to, and without, position `to`.
pub fn string_of(chars: &Vec<char>, from: usize, to: usize) -> (text: String)
    requires
        from <= to <= chars@.len(),
    ensures
        text@ == chars@.subrange(from as int, to as int),
{
    let mut text = String::new();
    let mut i: usize = from;
    while i < to
        invariant
            from <= i <= to <= chars@.len(),
            text@ == chars@.subrange(from as int, i as int),
        decreases to - i,
    {
        push_char(&mut text, chars[i]);
        i += 1;
        assert(text@ =~= chars@.subrange(from as int, i as int));
    }
    text
}

/// The first position at or after `i` that holds a line feed, or the
/// length of `text` where none follows.
pub open spec fn line_end(text: Seq<char>, i: int) -> int
    decreases text.len() - i,
{
    if i < 0 || i >= text.len() || text[i] == '\n' {
        i
    } else {
        line_end(text, i + 1)
    }
}

/// The line that begins at position `i`: the characters up to the next
/// line feed, without a carriage return that stands right before it. A
/// last line that no line feed ends keeps all its characters.
pub open spec fn line_at(text: Seq<char>, i: int) -> Seq<char> {
    let end = line_end(text, i);
    if end < text.len() && i < end && text[end - 1] == '\r' {
        text.subrange(i, end - 1)
    } else {
        text.subrange(i, end)
    }
}

/// The position at which the line after the one at `i` begins.
pub open spec fn next_line(text: Seq<char>, i: int) -> int {
    let end = line_end(text, i);
    if end < text.len() {
        end + 1
    } else {
        end
    }
}

/// `i` is at most the end of its line, which is at most the length of the
/// text; and no line feed stands between the two.
pub proof fn lemma_line_end(text: Seq<char>, i: int)
    requires
        0 <= i <= text.len(),
    ensures
        i <= line_end(text, i) <= text.len(),
        line_end(text, i) < text.len() ==> text[line_end(text, i)] == '\n',
        forall|k: int| i <= k < line_end(text, i) ==> text[k] != '\n',
    decreases text.len() - i,
{
    if i < text.len() && text[i] != '\n' {
        lemma_line_end(text, i + 1);
    }
}

/// The lines of `text` from position `i` on.
pub open spec fn lines_from(text: Seq<char>, i: int) -> Seq<Seq<char>>
    decreases text.len() - i,
{
    if i < 0 || i >= text.len() {
        Seq::empty()
    } else {
        proof {
            lemma_line_end(text, i);
        }
        seq![line_at(text, i)] + lines_from(text, next_line(text, i))
    }
}

/// The lines of `text`. A line ends with a line feed or with a carriage
/// return and a line feed, neither of which belongs to it; the last line
/// needs no ending, and a text that ends with a line ending has no empty
/// line after it.
pub open spec fn lines(text: Seq<char>) -> Seq<Seq<char>> {
    lines_from(text, 0)
}

/// The texts of a list of lines held as characters.
pub open spec fn line_views(lines: Seq<Vec<char>>) -> Seq<Seq<char>> {
    lines.map_values(|line: Vec<char>| line@)
}

/// Splits `text` into its lines.
pub fn split_lines(text: &Vec<char>) -> (found: Vec<Vec<char>>)
    ensures
        line_views(found@) == lines(text@),
{
    let mut found: Vec<Vec<char>> = Vec::new();
    let mut i: usize = 0;
    while i < text.len()
        invariant
            i <= text.len(),
            line_views(found@) + lines_from(text@, i as int) == lines(text@),
        decreases text.len() - i,
    {
        proof {
            lemma_line_end(text@, i as int);
        }
        let mut end: usize = i;
        while end < text.len() && text[end] != '\n'
            invariant
                i <= end <= text.len(),
                line_end(text@, i as int) == line_end(text@, end as int),
            decreases text.len() - end,
        {
            end += 1;
        }
        let stop: usize = if end < text.len() && i < end && text[end - 1] == '\r' {
            end - 1
        } else {
            end
        };
        let mut line: Vec<char> = Vec::new();
        let mut k: usize = i;
        while k < stop
            invariant
                i <= k <= stop <= text.len(),
                line@ == text@.subrange(i as int, k as int),
            decreases stop - k,
        {
            line.push(text[k]);
            k += 1;
            assert(line@ =~= text@.subrange(i as int, k as int));
        }
        let ghost before = line_views(found@);
        found.push(line);
        assert(line_views(found@) =~= before.push(line_at(text@, i as int)));
        assert(line_views(found@) + lines_from(text@, next_line(text@, i as int)) =~= before
            + lines_from(text@, i as int));
        i = if end < text.len() {
            end + 1
        } else {
            end
        };
    }
    assert(line_views(found@) + Seq::<Seq<char>>::empty() =~= line_views(found@));
    found
}

/// The number of white-space characters that `text` begins with.
pub open spec fn leading_space(text: Seq<char>) -> nat
    decreases text.len(),
{
    if text.len() > 0 && char_is_whitespace(text[0]) {
        1 + leading_space(text.drop_first())
    } else {
        0
    }
}

/// The number of white-space characters that `text` ends with.
pub open spec fn trailing_space(text: Seq<char>) -> nat
    decreases text.len(),
{
    if text.len() > 0 && char_is_whitespace(text.last()) {
        1 + trailing_space(text.drop_last())
    } else {
        0
    }
}

/// `text` without the white space at its two ends.
pub open spec fn trimmed(text: Seq<char>) -> Seq<char> {
    let rest = text.skip(leading_space(text) as int);
    rest.take(rest.len() - trailing_space(rest))
}

} // verus!
