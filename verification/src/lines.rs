//! The text as the tokenizer reads it: line by line, with the line endings
//! taken out. A line ending is a line feed, or a carriage return directly
//! followed by a line feed; a carriage return anywhere else belongs to the
//! content of its line.

use vstd::prelude::*;

verus! {

/// Whether position `i` of `text` lies in a line ending: it holds a line
/// feed, or a carriage return with a line feed right behind it.
pub open spec fn in_line_ending(text: Seq<char>, i: int) -> bool {
    text[i] == '\n' || (text[i] == '\r' && i + 1 < text.len() && text[i + 1] == '\n')
}

/// The characters at the first `n` positions of `text` that lie in no line
/// ending, in document order.
pub open spec fn line_chars_upto(text: Seq<char>, n: int) -> Seq<char>
    decreases n,
{
    if n <= 0 {
        Seq::empty()
    } else if in_line_ending(text, n - 1) {
        line_chars_upto(text, n - 1)
    } else {
        line_chars_upto(text, n - 1).push(text[n - 1])
    }
}

/// What the lines of `text` hold, one line after the other: every character
/// of the text that lies in no line ending, in document order.
pub open spec fn line_chars(text: Seq<char>) -> Seq<char> {
    line_chars_upto(text, text.len() as int)
}

/// Reading further never changes what was read: the content of the first
/// `n` positions is the beginning of the content of the first `m`.
pub proof fn lemma_line_chars_upto_prefix(text: Seq<char>, n: int, m: int)
    requires
        0 <= n <= m <= text.len(),
    ensures
        line_chars_upto(text, n).len() <= line_chars_upto(text, m).len(),
        line_chars_upto(text, m).take(line_chars_upto(text, n).len() as int) == line_chars_upto(
            text,
            n,
        ),
    decreases m - n,
{
    if n < m {
        lemma_line_chars_upto_prefix(text, n, m - 1);
        let short = line_chars_upto(text, n);
        let before = line_chars_upto(text, m - 1);
        assert(before.take(short.len() as int) == short);
        if !in_line_ending(text, m - 1) {
            assert(before.push(text[m - 1]).take(short.len() as int) =~= before.take(
                short.len() as int,
            ));
        }
    } else {
        assert(line_chars_upto(text, n).take(line_chars_upto(text, n).len() as int)
            =~= line_chars_upto(text, n));
    }
}

/// Every character that the lines hold stands in the text at a position
/// outside the line endings.
pub proof fn lemma_line_chars_come_from_text(text: Seq<char>, n: int, k: int)
    requires
        0 <= n <= text.len(),
        0 <= k < line_chars_upto(text, n).len(),
    ensures
        exists|i: int|
            0 <= i < n && !in_line_ending(text, i) && text[i] == #[trigger] line_chars_upto(
                text,
                n,
            )[k],
    decreases n,
{
    let before = line_chars_upto(text, n - 1);
    if !in_line_ending(text, n - 1) && k == before.len() {
        assert(text[n - 1] == line_chars_upto(text, n)[k]);
    } else {
        lemma_line_chars_come_from_text(text, n - 1, k);
        let i = choose|i: int|
            0 <= i < n - 1 && !in_line_ending(text, i) && text[i] == before[k];
        assert(text[i] == line_chars_upto(text, n)[k]);
    }
}

/// Every character of the text at a position outside the line endings is
/// among the characters that the lines hold.
pub proof fn lemma_text_chars_reach_lines(text: Seq<char>, n: int, i: int)
    requires
        0 <= i < n <= text.len(),
        !in_line_ending(text, i),
    ensures
        exists|k: int|
            0 <= k < line_chars_upto(text, n).len() && #[trigger] line_chars_upto(text, n)[k]
                == text[i],
    decreases n,
{
    let before = line_chars_upto(text, n - 1);
    if i == n - 1 {
        assert(line_chars_upto(text, n)[before.len() as int] == text[i]);
    } else {
        lemma_text_chars_reach_lines(text, n - 1, i);
        let k = choose|k: int| 0 <= k < before.len() && before[k] == text[i];
        assert(line_chars_upto(text, n)[k] == text[i]);
    }
}

} // verus!
