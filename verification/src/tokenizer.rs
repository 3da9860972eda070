//! The tokenizer: from raw text to the ordered sequence of its tokens.
//!
//! The text is read line by line. Each character of a line is classified
//! into one token; the first character that stands for no token ends the run
//! with an error that names it. Nothing is skipped but the line endings and
//! nothing is filtered or merged, so on success there is one token for every
//! character that the lines hold, in document order.

use crate::error::TokenizeError;
use crate::lexer::Lexer;
use crate::lines::{
    in_line_ending, lemma_line_chars_come_from_text, lemma_line_chars_upto_prefix,
    lemma_text_chars_reach_lines, line_chars, line_chars_upto,
};
use crate::token::{token_of, Token};
use vstd::prelude::*;
use vstd::std_specs::iter::IteratorSpec;

verus! {

/// Whether every character of `chars` stands for a token.
pub open spec fn all_supported(chars: Seq<char>) -> bool {
    forall|i: int| 0 <= i < chars.len() ==> token_of(#[trigger] chars[i]) is Some
}

/// Whether `k` is the position of the first character of `chars` that
/// stands for no token.
pub open spec fn is_first_unsupported(chars: Seq<char>, k: int) -> bool {
    &&& 0 <= k < chars.len()
    &&& token_of(chars[k]) is None
    &&& all_supported(chars.take(k))
}

/// The tokens of a run of characters that all stand for one.
pub open spec fn tokens_of(chars: Seq<char>) -> Seq<Token> {
    Seq::new(chars.len(), |i: int| token_of(chars[i]).unwrap())
}

/// The outcome of classifying a run of characters one by one: the tokens of
/// all of them, or the error that names the first character without a token.
pub open spec fn tokenize_chars(chars: Seq<char>) -> Result<Seq<Token>, TokenizeError> {
    if all_supported(chars) {
        Ok(tokens_of(chars))
    } else {
        Err(TokenizeError::Unsupported(chars[choose|k: int| is_first_unsupported(chars, k)]))
    }
}

/// The outcome of tokenizing a text: the outcome of classifying, one by one,
/// the characters that its lines hold.
pub open spec fn tokenize(text: Seq<char>) -> Result<Seq<Token>, TokenizeError> {
    tokenize_chars(line_chars(text))
}

/// A run of characters with a character that stands for no token has a
/// first such character.
pub proof fn lemma_first_unsupported_exists(chars: Seq<char>)
    requires
        !all_supported(chars),
    ensures
        exists|k: int| is_first_unsupported(chars, k),
    decreases chars.len(),
{
    let front = chars.drop_last();
    if chars.len() > 0 && !all_supported(front) {
        lemma_first_unsupported_exists(front);
        let k = choose|k: int| is_first_unsupported(front, k);
        assert(front.take(k) =~= chars.take(k));
        assert(is_first_unsupported(chars, k));
    } else {
        let i = choose|i: int| 0 <= i < chars.len() && token_of(chars[i]) is None;
        let k = chars.len() - 1;
        if i < k {
            assert(front[i] == chars[i]);
        }
        assert(chars.take(k) =~= front);
        assert(is_first_unsupported(chars, k));
    }
}

/// The first character without a token is the one that the error names.
pub proof fn lemma_first_unsupported_is_reported(chars: Seq<char>, k: int)
    requires
        is_first_unsupported(chars, k),
    ensures
        tokenize_chars(chars) matches Err(TokenizeError::Unsupported(c)) && c == chars[k],
{
    let chosen = choose|j: int| is_first_unsupported(chars, j);
    assert(is_first_unsupported(chars, chosen));
    if chosen < k {
        assert(chars.take(k)[chosen] == chars[chosen]);
    } else if k < chosen {
        assert(chars.take(chosen)[k] == chars[k]);
    }
}

/// A text tokenizes exactly when every character outside its line endings
/// is one of the two braces.
pub proof fn lemma_tokenizes_iff_only_braces(text: Seq<char>)
    ensures
        tokenize(text) is Ok <==> forall|i: int|
            0 <= i < text.len() && !in_line_ending(text, i) ==> #[trigger] text[i] == '{'
                || text[i] == '}',
{
    let chars = line_chars(text);
    let len = text.len() as int;
    if tokenize(text) is Ok {
        assert forall|i: int| 0 <= i < text.len() && !in_line_ending(text, i) implies #[trigger]
            text[i] == '{' || text[i] == '}' by {
            lemma_text_chars_reach_lines(text, len, i);
            let k = choose|k: int| 0 <= k < chars.len() && chars[k] == text[i];
            assert(token_of(chars[k]) is Some);
        }
    } else {
        lemma_first_unsupported_exists(chars);
        let k = choose|k: int| is_first_unsupported(chars, k);
        lemma_line_chars_come_from_text(text, len, k);
        let i = choose|i: int| 0 <= i < len && !in_line_ending(text, i) && text[i] == chars[k];
        assert(!(text[i] == '{' || text[i] == '}'));
    }
}

/// A text that holds, outside its line endings, a character other than the
/// two braces does not tokenize: the outcome is the error for an unsupported
/// character, which names a character that is neither brace, and no token
/// sequence comes out.
pub proof fn lemma_unsupported_character_fails(text: Seq<char>, i: int)
    requires
        0 <= i < text.len(),
        !in_line_ending(text, i),
        text[i] != '{',
        text[i] != '}',
    ensures
        tokenize(text) matches Err(TokenizeError::Unsupported(c)) && c != '{' && c != '}',
{
    let chars = line_chars(text);
    lemma_text_chars_reach_lines(text, text.len() as int, i);
    let k = choose|k: int| 0 <= k < chars.len() && chars[k] == text[i];
    assert(token_of(chars[k]) is None);
    lemma_first_unsupported_exists(chars);
}

/// Classifying one more supported character adds its token behind the
/// tokens of the characters before it.
pub proof fn lemma_tokens_of_push(chars: Seq<char>, c: char)
    requires
        all_supported(chars),
        token_of(c) is Some,
    ensures
        all_supported(chars.push(c)),
        tokens_of(chars.push(c)) == tokens_of(chars).push(token_of(c).unwrap()),
{
    assert(tokens_of(chars.push(c)) =~= tokens_of(chars).push(token_of(c).unwrap()));
}

/// When the content of the first `n` positions is supported throughout and
/// position `n` holds, outside a line ending, a character without a token,
/// tokenizing the text reports that character.
pub proof fn lemma_unsupported_at(text: Seq<char>, n: int)
    requires
        0 <= n < text.len(),
        all_supported(line_chars_upto(text, n)),
        !in_line_ending(text, n),
        token_of(text[n]) is None,
    ensures
        tokenize(text) matches Err(TokenizeError::Unsupported(c)) && c == text[n],
{
    let read = line_chars_upto(text, n);
    let all = line_chars(text);
    let k = read.len() as int;
    lemma_line_chars_upto_prefix(text, n, text.len() as int);
    lemma_line_chars_upto_prefix(text, n + 1, text.len() as int);
    assert(line_chars_upto(text, n + 1) == read.push(text[n]));
    assert(all.take(k + 1)[k] == text[n]);
    assert(all.take(k) =~= read);
    lemma_first_unsupported_is_reported(all, k);
}

/// The number of positions whose reading is settled once `taken` characters
/// have been taken from the text: all of them, but for a carriage return
/// that still waits for the character behind it.
spec fn settled(taken: int, pending_cr: bool) -> int {
    if pending_cr {
        taken - 1
    } else {
        taken
    }
}

impl Lexer {
    /// Tokenizes a text: reads it line by line and classifies each character
    /// of a line, in document order. Returns the tokens of all of them, or
    /// stops at the first character that stands for no token and returns the
    /// error that names it. An empty text gives an empty token sequence.
    pub fn gather_tokens(file: &str) -> (outcome: Result<Vec<Token>, TokenizeError>)
        ensures
            match tokenize(file@) {
                Ok(tokens) => outcome matches Ok(gathered) && gathered@ == tokens,
                Err(error) => outcome matches Err(reported) && reported == error,
            },
    {
        broadcast use vstd::string::group_string_axioms;

        let mut tokens: Vec<Token> = Vec::new();
        // A carriage return was read and it is not yet known whether a line
        // feed follows it.
        let mut pending_cr = false;
        let chars = file.chars();
        for c in it: chars
            invariant
                it.seq() == file@,
                pending_cr ==> it.index() >= 1 && file@[it.index() - 1] == '\r',
                all_supported(line_chars_upto(file@, settled(it.index(), pending_cr))),
                tokens@ == tokens_of(line_chars_upto(file@, settled(it.index(), pending_cr))),
        {
            let ghost i = it.index();
            if pending_cr {
                if c == '\n' {
                    assert(line_chars_upto(file@, i + 1) == line_chars_upto(file@, i - 1)) by {
                        assert(in_line_ending(file@, i - 1));
                        assert(line_chars_upto(file@, i) == line_chars_upto(file@, i - 1));
                    }
                    pending_cr = false;
                } else {
                    proof {
                        lemma_unsupported_at(file@, i - 1);
                    }
                    return Err(TokenizeError::Unsupported('\r'));
                }
            } else if c == '\n' {
                assert(line_chars_upto(file@, i + 1) == line_chars_upto(file@, i));
            } else if c == '\r' {
                pending_cr = true;
            } else {
                match Token::try_from(c) {
                    Ok(token) => {
                        proof {
                            lemma_tokens_of_push(line_chars_upto(file@, i), c);
                            assert(line_chars_upto(file@, i + 1) == line_chars_upto(file@, i).push(
                                c,
                            ));
                        }
                        tokens.push(token);
                    },
                    Err(error) => {
                        proof {
                            lemma_unsupported_at(file@, i);
                        }
                        return Err(error);
                    },
                }
            }
        }
        if pending_cr {
            proof {
                lemma_unsupported_at(file@, file@.len() - 1);
            }
            return Err(TokenizeError::Unsupported('\r'));
        }
        Ok(tokens)
    }
}

} // verus!
