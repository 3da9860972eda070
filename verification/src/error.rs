//! The ways in which tokenization and validation fail, and the diagnostic
//! text that reports each of them.

use vstd::prelude::*;

verus! {

/// Why a text could not be turned into tokens.
#[derive(Clone, Copy, Debug, PartialEq, Eq, Structural)]
pub enum TokenizeError {
    /// A character that stands for no token was met; it is carried along.
    Unsupported(char),
}

/// Why a token sequence is not structurally valid.
#[derive(Clone, Copy, Debug, PartialEq, Eq, Structural)]
pub enum ValidationError {
    /// The sequence is empty or does not begin with an opening brace.
    MissingOpenBrace,
    /// The sequence does not end with a closing brace.
    MissingCloseBrace,
}

/// Taken on trust from the standard library: `String::push` appends the
/// given character to the end of the string and leaves the characters before
/// it as they were.
pub assume_specification[ String::push ](s: &mut String, ch: char)
    ensures
        final(s)@ == old(s)@.push(ch),
;

impl TokenizeError {
    /// The text that reports this error: a fixed lead followed by the
    /// offending character itself.
    pub open spec fn diagnostic(self) -> Seq<char> {
        match self {
            TokenizeError::Unsupported(c) => "Unrecognised token, "@.push(c),
        }
    }

    /// Renders the error as its diagnostic text.
    pub fn message(&self) -> (text: String)
        ensures
            text@ == self.diagnostic(),
    {
        match self {
            TokenizeError::Unsupported(c) => {
                let mut text = "Unrecognised token, ".to_owned();
                text.push(*c);
                text
            },
        }
    }
}

impl ValidationError {
    /// The text that reports this error.
    pub open spec fn diagnostic(self) -> Seq<char> {
        match self {
            ValidationError::MissingOpenBrace => "missing `{` at position 0"@,
            ValidationError::MissingCloseBrace => "missing `}` at last position"@,
        }
    }

    /// Renders the error as its diagnostic text.
    pub fn message(&self) -> (text: String)
        ensures
            text@ == self.diagnostic(),
    {
        match self {
            ValidationError::MissingOpenBrace => "missing `{` at position 0".to_owned(),
            ValidationError::MissingCloseBrace => "missing `}` at last position".to_owned(),
        }
    }
}

/// The diagnostic of a tokenization error tells which character was met.
pub proof fn lemma_tokenize_diagnostic_injective(first: TokenizeError, second: TokenizeError)
    requires
        first.diagnostic() == second.diagnostic(),
    ensures
        first == second,
{
    let lead = "Unrecognised token, "@;
    let TokenizeError::Unsupported(a) = first;
    let TokenizeError::Unsupported(b) = second;
    assert(lead.push(a)[lead.len() as int] == a);
    assert(lead.push(b)[lead.len() as int] == b);
}

/// The diagnostic of a validation error tells which check failed.
pub proof fn lemma_validation_diagnostic_injective(first: ValidationError, second: ValidationError)
    requires
        first.diagnostic() == second.diagnostic(),
    ensures
        first == second,
{
    reveal_strlit("missing `{` at position 0");
    reveal_strlit("missing `}` at last position");
    assert("missing `{` at position 0"@.len() == 25);
    assert("missing `}` at last position"@.len() == 28);
}

/// No tokenization error reads like a validation error.
pub proof fn lemma_diagnostics_disjoint(tokenize: TokenizeError, validation: ValidationError)
    ensures
        tokenize.diagnostic() != validation.diagnostic(),
{
    reveal_strlit("Unrecognised token, ");
    reveal_strlit("missing `{` at position 0");
    reveal_strlit("missing `}` at last position");
    assert(tokenize.diagnostic()[0] == 'U');
    assert(validation.diagnostic()[0] == 'm');
}

} // verus!
