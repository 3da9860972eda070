//! The lexical units of JSON structure and the classification of characters
//! into them.

use crate::error::TokenizeError;
use vstd::prelude::*;
use vstd::std_specs::convert::TryFromSpecImpl;

verus! {

/// One lexical unit of JSON structure, classified from a single character.
/// A token is a plain value: two tokens are equal when they are the same
/// variant.
#[derive(Clone, Copy, Debug, PartialEq, Eq, Structural)]
pub enum Token {
    /// The character `{`.
    OpenBrace,
    /// The character `}`.
    CloseBrace,
}

/// The token that a character stands for, if it stands for one.
pub open spec fn token_of(c: char) -> Option<Token> {
    if c == '{' {
        Some(Token::OpenBrace)
    } else if c == '}' {
        Some(Token::CloseBrace)
    } else {
        None
    }
}

/// The outcome of classifying one character: its token, or the error that
/// names the character when it stands for none.
pub open spec fn classify(c: char) -> Result<Token, TokenizeError> {
    match token_of(c) {
        Some(token) => Ok(token),
        None => Err(TokenizeError::Unsupported(c)),
    }
}

impl TryFrom<char> for Token {
    type Error = TokenizeError;

    /// Classifies one character.
    fn try_from(c: char) -> (outcome: Result<Token, TokenizeError>)
        ensures
            outcome == classify(c),
    {
        match c {
            '{' => Ok(Token::OpenBrace),
            '}' => Ok(Token::CloseBrace),
            _ => Err(TokenizeError::Unsupported(c)),
        }
    }
}

impl TryFromSpecImpl<char> for Token {
    open spec fn obeys_try_from_spec() -> bool {
        true
    }

    open spec fn try_from_spec(c: char) -> Result<Token, TokenizeError> {
        classify(c)
    }
}

} // verus!
