//! The validator: whole-sequence checks on the outer structure of a token
//! sequence.
//!
//! Two checks are made, in this order, and the first that fails decides the
//! error: the sequence begins with an opening brace (an empty sequence does
//! not), and it ends with a closing brace. A sequence that passes both is
//! handed back as it came.

use crate::error::ValidationError;
use crate::lexer::Lexer;
use crate::token::Token;
use vstd::prelude::*;

verus! {

/// The outcome of validating a token sequence: the sequence itself when it
/// passes both checks, else the error of the first check that fails.
pub open spec fn validate(tokens: Seq<Token>) -> Result<Seq<Token>, ValidationError> {
    if tokens.len() == 0 || tokens.first() != Token::OpenBrace {
        Err(ValidationError::MissingOpenBrace)
    } else if tokens.last() != Token::CloseBrace {
        Err(ValidationError::MissingCloseBrace)
    } else {
        Ok(tokens)
    }
}

impl Lexer {
    /// Validates a token sequence. The checks only read the sequence: on
    /// success the very sequence that was passed in is returned, so that it
    /// can be handed on without tokenizing again.
    pub fn analyse(tokens: Vec<Token>) -> (outcome: Result<Vec<Token>, ValidationError>)
        ensures
            match validate(tokens@) {
                Ok(_) => outcome matches Ok(validated) && validated == tokens,
                Err(error) => outcome matches Err(reported) && reported == error,
            },
    {
        let len = tokens.len();
        if len == 0 || tokens[0] != Token::OpenBrace {
            return Err(ValidationError::MissingOpenBrace);
        }
        if tokens[len - 1] != Token::CloseBrace {
            return Err(ValidationError::MissingCloseBrace);
        }
        Ok(tokens)
    }
}

/// A sequence is accepted exactly when it is not empty, begins with an
/// opening brace and ends with a closing brace; it is then returned
/// unchanged.
pub proof fn lemma_accepted_iff_braced(tokens: Seq<Token>)
    ensures
        validate(tokens) is Ok <==> tokens.len() > 0 && tokens.first() == Token::OpenBrace
            && tokens.last() == Token::CloseBrace,
        validate(tokens) matches Ok(validated) ==> validated == tokens,
{
}

/// Validating an empty sequence reports the missing opening brace, never the
/// missing closing brace: the closing check is not reached.
pub proof fn lemma_empty_is_missing_open_brace(tokens: Seq<Token>)
    requires
        tokens.len() == 0,
    ensures
        validate(tokens) matches Err(ValidationError::MissingOpenBrace),
{
}

/// The opening check comes first: a sequence whose first token is not an
/// opening brace is reported as missing its opening brace, whatever follows
/// that token.
pub proof fn lemma_opening_check_precedence(tokens: Seq<Token>)
    requires
        tokens.len() > 0,
        tokens.first() != Token::OpenBrace,
    ensures
        validate(tokens) matches Err(ValidationError::MissingOpenBrace),
{
}

/// A sequence that begins with an opening brace and whose last token is not
/// a closing brace is reported as missing its closing brace.
pub proof fn lemma_closing_check(tokens: Seq<Token>)
    requires
        tokens.len() > 0,
        tokens.first() == Token::OpenBrace,
        tokens.last() != Token::CloseBrace,
    ensures
        validate(tokens) matches Err(ValidationError::MissingCloseBrace),
{
}

/// The states of the validator seen as an automaton that reads the tokens
/// once, front to back.
pub enum ValidatorState {
    /// Nothing has been read yet.
    Start,
    /// The opening brace has been read; the state carries the token read
    /// most recently.
    AwaitingClose(Token),
    /// The sequence ended behind a closing brace. Terminal.
    Accepted,
    /// The sequence is refused for the reason carried. Terminal.
    Rejected(ValidationError),
}

impl ValidatorState {
    /// The state that follows on reading one more token.
    pub open spec fn step(self, token: Token) -> ValidatorState {
        match self {
            ValidatorState::Start => if token == Token::OpenBrace {
                ValidatorState::AwaitingClose(token)
            } else {
                ValidatorState::Rejected(ValidationError::MissingOpenBrace)
            },
            ValidatorState::AwaitingClose(_) => ValidatorState::AwaitingClose(token),
            ValidatorState::Accepted => self,
            ValidatorState::Rejected(_) => self,
        }
    }

    /// The state that follows on reaching the end of the sequence.
    pub open spec fn end(self) -> ValidatorState {
        match self {
            ValidatorState::Start => ValidatorState::Rejected(ValidationError::MissingOpenBrace),
            ValidatorState::AwaitingClose(last) => if last == Token::CloseBrace {
                ValidatorState::Accepted
            } else {
                ValidatorState::Rejected(ValidationError::MissingCloseBrace)
            },
            ValidatorState::Accepted => self,
            ValidatorState::Rejected(_) => self,
        }
    }

    /// The state reached from `Start` once all of `tokens` have been read.
    pub open spec fn after(tokens: Seq<Token>) -> ValidatorState
        decreases tokens.len(),
    {
        if tokens.len() == 0 {
            ValidatorState::Start
        } else {
            ValidatorState::after(tokens.drop_last()).step(tokens.last())
        }
    }
}

/// While tokens are being read the automaton only remembers whether the
/// first one was an opening brace and, if so, which token came last.
pub proof fn lemma_state_after(tokens: Seq<Token>)
    requires
        tokens.len() > 0,
    ensures
        ValidatorState::after(tokens) == if tokens.first() == Token::OpenBrace {
            ValidatorState::AwaitingClose(tokens.last())
        } else {
            ValidatorState::Rejected(ValidationError::MissingOpenBrace)
        },
    decreases tokens.len(),
{
    let front = tokens.drop_last();
    if tokens.len() > 1 {
        lemma_state_after(front);
        assert(front.first() == tokens.first());
    } else {
        assert(ValidatorState::after(front) == ValidatorState::Start);
    }
}

/// The automaton and the two checks agree: reading a sequence to its end
/// leaves the automaton in `Accepted` exactly when the sequence validates,
/// and else in `Rejected` with the error that validation reports.
pub proof fn lemma_automaton_agrees(tokens: Seq<Token>)
    ensures
        ValidatorState::after(tokens).end() == match validate(tokens) {
            Ok(_) => ValidatorState::Accepted,
            Err(error) => ValidatorState::Rejected(error),
        },
{
    if tokens.len() > 0 {
        lemma_state_after(tokens);
    }
}

} // verus!
