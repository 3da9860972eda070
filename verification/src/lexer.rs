//! The lexer: the entry point that tokenizes a text and validates the token
//! sequence in one run.

use crate::error::{
    lemma_diagnostics_disjoint, lemma_tokenize_diagnostic_injective,
    lemma_validation_diagnostic_injective, TokenizeError, ValidationError,
};
use crate::token::Token;
use crate::tokenizer::tokenize;
use crate::validator::validate;
use vstd::prelude::*;

verus! {

/// Lexical analysis of a text. The type carries no state: it is the place
/// where the tokenizer, the validator and their composition are found.
pub struct Lexer;

/// The outcome of a run on a text: its validated token sequence, or the
/// diagnostic of the first error met. Tokenization comes first, so a text
/// that cannot be tokenized is never validated.
pub open spec fn run_outcome(text: Seq<char>) -> Result<Seq<Token>, Seq<char>> {
    match tokenize(text) {
        Err(error) => Err(error.diagnostic()),
        Ok(tokens) => match validate(tokens) {
            Err(error) => Err(error.diagnostic()),
            Ok(validated) => Ok(validated),
        },
    }
}

impl Lexer {
    /// Tokenizes the text and validates its tokens. Returns the validated
    /// token sequence, or the diagnostic text of the first error.
    pub fn run(file: &str) -> (outcome: Result<Vec<Token>, String>)
        ensures
            match run_outcome(file@) {
                Ok(tokens) => outcome matches Ok(validated) && validated@ == tokens,
                Err(diagnostic) => outcome matches Err(message) && message@ == diagnostic,
            },
    {
        match Lexer::gather_tokens(file) {
            Err(error) => Err(error.message()),
            Ok(tokens) => match Lexer::analyse(tokens) {
                Err(error) => Err(error.message()),
                Ok(validated) => Ok(validated),
            },
        }
    }
}

/// Determinism: the outcome of a run depends on the text alone. Whatever two
/// runs on the same text return, both succeed with the same tokens or both
/// fail with the same diagnostic.
pub proof fn lemma_run_is_deterministic(
    first_text: &str,
    second_text: &str,
    first: Result<Vec<Token>, String>,
    second: Result<Vec<Token>, String>,
)
    requires
        first_text@ == second_text@,
        call_ensures(Lexer::run, (first_text,), first),
        call_ensures(Lexer::run, (second_text,), second),
    ensures
        first is Ok <==> second is Ok,
        first matches Ok(a) ==> second matches Ok(b) && a@ == b@,
        first matches Err(a) ==> second matches Err(b) && a@ == b@,
{
}

/// The diagnostic of a failed run tells which error ended it. A run fails
/// with the diagnostic of a tokenization error exactly when tokenization
/// fails with that error, and with the diagnostic of a validation error
/// exactly when the text tokenizes and its tokens fail validation with that
/// error.
pub proof fn lemma_diagnostic_tells_the_error(text: Seq<char>)
    ensures
        run_outcome(text) is Ok <==> (tokenize(text) matches Ok(tokens) && validate(tokens) is Ok),
        forall|error: TokenizeError|
            (run_outcome(text) matches Err(diagnostic) && diagnostic == #[trigger] error.diagnostic()) <==> (
            tokenize(text) matches Err(met) && met == error),
        forall|error: ValidationError|
            (run_outcome(text) matches Err(diagnostic) && diagnostic == #[trigger] error.diagnostic()) <==> (
            tokenize(text) matches Ok(tokens) && validate(tokens) matches Err(met) && met == error),
{
    assert forall|error: TokenizeError|
        run_outcome(text) matches Err(diagnostic) && diagnostic == #[trigger] error.diagnostic() implies (
    tokenize(text) matches Err(met) && met == error) by {
        match tokenize(text) {
            Err(met) => lemma_tokenize_diagnostic_injective(met, error),
            Ok(tokens) => lemma_diagnostics_disjoint(error, validate(tokens)->Err_0),
        }
    }
    assert forall|error: ValidationError|
        run_outcome(text) matches Err(diagnostic) && diagnostic == #[trigger] error.diagnostic() implies (
    tokenize(text) matches Ok(tokens) && validate(tokens) matches Err(met) && met == error) by {
        match tokenize(text) {
            Err(met) => lemma_diagnostics_disjoint(met, error),
            Ok(tokens) => lemma_validation_diagnostic_injective(validate(tokens)->Err_0, error),
        }
    }
}

} // verus!
