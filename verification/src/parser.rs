//! The parser: the face that the validation shows to a caller who holds a
//! text and wants to know whether it is structurally valid.

use crate::lexer::{run_outcome, Lexer};
use vstd::prelude::*;

verus! {

/// A parser bound to the text that it will judge.
pub struct Parser<'a> {
    /// The full text to validate.
    pub file: &'a str,
}

impl<'a> Parser<'a> {
    /// Binds a parser to a text.
    pub fn new(file: &'a str) -> (parser: Self)
        ensures
            parser.file == file,
    {
        Parser { file }
    }

    /// Judges the text: succeeds when it tokenizes and its tokens validate,
    /// else fails with the diagnostic text of the first error. The tokens
    /// themselves are not handed out.
    pub fn parse(&self) -> (outcome: Result<(), String>)
        ensures
            match run_outcome(self.file@) {
                Ok(_) => outcome is Ok,
                Err(diagnostic) => outcome matches Err(message) && message@ == diagnostic,
            },
    {
        match Lexer::run(self.file) {
            Ok(_) => Ok(()),
            Err(message) => Err(message),
        }
    }
}

} // verus!
