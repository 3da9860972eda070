//! Structural validation of JSON text in two stages: a tokenizer that turns
//! raw characters into structural tokens, and a validator that checks the
//! outer shape of the token sequence.
//!
//! [`Lexer::gather_tokens`] is the tokenizer and [`Lexer::analyse`] the
//! validator; [`Lexer::run`] chains the two, and [`Parser`] wraps a run for a
//! caller who only wants to know whether a text is valid.

pub mod error;
pub mod lexer;
pub mod lines;
pub mod parser;
pub mod token;
pub mod tokenizer;
pub mod validator;

pub use error::{TokenizeError, ValidationError};
pub use lexer::Lexer;
pub use parser::Parser;
pub use token::Token;
