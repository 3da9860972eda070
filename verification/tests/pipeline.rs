use json_parser::error::{TokenizeError, ValidationError};
use json_parser::lexer::Lexer;
use json_parser::parser::Parser;
use json_parser::token::Token;

#[test]
fn pair_of_braces_is_valid() {
    let tokens = Lexer::gather_tokens("{}").unwrap();
    assert_eq!(tokens, vec![Token::OpenBrace, Token::CloseBrace]);
    assert_eq!(Lexer::analyse(tokens), Ok(vec![Token::OpenBrace, Token::CloseBrace]));
    assert_eq!(Lexer::run("{}"), Ok(vec![Token::OpenBrace, Token::CloseBrace]));
    assert_eq!(Parser::new("{}").parse(), Ok(()));
}

#[test]
fn lone_opening_brace_misses_its_closing_brace() {
    let tokens = Lexer::gather_tokens("{").unwrap();
    assert_eq!(tokens, vec![Token::OpenBrace]);
    assert_eq!(Lexer::analyse(tokens), Err(ValidationError::MissingCloseBrace));
    assert_eq!(Lexer::run("{"), Err(String::from("missing `}` at last position")));
    assert_eq!(Parser::new("{").parse(), Err(String::from("missing `}` at last position")));
}

#[test]
fn lone_closing_brace_misses_its_opening_brace() {
    let tokens = Lexer::gather_tokens("}").unwrap();
    assert_eq!(tokens, vec![Token::CloseBrace]);
    assert_eq!(Lexer::analyse(tokens), Err(ValidationError::MissingOpenBrace));
    assert_eq!(Lexer::run("}"), Err(String::from("missing `{` at position 0")));
    assert_eq!(Parser::new("}").parse(), Err(String::from("missing `{` at position 0")));
}

#[test]
fn empty_text_misses_its_opening_brace() {
    let tokens = Lexer::gather_tokens("").unwrap();
    assert_eq!(tokens, vec![]);
    assert_eq!(Lexer::analyse(tokens), Err(ValidationError::MissingOpenBrace));
    assert_eq!(Lexer::run(""), Err(String::from("missing `{` at position 0")));
    assert_eq!(Parser::new("").parse(), Err(String::from("missing `{` at position 0")));
}

#[test]
fn unsupported_character_stops_before_validation() {
    assert_eq!(Lexer::gather_tokens("{x}"), Err(TokenizeError::Unsupported('x')));
    assert_eq!(Lexer::run("{x}"), Err(String::from("Unrecognised token, x")));
    assert_eq!(Parser::new("{x}").parse(), Err(String::from("Unrecognised token, x")));
}

#[test]
fn tokenization_errors_come_before_validation_errors() {
    // The tokens read before the bad character would not validate either.
    assert_eq!(Lexer::run("}x"), Err(String::from("Unrecognised token, x")));
    assert_eq!(Lexer::run("x"), Err(String::from("Unrecognised token, x")));
    assert_eq!(Lexer::run("{ "), Err(String::from("Unrecognised token,  ")));
}

#[test]
fn run_hands_back_the_validated_tokens() {
    assert_eq!(
        Lexer::run("{{}}"),
        Ok(vec![Token::OpenBrace, Token::OpenBrace, Token::CloseBrace, Token::CloseBrace])
    );
    assert_eq!(
        Lexer::run("{\r\n}\n"),
        Ok(vec![Token::OpenBrace, Token::CloseBrace])
    );
}

#[test]
fn run_is_gather_tokens_then_analyse() {
    let texts = ["", "{", "}", "{}", "}{", "{}{", "{{}", "{}}", "{x}", "{\n}", "\r", "{\r\n"];
    for text in texts {
        let staged = match Lexer::gather_tokens(text) {
            Err(error) => Err(error.message()),
            Ok(tokens) => Lexer::analyse(tokens).map_err(|error| error.message()),
        };
        assert_eq!(Lexer::run(text), staged, "text {:?}", text);
    }
}

#[test]
fn running_twice_gives_the_same_outcome() {
    let texts = ["", "{", "}", "{}", "}{", "{x}", "{\n}", "{\r}", "{{}}"];
    for text in texts {
        let first = Lexer::run(text);
        let second = Lexer::run(&String::from(text));
        assert_eq!(first, second);
        assert_eq!(Parser::new(text).parse(), Parser::new(text).parse());
    }
}

#[test]
fn only_the_outer_braces_matter() {
    assert_eq!(Parser::new("{{}").parse(), Ok(()));
    assert_eq!(Parser::new("{}}").parse(), Ok(()));
    assert_eq!(Parser::new("{}{}").parse(), Ok(()));
    assert_eq!(Parser::new("{}{").parse(), Err(String::from("missing `}` at last position")));
    assert_eq!(Parser::new("}{}").parse(), Err(String::from("missing `{` at position 0")));
    assert_eq!(Parser::new("}{").parse(), Err(String::from("missing `{` at position 0")));
}

#[test]
fn text_of_line_endings_alone_is_empty() {
    assert_eq!(Parser::new("\n").parse(), Err(String::from("missing `{` at position 0")));
    assert_eq!(Parser::new("\r\n\r\n").parse(), Err(String::from("missing `{` at position 0")));
}

#[test]
fn parser_keeps_its_text() {
    let text = String::from("{}\n");
    let parser = Parser::new(&text);
    assert_eq!(parser.file, "{}\n");
    assert_eq!(parser.parse(), Ok(()));
}

#[test]
fn parse_agrees_with_run() {
    let texts = ["", "{", "}", "{}", "}{", "{x}", "{\n}", "{\r}", "{{}}", "{ }"];
    for text in texts {
        assert_eq!(Parser::new(text).parse(), Lexer::run(text).map(|_| ()));
    }
}

#[test]
fn diagnostics_tell_the_errors_apart() {
    let texts = [
        ValidationError::MissingOpenBrace.message(),
        ValidationError::MissingCloseBrace.message(),
        TokenizeError::Unsupported('0').message(),
        TokenizeError::Unsupported('{').message(),
        TokenizeError::Unsupported('}').message(),
    ];
    for (i, first) in texts.iter().enumerate() {
        for (j, second) in texts.iter().enumerate() {
            assert_eq!(first == second, i == j);
        }
    }
}
