use rusth::parser::lexer::{LexError, StrToken, Token};
use rusth::parser::parse;
use rusth::parser::parser::{describe, describe_word, ParseError, Parser};
use rusth::runner::command::{Append, Command, Insert, Pipe, Runnable};

fn word(text: &str) -> Token {
    Token::Str(StrToken { content: text.to_string() })
}

fn command(args: &[&str]) -> Command {
    Command::new(args.iter().map(|a| a.to_string()).collect())
}

#[test]
fn words_parse_to_a_command() {
    assert_eq!(parse("echo hello world"), Ok(Runnable::Cmd(command(&["echo", "hello", "world"]))));
}

#[test]
fn quoted_segment_is_one_argument() {
    match parse("echo \"a b\" c") {
        Ok(Runnable::Cmd(cmd)) => {
            assert_eq!(cmd.args, vec!["echo".to_string(), "a b".to_string(), "c".to_string()])
        }
        other => panic!("not a command: {:?}", other),
    }
}

#[test]
fn quoted_newline_reaches_the_argument() {
    match parse("echo \"a\\nb\"") {
        Ok(Runnable::Cmd(cmd)) => assert_eq!(cmd.args[1], "a\nb"),
        other => panic!("not a command: {:?}", other),
    }
}

#[test]
fn empty_line_parses_to_the_empty_command() {
    assert_eq!(parse(""), Ok(Runnable::Cmd(command(&[]))));
    assert_eq!(parse("  \t "), Ok(Runnable::Cmd(command(&[]))));
}

#[test]
fn unclosed_quote_fails_the_parse() {
    assert_eq!(parse("echo \"abc"), Err(ParseError::Lex(LexError::UnterminatedQuote)));
}

#[test]
fn two_stages_parse_to_a_pipe() {
    assert_eq!(
        parse("ls -l | wc -l"),
        Ok(Runnable::Pipe(Pipe::new(command(&["ls", "-l"]), command(&["wc", "-l"]))))
    );
}

#[test]
fn pipe_sides_may_be_empty() {
    assert_eq!(parse("| wc"), Ok(Runnable::Pipe(Pipe::new(command(&[]), command(&["wc"])))));
    assert_eq!(parse("ls |"), Ok(Runnable::Pipe(Pipe::new(command(&["ls"]), command(&[])))));
}

#[test]
fn third_stage_is_rejected() {
    assert_eq!(parse("a | b | c"), Err(ParseError::TooManyStages(Token::Pipe)));
    assert_eq!(parse("a | b > f"), Err(ParseError::TooManyStages(Token::Insert)));
    assert_eq!(parse("a | b >> f"), Err(ParseError::TooManyStages(Token::Append)));
    assert_eq!(parse("a | b < f"), Err(ParseError::TooManyStages(Token::From)));
}

#[test]
fn insert_takes_one_file_name() {
    assert_eq!(
        parse("ls -l > out.txt"),
        Ok(Runnable::Insert(Insert::new(command(&["ls", "-l"]), "out.txt".to_string())))
    );
}

#[test]
fn append_takes_one_file_name() {
    assert_eq!(
        parse("ls >> \"my file\""),
        Ok(Runnable::Append(Append::new(command(&["ls"]), "my file".to_string())))
    );
}

#[test]
fn redirect_without_file_name_is_rejected() {
    assert_eq!(parse("ls >"), Err(ParseError::MissingFilename));
    assert_eq!(parse("ls >>"), Err(ParseError::MissingFilename));
    assert_eq!(parse(">"), Err(ParseError::MissingFilename));
}

#[test]
fn marker_in_place_of_file_name_is_rejected() {
    assert_eq!(parse("ls > | wc"), Err(ParseError::UnexpectedToken(Token::Pipe)));
    assert_eq!(parse("ls >> > f"), Err(ParseError::UnexpectedToken(Token::Insert)));
    assert_eq!(parse("ls > < f"), Err(ParseError::UnexpectedToken(Token::From)));
}

#[test]
fn token_after_file_name_is_rejected() {
    assert_eq!(parse("ls > a b"), Err(ParseError::UnexpectedToken(word("b"))));
    assert_eq!(parse("ls >> a | wc"), Err(ParseError::UnexpectedToken(Token::Pipe)));
}

#[test]
fn from_marker_makes_the_line_inert() {
    assert_eq!(parse("cat < in"), Ok(Runnable::From));
    assert_eq!(parse("<"), Ok(Runnable::From));
    assert_eq!(parse("cat < in | wc > x"), Ok(Runnable::From));
}

#[test]
fn parser_works_on_tokens() {
    let parser = Parser::new(vec![word("a"), Token::Pipe, word("b"), word("c")]);
    assert_eq!(parser.tokens.len(), 4);
    assert_eq!(parser.collect(), Ok(Runnable::Pipe(Pipe::new(command(&["a"]), command(&["b", "c"])))));
    assert_eq!(Parser::new(vec![]).collect(), Ok(Runnable::Cmd(command(&[]))));
}

#[test]
fn messages_name_the_offending_token() {
    assert_eq!(ParseError::Lex(LexError::UnterminatedQuote).message(), "Cannot find closing \"");
    assert_eq!(ParseError::MissingFilename.message(), "Expected token as filename!");
    assert_eq!(ParseError::UnexpectedToken(Token::Pipe).message(), "Unexpected token Pipe");
    assert_eq!(ParseError::UnexpectedToken(Token::Insert).message(), "Unexpected token Insert");
    assert_eq!(ParseError::UnexpectedToken(Token::Append).message(), "Unexpected token Append");
    assert_eq!(ParseError::UnexpectedToken(Token::From).message(), "Unexpected token From");
    assert_eq!(
        ParseError::TooManyStages(Token::Pipe).message(),
        "Unexpected token Pipe, commands more than 2 not implemented, will ignore the rest"
    );
}

#[test]
fn messages_quote_the_text_of_a_word() {
    assert_eq!(
        ParseError::UnexpectedToken(word("a b")).message(),
        "Unexpected token Str(StrToken { content: \"a b\" })"
    );
    assert_eq!(
        ParseError::UnexpectedToken(word("a\"b\n")).message(),
        "Unexpected token Str(StrToken { content: \"a\\\"b\\n\" })"
    );
}

#[test]
fn insert_and_append_differ() {
    let insert = Runnable::Insert(Insert::new(command(&["ls"]), "f".to_string()));
    let append = Runnable::Append(Append::new(command(&["ls"]), "f".to_string()));
    assert_ne!(insert, append);
}

#[test]
fn tokens_are_described_by_name_or_text() {
    assert_eq!(describe(&Token::Pipe), "Pipe");
    assert_eq!(describe(&word("x")), "Str(StrToken { content: \"x\" })");
    assert_eq!(describe_word("\"x y\""), "Str(StrToken { content: \"x y\" })");
    assert_eq!(describe_word(""), "Str(StrToken { content:  })");
}
