use rusth::parser::lexer::{chars_of, LexError, Lexer, StrToken, Token};

fn word(text: &str) -> Token {
    Token::Str(StrToken { content: text.to_string() })
}

fn lex(line: &str) -> Result<Vec<Token>, LexError> {
    let mut lexer = Lexer::new(line);
    lexer.lex_tokens()?;
    Ok(lexer.collect())
}

#[test]
fn chars_of_keeps_every_character() {
    assert_eq!(chars_of("a\u{e9} |"), vec!['a', '\u{e9}', ' ', '|']);
    assert_eq!(chars_of(""), Vec::<char>::new());
}

#[test]
fn empty_line_has_no_tokens() {
    assert_eq!(lex(""), Ok(vec![]));
    assert_eq!(lex("   \t  "), Ok(vec![]));
}

#[test]
fn words_are_split_at_whitespace() {
    assert_eq!(lex("echo hello world"), Ok(vec![word("echo"), word("hello"), word("world")]));
    assert_eq!(lex("  ls\t-l \n"), Ok(vec![word("ls"), word("-l")]));
}

#[test]
fn unicode_whitespace_separates_words() {
    assert_eq!(lex("a\u{a0}b\u{3000}c"), Ok(vec![word("a"), word("b"), word("c")]));
}

#[test]
fn words_keep_characters_beyond_ascii() {
    assert_eq!(lex("caf\u{e9} \u{8d8a}"), Ok(vec![word("caf\u{e9}"), word("\u{8d8a}")]));
}

#[test]
fn quoted_word_keeps_its_whitespace() {
    assert_eq!(lex("echo \"a b\" c"), Ok(vec![word("echo"), word("a b"), word("c")]));
}

#[test]
fn quoted_newline_escape_is_a_newline() {
    let tokens = lex("echo \"a\\nb\"").unwrap();
    assert_eq!(tokens, vec![word("echo"), word("a\nb")]);
    match &tokens[1] {
        Token::Str(t) => assert_eq!(t.content.chars().collect::<Vec<char>>(), vec!['a', '\n', 'b']),
        _ => panic!("the second token is a word"),
    }
}

#[test]
fn quote_and_backslash_escapes_are_resolved() {
    assert_eq!(lex("\"a\\\"b\""), Ok(vec![word("a\"b")]));
    assert_eq!(lex("\"a\\\\b\""), Ok(vec![word("a\\b")]));
}

#[test]
fn other_escapes_keep_their_backslash() {
    assert_eq!(lex("\"a\\tb\""), Ok(vec![word("a\\tb")]));
    assert_eq!(lex("\"\\x\""), Ok(vec![word("\\x")]));
}

#[test]
fn empty_quotes_are_an_empty_word() {
    assert_eq!(lex("\"\""), Ok(vec![word("")]));
}

#[test]
fn quoted_word_ends_at_its_closing_quote() {
    assert_eq!(lex("\"a\"b"), Ok(vec![word("a"), word("b")]));
}

#[test]
fn quote_inside_a_bare_word_belongs_to_it() {
    assert_eq!(lex("a\"b c"), Ok(vec![word("a\"b"), word("c")]));
}

#[test]
fn reserved_characters_are_kept_inside_quotes() {
    assert_eq!(lex("\"a | b > c\""), Ok(vec![word("a | b > c")]));
}

#[test]
fn unclosed_quote_is_an_error() {
    assert_eq!(lex("echo \"abc"), Err(LexError::UnterminatedQuote));
    assert_eq!(lex("\""), Err(LexError::UnterminatedQuote));
}

#[test]
fn backslash_at_the_end_of_a_quote_is_an_error() {
    assert_eq!(lex("\"abc\\"), Err(LexError::UnterminatedQuote));
    assert_eq!(lex("\"abc\\\""), Err(LexError::UnterminatedQuote));
}

#[test]
fn tokens_before_an_unclosed_quote_stay_in_the_lexer() {
    let mut lexer = Lexer::new("a | \"b");
    assert_eq!(lexer.lex_tokens(), Err(LexError::UnterminatedQuote));
    assert_eq!(lexer.collect(), vec![word("a"), Token::Pipe]);
}

#[test]
fn pipe_marker_is_a_token_of_its_own() {
    assert_eq!(lex("a | b"), Ok(vec![word("a"), Token::Pipe, word("b")]));
    assert_eq!(lex("|"), Ok(vec![Token::Pipe]));
}

#[test]
fn markers_end_a_bare_word() {
    assert_eq!(lex("a|b"), Ok(vec![word("a"), Token::Pipe, word("b")]));
    assert_eq!(lex("a>f"), Ok(vec![word("a"), Token::Insert, word("f")]));
    assert_eq!(lex("a>>f"), Ok(vec![word("a"), Token::Append, word("f")]));
    assert_eq!(lex("a<f"), Ok(vec![word("a"), Token::From, word("f")]));
}

#[test]
fn insert_append_and_from_markers() {
    assert_eq!(lex("ls > out"), Ok(vec![word("ls"), Token::Insert, word("out")]));
    assert_eq!(lex("ls >> out"), Ok(vec![word("ls"), Token::Append, word("out")]));
    assert_eq!(lex("cat < in"), Ok(vec![word("cat"), Token::From, word("in")]));
    assert_eq!(lex(">>>"), Ok(vec![Token::Append, Token::Insert]));
    assert_eq!(lex("> >"), Ok(vec![Token::Insert, Token::Insert]));
}

#[test]
fn lexing_goes_on_from_where_it_stands() {
    let mut lexer = Lexer::new("a b");
    assert_eq!(lexer.lex_tokens(), Ok(()));
    assert_eq!(lexer.lex_tokens(), Ok(()));
    assert_eq!(lexer.tokens, vec![word("a"), word("b")]);
    assert_eq!(lexer.loc, 3);
}

#[test]
fn new_lexer_stands_at_the_start() {
    let lexer = Lexer::new("x y");
    assert_eq!(lexer.line, "x y");
    assert_eq!(lexer.loc, 0);
    assert_eq!(lexer.chars, vec!['x', ' ', 'y']);
    assert!(lexer.tokens.is_empty());
}

#[test]
fn lex_error_has_a_message() {
    assert_eq!(LexError::UnterminatedQuote.message(), "Cannot find closing \"");
}
