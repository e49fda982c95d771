//! The parser: from tokens to a runnable.
//!
//! The leading words are a command. A pipe marker is followed by the words of a
//! second command and nothing else; a line with a third stage is rejected as a
//! whole. An insert or append marker is followed by exactly one word, the name
//! of a file. A from marker makes the line inert, whatever stands around it.

use vstd::prelude::*;
use vstd::string::StringExecFns;
use crate::parser::lexer::{lex_error_text, token_views, LexError, StrToken, Token, TokenView};
use crate::runner::command::{Append, Command, Insert, Pipe, RedirectView, Runnable, RunnableView, texts};

verus! {

/// What `format!` with `{:?}` writes for a string: the text between double
/// quotes, with the characters escaped that the standard library escapes.
pub uninterp spec fn debug_text(text: Seq<char>) -> Seq<char>;

/// `format!` with `{:?}` on a `str`, which writes it as a quoted and escaped
/// literal. The text written depends on the string alone and is named
/// [`debug_text`].
#[verifier::external_body]
fn quote_text(text: &str) -> (quoted: String)
    ensures
        quoted@ == debug_text(text@),
{
    format!("{:?}", text)
}

/// Why a sequence of tokens is no runnable.
#[derive(Debug, Clone, PartialEq, Eq)]
pub enum ParseError {
    /// The line could not be lexed.
    Lex(LexError),
    /// An insert or append marker with nothing after it.
    MissingFilename,
    /// A marker where the name of a file is expected, or any token after it.
    UnexpectedToken(Token),
    /// The token that ends the second command of a pipe.
    TooManyStages(Token),
}

/// A parse error as a mathematical value.
pub enum ParseErrorView {
    Lex(LexError),
    MissingFilename,
    UnexpectedToken(TokenView),
    TooManyStages(TokenView),
}

impl View for ParseError {
    type V = ParseErrorView;

    open spec fn view(&self) -> ParseErrorView {
        match *self {
            ParseError::Lex(e) => ParseErrorView::Lex(e),
            ParseError::MissingFilename => ParseErrorView::MissingFilename,
            ParseError::UnexpectedToken(t) => ParseErrorView::UnexpectedToken(t@),
            ParseError::TooManyStages(t) => ParseErrorView::TooManyStages(t@),
        }
    }
}

/// The result of parsing as a mathematical value.
pub open spec fn parsed_view(r: Result<Runnable, ParseError>) -> Result<
    RunnableView,
    ParseErrorView,
> {
    match r {
        Ok(runnable) => Ok(runnable@),
        Err(e) => Err(e@),
    }
}

/// How a word is written in a message, given its text as a quoted literal.
pub open spec fn word_text(quoted: Seq<char>) -> Seq<char> {
    "Str(StrToken { content: "@ + quoted + " })"@
}

/// How a token is written in a message: a marker by its name, a word by its
/// text as a quoted literal.
pub open spec fn token_text(token: TokenView) -> Seq<char> {
    match token {
        TokenView::Word(text) => word_text(debug_text(text)),
        TokenView::Pipe => "Pipe"@,
        TokenView::Insert => "Insert"@,
        TokenView::Append => "Append"@,
        TokenView::From => "From"@,
    }
}

/// The message of a parse error.
pub open spec fn message_text(e: ParseErrorView) -> Seq<char> {
    match e {
        ParseErrorView::Lex(e) => lex_error_text(e),
        ParseErrorView::MissingFilename => "Expected token as filename!"@,
        ParseErrorView::UnexpectedToken(t) => "Unexpected token "@ + token_text(t),
        ParseErrorView::TooManyStages(t) => "Unexpected token "@ + token_text(t)
            + ", commands more than 2 not implemented, will ignore the rest"@,
    }
}

/// Writes a word as messages show it, given its text as a quoted literal.
pub fn describe_word(quoted: &str) -> (text: String)
    ensures
        text@ == word_text(quoted@),
{
    let mut text = String::from_str("Str(StrToken { content: ");
    text.append(quoted);
    text.append(" })");
    text
}

/// Writes a token as messages show it.
pub fn describe(token: &Token) -> (text: String)
    ensures
        text@ == token_text(token@),
{
    match token {
        Token::Str(t) => {
            let quoted = quote_text(t.content.as_str());
            describe_word(quoted.as_str())
        },
        Token::Pipe => String::from_str("Pipe"),
        Token::Insert => String::from_str("Insert"),
        Token::Append => String::from_str("Append"),
        Token::From => String::from_str("From"),
    }
}

impl ParseError {
    /// The message shown to the user, naming the offending token where there
    /// is one.
    pub fn message(&self) -> (text: String)
        ensures
            text@ == message_text(self@),
    {
        match self {
            ParseError::Lex(e) => e.message(),
            ParseError::MissingFilename => String::from_str("Expected token as filename!"),
            ParseError::UnexpectedToken(t) => {
                let mut text = String::from_str("Unexpected token ");
                let shown = describe(t);
                text.append(shown.as_str());
                text
            },
            ParseError::TooManyStages(t) => {
                let mut text = String::from_str("Unexpected token ");
                let shown = describe(t);
                text.append(shown.as_str());
                text.append(", commands more than 2 not implemented, will ignore the rest");
                text
            },
        }
    }
}

/// The first position from `i` on that holds no word, or the number of tokens
/// where there is none.
pub open spec fn words_end(tokens: Seq<TokenView>, i: int) -> int
    decreases tokens.len() - i,
{
    if 0 <= i < tokens.len() && tokens[i] is Word {
        words_end(tokens, i + 1)
    } else {
        i
    }
}

/// The texts of the tokens from `from` up to `to`, which are words.
pub open spec fn words(tokens: Seq<TokenView>, from: int, to: int) -> Seq<Seq<char>> {
    Seq::new((to - from) as nat, |k: int| tokens[from + k]->Word_0)
}

/// What follows an insert or append marker at `at`: one word, the file's name,
/// and then the end of the line.
pub open spec fn parse_redirect(
    tokens: Seq<TokenView>,
    at: int,
    cmd: Seq<Seq<char>>,
    append: bool,
) -> Result<RunnableView, ParseErrorView> {
    if at + 1 >= tokens.len() {
        Err(ParseErrorView::MissingFilename)
    } else {
        match tokens[at + 1] {
            TokenView::Word(target) => if at + 2 < tokens.len() {
                Err(ParseErrorView::UnexpectedToken(tokens[at + 2]))
            } else {
                Ok(RunnableView::Redirect(RedirectView { cmd, target, append }))
            },
            other => Err(ParseErrorView::UnexpectedToken(other)),
        }
    }
}

/// What a sequence of tokens parses to.
pub open spec fn parse_tokens(tokens: Seq<TokenView>) -> Result<RunnableView, ParseErrorView> {
    let n = words_end(tokens, 0);
    let first = words(tokens, 0, n);
    if n >= tokens.len() {
        Ok(RunnableView::Cmd(first))
    } else {
        match tokens[n] {
            TokenView::Pipe => {
                let m = words_end(tokens, n + 1);
                if m >= tokens.len() {
                    Ok(RunnableView::Pipe { from: first, to: words(tokens, n + 1, m) })
                } else {
                    Err(ParseErrorView::TooManyStages(tokens[m]))
                }
            },
            TokenView::Insert => parse_redirect(tokens, n, first, false),
            TokenView::Append => parse_redirect(tokens, n, first, true),
            TokenView::From => Ok(RunnableView::From),
            TokenView::Word(_) => Ok(RunnableView::Cmd(first)),
        }
    }
}

/// `words_end` moves forward, stays inside the tokens, passes only words and
/// stops at the end or before a marker.
pub proof fn lemma_words_end(tokens: Seq<TokenView>, i: int)
    requires
        0 <= i <= tokens.len(),
    ensures
        i <= words_end(tokens, i) <= tokens.len(),
        forall|k: int| i <= k < words_end(tokens, i) ==> #[trigger] tokens[k] is Word,
        words_end(tokens, i) < tokens.len() ==> !(tokens[words_end(tokens, i)] is Word),
    decreases tokens.len() - i,
{
    if i < tokens.len() && tokens[i] is Word {
        lemma_words_end(tokens, i + 1);
    }
}

/// A copy of a token.
fn copy_token(token: &Token) -> (copy: Token)
    ensures
        copy@ == token@,
{
    match token {
        Token::Str(t) => Token::Str(StrToken { content: t.content.clone() }),
        Token::Pipe => Token::Pipe,
        Token::Insert => Token::Insert,
        Token::Append => Token::Append,
        Token::From => Token::From,
    }
}

/// A parser over the tokens of one line.
pub struct Parser {
    pub tokens: Vec<Token>,
}

impl View for Parser {
    type V = Seq<TokenView>;

    open spec fn view(&self) -> Seq<TokenView> {
        token_views(self.tokens@)
    }
}

impl Parser {
    pub fn new(tokens: Vec<Token>) -> (parser: Parser)
        ensures
            parser.tokens == tokens,
    {
        Parser { tokens }
    }

    /// The token at `at`: the text of a word, or the marker itself, or neither
    /// at the end of the tokens.
    fn collect_single(tokens: &Vec<Token>, at: usize) -> (r: (Option<String>, Option<Token>))
        ensures
            at >= tokens.len() ==> r.0 is None && r.1 is None,
            at < tokens.len() ==> match tokens@[at as int]@ {
                TokenView::Word(text) => r.1 is None && (r.0 matches Some(s) && s@ == text),
                other => r.0 is None && (r.1 matches Some(t) && t@ == other),
            },
    {
        if at < tokens.len() {
            match &tokens[at] {
                Token::Str(t) => (Some(t.content.clone()), None),
                other => (None, Some(copy_token(other))),
            }
        } else {
            (None, None)
        }
    }

    /// The words that stand from `from` on, and the position after them.
    fn collect_items(tokens: &Vec<Token>, from: usize) -> (r: (Vec<String>, usize))
        requires
            from <= tokens.len(),
        ensures
            from <= r.1 <= tokens.len(),
            r.1 == words_end(token_views(tokens@), from as int),
            texts(r.0@) == words(token_views(tokens@), from as int, r.1 as int),
    {
        let mut items: Vec<String> = Vec::new();
        let mut i: usize = from;
        let mut in_words = true;
        let ghost views = token_views(tokens@);
        while in_words && i < tokens.len()
            invariant
                from <= i <= tokens.len(),
                !in_words ==> i < tokens.len() && !(views[i as int] is Word),
                views == token_views(tokens@),
                words_end(views, i as int) == words_end(views, from as int),
                items@.len() == i - from,
                forall|k: int| 0 <= k < items@.len() ==> #[trigger] items@[k]@ == views[from + k]->Word_0,
            decreases tokens.len() - i + (if in_words { 1int } else { 0int }),
        {
            match &tokens[i] {
                Token::Str(t) => {
                    items.push(t.content.clone());
                    i += 1;
                },
                _ => {
                    in_words = false;
                },
            }
        }
        assert(texts(items@) =~= words(views, from as int, i as int));
        (items, i)
    }

    /// Builds the runnable that the tokens stand for, or says which token is in
    /// the way.
    pub fn collect(self) -> (r: Result<Runnable, ParseError>)
        ensures
            parsed_view(r) == parse_tokens(self@),
    {
        let tokens = self.tokens;
        let ghost views = token_views(tokens@);
        proof {
            lemma_words_end(views, 0);
        }
        let (items, n) = Parser::collect_items(&tokens, 0);
        if n >= tokens.len() {
            return Ok(Runnable::Cmd(Command::new(items)));
        }
        match &tokens[n] {
            Token::Pipe => {
                proof {
                    lemma_words_end(views, n + 1);
                }
                let (items_next, m) = Parser::collect_items(&tokens, n + 1);
                if m >= tokens.len() {
                    Ok(Runnable::Pipe(Pipe::new(Command::new(items), Command::new(items_next))))
                } else {
                    Err(ParseError::TooManyStages(copy_token(&tokens[m])))
                }
            },
            Token::Insert => {
                match Parser::collect_single(&tokens, n + 1) {
                    (Some(file_name), _) => {
                        if n + 2 < tokens.len() {
                            Err(ParseError::UnexpectedToken(copy_token(&tokens[n + 2])))
                        } else {
                            Ok(Runnable::Insert(Insert::new(Command::new(items), file_name)))
                        }
                    },
                    (None, Some(token)) => Err(ParseError::UnexpectedToken(token)),
                    (None, None) => Err(ParseError::MissingFilename),
                }
            },
            Token::Append => {
                match Parser::collect_single(&tokens, n + 1) {
                    (Some(file_name), _) => {
                        if n + 2 < tokens.len() {
                            Err(ParseError::UnexpectedToken(copy_token(&tokens[n + 2])))
                        } else {
                            Ok(Runnable::Append(Append::new(Command::new(items), file_name)))
                        }
                    },
                    (None, Some(token)) => Err(ParseError::UnexpectedToken(token)),
                    (None, None) => Err(ParseError::MissingFilename),
                }
            },
            Token::From => Ok(Runnable::From),
            Token::Str(_) => Ok(Runnable::Cmd(Command::new(items))),
        }
    }
}

/// Words as tokens.
pub open spec fn word_tokens(texts: Seq<Seq<char>>) -> Seq<TokenView> {
    Seq::new(texts.len(), |k: int| TokenView::Word(texts[k]))
}

/// The marker of a redirection.
pub open spec fn redirect_marker(append: bool) -> TokenView {
    if append {
        TokenView::Append
    } else {
        TokenView::Insert
    }
}

/// The tokens that a runnable is written with. A from marker stands for
/// itself alone.
pub open spec fn tokens_of(runnable: RunnableView) -> Seq<TokenView> {
    match runnable {
        RunnableView::Cmd(args) => word_tokens(args),
        RunnableView::Pipe { from, to } => word_tokens(from).push(TokenView::Pipe) + word_tokens(
            to,
        ),
        RunnableView::Redirect(r) => word_tokens(r.cmd).push(redirect_marker(r.append)).push(
            TokenView::Word(r.target),
        ),
        RunnableView::From => seq![TokenView::From],
    }
}

/// The words between two positions, as tokens, are the tokens between them.
proof fn lemma_words_are_the_tokens(tokens: Seq<TokenView>, from: int, to: int)
    requires
        0 <= from <= to <= tokens.len(),
        forall|k: int| from <= k < to ==> #[trigger] tokens[k] is Word,
    ensures
        word_tokens(words(tokens, from, to)) == tokens.subrange(from, to),
{
    assert(word_tokens(words(tokens, from, to)) =~= tokens.subrange(from, to));
}

/// The parser drops nothing: a line that parses to a command, a pipe or a
/// redirection is made of exactly the tokens that the result is written with.
/// So a pipe has its two commands and one marker and nothing else, and a
/// redirection ends with its marker and exactly one word, the file's name.
/// Only the from marker, which makes a line inert, lets the other tokens go.
pub proof fn lemma_parse_drops_nothing(tokens: Seq<TokenView>)
    ensures
        match parse_tokens(tokens) {
            Ok(RunnableView::From) => exists|k: int|
                0 <= k < tokens.len() && #[trigger] tokens[k] == TokenView::From,
            Ok(runnable) => tokens == tokens_of(runnable),
            Err(_) => true,
        },
{
    lemma_words_end(tokens, 0);
    let n = words_end(tokens, 0);
    let len = tokens.len() as int;
    lemma_words_are_the_tokens(tokens, 0, n);
    if n < len {
        match tokens[n] {
            TokenView::Pipe => {
                lemma_words_end(tokens, n + 1);
                let m = words_end(tokens, n + 1);
                if m >= len {
                    lemma_words_are_the_tokens(tokens, n + 1, len);
                    assert(tokens =~= tokens.subrange(0, n).push(TokenView::Pipe)
                        + tokens.subrange(n + 1, len));
                }
            },
            TokenView::Insert | TokenView::Append => {
                if n + 2 == len && tokens[n + 1] is Word {
                    assert(tokens =~= tokens.subrange(0, n).push(tokens[n]).push(tokens[n + 1]));
                }
            },
            TokenView::From => {
                assert(tokens[n] == TokenView::From);
            },
            TokenView::Word(_) => {},
        }
    } else {
        assert(tokens =~= tokens.subrange(0, n));
    }
}

/// Parsing undoes writing: the tokens that a command, a pipe or a redirection
/// is written with parse to it.
pub proof fn lemma_parse_of_written(runnable: RunnableView)
    requires
        !(runnable is From),
    ensures
        parse_tokens(tokens_of(runnable)) == Ok::<RunnableView, ParseErrorView>(runnable),
{
    let tokens = tokens_of(runnable);
    lemma_words_end(tokens, 0);
    match runnable {
        RunnableView::Cmd(args) => {
            assert(words(tokens, 0, tokens.len() as int) =~= args);
        },
        RunnableView::Pipe { from, to } => {
            let n = from.len() as int;
            lemma_words_end(tokens, n + 1);
            assert(tokens[n] == TokenView::Pipe);
            assert(forall|k: int| 0 <= k < n ==> #[trigger] tokens[k] is Word);
            assert(forall|k: int| n < k < tokens.len() ==> #[trigger] tokens[k] is Word);
            assert(words_end(tokens, 0) == n);
            assert(words_end(tokens, n + 1) == tokens.len());
            assert(words(tokens, 0, n) =~= from);
            assert(words(tokens, n + 1, tokens.len() as int) =~= to);
        },
        RunnableView::Redirect(r) => {
            let n = r.cmd.len() as int;
            assert(tokens[n] == redirect_marker(r.append));
            assert(tokens[n + 1] == TokenView::Word(r.target));
            assert(forall|k: int| 0 <= k < n ==> #[trigger] tokens[k] is Word);
            assert(words_end(tokens, 0) == n);
            assert(words(tokens, 0, n) =~= r.cmd);
        },
        RunnableView::From => {},
    }
}

} // verus!
