//! From a line of text to a runnable command.

pub mod lexer;
pub mod parser;

use vstd::prelude::*;
use crate::parser::lexer::{
    ends_word, is_reserved, is_whitespace_char, lemma_skip_blank, lemma_token_at_end,
    lemma_word_end, lex, lex_from, skip_blank, token_at, word_end, Lexer, TokenView,
};
use crate::parser::parser::{
    lemma_words_end, parse_tokens, parsed_view, word_tokens, words, ParseError, ParseErrorView,
    Parser,
};
use crate::runner::command::{Runnable, RunnableView};

verus! {

/// What a line parses to: the error of the lexer where lexing fails, else what
/// its tokens parse to.
pub open spec fn parse_line(line: Seq<char>) -> Result<RunnableView, ParseErrorView> {
    match lex(line) {
        Ok(tokens) => parse_tokens(tokens),
        Err(e) => Err(ParseErrorView::Lex(e)),
    }
}

/// Lexes and parses one line. Nothing is run.
pub fn parse(line: &str) -> (r: Result<Runnable, ParseError>)
    ensures
        parsed_view(r) == parse_line(line@),
{
    let mut lexer = Lexer::new(line);
    assert(Seq::<TokenView>::empty() + lex_from(line@, 0).tokens =~= lex_from(line@, 0).tokens);
    match lexer.lex_tokens() {
        Err(e) => Err(ParseError::Lex(e)),
        Ok(()) => {
            let parser = Parser::new(lexer.collect());
            parser.collect()
        },
    }
}

/// The first position from `i` on that holds whitespace, or the length of `s`
/// where there is none.
pub open spec fn blank_from(s: Seq<char>, i: int) -> int
    decreases s.len() - i,
{
    if 0 <= i < s.len() && !is_whitespace_char(s[i]) {
        blank_from(s, i + 1)
    } else {
        i
    }
}

/// The runs of `s` from `i` on that hold no whitespace and that whitespace or
/// an end of the line bounds on both sides, in order.
pub open spec fn split_whitespace(s: Seq<char>, i: int) -> Seq<Seq<char>>
    decreases s.len() - i,
{
    let j = skip_blank(s, i);
    let e = blank_from(s, j);
    if i < 0 || j < i || j >= s.len() || e <= j || e > s.len() {
        Seq::empty()
    } else {
        seq![s.subrange(j, e)] + split_whitespace(s, e)
    }
}

/// No character of `s` is a marker or begins one.
pub open spec fn no_reserved(s: Seq<char>) -> bool {
    forall|k: int| 0 <= k < s.len() ==> !is_reserved(#[trigger] s[k])
}

/// No character of `s` is a double quote.
pub open spec fn no_quote(s: Seq<char>) -> bool {
    forall|k: int| 0 <= k < s.len() ==> #[trigger] s[k] != '"'
}

/// Tokens that are all words parse to a plain command with those words as
/// its arguments.
pub proof fn lemma_words_parse_to_command(tokens: Seq<TokenView>)
    requires
        forall|k: int| 0 <= k < tokens.len() ==> #[trigger] tokens[k] is Word,
    ensures
        parse_tokens(tokens) == Ok::<RunnableView, ParseErrorView>(
            RunnableView::Cmd(words(tokens, 0, tokens.len() as int)),
        ),
{
    lemma_words_end(tokens, 0);
}

/// Without a reserved character in the line, every token read is a word.
pub proof fn lemma_unreserved_lexes_to_words(s: Seq<char>, i: int)
    requires
        no_reserved(s),
        0 <= i <= s.len(),
    ensures
        forall|k: int|
            0 <= k < lex_from(s, i).tokens.len() ==> #[trigger] lex_from(s, i).tokens[k] is Word,
    decreases s.len() - i,
{
    lemma_skip_blank(s, i);
    let j = skip_blank(s, i);
    if j < s.len() {
        lemma_token_at_end(s, j);
        assert(!is_reserved(s[j]));
        match token_at(s, j) {
            Some((token, k)) => {
                lemma_unreserved_lexes_to_words(s, k);
                assert(token is Word);
            },
            None => {},
        }
    }
}

/// A line that holds no reserved character parses to a plain command whose
/// arguments are the words that the lexer reads from it, quoted words being
/// one argument each; or it fails to lex, and then fails to parse with the
/// lexer's error.
pub proof fn lemma_unreserved_line_is_command(line: Seq<char>)
    requires
        no_reserved(line),
    ensures
        match lex(line) {
            Ok(tokens) => parse_line(line) == Ok::<RunnableView, ParseErrorView>(
                RunnableView::Cmd(words(tokens, 0, tokens.len() as int)),
            ) && forall|k: int| 0 <= k < tokens.len() ==> #[trigger] tokens[k] is Word,
            Err(e) => parse_line(line) == Err::<RunnableView, ParseErrorView>(
                ParseErrorView::Lex(e),
            ),
        },
{
    lemma_unreserved_lexes_to_words(line, 0);
    if lex(line) is Ok {
        lemma_words_parse_to_command(lex(line).unwrap());
    }
}

/// Where no reserved character stands, a bare word ends at the next
/// whitespace.
proof fn lemma_word_ends_at_blank(s: Seq<char>, i: int)
    requires
        no_reserved(s),
        0 <= i <= s.len(),
    ensures
        word_end(s, i) == blank_from(s, i),
        i <= blank_from(s, i) <= s.len(),
    decreases s.len() - i,
{
    if i < s.len() {
        assert(!is_reserved(s[i]));
        if !is_whitespace_char(s[i]) {
            lemma_word_ends_at_blank(s, i + 1);
        }
    }
}

/// Without reserved characters and quotes, lexing never fails and reads the
/// words that whitespace separates.
proof fn lemma_plain_lex_from(s: Seq<char>, i: int)
    requires
        no_reserved(s),
        no_quote(s),
        0 <= i <= s.len(),
    ensures
        lex_from(s, i).error is None,
        lex_from(s, i).tokens == word_tokens(split_whitespace(s, i)),
    decreases s.len() - i,
{
    lemma_skip_blank(s, i);
    let j = skip_blank(s, i);
    if j < s.len() {
        lemma_token_at_end(s, j);
        lemma_word_ends_at_blank(s, j);
        assert(!is_reserved(s[j]));
        assert(s[j] != '"');
        let e = blank_from(s, j);
        lemma_plain_lex_from(s, e);
        assert(lex_from(s, i).tokens =~= word_tokens(split_whitespace(s, i)));
    } else {
        assert(lex_from(s, i).tokens =~= word_tokens(split_whitespace(s, i)));
    }
}

/// A line of bare words only, with no reserved character and no quote, parses
/// to a plain command whose arguments are the words that whitespace
/// separates, in order.
pub proof fn lemma_plain_line_is_split(line: Seq<char>)
    requires
        no_reserved(line),
        no_quote(line),
    ensures
        lex(line) == Ok::<Seq<TokenView>, crate::parser::lexer::LexError>(
            word_tokens(split_whitespace(line, 0)),
        ),
        parse_line(line) == Ok::<RunnableView, ParseErrorView>(
            RunnableView::Cmd(split_whitespace(line, 0)),
        ),
{
    lemma_plain_lex_from(line, 0);
    let texts = split_whitespace(line, 0);
    let tokens = word_tokens(texts);
    lemma_words_parse_to_command(tokens);
    assert(words(tokens, 0, tokens.len() as int) =~= texts);
}

/// A word that holds at least one character and none that ends a word.
pub open spec fn is_bare_word(token: TokenView) -> bool {
    match token {
        TokenView::Word(text) => text.len() > 0 && forall|k: int|
            0 <= k < text.len() ==> !ends_word(#[trigger] text[k]),
        _ => false,
    }
}

/// Without a quote in the line, every word read is a run of the line that
/// holds at least one character, no whitespace and no reserved character.
pub proof fn lemma_bare_words_hold_no_separator(s: Seq<char>, i: int)
    requires
        no_quote(s),
        0 <= i <= s.len(),
    ensures
        lex_from(s, i).error is None,
        forall|k: int|
            0 <= k < lex_from(s, i).tokens.len() ==> (#[trigger] lex_from(s, i).tokens[k] is Word
                ==> is_bare_word(lex_from(s, i).tokens[k])),
    decreases s.len() - i,
{
    lemma_skip_blank(s, i);
    let j = skip_blank(s, i);
    if j < s.len() {
        lemma_token_at_end(s, j);
        lemma_word_end(s, j);
        assert(s[j] != '"');
        let (token, k) = token_at(s, j).unwrap();
        lemma_bare_words_hold_no_separator(s, k);
        if token is Word {
            assert(is_bare_word(token));
        }
        let rest = lex_from(s, k).tokens;
        let all = lex_from(s, i).tokens;
        assert(all == seq![token] + rest);
        assert forall|n: int| 0 <= n < all.len() && #[trigger] all[n] is Word implies is_bare_word(
            all[n],
        ) by {
            if n > 0 {
                assert(all[n] == rest[n - 1]);
            }
        }
    }
}

} // verus!
