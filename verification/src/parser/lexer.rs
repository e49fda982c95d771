//! The lexer: from a line of text to tokens.
//!
//! Words are separated by whitespace. A double quote opens a quoted word, in
//! which whitespace is kept and `\"`, `\\` and `\n` are escapes. Four markers
//! stand for themselves: `|` (pipe), `>` (insert), `>>` (append) and `<` (from).

use vstd::prelude::*;
use vstd::string::StringExecFns;

verus! {

/// What `char::is_whitespace` answers for a character: whether it has the
/// Unicode property `White_Space`.
pub uninterp spec fn is_whitespace_char(c: char) -> bool;

/// `char::is_whitespace` of the standard library. Its answer is a function of the
/// character alone, and is named [`is_whitespace_char`].
pub assume_specification[ char::is_whitespace ](c: char) -> (b: bool)
    ensures
        b == is_whitespace_char(c),
;

/// One token of a line.
#[derive(Debug, Clone, PartialEq, Eq)]
pub enum Token {
    /// A word, bare or quoted.
    Str(StrToken),
    /// `|`
    Pipe,
    /// `>`
    Insert,
    /// `>>`
    Append,
    /// `<`
    From,
}

/// The text of a word, with the escapes of a quoted word resolved.
#[derive(Debug, Clone, PartialEq, Eq)]
pub struct StrToken {
    pub content: String,
}

/// The one way in which lexing fails.
#[derive(Debug, Clone, Copy, PartialEq, Eq, Structural)]
pub enum LexError {
    /// A quoted word was opened and the line ended before its closing quote.
    UnterminatedQuote,
}

/// The message of a lexing error.
pub open spec fn lex_error_text(e: LexError) -> Seq<char> {
    match e {
        LexError::UnterminatedQuote => "Cannot find closing \""@,
    }
}

impl LexError {
    /// The message shown to the user.
    pub fn message(&self) -> (text: String)
        ensures
            text@ == lex_error_text(*self),
    {
        match self {
            LexError::UnterminatedQuote => String::from_str("Cannot find closing \""),
        }
    }
}

/// A token as a mathematical value.
pub enum TokenView {
    Word(Seq<char>),
    Pipe,
    Insert,
    Append,
    From,
}

impl View for Token {
    type V = TokenView;

    open spec fn view(&self) -> TokenView {
        match *self {
            Token::Str(t) => TokenView::Word(t.content@),
            Token::Pipe => TokenView::Pipe,
            Token::Insert => TokenView::Insert,
            Token::Append => TokenView::Append,
            Token::From => TokenView::From,
        }
    }
}

/// The tokens of a vector, each as a mathematical value.
pub open spec fn token_views(tokens: Seq<Token>) -> Seq<TokenView> {
    Seq::new(tokens.len(), |i: int| tokens[i]@)
}

/// The characters of a string, in order.
pub fn chars_of(line: &str) -> (v: Vec<char>)
    ensures
        v@ == line@,
{
    let mut v: Vec<char> = Vec::new();
    for c in it: line.chars()
        invariant
            it.seq() == line@,
            v@ == it.seq().take(it.index() as int),
    {
        v.push(c);
    }
    v
}

/// The three characters that are markers, or begin one.
pub open spec fn is_reserved(c: char) -> bool {
    c == '|' || c == '>' || c == '<'
}

/// A bare word ends before the first whitespace or reserved character.
pub open spec fn ends_word(c: char) -> bool {
    is_whitespace_char(c) || is_reserved(c)
}

/// The first position from `i` on that holds no whitespace, or the length of
/// `s` where there is none.
pub open spec fn skip_blank(s: Seq<char>, i: int) -> int
    decreases s.len() - i,
{
    if 0 <= i < s.len() && is_whitespace_char(s[i]) {
        skip_blank(s, i + 1)
    } else {
        i
    }
}

/// The first position from `i` on that holds a character that ends a word, or
/// the length of `s` where there is none.
pub open spec fn word_end(s: Seq<char>, i: int) -> int
    decreases s.len() - i,
{
    if 0 <= i < s.len() && !ends_word(s[i]) {
        word_end(s, i + 1)
    } else {
        i
    }
}

/// What the character after a backslash stands for inside quotes: `\"` is a
/// quote, `\\` a backslash, `\n` a newline; any other pair stays as it is,
/// backslash included.
pub open spec fn unescape(c: char) -> Seq<char> {
    if c == '"' || c == '\\' {
        seq![c]
    } else if c == 'n' {
        seq!['\n']
    } else {
        seq!['\\', c]
    }
}

/// The quoted word whose first character is at `i` (the opening quote is at
/// `i - 1`): its text, and the position after its closing quote. `None` where
/// the line ends before a closing quote.
pub open spec fn quoted(s: Seq<char>, i: int) -> Option<(Seq<char>, int)>
    decreases s.len() - i,
{
    if i < 0 || i >= s.len() {
        None
    } else if s[i] == '"' {
        Some((Seq::<char>::empty(), i + 1))
    } else if s[i] == '\\' {
        if i + 1 >= s.len() {
            None
        } else {
            prepend_text(unescape(s[i + 1]), quoted(s, i + 2))
        }
    } else {
        prepend_text(seq![s[i]], quoted(s, i + 1))
    }
}

/// Puts `text` in front of the text of a quoted word, where there is one.
pub open spec fn prepend_text(text: Seq<char>, rest: Option<(Seq<char>, int)>) -> Option<
    (Seq<char>, int),
> {
    match rest {
        Some((tail, end)) => Some((text + tail, end)),
        None => None,
    }
}

/// The token that begins at `j`, a position that holds no whitespace, and the
/// position after it. `None` where it is a quoted word that is never closed.
pub open spec fn token_at(s: Seq<char>, j: int) -> Option<(TokenView, int)>
    recommends
        0 <= j < s.len(),
{
    if s[j] == '"' {
        match quoted(s, j + 1) {
            Some((text, end)) => Some((TokenView::Word(text), end)),
            None => None,
        }
    } else if s[j] == '|' {
        Some((TokenView::Pipe, j + 1))
    } else if s[j] == '<' {
        Some((TokenView::From, j + 1))
    } else if s[j] == '>' {
        if j + 1 < s.len() && s[j + 1] == '>' {
            Some((TokenView::Append, j + 2))
        } else {
            Some((TokenView::Insert, j + 1))
        }
    } else {
        Some((TokenView::Word(s.subrange(j, word_end(s, j))), word_end(s, j)))
    }
}

/// What lexing gives: the tokens read, and the error that stopped it, if any.
pub struct Lexed {
    pub tokens: Seq<TokenView>,
    pub error: Option<LexError>,
}

/// Lexing `s` from position `i` on.
pub open spec fn lex_from(s: Seq<char>, i: int) -> Lexed
    decreases s.len() - i,
{
    let j = skip_blank(s, i);
    if i < 0 || j < i || j >= s.len() {
        Lexed { tokens: Seq::empty(), error: None }
    } else {
        match token_at(s, j) {
            None => Lexed { tokens: Seq::empty(), error: Some(LexError::UnterminatedQuote) },
            Some((token, k)) => if j < k <= s.len() {
                let rest = lex_from(s, k);
                Lexed { tokens: seq![token] + rest.tokens, error: rest.error }
            } else {
                Lexed { tokens: Seq::empty(), error: None }
            },
        }
    }
}

/// The tokens of a whole line, or the error that lexing it ends in.
pub open spec fn lex(s: Seq<char>) -> Result<Seq<TokenView>, LexError> {
    match lex_from(s, 0).error {
        None => Ok(lex_from(s, 0).tokens),
        Some(e) => Err(e),
    }
}

/// `skip_blank` moves forward, stays inside the line, passes only whitespace
/// and stops at the end or before a character that is none.
pub proof fn lemma_skip_blank(s: Seq<char>, i: int)
    requires
        0 <= i <= s.len(),
    ensures
        i <= skip_blank(s, i) <= s.len(),
        forall|k: int| i <= k < skip_blank(s, i) ==> is_whitespace_char(#[trigger] s[k]),
        skip_blank(s, i) < s.len() ==> !is_whitespace_char(s[skip_blank(s, i)]),
    decreases s.len() - i,
{
    if i < s.len() && is_whitespace_char(s[i]) {
        lemma_skip_blank(s, i + 1);
    }
}

/// `word_end` moves forward, stays inside the line, passes no character that
/// ends a word and stops at the end or before one that does.
pub proof fn lemma_word_end(s: Seq<char>, i: int)
    requires
        0 <= i <= s.len(),
    ensures
        i <= word_end(s, i) <= s.len(),
        forall|k: int| i <= k < word_end(s, i) ==> !ends_word(#[trigger] s[k]),
        word_end(s, i) < s.len() ==> ends_word(s[word_end(s, i)]),
    decreases s.len() - i,
{
    if i < s.len() && !ends_word(s[i]) {
        lemma_word_end(s, i + 1);
    }
}

/// A quoted word that is closed ends inside the line, after its first position.
pub proof fn lemma_quoted_end(s: Seq<char>, i: int)
    requires
        0 <= i,
    ensures
        match quoted(s, i) {
            Some((_, end)) => i < end <= s.len(),
            None => true,
        },
    decreases s.len() - i,
{
    if i < s.len() && s[i] != '"' {
        if s[i] == '\\' {
            if i + 1 < s.len() {
                lemma_quoted_end(s, i + 2);
            }
        } else {
            lemma_quoted_end(s, i + 1);
        }
    }
}

/// Every token takes at least one character and ends inside the line.
pub proof fn lemma_token_at_end(s: Seq<char>, j: int)
    requires
        0 <= j < s.len(),
        !is_whitespace_char(s[j]),
    ensures
        match token_at(s, j) {
            Some((_, end)) => j < end <= s.len(),
            None => true,
        },
{
    lemma_quoted_end(s, j + 1);
    lemma_word_end(s, j);
    if !ends_word(s[j]) {
        lemma_word_end(s, j + 1);
    }
}

/// A lexer over one line: the line, the tokens read so far, and the position
/// reached.
pub struct Lexer<'a> {
    pub line: &'a str,
    pub tokens: Vec<Token>,
    /// The characters of `line`.
    pub chars: Vec<char>,
    /// How many of them have been read.
    pub loc: usize,
}

impl<'a> Lexer<'a> {
    /// The lexer's position lies inside its line, or at its end.
    pub open spec fn wf(&self) -> bool {
        &&& self.chars@ == self.line@
        &&& self.loc <= self.chars.len()
    }

    /// The number of characters of the line that have been read.
    pub open spec fn position(&self) -> int {
        self.loc as int
    }

    /// A lexer at the start of `line`, with no token read.
    pub fn new(line: &'a str) -> (lexer: Lexer<'a>)
        ensures
            lexer.wf(),
            lexer.line@ == line@,
            lexer.tokens@ == Seq::<Token>::empty(),
            lexer.position() == 0,
    {
        Lexer { line, tokens: Vec::new(), chars: chars_of(line), loc: 0 }
    }

    /// Reads the rest of the line and adds its tokens to `tokens`. An unclosed
    /// quoted word stops the reading at once and is the error returned; the
    /// tokens read before it stay in `tokens`.
    pub fn lex_tokens(&mut self) -> (r: Result<(), LexError>)
        requires
            old(self).wf(),
        ensures
            final(self).wf(),
            final(self).line == old(self).line,
            token_views(final(self).tokens@) == token_views(old(self).tokens@) + lex_from(
                old(self).line@,
                old(self).position(),
            ).tokens,
            r == match lex_from(old(self).line@, old(self).position()).error {
                None => Ok::<(), LexError>(()),
                Some(e) => Err(e),
            },
            r is Ok ==> final(self).position() == old(self).line@.len(),
    {
        let ghost start = self.loc as int;
        let ghost before = token_views(self.tokens@);
        assert(before + Seq::<TokenView>::empty() =~= before);
        loop
            invariant
                self.wf(),
                self.line == old(self).line,
                start == old(self).position(),
                before == token_views(old(self).tokens@),
                token_views(self.tokens@) + lex_from(self.line@, self.loc as int).tokens == before
                    + lex_from(self.line@, start).tokens,
                lex_from(self.line@, self.loc as int).error == lex_from(self.line@, start).error,
            decreases self.chars.len() - self.loc,
        {
            let ghost at = self.loc as int;
            let ghost read = token_views(self.tokens@);
            proof {
                lemma_skip_blank(self.line@, at);
                if skip_blank(self.line@, at) < self.line@.len() {
                    lemma_token_at_end(self.line@, skip_blank(self.line@, at));
                }
                assert(read + Seq::<TokenView>::empty() =~= read);
            }
            match self.next_token() {
                Ok(Some(token)) => {
                    self.tokens.push(token);
                    proof {
                        let rest = lex_from(self.line@, self.loc as int).tokens;
                        assert(token_views(self.tokens@) =~= read.push(token@));
                        assert(read.push(token@) + rest =~= read + (seq![token@] + rest));
                    }
                },
                Ok(None) => {
                    return Ok(());
                },
                Err(e) => {
                    return Err(e);
                },
            }
        }
    }

    /// Skips whitespace and reads one token. `Ok(None)` at the end of the line.
    fn next_token(&mut self) -> (r: Result<Option<Token>, LexError>)
        requires
            old(self).wf(),
        ensures
            final(self).wf(),
            final(self).line == old(self).line,
            final(self).tokens == old(self).tokens,
            ({
                let s = old(self).line@;
                let j = skip_blank(s, old(self).position());
                if j >= s.len() {
                    r == Ok::<Option<Token>, LexError>(None) && final(self).position() == s.len()
                } else {
                    match token_at(s, j) {
                        Some((token, end)) => r matches Ok(Some(t)) && t@ == token && final(self).position() == end,
                        None => r == Err::<Option<Token>, LexError>(LexError::UnterminatedQuote),
                    }
                }
            }),
    {
        proof {
            lemma_skip_blank(self.line@, self.loc as int);
        }
        self.consume_ws();
        if self.finished() {
            return Ok(None);
        }
        match self.peek() {
            Some(c) => self.next_token_with(c),
            None => Ok(None),
        }
    }

    /// Reads the token that begins with `c`, the character at the position.
    fn next_token_with(&mut self, c: char) -> (r: Result<Option<Token>, LexError>)
        requires
            old(self).wf(),
            old(self).position() < old(self).line@.len(),
            old(self).line@[old(self).position()] == c,
        ensures
            final(self).wf(),
            final(self).line == old(self).line,
            final(self).tokens == old(self).tokens,
            match token_at(old(self).line@, old(self).position()) {
                Some((token, end)) => r matches Ok(Some(t)) && t@ == token && final(self).position() == end,
                None => r == Err::<Option<Token>, LexError>(LexError::UnterminatedQuote),
            },
    {
        if c == '"' {
            self.next();
            self.next_double_quote()
        } else if c == '|' {
            self.next();
            Ok(Some(Token::Pipe))
        } else if c == '<' {
            self.next();
            Ok(Some(Token::From))
        } else if c == '>' {
            self.next();
            if self.peek() == Some('>') {
                self.next();
                Ok(Some(Token::Append))
            } else {
                Ok(Some(Token::Insert))
            }
        } else {
            let current_loc = self.loc;
            proof {
                lemma_word_end(self.line@, current_loc as int);
            }
            let new_loc = self.take_word();
            Ok(Some(Token::Str(StrToken { content: self.text_between(current_loc, new_loc) })))
        }
    }

    /// Reads a quoted word whose opening quote has just been passed.
    fn next_double_quote(&mut self) -> (r: Result<Option<Token>, LexError>)
        requires
            old(self).wf(),
        ensures
            final(self).wf(),
            final(self).line == old(self).line,
            final(self).tokens == old(self).tokens,
            match quoted(old(self).line@, old(self).position()) {
                Some((text, end)) => r matches Ok(Some(t)) && t@ == TokenView::Word(text) && final(self).position() == end,
                None => r == Err::<Option<Token>, LexError>(LexError::UnterminatedQuote),
            },
    {
        let mut val = String::new();
        let ghost start = self.loc as int;
        let ghost s = self.line@;
        assert(prepend_text(val@, quoted(s, start)) == quoted(s, start)) by {
            match quoted(s, start) {
                Some((tail, end)) => assert(val@ + tail =~= tail),
                None => {},
            }
        }
        loop
            invariant
                self.wf(),
                self.line == old(self).line,
                self.tokens == old(self).tokens,
                s == self.line@,
                start == old(self).position(),
                quoted(s, start) == prepend_text(val@, quoted(s, self.loc as int)),
            decreases self.chars.len() - self.loc,
        {
            let ghost at = self.loc as int;
            let ghost text = val@;
            match self.next() {
                None => {
                    return Err(LexError::UnterminatedQuote);
                },
                Some(c) => {
                    if c == '\\' {
                        match self.next() {
                            None => {
                                return Err(LexError::UnterminatedQuote);
                            },
                            Some(e) => {
                                if e == '"' || e == '\\' {
                                    val.push(e);
                                } else if e == 'n' {
                                    val.push('\n');
                                } else {
                                    val.push('\\');
                                    val.push(e);
                                }
                                proof {
                                    assert(val@ =~= text + unescape(e));
                                    match quoted(s, at + 2) {
                                        Some((tail, end)) => assert((text + unescape(e)) + tail
                                            =~= text + (unescape(e) + tail)),
                                        None => {},
                                    }
                                }
                            },
                        }
                    } else if c == '"' {
                        proof {
                            assert(text + Seq::<char>::empty() =~= text);
                        }
                        return Ok(Some(Token::Str(StrToken { content: val })));
                    } else {
                        val.push(c);
                        proof {
                            match quoted(s, at + 1) {
                                Some((tail, end)) => assert(text.push(c) + tail =~= text + (seq![c]
                                    + tail)),
                                None => {},
                            }
                        }
                    }
                },
            }
        }
    }

    /// Passes the whitespace at the position and returns the position reached.
    fn consume_ws(&mut self) -> (end: usize)
        requires
            old(self).wf(),
        ensures
            final(self).wf(),
            final(self).line == old(self).line,
            final(self).tokens == old(self).tokens,
            final(self).position() == end,
            end == skip_blank(old(self).line@, old(self).position()),
    {
        loop
            invariant
                self.wf(),
                self.line == old(self).line,
                self.tokens == old(self).tokens,
                skip_blank(self.line@, self.loc as int) == skip_blank(
                    old(self).line@,
                    old(self).position(),
                ),
            decreases self.chars.len() - self.loc,
        {
            match self.peek() {
                Some(c) => {
                    if !c.is_whitespace() {
                        return self.loc;
                    }
                },
                None => {
                    return self.loc;
                },
            }
            self.next();
        }
    }

    /// Passes the characters of a bare word and returns the position reached.
    fn take_word(&mut self) -> (end: usize)
        requires
            old(self).wf(),
        ensures
            final(self).wf(),
            final(self).line == old(self).line,
            final(self).tokens == old(self).tokens,
            final(self).position() == end,
            end == word_end(old(self).line@, old(self).position()),
    {
        loop
            invariant
                self.wf(),
                self.line == old(self).line,
                self.tokens == old(self).tokens,
                word_end(self.line@, self.loc as int) == word_end(
                    old(self).line@,
                    old(self).position(),
                ),
            decreases self.chars.len() - self.loc,
        {
            match self.peek() {
                Some(c) => {
                    if c.is_whitespace() || c == '|' || c == '>' || c == '<' {
                        return self.loc;
                    }
                },
                None => {
                    return self.loc;
                },
            }
            self.next();
        }
    }

    /// The characters of the line from `from` up to `to`, as a string.
    fn text_between(&self, from: usize, to: usize) -> (text: String)
        requires
            self.wf(),
            from <= to <= self.line@.len(),
        ensures
            text@ == self.line@.subrange(from as int, to as int),
    {
        let mut text = String::new();
        let mut i: usize = from;
        while i < to
            invariant
                self.wf(),
                from <= i <= to <= self.line@.len(),
                text@ == self.line@.subrange(from as int, i as int),
            decreases to - i,
        {
            text.push(self.chars[i]);
            i += 1;
            assert(self.line@.subrange(from as int, i as int) =~= self.line@.subrange(
                from as int,
                i - 1,
            ).push(self.line@[i - 1]));
        }
        text
    }

    /// The character at the position, if the line has not ended.
    fn peek(&self) -> (c: Option<char>)
        requires
            self.wf(),
        ensures
            c == if self.position() < self.line@.len() {
                Some(self.line@[self.position()])
            } else {
                None
            },
    {
        if self.loc < self.chars.len() {
            Some(self.chars[self.loc])
        } else {
            None
        }
    }

    /// Returns the character at the position and moves past it; at the end of
    /// the line, returns `None` and stays.
    fn next(&mut self) -> (c: Option<char>)
        requires
            old(self).wf(),
        ensures
            final(self).wf(),
            final(self).line == old(self).line,
            final(self).tokens == old(self).tokens,
            c == if old(self).position() < old(self).line@.len() {
                Some(old(self).line@[old(self).position()])
            } else {
                None
            },
            final(self).position() == if old(self).position() < old(self).line@.len() {
                old(self).position() + 1
            } else {
                old(self).position()
            },
    {
        if self.loc < self.chars.len() {
            let c = self.chars[self.loc];
            self.loc += 1;
            Some(c)
        } else {
            None
        }
    }

    /// Whether the whole line has been read.
    fn finished(&self) -> (done: bool)
        requires
            self.wf(),
        ensures
            done == (self.position() == self.line@.len()),
    {
        self.loc == self.chars.len()
    }

    /// The tokens read.
    pub fn collect(self) -> (tokens: Vec<Token>)
        ensures
            tokens == self.tokens,
    {
        self.tokens
    }
}

} // verus!
