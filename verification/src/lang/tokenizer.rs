//! The tokenizer: a cursor over the characters of a query that hands out one
//! token at a time.

use crate::lang::ast::{ContentView, Token, TokenContent, TokenLoc, TokenView};
use crate::lang::chars::{char_is_digit, lemma_run_end, run_end, CharClass};
use crate::lang::scan::{
    element_at, failure, lemma_wrap32_add, next_lexeme, next_pos, number_at, reserved_end,
    single_at, span, string_at, token, word_at, wrap32, Lexeme,
};
use vstd::prelude::*;

verus! {

/// Why no token could be made of the text at the cursor.
#[derive(Debug, Clone, Copy, PartialEq, Eq, Structural)]
pub enum TokenizerErr {
    /// The text ended inside a string literal.
    UnterminatedStringLiteral,
    /// A character that starts no token, or a buffered token that is no
    /// identifier.
    UnexpectedToken,
    /// An `@` with no letter after it.
    EmptyElementIdentifier,
    /// An element reference was asked for where no `@` stands.
    InvalidElementIdentifier,
}

pub type TokenResult = Result<Token, TokenizerErr>;

/// The view of a token or error.
pub open spec fn result_view(res: TokenResult) -> Result<TokenView, TokenizerErr> {
    match res {
        Ok(token) => Ok(token@),
        Err(err) => Err(err),
    }
}

/// The largest value of the position counter.
const MAX_IDX_VALUE: u32 = 0xffff_ffff;

/// A span's length after `by` more characters.
fn grown(len: u32, by: usize) -> (r: u32)
    ensures
        r == wrap32(len + by),
{
    let by: u64 = by as u64;
    let sum: u64 = len as u64 + by % 0x1_0000_0000;
    proof {
        lemma_wrap32_add(len as int, by as int);
    }
    (sum % 0x1_0000_0000) as u32
}

/// Whether the identifier rule can go on from a buffered token at `i`: a
/// buffered identifier is the text right before `i`.
spec fn resumable(held: Option<TokenView>, s: Seq<char>, i: int) -> bool {
    match held {
        Some(TokenView { loc, con: ContentView::Identifier(word) }) => {
            &&& word.len() <= i <= s.len()
            &&& word == s.subrange(i - word.len(), i)
            &&& loc == span(i - word.len(), i)
        },
        _ => true,
    }
}

/// What the identifier rule makes of the text at `i`, going on from what is
/// buffered: the buffered identifier, or an empty one, and with it whatever
/// follows up to whitespace or `;`. A buffered token of another kind is
/// rejected.
spec fn identifier_from(held: Option<TokenView>, s: Seq<char>, i: int) -> Lexeme {
    let end = run_end(s, i, CharClass::IdentifierPart);
    match held {
        Some(TokenView { loc, con: ContentView::Identifier(word) }) => token(
            i - word.len(),
            end,
            ContentView::Identifier(s.subrange(i - word.len(), end)),
        ),
        Some(_) => failure(TokenizerErr::UnexpectedToken, i),
        None => token(i, end, ContentView::Identifier(s.subrange(i, end))),
    }
}

/// A cursor over the characters of a text. Each call of `next` takes the
/// characters of one token and nothing after them.
pub struct Tokenizer {
    /// The text.
    chars: Vec<char>,
    /// How many characters of the text have been taken.
    cursor: usize,
    /// A word that the scan for reserved words has read and the identifier
    /// rule is about to take over. Empty between two calls of `next`.
    pending: Option<Token>,
    /// The cursor modulo 2^32.
    current_idx: u32,
    /// How often `current_idx` has started again from zero.
    full_idx_count: u32,
}

impl Tokenizer {
    /// The whole text.
    pub closed spec fn input(&self) -> Seq<char> {
        self.chars@
    }

    /// The number of characters taken so far.
    pub closed spec fn pos(&self) -> int {
        self.cursor as int
    }

    /// The position counter.
    pub closed spec fn counter(&self) -> u32 {
        self.current_idx
    }

    /// The number of times the position counter has wrapped.
    pub closed spec fn wraps(&self) -> u32 {
        self.full_idx_count
    }

    /// The word buffered between the two rules for words.
    pub closed spec fn held(&self) -> Option<TokenView> {
        match self.pending {
            Some(token) => Some(token@),
            None => None,
        }
    }

    /// The cursor lies within the text, and the counter and its wraps
    /// together hold the cursor.
    pub open spec fn counted(&self) -> bool {
        &&& 0 <= self.pos() <= self.input().len()
        &&& self.counter() == wrap32(self.pos())
        &&& self.wraps() == self.pos() / 0x1_0000_0000
    }

    /// The state between two tokens: counted, and nothing buffered.
    pub open spec fn wf(&self) -> bool {
        &&& self.counted()
        &&& self.held() is None
    }

    /// A tokenizer at the start of `input`.
    pub fn new(input: &str) -> (r: Self)
        ensures
            r.wf(),
            r.input() == input@,
            r.pos() == 0,
    {
        let mut chars: Vec<char> = Vec::new();
        for c in it: input.chars()
            invariant
                it.seq() == input@,
                chars@ == input@.take(it.index()),
        {
            chars.push(c);
        }
        assert(chars@ == input@);
        Tokenizer { chars, cursor: 0, pending: None, current_idx: 0, full_idx_count: 0 }
    }

    /// How often the position counter has wrapped: spans of tokens compare
    /// by position only while this stays the same.
    pub fn wrap_count(&self) -> (r: u32)
        ensures
            r == self.wraps(),
    {
        self.full_idx_count
    }

    /// Takes one character.
    fn advance(&mut self)
        requires
            old(self).counted(),
            old(self).pos() < old(self).input().len(),
        ensures
            final(self).counted(),
            final(self).input() == old(self).input(),
            final(self).held() == old(self).held(),
            final(self).pos() == old(self).pos() + 1,
    {
        self.next_char();
    }

    /// Takes one character and counts it. A counter at its largest value
    /// starts again from zero, and the wrap is counted.
    fn next_char(&mut self)
        requires
            old(self).counted(),
            old(self).pos() < old(self).input().len(),
        ensures
            final(self).counted(),
            final(self).input() == old(self).input(),
            final(self).held() == old(self).held(),
            final(self).pos() == old(self).pos() + 1,
    {
        assert(self.chars.len() <= usize::MAX);
        self.cursor = self.cursor + 1;
        if self.current_idx == MAX_IDX_VALUE {
            self.full_idx_count = self.full_idx_count + 1;
            self.current_idx = 0;
        } else {
            self.current_idx = self.current_idx + 1;
        }
    }

    /// Takes the maximal run of `class` characters at the cursor.
    fn skip_run(&mut self, class: CharClass)
        requires
            old(self).counted(),
        ensures
            final(self).counted(),
            final(self).input() == old(self).input(),
            final(self).held() == old(self).held(),
            final(self).pos() == run_end(old(self).input(), old(self).pos(), class),
            old(self).pos() <= final(self).pos(),
    {
        while self.cursor < self.chars.len() && class.holds(self.chars[self.cursor])
            invariant
                self.counted(),
                self.input() == old(self).input(),
                self.held() == old(self).held(),
                old(self).pos() <= self.pos(),
                run_end(self.input(), self.pos(), class) == run_end(
                    old(self).input(),
                    old(self).pos(),
                    class,
                ),
            decreases self.chars.len() - self.cursor,
        {
            self.advance();
        }
    }

    /// Appends the characters from `from` up to `to` to `text`.
    fn push_range(&self, text: &mut String, from: usize, to: usize)
        requires
            from <= to <= self.input().len(),
        ensures
            final(text)@ == old(text)@ + self.input().subrange(from as int, to as int),
    {
        let mut i: usize = from;
        while i < to
            invariant
                from <= i <= to <= self.chars.len(),
                text@ == old(text)@ + self.chars@.subrange(from as int, i as int),
            decreases to - i,
        {
            text.push(self.chars[i]);
            i = i + 1;
        }
    }

    /// The span from `start`, where the counter stood at `starts_at`, up to
    /// the cursor.
    fn span_from(&self, start: usize, starts_at: u32) -> (r: TokenLoc)
        requires
            self.counted(),
            start <= self.pos(),
            starts_at == wrap32(start as int),
        ensures
            r == span(start as int, self.pos()),
    {
        TokenLoc { starts_at, len: grown(0, self.cursor - start) }
    }

    /// The text from `start` up to the cursor.
    fn text_from(&self, start: usize) -> (r: String)
        requires
            self.counted(),
            start <= self.pos(),
        ensures
            r@ == self.input().subrange(start as int, self.pos()),
    {
        let mut text = String::new();
        self.push_range(&mut text, start, self.cursor);
        assert(text@ =~= self.chars@.subrange(start as int, self.cursor as int));
        text
    }

    /// Reads an element reference at the cursor.
    pub fn lex_element_identifier(&mut self) -> (r: TokenResult)
        requires
            old(self).wf(),
        ensures
            final(self).wf(),
            final(self).input() == old(self).input(),
            final(self).pos() == element_at(old(self).input(), old(self).pos()).end,
            result_view(r) == element_at(old(self).input(), old(self).pos()).out,
    {
        let start = self.cursor;
        let starts_at = self.current_idx;
        if self.cursor < self.chars.len() && self.chars[self.cursor] == '@' {
            self.advance();
            self.skip_run(CharClass::Alphabetic);
            if self.cursor == start + 1 {
                Err(TokenizerErr::EmptyElementIdentifier)
            } else {
                let identifier = self.text_from(start);
                Ok(
                    Token {
                        loc: self.span_from(start, starts_at),
                        con: TokenContent::ElementRef(identifier),
                    },
                )
            }
        } else {
            Err(TokenizerErr::InvalidElementIdentifier)
        }
    }

    /// Takes over the word that the scan for reserved words has buffered and
    /// reads on to the end of the identifier. The buffer is empty afterwards.
    fn lex_identifier(&mut self) -> (r: TokenResult)
        requires
            old(self).counted(),
            resumable(old(self).held(), old(self).input(), old(self).pos()),
        ensures
            final(self).wf(),
            final(self).input() == old(self).input(),
            final(self).pos() == identifier_from(
                old(self).held(),
                old(self).input(),
                old(self).pos(),
            ).end,
            result_view(r) == identifier_from(
                old(self).held(),
                old(self).input(),
                old(self).pos(),
            ).out,
    {
        let mut word = String::new();
        let mut loc = TokenLoc { starts_at: self.current_idx, len: 0 };
        match self.pending.take() {
            Some(pending) => {
                loc = pending.loc;
                match pending.con {
                    TokenContent::Identifier(s) => {
                        word = s;
                    },
                    _ => {
                        return Err(TokenizerErr::UnexpectedToken);
                    },
                }
            },
            None => {},
        }
        let from = self.cursor;
        let ghost adopted = word@;
        self.skip_run(CharClass::IdentifierPart);
        self.push_range(&mut word, from, self.cursor);
        let ghost begin = from - adopted.len();
        proof {
            lemma_wrap32_add(from - begin, self.cursor - from);
        }
        loc.len = grown(loc.len, self.cursor - from);
        assert(word@ =~= self.input().subrange(begin, self.pos()));
        Ok(Token { loc, con: TokenContent::Identifier(word) })
    }

    /// Reads letters for as long as they may still become a reserved word.
    /// The first reserved word that they spell is the token, whatever
    /// follows it. If they spell none, the letters read are buffered as the
    /// start of an identifier and nothing is returned.
    fn lex_reserved(&mut self) -> (r: Option<TokenResult>)
        requires
            old(self).wf(),
        ensures
            final(self).counted(),
            final(self).input() == old(self).input(),
            match reserved_end(old(self).input(), old(self).pos(), old(self).pos()) {
                Some(end) => {
                    &&& r is Some
                    &&& final(self).held() is None
                    &&& final(self).pos() == end
                    &&& (Lexeme { out: result_view(r.unwrap()), end }) == word_at(
                        old(self).input(),
                        old(self).pos(),
                    )
                },
                None => {
                    let end = run_end(old(self).input(), old(self).pos(), CharClass::Alphabetic);
                    &&& r is None
                    &&& final(self).pos() == end
                    &&& final(self).held() == Some(
                        TokenView {
                            loc: span(old(self).pos(), end),
                            con: ContentView::Identifier(
                                old(self).input().subrange(old(self).pos(), end),
                            ),
                        },
                    )
                },
            },
    {
        let start = self.cursor;
        let starts_at = self.current_idx;
        while self.cursor < self.chars.len() && self.chars[self.cursor].is_alphabetic()
            invariant
                self.counted(),
                self.held() is None,
                self.input() == old(self).input(),
                start == old(self).pos(),
                starts_at == wrap32(start as int),
                start <= self.pos(),
                reserved_end(self.input(), start as int, self.pos()) == reserved_end(
                    self.input(),
                    start as int,
                    start as int,
                ),
                run_end(self.input(), self.pos(), CharClass::Alphabetic) == run_end(
                    self.input(),
                    start as int,
                    CharClass::Alphabetic,
                ),
            decreases self.chars.len() - self.cursor,
        {
            self.advance();
            let word = &self.chars.as_slice()[start..self.cursor];
            match TokenContent::from_chars(word) {
                Some(con) => {
                    return Some(Ok(Token { loc: self.span_from(start, starts_at), con }));
                },
                None => {},
            }
        }
        let word = self.text_from(start);
        self.pending =
        Some(Token { loc: self.span_from(start, starts_at), con: TokenContent::Identifier(word) });
        None
    }

    /// Reads a reserved word or an identifier at the cursor.
    pub fn lex_alphabetical_chars(&mut self) -> (r: TokenResult)
        requires
            old(self).wf(),
        ensures
            final(self).wf(),
            final(self).input() == old(self).input(),
            final(self).pos() == word_at(old(self).input(), old(self).pos()).end,
            result_view(r) == word_at(old(self).input(), old(self).pos()).out,
    {
        match self.lex_reserved() {
            Some(token) => token,
            None => {
                proof {
                    let s = self.input();
                    let start = old(self).pos();
                    lemma_run_end(s, start, CharClass::Alphabetic);
                    assert(s.subrange(start, self.pos()).len() == self.pos() - start);
                }
                self.lex_identifier()
            },
        }
    }

    /// Reads a string literal at the cursor.
    pub fn lex_string_literal(&mut self) -> (r: TokenResult)
        requires
            old(self).wf(),
        ensures
            final(self).wf(),
            final(self).input() == old(self).input(),
            final(self).pos() == string_at(old(self).input(), old(self).pos()).end,
            result_view(r) == string_at(old(self).input(), old(self).pos()).out,
    {
        let start = self.cursor;
        let starts_at = self.current_idx;
        self.skip_run(CharClass::StringBody);
        if self.cursor < self.chars.len() {
            self.advance();
            self.skip_run(CharClass::StringBody);
            if self.cursor < self.chars.len() {
                self.advance();
                let literal = self.text_from(start);
                return Ok(
                    Token {
                        loc: self.span_from(start, starts_at),
                        con: TokenContent::StringLiteral(literal),
                    },
                );
            }
        }
        Err(TokenizerErr::UnterminatedStringLiteral)
    }

    /// Reads a number literal at the cursor.
    pub fn lex_number_literal(&mut self) -> (r: TokenResult)
        requires
            old(self).wf(),
        ensures
            final(self).wf(),
            final(self).input() == old(self).input(),
            final(self).pos() == number_at(old(self).input(), old(self).pos()).end,
            result_view(r) == number_at(old(self).input(), old(self).pos()).out,
    {
        let start = self.cursor;
        let starts_at = self.current_idx;
        self.skip_run(CharClass::Digit);
        let literal = self.text_from(start);
        Ok(Token { loc: self.span_from(start, starts_at), con: TokenContent::NumberLiteral(literal) })
    }

    /// Takes the character `c` at the cursor, which starts none of the
    /// longer tokens.
    fn lex_single(&mut self, c: char) -> (r: TokenResult)
        requires
            old(self).wf(),
            old(self).pos() < old(self).input().len(),
            c == old(self).input()[old(self).pos()],
        ensures
            final(self).wf(),
            final(self).input() == old(self).input(),
            final(self).pos() == single_at(old(self).input(), old(self).pos()).end,
            result_view(r) == single_at(old(self).input(), old(self).pos()).out,
    {
        let start = self.cursor;
        let starts_at = self.current_idx;
        self.advance();
        match TokenContent::from_char(c) {
            Some(con) => Ok(Token { loc: self.span_from(start, starts_at), con }),
            None => Err(TokenizerErr::UnexpectedToken),
        }
    }

    /// The next token, or the reason why the text at the cursor makes none.
    /// Whitespace before it is skipped. `None` means that the text has
    /// ended.
    pub fn next(&mut self) -> (r: Option<TokenResult>)
        requires
            old(self).wf(),
        ensures
            final(self).wf(),
            final(self).input() == old(self).input(),
            final(self).pos() == next_pos(old(self).input(), old(self).pos()),
            match r {
                Some(res) => next_lexeme(old(self).input(), old(self).pos()) == Some(
                    Lexeme { out: result_view(res), end: final(self).pos() },
                ),
                None => next_lexeme(old(self).input(), old(self).pos()) is None,
            },
    {
        self.skip_run(CharClass::Whitespace);
        if self.cursor >= self.chars.len() {
            return None;
        }
        let c = self.chars[self.cursor];
        if char_is_digit(c) {
            Some(self.lex_number_literal())
        } else if c.is_alphabetic() {
            Some(self.lex_alphabetical_chars())
        } else if c == '"' {
            Some(self.lex_string_literal())
        } else if c == '@' {
            Some(self.lex_element_identifier())
        } else {
            Some(self.lex_single(c))
        }
    }
}

} // verus!
