//! The parser of an element's body. It reads from the tokenizer of the
//! parser that called it, so what it takes is gone for the caller and what
//! it leaves is still there.

use crate::lang::ast::ViewRoot;
use crate::lang::grammar::{lemma_view_step, view_outcome, view_step, ParserView, StateView};
use crate::lang::parser::{ParseError, ParseResult, Parser};
use crate::lang::scan::{next_lexeme, next_pos, Lexeme};
use crate::lang::tokenizer::{result_view, TokenResult, Tokenizer};
use vstd::prelude::*;

verus! {

/// What a step of the body parser reports.
#[derive(Debug, Clone, Copy, PartialEq, Eq, Structural)]
pub enum ViewParserResult {
    /// Nothing yet: step again.
    Continue,
    /// The parse has failed.
    ParseError(ParseError),
    /// The parse is complete.
    Done,
}

/// The state of the body parser between two steps.
#[derive(Debug, Eq, PartialEq)]
pub enum ViewParserState {
    /// The next step pulls a token.
    Ready,
    /// A token, or the tokenizer's error, waits to be interpreted.
    PendingToken(TokenResult),
    /// The parse has failed; the error is reported from now on.
    PendingParseError(ParseError),
    /// The parse is complete.
    EOF,
}

impl View for ViewParserState {
    type V = StateView;

    open spec fn view(&self) -> StateView {
        match self {
            ViewParserState::Ready => StateView::Ready,
            ViewParserState::PendingToken(res) => StateView::PendingToken(result_view(*res)),
            ViewParserState::PendingParseError(err) => StateView::PendingParseError(*err),
            ViewParserState::EOF => StateView::EOF,
        }
    }
}

impl Default for ViewParserState {
    fn default() -> (r: Self)
        ensures
            r@ == StateView::Ready,
    {
        ViewParserState::Ready
    }
}

impl ViewParserState {
    /// Whether the next step pulls a token.
    pub fn is_ready(&self) -> (r: bool)
        ensures
            r == (self@ == StateView::Ready),
    {
        match self {
            ViewParserState::Ready => true,
            _ => false,
        }
    }
}

/// The parser of one element's body.
pub struct ViewParser<'a> {
    /// The caller's tokenizer.
    pub tokenizer: &'a mut Tokenizer,
    pub state: ViewParserState,
    /// The completed body, from the step that completes it until the
    /// parser's result is taken.
    pub pending: Option<ViewRoot>,
}

impl<'a> View for ViewParser<'a> {
    type V = ParserView<ViewRoot>;

    open spec fn view(&self) -> ParserView<ViewRoot> {
        ParserView {
            input: self.tokenizer.input(),
            pos: self.tokenizer.pos(),
            state: self.state@,
            pending: self.pending,
        }
    }
}

impl<'a> Parser<ViewRoot> for ViewParser<'a> {
    open spec fn can_parse(&self) -> bool {
        self.wf() && !self@.spent()
    }

    open spec fn comes_to(&self, res: ParseResult<ViewRoot>) -> bool {
        res == view_outcome(self@).result
    }

    /// Returns what the rest of the text comes to as a body, and leaves the
    /// parser at its end: spent after a body, failed with the same error
    /// after an error. The tokenizer stands where the parse ended.
    fn parse_all(&mut self) -> (r: ParseResult<ViewRoot>)
        ensures
            final(self).wf(),
            final(self)@ == (ParserView {
                pos: view_outcome(old(self)@).end,
                state: match r {
                    Ok(_) => StateView::EOF,
                    Err(err) => StateView::PendingParseError(err),
                },
                pending: None,
                ..old(self)@
            }),
            *final(final(self).tokenizer) == *final(old(self).tokenizer),
    {
        loop
            invariant
                self.wf(),
                !self@.spent(),
                self@.input == old(self)@.input,
                view_outcome(self@) == view_outcome(old(self)@),
                *final(self.tokenizer) == *final(old(self).tokenizer),
            decreases self@.fuel(),
        {
            proof {
                lemma_view_step(self@);
            }
            match self.advance() {
                ViewParserResult::ParseError(err) => {
                    return Err(err);
                },
                ViewParserResult::Done => {
                    return Ok(self.pending.take().unwrap());
                },
                _ => {},
            }
        }
    }
}

impl<'a> ViewParser<'a> {
    /// The tokenizer stands between two tokens, and the parser's state is
    /// well formed.
    pub open spec fn wf(&self) -> bool {
        self.tokenizer.wf() && self@.wf()
    }

    /// A parser of the body that starts where `tokenizer` stands.
    pub fn new(tokenizer: &'a mut Tokenizer) -> (r: Self)
        requires
            old(tokenizer).wf(),
        ensures
            r.wf(),
            r@ == ParserView::<ViewRoot>::fresh(old(tokenizer).input(), old(tokenizer).pos()),
            *final(r.tokenizer) == *final(tokenizer),
    {
        ViewParser { tokenizer, state: ViewParserState::default(), pending: None }
    }

    /// Interprets a token of the body: any token is accepted, an error of
    /// the tokenizer fails the parse.
    fn parse_token(&mut self, res: TokenResult)
        requires
            old(self).state@ == StateView::Ready,
        ensures
            final(self).pending == old(self).pending,
            *final(self).tokenizer == *old(self).tokenizer,
            *final(final(self).tokenizer) == *final(old(self).tokenizer),
            final(self).state@ == match res {
                Ok(_) => StateView::Ready,
                Err(err) => StateView::PendingParseError(ParseError::TokenizeError(err)),
            },
    {
        match res {
            Ok(_) => {},
            Err(err) => {
                self.state = ViewParserState::PendingParseError(ParseError::TokenizeError(err));
            },
        }
    }

    /// Takes one step. See `view_step` for what each state does.
    pub fn advance(&mut self) -> (r: ViewParserResult)
        requires
            old(self).wf(),
            !old(self)@.spent(),
        ensures
            final(self).wf(),
            (final(self)@, r) == view_step(old(self)@),
            *final(final(self).tokenizer) == *final(old(self).tokenizer),
    {
        proof {
            lemma_view_step(self@);
        }
        let mut state = ViewParserState::default();
        std::mem::swap(&mut self.state, &mut state);
        match state {
            ViewParserState::Ready => {
                match self.consume_token() {
                    Some(tok) => {
                        self.state = ViewParserState::PendingToken(tok);
                    },
                    None => {
                        self.pending = Some(ViewRoot::default());
                        self.state = ViewParserState::EOF;
                    },
                }
                ViewParserResult::Continue
            },
            ViewParserState::PendingToken(tok) => {
                self.parse_token(tok);
                ViewParserResult::Continue
            },
            ViewParserState::PendingParseError(err) => {
                self.state = ViewParserState::PendingParseError(err);
                ViewParserResult::ParseError(err)
            },
            ViewParserState::EOF => {
                self.state = ViewParserState::EOF;
                ViewParserResult::Done
            },
        }
    }

    /// Pulls the next token.
    fn consume_token(&mut self) -> (r: Option<TokenResult>)
        requires
            old(self).tokenizer.wf(),
        ensures
            final(self).tokenizer.wf(),
            final(self).tokenizer.input() == old(self).tokenizer.input(),
            final(self).tokenizer.pos() == next_pos(
                old(self).tokenizer.input(),
                old(self).tokenizer.pos(),
            ),
            final(self).state == old(self).state,
            final(self).pending == old(self).pending,
            *final(final(self).tokenizer) == *final(old(self).tokenizer),
            match r {
                Some(res) => next_lexeme(old(self).tokenizer.input(), old(self).tokenizer.pos())
                    == Some(Lexeme { out: result_view(res), end: final(self).tokenizer.pos() }),
                None => next_lexeme(old(self).tokenizer.input(), old(self).tokenizer.pos())
                    is None,
            },
    {
        self.tokenizer.next()
    }
}

} // verus!
