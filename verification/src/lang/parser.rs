//! The parser of queries: a state machine that pulls tokens one at a time
//! and builds one query.

use crate::lang::ast::{CreateQuery, CreateQueryView, Token, TokenContent, ViewRoot};
use crate::lang::grammar::{
    create_at, lemma_module_step, module_end, module_outcome, module_step, view_at, ModuleStep,
    Parsed, ParserView, StateView,
};
use crate::lang::parser::view::ViewParser;
use crate::lang::scan::{next_lexeme, next_pos, Lexeme};
use crate::lang::tokenizer::{result_view, TokenResult, Tokenizer, TokenizerErr};
use vstd::prelude::*;

pub mod view;

verus! {

/// Why a text is no query.
#[derive(Debug, Clone, Copy, Eq, PartialEq, Structural)]
pub enum ParseError {
    /// A token of the wrong kind stands where the grammar asks for another.
    UnexpectedToken,
    /// The text ends where the grammar asks for a token.
    SyntaxError,
    /// The tokenizer rejected the text.
    TokenizeError(TokenizerErr),
}

pub type ParseResult<T> = Result<T, ParseError>;

/// A parser that can be driven to its end in one call.
pub trait Parser<T> {
    /// Whether the parser may still be asked for its result: it is well
    /// formed and not spent.
    spec fn can_parse(&self) -> bool;

    /// Whether `res` is what the parser comes to when it is driven to its
    /// end: the item that the tokens from here on make, or the first error
    /// among them.
    spec fn comes_to(&self, res: ParseResult<T>) -> bool;

    /// Steps until the parse is complete or has failed, and returns the
    /// item or the error.
    fn parse_all(&mut self) -> (r: ParseResult<T>)
        requires
            old(self).can_parse(),
        ensures
            old(self).comes_to(r),
    ;
}

/// The view of a query that may have failed to parse.
pub open spec fn query_view(res: ParseResult<CreateQuery>) -> Result<CreateQueryView, ParseError> {
    match res {
        Ok(query) => Ok(query@),
        Err(err) => Err(err),
    }
}

/// The state of the query parser between two steps.
#[derive(Debug, Eq, PartialEq)]
pub enum ModuleParserState {
    /// A token, or the tokenizer's error, waits to be interpreted.
    PendingToken(TokenResult),
    /// The parse has failed; the error is reported from now on.
    PendingParseError(ParseError),
    /// The parser is at its end: the query is complete, or the text ran
    /// out before there was one.
    EOF,
    /// The next step pulls a token.
    Ready,
}

impl View for ModuleParserState {
    type V = StateView;

    open spec fn view(&self) -> StateView {
        match self {
            ModuleParserState::PendingToken(res) => StateView::PendingToken(result_view(*res)),
            ModuleParserState::PendingParseError(err) => StateView::PendingParseError(*err),
            ModuleParserState::EOF => StateView::EOF,
            ModuleParserState::Ready => StateView::Ready,
        }
    }
}

impl Default for ModuleParserState {
    fn default() -> (r: Self)
        ensures
            r@ == StateView::Ready,
    {
        ModuleParserState::Ready
    }
}

impl ModuleParserState {
    /// Whether the next step pulls a token.
    pub fn is_ready(&self) -> (r: bool)
        ensures
            r == (self@ == StateView::Ready),
    {
        match self {
            ModuleParserState::Ready => true,
            _ => false,
        }
    }

    /// The token or error that waits to be interpreted, if one does.
    pub fn has_pending_token(&self) -> (r: Option<&TokenResult>)
        ensures
            r == match self {
                ModuleParserState::PendingToken(token) => Some(token),
                _ => None,
            },
    {
        match self {
            ModuleParserState::PendingToken(token) => Some(token),
            _ => None,
        }
    }
}

/// The parser of one query. It owns the tokenizer that it reads from and
/// lends it to the parser of the body.
pub struct ModuleParser {
    tokenizer: Tokenizer,
    state: ModuleParserState,
    /// The completed query, from the step that completes it to the step
    /// that hands it out.
    pending: Option<CreateQuery>,
}

/// What a step of the query parser reports.
#[derive(Debug, Eq, PartialEq)]
pub enum ModuleParserResult {
    /// Nothing yet: step again.
    Continue,
    /// The parse has failed.
    ParseError(ParseError),
    /// The parse is complete, and this is its item.
    Done(CreateQuery),
}

impl View for ModuleParserResult {
    type V = ModuleStep;

    open spec fn view(&self) -> ModuleStep {
        match self {
            ModuleParserResult::Continue => ModuleStep::Continue,
            ModuleParserResult::ParseError(err) => ModuleStep::ParseError(*err),
            ModuleParserResult::Done(query) => ModuleStep::Done(query@),
        }
    }
}

impl View for ModuleParser {
    type V = ParserView<CreateQueryView>;

    closed spec fn view(&self) -> ParserView<CreateQueryView> {
        ParserView {
            input: self.tokenizer.input(),
            pos: self.tokenizer.pos(),
            state: self.state@,
            pending: match self.pending {
                Some(query) => Some(query@),
                None => None,
            },
        }
    }
}

impl Parser<CreateQuery> for ModuleParser {
    open spec fn can_parse(&self) -> bool {
        self.wf() && !self@.spent()
    }

    open spec fn comes_to(&self, res: ParseResult<CreateQuery>) -> bool {
        query_view(res) == module_outcome(self@).result
    }

    /// Returns what the text comes to as a query, and leaves the parser as
    /// `module_end` says: spent after a query, failed with the same error
    /// after an error. The tokenizer stands where the parse ended.
    ///
    /// A text without a token brings the parser to its end with no item to
    /// return. That is a syntax error, and it leaves the parser spent.
    fn parse_all(&mut self) -> (r: ParseResult<CreateQuery>)
        ensures
            final(self).wf(),
            final(self)@ == module_end(old(self)@),
    {
        loop
            invariant
                self.wf(),
                !self@.spent(),
                module_outcome(self@) == module_outcome(old(self)@),
                module_end(self@) == module_end(old(self)@),
            decreases self@.fuel(),
        {
            proof {
                lemma_module_step(self@);
            }
            match self.advance() {
                ModuleParserResult::Done(ast) => {
                    return Ok(ast);
                },
                ModuleParserResult::ParseError(err) => {
                    return Err(err);
                },
                _ => {
                    if self.is_spent() {
                        return Err(ParseError::SyntaxError);
                    }
                },
            }
        }
    }
}

impl ModuleParser {
    /// The tokenizer stands between two tokens, and the parser's state is
    /// well formed.
    pub closed spec fn wf(&self) -> bool {
        self.tokenizer.wf() && self@.wf()
    }

    /// A parser that reads its tokens from `tokenizer`.
    pub fn new(tokenizer: Tokenizer) -> (r: Self)
        requires
            tokenizer.wf(),
        ensures
            r.wf(),
            r@ == ParserView::<CreateQueryView>::fresh(tokenizer.input(), tokenizer.pos()),
    {
        ModuleParser { tokenizer, state: ModuleParserState::default(), pending: None }
    }

    /// A parser of the query in `input`.
    pub fn from_str(input: &str) -> (r: Self)
        ensures
            r.wf(),
            r@ == ParserView::<CreateQueryView>::fresh(input@, 0),
    {
        Self::new(Tokenizer::new(input))
    }

    /// Whether the parser is at its end with no item to hand out. Such a
    /// parser may not be stepped or asked for its result.
    pub fn is_spent(&self) -> (r: bool)
        ensures
            r == self@.spent(),
    {
        match self.state {
            ModuleParserState::EOF => self.pending.is_none(),
            _ => false,
        }
    }

    /// Fails the parse with `err`.
    fn set_pending_err(&mut self, err: ParseError)
        requires
            old(self).state@ == StateView::Ready,
        ensures
            final(self).state@ == StateView::PendingParseError(err),
            final(self).tokenizer == old(self).tokenizer,
            final(self).pending == old(self).pending,
    {
        self.state = ModuleParserState::PendingParseError(err);
    }

    /// Ends the parse as `res` says: complete, with the query kept until it
    /// is handed out, or failed.
    fn set_state_from_parse_result(&mut self, res: ParseResult<CreateQuery>)
        requires
            old(self).state@ == StateView::Ready,
        ensures
            final(self).tokenizer == old(self).tokenizer,
            match res {
                Ok(query) => final(self).state@ == StateView::EOF && final(self).pending == Some(
                    query,
                ),
                Err(err) => final(self).state@ == StateView::PendingParseError(err)
                    && final(self).pending == old(self).pending,
            },
    {
        match res {
            Ok(query) => {
                self.pending = Some(query);
                self.state = ModuleParserState::EOF;
            },
            Err(err) => {
                self.set_pending_err(err);
            },
        }
    }

    /// Pulls a token that the grammar needs: the end of the text is a
    /// syntax error, and an error of the tokenizer is passed on.
    fn consume_token_or_err(&mut self) -> (r: Result<Token, ParseError>)
        requires
            old(self).tokenizer.wf(),
        ensures
            final(self).tokenizer.wf(),
            final(self).tokenizer.input() == old(self).tokenizer.input(),
            final(self).tokenizer.pos() == next_pos(
                old(self).tokenizer.input(),
                old(self).tokenizer.pos(),
            ),
            final(self).state == old(self).state,
            final(self).pending == old(self).pending,
            match next_lexeme(old(self).tokenizer.input(), old(self).tokenizer.pos()) {
                None => r == Err::<Token, ParseError>(ParseError::SyntaxError),
                Some(lexeme) => match lexeme.out {
                    Ok(token) => r is Ok && r.unwrap()@ == token,
                    Err(err) => r == Err::<Token, ParseError>(ParseError::TokenizeError(err)),
                },
            },
    {
        match self.consume_token() {
            Some(res) => match res {
                Ok(tok) => Ok(tok),
                Err(err) => Err(ParseError::TokenizeError(err)),
            },
            None => Err(ParseError::SyntaxError),
        }
    }

    /// Parses the body of an element with a parser of its own, which reads
    /// from this parser's tokenizer.
    fn parse_view(&mut self) -> (r: ParseResult<ViewRoot>)
        requires
            old(self).tokenizer.wf(),
        ensures
            final(self).tokenizer.wf(),
            final(self).tokenizer.input() == old(self).tokenizer.input(),
            final(self).state == old(self).state,
            final(self).pending == old(self).pending,
            (Parsed { result: r, end: final(self).tokenizer.pos() }) == view_at(
                old(self).tokenizer.input(),
                old(self).tokenizer.pos(),
            ),
    {
        let mut parser = ViewParser::new(&mut self.tokenizer);
        parser.parse_all()
    }

    /// Parses the rest of a `create` query.
    fn parse_create(&mut self) -> (r: ParseResult<CreateQuery>)
        requires
            old(self).tokenizer.wf(),
        ensures
            final(self).tokenizer.wf(),
            final(self).tokenizer.input() == old(self).tokenizer.input(),
            final(self).state == old(self).state,
            final(self).pending == old(self).pending,
            (Parsed { result: query_view(r), end: final(self).tokenizer.pos() }) == create_at(
                old(self).tokenizer.input(),
                old(self).tokenizer.pos(),
            ),
    {
        let mut query = CreateQuery::default();
        let tok = match self.consume_token_or_err() {
            Ok(tok) => tok,
            Err(err) => {
                return Err(err);
            },
        };
        match tok.con {
            TokenContent::Identifier(elm_name) => {
                query.elm_name = elm_name;
                match self.parse_view() {
                    Ok(view) => {
                        query.view = view;
                        Ok(query)
                    },
                    Err(err) => Err(err),
                }
            },
            _ => Err(ParseError::UnexpectedToken),
        }
    }

    /// Interprets the leading token of a query.
    fn parse_token(&mut self, res: TokenResult)
        requires
            old(self).tokenizer.wf(),
            old(self).state@ == StateView::Ready,
            old(self).pending is None,
        ensures
            final(self).tokenizer.wf(),
            (final(self)@, ModuleStep::Continue) == module_step(
                ParserView { state: StateView::PendingToken(result_view(res)), ..old(self)@ },
            ),
    {
        match res {
            Ok(token) => match token.con {
                TokenContent::Create => {
                    let res = self.parse_create();
                    self.set_state_from_parse_result(res);
                },
                _ => self.set_pending_err(ParseError::UnexpectedToken),
            },
            Err(err) => self.set_pending_err(ParseError::TokenizeError(err)),
        }
    }

    /// Takes one step. See `module_step` for what each state does.
    ///
    /// A spent parser must not be stepped: after a step that reports
    /// nothing, `is_spent` tells whether another may follow.
    pub fn advance(&mut self) -> (r: ModuleParserResult)
        requires
            old(self).wf(),
            !old(self)@.spent(),
        ensures
            final(self).wf(),
            (final(self)@, r@) == module_step(old(self)@),
    {
        proof {
            lemma_module_step(self@);
        }
        let mut state = ModuleParserState::default();
        std::mem::swap(&mut self.state, &mut state);
        match state {
            ModuleParserState::Ready => {
                match self.consume_token() {
                    Some(res) => {
                        self.state = ModuleParserState::PendingToken(res);
                    },
                    None => {
                        self.state = ModuleParserState::EOF;
                    },
                }
                ModuleParserResult::Continue
            },
            ModuleParserState::PendingToken(token) => {
                self.parse_token(token);
                ModuleParserResult::Continue
            },
            ModuleParserState::PendingParseError(err) => {
                self.state = ModuleParserState::PendingParseError(err);
                ModuleParserResult::ParseError(err)
            },
            ModuleParserState::EOF => {
                self.state = ModuleParserState::EOF;
                ModuleParserResult::Done(self.pending.take().unwrap())
            },
        }
    }

    /// Pulls the next token.
    fn consume_token(&mut self) -> (r: Option<TokenResult>)
        requires
            old(self).tokenizer.wf(),
        ensures
            final(self).tokenizer.wf(),
            final(self).tokenizer.input() == old(self).tokenizer.input(),
            final(self).tokenizer.pos() == next_pos(
                old(self).tokenizer.input(),
                old(self).tokenizer.pos(),
            ),
            final(self).state == old(self).state,
            final(self).pending == old(self).pending,
            match r {
                Some(res) => next_lexeme(old(self).tokenizer.input(), old(self).tokenizer.pos())
                    == Some(
                    (Lexeme { out: result_view(res), end: final(self).tokenizer.pos() }),
                ),
                None => next_lexeme(old(self).tokenizer.input(), old(self).tokenizer.pos())
                    is None,
            },
    {
        self.tokenizer.next()
    }
}

} // verus!
