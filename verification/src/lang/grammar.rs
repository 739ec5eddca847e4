//! The grammar: what the tokens of a text parse to, and the steps in which a
//! parser gets there.

use crate::lang::ast::{ContentView, CreateQueryView, TokenView, ViewRoot};
use crate::lang::parser::view::ViewParserResult;
use crate::lang::parser::ParseError;
use crate::lang::scan::{lemma_next_advances, next_lexeme, next_pos};
use crate::lang::tokenizer::TokenizerErr;
use vstd::prelude::*;

verus! {

/// The state of a parser between two steps.
pub enum StateView {
    /// The next step pulls a token.
    Ready,
    /// A token, or the tokenizer's error, waits to be interpreted.
    PendingToken(Result<TokenView, TokenizerErr>),
    /// The parse has failed; the error is reported from now on.
    PendingParseError(ParseError),
    /// The parser is at its end: its item is complete, or the text ran out
    /// before there was one.
    EOF,
}

/// A parser between two steps: the text and how far the tokenizer has got
/// in it, the state, and the completed item while it waits to be handed
/// out.
pub struct ParserView<T> {
    pub input: Seq<char>,
    pub pos: int,
    pub state: StateView,
    pub pending: Option<T>,
}

impl<T> ParserView<T> {
    /// A parser that has not taken a step, with the tokenizer at `pos`.
    pub open spec fn fresh(input: Seq<char>, pos: int) -> Self {
        ParserView { input, pos, state: StateView::Ready, pending: None }
    }

    /// The tokenizer stands within the text, and an item waits only in a
    /// complete parse.
    pub open spec fn wf(self) -> bool {
        &&& 0 <= self.pos <= self.input.len()
        &&& self.pending is Some ==> self.state is EOF
    }

    /// The parser is at its end and has no item to hand out: the item has
    /// been taken, or the text ran out before there was one. Nothing more
    /// may be asked of such a parser.
    pub open spec fn spent(self) -> bool {
        self.state is EOF && self.pending is None
    }

    /// The parser is about to pull a token, and the text has none left.
    pub open spec fn out_of_tokens(self) -> bool {
        self.state is Ready && next_lexeme(self.input, self.pos) is None
    }

    /// A bound on the number of steps that are left before the parser
    /// reports its end.
    pub open spec fn fuel(self) -> int {
        match self.state {
            StateView::Ready => 2 * (self.input.len() - self.pos) + 1,
            StateView::PendingToken(_) => 2 * (self.input.len() - self.pos) + 2,
            _ => 0,
        }
    }
}

/// What a grammar rule makes of the tokens from a position: an item or the
/// first error, and where it leaves the tokenizer.
pub struct Parsed<T> {
    pub result: Result<T, ParseError>,
    pub end: int,
}

/// The body of an element, read from `i`. The body grammar has no rules of
/// its own: every token up to the end of the text belongs to the body and
/// adds nothing to it. The first token that the tokenizer rejects fails the
/// body.
pub open spec fn view_at(s: Seq<char>, i: int) -> Parsed<ViewRoot>
    decreases s.len() - i,
    when 0 <= i <= s.len()
{
    match next_lexeme(s, i) {
        None => Parsed { result: Ok(ViewRoot {  }), end: next_pos(s, i) },
        Some(lexeme) => match lexeme.out {
            Err(err) => Parsed { result: Err(ParseError::TokenizeError(err)), end: lexeme.end },
            Ok(_) => {
                proof {
                    lemma_next_advances(s, i);
                }
                view_at(s, lexeme.end)
            },
        },
    }
}

/// The rest of a `create` query, read from `i`, right after the reserved
/// word: an identifier, which names the element, and the element's body.
/// Another token in the identifier's place is unexpected; the end of the
/// text there is a syntax error.
pub open spec fn create_at(s: Seq<char>, i: int) -> Parsed<CreateQueryView> {
    match next_lexeme(s, i) {
        None => Parsed { result: Err(ParseError::SyntaxError), end: next_pos(s, i) },
        Some(lexeme) => match lexeme.out {
            Err(err) => Parsed { result: Err(ParseError::TokenizeError(err)), end: lexeme.end },
            Ok(TokenView { loc, con: ContentView::Identifier(elm_name) }) => {
                let body = view_at(s, lexeme.end);
                Parsed {
                    result: match body.result {
                        Ok(view) => Ok(CreateQueryView { elm_name, view }),
                        Err(err) => Err(err),
                    },
                    end: body.end,
                }
            },
            Ok(_) => Parsed { result: Err(ParseError::UnexpectedToken), end: lexeme.end },
        },
    }
}

/// The query that the leading token `first` starts, the tokenizer standing
/// at `i` after it. Only `create` starts a query.
pub open spec fn query_after(first: Result<TokenView, TokenizerErr>, s: Seq<char>, i: int) -> Parsed<
    CreateQueryView,
> {
    match first {
        Err(err) => Parsed { result: Err(ParseError::TokenizeError(err)), end: i },
        Ok(TokenView { loc, con: ContentView::Create }) => create_at(s, i),
        Ok(_) => Parsed { result: Err(ParseError::UnexpectedToken), end: i },
    }
}

/// The query read from `i`. A text that ends before the first token of a
/// query holds none, which is a syntax error.
pub open spec fn query_at(s: Seq<char>, i: int) -> Parsed<CreateQueryView> {
    match next_lexeme(s, i) {
        None => Parsed { result: Err(ParseError::SyntaxError), end: next_pos(s, i) },
        Some(lexeme) => query_after(lexeme.out, s, lexeme.end),
    }
}

/// What a step of the query parser reports.
pub enum ModuleStep {
    Continue,
    ParseError(ParseError),
    Done(CreateQueryView),
}

/// One step of the query parser: the parser after it, and what the step
/// reports.
///
/// A ready parser pulls a token; without one it is at its end. A pending
/// token is interpreted as the start of a query, which either ends the parse
/// with the query as its item or fails it. A failed parser reports its error
/// and stays as it is. A parser at its end hands its item out and keeps
/// none.
pub open spec fn module_step(v: ParserView<CreateQueryView>) -> (
    ParserView<CreateQueryView>,
    ModuleStep,
) {
    match v.state {
        StateView::Ready => match next_lexeme(v.input, v.pos) {
            Some(lexeme) => (
                ParserView { pos: lexeme.end, state: StateView::PendingToken(lexeme.out), ..v },
                ModuleStep::Continue,
            ),
            None => (
                ParserView { pos: next_pos(v.input, v.pos), state: StateView::EOF, ..v },
                ModuleStep::Continue,
            ),
        },
        StateView::PendingToken(first) => {
            let query = query_after(first, v.input, v.pos);
            match query.result {
                Ok(item) => (
                    ParserView {
                        pos: query.end,
                        state: StateView::EOF,
                        pending: Some(item),
                        ..v
                    },
                    ModuleStep::Continue,
                ),
                Err(err) => (
                    ParserView { pos: query.end, state: StateView::PendingParseError(err), ..v },
                    ModuleStep::Continue,
                ),
            }
        },
        StateView::PendingParseError(err) => (v, ModuleStep::ParseError(err)),
        StateView::EOF => (ParserView { pending: None, ..v }, ModuleStep::Done(v.pending.unwrap())),
    }
}

/// What the query parser comes to when it is driven from `v` to its end.
/// A parser that reaches its end without an item, because the text held no
/// token, comes to a syntax error.
pub open spec fn module_outcome(v: ParserView<CreateQueryView>) -> Parsed<CreateQueryView> {
    match v.state {
        StateView::Ready => query_at(v.input, v.pos),
        StateView::PendingToken(first) => query_after(first, v.input, v.pos),
        StateView::PendingParseError(err) => Parsed { result: Err(err), end: v.pos },
        StateView::EOF => Parsed { result: Ok(v.pending.unwrap()), end: v.pos },
    }
}

/// The query parser after it has been driven from `v` to its end and its
/// result has been taken. It holds no item. It is at its end after a query,
/// and also where the text held no token; after any other error it is
/// failed with that error.
pub open spec fn module_end(v: ParserView<CreateQueryView>) -> ParserView<CreateQueryView> {
    ParserView {
        pos: module_outcome(v).end,
        state: if v.out_of_tokens() {
            StateView::EOF
        } else {
            match module_outcome(v).result {
                Ok(_) => StateView::EOF,
                Err(err) => StateView::PendingParseError(err),
            }
        },
        pending: None,
        ..v
    }
}

/// One step of the body parser: the parser after it, and what the step
/// reports.
///
/// A ready parser pulls a token; without one the body is complete. A
/// pending token is accepted, a pending tokenizer error fails the parse. A
/// failed parser reports its error, a complete one that it is done, and
/// both stay as they are.
pub open spec fn view_step(v: ParserView<ViewRoot>) -> (ParserView<ViewRoot>, ViewParserResult) {
    match v.state {
        StateView::Ready => match next_lexeme(v.input, v.pos) {
            Some(lexeme) => (
                ParserView { pos: lexeme.end, state: StateView::PendingToken(lexeme.out), ..v },
                ViewParserResult::Continue,
            ),
            None => (
                ParserView {
                    pos: next_pos(v.input, v.pos),
                    state: StateView::EOF,
                    pending: Some(ViewRoot {  }),
                    ..v
                },
                ViewParserResult::Continue,
            ),
        },
        StateView::PendingToken(Ok(_)) => (
            ParserView { state: StateView::Ready, ..v },
            ViewParserResult::Continue,
        ),
        StateView::PendingToken(Err(err)) => (
            ParserView {
                state: StateView::PendingParseError(ParseError::TokenizeError(err)),
                ..v
            },
            ViewParserResult::Continue,
        ),
        StateView::PendingParseError(err) => (v, ViewParserResult::ParseError(err)),
        StateView::EOF => (v, ViewParserResult::Done),
    }
}

/// What the body parser comes to when it is driven from `v` to its end.
pub open spec fn view_outcome(v: ParserView<ViewRoot>) -> Parsed<ViewRoot> {
    match v.state {
        StateView::Ready => view_at(v.input, v.pos),
        StateView::PendingToken(Ok(_)) => view_at(v.input, v.pos),
        StateView::PendingToken(Err(err)) => Parsed {
            result: Err(ParseError::TokenizeError(err)),
            end: v.pos,
        },
        StateView::PendingParseError(err) => Parsed { result: Err(err), end: v.pos },
        StateView::EOF => Parsed { result: Ok(v.pending.unwrap()), end: v.pos },
    }
}

/// A body ends no earlier than it starts and within the text. A body that
/// parses takes the whole rest of the text.
pub proof fn lemma_view_at_bounds(s: Seq<char>, i: int)
    requires
        0 <= i <= s.len(),
    ensures
        i <= view_at(s, i).end <= s.len(),
        view_at(s, i).result is Ok ==> view_at(s, i).end == s.len(),
    decreases s.len() - i,
{
    lemma_next_advances(s, i);
    match next_lexeme(s, i) {
        Some(lexeme) => {
            if lexeme.out is Ok {
                lemma_view_at_bounds(s, lexeme.end);
            }
        },
        None => {},
    }
}

/// A query ends no earlier than it starts and within the text.
pub proof fn lemma_query_bounds(s: Seq<char>, i: int)
    requires
        0 <= i <= s.len(),
    ensures
        i <= create_at(s, i).end <= s.len(),
        i <= query_at(s, i).end <= s.len(),
        forall|first: Result<TokenView, TokenizerErr>|
            i <= (#[trigger] query_after(first, s, i)).end <= s.len(),
{
    lemma_next_advances(s, i);
    match next_lexeme(s, i) {
        Some(lexeme) => {
            lemma_view_at_bounds(s, lexeme.end);
            lemma_next_advances(s, lexeme.end);
            match next_lexeme(s, lexeme.end) {
                Some(second) => {
                    lemma_view_at_bounds(s, second.end);
                },
                None => {},
            }
        },
        None => {},
    }
}

/// A step of the query parser keeps the parser well formed and the text
/// as it is, and never moves the tokenizer back. A step that reports
/// nothing either leaves the parser spent, which it does where the text
/// held no token, or brings it nearer to its end without changing what it
/// will come to. A step that reports the end reports what the parser was to
/// come to. Either way the parser is then as `module_end` says.
pub proof fn lemma_module_step(v: ParserView<CreateQueryView>)
    requires
        v.wf(),
        !v.spent(),
    ensures
        module_step(v).0.wf(),
        module_step(v).0.input == v.input,
        v.pos <= module_step(v).0.pos,
        match module_step(v).1 {
            ModuleStep::Continue => if module_step(v).0.spent() {
                &&& v.out_of_tokens()
                &&& module_outcome(v).result == Err::<CreateQueryView, ParseError>(
                    ParseError::SyntaxError,
                )
                &&& module_end(v) == module_step(v).0
            } else {
                &&& module_outcome(module_step(v).0) == module_outcome(v)
                &&& module_end(module_step(v).0) == module_end(v)
                &&& 0 <= module_step(v).0.fuel() < v.fuel()
            },
            ModuleStep::ParseError(err) => {
                &&& module_step(v).0 == v
                &&& module_end(v) == v
                &&& module_outcome(v).result == Err::<CreateQueryView, ParseError>(err)
            },
            ModuleStep::Done(item) => {
                &&& module_end(v) == module_step(v).0
                &&& module_outcome(v).result == Ok::<CreateQueryView, ParseError>(item)
            },
        },
{
    lemma_next_advances(v.input, v.pos);
    lemma_query_bounds(v.input, v.pos);
}

/// A step of the body parser keeps the parser well formed and the text as
/// it is, and never moves the tokenizer back. A step that reports nothing
/// brings the parser nearer to its end without changing what it will come
/// to; a step that reports the end leaves the parser as it is and reports
/// what the parser was to come to.
pub proof fn lemma_view_step(v: ParserView<ViewRoot>)
    requires
        v.wf(),
        !v.spent(),
    ensures
        view_step(v).0.wf(),
        view_step(v).0.input == v.input,
        v.pos <= view_step(v).0.pos,
        match view_step(v).1 {
            ViewParserResult::Continue => {
                &&& !view_step(v).0.spent()
                &&& view_outcome(view_step(v).0) == view_outcome(v)
                &&& 0 <= view_step(v).0.fuel() < v.fuel()
            },
            ViewParserResult::ParseError(err) => {
                &&& view_step(v).0 == v
                &&& view_outcome(v) == (Parsed::<ViewRoot> { result: Err(err), end: v.pos })
            },
            ViewParserResult::Done => {
                &&& view_step(v).0 == v
                &&& v.pending is Some
                &&& view_outcome(v) == (Parsed { result: Ok(v.pending.unwrap()), end: v.pos })
            },
        },
{
    lemma_next_advances(v.input, v.pos);
}

/// A text without a token brings a ready parser to its end in one step,
/// with no item: the parser is spent and may not be stepped again.
pub proof fn lemma_blank_text_ends_the_parse(v: ParserView<CreateQueryView>)
    requires
        v.wf(),
        v.out_of_tokens(),
    ensures
        module_step(v) == (
            ParserView { pos: v.input.len() as int, state: StateView::EOF, ..v },
            ModuleStep::Continue,
        ),
        module_step(v).0.spent(),
{
    lemma_next_advances(v.input, v.pos);
}

/// A completed query is handed out once. The step that reports it leaves
/// the parser spent, with nothing to hand out again, and a spent parser may
/// not be stepped.
pub proof fn lemma_item_handed_out_once(v: ParserView<CreateQueryView>)
    requires
        v.wf(),
        v.state is EOF,
        !v.spent(),
    ensures
        module_step(v).1 == ModuleStep::Done(v.pending.unwrap()),
        module_step(v).0.spent(),
{
}

/// A failed parse stays failed: each further step reports the same error
/// and changes nothing.
pub proof fn lemma_failure_repeats(v: ParserView<CreateQueryView>, err: ParseError)
    requires
        v.state == StateView::PendingParseError(err),
    ensures
        module_step(v) == (v, ModuleStep::ParseError(err)),
{
}

/// Only `create` starts a query: a text whose first token is another one
/// fails with that token as unexpected.
pub proof fn lemma_query_starts_with_create(s: Seq<char>, i: int)
    requires
        next_lexeme(s, i) is Some,
        next_lexeme(s, i).unwrap().out is Ok,
        next_lexeme(s, i).unwrap().out.unwrap().con != ContentView::Create,
    ensures
        query_at(s, i).result == Err::<CreateQueryView, ParseError>(ParseError::UnexpectedToken),
{
}

/// `create` with nothing after it is a syntax error.
pub proof fn lemma_create_needs_a_name(s: Seq<char>, i: int)
    requires
        next_lexeme(s, i) is Some,
        next_lexeme(s, i).unwrap().out is Ok,
        next_lexeme(s, i).unwrap().out.unwrap().con == ContentView::Create,
        next_lexeme(s, next_pos(s, i)) is None,
    ensures
        query_at(s, i).result == Err::<CreateQueryView, ParseError>(ParseError::SyntaxError),
{
}

} // verus!
