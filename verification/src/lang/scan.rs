//! The lexical rules: which token begins at a position of a text, and where
//! it ends.

use crate::lang::ast::{
    keyword, lemma_keyword_prefix_free, lemma_keyword_shape, punctuation, ContentView, TokenLoc,
    TokenView,
};
use crate::lang::chars::{
    is_digit, is_letter, is_whitespace, lemma_run_end, lemma_run_end_unique, run_end, CharClass,
};
use crate::lang::tokenizer::TokenizerErr;
use vstd::prelude::*;

verus! {

/// `n` as a position counter holds it: modulo 2^32.
pub open spec fn wrap32(n: int) -> u32 {
    (n % 0x1_0000_0000) as u32
}

/// Counting `more` onto a wrapped count gives the wrapped sum.
pub proof fn lemma_wrap32_add(n: int, more: int)
    requires
        0 <= n,
        0 <= more,
    ensures
        wrap32(wrap32(n) + more) == wrap32(n + more),
        wrap32(n + wrap32(more)) == wrap32(n + more),
{
    vstd::arithmetic::div_mod::lemma_add_mod_noop_right(more, n, 0x1_0000_0000);
    vstd::arithmetic::div_mod::lemma_add_mod_noop_right(n, more, 0x1_0000_0000);
}

/// The span of the characters from `start` up to `end`.
pub open spec fn span(start: int, end: int) -> TokenLoc {
    TokenLoc { starts_at: wrap32(start), len: wrap32(end - start) }
}

/// What a lexical rule makes of the text at a position: a token or an error,
/// and the position after the characters that it took.
pub struct Lexeme {
    pub out: Result<TokenView, TokenizerErr>,
    pub end: int,
}

/// The token `con` made of the characters from `start` up to `end`.
pub open spec fn token(start: int, end: int, con: ContentView) -> Lexeme {
    Lexeme { out: Ok(TokenView { loc: span(start, end), con }), end }
}

/// The error `err`, found after taking the characters up to `end`.
pub open spec fn failure(err: TokenizerErr, end: int) -> Lexeme {
    Lexeme { out: Err(err), end }
}

/// A number literal: the maximal run of digits from `i`.
pub open spec fn number_at(s: Seq<char>, i: int) -> Lexeme {
    let end = run_end(s, i, CharClass::Digit);
    token(i, end, ContentView::NumberLiteral(s.subrange(i, end)))
}

/// A string literal: everything from `i` up to the second double quote,
/// both quotes included. If the text ends before that, all of it is taken
/// and the literal is unterminated.
pub open spec fn string_at(s: Seq<char>, i: int) -> Lexeme {
    let opening = run_end(s, i, CharClass::StringBody);
    let closing = run_end(s, opening + 1, CharClass::StringBody);
    if closing < s.len() {
        token(i, closing + 1, ContentView::StringLiteral(s.subrange(i, closing + 1)))
    } else {
        failure(TokenizerErr::UnterminatedStringLiteral, s.len() as int)
    }
}

/// An element reference: `@` and the maximal run of letters after it, which
/// must not be empty. Without an `@` at `i` nothing is taken.
pub open spec fn element_at(s: Seq<char>, i: int) -> Lexeme {
    if 0 <= i < s.len() && s[i] == '@' {
        let end = run_end(s, i + 1, CharClass::Alphabetic);
        if end == i + 1 {
            failure(TokenizerErr::EmptyElementIdentifier, end)
        } else {
            token(i, end, ContentView::ElementRef(s.subrange(i, end)))
        }
    } else {
        failure(TokenizerErr::InvalidElementIdentifier, i)
    }
}

/// Where the reserved word that starts at `start` ends, if the letters from
/// `start` spell one: the first position after `j` at which the letters
/// taken so far are a reserved word. The scan goes letter by letter and
/// stops at the first hit; it does not look at what follows.
pub open spec fn reserved_end(s: Seq<char>, start: int, j: int) -> Option<int>
    decreases s.len() - j,
{
    if 0 <= start <= j < s.len() && is_letter(s[j]) {
        if keyword(s.subrange(start, j + 1)) is Some {
            Some(j + 1)
        } else {
            reserved_end(s, start, j + 1)
        }
    } else {
        None
    }
}

/// Where the identifier that starts at `i` ends: after its letters, and
/// after whatever follows them up to whitespace or `;`.
pub open spec fn identifier_end(s: Seq<char>, i: int) -> int {
    run_end(s, run_end(s, i, CharClass::Alphabetic), CharClass::IdentifierPart)
}

/// A reserved word or an identifier: the reserved word if the letters from
/// `i` spell one before they end, else the identifier.
pub open spec fn word_at(s: Seq<char>, i: int) -> Lexeme {
    match reserved_end(s, i, i) {
        Some(end) => token(i, end, keyword(s.subrange(i, end)).unwrap()),
        None => {
            let end = identifier_end(s, i);
            token(i, end, ContentView::Identifier(s.subrange(i, end)))
        },
    }
}

/// A character that starts none of the longer tokens: a brace is a token,
/// anything else is taken and rejected.
pub open spec fn single_at(s: Seq<char>, i: int) -> Lexeme {
    match punctuation(s[i]) {
        Some(con) => token(i, i + 1, con),
        None => failure(TokenizerErr::UnexpectedToken, i + 1),
    }
}

/// What begins at `i`, where `i` holds a character that is not whitespace.
/// The first character decides which rule applies.
pub open spec fn lexeme_at(s: Seq<char>, i: int) -> Lexeme
    recommends
        0 <= i < s.len(),
{
    let c = s[i];
    if is_digit(c) {
        number_at(s, i)
    } else if is_letter(c) {
        word_at(s, i)
    } else if c == '"' {
        string_at(s, i)
    } else if c == '@' {
        element_at(s, i)
    } else {
        single_at(s, i)
    }
}

/// Where the next token starts: after the whitespace from `i` on.
pub open spec fn token_start(s: Seq<char>, i: int) -> int {
    run_end(s, i, CharClass::Whitespace)
}

/// What the next step of tokenizing from `i` yields: nothing if only
/// whitespace is left, else what begins after the whitespace.
pub open spec fn next_lexeme(s: Seq<char>, i: int) -> Option<Lexeme> {
    let start = token_start(s, i);
    if start < s.len() {
        Some(lexeme_at(s, start))
    } else {
        None
    }
}

/// Where tokenizing stands after that step.
pub open spec fn next_pos(s: Seq<char>, i: int) -> int {
    match next_lexeme(s, i) {
        Some(lexeme) => lexeme.end,
        None => token_start(s, i),
    }
}


/// The scan for a reserved word ends, if it ends at all, after where it
/// stands and within the text.
pub proof fn lemma_reserved_end_bounds(s: Seq<char>, start: int, j: int)
    ensures
        match reserved_end(s, start, j) {
            Some(end) => j < end <= s.len(),
            None => true,
        },
    decreases s.len() - j,
{
    if 0 <= start <= j < s.len() && is_letter(s[j]) && keyword(s.subrange(start, j + 1)) is None {
        lemma_reserved_end_bounds(s, start, j + 1);
    }
}

/// Whatever begins at a character takes at least that character and stays
/// within the text.
pub proof fn lemma_lexeme_advances(s: Seq<char>, i: int)
    requires
        0 <= i < s.len(),
    ensures
        i < lexeme_at(s, i).end <= s.len(),
{
    lemma_run_end(s, i + 1, CharClass::Digit);
    lemma_run_end(s, i, CharClass::Alphabetic);
    lemma_run_end(s, run_end(s, i, CharClass::Alphabetic), CharClass::IdentifierPart);
    lemma_reserved_end_bounds(s, i, i);
    lemma_run_end(s, i, CharClass::StringBody);
    lemma_run_end(s, i + 1, CharClass::StringBody);
    lemma_run_end(s, i + 1, CharClass::Alphabetic);
}

/// Each step of tokenizing that yields something takes at least one
/// character, and no step goes past the end of the text.
pub proof fn lemma_next_advances(s: Seq<char>, i: int)
    requires
        0 <= i <= s.len(),
    ensures
        i <= token_start(s, i) <= next_pos(s, i) <= s.len(),
        next_lexeme(s, i) is Some ==> token_start(s, i) < next_pos(s, i),
        next_lexeme(s, i) is None ==> next_pos(s, i) == s.len(),
{
    lemma_run_end(s, i, CharClass::Whitespace);
    let start = token_start(s, i);
    if start < s.len() {
        lemma_lexeme_advances(s, start);
    }
}

/// A token's span is what was taken for it: it starts where the token
/// starts, after the whitespace, and is as long as the token. The token
/// holds at least one character, and the next one starts no earlier than
/// this one ends. Below 2^32 the span holds the position and the length as
/// they are.
pub proof fn lemma_token_span(s: Seq<char>, i: int)
    requires
        0 <= i <= s.len(),
    ensures
        match next_lexeme(s, i) {
            Some(Lexeme { out: Ok(found), end }) => {
                let start = token_start(s, i);
                &&& found.loc == span(start, end)
                &&& i <= start < end <= token_start(s, end)
                &&& start <= u32::MAX ==> found.loc.starts_at == start
                &&& end - start <= u32::MAX ==> found.loc.len == end - start
            },
            _ => true,
        },
{
    lemma_next_advances(s, i);
    let start = token_start(s, i);
    if start < s.len() {
        lemma_next_advances(s, lexeme_at(s, start).end);
    }
}

/// A text of nothing but whitespace holds no token: the first step of
/// tokenizing it reaches its end.
pub proof fn lemma_blank_text_has_no_token(s: Seq<char>, i: int)
    requires
        0 <= i <= s.len(),
        forall|k: int| i <= k < s.len() ==> is_whitespace(#[trigger] s[k]),
    ensures
        next_lexeme(s, i) is None,
        next_pos(s, i) == s.len(),
{
    assert forall|k: int| i <= k < s.len() implies CharClass::Whitespace.contains(
        #[trigger] s[k],
    ) by {}
    lemma_run_end_unique(s, i, CharClass::Whitespace, s.len() as int);
}

/// A text that is one run of digits is one number literal: the first step
/// of tokenizing it yields the number with the whole text as its span, and
/// the step after it finds the end. The run is short enough for its length
/// to be counted.
pub proof fn lemma_digits_are_one_number(digits: Seq<char>)
    requires
        0 < digits.len() <= u32::MAX,
        forall|k: int| 0 <= k < digits.len() ==> is_digit(#[trigger] digits[k]),
    ensures
        next_lexeme(digits, 0) == Some(
            Lexeme {
                out: Ok(
                    TokenView {
                        loc: TokenLoc { starts_at: 0, len: digits.len() as u32 },
                        con: ContentView::NumberLiteral(digits),
                    },
                ),
                end: digits.len() as int,
            },
        ),
        next_lexeme(digits, digits.len() as int) is None,
{
    let len = digits.len() as int;
    assert forall|k: int| 0 <= k < len implies CharClass::Digit.contains(#[trigger] digits[k]) by {}
    lemma_run_end_unique(digits, 0, CharClass::Digit, len);
    assert(digits.subrange(0, len) =~= digits);
}

/// The scan for a reserved word from `j` on finds the shortest run of
/// letters from `start` that ends after `j` and spells a reserved word, and
/// finds nothing if no such run of letters spells one.
pub proof fn lemma_reserved_end_is_first(s: Seq<char>, start: int, j: int)
    requires
        0 <= start <= j <= s.len(),
    ensures
        match reserved_end(s, start, j) {
            Some(end) => {
                &&& j < end <= run_end(s, j, CharClass::Alphabetic)
                &&& keyword(s.subrange(start, end)) is Some
                &&& forall|k: int| j < k < end ==> keyword(#[trigger] s.subrange(start, k)) is None
            },
            None => forall|k: int|
                j < k <= run_end(s, j, CharClass::Alphabetic) ==> keyword(
                    #[trigger] s.subrange(start, k),
                ) is None,
        },
    decreases s.len() - j,
{
    if j < s.len() && is_letter(s[j]) {
        if keyword(s.subrange(start, j + 1)) is None {
            lemma_reserved_end_is_first(s, start, j + 1);
        } else {
            lemma_run_end(s, j + 1, CharClass::Alphabetic);
        }
    }
}

/// Where the letters of a reserved word stand in a text, the scan for a
/// reserved word ends right after them, from any of them on.
proof fn lemma_reserved_end_of_keyword(s: Seq<char>, i: int, j: int, word: Seq<char>)
    requires
        keyword(word) is Some,
        0 <= i <= j < i + word.len() <= s.len(),
        s.subrange(i, i + word.len()) == word,
    ensures
        reserved_end(s, i, j) == Some(i + word.len()),
    decreases i + word.len() - j,
{
    lemma_keyword_shape(word);
    assert(s[j] == word[j - i]);
    if j + 1 < i + word.len() {
        assert(s.subrange(i, j + 1) =~= word.subrange(0, j + 1 - i));
        lemma_keyword_prefix_free(word, j + 1 - i);
        lemma_reserved_end_of_keyword(s, i, j + 1, word);
    } else {
        assert(s.subrange(i, j + 1) =~= word);
    }
}

/// A reserved word is recognised the moment its last letter is read, with
/// no look at what follows. Where the letters of `word` stand at `i`, the
/// token that begins there is the reserved word and ends right after them:
/// whatever comes next, more letters too, is left for the next token.
pub proof fn lemma_reserved_word_commits(s: Seq<char>, i: int, word: Seq<char>)
    requires
        keyword(word) is Some,
        0 <= i,
        i + word.len() <= s.len(),
        s.subrange(i, i + word.len()) == word,
    ensures
        lexeme_at(s, i) == token(i, i + word.len(), keyword(word).unwrap()),
{
    lemma_keyword_shape(word);
    assert(s[i] == word[0]);
    lemma_reserved_end_of_keyword(s, i, i, word);
}

} // verus!
