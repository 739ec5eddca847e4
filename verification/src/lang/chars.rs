//! Character classes and maximal runs of one class.

use vstd::prelude::*;

verus! {

/// Whether a character beyond ASCII counts as alphabetic: the answer of
/// `char::is_alphabetic`, which goes by the Unicode property of that name.
pub uninterp spec fn alphabetic_beyond_ascii(c: char) -> bool;

/// The letters of ASCII: `a` to `z` and `A` to `Z`.
pub open spec fn is_ascii_letter(c: char) -> bool {
    ('a' <= c <= 'z') || ('A' <= c <= 'Z')
}

/// Whether `c` counts as alphabetic: Unicode's `Alphabetic`, which within
/// ASCII holds of the letters and of nothing else.
pub open spec fn is_letter(c: char) -> bool {
    if c <= '\u{7f}' {
        is_ascii_letter(c)
    } else {
        alphabetic_beyond_ascii(c)
    }
}

/// `char::is_alphabetic` tells whether a character has Unicode's property
/// `Alphabetic`. Within ASCII these are the letters `a` to `z` and `A` to
/// `Z`. Beyond ASCII the answer is a function of the character alone, and
/// nothing else is claimed about it.
pub assume_specification[ char::is_alphabetic ](c: char) -> (r: bool)
    ensures
        c <= '\u{7f}' ==> r == is_ascii_letter(c),
        c > '\u{7f}' ==> r == alphabetic_beyond_ascii(c),
;

/// `String::push` appends one character to the end of the string.
pub assume_specification[ String::push ](s: &mut String, c: char)
    ensures
        final(s)@ == old(s)@.push(c),
;

/// The decimal digits `0` to `9`.
pub open spec fn is_digit(c: char) -> bool {
    '0' <= c <= '9'
}

/// The characters with the Unicode property `White_Space`.
pub open spec fn is_whitespace(c: char) -> bool {
    ||| '\u{9}' <= c <= '\u{d}'
    ||| c == ' '
    ||| c == '\u{85}'
    ||| c == '\u{a0}'
    ||| c == '\u{1680}'
    ||| '\u{2000}' <= c <= '\u{200a}'
    ||| c == '\u{2028}'
    ||| c == '\u{2029}'
    ||| c == '\u{202f}'
    ||| c == '\u{205f}'
    ||| c == '\u{3000}'
}

/// The classes of characters that the lexical rules tell apart.
#[derive(Clone, Copy, Debug, PartialEq, Eq, Structural)]
pub enum CharClass {
    /// Separates tokens and belongs to none.
    Whitespace,
    /// A decimal digit.
    Digit,
    /// A letter.
    Alphabetic,
    /// Anything an identifier may go on with: not whitespace, not `;`.
    IdentifierPart,
    /// Anything but the double quote that delimits a string literal.
    StringBody,
}

impl CharClass {
    /// Whether `c` belongs to the class.
    pub open spec fn contains(self, c: char) -> bool {
        match self {
            CharClass::Whitespace => is_whitespace(c),
            CharClass::Digit => is_digit(c),
            CharClass::Alphabetic => is_letter(c),
            CharClass::IdentifierPart => !is_whitespace(c) && c != ';',
            CharClass::StringBody => c != '"',
        }
    }

    /// Tests whether `c` belongs to the class.
    pub fn holds(self, c: char) -> (r: bool)
        ensures
            r == self.contains(c),
    {
        match self {
            CharClass::Whitespace => char_is_whitespace(c),
            CharClass::Digit => char_is_digit(c),
            CharClass::Alphabetic => c.is_alphabetic(),
            CharClass::IdentifierPart => !char_is_whitespace(c) && c != ';',
            CharClass::StringBody => c != '"',
        }
    }
}

/// Tests for a decimal digit.
pub fn char_is_digit(c: char) -> (r: bool)
    ensures
        r == is_digit(c),
{
    '0' <= c && c <= '9'
}

/// Tests for a whitespace character.
pub fn char_is_whitespace(c: char) -> (r: bool)
    ensures
        r == is_whitespace(c),
{
    ('\u{9}' <= c && c <= '\u{d}') || c == ' ' || c == '\u{85}' || c == '\u{a0}' || c
        == '\u{1680}' || ('\u{2000}' <= c && c <= '\u{200a}') || c == '\u{2028}' || c
        == '\u{2029}' || c == '\u{202f}' || c == '\u{205f}' || c == '\u{3000}'
}

/// Where the maximal run of `class` characters that starts at `i` ends: the
/// first index from `i` on that holds no character of the class, or the
/// length of `s`.
pub open spec fn run_end(s: Seq<char>, i: int, class: CharClass) -> int
    decreases s.len() - i,
{
    if 0 <= i < s.len() && class.contains(s[i]) {
        run_end(s, i + 1, class)
    } else {
        i
    }
}

/// A run ends no earlier than it starts and within the text, every
/// character in it is of the class, and the character after it is not.
pub proof fn lemma_run_end(s: Seq<char>, i: int, class: CharClass)
    requires
        0 <= i <= s.len(),
    ensures
        i <= run_end(s, i, class) <= s.len(),
        forall|k: int| i <= k < run_end(s, i, class) ==> class.contains(#[trigger] s[k]),
        run_end(s, i, class) < s.len() ==> !class.contains(s[run_end(s, i, class)]),
    decreases s.len() - i,
{
    if i < s.len() && class.contains(s[i]) {
        lemma_run_end(s, i + 1, class);
    }
}

/// The end of a run is the only index that closes it: all of the class
/// before it, none of the class at it.
pub proof fn lemma_run_end_unique(s: Seq<char>, i: int, class: CharClass, e: int)
    requires
        0 <= i <= e <= s.len(),
        forall|k: int| i <= k < e ==> class.contains(#[trigger] s[k]),
        e < s.len() ==> !class.contains(s[e]),
    ensures
        run_end(s, i, class) == e,
    decreases e - i,
{
    if i < e {
        lemma_run_end_unique(s, i + 1, class, e);
    }
}

} // verus!
