use guiql::lang::chars::{char_is_digit, char_is_whitespace, CharClass};

fn all_chars() -> Vec<char> {
    (0u32..=0x10ffff).filter_map(char::from_u32).collect()
}

#[test]
fn whitespace_is_what_std_calls_whitespace() {
    for c in all_chars() {
        assert_eq!(char_is_whitespace(c), c.is_whitespace(), "{:?}", c);
    }
}

#[test]
fn digits_are_the_ten_decimal_digits() {
    let mut digits = String::new();
    for c in all_chars() {
        assert_eq!(char_is_digit(c), c.is_digit(10), "{:?}", c);
        if char_is_digit(c) {
            digits.push(c);
        }
    }
    assert_eq!(digits, "0123456789");
}

#[test]
fn classes_hold_what_they_name() {
    for c in all_chars() {
        assert_eq!(CharClass::Whitespace.holds(c), c.is_whitespace());
        assert_eq!(CharClass::Digit.holds(c), c.is_digit(10));
        assert_eq!(CharClass::Alphabetic.holds(c), c.is_alphabetic());
        assert_eq!(CharClass::IdentifierPart.holds(c), !c.is_whitespace() && c != ';');
        assert_eq!(CharClass::StringBody.holds(c), c != '"');
    }
}

#[test]
fn ascii_letters_are_the_alphabetic_characters_of_ascii() {
    let mut letters = String::new();
    for c in '\u{0}'..='\u{7f}' {
        let letter = ('a' <= c && c <= 'z') || ('A' <= c && c <= 'Z');
        assert_eq!(c.is_alphabetic(), letter, "{:?}", c);
        assert_eq!(CharClass::Alphabetic.holds(c), letter, "{:?}", c);
        if letter {
            letters.push(c);
        }
    }
    assert_eq!(letters, "ABCDEFGHIJKLMNOPQRSTUVWXYZabcdefghijklmnopqrstuvwxyz");
    assert!(!CharClass::Alphabetic.holds('\u{80}'));
    assert!(CharClass::Alphabetic.holds('\u{aa}'));
}

#[test]
fn class_members_by_example() {
    assert!(CharClass::Whitespace.holds(' '));
    assert!(CharClass::Whitespace.holds('\u{3000}'));
    assert!(!CharClass::Whitespace.holds('\u{200b}'));
    assert!(!CharClass::Whitespace.holds('x'));
    assert!(CharClass::Digit.holds('0'));
    assert!(CharClass::Digit.holds('9'));
    assert!(!CharClass::Digit.holds('a'));
    assert!(!CharClass::Digit.holds('\u{661}'));
    assert!(CharClass::Alphabetic.holds('a'));
    assert!(CharClass::Alphabetic.holds('\u{4eac}'));
    assert!(!CharClass::Alphabetic.holds('1'));
    assert!(!CharClass::Alphabetic.holds('\u{1f49d}'));
    assert!(CharClass::IdentifierPart.holds('{'));
    assert!(!CharClass::IdentifierPart.holds(';'));
    assert!(!CharClass::IdentifierPart.holds('\n'));
    assert!(CharClass::StringBody.holds('\\'));
    assert!(!CharClass::StringBody.holds('"'));
}
