use guiql::lang::ast::{Token, TokenContent, TokenLoc};
use guiql::lang::tokenizer::{Tokenizer, TokenizerErr};

struct QueryTest<'a> {
    name: &'a str,
    expected: Vec<Token>,
    query: &'a str,
}

enum QueryTestErr {
    TokenizerError,
    UnexpectedToken,
}

type QueryTestResult = Result<(), QueryTestErr>;

impl<'a> QueryTest<'a> {
    pub fn new(name: &'a str, expected: Vec<Token>, query: &'a str) -> Self {
        Self { name, expected, query }
    }

    pub fn run(&self) -> QueryTestResult {
        let mut tokenizer = Tokenizer::new(self.query);
        let mut i: usize = 0;
        while let Some(token) = tokenizer.next() {
            match token {
                Ok(token) => {
                    if token != self.expected[i] {
                        println!(
                            "{}: Failed with unexpected token\n- Expected:\n{:?}\n- Result:\n{:?}",
                            self.name, self.expected[i], token
                        );
                        return Err(QueryTestErr::UnexpectedToken);
                    }
                }
                Err(err) => {
                    println!("{}: Failed with tokenizer error\n- Error:\n{:?}", self.name, err);
                    return Err(QueryTestErr::TokenizerError);
                }
            }
            i += 1;
        }
        println!("{}: Passed", self.name);
        Ok(())
    }
}

struct QueryTester<'a> {
    tests: Vec<QueryTest<'a>>,
}

impl<'a> QueryTester<'a> {
    pub fn new() -> Self {
        Self { tests: Vec::new() }
    }

    pub fn add_test(&mut self, test: QueryTest<'a>) {
        self.tests.push(test);
    }

    pub fn run_all(&mut self) {
        for test in &self.tests {
            assert!(test.run().is_ok());
        }
    }
}

#[test]
fn decimal_digits() {
    assert!(QueryTest::new(
        "numeric literals",
        vec![Token {
            loc: TokenLoc { starts_at: 0, len: 2 },
            con: TokenContent::NumberLiteral("91".to_string()),
        }],
        "91",
    )
    .run()
    .is_ok());
}

#[test]
fn multiple_tokens() {
    assert!(QueryTest::new(
        "multiple tokens",
        vec![
            Token {
                loc: TokenLoc { starts_at: 0, len: 1 },
                con: TokenContent::Identifier("x".to_string()),
            },
            Token {
                loc: TokenLoc { starts_at: 2, len: 2 },
                con: TokenContent::NumberLiteral("91".to_string()),
            }
        ],
        "x 91",
    )
    .run()
    .is_ok());
}

#[test]
fn string_literal() {
    assert!(QueryTest::new(
        "string literal",
        vec![Token {
            loc: TokenLoc { starts_at: 0, len: 14 },
            con: TokenContent::StringLiteral("\"hello, world\"".to_string()),
        }],
        "\"hello, world\"",
    )
    .run()
    .is_ok());
}

#[test]
fn lex_queries() {
    let mut tester = QueryTester::new();
    tester.add_test(QueryTest::new(
        "create query",
        vec![
            Token {
                loc: TokenLoc { starts_at: 0, len: 5 },
                con: TokenContent::ElementRef("@root".to_string()),
            },
            Token { loc: TokenLoc { starts_at: 6, len: 6 }, con: TokenContent::Insert },
            Token { loc: TokenLoc { starts_at: 13, len: 3 }, con: TokenContent::New },
            Token {
                loc: TokenLoc { starts_at: 17, len: 7 },
                con: TokenContent::Identifier("Element".to_string()),
            }
        ],
        "@root insert new Element",
    ));

    tester.run_all();
}

fn tokens_of(text: &str) -> Vec<Result<Token, TokenizerErr>> {
    let mut tokenizer = Tokenizer::new(text);
    let mut out = Vec::new();
    while let Some(res) = tokenizer.next() {
        out.push(res);
    }
    out
}

fn tok(starts_at: u32, len: u32, con: TokenContent) -> Result<Token, TokenizerErr> {
    Ok(Token { loc: TokenLoc { starts_at, len }, con })
}

fn ident(text: &str) -> TokenContent {
    TokenContent::Identifier(text.to_string())
}

fn number(text: &str) -> TokenContent {
    TokenContent::NumberLiteral(text.to_string())
}

fn string(text: &str) -> TokenContent {
    TokenContent::StringLiteral(text.to_string())
}

fn element(text: &str) -> TokenContent {
    TokenContent::ElementRef(text.to_string())
}

#[test]
fn blank_text_has_no_tokens() {
    for text in ["", " ", "   ", "\t\n\r ", "\u{b}\u{c}", "\u{85}\u{a0}\u{1680}", "\u{2000}\u{200a}\u{2028}\u{2029}\u{202f}\u{205f}\u{3000}"] {
        let mut tokenizer = Tokenizer::new(text);
        assert_eq!(tokenizer.next(), None);
        assert_eq!(tokenizer.next(), None);
    }
}

#[test]
fn a_run_of_digits_is_one_number() {
    for text in ["0", "7", "91", "007", "1234567890", "00000000000000000000000000000000000000001"] {
        let len = text.len() as u32;
        assert_eq!(tokens_of(text), vec![tok(0, len, number(text))]);
    }
}

#[test]
fn identifier_then_number() {
    assert_eq!(tokens_of("x 91"), vec![tok(0, 1, ident("x")), tok(2, 2, number("91"))]);
}

#[test]
fn string_literal_keeps_both_quotes() {
    let text = "\"hello, world\"";
    assert_eq!(text.chars().count(), 14);
    assert_eq!(tokens_of(text), vec![tok(0, 14, string(text))]);
}

#[test]
fn element_insert_new_identifier() {
    assert_eq!(
        tokens_of("@root insert new Element"),
        vec![
            tok(0, 5, element("@root")),
            tok(6, 6, TokenContent::Insert),
            tok(13, 3, TokenContent::New),
            tok(17, 7, ident("Element")),
        ]
    );
}

#[test]
fn reserved_word_ends_at_its_last_letter() {
    assert_eq!(tokens_of("forest"), vec![tok(0, 3, TokenContent::For), tok(3, 3, ident("est"))]);
    assert_eq!(tokens_of("constant"), vec![tok(0, 5, TokenContent::Const), tok(5, 3, ident("ant"))]);
    assert_eq!(tokens_of("order"), vec![tok(0, 2, TokenContent::Or), tok(2, 3, ident("der"))]);
    assert_eq!(tokens_of("iffy"), vec![tok(0, 2, TokenContent::If), tok(2, 2, ident("fy"))]);
    assert_eq!(tokens_of("integer"), vec![tok(0, 3, TokenContent::Int), tok(3, 4, ident("eger"))]);
    assert_eq!(tokens_of("letter"), vec![tok(0, 3, TokenContent::Let), tok(3, 3, ident("ter"))]);
    assert_eq!(
        tokens_of("fromage"),
        vec![tok(0, 4, TokenContent::FromKeyword), tok(4, 3, ident("age"))]
    );
    assert_eq!(
        tokens_of("stringent"),
        vec![tok(0, 6, TokenContent::StringKeyword), tok(6, 3, ident("ent"))]
    );
    assert_eq!(
        tokens_of("newnew"),
        vec![tok(0, 3, TokenContent::New), tok(3, 3, TokenContent::New)]
    );
    assert_eq!(
        tokens_of("  typewith1"),
        vec![tok(2, 4, TokenContent::Type), tok(6, 4, TokenContent::With), tok(10, 1, number("1"))]
    );
}

#[test]
fn reserved_word_inside_a_word_is_not_seen() {
    assert_eq!(tokens_of("afor"), vec![tok(0, 4, ident("afor"))]);
    assert_eq!(tokens_of("xcreate"), vec![tok(0, 7, ident("xcreate"))]);
    assert_eq!(tokens_of("x1for"), vec![tok(0, 5, ident("x1for"))]);
}

#[test]
fn reserved_words_are_case_sensitive() {
    assert_eq!(tokens_of("Create"), vec![tok(0, 6, ident("Create"))]);
    assert_eq!(tokens_of("FOR"), vec![tok(0, 3, ident("FOR"))]);
    assert_eq!(tokens_of("New"), vec![tok(0, 3, ident("New"))]);
    assert_eq!(tokens_of("create"), vec![tok(0, 6, TokenContent::Create)]);
}

#[test]
fn every_reserved_word_is_its_own_token() {
    let words = [
        ("create", TokenContent::Create),
        ("component", TokenContent::Component),
        ("const", TokenContent::Const),
        ("delete", TokenContent::Delete),
        ("else", TokenContent::Else),
        ("enum", TokenContent::Enum),
        ("for", TokenContent::For),
        ("from", TokenContent::FromKeyword),
        ("func", TokenContent::Func),
        ("if", TokenContent::If),
        ("insert", TokenContent::Insert),
        ("int", TokenContent::Int),
        ("key", TokenContent::Key),
        ("let", TokenContent::Let),
        ("match", TokenContent::Match),
        ("new", TokenContent::New),
        ("number", TokenContent::Number),
        ("or", TokenContent::Or),
        ("pub", TokenContent::Pub),
        ("string", TokenContent::StringKeyword),
        ("tag", TokenContent::Tag),
        ("type", TokenContent::Type),
        ("with", TokenContent::With),
    ];
    assert_eq!(words.len(), 23);
    for (word, con) in words {
        let len = word.len() as u32;
        assert_eq!(tokens_of(word), vec![tok(0, len, con.clone())]);
        assert_eq!(TokenContent::from_str(word), Some(con.clone()));
        let chars: Vec<char> = word.chars().collect();
        assert_eq!(TokenContent::from_chars(&chars), Some(con));
    }
}

#[test]
fn words_off_the_table_are_no_reserved_words() {
    for word in ["", "c", "creat", "created", "Create", "CREATE", "replace", "while", " for", "for ", "f0r", "i", "o"] {
        assert_eq!(TokenContent::from_str(word), None);
        let chars: Vec<char> = word.chars().collect();
        assert_eq!(TokenContent::from_chars(&chars), None);
    }
}

#[test]
fn braces_are_the_only_single_character_tokens() {
    assert_eq!(TokenContent::from_char('{'), Some(TokenContent::BraceLeft));
    assert_eq!(TokenContent::from_char('}'), Some(TokenContent::BraceRight));
    for c in ['(', ')', '[', ']', ';', ' ', 'a', '0', '"', '@', '\u{0}', '\u{10ffff}'] {
        assert_eq!(TokenContent::from_char(c), None);
    }
    assert_eq!(
        tokens_of("{ }"),
        vec![tok(0, 1, TokenContent::BraceLeft), tok(2, 1, TokenContent::BraceRight)]
    );
    assert_eq!(
        tokens_of("{}"),
        vec![tok(0, 1, TokenContent::BraceLeft), tok(1, 1, TokenContent::BraceRight)]
    );
}

#[test]
fn identifier_runs_to_whitespace_or_semicolon() {
    assert_eq!(tokens_of("x1{"), vec![tok(0, 3, ident("x1{"))]);
    assert_eq!(tokens_of("a_b-c"), vec![tok(0, 5, ident("a_b-c"))]);
    assert_eq!(tokens_of("a\"b@c"), vec![tok(0, 5, ident("a\"b@c"))]);
    assert_eq!(tokens_of("ab\u{a0}cd"), vec![tok(0, 2, ident("ab")), tok(3, 2, ident("cd"))]);
    assert_eq!(
        tokens_of("foo;bar"),
        vec![tok(0, 3, ident("foo")), Err(TokenizerErr::UnexpectedToken), tok(4, 3, ident("bar"))]
    );
}

#[test]
fn letters_need_not_be_ascii() {
    assert_eq!(tokens_of("\u{e9}t\u{e9}"), vec![tok(0, 3, ident("\u{e9}t\u{e9}"))]);
    assert_eq!(tokens_of("\u{4eac} x"), vec![tok(0, 1, ident("\u{4eac}")), tok(2, 1, ident("x"))]);
    assert_eq!(tokens_of("@\u{e9}lan"), vec![tok(0, 5, element("@\u{e9}lan"))]);
    assert_eq!(tokens_of("\u{1f49d}"), vec![Err(TokenizerErr::UnexpectedToken)]);
}

#[test]
fn a_character_that_starts_no_token_is_rejected_and_taken() {
    assert_eq!(tokens_of(";"), vec![Err(TokenizerErr::UnexpectedToken)]);
    assert_eq!(
        tokens_of("# 1"),
        vec![Err(TokenizerErr::UnexpectedToken), tok(2, 1, number("1"))]
    );
    assert_eq!(
        tokens_of("(("),
        vec![Err(TokenizerErr::UnexpectedToken), Err(TokenizerErr::UnexpectedToken)]
    );
}

#[test]
fn string_literal_ends_at_the_second_quote() {
    assert_eq!(
        tokens_of("\"a\"\"b\""),
        vec![tok(0, 3, string("\"a\"")), tok(3, 3, string("\"b\""))]
    );
    assert_eq!(tokens_of("\"\""), vec![tok(0, 2, string("\"\""))]);
    assert_eq!(
        tokens_of(" \"a b\" x"),
        vec![tok(1, 5, string("\"a b\"")), tok(7, 1, ident("x"))]
    );
    assert_eq!(
        tokens_of("\"a\\\"b"),
        vec![tok(0, 4, string("\"a\\\"")), tok(4, 1, ident("b"))]
    );
}

#[test]
fn unterminated_string_takes_the_rest_of_the_text() {
    assert_eq!(tokens_of("\""), vec![Err(TokenizerErr::UnterminatedStringLiteral)]);
    assert_eq!(tokens_of("\"abc def"), vec![Err(TokenizerErr::UnterminatedStringLiteral)]);
    assert_eq!(
        tokens_of("x \"abc"),
        vec![tok(0, 1, ident("x")), Err(TokenizerErr::UnterminatedStringLiteral)]
    );
}

#[test]
fn element_reference_needs_a_letter() {
    assert_eq!(tokens_of("@"), vec![Err(TokenizerErr::EmptyElementIdentifier)]);
    assert_eq!(
        tokens_of("@ x"),
        vec![Err(TokenizerErr::EmptyElementIdentifier), tok(2, 1, ident("x"))]
    );
    assert_eq!(
        tokens_of("@1"),
        vec![Err(TokenizerErr::EmptyElementIdentifier), tok(1, 1, number("1"))]
    );
    assert_eq!(
        tokens_of("@ab1"),
        vec![tok(0, 3, element("@ab")), tok(3, 1, number("1"))]
    );
    assert_eq!(
        tokens_of("@@a"),
        vec![Err(TokenizerErr::EmptyElementIdentifier), tok(1, 2, element("@a"))]
    );
}

#[test]
fn element_reference_asked_for_without_an_at_sign() {
    let mut tokenizer = Tokenizer::new("x");
    assert_eq!(tokenizer.lex_element_identifier(), Err(TokenizerErr::InvalidElementIdentifier));
    assert_eq!(tokenizer.next(), Some(tok(0, 1, ident("x"))));
    let mut tokenizer = Tokenizer::new("");
    assert_eq!(tokenizer.lex_element_identifier(), Err(TokenizerErr::InvalidElementIdentifier));
    assert_eq!(tokenizer.next(), None);
    let mut tokenizer = Tokenizer::new("@root");
    assert_eq!(tokenizer.lex_element_identifier(), tok(0, 5, element("@root")));
}

#[test]
fn rules_asked_for_by_name() {
    let mut tokenizer = Tokenizer::new("abc");
    assert_eq!(tokenizer.lex_number_literal(), tok(0, 0, number("")));
    assert_eq!(tokenizer.next(), Some(tok(0, 3, ident("abc"))));

    let mut tokenizer = Tokenizer::new("12ab");
    assert_eq!(tokenizer.lex_number_literal(), tok(0, 2, number("12")));
    assert_eq!(tokenizer.next(), Some(tok(2, 2, ident("ab"))));

    let mut tokenizer = Tokenizer::new("ab\"cd\"e");
    assert_eq!(tokenizer.lex_string_literal(), tok(0, 6, string("ab\"cd\"")));
    assert_eq!(tokenizer.next(), Some(tok(6, 1, ident("e"))));

    let mut tokenizer = Tokenizer::new("ab\"cd");
    assert_eq!(tokenizer.lex_string_literal(), Err(TokenizerErr::UnterminatedStringLiteral));
    assert_eq!(tokenizer.next(), None);

    let mut tokenizer = Tokenizer::new("1a b");
    assert_eq!(tokenizer.lex_alphabetical_chars(), tok(0, 2, ident("1a")));
    assert_eq!(tokenizer.next(), Some(tok(3, 1, ident("b"))));

    let mut tokenizer = Tokenizer::new(" x");
    assert_eq!(tokenizer.lex_alphabetical_chars(), tok(0, 0, ident("")));
    assert_eq!(tokenizer.next(), Some(tok(1, 1, ident("x"))));

    let mut tokenizer = Tokenizer::new("insert");
    assert_eq!(tokenizer.lex_alphabetical_chars(), tok(0, 6, TokenContent::Insert));
}

#[test]
fn spans_cover_what_was_taken_and_never_overlap() {
    let text = "  create Foo { @bar \"a b\" 12 forest }\n\tx;y";
    let chars: Vec<char> = text.chars().collect();
    let mut tokenizer = Tokenizer::new(text);
    let mut end: u32 = 0;
    let mut seen = 0;
    while let Some(res) = tokenizer.next() {
        if let Ok(token) = res {
            assert!(token.loc.starts_at >= end);
            assert!(token.loc.len >= 1);
            let from = token.loc.starts_at as usize;
            let to = from + token.loc.len as usize;
            let taken: String = chars[from..to].iter().collect();
            match &token.con {
                TokenContent::Identifier(s)
                | TokenContent::NumberLiteral(s)
                | TokenContent::ElementRef(s)
                | TokenContent::StringLiteral(s) => assert_eq!(s, &taken),
                TokenContent::BraceLeft => assert_eq!(taken, "{"),
                TokenContent::BraceRight => assert_eq!(taken, "}"),
                other => assert_eq!(TokenContent::from_str(&taken).as_ref(), Some(other)),
            }
            end = token.loc.starts_at + token.loc.len;
            seen += 1;
        } else {
            end += 1;
        }
    }
    assert_eq!(seen, 11);
    assert_eq!(tokenizer.wrap_count(), 0);
}

#[test]
fn an_error_does_not_stop_the_tokenizer() {
    assert_eq!(
        tokens_of("@ \"a\" ; 1"),
        vec![
            Err(TokenizerErr::EmptyElementIdentifier),
            tok(2, 3, string("\"a\"")),
            Err(TokenizerErr::UnexpectedToken),
            tok(8, 1, number("1")),
        ]
    );
}
