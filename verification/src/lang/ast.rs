//! Tokens, the table of reserved words, and the items that a query parses to.

use vstd::prelude::*;

verus! {

/// Where an item of the syntax tree lies in the query text.
#[derive(Eq, PartialEq, Clone, Copy, Debug, Structural)]
pub struct ASTItemLoc {
    pub starts_at: u32,
    pub len: u32,
}

/// The body of an element. Bodies have no structure of their own; the type
/// stands for them so that a query keeps its shape when they get one.
#[derive(Eq, PartialEq, Clone, Copy, Debug, Structural)]
pub struct ViewRoot {}

impl Default for ViewRoot {
    fn default() -> (r: Self)
        ensures
            r == (ViewRoot {  }),
    {
        ViewRoot {  }
    }
}

/// `create <name> <body>`: a new element of the given name.
#[derive(Eq, PartialEq, Clone, Debug)]
pub struct CreateQuery {
    pub elm_name: String,
    pub view: ViewRoot,
}

/// A `CreateQuery` with its name as a sequence of characters.
pub struct CreateQueryView {
    pub elm_name: Seq<char>,
    pub view: ViewRoot,
}

impl View for CreateQuery {
    type V = CreateQueryView;

    open spec fn view(&self) -> CreateQueryView {
        CreateQueryView { elm_name: self.elm_name@, view: self.view }
    }
}

impl Default for CreateQuery {
    fn default() -> (r: Self)
        ensures
            r@ == (CreateQueryView { elm_name: Seq::empty(), view: ViewRoot {  } }),
    {
        CreateQuery { elm_name: String::new(), view: ViewRoot {  } }
    }
}

/// A query that replaces an element.
#[derive(Eq, PartialEq, Clone, Copy, Debug, Structural)]
pub struct ReplaceQuery {}

impl Default for ReplaceQuery {
    fn default() -> (r: Self)
        ensures
            r == (ReplaceQuery {  }),
    {
        ReplaceQuery {  }
    }
}

/// A named group of queries.
#[derive(Eq, PartialEq, Clone, Debug)]
pub struct Module {
    pub name: String,
}

/// The span of a token: the position of its first character and the number
/// of characters it takes. Both are counted modulo 2^32.
#[derive(Eq, PartialEq, Clone, Copy, Debug, Structural)]
pub struct TokenLoc {
    pub starts_at: u32,
    pub len: u32,
}

/// What a token is: one of four kinds that carry their text, a brace, or a
/// reserved word.
#[derive(Eq, PartialEq, Clone, Debug)]
pub enum TokenContent {
    /// `@` and the name of an element, as written.
    ElementRef(String),
    Identifier(String),
    /// A run of decimal digits.
    NumberLiteral(String),
    /// A string literal with both of its quotes.
    StringLiteral(String),
    BraceLeft,
    BraceRight,
    Create,
    Component,
    Const,
    Delete,
    Else,
    Enum,
    For,
    FromKeyword,
    Func,
    If,
    Insert,
    Int,
    Key,
    Let,
    Match,
    New,
    Number,
    Or,
    Pub,
    StringKeyword,
    Tag,
    Type,
    With,
}

/// A `TokenContent` with its text as a sequence of characters.
pub enum ContentView {
    ElementRef(Seq<char>),
    Identifier(Seq<char>),
    NumberLiteral(Seq<char>),
    StringLiteral(Seq<char>),
    BraceLeft,
    BraceRight,
    Create,
    Component,
    Const,
    Delete,
    Else,
    Enum,
    For,
    FromKeyword,
    Func,
    If,
    Insert,
    Int,
    Key,
    Let,
    Match,
    New,
    Number,
    Or,
    Pub,
    StringKeyword,
    Tag,
    Type,
    With,
}

impl View for TokenContent {
    type V = ContentView;

    open spec fn view(&self) -> ContentView {
        match self {
            TokenContent::ElementRef(s) => ContentView::ElementRef(s@),
            TokenContent::Identifier(s) => ContentView::Identifier(s@),
            TokenContent::NumberLiteral(s) => ContentView::NumberLiteral(s@),
            TokenContent::StringLiteral(s) => ContentView::StringLiteral(s@),
            TokenContent::BraceLeft => ContentView::BraceLeft,
            TokenContent::BraceRight => ContentView::BraceRight,
            TokenContent::Create => ContentView::Create,
            TokenContent::Component => ContentView::Component,
            TokenContent::Const => ContentView::Const,
            TokenContent::Delete => ContentView::Delete,
            TokenContent::Else => ContentView::Else,
            TokenContent::Enum => ContentView::Enum,
            TokenContent::For => ContentView::For,
            TokenContent::FromKeyword => ContentView::FromKeyword,
            TokenContent::Func => ContentView::Func,
            TokenContent::If => ContentView::If,
            TokenContent::Insert => ContentView::Insert,
            TokenContent::Int => ContentView::Int,
            TokenContent::Key => ContentView::Key,
            TokenContent::Let => ContentView::Let,
            TokenContent::Match => ContentView::Match,
            TokenContent::New => ContentView::New,
            TokenContent::Number => ContentView::Number,
            TokenContent::Or => ContentView::Or,
            TokenContent::Pub => ContentView::Pub,
            TokenContent::StringKeyword => ContentView::StringKeyword,
            TokenContent::Tag => ContentView::Tag,
            TokenContent::Type => ContentView::Type,
            TokenContent::With => ContentView::With,
        }
    }
}

/// The reserved word that `word` spells, if it spells one. The match is
/// exact and sensitive to case.
pub open spec fn keyword(word: Seq<char>) -> Option<ContentView> {
    if word == "create"@ {
        Some(ContentView::Create)
    }     else if word == "component"@ {
        Some(ContentView::Component)
    }     else if word == "const"@ {
        Some(ContentView::Const)
    }     else if word == "delete"@ {
        Some(ContentView::Delete)
    }     else if word == "else"@ {
        Some(ContentView::Else)
    }     else if word == "enum"@ {
        Some(ContentView::Enum)
    }     else if word == "for"@ {
        Some(ContentView::For)
    }     else if word == "from"@ {
        Some(ContentView::FromKeyword)
    }     else if word == "func"@ {
        Some(ContentView::Func)
    }     else if word == "if"@ {
        Some(ContentView::If)
    }     else if word == "insert"@ {
        Some(ContentView::Insert)
    }     else if word == "int"@ {
        Some(ContentView::Int)
    }     else if word == "key"@ {
        Some(ContentView::Key)
    }     else if word == "let"@ {
        Some(ContentView::Let)
    }     else if word == "match"@ {
        Some(ContentView::Match)
    }     else if word == "new"@ {
        Some(ContentView::New)
    }     else if word == "number"@ {
        Some(ContentView::Number)
    }     else if word == "or"@ {
        Some(ContentView::Or)
    }     else if word == "pub"@ {
        Some(ContentView::Pub)
    }     else if word == "string"@ {
        Some(ContentView::StringKeyword)
    }     else if word == "tag"@ {
        Some(ContentView::Tag)
    }     else if word == "type"@ {
        Some(ContentView::Type)
    }     else if word == "with"@ {
        Some(ContentView::With)
    } else {
        None
    }
}

/// Every reserved word is made of two to nine of the letters `a` to `z`.
pub proof fn lemma_keyword_shape(word: Seq<char>)
    requires
        keyword(word) is Some,
    ensures
        2 <= word.len() <= 9,
        forall|k: int| 0 <= k < word.len() ==> 'a' <= #[trigger] word[k] <= 'z',
{
    reveal_strlit("create");
    reveal_strlit("component");
    reveal_strlit("const");
    reveal_strlit("delete");
    reveal_strlit("else");
    reveal_strlit("enum");
    reveal_strlit("for");
    reveal_strlit("from");
    reveal_strlit("func");
    reveal_strlit("if");
    reveal_strlit("insert");
    reveal_strlit("int");
    reveal_strlit("key");
    reveal_strlit("let");
    reveal_strlit("match");
    reveal_strlit("new");
    reveal_strlit("number");
    reveal_strlit("or");
    reveal_strlit("pub");
    reveal_strlit("string");
    reveal_strlit("tag");
    reveal_strlit("type");
    reveal_strlit("with");
}

/// No reserved word begins with another: what is left of one when letters
/// are cut off its end is none.
pub proof fn lemma_keyword_prefix_free(word: Seq<char>, n: int)
    requires
        keyword(word) is Some,
        0 <= n < word.len(),
    ensures
        keyword(word.subrange(0, n)) is None,
{
    reveal_strlit("create");
    reveal_strlit("component");
    reveal_strlit("const");
    reveal_strlit("delete");
    reveal_strlit("else");
    reveal_strlit("enum");
    reveal_strlit("for");
    reveal_strlit("from");
    reveal_strlit("func");
    reveal_strlit("if");
    reveal_strlit("insert");
    reveal_strlit("int");
    reveal_strlit("key");
    reveal_strlit("let");
    reveal_strlit("match");
    reveal_strlit("new");
    reveal_strlit("number");
    reveal_strlit("or");
    reveal_strlit("pub");
    reveal_strlit("string");
    reveal_strlit("tag");
    reveal_strlit("type");
    reveal_strlit("with");
    let prefix = word.subrange(0, n);
    if prefix.len() >= 2 {
        assert(prefix[0] == word[0]);
        assert(prefix[1] == word[1]);
    }
    if prefix.len() >= 3 {
        assert(prefix[2] == word[2]);
    }
}

/// The token that the single character `c` makes by itself, if it makes
/// one.
pub open spec fn punctuation(c: char) -> Option<ContentView> {
    if c == '{' {
        Some(ContentView::BraceLeft)
    } else if c == '}' {
        Some(ContentView::BraceRight)
    } else {
        None
    }
}

/// The view of a content that may be absent.
pub open spec fn content_view(con: Option<TokenContent>) -> Option<ContentView> {
    match con {
        Some(c) => Some(c@),
        None => None,
    }
}

/// Whether `word` and `text` hold the same characters.
fn spells(word: &[char], text: &str) -> (r: bool)
    ensures
        r == (word@ == text@),
{
    let mut same = true;
    let mut i: usize = 0;
    for c in it: text.chars()
        invariant
            it.seq() == text@,
            same ==> i == it.index() && i <= word@.len() && word@.take(i as int) =~= text@.take(
                i as int,
            ),
            !same ==> word@ != text@,
    {
        if same {
            if i < word.len() && word[i] == c {
                i = i + 1;
            } else {
                same = false;
            }
        }
    }
    proof {
        if same {
            assert(text@.take(i as int) =~= text@);
            if i == word@.len() {
                assert(word@.take(i as int) =~= word@);
            }
        }
    }
    same && i == word.len()
}

impl TokenContent {
    /// Looks `word` up in the table of reserved words.
    pub fn from_chars(word: &[char]) -> (r: Option<Self>)
        ensures
            content_view(r) == keyword(word@),
    {
        if spells(word, "create") {
            Some(Self::Create)
        }         else if spells(word, "component") {
            Some(Self::Component)
        }         else if spells(word, "const") {
            Some(Self::Const)
        }         else if spells(word, "delete") {
            Some(Self::Delete)
        }         else if spells(word, "else") {
            Some(Self::Else)
        }         else if spells(word, "enum") {
            Some(Self::Enum)
        }         else if spells(word, "for") {
            Some(Self::For)
        }         else if spells(word, "from") {
            Some(Self::FromKeyword)
        }         else if spells(word, "func") {
            Some(Self::Func)
        }         else if spells(word, "if") {
            Some(Self::If)
        }         else if spells(word, "insert") {
            Some(Self::Insert)
        }         else if spells(word, "int") {
            Some(Self::Int)
        }         else if spells(word, "key") {
            Some(Self::Key)
        }         else if spells(word, "let") {
            Some(Self::Let)
        }         else if spells(word, "match") {
            Some(Self::Match)
        }         else if spells(word, "new") {
            Some(Self::New)
        }         else if spells(word, "number") {
            Some(Self::Number)
        }         else if spells(word, "or") {
            Some(Self::Or)
        }         else if spells(word, "pub") {
            Some(Self::Pub)
        }         else if spells(word, "string") {
            Some(Self::StringKeyword)
        }         else if spells(word, "tag") {
            Some(Self::Tag)
        }         else if spells(word, "type") {
            Some(Self::Type)
        }         else if spells(word, "with") {
            Some(Self::With)
        } else {
            None
        }
    }

    /// Looks `word` up in the table of reserved words.
    pub fn from_str(word: &str) -> (r: Option<Self>)
        ensures
            content_view(r) == keyword(word@),
    {
        let mut chars: Vec<char> = Vec::new();
        for c in it: word.chars()
            invariant
                it.seq() == word@,
                chars@ == word@.take(it.index()),
        {
            chars.push(c);
        }
        assert(chars@ == word@);
        Self::from_chars(chars.as_slice())
    }

    /// The token that `c` makes by itself, if it makes one.
    pub fn from_char(c: char) -> (r: Option<Self>)
        ensures
            content_view(r) == punctuation(c),
    {
        if c == '{' {
            Some(Self::BraceLeft)
        } else if c == '}' {
            Some(Self::BraceRight)
        } else {
            None
        }
    }
}

/// A token: what it is and where it lies.
#[derive(Eq, PartialEq, Clone, Debug)]
pub struct Token {
    pub loc: TokenLoc,
    pub con: TokenContent,
}

/// A `Token` with its text as a sequence of characters.
pub struct TokenView {
    pub loc: TokenLoc,
    pub con: ContentView,
}

impl View for Token {
    type V = TokenView;

    open spec fn view(&self) -> TokenView {
        TokenView { loc: self.loc, con: self.con@ }
    }
}

/// The span of a node of the syntax tree, from its first position to the
/// one after its last.
#[derive(Clone, Copy, Debug, Eq, PartialEq, Structural)]
pub struct NodeLoc {
    pub start: u32,
    pub end: u32,
}

/// An item of the syntax tree that knows where it lies.
pub trait Node {
    fn loc(&mut self) -> NodeLoc;

    fn set_loc(&mut self, loc: NodeLoc);
}

/// A node that holds other nodes.
pub trait HasChildren {
    fn append_child<T: Node>(&mut self, node: T);

    fn children(&mut self) -> Vec<Box<dyn Node>>;
}

/// A node that is a whole query.
pub trait Query: Node {}

/// A node that opens a scope for the nodes it holds.
pub trait Scope: Node + HasChildren {}

} // verus!
