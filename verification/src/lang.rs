//! The query language: its tokens, its lexical rules and its grammar.

pub mod ast;
pub mod chars;
pub mod grammar;
pub mod parser;
pub mod scan;
pub mod tokenizer;
