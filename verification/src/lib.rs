//! Front end of a small declarative query language for describing and
//! changing a tree of GUI elements: a tokenizer over characters and an
//! incremental parser over its tokens.

pub mod event;
pub mod lang;

pub use event::{Event, HandleEvent};
