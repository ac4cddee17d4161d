//! Search core of a small chess engine that speaks a line-oriented text
//! protocol: command parsing, the search budget, the negamax walk over the
//! move tree with its repetition guard, and cooperative cancellation.
//!
//! The rules of chess come from `cozy_chess`; everything this crate decides
//! on top of them is stated in contracts and proved.
//!
//! - [`text`]: fields, words and numbers in a line of text
//! - [`go`]: the parameters of a `go` command
//! - [`budget`]: the rule that ends a search
//! - [`rules`]: what is taken from `cozy_chess`, and on what terms
//! - [`position`]: a position, seen through its FEN record
//! - [`search`]: what the search computes, and what holds of it
//! - [`engine`]: the engine and the search itself
//! - [`protocol`]: the commands and the `position` command

pub mod budget;
pub mod engine;
pub mod go;
pub mod position;
pub mod protocol;
pub mod rules;
pub mod search;
pub mod text;
