//! A lossless, error-tolerant syntax tree for GraphQL documents, verified
//! with Verus.
//!
//! A text is split into tokens ([`lexer`]), the tokens are parsed by a
//! recursive descent over the grammar ([`parser`], [`grammar`]), which
//! drives an append-only builder ([`builder`]), and the result is a tree
//! with the diagnostics that were recorded on the way ([`tree`]). The typed
//! layer ([`ast`]) views the nodes of the tree by the productions that they
//! stand for. No text makes the parse fail: what cannot be placed becomes an
//! error leaf and a diagnostic.
//!
//! What is proved of [`parser::parse`]:
//!
//! - the events of the tree and the diagnostics are exactly those that the
//!   grammar, read as a function on the state of a parse, gives for the
//!   tokens of the text;
//! - the texts of the tokens of the tree, in order, are the text;
//! - the diagnostics stand in the order of the text;
//! - the tree and the diagnostics together are no larger than a fixed
//!   multiple of the number of tokens.
//!
//! Of every tree, the spans of the children of a node tile the span of the
//! node ([`tree::SyntaxTree::lemma_spans_tile`]).
//!
//! The builder fills a green tree of `rowan` beside its own elements
//! ([`green`]); [`operation`] holds operation definitions as values, with
//! the builder that puts them together from a source of choices
//! ([`entropy`]) and the text that the encoder writes for them
//! ([`encoder`]). What is stated of these three crates is taken on trust;
//! it stands in the three modules named, and in [`print`] for the quoting of
//! strings.

pub mod ast;
pub mod builder;
pub mod encoder;
pub mod entropy;
pub mod error;
pub mod event;
pub mod grammar;
pub mod green;
pub mod kind;
pub mod lexer;
pub mod operation;
pub mod parser;
pub mod print;
pub mod tree;
