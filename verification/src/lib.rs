//! Front end of a small ActionScript-like scripting language.
//!
//! The crate turns source text into tokens, holds the concrete syntax tree
//! that an external parser builds from those tokens, and gives that tree
//! strongly-typed abstract-syntax views that later stages can consume
//! without re-parsing.
//!
//! - [`kinds`] — the closed, densely-numbered taxonomy of token and node
//!   kinds, with the category predicates every later stage classifies by.
//! - [`lexer`] — the lossless byte-level tokenizer: the concatenated text
//!   of its tokens reconstructs the input exactly, on every input.
//! - [`cst`] — the immutable concrete syntax tree and its structural
//!   navigation: child and token lookup, operator search, paren trimming.
//! - [`ast`] — the grammar abstraction: one contract naming every
//!   production type, shared by the backends below.
//! - [`facade`] — the lazy, tree-backed typed views, with the casts that
//!   resolve the ambiguous node shapes by re-inspecting operator tokens.
//! - [`owned`] — the fully-owned backend, built directly by callers.
//! - [`borrowed`] — the borrowed-arena backend: the same surface over
//!   references into caller-owned storage.
//! - [`ser`] — JSON serialization of the owned backend, byte-exact.
//! - [`unescape`] — the string literal escape-sequence decoder.

pub mod ast;
pub mod borrowed;
pub mod cst;
pub mod facade;
pub mod kinds;
pub mod lexer;
pub mod owned;
pub mod ser;
pub mod unescape;
