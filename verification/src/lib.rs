//! Predictive (LL(1)) syntax checker for a small imperative calculator
//! language.
//!
//! The crate is a three-layer pull chain.  [`input::Input`] hands out the
//! source one positioned codepoint at a time, [`scanner::Scanner`] groups
//! codepoints into tokens, and [`parser::Parser`] drives the grammar by
//! recursive descent, selecting each production from the single lookahead
//! token.  Parsing builds no syntax tree: its observable outcome is a trace
//! of predicted productions and matched terminals, plus success or the
//! first (fatal) lexical or syntax error.

pub mod chars;
pub mod input;
pub mod parser;
pub mod scanner;
pub mod trace;
