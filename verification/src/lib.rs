//! Expression-level syntax analysis for an ECMAScript-family parser.
//!
//! The library turns a token stream into an abstract syntax tree for unary,
//! update, and binary expressions, enforcing operator precedence,
//! associativity, and the early grammar errors owned by this layer
//! (invalid update targets, the `**` ambiguity guard, `await *`).
//! Import and export declarations of module code are parsed as well.
//!
//! Every parsing method is specified against a definitional interpreter
//! over the token sequence (see `grammar`), so the tree a method returns,
//! the tokens it consumes, and the error it reports are pinned exactly.

pub mod ast;
pub mod context;
pub mod error;
pub mod grammar;
pub mod laws;
pub mod module_item;
pub mod parser;
pub mod token;
