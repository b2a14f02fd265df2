//! The semantic back end of a small expression-oriented language.
//!
//! A source file is lexed into tokens and parsed into a syntax tree.  The
//! binder resolves names against lexical scope snapshots and type-checks
//! operators and calls, producing a bound tree.  Bytecode lowering translates
//! the bound tree into a linear stack-machine instruction sequence, and the
//! executor interprets that sequence, collecting the integers printed by the
//! program.

pub mod types;
pub mod common;
pub mod token;
pub mod lexer;
pub mod ast;
pub mod parsing;
pub mod bound_nodes;
pub mod binding;
pub mod bytecode;
pub mod bytecode_compilation;
pub mod execute;
pub mod pipeline;
