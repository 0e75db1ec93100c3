//! A compiler from a small Forth-like stack language to textual LLVM IR.
//!
//! The pipeline: `lexer` turns source text into tokens, `analyzer` reads the
//! top level (definitions, heap layout, constants, entry point), `aliases`
//! reads the routine pragmas, `compile` lowers each body through `codegen`
//! and `emit` into the text streams of `builder`, and `driver` assembles the
//! module. Every step is specified by spec functions over sequences, and
//! `laws` states and proves properties of the whole.

pub mod text;
pub mod lexer;
pub mod mangle;
pub mod builder;
pub mod ir;
pub mod symbols;
pub mod error;
pub mod codegen;
pub mod emit;
pub mod dispatch;
pub mod compile;
pub mod analyzer;
pub mod aliases;
pub mod driver;
pub mod laws;
