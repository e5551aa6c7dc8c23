//! A small imperative scripting language for embedding in a host program:
//! a tokenizer, a precedence-climbing parser, an abstract syntax tree, and a
//! tree-walking evaluator with lexical closures.
//!
//! Every component carries a mathematical model (`Spec*` types and `spec fn`
//! definitions) and the executable functions are proved to compute exactly
//! what the model says.

pub mod ast;
pub mod builtins;
pub mod display;
pub mod env;
pub mod evaluator;
pub mod lexer;
pub mod object;
pub mod parser;
pub mod precedences;
pub mod token;
