//! An ahead-of-time compiler for a small, statically typed, C-like
//! procedural language: a lexer, a recursive-descent parser producing a
//! typed abstract syntax tree, a storage allocator for locals, and a
//! translator that lowers the tree to a small register-and-stack IR while
//! enforcing the language's type and mutability rules. A thin unverified
//! backend turns the IR into a native object file.

pub mod ast;
pub mod binop;
pub mod compiler;
pub mod errors;
pub mod functions;
pub mod ir;
pub mod lexer;
pub mod parser;
pub mod semantics;
pub mod translate;
pub mod variables;
