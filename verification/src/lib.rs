//! A small interpreter for a prototype-based turtle-graphics language written
//! with Japanese syntax.
//!
//! Source text is parsed into a tree; a stepping machine evaluates the tree
//! against a heap of prototype objects.  Arithmetic on binary64 numbers is
//! left to the host: the library carries such numbers as their bit patterns
//! and asks the host whenever a sum, a product or the end point of a walk is
//! needed.
//!
//! * [`symbol`]: the interner of names.
//! * [`number`]: binary64 numbers as bit patterns.
//! * [`types`], [`error`]: values and error kinds.
//! * [`ast`]: the syntax tree.
//! * [`grammar`], [`parser`], [`unicode_num`]: from text to trees.
//! * [`object`]: prototype objects and the built-in methods.
//! * [`vm`], [`machine`]: the virtual machine and its steps.
//! * [`interpreter`], [`viewmodel`]: the facade and what a view draws.

pub mod ast;
pub mod error;
pub mod grammar;
pub mod interpreter;
pub mod machine;
pub mod number;
pub mod object;
pub mod parser;
pub mod symbol;
pub mod types;
pub mod unicode_num;
pub mod viewmodel;
pub mod vm;
