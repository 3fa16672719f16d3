//! Code generators behind a small collection of procedural macros: each one reads a
//! declaration, a function or a list of identifiers and writes the Rust source text
//! that the macro expands to.
pub mod builder;
pub mod compose;
pub mod decimal;
pub mod declaration;
pub mod derive;
pub mod hello;
pub mod model;
pub mod panic_result;
pub mod private;
pub mod public;
pub mod syntax;
pub mod text;
