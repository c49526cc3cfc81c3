//! Dialect control for a Starlark front end: which optional constructs a parse
//! accepts, and the diagnostics for the ones it does not.

pub mod ast;
pub mod attr;
pub mod codemap;
pub mod dialect;
pub mod laws;
