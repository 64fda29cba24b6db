//! A printer of JavaScript syntax trees, pretty or minified.

pub mod ast;

pub mod generator;
pub mod number;
pub mod text;
pub mod render;
pub mod printable;
pub mod codegen;
pub mod laws;
pub mod tokens;
pub mod layout;
pub mod syntax_laws;
