//! A small library for building and scanning syntax trees: generic AST nodes with
//! spans and attributes, a forward-only character scanner, and a model of Rust-like
//! code (types, patterns, expressions, statements, items, modules).
pub mod text;
pub mod ast_types;
pub mod scanner;
pub mod ast_module;
pub mod types;
pub mod code_module;
pub mod code_view;
