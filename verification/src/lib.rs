//! The decision core of a small command-line shell.

pub mod ast;
pub mod config;
pub mod engine;
pub mod globals;
pub mod launcher;
pub mod laws;
pub mod prompt;
pub mod registry;
pub mod resolver;
pub mod signals;
pub mod status;
pub mod subshell;
pub mod text;
pub mod tokenizer;
pub mod util;
