//! Expands a sugared dialect of a stack-machine assembly text format into
//! its canonical form, by an ordered pipeline of rewrite rules.

pub mod args;
pub mod engine;
pub mod pipeline;
pub mod rules;
pub mod text;

pub use args::Arguments;
pub use pipeline::compile;
