//! Typed actor graphs without supervision: a graph runs as a whole, and its
//! refs fail while it does not run.
pub mod binding;
pub mod builder;
pub mod context;
pub mod error;
pub mod graph;
