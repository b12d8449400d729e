//! Verified core of an actor runtime.
pub mod actor_set;
pub mod binding;
pub mod blocking;
pub mod builder;
pub mod console;
pub mod context;
pub mod error;
pub mod graph;
pub mod handler;
pub mod observability;
pub mod registry;
pub mod runtime;
pub mod sync;
pub mod tasks;
pub mod text;
pub mod time;
pub mod topology;
pub mod typed;
