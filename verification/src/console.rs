//! The live dashboard: its configuration, who may use it, and what its
//! connections are sent.
pub mod config;
pub mod random;
pub mod security;
pub mod session;
pub mod socket;
