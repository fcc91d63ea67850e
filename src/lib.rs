//! A filesystem search: the configuration a command line resolves to, and the
//! filters that decide which entries of a recursive walk are printed.

pub mod kind;
pub mod pattern;
pub mod config;
pub mod pipeline;
pub mod laws;
