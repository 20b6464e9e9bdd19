//! A command transformation engine.
//!
//! One written operation against a shared application-state object is turned
//! into two deployment-specific entry points: a host wrapper that reaches the
//! state through a lock, and a sandbox wrapper that reaches it through
//! thread-confined storage. Both call one hidden inner function that holds the
//! operation's body unchanged.

pub mod artifact;
pub mod command;
pub mod decl;
pub mod diag;
pub mod expand;
pub mod generate;
pub mod laws;
pub mod names;
pub mod render;
pub mod state;
pub mod text;
pub mod validate;
pub mod world;
