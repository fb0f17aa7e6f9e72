//! Program registry and dispatch rules for a proof server that hosts several
//! zkVM programs, each bound to one of a closed set of proving backends.
//!
//! The crate holds the content-addressed program identity, the registry that
//! maps identities to program instances, the start-up pipeline that fills it,
//! and the rules that turn a backend outcome into a response. Compiling a
//! program, running a zkVM and checking a proof are the caller's business:
//! the functions here take them as closures and state what is returned for
//! every outcome.

pub mod app_state;
pub mod common;
pub mod config;
pub mod handlers;
pub mod hashing;
pub mod primitives;
pub mod program;
pub mod text;
