//! Moves every direct child of a directory into another directory, then
//! removes the emptied directory.
//!
//! The library holds the decisions: which filesystem action comes next, given
//! what the previous one observed. The caller performs each action on a real
//! filesystem and feeds the observation back to the session
//! (`session::Exploder::step`).
pub mod config;
pub mod disk;
pub mod error;
pub mod lemmas;
pub mod paths;
pub mod session;
