//! The core of a meeting recorder: streaming transcription sessions whose
//! chunks arrive in any order, the relay that turns the output of a worker
//! process into events, and the rules that choose binaries, models and
//! backends.
//!
//! The library decides and computes; it neither touches the file system nor
//! starts a process nor calls the network. Its callers do that, hand over what
//! they saw, and act on what they get back.

pub mod config;
pub mod error;
pub mod export;
pub mod ident;
pub mod json;
pub mod merge;
pub mod models;
pub mod relay;
pub mod resolve;
pub mod session;
pub mod text;
pub mod transcribe;
pub mod worker;
