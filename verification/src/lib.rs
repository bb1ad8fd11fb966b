//! A small relay library: send one prompt to a pre-configured recipient over a
//! messaging API, then await a single matching reply under a hard deadline.
//!
//! The library holds the verified logic: response-envelope unpacking, reply
//! filtering, token redaction, cursor bookkeeping and the drain/send/poll
//! state machine. Network, file and terminal I/O live outside, in the
//! application shell, which drives these functions with plain values.

pub mod config;
pub mod coordinator;
pub mod prompt;
pub mod telegram;
pub mod text;
