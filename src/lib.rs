//! Time-ordered unique identifiers: a millisecond timestamp written as ten
//! digits over a configurable alphabet, followed by random characters drawn
//! from the same alphabet.
mod common;
mod functions;

pub mod base;
pub mod laws;
pub mod radix;
pub mod time;
pub mod with_config;
