//! A verified library for generating batches of files filled with
//! pseudo-random text.
//!
//! The library produces random file names and random file content from
//! four fixed character pools, and drives a fail-fast batch of file
//! creations as a state machine.  All filesystem work is left to the
//! caller: the library hands out fully formed requests (path and content)
//! and records the outcome of each.

pub mod charset;
pub mod random;
pub mod generate;
pub mod batch;
