//! Import of one-time-password records into a `pass` credential store.
//!
//! The library decides everything about an import: which input rows become
//! records, where each record is stored, which command line and standard input
//! the store program receives, and what each outcome of that program means.
//! Running the store program, reading files and walking directories is left to
//! the caller, which hands the results back as plain values.

pub mod otp;
pub mod pass;
pub mod platform;
