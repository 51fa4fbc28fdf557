//! The parts of a shell that let it live inside another program.
//!
//! - [`sys`] is the platform layer for a host without a terminal of its own: terminal operations
//!   become scripts that the host evaluates, either with a call back when the reply is there
//!   ([`sys::wasm`]) or with a reply that is watched for ([`sys::wasm_shim`]).
//! - [`embedded`] decides what a run of the shell does: how its command line is prepared, which
//!   options the shell is created with, what it is made to run, and which code it exits with.
//!
//! Everything here decides and computes. Files, terminals, tasks and processes are the business
//! of the program around it, which hands over what it found and does what it is told.

pub mod args;
pub mod embedded;
pub mod error;
pub mod sys;
pub mod terminal;
pub mod text;
