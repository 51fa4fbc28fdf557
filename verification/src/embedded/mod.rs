//! The shell as a part of another program: what a run of it decides.
//!
//! A run goes from one step to the next, each of which takes what the program around it found
//! out and says what is to be done: [`run_custom`] prepares the command line,
//! [`session::Parsing`] takes what the parser made of it, [`session::Starting`] gives the options
//! of the shell, [`session::Created`] says what the shell is made to run, and
//! [`session::end_run`] gives the exit code.

pub mod laws;
pub mod launch;
pub mod options;
pub mod run;
pub mod session;

pub use session::run_custom;
