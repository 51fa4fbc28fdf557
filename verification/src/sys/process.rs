//! Processes, as far as a host without processes knows them.

use vstd::prelude::*;

verus! {

/// The number that identifies a process.
pub type ProcessId = i32;

} // verus!
