//! Where the agent's file output lives.

use vstd::prelude::*;

verus! {

/// The directory that log files, trade records and performance snapshots
/// are written under, relative to the working directory.
pub fn logs_directory() -> (r: &'static str)
    ensures
        r@ == "logs"@,
{
    "logs"
}

} // verus!
