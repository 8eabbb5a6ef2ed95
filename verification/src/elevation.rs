//! Elevation helpers.
//!
//! Elevated rights matter only where a platform gates sensor access behind
//! them; on this build there is no such gate, so both probes answer plainly.

use vstd::prelude::*;

verus! {

/// Whether the process runs with elevated rights: never, on this build.
pub fn is_elevated() -> (r: bool)
    ensures
        r == false,
{
    false
}

/// Relaunch the process elevated: not available on this build.
pub fn relaunch_elevated() -> (r: bool)
    ensures
        r == false,
{
    false
}

} // verus!
