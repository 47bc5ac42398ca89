//! Supervision of one external program: the decisions of the run/restart
//! loop, the cancellable task that hosts it, and the version probe.
use vstd::prelude::*;

pub mod channel;
pub mod child_process;
pub mod error;
pub mod process;
pub mod task;
pub mod text;
pub mod version;

pub use crate::child_process::{spawn, spawn_with_args, spawn_with_args_and_options};

verus! {

/// Sum of two sizes.
pub fn add(left: usize, right: usize) -> (sum: usize)
    requires
        left + right <= usize::MAX,
    ensures
        sum == left + right,
{
    left + right
}

} // verus!
