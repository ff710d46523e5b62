//! How long a scheduled task stays scheduled.
use vstd::prelude::*;

verus! {

/// A permanent task stays scheduled after it runs.
#[derive(Debug, Clone, Copy, PartialEq, Eq, Structural)]
pub enum SchedulerTaskType {
    Permanent,
}

} // verus!
