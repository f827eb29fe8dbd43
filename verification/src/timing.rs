//! The time window of a commitment, in block time.

use vstd::prelude::*;

verus! {

/// A commitment has timed out once the block time lies strictly after its
/// end time. At the end time itself it has not.
pub open spec fn spec_is_timed_out(current_time: u64, end_time: u64) -> bool {
    current_time > end_time
}

/// A commitment has started once the block time lies strictly after its
/// start time.
pub open spec fn spec_is_started(current_time: u64, start_time: u64) -> bool {
    current_time > start_time
}

/// Whether a commitment that ends at `end_time` has timed out at
/// `current_time`.
pub fn is_timed_out(current_time: u64, end_time: u64) -> (timed_out: bool)
    ensures
        timed_out == spec_is_timed_out(current_time, end_time),
{
    current_time > end_time
}

/// Whether a commitment that starts at `start_time` has started at
/// `current_time`.
pub fn _is_started(current_time: u64, start_time: u64) -> (started: bool)
    ensures
        started == spec_is_started(current_time, start_time),
{
    current_time > start_time
}

} // verus!
