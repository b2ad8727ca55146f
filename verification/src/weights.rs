use vstd::prelude::*;

verus! {

/// Advisory execution-cost estimates for the router's operations, in
/// abstract weight units.  The router itself does not meter execution;
/// a host may consult an implementation for fee accounting.
pub trait WeightInfo {
    fn propose() -> u64;

    fn vote() -> u64;

    fn execute() -> u64;

    fn cancel() -> u64;
}

/// A zero-cost stand-in used where no benchmarked weights exist.
pub struct DummyWeight;

impl WeightInfo for DummyWeight {
    fn propose() -> u64 {
        0
    }

    fn vote() -> u64 {
        0
    }

    fn execute() -> u64 {
        0
    }

    fn cancel() -> u64 {
        0
    }
}

} // verus!
