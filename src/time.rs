use vstd::prelude::*;

verus! {

/// A deadline `b` milliseconds after `a`, held at the end of the clock's range.
pub open spec fn add_sat(a: u64, b: u64) -> u64 {
    if a + b <= u64::MAX {
        (a + b) as u64
    } else {
        u64::MAX
    }
}

} // verus!
