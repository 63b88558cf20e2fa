use vstd::prelude::*;

verus! {

/// Logical level of a digital line.
#[derive(Clone, Copy, Debug, PartialEq, Eq, Structural)]
pub enum Level {
    High,
    Low,
}

impl Level {
    pub fn is_high(&self) -> (r: bool)
        ensures
            r == (*self == Level::High),
    {
        match self {
            Level::High => true,
            Level::Low => false,
        }
    }

    pub fn is_low(&self) -> (r: bool)
        ensures
            r == (*self == Level::Low),
    {
        match self {
            Level::High => false,
            Level::Low => true,
        }
    }
}

} // verus!
