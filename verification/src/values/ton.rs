//! Type-of-number values for source and destination addresses.

use vstd::prelude::*;

verus! {

/// Type of number of an SMPP address.
#[derive(Debug, Clone, Copy, PartialEq, Eq, Structural)]
pub enum Ton {
    Unknown,
    International,
    National,
    NetworkSpecific,
    SubscriberNumber,
    Alphanumeric,
    Abbreviated,
}

impl Default for Ton {
    fn default() -> (r: Self)
        ensures
            r == Ton::Unknown,
    {
        Ton::Unknown
    }
}

} // verus!
