//! Numbering plan indicators for source and destination addresses.

use vstd::prelude::*;

verus! {

/// Numbering plan indicator of an SMPP address.
#[derive(Debug, Clone, Copy, PartialEq, Eq, Structural)]
pub enum Npi {
    Unknown,
    Isdn,
    Data,
    Telex,
    LandMobile,
    National,
    Private,
    Ermes,
    Internet,
    WapClientId,
}

impl Default for Npi {
    fn default() -> (r: Self)
        ensures
            r == Npi::Unknown,
    {
        Npi::Unknown
    }
}

} // verus!
