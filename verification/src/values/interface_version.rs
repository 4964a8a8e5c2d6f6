//! The SMPP interface version offered in a bind.

use vstd::prelude::*;

verus! {

/// Protocol revision announced to the server when binding.
#[derive(Debug, Clone, Copy, PartialEq, Eq, Structural)]
pub enum InterfaceVersion {
    Smpp3_3,
    Smpp3_4,
    Smpp5_0,
}

impl InterfaceVersion {
    /// The label shown for this version in the bind form.
    pub open spec fn spec_label(self) -> Seq<char> {
        match self {
            InterfaceVersion::Smpp5_0 => "v5"@,
            InterfaceVersion::Smpp3_4 => "v3.4"@,
            InterfaceVersion::Smpp3_3 => "v3.3"@,
        }
    }

    /// The label shown for this version in the bind form.
    pub fn label(self) -> (r: &'static str)
        ensures
            r@ == self.spec_label(),
    {
        match self {
            InterfaceVersion::Smpp5_0 => "v5",
            InterfaceVersion::Smpp3_4 => "v3.4",
            InterfaceVersion::Smpp3_3 => "v3.3",
        }
    }
}

impl Default for InterfaceVersion {
    fn default() -> (r: Self)
        ensures
            r == InterfaceVersion::Smpp5_0,
    {
        InterfaceVersion::Smpp5_0
    }
}

} // verus!
