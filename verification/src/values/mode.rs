//! The session mode requested by a bind.

use vstd::prelude::*;

verus! {

/// Direction of an SMPP session bind.
#[derive(Debug, Clone, Copy, PartialEq, Eq, Structural)]
pub enum BindMode {
    Tx,
    Rx,
    Trx,
}

impl BindMode {
    /// The label shown for this mode in the bind form.
    pub open spec fn spec_label(self) -> Seq<char> {
        match self {
            BindMode::Tx => "Transmitter"@,
            BindMode::Rx => "Receiver"@,
            BindMode::Trx => "Transceiver"@,
        }
    }

    /// The label shown for this mode in the bind form.
    pub fn label(self) -> (r: &'static str)
        ensures
            r@ == self.spec_label(),
    {
        match self {
            BindMode::Tx => "Transmitter",
            BindMode::Rx => "Receiver",
            BindMode::Trx => "Transceiver",
        }
    }
}

impl Default for BindMode {
    fn default() -> (r: Self)
        ensures
            r == BindMode::Tx,
    {
        BindMode::Tx
    }
}

} // verus!
