//! The character encoding selected for an outbound message.

use vstd::prelude::*;

verus! {

/// A character encoding scheme for short-message payloads.
#[derive(Debug, Clone, Copy, PartialEq, Eq, Structural)]
pub enum DataCoding {
    /// GSM 7-bit default alphabet, one 7-bit code per 8-bit storage unit.
    Gsm7BitUnpacked,
    /// ISO-8859-1, one byte per character.
    Latin1,
    /// UCS-2 (UTF-16 code units), two bytes per unit, big-endian.
    Ucs2,
}

impl Default for DataCoding {
    /// The compose form starts out with GSM 7-bit unpacked selected.
    fn default() -> (r: Self)
        ensures
            r == DataCoding::Gsm7BitUnpacked,
    {
        DataCoding::Gsm7BitUnpacked
    }
}

impl DataCoding {
    /// The data_coding octet placed on the wire for this scheme.
    ///
    /// GSM 7-bit unpacked is tagged as MC-specific (0x00); Latin-1 and UCS-2
    /// use their standard SMPP data coding values.
    pub open spec fn spec_wire_value(self) -> u8 {
        match self {
            DataCoding::Gsm7BitUnpacked => 0x00,
            DataCoding::Latin1 => 0x03,
            DataCoding::Ucs2 => 0x08,
        }
    }

    /// The data_coding octet placed on the wire for this scheme.
    pub fn wire_value(self) -> (r: u8)
        ensures
            r == self.spec_wire_value(),
    {
        match self {
            DataCoding::Gsm7BitUnpacked => 0x00,
            DataCoding::Latin1 => 0x03,
            DataCoding::Ucs2 => 0x08,
        }
    }
}

} // verus!
