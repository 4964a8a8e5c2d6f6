//! Priority flag values, one family per network type.

use vstd::prelude::*;

verus! {

/// GSM short-message priority.
#[derive(Debug, Clone, Copy, PartialEq, Eq, Structural)]
pub enum GsmSmsPriorityFlag {
    NoPriority,
    Priority1,
    Priority2,
    Priority3,
}

impl GsmSmsPriorityFlag {
    /// Decodes a wire value; values above 3 have no meaning.
    pub fn from_u8(value: u8) -> (r: Option<Self>)
        ensures
            r == match value {
                0u8 => Some(GsmSmsPriorityFlag::NoPriority),
                1u8 => Some(GsmSmsPriorityFlag::Priority1),
                2u8 => Some(GsmSmsPriorityFlag::Priority2),
                3u8 => Some(GsmSmsPriorityFlag::Priority3),
                _ => None::<GsmSmsPriorityFlag>,
            },
    {
        match value {
            0 => Some(GsmSmsPriorityFlag::NoPriority),
            1 => Some(GsmSmsPriorityFlag::Priority1),
            2 => Some(GsmSmsPriorityFlag::Priority2),
            3 => Some(GsmSmsPriorityFlag::Priority3),
            _ => None,
        }
    }
}

impl Default for GsmSmsPriorityFlag {
    fn default() -> (r: Self)
        ensures
            r == GsmSmsPriorityFlag::NoPriority,
    {
        GsmSmsPriorityFlag::NoPriority
    }
}

/// GSM cell-broadcast priority.
#[derive(Debug, Clone, Copy, PartialEq, Eq, Structural)]
pub enum GsmCbsPriorityFlag {
    Normal,
    ImmediateBroadcast,
    HighPriority,
    Reserved,
    PriorityBackground,
}

impl GsmCbsPriorityFlag {
    /// Decodes a wire value; values above 4 have no meaning.
    pub fn from_u8(value: u8) -> (r: Option<Self>)
        ensures
            r == match value {
                0u8 => Some(GsmCbsPriorityFlag::Normal),
                1u8 => Some(GsmCbsPriorityFlag::ImmediateBroadcast),
                2u8 => Some(GsmCbsPriorityFlag::HighPriority),
                3u8 => Some(GsmCbsPriorityFlag::Reserved),
                4u8 => Some(GsmCbsPriorityFlag::PriorityBackground),
                _ => None::<GsmCbsPriorityFlag>,
            },
    {
        match value {
            0 => Some(GsmCbsPriorityFlag::Normal),
            1 => Some(GsmCbsPriorityFlag::ImmediateBroadcast),
            2 => Some(GsmCbsPriorityFlag::HighPriority),
            3 => Some(GsmCbsPriorityFlag::Reserved),
            4 => Some(GsmCbsPriorityFlag::PriorityBackground),
            _ => None,
        }
    }
}

impl Default for GsmCbsPriorityFlag {
    fn default() -> (r: Self)
        ensures
            r == GsmCbsPriorityFlag::Normal,
    {
        GsmCbsPriorityFlag::Normal
    }
}

/// ANSI-136 short-message priority.
#[derive(Debug, Clone, Copy, PartialEq, Eq, Structural)]
pub enum Ansi136PriorityFlag {
    Bulk,
    Normal,
    Urgent,
    VeryUrgent,
}

impl Ansi136PriorityFlag {
    /// Decodes a wire value; values above 3 have no meaning.
    pub fn from_u8(value: u8) -> (r: Option<Self>)
        ensures
            r == match value {
                0u8 => Some(Ansi136PriorityFlag::Bulk),
                1u8 => Some(Ansi136PriorityFlag::Normal),
                2u8 => Some(Ansi136PriorityFlag::Urgent),
                3u8 => Some(Ansi136PriorityFlag::VeryUrgent),
                _ => None::<Ansi136PriorityFlag>,
            },
    {
        match value {
            0 => Some(Ansi136PriorityFlag::Bulk),
            1 => Some(Ansi136PriorityFlag::Normal),
            2 => Some(Ansi136PriorityFlag::Urgent),
            3 => Some(Ansi136PriorityFlag::VeryUrgent),
            _ => None,
        }
    }
}

impl Default for Ansi136PriorityFlag {
    fn default() -> (r: Self)
        ensures
            r == Ansi136PriorityFlag::Bulk,
    {
        Ansi136PriorityFlag::Bulk
    }
}

/// IS-95 short-message priority.
#[derive(Debug, Clone, Copy, PartialEq, Eq, Structural)]
pub enum Is95PriorityFlag {
    Normal,
    Interactive,
    Urgent,
    Emergency,
}

impl Is95PriorityFlag {
    /// Decodes a wire value; values above 3 have no meaning.
    pub fn from_u8(value: u8) -> (r: Option<Self>)
        ensures
            r == match value {
                0u8 => Some(Is95PriorityFlag::Normal),
                1u8 => Some(Is95PriorityFlag::Interactive),
                2u8 => Some(Is95PriorityFlag::Urgent),
                3u8 => Some(Is95PriorityFlag::Emergency),
                _ => None::<Is95PriorityFlag>,
            },
    {
        match value {
            0 => Some(Is95PriorityFlag::Normal),
            1 => Some(Is95PriorityFlag::Interactive),
            2 => Some(Is95PriorityFlag::Urgent),
            3 => Some(Is95PriorityFlag::Emergency),
            _ => None,
        }
    }
}

impl Default for Is95PriorityFlag {
    fn default() -> (r: Self)
        ensures
            r == Is95PriorityFlag::Normal,
    {
        Is95PriorityFlag::Normal
    }
}

/// ANSI-41 cell-broadcast priority.
#[derive(Debug, Clone, Copy, PartialEq, Eq, Structural)]
pub enum Ansi41CbsPriorityFlag {
    Normal,
    Interactive,
    Urgent,
    Emergency,
}

impl Ansi41CbsPriorityFlag {
    /// Decodes a wire value; values above 3 have no meaning.
    pub fn from_u8(value: u8) -> (r: Option<Self>)
        ensures
            r == match value {
                0u8 => Some(Ansi41CbsPriorityFlag::Normal),
                1u8 => Some(Ansi41CbsPriorityFlag::Interactive),
                2u8 => Some(Ansi41CbsPriorityFlag::Urgent),
                3u8 => Some(Ansi41CbsPriorityFlag::Emergency),
                _ => None::<Ansi41CbsPriorityFlag>,
            },
    {
        match value {
            0 => Some(Ansi41CbsPriorityFlag::Normal),
            1 => Some(Ansi41CbsPriorityFlag::Interactive),
            2 => Some(Ansi41CbsPriorityFlag::Urgent),
            3 => Some(Ansi41CbsPriorityFlag::Emergency),
            _ => None,
        }
    }
}

impl Default for Ansi41CbsPriorityFlag {
    fn default() -> (r: Self)
        ensures
            r == Ansi41CbsPriorityFlag::Normal,
    {
        Ansi41CbsPriorityFlag::Normal
    }
}

} // verus!
