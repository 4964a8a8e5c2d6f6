//! The esm_class parameter of a submit_sm and its four bit fields.

use vstd::prelude::*;

verus! {

/// Message mode and message type attributes attached to a submit_sm.
#[derive(Debug, Clone, Copy, PartialEq, Eq, Structural)]
pub struct EsmClass {
    pub messaging_mode: MessagingMode,
    pub message_type: MessageType,
    pub ansi41_specific: Ansi41Specific,
    pub gsm_features: GsmFeatures,
}

impl EsmClass {
    pub fn new(
        messaging_mode: MessagingMode,
        message_type: MessageType,
        ansi41_specific: Ansi41Specific,
        gsm_features: GsmFeatures,
    ) -> (r: Self)
        ensures
            r == (EsmClass { messaging_mode, message_type, ansi41_specific, gsm_features }),
    {
        Self { messaging_mode, message_type, ansi41_specific, gsm_features }
    }

    /// The esm_class octet: the four fields occupy disjoint bit ranges
    /// (mode in bits 1-0, type in bits 5 and 2, ANSI-41 in bits 4-3,
    /// GSM features in bits 7-6), so their sum is their bitwise union.
    pub open spec fn spec_value(self) -> u8 {
        (self.messaging_mode.spec_value() + self.message_type.spec_value()
            + self.ansi41_specific.spec_value() + self.gsm_features.spec_value()) as u8
    }

    /// The esm_class octet for the wire.
    pub fn value(self) -> (r: u8)
        ensures
            r == self.spec_value(),
    {
        self.messaging_mode.value() + self.message_type.value() + self.ansi41_specific.value()
            + self.gsm_features.value()
    }

    /// The same esm_class with the GSM features field forced to the UDHI
    /// indicator, as every part of a concatenated message must carry it.
    pub open spec fn spec_with_udhi_indicator(self) -> Self {
        EsmClass { gsm_features: GsmFeatures::UdhiIndicator, ..self }
    }

    pub fn with_udhi_indicator(self) -> (r: Self)
        ensures
            r == self.spec_with_udhi_indicator(),
    {
        Self { gsm_features: GsmFeatures::UdhiIndicator, ..self }
    }
}

impl Default for EsmClass {
    fn default() -> (r: Self)
        ensures
            r == (EsmClass {
                messaging_mode: MessagingMode::Default,
                message_type: MessageType::Default,
                ansi41_specific: Ansi41Specific::NotSelected,
                gsm_features: GsmFeatures::NotSelected,
            }),
    {
        EsmClass {
            messaging_mode: MessagingMode::Default,
            message_type: MessageType::Default,
            ansi41_specific: Ansi41Specific::NotSelected,
            gsm_features: GsmFeatures::NotSelected,
        }
    }
}

/// Messaging mode, bits 1-0 of esm_class.
#[derive(Debug, Clone, Copy, PartialEq, Eq, Structural)]
pub enum MessagingMode {
    Default,
    Datagram,
    Forward,
    StoreAndForward,
}

impl MessagingMode {
    pub open spec fn spec_value(self) -> u8 {
        match self {
            MessagingMode::Default => 0x00,
            MessagingMode::Datagram => 0x01,
            MessagingMode::Forward => 0x02,
            MessagingMode::StoreAndForward => 0x03,
        }
    }

    pub fn value(self) -> (r: u8)
        ensures
            r == self.spec_value(),
    {
        match self {
            MessagingMode::Default => 0x00,
            MessagingMode::Datagram => 0x01,
            MessagingMode::Forward => 0x02,
            MessagingMode::StoreAndForward => 0x03,
        }
    }
}

impl Default for MessagingMode {
    fn default() -> (r: Self)
        ensures
            r == MessagingMode::Default,
    {
        MessagingMode::Default
    }
}

/// Message type, bits 5 and 2 of esm_class.
#[derive(Debug, Clone, Copy, PartialEq, Eq, Structural)]
pub enum MessageType {
    Default,
    MCDeliveryReceipt,
    IntermediateDeliveryNotification,
}

impl MessageType {
    pub open spec fn spec_value(self) -> u8 {
        match self {
            MessageType::Default => 0x00,
            MessageType::MCDeliveryReceipt => 0x04,
            MessageType::IntermediateDeliveryNotification => 0x20,
        }
    }

    pub fn value(self) -> (r: u8)
        ensures
            r == self.spec_value(),
    {
        match self {
            MessageType::Default => 0x00,
            MessageType::MCDeliveryReceipt => 0x04,
            MessageType::IntermediateDeliveryNotification => 0x20,
        }
    }
}

impl Default for MessageType {
    fn default() -> (r: Self)
        ensures
            r == MessageType::Default,
    {
        MessageType::Default
    }
}

/// ANSI-41 specific attributes, bits 4-3 of esm_class.
#[derive(Debug, Clone, Copy, PartialEq, Eq, Structural)]
pub enum Ansi41Specific {
    NotSelected,
    DeliveryAcknowledgement,
    UserAcknowledgment,
    ConversationAbort,
}

impl Ansi41Specific {
    pub open spec fn spec_value(self) -> u8 {
        match self {
            Ansi41Specific::NotSelected => 0x00,
            Ansi41Specific::DeliveryAcknowledgement => 0x08,
            Ansi41Specific::UserAcknowledgment => 0x10,
            Ansi41Specific::ConversationAbort => 0x18,
        }
    }

    pub fn value(self) -> (r: u8)
        ensures
            r == self.spec_value(),
    {
        match self {
            Ansi41Specific::NotSelected => 0x00,
            Ansi41Specific::DeliveryAcknowledgement => 0x08,
            Ansi41Specific::UserAcknowledgment => 0x10,
            Ansi41Specific::ConversationAbort => 0x18,
        }
    }
}

impl Default for Ansi41Specific {
    fn default() -> (r: Self)
        ensures
            r == Ansi41Specific::NotSelected,
    {
        Ansi41Specific::NotSelected
    }
}

/// GSM network specific features, bits 7-6 of esm_class.
#[derive(Debug, Clone, Copy, PartialEq, Eq, Structural)]
pub enum GsmFeatures {
    NotSelected,
    UdhiIndicator,
    SetReplyPath,
    SetUdhiAndReplyPath,
}

impl GsmFeatures {
    pub open spec fn spec_value(self) -> u8 {
        match self {
            GsmFeatures::NotSelected => 0x00,
            GsmFeatures::UdhiIndicator => 0x40,
            GsmFeatures::SetReplyPath => 0x80,
            GsmFeatures::SetUdhiAndReplyPath => 0xC0,
        }
    }

    pub fn value(self) -> (r: u8)
        ensures
            r == self.spec_value(),
    {
        match self {
            GsmFeatures::NotSelected => 0x00,
            GsmFeatures::UdhiIndicator => 0x40,
            GsmFeatures::SetReplyPath => 0x80,
            GsmFeatures::SetUdhiAndReplyPath => 0xC0,
        }
    }
}

impl Default for GsmFeatures {
    fn default() -> (r: Self)
        ensures
            r == GsmFeatures::NotSelected,
    {
        GsmFeatures::NotSelected
    }
}

} // verus!
