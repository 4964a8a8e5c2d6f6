//! Error types surfaced to the user interface.

use vstd::prelude::*;

verus! {

/// Outcome of an operation whose failure is reported to the user.
pub type AppResult<T> = Result<T, AppUiError>;

/// Any error that the user interface can display.
#[derive(Debug, Clone, Copy, PartialEq, Eq, Structural)]
pub enum AppUiError {
    Url(SmppUrlError),
    Field(SmppFieldError),
    MultiPart(MultiPartError),
}

impl AppUiError {
    /// The human-readable description of the error.
    pub fn display_message(&self) -> (r: String)
        ensures
            r@ == match self {
                AppUiError::Field(err) => err.spec_display_message(),
                AppUiError::Url(err) => err.spec_display_message(),
                AppUiError::MultiPart(err) => err.spec_display_message(),
            },
    {
        match self {
            AppUiError::Field(err) => err.display_message(),
            AppUiError::Url(err) => err.display_message(),
            AppUiError::MultiPart(err) => err.display_message(),
        }
    }

    pub fn invalid_system_id() -> (r: Self)
        ensures
            r == AppUiError::Field(SmppFieldError::SystemId),
    {
        Self::Field(SmppFieldError::SystemId)
    }

    pub fn invalid_password() -> (r: Self)
        ensures
            r == AppUiError::Field(SmppFieldError::Password),
    {
        Self::Field(SmppFieldError::Password)
    }

    pub fn invalid_system_type() -> (r: Self)
        ensures
            r == AppUiError::Field(SmppFieldError::SystemType),
    {
        Self::Field(SmppFieldError::SystemType)
    }

    pub fn invalid_service_type() -> (r: Self)
        ensures
            r == AppUiError::Field(SmppFieldError::ServiceType),
    {
        Self::Field(SmppFieldError::ServiceType)
    }

    pub fn invalid_source_addr() -> (r: Self)
        ensures
            r == AppUiError::Field(SmppFieldError::SourceAddr),
    {
        Self::Field(SmppFieldError::SourceAddr)
    }

    pub fn invalid_destination_addr() -> (r: Self)
        ensures
            r == AppUiError::Field(SmppFieldError::DestinationAddr),
    {
        Self::Field(SmppFieldError::DestinationAddr)
    }

    pub fn invalid_protocol_id() -> (r: Self)
        ensures
            r == AppUiError::Field(SmppFieldError::ProtocolId),
    {
        Self::Field(SmppFieldError::ProtocolId)
    }

    pub fn invalid_sm_default_msg_id() -> (r: Self)
        ensures
            r == AppUiError::Field(SmppFieldError::SmDefaultMsgId),
    {
        Self::Field(SmppFieldError::SmDefaultMsgId)
    }

    pub fn invalid_priority_flag() -> (r: Self)
        ensures
            r == AppUiError::Field(SmppFieldError::PriorityFlag),
    {
        Self::Field(SmppFieldError::PriorityFlag)
    }

    pub fn invalid_enquire_link_interval() -> (r: Self)
        ensures
            r == AppUiError::Field(SmppFieldError::EnquireLinkInterval),
    {
        Self::Field(SmppFieldError::EnquireLinkInterval)
    }
}

/// A rejected protocol form field.
#[derive(Debug, Clone, Copy, PartialEq, Eq, Structural)]
pub enum SmppFieldError {
    SystemId,
    Password,
    SystemType,
    ServiceType,
    SourceAddr,
    DestinationAddr,
    ProtocolId,
    SmDefaultMsgId,
    PriorityFlag,
    EnquireLinkInterval,
}

impl SmppFieldError {
    /// The message that `display_message` returns for this variant.
    pub open spec fn spec_display_message(&self) -> Seq<char> {
        match self {
            SmppFieldError::SystemId => "System ID must be 0-15 ascii octets long."@,
            SmppFieldError::Password => "Password must be 0-8 ascii octets long."@,
            SmppFieldError::SystemType => "System Type must be 0-12 ascii octets long."@,
            SmppFieldError::ServiceType => "Service Type must be 0-5 ascii octets long."@,
            SmppFieldError::SourceAddr => "Source Address must be 0-20 ascii octets long."@,
            SmppFieldError::DestinationAddr => "Destination Address must be 0-20 ascii octets long."@,
            SmppFieldError::ProtocolId => "Protocol ID must be a valid unsigned 8-bit integer."@,
            SmppFieldError::SmDefaultMsgId => "SM Default Msg ID must be a valid unsigned 8-bit integer."@,
            SmppFieldError::PriorityFlag => "Priority Flag must be a valid unsigned 8-bit integer."@,
            SmppFieldError::EnquireLinkInterval => "Enquire Link Interval must be a valid positive integer."@,
        }
    }

    /// The human-readable description of the error.
    pub fn display_message(&self) -> (r: String)
        ensures
            r@ == self.spec_display_message(),
    {
        match self {
            SmppFieldError::SystemId => String::from_str("System ID must be 0-15 ascii octets long."),
            SmppFieldError::Password => String::from_str("Password must be 0-8 ascii octets long."),
            SmppFieldError::SystemType => String::from_str("System Type must be 0-12 ascii octets long."),
            SmppFieldError::ServiceType => String::from_str("Service Type must be 0-5 ascii octets long."),
            SmppFieldError::SourceAddr => String::from_str("Source Address must be 0-20 ascii octets long."),
            SmppFieldError::DestinationAddr => String::from_str("Destination Address must be 0-20 ascii octets long."),
            SmppFieldError::ProtocolId => String::from_str("Protocol ID must be a valid unsigned 8-bit integer."),
            SmppFieldError::SmDefaultMsgId => String::from_str("SM Default Msg ID must be a valid unsigned 8-bit integer."),
            SmppFieldError::PriorityFlag => String::from_str("Priority Flag must be a valid unsigned 8-bit integer."),
            SmppFieldError::EnquireLinkInterval => String::from_str("Enquire Link Interval must be a valid positive integer."),
        }
    }
}

/// A rejected SMPP server URL.
#[derive(Debug, Clone, Copy, PartialEq, Eq, Structural)]
pub enum SmppUrlError {
    /// The text is not a URL at all.
    Parse,
    /// The URL's scheme is not an SMPP scheme.
    Schema,
    /// The URL has no host.
    Host,
}

impl SmppUrlError {
    /// The message that `display_message` returns for this variant.
    pub open spec fn spec_display_message(&self) -> Seq<char> {
        match self {
            SmppUrlError::Parse => "Invalid URL"@,
            SmppUrlError::Schema => "URL schema must be smpp, ssmpp or smpps"@,
            SmppUrlError::Host => "URL host is missing"@,
        }
    }

    /// The human-readable description of the error.
    pub fn display_message(&self) -> (r: String)
        ensures
            r@ == self.spec_display_message(),
    {
        match self {
            SmppUrlError::Parse => String::from_str("Invalid URL"),
            SmppUrlError::Schema => String::from_str("URL schema must be smpp, ssmpp or smpps"),
            SmppUrlError::Host => String::from_str("URL host is missing"),
        }
    }
}

/// A failed multipart segmentation or encoding.
#[derive(Debug, Clone, Copy, PartialEq, Eq, Structural)]
pub enum MultiPartError {
    /// The message holds a character with no mapping in the chosen encoding.
    UnrepresentableCharacter,
    /// The per-part header budget leaves no room for even one character's
    /// encoded unit group in a segment.
    CapacityExhausted,
    /// The message would need more segments than a concatenation header can
    /// number.
    TooManyParts,
}

impl MultiPartError {
    /// The message that `display_message` returns for this variant.
    pub open spec fn spec_display_message(&self) -> Seq<char> {
        match self {
            MultiPartError::UnrepresentableCharacter => "Message contains a character that the selected encoding cannot represent."@,
            MultiPartError::CapacityExhausted => "Segment capacity is too small to fit a single character."@,
            MultiPartError::TooManyParts => "Message would need more than 255 segments."@,
        }
    }

    /// The human-readable description of the error.
    pub fn display_message(&self) -> (r: String)
        ensures
            r@ == self.spec_display_message(),
    {
        match self {
            MultiPartError::UnrepresentableCharacter => String::from_str("Message contains a character that the selected encoding cannot represent."),
            MultiPartError::CapacityExhausted => String::from_str("Segment capacity is too small to fit a single character."),
            MultiPartError::TooManyParts => String::from_str("Message would need more than 255 segments."),
        }
    }
}

} // verus!
