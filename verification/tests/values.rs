//! Wire values, labels, defaults and error messages.

use smpp_multipart::result::{AppUiError, MultiPartError, SmppFieldError, SmppUrlError};
use smpp_multipart::values::{
    Ansi41CbsPriorityFlag, Ansi41Specific, Ansi136PriorityFlag, BindMode, DataCoding, EsmClass,
    GsmCbsPriorityFlag, GsmFeatures, GsmSmsPriorityFlag, InterfaceVersion, Is95PriorityFlag,
    MessageType, MessagingMode, Npi, Ton,
};
use smpp_multipart::widgets::BindIndicator;

#[test]
fn esm_class_octet_composes_the_four_bit_fields() {
    let esm = EsmClass::new(
        MessagingMode::Forward,
        MessageType::MCDeliveryReceipt,
        Ansi41Specific::UserAcknowledgment,
        GsmFeatures::UdhiIndicator,
    );
    assert_eq!(esm.value(), 0x56);
    assert_eq!(EsmClass::default().value(), 0x00);
    let esm = EsmClass::new(
        MessagingMode::StoreAndForward,
        MessageType::IntermediateDeliveryNotification,
        Ansi41Specific::ConversationAbort,
        GsmFeatures::SetUdhiAndReplyPath,
    );
    assert_eq!(esm.value(), 0x03 + 0x20 + 0x18 + 0xC0);
}

#[test]
fn forcing_udhi_touches_only_the_gsm_features() {
    let esm = EsmClass::new(
        MessagingMode::Datagram,
        MessageType::Default,
        Ansi41Specific::NotSelected,
        GsmFeatures::SetReplyPath,
    );
    let forced = esm.with_udhi_indicator();
    assert_eq!(forced.gsm_features, GsmFeatures::UdhiIndicator);
    assert_eq!(forced.messaging_mode, MessagingMode::Datagram);
    assert_eq!(forced.message_type, MessageType::Default);
}

#[test]
fn data_coding_wire_values() {
    assert_eq!(DataCoding::Gsm7BitUnpacked.wire_value(), 0x00);
    assert_eq!(DataCoding::Latin1.wire_value(), 0x03);
    assert_eq!(DataCoding::Ucs2.wire_value(), 0x08);
    assert_eq!(DataCoding::default(), DataCoding::Gsm7BitUnpacked);
}

#[test]
fn priority_flags_decode_their_wire_range() {
    assert!(matches!(
        GsmSmsPriorityFlag::from_u8(0),
        Some(GsmSmsPriorityFlag::NoPriority)
    ));
    assert!(matches!(
        GsmSmsPriorityFlag::from_u8(3),
        Some(GsmSmsPriorityFlag::Priority3)
    ));
    assert!(GsmSmsPriorityFlag::from_u8(4).is_none());

    assert!(matches!(
        GsmCbsPriorityFlag::from_u8(4),
        Some(GsmCbsPriorityFlag::PriorityBackground)
    ));
    assert!(GsmCbsPriorityFlag::from_u8(5).is_none());

    assert!(matches!(
        Ansi136PriorityFlag::from_u8(2),
        Some(Ansi136PriorityFlag::Urgent)
    ));
    assert!(Ansi136PriorityFlag::from_u8(4).is_none());

    assert!(matches!(
        Is95PriorityFlag::from_u8(3),
        Some(Is95PriorityFlag::Emergency)
    ));
    assert!(Is95PriorityFlag::from_u8(200).is_none());

    assert!(matches!(
        Ansi41CbsPriorityFlag::from_u8(1),
        Some(Ansi41CbsPriorityFlag::Interactive)
    ));
    assert!(Ansi41CbsPriorityFlag::from_u8(255).is_none());
}

#[test]
fn labels_and_defaults() {
    assert_eq!(BindMode::Tx.label(), "Transmitter");
    assert_eq!(BindMode::Rx.label(), "Receiver");
    assert_eq!(BindMode::Trx.label(), "Transceiver");
    assert_eq!(BindMode::default(), BindMode::Tx);

    assert_eq!(InterfaceVersion::Smpp5_0.label(), "v5");
    assert_eq!(InterfaceVersion::Smpp3_4.label(), "v3.4");
    assert_eq!(InterfaceVersion::Smpp3_3.label(), "v3.3");
    assert_eq!(InterfaceVersion::default(), InterfaceVersion::Smpp5_0);

    assert_eq!(Ton::default(), Ton::Unknown);
    assert_eq!(Npi::default(), Npi::Unknown);
    assert_eq!(MessagingMode::default(), MessagingMode::Default);
    assert_eq!(Ansi41Specific::default(), Ansi41Specific::NotSelected);
    assert_eq!(GsmFeatures::default(), GsmFeatures::NotSelected);
}

#[test]
fn field_error_messages_match_the_form_hints() {
    assert_eq!(
        SmppFieldError::SystemId.display_message(),
        "System ID must be 0-15 ascii octets long."
    );
    assert_eq!(
        SmppFieldError::ServiceType.display_message(),
        "Service Type must be 0-5 ascii octets long."
    );
    assert_eq!(
        SmppFieldError::EnquireLinkInterval.display_message(),
        "Enquire Link Interval must be a valid positive integer."
    );
    assert_eq!(
        AppUiError::invalid_password().display_message(),
        "Password must be 0-8 ascii octets long."
    );
    assert_eq!(
        AppUiError::Url(SmppUrlError::Schema).display_message(),
        "URL schema must be smpp, ssmpp or smpps"
    );
    assert_eq!(
        AppUiError::MultiPart(MultiPartError::TooManyParts).display_message(),
        "Message would need more than 255 segments."
    );
}

#[test]
fn error_constructors_pick_their_variant() {
    assert_eq!(
        AppUiError::invalid_system_id(),
        AppUiError::Field(SmppFieldError::SystemId)
    );
    assert_eq!(
        AppUiError::invalid_system_type(),
        AppUiError::Field(SmppFieldError::SystemType)
    );
    assert_eq!(
        AppUiError::invalid_service_type(),
        AppUiError::Field(SmppFieldError::ServiceType)
    );
    assert_eq!(
        AppUiError::invalid_source_addr(),
        AppUiError::Field(SmppFieldError::SourceAddr)
    );
    assert_eq!(
        AppUiError::invalid_destination_addr(),
        AppUiError::Field(SmppFieldError::DestinationAddr)
    );
    assert_eq!(
        AppUiError::invalid_protocol_id(),
        AppUiError::Field(SmppFieldError::ProtocolId)
    );
    assert_eq!(
        AppUiError::invalid_sm_default_msg_id(),
        AppUiError::Field(SmppFieldError::SmDefaultMsgId)
    );
    assert_eq!(
        AppUiError::invalid_priority_flag(),
        AppUiError::Field(SmppFieldError::PriorityFlag)
    );
    assert_eq!(
        AppUiError::invalid_enquire_link_interval(),
        AppUiError::Field(SmppFieldError::EnquireLinkInterval)
    );
}

#[test]
fn bind_indicator_reports_its_state() {
    assert!(BindIndicator::new(true).connected());
    assert!(!BindIndicator::new(false).connected());
}
