//! Building submit_sm parts and the compose form's state machine.

use smpp_multipart::composer::{Composer, OutboundPdu, PduFields, build_parts};
use smpp_multipart::result::{AppUiError, MultiPartError, SmppFieldError};
use smpp_multipart::values::{
    Ansi41Specific, DataCoding, EsmClass, GsmFeatures, MessageType, MessagingMode, Npi, Ton,
};

fn envelope() -> PduFields {
    PduFields::new(
        "CMT",
        Ton::International,
        Npi::Isdn,
        "12345",
        Ton::International,
        Npi::Isdn,
        "67890",
        "0",
        "0",
    )
    .unwrap()
}

fn user_esm(features: GsmFeatures) -> EsmClass {
    EsmClass::new(
        MessagingMode::Default,
        MessageType::Default,
        Ansi41Specific::NotSelected,
        features,
    )
}

fn composer_with(message: &str, coding: DataCoding) -> Composer {
    Composer::new_from_values(
        String::from(message),
        String::from("CMT"),
        Ton::International,
        Npi::Isdn,
        String::from("12345"),
        Ton::International,
        Npi::Isdn,
        String::from("67890"),
        coding,
        user_esm(GsmFeatures::SetReplyPath),
        GsmFeatures::SetReplyPath,
        String::from("0"),
        String::from("0"),
        String::from("0"),
    )
}

#[test]
fn short_message_builds_one_pdu_with_user_features() {
    let esm = user_esm(GsmFeatures::SetReplyPath);
    let pdus = build_parts(&envelope(), "Hello", DataCoding::Gsm7BitUnpacked, esm, 7).unwrap();
    assert_eq!(pdus.len(), 1);
    assert_eq!(pdus[0].short_message, vec![0x48, 0x65, 0x6C, 0x6C, 0x6F]);
    assert_eq!(pdus[0].esm_class.gsm_features, GsmFeatures::SetReplyPath);
    assert_eq!(pdus[0].data_coding, DataCoding::Gsm7BitUnpacked);
    assert_eq!(pdus[0].fields.service_type, "CMT");
    assert_eq!(pdus[0].fields.protocol_id, 0);
}

#[test]
fn long_ascii_message_splits_with_headers_and_forced_udhi() {
    // The classic case: 160 ASCII characters, a 140-byte ceiling and a
    // 6-byte header reservation give two parts of 134 and 26 units.
    let message = "A".repeat(160);
    let esm = user_esm(GsmFeatures::NotSelected);
    let pdus = build_parts(&envelope(), &message, DataCoding::Gsm7BitUnpacked, esm, 42).unwrap();
    assert_eq!(pdus.len(), 2);
    for (i, pdu) in pdus.iter().enumerate() {
        assert_eq!(&pdu.short_message[0..6], &[5, 0, 3, 42, 2, (i + 1) as u8]);
        assert_eq!(pdu.esm_class.gsm_features, GsmFeatures::UdhiIndicator);
        assert!(pdu.short_message.len() - 6 <= 134);
    }
    assert_eq!(pdus[0].short_message.len(), 140);
    assert_eq!(pdus[1].short_message.len(), 32);
}

#[test]
fn multipart_payloads_rejoin_to_the_encoding() {
    let message = "A".repeat(350);
    let esm = user_esm(GsmFeatures::NotSelected);
    let pdus = build_parts(&envelope(), &message, DataCoding::Latin1, esm, 9).unwrap();
    assert_eq!(pdus.len(), 3);
    let mut rejoined = Vec::new();
    for pdu in &pdus {
        rejoined.extend_from_slice(&pdu.short_message[6..]);
    }
    assert_eq!(rejoined, message.as_bytes());
}

#[test]
fn build_is_deterministic_for_identical_inputs() {
    let message = "A".repeat(400);
    let esm = user_esm(GsmFeatures::NotSelected);
    let first = build_parts(&envelope(), &message, DataCoding::Ucs2, esm, 3).unwrap();
    let second = build_parts(&envelope(), &message, DataCoding::Ucs2, esm, 3).unwrap();
    assert_eq!(first.len(), second.len());
    for (a, b) in first.iter().zip(second.iter()) {
        assert_eq!(a.short_message, b.short_message);
        assert_eq!(a.data_coding, b.data_coding);
        assert_eq!(a.esm_class, b.esm_class);
    }
}

#[test]
fn unrepresentable_character_fails_the_whole_build() {
    let esm = user_esm(GsmFeatures::NotSelected);
    let err = build_parts(
        &envelope(),
        "price: 100\u{6f22}",
        DataCoding::Latin1,
        esm,
        0,
    )
    .unwrap_err();
    assert_eq!(err, MultiPartError::UnrepresentableCharacter);
}

fn assert_parts(pdus: &[OutboundPdu], expected: usize) {
    assert_eq!(pdus.len(), expected);
}

#[test]
fn submit_increments_reference_once_per_success() {
    let mut composer = composer_with("hello", DataCoding::Gsm7BitUnpacked);
    assert_eq!(composer.reference, 0);
    let pdus = composer.submit().unwrap();
    assert_parts(&pdus, 1);
    assert_eq!(composer.reference, 1);
    let pdus = composer.submit().unwrap();
    assert_parts(&pdus, 1);
    assert_eq!(composer.reference, 2);
}

#[test]
fn failed_submit_leaves_the_reference_alone() {
    let mut composer = composer_with("\u{6f22}", DataCoding::Latin1);
    let err = composer.submit().unwrap_err();
    assert_eq!(
        err,
        AppUiError::MultiPart(MultiPartError::UnrepresentableCharacter)
    );
    assert_eq!(composer.reference, 0);
}

#[test]
fn reference_wraps_from_255_to_0_without_error() {
    let mut composer = composer_with("hello", DataCoding::Gsm7BitUnpacked);
    composer.reference = 255;
    composer.submit().unwrap();
    assert_eq!(composer.reference, 0);
}

#[test]
fn multipart_submit_uses_the_current_reference() {
    let mut composer = composer_with(&"A".repeat(160), DataCoding::Gsm7BitUnpacked);
    composer.reference = 17;
    let pdus = composer.submit().unwrap();
    assert_eq!(pdus.len(), 2);
    assert_eq!(&pdus[0].short_message[0..6], &[5, 0, 3, 17, 2, 1]);
    assert_eq!(&pdus[1].short_message[0..6], &[5, 0, 3, 17, 2, 2]);
    assert_eq!(composer.reference, 18);
}

#[test]
fn growing_the_message_forces_udhi_and_shrinking_restores_the_choice() {
    let mut composer = composer_with("short", DataCoding::Gsm7BitUnpacked);
    assert_eq!(composer.esm_class.gsm_features, GsmFeatures::SetReplyPath);
    composer.set_short_message("A".repeat(200));
    assert_eq!(composer.esm_class.gsm_features, GsmFeatures::UdhiIndicator);
    assert_eq!(composer.last_gsm_features, GsmFeatures::SetReplyPath);
    composer.set_short_message(String::from("short again"));
    assert_eq!(composer.esm_class.gsm_features, GsmFeatures::SetReplyPath);
}

#[test]
fn switching_the_encoding_reruns_the_forcing_machine() {
    // 100 characters fit one GSM segment but need two UCS-2 segments.
    let mut composer = composer_with(&"A".repeat(100), DataCoding::Gsm7BitUnpacked);
    assert_eq!(composer.esm_class.gsm_features, GsmFeatures::SetReplyPath);
    composer.set_data_coding(DataCoding::Ucs2);
    assert_eq!(composer.esm_class.gsm_features, GsmFeatures::UdhiIndicator);
    composer.set_data_coding(DataCoding::Gsm7BitUnpacked);
    assert_eq!(composer.esm_class.gsm_features, GsmFeatures::SetReplyPath);
}

#[test]
fn explicit_feature_choice_is_remembered_across_forcing() {
    let mut composer = composer_with("short", DataCoding::Gsm7BitUnpacked);
    composer.set_gsm_features(GsmFeatures::NotSelected);
    assert_eq!(composer.esm_class.gsm_features, GsmFeatures::NotSelected);
    composer.set_short_message("A".repeat(200));
    assert_eq!(composer.esm_class.gsm_features, GsmFeatures::UdhiIndicator);
    composer.set_gsm_features(GsmFeatures::SetUdhiAndReplyPath);
    assert_eq!(composer.esm_class.gsm_features, GsmFeatures::UdhiIndicator);
    composer.set_short_message(String::from("x"));
    assert_eq!(
        composer.esm_class.gsm_features,
        GsmFeatures::SetUdhiAndReplyPath
    );
}

#[test]
fn envelope_setters_sanitize_their_input() {
    let mut composer = composer_with("hello", DataCoding::Gsm7BitUnpacked);
    composer.set_service_type("CMT\u{e9}");
    assert_eq!(composer.service_type, "CMT");
    composer.set_destination_addr("+49 171 \u{6f22}555");
    assert_eq!(composer.destination_addr, "+49 171 555");
    composer.set_protocol_id("1a2b");
    assert_eq!(composer.protocol_id, "12");
    composer.set_sm_default_msg_id("x");
    assert_eq!(composer.sm_default_msg_id, "");
    composer.set_priority_flag("3!");
    assert_eq!(composer.priority_flag, "3");
}

#[test]
fn counters_report_parts_characters_and_bytes() {
    let composer = composer_with("Hello Rusmppc!", DataCoding::Gsm7BitUnpacked);
    assert_eq!(composer.counters(), Some((1, 14, 14)));
    let composer = composer_with(&"A".repeat(160), DataCoding::Gsm7BitUnpacked);
    // Two parts of 134 and 26 units, plus six header bytes each.
    assert_eq!(composer.counters(), Some((2, 160, 172)));
    let composer = composer_with("\u{6f22}", DataCoding::Latin1);
    assert_eq!(composer.counters(), None);
}

#[test]
fn all_fields_valid_requires_every_field_and_a_payload() {
    let composer = composer_with("hello", DataCoding::Gsm7BitUnpacked);
    assert!(composer.all_fields_valid());

    let mut invalid = composer_with("hello", DataCoding::Gsm7BitUnpacked);
    invalid.protocol_id = String::from("256");
    assert!(!invalid.all_fields_valid());

    let empty = composer_with("", DataCoding::Gsm7BitUnpacked);
    assert!(!empty.all_fields_valid());

    let mut bad_priority = composer_with("hello", DataCoding::Gsm7BitUnpacked);
    bad_priority.priority_flag = String::from("nine");
    assert!(!bad_priority.all_fields_valid());
}

#[test]
fn envelope_validation_reports_the_first_bad_field() {
    let err = PduFields::new(
        "too long service type",
        Ton::Unknown,
        Npi::Unknown,
        "src",
        Ton::Unknown,
        Npi::Unknown,
        "dst",
        "0",
        "0",
    )
    .unwrap_err();
    assert_eq!(err, AppUiError::Field(SmppFieldError::ServiceType));

    let err = PduFields::new(
        "CMT",
        Ton::Unknown,
        Npi::Unknown,
        "123456789012345678901",
        Ton::Unknown,
        Npi::Unknown,
        "dst",
        "0",
        "0",
    )
    .unwrap_err();
    assert_eq!(err, AppUiError::Field(SmppFieldError::SourceAddr));

    let err = PduFields::new(
        "CMT",
        Ton::Unknown,
        Npi::Unknown,
        "src",
        Ton::Unknown,
        Npi::Unknown,
        "dst",
        "299",
        "0",
    )
    .unwrap_err();
    assert_eq!(err, AppUiError::Field(SmppFieldError::ProtocolId));
}

#[test]
fn snapshot_round_trip_keeps_the_form_state() {
    let composer = composer_with(&"A".repeat(160), DataCoding::Ucs2);
    let saved = composer.to_serde();
    let restored = Composer::from_serde(saved);
    assert_eq!(restored.short_message, composer.short_message);
    assert_eq!(restored.service_type, composer.service_type);
    assert_eq!(restored.data_coding, composer.data_coding);
    assert_eq!(restored.last_gsm_features, composer.last_gsm_features);
    assert_eq!(restored.esm_class, composer.esm_class);
    assert_eq!(restored.reference, 0);
    assert!(!restored.bound);
}

#[test]
fn default_composer_matches_the_original_form() {
    let composer = Composer::new_default();
    assert_eq!(composer.short_message, "Hello Rusmppc!");
    assert_eq!(composer.data_coding, DataCoding::Gsm7BitUnpacked);
    assert_eq!(composer.protocol_id, "0");
    assert_eq!(composer.reference, 0);
    assert!(!composer.bound);
}
