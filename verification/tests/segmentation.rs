//! Segmentation behaviour of the three encoders, at the `Encoder` level.

use smpp_multipart::encoder::{Concatenation, Encoder};
use smpp_multipart::values::DataCoding;
use smpp_multipart::result::MultiPartError;

fn concat(encoder: Encoder, message: &str) -> Result<Concatenation, MultiPartError> {
    encoder.concatenate(message, 140, 6).map(|(c, _)| c)
}

fn parts_of(encoder: Encoder, message: &str) -> Vec<Vec<u8>> {
    match concat(encoder, message) {
        Ok(Concatenation::Multi(parts)) => parts,
        other => panic!("expected a multipart result, got {:?}", other),
    }
}

fn single_of(encoder: Encoder, message: &str) -> Vec<u8> {
    match concat(encoder, message) {
        Ok(Concatenation::Single(bytes)) => bytes,
        other => panic!("expected a single-part result, got {:?}", other),
    }
}

#[test]
fn empty_message_is_a_single_empty_segment() {
    assert_eq!(single_of(Encoder::Gsm7BitUnpacked, ""), Vec::<u8>::new());
    assert_eq!(single_of(Encoder::Latin1, ""), Vec::<u8>::new());
    assert_eq!(single_of(Encoder::Ucs2, ""), Vec::<u8>::new());
}

#[test]
fn gsm7_standard_and_extension_codes() {
    assert_eq!(
        single_of(Encoder::Gsm7BitUnpacked, "Hi@"),
        vec![0x48, 0x69, 0x00]
    );
    // The euro sign needs the escape code 0x1B before its extension code.
    assert_eq!(
        single_of(Encoder::Gsm7BitUnpacked, "a\u{20ac}b"),
        vec![0x61, 0x1B, 0x65, 0x62]
    );
    assert_eq!(
        single_of(Encoder::Gsm7BitUnpacked, "[]"),
        vec![0x1B, 0x3C, 0x1B, 0x3E]
    );
}

#[test]
fn latin1_is_one_byte_per_character() {
    assert_eq!(single_of(Encoder::Latin1, "A\u{e9}"), vec![0x41, 0xE9]);
    assert_eq!(single_of(Encoder::Latin1, "\u{ff}"), vec![0xFF]);
}

#[test]
fn ucs2_is_big_endian_units_with_surrogate_pairs() {
    assert_eq!(
        single_of(Encoder::Ucs2, "A\u{20ac}"),
        vec![0x00, 0x41, 0x20, 0xAC]
    );
    // U+1F600 is outside the basic plane: a surrogate pair D83D DE00.
    assert_eq!(
        single_of(Encoder::Ucs2, "\u{1f600}"),
        vec![0xD8, 0x3D, 0xDE, 0x00]
    );
}

#[test]
fn gsm7_unrepresentable_character_is_rejected() {
    assert_eq!(
        concat(Encoder::Gsm7BitUnpacked, "\u{6f22}").unwrap_err(),
        MultiPartError::UnrepresentableCharacter
    );
}

#[test]
fn latin1_unrepresentable_character_is_rejected() {
    // A CJK character has no Latin-1 byte.
    assert_eq!(
        concat(Encoder::Latin1, "abc\u{6f22}def").unwrap_err(),
        MultiPartError::UnrepresentableCharacter
    );
}

#[test]
fn exact_ceiling_is_still_a_single_segment() {
    let message = "a".repeat(140);
    assert_eq!(single_of(Encoder::Gsm7BitUnpacked, &message).len(), 140);
}

#[test]
fn one_byte_over_the_ceiling_splits_in_two() {
    let message = "a".repeat(141);
    let parts = parts_of(Encoder::Gsm7BitUnpacked, &message);
    assert_eq!(parts.len(), 2);
    assert_eq!(parts[0].len(), 134);
    assert_eq!(parts[1].len(), 7);
}

#[test]
fn ucs2_boundary_at_seventy_characters() {
    // 70 basic-plane characters are exactly 140 bytes; the 71st forces a
    // split into two parts of 67 and 4 characters.
    assert_eq!(single_of(Encoder::Ucs2, &"x".repeat(70)).len(), 140);
    let parts = parts_of(Encoder::Ucs2, &"x".repeat(71));
    assert_eq!(parts.len(), 2);
    assert_eq!(parts[0].len(), 134);
    assert_eq!(parts[1].len(), 8);
}

#[test]
fn segments_concatenate_back_to_the_encoding() {
    let message = "a".repeat(300);
    let parts = parts_of(Encoder::Latin1, &message);
    let rejoined: Vec<u8> = parts.concat();
    assert_eq!(rejoined, message.as_bytes());
    for part in &parts {
        assert!(part.len() <= 134);
        assert!(!part.is_empty());
    }
}

#[test]
fn gsm7_escape_pair_is_never_split_across_segments() {
    // 133 plain characters, then the euro sign: its escape byte would be the
    // 134th byte of the first segment, so the whole pair moves to the next.
    let message = format!("{}\u{20ac}{}", "a".repeat(133), "b".repeat(10));
    let parts = parts_of(Encoder::Gsm7BitUnpacked, &message);
    assert_eq!(parts.len(), 2);
    assert_eq!(parts[0].len(), 133);
    assert_eq!(parts[1].len(), 12);
    assert_eq!(&parts[1][0..2], &[0x1B, 0x65]);
}

#[test]
fn ucs2_surrogate_pair_moves_whole_to_the_next_segment() {
    // 66 basic-plane characters fill 132 of the 134 payload bytes; the
    // surrogate-pair character needs 4 bytes and must not be cut.
    let message = format!("{}\u{1f600}{}", "a".repeat(66), "b".repeat(10));
    let parts = parts_of(Encoder::Ucs2, &message);
    assert_eq!(parts.len(), 2);
    assert_eq!(parts[0].len(), 132);
    assert_eq!(parts[1].len(), 24);
    assert_eq!(&parts[1][0..4], &[0xD8, 0x3D, 0xDE, 0x00]);
}

#[test]
fn zero_capacity_is_capacity_exhausted() {
    let message = "a".repeat(20);
    let err = Encoder::Latin1.concatenate(&message, 10, 10).unwrap_err();
    assert_eq!(err, MultiPartError::CapacityExhausted);
}

#[test]
fn escape_pair_that_fits_no_segment_is_capacity_exhausted() {
    // Capacity of one byte per part can never hold an escape pair.
    let err = Encoder::Gsm7BitUnpacked
        .concatenate("aaaaaaaa\u{20ac}", 7, 6)
        .unwrap_err();
    assert_eq!(err, MultiPartError::CapacityExhausted);
}

#[test]
fn more_than_255_parts_is_rejected() {
    // 255 parts of 134 bytes hold 34170; one byte more needs a 256th part.
    let message = "a".repeat(34171);
    assert_eq!(
        concat(Encoder::Latin1, &message).unwrap_err(),
        MultiPartError::TooManyParts
    );
    let largest = "a".repeat(34170);
    assert_eq!(parts_of(Encoder::Latin1, &largest).len(), 255);
}

#[test]
fn data_coding_follows_the_encoder() {
    let (_, dc) = Encoder::Gsm7BitUnpacked.concatenate("x", 140, 6).unwrap();
    assert_eq!(dc, DataCoding::Gsm7BitUnpacked);
    let (_, dc) = Encoder::Latin1.concatenate("x", 140, 6).unwrap();
    assert_eq!(dc, DataCoding::Latin1);
    let (_, dc) = Encoder::Ucs2.concatenate("x", 140, 6).unwrap();
    assert_eq!(dc, DataCoding::Ucs2);
}
