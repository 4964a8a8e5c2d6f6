//! The library's segmentation agrees byte for byte with the SMPP crate's
//! own encoders, which the host application hands the segments to.

use rusmpp::extra::concatenation::{Concatenation as LibConcatenation, Concatenator};
use rusmpp::extra::encoding::gsm7bit::Gsm7BitUnpacked;
use rusmpp::extra::encoding::latin1::Latin1;
use rusmpp::extra::encoding::ucs2::Ucs2;

use smpp_multipart::encoder::{Concatenation, Encoder};

fn ours(encoder: Encoder, message: &str) -> Vec<Vec<u8>> {
    match encoder.concatenate(message, 140, 6).unwrap().0 {
        Concatenation::Single(bytes) => vec![bytes],
        Concatenation::Multi(parts) => parts,
    }
}

fn flatten_theirs(c: LibConcatenation) -> Vec<Vec<u8>> {
    match c {
        LibConcatenation::Single(bytes) => vec![bytes],
        LibConcatenation::Concatenated(parts) => parts,
        _ => panic!("unexpected concatenation shape"),
    }
}

#[test]
fn gsm7_matches_the_smpp_crate() {
    for message in [
        "Hello Rusmppc!",
        "a{b}c[d]e\u{20ac}",
        &"A".repeat(140),
        &"A".repeat(141),
        &"A".repeat(160),
        &format!("{}\u{20ac}{}", "a".repeat(133), "b".repeat(10)),
        &"\u{20ac}".repeat(150),
    ] {
        let (theirs, _) = Gsm7BitUnpacked::default()
            .concatenate(message, 140, 6)
            .unwrap();
        assert_eq!(
            ours(Encoder::Gsm7BitUnpacked, message),
            flatten_theirs(theirs),
            "message {:?}",
            message
        );
    }
}

#[test]
fn latin1_matches_the_smpp_crate() {
    for message in ["caf\u{e9}", &"\u{fc}".repeat(300)] {
        let (theirs, _) = Latin1::default().concatenate(message, 140, 6).unwrap();
        assert_eq!(
            ours(Encoder::Latin1, message),
            flatten_theirs(theirs),
            "message {:?}",
            message
        );
    }
}

#[test]
fn ucs2_matches_the_smpp_crate_on_the_basic_plane() {
    for message in [
        "hello",
        &"x".repeat(70),
        &"x".repeat(71),
        &"\u{4e16}\u{754c}".repeat(60),
    ] {
        let (theirs, _) = Ucs2::default().concatenate(message, 140, 6).unwrap();
        assert_eq!(
            ours(Encoder::Ucs2, message),
            flatten_theirs(theirs),
            "message {:?}",
            message
        );
    }
}
