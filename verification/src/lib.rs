//! Multipart short-message segmentation and composition for SMPP submit_sm
//! traffic.
//!
//! The heart of the crate is the segmenter: given a message, a character
//! encoding (GSM 7-bit unpacked, Latin-1 or UCS-2) and a per-part header
//! budget, it encodes the text and splits it into one or more fixed-capacity
//! byte segments without ever cutting a character's encoded unit group in
//! half. The composer wraps the segments into outbound PDU descriptions with
//! concatenation headers, reference numbering and UDHI flag handling.

pub mod composer;
pub mod encoder;
pub mod encoding;
pub mod fields;
pub mod laws;
pub mod result;
pub mod segment;
pub mod snapshot;
pub mod urls;
pub mod values;
pub mod widgets;
