//! The per-scheme segmentation strategy behind the compose form.

use vstd::prelude::*;

use crate::encoding::{encodable, encoded, groups_of};
use crate::result::MultiPartError;
use crate::segment::{
    groups_fit, lemma_groups_of_sizes, lemma_segments_at_least_two, segments, split_message,
};
use crate::values::DataCoding;

verus! {

/// The most parts a concatenated message may have: the total-count octet of
/// the user data header is a single byte.
pub const MAX_PARTS: usize = 255;

/// An encoded message, either whole or split into concatenated parts.
#[derive(Debug)]
pub enum Concatenation {
    /// The whole message fits one segment.
    Single(Vec<u8>),
    /// The message split into parts, in order.
    Multi(Vec<Vec<u8>>),
}

/// The payload capacity of one part once the header reservation is taken
/// off the segment size.
pub open spec fn part_capacity(max: nat, header: nat) -> nat {
    if header >= max {
        0
    } else {
        (max - header) as nat
    }
}

/// A segmentation strategy, one per character encoding scheme.
#[derive(Debug, Clone, Copy, PartialEq, Eq, Structural)]
pub enum Encoder {
    Gsm7BitUnpacked,
    Latin1,
    Ucs2,
}

impl Encoder {
    /// The encoding scheme this strategy encodes with.
    pub open spec fn spec_data_coding(self) -> DataCoding {
        match self {
            Encoder::Gsm7BitUnpacked => DataCoding::Gsm7BitUnpacked,
            Encoder::Latin1 => DataCoding::Latin1,
            Encoder::Ucs2 => DataCoding::Ucs2,
        }
    }

    /// The encoding scheme this strategy encodes with.
    pub fn data_coding(&self) -> (r: DataCoding)
        ensures
            r == self.spec_data_coding(),
    {
        match self {
            Encoder::Gsm7BitUnpacked => DataCoding::Gsm7BitUnpacked,
            Encoder::Latin1 => DataCoding::Latin1,
            Encoder::Ucs2 => DataCoding::Ucs2,
        }
    }

    /// Encodes the message and, when it does not fit one segment of
    /// `max_message_size` bytes, splits it greedily into parts of at most
    /// `max_message_size - part_header_size` bytes each.
    ///
    /// A message is rejected exactly when a character has no mapping in the
    /// scheme, when a character's unit group cannot fit any part at all, or
    /// when more parts would be needed than a concatenation header can
    /// number.
    pub fn concatenate(
        &self,
        message: &str,
        max_message_size: usize,
        part_header_size: usize,
    ) -> (r: Result<(Concatenation, DataCoding), MultiPartError>)
        ensures
            ({
                let e = self.spec_data_coding();
                let cap = part_capacity(max_message_size as nat, part_header_size as nat);
                let segs = segments(groups_of(e, message@), cap);
                match r {
                    Ok(p) => {
                        &&& p.1 == e
                        &&& encodable(e, message@)
                        &&& match p.0 {
                            Concatenation::Single(v) => v@ == encoded(e, message@) && v@.len()
                                <= max_message_size,
                            Concatenation::Multi(parts) => {
                                &&& encoded(e, message@).len() > max_message_size
                                &&& groups_fit(groups_of(e, message@), cap)
                                &&& parts@.len() == segs.len()
                                &&& 2 <= parts@.len() <= MAX_PARTS
                                &&& forall|k: int|
                                    0 <= k < parts@.len() ==> (#[trigger] parts@[k])@ == segs[k]
                            },
                        }
                    },
                    Err(err) => match err {
                        MultiPartError::UnrepresentableCharacter => !encodable(e, message@),
                        MultiPartError::CapacityExhausted => {
                            &&& encodable(e, message@)
                            &&& encoded(e, message@).len() > max_message_size
                            &&& !groups_fit(groups_of(e, message@), cap)
                        },
                        MultiPartError::TooManyParts => {
                            &&& encodable(e, message@)
                            &&& encoded(e, message@).len() > max_message_size
                            &&& groups_fit(groups_of(e, message@), cap)
                            &&& segs.len() > MAX_PARTS
                        },
                    },
                }
            }),
    {
        let e = self.data_coding();
        let encoded_bytes = match crate::encoding::encode_message(e, message) {
            Ok(v) => v,
            Err(err) => {
                return Err(err);
            },
        };
        if encoded_bytes.len() <= max_message_size {
            return Ok((Concatenation::Single(encoded_bytes), e));
        }
        proof {
            if message@.len() == 0 {
                assert(groups_of(e, message@) =~= Seq::<Seq<u8>>::empty());
                assert(encoded(e, message@) =~= Seq::<u8>::empty());
            }
        }
        let cap = if part_header_size >= max_message_size {
            0
        } else {
            max_message_size - part_header_size
        };
        let parts = match split_message(e, message, cap) {
            Ok(parts) => parts,
            Err(err) => {
                return Err(err);
            },
        };
        proof {
            lemma_groups_of_sizes(e, message@);
            lemma_segments_at_least_two(groups_of(e, message@), cap as nat);
        }
        if parts.len() > MAX_PARTS {
            return Err(MultiPartError::TooManyParts);
        }
        Ok((Concatenation::Multi(parts), e))
    }
}

} // verus!
