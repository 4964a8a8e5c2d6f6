//! Guarantees that span several functions, stated and proved once.

use vstd::prelude::*;

use crate::composer::{MAX_SHORT_MESSAGE_SIZE, OutboundPdu, UDH_LENGTH, parts_payload_ok};
use crate::encoder::part_capacity;
use crate::encoding::{encodable, encoded, groups_of};
use crate::segment::{
    groups_fit, lemma_flatten_length_ge_mul, lemma_groups_of_sizes, lemma_seg_state_full,
    lemma_segments_at_least_two, lemma_segments_flatten, seg_state, segments,
};
use crate::values::{DataCoding, EsmClass};

verus! {

/// Building the same message twice with the same encoding, esm_class and
/// reference number yields byte-identical parts: no hidden state influences
/// segmentation.
pub proof fn law_build_deterministic(
    pdus1: Seq<OutboundPdu>,
    pdus2: Seq<OutboundPdu>,
    message: Seq<char>,
    encoding: DataCoding,
    esm_class: EsmClass,
    reference: u8,
)
    requires
        parts_payload_ok(pdus1, message, encoding, esm_class, reference),
        parts_payload_ok(pdus2, message, encoding, esm_class, reference),
    ensures
        pdus1.len() == pdus2.len(),
        forall|k: int|
            0 <= k < pdus1.len() ==> (#[trigger] pdus1[k]).short_message@
                == pdus2[k].short_message@,
        forall|k: int| 0 <= k < pdus1.len() ==> (#[trigger] pdus1[k]).esm_class == pdus2[k].esm_class,
        forall|k: int|
            0 <= k < pdus1.len() ==> (#[trigger] pdus1[k]).data_coding == pdus2[k].data_coding,
{
}

/// Concatenating the payload bytes of all parts of a multipart build, in
/// order and with each part's header stripped, reproduces the exact
/// encoding of the message: no bytes dropped, duplicated or reordered.
pub proof fn law_multipart_round_trip(
    pdus: Seq<OutboundPdu>,
    message: Seq<char>,
    encoding: DataCoding,
    esm_class: EsmClass,
    reference: u8,
)
    requires
        parts_payload_ok(pdus, message, encoding, esm_class, reference),
        encoded(encoding, message).len() > MAX_SHORT_MESSAGE_SIZE,
    ensures
        Seq::new(pdus.len(), |k: int| pdus[k].short_message@.skip(UDH_LENGTH as int)).flatten()
            == encoded(encoding, message),
{
    let cap = part_capacity(MAX_SHORT_MESSAGE_SIZE as nat, UDH_LENGTH as nat);
    let segs = segments(groups_of(encoding, message), cap);
    let stripped = Seq::new(
        pdus.len(),
        |k: int| pdus[k].short_message@.skip(UDH_LENGTH as int),
    );
    assert(stripped =~~= segs);
    lemma_segments_flatten(groups_of(encoding, message), cap);
}

/// A message whose encoding is exactly the segment ceiling builds into a
/// single part.
pub proof fn law_exact_fit_single(
    pdus: Seq<OutboundPdu>,
    message: Seq<char>,
    encoding: DataCoding,
    esm_class: EsmClass,
    reference: u8,
)
    requires
        parts_payload_ok(pdus, message, encoding, esm_class, reference),
        encoded(encoding, message).len() == MAX_SHORT_MESSAGE_SIZE,
    ensures
        pdus.len() == 1,
        pdus[0].short_message@ == encoded(encoding, message),
        pdus[0].esm_class == esm_class,
{
}

/// A message whose encoding is one byte over the segment ceiling splits
/// into exactly two parts, both respecting the header reservation. This
/// holds for any ceiling that leaves the headers and two maximal unit
/// groups of room, the conventional 140/6 pair included.
pub proof fn law_one_over_splits_in_two(
    message: Seq<char>,
    encoding: DataCoding,
    max: nat,
    header: nat,
)
    requires
        encodable(encoding, message),
        encoded(encoding, message).len() == max + 1,
        max >= 2 * header + 8,
    ensures
        ({
            let cap = part_capacity(max, header);
            let segs = segments(groups_of(encoding, message), cap);
            segs.len() == 2 && segs[0].len() <= cap && segs[1].len() <= cap
        }),
{
    let cap = part_capacity(max, header);
    let groups = groups_of(encoding, message);
    let segs = segments(groups, cap);
    lemma_groups_of_sizes(encoding, message);
    assert(groups_fit(groups, cap));
    assert(groups.flatten() == encoded(encoding, message));
    lemma_segments_at_least_two(groups, cap);
    crate::segment::lemma_segments_sizes(groups, cap);
    lemma_segments_flatten(groups, cap);
    let st = seg_state(groups, cap);
    if segs.len() > 2 {
        lemma_seg_state_full(groups, cap, 4);
        assert(forall|i: int| 0 <= i < st.0.len() ==> (#[trigger] st.0[i]).len() >= cap - 3);
        lemma_flatten_length_ge_mul(st.0, (cap - 3) as nat);
        st.0.lemma_flatten_push(st.1);
        assert(segs.flatten().len() >= st.0.len() * (cap - 3));
        assert(st.0.len() >= 2);
        assert(st.0.len() * (cap - 3) >= 2 * (cap - 3)) by (nonlinear_arith)
            requires
                st.0.len() >= 2,
                cap - 3 >= 0,
        ;
        assert(false);
    }
}

/// The boundary pair at the conventional sizes: one byte over a 140-byte
/// ceiling with the 6-byte concatenation header splits in exactly two.
pub proof fn law_one_over_standard_ceiling(message: Seq<char>, encoding: DataCoding)
    requires
        encodable(encoding, message),
        encoded(encoding, message).len() == MAX_SHORT_MESSAGE_SIZE + 1,
    ensures
        segments(
            groups_of(encoding, message),
            part_capacity(MAX_SHORT_MESSAGE_SIZE as nat, UDH_LENGTH as nat),
        ).len() == 2,
{
    law_one_over_splits_in_two(
        message,
        encoding,
        MAX_SHORT_MESSAGE_SIZE as nat,
        UDH_LENGTH as nat,
    );
}

} // verus!
