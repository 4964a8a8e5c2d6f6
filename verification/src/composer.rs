//! Turning one logical message into ready-to-send submit_sm descriptions.

use vstd::prelude::*;

use crate::encoder::{Concatenation, Encoder, MAX_PARTS, part_capacity};
use crate::encoding::{encodable, encoded, groups_of};
use crate::fields::{
    all_digits, c_octet_ok, digits_value, parse_protocol_id, parse_sm_default_msg_id,
    validate_destination_addr, validate_service_type, validate_source_addr,
};
use crate::result::{AppUiError, MultiPartError, SmppFieldError};
use crate::segment::{groups_fit, segments};
use crate::snapshot::SerdeSubmitSmApp;
use crate::values::{DataCoding, EsmClass, GsmFeatures, Npi, Ton};

verus! {

/// Protocol ceiling for one short-message body, in bytes.
pub const MAX_SHORT_MESSAGE_SIZE: usize = 140;

/// Bytes each part of a concatenated message reserves up front for the
/// user data header carrying an 8-bit reference number.
pub const UDH_LENGTH: usize = 6;

/// The user data header of one part: header length 5, information element
/// id 0 (8-bit reference), element length 3, then reference, total count
/// and this part's 1-based number.
pub open spec fn udh_bytes(reference: u8, total: u8, index: u8) -> Seq<u8> {
    seq![5u8, 0u8, 3u8, reference, total, index]
}

/// The validated envelope of a submit_sm, shared by all its parts.
#[derive(Debug)]
pub struct PduFields {
    pub service_type: String,
    pub source_addr_ton: Ton,
    pub source_addr_npi: Npi,
    pub source_addr: String,
    pub dest_addr_ton: Ton,
    pub dest_addr_npi: Npi,
    pub destination_addr: String,
    pub protocol_id: u8,
    pub sm_default_msg_id: u8,
}

/// The first envelope field, in form order, that does not validate.
pub open spec fn spec_field_error(
    service_type: Seq<char>,
    source_addr: Seq<char>,
    destination_addr: Seq<char>,
    protocol_id: Seq<char>,
    sm_default_msg_id: Seq<char>,
) -> Option<AppUiError> {
    if !c_octet_ok(service_type, 5) {
        Some(AppUiError::Field(SmppFieldError::ServiceType))
    } else if !c_octet_ok(source_addr, 20) {
        Some(AppUiError::Field(SmppFieldError::SourceAddr))
    } else if !c_octet_ok(destination_addr, 20) {
        Some(AppUiError::Field(SmppFieldError::DestinationAddr))
    } else if !(all_digits(protocol_id) && digits_value(protocol_id) <= 255) {
        Some(AppUiError::Field(SmppFieldError::ProtocolId))
    } else if !(all_digits(sm_default_msg_id) && digits_value(sm_default_msg_id) <= 255) {
        Some(AppUiError::Field(SmppFieldError::SmDefaultMsgId))
    } else {
        None
    }
}

impl PduFields {
    /// The envelope's strings are within their C-octet string caps.
    pub open spec fn wf(self) -> bool {
        c_octet_ok(self.service_type@, 5) && c_octet_ok(self.source_addr@, 20) && c_octet_ok(
            self.destination_addr@,
            20,
        )
    }

    /// Validates the text fields of the compose form into an envelope,
    /// reporting the first field (in form order) that does not parse.
    pub fn new(
        service_type: &str,
        source_addr_ton: Ton,
        source_addr_npi: Npi,
        source_addr: &str,
        dest_addr_ton: Ton,
        dest_addr_npi: Npi,
        destination_addr: &str,
        protocol_id: &str,
        sm_default_msg_id: &str,
    ) -> (r: Result<Self, AppUiError>)
        ensures
            r is Ok <==> spec_field_error(
                service_type@,
                source_addr@,
                destination_addr@,
                protocol_id@,
                sm_default_msg_id@,
            ) is None,
            r matches Err(e) ==> Some(e) == spec_field_error(
                service_type@,
                source_addr@,
                destination_addr@,
                protocol_id@,
                sm_default_msg_id@,
            ),
            r matches Ok(f) ==> {
                &&& f.wf()
                &&& f.service_type@ == service_type@
                &&& f.source_addr_ton == source_addr_ton
                &&& f.source_addr_npi == source_addr_npi
                &&& f.source_addr@ == source_addr@
                &&& f.dest_addr_ton == dest_addr_ton
                &&& f.dest_addr_npi == dest_addr_npi
                &&& f.destination_addr@ == destination_addr@
                &&& f.protocol_id as int == digits_value(protocol_id@)
                &&& f.sm_default_msg_id as int == digits_value(sm_default_msg_id@)
            },
    {
        match validate_service_type(service_type) {
            Err(e) => {
                return Err(e);
            },
            Ok(_) => {},
        }
        match validate_source_addr(source_addr) {
            Err(e) => {
                return Err(e);
            },
            Ok(_) => {},
        }
        match validate_destination_addr(destination_addr) {
            Err(e) => {
                return Err(e);
            },
            Ok(_) => {},
        }
        let protocol_id = match parse_protocol_id(protocol_id) {
            Err(e) => {
                return Err(e);
            },
            Ok(v) => v,
        };
        let sm_default_msg_id = match parse_sm_default_msg_id(sm_default_msg_id) {
            Err(e) => {
                return Err(e);
            },
            Ok(v) => v,
        };
        Ok(
            PduFields {
                service_type: String::from_str(service_type),
                source_addr_ton,
                source_addr_npi,
                source_addr: String::from_str(source_addr),
                dest_addr_ton,
                dest_addr_npi,
                destination_addr: String::from_str(destination_addr),
                protocol_id,
                sm_default_msg_id,
            },
        )
    }

    /// An identical copy of the envelope, so that each part of a multipart
    /// message can carry its own.
    pub fn duplicate(&self) -> (r: Self)
        ensures
            r == *self,
    {
        PduFields {
            service_type: self.service_type.clone(),
            source_addr_ton: self.source_addr_ton,
            source_addr_npi: self.source_addr_npi,
            source_addr: self.source_addr.clone(),
            dest_addr_ton: self.dest_addr_ton,
            dest_addr_npi: self.dest_addr_npi,
            destination_addr: self.destination_addr.clone(),
            protocol_id: self.protocol_id,
            sm_default_msg_id: self.sm_default_msg_id,
        }
    }
}

/// One ready-to-send submit_sm: the shared envelope plus this part's
/// payload, wire coding and esm_class.
#[derive(Debug)]
pub struct OutboundPdu {
    pub fields: PduFields,
    pub esm_class: EsmClass,
    pub data_coding: DataCoding,
    pub short_message: Vec<u8>,
}

/// A byte-for-byte copy of a segment's payload.
fn copy_bytes(src: &Vec<u8>) -> (r: Vec<u8>)
    ensures
        r@ == src@,
{
    let mut out: Vec<u8> = Vec::new();
    let mut i: usize = 0;
    while i < src.len()
        invariant
            i <= src@.len(),
            out@ == src@.take(i as int),
        decreases src@.len() - i,
    {
        out.push(src[i]);
        proof {
            assert(out@ =~= src@.take(i as int + 1));
        }
        i = i + 1;
    }
    proof {
        assert(src@.take(src@.len() as int) =~= src@);
    }
    out
}

/// The payload shape `build_parts` guarantees on success: one PDU carrying
/// the whole encoding when it fits a single segment, else one PDU per
/// segment, each with its concatenation header, the total count, its
/// 1-based part number, and the UDHI indicator forced on.
pub open spec fn parts_payload_ok(
    pdus: Seq<OutboundPdu>,
    message: Seq<char>,
    encoding: DataCoding,
    esm_class: EsmClass,
    reference: u8,
) -> bool {
    let enc = encoded(encoding, message);
    let cap = part_capacity(MAX_SHORT_MESSAGE_SIZE as nat, UDH_LENGTH as nat);
    let segs = segments(groups_of(encoding, message), cap);
    &&& encodable(encoding, message)
    &&& if enc.len() <= MAX_SHORT_MESSAGE_SIZE {
        &&& pdus.len() == 1
        &&& pdus[0].short_message@ == enc
        &&& pdus[0].esm_class == esm_class
        &&& pdus[0].data_coding == encoding
    } else {
        &&& 2 <= segs.len() <= MAX_PARTS
        &&& pdus.len() == segs.len()
        &&& forall|k: int|
            0 <= k < pdus.len() ==> (#[trigger] pdus[k]).short_message@ == udh_bytes(
                reference,
                segs.len() as u8,
                (k + 1) as u8,
            ) + segs[k]
        &&& forall|k: int|
            0 <= k < pdus.len() ==> (#[trigger] pdus[k]).esm_class
                == esm_class.spec_with_udhi_indicator()
        &&& forall|k: int| 0 <= k < pdus.len() ==> (#[trigger] pdus[k]).data_coding == encoding
    }
}

/// What `build_parts` returns on success: the payload shape above, with
/// every part carrying the shared envelope.
pub open spec fn build_parts_ok(
    pdus: Seq<OutboundPdu>,
    base: PduFields,
    message: Seq<char>,
    encoding: DataCoding,
    esm_class: EsmClass,
    reference: u8,
) -> bool {
    &&& parts_payload_ok(pdus, message, encoding, esm_class, reference)
    &&& forall|k: int| 0 <= k < pdus.len() ==> (#[trigger] pdus[k]).fields == base
}

/// Why `build_parts` fails for the given inputs, if it must.
pub open spec fn spec_build_error(message: Seq<char>, encoding: DataCoding) -> Option<
    MultiPartError,
> {
    let enc = encoded(encoding, message);
    let cap = part_capacity(MAX_SHORT_MESSAGE_SIZE as nat, UDH_LENGTH as nat);
    let segs = segments(groups_of(encoding, message), cap);
    if !encodable(encoding, message) {
        Some(MultiPartError::UnrepresentableCharacter)
    } else if enc.len() <= MAX_SHORT_MESSAGE_SIZE {
        None
    } else if !groups_fit(groups_of(encoding, message), cap) {
        Some(MultiPartError::CapacityExhausted)
    } else if segs.len() > MAX_PARTS {
        Some(MultiPartError::TooManyParts)
    } else {
        None
    }
}

/// Builds the submit_sm parts of one logical message.
///
/// A message whose encoding fits `MAX_SHORT_MESSAGE_SIZE` bytes yields one
/// PDU with no concatenation header and the caller's esm_class untouched.
/// A longer message yields one PDU per greedily filled segment, each
/// reserving `UDH_LENGTH` bytes for its concatenation header, all sharing
/// `reference` and the total count, numbered 1 upward in order, with the
/// UDHI indicator forced on. On failure no parts are returned at all.
pub fn build_parts(
    base: &PduFields,
    message: &str,
    encoding: DataCoding,
    esm_class: EsmClass,
    reference: u8,
) -> (r: Result<Vec<OutboundPdu>, MultiPartError>)
    ensures
        match r {
            Ok(pdus) => spec_build_error(message@, encoding) is None && build_parts_ok(
                pdus@,
                *base,
                message@,
                encoding,
                esm_class,
                reference,
            ),
            Err(err) => Some(err) == spec_build_error(message@, encoding),
        },
{
    let encoder = match encoding {
        DataCoding::Gsm7BitUnpacked => Encoder::Gsm7BitUnpacked,
        DataCoding::Latin1 => Encoder::Latin1,
        DataCoding::Ucs2 => Encoder::Ucs2,
    };
    match encoder.concatenate(message, MAX_SHORT_MESSAGE_SIZE, UDH_LENGTH) {
        Err(err) => Err(err),
        Ok((Concatenation::Single(bytes), dc)) => {
            let pdu = OutboundPdu {
                fields: base.duplicate(),
                esm_class,
                data_coding: dc,
                short_message: bytes,
            };
            Ok(vec![pdu])
        },
        Ok((Concatenation::Multi(parts), dc)) => {
            let ghost segs = segments(
                groups_of(encoding, message@),
                part_capacity(MAX_SHORT_MESSAGE_SIZE as nat, UDH_LENGTH as nat),
            );
            let total = parts.len() as u8;
            let mut pdus: Vec<OutboundPdu> = Vec::new();
            let mut i: usize = 0;
            while i < parts.len()
                invariant
                    parts@.len() == segs.len(),
                    2 <= parts@.len() <= MAX_PARTS,
                    forall|k: int| 0 <= k < parts@.len() ==> (#[trigger] parts@[k])@ == segs[k],
                    total == parts@.len() as u8,
                    i <= parts@.len(),
                    pdus@.len() == i,
                    forall|k: int|
                        0 <= k < i ==> (#[trigger] pdus@[k]).short_message@ == udh_bytes(
                            reference,
                            segs.len() as u8,
                            (k + 1) as u8,
                        ) + segs[k],
                    forall|k: int|
                        0 <= k < i ==> (#[trigger] pdus@[k]).esm_class
                            == esm_class.spec_with_udhi_indicator(),
                    forall|k: int| 0 <= k < i ==> (#[trigger] pdus@[k]).data_coding == encoding,
                    forall|k: int| 0 <= k < i ==> (#[trigger] pdus@[k]).fields == *base,
                    dc == encoding,
                decreases parts@.len() - i,
            {
                let mut sm: Vec<u8> = Vec::new();
                sm.push(5);
                sm.push(0);
                sm.push(3);
                sm.push(reference);
                sm.push(total);
                sm.push((i + 1) as u8);
                let mut payload = copy_bytes(&parts[i]);
                proof {
                    assert(sm@ =~= udh_bytes(reference, segs.len() as u8, (i + 1) as u8));
                }
                sm.append(&mut payload);
                let pdu = OutboundPdu {
                    fields: base.duplicate(),
                    esm_class: esm_class.with_udhi_indicator(),
                    data_coding: dc,
                    short_message: sm,
                };
                pdus.push(pdu);
                i = i + 1;
            }
            Ok(pdus)
        },
    }
}

/// The compose form's state: the message and envelope text as typed, the
/// chosen encoding, the esm_class with its save/restore GSM-features
/// machinery, and the wrapping reference counter.
///
/// The GSM features field lives in two places: `esm_class.gsm_features` is
/// the *effective* value, forced to the UDHI indicator while the current
/// message needs more than one segment; `last_gsm_features` is what the
/// user last chose explicitly, restored whenever the message fits one
/// segment again (or no longer builds).
pub struct Composer {
    pub short_message: String,
    pub service_type: String,
    pub source_addr_ton: Ton,
    pub source_addr_npi: Npi,
    pub source_addr: String,
    pub dest_addr_ton: Ton,
    pub dest_addr_npi: Npi,
    pub destination_addr: String,
    pub data_coding: DataCoding,
    pub esm_class: EsmClass,
    pub last_gsm_features: GsmFeatures,
    pub protocol_id: String,
    pub sm_default_msg_id: String,
    pub priority_flag: String,
    pub reference: u8,
    pub bound: bool,
}

impl Composer {
    /// The first invalid envelope field of the current state, if any.
    pub open spec fn spec_envelope_error(self) -> Option<AppUiError> {
        spec_field_error(
            self.service_type@,
            self.source_addr@,
            self.destination_addr@,
            self.protocol_id@,
            self.sm_default_msg_id@,
        )
    }

    /// Whether the current state builds successfully into more than one
    /// segment, which forces the UDHI indicator on.
    pub open spec fn spec_must_force_udhi(self) -> bool {
        &&& self.spec_envelope_error() is None
        &&& spec_build_error(self.short_message@, self.data_coding) is None
        &&& encoded(self.data_coding, self.short_message@).len() > MAX_SHORT_MESSAGE_SIZE
    }

    /// The esm_class a build uses: the user's explicit GSM-features choice,
    /// regardless of any forcing currently in effect.
    pub open spec fn spec_user_esm(self) -> EsmClass {
        EsmClass { gsm_features: self.last_gsm_features, ..self.esm_class }
    }

    /// The effective GSM features follow the forcing state machine.
    pub open spec fn wf(self) -> bool {
        self.esm_class.gsm_features == if self.spec_must_force_udhi() {
            GsmFeatures::UdhiIndicator
        } else {
            self.last_gsm_features
        }
    }

    /// All fields except the effective GSM features and the reference
    /// counter are the same in both states.
    pub open spec fn same_but_features(self, other: Composer) -> bool {
        &&& self.short_message@ == other.short_message@
        &&& self.service_type@ == other.service_type@
        &&& self.source_addr_ton == other.source_addr_ton
        &&& self.source_addr_npi == other.source_addr_npi
        &&& self.source_addr@ == other.source_addr@
        &&& self.dest_addr_ton == other.dest_addr_ton
        &&& self.dest_addr_npi == other.dest_addr_npi
        &&& self.destination_addr@ == other.destination_addr@
        &&& self.data_coding == other.data_coding
        &&& self.esm_class.messaging_mode == other.esm_class.messaging_mode
        &&& self.esm_class.message_type == other.esm_class.message_type
        &&& self.esm_class.ansi41_specific == other.esm_class.ansi41_specific
        &&& self.last_gsm_features == other.last_gsm_features
        &&& self.protocol_id@ == other.protocol_id@
        &&& self.sm_default_msg_id@ == other.sm_default_msg_id@
        &&& self.priority_flag@ == other.priority_flag@
        &&& self.bound == other.bound
    }

    /// Builds a composer from explicit values and brings the effective GSM
    /// features in line with the message it starts out with.
    pub fn new_from_values(
        short_message: String,
        service_type: String,
        source_addr_ton: Ton,
        source_addr_npi: Npi,
        source_addr: String,
        dest_addr_ton: Ton,
        dest_addr_npi: Npi,
        destination_addr: String,
        data_coding: DataCoding,
        esm_class: EsmClass,
        last_gsm_features: GsmFeatures,
        protocol_id: String,
        sm_default_msg_id: String,
        priority_flag: String,
    ) -> (r: Composer)
        ensures
            r.wf(),
            r.short_message@ == short_message@,
            r.service_type@ == service_type@,
            r.source_addr_ton == source_addr_ton,
            r.source_addr_npi == source_addr_npi,
            r.source_addr@ == source_addr@,
            r.dest_addr_ton == dest_addr_ton,
            r.dest_addr_npi == dest_addr_npi,
            r.destination_addr@ == destination_addr@,
            r.data_coding == data_coding,
            r.esm_class.messaging_mode == esm_class.messaging_mode,
            r.esm_class.message_type == esm_class.message_type,
            r.esm_class.ansi41_specific == esm_class.ansi41_specific,
            r.last_gsm_features == last_gsm_features,
            r.protocol_id@ == protocol_id@,
            r.sm_default_msg_id@ == sm_default_msg_id@,
            r.priority_flag@ == priority_flag@,
            r.reference == 0,
            r.bound == false,
    {
        let mut composer = Composer {
            short_message,
            service_type,
            source_addr_ton,
            source_addr_npi,
            source_addr,
            dest_addr_ton,
            dest_addr_npi,
            destination_addr,
            data_coding,
            esm_class,
            last_gsm_features,
            protocol_id,
            sm_default_msg_id,
            priority_flag,
            reference: 0,
            bound: false,
        };
        composer.sync_gsm_features();
        composer
    }

    /// The compose form's starting state.
    pub fn new_default() -> (r: Composer)
        ensures
            r.wf(),
            r.short_message@ == "Hello Rusmppc!"@,
            r.service_type@ == Seq::<char>::empty(),
            r.source_addr_ton == Ton::Unknown,
            r.source_addr_npi == Npi::Unknown,
            r.source_addr@ == Seq::<char>::empty(),
            r.dest_addr_ton == Ton::Unknown,
            r.dest_addr_npi == Npi::Unknown,
            r.destination_addr@ == Seq::<char>::empty(),
            r.data_coding == DataCoding::Gsm7BitUnpacked,
            r.last_gsm_features == GsmFeatures::NotSelected,
            r.protocol_id@ == "0"@,
            r.sm_default_msg_id@ == "0"@,
            r.priority_flag@ == "0"@,
            r.reference == 0,
            r.bound == false,
    {
        Composer::new_from_values(
            String::from_str("Hello Rusmppc!"),
            String::new(),
            Ton::default(),
            Npi::default(),
            String::new(),
            Ton::default(),
            Npi::default(),
            String::new(),
            DataCoding::default(),
            EsmClass::default(),
            GsmFeatures::default(),
            String::from_str("0"),
            String::from_str("0"),
            String::from_str("0"),
        )
    }

    /// The segmentation strategy for the currently selected data coding.
    pub fn encoder(&self) -> (r: Encoder)
        ensures
            r.spec_data_coding() == self.data_coding,
    {
        match self.data_coding {
            DataCoding::Gsm7BitUnpacked => Encoder::Gsm7BitUnpacked,
            DataCoding::Latin1 => Encoder::Latin1,
            DataCoding::Ucs2 => Encoder::Ucs2,
        }
    }

    /// Whether the current state forces the UDHI indicator: the envelope
    /// validates and the message builds into more than one part.
    pub fn udhi_indicator_must_be_set(&self) -> (r: bool)
        ensures
            r == self.spec_must_force_udhi(),
    {
        let fields = match PduFields::new(
            self.service_type.as_str(),
            self.source_addr_ton,
            self.source_addr_npi,
            self.source_addr.as_str(),
            self.dest_addr_ton,
            self.dest_addr_npi,
            self.destination_addr.as_str(),
            self.protocol_id.as_str(),
            self.sm_default_msg_id.as_str(),
        ) {
            Err(_) => {
                return false;
            },
            Ok(f) => f,
        };
        match build_parts(
            &fields,
            self.short_message.as_str(),
            self.data_coding,
            self.esm_class,
            self.reference,
        ) {
            Err(_) => false,
            Ok(pdus) => pdus.len() > 1,
        }
    }

    /// Re-evaluates the forcing state machine: the effective GSM features
    /// become the UDHI indicator while the message needs several parts, and
    /// fall back to the user's last explicit choice otherwise.
    pub fn sync_gsm_features(&mut self)
        ensures
            final(self).wf(),
            final(self).same_but_features(*old(self)),
            final(self).reference == old(self).reference,
            final(self).short_message == old(self).short_message,
            final(self).service_type == old(self).service_type,
            final(self).source_addr == old(self).source_addr,
            final(self).destination_addr == old(self).destination_addr,
            final(self).protocol_id == old(self).protocol_id,
            final(self).sm_default_msg_id == old(self).sm_default_msg_id,
            final(self).priority_flag == old(self).priority_flag,
    {
        if self.udhi_indicator_must_be_set() {
            self.esm_class.gsm_features = GsmFeatures::UdhiIndicator;
        } else {
            self.esm_class.gsm_features = self.last_gsm_features;
        }
    }

    /// Replaces the message text; every edit re-runs the forcing machine.
    pub fn set_short_message(&mut self, text: String)
        ensures
            final(self).wf(),
            final(self).short_message@ == text@,
            final(self).reference == old(self).reference,
            final(self).last_gsm_features == old(self).last_gsm_features,
            final(self).data_coding == old(self).data_coding,
    {
        self.short_message = text;
        self.sync_gsm_features();
    }

    /// Switches the character encoding; the forcing machine re-runs since
    /// the part count may change.
    pub fn set_data_coding(&mut self, data_coding: DataCoding)
        ensures
            final(self).wf(),
            final(self).data_coding == data_coding,
            final(self).short_message@ == old(self).short_message@,
            final(self).reference == old(self).reference,
            final(self).last_gsm_features == old(self).last_gsm_features,
    {
        self.data_coding = data_coding;
        self.sync_gsm_features();
    }

    /// Records an explicit GSM-features choice by the user. The choice is
    /// remembered even while a multipart message forces the UDHI indicator.
    pub fn set_gsm_features(&mut self, features: GsmFeatures)
        ensures
            final(self).wf(),
            final(self).last_gsm_features == features,
            final(self).short_message@ == old(self).short_message@,
            final(self).data_coding == old(self).data_coding,
            final(self).reference == old(self).reference,
    {
        self.last_gsm_features = features;
        self.sync_gsm_features();
    }

    /// Replaces the service type, dropping non-ASCII input as the form
    /// field does; the forcing machine re-runs since the envelope's
    /// validity feeds it.
    pub fn set_service_type(&mut self, text: &str)
        ensures
            final(self).wf(),
            final(self).service_type@ == crate::fields::ascii_only(text@),
            final(self).short_message@ == old(self).short_message@,
            final(self).reference == old(self).reference,
            final(self).last_gsm_features == old(self).last_gsm_features,
    {
        self.service_type = crate::fields::retain_ascii(text);
        self.sync_gsm_features();
    }

    /// Replaces the source address, dropping non-ASCII input.
    pub fn set_source_addr(&mut self, text: &str)
        ensures
            final(self).wf(),
            final(self).source_addr@ == crate::fields::ascii_only(text@),
            final(self).short_message@ == old(self).short_message@,
            final(self).reference == old(self).reference,
            final(self).last_gsm_features == old(self).last_gsm_features,
    {
        self.source_addr = crate::fields::retain_ascii(text);
        self.sync_gsm_features();
    }

    /// Replaces the destination address, dropping non-ASCII input.
    pub fn set_destination_addr(&mut self, text: &str)
        ensures
            final(self).wf(),
            final(self).destination_addr@ == crate::fields::ascii_only(text@),
            final(self).short_message@ == old(self).short_message@,
            final(self).reference == old(self).reference,
            final(self).last_gsm_features == old(self).last_gsm_features,
    {
        self.destination_addr = crate::fields::retain_ascii(text);
        self.sync_gsm_features();
    }

    /// Replaces the protocol id, dropping non-digit input.
    pub fn set_protocol_id(&mut self, text: &str)
        ensures
            final(self).wf(),
            final(self).protocol_id@ == crate::fields::digits_only(text@),
            final(self).short_message@ == old(self).short_message@,
            final(self).reference == old(self).reference,
            final(self).last_gsm_features == old(self).last_gsm_features,
    {
        self.protocol_id = crate::fields::retain_digits(text);
        self.sync_gsm_features();
    }

    /// Replaces the SM default message id, dropping non-digit input.
    pub fn set_sm_default_msg_id(&mut self, text: &str)
        ensures
            final(self).wf(),
            final(self).sm_default_msg_id@ == crate::fields::digits_only(text@),
            final(self).short_message@ == old(self).short_message@,
            final(self).reference == old(self).reference,
            final(self).last_gsm_features == old(self).last_gsm_features,
    {
        self.sm_default_msg_id = crate::fields::retain_digits(text);
        self.sync_gsm_features();
    }

    /// Replaces the priority flag, dropping non-digit input.
    pub fn set_priority_flag(&mut self, text: &str)
        ensures
            final(self).wf(),
            final(self).priority_flag@ == crate::fields::digits_only(text@),
            final(self).short_message@ == old(self).short_message@,
            final(self).reference == old(self).reference,
            final(self).last_gsm_features == old(self).last_gsm_features,
    {
        self.priority_flag = crate::fields::retain_digits(text);
        self.sync_gsm_features();
    }

    /// Steps the reference counter, wrapping from 255 back to 0.
    pub fn increment_reference(&mut self)
        ensures
            final(self).reference as int == (old(self).reference as int + 1) % 256,
            *final(self) == (Composer { reference: final(self).reference, ..*old(self) }),
    {
        if self.reference == 255 {
            self.reference = 0;
        } else {
            self.reference = self.reference + 1;
        }
    }

    /// Marks the session bound or unbound.
    pub fn set_bound(&mut self, bound: bool)
        ensures
            *final(self) == (Composer { bound, ..*old(self) }),
    {
        self.bound = bound;
    }

    /// Whether a submit may go out: every envelope field and the priority
    /// flag validate, the message builds, and its payload is not empty.
    pub open spec fn spec_all_fields_valid(self) -> bool {
        &&& self.spec_envelope_error() is None
        &&& all_digits(self.priority_flag@)
        &&& digits_value(self.priority_flag@) <= 255
        &&& spec_build_error(self.short_message@, self.data_coding) is None
        &&& encoded(self.data_coding, self.short_message@).len() > 0
    }

    /// Checks every field of the form at once, the way the submit button's
    /// enabled state does.
    pub fn all_fields_valid(&self) -> (r: bool)
        ensures
            r == self.spec_all_fields_valid(),
    {
        match crate::fields::parse_priority_flag(self.priority_flag.as_str()) {
            Err(_) => {
                return false;
            },
            Ok(_) => {},
        }
        let fields = match PduFields::new(
            self.service_type.as_str(),
            self.source_addr_ton,
            self.source_addr_npi,
            self.source_addr.as_str(),
            self.dest_addr_ton,
            self.dest_addr_npi,
            self.destination_addr.as_str(),
            self.protocol_id.as_str(),
            self.sm_default_msg_id.as_str(),
        ) {
            Err(_) => {
                return false;
            },
            Ok(f) => f,
        };
        let pdus = match build_parts(
            &fields,
            self.short_message.as_str(),
            self.data_coding,
            self.esm_class,
            self.reference,
        ) {
            Err(_) => {
                return false;
            },
            Ok(pdus) => pdus,
        };
        let mut i: usize = 0;
        while i < pdus.len()
            invariant
                i <= pdus@.len(),
                self.spec_envelope_error() is None,
                all_digits(self.priority_flag@),
                digits_value(self.priority_flag@) <= 255,
                spec_build_error(self.short_message@, self.data_coding) is None,
                parts_payload_ok(
                    pdus@,
                    self.short_message@,
                    self.data_coding,
                    self.esm_class,
                    self.reference,
                ),
                forall|k: int| 0 <= k < i ==> (#[trigger] pdus@[k]).short_message@.len() == 0,
            decreases pdus@.len() - i,
        {
            if pdus[i].short_message.len() > 0 {
                proof {
                    if encoded(self.data_coding, self.short_message@).len()
                        <= MAX_SHORT_MESSAGE_SIZE {
                        assert(pdus@.len() == 1);
                        assert(pdus@[0].short_message@ == encoded(
                            self.data_coding,
                            self.short_message@,
                        ));
                    }
                }
                return true;
            }
            i = i + 1;
        }
        proof {
            if encoded(self.data_coding, self.short_message@).len() > MAX_SHORT_MESSAGE_SIZE {
                assert(pdus@[0].short_message@.len() >= 6);
            }
        }
        false
    }

    /// The message statistics shown under the compose box: how many SMS
    /// parts the message builds into, how many characters it holds, and the
    /// total payload bytes including concatenation headers.
    pub fn counters(&self) -> (r: Option<(usize, usize, usize)>)
        ensures
            match r {
                Some(c) => {
                    let enc = encoded(self.data_coding, self.short_message@);
                    let cap = part_capacity(MAX_SHORT_MESSAGE_SIZE as nat, UDH_LENGTH as nat);
                    let segs = segments(groups_of(self.data_coding, self.short_message@), cap);
                    &&& self.spec_envelope_error() is None
                    &&& spec_build_error(self.short_message@, self.data_coding) is None
                    &&& c.1 == self.short_message@.len()
                    &&& if enc.len() <= MAX_SHORT_MESSAGE_SIZE {
                        c.0 == 1 && c.2 == enc.len()
                    } else {
                        c.0 == segs.len() && c.2 == enc.len() + UDH_LENGTH * segs.len()
                    }
                },
                None => self.spec_envelope_error() is Some || spec_build_error(
                    self.short_message@,
                    self.data_coding,
                ) is Some,
            },
    {
        let fields = match PduFields::new(
            self.service_type.as_str(),
            self.source_addr_ton,
            self.source_addr_npi,
            self.source_addr.as_str(),
            self.dest_addr_ton,
            self.dest_addr_npi,
            self.destination_addr.as_str(),
            self.protocol_id.as_str(),
            self.sm_default_msg_id.as_str(),
        ) {
            Err(_) => {
                return None;
            },
            Ok(f) => f,
        };
        let pdus = match build_parts(
            &fields,
            self.short_message.as_str(),
            self.data_coding,
            self.esm_class,
            self.reference,
        ) {
            Err(_) => {
                return None;
            },
            Ok(pdus) => pdus,
        };
        let ghost enc = encoded(self.data_coding, self.short_message@);
        let ghost cap = part_capacity(MAX_SHORT_MESSAGE_SIZE as nat, UDH_LENGTH as nat);
        let ghost segs = segments(groups_of(self.data_coding, self.short_message@), cap);
        let char_count = self.short_message.as_str().unicode_len();
        let mut byte_count: usize = 0;
        let mut i: usize = 0;
        if pdus.len() == 1 {
            let bytes = pdus[0].short_message.len();
            return Some((1, char_count, bytes));
        }
        proof {
            crate::segment::lemma_groups_of_sizes(self.data_coding, self.short_message@);
            crate::segment::lemma_segments_sizes(
                groups_of(self.data_coding, self.short_message@),
                cap,
            );
            assert(segs.take(0).flatten() =~= Seq::<u8>::empty());
        }
        while i < pdus.len()
            invariant
                i <= pdus@.len(),
                pdus@.len() == segs.len(),
                2 <= segs.len() <= MAX_PARTS,
                forall|k: int|
                    0 <= k < pdus@.len() ==> (#[trigger] pdus@[k]).short_message@.len() == UDH_LENGTH
                        + segs[k].len(),
                forall|k: int| 0 <= k < segs.len() ==> (#[trigger] segs[k]).len() <= cap,
                cap == 134,
                byte_count as int == segs.take(i as int).flatten().len() + UDH_LENGTH * i,
                byte_count <= 140 * i,
            decreases pdus@.len() - i,
        {
            proof {
                crate::segment::lemma_flatten_take_step(segs, i as int);
            }
            byte_count = byte_count + pdus[i].short_message.len();
            i = i + 1;
        }
        proof {
            assert(segs.take(segs.len() as int) =~= segs);
            crate::segment::lemma_segments_flatten(
                groups_of(self.data_coding, self.short_message@),
                cap,
            );
        }
        Some((pdus.len(), char_count, byte_count))
    }

    /// Restores a composer from the compose form's saved state.
    pub fn from_serde(serde_app: SerdeSubmitSmApp) -> (r: Composer)
        ensures
            r.wf(),
            r.short_message@ == serde_app.short_message@,
            r.service_type@ == serde_app.service_type@,
            r.source_addr_ton == serde_app.source_addr_ton,
            r.source_addr_npi == serde_app.source_addr_npi,
            r.source_addr@ == serde_app.source_addr@,
            r.dest_addr_ton == serde_app.dest_addr_ton,
            r.dest_addr_npi == serde_app.dest_addr_npi,
            r.destination_addr@ == serde_app.destination_addr@,
            r.data_coding == serde_app.data_coding,
            r.esm_class.messaging_mode == serde_app.esm_class.messaging_mode,
            r.esm_class.message_type == serde_app.esm_class.message_type,
            r.esm_class.ansi41_specific == serde_app.esm_class.ansi41_specific,
            r.last_gsm_features == serde_app.last_gsm_features,
            r.protocol_id@ == serde_app.protocol_id@,
            r.sm_default_msg_id@ == serde_app.sm_default_msg_id@,
            r.priority_flag@ == serde_app.priority_flag@,
            r.reference == 0,
            r.bound == false,
    {
        Composer::new_from_values(
            serde_app.short_message,
            serde_app.service_type,
            serde_app.source_addr_ton,
            serde_app.source_addr_npi,
            serde_app.source_addr,
            serde_app.dest_addr_ton,
            serde_app.dest_addr_npi,
            serde_app.destination_addr,
            serde_app.data_coding,
            serde_app.esm_class,
            serde_app.last_gsm_features,
            serde_app.protocol_id,
            serde_app.sm_default_msg_id,
            serde_app.priority_flag,
        )
    }

    /// The compose form's saved state for this composer.
    pub fn to_serde(&self) -> (r: SerdeSubmitSmApp)
        ensures
            r.short_message@ == self.short_message@,
            r.service_type@ == self.service_type@,
            r.source_addr_ton == self.source_addr_ton,
            r.source_addr_npi == self.source_addr_npi,
            r.source_addr@ == self.source_addr@,
            r.dest_addr_ton == self.dest_addr_ton,
            r.dest_addr_npi == self.dest_addr_npi,
            r.destination_addr@ == self.destination_addr@,
            r.data_coding == self.data_coding,
            r.esm_class == self.esm_class,
            r.last_gsm_features == self.last_gsm_features,
            r.protocol_id@ == self.protocol_id@,
            r.sm_default_msg_id@ == self.sm_default_msg_id@,
            r.priority_flag@ == self.priority_flag@,
    {
        SerdeSubmitSmApp {
            short_message: self.short_message.clone(),
            service_type: self.service_type.clone(),
            source_addr_ton: self.source_addr_ton,
            source_addr_npi: self.source_addr_npi,
            source_addr: self.source_addr.clone(),
            dest_addr_ton: self.dest_addr_ton,
            dest_addr_npi: self.dest_addr_npi,
            destination_addr: self.destination_addr.clone(),
            data_coding: self.data_coding,
            esm_class: self.esm_class,
            last_gsm_features: self.last_gsm_features,
            protocol_id: self.protocol_id.clone(),
            sm_default_msg_id: self.sm_default_msg_id.clone(),
            priority_flag: self.priority_flag.clone(),
        }
    }

    /// Why a build of the current state would fail, if it would.
    pub open spec fn spec_submit_error(self) -> Option<AppUiError> {
        match self.spec_envelope_error() {
            Some(e) => Some(e),
            None => match spec_build_error(self.short_message@, self.data_coding) {
                Some(b) => Some(AppUiError::MultiPart(b)),
                None => None,
            },
        }
    }

    /// Builds the current message into submit_sm parts with the user's
    /// explicit GSM-features choice, using the current reference number.
    ///
    /// On success the reference counter steps once (wrapping); on failure
    /// it stays put and nothing is returned. Either way the effective GSM
    /// features are re-evaluated for the state the build saw.
    pub fn submit(&mut self) -> (r: Result<Vec<OutboundPdu>, AppUiError>)
        ensures
            final(self).same_but_features(*old(self)),
            final(self).wf(),
            match r {
                Ok(pdus) => {
                    &&& old(self).spec_submit_error() is None
                    &&& parts_payload_ok(
                        pdus@,
                        old(self).short_message@,
                        old(self).data_coding,
                        old(self).spec_user_esm(),
                        old(self).reference,
                    )
                    &&& forall|k: int|
                        0 <= k < pdus@.len() ==> ((#[trigger] pdus@[k]).fields.service_type@
                            == old(self).service_type@
                            && pdus@[k].fields.source_addr_ton == old(self).source_addr_ton
                            && pdus@[k].fields.source_addr_npi == old(self).source_addr_npi
                            && pdus@[k].fields.source_addr@ == old(self).source_addr@
                            && pdus@[k].fields.dest_addr_ton == old(self).dest_addr_ton
                            && pdus@[k].fields.dest_addr_npi == old(self).dest_addr_npi
                            && pdus@[k].fields.destination_addr@ == old(self).destination_addr@
                            && pdus@[k].fields.protocol_id as int == digits_value(
                            old(self).protocol_id@,
                        ) && pdus@[k].fields.sm_default_msg_id as int == digits_value(
                            old(self).sm_default_msg_id@,
                        ))
                    &&& final(self).reference as int == (old(self).reference as int + 1) % 256
                },
                Err(e) => {
                    &&& Some(e) == old(self).spec_submit_error()
                    &&& final(self).reference == old(self).reference
                },
            },
    {
        let fields = match PduFields::new(
            self.service_type.as_str(),
            self.source_addr_ton,
            self.source_addr_npi,
            self.source_addr.as_str(),
            self.dest_addr_ton,
            self.dest_addr_npi,
            self.destination_addr.as_str(),
            self.protocol_id.as_str(),
            self.sm_default_msg_id.as_str(),
        ) {
            Err(e) => {
                self.sync_gsm_features();
                return Err(e);
            },
            Ok(f) => f,
        };
        let user_esm = EsmClass {
            gsm_features: self.last_gsm_features,
            messaging_mode: self.esm_class.messaging_mode,
            message_type: self.esm_class.message_type,
            ansi41_specific: self.esm_class.ansi41_specific,
        };
        let result = build_parts(
            &fields,
            self.short_message.as_str(),
            self.data_coding,
            user_esm,
            self.reference,
        );
        match result {
            Err(err) => {
                self.sync_gsm_features();
                Err(AppUiError::MultiPart(err))
            },
            Ok(pdus) => {
                self.sync_gsm_features();
                self.increment_reference();
                Ok(pdus)
            },
        }
    }
}

} // verus!
