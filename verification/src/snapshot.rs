//! Saved state of the user-facing forms, as it is written to disk between
//! sessions. The host application serializes copies of these values; here
//! they are plain data.

use vstd::prelude::*;

use crate::values::{BindMode, DataCoding, EsmClass, GsmFeatures, InterfaceVersion, Npi, Ton};

verus! {

/// Saved state of the compose form. The password-like transient state
/// (reference counter, bound flag) is deliberately not part of it.
pub struct SerdeSubmitSmApp {
    pub short_message: String,
    pub service_type: String,
    pub source_addr_ton: Ton,
    pub source_addr_npi: Npi,
    pub source_addr: String,
    pub dest_addr_ton: Ton,
    pub dest_addr_npi: Npi,
    pub destination_addr: String,
    pub data_coding: DataCoding,
    pub esm_class: EsmClass,
    pub last_gsm_features: GsmFeatures,
    pub protocol_id: String,
    pub sm_default_msg_id: String,
    pub priority_flag: String,
}

/// Saved state of the bind form. The password is deliberately not saved.
pub struct SerdeBindApp {
    pub url: String,
    pub system_id: String,
    pub system_type: String,
    pub addr_ton: Ton,
    pub addr_npi: Npi,
    pub interface_version: InterfaceVersion,
    pub mode: BindMode,
    pub enquire_link_interval_secs: String,
}

/// Saved state of the log view: nothing survives a restart.
pub struct SerdeLogsApp {}

} // verus!
