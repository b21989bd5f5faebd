//! The secrets of a device: what it measures of itself, what it signs with
//! its private key, and what it derives from a pre-shared key. The library
//! reaches them through one registered provider.

pub mod secret_callback;
pub mod secret_impl_sample;

pub use secret_callback::{option_bytes, SpdmSecret};

use crate::crypto::ProviderSlot;
use crate::protocol::{
    SpdmBaseHashAlgo, SpdmDigestStruct, SpdmHKDFKeyStruct,
    SpdmMeasurementRecordStructure, SpdmMeasurementSpecification, SpdmMeasurementSummaryHashType,
    SpdmReqAsymAlgo, SpdmSignatureStruct, SpdmVersion,
};
use vstd::prelude::*;

verus! {

/// A measurement record as it is handed on: one whose blocks fit its buffer,
/// anything else counts as a failure.
pub open spec fn checked_record(record: Option<SpdmMeasurementRecordStructure>) -> Option<
    SpdmMeasurementRecordStructure,
> {
    match record {
        Some(r) => if r.wf() {
            Some(r)
        } else {
            None
        },
        None => None,
    }
}

/// What `spdm_measurement_collection` returns: the provider's record where a
/// provider is registered and the record is well formed.
pub open spec fn spec_measurement_collection<P: SpdmSecret>(
    provider: Option<P>,
    spdm_version: SpdmVersion,
    measurement_specification: SpdmMeasurementSpecification,
    measurement_hash_algo: SpdmBaseHashAlgo,
    measurement_index: usize,
) -> Option<SpdmMeasurementRecordStructure> {
    match provider {
        Some(p) => checked_record(
            p.measurement_collection_value(
                spdm_version,
                measurement_specification,
                measurement_hash_algo,
                measurement_index,
            ),
        ),
        None => None,
    }
}

/// Registers the secret provider. Returns `true` for the first one and
/// `false`, with the slot unchanged, for every later one.
pub fn register<P: SpdmSecret>(slot: &mut ProviderSlot<P>, context: P) -> (ok: bool)
    ensures
        ok == old(slot).provider().is_none(),
        ok ==> final(slot).provider() == Some(context),
        !ok ==> final(slot).provider() == old(slot).provider(),
{
    slot.register(context)
}

/// The measurements of the device: the block at `measurement_index`, all
/// blocks for the index 0xFF, or their number alone for the index 0.
pub fn spdm_measurement_collection<P: SpdmSecret>(
    slot: &ProviderSlot<P>,
    spdm_version: SpdmVersion,
    measurement_specification: SpdmMeasurementSpecification,
    measurement_hash_algo: SpdmBaseHashAlgo,
    measurement_index: usize,
) -> (r: Option<SpdmMeasurementRecordStructure>)
    ensures
        r == spec_measurement_collection(
            slot.provider(),
            spdm_version,
            measurement_specification,
            measurement_hash_algo,
            measurement_index,
        ),
        r matches Some(record) ==> record.wf(),
{
    match slot.get() {
        Some(p) => match p.spdm_measurement_collection(
            spdm_version,
            measurement_specification,
            measurement_hash_algo,
            measurement_index,
        ) {
            Some(record) => if record.measurement_record_length.get() <= 1024 {
                Some(record)
            } else {
                None
            },
            None => None,
        },
        None => None,
    }
}

/// A summary hash as it is handed on: one that fits its buffer, anything
/// else counts as a failure.
pub open spec fn checked_summary_hash(digest: Option<SpdmDigestStruct>) -> Option<
    SpdmDigestStruct,
> {
    match digest {
        Some(d) => if d.wf() {
            Some(d)
        } else {
            None
        },
        None => None,
    }
}

/// What `spdm_generate_measurement_summary_hash` returns: the provider's
/// summary hash where a provider is registered and the hash fits its buffer.
pub open spec fn spec_measurement_summary_hash<P: SpdmSecret>(
    provider: Option<P>,
    spdm_version: SpdmVersion,
    base_hash_algo: SpdmBaseHashAlgo,
    measurement_specification: SpdmMeasurementSpecification,
    measurement_hash_algo: SpdmBaseHashAlgo,
    measurement_summary_hash_type: SpdmMeasurementSummaryHashType,
) -> Option<SpdmDigestStruct> {
    match provider {
        Some(p) => checked_summary_hash(
            p.measurement_summary_hash_value(
                spdm_version,
                base_hash_algo,
                measurement_specification,
                measurement_hash_algo,
                measurement_summary_hash_type,
            ),
        ),
        None => None,
    }
}

/// The hash over the measurements that `measurement_summary_hash_type` names:
/// what the provider returns, if it fits its buffer; nothing without a
/// provider.
pub fn spdm_generate_measurement_summary_hash<P: SpdmSecret>(
    slot: &ProviderSlot<P>,
    spdm_version: SpdmVersion,
    base_hash_algo: SpdmBaseHashAlgo,
    measurement_specification: SpdmMeasurementSpecification,
    measurement_hash_algo: SpdmBaseHashAlgo,
    measurement_summary_hash_type: SpdmMeasurementSummaryHashType,
) -> (r: Option<SpdmDigestStruct>)
    ensures
        r == spec_measurement_summary_hash(
            slot.provider(),
            spdm_version,
            base_hash_algo,
            measurement_specification,
            measurement_hash_algo,
            measurement_summary_hash_type,
        ),
        r matches Some(d) ==> d.wf(),
{
    match slot.get() {
        Some(p) => match p.spdm_generate_measurement_summary_hash(
            spdm_version,
            base_hash_algo,
            measurement_specification,
            measurement_hash_algo,
            measurement_summary_hash_type,
        ) {
            Some(d) => if d.data_size <= 64 {
                Some(d)
            } else {
                None
            },
            None => None,
        },
        None => None,
    }
}

/// A signature as it is handed on: one that has the length that
/// `req_base_asym_alg` calls for.
pub fn check_data_signature(
    req_base_asym_alg: SpdmReqAsymAlgo,
    signature: Option<SpdmSignatureStruct>,
) -> (r: Option<SpdmSignatureStruct>)
    ensures
        r.is_some() <==> (signature matches Some(s) && s.data_size
            == req_base_asym_alg.spec_size()),
        r.is_some() ==> r == signature,
        r matches Some(s) ==> s.wf() && s@.len() == req_base_asym_alg.spec_size(),
{
    match signature {
        Some(s) => if s.data_size == req_base_asym_alg.get_size() {
            Some(s)
        } else {
            None
        },
        None => None,
    }
}

/// The requester's signature over `message`: whatever the provider returns,
/// if it has the length that `req_base_asym_alg` calls for; nothing without
/// a provider.
pub fn spdm_requester_data_sign<P: SpdmSecret>(
    slot: &ProviderSlot<P>,
    spdm_version: SpdmVersion,
    op_code: u8,
    req_base_asym_alg: SpdmReqAsymAlgo,
    base_hash_algo: SpdmBaseHashAlgo,
    is_data_hash: bool,
    message: &[u8],
    message_size: u8,
) -> (r: Option<SpdmSignatureStruct>)
    ensures
        slot.provider().is_none() ==> r.is_none(),
        r matches Some(s) ==> s.wf() && s@.len() == req_base_asym_alg.spec_size(),
{
    match slot.get() {
        Some(p) => check_data_signature(
            req_base_asym_alg,
            p.spdm_requester_data_sign(
                spdm_version,
                op_code,
                req_base_asym_alg,
                base_hash_algo,
                is_data_hash,
                message,
                message_size,
            ),
        ),
        None => None,
    }
}

/// The responder's signature over `message`: whatever the provider returns,
/// if it has the length that `req_base_asym_alg` calls for; nothing without
/// a provider.
pub fn spdm_responder_data_sign<P: SpdmSecret>(
    slot: &ProviderSlot<P>,
    spdm_version: SpdmVersion,
    op_code: u8,
    req_base_asym_alg: SpdmReqAsymAlgo,
    base_hash_algo: SpdmBaseHashAlgo,
    is_data_hash: bool,
    message: &[u8],
    message_size: u8,
) -> (r: Option<SpdmSignatureStruct>)
    ensures
        slot.provider().is_none() ==> r.is_none(),
        r matches Some(s) ==> s.wf() && s@.len() == req_base_asym_alg.spec_size(),
{
    match slot.get() {
        Some(p) => check_data_signature(
            req_base_asym_alg,
            p.spdm_responder_data_sign(
                spdm_version,
                op_code,
                req_base_asym_alg,
                base_hash_algo,
                is_data_hash,
                message,
                message_size,
            ),
        ),
        None => None,
    }
}

/// What a pre-shared-key expansion returns: the provider's keying material
/// where it fits its buffer.
pub open spec fn checked_psk_okm(okm: Option<SpdmHKDFKeyStruct>) -> Option<SpdmHKDFKeyStruct> {
    match okm {
        Some(k) => if k.wf() {
            Some(k)
        } else {
            None
        },
        None => None,
    }
}

/// Hands keying material on if it fits its buffer.
pub fn check_psk_okm(okm: Option<SpdmHKDFKeyStruct>) -> (r: Option<SpdmHKDFKeyStruct>)
    ensures
        r == checked_psk_okm(okm),
        r matches Some(k) ==> k.wf(),
{
    match okm {
        Some(k) => if k.data_size <= 64 {
            Some(k)
        } else {
            None
        },
        None => None,
    }
}

/// Keying material expanded with `info` from the handshake secret that
/// belongs to the pre-shared key named by `psk_hint`; nothing without a
/// provider.
pub fn spdm_psk_handshake_secret_hkdf_expand<P: SpdmSecret>(
    slot: &ProviderSlot<P>,
    spdm_version: SpdmVersion,
    base_hash_algo: SpdmBaseHashAlgo,
    psk_hint: &[u8],
    psk_hint_size: Option<usize>,
    info: Option<&[u8]>,
    info_size: Option<usize>,
) -> (r: Option<SpdmHKDFKeyStruct>)
    ensures
        r == match slot.provider() {
            Some(p) => checked_psk_okm(
                p.psk_handshake_secret_hkdf_expand_value(
                    spdm_version,
                    base_hash_algo,
                    psk_hint@,
                    psk_hint_size,
                    option_bytes(info),
                    info_size,
                ),
            ),
            None => None,
        },
        r matches Some(k) ==> k.wf(),
{
    match slot.get() {
        Some(p) => check_psk_okm(
            p.spdm_psk_handshake_secret_hkdf_expand(
                spdm_version,
                base_hash_algo,
                psk_hint,
                psk_hint_size,
                info,
                info_size,
            ),
        ),
        None => None,
    }
}

/// Keying material expanded with `info` from the master secret that belongs
/// to the pre-shared key named by `psk_hint`; nothing without a provider.
pub fn spdm_psk_master_secret_hkdf_expand<P: SpdmSecret>(
    slot: &ProviderSlot<P>,
    spdm_version: SpdmVersion,
    base_hash_algo: SpdmBaseHashAlgo,
    psk_hint: &[u8],
    psk_hint_size: Option<usize>,
    info: Option<&[u8]>,
    info_size: Option<usize>,
) -> (r: Option<SpdmHKDFKeyStruct>)
    ensures
        r == match slot.provider() {
            Some(p) => checked_psk_okm(
                p.psk_master_secret_hkdf_expand_value(
                    spdm_version,
                    base_hash_algo,
                    psk_hint@,
                    psk_hint_size,
                    option_bytes(info),
                    info_size,
                ),
            ),
            None => None,
        },
        r matches Some(k) ==> k.wf(),
{
    match slot.get() {
        Some(p) => check_psk_okm(
            p.spdm_psk_master_secret_hkdf_expand(
                spdm_version,
                base_hash_algo,
                psk_hint,
                psk_hint_size,
                info,
                info_size,
            ),
        ),
        None => None,
    }
}

} // verus!
