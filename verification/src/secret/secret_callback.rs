//! What a secret provider offers to the library.

use crate::protocol::{
    SpdmBaseHashAlgo, SpdmDigestStruct, SpdmHKDFKeyStruct,
    SpdmMeasurementRecordStructure, SpdmMeasurementSpecification, SpdmMeasurementSummaryHashType,
    SpdmReqAsymAlgo, SpdmSignatureStruct, SpdmVersion,
};
use vstd::prelude::*;

verus! {

/// The bytes behind an optional byte string.
pub open spec fn option_bytes(bytes: Option<&[u8]>) -> Option<Seq<u8>> {
    match bytes {
        Some(b) => Some(b@),
        None => None,
    }
}

/// The secrets of a device.
///
/// Where a result is a function of the arguments, the trait names that
/// function (`..._value`). A provider states what it is where it can; one
/// that does not leaves it at its default: some function of the provider and
/// the arguments, of which nothing more is known. Signatures may differ from
/// call to call, so nothing is said of them.
pub trait SpdmSecret: Sized {
    /// What `spdm_generate_measurement_summary_hash` returns for the given
    /// arguments.
    open spec fn measurement_summary_hash_value(
        &self,
        spdm_version: SpdmVersion,
        base_hash_algo: SpdmBaseHashAlgo,
        measurement_specification: SpdmMeasurementSpecification,
        measurement_hash_algo: SpdmBaseHashAlgo,
        measurement_summary_hash_type: SpdmMeasurementSummaryHashType,
    ) -> Option<SpdmDigestStruct> {
        arbitrary::<
            spec_fn(
                Self,
                SpdmVersion,
                SpdmBaseHashAlgo,
                SpdmMeasurementSpecification,
                SpdmBaseHashAlgo,
                SpdmMeasurementSummaryHashType,
            ) -> Option<SpdmDigestStruct>,
        >()(
            *self,
            spdm_version,
            base_hash_algo,
            measurement_specification,
            measurement_hash_algo,
            measurement_summary_hash_type,
        )
    }

    /// What `spdm_measurement_collection` returns for the given arguments.
    open spec fn measurement_collection_value(
        &self,
        spdm_version: SpdmVersion,
        measurement_specification: SpdmMeasurementSpecification,
        measurement_hash_algo: SpdmBaseHashAlgo,
        measurement_index: usize,
    ) -> Option<SpdmMeasurementRecordStructure> {
        arbitrary::<
            spec_fn(
                Self,
                SpdmVersion,
                SpdmMeasurementSpecification,
                SpdmBaseHashAlgo,
                usize,
            ) -> Option<SpdmMeasurementRecordStructure>,
        >()(*self, spdm_version, measurement_specification, measurement_hash_algo, measurement_index)
    }

    /// What `spdm_psk_handshake_secret_hkdf_expand` returns for the given
    /// arguments.
    open spec fn psk_handshake_secret_hkdf_expand_value(
        &self,
        spdm_version: SpdmVersion,
        base_hash_algo: SpdmBaseHashAlgo,
        psk_hint: Seq<u8>,
        psk_hint_size: Option<usize>,
        info: Option<Seq<u8>>,
        info_size: Option<usize>,
    ) -> Option<SpdmHKDFKeyStruct> {
        arbitrary::<
            spec_fn(
                Self,
                SpdmVersion,
                SpdmBaseHashAlgo,
                Seq<u8>,
                Option<usize>,
                Option<Seq<u8>>,
                Option<usize>,
            ) -> Option<SpdmHKDFKeyStruct>,
        >()(*self, spdm_version, base_hash_algo, psk_hint, psk_hint_size, info, info_size)
    }

    /// What `spdm_psk_master_secret_hkdf_expand` returns for the given
    /// arguments.
    open spec fn psk_master_secret_hkdf_expand_value(
        &self,
        spdm_version: SpdmVersion,
        base_hash_algo: SpdmBaseHashAlgo,
        psk_hint: Seq<u8>,
        psk_hint_size: Option<usize>,
        info: Option<Seq<u8>>,
        info_size: Option<usize>,
    ) -> Option<SpdmHKDFKeyStruct> {
        arbitrary::<
            spec_fn(
                Self,
                SpdmVersion,
                SpdmBaseHashAlgo,
                Seq<u8>,
                Option<usize>,
                Option<Seq<u8>>,
                Option<usize>,
            ) -> Option<SpdmHKDFKeyStruct>,
        >()(*self, spdm_version, base_hash_algo, psk_hint, psk_hint_size, info, info_size)
    }

    /// The measurements of the device: the block at `measurement_index`, all
    /// blocks for the index 0xFF, or their number alone for the index 0.
    fn spdm_measurement_collection(
        &self,
        spdm_version: SpdmVersion,
        measurement_specification: SpdmMeasurementSpecification,
        measurement_hash_algo: SpdmBaseHashAlgo,
        measurement_index: usize,
    ) -> (r: Option<SpdmMeasurementRecordStructure>)
        ensures
            r == self.measurement_collection_value(
                spdm_version,
                measurement_specification,
                measurement_hash_algo,
                measurement_index,
            ),
    ;

    /// The hash over the measurements that `measurement_summary_hash_type`
    /// names.
    fn spdm_generate_measurement_summary_hash(
        &self,
        spdm_version: SpdmVersion,
        base_hash_algo: SpdmBaseHashAlgo,
        measurement_specification: SpdmMeasurementSpecification,
        measurement_hash_algo: SpdmBaseHashAlgo,
        measurement_summary_hash_type: SpdmMeasurementSummaryHashType,
    ) -> (r: Option<SpdmDigestStruct>)
        ensures
            r == self.measurement_summary_hash_value(
                spdm_version,
                base_hash_algo,
                measurement_specification,
                measurement_hash_algo,
                measurement_summary_hash_type,
            ),
    ;

    /// The requester's signature over `message`, which is a digest already
    /// where `is_data_hash` says so.
    fn spdm_requester_data_sign(
        &self,
        spdm_version: SpdmVersion,
        op_code: u8,
        req_base_asym_alg: SpdmReqAsymAlgo,
        base_hash_algo: SpdmBaseHashAlgo,
        is_data_hash: bool,
        message: &[u8],
        message_size: u8,
    ) -> (r: Option<SpdmSignatureStruct>)
    ;

    /// The responder's signature over `message`, which is a digest already
    /// where `is_data_hash` says so.
    fn spdm_responder_data_sign(
        &self,
        spdm_version: SpdmVersion,
        op_code: u8,
        req_base_asym_alg: SpdmReqAsymAlgo,
        base_hash_algo: SpdmBaseHashAlgo,
        is_data_hash: bool,
        message: &[u8],
        message_size: u8,
    ) -> (r: Option<SpdmSignatureStruct>)
    ;

    /// Keying material expanded with `info` from the handshake secret that
    /// belongs to the pre-shared key named by `psk_hint`.
    fn spdm_psk_handshake_secret_hkdf_expand(
        &self,
        spdm_version: SpdmVersion,
        base_hash_algo: SpdmBaseHashAlgo,
        psk_hint: &[u8],
        psk_hint_size: Option<usize>,
        info: Option<&[u8]>,
        info_size: Option<usize>,
    ) -> (r: Option<SpdmHKDFKeyStruct>)
        ensures
            r == self.psk_handshake_secret_hkdf_expand_value(
                spdm_version,
                base_hash_algo,
                psk_hint@,
                psk_hint_size,
                option_bytes(info),
                info_size,
            ),
    ;

    /// Keying material expanded with `info` from the master secret that
    /// belongs to the pre-shared key named by `psk_hint`.
    fn spdm_psk_master_secret_hkdf_expand(
        &self,
        spdm_version: SpdmVersion,
        base_hash_algo: SpdmBaseHashAlgo,
        psk_hint: &[u8],
        psk_hint_size: Option<usize>,
        info: Option<&[u8]>,
        info_size: Option<usize>,
    ) -> (r: Option<SpdmHKDFKeyStruct>)
        ensures
            r == self.psk_master_secret_hkdf_expand_value(
                spdm_version,
                base_hash_algo,
                psk_hint@,
                psk_hint_size,
                option_bytes(info),
                info_size,
            ),
    ;
}

} // verus!
