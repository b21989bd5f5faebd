//! A sample secret provider: a device with ten firmware measurements and no
//! keys. It serves as a stand-in where no real device is at hand.

use crate::codec::{Codec, Writer};
use crate::crypto::hash::{hash_all, spec_hash_all};
use crate::crypto::{ProviderSlot, SpdmHash};
use crate::protocol::{
    SpdmBaseHashAlgo, SpdmDigestStruct, SpdmDmtfMeasurementRepresentation,
    SpdmDmtfMeasurementStructure, SpdmDmtfMeasurementType, SpdmHKDFKeyStruct,
    SpdmMeasurementBlockStructure, SpdmMeasurementRecordStructure, SpdmMeasurementSpecification,
    SpdmMeasurementSummaryHashType, SpdmReqAsymAlgo, SpdmSignatureStruct, SpdmVersion,
};
use crate::secret::SpdmSecret;
use vstd::prelude::*;

verus! {

/// Number of measurement blocks of the sample device.
pub const SAMPLE_MEASUREMENT_COUNT: u8 = 10;

/// "deadbeef": the first firmware image.
pub const FIRMWARE1: [u8; 8] = [0x64, 0x65, 0x61, 0x64, 0x62, 0x65, 0x65, 0x66];

/// "eadbeefd": the second firmware image.
pub const FIRMWARE2: [u8; 8] = [0x65, 0x61, 0x64, 0x62, 0x65, 0x65, 0x66, 0x64];

/// "adbeefde": the third firmware image.
pub const FIRMWARE3: [u8; 8] = [0x61, 0x64, 0x62, 0x65, 0x65, 0x66, 0x64, 0x65];

/// "dbeefdea": the fourth firmware image.
pub const FIRMWARE4: [u8; 8] = [0x64, 0x62, 0x65, 0x65, 0x66, 0x64, 0x65, 0x61];

/// "beefdead": the fifth firmware image.
pub const FIRMWARE5: [u8; 8] = [0x62, 0x65, 0x65, 0x66, 0x64, 0x65, 0x61, 0x64];

/// The block that reports the digest `digest` of a firmware image under
/// `index`.
pub open spec fn spec_firmware_block(index: u8, digest: SpdmDigestStruct)
    -> SpdmMeasurementBlockStructure {
    SpdmMeasurementBlockStructure {
        index,
        measurement_specification: SpdmMeasurementSpecification::DMTF,
        measurement_size: (digest.data_size + 3) as u16,
        measurement: SpdmDmtfMeasurementStructure::spec_new(
            SpdmDmtfMeasurementType::SpdmDmtfMeasurementFirmware,
            SpdmDmtfMeasurementRepresentation::SpdmDmtfMeasurementDigest,
            digest@,
        ),
    }
}

/// `bytes`, `count` times over.
pub open spec fn repeated(bytes: Seq<u8>, count: nat) -> Seq<u8>
    decreases count,
{
    if count == 0 {
        Seq::<u8>::empty()
    } else {
        repeated(bytes, (count - 1) as nat) + bytes
    }
}

/// The digests of all firmware images are at hand.
pub open spec fn all_firmware_hashed<H: SpdmHash>(hash: Option<H>, algo: SpdmBaseHashAlgo) -> bool {
    &&& spec_hash_all(hash, algo, FIRMWARE1@).is_some()
    &&& spec_hash_all(hash, algo, FIRMWARE2@).is_some()
    &&& spec_hash_all(hash, algo, FIRMWARE3@).is_some()
    &&& spec_hash_all(hash, algo, FIRMWARE4@).is_some()
    &&& spec_hash_all(hash, algo, FIRMWARE5@).is_some()
}

/// What the sample device reports:
/// - nothing unless the DMTF layout is asked for;
/// - for the index 0, an empty record that gives the number of blocks, ten;
/// - for the index 0xFF, ten blocks, each with the digest of the first
///   firmware image under the index 0xFF, provided every image can be
///   hashed;
/// - for an index from 1 to 10, one block with the digest of the first
///   firmware image under that index;
/// - nothing for any other index.
pub open spec fn spec_sample_measurement_collection<H: SpdmHash>(
    hash: Option<H>,
    measurement_specification: SpdmMeasurementSpecification,
    measurement_hash_algo: SpdmBaseHashAlgo,
    measurement_index: usize,
) -> Option<SpdmMeasurementRecordStructure> {
    if measurement_specification != SpdmMeasurementSpecification::DMTF {
        None
    } else if measurement_index == 0 {
        Some(SpdmMeasurementRecordStructure::spec_new(10, Seq::<u8>::empty()))
    } else if measurement_index == 0xff {
        if all_firmware_hashed(hash, measurement_hash_algo) {
            Some(
                SpdmMeasurementRecordStructure::spec_new(
                    10,
                    repeated(
                        spec_firmware_block(
                            0xff,
                            spec_hash_all(hash, measurement_hash_algo, FIRMWARE1@).unwrap(),
                        ).spec_encode(),
                        10,
                    ),
                ),
            )
        } else {
            None
        }
    } else if measurement_index > 10 {
        None
    } else {
        match spec_hash_all(hash, measurement_hash_algo, FIRMWARE1@) {
            Some(digest) => Some(
                SpdmMeasurementRecordStructure::spec_new(
                    1,
                    spec_firmware_block(measurement_index as u8, digest).spec_encode(),
                ),
            ),
            None => None,
        }
    }
}

/// The block that reports `digest` under `index`.
pub fn firmware_block(index: u8, digest: &SpdmDigestStruct) -> (r: SpdmMeasurementBlockStructure)
    requires
        digest.wf(),
    ensures
        r == spec_firmware_block(index, *digest),
        r.spec_valid(),
        r.spec_encode().len() == 7 + digest.data_size,
{
    let measurement = SpdmDmtfMeasurementStructure::new(
        SpdmDmtfMeasurementType::SpdmDmtfMeasurementFirmware,
        SpdmDmtfMeasurementRepresentation::SpdmDmtfMeasurementDigest,
        digest.as_ref(),
    );
    SpdmMeasurementBlockStructure {
        index,
        measurement_specification: SpdmMeasurementSpecification::DMTF,
        measurement_size: digest.data_size + 3,
        measurement: measurement.unwrap(),
    }
}

/// The measurements of the sample device.
pub fn spdm_measurement_collection_impl<H: SpdmHash>(
    hash_slot: &ProviderSlot<H>,
    spdm_version: SpdmVersion,
    measurement_specification: SpdmMeasurementSpecification,
    measurement_hash_algo: SpdmBaseHashAlgo,
    measurement_index: usize,
) -> (r: Option<SpdmMeasurementRecordStructure>)
    ensures
        r == spec_sample_measurement_collection(
            hash_slot.provider(),
            measurement_specification,
            measurement_hash_algo,
            measurement_index,
        ),
        r matches Some(record) ==> record.wf(),
{
    if measurement_specification != SpdmMeasurementSpecification::DMTF {
        None
    } else if measurement_index == 0 {
        let empty: [u8; 0] = [];
        assert(empty@ =~= Seq::<u8>::empty());
        SpdmMeasurementRecordStructure::new(SAMPLE_MEASUREMENT_COUNT, empty.as_slice())
    } else if measurement_index == 0xff {
        let digest1 = hash_all(hash_slot, measurement_hash_algo, FIRMWARE1.as_slice());
        let digest2 = hash_all(hash_slot, measurement_hash_algo, FIRMWARE2.as_slice());
        let digest3 = hash_all(hash_slot, measurement_hash_algo, FIRMWARE3.as_slice());
        let digest4 = hash_all(hash_slot, measurement_hash_algo, FIRMWARE4.as_slice());
        let digest5 = hash_all(hash_slot, measurement_hash_algo, FIRMWARE5.as_slice());
        if digest1.is_none() || digest2.is_none() || digest3.is_none() || digest4.is_none()
            || digest5.is_none() {
            return None;
        }
        let digest1 = digest1.unwrap();
        let block = firmware_block(0xff, &digest1);

        let mut measurement_record_data = [0u8; 1024];
        let mut writer = Writer::init(&mut measurement_record_data);
        let ghost wire = block.spec_encode();
        let mut i: usize = 0;
        while i < 10
            invariant
                i <= 10,
                writer.wf(),
                writer.capacity() == 1024,
                block.spec_valid(),
                wire == block.spec_encode(),
                wire.len() <= 71,
                writer@ == repeated(wire, i as nat),
                writer@.len() == i * wire.len(),
            decreases 10 - i,
        {
            proof {
                assert(i * wire.len() + wire.len() <= 10 * wire.len()) by (nonlinear_arith)
                    requires
                        i < 10,
                ;
                assert((i + 1) * wire.len() == i * wire.len() + wire.len()) by (nonlinear_arith);
            }
            block.encode(&mut writer);
            i = i + 1;
        }
        SpdmMeasurementRecordStructure::new(SAMPLE_MEASUREMENT_COUNT, writer.written())
    } else if measurement_index > 10 {
        None
    } else {
        let digest = hash_all(hash_slot, measurement_hash_algo, FIRMWARE1.as_slice())?;
        let block = firmware_block(measurement_index as u8, &digest);

        let mut measurement_record_data = [0u8; 1024];
        let mut writer = Writer::init(&mut measurement_record_data);
        block.encode(&mut writer);
        assert(writer@ =~= block.spec_encode());
        SpdmMeasurementRecordStructure::new(1, writer.written())
    }
}

/// The summary hash of the sample device: an empty digest.
pub fn spdm_generate_measurement_summary_hash_impl(
    spdm_version: SpdmVersion,
    base_hash_algo: SpdmBaseHashAlgo,
    measurement_specification: SpdmMeasurementSpecification,
    measurement_hash_algo: SpdmBaseHashAlgo,
    measurement_summary_hash_type: SpdmMeasurementSummaryHashType,
) -> (r: Option<SpdmDigestStruct>)
    ensures
        r == Some(SpdmDigestStruct::spec_from_bytes(Seq::<u8>::empty())),
{
    Some(SpdmDigestStruct::default())
}

/// The requester's signature of the sample device, which has no key: an
/// empty signature.
pub fn spdm_requester_data_sign_impl(
    spdm_version: SpdmVersion,
    op_code: u8,
    req_base_asym_alg: SpdmReqAsymAlgo,
    base_hash_algo: SpdmBaseHashAlgo,
    is_data_hash: bool,
    message: &[u8],
    message_size: u8,
) -> (r: Option<SpdmSignatureStruct>)
    ensures
        r == Some(SpdmSignatureStruct::spec_from_bytes(Seq::<u8>::empty())),
{
    Some(SpdmSignatureStruct::default())
}

/// The responder's signature of the sample device, which has no key: an
/// empty signature.
pub fn spdm_responder_data_sign_impl(
    spdm_version: SpdmVersion,
    op_code: u8,
    req_base_asym_alg: SpdmReqAsymAlgo,
    base_hash_algo: SpdmBaseHashAlgo,
    is_data_hash: bool,
    message: &[u8],
    message_size: u8,
) -> (r: Option<SpdmSignatureStruct>)
    ensures
        r == Some(SpdmSignatureStruct::spec_from_bytes(Seq::<u8>::empty())),
{
    Some(SpdmSignatureStruct::default())
}

/// Keying material from the handshake secret of the sample device, which has
/// no pre-shared key: empty.
pub fn spdm_psk_handshake_secret_hkdf_expand_impl(
    spdm_version: SpdmVersion,
    base_hash_algo: SpdmBaseHashAlgo,
    psk_hint: &[u8],
    psk_hint_size: Option<usize>,
    info: Option<&[u8]>,
    info_size: Option<usize>,
) -> (r: Option<SpdmHKDFKeyStruct>)
    ensures
        r == Some(SpdmHKDFKeyStruct::spec_from_bytes(Seq::<u8>::empty())),
{
    Some(SpdmHKDFKeyStruct::default())
}

/// Keying material from the master secret of the sample device, which has no
/// pre-shared key: empty.
pub fn spdm_psk_master_secret_hkdf_expand_impl(
    spdm_version: SpdmVersion,
    base_hash_algo: SpdmBaseHashAlgo,
    psk_hint: &[u8],
    psk_hint_size: Option<usize>,
    info: Option<&[u8]>,
    info_size: Option<usize>,
) -> (r: Option<SpdmHKDFKeyStruct>)
    ensures
        r == Some(SpdmHKDFKeyStruct::spec_from_bytes(Seq::<u8>::empty())),
{
    Some(SpdmHKDFKeyStruct::default())
}

/// The sample device as a secret provider. It hashes its firmware with the
/// hash provider it is given.
pub struct SpdmSecretImplSample<H: SpdmHash> {
    pub hash: ProviderSlot<H>,
}

impl<H: SpdmHash> SpdmSecret for SpdmSecretImplSample<H> {
    /// The sample device has an empty summary hash.
    open spec fn measurement_summary_hash_value(
        &self,
        spdm_version: SpdmVersion,
        base_hash_algo: SpdmBaseHashAlgo,
        measurement_specification: SpdmMeasurementSpecification,
        measurement_hash_algo: SpdmBaseHashAlgo,
        measurement_summary_hash_type: SpdmMeasurementSummaryHashType,
    ) -> Option<SpdmDigestStruct> {
        Some(SpdmDigestStruct::spec_from_bytes(Seq::<u8>::empty()))
    }

    open spec fn measurement_collection_value(
        &self,
        spdm_version: SpdmVersion,
        measurement_specification: SpdmMeasurementSpecification,
        measurement_hash_algo: SpdmBaseHashAlgo,
        measurement_index: usize,
    ) -> Option<SpdmMeasurementRecordStructure> {
        spec_sample_measurement_collection(
            self.hash.provider(),
            measurement_specification,
            measurement_hash_algo,
            measurement_index,
        )
    }

    open spec fn psk_handshake_secret_hkdf_expand_value(
        &self,
        spdm_version: SpdmVersion,
        base_hash_algo: SpdmBaseHashAlgo,
        psk_hint: Seq<u8>,
        psk_hint_size: Option<usize>,
        info: Option<Seq<u8>>,
        info_size: Option<usize>,
    ) -> Option<SpdmHKDFKeyStruct> {
        Some(SpdmHKDFKeyStruct::spec_from_bytes(Seq::<u8>::empty()))
    }

    open spec fn psk_master_secret_hkdf_expand_value(
        &self,
        spdm_version: SpdmVersion,
        base_hash_algo: SpdmBaseHashAlgo,
        psk_hint: Seq<u8>,
        psk_hint_size: Option<usize>,
        info: Option<Seq<u8>>,
        info_size: Option<usize>,
    ) -> Option<SpdmHKDFKeyStruct> {
        Some(SpdmHKDFKeyStruct::spec_from_bytes(Seq::<u8>::empty()))
    }

    fn spdm_measurement_collection(
        &self,
        spdm_version: SpdmVersion,
        measurement_specification: SpdmMeasurementSpecification,
        measurement_hash_algo: SpdmBaseHashAlgo,
        measurement_index: usize,
    ) -> (r: Option<SpdmMeasurementRecordStructure>) {
        spdm_measurement_collection_impl(
            &self.hash,
            spdm_version,
            measurement_specification,
            measurement_hash_algo,
            measurement_index,
        )
    }

    fn spdm_generate_measurement_summary_hash(
        &self,
        spdm_version: SpdmVersion,
        base_hash_algo: SpdmBaseHashAlgo,
        measurement_specification: SpdmMeasurementSpecification,
        measurement_hash_algo: SpdmBaseHashAlgo,
        measurement_summary_hash_type: SpdmMeasurementSummaryHashType,
    ) -> (r: Option<SpdmDigestStruct>) {
        spdm_generate_measurement_summary_hash_impl(
            spdm_version,
            base_hash_algo,
            measurement_specification,
            measurement_hash_algo,
            measurement_summary_hash_type,
        )
    }

    /// The sample device has no key: its signature is empty.
    fn spdm_requester_data_sign(
        &self,
        spdm_version: SpdmVersion,
        op_code: u8,
        req_base_asym_alg: SpdmReqAsymAlgo,
        base_hash_algo: SpdmBaseHashAlgo,
        is_data_hash: bool,
        message: &[u8],
        message_size: u8,
    ) -> (r: Option<SpdmSignatureStruct>)
        ensures
            r == Some(SpdmSignatureStruct::spec_from_bytes(Seq::<u8>::empty())),
    {
        spdm_requester_data_sign_impl(
            spdm_version,
            op_code,
            req_base_asym_alg,
            base_hash_algo,
            is_data_hash,
            message,
            message_size,
        )
    }

    /// The sample device has no key: its signature is empty.
    fn spdm_responder_data_sign(
        &self,
        spdm_version: SpdmVersion,
        op_code: u8,
        req_base_asym_alg: SpdmReqAsymAlgo,
        base_hash_algo: SpdmBaseHashAlgo,
        is_data_hash: bool,
        message: &[u8],
        message_size: u8,
    ) -> (r: Option<SpdmSignatureStruct>)
        ensures
            r == Some(SpdmSignatureStruct::spec_from_bytes(Seq::<u8>::empty())),
    {
        spdm_responder_data_sign_impl(
            spdm_version,
            op_code,
            req_base_asym_alg,
            base_hash_algo,
            is_data_hash,
            message,
            message_size,
        )
    }

    fn spdm_psk_handshake_secret_hkdf_expand(
        &self,
        spdm_version: SpdmVersion,
        base_hash_algo: SpdmBaseHashAlgo,
        psk_hint: &[u8],
        psk_hint_size: Option<usize>,
        info: Option<&[u8]>,
        info_size: Option<usize>,
    ) -> (r: Option<SpdmHKDFKeyStruct>) {
        spdm_psk_handshake_secret_hkdf_expand_impl(
            spdm_version,
            base_hash_algo,
            psk_hint,
            psk_hint_size,
            info,
            info_size,
        )
    }

    fn spdm_psk_master_secret_hkdf_expand(
        &self,
        spdm_version: SpdmVersion,
        base_hash_algo: SpdmBaseHashAlgo,
        psk_hint: &[u8],
        psk_hint_size: Option<usize>,
        info: Option<&[u8]>,
        info_size: Option<usize>,
    ) -> (r: Option<SpdmHKDFKeyStruct>) {
        spdm_psk_master_secret_hkdf_expand_impl(
            spdm_version,
            base_hash_algo,
            psk_hint,
            psk_hint_size,
            info,
            info_size,
        )
    }
}

} // verus!
