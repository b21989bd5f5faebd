use spdmlib::codec::{read_bytes, Codec, Writer};
use spdmlib::crypto;
use spdmlib::crypto::spdm_ring;
use spdmlib::crypto::ProviderSlot;
use spdmlib::protocol::{
    SpdmBaseHashAlgo, SpdmDmtfMeasurementRepresentation, SpdmDmtfMeasurementStructure,
    SpdmDmtfMeasurementType, SpdmMeasurementBlockStructure, SpdmMeasurementOperation,
    SpdmMeasurementRecordStructure, SpdmMeasurementSpecification, SpdmMeasurementSummaryHashType,
    SpdmReqAsymAlgo, SpdmVersion,
};
use spdmlib::secret::secret_impl_sample::{
    spdm_generate_measurement_summary_hash_impl, spdm_measurement_collection_impl,
    spdm_psk_handshake_secret_hkdf_expand_impl, spdm_psk_master_secret_hkdf_expand_impl,
    spdm_requester_data_sign_impl, spdm_responder_data_sign_impl, SpdmSecretImplSample,
};
use spdmlib::secret::{register, spdm_measurement_collection};

type Hash = spdm_ring::hash_impl::SpdmRingHash;

fn hash_slot() -> ProviderSlot<Hash> {
    let mut slot = ProviderSlot::empty();
    assert!(crypto::hash::register(&mut slot, spdm_ring::hash_impl::DEFAULT));
    slot
}

fn secret_slot() -> ProviderSlot<SpdmSecretImplSample<Hash>> {
    let mut slot = ProviderSlot::empty();
    let reg_result = register(&mut slot, SpdmSecretImplSample { hash: hash_slot() });
    assert_eq!(reg_result, true);
    slot
}

const DEADBEEF_SHA512: [u8; 64] = [
    17, 58, 59, 199, 131, 216, 81, 252, 3, 115, 33, 75, 25, 234, 123, 233, 250, 61, 229, 65, 236,
    185, 254, 2, 109, 82, 198, 3, 232, 234, 25, 193, 116, 204, 14, 151, 5, 248, 185, 13, 49, 34,
    18, 192, 195, 166, 216, 69, 61, 223, 179, 227, 20, 20, 9, 207, 75, 237, 200, 239, 3, 53, 144,
    180,
];

#[test]
fn test_case0_spdm_measurement_collection() {
    let mut slot = ProviderSlot::empty();
    let reg_result = register(&mut slot, SpdmSecretImplSample { hash: hash_slot() });
    assert_eq!(reg_result, true);

    let records = spdm_measurement_collection(
        &slot,
        SpdmVersion::SpdmVersion11,
        SpdmMeasurementSpecification::DMTF,
        SpdmBaseHashAlgo::TPM_ALG_SHA_512,
        1,
    );
    let deadbeefsha512 = [
        17, 58, 59, 199, 131, 216, 81, 252, 3, 115, 33, 75, 25, 234, 123, 233, 250, 61, 229, 65,
        236, 185, 254, 2, 109, 82, 198, 3, 232, 234, 25, 193, 116, 204, 14, 151, 5, 248, 185, 13,
        49, 34, 18, 192, 195, 166, 216, 69, 61, 223, 179, 227, 20, 20, 9, 207, 75, 237, 200, 239,
        3, 53, 144, 180,
    ];

    match records {
        Some(v) => {
            let spdm_measurement_block_structure =
                read_bytes::<SpdmMeasurementBlockStructure>(&v.measurement_record_data).unwrap();
            assert_eq!(deadbeefsha512, &spdm_measurement_block_structure.measurement.value[0..64]);
        }
        None => {
            assert!(false)
        }
    }
}

#[test]
fn one_block_is_reported_under_its_index() {
    let slot = secret_slot();
    for index in 1..=10usize {
        let record = spdm_measurement_collection(
            &slot,
            SpdmVersion::SpdmVersion12,
            SpdmMeasurementSpecification::DMTF,
            SpdmBaseHashAlgo::TPM_ALG_SHA_512,
            index,
        )
        .unwrap();
        assert_eq!(record.number_of_blocks, 1);
        assert_eq!(record.measurement_record_length.get(), 4 + 3 + 64);
        let mut expected = vec![index as u8, 0x01, 67, 0, 0x01, 64, 0];
        expected.extend_from_slice(&DEADBEEF_SHA512);
        assert_eq!(&record.measurement_record_data[..71], &expected[..]);
        assert!(record.measurement_record_data[71..].iter().all(|b| *b == 0));
    }
}

#[test]
fn the_number_of_blocks_is_ten() {
    let record = spdm_measurement_collection_impl(
        &hash_slot(),
        SpdmVersion::SpdmVersion12,
        SpdmMeasurementSpecification::DMTF,
        SpdmBaseHashAlgo::TPM_ALG_SHA_384,
        SpdmMeasurementOperation::SpdmMeasurementQueryTotalNumber.get_u8() as usize,
    )
    .unwrap();
    assert_eq!(record.number_of_blocks, 10);
    assert_eq!(record.measurement_record_length.get(), 0);
    assert!(record.measurement_record_data.iter().all(|b| *b == 0));
    // the count needs no hash
    let without: ProviderSlot<Hash> = ProviderSlot::empty();
    assert!(spdm_measurement_collection_impl(
        &without,
        SpdmVersion::SpdmVersion12,
        SpdmMeasurementSpecification::DMTF,
        SpdmBaseHashAlgo::TPM_ALG_SHA_384,
        0,
    )
    .is_some());
}

#[test]
fn all_blocks_are_ten_copies_under_the_index_ff() {
    let record = spdm_measurement_collection_impl(
        &hash_slot(),
        SpdmVersion::SpdmVersion12,
        SpdmMeasurementSpecification::DMTF,
        SpdmBaseHashAlgo::TPM_ALG_SHA_256,
        SpdmMeasurementOperation::SpdmMeasurementRequestAll.get_u8() as usize,
    )
    .unwrap();
    assert_eq!(record.number_of_blocks, 10);
    assert_eq!(record.measurement_record_length.get(), 10 * (4 + 3 + 32));
    let digest = ring::digest::digest(&ring::digest::SHA256, b"deadbeef");
    let mut block = vec![0xffu8, 0x01, 35, 0, 0x01, 32, 0];
    block.extend_from_slice(digest.as_ref());
    for i in 0..10 {
        assert_eq!(&record.measurement_record_data[i * 39..(i + 1) * 39], &block[..]);
    }
    assert!(record.measurement_record_data[390..].iter().all(|b| *b == 0));
}

#[test]
fn nothing_is_reported_for_other_requests() {
    let hash = hash_slot();
    let algo = SpdmBaseHashAlgo::TPM_ALG_SHA_384;
    let version = SpdmVersion::SpdmVersion12;
    assert!(spdm_measurement_collection_impl(&hash, version, SpdmMeasurementSpecification::NONE, algo, 1)
        .is_none());
    assert!(spdm_measurement_collection_impl(&hash, version, SpdmMeasurementSpecification::DMTF, algo, 11)
        .is_none());
    assert!(spdm_measurement_collection_impl(&hash, version, SpdmMeasurementSpecification::DMTF, algo, 254)
        .is_none());
    assert!(spdm_measurement_collection_impl(&hash, version, SpdmMeasurementSpecification::DMTF, algo, 256)
        .is_none());
    let without: ProviderSlot<Hash> = ProviderSlot::empty();
    assert!(spdm_measurement_collection_impl(&without, version, SpdmMeasurementSpecification::DMTF, algo, 1)
        .is_none());
    assert!(spdm_measurement_collection_impl(
        &without,
        version,
        SpdmMeasurementSpecification::DMTF,
        algo,
        0xff
    )
    .is_none());
    let unregistered: ProviderSlot<SpdmSecretImplSample<Hash>> = ProviderSlot::empty();
    assert!(spdm_measurement_collection(&unregistered, version, SpdmMeasurementSpecification::DMTF, algo, 1)
        .is_none());
}

#[test]
fn the_sample_has_no_keys() {
    let version = SpdmVersion::SpdmVersion12;
    let algo = SpdmBaseHashAlgo::TPM_ALG_SHA_384;
    let digest = spdm_generate_measurement_summary_hash_impl(
        version,
        algo,
        SpdmMeasurementSpecification::DMTF,
        algo,
        SpdmMeasurementSummaryHashType::SpdmMeasurementSummaryHashTypeAll,
    )
    .unwrap();
    assert_eq!(digest.data_size, 0);
    let asym = SpdmReqAsymAlgo::TPM_ALG_RSAPSS_2048;
    assert_eq!(
        spdm_requester_data_sign_impl(version, 0xe5, asym, algo, false, b"message", 7).unwrap().data_size,
        0
    );
    assert_eq!(
        spdm_responder_data_sign_impl(version, 0x64, asym, algo, true, b"message", 7).unwrap().data_size,
        0
    );
    assert_eq!(
        spdm_psk_handshake_secret_hkdf_expand_impl(version, algo, b"hint", Some(4), Some(b"info"), Some(4))
            .unwrap()
            .data_size,
        0
    );
    assert_eq!(
        spdm_psk_master_secret_hkdf_expand_impl(version, algo, b"hint", None, None, None)
            .unwrap()
            .data_size,
        0
    );
    // an empty signature has not the length of any algorithm, so the entry point refuses it
    let slot = secret_slot();
    assert!(spdmlib::secret::spdm_requester_data_sign(&slot, version, 0xe5, asym, algo, false, b"m", 1)
        .is_none());
    assert!(spdmlib::secret::spdm_responder_data_sign(&slot, version, 0x64, asym, algo, false, b"m", 1)
        .is_none());
    assert_eq!(
        spdmlib::secret::spdm_psk_master_secret_hkdf_expand(&slot, version, algo, b"h", None, None, None)
            .unwrap()
            .data_size,
        0
    );
    assert_eq!(
        spdmlib::secret::spdm_psk_handshake_secret_hkdf_expand(
            &slot, version, algo, b"h", None, None, None
        )
        .unwrap()
        .data_size,
        0
    );
    assert_eq!(
        spdmlib::secret::spdm_generate_measurement_summary_hash(
            &slot,
            version,
            algo,
            SpdmMeasurementSpecification::DMTF,
            algo,
            SpdmMeasurementSummaryHashType::SpdmMeasurementSummaryHashTypeTcb
        )
        .unwrap()
        .data_size,
        0
    );
}

#[test]
fn a_measurement_block_round_trips() {
    let value = [0xabu8; 5];
    let measurement = SpdmDmtfMeasurementStructure::new(
        SpdmDmtfMeasurementType::SpdmDmtfMeasurementManifest,
        SpdmDmtfMeasurementRepresentation::SpdmDmtfMeasurementRawBit,
        &value,
    )
    .unwrap();
    let block = SpdmMeasurementBlockStructure {
        index: 3,
        measurement_specification: SpdmMeasurementSpecification::DMTF,
        measurement_size: 8,
        measurement,
    };
    let bytes = &mut [0u8; 16];
    let mut writer = Writer::init(bytes);
    block.encode(&mut writer);
    assert_eq!(writer.used(), 12);
    assert_eq!(&bytes[..12], &[3, 1, 8, 0, 0x84, 5, 0, 0xab, 0xab, 0xab, 0xab, 0xab]);

    let read = read_bytes::<SpdmMeasurementBlockStructure>(&bytes[..12]).unwrap();
    assert_eq!(read.index, 3);
    assert_eq!(read.measurement_specification, SpdmMeasurementSpecification::DMTF);
    assert_eq!(read.measurement_size, 8);
    assert_eq!(read.measurement.measurement_type, SpdmDmtfMeasurementType::SpdmDmtfMeasurementManifest);
    assert_eq!(
        read.measurement.representation,
        SpdmDmtfMeasurementRepresentation::SpdmDmtfMeasurementRawBit
    );
    assert_eq!(read.measurement.value_size, 5);
    assert_eq!(read.measurement.value, measurement.value);
}

#[test]
fn malformed_measurement_blocks_are_refused() {
    let good = [3u8, 1, 8, 0, 0x84, 5, 0, 1, 2, 3, 4, 5];
    assert!(read_bytes::<SpdmMeasurementBlockStructure>(&good).is_some());
    // cut short
    assert!(read_bytes::<SpdmMeasurementBlockStructure>(&good[..11]).is_none());
    assert!(read_bytes::<SpdmMeasurementBlockStructure>(&good[..3]).is_none());
    // another specification
    let mut bad = good;
    bad[1] = 2;
    assert!(read_bytes::<SpdmMeasurementBlockStructure>(&bad).is_none());
    bad[1] = 0;
    assert!(read_bytes::<SpdmMeasurementBlockStructure>(&bad).is_none());
    // a size that does not count type, value size and value
    let mut bad = good;
    bad[2] = 9;
    assert!(read_bytes::<SpdmMeasurementBlockStructure>(&bad).is_none());
    // a type that is not defined
    let mut bad = good;
    bad[4] = 0x85;
    assert!(read_bytes::<SpdmMeasurementBlockStructure>(&bad).is_none());
    // a value larger than its buffer
    assert!(read_bytes::<SpdmDmtfMeasurementStructure>(&[0x01, 0x01, 0x04]).is_none());
    assert!(SpdmDmtfMeasurementStructure::new(
        SpdmDmtfMeasurementType::SpdmDmtfMeasurementRom,
        SpdmDmtfMeasurementRepresentation::SpdmDmtfMeasurementDigest,
        &[0u8; 1025],
    )
    .is_none());
    assert!(SpdmMeasurementRecordStructure::new(1, &[0u8; 1025]).is_none());
    assert_eq!(SpdmMeasurementRecordStructure::new(2, &[7u8; 1024]).unwrap().measurement_record_length.get(), 1024);
    assert_eq!(SpdmMeasurementRecordStructure::default().number_of_blocks, 0);
}
