use spdmlib::codec::{Reader, Writer};
use spdmlib::common::spdm_codec::SpdmCodec;
use spdmlib::common::SpdmContext;
use spdmlib::error::SpdmError;
use spdmlib::message::{
    next_certificate_request, note_capabilities, take_certificate_portion, SpdmCapabilities,
    SpdmCapabilitiesResponsePayload, SpdmCertificateResponsePayload,
    SpdmChallengeAuthResponsePayload, SpdmChallengeRequestPayload,
    SpdmGetCapabilitiesRequestPayload, SpdmGetCertificateRequestPayload,
    SpdmGetMeasurementsRequestPayload, SpdmMeasurementContentChanged,
    SpdmMeasurementsResponsePayload,
};
use spdmlib::protocol::capability::{
    ALIAS_CERT_CAP, CACHE_CAP, CERT_CAP, CHAL_CAP, ENCRYPT_CAP, KEY_EX_CAP, MAC_CAP,
    MEAS_CAP_SIG,
};
use spdmlib::protocol::{
    SpdmBaseAsymAlgo, SpdmBaseHashAlgo, SpdmCertChainData, SpdmCertChainPortion, SpdmDigestStruct,
    SpdmMeasurementOperation, SpdmMeasurementRecordStructure, SpdmMeasurementSummaryHashType,
    SpdmOpaqueStruct, SpdmSignatureStruct, SpdmVersion,
};

fn encode<T: SpdmCodec>(context: &mut SpdmContext, value: &T, capacity: usize) -> Vec<u8> {
    let mut buffer = vec![0xeeu8; capacity];
    let mut writer = Writer::init(&mut buffer);
    value.spdm_encode(context, &mut writer);
    let used = writer.used();
    buffer[..used].to_vec()
}

fn decode<T: SpdmCodec>(context: &mut SpdmContext, bytes: &[u8]) -> Option<(T, usize)> {
    let mut reader = Reader::init(bytes);
    let value = T::spdm_read(context, &mut reader)?;
    Some((value, reader.used()))
}

fn context(version: SpdmVersion) -> SpdmContext {
    let mut context = SpdmContext::new();
    context.negotiate_info.spdm_version_sel = version;
    context.negotiate_info.base_hash_sel = SpdmBaseHashAlgo::TPM_ALG_SHA_256;
    context.negotiate_info.base_asym_sel = SpdmBaseAsymAlgo::TPM_ALG_ECDSA_ECC_NIST_P256;
    context
}

#[test]
fn capabilities_grow_with_the_version() {
    let capabilities = SpdmCapabilities {
        ct_exponent: 12,
        flags: CERT_CAP | CHAL_CAP | ENCRYPT_CAP | MAC_CAP | KEY_EX_CAP,
        data_transfer_size: 0x1200,
        max_spdm_msg_size: 0x0001_0000,
    };
    let request = SpdmGetCapabilitiesRequestPayload { capabilities };
    let response = SpdmCapabilitiesResponsePayload { capabilities };

    let mut v12 = context(SpdmVersion::SpdmVersion12);
    let wire = encode(&mut v12, &request, 32);
    assert_eq!(wire, [0, 0, 0, 12, 0, 0, 0xc6, 0x02, 0, 0, 0x00, 0x12, 0, 0, 0, 0, 1, 0]);
    assert_eq!(decode::<SpdmGetCapabilitiesRequestPayload>(&mut v12, &wire), Some((request, 18)));
    assert_eq!(encode(&mut v12, &response, 32), wire);
    assert_eq!(decode::<SpdmCapabilitiesResponsePayload>(&mut v12, &wire), Some((response, 18)));

    let without_sizes = SpdmCapabilities { data_transfer_size: 0, max_spdm_msg_size: 0, ..capabilities };
    let mut v11 = context(SpdmVersion::SpdmVersion11);
    let request = SpdmGetCapabilitiesRequestPayload { capabilities: without_sizes };
    let wire = encode(&mut v11, &request, 32);
    assert_eq!(wire, [0, 0, 0, 12, 0, 0, 0xc6, 0x02, 0, 0]);
    assert_eq!(decode::<SpdmGetCapabilitiesRequestPayload>(&mut v11, &wire), Some((request, 10)));

    // a request of the first version says nothing, its response does
    let mut v10 = context(SpdmVersion::SpdmVersion10);
    let nothing = SpdmCapabilities { ct_exponent: 0, flags: 0, data_transfer_size: 0, max_spdm_msg_size: 0 };
    let request = SpdmGetCapabilitiesRequestPayload { capabilities: nothing };
    assert_eq!(encode(&mut v10, &request, 32), [0, 0]);
    assert_eq!(decode::<SpdmGetCapabilitiesRequestPayload>(&mut v10, &wire), Some((request, 2)));
    let response = SpdmCapabilitiesResponsePayload { capabilities: without_sizes };
    assert_eq!(encode(&mut v10, &response, 32), wire);
    assert_eq!(decode::<SpdmCapabilitiesResponsePayload>(&mut v10, &wire), Some((response, 10)));
}

#[test]
fn capabilities_with_reserved_bits_or_bad_sizes_are_refused() {
    let mut v12 = context(SpdmVersion::SpdmVersion12);
    let good = [0u8, 0, 0, 12, 0, 0, 0xc6, 0x02, 0, 0, 42, 0, 0, 0, 42, 0, 0, 0];
    assert!(decode::<SpdmGetCapabilitiesRequestPayload>(&mut v12, &good).is_some());
    assert!(decode::<SpdmGetCapabilitiesRequestPayload>(&mut v12, &good[..17]).is_none());

    // the largest transfer is too small, or larger than the largest message
    let mut small = good;
    small[10] = 41;
    assert_eq!(decode::<SpdmGetCapabilitiesRequestPayload>(&mut v12, &small), None);
    let mut larger = good;
    larger[10] = 43;
    assert_eq!(decode::<SpdmGetCapabilitiesRequestPayload>(&mut v12, &larger), None);

    // a requester measures nothing and caches nothing; a responder may
    for bit in [CACHE_CAP, MEAS_CAP_SIG, ALIAS_CERT_CAP] {
        let mut flags = good;
        flags[6..10].copy_from_slice(&bit.to_le_bytes());
        assert_eq!(decode::<SpdmGetCapabilitiesRequestPayload>(&mut v12, &flags), None);
        assert!(decode::<SpdmCapabilitiesResponsePayload>(&mut v12, &flags).is_some());
    }
    let mut reserved = good;
    reserved[8] = 0x08;
    assert_eq!(decode::<SpdmCapabilitiesResponsePayload>(&mut v12, &reserved), None);
    // reserved bytes are not looked at
    let mut ignored = good;
    ignored[0] = 0xaa;
    ignored[2] = 0xbb;
    ignored[5] = 0xcc;
    assert!(decode::<SpdmGetCapabilitiesRequestPayload>(&mut v12, &ignored).is_some());
}

#[test]
fn what_both_sides_can_do_is_noted() {
    let mut context = context(SpdmVersion::SpdmVersion11);
    let request = SpdmGetCapabilitiesRequestPayload {
        capabilities: SpdmCapabilities { ct_exponent: 3, flags: KEY_EX_CAP, data_transfer_size: 0, max_spdm_msg_size: 0 },
    };
    let response = SpdmCapabilitiesResponsePayload {
        capabilities: SpdmCapabilities {
            ct_exponent: 9,
            flags: KEY_EX_CAP | MEAS_CAP_SIG,
            data_transfer_size: 0,
            max_spdm_msg_size: 0,
        },
    };
    note_capabilities(&mut context, &request, &response);
    assert_eq!(context.negotiate_info.req_ct_exponent_sel, 3);
    assert_eq!(context.negotiate_info.req_capabilities_sel, KEY_EX_CAP);
    assert_eq!(context.negotiate_info.rsp_ct_exponent_sel, 9);
    assert_eq!(context.negotiate_info.rsp_capabilities_sel, KEY_EX_CAP | MEAS_CAP_SIG);
    assert_eq!(context.negotiate_info.spdm_version_sel, SpdmVersion::SpdmVersion11);
}

#[test]
fn a_certificate_exchange_round_trips() {
    let mut context = context(SpdmVersion::SpdmVersion12);
    let request = SpdmGetCertificateRequestPayload { slot_id: 1, offset: 0x0200, length: 0x0200 };
    let wire = encode(&mut context, &request, 16);
    assert_eq!(wire, [1, 0, 0x00, 0x02, 0x00, 0x02]);
    assert_eq!(decode::<SpdmGetCertificateRequestPayload>(&mut context, &wire), Some((request, 6)));
    assert_eq!(decode::<SpdmGetCertificateRequestPayload>(&mut context, &wire[..5]), None);
    assert_eq!(decode::<SpdmGetCertificateRequestPayload>(&mut context, &[8, 0, 0, 0, 0, 0]), None);

    let response = SpdmCertificateResponsePayload {
        slot_id: 1,
        remainder_length: 0x0300,
        portion: SpdmCertChainPortion::from_bytes(&[0x30, 0x82, 0x01, 0x02]).unwrap(),
    };
    let wire = encode(&mut context, &response, 16);
    assert_eq!(wire, [1, 0, 4, 0, 0x00, 0x03, 0x30, 0x82, 0x01, 0x02]);
    let (received, used) = decode::<SpdmCertificateResponsePayload>(&mut context, &wire).unwrap();
    assert_eq!(used, 10);
    assert_eq!(received.slot_id, 1);
    assert_eq!(received.remainder_length, 0x0300);
    assert_eq!(received.portion.as_ref(), &[0x30, 0x82, 0x01, 0x02]);
    assert_eq!(received.portion.data, response.portion.data);
    assert!(decode::<SpdmCertificateResponsePayload>(&mut context, &wire[..9]).is_none());
    // a portion of more than 512 bytes
    let mut large = vec![1u8, 0, 0x01, 0x02, 0, 0];
    large.resize(6 + 513, 0x55);
    assert!(decode::<SpdmCertificateResponsePayload>(&mut context, &large).is_none());
    large[2] = 0;
    assert!(decode::<SpdmCertificateResponsePayload>(&mut context, &large).is_some());
    assert!(SpdmCertChainPortion::from_bytes(&[0; 513]).is_none());
}

#[test]
fn a_certificate_chain_arrives_in_portions() {
    let sent: Vec<u8> = (0..1200u32).map(|i| (i % 251) as u8).collect();
    let mut chain = SpdmCertChainData::default();
    let mut rounds = 0;
    loop {
        let request = next_certificate_request(&chain, 2);
        assert_eq!(request.slot_id, 2);
        assert_eq!(request.offset as usize, rounds * 512);
        assert_eq!(request.length, 512);
        // the responder cuts the portion out of its chain
        let from = request.offset as usize;
        let to = usize::min(from + request.length as usize, sent.len());
        let response = SpdmCertificateResponsePayload {
            slot_id: 2,
            remainder_length: (sent.len() - to) as u16,
            portion: SpdmCertChainPortion::from_bytes(&sent[from..to]).unwrap(),
        };
        rounds += 1;
        match take_certificate_portion(&mut chain, &request, &response) {
            Ok(true) => break,
            Ok(false) => assert!(rounds < 3),
            Err(error) => panic!("{error:?}"),
        }
    }
    assert_eq!(rounds, 3);
    assert_eq!(chain.as_ref(), &sent[..]);
}

#[test]
fn portions_that_do_not_answer_the_request_are_refused() {
    let mut chain = SpdmCertChainData::from_bytes(&[7u8; 100]).unwrap();
    let request = SpdmGetCertificateRequestPayload { slot_id: 0, offset: 100, length: 16 };
    let portion = |bytes: &[u8], slot_id: u8, remainder_length: u16| SpdmCertificateResponsePayload {
        slot_id,
        remainder_length,
        portion: SpdmCertChainPortion::from_bytes(bytes).unwrap(),
    };
    let refused = [
        (portion(&[1; 16], 1, 0), SpdmError::InvalidMsgField),
        (portion(&[], 0, 0), SpdmError::InvalidMsgField),
        (portion(&[1; 17], 0, 0), SpdmError::InvalidMsgField),
        (portion(&[1; 16], 0, 0x1000 - 115), SpdmError::InvalidCertChain),
    ];
    for (response, error) in refused {
        assert_eq!(take_certificate_portion(&mut chain, &request, &response), Err(error));
        assert_eq!(chain.as_ref(), &[7u8; 100][..]);
    }
    // the largest chain: 4096 bytes
    assert_eq!(take_certificate_portion(&mut chain, &request, &portion(&[1; 16], 0, 0x1000 - 116)), Ok(false));
    assert_eq!(chain.data_size, 116);

    let mut full = SpdmCertChainData::from_bytes(&[7u8; 0x1000 - 8]).unwrap();
    let request = next_certificate_request(&full, 0);
    assert_eq!(
        take_certificate_portion(&mut full, &request, &portion(&[1; 9], 0, 0)),
        Err(SpdmError::InvalidCertChain)
    );
    assert_eq!(take_certificate_portion(&mut full, &request, &portion(&[1; 8], 0, 0)), Ok(true));
    assert_eq!(full.data_size, 0x1000);
}

#[test]
fn a_challenge_round_trips() {
    let mut context = context(SpdmVersion::SpdmVersion12);
    let mut nonce = [0u8; 32];
    for (i, byte) in nonce.iter_mut().enumerate() {
        *byte = 0xe0 ^ i as u8;
    }
    let request = SpdmChallengeRequestPayload {
        slot_id: 0xff,
        measurement_summary_hash_type: SpdmMeasurementSummaryHashType::SpdmMeasurementSummaryHashTypeAll,
        nonce,
    };
    let wire = encode(&mut context, &request, 64);
    assert_eq!(wire.len(), 34);
    assert_eq!(&wire[..2], &[0xff, 0xff]);
    assert_eq!(&wire[2..], &nonce[..]);
    let (received, used) = decode::<SpdmChallengeRequestPayload>(&mut context, &wire).unwrap();
    assert_eq!(used, 34);
    assert_eq!(received.slot_id, 0xff);
    assert_eq!(received.measurement_summary_hash_type, request.measurement_summary_hash_type);
    assert_eq!(received.nonce, nonce);

    for (at, value) in [(0usize, 8u8), (0, 0xfe), (1, 2), (1, 0xfe)] {
        let mut bad = wire.clone();
        bad[at] = value;
        assert!(decode::<SpdmChallengeRequestPayload>(&mut context, &bad).is_none());
    }
    assert!(decode::<SpdmChallengeRequestPayload>(&mut context, &wire[..33]).is_none());
}

fn challenge_auth(summary: bool) -> SpdmChallengeAuthResponsePayload {
    SpdmChallengeAuthResponsePayload {
        slot_id: 3,
        basic_mut_auth_req: true,
        slot_mask: 0x09,
        cert_chain_hash: SpdmDigestStruct::from_bytes(&[0xcc; 32]).unwrap(),
        nonce: [0x4e; 32],
        measurement_summary_hash: if summary { Some(SpdmDigestStruct::from_bytes(&[0x55; 32]).unwrap()) } else { None },
        opaque: SpdmOpaqueStruct::from_bytes(&[1, 2, 3, 4]).unwrap(),
        signature: SpdmSignatureStruct::from_bytes(&[0x51; 64]).unwrap(),
    }
}

#[test]
fn a_challenge_auth_round_trips() {
    let mut context = context(SpdmVersion::SpdmVersion12);
    let sent = challenge_auth(false);
    let wire = encode(&mut context, &sent, 256);
    assert_eq!(wire.len(), 2 + 32 + 32 + 2 + 4 + 64);
    assert_eq!(&wire[..2], &[0x83, 0x09]);
    assert_eq!(&wire[2..34], &[0xcc; 32][..]);
    assert_eq!(&wire[34..66], &[0x4e; 32][..]);
    assert_eq!(&wire[66..72], &[4, 0, 1, 2, 3, 4]);
    assert_eq!(&wire[72..], &[0x51; 64][..]);
    let (received, used) = decode::<SpdmChallengeAuthResponsePayload>(&mut context, &wire).unwrap();
    assert_eq!(used, wire.len());
    assert_eq!(received.slot_id, 3);
    assert!(received.basic_mut_auth_req);
    assert_eq!(received.slot_mask, 0x09);
    assert_eq!(received.cert_chain_hash.data, sent.cert_chain_hash.data);
    assert_eq!(received.nonce, sent.nonce);
    assert!(received.measurement_summary_hash.is_none());
    assert_eq!(received.opaque.as_ref(), &[1, 2, 3, 4]);
    assert_eq!(received.signature.as_ref(), &[0x51; 64][..]);

    context.runtime_info.need_measurement_summary_hash = true;
    let sent = challenge_auth(true);
    let wire = encode(&mut context, &sent, 256);
    assert_eq!(wire.len(), 2 + 32 + 32 + 32 + 2 + 4 + 64);
    assert_eq!(&wire[66..98], &[0x55; 32][..]);
    let (received, used) = decode::<SpdmChallengeAuthResponsePayload>(&mut context, &wire).unwrap();
    assert_eq!(used, wire.len());
    assert_eq!(received.measurement_summary_hash.unwrap().as_ref(), &[0x55; 32][..]);
    assert_eq!(received.signature.as_ref(), &[0x51; 64][..]);
}

#[test]
fn the_attributes_of_a_challenge_auth_name_the_slot() {
    let mut context = context(SpdmVersion::SpdmVersion12);
    let wire = encode(&mut context, &challenge_auth(false), 256);
    for (attributes, slot_id, basic) in
        [(0x00u8, 0u8, false), (0x07, 7, false), (0x0f, 0xff, false), (0x80, 0, true), (0x8f, 0xff, true)]
    {
        let mut good = wire.clone();
        good[0] = attributes;
        let (received, _) = decode::<SpdmChallengeAuthResponsePayload>(&mut context, &good).unwrap();
        assert_eq!((received.slot_id, received.basic_mut_auth_req), (slot_id, basic));
        assert_eq!(encode(&mut context, &received, 256), good);
    }
    for attributes in [0x08u8, 0x0e, 0x10, 0x47, 0x88, 0xf0, 0xff] {
        let mut bad = wire.clone();
        bad[0] = attributes;
        assert!(decode::<SpdmChallengeAuthResponsePayload>(&mut context, &bad).is_none(), "{attributes:x}");
    }
    for length in [0usize, 1, 67, 71, wire.len() - 1] {
        assert!(decode::<SpdmChallengeAuthResponsePayload>(&mut context, &wire[..length]).is_none());
    }
}

#[test]
fn a_get_measurements_request_grows_with_what_it_asks_for() {
    let mut v12 = context(SpdmVersion::SpdmVersion12);
    let plain = SpdmGetMeasurementsRequestPayload {
        signature_requested: false,
        raw_bit_stream_requested: false,
        measurement_operation: SpdmMeasurementOperation::SpdmMeasurementQueryTotalNumber,
        nonce: [0; 32],
        slot_id: 0,
    };
    assert_eq!(encode(&mut v12, &plain, 64), [0, 0]);
    let all = SpdmGetMeasurementsRequestPayload {
        raw_bit_stream_requested: true,
        measurement_operation: SpdmMeasurementOperation::SpdmMeasurementRequestAll,
        ..plain
    };
    assert_eq!(encode(&mut v12, &all, 64), [2, 0xff]);
    let (read, used) = decode::<SpdmGetMeasurementsRequestPayload>(&mut v12, &[2, 0xff, 1, 2, 3]).unwrap();
    assert_eq!(used, 2);
    assert!(!read.signature_requested);
    assert!(read.raw_bit_stream_requested);
    assert_eq!(read.measurement_operation, SpdmMeasurementOperation::SpdmMeasurementRequestAll);
    assert_eq!(read.nonce, [0; 32]);

    let signed = SpdmGetMeasurementsRequestPayload {
        signature_requested: true,
        raw_bit_stream_requested: false,
        measurement_operation: SpdmMeasurementOperation::Unknown(5),
        nonce: [0x6e; 32],
        slot_id: 7,
    };
    let wire = encode(&mut v12, &signed, 64);
    assert_eq!(wire.len(), 35);
    assert_eq!(&wire[..2], &[1, 5]);
    assert_eq!(&wire[2..34], &[0x6e; 32][..]);
    assert_eq!(wire[34], 7);
    let (read, used) = decode::<SpdmGetMeasurementsRequestPayload>(&mut v12, &wire).unwrap();
    assert_eq!(used, 35);
    assert!(read.signature_requested);
    assert_eq!(read.measurement_operation, SpdmMeasurementOperation::Unknown(5));
    assert_eq!(read.nonce, [0x6e; 32]);
    assert_eq!(read.slot_id, 7);

    // the first version names no slot
    let mut v10 = context(SpdmVersion::SpdmVersion10);
    let wire10 = encode(&mut v10, &SpdmGetMeasurementsRequestPayload { slot_id: 0, ..signed }, 64);
    assert_eq!(wire10, &wire[..34]);
    let (read, used) = decode::<SpdmGetMeasurementsRequestPayload>(&mut v10, &wire).unwrap();
    assert_eq!((used, read.slot_id), (34, 0));

    // reserved attributes, a slot that is none, a cut
    for (at, value) in [(0usize, 4u8), (0, 0x81), (34, 8), (34, 0x1f)] {
        let mut bad = wire.clone();
        bad[at] = value;
        assert!(decode::<SpdmGetMeasurementsRequestPayload>(&mut v12, &bad).is_none(), "{at}");
    }
    assert!(decode::<SpdmGetMeasurementsRequestPayload>(&mut v12, &wire[..34]).is_none());
    assert!(decode::<SpdmGetMeasurementsRequestPayload>(&mut v12, &wire[..1]).is_none());
    let mut provisioned = wire.clone();
    provisioned[34] = 0xf;
    assert!(decode::<SpdmGetMeasurementsRequestPayload>(&mut v12, &provisioned).is_some());
}

fn measurements(signature: bool) -> SpdmMeasurementsResponsePayload {
    SpdmMeasurementsResponsePayload {
        number_of_measurement: 0,
        slot_id: 2,
        content_changed: SpdmMeasurementContentChanged::NoChange,
        measurement_record: SpdmMeasurementRecordStructure::new(1, &[1, 1, 4, 0, 0x81, 1, 0, 0x5a]).unwrap(),
        nonce: [0x0e; 32],
        opaque: SpdmOpaqueStruct::from_bytes(&[9]).unwrap(),
        signature: if signature { Some(SpdmSignatureStruct::from_bytes(&[0x51; 64]).unwrap()) } else { None },
    }
}

#[test]
fn a_measurements_response_round_trips() {
    let mut context = context(SpdmVersion::SpdmVersion12);
    let sent = measurements(false);
    let wire = encode(&mut context, &sent, 256);
    assert_eq!(wire.len(), 6 + 8 + 32 + 2 + 1);
    assert_eq!(&wire[..6], &[0, 0x22, 1, 8, 0, 0]);
    assert_eq!(&wire[6..14], &[1, 1, 4, 0, 0x81, 1, 0, 0x5a]);
    assert_eq!(&wire[14..46], &[0x0e; 32][..]);
    assert_eq!(&wire[46..], &[1, 0, 9]);
    let (read, used) = decode::<SpdmMeasurementsResponsePayload>(&mut context, &wire).unwrap();
    assert_eq!(used, wire.len());
    assert_eq!(read.slot_id, 2);
    assert_eq!(read.content_changed, SpdmMeasurementContentChanged::NoChange);
    assert_eq!(read.measurement_record.number_of_blocks, 1);
    assert_eq!(read.measurement_record.as_ref(), &[1, 1, 4, 0, 0x81, 1, 0, 0x5a]);
    assert_eq!(read.measurement_record.measurement_record_data, sent.measurement_record.measurement_record_data);
    assert_eq!(read.nonce, [0x0e; 32]);
    assert_eq!(read.opaque.as_ref(), &[9]);
    assert!(read.signature.is_none());

    context.runtime_info.need_measurement_signature = true;
    assert!(decode::<SpdmMeasurementsResponsePayload>(&mut context, &wire).is_none());
    let sent = measurements(true);
    let wire = encode(&mut context, &sent, 256);
    assert_eq!(wire.len(), 6 + 8 + 32 + 2 + 1 + 64);
    assert_eq!(&wire[49..], &[0x51; 64][..]);
    let (read, used) = decode::<SpdmMeasurementsResponsePayload>(&mut context, &wire).unwrap();
    assert_eq!(used, wire.len());
    assert_eq!(read.signature.unwrap().as_ref(), &[0x51; 64][..]);
    assert!(decode::<SpdmMeasurementsResponsePayload>(&mut context, &wire[..wire.len() - 1]).is_none());
}

#[test]
fn malformed_measurements_responses_are_refused() {
    let mut context = context(SpdmVersion::SpdmVersion12);
    let wire = encode(&mut context, &measurements(false), 256);
    for (second, slot_id, changed) in [
        (0x00u8, 0u8, SpdmMeasurementContentChanged::NotSupported),
        (0x17, 7, SpdmMeasurementContentChanged::DetectedChange),
        (0x2f, 0xf, SpdmMeasurementContentChanged::NoChange),
    ] {
        let mut good = wire.clone();
        good[1] = second;
        let (read, _) = decode::<SpdmMeasurementsResponsePayload>(&mut context, &good).unwrap();
        assert_eq!((read.slot_id, read.content_changed), (slot_id, changed));
        assert_eq!(encode(&mut context, &read, 256), good);
    }
    for second in [0x08u8, 0x0e, 0x30, 0x42, 0x80, 0xff] {
        let mut bad = wire.clone();
        bad[1] = second;
        assert!(decode::<SpdmMeasurementsResponsePayload>(&mut context, &bad).is_none(), "{second:x}");
    }
    // more blocks than a record holds, more than are there
    let mut bad = wire.clone();
    bad[3] = 1;
    bad[4] = 4;
    bad.resize(4096, 0);
    assert!(decode::<SpdmMeasurementsResponsePayload>(&mut context, &bad).is_none());
    let mut bad = wire.clone();
    bad[5] = 1;
    assert!(decode::<SpdmMeasurementsResponsePayload>(&mut context, &bad).is_none());
    for length in [0usize, 5, 13, 45, 47, wire.len() - 1] {
        assert!(decode::<SpdmMeasurementsResponsePayload>(&mut context, &wire[..length]).is_none());
    }
    assert_eq!(encode(&mut context, &measurements(false), wire.len() - 1), Vec::<u8>::new());
}
