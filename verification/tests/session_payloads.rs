use spdmlib::codec::{Reader, Writer};
use spdmlib::common::spdm_codec::SpdmCodec;
use spdmlib::common::SpdmContext;
use spdmlib::message::{
    SpdmFinishResponsePayload, SpdmKeyExchangeMutAuthAttributes, SpdmKeyExchangeResponsePayload,
    SpdmPskExchangeRequestPayload, SpdmPskExchangeResponsePayload, SpdmPskFinishRequestPayload,
    SpdmPskFinishResponsePayload,
};
use spdmlib::protocol::capability::{
    has_capability, ENCRYPT_CAP, HANDSHAKE_IN_THE_CLEAR_CAP, KEY_EX_CAP, MAC_CAP,
    REQUESTER_CAPABILITY_MASK, RESPONDER_CAPABILITY_MASK,
};
use spdmlib::protocol::{
    SpdmBaseAsymAlgo, SpdmBaseHashAlgo, SpdmDheAlgo, SpdmDheExchangeStruct, SpdmDigestStruct,
    SpdmMeasurementSummaryHashType, SpdmOpaqueStruct, SpdmPskContextStruct, SpdmPskHintStruct,
    SpdmSignatureStruct,
};

fn encode<T: SpdmCodec>(context: &mut SpdmContext, value: &T, capacity: usize) -> Vec<u8> {
    let mut buffer = vec![0xeeu8; capacity];
    let mut writer = Writer::init(&mut buffer);
    value.spdm_encode(context, &mut writer);
    let used = writer.used();
    buffer[..used].to_vec()
}

fn decode<T: SpdmCodec>(context: &mut SpdmContext, bytes: &[u8]) -> Option<(T, usize)> {
    let mut reader = Reader::init(bytes);
    let value = T::spdm_read(context, &mut reader)?;
    Some((value, reader.used()))
}

/// SHA-384, P-384 for key agreement and for signatures.
fn context() -> SpdmContext {
    let mut context = SpdmContext::new();
    context.negotiate_info.base_hash_sel = SpdmBaseHashAlgo::TPM_ALG_SHA_384;
    context.negotiate_info.dhe_sel = SpdmDheAlgo::SECP_384_R1;
    context.negotiate_info.base_asym_sel = SpdmBaseAsymAlgo::TPM_ALG_ECDSA_ECC_NIST_P384;
    context
}

fn in_the_clear(mut context: SpdmContext) -> SpdmContext {
    context.negotiate_info.req_capabilities_sel = KEY_EX_CAP | HANDSHAKE_IN_THE_CLEAR_CAP;
    context.negotiate_info.rsp_capabilities_sel = KEY_EX_CAP | HANDSHAKE_IN_THE_CLEAR_CAP | MAC_CAP;
    context
}

fn key_exchange_response(summary: bool, verify_data: bool) -> SpdmKeyExchangeResponsePayload {
    let mut random = [0u8; 32];
    for (i, byte) in random.iter_mut().enumerate() {
        *byte = 0x40 + i as u8;
    }
    SpdmKeyExchangeResponsePayload {
        heartbeat_period: 9,
        rsp_session_id: 0xfffd,
        mut_auth_req: SpdmKeyExchangeMutAuthAttributes::MutAuthReqWithEncapRequest,
        req_slot_id: 2,
        random,
        exchange: SpdmDheExchangeStruct::from_bytes(&[0xd1; 96]).unwrap(),
        measurement_summary_hash: if summary {
            Some(SpdmDigestStruct::from_bytes(&[0x5e; 48]).unwrap())
        } else {
            None
        },
        opaque: SpdmOpaqueStruct::from_bytes(b"opq").unwrap(),
        signature: SpdmSignatureStruct::from_bytes(&[0x51; 96]).unwrap(),
        verify_data: if verify_data { Some(SpdmDigestStruct::from_bytes(&[0x7e; 48]).unwrap()) } else { None },
    }
}

fn same_key_exchange_response(a: &SpdmKeyExchangeResponsePayload, b: &SpdmKeyExchangeResponsePayload) {
    assert_eq!(a.heartbeat_period, b.heartbeat_period);
    assert_eq!(a.rsp_session_id, b.rsp_session_id);
    assert_eq!(a.mut_auth_req, b.mut_auth_req);
    assert_eq!(a.req_slot_id, b.req_slot_id);
    assert_eq!(a.random, b.random);
    assert_eq!((a.exchange.data_size, a.exchange.data), (b.exchange.data_size, b.exchange.data));
    assert_eq!(
        a.measurement_summary_hash.map(|d| (d.data_size, d.data)),
        b.measurement_summary_hash.map(|d| (d.data_size, d.data))
    );
    assert_eq!((a.opaque.data_size, a.opaque.data), (b.opaque.data_size, b.opaque.data));
    assert_eq!((a.signature.data_size, a.signature.data), (b.signature.data_size, b.signature.data));
    assert_eq!(
        a.verify_data.map(|d| (d.data_size, d.data)),
        b.verify_data.map(|d| (d.data_size, d.data))
    );
}

#[test]
fn a_key_exchange_response_round_trips() {
    let mut context = context();
    let sent = key_exchange_response(false, true);
    let wire = encode(&mut context, &sent, 512);
    assert_eq!(wire.len(), 6 + 32 + 96 + 2 + 3 + 96 + 48);
    assert_eq!(&wire[..6], &[9, 0, 0xfd, 0xff, 2, 2]);
    assert_eq!(&wire[6..38], &sent.random[..]);
    assert_eq!(&wire[38..134], &[0xd1; 96][..]);
    assert_eq!(&wire[134..139], &[3, 0, b'o', b'p', b'q']);
    assert_eq!(&wire[139..235], &[0x51; 96][..]);
    assert_eq!(&wire[235..], &[0x7e; 48][..]);

    let (received, used) = decode::<SpdmKeyExchangeResponsePayload>(&mut context, &wire).unwrap();
    assert_eq!(used, wire.len());
    same_key_exchange_response(&received, &sent);

    // what follows the response is left alone
    let mut longer = wire.clone();
    longer.extend_from_slice(&[1, 2, 3]);
    let (received, used) = decode::<SpdmKeyExchangeResponsePayload>(&mut context, &longer).unwrap();
    assert_eq!(used, wire.len());
    same_key_exchange_response(&received, &sent);
}

#[test]
fn a_key_exchange_response_carries_what_the_connection_calls_for() {
    // with a measurement summary hash
    let mut with_summary = context();
    with_summary.runtime_info.need_measurement_summary_hash = true;
    let sent = key_exchange_response(true, true);
    let wire = encode(&mut with_summary, &sent, 512);
    assert_eq!(wire.len(), 6 + 32 + 96 + 48 + 2 + 3 + 96 + 48);
    assert_eq!(&wire[134..182], &[0x5e; 48][..]);
    assert_eq!(&wire[182..184], &[3, 0]);
    let (received, used) = decode::<SpdmKeyExchangeResponsePayload>(&mut with_summary, &wire).unwrap();
    assert_eq!(used, wire.len());
    same_key_exchange_response(&received, &sent);

    // in the clear there is no verify-data
    let mut clear = in_the_clear(context());
    assert!(clear.handshake_in_the_clear());
    let sent = key_exchange_response(false, false);
    let wire = encode(&mut clear, &sent, 512);
    assert_eq!(wire.len(), 6 + 32 + 96 + 2 + 3 + 96);
    let (received, used) = decode::<SpdmKeyExchangeResponsePayload>(&mut clear, &wire).unwrap();
    assert_eq!(used, wire.len());
    assert!(received.verify_data.is_none());
    same_key_exchange_response(&received, &sent);

    // one side alone does not put the handshake in the clear
    let mut one_side = context();
    one_side.negotiate_info.rsp_capabilities_sel = HANDSHAKE_IN_THE_CLEAR_CAP;
    assert!(!one_side.handshake_in_the_clear());
    assert!(decode::<SpdmKeyExchangeResponsePayload>(&mut one_side, &wire).is_none());
}

#[test]
fn malformed_key_exchange_responses_are_refused() {
    let mut context = context();
    let wire = encode(&mut context, &key_exchange_response(false, true), 512);
    assert!(decode::<SpdmKeyExchangeResponsePayload>(&mut context, &wire).is_some());
    // cut short anywhere
    for length in [0usize, 5, 37, 133, 135, 138, 234, wire.len() - 1] {
        assert!(decode::<SpdmKeyExchangeResponsePayload>(&mut context, &wire[..length]).is_none(), "{length}");
    }
    // attributes of mutual authentication that are not defined
    for attributes in [3u8, 5, 8, 0x80, 0xff] {
        let mut bad = wire.clone();
        bad[4] = attributes;
        assert!(decode::<SpdmKeyExchangeResponsePayload>(&mut context, &bad).is_none());
    }
    for (attributes, expected) in [
        (0u8, SpdmKeyExchangeMutAuthAttributes::NoMutAuth),
        (1, SpdmKeyExchangeMutAuthAttributes::MutAuthReq),
        (2, SpdmKeyExchangeMutAuthAttributes::MutAuthReqWithEncapRequest),
        (4, SpdmKeyExchangeMutAuthAttributes::MutAuthReqWithGetDigests),
    ] {
        let mut good = wire.clone();
        good[4] = attributes;
        let (received, _) = decode::<SpdmKeyExchangeResponsePayload>(&mut context, &good).unwrap();
        assert_eq!(received.mut_auth_req, expected);
        assert_eq!(expected.get_u8(), attributes);
        assert_eq!(SpdmKeyExchangeMutAuthAttributes::from_u8(attributes), Some(expected));
    }
    // more opaque data than a response may carry
    let mut bad = wire.clone();
    bad[134] = 0x01;
    bad[135] = 0x04;
    bad.resize(4096, 0);
    assert!(decode::<SpdmKeyExchangeResponsePayload>(&mut context, &bad).is_none());
    // a response that does not fit is not written
    assert_eq!(encode(&mut context, &key_exchange_response(false, true), wire.len() - 1), Vec::<u8>::new());
}

#[test]
fn a_finish_response_carries_verify_data_in_the_clear_only() {
    let mut context = context();
    let plain = SpdmFinishResponsePayload { verify_data: None };
    assert_eq!(encode(&mut context, &plain, 16), [0, 0]);
    let (received, used) = decode::<SpdmFinishResponsePayload>(&mut context, &[0, 0, 9, 9]).unwrap();
    assert_eq!(used, 2);
    assert!(received.verify_data.is_none());
    assert!(decode::<SpdmFinishResponsePayload>(&mut context, &[0]).is_none());

    let mut clear = in_the_clear(context);
    let verify_data = SpdmDigestStruct::from_bytes(&[0xc3; 48]).unwrap();
    let wire = encode(&mut clear, &SpdmFinishResponsePayload { verify_data: Some(verify_data) }, 64);
    assert_eq!(wire.len(), 50);
    assert_eq!(&wire[..2], &[0, 0]);
    assert_eq!(&wire[2..], &[0xc3; 48][..]);
    let (received, used) = decode::<SpdmFinishResponsePayload>(&mut clear, &wire).unwrap();
    assert_eq!(used, 50);
    assert_eq!(received.verify_data.unwrap().data, verify_data.data);
    assert_eq!(received.verify_data.unwrap().data_size, 48);
    assert!(decode::<SpdmFinishResponsePayload>(&mut clear, &wire[..49]).is_none());
}

#[test]
fn a_psk_exchange_request_round_trips() {
    let mut context = context();
    let sent = SpdmPskExchangeRequestPayload {
        measurement_summary_hash_type: SpdmMeasurementSummaryHashType::SpdmMeasurementSummaryHashTypeTcb,
        session_policy: 1,
        req_session_id: 0xfffe,
        psk_hint: SpdmPskHintStruct::from_bytes(b"TestPskHint\0").unwrap(),
        psk_context: SpdmPskContextStruct::from_bytes(&[0xc0; 32]).unwrap(),
        opaque: SpdmOpaqueStruct::from_bytes(&[7, 8]).unwrap(),
    };
    let wire = encode(&mut context, &sent, 256);
    assert_eq!(wire.len(), 10 + 12 + 32 + 2);
    assert_eq!(&wire[..10], &[1, 1, 0xfe, 0xff, 12, 0, 32, 0, 2, 0]);
    assert_eq!(&wire[10..22], b"TestPskHint\0");
    assert_eq!(&wire[22..54], &[0xc0; 32][..]);
    assert_eq!(&wire[54..], &[7, 8]);

    let (received, used) = decode::<SpdmPskExchangeRequestPayload>(&mut context, &wire).unwrap();
    assert_eq!(used, wire.len());
    assert_eq!(received.measurement_summary_hash_type, sent.measurement_summary_hash_type);
    assert_eq!(received.session_policy, 1);
    assert_eq!(received.req_session_id, 0xfffe);
    assert_eq!(received.psk_hint.as_ref(), b"TestPskHint\0");
    assert_eq!(received.psk_hint.data, sent.psk_hint.data);
    assert_eq!(received.psk_context.as_ref(), &[0xc0; 32][..]);
    assert_eq!(received.opaque.as_ref(), &[7, 8]);

    // lengths beyond the buffers, a reserved summary hash type, a cut
    for (at, value) in [(4usize, 33u8), (6, 65), (9, 5), (0, 2)] {
        let mut bad = wire.clone();
        bad[at] = value;
        bad.resize(2048, 0);
        assert!(decode::<SpdmPskExchangeRequestPayload>(&mut context, &bad).is_none(), "{at}");
    }
    assert!(decode::<SpdmPskExchangeRequestPayload>(&mut context, &wire[..wire.len() - 1]).is_none());
    assert!(decode::<SpdmPskExchangeRequestPayload>(&mut context, &wire[..9]).is_none());
    assert!(SpdmPskHintStruct::from_bytes(&[0; 33]).is_none());
    assert!(SpdmPskContextStruct::from_bytes(&[0; 65]).is_none());
}

#[test]
fn a_psk_exchange_response_round_trips() {
    let sent = SpdmPskExchangeResponsePayload {
        heartbeat_period: 0,
        rsp_session_id: 0x1234,
        measurement_summary_hash: None,
        psk_context: SpdmPskContextStruct::from_bytes(&[0xab; 5]).unwrap(),
        opaque: SpdmOpaqueStruct::default(),
        verify_data: SpdmDigestStruct::from_bytes(&[0x99; 48]).unwrap(),
    };
    let mut context = context();
    let wire = encode(&mut context, &sent, 256);
    assert_eq!(wire.len(), 10 + 5 + 48);
    assert_eq!(&wire[..10], &[0, 0, 0x34, 0x12, 0, 0, 5, 0, 0, 0]);
    assert_eq!(&wire[10..15], &[0xab; 5]);
    assert_eq!(&wire[15..], &[0x99; 48][..]);
    let (received, used) = decode::<SpdmPskExchangeResponsePayload>(&mut context, &wire).unwrap();
    assert_eq!(used, wire.len());
    assert_eq!(received.rsp_session_id, 0x1234);
    assert!(received.measurement_summary_hash.is_none());
    assert_eq!(received.psk_context.as_ref(), &[0xab; 5]);
    assert_eq!(received.opaque.data_size, 0);
    assert_eq!(received.verify_data.as_ref(), &[0x99; 48][..]);
    assert!(decode::<SpdmPskExchangeResponsePayload>(&mut context, &wire[..wire.len() - 1]).is_none());

    let mut with_summary = context;
    with_summary.runtime_info.need_measurement_summary_hash = true;
    let mut sent = sent;
    sent.measurement_summary_hash = Some(SpdmDigestStruct::from_bytes(&[0x11; 48]).unwrap());
    let wire = encode(&mut with_summary, &sent, 256);
    assert_eq!(wire.len(), 10 + 48 + 5 + 48);
    assert_eq!(&wire[10..58], &[0x11; 48][..]);
    assert_eq!(&wire[58..63], &[0xab; 5]);
    let (received, used) = decode::<SpdmPskExchangeResponsePayload>(&mut with_summary, &wire).unwrap();
    assert_eq!(used, wire.len());
    assert_eq!(received.measurement_summary_hash.unwrap().as_ref(), &[0x11; 48][..]);
    assert_eq!(received.psk_context.as_ref(), &[0xab; 5]);
}

#[test]
fn a_psk_finish_carries_verify_data_and_its_response_nothing() {
    let mut context = context();
    let sent = SpdmPskFinishRequestPayload { verify_data: SpdmDigestStruct::from_bytes(&[0x77; 48]).unwrap() };
    let wire = encode(&mut context, &sent, 64);
    assert_eq!(wire.len(), 50);
    assert_eq!(&wire[..2], &[0, 0]);
    let (received, used) = decode::<SpdmPskFinishRequestPayload>(&mut context, &wire).unwrap();
    assert_eq!(used, 50);
    assert_eq!(received.verify_data.data, sent.verify_data.data);
    assert!(decode::<SpdmPskFinishRequestPayload>(&mut context, &wire[..49]).is_none());
    // with another hash the verify-data has another length
    context.negotiate_info.base_hash_sel = SpdmBaseHashAlgo::TPM_ALG_SHA_256;
    let (received, used) = decode::<SpdmPskFinishRequestPayload>(&mut context, &wire).unwrap();
    assert_eq!(used, 34);
    assert_eq!(received.verify_data.data_size, 32);

    assert_eq!(encode(&mut context, &SpdmPskFinishResponsePayload {}, 8), [0, 0]);
    assert_eq!(encode(&mut context, &SpdmPskFinishResponsePayload {}, 1), Vec::<u8>::new());
    assert_eq!(
        decode::<SpdmPskFinishResponsePayload>(&mut context, &[5, 6, 7]),
        Some((SpdmPskFinishResponsePayload {}, 2))
    );
    assert_eq!(decode::<SpdmPskFinishResponsePayload>(&mut context, &[5]), None);
}

#[test]
fn capability_flags_are_single_bits() {
    assert!(has_capability(ENCRYPT_CAP | MAC_CAP, MAC_CAP));
    assert!(!has_capability(ENCRYPT_CAP | MAC_CAP, KEY_EX_CAP));
    assert!(!has_capability(0, HANDSHAKE_IN_THE_CLEAR_CAP));
    assert_eq!(HANDSHAKE_IN_THE_CLEAR_CAP, 1 << 15);
    assert_eq!(KEY_EX_CAP, 1 << 9);
    assert_eq!(REQUESTER_CAPABILITY_MASK & RESPONDER_CAPABILITY_MASK, REQUESTER_CAPABILITY_MASK);
    assert_eq!(RESPONDER_CAPABILITY_MASK, (1 << 19) - 1);
}
