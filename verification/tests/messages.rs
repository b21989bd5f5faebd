use spdmlib::codec::{Reader, Writer};
use spdmlib::common::cert_chain::{append_cert_chain_portion, parse_cert_chain};
use spdmlib::common::spdm_codec::SpdmCodec;
use spdmlib::common::SpdmContext;
use spdmlib::error::SpdmError;
use spdmlib::message::error::error_action;
use spdmlib::message::{
    decode_key_exchange_request, SpdmErrorAction, SpdmErrorCode, SpdmKeyExchangeRequestPayload,
};
use spdmlib::protocol::{
    SpdmBaseHashAlgo, SpdmCertChainData, SpdmDheAlgo, SpdmDheExchangeStruct,
    SpdmMeasurementSummaryHashType, SpdmOpaqueStruct,
};

fn context(dhe: SpdmDheAlgo) -> SpdmContext {
    let mut context = SpdmContext::new();
    context.negotiate_info.dhe_sel = dhe;
    context
}

fn request(key: &[u8], opaque: &[u8]) -> SpdmKeyExchangeRequestPayload {
    let mut random = [0u8; 32];
    for (i, byte) in random.iter_mut().enumerate() {
        *byte = 0xa0 + i as u8;
    }
    SpdmKeyExchangeRequestPayload {
        measurement_summary_hash_type: SpdmMeasurementSummaryHashType::SpdmMeasurementSummaryHashTypeAll,
        slot_id: 3,
        req_session_id: 0xfffe,
        session_policy: 1,
        random,
        exchange: SpdmDheExchangeStruct::from_bytes(key).unwrap(),
        opaque: SpdmOpaqueStruct::from_bytes(opaque).unwrap(),
    }
}

fn encode(context: &mut SpdmContext, request: &SpdmKeyExchangeRequestPayload) -> Vec<u8> {
    let mut buffer = [0u8; 2048];
    let mut writer = Writer::init(&mut buffer);
    request.spdm_encode(context, &mut writer);
    let used = writer.used();
    buffer[..used].to_vec()
}

#[test]
fn a_key_exchange_request_round_trips() {
    let mut context = context(SpdmDheAlgo::SECP_384_R1);
    let key = [0x5au8; 96];
    let sent = request(&key, b"opaque!");
    let wire = encode(&mut context, &sent);
    assert_eq!(wire.len(), 2 + 2 + 2 + 32 + 96 + 2 + 7);
    assert_eq!(&wire[..6], &[0xff, 3, 0xfe, 0xff, 1, 0]);
    assert_eq!(&wire[6..38], &sent.random[..]);
    assert_eq!(&wire[38..134], &key[..]);
    assert_eq!(&wire[134..136], &[7, 0]);
    assert_eq!(&wire[136..], b"opaque!");

    let received = decode_key_exchange_request(&mut context, &wire).unwrap();
    assert_eq!(received.measurement_summary_hash_type, sent.measurement_summary_hash_type);
    assert_eq!(received.slot_id, 3);
    assert_eq!(received.req_session_id, 0xfffe);
    assert_eq!(received.session_policy, 1);
    assert_eq!(received.random, sent.random);
    assert_eq!(received.exchange.as_ref(), &key[..]);
    assert_eq!(received.exchange.data, sent.exchange.data);
    assert_eq!(received.opaque.as_ref(), b"opaque!");

    // read from the front of a longer byte string, it takes exactly its bytes
    let mut longer = wire.clone();
    longer.extend_from_slice(&[1, 2, 3]);
    let mut reader = Reader::init(&longer);
    assert!(SpdmKeyExchangeRequestPayload::spdm_read(&mut context, &mut reader).is_some());
    assert_eq!(reader.used(), wire.len());
    assert_eq!(decode_key_exchange_request(&mut context, &longer).unwrap_err(), SpdmError::InvalidMsgField);
}

#[test]
fn a_public_key_of_the_wrong_length_is_an_invalid_field() {
    // the requester sends a key for another group than the one negotiated
    let mut sender = context(SpdmDheAlgo::SECP_256_R1);
    let wire = encode(&mut sender, &request(&[0xffu8; 64], b""));
    let mut receiver = context(SpdmDheAlgo::SECP_384_R1);
    assert_eq!(decode_key_exchange_request(&mut receiver, &wire).unwrap_err(), SpdmError::InvalidMsgField);

    let mut sender = context(SpdmDheAlgo::SECP_384_R1);
    let wire = encode(&mut sender, &request(&[0xffu8; 96], b""));
    let mut receiver = context(SpdmDheAlgo::SECP_256_R1);
    assert_eq!(decode_key_exchange_request(&mut receiver, &wire).unwrap_err(), SpdmError::InvalidMsgField);
    let mut receiver = context(SpdmDheAlgo::FFDHE_2048);
    assert_eq!(decode_key_exchange_request(&mut receiver, &wire).unwrap_err(), SpdmError::InvalidMsgField);
    // with the negotiated group it is fine
    assert!(decode_key_exchange_request(&mut sender, &wire).is_ok());

    // a request built with a key of the wrong length is not written at all
    let mut receiver = context(SpdmDheAlgo::SECP_384_R1);
    for cut in [0usize, 1, 37, 38, 100, 135] {
        assert_eq!(
            decode_key_exchange_request(&mut receiver, &wire[..cut]).unwrap_err(),
            SpdmError::InvalidMsgField
        );
    }
}

#[test]
fn reserved_values_in_a_key_exchange_request_are_refused() {
    let mut context = context(SpdmDheAlgo::SECP_256_R1);
    let wire = encode(&mut context, &request(&[1u8; 64], b"abc"));
    assert!(decode_key_exchange_request(&mut context, &wire).is_ok());
    // a summary hash type that is not defined
    let mut bad = wire.clone();
    bad[0] = 2;
    assert_eq!(decode_key_exchange_request(&mut context, &bad).unwrap_err(), SpdmError::InvalidMsgField);
    // an opaque length that does not count what follows
    let mut bad = wire.clone();
    bad[102] = 4;
    assert_eq!(decode_key_exchange_request(&mut context, &bad).unwrap_err(), SpdmError::InvalidMsgField);
    bad[102] = 2;
    assert_eq!(decode_key_exchange_request(&mut context, &bad).unwrap_err(), SpdmError::InvalidMsgField);
    // more opaque data than the protocol allows
    let mut bad = wire[..104].to_vec();
    bad[102] = 0x01;
    bad[103] = 0x04;
    bad.extend_from_slice(&[0u8; 1025]);
    assert_eq!(decode_key_exchange_request(&mut context, &bad).unwrap_err(), SpdmError::InvalidMsgField);
}

#[test]
fn a_certificate_chain_is_reassembled_up_to_its_limit() {
    let mut chain = SpdmCertChainData::default();
    assert_eq!(append_cert_chain_portion(&mut chain, &[1u8; 1024]), Ok(()));
    assert_eq!(append_cert_chain_portion(&mut chain, &[2u8; 2048]), Ok(()));
    assert_eq!(append_cert_chain_portion(&mut chain, &[]), Ok(()));
    assert_eq!(chain.data_size, 3072);
    assert_eq!(&chain.as_ref()[..1024], &[1u8; 1024][..]);
    assert_eq!(&chain.as_ref()[1024..], &[2u8; 2048][..]);

    // one byte beyond the largest chain
    let before = chain;
    assert_eq!(append_cert_chain_portion(&mut chain, &[3u8; 1025]), Err(SpdmError::InvalidCertChain));
    assert_eq!(chain.data_size, before.data_size);
    assert_eq!(chain.data, before.data);
    assert_eq!(append_cert_chain_portion(&mut chain, &[3u8; 1024]), Ok(()));
    assert_eq!(chain.data_size, 4096);
    assert_eq!(append_cert_chain_portion(&mut chain, &[4u8]), Err(SpdmError::InvalidCertChain));
    assert!(SpdmCertChainData::from_bytes(&[0u8; 4097]).is_none());
}

#[test]
fn the_framing_of_a_certificate_chain_is_checked() {
    let hash = SpdmBaseHashAlgo::TPM_ALG_SHA_256;
    let mut chain = vec![0u8; 4 + 32 + 10];
    chain[0] = 46;
    let layout = parse_cert_chain(&chain, hash).unwrap();
    assert_eq!(layout.root_hash_end, 36);
    assert_eq!(layout.total_length, 46);
    // a length field that does not count the whole chain
    chain[0] = 45;
    assert_eq!(parse_cert_chain(&chain, hash).unwrap_err(), SpdmError::InvalidCertChain);
    chain[0] = 46;
    chain[1] = 1;
    assert_eq!(parse_cert_chain(&chain, hash).unwrap_err(), SpdmError::InvalidCertChain);
    // no certificate behind the root digest
    let mut bare = vec![0u8; 36];
    bare[0] = 36;
    assert_eq!(parse_cert_chain(&bare, hash).unwrap_err(), SpdmError::InvalidCertChain);
    // too short for the digest of the negotiated hash
    chain[1] = 0;
    assert_eq!(
        parse_cert_chain(&chain, SpdmBaseHashAlgo::TPM_ALG_SHA_512).unwrap_err(),
        SpdmError::InvalidCertChain
    );
}

#[test]
fn busy_responders_are_asked_again_while_tries_are_left() {
    assert_eq!(error_action(SpdmErrorCode::SpdmErrorBusy, 3), SpdmErrorAction::Retry(2));
    assert_eq!(error_action(SpdmErrorCode::SpdmErrorBusy, 1), SpdmErrorAction::Retry(0));
    assert_eq!(error_action(SpdmErrorCode::SpdmErrorBusy, 0), SpdmErrorAction::Abort);
    assert_eq!(error_action(SpdmErrorCode::SpdmErrorResponseNotReady, 255), SpdmErrorAction::Retry(254));
    assert_eq!(error_action(SpdmErrorCode::SpdmErrorResponseNotReady, 0), SpdmErrorAction::Abort);
    assert_eq!(error_action(SpdmErrorCode::SpdmErrorRequestResynch, 0), SpdmErrorAction::Resynch);
    assert_eq!(error_action(SpdmErrorCode::SpdmErrorRequestResynch, 9), SpdmErrorAction::Resynch);
    for code in [
        SpdmErrorCode::SpdmErrorInvalidRequest,
        SpdmErrorCode::SpdmErrorInvalidSession,
        SpdmErrorCode::SpdmErrorUnexpectedRequest,
        SpdmErrorCode::SpdmErrorUnspecified,
        SpdmErrorCode::SpdmErrorDecryptError,
        SpdmErrorCode::SpdmErrorSessionLimitExceeded,
        SpdmErrorCode::SpdmErrorSessionRequired,
        SpdmErrorCode::SpdmErrorVersionMismatch,
    ] {
        assert_eq!(error_action(code, 5), SpdmErrorAction::Abort);
        assert_eq!(SpdmErrorCode::from_u8(code.get_u8()), Some(code));
    }
    assert_eq!(SpdmErrorCode::SpdmErrorBusy.get_u8(), 0x03);
    assert_eq!(SpdmErrorCode::SpdmErrorResponseNotReady.get_u8(), 0x42);
    assert_eq!(SpdmErrorCode::SpdmErrorRequestResynch.get_u8(), 0x43);
    assert_eq!(SpdmErrorCode::from_u8(0x00), None);
    assert_eq!(SpdmErrorCode::from_u8(0x44), None);
}
