use spdmlib::common::connection::{SpdmConnection, SpdmConnectionState, SpdmExchange};
use spdmlib::common::session::{SpdmSessionCryptoParam, SpdmSessionState};
use spdmlib::common::session_request::SpdmSessionRequest;
use spdmlib::common::transcript::SpdmTranscriptStrategy;
use spdmlib::common::SpdmContext;
use spdmlib::crypto;
use spdmlib::crypto::spdm_ring;
use spdmlib::crypto::ProviderSlot;
use spdmlib::error::SpdmError;
use spdmlib::message::{
    SpdmEndSessionRequestPayload, SpdmKeyUpdateOperation, SpdmKeyUpdateRequestPayload,
    SpdmRequestResponseCode,
};
use spdmlib::protocol::{
    SpdmAeadAlgo, SpdmBaseHashAlgo, SpdmDheAlgo, SpdmDheFinalKeyStruct, SpdmKeyScheduleAlgo, SpdmVersion,
};
use spdmlib::requester::in_session::take_session_response;
use spdmlib::responder::in_session::{answer_session_request, read_session_request, write_session_response};

type Hash = spdm_ring::hash_impl::SpdmRingHash;
type Hmac = spdm_ring::hmac_impl::SpdmRingHmac;
type Hkdf = spdm_ring::hkdf_impl::SpdmRingHkdf;
type Aead = spdm_ring::aead_impl::SpdmRingAead;

struct Providers {
    hash: ProviderSlot<Hash>,
    hmac: ProviderSlot<Hmac>,
    hkdf: ProviderSlot<Hkdf>,
    aead: ProviderSlot<Aead>,
}

fn providers() -> Providers {
    let mut hash = ProviderSlot::empty();
    assert!(crypto::hash::register(&mut hash, spdm_ring::hash_impl::DEFAULT));
    let mut hmac = ProviderSlot::empty();
    assert!(crypto::hmac::register(&mut hmac, spdm_ring::hmac_impl::DEFAULT));
    let mut hkdf = ProviderSlot::empty();
    assert!(crypto::hkdf::register(&mut hkdf, spdm_ring::hkdf_impl::DEFAULT));
    let mut aead = ProviderSlot::empty();
    assert!(crypto::aead::register(&mut aead, spdm_ring::aead_impl::DEFAULT));
    Providers { hash, hmac, hkdf, aead }
}

const VERSION: SpdmVersion = SpdmVersion::SpdmVersion12;
const SESSION_ID: u32 = 0xfffe_fffd;

fn context() -> SpdmContext {
    let mut context = SpdmContext::new();
    context.negotiate_info.spdm_version_sel = VERSION;
    context
}

/// A connection with a session that is handshaking and has its handshake keys.
fn handshaking(p: &Providers) -> SpdmConnection<Hash> {
    let mut connection =
        SpdmConnection::new(SpdmTranscriptStrategy::Buffered, &p.hash, SpdmBaseHashAlgo::TPM_ALG_SHA_256).unwrap();
    connection.record_exchange(&p.hash, SpdmExchange::Version, &[0x10, 0x84, 0, 0], &[0x10, 0x04]).unwrap();
    connection.record_exchange(&p.hash, SpdmExchange::Capabilities, &[0x12, 0xe1], &[0x12, 0x61]).unwrap();
    connection.record_exchange(&p.hash, SpdmExchange::NegotiateAlgorithms, &[0x12, 0xe3], &[0x12, 0x63]).unwrap();
    let crypto_param = SpdmSessionCryptoParam {
        base_hash_algo: SpdmBaseHashAlgo::TPM_ALG_SHA_256,
        dhe_algo: SpdmDheAlgo::SECP_256_R1,
        aead_algo: SpdmAeadAlgo::AES_128_GCM,
        key_schedule_algo: SpdmKeyScheduleAlgo::SPDM_KEY_SCHEDULE,
    };
    assert_eq!(connection.start_session(&p.hash, SESSION_ID, crypto_param, false), Ok(0));
    connection.record_session_message(&p.hash, SESSION_ID, false, b"key exchange").unwrap();
    let secret = SpdmDheFinalKeyStruct::from_bytes(&[0x42; 32]).unwrap();
    connection
        .derive_session_handshake_keys(&p.hmac, &p.hkdf, &p.hash, SESSION_ID, VERSION, secret, b"chain")
        .unwrap();
    connection
}

/// A connection with an established session; two of them hold the same keys.
fn established(p: &Providers) -> SpdmConnection<Hash> {
    let mut connection = handshaking(p);
    connection.record_session_message(&p.hash, SESSION_ID, true, b"finish").unwrap();
    connection.establish_session(&p.hkdf, &p.hash, SESSION_ID, VERSION, b"chain").unwrap();
    connection
}

fn keys(connection: &SpdmConnection<Hash>) -> ([u8; 32], [u8; 32]) {
    let (request, response) = connection.sessions.get_session_via_id(SESSION_ID).unwrap().export_keys().unwrap();
    (request.encryption_key.data, response.encryption_key.data)
}

#[test]
fn a_heartbeat_is_acknowledged_inside_the_session() {
    let p = providers();
    let mut requester = established(&p);
    let mut responder = established(&p);
    let mut context = context();
    let mut record = [0u8; 64];
    let mut opened = [0u8; 64];
    let mut answer = [0u8; 64];

    // the request travels in a record
    let request = [0x12u8, 0xe8, 0, 0];
    let sealed = requester.sessions.encode_spdm_secured_message(&p.aead, SESSION_ID, &request, &mut record, true).unwrap();
    let length =
        responder.sessions.decode_spdm_secured_message(&p.aead, SESSION_ID, &record[..sealed], &mut opened, false).unwrap();
    assert_eq!(&opened[..length], &request);
    assert_eq!(read_session_request(&mut context, &opened[..length]), Ok(SpdmSessionRequest::Heartbeat));
    assert_eq!(
        answer_session_request(&mut responder, &p.hkdf, &mut context, SESSION_ID, &opened[..length], &mut answer),
        Ok(4)
    );
    assert_eq!(&answer[..4], &[0x12, 0x68, 0, 0]);

    // and so does the acknowledgement
    let sealed = responder.sessions.encode_spdm_secured_message(&p.aead, SESSION_ID, &answer[..4], &mut record, false).unwrap();
    let length =
        requester.sessions.decode_spdm_secured_message(&p.aead, SESSION_ID, &record[..sealed], &mut opened, true).unwrap();
    assert_eq!(
        take_session_response(&mut requester, &p.hkdf, &mut context, SESSION_ID, SpdmSessionRequest::Heartbeat, &opened[..length]),
        Ok(())
    );
    // one record in each direction
    for connection in [&requester, &responder] {
        let (request, response) = connection.sessions.get_session_via_id(SESSION_ID).unwrap().export_keys().unwrap();
        assert_eq!((request.sequence_number, response.sequence_number), (1, 1));
    }
    assert_eq!(keys(&requester), keys(&responder));
}

#[test]
fn a_key_update_is_taken_on_both_sides() {
    let p = providers();
    let mut requester = established(&p);
    let mut responder = established(&p);
    let mut context = context();
    let mut answer = [0u8; 16];
    let before = keys(&responder);

    let update = SpdmKeyUpdateRequestPayload { key_update_operation: SpdmKeyUpdateOperation::SpdmUpdateAllKeys, tag: 0x5a };
    let request = [0x12u8, 0xe9, 2, 0x5a];
    assert_eq!(read_session_request(&mut context, &request), Ok(SpdmSessionRequest::KeyUpdate(update)));
    assert_eq!(answer_session_request(&mut responder, &p.hkdf, &mut context, SESSION_ID, &request, &mut answer), Ok(4));
    assert_eq!(&answer[..4], &[0x12, 0x69, 2, 0x5a]);
    assert_eq!(
        take_session_response(
            &mut requester,
            &p.hkdf,
            &mut context,
            SESSION_ID,
            SpdmSessionRequest::KeyUpdate(update),
            &answer[..4]
        ),
        Ok(())
    );
    let after = keys(&responder);
    assert_eq!(keys(&requester), after);
    assert_ne!(after.0, before.0);
    assert_ne!(after.1, before.1);

    // the confirmation of the new keys
    let verify = SpdmKeyUpdateRequestPayload { key_update_operation: SpdmKeyUpdateOperation::SpdmVerifyNewKey, tag: 0x5b };
    let request = [0x12u8, 0xe9, 3, 0x5b];
    assert_eq!(answer_session_request(&mut responder, &p.hkdf, &mut context, SESSION_ID, &request, &mut answer), Ok(4));
    assert_eq!(&answer[..4], &[0x12, 0x69, 3, 0x5b]);
    // an acknowledgement with another tag, or of another operation, is not taken
    for echo in [[0x12u8, 0x69, 3, 0x5c], [0x12, 0x69, 2, 0x5b]] {
        assert_eq!(
            take_session_response(&mut requester, &p.hkdf, &mut context, SESSION_ID, SpdmSessionRequest::KeyUpdate(verify), &echo),
            Err(SpdmError::InvalidMsgField)
        );
    }
    assert_eq!(
        take_session_response(
            &mut requester,
            &p.hkdf,
            &mut context,
            SESSION_ID,
            SpdmSessionRequest::KeyUpdate(verify),
            &answer[..4]
        ),
        Ok(())
    );
    assert_eq!(keys(&requester), after);
    // a confirmation without an update is out of turn
    assert_eq!(
        answer_session_request(&mut responder, &p.hkdf, &mut context, SESSION_ID, &request, &mut answer),
        Err(SpdmError::InvalidState)
    );
    assert_eq!(keys(&responder), after);
}

#[test]
fn the_end_of_a_session_is_acknowledged_once() {
    let p = providers();
    let mut requester = established(&p);
    let mut responder = established(&p);
    let mut context = context();
    let mut answer = [0u8; 16];
    let end = SpdmEndSessionRequestPayload { preserve_negotiated_state: true };
    let request = [0x12u8, 0xec, 1, 0];
    assert_eq!(read_session_request(&mut context, &request), Ok(SpdmSessionRequest::EndSession(end)));
    assert_eq!(answer_session_request(&mut responder, &p.hkdf, &mut context, SESSION_ID, &request, &mut answer), Ok(4));
    assert_eq!(&answer[..4], &[0x12, 0x6c, 0, 0]);
    assert!(responder.sessions.get_session_via_id(SESSION_ID).is_none());
    assert_eq!(
        take_session_response(&mut requester, &p.hkdf, &mut context, SESSION_ID, SpdmSessionRequest::EndSession(end), &answer[..4]),
        Ok(())
    );
    assert!(requester.sessions.get_session_via_id(SESSION_ID).is_none());

    // once more
    assert_eq!(
        answer_session_request(&mut responder, &p.hkdf, &mut context, SESSION_ID, &request, &mut answer),
        Err(SpdmError::SessionNotFound)
    );
    assert_eq!(
        take_session_response(&mut requester, &p.hkdf, &mut context, SESSION_ID, SpdmSessionRequest::EndSession(end), &answer[..4]),
        Err(SpdmError::SessionNotFound)
    );
    assert_eq!(responder.state, SpdmConnectionState::SpdmConnectionNegotiated);
}

#[test]
fn a_heartbeat_before_the_session_is_established_is_refused() {
    let p = providers();
    let mut responder = handshaking(&p);
    let mut context = context();
    let mut answer = [0u8; 16];
    assert_eq!(
        responder.sessions.get_session_via_id(SESSION_ID).unwrap().get_session_state(),
        SpdmSessionState::SpdmSessionHandshaking
    );
    assert_eq!(
        answer_session_request(&mut responder, &p.hkdf, &mut context, SESSION_ID, &[0x12, 0xe8, 0, 0], &mut answer),
        Err(SpdmError::InvalidState)
    );
    assert!(responder.sessions.get_session_via_id(SESSION_ID).is_none());
}

#[test]
fn what_is_no_request_inside_a_session_is_refused() {
    let p = providers();
    let mut responder = established(&p);
    let mut context = context();
    let mut answer = [0u8; 16];
    let before = keys(&responder);
    let refused = [
        (&[0x12u8, 0xe8][..], SpdmError::InvalidMsgField),
        (&[0x12, 0xe8, 0, 0, 0], SpdmError::InvalidMsgField),
        (&[0x12], SpdmError::InvalidMsgField),
        (&[0x11, 0xe8, 0, 0], SpdmError::InvalidMsgField),
        (&[0x12, 0xe9, 4, 0], SpdmError::InvalidMsgField),
        (&[0x12, 0xe9, 0, 0], SpdmError::InvalidMsgField),
        (&[0x12, 0xec, 2, 0], SpdmError::InvalidMsgField),
        (&[0x12, 0xff, 0, 0], SpdmError::InvalidMsgField),
        (&[0x12, 0x84, 0, 0], SpdmError::Unexpected),
        (&[0x12, 0xe4, 0, 0], SpdmError::Unexpected),
        (&[0x12, 0x68, 0, 0], SpdmError::Unexpected),
    ];
    for (request, error) in refused {
        assert_eq!(
            answer_session_request(&mut responder, &p.hkdf, &mut context, SESSION_ID, request, &mut answer),
            Err(error),
            "{request:x?}"
        );
        assert_eq!(keys(&responder), before);
    }
    // a buffer that is too small for the acknowledgement
    assert_eq!(
        answer_session_request(&mut responder, &p.hkdf, &mut context, SESSION_ID, &[0x12, 0xec, 0, 0], &mut answer[..3]),
        Err(SpdmError::InvalidMsgField)
    );
    assert!(responder.sessions.get_session_via_id(SESSION_ID).is_some());
    assert_eq!(
        write_session_response(&mut context, VERSION, SpdmSessionRequest::Heartbeat, &mut answer[..3]),
        Err(SpdmError::InvalidMsgField)
    );
    assert_eq!(SpdmSessionRequest::Heartbeat.response_code(), SpdmRequestResponseCode::SpdmResponseHeartbeatAck);

    // responses that acknowledge nothing
    for (response, error) in [
        (&[0x12u8, 0x69, 0, 0][..], SpdmError::Unexpected),
        (&[0x12, 0x7f, 0x03, 0], SpdmError::Busy),
        (&[0x12, 0x7f, 0x02, 0], SpdmError::Unexpected),
        (&[0x11, 0x68, 0, 0], SpdmError::InvalidMsgField),
        (&[0x12, 0x68, 0], SpdmError::InvalidMsgField),
    ] {
        assert_eq!(
            take_session_response(&mut responder, &p.hkdf, &mut context, SESSION_ID, SpdmSessionRequest::Heartbeat, response),
            Err(error)
        );
    }
}
