use spdmlib::codec::{Codec, Writer};
use spdmlib::common::connection::{
    session_transcript_hash, SpdmConnection, SpdmConnectionState, SpdmExchange,
};
use spdmlib::common::session::{SpdmSessionCryptoParam, SpdmSessionState};
use spdmlib::common::spdm_codec::SpdmCodec;
use spdmlib::common::transcript::{SpdmTranscriptBufferId, SpdmTranscriptStrategy};
use spdmlib::common::SpdmContext;
use spdmlib::crypto;
use spdmlib::crypto::spdm_ring;
use spdmlib::crypto::{ProviderSlot, SpdmDhe, SpdmDheKeyExchange};
use spdmlib::error::SpdmError;
use spdmlib::message::{
    decode_key_exchange_request, SpdmKeyExchangeRequestPayload, SpdmKeyUpdateOperation,
    SpdmMessageHeader, SpdmRequestResponseCode,
};
use spdmlib::protocol::{
    SpdmAeadAlgo, SpdmBaseHashAlgo, SpdmDheAlgo, SpdmDheExchangeStruct, SpdmDheFinalKeyStruct,
    SpdmDigestStruct, SpdmHKDFKeyStruct, SpdmKeyScheduleAlgo, SpdmMeasurementRecordStructure,
    SpdmMeasurementSpecification, SpdmMeasurementSummaryHashType, SpdmOpaqueStruct,
    SpdmReqAsymAlgo, SpdmSignatureStruct, SpdmVersion,
};
use spdmlib::secret::SpdmSecret;

type Hash = spdm_ring::hash_impl::SpdmRingHash;
type Hmac = spdm_ring::hmac_impl::SpdmRingHmac;
type Hkdf = spdm_ring::hkdf_impl::SpdmRingHkdf;
type Aead = spdm_ring::aead_impl::SpdmRingAead;

/// Key agreement on the curve P-384 by ring.
struct RingP384;

struct RingP384Private {
    key: ring::agreement::EphemeralPrivateKey,
}

impl SpdmDhe for RingP384 {
    type KeyExchange = RingP384Private;

    fn generate_key_pair(&self, dhe_algo: SpdmDheAlgo) -> Option<(SpdmDheExchangeStruct, RingP384Private)> {
        if dhe_algo != SpdmDheAlgo::SECP_384_R1 {
            return None;
        }
        let rng = ring::rand::SystemRandom::new();
        let key = ring::agreement::EphemeralPrivateKey::generate(&ring::agreement::ECDH_P384, &rng).ok()?;
        let public = key.compute_public_key().ok()?;
        // ring puts the byte 4 in front of the two coordinates
        let exchange = SpdmDheExchangeStruct::from_bytes(&public.as_ref()[1..])?;
        Some((exchange, RingP384Private { key }))
    }
}

impl SpdmDheKeyExchange for RingP384Private {
    fn compute_final_key(self, peer_pub_key: &SpdmDheExchangeStruct) -> Option<SpdmDheFinalKeyStruct> {
        let mut point = vec![4u8];
        point.extend_from_slice(peer_pub_key.as_ref());
        let peer = ring::agreement::UnparsedPublicKey::new(&ring::agreement::ECDH_P384, point);
        ring::agreement::agree_ephemeral(self.key, &peer, |secret| SpdmDheFinalKeyStruct::from_bytes(secret))
            .ok()?
    }
}

struct Providers {
    hash: ProviderSlot<Hash>,
    hmac: ProviderSlot<Hmac>,
    hkdf: ProviderSlot<Hkdf>,
    aead: ProviderSlot<Aead>,
    dhe: ProviderSlot<RingP384>,
}

fn providers() -> Providers {
    let mut hash = ProviderSlot::empty();
    assert!(crypto::hash::register(&mut hash, spdm_ring::hash_impl::DEFAULT));
    let mut hmac = ProviderSlot::empty();
    assert!(crypto::hmac::register(&mut hmac, spdm_ring::hmac_impl::DEFAULT));
    let mut hkdf = ProviderSlot::empty();
    assert!(crypto::hkdf::register(&mut hkdf, spdm_ring::hkdf_impl::DEFAULT));
    let mut aead = ProviderSlot::empty();
    assert!(crypto::aead::register(&mut aead, spdm_ring::aead_impl::DEFAULT));
    let mut dhe = ProviderSlot::empty();
    assert!(crypto::dhe::register(&mut dhe, RingP384));
    Providers { hash, hmac, hkdf, aead, dhe }
}

const VERSION: SpdmVersion = SpdmVersion::SpdmVersion12;
const HASH: SpdmBaseHashAlgo = SpdmBaseHashAlgo::TPM_ALG_SHA_384;
const SESSION_ID: u32 = 0x0001_fffe;
const CERT_CHAIN: &[u8] = b"the certificate chain of the responder";

fn crypto_param() -> SpdmSessionCryptoParam {
    SpdmSessionCryptoParam {
        base_hash_algo: HASH,
        dhe_algo: SpdmDheAlgo::SECP_384_R1,
        aead_algo: SpdmAeadAlgo::AES_256_GCM,
        key_schedule_algo: SpdmKeyScheduleAlgo::SPDM_KEY_SCHEDULE,
    }
}

/// A connection on which version, capabilities and algorithms are exchanged.
fn negotiated(p: &Providers) -> SpdmConnection<Hash> {
    let mut connection = SpdmConnection::new(SpdmTranscriptStrategy::Buffered, &p.hash, HASH).unwrap();
    connection.record_exchange(&p.hash, SpdmExchange::Version, &[0x10, 0x84, 0, 0], &[0x10, 0x04]).unwrap();
    connection.record_exchange(&p.hash, SpdmExchange::Capabilities, &[0x12, 0xe1], &[0x12, 0x61]).unwrap();
    connection
        .record_exchange(&p.hash, SpdmExchange::NegotiateAlgorithms, &[0x12, 0xe3], &[0x12, 0x63])
        .unwrap();
    assert_eq!(connection.state, SpdmConnectionState::SpdmConnectionNegotiated);
    connection
}

fn header(code: SpdmRequestResponseCode) -> [u8; 2] {
    let mut bytes = [0u8; 2];
    let mut writer = Writer::init(&mut bytes);
    SpdmMessageHeader { version: VERSION, request_response_code: code }.encode(&mut writer);
    bytes
}

/// Runs KEY_EXCHANGE and KEY_EXCHANGE_RSP on both sides, up to the handshake keys.
fn key_exchange(p: &Providers) -> (SpdmConnection<Hash>, SpdmConnection<Hash>) {
    let mut requester = negotiated(p);
    let mut responder = negotiated(p);
    let mut context = SpdmContext::new();
    context.negotiate_info.dhe_sel = SpdmDheAlgo::SECP_384_R1;

    // the requester makes its key pair and sends KEY_EXCHANGE
    let (requester_public, requester_private) =
        crypto::dhe::generate_key_pair(&p.dhe, SpdmDheAlgo::SECP_384_R1).unwrap();
    let request = SpdmKeyExchangeRequestPayload {
        measurement_summary_hash_type: SpdmMeasurementSummaryHashType::SpdmMeasurementSummaryHashTypeNone,
        slot_id: 0,
        req_session_id: 0xfffe,
        session_policy: 0,
        random: [0x5a; 32],
        exchange: requester_public,
        opaque: SpdmOpaqueStruct::default(),
    };
    let mut wire = [0u8; 256];
    let mut writer = Writer::init(&mut wire);
    SpdmMessageHeader { version: VERSION, request_response_code: SpdmRequestResponseCode::SpdmRequestKeyExchange }
        .encode(&mut writer);
    request.spdm_encode(&mut context, &mut writer);
    let used = writer.used();
    let request_wire = &wire[..used];
    assert_eq!(&request_wire[..2], &[0x12, 0xe4]);

    // the responder reads it, makes its own key pair and answers
    let received = decode_key_exchange_request(&mut context, &request_wire[2..]).unwrap();
    assert_eq!(received.exchange.as_ref(), requester_public.as_ref());
    let (responder_public, responder_private) =
        crypto::dhe::generate_key_pair(&p.dhe, SpdmDheAlgo::SECP_384_R1).unwrap();
    let mut response_wire = header(SpdmRequestResponseCode::SpdmResponseKeyExchangeRsp).to_vec();
    response_wire.extend_from_slice(&[0, 0, 0x01, 0x00]);
    response_wire.extend_from_slice(responder_public.as_ref());

    let responder_secret = responder_private.compute_final_key(&received.exchange).unwrap();
    let requester_secret = requester_private.compute_final_key(&responder_public).unwrap();
    assert_eq!(requester_secret.as_ref(), responder_secret.as_ref());
    assert_eq!(requester_secret.data_size, 48);

    for (connection, secret) in [(&mut requester, requester_secret), (&mut responder, responder_secret)] {
        assert_eq!(connection.start_session(&p.hash, SESSION_ID, crypto_param(), false), Ok(0));
        connection.transcript.append(&p.hash, SpdmTranscriptBufferId::MessageK, request_wire).unwrap();
        connection.transcript.append(&p.hash, SpdmTranscriptBufferId::MessageK, &response_wire).unwrap();
        assert_eq!(
            connection.derive_session_handshake_keys(
                &p.hmac, &p.hkdf, &p.hash, SESSION_ID, VERSION, secret, CERT_CHAIN
            ),
            Ok(())
        );
        let session = connection.sessions.get_session_via_id(SESSION_ID).unwrap();
        assert_eq!(session.get_session_state(), SpdmSessionState::SpdmSessionHandshaking);
    }
    (requester, responder)
}

/// The verify-data that the requester puts into FINISH.
fn requester_verify_data(p: &Providers, requester: &mut SpdmConnection<Hash>) -> SpdmDigestStruct {
    let finish = header(SpdmRequestResponseCode::SpdmRequestFinish);
    requester.transcript.append(&p.hash, SpdmTranscriptBufferId::MessageF, &finish).unwrap();
    requester.transcript.append(&p.hash, SpdmTranscriptBufferId::MessageF, &[0, 0]).unwrap();
    let th = session_transcript_hash(&requester.transcript, &p.hash, CERT_CHAIN, true).unwrap();
    requester
        .sessions
        .get_session_via_id(SESSION_ID)
        .unwrap()
        .generate_hmac_with_finished_key(&p.hmac, true, th.as_ref())
        .unwrap()
}

#[test]
fn a_full_handshake_establishes_the_same_keys_on_both_sides() {
    let p = providers();
    let (mut requester, mut responder) = key_exchange(&p);

    // FINISH: the responder checks the requester's verify-data
    let verify_data = requester_verify_data(&p, &mut requester);
    assert_eq!(verify_data.data_size, 48);
    responder
        .transcript
        .append(&p.hash, SpdmTranscriptBufferId::MessageF, &[0x12, 0xe5, 0, 0])
        .unwrap();
    assert_eq!(
        responder.verify_session_finish(&p.hmac, &p.hash, SESSION_ID, true, CERT_CHAIN, &verify_data),
        Ok(())
    );

    // FINISH_RSP, then both sides derive the data keys
    let finish_rsp = [0x12u8, 0x65, 0, 0];
    for connection in [&mut requester, &mut responder] {
        connection.transcript.append(&p.hash, SpdmTranscriptBufferId::MessageF, &finish_rsp).unwrap();
        assert_eq!(
            connection.establish_session(&p.hkdf, &p.hash, SESSION_ID, VERSION, CERT_CHAIN),
            Ok(())
        );
    }

    let requester_session = *requester.sessions.get_session_via_id(SESSION_ID).unwrap();
    let responder_session = *responder.sessions.get_session_via_id(SESSION_ID).unwrap();
    let (a_request, a_response) = requester_session.export_keys().unwrap();
    let (b_request, b_response) = responder_session.export_keys().unwrap();
    for direction in [a_request, a_response, b_request, b_response] {
        assert_eq!(direction.encryption_key.data_size, 32);
        assert_eq!(direction.encryption_key.as_ref().len(), 32);
        assert_eq!(direction.salt.data_size, 12);
        assert_eq!(direction.salt.as_ref().len(), 12);
        assert_eq!(direction.sequence_number, 0);
    }
    assert_eq!(a_request.encryption_key.data, b_request.encryption_key.data);
    assert_eq!(a_request.salt.data, b_request.salt.data);
    assert_eq!(a_response.encryption_key.data, b_response.encryption_key.data);
    assert_eq!(a_response.salt.data, b_response.salt.data);
    assert_ne!(a_request.encryption_key.data, a_response.encryption_key.data);
    assert_eq!(
        requester_session.export_master_secret().unwrap().data,
        responder_session.export_master_secret().unwrap().data
    );
    assert_eq!(requester_session.get_session_state(), SpdmSessionState::SpdmSessionEstablished);

    // the session carries traffic: a heartbeat, then application data
    assert_eq!(requester.check_heartbeat(SESSION_ID), Ok(()));
    assert_eq!(responder.check_heartbeat(SESSION_ID), Ok(()));
    let mut record = [0u8; 128];
    let mut app = [0u8; 128];
    let used = requester
        .sessions
        .encode_spdm_secured_message(&p.aead, SESSION_ID, &[], &mut record, true)
        .unwrap();
    assert_eq!(
        responder.sessions.decode_spdm_secured_message(&p.aead, SESSION_ID, &record[..used], &mut app, false),
        Ok(0)
    );
    let used = responder
        .sessions
        .encode_spdm_secured_message(&p.aead, SESSION_ID, b"measurements", &mut record, false)
        .unwrap();
    let opened = requester
        .sessions
        .decode_spdm_secured_message(&p.aead, SESSION_ID, &record[..used], &mut app, true)
        .unwrap();
    assert_eq!(&app[..opened], b"measurements");

    // END_SESSION, and once more
    assert_eq!(requester.end_session(SESSION_ID), Ok(()));
    assert_eq!(responder.end_session(SESSION_ID), Ok(()));
    assert_eq!(responder.end_session(SESSION_ID), Err(SpdmError::SessionNotFound));
    assert_eq!(requester.end_session(SESSION_ID), Err(SpdmError::SessionNotFound));
    assert_eq!(requester.check_heartbeat(SESSION_ID), Err(SpdmError::SessionNotFound));
}

#[test]
fn a_finish_with_a_flipped_bit_in_its_verify_data_destroys_the_session() {
    let p = providers();
    for bit in [0usize, 7, 200, 383] {
        let (mut requester, mut responder) = key_exchange(&p);
        let mut verify_data = requester_verify_data(&p, &mut requester);
        responder
            .transcript
            .append(&p.hash, SpdmTranscriptBufferId::MessageF, &[0x12, 0xe5, 0, 0])
            .unwrap();
        verify_data.data[bit / 8] ^= 1 << (bit % 8);
        assert_eq!(
            responder.verify_session_finish(&p.hmac, &p.hash, SESSION_ID, true, CERT_CHAIN, &verify_data),
            Err(SpdmError::InvalidMac)
        );
        assert!(responder.sessions.get_session_via_id(SESSION_ID).is_none());
        assert_eq!(
            responder.establish_session(&p.hkdf, &p.hash, SESSION_ID, VERSION, CERT_CHAIN),
            Err(SpdmError::SessionNotFound)
        );
        // the connection can open a new session
        assert_eq!(responder.state, SpdmConnectionState::SpdmConnectionNegotiated);
        assert_eq!(responder.start_session(&p.hash, SESSION_ID, crypto_param(), false), Ok(0));
    }
}

#[test]
fn verify_data_over_another_transcript_is_refused() {
    let p = providers();
    let (mut requester, mut responder) = key_exchange(&p);
    let verify_data = requester_verify_data(&p, &mut requester);
    // the responder saw another FINISH than the requester sent
    responder
        .transcript
        .append(&p.hash, SpdmTranscriptBufferId::MessageF, &[0x12, 0xe5, 1, 0])
        .unwrap();
    assert_eq!(
        responder.verify_session_finish(&p.hmac, &p.hash, SESSION_ID, true, CERT_CHAIN, &verify_data),
        Err(SpdmError::InvalidMac)
    );
    assert!(responder.sessions.get_session_via_id(SESSION_ID).is_none());
}

#[test]
fn sessions_need_a_negotiated_connection() {
    let p = providers();
    let mut connection = SpdmConnection::new(SpdmTranscriptStrategy::Buffered, &p.hash, HASH).unwrap();
    assert_eq!(
        connection.start_session(&p.hash, SESSION_ID, crypto_param(), false),
        Err(SpdmError::InvalidState)
    );
    let mut connection = negotiated(&p);
    assert_eq!(
        connection.start_session(&p.hash, 0, crypto_param(), false),
        Err(SpdmError::InvalidMsgField)
    );
    assert_eq!(connection.start_session(&p.hash, 1, crypto_param(), false), Ok(0));
    assert_eq!(
        connection.start_session(&p.hash, 1, crypto_param(), false),
        Err(SpdmError::InvalidState)
    );
    assert_eq!(connection.start_session(&p.hash, 2, crypto_param(), true), Ok(1));
    assert_eq!(connection.start_session(&p.hash, 3, crypto_param(), false), Ok(2));
    assert_eq!(connection.start_session(&p.hash, 4, crypto_param(), false), Ok(3));
    assert_eq!(
        connection.start_session(&p.hash, 5, crypto_param(), false),
        Err(SpdmError::SessionLimit)
    );
    let session = connection.sessions.get_session_via_id(2).unwrap();
    assert!(session.get_use_psk());
    assert_eq!(session.get_crypto_param(), crypto_param());
    assert_eq!(session.get_session_state(), SpdmSessionState::SpdmSessionHandshaking);

    // steps on a session that is not there
    let secret = SpdmDheFinalKeyStruct::from_bytes(&[1u8; 48]).unwrap();
    assert_eq!(
        connection.derive_session_handshake_keys(&p.hmac, &p.hkdf, &p.hash, 9, VERSION, secret, CERT_CHAIN),
        Err(SpdmError::SessionNotFound)
    );
    assert_eq!(
        connection.establish_session(&p.hkdf, &p.hash, 9, VERSION, CERT_CHAIN),
        Err(SpdmError::SessionNotFound)
    );
    // a session that has no handshake keys is not established
    assert_eq!(
        connection.establish_session(&p.hkdf, &p.hash, 1, VERSION, CERT_CHAIN),
        Err(SpdmError::InvalidState)
    );
}

#[test]
fn a_heartbeat_before_the_session_is_established_destroys_it() {
    let p = providers();
    let (mut requester, _) = key_exchange(&p);
    assert_eq!(requester.check_heartbeat(SESSION_ID), Err(SpdmError::InvalidState));
    assert!(requester.sessions.get_session_via_id(SESSION_ID).is_none());
    assert_eq!(requester.check_heartbeat(SESSION_ID), Err(SpdmError::SessionNotFound));
}

/// A device with one pre-shared key. Its handshake secret is the MAC of the
/// key under zeros, its master secret the MAC of the word "master" under the
/// handshake secret.
struct PskDevice {
    psk_hint: Vec<u8>,
    psk: Vec<u8>,
}

impl PskDevice {
    fn expand(&self, hint: &[u8], info: Option<&[u8]>, from_handshake: bool) -> Option<SpdmHKDFKeyStruct> {
        if hint != &self.psk_hint[..] {
            return None;
        }
        let handshake = ring::hmac::sign(&ring::hmac::Key::new(ring::hmac::HMAC_SHA384, &[0u8; 48]), &self.psk);
        let prk = if from_handshake {
            handshake.as_ref().to_vec()
        } else {
            ring::hmac::sign(&ring::hmac::Key::new(ring::hmac::HMAC_SHA384, handshake.as_ref()), b"master")
                .as_ref()
                .to_vec()
        };
        let mut okm = [0u8; 48];
        ring::hkdf::Prk::new_less_safe(ring::hkdf::HKDF_SHA384, &prk)
            .expand(&[info?], ring::hkdf::HKDF_SHA384)
            .ok()?
            .fill(&mut okm)
            .ok()?;
        SpdmHKDFKeyStruct::from_bytes(&okm)
    }
}

impl SpdmSecret for PskDevice {
    fn spdm_measurement_collection(
        &self,
        _spdm_version: SpdmVersion,
        _measurement_specification: SpdmMeasurementSpecification,
        _measurement_hash_algo: SpdmBaseHashAlgo,
        _measurement_index: usize,
    ) -> Option<SpdmMeasurementRecordStructure> {
        None
    }

    fn spdm_generate_measurement_summary_hash(
        &self,
        _spdm_version: SpdmVersion,
        _base_hash_algo: SpdmBaseHashAlgo,
        _measurement_specification: SpdmMeasurementSpecification,
        _measurement_hash_algo: SpdmBaseHashAlgo,
        _measurement_summary_hash_type: SpdmMeasurementSummaryHashType,
    ) -> Option<SpdmDigestStruct> {
        None
    }

    fn spdm_requester_data_sign(
        &self,
        _spdm_version: SpdmVersion,
        _op_code: u8,
        _req_base_asym_alg: SpdmReqAsymAlgo,
        _base_hash_algo: SpdmBaseHashAlgo,
        _is_data_hash: bool,
        _message: &[u8],
        _message_size: u8,
    ) -> Option<SpdmSignatureStruct> {
        None
    }

    fn spdm_responder_data_sign(
        &self,
        _spdm_version: SpdmVersion,
        _op_code: u8,
        _req_base_asym_alg: SpdmReqAsymAlgo,
        _base_hash_algo: SpdmBaseHashAlgo,
        _is_data_hash: bool,
        _message: &[u8],
        _message_size: u8,
    ) -> Option<SpdmSignatureStruct> {
        None
    }

    fn spdm_psk_handshake_secret_hkdf_expand(
        &self,
        _spdm_version: SpdmVersion,
        _base_hash_algo: SpdmBaseHashAlgo,
        psk_hint: &[u8],
        _psk_hint_size: Option<usize>,
        info: Option<&[u8]>,
        _info_size: Option<usize>,
    ) -> Option<SpdmHKDFKeyStruct> {
        self.expand(psk_hint, info, true)
    }

    fn spdm_psk_master_secret_hkdf_expand(
        &self,
        _spdm_version: SpdmVersion,
        _base_hash_algo: SpdmBaseHashAlgo,
        psk_hint: &[u8],
        _psk_hint_size: Option<usize>,
        info: Option<&[u8]>,
        _info_size: Option<usize>,
    ) -> Option<SpdmHKDFKeyStruct> {
        self.expand(psk_hint, info, false)
    }
}

fn psk_device(psk: &[u8]) -> ProviderSlot<PskDevice> {
    let mut slot = ProviderSlot::empty();
    assert!(spdmlib::secret::register(
        &mut slot,
        PskDevice { psk_hint: b"hint".to_vec(), psk: psk.to_vec() }
    ));
    slot
}

fn psk_handshake(
    p: &Providers,
    device: &ProviderSlot<PskDevice>,
    hint: &[u8],
) -> Result<SpdmConnection<Hash>, SpdmError> {
    let mut connection = negotiated(p);
    connection.start_session(&p.hash, SESSION_ID, crypto_param(), true)?;
    connection.transcript.append(&p.hash, SpdmTranscriptBufferId::MessageK, &[0x12, 0xe6, 0, 0])?;
    connection.transcript.append(&p.hash, SpdmTranscriptBufferId::MessageK, &[0x12, 0x66, 0, 0])?;
    connection.derive_session_handshake_keys_psk(device, &p.hkdf, &p.hash, SESSION_ID, VERSION, hint)?;
    connection.transcript.append(&p.hash, SpdmTranscriptBufferId::MessageF, &[0x12, 0xe7, 0, 0])?;
    connection.transcript.append(&p.hash, SpdmTranscriptBufferId::MessageF, &[0x12, 0x67, 0, 0])?;
    connection.establish_session_psk(device, &p.hkdf, &p.hash, SESSION_ID, VERSION, hint)?;
    Ok(connection)
}

#[test]
fn a_psk_handshake_needs_no_key_agreement() {
    let p = providers();
    let mut requester = psk_handshake(&p, &psk_device(b"the pre-shared key"), b"hint").unwrap();
    let mut responder = psk_handshake(&p, &psk_device(b"the pre-shared key"), b"hint").unwrap();

    let requester_session = *requester.sessions.get_session_via_id(SESSION_ID).unwrap();
    let responder_session = *responder.sessions.get_session_via_id(SESSION_ID).unwrap();
    assert!(requester_session.get_use_psk());
    assert_eq!(requester_session.get_session_state(), SpdmSessionState::SpdmSessionEstablished);
    let export = requester_session.export_master_secret().unwrap();
    assert_eq!(export.data_size, 48);
    assert_eq!(export.as_ref().len(), 48);
    assert_eq!(export.data, responder_session.export_master_secret().unwrap().data);
    let (a_request, a_response) = requester_session.export_keys().unwrap();
    let (b_request, b_response) = responder_session.export_keys().unwrap();
    assert_eq!(a_request.encryption_key.data_size, 32);
    assert_eq!(a_request.encryption_key.data, b_request.encryption_key.data);
    assert_eq!(a_response.salt.data, b_response.salt.data);

    let mut record = [0u8; 64];
    let mut app = [0u8; 64];
    let used = requester
        .sessions
        .encode_spdm_secured_message(&p.aead, SESSION_ID, b"psk", &mut record, true)
        .unwrap();
    assert_eq!(
        responder.sessions.decode_spdm_secured_message(&p.aead, SESSION_ID, &record[..used], &mut app, false),
        Ok(3)
    );

    // another key gives other secrets
    let other = psk_handshake(&p, &psk_device(b"another key"), b"hint").unwrap();
    let other_session = *other.sessions.get_session_via_id(SESSION_ID).unwrap();
    assert_ne!(other_session.export_master_secret().unwrap().data, export.data);
}

#[test]
fn the_steps_of_one_kind_of_session_are_refused_on_the_other() {
    let p = providers();
    let device = psk_device(b"key");
    // an unknown hint is a fault of the provider
    assert_eq!(psk_handshake(&p, &device, b"other").err(), Some(SpdmError::Fault));
    let unregistered: ProviderSlot<PskDevice> = ProviderSlot::empty();
    assert_eq!(psk_handshake(&p, &unregistered, b"hint").err(), Some(SpdmError::Fault));

    // a session on a pre-shared key takes no shared secret
    let mut connection = negotiated(&p);
    connection.start_session(&p.hash, SESSION_ID, crypto_param(), true).unwrap();
    let secret = SpdmDheFinalKeyStruct::from_bytes(&[1u8; 48]).unwrap();
    assert_eq!(
        connection
            .derive_session_handshake_keys(&p.hmac, &p.hkdf, &p.hash, SESSION_ID, VERSION, secret, CERT_CHAIN),
        Err(SpdmError::InvalidState)
    );
    // and a session by key agreement does not ask the secret provider
    let mut connection = negotiated(&p);
    connection.start_session(&p.hash, SESSION_ID, crypto_param(), false).unwrap();
    assert_eq!(
        connection.derive_session_handshake_keys_psk(&device, &p.hkdf, &p.hash, SESSION_ID, VERSION, b"hint"),
        Err(SpdmError::InvalidState)
    );
    assert_eq!(
        connection.establish_session_psk(&device, &p.hkdf, &p.hash, SESSION_ID, VERSION, b"hint"),
        Err(SpdmError::InvalidState)
    );
    assert_eq!(
        connection.sessions.get_session_via_id(SESSION_ID).unwrap().get_session_state(),
        SpdmSessionState::SpdmSessionHandshaking
    );
}

/// A session by key agreement on a connection of the given strategy, from
/// the start to the established session, with the requester's verify-data
/// checked on the way.
fn session_over(p: &Providers, strategy: SpdmTranscriptStrategy) -> SpdmConnection<Hash> {
    let mut connection = SpdmConnection::new(strategy, &p.hash, HASH).unwrap();
    connection.record_exchange(&p.hash, SpdmExchange::Version, b"get version", b"version").unwrap();
    connection.record_exchange(&p.hash, SpdmExchange::Capabilities, b"get caps", b"caps").unwrap();
    connection.record_exchange(&p.hash, SpdmExchange::NegotiateAlgorithms, b"negotiate", b"algorithms").unwrap();
    connection.start_session(&p.hash, SESSION_ID, crypto_param(), false).unwrap();
    connection.record_session_message(&p.hash, SESSION_ID, false, b"key exchange").unwrap();
    connection.record_session_message(&p.hash, SESSION_ID, false, b"key exchange rsp").unwrap();
    let secret = SpdmDheFinalKeyStruct::from_bytes(&[1u8; 48]).unwrap();
    assert_eq!(
        connection
            .derive_session_handshake_keys(&p.hmac, &p.hkdf, &p.hash, SESSION_ID, VERSION, secret, CERT_CHAIN),
        Ok(())
    );
    let responder_verify_data =
        connection.session_verify_data(&p.hmac, &p.hash, SESSION_ID, false, CERT_CHAIN, false).unwrap();
    assert_eq!(
        connection.verify_session_key_exchange(&p.hmac, &p.hash, SESSION_ID, CERT_CHAIN, &responder_verify_data),
        Ok(())
    );
    connection.record_session_message(&p.hash, SESSION_ID, true, b"finish").unwrap();
    let verify_data = connection.session_verify_data(&p.hmac, &p.hash, SESSION_ID, true, CERT_CHAIN, true).unwrap();
    assert_eq!(
        connection.verify_session_finish(&p.hmac, &p.hash, SESSION_ID, true, CERT_CHAIN, &verify_data),
        Ok(())
    );
    connection.record_session_message(&p.hash, SESSION_ID, true, b"finish rsp").unwrap();
    assert_eq!(connection.establish_session(&p.hkdf, &p.hash, SESSION_ID, VERSION, CERT_CHAIN), Ok(()));
    connection
}

#[test]
fn a_handshake_over_running_hashes_gives_the_keys_of_one_over_bytes() {
    let p = providers();
    let buffered = session_over(&p, SpdmTranscriptStrategy::Buffered);
    let streaming = session_over(&p, SpdmTranscriptStrategy::Streaming);
    for with_finish in [false, true] {
        let over_bytes = session_transcript_hash(&buffered.transcript, &p.hash, CERT_CHAIN, with_finish).unwrap();
        let over_hashes = session_transcript_hash(&streaming.transcript, &p.hash, CERT_CHAIN, with_finish).unwrap();
        assert_eq!(over_bytes.data_size, 48);
        assert_eq!(over_bytes.data, over_hashes.data);
    }
    let a = *buffered.sessions.get_session_via_id(SESSION_ID).unwrap();
    let b = *streaming.sessions.get_session_via_id(SESSION_ID).unwrap();
    assert_eq!(b.get_session_state(), SpdmSessionState::SpdmSessionEstablished);
    let (a_request, a_response) = a.export_keys().unwrap();
    let (b_request, b_response) = b.export_keys().unwrap();
    assert_eq!(a_request.encryption_key.data, b_request.encryption_key.data);
    assert_eq!(a_request.salt.data, b_request.salt.data);
    assert_eq!(a_response.encryption_key.data, b_response.encryption_key.data);
    assert_eq!(a_response.salt.data, b_response.salt.data);
    assert_eq!(a.export_master_secret().unwrap().data, b.export_master_secret().unwrap().data);

    // what one seals the other opens
    let mut requester = buffered;
    let mut responder = streaming;
    let mut record = [0u8; 64];
    let mut app = [0u8; 64];
    let used = requester.sessions.encode_spdm_secured_message(&p.aead, SESSION_ID, b"hello", &mut record, true).unwrap();
    let opened =
        responder.sessions.decode_spdm_secured_message(&p.aead, SESSION_ID, &record[..used], &mut app, false).unwrap();
    assert_eq!(&app[..opened], b"hello");
}

#[test]
fn verify_data_over_running_hashes_is_checked_like_verify_data_over_bytes() {
    let p = providers();
    for strategy in [SpdmTranscriptStrategy::Buffered, SpdmTranscriptStrategy::Streaming] {
        let mut connection = SpdmConnection::new(strategy, &p.hash, HASH).unwrap();
        connection.record_exchange(&p.hash, SpdmExchange::Version, b"a", b"b").unwrap();
        connection.record_exchange(&p.hash, SpdmExchange::Capabilities, b"a", b"b").unwrap();
        connection.record_exchange(&p.hash, SpdmExchange::NegotiateAlgorithms, b"a", b"b").unwrap();
        connection.start_session(&p.hash, SESSION_ID, crypto_param(), false).unwrap();
        let secret = SpdmDheFinalKeyStruct::from_bytes(&[1u8; 48]).unwrap();
        connection
            .derive_session_handshake_keys(&p.hmac, &p.hkdf, &p.hash, SESSION_ID, VERSION, secret, CERT_CHAIN)
            .unwrap();
        let mut verify_data =
            connection.session_verify_data(&p.hmac, &p.hash, SESSION_ID, true, CERT_CHAIN, true).unwrap();
        verify_data.data[5] ^= 0x10;
        assert_eq!(
            connection.verify_session_finish(&p.hmac, &p.hash, SESSION_ID, true, CERT_CHAIN, &verify_data),
            Err(SpdmError::InvalidMac)
        );
        assert!(connection.sessions.get_session_via_id(SESSION_ID).is_none());
    }
}

/// Both sides of an established session by key agreement.
fn established_pair(p: &Providers) -> (SpdmConnection<Hash>, SpdmConnection<Hash>) {
    let (mut requester, mut responder) = key_exchange(p);
    let finish = [0x12u8, 0xe5, 0, 0, 0x12, 0x65, 0, 0];
    for connection in [&mut requester, &mut responder] {
        connection.transcript.append(&p.hash, SpdmTranscriptBufferId::MessageF, &finish).unwrap();
        connection.establish_session(&p.hkdf, &p.hash, SESSION_ID, VERSION, CERT_CHAIN).unwrap();
    }
    (requester, responder)
}

#[test]
fn a_key_update_of_all_keys_is_confirmed_under_the_new_keys() {
    let p = providers();
    let (mut requester, mut responder) = established_pair(&p);
    let mut record = [0u8; 64];
    let mut app = [0u8; 64];
    let used = requester.sessions.encode_spdm_secured_message(&p.aead, SESSION_ID, b"a", &mut record, true).unwrap();
    responder.sessions.decode_spdm_secured_message(&p.aead, SESSION_ID, &record[..used], &mut app, false).unwrap();
    let (old_request, old_response) = requester.sessions.get_session_via_id(SESSION_ID).unwrap().export_keys().unwrap();
    assert_eq!(old_request.sequence_number, 1);

    // no confirmation without an update
    assert_eq!(
        requester.process_key_update(&p.hkdf, SESSION_ID, VERSION, SpdmKeyUpdateOperation::SpdmVerifyNewKey),
        Err(SpdmError::InvalidState)
    );
    assert_eq!(requester.revert_key_update(SESSION_ID), Err(SpdmError::InvalidState));

    for connection in [&mut requester, &mut responder] {
        assert_eq!(
            connection.process_key_update(&p.hkdf, SESSION_ID, VERSION, SpdmKeyUpdateOperation::SpdmUpdateAllKeys),
            Ok(())
        );
        assert_eq!(
            connection.process_key_update(&p.hkdf, SESSION_ID, VERSION, SpdmKeyUpdateOperation::SpdmUpdateSingleKey),
            Err(SpdmError::InvalidState)
        );
    }
    // the confirmation travels under the new keys
    let used = requester.sessions.encode_spdm_secured_message(&p.aead, SESSION_ID, b"verify", &mut record, true).unwrap();
    assert_eq!(
        responder.sessions.decode_spdm_secured_message(&p.aead, SESSION_ID, &record[..used], &mut app, false),
        Ok(6)
    );
    for connection in [&mut requester, &mut responder] {
        assert_eq!(
            connection.process_key_update(&p.hkdf, SESSION_ID, VERSION, SpdmKeyUpdateOperation::SpdmVerifyNewKey),
            Ok(())
        );
    }
    let (request, response) = requester.sessions.get_session_via_id(SESSION_ID).unwrap().export_keys().unwrap();
    assert_ne!(request.encryption_key.data, old_request.encryption_key.data);
    assert_ne!(response.encryption_key.data, old_response.encryption_key.data);
    assert_ne!(request.salt.data, old_request.salt.data);
    assert_ne!(response.salt.data, old_response.salt.data);
    assert_eq!((request.sequence_number, response.sequence_number), (1, 0));
    let (peer_request, peer_response) =
        responder.sessions.get_session_via_id(SESSION_ID).unwrap().export_keys().unwrap();
    assert_eq!(request.encryption_key.data, peer_request.encryption_key.data);
    assert_eq!(response.encryption_key.data, peer_response.encryption_key.data);
}

#[test]
fn a_key_update_that_is_not_confirmed_is_reverted() {
    let p = providers();
    let (mut requester, _) = established_pair(&p);
    let (old_request, old_response) = requester.sessions.get_session_via_id(SESSION_ID).unwrap().export_keys().unwrap();
    assert_eq!(
        requester.process_key_update(&p.hkdf, SESSION_ID, VERSION, SpdmKeyUpdateOperation::SpdmUpdateSingleKey),
        Ok(())
    );
    let (request, response) = requester.sessions.get_session_via_id(SESSION_ID).unwrap().export_keys().unwrap();
    assert_ne!(request.encryption_key.data, old_request.encryption_key.data);
    assert_eq!(response.encryption_key.data, old_response.encryption_key.data);
    assert_eq!(requester.revert_key_update(SESSION_ID), Ok(()));
    let (request, response) = requester.sessions.get_session_via_id(SESSION_ID).unwrap().export_keys().unwrap();
    assert_eq!(request.encryption_key.data, old_request.encryption_key.data);
    assert_eq!(request.salt.data, old_request.salt.data);
    assert_eq!(response.encryption_key.data, old_response.encryption_key.data);

    // a session that is not there, or is not established
    assert_eq!(
        requester.process_key_update(&p.hkdf, 7, VERSION, SpdmKeyUpdateOperation::SpdmUpdateAllKeys),
        Err(SpdmError::SessionNotFound)
    );
    assert_eq!(requester.revert_key_update(7), Err(SpdmError::SessionNotFound));
    let (mut early, _) = key_exchange(&p);
    assert_eq!(
        early.process_key_update(&p.hkdf, SESSION_ID, VERSION, SpdmKeyUpdateOperation::SpdmUpdateAllKeys),
        Err(SpdmError::InvalidState)
    );
}

#[test]
fn the_responder_sends_verify_data_that_the_requester_accepts() {
    let p = providers();
    let (mut requester, responder) = key_exchange(&p);

    let verify_data =
        responder.session_verify_data(&p.hmac, &p.hash, SESSION_ID, false, CERT_CHAIN, false).unwrap();
    assert_eq!(verify_data.data_size, 48);
    // it is the MAC of the first transcript hash under the responder's finished key
    let th1 = session_transcript_hash(&responder.transcript, &p.hash, CERT_CHAIN, false).unwrap();
    let mac = responder
        .sessions
        .get_session_via_id(SESSION_ID)
        .unwrap()
        .generate_hmac_with_finished_key(&p.hmac, false, th1.as_ref())
        .unwrap();
    assert_eq!(verify_data.data, mac.data);
    // the requester's own verify-data is another one
    let own = responder.session_verify_data(&p.hmac, &p.hash, SESSION_ID, true, CERT_CHAIN, false).unwrap();
    assert_ne!(own.data, verify_data.data);

    assert_eq!(
        requester.verify_session_key_exchange(&p.hmac, &p.hash, SESSION_ID, CERT_CHAIN, &verify_data),
        Ok(())
    );
    assert!(requester.sessions.get_session_via_id(SESSION_ID).is_some());

    // the verify-data of the other side, or over another chain, destroys the session
    assert_eq!(
        requester.verify_session_key_exchange(&p.hmac, &p.hash, SESSION_ID, CERT_CHAIN, &own),
        Err(SpdmError::InvalidMac)
    );
    assert!(requester.sessions.get_session_via_id(SESSION_ID).is_none());
    assert_eq!(
        requester.verify_session_key_exchange(&p.hmac, &p.hash, SESSION_ID, CERT_CHAIN, &verify_data),
        Err(SpdmError::SessionNotFound)
    );
}

#[test]
fn verify_data_needs_a_session_with_handshake_keys() {
    let p = providers();
    let mut connection = negotiated(&p);
    assert_eq!(
        connection.session_verify_data(&p.hmac, &p.hash, SESSION_ID, true, CERT_CHAIN, false).err(),
        Some(SpdmError::SessionNotFound)
    );
    assert_eq!(connection.start_session(&p.hash, SESSION_ID, crypto_param(), false), Ok(0));
    assert_eq!(
        connection.session_verify_data(&p.hmac, &p.hash, SESSION_ID, true, CERT_CHAIN, false).err(),
        Some(SpdmError::InvalidState)
    );
    // without an HMAC provider there is no MAC
    let (_, responder) = key_exchange(&p);
    let no_hmac: ProviderSlot<Hmac> = ProviderSlot::empty();
    assert_eq!(
        responder.session_verify_data(&no_hmac, &p.hash, SESSION_ID, true, CERT_CHAIN, false).err(),
        Some(SpdmError::Fault)
    );
}

#[test]
fn the_messages_of_a_session_go_into_its_transcript_buffers() {
    let p = providers();
    let mut connection = negotiated(&p);
    assert_eq!(
        connection.record_session_message(&p.hash, SESSION_ID, false, b"key exchange"),
        Err(SpdmError::SessionNotFound)
    );
    assert_eq!(connection.transcript.stored(SpdmTranscriptBufferId::MessageK), &b""[..]);

    assert_eq!(connection.start_session(&p.hash, SESSION_ID, crypto_param(), false), Ok(0));
    assert_eq!(connection.record_session_message(&p.hash, SESSION_ID, false, b"key exchange"), Ok(()));
    assert_eq!(connection.record_session_message(&p.hash, SESSION_ID, false, b" rsp"), Ok(()));
    assert_eq!(connection.record_session_message(&p.hash, SESSION_ID, true, b"finish"), Ok(()));
    assert_eq!(
        connection.transcript.stored(SpdmTranscriptBufferId::MessageK),
        &b"key exchange rsp"[..]
    );
    assert_eq!(connection.transcript.stored(SpdmTranscriptBufferId::MessageF), &b"finish"[..]);
}

#[test]
fn a_message_that_overflows_the_transcript_destroys_the_session() {
    let p = providers();
    let mut connection = negotiated(&p);
    assert_eq!(connection.start_session(&p.hash, SESSION_ID, crypto_param(), false), Ok(0));
    let large = [0x33u8; 0x1200 - 4];
    assert_eq!(connection.record_session_message(&p.hash, SESSION_ID, false, &[1, 2, 3, 4]), Ok(()));
    // exactly full
    assert_eq!(connection.record_session_message(&p.hash, SESSION_ID, false, &large), Ok(()));
    assert_eq!(connection.transcript.len(SpdmTranscriptBufferId::MessageK), 0x1200);
    assert_eq!(
        connection.record_session_message(&p.hash, SESSION_ID, false, &[5]),
        Err(SpdmError::TranscriptOverflow)
    );
    assert_eq!(connection.transcript.len(SpdmTranscriptBufferId::MessageK), 0x1200);
    assert!(connection.sessions.get_session_via_id(SESSION_ID).is_none());
    // a new session starts with empty buffers
    assert_eq!(connection.start_session(&p.hash, SESSION_ID, crypto_param(), false), Ok(0));
    assert_eq!(connection.transcript.len(SpdmTranscriptBufferId::MessageK), 0);
}
