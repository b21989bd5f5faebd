use spdmlib::codec::{Reader, Writer};
use spdmlib::common::connection::{SpdmConnection, SpdmConnectionState, SpdmExchange};
use spdmlib::common::session::SpdmSessionCryptoParam;
use spdmlib::common::spdm_codec::{encode_message, SpdmCodec};
use spdmlib::common::transcript::{SpdmTranscriptBufferId, SpdmTranscriptStrategy};
use spdmlib::common::SpdmContext;
use spdmlib::crypto;
use spdmlib::crypto::spdm_ring;
use spdmlib::crypto::{ProviderSlot, SpdmAsymVerify};
use spdmlib::error::{SpdmError, SpdmResult};
use spdmlib::message::{
    next_certificate_request, SpdmCertificateResponsePayload, SpdmChallengeAuthResponsePayload,
    SpdmChallengeRequestPayload, SpdmDigestsResponsePayload, SpdmErrorCode,
    SpdmErrorResponseNotReadyExtData, SpdmErrorResponsePayload, SpdmGetDigestsRequestPayload,
    SpdmRequestResponseCode,
};
use spdmlib::requester::authentication::{
    take_certificate_response, take_challenge_auth_response, take_digests_response,
};
use spdmlib::protocol::{
    SpdmAeadAlgo, SpdmBaseAsymAlgo, SpdmBaseHashAlgo, SpdmCertChainData, SpdmCertChainPortion,
    SpdmDheAlgo, SpdmDigestStruct, SpdmKeyScheduleAlgo, SpdmMeasurementSummaryHashType,
    SpdmOpaqueStruct, SpdmSignatureStruct, SpdmVersion,
};

type Hash = spdm_ring::hash_impl::SpdmRingHash;

/// Verification of ECDSA signatures on P-384 by ring. The certificate is
/// taken to be the bare public key.
struct RingEcdsaVerify;

impl SpdmAsymVerify for RingEcdsaVerify {
    fn verify(
        &self,
        _base_hash_algo: SpdmBaseHashAlgo,
        base_asym_algo: SpdmBaseAsymAlgo,
        public_cert_der: &[u8],
        data: &[u8],
        signature: &SpdmSignatureStruct,
    ) -> SpdmResult {
        if base_asym_algo != SpdmBaseAsymAlgo::TPM_ALG_ECDSA_ECC_NIST_P384 {
            return Err(SpdmError::InvalidSignature);
        }
        ring::signature::UnparsedPublicKey::new(&ring::signature::ECDSA_P384_SHA384_FIXED, public_cert_der)
            .verify(data, signature.as_ref())
            .map_err(|_| SpdmError::InvalidSignature)
    }
}

struct Device {
    key_pair: ring::signature::EcdsaKeyPair,
    rng: ring::rand::SystemRandom,
}

fn device() -> Device {
    let rng = ring::rand::SystemRandom::new();
    let algorithm = &ring::signature::ECDSA_P384_SHA384_FIXED_SIGNING;
    let document = ring::signature::EcdsaKeyPair::generate_pkcs8(algorithm, &rng).unwrap();
    let key_pair = ring::signature::EcdsaKeyPair::from_pkcs8(algorithm, document.as_ref(), &rng).unwrap();
    Device { key_pair, rng }
}

impl Device {
    fn public_key(&self) -> Vec<u8> {
        ring::signature::KeyPair::public_key(&self.key_pair).as_ref().to_vec()
    }

    fn sign(&self, data: &[u8]) -> SpdmSignatureStruct {
        let signature = self.key_pair.sign(&self.rng, data).unwrap();
        SpdmSignatureStruct::from_bytes(signature.as_ref()).unwrap()
    }
}

fn slots() -> (ProviderSlot<Hash>, ProviderSlot<RingEcdsaVerify>) {
    let mut hash = ProviderSlot::empty();
    assert!(crypto::hash::register(&mut hash, spdm_ring::hash_impl::DEFAULT));
    let mut verify = ProviderSlot::empty();
    assert!(crypto::asym_verify::register(&mut verify, RingEcdsaVerify));
    (hash, verify)
}

fn negotiated(hash: &ProviderSlot<Hash>) -> SpdmConnection<Hash> {
    let mut connection =
        SpdmConnection::new(SpdmTranscriptStrategy::Buffered, hash, SpdmBaseHashAlgo::TPM_ALG_SHA_384).unwrap();
    connection.record_exchange(hash, SpdmExchange::Version, b"get version", b"version").unwrap();
    connection.record_exchange(hash, SpdmExchange::Capabilities, b"get caps", b"caps").unwrap();
    connection.record_exchange(hash, SpdmExchange::NegotiateAlgorithms, b"negotiate", b"algorithms").unwrap();
    connection.record_exchange(hash, SpdmExchange::Digests, b"get digests", b"digests").unwrap();
    connection.record_exchange(hash, SpdmExchange::Certificate, b"get cert", b"cert").unwrap();
    connection
}

const M1M2: &[u8] =
    b"get versionversionget capscapsnegotiatealgorithmsget digestsdigestsget certcertchallengechallenge auth";

#[test]
fn a_challenge_authenticates_the_responder() {
    let (hash, verify) = slots();
    let device = device();
    let digest = ring::digest::digest(&ring::digest::SHA384, M1M2);
    let signature = device.sign(digest.as_ref());
    assert_eq!(signature.data_size, 96);

    let mut connection = negotiated(&hash);
    assert_eq!(
        connection.verify_challenge(
            &hash,
            &verify,
            SpdmBaseAsymAlgo::TPM_ALG_ECDSA_ECC_NIST_P384,
            &device.public_key(),
            b"challenge",
            b"challenge auth",
            &signature
        ),
        Ok(())
    );
    assert_eq!(connection.state, SpdmConnectionState::SpdmConnectionAuthenticated);
    assert_eq!(
        connection.transcript.stored(SpdmTranscriptBufferId::MessageC),
        &b"challengechallenge auth"[..]
    );
    // measurements can still be asked for, another challenge cannot
    assert_eq!(connection.record_exchange(&hash, SpdmExchange::Measurements, b"get", b"meas"), Ok(()));
    assert_eq!(
        connection.verify_challenge(
            &hash,
            &verify,
            SpdmBaseAsymAlgo::TPM_ALG_ECDSA_ECC_NIST_P384,
            &device.public_key(),
            b"challenge",
            b"challenge auth",
            &signature
        ),
        Err(SpdmError::InvalidState)
    );
}

#[test]
fn a_signature_that_does_not_verify_is_invalid() {
    let (hash, verify) = slots();
    let device = device();
    let digest = ring::digest::digest(&ring::digest::SHA384, M1M2);
    let signature = device.sign(digest.as_ref());
    let asym = SpdmBaseAsymAlgo::TPM_ALG_ECDSA_ECC_NIST_P384;

    // a flipped bit in the signature
    let mut flipped = signature;
    flipped.data[17] ^= 0x04;
    let mut connection = negotiated(&hash);
    assert_eq!(
        connection.verify_challenge(&hash, &verify, asym, &device.public_key(), b"challenge", b"challenge auth", &flipped),
        Err(SpdmError::InvalidSignature)
    );
    assert_eq!(connection.state, SpdmConnectionState::SpdmConnectionNegotiated);

    // a response other than the one that was signed
    let mut connection = negotiated(&hash);
    assert_eq!(
        connection.verify_challenge(&hash, &verify, asym, &device.public_key(), b"challenge", b"challenge AUTH", &signature),
        Err(SpdmError::InvalidSignature)
    );
    // the key of another device
    let mut connection = negotiated(&hash);
    let other = self::device();
    assert_eq!(
        connection.verify_challenge(&hash, &verify, asym, &other.public_key(), b"challenge", b"challenge auth", &signature),
        Err(SpdmError::InvalidSignature)
    );
    // no provider to verify with
    let mut connection = negotiated(&hash);
    let without: ProviderSlot<RingEcdsaVerify> = ProviderSlot::empty();
    assert_eq!(
        connection.verify_challenge(&hash, &without, asym, &device.public_key(), b"challenge", b"challenge auth", &signature),
        Err(SpdmError::InvalidSignature)
    );
    // a challenge that does not fit the transcript
    let mut connection = negotiated(&hash);
    assert_eq!(
        connection.verify_challenge(&hash, &verify, asym, &device.public_key(), &[0u8; 0x1200], b"x", &signature),
        Err(SpdmError::TranscriptOverflow)
    );
    assert_eq!(connection.transcript.len(SpdmTranscriptBufferId::MessageC), 0);
}

#[test]
fn a_challenge_is_verified_over_running_hashes_as_over_bytes() {
    let (hash, verify) = slots();
    let device = device();
    let asym = SpdmBaseAsymAlgo::TPM_ALG_ECDSA_ECC_NIST_P384;
    let digest = ring::digest::digest(&ring::digest::SHA384, M1M2);
    let signature = device.sign(digest.as_ref());

    let mut streaming =
        SpdmConnection::new(SpdmTranscriptStrategy::Streaming, &hash, SpdmBaseHashAlgo::TPM_ALG_SHA_384).unwrap();
    streaming.record_exchange(&hash, SpdmExchange::Version, b"get version", b"version").unwrap();
    streaming.record_exchange(&hash, SpdmExchange::Capabilities, b"get caps", b"caps").unwrap();
    streaming.record_exchange(&hash, SpdmExchange::NegotiateAlgorithms, b"negotiate", b"algorithms").unwrap();
    streaming.record_exchange(&hash, SpdmExchange::Digests, b"get digests", b"digests").unwrap();
    streaming.record_exchange(&hash, SpdmExchange::Certificate, b"get cert", b"cert").unwrap();

    // a signature over another transcript does not verify
    let other = device.sign(ring::digest::digest(&ring::digest::SHA384, b"another transcript").as_ref());
    let mut refused =
        SpdmConnection::new(SpdmTranscriptStrategy::Streaming, &hash, SpdmBaseHashAlgo::TPM_ALG_SHA_384).unwrap();
    refused.state = SpdmConnectionState::SpdmConnectionNegotiated;
    assert_eq!(
        refused.verify_challenge(&hash, &verify, asym, &device.public_key(), b"challenge", b"challenge auth", &other),
        Err(SpdmError::InvalidSignature)
    );
    assert_eq!(refused.state, SpdmConnectionState::SpdmConnectionNegotiated);

    assert_eq!(
        streaming.verify_challenge(&hash, &verify, asym, &device.public_key(), b"challenge", b"challenge auth", &signature),
        Ok(())
    );
    assert_eq!(streaming.state, SpdmConnectionState::SpdmConnectionAuthenticated);
    assert_eq!(
        streaming
            .transcript
            .snapshot_hash(
                &hash,
                &[SpdmTranscriptBufferId::MessageA, SpdmTranscriptBufferId::MessageB, SpdmTranscriptBufferId::MessageC]
            )
            .unwrap()
            .as_ref(),
        digest.as_ref()
    );
}

#[test]
fn signed_measurements_are_verified_over_their_transcript() {
    let (hash, verify) = slots();
    let device = device();
    let asym = SpdmBaseAsymAlgo::TPM_ALG_ECDSA_ECC_NIST_P384;
    for strategy in [SpdmTranscriptStrategy::Buffered, SpdmTranscriptStrategy::Streaming] {
        let mut connection =
            SpdmConnection::new(strategy, &hash, SpdmBaseHashAlgo::TPM_ALG_SHA_384).unwrap();
        connection.state = SpdmConnectionState::SpdmConnectionNegotiated;
        connection.record_exchange(&hash, SpdmExchange::Measurements, b"get 1", b"block 1").unwrap();
        connection.record_exchange(&hash, SpdmExchange::Measurements, b"get 2", b"block 2").unwrap();
        let digest = ring::digest::digest(&ring::digest::SHA384, b"get 1block 1get 2block 2");
        let signature = device.sign(digest.as_ref());
        assert_eq!(
            connection.verify_measurements_signature(&hash, &verify, asym, &device.public_key(), &signature),
            Ok(())
        );
        let mut flipped = signature;
        flipped.data[95] ^= 0x80;
        assert_eq!(
            connection.verify_measurements_signature(&hash, &verify, asym, &device.public_key(), &flipped),
            Err(SpdmError::InvalidSignature)
        );
        connection.record_exchange(&hash, SpdmExchange::Measurements, b"get 3", b"block 3").unwrap();
        assert_eq!(
            connection.verify_measurements_signature(&hash, &verify, asym, &device.public_key(), &signature),
            Err(SpdmError::InvalidSignature)
        );
        let without: ProviderSlot<Hash> = ProviderSlot::empty();
        assert_eq!(
            connection.verify_measurements_signature(&without, &verify, asym, &device.public_key(), &signature),
            Err(SpdmError::Fault)
        );
    }
}

fn encode(value: &SpdmErrorResponsePayload, capacity: usize) -> Vec<u8> {
    let mut context = SpdmContext::new();
    let mut buffer = vec![0u8; capacity];
    let mut writer = Writer::init(&mut buffer);
    value.spdm_encode(&mut context, &mut writer);
    let used = writer.used();
    buffer[..used].to_vec()
}

fn decode(bytes: &[u8]) -> Option<(SpdmErrorResponsePayload, usize)> {
    let mut context = SpdmContext::new();
    let mut reader = Reader::init(bytes);
    let value = SpdmErrorResponsePayload::spdm_read(&mut context, &mut reader)?;
    Some((value, reader.used()))
}

#[test]
fn an_error_response_carries_code_and_data() {
    let busy = SpdmErrorResponsePayload {
        error_code: SpdmErrorCode::SpdmErrorBusy,
        error_data: 0,
        extended_data: None,
    };
    assert_eq!(encode(&busy, 8), [0x03, 0]);
    assert_eq!(decode(&[0x03, 0, 9, 9]), Some((busy, 2)));

    let extended = SpdmErrorResponseNotReadyExtData { rdt_exponent: 10, request_code: 0xe0, token: 7, rdtm: 2 };
    let not_ready = SpdmErrorResponsePayload {
        error_code: SpdmErrorCode::SpdmErrorResponseNotReady,
        error_data: 0,
        extended_data: Some(extended),
    };
    assert_eq!(encode(&not_ready, 8), [0x42, 0, 10, 0xe0, 7, 2]);
    assert_eq!(decode(&[0x42, 0, 10, 0xe0, 7, 2]), Some((not_ready, 6)));
    assert_eq!(encode(&not_ready, 5), []);
    // cut short, or a code that is not defined
    assert_eq!(decode(&[0x42, 0, 10, 0xe0, 7]), None);
    assert_eq!(decode(&[0x03]), None);
    assert_eq!(decode(&[0x00, 0]), None);
    assert_eq!(decode(&[0x07, 0]), None);
}

#[test]
fn the_backoff_is_a_power_of_two() {
    let data = |rdt_exponent: u8| SpdmErrorResponseNotReadyExtData { rdt_exponent, request_code: 0, token: 0, rdtm: 0 };
    assert_eq!(data(0).backoff_micros(), Some(1));
    assert_eq!(data(1).backoff_micros(), Some(2));
    assert_eq!(data(10).backoff_micros(), Some(1024));
    assert_eq!(data(63).backoff_micros(), Some(1u64 << 63));
    assert_eq!(data(64).backoff_micros(), None);
    assert_eq!(data(255).backoff_micros(), None);
}

fn session_crypto_param() -> SpdmSessionCryptoParam {
    SpdmSessionCryptoParam {
        base_hash_algo: SpdmBaseHashAlgo::TPM_ALG_SHA_384,
        dhe_algo: SpdmDheAlgo::SECP_384_R1,
        aead_algo: SpdmAeadAlgo::AES_256_GCM,
        key_schedule_algo: SpdmKeyScheduleAlgo::SPDM_KEY_SCHEDULE,
    }
}

const TH1_BYTES: &[u8] = b"get versionversionget capscapsnegotiatealgorithmsthe chainkey exchangekey exchange rsp";

#[test]
fn the_signature_of_a_key_exchange_is_checked_over_the_first_transcript_hash() {
    let (hash, verify) = slots();
    let device = device();
    let asym = SpdmBaseAsymAlgo::TPM_ALG_ECDSA_ECC_NIST_P384;
    let digest = ring::digest::digest(&ring::digest::SHA384, TH1_BYTES);
    let signature = device.sign(digest.as_ref());

    let mut connection = negotiated(&hash);
    assert_eq!(
        connection.verify_session_signature(&hash, &verify, 7, asym, &device.public_key(), b"the chain", &signature),
        Err(SpdmError::SessionNotFound)
    );
    assert_eq!(connection.start_session(&hash, 7, session_crypto_param(), false), Ok(0));
    assert_eq!(connection.record_session_message(&hash, 7, false, b"key exchange"), Ok(()));
    assert_eq!(connection.record_session_message(&hash, 7, false, b"key exchange rsp"), Ok(()));
    assert_eq!(
        connection.verify_session_signature(&hash, &verify, 7, asym, &device.public_key(), b"the chain", &signature),
        Ok(())
    );
    assert!(connection.sessions.get_session_via_id(7).is_some());
    assert_eq!(
        connection.transcript.stored(SpdmTranscriptBufferId::MessageK),
        &b"key exchangekey exchange rsp"[..]
    );

    // over another certificate chain the signature does not verify
    assert_eq!(
        connection.verify_session_signature(&hash, &verify, 7, asym, &device.public_key(), b"a chain", &signature),
        Err(SpdmError::InvalidSignature)
    );
    assert!(connection.sessions.get_session_via_id(7).is_none());
}

#[test]
fn a_key_exchange_signature_with_a_flipped_bit_destroys_the_session() {
    let (hash, verify) = slots();
    let device = device();
    let asym = SpdmBaseAsymAlgo::TPM_ALG_ECDSA_ECC_NIST_P384;
    let digest = ring::digest::digest(&ring::digest::SHA384, TH1_BYTES);
    let mut signature = device.sign(digest.as_ref());
    signature.data[40] ^= 0x80;

    let mut connection = negotiated(&hash);
    assert_eq!(connection.start_session(&hash, 7, session_crypto_param(), false), Ok(0));
    assert_eq!(connection.record_session_message(&hash, 7, false, b"key exchange"), Ok(()));
    assert_eq!(connection.record_session_message(&hash, 7, false, b"key exchange rsp"), Ok(()));
    assert_eq!(
        connection.verify_session_signature(&hash, &verify, 7, asym, &device.public_key(), b"the chain", &signature),
        Err(SpdmError::InvalidSignature)
    );
    assert!(connection.sessions.get_session_via_id(7).is_none());
    assert_eq!(connection.state, SpdmConnectionState::SpdmConnectionNegotiated);

    // without a provider nothing is verified, and the session goes as well
    let none: ProviderSlot<RingEcdsaVerify> = ProviderSlot::empty();
    assert_eq!(connection.start_session(&hash, 7, session_crypto_param(), false), Ok(0));
    assert_eq!(
        connection.verify_session_signature(&hash, &none, 7, asym, &device.public_key(), b"the chain", &signature),
        Err(SpdmError::InvalidSignature)
    );
    assert!(connection.sessions.get_session_via_id(7).is_none());
}

fn negotiated_context() -> SpdmContext {
    let mut context = SpdmContext::new();
    context.negotiate_info.spdm_version_sel = SpdmVersion::SpdmVersion12;
    context.negotiate_info.base_hash_sel = SpdmBaseHashAlgo::TPM_ALG_SHA_384;
    context.negotiate_info.base_asym_sel = SpdmBaseAsymAlgo::TPM_ALG_ECDSA_ECC_NIST_P384;
    context
}

fn negotiated_only(hash: &ProviderSlot<Hash>) -> SpdmConnection<Hash> {
    let mut connection =
        SpdmConnection::new(SpdmTranscriptStrategy::Buffered, hash, SpdmBaseHashAlgo::TPM_ALG_SHA_384).unwrap();
    connection.record_exchange(hash, SpdmExchange::Version, b"get version", b"version").unwrap();
    connection.record_exchange(hash, SpdmExchange::Capabilities, b"get caps", b"caps").unwrap();
    connection.record_exchange(hash, SpdmExchange::NegotiateAlgorithms, b"negotiate", b"algorithms").unwrap();
    connection
}

fn message<T: SpdmCodec>(context: &mut SpdmContext, code: SpdmRequestResponseCode, payload: &T) -> Vec<u8> {
    let mut buffer = [0u8; 1024];
    let used = encode_message(context, SpdmVersion::SpdmVersion12, code, payload, &mut buffer).unwrap();
    buffer[..used].to_vec()
}

#[test]
fn digests_and_certificates_are_taken_into_the_transcript() {
    let (hash, _) = slots();
    let mut context = negotiated_context();
    let mut connection = negotiated_only(&hash);

    let request = message(&mut context, SpdmRequestResponseCode::SpdmRequestGetDigests, &SpdmGetDigestsRequestPayload {});
    assert_eq!(request, [0x12, 0x81, 0, 0]);
    let mut digests = [SpdmDigestStruct::default(); 8];
    digests[0] = SpdmDigestStruct::from_bytes(&[0xd1; 48]).unwrap();
    let response = message(
        &mut context,
        SpdmRequestResponseCode::SpdmResponseDigests,
        &SpdmDigestsResponsePayload { slot_mask: 0x01, digests },
    );
    let taken = take_digests_response(&mut connection, &hash, &mut context, &request, &response).unwrap();
    assert_eq!(taken.slot_mask, 1);
    assert_eq!(taken.digests[0].as_ref(), &[0xd1; 48][..]);
    let mut recorded = request.clone();
    recorded.extend_from_slice(&response);
    assert_eq!(connection.transcript.stored(SpdmTranscriptBufferId::MessageB), &recorded[..]);

    // a certificate chain in two portions
    let sent_chain: Vec<u8> = (0..700u32).map(|i| (i % 253) as u8).collect();
    let mut chain = SpdmCertChainData::default();
    for round in 0..2 {
        let sent = next_certificate_request(&chain, 0);
        let request = message(&mut context, SpdmRequestResponseCode::SpdmRequestGetCertificate, &sent);
        let from = sent.offset as usize;
        let to = usize::min(from + 512, sent_chain.len());
        let response = message(
            &mut context,
            SpdmRequestResponseCode::SpdmResponseCertificate,
            &SpdmCertificateResponsePayload {
                slot_id: 0,
                remainder_length: (sent_chain.len() - to) as u16,
                portion: SpdmCertChainPortion::from_bytes(&sent_chain[from..to]).unwrap(),
            },
        );
        // a response for another slot is not taken
        let mut other = response.clone();
        other[2] = 1;
        let before = connection.transcript.len(SpdmTranscriptBufferId::MessageB);
        assert_eq!(
            take_certificate_response(&mut connection, &hash, &mut context, &mut chain, &sent, &request, &other),
            Err(SpdmError::InvalidMsgField)
        );
        assert_eq!(chain.data_size as usize, from);
        assert_eq!(connection.transcript.len(SpdmTranscriptBufferId::MessageB), before);
        assert_eq!(
            take_certificate_response(&mut connection, &hash, &mut context, &mut chain, &sent, &request, &response),
            Ok(round == 1)
        );
        assert_eq!(connection.transcript.len(SpdmTranscriptBufferId::MessageB), before + request.len() + response.len());
    }
    assert_eq!(chain.as_ref(), &sent_chain[..]);

    // responses of another kind
    assert_eq!(
        take_digests_response(&mut connection, &hash, &mut context, &request, &[0x12, 0x02, 0, 0]).err(),
        Some(SpdmError::Unexpected)
    );
    assert_eq!(
        take_digests_response(&mut connection, &hash, &mut context, &request, &[0x12, 0x01, 0]).err(),
        Some(SpdmError::InvalidMsgField)
    );
}

#[test]
fn a_challenge_auth_response_is_checked_as_it_arrives() {
    let (hash, verify) = slots();
    let device = device();
    let mut context = negotiated_context();
    let mut connection = negotiated_only(&hash);

    let request = message(
        &mut context,
        SpdmRequestResponseCode::SpdmRequestChallenge,
        &SpdmChallengeRequestPayload {
            slot_id: 0,
            measurement_summary_hash_type: SpdmMeasurementSummaryHashType::SpdmMeasurementSummaryHashTypeNone,
            nonce: [0x11; 32],
        },
    );
    let unsigned = SpdmChallengeAuthResponsePayload {
        slot_id: 0,
        basic_mut_auth_req: false,
        slot_mask: 1,
        cert_chain_hash: SpdmDigestStruct::from_bytes(&[0xcc; 48]).unwrap(),
        nonce: [0x22; 32],
        measurement_summary_hash: None,
        opaque: SpdmOpaqueStruct::default(),
        signature: SpdmSignatureStruct::from_bytes(&[0; 96]).unwrap(),
    };
    let blank = message(&mut context, SpdmRequestResponseCode::SpdmResponseChallengeAuth, &unsigned);
    let signed_part = &blank[..blank.len() - 96];

    // the responder signs the digest of the transcript up to the signature
    let mut transcript = b"get versionversionget capscapsnegotiatealgorithms".to_vec();
    transcript.extend_from_slice(&request);
    transcript.extend_from_slice(signed_part);
    let digest = ring::digest::digest(&ring::digest::SHA384, &transcript);
    let signature = device.sign(digest.as_ref());
    let mut response = signed_part.to_vec();
    response.extend_from_slice(signature.as_ref());

    // a flipped bit in what was signed
    let mut tampered = response.clone();
    tampered[40] ^= 1;
    let mut fresh = negotiated_only(&hash);
    assert_eq!(
        take_challenge_auth_response(&mut fresh, &hash, &verify, &mut context, &device.public_key(), &request, &tampered)
            .err(),
        Some(SpdmError::InvalidSignature)
    );
    assert_eq!(fresh.state, SpdmConnectionState::SpdmConnectionNegotiated);

    let taken = take_challenge_auth_response(
        &mut connection,
        &hash,
        &verify,
        &mut context,
        &device.public_key(),
        &request,
        &response,
    )
    .unwrap();
    assert_eq!(taken.nonce, [0x22; 32]);
    assert_eq!(taken.signature.as_ref(), signature.as_ref());
    assert_eq!(connection.state, SpdmConnectionState::SpdmConnectionAuthenticated);
    let mut recorded = request.clone();
    recorded.extend_from_slice(signed_part);
    assert_eq!(connection.transcript.stored(SpdmTranscriptBufferId::MessageC), &recorded[..]);

    // a response that is cut short is not looked at
    let mut fresh = negotiated_only(&hash);
    assert_eq!(
        take_challenge_auth_response(
            &mut fresh,
            &hash,
            &verify,
            &mut context,
            &device.public_key(),
            &request,
            &response[..response.len() - 1]
        )
        .err(),
        Some(SpdmError::InvalidMsgField)
    );
    assert_eq!(fresh.transcript.len(SpdmTranscriptBufferId::MessageC), 0);
}
