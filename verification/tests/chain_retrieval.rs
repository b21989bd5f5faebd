use spdmlib::common::cert_chain::parse_cert_chain;
use spdmlib::common::connection::{SpdmConnection, SpdmExchange};
use spdmlib::common::negotiate::SpdmAlgorithmOffer;
use spdmlib::common::spdm_codec::encode_message;
use spdmlib::common::transcript::{SpdmTranscriptBufferId, SpdmTranscriptStrategy};
use spdmlib::common::SpdmContext;
use spdmlib::crypto;
use spdmlib::crypto::spdm_ring;
use spdmlib::crypto::ProviderSlot;
use spdmlib::error::SpdmError;
use spdmlib::message::{
    next_certificate_request, SpdmCapabilities, SpdmGetCertificateRequestPayload,
    SpdmGetDigestsRequestPayload, SpdmRequestResponseCode,
};
use spdmlib::protocol::{SpdmBaseHashAlgo, SpdmCertChainData, SpdmVersion};
use spdmlib::requester::authentication::{take_certificate_response, take_digests_response};
use spdmlib::responder::authentication::{
    answer_get_certificate, answer_get_digests, certificate_portion, slot_bit,
};
use spdmlib::responder::{answer_opening_request, write_refusal, SpdmResponderConfig};

type Hash = spdm_ring::hash_impl::SpdmRingHash;

const VERSION: SpdmVersion = SpdmVersion::SpdmVersion12;
const ALGO: SpdmBaseHashAlgo = SpdmBaseHashAlgo::TPM_ALG_SHA_384;

fn hash() -> ProviderSlot<Hash> {
    let mut hash = ProviderSlot::empty();
    assert!(crypto::hash::register(&mut hash, spdm_ring::hash_impl::DEFAULT));
    hash
}

fn context() -> SpdmContext {
    let mut context = SpdmContext::new();
    context.negotiate_info.spdm_version_sel = VERSION;
    context.negotiate_info.base_hash_sel = ALGO;
    context
}

fn negotiated(hash: &ProviderSlot<Hash>, strategy: SpdmTranscriptStrategy) -> SpdmConnection<Hash> {
    let mut connection = SpdmConnection::new(strategy, hash, ALGO).unwrap();
    connection.record_exchange(hash, SpdmExchange::Version, b"get version", b"version").unwrap();
    connection.record_exchange(hash, SpdmExchange::Capabilities, b"get caps", b"caps").unwrap();
    connection.record_exchange(hash, SpdmExchange::NegotiateAlgorithms, b"negotiate", b"algorithms").unwrap();
    connection
}

/// A framed chain of 1300 bytes.
fn chain() -> Vec<u8> {
    let total = 1300usize;
    let mut chain = vec![total as u8, (total >> 8) as u8, 0, 0];
    chain.extend_from_slice(&[0x77; 48]);
    chain.extend((0..total - 52).map(|i| (i % 249) as u8));
    chain
}

fn request_bytes(context: &mut SpdmContext, request: &SpdmGetCertificateRequestPayload) -> Vec<u8> {
    let mut buffer = [0u8; 16];
    let used =
        encode_message(context, VERSION, SpdmRequestResponseCode::SpdmRequestGetCertificate, request, &mut buffer)
            .unwrap();
    buffer[..used].to_vec()
}

#[test]
fn a_chain_is_fetched_in_portions_from_the_responder() {
    let hash = hash();
    let chain = chain();
    let mut context = context();
    let mut requester = negotiated(&hash, SpdmTranscriptStrategy::Buffered);
    let mut responder = negotiated(&hash, SpdmTranscriptStrategy::Streaming);
    let mut buffer = [0u8; 1024];

    // the digest of the chain
    let mut request = [0u8; 4];
    encode_message(
        &mut context,
        VERSION,
        SpdmRequestResponseCode::SpdmRequestGetDigests,
        &SpdmGetDigestsRequestPayload {},
        &mut request,
    )
    .unwrap();
    let used = answer_get_digests(&mut responder, &hash, &mut context, 2, &chain, &request, &mut buffer).unwrap();
    assert_eq!(used, 2 + 2 + 48);
    assert_eq!(&buffer[..4], &[0x12, 0x01, 0, 0x04]);
    assert_eq!(&buffer[4..used], ring::digest::digest(&ring::digest::SHA384, &chain).as_ref());
    let digests = take_digests_response(&mut requester, &hash, &mut context, &request, &buffer[..used]).unwrap();
    assert_eq!(digests.slot_mask, 0x04);
    assert_eq!(digests.digests[0].as_ref(), ring::digest::digest(&ring::digest::SHA384, &chain).as_ref());
    assert_eq!(digests.digests[1].data_size, 0);

    // the chain, 512 bytes at a time
    let mut fetched = SpdmCertChainData::default();
    let mut rounds = 0;
    loop {
        let sent = next_certificate_request(&fetched, 2);
        let request = request_bytes(&mut context, &sent);
        let used =
            answer_get_certificate(&mut responder, &hash, &mut context, 2, &chain, &request, &mut buffer).unwrap();
        rounds += 1;
        assert_eq!(used, if rounds < 3 { 8 + 512 } else { 8 + 1300 - 1024 });
        match take_certificate_response(&mut requester, &hash, &mut context, &mut fetched, &sent, &request, &buffer[..used])
        {
            Ok(true) => break,
            Ok(false) => assert!(rounds < 3),
            Err(error) => panic!("{error:?}"),
        }
    }
    assert_eq!(rounds, 3);
    assert_eq!(fetched.as_ref(), &chain[..]);
    assert!(parse_cert_chain(fetched.as_ref(), ALGO).is_ok());

    // both sides hold the same transcript of it, however they keep it
    assert_eq!(
        requester.transcript.stored(SpdmTranscriptBufferId::MessageB),
        responder.transcript.stored(SpdmTranscriptBufferId::MessageB)
    );
    let buffers = [SpdmTranscriptBufferId::MessageA, SpdmTranscriptBufferId::MessageB];
    assert_eq!(
        requester.transcript.snapshot_hash(&hash, &buffers).unwrap().data,
        responder.transcript.snapshot_hash(&hash, &buffers).unwrap().data
    );
}

#[test]
fn the_portion_is_what_was_asked_for_as_far_as_the_chain_goes() {
    let chain = chain();
    let portion = |offset: u16, length: u16| {
        certificate_portion(0, &chain, &SpdmGetCertificateRequestPayload { slot_id: 0, offset, length })
    };
    for (offset, length, expected, remainder) in [
        (0u16, 512u16, 512usize, 788u16),
        (0, 0xffff, 512, 788),
        (0, 10, 10, 1290),
        (0, 0, 0, 1300),
        (1024, 512, 276, 0),
        (1299, 512, 1, 0),
        (1300, 512, 0, 0),
        (100, 513, 512, 688),
    ] {
        let response = portion(offset, length).unwrap();
        assert_eq!(response.slot_id, 0);
        assert_eq!(response.portion.as_ref(), &chain[offset as usize..offset as usize + expected], "{offset} {length}");
        assert_eq!(response.remainder_length, remainder, "{offset} {length}");
    }
    assert_eq!(portion(1301, 1).err(), Some(SpdmError::InvalidMsgField));
    assert_eq!(
        certificate_portion(1, &chain, &SpdmGetCertificateRequestPayload { slot_id: 0, offset: 0, length: 1 }).err(),
        Some(SpdmError::InvalidMsgField)
    );
    let long = vec![0u8; 0x1_0000];
    assert_eq!(
        certificate_portion(0, &long, &SpdmGetCertificateRequestPayload { slot_id: 0, offset: 0, length: 1 }).err(),
        Some(SpdmError::InvalidCertChain)
    );
    assert!(certificate_portion(0, &long[..0xffff], &SpdmGetCertificateRequestPayload { slot_id: 0, offset: 0xffff, length: 1 })
        .is_ok());
    for slot in 0..8u8 {
        assert_eq!(slot_bit(slot), 1 << slot);
    }
}

#[test]
fn requests_for_the_chain_are_refused_out_of_turn() {
    let hash = hash();
    let chain = chain();
    let mut context = context();
    let mut buffer = [0u8; 1024];
    let config = SpdmResponderConfig {
        versions: &[SpdmVersion::SpdmVersion12],
        capabilities: SpdmCapabilities { ct_exponent: 0, flags: 0, data_transfer_size: 64, max_spdm_msg_size: 64 },
        algorithms: SpdmAlgorithmOffer {
            base_hash_algo: 2,
            base_asym_algo: 0x80,
            measurement_hash_algo: 4,
            dhe_algo: 0x10,
            aead_algo: 2,
            req_asym_algo: 0x80,
            key_schedule_algo: 1,
        },
        slot_id: 0,
        cert_chain: &chain,
    };
    // before algorithms are negotiated
    let mut responder = SpdmConnection::new(SpdmTranscriptStrategy::Buffered, &hash, ALGO).unwrap();
    let digests = [0x12u8, 0x81, 0, 0];
    assert_eq!(
        answer_opening_request(&mut responder, &hash, &mut context, &config, &digests, &mut buffer),
        Err(SpdmError::InvalidState)
    );
    assert_eq!(write_refusal(&digests, SpdmError::InvalidState, &mut buffer), Ok(4));
    assert_eq!(&buffer[..4], &[0x12, 0x7f, 0x04, 0]);

    let mut responder = negotiated(&hash, SpdmTranscriptStrategy::Buffered);
    assert_eq!(answer_opening_request(&mut responder, &hash, &mut context, &config, &digests, &mut buffer), Ok(52));
    assert_eq!(&buffer[..4], &[0x12, 0x01, 0, 0x01]);
    // a request for another slot, of another version, cut short, behind the end of the chain
    let before = responder.transcript.len(SpdmTranscriptBufferId::MessageB);
    for (request, error) in [
        (&[0x12u8, 0x82, 1, 0, 0, 0, 0, 2][..], SpdmError::InvalidMsgField),
        (&[0x11, 0x82, 0, 0, 0, 0, 0, 2], SpdmError::InvalidMsgField),
        (&[0x12, 0x82, 0, 0, 0, 0, 0], SpdmError::InvalidMsgField),
        (&[0x12, 0x82, 0, 0, 0x15, 0x05, 0, 2], SpdmError::InvalidMsgField),
        (&[0x12, 0x82, 8, 0, 0, 0, 0, 2], SpdmError::InvalidMsgField),
        (&[0x12, 0x83, 0, 0, 0, 0, 0, 2], SpdmError::Unexpected),
    ] {
        assert_eq!(
            answer_opening_request(&mut responder, &hash, &mut context, &config, request, &mut buffer),
            Err(error),
            "{request:x?}"
        );
        assert_eq!(responder.transcript.len(SpdmTranscriptBufferId::MessageB), before);
    }
    assert_eq!(
        answer_opening_request(&mut responder, &hash, &mut context, &config, &[0x12, 0x82, 0, 0, 0x14, 0x05, 0, 2], &mut buffer),
        Ok(8)
    );
    assert_eq!(&buffer[..8], &[0x12, 0x02, 0, 0, 0, 0, 0, 0]);
    // a slot that is none
    assert_eq!(
        answer_get_digests(&mut responder, &hash, &mut context, 8, &chain, &digests, &mut buffer),
        Err(SpdmError::Fault)
    );
    let none: ProviderSlot<Hash> = ProviderSlot::empty();
    assert_eq!(
        answer_get_digests(&mut responder, &none, &mut context, 0, &chain, &digests, &mut buffer),
        Err(SpdmError::Fault)
    );
}
