use spdmlib::common::connection::{
    exchange_buffer, next_state, session_transcript_hash, SpdmConnection, SpdmConnectionState,
    SpdmExchange,
};
use spdmlib::common::transcript::{
    SpdmTranscript, SpdmTranscriptBufferId, SpdmTranscriptStrategy, TranscriptBuffer,
};
use spdmlib::crypto;
use spdmlib::crypto::spdm_ring;
use spdmlib::crypto::ProviderSlot;
use spdmlib::error::SpdmError;
use spdmlib::protocol::SpdmBaseHashAlgo;

type Hash = spdm_ring::hash_impl::SpdmRingHash;

fn hash_slot() -> ProviderSlot<Hash> {
    let mut slot = ProviderSlot::empty();
    assert!(crypto::hash::register(&mut slot, spdm_ring::hash_impl::DEFAULT));
    slot
}

const ALL_IDS: [SpdmTranscriptBufferId; 6] = [
    SpdmTranscriptBufferId::MessageA,
    SpdmTranscriptBufferId::MessageB,
    SpdmTranscriptBufferId::MessageC,
    SpdmTranscriptBufferId::MessageM,
    SpdmTranscriptBufferId::MessageK,
    SpdmTranscriptBufferId::MessageF,
];

fn sha384(data: &[u8]) -> Vec<u8> {
    ring::digest::digest(&ring::digest::SHA384, data).as_ref().to_vec()
}

#[test]
fn a_buffered_transcript_hashes_what_was_appended() {
    let hash = hash_slot();
    let algo = SpdmBaseHashAlgo::TPM_ALG_SHA_384;
    let mut transcript = SpdmTranscript::new(SpdmTranscriptStrategy::Buffered, &hash, algo).unwrap();
    assert_eq!(transcript.get_strategy(), SpdmTranscriptStrategy::Buffered);
    assert_eq!(transcript.get_hash_algo(), algo);
    for id in ALL_IDS {
        assert_eq!(transcript.len(id), 0);
        assert_eq!(transcript.stored(id), &[][..]);
    }
    transcript.append(&hash, SpdmTranscriptBufferId::MessageA, b"GET_VERSION").unwrap();
    transcript.append(&hash, SpdmTranscriptBufferId::MessageA, b"VERSION").unwrap();
    transcript.append(&hash, SpdmTranscriptBufferId::MessageB, b"GET_DIGESTS").unwrap();
    assert_eq!(transcript.stored(SpdmTranscriptBufferId::MessageA), &b"GET_VERSIONVERSION"[..]);
    assert_eq!(transcript.len(SpdmTranscriptBufferId::MessageB), 11);
    assert_eq!(transcript.len(SpdmTranscriptBufferId::MessageC), 0);

    let a = transcript.snapshot_hash(&hash, &[SpdmTranscriptBufferId::MessageA]).unwrap();
    assert_eq!(a.as_ref(), &sha384(b"GET_VERSIONVERSION")[..]);
    let ab = transcript
        .snapshot_hash(&hash, &[SpdmTranscriptBufferId::MessageA, SpdmTranscriptBufferId::MessageB])
        .unwrap();
    assert_eq!(ab.as_ref(), &sha384(b"GET_VERSIONVERSIONGET_DIGESTS")[..]);
    let ba = transcript
        .snapshot_hash(&hash, &[SpdmTranscriptBufferId::MessageB, SpdmTranscriptBufferId::MessageA])
        .unwrap();
    assert_eq!(ba.as_ref(), &sha384(b"GET_DIGESTSGET_VERSIONVERSION")[..]);
    let none = transcript.snapshot_hash(&hash, &[]).unwrap();
    assert_eq!(none.as_ref(), &sha384(b"")[..]);
    // a snapshot changes nothing
    assert_eq!(transcript.len(SpdmTranscriptBufferId::MessageA), 18);

    transcript.reset(&hash, SpdmTranscriptBufferId::MessageA).unwrap();
    assert_eq!(transcript.len(SpdmTranscriptBufferId::MessageA), 0);
    assert_eq!(transcript.len(SpdmTranscriptBufferId::MessageB), 11);
}

#[test]
fn both_strategies_give_the_same_digest() {
    let hash = hash_slot();
    for algo in [
        SpdmBaseHashAlgo::TPM_ALG_SHA_256,
        SpdmBaseHashAlgo::TPM_ALG_SHA_384,
        SpdmBaseHashAlgo::TPM_ALG_SHA_512,
    ] {
        let mut buffered = SpdmTranscript::new(SpdmTranscriptStrategy::Buffered, &hash, algo).unwrap();
        let mut streaming = SpdmTranscript::new(SpdmTranscriptStrategy::Streaming, &hash, algo).unwrap();
        assert_eq!(streaming.get_strategy(), SpdmTranscriptStrategy::Streaming);
        for (n, id) in ALL_IDS.iter().enumerate() {
            for part in [&b"request"[..], &[n as u8; 300][..], &b""[..], &b"response"[..]] {
                buffered.append(&hash, *id, part).unwrap();
                streaming.append(&hash, *id, part).unwrap();
                assert_eq!(buffered.len(*id), streaming.len(*id));
                let one = buffered.snapshot_hash(&hash, &[*id]).unwrap();
                let other = streaming.snapshot_hash(&hash, &[*id]).unwrap();
                assert_eq!(one.data_size, algo.get_size());
                assert_eq!(one.as_ref(), other.as_ref());
            }
        }
        buffered.reset(&hash, SpdmTranscriptBufferId::MessageM).unwrap();
        streaming.reset(&hash, SpdmTranscriptBufferId::MessageM).unwrap();
        assert_eq!(
            buffered.snapshot_hash(&hash, &[SpdmTranscriptBufferId::MessageM]).unwrap().as_ref(),
            streaming.snapshot_hash(&hash, &[SpdmTranscriptBufferId::MessageM]).unwrap().as_ref()
        );
        // the digest over several buffers is the same as well
        assert_eq!(streaming.stored(SpdmTranscriptBufferId::MessageA), buffered.stored(SpdmTranscriptBufferId::MessageA));
        for ids in [
            &[SpdmTranscriptBufferId::MessageA, SpdmTranscriptBufferId::MessageB][..],
            &[SpdmTranscriptBufferId::MessageA, SpdmTranscriptBufferId::MessageB, SpdmTranscriptBufferId::MessageC],
            &[SpdmTranscriptBufferId::MessageB, SpdmTranscriptBufferId::MessageA],
            &[SpdmTranscriptBufferId::MessageA, SpdmTranscriptBufferId::MessageA],
            &[],
        ] {
            assert_eq!(
                buffered.snapshot_hash(&hash, ids).unwrap().data,
                streaming.snapshot_hash(&hash, ids).unwrap().data
            );
        }
    }
}

#[test]
fn a_buffer_takes_no_more_than_its_capacity() {
    let hash = hash_slot();
    let algo = SpdmBaseHashAlgo::TPM_ALG_SHA_256;
    for strategy in [SpdmTranscriptStrategy::Buffered, SpdmTranscriptStrategy::Streaming] {
        let mut transcript = SpdmTranscript::new(strategy, &hash, algo).unwrap();
        let id = SpdmTranscriptBufferId::MessageK;
        assert_eq!(transcript.append(&hash, id, &vec![1u8; 0x1200 - 1]), Ok(()));
        assert_eq!(transcript.append(&hash, id, &[2u8; 2]), Err(SpdmError::TranscriptOverflow));
        assert_eq!(transcript.len(id), 0x1200 - 1);
        let before = transcript.snapshot_hash(&hash, &[id]).unwrap();
        assert_eq!(transcript.append(&hash, id, &[2u8; 1]), Ok(()));
        assert_eq!(transcript.append(&hash, id, &[3u8; 1]), Err(SpdmError::TranscriptOverflow));
        assert_eq!(transcript.append(&hash, id, &[]), Ok(()));
        assert_eq!(transcript.len(id), 0x1200);
        assert_ne!(transcript.snapshot_hash(&hash, &[id]).unwrap().as_ref(), before.as_ref());
        // the other buffers have their own room
        assert_eq!(transcript.append(&hash, SpdmTranscriptBufferId::MessageF, &[1u8; 16]), Ok(()));
    }
}

#[test]
fn a_transcript_without_provider() {
    let without: ProviderSlot<Hash> = ProviderSlot::empty();
    let algo = SpdmBaseHashAlgo::TPM_ALG_SHA_256;
    assert!(SpdmTranscript::new(SpdmTranscriptStrategy::Streaming, &without, algo).is_none());
    assert!(TranscriptBuffer::new_streaming(&without, algo).is_none());
    let mut transcript = SpdmTranscript::new(SpdmTranscriptStrategy::Buffered, &without, algo).unwrap();
    assert_eq!(transcript.append(&without, SpdmTranscriptBufferId::MessageA, b"bytes"), Ok(()));
    assert!(transcript.snapshot_hash(&without, &[SpdmTranscriptBufferId::MessageA]).is_none());

    // a running hash needs its provider for every step
    let hash = hash_slot();
    let mut streaming = TranscriptBuffer::new_streaming(&hash, algo).unwrap();
    assert_eq!(streaming.append(&without, b"bytes"), Err(SpdmError::TranscriptOverflow));
    assert_eq!(streaming.len(), 0);
    assert_eq!(streaming.reset(&without), Err(SpdmError::Fault));
    assert!(streaming.snapshot_hash(&without).is_none());
    assert_eq!(streaming.append(&hash, b"bytes"), Ok(()));
    assert_eq!(streaming.stored(), &b"bytes"[..]);
    let mut buffered: TranscriptBuffer<Hash> = TranscriptBuffer::new_buffered(algo);
    assert_eq!(buffered.append(&hash, b"bytes"), Ok(()));
    assert_eq!(buffered.stored(), &b"bytes"[..]);
    assert_eq!(buffered.get_hash_algo(), algo);
    assert_eq!(
        buffered.snapshot_hash(&hash).unwrap().as_ref(),
        streaming.snapshot_hash(&hash).unwrap().as_ref()
    );
}

#[test]
fn the_connection_moves_through_its_states() {
    let states = [
        SpdmConnectionState::SpdmConnectionNotStarted,
        SpdmConnectionState::SpdmConnectionAfterVersion,
        SpdmConnectionState::SpdmConnectionAfterCapabilities,
        SpdmConnectionState::SpdmConnectionNegotiated,
        SpdmConnectionState::SpdmConnectionAuthenticated,
    ];
    let exchanges = [
        SpdmExchange::Version,
        SpdmExchange::Capabilities,
        SpdmExchange::NegotiateAlgorithms,
        SpdmExchange::Digests,
        SpdmExchange::Certificate,
        SpdmExchange::Challenge,
        SpdmExchange::Measurements,
    ];
    for state in states {
        for exchange in exchanges {
            let expected = match (state, exchange) {
                (SpdmConnectionState::SpdmConnectionNotStarted, SpdmExchange::Version) => Ok(SpdmConnectionState::SpdmConnectionAfterVersion),
                (SpdmConnectionState::SpdmConnectionAfterVersion, SpdmExchange::Capabilities) => {
                    Ok(SpdmConnectionState::SpdmConnectionAfterCapabilities)
                }
                (SpdmConnectionState::SpdmConnectionAfterCapabilities, SpdmExchange::NegotiateAlgorithms) => {
                    Ok(SpdmConnectionState::SpdmConnectionNegotiated)
                }
                (SpdmConnectionState::SpdmConnectionNegotiated, SpdmExchange::Digests) => Ok(SpdmConnectionState::SpdmConnectionNegotiated),
                (SpdmConnectionState::SpdmConnectionNegotiated, SpdmExchange::Certificate) => Ok(SpdmConnectionState::SpdmConnectionNegotiated),
                (SpdmConnectionState::SpdmConnectionNegotiated, SpdmExchange::Challenge) => Ok(SpdmConnectionState::SpdmConnectionAuthenticated),
                (SpdmConnectionState::SpdmConnectionNegotiated, SpdmExchange::Measurements) => Ok(SpdmConnectionState::SpdmConnectionNegotiated),
                (SpdmConnectionState::SpdmConnectionAuthenticated, SpdmExchange::Measurements) => {
                    Ok(SpdmConnectionState::SpdmConnectionAuthenticated)
                }
                _ => Err(SpdmError::InvalidState),
            };
            assert_eq!(next_state(state, exchange), expected);
        }
    }
    assert_eq!(exchange_buffer(SpdmExchange::Version), SpdmTranscriptBufferId::MessageA);
    assert_eq!(exchange_buffer(SpdmExchange::Capabilities), SpdmTranscriptBufferId::MessageA);
    assert_eq!(exchange_buffer(SpdmExchange::NegotiateAlgorithms), SpdmTranscriptBufferId::MessageA);
    assert_eq!(exchange_buffer(SpdmExchange::Digests), SpdmTranscriptBufferId::MessageB);
    assert_eq!(exchange_buffer(SpdmExchange::Certificate), SpdmTranscriptBufferId::MessageB);
    assert_eq!(exchange_buffer(SpdmExchange::Challenge), SpdmTranscriptBufferId::MessageC);
    assert_eq!(exchange_buffer(SpdmExchange::Measurements), SpdmTranscriptBufferId::MessageM);
}

#[test]
fn both_sides_record_the_same_transcript() {
    let hash = hash_slot();
    let algo = SpdmBaseHashAlgo::TPM_ALG_SHA_384;
    let mut requester = SpdmConnection::new(SpdmTranscriptStrategy::Buffered, &hash, algo).unwrap();
    let mut responder = SpdmConnection::new(SpdmTranscriptStrategy::Streaming, &hash, algo).unwrap();
    assert_eq!(requester.state, SpdmConnectionState::SpdmConnectionNotStarted);

    let script: [(SpdmExchange, &[u8], &[u8]); 7] = [
        (SpdmExchange::Version, &[0x10, 0x84, 0, 0], &[0x10, 0x04, 0, 0, 0, 3, 0, 0x10, 0, 0x11, 0, 0x12]),
        (SpdmExchange::Capabilities, &[0x12, 0xe1, 0, 0], &[0x12, 0x61, 0, 0, 1, 2, 3, 4]),
        (SpdmExchange::NegotiateAlgorithms, &[0x12, 0xe3, 0, 0], &[0x12, 0x63, 0, 0, 9, 9]),
        (SpdmExchange::Digests, &[0x12, 0x81, 0, 0], &[0x12, 0x01, 0, 1, 7, 7, 7]),
        (SpdmExchange::Certificate, &[0x12, 0x82, 0, 0], &[0x12, 0x02, 0, 0, 5, 5]),
        (SpdmExchange::Measurements, &[0x12, 0xe0, 0, 0], &[0x12, 0x60, 0, 0]),
        (SpdmExchange::Challenge, &[0x12, 0x83, 0, 0], &[0x12, 0x03, 0, 0, 6]),
    ];
    for (exchange, request, response) in script {
        assert_eq!(requester.record_exchange(&hash, exchange, request, response), Ok(()));
        assert_eq!(responder.record_exchange(&hash, exchange, request, response), Ok(()));
        assert_eq!(requester.state, responder.state);
        for id in ALL_IDS {
            assert_eq!(requester.transcript.len(id), responder.transcript.len(id));
            assert_eq!(
                requester.transcript.snapshot_hash(&hash, &[id]).unwrap().as_ref(),
                responder.transcript.snapshot_hash(&hash, &[id]).unwrap().as_ref()
            );
        }
    }
    assert_eq!(requester.state, SpdmConnectionState::SpdmConnectionAuthenticated);
    let mut message_a = Vec::new();
    for (_, request, response) in &script[..3] {
        message_a.extend_from_slice(request);
        message_a.extend_from_slice(response);
    }
    assert_eq!(requester.transcript.stored(SpdmTranscriptBufferId::MessageA), &message_a[..]);
    assert_eq!(requester.transcript.len(SpdmTranscriptBufferId::MessageB), 4 + 7 + 4 + 6);
    assert_eq!(requester.transcript.len(SpdmTranscriptBufferId::MessageC), 9);
    assert_eq!(requester.transcript.len(SpdmTranscriptBufferId::MessageM), 8);
}

#[test]
fn exchanges_out_of_order_are_refused() {
    let hash = hash_slot();
    let algo = SpdmBaseHashAlgo::TPM_ALG_SHA_256;
    let mut connection = SpdmConnection::new(SpdmTranscriptStrategy::Buffered, &hash, algo).unwrap();
    assert_eq!(
        connection.record_exchange(&hash, SpdmExchange::Capabilities, b"req", b"rsp"),
        Err(SpdmError::InvalidState)
    );
    assert_eq!(
        connection.record_exchange(&hash, SpdmExchange::Challenge, b"req", b"rsp"),
        Err(SpdmError::InvalidState)
    );
    assert_eq!(connection.state, SpdmConnectionState::SpdmConnectionNotStarted);
    assert_eq!(connection.transcript.len(SpdmTranscriptBufferId::MessageA), 0);
    assert_eq!(connection.transcript.len(SpdmTranscriptBufferId::MessageC), 0);
    assert_eq!(connection.record_exchange(&hash, SpdmExchange::Version, b"req", b"rsp"), Ok(()));
    assert_eq!(
        connection.record_exchange(&hash, SpdmExchange::Version, b"req", b"rsp"),
        Err(SpdmError::InvalidState)
    );
    assert_eq!(connection.transcript.len(SpdmTranscriptBufferId::MessageA), 6);
}

#[test]
fn an_exchange_that_overflows_the_transcript_is_refused_whole() {
    let hash = hash_slot();
    let algo = SpdmBaseHashAlgo::TPM_ALG_SHA_256;
    let mut connection = SpdmConnection::new(SpdmTranscriptStrategy::Buffered, &hash, algo).unwrap();
    let request = vec![1u8; 0x1000];
    let response = vec![2u8; 0x201];
    assert_eq!(
        connection.record_exchange(&hash, SpdmExchange::Version, &request, &response),
        Err(SpdmError::TranscriptOverflow)
    );
    assert_eq!(connection.state, SpdmConnectionState::SpdmConnectionNotStarted);
    assert_eq!(connection.transcript.len(SpdmTranscriptBufferId::MessageA), 0);
    assert_eq!(
        connection.record_exchange(&hash, SpdmExchange::Version, &request, &response[1..]),
        Ok(())
    );
    assert_eq!(connection.transcript.len(SpdmTranscriptBufferId::MessageA), 0x1200);
    assert_eq!(
        connection.record_exchange(&hash, SpdmExchange::Capabilities, b"", b"x"),
        Err(SpdmError::TranscriptOverflow)
    );
    assert_eq!(connection.state, SpdmConnectionState::SpdmConnectionAfterVersion);
}

#[test]
fn a_reset_starts_the_connection_over() {
    let hash = hash_slot();
    let algo = SpdmBaseHashAlgo::TPM_ALG_SHA_256;
    for strategy in [SpdmTranscriptStrategy::Buffered, SpdmTranscriptStrategy::Streaming] {
        let mut connection = SpdmConnection::new(strategy, &hash, algo).unwrap();
        connection.record_exchange(&hash, SpdmExchange::Version, b"a", b"b").unwrap();
        connection.record_exchange(&hash, SpdmExchange::Capabilities, b"c", b"d").unwrap();
        connection.sessions.add_session(9).unwrap();
        assert_eq!(connection.reset(&hash), Ok(()));
        assert_eq!(connection.state, SpdmConnectionState::SpdmConnectionNotStarted);
        assert!(connection.sessions.find(9).is_none());
        for id in ALL_IDS {
            assert_eq!(connection.transcript.len(id), 0);
        }
        assert_eq!(connection.record_exchange(&hash, SpdmExchange::Version, b"a", b"b"), Ok(()));
    }
}

#[test]
fn the_session_transcript_hash_covers_negotiation_chain_and_exchanges() {
    let hash = hash_slot();
    let algo = SpdmBaseHashAlgo::TPM_ALG_SHA_384;
    let mut transcript = SpdmTranscript::new(SpdmTranscriptStrategy::Buffered, &hash, algo).unwrap();
    transcript.append(&hash, SpdmTranscriptBufferId::MessageA, b"vca").unwrap();
    transcript.append(&hash, SpdmTranscriptBufferId::MessageB, b"not covered").unwrap();
    transcript.append(&hash, SpdmTranscriptBufferId::MessageK, b"key exchange").unwrap();
    transcript.append(&hash, SpdmTranscriptBufferId::MessageF, b"finish").unwrap();
    let th1 = session_transcript_hash(&transcript, &hash, b"chain", false).unwrap();
    assert_eq!(th1.as_ref(), &sha384(b"vcachainkey exchange")[..]);
    let th2 = session_transcript_hash(&transcript, &hash, b"chain", true).unwrap();
    assert_eq!(th2.as_ref(), &sha384(b"vcachainkey exchangefinish")[..]);
    let psk = session_transcript_hash(&transcript, &hash, b"", true).unwrap();
    assert_eq!(psk.as_ref(), &sha384(b"vcakey exchangefinish")[..]);

    // a transcript that keeps running hashes gives the same digests
    let mut streaming = SpdmTranscript::new(SpdmTranscriptStrategy::Streaming, &hash, algo).unwrap();
    streaming.append(&hash, SpdmTranscriptBufferId::MessageA, b"v").unwrap();
    streaming.append(&hash, SpdmTranscriptBufferId::MessageA, b"ca").unwrap();
    streaming.append(&hash, SpdmTranscriptBufferId::MessageB, b"not covered").unwrap();
    streaming.append(&hash, SpdmTranscriptBufferId::MessageK, b"key ").unwrap();
    streaming.append(&hash, SpdmTranscriptBufferId::MessageK, b"exchange").unwrap();
    assert_eq!(session_transcript_hash(&streaming, &hash, b"chain", false).unwrap().data, th1.data);
    streaming.append(&hash, SpdmTranscriptBufferId::MessageF, b"finish").unwrap();
    assert_eq!(session_transcript_hash(&streaming, &hash, b"chain", false).unwrap().data, th1.data);
    assert_eq!(session_transcript_hash(&streaming, &hash, b"chain", true).unwrap().data, th2.data);
    assert_eq!(session_transcript_hash(&streaming, &hash, b"", true).unwrap().data, psk.data);
    // without a provider there is no digest
    let without: ProviderSlot<Hash> = ProviderSlot::empty();
    assert!(session_transcript_hash(&streaming, &without, b"chain", true).is_none());
    assert!(session_transcript_hash(&transcript, &without, b"chain", true).is_none());
}
