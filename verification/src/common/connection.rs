//! A connection: how far negotiation and authentication have come, the
//! transcript, and the sessions.
//!
//! A connection moves from idle through the version, capabilities and
//! algorithms exchanges, after which digests, certificates and measurements
//! can be asked for, and a challenge authenticates the responder. Every
//! exchange that is accepted goes into the transcript, request first.

use crate::common::session_table::SpdmSessionTable;
use crate::common::transcript::{SpdmTranscript, SpdmTranscriptBufferId, SpdmTranscriptStrategy};
use crate::bytes::append_bytes;
use crate::crypto::asym_verify::{spec_verify, verify};
use crate::crypto::hash::{hash_all, hash_ctx_finalize, hash_ctx_update, spec_hash_all};
use crate::crypto::{ProviderSlot, SpdmAsymVerify, SpdmHash};
use crate::error::{SpdmError, SpdmResult};
use crate::protocol::{
    SpdmBaseAsymAlgo, SpdmBaseHashAlgo, SpdmDigestStruct, SpdmSignatureStruct,
};
use vstd::prelude::*;

verus! {

/// How far a connection has come.
#[derive(Clone, Copy, Debug, PartialEq, Eq, Structural)]
pub enum SpdmConnectionState {
    SpdmConnectionNotStarted,
    SpdmConnectionAfterVersion,
    SpdmConnectionAfterCapabilities,
    SpdmConnectionNegotiated,
    SpdmConnectionAuthenticated,
}

/// The exchanges of the connection phase, each a request and its response.
#[derive(Clone, Copy, Debug, PartialEq, Eq, Structural)]
pub enum SpdmExchange {
    Version,
    Capabilities,
    NegotiateAlgorithms,
    Digests,
    Certificate,
    Challenge,
    Measurements,
}

/// The state after an exchange, or nothing where the exchange is not legal in
/// the state:
/// the version, capabilities and algorithms exchanges follow each other from
/// idle; digests and certificates can be asked for once algorithms are
/// negotiated, and leave the state as it is; a challenge then authenticates;
/// measurements can be asked for before and after that.
pub open spec fn spec_next_state(state: SpdmConnectionState, exchange: SpdmExchange) -> Option<
    SpdmConnectionState,
> {
    match (state, exchange) {
        (SpdmConnectionState::SpdmConnectionNotStarted, SpdmExchange::Version) => Some(
            SpdmConnectionState::SpdmConnectionAfterVersion,
        ),
        (SpdmConnectionState::SpdmConnectionAfterVersion, SpdmExchange::Capabilities) => Some(
            SpdmConnectionState::SpdmConnectionAfterCapabilities,
        ),
        (
            SpdmConnectionState::SpdmConnectionAfterCapabilities,
            SpdmExchange::NegotiateAlgorithms,
        ) => Some(SpdmConnectionState::SpdmConnectionNegotiated),
        (SpdmConnectionState::SpdmConnectionNegotiated, SpdmExchange::Digests) => Some(
            SpdmConnectionState::SpdmConnectionNegotiated,
        ),
        (SpdmConnectionState::SpdmConnectionNegotiated, SpdmExchange::Certificate) => Some(
            SpdmConnectionState::SpdmConnectionNegotiated,
        ),
        (SpdmConnectionState::SpdmConnectionNegotiated, SpdmExchange::Challenge) => Some(
            SpdmConnectionState::SpdmConnectionAuthenticated,
        ),
        (SpdmConnectionState::SpdmConnectionNegotiated, SpdmExchange::Measurements) => Some(
            SpdmConnectionState::SpdmConnectionNegotiated,
        ),
        (SpdmConnectionState::SpdmConnectionAuthenticated, SpdmExchange::Measurements) => Some(
            SpdmConnectionState::SpdmConnectionAuthenticated,
        ),
        _ => None,
    }
}

/// The transcript buffer into which an exchange goes.
pub open spec fn spec_exchange_buffer(exchange: SpdmExchange) -> SpdmTranscriptBufferId {
    match exchange {
        SpdmExchange::Version => SpdmTranscriptBufferId::MessageA,
        SpdmExchange::Capabilities => SpdmTranscriptBufferId::MessageA,
        SpdmExchange::NegotiateAlgorithms => SpdmTranscriptBufferId::MessageA,
        SpdmExchange::Digests => SpdmTranscriptBufferId::MessageB,
        SpdmExchange::Certificate => SpdmTranscriptBufferId::MessageB,
        SpdmExchange::Challenge => SpdmTranscriptBufferId::MessageC,
        SpdmExchange::Measurements => SpdmTranscriptBufferId::MessageM,
    }
}

/// The state after an exchange; `InvalidState` where the exchange is not legal
/// in the state.
pub fn next_state(state: SpdmConnectionState, exchange: SpdmExchange) -> (r: SpdmResult<
    SpdmConnectionState,
>)
    ensures
        r == match spec_next_state(state, exchange) {
            Some(next) => Ok::<SpdmConnectionState, SpdmError>(next),
            None => Err::<SpdmConnectionState, SpdmError>(SpdmError::InvalidState),
        },
{
    match (state, exchange) {
        (SpdmConnectionState::SpdmConnectionNotStarted, SpdmExchange::Version) => Ok(
            SpdmConnectionState::SpdmConnectionAfterVersion,
        ),
        (SpdmConnectionState::SpdmConnectionAfterVersion, SpdmExchange::Capabilities) => Ok(
            SpdmConnectionState::SpdmConnectionAfterCapabilities,
        ),
        (
            SpdmConnectionState::SpdmConnectionAfterCapabilities,
            SpdmExchange::NegotiateAlgorithms,
        ) => Ok(SpdmConnectionState::SpdmConnectionNegotiated),
        (SpdmConnectionState::SpdmConnectionNegotiated, SpdmExchange::Digests) => Ok(
            SpdmConnectionState::SpdmConnectionNegotiated,
        ),
        (SpdmConnectionState::SpdmConnectionNegotiated, SpdmExchange::Certificate) => Ok(
            SpdmConnectionState::SpdmConnectionNegotiated,
        ),
        (SpdmConnectionState::SpdmConnectionNegotiated, SpdmExchange::Challenge) => Ok(
            SpdmConnectionState::SpdmConnectionAuthenticated,
        ),
        (SpdmConnectionState::SpdmConnectionNegotiated, SpdmExchange::Measurements) => Ok(
            SpdmConnectionState::SpdmConnectionNegotiated,
        ),
        (SpdmConnectionState::SpdmConnectionAuthenticated, SpdmExchange::Measurements) => Ok(
            SpdmConnectionState::SpdmConnectionAuthenticated,
        ),
        _ => Err(SpdmError::InvalidState),
    }
}

/// The transcript buffer into which an exchange goes.
pub fn exchange_buffer(exchange: SpdmExchange) -> (r: SpdmTranscriptBufferId)
    ensures
        r == spec_exchange_buffer(exchange),
{
    match exchange {
        SpdmExchange::Version => SpdmTranscriptBufferId::MessageA,
        SpdmExchange::Capabilities => SpdmTranscriptBufferId::MessageA,
        SpdmExchange::NegotiateAlgorithms => SpdmTranscriptBufferId::MessageA,
        SpdmExchange::Digests => SpdmTranscriptBufferId::MessageB,
        SpdmExchange::Certificate => SpdmTranscriptBufferId::MessageB,
        SpdmExchange::Challenge => SpdmTranscriptBufferId::MessageC,
        SpdmExchange::Measurements => SpdmTranscriptBufferId::MessageM,
    }
}

/// What taking an exchange into a connection comes to, for a transcript
/// without running hashes: `InvalidState` for an exchange that is not legal in the
/// state of the connection, `TranscriptOverflow` for one that does not fit
/// the transcript buffer of the exchange, and success otherwise.
pub open spec fn spec_record_exchange<H: SpdmHash>(
    before: SpdmConnection<H>,
    exchange: SpdmExchange,
    request: Seq<u8>,
    response: Seq<u8>,
) -> SpdmResult {
    if spec_next_state(before.state, exchange).is_none() {
        Err(SpdmError::InvalidState)
    } else if before.transcript.data(spec_exchange_buffer(exchange)).len() + request.len()
        + response.len() > 0x1200 {
        Err(SpdmError::TranscriptOverflow)
    } else {
        Ok(())
    }
}

/// The connection `after` is the connection `before` with the exchange taken
/// into it, or refused with the result `r`.
///
/// - Sessions, and the transcript buffers of other exchanges, stay as they
///   are.
/// - An exchange that is not legal in the state of the connection is refused
///   with `InvalidState`, and one that does not fit the transcript with
///   `TranscriptOverflow`. A transcript without running hashes takes whatever
///   fits: see [`spec_record_exchange`].
/// - On success request and response stand behind what the transcript buffer
///   of the exchange held, in this order, and the connection is in the state
///   that follows the exchange.
/// - On failure the connection keeps its state, and its transcript holds what
///   it held before; a transcript that keeps running hashes may have taken
///   the request.
pub open spec fn exchange_recorded<H: SpdmHash>(
    before: SpdmConnection<H>,
    after: SpdmConnection<H>,
    exchange: SpdmExchange,
    request: Seq<u8>,
    response: Seq<u8>,
    r: SpdmResult,
) -> bool {
    let buffer = spec_exchange_buffer(exchange);
    &&& before.inv() ==> after.inv()
    &&& after.sessions@ == before.sessions@
    &&& after.transcript.strategy() == before.transcript.strategy()
    &&& after.transcript.hash_algo() == before.transcript.hash_algo()
    &&& forall|other: SpdmTranscriptBufferId|
        other != buffer ==> #[trigger] after.transcript.data(other) == before.transcript.data(other)
    &&& before.transcript.strategy() == SpdmTranscriptStrategy::Buffered ==> r
        == spec_record_exchange(before, exchange, request, response)
    &&& spec_next_state(before.state, exchange).is_none() ==> r == Err::<(), SpdmError>(
        SpdmError::InvalidState,
    )
    &&& spec_next_state(before.state, exchange).is_some() && r.is_err() ==> r == Err::<
        (),
        SpdmError,
    >(SpdmError::TranscriptOverflow)
    &&& r.is_ok() ==> Some(after.state) == spec_next_state(before.state, exchange)
        && after.transcript.data(buffer) == before.transcript.data(buffer) + request + response
    &&& r.is_err() ==> after.state == before.state && (after.transcript.data(buffer)
        == before.transcript.data(buffer) || (before.transcript.strategy()
        == SpdmTranscriptStrategy::Streaming && spec_next_state(before.state, exchange).is_some()
        && after.transcript.data(buffer) == before.transcript.data(buffer) + request))
}

/// One connection.
pub struct SpdmConnection<H: SpdmHash> {
    pub state: SpdmConnectionState,
    pub transcript: SpdmTranscript<H>,
    pub sessions: SpdmSessionTable,
}

impl<H: SpdmHash> SpdmConnection<H> {
    /// Transcript and session table are as they must be.
    pub open spec fn inv(&self) -> bool {
        self.transcript.wf() && self.sessions.inv()
    }

    /// An idle connection with an empty transcript and no session; none where
    /// the transcript cannot be had.
    pub fn new(
        strategy: SpdmTranscriptStrategy,
        hash_slot: &ProviderSlot<H>,
        hash_algo: SpdmBaseHashAlgo,
    ) -> (r: Option<SpdmConnection<H>>)
        ensures
            strategy == SpdmTranscriptStrategy::Buffered ==> r.is_some(),
            r matches Some(connection) ==> connection.inv() && connection.state
                == SpdmConnectionState::SpdmConnectionNotStarted
                && connection.transcript.strategy() == strategy
                && connection.transcript.hash_algo() == hash_algo && (forall|
                id: SpdmTranscriptBufferId,
            | #[trigger] connection.transcript.data(id) == Seq::<u8>::empty()) && (forall|
                session_id: u32,
            | !connection.sessions.contains(session_id)),
    {
        let transcript = SpdmTranscript::new(strategy, hash_slot, hash_algo)?;
        Some(
            SpdmConnection {
                state: SpdmConnectionState::SpdmConnectionNotStarted,
                transcript,
                sessions: SpdmSessionTable::new(),
            },
        )
    }

    /// Takes an exchange into the connection: where it is legal in the state
    /// of the connection, request and response go into the transcript buffer
    /// of the exchange, in this order, and the connection moves on. See
    /// [`exchange_recorded`].
    pub fn record_exchange(
        &mut self,
        hash_slot: &ProviderSlot<H>,
        exchange: SpdmExchange,
        request: &[u8],
        response: &[u8],
    ) -> (r: SpdmResult)
        requires
            old(self).inv(),
        ensures
            exchange_recorded(*old(self), *final(self), exchange, request@, response@, r),
    {
        let next = next_state(self.state, exchange)?;
        let id = exchange_buffer(exchange);
        if request.len() > 0x1200 || response.len() > 0x1200 - request.len()
            || self.transcript.len(id) > 0x1200 - request.len() - response.len() {
            return Err(SpdmError::TranscriptOverflow);
        }
        self.transcript.append(hash_slot, id, request)?;
        self.transcript.append(hash_slot, id, response)?;
        self.state = next;
        Ok(())
    }

    /// Starts the connection over, as a responder asks for with a request to
    /// resynchronise and as a timeout makes necessary: every session is
    /// dropped, the transcript is emptied, and the connection is idle again.
    /// Where a buffer of the transcript cannot be emptied, the result is
    /// `Fault`; the sessions are dropped all the same.
    pub fn reset(&mut self, hash_slot: &ProviderSlot<H>) -> (r: SpdmResult)
        requires
            old(self).inv(),
        ensures
            final(self).inv(),
            forall|session_id: u32| !final(self).sessions.contains(session_id),
            final(self).transcript.strategy() == old(self).transcript.strategy(),
            final(self).transcript.hash_algo() == old(self).transcript.hash_algo(),
            r.is_ok() ==> final(self).state == SpdmConnectionState::SpdmConnectionNotStarted
                && forall|id: SpdmTranscriptBufferId|
                #[trigger] final(self).transcript.data(id) == Seq::<u8>::empty(),
            r matches Err(e) ==> e == SpdmError::Fault,
            old(self).transcript.strategy() == SpdmTranscriptStrategy::Buffered ==> r.is_ok(),
    {
        self.sessions = SpdmSessionTable::new();
        self.transcript.reset(hash_slot, SpdmTranscriptBufferId::MessageA)?;
        self.transcript.reset(hash_slot, SpdmTranscriptBufferId::MessageB)?;
        self.transcript.reset(hash_slot, SpdmTranscriptBufferId::MessageC)?;
        self.transcript.reset(hash_slot, SpdmTranscriptBufferId::MessageM)?;
        self.transcript.reset(hash_slot, SpdmTranscriptBufferId::MessageK)?;
        self.transcript.reset(hash_slot, SpdmTranscriptBufferId::MessageF)?;
        self.state = SpdmConnectionState::SpdmConnectionNotStarted;
        assert forall|id: SpdmTranscriptBufferId| #[trigger]
            self.transcript.data(id) == Seq::<u8>::empty() by {
            match id {
                SpdmTranscriptBufferId::MessageA => {},
                SpdmTranscriptBufferId::MessageB => {},
                SpdmTranscriptBufferId::MessageC => {},
                SpdmTranscriptBufferId::MessageM => {},
                SpdmTranscriptBufferId::MessageK => {},
                SpdmTranscriptBufferId::MessageF => {},
            }
        }
        Ok(())
    }
}

/// What a provider's verdict on a signature comes to: anything but success is
/// `InvalidSignature`.
pub open spec fn signature_verdict(verdict: SpdmResult) -> SpdmResult {
    match verdict {
        Ok(()) => Ok(()),
        Err(_) => Err(SpdmError::InvalidSignature),
    }
}

/// What the signature of a challenge comes to on a connection whose
/// algorithms are negotiated and whose transcript keeps no running hashes:
/// `TranscriptOverflow` where request and response do not fit the transcript
/// buffer of challenges; `Fault` where the digest of `signed`, the
/// negotiation, the digests and certificates exchanges and the challenge
/// exchange, cannot be had; and the verdict of the provider on the signature
/// over that digest, with anything but success turned to `InvalidSignature`.
pub open spec fn spec_challenge_verdict<H: SpdmHash, V: SpdmAsymVerify>(
    hash: Option<H>,
    verify: Option<V>,
    hash_algo: SpdmBaseHashAlgo,
    base_asym_algo: SpdmBaseAsymAlgo,
    public_cert_der: Seq<u8>,
    held: nat,
    added: nat,
    signed: Seq<u8>,
    signature: SpdmSignatureStruct,
) -> SpdmResult {
    if held + added > 0x1200 {
        Err(SpdmError::TranscriptOverflow)
    } else {
        match spec_hash_all(hash, hash_algo, signed) {
            Some(digest) => signature_verdict(
                spec_verify(verify, hash_algo, base_asym_algo, public_cert_der, digest@, signature),
            ),
            None => Err(SpdmError::Fault),
        }
    }
}

/// The connection `after` is the connection `before` with a challenge taken
/// into it and the signature of its response checked, with the result `r`.
///
/// - Sessions, and the transcript buffers of other exchanges, stay as they
///   are.
/// - A challenge is legal only once algorithms are negotiated and before the
///   responder is authenticated: `InvalidState` otherwise, and the transcript
///   then stays as it is.
/// - Request and response, the latter without its signature, go behind what
///   the transcript buffer of challenges holds, if they fit:
///   `TranscriptOverflow` otherwise. A transcript without running hashes
///   stays as it is where they do not fit.
/// - The signature must verify, with the key in `public_cert_der`, over the
///   digest of the negotiation, the digests and certificates exchanges, and
///   the challenge exchange: see [`spec_challenge_verdict`], which is the
///   result for a transcript without running hashes. Where the digest cannot
///   be had the result is `Fault`; a signature that does not verify is
///   `InvalidSignature`.
/// - On success the responder is authenticated. Otherwise the connection
///   keeps its state.
pub open spec fn challenge_verified<H: SpdmHash, V: SpdmAsymVerify>(
    before: SpdmConnection<H>,
    after: SpdmConnection<H>,
    hash: Option<H>,
    verify: Option<V>,
    base_asym_algo: SpdmBaseAsymAlgo,
    public_cert_der: Seq<u8>,
    request: Seq<u8>,
    response: Seq<u8>,
    signature: SpdmSignatureStruct,
    r: SpdmResult,
) -> bool {
    let challenges = SpdmTranscriptBufferId::MessageC;
    let held = before.transcript.data(challenges);
    &&& before.inv() ==> after.inv()
    &&& after.sessions@ == before.sessions@
    &&& after.transcript.strategy() == before.transcript.strategy()
    &&& after.transcript.hash_algo() == before.transcript.hash_algo()
    &&& forall|other: SpdmTranscriptBufferId|
        other != challenges ==> #[trigger] after.transcript.data(other) == before.transcript.data(
            other,
        )
    &&& before.state != SpdmConnectionState::SpdmConnectionNegotiated ==> r == Err::<(), SpdmError>(
        SpdmError::InvalidState,
    ) && after.transcript.data(challenges) == held
    &&& r.is_ok() ==> after.state == SpdmConnectionState::SpdmConnectionAuthenticated
        && after.transcript.data(challenges) == held + request + response && (spec_hash_all(
        hash,
        before.transcript.hash_algo(),
        after.transcript.concat(challenge_buffers()),
    ) matches Some(digest) && spec_verify(
        verify,
        before.transcript.hash_algo(),
        base_asym_algo,
        public_cert_der,
        digest@,
        signature,
    ).is_ok())
    &&& r matches Err(e) ==> after.state == before.state && (e == SpdmError::InvalidState || e
        == SpdmError::TranscriptOverflow || e == SpdmError::Fault || e
        == SpdmError::InvalidSignature)
    &&& before.state == SpdmConnectionState::SpdmConnectionNegotiated
        && before.transcript.strategy() == SpdmTranscriptStrategy::Buffered ==> r
        == spec_challenge_verdict(
        hash,
        verify,
        before.transcript.hash_algo(),
        base_asym_algo,
        public_cert_der,
        held.len(),
        request.len() + response.len(),
        after.transcript.concat(challenge_buffers()),
        signature,
    ) && after.transcript.data(challenges) == (if held.len() + request.len() + response.len()
        > 0x1200 {
        held
    } else {
        held + request + response
    })
}

impl<H: SpdmHash> SpdmConnection<H> {
    /// Takes a challenge and the response to it, the latter without its
    /// signature, into the connection and checks the signature. See
    /// [`challenge_verified`].
    pub fn verify_challenge<V: SpdmAsymVerify>(
        &mut self,
        hash_slot: &ProviderSlot<H>,
        verify_slot: &ProviderSlot<V>,
        base_asym_algo: SpdmBaseAsymAlgo,
        public_cert_der: &[u8],
        request: &[u8],
        response: &[u8],
        signature: &SpdmSignatureStruct,
    ) -> (r: SpdmResult)
        requires
            old(self).inv(),
        ensures
            challenge_verified(
                *old(self),
                *final(self),
                hash_slot.provider(),
                verify_slot.provider(),
                base_asym_algo,
                public_cert_der@,
                request@,
                response@,
                *signature,
                r,
            ),
    {
        match self.state {
            SpdmConnectionState::SpdmConnectionNegotiated => {},
            _ => {
                return Err(SpdmError::InvalidState);
            },
        }
        let id = SpdmTranscriptBufferId::MessageC;
        if request.len() > 0x1200 || response.len() > 0x1200 - request.len()
            || self.transcript.len(id) > 0x1200 - request.len() - response.len() {
            return Err(SpdmError::TranscriptOverflow);
        }
        self.transcript.append(hash_slot, id, request)?;
        self.transcript.append(hash_slot, id, response)?;
        let buffers = [
            SpdmTranscriptBufferId::MessageA,
            SpdmTranscriptBufferId::MessageB,
            SpdmTranscriptBufferId::MessageC,
        ];
        assert(buffers@ =~= challenge_buffers());
        let digest = match self.transcript.snapshot_hash(hash_slot, buffers.as_slice()) {
            Some(digest) => digest,
            None => {
                return Err(SpdmError::Fault);
            },
        };
        match verify(
            verify_slot,
            self.transcript.get_hash_algo(),
            base_asym_algo,
            public_cert_der,
            digest.as_ref(),
            signature,
        ) {
            Ok(()) => {
                self.state = SpdmConnectionState::SpdmConnectionAuthenticated;
                Ok(())
            },
            Err(_) => Err(SpdmError::InvalidSignature),
        }
    }

    /// Checks the signature of a measurements response: it must verify, with
    /// the key in `public_cert_der`, over the digest of the measurements
    /// exchanges as they stand in the transcript, the signed response without
    /// its signature last. Where the digest cannot be had the result is
    /// `Fault`; a signature that does not verify is `InvalidSignature`. The
    /// connection stays as it is.
    pub fn verify_measurements_signature<V: SpdmAsymVerify>(
        &self,
        hash_slot: &ProviderSlot<H>,
        verify_slot: &ProviderSlot<V>,
        base_asym_algo: SpdmBaseAsymAlgo,
        public_cert_der: &[u8],
        signature: &SpdmSignatureStruct,
    ) -> (r: SpdmResult)
        requires
            self.inv(),
        ensures
            r == match spec_hash_all(
                hash_slot.provider(),
                self.transcript.hash_algo(),
                self.transcript.data(SpdmTranscriptBufferId::MessageM),
            ) {
                Some(digest) => signature_verdict(
                    spec_verify(
                        verify_slot.provider(),
                        self.transcript.hash_algo(),
                        base_asym_algo,
                        public_cert_der@,
                        digest@,
                        *signature,
                    ),
                ),
                None => Err::<(), SpdmError>(SpdmError::Fault),
            },
    {
        let buffers = [SpdmTranscriptBufferId::MessageM];
        proof {
            assert(buffers@.drop_last() =~= Seq::<SpdmTranscriptBufferId>::empty());
            assert(self.transcript.concat(buffers@.drop_last()) =~= Seq::<u8>::empty());
            assert(self.transcript.concat(buffers@) =~= self.transcript.data(
                SpdmTranscriptBufferId::MessageM,
            ));
        }
        let digest = match self.transcript.snapshot_hash(hash_slot, buffers.as_slice()) {
            Some(digest) => digest,
            None => {
                return Err(SpdmError::Fault);
            },
        };
        match verify(
            verify_slot,
            self.transcript.get_hash_algo(),
            base_asym_algo,
            public_cert_der,
            digest.as_ref(),
            signature,
        ) {
            Ok(()) => Ok(()),
            Err(_) => Err(SpdmError::InvalidSignature),
        }
    }
}

/// The buffers over which the signature of a challenge is taken.
pub open spec fn challenge_buffers() -> Seq<SpdmTranscriptBufferId> {
    seq![
        SpdmTranscriptBufferId::MessageA,
        SpdmTranscriptBufferId::MessageB,
        SpdmTranscriptBufferId::MessageC,
    ]
}

/// The bytes over which the transcript hashes of a session are taken: the
/// negotiation, the certificate chain, the key exchange and, for the second
/// hash, the finish exchange.
pub open spec fn spec_session_transcript<H: SpdmHash>(
    transcript: SpdmTranscript<H>,
    cert_chain: Seq<u8>,
    with_finish: bool,
) -> Seq<u8> {
    transcript.data(SpdmTranscriptBufferId::MessageA) + cert_chain + transcript.data(
        SpdmTranscriptBufferId::MessageK,
    ) + if with_finish {
        transcript.data(SpdmTranscriptBufferId::MessageF)
    } else {
        Seq::<u8>::empty()
    }
}

/// A transcript hash of a session: the digest of the negotiation, the
/// certificate chain, the key exchange and, where `with_finish` says so, the
/// finish exchange, as they stand in the transcript: what `hash_all` returns
/// for the bytes, whatever the strategy of the transcript.
pub open spec fn spec_session_transcript_hash<H: SpdmHash>(
    transcript: SpdmTranscript<H>,
    provider: Option<H>,
    cert_chain: Seq<u8>,
    with_finish: bool,
) -> Option<SpdmDigestStruct> {
    spec_hash_all(
        provider,
        transcript.hash_algo(),
        spec_session_transcript(transcript, cert_chain, with_finish),
    )
}

/// A transcript hash of a session: see [`spec_session_transcript_hash`]. A
/// transcript that keeps running hashes forks the running hash of the
/// negotiation and feeds it the certificate chain and the exchanges of the
/// session; one without hashes the bytes in one go.
pub fn session_transcript_hash<H: SpdmHash>(
    transcript: &SpdmTranscript<H>,
    hash_slot: &ProviderSlot<H>,
    cert_chain: &[u8],
    with_finish: bool,
) -> (r: Option<SpdmDigestStruct>)
    requires
        transcript.wf(),
    ensures
        r == spec_session_transcript_hash(
            *transcript,
            hash_slot.provider(),
            cert_chain@,
            with_finish,
        ),
        r matches Some(d) ==> d.wf() && d@.len() == transcript.hash_algo().spec_size(),
{
    let message_a = transcript.stored(SpdmTranscriptBufferId::MessageA);
    let message_k = transcript.stored(SpdmTranscriptBufferId::MessageK);
    let message_f = transcript.stored(SpdmTranscriptBufferId::MessageF);
    // by way of the running hash of the negotiation, where there is one
    match transcript.fork_running(hash_slot, SpdmTranscriptBufferId::MessageA) {
        Some(mut ctx) => {
            if hash_ctx_update(hash_slot, &mut ctx, cert_chain) && hash_ctx_update(
                hash_slot,
                &mut ctx,
                message_k,
            ) {
                if !with_finish {
                    assert(H::ctx_data(&ctx) =~= spec_session_transcript(
                        *transcript,
                        cert_chain@,
                        with_finish,
                    ));
                    return hash_ctx_finalize(hash_slot, ctx);
                }
                if hash_ctx_update(hash_slot, &mut ctx, message_f) {
                    return hash_ctx_finalize(hash_slot, ctx);
                }
            }
        },
        None => {},
    }
    let mut all: Vec<u8> = Vec::new();
    append_bytes(&mut all, message_a);
    append_bytes(&mut all, cert_chain);
    append_bytes(&mut all, message_k);
    if with_finish {
        append_bytes(&mut all, message_f);
    }
    assert(all@ =~= spec_session_transcript(*transcript, cert_chain@, with_finish));
    hash_all(hash_slot, transcript.get_hash_algo(), all.as_slice())
}

/// What both sides record of an exchange is the same, whatever their hash
/// providers and however they keep their transcripts: if the buffer of the
/// exchange held the same bytes on both sides before, and each side took
/// request and response into it, it holds the same bytes on both sides
/// afterwards.
pub proof fn lemma_transcript_agreement<H1: SpdmHash, H2: SpdmHash>(
    requester_before: SpdmConnection<H1>,
    requester_after: SpdmConnection<H1>,
    responder_before: SpdmConnection<H2>,
    responder_after: SpdmConnection<H2>,
    exchange: SpdmExchange,
    request: Seq<u8>,
    response: Seq<u8>,
)
    requires
        forall|id: SpdmTranscriptBufferId|
            requester_before.transcript.data(id) == responder_before.transcript.data(id),
        requester_after.transcript.data(spec_exchange_buffer(exchange))
            == requester_before.transcript.data(spec_exchange_buffer(exchange)) + request
            + response,
        responder_after.transcript.data(spec_exchange_buffer(exchange))
            == responder_before.transcript.data(spec_exchange_buffer(exchange)) + request
            + response,
        forall|other: SpdmTranscriptBufferId|
            other != spec_exchange_buffer(exchange) ==> #[trigger] requester_after.transcript.data(
                other,
            ) == requester_before.transcript.data(other),
        forall|other: SpdmTranscriptBufferId|
            other != spec_exchange_buffer(exchange) ==> #[trigger] responder_after.transcript.data(
                other,
            ) == responder_before.transcript.data(other),
    ensures
        forall|id: SpdmTranscriptBufferId|
            requester_after.transcript.data(id) == responder_after.transcript.data(id),
{
    assert forall|id: SpdmTranscriptBufferId|
        requester_after.transcript.data(id) == responder_after.transcript.data(id) by {
        if id != spec_exchange_buffer(exchange) {
            assert(requester_after.transcript.data(id) == requester_before.transcript.data(id));
            assert(responder_after.transcript.data(id) == responder_before.transcript.data(id));
        }
    }
}

} // verus!
