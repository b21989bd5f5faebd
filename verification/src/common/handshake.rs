//! The steps by which a session comes about and ends, as both sides take
//! them: a slot is taken and the session starts to handshake; the handshake
//! keys are derived over the first transcript hash; the verify-data of the
//! finish is checked; the data keys are derived over the second transcript
//! hash and the session is established; keys are updated; and in the end the
//! session is dropped.
//!
//! What a step does to a session is a function of the session, written down
//! on [`SpdmSessionView`]. A step that fails leaves the session as it was,
//! except where the protocol asks for the session to be destroyed.

use crate::common::connection::{
    session_transcript_hash, signature_verdict, spec_session_transcript_hash, SpdmConnection,
    SpdmConnectionState,
};
use crate::common::session::{
    spec_updated_data_keys, SpdmSessionCryptoParam, SpdmSessionState, SpdmSessionView,
    INVALID_SESSION_ID,
};
use crate::common::session_keys::{
    spec_data_keys, spec_handshake_keys, spec_psk_data_keys, spec_psk_handshake_keys,
};
use crate::common::session_table::{holds_session, lemma_slot_of, slot_of};
use crate::common::transcript::{SpdmTranscriptBufferId, SpdmTranscriptStrategy};
use crate::crypto::asym_verify::{spec_verify, verify};
use crate::crypto::{ProviderSlot, SpdmAsymVerify, SpdmHash, SpdmHkdf, SpdmHmac};
use crate::error::{SpdmError, SpdmResult};
use crate::message::key_update::SpdmKeyUpdateOperation;
use crate::protocol::{
    SpdmBaseAsymAlgo, SpdmDheFinalKeyStruct, SpdmDigestStruct, SpdmSignatureStruct, SpdmVersion,
};
use crate::secret::SpdmSecret;
use vstd::prelude::*;

verus! {

impl SpdmSessionView {
    /// The session after its handshake keys are derived from the shared
    /// secret of the key agreement over the transcript hash `th1`, and the
    /// result of the step.
    ///
    /// The step is legal only on a session that is handshaking, has no keys
    /// yet and does not run on a pre-shared key: `InvalidState` otherwise. A
    /// shared secret that overruns its buffer is `InvalidMsgField`. Where
    /// the transcript hash is missing or a derivation fails the result is
    /// `Fault`.
    pub open spec fn derive_handshake_keys<M: SpdmHmac, K: SpdmHkdf>(
        &self,
        hmac: Option<M>,
        hkdf: Option<K>,
        spdm_version: SpdmVersion,
        dhe_secret: SpdmDheFinalKeyStruct,
        th1: Option<SpdmDigestStruct>,
    ) -> (SpdmResult, SpdmSessionView) {
        if self.state != SpdmSessionState::SpdmSessionHandshaking || self.handshake_keys.is_some()
            || self.use_psk {
            (Err(SpdmError::InvalidState), *self)
        } else if !dhe_secret.wf() {
            (Err(SpdmError::InvalidMsgField), *self)
        } else {
            match th1 {
                Some(th1) => match spec_handshake_keys(
                    hmac,
                    hkdf,
                    spdm_version,
                    self.crypto_param.base_hash_algo,
                    self.crypto_param.aead_algo,
                    dhe_secret@,
                    th1@,
                ) {
                    Some(keys) => (
                        Ok(()),
                        SpdmSessionView {
                            dhe_secret: Some(dhe_secret),
                            handshake_keys: Some(keys),
                            ..*self
                        },
                    ),
                    None => (Err(SpdmError::Fault), *self),
                },
                None => (Err(SpdmError::Fault), *self),
            }
        }
    }

    /// The session after its handshake keys are derived from the pre-shared
    /// key named by `psk_hint` over the transcript hash `th1`, and the result
    /// of the step.
    ///
    /// Where the transcript hash is missing the result is `Fault`. The step
    /// is legal only on a session that is handshaking, has no keys yet and
    /// runs on a pre-shared key: `InvalidState` otherwise. Where a derivation
    /// fails the result is `Fault`.
    pub open spec fn derive_handshake_keys_psk<S: SpdmSecret, K: SpdmHkdf>(
        &self,
        secret: Option<S>,
        hkdf: Option<K>,
        spdm_version: SpdmVersion,
        psk_hint: Seq<u8>,
        th1: Option<SpdmDigestStruct>,
    ) -> (SpdmResult, SpdmSessionView) {
        match th1 {
            Some(th1) => if self.state != SpdmSessionState::SpdmSessionHandshaking
                || self.handshake_keys.is_some() || !self.use_psk {
                (Err(SpdmError::InvalidState), *self)
            } else {
                match spec_psk_handshake_keys(
                    secret,
                    hkdf,
                    spdm_version,
                    self.crypto_param.base_hash_algo,
                    self.crypto_param.aead_algo,
                    psk_hint,
                    th1@,
                ) {
                    Some(keys) => (Ok(()), SpdmSessionView { handshake_keys: Some(keys), ..*self }),
                    None => (Err(SpdmError::Fault), *self),
                }
            },
            None => (Err(SpdmError::Fault), *self),
        }
    }

    /// The session after the verify-data of a finish is checked against the
    /// MAC of the transcript hash `th2` under the finished key of one side,
    /// and the result of the check.
    ///
    /// Where the transcript hash is missing the result is `Fault`, and the
    /// session stays. Verify-data that is not the MAC, byte for byte, is
    /// `InvalidMac` and wipes the session.
    pub open spec fn verify_finish<M: SpdmHmac>(
        &self,
        hmac: Option<M>,
        of_requester: bool,
        th2: Option<SpdmDigestStruct>,
        verify_data: SpdmDigestStruct,
    ) -> (SpdmResult, SpdmSessionView) {
        match th2 {
            Some(th2) => if self.finished_mac_matches(hmac, of_requester, th2@, verify_data) {
                (Ok(()), *self)
            } else {
                (Err(SpdmError::InvalidMac), SpdmSessionView::free())
            },
            None => (Err(SpdmError::Fault), *self),
        }
    }

    /// The session after the signature of a key exchange is checked, and the
    /// result of the check: `verdict` is what the check of the signature
    /// over the transcript hash came to, or nothing where the transcript hash
    /// is missing. Without a transcript hash the result is `Fault`, and the
    /// session stays. A signature that does not verify is `InvalidSignature`
    /// and wipes the session, as does any other failure of the check, under
    /// its own error.
    pub open spec fn verify_signature(&self, verdict: Option<SpdmResult>) -> (
        SpdmResult,
        SpdmSessionView,
    ) {
        match verdict {
            Some(Ok(())) => (Ok(()), *self),
            Some(Err(e)) => (Err(e), SpdmSessionView::free()),
            None => (Err(SpdmError::Fault), *self),
        }
    }

    /// The verify-data that one side sends: the MAC of the transcript hash
    /// `th` under its finished key. Without a transcript hash, or where the
    /// MAC cannot be had, the result is `Fault`; before the handshake keys
    /// are derived it is `InvalidState`.
    pub open spec fn verify_data<M: SpdmHmac>(
        &self,
        hmac: Option<M>,
        of_requester: bool,
        th: Option<SpdmDigestStruct>,
    ) -> SpdmResult<SpdmDigestStruct> {
        if self.handshake_keys.is_none() {
            Err(SpdmError::InvalidState)
        } else {
            match th {
                Some(th) => match self.finished_mac(hmac, of_requester, th@) {
                    Some(mac) => Ok(mac),
                    None => Err(SpdmError::Fault),
                },
                None => Err(SpdmError::Fault),
            }
        }
    }

    /// The session after its data keys are derived over the transcript hash
    /// `th2` and it is established, and the result of the step.
    ///
    /// Where the transcript hash is missing the result is `Fault`. The step
    /// is legal only on a session that is handshaking, has handshake keys
    /// but no data keys, and does not run on a pre-shared key: `InvalidState`
    /// otherwise. Where a derivation fails the result is `Fault`.
    pub open spec fn establish<K: SpdmHkdf>(
        &self,
        hkdf: Option<K>,
        spdm_version: SpdmVersion,
        th2: Option<SpdmDigestStruct>,
    ) -> (SpdmResult, SpdmSessionView) {
        match th2 {
            Some(th2) => if self.state != SpdmSessionState::SpdmSessionHandshaking
                || self.handshake_keys.is_none() || self.data_keys.is_some() || self.use_psk {
                (Err(SpdmError::InvalidState), *self)
            } else {
                match spec_data_keys(
                    hkdf,
                    spdm_version,
                    self.crypto_param.base_hash_algo,
                    self.crypto_param.aead_algo,
                    self.handshake_keys.unwrap().master_secret@,
                    th2@,
                ) {
                    Some(keys) => (
                        Ok(()),
                        SpdmSessionView {
                            state: SpdmSessionState::SpdmSessionEstablished,
                            data_keys: Some(keys),
                            ..*self
                        },
                    ),
                    None => (Err(SpdmError::Fault), *self),
                }
            },
            None => (Err(SpdmError::Fault), *self),
        }
    }

    /// The session on a pre-shared key after its data keys are derived over
    /// the transcript hash `th2` and it is established, and the result of the
    /// step.
    ///
    /// Where the transcript hash is missing the result is `Fault`. The step
    /// is legal only on a session that is handshaking, has handshake keys
    /// but no data keys, and runs on a pre-shared key: `InvalidState`
    /// otherwise. Where a derivation fails the result is `Fault`.
    pub open spec fn establish_psk<S: SpdmSecret, K: SpdmHkdf>(
        &self,
        secret: Option<S>,
        hkdf: Option<K>,
        spdm_version: SpdmVersion,
        psk_hint: Seq<u8>,
        th2: Option<SpdmDigestStruct>,
    ) -> (SpdmResult, SpdmSessionView) {
        match th2 {
            Some(th2) => if self.state != SpdmSessionState::SpdmSessionHandshaking
                || self.handshake_keys.is_none() || self.data_keys.is_some() || !self.use_psk {
                (Err(SpdmError::InvalidState), *self)
            } else {
                match spec_psk_data_keys(
                    secret,
                    hkdf,
                    spdm_version,
                    self.crypto_param.base_hash_algo,
                    self.crypto_param.aead_algo,
                    psk_hint,
                    th2@,
                ) {
                    Some(keys) => (
                        Ok(()),
                        SpdmSessionView {
                            state: SpdmSessionState::SpdmSessionEstablished,
                            data_keys: Some(keys),
                            ..*self
                        },
                    ),
                    None => (Err(SpdmError::Fault), *self),
                }
            },
            None => (Err(SpdmError::Fault), *self),
        }
    }

    /// The session after a key update, and the result of the update.
    ///
    /// An update of one or of all keys keeps the data keys aside and
    /// replaces those of the requester's direction, or of both directions,
    /// by the keys that follow them, with record numbers that start at 0
    /// again. It is legal only on an established session on which no update
    /// is pending: `InvalidState` otherwise; where a derivation fails the
    /// result is `Fault`. The confirmation of the new keys drops the old
    /// ones; without a pending update it is refused with `InvalidState`.
    pub open spec fn key_update<K: SpdmHkdf>(
        &self,
        hkdf: Option<K>,
        spdm_version: SpdmVersion,
        operation: SpdmKeyUpdateOperation,
    ) -> (SpdmResult, SpdmSessionView) {
        if self.state != SpdmSessionState::SpdmSessionEstablished {
            (Err(SpdmError::InvalidState), *self)
        } else if operation == SpdmKeyUpdateOperation::SpdmVerifyNewKey {
            if self.backup_keys.is_some() {
                (Ok(()), SpdmSessionView { backup_keys: None, ..*self })
            } else {
                (Err(SpdmError::InvalidState), *self)
            }
        } else if self.backup_keys.is_some() {
            (Err(SpdmError::InvalidState), *self)
        } else {
            match spec_updated_data_keys(
                hkdf,
                spdm_version,
                self.crypto_param.base_hash_algo,
                self.crypto_param.aead_algo,
                self.data_keys.unwrap(),
                true,
                operation == SpdmKeyUpdateOperation::SpdmUpdateAllKeys,
            ) {
                Some(keys) => (
                    Ok(()),
                    SpdmSessionView {
                        data_keys: Some(keys),
                        backup_keys: self.data_keys,
                        ..*self
                    },
                ),
                None => (Err(SpdmError::Fault), *self),
            }
        }
    }

    /// The session after a pending key update is given up, and the result:
    /// the keys from before the update, with their record numbers, are put
    /// back. Without a pending update the result is `InvalidState`.
    pub open spec fn revert_key_update(&self) -> (SpdmResult, SpdmSessionView) {
        if self.backup_keys.is_some() {
            (Ok(()), SpdmSessionView { data_keys: self.backup_keys, backup_keys: None, ..*self })
        } else {
            (Err(SpdmError::InvalidState), *self)
        }
    }

    /// The session after a heartbeat, and the result: a heartbeat is legal
    /// only on an established session; on any other it is refused with
    /// `InvalidState` and wipes the session.
    pub open spec fn heartbeat(&self) -> (SpdmResult, SpdmSessionView) {
        if self.state == SpdmSessionState::SpdmSessionEstablished {
            (Ok(()), *self)
        } else {
            (Err(SpdmError::InvalidState), SpdmSessionView::free())
        }
    }
}

/// The transcript buffer of the messages of a session: that of finishes
/// where `finish` says so, that of key exchanges otherwise.
pub open spec fn session_buffer(finish: bool) -> SpdmTranscriptBufferId {
    if finish {
        SpdmTranscriptBufferId::MessageF
    } else {
        SpdmTranscriptBufferId::MessageK
    }
}

/// What a step on the session `session_id` does to a table: where the table
/// holds the session, the step is taken on it, its result is `result`, and
/// the session afterwards takes its place; where the table does not hold it,
/// the result is `SessionNotFound` and the table stays as it is.
pub open spec fn step_taken(
    before: Seq<SpdmSessionView>,
    after: Seq<SpdmSessionView>,
    session_id: u32,
    result: SpdmResult,
    step: spec_fn(SpdmSessionView) -> (SpdmResult, SpdmSessionView),
) -> bool {
    if holds_session(before, session_id) {
        let slot = slot_of(before, session_id);
        result == step(before[slot]).0 && after == before.update(slot, step(before[slot]).1)
    } else {
        result == Err::<(), SpdmError>(SpdmError::SessionNotFound) && after == before
    }
}

impl<H: SpdmHash> SpdmConnection<H> {
    /// The connection has negotiated its algorithms, so that sessions can be
    /// opened on it.
    pub open spec fn can_open_sessions(&self) -> bool {
        self.state == SpdmConnectionState::SpdmConnectionNegotiated || self.state
            == SpdmConnectionState::SpdmConnectionAuthenticated
    }

    /// The table has a free slot.
    pub open spec fn has_free_slot(&self) -> bool {
        exists|i: int| 0 <= i < 4 && (#[trigger] self.sessions@[i]).session_id == INVALID_SESSION_ID
    }

    /// Opens the session `session_id`: takes a free slot, fixes the
    /// algorithms of the session and whether it runs on a pre-shared key,
    /// and lets it handshake. The transcript buffers of key exchange and
    /// finish are emptied for it. Returns the slot.
    ///
    /// Refused, in this order, with `InvalidState` before algorithms are
    /// negotiated, with `InvalidMsgField` for the id of no session, with
    /// `InvalidState` where a session of that id exists, with `Fault` where
    /// the transcript buffers cannot be emptied, which does not happen to a
    /// transcript without running hashes, and with `SessionLimit` where no
    /// slot is free. The session table then stays as it is.
    pub fn start_session(
        &mut self,
        hash_slot: &ProviderSlot<H>,
        session_id: u32,
        crypto_param: SpdmSessionCryptoParam,
        use_psk: bool,
    ) -> (r: SpdmResult<usize>)
        requires
            old(self).inv(),
        ensures
            final(self).inv(),
            final(self).state == old(self).state,
            final(self).transcript.strategy() == old(self).transcript.strategy(),
            final(self).transcript.hash_algo() == old(self).transcript.hash_algo(),
            forall|other: SpdmTranscriptBufferId|
                other != SpdmTranscriptBufferId::MessageK && other
                    != SpdmTranscriptBufferId::MessageF ==> #[trigger] final(self).transcript.data(
                    other,
                ) == old(self).transcript.data(other),
            !old(self).can_open_sessions() ==> r == Err::<usize, SpdmError>(
                SpdmError::InvalidState,
            ),
            old(self).can_open_sessions() && session_id == INVALID_SESSION_ID ==> r == Err::<
                usize,
                SpdmError,
            >(SpdmError::InvalidMsgField),
            old(self).can_open_sessions() && old(self).sessions.contains(session_id) ==> r
                == Err::<usize, SpdmError>(SpdmError::InvalidState),
            old(self).can_open_sessions() && session_id != INVALID_SESSION_ID && !old(self).sessions.contains(session_id) && old(self).transcript.strategy()
                == SpdmTranscriptStrategy::Buffered ==> (if old(self).has_free_slot() {
                r.is_ok()
            } else {
                r == Err::<usize, SpdmError>(SpdmError::SessionLimit)
            }),
            r matches Ok(slot) ==> slot < 4 && old(self).sessions@[slot as int].is_free() && !old(self).sessions.contains(session_id) && final(self).sessions@ == old(self).sessions@.update(
                slot as int,
                SpdmSessionView {
                    session_id,
                    use_psk,
                    crypto_param,
                    state: SpdmSessionState::SpdmSessionHandshaking,
                    ..SpdmSessionView::free()
                },
            ) && final(self).sessions.contains(session_id) && final(self).transcript.data(
                SpdmTranscriptBufferId::MessageK,
            ) == Seq::<u8>::empty() && final(self).transcript.data(
                SpdmTranscriptBufferId::MessageF,
            ) == Seq::<u8>::empty(),
            r matches Err(e) ==> final(self).sessions@ == old(self).sessions@ && (e
                == SpdmError::InvalidState || e == SpdmError::InvalidMsgField || e
                == SpdmError::SessionLimit || e == SpdmError::Fault),
    {
        match self.state {
            SpdmConnectionState::SpdmConnectionNegotiated => {},
            SpdmConnectionState::SpdmConnectionAuthenticated => {},
            _ => {
                return Err(SpdmError::InvalidState);
            },
        }
        if session_id == INVALID_SESSION_ID {
            return Err(SpdmError::InvalidMsgField);
        }
        if self.sessions.find(session_id).is_some() {
            return Err(SpdmError::InvalidState);
        }
        self.transcript.reset(hash_slot, SpdmTranscriptBufferId::MessageK)?;
        self.transcript.reset(hash_slot, SpdmTranscriptBufferId::MessageF)?;
        let slot = self.sessions.add_session(session_id)?;
        let mut session = self.sessions.get_slot(slot);
        assert(old(self).sessions@[slot as int].is_free());
        let configured = session.set_crypto_param(
            crypto_param.base_hash_algo,
            crypto_param.dhe_algo,
            crypto_param.aead_algo,
            crypto_param.key_schedule_algo,
        );
        assert(configured.is_ok());
        let keyed = session.set_use_psk(use_psk);
        assert(keyed.is_ok());
        let started = session.set_session_state(SpdmSessionState::SpdmSessionHandshaking);
        assert(started.is_ok());
        self.sessions.replace(slot, session);
        proof {
            assert(self.sessions@ =~= old(self).sessions@.update(slot as int, session@));
            assert(self.sessions@[slot as int].session_id == session_id);
        }
        Ok(slot)
    }

    /// Derives the handshake keys of the session `session_id` from the shared
    /// secret of the key agreement, over the first transcript hash: the
    /// digest of negotiation, certificate chain and key exchange as they
    /// stand in the transcript. See
    /// [`SpdmSessionView::derive_handshake_keys`].
    pub fn derive_session_handshake_keys<M: SpdmHmac, K: SpdmHkdf>(
        &mut self,
        hmac_slot: &ProviderSlot<M>,
        hkdf_slot: &ProviderSlot<K>,
        hash_slot: &ProviderSlot<H>,
        session_id: u32,
        spdm_version: SpdmVersion,
        dhe_secret: SpdmDheFinalKeyStruct,
        cert_chain: &[u8],
    ) -> (r: SpdmResult)
        requires
            old(self).inv(),
        ensures
            final(self).inv(),
            final(self).state == old(self).state,
            final(self).transcript == old(self).transcript,
            step_taken(
                old(self).sessions@,
                final(self).sessions@,
                session_id,
                r,
                |session: SpdmSessionView|
                    session.derive_handshake_keys(
                        hmac_slot.provider(),
                        hkdf_slot.provider(),
                        spdm_version,
                        dhe_secret,
                        spec_session_transcript_hash(
                            old(self).transcript,
                            hash_slot.provider(),
                            cert_chain@,
                            false,
                        ),
                    ),
            ),
    {
        let slot = match self.sessions.find(session_id) {
            Some(slot) => slot,
            None => {
                return Err(SpdmError::SessionNotFound);
            },
        };
        proof {
            lemma_slot_of(self.sessions@, session_id, slot as int);
            assert(self.sessions@.update(slot as int, self.sessions@[slot as int])
                =~= self.sessions@);
        }
        let mut session = self.sessions.get_slot(slot);
        session.set_dhe_secret(spdm_version, dhe_secret)?;
        let th1 = match session_transcript_hash(&self.transcript, hash_slot, cert_chain, false) {
            Some(digest) => digest,
            None => {
                return Err(SpdmError::Fault);
            },
        };
        session.generate_handshake_secret(hmac_slot, hkdf_slot, spdm_version, &th1)?;
        self.sessions.replace(slot, session);
        Ok(())
    }

    /// Derives the handshake keys of the session `session_id`, which runs on
    /// the pre-shared key named by `psk_hint`, over the first transcript
    /// hash: the digest of negotiation and key exchange as they stand in the
    /// transcript. See [`SpdmSessionView::derive_handshake_keys_psk`].
    pub fn derive_session_handshake_keys_psk<S: SpdmSecret, K: SpdmHkdf>(
        &mut self,
        secret_slot: &ProviderSlot<S>,
        hkdf_slot: &ProviderSlot<K>,
        hash_slot: &ProviderSlot<H>,
        session_id: u32,
        spdm_version: SpdmVersion,
        psk_hint: &[u8],
    ) -> (r: SpdmResult)
        requires
            old(self).inv(),
        ensures
            final(self).inv(),
            final(self).state == old(self).state,
            final(self).transcript == old(self).transcript,
            step_taken(
                old(self).sessions@,
                final(self).sessions@,
                session_id,
                r,
                |session: SpdmSessionView|
                    session.derive_handshake_keys_psk(
                        secret_slot.provider(),
                        hkdf_slot.provider(),
                        spdm_version,
                        psk_hint@,
                        spec_session_transcript_hash(
                            old(self).transcript,
                            hash_slot.provider(),
                            Seq::<u8>::empty(),
                            false,
                        ),
                    ),
            ),
    {
        let slot = match self.sessions.find(session_id) {
            Some(slot) => slot,
            None => {
                return Err(SpdmError::SessionNotFound);
            },
        };
        proof {
            lemma_slot_of(self.sessions@, session_id, slot as int);
            assert(self.sessions@.update(slot as int, self.sessions@[slot as int])
                =~= self.sessions@);
        }
        let mut session = self.sessions.get_slot(slot);
        let no_cert_chain: [u8; 0] = [];
        assert(no_cert_chain@ =~= Seq::<u8>::empty());
        let th1 = match session_transcript_hash(
            &self.transcript,
            hash_slot,
            no_cert_chain.as_slice(),
            false,
        ) {
            Some(digest) => digest,
            None => {
                return Err(SpdmError::Fault);
            },
        };
        session.generate_handshake_secret_psk(
            secret_slot,
            hkdf_slot,
            spdm_version,
            psk_hint,
            &th1,
        )?;
        self.sessions.replace(slot, session);
        Ok(())
    }

    /// Takes a message of the key exchange of the session `session_id`, or of
    /// its finish where `finish` says so, into the transcript: `message` goes
    /// behind what the buffer of key exchanges, or of finishes, holds.
    ///
    /// Where the table does not hold the session the result is
    /// `SessionNotFound`, and nothing changes. A message that the transcript
    /// does not take is `TranscriptOverflow`: the transcript stays as it is,
    /// and the session is destroyed. A transcript without running hashes takes
    /// whatever fits.
    pub fn record_session_message(
        &mut self,
        hash_slot: &ProviderSlot<H>,
        session_id: u32,
        finish: bool,
        message: &[u8],
    ) -> (r: SpdmResult)
        requires
            old(self).inv(),
        ensures
            final(self).inv(),
            final(self).state == old(self).state,
            final(self).transcript.strategy() == old(self).transcript.strategy(),
            final(self).transcript.hash_algo() == old(self).transcript.hash_algo(),
            forall|other: SpdmTranscriptBufferId|
                other != session_buffer(finish) ==> #[trigger] final(self).transcript.data(other)
                    == old(self).transcript.data(other),
            !old(self).sessions.contains(session_id) ==> r == Err::<(), SpdmError>(
                SpdmError::SessionNotFound,
            ) && final(self).sessions@ == old(self).sessions@ && final(self).transcript.data(
                session_buffer(finish),
            ) == old(self).transcript.data(session_buffer(finish)),
            old(self).sessions.contains(session_id) ==> (if r.is_ok() {
                final(self).sessions@ == old(self).sessions@ && final(self).transcript.data(
                    session_buffer(finish),
                ) == old(self).transcript.data(session_buffer(finish)) + message@
            } else {
                r == Err::<(), SpdmError>(SpdmError::TranscriptOverflow) && final(self).sessions@
                    == old(self).sessions@.update(
                    slot_of(old(self).sessions@, session_id),
                    SpdmSessionView::free(),
                ) && !final(self).sessions.contains(session_id) && final(self).transcript.data(
                    session_buffer(finish),
                ) == old(self).transcript.data(session_buffer(finish))
            }),
            old(self).sessions.contains(session_id) && old(self).transcript.strategy()
                == SpdmTranscriptStrategy::Buffered ==> (r.is_ok() <==> old(self).transcript.data(
                session_buffer(finish),
            ).len() + message@.len() <= 0x1200),
    {
        if self.sessions.find(session_id).is_none() {
            return Err(SpdmError::SessionNotFound);
        }
        let id = if finish {
            SpdmTranscriptBufferId::MessageF
        } else {
            SpdmTranscriptBufferId::MessageK
        };
        match self.transcript.append(hash_slot, id, message) {
            Ok(()) => Ok(()),
            Err(_) => {
                let _ = self.sessions.end_session(session_id);
                Err(SpdmError::TranscriptOverflow)
            },
        }
    }

    /// Checks the signature of a key exchange response for the session
    /// `session_id`: it must verify, with the key in `public_cert_der`, over
    /// the first transcript hash, the digest of negotiation, certificate
    /// chain and key exchange as they stand in the transcript. A signature
    /// that does not verify destroys the session, which is then gone from the
    /// table. See [`SpdmSessionView::verify_signature`].
    pub fn verify_session_signature<V: SpdmAsymVerify>(
        &mut self,
        hash_slot: &ProviderSlot<H>,
        verify_slot: &ProviderSlot<V>,
        session_id: u32,
        base_asym_algo: SpdmBaseAsymAlgo,
        public_cert_der: &[u8],
        cert_chain: &[u8],
        signature: &SpdmSignatureStruct,
    ) -> (r: SpdmResult)
        requires
            old(self).inv(),
        ensures
            final(self).inv(),
            final(self).state == old(self).state,
            final(self).transcript == old(self).transcript,
            step_taken(
                old(self).sessions@,
                final(self).sessions@,
                session_id,
                r,
                |session: SpdmSessionView|
                    session.verify_signature(
                        match spec_session_transcript_hash(
                            old(self).transcript,
                            hash_slot.provider(),
                            cert_chain@,
                            false,
                        ) {
                            Some(th1) => Some(
                                signature_verdict(
                                    spec_verify(
                                        verify_slot.provider(),
                                        old(self).transcript.hash_algo(),
                                        base_asym_algo,
                                        public_cert_der@,
                                        th1@,
                                        *signature,
                                    ),
                                ),
                            ),
                            None => None,
                        },
                    ),
            ),
            r == Err::<(), SpdmError>(SpdmError::InvalidSignature) ==> !final(self).sessions.contains(
                session_id,
            ),
    {
        let slot = match self.sessions.find(session_id) {
            Some(slot) => slot,
            None => {
                return Err(SpdmError::SessionNotFound);
            },
        };
        proof {
            lemma_slot_of(self.sessions@, session_id, slot as int);
            assert(self.sessions@.update(slot as int, self.sessions@[slot as int])
                =~= self.sessions@);
        }
        let th1 = match session_transcript_hash(&self.transcript, hash_slot, cert_chain, false) {
            Some(digest) => digest,
            None => {
                return Err(SpdmError::Fault);
            },
        };
        match verify(
            verify_slot,
            self.transcript.get_hash_algo(),
            base_asym_algo,
            public_cert_der,
            th1.as_ref(),
            signature,
        ) {
            Ok(()) => Ok(()),
            Err(_) => {
                let _ = self.sessions.end_session(session_id);
                Err(SpdmError::InvalidSignature)
            },
        }
    }

    /// The verify-data that one side of the session `session_id` sends: the
    /// MAC under its finished key of the first transcript hash or, where
    /// `with_finish` says so, of the second, as the transcript stands. The
    /// connection stays as it is. Where the table does not hold the session
    /// the result is `SessionNotFound`. See [`SpdmSessionView::verify_data`].
    pub fn session_verify_data<M: SpdmHmac>(
        &self,
        hmac_slot: &ProviderSlot<M>,
        hash_slot: &ProviderSlot<H>,
        session_id: u32,
        of_requester: bool,
        cert_chain: &[u8],
        with_finish: bool,
    ) -> (r: SpdmResult<SpdmDigestStruct>)
        requires
            self.inv(),
        ensures
            r == if self.sessions.contains(session_id) {
                self.sessions@[slot_of(self.sessions@, session_id)].verify_data(
                    hmac_slot.provider(),
                    of_requester,
                    spec_session_transcript_hash(
                        self.transcript,
                        hash_slot.provider(),
                        cert_chain@,
                        with_finish,
                    ),
                )
            } else {
                Err::<SpdmDigestStruct, SpdmError>(SpdmError::SessionNotFound)
            },
            r matches Ok(mac) ==> mac.wf(),
    {
        let slot = match self.sessions.find(session_id) {
            Some(slot) => slot,
            None => {
                return Err(SpdmError::SessionNotFound);
            },
        };
        proof {
            lemma_slot_of(self.sessions@, session_id, slot as int);
        }
        let session = self.sessions.get_slot(slot);
        if !session.has_handshake_keys() {
            return Err(SpdmError::InvalidState);
        }
        let th = match session_transcript_hash(&self.transcript, hash_slot, cert_chain, with_finish) {
            Some(digest) => digest,
            None => {
                return Err(SpdmError::Fault);
            },
        };
        match session.generate_hmac_with_finished_key(hmac_slot, of_requester, th.as_ref()) {
            Some(mac) => Ok(mac),
            None => Err(SpdmError::Fault),
        }
    }

    /// Checks the verify-data of a key exchange response for the session
    /// `session_id`: it must be, byte for byte, the MAC under the finished
    /// key of the responder of the first transcript hash, the digest of
    /// negotiation, certificate chain and key exchange as they stand in the
    /// transcript. A mismatch destroys the session, which is then gone from
    /// the table. See [`SpdmSessionView::verify_finish`].
    pub fn verify_session_key_exchange<M: SpdmHmac>(
        &mut self,
        hmac_slot: &ProviderSlot<M>,
        hash_slot: &ProviderSlot<H>,
        session_id: u32,
        cert_chain: &[u8],
        verify_data: &SpdmDigestStruct,
    ) -> (r: SpdmResult)
        requires
            old(self).inv(),
        ensures
            final(self).inv(),
            final(self).state == old(self).state,
            final(self).transcript == old(self).transcript,
            step_taken(
                old(self).sessions@,
                final(self).sessions@,
                session_id,
                r,
                |session: SpdmSessionView|
                    session.verify_finish(
                        hmac_slot.provider(),
                        false,
                        spec_session_transcript_hash(
                            old(self).transcript,
                            hash_slot.provider(),
                            cert_chain@,
                            false,
                        ),
                        *verify_data,
                    ),
            ),
            r == Err::<(), SpdmError>(SpdmError::InvalidMac) ==> !final(self).sessions.contains(
                session_id,
            ),
    {
        self.verify_session_verify_data(
            hmac_slot,
            hash_slot,
            session_id,
            false,
            cert_chain,
            false,
            verify_data,
        )
    }

    /// Checks verify-data for the session `session_id` against the MAC under
    /// the finished key of the given side of the first transcript hash or,
    /// where `with_finish` says so, of the second.
    fn verify_session_verify_data<M: SpdmHmac>(
        &mut self,
        hmac_slot: &ProviderSlot<M>,
        hash_slot: &ProviderSlot<H>,
        session_id: u32,
        of_requester: bool,
        cert_chain: &[u8],
        with_finish: bool,
        verify_data: &SpdmDigestStruct,
    ) -> (r: SpdmResult)
        requires
            old(self).inv(),
        ensures
            final(self).inv(),
            final(self).state == old(self).state,
            final(self).transcript == old(self).transcript,
            step_taken(
                old(self).sessions@,
                final(self).sessions@,
                session_id,
                r,
                |session: SpdmSessionView|
                    session.verify_finish(
                        hmac_slot.provider(),
                        of_requester,
                        spec_session_transcript_hash(
                            old(self).transcript,
                            hash_slot.provider(),
                            cert_chain@,
                            with_finish,
                        ),
                        *verify_data,
                    ),
            ),
            r == Err::<(), SpdmError>(SpdmError::InvalidMac) ==> !final(self).sessions.contains(
                session_id,
            ),
    {
        let slot = match self.sessions.find(session_id) {
            Some(slot) => slot,
            None => {
                return Err(SpdmError::SessionNotFound);
            },
        };
        proof {
            lemma_slot_of(self.sessions@, session_id, slot as int);
            assert(self.sessions@.update(slot as int, self.sessions@[slot as int])
                =~= self.sessions@);
        }
        let th = match session_transcript_hash(&self.transcript, hash_slot, cert_chain, with_finish) {
            Some(digest) => digest,
            None => {
                return Err(SpdmError::Fault);
            },
        };
        self.sessions.verify_finish(hmac_slot, session_id, of_requester, th.as_ref(), verify_data)
    }

    /// Checks the verify-data of a finish for the session `session_id`: it
    /// must be, byte for byte, the MAC under the finished key of the given
    /// side of the second transcript hash, the digest of negotiation,
    /// certificate chain, key exchange and finish as they stand in the
    /// transcript. A mismatch destroys the session, which is then gone from
    /// the table. See [`SpdmSessionView::verify_finish`].
    pub fn verify_session_finish<M: SpdmHmac>(
        &mut self,
        hmac_slot: &ProviderSlot<M>,
        hash_slot: &ProviderSlot<H>,
        session_id: u32,
        of_requester: bool,
        cert_chain: &[u8],
        verify_data: &SpdmDigestStruct,
    ) -> (r: SpdmResult)
        requires
            old(self).inv(),
        ensures
            final(self).inv(),
            final(self).state == old(self).state,
            final(self).transcript == old(self).transcript,
            step_taken(
                old(self).sessions@,
                final(self).sessions@,
                session_id,
                r,
                |session: SpdmSessionView|
                    session.verify_finish(
                        hmac_slot.provider(),
                        of_requester,
                        spec_session_transcript_hash(
                            old(self).transcript,
                            hash_slot.provider(),
                            cert_chain@,
                            true,
                        ),
                        *verify_data,
                    ),
            ),
            r == Err::<(), SpdmError>(SpdmError::InvalidMac) ==> !final(self).sessions.contains(
                session_id,
            ),
    {
        self.verify_session_verify_data(
            hmac_slot,
            hash_slot,
            session_id,
            of_requester,
            cert_chain,
            true,
            verify_data,
        )
    }

    /// Establishes the session `session_id`: derives its data keys over the
    /// second transcript hash, the digest of negotiation, certificate chain,
    /// key exchange and finish as they stand in the transcript, and moves it
    /// from handshaking to established. The record numbers of the data keys
    /// are 0. See [`SpdmSessionView::establish`].
    pub fn establish_session<K: SpdmHkdf>(
        &mut self,
        hkdf_slot: &ProviderSlot<K>,
        hash_slot: &ProviderSlot<H>,
        session_id: u32,
        spdm_version: SpdmVersion,
        cert_chain: &[u8],
    ) -> (r: SpdmResult)
        requires
            old(self).inv(),
        ensures
            final(self).inv(),
            final(self).state == old(self).state,
            final(self).transcript == old(self).transcript,
            step_taken(
                old(self).sessions@,
                final(self).sessions@,
                session_id,
                r,
                |session: SpdmSessionView|
                    session.establish(
                        hkdf_slot.provider(),
                        spdm_version,
                        spec_session_transcript_hash(
                            old(self).transcript,
                            hash_slot.provider(),
                            cert_chain@,
                            true,
                        ),
                    ),
            ),
            r.is_ok() ==> ({
                let session = final(self).sessions@[slot_of(old(self).sessions@, session_id)];
                &&& session.state == SpdmSessionState::SpdmSessionEstablished
                &&& session.direction(true).sequence_number == 0
                &&& session.direction(false).sequence_number == 0
                &&& session.direction(true).fits(session.crypto_param.aead_algo)
                &&& session.direction(false).fits(session.crypto_param.aead_algo)
            }),
    {
        let slot = match self.sessions.find(session_id) {
            Some(slot) => slot,
            None => {
                return Err(SpdmError::SessionNotFound);
            },
        };
        proof {
            lemma_slot_of(self.sessions@, session_id, slot as int);
            assert(self.sessions@.update(slot as int, self.sessions@[slot as int])
                =~= self.sessions@);
        }
        let mut session = self.sessions.get_slot(slot);
        let th2 = match session_transcript_hash(&self.transcript, hash_slot, cert_chain, true) {
            Some(digest) => digest,
            None => {
                return Err(SpdmError::Fault);
            },
        };
        session.generate_data_secret(hkdf_slot, spdm_version, &th2)?;
        let established = session.set_session_state(SpdmSessionState::SpdmSessionEstablished);
        assert(established.is_ok());
        self.sessions.replace(slot, session);
        Ok(())
    }

    /// Establishes the session `session_id`, which runs on the pre-shared key
    /// named by `psk_hint`: derives its data keys over the second transcript
    /// hash, the digest of negotiation, key exchange and finish as they stand
    /// in the transcript, and moves it from handshaking to established. See
    /// [`SpdmSessionView::establish_psk`].
    pub fn establish_session_psk<S: SpdmSecret, K: SpdmHkdf>(
        &mut self,
        secret_slot: &ProviderSlot<S>,
        hkdf_slot: &ProviderSlot<K>,
        hash_slot: &ProviderSlot<H>,
        session_id: u32,
        spdm_version: SpdmVersion,
        psk_hint: &[u8],
    ) -> (r: SpdmResult)
        requires
            old(self).inv(),
        ensures
            final(self).inv(),
            final(self).state == old(self).state,
            final(self).transcript == old(self).transcript,
            step_taken(
                old(self).sessions@,
                final(self).sessions@,
                session_id,
                r,
                |session: SpdmSessionView|
                    session.establish_psk(
                        secret_slot.provider(),
                        hkdf_slot.provider(),
                        spdm_version,
                        psk_hint@,
                        spec_session_transcript_hash(
                            old(self).transcript,
                            hash_slot.provider(),
                            Seq::<u8>::empty(),
                            true,
                        ),
                    ),
            ),
    {
        let slot = match self.sessions.find(session_id) {
            Some(slot) => slot,
            None => {
                return Err(SpdmError::SessionNotFound);
            },
        };
        proof {
            lemma_slot_of(self.sessions@, session_id, slot as int);
            assert(self.sessions@.update(slot as int, self.sessions@[slot as int])
                =~= self.sessions@);
        }
        let mut session = self.sessions.get_slot(slot);
        let no_cert_chain: [u8; 0] = [];
        assert(no_cert_chain@ =~= Seq::<u8>::empty());
        let th2 = match session_transcript_hash(
            &self.transcript,
            hash_slot,
            no_cert_chain.as_slice(),
            true,
        ) {
            Some(digest) => digest,
            None => {
                return Err(SpdmError::Fault);
            },
        };
        session.generate_data_secret_psk(secret_slot, hkdf_slot, spdm_version, psk_hint, &th2)?;
        let established = session.set_session_state(SpdmSessionState::SpdmSessionEstablished);
        assert(established.is_ok());
        self.sessions.replace(slot, session);
        Ok(())
    }

    /// Takes a key update for the session `session_id`. See
    /// [`SpdmSessionView::key_update`].
    pub fn process_key_update<K: SpdmHkdf>(
        &mut self,
        hkdf_slot: &ProviderSlot<K>,
        session_id: u32,
        spdm_version: SpdmVersion,
        operation: SpdmKeyUpdateOperation,
    ) -> (r: SpdmResult)
        requires
            old(self).inv(),
        ensures
            final(self).inv(),
            final(self).state == old(self).state,
            final(self).transcript == old(self).transcript,
            step_taken(
                old(self).sessions@,
                final(self).sessions@,
                session_id,
                r,
                |session: SpdmSessionView|
                    session.key_update(hkdf_slot.provider(), spdm_version, operation),
            ),
    {
        let slot = match self.sessions.find(session_id) {
            Some(slot) => slot,
            None => {
                return Err(SpdmError::SessionNotFound);
            },
        };
        proof {
            lemma_slot_of(self.sessions@, session_id, slot as int);
            assert(self.sessions@.update(slot as int, self.sessions@[slot as int])
                =~= self.sessions@);
        }
        let mut session = self.sessions.get_slot(slot);
        match session.get_session_state() {
            SpdmSessionState::SpdmSessionEstablished => {},
            _ => {
                return Err(SpdmError::InvalidState);
            },
        }
        match operation {
            SpdmKeyUpdateOperation::SpdmUpdateSingleKey => {
                session.create_data_secret_update(hkdf_slot, spdm_version, true, false)?;
            },
            SpdmKeyUpdateOperation::SpdmUpdateAllKeys => {
                session.create_data_secret_update(hkdf_slot, spdm_version, true, true)?;
            },
            SpdmKeyUpdateOperation::SpdmVerifyNewKey => {
                session.activate_data_secret_update(true)?;
            },
        }
        self.sessions.replace(slot, session);
        Ok(())
    }

    /// Gives up a pending key update of the session `session_id`, as after a
    /// confirmation that failed. See [`SpdmSessionView::revert_key_update`].
    pub fn revert_key_update(&mut self, session_id: u32) -> (r: SpdmResult)
        requires
            old(self).inv(),
        ensures
            final(self).inv(),
            final(self).state == old(self).state,
            final(self).transcript == old(self).transcript,
            step_taken(
                old(self).sessions@,
                final(self).sessions@,
                session_id,
                r,
                |session: SpdmSessionView| session.revert_key_update(),
            ),
    {
        let slot = match self.sessions.find(session_id) {
            Some(slot) => slot,
            None => {
                return Err(SpdmError::SessionNotFound);
            },
        };
        proof {
            lemma_slot_of(self.sessions@, session_id, slot as int);
            assert(self.sessions@.update(slot as int, self.sessions@[slot as int])
                =~= self.sessions@);
        }
        let mut session = self.sessions.get_slot(slot);
        session.activate_data_secret_update(false)?;
        self.sessions.replace(slot, session);
        Ok(())
    }

    /// Takes a heartbeat for the session `session_id`. A heartbeat before
    /// the session is established destroys the session, which is then gone
    /// from the table. See [`SpdmSessionView::heartbeat`].
    pub fn check_heartbeat(&mut self, session_id: u32) -> (r: SpdmResult)
        requires
            old(self).inv(),
        ensures
            final(self).inv(),
            final(self).state == old(self).state,
            final(self).transcript == old(self).transcript,
            step_taken(
                old(self).sessions@,
                final(self).sessions@,
                session_id,
                r,
                |session: SpdmSessionView| session.heartbeat(),
            ),
            r == Err::<(), SpdmError>(SpdmError::InvalidState) ==> !final(self).sessions.contains(
                session_id,
            ),
    {
        let slot = match self.sessions.find(session_id) {
            Some(slot) => slot,
            None => {
                return Err(SpdmError::SessionNotFound);
            },
        };
        proof {
            lemma_slot_of(self.sessions@, session_id, slot as int);
            assert(self.sessions@.update(slot as int, self.sessions@[slot as int])
                =~= self.sessions@);
        }
        let session = self.sessions.get_slot(slot);
        match session.get_session_state() {
            SpdmSessionState::SpdmSessionEstablished => Ok(()),
            _ => {
                let _ = self.sessions.end_session(session_id);
                Err(SpdmError::InvalidState)
            },
        }
    }

    /// Ends the session `session_id`: wipes it and frees its slot. Where the
    /// table does not hold the session, as after it was ended once, the
    /// result is `SessionNotFound`, and the table stays as it is.
    pub fn end_session(&mut self, session_id: u32) -> (r: SpdmResult)
        requires
            old(self).inv(),
        ensures
            final(self).inv(),
            final(self).state == old(self).state,
            final(self).transcript == old(self).transcript,
            step_taken(
                old(self).sessions@,
                final(self).sessions@,
                session_id,
                r,
                |session: SpdmSessionView| (Ok::<(), SpdmError>(()), SpdmSessionView::free()),
            ),
            !final(self).sessions.contains(session_id),
    {
        self.sessions.end_session(session_id)
    }
}

} // verus!
