//! A session: the keys, record numbers and state of one secured channel.
//!
//! A session starts out unused, is set up with an id, handshakes, and is
//! established. It never goes back; torn down, it is wiped and its slot is
//! free again. During the handshake records run under the handshake keys,
//! afterwards under the data keys; the record numbers of the data keys start
//! at 0 again.

use crate::bytes::secret_bytes_equal;
use crate::common::secured_message::{
    open_record, seal_record, spec_open_record, spec_seal_record,
};
use crate::common::session_keys::{
    derive_data_keys, derive_handshake_keys, derive_psk_data_keys, derive_psk_handshake_keys,
    derive_traffic_keys, spec_data_keys, spec_handshake_keys, spec_psk_data_keys,
    spec_psk_handshake_keys, spec_updated_traffic_keys, SpdmSessionDataKeys,
    SpdmSessionHandshakeKeys, SpdmSessionSecretParam, SpdmTrafficKeys,
};
use crate::secret::SpdmSecret;
use crate::common::key_schedule::BIN_STR9_LABEL;
use crate::crypto::hmac::{hmac, spec_hmac};
use crate::crypto::{ProviderSlot, SpdmAead, SpdmHkdf, SpdmHmac};
use crate::error::{SpdmError, SpdmResult};
use crate::protocol::{
    SpdmAeadAlgo, SpdmBaseHashAlgo, SpdmDheAlgo, SpdmDheFinalKeyStruct, SpdmDigestStruct,
    SpdmKeyScheduleAlgo, SpdmVersion,
};
use vstd::prelude::*;

verus! {

/// The id of no session: a slot with this id is free.
pub const INVALID_SESSION_ID: u32 = 0;

/// The id of the session whose halves the two sides picked: the half of the
/// requester in the high 16 bits, that of the responder in the low 16 bits.
pub open spec fn spec_session_id(req_session_id: u16, rsp_session_id: u16) -> u32 {
    (req_session_id * 0x1_0000 + rsp_session_id) as u32
}

/// The id of the session whose halves the two sides picked.
#[verifier::when_used_as_spec(spec_session_id)]
pub fn session_id(req_session_id: u16, rsp_session_id: u16) -> (r: u32)
    ensures
        r == spec_session_id(req_session_id, rsp_session_id),
        r / 0x1_0000 == req_session_id,
        r % 0x1_0000 == rsp_session_id,
        r == INVALID_SESSION_ID <==> req_session_id == 0 && rsp_session_id == 0,
{
    let high: u32 = req_session_id as u32;
    let low: u32 = rsp_session_id as u32;
    high * 0x1_0000 + low
}

/// The halves of a session id: the one that the requester picked, and the
/// one that the responder picked.
pub fn session_id_halves(session_id: u32) -> (r: (u16, u16))
    ensures
        spec_session_id(r.0, r.1) == session_id,
        r.0 == session_id / 0x1_0000,
        r.1 == session_id % 0x1_0000,
{
    ((session_id / 0x1_0000) as u16, (session_id % 0x1_0000) as u16)
}

/// How far a session has come.
#[derive(Clone, Copy, Debug, PartialEq, Eq, Structural)]
pub enum SpdmSessionState {
    SpdmSessionNotStarted,
    SpdmSessionHandshaking,
    SpdmSessionEstablished,
}

impl SpdmSessionState {
    /// The place of the state in the life of a session.
    pub open spec fn rank(&self) -> int {
        match self {
            SpdmSessionState::SpdmSessionNotStarted => 0,
            SpdmSessionState::SpdmSessionHandshaking => 1,
            SpdmSessionState::SpdmSessionEstablished => 2,
        }
    }
}

/// The algorithms of a session, taken from the connection when the session
/// is set up.
#[derive(Clone, Copy, Debug, PartialEq, Eq, Structural)]
pub struct SpdmSessionCryptoParam {
    pub base_hash_algo: SpdmBaseHashAlgo,
    pub dhe_algo: SpdmDheAlgo,
    pub aead_algo: SpdmAeadAlgo,
    pub key_schedule_algo: SpdmKeyScheduleAlgo,
}

/// One session.
#[derive(Clone, Copy, Debug)]
pub struct SpdmSession {
    session_id: u32,
    use_psk: bool,
    mut_auth_requested: bool,
    state: SpdmSessionState,
    crypto_param: SpdmSessionCryptoParam,
    dhe_secret: Option<SpdmDheFinalKeyStruct>,
    handshake: Option<SpdmSessionHandshakeKeys>,
    data: Option<SpdmSessionDataKeys>,
    backup: Option<SpdmSessionDataKeys>,
}

/// All that a session holds.
pub struct SpdmSessionView {
    pub session_id: u32,
    pub use_psk: bool,
    pub mut_auth_requested: bool,
    pub state: SpdmSessionState,
    pub crypto_param: SpdmSessionCryptoParam,
    /// The shared secret of the key agreement, once it is set.
    pub dhe_secret: Option<SpdmDheFinalKeyStruct>,
    /// The handshake keys, once they are derived.
    pub handshake_keys: Option<SpdmSessionHandshakeKeys>,
    /// The data keys, once they are derived.
    pub data_keys: Option<SpdmSessionDataKeys>,
    /// The data keys from before a key update that is not settled yet.
    pub backup_keys: Option<SpdmSessionDataKeys>,
}

impl View for SpdmSession {
    type V = SpdmSessionView;

    closed spec fn view(&self) -> SpdmSessionView {
        SpdmSessionView {
            session_id: self.session_id,
            use_psk: self.use_psk,
            mut_auth_requested: self.mut_auth_requested,
            state: self.state,
            crypto_param: self.crypto_param,
            dhe_secret: self.dhe_secret,
            handshake_keys: self.handshake,
            data_keys: self.data,
            backup_keys: self.backup,
        }
    }
}

impl SpdmSessionView {
    /// The session has keys under which records run.
    pub open spec fn has_record_keys(&self) -> bool {
        match self.state {
            SpdmSessionState::SpdmSessionNotStarted => false,
            SpdmSessionState::SpdmSessionHandshaking => self.handshake_keys.is_some(),
            SpdmSessionState::SpdmSessionEstablished => self.data_keys.is_some(),
        }
    }

    /// The record keys of one direction that are in use.
    pub open spec fn direction(&self, of_requester: bool) -> SpdmSessionSecretParam {
        match self.state {
            SpdmSessionState::SpdmSessionEstablished => if of_requester {
                self.data_keys.unwrap().request.direction
            } else {
                self.data_keys.unwrap().response.direction
            },
            _ => if of_requester {
                self.handshake_keys.unwrap().request.direction
            } else {
                self.handshake_keys.unwrap().response.direction
            },
        }
    }

    /// The session after one more record in the given direction: the record
    /// number of that direction is one higher, all else is as it was.
    pub open spec fn advanced(&self, of_requester: bool) -> SpdmSessionView {
        match self.state {
            SpdmSessionState::SpdmSessionEstablished => SpdmSessionView {
                data_keys: Some(
                    SpdmSessionDataKeys {
                        request: advanced_if(self.data_keys.unwrap().request, of_requester),
                        response: advanced_if(self.data_keys.unwrap().response, !of_requester),
                        ..self.data_keys.unwrap()
                    },
                ),
                ..*self
            },
            _ => SpdmSessionView {
                handshake_keys: Some(
                    SpdmSessionHandshakeKeys {
                        request: advanced_if(self.handshake_keys.unwrap().request, of_requester),
                        response: advanced_if(self.handshake_keys.unwrap().response, !of_requester),
                        ..self.handshake_keys.unwrap()
                    },
                ),
                ..*self
            },
        }
    }

    /// The wiped session: a free slot.
    pub open spec fn is_free(&self) -> bool {
        *self == SpdmSessionView::free()
    }

    /// The MAC of `message_hash` under the finished key of one side; nothing
    /// before the handshake keys are derived.
    pub open spec fn finished_mac<M: SpdmHmac>(
        &self,
        hmac: Option<M>,
        of_requester: bool,
        message_hash: Seq<u8>,
    ) -> Option<SpdmDigestStruct> {
        match self.handshake_keys {
            Some(keys) => spec_hmac(
                hmac,
                self.crypto_param.base_hash_algo,
                if of_requester {
                    keys.request_finished_key@
                } else {
                    keys.response_finished_key@
                },
                message_hash,
            ),
            None => None,
        }
    }

    /// Whether `verify_data` is, byte for byte, the MAC of `message_hash`
    /// under the finished key of one side.
    pub open spec fn finished_mac_matches<M: SpdmHmac>(
        &self,
        hmac: Option<M>,
        of_requester: bool,
        message_hash: Seq<u8>,
        verify_data: SpdmDigestStruct,
    ) -> bool {
        verify_data.wf() && (self.finished_mac(hmac, of_requester, message_hash) matches Some(mac)
            && mac@ == verify_data@)
    }

    /// A free slot: no id, unused, no secrets, and the algorithms at their
    /// defaults.
    pub open spec fn free() -> SpdmSessionView {
        SpdmSessionView {
            session_id: INVALID_SESSION_ID,
            use_psk: false,
            mut_auth_requested: false,
            state: SpdmSessionState::SpdmSessionNotStarted,
            crypto_param: SpdmSessionCryptoParam {
                base_hash_algo: SpdmBaseHashAlgo::TPM_ALG_SHA_256,
                dhe_algo: SpdmDheAlgo::SECP_256_R1,
                aead_algo: SpdmAeadAlgo::AES_128_GCM,
                key_schedule_algo: SpdmKeyScheduleAlgo::SPDM_KEY_SCHEDULE,
            },
            dhe_secret: None,
            handshake_keys: None,
            data_keys: None,
            backup_keys: None,
        }
    }

    /// What sealing `app` in the direction of the requester, or of the
    /// responder, gives: the record, or why there is none, and the session
    /// afterwards.
    ///
    /// - A session without record keys refuses with `InvalidState`.
    /// - A direction whose record number is 2^64 - 1 cannot count another
    ///   record: the result is `SequenceExhausted` and the session is wiped.
    /// - Otherwise the record is the one that sealing gives under the record
    ///   number of the direction, and that number is then one higher. Where
    ///   sealing fails, its error is the result and the session stays as it
    ///   is.
    pub open spec fn encode<P: SpdmAead>(
        &self,
        provider: Option<P>,
        app: Seq<u8>,
        capacity: nat,
        of_requester: bool,
    ) -> (SpdmResult<Seq<u8>>, SpdmSessionView) {
        if !self.has_record_keys() {
            (Err(SpdmError::InvalidState), *self)
        } else if self.direction(of_requester).sequence_number == u64::MAX {
            (Err(SpdmError::SequenceExhausted), SpdmSessionView::free())
        } else {
            match spec_seal_record(
                provider,
                self.crypto_param.aead_algo,
                self.direction(of_requester).encryption_key@,
                self.direction(of_requester).salt@,
                self.direction(of_requester).sequence_number,
                self.session_id,
                app,
                capacity,
            ) {
                Ok(sealed) => (Ok(sealed), self.advanced(of_requester)),
                Err(e) => (Err(e), *self),
            }
        }
    }

    /// What opening `record` in the direction of the requester, or of the
    /// responder, gives: the application data, or why there is none, and the
    /// session afterwards.
    ///
    /// - A session without record keys refuses with `InvalidState`.
    /// - A direction whose record number is 2^64 - 1 cannot count another
    ///   record: the result is `SequenceExhausted` and the session is wiped.
    /// - Otherwise the record is opened under the record number that the
    ///   direction expects. Where it opens, that number is then one higher.
    ///   Where it does not open, the result is `DecryptFail` and the session
    ///   is wiped. A malformed record is refused with `InvalidMsgField`, and
    ///   the session stays as it is.
    pub open spec fn decode<P: SpdmAead>(
        &self,
        provider: Option<P>,
        record: Seq<u8>,
        capacity: nat,
        of_requester: bool,
    ) -> (SpdmResult<Seq<u8>>, SpdmSessionView) {
        if !self.has_record_keys() {
            (Err(SpdmError::InvalidState), *self)
        } else if self.direction(of_requester).sequence_number == u64::MAX {
            (Err(SpdmError::SequenceExhausted), SpdmSessionView::free())
        } else {
            match spec_open_record(
                provider,
                self.crypto_param.aead_algo,
                self.direction(of_requester).encryption_key@,
                self.direction(of_requester).salt@,
                self.direction(of_requester).sequence_number,
                self.session_id,
                record,
                capacity,
            ) {
                Ok(opened) => (Ok(opened), self.advanced(of_requester)),
                Err(e) => (
                    Err(e),
                    if e == SpdmError::DecryptFail {
                        SpdmSessionView::free()
                    } else {
                        *self
                    },
                ),
            }
        }
    }
}

/// The keys of a direction with the record number one higher, if `advance`
/// says so, and as they are otherwise.
pub open spec fn advanced_if(keys: SpdmTrafficKeys, advance: bool) -> SpdmTrafficKeys {
    if advance {
        SpdmTrafficKeys {
            direction: SpdmSessionSecretParam {
                sequence_number: (keys.direction.sequence_number + 1) as u64,
                ..keys.direction
            },
            ..keys
        }
    } else {
        keys
    }
}

/// The data keys after a key update of the requester's direction, of the
/// responder's, or of both: the keys of an updated direction are those that
/// follow its traffic secret, all else is as it was. Nothing where a
/// derivation fails.
pub open spec fn spec_updated_data_keys<K: SpdmHkdf>(
    hkdf: Option<K>,
    spdm_version: SpdmVersion,
    hash_algo: SpdmBaseHashAlgo,
    aead_algo: SpdmAeadAlgo,
    current: SpdmSessionDataKeys,
    update_requester: bool,
    update_responder: bool,
) -> Option<SpdmSessionDataKeys> {
    match (
        if update_requester {
            spec_updated_traffic_keys(
                hkdf,
                spdm_version,
                hash_algo,
                aead_algo,
                current.request.secret@,
            )
        } else {
            Some(current.request)
        },
        if update_responder {
            spec_updated_traffic_keys(
                hkdf,
                spdm_version,
                hash_algo,
                aead_algo,
                current.response.secret@,
            )
        } else {
            Some(current.response)
        },
    ) {
        (Some(request), Some(response)) => Some(
            SpdmSessionDataKeys {
                export_master_secret: current.export_master_secret,
                request,
                response,
            },
        ),
        _ => None,
    }
}

/// The keys of one direction are well formed and fit the cipher.
pub open spec fn traffic_keys_fit(keys: SpdmTrafficKeys, aead_algo: SpdmAeadAlgo) -> bool {
    keys.secret.wf() && keys.direction.fits(aead_algo)
}

/// Handshake keys are well formed and fit the cipher.
pub open spec fn handshake_keys_fit(keys: SpdmSessionHandshakeKeys, aead_algo: SpdmAeadAlgo)
    -> bool {
    &&& keys.master_secret.wf()
    &&& keys.request_finished_key.wf()
    &&& keys.response_finished_key.wf()
    &&& traffic_keys_fit(keys.request, aead_algo)
    &&& traffic_keys_fit(keys.response, aead_algo)
}

/// Data keys are well formed and fit the cipher.
pub open spec fn data_keys_fit(keys: SpdmSessionDataKeys, aead_algo: SpdmAeadAlgo) -> bool {
    &&& keys.export_master_secret.wf()
    &&& traffic_keys_fit(keys.request, aead_algo)
    &&& traffic_keys_fit(keys.response, aead_algo)
}

impl SpdmSession {
    pub open spec fn session_id(&self) -> u32 {
        self@.session_id
    }

    pub open spec fn use_psk(&self) -> bool {
        self@.use_psk
    }

    pub open spec fn mut_auth_requested(&self) -> bool {
        self@.mut_auth_requested
    }

    pub open spec fn state(&self) -> SpdmSessionState {
        self@.state
    }

    pub open spec fn crypto_param(&self) -> SpdmSessionCryptoParam {
        self@.crypto_param
    }

    /// The shared secret of the key agreement, once it is set.
    pub open spec fn dhe_secret(&self) -> Option<SpdmDheFinalKeyStruct> {
        self@.dhe_secret
    }

    /// The handshake keys, once they are derived.
    pub open spec fn handshake_keys(&self) -> Option<SpdmSessionHandshakeKeys> {
        self@.handshake_keys
    }

    /// The data keys, once they are derived.
    pub open spec fn data_keys(&self) -> Option<SpdmSessionDataKeys> {
        self@.data_keys
    }

    /// The data keys from before a key update that is not settled yet.
    pub open spec fn backup_keys(&self) -> Option<SpdmSessionDataKeys> {
        self@.backup_keys
    }

    /// What always holds of a session:
    /// a slot without an id is free, and an unused session holds no secret;
    /// an established session has data keys;
    /// every key that is there is well formed and fits the cipher of the
    /// session.
    pub open spec fn inv(&self) -> bool {
        &&& self.session_id() == INVALID_SESSION_ID ==> self.is_free()
        &&& self.state() == SpdmSessionState::SpdmSessionNotStarted ==> !self.has_secrets()
        &&& self.state() == SpdmSessionState::SpdmSessionEstablished ==> self.data_keys().is_some()
        &&& self.data_keys().is_some() ==> self.handshake_keys().is_some()
        &&& self.backup_keys().is_some() ==> self.data_keys().is_some()
        &&& self.dhe_secret() matches Some(secret) ==> secret.wf()
        &&& self.handshake_keys() matches Some(keys) ==> handshake_keys_fit(
            keys,
            self.crypto_param().aead_algo,
        )
        &&& self.data_keys() matches Some(keys) ==> data_keys_fit(
            keys,
            self.crypto_param().aead_algo,
        )
        &&& self.backup_keys() matches Some(keys) ==> data_keys_fit(
            keys,
            self.crypto_param().aead_algo,
        )
    }

    /// The session holds a secret of some kind.
    pub open spec fn has_secrets(&self) -> bool {
        self.dhe_secret().is_some() || self.handshake_keys().is_some()
            || self.data_keys().is_some() || self.backup_keys().is_some()
    }

    /// The session has keys under which records run.
    pub open spec fn has_record_keys(&self) -> bool {
        self@.has_record_keys()
    }

    /// The record keys of the requester's direction that are in use.
    pub open spec fn request_direction(&self) -> SpdmSessionSecretParam {
        self@.direction(true)
    }

    /// The record keys of the responder's direction that are in use.
    pub open spec fn response_direction(&self) -> SpdmSessionSecretParam {
        self@.direction(false)
    }

    /// The record keys of one direction that are in use.
    pub open spec fn direction(&self, of_requester: bool) -> SpdmSessionSecretParam {
        self@.direction(of_requester)
    }

    /// The session is the wiped one: a free slot.
    pub open spec fn is_free(&self) -> bool {
        self@.is_free()
    }

    /// A free slot.
    pub fn new() -> (r: SpdmSession)
        ensures
            r.inv(),
            r.is_free(),
            r@ == SpdmSessionView::free(),
    {
        SpdmSession {
            session_id: INVALID_SESSION_ID,
            use_psk: false,
            mut_auth_requested: false,
            state: SpdmSessionState::SpdmSessionNotStarted,
            crypto_param: SpdmSessionCryptoParam {
                base_hash_algo: SpdmBaseHashAlgo::TPM_ALG_SHA_256,
                dhe_algo: SpdmDheAlgo::SECP_256_R1,
                aead_algo: SpdmAeadAlgo::AES_128_GCM,
                key_schedule_algo: SpdmKeyScheduleAlgo::SPDM_KEY_SCHEDULE,
            },
            dhe_secret: None,
            handshake: None,
            data: None,
            backup: None,
        }
    }

    /// Wipes the session: afterwards it is a free slot.
    pub fn set_default(&mut self)
        ensures
            final(self).inv(),
            final(self).is_free(),
    {
        *self = SpdmSession::new();
    }

    pub fn get_session_id(&self) -> (r: u32)
        ensures
            r == self.session_id(),
    {
        self.session_id
    }

    pub fn get_session_state(&self) -> (r: SpdmSessionState)
        ensures
            r == self.state(),
    {
        self.state
    }

    pub fn get_use_psk(&self) -> (r: bool)
        ensures
            r == self.use_psk(),
    {
        self.use_psk
    }

    pub fn get_mut_auth_requested(&self) -> (r: bool)
        ensures
            r == self.mut_auth_requested(),
    {
        self.mut_auth_requested
    }

    pub fn get_crypto_param(&self) -> (r: SpdmSessionCryptoParam)
        ensures
            r == self.crypto_param(),
    {
        self.crypto_param
    }

    /// Takes a free slot for the session `session_id`: the session is unused
    /// still, and holds no keys. Fails with `InvalidMsgField` for the id of
    /// no session and with `InvalidState` for a slot that is taken; the slot
    /// then stays as it is.
    pub fn setup(&mut self, session_id: u32) -> (r: SpdmResult)
        requires
            old(self).inv(),
        ensures
            final(self).inv(),
            r == if session_id == INVALID_SESSION_ID {
                Err::<(), SpdmError>(SpdmError::InvalidMsgField)
            } else if old(self).session_id() != INVALID_SESSION_ID {
                Err::<(), SpdmError>(SpdmError::InvalidState)
            } else {
                Ok::<(), SpdmError>(())
            },
            r.is_ok() ==> final(self)@ == (SpdmSessionView { session_id, ..old(self)@ }),
            r.is_err() ==> final(self)@ == old(self)@,
    {
        if session_id == INVALID_SESSION_ID {
            return Err(SpdmError::InvalidMsgField);
        }
        if self.session_id != INVALID_SESSION_ID {
            return Err(SpdmError::InvalidState);
        }
        self.session_id = session_id;
        Ok(())
    }

    /// Wipes the session `session_id`. Fails with `SessionNotFound`, and
    /// leaves the slot as it is, where the slot holds another session or
    /// none.
    pub fn teardown(&mut self, session_id: u32) -> (r: SpdmResult)
        requires
            old(self).inv(),
        ensures
            final(self).inv(),
            r.is_ok() == (session_id != INVALID_SESSION_ID && old(self).session_id()
                == session_id),
            r.is_ok() ==> final(self).is_free(),
            r matches Err(e) ==> e == SpdmError::SessionNotFound && final(self)@ == old(self)@,
    {
        if session_id == INVALID_SESSION_ID || self.session_id != session_id {
            return Err(SpdmError::SessionNotFound);
        }
        self.set_default();
        Ok(())
    }

    /// Says whether this session runs on a pre-shared key. Only a session
    /// that has not started takes the setting.
    pub fn set_use_psk(&mut self, use_psk: bool) -> (r: SpdmResult)
        requires
            old(self).inv(),
        ensures
            final(self).inv(),
            r.is_ok() == (old(self).session_id() != INVALID_SESSION_ID && old(self).state()
                == SpdmSessionState::SpdmSessionNotStarted),
            r.is_ok() ==> final(self)@ == (SpdmSessionView { use_psk, ..old(self)@ }),
            r matches Err(e) ==> e == SpdmError::InvalidState && final(self)@ == old(self)@,
    {
        if self.session_id == INVALID_SESSION_ID || self.state
            != SpdmSessionState::SpdmSessionNotStarted {
            return Err(SpdmError::InvalidState);
        }
        self.use_psk = use_psk;
        Ok(())
    }

    /// Says whether the responder asked the requester to authenticate. Only
    /// a session that is not established takes the setting.
    pub fn set_mut_auth_requested(&mut self, mut_auth_requested: bool) -> (r: SpdmResult)
        requires
            old(self).inv(),
        ensures
            final(self).inv(),
            r.is_ok() == (old(self).session_id() != INVALID_SESSION_ID && old(self).state()
                != SpdmSessionState::SpdmSessionEstablished),
            r.is_ok() ==> final(self)@ == (SpdmSessionView { mut_auth_requested, ..old(self)@ }),
            r matches Err(e) ==> e == SpdmError::InvalidState && final(self)@ == old(self)@,
    {
        if self.session_id == INVALID_SESSION_ID || self.state
            == SpdmSessionState::SpdmSessionEstablished {
            return Err(SpdmError::InvalidState);
        }
        self.mut_auth_requested = mut_auth_requested;
        Ok(())
    }

    /// Fixes the algorithms of the session. Only a session that has been set
    /// up and has not started takes them: once keys are derived the
    /// algorithms are frozen.
    pub fn set_crypto_param(
        &mut self,
        base_hash_algo: SpdmBaseHashAlgo,
        dhe_algo: SpdmDheAlgo,
        aead_algo: SpdmAeadAlgo,
        key_schedule_algo: SpdmKeyScheduleAlgo,
    ) -> (r: SpdmResult)
        requires
            old(self).inv(),
        ensures
            final(self).inv(),
            r.is_ok() == (old(self).session_id() != INVALID_SESSION_ID && old(self).state()
                == SpdmSessionState::SpdmSessionNotStarted),
            r.is_ok() ==> final(self)@ == (SpdmSessionView {
                crypto_param: SpdmSessionCryptoParam {
                    base_hash_algo,
                    dhe_algo,
                    aead_algo,
                    key_schedule_algo,
                },
                ..old(self)@
            }),
            r matches Err(e) ==> e == SpdmError::InvalidState && final(self)@ == old(self)@,
    {
        if self.session_id == INVALID_SESSION_ID || self.state
            != SpdmSessionState::SpdmSessionNotStarted {
            return Err(SpdmError::InvalidState);
        }
        self.crypto_param = SpdmSessionCryptoParam {
            base_hash_algo,
            dhe_algo,
            aead_algo,
            key_schedule_algo,
        };
        Ok(())
    }

    /// Moves the session on: from unused to handshaking, which needs an id,
    /// or from handshaking to established, which needs data keys. Every
    /// other move, and staying, is refused with `InvalidState`, and leaves
    /// the session as it is. A session therefore never goes back.
    pub fn set_session_state(&mut self, state: SpdmSessionState) -> (r: SpdmResult)
        requires
            old(self).inv(),
        ensures
            final(self).inv(),
            r.is_ok() == (old(self).session_id() != INVALID_SESSION_ID && state.rank() == old(self).state().rank() + 1 && (state == SpdmSessionState::SpdmSessionEstablished ==> old(self).data_keys().is_some())),
            r.is_ok() ==> final(self)@ == (SpdmSessionView { state, ..old(self)@ }),
            r matches Err(e) ==> e == SpdmError::InvalidState && final(self)@ == old(self)@,
            final(self).state().rank() >= old(self).state().rank(),
    {
        if self.session_id == INVALID_SESSION_ID {
            return Err(SpdmError::InvalidState);
        }
        match (self.state, state) {
            (
                SpdmSessionState::SpdmSessionNotStarted,
                SpdmSessionState::SpdmSessionHandshaking,
            ) => {
                self.state = state;
                Ok(())
            },
            (
                SpdmSessionState::SpdmSessionHandshaking,
                SpdmSessionState::SpdmSessionEstablished,
            ) => {
                if self.data.is_none() {
                    return Err(SpdmError::InvalidState);
                }
                self.state = state;
                Ok(())
            },
            _ => Err(SpdmError::InvalidState),
        }
    }

    /// Takes the shared secret of the key agreement. Legal only while the
    /// session is handshaking, has no keys yet and does not run on a
    /// pre-shared key; refused with `InvalidState` otherwise, and with
    /// `InvalidMsgField` for a secret that overruns its buffer.
    pub fn set_dhe_secret(&mut self, _spdm_version: SpdmVersion, dhe_secret: SpdmDheFinalKeyStruct)
        -> (r: SpdmResult)
        requires
            old(self).inv(),
        ensures
            final(self).inv(),
            r == if old(self).state() != SpdmSessionState::SpdmSessionHandshaking || old(self).handshake_keys().is_some() || old(self).use_psk() {
                Err::<(), SpdmError>(SpdmError::InvalidState)
            } else if !dhe_secret.wf() {
                Err::<(), SpdmError>(SpdmError::InvalidMsgField)
            } else {
                Ok::<(), SpdmError>(())
            },
            r.is_ok() ==> final(self)@ == (SpdmSessionView {
                dhe_secret: Some(dhe_secret),
                ..old(self)@
            }),
            r.is_err() ==> final(self)@ == old(self)@,
    {
        if self.state != SpdmSessionState::SpdmSessionHandshaking || self.handshake.is_some()
            || self.use_psk {
            return Err(SpdmError::InvalidState);
        }
        if dhe_secret.data_size > 512 {
            return Err(SpdmError::InvalidMsgField);
        }
        self.dhe_secret = Some(dhe_secret);
        Ok(())
    }

    /// Derives the handshake keys from the shared secret and the transcript
    /// hash `th1`. Legal only while the session is handshaking, has its
    /// shared secret and no keys yet: `InvalidState` otherwise. Where a
    /// derivation fails the result is `Fault`. On failure the session stays
    /// as it is. The record numbers of the new keys are 0.
    pub fn generate_handshake_secret<M: SpdmHmac, K: SpdmHkdf>(
        &mut self,
        hmac_slot: &ProviderSlot<M>,
        hkdf_slot: &ProviderSlot<K>,
        spdm_version: SpdmVersion,
        th1: &SpdmDigestStruct,
    ) -> (r: SpdmResult)
        requires
            old(self).inv(),
            th1.wf(),
        ensures
            final(self).inv(),
            r == if old(self).state() != SpdmSessionState::SpdmSessionHandshaking || old(self).handshake_keys().is_some() || old(self).dhe_secret().is_none() {
                Err::<(), SpdmError>(SpdmError::InvalidState)
            } else if spec_handshake_keys(
                hmac_slot.provider(),
                hkdf_slot.provider(),
                spdm_version,
                old(self).crypto_param().base_hash_algo,
                old(self).crypto_param().aead_algo,
                old(self).dhe_secret().unwrap()@,
                th1@,
            ).is_none() {
                Err::<(), SpdmError>(SpdmError::Fault)
            } else {
                Ok::<(), SpdmError>(())
            },
            r.is_ok() ==> final(self)@ == (SpdmSessionView {
                handshake_keys: spec_handshake_keys(
                    hmac_slot.provider(),
                    hkdf_slot.provider(),
                    spdm_version,
                    old(self).crypto_param().base_hash_algo,
                    old(self).crypto_param().aead_algo,
                    old(self).dhe_secret().unwrap()@,
                    th1@,
                ),
                ..old(self)@
            }),
            r.is_err() ==> final(self)@ == old(self)@,
    {
        if self.state != SpdmSessionState::SpdmSessionHandshaking || self.handshake.is_some() {
            return Err(SpdmError::InvalidState);
        }
        let dhe_secret = match self.dhe_secret {
            Some(secret) => secret,
            None => {
                return Err(SpdmError::InvalidState);
            },
        };
        match derive_handshake_keys(
            hmac_slot,
            hkdf_slot,
            spdm_version,
            self.crypto_param.base_hash_algo,
            self.crypto_param.aead_algo,
            dhe_secret.as_ref(),
            th1.as_ref(),
        ) {
            Some(keys) => {
                self.handshake = Some(keys);
                Ok(())
            },
            None => Err(SpdmError::Fault),
        }
    }

    /// Derives the data keys from the master secret and the transcript hash
    /// `th2`. Legal only while the session is handshaking, has handshake keys
    /// but no data keys, and does not run on a pre-shared key: `InvalidState`
    /// otherwise. Where a derivation
    /// fails the result is `Fault`. On failure the session stays as it is.
    /// The record numbers of the new keys are 0.
    pub fn generate_data_secret<K: SpdmHkdf>(
        &mut self,
        hkdf_slot: &ProviderSlot<K>,
        spdm_version: SpdmVersion,
        th2: &SpdmDigestStruct,
    ) -> (r: SpdmResult)
        requires
            old(self).inv(),
            th2.wf(),
        ensures
            final(self).inv(),
            r == if old(self).state() != SpdmSessionState::SpdmSessionHandshaking || old(self).handshake_keys().is_none() || old(self).data_keys().is_some() || old(self).use_psk() {
                Err::<(), SpdmError>(SpdmError::InvalidState)
            } else if spec_data_keys(
                hkdf_slot.provider(),
                spdm_version,
                old(self).crypto_param().base_hash_algo,
                old(self).crypto_param().aead_algo,
                old(self).handshake_keys().unwrap().master_secret@,
                th2@,
            ).is_none() {
                Err::<(), SpdmError>(SpdmError::Fault)
            } else {
                Ok::<(), SpdmError>(())
            },
            r.is_ok() ==> final(self)@ == (SpdmSessionView {
                data_keys: spec_data_keys(
                    hkdf_slot.provider(),
                    spdm_version,
                    old(self).crypto_param().base_hash_algo,
                    old(self).crypto_param().aead_algo,
                    old(self).handshake_keys().unwrap().master_secret@,
                    th2@,
                ),
                ..old(self)@
            }),
            r.is_err() ==> final(self)@ == old(self)@,
    {
        if self.state != SpdmSessionState::SpdmSessionHandshaking || self.data.is_some()
            || self.use_psk {
            return Err(SpdmError::InvalidState);
        }
        let handshake = match self.handshake {
            Some(keys) => keys,
            None => {
                return Err(SpdmError::InvalidState);
            },
        };
        match derive_data_keys(
            hkdf_slot,
            spdm_version,
            self.crypto_param.base_hash_algo,
            self.crypto_param.aead_algo,
            handshake.master_secret.as_ref(),
            th2.as_ref(),
        ) {
            Some(keys) => {
                self.data = Some(keys);
                Ok(())
            },
            None => Err(SpdmError::Fault),
        }
    }

    /// Derives the handshake keys of a session on a pre-shared key, from the
    /// key named by `psk_hint` and the transcript hash `th1`. Legal only while
    /// the session is handshaking, runs on a pre-shared key and has no keys
    /// yet: `InvalidState` otherwise. Where a derivation fails the result is
    /// `Fault`. On failure the session stays as it is.
    pub fn generate_handshake_secret_psk<S: SpdmSecret, K: SpdmHkdf>(
        &mut self,
        secret_slot: &ProviderSlot<S>,
        hkdf_slot: &ProviderSlot<K>,
        spdm_version: SpdmVersion,
        psk_hint: &[u8],
        th1: &SpdmDigestStruct,
    ) -> (r: SpdmResult)
        requires
            old(self).inv(),
            th1.wf(),
        ensures
            final(self).inv(),
            r == if old(self).state() != SpdmSessionState::SpdmSessionHandshaking || old(self).handshake_keys().is_some() || !old(self).use_psk() {
                Err::<(), SpdmError>(SpdmError::InvalidState)
            } else if spec_psk_handshake_keys(
                secret_slot.provider(),
                hkdf_slot.provider(),
                spdm_version,
                old(self).crypto_param().base_hash_algo,
                old(self).crypto_param().aead_algo,
                psk_hint@,
                th1@,
            ).is_none() {
                Err::<(), SpdmError>(SpdmError::Fault)
            } else {
                Ok::<(), SpdmError>(())
            },
            r.is_ok() ==> final(self)@ == (SpdmSessionView {
                handshake_keys: spec_psk_handshake_keys(
                    secret_slot.provider(),
                    hkdf_slot.provider(),
                    spdm_version,
                    old(self).crypto_param().base_hash_algo,
                    old(self).crypto_param().aead_algo,
                    psk_hint@,
                    th1@,
                ),
                ..old(self)@
            }),
            r.is_err() ==> final(self)@ == old(self)@,
    {
        if self.state != SpdmSessionState::SpdmSessionHandshaking || self.handshake.is_some()
            || !self.use_psk {
            return Err(SpdmError::InvalidState);
        }
        match derive_psk_handshake_keys(
            secret_slot,
            hkdf_slot,
            spdm_version,
            self.crypto_param.base_hash_algo,
            self.crypto_param.aead_algo,
            psk_hint,
            th1.as_ref(),
        ) {
            Some(keys) => {
                self.handshake = Some(keys);
                Ok(())
            },
            None => Err(SpdmError::Fault),
        }
    }

    /// Derives the data keys of a session on a pre-shared key, from the key
    /// named by `psk_hint` and the transcript hash `th2`. Legal only while the
    /// session is handshaking, runs on a pre-shared key and has handshake
    /// keys but no data keys: `InvalidState` otherwise. Where a derivation
    /// fails the result is `Fault`. On failure the session stays as it is.
    pub fn generate_data_secret_psk<S: SpdmSecret, K: SpdmHkdf>(
        &mut self,
        secret_slot: &ProviderSlot<S>,
        hkdf_slot: &ProviderSlot<K>,
        spdm_version: SpdmVersion,
        psk_hint: &[u8],
        th2: &SpdmDigestStruct,
    ) -> (r: SpdmResult)
        requires
            old(self).inv(),
            th2.wf(),
        ensures
            final(self).inv(),
            r == if old(self).state() != SpdmSessionState::SpdmSessionHandshaking || old(self).handshake_keys().is_none() || old(self).data_keys().is_some() || !old(self).use_psk() {
                Err::<(), SpdmError>(SpdmError::InvalidState)
            } else if spec_psk_data_keys(
                secret_slot.provider(),
                hkdf_slot.provider(),
                spdm_version,
                old(self).crypto_param().base_hash_algo,
                old(self).crypto_param().aead_algo,
                psk_hint@,
                th2@,
            ).is_none() {
                Err::<(), SpdmError>(SpdmError::Fault)
            } else {
                Ok::<(), SpdmError>(())
            },
            r.is_ok() ==> final(self)@ == (SpdmSessionView {
                data_keys: spec_psk_data_keys(
                    secret_slot.provider(),
                    hkdf_slot.provider(),
                    spdm_version,
                    old(self).crypto_param().base_hash_algo,
                    old(self).crypto_param().aead_algo,
                    psk_hint@,
                    th2@,
                ),
                ..old(self)@
            }),
            r.is_err() ==> final(self)@ == old(self)@,
    {
        if self.state != SpdmSessionState::SpdmSessionHandshaking || self.handshake.is_none()
            || self.data.is_some() || !self.use_psk {
            return Err(SpdmError::InvalidState);
        }
        match derive_psk_data_keys(
            secret_slot,
            hkdf_slot,
            spdm_version,
            self.crypto_param.base_hash_algo,
            self.crypto_param.aead_algo,
            psk_hint,
            th2.as_ref(),
        ) {
            Some(keys) => {
                self.data = Some(keys);
                Ok(())
            },
            None => Err(SpdmError::Fault),
        }
    }

    /// Tells whether the handshake keys are derived.
    pub fn has_handshake_keys(&self) -> (r: bool)
        ensures
            r == self@.handshake_keys.is_some(),
    {
        self.handshake.is_some()
    }

    /// Copies of the record keys and record numbers of both directions, the
    /// requester's first. Legal only once the session is established:
    /// `InvalidState` otherwise.
    pub fn export_keys(&self) -> (r: SpdmResult<(SpdmSessionSecretParam, SpdmSessionSecretParam)>)
        requires
            self.inv(),
        ensures
            r.is_ok() == (self.state() == SpdmSessionState::SpdmSessionEstablished),
            r matches Ok(keys) ==> keys.0 == self.request_direction() && keys.1
                == self.response_direction() && keys.0.fits(self.crypto_param().aead_algo)
                && keys.1.fits(self.crypto_param().aead_algo),
            r matches Err(e) ==> e == SpdmError::InvalidState,
    {
        if self.state != SpdmSessionState::SpdmSessionEstablished {
            return Err(SpdmError::InvalidState);
        }
        match self.data {
            Some(keys) => Ok((keys.request.direction, keys.response.direction)),
            None => Err(SpdmError::InvalidState),
        }
    }

    /// The export master secret. Legal only once the session is established:
    /// nothing otherwise.
    pub fn export_master_secret(&self) -> (r: Option<SpdmDigestStruct>)
        requires
            self.inv(),
        ensures
            r.is_some() == (self.state() == SpdmSessionState::SpdmSessionEstablished),
            r matches Some(secret) ==> secret == self.data_keys().unwrap().export_master_secret
                && secret.wf(),
    {
        if self.state != SpdmSessionState::SpdmSessionEstablished {
            return None;
        }
        match self.data {
            Some(keys) => Some(keys.export_master_secret),
            None => None,
        }
    }

    /// The MAC of `message_hash` under the finished key of the requester, or
    /// of the responder; nothing before the handshake keys are derived.
    pub fn generate_hmac_with_finished_key<M: SpdmHmac>(
        &self,
        hmac_slot: &ProviderSlot<M>,
        of_requester: bool,
        message_hash: &[u8],
    ) -> (r: Option<SpdmDigestStruct>)
        requires
            self.inv(),
        ensures
            r == self@.finished_mac(hmac_slot.provider(), of_requester, message_hash@),
            r matches Some(d) ==> d.wf() && d@.len()
                == self.crypto_param().base_hash_algo.spec_size(),
    {
        match self.handshake {
            Some(keys) => {
                let finished_key = if of_requester {
                    keys.request_finished_key
                } else {
                    keys.response_finished_key
                };
                hmac(
                    hmac_slot,
                    self.crypto_param.base_hash_algo,
                    finished_key.as_ref(),
                    message_hash,
                )
            },
            None => None,
        }
    }

    /// Checks verify-data: succeeds exactly where `verify_data` is, byte for
    /// byte, the MAC of `message_hash` under the finished key of the given
    /// side. Anything else is `InvalidMac`.
    pub fn verify_hmac_with_finished_key<M: SpdmHmac>(
        &self,
        hmac_slot: &ProviderSlot<M>,
        of_requester: bool,
        message_hash: &[u8],
        verify_data: &SpdmDigestStruct,
    ) -> (r: SpdmResult)
        requires
            self.inv(),
        ensures
            r == if self@.finished_mac_matches(
                hmac_slot.provider(),
                of_requester,
                message_hash@,
                *verify_data,
            ) {
                Ok::<(), SpdmError>(())
            } else {
                Err::<(), SpdmError>(SpdmError::InvalidMac)
            },
    {
        if verify_data.data_size > 64 {
            return Err(SpdmError::InvalidMac);
        }
        match self.generate_hmac_with_finished_key(hmac_slot, of_requester, message_hash) {
            Some(mac) => if secret_bytes_equal(mac.as_ref(), verify_data.as_ref()) {
                Ok(())
            } else {
                Err(SpdmError::InvalidMac)
            },
            None => Err(SpdmError::InvalidMac),
        }
    }

    /// The record keys of one direction that are in use; nothing where the
    /// session has none.
    fn current_direction(&self, of_requester: bool) -> (r: Option<SpdmSessionSecretParam>)
        requires
            self.inv(),
        ensures
            r.is_some() == self.has_record_keys(),
            r matches Some(direction) ==> direction == self.direction(of_requester)
                && direction.fits(self.crypto_param().aead_algo),
    {
        let keys = match self.state {
            SpdmSessionState::SpdmSessionNotStarted => {
                return None;
            },
            SpdmSessionState::SpdmSessionHandshaking => match self.handshake {
                Some(keys) => (keys.request, keys.response),
                None => {
                    return None;
                },
            },
            SpdmSessionState::SpdmSessionEstablished => match self.data {
                Some(keys) => (keys.request, keys.response),
                None => {
                    return None;
                },
            },
        };
        if of_requester {
            Some(keys.0.direction)
        } else {
            Some(keys.1.direction)
        }
    }

    /// Counts one more record in the given direction.
    fn advance(&mut self, of_requester: bool)
        requires
            old(self).inv(),
            old(self).has_record_keys(),
            old(self).direction(of_requester).sequence_number < u64::MAX,
        ensures
            final(self).inv(),
            final(self)@ == old(self)@.advanced(of_requester),
    {
        match self.state {
            SpdmSessionState::SpdmSessionEstablished => {
                let mut keys = self.data.unwrap();
                if of_requester {
                    keys.request.direction.sequence_number = keys.request.direction.sequence_number
                        + 1;
                } else {
                    keys.response.direction.sequence_number =
                        keys.response.direction.sequence_number + 1;
                }
                self.data = Some(keys);
            },
            _ => {
                let mut keys = self.handshake.unwrap();
                if of_requester {
                    keys.request.direction.sequence_number = keys.request.direction.sequence_number
                        + 1;
                } else {
                    keys.response.direction.sequence_number =
                        keys.response.direction.sequence_number + 1;
                }
                self.handshake = Some(keys);
            },
        }
    }

    /// Seals `app_buffer` into a record at the start of `secured_buffer`,
    /// under the keys of the sender's direction, and returns the length of
    /// the record: see [`SpdmSessionView::encode`]. On failure the buffer
    /// stays as it is. The record opens again, under the same keys and record
    /// number, to `app_buffer`.
    pub fn encode_spdm_secured_message<P: SpdmAead>(
        &mut self,
        aead_slot: &ProviderSlot<P>,
        app_buffer: &[u8],
        secured_buffer: &mut [u8],
        is_requester: bool,
    ) -> (r: SpdmResult<usize>)
        requires
            old(self).inv(),
        ensures
            final(self).inv(),
            final(secured_buffer)@.len() == old(secured_buffer)@.len(),
            final(self)@ == old(self)@.encode(
                aead_slot.provider(),
                app_buffer@,
                old(secured_buffer)@.len(),
                is_requester,
            ).1,
            match old(self)@.encode(
                aead_slot.provider(),
                app_buffer@,
                old(secured_buffer)@.len(),
                is_requester,
            ).0 {
                Ok(sealed) => r == Ok::<usize, SpdmError>(sealed.len() as usize)
                    && final(secured_buffer)@.subrange(0, sealed.len() as int) == sealed
                    && forall|capacity: nat|
                    capacity >= app_buffer@.len() ==> #[trigger] spec_open_record(
                        aead_slot.provider(),
                        old(self).crypto_param().aead_algo,
                        old(self).direction(is_requester).encryption_key@,
                        old(self).direction(is_requester).salt@,
                        old(self).direction(is_requester).sequence_number,
                        old(self).session_id(),
                        sealed,
                        capacity,
                    ) == Ok::<Seq<u8>, SpdmError>(app_buffer@),
                Err(e) => r == Err::<usize, SpdmError>(e) && final(secured_buffer)@ == old(secured_buffer)@,
            },
    {
        let direction = match self.current_direction(is_requester) {
            Some(direction) => direction,
            None => {
                return Err(SpdmError::InvalidState);
            },
        };
        if direction.sequence_number == u64::MAX {
            self.set_default();
            return Err(SpdmError::SequenceExhausted);
        }
        let used = seal_record(
            aead_slot,
            self.crypto_param.aead_algo,
            &direction.encryption_key,
            &direction.salt,
            direction.sequence_number,
            self.session_id,
            app_buffer,
            secured_buffer,
        )?;
        self.advance(is_requester);
        Ok(used)
    }

    /// Opens the record `secured_buffer` into the start of `app_buffer`,
    /// under the keys of the peer's direction, and returns the length of the
    /// application data: see [`SpdmSessionView::decode`]. On failure the
    /// buffer stays as it is.
    pub fn decode_spdm_secured_message<P: SpdmAead>(
        &mut self,
        aead_slot: &ProviderSlot<P>,
        secured_buffer: &[u8],
        app_buffer: &mut [u8],
        is_requester: bool,
    ) -> (r: SpdmResult<usize>)
        requires
            old(self).inv(),
        ensures
            final(self).inv(),
            final(app_buffer)@.len() == old(app_buffer)@.len(),
            final(self)@ == old(self)@.decode(
                aead_slot.provider(),
                secured_buffer@,
                old(app_buffer)@.len(),
                !is_requester,
            ).1,
            match old(self)@.decode(
                aead_slot.provider(),
                secured_buffer@,
                old(app_buffer)@.len(),
                !is_requester,
            ).0 {
                Ok(opened) => r == Ok::<usize, SpdmError>(opened.len() as usize)
                    && final(app_buffer)@.subrange(0, opened.len() as int) == opened,
                Err(e) => r == Err::<usize, SpdmError>(e) && final(app_buffer)@ == old(app_buffer)@,
            },
    {
        let direction = match self.current_direction(!is_requester) {
            Some(direction) => direction,
            None => {
                return Err(SpdmError::InvalidState);
            },
        };
        if direction.sequence_number == u64::MAX {
            self.set_default();
            return Err(SpdmError::SequenceExhausted);
        }
        match open_record(
            aead_slot,
            self.crypto_param.aead_algo,
            &direction.encryption_key,
            &direction.salt,
            direction.sequence_number,
            self.session_id,
            secured_buffer,
            app_buffer,
        ) {
            Ok(used) => {
                self.advance(!is_requester);
                Ok(used)
            },
            Err(e) => {
                if e == SpdmError::DecryptFail {
                    self.set_default();
                }
                Err(e)
            },
        }
    }

    /// Starts a key update: keeps the data keys aside and replaces those of
    /// the requester's direction, of the responder's, or of both by the keys
    /// that follow them. The record numbers of the replaced directions start
    /// at 0 again.
    ///
    /// Legal only once the session is established and while no update is
    /// pending: `InvalidState` otherwise. Where a derivation fails the result
    /// is `Fault`. On failure the session stays as it is.
    pub fn create_data_secret_update<K: SpdmHkdf>(
        &mut self,
        hkdf_slot: &ProviderSlot<K>,
        spdm_version: SpdmVersion,
        update_requester: bool,
        update_responder: bool,
    ) -> (r: SpdmResult)
        requires
            old(self).inv(),
        ensures
            final(self).inv(),
            r == if old(self).state() != SpdmSessionState::SpdmSessionEstablished || old(self).backup_keys().is_some() {
                Err::<(), SpdmError>(SpdmError::InvalidState)
            } else if spec_updated_data_keys(
                hkdf_slot.provider(),
                spdm_version,
                old(self).crypto_param().base_hash_algo,
                old(self).crypto_param().aead_algo,
                old(self).data_keys().unwrap(),
                update_requester,
                update_responder,
            ).is_none() {
                Err::<(), SpdmError>(SpdmError::Fault)
            } else {
                Ok::<(), SpdmError>(())
            },
            r.is_ok() ==> final(self)@ == (SpdmSessionView {
                data_keys: spec_updated_data_keys(
                    hkdf_slot.provider(),
                    spdm_version,
                    old(self).crypto_param().base_hash_algo,
                    old(self).crypto_param().aead_algo,
                    old(self).data_keys().unwrap(),
                    update_requester,
                    update_responder,
                ),
                backup_keys: old(self).data_keys(),
                ..old(self)@
            }),
            r.is_err() ==> final(self)@ == old(self)@,
    {
        if self.state != SpdmSessionState::SpdmSessionEstablished || self.backup.is_some() {
            return Err(SpdmError::InvalidState);
        }
        let current = match self.data {
            Some(keys) => keys,
            None => {
                return Err(SpdmError::InvalidState);
            },
        };
        let hash_algo = self.crypto_param.base_hash_algo;
        let aead_algo = self.crypto_param.aead_algo;
        let request = if update_requester {
            match derive_traffic_keys(
                hkdf_slot,
                spdm_version,
                hash_algo,
                aead_algo,
                current.request.secret.as_ref(),
                BIN_STR9_LABEL.as_slice(),
                None,
            ) {
                Some(keys) => keys,
                None => {
                    return Err(SpdmError::Fault);
                },
            }
        } else {
            current.request
        };
        let response = if update_responder {
            match derive_traffic_keys(
                hkdf_slot,
                spdm_version,
                hash_algo,
                aead_algo,
                current.response.secret.as_ref(),
                BIN_STR9_LABEL.as_slice(),
                None,
            ) {
                Some(keys) => keys,
                None => {
                    return Err(SpdmError::Fault);
                },
            }
        } else {
            current.response
        };
        self.backup = Some(current);
        self.data = Some(
            SpdmSessionDataKeys {
                export_master_secret: current.export_master_secret,
                request,
                response,
            },
        );
        Ok(())
    }

    /// Settles a key update: with `use_new_key` the new keys stay and the old
    /// ones are dropped, without it the old keys, with their record numbers,
    /// are put back.
    ///
    /// Legal only while an update is pending: `InvalidState` otherwise, and
    /// the session stays as it is.
    pub fn activate_data_secret_update(&mut self, use_new_key: bool) -> (r: SpdmResult)
        requires
            old(self).inv(),
        ensures
            final(self).inv(),
            r == if old(self).backup_keys().is_some() {
                Ok::<(), SpdmError>(())
            } else {
                Err::<(), SpdmError>(SpdmError::InvalidState)
            },
            r.is_ok() ==> final(self)@ == (SpdmSessionView {
                data_keys: if use_new_key {
                    old(self).data_keys()
                } else {
                    old(self).backup_keys()
                },
                backup_keys: None,
                ..old(self)@
            }),
            r.is_err() ==> final(self)@ == old(self)@,
    {
        match self.backup {
            Some(keys) => {
                if !use_new_key {
                    self.data = Some(keys);
                }
                self.backup = None;
                Ok(())
            },
            None => Err(SpdmError::InvalidState),
        }
    }

    /// Raises the record number of one direction to `sequence_number`, as if
    /// the records in between had been lost. A record number never goes
    /// down: a number below the present one is refused with `InvalidState`,
    /// as is a session without record keys, and the session then stays as it
    /// is.
    pub fn advance_sequence_number(&mut self, of_requester: bool, sequence_number: u64) -> (r:
        SpdmResult)
        requires
            old(self).inv(),
        ensures
            final(self).inv(),
            r.is_ok() == (old(self).has_record_keys() && old(self).direction(
                of_requester,
            ).sequence_number <= sequence_number),
            r.is_ok() ==> final(self).has_record_keys() && final(self).direction(
                of_requester,
            ).sequence_number == sequence_number && final(self).direction(!of_requester) == old(self).direction(!of_requester) && final(self).direction(of_requester).encryption_key
                == old(self).direction(of_requester).encryption_key && final(self).direction(
                of_requester,
            ).salt == old(self).direction(of_requester).salt && final(self).state() == old(self).state() && final(self).session_id() == old(self).session_id() && final(self).crypto_param() == old(self).crypto_param(),
            r matches Err(e) ==> e == SpdmError::InvalidState && final(self)@ == old(self)@,
    {
        let direction = match self.current_direction(of_requester) {
            Some(direction) => direction,
            None => {
                return Err(SpdmError::InvalidState);
            },
        };
        if sequence_number < direction.sequence_number {
            return Err(SpdmError::InvalidState);
        }
        match self.state {
            SpdmSessionState::SpdmSessionEstablished => {
                let mut keys = self.data.unwrap();
                if of_requester {
                    keys.request.direction.sequence_number = sequence_number;
                } else {
                    keys.response.direction.sequence_number = sequence_number;
                }
                self.data = Some(keys);
            },
            _ => {
                let mut keys = self.handshake.unwrap();
                if of_requester {
                    keys.request.direction.sequence_number = sequence_number;
                } else {
                    keys.response.direction.sequence_number = sequence_number;
                }
                self.handshake = Some(keys);
            },
        }
        Ok(())
    }
}

/// Every record that is sealed or opened raises the record number of its
/// direction by exactly one, and leaves the record number of the other
/// direction, the state and the id of the session alone.
pub proof fn lemma_sequence_number_increases<P: SpdmAead>(
    session: SpdmSessionView,
    provider: Option<P>,
    bytes: Seq<u8>,
    capacity: nat,
    of_requester: bool,
)
    ensures
        session.encode(provider, bytes, capacity, of_requester).0.is_ok() ==> ({
            let after = session.encode(provider, bytes, capacity, of_requester).1;
            &&& after.direction(of_requester).sequence_number == session.direction(
                of_requester,
            ).sequence_number + 1
            &&& after.direction(!of_requester) == session.direction(!of_requester)
            &&& after.state == session.state
            &&& after.session_id == session.session_id
        }),
        session.decode(provider, bytes, capacity, of_requester).0.is_ok() ==> ({
            let after = session.decode(provider, bytes, capacity, of_requester).1;
            &&& after.direction(of_requester).sequence_number == session.direction(
                of_requester,
            ).sequence_number + 1
            &&& after.direction(!of_requester) == session.direction(!of_requester)
            &&& after.state == session.state
            &&& after.session_id == session.session_id
        }),
{
}

/// A record that does not open wipes the session: afterwards the slot is
/// free and holds no key.
pub proof fn lemma_failed_record_wipes_session<P: SpdmAead>(
    session: SpdmSessionView,
    provider: Option<P>,
    record: Seq<u8>,
    capacity: nat,
    of_requester: bool,
)
    requires
        session.decode(provider, record, capacity, of_requester).0 == Err::<Seq<u8>, SpdmError>(
            SpdmError::DecryptFail,
        ),
    ensures
        session.decode(provider, record, capacity, of_requester).1.is_free(),
        session.decode(provider, record, capacity, of_requester).1.session_id
            == INVALID_SESSION_ID,
        !session.decode(provider, record, capacity, of_requester).1.has_record_keys(),
{
}

/// The record keys of a session have the lengths that its cipher calls for:
/// the key the key length, the salt the length of an initialisation vector,
/// in both directions.
pub proof fn lemma_session_key_sizes(session: SpdmSession)
    requires
        session.inv(),
        session.has_record_keys(),
    ensures
        session.request_direction().encryption_key@.len()
            == session.crypto_param().aead_algo.spec_key_size(),
        session.request_direction().salt@.len() == session.crypto_param().aead_algo.spec_iv_size(),
        session.response_direction().encryption_key@.len()
            == session.crypto_param().aead_algo.spec_key_size(),
        session.response_direction().salt@.len()
            == session.crypto_param().aead_algo.spec_iv_size(),
{
}

/// What one side seals, the other side opens: if the peer holds the same
/// keys and expects the same record number for the direction, and the record
/// opens to `app` under them, as every record of `encode_spdm_secured_message`
/// does, then the peer's decoding gives `app`.
pub proof fn lemma_peer_opens_record<P: SpdmAead>(
    sender: SpdmSessionView,
    peer: SpdmSessionView,
    provider: Option<P>,
    app: Seq<u8>,
    record: Seq<u8>,
    capacity: nat,
    of_requester: bool,
)
    requires
        sender.has_record_keys(),
        peer.has_record_keys(),
        peer.session_id == sender.session_id,
        peer.crypto_param.aead_algo == sender.crypto_param.aead_algo,
        peer.direction(of_requester) == sender.direction(of_requester),
        sender.direction(of_requester).sequence_number < u64::MAX,
        spec_open_record(
            provider,
            sender.crypto_param.aead_algo,
            sender.direction(of_requester).encryption_key@,
            sender.direction(of_requester).salt@,
            sender.direction(of_requester).sequence_number,
            sender.session_id,
            record,
            capacity,
        ) == Ok::<Seq<u8>, SpdmError>(app),
    ensures
        peer.decode(provider, record, capacity, of_requester).0 == Ok::<Seq<u8>, SpdmError>(app),
{
}

} // verus!
