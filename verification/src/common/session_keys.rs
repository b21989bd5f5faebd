//! The keys of a session, derived in two steps: the handshake keys from the
//! shared secret and the transcript hash TH1, the data keys from the master
//! secret and the transcript hash TH2.

use crate::common::key_schedule::{
    spec_aead_key_iv, spec_derive_secret, spec_handshake_secret, spec_master_secret,
    SpdmKeySchedule, BIN_STR1_LABEL, BIN_STR2_LABEL, BIN_STR3_LABEL, BIN_STR4_LABEL,
    BIN_STR7_LABEL, BIN_STR8_LABEL, BIN_STR9_LABEL,
};
use crate::common::key_schedule::{bin_concat_fits, spec_bin_concat};
use crate::crypto::{ProviderSlot, SpdmHkdf, SpdmHmac};
use crate::secret::{
    checked_psk_okm, spdm_psk_handshake_secret_hkdf_expand, spdm_psk_master_secret_hkdf_expand,
    SpdmSecret,
};
use crate::config::MAX_SPDM_MESSAGE_BUFFER_SIZE;
use vstd::slice::slice_subrange;
use crate::protocol::{
    SpdmAeadAlgo, SpdmAeadIvStruct, SpdmAeadKeyStruct, SpdmBaseHashAlgo, SpdmDigestStruct,
    SpdmVersion,
};
use vstd::prelude::*;

verus! {

/// The record keys of one direction and the number of the next record.
#[derive(Clone, Copy, Debug)]
pub struct SpdmSessionSecretParam {
    pub encryption_key: SpdmAeadKeyStruct,
    pub salt: SpdmAeadIvStruct,
    pub sequence_number: u64,
}

impl SpdmSessionSecretParam {
    /// Key and salt have the lengths that `aead_algo` calls for.
    pub open spec fn fits(&self, aead_algo: SpdmAeadAlgo) -> bool {
        &&& self.encryption_key.wf()
        &&& self.salt.wf()
        &&& self.encryption_key@.len() == aead_algo.spec_key_size()
        &&& self.salt@.len() == aead_algo.spec_iv_size()
    }

    /// The keys of a direction at its first record.
    pub open spec fn spec_fresh(keys: (SpdmAeadKeyStruct, SpdmAeadIvStruct))
        -> SpdmSessionSecretParam {
        SpdmSessionSecretParam { encryption_key: keys.0, salt: keys.1, sequence_number: 0 }
    }
}

impl Default for SpdmSessionSecretParam {
    fn default() -> (r: SpdmSessionSecretParam)
        ensures
            r.sequence_number == 0,
            r.encryption_key == SpdmAeadKeyStruct::spec_from_bytes(Seq::<u8>::empty()),
            r.salt == SpdmAeadIvStruct::spec_from_bytes(Seq::<u8>::empty()),
    {
        SpdmSessionSecretParam {
            encryption_key: SpdmAeadKeyStruct::default(),
            salt: SpdmAeadIvStruct::default(),
            sequence_number: 0,
        }
    }
}

/// The secret of one direction with the record keys made from it.
#[derive(Clone, Copy, Debug)]
pub struct SpdmTrafficKeys {
    pub secret: SpdmDigestStruct,
    pub direction: SpdmSessionSecretParam,
}

/// What the handshake derivation gives.
#[derive(Clone, Copy, Debug)]
pub struct SpdmSessionHandshakeKeys {
    pub master_secret: SpdmDigestStruct,
    pub request_finished_key: SpdmDigestStruct,
    pub response_finished_key: SpdmDigestStruct,
    pub request: SpdmTrafficKeys,
    pub response: SpdmTrafficKeys,
}

/// What the data derivation gives.
#[derive(Clone, Copy, Debug)]
pub struct SpdmSessionDataKeys {
    pub export_master_secret: SpdmDigestStruct,
    pub request: SpdmTrafficKeys,
    pub response: SpdmTrafficKeys,
}

/// The traffic keys of one direction: the secret expanded from `key` with
/// `label` and the transcript hash, and the record keys made from it.
pub open spec fn spec_traffic_keys<K: SpdmHkdf>(
    hkdf: Option<K>,
    spdm_version: SpdmVersion,
    hash_algo: SpdmBaseHashAlgo,
    aead_algo: SpdmAeadAlgo,
    key: Seq<u8>,
    label: Seq<u8>,
    context: Option<Seq<u8>>,
) -> Option<SpdmTrafficKeys> {
    match spec_derive_secret(hkdf, spdm_version, hash_algo, key, label, context) {
        Some(secret) => match spec_aead_key_iv(hkdf, spdm_version, hash_algo, aead_algo, secret@) {
            Some(keys) => Some(
                SpdmTrafficKeys { secret, direction: SpdmSessionSecretParam::spec_fresh(keys) },
            ),
            None => None,
        },
        None => None,
    }
}

/// The handshake keys of a session, from the shared secret `dhe_secret` and
/// the transcript hash `th1`:
/// the handshake secret is the MAC of the shared secret under zeros;
/// each direction's handshake secret is expanded from it with the label of
/// the direction and `th1`; the finished keys and the record keys are
/// expanded from those; and the master secret is made from the handshake
/// secret. Nothing where any step fails.
pub open spec fn spec_handshake_keys<M: SpdmHmac, K: SpdmHkdf>(
    hmac: Option<M>,
    hkdf: Option<K>,
    spdm_version: SpdmVersion,
    hash_algo: SpdmBaseHashAlgo,
    aead_algo: SpdmAeadAlgo,
    dhe_secret: Seq<u8>,
    th1: Seq<u8>,
) -> Option<SpdmSessionHandshakeKeys> {
    match spec_handshake_secret(hmac, hash_algo, dhe_secret) {
        Some(handshake_secret) => match (
            spec_traffic_keys(
                hkdf,
                spdm_version,
                hash_algo,
                aead_algo,
                handshake_secret@,
                BIN_STR1_LABEL@,
                Some(th1),
            ),
            spec_traffic_keys(
                hkdf,
                spdm_version,
                hash_algo,
                aead_algo,
                handshake_secret@,
                BIN_STR2_LABEL@,
                Some(th1),
            ),
            spec_master_secret(hmac, hkdf, spdm_version, hash_algo, handshake_secret@),
        ) {
            (Some(request), Some(response), Some(master_secret)) => match (
                spec_derive_secret(
                    hkdf,
                    spdm_version,
                    hash_algo,
                    request.secret@,
                    BIN_STR7_LABEL@,
                    None,
                ),
                spec_derive_secret(
                    hkdf,
                    spdm_version,
                    hash_algo,
                    response.secret@,
                    BIN_STR7_LABEL@,
                    None,
                ),
            ) {
                (Some(request_finished_key), Some(response_finished_key)) => Some(
                    SpdmSessionHandshakeKeys {
                        master_secret,
                        request_finished_key,
                        response_finished_key,
                        request,
                        response,
                    },
                ),
                _ => None,
            },
            _ => None,
        },
        None => None,
    }
}

/// The data keys of a session, from its master secret and the transcript
/// hash `th2`: each direction's data secret is expanded from the master
/// secret with the label of the direction and `th2`, the record keys from
/// those, and the export master secret from the master secret. Nothing where
/// any step fails.
pub open spec fn spec_data_keys<K: SpdmHkdf>(
    hkdf: Option<K>,
    spdm_version: SpdmVersion,
    hash_algo: SpdmBaseHashAlgo,
    aead_algo: SpdmAeadAlgo,
    master_secret: Seq<u8>,
    th2: Seq<u8>,
) -> Option<SpdmSessionDataKeys> {
    match (
        spec_traffic_keys(
            hkdf,
            spdm_version,
            hash_algo,
            aead_algo,
            master_secret,
            BIN_STR3_LABEL@,
            Some(th2),
        ),
        spec_traffic_keys(
            hkdf,
            spdm_version,
            hash_algo,
            aead_algo,
            master_secret,
            BIN_STR4_LABEL@,
            Some(th2),
        ),
        spec_derive_secret(hkdf, spdm_version, hash_algo, master_secret, BIN_STR8_LABEL@, None),
    ) {
        (Some(request), Some(response), Some(export_master_secret)) => Some(
            SpdmSessionDataKeys { export_master_secret, request, response },
        ),
        _ => None,
    }
}

/// The traffic keys that follow `secret` in a key update: the secret
/// expanded from it with the label "traffic upd", and the record keys made
/// from that.
pub open spec fn spec_updated_traffic_keys<K: SpdmHkdf>(
    hkdf: Option<K>,
    spdm_version: SpdmVersion,
    hash_algo: SpdmBaseHashAlgo,
    aead_algo: SpdmAeadAlgo,
    secret: Seq<u8>,
) -> Option<SpdmTrafficKeys> {
    spec_traffic_keys(hkdf, spdm_version, hash_algo, aead_algo, secret, BIN_STR9_LABEL@, None)
}

/// The traffic keys of one direction.
pub fn derive_traffic_keys<K: SpdmHkdf>(
    hkdf_slot: &ProviderSlot<K>,
    spdm_version: SpdmVersion,
    hash_algo: SpdmBaseHashAlgo,
    aead_algo: SpdmAeadAlgo,
    key: &[u8],
    label: &[u8],
    context: Option<&[u8]>,
) -> (r: Option<SpdmTrafficKeys>)
    ensures
        r == spec_traffic_keys(
            hkdf_slot.provider(),
            spdm_version,
            hash_algo,
            aead_algo,
            key@,
            label@,
            match context {
                Some(c) => Some(c@),
                None => None,
            },
        ),
        r matches Some(keys) ==> keys.secret.wf() && keys.secret@.len() == hash_algo.spec_size()
            && keys.direction.fits(aead_algo) && keys.direction.sequence_number == 0,
{
    let key_schedule = SpdmKeySchedule::new();
    let secret = key_schedule.derive_secret(
        hkdf_slot,
        spdm_version,
        hash_algo,
        key,
        label,
        context,
    )?;
    let (encryption_key, salt) = key_schedule.derive_aead_key_iv(
        hkdf_slot,
        spdm_version,
        hash_algo,
        aead_algo,
        secret.as_ref(),
    )?;
    Some(
        SpdmTrafficKeys {
            secret,
            direction: SpdmSessionSecretParam { encryption_key, salt, sequence_number: 0 },
        },
    )
}

/// The handshake keys of a session.
pub fn derive_handshake_keys<M: SpdmHmac, K: SpdmHkdf>(
    hmac_slot: &ProviderSlot<M>,
    hkdf_slot: &ProviderSlot<K>,
    spdm_version: SpdmVersion,
    hash_algo: SpdmBaseHashAlgo,
    aead_algo: SpdmAeadAlgo,
    dhe_secret: &[u8],
    th1: &[u8],
) -> (r: Option<SpdmSessionHandshakeKeys>)
    ensures
        r == spec_handshake_keys(
            hmac_slot.provider(),
            hkdf_slot.provider(),
            spdm_version,
            hash_algo,
            aead_algo,
            dhe_secret@,
            th1@,
        ),
        r matches Some(keys) ==> keys.master_secret.wf() && keys.request_finished_key.wf()
            && keys.response_finished_key.wf() && keys.request.direction.fits(aead_algo)
            && keys.response.direction.fits(aead_algo) && keys.request.secret.wf()
            && keys.response.secret.wf() && keys.request.direction.sequence_number == 0
            && keys.response.direction.sequence_number == 0,
{
    let key_schedule = SpdmKeySchedule::new();
    let handshake_secret = key_schedule.derive_handshake_secret(
        hmac_slot,
        spdm_version,
        hash_algo,
        dhe_secret,
    )?;
    let request = derive_traffic_keys(
        hkdf_slot,
        spdm_version,
        hash_algo,
        aead_algo,
        handshake_secret.as_ref(),
        BIN_STR1_LABEL.as_slice(),
        Some(th1),
    );
    let response = derive_traffic_keys(
        hkdf_slot,
        spdm_version,
        hash_algo,
        aead_algo,
        handshake_secret.as_ref(),
        BIN_STR2_LABEL.as_slice(),
        Some(th1),
    );
    let master_secret = key_schedule.derive_master_secret(
        hmac_slot,
        hkdf_slot,
        spdm_version,
        hash_algo,
        handshake_secret.as_ref(),
    );
    let request = request?;
    let response = response?;
    let master_secret = master_secret?;
    let request_finished_key = key_schedule.derive_finished_key(
        hkdf_slot,
        spdm_version,
        hash_algo,
        request.secret.as_ref(),
    );
    let response_finished_key = key_schedule.derive_finished_key(
        hkdf_slot,
        spdm_version,
        hash_algo,
        response.secret.as_ref(),
    );
    let request_finished_key = request_finished_key?;
    let response_finished_key = response_finished_key?;
    Some(
        SpdmSessionHandshakeKeys {
            master_secret,
            request_finished_key,
            response_finished_key,
            request,
            response,
        },
    )
}

/// The data keys of a session.
pub fn derive_data_keys<K: SpdmHkdf>(
    hkdf_slot: &ProviderSlot<K>,
    spdm_version: SpdmVersion,
    hash_algo: SpdmBaseHashAlgo,
    aead_algo: SpdmAeadAlgo,
    master_secret: &[u8],
    th2: &[u8],
) -> (r: Option<SpdmSessionDataKeys>)
    ensures
        r == spec_data_keys(
            hkdf_slot.provider(),
            spdm_version,
            hash_algo,
            aead_algo,
            master_secret@,
            th2@,
        ),
        r matches Some(keys) ==> keys.export_master_secret.wf()
            && keys.export_master_secret@.len() == hash_algo.spec_size()
            && keys.request.direction.fits(aead_algo) && keys.response.direction.fits(aead_algo)
            && keys.request.secret.wf() && keys.response.secret.wf()
            && keys.request.direction.sequence_number == 0
            && keys.response.direction.sequence_number == 0,
{
    let key_schedule = SpdmKeySchedule::new();
    let request = derive_traffic_keys(
        hkdf_slot,
        spdm_version,
        hash_algo,
        aead_algo,
        master_secret,
        BIN_STR3_LABEL.as_slice(),
        Some(th2),
    );
    let response = derive_traffic_keys(
        hkdf_slot,
        spdm_version,
        hash_algo,
        aead_algo,
        master_secret,
        BIN_STR4_LABEL.as_slice(),
        Some(th2),
    );
    let export_master_secret = key_schedule.derive_export_master_secret(
        hkdf_slot,
        spdm_version,
        hash_algo,
        master_secret,
    );
    let request = request?;
    let response = response?;
    let export_master_secret = export_master_secret?;
    Some(SpdmSessionDataKeys { export_master_secret, request, response })
}

/// A secret that the secret provider expands from the pre-shared key named
/// by `psk_hint`: from the handshake secret of that key where `from_handshake`
/// says so, from its master secret otherwise, with the info made of the
/// digest length, `label` and `context`. Nothing where the info does not fit
/// the message buffer, the provider fails, or what it returns has not the
/// length of a digest.
pub open spec fn spec_psk_secret<S: SpdmSecret>(
    secret: Option<S>,
    spdm_version: SpdmVersion,
    hash_algo: SpdmBaseHashAlgo,
    psk_hint: Seq<u8>,
    from_handshake: bool,
    label: Seq<u8>,
    context: Option<Seq<u8>>,
) -> Option<SpdmDigestStruct> {
    let info = spec_bin_concat(hash_algo.spec_size(), spdm_version, label, context);
    if !bin_concat_fits(MAX_SPDM_MESSAGE_BUFFER_SIZE as nat, label, context) {
        None
    } else {
        match secret {
            Some(p) => match checked_psk_okm(
                if from_handshake {
                    p.psk_handshake_secret_hkdf_expand_value(
                        spdm_version,
                        hash_algo,
                        psk_hint,
                        Some(psk_hint.len() as usize),
                        Some(info),
                        Some(info.len() as usize),
                    )
                } else {
                    p.psk_master_secret_hkdf_expand_value(
                        spdm_version,
                        hash_algo,
                        psk_hint,
                        Some(psk_hint.len() as usize),
                        Some(info),
                        Some(info.len() as usize),
                    )
                },
            ) {
                Some(okm) => if okm.data_size == hash_algo.spec_size() {
                    Some(SpdmDigestStruct::spec_from_bytes(okm@))
                } else {
                    None
                },
                None => None,
            },
            None => None,
        }
    }
}

/// The traffic keys of one direction of a session on a pre-shared key: the
/// secret that the secret provider expands, and the record keys made from
/// it.
pub open spec fn spec_psk_traffic_keys<S: SpdmSecret, K: SpdmHkdf>(
    secret: Option<S>,
    hkdf: Option<K>,
    spdm_version: SpdmVersion,
    hash_algo: SpdmBaseHashAlgo,
    aead_algo: SpdmAeadAlgo,
    psk_hint: Seq<u8>,
    from_handshake: bool,
    label: Seq<u8>,
    context: Option<Seq<u8>>,
) -> Option<SpdmTrafficKeys> {
    match spec_psk_secret(
        secret,
        spdm_version,
        hash_algo,
        psk_hint,
        from_handshake,
        label,
        context,
    ) {
        Some(traffic_secret) => match spec_aead_key_iv(
            hkdf,
            spdm_version,
            hash_algo,
            aead_algo,
            traffic_secret@,
        ) {
            Some(keys) => Some(
                SpdmTrafficKeys {
                    secret: traffic_secret,
                    direction: SpdmSessionSecretParam::spec_fresh(keys),
                },
            ),
            None => None,
        },
        None => None,
    }
}

/// The handshake keys of a session on a pre-shared key, from the key named
/// by `psk_hint` and the transcript hash `th1`: each direction's handshake
/// secret is expanded by the secret provider from the handshake secret of
/// the key, with the label of the direction and `th1`; the finished keys and
/// the record keys are expanded from those. The master secret stays with the
/// secret provider: the keys hold an empty one.
pub open spec fn spec_psk_handshake_keys<S: SpdmSecret, K: SpdmHkdf>(
    secret: Option<S>,
    hkdf: Option<K>,
    spdm_version: SpdmVersion,
    hash_algo: SpdmBaseHashAlgo,
    aead_algo: SpdmAeadAlgo,
    psk_hint: Seq<u8>,
    th1: Seq<u8>,
) -> Option<SpdmSessionHandshakeKeys> {
    match (
        spec_psk_traffic_keys(
            secret,
            hkdf,
            spdm_version,
            hash_algo,
            aead_algo,
            psk_hint,
            true,
            BIN_STR1_LABEL@,
            Some(th1),
        ),
        spec_psk_traffic_keys(
            secret,
            hkdf,
            spdm_version,
            hash_algo,
            aead_algo,
            psk_hint,
            true,
            BIN_STR2_LABEL@,
            Some(th1),
        ),
    ) {
        (Some(request), Some(response)) => match (
            spec_derive_secret(
                hkdf,
                spdm_version,
                hash_algo,
                request.secret@,
                BIN_STR7_LABEL@,
                None,
            ),
            spec_derive_secret(
                hkdf,
                spdm_version,
                hash_algo,
                response.secret@,
                BIN_STR7_LABEL@,
                None,
            ),
        ) {
            (Some(request_finished_key), Some(response_finished_key)) => Some(
                SpdmSessionHandshakeKeys {
                    master_secret: SpdmDigestStruct::spec_from_bytes(Seq::<u8>::empty()),
                    request_finished_key,
                    response_finished_key,
                    request,
                    response,
                },
            ),
            _ => None,
        },
        _ => None,
    }
}

/// The data keys of a session on a pre-shared key, from the key named by
/// `psk_hint` and the transcript hash `th2`: each direction's data secret,
/// and the export master secret, are expanded by the secret provider from
/// the master secret of the key.
pub open spec fn spec_psk_data_keys<S: SpdmSecret, K: SpdmHkdf>(
    secret: Option<S>,
    hkdf: Option<K>,
    spdm_version: SpdmVersion,
    hash_algo: SpdmBaseHashAlgo,
    aead_algo: SpdmAeadAlgo,
    psk_hint: Seq<u8>,
    th2: Seq<u8>,
) -> Option<SpdmSessionDataKeys> {
    match (
        spec_psk_traffic_keys(
            secret,
            hkdf,
            spdm_version,
            hash_algo,
            aead_algo,
            psk_hint,
            false,
            BIN_STR3_LABEL@,
            Some(th2),
        ),
        spec_psk_traffic_keys(
            secret,
            hkdf,
            spdm_version,
            hash_algo,
            aead_algo,
            psk_hint,
            false,
            BIN_STR4_LABEL@,
            Some(th2),
        ),
        spec_psk_secret(
            secret,
            spdm_version,
            hash_algo,
            psk_hint,
            false,
            BIN_STR8_LABEL@,
            None,
        ),
    ) {
        (Some(request), Some(response), Some(export_master_secret)) => Some(
            SpdmSessionDataKeys { export_master_secret, request, response },
        ),
        _ => None,
    }
}

/// A secret that the secret provider expands from a pre-shared key.
pub fn derive_psk_secret<S: SpdmSecret>(
    secret_slot: &ProviderSlot<S>,
    spdm_version: SpdmVersion,
    hash_algo: SpdmBaseHashAlgo,
    psk_hint: &[u8],
    from_handshake: bool,
    label: &[u8],
    context: Option<&[u8]>,
) -> (r: Option<SpdmDigestStruct>)
    ensures
        r == spec_psk_secret(
            secret_slot.provider(),
            spdm_version,
            hash_algo,
            psk_hint@,
            from_handshake,
            label@,
            match context {
                Some(c) => Some(c@),
                None => None,
            },
        ),
        r matches Some(d) ==> d.wf() && d@.len() == hash_algo.spec_size(),
{
    let mut buffer = [0u8; 0x1200];
    let key_schedule = SpdmKeySchedule::new();
    let used = key_schedule.binconcat(
        hash_algo.get_size(),
        spdm_version,
        label,
        context,
        &mut buffer,
    )?;
    let info = slice_subrange(buffer.as_slice(), 0, used);
    let okm = if from_handshake {
        spdm_psk_handshake_secret_hkdf_expand(
            secret_slot,
            spdm_version,
            hash_algo,
            psk_hint,
            Some(psk_hint.len()),
            Some(info),
            Some(used),
        )
    } else {
        spdm_psk_master_secret_hkdf_expand(
            secret_slot,
            spdm_version,
            hash_algo,
            psk_hint,
            Some(psk_hint.len()),
            Some(info),
            Some(used),
        )
    };
    let okm = okm?;
    if okm.data_size != hash_algo.get_size() {
        return None;
    }
    SpdmDigestStruct::from_bytes(okm.as_ref())
}

/// The traffic keys of one direction of a session on a pre-shared key.
pub fn derive_psk_traffic_keys<S: SpdmSecret, K: SpdmHkdf>(
    secret_slot: &ProviderSlot<S>,
    hkdf_slot: &ProviderSlot<K>,
    spdm_version: SpdmVersion,
    hash_algo: SpdmBaseHashAlgo,
    aead_algo: SpdmAeadAlgo,
    psk_hint: &[u8],
    from_handshake: bool,
    label: &[u8],
    context: Option<&[u8]>,
) -> (r: Option<SpdmTrafficKeys>)
    ensures
        r == spec_psk_traffic_keys(
            secret_slot.provider(),
            hkdf_slot.provider(),
            spdm_version,
            hash_algo,
            aead_algo,
            psk_hint@,
            from_handshake,
            label@,
            match context {
                Some(c) => Some(c@),
                None => None,
            },
        ),
        r matches Some(keys) ==> keys.secret.wf() && keys.secret@.len() == hash_algo.spec_size()
            && keys.direction.fits(aead_algo) && keys.direction.sequence_number == 0,
{
    let traffic_secret = derive_psk_secret(
        secret_slot,
        spdm_version,
        hash_algo,
        psk_hint,
        from_handshake,
        label,
        context,
    )?;
    let key_schedule = SpdmKeySchedule::new();
    let (encryption_key, salt) = key_schedule.derive_aead_key_iv(
        hkdf_slot,
        spdm_version,
        hash_algo,
        aead_algo,
        traffic_secret.as_ref(),
    )?;
    Some(
        SpdmTrafficKeys {
            secret: traffic_secret,
            direction: SpdmSessionSecretParam { encryption_key, salt, sequence_number: 0 },
        },
    )
}

/// The handshake keys of a session on a pre-shared key.
pub fn derive_psk_handshake_keys<S: SpdmSecret, K: SpdmHkdf>(
    secret_slot: &ProviderSlot<S>,
    hkdf_slot: &ProviderSlot<K>,
    spdm_version: SpdmVersion,
    hash_algo: SpdmBaseHashAlgo,
    aead_algo: SpdmAeadAlgo,
    psk_hint: &[u8],
    th1: &[u8],
) -> (r: Option<SpdmSessionHandshakeKeys>)
    ensures
        r == spec_psk_handshake_keys(
            secret_slot.provider(),
            hkdf_slot.provider(),
            spdm_version,
            hash_algo,
            aead_algo,
            psk_hint@,
            th1@,
        ),
        r matches Some(keys) ==> keys.master_secret.wf() && keys.request_finished_key.wf()
            && keys.response_finished_key.wf() && keys.request.direction.fits(aead_algo)
            && keys.response.direction.fits(aead_algo) && keys.request.secret.wf()
            && keys.response.secret.wf() && keys.request.direction.sequence_number == 0
            && keys.response.direction.sequence_number == 0,
{
    let key_schedule = SpdmKeySchedule::new();
    let request = derive_psk_traffic_keys(
        secret_slot,
        hkdf_slot,
        spdm_version,
        hash_algo,
        aead_algo,
        psk_hint,
        true,
        BIN_STR1_LABEL.as_slice(),
        Some(th1),
    );
    let response = derive_psk_traffic_keys(
        secret_slot,
        hkdf_slot,
        spdm_version,
        hash_algo,
        aead_algo,
        psk_hint,
        true,
        BIN_STR2_LABEL.as_slice(),
        Some(th1),
    );
    let request = request?;
    let response = response?;
    let request_finished_key = key_schedule.derive_finished_key(
        hkdf_slot,
        spdm_version,
        hash_algo,
        request.secret.as_ref(),
    );
    let response_finished_key = key_schedule.derive_finished_key(
        hkdf_slot,
        spdm_version,
        hash_algo,
        response.secret.as_ref(),
    );
    let request_finished_key = request_finished_key?;
    let response_finished_key = response_finished_key?;
    Some(
        SpdmSessionHandshakeKeys {
            master_secret: SpdmDigestStruct::default(),
            request_finished_key,
            response_finished_key,
            request,
            response,
        },
    )
}

/// The data keys of a session on a pre-shared key.
pub fn derive_psk_data_keys<S: SpdmSecret, K: SpdmHkdf>(
    secret_slot: &ProviderSlot<S>,
    hkdf_slot: &ProviderSlot<K>,
    spdm_version: SpdmVersion,
    hash_algo: SpdmBaseHashAlgo,
    aead_algo: SpdmAeadAlgo,
    psk_hint: &[u8],
    th2: &[u8],
) -> (r: Option<SpdmSessionDataKeys>)
    ensures
        r == spec_psk_data_keys(
            secret_slot.provider(),
            hkdf_slot.provider(),
            spdm_version,
            hash_algo,
            aead_algo,
            psk_hint@,
            th2@,
        ),
        r matches Some(keys) ==> keys.export_master_secret.wf()
            && keys.export_master_secret@.len() == hash_algo.spec_size()
            && keys.request.direction.fits(aead_algo) && keys.response.direction.fits(aead_algo)
            && keys.request.secret.wf() && keys.response.secret.wf()
            && keys.request.direction.sequence_number == 0
            && keys.response.direction.sequence_number == 0,
{
    let request = derive_psk_traffic_keys(
        secret_slot,
        hkdf_slot,
        spdm_version,
        hash_algo,
        aead_algo,
        psk_hint,
        false,
        BIN_STR3_LABEL.as_slice(),
        Some(th2),
    );
    let response = derive_psk_traffic_keys(
        secret_slot,
        hkdf_slot,
        spdm_version,
        hash_algo,
        aead_algo,
        psk_hint,
        false,
        BIN_STR4_LABEL.as_slice(),
        Some(th2),
    );
    let export_master_secret = derive_psk_secret(
        secret_slot,
        spdm_version,
        hash_algo,
        psk_hint,
        false,
        BIN_STR8_LABEL.as_slice(),
        None,
    );
    let request = request?;
    let response = response?;
    let export_master_secret = export_master_secret?;
    Some(SpdmSessionDataKeys { export_master_secret, request, response })
}

/// The key schedule is deterministic: two derivations from the same hash,
/// cipher, version, shared secret and transcript hashes, through the same
/// providers, give the same handshake keys and the same data keys, byte for
/// byte: the secrets of both directions, the finished keys, and the record
/// keys and salts.
///
/// `first` and `second` stand for what two runs of `derive_handshake_keys`
/// return, `first_data` and `second_data` for what two runs of
/// `derive_data_keys` return from the master secret of the handshake keys.
pub proof fn lemma_key_schedule_is_deterministic<M: SpdmHmac, K: SpdmHkdf>(
    hmac: Option<M>,
    hkdf: Option<K>,
    spdm_version: SpdmVersion,
    hash_algo: SpdmBaseHashAlgo,
    aead_algo: SpdmAeadAlgo,
    dhe_secret: Seq<u8>,
    th1: Seq<u8>,
    th2: Seq<u8>,
    first: SpdmSessionHandshakeKeys,
    second: SpdmSessionHandshakeKeys,
    first_data: SpdmSessionDataKeys,
    second_data: SpdmSessionDataKeys,
)
    requires
        Some(first) == spec_handshake_keys(
            hmac,
            hkdf,
            spdm_version,
            hash_algo,
            aead_algo,
            dhe_secret,
            th1,
        ),
        Some(second) == spec_handshake_keys(
            hmac,
            hkdf,
            spdm_version,
            hash_algo,
            aead_algo,
            dhe_secret,
            th1,
        ),
        Some(first_data) == spec_data_keys(
            hkdf,
            spdm_version,
            hash_algo,
            aead_algo,
            first.master_secret@,
            th2,
        ),
        Some(second_data) == spec_data_keys(
            hkdf,
            spdm_version,
            hash_algo,
            aead_algo,
            second.master_secret@,
            th2,
        ),
    ensures
        first == second,
        first.request.secret@ == second.request.secret@,
        first.response.secret@ == second.response.secret@,
        first.request_finished_key@ == second.request_finished_key@,
        first.response_finished_key@ == second.response_finished_key@,
        first.request.direction.encryption_key@ == second.request.direction.encryption_key@,
        first.request.direction.salt@ == second.request.direction.salt@,
        first.response.direction.encryption_key@ == second.response.direction.encryption_key@,
        first.response.direction.salt@ == second.response.direction.salt@,
        first_data == second_data,
        first_data.request.secret@ == second_data.request.secret@,
        first_data.response.secret@ == second_data.response.secret@,
        first_data.request.direction.encryption_key@
            == second_data.request.direction.encryption_key@,
        first_data.request.direction.salt@ == second_data.request.direction.salt@,
        first_data.response.direction.encryption_key@
            == second_data.response.direction.encryption_key@,
        first_data.response.direction.salt@ == second_data.response.direction.salt@,
{
}

} // verus!
