//! The key schedule: every secret of a session, derived by HMAC and
//! HKDF-Expand from the handshake's shared secret and the transcript hashes.

use crate::bytes::zeros;
use crate::codec::{le_bytes_u16, Codec, Writer};
use crate::config::MAX_SPDM_MESSAGE_BUFFER_SIZE;
use crate::crypto::hkdf::{hkdf_expand, spec_hkdf_expand};
use crate::crypto::hmac::{hmac, spec_hmac};
use crate::crypto::{ProviderSlot, SpdmHkdf, SpdmHmac};
use crate::protocol::{
    SpdmAeadAlgo, SpdmAeadIvStruct, SpdmAeadKeyStruct, SpdmBaseHashAlgo, SpdmDigestStruct,
    SpdmVersion,
};
use vstd::prelude::*;
use vstd::slice::slice_subrange;

verus! {

/// "derived": the label of the salt from which the master secret is made.
pub const BIN_STR0_LABEL: [u8; 7] = [0x64, 0x65, 0x72, 0x69, 0x76, 0x65, 0x64];

/// "req hs data": the label of the requester's handshake secret.
pub const BIN_STR1_LABEL: [u8; 11] = [
    0x72, 0x65, 0x71, 0x20, 0x68, 0x73, 0x20, 0x64, 0x61, 0x74, 0x61,
];

/// "rsp hs data": the label of the responder's handshake secret.
pub const BIN_STR2_LABEL: [u8; 11] = [
    0x72, 0x73, 0x70, 0x20, 0x68, 0x73, 0x20, 0x64, 0x61, 0x74, 0x61,
];

/// "req app data": the label of the requester's data secret.
pub const BIN_STR3_LABEL: [u8; 12] = [
    0x72, 0x65, 0x71, 0x20, 0x61, 0x70, 0x70, 0x20, 0x64, 0x61, 0x74, 0x61,
];

/// "rsp app data": the label of the responder's data secret.
pub const BIN_STR4_LABEL: [u8; 12] = [
    0x72, 0x73, 0x70, 0x20, 0x61, 0x70, 0x70, 0x20, 0x64, 0x61, 0x74, 0x61,
];

/// "key": the label of an encryption key.
pub const BIN_STR5_LABEL: [u8; 3] = [0x6b, 0x65, 0x79];

/// "iv": the label of an initialisation-vector salt.
pub const BIN_STR6_LABEL: [u8; 2] = [0x69, 0x76];

/// "finished": the label of a finished-MAC key.
pub const BIN_STR7_LABEL: [u8; 8] = [0x66, 0x69, 0x6e, 0x69, 0x73, 0x68, 0x65, 0x64];

/// "exp master": the label of the export master secret.
pub const BIN_STR8_LABEL: [u8; 10] = [0x65, 0x78, 0x70, 0x20, 0x6d, 0x61, 0x73, 0x74, 0x65, 0x72];

/// "traffic upd": the label of an updated traffic secret.
pub const BIN_STR9_LABEL: [u8; 11] = [
    0x74, 0x72, 0x61, 0x66, 0x66, 0x69, 0x63, 0x20, 0x75, 0x70, 0x64,
];

/// Length of the version tag in an HKDF info.
pub const SPDM_VERSION_VALUE_SIZE: usize = 8;

/// The eight bytes "spdmM.m ": the word, the two digits of the version with a
/// dot between them, and a space.
pub open spec fn spec_version_tag(spdm_version: SpdmVersion) -> Seq<u8> {
    seq![
        0x73u8,
        0x70u8,
        0x64u8,
        0x6du8,
        (0x30 + spdm_version.spec_major()) as u8,
        0x2eu8,
        (0x30 + spdm_version.spec_minor()) as u8,
        0x20u8,
    ]
}

/// The bytes of an optional context; none where there is no context.
pub open spec fn context_bytes(context: Option<Seq<u8>>) -> Seq<u8> {
    match context {
        Some(c) => c,
        None => Seq::<u8>::empty(),
    }
}

/// An HKDF info: the output length in two bytes, low byte first, the version
/// tag, the label and the context.
pub open spec fn spec_bin_concat(
    length: u16,
    spdm_version: SpdmVersion,
    label: Seq<u8>,
    context: Option<Seq<u8>>,
) -> Seq<u8> {
    le_bytes_u16(length) + spec_version_tag(spdm_version) + label + context_bytes(context)
}

/// Label and context of an info fit a buffer of `capacity` bytes behind the
/// ten bytes of length and version tag.
pub open spec fn bin_concat_fits(capacity: nat, label: Seq<u8>, context: Option<Seq<u8>>) -> bool {
    capacity >= 10 && label.len() + context_bytes(context).len() <= capacity - 10
}

/// The secret that HKDF-Expand gives for `key` and the info made of the
/// digest length, `label` and `context`; nothing where the info does not fit
/// the message buffer or the provider fails.
pub open spec fn spec_derive_secret<K: SpdmHkdf>(
    hkdf: Option<K>,
    spdm_version: SpdmVersion,
    hash_algo: SpdmBaseHashAlgo,
    key: Seq<u8>,
    label: Seq<u8>,
    context: Option<Seq<u8>>,
) -> Option<SpdmDigestStruct> {
    if bin_concat_fits(MAX_SPDM_MESSAGE_BUFFER_SIZE as nat, label, context) {
        spec_hkdf_expand(
            hkdf,
            hash_algo,
            key,
            spec_bin_concat(hash_algo.spec_size(), spdm_version, label, context),
            hash_algo.spec_size(),
        )
    } else {
        None
    }
}

/// The keying material of `out_size` bytes that HKDF-Expand gives for `key`
/// and the info made of `out_size` and `label`.
pub open spec fn spec_derive_okm<K: SpdmHkdf>(
    hkdf: Option<K>,
    spdm_version: SpdmVersion,
    hash_algo: SpdmBaseHashAlgo,
    key: Seq<u8>,
    label: Seq<u8>,
    out_size: u16,
) -> Option<SpdmDigestStruct> {
    spec_hkdf_expand(
        hkdf,
        hash_algo,
        key,
        spec_bin_concat(out_size, spdm_version, label, None),
        out_size,
    )
}

/// The handshake secret: the MAC of the shared secret under a key of zeros as
/// long as a digest.
pub open spec fn spec_handshake_secret<M: SpdmHmac>(
    hmac: Option<M>,
    hash_algo: SpdmBaseHashAlgo,
    key: Seq<u8>,
) -> Option<SpdmDigestStruct> {
    spec_hmac(hmac, hash_algo, zeros(hash_algo.spec_size() as nat), key)
}

/// The master secret: the MAC of zeros as long as a digest under the salt
/// that is derived from the handshake secret with the label "derived".
pub open spec fn spec_master_secret<M: SpdmHmac, K: SpdmHkdf>(
    hmac: Option<M>,
    hkdf: Option<K>,
    spdm_version: SpdmVersion,
    hash_algo: SpdmBaseHashAlgo,
    key: Seq<u8>,
) -> Option<SpdmDigestStruct> {
    match spec_derive_secret(hkdf, spdm_version, hash_algo, key, BIN_STR0_LABEL@, None) {
        Some(salt_1) => spec_hmac(hmac, hash_algo, salt_1@, zeros(hash_algo.spec_size() as nat)),
        None => None,
    }
}

/// The record key and the initialisation-vector salt of one direction: the
/// keying material of the key length and of the vector length of `aead_algo`
/// that HKDF-Expand gives for the traffic secret `key` with the labels "key"
/// and "iv".
pub open spec fn spec_aead_key_iv<K: SpdmHkdf>(
    hkdf: Option<K>,
    spdm_version: SpdmVersion,
    hash_algo: SpdmBaseHashAlgo,
    aead_algo: SpdmAeadAlgo,
    key: Seq<u8>,
) -> Option<(SpdmAeadKeyStruct, SpdmAeadIvStruct)> {
    match (
        spec_derive_okm(
            hkdf,
            spdm_version,
            hash_algo,
            key,
            BIN_STR5_LABEL@,
            aead_algo.spec_key_size(),
        ),
        spec_derive_okm(
            hkdf,
            spdm_version,
            hash_algo,
            key,
            BIN_STR6_LABEL@,
            aead_algo.spec_iv_size(),
        ),
    ) {
        (Some(key_okm), Some(iv_okm)) => Some(
            (
                SpdmAeadKeyStruct::spec_from_bytes(key_okm@),
                SpdmAeadIvStruct::spec_from_bytes(iv_okm@),
            ),
        ),
        _ => None,
    }
}

/// The derivations of the key schedule. It holds no state: every secret is an
/// argument or a result.
#[derive(Clone, Copy, Debug)]
pub struct SpdmKeySchedule;

impl Default for SpdmKeySchedule {
    fn default() -> (r: SpdmKeySchedule) {
        SpdmKeySchedule::new()
    }
}

impl SpdmKeySchedule {
    pub fn new() -> (r: SpdmKeySchedule) {
        SpdmKeySchedule {  }
    }

    /// The handshake secret of a session, from the shared secret `key`.
    pub fn derive_handshake_secret<M: SpdmHmac>(
        &self,
        hmac_slot: &ProviderSlot<M>,
        _spdm_version: SpdmVersion,
        hash_algo: SpdmBaseHashAlgo,
        key: &[u8],
    ) -> (r: Option<SpdmDigestStruct>)
        ensures
            r == spec_handshake_secret(hmac_slot.provider(), hash_algo, key@),
            r matches Some(d) ==> d.wf() && d@.len() == hash_algo.spec_size(),
    {
        let salt_0 = [0u8; 64];
        let salt = slice_subrange(salt_0.as_slice(), 0, hash_algo.get_size() as usize);
        assert(salt@ =~= zeros(hash_algo.spec_size() as nat));
        hmac(hmac_slot, hash_algo, salt, key)
    }

    /// The master secret of a session, from its handshake secret `key`.
    pub fn derive_master_secret<M: SpdmHmac, K: SpdmHkdf>(
        &self,
        hmac_slot: &ProviderSlot<M>,
        hkdf_slot: &ProviderSlot<K>,
        spdm_version: SpdmVersion,
        hash_algo: SpdmBaseHashAlgo,
        key: &[u8],
    ) -> (r: Option<SpdmDigestStruct>)
        ensures
            r == spec_master_secret(
                hmac_slot.provider(),
                hkdf_slot.provider(),
                spdm_version,
                hash_algo,
                key@,
            ),
            r matches Some(d) ==> d.wf() && d@.len() == hash_algo.spec_size(),
    {
        let salt_1 = self.derive_secret(
            hkdf_slot,
            spdm_version,
            hash_algo,
            key,
            BIN_STR0_LABEL.as_slice(),
            None,
        )?;
        let zero_filled = [0u8; 64];
        let data = slice_subrange(zero_filled.as_slice(), 0, hash_algo.get_size() as usize);
        assert(data@ =~= zeros(hash_algo.spec_size() as nat));
        hmac(hmac_slot, hash_algo, salt_1.as_ref(), data)
    }

    /// The requester's handshake secret, from the handshake secret `key` and
    /// the transcript hash `th1`.
    pub fn derive_request_handshake_secret<K: SpdmHkdf>(
        &self,
        hkdf_slot: &ProviderSlot<K>,
        spdm_version: SpdmVersion,
        hash_algo: SpdmBaseHashAlgo,
        key: &[u8],
        th1: &[u8],
    ) -> (r: Option<SpdmDigestStruct>)
        ensures
            r == spec_derive_secret(
                hkdf_slot.provider(),
                spdm_version,
                hash_algo,
                key@,
                BIN_STR1_LABEL@,
                Some(th1@),
            ),
            r matches Some(d) ==> d.wf() && d@.len() == hash_algo.spec_size(),
    {
        self.derive_secret(
            hkdf_slot,
            spdm_version,
            hash_algo,
            key,
            BIN_STR1_LABEL.as_slice(),
            Some(th1),
        )
    }

    /// The responder's handshake secret, from the handshake secret `key` and
    /// the transcript hash `th1`.
    pub fn derive_response_handshake_secret<K: SpdmHkdf>(
        &self,
        hkdf_slot: &ProviderSlot<K>,
        spdm_version: SpdmVersion,
        hash_algo: SpdmBaseHashAlgo,
        key: &[u8],
        th1: &[u8],
    ) -> (r: Option<SpdmDigestStruct>)
        ensures
            r == spec_derive_secret(
                hkdf_slot.provider(),
                spdm_version,
                hash_algo,
                key@,
                BIN_STR2_LABEL@,
                Some(th1@),
            ),
            r matches Some(d) ==> d.wf() && d@.len() == hash_algo.spec_size(),
    {
        self.derive_secret(
            hkdf_slot,
            spdm_version,
            hash_algo,
            key,
            BIN_STR2_LABEL.as_slice(),
            Some(th1),
        )
    }

    /// The key of a finished MAC, from the handshake secret `key` of one
    /// direction.
    pub fn derive_finished_key<K: SpdmHkdf>(
        &self,
        hkdf_slot: &ProviderSlot<K>,
        spdm_version: SpdmVersion,
        hash_algo: SpdmBaseHashAlgo,
        key: &[u8],
    ) -> (r: Option<SpdmDigestStruct>)
        ensures
            r == spec_derive_secret(
                hkdf_slot.provider(),
                spdm_version,
                hash_algo,
                key@,
                BIN_STR7_LABEL@,
                None,
            ),
            r matches Some(d) ==> d.wf() && d@.len() == hash_algo.spec_size(),
    {
        self.derive_secret(
            hkdf_slot,
            spdm_version,
            hash_algo,
            key,
            BIN_STR7_LABEL.as_slice(),
            None,
        )
    }

    /// The record key and the initialisation-vector salt of one direction,
    /// from its traffic secret `key`. The key has the key length of
    /// `aead_algo`, the salt its vector length.
    pub fn derive_aead_key_iv<K: SpdmHkdf>(
        &self,
        hkdf_slot: &ProviderSlot<K>,
        spdm_version: SpdmVersion,
        hash_algo: SpdmBaseHashAlgo,
        aead_algo: SpdmAeadAlgo,
        key: &[u8],
    ) -> (r: Option<(SpdmAeadKeyStruct, SpdmAeadIvStruct)>)
        ensures
            r == spec_aead_key_iv(hkdf_slot.provider(), spdm_version, hash_algo, aead_algo, key@),
            r matches Some((encrypt_key, iv)) ==> encrypt_key.wf() && iv.wf() && encrypt_key@.len()
                == aead_algo.spec_key_size() && iv@.len() == aead_algo.spec_iv_size(),
    {
        let mut buffer = [0u8; 0x1200];
        let key_size: u16 = aead_algo.get_key_size();
        let used = self.binconcat(
            key_size,
            spdm_version,
            BIN_STR5_LABEL.as_slice(),
            None,
            &mut buffer,
        )?;
        let res = hkdf_expand(
            hkdf_slot,
            hash_algo,
            key,
            slice_subrange(buffer.as_slice(), 0, used),
            key_size,
        )?;
        let encrypt_key = SpdmAeadKeyStruct::from_bytes(res.as_ref())?;

        let iv_size: u16 = aead_algo.get_iv_size();
        let used = self.binconcat(
            iv_size,
            spdm_version,
            BIN_STR6_LABEL.as_slice(),
            None,
            &mut buffer,
        )?;
        let res = hkdf_expand(
            hkdf_slot,
            hash_algo,
            key,
            slice_subrange(buffer.as_slice(), 0, used),
            iv_size,
        )?;
        let iv = SpdmAeadIvStruct::from_bytes(res.as_ref())?;
        Some((encrypt_key, iv))
    }

    /// The requester's data secret, from the master secret `key` and the
    /// transcript hash `th2`.
    pub fn derive_request_data_secret<K: SpdmHkdf>(
        &self,
        hkdf_slot: &ProviderSlot<K>,
        spdm_version: SpdmVersion,
        hash_algo: SpdmBaseHashAlgo,
        key: &[u8],
        th2: &[u8],
    ) -> (r: Option<SpdmDigestStruct>)
        ensures
            r == spec_derive_secret(
                hkdf_slot.provider(),
                spdm_version,
                hash_algo,
                key@,
                BIN_STR3_LABEL@,
                Some(th2@),
            ),
            r matches Some(d) ==> d.wf() && d@.len() == hash_algo.spec_size(),
    {
        self.derive_secret(
            hkdf_slot,
            spdm_version,
            hash_algo,
            key,
            BIN_STR3_LABEL.as_slice(),
            Some(th2),
        )
    }

    /// The responder's data secret, from the master secret `key` and the
    /// transcript hash `th2`.
    pub fn derive_response_data_secret<K: SpdmHkdf>(
        &self,
        hkdf_slot: &ProviderSlot<K>,
        spdm_version: SpdmVersion,
        hash_algo: SpdmBaseHashAlgo,
        key: &[u8],
        th2: &[u8],
    ) -> (r: Option<SpdmDigestStruct>)
        ensures
            r == spec_derive_secret(
                hkdf_slot.provider(),
                spdm_version,
                hash_algo,
                key@,
                BIN_STR4_LABEL@,
                Some(th2@),
            ),
            r matches Some(d) ==> d.wf() && d@.len() == hash_algo.spec_size(),
    {
        self.derive_secret(
            hkdf_slot,
            spdm_version,
            hash_algo,
            key,
            BIN_STR4_LABEL.as_slice(),
            Some(th2),
        )
    }

    /// The export master secret, from the master secret `key`.
    pub fn derive_export_master_secret<K: SpdmHkdf>(
        &self,
        hkdf_slot: &ProviderSlot<K>,
        spdm_version: SpdmVersion,
        hash_algo: SpdmBaseHashAlgo,
        key: &[u8],
    ) -> (r: Option<SpdmDigestStruct>)
        ensures
            r == spec_derive_secret(
                hkdf_slot.provider(),
                spdm_version,
                hash_algo,
                key@,
                BIN_STR8_LABEL@,
                None,
            ),
            r matches Some(d) ==> d.wf() && d@.len() == hash_algo.spec_size(),
    {
        self.derive_secret(
            hkdf_slot,
            spdm_version,
            hash_algo,
            key,
            BIN_STR8_LABEL.as_slice(),
            None,
        )
    }

    /// The traffic secret that follows the traffic secret `key` in a key
    /// update.
    pub fn derive_update_secret<K: SpdmHkdf>(
        &self,
        hkdf_slot: &ProviderSlot<K>,
        spdm_version: SpdmVersion,
        hash_algo: SpdmBaseHashAlgo,
        key: &[u8],
    ) -> (r: Option<SpdmDigestStruct>)
        ensures
            r == spec_derive_secret(
                hkdf_slot.provider(),
                spdm_version,
                hash_algo,
                key@,
                BIN_STR9_LABEL@,
                None,
            ),
            r matches Some(d) ==> d.wf() && d@.len() == hash_algo.spec_size(),
    {
        self.derive_secret(
            hkdf_slot,
            spdm_version,
            hash_algo,
            key,
            BIN_STR9_LABEL.as_slice(),
            None,
        )
    }

    /// A secret as long as a digest, expanded from `key` with the info made of
    /// `label` and `context`.
    pub fn derive_secret<K: SpdmHkdf>(
        &self,
        hkdf_slot: &ProviderSlot<K>,
        spdm_version: SpdmVersion,
        hash_algo: SpdmBaseHashAlgo,
        key: &[u8],
        label: &[u8],
        context: Option<&[u8]>,
    ) -> (r: Option<SpdmDigestStruct>)
        ensures
            r == spec_derive_secret(
                hkdf_slot.provider(),
                spdm_version,
                hash_algo,
                key@,
                label@,
                match context {
                    Some(c) => Some(c@),
                    None => None,
                },
            ),
            r matches Some(d) ==> d.wf() && d@.len() == hash_algo.spec_size(),
    {
        let mut buffer = [0u8; 0x1200];
        let used = self.binconcat(hash_algo.get_size(), spdm_version, label, context, &mut buffer)?;
        hkdf_expand(
            hkdf_slot,
            hash_algo,
            key,
            slice_subrange(buffer.as_slice(), 0, used),
            hash_algo.get_size(),
        )
    }

    /// Writes the HKDF info for an output of `length` bytes to the start of
    /// `buffer` and returns its length. Fails, and leaves `buffer` as it is,
    /// where label and context do not fit behind the ten bytes of length and
    /// version tag.
    pub fn binconcat(
        &self,
        length: u16,
        spdm_version: SpdmVersion,
        label: &[u8],
        context: Option<&[u8]>,
        buffer: &mut [u8],
    ) -> (r: Option<usize>)
        ensures
            final(buffer)@.len() == old(buffer)@.len(),
            r.is_some() <==> bin_concat_fits(
                old(buffer)@.len(),
                label@,
                match context {
                    Some(c) => Some(c@),
                    None => None,
                },
            ),
            r matches Some(used) ==> used == 10 + label@.len() + context_bytes(
                match context {
                    Some(c) => Some(c@),
                    None => None,
                },
            ).len() && final(buffer)@.subrange(0, used as int) == spec_bin_concat(
                length,
                spdm_version,
                label@,
                match context {
                    Some(c) => Some(c@),
                    None => None,
                },
            ),
            r.is_none() ==> final(buffer)@ == old(buffer)@,
    {
        let ghost context_view: Option<Seq<u8>> = match context {
            Some(c) => Some(c@),
            None => None,
        };
        if buffer.len() < 10 {
            return None;
        }
        let room: usize = buffer.len() - 2 - 8;
        if label.len() > room {
            return None;
        }
        if let Some(c) = context {
            if c.len() > room - label.len() {
                return None;
            }
        }
        let version: [u8; 8] = [
            0x73,
            0x70,
            0x64,
            0x6d,
            spdm_version.get_u8() / 16 + 0x30,
            0x2e,
            spdm_version.get_u8() % 16 + 0x30,
            0x20,
        ];
        assert(version@ =~= spec_version_tag(spdm_version));

        let mut writer = Writer::init(buffer);
        length.encode(&mut writer);
        let _ = writer.extend_from_slice(version.as_slice());
        let _ = writer.extend_from_slice(label);
        if let Some(c) = context {
            let _ = writer.extend_from_slice(c);
        }
        assert(writer@ =~= spec_bin_concat(length, spdm_version, label@, context_view));
        let used: usize = writer.used();
        Some(used)
    }
}

} // verus!
