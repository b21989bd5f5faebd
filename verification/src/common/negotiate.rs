//! Negotiation: the choice of a protocol version and of one algorithm of
//! each kind from what both sides offer.
//!
//! Versions are offered as lists, algorithms as bit masks. The choice is the
//! most preferred offer that both sides make: the highest version, and the
//! strongest algorithm.

use crate::error::{SpdmError, SpdmResult};
use crate::protocol::{
    SpdmAeadAlgo, SpdmBaseAsymAlgo, SpdmBaseHashAlgo, SpdmDheAlgo, SpdmKeyScheduleAlgo,
    SpdmMeasurementHashAlgo, SpdmReqAsymAlgo, SpdmVersion,
};
use vstd::prelude::*;

verus! {

/// Tells whether `versions` holds `version`.
pub fn offers_version(versions: &[SpdmVersion], version: SpdmVersion) -> (r: bool)
    ensures
        r == versions@.contains(version),
{
    let mut i: usize = 0;
    while i < versions.len()
        invariant
            i <= versions@.len(),
            forall|j: int| 0 <= j < i ==> versions@[j] != version,
        decreases versions@.len() - i,
    {
        if versions[i] == version {
            return true;
        }
        i = i + 1;
    }
    false
}

/// The highest version that both `local` and `peer` hold, if there is one.
pub open spec fn spec_select_version(local: Seq<SpdmVersion>, peer: Seq<SpdmVersion>) -> Option<
    SpdmVersion,
> {
    if local.contains(SpdmVersion::SpdmVersion12) && peer.contains(SpdmVersion::SpdmVersion12) {
        Some(SpdmVersion::SpdmVersion12)
    } else if local.contains(SpdmVersion::SpdmVersion11) && peer.contains(
        SpdmVersion::SpdmVersion11,
    ) {
        Some(SpdmVersion::SpdmVersion11)
    } else if local.contains(SpdmVersion::SpdmVersion10) && peer.contains(
        SpdmVersion::SpdmVersion10,
    ) {
        Some(SpdmVersion::SpdmVersion10)
    } else {
        None
    }
}

/// The version that both sides run: the highest that both offer. Fails with
/// `UnsupportedVersion` exactly where they have none in common.
pub fn select_version(local: &[SpdmVersion], peer: &[SpdmVersion]) -> (r: SpdmResult<SpdmVersion>)
    ensures
        r == match spec_select_version(local@, peer@) {
            Some(version) => Ok::<SpdmVersion, SpdmError>(version),
            None => Err::<SpdmVersion, SpdmError>(SpdmError::UnsupportedVersion),
        },
        r matches Ok(version) ==> local@.contains(version) && peer@.contains(version)
            && forall|other: SpdmVersion|
            local@.contains(other) && peer@.contains(other) ==> other.spec_u8()
                <= version.spec_u8(),
        r matches Err(e) ==> e == SpdmError::UnsupportedVersion && forall|other: SpdmVersion|
            !(local@.contains(other) && peer@.contains(other)),
{
    if offers_version(local, SpdmVersion::SpdmVersion12) && offers_version(
        peer,
        SpdmVersion::SpdmVersion12,
    ) {
        Ok(SpdmVersion::SpdmVersion12)
    } else if offers_version(local, SpdmVersion::SpdmVersion11) && offers_version(
        peer,
        SpdmVersion::SpdmVersion11,
    ) {
        Ok(SpdmVersion::SpdmVersion11)
    } else if offers_version(local, SpdmVersion::SpdmVersion10) && offers_version(
        peer,
        SpdmVersion::SpdmVersion10,
    ) {
        Ok(SpdmVersion::SpdmVersion10)
    } else {
        Err(SpdmError::UnsupportedVersion)
    }
}

/// The mask `mask` offers the algorithm whose bit is `bit`.
pub open spec fn offers(mask: u32, bit: u32) -> bool {
    mask & bit != 0
}

/// Tells whether `mask` offers the algorithm whose bit is `bit`.
pub fn mask_offers(mask: u32, bit: u32) -> (r: bool)
    ensures
        r == offers(mask, bit),
{
    mask & bit != 0
}

/// The most preferred algorithm that both masks offer, if there is one.
pub open spec fn spec_select_base_hash_algo(local: u32, peer: u32) -> Option<SpdmBaseHashAlgo> {
    if offers(local, 0x4) && offers(peer, 0x4) {
        Some(SpdmBaseHashAlgo::TPM_ALG_SHA_512)
    } else if offers(local, 0x2) && offers(peer, 0x2) {
        Some(SpdmBaseHashAlgo::TPM_ALG_SHA_384)
    } else if offers(local, 0x1) && offers(peer, 0x1) {
        Some(SpdmBaseHashAlgo::TPM_ALG_SHA_256)
    } else {
        None
    }
}

/// The hash that both sides run: the strongest that both masks offer. Fails
/// with `NegotiationFail` exactly where they offer none in common.
pub fn select_base_hash_algo(local: u32, peer: u32) -> (r: SpdmResult<SpdmBaseHashAlgo>)
    ensures
        r == match spec_select_base_hash_algo(local, peer) {
            Some(algo) => Ok::<SpdmBaseHashAlgo, SpdmError>(algo),
            None => Err::<SpdmBaseHashAlgo, SpdmError>(SpdmError::NegotiationFail),
        },
        r matches Ok(algo) ==> offers(local, algo.spec_bit()) && offers(peer, algo.spec_bit())
            && forall|other: SpdmBaseHashAlgo|
            offers(local, other.spec_bit()) && offers(peer, other.spec_bit())
                ==> other.spec_size() <= algo.spec_size(),
        r matches Err(e) ==> e == SpdmError::NegotiationFail && forall|other: SpdmBaseHashAlgo|
            !(offers(local, other.spec_bit()) && offers(peer, other.spec_bit())),
{
    if mask_offers(local, 0x4) && mask_offers(peer, 0x4) {
        Ok(SpdmBaseHashAlgo::TPM_ALG_SHA_512)
    } else if mask_offers(local, 0x2) && mask_offers(peer, 0x2) {
        Ok(SpdmBaseHashAlgo::TPM_ALG_SHA_384)
    } else if mask_offers(local, 0x1) && mask_offers(peer, 0x1) {
        Ok(SpdmBaseHashAlgo::TPM_ALG_SHA_256)
    } else {
        Err(SpdmError::NegotiationFail)
    }
}

/// The place of a signature algorithm in the order of preference: elliptic
/// curves before RSA, PSS before PKCS#1, and longer keys before shorter.
pub open spec fn base_asym_preference(algo: SpdmBaseAsymAlgo) -> int {
    match algo {
        SpdmBaseAsymAlgo::TPM_ALG_ECDSA_ECC_NIST_P384 => 8,
        SpdmBaseAsymAlgo::TPM_ALG_ECDSA_ECC_NIST_P256 => 7,
        SpdmBaseAsymAlgo::TPM_ALG_RSAPSS_4096 => 6,
        SpdmBaseAsymAlgo::TPM_ALG_RSAPSS_3072 => 5,
        SpdmBaseAsymAlgo::TPM_ALG_RSAPSS_2048 => 4,
        SpdmBaseAsymAlgo::TPM_ALG_RSASSA_4096 => 3,
        SpdmBaseAsymAlgo::TPM_ALG_RSASSA_3072 => 2,
        SpdmBaseAsymAlgo::TPM_ALG_RSASSA_2048 => 1,
    }
}

/// The most preferred algorithm that both masks offer, if there is one.
pub open spec fn spec_select_base_asym_algo(local: u32, peer: u32) -> Option<SpdmBaseAsymAlgo> {
    if offers(local, 0x80) && offers(peer, 0x80) {
        Some(SpdmBaseAsymAlgo::TPM_ALG_ECDSA_ECC_NIST_P384)
    } else if offers(local, 0x10) && offers(peer, 0x10) {
        Some(SpdmBaseAsymAlgo::TPM_ALG_ECDSA_ECC_NIST_P256)
    } else if offers(local, 0x40) && offers(peer, 0x40) {
        Some(SpdmBaseAsymAlgo::TPM_ALG_RSAPSS_4096)
    } else if offers(local, 0x8) && offers(peer, 0x8) {
        Some(SpdmBaseAsymAlgo::TPM_ALG_RSAPSS_3072)
    } else if offers(local, 0x2) && offers(peer, 0x2) {
        Some(SpdmBaseAsymAlgo::TPM_ALG_RSAPSS_2048)
    } else if offers(local, 0x20) && offers(peer, 0x20) {
        Some(SpdmBaseAsymAlgo::TPM_ALG_RSASSA_4096)
    } else if offers(local, 0x4) && offers(peer, 0x4) {
        Some(SpdmBaseAsymAlgo::TPM_ALG_RSASSA_3072)
    } else if offers(local, 0x1) && offers(peer, 0x1) {
        Some(SpdmBaseAsymAlgo::TPM_ALG_RSASSA_2048)
    } else {
        None
    }
}

/// The signature algorithm that both sides run: the most preferred that both
/// masks offer. Fails with `NegotiationFail` exactly where they offer none in
/// common.
pub fn select_base_asym_algo(local: u32, peer: u32) -> (r: SpdmResult<SpdmBaseAsymAlgo>)
    ensures
        r == match spec_select_base_asym_algo(local, peer) {
            Some(algo) => Ok::<SpdmBaseAsymAlgo, SpdmError>(algo),
            None => Err::<SpdmBaseAsymAlgo, SpdmError>(SpdmError::NegotiationFail),
        },
        r matches Ok(algo) ==> offers(local, algo.spec_bit()) && offers(peer, algo.spec_bit())
            && forall|other: SpdmBaseAsymAlgo|
            offers(local, other.spec_bit()) && offers(peer, other.spec_bit())
                ==> base_asym_preference(other) <= base_asym_preference(algo),
        r matches Err(e) ==> e == SpdmError::NegotiationFail && forall|other: SpdmBaseAsymAlgo|
            !(offers(local, other.spec_bit()) && offers(peer, other.spec_bit())),
{
    if mask_offers(local, 0x80) && mask_offers(peer, 0x80) {
        Ok(SpdmBaseAsymAlgo::TPM_ALG_ECDSA_ECC_NIST_P384)
    } else if mask_offers(local, 0x10) && mask_offers(peer, 0x10) {
        Ok(SpdmBaseAsymAlgo::TPM_ALG_ECDSA_ECC_NIST_P256)
    } else if mask_offers(local, 0x40) && mask_offers(peer, 0x40) {
        Ok(SpdmBaseAsymAlgo::TPM_ALG_RSAPSS_4096)
    } else if mask_offers(local, 0x8) && mask_offers(peer, 0x8) {
        Ok(SpdmBaseAsymAlgo::TPM_ALG_RSAPSS_3072)
    } else if mask_offers(local, 0x2) && mask_offers(peer, 0x2) {
        Ok(SpdmBaseAsymAlgo::TPM_ALG_RSAPSS_2048)
    } else if mask_offers(local, 0x20) && mask_offers(peer, 0x20) {
        Ok(SpdmBaseAsymAlgo::TPM_ALG_RSASSA_4096)
    } else if mask_offers(local, 0x4) && mask_offers(peer, 0x4) {
        Ok(SpdmBaseAsymAlgo::TPM_ALG_RSASSA_3072)
    } else if mask_offers(local, 0x1) && mask_offers(peer, 0x1) {
        Ok(SpdmBaseAsymAlgo::TPM_ALG_RSASSA_2048)
    } else {
        Err(SpdmError::NegotiationFail)
    }
}

/// The place of a key-agreement group in the order of preference: elliptic
/// curves before finite fields, and larger groups before smaller.
pub open spec fn dhe_preference(algo: SpdmDheAlgo) -> int {
    match algo {
        SpdmDheAlgo::SECP_521_R1 => 6,
        SpdmDheAlgo::SECP_384_R1 => 5,
        SpdmDheAlgo::SECP_256_R1 => 4,
        SpdmDheAlgo::FFDHE_4096 => 3,
        SpdmDheAlgo::FFDHE_3072 => 2,
        SpdmDheAlgo::FFDHE_2048 => 1,
    }
}

/// The most preferred algorithm that both masks offer, if there is one.
pub open spec fn spec_select_dhe_algo(local: u16, peer: u16) -> Option<SpdmDheAlgo> {
    if offers(local as u32, 0x20) && offers(peer as u32, 0x20) {
        Some(SpdmDheAlgo::SECP_521_R1)
    } else if offers(local as u32, 0x10) && offers(peer as u32, 0x10) {
        Some(SpdmDheAlgo::SECP_384_R1)
    } else if offers(local as u32, 0x8) && offers(peer as u32, 0x8) {
        Some(SpdmDheAlgo::SECP_256_R1)
    } else if offers(local as u32, 0x4) && offers(peer as u32, 0x4) {
        Some(SpdmDheAlgo::FFDHE_4096)
    } else if offers(local as u32, 0x2) && offers(peer as u32, 0x2) {
        Some(SpdmDheAlgo::FFDHE_3072)
    } else if offers(local as u32, 0x1) && offers(peer as u32, 0x1) {
        Some(SpdmDheAlgo::FFDHE_2048)
    } else {
        None
    }
}

/// The key-agreement group that both sides run: the most preferred that both
/// masks offer. Fails with `NegotiationFail` exactly where they offer none in
/// common.
pub fn select_dhe_algo(local: u16, peer: u16) -> (r: SpdmResult<SpdmDheAlgo>)
    ensures
        r == match spec_select_dhe_algo(local, peer) {
            Some(algo) => Ok::<SpdmDheAlgo, SpdmError>(algo),
            None => Err::<SpdmDheAlgo, SpdmError>(SpdmError::NegotiationFail),
        },
        r matches Ok(algo) ==> offers(local as u32, algo.spec_bit() as u32) && offers(
            peer as u32,
            algo.spec_bit() as u32,
        ) && forall|other: SpdmDheAlgo|
            offers(local as u32, other.spec_bit() as u32) && offers(
                peer as u32,
                other.spec_bit() as u32,
            ) ==> dhe_preference(other) <= dhe_preference(algo),
        r matches Err(e) ==> e == SpdmError::NegotiationFail && forall|other: SpdmDheAlgo|
            !(offers(local as u32, other.spec_bit() as u32) && offers(
                peer as u32,
                other.spec_bit() as u32,
            )),
{
    let local: u32 = local as u32;
    let peer: u32 = peer as u32;
    if mask_offers(local, 0x20) && mask_offers(peer, 0x20) {
        Ok(SpdmDheAlgo::SECP_521_R1)
    } else if mask_offers(local, 0x10) && mask_offers(peer, 0x10) {
        Ok(SpdmDheAlgo::SECP_384_R1)
    } else if mask_offers(local, 0x8) && mask_offers(peer, 0x8) {
        Ok(SpdmDheAlgo::SECP_256_R1)
    } else if mask_offers(local, 0x4) && mask_offers(peer, 0x4) {
        Ok(SpdmDheAlgo::FFDHE_4096)
    } else if mask_offers(local, 0x2) && mask_offers(peer, 0x2) {
        Ok(SpdmDheAlgo::FFDHE_3072)
    } else if mask_offers(local, 0x1) && mask_offers(peer, 0x1) {
        Ok(SpdmDheAlgo::FFDHE_2048)
    } else {
        Err(SpdmError::NegotiationFail)
    }
}

/// The place of a record cipher in the order of preference.
pub open spec fn aead_preference(algo: SpdmAeadAlgo) -> int {
    match algo {
        SpdmAeadAlgo::AES_256_GCM => 3,
        SpdmAeadAlgo::CHACHA20_POLY1305 => 2,
        SpdmAeadAlgo::AES_128_GCM => 1,
    }
}

/// The most preferred algorithm that both masks offer, if there is one.
pub open spec fn spec_select_aead_algo(local: u16, peer: u16) -> Option<SpdmAeadAlgo> {
    if offers(local as u32, 0x2) && offers(peer as u32, 0x2) {
        Some(SpdmAeadAlgo::AES_256_GCM)
    } else if offers(local as u32, 0x4) && offers(peer as u32, 0x4) {
        Some(SpdmAeadAlgo::CHACHA20_POLY1305)
    } else if offers(local as u32, 0x1) && offers(peer as u32, 0x1) {
        Some(SpdmAeadAlgo::AES_128_GCM)
    } else {
        None
    }
}

/// The record cipher that both sides run: the most preferred that both masks
/// offer. Fails with `NegotiationFail` exactly where they offer none in
/// common.
pub fn select_aead_algo(local: u16, peer: u16) -> (r: SpdmResult<SpdmAeadAlgo>)
    ensures
        r == match spec_select_aead_algo(local, peer) {
            Some(algo) => Ok::<SpdmAeadAlgo, SpdmError>(algo),
            None => Err::<SpdmAeadAlgo, SpdmError>(SpdmError::NegotiationFail),
        },
        r matches Ok(algo) ==> offers(local as u32, algo.spec_bit() as u32) && offers(
            peer as u32,
            algo.spec_bit() as u32,
        ) && forall|other: SpdmAeadAlgo|
            offers(local as u32, other.spec_bit() as u32) && offers(
                peer as u32,
                other.spec_bit() as u32,
            ) ==> aead_preference(other) <= aead_preference(algo),
        r matches Err(e) ==> e == SpdmError::NegotiationFail && forall|other: SpdmAeadAlgo|
            !(offers(local as u32, other.spec_bit() as u32) && offers(
                peer as u32,
                other.spec_bit() as u32,
            )),
{
    let local: u32 = local as u32;
    let peer: u32 = peer as u32;
    if mask_offers(local, 0x2) && mask_offers(peer, 0x2) {
        Ok(SpdmAeadAlgo::AES_256_GCM)
    } else if mask_offers(local, 0x4) && mask_offers(peer, 0x4) {
        Ok(SpdmAeadAlgo::CHACHA20_POLY1305)
    } else if mask_offers(local, 0x1) && mask_offers(peer, 0x1) {
        Ok(SpdmAeadAlgo::AES_128_GCM)
    } else {
        Err(SpdmError::NegotiationFail)
    }
}

/// The most preferred algorithm that both masks offer, if there is one.
pub open spec fn spec_select_measurement_hash_algo(local: u32, peer: u32) -> Option<SpdmMeasurementHashAlgo> {
    if offers(local, 0x8) && offers(peer, 0x8) {
        Some(SpdmMeasurementHashAlgo::TPM_ALG_SHA_512)
    } else if offers(local, 0x4) && offers(peer, 0x4) {
        Some(SpdmMeasurementHashAlgo::TPM_ALG_SHA_384)
    } else if offers(local, 0x2) && offers(peer, 0x2) {
        Some(SpdmMeasurementHashAlgo::TPM_ALG_SHA_256)
    } else if offers(local, 0x1) && offers(peer, 0x1) {
        Some(SpdmMeasurementHashAlgo::RAW_BIT_STREAM)
    } else {
        None
    }
}

/// The hash for measurements that both sides run: the strongest that both
/// masks offer, a raw bit stream last. Fails with
/// `NegotiationFail` exactly where they offer none in common.
pub fn select_measurement_hash_algo(local: u32, peer: u32) -> (r: SpdmResult<SpdmMeasurementHashAlgo>)
    ensures
        r == match spec_select_measurement_hash_algo(local, peer) {
            Some(algo) => Ok::<SpdmMeasurementHashAlgo, SpdmError>(algo),
            None => Err::<SpdmMeasurementHashAlgo, SpdmError>(SpdmError::NegotiationFail),
        },
        r matches Ok(algo) ==> offers(local, algo.spec_bit()) && offers(
            peer,
            algo.spec_bit(),
        ),
        r.is_err() ==> forall|other: SpdmMeasurementHashAlgo|
            !(offers(local, other.spec_bit()) && offers(peer, other.spec_bit())),
{
    if mask_offers(local, 0x8) && mask_offers(peer, 0x8) {
        Ok(SpdmMeasurementHashAlgo::TPM_ALG_SHA_512)
    } else if mask_offers(local, 0x4) && mask_offers(peer, 0x4) {
        Ok(SpdmMeasurementHashAlgo::TPM_ALG_SHA_384)
    } else if mask_offers(local, 0x2) && mask_offers(peer, 0x2) {
        Ok(SpdmMeasurementHashAlgo::TPM_ALG_SHA_256)
    } else if mask_offers(local, 0x1) && mask_offers(peer, 0x1) {
        Ok(SpdmMeasurementHashAlgo::RAW_BIT_STREAM)
    } else {
        Err(SpdmError::NegotiationFail)
    }
}

/// The most preferred algorithm that both masks offer, if there is one.
pub open spec fn spec_select_req_asym_algo(local: u16, peer: u16) -> Option<SpdmReqAsymAlgo> {
    if offers(local as u32, 0x80) && offers(peer as u32, 0x80) {
        Some(SpdmReqAsymAlgo::TPM_ALG_ECDSA_ECC_NIST_P384)
    } else if offers(local as u32, 0x10) && offers(peer as u32, 0x10) {
        Some(SpdmReqAsymAlgo::TPM_ALG_ECDSA_ECC_NIST_P256)
    } else if offers(local as u32, 0x40) && offers(peer as u32, 0x40) {
        Some(SpdmReqAsymAlgo::TPM_ALG_RSAPSS_4096)
    } else if offers(local as u32, 0x8) && offers(peer as u32, 0x8) {
        Some(SpdmReqAsymAlgo::TPM_ALG_RSAPSS_3072)
    } else if offers(local as u32, 0x2) && offers(peer as u32, 0x2) {
        Some(SpdmReqAsymAlgo::TPM_ALG_RSAPSS_2048)
    } else if offers(local as u32, 0x20) && offers(peer as u32, 0x20) {
        Some(SpdmReqAsymAlgo::TPM_ALG_RSASSA_4096)
    } else if offers(local as u32, 0x4) && offers(peer as u32, 0x4) {
        Some(SpdmReqAsymAlgo::TPM_ALG_RSASSA_3072)
    } else if offers(local as u32, 0x1) && offers(peer as u32, 0x1) {
        Some(SpdmReqAsymAlgo::TPM_ALG_RSASSA_2048)
    } else {
        None
    }
}

/// The signature algorithm of the requester that both sides run: the most
/// preferred that both masks offer, in the order of the responder's
/// signature algorithms. Fails with
/// `NegotiationFail` exactly where they offer none in common.
pub fn select_req_asym_algo(local: u16, peer: u16) -> (r: SpdmResult<SpdmReqAsymAlgo>)
    ensures
        r == match spec_select_req_asym_algo(local, peer) {
            Some(algo) => Ok::<SpdmReqAsymAlgo, SpdmError>(algo),
            None => Err::<SpdmReqAsymAlgo, SpdmError>(SpdmError::NegotiationFail),
        },
        r matches Ok(algo) ==> offers(local as u32, algo.spec_bit() as u32) && offers(
            peer as u32,
            algo.spec_bit() as u32,
        ),
        r.is_err() ==> forall|other: SpdmReqAsymAlgo|
            !(offers(local as u32, other.spec_bit() as u32) && offers(peer as u32, other.spec_bit() as u32)),
{
    let local: u32 = local as u32;
    let peer: u32 = peer as u32;
    if mask_offers(local, 0x80) && mask_offers(peer, 0x80) {
        Ok(SpdmReqAsymAlgo::TPM_ALG_ECDSA_ECC_NIST_P384)
    } else if mask_offers(local, 0x10) && mask_offers(peer, 0x10) {
        Ok(SpdmReqAsymAlgo::TPM_ALG_ECDSA_ECC_NIST_P256)
    } else if mask_offers(local, 0x40) && mask_offers(peer, 0x40) {
        Ok(SpdmReqAsymAlgo::TPM_ALG_RSAPSS_4096)
    } else if mask_offers(local, 0x8) && mask_offers(peer, 0x8) {
        Ok(SpdmReqAsymAlgo::TPM_ALG_RSAPSS_3072)
    } else if mask_offers(local, 0x2) && mask_offers(peer, 0x2) {
        Ok(SpdmReqAsymAlgo::TPM_ALG_RSAPSS_2048)
    } else if mask_offers(local, 0x20) && mask_offers(peer, 0x20) {
        Ok(SpdmReqAsymAlgo::TPM_ALG_RSASSA_4096)
    } else if mask_offers(local, 0x4) && mask_offers(peer, 0x4) {
        Ok(SpdmReqAsymAlgo::TPM_ALG_RSASSA_3072)
    } else if mask_offers(local, 0x1) && mask_offers(peer, 0x1) {
        Ok(SpdmReqAsymAlgo::TPM_ALG_RSASSA_2048)
    } else {
        Err(SpdmError::NegotiationFail)
    }
}

/// The most preferred algorithm that both masks offer, if there is one.
pub open spec fn spec_select_key_schedule_algo(local: u16, peer: u16) -> Option<SpdmKeyScheduleAlgo> {
    if offers(local as u32, 0x1) && offers(peer as u32, 0x1) {
        Some(SpdmKeyScheduleAlgo::SPDM_KEY_SCHEDULE)
    } else {
        None
    }
}

/// The key schedule that both sides run: the one that the protocol defines,
/// where both masks offer it. Fails with
/// `NegotiationFail` exactly where they offer none in common.
pub fn select_key_schedule_algo(local: u16, peer: u16) -> (r: SpdmResult<SpdmKeyScheduleAlgo>)
    ensures
        r == match spec_select_key_schedule_algo(local, peer) {
            Some(algo) => Ok::<SpdmKeyScheduleAlgo, SpdmError>(algo),
            None => Err::<SpdmKeyScheduleAlgo, SpdmError>(SpdmError::NegotiationFail),
        },
        r matches Ok(algo) ==> offers(local as u32, algo.spec_bit() as u32) && offers(
            peer as u32,
            algo.spec_bit() as u32,
        ),
        r.is_err() ==> forall|other: SpdmKeyScheduleAlgo|
            !(offers(local as u32, other.spec_bit() as u32) && offers(peer as u32, other.spec_bit() as u32)),
{
    let local: u32 = local as u32;
    let peer: u32 = peer as u32;
    if mask_offers(local, 0x1) && mask_offers(peer, 0x1) {
        Ok(SpdmKeyScheduleAlgo::SPDM_KEY_SCHEDULE)
    } else {
        Err(SpdmError::NegotiationFail)
    }
}

/// What one side offers: a bit mask for each kind of algorithm.
#[derive(Clone, Copy, Debug, PartialEq, Eq, Structural)]
pub struct SpdmAlgorithmOffer {
    pub base_hash_algo: u32,
    pub base_asym_algo: u32,
    pub measurement_hash_algo: u32,
    pub dhe_algo: u16,
    pub aead_algo: u16,
    pub req_asym_algo: u16,
    pub key_schedule_algo: u16,
}

/// What both sides run: one algorithm of each kind.
#[derive(Clone, Copy, Debug, PartialEq, Eq, Structural)]
pub struct SpdmAlgorithmSelection {
    pub base_hash_sel: SpdmBaseHashAlgo,
    pub base_asym_sel: SpdmBaseAsymAlgo,
    pub measurement_hash_sel: SpdmMeasurementHashAlgo,
    pub dhe_sel: SpdmDheAlgo,
    pub aead_sel: SpdmAeadAlgo,
    pub req_asym_sel: SpdmReqAsymAlgo,
    pub key_schedule_sel: SpdmKeyScheduleAlgo,
}

impl SpdmAlgorithmSelection {
    /// Every algorithm of the selection is in the offer.
    pub open spec fn offered_by(&self, offer: SpdmAlgorithmOffer) -> bool {
        &&& offers(offer.base_hash_algo, self.base_hash_sel.spec_bit())
        &&& offers(offer.base_asym_algo, self.base_asym_sel.spec_bit())
        &&& offers(offer.measurement_hash_algo, self.measurement_hash_sel.spec_bit())
        &&& offers(offer.dhe_algo as u32, self.dhe_sel.spec_bit() as u32)
        &&& offers(offer.aead_algo as u32, self.aead_sel.spec_bit() as u32)
        &&& offers(offer.req_asym_algo as u32, self.req_asym_sel.spec_bit() as u32)
        &&& offers(offer.key_schedule_algo as u32, self.key_schedule_sel.spec_bit() as u32)
    }
}

/// The algorithms that both sides run: of each kind the most preferred that
/// both offer; nothing where, for some kind, they offer none in common.
pub open spec fn spec_negotiate_algorithms(
    requester: SpdmAlgorithmOffer,
    responder: SpdmAlgorithmOffer,
) -> Option<SpdmAlgorithmSelection> {
    match (
        spec_select_base_hash_algo(requester.base_hash_algo, responder.base_hash_algo),
        spec_select_base_asym_algo(requester.base_asym_algo, responder.base_asym_algo),
        spec_select_measurement_hash_algo(
            requester.measurement_hash_algo,
            responder.measurement_hash_algo,
        ),
        spec_select_dhe_algo(requester.dhe_algo, responder.dhe_algo),
        spec_select_aead_algo(requester.aead_algo, responder.aead_algo),
        spec_select_req_asym_algo(requester.req_asym_algo, responder.req_asym_algo),
        spec_select_key_schedule_algo(requester.key_schedule_algo, responder.key_schedule_algo),
    ) {
        (
            Some(base_hash_sel),
            Some(base_asym_sel),
            Some(measurement_hash_sel),
            Some(dhe_sel),
            Some(aead_sel),
            Some(req_asym_sel),
            Some(key_schedule_sel),
        ) => Some(
            SpdmAlgorithmSelection {
                base_hash_sel,
                base_asym_sel,
                measurement_hash_sel,
                dhe_sel,
                aead_sel,
                req_asym_sel,
                key_schedule_sel,
            },
        ),
        _ => None,
    }
}

/// The algorithms that both sides run: of each kind, the hash, the signature
/// algorithms of responder and requester, the hash for measurements, the
/// key-agreement group, the record cipher and the key schedule, the most
/// preferred that both offer. Every one of them is in the offer of the
/// requester and in the offer of the responder. Fails with `NegotiationFail`
/// exactly where, for some kind, the offers have no algorithm in common.
pub fn negotiate_algorithms(requester: SpdmAlgorithmOffer, responder: SpdmAlgorithmOffer) -> (r:
    SpdmResult<SpdmAlgorithmSelection>)
    ensures
        r == match spec_negotiate_algorithms(requester, responder) {
            Some(selection) => Ok::<SpdmAlgorithmSelection, SpdmError>(selection),
            None => Err::<SpdmAlgorithmSelection, SpdmError>(SpdmError::NegotiationFail),
        },
        r matches Ok(selection) ==> selection.offered_by(requester) && selection.offered_by(
            responder,
        ),
{
    let base_hash_sel = select_base_hash_algo(requester.base_hash_algo, responder.base_hash_algo)?;
    let base_asym_sel = select_base_asym_algo(requester.base_asym_algo, responder.base_asym_algo)?;
    let measurement_hash_sel = select_measurement_hash_algo(
        requester.measurement_hash_algo,
        responder.measurement_hash_algo,
    )?;
    let dhe_sel = select_dhe_algo(requester.dhe_algo, responder.dhe_algo)?;
    let aead_sel = select_aead_algo(requester.aead_algo, responder.aead_algo)?;
    let req_asym_sel = select_req_asym_algo(requester.req_asym_algo, responder.req_asym_algo)?;
    let key_schedule_sel = select_key_schedule_algo(
        requester.key_schedule_algo,
        responder.key_schedule_algo,
    )?;
    Ok(
        SpdmAlgorithmSelection {
            base_hash_sel,
            base_asym_sel,
            measurement_hash_sel,
            dhe_sel,
            aead_sel,
            req_asym_sel,
            key_schedule_sel,
        },
    )
}

/// Whatever two sides offer, every algorithm that the negotiation selects is
/// in the offer of the one and in the offer of the other.
pub proof fn lemma_selection_is_offered(requester: SpdmAlgorithmOffer, responder: SpdmAlgorithmOffer)
    ensures
        spec_negotiate_algorithms(requester, responder) matches Some(selection)
            ==> selection.offered_by(requester) && selection.offered_by(responder),
{
}

} // verus!
