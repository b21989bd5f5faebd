//! HMAC with SHA-2 by *ring*.

use crate::crypto::spdm_ring::RING_MAX_INPUT_LEN;
use crate::crypto::SpdmHmac;
use crate::error::{SpdmError, SpdmResult};
use crate::protocol::{SpdmBaseHashAlgo, SpdmDigestStruct};
use vstd::prelude::*;

verus! {

/// The MAC that `ring::hmac::sign` computes of `data` under `key` with the
/// SHA-2 algorithm whose digests have `digest_size` bytes.
pub uninterp spec fn ring_hmac_value(digest_size: int, key: Seq<u8>, data: Seq<u8>) -> Seq<u8>;

/// `ring::hmac::sign` with a `ring::hmac::Key::new` of `key`. Assumed: the
/// result is the MAC named above and has the length of a digest. Both calls
/// panic on inputs of 2^61 bytes and more, which the precondition leaves out.
#[verifier::external_body]
fn ring_hmac_sign(base_hash_algo: SpdmBaseHashAlgo, key: &[u8], data: &[u8]) -> (r: Vec<u8>)
    requires
        key@.len() <= RING_MAX_INPUT_LEN,
        data@.len() <= RING_MAX_INPUT_LEN,
    ensures
        r@ == ring_hmac_value(base_hash_algo.spec_size() as int, key@, data@),
        r@.len() == base_hash_algo.spec_size(),
{
    let algorithm = match base_hash_algo {
        SpdmBaseHashAlgo::TPM_ALG_SHA_256 => ring::hmac::HMAC_SHA256,
        SpdmBaseHashAlgo::TPM_ALG_SHA_384 => ring::hmac::HMAC_SHA384,
        SpdmBaseHashAlgo::TPM_ALG_SHA_512 => ring::hmac::HMAC_SHA512,
    };
    let key = ring::hmac::Key::new(algorithm, key);
    ring::hmac::sign(&key, data).as_ref().to_vec()
}

/// `ring::hmac::verify` with a `ring::hmac::Key::new` of `key`. Assumed, as
/// its documentation says: it succeeds exactly where the MAC that
/// `ring::hmac::sign` computes equals `tag`.
#[verifier::external_body]
fn ring_hmac_verify(base_hash_algo: SpdmBaseHashAlgo, key: &[u8], data: &[u8], tag: &[u8]) -> (r:
    bool)
    requires
        key@.len() <= RING_MAX_INPUT_LEN,
        data@.len() <= RING_MAX_INPUT_LEN,
    ensures
        r == (ring_hmac_value(base_hash_algo.spec_size() as int, key@, data@) == tag@),
{
    let algorithm = match base_hash_algo {
        SpdmBaseHashAlgo::TPM_ALG_SHA_256 => ring::hmac::HMAC_SHA256,
        SpdmBaseHashAlgo::TPM_ALG_SHA_384 => ring::hmac::HMAC_SHA384,
        SpdmBaseHashAlgo::TPM_ALG_SHA_512 => ring::hmac::HMAC_SHA512,
    };
    let key = ring::hmac::Key::new(algorithm, key);
    ring::hmac::verify(&key, data, tag).is_ok()
}

/// The HMAC provider built on *ring*.
#[derive(Clone, Copy, Debug)]
pub struct SpdmRingHmac;

/// The HMAC provider built on *ring*.
pub const DEFAULT: SpdmRingHmac = SpdmRingHmac;

impl SpdmHmac for SpdmRingHmac {
    open spec fn hmac_value(&self, base_hash_algo: SpdmBaseHashAlgo, key: Seq<u8>, data: Seq<u8>)
        -> Option<SpdmDigestStruct> {
        if key.len() <= RING_MAX_INPUT_LEN && data.len() <= RING_MAX_INPUT_LEN {
            Some(
                SpdmDigestStruct::spec_from_bytes(
                    ring_hmac_value(base_hash_algo.spec_size() as int, key, data),
                ),
            )
        } else {
            None
        }
    }

    open spec fn hmac_verify_value(
        &self,
        base_hash_algo: SpdmBaseHashAlgo,
        key: Seq<u8>,
        data: Seq<u8>,
        hmac: SpdmDigestStruct,
    ) -> SpdmResult {
        if key.len() <= RING_MAX_INPUT_LEN && data.len() <= RING_MAX_INPUT_LEN && hmac.wf()
            && ring_hmac_value(base_hash_algo.spec_size() as int, key, data) == hmac@ {
            Ok(())
        } else {
            Err(SpdmError::InvalidMac)
        }
    }

    fn hmac(&self, base_hash_algo: SpdmBaseHashAlgo, key: &[u8], data: &[u8]) -> (r: Option<
        SpdmDigestStruct,
    >) {
        if key.len() > RING_MAX_INPUT_LEN || data.len() > RING_MAX_INPUT_LEN {
            return None;
        }
        let tag = ring_hmac_sign(base_hash_algo, key, data);
        SpdmDigestStruct::from_bytes(tag.as_slice())
    }

    fn hmac_verify(
        &self,
        base_hash_algo: SpdmBaseHashAlgo,
        key: &[u8],
        data: &[u8],
        hmac: &SpdmDigestStruct,
    ) -> (r: SpdmResult) {
        if key.len() > RING_MAX_INPUT_LEN || data.len() > RING_MAX_INPUT_LEN || hmac.data_size
            > 64 {
            return Err(SpdmError::InvalidMac);
        }
        if ring_hmac_verify(base_hash_algo, key, data, hmac.as_ref()) {
            Ok(())
        } else {
            Err(SpdmError::InvalidMac)
        }
    }
}

} // verus!
