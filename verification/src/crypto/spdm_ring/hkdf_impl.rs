//! HKDF-Expand with SHA-2 by *ring*.

use crate::crypto::spdm_ring::RING_MAX_INPUT_LEN;
use crate::crypto::SpdmHkdf;
use crate::protocol::{SpdmBaseHashAlgo, SpdmDigestStruct};
use vstd::prelude::*;
use vstd::slice::slice_subrange;

verus! {

/// The keying material, as long as a digest, that `ring::hkdf::Prk::expand`
/// and `ring::hkdf::Okm::fill` give for the pseudo-random key `prk` and
/// `info`, with the SHA-2 algorithm whose digests have `digest_size` bytes;
/// nothing where they fail.
pub uninterp spec fn ring_hkdf_expand_value(digest_size: int, prk: Seq<u8>, info: Seq<u8>)
    -> Option<Seq<u8>>;

/// `ring::hkdf::Prk::new_less_safe`, `expand` for an output as long as a
/// digest, and `fill`. Assumed: there is a result, as `expand` refuses only
/// an output of more than 255 digests and `fill` only a buffer of another
/// length than was asked for; the result is the keying material named above,
/// and has the length of a digest. The first call panics on keys of 2^61
/// bytes and more, which the precondition leaves out.
#[verifier::external_body]
fn ring_hkdf_expand(hash_algo: SpdmBaseHashAlgo, prk: &[u8], info: &[u8]) -> (r: Option<Vec<u8>>)
    requires
        prk@.len() <= RING_MAX_INPUT_LEN,
        info@.len() <= RING_MAX_INPUT_LEN,
    ensures
        r.is_some(),
        r.is_some() == ring_hkdf_expand_value(hash_algo.spec_size() as int, prk@, info@).is_some(),
        r matches Some(okm) ==> Some(okm@) == ring_hkdf_expand_value(
            hash_algo.spec_size() as int,
            prk@,
            info@,
        ) && okm@.len() == hash_algo.spec_size(),
{
    let algorithm = match hash_algo {
        SpdmBaseHashAlgo::TPM_ALG_SHA_256 => ring::hkdf::HKDF_SHA256,
        SpdmBaseHashAlgo::TPM_ALG_SHA_384 => ring::hkdf::HKDF_SHA384,
        SpdmBaseHashAlgo::TPM_ALG_SHA_512 => ring::hkdf::HKDF_SHA512,
    };
    let mut okm = vec![0u8; ring::hkdf::KeyType::len(&algorithm)];
    let prk = ring::hkdf::Prk::new_less_safe(algorithm, prk);
    let info = [info];
    let material = prk.expand(&info, algorithm).ok()?;
    material.fill(&mut okm).ok()?;
    Some(okm)
}

/// The HKDF provider built on *ring*.
///
/// It expands to the length of a digest and hands out the first `out_size`
/// bytes: the output of HKDF-Expand for a shorter length is the start of its
/// output for a longer one. It serves no output longer than a digest.
#[derive(Clone, Copy, Debug)]
pub struct SpdmRingHkdf;

/// The HKDF provider built on *ring*.
pub const DEFAULT: SpdmRingHkdf = SpdmRingHkdf;

impl SpdmHkdf for SpdmRingHkdf {
    open spec fn hkdf_expand_value(
        &self,
        hash_algo: SpdmBaseHashAlgo,
        pk: Seq<u8>,
        info: Seq<u8>,
        out_size: u16,
    ) -> Option<SpdmDigestStruct> {
        if pk.len() == hash_algo.spec_size() && info.len() <= RING_MAX_INPUT_LEN && out_size
            <= hash_algo.spec_size() {
            match ring_hkdf_expand_value(hash_algo.spec_size() as int, pk, info) {
                Some(okm) => Some(SpdmDigestStruct::spec_from_bytes(okm.subrange(0, out_size as int))),
                None => None,
            }
        } else {
            None
        }
    }

    fn hkdf_expand(&self, hash_algo: SpdmBaseHashAlgo, pk: &[u8], info: &[u8], out_size: u16) -> (r:
        Option<SpdmDigestStruct>) {
        if pk.len() != hash_algo.get_size() as usize || info.len() > RING_MAX_INPUT_LEN || out_size
            > hash_algo.get_size() {
            return None;
        }
        match ring_hkdf_expand(hash_algo, pk, info) {
            Some(okm) => SpdmDigestStruct::from_bytes(
                slice_subrange(okm.as_slice(), 0, out_size as usize),
            ),
            None => None,
        }
    }
}

} // verus!
