//! Keyed MACs through the registered provider.

use crate::crypto::hash::{check_digest, checked_digest};
use crate::crypto::{ProviderSlot, SpdmHmac};
use crate::error::{SpdmError, SpdmResult};
use crate::protocol::{SpdmBaseHashAlgo, SpdmDigestStruct};
use vstd::prelude::*;

verus! {

/// What `hmac` returns: the provider's MAC where a provider is registered and
/// its MAC has the length of a digest.
pub open spec fn spec_hmac<P: SpdmHmac>(
    provider: Option<P>,
    base_hash_algo: SpdmBaseHashAlgo,
    key: Seq<u8>,
    data: Seq<u8>,
) -> Option<SpdmDigestStruct> {
    match provider {
        Some(p) => checked_digest(base_hash_algo, p.hmac_value(base_hash_algo, key, data)),
        None => None,
    }
}

/// What `hmac_verify` returns: the provider's verdict, or `Fault` without a
/// provider.
pub open spec fn spec_hmac_verify<P: SpdmHmac>(
    provider: Option<P>,
    base_hash_algo: SpdmBaseHashAlgo,
    key: Seq<u8>,
    data: Seq<u8>,
    hmac: SpdmDigestStruct,
) -> SpdmResult {
    match provider {
        Some(p) => p.hmac_verify_value(base_hash_algo, key, data, hmac),
        None => Err(SpdmError::Fault),
    }
}

/// Registers the HMAC provider. Returns `true` for the first one and `false`,
/// with the slot unchanged, for every later one.
pub fn register<P: SpdmHmac>(slot: &mut ProviderSlot<P>, context: P) -> (ok: bool)
    ensures
        ok == old(slot).provider().is_none(),
        ok ==> final(slot).provider() == Some(context),
        !ok ==> final(slot).provider() == old(slot).provider(),
{
    slot.register(context)
}

/// MAC of `data` under `key`.
pub fn hmac<P: SpdmHmac>(
    slot: &ProviderSlot<P>,
    base_hash_algo: SpdmBaseHashAlgo,
    key: &[u8],
    data: &[u8],
) -> (r: Option<SpdmDigestStruct>)
    ensures
        r == spec_hmac(slot.provider(), base_hash_algo, key@, data@),
        r matches Some(d) ==> d.wf() && d@.len() == base_hash_algo.spec_size(),
{
    match slot.get() {
        Some(p) => check_digest(base_hash_algo, p.hmac(base_hash_algo, key, data)),
        None => None,
    }
}

/// Checks `hmac` against the MAC of `data` under `key`.
pub fn hmac_verify<P: SpdmHmac>(
    slot: &ProviderSlot<P>,
    base_hash_algo: SpdmBaseHashAlgo,
    key: &[u8],
    data: &[u8],
    hmac: &SpdmDigestStruct,
) -> (r: SpdmResult)
    ensures
        r == spec_hmac_verify(slot.provider(), base_hash_algo, key@, data@, *hmac),
{
    match slot.get() {
        Some(p) => p.hmac_verify(base_hash_algo, key, data, hmac),
        None => Err(SpdmError::Fault),
    }
}

} // verus!
