//! HKDF-Expand through the registered provider.

use crate::crypto::{ProviderSlot, SpdmHkdf};
use crate::protocol::{SpdmBaseHashAlgo, SpdmDigestStruct};
use vstd::prelude::*;

verus! {

/// Keying material as it is handed on: of exactly `out_size` bytes, anything
/// else counts as a failure.
pub open spec fn checked_okm(out_size: u16, okm: Option<SpdmDigestStruct>) -> Option<
    SpdmDigestStruct,
> {
    match okm {
        Some(d) => if d.data_size == out_size && out_size <= 64 {
            Some(d)
        } else {
            None
        },
        None => None,
    }
}

/// What `hkdf_expand` returns: the provider's keying material where a provider
/// is registered and the material has the length that was asked for.
pub open spec fn spec_hkdf_expand<P: SpdmHkdf>(
    provider: Option<P>,
    hash_algo: SpdmBaseHashAlgo,
    pk: Seq<u8>,
    info: Seq<u8>,
    out_size: u16,
) -> Option<SpdmDigestStruct> {
    match provider {
        Some(p) => checked_okm(out_size, p.hkdf_expand_value(hash_algo, pk, info, out_size)),
        None => None,
    }
}

/// Registers the HKDF provider. Returns `true` for the first one and `false`,
/// with the slot unchanged, for every later one.
pub fn register<P: SpdmHkdf>(slot: &mut ProviderSlot<P>, context: P) -> (ok: bool)
    ensures
        ok == old(slot).provider().is_none(),
        ok ==> final(slot).provider() == Some(context),
        !ok ==> final(slot).provider() == old(slot).provider(),
{
    slot.register(context)
}

/// `out_size` bytes of keying material expanded from the pseudo-random key
/// `pk` and `info`.
pub fn hkdf_expand<P: SpdmHkdf>(
    slot: &ProviderSlot<P>,
    hash_algo: SpdmBaseHashAlgo,
    pk: &[u8],
    info: &[u8],
    out_size: u16,
) -> (r: Option<SpdmDigestStruct>)
    ensures
        r == spec_hkdf_expand(slot.provider(), hash_algo, pk@, info@, out_size),
        r matches Some(d) ==> d.wf() && d@.len() == out_size,
{
    match slot.get() {
        Some(p) => match p.hkdf_expand(hash_algo, pk, info, out_size) {
            Some(d) => if d.data_size == out_size && out_size <= 64 {
                Some(d)
            } else {
                None
            },
            None => None,
        },
        None => None,
    }
}

} // verus!
