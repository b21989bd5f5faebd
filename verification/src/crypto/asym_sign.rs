//! Signing through the registered provider.

use crate::crypto::{ProviderSlot, SpdmAsymSign};
use crate::protocol::{SpdmBaseAsymAlgo, SpdmBaseHashAlgo, SpdmSignatureStruct};
use vstd::prelude::*;

verus! {

/// Registers the signing provider. Returns `true` for the first one and
/// `false`, with the slot unchanged, for every later one.
pub fn register<P: SpdmAsymSign>(slot: &mut ProviderSlot<P>, context: P) -> (ok: bool)
    ensures
        ok == old(slot).provider().is_none(),
        ok ==> final(slot).provider() == Some(context),
        !ok ==> final(slot).provider() == old(slot).provider(),
{
    slot.register(context)
}

/// Hands a signature on if it has the length that `base_asym_algo` calls for.
pub fn check_signature(base_asym_algo: SpdmBaseAsymAlgo, signature: Option<SpdmSignatureStruct>)
    -> (r: Option<SpdmSignatureStruct>)
    ensures
        r.is_some() <==> (signature matches Some(s) && s.data_size == base_asym_algo.spec_size()),
        r.is_some() ==> r == signature,
        r matches Some(s) ==> s.wf() && s@.len() == base_asym_algo.spec_size(),
{
    match signature {
        Some(s) => if s.data_size == base_asym_algo.get_size() {
            Some(s)
        } else {
            None
        },
        None => None,
    }
}

/// Signature over `data`: whatever the provider returns, if it has the length
/// that `base_asym_algo` calls for; nothing without a provider.
pub fn sign<P: SpdmAsymSign>(
    slot: &ProviderSlot<P>,
    base_hash_algo: SpdmBaseHashAlgo,
    base_asym_algo: SpdmBaseAsymAlgo,
    data: &[u8],
) -> (r: Option<SpdmSignatureStruct>)
    ensures
        slot.provider().is_none() ==> r.is_none(),
        r matches Some(s) ==> s.wf() && s@.len() == base_asym_algo.spec_size(),
{
    match slot.get() {
        Some(p) => check_signature(base_asym_algo, p.sign(base_hash_algo, base_asym_algo, data)),
        None => None,
    }
}

} // verus!
