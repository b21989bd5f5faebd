//! Signature verification through the registered provider.

use crate::crypto::{ProviderSlot, SpdmAsymVerify};
use crate::error::{SpdmError, SpdmResult};
use crate::protocol::{SpdmBaseAsymAlgo, SpdmBaseHashAlgo, SpdmSignatureStruct};
use vstd::prelude::*;

verus! {

/// What `verify` returns: the provider's verdict, or `Fault` without a
/// provider.
pub open spec fn spec_verify<P: SpdmAsymVerify>(
    provider: Option<P>,
    base_hash_algo: SpdmBaseHashAlgo,
    base_asym_algo: SpdmBaseAsymAlgo,
    public_cert_der: Seq<u8>,
    data: Seq<u8>,
    signature: SpdmSignatureStruct,
) -> SpdmResult {
    match provider {
        Some(p) => p.verify_value(base_hash_algo, base_asym_algo, public_cert_der, data, signature),
        None => Err(SpdmError::Fault),
    }
}

/// Registers the verification provider unless one is registered already, and
/// returns `true` either way: afterwards the slot holds a provider.
pub fn register<P: SpdmAsymVerify>(slot: &mut ProviderSlot<P>, context: P) -> (ok: bool)
    ensures
        ok,
        old(slot).provider().is_none() ==> final(slot).provider() == Some(context),
        old(slot).provider().is_some() ==> final(slot).provider() == old(slot).provider(),
{
    let _ = slot.register(context);
    true
}

/// Checks `signature` over `data` with the key in `public_cert_der`.
pub fn verify<P: SpdmAsymVerify>(
    slot: &ProviderSlot<P>,
    base_hash_algo: SpdmBaseHashAlgo,
    base_asym_algo: SpdmBaseAsymAlgo,
    public_cert_der: &[u8],
    data: &[u8],
    signature: &SpdmSignatureStruct,
) -> (r: SpdmResult)
    ensures
        r == spec_verify(
            slot.provider(),
            base_hash_algo,
            base_asym_algo,
            public_cert_der@,
            data@,
            *signature,
        ),
{
    match slot.get() {
        Some(p) => p.verify(base_hash_algo, base_asym_algo, public_cert_der, data, signature),
        None => Err(SpdmError::Fault),
    }
}

} // verus!
