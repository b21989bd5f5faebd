//! Certificate-chain operations through the registered provider.

use crate::crypto::{ProviderSlot, SpdmCertOperation};
use crate::error::{SpdmError, SpdmResult};
use vstd::prelude::*;

verus! {

/// A pair of offsets as it is handed on: one that lies within a chain of
/// `chain_len` bytes, anything else counts as `InvalidCertChain`.
pub open spec fn checked_cert_range(chain_len: nat, range: SpdmResult<(usize, usize)>)
    -> SpdmResult<(usize, usize)> {
    match range {
        Ok((start, end)) => if start <= end && end <= chain_len {
            Ok((start, end))
        } else {
            Err(SpdmError::InvalidCertChain)
        },
        Err(e) => Err(e),
    }
}

/// What `get_cert_from_cert_chain` returns: the provider's answer, checked
/// against the length of the chain, or `Fault` without a provider.
pub open spec fn spec_get_cert_from_cert_chain<P: SpdmCertOperation>(
    provider: Option<P>,
    cert_chain: Seq<u8>,
    index: isize,
) -> SpdmResult<(usize, usize)> {
    match provider {
        Some(p) => checked_cert_range(
            cert_chain.len(),
            p.get_cert_from_cert_chain_value(cert_chain, index),
        ),
        None => Err(SpdmError::Fault),
    }
}

/// What `verify_cert_chain` returns: the provider's verdict, or `Fault`
/// without a provider.
pub open spec fn spec_verify_cert_chain<P: SpdmCertOperation>(
    provider: Option<P>,
    cert_chain: Seq<u8>,
) -> SpdmResult {
    match provider {
        Some(p) => p.verify_cert_chain_value(cert_chain),
        None => Err(SpdmError::Fault),
    }
}

/// Registers the certificate provider. Returns `true` for the first one and
/// `false`, with the slot unchanged, for every later one.
pub fn register<P: SpdmCertOperation>(slot: &mut ProviderSlot<P>, context: P) -> (ok: bool)
    ensures
        ok == old(slot).provider().is_none(),
        ok ==> final(slot).provider() == Some(context),
        !ok ==> final(slot).provider() == old(slot).provider(),
{
    slot.register(context)
}

/// Hands a pair of offsets on if it lies within a chain of `chain_len` bytes.
pub fn check_cert_range(chain_len: usize, range: SpdmResult<(usize, usize)>) -> (r: SpdmResult<
    (usize, usize),
>)
    ensures
        r == checked_cert_range(chain_len as nat, range),
        r matches Ok((start, end)) ==> start <= end <= chain_len,
{
    match range {
        Ok((start, end)) => if start <= end && end <= chain_len {
            Ok((start, end))
        } else {
            Err(SpdmError::InvalidCertChain)
        },
        Err(e) => Err(e),
    }
}

/// Start and end offset of the certificate at `index` in `cert_chain`; the
/// index -1 stands for the last one.
pub fn get_cert_from_cert_chain<P: SpdmCertOperation>(
    slot: &ProviderSlot<P>,
    cert_chain: &[u8],
    index: isize,
) -> (r: SpdmResult<(usize, usize)>)
    ensures
        r == spec_get_cert_from_cert_chain(slot.provider(), cert_chain@, index),
        r matches Ok((start, end)) ==> start <= end <= cert_chain@.len(),
{
    match slot.get() {
        Some(p) => check_cert_range(cert_chain.len(), p.get_cert_from_cert_chain(cert_chain, index)),
        None => Err(SpdmError::Fault),
    }
}

/// Checks that each certificate of `cert_chain` is signed by the one before
/// it.
pub fn verify_cert_chain<P: SpdmCertOperation>(slot: &ProviderSlot<P>, cert_chain: &[u8]) -> (r:
    SpdmResult)
    ensures
        r == spec_verify_cert_chain(slot.provider(), cert_chain@),
{
    match slot.get() {
        Some(p) => p.verify_cert_chain(cert_chain),
        None => Err(SpdmError::Fault),
    }
}

} // verus!
