//! Hashing through the registered provider.

use crate::crypto::{ProviderSlot, SpdmHash};
use crate::protocol::{SpdmBaseHashAlgo, SpdmDigestStruct};
use vstd::prelude::*;

verus! {

/// A digest as it is handed on: one of the length that `base_hash_algo` calls
/// for, anything else counts as a failure.
pub open spec fn checked_digest(base_hash_algo: SpdmBaseHashAlgo, digest: Option<SpdmDigestStruct>)
    -> Option<SpdmDigestStruct> {
    match digest {
        Some(d) => if d.data_size == base_hash_algo.spec_size() {
            Some(d)
        } else {
            None
        },
        None => None,
    }
}

/// What `hash_all` returns: the provider's digest where a provider is
/// registered and its digest has the right length.
pub open spec fn spec_hash_all<P: SpdmHash>(
    provider: Option<P>,
    base_hash_algo: SpdmBaseHashAlgo,
    data: Seq<u8>,
) -> Option<SpdmDigestStruct> {
    match provider {
        Some(p) => checked_digest(base_hash_algo, p.hash_all_value(base_hash_algo, data)),
        None => None,
    }
}

/// Registers the hash provider. Returns `true` for the first one and `false`,
/// with the slot unchanged, for every later one.
pub fn register<P: SpdmHash>(slot: &mut ProviderSlot<P>, context: P) -> (ok: bool)
    ensures
        ok == old(slot).provider().is_none(),
        ok ==> final(slot).provider() == Some(context),
        !ok ==> final(slot).provider() == old(slot).provider(),
{
    slot.register(context)
}

/// Hands a digest on if it has the length that `base_hash_algo` calls for.
pub fn check_digest(base_hash_algo: SpdmBaseHashAlgo, digest: Option<SpdmDigestStruct>) -> (r:
    Option<SpdmDigestStruct>)
    ensures
        r == checked_digest(base_hash_algo, digest),
        r matches Some(d) ==> d.wf() && d@.len() == base_hash_algo.spec_size(),
{
    match digest {
        Some(d) => if d.data_size == base_hash_algo.get_size() {
            Some(d)
        } else {
            None
        },
        None => None,
    }
}

/// Digest of `data`.
pub fn hash_all<P: SpdmHash>(slot: &ProviderSlot<P>, base_hash_algo: SpdmBaseHashAlgo, data: &[u8])
    -> (r: Option<SpdmDigestStruct>)
    ensures
        r == spec_hash_all(slot.provider(), base_hash_algo, data@),
        r matches Some(d) ==> d.wf() && d@.len() == base_hash_algo.spec_size(),
{
    match slot.get() {
        Some(p) => check_digest(base_hash_algo, p.hash_all(base_hash_algo, data)),
        None => None,
    }
}

/// Whether `hash_ctx_init` gives a running hash: where a provider is
/// registered and gives one for the algorithm.
pub open spec fn spec_hash_ctx_init<P: SpdmHash>(
    provider: Option<P>,
    base_hash_algo: SpdmBaseHashAlgo,
) -> bool {
    match provider {
        Some(p) => p.hash_ctx_init_value(base_hash_algo),
        None => false,
    }
}

/// What `hash_ctx_update` returns: whether the provider's running hash takes
/// `data`; `false` without a provider.
pub open spec fn spec_hash_ctx_update<P: SpdmHash>(
    provider: Option<P>,
    ctx: &P::HashCtx,
    data: Seq<u8>,
) -> bool {
    match provider {
        Some(p) => p.hash_ctx_update_value(ctx, data),
        None => false,
    }
}

/// A running hash that has been fed nothing; none without a provider, or
/// where the provider gives none for the algorithm.
pub fn hash_ctx_init<P: SpdmHash>(slot: &ProviderSlot<P>, base_hash_algo: SpdmBaseHashAlgo) -> (r:
    Option<P::HashCtx>)
    ensures
        r.is_some() == spec_hash_ctx_init(slot.provider(), base_hash_algo),
        r matches Some(ctx) ==> P::ctx_algo(&ctx) == base_hash_algo && P::ctx_data(&ctx)
            == Seq::<u8>::empty(),
{
    match slot.get() {
        Some(p) => p.hash_ctx_init(base_hash_algo),
        None => None,
    }
}

/// Feeds `data` to a running hash. Says whether it did: without a provider,
/// or where the provider cannot take `data`, `ctx` stays as it is.
pub fn hash_ctx_update<P: SpdmHash>(slot: &ProviderSlot<P>, ctx: &mut P::HashCtx, data: &[u8]) -> (ok:
    bool)
    ensures
        ok == spec_hash_ctx_update(slot.provider(), old(ctx), data@),
        P::ctx_algo(final(ctx)) == P::ctx_algo(old(ctx)),
        ok ==> P::ctx_data(final(ctx)) == P::ctx_data(old(ctx)) + data@,
        !ok ==> P::ctx_data(final(ctx)) == P::ctx_data(old(ctx)),
{
    match slot.get() {
        Some(p) => p.hash_ctx_update(ctx, data),
        None => false,
    }
}

/// A second running hash in the state of `ctx`; none without a provider.
pub fn hash_ctx_fork<P: SpdmHash>(slot: &ProviderSlot<P>, ctx: &P::HashCtx) -> (r: Option<
    P::HashCtx,
>)
    ensures
        r.is_some() == slot.provider().is_some(),
        r matches Some(fork) ==> P::ctx_algo(&fork) == P::ctx_algo(ctx) && P::ctx_data(&fork)
            == P::ctx_data(ctx),
{
    match slot.get() {
        Some(p) => Some(p.hash_ctx_fork(ctx)),
        None => None,
    }
}

/// Digest of everything that was fed to `ctx`: what `hash_all` returns for
/// the algorithm of `ctx` and the same bytes, however they were split over
/// the updates.
pub fn hash_ctx_finalize<P: SpdmHash>(slot: &ProviderSlot<P>, ctx: P::HashCtx) -> (r: Option<
    SpdmDigestStruct,
>)
    ensures
        r == spec_hash_all(slot.provider(), P::ctx_algo(&ctx), P::ctx_data(&ctx)),
        r matches Some(d) ==> d.wf() && d@.len() == P::ctx_algo(&ctx).spec_size(),
{
    match slot.get() {
        Some(p) => {
            let base_hash_algo = p.hash_ctx_algo(&ctx);
            check_digest(base_hash_algo, p.hash_ctx_finalize(ctx))
        },
        None => None,
    }
}

} // verus!
