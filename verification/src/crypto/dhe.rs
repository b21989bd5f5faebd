//! Ephemeral key agreement through the registered provider.

use crate::crypto::{ProviderSlot, SpdmDhe};
use crate::protocol::{SpdmDheAlgo, SpdmDheExchangeStruct};
use vstd::prelude::*;

verus! {

/// Registers the key-agreement provider. Returns `true` for the first one and
/// `false`, with the slot unchanged, for every later one.
pub fn register<P: SpdmDhe>(slot: &mut ProviderSlot<P>, context: P) -> (ok: bool)
    ensures
        ok == old(slot).provider().is_none(),
        ok ==> final(slot).provider() == Some(context),
        !ok ==> final(slot).provider() == old(slot).provider(),
{
    slot.register(context)
}

/// Hands a key pair on if its public key has the length that `dhe_algo` calls
/// for.
pub fn check_key_pair<K>(dhe_algo: SpdmDheAlgo, pair: Option<(SpdmDheExchangeStruct, K)>) -> (r:
    Option<(SpdmDheExchangeStruct, K)>)
    ensures
        r.is_some() <==> (pair matches Some(p) && p.0.data_size == dhe_algo.spec_size()),
        r.is_some() ==> r == pair,
        r matches Some(p) ==> p.0.wf() && p.0@.len() == dhe_algo.spec_size(),
{
    match pair {
        Some((public, private)) => if public.data_size == dhe_algo.get_size() {
            Some((public, private))
        } else {
            None
        },
        None => None,
    }
}

/// A fresh key pair: whatever the provider returns, if its public key has the
/// length that `dhe_algo` calls for; nothing without a provider.
pub fn generate_key_pair<P: SpdmDhe>(slot: &ProviderSlot<P>, dhe_algo: SpdmDheAlgo) -> (r: Option<
    (SpdmDheExchangeStruct, P::KeyExchange),
>)
    ensures
        slot.provider().is_none() ==> r.is_none(),
        r matches Some(p) ==> p.0.wf() && p.0@.len() == dhe_algo.spec_size(),
{
    match slot.get() {
        Some(p) => check_key_pair(dhe_algo, p.generate_key_pair(dhe_algo)),
        None => None,
    }
}

} // verus!
