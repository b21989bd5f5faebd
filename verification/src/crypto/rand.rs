//! Random bytes through the registered provider.

use crate::crypto::{ProviderSlot, SpdmCryptoRandom};
use crate::error::{SpdmError, SpdmResult};
use vstd::prelude::*;

verus! {

/// Registers the random-number provider. Returns `true` for the first one and
/// `false`, with the slot unchanged, for every later one.
pub fn register<P: SpdmCryptoRandom>(slot: &mut ProviderSlot<P>, context: P) -> (ok: bool)
    ensures
        ok == old(slot).provider().is_none(),
        ok ==> final(slot).provider() == Some(context),
        !ok ==> final(slot).provider() == old(slot).provider(),
{
    slot.register(context)
}

/// Hands on the number of bytes that a provider says it wrote into a buffer of
/// `capacity` bytes, or `Fault` where it claims more than the buffer holds.
pub fn check_random_count(capacity: usize, count: SpdmResult<usize>) -> (r: SpdmResult<usize>)
    ensures
        r == match count {
            Ok(n) => if n <= capacity {
                Ok(n)
            } else {
                Err(SpdmError::Fault)
            },
            Err(e) => Err(e),
        },
{
    match count {
        Ok(n) => if n <= capacity {
            Ok(n)
        } else {
            Err(SpdmError::Fault)
        },
        Err(e) => Err(e),
    }
}

/// Fills `data` with random bytes and reports how many were written: never
/// more than `data` holds. Without a provider `data` stays as it is and the
/// result is `Fault`.
pub fn get_random<P: SpdmCryptoRandom>(slot: &ProviderSlot<P>, data: &mut [u8]) -> (r: SpdmResult<
    usize,
>)
    ensures
        final(data)@.len() == old(data)@.len(),
        slot.provider().is_none() ==> r == Err::<usize, SpdmError>(SpdmError::Fault) && final(data)@
            == old(data)@,
        r matches Ok(n) ==> n <= old(data)@.len(),
{
    match slot.get() {
        Some(p) => {
            let capacity: usize = data.len();
            let count = p.get_random(data);
            check_random_count(capacity, count)
        },
        None => Err(SpdmError::Fault),
    }
}

} // verus!
