//! Random bytes by *ring*.

use crate::crypto::SpdmCryptoRandom;
use crate::error::{SpdmError, SpdmResult};
use vstd::prelude::*;

verus! {

/// `ring::rand::SecureRandom::fill` of a `ring::rand::SystemRandom`. Nothing
/// is assumed of the bytes; the result says whether the call succeeded.
#[verifier::external_body]
fn ring_fill(data: &mut [u8]) -> (ok: bool)
    ensures
        final(data)@.len() == old(data)@.len(),
{
    ring::rand::SecureRandom::fill(&ring::rand::SystemRandom::new(), data).is_ok()
}

/// The random-number provider built on *ring*.
#[derive(Clone, Copy, Debug)]
pub struct SpdmRingRandom;

/// The random-number provider built on *ring*.
pub const DEFAULT: SpdmRingRandom = SpdmRingRandom;

impl SpdmCryptoRandom for SpdmRingRandom {
    fn get_random(&self, data: &mut [u8]) -> (r: SpdmResult<usize>)
        ensures
            r matches Ok(n) ==> n == old(data)@.len(),
    {
        let length: usize = data.len();
        if ring_fill(data) {
            Ok(length)
        } else {
            Err(SpdmError::Fault)
        }
    }
}

} // verus!
