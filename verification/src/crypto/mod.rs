//! The registry of crypto providers and the entry points through which the
//! rest of the library reaches them.
//!
//! There is one slot per kind of primitive. A slot is written once, when the
//! connection is set up, and only read after that.

pub mod aead;
pub mod asym_sign;
pub mod asym_verify;
pub mod cert_operation;
pub mod crypto_callbacks;
pub mod dhe;
pub mod hash;
pub mod hkdf;
pub mod hmac;
pub mod rand;
pub mod spdm_ring;

pub use crypto_callbacks::{
    SpdmAead, SpdmAsymSign, SpdmAsymVerify,
    SpdmCertOperation, SpdmCryptoRandom, SpdmDhe, SpdmDheKeyExchange, SpdmHash, SpdmHkdf, SpdmHmac,
};

use vstd::prelude::*;

verus! {

/// A slot that holds at most one provider and never replaces it.
pub struct ProviderSlot<P> {
    provider: Option<P>,
}

impl<P> ProviderSlot<P> {
    /// The provider in the slot, if one was registered.
    pub closed spec fn provider(&self) -> Option<P> {
        self.provider
    }

    /// An empty slot.
    pub fn empty() -> (slot: ProviderSlot<P>)
        ensures
            slot.provider().is_none(),
    {
        ProviderSlot { provider: None }
    }

    /// Tells whether a provider was registered.
    pub fn is_registered(&self) -> (b: bool)
        ensures
            b == self.provider().is_some(),
    {
        self.provider.is_some()
    }

    /// Puts `context` into the slot if it is empty. Says whether it did.
    pub fn register(&mut self, context: P) -> (ok: bool)
        ensures
            ok == old(self).provider().is_none(),
            ok ==> final(self).provider() == Some(context),
            !ok ==> final(self).provider() == old(self).provider(),
    {
        if self.provider.is_none() {
            self.provider = Some(context);
            true
        } else {
            false
        }
    }

    /// The provider in the slot, if one was registered.
    pub fn get(&self) -> (r: Option<&P>)
        ensures
            r.is_some() == self.provider().is_some(),
            r matches Some(p) ==> self.provider() == Some(*p),
    {
        self.provider.as_ref()
    }
}

} // verus!
