//! The capabilities that a crypto provider offers to the library.
//!
//! The library computes no primitive itself. Each kind of primitive is a
//! trait, and a connection is given one implementation of each. Where a
//! primitive is a function of its arguments, the trait names that function
//! (`..._value`), so that contracts can say which call produced a result.
//! Nothing else is assumed of a provider: the callers in the sibling modules
//! check what comes back before they hand it on.
//!
//! A provider states what its `..._value` functions are where it can. One
//! that does not, such as a provider written in ordinary Rust, leaves them at
//! their default: some function of the provider and the arguments, of which
//! nothing more is known.

use crate::error::{SpdmError, SpdmResult};
use crate::protocol::{
    SpdmAeadAlgo, SpdmBaseAsymAlgo, SpdmBaseHashAlgo, SpdmDheAlgo, SpdmDheExchangeStruct,
    SpdmDheFinalKeyStruct, SpdmDigestStruct, SpdmSignatureStruct,
};
use vstd::prelude::*;

verus! {

/// Hashing, in one step or as a running context.
pub trait SpdmHash: Sized {
    /// A running hash.
    type HashCtx;

    /// What `hash_all` returns for the given arguments.
    open spec fn hash_all_value(
        &self,
        base_hash_algo: SpdmBaseHashAlgo,
        data: Seq<u8>,
    ) -> Option<SpdmDigestStruct> {
        arbitrary::<spec_fn(Self, SpdmBaseHashAlgo, Seq<u8>) -> Option<SpdmDigestStruct>>()(
            *self,
            base_hash_algo,
            data,
        )
    }

    /// The algorithm that a running hash was started with.
    open spec fn ctx_algo(
        ctx: &Self::HashCtx,
    ) -> SpdmBaseHashAlgo {
        arbitrary::<spec_fn(Self::HashCtx) -> SpdmBaseHashAlgo>()(
            *ctx,
        )
    }

    /// Everything that was fed to a running hash, in order.
    open spec fn ctx_data(
        ctx: &Self::HashCtx,
    ) -> Seq<u8> {
        arbitrary::<spec_fn(Self::HashCtx) -> Seq<u8>>()(
            *ctx,
        )
    }

    /// Whether `hash_ctx_init` gives a running hash for the algorithm.
    open spec fn hash_ctx_init_value(
        &self,
        base_hash_algo: SpdmBaseHashAlgo,
    ) -> bool {
        arbitrary::<spec_fn(Self, SpdmBaseHashAlgo) -> bool>()(
            *self,
            base_hash_algo,
        )
    }

    /// What `hash_ctx_update` returns for the given arguments: whether the
    /// running hash takes `data`.
    open spec fn hash_ctx_update_value(
        &self,
        ctx: &Self::HashCtx,
        data: Seq<u8>,
    ) -> bool {
        arbitrary::<spec_fn(Self, Self::HashCtx, Seq<u8>) -> bool>()(
            *self,
            *ctx,
            data,
        )
    }

    /// Digest of `data`.
    fn hash_all(&self, base_hash_algo: SpdmBaseHashAlgo, data: &[u8]) -> (r: Option<
        SpdmDigestStruct,
    >)
        ensures
            r == self.hash_all_value(base_hash_algo, data@),
    ;

    /// A running hash that has been fed nothing.
    fn hash_ctx_init(&self, base_hash_algo: SpdmBaseHashAlgo) -> (r: Option<Self::HashCtx>)
        ensures
            r.is_some() == self.hash_ctx_init_value(base_hash_algo),
            r matches Some(ctx) ==> Self::ctx_algo(&ctx) == base_hash_algo && Self::ctx_data(&ctx)
                == Seq::<u8>::empty(),
    ;

    /// Feeds `data` to a running hash. Says whether it did: a hash that cannot
    /// take `data` stays as it is.
    fn hash_ctx_update(&self, ctx: &mut Self::HashCtx, data: &[u8]) -> (ok: bool)
        ensures
            ok == self.hash_ctx_update_value(old(ctx), data@),
            Self::ctx_algo(final(ctx)) == Self::ctx_algo(old(ctx)),
            ok ==> Self::ctx_data(final(ctx)) == Self::ctx_data(old(ctx)) + data@,
            !ok ==> Self::ctx_data(final(ctx)) == Self::ctx_data(old(ctx)),
    ;

    /// The algorithm that a running hash was started with.
    fn hash_ctx_algo(&self, ctx: &Self::HashCtx) -> (r: SpdmBaseHashAlgo)
        ensures
            r == Self::ctx_algo(ctx),
    ;

    /// A second running hash in the state of `ctx`.
    fn hash_ctx_fork(&self, ctx: &Self::HashCtx) -> (r: Self::HashCtx)
        ensures
            Self::ctx_algo(&r) == Self::ctx_algo(ctx),
            Self::ctx_data(&r) == Self::ctx_data(ctx),
    ;

    /// Digest of everything that was fed to `ctx`: the one that `hash_all`
    /// returns for the same bytes.
    fn hash_ctx_finalize(&self, ctx: Self::HashCtx) -> (r: Option<SpdmDigestStruct>)
        ensures
            r == self.hash_all_value(Self::ctx_algo(&ctx), Self::ctx_data(&ctx)),
    ;
}

/// Keyed MACs.
pub trait SpdmHmac: Sized {
    /// What `hmac` returns for the given arguments.
    open spec fn hmac_value(
        &self,
        base_hash_algo: SpdmBaseHashAlgo,
        key: Seq<u8>,
        data: Seq<u8>,
    ) -> Option<SpdmDigestStruct> {
        arbitrary::<spec_fn(Self, SpdmBaseHashAlgo, Seq<u8>, Seq<u8>) -> Option<SpdmDigestStruct>>()(
            *self,
            base_hash_algo,
            key,
            data,
        )
    }

    /// What `hmac_verify` returns for the given arguments.
    open spec fn hmac_verify_value(
        &self,
        base_hash_algo: SpdmBaseHashAlgo,
        key: Seq<u8>,
        data: Seq<u8>,
        hmac: SpdmDigestStruct,
    ) -> SpdmResult {
        arbitrary::<spec_fn(Self, SpdmBaseHashAlgo, Seq<u8>, Seq<u8>, SpdmDigestStruct) -> SpdmResult>()(
            *self,
            base_hash_algo,
            key,
            data,
            hmac,
        )
    }

    /// MAC of `data` under `key`.
    fn hmac(&self, base_hash_algo: SpdmBaseHashAlgo, key: &[u8], data: &[u8]) -> (r: Option<
        SpdmDigestStruct,
    >)
        ensures
            r == self.hmac_value(base_hash_algo, key@, data@),
    ;

    /// Checks `hmac` against the MAC of `data` under `key`.
    fn hmac_verify(
        &self,
        base_hash_algo: SpdmBaseHashAlgo,
        key: &[u8],
        data: &[u8],
        hmac: &SpdmDigestStruct,
    ) -> (r: SpdmResult)
        ensures
            r == self.hmac_verify_value(base_hash_algo, key@, data@, *hmac),
    ;
}

/// HKDF-Expand.
pub trait SpdmHkdf: Sized {
    /// What `hkdf_expand` returns for the given arguments.
    open spec fn hkdf_expand_value(
        &self,
        hash_algo: SpdmBaseHashAlgo,
        pk: Seq<u8>,
        info: Seq<u8>,
        out_size: u16,
    ) -> Option<SpdmDigestStruct> {
        arbitrary::<spec_fn(Self, SpdmBaseHashAlgo, Seq<u8>, Seq<u8>, u16) -> Option<SpdmDigestStruct>>()(
            *self,
            hash_algo,
            pk,
            info,
            out_size,
        )
    }

    /// `out_size` bytes of keying material expanded from the pseudo-random key
    /// `pk` and `info`.
    fn hkdf_expand(&self, hash_algo: SpdmBaseHashAlgo, pk: &[u8], info: &[u8], out_size: u16) -> (r:
        Option<SpdmDigestStruct>)
        ensures
            r == self.hkdf_expand_value(hash_algo, pk@, info@, out_size),
    ;
}

/// Authenticated encryption with associated data.
pub trait SpdmAead: Sized {
    /// What `encrypt` returns for the given arguments: cipher text and tag.
    open spec fn encrypt_value(
        &self,
        aead_algo: SpdmAeadAlgo,
        key: Seq<u8>,
        iv: Seq<u8>,
        aad: Seq<u8>,
        plain_text: Seq<u8>,
    ) -> SpdmResult<(Seq<u8>, Seq<u8>)> {
        arbitrary::<
            spec_fn(Self, SpdmAeadAlgo, Seq<u8>, Seq<u8>, Seq<u8>, Seq<u8>) -> SpdmResult<
                (Seq<u8>, Seq<u8>),
            >,
        >()(*self, aead_algo, key, iv, aad, plain_text)
    }

    /// What `decrypt` returns for the given arguments: the plain text.
    open spec fn decrypt_value(
        &self,
        aead_algo: SpdmAeadAlgo,
        key: Seq<u8>,
        iv: Seq<u8>,
        aad: Seq<u8>,
        cipher_text: Seq<u8>,
        tag: Seq<u8>,
    ) -> SpdmResult<Seq<u8>> {
        arbitrary::<
            spec_fn(Self, SpdmAeadAlgo, Seq<u8>, Seq<u8>, Seq<u8>, Seq<u8>, Seq<u8>) -> SpdmResult<
                Seq<u8>,
            >,
        >()(*self, aead_algo, key, iv, aad, cipher_text, tag)
    }

    /// Seals `plain_text`: returns cipher text and tag. What it returns,
    /// `decrypt` opens again to `plain_text`.
    fn encrypt(
        &self,
        aead_algo: SpdmAeadAlgo,
        key: &[u8],
        iv: &[u8],
        aad: &[u8],
        plain_text: &[u8],
    ) -> (r: SpdmResult<(Vec<u8>, Vec<u8>)>)
        ensures
            match r {
                Ok((cipher_text, tag)) => self.encrypt_value(
                    aead_algo,
                    key@,
                    iv@,
                    aad@,
                    plain_text@,
                ) == Ok::<(Seq<u8>, Seq<u8>), SpdmError>((cipher_text@, tag@))
                    && self.decrypt_value(aead_algo, key@, iv@, aad@, cipher_text@, tag@) == Ok::<
                    Seq<u8>,
                    SpdmError,
                >(plain_text@),
                Err(e) => self.encrypt_value(aead_algo, key@, iv@, aad@, plain_text@) == Err::<
                    (Seq<u8>, Seq<u8>),
                    SpdmError,
                >(e),
            },
    ;

    /// Opens `cipher_text` with `tag`: returns the plain text.
    fn decrypt(
        &self,
        aead_algo: SpdmAeadAlgo,
        key: &[u8],
        iv: &[u8],
        aad: &[u8],
        cipher_text: &[u8],
        tag: &[u8],
    ) -> (r: SpdmResult<Vec<u8>>)
        ensures
            match r {
                Ok(plain_text) => self.decrypt_value(
                    aead_algo,
                    key@,
                    iv@,
                    aad@,
                    cipher_text@,
                    tag@,
                ) == Ok::<Seq<u8>, SpdmError>(plain_text@),
                Err(e) => self.decrypt_value(aead_algo, key@, iv@, aad@, cipher_text@, tag@)
                    == Err::<Seq<u8>, SpdmError>(e),
            },
    ;
}

/// Signing with the device's private key. A signature may differ from call to
/// call, so nothing is said of it.
pub trait SpdmAsymSign: Sized {
    /// Signature over `data`.
    fn sign(&self, base_hash_algo: SpdmBaseHashAlgo, base_asym_algo: SpdmBaseAsymAlgo, data: &[u8])
        -> (r: Option<SpdmSignatureStruct>)
    ;
}

/// Signature verification against a DER certificate.
pub trait SpdmAsymVerify: Sized {
    /// What `verify` returns for the given arguments.
    open spec fn verify_value(
        &self,
        base_hash_algo: SpdmBaseHashAlgo,
        base_asym_algo: SpdmBaseAsymAlgo,
        public_cert_der: Seq<u8>,
        data: Seq<u8>,
        signature: SpdmSignatureStruct,
    ) -> SpdmResult {
        arbitrary::<spec_fn(Self, SpdmBaseHashAlgo, SpdmBaseAsymAlgo, Seq<u8>, Seq<u8>, SpdmSignatureStruct) -> SpdmResult>()(
            *self,
            base_hash_algo,
            base_asym_algo,
            public_cert_der,
            data,
            signature,
        )
    }

    /// Checks `signature` over `data` with the key in `public_cert_der`.
    fn verify(
        &self,
        base_hash_algo: SpdmBaseHashAlgo,
        base_asym_algo: SpdmBaseAsymAlgo,
        public_cert_der: &[u8],
        data: &[u8],
        signature: &SpdmSignatureStruct,
    ) -> (r: SpdmResult)
        ensures
            r == self.verify_value(base_hash_algo, base_asym_algo, public_cert_der@, data@, *signature),
    ;
}

/// The private half of an ephemeral key pair.
pub trait SpdmDheKeyExchange: Sized {
    /// What `compute_final_key` returns for this private key and the peer's
    /// public key.
    open spec fn final_key_value(
        &self,
        peer_pub_key: SpdmDheExchangeStruct,
    ) -> Option<SpdmDheFinalKeyStruct> {
        arbitrary::<spec_fn(Self, SpdmDheExchangeStruct) -> Option<SpdmDheFinalKeyStruct>>()(
            *self,
            peer_pub_key,
        )
    }

    /// The shared secret; the private key is used up.
    fn compute_final_key(self, peer_pub_key: &SpdmDheExchangeStruct) -> (r: Option<
        SpdmDheFinalKeyStruct,
    >)
        ensures
            r == self.final_key_value(*peer_pub_key),
    ;
}

/// Ephemeral key agreement. A key pair is random, so nothing is said of it.
pub trait SpdmDhe: Sized {
    /// The private half that `generate_key_pair` hands out.
    type KeyExchange: SpdmDheKeyExchange;

    /// A fresh key pair for `dhe_algo`.
    fn generate_key_pair(&self, dhe_algo: SpdmDheAlgo) -> (r: Option<
        (SpdmDheExchangeStruct, Self::KeyExchange),
    >)
    ;
}

/// Operations on DER certificate chains.
pub trait SpdmCertOperation: Sized {
    /// What `get_cert_from_cert_chain` returns for the given arguments.
    open spec fn get_cert_from_cert_chain_value(
        &self,
        cert_chain: Seq<u8>,
        index: isize,
    ) -> SpdmResult<(usize, usize)> {
        arbitrary::<spec_fn(Self, Seq<u8>, isize) -> SpdmResult<(usize, usize)>>()(
            *self,
            cert_chain,
            index,
        )
    }

    /// What `verify_cert_chain` returns for the given argument.
    open spec fn verify_cert_chain_value(
        &self,
        cert_chain: Seq<u8>,
    ) -> SpdmResult {
        arbitrary::<spec_fn(Self, Seq<u8>) -> SpdmResult>()(
            *self,
            cert_chain,
        )
    }

    /// Start and end offset of the certificate at `index` in `cert_chain`; the
    /// index -1 stands for the last one.
    fn get_cert_from_cert_chain(&self, cert_chain: &[u8], index: isize) -> (r: SpdmResult<
        (usize, usize),
    >)
        ensures
            r == self.get_cert_from_cert_chain_value(cert_chain@, index),
    ;

    /// Checks that each certificate of `cert_chain` is signed by the one
    /// before it.
    fn verify_cert_chain(&self, cert_chain: &[u8]) -> (r: SpdmResult)
        ensures
            r == self.verify_cert_chain_value(cert_chain@),
    ;
}

/// Random bytes. Nothing is said of them.
pub trait SpdmCryptoRandom: Sized {
    /// Fills `data`; reports how many bytes it wrote.
    fn get_random(&self, data: &mut [u8]) -> (r: SpdmResult<usize>)
        ensures
            final(data)@.len() == old(data)@.len(),
    ;
}

} // verus!
