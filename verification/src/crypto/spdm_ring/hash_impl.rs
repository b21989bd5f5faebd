//! SHA-2 by *ring*.

use crate::crypto::spdm_ring::RING_MAX_INPUT_LEN;
use crate::crypto::SpdmHash;
use crate::protocol::{SpdmBaseHashAlgo, SpdmDigestStruct};
use vstd::prelude::*;

verus! {

/// The digest that `ring::digest::digest` computes of `data` with the SHA-2
/// algorithm whose digests have `digest_size` bytes.
pub uninterp spec fn ring_digest_value(digest_size: int, data: Seq<u8>) -> Seq<u8>;

/// Everything that a `ring::digest::Context` has been fed, in order.
pub uninterp spec fn ring_context_data(ctx: ring::digest::Context) -> Seq<u8>;

/// The digest length of the algorithm that a `ring::digest::Context` was made
/// for.
pub uninterp spec fn ring_context_size(ctx: ring::digest::Context) -> int;

#[verifier::external_type_specification]
#[verifier::external_body]
pub struct ExRingDigestContext(ring::digest::Context);

/// `ring::digest::digest` with the algorithm that stands for
/// `base_hash_algo`. Assumed: the result is the digest named above and has
/// the length of the algorithm's output. The call panics on inputs of 2^61
/// bytes and more, which the precondition leaves out.
#[verifier::external_body]
fn ring_digest(base_hash_algo: SpdmBaseHashAlgo, data: &[u8]) -> (r: Vec<u8>)
    requires
        data@.len() <= RING_MAX_INPUT_LEN,
    ensures
        r@ == ring_digest_value(base_hash_algo.spec_size() as int, data@),
        r@.len() == base_hash_algo.spec_size(),
{
    let algorithm = match base_hash_algo {
        SpdmBaseHashAlgo::TPM_ALG_SHA_256 => &ring::digest::SHA256,
        SpdmBaseHashAlgo::TPM_ALG_SHA_384 => &ring::digest::SHA384,
        SpdmBaseHashAlgo::TPM_ALG_SHA_512 => &ring::digest::SHA512,
    };
    ring::digest::digest(algorithm, data).as_ref().to_vec()
}

/// `ring::digest::Context::new` with the algorithm that stands for
/// `base_hash_algo`. Assumed: the context has been fed nothing.
#[verifier::external_body]
fn ring_context_new(base_hash_algo: SpdmBaseHashAlgo) -> (ctx: ring::digest::Context)
    ensures
        ring_context_data(ctx) == Seq::<u8>::empty(),
        ring_context_size(ctx) == base_hash_algo.spec_size(),
{
    let algorithm = match base_hash_algo {
        SpdmBaseHashAlgo::TPM_ALG_SHA_256 => &ring::digest::SHA256,
        SpdmBaseHashAlgo::TPM_ALG_SHA_384 => &ring::digest::SHA384,
        SpdmBaseHashAlgo::TPM_ALG_SHA_512 => &ring::digest::SHA512,
    };
    ring::digest::Context::new(algorithm)
}

/// `ring::digest::Context::update`. Assumed: `data` is added behind what the
/// context was fed before.
#[verifier::external_body]
fn ring_context_update(ctx: &mut ring::digest::Context, data: &[u8])
    ensures
        ring_context_data(*final(ctx)) == ring_context_data(*old(ctx)) + data@,
        ring_context_size(*final(ctx)) == ring_context_size(*old(ctx)),
{
    ctx.update(data)
}

/// `Clone::clone` of a `ring::digest::Context`. Assumed: the copy has been
/// fed the same bytes for the same algorithm.
#[verifier::external_body]
fn ring_context_clone(ctx: &ring::digest::Context) -> (r: ring::digest::Context)
    ensures
        ring_context_data(r) == ring_context_data(*ctx),
        ring_context_size(r) == ring_context_size(*ctx),
{
    ctx.clone()
}

/// `ring::digest::Context::finish`. Assumed: the result is the digest that
/// `ring::digest::digest` computes of everything the context was fed, as the
/// crate's documentation shows by example. The call panics once 2^61 bytes
/// and more were fed, which the precondition leaves out.
#[verifier::external_body]
fn ring_context_finish(ctx: ring::digest::Context) -> (r: Vec<u8>)
    requires
        ring_context_data(ctx).len() <= RING_MAX_INPUT_LEN,
    ensures
        r@ == ring_digest_value(ring_context_size(ctx), ring_context_data(ctx)),
        r@.len() == ring_context_size(ctx),
{
    ctx.finish().as_ref().to_vec()
}

/// A running SHA-2 hash, with the number of bytes it has been fed.
pub struct HashCtx {
    ctx: ring::digest::Context,
    algo: SpdmBaseHashAlgo,
    length: usize,
}

impl HashCtx {
    #[verifier::type_invariant]
    spec fn inv(&self) -> bool {
        &&& self.length == ring_context_data(self.ctx).len()
        &&& self.length <= RING_MAX_INPUT_LEN
        &&& ring_context_size(self.ctx) == self.algo.spec_size()
    }

    /// The algorithm that the hash was started with.
    pub closed spec fn algo(&self) -> SpdmBaseHashAlgo {
        self.algo
    }

    /// Everything that the hash has been fed, in order.
    pub closed spec fn data(&self) -> Seq<u8> {
        ring_context_data(self.ctx)
    }
}

/// The hash provider built on *ring*.
#[derive(Clone, Copy, Debug)]
pub struct SpdmRingHash;

/// The hash provider built on *ring*.
pub const DEFAULT: SpdmRingHash = SpdmRingHash;

impl SpdmHash for SpdmRingHash {
    type HashCtx = HashCtx;

    open spec fn hash_all_value(&self, base_hash_algo: SpdmBaseHashAlgo, data: Seq<u8>) -> Option<
        SpdmDigestStruct,
    > {
        if data.len() <= RING_MAX_INPUT_LEN {
            Some(
                SpdmDigestStruct::spec_from_bytes(
                    ring_digest_value(base_hash_algo.spec_size() as int, data),
                ),
            )
        } else {
            None
        }
    }

    /// There is a running hash for every algorithm.
    open spec fn hash_ctx_init_value(&self, base_hash_algo: SpdmBaseHashAlgo) -> bool {
        true
    }

    /// A running hash takes `data` as long as it has been fed no more than
    /// the longest input with it.
    open spec fn hash_ctx_update_value(&self, ctx: &HashCtx, data: Seq<u8>) -> bool {
        ctx.data().len() + data.len() <= RING_MAX_INPUT_LEN
    }

    open spec fn ctx_algo(ctx: &HashCtx) -> SpdmBaseHashAlgo {
        ctx.algo()
    }

    open spec fn ctx_data(ctx: &HashCtx) -> Seq<u8> {
        ctx.data()
    }

    fn hash_all(&self, base_hash_algo: SpdmBaseHashAlgo, data: &[u8]) -> (r: Option<
        SpdmDigestStruct,
    >) {
        if data.len() > RING_MAX_INPUT_LEN {
            return None;
        }
        let digest = ring_digest(base_hash_algo, data);
        SpdmDigestStruct::from_bytes(digest.as_slice())
    }

    fn hash_ctx_init(&self, base_hash_algo: SpdmBaseHashAlgo) -> (r: Option<HashCtx>) {
        Some(HashCtx { ctx: ring_context_new(base_hash_algo), algo: base_hash_algo, length: 0 })
    }

    fn hash_ctx_update(&self, ctx: &mut HashCtx, data: &[u8]) -> (ok: bool) {
        proof {
            use_type_invariant(&*ctx);
        }
        if data.len() > RING_MAX_INPUT_LEN - ctx.length {
            return false;
        }
        let mut inner = ring_context_clone(&ctx.ctx);
        ring_context_update(&mut inner, data);
        *ctx = HashCtx { ctx: inner, algo: ctx.algo, length: ctx.length + data.len() };
        true
    }

    fn hash_ctx_algo(&self, ctx: &HashCtx) -> (r: SpdmBaseHashAlgo) {
        ctx.algo
    }

    fn hash_ctx_fork(&self, ctx: &HashCtx) -> (r: HashCtx) {
        proof {
            use_type_invariant(ctx);
        }
        HashCtx { ctx: ring_context_clone(&ctx.ctx), algo: ctx.algo, length: ctx.length }
    }

    fn hash_ctx_finalize(&self, ctx: HashCtx) -> (r: Option<SpdmDigestStruct>) {
        proof {
            use_type_invariant(&ctx);
        }
        let digest = ring_context_finish(ctx.ctx);
        SpdmDigestStruct::from_bytes(digest.as_slice())
    }
}

} // verus!
