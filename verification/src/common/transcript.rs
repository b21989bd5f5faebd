//! The transcript: the protocol bytes over which signatures and MACs are
//! computed, kept per logical buffer.
//!
//! A transcript stores the bytes of each buffer. By the streaming strategy it
//! keeps a running hash of each buffer beside them, so that the snapshot of a
//! buffer is a fork of its running hash and needs no second pass over the
//! bytes. Either way a buffer takes no more than the message buffer size, a
//! snapshot is the digest of everything appended since the last reset, and
//! the digest over several buffers is that of their bytes, one behind the
//! other: both strategies give the same digests.

use crate::bytes::append_bytes;
use crate::config::MAX_SPDM_MESSAGE_BUFFER_SIZE;
use crate::crypto::hash::{
    hash_all, hash_ctx_finalize, hash_ctx_fork, hash_ctx_init, hash_ctx_update,
    spec_hash_all, spec_hash_ctx_init,
};
use crate::crypto::{ProviderSlot, SpdmHash};
use crate::error::{SpdmError, SpdmResult};
use crate::protocol::{SpdmBaseHashAlgo, SpdmDigestStruct};
use vstd::prelude::*;

verus! {

/// The logical buffers of a transcript.
#[derive(Clone, Copy, Debug, PartialEq, Eq, Structural)]
pub enum SpdmTranscriptBufferId {
    /// Version, capabilities and algorithms exchanges.
    MessageA,
    /// Digests and certificate exchanges.
    MessageB,
    /// Challenge exchange, without the signature.
    MessageC,
    /// Measurements exchanges, without the signature.
    MessageM,
    /// Key exchange, without signature and verify-data.
    MessageK,
    /// Finish exchange, without verify-data.
    MessageF,
}

/// How a transcript keeps its buffers.
#[derive(Clone, Copy, Debug, PartialEq, Eq, Structural)]
pub enum SpdmTranscriptStrategy {
    /// The bytes are stored, and hashed when a digest is asked for.
    Buffered,
    /// A running hash of each buffer is kept beside its bytes.
    Streaming,
}

/// One logical buffer: its bytes, their number, and, by the streaming
/// strategy, a running hash of them.
pub struct TranscriptBuffer<H: SpdmHash> {
    hash_algo: SpdmBaseHashAlgo,
    bytes: Vec<u8>,
    ctx: Option<H::HashCtx>,
    length: usize,
}

impl<H: SpdmHash> TranscriptBuffer<H> {
    /// Everything appended to the buffer since it was last reset.
    pub closed spec fn data(&self) -> Seq<u8> {
        self.bytes@
    }

    /// The buffer keeps a running hash.
    pub closed spec fn is_streaming(&self) -> bool {
        self.ctx.is_some()
    }

    /// The hash of which the buffer gives snapshots.
    pub closed spec fn hash_algo(&self) -> SpdmBaseHashAlgo {
        self.hash_algo
    }

    /// The buffer is within its capacity and, where it keeps a running hash,
    /// the hash is one of its algorithm and has been fed its bytes.
    pub closed spec fn wf(&self) -> bool {
        &&& self.length == self.data().len()
        &&& self.length <= MAX_SPDM_MESSAGE_BUFFER_SIZE
        &&& self.ctx matches Some(ctx) ==> H::ctx_algo(&ctx) == self.hash_algo && H::ctx_data(
            &ctx,
        ) == self.bytes@
    }

    /// An empty buffer without a running hash.
    pub fn new_buffered(hash_algo: SpdmBaseHashAlgo) -> (r: TranscriptBuffer<H>)
        ensures
            r.wf(),
            r.data() == Seq::<u8>::empty(),
            !r.is_streaming(),
            r.hash_algo() == hash_algo,
    {
        TranscriptBuffer { hash_algo, bytes: Vec::new(), ctx: None, length: 0 }
    }

    /// An empty buffer that keeps a running hash; none without a provider,
    /// or where the provider gives no running hash for the algorithm.
    pub fn new_streaming(hash_slot: &ProviderSlot<H>, hash_algo: SpdmBaseHashAlgo) -> (r: Option<
        TranscriptBuffer<H>,
    >)
        ensures
            r.is_some() == spec_hash_ctx_init(hash_slot.provider(), hash_algo),
            r matches Some(buffer) ==> buffer.wf() && buffer.data() == Seq::<u8>::empty()
                && buffer.is_streaming() && buffer.hash_algo() == hash_algo,
    {
        match hash_ctx_init(hash_slot, hash_algo) {
            Some(ctx) => Some(
                TranscriptBuffer { hash_algo, bytes: Vec::new(), ctx: Some(ctx), length: 0 },
            ),
            None => None,
        }
    }

    /// The hash of which the buffer gives snapshots.
    pub fn get_hash_algo(&self) -> (r: SpdmBaseHashAlgo)
        ensures
            r == self.hash_algo(),
    {
        self.hash_algo
    }

    /// The number of bytes appended since the last reset.
    pub fn len(&self) -> (n: usize)
        requires
            self.wf(),
        ensures
            n == self.data().len(),
            n <= MAX_SPDM_MESSAGE_BUFFER_SIZE,
    {
        self.length
    }

    /// Appends `bytes`. Fails with `TranscriptOverflow`, and leaves the buffer
    /// as it is, where they do not fit or the running hash does not take
    /// them. A buffer without a running hash takes whatever fits.
    pub fn append(&mut self, hash_slot: &ProviderSlot<H>, bytes: &[u8]) -> (r: SpdmResult)
        requires
            old(self).wf(),
        ensures
            final(self).wf(),
            final(self).is_streaming() == old(self).is_streaming(),
            final(self).hash_algo() == old(self).hash_algo(),
            r.is_ok() ==> final(self).data() == old(self).data() + bytes@,
            r matches Err(e) ==> e == SpdmError::TranscriptOverflow && final(self).data() == old(
                self,
            ).data(),
            old(self).data().len() + bytes@.len() > MAX_SPDM_MESSAGE_BUFFER_SIZE ==> r.is_err(),
            !old(self).is_streaming() && old(self).data().len() + bytes@.len()
                <= MAX_SPDM_MESSAGE_BUFFER_SIZE ==> r.is_ok(),
    {
        if bytes.len() > MAX_SPDM_MESSAGE_BUFFER_SIZE - self.length {
            return Err(SpdmError::TranscriptOverflow);
        }
        match &mut self.ctx {
            Some(ctx) => {
                if !hash_ctx_update(hash_slot, ctx, bytes) {
                    return Err(SpdmError::TranscriptOverflow);
                }
            },
            None => {},
        }
        append_bytes(&mut self.bytes, bytes);
        self.length = self.length + bytes.len();
        Ok(())
    }

    /// The bytes of the buffer.
    pub fn stored(&self) -> (r: &[u8])
        requires
            self.wf(),
        ensures
            r@ == self.data(),
    {
        self.bytes.as_slice()
    }

    /// Empties the buffer. A buffer that keeps a running hash starts a new
    /// one; where the provider gives none, the buffer stays as it is and the
    /// result is `Fault`.
    pub fn reset(&mut self, hash_slot: &ProviderSlot<H>) -> (r: SpdmResult)
        requires
            old(self).wf(),
        ensures
            final(self).wf(),
            final(self).is_streaming() == old(self).is_streaming(),
            final(self).hash_algo() == old(self).hash_algo(),
            r.is_ok() ==> final(self).data() == Seq::<u8>::empty(),
            r matches Err(e) ==> e == SpdmError::Fault && final(self).data() == old(self).data(),
            !old(self).is_streaming() ==> r.is_ok(),
    {
        if self.ctx.is_some() {
            match hash_ctx_init(hash_slot, self.hash_algo) {
                Some(ctx) => {
                    self.ctx = Some(ctx);
                    self.bytes.clear();
                    self.length = 0;
                    Ok(())
                },
                None => Err(SpdmError::Fault),
            }
        } else {
            self.bytes.clear();
            self.length = 0;
            Ok(())
        }
    }

    /// A fork of the running hash of the buffer: a running hash that has been
    /// fed the bytes of the buffer. None for a buffer without a running hash,
    /// and without a provider.
    pub fn fork_running(&self, hash_slot: &ProviderSlot<H>) -> (r: Option<H::HashCtx>)
        requires
            self.wf(),
        ensures
            r.is_some() == (self.is_streaming() && hash_slot.provider().is_some()),
            r matches Some(ctx) ==> H::ctx_algo(&ctx) == self.hash_algo() && H::ctx_data(&ctx)
                == self.data(),
    {
        match &self.ctx {
            Some(ctx) => hash_ctx_fork(hash_slot, ctx),
            None => None,
        }
    }

    /// The digest of everything appended since the last reset: what
    /// `hash_all` returns for those bytes. The buffer stays as it is.
    pub fn snapshot_hash(&self, hash_slot: &ProviderSlot<H>) -> (r: Option<SpdmDigestStruct>)
        requires
            self.wf(),
        ensures
            r == spec_hash_all(hash_slot.provider(), self.hash_algo(), self.data()),
            r matches Some(d) ==> d.wf() && d@.len() == self.hash_algo().spec_size(),
    {
        match &self.ctx {
            Some(ctx) => {
                let fork = hash_ctx_fork(hash_slot, ctx)?;
                hash_ctx_finalize(hash_slot, fork)
            },
            None => hash_all(hash_slot, self.hash_algo, self.bytes.as_slice()),
        }
    }
}

/// The transcript of one connection: its six logical buffers, all kept the
/// same way.
pub struct SpdmTranscript<H: SpdmHash> {
    strategy: SpdmTranscriptStrategy,
    message_a: TranscriptBuffer<H>,
    message_b: TranscriptBuffer<H>,
    message_c: TranscriptBuffer<H>,
    message_m: TranscriptBuffer<H>,
    message_k: TranscriptBuffer<H>,
    message_f: TranscriptBuffer<H>,
}

impl<H: SpdmHash> SpdmTranscript<H> {
    /// How the transcript keeps its buffers.
    pub closed spec fn strategy(&self) -> SpdmTranscriptStrategy {
        self.strategy
    }

    /// The hash of which the transcript gives snapshots.
    pub closed spec fn hash_algo(&self) -> SpdmBaseHashAlgo {
        self.message_a.hash_algo()
    }

    /// Everything appended to the buffer `id` since it was last reset.
    pub closed spec fn data(&self, id: SpdmTranscriptBufferId) -> Seq<u8> {
        match id {
            SpdmTranscriptBufferId::MessageA => self.message_a.data(),
            SpdmTranscriptBufferId::MessageB => self.message_b.data(),
            SpdmTranscriptBufferId::MessageC => self.message_c.data(),
            SpdmTranscriptBufferId::MessageM => self.message_m.data(),
            SpdmTranscriptBufferId::MessageK => self.message_k.data(),
            SpdmTranscriptBufferId::MessageF => self.message_f.data(),
        }
    }

    /// The bytes of the buffers `ids`, one behind the other.
    pub open spec fn concat(&self, ids: Seq<SpdmTranscriptBufferId>) -> Seq<u8>
        decreases ids.len(),
    {
        if ids.len() == 0 {
            Seq::<u8>::empty()
        } else {
            self.concat(ids.drop_last()) + self.data(ids.last())
        }
    }

    /// Every buffer is within its capacity and kept by the strategy of the
    /// transcript, for the same hash.
    pub closed spec fn wf(&self) -> bool {
        &&& self.message_a.wf() && self.message_b.wf() && self.message_c.wf()
        &&& self.message_m.wf() && self.message_k.wf() && self.message_f.wf()
        &&& self.message_a.is_streaming() == (self.strategy == SpdmTranscriptStrategy::Streaming)
        &&& self.message_b.is_streaming() == self.message_a.is_streaming()
        &&& self.message_c.is_streaming() == self.message_a.is_streaming()
        &&& self.message_m.is_streaming() == self.message_a.is_streaming()
        &&& self.message_k.is_streaming() == self.message_a.is_streaming()
        &&& self.message_f.is_streaming() == self.message_a.is_streaming()
        &&& self.message_b.hash_algo() == self.message_a.hash_algo()
        &&& self.message_c.hash_algo() == self.message_a.hash_algo()
        &&& self.message_m.hash_algo() == self.message_a.hash_algo()
        &&& self.message_k.hash_algo() == self.message_a.hash_algo()
        &&& self.message_f.hash_algo() == self.message_a.hash_algo()
    }

    /// An empty transcript. One without running hashes can always be had; one
    /// that keeps running hashes only where the provider gives them.
    pub fn new(
        strategy: SpdmTranscriptStrategy,
        hash_slot: &ProviderSlot<H>,
        hash_algo: SpdmBaseHashAlgo,
    ) -> (r: Option<SpdmTranscript<H>>)
        ensures
            strategy == SpdmTranscriptStrategy::Buffered ==> r.is_some(),
            strategy == SpdmTranscriptStrategy::Streaming && hash_slot.provider().is_none()
                ==> r.is_none(),
            r matches Some(t) ==> t.wf() && t.strategy() == strategy && t.hash_algo() == hash_algo
                && forall|id: SpdmTranscriptBufferId| #[trigger] t.data(id) == Seq::<u8>::empty(),
    {
        match strategy {
            SpdmTranscriptStrategy::Buffered => Some(
                SpdmTranscript {
                    strategy,
                    message_a: TranscriptBuffer::new_buffered(hash_algo),
                    message_b: TranscriptBuffer::new_buffered(hash_algo),
                    message_c: TranscriptBuffer::new_buffered(hash_algo),
                    message_m: TranscriptBuffer::new_buffered(hash_algo),
                    message_k: TranscriptBuffer::new_buffered(hash_algo),
                    message_f: TranscriptBuffer::new_buffered(hash_algo),
                },
            ),
            SpdmTranscriptStrategy::Streaming => {
                let message_a = TranscriptBuffer::new_streaming(hash_slot, hash_algo)?;
                let message_b = TranscriptBuffer::new_streaming(hash_slot, hash_algo)?;
                let message_c = TranscriptBuffer::new_streaming(hash_slot, hash_algo)?;
                let message_m = TranscriptBuffer::new_streaming(hash_slot, hash_algo)?;
                let message_k = TranscriptBuffer::new_streaming(hash_slot, hash_algo)?;
                let message_f = TranscriptBuffer::new_streaming(hash_slot, hash_algo)?;
                Some(
                    SpdmTranscript {
                        strategy,
                        message_a,
                        message_b,
                        message_c,
                        message_m,
                        message_k,
                        message_f,
                    },
                )
            },
        }
    }

    /// The hash of which the transcript gives snapshots.
    pub fn get_hash_algo(&self) -> (r: SpdmBaseHashAlgo)
        ensures
            r == self.hash_algo(),
    {
        self.message_a.get_hash_algo()
    }

    /// How the transcript keeps its buffers.
    pub fn get_strategy(&self) -> (r: SpdmTranscriptStrategy)
        ensures
            r == self.strategy(),
    {
        self.strategy
    }

    /// The number of bytes in the buffer `id`.
    pub fn len(&self, id: SpdmTranscriptBufferId) -> (n: usize)
        requires
            self.wf(),
        ensures
            n == self.data(id).len(),
            n <= MAX_SPDM_MESSAGE_BUFFER_SIZE,
    {
        match id {
            SpdmTranscriptBufferId::MessageA => self.message_a.len(),
            SpdmTranscriptBufferId::MessageB => self.message_b.len(),
            SpdmTranscriptBufferId::MessageC => self.message_c.len(),
            SpdmTranscriptBufferId::MessageM => self.message_m.len(),
            SpdmTranscriptBufferId::MessageK => self.message_k.len(),
            SpdmTranscriptBufferId::MessageF => self.message_f.len(),
        }
    }

    /// Appends `bytes` to the buffer `id`. Fails with `TranscriptOverflow`,
    /// and leaves the transcript as it is, where they do not fit or the
    /// running hash does not take them. A transcript without running hashes
    /// takes whatever fits.
    pub fn append(
        &mut self,
        hash_slot: &ProviderSlot<H>,
        id: SpdmTranscriptBufferId,
        bytes: &[u8],
    ) -> (r: SpdmResult)
        requires
            old(self).wf(),
        ensures
            final(self).wf(),
            final(self).strategy() == old(self).strategy(),
            final(self).hash_algo() == old(self).hash_algo(),
            r.is_ok() ==> final(self).data(id) == old(self).data(id) + bytes@,
            r matches Err(e) ==> e == SpdmError::TranscriptOverflow && final(self).data(id) == old(
                self,
            ).data(id),
            forall|other: SpdmTranscriptBufferId|
                other != id ==> #[trigger] final(self).data(other) == old(self).data(other),
            old(self).data(id).len() + bytes@.len() > MAX_SPDM_MESSAGE_BUFFER_SIZE ==> r.is_err(),
            old(self).strategy() == SpdmTranscriptStrategy::Buffered && old(self).data(id).len()
                + bytes@.len() <= MAX_SPDM_MESSAGE_BUFFER_SIZE ==> r.is_ok(),
    {
        match id {
            SpdmTranscriptBufferId::MessageA => self.message_a.append(hash_slot, bytes),
            SpdmTranscriptBufferId::MessageB => self.message_b.append(hash_slot, bytes),
            SpdmTranscriptBufferId::MessageC => self.message_c.append(hash_slot, bytes),
            SpdmTranscriptBufferId::MessageM => self.message_m.append(hash_slot, bytes),
            SpdmTranscriptBufferId::MessageK => self.message_k.append(hash_slot, bytes),
            SpdmTranscriptBufferId::MessageF => self.message_f.append(hash_slot, bytes),
        }
    }

    /// Empties the buffer `id`. A transcript that keeps running hashes starts
    /// a new one; where the provider gives none, the transcript stays as it
    /// is and the result is `Fault`.
    pub fn reset(&mut self, hash_slot: &ProviderSlot<H>, id: SpdmTranscriptBufferId) -> (r:
        SpdmResult)
        requires
            old(self).wf(),
        ensures
            final(self).wf(),
            final(self).strategy() == old(self).strategy(),
            final(self).hash_algo() == old(self).hash_algo(),
            r.is_ok() ==> final(self).data(id) == Seq::<u8>::empty(),
            r matches Err(e) ==> e == SpdmError::Fault && final(self).data(id) == old(self).data(
                id,
            ),
            forall|other: SpdmTranscriptBufferId|
                other != id ==> #[trigger] final(self).data(other) == old(self).data(other),
            old(self).strategy() == SpdmTranscriptStrategy::Buffered ==> r.is_ok(),
    {
        match id {
            SpdmTranscriptBufferId::MessageA => self.message_a.reset(hash_slot),
            SpdmTranscriptBufferId::MessageB => self.message_b.reset(hash_slot),
            SpdmTranscriptBufferId::MessageC => self.message_c.reset(hash_slot),
            SpdmTranscriptBufferId::MessageM => self.message_m.reset(hash_slot),
            SpdmTranscriptBufferId::MessageK => self.message_k.reset(hash_slot),
            SpdmTranscriptBufferId::MessageF => self.message_f.reset(hash_slot),
        }
    }

    /// The bytes of the buffer `id`.
    pub fn stored(&self, id: SpdmTranscriptBufferId) -> (r: &[u8])
        requires
            self.wf(),
        ensures
            r@ == self.data(id),
    {
        match id {
            SpdmTranscriptBufferId::MessageA => self.message_a.stored(),
            SpdmTranscriptBufferId::MessageB => self.message_b.stored(),
            SpdmTranscriptBufferId::MessageC => self.message_c.stored(),
            SpdmTranscriptBufferId::MessageM => self.message_m.stored(),
            SpdmTranscriptBufferId::MessageK => self.message_k.stored(),
            SpdmTranscriptBufferId::MessageF => self.message_f.stored(),
        }
    }

    /// A fork of the running hash of the buffer `id`: a running hash that has
    /// been fed the bytes of the buffer. None for a transcript without
    /// running hashes, and without a provider.
    pub fn fork_running(&self, hash_slot: &ProviderSlot<H>, id: SpdmTranscriptBufferId) -> (r:
        Option<H::HashCtx>)
        requires
            self.wf(),
        ensures
            r.is_some() == (self.strategy() == SpdmTranscriptStrategy::Streaming
                && hash_slot.provider().is_some()),
            r matches Some(ctx) ==> H::ctx_algo(&ctx) == self.hash_algo() && H::ctx_data(&ctx)
                == self.data(id),
    {
        match id {
            SpdmTranscriptBufferId::MessageA => self.message_a.fork_running(hash_slot),
            SpdmTranscriptBufferId::MessageB => self.message_b.fork_running(hash_slot),
            SpdmTranscriptBufferId::MessageC => self.message_c.fork_running(hash_slot),
            SpdmTranscriptBufferId::MessageM => self.message_m.fork_running(hash_slot),
            SpdmTranscriptBufferId::MessageK => self.message_k.fork_running(hash_slot),
            SpdmTranscriptBufferId::MessageF => self.message_f.fork_running(hash_slot),
        }
    }

    /// The digest of the bytes of the buffers `ids`, one behind the other, by
    /// way of the running hash of the first of them: the fork of that hash is
    /// fed the bytes of the others. None where the transcript keeps no
    /// running hashes, `ids` is empty, or the provider does not take the
    /// bytes.
    fn snapshot_running(&self, hash_slot: &ProviderSlot<H>, ids: &[SpdmTranscriptBufferId]) -> (r:
        Option<Option<SpdmDigestStruct>>)
        requires
            self.wf(),
        ensures
            r matches Some(digest) ==> digest == spec_hash_all(
                hash_slot.provider(),
                self.hash_algo(),
                self.concat(ids@),
            ),
    {
        if ids.len() == 0 {
            return None;
        }
        let mut ctx = self.fork_running(hash_slot, ids[0])?;
        proof {
            assert(ids@.subrange(0, 1).drop_last() =~= Seq::<SpdmTranscriptBufferId>::empty());
            assert(self.concat(ids@.subrange(0, 1).drop_last()) =~= Seq::<u8>::empty());
            assert(self.concat(ids@.subrange(0, 1)) =~= self.data(ids@[0]));
        }
        let mut i: usize = 1;
        while i < ids.len()
            invariant
                self.wf(),
                1 <= i <= ids@.len(),
                H::ctx_algo(&ctx) == self.hash_algo(),
                H::ctx_data(&ctx) == self.concat(ids@.subrange(0, i as int)),
            decreases ids@.len() - i,
        {
            if !hash_ctx_update(hash_slot, &mut ctx, self.stored(ids[i])) {
                return None;
            }
            proof {
                let upto = ids@.subrange(0, i + 1);
                assert(upto.drop_last() =~= ids@.subrange(0, i as int));
                assert(upto.last() == ids@[i as int]);
            }
            i = i + 1;
        }
        assert(ids@.subrange(0, ids@.len() as int) =~= ids@);
        Some(hash_ctx_finalize(hash_slot, ctx))
    }

    /// The digest of the bytes of the buffers `ids`, one behind the other:
    /// what `hash_all` returns for them, whatever the strategy. A transcript
    /// that keeps running hashes forks the running hash of the first buffer
    /// and feeds it the others; one without hashes the bytes in one go. The
    /// transcript stays as it is.
    pub fn snapshot_hash(&self, hash_slot: &ProviderSlot<H>, ids: &[SpdmTranscriptBufferId]) -> (r:
        Option<SpdmDigestStruct>)
        requires
            self.wf(),
        ensures
            r == spec_hash_all(hash_slot.provider(), self.hash_algo(), self.concat(ids@)),
            r matches Some(d) ==> d.wf() && d@.len() == self.hash_algo().spec_size(),
    {
        if ids.len() == 1 {
            proof {
                assert(ids@.drop_last() =~= Seq::<SpdmTranscriptBufferId>::empty());
                assert(self.concat(ids@.drop_last()) =~= Seq::<u8>::empty());
                assert(self.concat(ids@) =~= self.data(ids@[0]));
            }
            return match ids[0] {
                SpdmTranscriptBufferId::MessageA => self.message_a.snapshot_hash(hash_slot),
                SpdmTranscriptBufferId::MessageB => self.message_b.snapshot_hash(hash_slot),
                SpdmTranscriptBufferId::MessageC => self.message_c.snapshot_hash(hash_slot),
                SpdmTranscriptBufferId::MessageM => self.message_m.snapshot_hash(hash_slot),
                SpdmTranscriptBufferId::MessageK => self.message_k.snapshot_hash(hash_slot),
                SpdmTranscriptBufferId::MessageF => self.message_f.snapshot_hash(hash_slot),
            };
        }
        match self.snapshot_running(hash_slot, ids) {
            Some(digest) => {
                return digest;
            },
            None => {},
        }
        let mut all: Vec<u8> = Vec::new();
        let mut i: usize = 0;
        while i < ids.len()
            invariant
                self.wf(),
                i <= ids@.len(),
                all@ == self.concat(ids@.subrange(0, i as int)),
            decreases ids@.len() - i,
        {
            append_bytes(&mut all, self.stored(ids[i]));
            proof {
                let upto = ids@.subrange(0, i + 1);
                assert(upto.drop_last() =~= ids@.subrange(0, i as int));
                assert(upto.last() == ids@[i as int]);
            }
            i = i + 1;
        }
        assert(ids@.subrange(0, ids@.len() as int) =~= ids@);
        hash_all(hash_slot, self.message_a.hash_algo, all.as_slice())
    }
}

/// Whatever the strategy, two buffers that were fed the same bytes give the
/// same snapshot.
pub proof fn lemma_snapshot_agrees<H: SpdmHash>(
    provider: Option<H>,
    buffered: TranscriptBuffer<H>,
    streaming: TranscriptBuffer<H>,
)
    requires
        buffered.hash_algo() == streaming.hash_algo(),
        buffered.data() == streaming.data(),
    ensures
        spec_hash_all(provider, buffered.hash_algo(), buffered.data()) == spec_hash_all(
            provider,
            streaming.hash_algo(),
            streaming.data(),
        ),
{
}

} // verus!
