//! GET_DIGESTS and DIGESTS: the exchange that tells which certificate slots
//! of the responder are filled, and with which chains.
//!
//! Behind the header the request is `reserved (2)`. The response is
//! `reserved (1) | slot mask (1) | digests`: one bit of the mask for each of
//! the eight slots, and for each slot whose bit is set the digest of its
//! certificate chain, in the order of the slots, each of the length of a
//! digest of the negotiated hash.

use crate::codec::{kept_behind, Reader, Writer};
use crate::common::spdm_codec::SpdmCodec;
use crate::common::SpdmContext;
use crate::protocol::SpdmDigestStruct;
use vstd::prelude::*;
use vstd::slice::slice_subrange;

verus! {

/// The payload of GET_DIGESTS, which holds nothing.
#[derive(Clone, Copy, Debug, PartialEq, Eq, Structural)]
pub struct SpdmGetDigestsRequestPayload {}

impl SpdmCodec for SpdmGetDigestsRequestPayload {
    open spec fn spdm_spec_valid(&self, context: &SpdmContext) -> bool {
        true
    }

    open spec fn spdm_spec_encode(&self, context: &SpdmContext) -> Seq<u8> {
        seq![0u8, 0u8]
    }

    open spec fn spdm_spec_read(context: &SpdmContext, bytes: Seq<u8>) -> Option<
        (SpdmGetDigestsRequestPayload, nat),
    > {
        if bytes.len() >= 2 {
            Some((SpdmGetDigestsRequestPayload {  }, 2nat))
        } else {
            None
        }
    }

    fn spdm_size(&self, context: &SpdmContext) -> (r: usize) {
        2
    }

    fn spdm_encode(&self, context: &mut SpdmContext, bytes: &mut Writer) {
        if bytes.left() < 2 {
            assert(old(bytes)@.is_prefix_of(bytes@));
            return;
        }
        let ghost start = bytes@;
        assert(start + Seq::<u8>::empty() =~= start);
        bytes.put_u16(0u16, Ghost(start), Ghost(Seq::<u8>::empty()));
        assert(bytes@ =~= old(bytes)@ + seq![0u8, 0u8]);
        assert(old(bytes)@.is_prefix_of(bytes@));
    }

    fn spdm_read(context: &mut SpdmContext, r: &mut Reader) -> (v: Option<
        SpdmGetDigestsRequestPayload,
    >) {
        let _ = r.take(2)?;
        Some(SpdmGetDigestsRequestPayload {  })
    }

    proof fn lemma_spdm_round_trip(&self, context: &SpdmContext, rest: Seq<u8>) {
    }
}

/// The number of slots whose bit is set in `slot_mask`.
pub open spec fn spec_slot_count(slot_mask: u8) -> int {
    (slot_mask % 2) + (slot_mask / 2 % 2) + (slot_mask / 4 % 2) + (slot_mask / 8 % 2) + (slot_mask
        / 16 % 2) + (slot_mask / 32 % 2) + (slot_mask / 64 % 2) + (slot_mask / 128 % 2)
}

/// The number of slots whose bit is set in `slot_mask`.
pub fn slot_count(slot_mask: u8) -> (r: usize)
    ensures
        r == spec_slot_count(slot_mask),
        r <= 8,
{
    let m: usize = slot_mask as usize;
    (m % 2) + (m / 2 % 2) + (m / 4 % 2) + (m / 8 % 2) + (m / 16 % 2) + (m / 32 % 2) + (m / 64 % 2)
        + (m / 128 % 2)
}

/// The length on the wire of the digest in place `i` of a response that
/// holds `count` digests of `hash_size` bytes: nothing for the places behind
/// the digests.
pub open spec fn digest_size_at(i: int, count: int, hash_size: int) -> int {
    if i < count {
        hash_size
    } else {
        0
    }
}

/// Where the digest in place `i` begins in a response that holds `count`
/// digests of `hash_size` bytes.
pub open spec fn digest_at(i: nat, count: int, hash_size: int) -> int
    decreases i,
{
    if i == 0 {
        2
    } else {
        digest_at((i - 1) as nat, count, hash_size) + digest_size_at(i - 1, count, hash_size)
    }
}

/// Where a response that holds `count` digests of `hash_size` bytes ends.
pub fn digests_end(count: usize, hash_size: usize) -> (r: usize)
    requires
        hash_size <= 64,
    ensures
        r == digest_at(8, count as int, hash_size as int),
        2 <= r <= 2 + 8 * 64,
{
    let mut end: usize = 2;
    let mut i: usize = 0;
    while i < 8
        invariant
            i <= 8,
            hash_size <= 64,
            end == digest_at(i as nat, count as int, hash_size as int),
            2 <= end <= 2 + i * 64,
        decreases 8 - i,
    {
        if i < count {
            end = end + hash_size;
        }
        i = i + 1;
    }
    end
}

/// The first `n` digests, one behind the other.
pub open spec fn digests_wire(digests: Seq<SpdmDigestStruct>, n: nat) -> Seq<u8>
    decreases n,
{
    if n == 0 {
        Seq::<u8>::empty()
    } else {
        digests_wire(digests, (n - 1) as nat) + digests[n - 1]@
    }
}

/// The digests that a response of `count` digests of `hash_size` bytes
/// holds in `bytes`, with empty digests in the places behind them.
pub open spec fn digests_read(bytes: Seq<u8>, count: int, hash_size: int) -> Seq<SpdmDigestStruct> {
    Seq::new(
        8,
        |i: int|
            SpdmDigestStruct::spec_from_bytes(
                bytes.subrange(
                    digest_at(i as nat, count, hash_size),
                    digest_at((i + 1) as nat, count, hash_size),
                ),
            ),
    )
}

/// The payload of DIGESTS.
#[derive(Clone, Copy, Debug)]
pub struct SpdmDigestsResponsePayload {
    pub slot_mask: u8,
    /// The digests of the slots whose bit is set, in the first places, and
    /// empty digests behind them.
    pub digests: [SpdmDigestStruct; 8],
}

impl SpdmDigestsResponsePayload {
    /// The digest in place `i` has the length that its place calls for, and
    /// zeros behind it.
    pub open spec fn digest_valid(&self, i: int, hash_size: int) -> bool {
        &&& self.digests@[i].data_size == digest_size_at(
            i,
            spec_slot_count(self.slot_mask),
            hash_size,
        )
        &&& self.digests@[i].holds(self.digests@[i]@)
    }

    /// What `n` valid digests take on the wire ends where the next digest
    /// begins.
    pub proof fn lemma_digests_wire_len(&self, n: nat, hash_size: int)
        requires
            n <= 8,
            forall|i: int| 0 <= i < 8 ==> self.digest_valid(i, hash_size),
        ensures
            2 + digests_wire(self.digests@, n).len() == digest_at(
                n,
                spec_slot_count(self.slot_mask),
                hash_size,
            ),
        decreases n,
    {
        if n > 0 {
            self.lemma_digests_wire_len((n - 1) as nat, hash_size);
            assert(self.digest_valid(n - 1, hash_size));
        }
    }

    /// On the wire, a valid digest lies between the place where it begins
    /// and the place where the next one begins.
    pub proof fn lemma_digest_on_wire(&self, n: nat, i: int, hash_size: int, rest: Seq<u8>)
        requires
            0 <= i < n <= 8,
            0 <= hash_size <= 64,
            forall|j: int| 0 <= j < 8 ==> self.digest_valid(j, hash_size),
        ensures
            (seq![0u8, self.slot_mask] + digests_wire(self.digests@, n) + rest).subrange(
                digest_at(i as nat, spec_slot_count(self.slot_mask), hash_size),
                digest_at((i + 1) as nat, spec_slot_count(self.slot_mask), hash_size),
            ) == self.digests@[i]@,
        decreases n,
    {
        let count = spec_slot_count(self.slot_mask);
        let head = seq![0u8, self.slot_mask];
        let shorter = digests_wire(self.digests@, (n - 1) as nat);
        let last = self.digests@[n - 1]@;
        let whole = head + digests_wire(self.digests@, n) + rest;
        self.lemma_digests_wire_len((n - 1) as nat, hash_size);
        self.lemma_digests_wire_len(n, hash_size);
        assert(self.digest_valid(n - 1, hash_size));
        assert(self.digest_valid(i, hash_size));
        if i == n - 1 {
            assert(whole.subrange(
                digest_at(i as nat, count, hash_size),
                digest_at((i + 1) as nat, count, hash_size),
            ) =~= last);
        } else {
            self.lemma_digest_on_wire((n - 1) as nat, i, hash_size, last + rest);
            assert(whole =~= head + shorter + (last + rest));
        }
    }
}

impl SpdmCodec for SpdmDigestsResponsePayload {
    /// Each digest of a slot whose bit is set has the length of a digest,
    /// and zeros behind it; the places behind them hold empty digests.
    open spec fn spdm_spec_valid(&self, context: &SpdmContext) -> bool {
        forall|i: int|
            0 <= i < 8 ==> self.digest_valid(i, context.negotiate_info.base_hash_sel.spec_size() as int)
    }

    open spec fn spdm_spec_encode(&self, context: &SpdmContext) -> Seq<u8> {
        seq![0u8, self.slot_mask] + digests_wire(self.digests@, 8)
    }

    /// A response carries one digest for each bit that is set in its slot
    /// mask.
    open spec fn spdm_spec_read(context: &SpdmContext, bytes: Seq<u8>) -> Option<
        (SpdmDigestsResponsePayload, nat),
    > {
        let hash_size = context.negotiate_info.base_hash_sel.spec_size() as int;
        if bytes.len() < 2 {
            None
        } else {
            let count = spec_slot_count(bytes[1]);
            if bytes.len() >= digest_at(8, count, hash_size) {
                Some(
                    (
                        SpdmDigestsResponsePayload {
                            slot_mask: bytes[1],
                            digests: choose|digests: [SpdmDigestStruct; 8]|
                                digests@ == digests_read(bytes, count, hash_size),
                        },
                        digest_at(8, count, hash_size) as nat,
                    ),
                )
            } else {
                None
            }
        }
    }

    fn spdm_size(&self, context: &SpdmContext) -> (r: usize) {
        let hash_size: usize = context.negotiate_info.base_hash_sel.get_size() as usize;
        proof {
            self.lemma_digests_wire_len(8, hash_size as int);
        }
        digests_end(slot_count(self.slot_mask), hash_size)
    }

    fn spdm_encode(&self, context: &mut SpdmContext, bytes: &mut Writer) {
        let hash_size: usize = context.negotiate_info.base_hash_sel.get_size() as usize;
        let count: usize = slot_count(self.slot_mask);
        proof {
            self.lemma_digests_wire_len(8, hash_size as int);
            lemma_digest_at_bound(8, count as int, hash_size as int);
        }
        if bytes.left() < digests_end(count, hash_size) {
            assert(old(bytes)@.is_prefix_of(bytes@));
            return;
        }
        let ghost start = bytes@;
        let ghost mut sofar = Seq::<u8>::empty();
        assert(start + sofar =~= start);
        bytes.put_u8(0u8, Ghost(start), Ghost(sofar));
        proof {
            sofar = sofar + seq![0u8];
        }
        bytes.put_u8(self.slot_mask, Ghost(start), Ghost(sofar));
        proof {
            sofar = sofar + seq![self.slot_mask];
            assert(sofar =~= seq![0u8, self.slot_mask] + digests_wire(self.digests@, 0));
            sofar = seq![0u8, self.slot_mask] + digests_wire(self.digests@, 0);
        }
        let mut i: usize = 0;
        while i < 8
            invariant
                i <= 8,
                bytes.wf(),
                bytes.capacity() == old(bytes).capacity(),
                final(bytes.bytes)@ == final(old(bytes).bytes)@,
                start == old(bytes)@,
                self.spdm_spec_valid(old(context)),
                hash_size == old(context).negotiate_info.base_hash_sel.spec_size(),
                count == spec_slot_count(self.slot_mask),
                sofar == seq![0u8, self.slot_mask] + digests_wire(self.digests@, i as nat),
                bytes@ == start + sofar,
                kept_behind(old(bytes).bytes@, bytes.bytes@, bytes.used as int),
                old(bytes).spec_left() >= digest_at(8, count as int, hash_size as int),
                bytes.spec_left() == old(bytes).spec_left() - sofar.len(),
            decreases 8 - i,
        {
            proof {
                assert(self.digest_valid(i as int, hash_size as int));
                self.lemma_digests_wire_len(i as nat, hash_size as int);
                self.lemma_digests_wire_len((i + 1) as nat, hash_size as int);
                lemma_digest_at_monotonic((i + 1) as nat, 8, count as int, hash_size as int);
            }
            bytes.put(self.digests[i].as_ref(), Ghost(start), Ghost(sofar));
            proof {
                assert(seq![0u8, self.slot_mask] + digests_wire(self.digests@, i as nat)
                    + self.digests@[i as int]@ =~= seq![0u8, self.slot_mask] + digests_wire(
                    self.digests@,
                    (i + 1) as nat,
                ));
                sofar = seq![0u8, self.slot_mask] + digests_wire(self.digests@, (i + 1) as nat);
            }
            i = i + 1;
        }
        assert(old(bytes)@.is_prefix_of(bytes@));
    }

    fn spdm_read(context: &mut SpdmContext, r: &mut Reader) -> (v: Option<
        SpdmDigestsResponsePayload,
    >) {
        let bytes = r.peek();
        let hash_size: usize = context.negotiate_info.base_hash_sel.get_size() as usize;
        if bytes.len() < 2 {
            return None;
        }
        let slot_mask: u8 = bytes[1];
        let count: usize = slot_count(slot_mask);
        let empty = SpdmDigestStruct::default();
        let mut digests = [empty, empty, empty, empty, empty, empty, empty, empty];
        let mut at: usize = 2;
        let mut i: usize = 0;
        while i < 8
            invariant
                i <= 8,
                hash_size <= 64,
                r.wf(),
                r.buffer() == old(r).buffer(),
                r.spec_used() == old(r).spec_used(),
                bytes@ == old(r).remaining(),
                bytes@.len() >= 2,
                slot_mask == bytes@[1],
                *context == *old(context),
                hash_size == context.negotiate_info.base_hash_sel.spec_size(),
                count == spec_slot_count(slot_mask),
                at == digest_at(i as nat, count as int, hash_size as int),
                2 <= at <= 2 + i * 64,
                at <= bytes@.len(),
                forall|j: int|
                    0 <= j < i ==> (#[trigger] digests@[j]) == digests_read(
                        bytes@,
                        count as int,
                        hash_size as int,
                    )[j],
                forall|j: int|
                    0 <= j < i ==> (#[trigger] digests@[j]).data_size == digest_size_at(
                        j,
                        count as int,
                        hash_size as int,
                    ) && digests@[j].holds(digests@[j]@),
            decreases 8 - i,
        {
            let size: usize = if i < count {
                hash_size
            } else {
                0
            };
            if bytes.len() - at < size {
                proof {
                    lemma_digest_at_monotonic((i + 1) as nat, 8, count as int, hash_size as int);
                }
                return None;
            }
            let digest = match SpdmDigestStruct::from_bytes(slice_subrange(bytes, at, at + size)) {
                Some(digest) => digest,
                None => {
                    return None;
                },
            };
            digests[i] = digest;
            at = at + size;
            i = i + 1;
        }
        assert(digests@ =~= digests_read(bytes@, count as int, hash_size as int));
        proof {
            let chosen = choose|other: [SpdmDigestStruct; 8]|
                other@ == digests_read(bytes@, count as int, hash_size as int);
            assert(chosen@ == digests@);
            assert(chosen =~= digests);
        }
        let _ = r.take(at)?;
        Some(SpdmDigestsResponsePayload { slot_mask, digests })
    }

    proof fn lemma_spdm_round_trip(&self, context: &SpdmContext, rest: Seq<u8>) {
        let wire = self.spdm_spec_encode(context) + rest;
        let hash_size = context.negotiate_info.base_hash_sel.spec_size() as int;
        let count = spec_slot_count(self.slot_mask);
        self.lemma_digests_wire_len(8, hash_size);
        assert(wire[1] == self.slot_mask);
        let read = digests_read(wire, count, hash_size);
        assert forall|i: int| 0 <= i < 8 implies read[i] == self.digests@[i] by {
            self.lemma_digest_on_wire(8, i, hash_size, rest);
            assert(self.digest_valid(i, hash_size));
            SpdmDigestStruct::lemma_holds_unique(
                self.digests@[i],
                SpdmDigestStruct::spec_from_bytes(self.digests@[i]@),
                self.digests@[i]@,
            );
        }
        assert(read =~= self.digests@);
        let chosen = choose|other: [SpdmDigestStruct; 8]| other@ == read;
        assert(chosen@ == self.digests@);
        assert(chosen =~= self.digests);
    }
}

/// Places further back begin further back.
pub proof fn lemma_digest_at_monotonic(i: nat, j: nat, count: int, hash_size: int)
    requires
        i <= j,
        0 <= hash_size,
    ensures
        digest_at(i, count, hash_size) <= digest_at(j, count, hash_size),
    decreases j,
{
    if i < j {
        lemma_digest_at_monotonic(i, (j - 1) as nat, count, hash_size);
    }
}

/// The place `i` begins behind at most `i` digests.
pub proof fn lemma_digest_at_bound(i: nat, count: int, hash_size: int)
    requires
        0 <= hash_size,
    ensures
        2 <= digest_at(i, count, hash_size) <= 2 + i * hash_size,
    decreases i,
{
    if i > 0 {
        lemma_digest_at_bound((i - 1) as nat, count, hash_size);
        assert(2 + (i - 1) * hash_size + hash_size == 2 + i * hash_size) by (nonlinear_arith);
    }
}

} // verus!
