//! PSK_FINISH and PSK_FINISH_RSP: the exchange that ends the handshake of a
//! session on a pre-shared key.
//!
//! Behind the header the request is `reserved (2) | verify-data`, with
//! verify-data of the length of a digest of the negotiated hash. The
//! response is `reserved (2)`.

use crate::codec::{Codec, Reader, Writer};
use crate::common::spdm_codec::SpdmCodec;
use crate::common::SpdmContext;
use crate::protocol::SpdmDigestStruct;
use vstd::prelude::*;
use vstd::slice::slice_subrange;

verus! {

/// The payload of PSK_FINISH.
#[derive(Clone, Copy, Debug)]
pub struct SpdmPskFinishRequestPayload {
    pub verify_data: SpdmDigestStruct,
}

impl SpdmCodec for SpdmPskFinishRequestPayload {
    /// The verify-data has the length of a digest, and zeros behind it.
    open spec fn spdm_spec_valid(&self, context: &SpdmContext) -> bool {
        &&& self.verify_data.data_size == context.negotiate_info.base_hash_sel.spec_size()
        &&& self.verify_data.holds(self.verify_data@)
    }

    open spec fn spdm_spec_encode(&self, context: &SpdmContext) -> Seq<u8> {
        seq![0u8, 0u8] + self.verify_data@
    }

    open spec fn spdm_spec_read(context: &SpdmContext, bytes: Seq<u8>) -> Option<
        (SpdmPskFinishRequestPayload, nat),
    > {
        let hash_size = context.negotiate_info.base_hash_sel.spec_size() as int;
        if bytes.len() >= 2 + hash_size {
            Some(
                (
                    SpdmPskFinishRequestPayload {
                        verify_data: SpdmDigestStruct::spec_from_bytes(
                            bytes.subrange(2, 2 + hash_size),
                        ),
                    },
                    (2 + hash_size) as nat,
                ),
            )
        } else {
            None
        }
    }

    fn spdm_size(&self, context: &SpdmContext) -> (r: usize) {
        let total: usize = 2 + self.verify_data.data_size as usize;
        assert(self.spdm_spec_encode(context).len() == total);
        total
    }

    fn spdm_encode(&self, context: &mut SpdmContext, bytes: &mut Writer) {
        let total: usize = 2 + self.verify_data.data_size as usize;
        assert(self.spdm_spec_encode(old(context)).len() == total);
        if bytes.left() < total {
            assert(old(bytes)@.is_prefix_of(bytes@));
            return;
        }
        0u8.encode(bytes);  // param1
        0u8.encode(bytes);  // param2
        assert(bytes@ =~= old(bytes)@ + seq![0u8, 0u8]);
        let _ = bytes.extend_from_slice(self.verify_data.as_ref());
        assert(old(bytes)@.is_prefix_of(bytes@));
    }

    fn spdm_read(context: &mut SpdmContext, r: &mut Reader) -> (v: Option<
        SpdmPskFinishRequestPayload,
    >) {
        let bytes = r.peek();
        let hash_size: usize = context.negotiate_info.base_hash_sel.get_size() as usize;
        if bytes.len() < 2 + hash_size {
            return None;
        }
        let verify_data = SpdmDigestStruct::from_bytes(slice_subrange(bytes, 2, 2 + hash_size))?;
        let _ = r.take(2 + hash_size)?;
        Some(SpdmPskFinishRequestPayload { verify_data })
    }

    proof fn lemma_spdm_round_trip(&self, context: &SpdmContext, rest: Seq<u8>) {
        let wire = self.spdm_spec_encode(context) + rest;
        let hash_size = context.negotiate_info.base_hash_sel.spec_size() as int;
        assert(wire.subrange(2, 2 + hash_size) =~= self.verify_data@);
        SpdmDigestStruct::lemma_holds_unique(
            self.verify_data,
            SpdmDigestStruct::spec_from_bytes(self.verify_data@),
            self.verify_data@,
        );
    }
}

/// The payload of PSK_FINISH_RSP, which holds nothing.
#[derive(Clone, Copy, Debug, PartialEq, Eq, Structural)]
pub struct SpdmPskFinishResponsePayload {}

impl SpdmCodec for SpdmPskFinishResponsePayload {
    open spec fn spdm_spec_valid(&self, context: &SpdmContext) -> bool {
        true
    }

    open spec fn spdm_spec_encode(&self, context: &SpdmContext) -> Seq<u8> {
        seq![0u8, 0u8]
    }

    open spec fn spdm_spec_read(context: &SpdmContext, bytes: Seq<u8>) -> Option<
        (SpdmPskFinishResponsePayload, nat),
    > {
        if bytes.len() >= 2 {
            Some((SpdmPskFinishResponsePayload {  }, 2nat))
        } else {
            None
        }
    }

    fn spdm_size(&self, context: &SpdmContext) -> (r: usize) {
        2
    }

    fn spdm_encode(&self, context: &mut SpdmContext, bytes: &mut Writer) {
        if bytes.left() < 2 {
            assert(old(bytes)@.is_prefix_of(bytes@));
            return;
        }
        0u8.encode(bytes);  // param1
        0u8.encode(bytes);  // param2
        assert(bytes@ =~= old(bytes)@ + seq![0u8, 0u8]);
        assert(old(bytes)@.is_prefix_of(bytes@));
    }

    fn spdm_read(context: &mut SpdmContext, r: &mut Reader) -> (v: Option<
        SpdmPskFinishResponsePayload,
    >) {
        let _ = r.take(2)?;
        Some(SpdmPskFinishResponsePayload {  })
    }

    proof fn lemma_spdm_round_trip(&self, context: &SpdmContext, rest: Seq<u8>) {
    }
}

} // verus!
