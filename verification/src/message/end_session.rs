//! END_SESSION and END_SESSION_ACK: the orderly end of a session. The
//! request says in its first parameter byte whether the responder may keep
//! what was negotiated; the acknowledgement carries nothing.

use crate::codec::{Codec, Reader, Writer};
use crate::common::spdm_codec::SpdmCodec;
use crate::common::SpdmContext;
use vstd::prelude::*;

verus! {

/// The payload of END_SESSION.
#[derive(Clone, Copy, Debug, PartialEq, Eq, Structural)]
pub struct SpdmEndSessionRequestPayload {
    /// Whether the responder may keep the negotiated state for a later
    /// connection.
    pub preserve_negotiated_state: bool,
}

impl SpdmCodec for SpdmEndSessionRequestPayload {
    open spec fn spdm_spec_valid(&self, context: &SpdmContext) -> bool {
        true
    }

    open spec fn spdm_spec_encode(&self, context: &SpdmContext) -> Seq<u8> {
        seq![
            if self.preserve_negotiated_state {
                1u8
            } else {
                0u8
            },
            0u8,
        ]
    }

    /// The attributes hold one bit; the others are reserved and must be
    /// zero.
    open spec fn spdm_spec_read(context: &SpdmContext, bytes: Seq<u8>) -> Option<
        (SpdmEndSessionRequestPayload, nat),
    > {
        if bytes.len() >= 2 && bytes[0] <= 1 {
            Some((SpdmEndSessionRequestPayload { preserve_negotiated_state: bytes[0] == 1 }, 2))
        } else {
            None
        }
    }

    fn spdm_size(&self, context: &SpdmContext) -> (r: usize) {
        2
    }

    fn spdm_encode(&self, _context: &mut SpdmContext, bytes: &mut Writer) {
        let attributes: u8 = if self.preserve_negotiated_state {
            1
        } else {
            0
        };
        attributes.encode(bytes);  // param1
        0u8.encode(bytes);  // param2
        assert(old(bytes).spec_left() >= 2 ==> bytes@ =~= old(bytes)@ + seq![attributes, 0u8]);
    }

    fn spdm_read(_context: &mut SpdmContext, r: &mut Reader) -> (v: Option<
        SpdmEndSessionRequestPayload,
    >) {
        let attributes: u8 = u8::read(r)?;  // param1
        u8::read(r)?;  // param2
        assert(r.remaining() =~= old(r).remaining().subrange(2, old(r).remaining().len() as int));
        if attributes > 1 {
            return None;
        }
        Some(SpdmEndSessionRequestPayload { preserve_negotiated_state: attributes == 1 })
    }

    proof fn lemma_spdm_round_trip(&self, context: &SpdmContext, rest: Seq<u8>) {
        let wire = self.spdm_spec_encode(context) + rest;
        assert(wire[0] == if self.preserve_negotiated_state {
            1u8
        } else {
            0u8
        });
    }
}

/// The payload of END_SESSION_ACK.
#[derive(Clone, Copy, Debug, Default, PartialEq, Eq, Structural)]
pub struct SpdmEndSessionResponsePayload {}

impl SpdmCodec for SpdmEndSessionResponsePayload {
    open spec fn spdm_spec_valid(&self, context: &SpdmContext) -> bool {
        true
    }

    open spec fn spdm_spec_encode(&self, context: &SpdmContext) -> Seq<u8> {
        seq![0u8, 0u8]
    }

    open spec fn spdm_spec_read(context: &SpdmContext, bytes: Seq<u8>) -> Option<
        (SpdmEndSessionResponsePayload, nat),
    > {
        if bytes.len() >= 2 {
            Some((SpdmEndSessionResponsePayload {  }, 2))
        } else {
            None
        }
    }

    fn spdm_size(&self, context: &SpdmContext) -> (r: usize) {
        2
    }

    fn spdm_encode(&self, _context: &mut SpdmContext, bytes: &mut Writer) {
        0u8.encode(bytes);  // param1
        0u8.encode(bytes);  // param2
        assert(old(bytes).spec_left() >= 2 ==> bytes@ =~= old(bytes)@ + seq![0u8, 0u8]);
    }

    fn spdm_read(_context: &mut SpdmContext, r: &mut Reader) -> (v: Option<
        SpdmEndSessionResponsePayload,
    >) {
        u8::read(r)?;  // param1
        u8::read(r)?;  // param2
        assert(r.remaining() =~= old(r).remaining().subrange(2, old(r).remaining().len() as int));
        Some(SpdmEndSessionResponsePayload {  })
    }

    proof fn lemma_spdm_round_trip(&self, context: &SpdmContext, rest: Seq<u8>) {
    }
}

} // verus!
