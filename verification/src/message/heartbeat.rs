//! HEARTBEAT and HEARTBEAT_ACK: the liveness probe of an established session.
//! Neither carries anything but the two parameter bytes of the header.

use crate::codec::{Codec, Reader, Writer};
use crate::common::spdm_codec::SpdmCodec;
use crate::common::SpdmContext;
use vstd::prelude::*;

verus! {

/// The two parameter bytes as they are sent: both zero.
pub open spec fn heartbeat_wire() -> Seq<u8> {
    seq![0u8, 0u8]
}

/// The payload of HEARTBEAT.
#[derive(Debug, Clone, Copy, Default, PartialEq, Eq, Structural)]
pub struct SpdmHeartbeatRequestPayload {}

impl SpdmCodec for SpdmHeartbeatRequestPayload {
    open spec fn spdm_spec_valid(&self, context: &SpdmContext) -> bool {
        true
    }

    open spec fn spdm_spec_encode(&self, context: &SpdmContext) -> Seq<u8> {
        heartbeat_wire()
    }

    open spec fn spdm_spec_read(context: &SpdmContext, bytes: Seq<u8>) -> Option<
        (SpdmHeartbeatRequestPayload, nat),
    > {
        if bytes.len() >= 2 {
            Some((SpdmHeartbeatRequestPayload {  }, 2))
        } else {
            None
        }
    }

    fn spdm_size(&self, context: &SpdmContext) -> (r: usize) {
        2
    }

    fn spdm_encode(&self, _context: &mut SpdmContext, bytes: &mut Writer) {
        0u8.encode(bytes);  // param1
        0u8.encode(bytes);  // param2
        assert(old(bytes).spec_left() >= 2 ==> bytes@ =~= old(bytes)@ + heartbeat_wire());
    }

    fn spdm_read(_context: &mut SpdmContext, r: &mut Reader) -> (v: Option<
        SpdmHeartbeatRequestPayload,
    >) {
        u8::read(r)?;  // param1
        u8::read(r)?;  // param2
        assert(r.remaining() =~= old(r).remaining().subrange(2, old(r).remaining().len() as int));
        Some(SpdmHeartbeatRequestPayload {  })
    }

    proof fn lemma_spdm_round_trip(&self, context: &SpdmContext, rest: Seq<u8>) {
    }
}

/// The payload of HEARTBEAT_ACK.
#[derive(Debug, Clone, Copy, Default, PartialEq, Eq, Structural)]
pub struct SpdmHeartbeatResponsePayload {}

impl SpdmCodec for SpdmHeartbeatResponsePayload {
    open spec fn spdm_spec_valid(&self, context: &SpdmContext) -> bool {
        true
    }

    open spec fn spdm_spec_encode(&self, context: &SpdmContext) -> Seq<u8> {
        heartbeat_wire()
    }

    open spec fn spdm_spec_read(context: &SpdmContext, bytes: Seq<u8>) -> Option<
        (SpdmHeartbeatResponsePayload, nat),
    > {
        if bytes.len() >= 2 {
            Some((SpdmHeartbeatResponsePayload {  }, 2))
        } else {
            None
        }
    }

    fn spdm_size(&self, context: &SpdmContext) -> (r: usize) {
        2
    }

    fn spdm_encode(&self, _context: &mut SpdmContext, bytes: &mut Writer) {
        0u8.encode(bytes);  // param1
        0u8.encode(bytes);  // param2
        assert(old(bytes).spec_left() >= 2 ==> bytes@ =~= old(bytes)@ + heartbeat_wire());
    }

    fn spdm_read(_context: &mut SpdmContext, r: &mut Reader) -> (v: Option<
        SpdmHeartbeatResponsePayload,
    >) {
        u8::read(r)?;  // param1
        u8::read(r)?;  // param2
        assert(r.remaining() =~= old(r).remaining().subrange(2, old(r).remaining().len() as int));
        Some(SpdmHeartbeatResponsePayload {  })
    }

    proof fn lemma_spdm_round_trip(&self, context: &SpdmContext, rest: Seq<u8>) {
    }
}

} // verus!
