//! PSK_EXCHANGE and PSK_EXCHANGE_RSP: the exchange that opens a session on a
//! pre-shared key.
//!
//! Behind the header the request is `summary hash type (1) | session policy
//! (1) | requester's half of the session id (2) | hint length (2) | context
//! length (2) | opaque length (2) | hint | context | opaque data`, numbers
//! low byte first. The hint names the key; the context is what the requester
//! adds to the exchange.
//!
//! The response is `heartbeat period (1) | reserved (1) | responder's half of
//! the session id (2) | reserved (2) | context length (2) | opaque length (2)
//! | measurement summary hash | context | opaque data | verify-data`. The
//! summary hash is there only where the request asked for one. Summary hash
//! and verify-data have the length of a digest of the negotiated hash.

use crate::bytes::lemma_part;
use crate::codec::{le_bytes_u16, le_value_u16, read_u16, Reader, Writer};
use crate::common::spdm_codec::SpdmCodec;
use crate::common::SpdmContext;
use crate::message::key_exchange::{optional_digest_bytes, optional_digest_valid};
use crate::protocol::{
    SpdmDigestStruct, SpdmMeasurementSummaryHashType, SpdmOpaqueStruct, SpdmPskContextStruct,
    SpdmPskHintStruct,
};
use vstd::prelude::*;
use vstd::slice::slice_subrange;

verus! {

/// The payload of PSK_EXCHANGE.
#[derive(Clone, Copy, Debug)]
pub struct SpdmPskExchangeRequestPayload {
    pub measurement_summary_hash_type: SpdmMeasurementSummaryHashType,
    pub session_policy: u8,
    pub req_session_id: u16,
    pub psk_hint: SpdmPskHintStruct,
    pub psk_context: SpdmPskContextStruct,
    pub opaque: SpdmOpaqueStruct,
}

impl SpdmPskExchangeRequestPayload {
    /// The fixed part of the request: the ten bytes in front of the hint.
    pub open spec fn fixed_part(&self) -> Seq<u8> {
        seq![self.measurement_summary_hash_type.spec_u8(), self.session_policy] + le_bytes_u16(
            self.req_session_id,
        ) + le_bytes_u16(self.psk_hint.data_size) + le_bytes_u16(self.psk_context.data_size)
            + le_bytes_u16(self.opaque.data_size)
    }
}

impl SpdmCodec for SpdmPskExchangeRequestPayload {
    /// Hint, context and opaque data fit their buffers and have zeros behind
    /// them.
    open spec fn spdm_spec_valid(&self, context: &SpdmContext) -> bool {
        &&& self.psk_hint.data_size <= 32
        &&& self.psk_hint.holds(self.psk_hint@)
        &&& self.psk_context.data_size <= 64
        &&& self.psk_context.holds(self.psk_context@)
        &&& self.opaque.data_size <= 1024
        &&& self.opaque.holds(self.opaque@)
    }

    open spec fn spdm_spec_encode(&self, context: &SpdmContext) -> Seq<u8> {
        self.fixed_part() + self.psk_hint@ + self.psk_context@ + self.opaque@
    }

    /// A request needs a summary hash type that is defined, and as many
    /// bytes of hint, context and opaque data as the three lengths say: 32,
    /// 64 and 1024 at most.
    open spec fn spdm_spec_read(context: &SpdmContext, bytes: Seq<u8>) -> Option<
        (SpdmPskExchangeRequestPayload, nat),
    > {
        if bytes.len() < 10 {
            None
        } else {
            let hint_size = le_value_u16(bytes.subrange(4, 6)) as int;
            let context_size = le_value_u16(bytes.subrange(6, 8)) as int;
            let opaque_size = le_value_u16(bytes.subrange(8, 10)) as int;
            match SpdmMeasurementSummaryHashType::spec_from_u8(bytes[0]) {
                Some(measurement_summary_hash_type) => if hint_size <= 32 && context_size <= 64
                    && opaque_size <= 1024 && bytes.len() >= 10 + hint_size + context_size
                    + opaque_size {
                    Some(
                        (
                            SpdmPskExchangeRequestPayload {
                                measurement_summary_hash_type,
                                session_policy: bytes[1],
                                req_session_id: le_value_u16(bytes.subrange(2, 4)),
                                psk_hint: SpdmPskHintStruct::spec_from_bytes(
                                    bytes.subrange(10, 10 + hint_size),
                                ),
                                psk_context: SpdmPskContextStruct::spec_from_bytes(
                                    bytes.subrange(10 + hint_size, 10 + hint_size + context_size),
                                ),
                                opaque: SpdmOpaqueStruct::spec_from_bytes(
                                    bytes.subrange(
                                        10 + hint_size + context_size,
                                        10 + hint_size + context_size + opaque_size,
                                    ),
                                ),
                            },
                            (10 + hint_size + context_size + opaque_size) as nat,
                        ),
                    )
                } else {
                    None
                },
                None => None,
            }
        }
    }

    fn spdm_size(&self, context: &SpdmContext) -> (r: usize) {
        let total: usize = 10 + self.psk_hint.data_size as usize
            + self.psk_context.data_size as usize + self.opaque.data_size as usize;
        assert(self.spdm_spec_encode(context).len() == total);
        total
    }

    fn spdm_encode(&self, context: &mut SpdmContext, bytes: &mut Writer) {
        let total: usize = 10 + self.psk_hint.data_size as usize
            + self.psk_context.data_size as usize + self.opaque.data_size as usize;
        assert(self.spdm_spec_encode(old(context)).len() == total);
        if bytes.left() < total {
            assert(old(bytes)@.is_prefix_of(bytes@));
            return;
        }
        let ghost start = bytes@;
        let ghost mut sofar = Seq::<u8>::empty();
        assert(start + sofar =~= start);
        bytes.put_u8(self.measurement_summary_hash_type.get_u8(), Ghost(start), Ghost(sofar));
        proof {
            sofar = sofar + seq![self.measurement_summary_hash_type.spec_u8()];
        }
        bytes.put_u8(self.session_policy, Ghost(start), Ghost(sofar));
        proof {
            sofar = sofar + seq![self.session_policy];
            assert(sofar =~= seq![
                self.measurement_summary_hash_type.spec_u8(),
                self.session_policy,
            ]);
            sofar = seq![self.measurement_summary_hash_type.spec_u8(), self.session_policy];
        }
        bytes.put_u16(self.req_session_id, Ghost(start), Ghost(sofar));
        proof {
            sofar = sofar + le_bytes_u16(self.req_session_id);
        }
        bytes.put_u16(self.psk_hint.data_size, Ghost(start), Ghost(sofar));
        proof {
            sofar = sofar + le_bytes_u16(self.psk_hint.data_size);
        }
        bytes.put_u16(self.psk_context.data_size, Ghost(start), Ghost(sofar));
        proof {
            sofar = sofar + le_bytes_u16(self.psk_context.data_size);
        }
        bytes.put_u16(self.opaque.data_size, Ghost(start), Ghost(sofar));
        proof {
            sofar = sofar + le_bytes_u16(self.opaque.data_size);
        }
        bytes.put(self.psk_hint.as_ref(), Ghost(start), Ghost(sofar));
        proof {
            sofar = sofar + self.psk_hint@;
        }
        bytes.put(self.psk_context.as_ref(), Ghost(start), Ghost(sofar));
        proof {
            sofar = sofar + self.psk_context@;
        }
        bytes.put(self.opaque.as_ref(), Ghost(start), Ghost(sofar));
        assert(old(bytes)@.is_prefix_of(bytes@));
    }

    fn spdm_read(context: &mut SpdmContext, r: &mut Reader) -> (v: Option<
        SpdmPskExchangeRequestPayload,
    >) {
        let bytes = r.peek();
        if bytes.len() < 10 {
            return None;
        }
        let req_session_id: u16 = read_u16(slice_subrange(bytes, 2, 4));
        let hint_size: u16 = read_u16(slice_subrange(bytes, 4, 6));
        let context_size: u16 = read_u16(slice_subrange(bytes, 6, 8));
        let opaque_size: u16 = read_u16(slice_subrange(bytes, 8, 10));
        let measurement_summary_hash_type = SpdmMeasurementSummaryHashType::from_u8(bytes[0])?;
        if hint_size > 32 || context_size > 64 || opaque_size > 1024 {
            return None;
        }
        let context_at: usize = 10 + hint_size as usize;
        let opaque_at: usize = context_at + context_size as usize;
        let total: usize = opaque_at + opaque_size as usize;
        if bytes.len() < total {
            return None;
        }
        let psk_hint = SpdmPskHintStruct::from_bytes(slice_subrange(bytes, 10, context_at))?;
        let psk_context = SpdmPskContextStruct::from_bytes(
            slice_subrange(bytes, context_at, opaque_at),
        )?;
        let opaque = SpdmOpaqueStruct::from_bytes(slice_subrange(bytes, opaque_at, total))?;
        let _ = r.take(total)?;
        Some(
            SpdmPskExchangeRequestPayload {
                measurement_summary_hash_type,
                session_policy: bytes[1],
                req_session_id,
                psk_hint,
                psk_context,
                opaque,
            },
        )
    }

    proof fn lemma_spdm_round_trip(&self, context: &SpdmContext, rest: Seq<u8>) {
        let wire = self.spdm_spec_encode(context) + rest;
        let fixed = self.fixed_part();
        let to_hint = fixed + self.psk_hint@;
        let to_context = to_hint + self.psk_context@;
        lemma_part(wire, to_context, self.opaque@, rest);
        lemma_part(wire, to_hint, self.psk_context@, self.opaque@ + rest);
        lemma_part(wire, fixed, self.psk_hint@, self.psk_context@ + (self.opaque@ + rest));
        assert(wire.subrange(0, 10) =~= fixed);
        assert(wire[0] == fixed[0] && wire[1] == fixed[1]);
        assert(wire.subrange(2, 4) =~= fixed.subrange(2, 4));
        assert(wire.subrange(4, 6) =~= fixed.subrange(4, 6));
        assert(wire.subrange(6, 8) =~= fixed.subrange(6, 8));
        assert(wire.subrange(8, 10) =~= fixed.subrange(8, 10));
        assert(fixed.subrange(2, 4) =~= le_bytes_u16(self.req_session_id));
        assert(fixed.subrange(4, 6) =~= le_bytes_u16(self.psk_hint.data_size));
        assert(fixed.subrange(6, 8) =~= le_bytes_u16(self.psk_context.data_size));
        assert(fixed.subrange(8, 10) =~= le_bytes_u16(self.opaque.data_size));
        SpdmPskHintStruct::lemma_holds_unique(
            self.psk_hint,
            SpdmPskHintStruct::spec_from_bytes(self.psk_hint@),
            self.psk_hint@,
        );
        SpdmPskContextStruct::lemma_holds_unique(
            self.psk_context,
            SpdmPskContextStruct::spec_from_bytes(self.psk_context@),
            self.psk_context@,
        );
        SpdmOpaqueStruct::lemma_holds_unique(
            self.opaque,
            SpdmOpaqueStruct::spec_from_bytes(self.opaque@),
            self.opaque@,
        );
    }
}

/// The payload of PSK_EXCHANGE_RSP.
#[derive(Clone, Copy, Debug)]
pub struct SpdmPskExchangeResponsePayload {
    pub heartbeat_period: u8,
    pub rsp_session_id: u16,
    /// The measurement summary hash, where the request asked for one.
    pub measurement_summary_hash: Option<SpdmDigestStruct>,
    pub psk_context: SpdmPskContextStruct,
    pub opaque: SpdmOpaqueStruct,
    pub verify_data: SpdmDigestStruct,
}

impl SpdmPskExchangeResponsePayload {
    /// The bytes of the response up to the verify-data: what goes into the
    /// transcript before the verify-data is made or checked.
    pub open spec fn covered_part(&self) -> Seq<u8> {
        self.fixed_part() + optional_digest_bytes(self.measurement_summary_hash)
            + self.psk_context@ + self.opaque@
    }

    /// The fixed part of the response: the ten bytes in front of the summary
    /// hash.
    pub open spec fn fixed_part(&self) -> Seq<u8> {
        seq![self.heartbeat_period, 0u8] + le_bytes_u16(self.rsp_session_id) + seq![0u8, 0u8]
            + le_bytes_u16(self.psk_context.data_size) + le_bytes_u16(self.opaque.data_size)
    }
}

impl SpdmCodec for SpdmPskExchangeResponsePayload {
    /// Summary hash and verify-data have the length of a digest, and zeros
    /// behind them, as have context and opaque data; the summary hash is
    /// there exactly where the request asked for one.
    open spec fn spdm_spec_valid(&self, context: &SpdmContext) -> bool {
        &&& optional_digest_valid(
            self.measurement_summary_hash,
            context.runtime_info.need_measurement_summary_hash,
            context.negotiate_info.base_hash_sel.spec_size(),
        )
        &&& self.psk_context.data_size <= 64
        &&& self.psk_context.holds(self.psk_context@)
        &&& self.opaque.data_size <= 1024
        &&& self.opaque.holds(self.opaque@)
        &&& self.verify_data.data_size == context.negotiate_info.base_hash_sel.spec_size()
        &&& self.verify_data.holds(self.verify_data@)
    }

    open spec fn spdm_spec_encode(&self, context: &SpdmContext) -> Seq<u8> {
        self.covered_part() + self.verify_data@
    }

    /// A response needs as many bytes of context and opaque data as the two
    /// lengths say, 64 and 1024 at most, and the verify-data behind them.
    open spec fn spdm_spec_read(context: &SpdmContext, bytes: Seq<u8>) -> Option<
        (SpdmPskExchangeResponsePayload, nat),
    > {
        let hash_size = context.negotiate_info.base_hash_sel.spec_size() as int;
        let with_summary = context.runtime_info.need_measurement_summary_hash;
        let context_at = 10 + if with_summary {
            hash_size
        } else {
            0
        };
        if bytes.len() < 10 {
            None
        } else {
            let context_size = le_value_u16(bytes.subrange(6, 8)) as int;
            let opaque_size = le_value_u16(bytes.subrange(8, 10)) as int;
            let opaque_at = context_at + context_size;
            let verify_at = opaque_at + opaque_size;
            if context_size <= 64 && opaque_size <= 1024 && bytes.len() >= verify_at + hash_size {
                Some(
                    (
                        SpdmPskExchangeResponsePayload {
                            heartbeat_period: bytes[0],
                            rsp_session_id: le_value_u16(bytes.subrange(2, 4)),
                            measurement_summary_hash: if with_summary {
                                Some(
                                    SpdmDigestStruct::spec_from_bytes(
                                        bytes.subrange(10, context_at),
                                    ),
                                )
                            } else {
                                None
                            },
                            psk_context: SpdmPskContextStruct::spec_from_bytes(
                                bytes.subrange(context_at, opaque_at),
                            ),
                            opaque: SpdmOpaqueStruct::spec_from_bytes(
                                bytes.subrange(opaque_at, verify_at),
                            ),
                            verify_data: SpdmDigestStruct::spec_from_bytes(
                                bytes.subrange(verify_at, verify_at + hash_size),
                            ),
                        },
                        (verify_at + hash_size) as nat,
                    ),
                )
            } else {
                None
            }
        }
    }

    fn spdm_size(&self, context: &SpdmContext) -> (r: usize) {
        let summary_size: usize = match &self.measurement_summary_hash {
            Some(digest) => digest.data_size as usize,
            None => 0,
        };
        let total: usize = 10 + summary_size + self.psk_context.data_size as usize
            + self.opaque.data_size as usize + self.verify_data.data_size as usize;
        assert(self.spdm_spec_encode(context).len() == total);
        total
    }

    fn spdm_encode(&self, context: &mut SpdmContext, bytes: &mut Writer) {
        let summary_size: usize = match &self.measurement_summary_hash {
            Some(digest) => digest.data_size as usize,
            None => 0,
        };
        let total: usize = 10 + summary_size + self.psk_context.data_size as usize
            + self.opaque.data_size as usize + self.verify_data.data_size as usize;
        assert(self.spdm_spec_encode(old(context)).len() == total);
        if bytes.left() < total {
            assert(old(bytes)@.is_prefix_of(bytes@));
            return;
        }
        let ghost start = bytes@;
        let ghost mut sofar = Seq::<u8>::empty();
        assert(start + sofar =~= start);
        bytes.put_u8(self.heartbeat_period, Ghost(start), Ghost(sofar));
        proof {
            sofar = sofar + seq![self.heartbeat_period];
        }
        bytes.put_u8(0u8, Ghost(start), Ghost(sofar));
        proof {
            sofar = sofar + seq![0u8];
            assert(sofar =~= seq![self.heartbeat_period, 0u8]);
            sofar = seq![self.heartbeat_period, 0u8];
        }
        bytes.put_u16(self.rsp_session_id, Ghost(start), Ghost(sofar));
        proof {
            sofar = sofar + le_bytes_u16(self.rsp_session_id);
        }
        let ghost id_written = sofar;
        bytes.put_u8(0u8, Ghost(start), Ghost(sofar));
        proof {
            sofar = sofar + seq![0u8];
        }
        bytes.put_u8(0u8, Ghost(start), Ghost(sofar));
        proof {
            sofar = sofar + seq![0u8];
            assert(sofar =~= id_written + seq![0u8, 0u8]);
            sofar = id_written + seq![0u8, 0u8];
        }
        bytes.put_u16(self.psk_context.data_size, Ghost(start), Ghost(sofar));
        proof {
            sofar = sofar + le_bytes_u16(self.psk_context.data_size);
        }
        bytes.put_u16(self.opaque.data_size, Ghost(start), Ghost(sofar));
        proof {
            sofar = sofar + le_bytes_u16(self.opaque.data_size);
        }
        match &self.measurement_summary_hash {
            Some(digest) => {
                bytes.put(digest.as_ref(), Ghost(start), Ghost(sofar));
            },
            None => {
                assert(sofar + Seq::<u8>::empty() =~= sofar);
            },
        }
        proof {
            sofar = sofar + optional_digest_bytes(self.measurement_summary_hash);
        }
        bytes.put(self.psk_context.as_ref(), Ghost(start), Ghost(sofar));
        proof {
            sofar = sofar + self.psk_context@;
        }
        bytes.put(self.opaque.as_ref(), Ghost(start), Ghost(sofar));
        proof {
            sofar = sofar + self.opaque@;
        }
        bytes.put(self.verify_data.as_ref(), Ghost(start), Ghost(sofar));
        assert(old(bytes)@.is_prefix_of(bytes@));
    }

    fn spdm_read(context: &mut SpdmContext, r: &mut Reader) -> (v: Option<
        SpdmPskExchangeResponsePayload,
    >) {
        let bytes = r.peek();
        let hash_size: usize = context.negotiate_info.base_hash_sel.get_size() as usize;
        let with_summary = context.runtime_info.need_measurement_summary_hash;
        let context_at: usize = 10 + if with_summary {
            hash_size
        } else {
            0
        };
        if bytes.len() < 10 {
            return None;
        }
        let rsp_session_id: u16 = read_u16(slice_subrange(bytes, 2, 4));
        let context_size: u16 = read_u16(slice_subrange(bytes, 6, 8));
        let opaque_size: u16 = read_u16(slice_subrange(bytes, 8, 10));
        if context_size > 64 || opaque_size > 1024 {
            return None;
        }
        let opaque_at: usize = context_at + context_size as usize;
        let verify_at: usize = opaque_at + opaque_size as usize;
        if bytes.len() < verify_at + hash_size {
            return None;
        }
        let measurement_summary_hash = if with_summary {
            Some(SpdmDigestStruct::from_bytes(slice_subrange(bytes, 10, context_at))?)
        } else {
            None
        };
        let psk_context = SpdmPskContextStruct::from_bytes(
            slice_subrange(bytes, context_at, opaque_at),
        )?;
        let opaque = SpdmOpaqueStruct::from_bytes(slice_subrange(bytes, opaque_at, verify_at))?;
        let verify_data = SpdmDigestStruct::from_bytes(
            slice_subrange(bytes, verify_at, verify_at + hash_size),
        )?;
        let _ = r.take(verify_at + hash_size)?;
        Some(
            SpdmPskExchangeResponsePayload {
                heartbeat_period: bytes[0],
                rsp_session_id,
                measurement_summary_hash,
                psk_context,
                opaque,
                verify_data,
            },
        )
    }

    proof fn lemma_spdm_round_trip(&self, context: &SpdmContext, rest: Seq<u8>) {
        let wire = self.spdm_spec_encode(context) + rest;
        let fixed = self.fixed_part();
        let summary = optional_digest_bytes(self.measurement_summary_hash);
        let to_summary = fixed + summary;
        let to_context = to_summary + self.psk_context@;
        let to_opaque = to_context + self.opaque@;
        lemma_part(wire, to_opaque, self.verify_data@, rest);
        lemma_part(wire, to_context, self.opaque@, self.verify_data@ + rest);
        lemma_part(wire, to_summary, self.psk_context@, self.opaque@ + (self.verify_data@ + rest));
        lemma_part(
            wire,
            fixed,
            summary,
            self.psk_context@ + (self.opaque@ + (self.verify_data@ + rest)),
        );
        assert(wire.subrange(0, 10) =~= fixed);
        assert(wire[0] == fixed[0]);
        assert(wire.subrange(2, 4) =~= fixed.subrange(2, 4));
        assert(wire.subrange(6, 8) =~= fixed.subrange(6, 8));
        assert(wire.subrange(8, 10) =~= fixed.subrange(8, 10));
        assert(fixed.subrange(2, 4) =~= le_bytes_u16(self.rsp_session_id));
        assert(fixed.subrange(6, 8) =~= le_bytes_u16(self.psk_context.data_size));
        assert(fixed.subrange(8, 10) =~= le_bytes_u16(self.opaque.data_size));
        SpdmPskContextStruct::lemma_holds_unique(
            self.psk_context,
            SpdmPskContextStruct::spec_from_bytes(self.psk_context@),
            self.psk_context@,
        );
        SpdmOpaqueStruct::lemma_holds_unique(
            self.opaque,
            SpdmOpaqueStruct::spec_from_bytes(self.opaque@),
            self.opaque@,
        );
        SpdmDigestStruct::lemma_holds_unique(
            self.verify_data,
            SpdmDigestStruct::spec_from_bytes(self.verify_data@),
            self.verify_data@,
        );
        match self.measurement_summary_hash {
            Some(digest) => {
                SpdmDigestStruct::lemma_holds_unique(
                    digest,
                    SpdmDigestStruct::spec_from_bytes(digest@),
                    digest@,
                );
            },
            None => {},
        }
    }
}

} // verus!
