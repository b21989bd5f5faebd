//! KEY_EXCHANGE and KEY_EXCHANGE_RSP: the exchange that opens a session by
//! key agreement.
//!
//! Behind the header the request is `summary hash type (1) | slot id (1) |
//! requester's half of the session id (2) | session policy (1) | reserved (1)
//! | random (32) | public key | opaque length (2) | opaque data`, numbers low
//! byte first. The public key has the length that the negotiated group calls
//! for; nothing on the wire says where it ends.
//!
//! The response is `heartbeat period (1) | reserved (1) | responder's half of
//! the session id (2) | mutual authentication (1) | slot id (1) | random (32)
//! | public key | measurement summary hash | opaque length (2) | opaque data
//! | signature | verify-data`. The summary hash is there only where the
//! request asked for one, and the verify-data only where the handshake is
//! not run in the clear. Summary hash and verify-data have the length of a
//! digest of the negotiated hash, the signature that of the negotiated
//! signature algorithm.

use crate::bytes::{array32, lemma_array32, lemma_part, spec_array32};
use crate::codec::{kept_behind, le_bytes_u16, le_value_u16, read_u16, Codec, Reader, Writer};
use crate::common::spdm_codec::SpdmCodec;
use crate::common::SpdmContext;
use crate::error::{SpdmError, SpdmResult};
use crate::protocol::{
    SpdmDheExchangeStruct, SpdmDigestStruct, SpdmMeasurementSummaryHashType, SpdmOpaqueStruct,
    SpdmSignatureStruct,
};
use vstd::prelude::*;
use vstd::slice::slice_subrange;

verus! {

/// Length of the random bytes that each side adds to a key exchange.
pub const SPDM_RANDOM_SIZE: usize = 32;

/// The payload of KEY_EXCHANGE.
#[derive(Clone, Copy, Debug)]
pub struct SpdmKeyExchangeRequestPayload {
    pub measurement_summary_hash_type: SpdmMeasurementSummaryHashType,
    pub slot_id: u8,
    pub req_session_id: u16,
    pub session_policy: u8,
    pub random: [u8; 32],
    pub exchange: SpdmDheExchangeStruct,
    pub opaque: SpdmOpaqueStruct,
}

impl SpdmCodec for SpdmKeyExchangeRequestPayload {
    /// The public key has the length that the negotiated group calls for,
    /// and key and opaque data have zeros behind them.
    open spec fn spdm_spec_valid(&self, context: &SpdmContext) -> bool {
        &&& self.exchange.data_size == context.negotiate_info.dhe_sel.spec_size()
        &&& self.exchange.holds(self.exchange@)
        &&& self.opaque.data_size <= 1024
        &&& self.opaque.holds(self.opaque@)
    }

    open spec fn spdm_spec_encode(&self, context: &SpdmContext) -> Seq<u8> {
        seq![self.measurement_summary_hash_type.spec_u8(), self.slot_id] + le_bytes_u16(
            self.req_session_id,
        ) + seq![self.session_policy, 0u8] + self.random@ + self.exchange@ + le_bytes_u16(
            self.opaque.data_size,
        ) + self.opaque@
    }

    /// A request needs a summary hash type that is defined, a public key of
    /// the length of the negotiated group, and as many bytes of opaque data,
    /// 1024 at most, as the opaque length says.
    open spec fn spdm_spec_read(context: &SpdmContext, bytes: Seq<u8>) -> Option<
        (SpdmKeyExchangeRequestPayload, nat),
    > {
        let key_size = context.negotiate_info.dhe_sel.spec_size() as int;
        if bytes.len() < 38 + key_size + 2 {
            None
        } else {
            let opaque_size = le_value_u16(bytes.subrange(38 + key_size, 40 + key_size)) as int;
            match SpdmMeasurementSummaryHashType::spec_from_u8(bytes[0]) {
                Some(measurement_summary_hash_type) => if opaque_size <= 1024 && bytes.len() >= 40
                    + key_size + opaque_size {
                    Some(
                        (
                            SpdmKeyExchangeRequestPayload {
                                measurement_summary_hash_type,
                                slot_id: bytes[1],
                                req_session_id: le_value_u16(bytes.subrange(2, 4)),
                                session_policy: bytes[4],
                                random: spec_array32(bytes.subrange(6, 38)),
                                exchange: SpdmDheExchangeStruct::spec_from_bytes(
                                    bytes.subrange(38, 38 + key_size),
                                ),
                                opaque: SpdmOpaqueStruct::spec_from_bytes(
                                    bytes.subrange(40 + key_size, 40 + key_size + opaque_size),
                                ),
                            },
                            (40 + key_size + opaque_size) as nat,
                        ),
                    )
                } else {
                    None
                },
                None => None,
            }
        }
    }

    fn spdm_size(&self, context: &SpdmContext) -> (r: usize) {
        let total: usize = 40 + self.exchange.data_size as usize + self.opaque.data_size as usize;
        assert(self.spdm_spec_encode(context).len() == total);
        total
    }

    fn spdm_encode(&self, context: &mut SpdmContext, bytes: &mut Writer) {
        let total: usize = 40 + self.exchange.data_size as usize + self.opaque.data_size as usize;
        assert(self.spdm_spec_encode(old(context)).len() == total);
        if bytes.left() < total {
            assert(old(bytes)@.is_prefix_of(bytes@));
            return;
        }
        let ghost start = bytes@;
        let ghost mut sofar = Seq::<u8>::empty();
        assert(start + sofar =~= start);
        bytes.put_u8(self.measurement_summary_hash_type.get_u8(), Ghost(start), Ghost(sofar));
        proof {
            sofar = sofar + seq![self.measurement_summary_hash_type.spec_u8()];
        }
        bytes.put_u8(self.slot_id, Ghost(start), Ghost(sofar));
        proof {
            sofar = sofar + seq![self.slot_id];
            assert(sofar =~= seq![self.measurement_summary_hash_type.spec_u8(), self.slot_id]);
            sofar = seq![self.measurement_summary_hash_type.spec_u8(), self.slot_id];
        }
        bytes.put_u16(self.req_session_id, Ghost(start), Ghost(sofar));
        proof {
            sofar = sofar + le_bytes_u16(self.req_session_id);
        }
        let ghost id_written = sofar;
        bytes.put_u8(self.session_policy, Ghost(start), Ghost(sofar));
        proof {
            sofar = sofar + seq![self.session_policy];
        }
        bytes.put_u8(0u8, Ghost(start), Ghost(sofar));
        proof {
            sofar = sofar + seq![0u8];
            assert(sofar =~= id_written + seq![self.session_policy, 0u8]);
            sofar = id_written + seq![self.session_policy, 0u8];
        }
        bytes.put(self.random.as_slice(), Ghost(start), Ghost(sofar));
        proof {
            sofar = sofar + self.random@;
        }
        bytes.put(self.exchange.as_ref(), Ghost(start), Ghost(sofar));
        proof {
            sofar = sofar + self.exchange@;
        }
        bytes.put_u16(self.opaque.data_size, Ghost(start), Ghost(sofar));
        proof {
            sofar = sofar + le_bytes_u16(self.opaque.data_size);
        }
        bytes.put(self.opaque.as_ref(), Ghost(start), Ghost(sofar));
        assert(old(bytes)@.is_prefix_of(bytes@));
    }

    fn spdm_read(context: &mut SpdmContext, r: &mut Reader) -> (v: Option<
        SpdmKeyExchangeRequestPayload,
    >) {
        let bytes = r.peek();
        let key_size: usize = context.negotiate_info.dhe_sel.get_size() as usize;
        if bytes.len() < 38 + key_size + 2 {
            return None;
        }
        let opaque_size: u16 = read_u16(slice_subrange(bytes, 38 + key_size, 40 + key_size));
        let measurement_summary_hash_type = SpdmMeasurementSummaryHashType::from_u8(bytes[0])?;
        if opaque_size > 1024 || bytes.len() < 40 + key_size + opaque_size as usize {
            return None;
        }
        let req_session_id: u16 = read_u16(slice_subrange(bytes, 2, 4));
        let random = array32(slice_subrange(bytes, 6, 38));
        let exchange = SpdmDheExchangeStruct::from_bytes(slice_subrange(bytes, 38, 38 + key_size))?;
        let opaque = SpdmOpaqueStruct::from_bytes(
            slice_subrange(bytes, 40 + key_size, 40 + key_size + opaque_size as usize),
        )?;
        let _ = r.take(40 + key_size + opaque_size as usize)?;
        Some(
            SpdmKeyExchangeRequestPayload {
                measurement_summary_hash_type,
                slot_id: bytes[1],
                req_session_id,
                session_policy: bytes[4],
                random,
                exchange,
                opaque,
            },
        )
    }

    proof fn lemma_spdm_round_trip(&self, context: &SpdmContext, rest: Seq<u8>) {
        let wire = self.spdm_spec_encode(context) + rest;
        let fixed = seq![self.measurement_summary_hash_type.spec_u8(), self.slot_id] + le_bytes_u16(
            self.req_session_id,
        ) + seq![self.session_policy, 0u8];
        let size = le_bytes_u16(self.opaque.data_size);
        let to_random = fixed + self.random@;
        let to_exchange = to_random + self.exchange@;
        let to_size = to_exchange + size;
        lemma_part(wire, to_size, self.opaque@, rest);
        lemma_part(wire, to_exchange, size, self.opaque@ + rest);
        lemma_part(wire, to_random, self.exchange@, size + (self.opaque@ + rest));
        lemma_part(wire, fixed, self.random@, self.exchange@ + (size + (self.opaque@ + rest)));
        assert(wire.subrange(0, 6) =~= fixed);
        assert(wire[0] == fixed[0] && wire[1] == fixed[1] && wire[4] == fixed[4]);
        assert(wire.subrange(2, 4) =~= fixed.subrange(2, 4));
        assert(fixed.subrange(2, 4) =~= le_bytes_u16(self.req_session_id));
        lemma_array32(self.random);
        SpdmDheExchangeStruct::lemma_holds_unique(
            self.exchange,
            SpdmDheExchangeStruct::spec_from_bytes(self.exchange@),
            self.exchange@,
        );
        SpdmOpaqueStruct::lemma_holds_unique(
            self.opaque,
            SpdmOpaqueStruct::spec_from_bytes(self.opaque@),
            self.opaque@,
        );
    }
}

/// The KEY_EXCHANGE request in `payload`, which must be one and nothing more.
/// A payload that is no request on this connection, as one whose public key
/// has not the length of the negotiated group, or that holds anything behind
/// the request, is refused with `InvalidMsgField`.
pub fn decode_key_exchange_request(context: &mut SpdmContext, payload: &[u8]) -> (r: SpdmResult<
    SpdmKeyExchangeRequestPayload,
>)
    ensures
        *final(context) == *old(context),
        r.is_ok() <==> (SpdmKeyExchangeRequestPayload::spdm_spec_read(old(context), payload@)
            matches Some((request, used)) && used == payload@.len()),
        r matches Ok(request) ==> SpdmKeyExchangeRequestPayload::spdm_spec_read(
            old(context),
            payload@,
        ) == Some((request, payload@.len())) && request.spdm_spec_valid(old(context)),
        r matches Err(e) ==> e == SpdmError::InvalidMsgField,
{
    let mut reader = Reader::init(payload);
    match SpdmKeyExchangeRequestPayload::spdm_read(context, &mut reader) {
        Some(request) => if reader.left() == 0 {
            Ok(request)
        } else {
            Err(SpdmError::InvalidMsgField)
        },
        None => Err(SpdmError::InvalidMsgField),
    }
}

/// Whether, and how, the responder asks the requester to authenticate.
#[derive(Clone, Copy, Debug, PartialEq, Eq, Structural)]
pub enum SpdmKeyExchangeMutAuthAttributes {
    /// The requester is not asked to authenticate.
    NoMutAuth,
    /// The requester authenticates with the certificates that the responder
    /// knows.
    MutAuthReq,
    /// The responder first sends requests of its own, wrapped into
    /// responses.
    MutAuthReqWithEncapRequest,
    /// The responder first asks for the digests of the requester.
    MutAuthReqWithGetDigests,
}

impl SpdmKeyExchangeMutAuthAttributes {
    /// The wire byte of the attributes.
    pub open spec fn spec_u8(&self) -> u8 {
        match self {
            SpdmKeyExchangeMutAuthAttributes::NoMutAuth => 0,
            SpdmKeyExchangeMutAuthAttributes::MutAuthReq => 1,
            SpdmKeyExchangeMutAuthAttributes::MutAuthReqWithEncapRequest => 2,
            SpdmKeyExchangeMutAuthAttributes::MutAuthReqWithGetDigests => 4,
        }
    }

    /// The attributes that a wire byte stands for, if any.
    pub open spec fn spec_from_u8(value: u8) -> Option<SpdmKeyExchangeMutAuthAttributes> {
        if value == 0 {
            Some(SpdmKeyExchangeMutAuthAttributes::NoMutAuth)
        } else if value == 1 {
            Some(SpdmKeyExchangeMutAuthAttributes::MutAuthReq)
        } else if value == 2 {
            Some(SpdmKeyExchangeMutAuthAttributes::MutAuthReqWithEncapRequest)
        } else if value == 4 {
            Some(SpdmKeyExchangeMutAuthAttributes::MutAuthReqWithGetDigests)
        } else {
            None
        }
    }

    #[verifier::when_used_as_spec(spec_u8)]
    pub fn get_u8(&self) -> (r: u8)
        ensures
            r == self.spec_u8(),
    {
        match self {
            SpdmKeyExchangeMutAuthAttributes::NoMutAuth => 0,
            SpdmKeyExchangeMutAuthAttributes::MutAuthReq => 1,
            SpdmKeyExchangeMutAuthAttributes::MutAuthReqWithEncapRequest => 2,
            SpdmKeyExchangeMutAuthAttributes::MutAuthReqWithGetDigests => 4,
        }
    }

    pub fn from_u8(value: u8) -> (r: Option<SpdmKeyExchangeMutAuthAttributes>)
        ensures
            r == Self::spec_from_u8(value),
            r matches Some(attributes) ==> attributes.spec_u8() == value,
    {
        if value == 0 {
            Some(SpdmKeyExchangeMutAuthAttributes::NoMutAuth)
        } else if value == 1 {
            Some(SpdmKeyExchangeMutAuthAttributes::MutAuthReq)
        } else if value == 2 {
            Some(SpdmKeyExchangeMutAuthAttributes::MutAuthReqWithEncapRequest)
        } else if value == 4 {
            Some(SpdmKeyExchangeMutAuthAttributes::MutAuthReqWithGetDigests)
        } else {
            None
        }
    }
}

/// The bytes of an optional digest, none where there is no digest.
pub open spec fn optional_digest_bytes(digest: Option<SpdmDigestStruct>) -> Seq<u8> {
    match digest {
        Some(digest) => digest@,
        None => Seq::<u8>::empty(),
    }
}

/// An optional digest is there exactly where `needed` says so, and has then
/// `size` bytes and zeros behind them.
pub open spec fn optional_digest_valid(digest: Option<SpdmDigestStruct>, needed: bool, size: u16)
    -> bool {
    &&& digest.is_some() == needed
    &&& digest matches Some(digest) ==> digest.data_size == size && digest.holds(digest@)
}

/// The payload of KEY_EXCHANGE_RSP.
#[derive(Clone, Copy, Debug)]
pub struct SpdmKeyExchangeResponsePayload {
    pub heartbeat_period: u8,
    pub rsp_session_id: u16,
    pub mut_auth_req: SpdmKeyExchangeMutAuthAttributes,
    pub req_slot_id: u8,
    pub random: [u8; 32],
    pub exchange: SpdmDheExchangeStruct,
    /// The measurement summary hash, where the request asked for one.
    pub measurement_summary_hash: Option<SpdmDigestStruct>,
    pub opaque: SpdmOpaqueStruct,
    pub signature: SpdmSignatureStruct,
    /// The verify-data of the responder, unless the handshake runs in the
    /// clear.
    pub verify_data: Option<SpdmDigestStruct>,
}

impl SpdmKeyExchangeResponsePayload {
    /// The bytes of the response up to the signature: what goes into the
    /// transcript before the signature is made or checked.
    pub open spec fn signed_part(&self) -> Seq<u8> {
        seq![self.heartbeat_period, 0u8] + le_bytes_u16(self.rsp_session_id) + seq![
            self.mut_auth_req.spec_u8(),
            self.req_slot_id,
        ] + self.random@ + self.exchange@ + optional_digest_bytes(self.measurement_summary_hash)
            + le_bytes_u16(self.opaque.data_size) + self.opaque@
    }
}

impl SpdmKeyExchangeResponsePayload {
    /// Appends the bytes of the response up to the signature.
    fn put_signed_part(&self, bytes: &mut Writer)
        requires
            old(bytes).wf(),
            self.exchange.wf(),
            self.opaque.wf(),
            self.measurement_summary_hash matches Some(digest) ==> digest.wf(),
            old(bytes).spec_left() >= self.signed_part().len(),
        ensures
            final(bytes).wf(),
            final(bytes).capacity() == old(bytes).capacity(),
            final(final(bytes).bytes)@ == final(old(bytes).bytes)@,
            final(bytes)@ == old(bytes)@ + self.signed_part(),
            final(bytes).spec_left() == old(bytes).spec_left() - self.signed_part().len(),
            kept_behind(old(bytes).bytes@, final(bytes).bytes@, final(bytes).used as int),
    {
        let ghost start = bytes@;
        let ghost mut sofar = Seq::<u8>::empty();
        assert(start + sofar =~= start);
        bytes.put_u8(self.heartbeat_period, Ghost(start), Ghost(sofar));
        proof {
            sofar = sofar + seq![self.heartbeat_period];
        }
        bytes.put_u8(0u8, Ghost(start), Ghost(sofar));
        proof {
            sofar = sofar + seq![0u8];
            assert(sofar =~= seq![self.heartbeat_period, 0u8]);
            sofar = seq![self.heartbeat_period, 0u8];
        }
        bytes.put_u16(self.rsp_session_id, Ghost(start), Ghost(sofar));
        proof {
            sofar = sofar + le_bytes_u16(self.rsp_session_id);
        }
        let ghost id_written = sofar;
        bytes.put_u8(self.mut_auth_req.get_u8(), Ghost(start), Ghost(sofar));
        proof {
            sofar = sofar + seq![self.mut_auth_req.spec_u8()];
        }
        bytes.put_u8(self.req_slot_id, Ghost(start), Ghost(sofar));
        proof {
            sofar = sofar + seq![self.req_slot_id];
            assert(sofar =~= id_written + seq![self.mut_auth_req.spec_u8(), self.req_slot_id]);
            sofar = id_written + seq![self.mut_auth_req.spec_u8(), self.req_slot_id];
        }
        bytes.put(self.random.as_slice(), Ghost(start), Ghost(sofar));
        proof {
            sofar = sofar + self.random@;
        }
        bytes.put(self.exchange.as_ref(), Ghost(start), Ghost(sofar));
        proof {
            sofar = sofar + self.exchange@;
        }
        match &self.measurement_summary_hash {
            Some(digest) => {
                bytes.put(digest.as_ref(), Ghost(start), Ghost(sofar));
            },
            None => {
                assert(sofar + Seq::<u8>::empty() =~= sofar);
            },
        }
        proof {
            sofar = sofar + optional_digest_bytes(self.measurement_summary_hash);
        }
        bytes.put_u16(self.opaque.data_size, Ghost(start), Ghost(sofar));
        proof {
            sofar = sofar + le_bytes_u16(self.opaque.data_size);
        }
        bytes.put(self.opaque.as_ref(), Ghost(start), Ghost(sofar));
    }
}

impl SpdmCodec for SpdmKeyExchangeResponsePayload {
    /// Public key, summary hash, signature and verify-data have the lengths
    /// that the negotiated algorithms call for, and zeros behind them, as has
    /// the opaque data; summary hash and verify-data are there exactly where
    /// the connection calls for them.
    open spec fn spdm_spec_valid(&self, context: &SpdmContext) -> bool {
        &&& self.exchange.data_size == context.negotiate_info.dhe_sel.spec_size()
        &&& self.exchange.holds(self.exchange@)
        &&& optional_digest_valid(
            self.measurement_summary_hash,
            context.runtime_info.need_measurement_summary_hash,
            context.negotiate_info.base_hash_sel.spec_size(),
        )
        &&& self.opaque.data_size <= 1024
        &&& self.opaque.holds(self.opaque@)
        &&& self.signature.data_size == context.negotiate_info.base_asym_sel.spec_size()
        &&& self.signature.holds(self.signature@)
        &&& optional_digest_valid(
            self.verify_data,
            !context.spec_handshake_in_the_clear(),
            context.negotiate_info.base_hash_sel.spec_size(),
        )
    }

    open spec fn spdm_spec_encode(&self, context: &SpdmContext) -> Seq<u8> {
        self.signed_part() + self.signature@ + optional_digest_bytes(self.verify_data)
    }

    /// A response needs attributes of mutual authentication that are
    /// defined, a public key of the length of the negotiated group, as many
    /// bytes of opaque data, 1024 at most, as the opaque length says, and
    /// behind them a signature and the verify-data.
    open spec fn spdm_spec_read(context: &SpdmContext, bytes: Seq<u8>) -> Option<
        (SpdmKeyExchangeResponsePayload, nat),
    > {
        let key_size = context.negotiate_info.dhe_sel.spec_size() as int;
        let hash_size = context.negotiate_info.base_hash_sel.spec_size() as int;
        let signature_size = context.negotiate_info.base_asym_sel.spec_size() as int;
        let with_summary = context.runtime_info.need_measurement_summary_hash;
        let with_verify_data = !context.spec_handshake_in_the_clear();
        let opaque_at = 38 + key_size + if with_summary {
            hash_size
        } else {
            0
        };
        let verify_size = if with_verify_data {
            hash_size
        } else {
            0
        };
        if bytes.len() < opaque_at + 2 {
            None
        } else {
            let opaque_size = le_value_u16(bytes.subrange(opaque_at, opaque_at + 2)) as int;
            let signature_at = opaque_at + 2 + opaque_size;
            match SpdmKeyExchangeMutAuthAttributes::spec_from_u8(bytes[4]) {
                Some(mut_auth_req) => if opaque_size <= 1024 && bytes.len() >= signature_at
                    + signature_size + verify_size {
                    Some(
                        (
                            SpdmKeyExchangeResponsePayload {
                                heartbeat_period: bytes[0],
                                rsp_session_id: le_value_u16(bytes.subrange(2, 4)),
                                mut_auth_req,
                                req_slot_id: bytes[5],
                                random: spec_array32(bytes.subrange(6, 38)),
                                exchange: SpdmDheExchangeStruct::spec_from_bytes(
                                    bytes.subrange(38, 38 + key_size),
                                ),
                                measurement_summary_hash: if with_summary {
                                    Some(
                                        SpdmDigestStruct::spec_from_bytes(
                                            bytes.subrange(38 + key_size, opaque_at),
                                        ),
                                    )
                                } else {
                                    None
                                },
                                opaque: SpdmOpaqueStruct::spec_from_bytes(
                                    bytes.subrange(opaque_at + 2, signature_at),
                                ),
                                signature: SpdmSignatureStruct::spec_from_bytes(
                                    bytes.subrange(signature_at, signature_at + signature_size),
                                ),
                                verify_data: if with_verify_data {
                                    Some(
                                        SpdmDigestStruct::spec_from_bytes(
                                            bytes.subrange(
                                                signature_at + signature_size,
                                                signature_at + signature_size + hash_size,
                                            ),
                                        ),
                                    )
                                } else {
                                    None
                                },
                            },
                            (signature_at + signature_size + verify_size) as nat,
                        ),
                    )
                } else {
                    None
                },
                None => None,
            }
        }
    }

    fn spdm_size(&self, context: &SpdmContext) -> (r: usize) {
        let summary_size: usize = match &self.measurement_summary_hash {
            Some(digest) => digest.data_size as usize,
            None => 0,
        };
        let verify_size: usize = match &self.verify_data {
            Some(digest) => digest.data_size as usize,
            None => 0,
        };
        let total: usize = 40 + self.exchange.data_size as usize + summary_size
            + self.opaque.data_size as usize + self.signature.data_size as usize + verify_size;
        assert(self.spdm_spec_encode(context).len() == total);
        total
    }

    fn spdm_encode(&self, context: &mut SpdmContext, bytes: &mut Writer) {
        let summary_size: usize = match &self.measurement_summary_hash {
            Some(digest) => digest.data_size as usize,
            None => 0,
        };
        let verify_size: usize = match &self.verify_data {
            Some(digest) => digest.data_size as usize,
            None => 0,
        };
        let total: usize = 40 + self.exchange.data_size as usize + summary_size
            + self.opaque.data_size as usize + self.signature.data_size as usize + verify_size;
        assert(self.spdm_spec_encode(old(context)).len() == total);
        if bytes.left() < total {
            assert(old(bytes)@.is_prefix_of(bytes@));
            return;
        }
        let ghost start = bytes@;
        self.put_signed_part(bytes);
        let ghost mut sofar = self.signed_part();
        bytes.put(self.signature.as_ref(), Ghost(start), Ghost(sofar));
        proof {
            sofar = sofar + self.signature@;
        }
        match &self.verify_data {
            Some(digest) => {
                bytes.put(digest.as_ref(), Ghost(start), Ghost(sofar));
            },
            None => {
                assert(sofar + Seq::<u8>::empty() =~= sofar);
            },
        }
        assert(old(bytes)@.is_prefix_of(bytes@));
    }

    fn spdm_read(context: &mut SpdmContext, r: &mut Reader) -> (v: Option<
        SpdmKeyExchangeResponsePayload,
    >) {
        let bytes = r.peek();
        let key_size: usize = context.negotiate_info.dhe_sel.get_size() as usize;
        let hash_size: usize = context.negotiate_info.base_hash_sel.get_size() as usize;
        let signature_size: usize = context.negotiate_info.base_asym_sel.get_size() as usize;
        let with_summary = context.runtime_info.need_measurement_summary_hash;
        let with_verify_data = !context.handshake_in_the_clear();
        let opaque_at: usize = 38 + key_size + if with_summary {
            hash_size
        } else {
            0
        };
        let verify_size: usize = if with_verify_data {
            hash_size
        } else {
            0
        };
        if bytes.len() < opaque_at + 2 {
            return None;
        }
        let opaque_size: u16 = read_u16(slice_subrange(bytes, opaque_at, opaque_at + 2));
        let signature_at: usize = opaque_at + 2 + opaque_size as usize;
        let mut_auth_req = SpdmKeyExchangeMutAuthAttributes::from_u8(bytes[4])?;
        if opaque_size > 1024 || bytes.len() < signature_at + signature_size + verify_size {
            return None;
        }
        let rsp_session_id: u16 = read_u16(slice_subrange(bytes, 2, 4));
        let random = array32(slice_subrange(bytes, 6, 38));
        let exchange = SpdmDheExchangeStruct::from_bytes(slice_subrange(bytes, 38, 38 + key_size))?;
        let measurement_summary_hash = if with_summary {
            Some(SpdmDigestStruct::from_bytes(slice_subrange(bytes, 38 + key_size, opaque_at))?)
        } else {
            None
        };
        let opaque = SpdmOpaqueStruct::from_bytes(
            slice_subrange(bytes, opaque_at + 2, signature_at),
        )?;
        let signature = SpdmSignatureStruct::from_bytes(
            slice_subrange(bytes, signature_at, signature_at + signature_size),
        )?;
        let verify_data = if with_verify_data {
            Some(
                SpdmDigestStruct::from_bytes(
                    slice_subrange(
                        bytes,
                        signature_at + signature_size,
                        signature_at + signature_size + hash_size,
                    ),
                )?,
            )
        } else {
            None
        };
        let _ = r.take(signature_at + signature_size + verify_size)?;
        Some(
            SpdmKeyExchangeResponsePayload {
                heartbeat_period: bytes[0],
                rsp_session_id,
                mut_auth_req,
                req_slot_id: bytes[5],
                random,
                exchange,
                measurement_summary_hash,
                opaque,
                signature,
                verify_data,
            },
        )
    }

    proof fn lemma_spdm_round_trip(&self, context: &SpdmContext, rest: Seq<u8>) {
        let wire = self.spdm_spec_encode(context) + rest;
        let fixed = seq![self.heartbeat_period, 0u8] + le_bytes_u16(self.rsp_session_id) + seq![
            self.mut_auth_req.spec_u8(),
            self.req_slot_id,
        ];
        let summary = optional_digest_bytes(self.measurement_summary_hash);
        let size = le_bytes_u16(self.opaque.data_size);
        let verify_data = optional_digest_bytes(self.verify_data);
        let to_random = fixed + self.random@;
        let to_exchange = to_random + self.exchange@;
        let to_summary = to_exchange + summary;
        let to_size = to_summary + size;
        let to_opaque = to_size + self.opaque@;
        let to_signature = to_opaque + self.signature@;
        lemma_part(wire, to_signature, verify_data, rest);
        lemma_part(wire, to_opaque, self.signature@, verify_data + rest);
        lemma_part(wire, to_size, self.opaque@, self.signature@ + (verify_data + rest));
        lemma_part(
            wire,
            to_summary,
            size,
            self.opaque@ + (self.signature@ + (verify_data + rest)),
        );
        lemma_part(
            wire,
            to_exchange,
            summary,
            size + (self.opaque@ + (self.signature@ + (verify_data + rest))),
        );
        lemma_part(
            wire,
            to_random,
            self.exchange@,
            summary + (size + (self.opaque@ + (self.signature@ + (verify_data + rest)))),
        );
        lemma_part(
            wire,
            fixed,
            self.random@,
            self.exchange@ + (summary + (size + (self.opaque@ + (self.signature@ + (verify_data
                + rest))))),
        );
        assert(wire.subrange(0, 6) =~= fixed);
        assert(wire[0] == fixed[0] && wire[4] == fixed[4] && wire[5] == fixed[5]);
        assert(wire.subrange(2, 4) =~= fixed.subrange(2, 4));
        assert(fixed.subrange(2, 4) =~= le_bytes_u16(self.rsp_session_id));
        lemma_array32(self.random);
        SpdmDheExchangeStruct::lemma_holds_unique(
            self.exchange,
            SpdmDheExchangeStruct::spec_from_bytes(self.exchange@),
            self.exchange@,
        );
        SpdmOpaqueStruct::lemma_holds_unique(
            self.opaque,
            SpdmOpaqueStruct::spec_from_bytes(self.opaque@),
            self.opaque@,
        );
        SpdmSignatureStruct::lemma_holds_unique(
            self.signature,
            SpdmSignatureStruct::spec_from_bytes(self.signature@),
            self.signature@,
        );
        match self.measurement_summary_hash {
            Some(digest) => {
                SpdmDigestStruct::lemma_holds_unique(
                    digest,
                    SpdmDigestStruct::spec_from_bytes(digest@),
                    digest@,
                );
            },
            None => {},
        }
        match self.verify_data {
            Some(digest) => {
                SpdmDigestStruct::lemma_holds_unique(
                    digest,
                    SpdmDigestStruct::spec_from_bytes(digest@),
                    digest@,
                );
            },
            None => {},
        }
    }
}

} // verus!
