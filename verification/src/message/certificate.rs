//! GET_CERTIFICATE and CERTIFICATE: the exchange that moves a certificate
//! chain, in portions.
//!
//! Behind the header the request is `slot (1) | reserved (1) | offset (2) |
//! length (2)`, numbers low byte first: it asks for up to `length` bytes of
//! the chain in the slot, from `offset` on. The response is `slot (1) |
//! reserved (1) | portion length (2) | remainder length (2) | portion`: the
//! portion, and how many bytes of the chain lie behind it.

use crate::bytes::lemma_part;
use crate::codec::{le_bytes_u16, le_value_u16, read_u16, Reader, Writer};
use crate::common::cert_chain::append_cert_chain_portion;
use crate::common::spdm_codec::SpdmCodec;
use crate::common::SpdmContext;
use crate::config::{MAX_SPDM_CERT_CHAIN_DATA_SIZE, MAX_SPDM_CERT_PORTION_LEN};
use crate::error::{SpdmError, SpdmResult};
use crate::protocol::{SpdmCertChainData, SpdmCertChainPortion};
use vstd::prelude::*;
use vstd::slice::slice_subrange;

verus! {

/// The payload of GET_CERTIFICATE.
#[derive(Clone, Copy, Debug, PartialEq, Eq, Structural)]
pub struct SpdmGetCertificateRequestPayload {
    pub slot_id: u8,
    pub offset: u16,
    pub length: u16,
}

impl SpdmGetCertificateRequestPayload {
    /// The six bytes of the request.
    pub open spec fn wire(&self) -> Seq<u8> {
        seq![self.slot_id, 0u8] + le_bytes_u16(self.offset) + le_bytes_u16(self.length)
    }
}

impl SpdmCodec for SpdmGetCertificateRequestPayload {
    /// There are eight slots.
    open spec fn spdm_spec_valid(&self, context: &SpdmContext) -> bool {
        self.slot_id < 8
    }

    open spec fn spdm_spec_encode(&self, context: &SpdmContext) -> Seq<u8> {
        self.wire()
    }

    /// A request names one of the eight slots.
    open spec fn spdm_spec_read(context: &SpdmContext, bytes: Seq<u8>) -> Option<
        (SpdmGetCertificateRequestPayload, nat),
    > {
        if bytes.len() >= 6 && bytes[0] < 8 {
            Some(
                (
                    SpdmGetCertificateRequestPayload {
                        slot_id: bytes[0],
                        offset: le_value_u16(bytes.subrange(2, 4)),
                        length: le_value_u16(bytes.subrange(4, 6)),
                    },
                    6nat,
                ),
            )
        } else {
            None
        }
    }

    fn spdm_size(&self, context: &SpdmContext) -> (r: usize) {
        assert(self.wire().len() == 6);
        6
    }

    fn spdm_encode(&self, context: &mut SpdmContext, bytes: &mut Writer) {
        assert(self.wire().len() == 6);
        if bytes.left() < 6 {
            assert(old(bytes)@.is_prefix_of(bytes@));
            return;
        }
        let ghost start = bytes@;
        let ghost mut sofar = Seq::<u8>::empty();
        assert(start + sofar =~= start);
        bytes.put_u8(self.slot_id, Ghost(start), Ghost(sofar));
        proof {
            sofar = sofar + seq![self.slot_id];
        }
        bytes.put_u8(0u8, Ghost(start), Ghost(sofar));
        proof {
            sofar = sofar + seq![0u8];
            assert(sofar =~= seq![self.slot_id, 0u8]);
            sofar = seq![self.slot_id, 0u8];
        }
        bytes.put_u16(self.offset, Ghost(start), Ghost(sofar));
        proof {
            sofar = sofar + le_bytes_u16(self.offset);
        }
        bytes.put_u16(self.length, Ghost(start), Ghost(sofar));
        assert(old(bytes)@.is_prefix_of(bytes@));
    }

    fn spdm_read(context: &mut SpdmContext, r: &mut Reader) -> (v: Option<
        SpdmGetCertificateRequestPayload,
    >) {
        let bytes = r.peek();
        if bytes.len() < 6 || bytes[0] >= 8 {
            return None;
        }
        let offset: u16 = read_u16(slice_subrange(bytes, 2, 4));
        let length: u16 = read_u16(slice_subrange(bytes, 4, 6));
        let _ = r.take(6)?;
        Some(SpdmGetCertificateRequestPayload { slot_id: bytes[0], offset, length })
    }

    proof fn lemma_spdm_round_trip(&self, context: &SpdmContext, rest: Seq<u8>) {
        let wire = self.spdm_spec_encode(context) + rest;
        assert(wire.subrange(0, 6) =~= self.wire());
        assert(wire[0] == self.wire()[0]);
        assert(wire.subrange(2, 4) =~= le_bytes_u16(self.offset));
        assert(wire.subrange(4, 6) =~= le_bytes_u16(self.length));
    }
}

/// The payload of CERTIFICATE.
#[derive(Clone, Copy, Debug)]
pub struct SpdmCertificateResponsePayload {
    pub slot_id: u8,
    /// How many bytes of the chain lie behind the portion.
    pub remainder_length: u16,
    pub portion: SpdmCertChainPortion,
}

impl SpdmCertificateResponsePayload {
    /// The fixed part of the response: the six bytes in front of the
    /// portion.
    pub open spec fn fixed_part(&self) -> Seq<u8> {
        seq![self.slot_id, 0u8] + le_bytes_u16(self.portion.data_size) + le_bytes_u16(
            self.remainder_length,
        )
    }
}

impl SpdmCodec for SpdmCertificateResponsePayload {
    /// There are eight slots, and a portion has 512 bytes at most, and zeros
    /// behind them.
    open spec fn spdm_spec_valid(&self, context: &SpdmContext) -> bool {
        &&& self.slot_id < 8
        &&& self.portion.data_size <= 512
        &&& self.portion.holds(self.portion@)
    }

    open spec fn spdm_spec_encode(&self, context: &SpdmContext) -> Seq<u8> {
        self.fixed_part() + self.portion@
    }

    /// A response names one of the eight slots and carries as many bytes,
    /// 512 at most, as its portion length says.
    open spec fn spdm_spec_read(context: &SpdmContext, bytes: Seq<u8>) -> Option<
        (SpdmCertificateResponsePayload, nat),
    > {
        if bytes.len() < 6 || bytes[0] >= 8 {
            None
        } else {
            let portion_length = le_value_u16(bytes.subrange(2, 4)) as int;
            if portion_length <= 512 && bytes.len() >= 6 + portion_length {
                Some(
                    (
                        SpdmCertificateResponsePayload {
                            slot_id: bytes[0],
                            remainder_length: le_value_u16(bytes.subrange(4, 6)),
                            portion: SpdmCertChainPortion::spec_from_bytes(
                                bytes.subrange(6, 6 + portion_length),
                            ),
                        },
                        (6 + portion_length) as nat,
                    ),
                )
            } else {
                None
            }
        }
    }

    fn spdm_size(&self, context: &SpdmContext) -> (r: usize) {
        let total: usize = 6 + self.portion.data_size as usize;
        assert(self.spdm_spec_encode(context).len() == total);
        total
    }

    fn spdm_encode(&self, context: &mut SpdmContext, bytes: &mut Writer) {
        let total: usize = 6 + self.portion.data_size as usize;
        assert(self.spdm_spec_encode(old(context)).len() == total);
        if bytes.left() < total {
            assert(old(bytes)@.is_prefix_of(bytes@));
            return;
        }
        let ghost start = bytes@;
        let ghost mut sofar = Seq::<u8>::empty();
        assert(start + sofar =~= start);
        bytes.put_u8(self.slot_id, Ghost(start), Ghost(sofar));
        proof {
            sofar = sofar + seq![self.slot_id];
        }
        bytes.put_u8(0u8, Ghost(start), Ghost(sofar));
        proof {
            sofar = sofar + seq![0u8];
            assert(sofar =~= seq![self.slot_id, 0u8]);
            sofar = seq![self.slot_id, 0u8];
        }
        bytes.put_u16(self.portion.data_size, Ghost(start), Ghost(sofar));
        proof {
            sofar = sofar + le_bytes_u16(self.portion.data_size);
        }
        bytes.put_u16(self.remainder_length, Ghost(start), Ghost(sofar));
        proof {
            sofar = sofar + le_bytes_u16(self.remainder_length);
        }
        bytes.put(self.portion.as_ref(), Ghost(start), Ghost(sofar));
        assert(old(bytes)@.is_prefix_of(bytes@));
    }

    fn spdm_read(context: &mut SpdmContext, r: &mut Reader) -> (v: Option<
        SpdmCertificateResponsePayload,
    >) {
        let bytes = r.peek();
        if bytes.len() < 6 || bytes[0] >= 8 {
            return None;
        }
        let portion_length: u16 = read_u16(slice_subrange(bytes, 2, 4));
        let remainder_length: u16 = read_u16(slice_subrange(bytes, 4, 6));
        if portion_length > 512 || bytes.len() < 6 + portion_length as usize {
            return None;
        }
        let portion = SpdmCertChainPortion::from_bytes(
            slice_subrange(bytes, 6, 6 + portion_length as usize),
        )?;
        let _ = r.take(6 + portion_length as usize)?;
        Some(SpdmCertificateResponsePayload { slot_id: bytes[0], remainder_length, portion })
    }

    proof fn lemma_spdm_round_trip(&self, context: &SpdmContext, rest: Seq<u8>) {
        let wire = self.spdm_spec_encode(context) + rest;
        let fixed = self.fixed_part();
        lemma_part(wire, fixed, self.portion@, rest);
        assert(wire.subrange(0, 6) =~= fixed);
        assert(wire[0] == fixed[0]);
        assert(wire.subrange(2, 4) =~= fixed.subrange(2, 4));
        assert(wire.subrange(4, 6) =~= fixed.subrange(4, 6));
        assert(fixed.subrange(2, 4) =~= le_bytes_u16(self.portion.data_size));
        assert(fixed.subrange(4, 6) =~= le_bytes_u16(self.remainder_length));
        SpdmCertChainPortion::lemma_holds_unique(
            self.portion,
            SpdmCertChainPortion::spec_from_bytes(self.portion@),
            self.portion@,
        );
    }
}

/// The request for the next portion of the chain in the slot `slot_id`, of
/// which `chain` holds what has arrived: it asks for the largest portion,
/// from the end of `chain` on.
pub fn next_certificate_request(chain: &SpdmCertChainData, slot_id: u8) -> (r:
    SpdmGetCertificateRequestPayload)
    requires
        chain.wf(),
    ensures
        r == (SpdmGetCertificateRequestPayload {
            slot_id,
            offset: chain.data_size,
            length: MAX_SPDM_CERT_PORTION_LEN as u16,
        }),
{
    SpdmGetCertificateRequestPayload {
        slot_id,
        offset: chain.data_size,
        length: MAX_SPDM_CERT_PORTION_LEN as u16,
    }
}

/// What taking the response to `request` into a chain of `held` bytes comes
/// to: whether the chain is complete, or why the response is refused.
///
/// A response for another slot, one without a portion, and one with a larger
/// portion than was asked for are refused with `InvalidMsgField`. A portion
/// with which the chain would grow beyond the largest chain, by itself or
/// with what the response says lies behind it, is refused with
/// `InvalidCertChain`.
pub open spec fn spec_certificate_portion_taken(
    held: nat,
    request: SpdmGetCertificateRequestPayload,
    response: SpdmCertificateResponsePayload,
) -> SpdmResult<bool> {
    if response.slot_id != request.slot_id || response.portion.data_size == 0
        || response.portion.data_size > request.length || response.portion.data_size > 512 {
        Err(SpdmError::InvalidMsgField)
    } else if held + response.portion.data_size + response.remainder_length
        > MAX_SPDM_CERT_CHAIN_DATA_SIZE {
        Err(SpdmError::InvalidCertChain)
    } else {
        Ok(response.remainder_length == 0)
    }
}

/// Takes the response to `request` into `chain`: the portion goes behind
/// what `chain` holds, and the result says whether the chain is complete. A
/// response that is refused leaves `chain` as it is. See
/// [`spec_certificate_portion_taken`].
pub fn take_certificate_portion(
    chain: &mut SpdmCertChainData,
    request: &SpdmGetCertificateRequestPayload,
    response: &SpdmCertificateResponsePayload,
) -> (r: SpdmResult<bool>)
    requires
        old(chain).wf(),
    ensures
        final(chain).wf(),
        r == spec_certificate_portion_taken(old(chain)@.len(), *request, *response),
        r.is_ok() ==> final(chain)@ == old(chain)@ + response.portion@,
        r.is_err() ==> *final(chain) == *old(chain),
{
    if response.slot_id != request.slot_id || response.portion.data_size == 0
        || response.portion.data_size > request.length || response.portion.data_size > 512 {
        return Err(SpdmError::InvalidMsgField);
    }
    if chain.data_size as usize + response.portion.data_size as usize
        + response.remainder_length as usize > MAX_SPDM_CERT_CHAIN_DATA_SIZE {
        return Err(SpdmError::InvalidCertChain);
    }
    let appended = append_cert_chain_portion(chain, response.portion.as_ref());
    assert(appended.is_ok());
    Ok(response.remainder_length == 0)
}

} // verus!
