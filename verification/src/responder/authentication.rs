//! The part of the responder in the exchanges that tell of its certificate
//! chain: digests and certificates.
//!
//! The responder has one chain, in one of its eight slots. It answers
//! GET_DIGESTS with the digest of the chain, and GET_CERTIFICATE with the
//! portion of the chain that the request asks for, 512 bytes at most.

use crate::common::connection::{SpdmConnection, SpdmExchange};
use crate::common::spdm_codec::{
    decode_payload, encode_message, spec_decode_payload, spec_message, SpdmCodec,
};
use crate::common::SpdmContext;
use crate::config::MAX_SPDM_CERT_PORTION_LEN;
use crate::crypto::hash::{hash_all, spec_hash_all};
use crate::crypto::{ProviderSlot, SpdmHash};
use crate::error::{SpdmError, SpdmResult};
use crate::message::certificate::{
    SpdmCertificateResponsePayload, SpdmGetCertificateRequestPayload,
};
use crate::message::digest::{
    digests_wire, spec_slot_count, SpdmDigestsResponsePayload, SpdmGetDigestsRequestPayload,
};
use crate::message::header::SpdmRequestResponseCode;
use crate::protocol::{SpdmCertChainPortion, SpdmDigestStruct};
use crate::responder::{answered, open_request, spec_open_request};
use vstd::prelude::*;
use vstd::slice::slice_subrange;

verus! {

/// The bit of a slot in a slot mask; that of the last slot for what is no
/// slot.
pub open spec fn spec_slot_bit(slot_id: u8) -> u8 {
    if slot_id == 0 {
        0x01
    } else if slot_id == 1 {
        0x02
    } else if slot_id == 2 {
        0x04
    } else if slot_id == 3 {
        0x08
    } else if slot_id == 4 {
        0x10
    } else if slot_id == 5 {
        0x20
    } else if slot_id == 6 {
        0x40
    } else {
        0x80
    }
}

/// The bit of a slot in a slot mask.
pub fn slot_bit(slot_id: u8) -> (r: u8)
    ensures
        r == spec_slot_bit(slot_id),
        spec_slot_count(r) == 1,
{
    if slot_id == 0 {
        0x01
    } else if slot_id == 1 {
        0x02
    } else if slot_id == 2 {
        0x04
    } else if slot_id == 3 {
        0x08
    } else if slot_id == 4 {
        0x10
    } else if slot_id == 5 {
        0x20
    } else if slot_id == 6 {
        0x40
    } else {
        0x80
    }
}

/// The length of the portion that answers a request for `length` bytes from
/// `offset` on of a chain of `total` bytes: what is asked for, but no more
/// than the chain holds behind `offset`, and no more than one response
/// carries.
pub open spec fn spec_portion_length(total: int, offset: int, length: int) -> int {
    let behind = total - offset;
    let asked = if length <= MAX_SPDM_CERT_PORTION_LEN {
        length
    } else {
        MAX_SPDM_CERT_PORTION_LEN as int
    };
    if asked <= behind {
        asked
    } else {
        behind
    }
}

/// The response to a request for a portion of the chain in the slot
/// `slot_id`, or why the request is refused:
/// `InvalidMsgField` for a request for another slot, or for a portion that
/// begins behind the end of the chain; `InvalidCertChain` for a chain of
/// more than 65535 bytes, whose lengths the response cannot carry.
pub open spec fn spec_certificate_portion(
    slot_id: u8,
    chain: Seq<u8>,
    request: SpdmGetCertificateRequestPayload,
) -> SpdmResult<SpdmCertificateResponsePayload> {
    if chain.len() > 0xffff {
        Err(SpdmError::InvalidCertChain)
    } else if request.slot_id != slot_id || request.offset > chain.len() {
        Err(SpdmError::InvalidMsgField)
    } else {
        let portion_length = spec_portion_length(
            chain.len() as int,
            request.offset as int,
            request.length as int,
        );
        Ok(
            SpdmCertificateResponsePayload {
                slot_id,
                remainder_length: (chain.len() - request.offset - portion_length) as u16,
                portion: SpdmCertChainPortion::spec_from_bytes(
                    chain.subrange(request.offset as int, request.offset + portion_length),
                ),
            },
        )
    }
}

/// The response to a request for a portion of the chain in the slot
/// `slot_id`. See [`spec_certificate_portion`].
pub fn certificate_portion(
    slot_id: u8,
    chain: &[u8],
    request: &SpdmGetCertificateRequestPayload,
) -> (r: SpdmResult<SpdmCertificateResponsePayload>)
    ensures
        r == spec_certificate_portion(slot_id, chain@, *request),
        r matches Ok(response) ==> response.portion.wf() && response.portion.holds(
            response.portion@,
        ) && response.portion@ == chain@.subrange(
            request.offset as int,
            request.offset + response.portion.data_size,
        ) && request.offset + response.portion.data_size + response.remainder_length
            == chain@.len(),
{
    if chain.len() > 0xffff {
        return Err(SpdmError::InvalidCertChain);
    }
    let offset: usize = request.offset as usize;
    if request.slot_id != slot_id || offset > chain.len() {
        return Err(SpdmError::InvalidMsgField);
    }
    let behind: usize = chain.len() - offset;
    let asked: usize = if request.length as usize <= MAX_SPDM_CERT_PORTION_LEN {
        request.length as usize
    } else {
        MAX_SPDM_CERT_PORTION_LEN
    };
    let portion_length: usize = if asked <= behind {
        asked
    } else {
        behind
    };
    let portion = match SpdmCertChainPortion::from_bytes(
        slice_subrange(chain, offset, offset + portion_length),
    ) {
        Some(portion) => portion,
        None => {
            return Err(SpdmError::InvalidMsgField);
        },
    };
    Ok(
        SpdmCertificateResponsePayload {
            slot_id,
            remainder_length: (behind - portion_length) as u16,
            portion,
        },
    )
}

/// The response to GET_CERTIFICATE of a responder with the chain `chain` in
/// the slot `slot_id`, or why the request is refused. The request must be a
/// GET_CERTIFICATE request of the version of the connection: see
/// [`spec_certificate_portion`] for what it is answered with.
pub open spec fn spec_get_certificate_answer(
    context: SpdmContext,
    slot_id: u8,
    chain: Seq<u8>,
    request: Seq<u8>,
) -> SpdmResult<(Seq<u8>, SpdmContext)> {
    match spec_open_request(SpdmRequestResponseCode::SpdmRequestGetCertificate, request) {
        Ok((version, payload)) => if version != context.negotiate_info.spdm_version_sel {
            Err(SpdmError::InvalidMsgField)
        } else {
            match spec_decode_payload::<SpdmGetCertificateRequestPayload>(context, payload) {
                Ok(received) => match spec_certificate_portion(slot_id, chain, received) {
                    Ok(response) => Ok(
                        (
                            spec_message(
                                version,
                                SpdmRequestResponseCode::SpdmResponseCertificate,
                                response.spdm_spec_encode(&context),
                            ),
                            context,
                        ),
                    ),
                    Err(e) => Err(e),
                },
                Err(e) => Err(e),
            }
        },
        Err(e) => Err(e),
    }
}

/// Answers GET_CERTIFICATE: writes the CERTIFICATE response with the portion
/// that the request asks for to the start of `buffer`, records the exchange,
/// and returns the length of the response. See
/// [`spec_get_certificate_answer`] and [`answered`].
pub fn answer_get_certificate<H: SpdmHash>(
    connection: &mut SpdmConnection<H>,
    hash_slot: &ProviderSlot<H>,
    context: &mut SpdmContext,
    slot_id: u8,
    chain: &[u8],
    request: &[u8],
    buffer: &mut [u8],
) -> (r: SpdmResult<usize>)
    requires
        old(connection).inv(),
    ensures
        final(connection).inv(),
        answered(
            *old(connection),
            *final(connection),
            *old(context),
            *final(context),
            SpdmExchange::Certificate,
            request@,
            old(buffer)@.len(),
            final(buffer)@,
            spec_get_certificate_answer(*old(context), slot_id, chain@, request@),
            r,
        ),
{
    let (version, payload) = open_request(
        SpdmRequestResponseCode::SpdmRequestGetCertificate,
        request,
    )?;
    if version != context.negotiate_info.spdm_version_sel {
        return Err(SpdmError::InvalidMsgField);
    }
    let received = decode_payload::<SpdmGetCertificateRequestPayload>(context, payload)?;
    let response = certificate_portion(slot_id, chain, &received)?;
    let used = encode_message(
        context,
        version,
        SpdmRequestResponseCode::SpdmResponseCertificate,
        &response,
        buffer,
    )?;
    connection.record_exchange(
        hash_slot,
        SpdmExchange::Certificate,
        request,
        slice_subrange(buffer, 0, used),
    )?;
    Ok(used)
}

/// The response to GET_DIGESTS of a responder with the chain `chain` in the
/// slot `slot_id`, or why the request is refused. The request must be a
/// GET_DIGESTS request of the version of the connection. The response names
/// the slot and carries the digest of the chain by the negotiated hash;
/// where the digest cannot be had the result is `Fault`, as it is for a slot
/// that is none of the eight.
pub open spec fn spec_get_digests_answer<H: SpdmHash>(
    provider: Option<H>,
    context: SpdmContext,
    slot_id: u8,
    chain: Seq<u8>,
    request: Seq<u8>,
) -> SpdmResult<(Seq<u8>, SpdmContext)> {
    match spec_open_request(SpdmRequestResponseCode::SpdmRequestGetDigests, request) {
        Ok((version, payload)) => if version != context.negotiate_info.spdm_version_sel {
            Err(SpdmError::InvalidMsgField)
        } else {
            match spec_decode_payload::<SpdmGetDigestsRequestPayload>(context, payload) {
                Ok(_) => match spec_hash_all(provider, context.negotiate_info.base_hash_sel, chain) {
                    Some(_) if slot_id >= 8 => Err(SpdmError::Fault),
                    Some(digest) => Ok(
                        (
                            spec_message(
                                version,
                                SpdmRequestResponseCode::SpdmResponseDigests,
                                seq![0u8, spec_slot_bit(slot_id)] + digest@,
                            ),
                            context,
                        ),
                    ),
                    None => Err(SpdmError::Fault),
                },
                Err(e) => Err(e),
            }
        },
        Err(e) => Err(e),
    }
}

/// Answers GET_DIGESTS: writes the DIGESTS response with the digest of the
/// chain to the start of `buffer`, records the exchange, and returns the
/// length of the response. See [`spec_get_digests_answer`] and
/// [`answered`].
pub fn answer_get_digests<H: SpdmHash>(
    connection: &mut SpdmConnection<H>,
    hash_slot: &ProviderSlot<H>,
    context: &mut SpdmContext,
    slot_id: u8,
    chain: &[u8],
    request: &[u8],
    buffer: &mut [u8],
) -> (r: SpdmResult<usize>)
    requires
        old(connection).inv(),
    ensures
        final(connection).inv(),
        answered(
            *old(connection),
            *final(connection),
            *old(context),
            *final(context),
            SpdmExchange::Digests,
            request@,
            old(buffer)@.len(),
            final(buffer)@,
            spec_get_digests_answer(
                hash_slot.provider(),
                *old(context),
                slot_id,
                chain@,
                request@,
            ),
            r,
        ),
{
    let (version, payload) = open_request(SpdmRequestResponseCode::SpdmRequestGetDigests, request)?;
    if version != context.negotiate_info.spdm_version_sel {
        return Err(SpdmError::InvalidMsgField);
    }
    let _ = decode_payload::<SpdmGetDigestsRequestPayload>(context, payload)?;
    let hashed = match hash_all(hash_slot, context.negotiate_info.base_hash_sel, chain) {
        Some(hashed) => hashed,
        None => {
            return Err(SpdmError::Fault);
        },
    };
    if slot_id >= 8 {
        return Err(SpdmError::Fault);
    }
    // the digest with zeros behind it, as a response carries it
    let digest = match SpdmDigestStruct::from_bytes(hashed.as_ref()) {
        Some(digest) => digest,
        None => {
            return Err(SpdmError::Fault);
        },
    };
    let empty = SpdmDigestStruct::default();
    let response = SpdmDigestsResponsePayload {
        slot_mask: slot_bit(slot_id),
        digests: [digest, empty, empty, empty, empty, empty, empty, empty],
    };
    proof {
        let hash_size = context.negotiate_info.base_hash_sel.spec_size() as int;
        assert(empty@ =~= Seq::<u8>::empty());
        assert forall|i: int| 0 <= i < 8 implies response.digest_valid(i, hash_size) by {
            if i == 0 {
                assert(response.digests@[0] == digest);
            } else {
                assert(response.digests@[i] == empty);
            }
        }
        reveal_with_fuel(digests_wire, 9);
        assert(digests_wire(response.digests@, 8) =~= digest@);
    }
    let used = encode_message(
        context,
        version,
        SpdmRequestResponseCode::SpdmResponseDigests,
        &response,
        buffer,
    )?;
    connection.record_exchange(
        hash_slot,
        SpdmExchange::Digests,
        request,
        slice_subrange(buffer, 0, used),
    )?;
    Ok(used)
}

} // verus!
