//! The part of the responder in the exchanges that open a connection.
//!
//! For each exchange there is a function that answers the request: it checks
//! the header of the request, reads its payload, decides on the response,
//! writes the response, and records request and response in the transcript.
//! A request that is refused is answered by the caller with an ERROR
//! response; connection and negotiated values then stay as they are.
//! Receiving the request and sending the response is the caller's part.

pub mod authentication;
pub mod in_session;

use crate::common::connection::{exchange_recorded, SpdmConnection, SpdmExchange};
use crate::responder::authentication::{
    answer_get_certificate, answer_get_digests, spec_get_certificate_answer,
    spec_get_digests_answer,
};
use crate::common::negotiate::{spec_negotiate_algorithms, SpdmAlgorithmOffer};
use crate::common::spdm_codec::{
    decode_payload, encode_message, spec_decode_payload, spec_message, SpdmCodec,
};
use crate::common::{SpdmContext, SpdmNegotiateInfo};
use crate::crypto::{ProviderSlot, SpdmHash};
use crate::error::{SpdmError, SpdmResult};
use crate::message::algorithm::{
    respond_to_negotiate_algorithms, spec_algorithms_response, spec_noted, spec_offer,
    SpdmNegotiateAlgorithmsRequestPayload,
};
use crate::message::capability::{
    capabilities_stated, capabilities_valid, check_capabilities, has_sizes,
    spec_capabilities_stated, spec_has_sizes, SpdmCapabilities, SpdmCapabilitiesResponsePayload,
    SpdmGetCapabilitiesRequestPayload,
};
use crate::message::error::{error_response, spec_error_response_code};
use crate::message::header::{SpdmMessageHeader, SpdmRequestResponseCode};
use crate::message::version::{
    version_entries_wire, SpdmGetVersionRequestPayload, SpdmVersionResponsePayload,
    SpdmVersionStruct,
};
use crate::codec::Codec;
use crate::common::negotiate::offers_version;
use crate::protocol::capability::RESPONDER_CAPABILITY_MASK;
use crate::protocol::SpdmVersion;
use crate::requester::outcome;
use vstd::prelude::*;
use vstd::slice::slice_subrange;

verus! {

/// The version and the payload of a request, or why the request is not
/// taken: a request without a header that can be read is refused with
/// `InvalidMsgField`, and a message with another code than `expected` with
/// `Unexpected`.
pub open spec fn spec_open_request(expected: SpdmRequestResponseCode, request: Seq<u8>)
    -> SpdmResult<(SpdmVersion, Seq<u8>)> {
    match SpdmMessageHeader::spec_read(request) {
        Some((header, _)) => if header.request_response_code == expected {
            Ok((header.version, request.subrange(2, request.len() as int)))
        } else {
            Err(SpdmError::Unexpected)
        },
        None => Err(SpdmError::InvalidMsgField),
    }
}

/// The version and the payload of a request. See [`spec_open_request`].
pub fn open_request<'a>(expected: SpdmRequestResponseCode, request: &'a [u8]) -> (r: SpdmResult<
    (SpdmVersion, &'a [u8]),
>)
    ensures
        match spec_open_request(expected, request@) {
            Ok((version, payload)) => r matches Ok(opened) && opened.0 == version && opened.1@
                == payload,
            Err(e) => r matches Err(refused) && refused == e,
        },
{
    if request.len() < 2 {
        return Err(SpdmError::InvalidMsgField);
    }
    let version = SpdmVersion::from_u8(request[0]);
    let code = SpdmRequestResponseCode::from_u8(request[1]);
    match (version, code) {
        (Some(version), Some(code)) => if code == expected {
            Ok((version, slice_subrange(request, 2, request.len())))
        } else {
            Err(SpdmError::Unexpected)
        },
        _ => Err(SpdmError::InvalidMsgField),
    }
}

/// A request was answered, or refused with the result `r`.
///
/// `answer` is what the request calls for: the response and the connection
/// values to go on with, or why the request is refused.
/// - A request that is refused leaves connection and connection values as
///   they are, and its error is the result.
/// - So does a response that does not fit the buffer of `capacity` bytes:
///   the result is `InvalidMsgField`.
/// - Otherwise the exchange is taken into the connection: see
///   [`exchange_recorded`]. Where that succeeds, the result is the length of
///   the response, the response stands at the start of the buffer, and the
///   connection values are those of `answer`; where it fails, the connection
///   values stay as they are.
pub open spec fn answered<H: SpdmHash>(
    before: SpdmConnection<H>,
    after: SpdmConnection<H>,
    context_before: SpdmContext,
    context_after: SpdmContext,
    exchange: SpdmExchange,
    request: Seq<u8>,
    capacity: nat,
    written: Seq<u8>,
    answer: SpdmResult<(Seq<u8>, SpdmContext)>,
    r: SpdmResult<usize>,
) -> bool {
    &&& written.len() == capacity
    &&& r.is_err() ==> context_after == context_before
    &&& match answer {
        Ok((response, noted)) => if response.len() <= capacity {
            exchange_recorded(before, after, exchange, request, response, outcome(r)) && (r matches Ok(
                used,
            ) ==> used == response.len() && written.subrange(0, used as int) == response
                && context_after == noted)
        } else {
            r == Err::<usize, SpdmError>(SpdmError::InvalidMsgField) && after == before
        },
        Err(e) => r == Err::<usize, SpdmError>(e) && after == before,
    }
}

/// The payload of the VERSION response that lists the versions `local`.
pub open spec fn spec_version_listing(local: Seq<SpdmVersion>) -> Seq<u8> {
    seq![0u8, 0u8, 0u8, local.len() as u8] + version_entries_wire(
        Seq::new(local.len(), |i: int| SpdmVersionStruct { update: 0, version: local[i] }),
    )
}

/// The response to GET_VERSION of a responder that speaks the versions
/// `local`, or why the request is refused: the request must be a GET_VERSION
/// request of version 1.0 with nothing behind it. A responder with more than
/// five versions has no response: the result is `Fault`.
pub open spec fn spec_get_version_answer(
    context: SpdmContext,
    local: Seq<SpdmVersion>,
    request: Seq<u8>,
) -> SpdmResult<(Seq<u8>, SpdmContext)> {
    match spec_open_request(SpdmRequestResponseCode::SpdmRequestGetVersion, request) {
        Ok((version, payload)) => if version != SpdmVersion::SpdmVersion10 {
            Err(SpdmError::InvalidMsgField)
        } else {
            match spec_decode_payload::<SpdmGetVersionRequestPayload>(context, payload) {
                Ok(_) => if local.len() <= 5 {
                    Ok(
                        (
                            spec_message(
                                SpdmVersion::SpdmVersion10,
                                SpdmRequestResponseCode::SpdmResponseVersion,
                                spec_version_listing(local),
                            ),
                            context,
                        ),
                    )
                } else {
                    Err(SpdmError::Fault)
                },
                Err(e) => Err(e),
            }
        },
        Err(e) => Err(e),
    }
}

/// Answers GET_VERSION: writes the VERSION response that lists the versions
/// `local` to the start of `buffer`, records the exchange, and returns the
/// length of the response. A response that does not fit `buffer` is
/// `InvalidMsgField`. See [`spec_get_version_answer`] and
/// [`exchange_recorded`].
pub fn answer_get_version<H: SpdmHash>(
    connection: &mut SpdmConnection<H>,
    hash_slot: &ProviderSlot<H>,
    context: &mut SpdmContext,
    local: &[SpdmVersion],
    request: &[u8],
    buffer: &mut [u8],
) -> (r: SpdmResult<usize>)
    requires
        old(connection).inv(),
    ensures
        final(connection).inv(),
        answered(
            *old(connection),
            *final(connection),
            *old(context),
            *final(context),
            SpdmExchange::Version,
            request@,
            old(buffer)@.len(),
            final(buffer)@,
            spec_get_version_answer(*old(context), local@, request@),
            r,
        ),
{
    let (version, payload) = open_request(SpdmRequestResponseCode::SpdmRequestGetVersion, request)?;
    match version {
        SpdmVersion::SpdmVersion10 => {},
        _ => {
            return Err(SpdmError::InvalidMsgField);
        },
    }
    let _ = decode_payload::<SpdmGetVersionRequestPayload>(context, payload)?;
    let listing = match SpdmVersionResponsePayload::new(local) {
        Some(listing) => listing,
        None => {
            return Err(SpdmError::Fault);
        },
    };
    proof {
        assert(listing.listed() =~= Seq::new(
            local@.len(),
            |i: int| SpdmVersionStruct { update: 0, version: local@[i] },
        ));
        assert(listing.spdm_spec_encode(&*context) == spec_version_listing(local@));
    }
    let used = encode_message(
        context,
        SpdmVersion::SpdmVersion10,
        SpdmRequestResponseCode::SpdmResponseVersion,
        &listing,
        buffer,
    )?;
    connection.record_exchange(
        hash_slot,
        SpdmExchange::Version,
        request,
        slice_subrange(buffer, 0, used),
    )?;
    Ok(used)
}

/// The response to GET_CAPABILITIES of a responder that speaks the versions
/// `local` and can do what `capabilities` says, and the connection values
/// with the version of the request and what both sides can do noted; or why
/// the request is refused. The request must be a GET_CAPABILITIES request of
/// a version that the responder speaks: `InvalidMsgField` for another. The
/// response states the capabilities as its version does, without the two
/// sizes before version 1.2. A responder whose capabilities cannot be put on
/// the wire has no response: the result is `Fault`.
pub open spec fn spec_get_capabilities_answer(
    context: SpdmContext,
    local: Seq<SpdmVersion>,
    capabilities: SpdmCapabilities,
    request: Seq<u8>,
) -> SpdmResult<(Seq<u8>, SpdmContext)> {
    match spec_open_request(SpdmRequestResponseCode::SpdmRequestGetCapabilities, request) {
        Ok((version, payload)) => if !local.contains(version) {
            Err(SpdmError::InvalidMsgField)
        } else {
            let spoken = SpdmContext {
                negotiate_info: SpdmNegotiateInfo { spdm_version_sel: version, ..context.negotiate_info },
                ..context
            };
            let stated = spec_capabilities_stated(capabilities, version);
            match spec_decode_payload::<SpdmGetCapabilitiesRequestPayload>(spoken, payload) {
                Ok(received) => if !capabilities_valid(
                    stated,
                    RESPONDER_CAPABILITY_MASK,
                    true,
                    spec_has_sizes(version),
                ) {
                    Err(SpdmError::Fault)
                } else {
                    Ok(
                    (
                        spec_message(
                            version,
                            SpdmRequestResponseCode::SpdmResponseCapabilities,
                            (SpdmCapabilitiesResponsePayload { capabilities: stated }).spdm_spec_encode(
                                &spoken,
                            ),
                        ),
                        SpdmContext {
                            negotiate_info: SpdmNegotiateInfo {
                                req_ct_exponent_sel: received.capabilities.ct_exponent,
                                req_capabilities_sel: received.capabilities.flags,
                                rsp_ct_exponent_sel: capabilities.ct_exponent,
                                rsp_capabilities_sel: capabilities.flags,
                                ..spoken.negotiate_info
                            },
                            ..spoken
                        },
                    ),
                    )
                },
                Err(e) => Err(e),
            }
        },
        Err(e) => Err(e),
    }
}

/// Answers GET_CAPABILITIES: notes the version of the request and what both
/// sides can do, writes the CAPABILITIES response to the start of `buffer`,
/// records the exchange, and returns the length of the response. A response
/// that does not fit `buffer` is `InvalidMsgField`. See
/// [`spec_get_capabilities_answer`] and [`exchange_recorded`].
pub fn answer_get_capabilities<H: SpdmHash>(
    connection: &mut SpdmConnection<H>,
    hash_slot: &ProviderSlot<H>,
    context: &mut SpdmContext,
    local: &[SpdmVersion],
    capabilities: &SpdmCapabilities,
    request: &[u8],
    buffer: &mut [u8],
) -> (r: SpdmResult<usize>)
    requires
        old(connection).inv(),
    ensures
        final(connection).inv(),
        answered(
            *old(connection),
            *final(connection),
            *old(context),
            *final(context),
            SpdmExchange::Capabilities,
            request@,
            old(buffer)@.len(),
            final(buffer)@,
            spec_get_capabilities_answer(*old(context), local@, *capabilities, request@),
            r,
        ),
{
    let (version, payload) = open_request(
        SpdmRequestResponseCode::SpdmRequestGetCapabilities,
        request,
    )?;
    if !offers_version(local, version) {
        return Err(SpdmError::InvalidMsgField);
    }
    let mut noted = *context;
    noted.negotiate_info.spdm_version_sel = version;
    let ghost spoken = noted;
    let received = decode_payload::<SpdmGetCapabilitiesRequestPayload>(&mut noted, payload)?;
    let stated = capabilities_stated(capabilities, version);
    if !check_capabilities(&stated, RESPONDER_CAPABILITY_MASK, true, has_sizes(version)) {
        return Err(SpdmError::Fault);
    }
    let answer = SpdmCapabilitiesResponsePayload { capabilities: stated };
    let used = encode_message(
        &mut noted,
        version,
        SpdmRequestResponseCode::SpdmResponseCapabilities,
        &answer,
        buffer,
    )?;
    noted.negotiate_info.req_ct_exponent_sel = received.capabilities.ct_exponent;
    noted.negotiate_info.req_capabilities_sel = received.capabilities.flags;
    noted.negotiate_info.rsp_ct_exponent_sel = capabilities.ct_exponent;
    noted.negotiate_info.rsp_capabilities_sel = capabilities.flags;
    connection.record_exchange(
        hash_slot,
        SpdmExchange::Capabilities,
        request,
        slice_subrange(buffer, 0, used),
    )?;
    *context = noted;
    Ok(used)
}

/// The response to NEGOTIATE_ALGORITHMS of a responder that offers `local`,
/// and the connection values with the algorithms that both sides run noted;
/// or why the request is refused. The request must be a
/// NEGOTIATE_ALGORITHMS request of the version of the connection. Of each
/// kind the most preferred algorithm that both sides offer is selected;
/// where, for some kind, they offer none in common, the result is
/// `NegotiationFail`.
pub open spec fn spec_negotiate_algorithms_answer(
    context: SpdmContext,
    local: SpdmAlgorithmOffer,
    request: Seq<u8>,
) -> SpdmResult<(Seq<u8>, SpdmContext)> {
    match spec_open_request(SpdmRequestResponseCode::SpdmRequestNegotiateAlgorithms, request) {
        Ok((version, payload)) => if version != context.negotiate_info.spdm_version_sel {
            Err(SpdmError::InvalidMsgField)
        } else {
            match spec_decode_payload::<SpdmNegotiateAlgorithmsRequestPayload>(context, payload) {
                Ok(received) => match spec_negotiate_algorithms(spec_offer(received), local) {
                    Some(selection) => Ok(
                        (
                            spec_message(
                                version,
                                SpdmRequestResponseCode::SpdmResponseAlgorithms,
                                spec_algorithms_response(received, selection).spdm_spec_encode(
                                    &context,
                                ),
                            ),
                            spec_noted(context, selection),
                        ),
                    ),
                    None => Err(SpdmError::NegotiationFail),
                },
                Err(e) => Err(e),
            }
        },
        Err(e) => Err(e),
    }
}

/// Answers NEGOTIATE_ALGORITHMS: selects the algorithms that both sides
/// run, notes them, writes the ALGORITHMS response to the start of `buffer`,
/// records the exchange, and returns the length of the response. A response
/// that does not fit `buffer` is `InvalidMsgField`. See
/// [`spec_negotiate_algorithms_answer`] and [`exchange_recorded`].
pub fn answer_negotiate_algorithms<H: SpdmHash>(
    connection: &mut SpdmConnection<H>,
    hash_slot: &ProviderSlot<H>,
    context: &mut SpdmContext,
    local: SpdmAlgorithmOffer,
    request: &[u8],
    buffer: &mut [u8],
) -> (r: SpdmResult<usize>)
    requires
        old(connection).inv(),
    ensures
        final(connection).inv(),
        answered(
            *old(connection),
            *final(connection),
            *old(context),
            *final(context),
            SpdmExchange::NegotiateAlgorithms,
            request@,
            old(buffer)@.len(),
            final(buffer)@,
            spec_negotiate_algorithms_answer(*old(context), local, request@),
            r,
        ),
{
    let (version, payload) = open_request(
        SpdmRequestResponseCode::SpdmRequestNegotiateAlgorithms,
        request,
    )?;
    if version != context.negotiate_info.spdm_version_sel {
        return Err(SpdmError::InvalidMsgField);
    }
    let received = decode_payload::<SpdmNegotiateAlgorithmsRequestPayload>(context, payload)?;
    let mut noted = *context;
    let answer = respond_to_negotiate_algorithms(&mut noted, &received, local)?;
    proof {
        // a request that offers a key-agreement group has tables
        let selection = spec_negotiate_algorithms(spec_offer(received), local).unwrap();
        let offered: u32 = received.tables.dhe_algo as u32;
        let bit: u32 = selection.dhe_sel.spec_bit() as u32;
        assert(selection.offered_by(spec_offer(received)));
        assert(offered & bit != 0 ==> offered != 0) by (bit_vector);
        assert(received.tables.dhe_algo != 0);
    }
    let mut scratch = *context;
    let used = encode_message(
        &mut scratch,
        version,
        SpdmRequestResponseCode::SpdmResponseAlgorithms,
        &answer,
        buffer,
    )?;
    connection.record_exchange(
        hash_slot,
        SpdmExchange::NegotiateAlgorithms,
        request,
        slice_subrange(buffer, 0, used),
    )?;
    *context = noted;
    Ok(used)
}

/// What a responder speaks, can do and offers, and its certificate chain.
#[derive(Clone, Copy, Debug)]
pub struct SpdmResponderConfig<'a> {
    pub versions: &'a [SpdmVersion],
    pub capabilities: SpdmCapabilities,
    pub algorithms: SpdmAlgorithmOffer,
    /// The slot of the certificate chain.
    pub slot_id: u8,
    /// The certificate chain, framed as it goes over the wire.
    pub cert_chain: &'a [u8],
}

/// The exchange that a request of the given code opens, for the requests
/// that open a connection and ask for its certificate chain.
pub open spec fn spec_opening_exchange(code: SpdmRequestResponseCode) -> Option<SpdmExchange> {
    match code {
        SpdmRequestResponseCode::SpdmRequestGetVersion => Some(SpdmExchange::Version),
        SpdmRequestResponseCode::SpdmRequestGetCapabilities => Some(SpdmExchange::Capabilities),
        SpdmRequestResponseCode::SpdmRequestNegotiateAlgorithms => Some(
            SpdmExchange::NegotiateAlgorithms,
        ),
        SpdmRequestResponseCode::SpdmRequestGetDigests => Some(SpdmExchange::Digests),
        SpdmRequestResponseCode::SpdmRequestGetCertificate => Some(SpdmExchange::Certificate),
        _ => None,
    }
}

/// What a request calls for: the answer of the exchange that its code
/// names. See [`spec_get_version_answer`], [`spec_get_capabilities_answer`],
/// [`spec_negotiate_algorithms_answer`],
/// [`authentication::spec_get_digests_answer`] and
/// [`authentication::spec_get_certificate_answer`].
pub open spec fn spec_opening_answer<H: SpdmHash>(
    provider: Option<H>,
    context: SpdmContext,
    config: SpdmResponderConfig,
    exchange: SpdmExchange,
    request: Seq<u8>,
) -> SpdmResult<(Seq<u8>, SpdmContext)> {
    match exchange {
        SpdmExchange::Version => spec_get_version_answer(context, config.versions@, request),
        SpdmExchange::Capabilities => spec_get_capabilities_answer(
            context,
            config.versions@,
            config.capabilities,
            request,
        ),
        SpdmExchange::Digests => spec_get_digests_answer(
            provider,
            context,
            config.slot_id,
            config.cert_chain@,
            request,
        ),
        SpdmExchange::Certificate => spec_get_certificate_answer(
            context,
            config.slot_id,
            config.cert_chain@,
            request,
        ),
        _ => spec_negotiate_algorithms_answer(context, config.algorithms, request),
    }
}

/// Answers a request that opens a connection or asks for its certificate
/// chain: GET_VERSION, GET_CAPABILITIES, NEGOTIATE_ALGORITHMS, GET_DIGESTS or
/// GET_CERTIFICATE. A message without a code that can be read is
/// refused with `InvalidMsgField`, and any other message with `Unexpected`;
/// connection, connection values and `buffer` then stay as they are. See
/// [`answered`].
pub fn answer_opening_request<H: SpdmHash>(
    connection: &mut SpdmConnection<H>,
    hash_slot: &ProviderSlot<H>,
    context: &mut SpdmContext,
    config: &SpdmResponderConfig,
    request: &[u8],
    buffer: &mut [u8],
) -> (r: SpdmResult<usize>)
    requires
        old(connection).inv(),
    ensures
        final(connection).inv(),
        final(buffer)@.len() == old(buffer)@.len(),
        if request@.len() < 2 || SpdmRequestResponseCode::spec_from_u8(request@[1]).is_none() {
            r == Err::<usize, SpdmError>(SpdmError::InvalidMsgField) && *final(connection) == *old(connection) && *final(context) == *old(context) && final(buffer)@ == old(buffer)@
        } else {
            match spec_opening_exchange(
                SpdmRequestResponseCode::spec_from_u8(request@[1]).unwrap(),
            ) {
                Some(exchange) => answered(
                    *old(connection),
                    *final(connection),
                    *old(context),
                    *final(context),
                    exchange,
                    request@,
                    old(buffer)@.len(),
                    final(buffer)@,
                    spec_opening_answer(
                        hash_slot.provider(),
                        *old(context),
                        *config,
                        exchange,
                        request@,
                    ),
                    r,
                ),
                None => r == Err::<usize, SpdmError>(SpdmError::Unexpected) && *final(connection)
                    == *old(connection) && *final(context) == *old(context) && final(buffer)@
                    == old(buffer)@,
            }
        },
{
    if request.len() < 2 {
        return Err(SpdmError::InvalidMsgField);
    }
    let code = match SpdmRequestResponseCode::from_u8(request[1]) {
        Some(code) => code,
        None => {
            return Err(SpdmError::InvalidMsgField);
        },
    };
    match code {
        SpdmRequestResponseCode::SpdmRequestGetVersion => answer_get_version(
            connection,
            hash_slot,
            context,
            config.versions,
            request,
            buffer,
        ),
        SpdmRequestResponseCode::SpdmRequestGetCapabilities => answer_get_capabilities(
            connection,
            hash_slot,
            context,
            config.versions,
            &config.capabilities,
            request,
            buffer,
        ),
        SpdmRequestResponseCode::SpdmRequestNegotiateAlgorithms => answer_negotiate_algorithms(
            connection,
            hash_slot,
            context,
            config.algorithms,
            request,
            buffer,
        ),
        SpdmRequestResponseCode::SpdmRequestGetDigests => answer_get_digests(
            connection,
            hash_slot,
            context,
            config.slot_id,
            config.cert_chain,
            request,
            buffer,
        ),
        SpdmRequestResponseCode::SpdmRequestGetCertificate => answer_get_certificate(
            connection,
            hash_slot,
            context,
            config.slot_id,
            config.cert_chain,
            request,
            buffer,
        ),
        _ => Err(SpdmError::Unexpected),
    }
}

/// The version under which a responder answers a request that it refuses:
/// that of the request where it can be read, and 1.0 otherwise.
pub open spec fn spec_refusal_version(request: Seq<u8>) -> SpdmVersion {
    if request.len() >= 1 && SpdmVersion::spec_from_u8(request[0]).is_some() {
        SpdmVersion::spec_from_u8(request[0]).unwrap()
    } else {
        SpdmVersion::SpdmVersion10
    }
}

/// The ERROR response with which a responder answers a request that it
/// refuses with `error`.
pub open spec fn spec_refusal(request: Seq<u8>, error: SpdmError) -> Seq<u8> {
    spec_message(
        spec_refusal_version(request),
        SpdmRequestResponseCode::SpdmResponseError,
        seq![spec_error_response_code(error).spec_u8(), 0u8],
    )
}

/// Writes the ERROR response with which a responder answers a request that
/// it refuses with `error` to the start of `buffer`, and returns its length:
/// four bytes. A buffer that is shorter is refused with `InvalidMsgField`,
/// and stays as it is.
pub fn write_refusal(request: &[u8], error: SpdmError, buffer: &mut [u8]) -> (r: SpdmResult<usize>)
    ensures
        final(buffer)@.len() == old(buffer)@.len(),
        r == if old(buffer)@.len() >= 4 {
            Ok::<usize, SpdmError>(4)
        } else {
            Err::<usize, SpdmError>(SpdmError::InvalidMsgField)
        },
        r.is_ok() ==> final(buffer)@.subrange(0, 4) == spec_refusal(request@, error),
        r.is_err() ==> final(buffer)@ == old(buffer)@,
{
    let version = if request.len() >= 1 {
        match SpdmVersion::from_u8(request[0]) {
            Some(version) => version,
            None => SpdmVersion::SpdmVersion10,
        }
    } else {
        SpdmVersion::SpdmVersion10
    };
    let mut context = SpdmContext::new();
    let refusal = error_response(error);
    encode_message(
        &mut context,
        version,
        SpdmRequestResponseCode::SpdmResponseError,
        &refusal,
        buffer,
    )
}

} // verus!
