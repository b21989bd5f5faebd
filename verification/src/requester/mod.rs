//! The part of the requester in the exchanges of a connection.
//!
//! For each exchange there is a function that takes the response into the
//! connection: it checks the header of the response, reads its payload,
//! decides what the response means, and records request and response in the
//! transcript. Nothing is noted of a response that is refused: connection
//! and negotiated values then stay as they are. Sending the request and
//! receiving the response is the caller's part.

pub mod authentication;
pub mod in_session;

use crate::codec::Codec;
use crate::common::connection::{exchange_recorded, SpdmConnection, SpdmExchange};
use crate::common::spdm_codec::{decode_payload, spec_decode_payload, SpdmCodec};
use crate::common::SpdmContext;
use crate::crypto::{ProviderSlot, SpdmHash};
use crate::error::{SpdmError, SpdmResult};
use crate::message::algorithm::{
    handle_algorithms_response, spec_algorithms_response_taken, spec_noted,
    SpdmAlgorithmsResponsePayload, SpdmNegotiateAlgorithmsRequestPayload,
};
use crate::common::negotiate::SpdmAlgorithmSelection;
use crate::message::capability::{
    note_capabilities, SpdmCapabilitiesResponsePayload, SpdmGetCapabilitiesRequestPayload,
};
use crate::message::error::{SpdmErrorCode, SpdmErrorResponsePayload};
use crate::message::header::{SpdmMessageHeader, SpdmRequestResponseCode};
use crate::message::version::{handle_version_response, spec_version_response_handled};
use crate::protocol::SpdmVersion;
use vstd::prelude::*;
use vstd::slice::slice_subrange;

verus! {

/// The result of an operation without its value.
pub open spec fn outcome<T>(r: SpdmResult<T>) -> SpdmResult {
    match r {
        Ok(_) => Ok(()),
        Err(e) => Err(e),
    }
}

/// The payload of a response, or why the response is not taken.
///
/// - A response without a header that can be read, or of another version
///   than `version`, is refused with `InvalidMsgField`.
/// - A response with the code `expected` gives its payload: what stands
///   behind the two bytes of the header.
/// - An ERROR response of a busy responder is `Busy`.
/// - Any other response is `Unexpected`.
pub open spec fn spec_open_response(
    context: SpdmContext,
    version: SpdmVersion,
    expected: SpdmRequestResponseCode,
    response: Seq<u8>,
) -> SpdmResult<Seq<u8>> {
    match SpdmMessageHeader::spec_read(response) {
        Some((header, _)) => if header.version != version {
            Err(SpdmError::InvalidMsgField)
        } else if header.request_response_code == expected {
            Ok(response.subrange(2, response.len() as int))
        } else if header.request_response_code == SpdmRequestResponseCode::SpdmResponseError {
            match spec_decode_payload::<SpdmErrorResponsePayload>(
                context,
                response.subrange(2, response.len() as int),
            ) {
                Ok(error) => if error.error_code == SpdmErrorCode::SpdmErrorBusy {
                    Err(SpdmError::Busy)
                } else {
                    Err(SpdmError::Unexpected)
                },
                Err(_) => Err(SpdmError::Unexpected),
            }
        } else {
            Err(SpdmError::Unexpected)
        },
        None => Err(SpdmError::InvalidMsgField),
    }
}

/// The payload of a response. See [`spec_open_response`].
pub fn open_response<'a>(
    context: &mut SpdmContext,
    version: SpdmVersion,
    expected: SpdmRequestResponseCode,
    response: &'a [u8],
) -> (r: SpdmResult<&'a [u8]>)
    ensures
        *final(context) == *old(context),
        match spec_open_response(*old(context), version, expected, response@) {
            Ok(payload) => r matches Ok(opened) && opened@ == payload,
            Err(e) => r matches Err(refused) && refused == e,
        },
{
    if response.len() < 2 {
        return Err(SpdmError::InvalidMsgField);
    }
    let header_version = SpdmVersion::from_u8(response[0]);
    let header_code = SpdmRequestResponseCode::from_u8(response[1]);
    let payload = slice_subrange(response, 2, response.len());
    match (header_version, header_code) {
        (Some(header_version), Some(header_code)) => {
            if header_version != version {
                Err(SpdmError::InvalidMsgField)
            } else if header_code == expected {
                Ok(payload)
            } else if header_code == SpdmRequestResponseCode::SpdmResponseError {
                match decode_payload::<SpdmErrorResponsePayload>(context, payload) {
                    Ok(error) => match error.error_code {
                        SpdmErrorCode::SpdmErrorBusy => Err(SpdmError::Busy),
                        _ => Err(SpdmError::Unexpected),
                    },
                    Err(_) => Err(SpdmError::Unexpected),
                }
            } else {
                Err(SpdmError::Unexpected)
            }
        },
        _ => Err(SpdmError::InvalidMsgField),
    }
}

/// What the response to GET_VERSION means, before it is recorded: the
/// version on which the requester goes on, and the connection values with
/// that version noted. The response must be a VERSION response of version
/// 1.0 whose payload lists a version that the requester speaks.
pub open spec fn spec_version_response_read(
    context: SpdmContext,
    local: Seq<SpdmVersion>,
    response: Seq<u8>,
) -> SpdmResult<(SpdmVersion, SpdmContext)> {
    match spec_open_response(
        context,
        SpdmVersion::SpdmVersion10,
        SpdmRequestResponseCode::SpdmResponseVersion,
        response,
    ) {
        Ok(payload) => spec_version_response_handled(context, local, payload),
        Err(e) => Err(e),
    }
}

/// Takes the response to GET_VERSION into the connection: the highest
/// version that the response lists and the requester speaks is noted, and
/// the exchange is recorded. See [`spec_version_response_read`] and
/// [`exchange_recorded`].
pub fn take_version_response<H: SpdmHash>(
    connection: &mut SpdmConnection<H>,
    hash_slot: &ProviderSlot<H>,
    context: &mut SpdmContext,
    local: &[SpdmVersion],
    request: &[u8],
    response: &[u8],
) -> (r: SpdmResult<SpdmVersion>)
    requires
        old(connection).inv(),
    ensures
        final(connection).inv(),
        match spec_version_response_read(*old(context), local@, response@) {
            Ok((version, noted)) => exchange_recorded(
                *old(connection),
                *final(connection),
                SpdmExchange::Version,
                request@,
                response@,
                outcome(r),
            ) && (r.is_ok() ==> r == Ok::<SpdmVersion, SpdmError>(version) && *final(context)
                == noted),
            Err(e) => r == Err::<SpdmVersion, SpdmError>(e) && *final(connection) == *old(
                connection,
            ),
        },
        r.is_err() ==> *final(context) == *old(context),
{
    let payload = open_response(
        context,
        SpdmVersion::SpdmVersion10,
        SpdmRequestResponseCode::SpdmResponseVersion,
        response,
    )?;
    let mut noted = *context;
    let version = handle_version_response(&mut noted, local, payload)?;
    connection.record_exchange(hash_slot, SpdmExchange::Version, request, response)?;
    *context = noted;
    Ok(version)
}

/// What the response to the GET_CAPABILITIES request `sent` means, before it
/// is recorded: the connection values with what both sides can do noted. The
/// response must be a CAPABILITIES response of the version of the
/// connection.
pub open spec fn spec_capabilities_response_read(
    context: SpdmContext,
    sent: SpdmGetCapabilitiesRequestPayload,
    response: Seq<u8>,
) -> SpdmResult<SpdmContext> {
    match spec_open_response(
        context,
        context.negotiate_info.spdm_version_sel,
        SpdmRequestResponseCode::SpdmResponseCapabilities,
        response,
    ) {
        Ok(payload) => match spec_decode_payload::<SpdmCapabilitiesResponsePayload>(
            context,
            payload,
        ) {
            Ok(received) => Ok(
                SpdmContext {
                    negotiate_info: crate::common::SpdmNegotiateInfo {
                        req_ct_exponent_sel: sent.capabilities.ct_exponent,
                        req_capabilities_sel: sent.capabilities.flags,
                        rsp_ct_exponent_sel: received.capabilities.ct_exponent,
                        rsp_capabilities_sel: received.capabilities.flags,
                        ..context.negotiate_info
                    },
                    ..context
                },
            ),
            Err(e) => Err(e),
        },
        Err(e) => Err(e),
    }
}

/// Takes the response to the GET_CAPABILITIES request `sent` into the
/// connection: what both sides can do is noted, and the exchange is
/// recorded. See [`spec_capabilities_response_read`] and
/// [`exchange_recorded`].
pub fn take_capabilities_response<H: SpdmHash>(
    connection: &mut SpdmConnection<H>,
    hash_slot: &ProviderSlot<H>,
    context: &mut SpdmContext,
    sent: &SpdmGetCapabilitiesRequestPayload,
    request: &[u8],
    response: &[u8],
) -> (r: SpdmResult)
    requires
        old(connection).inv(),
    ensures
        final(connection).inv(),
        match spec_capabilities_response_read(*old(context), *sent, response@) {
            Ok(noted) => exchange_recorded(
                *old(connection),
                *final(connection),
                SpdmExchange::Capabilities,
                request@,
                response@,
                r,
            ) && (r.is_ok() ==> *final(context) == noted),
            Err(e) => r == Err::<(), SpdmError>(e) && *final(connection) == *old(connection),
        },
        r.is_err() ==> *final(context) == *old(context),
{
    let version = context.negotiate_info.spdm_version_sel;
    let payload = open_response(
        context,
        version,
        SpdmRequestResponseCode::SpdmResponseCapabilities,
        response,
    )?;
    let received = decode_payload::<SpdmCapabilitiesResponsePayload>(context, payload)?;
    let mut noted = *context;
    note_capabilities(&mut noted, sent, &received);
    connection.record_exchange(hash_slot, SpdmExchange::Capabilities, request, response)?;
    *context = noted;
    Ok(())
}

/// What the response to the NEGOTIATE_ALGORITHMS request `sent` means,
/// before it is recorded: the algorithms that both sides run. The response
/// must be an ALGORITHMS response of the version of the connection that
/// selects one algorithm of each kind, every one of them offered by `sent`:
/// `NegotiationFail` otherwise.
pub open spec fn spec_algorithms_response_read(
    context: SpdmContext,
    sent: SpdmNegotiateAlgorithmsRequestPayload,
    response: Seq<u8>,
) -> SpdmResult<SpdmAlgorithmSelection> {
    match spec_open_response(
        context,
        context.negotiate_info.spdm_version_sel,
        SpdmRequestResponseCode::SpdmResponseAlgorithms,
        response,
    ) {
        Ok(payload) => match spec_decode_payload::<SpdmAlgorithmsResponsePayload>(
            context,
            payload,
        ) {
            Ok(received) => match spec_algorithms_response_taken(sent, received) {
                Some(selection) => Ok(selection),
                None => Err(SpdmError::NegotiationFail),
            },
            Err(e) => Err(e),
        },
        Err(e) => Err(e),
    }
}

/// Takes the response to the NEGOTIATE_ALGORITHMS request `sent` into the
/// connection: the algorithms that the response selects are noted, and the
/// exchange is recorded. Every algorithm that is noted was offered by the
/// requester. See [`spec_algorithms_response_read`] and
/// [`exchange_recorded`].
pub fn take_algorithms_response<H: SpdmHash>(
    connection: &mut SpdmConnection<H>,
    hash_slot: &ProviderSlot<H>,
    context: &mut SpdmContext,
    sent: &SpdmNegotiateAlgorithmsRequestPayload,
    request: &[u8],
    response: &[u8],
) -> (r: SpdmResult<SpdmAlgorithmSelection>)
    requires
        old(connection).inv(),
    ensures
        final(connection).inv(),
        match spec_algorithms_response_read(*old(context), *sent, response@) {
            Ok(selection) => exchange_recorded(
                *old(connection),
                *final(connection),
                SpdmExchange::NegotiateAlgorithms,
                request@,
                response@,
                outcome(r),
            ) && (r.is_ok() ==> r == Ok::<SpdmAlgorithmSelection, SpdmError>(selection)
                && *final(context) == spec_noted(*old(context), selection)),
            Err(e) => r == Err::<SpdmAlgorithmSelection, SpdmError>(e) && *final(connection)
                == *old(connection),
        },
        r.is_err() ==> *final(context) == *old(context),
{
    let version = context.negotiate_info.spdm_version_sel;
    let payload = open_response(
        context,
        version,
        SpdmRequestResponseCode::SpdmResponseAlgorithms,
        response,
    )?;
    let received = decode_payload::<SpdmAlgorithmsResponsePayload>(context, payload)?;
    let mut noted = *context;
    let selection = handle_algorithms_response(&mut noted, sent, &received)?;
    connection.record_exchange(hash_slot, SpdmExchange::NegotiateAlgorithms, request, response)?;
    *context = noted;
    Ok(selection)
}

} // verus!
