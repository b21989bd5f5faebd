//! The part of the responder in the requests that run inside a session.
//!
//! The responder reads the request, writes its acknowledgement, and takes
//! the step that the request asks for on the session. Opening the record
//! that carries the request, and sealing the one that carries the
//! acknowledgement, is done by the session.

use crate::common::connection::SpdmConnection;
use crate::common::handshake::step_taken;
use crate::common::session::SpdmSessionView;
use crate::common::session_request::SpdmSessionRequest;
use crate::common::spdm_codec::{decode_payload, encode_message, spec_decode_payload, spec_message};
use crate::common::SpdmContext;
use crate::crypto::{ProviderSlot, SpdmHash, SpdmHkdf};
use crate::error::{SpdmError, SpdmResult};
use crate::codec::Codec;
use crate::message::end_session::{SpdmEndSessionRequestPayload, SpdmEndSessionResponsePayload};
use crate::message::header::{SpdmMessageHeader, SpdmRequestResponseCode};
use crate::message::heartbeat::{SpdmHeartbeatRequestPayload, SpdmHeartbeatResponsePayload};
use crate::message::key_update::{SpdmKeyUpdateRequestPayload, SpdmKeyUpdateResponsePayload};
use crate::protocol::SpdmVersion;
use crate::requester::outcome;
use vstd::prelude::*;

verus! {

/// The request inside a session that `request` is, or why it is refused: a
/// message without a header that can be read, of another version than that
/// of the connection, or with a payload that is none, is refused with
/// `InvalidMsgField`, and a message that is no request that runs inside a
/// session with `Unexpected`.
pub open spec fn spec_session_request(context: SpdmContext, request: Seq<u8>) -> SpdmResult<
    SpdmSessionRequest,
> {
    let payload = request.subrange(2, request.len() as int);
    match SpdmMessageHeader::spec_read(request) {
        Some((header, _)) => if header.version != context.negotiate_info.spdm_version_sel {
            Err(SpdmError::InvalidMsgField)
        } else {
            match header.request_response_code {
                SpdmRequestResponseCode::SpdmRequestHeartbeat => match spec_decode_payload::<
                    SpdmHeartbeatRequestPayload,
                >(context, payload) {
                    Ok(_) => Ok(SpdmSessionRequest::Heartbeat),
                    Err(e) => Err(e),
                },
                SpdmRequestResponseCode::SpdmRequestKeyUpdate => match spec_decode_payload::<
                    SpdmKeyUpdateRequestPayload,
                >(context, payload) {
                    Ok(update) => Ok(SpdmSessionRequest::KeyUpdate(update)),
                    Err(e) => Err(e),
                },
                SpdmRequestResponseCode::SpdmRequestEndSession => match spec_decode_payload::<
                    SpdmEndSessionRequestPayload,
                >(context, payload) {
                    Ok(end) => Ok(SpdmSessionRequest::EndSession(end)),
                    Err(e) => Err(e),
                },
                _ => Err(SpdmError::Unexpected),
            }
        },
        None => Err(SpdmError::InvalidMsgField),
    }
}

/// The request inside a session that `request` is. See
/// [`spec_session_request`].
pub fn read_session_request(context: &mut SpdmContext, request: &[u8]) -> (r: SpdmResult<
    SpdmSessionRequest,
>)
    ensures
        *final(context) == *old(context),
        r == spec_session_request(*old(context), request@),
{
    if request.len() < 2 {
        return Err(SpdmError::InvalidMsgField);
    }
    let version = SpdmVersion::from_u8(request[0]);
    let code = SpdmRequestResponseCode::from_u8(request[1]);
    let payload = vstd::slice::slice_subrange(request, 2, request.len());
    match (version, code) {
        (Some(version), Some(code)) => {
            if version != context.negotiate_info.spdm_version_sel {
                return Err(SpdmError::InvalidMsgField);
            }
            match code {
                SpdmRequestResponseCode::SpdmRequestHeartbeat => {
                    let _ = decode_payload::<SpdmHeartbeatRequestPayload>(context, payload)?;
                    Ok(SpdmSessionRequest::Heartbeat)
                },
                SpdmRequestResponseCode::SpdmRequestKeyUpdate => {
                    let update = decode_payload::<SpdmKeyUpdateRequestPayload>(context, payload)?;
                    Ok(SpdmSessionRequest::KeyUpdate(update))
                },
                SpdmRequestResponseCode::SpdmRequestEndSession => {
                    let end = decode_payload::<SpdmEndSessionRequestPayload>(context, payload)?;
                    Ok(SpdmSessionRequest::EndSession(end))
                },
                _ => Err(SpdmError::Unexpected),
            }
        },
        _ => Err(SpdmError::InvalidMsgField),
    }
}

/// The acknowledgement of a request inside a session, as a message of the
/// version `version`.
pub open spec fn spec_session_response(version: SpdmVersion, request: SpdmSessionRequest) -> Seq<
    u8,
> {
    spec_message(version, request.spec_response_code(), request.spec_response_payload())
}

/// Writes the acknowledgement of a request inside a session to the start of
/// `buffer`, and returns its length: four bytes. A buffer that is shorter is
/// refused with `InvalidMsgField`, and stays as it is.
pub fn write_session_response(
    context: &mut SpdmContext,
    version: SpdmVersion,
    request: SpdmSessionRequest,
    buffer: &mut [u8],
) -> (r: SpdmResult<usize>)
    ensures
        *final(context) == *old(context),
        final(buffer)@.len() == old(buffer)@.len(),
        r == if old(buffer)@.len() >= 4 {
            Ok::<usize, SpdmError>(4)
        } else {
            Err::<usize, SpdmError>(SpdmError::InvalidMsgField)
        },
        r.is_ok() ==> final(buffer)@.subrange(0, 4) == spec_session_response(version, request),
        r.is_err() ==> final(buffer)@ == old(buffer)@,
{
    match request {
        SpdmSessionRequest::Heartbeat => encode_message(
            context,
            version,
            SpdmRequestResponseCode::SpdmResponseHeartbeatAck,
            &SpdmHeartbeatResponsePayload {  },
            buffer,
        ),
        SpdmSessionRequest::KeyUpdate(update) => encode_message(
            context,
            version,
            SpdmRequestResponseCode::SpdmResponseKeyUpdateAck,
            &SpdmKeyUpdateResponsePayload {
                key_update_operation: update.key_update_operation,
                tag: update.tag,
            },
            buffer,
        ),
        SpdmSessionRequest::EndSession(_) => encode_message(
            context,
            version,
            SpdmRequestResponseCode::SpdmResponseEndSessionAck,
            &SpdmEndSessionResponsePayload {  },
            buffer,
        ),
    }
}

/// Answers a request inside the session `session_id`: reads the request,
/// writes its acknowledgement to the start of `buffer`, takes the step that
/// the request asks for on the session, and returns the length of the
/// acknowledgement.
///
/// A request that cannot be read, and a buffer of less than four bytes,
/// which is refused with `InvalidMsgField`, leave the connection as it is.
/// Where the step fails, its error is the result, and `buffer` holds an
/// acknowledgement that is not to be sent. See [`spec_session_request`],
/// [`SpdmSessionView::request_step`] and [`spec_session_response`].
pub fn answer_session_request<H: SpdmHash, K: SpdmHkdf>(
    connection: &mut SpdmConnection<H>,
    hkdf_slot: &ProviderSlot<K>,
    context: &mut SpdmContext,
    session_id: u32,
    request: &[u8],
    buffer: &mut [u8],
) -> (r: SpdmResult<usize>)
    requires
        old(connection).inv(),
    ensures
        final(connection).inv(),
        *final(context) == *old(context),
        final(buffer)@.len() == old(buffer)@.len(),
        final(connection).state == old(connection).state,
        final(connection).transcript == old(connection).transcript,
        match spec_session_request(*old(context), request@) {
            Ok(asked) => if old(buffer)@.len() >= 4 {
                step_taken(
                    old(connection).sessions@,
                    final(connection).sessions@,
                    session_id,
                    outcome(r),
                    |session: SpdmSessionView|
                        session.request_step(
                            hkdf_slot.provider(),
                            old(context).negotiate_info.spdm_version_sel,
                            asked,
                        ),
                ) && (r.is_ok() ==> r == Ok::<usize, SpdmError>(4) && final(buffer)@.subrange(0, 4)
                    == spec_session_response(old(context).negotiate_info.spdm_version_sel, asked))
            } else {
                r == Err::<usize, SpdmError>(SpdmError::InvalidMsgField) && final(connection).sessions@ == old(connection).sessions@
            },
            Err(e) => r == Err::<usize, SpdmError>(e) && final(connection).sessions@ == old(connection).sessions@,
        },
{
    let asked = read_session_request(context, request)?;
    let version = context.negotiate_info.spdm_version_sel;
    let used = write_session_response(context, version, asked, buffer)?;
    connection.take_session_request(hkdf_slot, session_id, version, asked)?;
    Ok(used)
}

} // verus!
