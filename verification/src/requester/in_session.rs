//! The part of the requester in the requests that run inside a session.
//!
//! Once the acknowledgement of a request has arrived, the requester checks
//! it and takes the step of the request on the session. Sealing the record
//! that carries the request, and opening the one that carries the
//! acknowledgement, is done by the session.

use crate::common::connection::SpdmConnection;
use crate::common::handshake::step_taken;
use crate::common::session::SpdmSessionView;
use crate::common::session_request::SpdmSessionRequest;
use crate::common::spdm_codec::{decode_payload, spec_decode_payload};
use crate::common::SpdmContext;
use crate::crypto::{ProviderSlot, SpdmHash, SpdmHkdf};
use crate::error::{SpdmError, SpdmResult};
use crate::message::end_session::SpdmEndSessionResponsePayload;
use crate::message::heartbeat::SpdmHeartbeatResponsePayload;
use crate::message::key_update::SpdmKeyUpdateResponsePayload;
use crate::requester::{open_response, spec_open_response};
use vstd::prelude::*;

verus! {

/// What the acknowledgement of the request `sent` means: nothing but that it
/// is one. The response must be of the version of the connection, have the
/// code that acknowledges `sent`, and, for a key update, repeat operation and
/// tag: `InvalidMsgField` where they differ.
pub open spec fn spec_session_response_read(
    context: SpdmContext,
    sent: SpdmSessionRequest,
    response: Seq<u8>,
) -> SpdmResult {
    match spec_open_response(
        context,
        context.negotiate_info.spdm_version_sel,
        sent.spec_response_code(),
        response,
    ) {
        Ok(payload) => match sent {
            SpdmSessionRequest::Heartbeat => match spec_decode_payload::<
                SpdmHeartbeatResponsePayload,
            >(context, payload) {
                Ok(_) => Ok(()),
                Err(e) => Err(e),
            },
            SpdmSessionRequest::KeyUpdate(update) => match spec_decode_payload::<
                SpdmKeyUpdateResponsePayload,
            >(context, payload) {
                Ok(echo) => if echo.key_update_operation == update.key_update_operation
                    && echo.tag == update.tag {
                    Ok(())
                } else {
                    Err(SpdmError::InvalidMsgField)
                },
                Err(e) => Err(e),
            },
            SpdmSessionRequest::EndSession(_) => match spec_decode_payload::<
                SpdmEndSessionResponsePayload,
            >(context, payload) {
                Ok(_) => Ok(()),
                Err(e) => Err(e),
            },
        },
        Err(e) => Err(e),
    }
}

/// Takes the acknowledgement of the request `sent` inside the session
/// `session_id`: checks that the response acknowledges `sent`, and takes the
/// step of `sent` on the session. A response that is refused leaves the
/// connection as it is. See [`spec_session_response_read`] and
/// [`SpdmSessionView::request_step`].
pub fn take_session_response<H: SpdmHash, K: SpdmHkdf>(
    connection: &mut SpdmConnection<H>,
    hkdf_slot: &ProviderSlot<K>,
    context: &mut SpdmContext,
    session_id: u32,
    sent: SpdmSessionRequest,
    response: &[u8],
) -> (r: SpdmResult)
    requires
        old(connection).inv(),
    ensures
        final(connection).inv(),
        *final(context) == *old(context),
        final(connection).state == old(connection).state,
        final(connection).transcript == old(connection).transcript,
        match spec_session_response_read(*old(context), sent, response@) {
            Ok(()) => step_taken(
                old(connection).sessions@,
                final(connection).sessions@,
                session_id,
                r,
                |session: SpdmSessionView|
                    session.request_step(
                        hkdf_slot.provider(),
                        old(context).negotiate_info.spdm_version_sel,
                        sent,
                    ),
            ),
            Err(e) => r == Err::<(), SpdmError>(e) && final(connection).sessions@ == old(connection).sessions@,
        },
{
    let version = context.negotiate_info.spdm_version_sel;
    let payload = open_response(context, version, sent.response_code(), response)?;
    match sent {
        SpdmSessionRequest::Heartbeat => {
            let _ = decode_payload::<SpdmHeartbeatResponsePayload>(context, payload)?;
        },
        SpdmSessionRequest::KeyUpdate(update) => {
            let echo = decode_payload::<SpdmKeyUpdateResponsePayload>(context, payload)?;
            if !(echo.key_update_operation == update.key_update_operation && echo.tag
                == update.tag) {
                return Err(SpdmError::InvalidMsgField);
            }
        },
        SpdmSessionRequest::EndSession(_) => {
            let _ = decode_payload::<SpdmEndSessionResponsePayload>(context, payload)?;
        },
    }
    connection.take_session_request(hkdf_slot, session_id, version, sent)
}

} // verus!
