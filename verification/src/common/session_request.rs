//! The requests that run inside a session: the heartbeat, the key update,
//! and the end of the session.
//!
//! The responder takes the step that a request asks for when it answers the
//! request, the requester when the acknowledgement has arrived.

use crate::common::connection::SpdmConnection;
use crate::common::handshake::step_taken;
use crate::common::session::SpdmSessionView;
use crate::crypto::{ProviderSlot, SpdmHash, SpdmHkdf};
use crate::error::SpdmResult;
use crate::message::end_session::SpdmEndSessionRequestPayload;
use crate::message::header::SpdmRequestResponseCode;
use crate::message::key_update::{key_update_wire, SpdmKeyUpdateRequestPayload};
use crate::protocol::SpdmVersion;
use vstd::prelude::*;

verus! {

/// A request that runs inside a session.
#[derive(Clone, Copy, Debug, PartialEq, Eq, Structural)]
pub enum SpdmSessionRequest {
    Heartbeat,
    KeyUpdate(SpdmKeyUpdateRequestPayload),
    EndSession(SpdmEndSessionRequestPayload),
}

impl SpdmSessionRequest {
    /// The code of the request.
    pub open spec fn spec_request_code(&self) -> SpdmRequestResponseCode {
        match self {
            SpdmSessionRequest::Heartbeat => SpdmRequestResponseCode::SpdmRequestHeartbeat,
            SpdmSessionRequest::KeyUpdate(_) => SpdmRequestResponseCode::SpdmRequestKeyUpdate,
            SpdmSessionRequest::EndSession(_) => SpdmRequestResponseCode::SpdmRequestEndSession,
        }
    }

    /// The code of the acknowledgement of the request.
    pub open spec fn spec_response_code(&self) -> SpdmRequestResponseCode {
        match self {
            SpdmSessionRequest::Heartbeat => SpdmRequestResponseCode::SpdmResponseHeartbeatAck,
            SpdmSessionRequest::KeyUpdate(_) => SpdmRequestResponseCode::SpdmResponseKeyUpdateAck,
            SpdmSessionRequest::EndSession(_) => SpdmRequestResponseCode::SpdmResponseEndSessionAck,
        }
    }

    /// The payload of the acknowledgement of the request: a key update is
    /// acknowledged with its operation and its tag, the others with two
    /// zero bytes.
    pub open spec fn spec_response_payload(&self) -> Seq<u8> {
        match self {
            SpdmSessionRequest::KeyUpdate(update) => key_update_wire(
                update.key_update_operation,
                update.tag,
            ),
            _ => seq![0u8, 0u8],
        }
    }

    /// The code of the acknowledgement of the request.
    #[verifier::when_used_as_spec(spec_response_code)]
    pub fn response_code(&self) -> (r: SpdmRequestResponseCode)
        ensures
            r == self.spec_response_code(),
    {
        match self {
            SpdmSessionRequest::Heartbeat => SpdmRequestResponseCode::SpdmResponseHeartbeatAck,
            SpdmSessionRequest::KeyUpdate(_) => SpdmRequestResponseCode::SpdmResponseKeyUpdateAck,
            SpdmSessionRequest::EndSession(_) => SpdmRequestResponseCode::SpdmResponseEndSessionAck,
        }
    }
}

impl SpdmSessionView {
    /// The session after a request that runs inside it, and the result of
    /// the request: a heartbeat and a key update are the steps of their
    /// names, and the end of the session wipes the session.
    pub open spec fn request_step<K: SpdmHkdf>(
        &self,
        hkdf: Option<K>,
        spdm_version: SpdmVersion,
        request: SpdmSessionRequest,
    ) -> (SpdmResult, SpdmSessionView) {
        match request {
            SpdmSessionRequest::Heartbeat => self.heartbeat(),
            SpdmSessionRequest::KeyUpdate(update) => self.key_update(
                hkdf,
                spdm_version,
                update.key_update_operation,
            ),
            SpdmSessionRequest::EndSession(_) => (Ok(()), SpdmSessionView::free()),
        }
    }
}

impl<H: SpdmHash> SpdmConnection<H> {
    /// Takes the step that a request inside the session `session_id` asks
    /// for. See [`SpdmSessionView::request_step`].
    pub fn take_session_request<K: SpdmHkdf>(
        &mut self,
        hkdf_slot: &ProviderSlot<K>,
        session_id: u32,
        spdm_version: SpdmVersion,
        request: SpdmSessionRequest,
    ) -> (r: SpdmResult)
        requires
            old(self).inv(),
        ensures
            final(self).inv(),
            final(self).state == old(self).state,
            final(self).transcript == old(self).transcript,
            step_taken(
                old(self).sessions@,
                final(self).sessions@,
                session_id,
                r,
                |session: SpdmSessionView|
                    session.request_step(hkdf_slot.provider(), spdm_version, request),
            ),
    {
        match request {
            SpdmSessionRequest::Heartbeat => self.check_heartbeat(session_id),
            SpdmSessionRequest::KeyUpdate(update) => self.process_key_update(
                hkdf_slot,
                session_id,
                spdm_version,
                update.key_update_operation,
            ),
            SpdmSessionRequest::EndSession(_) => self.end_session(session_id),
        }
    }
}

} // verus!
