//! Message headers and payloads.

pub mod algorithm;
pub mod capability;
pub mod certificate;
pub mod challenge;
pub mod digest;
pub mod end_session;
pub mod error;
pub mod finish;
pub mod header;
pub mod heartbeat;
pub mod key_exchange;
pub mod key_update;
pub mod measurement;
pub mod psk_exchange;
pub mod psk_finish;
pub mod version;

pub use algorithm::{
    handle_algorithms_response, respond_to_negotiate_algorithms, SpdmAlgTables,
    SpdmAlgorithmsResponsePayload, SpdmNegotiateAlgorithmsRequestPayload,
};
pub use capability::{
    note_capabilities, SpdmCapabilities, SpdmCapabilitiesResponsePayload,
    SpdmGetCapabilitiesRequestPayload,
};
pub use certificate::{
    next_certificate_request, take_certificate_portion, SpdmCertificateResponsePayload,
    SpdmGetCertificateRequestPayload,
};
pub use challenge::{SpdmChallengeAuthResponsePayload, SpdmChallengeRequestPayload};
pub use digest::{SpdmDigestsResponsePayload, SpdmGetDigestsRequestPayload};
pub use end_session::{SpdmEndSessionRequestPayload, SpdmEndSessionResponsePayload};
pub use error::{
    error_response, SpdmErrorAction, SpdmErrorCode, SpdmErrorResponseNotReadyExtData,
    SpdmErrorResponsePayload,
};
pub use finish::{decode_finish_request, SpdmFinishRequestPayload, SpdmFinishResponsePayload};
pub use header::{SpdmMessageHeader, SpdmRequestResponseCode};
pub use heartbeat::{SpdmHeartbeatRequestPayload, SpdmHeartbeatResponsePayload};
pub use key_exchange::{
    decode_key_exchange_request, SpdmKeyExchangeMutAuthAttributes, SpdmKeyExchangeRequestPayload,
    SpdmKeyExchangeResponsePayload,
};
pub use key_update::{
    SpdmKeyUpdateOperation, SpdmKeyUpdateRequestPayload, SpdmKeyUpdateResponsePayload,
};
pub use measurement::{
    SpdmGetMeasurementsRequestPayload, SpdmMeasurementContentChanged,
    SpdmMeasurementsResponsePayload,
};
pub use psk_exchange::{SpdmPskExchangeRequestPayload, SpdmPskExchangeResponsePayload};
pub use psk_finish::{SpdmPskFinishRequestPayload, SpdmPskFinishResponsePayload};
pub use version::{
    handle_version_response, SpdmGetVersionRequestPayload, SpdmVersionResponsePayload,
    SpdmVersionStruct,
};
