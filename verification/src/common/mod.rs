//! Logic shared by the requester and the responder.

pub mod cert_chain;
pub mod connection;
pub mod handshake;
pub mod key_schedule;
pub mod negotiate;
pub mod secured_message;
pub mod session;
pub mod session_keys;
pub mod session_request;
pub mod session_table;
pub mod spdm_codec;
pub mod transcript;

use crate::protocol::capability::{has_capability, spec_has_capability, HANDSHAKE_IN_THE_CLEAR_CAP};
use crate::protocol::{
    SpdmAeadAlgo, SpdmBaseAsymAlgo, SpdmBaseHashAlgo, SpdmDheAlgo, SpdmKeyScheduleAlgo,
    SpdmMeasurementHashAlgo, SpdmMeasurementSpecification, SpdmReqAsymAlgo, SpdmVersion,
};
use vstd::prelude::*;

verus! {

/// Receive timeout of the transport, in microseconds.
pub const ST1: usize = 1_000_000;

/// What the two sides agreed on; fixed once negotiation is over.
#[derive(Clone, Copy, Debug, PartialEq, Eq, Structural)]
pub struct SpdmNegotiateInfo {
    pub spdm_version_sel: SpdmVersion,
    pub req_ct_exponent_sel: u8,
    pub req_capabilities_sel: u32,
    pub rsp_ct_exponent_sel: u8,
    pub rsp_capabilities_sel: u32,
    pub measurement_specification_sel: SpdmMeasurementSpecification,
    pub measurement_hash_sel: SpdmMeasurementHashAlgo,
    pub base_hash_sel: SpdmBaseHashAlgo,
    pub base_asym_sel: SpdmBaseAsymAlgo,
    pub dhe_sel: SpdmDheAlgo,
    pub aead_sel: SpdmAeadAlgo,
    pub req_asym_sel: SpdmReqAsymAlgo,
    pub key_schedule_sel: SpdmKeyScheduleAlgo,
}

impl SpdmNegotiateInfo {
    /// What holds before anything is negotiated: the first version, no
    /// capabilities, and the algorithms at their defaults.
    pub open spec fn spec_default() -> SpdmNegotiateInfo {
        SpdmNegotiateInfo {
            spdm_version_sel: SpdmVersion::SpdmVersion10,
            req_ct_exponent_sel: 0,
            req_capabilities_sel: 0,
            rsp_ct_exponent_sel: 0,
            rsp_capabilities_sel: 0,
            measurement_specification_sel: SpdmMeasurementSpecification::DMTF,
            measurement_hash_sel: SpdmMeasurementHashAlgo::TPM_ALG_SHA_256,
            base_hash_sel: SpdmBaseHashAlgo::TPM_ALG_SHA_256,
            base_asym_sel: SpdmBaseAsymAlgo::TPM_ALG_ECDSA_ECC_NIST_P256,
            dhe_sel: SpdmDheAlgo::SECP_256_R1,
            aead_sel: SpdmAeadAlgo::AES_128_GCM,
            req_asym_sel: SpdmReqAsymAlgo::TPM_ALG_ECDSA_ECC_NIST_P256,
            key_schedule_sel: SpdmKeyScheduleAlgo::SPDM_KEY_SCHEDULE,
        }
    }
}

impl Default for SpdmNegotiateInfo {
    fn default() -> (r: SpdmNegotiateInfo)
        ensures
            r == SpdmNegotiateInfo::spec_default(),
    {
        SpdmNegotiateInfo {
            spdm_version_sel: SpdmVersion::SpdmVersion10,
            req_ct_exponent_sel: 0,
            req_capabilities_sel: 0,
            rsp_ct_exponent_sel: 0,
            rsp_capabilities_sel: 0,
            measurement_specification_sel: SpdmMeasurementSpecification::DMTF,
            measurement_hash_sel: SpdmMeasurementHashAlgo::TPM_ALG_SHA_256,
            base_hash_sel: SpdmBaseHashAlgo::TPM_ALG_SHA_256,
            base_asym_sel: SpdmBaseAsymAlgo::TPM_ALG_ECDSA_ECC_NIST_P256,
            dhe_sel: SpdmDheAlgo::SECP_256_R1,
            aead_sel: SpdmAeadAlgo::AES_128_GCM,
            req_asym_sel: SpdmReqAsymAlgo::TPM_ALG_ECDSA_ECC_NIST_P256,
            key_schedule_sel: SpdmKeyScheduleAlgo::SPDM_KEY_SCHEDULE,
        }
    }
}

/// What the exchange in progress asked for.
#[derive(Clone, Copy, Debug, PartialEq, Eq, Structural)]
pub struct SpdmRuntimeInfo {
    /// The request asked for a measurement summary hash, so that the
    /// response carries one.
    pub need_measurement_summary_hash: bool,
    /// The request asked for a signature over the measurements, so that the
    /// response carries one.
    pub need_measurement_signature: bool,
}

/// The state of one connection, as far as the wire format depends on it.
#[derive(Clone, Copy, Debug, PartialEq, Eq, Structural)]
pub struct SpdmContext {
    pub negotiate_info: SpdmNegotiateInfo,
    pub runtime_info: SpdmRuntimeInfo,
}

impl SpdmContext {
    /// A connection on which nothing has been negotiated yet and nothing is
    /// asked for.
    pub open spec fn spec_new() -> SpdmContext {
        SpdmContext {
            negotiate_info: SpdmNegotiateInfo::spec_default(),
            runtime_info: SpdmRuntimeInfo {
                need_measurement_summary_hash: false,
                need_measurement_signature: false,
            },
        }
    }

    /// A connection on which nothing has been negotiated yet and nothing is
    /// asked for.
    pub fn new() -> (r: SpdmContext)
        ensures
            r == SpdmContext::spec_new(),
    {
        SpdmContext {
            negotiate_info: SpdmNegotiateInfo::default(),
            runtime_info: SpdmRuntimeInfo {
                need_measurement_summary_hash: false,
                need_measurement_signature: false,
            },
        }
    }

    /// Both sides run the handshake in the clear, so that the records of the
    /// handshake are not sealed and the response to a finish carries
    /// verify-data.
    pub open spec fn spec_handshake_in_the_clear(&self) -> bool {
        spec_has_capability(self.negotiate_info.req_capabilities_sel, HANDSHAKE_IN_THE_CLEAR_CAP)
            && spec_has_capability(
            self.negotiate_info.rsp_capabilities_sel,
            HANDSHAKE_IN_THE_CLEAR_CAP,
        )
    }

    #[verifier::when_used_as_spec(spec_handshake_in_the_clear)]
    pub fn handshake_in_the_clear(&self) -> (r: bool)
        ensures
            r == self.spec_handshake_in_the_clear(),
    {
        has_capability(self.negotiate_info.req_capabilities_sel, HANDSHAKE_IN_THE_CLEAR_CAP)
            && has_capability(self.negotiate_info.rsp_capabilities_sel, HANDSHAKE_IN_THE_CLEAR_CAP)
    }
}

} // verus!
