//! The header of every SPDM message: version and request or response code.
//! The two parameter bytes that follow belong to the payload.

use crate::codec::{Codec, Reader, Writer};
use crate::protocol::SpdmVersion;
use vstd::prelude::*;

verus! {

/// What a message asks for or answers with.
#[derive(Clone, Copy, Debug, PartialEq, Eq, Structural)]
pub enum SpdmRequestResponseCode {
    // responses
    SpdmResponseDigests,
    SpdmResponseCertificate,
    SpdmResponseChallengeAuth,
    SpdmResponseVersion,
    SpdmResponseMeasurements,
    SpdmResponseCapabilities,
    SpdmResponseAlgorithms,
    SpdmResponseKeyExchangeRsp,
    SpdmResponseFinishRsp,
    SpdmResponsePskExchangeRsp,
    SpdmResponsePskFinishRsp,
    SpdmResponseHeartbeatAck,
    SpdmResponseKeyUpdateAck,
    SpdmResponseEndSessionAck,
    SpdmResponseError,
    // requests
    SpdmRequestGetDigests,
    SpdmRequestGetCertificate,
    SpdmRequestChallenge,
    SpdmRequestGetVersion,
    SpdmRequestGetMeasurements,
    SpdmRequestGetCapabilities,
    SpdmRequestNegotiateAlgorithms,
    SpdmRequestKeyExchange,
    SpdmRequestFinish,
    SpdmRequestPskExchange,
    SpdmRequestPskFinish,
    SpdmRequestHeartbeat,
    SpdmRequestKeyUpdate,
    SpdmRequestEndSession,
}

impl SpdmRequestResponseCode {
    /// The wire byte of the code.
    pub open spec fn spec_u8(&self) -> u8 {
        match self {
            SpdmRequestResponseCode::SpdmResponseDigests => 0x01,
            SpdmRequestResponseCode::SpdmResponseCertificate => 0x02,
            SpdmRequestResponseCode::SpdmResponseChallengeAuth => 0x03,
            SpdmRequestResponseCode::SpdmResponseVersion => 0x04,
            SpdmRequestResponseCode::SpdmResponseMeasurements => 0x60,
            SpdmRequestResponseCode::SpdmResponseCapabilities => 0x61,
            SpdmRequestResponseCode::SpdmResponseAlgorithms => 0x63,
            SpdmRequestResponseCode::SpdmResponseKeyExchangeRsp => 0x64,
            SpdmRequestResponseCode::SpdmResponseFinishRsp => 0x65,
            SpdmRequestResponseCode::SpdmResponsePskExchangeRsp => 0x66,
            SpdmRequestResponseCode::SpdmResponsePskFinishRsp => 0x67,
            SpdmRequestResponseCode::SpdmResponseHeartbeatAck => 0x68,
            SpdmRequestResponseCode::SpdmResponseKeyUpdateAck => 0x69,
            SpdmRequestResponseCode::SpdmResponseEndSessionAck => 0x6c,
            SpdmRequestResponseCode::SpdmResponseError => 0x7f,
            SpdmRequestResponseCode::SpdmRequestGetDigests => 0x81,
            SpdmRequestResponseCode::SpdmRequestGetCertificate => 0x82,
            SpdmRequestResponseCode::SpdmRequestChallenge => 0x83,
            SpdmRequestResponseCode::SpdmRequestGetVersion => 0x84,
            SpdmRequestResponseCode::SpdmRequestGetMeasurements => 0xe0,
            SpdmRequestResponseCode::SpdmRequestGetCapabilities => 0xe1,
            SpdmRequestResponseCode::SpdmRequestNegotiateAlgorithms => 0xe3,
            SpdmRequestResponseCode::SpdmRequestKeyExchange => 0xe4,
            SpdmRequestResponseCode::SpdmRequestFinish => 0xe5,
            SpdmRequestResponseCode::SpdmRequestPskExchange => 0xe6,
            SpdmRequestResponseCode::SpdmRequestPskFinish => 0xe7,
            SpdmRequestResponseCode::SpdmRequestHeartbeat => 0xe8,
            SpdmRequestResponseCode::SpdmRequestKeyUpdate => 0xe9,
            SpdmRequestResponseCode::SpdmRequestEndSession => 0xec,
        }
    }

    /// The code that a wire byte stands for, if any.
    pub open spec fn spec_from_u8(value: u8) -> Option<SpdmRequestResponseCode> {
        if value == 0x01 {
            Some(SpdmRequestResponseCode::SpdmResponseDigests)
        } else if value == 0x02 {
            Some(SpdmRequestResponseCode::SpdmResponseCertificate)
        } else if value == 0x03 {
            Some(SpdmRequestResponseCode::SpdmResponseChallengeAuth)
        } else if value == 0x04 {
            Some(SpdmRequestResponseCode::SpdmResponseVersion)
        } else if value == 0x60 {
            Some(SpdmRequestResponseCode::SpdmResponseMeasurements)
        } else if value == 0x61 {
            Some(SpdmRequestResponseCode::SpdmResponseCapabilities)
        } else if value == 0x63 {
            Some(SpdmRequestResponseCode::SpdmResponseAlgorithms)
        } else if value == 0x64 {
            Some(SpdmRequestResponseCode::SpdmResponseKeyExchangeRsp)
        } else if value == 0x65 {
            Some(SpdmRequestResponseCode::SpdmResponseFinishRsp)
        } else if value == 0x66 {
            Some(SpdmRequestResponseCode::SpdmResponsePskExchangeRsp)
        } else if value == 0x67 {
            Some(SpdmRequestResponseCode::SpdmResponsePskFinishRsp)
        } else if value == 0x68 {
            Some(SpdmRequestResponseCode::SpdmResponseHeartbeatAck)
        } else if value == 0x69 {
            Some(SpdmRequestResponseCode::SpdmResponseKeyUpdateAck)
        } else if value == 0x6c {
            Some(SpdmRequestResponseCode::SpdmResponseEndSessionAck)
        } else if value == 0x7f {
            Some(SpdmRequestResponseCode::SpdmResponseError)
        } else if value == 0x81 {
            Some(SpdmRequestResponseCode::SpdmRequestGetDigests)
        } else if value == 0x82 {
            Some(SpdmRequestResponseCode::SpdmRequestGetCertificate)
        } else if value == 0x83 {
            Some(SpdmRequestResponseCode::SpdmRequestChallenge)
        } else if value == 0x84 {
            Some(SpdmRequestResponseCode::SpdmRequestGetVersion)
        } else if value == 0xe0 {
            Some(SpdmRequestResponseCode::SpdmRequestGetMeasurements)
        } else if value == 0xe1 {
            Some(SpdmRequestResponseCode::SpdmRequestGetCapabilities)
        } else if value == 0xe3 {
            Some(SpdmRequestResponseCode::SpdmRequestNegotiateAlgorithms)
        } else if value == 0xe4 {
            Some(SpdmRequestResponseCode::SpdmRequestKeyExchange)
        } else if value == 0xe5 {
            Some(SpdmRequestResponseCode::SpdmRequestFinish)
        } else if value == 0xe6 {
            Some(SpdmRequestResponseCode::SpdmRequestPskExchange)
        } else if value == 0xe7 {
            Some(SpdmRequestResponseCode::SpdmRequestPskFinish)
        } else if value == 0xe8 {
            Some(SpdmRequestResponseCode::SpdmRequestHeartbeat)
        } else if value == 0xe9 {
            Some(SpdmRequestResponseCode::SpdmRequestKeyUpdate)
        } else if value == 0xec {
            Some(SpdmRequestResponseCode::SpdmRequestEndSession)
        } else {
            None
        }
    }

    /// The code is that of a request: its top bit is set.
    pub open spec fn spec_is_request(&self) -> bool {
        self.spec_u8() >= 0x80
    }

    #[verifier::when_used_as_spec(spec_u8)]
    pub fn get_u8(&self) -> (r: u8)
        ensures
            r == self.spec_u8(),
    {
        match self {
            SpdmRequestResponseCode::SpdmResponseDigests => 0x01,
            SpdmRequestResponseCode::SpdmResponseCertificate => 0x02,
            SpdmRequestResponseCode::SpdmResponseChallengeAuth => 0x03,
            SpdmRequestResponseCode::SpdmResponseVersion => 0x04,
            SpdmRequestResponseCode::SpdmResponseMeasurements => 0x60,
            SpdmRequestResponseCode::SpdmResponseCapabilities => 0x61,
            SpdmRequestResponseCode::SpdmResponseAlgorithms => 0x63,
            SpdmRequestResponseCode::SpdmResponseKeyExchangeRsp => 0x64,
            SpdmRequestResponseCode::SpdmResponseFinishRsp => 0x65,
            SpdmRequestResponseCode::SpdmResponsePskExchangeRsp => 0x66,
            SpdmRequestResponseCode::SpdmResponsePskFinishRsp => 0x67,
            SpdmRequestResponseCode::SpdmResponseHeartbeatAck => 0x68,
            SpdmRequestResponseCode::SpdmResponseKeyUpdateAck => 0x69,
            SpdmRequestResponseCode::SpdmResponseEndSessionAck => 0x6c,
            SpdmRequestResponseCode::SpdmResponseError => 0x7f,
            SpdmRequestResponseCode::SpdmRequestGetDigests => 0x81,
            SpdmRequestResponseCode::SpdmRequestGetCertificate => 0x82,
            SpdmRequestResponseCode::SpdmRequestChallenge => 0x83,
            SpdmRequestResponseCode::SpdmRequestGetVersion => 0x84,
            SpdmRequestResponseCode::SpdmRequestGetMeasurements => 0xe0,
            SpdmRequestResponseCode::SpdmRequestGetCapabilities => 0xe1,
            SpdmRequestResponseCode::SpdmRequestNegotiateAlgorithms => 0xe3,
            SpdmRequestResponseCode::SpdmRequestKeyExchange => 0xe4,
            SpdmRequestResponseCode::SpdmRequestFinish => 0xe5,
            SpdmRequestResponseCode::SpdmRequestPskExchange => 0xe6,
            SpdmRequestResponseCode::SpdmRequestPskFinish => 0xe7,
            SpdmRequestResponseCode::SpdmRequestHeartbeat => 0xe8,
            SpdmRequestResponseCode::SpdmRequestKeyUpdate => 0xe9,
            SpdmRequestResponseCode::SpdmRequestEndSession => 0xec,
        }
    }

    pub fn from_u8(value: u8) -> (r: Option<SpdmRequestResponseCode>)
        ensures
            r == Self::spec_from_u8(value),
            r matches Some(code) ==> code.spec_u8() == value,
    {
        match value {
            0x01 => Some(SpdmRequestResponseCode::SpdmResponseDigests),
            0x02 => Some(SpdmRequestResponseCode::SpdmResponseCertificate),
            0x03 => Some(SpdmRequestResponseCode::SpdmResponseChallengeAuth),
            0x04 => Some(SpdmRequestResponseCode::SpdmResponseVersion),
            0x60 => Some(SpdmRequestResponseCode::SpdmResponseMeasurements),
            0x61 => Some(SpdmRequestResponseCode::SpdmResponseCapabilities),
            0x63 => Some(SpdmRequestResponseCode::SpdmResponseAlgorithms),
            0x64 => Some(SpdmRequestResponseCode::SpdmResponseKeyExchangeRsp),
            0x65 => Some(SpdmRequestResponseCode::SpdmResponseFinishRsp),
            0x66 => Some(SpdmRequestResponseCode::SpdmResponsePskExchangeRsp),
            0x67 => Some(SpdmRequestResponseCode::SpdmResponsePskFinishRsp),
            0x68 => Some(SpdmRequestResponseCode::SpdmResponseHeartbeatAck),
            0x69 => Some(SpdmRequestResponseCode::SpdmResponseKeyUpdateAck),
            0x6c => Some(SpdmRequestResponseCode::SpdmResponseEndSessionAck),
            0x7f => Some(SpdmRequestResponseCode::SpdmResponseError),
            0x81 => Some(SpdmRequestResponseCode::SpdmRequestGetDigests),
            0x82 => Some(SpdmRequestResponseCode::SpdmRequestGetCertificate),
            0x83 => Some(SpdmRequestResponseCode::SpdmRequestChallenge),
            0x84 => Some(SpdmRequestResponseCode::SpdmRequestGetVersion),
            0xe0 => Some(SpdmRequestResponseCode::SpdmRequestGetMeasurements),
            0xe1 => Some(SpdmRequestResponseCode::SpdmRequestGetCapabilities),
            0xe3 => Some(SpdmRequestResponseCode::SpdmRequestNegotiateAlgorithms),
            0xe4 => Some(SpdmRequestResponseCode::SpdmRequestKeyExchange),
            0xe5 => Some(SpdmRequestResponseCode::SpdmRequestFinish),
            0xe6 => Some(SpdmRequestResponseCode::SpdmRequestPskExchange),
            0xe7 => Some(SpdmRequestResponseCode::SpdmRequestPskFinish),
            0xe8 => Some(SpdmRequestResponseCode::SpdmRequestHeartbeat),
            0xe9 => Some(SpdmRequestResponseCode::SpdmRequestKeyUpdate),
            0xec => Some(SpdmRequestResponseCode::SpdmRequestEndSession),
            _ => None,
        }
    }

    /// Tells whether the code is that of a request.
    #[verifier::when_used_as_spec(spec_is_request)]
    pub fn is_request(&self) -> (r: bool)
        ensures
            r == self.spec_is_request(),
    {
        self.get_u8() >= 0x80
    }
}

/// The first two bytes of a message.
#[derive(Clone, Copy, Debug, PartialEq, Eq, Structural)]
pub struct SpdmMessageHeader {
    pub version: SpdmVersion,
    pub request_response_code: SpdmRequestResponseCode,
}

impl Codec for SpdmMessageHeader {
    open spec fn spec_valid(&self) -> bool {
        true
    }

    open spec fn spec_encode(&self) -> Seq<u8> {
        seq![self.version.spec_u8(), self.request_response_code.spec_u8()]
    }

    /// A header needs a byte that stands for a version and one that stands
    /// for a code.
    open spec fn spec_read(bytes: Seq<u8>) -> Option<(SpdmMessageHeader, nat)> {
        if bytes.len() >= 2 {
            match (
                SpdmVersion::spec_from_u8(bytes[0]),
                SpdmRequestResponseCode::spec_from_u8(bytes[1]),
            ) {
                (Some(version), Some(request_response_code)) => Some(
                    (SpdmMessageHeader { version, request_response_code }, 2),
                ),
                _ => None,
            }
        } else {
            None
        }
    }

    fn encode(&self, bytes: &mut Writer) {
        self.version.get_u8().encode(bytes);
        self.request_response_code.get_u8().encode(bytes);
        proof {
            if old(bytes).spec_left() >= 2 {
                assert(bytes@ =~= old(bytes)@ + self.spec_encode());
            }
        }
    }

    fn read(r: &mut Reader) -> (v: Option<SpdmMessageHeader>) {
        let ghost bytes = r.remaining();
        let version_byte: u8 = u8::read(r)?;
        let code_byte: u8 = match u8::read(r) {
            Some(b) => b,
            None => {
                return None;
            },
        };
        assert(r.remaining() =~= bytes.subrange(2, bytes.len() as int));
        let version = SpdmVersion::from_u8(version_byte)?;
        let request_response_code = SpdmRequestResponseCode::from_u8(code_byte)?;
        Some(SpdmMessageHeader { version, request_response_code })
    }

    proof fn lemma_round_trip(&self, rest: Seq<u8>) {
        let wire = self.spec_encode() + rest;
        assert(wire[0] == self.version.spec_u8());
        assert(wire[1] == self.request_response_code.spec_u8());
    }
}

} // verus!
