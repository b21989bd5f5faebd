//! ERROR responses: the codes a responder answers with in place of a
//! response, and what a requester does about them.

use crate::codec::{Codec, Reader, Writer};
use crate::common::spdm_codec::SpdmCodec;
use crate::common::SpdmContext;
use crate::error::SpdmError;
use vstd::prelude::*;

verus! {

/// The error code in the first parameter byte of an ERROR response.
#[derive(Clone, Copy, Debug, PartialEq, Eq, Structural)]
pub enum SpdmErrorCode {
    SpdmErrorInvalidRequest,
    SpdmErrorInvalidSession,
    SpdmErrorBusy,
    SpdmErrorUnexpectedRequest,
    SpdmErrorUnspecified,
    SpdmErrorDecryptError,
    SpdmErrorSessionLimitExceeded,
    SpdmErrorSessionRequired,
    SpdmErrorResponseNotReady,
    SpdmErrorVersionMismatch,
    SpdmErrorRequestResynch,
}

impl SpdmErrorCode {
    /// The wire byte of the code.
    pub open spec fn spec_u8(&self) -> u8 {
        match self {
            SpdmErrorCode::SpdmErrorInvalidRequest => 0x01,
            SpdmErrorCode::SpdmErrorInvalidSession => 0x02,
            SpdmErrorCode::SpdmErrorBusy => 0x03,
            SpdmErrorCode::SpdmErrorUnexpectedRequest => 0x04,
            SpdmErrorCode::SpdmErrorUnspecified => 0x05,
            SpdmErrorCode::SpdmErrorDecryptError => 0x06,
            SpdmErrorCode::SpdmErrorSessionLimitExceeded => 0x0a,
            SpdmErrorCode::SpdmErrorSessionRequired => 0x0b,
            SpdmErrorCode::SpdmErrorResponseNotReady => 0x42,
            SpdmErrorCode::SpdmErrorVersionMismatch => 0x41,
            SpdmErrorCode::SpdmErrorRequestResynch => 0x43,
        }
    }

    /// The code that a wire byte stands for, if any.
    pub open spec fn spec_from_u8(value: u8) -> Option<SpdmErrorCode> {
        if value == 0x01 {
            Some(SpdmErrorCode::SpdmErrorInvalidRequest)
        } else if value == 0x02 {
            Some(SpdmErrorCode::SpdmErrorInvalidSession)
        } else if value == 0x03 {
            Some(SpdmErrorCode::SpdmErrorBusy)
        } else if value == 0x04 {
            Some(SpdmErrorCode::SpdmErrorUnexpectedRequest)
        } else if value == 0x05 {
            Some(SpdmErrorCode::SpdmErrorUnspecified)
        } else if value == 0x06 {
            Some(SpdmErrorCode::SpdmErrorDecryptError)
        } else if value == 0x0a {
            Some(SpdmErrorCode::SpdmErrorSessionLimitExceeded)
        } else if value == 0x0b {
            Some(SpdmErrorCode::SpdmErrorSessionRequired)
        } else if value == 0x42 {
            Some(SpdmErrorCode::SpdmErrorResponseNotReady)
        } else if value == 0x41 {
            Some(SpdmErrorCode::SpdmErrorVersionMismatch)
        } else if value == 0x43 {
            Some(SpdmErrorCode::SpdmErrorRequestResynch)
        } else {
            None
        }
    }

    #[verifier::when_used_as_spec(spec_u8)]
    pub fn get_u8(&self) -> (r: u8)
        ensures
            r == self.spec_u8(),
    {
        match self {
            SpdmErrorCode::SpdmErrorInvalidRequest => 0x01,
            SpdmErrorCode::SpdmErrorInvalidSession => 0x02,
            SpdmErrorCode::SpdmErrorBusy => 0x03,
            SpdmErrorCode::SpdmErrorUnexpectedRequest => 0x04,
            SpdmErrorCode::SpdmErrorUnspecified => 0x05,
            SpdmErrorCode::SpdmErrorDecryptError => 0x06,
            SpdmErrorCode::SpdmErrorSessionLimitExceeded => 0x0a,
            SpdmErrorCode::SpdmErrorSessionRequired => 0x0b,
            SpdmErrorCode::SpdmErrorResponseNotReady => 0x42,
            SpdmErrorCode::SpdmErrorVersionMismatch => 0x41,
            SpdmErrorCode::SpdmErrorRequestResynch => 0x43,
        }
    }

    pub fn from_u8(value: u8) -> (r: Option<SpdmErrorCode>)
        ensures
            r == Self::spec_from_u8(value),
            r matches Some(code) ==> code.spec_u8() == value,
    {
        match value {
            0x01 => Some(SpdmErrorCode::SpdmErrorInvalidRequest),
            0x02 => Some(SpdmErrorCode::SpdmErrorInvalidSession),
            0x03 => Some(SpdmErrorCode::SpdmErrorBusy),
            0x04 => Some(SpdmErrorCode::SpdmErrorUnexpectedRequest),
            0x05 => Some(SpdmErrorCode::SpdmErrorUnspecified),
            0x06 => Some(SpdmErrorCode::SpdmErrorDecryptError),
            0x0a => Some(SpdmErrorCode::SpdmErrorSessionLimitExceeded),
            0x0b => Some(SpdmErrorCode::SpdmErrorSessionRequired),
            0x42 => Some(SpdmErrorCode::SpdmErrorResponseNotReady),
            0x41 => Some(SpdmErrorCode::SpdmErrorVersionMismatch),
            0x43 => Some(SpdmErrorCode::SpdmErrorRequestResynch),
            _ => None,
        }
    }
}

/// What a requester does about an ERROR response.
#[derive(Clone, Copy, Debug, PartialEq, Eq, Structural)]
pub enum SpdmErrorAction {
    /// Send the request again; so many tries are left after this one.
    Retry(u8),
    /// Start the connection over from the version exchange.
    Resynch,
    /// Give up on the request.
    Abort,
}

/// What to do about an ERROR response with the given code when `retries_left`
/// more tries are allowed: a busy responder, or one whose response is not
/// ready, is asked again as long as tries are left; a responder that asks to
/// resynchronise has the connection started over; everything else ends the
/// request.
pub open spec fn spec_error_action(code: SpdmErrorCode, retries_left: u8) -> SpdmErrorAction {
    match code {
        SpdmErrorCode::SpdmErrorBusy | SpdmErrorCode::SpdmErrorResponseNotReady => if retries_left
            > 0 {
            SpdmErrorAction::Retry((retries_left - 1) as u8)
        } else {
            SpdmErrorAction::Abort
        },
        SpdmErrorCode::SpdmErrorRequestResynch => SpdmErrorAction::Resynch,
        _ => SpdmErrorAction::Abort,
    }
}

/// Decides what to do about an ERROR response.
pub fn error_action(code: SpdmErrorCode, retries_left: u8) -> (action: SpdmErrorAction)
    ensures
        action == spec_error_action(code, retries_left),
{
    match code {
        SpdmErrorCode::SpdmErrorBusy | SpdmErrorCode::SpdmErrorResponseNotReady => if retries_left
            > 0 {
            SpdmErrorAction::Retry(retries_left - 1)
        } else {
            SpdmErrorAction::Abort
        },
        SpdmErrorCode::SpdmErrorRequestResynch => SpdmErrorAction::Resynch,
        _ => SpdmErrorAction::Abort,
    }
}

/// The code with which a responder answers a request that failed with
/// `error`: a malformed request is an invalid request, a request out of turn
/// an unexpected one, a record that does not open a decrypt error; a session
/// that is not there, a full table, a version that is not spoken and a busy
/// responder have codes of their own, and everything else is unspecified.
pub open spec fn spec_error_response_code(error: SpdmError) -> SpdmErrorCode {
    match error {
        SpdmError::InvalidMsgField => SpdmErrorCode::SpdmErrorInvalidRequest,
        SpdmError::InvalidState => SpdmErrorCode::SpdmErrorUnexpectedRequest,
        SpdmError::UnsupportedVersion => SpdmErrorCode::SpdmErrorVersionMismatch,
        SpdmError::InvalidMac => SpdmErrorCode::SpdmErrorDecryptError,
        SpdmError::DecryptFail => SpdmErrorCode::SpdmErrorDecryptError,
        SpdmError::SessionNotFound => SpdmErrorCode::SpdmErrorInvalidSession,
        SpdmError::SessionLimit => SpdmErrorCode::SpdmErrorSessionLimitExceeded,
        SpdmError::Busy => SpdmErrorCode::SpdmErrorBusy,
        _ => SpdmErrorCode::SpdmErrorUnspecified,
    }
}

/// The ERROR response with which a responder answers a request that failed
/// with `error`, in place of a response. See [`spec_error_response_code`].
pub fn error_response(error: SpdmError) -> (r: SpdmErrorResponsePayload)
    ensures
        r == (SpdmErrorResponsePayload {
            error_code: spec_error_response_code(error),
            error_data: 0,
            extended_data: None,
        }),
        r.error_code != SpdmErrorCode::SpdmErrorResponseNotReady,
{
    let error_code = match error {
        SpdmError::InvalidMsgField => SpdmErrorCode::SpdmErrorInvalidRequest,
        SpdmError::InvalidState => SpdmErrorCode::SpdmErrorUnexpectedRequest,
        SpdmError::UnsupportedVersion => SpdmErrorCode::SpdmErrorVersionMismatch,
        SpdmError::InvalidMac => SpdmErrorCode::SpdmErrorDecryptError,
        SpdmError::DecryptFail => SpdmErrorCode::SpdmErrorDecryptError,
        SpdmError::SessionNotFound => SpdmErrorCode::SpdmErrorInvalidSession,
        SpdmError::SessionLimit => SpdmErrorCode::SpdmErrorSessionLimitExceeded,
        SpdmError::Busy => SpdmErrorCode::SpdmErrorBusy,
        _ => SpdmErrorCode::SpdmErrorUnspecified,
    };
    SpdmErrorResponsePayload { error_code, error_data: 0, extended_data: None }
}

/// What a responder that is not ready adds to its ERROR response: when to
/// ask again, and for what.
#[derive(Clone, Copy, Debug, PartialEq, Eq, Structural)]
pub struct SpdmErrorResponseNotReadyExtData {
    /// The responder asks for 2 to this power microseconds of patience.
    pub rdt_exponent: u8,
    /// The code of the request that is not answered yet.
    pub request_code: u8,
    /// The token under which to ask for the response.
    pub token: u8,
    /// The multiple of the waiting time after which the responder gives up.
    pub rdtm: u8,
}

impl SpdmErrorResponseNotReadyExtData {
    /// The four bytes of the data.
    pub open spec fn spec_encode(&self) -> Seq<u8> {
        seq![self.rdt_exponent, self.request_code, self.token, self.rdtm]
    }

    /// The time to wait before asking again, in microseconds: 2 to the power
    /// of the exponent.
    pub open spec fn spec_backoff(&self) -> int {
        vstd::arithmetic::power2::pow2(self.rdt_exponent as nat) as int
    }

    /// The time to wait before asking again, in microseconds; nothing where
    /// it does not fit 64 bits.
    pub fn backoff_micros(&self) -> (r: Option<u64>)
        ensures
            r.is_some() == (self.rdt_exponent < 64),
            r matches Some(micros) ==> micros == self.spec_backoff(),
    {
        if self.rdt_exponent >= 64 {
            return None;
        }
        let mut micros: u64 = 1;
        let mut i: u8 = 0;
        proof {
            vstd::arithmetic::power2::lemma2_to64();
        }
        while i < self.rdt_exponent
            invariant
                i <= self.rdt_exponent < 64,
                micros == vstd::arithmetic::power2::pow2(i as nat),
            decreases self.rdt_exponent - i,
        {
            proof {
                vstd::arithmetic::power2::lemma_pow2_unfold((i + 1) as nat);
                vstd::arithmetic::power2::lemma_pow2_strictly_increases((i + 1) as nat, 64);
                vstd::arithmetic::power2::lemma2_to64_rest();
            }
            micros = micros * 2;
            i = i + 1;
        }
        Some(micros)
    }
}

/// The payload of ERROR: the code, one byte of data, and, from a responder
/// that is not ready, when to ask again.
#[derive(Clone, Copy, Debug, PartialEq, Eq, Structural)]
pub struct SpdmErrorResponsePayload {
    pub error_code: SpdmErrorCode,
    pub error_data: u8,
    pub extended_data: Option<SpdmErrorResponseNotReadyExtData>,
}

impl SpdmCodec for SpdmErrorResponsePayload {
    /// The extended data is there exactly where the responder is not ready.
    open spec fn spdm_spec_valid(&self, context: &SpdmContext) -> bool {
        self.extended_data.is_some() == (self.error_code
            == SpdmErrorCode::SpdmErrorResponseNotReady)
    }

    open spec fn spdm_spec_encode(&self, context: &SpdmContext) -> Seq<u8> {
        seq![self.error_code.spec_u8(), self.error_data] + match self.extended_data {
            Some(extended) => extended.spec_encode(),
            None => Seq::<u8>::empty(),
        }
    }

    /// A response needs a code that is defined and, for the code of a
    /// responder that is not ready, four more bytes.
    open spec fn spdm_spec_read(context: &SpdmContext, bytes: Seq<u8>) -> Option<
        (SpdmErrorResponsePayload, nat),
    > {
        if bytes.len() < 2 {
            None
        } else {
            match SpdmErrorCode::spec_from_u8(bytes[0]) {
                Some(error_code) => if error_code == SpdmErrorCode::SpdmErrorResponseNotReady {
                    if bytes.len() >= 6 {
                        Some(
                            (
                                SpdmErrorResponsePayload {
                                    error_code,
                                    error_data: bytes[1],
                                    extended_data: Some(
                                        SpdmErrorResponseNotReadyExtData {
                                            rdt_exponent: bytes[2],
                                            request_code: bytes[3],
                                            token: bytes[4],
                                            rdtm: bytes[5],
                                        },
                                    ),
                                },
                                6,
                            ),
                        )
                    } else {
                        None
                    }
                } else {
                    Some(
                        (
                            SpdmErrorResponsePayload {
                                error_code,
                                error_data: bytes[1],
                                extended_data: None,
                            },
                            2,
                        ),
                    )
                },
                None => None,
            }
        }
    }

    fn spdm_size(&self, context: &SpdmContext) -> (r: usize) {
        let total: usize = if self.extended_data.is_some() {
            6
        } else {
            2
        };
        assert(self.spdm_spec_encode(context).len() == total);
        total
    }

    fn spdm_encode(&self, context: &mut SpdmContext, bytes: &mut Writer) {
        let total: usize = if self.extended_data.is_some() {
            6
        } else {
            2
        };
        assert(self.spdm_spec_encode(old(context)).len() == total);
        if bytes.left() < total {
            assert(old(bytes)@.is_prefix_of(bytes@));
            return;
        }
        self.error_code.get_u8().encode(bytes);  // param1
        self.error_data.encode(bytes);  // param2
        assert(bytes@ =~= old(bytes)@ + seq![self.error_code.spec_u8(), self.error_data]);
        match self.extended_data {
            Some(extended) => {
                extended.rdt_exponent.encode(bytes);
                extended.request_code.encode(bytes);
                extended.token.encode(bytes);
                extended.rdtm.encode(bytes);
                assert(bytes@ =~= old(bytes)@ + (seq![self.error_code.spec_u8(), self.error_data]
                    + extended.spec_encode()));
            },
            None => {},
        }
        assert(bytes@ =~= old(bytes)@ + self.spdm_spec_encode(old(context)));
        assert(old(bytes)@.is_prefix_of(bytes@));
    }

    fn spdm_read(context: &mut SpdmContext, r: &mut Reader) -> (v: Option<
        SpdmErrorResponsePayload,
    >) {
        let ghost bytes = r.remaining();
        let fixed = r.take(2)?;
        assert(fixed@ =~= bytes.subrange(0, 2));
        let error_code = SpdmErrorCode::from_u8(fixed[0])?;
        let error_data: u8 = fixed[1];
        match error_code {
            SpdmErrorCode::SpdmErrorResponseNotReady => {
                let extended = r.take(4)?;
                assert(extended@ =~= bytes.subrange(2, 6));
                assert(r.remaining() =~= bytes.subrange(6, bytes.len() as int));
                Some(
                    SpdmErrorResponsePayload {
                        error_code,
                        error_data,
                        extended_data: Some(
                            SpdmErrorResponseNotReadyExtData {
                                rdt_exponent: extended[0],
                                request_code: extended[1],
                                token: extended[2],
                                rdtm: extended[3],
                            },
                        ),
                    },
                )
            },
            _ => Some(SpdmErrorResponsePayload { error_code, error_data, extended_data: None }),
        }
    }

    proof fn lemma_spdm_round_trip(&self, context: &SpdmContext, rest: Seq<u8>) {
        let wire = self.spdm_spec_encode(context) + rest;
        assert(wire[0] == self.error_code.spec_u8());
        assert(wire[1] == self.error_data);
        match self.extended_data {
            Some(extended) => {
                assert(wire[2] == extended.rdt_exponent);
                assert(wire[3] == extended.request_code);
                assert(wire[4] == extended.token);
                assert(wire[5] == extended.rdtm);
            },
            None => {},
        }
    }
}

} // verus!
