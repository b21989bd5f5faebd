//! Error kinds shared by every layer of the library.

use vstd::prelude::*;

verus! {

/// The reason an operation was refused or failed.
#[derive(Clone, Copy, Debug, PartialEq, Eq, Structural)]
pub enum SpdmError {
    /// A field of a message holds a reserved, unsupported or inconsistent value.
    InvalidMsgField,
    /// The operation is not legal in the current connection or session state.
    InvalidState,
    /// The peers have no protocol version in common.
    UnsupportedVersion,
    /// The peers have no algorithm of some kind in common.
    NegotiationFail,
    /// A certificate chain is malformed, too long or does not verify.
    InvalidCertChain,
    /// A signature does not verify.
    InvalidSignature,
    /// A verify-data MAC does not match.
    InvalidMac,
    /// An AEAD record failed authentication.
    DecryptFail,
    /// A direction's sequence number cannot advance any further.
    SequenceExhausted,
    /// A transcript buffer is full.
    TranscriptOverflow,
    /// No session with the given id is in the table.
    SessionNotFound,
    /// The session table is full.
    SessionLimit,
    /// The peer is busy.
    Busy,
    /// Nothing arrived within the receive timeout.
    IoTimeout,
    /// The transport failed to send.
    IoSend,
    /// The transport failed to receive.
    IoRecv,
    /// The peer answered with something other than what was asked for.
    Unexpected,
    /// A collaborator (crypto provider, registry) is missing or failed.
    Fault,
}

/// Result of an operation that fails with an [`SpdmError`].
pub type SpdmResult<T = ()> = Result<T, SpdmError>;

} // verus!
