//! Capability flags: what a requester and a responder say they can do.
//!
//! The flags of each side are a mask of 32 bits. Most bits mean the same on
//! both sides; the responder has more of them.

use vstd::prelude::*;

verus! {

/// The responder caches what was negotiated across a reset.
pub const CACHE_CAP: u32 = 0x0000_0001;

/// The side has certificates and answers requests for digests and
/// certificates.
pub const CERT_CAP: u32 = 0x0000_0002;

/// The side answers a challenge.
pub const CHAL_CAP: u32 = 0x0000_0004;

/// The responder reports measurements, without signing them.
pub const MEAS_CAP_NO_SIG: u32 = 0x0000_0008;

/// The responder reports measurements and signs them.
pub const MEAS_CAP_SIG: u32 = 0x0000_0010;

/// The responder measures anew for each request.
pub const MEAS_FRESH_CAP: u32 = 0x0000_0020;

/// The side encrypts the records of a session.
pub const ENCRYPT_CAP: u32 = 0x0000_0040;

/// The side authenticates the records of a session.
pub const MAC_CAP: u32 = 0x0000_0080;

/// The side takes part in mutual authentication.
pub const MUT_AUTH_CAP: u32 = 0x0000_0100;

/// The side opens sessions by key agreement.
pub const KEY_EX_CAP: u32 = 0x0000_0200;

/// The side opens sessions on a pre-shared key.
pub const PSK_CAP: u32 = 0x0000_0400;

/// The responder opens sessions on a pre-shared key and adds a context of its
/// own to the exchange.
pub const PSK_CAP_WITH_CONTEXT: u32 = 0x0000_0800;

/// The side takes requests that are wrapped into responses.
pub const ENCAP_CAP: u32 = 0x0000_1000;

/// The side exchanges heartbeats.
pub const HBEAT_CAP: u32 = 0x0000_2000;

/// The side updates the keys of a session.
pub const KEY_UPD_CAP: u32 = 0x0000_4000;

/// The side runs the handshake of a session unsealed.
pub const HANDSHAKE_IN_THE_CLEAR_CAP: u32 = 0x0000_8000;

/// The public key of the side was provisioned to its peer, so that it sends
/// no certificates.
pub const PUB_KEY_ID_CAP: u32 = 0x0001_0000;

/// The side moves large messages in chunks.
pub const CHUNK_CAP: u32 = 0x0002_0000;

/// The responder's certificate chains end in a certificate of the device
/// that is made by an alias.
pub const ALIAS_CERT_CAP: u32 = 0x0004_0000;

/// Every bit that a requester's flags may hold.
pub const REQUESTER_CAPABILITY_MASK: u32 = 0x0003_f7c6;

/// Every bit that a responder's flags may hold.
pub const RESPONDER_CAPABILITY_MASK: u32 = 0x0007_ffff;

/// The flags `flags` hold the capability `capability`.
pub open spec fn spec_has_capability(flags: u32, capability: u32) -> bool {
    flags & capability != 0
}

/// Tells whether the flags `flags` hold the capability `capability`.
#[verifier::when_used_as_spec(spec_has_capability)]
pub fn has_capability(flags: u32, capability: u32) -> (r: bool)
    ensures
        r == spec_has_capability(flags, capability),
{
    flags & capability != 0
}

} // verus!
