//! Providers built on the *ring* crate.
//!
//! Each module holds one provider and the calls into *ring* that it rests
//! on. What those calls return is taken on trust: *ring* is not verified
//! here. The functions marked `external_body` state what is assumed of them.

pub mod aead_impl;
pub mod hash_impl;
pub mod hkdf_impl;
pub mod hmac_impl;
pub mod rand_impl;

use vstd::prelude::*;

verus! {

/// The longest input, in bytes, that is handed to *ring* in one piece or fed
/// to one running hash. *ring* counts its input in bits in 64 bits and refuses
/// more; this bound stays far below that.
pub const RING_MAX_INPUT_LEN: usize = 0xFFFF_FFFF;

} // verus!
