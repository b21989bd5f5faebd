//! Protocol-bounded buffer sizes and limits.

use vstd::prelude::*;

verus! {

/// Capacity of the scratch buffer in which one SPDM message is assembled.
pub const MAX_SPDM_MESSAGE_BUFFER_SIZE: usize = 0x1200;

/// Largest certificate chain, in bytes, that a peer may present.
pub const MAX_SPDM_CERT_CHAIN_DATA_SIZE: usize = 0x1000;

/// Largest portion of a certificate chain that one response carries.
pub const MAX_SPDM_CERT_PORTION_LEN: usize = 0x200;

/// Number of certificate slots of a device.
pub const SPDM_MAX_SLOT_NUMBER: usize = 8;

/// Capacity of the value field of one measurement and of a measurement record.
pub const MAX_SPDM_MEASUREMENT_VALUE_LEN: usize = 0x400;

/// Number of slots in the session table of one connection.
pub const MAX_SPDM_SESSION_COUNT: usize = 4;

/// Largest payload that one transport frame carries.
pub const DATA_TRANSFER_SIZE: usize = 0x1200;

/// Largest SPDM message that is reassembled from transport frames.
pub const MAX_SPDM_MSG_SIZE: usize = 0x1200;

/// Period, in seconds, after which a session without traffic is probed.
pub const HEARTBEAT_PERIOD: u8 = 0;

} // verus!
