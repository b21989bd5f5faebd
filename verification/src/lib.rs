//! Core of the Security Protocol and Data Model (SPDM): wire codec, key
//! schedule, crypto-provider registry and the session layer, with their
//! behaviour stated in contracts.

pub mod bytes;
pub mod config;
pub mod error;
pub mod protocol;
pub mod codec;
pub mod crypto;
pub mod common;
pub mod message;
pub mod requester;
pub mod responder;
pub mod secret;
pub mod emu;
