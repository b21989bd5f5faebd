//! Decisions of the socket emulator: what to do with a message that arrives
//! on the test socket in front of, or in place of, an SPDM message. The
//! socket itself is the caller's business.

pub mod pci_discovery;

use vstd::prelude::*;
use vstd::slice::slice_subrange;

verus! {

/// Length of the header in front of every socket message.
pub const SOCKET_HEADER_LEN: usize = 12;

pub const SOCKET_TRANSPORT_TYPE_MCTP: u32 = 0x01;

pub const SOCKET_TRANSPORT_TYPE_PCI_DOE: u32 = 0x02;

pub const SOCKET_SPDM_COMMAND_NORMAL: u32 = 0x0001;

pub const SOCKET_SPDM_COMMAND_STOP: u32 = 0xFFFE;

pub const SOCKET_SPDM_COMMAND_UNKOWN: u32 = 0xFFFF;

pub const SOCKET_SPDM_COMMAND_TEST: u32 = 0xDEAD;

/// The number whose big-endian form is the first four bytes of `bytes`.
pub open spec fn be_value_u32(bytes: Seq<u8>) -> u32 {
    (bytes[0] as int * 16777216 + bytes[1] as int * 65536 + bytes[2] as int * 256
        + bytes[3] as int) as u32
}

/// The four bytes of `value`, high byte first.
pub open spec fn be_bytes_u32(value: u32) -> Seq<u8> {
    seq![
        (value / 16777216) as u8,
        ((value / 65536) % 256) as u8,
        ((value / 256) % 256) as u8,
        (value % 256) as u8,
    ]
}

/// The header of a socket message: three numbers of four bytes each, high
/// byte first.
#[derive(Clone, Copy, Debug, PartialEq, Eq, Structural)]
pub struct SpdmSocketHeader {
    pub command: u32,
    pub transport_type: u32,
    pub payload_size: u32,
}

impl SpdmSocketHeader {
    /// The twelve bytes of the header.
    pub open spec fn spec_encode(&self) -> Seq<u8> {
        be_bytes_u32(self.command) + be_bytes_u32(self.transport_type) + be_bytes_u32(
            self.payload_size,
        )
    }

    /// The header at the front of `bytes`, if there are twelve bytes.
    pub open spec fn spec_read(bytes: Seq<u8>) -> Option<SpdmSocketHeader> {
        if bytes.len() >= 12 {
            Some(
                SpdmSocketHeader {
                    command: be_value_u32(bytes.subrange(0, 4)),
                    transport_type: be_value_u32(bytes.subrange(4, 8)),
                    payload_size: be_value_u32(bytes.subrange(8, 12)),
                },
            )
        } else {
            None
        }
    }

    /// The twelve bytes of the header.
    pub fn encode(&self) -> (r: [u8; 12])
        ensures
            r@ == self.spec_encode(),
    {
        let r: [u8; 12] = [
            (self.command / 16777216) as u8,
            ((self.command / 65536) % 256) as u8,
            ((self.command / 256) % 256) as u8,
            (self.command % 256) as u8,
            (self.transport_type / 16777216) as u8,
            ((self.transport_type / 65536) % 256) as u8,
            ((self.transport_type / 256) % 256) as u8,
            (self.transport_type % 256) as u8,
            (self.payload_size / 16777216) as u8,
            ((self.payload_size / 65536) % 256) as u8,
            ((self.payload_size / 256) % 256) as u8,
            (self.payload_size % 256) as u8,
        ];
        assert(r@ =~= self.spec_encode());
        r
    }

    /// The header at the front of `bytes`, if there are twelve bytes.
    pub fn read(bytes: &[u8]) -> (r: Option<SpdmSocketHeader>)
        ensures
            r == Self::spec_read(bytes@),
    {
        if bytes.len() < 12 {
            return None;
        }
        let command = read_be_u32(slice_subrange(bytes, 0, 4));
        let transport_type = read_be_u32(slice_subrange(bytes, 4, 8));
        let payload_size = read_be_u32(slice_subrange(bytes, 8, 12));
        Some(SpdmSocketHeader { command, transport_type, payload_size })
    }
}

/// The number whose big-endian form is read is the number that was written.
pub proof fn lemma_be_u32_round_trip(value: u32)
    ensures
        be_value_u32(be_bytes_u32(value)) == value,
{
}

/// Reading the bytes of a header gives the header back, whatever follows
/// them.
pub proof fn lemma_socket_header_round_trip(header: SpdmSocketHeader, rest: Seq<u8>)
    ensures
        SpdmSocketHeader::spec_read(header.spec_encode() + rest) == Some(header),
{
    let wire = header.spec_encode() + rest;
    assert(wire.subrange(0, 4) =~= be_bytes_u32(header.command));
    assert(wire.subrange(4, 8) =~= be_bytes_u32(header.transport_type));
    assert(wire.subrange(8, 12) =~= be_bytes_u32(header.payload_size));
    lemma_be_u32_round_trip(header.command);
    lemma_be_u32_round_trip(header.transport_type);
    lemma_be_u32_round_trip(header.payload_size);
}

/// The number whose big-endian form is `bytes`.
pub fn read_be_u32(bytes: &[u8]) -> (r: u32)
    requires
        bytes@.len() == 4,
    ensures
        r == be_value_u32(bytes@),
{
    (bytes[0] as u32) * 16777216 + (bytes[1] as u32) * 65536 + (bytes[2] as u32) * 256
        + bytes[3] as u32
}

/// What the responder emulator does after it has dealt with a message.
#[derive(Clone, Copy, Debug, PartialEq, Eq, Structural)]
pub enum ServeStep {
    /// Wait for the next message.
    GoOn,
    /// End serving, without more ado.
    End,
    /// The message is no SPDM message: hand it to the one who deals with
    /// socket messages.
    HandBack,
}

/// The step after a message: a message that is no SPDM message is handed
/// back; after an SPDM message the emulator goes on where it answered it,
/// and ends where it could not.
pub open spec fn spec_serve_step(is_spdm_message: bool, answered: bool) -> ServeStep {
    if !is_spdm_message {
        ServeStep::HandBack
    } else if answered {
        ServeStep::GoOn
    } else {
        ServeStep::End
    }
}

/// The step after a message. See [`spec_serve_step`].
pub fn serve_step(is_spdm_message: bool, answered: bool) -> (step: ServeStep)
    ensures
        step == spec_serve_step(is_spdm_message, answered),
{
    if !is_spdm_message {
        ServeStep::HandBack
    } else if answered {
        ServeStep::GoOn
    } else {
        ServeStep::End
    }
}

/// What the emulator does with a socket message that is no SPDM message.
#[derive(Clone, Copy, Debug, PartialEq, Eq, Structural)]
pub enum SocketMessageAction {
    /// Answer with a greeting on the given transport and go on.
    SendHello(u32),
    /// Acknowledge the stop on the given transport and end.
    SendStop(u32),
    /// Nothing to answer; go on.
    Continue,
    /// Treat the message as a PCI DOE discovery request on the given
    /// transport.
    PciDiscovery(u32),
    /// Answer that the command is unknown on the given transport and end.
    SendUnknown(u32),
    /// The message is shorter than a header: end.
    Stop,
}

impl SocketMessageAction {
    /// Whether the emulator goes on with the connection after this action, as
    /// far as the action alone decides it: after a discovery request it
    /// depends on the request.
    pub open spec fn spec_need_continue(&self) -> bool {
        match self {
            SocketMessageAction::SendHello(_) => true,
            SocketMessageAction::Continue => true,
            SocketMessageAction::PciDiscovery(_) => true,
            _ => false,
        }
    }
}

/// The action for a socket message: by its command, and for a command that is
/// none of test, stop and normal, by the transport in use.
pub open spec fn spec_socket_message_action(buffer: Seq<u8>, use_pcidoe: bool)
    -> SocketMessageAction {
    match SpdmSocketHeader::spec_read(buffer) {
        None => SocketMessageAction::Stop,
        Some(header) => if header.command == SOCKET_SPDM_COMMAND_TEST {
            SocketMessageAction::SendHello(header.transport_type)
        } else if header.command == SOCKET_SPDM_COMMAND_STOP {
            SocketMessageAction::SendStop(header.transport_type)
        } else if header.command == SOCKET_SPDM_COMMAND_NORMAL {
            SocketMessageAction::Continue
        } else if use_pcidoe {
            SocketMessageAction::PciDiscovery(header.transport_type)
        } else {
            SocketMessageAction::SendUnknown(header.transport_type)
        },
    }
}

/// Decides what to do with a socket message.
pub fn process_socket_message(buffer: &[u8], use_pcidoe: bool) -> (action: SocketMessageAction)
    ensures
        action == spec_socket_message_action(buffer@, use_pcidoe),
{
    match SpdmSocketHeader::read(buffer) {
        None => SocketMessageAction::Stop,
        Some(header) => if header.command == SOCKET_SPDM_COMMAND_TEST {
            SocketMessageAction::SendHello(header.transport_type)
        } else if header.command == SOCKET_SPDM_COMMAND_STOP {
            SocketMessageAction::SendStop(header.transport_type)
        } else if header.command == SOCKET_SPDM_COMMAND_NORMAL {
            SocketMessageAction::Continue
        } else if use_pcidoe {
            SocketMessageAction::PciDiscovery(header.transport_type)
        } else {
            SocketMessageAction::SendUnknown(header.transport_type)
        },
    }
}

/// The level at which the emulator logs.
#[derive(Clone, Copy, Debug, PartialEq, Eq, Structural)]
pub enum LogLevel {
    Error,
    Warn,
    Info,
    Debug,
    Trace,
}

/// `c` in lower case, where it is an upper-case ASCII letter.
pub open spec fn ascii_lower(c: u8) -> u8 {
    if 0x41 <= c <= 0x5a {
        (c + 0x20) as u8
    } else {
        c
    }
}

/// `name` and `word` are the same but for the case of ASCII letters.
pub open spec fn names_level(name: Seq<u8>, word: Seq<u8>) -> bool {
    name.len() == word.len() && forall|i: int|
        0 <= i < name.len() ==> ascii_lower(#[trigger] name[i]) == word[i]
}

/// The level that a setting names: "trace", "debug", "info" or "warn" in any
/// case; `Error` for any other setting, and `Trace` where nothing is set.
pub open spec fn spec_log_level(setting: Option<Seq<u8>>) -> LogLevel {
    match setting {
        None => LogLevel::Trace,
        Some(name) => if names_level(name, seq![0x74u8, 0x72u8, 0x61u8, 0x63u8, 0x65u8]) {
            LogLevel::Trace
        } else if names_level(name, seq![0x64u8, 0x65u8, 0x62u8, 0x75u8, 0x67u8]) {
            LogLevel::Debug
        } else if names_level(name, seq![0x69u8, 0x6eu8, 0x66u8, 0x6fu8]) {
            LogLevel::Info
        } else if names_level(name, seq![0x77u8, 0x61u8, 0x72u8, 0x6eu8]) {
            LogLevel::Warn
        } else {
            LogLevel::Error
        },
    }
}

/// Tells whether `name` is `word` but for the case of ASCII letters.
pub fn names_level_word(name: &[u8], word: &[u8]) -> (r: bool)
    ensures
        r == names_level(name@, word@),
{
    if name.len() != word.len() {
        return false;
    }
    let n: usize = name.len();
    let mut i: usize = 0;
    while i < n
        invariant
            n == name@.len(),
            n == word@.len(),
            i <= n,
            forall|j: int| 0 <= j < i ==> ascii_lower(#[trigger] name@[j]) == word@[j],
        decreases n - i,
    {
        let c: u8 = name[i];
        let lower: u8 = if 0x41 <= c && c <= 0x5a {
            c + 0x20
        } else {
            c
        };
        if lower != word[i] {
            return false;
        }
        i = i + 1;
    }
    true
}

/// The level at which to log, as the value of the variable `SPDM_LOG` names it.
pub fn log_level_from_setting(setting: Option<&[u8]>) -> (level: LogLevel)
    ensures
        level == spec_log_level(
            match setting {
                Some(name) => Some(name@),
                None => None,
            },
        ),
{
    match setting {
        None => LogLevel::Trace,
        Some(name) => {
            let trace: [u8; 5] = [0x74, 0x72, 0x61, 0x63, 0x65];
            let debug: [u8; 5] = [0x64, 0x65, 0x62, 0x75, 0x67];
            let info: [u8; 4] = [0x69, 0x6e, 0x66, 0x6f];
            let warn: [u8; 4] = [0x77, 0x61, 0x72, 0x6e];
            assert(trace@ =~= seq![0x74u8, 0x72u8, 0x61u8, 0x63u8, 0x65u8]);
            assert(debug@ =~= seq![0x64u8, 0x65u8, 0x62u8, 0x75u8, 0x67u8]);
            assert(info@ =~= seq![0x69u8, 0x6eu8, 0x66u8, 0x6fu8]);
            assert(warn@ =~= seq![0x77u8, 0x61u8, 0x72u8, 0x6eu8]);
            if names_level_word(name, trace.as_slice()) {
                LogLevel::Trace
            } else if names_level_word(name, debug.as_slice()) {
                LogLevel::Debug
            } else if names_level_word(name, info.as_slice()) {
                LogLevel::Info
            } else if names_level_word(name, warn.as_slice()) {
                LogLevel::Warn
            } else {
                LogLevel::Error
            }
        },
    }
}

} // verus!
