use spdmlib::emu::pci_discovery::{pci_discovery_response, PciDoeMessageHeader};
use spdmlib::emu::{
    log_level_from_setting, names_level_word, process_socket_message, read_be_u32, serve_step,
    LogLevel, ServeStep, SocketMessageAction, SpdmSocketHeader, SOCKET_HEADER_LEN, SOCKET_SPDM_COMMAND_NORMAL,
    SOCKET_SPDM_COMMAND_STOP, SOCKET_SPDM_COMMAND_TEST, SOCKET_SPDM_COMMAND_UNKOWN,
    SOCKET_TRANSPORT_TYPE_MCTP, SOCKET_TRANSPORT_TYPE_PCI_DOE,
};

fn message(command: u32, transport_type: u32, payload: &[u8]) -> Vec<u8> {
    let header = SpdmSocketHeader { command, transport_type, payload_size: payload.len() as u32 };
    let mut bytes = header.encode().to_vec();
    bytes.extend_from_slice(payload);
    bytes
}

#[test]
fn a_socket_header_is_three_big_endian_numbers() {
    let header = SpdmSocketHeader { command: 0xdead, transport_type: 2, payload_size: 0x01020304 };
    let bytes = header.encode();
    assert_eq!(bytes, [0, 0, 0xde, 0xad, 0, 0, 0, 2, 1, 2, 3, 4]);
    assert_eq!(bytes.len(), SOCKET_HEADER_LEN);
    assert_eq!(SpdmSocketHeader::read(&bytes), Some(header));
    assert_eq!(SpdmSocketHeader::read(&bytes[..11]), None);
    let mut longer = bytes.to_vec();
    longer.push(9);
    assert_eq!(SpdmSocketHeader::read(&longer), Some(header));
    assert_eq!(read_be_u32(&[0xff, 0, 0, 1]), 0xff00_0001);
}

#[test]
fn the_command_decides_what_the_emulator_does() {
    let mctp = SOCKET_TRANSPORT_TYPE_MCTP;
    let doe = SOCKET_TRANSPORT_TYPE_PCI_DOE;
    for use_pcidoe in [false, true] {
        assert_eq!(
            process_socket_message(&message(SOCKET_SPDM_COMMAND_TEST, mctp, b"Client Hello!\0"), use_pcidoe),
            SocketMessageAction::SendHello(mctp)
        );
        assert_eq!(
            process_socket_message(&message(SOCKET_SPDM_COMMAND_STOP, doe, b""), use_pcidoe),
            SocketMessageAction::SendStop(doe)
        );
        assert_eq!(
            process_socket_message(&message(SOCKET_SPDM_COMMAND_NORMAL, doe, b"x"), use_pcidoe),
            SocketMessageAction::Continue
        );
        assert_eq!(process_socket_message(&[0u8; 11], use_pcidoe), SocketMessageAction::Stop);
        assert_eq!(process_socket_message(&[], use_pcidoe), SocketMessageAction::Stop);
    }
    for command in [SOCKET_SPDM_COMMAND_UNKOWN, 0, 2, 0xffff_ffff] {
        assert_eq!(
            process_socket_message(&message(command, mctp, b""), false),
            SocketMessageAction::SendUnknown(mctp)
        );
        assert_eq!(
            process_socket_message(&message(command, doe, b""), true),
            SocketMessageAction::PciDiscovery(doe)
        );
    }
}

fn discovery_request(index: u8) -> Vec<u8> {
    vec![0x01, 0x00, 0x00, 0x00, 0x03, 0x00, 0x00, 0x00, index, 0, 0, 0]
}

#[test]
fn discovery_walks_the_three_data_object_types() {
    assert_eq!(
        pci_discovery_response(&discovery_request(0)),
        Some([1, 0, 0, 0, 3, 0, 0, 0, 1, 0, 0, 1])
    );
    assert_eq!(
        pci_discovery_response(&discovery_request(1)),
        Some([1, 0, 0, 0, 3, 0, 0, 0, 1, 0, 1, 2])
    );
    assert_eq!(
        pci_discovery_response(&discovery_request(2)),
        Some([1, 0, 0, 0, 3, 0, 0, 0, 1, 0, 2, 0])
    );
    assert_eq!(pci_discovery_response(&discovery_request(3)), None);
    assert_eq!(pci_discovery_response(&discovery_request(255)), None);
}

#[test]
fn what_is_no_discovery_request_gets_no_response() {
    let good = discovery_request(1);
    // cut short
    assert_eq!(pci_discovery_response(&good[..8]), None);
    assert_eq!(pci_discovery_response(&good[..7]), None);
    assert!(pci_discovery_response(&good[..9]).is_some());
    // another vendor, another data object type
    let mut bad = good.clone();
    bad[0] = 2;
    assert_eq!(pci_discovery_response(&bad), None);
    let mut bad = good.clone();
    bad[1] = 1;
    assert_eq!(pci_discovery_response(&bad), None);
    let mut bad = good.clone();
    bad[2] = 1;
    assert_eq!(pci_discovery_response(&bad), None);
    // a length that does not cover the header
    let mut bad = good.clone();
    bad[4] = 1;
    assert_eq!(pci_discovery_response(&bad), None);
}

#[test]
fn the_length_of_a_doe_message_counts_double_words() {
    let header = PciDoeMessageHeader::read(&[0x01, 0x00, 0x02, 0xff, 0x05, 0x00, 0x00, 0x00]).unwrap();
    assert_eq!(header.vendor_id, 1);
    assert_eq!(header.data_object_type, 2);
    assert_eq!(header.payload_length, 5 * 4 - 8);
    // the length is 18 bits wide; what lies above is reserved
    let header = PciDoeMessageHeader::read(&[0x34, 0x12, 0, 0, 0x02, 0x00, 0xfc, 0xff]).unwrap();
    assert_eq!(header.vendor_id, 0x1234);
    assert_eq!(header.payload_length, 0);
    // zero stands for 2^18 double words
    let header = PciDoeMessageHeader::read(&[1, 0, 0, 0, 0, 0, 0, 0]).unwrap();
    assert_eq!(header.payload_length, 0x40000 * 4 - 8);
    assert_eq!(PciDoeMessageHeader::read(&[1, 0, 0, 0, 1, 0, 0, 0]), None);
    assert_eq!(PciDoeMessageHeader::read(&[1, 0, 0, 0, 3, 0, 0]), None);
}

#[test]
fn the_log_level_is_named_in_any_case() {
    assert_eq!(log_level_from_setting(None), LogLevel::Trace);
    assert_eq!(log_level_from_setting(Some(b"trace")), LogLevel::Trace);
    assert_eq!(log_level_from_setting(Some(b"TRACE")), LogLevel::Trace);
    assert_eq!(log_level_from_setting(Some(b"Debug")), LogLevel::Debug);
    assert_eq!(log_level_from_setting(Some(b"iNfO")), LogLevel::Info);
    assert_eq!(log_level_from_setting(Some(b"warn")), LogLevel::Warn);
    assert_eq!(log_level_from_setting(Some(b"error")), LogLevel::Error);
    assert_eq!(log_level_from_setting(Some(b"")), LogLevel::Error);
    assert_eq!(log_level_from_setting(Some(b"warning")), LogLevel::Error);
    assert_eq!(log_level_from_setting(Some(b"trac")), LogLevel::Error);
    assert_eq!(log_level_from_setting(Some(b" info")), LogLevel::Error);
    assert_eq!(log_level_from_setting(Some(b"off")), LogLevel::Error);
    assert!(names_level_word(b"INFO", b"info"));
    assert!(!names_level_word(b"info", b"INFO"));
    assert!(!names_level_word(b"inf0", b"info"));
    // only letters change case
    assert!(!names_level_word(b"\x09nfo", b"info"));
    assert!(names_level_word(b"[", b"["));
    assert!(!names_level_word(b"[", b"{"));
}

#[test]
fn the_responder_goes_on_while_it_answers() {
    assert_eq!(serve_step(true, true), ServeStep::GoOn);
    assert_eq!(serve_step(true, false), ServeStep::End);
    assert_eq!(serve_step(false, false), ServeStep::HandBack);
    assert_eq!(serve_step(false, true), ServeStep::HandBack);
}
