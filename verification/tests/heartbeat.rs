use spdmlib::codec::{Codec, Reader, Writer};
use spdmlib::common::spdm_codec::SpdmCodec;
use spdmlib::common::SpdmContext;
use spdmlib::message::{SpdmHeartbeatRequestPayload, SpdmHeartbeatResponsePayload};

#[test]
fn test_case0_spdm_error_response_not_ready_ext_data() {
    let u8_slice = &mut [0u8; 8];
    let mut writer = Writer::init(u8_slice);
    let value = SpdmHeartbeatResponsePayload {};

    let mut context = SpdmContext::new();

    value.spdm_encode(&mut context, &mut writer);
    let mut reader = Reader::init(u8_slice);
    SpdmHeartbeatResponsePayload::spdm_read(&mut context, &mut reader);
}

#[test]
fn test_case0_spdm_heartbeat_request_payload() {
    let u8_slice = &mut [0u8; 8];
    let mut writer = Writer::init(u8_slice);
    let value = SpdmHeartbeatRequestPayload {};

    let mut context = SpdmContext::new();

    value.spdm_encode(&mut context, &mut writer);
    let mut reader = Reader::init(u8_slice);
    SpdmHeartbeatRequestPayload::spdm_read(&mut context, &mut reader);
}

#[test]
fn a_heartbeat_is_two_zero_bytes() {
    let mut context = SpdmContext::new();
    let bytes = &mut [0xffu8; 4];
    let mut writer = Writer::init(bytes);
    SpdmHeartbeatRequestPayload {}.spdm_encode(&mut context, &mut writer);
    assert_eq!(writer.used(), 2);
    SpdmHeartbeatResponsePayload {}.spdm_encode(&mut context, &mut writer);
    assert_eq!(writer.used(), 4);
    assert_eq!(bytes, &[0u8; 4]);

    let mut reader = Reader::init(bytes);
    assert_eq!(
        SpdmHeartbeatRequestPayload::spdm_read(&mut context, &mut reader),
        Some(SpdmHeartbeatRequestPayload {})
    );
    assert_eq!(reader.used(), 2);
    assert_eq!(
        SpdmHeartbeatResponsePayload::spdm_read(&mut context, &mut reader),
        Some(SpdmHeartbeatResponsePayload {})
    );
    assert_eq!(reader.used(), 4);
    assert_eq!(SpdmHeartbeatResponsePayload::spdm_read(&mut context, &mut reader), None);
}

#[test]
fn a_heartbeat_needs_both_parameter_bytes() {
    let mut context = SpdmContext::new();
    let mut reader = Reader::init(&[0u8]);
    assert_eq!(SpdmHeartbeatRequestPayload::spdm_read(&mut context, &mut reader), None);
    // whatever the parameter bytes hold, the payload is the same
    let mut reader = Reader::init(&[0x12u8, 0x34]);
    assert_eq!(
        SpdmHeartbeatResponsePayload::spdm_read(&mut context, &mut reader),
        Some(SpdmHeartbeatResponsePayload {})
    );
}

#[test]
fn a_heartbeat_that_does_not_fit_writes_a_prefix() {
    let mut context = SpdmContext::new();
    let bytes = &mut [0xffu8; 1];
    let mut writer = Writer::init(bytes);
    SpdmHeartbeatRequestPayload {}.spdm_encode(&mut context, &mut writer);
    assert!(writer.used() <= 1);
}

#[test]
fn a_heartbeat_leaves_the_buffer_behind_it_alone() {
    let mut context = SpdmContext::new();
    let mut buffer = [0xffu8; 8];
    let mut writer = Writer::init(&mut buffer);
    SpdmHeartbeatRequestPayload {}.spdm_encode(&mut context, &mut writer);
    assert_eq!(writer.used(), 2);
    assert_eq!(buffer, [0x00, 0x00, 0xff, 0xff, 0xff, 0xff, 0xff, 0xff]);

    let mut buffer = [0xffu8; 8];
    let mut writer = Writer::init(&mut buffer);
    writer.push(0x11);
    SpdmHeartbeatResponsePayload {}.spdm_encode(&mut context, &mut writer);
    0xabcdu16.encode(&mut writer);
    assert_eq!(writer.used(), 5);
    assert_eq!(buffer, [0x11, 0x00, 0x00, 0xcd, 0xab, 0xff, 0xff, 0xff]);
}
