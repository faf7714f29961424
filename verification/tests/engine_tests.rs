use gcp_host::GCP_MAX_RETRIES;
use gcp_host::engine::{
    EngineError, GcpError, build_reset_frame, error_is_transient, handle_fw_version_response,
    handle_hello_response, handle_status_response, nack_is_transient, reset_mode, should_retry,
};
use gcp_host::frame::{GcpCommand, GcpFrame};

fn ack_frame(payload: Vec<u8>) -> GcpFrame {
    // Simulate what the decoder yields for an ACK: the whole payload as data.
    GcpFrame::with_data(GcpCommand::Ack, Vec::new(), payload)
}

fn nack_frame(echoed: u16, code: u16) -> GcpFrame {
    let mut payload = echoed.to_le_bytes().to_vec();
    payload.extend_from_slice(&[0, 0, 0, 0]);
    payload.extend_from_slice(&code.to_le_bytes());
    let bytes = GcpFrame::with_data(GcpCommand::Nack, Vec::new(), payload).serialize();
    GcpFrame::deserialize(&bytes).unwrap()
}

#[test]
fn test_hello_round_trip_with_echo_prefix() {
    // Device ACKs HELLO: echoed command 01 00, sequence number, 8 hardware bytes.
    let mut payload = vec![0x01, 0x00, 0, 0, 0, 0];
    payload.extend_from_slice(&[0x19, 0x07, 0xE8, 0x03, 0x01, 0x02, 0x40, 0x03]);
    let reply = ack_frame(payload);
    let hw = handle_hello_response(&reply).unwrap();
    assert_eq!(hw.manufacture_date, 0x0719);
    assert_eq!(hw.serial_number, 1000);
    assert_eq!(hw.board_type, 0x01);
    assert_eq!(hw.hw_revision, 0x02);
    assert_eq!(hw.chip_model, 0x40);
    assert_eq!(hw.features, 0x03);
}

#[test]
fn test_hello_wire_round_trip() {
    // Full wire path: serialize the device's ACK, decode it, parse it.
    let mut payload = vec![0x01, 0x00, 0, 0, 0, 0];
    payload.extend_from_slice(&[0x19, 0x07, 0xE8, 0x03, 0x01, 0x00, 0x40, 0x03]);
    let wire = GcpFrame::with_data(GcpCommand::Ack, Vec::new(), payload).serialize();
    let decoded = GcpFrame::deserialize(&wire).unwrap();
    let hw = handle_hello_response(&decoded).unwrap();
    assert_eq!(hw.manufacture_date, 0x0719);
    assert_eq!(hw.serial_number, 1000);
}

#[test]
fn test_hello_without_echo_prefix() {
    // A bare 8-byte ACK payload parses from offset 0.
    let reply = ack_frame(vec![0x19, 0x07, 0xE8, 0x03, 0x01, 0x02, 0x40, 0x03]);
    let hw = handle_hello_response(&reply).unwrap();
    assert_eq!(hw.manufacture_date, 0x0719);
}

#[test]
fn test_hello_short_payload_is_invalid_response() {
    let reply = ack_frame(vec![0x19, 0x07, 0xE8]);
    assert_eq!(handle_hello_response(&reply), Err(EngineError::InvalidResponse));
}

#[test]
fn test_get_status_with_ack_prefix_detection() {
    // 21 payload bytes whose first two echo GET_STATUS (01 20): skip 6,
    // parse 15 as StatusData.
    let mut payload = vec![0x01, 0x20, 0, 0, 0, 0];
    payload.extend_from_slice(&[87, 1, 0xE0, 0x07, 128, 0x05, 0x00, 25, 10, 12, 14, 30, 45, 7, 99]);
    assert_eq!(payload.len(), 21);
    let status = handle_status_response(&ack_frame(payload)).unwrap();
    assert_eq!(status.battery_level, 87);
    assert_eq!(status.system_state, 1);
    assert_eq!(status.led_color, 0x07E0);
    assert_eq!(status.led_brightness, 128);
    assert_eq!(status.current_game_idx, 5);
    assert_eq!(status.rtc_time, [25, 10, 12, 14, 30, 45, 7, 99]);
}

#[test]
fn test_get_fw_version_takes_bytes_six_to_twelve() {
    // Exactly 12 payload bytes: echoed command + sequence number + 6
    // version bytes; the engine parses bytes [6..12].
    let mut payload = vec![0x05, 0x20, 0, 0, 0, 0];
    payload.extend_from_slice(&[2, 1, 3, 0x62, 0x65, 0x74]);
    assert_eq!(payload.len(), 12);
    let ver = handle_fw_version_response(&ack_frame(payload)).unwrap();
    assert_eq!(ver.fw_version_major, 2);
    assert_eq!(ver.fw_version_minor, 1);
    assert_eq!(ver.fw_version_patch, 3);
    assert_eq!(ver.fw_version_suffix, [0x62, 0x65, 0x74]);
}

#[test]
fn test_nack_surfaces_device_error() {
    let reply = nack_frame(0x0001, 0x0007);
    assert_eq!(handle_hello_response(&reply), Err(EngineError::DeviceError(0x0007)));
}

#[test]
fn test_non_ack_reply_is_invalid_response() {
    let reply = GcpFrame::new(GcpCommand::GetStatus);
    assert_eq!(handle_status_response(&reply), Err(EngineError::InvalidResponse));
}

#[test]
fn test_nack_code_retry_classification() {
    // Retried: CRC, SEQ, TIMEOUT, MRAM, BUSY.
    for code in [0x0001, 0x0002, 0x0004, 0x0005, 0x0008] {
        assert!(nack_is_transient(code), "code {:#06x} should be transient", code);
    }
    // Surfaced at once: SIZE, UNKNOWN_CMD, INVALID_PARAM.
    for code in [0x0003, 0x0006, 0x0007] {
        assert!(!nack_is_transient(code), "code {:#06x} should be fatal", code);
    }
    assert_eq!(GcpError::InvalidParam.to_u16(), 0x0007);
    assert_eq!(GcpError::Busy.to_u16(), 0x0008);
}

#[test]
fn test_retry_policy() {
    assert!(error_is_transient(&EngineError::Timeout));
    assert!(error_is_transient(&EngineError::IoError));
    assert!(!error_is_transient(&EngineError::InvalidResponse));
    assert!(!error_is_transient(&EngineError::NotConnected));
    assert!(should_retry(&EngineError::Timeout, 1));
    assert!(should_retry(&EngineError::DeviceError(0x0008), GCP_MAX_RETRIES - 1));
    assert!(!should_retry(&EngineError::Timeout, GCP_MAX_RETRIES));
    assert!(!should_retry(&EngineError::DeviceError(0x0007), 1));
}

#[test]
fn test_reset_frame_modes() {
    assert_eq!(reset_mode(false), 0x0001);
    assert_eq!(reset_mode(true), 0x0002);
    let soft = build_reset_frame(false);
    assert_eq!(soft.msg_type, GcpCommand::Reset);
    assert_eq!(soft.parameters, vec![0x01, 0x00]);
    let apply = build_reset_frame(true);
    assert_eq!(apply.parameters, vec![0x02, 0x00]);
    assert_eq!(apply.length, 6);
}
