use gcp_host::crc::{gcp_crc16, gcp_crc32};
use gcp_host::frame::{FrameDecodeError, GcpCommand, GcpFrame};

#[test]
fn test_crc16() {
    let data = [0x06, 0x00, 0x01, 0x00, 0x00, 0x00];
    let crc = gcp_crc16(&data);
    // This should match the expected CRC for a HELLO frame
    assert_ne!(crc, 0);
}

#[test]
fn test_frame_serialization() {
    let frame = GcpFrame::new(GcpCommand::Hello);
    let serialized = frame.serialize();

    // Check preamble
    assert_eq!(serialized[0], 0xAA);
    assert_eq!(serialized[1], 0x55);

    // Check length (little-endian)
    assert_eq!(serialized[2], 0x06);
    assert_eq!(serialized[3], 0x00);

    // Check command (little-endian)
    assert_eq!(serialized[4], 0x01);
    assert_eq!(serialized[5], 0x00);
}

#[test]
fn test_frame_deserialization() {
    let frame = GcpFrame::new(GcpCommand::Hello);
    let serialized = frame.serialize();
    let deserialized = GcpFrame::deserialize(&serialized).unwrap();

    assert_eq!(deserialized.msg_type.to_u16(), GcpCommand::Hello.to_u16());
    assert_eq!(deserialized.length, 6);
}

#[test]
fn test_crc32_reference_vectors() {
    assert_eq!(gcp_crc32(&[]), 0x00000000);
    assert_eq!(gcp_crc32(b"123456789"), 0xCBF43926);
}

#[test]
fn test_round_trip_with_params_and_data() {
    let frame = GcpFrame::with_data(GcpCommand::GetInfo, vec![1, 2], vec![3, 4, 5]);
    let bytes = frame.serialize();
    assert_eq!(bytes.len(), frame.length as usize + 4);
    let back = GcpFrame::deserialize(&bytes).unwrap();
    assert_eq!(back.msg_type, GcpCommand::GetInfo);
    assert_eq!(back.length, 9);
    assert_eq!(back.parameters, vec![1, 2]);
    assert_eq!(back.data, vec![3, 4, 5]);
}

#[test]
fn test_round_trip_ack_payload_stays_whole() {
    // For ACK frames the decoder hands the whole payload back as data.
    let payload = vec![0x01, 0x00, 0, 0, 0, 0, 9, 8, 7];
    let frame = GcpFrame::with_data(GcpCommand::Ack, Vec::new(), payload.clone());
    let bytes = frame.serialize();
    let back = GcpFrame::deserialize(&bytes).unwrap();
    assert_eq!(back.msg_type, GcpCommand::Ack);
    assert!(back.parameters.is_empty());
    assert_eq!(back.data, payload);
}

#[test]
fn test_unknown_command_decodes_to_unknown() {
    let frame = GcpFrame::with_data(GcpCommand::Unknown(0x7777), vec![0, 0], Vec::new());
    let bytes = frame.serialize();
    let back = GcpFrame::deserialize(&bytes).unwrap();
    assert_eq!(back.msg_type, GcpCommand::Unknown(0x7777));
}

#[test]
fn test_single_byte_corruption_fails_with_crc_mismatch() {
    let frame = GcpFrame::with_data(GcpCommand::GetStatus, vec![0, 0], vec![10, 20, 30, 40]);
    let good = frame.serialize();
    // Mutate every byte between the header and the trailing CRC in turn.
    for pos in 4..good.len() - 2 {
        let mut bad = good.clone();
        bad[pos] ^= 0x5A;
        match GcpFrame::deserialize(&bad) {
            Err(FrameDecodeError::CrcMismatch { expected, got }) => {
                assert_ne!(expected, got);
            }
            other => panic!("corruption at {} not detected: {:?}", pos, other),
        }
    }
}

#[test]
fn test_decode_short_frame() {
    assert_eq!(
        GcpFrame::deserialize(&[0xAA, 0x55, 0x06, 0x00, 0x01]),
        Err(FrameDecodeError::ShortFrame)
    );
}

#[test]
fn test_decode_bad_preamble() {
    let mut bytes = GcpFrame::new(GcpCommand::Ping).serialize();
    bytes[0] = 0x00;
    assert_eq!(GcpFrame::deserialize(&bytes), Err(FrameDecodeError::BadPreamble));
}

#[test]
fn test_decode_incomplete_frame() {
    let bytes = GcpFrame::with_data(GcpCommand::GetDiagnostics, vec![0, 0], vec![1; 20]).serialize();
    let truncated = &bytes[..bytes.len() - 4];
    assert_eq!(GcpFrame::deserialize(truncated), Err(FrameDecodeError::Incomplete));
}

#[test]
fn test_decode_length_under_minimum() {
    // LENGTH = 3 cannot hold even the LENGTH and MSG_TYPE fields.
    let body = [0x03u8, 0x00, 0x01, 0x00, 0x00, 0x00];
    let crc = gcp_crc16(&body);
    let mut bytes = vec![0xAA, 0x55];
    bytes.extend_from_slice(&body);
    bytes.extend_from_slice(&crc.to_le_bytes());
    assert_eq!(GcpFrame::deserialize(&bytes), Err(FrameDecodeError::ShortFrame));
}

#[test]
fn test_command_codes_round_trip() {
    let codes = [
        0x0001, 0x0002, 0x0003, 0x0004, 0x0005, 0x1001, 0x1002, 0x1003, 0x1004, 0x1005, 0x1006,
        0x2001, 0x2002, 0x2003, 0x2004, 0x2005,
    ];
    for &code in codes.iter() {
        let cmd = GcpCommand::from_u16(code);
        assert_ne!(cmd, GcpCommand::Unknown(code));
        assert_eq!(cmd.to_u16(), code);
    }
    assert_eq!(GcpCommand::from_u16(0x0999), GcpCommand::Unknown(0x0999));
}

#[test]
fn test_header_only_frame_layout() {
    // Header-only frames carry two reserved zero parameter bytes and CRC
    // over LENGTH ‖ MSG_TYPE ‖ PARAMS.
    let bytes = GcpFrame::new(GcpCommand::Hello).serialize();
    assert_eq!(bytes.len(), 10);
    assert_eq!(&bytes[..8], &[0xAA, 0x55, 0x06, 0x00, 0x01, 0x00, 0x00, 0x00]);
    let crc = gcp_crc16(&bytes[2..8]);
    assert_eq!(bytes[8], (crc % 256) as u8);
    assert_eq!(bytes[9], (crc / 256) as u8);
}
