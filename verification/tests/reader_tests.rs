use gcp_host::frame::{FrameDecodeError, GcpCommand, GcpFrame};
use gcp_host::reader::{FeedResult, FrameAccumulator, find_preamble};

#[test]
fn test_find_preamble_first_occurrence() {
    assert_eq!(find_preamble(&[0x00, 0xAA, 0x55, 0xAA, 0x55]), Some(1));
    assert_eq!(find_preamble(&[0xAA, 0xAA, 0x55]), Some(1));
    assert_eq!(find_preamble(&[0x55, 0xAA]), None);
    assert_eq!(find_preamble(&[]), None);
}

#[test]
fn test_reader_discards_noise_before_frame() {
    // Arbitrary noise without a sync word, then a valid frame.
    let frame = GcpFrame::with_data(GcpCommand::GetStatus, vec![0, 0], vec![1, 2, 3]);
    let mut stream: Vec<u8> = vec![0x13, 0x37, 0xAA, 0xAA, 0x55u8.wrapping_add(1), 0x00];
    stream.extend_from_slice(&frame.serialize());
    let mut acc = FrameAccumulator::new();
    match acc.feed(&stream) {
        FeedResult::Frame(f) => {
            assert_eq!(f.msg_type, GcpCommand::GetStatus);
            assert_eq!(f.parameters, vec![0, 0]);
            assert_eq!(f.data, vec![1, 2, 3]);
        }
        other => panic!("expected a frame, got {:?}", other),
    }
}

#[test]
fn test_reader_long_noise_then_frame() {
    // A kilobyte of noise (no sync word) followed by a frame, in one read.
    let frame = GcpFrame::new(GcpCommand::Ping);
    let mut stream = vec![0x42u8; 1000];
    stream.extend_from_slice(&frame.serialize());
    let mut acc = FrameAccumulator::new();
    match acc.feed(&stream) {
        FeedResult::Frame(f) => assert_eq!(f.msg_type, GcpCommand::Ping),
        other => panic!("expected a frame, got {:?}", other),
    }
}

#[test]
fn test_reader_discards_oversized_noise_then_recovers() {
    let mut acc = FrameAccumulator::new();
    // More than the resync limit of pure noise: discarded, still pending.
    match acc.feed(&vec![0x42u8; 1500]) {
        FeedResult::Pending => {}
        other => panic!("expected pending, got {:?}", other),
    }
    // The next frame still gets through.
    let frame = GcpFrame::new(GcpCommand::Hello);
    match acc.feed(&frame.serialize()) {
        FeedResult::Frame(f) => assert_eq!(f.msg_type, GcpCommand::Hello),
        other => panic!("expected a frame, got {:?}", other),
    }
}

#[test]
fn test_reader_assembles_frame_across_reads() {
    let frame = GcpFrame::with_data(GcpCommand::GetFwVersion, vec![0, 0], vec![7, 7]);
    let bytes = frame.serialize();
    let mut acc = FrameAccumulator::new();
    match acc.feed(&bytes[..3]) {
        FeedResult::Pending => {}
        other => panic!("expected pending, got {:?}", other),
    }
    match acc.feed(&bytes[3..7]) {
        FeedResult::Pending => {}
        other => panic!("expected pending, got {:?}", other),
    }
    match acc.feed(&bytes[7..]) {
        FeedResult::Frame(f) => {
            assert_eq!(f.msg_type, GcpCommand::GetFwVersion);
            assert_eq!(f.data, vec![7, 7]);
        }
        other => panic!("expected a frame, got {:?}", other),
    }
}

#[test]
fn test_reader_reports_corrupt_frame() {
    let mut bytes = GcpFrame::new(GcpCommand::Reset).serialize();
    let last = bytes.len() - 1;
    bytes[last] ^= 0xFF; // break the stored CRC
    let mut acc = FrameAccumulator::new();
    match acc.feed(&bytes) {
        FeedResult::Corrupt(FrameDecodeError::CrcMismatch { .. }) => {}
        other => panic!("expected a CRC mismatch, got {:?}", other),
    }
}
