use gcp_host::crc::gcp_crc32;
use gcp_host::engine::EngineError;
use gcp_host::frame::{GcpCommand, GcpFrame};
use gcp_host::fw::{
    FwStage, FwUpdater, chunk_len, num_chunks, parse_fw_end_ack, run_firmware_update,
    should_emit_progress,
};

fn image(len: usize) -> Vec<u8> {
    (0..len).map(|i| (i * 7 + 3) as u8).collect()
}

#[test]
fn test_chunk_partition_covers_image() {
    assert_eq!(num_chunks(5000, 2036), 3);
    assert_eq!(num_chunks(2036, 2036), 1);
    assert_eq!(num_chunks(2037, 2036), 2);
    assert_eq!(num_chunks(1, 2036), 1);
    let lens: Vec<u32> = (0..3).map(|i| chunk_len(5000, 2036, i)).collect();
    assert_eq!(lens, vec![2036, 2036, 928]);
    assert_eq!(lens.iter().sum::<u32>(), 5000);
}

#[test]
fn test_fw_start_frame_layout() {
    let fsm = FwUpdater::new(1024, 2036, 0x12345678);
    let start = fsm.start_frame();
    assert_eq!(start.msg_type, GcpCommand::FwUpdateStart);
    assert_eq!(start.parameters.len(), 12);
    assert_eq!(start.length, 16);
    assert_eq!(&start.parameters[0..4], &[0x00, 0x04, 0x00, 0x00]); // size 1024 LE
    assert_eq!(&start.parameters[4..8], &[0x78, 0x56, 0x34, 0x12]); // CRC-32 LE
    assert_eq!(&start.parameters[8..10], &[0xF4, 0x07]); // chunk 2036 LE
    assert_eq!(&start.parameters[10..12], &[0x00, 0x00]); // reserved
}

#[test]
fn test_data_frames_carry_ordered_offsets_and_chunks() {
    let img = image(5000);
    let crc = gcp_crc32(&img);
    let mut fsm = FwUpdater::new(5000, 2036, crc);
    fsm.on_start_response(true);
    assert_eq!(fsm.stage, FwStage::Transferring);

    let f0 = fsm.data_frame(&img);
    assert_eq!(f0.msg_type, GcpCommand::FwUpdateData);
    assert_eq!(f0.parameters, vec![0, 0, 0, 0]);
    assert_eq!(f0.data.len(), 2036);
    assert_eq!(f0.data[..], img[..2036]);
    fsm.on_chunk_ack();

    let f1 = fsm.data_frame(&img);
    assert_eq!(f1.parameters, vec![0xF4, 0x07, 0, 0]); // offset 2036 LE
    assert_eq!(f1.data[..], img[2036..4072]);
    fsm.on_chunk_ack();

    let f2 = fsm.data_frame(&img);
    assert_eq!(f2.parameters, vec![0xE8, 0x0F, 0, 0]); // offset 4072 LE
    assert_eq!(f2.data.len(), 928);
    assert_eq!(f2.data[..], img[4072..]);
    fsm.on_chunk_ack();

    assert!(fsm.all_chunks_sent());
    assert_eq!(fsm.bytes_acked, 5000);
    fsm.on_end_response(true);
    assert_eq!(fsm.stage, FwStage::Completed);
}

#[test]
fn test_update_5000_bytes_chunk_2036() {
    // Three chunks of 2036, 2036 and 928 bytes; cadence progress events
    // at chunk 1 (index 0) and chunk 3 (the final one); a matching FW_END
    // answer completes the update.
    let img = image(5000);
    let nacks = vec![0u8; 3];
    let report = run_firmware_update(&img, 2036, &nacks, true, true);
    assert_eq!(report.final_stage, FwStage::Completed);
    assert!(report.result.success);
    assert!(report.result.crc32_match);
    assert_eq!(report.result.total_chunks, 3);
    assert_eq!(report.result.total_bytes, 5000);
    assert_eq!(report.chunks_acked, 3);
    assert_eq!(report.data_frames_sent, 3);
    assert!(should_emit_progress(0, 3));
    assert!(!should_emit_progress(1, 3));
    assert!(should_emit_progress(2, 3));
    assert_eq!(report.progress_emits, 2);
    assert_eq!(report.result.message, "firmware update completed");
}

#[test]
fn test_crc_mismatch_on_fw_end_is_terminal_not_retried() {
    let img = image(5000);
    let nacks = vec![0u8; 3];
    let report = run_firmware_update(&img, 2036, &nacks, true, false);
    assert_eq!(report.final_stage, FwStage::Failed);
    assert!(!report.result.success);
    assert!(!report.result.crc32_match);
    // All three chunks went through exactly once: nothing was re-transferred.
    assert_eq!(report.chunks_acked, 3);
    assert_eq!(report.data_frames_sent, 3);
    assert_eq!(report.result.total_bytes, 5000);
}

#[test]
fn test_transient_nacks_within_budget_still_complete() {
    // Injected faults: two NACKs on the first chunk, one on the third,
    // each followed by an ACK. The update completes and every chunk
    // yields exactly one successful-chunk event.
    let img = image(5000);
    let nacks = vec![2u8, 0, 1];
    let report = run_firmware_update(&img, 2036, &nacks, true, true);
    assert_eq!(report.final_stage, FwStage::Completed);
    assert!(report.result.success);
    assert_eq!(report.chunks_acked, 3);
    assert_eq!(report.data_frames_sent, 6); // 3 + 2 + 1 retransmissions
    assert_eq!(report.result.total_bytes, 5000);
}

#[test]
fn test_chunk_that_exhausts_retries_fails_transfer() {
    let img = image(5000);
    let nacks = vec![0u8, 3, 0];
    let report = run_firmware_update(&img, 2036, &nacks, true, true);
    assert_eq!(report.final_stage, FwStage::Failed);
    assert!(!report.result.success);
    assert!(!report.result.crc32_match);
    assert_eq!(report.chunks_acked, 1);
    assert_eq!(report.result.message, "firmware transfer failed");
}

#[test]
fn test_rejected_start_stays_idle() {
    let img = image(100);
    let nacks = vec![0u8; 1];
    let report = run_firmware_update(&img, 2036, &nacks, false, true);
    assert_eq!(report.final_stage, FwStage::Idle);
    assert!(!report.result.success);
    assert_eq!(report.chunks_acked, 0);
    assert_eq!(report.data_frames_sent, 0);
}

#[test]
fn test_abort_mid_transfer_returns_to_idle() {
    // After chunk 2 of 10 the client aborts: the engine sends FW_ABORT,
    // transitions to Idle, and builds no further FW_DATA frames.
    let img = image(1000);
    let crc = gcp_crc32(&img);
    let mut fsm = FwUpdater::new(1000, 100, crc);
    assert_eq!(fsm.total_chunks, 10);
    fsm.on_start_response(true);
    let _ = fsm.data_frame(&img);
    fsm.on_chunk_ack();
    let _ = fsm.data_frame(&img);
    fsm.on_chunk_ack();
    assert_eq!(fsm.next_chunk, 2);

    let abort = fsm.abort_frame();
    assert_eq!(abort.msg_type, GcpCommand::FwUpdateAbort);
    fsm.on_abort();
    assert_eq!(fsm.stage, FwStage::Idle);
    assert_eq!(fsm.next_chunk, 2); // nothing further was sent
    assert_eq!(fsm.bytes_acked, 200);
}

#[test]
fn test_parse_fw_end_ack_flag() {
    let match_reply =
        GcpFrame::with_data(GcpCommand::Ack, Vec::new(), vec![0x03, 0x10, 0, 0, 0, 0, 1]);
    assert_eq!(parse_fw_end_ack(&match_reply), Ok(true));
    let mismatch_reply =
        GcpFrame::with_data(GcpCommand::Ack, Vec::new(), vec![0x03, 0x10, 0, 0, 0, 0, 0]);
    assert_eq!(parse_fw_end_ack(&mismatch_reply), Ok(false));
    let empty_reply = GcpFrame::with_data(GcpCommand::Ack, Vec::new(), Vec::new());
    assert_eq!(parse_fw_end_ack(&empty_reply), Err(EngineError::InvalidResponse));
}
