//! Host-side implementation of the Glitchi Communication Protocol (GCP):
//! a framed, request/response, CRC-protected byte protocol spoken over a
//! serial link between a host application and an embedded device.
//!
//! The crate covers the frame codec, the CRC primitives, the byte-stream
//! framer, the request-engine decision logic, the firmware-update state
//! machine, and the connection-pool bookkeeping. Serial I/O itself lives
//! outside the library; callers hand bytes and events in and take frames
//! and decisions out.

use vstd::prelude::*;

pub mod crc;
pub mod frame;
pub mod reader;
pub mod records;
pub mod engine;
pub mod fw;
pub mod pool;

verus! {

/// UART line speed used for GCP links.
pub const GCP_UART_BAUD: u32 = 115200;

/// Per-read timeout, in milliseconds.
pub const GCP_TIMEOUT_MS: u64 = 1000;

/// Maximum number of attempts for one request (first try included).
pub const GCP_MAX_RETRIES: u32 = 3;

/// Recommended number of firmware-image bytes per FW_DATA frame.
pub const GCP_RECOMMENDED_CHUNK_SIZE: usize = 2036;

} // verus!
