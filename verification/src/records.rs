//! The typed records carried in ACK response payloads — hardware identity,
//! runtime status, diagnostics counters and firmware version — and the
//! parsers that read them from little-endian response bytes.

use vstd::prelude::*;
use crate::frame::le16;

verus! {

/// Hardware identity returned for HELLO (8 response bytes).
#[derive(Clone, Copy, Debug, PartialEq, Eq, Structural)]
pub struct GcpHardwareData {
    pub manufacture_date: u16,
    pub serial_number: u16,
    pub board_type: u8,
    pub hw_revision: u8,
    pub chip_model: u8,
    pub features: u8,
}

/// Runtime status returned for GET_STATUS (15 response bytes).
/// `rtc_time` is `[year, month, day, hour, min, sec, weekday, hundredths]`.
#[derive(Clone, Copy, Debug, PartialEq, Eq)]
pub struct GcpStatusData {
    pub battery_level: u8,
    pub system_state: u8,
    pub led_color: u16,
    pub led_brightness: u8,
    pub current_game_idx: u16,
    pub rtc_time: [u8; 8],
}

/// Diagnostics counters returned for GET_DIAG (32 response bytes).
#[derive(Clone, Copy, Debug, PartialEq, Eq, Structural)]
pub struct GcpDiagnosticsData {
    pub step_counter: u32,
    pub full_power_time: u32,
    pub silent_time: u32,
    pub charging_time: u32,
    pub btn_counter_l: u32,
    pub btn_counter_r: u32,
    pub fram_read: u32,
    pub fram_write: u32,
}

/// Firmware version returned for GET_FW_VER (6 response bytes); the
/// suffix is three ASCII bytes.
#[derive(Clone, Copy, Debug, PartialEq, Eq)]
pub struct GcpFwVersionData {
    pub fw_version_major: u8,
    pub fw_version_minor: u8,
    pub fw_version_patch: u8,
    pub fw_version_suffix: [u8; 3],
}

/// `r` is the hardware record read little-endian from the first 8 bytes
/// of `b`.
pub open spec fn hardware_matches(r: GcpHardwareData, b: Seq<u8>) -> bool {
    &&& r.manufacture_date == le16(b[0], b[1])
    &&& r.serial_number == le16(b[2], b[3])
    &&& r.board_type == b[4]
    &&& r.hw_revision == b[5]
    &&& r.chip_model == b[6]
    &&& r.features == b[7]
}

/// `r` is the status record read little-endian from the first 15 bytes
/// of `b`.
pub open spec fn status_matches(r: GcpStatusData, b: Seq<u8>) -> bool {
    &&& r.battery_level == b[0]
    &&& r.system_state == b[1]
    &&& r.led_color == le16(b[2], b[3])
    &&& r.led_brightness == b[4]
    &&& r.current_game_idx == le16(b[5], b[6])
    &&& r.rtc_time@ == b.subrange(7, 15)
}

/// `r` is the version record read from the first 6 bytes of `b`.
pub open spec fn fw_version_matches(r: GcpFwVersionData, b: Seq<u8>) -> bool {
    &&& r.fw_version_major == b[0]
    &&& r.fw_version_minor == b[1]
    &&& r.fw_version_patch == b[2]
    &&& r.fw_version_suffix@ == b.subrange(3, 6)
}

/// Parse an 8-byte HELLO response into the hardware record.
pub fn parse_hardware_data(data: &[u8]) -> (r: GcpHardwareData)
    requires
        data@.len() >= 8,
    ensures
        hardware_matches(r, data@),
{
    GcpHardwareData {
        manufacture_date: data[0] as u16 + (data[1] as u16) * 256,
        serial_number: data[2] as u16 + (data[3] as u16) * 256,
        board_type: data[4],
        hw_revision: data[5],
        chip_model: data[6],
        features: data[7],
    }
}

/// Parse a 15-byte GET_STATUS response into the status record.
pub fn parse_status_data(data: &[u8]) -> (r: GcpStatusData)
    requires
        data@.len() >= 15,
    ensures
        status_matches(r, data@),
{
    let r = GcpStatusData {
        battery_level: data[0],
        system_state: data[1],
        led_color: data[2] as u16 + (data[3] as u16) * 256,
        led_brightness: data[4],
        current_game_idx: data[5] as u16 + (data[6] as u16) * 256,
        rtc_time: [
            data[7],
            data[8],
            data[9],
            data[10],
            data[11],
            data[12],
            data[13],
            data[14],
        ],
    };
    assert(r.rtc_time@ =~= data@.subrange(7, 15));
    r
}

/// Parse a 6-byte GET_FW_VER response into the version record.
pub fn parse_fw_version_data(data: &[u8]) -> (r: GcpFwVersionData)
    requires
        data@.len() >= 6,
    ensures
        fw_version_matches(r, data@),
{
    let r = GcpFwVersionData {
        fw_version_major: data[0],
        fw_version_minor: data[1],
        fw_version_patch: data[2],
        fw_version_suffix: [data[3], data[4], data[5]],
    };
    assert(r.fw_version_suffix@ =~= data@.subrange(3, 6));
    r
}

} // verus!
