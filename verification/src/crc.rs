//! CRC primitives: CRC-16-CCITT over frame bodies and CRC-32 (Ethernet/zlib
//! parameters) over firmware images. Both are iterative, table-free, and
//! allocation-free.

use vstd::prelude::*;

verus! {

/// One shift-and-conditional-xor round of the CRC-16-CCITT bit loop
/// (polynomial 0x1021, no reflection).
pub open spec fn crc16_round(c: u16) -> u16 {
    if c & 0x8000 != 0 {
        (c << 1) ^ 0x1021
    } else {
        c << 1
    }
}

/// Folding one byte into a running CRC-16-CCITT value: xor into the high
/// byte, then eight rounds.
pub open spec fn crc16_byte(c: u16, b: u8) -> u16 {
    crc16_round(crc16_round(crc16_round(crc16_round(crc16_round(crc16_round(crc16_round(
        crc16_round(c ^ ((b as u16) << 8)),
    )))))))
}

/// CRC-16-CCITT of a byte sequence: initial value 0xFFFF, no final xor.
pub open spec fn crc16_spec(s: Seq<u8>) -> u16
    decreases s.len(),
{
    if s.len() == 0 {
        0xFFFF
    } else {
        crc16_byte(crc16_spec(s.drop_last()), s.last())
    }
}

fn crc16_round_exec(c: u16) -> (r: u16)
    ensures
        r == crc16_round(c),
{
    if c & 0x8000 != 0 {
        (c << 1) ^ 0x1021
    } else {
        c << 1
    }
}

/// CRC-16-CCITT with initial value 0xFFFF, polynomial 0x1021, no
/// reflection and no final xor, as used over `LENGTH ‖ MSG_TYPE ‖
/// PARAMS+DATA` of a frame.
pub fn gcp_crc16(data: &[u8]) -> (crc: u16)
    ensures
        crc == crc16_spec(data@),
{
    let mut crc: u16 = 0xFFFF;
    let mut i: usize = 0;
    while i < data.len()
        invariant
            0 <= i <= data@.len(),
            crc == crc16_spec(data@.subrange(0, i as int)),
        decreases data@.len() - i,
    {
        let mut c: u16 = crc ^ ((data[i] as u16) << 8);
        c = crc16_round_exec(c);
        c = crc16_round_exec(c);
        c = crc16_round_exec(c);
        c = crc16_round_exec(c);
        c = crc16_round_exec(c);
        c = crc16_round_exec(c);
        c = crc16_round_exec(c);
        c = crc16_round_exec(c);
        proof {
            assert(data@.subrange(0, i + 1 as int).drop_last() =~= data@.subrange(0, i as int));
            assert(data@.subrange(0, i + 1 as int).last() == data@[i as int]);
        }
        crc = c;
        i = i + 1;
    }
    proof {
        assert(data@.subrange(0, data@.len() as int) =~= data@);
    }
    crc
}

/// One shift-and-conditional-xor round of the reflected CRC-32 bit loop
/// (reversed polynomial 0xEDB88320).
pub open spec fn crc32_round(c: u32) -> u32 {
    if c & 1 != 0 {
        (c >> 1) ^ 0xEDB88320
    } else {
        c >> 1
    }
}

/// Folding one byte into a running CRC-32 value: xor into the low byte,
/// then eight rounds.
pub open spec fn crc32_byte(c: u32, b: u8) -> u32 {
    crc32_round(crc32_round(crc32_round(crc32_round(crc32_round(crc32_round(crc32_round(
        crc32_round(c ^ (b as u32)),
    )))))))
}

/// The CRC-32 accumulator after folding in every byte of `s`, starting
/// from 0xFFFFFFFF and before the final xor.
pub open spec fn crc32_accum(s: Seq<u8>) -> u32
    decreases s.len(),
{
    if s.len() == 0 {
        0xFFFFFFFF
    } else {
        crc32_byte(crc32_accum(s.drop_last()), s.last())
    }
}

/// Standard Ethernet/zlib CRC-32 of a byte sequence: initial value
/// 0xFFFFFFFF, reflected polynomial 0xEDB88320, final xor 0xFFFFFFFF.
pub open spec fn crc32_spec(s: Seq<u8>) -> u32 {
    crc32_accum(s) ^ 0xFFFFFFFF
}

fn crc32_round_exec(c: u32) -> (r: u32)
    ensures
        r == crc32_round(c),
{
    if c & 1 != 0 {
        (c >> 1) ^ 0xEDB88320
    } else {
        c >> 1
    }
}

/// CRC-32 over a whole firmware image, with the standard Ethernet/zlib
/// parameters. The CRC-32 of the empty sequence is 0.
pub fn gcp_crc32(data: &[u8]) -> (crc: u32)
    ensures
        crc == crc32_spec(data@),
        data@.len() == 0 ==> crc == 0,
{
    let mut crc: u32 = 0xFFFFFFFF;
    let mut i: usize = 0;
    while i < data.len()
        invariant
            0 <= i <= data@.len(),
            crc == crc32_accum(data@.subrange(0, i as int)),
        decreases data@.len() - i,
    {
        let mut c: u32 = crc ^ (data[i] as u32);
        c = crc32_round_exec(c);
        c = crc32_round_exec(c);
        c = crc32_round_exec(c);
        c = crc32_round_exec(c);
        c = crc32_round_exec(c);
        c = crc32_round_exec(c);
        c = crc32_round_exec(c);
        c = crc32_round_exec(c);
        proof {
            assert(data@.subrange(0, i + 1 as int).drop_last() =~= data@.subrange(0, i as int));
            assert(data@.subrange(0, i + 1 as int).last() == data@[i as int]);
        }
        crc = c;
        i = i + 1;
    }
    proof {
        assert(data@.subrange(0, data@.len() as int) =~= data@);
        assert(0xFFFFFFFFu32 ^ 0xFFFFFFFFu32 == 0u32) by (bit_vector);
    }
    crc ^ 0xFFFFFFFF
}

} // verus!
