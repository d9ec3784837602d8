//! Trimming parameters ("calibration data") of the BME280 and their decoding
//! from the three register blocks that hold them.
//!
//! Temperature and pressure parameters T1..T3, P1..P9 are 24 bytes at 0x88,
//! stored as little-endian pairs. H1 is one byte at 0xA1. H2..H6 are seven
//! bytes at 0xE1, where H4 and H5 are 12-bit signed values packed across
//! three bytes (H4 = byte3 << 4 | low nibble of byte4, H5 = byte5 << 4 |
//! high nibble of byte4).

use vstd::prelude::*;

verus! {

/// Number of bytes in the temperature/pressure parameter block.
pub const CALIB_TP_LEN: usize = 24;

/// Number of bytes in the H2..H6 parameter block.
pub const CALIB_H_LEN: usize = 7;

#[derive(Clone, Copy, Debug, PartialEq, Eq)]
pub struct CalibData {
    // Temperature
    pub dig_t1: u16,
    pub dig_t2: i16,
    pub dig_t3: i16,
    // Pressure
    pub dig_p1: u16,
    pub dig_p2: i16,
    pub dig_p3: i16,
    pub dig_p4: i16,
    pub dig_p5: i16,
    pub dig_p6: i16,
    pub dig_p7: i16,
    pub dig_p8: i16,
    pub dig_p9: i16,
    // Humidity
    pub dig_h1: u8,
    pub dig_h2: i16,
    pub dig_h3: u8,
    pub dig_h4: i16,
    pub dig_h5: i16,
    pub dig_h6: i8,
}

/// Value of the unsigned little-endian pair `lo, hi`.
pub open spec fn le_u16(lo: u8, hi: u8) -> int {
    lo + 256 * hi
}

/// Value of the two's-complement little-endian pair `lo, hi`.
pub open spec fn le_i16(lo: u8, hi: u8) -> int {
    if hi < 128 {
        lo + 256 * hi
    } else {
        lo + 256 * hi - 65536
    }
}

/// Value of the byte `b` read as a two's-complement `i8`.
pub open spec fn signed_byte(b: u8) -> int {
    if b < 128 {
        b as int
    } else {
        b - 256
    }
}

/// Value of the 12-bit two's-complement pattern `bits` (0 <= bits < 4096).
pub open spec fn sign_extend_12(bits: int) -> int {
    if bits < 2048 {
        bits
    } else {
        bits - 4096
    }
}

impl CalibData {
    /// H4 and H5 are 12-bit signed quantities, as every decoding of the
    /// registers yields.
    pub open spec fn wf(&self) -> bool {
        &&& -2048 <= self.dig_h4 <= 2047
        &&& -2048 <= self.dig_h5 <= 2047
    }

    /// Decodes the trimming parameters from the contents of the three
    /// calibration register blocks.
    pub fn from_registers(tp: &[u8; 24], h1: u8, h: &[u8; 7]) -> (c: CalibData)
        ensures
            c == decode(tp@, h1, h@),
            c.wf(),
    {
        let dig_t1 = u16_from_le(tp[0], tp[1]);
        let dig_t2 = i16_from_le(tp[2], tp[3]);
        let dig_t3 = i16_from_le(tp[4], tp[5]);
        let dig_p1 = u16_from_le(tp[6], tp[7]);
        let dig_p2 = i16_from_le(tp[8], tp[9]);
        let dig_p3 = i16_from_le(tp[10], tp[11]);
        let dig_p4 = i16_from_le(tp[12], tp[13]);
        let dig_p5 = i16_from_le(tp[14], tp[15]);
        let dig_p6 = i16_from_le(tp[16], tp[17]);
        let dig_p7 = i16_from_le(tp[18], tp[19]);
        let dig_p8 = i16_from_le(tp[20], tp[21]);
        let dig_p9 = i16_from_le(tp[22], tp[23]);

        let dig_h2 = i16_from_le(h[0], h[1]);
        let dig_h3 = h[2];
        let b3 = h[3];
        let b4 = h[4];
        let b5 = h[5];
        let b6 = h[6];
        // H4 is bits [11:4] in byte 3 and bits [3:0] in the low nibble of byte 4
        let dig_h4 = ((b3 as i8 as i16) << 4) | ((b4 & 0x0f) as i16);
        // H5 is bits [11:4] in byte 5 and bits [3:0] in the high nibble of byte 4
        let dig_h5 = ((b5 as i8 as i16) << 4) | ((b4 >> 4) as i16);
        let dig_h6 = b6 as i8;
        proof {
            lemma_packed_12(b3, b4, b5, b6);
        }
        CalibData {
            dig_t1,
            dig_t2,
            dig_t3,
            dig_p1,
            dig_p2,
            dig_p3,
            dig_p4,
            dig_p5,
            dig_p6,
            dig_p7,
            dig_p8,
            dig_p9,
            dig_h1: h1,
            dig_h2,
            dig_h3,
            dig_h4,
            dig_h5,
            dig_h6,
        }
    }
}

/// The parameters that the register contents `tp` (24 bytes at 0x88), `h1`
/// (0xA1) and `h` (7 bytes at 0xE1) encode.
pub open spec fn decode(tp: Seq<u8>, h1: u8, h: Seq<u8>) -> CalibData {
    CalibData {
        dig_t1: le_u16(tp[0], tp[1]) as u16,
        dig_t2: le_i16(tp[2], tp[3]) as i16,
        dig_t3: le_i16(tp[4], tp[5]) as i16,
        dig_p1: le_u16(tp[6], tp[7]) as u16,
        dig_p2: le_i16(tp[8], tp[9]) as i16,
        dig_p3: le_i16(tp[10], tp[11]) as i16,
        dig_p4: le_i16(tp[12], tp[13]) as i16,
        dig_p5: le_i16(tp[14], tp[15]) as i16,
        dig_p6: le_i16(tp[16], tp[17]) as i16,
        dig_p7: le_i16(tp[18], tp[19]) as i16,
        dig_p8: le_i16(tp[20], tp[21]) as i16,
        dig_p9: le_i16(tp[22], tp[23]) as i16,
        dig_h1: h1,
        dig_h2: le_i16(h[0], h[1]) as i16,
        dig_h3: h[2],
        dig_h4: sign_extend_12(h[3] * 16 + h[4] % 16) as i16,
        dig_h5: sign_extend_12(h[5] * 16 + h[4] / 16) as i16,
        dig_h6: signed_byte(h[6]) as i8,
    }
}

/// The bit packing of H4, H5 and H6 gives their sign-extended values.
proof fn lemma_packed_12(b3: u8, b4: u8, b5: u8, b6: u8)
    ensures
        ((b3 as i8 as i16) << 4) | ((b4 & 0x0f) as i16) == sign_extend_12(b3 * 16 + b4 % 16),
        ((b5 as i8 as i16) << 4) | ((b4 >> 4) as i16) == sign_extend_12(b5 * 16 + b4 / 16),
        b6 as i8 == signed_byte(b6),
{
    assert(((b3 as i8 as i16) << 4) | ((b4 & 0x0f) as i16) == (if b3 * 16 + b4 % 16 < 2048 {
        b3 * 16 + b4 % 16
    } else {
        b3 * 16 + b4 % 16 - 4096
    })) by (bit_vector);
    assert(((b5 as i8 as i16) << 4) | ((b4 >> 4) as i16) == (if b5 * 16 + b4 / 16 < 2048 {
        b5 * 16 + b4 / 16
    } else {
        b5 * 16 + b4 / 16 - 4096
    })) by (bit_vector);
    assert(b6 as i8 == (if b6 < 128 {
        b6 as int
    } else {
        b6 - 256
    })) by (bit_vector);
}

/// The unsigned integer whose little-endian bytes are `lo, hi`.
fn u16_from_le(lo: u8, hi: u8) -> (r: u16)
    ensures
        r == le_u16(lo, hi),
{
    proof {
        assert((lo as u16) | ((hi as u16) << 8u16) == lo + 256 * hi) by (bit_vector);
    }
    (lo as u16) | ((hi as u16) << 8u16)
}

/// The two's-complement integer whose little-endian bytes are `lo, hi`.
fn i16_from_le(lo: u8, hi: u8) -> (r: i16)
    ensures
        r == le_i16(lo, hi),
{
    proof {
        assert(((lo as u16) | ((hi as u16) << 8u16)) as i16 == (if hi < 128 {
            lo + 256 * hi
        } else {
            lo + 256 * hi - 65536
        })) by (bit_vector);
    }
    ((lo as u16) | ((hi as u16) << 8u16)) as i16
}

/// Every decoding of the calibration registers gives well-formed parameters:
/// H4 and H5 are 12-bit signed values.
pub proof fn lemma_decode_wf(tp: Seq<u8>, h1: u8, h: Seq<u8>)
    requires
        tp.len() == CALIB_TP_LEN,
        h.len() == CALIB_H_LEN,
    ensures
        decode(tp, h1, h).wf(),
{
}

/// What each parameter is, byte by byte: T1 and P1 are the unsigned
/// little-endian pairs; the other pairs are two's complement, i.e. equal to
/// their pair modulo 2^16 and negative exactly when the high byte's top bit is
/// set; H4 and H5 are 12-bit two's complement with their bits spread as the
/// datasheet shows; H6 is the byte read as signed.
pub proof fn lemma_decode_bytes(tp: Seq<u8>, h1: u8, h: Seq<u8>)
    requires
        tp.len() == CALIB_TP_LEN,
        h.len() == CALIB_H_LEN,
    ensures
        ({
            let c = decode(tp, h1, h);
            &&& c.dig_t1 == tp[0] + 256 * tp[1]
            &&& c.dig_p1 == tp[6] + 256 * tp[7]
            &&& (c.dig_t2 as int) % 65536 == tp[2] + 256 * tp[3]
            &&& (c.dig_t2 < 0 <==> tp[3] >= 128)
            &&& (c.dig_t3 as int) % 65536 == tp[4] + 256 * tp[5]
            &&& (c.dig_t3 < 0 <==> tp[5] >= 128)
            &&& (c.dig_p2 as int) % 65536 == tp[8] + 256 * tp[9]
            &&& (c.dig_p2 < 0 <==> tp[9] >= 128)
            &&& (c.dig_p3 as int) % 65536 == tp[10] + 256 * tp[11]
            &&& (c.dig_p3 < 0 <==> tp[11] >= 128)
            &&& (c.dig_p4 as int) % 65536 == tp[12] + 256 * tp[13]
            &&& (c.dig_p4 < 0 <==> tp[13] >= 128)
            &&& (c.dig_p5 as int) % 65536 == tp[14] + 256 * tp[15]
            &&& (c.dig_p5 < 0 <==> tp[15] >= 128)
            &&& (c.dig_p6 as int) % 65536 == tp[16] + 256 * tp[17]
            &&& (c.dig_p6 < 0 <==> tp[17] >= 128)
            &&& (c.dig_p7 as int) % 65536 == tp[18] + 256 * tp[19]
            &&& (c.dig_p7 < 0 <==> tp[19] >= 128)
            &&& (c.dig_p8 as int) % 65536 == tp[20] + 256 * tp[21]
            &&& (c.dig_p8 < 0 <==> tp[21] >= 128)
            &&& (c.dig_p9 as int) % 65536 == tp[22] + 256 * tp[23]
            &&& (c.dig_p9 < 0 <==> tp[23] >= 128)
            &&& c.dig_h1 == h1
            &&& (c.dig_h2 as int) % 65536 == h[0] + 256 * h[1]
            &&& (c.dig_h2 < 0 <==> h[1] >= 128)
            &&& c.dig_h3 == h[2]
            &&& (c.dig_h4 as int) % 4096 == h[3] * 16 + h[4] % 16
            &&& (c.dig_h4 < 0 <==> h[3] >= 128)
            &&& (c.dig_h5 as int) % 4096 == h[5] * 16 + h[4] / 16
            &&& (c.dig_h5 < 0 <==> h[5] >= 128)
            &&& (c.dig_h6 as int) % 256 == h[6]
            &&& (c.dig_h6 < 0 <==> h[6] >= 128)
        }),
{
}

} // verus!
