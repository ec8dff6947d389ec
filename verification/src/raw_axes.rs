use vstd::prelude::*;

verus! {

/// One raw three-axis sample of the LSM303AGR magnetometer, as read register
/// by register from `OUTX_L_REG_M` to `OUTZ_H_REG_M`:
/// each axis is a signed 16-bit number.
#[derive(Clone, Copy, Debug, PartialEq, Eq, Structural)]
pub struct RawAxes {
    pub x: i16,
    pub y: i16,
    pub z: i16,
}

/// The unsigned 16-bit word made of a low and a high register byte.
pub open spec fn word_of(lo: u8, hi: u8) -> int {
    lo + 256 * hi
}

/// A 16-bit word read as a two's complement signed number.
pub open spec fn as_signed(w: int) -> int {
    if w >= 32768 {
        w - 65536
    } else {
        w
    }
}

/// The value of an axis whose output registers hold `lo` (`OUT*_L_REG_M`)
/// and `hi` (`OUT*_H_REG_M`).
pub open spec fn axis_value(lo: u8, hi: u8) -> int {
    as_signed(word_of(lo, hi))
}

/// The low register byte of a signed 16-bit axis value.
pub open spec fn low_byte(v: i16) -> u8 {
    ((if v < 0 { v + 65536 } else { v as int }) % 256) as u8
}

/// The high register byte of a signed 16-bit axis value.
pub open spec fn high_byte(v: i16) -> u8 {
    ((if v < 0 { v + 65536 } else { v as int }) / 256) as u8
}

/// Combines the low and high output register bytes of one axis into its
/// signed value.
pub fn decode_axis(lo: u8, hi: u8) -> (v: i16)
    ensures
        v == axis_value(lo, hi),
{
    let l = lo as u16;
    let h = hi as u16;
    assert(h << 8u16 == h * 256) by (bit_vector)
        requires
            h <= 255,
    ;
    let w: u16 = l + (h << 8u16);
    assert((w as i16) == (if w >= 32768 { w - 65536 } else { w as int })) by (bit_vector);
    w as i16
}

/// Decodes the six output registers of the magnetometer, read in one burst
/// from `OUTX_L_REG_M`: `OUTX_L, OUTX_H, OUTY_L, OUTY_H, OUTZ_L, OUTZ_H`.
pub fn decode_axes(buffer: &[u8; 6]) -> (axes: RawAxes)
    ensures
        axes.x == axis_value(buffer@[0], buffer@[1]),
        axes.y == axis_value(buffer@[2], buffer@[3]),
        axes.z == axis_value(buffer@[4], buffer@[5]),
{
    RawAxes {
        x: decode_axis(buffer[0], buffer[1]),
        y: decode_axis(buffer[2], buffer[3]),
        z: decode_axis(buffer[4], buffer[5]),
    }
}

/// Decoding gives back every signed 16-bit value from its two register
/// bytes, and every pair of bytes decodes to a value within `i16`.
pub proof fn lemma_decode_round_trip(v: i16, lo: u8, hi: u8)
    ensures
        axis_value(low_byte(v), high_byte(v)) == v,
        i16::MIN <= axis_value(lo, hi) <= i16::MAX,
{
}

} // verus!
