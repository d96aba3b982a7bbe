//! Decoding of a 14-bit magnetic angle encoder read over I2C.

use vstd::prelude::*;

verus! {

/// The encoder's I2C address.
pub const ENCODER_ADDRESS: u8 = 0x06;

/// The register from which the angle is read, high byte first.
pub const ANG_L_REGISTER: u8 = 0x03;

/// Counts per full turn of the encoder.
pub const COUNTS_PER_TURN: u32 = 16384;

/// The raw angle held by the bytes read from the encoder: the eight bits of
/// `high` above the six upper bits of `low`.
pub open spec fn spec_angle_raw(high: u8, low: u8) -> int {
    high * 64 + low / 4
}

/// A raw angle in whole degrees, rounded down.
pub open spec fn spec_angle_deg(raw: u16) -> int {
    raw * 360 / 16384
}

/// The 14-bit raw angle held by the two bytes read from the encoder.
pub fn encoder_angle_raw(high: u8, low: u8) -> (r: u16)
    ensures
        r == spec_angle_raw(high, low),
        r < 16384,
        r / 64 == high,
        r % 64 == low / 4,
{
    let r: u16 = (((high as u16) << 6u16) | (((low >> 2u8) & 0b0011_1111u8) as u16))
        & 0b0011_1111_1111_1111u16;
    assert(((((high as u16) << 6u16) | (((low >> 2u8) & 0b0011_1111u8) as u16))
        & 0b0011_1111_1111_1111u16) == (high as u16) * 64 + (low as u16) / 4) by (bit_vector);
    r
}

/// A raw angle in whole degrees, rounded down.
pub fn encoder_angle_deg(raw: u16) -> (r: u32)
    ensures
        r == spec_angle_deg(raw),
        r * 16384 <= raw * 360 < (r + 1) * 16384,
{
    let r = (raw as u32) * 360 / COUNTS_PER_TURN;
    proof {
        law_angle_deg_rounds_down(raw);
    }
    r
}

/// The raw angle splits into the two bytes read: divided by 64 it gives
/// the high byte, and its remainder by 64 is the six upper bits of the low
/// byte. So a step of one in the high byte is a step of 64 counts.
pub proof fn law_angle_raw_splits_into_bytes(high: u8, low: u8)
    ensures
        spec_angle_raw(high, low) / 64 == high,
        spec_angle_raw(high, low) % 64 == low / 4,
        high < 255 ==> spec_angle_raw((high + 1) as u8, low) == spec_angle_raw(high, low) + 64,
        spec_angle_raw(0, low) == low / 4,
{
    let raw = spec_angle_raw(high, low);
    let q = low / 4;
    assert(0 <= q < 64);
    assert(raw == high * 64 + q);
    vstd::arithmetic::div_mod::lemma_fundamental_div_mod_converse(raw, 64, high as int, q as int);
}

/// Degrees are the raw count scaled by 360 per 16384 counts, rounded down:
/// the whole degrees times 16384 are at most raw * 360, and one degree more
/// exceeds it.
pub proof fn law_angle_deg_rounds_down(raw: u16)
    ensures
        spec_angle_deg(raw) * 16384 <= raw * 360 < (spec_angle_deg(raw) + 1) * 16384,
        0 <= spec_angle_deg(raw),
{
    let x = raw * 360;
    let d = spec_angle_deg(raw);
    vstd::arithmetic::div_mod::lemma_fundamental_div_mod(x as int, 16384);
    assert(0 <= x % 16384 < 16384);
    assert(d == x / 16384);
    assert(x == 16384 * d + x % 16384);
    assert(d * 16384 == 16384 * d) by (nonlinear_arith);
    assert((d + 1) * 16384 == 16384 * d + 16384) by (nonlinear_arith);
    assert(d >= 0) by (nonlinear_arith) requires x >= 0, d == x / 16384;
}

/// The angle decoded from any two bytes is less than a full turn.
pub proof fn law_angle_below_full_turn(high: u8, low: u8)
    ensures
        0 <= spec_angle_raw(high, low) < 16384,
        0 <= spec_angle_deg(spec_angle_raw(high, low) as u16) < 360,
{
    let raw = spec_angle_raw(high, low);
    assert(raw * 360 < 16384 * 360) by (nonlinear_arith)
        requires
            0 <= raw < 16384,
    ;
}

} // verus!
