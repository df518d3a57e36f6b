//! Byte- and word-level helpers shared by the CPU, bus and PPU: msb/lsb
//! (de)composition of 16-bit values, wrapping arithmetic, half-carry
//! predicates and masked bit updates.

use vstd::prelude::*;

verus! {

/// Most significant byte of a 16-bit value.
pub open spec fn spec_msb(val: u16) -> u8 {
    (val / 256) as u8
}

/// Least significant byte of a 16-bit value.
pub open spec fn spec_lsb(val: u16) -> u8 {
    (val % 256) as u8
}

/// The 16-bit value formed by an msb/lsb pair.
pub open spec fn spec_u16(msb: u8, lsb: u8) -> u16 {
    (msb * 256 + lsb) as u16
}

/// 16-bit addition modulo 0x10000.
pub open spec fn wrap_add16(a: u16, b: u16) -> u16 {
    ((a + b) % 0x10000) as u16
}

/// 16-bit subtraction modulo 0x10000.
pub open spec fn wrap_sub16(a: u16, b: u16) -> u16 {
    ((a + 0x10000 - b) % 0x10000) as u16
}

/// 8-bit addition modulo 0x100.
pub open spec fn wrap_add8(a: u8, b: u8) -> u8 {
    ((a + b) % 0x100) as u8
}

/// 8-bit subtraction modulo 0x100.
pub open spec fn wrap_sub8(a: u8, b: u8) -> u8 {
    ((a + 0x100 - b) % 0x100) as u8
}

/// The signed value represented by a byte in two's complement.
pub open spec fn sext8(x: u8) -> int {
    if x < 128 {
        x as int
    } else {
        x - 256
    }
}

/// 16-bit addition of a sign-extended 8-bit offset, modulo 0x10000.
pub open spec fn wrap_add_signed16(a: u16, off: u8) -> u16 {
    if off < 128 {
        wrap_add16(a, off as u16)
    } else {
        wrap_sub16(a, (256 - off) as u16)
    }
}

/// Converts two u8s into a u16; `msb` is the most significant byte of the
/// result and `lsb` the least significant one.
pub fn u8_to_u16(msb: u8, lsb: u8) -> (r: u16)
    ensures
        r == spec_u16(msb, lsb),
        spec_msb(r) == msb,
        spec_lsb(r) == lsb,
{
    let r: u16 = ((msb as u16) << 8) | (lsb as u16);
    proof {
        lemma_byte_compose(msb as u16, lsb as u16);
    }
    r
}

/// Splits a u16 into (most significant byte, least significant byte).
pub fn u16_to_u8(val: u16) -> (r: (u8, u8))
    ensures
        r.0 == spec_msb(val),
        r.1 == spec_lsb(val),
        spec_u16(r.0, r.1) == val,
{
    let msb = (val >> 8) as u8;
    let lsb = (val & 0xFF) as u8;
    proof {
        lemma_byte_split(val);
    }
    (msb, lsb)
}

proof fn lemma_byte_compose(m: u16, l: u16)
    requires
        m < 256,
        l < 256,
    ensures
        ((m << 8) | l) == m * 256 + l,
{
    assert((m < 256 && l < 256) ==> ((m << 8) | l) == m * 256 + l) by (bit_vector);
}

proof fn lemma_byte_split(val: u16)
    ensures
        (val >> 8) == val / 256,
        (val & 0xFF) == val % 256,
        val / 256 * 256 + val % 256 == val,
{
    assert((val >> 8) == val / 256) by (bit_vector);
    assert((val & 0xFF) == val % 256) by (bit_vector);
    assert(val / 256 * 256 + val % 256 == val) by (nonlinear_arith);
}

/// Wrapping 16-bit addition, stated against `wrap_add16`.
pub fn add16(a: u16, b: u16) -> (r: u16)
    ensures
        r == wrap_add16(a, b),
{
    ((a as u32 + b as u32) % 0x10000) as u16
}

/// Wrapping 16-bit subtraction, stated against `wrap_sub16`.
pub fn sub16(a: u16, b: u16) -> (r: u16)
    ensures
        r == wrap_sub16(a, b),
{
    ((a as u32 + 0x10000 - b as u32) % 0x10000) as u16
}

/// Wrapping 8-bit addition, stated against `wrap_add8`.
pub fn add8(a: u8, b: u8) -> (r: u8)
    ensures
        r == wrap_add8(a, b),
{
    ((a as u16 + b as u16) % 0x100) as u8
}

/// Wrapping 8-bit subtraction, stated against `wrap_sub8`.
pub fn sub8(a: u8, b: u8) -> (r: u8)
    ensures
        r == wrap_sub8(a, b),
{
    ((a as u16 + 0x100 - b as u16) % 0x100) as u8
}

/// Adds a sign-extended 8-bit offset to a 16-bit value, wrapping.
pub fn add_signed16(a: u16, off: u8) -> (r: u16)
    ensures
        r == wrap_add_signed16(a, off),
{
    if off < 128 {
        add16(a, off as u16)
    } else {
        sub16(a, 256 - off as u16)
    }
}

/// Whether adding `a` and `b` carries out of bit 11, the half-carry rule for
/// `ADD HL, r16`.
pub fn half_carried_add16(a: u16, b: u16) -> (r: bool)
    ensures
        r == ((a & 0x0FFF) + (b & 0x0FFF) > 0x0FFF),
{
    let al = a & 0x0FFF;
    let bl = b & 0x0FFF;
    proof {
        assert(a & 0x0FFF < 0x1000 && b & 0x0FFF < 0x1000) by (bit_vector);
    }
    al + bl > 0x0FFF
}

/// Whether adding `a` and `b` carries out of bit 3, the 8-bit half-carry rule.
pub fn half_carried_add8(a: u8, b: u8) -> (r: bool)
    ensures
        r == ((a & 0xF) + (b & 0xF) > 0xF),
{
    let al = a & 0xF;
    let bl = b & 0xF;
    proof {
        assert(a & 0xF < 0x10 && b & 0xF < 0x10) by (bit_vector);
    }
    al as u16 + bl as u16 > 0xF
}

/// Whether subtracting `b` from `a` borrows from bit 4, the 8-bit half-carry
/// rule for subtraction.
pub fn half_carried_sub8(a: u8, b: u8) -> (r: bool)
    ensures
        r == ((a & 0xF) < (b & 0xF)),
{
    (a & 0xF) < (b & 0xF)
}

/// Isolates bit `bit` of `x`; the result is nonzero exactly when the bit is
/// set.
pub fn bit(x: u8, b: u8) -> (r: u8)
    requires
        b < 8,
    ensures
        r == x & (1u8 << b),
        (r == 0) <==> ((x >> b) & 1 == 0),
{
    proof {
        assert(b < 8 ==> ((x & (1u8 << b) == 0) <==> ((x >> b) & 1 == 0))) by (bit_vector);
    }
    x & (1u8 << b)
}

/// Replaces the bits of `original` selected by `mask` with the corresponding
/// bits of `new`.
pub fn set_bits(original: u8, new: u8, mask: u8) -> (r: u8)
    ensures
        r == (original & !mask) | (new & mask),
{
    (original & !mask) | (new & mask)
}

/// The low nibble of the constant one, as the INC/DEC half-carry arguments
/// see it.
pub proof fn lemma_low_nibble_one()
    ensures
        1u8 & 0xF == 1,
{
    assert(1u8 & 0xF == 1) by (bit_vector);
}

/// A single extracted bit is zero or one.
pub proof fn lemma_bit_below_two(x: u8, b: u8)
    requires
        b < 8,
    ensures
        (x >> b) & 1 < 2,
{
    assert(b < 8 ==> (x >> b) & 1 < 2) by (bit_vector);
}

/// The half-carry predicates characterised arithmetically: the additive form
/// holds exactly when the low nibbles sum past 0xF and is commutative; the
/// subtractive form holds exactly when the low nibble of `a` is smaller than
/// that of `b`, and is antisymmetric wherever the low nibbles differ.
pub proof fn lemma_half_carry_laws(a: u8, b: u8)
    ensures
        ((a & 0xF) + (b & 0xF) > 0xF) <==> ((b & 0xF) + (a & 0xF) > 0xF),
        ((a & 0xF) < (b & 0xF)) ==> !((b & 0xF) < (a & 0xF)),
        (a & 0xF) != (b & 0xF) ==> (((a & 0xF) < (b & 0xF)) <==> !((b & 0xF) < (a & 0xF))),
{
}

} // verus!
