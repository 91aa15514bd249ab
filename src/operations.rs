use vstd::prelude::*;

use crate::registers::Flags;

verus! {

/// The mask of the lower half of an `nbits`-wide operand.
pub open spec fn half_mask(nbits: usize) -> usize {
    if nbits == 8 {
        0x0F
    } else {
        0xFF
    }
}

/// What adding `b` to `a` gives on an 8-bit operand: the wrapped sum and the flags.
pub open spec fn spec_add_u8(a: u8, b: u8) -> (u8, Flags) {
    let sum = ((a + b) % 0x100) as u8;
    (sum, Flags::spec_from_add(sum as int, a + b > 0xFF, (a & 0x0F) + (b & 0x0F) > 0x0F))
}

/// What adding `b` to `a` gives on a 16-bit operand: the wrapped sum and the flags.
pub open spec fn spec_add_u16(a: u16, b: u16) -> (u16, Flags) {
    let sum = ((a + b) % 0x10000) as u16;
    (sum, Flags::spec_from_add(sum as int, a + b > 0xFFFF, (a & 0xFF) + (b & 0xFF) > 0xFF))
}

/// What subtracting `b` from `a` gives on an 8-bit operand: the wrapped difference and the flags.
pub open spec fn spec_sub_u8(a: u8, b: u8) -> (u8, Flags) {
    let diff = ((a - b) % 0x100) as u8;
    (diff, Flags::spec_from_sub(diff as int, a < b, (a & 0x0F) < (b & 0x0F)))
}

/// What subtracting `b` and an incoming carry from `a` gives on an 8-bit operand.
///
/// The difference is taken in two wrapping steps; the borrow is that of either step, and the
/// half borrow is one combined test on the low nibbles.
pub open spec fn spec_sbc_u8(a: u8, b: u8, carry: u8) -> (u8, Flags) {
    let first = ((a - b) % 0x100) as u8;
    let diff = ((first - carry) % 0x100) as u8;
    (
        diff,
        Flags::spec_from_sub(
            diff as int,
            a < b || first < carry,
            (a & 0x0F) < (b & 0x0F) + carry,
        ),
    )
}

/// The flags of comparing `a` with `b`: they describe `a - b` without keeping it.
pub open spec fn spec_cp_u8(a: u8, b: u8) -> Flags {
    Flags { z: a == b, n: true, h: (a & 0x0F) < (b & 0x0F), c: a < b }
}

/// Adds two u8 values and returns the sum and the flags.
/// Possible Flag values:
/// - Z: When the sum is equal to 0.
/// - N: false
/// - H: Set if overflow from bit 3.
/// - C: Set if overflow from bit 7.
pub fn add_u8(a: u8, b: u8) -> (r: (u8, Flags))
    ensures
        r == spec_add_u8(a, b),
{
    let sum = a.wrapping_add(b);
    let carry = (a as u16) + (b as u16) > 0xFF;
    let nbits: usize = 8;
    let half_carry = add_has_half_carry(a as usize, b as usize, nbits);
    assert((a as usize) & 0x0F == a & 0x0F) by (bit_vector);
    assert((b as usize) & 0x0F == b & 0x0F) by (bit_vector);
    (sum, Flags::from_add(sum as usize, carry, half_carry))
}

/// Adds two u16 values and returns the sum and the flags.
/// Possible Flag values:
/// - Z: When the sum is equal to 0.
/// - N: false
/// - H: Set if overflow from bit 7.
/// - C: Set if overflow from bit 15.
pub fn add_u16(a: u16, b: u16) -> (r: (u16, Flags))
    ensures
        r == spec_add_u16(a, b),
{
    let sum = a.wrapping_add(b);
    let carry = (a as u32) + (b as u32) > 0xFFFF;
    let nbits: usize = 16;
    let half_carry = add_has_half_carry(a as usize, b as usize, nbits);
    assert((a as usize) & 0xFF == a & 0xFF) by (bit_vector);
    assert((b as usize) & 0xFF == b & 0xFF) by (bit_vector);
    (sum, Flags::from_add(sum as usize, carry, half_carry))
}

/// Whether adding the lower halves of two `nbits`-wide operands carries out of the lower half.
fn add_has_half_carry(a: usize, b: usize, nbits: usize) -> (r: bool)
    requires
        nbits == 8 || nbits == 16,
    ensures
        r == ((a & half_mask(nbits)) + (b & half_mask(nbits)) > half_mask(nbits)),
{
    let half_bit: usize = 1 << (nbits / 2);
    assert(half_bit == half_mask(nbits) + 1) by (bit_vector)
        requires
            nbits == 8 || nbits == 16,
            half_bit == 1usize << (nbits / 2),
    ;
    let half_carry_mask: usize = half_bit - 1;
    assert((a & half_carry_mask) <= half_carry_mask && (b & half_carry_mask) <= half_carry_mask)
        by (bit_vector);
    ((a & half_carry_mask) + (b & half_carry_mask)) > half_carry_mask
}

/// Subtracts b from a and returns the result and the flags.
/// Possible Flag values:
/// - Z: When the result is equal to 0.
/// - N: true (always set for subtraction)
/// - H: Set if borrow from bit 4.
/// - C: Set if borrow (a < b).
pub fn sub_u8(a: u8, b: u8) -> (r: (u8, Flags))
    ensures
        r == spec_sub_u8(a, b),
{
    let result = a.wrapping_sub(b);
    let borrow = a < b;
    let nbits: usize = 8;
    let half_borrow = sub_has_half_borrow(a as usize, b as usize, nbits);
    assert((a as usize) & 0x0F == a & 0x0F) by (bit_vector);
    assert((b as usize) & 0x0F == b & 0x0F) by (bit_vector);
    (result, Flags::from_sub(result as usize, borrow, half_borrow))
}

/// Subtracts b and carry from a and returns the result and the flags.
/// Performs: a - b - carry
/// Possible Flag values:
/// - Z: When the result is equal to 0.
/// - N: true (always set for subtraction)
/// - H: Set if borrow from bit 4.
/// - C: Set if borrow occurs.
pub fn sbc_u8(a: u8, b: u8, carry: u8) -> (r: (u8, Flags))
    ensures
        r == spec_sbc_u8(a, b, carry),
{
    let temp_result = a.wrapping_sub(b);
    let borrow1 = a < b;
    let final_result = temp_result.wrapping_sub(carry);
    let borrow2 = temp_result < carry;
    let total_borrow = borrow1 || borrow2;

    // The half borrow looks at the whole operation at once: the low nibble of `a` against the
    // low nibble of `b` plus the incoming carry.
    assert((b & 0x0F) <= 0x0F) by (bit_vector);
    let half_borrow = ((a & 0x0F) as u16) < ((b & 0x0F) as u16) + (carry as u16);

    (final_result, Flags::from_sub(final_result as usize, total_borrow, half_borrow))
}

/// Compares a with b by performing a - b and returns only the flags.
/// The result of the subtraction is discarded.
/// Possible Flag values:
/// - Z: When a == b.
/// - N: true (always set for subtraction)
/// - H: Set if borrow from bit 4.
/// - C: Set if borrow (a < b).
pub fn cp_u8(a: u8, b: u8) -> (r: Flags)
    ensures
        r == spec_cp_u8(a, b),
{
    let (_result, flags) = sub_u8(a, b);
    proof {
        lemma_compare_flags_are_subtract_flags(a, b);
    }
    flags
}

/// Whether subtracting the lower halves of two `nbits`-wide operands borrows into the lower half.
fn sub_has_half_borrow(a: usize, b: usize, nbits: usize) -> (r: bool)
    requires
        nbits == 8 || nbits == 16,
    ensures
        r == ((a & half_mask(nbits)) < (b & half_mask(nbits))),
{
    let half_bit: usize = 1 << (nbits / 2);
    assert(half_bit == half_mask(nbits) + 1) by (bit_vector)
        requires
            nbits == 8 || nbits == 16,
            half_bit == 1usize << (nbits / 2),
    ;
    let mask: usize = half_bit - 1;
    (a & mask) < (b & mask)
}

/// For all bytes `a` and `b`, an 8-bit addition wraps the sum and reports zero exactly when the
/// wrapped sum is zero, carry exactly when the true sum exceeds 255, half-carry exactly when the
/// low nibbles add up past 0xF, and never subtract.
pub proof fn lemma_add_u8_flags(a: u8, b: u8)
    ensures
        ({
            let (sum, flags) = spec_add_u8(a, b);
            &&& sum as int == (a as int + b as int) % 256
            &&& flags.z == (sum == 0)
            &&& flags.c == (a as u16 + b as u16 > 255)
            &&& flags.h == ((a & 0x0F) + (b & 0x0F) > 0x0F)
            &&& !flags.n
        }),
{
}

/// For all bytes `a` and `b`, an 8-bit subtraction wraps the difference and always reports
/// subtract, carry exactly when `a < b`, half-carry exactly when the low nibble of `a` is below
/// that of `b`, and zero exactly when the wrapped difference is zero.
pub proof fn lemma_sub_u8_flags(a: u8, b: u8)
    ensures
        ({
            let (diff, flags) = spec_sub_u8(a, b);
            &&& diff as int == (a as int - b as int) % 256
            &&& flags.n
            &&& flags.c == (a < b)
            &&& flags.h == ((a & 0x0F) < (b & 0x0F))
            &&& flags.z == (diff == 0)
        }),
{
}

/// For all bytes `a` and `b`, comparing `a` with `b` reports exactly the flags of subtracting
/// `b` from `a`.
pub proof fn lemma_compare_flags_are_subtract_flags(a: u8, b: u8)
    ensures
        spec_cp_u8(a, b) == spec_sub_u8(a, b).1,
{
    assert((((a - b) % 0x100) as u8 == 0) == (a == b));
}

} // verus!
