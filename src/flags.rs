//! The flag byte: four named bits and the shared ZERO/NEGATIVE update rule.

use vstd::prelude::*;

verus! {

/// Set when the last flag-updating value was zero.
pub const FLAG_ZERO: u8 = 0x80;

/// Set by ADD on unsigned wrap-around and by SUB on borrow.
pub const FLAG_CARRY: u8 = 0x40;

/// Set by MUL when the product does not fit in a byte, and by DIV on a zero divisor.
pub const FLAG_OVERFLOW: u8 = 0x20;

/// Set when the last flag-updating value had its top bit set.
pub const FLAG_NEGATIVE: u8 = 0x10;

/// `flags` with the bits of `bit` set when `on` holds and cleared otherwise.
pub open spec fn with_flag(flags: u8, bit: u8, on: bool) -> u8 {
    if on {
        flags | bit
    } else {
        flags & !bit
    }
}

/// Whether the flag `bit` is set in `flags`.
pub open spec fn flag_is_set(flags: u8, bit: u8) -> bool {
    flags & bit != 0
}

/// `flags` after ZERO and NEGATIVE are recomputed from `value`.
pub open spec fn update_zn(flags: u8, value: u8) -> u8 {
    with_flag(with_flag(flags, FLAG_ZERO, value == 0), FLAG_NEGATIVE, value & 0x80 != 0)
}

/// The four bits of the flag byte that carry no name.
pub open spec fn unnamed_bits(flags: u8) -> u8 {
    flags & 0x0F
}

/// Setting or clearing one named flag decides that flag and leaves the other
/// three named flags and the unnamed bits as they were.
pub proof fn lemma_with_flag(flags: u8, bit: u8, on: bool)
    by (bit_vector)
    requires
        bit == 0x80u8 || bit == 0x40u8 || bit == 0x20u8 || bit == 0x10u8,
    ensures
        (with_flag(flags, bit, on) & bit != 0) == on,
        with_flag(flags, bit, on) & 0x0F == flags & 0x0F,
        bit != 0x80u8 ==> (with_flag(flags, bit, on) & 0x80 != 0) == (flags & 0x80 != 0),
        bit != 0x40u8 ==> (with_flag(flags, bit, on) & 0x40 != 0) == (flags & 0x40 != 0),
        bit != 0x20u8 ==> (with_flag(flags, bit, on) & 0x20 != 0) == (flags & 0x20 != 0),
        bit != 0x10u8 ==> (with_flag(flags, bit, on) & 0x10 != 0) == (flags & 0x10 != 0),
{
}

/// After ZERO and NEGATIVE are recomputed from `value`, ZERO is set exactly
/// when `value` is zero, NEGATIVE exactly when its top bit is set, and CARRY,
/// OVERFLOW and the unnamed bits are as they were.
pub proof fn lemma_update_zn(flags: u8, value: u8)
    ensures
        flag_is_set(update_zn(flags, value), FLAG_ZERO) == (value == 0),
        flag_is_set(update_zn(flags, value), FLAG_NEGATIVE) == (value & 0x80 != 0),
        flag_is_set(update_zn(flags, value), FLAG_CARRY) == flag_is_set(flags, FLAG_CARRY),
        flag_is_set(update_zn(flags, value), FLAG_OVERFLOW) == flag_is_set(
            flags,
            FLAG_OVERFLOW,
        ),
        unnamed_bits(update_zn(flags, value)) == unnamed_bits(flags),
{
    lemma_with_flag(flags, FLAG_ZERO, value == 0);
    lemma_with_flag(with_flag(flags, FLAG_ZERO, value == 0), FLAG_NEGATIVE, value & 0x80 != 0);
}

} // verus!
