//! The status register and its update policy.
//!
//! The status register packs the condition flags into one byte, from least to
//! most significant bit: Carry, Zero, InterruptDisable, DecimalMode,
//! BreakCommand, Unused, Overflow, Negative. Every instruction documented as
//! "affects Z/N" runs its result byte through the same policy: Zero is set
//! exactly when the result is zero, Negative exactly when bit 7 of the result
//! is set, and both are cleared otherwise.

use vstd::prelude::*;

verus! {

/// True when the Carry bit (bit 0) of the status register is set.
pub open spec fn carry_flag(status: u8) -> bool {
    status & 0x01 != 0
}

/// True when the Zero bit (bit 1) of the status register is set.
pub open spec fn zero_flag(status: u8) -> bool {
    status & 0x02 != 0
}

/// True when the Negative bit (bit 7) of the status register is set.
pub open spec fn negative_flag(status: u8) -> bool {
    status & 0x80 != 0
}

/// The uniform Zero/Negative update policy: starting from `status`, set the
/// Zero bit iff `result` is zero and the Negative bit iff bit 7 of `result`
/// is set, clearing each otherwise and leaving every other bit alone.
pub open spec fn set_zn(status: u8, result: u8) -> u8 {
    let with_zero = if result == 0 {
        status | 0x02
    } else {
        status & 0xFD
    };
    if result & 0x80 != 0 {
        with_zero | 0x80
    } else {
        with_zero & 0x7F
    }
}

/// The Zero/Negative policy read back bit by bit: the Zero and Negative bits
/// of the updated status depend on the result byte alone, and the remaining
/// six bits are exactly those of the incoming status.
pub proof fn lemma_set_zn(status: u8, result: u8)
    ensures
        zero_flag(set_zn(status, result)) == (result == 0),
        negative_flag(set_zn(status, result)) == (result & 0x80 != 0),
        set_zn(status, result) & 0x7D == status & 0x7D,
{
    let s = status;
    let r = result;
    assert({
        let with_zero = if r == 0 {
            s | 0x02
        } else {
            s & 0xFD
        };
        let updated = if r & 0x80 != 0 {
            with_zero | 0x80
        } else {
            with_zero & 0x7F
        };
        &&& (updated & 0x02 != 0) == (r == 0)
        &&& (updated & 0x80 != 0) == (r & 0x80 != 0)
        &&& updated & 0x7D == s & 0x7D
    }) by (bit_vector);
}

} // verus!
