//! The bits of the status register and the rules that set them.

use vstd::prelude::*;

verus! {

/// Carry out of bit 7 of the last addition.
pub const CARRY: u8 = 0b0000_0001;

/// The last result was zero.
pub const ZERO: u8 = 0b0000_0010;

/// The last addition overflowed as a signed sum.
pub const OVERFLOW: u8 = 0b0100_0000;

/// Bit 7 of the last result.
pub const NEGATIVE: u8 = 0b1000_0000;

/// Whether `flag` is set in `status`.
pub open spec fn is_set(status: u8, flag: u8) -> bool {
    status & flag != 0
}

/// `status` with `flag` set if `on` and cleared if not.
pub open spec fn with_flag(status: u8, flag: u8, on: bool) -> u8 {
    if on {
        status | flag
    } else {
        status & !flag
    }
}

/// Setting or clearing one flag bit leaves that flag as asked and every
/// other bit as it was.
pub proof fn lemma_with_flag(status: u8, flag: u8, on: bool)
    requires
        flag == CARRY || flag == ZERO || flag == OVERFLOW || flag == NEGATIVE,
    ensures
        is_set(with_flag(status, flag, on), flag) == on,
        with_flag(status, flag, on) & !flag == status & !flag,
        forall|other: u8|
            other & flag == 0 ==> #[trigger] is_set(with_flag(status, flag, on), other) == is_set(
                status,
                other,
            ),
{
    let r = with_flag(status, flag, on);
    assert(r == (if on { status | flag } else { status & !flag }));
    assert((r & flag != 0) == on && r & !flag == status & !flag) by (bit_vector)
        requires
            r == (if on { status | flag } else { status & !flag }),
            flag == 1u8 || flag == 2u8 || flag == 0x40u8 || flag == 0x80u8,
    ;
    assert forall|other: u8| other & flag == 0 implies #[trigger] is_set(r, other) == is_set(
        status,
        other,
    ) by {
        assert((r & other != 0) == (status & other != 0)) by (bit_vector)
            requires
                r & !flag == status & !flag,
                other & flag == 0,
        ;
    }
}

/// `status` with the zero and negative flags taken from `result` and every
/// other bit kept.
pub open spec fn with_zero_and_negative(status: u8, result: u8) -> u8 {
    (status & 0b0111_1101) | (if result == 0 { ZERO } else { 0u8 }) | (result & NEGATIVE)
}

/// The zero flag of `with_zero_and_negative` is set exactly when the result
/// is zero, its negative flag exactly when bit 7 of the result is set, and
/// the other six bits are those of `status`.
pub proof fn lemma_zero_and_negative(status: u8, result: u8)
    ensures
        is_set(with_zero_and_negative(status, result), ZERO) <==> result == 0,
        is_set(with_zero_and_negative(status, result), NEGATIVE) <==> result >= 0x80,
        with_zero_and_negative(status, result) & 0b0111_1101 == status & 0b0111_1101,
        is_set(with_zero_and_negative(status, result), CARRY) == is_set(status, CARRY),
        is_set(with_zero_and_negative(status, result), OVERFLOW) == is_set(status, OVERFLOW),
{
    let z: u8 = if result == 0 { 2u8 } else { 0u8 };
    let r: u8 = (status & 0b0111_1101) | z | (result & 0x80);
    assert(with_zero_and_negative(status, result) == r);
    assert((r & 2 != 0) <==> result == 0) by (bit_vector)
        requires
            r == (status & 0b0111_1101) | z | (result & 0x80),
            z == (if result == 0 { 2u8 } else { 0u8 }),
    ;
    assert((r & 0x80 != 0) <==> result >= 0x80) by (bit_vector)
        requires
            r == (status & 0b0111_1101) | z | (result & 0x80),
            z == (if result == 0 { 2u8 } else { 0u8 }),
    ;
    assert(r & 0b0111_1101 == status & 0b0111_1101 && (r & 1 != 0) == (status & 1 != 0) && (r
        & 0x40 != 0) == (status & 0x40 != 0)) by (bit_vector)
        requires
            r == (status & 0b0111_1101) | z | (result & 0x80),
            z == (if result == 0 { 2u8 } else { 0u8 }),
    ;
}

} // verus!
