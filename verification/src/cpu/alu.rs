//! The arithmetic of the 6502 on bytes and flags, apart from where the
//! bytes come from.

use vstd::prelude::*;
use crate::bits::{bit7, has_flag, with_flag};

verus! {

/// Carry.
pub const CARRY: u8 = 0b0000_0001;

/// Zero.
pub const ZERO: u8 = 0b0000_0010;

/// Interrupt disable.
pub const INTERRUPT_DISABLE: u8 = 0b0000_0100;

/// Decimal mode.
pub const DECIMAL_MODE: u8 = 0b0000_1000;

/// Break.
pub const BREAK: u8 = 0b0001_0000;

/// The unused flag, held at one.
pub const BREAK2: u8 = 0b0010_0000;

/// Overflow.
pub const OVERFLOW: u8 = 0b0100_0000;

/// Negative.
pub const NEGATIVE: u8 = 0b1000_0000;

/// The status byte with zero and negative set from a result: zero where the
/// result is zero, negative where its bit 7 is set.
pub open spec fn with_zn(p: u8, result: u8) -> u8 {
    with_flag(with_flag(p, ZERO, result == 0), NEGATIVE, bit7(result))
}

/// The status byte as it is pulled from the stack: break cleared, the unused
/// flag set.
pub open spec fn pulled_status(value: u8) -> u8 {
    with_flag(with_flag(value, BREAK, false), BREAK2, true)
}

/// The status byte as an instruction pushes it: break and the unused flag
/// set.
pub open spec fn pushed_status(p: u8) -> u8 {
    with_flag(with_flag(p, BREAK, true), BREAK2, true)
}

/// One for a set carry, zero for a clear one.
pub open spec fn carry_in(carry: bool) -> int {
    if carry {
        1
    } else {
        0
    }
}

/// What an addition or subtraction leaves: the result, the carry and the
/// overflow.
pub struct Sum {
    pub result: u8,
    pub carry: bool,
    pub overflow: bool,
}

/// Binary addition with carry: the sum modulo 256, carry where the sum
/// passes 255, overflow where both operands differ in sign from the result.
pub open spec fn add_binary(a: u8, m: u8, carry: bool) -> Sum {
    let sum = a + m + carry_in(carry);
    let result = (sum % 256) as u8;
    Sum { result, carry: sum > 0xFF, overflow: (a ^ result) & (m ^ result) & 0x80 != 0 }
}

/// The low digit of a decimal addition, with its carry in bit 4.
pub open spec fn decimal_low_sum(a: u8, m: u8, carry: bool) -> u16 {
    let low = ((a & 0x0F) + (m & 0x0F) + carry_in(carry)) as u16;
    if low > 0x09 {
        (((low + 0x06) as u16 & 0x0F) + 0x10) as u16
    } else {
        low
    }
}

/// Decimal addition with carry, digit by digit. A low digit above 9 is
/// corrected by 6 and carries into the high digit. Overflow is taken from
/// the sum before the high digit is corrected. A high digit above 9 is
/// corrected by 6; carry is set where the corrected sum passes `0x99`.
pub open spec fn add_decimal(a: u8, m: u8, carry: bool) -> Sum {
    let uncorrected = (decimal_low_sum(a, m, carry) + (a & 0xF0) + (m & 0xF0)) as u16;
    let overflow = (!((a as u16) ^ (m as u16)) & ((a as u16) ^ uncorrected)) & 0x80 != 0;
    let corrected = if uncorrected / 16 > 9 {
        (uncorrected + 0x60) as u16
    } else {
        uncorrected
    };
    Sum { result: (corrected % 256) as u8, carry: corrected > 0x99, overflow }
}

/// The low digit of a decimal subtraction, as a 16-bit two's complement
/// number; bit 4 tells of a borrow from the high digit.
pub open spec fn decimal_low_difference(a: u8, m: u8, carry: bool) -> u16 {
    let borrow: u16 = if carry {
        0
    } else {
        1
    };
    let low = ((a & 0x0F) as u16).wrapping_sub((m & 0x0F) as u16).wrapping_sub(borrow);
    if low & 0x10 == 0x10 {
        low.wrapping_sub(0x06)
    } else {
        low
    }
}

/// Decimal subtraction with borrow, digit by digit; the borrow is the
/// complement of the carry. A digit that borrows is corrected by 6. Carry
/// and overflow are those of the binary subtraction, so that a clear carry
/// tells of a borrow.
pub open spec fn sub_decimal(a: u8, m: u8, carry: bool) -> Sum {
    let low = decimal_low_difference(a, m, carry);
    let low_borrow: u16 = if low & 0x10 == 0x10 {
        1
    } else {
        0
    };
    let high = ((a >> 4) as u16).wrapping_sub((m >> 4) as u16).wrapping_sub(low_borrow);
    let high = if high & 0x10 == 0x10 {
        high.wrapping_sub(0x06)
    } else {
        high
    };
    Sum {
        result: (((high << 4) | (low & 0x0F)) & 0xFF) as u8,
        carry: add_binary(a, !m, carry).carry,
        overflow: add_binary(a, !m, carry).overflow,
    }
}

/// What a shift or rotation leaves: the result and the bit that left.
pub struct Shifted {
    pub result: u8,
    pub carry: bool,
}

/// Shift left: bit 7 leaves, bit 0 becomes zero.
pub open spec fn shift_left(value: u8) -> Shifted {
    Shifted { result: value << 1, carry: value & 0x80 == 0x80 }
}

/// Shift right: bit 0 leaves, bit 7 becomes zero.
pub open spec fn shift_right(value: u8) -> Shifted {
    Shifted { result: value >> 1, carry: value & 1 == 1 }
}

/// Rotate left through carry: bit 7 leaves, the old carry enters at bit 0.
pub open spec fn rotate_left(value: u8, carry: bool) -> Shifted {
    Shifted {
        result: if carry {
            (value << 1) | 1
        } else {
            value << 1
        },
        carry: value & 0x80 == 0x80,
    }
}

/// Rotate right through carry: bit 0 leaves, the old carry enters at bit 7.
pub open spec fn rotate_right(value: u8, carry: bool) -> Shifted {
    Shifted {
        result: if carry {
            (value >> 1) | 0x80
        } else {
            value >> 1
        },
        carry: value & 1 == 1,
    }
}

/// The status byte after a comparison of a register with a byte: carry
/// where the register is at least the byte, zero where they are equal,
/// negative from bit 7 of their difference modulo 256.
pub open spec fn compared(p: u8, register: u8, m: u8) -> u8 {
    with_flag(
        with_flag(with_flag(p, CARRY, register >= m), ZERO, register == m),
        NEGATIVE,
        bit7(register.wrapping_sub(m)),
    )
}

/// The status byte after BIT: zero where accumulator and byte share no bit,
/// overflow and negative from bits 6 and 7 of the byte.
pub open spec fn bit_tested(p: u8, a: u8, m: u8) -> u8 {
    with_flag(with_flag(with_flag(p, ZERO, m & a == 0), OVERFLOW, m & 0x40 == 0x40), NEGATIVE, bit7(m))
}

/// Where a branch lands: the address behind its operand byte, moved by the
/// operand read as a signed byte, modulo the address space.
pub open spec fn branch_target(pc: u16, offset: u8) -> u16 {
    let signed: int = if offset < 0x80 {
        offset as int
    } else {
        offset - 0x100
    };
    ((pc + 1 + signed + 0x10000) % 0x10000) as u16
}

/// The two addresses lie in different pages.
pub open spec fn pages_differ(a: u16, b: u16) -> bool {
    a / 256 != b / 256
}

pub fn exec_add_binary(a: u8, m: u8, carry: bool) -> (sum: Sum)
    ensures
        sum == add_binary(a, m, carry),
{
    let total: u16 = a as u16 + m as u16 + if carry {
        1
    } else {
        0
    };
    let result = (total % 256) as u8;
    Sum { result, carry: total > 0xFF, overflow: (a ^ result) & (m ^ result) & 0x80 != 0 }
}

pub fn exec_add_decimal(a: u8, m: u8, carry: bool) -> (sum: Sum)
    ensures
        sum == add_decimal(a, m, carry),
{
    let a_low = a & 0x0F;
    let m_low = m & 0x0F;
    let a_high = a & 0xF0;
    let m_high = m & 0xF0;
    assert(a & 0x0F <= 0x0F && m & 0x0F <= 0x0F) by (bit_vector);
    let mut tmp: u16 = a_low as u16 + m_low as u16 + if carry {
        1
    } else {
        0
    };
    if tmp > 0x09 {
        let nibble = (tmp + 0x06) & 0x0F;
        assert(nibble <= 0x0F) by (bit_vector)
            requires
                nibble == (tmp + 0x06) as u16 & 0x0F,
        ;
        tmp = nibble + 0x10;
    }
    tmp = tmp + a_high as u16 + m_high as u16;
    let overflow = (!((a as u16) ^ (m as u16)) & ((a as u16) ^ tmp)) & 0x80 != 0;
    if tmp / 16 > 9 {
        tmp = tmp + 0x60;
    }
    Sum { result: (tmp % 256) as u8, carry: tmp > 0x99, overflow }
}

pub fn exec_sub_decimal(a: u8, m: u8, carry: bool) -> (sum: Sum)
    ensures
        sum == sub_decimal(a, m, carry),
{
    let borrow: u16 = if carry {
        0
    } else {
        1
    };
    let mut low = ((a & 0x0F) as u16).wrapping_sub((m & 0x0F) as u16).wrapping_sub(borrow);
    if low & 0x10 == 0x10 {
        low = low.wrapping_sub(0x06);
    }
    let low_borrow: u16 = if low & 0x10 == 0x10 {
        1
    } else {
        0
    };
    let mut high = ((a >> 4) as u16).wrapping_sub((m >> 4) as u16).wrapping_sub(low_borrow);
    if high & 0x10 == 0x10 {
        high = high.wrapping_sub(0x06);
    }
    let packed = ((high << 4) | (low & 0x0F)) & 0xFF;
    assert(packed <= 0xFF) by (bit_vector)
        requires
            packed == ((high << 4) | (low & 0x0F)) & 0xFF,
    ;
    let binary = exec_add_binary(a, !m, carry);
    Sum { result: packed as u8, carry: binary.carry, overflow: binary.overflow }
}

pub fn exec_shift_left(value: u8) -> (r: Shifted)
    ensures
        r == shift_left(value),
{
    Shifted { result: value << 1, carry: value & 0x80 == 0x80 }
}

pub fn exec_shift_right(value: u8) -> (r: Shifted)
    ensures
        r == shift_right(value),
{
    Shifted { result: value >> 1, carry: value & 1 == 1 }
}

pub fn exec_rotate_left(value: u8, carry: bool) -> (r: Shifted)
    ensures
        r == rotate_left(value, carry),
{
    let mut result = value << 1;
    if carry {
        result = result | 1;
    }
    Shifted { result, carry: value & 0x80 == 0x80 }
}

pub fn exec_rotate_right(value: u8, carry: bool) -> (r: Shifted)
    ensures
        r == rotate_right(value, carry),
{
    let mut result = value >> 1;
    if carry {
        result = result | 0x80;
    }
    Shifted { result, carry: value & 1 == 1 }
}

pub fn exec_branch_target(pc: u16, offset: u8) -> (target: u16)
    ensures
        target == branch_target(pc, offset),
{
    let next = pc.wrapping_add(1);
    if offset < 0x80 {
        next.wrapping_add(offset as u16)
    } else {
        next.wrapping_sub(0x100 - offset as u16)
    }
}

} // verus!
