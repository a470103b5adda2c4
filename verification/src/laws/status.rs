//! The status byte: what setting and pulling flags does to it, and the
//! arithmetic of carries and branches.

use vstd::prelude::*;
use crate::bits::{
    bit7, has_flag, lemma_with_flag_keeps_others, lemma_with_flag_reads_back, with_flag,
};
use crate::cpu::alu::{
    add_binary, branch_target, carry_in, compared, pulled_status, pushed_status, with_zn,
    BREAK, BREAK2, CARRY, NEGATIVE, OVERFLOW, ZERO,
};
use crate::mem::next_addr;

verus! {

/// After zero and negative are set from a result, zero tells that the
/// result is zero and negative is its bit 7; the other flags are as before.
pub proof fn law_zero_and_negative_tell_of_the_result(p: u8, result: u8)
    ensures
        has_flag(with_zn(p, result), ZERO) == (result == 0),
        has_flag(with_zn(p, result), NEGATIVE) == bit7(result),
        with_zn(p, result) & 0x7D == p & 0x7D,
{
    let on = result == 0;
    let neg = bit7(result);
    assert((((p | 0x02u8) | 0x80u8) & 0x02u8 == 0x02u8) && (((p | 0x02u8) & !0x80u8) & 0x02u8
        == 0x02u8) && (((p & !0x02u8) | 0x80u8) & 0x02u8 != 0x02u8) && (((p & !0x02u8) & !0x80u8)
        & 0x02u8 != 0x02u8)) by (bit_vector);
    assert((((p | 0x02u8) | 0x80u8) & 0x80u8 == 0x80u8) && (((p | 0x02u8) & !0x80u8) & 0x80u8
        != 0x80u8) && (((p & !0x02u8) | 0x80u8) & 0x80u8 == 0x80u8) && (((p & !0x02u8) & !0x80u8)
        & 0x80u8 != 0x80u8)) by (bit_vector);
    assert((((p | 0x02u8) | 0x80u8) & 0x7Du8 == p & 0x7Du8) && (((p | 0x02u8) & !0x80u8) & 0x7Du8
        == p & 0x7Du8) && (((p & !0x02u8) | 0x80u8) & 0x7Du8 == p & 0x7Du8) && (((p & !0x02u8)
        & !0x80u8) & 0x7Du8 == p & 0x7Du8)) by (bit_vector);
}

/// A status byte that was pulled from the stack has break clear and the
/// unused flag set, and is otherwise the byte that lay on the stack.
pub proof fn law_pulled_status(value: u8)
    ensures
        !has_flag(pulled_status(value), BREAK),
        has_flag(pulled_status(value), BREAK2),
        pulled_status(value) & 0xCF == value & 0xCF,
{
    assert((((value & !0x10u8) | 0x20u8) & 0x10u8 != 0x10u8) && (((value & !0x10u8) | 0x20u8)
        & 0x20u8 == 0x20u8) && (((value & !0x10u8) | 0x20u8) & 0xCFu8 == value & 0xCFu8))
        by (bit_vector);
}

/// A status byte that is pushed and pulled again keeps carry, zero,
/// interrupt disable, decimal, overflow and negative; break comes back
/// clear and the unused flag set.
pub proof fn law_status_round_trip(p: u8)
    ensures
        pulled_status(pushed_status(p)) & 0xCF == p & 0xCF,
        !has_flag(pulled_status(pushed_status(p)), BREAK),
        has_flag(pulled_status(pushed_status(p)), BREAK2),
{
    law_pulled_status(pushed_status(p));
    assert(((p | 0x10u8) | 0x20u8) & 0xCFu8 == p & 0xCFu8) by (bit_vector);
}

/// Carry and overflow can be set and cleared without a change to zero and
/// negative.
pub proof fn lemma_carry_and_overflow_leave_zero_and_negative(p: u8, on: bool)
    ensures
        has_flag(with_flag(p, CARRY, on), ZERO) == has_flag(p, ZERO),
        has_flag(with_flag(p, CARRY, on), NEGATIVE) == has_flag(p, NEGATIVE),
        has_flag(with_flag(p, OVERFLOW, on), ZERO) == has_flag(p, ZERO),
        has_flag(with_flag(p, OVERFLOW, on), NEGATIVE) == has_flag(p, NEGATIVE),
{
    assert((((p | 0x01u8) & 0x02u8 == 0x02u8) == (p & 0x02u8 == 0x02u8)) && (((p & !0x01u8)
        & 0x02u8 == 0x02u8) == (p & 0x02u8 == 0x02u8)) && (((p | 0x01u8) & 0x80u8 == 0x80u8) == (p
        & 0x80u8 == 0x80u8)) && (((p & !0x01u8) & 0x80u8 == 0x80u8) == (p & 0x80u8 == 0x80u8)))
        by (bit_vector);
    assert((((p | 0x40u8) & 0x02u8 == 0x02u8) == (p & 0x02u8 == 0x02u8)) && (((p & !0x40u8)
        & 0x02u8 == 0x02u8) == (p & 0x02u8 == 0x02u8)) && (((p | 0x40u8) & 0x80u8 == 0x80u8) == (p
        & 0x80u8 == 0x80u8)) && (((p & !0x40u8) & 0x80u8 == 0x80u8) == (p & 0x80u8 == 0x80u8)))
        by (bit_vector);
}

/// Zero and negative always tell of the result they were set from.
pub proof fn lemma_zero_and_negative_always()
    ensures
        forall|p: u8, value: u8|
            #![trigger with_zn(p, value)]
            has_flag(with_zn(p, value), ZERO) == (value == 0) && has_flag(
                with_zn(p, value),
                NEGATIVE,
            ) == bit7(value),
        forall|p: u8, on: bool|
            #![trigger with_flag(p, CARRY, on)]
            has_flag(with_flag(p, CARRY, on), ZERO) == has_flag(p, ZERO) && has_flag(
                with_flag(p, CARRY, on),
                NEGATIVE,
            ) == has_flag(p, NEGATIVE),
        forall|p: u8, on: bool|
            #![trigger with_flag(p, OVERFLOW, on)]
            has_flag(with_flag(p, OVERFLOW, on), ZERO) == has_flag(p, ZERO) && has_flag(
                with_flag(p, OVERFLOW, on),
                NEGATIVE,
            ) == has_flag(p, NEGATIVE),
{
    assert forall|p: u8, value: u8|
        #![trigger with_zn(p, value)]
        has_flag(with_zn(p, value), ZERO) == (value == 0) && has_flag(
            with_zn(p, value),
            NEGATIVE,
        ) == bit7(value) by {
        law_zero_and_negative_tell_of_the_result(p, value);
    }
    assert forall|p: u8, on: bool|
        #![trigger with_flag(p, CARRY, on)]
        has_flag(with_flag(p, CARRY, on), ZERO) == has_flag(p, ZERO) && has_flag(
            with_flag(p, CARRY, on),
            NEGATIVE,
        ) == has_flag(p, NEGATIVE) by {
        lemma_carry_and_overflow_leave_zero_and_negative(p, on);
    }
    assert forall|p: u8, on: bool|
        #![trigger with_flag(p, OVERFLOW, on)]
        has_flag(with_flag(p, OVERFLOW, on), ZERO) == has_flag(p, ZERO) && has_flag(
            with_flag(p, OVERFLOW, on),
            NEGATIVE,
        ) == has_flag(p, NEGATIVE) by {
        lemma_carry_and_overflow_leave_zero_and_negative(p, on);
    }
}

/// After a comparison carry tells that the register is at least the byte,
/// zero that they are equal, and negative is bit 7 of their difference
/// modulo 256; the other flags are as before.
pub proof fn law_compare_flags(p: u8, register: u8, m: u8)
    ensures
        has_flag(compared(p, register, m), CARRY) == (register >= m),
        has_flag(compared(p, register, m), ZERO) == (register == m),
        has_flag(compared(p, register, m), NEGATIVE) == bit7(
            register.wrapping_sub(m),
        ),
        compared(p, register, m) & 0x7C == p & 0x7C,
{
    let negative = bit7(register.wrapping_sub(m));
    let carried = with_flag(p, CARRY, register >= m);
    let zeroed = with_flag(carried, ZERO, register == m);
    assert(0x02u8 & 0x01u8 == 0 && 0x80u8 & 0x01u8 == 0 && 0x80u8 & 0x02u8 == 0 && 0x01u8 & 0x7Cu8
        == 0 && 0x02u8 & 0x7Cu8 == 0 && 0x80u8 & 0x7Cu8 == 0) by (bit_vector);
    lemma_with_flag_reads_back(p, CARRY, register >= m);
    lemma_with_flag_reads_back(carried, ZERO, register == m);
    lemma_with_flag_reads_back(zeroed, NEGATIVE, negative);
    lemma_with_flag_keeps_others(carried, ZERO, register == m, CARRY);
    lemma_with_flag_keeps_others(zeroed, NEGATIVE, negative, CARRY);
    lemma_with_flag_keeps_others(zeroed, NEGATIVE, negative, ZERO);
    lemma_with_flag_keeps_others(p, CARRY, register >= m, 0x7C);
    lemma_with_flag_keeps_others(carried, ZERO, register == m, 0x7C);
    lemma_with_flag_keeps_others(zeroed, NEGATIVE, negative, 0x7C);
}

/// Binary addition adds: result and carry together are the sum of the
/// operands and the carry that came in.
pub proof fn law_binary_addition_adds(a: u8, m: u8, carry: bool)
    ensures
        ({
            let sum = add_binary(a, m, carry);
            sum.result + (if sum.carry {
                256int
            } else {
                0int
            }) == a + m + carry_in(carry)
        }),
{
}

/// A branch lands at most 128 bytes before and 127 bytes behind the
/// instruction that follows it, modulo the address space; an offset of
/// zero lands on that instruction.
pub proof fn law_branches_are_short(pc: u16, offset: u8)
    ensures
        offset < 0x80 ==> branch_target(pc, offset) == (pc + 1 + offset) % 0x10000,
        offset >= 0x80 ==> branch_target(pc, offset) == (pc + 1 + offset - 256
            + 0x10000) % 0x10000,
        branch_target(pc, 0) == next_addr(pc),
{
}

/// A byte is negative exactly in the upper half of its range.
pub proof fn law_negative_is_the_upper_half(value: u8)
    ensures
        bit7(value) == (value >= 0x80),
{
    assert((value & 0x80 != 0) == (value >= 0x80)) by (bit_vector);
}

} // verus!
