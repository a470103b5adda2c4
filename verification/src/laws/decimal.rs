//! Decimal arithmetic: on operands that are decimal numbers, decimal
//! addition adds and decimal subtraction subtracts.

use vstd::prelude::*;
use crate::cpu::alu::{
    add_binary, add_decimal, carry_in, decimal_low_difference, decimal_low_sum, sub_decimal,
};

verus! {

/// Both digits of the byte are decimal digits.
pub open spec fn is_decimal(value: u8) -> bool {
    value % 16 <= 9 && value / 16 <= 9
}

/// The number that the two decimal digits of the byte spell.
pub open spec fn decimal_value(value: u8) -> int {
    (value / 16) * 10 + value % 16
}

proof fn lemma_nibbles(value: u8)
    ensures
        value & 0x0F == value % 16,
        value & 0xF0 == (value / 16) * 16,
{
    assert(value & 0x0F == value % 16 && value & 0xF0 == (value / 16) * 16) by (bit_vector);
}

proof fn lemma_low_digit_correction(low: u16)
    requires
        10 <= low <= 19,
    ensures
        ((low + 6) as u16) & 0x0F == low - 10,
{
    assert(10 <= low && low <= 19 ==> (((low + 6) as u16) & 0x0F) == low - 10) by (bit_vector);
}

proof fn lemma_low_sum(a: u8, m: u8, carry: bool)
    requires
        a % 16 <= 9,
        m % 16 <= 9,
    ensures
        ({
            let low = a % 16 + m % 16 + carry_in(carry);
            decimal_low_sum(a, m, carry) == (if low > 9 {
                low + 6
            } else {
                low
            })
        }),
{
    lemma_nibbles(a);
    lemma_nibbles(m);
    let low = (a % 16 + m % 16 + carry_in(carry)) as u16;
    if low > 9 {
        lemma_low_digit_correction(low);
    }
}

/// On decimal operands decimal addition gives a decimal result, and result
/// and carry together are the sum of the operands and the carry that came
/// in: the carry stands for a hundred.
pub proof fn law_decimal_addition_adds(a: u8, m: u8, carry: bool)
    requires
        is_decimal(a),
        is_decimal(m),
    ensures
        is_decimal(add_decimal(a, m, carry).result),
        decimal_value(add_decimal(a, m, carry).result) + (if add_decimal(a, m, carry).carry {
            100int
        } else {
            0int
        }) == decimal_value(a) + decimal_value(m) + carry_in(carry),
{
    lemma_nibbles(a);
    lemma_nibbles(m);
    lemma_low_sum(a, m, carry);
    let low = a % 16 + m % 16 + carry_in(carry);
    let high = a / 16 + m / 16;
    let digit: int = if low > 9 {
        low - 10
    } else {
        low
    };
    let tens: int = if low > 9 {
        high + 1
    } else {
        high
    };
    let uncorrected = (decimal_low_sum(a, m, carry) + (a & 0xF0) + (m & 0xF0)) as u16;
    assert(uncorrected == digit + 16 * tens);
    assert(uncorrected / 16 == tens && uncorrected % 16 == digit);
    if tens > 9 {
        let corrected = (uncorrected + 0x60) as u16;
        assert(corrected == digit + 16 * (tens - 10) + 256);
        assert(corrected % 256 == digit + 16 * (tens - 10));
        let result = (corrected % 256) as u8;
        assert(result / 16 == tens - 10 && result % 16 == digit);
    } else {
        let result = (uncorrected % 256) as u8;
        assert(result == uncorrected);
    }
}

proof fn lemma_high_nibble(value: u8)
    ensures
        value >> 4 == value / 16,
        !value == 255 - value,
{
    assert(value >> 4 == value / 16 && !value == 255 - value) by (bit_vector);
}

/// A digit that did not borrow is itself; a digit that borrowed, as a
/// 16-bit two's complement number, shows the borrow in bit 4 and ten more
/// than the difference in its low nibble.
proof fn lemma_borrowed_digit(digit: u16)
    ensures
        digit <= 9 ==> digit & 0x10 == 0 && digit & 0x0F == digit,
        digit >= 0xFFF0 ==> digit & 0x10 == 0x10 && digit & 0x0F == digit - 0xFFF0,
{
    assert((digit <= 9 ==> digit & 0x10 == 0 && digit & 0x0F == digit) && (digit >= 0xFFF0
        ==> digit & 0x10 == 0x10 && digit & 0x0F == digit - 0xFFF0)) by (bit_vector);
}

proof fn lemma_packed_digits(high: u16, low: u16)
    requires
        low <= 9,
    ensures
        high <= 9 ==> ((high << 4) | low) & 0xFF == high * 16 + low,
        high >= 0xFFF0 ==> ((high << 4) | low) & 0xFF == (high - 0xFFF0) * 16 + low,
{
    assert(low <= 9 ==> (high <= 9 ==> ((high << 4) | low) & 0xFF == high * 16 + low) && (high
        >= 0xFFF0 ==> ((high << 4) | low) & 0xFF == (high - 0xFFF0) * 16 + low)) by (bit_vector);
}

/// The low digit of a decimal difference, and whether it borrowed.
proof fn lemma_low_difference(a: u8, m: u8, carry: bool)
    requires
        a % 16 <= 9,
        m % 16 <= 9,
    ensures
        ({
            let low = a % 16 - m % 16 - (1 - carry_in(carry));
            let digit = decimal_low_difference(a, m, carry);
            &&& low >= 0 ==> digit == low
            &&& low < 0 ==> digit == 0xFFF0 + low + 10
        }),
{
    lemma_nibbles(a);
    lemma_nibbles(m);
    let borrow: u16 = if carry {
        0
    } else {
        1
    };
    let raw = ((a & 0x0F) as u16).wrapping_sub((m & 0x0F) as u16).wrapping_sub(borrow);
    lemma_borrowed_digit(raw);
}

/// On decimal operands decimal subtraction gives a decimal result, and
/// result and carry together are the difference of the operands less the
/// borrow that came in: a clear carry stands for a hundred borrowed.
pub proof fn law_decimal_subtraction_subtracts(a: u8, m: u8, carry: bool)
    requires
        is_decimal(a),
        is_decimal(m),
    ensures
        is_decimal(sub_decimal(a, m, carry).result),
        decimal_value(sub_decimal(a, m, carry).result) - (if sub_decimal(a, m, carry).carry {
            0int
        } else {
            100int
        }) == decimal_value(a) - decimal_value(m) - (1 - carry_in(carry)),
        sub_decimal(a, m, carry).carry == (decimal_value(a) - decimal_value(m) - (1 - carry_in(
            carry,
        )) >= 0),
{
    lemma_low_difference(a, m, carry);
    lemma_high_nibble(a);
    lemma_high_nibble(m);
    let low_raw = a % 16 - m % 16 - (1 - carry_in(carry));
    let low = decimal_low_difference(a, m, carry);
    lemma_borrowed_digit(low);
    let low_borrow: u16 = if low & 0x10 == 0x10 {
        1
    } else {
        0
    };
    assert(low_borrow == (if low_raw < 0 {
        1int
    } else {
        0int
    }));
    let low_digit = low & 0x0F;
    assert(low_digit == (if low_raw < 0 {
        low_raw + 10
    } else {
        low_raw
    }));
    let high_raw = a / 16 - m / 16 - low_borrow;
    let high_wrapped = ((a >> 4) as u16).wrapping_sub((m >> 4) as u16).wrapping_sub(low_borrow);
    assert(high_wrapped == (if high_raw < 0 {
        high_raw + 0x10000
    } else {
        high_raw
    }));
    lemma_borrowed_digit(high_wrapped);
    let high = if high_wrapped & 0x10 == 0x10 {
        high_wrapped.wrapping_sub(0x06)
    } else {
        high_wrapped
    };
    assert(high == (if high_raw < 0 {
        0xFFF0 + high_raw + 10
    } else {
        high_raw
    }));
    lemma_packed_digits(high, low_digit);
    let high_digit: int = if high_raw < 0 {
        high_raw + 10
    } else {
        high_raw
    };
    let packed = ((high << 4) | low_digit) & 0xFF;
    assert(packed == high_digit * 16 + low_digit);
    let result = sub_decimal(a, m, carry).result;
    assert(result == packed);
    assert(result / 16 == high_digit && result % 16 == low_digit);
    assert(sub_decimal(a, m, carry).carry == (a + (255 - m) + carry_in(carry) > 0xFF));
    assert((high_raw < 0) == (a + (255 - m) + carry_in(carry) <= 0xFF));
}

} // verus!
