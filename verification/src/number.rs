//! Binary64 numbers as bit patterns.
//!
//! A number is carried as the 64 bits of its IEEE 754 binary64 encoding:
//! one sign bit, eleven exponent bits, fifty-two fraction bits.  This module
//! orders, negates and truncates such numbers; sums, products and quotients
//! are left to the host.

use vstd::prelude::*;
use crate::ast::BinaryOperator;

verus! {

/// The sign bit.
pub const SIGN_BIT: u64 = 0x8000_0000_0000_0000;

/// The bits of positive infinity: every exponent bit set, no fraction bit.
pub const INFINITY_BITS: u64 = 0x7ff0_0000_0000_0000;

/// The bits of positive zero.
pub const ZERO_BITS: u64 = 0;

/// The implicit leading bit of a normal number's significand.
pub const HIDDEN_BIT: u64 = 0x0010_0000_0000_0000;

/// Whether the sign bit is set.
pub open spec fn sign_negative(bits: u64) -> bool {
    bits >= SIGN_BIT
}

/// The bits without the sign bit.
pub open spec fn magnitude(bits: u64) -> u64 {
    if bits >= SIGN_BIT {
        (bits - SIGN_BIT) as u64
    } else {
        bits
    }
}

/// Whether the bits encode no number.
pub open spec fn nan(bits: u64) -> bool {
    magnitude(bits) > INFINITY_BITS
}

/// Whether the bits encode a number that is not infinite.
pub open spec fn finite(bits: u64) -> bool {
    magnitude(bits) < INFINITY_BITS
}

/// The same number with the opposite sign.
pub open spec fn negated(bits: u64) -> u64 {
    if bits >= SIGN_BIT {
        (bits - SIGN_BIT) as u64
    } else {
        (bits + SIGN_BIT) as u64
    }
}

/// An integer that orders the numbers as their values are ordered: both
/// zeros get 0, a greater number a greater rank.
pub open spec fn rank(bits: u64) -> int {
    if bits >= SIGN_BIT {
        -(magnitude(bits) as int)
    } else {
        magnitude(bits) as int
    }
}

/// The result of comparing two numbers with one of the six comparison
/// operators.  A comparison with something that is no number is false, but
/// for `Ne`, which is then true.
pub open spec fn compared(operator: BinaryOperator, left: u64, right: u64) -> bool {
    let ordered = !nan(left) && !nan(right);
    match operator {
        BinaryOperator::Lt => ordered && rank(left) < rank(right),
        BinaryOperator::Lte => ordered && rank(left) <= rank(right),
        BinaryOperator::Gt => ordered && rank(left) > rank(right),
        BinaryOperator::Gte => ordered && rank(left) >= rank(right),
        BinaryOperator::Eq => ordered && rank(left) == rank(right),
        _ => !(ordered && rank(left) == rank(right)),
    }
}

/// The whole part of a number that is finite and not negative, capped at
/// `u64::MAX`.
pub open spec fn truncated(bits: u64) -> u64 {
    let exponent = magnitude(bits) / HIDDEN_BIT;
    let significand = (magnitude(bits) % HIDDEN_BIT + HIDDEN_BIT) as u64;
    if exponent < 1023 {
        0
    } else if exponent <= 1075 {
        significand >> ((1075 - exponent) as u64)
    } else if exponent <= 1086 {
        significand << ((exponent - 1075) as u64)
    } else {
        u64::MAX
    }
}

/// Whether the sign bit is set.
pub fn is_sign_negative(bits: u64) -> (r: bool)
    ensures
        r == sign_negative(bits),
{
    bits >= SIGN_BIT
}

/// The bits without the sign bit.
pub fn abs_bits(bits: u64) -> (r: u64)
    ensures
        r == magnitude(bits),
{
    if bits >= SIGN_BIT {
        bits - SIGN_BIT
    } else {
        bits
    }
}

/// Whether the bits encode no number.
pub fn is_nan(bits: u64) -> (r: bool)
    ensures
        r == nan(bits),
{
    abs_bits(bits) > INFINITY_BITS
}

/// Whether the bits encode a number that is not infinite.
pub fn is_finite(bits: u64) -> (r: bool)
    ensures
        r == finite(bits),
{
    abs_bits(bits) < INFINITY_BITS
}

/// The same number with the opposite sign.
pub fn negate(bits: u64) -> (r: u64)
    ensures
        r == negated(bits),
{
    if bits >= SIGN_BIT {
        bits - SIGN_BIT
    } else {
        bits + SIGN_BIT
    }
}

/// Compares two numbers with one of the six comparison operators; with
/// another operator the result is that of `Ne`.
pub fn compare(operator: BinaryOperator, left: u64, right: u64) -> (r: bool)
    ensures
        r == compared(operator, left, right),
{
    let ordered = !is_nan(left) && !is_nan(right);
    let l: i128 = if left >= SIGN_BIT {
        -(abs_bits(left) as i128)
    } else {
        abs_bits(left) as i128
    };
    let r: i128 = if right >= SIGN_BIT {
        -(abs_bits(right) as i128)
    } else {
        abs_bits(right) as i128
    };
    match operator {
        BinaryOperator::Lt => ordered && l < r,
        BinaryOperator::Lte => ordered && l <= r,
        BinaryOperator::Gt => ordered && l > r,
        BinaryOperator::Gte => ordered && l >= r,
        BinaryOperator::Eq => ordered && l == r,
        _ => !(ordered && l == r),
    }
}

/// The whole part of a number that is finite and not negative, capped at
/// `u64::MAX`.
pub fn truncate(bits: u64) -> (r: u64)
    ensures
        r == truncated(bits),
{
    let m = abs_bits(bits);
    let exponent = m / HIDDEN_BIT;
    let significand = m % HIDDEN_BIT + HIDDEN_BIT;
    if exponent < 1023 {
        0
    } else if exponent <= 1075 {
        significand >> (1075 - exponent)
    } else if exponent <= 1086 {
        assert(significand << ((exponent - 1075) as u64) <= u64::MAX);
        significand << (exponent - 1075)
    } else {
        u64::MAX
    }
}

/// The number that a row of decimal digits writes, first digit first.
pub open spec fn decimal_value(digits: Seq<u8>) -> nat
    decreases digits.len(),
{
    if digits.len() == 0 {
        0
    } else {
        10 * decimal_value(digits.drop_last()) + digits.last() as nat
    }
}

/// The bits of the number `significand` times two to the power of
/// `biased - 1075`, where the significand is below `2 * HIDDEN_BIT` and
/// `biased` is at least 1: the significand is doubled, and `biased`
/// lowered, until the hidden bit is set or the least exponent is reached.
pub open spec fn normalized(significand: nat, biased: nat) -> nat
    decreases biased,
{
    if significand >= HIDDEN_BIT || biased <= 1 {
        (biased * HIDDEN_BIT + significand - HIDDEN_BIT) as nat
    } else {
        normalized(2 * significand, (biased - 1) as nat)
    }
}

/// The bits of the binary64 number nearest to `quotient` times two to the
/// power of `shift`, plus a rest below that power: `round` says whether the
/// rest reaches half of it, `sticky` whether the rest is anything beyond
/// that half.  Ties go to the even significand; what is too large becomes
/// infinity.  The quotient is below `2 * HIDDEN_BIT`; with a shift it has
/// its hidden bit set.
pub open spec fn assembled(quotient: nat, shift: nat, round: bool, sticky: bool) -> u64 {
    if shift == 0 {
        normalized(quotient, 1075) as u64
    } else {
        let up: nat = if round && (sticky || quotient % 2 == 1) {
            1
        } else {
            0
        };
        let bits = (1075 + shift) * HIDDEN_BIT + quotient + up - HIDDEN_BIT;
        if bits >= INFINITY_BITS {
            INFINITY_BITS
        } else {
            bits as u64
        }
    }
}

/// The bits of the binary64 number nearest to `value` times two to the
/// power of `shift`, plus a rest described by `round` and `sticky`: the
/// value is halved until it is below `2 * HIDDEN_BIT`, and the bits that
/// drop out decide how to round.
pub open spec fn scaled(value: nat, shift: nat, round: bool, sticky: bool) -> u64
    decreases value,
{
    if value < 2 * HIDDEN_BIT {
        assembled(value, shift, round, sticky)
    } else {
        scaled(value / 2, shift + 1, value % 2 == 1, sticky || round)
    }
}

/// The bits of the binary64 number nearest to the whole number `value`,
/// ties going to the even significand; infinity if the value is too large.
pub open spec fn nearest(value: nat) -> u64 {
    scaled(value, 0, false, false)
}

/// Whether every element is a decimal digit.
pub open spec fn all_digits(digits: Seq<u8>) -> bool {
    forall|i: int| 0 <= i < digits.len() ==> digits[i] <= 9
}

/// A row of digits writes no less than any of its beginnings.
pub proof fn lemma_decimal_value_monotone(digits: Seq<u8>, n: int)
    requires
        0 <= n <= digits.len(),
    ensures
        decimal_value(digits.take(n)) <= decimal_value(digits),
    decreases digits.len() - n,
{
    if n < digits.len() {
        let longer = digits.take(n + 1);
        assert(longer.drop_last() =~= digits.take(n));
        lemma_decimal_value_monotone(digits, n + 1);
    } else {
        assert(digits.take(n) =~= digits);
    }
}

/// The number that the digits write, if it is below `2 * HIDDEN_BIT`.
fn small_value(digits: &Vec<u8>) -> (r: Option<u64>)
    requires
        all_digits(digits@),
    ensures
        match r {
            Some(v) => v == decimal_value(digits@) && v < 2 * HIDDEN_BIT,
            None => decimal_value(digits@) >= 2 * HIDDEN_BIT,
        },
{
    let mut acc: u64 = 0;
    let mut i: usize = 0;
    assert(digits@.take(0) =~= Seq::<u8>::empty());
    while i < digits.len()
        invariant
            i <= digits.len(),
            all_digits(digits@),
            acc == decimal_value(digits@.take(i as int)),
            acc < 2 * HIDDEN_BIT,
        decreases digits.len() - i,
    {
        assert(digits@.take(i + 1).drop_last() =~= digits@.take(i as int));
        let next: u64 = acc * 10 + digits[i] as u64;
        if next >= 2 * HIDDEN_BIT {
            proof {
                lemma_decimal_value_monotone(digits@, i + 1);
            }
            return None;
        }
        acc = next;
        i += 1;
    }
    assert(digits@.take(i as int) =~= digits@);
    Some(acc)
}

/// Halves the number that the digits write: the digits of the half, and
/// whether one was left over.
fn halve(digits: &Vec<u8>) -> (r: (Vec<u8>, bool))
    requires
        all_digits(digits@),
    ensures
        all_digits(r.0@),
        r.0.len() == digits.len(),
        decimal_value(r.0@) == decimal_value(digits@) / 2,
        r.1 == (decimal_value(digits@) % 2 == 1),
{
    let mut out: Vec<u8> = Vec::new();
    let mut carry: u8 = 0;
    let mut i: usize = 0;
    assert(digits@.take(0) =~= Seq::<u8>::empty());
    while i < digits.len()
        invariant
            i <= digits.len(),
            all_digits(digits@),
            all_digits(out@),
            out.len() == i,
            carry <= 1,
            2 * decimal_value(out@) + carry == decimal_value(digits@.take(i as int)),
        decreases digits.len() - i,
    {
        assert(digits@.take(i + 1).drop_last() =~= digits@.take(i as int));
        let current: u8 = carry * 10 + digits[i];
        let ghost before = out@;
        out.push(current / 2);
        assert(out@.drop_last() =~= before);
        carry = current % 2;
        i += 1;
    }
    assert(digits@.take(i as int) =~= digits@);
    (out, carry == 1)
}

/// The bits of a whole number below `2 * HIDDEN_BIT`, which is written
/// exactly.
fn normalize(quotient: u64) -> (r: u64)
    requires
        quotient < 2 * HIDDEN_BIT,
    ensures
        r == normalized(quotient as nat, 1075),
{
    let mut significand: u64 = quotient;
    let mut biased: u64 = 1075;
    while significand < HIDDEN_BIT && biased > 1
        invariant
            significand < 2 * HIDDEN_BIT,
            1 <= biased <= 1075,
            normalized(significand as nat, biased as nat) == normalized(quotient as nat, 1075),
        decreases biased,
    {
        significand = significand * 2;
        biased = biased - 1;
    }
    biased * HIDDEN_BIT + significand - HIDDEN_BIT
}

/// The most halvings that are counted: more make no difference, the number
/// is infinite long before.
pub const SHIFT_CAP: u64 = 4096;

/// Rounds and packs a quotient that was halved `shift` times, or
/// `SHIFT_CAP` times or more if `shift` is `SHIFT_CAP`.
fn assemble(quotient: u64, shift: u64, round: bool, sticky: bool, Ghost(halvings): Ghost<nat>) -> (r:
    u64)
    requires
        quotient < 2 * HIDDEN_BIT,
        shift <= SHIFT_CAP,
        shift == halvings || (shift == SHIFT_CAP && halvings >= SHIFT_CAP),
    ensures
        r == assembled(quotient as nat, halvings, round, sticky),
{
    if shift == 0 {
        normalize(quotient)
    } else {
        let up: u64 = if round && (sticky || quotient % 2 == 1) {
            1
        } else {
            0
        };
        assert((1075 + halvings) * HIDDEN_BIT >= (1075 + shift) * HIDDEN_BIT) by (nonlinear_arith)
            requires
                halvings >= shift,
        ;
        assert((1075 + shift) * HIDDEN_BIT <= 5171 * HIDDEN_BIT) by (nonlinear_arith)
            requires
                shift <= 4096,
        ;
        if shift >= 973 {
            assert((1075 + shift) * HIDDEN_BIT >= 2048 * HIDDEN_BIT) by (nonlinear_arith)
                requires
                    shift >= 973,
            ;
            INFINITY_BITS
        } else {
            let bits: u64 = (1075 + shift) * HIDDEN_BIT + quotient + up - HIDDEN_BIT;
            if bits >= INFINITY_BITS {
                INFINITY_BITS
            } else {
                bits
            }
        }
    }
}

/// The bits of the binary64 number nearest to the whole number that the
/// decimal digits write, first digit first.  Ties go to the even
/// significand; a number that is too large gives infinity.
pub fn from_decimal(digits: &Vec<u8>) -> (r: u64)
    requires
        all_digits(digits@),
    ensures
        r == nearest(decimal_value(digits@)),
{
    let mut current: Vec<u8> = Vec::new();
    let mut i: usize = 0;
    while i < digits.len()
        invariant
            i <= digits.len(),
            current@ == digits@.take(i as int),
        decreases digits.len() - i,
    {
        current.push(digits[i]);
        assert(current@ =~= digits@.take(i + 1));
        i += 1;
    }
    assert(current@ =~= digits@);
    let mut shift: u64 = 0;
    let ghost mut halvings: nat = 0;
    let mut round = false;
    let mut sticky = false;
    loop
        invariant
            all_digits(current@),
            shift <= SHIFT_CAP,
            shift == halvings || (shift == SHIFT_CAP && halvings >= SHIFT_CAP),
            scaled(decimal_value(current@), halvings, round, sticky) == nearest(
                decimal_value(digits@),
            ),
        decreases decimal_value(current@),
    {
        match small_value(&current) {
            Some(quotient) => {
                return assemble(quotient, shift, round, sticky, Ghost(halvings));
            },
            None => {
                let (half, bit) = halve(&current);
                current = half;
                sticky = sticky || round;
                round = bit;
                if shift < SHIFT_CAP {
                    shift = shift + 1;
                }
                proof {
                    halvings = halvings + 1;
                }
            },
        }
    }
}

/// The step of `lemma_whole_numbers_are_exact`: doubling the significand
/// and lowering the exponent keeps the whole part.
proof fn lemma_normalized_keeps_whole_part(significand: u64, biased: nat)
    requires
        0 < significand < 2 * HIDDEN_BIT,
        1023 <= biased <= 1075,
        significand >> ((1075 - biased) as u64) != 0,
    ensures
        normalized(significand as nat, biased) < INFINITY_BITS,
        truncated(normalized(significand as nat, biased) as u64) == significand >> ((1075
            - biased) as u64),
    decreases biased,
{
    let k = (1075 - biased) as u64;
    if significand >= HIDDEN_BIT {
        let bits = (biased * HIDDEN_BIT + significand - HIDDEN_BIT) as u64;
        assert(biased * HIDDEN_BIT + significand - HIDDEN_BIT < 1076 * HIDDEN_BIT)
            by (nonlinear_arith)
            requires
                biased <= 1075,
                significand < 2 * HIDDEN_BIT,
        ;
        assert(bits / HIDDEN_BIT == biased && bits % HIDDEN_BIT == significand - HIDDEN_BIT)
            by (nonlinear_arith)
            requires
                bits == biased * HIDDEN_BIT + (significand - HIDDEN_BIT),
                0 <= significand - HIDDEN_BIT < HIDDEN_BIT,
                HIDDEN_BIT == 0x0010_0000_0000_0000,
        ;
    } else {
        assert(k < 52 && (2 * significand) as u64 >> ((k + 1) as u64) == significand >> k)
            by (bit_vector)
            requires
                significand < 0x0010_0000_0000_0000,
                significand >> k != 0,
                k <= 52,
        ;
        lemma_normalized_keeps_whole_part((2 * significand) as u64, (biased - 1) as nat);
    }
}

/// Whole numbers below `2 * HIDDEN_BIT` are exact: the nearest binary64
/// number is the number itself, so its whole part gives the number back.
pub proof fn lemma_whole_numbers_are_exact(value: nat)
    requires
        value < 2 * HIDDEN_BIT,
    ensures
        finite(nearest(value)),
        !sign_negative(nearest(value)),
        truncated(nearest(value)) == value,
{
    if value == 0 {
        lemma_normalized_zero(1075);
    } else {
        let v = value as u64;
        assert(v >> 0u64 == v) by (bit_vector);
        lemma_normalized_keeps_whole_part(v, 1075);
    }
}

/// Zero is written with no bit set.
proof fn lemma_normalized_zero(biased: nat)
    requires
        biased >= 1,
    ensures
        normalized(0, biased) == 0,
    decreases biased,
{
    if biased > 1 {
        lemma_normalized_zero((biased - 1) as nat);
    }
}

} // verus!
