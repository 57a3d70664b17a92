//! Condition flags and the 8-bit arithmetic that sets them.
//!
//! Every function here is a pure map on bytes and flags. The specification
//! side is written over mathematical integers; the executable side computes in
//! machine words and is proved to agree.
use vstd::prelude::*;
use crate::opcode::{AluOp, Condition};

verus! {

/// The five condition flags.
#[derive(Clone, Copy, Debug, PartialEq, Eq, Structural)]
pub struct ConditionCodes {
    pub zero: bool,
    pub sign: bool,
    pub parity: bool,
    pub carry: bool,
    pub aux_carry: bool,
}

/// Number of one bits in the binary expansion of `v`.
pub open spec fn ones(v: nat) -> nat
    decreases v,
{
    if v == 0 {
        0
    } else {
        (v % 2) + ones(v / 2)
    }
}

/// Whether `v` has an even number of one bits.
pub open spec fn even_parity(v: u8) -> bool {
    ones(v as nat) % 2 == 0
}

/// Flags after an operation that produced `value` with the given carries:
/// Zero, Sign and Parity describe the result byte.
pub open spec fn result_flags(value: u8, carry: bool, aux_carry: bool) -> ConditionCodes {
    ConditionCodes {
        zero: value == 0,
        sign: value >= 128,
        parity: even_parity(value),
        carry,
        aux_carry,
    }
}

/// A flag as the number it contributes to a sum: 1 when set, 0 when clear.
pub open spec fn bit(b: bool) -> int {
    if b {
        1
    } else {
        0
    }
}

/// `a + b + carry_in` on eight bits. Carry is the carry out of bit 7,
/// AuxiliaryCarry the carry out of bit 3.
pub open spec fn add_with(a: u8, b: u8, carry_in: bool) -> (u8, ConditionCodes) {
    let sum = a + b + bit(carry_in);
    let value = (sum % 256) as u8;
    (value, result_flags(value, sum > 255, a % 16 + b % 16 + bit(carry_in) > 15))
}

/// `a - b - borrow_in` on eight bits. Carry is the borrow out of bit 7.
/// AuxiliaryCarry is the carry out of bit 3 of the two's-complement addition
/// that the processor performs, so it is set when the low nibble does not
/// borrow.
pub open spec fn sub_with(a: u8, b: u8, borrow_in: bool) -> (u8, ConditionCodes) {
    let diff = a - b - bit(borrow_in);
    let value = (if diff < 0 {
        diff + 256
    } else {
        diff
    }) as u8;
    (value, result_flags(value, diff < 0, a % 16 - b % 16 - bit(borrow_in) >= 0))
}

/// The accumulator and flags after an arithmetic/logic operation on the
/// accumulator `a` and the operand `b`. A comparison leaves the accumulator.
/// The logical operations clear Carry; AND reports in AuxiliaryCarry whether
/// bit 3 of either input was set, OR and XOR clear it.
pub open spec fn alu(op: AluOp, a: u8, b: u8, flags: ConditionCodes) -> (u8, ConditionCodes) {
    match op {
        AluOp::Add => add_with(a, b, false),
        AluOp::Adc => add_with(a, b, flags.carry),
        AluOp::Sub => sub_with(a, b, false),
        AluOp::Sbb => sub_with(a, b, flags.carry),
        AluOp::Ana => (a & b, result_flags(a & b, false, (a / 8) % 2 == 1 || (b / 8) % 2 == 1)),
        AluOp::Xra => (a ^ b, result_flags(a ^ b, false, false)),
        AluOp::Ora => (a | b, result_flags(a | b, false, false)),
        AluOp::Compare => (a, sub_with(a, b, false).1),
    }
}

/// Increment of one operand: Carry is kept.
pub open spec fn increment(v: u8, flags: ConditionCodes) -> (u8, ConditionCodes) {
    let value = ((v + 1) % 256) as u8;
    (value, result_flags(value, flags.carry, v % 16 == 15))
}

/// Decrement of one operand: Carry is kept.
pub open spec fn decrement(v: u8, flags: ConditionCodes) -> (u8, ConditionCodes) {
    let value = ((v + 255) % 256) as u8;
    (value, result_flags(value, flags.carry, v % 16 != 0))
}

/// Decimal adjustment of the accumulator after an addition of packed
/// decimal digits.
pub open spec fn decimal_adjust(a: u8, flags: ConditionCodes) -> (u8, ConditionCodes) {
    let low = a % 16;
    let high = a / 16;
    let fix_low = flags.aux_carry || low > 9;
    let fix_high = flags.carry || high > 9 || (high >= 9 && low > 9);
    let correction = ((if fix_low {
        6int
    } else {
        0int
    }) + (if fix_high {
        0x60int
    } else {
        0int
    })) as u8;
    let (value, f) = add_with(a, correction, false);
    (value, ConditionCodes { carry: fix_high, ..f })
}

/// Rotate left: bit 7 goes to bit 0 and to Carry.
pub open spec fn rotate_left(a: u8) -> (u8, bool) {
    (((a * 2) % 256 + a / 128) as u8, a >= 128)
}

/// Rotate right: bit 0 goes to bit 7 and to Carry.
pub open spec fn rotate_right(a: u8) -> (u8, bool) {
    ((a / 2 + (a % 2) * 128) as u8, a % 2 == 1)
}

/// Rotate left through Carry: Carry goes to bit 0, bit 7 to Carry.
pub open spec fn rotate_left_through(a: u8, carry: bool) -> (u8, bool) {
    (((a * 2) % 256 + bit(carry)) as u8, a >= 128)
}

/// Rotate right through Carry: Carry goes to bit 7, bit 0 to Carry.
pub open spec fn rotate_right_through(a: u8, carry: bool) -> (u8, bool) {
    ((a / 2 + bit(carry) * 128) as u8, a % 2 == 1)
}

/// The flag byte as PUSH PSW stores it: Sign, Zero, 0, AuxiliaryCarry, 0,
/// Parity, 1, Carry from bit 7 down to bit 0.
pub open spec fn flags_byte(f: ConditionCodes) -> u8 {
    (bit(f.sign) * 128 + bit(f.zero) * 64 + bit(f.aux_carry) * 16 + bit(f.parity) * 4 + 2 + bit(
        f.carry,
    )) as u8
}

/// The flags that POP PSW reads out of a flag byte.
pub open spec fn flags_from_byte(b: u8) -> ConditionCodes {
    ConditionCodes {
        sign: b / 128 == 1,
        zero: (b / 64) % 2 == 1,
        aux_carry: (b / 16) % 2 == 1,
        parity: (b / 4) % 2 == 1,
        carry: b % 2 == 1,
    }
}

/// Whether a branch condition is satisfied.
pub open spec fn holds(condition: Condition, f: ConditionCodes) -> bool {
    match condition {
        Condition::NotZero => !f.zero,
        Condition::Zero => f.zero,
        Condition::NoCarry => !f.carry,
        Condition::Carry => f.carry,
        Condition::ParityOdd => !f.parity,
        Condition::ParityEven => f.parity,
        Condition::Plus => !f.sign,
        Condition::Minus => f.sign,
    }
}

/// Executable form of [`even_parity`].
pub fn parity_of(value: u8) -> (even: bool)
    ensures
        even == even_parity(value),
{
    let mut rest: u8 = value;
    let mut count: u8 = 0;
    while rest != 0
        invariant
            count + ones(rest as nat) == ones(value as nat),
            count + rest <= 255,
        decreases rest,
    {
        count = count + rest % 2;
        rest = rest / 2;
    }
    count % 2 == 0
}

impl Default for ConditionCodes {
    fn default() -> (f: ConditionCodes)
        ensures
            f == (ConditionCodes {
                zero: false,
                sign: false,
                parity: false,
                carry: false,
                aux_carry: false,
            }),
    {
        ConditionCodes::new()
    }
}

impl ConditionCodes {
    /// All flags clear.
    pub fn new() -> (f: ConditionCodes)
        ensures
            f == (ConditionCodes {
                zero: false,
                sign: false,
                parity: false,
                carry: false,
                aux_carry: false,
            }),
    {
        ConditionCodes { zero: false, sign: false, parity: false, carry: false, aux_carry: false }
    }

    /// Executable form of [`result_flags`].
    pub fn from_result(value: u8, carry: bool, aux_carry: bool) -> (f: ConditionCodes)
        ensures
            f == result_flags(value, carry, aux_carry),
    {
        ConditionCodes {
            zero: value == 0,
            sign: value >= 128,
            parity: parity_of(value),
            carry,
            aux_carry,
        }
    }

    /// Executable form of [`flags_byte`].
    pub fn to_byte(&self) -> (b: u8)
        ensures
            b == flags_byte(*self),
    {
        let mut b: u8 = 2;
        if self.sign {
            b = b + 128;
        }
        if self.zero {
            b = b + 64;
        }
        if self.aux_carry {
            b = b + 16;
        }
        if self.parity {
            b = b + 4;
        }
        if self.carry {
            b = b + 1;
        }
        b
    }

    /// Executable form of [`flags_from_byte`].
    pub fn from_byte(b: u8) -> (f: ConditionCodes)
        ensures
            f == flags_from_byte(b),
    {
        ConditionCodes {
            sign: b / 128 == 1,
            zero: (b / 64) % 2 == 1,
            aux_carry: (b / 16) % 2 == 1,
            parity: (b / 4) % 2 == 1,
            carry: b % 2 == 1,
        }
    }

    /// Executable form of [`holds`].
    pub fn test(&self, condition: Condition) -> (met: bool)
        ensures
            met == holds(condition, *self),
    {
        match condition {
            Condition::NotZero => !self.zero,
            Condition::Zero => self.zero,
            Condition::NoCarry => !self.carry,
            Condition::Carry => self.carry,
            Condition::ParityOdd => !self.parity,
            Condition::ParityEven => self.parity,
            Condition::Plus => !self.sign,
            Condition::Minus => self.sign,
        }
    }
}

/// Executable form of [`add_with`].
pub fn add_bytes(a: u8, b: u8, carry_in: bool) -> (r: (u8, ConditionCodes))
    ensures
        r == add_with(a, b, carry_in),
{
    let c: u16 = if carry_in {
        1
    } else {
        0
    };
    let sum: u16 = a as u16 + b as u16 + c;
    let value: u8 = (sum % 256) as u8;
    let aux: bool = (a % 16) as u16 + (b % 16) as u16 + c > 15;
    (value, ConditionCodes::from_result(value, sum > 255, aux))
}

/// Executable form of [`sub_with`].
pub fn sub_bytes(a: u8, b: u8, borrow_in: bool) -> (r: (u8, ConditionCodes))
    ensures
        r == sub_with(a, b, borrow_in),
{
    let c: u16 = if borrow_in {
        1
    } else {
        0
    };
    let take: u16 = b as u16 + c;
    let borrow: bool = (a as u16) < take;
    let value: u8 = if borrow {
        (a as u16 + 256 - take) as u8
    } else {
        (a as u16 - take) as u8
    };
    let aux: bool = (a % 16) as u16 >= (b % 16) as u16 + c;
    (value, ConditionCodes::from_result(value, borrow, aux))
}

/// Executable form of [`alu`].
pub fn alu_apply(op: AluOp, a: u8, b: u8, flags: ConditionCodes) -> (r: (u8, ConditionCodes))
    ensures
        r == alu(op, a, b, flags),
{
    match op {
        AluOp::Add => add_bytes(a, b, false),
        AluOp::Adc => add_bytes(a, b, flags.carry),
        AluOp::Sub => sub_bytes(a, b, false),
        AluOp::Sbb => sub_bytes(a, b, flags.carry),
        AluOp::Ana => {
            let aux: bool = (a / 8) % 2 == 1 || (b / 8) % 2 == 1;
            (a & b, ConditionCodes::from_result(a & b, false, aux))
        },
        AluOp::Xra => (a ^ b, ConditionCodes::from_result(a ^ b, false, false)),
        AluOp::Ora => (a | b, ConditionCodes::from_result(a | b, false, false)),
        AluOp::Compare => {
            let r = sub_bytes(a, b, false);
            (a, r.1)
        },
    }
}

/// Executable form of [`increment`].
pub fn increment_byte(v: u8, flags: ConditionCodes) -> (r: (u8, ConditionCodes))
    ensures
        r == increment(v, flags),
{
    let value: u8 = ((v as u16 + 1) % 256) as u8;
    (value, ConditionCodes::from_result(value, flags.carry, v % 16 == 15))
}

/// Executable form of [`decrement`].
pub fn decrement_byte(v: u8, flags: ConditionCodes) -> (r: (u8, ConditionCodes))
    ensures
        r == decrement(v, flags),
{
    let value: u8 = ((v as u16 + 255) % 256) as u8;
    (value, ConditionCodes::from_result(value, flags.carry, v % 16 != 0))
}

/// Executable form of [`decimal_adjust`].
pub fn decimal_adjust_byte(a: u8, flags: ConditionCodes) -> (r: (u8, ConditionCodes))
    ensures
        r == decimal_adjust(a, flags),
{
    let low: u8 = a % 16;
    let high: u8 = a / 16;
    let fix_low: bool = flags.aux_carry || low > 9;
    let fix_high: bool = flags.carry || high > 9 || (high >= 9 && low > 9);
    let mut correction: u8 = 0;
    if fix_low {
        correction = correction + 6;
    }
    if fix_high {
        correction = correction + 0x60;
    }
    let r = add_bytes(a, correction, false);
    let f = r.1;
    (
        r.0,
        ConditionCodes {
            zero: f.zero,
            sign: f.sign,
            parity: f.parity,
            carry: fix_high,
            aux_carry: f.aux_carry,
        },
    )
}

/// Executable form of [`rotate_left`].
pub fn rotate_left_byte(a: u8) -> (r: (u8, bool))
    ensures
        r == rotate_left(a),
{
    (((a as u16 * 2) % 256 + (a / 128) as u16) as u8, a >= 128)
}

/// Executable form of [`rotate_right`].
pub fn rotate_right_byte(a: u8) -> (r: (u8, bool))
    ensures
        r == rotate_right(a),
{
    (a / 2 + (a % 2) * 128, a % 2 == 1)
}

/// Executable form of [`rotate_left_through`].
pub fn rotate_left_through_byte(a: u8, carry: bool) -> (r: (u8, bool))
    ensures
        r == rotate_left_through(a, carry),
{
    let c: u16 = if carry {
        1
    } else {
        0
    };
    (((a as u16 * 2) % 256 + c) as u8, a >= 128)
}

/// Executable form of [`rotate_right_through`].
pub fn rotate_right_through_byte(a: u8, carry: bool) -> (r: (u8, bool))
    ensures
        r == rotate_right_through(a, carry),
{
    let c: u8 = if carry {
        128
    } else {
        0
    };
    (a / 2 + c, a % 2 == 1)
}

} // verus!
