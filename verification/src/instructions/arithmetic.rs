//! Flag-producing arithmetic on bytes, and the handlers of the arithmetic
//! instructions.

#![allow(unused_variables)]

use vstd::prelude::*;
use crate::addr::Addr8;
use crate::bits::signed_value;
use crate::cpu::{CPU, PC};
use crate::error::{ErrorType, RuntimeError};
use crate::instructions::instruction::{first_operand, Instruction};
use crate::registers::{GPR, SFR};
use crate::state::{Outcome, State};

verus! {

/// A carry or borrow that goes into an operation, as a number.
pub open spec fn carry_value(carry: bool) -> int {
    if carry {
        1
    } else {
        0
    }
}

/// The byte that an addition leaves: the sum modulo 256.
pub open spec fn add_result(lhs: u8, rhs: u8, carry_in: bool) -> u8 {
    ((lhs + rhs + carry_value(carry_in)) % 256) as u8
}

/// The carry out of bit 7 of an addition: the sum does not fit in a byte.
pub open spec fn add_carry(lhs: u8, rhs: u8, carry_in: bool) -> bool {
    lhs + rhs + carry_value(carry_in) >= 256
}

/// The carry out of bit 3 of an addition: the sum of the low nibbles does not
/// fit in a nibble.
pub open spec fn add_auxiliary_carry(lhs: u8, rhs: u8, carry_in: bool) -> bool {
    lhs % 16 + rhs % 16 + carry_value(carry_in) >= 16
}

/// The carry out of bit 6 of an addition.
pub open spec fn add_carry_into_sign(lhs: u8, rhs: u8, carry_in: bool) -> bool {
    lhs % 128 + rhs % 128 + carry_value(carry_in) >= 128
}

/// The overflow of an addition: the carry out of bit 6 differs from the carry
/// out of bit 7.
pub open spec fn add_overflow(lhs: u8, rhs: u8, carry_in: bool) -> bool {
    add_carry_into_sign(lhs, rhs, carry_in) != add_carry(lhs, rhs, carry_in)
}

/// The byte that a subtraction leaves: the difference modulo 256.
pub open spec fn sub_result(lhs: u8, rhs: u8, borrow_in: bool) -> u8 {
    ((lhs - rhs - carry_value(borrow_in)) % 256) as u8
}

/// The borrow of a subtraction: the difference of the unsigned operands is
/// negative.
pub open spec fn sub_borrow(lhs: u8, rhs: u8, borrow_in: bool) -> bool {
    lhs - rhs - carry_value(borrow_in) < 0
}

/// The borrow into the low nibble of a subtraction.
pub open spec fn sub_auxiliary_borrow(lhs: u8, rhs: u8, borrow_in: bool) -> bool {
    lhs % 16 < rhs % 16 + carry_value(borrow_in)
}

/// The overflow of a subtraction: the difference of the operands, read as
/// two's-complement numbers, does not fit in a signed byte.
pub open spec fn sub_overflow(lhs: u8, rhs: u8, borrow_in: bool) -> bool {
    let difference = signed_value(lhs) - signed_value(rhs) - carry_value(borrow_in);
    difference < -128 || difference > 127
}

/// The flags that an arithmetic operation on bytes produces, as a set of bits.
#[derive(Debug, Clone, Copy, PartialEq, Eq, Structural)]
pub struct ArithmeticOpFlags {
    bits: u8,
}

impl View for ArithmeticOpFlags {
    type V = u8;

    closed spec fn view(&self) -> u8 {
        self.bits
    }
}

/// The bits of the set that holds exactly the given flags.
pub open spec fn flag_bits(carry: bool, auxiliary_carry: bool, overflow: bool) -> u8 {
    ((if overflow {
        1int
    } else {
        0int
    }) + (if auxiliary_carry {
        2int
    } else {
        0int
    }) + (if carry {
        4int
    } else {
        0int
    })) as u8
}

/// In a set made of the three flags, a flag is held exactly when it was given.
pub proof fn lemma_flag_bits(carry: bool, auxiliary_carry: bool, overflow: bool)
    ensures
        (flag_bits(carry, auxiliary_carry, overflow) & ArithmeticOpFlags::CARRY
            == ArithmeticOpFlags::CARRY) == carry,
        (flag_bits(carry, auxiliary_carry, overflow) & ArithmeticOpFlags::AUXILIARY_CARRY
            == ArithmeticOpFlags::AUXILIARY_CARRY) == auxiliary_carry,
        (flag_bits(carry, auxiliary_carry, overflow) & ArithmeticOpFlags::OVERFLOW
            == ArithmeticOpFlags::OVERFLOW) == overflow,
{
    let bits = flag_bits(carry, auxiliary_carry, overflow);
    assert(bits < 8 ==> ((bits & 4 == 4) == (bits >= 4) && (bits & 2 == 2) == (bits % 4 >= 2) && (
    bits & 1 == 1) == (bits % 2 == 1))) by (bit_vector);
}

impl ArithmeticOpFlags {
    /// Whether the set holds every flag of `flags`.
    pub open spec fn holds(self, flags: u8) -> bool {
        self@ & flags == flags
    }

    /// The bit that stands for the overflow flag.
    pub const OVERFLOW: u8 = 1;

    /// The bit that stands for the auxiliary carry flag.
    pub const AUXILIARY_CARRY: u8 = 2;

    /// The bit that stands for the carry flag.
    pub const CARRY: u8 = 4;

    /// The set that holds no flag.
    pub fn empty() -> (flags: Self)
        ensures
            flags@ == 0,
    {
        ArithmeticOpFlags { bits: 0 }
    }

    /// The set that holds exactly the given flags.
    pub fn new(carry: bool, auxiliary_carry: bool, overflow: bool) -> (flags: Self)
        ensures
            flags@ == flag_bits(carry, auxiliary_carry, overflow),
            flags.holds(Self::CARRY) == carry,
            flags.holds(Self::AUXILIARY_CARRY) == auxiliary_carry,
            flags.holds(Self::OVERFLOW) == overflow,
    {
        proof {
            lemma_flag_bits(carry, auxiliary_carry, overflow);
        }
        let mut bits: u8 = 0;
        if overflow {
            bits = bits + Self::OVERFLOW;
        }
        if auxiliary_carry {
            bits = bits + Self::AUXILIARY_CARRY;
        }
        if carry {
            bits = bits + Self::CARRY;
        }
        ArithmeticOpFlags { bits }
    }

    /// The bits of the set.
    pub fn bits(&self) -> (bits: u8)
        ensures
            bits == self@,
    {
        self.bits
    }

    /// Whether the set holds every flag of `flags`.
    pub fn contains(&self, flags: u8) -> (r: bool)
        ensures
            r == self.holds(flags),
    {
        self.bits & flags == flags
    }
}

/// Adds `rhs` to `lhs` and tells the flags of the addition.
pub fn add(lhs: &mut u8, rhs: u8) -> (flags: ArithmeticOpFlags)
    ensures
        *final(lhs) == add_result(*old(lhs), rhs, false),
        flags@ == flag_bits(
            add_carry(*old(lhs), rhs, false),
            add_auxiliary_carry(*old(lhs), rhs, false),
            add_overflow(*old(lhs), rhs, false),
        ),
        flags.holds(ArithmeticOpFlags::CARRY) == add_carry(*old(lhs), rhs, false),
        flags.holds(ArithmeticOpFlags::AUXILIARY_CARRY) == add_auxiliary_carry(
            *old(lhs),
            rhs,
            false,
        ),
        flags.holds(ArithmeticOpFlags::OVERFLOW) == add_overflow(*old(lhs), rhs, false),
{
    addc(lhs, rhs, false)
}

/// Adds `rhs` and the carry `carry_in` to `lhs` and tells the flags of the
/// addition.
pub fn addc(lhs: &mut u8, rhs: u8, carry_in: bool) -> (flags: ArithmeticOpFlags)
    ensures
        *final(lhs) == add_result(*old(lhs), rhs, carry_in),
        flags@ == flag_bits(
            add_carry(*old(lhs), rhs, carry_in),
            add_auxiliary_carry(*old(lhs), rhs, carry_in),
            add_overflow(*old(lhs), rhs, carry_in),
        ),
        flags.holds(ArithmeticOpFlags::CARRY) == add_carry(*old(lhs), rhs, carry_in),
        flags.holds(ArithmeticOpFlags::AUXILIARY_CARRY) == add_auxiliary_carry(
            *old(lhs),
            rhs,
            carry_in,
        ),
        flags.holds(ArithmeticOpFlags::OVERFLOW) == add_overflow(*old(lhs), rhs, carry_in),
{
    let a: u16 = *lhs as u16;
    let b: u16 = rhs as u16;
    let c: u16 = if carry_in {
        1
    } else {
        0
    };
    let sum: u16 = a + b + c;
    let carry = sum > 0xFF;
    let auxiliary_carry = (a % 16) + (b % 16) + c > 0x0F;
    let carry_into_sign = (a % 128) + (b % 128) + c > 0x7F;
    *lhs = (sum % 256) as u8;
    ArithmeticOpFlags::new(carry, auxiliary_carry, carry_into_sign != carry)
}

/// Subtracts `rhs` and the borrow `borrow_in` from `lhs` and tells the flags of
/// the subtraction: the borrow as carry, the borrow into the low nibble as
/// auxiliary carry, and the overflow.
pub fn subb(lhs: &mut u8, rhs: u8, borrow_in: bool) -> (flags: ArithmeticOpFlags)
    ensures
        *final(lhs) == sub_result(*old(lhs), rhs, borrow_in),
        flags@ == flag_bits(
            sub_borrow(*old(lhs), rhs, borrow_in),
            sub_auxiliary_borrow(*old(lhs), rhs, borrow_in),
            sub_overflow(*old(lhs), rhs, borrow_in),
        ),
        flags.holds(ArithmeticOpFlags::CARRY) == sub_borrow(*old(lhs), rhs, borrow_in),
        flags.holds(ArithmeticOpFlags::AUXILIARY_CARRY) == sub_auxiliary_borrow(
            *old(lhs),
            rhs,
            borrow_in,
        ),
        flags.holds(ArithmeticOpFlags::OVERFLOW) == sub_overflow(*old(lhs), rhs, borrow_in),
{
    let a: i16 = *lhs as i16;
    let b: i16 = rhs as i16;
    let c: i16 = if borrow_in {
        1
    } else {
        0
    };
    let difference: i16 = a - b - c;
    let borrow = difference < 0;
    let auxiliary_borrow = (a % 16) < (b % 16) + c;
    let signed_lhs: i16 = if a < 128 {
        a
    } else {
        a - 256
    };
    let signed_rhs: i16 = if b < 128 {
        b
    } else {
        b - 256
    };
    let signed_difference: i16 = signed_lhs - signed_rhs - c;
    let overflow = signed_difference < -128 || signed_difference > 127;
    *lhs = if borrow {
        (difference + 256) as u8
    } else {
        difference as u8
    };
    ArithmeticOpFlags::new(borrow, auxiliary_borrow, overflow)
}

/// The sum of two bytes and its flags, in the terms of the operands: the result
/// is the sum modulo 256; carry tells that the sum does not fit in a byte;
/// auxiliary carry that the sum of the low nibbles does not fit in a nibble;
/// overflow that the operands have one sign and the result has the other.
pub proof fn lemma_add_flags(a: u8, b: u8)
    ensures
        add_result(a, b, false) == (a + b) % 256,
        add_carry(a, b, false) == (a + b >= 256),
        add_auxiliary_carry(a, b, false) == ((a & 0xF) + (b & 0xF) >= 16),
        add_overflow(a, b, false) == ((a >= 128) == (b >= 128) && (add_result(a, b, false) >= 128)
            != (a >= 128)),
{
    crate::bits::lemma_bit_arithmetic(a);
    crate::bits::lemma_bit_arithmetic(b);
    let low_a: int = if a >= 128 {
        a - 128
    } else {
        a as int
    };
    let low_b: int = if b >= 128 {
        b - 128
    } else {
        b as int
    };
    let sum: int = if a + b >= 256 {
        a + b - 256
    } else {
        a + b
    };
    assert(a % 128 == low_a);
    assert(b % 128 == low_b);
    assert((a + b) % 256 == sum);
}

/// The machine after `operand` and `carry_in` are added to the accumulator:
/// the accumulator holds the sum, and carry, auxiliary carry and overflow are
/// those of the addition.
pub open spec fn after_add(s: State, operand: u8, carry_in: bool) -> State {
    s.set_acc(add_result(s.acc(), operand, carry_in)).set_flags(
        add_carry(s.acc(), operand, carry_in),
        add_auxiliary_carry(s.acc(), operand, carry_in),
        add_overflow(s.acc(), operand, carry_in),
    )
}

/// The machine after `operand` and `borrow_in` are subtracted from the
/// accumulator: the accumulator holds the difference, carry holds the borrow,
/// auxiliary carry the borrow into the low nibble, and overflow is that of the
/// subtraction.
pub open spec fn after_sub(s: State, operand: u8, borrow_in: bool) -> State {
    s.set_acc(sub_result(s.acc(), operand, borrow_in)).set_flags(
        sub_borrow(s.acc(), operand, borrow_in),
        sub_auxiliary_borrow(s.acc(), operand, borrow_in),
        sub_overflow(s.acc(), operand, borrow_in),
    )
}

/// The byte after `byte`, with 0 after 255.
pub open spec fn incremented(byte: u8) -> u8 {
    ((byte + 1) % 256) as u8
}

/// The byte before `byte`, with 255 before 0.
pub open spec fn decremented(byte: u8) -> u8 {
    ((byte + 255) % 256) as u8
}

/// The byte after `byte`, with 0 after 255.
pub fn increment(byte: u8) -> (r: u8)
    ensures
        r == incremented(byte),
{
    if byte == 255 {
        0
    } else {
        byte + 1
    }
}

/// The byte before `byte`, with 255 before 0.
pub fn decrement(byte: u8) -> (r: u8)
    ensures
        r == decremented(byte),
{
    if byte == 0 {
        255
    } else {
        byte - 1
    }
}

/// Adds `operand` and `carry_in` to the accumulator and writes the flags.
pub fn add_to_acc(cpu: &mut CPU, operand: u8, carry_in: bool)
    ensures
        final(cpu)@ == after_add(old(cpu)@, operand, carry_in),
{
    let mut acc = cpu.acc();
    let res = addc(&mut acc, operand, carry_in);
    cpu.set_acc(acc);
    cpu.set_flags(
        res.contains(ArithmeticOpFlags::CARRY),
        res.contains(ArithmeticOpFlags::AUXILIARY_CARRY),
        res.contains(ArithmeticOpFlags::OVERFLOW),
    );
}

/// Subtracts `operand` and `borrow_in` from the accumulator and writes the
/// flags.
pub fn sub_from_acc(cpu: &mut CPU, operand: u8, borrow_in: bool)
    ensures
        final(cpu)@ == after_sub(old(cpu)@, operand, borrow_in),
{
    let mut acc = cpu.acc();
    let res = subb(&mut acc, operand, borrow_in);
    cpu.set_acc(acc);
    cpu.set_flags(
        res.contains(ArithmeticOpFlags::CARRY),
        res.contains(ArithmeticOpFlags::AUXILIARY_CARRY),
        res.contains(ArithmeticOpFlags::OVERFLOW),
    );
}

/// The effect of `ADD A,#data`: adds the operand byte to the accumulator and
/// writes carry, auxiliary carry and overflow.
pub open spec fn step_add_a_const(
    s: State,
    op: u8,
    arg0: Option<u8>,
    arg1: Option<u8>,
) -> Outcome {
    match arg0 {
        Some(immediate) => {
            Outcome::advance(after_add(s, immediate, false))
        },
        None => Outcome::fail(s, ErrorType::InstructionArg0Missing),
    }
}

/// Executes `ADD A,#data`: adds the operand byte to the accumulator and writes
/// carry, auxiliary carry and overflow.
pub fn insn_add_a_const(
    cpu: &mut CPU,
    insn: Instruction,
    arg0: Option<u8>,
    arg1: Option<u8>,
) -> (r: Result<PC, RuntimeError>)
    ensures
        (Outcome { state: final(cpu)@, result: r }) == step_add_a_const(
            old(cpu)@,
            insn@,
            arg0,
            arg1,
        ),
{
    let immediate = first_operand(arg0)?;
    let operand = immediate;
    add_to_acc(cpu, operand, false);
    Ok(PC::ADVANCE)
}

/// The effect of `ADD A,direct`: adds the cell of internal data that the
/// operand byte names to the accumulator and writes carry, auxiliary carry and
/// overflow.
pub open spec fn step_add_a_addr(
    s: State,
    op: u8,
    arg0: Option<u8>,
    arg1: Option<u8>,
) -> Outcome {
    match arg0 {
        Some(direct) => {
            Outcome::advance(after_add(s, s.read(direct), false))
        },
        None => Outcome::fail(s, ErrorType::InstructionArg0Missing),
    }
}

/// Executes `ADD A,direct`: adds the cell of internal data that the operand
/// byte names to the accumulator and writes carry, auxiliary carry and
/// overflow.
pub fn insn_add_a_addr(
    cpu: &mut CPU,
    insn: Instruction,
    arg0: Option<u8>,
    arg1: Option<u8>,
) -> (r: Result<PC, RuntimeError>)
    ensures
        (Outcome { state: final(cpu)@, result: r }) == step_add_a_addr(
            old(cpu)@,
            insn@,
            arg0,
            arg1,
        ),
{
    let direct = first_operand(arg0)?;
    let operand = cpu.read(Addr8::new(direct));
    add_to_acc(cpu, operand, false);
    Ok(PC::ADVANCE)
}

/// The effect of `ADD A,Rn`: adds the register that the opcode selects to the
/// accumulator and writes carry, auxiliary carry and overflow.
pub open spec fn step_add_a_rn(s: State, op: u8, arg0: Option<u8>, arg1: Option<u8>) -> Outcome {
    Outcome::advance(after_add(s, s.reg(op % 8), false))
}

/// Executes `ADD A,Rn`: adds the register that the opcode selects to the
/// accumulator and writes carry, auxiliary carry and overflow.
pub fn insn_add_a_rn(
    cpu: &mut CPU,
    insn: Instruction,
    arg0: Option<u8>,
    arg1: Option<u8>,
) -> (r: Result<PC, RuntimeError>)
    ensures
        (Outcome { state: final(cpu)@, result: r }) == step_add_a_rn(old(cpu)@, insn@, arg0, arg1),
{
    let operand = cpu.get_gpr(GPR::select(insn.op()));
    add_to_acc(cpu, operand, false);
    Ok(PC::ADVANCE)
}

/// The effect of `ADD A,@Ri`: adds the cell of internal data that `R0` or `R1`,
/// as the opcode selects, points to to the accumulator and writes carry,
/// auxiliary carry and overflow.
pub open spec fn step_add_a_rn_indirect(
    s: State,
    op: u8,
    arg0: Option<u8>,
    arg1: Option<u8>,
) -> Outcome {
    Outcome::advance(after_add(s, s.read(s.reg(op % 2)), false))
}

/// Executes `ADD A,@Ri`: adds the cell of internal data that `R0` or `R1`, as
/// the opcode selects, points to to the accumulator and writes carry, auxiliary
/// carry and overflow.
pub fn insn_add_a_rn_indirect(
    cpu: &mut CPU,
    insn: Instruction,
    arg0: Option<u8>,
    arg1: Option<u8>,
) -> (r: Result<PC, RuntimeError>)
    ensures
        (Outcome { state: final(cpu)@, result: r }) == step_add_a_rn_indirect(
            old(cpu)@,
            insn@,
            arg0,
            arg1,
        ),
{
    let operand = cpu.read(Addr8::new(cpu.get_gpr(GPR::select(insn.op() % 2))));
    add_to_acc(cpu, operand, false);
    Ok(PC::ADVANCE)
}

/// The effect of `ADDC A,#data`: adds the operand byte and the carry flag to
/// the accumulator and writes carry, auxiliary carry and overflow.
pub open spec fn step_addc_a_const(
    s: State,
    op: u8,
    arg0: Option<u8>,
    arg1: Option<u8>,
) -> Outcome {
    match arg0 {
        Some(immediate) => {
            Outcome::advance(after_add(s, immediate, s.carry()))
        },
        None => Outcome::fail(s, ErrorType::InstructionArg0Missing),
    }
}

/// Executes `ADDC A,#data`: adds the operand byte and the carry flag to the
/// accumulator and writes carry, auxiliary carry and overflow.
pub fn insn_addc_a_const(
    cpu: &mut CPU,
    insn: Instruction,
    arg0: Option<u8>,
    arg1: Option<u8>,
) -> (r: Result<PC, RuntimeError>)
    ensures
        (Outcome { state: final(cpu)@, result: r }) == step_addc_a_const(
            old(cpu)@,
            insn@,
            arg0,
            arg1,
        ),
{
    let immediate = first_operand(arg0)?;
    let operand = immediate;
    let carry = cpu.carry();
    add_to_acc(cpu, operand, carry);
    Ok(PC::ADVANCE)
}

/// The effect of `ADDC A,direct`: adds the cell of internal data that the
/// operand byte names and the carry flag to the accumulator and writes carry,
/// auxiliary carry and overflow.
pub open spec fn step_addc_a_addr(
    s: State,
    op: u8,
    arg0: Option<u8>,
    arg1: Option<u8>,
) -> Outcome {
    match arg0 {
        Some(direct) => {
            Outcome::advance(after_add(s, s.read(direct), s.carry()))
        },
        None => Outcome::fail(s, ErrorType::InstructionArg0Missing),
    }
}

/// Executes `ADDC A,direct`: adds the cell of internal data that the operand
/// byte names and the carry flag to the accumulator and writes carry, auxiliary
/// carry and overflow.
pub fn insn_addc_a_addr(
    cpu: &mut CPU,
    insn: Instruction,
    arg0: Option<u8>,
    arg1: Option<u8>,
) -> (r: Result<PC, RuntimeError>)
    ensures
        (Outcome { state: final(cpu)@, result: r }) == step_addc_a_addr(
            old(cpu)@,
            insn@,
            arg0,
            arg1,
        ),
{
    let direct = first_operand(arg0)?;
    let operand = cpu.read(Addr8::new(direct));
    let carry = cpu.carry();
    add_to_acc(cpu, operand, carry);
    Ok(PC::ADVANCE)
}

/// The effect of `ADDC A,Rn`: adds the register that the opcode selects and the
/// carry flag to the accumulator and writes carry, auxiliary carry and
/// overflow.
pub open spec fn step_addc_a_rn(s: State, op: u8, arg0: Option<u8>, arg1: Option<u8>) -> Outcome {
    Outcome::advance(after_add(s, s.reg(op % 8), s.carry()))
}

/// Executes `ADDC A,Rn`: adds the register that the opcode selects and the
/// carry flag to the accumulator and writes carry, auxiliary carry and
/// overflow.
pub fn insn_addc_a_rn(
    cpu: &mut CPU,
    insn: Instruction,
    arg0: Option<u8>,
    arg1: Option<u8>,
) -> (r: Result<PC, RuntimeError>)
    ensures
        (Outcome { state: final(cpu)@, result: r }) == step_addc_a_rn(old(cpu)@, insn@, arg0, arg1),
{
    let operand = cpu.get_gpr(GPR::select(insn.op()));
    let carry = cpu.carry();
    add_to_acc(cpu, operand, carry);
    Ok(PC::ADVANCE)
}

/// The effect of `ADDC A,@Ri`: adds the cell of internal data that `R0` or
/// `R1`, as the opcode selects, points to and the carry flag to the accumulator
/// and writes carry, auxiliary carry and overflow.
pub open spec fn step_addc_a_rn_indirect(
    s: State,
    op: u8,
    arg0: Option<u8>,
    arg1: Option<u8>,
) -> Outcome {
    Outcome::advance(after_add(s, s.read(s.reg(op % 2)), s.carry()))
}

/// Executes `ADDC A,@Ri`: adds the cell of internal data that `R0` or `R1`, as
/// the opcode selects, points to and the carry flag to the accumulator and
/// writes carry, auxiliary carry and overflow.
pub fn insn_addc_a_rn_indirect(
    cpu: &mut CPU,
    insn: Instruction,
    arg0: Option<u8>,
    arg1: Option<u8>,
) -> (r: Result<PC, RuntimeError>)
    ensures
        (Outcome { state: final(cpu)@, result: r }) == step_addc_a_rn_indirect(
            old(cpu)@,
            insn@,
            arg0,
            arg1,
        ),
{
    let operand = cpu.read(Addr8::new(cpu.get_gpr(GPR::select(insn.op() % 2))));
    let carry = cpu.carry();
    add_to_acc(cpu, operand, carry);
    Ok(PC::ADVANCE)
}

/// The effect of `SUBB A,#data`: subtracts the operand byte and the carry flag
/// from the accumulator and writes carry, auxiliary carry and overflow.
pub open spec fn step_subb_a_const(
    s: State,
    op: u8,
    arg0: Option<u8>,
    arg1: Option<u8>,
) -> Outcome {
    match arg0 {
        Some(immediate) => {
            Outcome::advance(after_sub(s, immediate, s.carry()))
        },
        None => Outcome::fail(s, ErrorType::InstructionArg0Missing),
    }
}

/// Executes `SUBB A,#data`: subtracts the operand byte and the carry flag from
/// the accumulator and writes carry, auxiliary carry and overflow.
pub fn insn_subb_a_const(
    cpu: &mut CPU,
    insn: Instruction,
    arg0: Option<u8>,
    arg1: Option<u8>,
) -> (r: Result<PC, RuntimeError>)
    ensures
        (Outcome { state: final(cpu)@, result: r }) == step_subb_a_const(
            old(cpu)@,
            insn@,
            arg0,
            arg1,
        ),
{
    let immediate = first_operand(arg0)?;
    let operand = immediate;
    let borrow = cpu.carry();
    sub_from_acc(cpu, operand, borrow);
    Ok(PC::ADVANCE)
}

/// The effect of `SUBB A,direct`: subtracts the cell of internal data that the
/// operand byte names and the carry flag from the accumulator and writes carry,
/// auxiliary carry and overflow.
pub open spec fn step_subb_a_addr(
    s: State,
    op: u8,
    arg0: Option<u8>,
    arg1: Option<u8>,
) -> Outcome {
    match arg0 {
        Some(direct) => {
            Outcome::advance(after_sub(s, s.read(direct), s.carry()))
        },
        None => Outcome::fail(s, ErrorType::InstructionArg0Missing),
    }
}

/// Executes `SUBB A,direct`: subtracts the cell of internal data that the
/// operand byte names and the carry flag from the accumulator and writes carry,
/// auxiliary carry and overflow.
pub fn insn_subb_a_addr(
    cpu: &mut CPU,
    insn: Instruction,
    arg0: Option<u8>,
    arg1: Option<u8>,
) -> (r: Result<PC, RuntimeError>)
    ensures
        (Outcome { state: final(cpu)@, result: r }) == step_subb_a_addr(
            old(cpu)@,
            insn@,
            arg0,
            arg1,
        ),
{
    let direct = first_operand(arg0)?;
    let operand = cpu.read(Addr8::new(direct));
    let borrow = cpu.carry();
    sub_from_acc(cpu, operand, borrow);
    Ok(PC::ADVANCE)
}

/// The effect of `SUBB A,Rn`: subtracts the register that the opcode selects
/// and the carry flag from the accumulator and writes carry, auxiliary carry
/// and overflow.
pub open spec fn step_subb_a_rn(s: State, op: u8, arg0: Option<u8>, arg1: Option<u8>) -> Outcome {
    Outcome::advance(after_sub(s, s.reg(op % 8), s.carry()))
}

/// Executes `SUBB A,Rn`: subtracts the register that the opcode selects and the
/// carry flag from the accumulator and writes carry, auxiliary carry and
/// overflow.
pub fn insn_subb_a_rn(
    cpu: &mut CPU,
    insn: Instruction,
    arg0: Option<u8>,
    arg1: Option<u8>,
) -> (r: Result<PC, RuntimeError>)
    ensures
        (Outcome { state: final(cpu)@, result: r }) == step_subb_a_rn(old(cpu)@, insn@, arg0, arg1),
{
    let operand = cpu.get_gpr(GPR::select(insn.op()));
    let borrow = cpu.carry();
    sub_from_acc(cpu, operand, borrow);
    Ok(PC::ADVANCE)
}

/// The effect of `SUBB A,@Ri`: subtracts the cell of internal data that `R0` or
/// `R1`, as the opcode selects, points to and the carry flag from the
/// accumulator and writes carry, auxiliary carry and overflow.
pub open spec fn step_subb_a_rn_indirect(
    s: State,
    op: u8,
    arg0: Option<u8>,
    arg1: Option<u8>,
) -> Outcome {
    Outcome::advance(after_sub(s, s.read(s.reg(op % 2)), s.carry()))
}

/// Executes `SUBB A,@Ri`: subtracts the cell of internal data that `R0` or
/// `R1`, as the opcode selects, points to and the carry flag from the
/// accumulator and writes carry, auxiliary carry and overflow.
pub fn insn_subb_a_rn_indirect(
    cpu: &mut CPU,
    insn: Instruction,
    arg0: Option<u8>,
    arg1: Option<u8>,
) -> (r: Result<PC, RuntimeError>)
    ensures
        (Outcome { state: final(cpu)@, result: r }) == step_subb_a_rn_indirect(
            old(cpu)@,
            insn@,
            arg0,
            arg1,
        ),
{
    let operand = cpu.read(Addr8::new(cpu.get_gpr(GPR::select(insn.op() % 2))));
    let borrow = cpu.carry();
    sub_from_acc(cpu, operand, borrow);
    Ok(PC::ADVANCE)
}

/// The effect of `INC A`: increments the accumulator; 255 becomes 0. No flag
/// changes.
pub open spec fn step_inc_a(s: State, op: u8, arg0: Option<u8>, arg1: Option<u8>) -> Outcome {
    Outcome::advance(s.set_acc(incremented(s.acc())))
}

/// Executes `INC A`: increments the accumulator; 255 becomes 0. No flag
/// changes.
pub fn insn_inc_a(
    cpu: &mut CPU,
    insn: Instruction,
    arg0: Option<u8>,
    arg1: Option<u8>,
) -> (r: Result<PC, RuntimeError>)
    ensures
        (Outcome { state: final(cpu)@, result: r }) == step_inc_a(old(cpu)@, insn@, arg0, arg1),
{
    let acc = cpu.acc();
    cpu.set_acc(increment(acc));
    Ok(PC::ADVANCE)
}

/// The effect of `INC direct`: increments the cell of internal data that the
/// operand byte names; 255 becomes 0. No flag changes.
pub open spec fn step_inc_data(s: State, op: u8, arg0: Option<u8>, arg1: Option<u8>) -> Outcome {
    match arg0 {
        Some(direct) => {
            Outcome::advance(s.write(direct, incremented(s.read(direct))))
        },
        None => Outcome::fail(s, ErrorType::InstructionArg0Missing),
    }
}

/// Executes `INC direct`: increments the cell of internal data that the operand
/// byte names; 255 becomes 0. No flag changes.
pub fn insn_inc_data(
    cpu: &mut CPU,
    insn: Instruction,
    arg0: Option<u8>,
    arg1: Option<u8>,
) -> (r: Result<PC, RuntimeError>)
    ensures
        (Outcome { state: final(cpu)@, result: r }) == step_inc_data(old(cpu)@, insn@, arg0, arg1),
{
    let direct = first_operand(arg0)?;
    let addr = Addr8::new(direct);
    let data = cpu.read(addr);
    cpu.write(addr, increment(data));
    Ok(PC::ADVANCE)
}

/// The effect of `INC @Ri`: increments the cell of internal data that `R0` or
/// `R1`, as the opcode selects, points to; 255 becomes 0. No flag changes.
pub open spec fn step_inc_rn_indirect(
    s: State,
    op: u8,
    arg0: Option<u8>,
    arg1: Option<u8>,
) -> Outcome {
    Outcome::advance(s.write(s.reg(op % 2), incremented(s.read(s.reg(op % 2)))))
}

/// Executes `INC @Ri`: increments the cell of internal data that `R0` or `R1`,
/// as the opcode selects, points to; 255 becomes 0. No flag changes.
pub fn insn_inc_rn_indirect(
    cpu: &mut CPU,
    insn: Instruction,
    arg0: Option<u8>,
    arg1: Option<u8>,
) -> (r: Result<PC, RuntimeError>)
    ensures
        (Outcome { state: final(cpu)@, result: r }) == step_inc_rn_indirect(
            old(cpu)@,
            insn@,
            arg0,
            arg1,
        ),
{
    let addr = Addr8::new(cpu.get_gpr(GPR::select(insn.op() % 2)));
    let data = cpu.read(addr);
    cpu.write(addr, increment(data));
    Ok(PC::ADVANCE)
}

/// The effect of `INC Rn`: increments the register that the opcode selects; 255
/// becomes 0. No flag changes.
pub open spec fn step_inc_rn(s: State, op: u8, arg0: Option<u8>, arg1: Option<u8>) -> Outcome {
    Outcome::advance(s.set_reg(op % 8, incremented(s.reg(op % 8))))
}

/// Executes `INC Rn`: increments the register that the opcode selects; 255
/// becomes 0. No flag changes.
pub fn insn_inc_rn(
    cpu: &mut CPU,
    insn: Instruction,
    arg0: Option<u8>,
    arg1: Option<u8>,
) -> (r: Result<PC, RuntimeError>)
    ensures
        (Outcome { state: final(cpu)@, result: r }) == step_inc_rn(old(cpu)@, insn@, arg0, arg1),
{
    let reg = GPR::select(insn.op());
    let data = cpu.get_gpr(reg);
    cpu.set_gpr(reg, increment(data));
    Ok(PC::ADVANCE)
}

/// The effect of `DEC Rn`: decrements the register that the opcode selects; 0
/// becomes 255. No flag changes.
pub open spec fn step_dec_rn(s: State, op: u8, arg0: Option<u8>, arg1: Option<u8>) -> Outcome {
    Outcome::advance(s.set_reg(op % 8, decremented(s.reg(op % 8))))
}

/// Executes `DEC Rn`: decrements the register that the opcode selects; 0
/// becomes 255. No flag changes.
pub fn insn_dec_rn(
    cpu: &mut CPU,
    insn: Instruction,
    arg0: Option<u8>,
    arg1: Option<u8>,
) -> (r: Result<PC, RuntimeError>)
    ensures
        (Outcome { state: final(cpu)@, result: r }) == step_dec_rn(old(cpu)@, insn@, arg0, arg1),
{
    let reg = GPR::select(insn.op());
    let data = cpu.get_gpr(reg);
    cpu.set_gpr(reg, decrement(data));
    Ok(PC::ADVANCE)
}

/// The effect of `INC DPTR`: increments the data pointer, modulo the size of
/// the address space: the low register is written first, then the high
/// register.
pub open spec fn step_inc_dptr(s: State, op: u8, arg0: Option<u8>, arg1: Option<u8>) -> Outcome {
    let dptr = (s.dptr() + 1) % 0x10000;
    Outcome::advance(s.set_sfr(SFR::DPL, (dptr % 256) as u8).set_sfr(SFR::DPH, (dptr / 256) as u8))
}

/// Executes `INC DPTR`: increments the data pointer, modulo the size of the
/// address space: the low register is written first, then the high register.
pub fn insn_inc_dptr(
    cpu: &mut CPU,
    insn: Instruction,
    arg0: Option<u8>,
    arg1: Option<u8>,
) -> (r: Result<PC, RuntimeError>)
    ensures
        (Outcome { state: final(cpu)@, result: r }) == step_inc_dptr(old(cpu)@, insn@, arg0, arg1),
{
    let dptr: u32 = (cpu.dptr() as u32 + 1) % 0x10000;
    cpu.set_sfr(SFR::DPL, (dptr % 256) as u8);
    cpu.set_sfr(SFR::DPH, (dptr / 256) as u8);
    Ok(PC::ADVANCE)
}

} // verus!
