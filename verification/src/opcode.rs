//! The opcode table: a pure mapping from an instruction byte to its
//! operation, its length in bytes and its cycle costs.
use vstd::prelude::*;
use crate::reference::{
    lemma_decoder_matches_reference, reference_cycles, reference_cycles_taken, reference_size,
};

verus! {

/// One of the eight 8-bit operands an instruction can select with a 3-bit
/// field. `M` is the memory byte addressed by the H:L pair.
#[derive(Clone, Copy, Debug, PartialEq, Eq, Structural)]
pub enum Operand {
    B,
    C,
    D,
    E,
    H,
    L,
    M,
    A,
}

/// A 16-bit operand selected by a 2-bit field.
#[derive(Clone, Copy, Debug, PartialEq, Eq, Structural)]
pub enum Pair {
    BC,
    DE,
    HL,
    SP,
}

/// A 16-bit operand of PUSH and POP; `PSW` is the accumulator together with
/// the flag byte.
#[derive(Clone, Copy, Debug, PartialEq, Eq, Structural)]
pub enum StackPair {
    BC,
    DE,
    HL,
    PSW,
}

/// The condition tested by a conditional jump, call or return.
#[derive(Clone, Copy, Debug, PartialEq, Eq, Structural)]
pub enum Condition {
    NotZero,
    Zero,
    NoCarry,
    Carry,
    ParityOdd,
    ParityEven,
    Plus,
    Minus,
}

/// The eight accumulator operations of the arithmetic/logic group.
#[derive(Clone, Copy, Debug, PartialEq, Eq, Structural)]
pub enum AluOp {
    Add,
    Adc,
    Sub,
    Sbb,
    Ana,
    Xra,
    Ora,
    Compare,
}

/// The operation class of an instruction, with the operands that the opcode
/// byte itself encodes.
#[derive(Clone, Copy, Debug, PartialEq, Eq, Structural)]
pub enum Operation {
    Nop,
    Lxi(Pair),
    Stax(Pair),
    Ldax(Pair),
    Shld,
    Lhld,
    Sta,
    Lda,
    Inx(Pair),
    Dcx(Pair),
    Dad(Pair),
    Inr(Operand),
    Dcr(Operand),
    Mvi(Operand),
    Rlc,
    Rrc,
    Ral,
    Rar,
    Daa,
    Cma,
    Stc,
    Cmc,
    Mov(Operand, Operand),
    Hlt,
    Alu(AluOp, Operand),
    AluImmediate(AluOp),
    ReturnIf(Condition),
    Return,
    Pop(StackPair),
    Push(StackPair),
    JumpIf(Condition),
    Jump,
    CallIf(Condition),
    Call,
    Rst(u8),
    Out,
    In,
    Xthl,
    Pchl,
    Xchg,
    Sphl,
    Di,
    Ei,
}

/// The instruction families, by what they act on.
#[derive(Clone, Copy, Debug, PartialEq, Eq, Structural)]
pub enum Family {
    /// Copies between registers and memory.
    DataTransfer,
    /// 8-bit arithmetic and logic, and arithmetic on pairs.
    Arithmetic,
    /// Rotates and the other operations on the accumulator and Carry alone.
    Accumulator,
    /// Stack operations, jumps, calls and returns.
    Control,
    /// Ports, the interrupt latch, halting and doing nothing.
    System,
}

/// The family of an operation.
pub open spec fn family_of(op: Operation) -> Family {
    match op {
        Operation::Mov(_, _)
        | Operation::Mvi(_)
        | Operation::Lxi(_)
        | Operation::Sta
        | Operation::Lda
        | Operation::Stax(_)
        | Operation::Ldax(_)
        | Operation::Shld
        | Operation::Lhld
        | Operation::Xchg => Family::DataTransfer,
        Operation::Alu(_, _)
        | Operation::AluImmediate(_)
        | Operation::Inr(_)
        | Operation::Dcr(_)
        | Operation::Inx(_)
        | Operation::Dcx(_)
        | Operation::Dad(_) => Family::Arithmetic,
        Operation::Rlc
        | Operation::Rrc
        | Operation::Ral
        | Operation::Rar
        | Operation::Cma
        | Operation::Stc
        | Operation::Cmc
        | Operation::Daa => Family::Accumulator,
        Operation::Push(_)
        | Operation::Pop(_)
        | Operation::Call
        | Operation::CallIf(_)
        | Operation::Return
        | Operation::ReturnIf(_)
        | Operation::Jump
        | Operation::JumpIf(_)
        | Operation::Rst(_)
        | Operation::Pchl
        | Operation::Sphl
        | Operation::Xthl => Family::Control,
        Operation::In
        | Operation::Out
        | Operation::Ei
        | Operation::Di
        | Operation::Hlt
        | Operation::Nop => Family::System,
    }
}

impl Operation {
    /// The family that the operation belongs to.
    pub fn family(&self) -> (f: Family)
        ensures
            f == family_of(*self),
    {
        match self {
            Operation::Mov(_, _)
            | Operation::Mvi(_)
            | Operation::Lxi(_)
            | Operation::Sta
            | Operation::Lda
            | Operation::Stax(_)
            | Operation::Ldax(_)
            | Operation::Shld
            | Operation::Lhld
            | Operation::Xchg => Family::DataTransfer,
            Operation::Alu(_, _)
            | Operation::AluImmediate(_)
            | Operation::Inr(_)
            | Operation::Dcr(_)
            | Operation::Inx(_)
            | Operation::Dcx(_)
            | Operation::Dad(_) => Family::Arithmetic,
            Operation::Rlc
            | Operation::Rrc
            | Operation::Ral
            | Operation::Rar
            | Operation::Cma
            | Operation::Stc
            | Operation::Cmc
            | Operation::Daa => Family::Accumulator,
            Operation::Push(_)
            | Operation::Pop(_)
            | Operation::Call
            | Operation::CallIf(_)
            | Operation::Return
            | Operation::ReturnIf(_)
            | Operation::Jump
            | Operation::JumpIf(_)
            | Operation::Rst(_)
            | Operation::Pchl
            | Operation::Sphl
            | Operation::Xthl => Family::Control,
            Operation::In
            | Operation::Out
            | Operation::Ei
            | Operation::Di
            | Operation::Hlt
            | Operation::Nop => Family::System,
        }
    }

    /// Length of the instruction in bytes.
    pub fn size(&self) -> (n: u8)
        ensures
            n == size_of(*self),
            1 <= n <= 3,
    {
        match self {
            Operation::Lxi(_)
            | Operation::Shld
            | Operation::Lhld
            | Operation::Sta
            | Operation::Lda
            | Operation::JumpIf(_)
            | Operation::Jump
            | Operation::CallIf(_)
            | Operation::Call => 3,
            Operation::Mvi(_) | Operation::AluImmediate(_) | Operation::Out | Operation::In => 2,
            _ => 1,
        }
    }

    /// Cycle cost when no condition is satisfied.
    pub fn cycles(&self) -> (n: u8)
        ensures
            n == cycles_of(*self),
    {
        match self {
            Operation::Nop => 4,
            Operation::Lxi(_) => 10,
            Operation::Stax(_) | Operation::Ldax(_) => 7,
            Operation::Shld | Operation::Lhld => 16,
            Operation::Sta | Operation::Lda => 13,
            Operation::Inx(_) | Operation::Dcx(_) => 5,
            Operation::Dad(_) => 10,
            Operation::Inr(r) | Operation::Dcr(r) => match r {
                Operand::M => 10,
                _ => 5,
            },
            Operation::Mvi(r) => match r {
                Operand::M => 10,
                _ => 7,
            },
            Operation::Rlc
            | Operation::Rrc
            | Operation::Ral
            | Operation::Rar
            | Operation::Daa
            | Operation::Cma
            | Operation::Stc
            | Operation::Cmc => 4,
            Operation::Mov(dst, src) => match (dst, src) {
                (Operand::M, _) | (_, Operand::M) => 7,
                _ => 5,
            },
            Operation::Hlt => 7,
            Operation::Alu(_, r) => match r {
                Operand::M => 7,
                _ => 4,
            },
            Operation::AluImmediate(_) => 7,
            Operation::ReturnIf(_) => 5,
            Operation::Return => 10,
            Operation::Pop(_) => 10,
            Operation::Push(_) => 11,
            Operation::JumpIf(_) | Operation::Jump => 10,
            Operation::CallIf(_) => 11,
            Operation::Call => 17,
            Operation::Rst(_) => 11,
            Operation::Out | Operation::In => 10,
            Operation::Xthl => 18,
            Operation::Pchl | Operation::Sphl => 5,
            Operation::Xchg | Operation::Di | Operation::Ei => 4,
        }
    }

    /// Cycle cost when the instruction's condition is satisfied.
    pub fn cycles_taken(&self) -> (n: u8)
        ensures
            n == cycles_taken_of(*self),
    {
        match self {
            Operation::ReturnIf(_) => 11,
            Operation::CallIf(_) => 17,
            _ => self.cycles(),
        }
    }
}

/// The operand selected by a 3-bit field.
pub open spec fn operand_of(field: int) -> Operand {
    if field == 0 {
        Operand::B
    } else if field == 1 {
        Operand::C
    } else if field == 2 {
        Operand::D
    } else if field == 3 {
        Operand::E
    } else if field == 4 {
        Operand::H
    } else if field == 5 {
        Operand::L
    } else if field == 6 {
        Operand::M
    } else {
        Operand::A
    }
}

/// The register pair selected by a 2-bit field.
pub open spec fn pair_of(field: int) -> Pair {
    if field == 0 {
        Pair::BC
    } else if field == 1 {
        Pair::DE
    } else if field == 2 {
        Pair::HL
    } else {
        Pair::SP
    }
}

/// The PUSH/POP operand selected by a 2-bit field.
pub open spec fn stack_pair_of(field: int) -> StackPair {
    if field == 0 {
        StackPair::BC
    } else if field == 1 {
        StackPair::DE
    } else if field == 2 {
        StackPair::HL
    } else {
        StackPair::PSW
    }
}

/// The condition selected by a 3-bit field.
pub open spec fn condition_of(field: int) -> Condition {
    if field == 0 {
        Condition::NotZero
    } else if field == 1 {
        Condition::Zero
    } else if field == 2 {
        Condition::NoCarry
    } else if field == 3 {
        Condition::Carry
    } else if field == 4 {
        Condition::ParityOdd
    } else if field == 5 {
        Condition::ParityEven
    } else if field == 6 {
        Condition::Plus
    } else {
        Condition::Minus
    }
}

/// The accumulator operation selected by a 3-bit field.
pub open spec fn alu_of(field: int) -> AluOp {
    if field == 0 {
        AluOp::Add
    } else if field == 1 {
        AluOp::Adc
    } else if field == 2 {
        AluOp::Sub
    } else if field == 3 {
        AluOp::Sbb
    } else if field == 4 {
        AluOp::Ana
    } else if field == 5 {
        AluOp::Xra
    } else if field == 6 {
        AluOp::Ora
    } else {
        AluOp::Compare
    }
}

/// Operations of the first quadrant (`0x00..=0x3f`), by the two 3-bit fields.
pub open spec fn decode_low(mid: int, low: int) -> Operation {
    if low == 0 {
        Operation::Nop
    } else if low == 1 {
        if mid % 2 == 0 {
            Operation::Lxi(pair_of(mid / 2))
        } else {
            Operation::Dad(pair_of(mid / 2))
        }
    } else if low == 2 {
        if mid == 0 {
            Operation::Stax(Pair::BC)
        } else if mid == 1 {
            Operation::Ldax(Pair::BC)
        } else if mid == 2 {
            Operation::Stax(Pair::DE)
        } else if mid == 3 {
            Operation::Ldax(Pair::DE)
        } else if mid == 4 {
            Operation::Shld
        } else if mid == 5 {
            Operation::Lhld
        } else if mid == 6 {
            Operation::Sta
        } else {
            Operation::Lda
        }
    } else if low == 3 {
        if mid % 2 == 0 {
            Operation::Inx(pair_of(mid / 2))
        } else {
            Operation::Dcx(pair_of(mid / 2))
        }
    } else if low == 4 {
        Operation::Inr(operand_of(mid))
    } else if low == 5 {
        Operation::Dcr(operand_of(mid))
    } else if low == 6 {
        Operation::Mvi(operand_of(mid))
    } else if mid == 0 {
        Operation::Rlc
    } else if mid == 1 {
        Operation::Rrc
    } else if mid == 2 {
        Operation::Ral
    } else if mid == 3 {
        Operation::Rar
    } else if mid == 4 {
        Operation::Daa
    } else if mid == 5 {
        Operation::Cma
    } else if mid == 6 {
        Operation::Stc
    } else {
        Operation::Cmc
    }
}

/// Operations of the last quadrant (`0xc0..=0xff`), by the two 3-bit fields.
/// The undocumented codes decode to the documented operation they duplicate.
pub open spec fn decode_high(mid: int, low: int) -> Operation {
    if low == 0 {
        Operation::ReturnIf(condition_of(mid))
    } else if low == 1 {
        if mid % 2 == 0 {
            Operation::Pop(stack_pair_of(mid / 2))
        } else if mid == 5 {
            Operation::Pchl
        } else if mid == 7 {
            Operation::Sphl
        } else {
            Operation::Return
        }
    } else if low == 2 {
        Operation::JumpIf(condition_of(mid))
    } else if low == 3 {
        if mid <= 1 {
            Operation::Jump
        } else if mid == 2 {
            Operation::Out
        } else if mid == 3 {
            Operation::In
        } else if mid == 4 {
            Operation::Xthl
        } else if mid == 5 {
            Operation::Xchg
        } else if mid == 6 {
            Operation::Di
        } else {
            Operation::Ei
        }
    } else if low == 4 {
        Operation::CallIf(condition_of(mid))
    } else if low == 5 {
        if mid % 2 == 0 {
            Operation::Push(stack_pair_of(mid / 2))
        } else {
            Operation::Call
        }
    } else if low == 6 {
        Operation::AluImmediate(alu_of(mid))
    } else {
        Operation::Rst(mid as u8)
    }
}

/// The operation that an opcode byte stands for.
#[verifier::opaque]
pub open spec fn decode(code: u8) -> Operation {
    let quadrant = code as int / 64;
    let mid = (code as int / 8) % 8;
    let low = code as int % 8;
    if quadrant == 0 {
        decode_low(mid, low)
    } else if quadrant == 1 {
        if code == 0x76 {
            Operation::Hlt
        } else {
            Operation::Mov(operand_of(mid), operand_of(low))
        }
    } else if quadrant == 2 {
        Operation::Alu(alu_of(mid), operand_of(low))
    } else {
        decode_high(mid, low)
    }
}

/// Length of an instruction in bytes: the opcode plus its immediate operand.
pub open spec fn size_of(op: Operation) -> int {
    match op {
        Operation::Lxi(_)
        | Operation::Shld
        | Operation::Lhld
        | Operation::Sta
        | Operation::Lda
        | Operation::JumpIf(_)
        | Operation::Jump
        | Operation::CallIf(_)
        | Operation::Call => 3,
        Operation::Mvi(_) | Operation::AluImmediate(_) | Operation::Out | Operation::In => 2,
        _ => 1,
    }
}

/// Cycle cost of an instruction when no condition is satisfied.
pub open spec fn cycles_of(op: Operation) -> int {
    match op {
        Operation::Nop => 4,
        Operation::Lxi(_) => 10,
        Operation::Stax(_) | Operation::Ldax(_) => 7,
        Operation::Shld | Operation::Lhld => 16,
        Operation::Sta | Operation::Lda => 13,
        Operation::Inx(_) | Operation::Dcx(_) => 5,
        Operation::Dad(_) => 10,
        Operation::Inr(r) | Operation::Dcr(r) => if r == Operand::M {
            10
        } else {
            5
        },
        Operation::Mvi(r) => if r == Operand::M {
            10
        } else {
            7
        },
        Operation::Rlc
        | Operation::Rrc
        | Operation::Ral
        | Operation::Rar
        | Operation::Daa
        | Operation::Cma
        | Operation::Stc
        | Operation::Cmc => 4,
        Operation::Mov(dst, src) => if dst == Operand::M || src == Operand::M {
            7
        } else {
            5
        },
        Operation::Hlt => 7,
        Operation::Alu(_, r) => if r == Operand::M {
            7
        } else {
            4
        },
        Operation::AluImmediate(_) => 7,
        Operation::ReturnIf(_) => 5,
        Operation::Return => 10,
        Operation::Pop(_) => 10,
        Operation::Push(_) => 11,
        Operation::JumpIf(_) | Operation::Jump => 10,
        Operation::CallIf(_) => 11,
        Operation::Call => 17,
        Operation::Rst(_) => 11,
        Operation::Out | Operation::In => 10,
        Operation::Xthl => 18,
        Operation::Pchl | Operation::Sphl => 5,
        Operation::Xchg | Operation::Di | Operation::Ei => 4,
    }
}

/// Cycle cost of an instruction whose condition is satisfied. Only conditional
/// calls and returns cost more than their base cost.
pub open spec fn cycles_taken_of(op: Operation) -> int {
    match op {
        Operation::ReturnIf(_) => 11,
        Operation::CallIf(_) => 17,
        _ => cycles_of(op),
    }
}

/// Executable form of [`operand_of`].
pub fn operand_from(field: u8) -> (r: Operand)
    requires
        field < 8,
    ensures
        r == operand_of(field as int),
{
    match field {
        0 => Operand::B,
        1 => Operand::C,
        2 => Operand::D,
        3 => Operand::E,
        4 => Operand::H,
        5 => Operand::L,
        6 => Operand::M,
        _ => Operand::A,
    }
}

/// Executable form of [`pair_of`].
pub fn pair_from(field: u8) -> (r: Pair)
    requires
        field < 4,
    ensures
        r == pair_of(field as int),
{
    match field {
        0 => Pair::BC,
        1 => Pair::DE,
        2 => Pair::HL,
        _ => Pair::SP,
    }
}

/// Executable form of [`stack_pair_of`].
pub fn stack_pair_from(field: u8) -> (r: StackPair)
    requires
        field < 4,
    ensures
        r == stack_pair_of(field as int),
{
    match field {
        0 => StackPair::BC,
        1 => StackPair::DE,
        2 => StackPair::HL,
        _ => StackPair::PSW,
    }
}

/// Executable form of [`condition_of`].
pub fn condition_from(field: u8) -> (r: Condition)
    requires
        field < 8,
    ensures
        r == condition_of(field as int),
{
    match field {
        0 => Condition::NotZero,
        1 => Condition::Zero,
        2 => Condition::NoCarry,
        3 => Condition::Carry,
        4 => Condition::ParityOdd,
        5 => Condition::ParityEven,
        6 => Condition::Plus,
        _ => Condition::Minus,
    }
}

/// Executable form of [`alu_of`].
pub fn alu_from(field: u8) -> (r: AluOp)
    requires
        field < 8,
    ensures
        r == alu_of(field as int),
{
    match field {
        0 => AluOp::Add,
        1 => AluOp::Adc,
        2 => AluOp::Sub,
        3 => AluOp::Sbb,
        4 => AluOp::Ana,
        5 => AluOp::Xra,
        6 => AluOp::Ora,
        _ => AluOp::Compare,
    }
}

fn operation_low(mid: u8, low: u8) -> (op: Operation)
    requires
        mid < 8,
        low < 8,
    ensures
        op == decode_low(mid as int, low as int),
{
    match low {
        0 => Operation::Nop,
        1 => if mid % 2 == 0 {
            Operation::Lxi(pair_from(mid / 2))
        } else {
            Operation::Dad(pair_from(mid / 2))
        },
        2 => match mid {
            0 => Operation::Stax(Pair::BC),
            1 => Operation::Ldax(Pair::BC),
            2 => Operation::Stax(Pair::DE),
            3 => Operation::Ldax(Pair::DE),
            4 => Operation::Shld,
            5 => Operation::Lhld,
            6 => Operation::Sta,
            _ => Operation::Lda,
        },
        3 => if mid % 2 == 0 {
            Operation::Inx(pair_from(mid / 2))
        } else {
            Operation::Dcx(pair_from(mid / 2))
        },
        4 => Operation::Inr(operand_from(mid)),
        5 => Operation::Dcr(operand_from(mid)),
        6 => Operation::Mvi(operand_from(mid)),
        _ => match mid {
            0 => Operation::Rlc,
            1 => Operation::Rrc,
            2 => Operation::Ral,
            3 => Operation::Rar,
            4 => Operation::Daa,
            5 => Operation::Cma,
            6 => Operation::Stc,
            _ => Operation::Cmc,
        },
    }
}

fn operation_high(mid: u8, low: u8) -> (op: Operation)
    requires
        mid < 8,
        low < 8,
    ensures
        op == decode_high(mid as int, low as int),
{
    match low {
        0 => Operation::ReturnIf(condition_from(mid)),
        1 => if mid % 2 == 0 {
            Operation::Pop(stack_pair_from(mid / 2))
        } else if mid == 5 {
            Operation::Pchl
        } else if mid == 7 {
            Operation::Sphl
        } else {
            Operation::Return
        },
        2 => Operation::JumpIf(condition_from(mid)),
        3 => match mid {
            0 | 1 => Operation::Jump,
            2 => Operation::Out,
            3 => Operation::In,
            4 => Operation::Xthl,
            5 => Operation::Xchg,
            6 => Operation::Di,
            _ => Operation::Ei,
        },
        4 => Operation::CallIf(condition_from(mid)),
        5 => if mid % 2 == 0 {
            Operation::Push(stack_pair_from(mid / 2))
        } else {
            Operation::Call
        },
        6 => Operation::AluImmediate(alu_from(mid)),
        _ => Operation::Rst(mid),
    }
}

/// An instruction byte, seen as an entry of the opcode table.
#[derive(Clone, Copy, Debug, PartialEq, Eq, Structural)]
pub struct Opcode {
    pub code: u8,
}

impl From<u8> for Opcode {
    fn from(code: u8) -> (opcode: Opcode) {
        Opcode { code }
    }
}

impl vstd::std_specs::convert::FromSpecImpl<u8> for Opcode {
    open spec fn obeys_from_spec() -> bool {
        true
    }

    open spec fn from_spec(code: u8) -> Opcode {
        Opcode { code }
    }
}

impl Opcode {
    /// The table entry for `code`. Every byte has one.
    pub fn from_byte(code: u8) -> (opcode: Opcode)
        ensures
            opcode.code == code,
    {
        Opcode { code }
    }

    /// The operation class and encoded operands.
    pub fn operation(&self) -> (op: Operation)
        ensures
            op == decode(self.code),
    {
        proof {
            reveal(decode);
        }
        let code: u8 = self.code;
        let mid: u8 = (code / 8) % 8;
        let low: u8 = code % 8;
        match code / 64 {
            0 => operation_low(mid, low),
            1 => if code == 0x76 {
                Operation::Hlt
            } else {
                Operation::Mov(operand_from(mid), operand_from(low))
            },
            2 => Operation::Alu(alu_from(mid), operand_from(low)),
            _ => operation_high(mid, low),
        }
    }

    /// Length of the instruction in bytes, as the published table gives it.
    pub fn size(&self) -> (n: u8)
        ensures
            n == size_of(decode(self.code)),
            n == reference_size(self.code),
            1 <= n <= 3,
    {
        proof {
            lemma_decoder_matches_reference(self.code);
        }
        self.operation().size()
    }

    /// Cycle cost when no condition is satisfied, as the published table
    /// gives it.
    pub fn cycle_size(&self) -> (n: u8)
        ensures
            n == cycles_of(decode(self.code)),
            n == reference_cycles(self.code),
    {
        proof {
            lemma_decoder_matches_reference(self.code);
        }
        self.operation().cycles()
    }

    /// Cycle cost when the instruction's condition is satisfied, as the
    /// published table gives it.
    pub fn cycle_size_taken(&self) -> (n: u8)
        ensures
            n == cycles_taken_of(decode(self.code)),
            n == reference_cycles_taken(self.code),
    {
        proof {
            lemma_decoder_matches_reference(self.code);
        }
        self.operation().cycles_taken()
    }
}

} // verus!
