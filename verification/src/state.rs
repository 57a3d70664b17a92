//! The mathematical model of the processor: its state and the transition
//! that one instruction performs.
use vstd::prelude::*;
use crate::flags::{
    alu, decimal_adjust, decrement, flags_byte, flags_from_byte, holds, increment, rotate_left,
    rotate_left_through, rotate_right, rotate_right_through, ConditionCodes,
};
use crate::memory::store;
use crate::opcode::{
    cycles_of, cycles_taken_of, decode, size_of, Operand, Operation, Pair, StackPair,
};

verus! {

/// The 16-bit value `high:low`.
pub open spec fn word(high: u8, low: u8) -> u16 {
    (high as int * 256 + low as int) as u16
}

/// The upper eight bits of a 16-bit value.
pub open spec fn high_byte(w: u16) -> u8 {
    (w / 256) as u8
}

/// The lower eight bits of a 16-bit value.
pub open spec fn low_byte(w: u16) -> u8 {
    (w % 256) as u8
}

/// The address `n` places after `w` (before it, for a negative `n`), wrapping
/// around the ends of the address space.
pub open spec fn offset(w: u16, n: int) -> u16 {
    ((w as int + n) % 0x10000) as u16
}

/// Everything the processor holds: registers, pointers, flags, the interrupt
/// enable and halt latches, and the address space.
pub struct CpuState {
    pub a: u8,
    pub b: u8,
    pub c: u8,
    pub d: u8,
    pub e: u8,
    pub h: u8,
    pub l: u8,
    pub sp: u16,
    pub pc: u16,
    pub memory: Seq<u8>,
    pub ram_mirror: Option<u16>,
    pub conditions: ConditionCodes,
    pub int_enable: bool,
    pub halted: bool,
}

/// What an instruction asks of the host's ports.
#[derive(Clone, Copy, Debug, PartialEq, Eq, Structural)]
pub enum IoRequest {
    /// The instruction touches no port.
    Idle,
    /// A byte is to be read from the port.
    Read(u8),
    /// The second byte is to be written to the port.
    Write(u8, u8),
}

impl CpuState {
    /// The H:L pair, which addresses the memory operand.
    pub open spec fn hl(self) -> u16 {
        word(self.h, self.l)
    }

    /// The byte at `address`.
    pub open spec fn byte_at(self, address: u16) -> u8 {
        self.memory[address as int]
    }

    /// The state after a store, which the address space may drop.
    pub open spec fn with_byte(self, address: u16, value: u8) -> CpuState {
        CpuState { memory: store(self.memory, self.ram_mirror, address, value), ..self }
    }

    /// The value of an 8-bit operand.
    pub open spec fn operand(self, r: Operand) -> u8 {
        match r {
            Operand::B => self.b,
            Operand::C => self.c,
            Operand::D => self.d,
            Operand::E => self.e,
            Operand::H => self.h,
            Operand::L => self.l,
            Operand::M => self.byte_at(self.hl()),
            Operand::A => self.a,
        }
    }

    /// The state after `value` has been written to an 8-bit operand.
    pub open spec fn with_operand(self, r: Operand, value: u8) -> CpuState {
        match r {
            Operand::B => CpuState { b: value, ..self },
            Operand::C => CpuState { c: value, ..self },
            Operand::D => CpuState { d: value, ..self },
            Operand::E => CpuState { e: value, ..self },
            Operand::H => CpuState { h: value, ..self },
            Operand::L => CpuState { l: value, ..self },
            Operand::M => self.with_byte(self.hl(), value),
            Operand::A => CpuState { a: value, ..self },
        }
    }

    /// The value of a 16-bit operand.
    pub open spec fn pair(self, p: Pair) -> u16 {
        match p {
            Pair::BC => word(self.b, self.c),
            Pair::DE => word(self.d, self.e),
            Pair::HL => word(self.h, self.l),
            Pair::SP => self.sp,
        }
    }

    /// The state after `value` has been written to a 16-bit operand.
    pub open spec fn with_pair(self, p: Pair, value: u16) -> CpuState {
        match p {
            Pair::BC => CpuState { b: high_byte(value), c: low_byte(value), ..self },
            Pair::DE => CpuState { d: high_byte(value), e: low_byte(value), ..self },
            Pair::HL => CpuState { h: high_byte(value), l: low_byte(value), ..self },
            Pair::SP => CpuState { sp: value, ..self },
        }
    }

    /// The value that PUSH stores for a pair.
    pub open spec fn stack_pair(self, q: StackPair) -> u16 {
        match q {
            StackPair::BC => word(self.b, self.c),
            StackPair::DE => word(self.d, self.e),
            StackPair::HL => word(self.h, self.l),
            StackPair::PSW => word(self.a, flags_byte(self.conditions)),
        }
    }

    /// The state after POP has delivered `value` to a pair.
    pub open spec fn with_stack_pair(self, q: StackPair, value: u16) -> CpuState {
        match q {
            StackPair::BC => CpuState { b: high_byte(value), c: low_byte(value), ..self },
            StackPair::DE => CpuState { d: high_byte(value), e: low_byte(value), ..self },
            StackPair::HL => CpuState { h: high_byte(value), l: low_byte(value), ..self },
            StackPair::PSW => CpuState {
                a: high_byte(value),
                conditions: flags_from_byte(low_byte(value)),
                ..self
            },
        }
    }

    /// The byte that follows the opcode.
    pub open spec fn immediate8(self) -> u8 {
        self.byte_at(offset(self.pc, 1))
    }

    /// The little-endian word that follows the opcode.
    pub open spec fn immediate16(self) -> u16 {
        word(self.byte_at(offset(self.pc, 2)), self.byte_at(offset(self.pc, 1)))
    }

    /// The word on top of the stack: low byte at the stack pointer, high byte
    /// above it.
    pub open spec fn top_word(self) -> u16 {
        word(self.byte_at(offset(self.sp, 1)), self.byte_at(self.sp))
    }

    /// The state after a word has been taken off the stack.
    pub open spec fn popped(self) -> CpuState {
        CpuState { sp: offset(self.sp, 2), ..self }
    }

    /// The state after `value` has been pushed: the stack pointer goes down by
    /// two, the high byte is stored first, just below the old top, then the
    /// low byte at the new top.
    pub open spec fn pushed(self, value: u16) -> CpuState {
        CpuState { sp: offset(self.sp, -2), ..self }.with_byte(
            offset(self.sp, -1),
            high_byte(value),
        ).with_byte(offset(self.sp, -2), low_byte(value))
    }

    /// The state with Carry replaced.
    pub open spec fn with_carry(self, carry: bool) -> CpuState {
        CpuState { conditions: ConditionCodes { carry, ..self.conditions }, ..self }
    }

    /// The state with a new accumulator and new flags.
    pub open spec fn with_result(self, r: (u8, ConditionCodes)) -> CpuState {
        CpuState { a: r.0, conditions: r.1, ..self }
    }

    /// The state with a rotated accumulator and the Carry that the rotation
    /// produced.
    pub open spec fn with_rotation(self, r: (u8, bool)) -> CpuState {
        CpuState { a: r.0, ..self }.with_carry(r.1)
    }
}

/// What an operation does to everything but the program pointer. `input` is
/// the byte that the host's port delivers to IN; no other operation reads it.
#[verifier::opaque]
pub open spec fn effect(s: CpuState, op: Operation, input: u8) -> CpuState {
    match op {
        Operation::Nop
        | Operation::Jump
        | Operation::JumpIf(_)
        | Operation::Pchl
        | Operation::Out => s,
        Operation::Lxi(p) => s.with_pair(p, s.immediate16()),
        Operation::Stax(p) => s.with_byte(s.pair(p), s.a),
        Operation::Ldax(p) => CpuState { a: s.byte_at(s.pair(p)), ..s },
        Operation::Shld => s.with_byte(s.immediate16(), s.l).with_byte(
            offset(s.immediate16(), 1),
            s.h,
        ),
        Operation::Lhld => CpuState {
            l: s.byte_at(s.immediate16()),
            h: s.byte_at(offset(s.immediate16(), 1)),
            ..s
        },
        Operation::Sta => s.with_byte(s.immediate16(), s.a),
        Operation::Lda => CpuState { a: s.byte_at(s.immediate16()), ..s },
        Operation::Inx(p) => s.with_pair(p, offset(s.pair(p), 1)),
        Operation::Dcx(p) => s.with_pair(p, offset(s.pair(p), -1)),
        Operation::Dad(p) => s.with_carry(s.hl() + s.pair(p) > 0xffff).with_pair(
            Pair::HL,
            offset(s.hl(), s.pair(p) as int),
        ),
        Operation::Inr(r) => {
            let (value, flags) = increment(s.operand(r), s.conditions);
            CpuState { conditions: flags, ..s }.with_operand(r, value)
        },
        Operation::Dcr(r) => {
            let (value, flags) = decrement(s.operand(r), s.conditions);
            CpuState { conditions: flags, ..s }.with_operand(r, value)
        },
        Operation::Mvi(r) => s.with_operand(r, s.immediate8()),
        Operation::Rlc => s.with_rotation(rotate_left(s.a)),
        Operation::Rrc => s.with_rotation(rotate_right(s.a)),
        Operation::Ral => s.with_rotation(rotate_left_through(s.a, s.conditions.carry)),
        Operation::Rar => s.with_rotation(rotate_right_through(s.a, s.conditions.carry)),
        Operation::Daa => s.with_result(decimal_adjust(s.a, s.conditions)),
        Operation::Cma => CpuState { a: (255 - s.a) as u8, ..s },
        Operation::Stc => s.with_carry(true),
        Operation::Cmc => s.with_carry(!s.conditions.carry),
        Operation::Mov(dst, src) => s.with_operand(dst, s.operand(src)),
        Operation::Hlt => CpuState { halted: true, ..s },
        Operation::Alu(o, r) => s.with_result(alu(o, s.a, s.operand(r), s.conditions)),
        Operation::AluImmediate(o) => s.with_result(alu(o, s.a, s.immediate8(), s.conditions)),
        Operation::ReturnIf(c) => if holds(c, s.conditions) {
            s.popped()
        } else {
            s
        },
        Operation::Return => s.popped(),
        Operation::Pop(q) => s.popped().with_stack_pair(q, s.top_word()),
        Operation::Push(q) => s.pushed(s.stack_pair(q)),
        Operation::CallIf(c) => if holds(c, s.conditions) {
            s.pushed(offset(s.pc, 3))
        } else {
            s
        },
        Operation::Call => s.pushed(offset(s.pc, 3)),
        Operation::Rst(_) => s.pushed(offset(s.pc, 1)),
        Operation::In => CpuState { a: input, ..s },
        Operation::Xthl => CpuState {
            l: s.byte_at(s.sp),
            h: s.byte_at(offset(s.sp, 1)),
            ..s
        }.with_byte(s.sp, s.l).with_byte(offset(s.sp, 1), s.h),
        Operation::Xchg => CpuState { d: s.h, e: s.l, h: s.d, l: s.e, ..s },
        Operation::Sphl => CpuState { sp: s.hl(), ..s },
        Operation::Di => CpuState { int_enable: false, ..s },
        Operation::Ei => CpuState { int_enable: true, ..s },
    }
}

/// Whether an operation is a conditional transfer whose condition is met.
pub open spec fn taken(s: CpuState, op: Operation) -> bool {
    match op {
        Operation::JumpIf(c) | Operation::CallIf(c) | Operation::ReturnIf(c) => holds(
            c,
            s.conditions,
        ),
        _ => false,
    }
}

/// Where the program pointer stands after an operation, judged from the state
/// before it. Transfers go to their target; HLT stays on its own address;
/// everything else, an untaken conditional transfer included, goes on to the
/// next instruction.
pub open spec fn next_pc(s: CpuState, op: Operation) -> u16 {
    match op {
        Operation::Jump | Operation::Call => s.immediate16(),
        Operation::JumpIf(_) | Operation::CallIf(_) => if taken(s, op) {
            s.immediate16()
        } else {
            offset(s.pc, 3)
        },
        Operation::Return => s.top_word(),
        Operation::ReturnIf(_) => if taken(s, op) {
            s.top_word()
        } else {
            offset(s.pc, 1)
        },
        Operation::Rst(n) => offset(0, 8 * n),
        Operation::Pchl => s.hl(),
        Operation::Hlt => s.pc,
        _ => offset(s.pc, size_of(op)),
    }
}

/// The operation that the next step fetches.
pub open spec fn fetched(s: CpuState) -> Operation {
    decode(s.byte_at(s.pc))
}

/// One fetch-decode-execute step. A halted processor does nothing.
pub open spec fn step(s: CpuState, input: u8) -> CpuState {
    if s.halted {
        s
    } else {
        CpuState { pc: next_pc(s, fetched(s)), ..effect(s, fetched(s), input) }
    }
}

/// The cycles that [`step`] consumes: the alternate cost for a conditional
/// transfer whose condition is met, the base cost otherwise. A halted
/// processor idles for the cost of HLT.
pub open spec fn step_cost(s: CpuState) -> int {
    if s.halted {
        cycles_of(Operation::Hlt)
    } else if taken(s, fetched(s)) {
        cycles_taken_of(fetched(s))
    } else {
        cycles_of(fetched(s))
    }
}

/// What the next step asks of the host's ports.
pub open spec fn io_request(s: CpuState) -> IoRequest {
    if s.halted {
        IoRequest::Idle
    } else {
        match fetched(s) {
            Operation::In => IoRequest::Read(s.immediate8()),
            Operation::Out => IoRequest::Write(s.immediate8(), s.a),
            _ => IoRequest::Idle,
        }
    }
}

/// The state after `n` steps, each of which reads `input` if it reads a port.
pub open spec fn run(s: CpuState, n: nat, input: u8) -> CpuState
    decreases n,
{
    if n == 0 {
        s
    } else {
        run(step(s, input), (n - 1) as nat, input)
    }
}

/// The state of a processor that has just been created: every register,
/// pointer, flag and latch clear, memory zeroed, no mirror boundary.
pub open spec fn is_reset(s: CpuState) -> bool {
    &&& s.a == 0 && s.b == 0 && s.c == 0 && s.d == 0 && s.e == 0 && s.h == 0 && s.l == 0
    &&& s.sp == 0 && s.pc == 0
    &&& s.conditions == (ConditionCodes {
        zero: false,
        sign: false,
        parity: false,
        carry: false,
        aux_carry: false,
    })
    &&& !s.int_enable && !s.halted
    &&& s.ram_mirror is None
    &&& s.memory.len() == 0x10000
    &&& forall|i: int| 0 <= i < 0x10000 ==> s.memory[i] == 0u8
}

/// A state is well formed when its memory covers the whole address space.
pub open spec fn well_formed(s: CpuState) -> bool {
    s.memory.len() == 0x10000
}

} // verus!
