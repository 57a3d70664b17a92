//! The execution engine: registers, pointers, flags and memory, and the
//! fetch-decode-execute step that drives them.
use vstd::prelude::*;
use crate::flags::{
    alu_apply, decimal_adjust_byte, decrement_byte, increment_byte, rotate_left_byte,
    rotate_left_through_byte, rotate_right_byte, rotate_right_through_byte, ConditionCodes,
};
use crate::laws::lemma_input_reaches_only_in;
use crate::memory::{overlay, LoadError, Memory};
use crate::opcode::{family_of, size_of, Family, Opcode, Operand, Operation, Pair, StackPair};
use crate::state::{
    effect, fetched, high_byte, io_request, is_reset, low_byte, next_pc, offset, step, step_cost,
    taken, word, CpuState, IoRequest,
};

verus! {

/// The host's I/O ports, as IN and OUT see them.
pub trait Machine {
    /// Reads a byte from `port`.
    fn input(&mut self, port: u8) -> u8;

    /// Writes `byte` to `port`.
    fn output(&mut self, port: u8, byte: u8);
}

/// The instruction at the program pointer together with the two bytes that
/// follow it, for a trace line.
#[derive(Clone, Copy, Debug, PartialEq, Eq, Structural)]
pub struct Instruction {
    pub address: u16,
    pub opcode: Opcode,
    pub size: u8,
    pub low: u8,
    pub high: u8,
}

/// The operand bytes of an instruction in the order a trace shows them: none
/// for a one-byte instruction, the immediate byte for a two-byte one, and the
/// immediate word with its high byte first for a three-byte one.
pub open spec fn shown_operands(i: Instruction) -> Seq<u8> {
    if i.size >= 3 {
        seq![i.high, i.low]
    } else if i.size == 2 {
        seq![i.low]
    } else {
        Seq::empty()
    }
}

impl Instruction {
    /// The operand bytes in the order a trace shows them.
    pub fn operand_bytes(&self) -> (bytes: Vec<u8>)
        ensures
            bytes@ == shown_operands(*self),
    {
        let mut bytes: Vec<u8> = Vec::new();
        if self.size >= 3 {
            bytes.push(self.high);
            bytes.push(self.low);
        } else if self.size == 2 {
            bytes.push(self.low);
        }
        assert(bytes@ =~= shown_operands(*self));
        bytes
    }
}

/// The processor.
#[derive(Debug)]
pub struct Cpu {
    pub a: u8,
    pub b: u8,
    pub c: u8,
    pub d: u8,
    pub e: u8,
    pub h: u8,
    pub l: u8,
    pub sp: u16,
    pub pc: u16,
    pub memory: Memory,
    pub conditions: ConditionCodes,
    pub int_enable: bool,
    pub halted: bool,
}

impl View for Cpu {
    type V = CpuState;

    open spec fn view(&self) -> CpuState {
        CpuState {
            a: self.a,
            b: self.b,
            c: self.c,
            d: self.d,
            e: self.e,
            h: self.h,
            l: self.l,
            sp: self.sp,
            pc: self.pc,
            memory: self.memory.memory@,
            ram_mirror: self.memory.ram_mirror,
            conditions: self.conditions,
            int_enable: self.int_enable,
            halted: self.halted,
        }
    }
}

impl Default for Cpu {
    fn default() -> (cpu: Cpu)
        ensures
            cpu.wf(),
            is_reset(cpu@),
    {
        Cpu::new()
    }
}

/// Executable form of [`word`].
pub fn make_word(high: u8, low: u8) -> (w: u16)
    ensures
        w == word(high, low),
{
    high as u16 * 256 + low as u16
}

/// Executable form of [`high_byte`].
pub fn high_of(w: u16) -> (b: u8)
    ensures
        b == high_byte(w),
{
    (w / 256) as u8
}

/// Executable form of [`low_byte`].
pub fn low_of(w: u16) -> (b: u8)
    ensures
        b == low_byte(w),
{
    (w % 256) as u8
}

/// The address `n` places after `w`, wrapping around.
pub fn advance(w: u16, n: u16) -> (r: u16)
    ensures
        r == offset(w, n as int),
{
    ((w as u32 + n as u32) % 0x10000) as u16
}

/// The address `n` places before `w`, wrapping around.
pub fn retreat(w: u16, n: u16) -> (r: u16)
    ensures
        r == offset(w, -(n as int)),
{
    ((w as u32 + 0x10000 - n as u32) % 0x10000) as u16
}

impl Cpu {
    /// The memory covers the whole address space.
    pub open spec fn wf(&self) -> bool {
        self.memory.wf()
    }

    /// A processor with every register, pointer and flag clear, interrupts
    /// disabled, not halted, and a zeroed address space without mirror
    /// boundary.
    pub fn new() -> (cpu: Cpu)
        ensures
            cpu.wf(),
            is_reset(cpu@),
    {
        Cpu {
            a: 0,
            b: 0,
            c: 0,
            d: 0,
            e: 0,
            h: 0,
            l: 0,
            sp: 0,
            pc: 0,
            memory: Memory::new(),
            conditions: ConditionCodes::new(),
            int_enable: false,
            halted: false,
        }
    }

    /// Copies a program image into memory at `position`. Fails, changing
    /// nothing, when the image would run past the end of the address space.
    pub fn load_into_rom(&mut self, memory: &[u8], position: u16) -> (r: Result<(), LoadError>)
        requires
            old(self).wf(),
        ensures
            final(self).wf(),
            r is Ok <==> position + memory@.len() <= 0x10000,
            r is Ok ==> final(self)@ == (CpuState {
                memory: overlay(old(self)@.memory, memory@, position as int),
                ..old(self)@
            }),
            r is Err ==> final(self)@ == old(self)@,
    {
        self.memory.load(memory, position)
    }

    /// The byte at `address`.
    pub fn read_byte(&self, address: u16) -> (value: u8)
        requires
            self.wf(),
        ensures
            value == self@.byte_at(address),
    {
        self.memory.read(address)
    }

    /// Stores a byte, subject to the address space's write protection.
    pub fn write_byte(&mut self, address: u16, value: u8)
        requires
            old(self).wf(),
        ensures
            final(self).wf(),
            final(self)@ == old(self)@.with_byte(address, value),
    {
        self.memory.write(address, value);
    }

    /// The memory operand: the byte that H:L addresses now.
    pub fn get_offset(&self) -> (value: u8)
        requires
            self.wf(),
        ensures
            value == self@.operand(Operand::M),
    {
        self.read_byte(make_word(self.h, self.l))
    }

    /// Stores into the memory operand.
    pub fn set_offset(&mut self, value: u8)
        requires
            old(self).wf(),
        ensures
            final(self).wf(),
            final(self)@ == old(self)@.with_operand(Operand::M, value),
    {
        let address: u16 = make_word(self.h, self.l);
        self.write_byte(address, value);
    }

    /// The byte that follows the opcode.
    pub fn get_d8(&self) -> (value: u8)
        requires
            self.wf(),
        ensures
            value == self@.immediate8(),
    {
        self.read_byte(advance(self.pc, 1))
    }

    /// The little-endian word that follows the opcode.
    pub fn get_d16(&self) -> (value: u16)
        requires
            self.wf(),
        ensures
            value == self@.immediate16(),
    {
        let low: u8 = self.read_byte(advance(self.pc, 1));
        let high: u8 = self.read_byte(advance(self.pc, 2));
        make_word(high, low)
    }

    /// Reads an 8-bit operand.
    pub fn read_operand(&self, r: Operand) -> (value: u8)
        requires
            self.wf(),
        ensures
            value == self@.operand(r),
    {
        match r {
            Operand::B => self.b,
            Operand::C => self.c,
            Operand::D => self.d,
            Operand::E => self.e,
            Operand::H => self.h,
            Operand::L => self.l,
            Operand::M => self.get_offset(),
            Operand::A => self.a,
        }
    }

    /// Writes an 8-bit operand.
    pub fn write_operand(&mut self, r: Operand, value: u8)
        requires
            old(self).wf(),
        ensures
            final(self).wf(),
            final(self)@ == old(self)@.with_operand(r, value),
    {
        match r {
            Operand::B => self.b = value,
            Operand::C => self.c = value,
            Operand::D => self.d = value,
            Operand::E => self.e = value,
            Operand::H => self.h = value,
            Operand::L => self.l = value,
            Operand::M => self.set_offset(value),
            Operand::A => self.a = value,
        }
    }

    /// Reads a 16-bit operand.
    pub fn read_pair(&self, p: Pair) -> (value: u16)
        ensures
            value == self@.pair(p),
    {
        match p {
            Pair::BC => make_word(self.b, self.c),
            Pair::DE => make_word(self.d, self.e),
            Pair::HL => make_word(self.h, self.l),
            Pair::SP => self.sp,
        }
    }

    /// Writes a 16-bit operand, high byte to the first register of the pair.
    pub fn write_pair(&mut self, p: Pair, value: u16)
        ensures
            final(self).wf() == old(self).wf(),
            final(self)@ == old(self)@.with_pair(p, value),
    {
        match p {
            Pair::BC => {
                self.b = high_of(value);
                self.c = low_of(value);
            },
            Pair::DE => {
                self.d = high_of(value);
                self.e = low_of(value);
            },
            Pair::HL => {
                self.h = high_of(value);
                self.l = low_of(value);
            },
            Pair::SP => self.sp = value,
        }
    }

    /// The word that PUSH stores for a pair.
    pub fn read_stack_pair(&self, q: StackPair) -> (value: u16)
        ensures
            value == self@.stack_pair(q),
    {
        match q {
            StackPair::BC => make_word(self.b, self.c),
            StackPair::DE => make_word(self.d, self.e),
            StackPair::HL => make_word(self.h, self.l),
            StackPair::PSW => make_word(self.a, self.conditions.to_byte()),
        }
    }

    /// Delivers a popped word to a pair.
    pub fn write_stack_pair(&mut self, q: StackPair, value: u16)
        ensures
            final(self).wf() == old(self).wf(),
            final(self)@ == old(self)@.with_stack_pair(q, value),
    {
        match q {
            StackPair::BC => {
                self.b = high_of(value);
                self.c = low_of(value);
            },
            StackPair::DE => {
                self.d = high_of(value);
                self.e = low_of(value);
            },
            StackPair::HL => {
                self.h = high_of(value);
                self.l = low_of(value);
            },
            StackPair::PSW => {
                self.a = high_of(value);
                self.conditions = ConditionCodes::from_byte(low_of(value));
            },
        }
    }

    /// Pushes a word: stack pointer down by two, high byte stored first.
    pub fn push_word(&mut self, value: u16)
        requires
            old(self).wf(),
        ensures
            final(self).wf(),
            final(self)@ == old(self)@.pushed(value),
    {
        let top: u16 = self.sp;
        self.sp = retreat(top, 2);
        self.write_byte(retreat(top, 1), high_of(value));
        self.write_byte(retreat(top, 2), low_of(value));
    }

    /// Pops a word: low byte read first, stack pointer up by two.
    pub fn pop_word(&mut self) -> (value: u16)
        requires
            old(self).wf(),
        ensures
            final(self).wf(),
            value == old(self)@.top_word(),
            final(self)@ == old(self)@.popped(),
    {
        let low: u8 = self.read_byte(self.sp);
        let high: u8 = self.read_byte(advance(self.sp, 1));
        self.sp = advance(self.sp, 2);
        make_word(high, low)
    }

    /// MOV: copies one operand into another. Flags are not touched.
    pub fn mov(&mut self, dst: Operand, src: Operand)
        requires
            old(self).wf(),
        ensures
            final(self).wf(),
            forall|input: u8|
                final(self)@ == #[trigger] effect(old(self)@, Operation::Mov(dst, src), input),
    {
        proof {
            reveal(effect);
        }
        let value: u8 = self.read_operand(src);
        self.write_operand(dst, value);
    }

    /// MVI: copies the immediate byte into an operand.
    pub fn mvi(&mut self, dst: Operand)
        requires
            old(self).wf(),
        ensures
            final(self).wf(),
            forall|input: u8|
                final(self)@ == #[trigger] effect(old(self)@, Operation::Mvi(dst), input),
    {
        proof {
            reveal(effect);
        }
        let value: u8 = self.get_d8();
        self.write_operand(dst, value);
    }

    /// LXI: copies the immediate word into a pair.
    pub fn lxi(&mut self, dst: Pair)
        requires
            old(self).wf(),
        ensures
            final(self).wf(),
            forall|input: u8|
                final(self)@ == #[trigger] effect(old(self)@, Operation::Lxi(dst), input),
    {
        proof {
            reveal(effect);
        }
        let value: u16 = self.get_d16();
        self.write_pair(dst, value);
    }

    fn set_result(&mut self, r: (u8, ConditionCodes))
        ensures
            final(self).wf() == old(self).wf(),
            final(self)@ == old(self)@.with_result(r),
    {
        self.a = r.0;
        self.conditions = r.1;
    }

    fn set_rotation(&mut self, r: (u8, bool))
        ensures
            final(self).wf() == old(self).wf(),
            final(self)@ == old(self)@.with_rotation(r),
    {
        self.a = r.0;
        self.conditions.carry = r.1;
    }

    fn set_carry(&mut self, carry: bool)
        ensures
            final(self).wf() == old(self).wf(),
            final(self)@ == old(self)@.with_carry(carry),
    {
        self.conditions.carry = carry;
    }

    /// Data transfer between registers and memory. No flag is touched.
    pub fn transfer(&mut self, op: Operation)
        requires
            old(self).wf(),
            family_of(op) == Family::DataTransfer,
        ensures
            final(self).wf(),
            forall|input: u8| final(self)@ == #[trigger] effect(old(self)@, op, input),
    {
        proof {
            reveal(effect);
        }
        match op {
            Operation::Lxi(p) => self.lxi(p),
            Operation::Stax(p) => {
                let address: u16 = self.read_pair(p);
                self.write_byte(address, self.a);
            },
            Operation::Ldax(p) => {
                self.a = self.read_byte(self.read_pair(p));
            },
            Operation::Shld => {
                let address: u16 = self.get_d16();
                self.write_byte(address, self.l);
                self.write_byte(advance(address, 1), self.h);
            },
            Operation::Lhld => {
                let address: u16 = self.get_d16();
                let low: u8 = self.read_byte(address);
                let high: u8 = self.read_byte(advance(address, 1));
                self.l = low;
                self.h = high;
            },
            Operation::Sta => {
                let address: u16 = self.get_d16();
                self.write_byte(address, self.a);
            },
            Operation::Lda => {
                self.a = self.read_byte(self.get_d16());
            },
            Operation::Mvi(r) => self.mvi(r),
            Operation::Mov(dst, src) => self.mov(dst, src),
            Operation::Xchg => {
                let d: u8 = self.d;
                let e: u8 = self.e;
                self.d = self.h;
                self.e = self.l;
                self.h = d;
                self.l = e;
            },
            _ => {},
        }
    }

    /// 8-bit arithmetic and logic with their flag updates, and arithmetic on
    /// pairs, of which only DAD touches a flag.
    pub fn arithmetic(&mut self, op: Operation)
        requires
            old(self).wf(),
            family_of(op) == Family::Arithmetic,
        ensures
            final(self).wf(),
            forall|input: u8| final(self)@ == #[trigger] effect(old(self)@, op, input),
    {
        proof {
            reveal(effect);
        }
        match op {
            Operation::Inx(p) => {
                let value: u16 = advance(self.read_pair(p), 1);
                self.write_pair(p, value);
            },
            Operation::Dcx(p) => {
                let value: u16 = retreat(self.read_pair(p), 1);
                self.write_pair(p, value);
            },
            Operation::Dad(p) => {
                let hl: u16 = make_word(self.h, self.l);
                let other: u16 = self.read_pair(p);
                self.set_carry(hl as u32 + other as u32 > 0xffff);
                self.write_pair(Pair::HL, advance(hl, other));
            },
            Operation::Inr(r) => {
                let res = increment_byte(self.read_operand(r), self.conditions);
                self.conditions = res.1;
                self.write_operand(r, res.0);
            },
            Operation::Dcr(r) => {
                let res = decrement_byte(self.read_operand(r), self.conditions);
                self.conditions = res.1;
                self.write_operand(r, res.0);
            },
            Operation::Alu(o, r) => {
                let operand: u8 = self.read_operand(r);
                self.set_result(alu_apply(o, self.a, operand, self.conditions));
            },
            Operation::AluImmediate(o) => {
                let operand: u8 = self.get_d8();
                self.set_result(alu_apply(o, self.a, operand, self.conditions));
            },
            _ => {},
        }
    }

    /// Rotates, complement, decimal adjustment and the Carry operations.
    pub fn accumulate(&mut self, op: Operation)
        requires
            family_of(op) == Family::Accumulator,
        ensures
            final(self).wf() == old(self).wf(),
            forall|input: u8| final(self)@ == #[trigger] effect(old(self)@, op, input),
    {
        proof {
            reveal(effect);
        }
        match op {
            Operation::Rlc => self.set_rotation(rotate_left_byte(self.a)),
            Operation::Rrc => self.set_rotation(rotate_right_byte(self.a)),
            Operation::Ral => self.set_rotation(
                rotate_left_through_byte(self.a, self.conditions.carry),
            ),
            Operation::Rar => self.set_rotation(
                rotate_right_through_byte(self.a, self.conditions.carry),
            ),
            Operation::Daa => self.set_result(decimal_adjust_byte(self.a, self.conditions)),
            Operation::Cma => {
                self.a = 255 - self.a;
            },
            Operation::Stc => self.set_carry(true),
            Operation::Cmc => self.set_carry(!self.conditions.carry),
            _ => {},
        }
    }

    /// Stack operations and the stack side of calls and returns. Where the
    /// program pointer goes is [`Cpu::target`]'s business.
    pub fn control(&mut self, op: Operation)
        requires
            old(self).wf(),
            family_of(op) == Family::Control,
        ensures
            final(self).wf(),
            forall|input: u8| final(self)@ == #[trigger] effect(old(self)@, op, input),
    {
        proof {
            reveal(effect);
        }
        match op {
            Operation::ReturnIf(c) => {
                if self.conditions.test(c) {
                    let _ = self.pop_word();
                }
            },
            Operation::Return => {
                let _ = self.pop_word();
            },
            Operation::Pop(q) => {
                let value: u16 = self.pop_word();
                self.write_stack_pair(q, value);
            },
            Operation::Push(q) => {
                let value: u16 = self.read_stack_pair(q);
                self.push_word(value);
            },
            Operation::CallIf(c) => {
                if self.conditions.test(c) {
                    self.push_word(advance(self.pc, 3));
                }
            },
            Operation::Call => self.push_word(advance(self.pc, 3)),
            Operation::Rst(_) => self.push_word(advance(self.pc, 1)),
            Operation::Sphl => {
                self.sp = make_word(self.h, self.l);
            },
            Operation::Xthl => {
                let low: u8 = self.read_byte(self.sp);
                let high: u8 = self.read_byte(advance(self.sp, 1));
                let l: u8 = self.l;
                let h: u8 = self.h;
                self.l = low;
                self.h = high;
                self.write_byte(self.sp, l);
                self.write_byte(advance(self.sp, 1), h);
            },
            _ => {},
        }
    }

    /// Port input, the interrupt latch and the halt latch. `input` is the
    /// byte that IN receives; OUT and NOP change nothing here.
    pub fn system(&mut self, op: Operation, input: u8)
        requires
            family_of(op) == Family::System,
        ensures
            final(self).wf() == old(self).wf(),
            final(self)@ == effect(old(self)@, op, input),
    {
        proof {
            reveal(effect);
        }
        match op {
            Operation::In => {
                self.a = input;
            },
            Operation::Hlt => {
                self.halted = true;
            },
            Operation::Di => {
                self.int_enable = false;
            },
            Operation::Ei => {
                self.int_enable = true;
            },
            _ => {},
        }
    }

    /// Performs an operation on everything but the program pointer. `input`
    /// is the byte that IN receives.
    pub fn perform(&mut self, op: Operation, input: u8)
        requires
            old(self).wf(),
        ensures
            final(self).wf(),
            final(self)@ == effect(old(self)@, op, input),
    {
        proof {
            reveal(effect);
        }
        match op.family() {
            Family::DataTransfer => self.transfer(op),
            Family::Arithmetic => self.arithmetic(op),
            Family::Accumulator => self.accumulate(op),
            Family::Control => self.control(op),
            Family::System => self.system(op, input),
        }
    }

    /// Whether `op` is a conditional transfer whose condition holds now.
    pub fn is_taken(&self, op: Operation) -> (met: bool)
        ensures
            met == taken(self@, op),
    {
        match op {
            Operation::JumpIf(c) | Operation::CallIf(c) | Operation::ReturnIf(c) => {
                self.conditions.test(c)
            },
            _ => false,
        }
    }

    /// Where the program pointer goes when `op` is executed in this state.
    pub fn target(&self, op: Operation) -> (address: u16)
        requires
            self.wf(),
        ensures
            address == next_pc(self@, op),
    {
        match op {
            Operation::Jump | Operation::Call => self.get_d16(),
            Operation::JumpIf(c) | Operation::CallIf(c) => {
                if self.conditions.test(c) {
                    self.get_d16()
                } else {
                    advance(self.pc, 3)
                }
            },
            Operation::Return => self.top_of_stack(),
            Operation::ReturnIf(c) => {
                if self.conditions.test(c) {
                    self.top_of_stack()
                } else {
                    advance(self.pc, 1)
                }
            },
            Operation::Rst(n) => advance(0, n as u16 * 8),
            Operation::Pchl => make_word(self.h, self.l),
            Operation::Hlt => self.pc,
            _ => {
                let size: u8 = op.size();
                advance(self.pc, size as u16)
            },
        }
    }

    /// The word on top of the stack.
    pub fn top_of_stack(&self) -> (value: u16)
        requires
            self.wf(),
        ensures
            value == self@.top_word(),
    {
        let low: u8 = self.read_byte(self.sp);
        let high: u8 = self.read_byte(advance(self.sp, 1));
        make_word(high, low)
    }

    /// The opcode at the program pointer.
    pub fn fetch(&self) -> (opcode: Opcode)
        requires
            self.wf(),
        ensures
            opcode.code == self@.byte_at(self@.pc),
    {
        Opcode::from(self.read_byte(self.pc))
    }

    /// The instruction at the program pointer with the two bytes behind it.
    pub fn next_instruction(&self) -> (i: Instruction)
        requires
            self.wf(),
        ensures
            i.address == self@.pc,
            i.opcode.code == self@.byte_at(self@.pc),
            i.size == size_of(fetched(self@)),
            i.low == self@.byte_at(offset(self@.pc, 1)),
            i.high == self@.byte_at(offset(self@.pc, 2)),
    {
        let opcode = self.fetch();
        Instruction {
            address: self.pc,
            opcode,
            size: opcode.size(),
            low: self.read_byte(advance(self.pc, 1)),
            high: self.read_byte(advance(self.pc, 2)),
        }
    }

    /// What the next step will ask of the host's ports.
    pub fn pending_io(&self) -> (request: IoRequest)
        requires
            self.wf(),
        ensures
            request == io_request(self@),
    {
        if self.halted {
            return IoRequest::Idle;
        }
        match self.fetch().operation() {
            Operation::In => IoRequest::Read(self.get_d8()),
            Operation::Out => IoRequest::Write(self.get_d8(), self.a),
            _ => IoRequest::Idle,
        }
    }

    /// One step, with the byte that the port delivers if the instruction is
    /// IN. Returns the cycles consumed.
    pub fn step_with(&mut self, input: u8) -> (cycles: u8)
        requires
            old(self).wf(),
        ensures
            final(self).wf(),
            final(self)@ == step(old(self)@, input),
            cycles == step_cost(old(self)@),
    {
        if self.halted {
            return Operation::Hlt.cycles();
        }
        let opcode = self.fetch();
        let op = opcode.operation();
        let cycles: u8 = if self.is_taken(op) {
            opcode.cycle_size_taken()
        } else {
            opcode.cycle_size()
        };
        let address: u16 = self.target(op);
        self.perform(op, input);
        self.pc = address;
        cycles
    }

    /// One fetch-decode-execute step against the host's ports. IN reads its
    /// byte from `machine`, OUT hands the accumulator to it; every other
    /// instruction leaves the host alone. Returns the cycles consumed.
    pub fn execute<M: Machine>(&mut self, machine: &mut M) -> (cycles: u8)
        requires
            old(self).wf(),
        ensures
            final(self).wf(),
            cycles == step_cost(old(self)@),
            exists|input: u8| final(self)@ == step(old(self)@, input),
            !(io_request(old(self)@) is Read) ==> forall|input: u8|
                final(self)@ == #[trigger] step(old(self)@, input),
    {
        proof {
            if !(io_request(self@) is Read) {
                assert forall|input: u8| step(self@, 0) == #[trigger] step(self@, input) by {
                    lemma_input_reaches_only_in(self@, 0, input);
                }
            }
        }
        let input: u8 = match self.pending_io() {
            IoRequest::Read(port) => machine.input(port),
            IoRequest::Write(port, byte) => {
                machine.output(port, byte);
                0
            },
            IoRequest::Idle => 0,
        };
        self.step_with(input)
    }
}

} // verus!
