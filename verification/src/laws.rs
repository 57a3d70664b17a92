//! Laws of the instruction set that relate several operations or hold of
//! every state, proved over the state model.
use vstd::prelude::*;
use crate::flags::{flags_byte, flags_from_byte, ConditionCodes};
use crate::memory::{store, write_blocked};
use crate::opcode::{family_of, size_of, Family, Operand, Operation, Pair, StackPair};
use crate::state::{
    effect, fetched, high_byte, io_request, low_byte, offset, run, step, taken, well_formed, word,
    CpuState,
};

verus! {

/// Joining two bytes into a word and splitting it again gives the bytes back.
pub proof fn lemma_bytes_of_word(high: u8, low: u8)
    ensures
        high_byte(word(high, low)) == high,
        low_byte(word(high, low)) == low,
{
}

/// Splitting a word into its bytes and joining them again gives the word
/// back.
pub proof fn lemma_word_of_bytes(w: u16)
    ensures
        word(high_byte(w), low_byte(w)) == w,
{
}

/// The flag byte keeps all five flags: reading flags back out of the byte
/// that stands for them gives the same flags.
pub proof fn lemma_flag_byte_round_trip(f: ConditionCodes)
    ensures
        flags_from_byte(flags_byte(f)) == f,
{
}

/// A pushed word is the word on top of the stack, and taking it off again
/// puts the stack pointer back. The two stack bytes must accept writes.
pub proof fn lemma_pushed_word_is_on_top(s: CpuState, value: u16)
    requires
        well_formed(s),
        !write_blocked(s.ram_mirror, offset(s.sp, -1)),
        !write_blocked(s.ram_mirror, offset(s.sp, -2)),
    ensures
        s.pushed(value).top_word() == value,
        s.pushed(value).popped() == (CpuState { memory: s.pushed(value).memory, ..s }),
{
    let top = offset(s.sp, -2);
    assert(offset(top, 1) == offset(s.sp, -1));
    assert(offset(top, 2) == s.sp);
    assert(s.pushed(value).sp == top);
    assert(s.pushed(value).byte_at(top) == low_byte(value));
    assert(s.pushed(value).byte_at(offset(top, 1)) == high_byte(value));
    lemma_word_of_bytes(value);
}

/// Writing a pair's own value back to it changes nothing.
pub proof fn lemma_stack_pair_round_trip(s: CpuState, q: StackPair)
    ensures
        s.with_stack_pair(q, s.stack_pair(q)) == s,
{
    match q {
        StackPair::BC => lemma_bytes_of_word(s.b, s.c),
        StackPair::DE => lemma_bytes_of_word(s.d, s.e),
        StackPair::HL => lemma_bytes_of_word(s.h, s.l),
        StackPair::PSW => {
            lemma_bytes_of_word(s.a, flags_byte(s.conditions));
            lemma_flag_byte_round_trip(s.conditions);
        },
    }
}

/// PUSH of a pair followed at once by POP of the same pair restores the
/// pair, the stack pointer, every other register and all flags; only the two
/// bytes below the old stack top may differ. The two stack bytes must accept
/// writes.
pub proof fn lemma_push_then_pop_restores(s: CpuState, q: StackPair, input: u8)
    requires
        well_formed(s),
        !write_blocked(s.ram_mirror, offset(s.sp, -1)),
        !write_blocked(s.ram_mirror, offset(s.sp, -2)),
    ensures
        effect(effect(s, Operation::Push(q), input), Operation::Pop(q), input) == (CpuState {
            memory: effect(s, Operation::Push(q), input).memory,
            ..s
        }),
{
    reveal(effect);
    let value = s.stack_pair(q);
    let pushed = s.pushed(value);
    lemma_pushed_word_is_on_top(s, value);
    lemma_stack_pair_round_trip(s, q);
    assert(effect(s, Operation::Push(q), input) == pushed);
    let restored = CpuState { memory: pushed.memory, ..s };
    assert(pushed.popped() == restored);
    assert(restored.stack_pair(q) == value);
    lemma_stack_pair_round_trip(restored, q);
    assert(effect(pushed, Operation::Pop(q), input) == pushed.popped().with_stack_pair(
        q,
        pushed.top_word(),
    ));
}

/// The same law over two whole steps: when a step executes PUSH of a pair and
/// the next one POP of the same pair, the second step ends in the first
/// state but for the program pointer, which has moved past both
/// instructions, and the two stack bytes.
pub proof fn lemma_push_pop_steps(s: CpuState, q: StackPair, input: u8)
    requires
        well_formed(s),
        !s.halted,
        fetched(s) == Operation::Push(q),
        fetched(step(s, input)) == Operation::Pop(q),
        !write_blocked(s.ram_mirror, offset(s.sp, -1)),
        !write_blocked(s.ram_mirror, offset(s.sp, -2)),
    ensures
        step(step(s, input), input) == (CpuState {
            pc: offset(s.pc, 2),
            memory: step(s, input).memory,
            ..s
        }),
{
    let pushed = effect(s, Operation::Push(q), input);
    let first = step(s, input);
    lemma_step_of(s, Operation::Push(q), input);
    lemma_step_of(first, Operation::Pop(q), input);
    lemma_push_then_pop_restores(s, q, input);
    lemma_pop_ignores_pc(pushed, q, offset(s.pc, 1), input);
    assert(offset(offset(s.pc, 1), 1) == offset(s.pc, 2));
}

/// A step of a running processor, spelled out for the operation it fetches.
proof fn lemma_step_of(s: CpuState, op: Operation, input: u8)
    requires
        !s.halted,
        fetched(s) == op,
        op is Push || op is Pop,
    ensures
        step(s, input) == (CpuState { pc: offset(s.pc, 1), ..effect(s, op, input) }),
        !step(s, input).halted,
{
    reveal(effect);
}

/// POP does the same whatever the program pointer is.
proof fn lemma_pop_ignores_pc(s: CpuState, q: StackPair, pc: u16, input: u8)
    ensures
        effect(CpuState { pc, ..s }, Operation::Pop(q), input) == (CpuState {
            pc,
            ..effect(s, Operation::Pop(q), input)
        }),
{
    reveal(effect);
}

/// Adding H:L to itself doubles it modulo 65536, sets Carry exactly when the
/// double does not fit in sixteen bits, and leaves the other four flags.
pub proof fn lemma_dad_h_doubles(s: CpuState, input: u8)
    ensures
        effect(s, Operation::Dad(Pair::HL), input).hl() == (s.hl() * 2) % 0x10000,
        effect(s, Operation::Dad(Pair::HL), input).conditions.carry == (s.hl() * 2 > 0xffff),
        effect(s, Operation::Dad(Pair::HL), input).conditions == (ConditionCodes {
            carry: s.hl() * 2 > 0xffff,
            ..s.conditions
        }),
{
    reveal(effect);
    let sum = offset(s.hl(), s.hl() as int);
    lemma_bytes_of_word(high_byte(sum), low_byte(sum));
    lemma_word_of_bytes(sum);
}

/// MOV leaves the source's value in the destination and touches no flag.
/// Where the destination is the memory operand, its address must accept
/// writes.
pub proof fn lemma_mov_copies(s: CpuState, dst: Operand, src: Operand, input: u8)
    requires
        well_formed(s),
        dst == Operand::M ==> !write_blocked(s.ram_mirror, s.hl()),
    ensures
        effect(s, Operation::Mov(dst, src), input).operand(dst) == s.operand(src),
        effect(s, Operation::Mov(dst, src), input).conditions == s.conditions,
{
    reveal(effect);
}

/// Whether an operation may change a flag: the 8-bit arithmetic and logic,
/// the pair addition, the rotates, decimal adjustment, the two Carry
/// operations, and POP of the flag byte.
pub open spec fn affects_flags(op: Operation) -> bool {
    match op {
        Operation::Alu(_, _)
        | Operation::AluImmediate(_)
        | Operation::Inr(_)
        | Operation::Dcr(_)
        | Operation::Dad(_)
        | Operation::Rlc
        | Operation::Rrc
        | Operation::Ral
        | Operation::Rar
        | Operation::Daa
        | Operation::Stc
        | Operation::Cmc
        | Operation::Pop(StackPair::PSW) => true,
        _ => false,
    }
}

/// Every other operation leaves all five flags as they were: data transfer,
/// pair increment and decrement, the stack operations, jumps, calls and
/// returns, port access and the latches.
pub proof fn lemma_flags_untouched(s: CpuState, op: Operation, input: u8)
    requires
        !affects_flags(op),
    ensures
        effect(s, op, input).conditions == s.conditions,
{
    reveal(effect);
}

/// The pair addition changes no flag but Carry, and the rotates and the two
/// Carry operations likewise.
pub proof fn lemma_carry_only(s: CpuState, op: Operation, input: u8)
    requires
        op is Dad || op is Rlc || op is Rrc || op is Ral || op is Rar || op is Stc || op is Cmc,
    ensures
        effect(s, op, input).conditions == (ConditionCodes {
            carry: effect(s, op, input).conditions.carry,
            ..s.conditions
        }),
{
    reveal(effect);
}

/// Whether two states have an address space of the same size under the same
/// mirror boundary.
pub open spec fn same_address_space(s: CpuState, t: CpuState) -> bool {
    t.memory.len() == s.memory.len() && t.ram_mirror == s.ram_mirror
}

proof fn lemma_transfer_keeps_address_space(s: CpuState, op: Operation, input: u8)
    requires
        well_formed(s),
        family_of(op) == Family::DataTransfer,
    ensures
        same_address_space(s, effect(s, op, input)),
{
    reveal(effect);
}

proof fn lemma_arithmetic_keeps_address_space(s: CpuState, op: Operation, input: u8)
    requires
        well_formed(s),
        family_of(op) == Family::Arithmetic,
    ensures
        same_address_space(s, effect(s, op, input)),
{
    reveal(effect);
}

proof fn lemma_accumulator_keeps_address_space(s: CpuState, op: Operation, input: u8)
    requires
        well_formed(s),
        family_of(op) == Family::Accumulator,
    ensures
        same_address_space(s, effect(s, op, input)),
{
    reveal(effect);
}

proof fn lemma_control_keeps_address_space(s: CpuState, op: Operation, input: u8)
    requires
        well_formed(s),
        family_of(op) == Family::Control,
    ensures
        same_address_space(s, effect(s, op, input)),
{
    reveal(effect);
}

proof fn lemma_system_keeps_address_space(s: CpuState, op: Operation, input: u8)
    requires
        well_formed(s),
        family_of(op) == Family::System,
    ensures
        same_address_space(s, effect(s, op, input)),
{
    reveal(effect);
}

/// No operation changes the size of the address space or its mirror
/// boundary: no instruction reaches outside the 64 KiB.
pub proof fn lemma_effect_keeps_address_space(s: CpuState, op: Operation, input: u8)
    requires
        well_formed(s),
    ensures
        same_address_space(s, effect(s, op, input)),
{
    match family_of(op) {
        Family::DataTransfer => lemma_transfer_keeps_address_space(s, op, input),
        Family::Arithmetic => lemma_arithmetic_keeps_address_space(s, op, input),
        Family::Accumulator => lemma_accumulator_keeps_address_space(s, op, input),
        Family::Control => lemma_control_keeps_address_space(s, op, input),
        Family::System => lemma_system_keeps_address_space(s, op, input),
    }
}

/// A step keeps the state well formed.
pub proof fn lemma_step_keeps_address_space(s: CpuState, input: u8)
    requires
        well_formed(s),
    ensures
        well_formed(step(s, input)),
        same_address_space(s, step(s, input)),
{
    lemma_effect_keeps_address_space(s, fetched(s), input);
}

/// No operation but IN looks at the byte on the port.
pub proof fn lemma_effect_ignores_input(s: CpuState, op: Operation, first: u8, second: u8)
    requires
        !(op is In),
    ensures
        effect(s, op, first) == effect(s, op, second),
{
    reveal(effect);
}

/// The byte on the port reaches the state through IN alone: a step that
/// reads no port ends in the same state whatever byte is offered.
pub proof fn lemma_input_reaches_only_in(s: CpuState, first: u8, second: u8)
    requires
        !(io_request(s) is Read),
    ensures
        step(s, first) == step(s, second),
{
    if !s.halted {
        lemma_effect_ignores_input(s, fetched(s), first, second);
    }
}

/// A conditional jump, call or return whose condition is not met is a plain
/// advance to the next instruction.
pub proof fn lemma_untaken_is_plain_advance(s: CpuState, input: u8)
    requires
        !s.halted,
        fetched(s) is JumpIf || fetched(s) is CallIf || fetched(s) is ReturnIf,
        !taken(s, fetched(s)),
    ensures
        step(s, input) == (CpuState { pc: offset(s.pc, size_of(fetched(s))), ..s }),
{
    reveal(effect);
}

/// A store to a protected or mirrored address changes nothing, and a store
/// anywhere else changes that one byte only.
pub proof fn lemma_store_is_local(
    cells: Seq<u8>,
    mirror: Option<u16>,
    address: u16,
    value: u8,
    other: u16,
)
    requires
        cells.len() == 0x10000,
    ensures
        write_blocked(mirror, address) ==> store(cells, mirror, address, value) == cells,
        !write_blocked(mirror, address) ==> store(cells, mirror, address, value)[address as int]
            == value,
        other != address ==> store(cells, mirror, address, value)[other as int]
            == cells[other as int],
{
}

/// Once the processor is halted a step changes nothing.
pub proof fn lemma_halted_stays(s: CpuState, n: nat, input: u8)
    requires
        s.halted,
    ensures
        run(s, n, input) == s,
    decreases n,
{
    if n > 0 {
        lemma_halted_stays(s, (n - 1) as nat, input);
    }
}

/// Executing HLT any number of times leaves the program pointer on the HLT
/// and changes no register, flag or memory byte: all that ever changes is the
/// halt latch, which the first step sets.
pub proof fn lemma_halt_is_fixed(s: CpuState, n: nat, input: u8)
    requires
        !s.halted,
        fetched(s) == Operation::Hlt,
        n >= 1,
    ensures
        run(s, n, input) == (CpuState { halted: true, ..s }),
        fetched(run(s, n, input)) == Operation::Hlt,
{
    reveal(effect);
    lemma_halted_stays(step(s, input), (n - 1) as nat, input);
}

} // verus!
