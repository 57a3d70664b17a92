use i8080::cpu::{advance, high_of, low_of, make_word, retreat, Cpu, Machine};
use i8080::flags::ConditionCodes;
use i8080::memory::LoadError;
use i8080::opcode::{Operand, Operation, Pair, StackPair};
use i8080::state::IoRequest;

struct Ports {
    reply: u8,
    reads: Vec<u8>,
    writes: Vec<(u8, u8)>,
}

impl Ports {
    fn new(reply: u8) -> Ports {
        Ports { reply, reads: Vec::new(), writes: Vec::new() }
    }
}

impl Machine for Ports {
    fn input(&mut self, port: u8) -> u8 {
        self.reads.push(port);
        self.reply
    }

    fn output(&mut self, port: u8, byte: u8) {
        self.writes.push((port, byte));
    }
}

fn flags(zero: bool, sign: bool, parity: bool, carry: bool, aux_carry: bool) -> ConditionCodes {
    ConditionCodes { zero, sign, parity, carry, aux_carry }
}

fn cpu_with(program: &[u8]) -> Cpu {
    let mut cpu = Cpu::new();
    assert_eq!(cpu.load_into_rom(program, 0), Ok(()));
    cpu.sp = 0x2400;
    cpu
}

fn registers(cpu: &Cpu) -> [u8; 7] {
    [cpu.a, cpu.b, cpu.c, cpu.d, cpu.e, cpu.h, cpu.l]
}

#[test]
fn new_cpu_is_cleared() {
    let cpu = Cpu::new();
    assert_eq!(registers(&cpu), [0; 7]);
    assert_eq!(cpu.sp, 0);
    assert_eq!(cpu.pc, 0);
    assert_eq!(cpu.conditions, flags(false, false, false, false, false));
    assert!(!cpu.int_enable);
    assert!(!cpu.halted);
    assert_eq!(cpu.memory.memory.len(), 0x10000);
    assert!(cpu.memory.memory.iter().all(|b| *b == 0));
    assert_eq!(cpu.memory.ram_mirror, None);
}

#[test]
fn default_cpu_is_a_new_cpu() {
    let cpu = Cpu::default();
    assert_eq!(registers(&cpu), [0; 7]);
    assert_eq!((cpu.sp, cpu.pc), (0, 0));
    assert_eq!(cpu.conditions, ConditionCodes::default());
    assert!(!cpu.int_enable && !cpu.halted);
    assert_eq!(cpu.memory.memory, Cpu::new().memory.memory);
    assert_eq!(cpu.memory.ram_mirror, None);
}

#[test]
fn load_into_rom_rejects_overrun() {
    let mut cpu = Cpu::new();
    assert_eq!(cpu.load_into_rom(&[1, 2], 0xffff), Err(LoadError::OutOfRange));
    assert!(cpu.memory.memory.iter().all(|b| *b == 0));
    assert_eq!(cpu.load_into_rom(&[1, 2], 0xfffe), Ok(()));
    assert_eq!(cpu.read_byte(0xfffe), 1);
    assert_eq!(cpu.read_byte(0xffff), 2);
}

#[test]
fn word_helpers() {
    assert_eq!(make_word(0x12, 0x34), 0x1234);
    assert_eq!(high_of(0xabcd), 0xab);
    assert_eq!(low_of(0xabcd), 0xcd);
    assert_eq!(advance(0xffff, 2), 0x0001);
    assert_eq!(advance(0x1000, 3), 0x1003);
    assert_eq!(retreat(0x0001, 2), 0xffff);
    assert_eq!(retreat(0x2400, 2), 0x23fe);
}

#[test]
fn load_two_registers_and_add() {
    let mut cpu = Cpu::new();
    assert_eq!(cpu.load_into_rom(&[0x3e, 0x05, 0x06, 0x03, 0x80], 0), Ok(()));
    let mut ports = Ports::new(0);
    assert_eq!(cpu.execute(&mut ports), 7);
    assert_eq!(cpu.execute(&mut ports), 7);
    assert_eq!(cpu.execute(&mut ports), 4);
    assert_eq!(cpu.a, 8);
    assert_eq!(cpu.b, 3);
    assert!(!cpu.conditions.zero);
    assert!(!cpu.conditions.carry);
    assert_eq!(cpu.pc, 5);
    assert!(ports.reads.is_empty());
    assert!(ports.writes.is_empty());
}

#[test]
fn push_then_pop_restores_pair_and_stack_pointer() {
    for (push, pop) in [(0xc5u8, 0xc1u8), (0xd5, 0xd1), (0xe5, 0xe1), (0xf5, 0xf1)] {
        let mut cpu = cpu_with(&[push, pop]);
        cpu.a = 0x1f;
        cpu.b = 0x8f;
        cpu.c = 0x9d;
        cpu.d = 0x11;
        cpu.e = 0x22;
        cpu.h = 0x33;
        cpu.l = 0x44;
        cpu.conditions = flags(true, false, true, true, false);
        let before = registers(&cpu);
        let mut ports = Ports::new(0);
        assert_eq!(cpu.execute(&mut ports), 11);
        assert_eq!(cpu.sp, 0x23fe);
        assert_eq!(cpu.conditions, flags(true, false, true, true, false));
        assert_eq!(cpu.execute(&mut ports), 10);
        assert_eq!(registers(&cpu), before);
        assert_eq!(cpu.sp, 0x2400);
        assert_eq!(cpu.conditions, flags(true, false, true, true, false));
        assert_eq!(cpu.pc, 2);
    }
}

#[test]
fn push_stores_high_byte_above_low_byte() {
    let mut cpu = cpu_with(&[0xd5, 0xf5]);
    cpu.d = 0x8f;
    cpu.e = 0x9d;
    cpu.a = 0x1f;
    cpu.conditions = flags(true, false, true, true, false);
    let mut ports = Ports::new(0);
    cpu.execute(&mut ports);
    assert_eq!(cpu.read_byte(0x23ff), 0x8f);
    assert_eq!(cpu.read_byte(0x23fe), 0x9d);
    cpu.execute(&mut ports);
    assert_eq!(cpu.read_byte(0x23fd), 0x1f);
    assert_eq!(cpu.read_byte(0x23fc), 0x47);
    assert_eq!(cpu.sp, 0x23fc);
}

#[test]
fn pop_psw_restores_flags_as_data() {
    let mut cpu = cpu_with(&[0xf1]);
    cpu.sp = 0x2c00;
    cpu.memory.memory[0x2c00] = 0xc3;
    cpu.memory.memory[0x2c01] = 0xff;
    let mut ports = Ports::new(0);
    assert_eq!(cpu.execute(&mut ports), 10);
    assert_eq!(cpu.a, 0xff);
    assert_eq!(cpu.conditions, flags(true, true, false, true, false));
    assert_eq!(cpu.sp, 0x2c02);
}

#[test]
fn dad_h_doubles_hl() {
    let cases = [
        (0x1234u16, 0x2468u16, false),
        (0x8001, 0x0002, true),
        (0x8000, 0x0000, true),
        (0x7fff, 0xfffe, false),
        (0, 0, false),
    ];
    for (hl, doubled, carry) in cases {
        let mut cpu = cpu_with(&[0x29]);
        cpu.h = (hl >> 8) as u8;
        cpu.l = hl as u8;
        cpu.conditions = flags(true, true, true, !carry, true);
        let mut ports = Ports::new(0);
        assert_eq!(cpu.execute(&mut ports), 10);
        assert_eq!(cpu.read_pair(Pair::HL), doubled);
        assert_eq!(cpu.conditions, flags(true, true, true, carry, true));
    }
}

#[test]
fn dad_adds_a_pair_into_hl() {
    let mut cpu = cpu_with(&[0x09, 0x39]);
    cpu.b = 0x33;
    cpu.c = 0x9f;
    cpu.h = 0xa1;
    cpu.l = 0x7b;
    let mut ports = Ports::new(0);
    cpu.execute(&mut ports);
    assert_eq!(cpu.read_pair(Pair::HL), 0xd51a);
    assert!(!cpu.conditions.carry);
    cpu.sp = 0x3000;
    cpu.execute(&mut ports);
    assert_eq!(cpu.read_pair(Pair::HL), 0x051a);
    assert!(cpu.conditions.carry);
}

#[test]
fn stack_writes_respect_the_mirror() {
    let mut cpu = cpu_with(&[0xc5]);
    cpu.memory.ram_mirror = Some(0x4000);
    cpu.sp = 0x1002;
    cpu.b = 0xaa;
    cpu.c = 0xbb;
    let mut ports = Ports::new(0);
    cpu.execute(&mut ports);
    assert_eq!(cpu.sp, 0x1000);
    assert_eq!(cpu.read_byte(0x1001), 0);
    assert_eq!(cpu.read_byte(0x1000), 0);
}

#[test]
fn mov_copies_between_all_operands() {
    let operands = [
        Operand::B,
        Operand::C,
        Operand::D,
        Operand::E,
        Operand::H,
        Operand::L,
        Operand::M,
        Operand::A,
    ];
    for (i, dst) in operands.iter().enumerate() {
        for (j, src) in operands.iter().enumerate() {
            if *dst == Operand::M && *src == Operand::M {
                continue;
            }
            let code = 0x40 + 8 * i as u8 + j as u8;
            let mut cpu = cpu_with(&[code]);
            cpu.a = 0xa1;
            cpu.b = 0xb2;
            cpu.c = 0xc3;
            cpu.d = 0xd4;
            cpu.e = 0xe5;
            cpu.h = 0x30;
            cpu.l = 0x10;
            cpu.memory.memory[0x3010] = 0x77;
            cpu.conditions = flags(true, false, true, false, true);
            let expected = cpu.read_operand(*src);
            let mut ports = Ports::new(0);
            let cycles = cpu.execute(&mut ports);
            assert_eq!(cycles, if i == 6 || j == 6 { 7 } else { 5 });
            let got = match dst {
                Operand::M => cpu.read_byte(0x3010),
                r => cpu.read_operand(*r),
            };
            assert_eq!(got, expected, "opcode {:#04x}", code);
            assert_eq!(cpu.conditions, flags(true, false, true, false, true));
            assert_eq!(cpu.pc, 1);
            assert_eq!(cpu.sp, 0x2400);
        }
    }
}

#[test]
fn mov_mvi_lxi_by_name() {
    let mut cpu = cpu_with(&[0x00, 0x34, 0x12]);
    cpu.a = 0x42;
    cpu.mov(Operand::D, Operand::A);
    assert_eq!(cpu.d, 0x42);
    cpu.mvi(Operand::E);
    assert_eq!(cpu.e, 0x34);
    cpu.lxi(Pair::HL);
    assert_eq!((cpu.h, cpu.l), (0x12, 0x34));
    cpu.lxi(Pair::SP);
    assert_eq!(cpu.sp, 0x1234);
    assert_eq!(cpu.get_d8(), 0x34);
    assert_eq!(cpu.get_d16(), 0x1234);
    cpu.h = 0x20;
    cpu.l = 0x05;
    cpu.set_offset(0x99);
    assert_eq!(cpu.read_byte(0x2005), 0x99);
    assert_eq!(cpu.get_offset(), 0x99);
    cpu.mvi(Operand::M);
    assert_eq!(cpu.get_offset(), 0x34);
    assert_eq!(cpu.pc, 0);
}

#[test]
fn halt_leaves_everything_fixed() {
    let mut cpu = cpu_with(&[0x00, 0x76, 0x3c]);
    cpu.a = 5;
    let mut ports = Ports::new(0);
    assert_eq!(cpu.execute(&mut ports), 4);
    let memory = cpu.memory.memory.clone();
    let before = registers(&cpu);
    for _ in 0..10 {
        assert_eq!(cpu.execute(&mut ports), 7);
        assert_eq!(cpu.pc, 1);
        assert!(cpu.halted);
        assert_eq!(registers(&cpu), before);
        assert_eq!(cpu.sp, 0x2400);
        assert_eq!(cpu.conditions, flags(false, false, false, false, false));
        assert_eq!(cpu.memory.memory, memory);
    }
}

#[test]
fn halted_cpu_ignores_the_byte_at_pc() {
    let mut cpu = cpu_with(&[0x3c]);
    cpu.halted = true;
    assert_eq!(cpu.step_with(0), 7);
    assert_eq!(cpu.a, 0);
    assert_eq!(cpu.pc, 0);
    assert_eq!(cpu.pending_io(), IoRequest::Idle);
}

#[test]
fn in_reads_the_port_into_the_accumulator() {
    let mut cpu = cpu_with(&[0xdb, 0x07]);
    assert_eq!(cpu.pending_io(), IoRequest::Read(0x07));
    let mut ports = Ports::new(0x5a);
    assert_eq!(cpu.execute(&mut ports), 10);
    assert_eq!(cpu.a, 0x5a);
    assert_eq!(cpu.pc, 2);
    assert_eq!(ports.reads, vec![0x07]);
    assert!(ports.writes.is_empty());
}

#[test]
fn out_hands_the_accumulator_to_the_port() {
    let mut cpu = cpu_with(&[0xd3, 0x09]);
    cpu.a = 0x33;
    assert_eq!(cpu.pending_io(), IoRequest::Write(0x09, 0x33));
    let mut ports = Ports::new(0x5a);
    assert_eq!(cpu.execute(&mut ports), 10);
    assert_eq!(cpu.a, 0x33);
    assert_eq!(cpu.pc, 2);
    assert_eq!(ports.writes, vec![(0x09, 0x33)]);
    assert!(ports.reads.is_empty());
}

#[test]
fn step_with_ignores_input_unless_in() {
    let mut cpu = cpu_with(&[0x3e, 0x11, 0xdb, 0x01]);
    assert_eq!(cpu.step_with(0xee), 7);
    assert_eq!(cpu.a, 0x11);
    assert_eq!(cpu.step_with(0xee), 10);
    assert_eq!(cpu.a, 0xee);
}

#[test]
fn ei_and_di_toggle_the_interrupt_latch() {
    let mut cpu = cpu_with(&[0xfb, 0xf3]);
    let mut ports = Ports::new(0);
    assert_eq!(cpu.execute(&mut ports), 4);
    assert!(cpu.int_enable);
    assert_eq!(cpu.execute(&mut ports), 4);
    assert!(!cpu.int_enable);
    assert_eq!(cpu.pc, 2);
}

#[test]
fn call_pushes_return_address_and_ret_comes_back() {
    let mut cpu = Cpu::new();
    assert_eq!(cpu.load_into_rom(&[0xcd, 0x00, 0x30], 0x0100), Ok(()));
    assert_eq!(cpu.load_into_rom(&[0xc9], 0x3000), Ok(()));
    cpu.pc = 0x0100;
    cpu.sp = 0x2400;
    let mut ports = Ports::new(0);
    assert_eq!(cpu.execute(&mut ports), 17);
    assert_eq!(cpu.pc, 0x3000);
    assert_eq!(cpu.sp, 0x23fe);
    assert_eq!(cpu.read_byte(0x23ff), 0x01);
    assert_eq!(cpu.read_byte(0x23fe), 0x03);
    assert_eq!(cpu.top_of_stack(), 0x0103);
    assert_eq!(cpu.execute(&mut ports), 10);
    assert_eq!(cpu.pc, 0x0103);
    assert_eq!(cpu.sp, 0x2400);
}

#[test]
fn conditional_transfers_pay_more_only_when_taken() {
    // JNZ, CNZ, RNZ with Zero set: plain advance.
    let mut cpu = cpu_with(&[0xc2, 0x00, 0x30, 0xc4, 0x00, 0x30, 0xc0]);
    cpu.conditions.zero = true;
    let mut ports = Ports::new(0);
    assert_eq!(cpu.execute(&mut ports), 10);
    assert_eq!(cpu.pc, 3);
    assert_eq!(cpu.execute(&mut ports), 11);
    assert_eq!(cpu.pc, 6);
    assert_eq!(cpu.sp, 0x2400);
    assert_eq!(cpu.execute(&mut ports), 5);
    assert_eq!(cpu.pc, 7);
    assert_eq!(cpu.sp, 0x2400);

    // The same three with Zero clear: taken.
    let mut cpu = cpu_with(&[0xc2, 0x10, 0x00]);
    assert_eq!(cpu.load_into_rom(&[0xc4, 0x00, 0x30], 0x0010), Ok(()));
    assert_eq!(cpu.load_into_rom(&[0xc0], 0x3000), Ok(()));
    assert_eq!(cpu.execute(&mut ports), 10);
    assert_eq!(cpu.pc, 0x0010);
    assert_eq!(cpu.execute(&mut ports), 17);
    assert_eq!(cpu.pc, 0x3000);
    assert_eq!(cpu.sp, 0x23fe);
    assert_eq!(cpu.execute(&mut ports), 11);
    assert_eq!(cpu.pc, 0x0013);
    assert_eq!(cpu.sp, 0x2400);
}

#[test]
fn each_condition_tests_its_own_flag() {
    let cases: [(u8, ConditionCodes); 8] = [
        (0xc2, flags(false, true, true, true, true)),
        (0xca, flags(true, false, false, false, false)),
        (0xd2, flags(true, true, true, false, true)),
        (0xda, flags(false, false, false, true, false)),
        (0xe2, flags(true, true, false, true, true)),
        (0xea, flags(false, false, true, false, false)),
        (0xf2, flags(true, false, true, true, true)),
        (0xfa, flags(false, true, false, false, false)),
    ];
    for (code, taken) in cases {
        let mut cpu = cpu_with(&[code, 0x34, 0x12]);
        cpu.conditions = taken;
        assert!(cpu.is_taken(Operation::JumpIf(i8080::opcode::condition_from((code >> 3) & 7))));
        cpu.step_with(0);
        assert_eq!(cpu.pc, 0x1234, "opcode {:#04x}", code);
        let mut cpu = cpu_with(&[code, 0x34, 0x12]);
        cpu.conditions =
            flags(!taken.zero, !taken.sign, !taken.parity, !taken.carry, !taken.aux_carry);
        cpu.step_with(0);
        assert_eq!(cpu.pc, 3, "opcode {:#04x}", code);
    }
}

#[test]
fn rst_calls_eight_times_n() {
    for n in 0..8u8 {
        let mut cpu = Cpu::new();
        assert_eq!(cpu.load_into_rom(&[0xc7 + 8 * n], 0x1234), Ok(()));
        cpu.pc = 0x1234;
        cpu.sp = 0x2400;
        assert_eq!(cpu.step_with(0), 11);
        assert_eq!(cpu.pc, 8 * n as u16);
        assert_eq!(cpu.sp, 0x23fe);
        assert_eq!(cpu.top_of_stack(), 0x1235);
    }
}

#[test]
fn pchl_sphl_xchg_xthl() {
    let mut cpu = cpu_with(&[0xeb, 0xf9, 0xe3]);
    cpu.d = 0x33;
    cpu.e = 0x55;
    cpu.h = 0x00;
    cpu.l = 0xff;
    assert_eq!(cpu.step_with(0), 4);
    assert_eq!((cpu.d, cpu.e, cpu.h, cpu.l), (0x00, 0xff, 0x33, 0x55));
    assert_eq!(cpu.step_with(0), 5);
    assert_eq!(cpu.sp, 0x3355);
    cpu.sp = 0x2ffe;
    cpu.memory.memory[0x2ffe] = 0xf0;
    cpu.memory.memory[0x2fff] = 0x0d;
    cpu.h = 0x0b;
    cpu.l = 0x3c;
    assert_eq!(cpu.step_with(0), 18);
    assert_eq!((cpu.h, cpu.l), (0x0d, 0xf0));
    assert_eq!(cpu.read_byte(0x2ffe), 0x3c);
    assert_eq!(cpu.read_byte(0x2fff), 0x0b);
    assert_eq!(cpu.sp, 0x2ffe);
    assert_eq!(cpu.pc, 3);

    let mut cpu = cpu_with(&[0xe9]);
    cpu.h = 0x41;
    cpu.l = 0x3e;
    assert_eq!(cpu.step_with(0), 5);
    assert_eq!(cpu.pc, 0x413e);
}

#[test]
fn direct_and_indirect_loads_and_stores() {
    // STA 3000 ; LDA 3001 ; SHLD 3010 ; LHLD 3020 ; STAX B ; LDAX D
    let mut cpu = cpu_with(&[
        0x32, 0x00, 0x30, 0x3a, 0x01, 0x30, 0x22, 0x10, 0x30, 0x2a, 0x20, 0x30, 0x02, 0x1a,
    ]);
    cpu.a = 0x7e;
    cpu.memory.memory[0x3001] = 0x19;
    assert_eq!(cpu.step_with(0), 13);
    assert_eq!(cpu.read_byte(0x3000), 0x7e);
    assert_eq!(cpu.step_with(0), 13);
    assert_eq!(cpu.a, 0x19);
    cpu.h = 0xae;
    cpu.l = 0x29;
    assert_eq!(cpu.step_with(0), 16);
    assert_eq!(cpu.read_byte(0x3010), 0x29);
    assert_eq!(cpu.read_byte(0x3011), 0xae);
    cpu.memory.memory[0x3020] = 0xff;
    cpu.memory.memory[0x3021] = 0x03;
    assert_eq!(cpu.step_with(0), 16);
    assert_eq!((cpu.h, cpu.l), (0x03, 0xff));
    cpu.b = 0x3f;
    cpu.c = 0x16;
    assert_eq!(cpu.step_with(0), 7);
    assert_eq!(cpu.read_byte(0x3f16), 0x19);
    cpu.d = 0x30;
    cpu.e = 0x00;
    assert_eq!(cpu.step_with(0), 7);
    assert_eq!(cpu.a, 0x7e);
    assert_eq!(cpu.pc, 14);
    assert_eq!(cpu.conditions, flags(false, false, false, false, false));
}

#[test]
fn pair_increment_and_decrement_touch_no_flag() {
    let mut cpu = cpu_with(&[0x13, 0x2b, 0x33, 0x3b]);
    cpu.d = 0x38;
    cpu.e = 0xff;
    cpu.h = 0x98;
    cpu.l = 0x00;
    cpu.sp = 0xffff;
    cpu.conditions = flags(true, true, false, true, false);
    assert_eq!(cpu.step_with(0), 5);
    assert_eq!(cpu.read_pair(Pair::DE), 0x3900);
    assert_eq!(cpu.step_with(0), 5);
    assert_eq!(cpu.read_pair(Pair::HL), 0x97ff);
    cpu.step_with(0);
    assert_eq!(cpu.sp, 0x0000);
    cpu.step_with(0);
    assert_eq!(cpu.sp, 0xffff);
    assert_eq!(cpu.conditions, flags(true, true, false, true, false));
}

#[test]
fn arithmetic_through_the_engine() {
    // ADI 0x42 ; ACI 0xbe ; SUI 1 ; SBI 1 ; ANI 0x0f ; XRI 0xff ; ORI 0x01 ; CPI 0xf0
    let mut cpu = cpu_with(&[
        0xc6, 0x42, 0xce, 0xbe, 0xd6, 0x01, 0xde, 0x01, 0xe6, 0x0f, 0xee, 0xff, 0xf6, 0x01, 0xfe,
        0xf0,
    ]);
    cpu.a = 0x14;
    assert_eq!(cpu.step_with(0), 7);
    assert_eq!(cpu.a, 0x56);
    assert_eq!(cpu.conditions, flags(false, false, true, false, false));
    cpu.step_with(0);
    assert_eq!(cpu.a, 0x14);
    assert_eq!(cpu.conditions, flags(false, false, true, true, true));
    cpu.step_with(0);
    assert_eq!(cpu.a, 0x13);
    assert_eq!(cpu.conditions, flags(false, false, false, false, true));
    cpu.conditions.carry = true;
    cpu.step_with(0);
    assert_eq!(cpu.a, 0x11);
    assert_eq!(cpu.conditions, flags(false, false, true, false, true));
    cpu.step_with(0);
    assert_eq!(cpu.a, 0x01);
    assert_eq!(cpu.conditions, flags(false, false, false, false, true));
    cpu.step_with(0);
    assert_eq!(cpu.a, 0xfe);
    assert_eq!(cpu.conditions, flags(false, true, false, false, false));
    cpu.step_with(0);
    assert_eq!(cpu.a, 0xff);
    assert_eq!(cpu.conditions, flags(false, true, true, false, false));
    cpu.step_with(0);
    assert_eq!(cpu.a, 0xff);
    assert_eq!(cpu.conditions, flags(false, false, true, false, true));
    assert_eq!(cpu.pc, 16);
}

#[test]
fn register_and_memory_operands_of_the_alu() {
    // ADD M ; SUB B ; INR M ; DCR C ; CMP M
    let mut cpu = cpu_with(&[0x86, 0x90, 0x34, 0x0d, 0xbe]);
    cpu.h = 0x30;
    cpu.l = 0x00;
    cpu.memory.memory[0x3000] = 0x0f;
    cpu.a = 0x01;
    cpu.b = 0x20;
    cpu.c = 0x01;
    assert_eq!(cpu.step_with(0), 7);
    assert_eq!(cpu.a, 0x10);
    assert_eq!(cpu.conditions, flags(false, false, false, false, true));
    assert_eq!(cpu.step_with(0), 4);
    assert_eq!(cpu.a, 0xf0);
    assert_eq!(cpu.conditions, flags(false, true, true, true, true));
    assert_eq!(cpu.step_with(0), 10);
    assert_eq!(cpu.read_byte(0x3000), 0x10);
    assert_eq!(cpu.conditions, flags(false, false, false, true, true));
    assert_eq!(cpu.step_with(0), 5);
    assert_eq!(cpu.c, 0x00);
    assert_eq!(cpu.conditions, flags(true, false, true, true, true));
    assert_eq!(cpu.step_with(0), 7);
    assert_eq!(cpu.a, 0xf0);
    assert_eq!(cpu.conditions, flags(false, true, false, false, true));
}

#[test]
fn rotates_and_accumulator_operations() {
    // RLC ; RRC ; RAL ; RAR ; CMA ; STC ; CMC ; DAA
    let mut cpu = cpu_with(&[0x07, 0x0f, 0x17, 0x1f, 0x2f, 0x37, 0x3f, 0x27]);
    cpu.a = 0xf2;
    cpu.conditions = flags(true, true, true, false, true);
    assert_eq!(cpu.step_with(0), 4);
    assert_eq!(cpu.a, 0xe5);
    assert_eq!(cpu.conditions, flags(true, true, true, true, true));
    cpu.step_with(0);
    assert_eq!(cpu.a, 0xf2);
    assert_eq!(cpu.conditions, flags(true, true, true, true, true));
    cpu.step_with(0);
    assert_eq!(cpu.a, 0xe5);
    assert_eq!(cpu.conditions, flags(true, true, true, true, true));
    cpu.step_with(0);
    assert_eq!(cpu.a, 0xf2);
    assert_eq!(cpu.conditions, flags(true, true, true, true, true));
    cpu.step_with(0);
    assert_eq!(cpu.a, 0x0d);
    assert_eq!(cpu.conditions, flags(true, true, true, true, true));
    cpu.conditions.carry = false;
    cpu.step_with(0);
    assert!(cpu.conditions.carry);
    cpu.step_with(0);
    assert_eq!(cpu.conditions, flags(true, true, true, false, true));
    cpu.a = 0x9b;
    cpu.conditions = flags(false, false, false, false, false);
    assert_eq!(cpu.step_with(0), 4);
    assert_eq!(cpu.a, 0x01);
    assert_eq!(cpu.conditions, flags(false, false, false, true, true));
    assert_eq!(cpu.pc, 8);
}

#[test]
fn program_pointer_wraps_around() {
    let mut cpu = Cpu::new();
    assert_eq!(cpu.load_into_rom(&[0x3e], 0xffff), Ok(()));
    assert_eq!(cpu.load_into_rom(&[0x42], 0x0000), Ok(()));
    cpu.pc = 0xffff;
    assert_eq!(cpu.step_with(0), 7);
    assert_eq!(cpu.a, 0x42);
    assert_eq!(cpu.pc, 0x0001);
}

#[test]
fn next_instruction_reports_opcode_and_operands() {
    let mut cpu = Cpu::new();
    assert_eq!(cpu.load_into_rom(&[0xc3, 0x34, 0x12], 0x0200), Ok(()));
    cpu.pc = 0x0200;
    let i = cpu.next_instruction();
    assert_eq!(i.address, 0x0200);
    assert_eq!(i.opcode.code, 0xc3);
    assert_eq!(i.size, 3);
    assert_eq!(i.low, 0x34);
    assert_eq!(i.high, 0x12);
    assert_eq!(i.operand_bytes(), vec![0x12, 0x34]);
    assert_eq!(cpu.fetch().operation(), Operation::Jump);
    assert_eq!(cpu.target(Operation::Jump), 0x1234);
    assert_eq!(cpu.target(Operation::Nop), 0x0201);
}

#[test]
fn perform_leaves_the_program_pointer() {
    let mut cpu = cpu_with(&[0x00, 0x34, 0x12]);
    cpu.perform(Operation::Call, 0);
    assert_eq!(cpu.pc, 0);
    assert_eq!(cpu.sp, 0x23fe);
    assert_eq!(cpu.top_of_stack(), 0x0003);
    cpu.perform(Operation::Pop(StackPair::DE), 0);
    assert_eq!((cpu.d, cpu.e), (0x00, 0x03));
    cpu.perform(Operation::In, 0x77);
    assert_eq!(cpu.a, 0x77);
    cpu.transfer(Operation::Mov(Operand::B, Operand::A));
    assert_eq!(cpu.b, 0x77);
    cpu.arithmetic(Operation::Inr(Operand::B));
    assert_eq!(cpu.b, 0x78);
    cpu.accumulate(Operation::Cma);
    assert_eq!(cpu.a, 0x88);
    cpu.control(Operation::Push(StackPair::BC));
    assert_eq!(cpu.top_of_stack(), 0x7800);
    cpu.system(Operation::Ei, 0);
    assert!(cpu.int_enable);
    cpu.write_pair(Pair::BC, 0xbeef);
    assert_eq!((cpu.b, cpu.c), (0xbe, 0xef));
    assert_eq!(cpu.read_stack_pair(StackPair::BC), 0xbeef);
    cpu.write_stack_pair(StackPair::PSW, 0x12d7);
    assert_eq!(cpu.a, 0x12);
    assert_eq!(cpu.conditions, flags(true, true, true, true, true));
    cpu.write_operand(Operand::L, 9);
    assert_eq!(cpu.l, 9);
    cpu.push_word(0xcafe);
    assert_eq!(cpu.pop_word(), 0xcafe);
    cpu.write_byte(0x2222, 5);
    assert_eq!(cpu.read_byte(0x2222), 5);
    assert_eq!(Operation::Sta.size(), 3);
    assert_eq!(Operation::Sta.cycles(), 13);
    assert_eq!(Operation::CallIf(i8080::opcode::Condition::Zero).cycles_taken(), 17);
}

#[test]
fn operand_bytes_follow_the_instruction_size() {
    let cpu = cpu_with(&[0x3e, 0x05, 0x80, 0x07]);
    assert_eq!(cpu.next_instruction().operand_bytes(), vec![0x05]);
    let mut cpu = cpu;
    cpu.pc = 2;
    let i = cpu.next_instruction();
    assert_eq!((i.size, i.low, i.high), (1, 0x07, 0x00));
    assert!(i.operand_bytes().is_empty());
}
