//! A cycle-counting instruction-set emulator core for the Intel 8080.
//!
//! The processor is modelled as a mathematical state ([`state::CpuState`]) and
//! a transition function ([`state::step`]). The executable engine
//! ([`cpu::Cpu`]) is proved to follow that function on every opcode, and the
//! opcode table ([`opcode::Opcode`]) to agree with the published size and
//! timing tables ([`reference`]).
pub mod cpu;
pub mod flags;
pub mod laws;
pub mod memory;
pub mod opcode;
pub mod reference;
pub mod state;

pub use cpu::{Cpu, Instruction, Machine};
pub use flags::ConditionCodes;
pub use memory::{LoadError, Memory};
pub use opcode::{Opcode, Operation};
