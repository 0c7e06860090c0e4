//! A small register-based processor core: a fetch-decode-execute engine that
//! interprets a byte-encoded instruction stream against a fixed register file
//! and a flat, bounds-checked byte memory.
pub mod cpu;
pub mod fault;
pub mod instruction;
pub mod memory;
pub mod register;
pub mod register_file;

pub use cpu::{Cpu, CpuState};
pub use fault::Fault;
pub use instruction::{DecodeError, Instruction, OPCODE_ADD_R1_R2, OPCODE_MOV_R1, OPCODE_MOV_R2};
pub use memory::Memory;
pub use register::{Register, REGISTER_COUNT};
pub use register_file::RegisterFile;
