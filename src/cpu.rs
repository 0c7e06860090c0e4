use vstd::prelude::*;

use crate::fault::Fault;
use crate::instruction::{decode_spec, Instruction};
use crate::memory::{byte_at, word_at, Memory};
use crate::register::{Register, REGISTER_COUNT};
use crate::register_file::{dump_text, RegisterFile};

verus! {

/// The abstract state of a processor: its memory bytes and the value of each
/// register, indexed by enumeration order.
pub struct CpuState {
    pub memory: Seq<u8>,
    pub registers: Seq<u16>,
}

/// The value of `r` in a register sequence.
pub open spec fn reg(registers: Seq<u16>, r: Register) -> u16 {
    registers[r.index()]
}

/// Sum of two 16-bit values, truncated to 16 bits.
pub open spec fn wrapping_sum(a: u16, b: u16) -> u16 {
    ((a as int + b as int) % 0x10000) as u16
}

/// The address `width` bytes past `addr`, truncated to the 16-bit instruction pointer.
pub open spec fn advance(addr: int, width: nat) -> u16 {
    ((addr + width) % 0x10000) as u16
}

/// The registers after executing `instr` fetched at `addr`, or the fault its
/// operand fetch raises.
pub open spec fn execute_spec(instr: Instruction, memory: Seq<u8>, registers: Seq<u16>, addr: int) -> Result<
    Seq<u16>,
    Fault,
> {
    match instr {
        Instruction::MovR1 => match word_at(memory, addr + 1) {
            Ok(imm) => Ok(
                registers.update(Register::R1.index(), imm).update(
                    Register::IP.index(),
                    advance(addr, 3),
                ),
            ),
            Err(e) => Err(e),
        },
        Instruction::MovR2 => match word_at(memory, addr + 1) {
            Ok(imm) => Ok(
                registers.update(Register::R2.index(), imm).update(
                    Register::IP.index(),
                    advance(addr, 3),
                ),
            ),
            Err(e) => Err(e),
        },
        Instruction::AddR1R2 => Ok(
            registers.update(
                Register::ACC.index(),
                wrapping_sum(reg(registers, Register::R1), reg(registers, Register::R2)),
            ).update(Register::IP.index(), advance(addr, 1)),
        ),
    }
}

/// One fetch-decode-execute cycle: the registers afterwards, or the fault that
/// stops it.
pub open spec fn step_spec(memory: Seq<u8>, registers: Seq<u16>) -> Result<Seq<u16>, Fault> {
    let addr = reg(registers, Register::IP) as int;
    match byte_at(memory, addr) {
        Err(e) => Err(e),
        Ok(byte) => match decode_spec(byte) {
            Err(_) => Err(Fault::UnknownOpcode { byte, address: addr as usize }),
            Ok(instr) => execute_spec(instr, memory, registers, addr),
        },
    }
}

/// Up to `steps` cycles: the registers afterwards, and the fault that stopped
/// the run early, if any.
pub open spec fn run_spec(memory: Seq<u8>, registers: Seq<u16>, steps: nat) -> (Seq<u16>, Result<
    (),
    Fault,
>)
    decreases steps,
{
    if steps == 0 {
        (registers, Ok(()))
    } else {
        match step_spec(memory, registers) {
            Err(e) => (registers, Err(e)),
            Ok(next) => run_spec(memory, next, (steps - 1) as nat),
        }
    }
}

/// The text of a processor dump: `CPU: { [IP] -> 0; ...; }`.
pub open spec fn cpu_text(registers: Seq<u16>) -> Seq<char> {
    "CPU: { "@ + dump_text(registers) + "}"@
}

/// A processor core: the sole owner of a register file and a memory.
pub struct Cpu {
    memory: Memory,
    registers: RegisterFile,
}

impl View for Cpu {
    type V = CpuState;

    closed spec fn view(&self) -> CpuState {
        CpuState { memory: self.memory@, registers: self.registers@ }
    }
}

impl Cpu {
    /// The register sequence holds one value per register.
    pub proof fn lemma_registers_total(&self)
        ensures
            self@.registers.len() == REGISTER_COUNT,
    {
        self.registers.lemma_total();
    }

    /// A processor with every register 0 and an empty memory with room for
    /// `capacity_in_bytes` bytes.
    pub fn with_memory_capacity(capacity_in_bytes: usize) -> (r: Cpu)
        ensures
            r@.memory == Seq::<u8>::empty(),
            r@.registers == Seq::new(REGISTER_COUNT as nat, |i: int| 0u16),
    {
        Cpu { memory: Memory::with_capacity(capacity_in_bytes), registers: RegisterFile::new() }
    }

    /// Appends `program` to memory.
    pub fn load_program(&mut self, program: &[u8])
        requires
            old(self)@.memory.len() + program@.len() <= usize::MAX,
        ensures
            final(self)@.memory == old(self)@.memory + program@,
            final(self)@.registers == old(self)@.registers,
    {
        self.memory.load(program);
    }

    /// The memory.
    pub fn memory(&self) -> (r: &Memory)
        ensures
            r@ == self@.memory,
    {
        &self.memory
    }

    /// The register file.
    pub fn registers(&self) -> (r: &RegisterFile)
        ensures
            r@ == self@.registers,
    {
        &self.registers
    }

    /// The value of register `r`.
    pub fn register(&self, r: Register) -> (v: u16)
        ensures
            v == reg(self@.registers, r),
    {
        self.registers.get(r)
    }

    /// Overwrites register `r`.
    pub fn set_register(&mut self, r: Register, value: u16)
        ensures
            final(self)@.memory == old(self)@.memory,
            final(self)@.registers == old(self)@.registers.update(r.index(), value),
    {
        self.registers.set(r, value);
    }

    /// Executes the instruction at `IP` and advances `IP` past it, wrapping at
    /// 16 bits. On a fault nothing changes and the fault is returned.
    pub fn step(&mut self) -> (r: Result<(), Fault>)
        ensures
            final(self)@.memory == old(self)@.memory,
            match step_spec(old(self)@.memory, old(self)@.registers) {
                Ok(next) => r is Ok && final(self)@.registers == next,
                Err(e) => r == Err::<(), Fault>(e) && final(self)@.registers
                    == old(self)@.registers,
            },
    {
        let addr = self.registers.get(Register::IP);
        let byte = match self.memory.read_u8(addr as usize) {
            Ok(b) => b,
            Err(e) => {
                return Err(e);
            },
        };
        let instr = match Instruction::decode(byte) {
            Ok(i) => i,
            Err(_) => {
                return Err(Fault::UnknownOpcode { byte, address: addr as usize });
            },
        };
        match instr {
            Instruction::MovR1 => {
                let imm = match self.memory.read_u16(addr as usize + 1) {
                    Ok(v) => v,
                    Err(e) => {
                        return Err(e);
                    },
                };
                self.registers.set(Register::R1, imm);
            },
            Instruction::MovR2 => {
                let imm = match self.memory.read_u16(addr as usize + 1) {
                    Ok(v) => v,
                    Err(e) => {
                        return Err(e);
                    },
                };
                self.registers.set(Register::R2, imm);
            },
            Instruction::AddR1R2 => {
                let a = self.registers.get(Register::R1);
                let b = self.registers.get(Register::R2);
                self.registers.set(Register::ACC, a.wrapping_add(b));
            },
        }
        self.registers.set(Register::IP, addr.wrapping_add(instr.width()));
        Ok(())
    }

    /// Steps until a fault or until `max_steps` steps have run. Returns the
    /// fault that stopped the run, or `Ok` when the step budget ran out.
    pub fn run(&mut self, max_steps: usize) -> (r: Result<(), Fault>)
        ensures
            final(self)@.memory == old(self)@.memory,
            (final(self)@.registers, r) == run_spec(
                old(self)@.memory,
                old(self)@.registers,
                max_steps as nat,
            ),
    {
        let mut i: usize = 0;
        while i < max_steps
            invariant
                i <= max_steps,
                self@.memory == old(self)@.memory,
                run_spec(old(self)@.memory, old(self)@.registers, max_steps as nat) == run_spec(
                    self@.memory,
                    self@.registers,
                    (max_steps - i) as nat,
                ),
            decreases max_steps - i,
        {
            match self.step() {
                Ok(()) => {},
                Err(e) => {
                    return Err(e);
                },
            }
            i = i + 1;
        }
        Ok(())
    }

    /// Human-readable dump of all registers in enumeration order.
    pub fn display(&self) -> (r: String)
        ensures
            r@ == cpu_text(self@.registers),
    {
        let mut out = String::from_str("CPU: { ");
        let regs = self.registers.display();
        out.append(regs.as_str());
        out.append("}");
        out
    }
}

/// `MOV_R1` at any address loads its big-endian immediate into `R1`,
/// advances `IP` by exactly 3 and leaves every other register as it was.
pub proof fn lemma_mov_r1_step(memory: Seq<u8>, registers: Seq<u16>)
    requires
        registers.len() == REGISTER_COUNT,
        reg(registers, Register::IP) + 2 < memory.len(),
        memory[reg(registers, Register::IP) as int] == crate::instruction::OPCODE_MOV_R1,
    ensures
        ({
            let addr = reg(registers, Register::IP) as int;
            let next = registers.update(
                Register::R1.index(),
                crate::memory::be_word(memory[addr + 1], memory[addr + 2]),
            ).update(Register::IP.index(), advance(addr, 3));
            &&& step_spec(memory, registers) == Ok::<Seq<u16>, Fault>(next)
            &&& reg(next, Register::R1) == crate::memory::be_word(memory[addr + 1], memory[addr + 2])
            &&& reg(next, Register::IP) as int == (addr + 3) % 0x10000
        }),
{
}

/// `ADD_R1_R2` stores the 16-bit wrapping sum of `R1` and `R2` in `ACC` and
/// advances `IP` by exactly 1; it never faults.
pub proof fn lemma_add_step(memory: Seq<u8>, registers: Seq<u16>)
    requires
        registers.len() == REGISTER_COUNT,
        reg(registers, Register::IP) < memory.len(),
        memory[reg(registers, Register::IP) as int] == crate::instruction::OPCODE_ADD_R1_R2,
    ensures
        ({
            let addr = reg(registers, Register::IP) as int;
            let r1 = reg(registers, Register::R1) as int;
            let r2 = reg(registers, Register::R2) as int;
            &&& step_spec(memory, registers) is Ok
            &&& reg(step_spec(memory, registers)->Ok_0, Register::ACC) as int == (r1 + r2) % 0x10000
            &&& reg(step_spec(memory, registers)->Ok_0, Register::IP) as int == (addr + 1) % 0x10000
        }),
{
}

/// `MOV_R2 imm` followed by `ADD_R1_R2` leaves the wrapping sum of the
/// previous `R1` and `imm` in `ACC`, with `IP` one byte past the add.
pub proof fn lemma_mov_r2_then_add(memory: Seq<u8>, registers: Seq<u16>)
    requires
        registers.len() == REGISTER_COUNT,
        reg(registers, Register::IP) + 3 < memory.len(),
        reg(registers, Register::IP) + 3 < 0x10000,
        memory[reg(registers, Register::IP) as int] == crate::instruction::OPCODE_MOV_R2,
        memory[reg(registers, Register::IP) + 3] == crate::instruction::OPCODE_ADD_R1_R2,
    ensures
        ({
            let addr = reg(registers, Register::IP) as int;
            let imm = crate::memory::be_word(memory[addr + 1], memory[addr + 2]);
            let (after, outcome) = run_spec(memory, registers, 2);
            &&& outcome is Ok
            &&& reg(after, Register::R2) == imm
            &&& reg(after, Register::ACC) as int == (reg(registers, Register::R1) as int + imm as int)
                % 0x10000
            &&& reg(after, Register::IP) as int == (addr + 4) % 0x10000
        }),
{
    let addr = reg(registers, Register::IP) as int;
    let first = step_spec(memory, registers)->Ok_0;
    assert(reg(first, Register::IP) as int == addr + 3);
    assert(reg(first, Register::R2) == crate::memory::be_word(memory[addr + 1], memory[addr + 2]));
    lemma_add_step(memory, first);
    let second = step_spec(memory, first)->Ok_0;
    assert(run_spec(memory, second, 0) == (second, Ok::<(), Fault>(())));
    assert(run_spec(memory, first, 1) == (second, Ok::<(), Fault>(())));
    assert(run_spec(memory, registers, 2) == run_spec(memory, first, 1));
    assert(reg(second, Register::R2) == reg(first, Register::R2));
    assert(reg(second, Register::R1) == reg(registers, Register::R1));
}

/// A step that fetches a byte outside the opcode table fails with
/// `UnknownOpcode` of that byte and address, so a run stops there with every
/// register as it was before that step.
pub proof fn lemma_unknown_opcode_halts(memory: Seq<u8>, registers: Seq<u16>, steps: nat)
    requires
        steps > 0,
        reg(registers, Register::IP) < memory.len(),
        decode_spec(memory[reg(registers, Register::IP) as int]) is Err,
    ensures
        ({
            let addr = reg(registers, Register::IP) as int;
            let fault = Fault::UnknownOpcode { byte: memory[addr], address: addr as usize };
            &&& step_spec(memory, registers) == Err::<Seq<u16>, Fault>(fault)
            &&& run_spec(memory, registers, steps) == (registers, Err::<(), Fault>(fault))
        }),
{
}

/// A run that ends in a fault leaves the registers exactly as they were before
/// the faulting step: stepping from the final registers raises that same fault.
pub proof fn lemma_run_fault_is_clean(memory: Seq<u8>, registers: Seq<u16>, steps: nat)
    ensures
        ({
            let (after, outcome) = run_spec(memory, registers, steps);
            outcome is Err ==> step_spec(memory, after) == Err::<Seq<u16>, Fault>(outcome->Err_0)
        }),
    decreases steps,
{
    if steps > 0 {
        if let Ok(next) = step_spec(memory, registers) {
            lemma_run_fault_is_clean(memory, next, (steps - 1) as nat);
        }
    }
}

/// Inspection depends on the registers alone: two dumps of the same register
/// state, with no step between them, are identical.
pub proof fn lemma_display_deterministic(a: &Cpu, b: &Cpu)
    requires
        a@.registers == b@.registers,
    ensures
        cpu_text(a@.registers) == cpu_text(b@.registers),
        dump_text(a@.registers) == dump_text(b@.registers),
{
}

} // verus!
