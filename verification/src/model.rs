//! The machine as a mathematical state, and the meaning of every
//! instruction as a function on that state.
//!
//! Every operation gives the state it leaves and its outcome. A fault leaves
//! the state as it was when the fault arose: what was done before stays done.

use crate::device_mapper::{mapped_read, mapped_read64, mapped_write64, RegionModel};
use crate::fault::Fault;
use crate::opcodes::{AddrMode, Instruction, Opcode, Operand};
use crate::register::{Register, REGISTER_COUNT};
use vstd::prelude::*;
use vstd::wrapping::u64_specs;

verus! {

/// Whether the machine goes on after an instruction.
#[derive(Clone, Copy, Debug, PartialEq, Eq, Structural)]
pub enum Status {
    /// The next instruction can be fetched.
    Running,
    /// A halt instruction was executed.
    Halted,
}

/// The kind of one operand position of an addressing mode.
#[derive(Clone, Copy, Debug, PartialEq, Eq, Structural)]
pub enum OperandKind {
    /// No operand: no byte is fetched.
    Absent,
    /// A register index: one byte.
    Reg,
    /// An immediate value: eight bytes.
    Imm,
    /// A memory address: eight bytes.
    Mem,
}

/// The kind of the first operand of an addressing mode.
pub open spec fn first_kind(mode: AddrMode) -> OperandKind {
    match mode {
        AddrMode::Null => OperandKind::Absent,
        AddrMode::RegToReg => OperandKind::Reg,
        AddrMode::RegToMem => OperandKind::Reg,
        AddrMode::ImmToReg => OperandKind::Imm,
        AddrMode::ImmToMem => OperandKind::Imm,
        AddrMode::MemToReg => OperandKind::Mem,
        AddrMode::MemToMem => OperandKind::Mem,
        AddrMode::Literal => OperandKind::Imm,
        AddrMode::Register => OperandKind::Reg,
        AddrMode::Memory => OperandKind::Mem,
    }
}

/// The kind of the second operand of an addressing mode.
pub open spec fn second_kind(mode: AddrMode) -> OperandKind {
    match mode {
        AddrMode::Null => OperandKind::Absent,
        AddrMode::RegToReg => OperandKind::Reg,
        AddrMode::RegToMem => OperandKind::Mem,
        AddrMode::ImmToReg => OperandKind::Reg,
        AddrMode::ImmToMem => OperandKind::Mem,
        AddrMode::MemToReg => OperandKind::Reg,
        AddrMode::MemToMem => OperandKind::Mem,
        AddrMode::Literal => OperandKind::Absent,
        AddrMode::Register => OperandKind::Absent,
        AddrMode::Memory => OperandKind::Absent,
    }
}

/// The register that a register operand names: the one at that index of the
/// register table. An index beyond the table is a fault.
pub open spec fn reg_of(index: u8) -> Result<Register, Fault> {
    match Register::spec_from_slot(index) {
        Some(r) => Ok(r),
        None => Err(Fault::UnknownRegister(index)),
    }
}

/// The result of an arithmetic opcode on `a` and `b`. Sums, differences and
/// products are reduced to 64 bits; a zero divisor is a fault.
pub open spec fn arith(op: Opcode, a: u64, b: u64) -> Result<u64, Fault> {
    match op {
        Opcode::Add => Ok(u64_specs::wrapping_add(a, b)),
        Opcode::Sub => Ok(u64_specs::wrapping_sub(a, b)),
        Opcode::Mul => Ok(u64_specs::wrapping_mul(a, b)),
        Opcode::Div => if b == 0 {
            Err(Fault::DivideByZero)
        } else {
            Ok(a / b)
        },
        _ => Err(Fault::InvalidOperand(op)),
    }
}

/// The result of a two-operand bitwise opcode on `a` and `b`. A shift uses
/// the low six bits of its amount.
pub open spec fn bitwise(op: Opcode, a: u64, b: u64) -> Result<u64, Fault> {
    match op {
        Opcode::And => Ok(a & b),
        Opcode::Or => Ok(a | b),
        Opcode::Xor => Ok(a ^ b),
        Opcode::Shl => Ok(u64_specs::wrapping_shl(a, (b % 64) as u32)),
        Opcode::Shr => Ok(u64_specs::wrapping_shr(a, (b % 64) as u32)),
        _ => Err(Fault::InvalidOperand(op)),
    }
}

/// The result of a one-operand opcode on `a`.
pub open spec fn unary(op: Opcode, a: u64) -> Result<u64, Fault> {
    match op {
        Opcode::Inc => Ok(u64_specs::wrapping_add(a, 1)),
        Opcode::Dec => Ok(u64_specs::wrapping_sub(a, 1)),
        Opcode::Not => Ok(!a),
        _ => Err(Fault::InvalidOperand(op)),
    }
}

/// Whether a branch opcode jumps, given the accumulator and the operand.
pub open spec fn taken(op: Opcode, acc: u64, operand: u64) -> bool {
    match op {
        Opcode::Jmp => true,
        Opcode::Jeq => acc == operand,
        Opcode::Jne => acc != operand,
        Opcode::Jgt => acc > operand,
        Opcode::Jlt => acc < operand,
        Opcode::Jge => acc >= operand,
        Opcode::Jle => acc <= operand,
        Opcode::Jnz => acc != 0,
        Opcode::Jz => acc == 0,
        _ => false,
    }
}

/// The registers that a call saves, in the order in which it pushes them:
/// the instruction pointer, the eight general-purpose registers, the frame
/// size.
pub open spec fn saved_register(i: nat) -> Register {
    if i == 0 {
        Register::InstructionPointer
    } else if i == 1 {
        Register::Reg1
    } else if i == 2 {
        Register::Reg2
    } else if i == 3 {
        Register::Reg3
    } else if i == 4 {
        Register::Reg4
    } else if i == 5 {
        Register::Reg5
    } else if i == 6 {
        Register::Reg6
    } else if i == 7 {
        Register::Reg7
    } else if i == 8 {
        Register::Reg8
    } else {
        Register::FrameSize
    }
}

/// How many registers a call saves.
pub const SAVED_COUNT: u8 = 10;

/// The mathematical state of the machine.
pub struct CpuModel {
    /// The value of each register, by slot.
    pub regs: Seq<u64>,
    /// The regions of the address space, in priority order.
    pub mem: Seq<RegionModel>,
    /// The top of addressable memory.
    pub mem_size: u64,
}

impl CpuModel {
    /// Every register has its slot.
    pub open spec fn wf(self) -> bool {
        self.regs.len() == REGISTER_COUNT
    }

    /// The value of a register.
    pub open spec fn reg(self, r: Register) -> u64 {
        self.regs[r.spec_slot() as int]
    }

    /// The state with one register changed.
    pub open spec fn set_reg(self, r: Register, value: u64) -> CpuModel {
        CpuModel {
            regs: self.regs.update(r.spec_slot() as int, value),
            mem: self.mem,
            mem_size: self.mem_size,
        }
    }

    /// The state with the address space replaced.
    pub open spec fn with_mem(self, mem: Seq<RegionModel>) -> CpuModel {
        CpuModel { regs: self.regs, mem, mem_size: self.mem_size }
    }

    /// This state, after an operation that succeeded.
    pub open spec fn done(self) -> (CpuModel, Result<(), Fault>) {
        (self, Ok(()))
    }

    /// This state, after an operation that faulted.
    pub open spec fn fail(self, fault: Fault) -> (CpuModel, Result<(), Fault>) {
        (self, Err(fault))
    }

    /// Reads the 64-bit word at `addr`.
    pub open spec fn load(self, addr: u64) -> Result<u64, Fault> {
        mapped_read64(self.mem, addr)
    }

    /// Writes the 64-bit word `value` at `addr`.
    pub open spec fn store(self, addr: u64, value: u64) -> (CpuModel, Result<(), Fault>) {
        let w = mapped_write64(self.mem, addr, value);
        (self.with_mem(w.0), w.1)
    }

    /// Puts a computed value into the accumulator, or passes its fault on.
    pub open spec fn set_acc(self, value: Result<u64, Fault>) -> (CpuModel, Result<(), Fault>) {
        match value {
            Ok(v) => self.set_reg(Register::Accumulator, v).done(),
            Err(e) => self.fail(e),
        }
    }

    /// Fetches one byte at the instruction pointer and advances it by one.
    pub open spec fn fetch8(self) -> (CpuModel, Result<u8, Fault>) {
        let ip = self.reg(Register::InstructionPointer);
        match mapped_read(self.mem, ip) {
            Ok(b) => (
                self.set_reg(Register::InstructionPointer, u64_specs::wrapping_add(ip, 1)),
                Ok(b),
            ),
            Err(e) => (self, Err(e)),
        }
    }

    /// Fetches one 64-bit word at the instruction pointer, combined
    /// least significant byte first, and advances the pointer by eight.
    pub open spec fn fetch64(self) -> (CpuModel, Result<u64, Fault>) {
        let ip = self.reg(Register::InstructionPointer);
        match mapped_read64(self.mem, ip) {
            Ok(v) => (
                self.set_reg(Register::InstructionPointer, u64_specs::wrapping_add(ip, 8)),
                Ok(v),
            ),
            Err(e) => (self, Err(e)),
        }
    }

    /// Fetches one operand of the given kind.
    pub open spec fn fetch_operand(self, kind: OperandKind) -> (CpuModel, Result<Operand, Fault>) {
        match kind {
            OperandKind::Absent => (self, Ok(Operand::Null)),
            OperandKind::Reg => {
                let f = self.fetch8();
                (
                    f.0,
                    match f.1 {
                        Ok(b) => Ok(Operand::Reg(b)),
                        Err(e) => Err(e),
                    },
                )
            },
            OperandKind::Imm => {
                let f = self.fetch64();
                (
                    f.0,
                    match f.1 {
                        Ok(v) => Ok(Operand::Imm(v)),
                        Err(e) => Err(e),
                    },
                )
            },
            OperandKind::Mem => {
                let f = self.fetch64();
                (
                    f.0,
                    match f.1 {
                        Ok(v) => Ok(Operand::Mem(v)),
                        Err(e) => Err(e),
                    },
                )
            },
        }
    }

    /// Fetches the operand pair of an addressing mode, first operand first.
    pub open spec fn fetch_operands(self, mode: AddrMode) -> (
        CpuModel,
        Result<(Operand, Operand), Fault>,
    ) {
        let a = self.fetch_operand(first_kind(mode));
        match a.1 {
            Err(e) => (a.0, Err(e)),
            Ok(first) => {
                let b = a.0.fetch_operand(second_kind(mode));
                match b.1 {
                    Err(e) => (b.0, Err(e)),
                    Ok(second) => (b.0, Ok((first, second))),
                }
            },
        }
    }

    /// Fetches and decodes one instruction: the opcode byte, the
    /// addressing-mode byte, then the operands.
    pub open spec fn fetch(self) -> (CpuModel, Result<Instruction, Fault>) {
        let a = self.fetch8();
        match a.1 {
            Err(e) => (a.0, Err(e)),
            Ok(op_byte) => match Opcode::spec_decode(op_byte) {
                None => (a.0, Err(Fault::InvalidOpcode(op_byte))),
                Some(opcode) => {
                    let b = a.0.fetch8();
                    match b.1 {
                        Err(e) => (b.0, Err(e)),
                        Ok(mode_byte) => match AddrMode::spec_decode(mode_byte) {
                            None => (b.0, Err(Fault::InvalidAddrMode(mode_byte))),
                            Some(addr_mode) => {
                                let c = b.0.fetch_operands(addr_mode);
                                match c.1 {
                                    Err(e) => (c.0, Err(e)),
                                    Ok(operands) => (
                                        c.0,
                                        Ok(Instruction { opcode, addr_mode, operands }),
                                    ),
                                }
                            },
                        },
                    }
                },
            },
        }
    }

    /// Copies a value from the first operand to the second, in any of the
    /// six shapes that name a source and a destination.
    pub open spec fn transfer(self, op: Opcode, operands: (Operand, Operand)) -> (
        CpuModel,
        Result<(), Fault>,
    ) {
        match operands {
            (Operand::Imm(imm), Operand::Reg(r)) => match reg_of(r) {
                Err(e) => self.fail(e),
                Ok(dst) => self.set_reg(dst, imm).done(),
            },
            (Operand::Imm(imm), Operand::Mem(m)) => self.store(m, imm),
            (Operand::Reg(a), Operand::Reg(b)) => match reg_of(a) {
                Err(e) => self.fail(e),
                Ok(src) => match reg_of(b) {
                    Err(e) => self.fail(e),
                    Ok(dst) => self.set_reg(dst, self.reg(src)).done(),
                },
            },
            (Operand::Reg(a), Operand::Mem(m)) => match reg_of(a) {
                Err(e) => self.fail(e),
                Ok(src) => self.store(m, self.reg(src)),
            },
            (Operand::Mem(m), Operand::Reg(r)) => match reg_of(r) {
                Err(e) => self.fail(e),
                Ok(dst) => match self.load(m) {
                    Err(e) => self.fail(e),
                    Ok(v) => self.set_reg(dst, v).done(),
                },
            },
            (Operand::Mem(a), Operand::Mem(b)) => match self.load(a) {
                Err(e) => self.fail(e),
                Ok(v) => self.store(b, v),
            },
            _ => self.fail(Fault::InvalidOperand(op)),
        }
    }

    /// `mov`: a transfer in any of the six shapes.
    pub open spec fn mov(self, operands: (Operand, Operand)) -> (CpuModel, Result<(), Fault>) {
        self.transfer(Opcode::Mov, operands)
    }

    /// `lod`: a transfer into a register, from an immediate or from memory.
    pub open spec fn lod(self, operands: (Operand, Operand)) -> (CpuModel, Result<(), Fault>) {
        if (operands.0 is Imm || operands.0 is Mem) && operands.1 is Reg {
            self.transfer(Opcode::Lod, operands)
        } else {
            self.fail(Fault::InvalidOperand(Opcode::Lod))
        }
    }

    /// `str`: a transfer into memory.
    pub open spec fn str(self, operands: (Operand, Operand)) -> (CpuModel, Result<(), Fault>) {
        if !(operands.0 is Null) && operands.1 is Mem {
            self.transfer(Opcode::Str, operands)
        } else {
            self.fail(Fault::InvalidOperand(Opcode::Str))
        }
    }

    /// `add`, `sub`, `mul`, `div`: the result goes to the accumulator. With
    /// an immediate, the register is the left operand; otherwise the first
    /// operand is.
    pub open spec fn arith_op(self, op: Opcode, operands: (Operand, Operand)) -> (
        CpuModel,
        Result<(), Fault>,
    ) {
        match operands {
            (Operand::Imm(imm), Operand::Reg(r)) => match reg_of(r) {
                Err(e) => self.fail(e),
                Ok(x) => self.set_acc(arith(op, self.reg(x), imm)),
            },
            (Operand::Reg(a), Operand::Reg(b)) => match reg_of(a) {
                Err(e) => self.fail(e),
                Ok(x) => match reg_of(b) {
                    Err(e) => self.fail(e),
                    Ok(y) => self.set_acc(arith(op, self.reg(x), self.reg(y))),
                },
            },
            (Operand::Mem(m), Operand::Reg(r)) => match reg_of(r) {
                Err(e) => self.fail(e),
                Ok(y) => match self.load(m) {
                    Err(e) => self.fail(e),
                    Ok(v) => self.set_acc(arith(op, v, self.reg(y))),
                },
            },
            _ => self.fail(Fault::InvalidOperand(op)),
        }
    }

    /// `and`, `or`, `xor`, `shl`, `shr`: the result goes to the accumulator.
    pub open spec fn bitwise_op(self, op: Opcode, operands: (Operand, Operand)) -> (
        CpuModel,
        Result<(), Fault>,
    ) {
        match operands {
            (Operand::Reg(r), Operand::Imm(imm)) => match reg_of(r) {
                Err(e) => self.fail(e),
                Ok(x) => self.set_acc(bitwise(op, self.reg(x), imm)),
            },
            (Operand::Reg(a), Operand::Reg(b)) => match reg_of(a) {
                Err(e) => self.fail(e),
                Ok(x) => match reg_of(b) {
                    Err(e) => self.fail(e),
                    Ok(y) => self.set_acc(bitwise(op, self.reg(x), self.reg(y))),
                },
            },
            _ => self.fail(Fault::InvalidOperand(op)),
        }
    }

    /// `inc`, `dec`: from a register the result goes to the accumulator;
    /// from memory it goes back to the same address.
    pub open spec fn step_op(self, op: Opcode, operands: (Operand, Operand)) -> (
        CpuModel,
        Result<(), Fault>,
    ) {
        match operands {
            (Operand::Reg(r), Operand::Null) => match reg_of(r) {
                Err(e) => self.fail(e),
                Ok(x) => self.set_acc(unary(op, self.reg(x))),
            },
            (Operand::Mem(m), Operand::Null) => match self.load(m) {
                Err(e) => self.fail(e),
                Ok(v) => match unary(op, v) {
                    Err(e) => self.fail(e),
                    Ok(w) => self.store(m, w),
                },
            },
            _ => self.fail(Fault::InvalidOperand(op)),
        }
    }

    /// `not`: the complement of a register or of a word of memory goes to
    /// the accumulator.
    pub open spec fn not(self, operands: (Operand, Operand)) -> (CpuModel, Result<(), Fault>) {
        match operands {
            (Operand::Reg(r), Operand::Null) => match reg_of(r) {
                Err(e) => self.fail(e),
                Ok(x) => self.set_acc(unary(Opcode::Not, self.reg(x))),
            },
            (Operand::Mem(m), Operand::Null) => match self.load(m) {
                Err(e) => self.fail(e),
                Ok(v) => self.set_acc(unary(Opcode::Not, v)),
            },
            _ => self.fail(Fault::InvalidOperand(Opcode::Not)),
        }
    }

    /// Sets the instruction pointer to `target` if the branch is taken.
    pub open spec fn jump_if(self, op: Opcode, target: u64) -> CpuModel {
        if taken(op, self.reg(Register::Accumulator), target) {
            self.set_reg(Register::InstructionPointer, target)
        } else {
            self
        }
    }

    /// `jmp` and the conditional jumps: the operand is both what the
    /// accumulator is compared with and the target.
    pub open spec fn branch(self, op: Opcode, operands: (Operand, Operand)) -> (
        CpuModel,
        Result<(), Fault>,
    ) {
        match operands {
            (Operand::Reg(r), Operand::Null) => match reg_of(r) {
                Err(e) => self.fail(e),
                Ok(x) => self.jump_if(op, self.reg(x)).done(),
            },
            (Operand::Imm(imm), Operand::Null) => self.jump_if(op, imm).done(),
            _ => self.fail(Fault::InvalidOperand(op)),
        }
    }

    /// Pushes a value: writes it at the stack pointer, then lowers the stack
    /// pointer by eight and raises the frame size by eight.
    pub open spec fn push_value(self, value: u64) -> (CpuModel, Result<(), Fault>) {
        let sp = self.reg(Register::StackPointer);
        let w = self.store(sp, value);
        if w.1 is Err {
            w
        } else {
            let lowered = w.0.set_reg(Register::StackPointer, u64_specs::wrapping_sub(sp, 8));
            lowered.set_reg(
                Register::FrameSize,
                u64_specs::wrapping_add(lowered.reg(Register::FrameSize), 8),
            ).done()
        }
    }

    /// `psh`: pushes an immediate or the value of a register.
    pub open spec fn psh(self, operands: (Operand, Operand)) -> (CpuModel, Result<(), Fault>) {
        match operands {
            (Operand::Imm(imm), Operand::Null) => self.push_value(imm),
            (Operand::Reg(r), _) => match reg_of(r) {
                Err(e) => self.fail(e),
                Ok(x) => self.push_value(self.reg(x)),
            },
            _ => self.fail(Fault::InvalidOperand(Opcode::Psh)),
        }
    }

    /// Raises the stack pointer by eight times `slots` and lowers the frame
    /// size by as much: what popping and discarding `slots` values does.
    pub open spec fn discard(self, slots: u64) -> CpuModel {
        let bytes = u64_specs::wrapping_mul(8, slots);
        let raised = self.set_reg(
            Register::StackPointer,
            u64_specs::wrapping_add(self.reg(Register::StackPointer), bytes),
        );
        raised.set_reg(
            Register::FrameSize,
            u64_specs::wrapping_sub(raised.reg(Register::FrameSize), bytes),
        )
    }

    /// Pops into a register: reads the word at the stack pointer into it,
    /// then raises the stack pointer by eight and lowers the frame size by
    /// eight.
    pub open spec fn pop_reg(self, r: Register) -> (CpuModel, Result<(), Fault>) {
        match self.load(self.reg(Register::StackPointer)) {
            Err(e) => self.fail(e),
            Ok(v) => {
                let sp = self.reg(Register::StackPointer);
                let filled = self.set_reg(r, v);
                let raised = filled.set_reg(
                    Register::StackPointer,
                    u64_specs::wrapping_add(sp, 8),
                );
                raised.set_reg(
                    Register::FrameSize,
                    u64_specs::wrapping_sub(raised.reg(Register::FrameSize), 8),
                ).done()
            },
        }
    }

    /// `pop`: pops into a register, or pops and discards.
    pub open spec fn pop(self, operands: (Operand, Operand)) -> (CpuModel, Result<(), Fault>) {
        match operands {
            (Operand::Reg(r), Operand::Null) => match reg_of(r) {
                Err(e) => self.fail(e),
                Ok(x) => self.pop_reg(x),
            },
            (Operand::Null, Operand::Null) => self.discard(1).done(),
            _ => self.fail(Fault::InvalidOperand(Opcode::Pop)),
        }
    }

    /// `dup`: copies the word at the stack pointer to the slot below and
    /// lowers the stack pointer by eight.
    pub open spec fn dup(self, operands: (Operand, Operand)) -> (CpuModel, Result<(), Fault>) {
        match operands {
            (Operand::Null, Operand::Null) => {
                let sp = self.reg(Register::StackPointer);
                match self.load(sp) {
                    Err(e) => self.fail(e),
                    Ok(v) => {
                        let below = u64_specs::wrapping_sub(sp, 8);
                        let w = self.store(below, v);
                        if w.1 is Err {
                            w
                        } else {
                            w.0.set_reg(Register::StackPointer, below).done()
                        }
                    },
                }
            },
            _ => self.fail(Fault::InvalidOperand(Opcode::Dup)),
        }
    }

    /// `swp`: exchanges the word at the stack pointer with the one above.
    pub open spec fn swp(self, operands: (Operand, Operand)) -> (CpuModel, Result<(), Fault>) {
        match operands {
            (Operand::Null, Operand::Null) => {
                let sp = self.reg(Register::StackPointer);
                let above = u64_specs::wrapping_add(sp, 8);
                match self.load(sp) {
                    Err(e) => self.fail(e),
                    Ok(lower) => match self.load(above) {
                        Err(e) => self.fail(e),
                        Ok(upper) => {
                            let w = self.store(sp, upper);
                            if w.1 is Err {
                                w
                            } else {
                                w.0.store(above, lower)
                            }
                        },
                    },
                }
            },
            _ => self.fail(Fault::InvalidOperand(Opcode::Swp)),
        }
    }

    /// `clr`: sets the stack pointer to the top of addressable memory.
    pub open spec fn clr(self, operands: (Operand, Operand)) -> (CpuModel, Result<(), Fault>) {
        match operands {
            (Operand::Null, Operand::Null) => self.set_reg(
                Register::StackPointer,
                self.mem_size,
            ).done(),
            _ => self.fail(Fault::InvalidOperand(Opcode::Clr)),
        }
    }

    /// Pushes the first `n` saved registers, each with the value it has when
    /// its turn comes. The first fault ends the pushing.
    pub open spec fn push_saved(self, n: nat) -> (CpuModel, Result<(), Fault>)
        decreases n,
    {
        if n == 0 {
            self.done()
        } else {
            let before = self.push_saved((n - 1) as nat);
            if before.1 is Err {
                before
            } else {
                before.0.push_value(before.0.reg(saved_register((n - 1) as nat)))
            }
        }
    }

    /// Saves the state for a call: pushes the saved registers, sets the
    /// frame size to zero and the frame pointer to the stack pointer.
    pub open spec fn push_state(self) -> (CpuModel, Result<(), Fault>) {
        let pushed = self.push_saved(SAVED_COUNT as nat);
        if pushed.1 is Err {
            pushed
        } else {
            let cleared = pushed.0.set_reg(Register::FrameSize, 0);
            cleared.set_reg(Register::FramePointer, cleared.reg(Register::StackPointer)).done()
        }
    }

    /// Pops the last `n` saved registers, last saved first. The first fault
    /// ends the popping.
    pub open spec fn pop_saved(self, n: nat) -> (CpuModel, Result<(), Fault>)
        decreases n,
    {
        if n == 0 {
            self.done()
        } else {
            let before = self.pop_saved((n - 1) as nat);
            if before.1 is Err {
                before
            } else {
                before.0.pop_reg(saved_register((SAVED_COUNT - n) as nat))
            }
        }
    }

    /// Restores the state for a return: pops the saved registers, discards
    /// one slot for each unit of the argument count, then sets the frame
    /// pointer to the sum of frame size and frame pointer.
    pub open spec fn pop_state(self) -> (CpuModel, Result<(), Fault>) {
        let popped = self.pop_saved(SAVED_COUNT as nat);
        if popped.1 is Err {
            popped
        } else {
            let cleaned = popped.0.discard(popped.0.reg(Register::ArgCount));
            cleaned.set_reg(
                Register::FramePointer,
                u64_specs::wrapping_add(
                    cleaned.reg(Register::FrameSize),
                    cleaned.reg(Register::FramePointer),
                ),
            ).done()
        }
    }

    /// `cal`: saves the state, then sets the instruction pointer to the
    /// target. A register target is read after the state is saved.
    pub open spec fn cal(self, operands: (Operand, Operand)) -> (CpuModel, Result<(), Fault>) {
        match operands {
            (Operand::Imm(imm), Operand::Null) => {
                let saved = self.push_state();
                if saved.1 is Err {
                    saved
                } else {
                    saved.0.set_reg(Register::InstructionPointer, imm).done()
                }
            },
            (Operand::Reg(r), _) => {
                let saved = self.push_state();
                if saved.1 is Err {
                    saved
                } else {
                    match reg_of(r) {
                        Err(e) => saved.0.fail(e),
                        Ok(x) => saved.0.set_reg(
                            Register::InstructionPointer,
                            saved.0.reg(x),
                        ).done(),
                    }
                }
            },
            _ => self.fail(Fault::InvalidOperand(Opcode::Cal)),
        }
    }

    /// `ret`: restores the state.
    pub open spec fn ret(self, operands: (Operand, Operand)) -> (CpuModel, Result<(), Fault>) {
        match operands {
            (Operand::Null, Operand::Null) => self.pop_state(),
            _ => self.fail(Fault::InvalidOperand(Opcode::Ret)),
        }
    }

    /// What the handler of an opcode does with an operand pair.
    pub open spec fn handle(self, opcode: Opcode, operands: (Operand, Operand)) -> (
        CpuModel,
        Result<(), Fault>,
    ) {
        match opcode {
            Opcode::Nop => self.done(),
            Opcode::Hlt => self.done(),
            Opcode::Mov => self.mov(operands),
            Opcode::Lod => self.lod(operands),
            Opcode::Str => self.str(operands),
            Opcode::Add => self.arith_op(Opcode::Add, operands),
            Opcode::Sub => self.arith_op(Opcode::Sub, operands),
            Opcode::Mul => self.arith_op(Opcode::Mul, operands),
            Opcode::Div => self.arith_op(Opcode::Div, operands),
            Opcode::Inc => self.step_op(Opcode::Inc, operands),
            Opcode::Dec => self.step_op(Opcode::Dec, operands),
            Opcode::And => self.bitwise_op(Opcode::And, operands),
            Opcode::Or => self.bitwise_op(Opcode::Or, operands),
            Opcode::Xor => self.bitwise_op(Opcode::Xor, operands),
            Opcode::Not => self.not(operands),
            Opcode::Shl => self.bitwise_op(Opcode::Shl, operands),
            Opcode::Shr => self.bitwise_op(Opcode::Shr, operands),
            Opcode::Jmp => self.branch(Opcode::Jmp, operands),
            Opcode::Jeq => self.branch(Opcode::Jeq, operands),
            Opcode::Jne => self.branch(Opcode::Jne, operands),
            Opcode::Jgt => self.branch(Opcode::Jgt, operands),
            Opcode::Jlt => self.branch(Opcode::Jlt, operands),
            Opcode::Jge => self.branch(Opcode::Jge, operands),
            Opcode::Jle => self.branch(Opcode::Jle, operands),
            Opcode::Jnz => self.branch(Opcode::Jnz, operands),
            Opcode::Jz => self.branch(Opcode::Jz, operands),
            Opcode::Psh => self.psh(operands),
            Opcode::Pop => self.pop(operands),
            Opcode::Dup => self.dup(operands),
            Opcode::Swp => self.swp(operands),
            Opcode::Clr => self.clr(operands),
            Opcode::Ret => self.ret(operands),
            Opcode::Cal => self.cal(operands),
        }
    }

    /// Executes one decoded instruction. A halt stops the machine; every
    /// other opcode that does not fault lets it run on.
    pub open spec fn execute(self, instr: Instruction) -> (CpuModel, Result<Status, Fault>) {
        let h = self.handle(instr.opcode, instr.operands);
        (
            h.0,
            match h.1 {
                Err(e) => Err(e),
                Ok(_) => if instr.opcode == Opcode::Hlt {
                    Ok(Status::Halted)
                } else {
                    Ok(Status::Running)
                },
            },
        )
    }

    /// One cycle: fetch, then execute.
    pub open spec fn step(self) -> (CpuModel, Result<Status, Fault>) {
        let f = self.fetch();
        match f.1 {
            Err(e) => (f.0, Err(e)),
            Ok(instr) => f.0.execute(instr),
        }
    }

    /// At most `limit` cycles: the machine stops early at a halt or a fault.
    pub open spec fn run(self, limit: nat) -> (CpuModel, Result<Status, Fault>)
        decreases limit,
    {
        if limit == 0 {
            (self, Ok(Status::Running))
        } else {
            let s = self.step();
            if s.1 == Ok::<Status, Fault>(Status::Running) {
                s.0.run((limit - 1) as nat)
            } else {
                s
            }
        }
    }
}

} // verus!
