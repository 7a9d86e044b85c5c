//! The CPU: the register file, the address space, and the
//! fetch-decode-execute engine over them.

use crate::device::{lemma_word_apart, lemma_word_read_back, word_at, word_prefix, Device};
use crate::device_mapper::{drained_upto, pending_output, DeviceMapper, RegionModel};
use crate::fault::Fault;
use crate::model::{
    arith, bitwise, first_kind, reg_of, saved_register, second_kind, taken, unary, CpuModel,
    OperandKind, Status,
};
use crate::opcodes::{AddrMode, Instruction, Opcode, Operand};
use crate::peripheral::Peripheral;
use crate::register::{register_table, Register, REGISTER_COUNT, SLOT_BYTES};
use crate::registers::Registers;
use crate::table::{no_entries, table_entries, table_get, table_insert, table_new, RegisterTable};
use vstd::prelude::*;

verus! {

/// Size of the register file in bytes.
pub const REGISTER_FILE_BYTES: usize = 112;

/// The table that a CPU keeps: under each register's code, the address of
/// its slot in the register file.
pub open spec fn slot_addresses(upto: int) -> Map<u8, u64> {
    Map::new(|code: u8| 1 <= code <= upto, |code: u8| ((code - 1) * SLOT_BYTES) as u64)
}

/// The values of the register slots held in the bytes of a register file.
pub open spec fn slots(bytes: Seq<u8>) -> Seq<u64> {
    Seq::new(REGISTER_COUNT as nat, |i: int| word_at(bytes, SLOT_BYTES * i))
}

/// The register values of a new CPU: the stack pointer holds `mem_size`,
/// every other register zero.
pub open spec fn initial_registers(mem_size: u64) -> Seq<u64> {
    Seq::new(
        REGISTER_COUNT as nat,
        |i: int|
            if i == Register::StackPointer.spec_slot() {
                mem_size
            } else {
                0u64
            },
    )
}

proof fn lemma_zero_bits()
    by (bit_vector)
    ensures
        0u64 | (0u64 << 0u64) | (0u64 << 8u64) | (0u64 << 16u64) | (0u64 << 24u64) | (0u64 << 32u64)
            | (0u64 << 40u64) | (0u64 << 48u64) | (0u64 << 56u64) == 0u64,
{
}

/// Every word of a sequence of zero bytes is zero.
proof fn lemma_zero_word(bytes: Seq<u8>, at: int)
    requires
        0 <= at,
        at + 8 <= bytes.len(),
        forall|i: int| 0 <= i < bytes.len() ==> bytes[i] == 0u8,
    ensures
        word_at(bytes, at) == 0u64,
{
    reveal_with_fuel(word_prefix, 9);
    lemma_zero_bits();
}

/// The kinds of the two operands of an addressing mode.
fn operand_kinds(mode: AddrMode) -> (r: (OperandKind, OperandKind))
    ensures
        r.0 == first_kind(mode),
        r.1 == second_kind(mode),
{
    match mode {
        AddrMode::Null => (OperandKind::Absent, OperandKind::Absent),
        AddrMode::RegToReg => (OperandKind::Reg, OperandKind::Reg),
        AddrMode::RegToMem => (OperandKind::Reg, OperandKind::Mem),
        AddrMode::ImmToReg => (OperandKind::Imm, OperandKind::Reg),
        AddrMode::ImmToMem => (OperandKind::Imm, OperandKind::Mem),
        AddrMode::MemToReg => (OperandKind::Mem, OperandKind::Reg),
        AddrMode::MemToMem => (OperandKind::Mem, OperandKind::Mem),
        AddrMode::Literal => (OperandKind::Imm, OperandKind::Absent),
        AddrMode::Register => (OperandKind::Reg, OperandKind::Absent),
        AddrMode::Memory => (OperandKind::Mem, OperandKind::Absent),
    }
}

pub(crate) fn arith_value(op: Opcode, a: u64, b: u64) -> (r: Result<u64, Fault>)
    ensures
        r == arith(op, a, b),
{
    match op {
        Opcode::Add => Ok(a.wrapping_add(b)),
        Opcode::Sub => Ok(a.wrapping_sub(b)),
        Opcode::Mul => Ok(a.wrapping_mul(b)),
        Opcode::Div => if b == 0 {
            Err(Fault::DivideByZero)
        } else {
            Ok(a / b)
        },
        _ => Err(Fault::InvalidOperand(op)),
    }
}

pub(crate) fn bitwise_value(op: Opcode, a: u64, b: u64) -> (r: Result<u64, Fault>)
    ensures
        r == bitwise(op, a, b),
{
    match op {
        Opcode::And => Ok(a & b),
        Opcode::Or => Ok(a | b),
        Opcode::Xor => Ok(a ^ b),
        Opcode::Shl => Ok(a.wrapping_shl((b % 64) as u32)),
        Opcode::Shr => Ok(a.wrapping_shr((b % 64) as u32)),
        _ => Err(Fault::InvalidOperand(op)),
    }
}

pub(crate) fn unary_value(op: Opcode, a: u64) -> (r: Result<u64, Fault>)
    ensures
        r == unary(op, a),
{
    match op {
        Opcode::Inc => Ok(a.wrapping_add(1)),
        Opcode::Dec => Ok(a.wrapping_sub(1)),
        Opcode::Not => Ok(!a),
        _ => Err(Fault::InvalidOperand(op)),
    }
}

pub(crate) fn jump_taken(op: Opcode, acc: u64, operand: u64) -> (r: bool)
    ensures
        r == taken(op, acc, operand),
{
    match op {
        Opcode::Jmp => true,
        Opcode::Jeq => acc == operand,
        Opcode::Jne => acc != operand,
        Opcode::Jgt => acc > operand,
        Opcode::Jlt => acc < operand,
        Opcode::Jge => acc >= operand,
        Opcode::Jle => acc <= operand,
        Opcode::Jnz => acc != 0,
        Opcode::Jz => acc == 0,
        _ => false,
    }
}

pub(crate) fn nth_saved(i: u8) -> (r: Register)
    ensures
        r == saved_register(i as nat),
{
    match i {
        0 => Register::InstructionPointer,
        1 => Register::Reg1,
        2 => Register::Reg2,
        3 => Register::Reg3,
        4 => Register::Reg4,
        5 => Register::Reg5,
        6 => Register::Reg6,
        7 => Register::Reg7,
        8 => Register::Reg8,
        _ => Register::FrameSize,
    }
}

/// The virtual CPU.
pub struct Cpu {
    dev_mapper: DeviceMapper,
    regs: Registers,
    regs_names: Vec<Register>,
    regs_addr_map: RegisterTable,
    mem_size: u64,
}

impl View for Cpu {
    type V = CpuModel;

    closed spec fn view(&self) -> CpuModel {
        CpuModel { regs: slots(self.regs@), mem: self.dev_mapper@, mem_size: self.mem_size }
    }
}

impl Cpu {
    /// The register file has one slot per register, and the two tables are
    /// the fixed ones.
    pub closed spec fn wf(&self) -> bool {
        &&& self.regs@.len() == REGISTER_FILE_BYTES
        &&& self.regs_names@ == register_table()
        &&& table_entries(self.regs_addr_map) == slot_addresses(REGISTER_COUNT as int)
    }

    /// The state of a CPU has a slot for every register.
    pub proof fn lemma_state_wf(&self)
        ensures
            self@.wf(),
    {
    }

    /// A CPU with no device attached. The stack pointer starts at
    /// `mem_size`, the top of addressable memory.
    pub fn new(mem_size: usize) -> (cpu: Self)
        ensures
            cpu.wf(),
            cpu@ == (CpuModel {
                regs: initial_registers(mem_size as u64),
                mem: Seq::<RegionModel>::empty(),
                mem_size: mem_size as u64,
            }),
    {
        let regs_names = Register::all();
        let regs = Registers::new(REGISTER_FILE_BYTES);
        let mut regs_addr_map = table_new();
        let mut i: usize = 0;
        assert(no_entries() =~= slot_addresses(0));
        while i < regs_names.len()
            invariant
                i <= regs_names@.len(),
                regs_names@ == register_table(),
                table_entries(regs_addr_map) == slot_addresses(i as int),
            decreases regs_names@.len() - i,
        {
            let reg = regs_names[i];
            let _ = table_insert(&mut regs_addr_map, reg.code(), (i as u64) * SLOT_BYTES);
            assert(table_entries(regs_addr_map) =~= slot_addresses(i + 1));
            i = i + 1;
        }
        let mut cpu = Self {
            regs,
            regs_names,
            regs_addr_map,
            dev_mapper: DeviceMapper::new(),
            mem_size: mem_size as u64,
        };
        proof {
            assert forall|j: int| 0 <= j < REGISTER_COUNT implies #[trigger] slots(cpu.regs@)[j]
                == 0u64 by {
                lemma_zero_word(cpu.regs@, SLOT_BYTES * j);
            }
        }
        cpu.write_reg(Register::StackPointer, mem_size as u64);
        assert(cpu@.regs =~= initial_registers(mem_size as u64));
        cpu
    }

    /// Maps a device into the address space at `start`, ahead of every
    /// device attached before.
    pub fn attach(&mut self, device: Peripheral, dev_name: String, start: u64)
        requires
            old(self).wf(),
        ensures
            final(self).wf(),
            final(self)@ == old(self)@.with_mem(
                seq![RegionModel::bind(device.model(), dev_name@, start)] + old(self)@.mem,
            ),
    {
        self.dev_mapper.map(device, dev_name, start);
    }

    /// Hands out what the consoles have emitted since the last call.
    pub fn take_output(&mut self) -> (out: Vec<u8>)
        requires
            old(self).wf(),
        ensures
            final(self).wf(),
            out@ == pending_output(old(self)@.mem, old(self)@.mem.len() as int),
            final(self)@ == old(self)@.with_mem(
                drained_upto(old(self)@.mem, old(self)@.mem.len() as int),
            ),
    {
        self.dev_mapper.take_output()
    }

    /// Runs at most `limit` cycles. Stops early at a halt, with
    /// `Ok(Status::Halted)`, or at a fault; `Ok(Status::Running)` says that
    /// the limit was reached.
    pub fn run(&mut self, limit: u64) -> (r: Result<Status, Fault>)
        requires
            old(self).wf(),
        ensures
            final(self).wf(),
            final(self)@ == old(self)@.run(limit as nat).0,
            r == old(self)@.run(limit as nat).1,
    {
        let mut cycles: u64 = 0;
        while cycles < limit
            invariant
                self.wf(),
                cycles <= limit,
                old(self)@.run(limit as nat) == self@.run((limit - cycles) as nat),
            decreases limit - cycles,
        {
            let status = self.step();
            match status {
                Ok(Status::Running) => {},
                _ => {
                    return status;
                },
            }
            cycles = cycles + 1;
        }
        Ok(Status::Running)
    }

    /// One cycle: fetches an instruction and executes it.
    pub fn step(&mut self) -> (r: Result<Status, Fault>)
        requires
            old(self).wf(),
        ensures
            final(self).wf(),
            final(self)@ == old(self)@.step().0,
            r == old(self)@.step().1,
    {
        match self.fetch() {
            Ok(instr) => self.execute(instr),
            Err(e) => Err(e),
        }
    }

    /// Reads a register.
    pub fn read_reg(&self, reg: Register) -> (value: u64)
        requires
            self.wf(),
        ensures
            value == self@.reg(reg),
    {
        let addr = self.get_reg_addr(reg);
        self.regs.read(addr).unwrap()
    }

    /// Writes a register.
    pub fn write_reg(&mut self, reg: Register, data: u64)
        requires
            old(self).wf(),
        ensures
            final(self).wf(),
            final(self)@ == old(self)@.set_reg(reg, data),
    {
        let addr = self.get_reg_addr(reg);
        let _ = self.regs.write(addr, data);
        proof {
            assert forall|j: int| 0 <= j < REGISTER_COUNT implies #[trigger] slots(self.regs@)[j]
                == old(self)@.set_reg(reg, data).regs[j] by {
                if j == reg.spec_slot() {
                    lemma_word_read_back(old(self).regs@, addr as int, data);
                } else {
                    lemma_word_apart(old(self).regs@, addr as int, data, SLOT_BYTES * j);
                }
            }
            assert(self@.regs =~= old(self)@.set_reg(reg, data).regs);
        }
    }

    /// The address of a register's slot in the register file.
    pub(crate) fn get_reg_addr(&self, reg: Register) -> (addr: u64)
        requires
            self.wf(),
        ensures
            addr == SLOT_BYTES * reg.spec_slot(),
    {
        table_get(&self.regs_addr_map, reg.code()).unwrap()
    }

    /// Resolves a register operand through the register table.
    pub(crate) fn index_reg(&self, index: u8) -> (r: Result<Register, Fault>)
        requires
            self.wf(),
        ensures
            r == reg_of(index),
    {
        if (index as usize) < self.regs_names.len() {
            Ok(self.regs_names[index as usize])
        } else {
            Err(Fault::UnknownRegister(index))
        }
    }

    /// The top of addressable memory.
    pub(crate) fn memory_top(&self) -> (top: u64)
        ensures
            top == self@.mem_size,
    {
        self.mem_size
    }

    /// Reads a 64-bit word of memory.
    pub(crate) fn load(&self, addr: u64) -> (r: Result<u64, Fault>)
        ensures
            r == self@.load(addr),
    {
        self.dev_mapper.read64(addr)
    }

    /// Writes a 64-bit word of memory.
    pub(crate) fn store(&mut self, addr: u64, value: u64) -> (r: Result<(), Fault>)
        requires
            old(self).wf(),
        ensures
            final(self).wf(),
            final(self)@ == old(self)@.store(addr, value).0,
            r == old(self)@.store(addr, value).1,
    {
        self.dev_mapper.write64(addr, value)
    }

    /// Puts a computed value into the accumulator, or passes its fault on.
    pub(crate) fn set_acc(&mut self, value: Result<u64, Fault>) -> (r: Result<(), Fault>)
        requires
            old(self).wf(),
        ensures
            final(self).wf(),
            final(self)@ == old(self)@.set_acc(value).0,
            r == old(self)@.set_acc(value).1,
    {
        match value {
            Ok(v) => {
                self.write_reg(Register::Accumulator, v);
                Ok(())
            },
            Err(e) => Err(e),
        }
    }

    /// Fetches one byte at the instruction pointer.
    pub(crate) fn fetch8(&mut self) -> (r: Result<u8, Fault>)
        requires
            old(self).wf(),
        ensures
            final(self).wf(),
            final(self)@ == old(self)@.fetch8().0,
            r == old(self)@.fetch8().1,
    {
        let ip = self.read_reg(Register::InstructionPointer);
        match self.dev_mapper.read(ip) {
            Ok(data) => {
                self.write_reg(Register::InstructionPointer, ip.wrapping_add(1));
                Ok(data)
            },
            Err(e) => Err(e),
        }
    }

    /// Fetches one 64-bit word at the instruction pointer.
    pub(crate) fn fetch64(&mut self) -> (r: Result<u64, Fault>)
        requires
            old(self).wf(),
        ensures
            final(self).wf(),
            final(self)@ == old(self)@.fetch64().0,
            r == old(self)@.fetch64().1,
    {
        let ip = self.read_reg(Register::InstructionPointer);
        match self.dev_mapper.read64(ip) {
            Ok(data) => {
                self.write_reg(Register::InstructionPointer, ip.wrapping_add(8));
                Ok(data)
            },
            Err(e) => Err(e),
        }
    }

    /// Fetches one operand of the given kind.
    pub(crate) fn fetch_operand(&mut self, kind: OperandKind) -> (r: Result<Operand, Fault>)
        requires
            old(self).wf(),
        ensures
            final(self).wf(),
            final(self)@ == old(self)@.fetch_operand(kind).0,
            r == old(self)@.fetch_operand(kind).1,
    {
        match kind {
            OperandKind::Absent => Ok(Operand::Null),
            OperandKind::Reg => match self.fetch8() {
                Ok(b) => Ok(Operand::Reg(b)),
                Err(e) => Err(e),
            },
            OperandKind::Imm => match self.fetch64() {
                Ok(v) => Ok(Operand::Imm(v)),
                Err(e) => Err(e),
            },
            OperandKind::Mem => match self.fetch64() {
                Ok(v) => Ok(Operand::Mem(v)),
                Err(e) => Err(e),
            },
        }
    }

    /// Fetches the operand pair of an addressing mode.
    pub fn fetch_operands(&mut self, addr_mode: &AddrMode) -> (r: Result<(Operand, Operand), Fault>)
        requires
            old(self).wf(),
        ensures
            final(self).wf(),
            final(self)@ == old(self)@.fetch_operands(*addr_mode).0,
            r == old(self)@.fetch_operands(*addr_mode).1,
    {
        let kinds = operand_kinds(*addr_mode);
        let first = match self.fetch_operand(kinds.0) {
            Ok(operand) => operand,
            Err(e) => {
                return Err(e);
            },
        };
        match self.fetch_operand(kinds.1) {
            Ok(second) => Ok((first, second)),
            Err(e) => Err(e),
        }
    }

    /// Fetches and decodes one instruction.
    pub fn fetch(&mut self) -> (r: Result<Instruction, Fault>)
        requires
            old(self).wf(),
        ensures
            final(self).wf(),
            final(self)@ == old(self)@.fetch().0,
            r == old(self)@.fetch().1,
    {
        let op_byte = match self.fetch8() {
            Ok(b) => b,
            Err(e) => {
                return Err(e);
            },
        };
        let opcode = match Opcode::from_byte(op_byte) {
            Ok(op) => op,
            Err(e) => {
                return Err(e);
            },
        };
        let mode_byte = match self.fetch8() {
            Ok(b) => b,
            Err(e) => {
                return Err(e);
            },
        };
        let addr_mode = match AddrMode::from_byte(mode_byte) {
            Ok(mode) => mode,
            Err(e) => {
                return Err(e);
            },
        };
        match self.fetch_operands(&addr_mode) {
            Ok(operands) => Ok(Instruction::new(opcode, addr_mode, operands)),
            Err(e) => Err(e),
        }
    }

    /// Executes one decoded instruction.
    pub fn execute(&mut self, instr: Instruction) -> (r: Result<Status, Fault>)
        requires
            old(self).wf(),
        ensures
            final(self).wf(),
            final(self)@ == old(self)@.execute(instr).0,
            r == old(self)@.execute(instr).1,
    {
        let (opcode, _, operands) = instr.unpack();
        let handled = match opcode {
            Opcode::Nop => Ok(()),
            Opcode::Hlt => Ok(()),
            Opcode::Mov => self.mov(operands),
            Opcode::Lod => self.lod(operands),
            Opcode::Str => self.str(operands),
            Opcode::Add => self.add(operands),
            Opcode::Sub => self.sub(operands),
            Opcode::Mul => self.mul(operands),
            Opcode::Div => self.div(operands),
            Opcode::Inc => self.inc(operands),
            Opcode::Dec => self.dec(operands),
            Opcode::And => self.and(operands),
            Opcode::Or => self.or(operands),
            Opcode::Xor => self.xor(operands),
            Opcode::Not => self.not(operands),
            Opcode::Shl => self.shl(operands),
            Opcode::Shr => self.shr(operands),
            Opcode::Jmp => self.jmp(operands),
            Opcode::Jeq => self.jeq(operands),
            Opcode::Jne => self.jne(operands),
            Opcode::Jgt => self.jgt(operands),
            Opcode::Jlt => self.jlt(operands),
            Opcode::Jge => self.jge(operands),
            Opcode::Jle => self.jle(operands),
            Opcode::Jnz => self.jnz(operands),
            Opcode::Jz => self.jz(operands),
            Opcode::Psh => self.psh(operands),
            Opcode::Pop => self.pop(operands),
            Opcode::Dup => self.dup(operands),
            Opcode::Swp => self.swp(operands),
            Opcode::Clr => self.clr(operands),
            Opcode::Ret => self.ret(operands),
            Opcode::Cal => self.cal(operands),
        };
        match handled {
            Err(e) => Err(e),
            Ok(()) => match opcode {
                Opcode::Hlt => Ok(Status::Halted),
                _ => Ok(Status::Running),
            },
        }
    }
}

} // verus!
