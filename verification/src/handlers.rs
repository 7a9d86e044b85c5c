//! The handlers of the opcodes: one method of the CPU per mnemonic.

use crate::cpu::{arith_value, bitwise_value, jump_taken, nth_saved, unary_value, Cpu};
use crate::fault::Fault;
use crate::model::{CpuModel, SAVED_COUNT};
use crate::opcodes::{Opcode, Operand};
use crate::register::Register;
use vstd::prelude::*;

verus! {

impl Cpu {
    /// Copies a value from the first operand to the second.
    fn transfer(&mut self, op: Opcode, operands: (Operand, Operand)) -> (r: Result<(), Fault>)
        requires
            old(self).wf(),
        ensures
            final(self).wf(),
            final(self)@ == old(self)@.transfer(op, operands).0,
            r == old(self)@.transfer(op, operands).1,
    {
        match operands {
            (Operand::Imm(imm), Operand::Reg(reg)) => {
                let reg = self.index_reg(reg)?;
                self.write_reg(reg, imm);
                Ok(())
            },
            (Operand::Imm(imm), Operand::Mem(mem)) => self.store(mem, imm),
            (Operand::Reg(reg), Operand::Reg(reg2)) => {
                let reg1 = self.index_reg(reg)?;
                let reg2 = self.index_reg(reg2)?;
                let data = self.read_reg(reg1);
                self.write_reg(reg2, data);
                Ok(())
            },
            (Operand::Reg(reg), Operand::Mem(mem)) => {
                let reg = self.index_reg(reg)?;
                let data = self.read_reg(reg);
                self.store(mem, data)
            },
            (Operand::Mem(mem), Operand::Reg(reg)) => {
                let reg = self.index_reg(reg)?;
                let data = self.load(mem)?;
                self.write_reg(reg, data);
                Ok(())
            },
            (Operand::Mem(mem), Operand::Mem(mem2)) => {
                let data = self.load(mem)?;
                self.store(mem2, data)
            },
            _ => Err(Fault::InvalidOperand(op)),
        }
    }

    /// Move.
    pub(crate) fn mov(&mut self, operands: (Operand, Operand)) -> (r: Result<(), Fault>)
        requires
            old(self).wf(),
        ensures
            final(self).wf(),
            final(self)@ == old(self)@.mov(operands).0,
            r == old(self)@.mov(operands).1,
    {
        self.transfer(Opcode::Mov, operands)
    }

    /// Load.
    pub(crate) fn lod(&mut self, operands: (Operand, Operand)) -> (r: Result<(), Fault>)
        requires
            old(self).wf(),
        ensures
            final(self).wf(),
            final(self)@ == old(self)@.lod(operands).0,
            r == old(self)@.lod(operands).1,
    {
        match operands {
            (Operand::Imm(_), Operand::Reg(_)) => self.transfer(Opcode::Lod, operands),
            (Operand::Mem(_), Operand::Reg(_)) => self.transfer(Opcode::Lod, operands),
            _ => Err(Fault::InvalidOperand(Opcode::Lod)),
        }
    }

    /// Store.
    pub(crate) fn str(&mut self, operands: (Operand, Operand)) -> (r: Result<(), Fault>)
        requires
            old(self).wf(),
        ensures
            final(self).wf(),
            final(self)@ == old(self)@.str(operands).0,
            r == old(self)@.str(operands).1,
    {
        match operands {
            (Operand::Imm(_), Operand::Mem(_)) => self.transfer(Opcode::Str, operands),
            (Operand::Reg(_), Operand::Mem(_)) => self.transfer(Opcode::Str, operands),
            (Operand::Mem(_), Operand::Mem(_)) => self.transfer(Opcode::Str, operands),
            _ => Err(Fault::InvalidOperand(Opcode::Str)),
        }
    }

    /// The arithmetic opcodes; the result goes to the accumulator.
    fn arith_op(&mut self, op: Opcode, operands: (Operand, Operand)) -> (r: Result<(), Fault>)
        requires
            old(self).wf(),
        ensures
            final(self).wf(),
            final(self)@ == old(self)@.arith_op(op, operands).0,
            r == old(self)@.arith_op(op, operands).1,
    {
        match operands {
            (Operand::Imm(imm), Operand::Reg(reg)) => {
                let reg = self.index_reg(reg)?;
                let data = self.read_reg(reg);
                self.set_acc(arith_value(op, data, imm))
            },
            (Operand::Reg(reg), Operand::Reg(reg2)) => {
                let reg1 = self.index_reg(reg)?;
                let reg2 = self.index_reg(reg2)?;
                let data = self.read_reg(reg1);
                let data2 = self.read_reg(reg2);
                self.set_acc(arith_value(op, data, data2))
            },
            (Operand::Mem(mem), Operand::Reg(reg)) => {
                let reg = self.index_reg(reg)?;
                let data = self.load(mem)?;
                let data2 = self.read_reg(reg);
                self.set_acc(arith_value(op, data, data2))
            },
            _ => Err(Fault::InvalidOperand(op)),
        }
    }

    /// Add.
    pub(crate) fn add(&mut self, operands: (Operand, Operand)) -> (r: Result<(), Fault>)
        requires
            old(self).wf(),
        ensures
            final(self).wf(),
            final(self)@ == old(self)@.arith_op(Opcode::Add, operands).0,
            r == old(self)@.arith_op(Opcode::Add, operands).1,
    {
        self.arith_op(Opcode::Add, operands)
    }

    /// Subtract.
    pub(crate) fn sub(&mut self, operands: (Operand, Operand)) -> (r: Result<(), Fault>)
        requires
            old(self).wf(),
        ensures
            final(self).wf(),
            final(self)@ == old(self)@.arith_op(Opcode::Sub, operands).0,
            r == old(self)@.arith_op(Opcode::Sub, operands).1,
    {
        self.arith_op(Opcode::Sub, operands)
    }

    /// Multiply.
    pub(crate) fn mul(&mut self, operands: (Operand, Operand)) -> (r: Result<(), Fault>)
        requires
            old(self).wf(),
        ensures
            final(self).wf(),
            final(self)@ == old(self)@.arith_op(Opcode::Mul, operands).0,
            r == old(self)@.arith_op(Opcode::Mul, operands).1,
    {
        self.arith_op(Opcode::Mul, operands)
    }

    /// Divide.
    pub(crate) fn div(&mut self, operands: (Operand, Operand)) -> (r: Result<(), Fault>)
        requires
            old(self).wf(),
        ensures
            final(self).wf(),
            final(self)@ == old(self)@.arith_op(Opcode::Div, operands).0,
            r == old(self)@.arith_op(Opcode::Div, operands).1,
    {
        self.arith_op(Opcode::Div, operands)
    }

    /// Increment and decrement.
    fn step_op(&mut self, op: Opcode, operands: (Operand, Operand)) -> (r: Result<(), Fault>)
        requires
            old(self).wf(),
        ensures
            final(self).wf(),
            final(self)@ == old(self)@.step_op(op, operands).0,
            r == old(self)@.step_op(op, operands).1,
    {
        match operands {
            (Operand::Reg(reg), Operand::Null) => {
                let reg = self.index_reg(reg)?;
                let data = self.read_reg(reg);
                self.set_acc(unary_value(op, data))
            },
            (Operand::Mem(mem), Operand::Null) => {
                let data = self.load(mem)?;
                let stepped = unary_value(op, data)?;
                self.store(mem, stepped)
            },
            _ => Err(Fault::InvalidOperand(op)),
        }
    }

    /// Increment.
    pub(crate) fn inc(&mut self, operands: (Operand, Operand)) -> (r: Result<(), Fault>)
        requires
            old(self).wf(),
        ensures
            final(self).wf(),
            final(self)@ == old(self)@.step_op(Opcode::Inc, operands).0,
            r == old(self)@.step_op(Opcode::Inc, operands).1,
    {
        self.step_op(Opcode::Inc, operands)
    }

    /// Decrement.
    pub(crate) fn dec(&mut self, operands: (Operand, Operand)) -> (r: Result<(), Fault>)
        requires
            old(self).wf(),
        ensures
            final(self).wf(),
            final(self)@ == old(self)@.step_op(Opcode::Dec, operands).0,
            r == old(self)@.step_op(Opcode::Dec, operands).1,
    {
        self.step_op(Opcode::Dec, operands)
    }

    /// The two-operand bitwise opcodes; the result goes to the accumulator.
    fn bitwise_op(&mut self, op: Opcode, operands: (Operand, Operand)) -> (r: Result<(), Fault>)
        requires
            old(self).wf(),
        ensures
            final(self).wf(),
            final(self)@ == old(self)@.bitwise_op(op, operands).0,
            r == old(self)@.bitwise_op(op, operands).1,
    {
        match operands {
            (Operand::Reg(reg), Operand::Imm(imm)) => {
                let reg = self.index_reg(reg)?;
                let data = self.read_reg(reg);
                self.set_acc(bitwise_value(op, data, imm))
            },
            (Operand::Reg(reg), Operand::Reg(reg2)) => {
                let reg1 = self.index_reg(reg)?;
                let reg2 = self.index_reg(reg2)?;
                let data = self.read_reg(reg1);
                let data2 = self.read_reg(reg2);
                self.set_acc(bitwise_value(op, data, data2))
            },
            _ => Err(Fault::InvalidOperand(op)),
        }
    }

    /// Bitwise AND.
    pub(crate) fn and(&mut self, operands: (Operand, Operand)) -> (r: Result<(), Fault>)
        requires
            old(self).wf(),
        ensures
            final(self).wf(),
            final(self)@ == old(self)@.bitwise_op(Opcode::And, operands).0,
            r == old(self)@.bitwise_op(Opcode::And, operands).1,
    {
        self.bitwise_op(Opcode::And, operands)
    }

    /// Bitwise OR.
    pub(crate) fn or(&mut self, operands: (Operand, Operand)) -> (r: Result<(), Fault>)
        requires
            old(self).wf(),
        ensures
            final(self).wf(),
            final(self)@ == old(self)@.bitwise_op(Opcode::Or, operands).0,
            r == old(self)@.bitwise_op(Opcode::Or, operands).1,
    {
        self.bitwise_op(Opcode::Or, operands)
    }

    /// Bitwise XOR.
    pub(crate) fn xor(&mut self, operands: (Operand, Operand)) -> (r: Result<(), Fault>)
        requires
            old(self).wf(),
        ensures
            final(self).wf(),
            final(self)@ == old(self)@.bitwise_op(Opcode::Xor, operands).0,
            r == old(self)@.bitwise_op(Opcode::Xor, operands).1,
    {
        self.bitwise_op(Opcode::Xor, operands)
    }

    /// Bitwise NOT.
    pub(crate) fn not(&mut self, operands: (Operand, Operand)) -> (r: Result<(), Fault>)
        requires
            old(self).wf(),
        ensures
            final(self).wf(),
            final(self)@ == old(self)@.not(operands).0,
            r == old(self)@.not(operands).1,
    {
        match operands {
            (Operand::Reg(reg), Operand::Null) => {
                let reg = self.index_reg(reg)?;
                let data = self.read_reg(reg);
                self.set_acc(unary_value(Opcode::Not, data))
            },
            (Operand::Mem(mem), Operand::Null) => {
                let data = self.load(mem)?;
                self.set_acc(unary_value(Opcode::Not, data))
            },
            _ => Err(Fault::InvalidOperand(Opcode::Not)),
        }
    }

    /// Shift left.
    pub(crate) fn shl(&mut self, operands: (Operand, Operand)) -> (r: Result<(), Fault>)
        requires
            old(self).wf(),
        ensures
            final(self).wf(),
            final(self)@ == old(self)@.bitwise_op(Opcode::Shl, operands).0,
            r == old(self)@.bitwise_op(Opcode::Shl, operands).1,
    {
        self.bitwise_op(Opcode::Shl, operands)
    }

    /// Shift right.
    pub(crate) fn shr(&mut self, operands: (Operand, Operand)) -> (r: Result<(), Fault>)
        requires
            old(self).wf(),
        ensures
            final(self).wf(),
            final(self)@ == old(self)@.bitwise_op(Opcode::Shr, operands).0,
            r == old(self)@.bitwise_op(Opcode::Shr, operands).1,
    {
        self.bitwise_op(Opcode::Shr, operands)
    }

    /// The jumps: the operand is compared with the accumulator and is the
    /// target.
    fn branch(&mut self, op: Opcode, operands: (Operand, Operand)) -> (r: Result<(), Fault>)
        requires
            old(self).wf(),
        ensures
            final(self).wf(),
            final(self)@ == old(self)@.branch(op, operands).0,
            r == old(self)@.branch(op, operands).1,
    {
        let acc = self.read_reg(Register::Accumulator);
        match operands {
            (Operand::Reg(reg), Operand::Null) => {
                let reg = self.index_reg(reg)?;
                let data = self.read_reg(reg);
                if jump_taken(op, acc, data) {
                    self.write_reg(Register::InstructionPointer, data);
                }
                Ok(())
            },
            (Operand::Imm(imm), Operand::Null) => {
                if jump_taken(op, acc, imm) {
                    self.write_reg(Register::InstructionPointer, imm);
                }
                Ok(())
            },
            _ => Err(Fault::InvalidOperand(op)),
        }
    }

    /// Jump.
    pub(crate) fn jmp(&mut self, operands: (Operand, Operand)) -> (r: Result<(), Fault>)
        requires
            old(self).wf(),
        ensures
            final(self).wf(),
            final(self)@ == old(self)@.branch(Opcode::Jmp, operands).0,
            r == old(self)@.branch(Opcode::Jmp, operands).1,
    {
        self.branch(Opcode::Jmp, operands)
    }

    /// Jump if equal.
    pub(crate) fn jeq(&mut self, operands: (Operand, Operand)) -> (r: Result<(), Fault>)
        requires
            old(self).wf(),
        ensures
            final(self).wf(),
            final(self)@ == old(self)@.branch(Opcode::Jeq, operands).0,
            r == old(self)@.branch(Opcode::Jeq, operands).1,
    {
        self.branch(Opcode::Jeq, operands)
    }

    /// Jump if not equal.
    pub(crate) fn jne(&mut self, operands: (Operand, Operand)) -> (r: Result<(), Fault>)
        requires
            old(self).wf(),
        ensures
            final(self).wf(),
            final(self)@ == old(self)@.branch(Opcode::Jne, operands).0,
            r == old(self)@.branch(Opcode::Jne, operands).1,
    {
        self.branch(Opcode::Jne, operands)
    }

    /// Jump if greater than.
    pub(crate) fn jgt(&mut self, operands: (Operand, Operand)) -> (r: Result<(), Fault>)
        requires
            old(self).wf(),
        ensures
            final(self).wf(),
            final(self)@ == old(self)@.branch(Opcode::Jgt, operands).0,
            r == old(self)@.branch(Opcode::Jgt, operands).1,
    {
        self.branch(Opcode::Jgt, operands)
    }

    /// Jump if less than.
    pub(crate) fn jlt(&mut self, operands: (Operand, Operand)) -> (r: Result<(), Fault>)
        requires
            old(self).wf(),
        ensures
            final(self).wf(),
            final(self)@ == old(self)@.branch(Opcode::Jlt, operands).0,
            r == old(self)@.branch(Opcode::Jlt, operands).1,
    {
        self.branch(Opcode::Jlt, operands)
    }

    /// Jump if greater than or equal.
    pub(crate) fn jge(&mut self, operands: (Operand, Operand)) -> (r: Result<(), Fault>)
        requires
            old(self).wf(),
        ensures
            final(self).wf(),
            final(self)@ == old(self)@.branch(Opcode::Jge, operands).0,
            r == old(self)@.branch(Opcode::Jge, operands).1,
    {
        self.branch(Opcode::Jge, operands)
    }

    /// Jump if less than or equal.
    pub(crate) fn jle(&mut self, operands: (Operand, Operand)) -> (r: Result<(), Fault>)
        requires
            old(self).wf(),
        ensures
            final(self).wf(),
            final(self)@ == old(self)@.branch(Opcode::Jle, operands).0,
            r == old(self)@.branch(Opcode::Jle, operands).1,
    {
        self.branch(Opcode::Jle, operands)
    }

    /// Jump if the accumulator is not zero.
    pub(crate) fn jnz(&mut self, operands: (Operand, Operand)) -> (r: Result<(), Fault>)
        requires
            old(self).wf(),
        ensures
            final(self).wf(),
            final(self)@ == old(self)@.branch(Opcode::Jnz, operands).0,
            r == old(self)@.branch(Opcode::Jnz, operands).1,
    {
        self.branch(Opcode::Jnz, operands)
    }

    /// Jump if the accumulator is zero.
    pub(crate) fn jz(&mut self, operands: (Operand, Operand)) -> (r: Result<(), Fault>)
        requires
            old(self).wf(),
        ensures
            final(self).wf(),
            final(self)@ == old(self)@.branch(Opcode::Jz, operands).0,
            r == old(self)@.branch(Opcode::Jz, operands).1,
    {
        self.branch(Opcode::Jz, operands)
    }

    /// Pushes a value onto the stack.
    fn push_value(&mut self, value: u64) -> (r: Result<(), Fault>)
        requires
            old(self).wf(),
        ensures
            final(self).wf(),
            final(self)@ == old(self)@.push_value(value).0,
            r == old(self)@.push_value(value).1,
    {
        let sp = self.read_reg(Register::StackPointer);
        self.store(sp, value)?;
        self.write_reg(Register::StackPointer, sp.wrapping_sub(8));
        let frame_size = self.read_reg(Register::FrameSize);
        self.write_reg(Register::FrameSize, frame_size.wrapping_add(8));
        Ok(())
    }

    /// Push to stack.
    pub(crate) fn psh(&mut self, operands: (Operand, Operand)) -> (r: Result<(), Fault>)
        requires
            old(self).wf(),
        ensures
            final(self).wf(),
            final(self)@ == old(self)@.psh(operands).0,
            r == old(self)@.psh(operands).1,
    {
        match operands {
            (Operand::Imm(imm), Operand::Null) => self.push_value(imm),
            (Operand::Reg(reg), _) => {
                let reg = self.index_reg(reg)?;
                let data = self.read_reg(reg);
                self.push_value(data)
            },
            _ => Err(Fault::InvalidOperand(Opcode::Psh)),
        }
    }

    /// Pops and discards `slots` values.
    fn discard(&mut self, slots: u64)
        requires
            old(self).wf(),
        ensures
            final(self).wf(),
            final(self)@ == old(self)@.discard(slots),
    {
        let bytes = 8u64.wrapping_mul(slots);
        let sp = self.read_reg(Register::StackPointer);
        self.write_reg(Register::StackPointer, sp.wrapping_add(bytes));
        let frame_size = self.read_reg(Register::FrameSize);
        self.write_reg(Register::FrameSize, frame_size.wrapping_sub(bytes));
    }

    /// Pops the top of the stack into a register.
    fn pop_reg(&mut self, reg: Register) -> (r: Result<(), Fault>)
        requires
            old(self).wf(),
        ensures
            final(self).wf(),
            final(self)@ == old(self)@.pop_reg(reg).0,
            r == old(self)@.pop_reg(reg).1,
    {
        let sp = self.read_reg(Register::StackPointer);
        let data = self.load(sp)?;
        self.write_reg(reg, data);
        self.write_reg(Register::StackPointer, sp.wrapping_add(8));
        let frame_size = self.read_reg(Register::FrameSize);
        self.write_reg(Register::FrameSize, frame_size.wrapping_sub(8));
        Ok(())
    }

    /// Pop from stack.
    pub(crate) fn pop(&mut self, operands: (Operand, Operand)) -> (r: Result<(), Fault>)
        requires
            old(self).wf(),
        ensures
            final(self).wf(),
            final(self)@ == old(self)@.pop(operands).0,
            r == old(self)@.pop(operands).1,
    {
        match operands {
            (Operand::Reg(reg), Operand::Null) => {
                let reg = self.index_reg(reg)?;
                self.pop_reg(reg)
            },
            (Operand::Null, Operand::Null) => {
                self.discard(1);
                Ok(())
            },
            _ => Err(Fault::InvalidOperand(Opcode::Pop)),
        }
    }

    /// Duplicate the top of the stack.
    pub(crate) fn dup(&mut self, operands: (Operand, Operand)) -> (r: Result<(), Fault>)
        requires
            old(self).wf(),
        ensures
            final(self).wf(),
            final(self)@ == old(self)@.dup(operands).0,
            r == old(self)@.dup(operands).1,
    {
        match operands {
            (Operand::Null, Operand::Null) => {
                let sp = self.read_reg(Register::StackPointer);
                let data = self.load(sp)?;
                let below = sp.wrapping_sub(8);
                self.store(below, data)?;
                self.write_reg(Register::StackPointer, below);
                Ok(())
            },
            _ => Err(Fault::InvalidOperand(Opcode::Dup)),
        }
    }

    /// Swap the top two words of the stack.
    pub(crate) fn swp(&mut self, operands: (Operand, Operand)) -> (r: Result<(), Fault>)
        requires
            old(self).wf(),
        ensures
            final(self).wf(),
            final(self)@ == old(self)@.swp(operands).0,
            r == old(self)@.swp(operands).1,
    {
        match operands {
            (Operand::Null, Operand::Null) => {
                let sp = self.read_reg(Register::StackPointer);
                let above = sp.wrapping_add(8);
                let data1 = self.load(sp)?;
                let data2 = self.load(above)?;
                self.store(sp, data2)?;
                self.store(above, data1)
            },
            _ => Err(Fault::InvalidOperand(Opcode::Swp)),
        }
    }

    /// Clear the whole stack.
    pub(crate) fn clr(&mut self, operands: (Operand, Operand)) -> (r: Result<(), Fault>)
        requires
            old(self).wf(),
        ensures
            final(self).wf(),
            final(self)@ == old(self)@.clr(operands).0,
            r == old(self)@.clr(operands).1,
    {
        match operands {
            (Operand::Null, Operand::Null) => {
                let top = self.memory_top();
                self.write_reg(Register::StackPointer, top);
                Ok(())
            },
            _ => Err(Fault::InvalidOperand(Opcode::Clr)),
        }
    }

    /// Pushes the state of the CPU to the stack.
    pub(crate) fn push_state(&mut self) -> (r: Result<(), Fault>)
        requires
            old(self).wf(),
        ensures
            final(self).wf(),
            final(self)@ == old(self)@.push_state().0,
            r == old(self)@.push_state().1,
    {
        let mut i: u8 = 0;
        while i < SAVED_COUNT
            invariant
                i <= SAVED_COUNT,
                self.wf(),
                old(self)@.push_saved(i as nat) == self@.done(),
            decreases SAVED_COUNT - i,
        {
            let data = self.read_reg(nth_saved(i));
            match self.push_value(data) {
                Ok(()) => {},
                Err(e) => {
                    proof {
                        assert(old(self)@.push_saved((i + 1) as nat) == self@.fail(e));
                        lemma_push_fault_stays(old(self)@, (i + 1) as nat, SAVED_COUNT as nat);
                    }
                    return Err(e);
                },
            }
            i = i + 1;
        }
        self.write_reg(Register::FrameSize, 0);
        let sp = self.read_reg(Register::StackPointer);
        self.write_reg(Register::FramePointer, sp);
        Ok(())
    }

    /// Pops the state of the CPU from the stack.
    pub(crate) fn pop_state(&mut self) -> (r: Result<(), Fault>)
        requires
            old(self).wf(),
        ensures
            final(self).wf(),
            final(self)@ == old(self)@.pop_state().0,
            r == old(self)@.pop_state().1,
    {
        let mut n: u8 = 0;
        while n < SAVED_COUNT
            invariant
                n <= SAVED_COUNT,
                self.wf(),
                old(self)@.pop_saved(n as nat) == self@.done(),
            decreases SAVED_COUNT - n,
        {
            match self.pop_reg(nth_saved(SAVED_COUNT - 1 - n)) {
                Ok(()) => {},
                Err(e) => {
                    proof {
                        assert(old(self)@.pop_saved((n + 1) as nat) == self@.fail(e));
                        lemma_pop_fault_stays(old(self)@, (n + 1) as nat, SAVED_COUNT as nat);
                    }
                    return Err(e);
                },
            }
            n = n + 1;
        }
        let num_args = self.read_reg(Register::ArgCount);
        self.discard(num_args);
        let frame_size = self.read_reg(Register::FrameSize);
        let frame_pointer = self.read_reg(Register::FramePointer);
        self.write_reg(Register::FramePointer, frame_size.wrapping_add(frame_pointer));
        Ok(())
    }

    /// Return from a subroutine.
    pub(crate) fn ret(&mut self, operands: (Operand, Operand)) -> (r: Result<(), Fault>)
        requires
            old(self).wf(),
        ensures
            final(self).wf(),
            final(self)@ == old(self)@.ret(operands).0,
            r == old(self)@.ret(operands).1,
    {
        match operands {
            (Operand::Null, Operand::Null) => self.pop_state(),
            _ => Err(Fault::InvalidOperand(Opcode::Ret)),
        }
    }

    /// Call a subroutine.
    pub(crate) fn cal(&mut self, operands: (Operand, Operand)) -> (r: Result<(), Fault>)
        requires
            old(self).wf(),
        ensures
            final(self).wf(),
            final(self)@ == old(self)@.cal(operands).0,
            r == old(self)@.cal(operands).1,
    {
        match operands {
            (Operand::Imm(imm), Operand::Null) => {
                self.push_state()?;
                self.write_reg(Register::InstructionPointer, imm);
                Ok(())
            },
            (Operand::Reg(reg), _) => {
                self.push_state()?;
                let reg = self.index_reg(reg)?;
                let data = self.read_reg(reg);
                self.write_reg(Register::InstructionPointer, data);
                Ok(())
            },
            _ => Err(Fault::InvalidOperand(Opcode::Cal)),
        }
    }
}

/// Once the saving of registers has faulted, nothing more is pushed.
pub proof fn lemma_push_fault_stays(s: CpuModel, n: nat, m: nat)
    requires
        n <= m,
        s.push_saved(n).1 is Err,
    ensures
        s.push_saved(m) == s.push_saved(n),
    decreases m,
{
    if n < m {
        lemma_push_fault_stays(s, n, (m - 1) as nat);
    }
}

/// Once the restoring of registers has faulted, nothing more is popped.
pub proof fn lemma_pop_fault_stays(s: CpuModel, n: nat, m: nat)
    requires
        n <= m,
        s.pop_saved(n).1 is Err,
    ensures
        s.pop_saved(m) == s.pop_saved(n),
    decreases m,
{
    if n < m {
        lemma_pop_fault_stays(s, n, (m - 1) as nat);
    }
}

} // verus!
