//! The binary instruction format: opcodes, addressing modes, operands.

use crate::fault::Fault;
use vstd::prelude::*;

verus! {

/// The operation selector of an instruction.
#[derive(Clone, Copy, Debug, PartialEq, Eq, Structural)]
pub enum Opcode {
    Nop,
    Hlt,
    Mov,
    Lod,
    Str,
    Add,
    Sub,
    Mul,
    Div,
    Inc,
    Dec,
    And,
    Or,
    Xor,
    Not,
    Shl,
    Shr,
    Jmp,
    Jeq,
    Jne,
    Jgt,
    Jlt,
    Jge,
    Jle,
    Jnz,
    Jz,
    Psh,
    Pop,
    Dup,
    Swp,
    Clr,
    Ret,
    Cal,
}

impl Opcode {
    /// The one-byte encoding of an opcode.
    pub open spec fn spec_encode(self) -> u8 {
        match self {
            Opcode::Nop => 0xFF,
            Opcode::Hlt => 0xFE,
            Opcode::Mov => 0x01,
            Opcode::Lod => 0x02,
            Opcode::Str => 0x03,
            Opcode::Add => 0x11,
            Opcode::Sub => 0x12,
            Opcode::Mul => 0x13,
            Opcode::Div => 0x14,
            Opcode::Inc => 0x15,
            Opcode::Dec => 0x16,
            Opcode::And => 0x21,
            Opcode::Or => 0x22,
            Opcode::Xor => 0x23,
            Opcode::Not => 0x24,
            Opcode::Shl => 0x25,
            Opcode::Shr => 0x26,
            Opcode::Jmp => 0x31,
            Opcode::Jeq => 0x32,
            Opcode::Jne => 0x33,
            Opcode::Jgt => 0x34,
            Opcode::Jlt => 0x35,
            Opcode::Jge => 0x36,
            Opcode::Jle => 0x37,
            Opcode::Jnz => 0x38,
            Opcode::Jz => 0x39,
            Opcode::Psh => 0x41,
            Opcode::Pop => 0x42,
            Opcode::Dup => 0x43,
            Opcode::Swp => 0x44,
            Opcode::Clr => 0x45,
            Opcode::Ret => 0x46,
            Opcode::Cal => 0x47,
        }
    }

    /// The opcode that a byte encodes, if any.
    pub open spec fn spec_decode(byte: u8) -> Option<Opcode> {
        if byte == 0xFF {
            Some(Opcode::Nop)
        } else if byte == 0xFE {
            Some(Opcode::Hlt)
        } else if byte == 0x01 {
            Some(Opcode::Mov)
        } else if byte == 0x02 {
            Some(Opcode::Lod)
        } else if byte == 0x03 {
            Some(Opcode::Str)
        } else if byte == 0x11 {
            Some(Opcode::Add)
        } else if byte == 0x12 {
            Some(Opcode::Sub)
        } else if byte == 0x13 {
            Some(Opcode::Mul)
        } else if byte == 0x14 {
            Some(Opcode::Div)
        } else if byte == 0x15 {
            Some(Opcode::Inc)
        } else if byte == 0x16 {
            Some(Opcode::Dec)
        } else if byte == 0x21 {
            Some(Opcode::And)
        } else if byte == 0x22 {
            Some(Opcode::Or)
        } else if byte == 0x23 {
            Some(Opcode::Xor)
        } else if byte == 0x24 {
            Some(Opcode::Not)
        } else if byte == 0x25 {
            Some(Opcode::Shl)
        } else if byte == 0x26 {
            Some(Opcode::Shr)
        } else if byte == 0x31 {
            Some(Opcode::Jmp)
        } else if byte == 0x32 {
            Some(Opcode::Jeq)
        } else if byte == 0x33 {
            Some(Opcode::Jne)
        } else if byte == 0x34 {
            Some(Opcode::Jgt)
        } else if byte == 0x35 {
            Some(Opcode::Jlt)
        } else if byte == 0x36 {
            Some(Opcode::Jge)
        } else if byte == 0x37 {
            Some(Opcode::Jle)
        } else if byte == 0x38 {
            Some(Opcode::Jnz)
        } else if byte == 0x39 {
            Some(Opcode::Jz)
        } else if byte == 0x41 {
            Some(Opcode::Psh)
        } else if byte == 0x42 {
            Some(Opcode::Pop)
        } else if byte == 0x43 {
            Some(Opcode::Dup)
        } else if byte == 0x44 {
            Some(Opcode::Swp)
        } else if byte == 0x45 {
            Some(Opcode::Clr)
        } else if byte == 0x46 {
            Some(Opcode::Ret)
        } else if byte == 0x47 {
            Some(Opcode::Cal)
        } else {
            None
        }
    }

    #[verifier::when_used_as_spec(spec_encode)]
    pub fn encode(self) -> (byte: u8)
        ensures
            byte == self.spec_encode(),
            Self::spec_decode(byte) == Some(self),
    {
        match self {
            Opcode::Nop => 0xFF,
            Opcode::Hlt => 0xFE,
            Opcode::Mov => 0x01,
            Opcode::Lod => 0x02,
            Opcode::Str => 0x03,
            Opcode::Add => 0x11,
            Opcode::Sub => 0x12,
            Opcode::Mul => 0x13,
            Opcode::Div => 0x14,
            Opcode::Inc => 0x15,
            Opcode::Dec => 0x16,
            Opcode::And => 0x21,
            Opcode::Or => 0x22,
            Opcode::Xor => 0x23,
            Opcode::Not => 0x24,
            Opcode::Shl => 0x25,
            Opcode::Shr => 0x26,
            Opcode::Jmp => 0x31,
            Opcode::Jeq => 0x32,
            Opcode::Jne => 0x33,
            Opcode::Jgt => 0x34,
            Opcode::Jlt => 0x35,
            Opcode::Jge => 0x36,
            Opcode::Jle => 0x37,
            Opcode::Jnz => 0x38,
            Opcode::Jz => 0x39,
            Opcode::Psh => 0x41,
            Opcode::Pop => 0x42,
            Opcode::Dup => 0x43,
            Opcode::Swp => 0x44,
            Opcode::Clr => 0x45,
            Opcode::Ret => 0x46,
            Opcode::Cal => 0x47,
        }
    }

    /// Decodes an opcode byte; an unrecognized byte is a decode fault.
    pub fn from_byte(byte: u8) -> (r: Result<Opcode, Fault>)
        ensures
            r == match Self::spec_decode(byte) {
                Some(op) => Ok::<Opcode, Fault>(op),
                None => Err(Fault::InvalidOpcode(byte)),
            },
            r is Ok ==> r->Ok_0.spec_encode() == byte,
    {
        match byte {
            0xFF => Ok(Opcode::Nop),
            0xFE => Ok(Opcode::Hlt),
            0x01 => Ok(Opcode::Mov),
            0x02 => Ok(Opcode::Lod),
            0x03 => Ok(Opcode::Str),
            0x11 => Ok(Opcode::Add),
            0x12 => Ok(Opcode::Sub),
            0x13 => Ok(Opcode::Mul),
            0x14 => Ok(Opcode::Div),
            0x15 => Ok(Opcode::Inc),
            0x16 => Ok(Opcode::Dec),
            0x21 => Ok(Opcode::And),
            0x22 => Ok(Opcode::Or),
            0x23 => Ok(Opcode::Xor),
            0x24 => Ok(Opcode::Not),
            0x25 => Ok(Opcode::Shl),
            0x26 => Ok(Opcode::Shr),
            0x31 => Ok(Opcode::Jmp),
            0x32 => Ok(Opcode::Jeq),
            0x33 => Ok(Opcode::Jne),
            0x34 => Ok(Opcode::Jgt),
            0x35 => Ok(Opcode::Jlt),
            0x36 => Ok(Opcode::Jge),
            0x37 => Ok(Opcode::Jle),
            0x38 => Ok(Opcode::Jnz),
            0x39 => Ok(Opcode::Jz),
            0x41 => Ok(Opcode::Psh),
            0x42 => Ok(Opcode::Pop),
            0x43 => Ok(Opcode::Dup),
            0x44 => Ok(Opcode::Swp),
            0x45 => Ok(Opcode::Clr),
            0x46 => Ok(Opcode::Ret),
            0x47 => Ok(Opcode::Cal),
            _ => Err(Fault::InvalidOpcode(byte)),
        }
    }
}

/// The operand shape of an instruction.
#[derive(Clone, Copy, Debug, PartialEq, Eq, Structural)]
pub enum AddrMode {
    ImmToReg,
    ImmToMem,
    RegToReg,
    RegToMem,
    MemToReg,
    MemToMem,
    Literal,
    Register,
    Memory,
    Null,
}

impl AddrMode {
    /// The one-byte encoding of an addressing mode.
    pub open spec fn spec_encode(self) -> u8 {
        match self {
            AddrMode::ImmToReg => 0x10,
            AddrMode::ImmToMem => 0x20,
            AddrMode::RegToReg => 0x30,
            AddrMode::RegToMem => 0x40,
            AddrMode::MemToReg => 0x50,
            AddrMode::MemToMem => 0x60,
            AddrMode::Literal => 0x70,
            AddrMode::Register => 0x80,
            AddrMode::Memory => 0x90,
            AddrMode::Null => 0xA0,
        }
    }

    /// The addressing mode that a byte encodes, if any.
    pub open spec fn spec_decode(byte: u8) -> Option<AddrMode> {
        if byte == 0x10 {
            Some(AddrMode::ImmToReg)
        } else if byte == 0x20 {
            Some(AddrMode::ImmToMem)
        } else if byte == 0x30 {
            Some(AddrMode::RegToReg)
        } else if byte == 0x40 {
            Some(AddrMode::RegToMem)
        } else if byte == 0x50 {
            Some(AddrMode::MemToReg)
        } else if byte == 0x60 {
            Some(AddrMode::MemToMem)
        } else if byte == 0x70 {
            Some(AddrMode::Literal)
        } else if byte == 0x80 {
            Some(AddrMode::Register)
        } else if byte == 0x90 {
            Some(AddrMode::Memory)
        } else if byte == 0xA0 {
            Some(AddrMode::Null)
        } else {
            None
        }
    }

    #[verifier::when_used_as_spec(spec_encode)]
    pub fn encode(self) -> (byte: u8)
        ensures
            byte == self.spec_encode(),
            Self::spec_decode(byte) == Some(self),
    {
        match self {
            AddrMode::ImmToReg => 0x10,
            AddrMode::ImmToMem => 0x20,
            AddrMode::RegToReg => 0x30,
            AddrMode::RegToMem => 0x40,
            AddrMode::MemToReg => 0x50,
            AddrMode::MemToMem => 0x60,
            AddrMode::Literal => 0x70,
            AddrMode::Register => 0x80,
            AddrMode::Memory => 0x90,
            AddrMode::Null => 0xA0,
        }
    }

    /// Decodes an addressing-mode byte; an unrecognized byte is a decode
    /// fault.
    pub fn from_byte(byte: u8) -> (r: Result<AddrMode, Fault>)
        ensures
            r == match Self::spec_decode(byte) {
                Some(mode) => Ok::<AddrMode, Fault>(mode),
                None => Err(Fault::InvalidAddrMode(byte)),
            },
            r is Ok ==> r->Ok_0.spec_encode() == byte,
    {
        match byte {
            0x10 => Ok(AddrMode::ImmToReg),
            0x20 => Ok(AddrMode::ImmToMem),
            0x30 => Ok(AddrMode::RegToReg),
            0x40 => Ok(AddrMode::RegToMem),
            0x50 => Ok(AddrMode::MemToReg),
            0x60 => Ok(AddrMode::MemToMem),
            0x70 => Ok(AddrMode::Literal),
            0x80 => Ok(AddrMode::Register),
            0x90 => Ok(AddrMode::Memory),
            0xA0 => Ok(AddrMode::Null),
            _ => Err(Fault::InvalidAddrMode(byte)),
        }
    }
}

/// One operand of an instruction.
#[derive(Clone, Copy, Debug, PartialEq, Eq, Structural)]
pub enum Operand {
    /// No operand in this position.
    Null,
    /// A register, by its slot in the register table.
    Reg(u8),
    /// An immediate value.
    Imm(u64),
    /// A memory address.
    Mem(u64),
}

/// A decoded instruction.
#[derive(Clone, Copy, Debug, PartialEq, Eq)]
pub struct Instruction {
    pub opcode: Opcode,
    pub addr_mode: AddrMode,
    pub operands: (Operand, Operand),
}

impl Instruction {
    pub fn new(opcode: Opcode, addr_mode: AddrMode, operands: (Operand, Operand)) -> (r: Self)
        ensures
            r == (Instruction { opcode, addr_mode, operands }),
    {
        Self { opcode, addr_mode, operands }
    }

    pub fn unpack(self) -> (r: (Opcode, AddrMode, (Operand, Operand)))
        ensures
            r == (self.opcode, self.addr_mode, self.operands),
    {
        (self.opcode, self.addr_mode, self.operands)
    }
}

/// Decoding the encoding of an opcode gives the opcode back, and two opcodes
/// never share an encoding.
pub proof fn lemma_opcode_round_trip(op: Opcode, other: Opcode)
    ensures
        Opcode::spec_decode(op.spec_encode()) == Some(op),
        op.spec_encode() == other.spec_encode() ==> op == other,
{
}

/// A byte that decodes to an opcode is that opcode's encoding.
pub proof fn lemma_opcode_decode_encode(byte: u8)
    ensures
        Opcode::spec_decode(byte) is Some ==> Opcode::spec_decode(byte)->0.spec_encode() == byte,
{
}

/// Decoding the encoding of an addressing mode gives the mode back, and two
/// modes never share an encoding.
pub proof fn lemma_addr_mode_round_trip(mode: AddrMode, other: AddrMode)
    ensures
        AddrMode::spec_decode(mode.spec_encode()) == Some(mode),
        mode.spec_encode() == other.spec_encode() ==> mode == other,
{
}

/// A byte that decodes to an addressing mode is that mode's encoding.
pub proof fn lemma_addr_mode_decode_encode(byte: u8)
    ensures
        AddrMode::spec_decode(byte) is Some ==> AddrMode::spec_decode(byte)->0.spec_encode()
            == byte,
{
}

} // verus!
