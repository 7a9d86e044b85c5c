//! The symbolic registers and their fixed slots.

use vstd::prelude::*;

verus! {

/// Width of one register slot in bytes.
pub const SLOT_BYTES: u64 = 8;

/// Number of registers, and of slots in the register file.
pub const REGISTER_COUNT: u8 = 14;

/// The registers of the machine.
#[derive(Clone, Copy, Debug, PartialEq, Eq, Hash, Structural)]
pub enum Register {
    Accumulator,
    InstructionPointer,
    StackPointer,
    FramePointer,
    FrameSize,
    ArgCount,
    Reg1,
    Reg2,
    Reg3,
    Reg4,
    Reg5,
    Reg6,
    Reg7,
    Reg8,
}

/// The register table: every register, in slot order.
pub open spec fn register_table() -> Seq<Register> {
    seq![
        Register::Accumulator,
        Register::InstructionPointer,
        Register::StackPointer,
        Register::FramePointer,
        Register::FrameSize,
        Register::ArgCount,
        Register::Reg1,
        Register::Reg2,
        Register::Reg3,
        Register::Reg4,
        Register::Reg5,
        Register::Reg6,
        Register::Reg7,
        Register::Reg8,
    ]
}

impl Register {
    /// The slot of a register: its position in the register table.
    pub open spec fn spec_slot(self) -> u8 {
        match self {
            Register::Accumulator => 0,
            Register::InstructionPointer => 1,
            Register::StackPointer => 2,
            Register::FramePointer => 3,
            Register::FrameSize => 4,
            Register::ArgCount => 5,
            Register::Reg1 => 6,
            Register::Reg2 => 7,
            Register::Reg3 => 8,
            Register::Reg4 => 9,
            Register::Reg5 => 10,
            Register::Reg6 => 11,
            Register::Reg7 => 12,
            Register::Reg8 => 13,
        }
    }

    /// The register that occupies a slot, if the slot exists.
    pub open spec fn spec_from_slot(slot: u8) -> Option<Register> {
        if slot < REGISTER_COUNT {
            Some(register_table()[slot as int])
        } else {
            None
        }
    }

    /// The one-byte code of a register: its slot plus one.
    pub open spec fn spec_code(self) -> u8 {
        (self.spec_slot() + 1) as u8
    }

    #[verifier::when_used_as_spec(spec_slot)]
    pub fn slot(self) -> (r: u8)
        ensures
            r == self.spec_slot(),
            r < REGISTER_COUNT,
    {
        match self {
            Register::Accumulator => 0,
            Register::InstructionPointer => 1,
            Register::StackPointer => 2,
            Register::FramePointer => 3,
            Register::FrameSize => 4,
            Register::ArgCount => 5,
            Register::Reg1 => 6,
            Register::Reg2 => 7,
            Register::Reg3 => 8,
            Register::Reg4 => 9,
            Register::Reg5 => 10,
            Register::Reg6 => 11,
            Register::Reg7 => 12,
            Register::Reg8 => 13,
        }
    }

    pub fn code(self) -> (r: u8)
        ensures
            r == self.spec_code(),
            1 <= r <= REGISTER_COUNT,
    {
        self.slot() + 1
    }

    /// Resolves a slot index through the register table.
    pub fn from_slot(slot: u8) -> (r: Option<Register>)
        ensures
            r == Self::spec_from_slot(slot),
            r is Some <==> slot < REGISTER_COUNT,
            r is Some ==> r->0.spec_slot() == slot,
    {
        match slot {
            0 => Some(Register::Accumulator),
            1 => Some(Register::InstructionPointer),
            2 => Some(Register::StackPointer),
            3 => Some(Register::FramePointer),
            4 => Some(Register::FrameSize),
            5 => Some(Register::ArgCount),
            6 => Some(Register::Reg1),
            7 => Some(Register::Reg2),
            8 => Some(Register::Reg3),
            9 => Some(Register::Reg4),
            10 => Some(Register::Reg5),
            11 => Some(Register::Reg6),
            12 => Some(Register::Reg7),
            13 => Some(Register::Reg8),
            _ => None,
        }
    }

    /// Every register, in slot order.
    pub fn all() -> (r: Vec<Register>)
        ensures
            r@ == register_table(),
            r@.len() == REGISTER_COUNT,
    {
        let r = vec![
            Register::Accumulator,
            Register::InstructionPointer,
            Register::StackPointer,
            Register::FramePointer,
            Register::FrameSize,
            Register::ArgCount,
            Register::Reg1,
            Register::Reg2,
            Register::Reg3,
            Register::Reg4,
            Register::Reg5,
            Register::Reg6,
            Register::Reg7,
            Register::Reg8,
        ];
        assert(r@ =~= register_table());
        r
    }

    /// The name of a register.
    pub open spec fn spec_name(self) -> Seq<char> {
        match self {
            Register::Accumulator => "accumulator"@,
            Register::InstructionPointer => "instruction_pointer"@,
            Register::StackPointer => "stack_pointer"@,
            Register::FramePointer => "frame_pointer"@,
            Register::FrameSize => "frame_size"@,
            Register::ArgCount => "arg_count"@,
            Register::Reg1 => "reg_1"@,
            Register::Reg2 => "reg_2"@,
            Register::Reg3 => "reg_3"@,
            Register::Reg4 => "reg_4"@,
            Register::Reg5 => "reg_5"@,
            Register::Reg6 => "reg_6"@,
            Register::Reg7 => "reg_7"@,
            Register::Reg8 => "reg_8"@,
        }
    }

    /// The name of the register.
    pub fn to_string(&self) -> (r: String)
        ensures
            r@ == self.spec_name(),
    {
        match self {
            Register::Accumulator => "accumulator".to_owned(),
            Register::InstructionPointer => "instruction_pointer".to_owned(),
            Register::StackPointer => "stack_pointer".to_owned(),
            Register::FramePointer => "frame_pointer".to_owned(),
            Register::FrameSize => "frame_size".to_owned(),
            Register::ArgCount => "arg_count".to_owned(),
            Register::Reg1 => "reg_1".to_owned(),
            Register::Reg2 => "reg_2".to_owned(),
            Register::Reg3 => "reg_3".to_owned(),
            Register::Reg4 => "reg_4".to_owned(),
            Register::Reg5 => "reg_5".to_owned(),
            Register::Reg6 => "reg_6".to_owned(),
            Register::Reg7 => "reg_7".to_owned(),
            Register::Reg8 => "reg_8".to_owned(),
        }
    }

    /// The register of a name; `None` for a text that names no register.
    pub fn from_name(name: &str) -> (r: Option<Register>)
        ensures
            match r {
                Some(reg) => reg.spec_name() == name@,
                None => forall|reg: Register| #[trigger] reg.spec_name() != name@,
            },
    {
        let wanted = name.to_owned();
        let table = Register::all();
        let mut i: usize = 0;
        while i < table.len()
            invariant
                i <= table@.len(),
                table@ == register_table(),
                wanted@ == name@,
                forall|j: int| 0 <= j < i ==> (#[trigger] table@[j]).spec_name() != name@,
            decreases table@.len() - i,
        {
            let reg = table[i];
            if reg.to_string() == wanted {
                return Some(reg);
            }
            i = i + 1;
        }
        proof {
            assert forall|reg: Register| #[trigger] reg.spec_name() != name@ by {
                lemma_slot_round_trip(reg);
                assert(table@[reg.spec_slot() as int] == reg);
            }
        }
        None
    }
}

/// A register sits in the table at its own slot, and the table resolves that
/// slot back to the register.
pub proof fn lemma_slot_round_trip(reg: Register)
    ensures
        reg.spec_slot() < REGISTER_COUNT,
        register_table()[reg.spec_slot() as int] == reg,
        Register::spec_from_slot(reg.spec_slot()) == Some(reg),
{
}

/// Two registers with the same slot are the same register.
pub proof fn lemma_slot_injective(a: Register, b: Register)
    requires
        a.spec_slot() == b.spec_slot(),
    ensures
        a == b,
{
}

/// Two registers with the same name are the same register.
pub proof fn lemma_name_injective(a: Register, b: Register)
    requires
        a.spec_name() == b.spec_name(),
    ensures
        a == b,
{
    reveal_strlit("accumulator");
    reveal_strlit("instruction_pointer");
    reveal_strlit("stack_pointer");
    reveal_strlit("frame_pointer");
    reveal_strlit("frame_size");
    reveal_strlit("arg_count");
    reveal_strlit("reg_1");
    reveal_strlit("reg_2");
    reveal_strlit("reg_3");
    reveal_strlit("reg_4");
    reveal_strlit("reg_5");
    reveal_strlit("reg_6");
    reveal_strlit("reg_7");
    reveal_strlit("reg_8");
    let x = a.spec_name();
    let y = b.spec_name();
    assert(x.len() == y.len());
    if x.len() == 5 {
        assert(x[4] == y[4]);
    }
    if x.len() == 13 {
        assert(x[0] == y[0]);
    }
}

} // verus!
