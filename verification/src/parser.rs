//! The mnemonics of the opcodes, and the parser that recognizes one at the
//! start of a text.

use crate::opcodes::Opcode;
use vstd::prelude::*;
use vstd::slice::slice_subrange;

verus! {

/// Why a text does not start with a mnemonic.
#[derive(Clone, Copy, Debug, PartialEq, Eq, Structural)]
pub enum ParseError {
    /// No mnemonic is a prefix of the text, whatever the case of letters.
    UnknownMnemonic,
}

/// Every opcode, in the order in which the parser tries them.
pub open spec fn opcode_table() -> Seq<Opcode> {
    seq![
        Opcode::Nop,
        Opcode::Hlt,
        Opcode::Mov,
        Opcode::Lod,
        Opcode::Str,
        Opcode::Add,
        Opcode::Sub,
        Opcode::Mul,
        Opcode::Div,
        Opcode::Inc,
        Opcode::Dec,
        Opcode::And,
        Opcode::Or,
        Opcode::Xor,
        Opcode::Not,
        Opcode::Shl,
        Opcode::Shr,
        Opcode::Jmp,
        Opcode::Jeq,
        Opcode::Jne,
        Opcode::Jgt,
        Opcode::Jlt,
        Opcode::Jge,
        Opcode::Jle,
        Opcode::Jnz,
        Opcode::Jz,
        Opcode::Psh,
        Opcode::Pop,
        Opcode::Dup,
        Opcode::Swp,
        Opcode::Clr,
        Opcode::Ret,
        Opcode::Cal,
    ]
}

/// The position of an opcode in the table.
pub open spec fn table_index(op: Opcode) -> int {
    match op {
        Opcode::Nop => 0,
        Opcode::Hlt => 1,
        Opcode::Mov => 2,
        Opcode::Lod => 3,
        Opcode::Str => 4,
        Opcode::Add => 5,
        Opcode::Sub => 6,
        Opcode::Mul => 7,
        Opcode::Div => 8,
        Opcode::Inc => 9,
        Opcode::Dec => 10,
        Opcode::And => 11,
        Opcode::Or => 12,
        Opcode::Xor => 13,
        Opcode::Not => 14,
        Opcode::Shl => 15,
        Opcode::Shr => 16,
        Opcode::Jmp => 17,
        Opcode::Jeq => 18,
        Opcode::Jne => 19,
        Opcode::Jgt => 20,
        Opcode::Jlt => 21,
        Opcode::Jge => 22,
        Opcode::Jle => 23,
        Opcode::Jnz => 24,
        Opcode::Jz => 25,
        Opcode::Psh => 26,
        Opcode::Pop => 27,
        Opcode::Dup => 28,
        Opcode::Swp => 29,
        Opcode::Clr => 30,
        Opcode::Ret => 31,
        Opcode::Cal => 32,
    }
}

/// The mnemonic of an opcode, in lower-case ASCII.
pub open spec fn mnemonic(op: Opcode) -> Seq<u8> {
    match op {
        Opcode::Nop => seq!['n' as u8, 'o' as u8, 'p' as u8],
        Opcode::Hlt => seq!['h' as u8, 'l' as u8, 't' as u8],
        Opcode::Mov => seq!['m' as u8, 'o' as u8, 'v' as u8],
        Opcode::Lod => seq!['l' as u8, 'o' as u8, 'd' as u8],
        Opcode::Str => seq!['s' as u8, 't' as u8, 'r' as u8],
        Opcode::Add => seq!['a' as u8, 'd' as u8, 'd' as u8],
        Opcode::Sub => seq!['s' as u8, 'u' as u8, 'b' as u8],
        Opcode::Mul => seq!['m' as u8, 'u' as u8, 'l' as u8],
        Opcode::Div => seq!['d' as u8, 'i' as u8, 'v' as u8],
        Opcode::Inc => seq!['i' as u8, 'n' as u8, 'c' as u8],
        Opcode::Dec => seq!['d' as u8, 'e' as u8, 'c' as u8],
        Opcode::And => seq!['a' as u8, 'n' as u8, 'd' as u8],
        Opcode::Or => seq!['o' as u8, 'r' as u8],
        Opcode::Xor => seq!['x' as u8, 'o' as u8, 'r' as u8],
        Opcode::Not => seq!['n' as u8, 'o' as u8, 't' as u8],
        Opcode::Shl => seq!['s' as u8, 'h' as u8, 'l' as u8],
        Opcode::Shr => seq!['s' as u8, 'h' as u8, 'r' as u8],
        Opcode::Jmp => seq!['j' as u8, 'm' as u8, 'p' as u8],
        Opcode::Jeq => seq!['j' as u8, 'e' as u8, 'q' as u8],
        Opcode::Jne => seq!['j' as u8, 'n' as u8, 'e' as u8],
        Opcode::Jgt => seq!['j' as u8, 'g' as u8, 't' as u8],
        Opcode::Jlt => seq!['j' as u8, 'l' as u8, 't' as u8],
        Opcode::Jge => seq!['j' as u8, 'g' as u8, 'e' as u8],
        Opcode::Jle => seq!['j' as u8, 'l' as u8, 'e' as u8],
        Opcode::Jnz => seq!['j' as u8, 'n' as u8, 'z' as u8],
        Opcode::Jz => seq!['j' as u8, 'z' as u8],
        Opcode::Psh => seq!['p' as u8, 's' as u8, 'h' as u8],
        Opcode::Pop => seq!['p' as u8, 'o' as u8, 'p' as u8],
        Opcode::Dup => seq!['d' as u8, 'u' as u8, 'p' as u8],
        Opcode::Swp => seq!['s' as u8, 'w' as u8, 'p' as u8],
        Opcode::Clr => seq!['c' as u8, 'l' as u8, 'r' as u8],
        Opcode::Ret => seq!['r' as u8, 'e' as u8, 't' as u8],
        Opcode::Cal => seq!['c' as u8, 'a' as u8, 'l' as u8],
    }
}

/// The name of an opcode, as the variant is written.
pub open spec fn variant_name(op: Opcode) -> Seq<char> {
    match op {
        Opcode::Nop => "Nop"@,
        Opcode::Hlt => "Hlt"@,
        Opcode::Mov => "Mov"@,
        Opcode::Lod => "Lod"@,
        Opcode::Str => "Str"@,
        Opcode::Add => "Add"@,
        Opcode::Sub => "Sub"@,
        Opcode::Mul => "Mul"@,
        Opcode::Div => "Div"@,
        Opcode::Inc => "Inc"@,
        Opcode::Dec => "Dec"@,
        Opcode::And => "And"@,
        Opcode::Or => "Or"@,
        Opcode::Xor => "Xor"@,
        Opcode::Not => "Not"@,
        Opcode::Shl => "Shl"@,
        Opcode::Shr => "Shr"@,
        Opcode::Jmp => "Jmp"@,
        Opcode::Jeq => "Jeq"@,
        Opcode::Jne => "Jne"@,
        Opcode::Jgt => "Jgt"@,
        Opcode::Jlt => "Jlt"@,
        Opcode::Jge => "Jge"@,
        Opcode::Jle => "Jle"@,
        Opcode::Jnz => "Jnz"@,
        Opcode::Jz => "Jz"@,
        Opcode::Psh => "Psh"@,
        Opcode::Pop => "Pop"@,
        Opcode::Dup => "Dup"@,
        Opcode::Swp => "Swp"@,
        Opcode::Clr => "Clr"@,
        Opcode::Ret => "Ret"@,
        Opcode::Cal => "Cal"@,
    }
}

/// An ASCII letter in lower case; any other byte as it is.
pub open spec fn lower(b: u8) -> u8 {
    if 0x41 <= b <= 0x5A {
        (b + 0x20) as u8
    } else {
        b
    }
}

/// Whether `input` starts with `word`, letters compared without regard to
/// case.
pub open spec fn starts_with_word(input: Seq<u8>, word: Seq<u8>) -> bool {
    &&& word.len() <= input.len()
    &&& forall|i: int| 0 <= i < word.len() ==> lower(#[trigger] input[i]) == lower(word[i])
}

fn to_lower(b: u8) -> (r: u8)
    ensures
        r == lower(b),
{
    if 0x41 <= b && b <= 0x5A {
        b + 0x20
    } else {
        b
    }
}

fn has_prefix(input: &[u8], word: &Vec<u8>) -> (r: bool)
    ensures
        r == starts_with_word(input@, word@),
{
    if word.len() > input.len() {
        return false;
    }
    let mut i: usize = 0;
    while i < word.len()
        invariant
            i <= word@.len() <= input@.len(),
            forall|j: int| 0 <= j < i ==> lower(#[trigger] input@[j]) == lower(word@[j]),
        decreases word@.len() - i,
    {
        if to_lower(input[i]) != to_lower(word[i]) {
            return false;
        }
        i = i + 1;
    }
    true
}

impl Opcode {
    /// Every opcode, in the order in which the parser tries them.
    pub fn all() -> (r: Vec<Opcode>)
        ensures
            r@ == opcode_table(),
    {
        let r = vec![
            Opcode::Nop,
            Opcode::Hlt,
            Opcode::Mov,
            Opcode::Lod,
            Opcode::Str,
            Opcode::Add,
            Opcode::Sub,
            Opcode::Mul,
            Opcode::Div,
            Opcode::Inc,
            Opcode::Dec,
            Opcode::And,
            Opcode::Or,
            Opcode::Xor,
            Opcode::Not,
            Opcode::Shl,
            Opcode::Shr,
            Opcode::Jmp,
            Opcode::Jeq,
            Opcode::Jne,
            Opcode::Jgt,
            Opcode::Jlt,
            Opcode::Jge,
            Opcode::Jle,
            Opcode::Jnz,
            Opcode::Jz,
            Opcode::Psh,
            Opcode::Pop,
            Opcode::Dup,
            Opcode::Swp,
            Opcode::Clr,
            Opcode::Ret,
            Opcode::Cal,
        ];
        assert(r@ =~= opcode_table());
        r
    }

    /// The name of the opcode, as the variant is written.
    pub fn name(self) -> (r: &'static str)
        ensures
            r@ == variant_name(self),
    {
        match self {
            Opcode::Nop => "Nop",
            Opcode::Hlt => "Hlt",
            Opcode::Mov => "Mov",
            Opcode::Lod => "Lod",
            Opcode::Str => "Str",
            Opcode::Add => "Add",
            Opcode::Sub => "Sub",
            Opcode::Mul => "Mul",
            Opcode::Div => "Div",
            Opcode::Inc => "Inc",
            Opcode::Dec => "Dec",
            Opcode::And => "And",
            Opcode::Or => "Or",
            Opcode::Xor => "Xor",
            Opcode::Not => "Not",
            Opcode::Shl => "Shl",
            Opcode::Shr => "Shr",
            Opcode::Jmp => "Jmp",
            Opcode::Jeq => "Jeq",
            Opcode::Jne => "Jne",
            Opcode::Jgt => "Jgt",
            Opcode::Jlt => "Jlt",
            Opcode::Jge => "Jge",
            Opcode::Jle => "Jle",
            Opcode::Jnz => "Jnz",
            Opcode::Jz => "Jz",
            Opcode::Psh => "Psh",
            Opcode::Pop => "Pop",
            Opcode::Dup => "Dup",
            Opcode::Swp => "Swp",
            Opcode::Clr => "Clr",
            Opcode::Ret => "Ret",
            Opcode::Cal => "Cal",
        }
    }

    /// The names of all opcodes, in table order.
    pub fn variants() -> (r: Vec<&'static str>)
        ensures
            r@.len() == opcode_table().len(),
            forall|i: int| 0 <= i < r@.len() ==> (#[trigger] r@[i])@ == variant_name(opcode_table()[i]),
    {
        let table = Opcode::all();
        let mut names: Vec<&'static str> = Vec::new();
        let mut i: usize = 0;
        while i < table.len()
            invariant
                i <= table@.len(),
                table@ == opcode_table(),
                names@.len() == i,
                forall|j: int| 0 <= j < i ==> (#[trigger] names@[j])@ == variant_name(opcode_table()[j]),
            decreases table@.len() - i,
        {
            names.push(table[i].name());
            i = i + 1;
        }
        names
    }

    /// The mnemonic of the opcode, in lower-case ASCII.
    pub fn mnemonic(self) -> (r: Vec<u8>)
        ensures
            r@ == mnemonic(self),
    {
        let r = match self {
            Opcode::Nop => vec!['n' as u8, 'o' as u8, 'p' as u8],
            Opcode::Hlt => vec!['h' as u8, 'l' as u8, 't' as u8],
            Opcode::Mov => vec!['m' as u8, 'o' as u8, 'v' as u8],
            Opcode::Lod => vec!['l' as u8, 'o' as u8, 'd' as u8],
            Opcode::Str => vec!['s' as u8, 't' as u8, 'r' as u8],
            Opcode::Add => vec!['a' as u8, 'd' as u8, 'd' as u8],
            Opcode::Sub => vec!['s' as u8, 'u' as u8, 'b' as u8],
            Opcode::Mul => vec!['m' as u8, 'u' as u8, 'l' as u8],
            Opcode::Div => vec!['d' as u8, 'i' as u8, 'v' as u8],
            Opcode::Inc => vec!['i' as u8, 'n' as u8, 'c' as u8],
            Opcode::Dec => vec!['d' as u8, 'e' as u8, 'c' as u8],
            Opcode::And => vec!['a' as u8, 'n' as u8, 'd' as u8],
            Opcode::Or => vec!['o' as u8, 'r' as u8],
            Opcode::Xor => vec!['x' as u8, 'o' as u8, 'r' as u8],
            Opcode::Not => vec!['n' as u8, 'o' as u8, 't' as u8],
            Opcode::Shl => vec!['s' as u8, 'h' as u8, 'l' as u8],
            Opcode::Shr => vec!['s' as u8, 'h' as u8, 'r' as u8],
            Opcode::Jmp => vec!['j' as u8, 'm' as u8, 'p' as u8],
            Opcode::Jeq => vec!['j' as u8, 'e' as u8, 'q' as u8],
            Opcode::Jne => vec!['j' as u8, 'n' as u8, 'e' as u8],
            Opcode::Jgt => vec!['j' as u8, 'g' as u8, 't' as u8],
            Opcode::Jlt => vec!['j' as u8, 'l' as u8, 't' as u8],
            Opcode::Jge => vec!['j' as u8, 'g' as u8, 'e' as u8],
            Opcode::Jle => vec!['j' as u8, 'l' as u8, 'e' as u8],
            Opcode::Jnz => vec!['j' as u8, 'n' as u8, 'z' as u8],
            Opcode::Jz => vec!['j' as u8, 'z' as u8],
            Opcode::Psh => vec!['p' as u8, 's' as u8, 'h' as u8],
            Opcode::Pop => vec!['p' as u8, 'o' as u8, 'p' as u8],
            Opcode::Dup => vec!['d' as u8, 'u' as u8, 'p' as u8],
            Opcode::Swp => vec!['s' as u8, 'w' as u8, 'p' as u8],
            Opcode::Clr => vec!['c' as u8, 'l' as u8, 'r' as u8],
            Opcode::Ret => vec!['r' as u8, 'e' as u8, 't' as u8],
            Opcode::Cal => vec!['c' as u8, 'a' as u8, 'l' as u8],
        };
        assert(r@ =~= mnemonic(self));
        r
    }
}

/// Every opcode stands in the table, at its index.
pub proof fn lemma_table_is_complete(op: Opcode)
    ensures
        0 <= table_index(op) < opcode_table().len(),
        opcode_table()[table_index(op)] == op,
{
}

/// No text starts with the mnemonics of two different opcodes.
pub proof fn lemma_one_mnemonic(input: Seq<u8>, a: Opcode, b: Opcode)
    requires
        starts_with_word(input, mnemonic(a)),
        starts_with_word(input, mnemonic(b)),
    ensures
        a == b,
{
    let wa = mnemonic(a);
    let wb = mnemonic(b);
    assert(lower(input[0]) == lower(wa[0]) && lower(input[0]) == lower(wb[0]));
    assert(lower(input[1]) == lower(wa[1]) && lower(input[1]) == lower(wb[1]));
    if wa.len() == 3 {
        assert(lower(input[2]) == lower(wa[2]));
    }
    if wb.len() == 3 {
        assert(lower(input[2]) == lower(wb[2]));
    }
}

/// Recognizes the mnemonic of an opcode at the start of `input`, in any mix
/// of upper and lower case, and returns the rest of the input with the
/// opcode.
pub fn opcode(input: &[u8]) -> (r: Result<(&[u8], Opcode), ParseError>)
    ensures
        match r {
            Ok((rest, op)) => starts_with_word(input@, mnemonic(op)) && rest@ == input@.skip(
                mnemonic(op).len() as int,
            ),
            Err(e) => e == ParseError::UnknownMnemonic && forall|op: Opcode|
                !starts_with_word(input@, #[trigger] mnemonic(op)),
        },
{
    let table = Opcode::all();
    let mut i: usize = 0;
    while i < table.len()
        invariant
            i <= table@.len(),
            table@ == opcode_table(),
            forall|j: int| 0 <= j < i ==> !starts_with_word(input@, mnemonic(#[trigger] table@[j])),
        decreases table@.len() - i,
    {
        let op = table[i];
        let word = op.mnemonic();
        if has_prefix(input, &word) {
            let rest = slice_subrange(input, word.len(), input.len());
            assert(rest@ =~= input@.skip(mnemonic(op).len() as int));
            return Ok((rest, op));
        }
        i = i + 1;
    }
    proof {
        assert forall|op: Opcode| !starts_with_word(input@, #[trigger] mnemonic(op)) by {
            lemma_table_is_complete(op);
            assert(table@[table_index(op)] == op);
        }
    }
    Err(ParseError::UnknownMnemonic)
}

} // verus!
