//! The program image that the machine boots: a program that prints a
//! greeting through the console, laid into a ROM.

use crate::device::{byte_of, STDOUT_NEWLINE};
use crate::opcodes::{AddrMode, Opcode};
use crate::rom::{flashed, Rom};
use vstd::prelude::*;

verus! {

/// The top of addressable memory: four gibibytes.
pub const MEM_SIZE: u64 = 0x1_0000_0000;

/// The size of the boot ROM: one mebibyte.
pub const ROM_SIZE: usize = 0x10_0000;

/// The address at which the console is mapped.
pub const STDOUT_ADDR: u64 = 0x0000_0000_FFFF_0000;

/// The length of a store of an immediate: opcode, addressing mode and two
/// operands of eight bytes.
pub const STORE_BYTES: usize = 18;

/// The eight bytes of a word, most significant first.
pub open spec fn be_bytes(value: u64) -> Seq<u8> {
    Seq::new(8, |i: int| byte_of(value, (7 - i) as nat))
}

/// The encoding of `mov value, [addr]`, operands most significant byte
/// first.
pub open spec fn store_instruction(value: u64, addr: u64) -> Seq<u8> {
    seq![Opcode::Mov.spec_encode(), AddrMode::ImmToMem.spec_encode()] + be_bytes(value) + be_bytes(
        addr,
    )
}

/// The encoding of `hlt`.
pub open spec fn halt_instruction() -> Seq<u8> {
    seq![Opcode::Hlt.spec_encode(), AddrMode::Null.spec_encode()]
}

/// One store to the console for each byte of `text`, in order.
pub open spec fn print_program(text: Seq<u8>) -> Seq<u8>
    decreases text.len(),
{
    if text.len() == 0 {
        Seq::empty()
    } else {
        print_program(text.drop_last()) + store_instruction(text.last() as u64, STDOUT_ADDR)
    }
}

/// The greeting: `Hello, World!`.
pub open spec fn greeting() -> Seq<u8> {
    seq![
        'H' as u8,
        'e' as u8,
        'l' as u8,
        'l' as u8,
        'o' as u8,
        ',' as u8,
        ' ' as u8,
        'W' as u8,
        'o' as u8,
        'r' as u8,
        'l' as u8,
        'd' as u8,
        '!' as u8,
    ]
}

/// The boot program: prints the greeting and a line feed, then halts.
pub open spec fn boot_program() -> Seq<u8> {
    print_program(greeting()) + store_instruction(STDOUT_NEWLINE as u64, STDOUT_ADDR)
        + halt_instruction()
}

/// A program that prints a text has one store for each of its bytes.
pub proof fn lemma_print_program_len(text: Seq<u8>)
    ensures
        print_program(text).len() == STORE_BYTES * text.len(),
    decreases text.len(),
{
    if text.len() > 0 {
        lemma_print_program_len(text.drop_last());
    }
}

/// Appends the eight bytes of `value`, most significant first.
pub fn push_be(program: &mut Vec<u8>, value: u64)
    ensures
        final(program)@ == old(program)@ + be_bytes(value),
{
    let mut i: u64 = 0;
    assert(program@ =~= old(program)@ + be_bytes(value).take(0));
    while i < 8
        invariant
            i <= 8,
            program@ == old(program)@ + be_bytes(value).take(i as int),
        decreases 8 - i,
    {
        let byte = #[verifier::truncate] ((value >> (8 * (7 - i))) as u8);
        program.push(byte);
        assert(program@ =~= old(program)@ + be_bytes(value).take(i + 1));
        i = i + 1;
    }
    assert(be_bytes(value).take(8) =~= be_bytes(value));
}

/// Appends the encoding of `mov value, [addr]`.
pub fn push_store(program: &mut Vec<u8>, value: u64, addr: u64)
    ensures
        final(program)@ == old(program)@ + store_instruction(value, addr),
{
    program.push(Opcode::Mov.encode());
    program.push(AddrMode::ImmToMem.encode());
    push_be(program, value);
    push_be(program, addr);
    assert(program@ =~= old(program)@ + store_instruction(value, addr));
}

/// The boot ROM: `ROM_SIZE` bytes that start with the boot program and are
/// zero after it.
pub fn rom() -> (r: Rom)
    ensures
        r.contents() == flashed(Seq::new(ROM_SIZE as nat, |i: int| 0u8), boot_program()),
        !r.is_writeable(),
{
    let text: Vec<u8> = vec![
        'H' as u8,
        'e' as u8,
        'l' as u8,
        'l' as u8,
        'o' as u8,
        ',' as u8,
        ' ' as u8,
        'W' as u8,
        'o' as u8,
        'r' as u8,
        'l' as u8,
        'd' as u8,
        '!' as u8,
    ];
    assert(text@ =~= greeting());
    let mut program: Vec<u8> = Vec::new();
    let mut i: usize = 0;
    assert(text@.take(0) =~= Seq::<u8>::empty());
    while i < text.len()
        invariant
            i <= text@.len(),
            program@ == print_program(text@.take(i as int)),
        decreases text@.len() - i,
    {
        push_store(&mut program, text[i] as u64, STDOUT_ADDR);
        proof {
            assert(text@.take(i + 1).drop_last() =~= text@.take(i as int));
        }
        i = i + 1;
    }
    assert(text@.take(text@.len() as int) =~= text@);
    push_store(&mut program, STDOUT_NEWLINE as u64, STDOUT_ADDR);
    program.push(Opcode::Hlt.encode());
    program.push(AddrMode::Null.encode());
    proof {
        assert(program@ =~= boot_program());
        lemma_print_program_len(greeting());
    }
    let mut rom = Rom::new(ROM_SIZE);
    let _ = rom.flash(program.as_slice());
    rom
}

} // verus!
