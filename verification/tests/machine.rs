use vm::cpu::Cpu;
use vm::device::{Buffer, Device};
use vm::device_mapper::{BitsOps, DeviceMapper, Region};
use vm::fault::Fault;
use vm::image::{push_be, push_store, rom, MEM_SIZE, ROM_SIZE};
use vm::model::Status;
use vm::opcodes::{AddrMode, Instruction, Opcode, Operand};
use vm::peripheral::Peripheral;
use vm::ram::Ram;
use vm::register::Register;
use vm::registers::Registers;
use vm::rom::Rom;
use vm::stdout::Stdout;

const RAM_BASE: u64 = 0x1_0000;
const RAM_SIZE: usize = 0x1000;
const STDOUT_ADDR: u64 = 0x0000_0000_FFFF_0000;

fn all_opcodes() -> Vec<Opcode> {
    vec![
        Opcode::Nop,
        Opcode::Hlt,
        Opcode::Mov,
        Opcode::Lod,
        Opcode::Str,
        Opcode::Add,
        Opcode::Sub,
        Opcode::Mul,
        Opcode::Div,
        Opcode::Inc,
        Opcode::Dec,
        Opcode::And,
        Opcode::Or,
        Opcode::Xor,
        Opcode::Not,
        Opcode::Shl,
        Opcode::Shr,
        Opcode::Jmp,
        Opcode::Jeq,
        Opcode::Jne,
        Opcode::Jgt,
        Opcode::Jlt,
        Opcode::Jge,
        Opcode::Jle,
        Opcode::Jnz,
        Opcode::Jz,
        Opcode::Psh,
        Opcode::Pop,
        Opcode::Dup,
        Opcode::Swp,
        Opcode::Clr,
        Opcode::Ret,
        Opcode::Cal,
    ]
}

fn all_modes() -> Vec<AddrMode> {
    vec![
        AddrMode::ImmToReg,
        AddrMode::ImmToMem,
        AddrMode::RegToReg,
        AddrMode::RegToMem,
        AddrMode::MemToReg,
        AddrMode::MemToMem,
        AddrMode::Literal,
        AddrMode::Register,
        AddrMode::Memory,
        AddrMode::Null,
    ]
}

/// A CPU with a program in ROM at address 0 and RAM at `RAM_BASE`; the
/// stack pointer is set to the middle of the RAM.
fn machine(program: &[u8]) -> Cpu {
    let mut cpu = Cpu::new(RAM_BASE as usize + RAM_SIZE);
    let mut rom = Rom::new(0x400);
    assert_eq!(rom.flash(program), Ok(()));
    cpu.attach(Peripheral::Rom(rom), String::from("rom"), 0);
    cpu.attach(Peripheral::Ram(Ram::new(RAM_SIZE)), String::from("ram"), RAM_BASE);
    cpu.write_reg(Register::StackPointer, RAM_BASE + 0x800);
    cpu
}

fn reg(r: Register) -> Operand {
    Operand::Reg(r.slot())
}

fn exec(cpu: &mut Cpu, opcode: Opcode, first: Operand, second: Operand) -> Result<Status, Fault> {
    cpu.execute(Instruction::new(opcode, AddrMode::Null, (first, second)))
}

fn le(value: u64) -> [u8; 8] {
    value.to_le_bytes()
}

#[test]
fn register_write_then_read_gives_the_value() {
    let mut cpu = Cpu::new(64);
    let values = [0u64, 1, 0xFF, 0x0102_0304_0506_0708, u64::MAX];
    for r in Register::all() {
        for v in values {
            cpu.write_reg(r, v);
            assert_eq!(cpu.read_reg(r), v);
        }
    }
}

#[test]
fn register_write_leaves_other_registers() {
    let mut cpu = Cpu::new(64);
    for (i, r) in Register::all().into_iter().enumerate() {
        cpu.write_reg(r, 100 + i as u64);
    }
    cpu.write_reg(Register::Reg3, 7);
    for (i, r) in Register::all().into_iter().enumerate() {
        let expected = if r == Register::Reg3 { 7 } else { 100 + i as u64 };
        assert_eq!(cpu.read_reg(r), expected);
    }
}

#[test]
fn new_cpu_has_stack_pointer_at_memory_top() {
    let cpu = Cpu::new(4096);
    for r in Register::all() {
        let expected = if r == Register::StackPointer { 4096 } else { 0 };
        assert_eq!(cpu.read_reg(r), expected);
    }
}

#[test]
fn register_table_order_and_codes() {
    let all = Register::all();
    assert_eq!(all.len(), 14);
    assert_eq!(all[0], Register::Accumulator);
    assert_eq!(all[1], Register::InstructionPointer);
    assert_eq!(all[2], Register::StackPointer);
    assert_eq!(all[5], Register::ArgCount);
    assert_eq!(all[6], Register::Reg1);
    assert_eq!(all[13], Register::Reg8);
    for (i, r) in all.iter().enumerate() {
        assert_eq!(r.slot() as usize, i);
        assert_eq!(r.code() as usize, i + 1);
        assert_eq!(Register::from_slot(i as u8), Some(*r));
    }
    assert_eq!(Register::from_slot(14), None);
    assert_eq!(Register::from_slot(255), None);
}

#[test]
fn register_file_is_little_endian() {
    let mut regs = Registers::new(24);
    assert_eq!(regs.write(0, 0x0102_0304_0506_0708), Ok(()));
    assert_eq!(regs.read(0), Ok(0x0102_0304_0506_0708));
    assert_eq!(regs.read(1), Ok(0x0001_0203_0405_0607));
    assert_eq!(regs.read(8), Ok(0));
    assert_eq!(regs.write(16, u64::MAX), Ok(()));
    assert_eq!(regs.read(16), Ok(u64::MAX));
    assert_eq!(regs.read(9), Ok(0xFF00_0000_0000_0000));
}

#[test]
fn register_file_out_of_range_is_a_fault() {
    let mut regs = Registers::new(16);
    assert_eq!(regs.read(9), Err(Fault::OutOfBounds));
    assert_eq!(regs.read(u64::MAX), Err(Fault::OutOfBounds));
    assert_eq!(regs.write(9, 5), Err(Fault::OutOfBounds));
    assert_eq!(regs.read(8), Ok(0));
    assert_eq!(Registers::new(4).read(0), Err(Fault::OutOfBounds));
}

#[test]
fn buffer_reads_and_writes() {
    let mut b = Buffer::new(4);
    assert_eq!(b.size(), 4);
    assert_eq!(b.read(0), Ok(0));
    assert_eq!(b.write(3, 9), Ok(()));
    assert_eq!(b.read(3), Ok(9));
    assert_eq!(b.read(4), Err(Fault::OutOfBounds));
    assert_eq!(b.write(4, 1), Err(Fault::OutOfBounds));
    assert_eq!(Buffer::new(0).size(), 0);
}

#[test]
fn bits_zero() {
    assert_eq!(<u8 as BitsOps>::zero(), 0u8);
    assert_eq!(<u64 as BitsOps>::zero(), 0u64);
}

#[test]
fn opcode_encoding_is_bijective() {
    for op in all_opcodes() {
        assert_eq!(Opcode::from_byte(op.encode()), Ok(op));
    }
    let mut known = 0;
    for byte in 0..=255u8 {
        match Opcode::from_byte(byte) {
            Ok(op) => {
                known += 1;
                assert_eq!(op.encode(), byte);
            }
            Err(e) => assert_eq!(e, Fault::InvalidOpcode(byte)),
        }
    }
    assert_eq!(known, 33);
}

#[test]
fn opcode_bytes_are_fixed() {
    assert_eq!(Opcode::Nop.encode(), 0xFF);
    assert_eq!(Opcode::Hlt.encode(), 0xFE);
    assert_eq!(Opcode::Mov.encode(), 0x01);
    assert_eq!(Opcode::Str.encode(), 0x03);
    assert_eq!(Opcode::Add.encode(), 0x11);
    assert_eq!(Opcode::Dec.encode(), 0x16);
    assert_eq!(Opcode::And.encode(), 0x21);
    assert_eq!(Opcode::Shr.encode(), 0x26);
    assert_eq!(Opcode::Jmp.encode(), 0x31);
    assert_eq!(Opcode::Jz.encode(), 0x39);
    assert_eq!(Opcode::Psh.encode(), 0x41);
    assert_eq!(Opcode::Cal.encode(), 0x47);
    assert_eq!(Opcode::from_byte(0x00), Err(Fault::InvalidOpcode(0x00)));
    assert_eq!(Opcode::from_byte(0x48), Err(Fault::InvalidOpcode(0x48)));
}

#[test]
fn addr_mode_encoding_is_bijective() {
    for mode in all_modes() {
        assert_eq!(AddrMode::from_byte(mode.encode()), Ok(mode));
    }
    let mut known = 0;
    for byte in 0..=255u8 {
        match AddrMode::from_byte(byte) {
            Ok(mode) => {
                known += 1;
                assert_eq!(mode.encode(), byte);
            }
            Err(e) => assert_eq!(e, Fault::InvalidAddrMode(byte)),
        }
    }
    assert_eq!(known, 10);
    assert_eq!(AddrMode::ImmToReg.encode(), 0x10);
    assert_eq!(AddrMode::RegToReg.encode(), 0x30);
    assert_eq!(AddrMode::Null.encode(), 0xA0);
    assert_eq!(AddrMode::from_byte(0x00), Err(Fault::InvalidAddrMode(0x00)));
}

#[test]
fn instruction_new_and_unpack() {
    let i = Instruction::new(Opcode::Mov, AddrMode::ImmToReg, (Operand::Imm(5), Operand::Reg(6)));
    assert_eq!(i.opcode, Opcode::Mov);
    assert_eq!(i.addr_mode, AddrMode::ImmToReg);
    assert_eq!(
        i.unpack(),
        (Opcode::Mov, AddrMode::ImmToReg, (Operand::Imm(5), Operand::Reg(6)))
    );
}

#[test]
fn ram_word_round_trip_through_device() {
    let mut ram = Ram::new(16);
    assert_eq!(ram.size(), 16);
    assert_eq!(ram.write64(4, 0x1122_3344_5566_7788), Ok(()));
    assert_eq!(ram.read64(4), Ok(0x1122_3344_5566_7788));
    assert_eq!(ram.read(4), Ok(0x88));
    assert_eq!(ram.read(11), Ok(0x11));
    assert_eq!(ram.read(12), Ok(0));
    assert_eq!(ram.read(16), Err(Fault::OutOfBounds));
}

#[test]
fn ram_word_across_the_end_faults_after_partial_write() {
    let mut ram = Ram::new(16);
    assert_eq!(ram.write64(12, 0x1122_3344_5566_7788), Err(Fault::OutOfBounds));
    assert_eq!(ram.read(12), Ok(0x88));
    assert_eq!(ram.read(15), Ok(0x55));
    assert_eq!(ram.read64(12), Err(Fault::OutOfBounds));
    assert_eq!(ram.read64(u64::MAX), Err(Fault::OutOfBounds));
    assert_eq!(ram.write64(u64::MAX - 2, 1), Err(Fault::OutOfBounds));
}

#[test]
fn rom_flash_read_and_write_fault() {
    let mut rom = Rom::new(8);
    assert_eq!(rom.size(), 8);
    assert_eq!(rom.flash(&[1, 2, 3]), Ok(()));
    assert_eq!(rom.read(0), Ok(1));
    assert_eq!(rom.read(2), Ok(3));
    assert_eq!(rom.read(3), Ok(0));
    assert_eq!(rom.read(8), Err(Fault::OutOfBounds));
    assert_eq!(rom.write(0, 9), Err(Fault::ReadOnlyWrite));
    assert_eq!(rom.write(100, 9), Err(Fault::ReadOnlyWrite));
    assert_eq!(rom.write64(0, 9), Err(Fault::ReadOnlyWrite));
    assert_eq!(rom.read(0), Ok(1));
    assert_eq!(rom.read64(0), Ok(0x0000_0000_0003_0201));
    assert_eq!(rom.dump(2), vec![1, 2]);
    assert_eq!(rom.dump(100), vec![1, 2, 3, 0, 0, 0, 0, 0]);
    assert_eq!(rom.dump(0), Vec::<u8>::new());
}

#[test]
fn rom_flash_too_long_is_a_fault() {
    let mut rom = Rom::new(2);
    assert_eq!(rom.flash(&[1, 2, 3]), Err(Fault::OutOfBounds));
    assert_eq!(rom.dump(2), vec![0, 0]);
    assert_eq!(rom.flash(&[]), Ok(()));
    assert_eq!(rom.flash(&[7, 8]), Ok(()));
    assert_eq!(rom.dump(2), vec![7, 8]);
}

#[test]
fn console_prints_hi_and_nothing_else() {
    let mut mapper = DeviceMapper::new();
    mapper.map(Peripheral::Stdout(Stdout::new()), String::from("stdout"), STDOUT_ADDR);
    assert_eq!(mapper.write(STDOUT_ADDR, b'H'), Ok(()));
    assert_eq!(mapper.write(STDOUT_ADDR, b'i'), Ok(()));
    let out = mapper.take_output();
    assert_eq!(out, b"Hi".to_vec());
    let text: String = out.iter().map(|b| *b as char).collect();
    assert_eq!(text, "Hi");
    assert_eq!(mapper.take_output(), Vec::<u8>::new());
}

#[test]
fn console_newline_byte_and_read_fault() {
    let mut out = Stdout::new();
    assert_eq!(out.size(), 0x1000);
    assert_eq!(out.write(0, b'a'), Ok(()));
    assert_eq!(out.write(0xFFF, 0xFF), Ok(()));
    assert_eq!(out.write(5, 0x80), Ok(()));
    assert_eq!(out.write(0x1000, b'x'), Err(Fault::OutOfBounds));
    assert_eq!(out.read(0), Err(Fault::WriteOnlyRead));
    assert_eq!(out.read64(0), Err(Fault::WriteOnlyRead));
    assert_eq!(out.take_output(), vec![b'a', b'\n', 0x80]);
    assert_eq!(out.take_output(), Vec::<u8>::new());
}

#[test]
fn mapper_word_round_trip() {
    let mut mapper = DeviceMapper::new();
    mapper.map(Peripheral::Ram(Ram::new(64)), String::from("ram"), 0x100);
    for addr in [0x100u64, 0x101, 0x120, 0x138] {
        for v in [0u64, 1, 0xDEAD_BEEF_0BAD_F00D, u64::MAX] {
            assert_eq!(mapper.write64(addr, v), Ok(()));
            assert_eq!(mapper.read64(addr), Ok(v));
        }
    }
    assert_eq!(mapper.write(0x110, 0xAB), Ok(()));
    assert_eq!(mapper.read(0x110), Ok(0xAB));
}

#[test]
fn mapper_unmapped_read_is_zero_and_write_faults() {
    let mut mapper = DeviceMapper::new();
    assert_eq!(mapper.read(0xFFFF_FFFF), Ok(0));
    assert_eq!(mapper.read64(0xFFFF_FFFF), Ok(0));
    assert_eq!(mapper.write(0xFFFF_FFFF, 1), Err(Fault::UnmappedWrite(0xFFFF_FFFF)));
    assert_eq!(mapper.write64(0xFFFF_FFFF, 1), Err(Fault::UnmappedWrite(0xFFFF_FFFF)));
    mapper.map(Peripheral::Ram(Ram::new(16)), String::from("ram"), 0x100);
    assert_eq!(mapper.read(0xFF), Ok(0));
    assert_eq!(mapper.write(0xFF, 1), Err(Fault::UnmappedWrite(0xFF)));
    assert_eq!(mapper.read(0x111), Ok(0));
    assert_eq!(mapper.write(0x111, 1), Err(Fault::UnmappedWrite(0x111)));
}

#[test]
fn mapper_end_address_is_inclusive() {
    let mut mapper = DeviceMapper::new();
    mapper.map(Peripheral::Ram(Ram::new(16)), String::from("ram"), 0x100);
    assert_eq!(mapper.dump(), vec![(String::from("ram"), 0x100, 0x110)]);
    assert_eq!(mapper.read(0x10F), Ok(0));
    assert_eq!(mapper.read(0x110), Err(Fault::OutOfBounds));
    assert_eq!(mapper.write(0x110, 1), Err(Fault::OutOfBounds));
    assert_eq!(mapper.read64(0x109), Err(Fault::OutOfBounds));
    assert_eq!(mapper.write64(0x109, 1), Err(Fault::OutOfBounds));
    assert_eq!(mapper.read64(0x108), Ok(0x100));
}

#[test]
fn mapper_newest_region_wins_and_unmap_uncovers() {
    let mut mapper = DeviceMapper::new();
    let mut rom = Rom::new(16);
    assert_eq!(rom.flash(&[0x11; 16]), Ok(()));
    mapper.map(Peripheral::Rom(rom), String::from("rom"), 0x100);
    assert_eq!(mapper.read(0x104), Ok(0x11));
    mapper.map(Peripheral::Ram(Ram::new(8)), String::from("ram"), 0x104);
    assert_eq!(mapper.read(0x104), Ok(0));
    assert_eq!(mapper.read(0x103), Ok(0x11));
    assert_eq!(mapper.write(0x104, 0x22), Ok(()));
    assert_eq!(mapper.read(0x104), Ok(0x22));
    assert_eq!(
        mapper.dump(),
        vec![(String::from("ram"), 0x104, 0x10C), (String::from("rom"), 0x100, 0x110)]
    );
    mapper.unmap(0x999);
    assert_eq!(mapper.dump().len(), 2);
    mapper.unmap(0x104);
    assert_eq!(mapper.dump(), vec![(String::from("rom"), 0x100, 0x110)]);
    assert_eq!(mapper.read(0x104), Ok(0x11));
    assert_eq!(mapper.write(0x104, 1), Err(Fault::ReadOnlyWrite));
    mapper.unmap(0x100);
    assert_eq!(mapper.dump(), Vec::<(String, u64, u64)>::new());
}

#[test]
fn mapper_find_region_and_region_check() {
    let mut mapper = DeviceMapper::new();
    assert!(mapper.find_region(0).is_none());
    mapper.map(Peripheral::Ram(Ram::new(16)), String::from("a"), 0x10);
    mapper.map(Peripheral::Ram(Ram::new(16)), String::from("b"), 0x18);
    assert_eq!(mapper.find_region(0x10).map(|r| r.name().clone()), Some(String::from("a")));
    assert_eq!(mapper.find_region(0x17).map(|r| r.start()), Some(0x10));
    assert_eq!(mapper.find_region(0x18).map(|r| r.start()), Some(0x18));
    assert_eq!(mapper.find_region(0x28).map(|r| r.end()), Some(0x28));
    assert!(mapper.find_region(0x29).is_none());
    assert_eq!(mapper.find_region_mut(0x20).map(|r| r.start()), Some(0x18));
    assert!(mapper.find_region_mut(0x0F).is_none());
    let region = Region::new(Peripheral::Ram(Ram::new(4)), String::from("r"), 10);
    assert!(!region.check_addr(9));
    assert!(region.check_addr(10));
    assert!(region.check_addr(14));
    assert!(!region.check_addr(15));
}

#[test]
fn mapper_region_end_wraps() {
    let mut mapper = DeviceMapper::new();
    mapper.map(Peripheral::Ram(Ram::new(16)), String::from("ram"), u64::MAX - 3);
    assert_eq!(mapper.dump(), vec![(String::from("ram"), u64::MAX - 3, 12)]);
    assert_eq!(mapper.read(u64::MAX), Ok(0));
    assert_eq!(mapper.write(u64::MAX, 1), Err(Fault::UnmappedWrite(u64::MAX)));
}

#[test]
fn unmapped_store_faults_and_unmapped_load_reads_zero() {
    let mut cpu = machine(&[]);
    assert_eq!(
        exec(&mut cpu, Opcode::Str, Operand::Imm(1), Operand::Mem(0xFFFF_FFFF)),
        Err(Fault::UnmappedWrite(0xFFFF_FFFF))
    );
    cpu.write_reg(Register::Reg1, 77);
    assert_eq!(
        exec(&mut cpu, Opcode::Lod, Operand::Mem(0xFFFF_FFFF), reg(Register::Reg1)),
        Ok(Status::Running)
    );
    assert_eq!(cpu.read_reg(Register::Reg1), 0);
}

#[test]
fn fetch_decodes_every_addressing_mode() {
    let a = 0x0102_0304_0506_0708u64;
    let b = 0x1112_1314_1516_1718u64;
    let cases: Vec<(AddrMode, Vec<u8>, (Operand, Operand))> = vec![
        (AddrMode::Null, vec![], (Operand::Null, Operand::Null)),
        (AddrMode::RegToReg, vec![6, 7], (Operand::Reg(6), Operand::Reg(7))),
        (
            AddrMode::RegToMem,
            [vec![6], le(a).to_vec()].concat(),
            (Operand::Reg(6), Operand::Mem(a)),
        ),
        (
            AddrMode::ImmToReg,
            [le(a).to_vec(), vec![7]].concat(),
            (Operand::Imm(a), Operand::Reg(7)),
        ),
        (
            AddrMode::ImmToMem,
            [le(a).to_vec(), le(b).to_vec()].concat(),
            (Operand::Imm(a), Operand::Mem(b)),
        ),
        (
            AddrMode::MemToReg,
            [le(a).to_vec(), vec![7]].concat(),
            (Operand::Mem(a), Operand::Reg(7)),
        ),
        (
            AddrMode::MemToMem,
            [le(a).to_vec(), le(b).to_vec()].concat(),
            (Operand::Mem(a), Operand::Mem(b)),
        ),
        (AddrMode::Literal, le(a).to_vec(), (Operand::Imm(a), Operand::Null)),
        (AddrMode::Register, vec![9], (Operand::Reg(9), Operand::Null)),
        (AddrMode::Memory, le(b).to_vec(), (Operand::Mem(b), Operand::Null)),
    ];
    for (mode, bytes, operands) in cases {
        let mut program = vec![Opcode::Mov.encode(), mode.encode()];
        program.extend_from_slice(&bytes);
        let mut cpu = machine(&program);
        assert_eq!(cpu.fetch(), Ok(Instruction::new(Opcode::Mov, mode, operands)));
        assert_eq!(cpu.read_reg(Register::InstructionPointer), program.len() as u64);
    }
}

#[test]
fn fetch_reassembles_words_least_significant_byte_first() {
    let mut program = vec![Opcode::Psh.encode(), AddrMode::Literal.encode()];
    program.extend_from_slice(&0x48u64.to_be_bytes());
    let mut cpu = machine(&program);
    assert_eq!(
        cpu.fetch(),
        Ok(Instruction::new(
            Opcode::Psh,
            AddrMode::Literal,
            (Operand::Imm(0x4800_0000_0000_0000), Operand::Null)
        ))
    );
}

#[test]
fn fetch_operands_alone() {
    let mut cpu = machine(&[3, 4]);
    assert_eq!(
        cpu.fetch_operands(&AddrMode::RegToReg),
        Ok((Operand::Reg(3), Operand::Reg(4)))
    );
    assert_eq!(cpu.read_reg(Register::InstructionPointer), 2);
}

#[test]
fn fetch_faults_on_unknown_bytes() {
    let mut cpu = machine(&[0x00, 0x10]);
    assert_eq!(cpu.fetch(), Err(Fault::InvalidOpcode(0x00)));
    assert_eq!(cpu.read_reg(Register::InstructionPointer), 1);
    let mut cpu = machine(&[0x01, 0x11]);
    assert_eq!(cpu.step(), Err(Fault::InvalidAddrMode(0x11)));
    assert_eq!(cpu.read_reg(Register::InstructionPointer), 2);
}

#[test]
fn fetch_from_console_faults() {
    let mut cpu = Cpu::new(0);
    cpu.attach(Peripheral::Stdout(Stdout::new()), String::from("stdout"), 0);
    assert_eq!(cpu.fetch(), Err(Fault::WriteOnlyRead));
    assert_eq!(cpu.read_reg(Register::InstructionPointer), 0);
}

#[test]
fn mov_in_all_six_shapes() {
    let mut cpu = machine(&[]);
    let m1 = RAM_BASE + 16;
    let m2 = RAM_BASE + 32;
    assert_eq!(exec(&mut cpu, Opcode::Mov, Operand::Imm(5), reg(Register::Reg1)), Ok(Status::Running));
    assert_eq!(cpu.read_reg(Register::Reg1), 5);
    assert_eq!(exec(&mut cpu, Opcode::Mov, reg(Register::Reg1), reg(Register::Reg2)), Ok(Status::Running));
    assert_eq!(cpu.read_reg(Register::Reg2), 5);
    assert_eq!(exec(&mut cpu, Opcode::Mov, Operand::Imm(9), Operand::Mem(m1)), Ok(Status::Running));
    assert_eq!(exec(&mut cpu, Opcode::Mov, Operand::Mem(m1), reg(Register::Reg3)), Ok(Status::Running));
    assert_eq!(cpu.read_reg(Register::Reg3), 9);
    assert_eq!(exec(&mut cpu, Opcode::Mov, reg(Register::Reg1), Operand::Mem(m2)), Ok(Status::Running));
    assert_eq!(exec(&mut cpu, Opcode::Mov, Operand::Mem(m2), reg(Register::Reg4)), Ok(Status::Running));
    assert_eq!(cpu.read_reg(Register::Reg4), 5);
    assert_eq!(exec(&mut cpu, Opcode::Mov, Operand::Mem(m1), Operand::Mem(m2)), Ok(Status::Running));
    assert_eq!(exec(&mut cpu, Opcode::Mov, Operand::Mem(m2), reg(Register::Reg5)), Ok(Status::Running));
    assert_eq!(cpu.read_reg(Register::Reg5), 9);
    assert_eq!(cpu.read_reg(Register::Accumulator), 0);
    assert_eq!(
        exec(&mut cpu, Opcode::Mov, Operand::Null, Operand::Null),
        Err(Fault::InvalidOperand(Opcode::Mov))
    );
    assert_eq!(
        exec(&mut cpu, Opcode::Mov, reg(Register::Reg1), Operand::Imm(1)),
        Err(Fault::InvalidOperand(Opcode::Mov))
    );
}

#[test]
fn lod_and_str_accept_their_shapes_only() {
    let mut cpu = machine(&[]);
    let m1 = RAM_BASE + 16;
    let m2 = RAM_BASE + 32;
    assert_eq!(exec(&mut cpu, Opcode::Lod, Operand::Imm(5), reg(Register::Reg1)), Ok(Status::Running));
    assert_eq!(cpu.read_reg(Register::Reg1), 5);
    assert_eq!(exec(&mut cpu, Opcode::Str, reg(Register::Reg1), Operand::Mem(m1)), Ok(Status::Running));
    assert_eq!(exec(&mut cpu, Opcode::Str, Operand::Mem(m1), Operand::Mem(m2)), Ok(Status::Running));
    assert_eq!(exec(&mut cpu, Opcode::Lod, Operand::Mem(m2), reg(Register::Reg2)), Ok(Status::Running));
    assert_eq!(cpu.read_reg(Register::Reg2), 5);
    assert_eq!(exec(&mut cpu, Opcode::Str, Operand::Imm(8), Operand::Mem(m2)), Ok(Status::Running));
    assert_eq!(exec(&mut cpu, Opcode::Lod, Operand::Mem(m2), reg(Register::Reg2)), Ok(Status::Running));
    assert_eq!(cpu.read_reg(Register::Reg2), 8);
    assert_eq!(
        exec(&mut cpu, Opcode::Lod, reg(Register::Reg1), reg(Register::Reg2)),
        Err(Fault::InvalidOperand(Opcode::Lod))
    );
    assert_eq!(
        exec(&mut cpu, Opcode::Lod, Operand::Imm(1), Operand::Mem(m1)),
        Err(Fault::InvalidOperand(Opcode::Lod))
    );
    assert_eq!(
        exec(&mut cpu, Opcode::Str, Operand::Imm(1), reg(Register::Reg1)),
        Err(Fault::InvalidOperand(Opcode::Str))
    );
    assert_eq!(
        exec(&mut cpu, Opcode::Str, Operand::Null, Operand::Mem(m1)),
        Err(Fault::InvalidOperand(Opcode::Str))
    );
}

#[test]
fn unknown_register_index_is_a_fault() {
    let mut cpu = machine(&[]);
    assert_eq!(
        exec(&mut cpu, Opcode::Mov, Operand::Imm(1), Operand::Reg(14)),
        Err(Fault::UnknownRegister(14))
    );
    assert_eq!(
        exec(&mut cpu, Opcode::Add, Operand::Reg(200), Operand::Reg(0)),
        Err(Fault::UnknownRegister(200))
    );
    assert_eq!(
        exec(&mut cpu, Opcode::Add, Operand::Reg(0), Operand::Reg(201)),
        Err(Fault::UnknownRegister(201))
    );
    assert_eq!(
        exec(&mut cpu, Opcode::Jmp, Operand::Reg(99), Operand::Null),
        Err(Fault::UnknownRegister(99))
    );
    assert_eq!(
        exec(&mut cpu, Opcode::Psh, Operand::Reg(14), Operand::Null),
        Err(Fault::UnknownRegister(14))
    );
    assert_eq!(
        exec(&mut cpu, Opcode::Pop, Operand::Reg(14), Operand::Null),
        Err(Fault::UnknownRegister(14))
    );
}

#[test]
fn arithmetic_lands_in_the_accumulator() {
    let mut cpu = machine(&[]);
    let r1 = reg(Register::Reg1);
    let r2 = reg(Register::Reg2);
    let m = RAM_BASE + 8;
    cpu.write_reg(Register::Reg1, 20);
    cpu.write_reg(Register::Reg2, 6);
    assert_eq!(exec(&mut cpu, Opcode::Mov, Operand::Imm(100), Operand::Mem(m)), Ok(Status::Running));

    assert_eq!(exec(&mut cpu, Opcode::Add, r1, r2), Ok(Status::Running));
    assert_eq!(cpu.read_reg(Register::Accumulator), 26);
    assert_eq!(exec(&mut cpu, Opcode::Add, Operand::Imm(3), r1), Ok(Status::Running));
    assert_eq!(cpu.read_reg(Register::Accumulator), 23);
    assert_eq!(exec(&mut cpu, Opcode::Add, Operand::Mem(m), r2), Ok(Status::Running));
    assert_eq!(cpu.read_reg(Register::Accumulator), 106);

    assert_eq!(exec(&mut cpu, Opcode::Sub, r1, r2), Ok(Status::Running));
    assert_eq!(cpu.read_reg(Register::Accumulator), 14);
    assert_eq!(exec(&mut cpu, Opcode::Sub, Operand::Imm(3), r1), Ok(Status::Running));
    assert_eq!(cpu.read_reg(Register::Accumulator), 17);
    assert_eq!(exec(&mut cpu, Opcode::Sub, Operand::Mem(m), r2), Ok(Status::Running));
    assert_eq!(cpu.read_reg(Register::Accumulator), 94);
    assert_eq!(exec(&mut cpu, Opcode::Sub, r2, r1), Ok(Status::Running));
    assert_eq!(cpu.read_reg(Register::Accumulator), (6u64).wrapping_sub(20));

    assert_eq!(exec(&mut cpu, Opcode::Mul, r1, r2), Ok(Status::Running));
    assert_eq!(cpu.read_reg(Register::Accumulator), 120);
    assert_eq!(exec(&mut cpu, Opcode::Mul, Operand::Imm(u64::MAX), r1), Ok(Status::Running));
    assert_eq!(cpu.read_reg(Register::Accumulator), 20u64.wrapping_mul(u64::MAX));

    assert_eq!(exec(&mut cpu, Opcode::Div, r1, r2), Ok(Status::Running));
    assert_eq!(cpu.read_reg(Register::Accumulator), 3);
    assert_eq!(exec(&mut cpu, Opcode::Div, Operand::Imm(7), r1), Ok(Status::Running));
    assert_eq!(cpu.read_reg(Register::Accumulator), 2);
    assert_eq!(exec(&mut cpu, Opcode::Div, Operand::Mem(m), r2), Ok(Status::Running));
    assert_eq!(cpu.read_reg(Register::Accumulator), 16);

    assert_eq!(cpu.read_reg(Register::Reg1), 20);
    assert_eq!(cpu.read_reg(Register::Reg2), 6);
    assert_eq!(
        exec(&mut cpu, Opcode::Add, r1, Operand::Imm(1)),
        Err(Fault::InvalidOperand(Opcode::Add))
    );
    assert_eq!(
        exec(&mut cpu, Opcode::Div, r1, Operand::Null),
        Err(Fault::InvalidOperand(Opcode::Div))
    );
}

#[test]
fn addition_wraps_and_division_by_zero_faults() {
    let mut cpu = machine(&[]);
    let r1 = reg(Register::Reg1);
    cpu.write_reg(Register::Reg1, u64::MAX);
    cpu.write_reg(Register::Accumulator, 55);
    assert_eq!(exec(&mut cpu, Opcode::Add, Operand::Imm(2), r1), Ok(Status::Running));
    assert_eq!(cpu.read_reg(Register::Accumulator), 1);
    assert_eq!(exec(&mut cpu, Opcode::Div, Operand::Imm(0), r1), Err(Fault::DivideByZero));
    assert_eq!(cpu.read_reg(Register::Accumulator), 1);
    cpu.write_reg(Register::Reg2, 0);
    assert_eq!(exec(&mut cpu, Opcode::Div, r1, reg(Register::Reg2)), Err(Fault::DivideByZero));
}

#[test]
fn inc_and_dec_are_asymmetric() {
    let mut cpu = machine(&[]);
    let m = RAM_BASE + 8;
    cpu.write_reg(Register::Reg1, 41);
    assert_eq!(exec(&mut cpu, Opcode::Inc, reg(Register::Reg1), Operand::Null), Ok(Status::Running));
    assert_eq!(cpu.read_reg(Register::Accumulator), 42);
    assert_eq!(cpu.read_reg(Register::Reg1), 41);
    assert_eq!(exec(&mut cpu, Opcode::Dec, reg(Register::Reg1), Operand::Null), Ok(Status::Running));
    assert_eq!(cpu.read_reg(Register::Accumulator), 40);
    cpu.write_reg(Register::Accumulator, 0);
    assert_eq!(exec(&mut cpu, Opcode::Inc, Operand::Mem(m), Operand::Null), Ok(Status::Running));
    assert_eq!(exec(&mut cpu, Opcode::Inc, Operand::Mem(m), Operand::Null), Ok(Status::Running));
    assert_eq!(exec(&mut cpu, Opcode::Dec, Operand::Mem(m), Operand::Null), Ok(Status::Running));
    assert_eq!(cpu.read_reg(Register::Accumulator), 0);
    assert_eq!(exec(&mut cpu, Opcode::Mov, Operand::Mem(m), reg(Register::Reg2)), Ok(Status::Running));
    assert_eq!(cpu.read_reg(Register::Reg2), 1);
    cpu.write_reg(Register::Reg3, 0);
    assert_eq!(exec(&mut cpu, Opcode::Dec, reg(Register::Reg3), Operand::Null), Ok(Status::Running));
    assert_eq!(cpu.read_reg(Register::Accumulator), u64::MAX);
    assert_eq!(
        exec(&mut cpu, Opcode::Inc, Operand::Imm(1), Operand::Null),
        Err(Fault::InvalidOperand(Opcode::Inc))
    );
    assert_eq!(
        exec(&mut cpu, Opcode::Dec, Operand::Null, Operand::Null),
        Err(Fault::InvalidOperand(Opcode::Dec))
    );
}

#[test]
fn bitwise_opcodes() {
    let mut cpu = machine(&[]);
    let r1 = reg(Register::Reg1);
    let r2 = reg(Register::Reg2);
    cpu.write_reg(Register::Reg1, 0b1100);
    cpu.write_reg(Register::Reg2, 0b1010);
    assert_eq!(exec(&mut cpu, Opcode::And, r1, r2), Ok(Status::Running));
    assert_eq!(cpu.read_reg(Register::Accumulator), 0b1000);
    assert_eq!(exec(&mut cpu, Opcode::Or, r1, r2), Ok(Status::Running));
    assert_eq!(cpu.read_reg(Register::Accumulator), 0b1110);
    assert_eq!(exec(&mut cpu, Opcode::Xor, r1, r2), Ok(Status::Running));
    assert_eq!(cpu.read_reg(Register::Accumulator), 0b0110);
    assert_eq!(exec(&mut cpu, Opcode::And, r1, Operand::Imm(0b0100)), Ok(Status::Running));
    assert_eq!(cpu.read_reg(Register::Accumulator), 0b0100);
    assert_eq!(exec(&mut cpu, Opcode::Or, r1, Operand::Imm(1)), Ok(Status::Running));
    assert_eq!(cpu.read_reg(Register::Accumulator), 0b1101);
    assert_eq!(exec(&mut cpu, Opcode::Xor, r1, Operand::Imm(u64::MAX)), Ok(Status::Running));
    assert_eq!(cpu.read_reg(Register::Accumulator), !0b1100u64);
    assert_eq!(exec(&mut cpu, Opcode::Not, r1, Operand::Null), Ok(Status::Running));
    assert_eq!(cpu.read_reg(Register::Accumulator), !0b1100u64);
    let m = RAM_BASE + 8;
    assert_eq!(exec(&mut cpu, Opcode::Mov, Operand::Imm(0xF0), Operand::Mem(m)), Ok(Status::Running));
    assert_eq!(exec(&mut cpu, Opcode::Not, Operand::Mem(m), Operand::Null), Ok(Status::Running));
    assert_eq!(cpu.read_reg(Register::Accumulator), !0xF0u64);
    assert_eq!(exec(&mut cpu, Opcode::Shl, r1, Operand::Imm(4)), Ok(Status::Running));
    assert_eq!(cpu.read_reg(Register::Accumulator), 0b1100_0000);
    assert_eq!(exec(&mut cpu, Opcode::Shr, r1, Operand::Imm(2)), Ok(Status::Running));
    assert_eq!(cpu.read_reg(Register::Accumulator), 0b11);
    assert_eq!(exec(&mut cpu, Opcode::Shl, r1, Operand::Imm(64 + 1)), Ok(Status::Running));
    assert_eq!(cpu.read_reg(Register::Accumulator), 0b11000);
    cpu.write_reg(Register::Reg2, 63);
    assert_eq!(exec(&mut cpu, Opcode::Shl, r1, r2), Ok(Status::Running));
    assert_eq!(cpu.read_reg(Register::Accumulator), 0);
    assert_eq!(exec(&mut cpu, Opcode::Shr, r1, r2), Ok(Status::Running));
    assert_eq!(cpu.read_reg(Register::Accumulator), 0);
    assert_eq!(
        exec(&mut cpu, Opcode::And, Operand::Imm(1), r1),
        Err(Fault::InvalidOperand(Opcode::And))
    );
    assert_eq!(
        exec(&mut cpu, Opcode::Not, r1, r2),
        Err(Fault::InvalidOperand(Opcode::Not))
    );
    assert_eq!(
        exec(&mut cpu, Opcode::Shl, Operand::Mem(m), r1),
        Err(Fault::InvalidOperand(Opcode::Shl))
    );
}

#[test]
fn branches_compare_the_accumulator_with_the_target() {
    let table: Vec<(Opcode, u64, u64, bool)> = vec![
        (Opcode::Jmp, 0, 40, true),
        (Opcode::Jeq, 40, 40, true),
        (Opcode::Jeq, 41, 40, false),
        (Opcode::Jne, 41, 40, true),
        (Opcode::Jne, 40, 40, false),
        (Opcode::Jgt, 41, 40, true),
        (Opcode::Jgt, 40, 40, false),
        (Opcode::Jlt, 39, 40, true),
        (Opcode::Jlt, 40, 40, false),
        (Opcode::Jge, 40, 40, true),
        (Opcode::Jge, 39, 40, false),
        (Opcode::Jle, 40, 40, true),
        (Opcode::Jle, 41, 40, false),
        (Opcode::Jnz, 1, 40, true),
        (Opcode::Jnz, 0, 40, false),
        (Opcode::Jz, 0, 40, true),
        (Opcode::Jz, 1, 40, false),
    ];
    for (op, acc, target, jumps) in table {
        let expected = if jumps { target } else { 7 };
        let mut cpu = machine(&[]);
        cpu.write_reg(Register::Accumulator, acc);
        cpu.write_reg(Register::InstructionPointer, 7);
        assert_eq!(exec(&mut cpu, op, Operand::Imm(target), Operand::Null), Ok(Status::Running));
        assert_eq!(cpu.read_reg(Register::InstructionPointer), expected);
        cpu.write_reg(Register::InstructionPointer, 7);
        cpu.write_reg(Register::Reg5, target);
        assert_eq!(exec(&mut cpu, op, reg(Register::Reg5), Operand::Null), Ok(Status::Running));
        assert_eq!(cpu.read_reg(Register::InstructionPointer), expected);
        assert_eq!(
            exec(&mut cpu, op, Operand::Mem(target), Operand::Null),
            Err(Fault::InvalidOperand(op))
        );
    }
}

#[test]
fn push_writes_then_lowers_the_stack_pointer() {
    let mut cpu = machine(&[]);
    let sp = RAM_BASE + 0x800;
    cpu.write_reg(Register::FrameSize, 16);
    assert_eq!(exec(&mut cpu, Opcode::Psh, Operand::Imm(0xAA), Operand::Null), Ok(Status::Running));
    assert_eq!(cpu.read_reg(Register::StackPointer), sp - 8);
    assert_eq!(cpu.read_reg(Register::FrameSize), 24);
    cpu.write_reg(Register::Reg1, 0xBB);
    assert_eq!(exec(&mut cpu, Opcode::Psh, reg(Register::Reg1), Operand::Null), Ok(Status::Running));
    assert_eq!(cpu.read_reg(Register::StackPointer), sp - 16);
    assert_eq!(cpu.read_reg(Register::FrameSize), 32);
    assert_eq!(exec(&mut cpu, Opcode::Mov, Operand::Mem(sp), reg(Register::Reg2)), Ok(Status::Running));
    assert_eq!(cpu.read_reg(Register::Reg2), 0xAA);
    assert_eq!(exec(&mut cpu, Opcode::Mov, Operand::Mem(sp - 8), reg(Register::Reg2)), Ok(Status::Running));
    assert_eq!(cpu.read_reg(Register::Reg2), 0xBB);
    assert_eq!(
        exec(&mut cpu, Opcode::Psh, Operand::Imm(1), Operand::Imm(2)),
        Err(Fault::InvalidOperand(Opcode::Psh))
    );
    assert_eq!(
        exec(&mut cpu, Opcode::Psh, Operand::Null, Operand::Null),
        Err(Fault::InvalidOperand(Opcode::Psh))
    );
}

#[test]
fn push_then_pop_leaves_the_stack_pointer() {
    let mut cpu = machine(&[]);
    let sp = RAM_BASE + 0x800;
    cpu.write_reg(Register::Reg1, 0x1234);
    cpu.write_reg(Register::FrameSize, 40);
    assert_eq!(exec(&mut cpu, Opcode::Mov, Operand::Imm(0x1234), Operand::Mem(sp - 8)), Ok(Status::Running));
    assert_eq!(exec(&mut cpu, Opcode::Psh, reg(Register::Reg1), Operand::Null), Ok(Status::Running));
    assert_eq!(exec(&mut cpu, Opcode::Pop, reg(Register::Reg1), Operand::Null), Ok(Status::Running));
    assert_eq!(cpu.read_reg(Register::StackPointer), sp);
    assert_eq!(cpu.read_reg(Register::FrameSize), 40);
    assert_eq!(cpu.read_reg(Register::Reg1), 0x1234);
}

#[test]
fn pop_reads_the_word_at_the_stack_pointer() {
    let mut cpu = machine(&[]);
    let sp = RAM_BASE + 0x800;
    cpu.write_reg(Register::Reg1, 0x1234);
    cpu.write_reg(Register::FrameSize, 8);
    assert_eq!(exec(&mut cpu, Opcode::Psh, reg(Register::Reg1), Operand::Null), Ok(Status::Running));
    assert_eq!(exec(&mut cpu, Opcode::Pop, reg(Register::Reg2), Operand::Null), Ok(Status::Running));
    assert_eq!(cpu.read_reg(Register::Reg2), 0);
    assert_eq!(cpu.read_reg(Register::StackPointer), sp);
    assert_eq!(exec(&mut cpu, Opcode::Pop, reg(Register::Reg2), Operand::Null), Ok(Status::Running));
    assert_eq!(cpu.read_reg(Register::Reg2), 0x1234);
    assert_eq!(cpu.read_reg(Register::StackPointer), sp + 8);
    assert_eq!(cpu.read_reg(Register::FrameSize), 0);
    assert_eq!(exec(&mut cpu, Opcode::Pop, Operand::Null, Operand::Null), Ok(Status::Running));
    assert_eq!(cpu.read_reg(Register::StackPointer), sp + 16);
    assert_eq!(cpu.read_reg(Register::FrameSize), 0u64.wrapping_sub(8));
    assert_eq!(
        exec(&mut cpu, Opcode::Pop, Operand::Imm(1), Operand::Null),
        Err(Fault::InvalidOperand(Opcode::Pop))
    );
}

#[test]
fn push_at_the_top_of_ram_faults() {
    let mut cpu = machine(&[]);
    cpu.write_reg(Register::StackPointer, RAM_BASE + RAM_SIZE as u64);
    assert_eq!(
        exec(&mut cpu, Opcode::Psh, Operand::Imm(1), Operand::Null),
        Err(Fault::OutOfBounds)
    );
    assert_eq!(cpu.read_reg(Register::StackPointer), RAM_BASE + RAM_SIZE as u64);
    cpu.write_reg(Register::StackPointer, RAM_BASE + RAM_SIZE as u64 + 1);
    assert_eq!(
        exec(&mut cpu, Opcode::Psh, Operand::Imm(1), Operand::Null),
        Err(Fault::UnmappedWrite(RAM_BASE + RAM_SIZE as u64 + 1))
    );
}

#[test]
fn dup_swp_and_clr() {
    let mut cpu = machine(&[]);
    let sp = RAM_BASE + 0x800;
    assert_eq!(exec(&mut cpu, Opcode::Mov, Operand::Imm(11), Operand::Mem(sp)), Ok(Status::Running));
    assert_eq!(exec(&mut cpu, Opcode::Mov, Operand::Imm(22), Operand::Mem(sp + 8)), Ok(Status::Running));
    assert_eq!(exec(&mut cpu, Opcode::Swp, Operand::Null, Operand::Null), Ok(Status::Running));
    assert_eq!(cpu.read_reg(Register::StackPointer), sp);
    assert_eq!(exec(&mut cpu, Opcode::Mov, Operand::Mem(sp), reg(Register::Reg1)), Ok(Status::Running));
    assert_eq!(exec(&mut cpu, Opcode::Mov, Operand::Mem(sp + 8), reg(Register::Reg2)), Ok(Status::Running));
    assert_eq!(cpu.read_reg(Register::Reg1), 22);
    assert_eq!(cpu.read_reg(Register::Reg2), 11);
    assert_eq!(exec(&mut cpu, Opcode::Dup, Operand::Null, Operand::Null), Ok(Status::Running));
    assert_eq!(cpu.read_reg(Register::StackPointer), sp - 8);
    assert_eq!(exec(&mut cpu, Opcode::Mov, Operand::Mem(sp - 8), reg(Register::Reg3)), Ok(Status::Running));
    assert_eq!(cpu.read_reg(Register::Reg3), 22);
    assert_eq!(exec(&mut cpu, Opcode::Clr, Operand::Null, Operand::Null), Ok(Status::Running));
    assert_eq!(cpu.read_reg(Register::StackPointer), RAM_BASE + RAM_SIZE as u64);
    for op in [Opcode::Dup, Opcode::Swp, Opcode::Clr, Opcode::Ret] {
        assert_eq!(
            exec(&mut cpu, op, Operand::Imm(1), Operand::Null),
            Err(Fault::InvalidOperand(op))
        );
    }
}

#[test]
fn call_saves_the_state() {
    let mut cpu = machine(&[]);
    let sp = RAM_BASE + 0x800;
    cpu.write_reg(Register::InstructionPointer, 0x30);
    cpu.write_reg(Register::FrameSize, 24);
    for (i, r) in Register::all().into_iter().enumerate().skip(6) {
        cpu.write_reg(r, 1000 + i as u64);
    }
    assert_eq!(exec(&mut cpu, Opcode::Cal, Operand::Imm(0x200), Operand::Null), Ok(Status::Running));
    assert_eq!(cpu.read_reg(Register::InstructionPointer), 0x200);
    assert_eq!(cpu.read_reg(Register::StackPointer), sp - 80);
    assert_eq!(cpu.read_reg(Register::FramePointer), sp - 80);
    assert_eq!(cpu.read_reg(Register::FrameSize), 0);
    let expected = [0x30u64, 1006, 1007, 1008, 1009, 1010, 1011, 1012, 1013, 24 + 72];
    for (k, v) in expected.iter().enumerate() {
        assert_eq!(
            exec(&mut cpu, Opcode::Mov, Operand::Mem(sp - 8 * k as u64), reg(Register::Accumulator)),
            Ok(Status::Running)
        );
        assert_eq!(cpu.read_reg(Register::Accumulator), *v);
    }
    cpu.write_reg(Register::Reg1, 0x300);
    assert_eq!(exec(&mut cpu, Opcode::Cal, reg(Register::Reg1), Operand::Null), Ok(Status::Running));
    assert_eq!(cpu.read_reg(Register::InstructionPointer), 0x300);
    assert_eq!(
        exec(&mut cpu, Opcode::Cal, Operand::Mem(1), Operand::Null),
        Err(Fault::InvalidOperand(Opcode::Cal))
    );
}

#[test]
fn return_pops_the_state_and_the_arguments() {
    let mut cpu = machine(&[]);
    let sp = RAM_BASE + 0x400;
    cpu.write_reg(Register::StackPointer, sp);
    for k in 0..10u64 {
        assert_eq!(
            exec(&mut cpu, Opcode::Mov, Operand::Imm(500 + k), Operand::Mem(sp + 8 * k)),
            Ok(Status::Running)
        );
    }
    cpu.write_reg(Register::ArgCount, 2);
    cpu.write_reg(Register::FramePointer, 1);
    cpu.write_reg(Register::FrameSize, 3);
    assert_eq!(exec(&mut cpu, Opcode::Ret, Operand::Null, Operand::Null), Ok(Status::Running));
    assert_eq!(cpu.read_reg(Register::Reg8), 501);
    assert_eq!(cpu.read_reg(Register::Reg7), 502);
    assert_eq!(cpu.read_reg(Register::Reg1), 508);
    assert_eq!(cpu.read_reg(Register::InstructionPointer), 509);
    assert_eq!(cpu.read_reg(Register::StackPointer), sp + 80 + 16);
    let frame_size = 500u64.wrapping_sub(8).wrapping_sub(72).wrapping_sub(16);
    assert_eq!(cpu.read_reg(Register::FrameSize), frame_size);
    assert_eq!(cpu.read_reg(Register::FramePointer), frame_size + 1);
}

#[test]
fn call_then_return_restores_where_the_stack_reads_back() {
    let mut cpu = machine(&[]);
    let sp = RAM_BASE + 0x800;
    cpu.write_reg(Register::InstructionPointer, 88);
    for r in Register::all().into_iter().skip(6) {
        cpu.write_reg(r, 88);
    }
    cpu.write_reg(Register::FrameSize, 16);
    assert_eq!(exec(&mut cpu, Opcode::Cal, Operand::Imm(0x200), Operand::Null), Ok(Status::Running));
    assert_eq!(exec(&mut cpu, Opcode::Ret, Operand::Null, Operand::Null), Ok(Status::Running));
    assert_eq!(cpu.read_reg(Register::InstructionPointer), 88);
    assert_eq!(cpu.read_reg(Register::StackPointer), sp);
    for r in Register::all().into_iter().skip(6) {
        assert_eq!(cpu.read_reg(r), 88);
    }
}

#[test]
fn nop_and_hlt() {
    let mut cpu = machine(&[]);
    assert_eq!(exec(&mut cpu, Opcode::Nop, Operand::Imm(1), Operand::Imm(2)), Ok(Status::Running));
    assert_eq!(exec(&mut cpu, Opcode::Hlt, Operand::Null, Operand::Null), Ok(Status::Halted));
    for r in Register::all() {
        let expected = if r == Register::StackPointer { RAM_BASE + 0x800 } else { 0 };
        assert_eq!(cpu.read_reg(r), expected);
    }
}

fn counting_program() -> Vec<u8> {
    let r1 = Register::Reg1.slot();
    let r2 = Register::Reg2.slot();
    let r3 = Register::Reg3.slot();
    let mut p = Vec::new();
    for (value, r) in [(1u64, r1), (0, r2), (10, r3)] {
        p.push(Opcode::Mov.encode());
        p.push(AddrMode::ImmToReg.encode());
        p.extend_from_slice(&le(value));
        p.push(r);
    }
    let start = p.len() as u64;
    p.extend_from_slice(&[Opcode::Add.encode(), AddrMode::RegToReg.encode(), r1, r2]);
    p.extend_from_slice(&[Opcode::Mov.encode(), AddrMode::RegToReg.encode(), r2, r1]);
    p.push(Opcode::Sub.encode());
    p.push(AddrMode::ImmToReg.encode());
    p.extend_from_slice(&le(1));
    p.push(r3);
    p.push(Opcode::Jnz.encode());
    p.push(AddrMode::Literal.encode());
    p.extend_from_slice(&le(start));
    p.push(Opcode::Hlt.encode());
    p.push(AddrMode::Null.encode());
    p
}

#[test]
fn counting_loop_samples_the_accumulator() {
    let mut cpu = machine(&counting_program());
    assert_eq!(cpu.run(3), Ok(Status::Running));
    assert_eq!(cpu.read_reg(Register::Reg1), 1);
    assert_eq!(cpu.read_reg(Register::Reg2), 0);
    assert_eq!(cpu.read_reg(Register::Reg3), 10);
    let start = cpu.read_reg(Register::InstructionPointer);
    assert_eq!(start, 33);
    for iteration in 0..10 {
        assert_eq!(cpu.step(), Ok(Status::Running));
        let sum = if iteration == 0 { 1 } else { 0 };
        assert_eq!(cpu.read_reg(Register::Accumulator), sum);
        assert_eq!(cpu.step(), Ok(Status::Running));
        assert_eq!(cpu.read_reg(Register::Reg1), 0);
        assert_eq!(cpu.step(), Ok(Status::Running));
        assert_eq!(cpu.read_reg(Register::Accumulator), 9);
        assert_eq!(cpu.read_reg(Register::Reg3), 10);
        assert_eq!(cpu.step(), Ok(Status::Running));
        assert_eq!(cpu.read_reg(Register::InstructionPointer), start);
    }
    assert_eq!(cpu.run(1000), Ok(Status::Running));
    assert_eq!(cpu.read_reg(Register::InstructionPointer), start);
}

#[test]
fn counting_to_ten_halts_with_ten_in_the_accumulator() {
    let acc = Register::Accumulator.slot();
    let mut program = Vec::new();
    for _ in 0..5 {
        program.extend_from_slice(&[Opcode::Nop.encode(), AddrMode::Null.encode()]);
    }
    assert_eq!(program.len(), 10);
    program.extend_from_slice(&[Opcode::Inc.encode(), AddrMode::Register.encode(), acc]);
    program.push(Opcode::Jne.encode());
    program.push(AddrMode::Literal.encode());
    program.extend_from_slice(&le(10));
    program.extend_from_slice(&[Opcode::Hlt.encode(), AddrMode::Null.encode()]);
    let mut cpu = machine(&program);
    assert_eq!(cpu.run(5), Ok(Status::Running));
    for iteration in 1..=10u64 {
        assert_eq!(cpu.read_reg(Register::InstructionPointer), 10);
        assert_eq!(cpu.step(), Ok(Status::Running));
        assert_eq!(cpu.read_reg(Register::Accumulator), iteration);
        assert_eq!(cpu.step(), Ok(Status::Running));
    }
    assert_eq!(cpu.read_reg(Register::InstructionPointer), 23);
    assert_eq!(cpu.step(), Ok(Status::Halted));
    assert_eq!(cpu.read_reg(Register::Accumulator), 10);

    let mut cpu = machine(&program);
    assert_eq!(cpu.run(u64::MAX), Ok(Status::Halted));
    assert_eq!(cpu.read_reg(Register::Accumulator), 10);
    assert_eq!(cpu.read_reg(Register::InstructionPointer), 25);
}

#[test]
fn run_stops_at_halt_and_at_a_fault() {
    let mut program = vec![Opcode::Nop.encode(), AddrMode::Null.encode()];
    program.extend_from_slice(&[Opcode::Hlt.encode(), AddrMode::Null.encode()]);
    program.extend_from_slice(&[Opcode::Nop.encode(), AddrMode::Null.encode()]);
    let mut cpu = machine(&program);
    assert_eq!(cpu.run(0), Ok(Status::Running));
    assert_eq!(cpu.read_reg(Register::InstructionPointer), 0);
    assert_eq!(cpu.run(1), Ok(Status::Running));
    assert_eq!(cpu.read_reg(Register::InstructionPointer), 2);
    assert_eq!(cpu.run(u64::MAX), Ok(Status::Halted));
    assert_eq!(cpu.read_reg(Register::InstructionPointer), 4);

    let mut program = vec![Opcode::Str.encode(), AddrMode::ImmToMem.encode()];
    program.extend_from_slice(&le(1));
    program.extend_from_slice(&le(0xFFFF_FFFF));
    let mut cpu = machine(&program);
    assert_eq!(cpu.run(10), Err(Fault::UnmappedWrite(0xFFFF_FFFF)));
    assert_eq!(cpu.read_reg(Register::InstructionPointer), 18);
}

#[test]
fn program_prints_through_the_console() {
    let mut program = Vec::new();
    for ch in [b'H', b'i', 0xFF] {
        program.push(Opcode::Mov.encode());
        program.push(AddrMode::ImmToMem.encode());
        program.extend_from_slice(&le(ch as u64));
        program.extend_from_slice(&le(STDOUT_ADDR));
    }
    program.extend_from_slice(&[Opcode::Hlt.encode(), AddrMode::Null.encode()]);
    let mut cpu = machine(&program);
    cpu.attach(Peripheral::Stdout(Stdout::new()), String::from("stdout"), STDOUT_ADDR);
    assert_eq!(cpu.run(100), Ok(Status::Halted));
    let out = cpu.take_output();
    assert_eq!(out.len(), 24);
    assert_eq!(out[0], b'H');
    assert_eq!(out[8], b'i');
    assert_eq!(out[16], b'\n');
    for (i, b) in out.iter().enumerate() {
        if i % 8 != 0 {
            assert_eq!(*b, 0);
        }
    }
    assert_eq!(cpu.take_output(), Vec::<u8>::new());
}

#[test]
fn boot_rom_layout() {
    let rom = rom();
    assert_eq!(rom.size(), ROM_SIZE);
    assert_eq!(ROM_SIZE, 1024 * 1024);
    assert_eq!(MEM_SIZE, 1024 * 1024 * 1024 * 4);
    assert_eq!(Cpu::new(MEM_SIZE as usize).read_reg(Register::StackPointer), MEM_SIZE);
    let image = rom.dump(14 * 18 + 4);
    let text = b"Hello, World!\xFF";
    for (k, ch) in text.iter().enumerate() {
        let at = 18 * k;
        assert_eq!(image[at], 0x01);
        assert_eq!(image[at + 1], 0x20);
        assert_eq!(image[at + 2..at + 10], [0, 0, 0, 0, 0, 0, 0, *ch]);
        assert_eq!(image[at + 10..at + 18], [0, 0, 0, 0, 0xFF, 0xFF, 0, 0]);
    }
    assert_eq!(image[252..], [0xFE, 0xA0, 0, 0]);
    assert_eq!(rom.read(ROM_SIZE as u64 - 1), Ok(0));
    assert_eq!(rom.read(ROM_SIZE as u64), Err(Fault::OutOfBounds));
}

#[test]
fn image_words_are_most_significant_byte_first() {
    let mut program = vec![9u8];
    push_be(&mut program, 0x0102_0304_0506_0708);
    assert_eq!(program, vec![9, 1, 2, 3, 4, 5, 6, 7, 8]);
    let mut program = Vec::new();
    push_store(&mut program, 0x48, 0xFFFF_0000);
    assert_eq!(
        program,
        vec![0x01, 0x20, 0, 0, 0, 0, 0, 0, 0, 0x48, 0, 0, 0, 0, 0xFF, 0xFF, 0, 0]
    );
}

#[test]
fn boot_rom_operands_are_read_byte_swapped() {
    let mut cpu = Cpu::new(MEM_SIZE as usize);
    cpu.attach(Peripheral::Rom(rom()), String::from("rom"), 0);
    cpu.attach(Peripheral::Stdout(Stdout::new()), String::from("stdout"), 0xFFFF_0000);
    assert_eq!(
        cpu.fetch(),
        Ok(Instruction::new(
            Opcode::Mov,
            AddrMode::ImmToMem,
            (Operand::Imm(0x4800_0000_0000_0000), Operand::Mem(0x0000_FFFF_0000_0000))
        ))
    );
    assert_eq!(cpu.read_reg(Register::InstructionPointer), 18);
    cpu.write_reg(Register::InstructionPointer, 0);
    assert_eq!(cpu.run(100), Err(Fault::UnmappedWrite(0x0000_FFFF_0000_0000)));
    assert_eq!(cpu.take_output(), Vec::<u8>::new());
}
