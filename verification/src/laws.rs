//! Laws that relate several operations of the machine.

use crate::device::{
    byte_of, lemma_word_read_back, with_word, word_at, word_prefix, DeviceModel,
};
use crate::device_mapper::{
    find_from, lemma_owner_is_first, lemma_owner_unchanged, mapped_read, mapped_read64, mapped_write,
    mapped_write64, offset_in, owner, with_device_at, RegionModel,
};
use crate::fault::Fault;
use crate::model::{reg_of, saved_register, CpuModel, SAVED_COUNT};
use crate::opcodes::Operand;
use crate::register::Register;
use vstd::prelude::*;
use vstd::wrapping::u64_specs;

verus! {

/// A register that was written reads back as the value written, and every
/// other register reads as before.
pub proof fn lemma_register_write_then_read(s: CpuModel, r: Register, value: u64, other: Register)
    requires
        s.wf(),
    ensures
        s.set_reg(r, value).wf(),
        s.set_reg(r, value).reg(r) == value,
        other != r ==> s.set_reg(r, value).reg(other) == s.reg(other),
        s.set_reg(r, value).mem == s.mem,
{
}

/// `data` with the first `n` bytes of `value` laid over it from `at` on.
pub open spec fn with_bytes(data: Seq<u8>, at: int, value: u64, n: nat) -> Seq<u8> {
    Seq::new(
        data.len(),
        |i: int|
            if at <= i < at + n {
                byte_of(value, (i - at) as nat)
            } else {
                data[i]
            },
    )
}

/// Writing the first `n` bytes of a word within a RAM succeeds and replaces
/// exactly those bytes.
pub proof fn lemma_ram_write_bytes(data: Seq<u8>, offset: u64, value: u64, n: nat)
    requires
        offset + 8 <= data.len() <= u64::MAX,
        n <= 8,
    ensures
        (DeviceModel::Ram { data }).write_bytes(offset, value, n) == (
            DeviceModel::Ram { data: with_bytes(data, offset as int, value, n) },
            Ok::<(), Fault>(()),
        ),
    decreases n,
{
    if n == 0 {
        assert(with_bytes(data, offset as int, value, 0) =~= data);
    } else {
        lemma_ram_write_bytes(data, offset, value, (n - 1) as nat);
        let before = with_bytes(data, offset as int, value, (n - 1) as nat);
        assert(before.update(offset + n - 1, byte_of(value, (n - 1) as nat)) =~= with_bytes(
            data,
            offset as int,
            value,
            n,
        ));
    }
}

/// A 64-bit write that lies within a RAM succeeds and replaces exactly the
/// eight bytes it covers.
pub proof fn lemma_ram_write64(data: Seq<u8>, offset: u64, value: u64)
    requires
        offset + 8 <= data.len() <= u64::MAX,
    ensures
        (DeviceModel::Ram { data }).write64(offset, value) == (
            DeviceModel::Ram { data: with_word(data, offset as int, value) },
            Ok::<(), Fault>(()),
        ),
{
    lemma_ram_write_bytes(data, offset, value, 8);
    assert(with_bytes(data, offset as int, value, 8) =~= with_word(data, offset as int, value));
}

/// Reading the first `n` bytes of a word within a RAM combines them least
/// significant first.
pub proof fn lemma_ram_read_bytes(data: Seq<u8>, offset: u64, n: nat)
    requires
        offset + 8 <= data.len() <= u64::MAX,
        n <= 8,
    ensures
        (DeviceModel::Ram { data }).read_bytes(offset, n) == Ok::<u64, Fault>(
            word_prefix(data, offset as int, n),
        ),
    decreases n,
{
    if n > 0 {
        lemma_ram_read_bytes(data, offset, (n - 1) as nat);
    }
}

/// A 64-bit read that lies within a RAM gives the little-endian word of the
/// eight bytes it covers.
pub proof fn lemma_ram_read64(data: Seq<u8>, offset: u64)
    requires
        offset + 8 <= data.len() <= u64::MAX,
    ensures
        (DeviceModel::Ram { data }).read64(offset) == Ok::<u64, Fault>(
            word_at(data, offset as int),
        ),
{
    lemma_ram_read_bytes(data, offset, 8);
}

/// Through the mapper, a 64-bit word written to a RAM reads back from the
/// same address as the word written. The address must be owned by a RAM
/// whose size fits in 64 bits, and the eight bytes from it on must lie
/// within that RAM.
pub proof fn lemma_mapped_word_round_trip(regions: Seq<RegionModel>, addr: u64, value: u64)
    requires
        owner(regions, addr) is Some,
        regions[owner(regions, addr)->0].device is Ram,
        offset_in(regions, owner(regions, addr)->0, addr) + 8 <= regions[owner(
            regions,
            addr,
        )->0].device.size() <= u64::MAX,
    ensures
        mapped_write64(regions, addr, value).1 == Ok::<(), Fault>(()),
        mapped_read64(mapped_write64(regions, addr, value).0, addr) == Ok::<u64, Fault>(value),
{
    let i = owner(regions, addr)->0;
    lemma_owner_is_first(regions, addr, 0);
    let data = regions[i].device->Ram_data;
    let offset = offset_in(regions, i, addr);
    lemma_ram_write64(data, offset, value);
    let written = DeviceModel::Ram { data: with_word(data, offset as int, value) };
    let after = mapped_write64(regions, addr, value).0;
    assert(after == with_device_at(regions, i, written));
    lemma_owner_unchanged(regions, i, written, addr, 0);
    lemma_ram_read64(with_word(data, offset as int, value), offset);
    lemma_word_read_back(data, offset as int, value);
}

/// The owner of an address from `from` on, one place further back.
pub open spec fn shifted(found: Option<int>) -> Option<int> {
    match found {
        Some(i) => Some(i + 1),
        None => None,
    }
}

/// Behind a region put in front, every search goes as before, one place
/// further back.
pub proof fn lemma_search_behind_front(
    front: RegionModel,
    regions: Seq<RegionModel>,
    addr: u64,
    from: int,
)
    requires
        0 <= from,
    ensures
        find_from(seq![front] + regions, addr, from + 1) == shifted(find_from(regions, addr, from)),
    decreases regions.len() - from,
{
    let all = seq![front] + regions;
    if from < regions.len() {
        assert(all[from + 1] == regions[from]);
        lemma_search_behind_front(front, regions, addr, from + 1);
    }
}

/// The region mapped last takes priority: it owns every address that it
/// answers for, whatever was mapped there before, and every other address
/// keeps its owner.
pub proof fn lemma_newest_region_wins(front: RegionModel, regions: Seq<RegionModel>, addr: u64)
    ensures
        owner(seq![front] + regions, addr) == if front.contains(addr) {
            Some(0int)
        } else {
            shifted(owner(regions, addr))
        },
{
    let all = seq![front] + regions;
    assert(all[0] == front);
    lemma_search_behind_front(front, regions, addr, 0);
}

/// At an address that no region answers for, every read gives zero and every
/// write faults and changes nothing; so does a `str` of an immediate there.
pub proof fn lemma_unmapped_access(s: CpuModel, addr: u64, byte: u8, value: u64)
    requires
        forall|i: int| 0 <= i < s.mem.len() ==> !(#[trigger] s.mem[i]).contains(addr),
    ensures
        mapped_read(s.mem, addr) == Ok::<u8, Fault>(0u8),
        mapped_read64(s.mem, addr) == Ok::<u64, Fault>(0u64),
        mapped_write(s.mem, addr, byte) == (s.mem, Err::<(), Fault>(Fault::UnmappedWrite(addr))),
        mapped_write64(s.mem, addr, value) == (
            s.mem,
            Err::<(), Fault>(Fault::UnmappedWrite(addr)),
        ),
        s.str((Operand::Imm(value), Operand::Mem(addr))) == s.fail(Fault::UnmappedWrite(addr)),
{
    lemma_owner_is_first(s.mem, addr, 0);
}

/// `psh` of a register followed at once by `pop` into the same register
/// leaves the stack pointer where it was, and every register but the popped
/// one and the frame size. The frame size comes back too unless it is the
/// popped register. The pop reads the word below the one that the push
/// wrote, so the popped register gets its old value back exactly when that
/// word holds it.
pub proof fn lemma_push_then_pop(s: CpuModel, index: u8, other: Register)
    requires
        s.wf(),
        s.psh((Operand::Reg(index), Operand::Null)).1 is Ok,
        s.psh((Operand::Reg(index), Operand::Null)).0.pop((Operand::Reg(index), Operand::Null)).1
            is Ok,
    ensures
        reg_of(index) is Ok,
        ({
            let r = reg_of(index)->Ok_0;
            let pushed = s.psh((Operand::Reg(index), Operand::Null)).0;
            let popped = pushed.pop((Operand::Reg(index), Operand::Null)).0;
            let below = u64_specs::wrapping_sub(s.reg(Register::StackPointer), 8);
            &&& popped.wf()
            &&& popped.mem == pushed.mem
            &&& popped.reg(Register::StackPointer) == s.reg(Register::StackPointer)
            &&& r != Register::FrameSize ==> popped.reg(Register::FrameSize) == s.reg(
                Register::FrameSize,
            )
            &&& other != r && other != Register::FrameSize ==> popped.reg(other) == s.reg(other)
            &&& r != Register::FrameSize && r != Register::StackPointer ==> pushed.load(below)
                == Ok::<u64, Fault>(popped.reg(r))
            &&& r != Register::FrameSize && pushed.load(below) == Ok::<u64, Fault>(s.reg(r))
                ==> popped.regs == s.regs
        }),
{
    let r = reg_of(index)->Ok_0;
    let pushed = s.psh((Operand::Reg(index), Operand::Null)).0;
    let popped = pushed.pop((Operand::Reg(index), Operand::Null)).0;
    if r != Register::FrameSize && pushed.load(
        u64_specs::wrapping_sub(s.reg(Register::StackPointer), 8),
    ) == Ok::<u64, Fault>(s.reg(r)) {
        assert(popped.regs =~= s.regs);
    }
}

/// Saving registers moves the stack pointer down and the frame size up by
/// eight for each register pushed, and changes no other register.
pub proof fn lemma_push_saved_registers(s: CpuModel, n: nat, other: Register)
    requires
        s.wf(),
        n <= SAVED_COUNT,
        s.push_saved(n).1 is Ok,
    ensures
        s.push_saved(n).0.wf(),
        s.push_saved(n).0.reg(Register::StackPointer) == u64_specs::wrapping_sub(
            s.reg(Register::StackPointer),
            (8 * n) as u64,
        ),
        s.push_saved(n).0.reg(Register::FrameSize) == u64_specs::wrapping_add(
            s.reg(Register::FrameSize),
            (8 * n) as u64,
        ),
        other != Register::StackPointer && other != Register::FrameSize ==> s.push_saved(
            n,
        ).0.reg(other) == s.reg(other),
    decreases n,
{
    if n > 0 {
        lemma_push_saved_registers(s, (n - 1) as nat, other);
    }
}

/// The address from which a return pops saved register `k`, when the call
/// was made with the stack pointer at `sp`.
pub open spec fn restore_address(sp: u64, k: nat) -> u64 {
    u64_specs::wrapping_sub(sp, (8 + 8 * k) as u64)
}

/// Restoring registers reads memory and leaves it as it is; it moves the
/// stack pointer up by eight for each register popped, and every register
/// popped so far, the frame size apart, holds the word that was read for it.
pub proof fn lemma_pop_saved_registers(t: CpuModel, n: nat, k: nat)
    requires
        t.wf(),
        n <= SAVED_COUNT,
        t.pop_saved(n).1 is Ok,
        SAVED_COUNT - n <= k <= 8,
    ensures
        t.pop_saved(n).0.wf(),
        t.pop_saved(n).0.mem == t.mem,
        t.pop_saved(n).0.reg(Register::StackPointer) == u64_specs::wrapping_add(
            t.reg(Register::StackPointer),
            (8 * n) as u64,
        ),
        t.load(u64_specs::wrapping_add(t.reg(Register::StackPointer), (8 * (9 - k)) as u64))
            == Ok::<u64, Fault>(t.pop_saved(n).0.reg(saved_register(k))),
    decreases n,
{
    if n > 0 {
        if SAVED_COUNT - (n - 1) <= k {
            lemma_pop_saved_registers(t, (n - 1) as nat, k);
        } else {
            lemma_pop_saved_stack(t, (n - 1) as nat);
        }
    }
}

/// Restoring registers leaves memory as it is and moves the stack pointer up
/// by eight for each register popped.
pub proof fn lemma_pop_saved_stack(t: CpuModel, n: nat)
    requires
        t.wf(),
        n <= SAVED_COUNT,
        t.pop_saved(n).1 is Ok,
    ensures
        t.pop_saved(n).0.wf(),
        t.pop_saved(n).0.mem == t.mem,
        t.pop_saved(n).0.reg(Register::StackPointer) == u64_specs::wrapping_add(
            t.reg(Register::StackPointer),
            (8 * n) as u64,
        ),
    decreases n,
{
    if n > 0 {
        lemma_pop_saved_stack(t, (n - 1) as nat);
    }
}

/// `cal` followed at once by `ret`: the return pops saved register `k` (the
/// instruction pointer for 0, general-purpose register `k` for 1 to 8) from
/// `restore_address(sp, k)`, where `sp` is the stack pointer before the call.
/// Where that word holds what the register held at the call, the register is
/// restored: the instruction pointer is back at the instruction after the
/// call, a general-purpose register at its old value.
pub proof fn lemma_call_then_return(s: CpuModel, operands: (Operand, Operand), k: nat)
    requires
        s.wf(),
        k <= 8,
        s.cal(operands).1 is Ok,
        s.cal(operands).0.ret((Operand::Null, Operand::Null)).1 is Ok,
    ensures
        ({
            let called = s.cal(operands).0;
            let returned = called.ret((Operand::Null, Operand::Null)).0;
            let at = restore_address(s.reg(Register::StackPointer), k);
            &&& called.load(at) == Ok::<u64, Fault>(returned.reg(saved_register(k)))
            &&& called.load(at) == Ok::<u64, Fault>(s.reg(saved_register(k)))
                ==> returned.reg(saved_register(k)) == s.reg(saved_register(k))
        }),
{
    let called = s.cal(operands).0;
    let pushed = s.push_saved(SAVED_COUNT as nat);
    assert(s.push_state().1 is Ok);
    assert(pushed.1 is Ok);
    lemma_push_saved_registers(s, SAVED_COUNT as nat, Register::StackPointer);
    assert(called.wf());
    assert(called.reg(Register::StackPointer) == u64_specs::wrapping_sub(
        s.reg(Register::StackPointer),
        80,
    ));
    let popped = called.pop_saved(SAVED_COUNT as nat);
    assert(called.pop_state().1 is Ok);
    assert(popped.1 is Ok);
    lemma_pop_saved_registers(called, SAVED_COUNT as nat, k);
    assert(u64_specs::wrapping_add(called.reg(Register::StackPointer), (8 * (9 - k)) as u64)
        == restore_address(s.reg(Register::StackPointer), k));
}

} // verus!
