//! The device capability: byte-granular access, from which the 64-bit
//! little-endian composite access is built.

use crate::fault::Fault;
use vstd::prelude::*;

verus! {

/// Size of the console's address window.
pub const STDOUT_SIZE: usize = 0x1000;

/// The byte that the console turns into a line feed.
pub const STDOUT_NEWLINE: u8 = 0xFF;

/// The code of the line feed character.
pub const LINE_FEED: u8 = 0x0A;

/// Byte `i` of a 64-bit word, counted from the least significant one.
pub open spec fn byte_of(value: u64, i: nat) -> u8 {
    (value >> ((8 * i) as u64)) as u8
}

/// A byte moved to position `i` of a 64-bit word.
pub open spec fn byte_at(byte: u8, i: nat) -> u64 {
    (byte as u64) << ((8 * i) as u64)
}

/// The first `n` bytes of `bytes` from `at` on, combined least significant
/// first.
pub open spec fn word_prefix(bytes: Seq<u8>, at: int, n: nat) -> u64
    decreases n,
{
    if n == 0 {
        0u64
    } else {
        word_prefix(bytes, at, (n - 1) as nat) | byte_at(bytes[at + n - 1], (n - 1) as nat)
    }
}

/// The 64-bit word whose bytes, least significant first, are the eight
/// bytes of `bytes` that start at `at`.
pub open spec fn word_at(bytes: Seq<u8>, at: int) -> u64 {
    word_prefix(bytes, at, 8)
}

/// `bytes` with the eight bytes from `at` on replaced by those of `value`,
/// least significant first.
pub open spec fn with_word(bytes: Seq<u8>, at: int, value: u64) -> Seq<u8> {
    Seq::new(
        bytes.len(),
        |i: int|
            if at <= i < at + 8 {
                byte_of(value, (i - at) as nat)
            } else {
                bytes[i]
            },
    )
}

/// A 64-bit word is the little-endian combination of its own eight bytes.
pub proof fn lemma_word_of_own_bytes(v: u64)
    by (bit_vector)
    ensures
        0u64 | (((v >> 0u64) as u8) as u64) << 0u64 | (((v >> 8u64) as u8) as u64) << 8u64 | (((v
            >> 16u64) as u8) as u64) << 16u64 | (((v >> 24u64) as u8) as u64) << 24u64 | (((v
            >> 32u64) as u8) as u64) << 32u64 | (((v >> 40u64) as u8) as u64) << 40u64 | (((v
            >> 48u64) as u8) as u64) << 48u64 | (((v >> 56u64) as u8) as u64) << 56u64 == v,
{
}

/// Reading back a word that was laid into a byte sequence gives the word.
pub proof fn lemma_word_read_back(bytes: Seq<u8>, at: int, value: u64)
    requires
        0 <= at,
        at + 8 <= bytes.len(),
    ensures
        word_at(with_word(bytes, at, value), at) == value,
{
    reveal_with_fuel(word_prefix, 9);
    lemma_word_of_own_bytes(value);
}

/// Laying a word into a byte sequence leaves every word apart from it as it
/// was.
pub proof fn lemma_word_apart(bytes: Seq<u8>, at: int, value: u64, other: int)
    requires
        0 <= at,
        at + 8 <= bytes.len(),
        0 <= other,
        other + 8 <= bytes.len(),
        other + 8 <= at || at + 8 <= other,
    ensures
        word_at(with_word(bytes, at, value), other) == word_at(bytes, other),
{
    reveal_with_fuel(word_prefix, 9);
}

/// What the console emits for a written byte.
pub open spec fn console_char(value: u8) -> u8 {
    if value == STDOUT_NEWLINE {
        LINE_FEED
    } else {
        value
    }
}

/// The mathematical state of a device.
pub enum DeviceModel {
    /// Readable and writable storage.
    Ram { data: Seq<u8> },
    /// Storage that rejects writes unless it is writeable.
    Rom { data: Seq<u8>, writeable: bool },
    /// A write-only sink; `output` holds the character codes emitted so far
    /// and not yet taken.
    Console { output: Seq<u8> },
}

impl DeviceModel {
    /// The number of addresses of the device.
    pub open spec fn size(self) -> nat {
        match self {
            DeviceModel::Ram { data } => data.len(),
            DeviceModel::Rom { data, .. } => data.len(),
            DeviceModel::Console { .. } => STDOUT_SIZE as nat,
        }
    }

    /// The outcome of reading the byte at `addr`.
    pub open spec fn read(self, addr: u64) -> Result<u8, Fault> {
        match self {
            DeviceModel::Ram { data } => if addr < data.len() {
                Ok(data[addr as int])
            } else {
                Err(Fault::OutOfBounds)
            },
            DeviceModel::Rom { data, .. } => if addr < data.len() {
                Ok(data[addr as int])
            } else {
                Err(Fault::OutOfBounds)
            },
            DeviceModel::Console { .. } => Err(Fault::WriteOnlyRead),
        }
    }

    /// The device after writing `value` at `addr`, and the outcome of the
    /// write. A write that faults leaves the device as it was.
    pub open spec fn write(self, addr: u64, value: u8) -> (DeviceModel, Result<(), Fault>) {
        match self {
            DeviceModel::Ram { data } => if addr < data.len() {
                (DeviceModel::Ram { data: data.update(addr as int, value) }, Ok(()))
            } else {
                (self, Err(Fault::OutOfBounds))
            },
            DeviceModel::Rom { data, writeable } => if !writeable {
                (self, Err(Fault::ReadOnlyWrite))
            } else if addr < data.len() {
                (DeviceModel::Rom { data: data.update(addr as int, value), writeable }, Ok(()))
            } else {
                (self, Err(Fault::OutOfBounds))
            },
            DeviceModel::Console { output } => if addr < STDOUT_SIZE {
                (DeviceModel::Console { output: output.push(console_char(value)) }, Ok(()))
            } else {
                (self, Err(Fault::OutOfBounds))
            },
        }
    }

    /// What a console has emitted and not yet handed out; nothing for any
    /// other device.
    pub open spec fn pending(self) -> Seq<u8> {
        match self {
            DeviceModel::Console { output } => output,
            _ => Seq::empty(),
        }
    }

    /// The device once its pending output has been handed out.
    pub open spec fn drained(self) -> DeviceModel {
        match self {
            DeviceModel::Console { .. } => DeviceModel::Console { output: Seq::empty() },
            _ => self,
        }
    }

    /// The outcome of reading the byte `i` places after `addr`. An address
    /// beyond the 64-bit range is out of bounds.
    pub open spec fn read_nth(self, addr: u64, i: nat) -> Result<u8, Fault> {
        if addr + i > u64::MAX {
            Err(Fault::OutOfBounds)
        } else {
            self.read((addr + i) as u64)
        }
    }

    /// Reads the first `n` bytes from `addr` on, in rising order, and
    /// combines them least significant first. The first fault ends the read.
    pub open spec fn read_bytes(self, addr: u64, n: nat) -> Result<u64, Fault>
        decreases n,
    {
        if n == 0 {
            Ok(0u64)
        } else {
            match self.read_bytes(addr, (n - 1) as nat) {
                Err(e) => Err(e),
                Ok(acc) => match self.read_nth(addr, (n - 1) as nat) {
                    Err(e) => Err(e),
                    Ok(b) => Ok(acc | byte_at(b, (n - 1) as nat)),
                },
            }
        }
    }

    /// The 64-bit composite read: eight byte reads, little-endian.
    pub open spec fn read64(self, addr: u64) -> Result<u64, Fault> {
        self.read_bytes(addr, 8)
    }

    /// Writes byte `i` of `value` at the address `i` places after `addr`.
    pub open spec fn write_nth(self, addr: u64, value: u64, i: nat) -> (
        DeviceModel,
        Result<(), Fault>,
    ) {
        if addr + i > u64::MAX {
            (self, Err(Fault::OutOfBounds))
        } else {
            self.write((addr + i) as u64, byte_of(value, i))
        }
    }

    /// Writes the `n` low bytes of `value` from `addr` on, in rising order.
    /// The first fault ends the write; the bytes written before it stay.
    pub open spec fn write_bytes(self, addr: u64, value: u64, n: nat) -> (
        DeviceModel,
        Result<(), Fault>,
    )
        decreases n,
    {
        if n == 0 {
            (self, Ok(()))
        } else {
            let before = self.write_bytes(addr, value, (n - 1) as nat);
            if before.1 is Err {
                before
            } else {
                before.0.write_nth(addr, value, (n - 1) as nat)
            }
        }
    }

    /// The 64-bit composite write: eight byte writes, little-endian.
    pub open spec fn write64(self, addr: u64, value: u64) -> (DeviceModel, Result<(), Fault>) {
        self.write_bytes(addr, value, 8)
    }
}

/// A read that has faulted after `n` bytes has faulted after any more.
pub proof fn lemma_read_fault_stays(model: DeviceModel, addr: u64, n: nat, m: nat)
    requires
        n <= m,
        model.read_bytes(addr, n) is Err,
    ensures
        model.read_bytes(addr, m) == model.read_bytes(addr, n),
    decreases m,
{
    if n < m {
        lemma_read_fault_stays(model, addr, n, (m - 1) as nat);
    }
}

/// A write that has faulted after `n` bytes does nothing more.
pub proof fn lemma_write_fault_stays(model: DeviceModel, addr: u64, value: u64, n: nat, m: nat)
    requires
        n <= m,
        model.write_bytes(addr, value, n).1 is Err,
    ensures
        model.write_bytes(addr, value, m) == model.write_bytes(addr, value, n),
    decreases m,
{
    if n < m {
        lemma_write_fault_stays(model, addr, value, n, (m - 1) as nat);
    }
}

/// A memory-backed component of the address space.
pub trait Device {
    /// The mathematical state of the device.
    spec fn model(&self) -> DeviceModel;

    /// Reads the byte at `addr`.
    fn read(&self, addr: u64) -> (r: Result<u8, Fault>)
        ensures
            r == self.model().read(addr),
    ;

    /// Writes the byte `value` at `addr`.
    fn write(&mut self, addr: u64, value: u8) -> (r: Result<(), Fault>)
        ensures
            final(self).model() == old(self).model().write(addr, value).0,
            r == old(self).model().write(addr, value).1,
    ;

    /// The number of addresses of the device.
    fn size(&self) -> (n: usize)
        ensures
            n == self.model().size(),
    ;

    /// Reads eight bytes from `addr` on and combines them little-endian.
    fn read64(&self, addr: u64) -> (r: Result<u64, Fault>)
        ensures
            r == self.model().read64(addr),
    {
        let mut value: u64 = 0;
        let mut i: u64 = 0;
        while i < 8
            invariant
                i <= 8,
                self.model().read_bytes(addr, i as nat) == Ok::<u64, Fault>(value),
            decreases 8 - i,
        {
            let byte = match addr.checked_add(i) {
                Some(at) => self.read(at),
                None => Err(Fault::OutOfBounds),
            };
            match byte {
                Ok(b) => {
                    value = value | ((b as u64) << (8 * i));
                },
                Err(e) => {
                    proof {
                        assert(self.model().read_bytes(addr, (i + 1) as nat) == Err::<u64, Fault>(e));
                        lemma_read_fault_stays(self.model(), addr, (i + 1) as nat, 8);
                    }
                    return Err(e);
                },
            }
            i = i + 1;
        }
        Ok(value)
    }

    /// Writes the eight bytes of `value` from `addr` on, little-endian.
    fn write64(&mut self, addr: u64, value: u64) -> (r: Result<(), Fault>)
        ensures
            final(self).model() == old(self).model().write64(addr, value).0,
            r == old(self).model().write64(addr, value).1,
    {
        let mut i: u64 = 0;
        while i < 8
            invariant
                i <= 8,
                old(self).model().write_bytes(addr, value, i as nat) == (
                    self.model(),
                    Ok::<(), Fault>(()),
                ),
            decreases 8 - i,
        {
            let byte = #[verifier::truncate] ((value >> (8 * i)) as u8);
            let done = match addr.checked_add(i) {
                Some(at) => self.write(at, byte),
                None => Err(Fault::OutOfBounds),
            };
            match done {
                Ok(()) => {},
                Err(e) => {
                    proof {
                        assert(old(self).model().write_bytes(addr, value, (i + 1) as nat) == (
                            self.model(),
                            Err::<(), Fault>(e),
                        ));
                        lemma_write_fault_stays(old(self).model(), addr, value, (i + 1) as nat, 8);
                    }
                    return Err(e);
                },
            }
            i = i + 1;
        }
        Ok(())
    }
}

/// A fixed-size byte buffer.
pub struct Buffer {
    data: Vec<u8>,
}

impl View for Buffer {
    type V = Seq<u8>;

    closed spec fn view(&self) -> Seq<u8> {
        self.data@
    }
}

impl Buffer {
    /// A buffer of `size` zero bytes.
    pub fn new(size: usize) -> (r: Self)
        ensures
            r@ == Seq::new(size as nat, |i: int| 0u8),
    {
        let data = vec![0x00u8; size];
        assert(data@ =~= Seq::new(size as nat, |i: int| 0u8));
        Self { data }
    }

    /// Reads the byte at `offset`; an offset beyond the buffer is a fault.
    pub fn read(&self, offset: usize) -> (r: Result<u8, Fault>)
        ensures
            r == if offset < self@.len() {
                Ok::<u8, Fault>(self@[offset as int])
            } else {
                Err(Fault::OutOfBounds)
            },
    {
        if offset < self.data.len() {
            Ok(self.data[offset])
        } else {
            Err(Fault::OutOfBounds)
        }
    }

    /// Writes the byte at `offset`; an offset beyond the buffer is a fault
    /// and leaves the buffer as it was.
    pub fn write(&mut self, offset: usize, value: u8) -> (r: Result<(), Fault>)
        ensures
            r == if offset < old(self)@.len() {
                Ok::<(), Fault>(())
            } else {
                Err(Fault::OutOfBounds)
            },
            final(self)@ == if offset < old(self)@.len() {
                old(self)@.update(offset as int, value)
            } else {
                old(self)@
            },
    {
        if offset < self.data.len() {
            self.data[offset] = value;
            Ok(())
        } else {
            Err(Fault::OutOfBounds)
        }
    }

    /// The number of bytes in the buffer.
    pub fn size(&self) -> (n: usize)
        ensures
            n == self@.len(),
    {
        self.data.len()
    }
}

} // verus!
