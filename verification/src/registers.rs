//! The register file: a flat bank of bytes, one 64-bit slot per register.

use crate::device::{byte_of, with_word, word_at, word_prefix, Buffer};
use crate::fault::Fault;
use vstd::prelude::*;

verus! {

/// A byte buffer read and written in little-endian 64-bit words.
pub struct Registers {
    buffer: Buffer,
}

impl View for Registers {
    type V = Seq<u8>;

    closed spec fn view(&self) -> Seq<u8> {
        self.buffer@
    }
}

impl Registers {
    /// A register file of `size` zero bytes.
    pub fn new(size: usize) -> (r: Self)
        ensures
            r@ == Seq::new(size as nat, |i: int| 0u8),
    {
        Self { buffer: Buffer::new(size) }
    }

    /// Reads the word at byte address `addr`. A word that does not lie
    /// within the file is a fault.
    pub fn read(&self, addr: u64) -> (r: Result<u64, Fault>)
        ensures
            r == if addr + 8 <= self@.len() {
                Ok::<u64, Fault>(word_at(self@, addr as int))
            } else {
                Err(Fault::OutOfBounds)
            },
    {
        let size = self.buffer.size();
        if size < 8 || addr > (size - 8) as u64 {
            return Err(Fault::OutOfBounds);
        }
        let offset = addr as usize;
        let mut value: u64 = 0;
        let mut i: usize = 0;
        while i < 8
            invariant
                i <= 8,
                offset == addr,
                size == self.buffer@.len(),
                offset + 8 <= size,
                value == word_prefix(self.buffer@, addr as int, i as nat),
            decreases 8 - i,
        {
            match self.buffer.read(offset + i) {
                Ok(b) => {
                    value = value | ((b as u64) << (8 * i as u64));
                },
                Err(_) => {},
            }
            i = i + 1;
        }
        Ok(value)
    }

    /// Writes the word `value` at byte address `addr`. A word that does not
    /// lie within the file is a fault and leaves the file as it was.
    pub fn write(&mut self, addr: u64, value: u64) -> (r: Result<(), Fault>)
        ensures
            r == if addr + 8 <= old(self)@.len() {
                Ok::<(), Fault>(())
            } else {
                Err(Fault::OutOfBounds)
            },
            final(self)@ == if addr + 8 <= old(self)@.len() {
                with_word(old(self)@, addr as int, value)
            } else {
                old(self)@
            },
    {
        let size = self.buffer.size();
        if size < 8 || addr > (size - 8) as u64 {
            return Err(Fault::OutOfBounds);
        }
        let offset = addr as usize;
        let mut i: usize = 0;
        while i < 8
            invariant
                i <= 8,
                offset == addr,
                size == old(self).buffer@.len(),
                offset + 8 <= size,
                self.buffer@.len() == old(self).buffer@.len(),
                forall|j: int|
                    0 <= j < self.buffer@.len() ==> self.buffer@[j] == if offset <= j < offset + i {
                        byte_of(value, (j - offset) as nat)
                    } else {
                        old(self).buffer@[j]
                    },
            decreases 8 - i,
        {
            let byte = #[verifier::truncate] ((value >> (8 * i as u64)) as u8);
            let _ = self.buffer.write(offset + i, byte);
            i = i + 1;
        }
        assert(self.buffer@ =~= with_word(old(self).buffer@, addr as int, value));
        Ok(())
    }
}

} // verus!
