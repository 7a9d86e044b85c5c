//! Random-access memory.

use crate::device::{Buffer, Device, DeviceModel};
use crate::fault::Fault;
use vstd::prelude::*;

verus! {

/// A readable and writable block of bytes.
pub struct Ram {
    buffer: Buffer,
}

impl Ram {
    /// The bytes held.
    pub closed spec fn contents(&self) -> Seq<u8> {
        self.buffer@
    }

    /// A memory of `size` zero bytes.
    pub fn new(size: usize) -> (r: Self)
        ensures
            r.contents() == Seq::new(size as nat, |i: int| 0u8),
    {
        Self { buffer: Buffer::new(size) }
    }
}

impl Device for Ram {
    open spec fn model(&self) -> DeviceModel {
        DeviceModel::Ram { data: self.contents() }
    }

    fn read(&self, addr: u64) -> (r: Result<u8, Fault>) {
        if addr < self.buffer.size() as u64 {
            self.buffer.read(addr as usize)
        } else {
            Err(Fault::OutOfBounds)
        }
    }

    fn write(&mut self, addr: u64, value: u8) -> (r: Result<(), Fault>) {
        if addr < self.buffer.size() as u64 {
            self.buffer.write(addr as usize, value)
        } else {
            Err(Fault::OutOfBounds)
        }
    }

    fn size(&self) -> (n: usize) {
        self.buffer.size()
    }
}

} // verus!
