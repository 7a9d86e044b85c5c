//! Read-only memory, filled once by flashing.

use crate::device::{Buffer, Device, DeviceModel};
use crate::fault::Fault;
use vstd::prelude::*;

verus! {

/// A block of bytes that programs can read and cannot write.
pub struct Rom {
    buffer: Buffer,
    writeable: bool,
}

/// `image` laid over the start of `data`.
pub open spec fn flashed(data: Seq<u8>, image: Seq<u8>) -> Seq<u8> {
    Seq::new(
        data.len(),
        |i: int|
            if i < image.len() {
                image[i]
            } else {
                data[i]
            },
    )
}

impl Rom {
    /// A read-only memory of `size` zero bytes.
    pub fn new(size: usize) -> (r: Self)
        ensures
            r.contents() == Seq::new(size as nat, |i: int| 0u8),
            !r.is_writeable(),
    {
        Self { buffer: Buffer::new(size), writeable: false }
    }

    /// The bytes held.
    pub closed spec fn contents(&self) -> Seq<u8> {
        self.buffer@
    }

    /// Whether writes through the device capability are accepted.
    pub closed spec fn is_writeable(&self) -> bool {
        self.writeable
    }

    /// Copies `data` over the start of the memory. An image longer than the
    /// memory is a fault and leaves the memory as it was.
    pub fn flash(&mut self, data: &[u8]) -> (r: Result<(), Fault>)
        ensures
            r == if data@.len() <= old(self).contents().len() {
                Ok::<(), Fault>(())
            } else {
                Err(Fault::OutOfBounds)
            },
            final(self).contents() == if data@.len() <= old(self).contents().len() {
                flashed(old(self).contents(), data@)
            } else {
                old(self).contents()
            },
            final(self).is_writeable() == old(self).is_writeable(),
    {
        if data.len() > self.buffer.size() {
            return Err(Fault::OutOfBounds);
        }
        let mut i: usize = 0;
        while i < data.len()
            invariant
                i <= data@.len() <= self.buffer@.len(),
                self.writeable == old(self).writeable,
                self.buffer@.len() == old(self).buffer@.len(),
                forall|j: int| 0 <= j < i ==> self.buffer@[j] == data@[j],
                forall|j: int| i <= j < self.buffer@.len() ==> self.buffer@[j] == old(self).buffer@[j],
            decreases data@.len() - i,
        {
            let _ = self.buffer.write(i, data[i]);
            i = i + 1;
        }
        assert(self.buffer@ =~= flashed(old(self).buffer@, data@));
        Ok(())
    }

    /// The first `amount_bytes` bytes, or all of them if there are fewer.
    pub fn dump(&self, amount_bytes: usize) -> (r: Vec<u8>)
        ensures
            r@ == self.contents().take(
                if amount_bytes <= self.contents().len() {
                    amount_bytes as int
                } else {
                    self.contents().len() as int
                },
            ),
    {
        let len = self.buffer.size();
        let end = if amount_bytes <= len {
            amount_bytes
        } else {
            len
        };
        let mut out: Vec<u8> = Vec::new();
        let mut i: usize = 0;
        while i < end
            invariant
                i <= end <= self.buffer@.len(),
                out@ == self.buffer@.take(i as int),
            decreases end - i,
        {
            match self.buffer.read(i) {
                Ok(b) => {
                    out.push(b);
                },
                Err(_) => {},
            }
            assert(self.buffer@.take(i + 1) =~= self.buffer@.take(i as int).push(self.buffer@[i as int]));
            i = i + 1;
        }
        out
    }
}

impl Device for Rom {
    open spec fn model(&self) -> DeviceModel {
        DeviceModel::Rom { data: self.contents(), writeable: self.is_writeable() }
    }

    fn read(&self, addr: u64) -> (r: Result<u8, Fault>) {
        if addr < self.buffer.size() as u64 {
            self.buffer.read(addr as usize)
        } else {
            Err(Fault::OutOfBounds)
        }
    }

    fn write(&mut self, addr: u64, value: u8) -> (r: Result<(), Fault>) {
        if !self.writeable {
            Err(Fault::ReadOnlyWrite)
        } else if addr < self.buffer.size() as u64 {
            self.buffer.write(addr as usize, value)
        } else {
            Err(Fault::OutOfBounds)
        }
    }

    fn size(&self) -> (n: usize) {
        self.buffer.size()
    }
}

} // verus!
