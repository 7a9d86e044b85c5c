//! The console: a write-only sink.

use crate::device::{Device, DeviceModel, LINE_FEED, STDOUT_NEWLINE, STDOUT_SIZE};
use crate::fault::Fault;
use vstd::prelude::*;

verus! {

/// A write-only device. Every byte written is turned into a character code
/// and kept until the embedding program takes it to print it.
pub struct Stdout {
    pending: Vec<u8>,
}

impl Stdout {
    /// The character codes emitted and not yet taken.
    pub closed spec fn emitted(&self) -> Seq<u8> {
        self.pending@
    }

    /// A console that has emitted nothing.
    pub fn new() -> (r: Self)
        ensures
            r.emitted() == Seq::<u8>::empty(),
    {
        Self { pending: Vec::new() }
    }

    /// Hands out the character codes emitted since the last call, in the
    /// order in which they were written, and forgets them.
    pub fn take_output(&mut self) -> (out: Vec<u8>)
        ensures
            out@ == old(self).emitted(),
            final(self).emitted() == Seq::<u8>::empty(),
    {
        let mut out: Vec<u8> = Vec::new();
        out.append(&mut self.pending);
        assert(out@ =~= old(self).pending@);
        assert(self.pending@ =~= Seq::<u8>::empty());
        out
    }
}

impl Device for Stdout {
    open spec fn model(&self) -> DeviceModel {
        DeviceModel::Console { output: self.emitted() }
    }

    fn read(&self, _addr: u64) -> (r: Result<u8, Fault>) {
        Err(Fault::WriteOnlyRead)
    }

    fn write(&mut self, addr: u64, value: u8) -> (r: Result<(), Fault>) {
        if addr < STDOUT_SIZE as u64 {
            if value == STDOUT_NEWLINE {
                self.pending.push(LINE_FEED);
            } else {
                self.pending.push(value);
            }
            Ok(())
        } else {
            Err(Fault::OutOfBounds)
        }
    }

    fn size(&self) -> (n: usize) {
        STDOUT_SIZE
    }
}

} // verus!
