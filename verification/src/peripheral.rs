//! The closed set of devices that can be mapped into the address space.

use crate::device::{Device, DeviceModel};
use crate::fault::Fault;
use crate::ram::Ram;
use crate::rom::Rom;
use crate::stdout::Stdout;
use vstd::prelude::*;

verus! {

/// Any one of the devices of the machine.
pub enum Peripheral {
    Ram(Ram),
    Rom(Rom),
    Stdout(Stdout),
}

impl Peripheral {
    /// Takes what a console has emitted since the last call; any other
    /// device gives nothing and stays as it is.
    pub fn take_output(&mut self) -> (out: Vec<u8>)
        ensures
            out@ == old(self).model().pending(),
            final(self).model() == old(self).model().drained(),
    {
        match self {
            Peripheral::Stdout(d) => d.take_output(),
            _ => Vec::new(),
        }
    }
}

impl Device for Peripheral {
    open spec fn model(&self) -> DeviceModel {
        match self {
            Peripheral::Ram(d) => d.model(),
            Peripheral::Rom(d) => d.model(),
            Peripheral::Stdout(d) => d.model(),
        }
    }

    fn read(&self, addr: u64) -> (r: Result<u8, Fault>) {
        match self {
            Peripheral::Ram(d) => d.read(addr),
            Peripheral::Rom(d) => d.read(addr),
            Peripheral::Stdout(d) => d.read(addr),
        }
    }

    fn write(&mut self, addr: u64, value: u8) -> (r: Result<(), Fault>) {
        match self {
            Peripheral::Ram(d) => d.write(addr, value),
            Peripheral::Rom(d) => d.write(addr, value),
            Peripheral::Stdout(d) => d.write(addr, value),
        }
    }

    fn size(&self) -> (n: usize) {
        match self {
            Peripheral::Ram(d) => d.size(),
            Peripheral::Rom(d) => d.size(),
            Peripheral::Stdout(d) => d.size(),
        }
    }
}

} // verus!
