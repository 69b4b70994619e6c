//! A bus front-end over a concrete memory backend.

use vstd::prelude::*;

use crate::mem::Memory;
pub use crate::readwritable::ReadWritable;

verus! {

/// A bus backed by flat memory.  Every address in 0x0000..=0xffff maps
/// straight to the backing store.
pub struct Bus {
    pub memory: Memory,
}

impl Bus {
    /// Wrap a memory backend in a bus.
    pub fn new(memory: Memory) -> (r: Bus)
        ensures
            r == (Bus { memory }),
    {
        Bus { memory }
    }
}

impl ReadWritable for Bus {
    open spec fn wf(&self) -> bool {
        self.memory.wf()
    }

    open spec fn contents(&self) -> Seq<u8> {
        self.memory.contents()
    }

    proof fn lemma_wf_len(&self) {
        self.memory.lemma_wf_len();
    }

    fn read(&self, address: u16) -> (r: u8) {
        self.memory.read(address)
    }

    fn write(&mut self, address: u16, byte: u8) {
        self.memory.write(address, byte)
    }
}

} // verus!
