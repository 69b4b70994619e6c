//! The flat in-memory backend for the 64KB bus.

use vstd::prelude::*;

use crate::errors::EmuError;
use crate::readwritable::ReadWritable;

verus! {

/// Number of addressable bytes: the full 16-bit address space.
pub const MEM_SIZE: usize = 0x10000;

/// A flat array of 65536 bytes.  Addresses are always valid: a read
/// returns the stored byte (0 if never written) and a write always
/// succeeds.  No region is write-protected.
pub struct Memory {
    pub buffer: Vec<u8>,
}

impl Memory {
    /// Fresh memory, every byte zero.
    pub fn new() -> (r: Memory)
        ensures
            r.wf(),
            forall|i: int| 0 <= i < 0x10000 ==> r.contents()[i] == 0,
    {
        let mut buffer: Vec<u8> = Vec::new();
        let mut i: usize = 0;
        while i < MEM_SIZE
            invariant
                i <= 0x10000,
                buffer@.len() == i,
                forall|j: int| 0 <= j < i ==> buffer@[j] == 0,
            decreases 0x10000 - i,
        {
            buffer.push(0);
            i = i + 1;
        }
        Memory { buffer }
    }

    /// Memory initialized from an image: the image bytes from address 0,
    /// zeroes above.  Fails with `ImageTooLarge` exactly when the image
    /// exceeds the 64KB address space.
    pub fn new_from_bytes(bytes: &Vec<u8>) -> (r: Result<Memory, EmuError>)
        ensures
            bytes@.len() > 0x10000 ==> r == Err::<Memory, EmuError>(EmuError::ImageTooLarge),
            bytes@.len() <= 0x10000 ==> (match r {
                Ok(m) => {
                    &&& m.wf()
                    &&& forall|i: int| 0 <= i < bytes@.len() ==> m.contents()[i] == bytes@[i]
                    &&& forall|i: int| bytes@.len() <= i < 0x10000 ==> m.contents()[i] == 0
                },
                Err(_) => false,
            }),
    {
        if bytes.len() > MEM_SIZE {
            return Err(EmuError::ImageTooLarge);
        }
        let mut buffer: Vec<u8> = Vec::new();
        let mut i: usize = 0;
        while i < bytes.len()
            invariant
                i <= bytes@.len(),
                buffer@.len() == i,
                forall|j: int| 0 <= j < i ==> buffer@[j] == bytes@[j],
            decreases bytes@.len() - i,
        {
            buffer.push(bytes[i]);
            i = i + 1;
        }
        while i < MEM_SIZE
            invariant
                bytes@.len() <= i <= 0x10000,
                buffer@.len() == i,
                forall|j: int| 0 <= j < bytes@.len() ==> buffer@[j] == bytes@[j],
                forall|j: int| bytes@.len() <= j < i ==> buffer@[j] == 0,
            decreases 0x10000 - i,
        {
            buffer.push(0);
            i = i + 1;
        }
        Ok(Memory { buffer })
    }
}

impl ReadWritable for Memory {
    open spec fn wf(&self) -> bool {
        self.buffer@.len() == 0x10000
    }

    open spec fn contents(&self) -> Seq<u8> {
        self.buffer@
    }

    proof fn lemma_wf_len(&self) {
    }

    fn read(&self, address: u16) -> (r: u8) {
        self.buffer[address as usize]
    }

    fn write(&mut self, address: u16, byte: u8) {
        self.buffer.set(address as usize, byte);
    }
}

} // verus!
