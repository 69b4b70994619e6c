//! The capability interface for byte-addressable memory.

use vstd::prelude::*;

verus! {

/// A byte-addressable 64KB bus: reads and writes are total over the full
/// 16-bit address space.  Implementations expose their current contents as
/// a sequence of 65536 bytes, indexed by address.
pub trait ReadWritable {
    /// Well-formedness of the backing store.
    spec fn wf(&self) -> bool;

    /// The bytes the bus currently holds, indexed by address.
    spec fn contents(&self) -> Seq<u8>;

    /// A well-formed bus covers the full 16-bit address space.
    proof fn lemma_wf_len(&self)
        requires
            self.wf(),
        ensures
            self.contents().len() == 0x10000,
    ;

    /// The byte stored at `address`.
    fn read(&self, address: u16) -> (r: u8)
        requires
            self.wf(),
        ensures
            r == self.contents()[address as int],
    ;

    /// Store `byte` at `address`; always succeeds.
    fn write(&mut self, address: u16, byte: u8)
        requires
            old(self).wf(),
        ensures
            final(self).wf(),
            final(self).contents() == old(self).contents().update(address as int, byte),
    ;
}

} // verus!
