//! The register file: program counter, stack pointer, three general
//! registers, and the processor status flags.

use vstd::prelude::*;

verus! {

/// Processor status flags, one boolean per architectural status bit.
///
/// The numeric encoding (used when flags are pushed to or pulled from the
/// stack) assigns CARRY bit 0x01, ZERO 0x02, INT_DISABLE 0x04, DEC_MODE
/// 0x08, BREAK 0x10, the unused bit 0x20, OVERFLOW 0x40 and NEG 0x80.
/// Every 8-bit pattern is representable; construction never fails.
#[derive(Debug, Clone, Copy, PartialEq, Eq, Structural)]
pub struct CpuFlags {
    pub carry: bool,
    pub zero: bool,
    pub int_disable: bool,
    pub dec_mode: bool,
    pub brk: bool,
    pub unused: bool,
    pub overflow: bool,
    pub neg: bool,
}

impl CpuFlags {
    /// The flag set with every bit clear.
    pub open spec fn empty_spec() -> CpuFlags {
        CpuFlags {
            carry: false,
            zero: false,
            int_disable: false,
            dec_mode: false,
            brk: false,
            unused: false,
            overflow: false,
            neg: false,
        }
    }

    /// Bitwise union of two flag sets.
    pub open spec fn union_spec(self, other: CpuFlags) -> CpuFlags {
        CpuFlags {
            carry: self.carry || other.carry,
            zero: self.zero || other.zero,
            int_disable: self.int_disable || other.int_disable,
            dec_mode: self.dec_mode || other.dec_mode,
            brk: self.brk || other.brk,
            unused: self.unused || other.unused,
            overflow: self.overflow || other.overflow,
            neg: self.neg || other.neg,
        }
    }

    /// Bitwise difference: the bits of `self` that are not in `other`.
    pub open spec fn difference_spec(self, other: CpuFlags) -> CpuFlags {
        CpuFlags {
            carry: self.carry && !other.carry,
            zero: self.zero && !other.zero,
            int_disable: self.int_disable && !other.int_disable,
            dec_mode: self.dec_mode && !other.dec_mode,
            brk: self.brk && !other.brk,
            unused: self.unused && !other.unused,
            overflow: self.overflow && !other.overflow,
            neg: self.neg && !other.neg,
        }
    }

    /// True when every bit of `other` is also set in `self`.
    pub open spec fn contains_spec(self, other: CpuFlags) -> bool {
        &&& (other.carry ==> self.carry)
        &&& (other.zero ==> self.zero)
        &&& (other.int_disable ==> self.int_disable)
        &&& (other.dec_mode ==> self.dec_mode)
        &&& (other.brk ==> self.brk)
        &&& (other.unused ==> self.unused)
        &&& (other.overflow ==> self.overflow)
        &&& (other.neg ==> self.neg)
    }

    /// The numeric byte encoding of the flag set.
    pub open spec fn bits_spec(self) -> u8 {
        ((if self.carry {
            1int
        } else {
            0int
        }) + (if self.zero {
            2int
        } else {
            0int
        }) + (if self.int_disable {
            4int
        } else {
            0int
        }) + (if self.dec_mode {
            8int
        } else {
            0int
        }) + (if self.brk {
            16int
        } else {
            0int
        }) + (if self.unused {
            32int
        } else {
            0int
        }) + (if self.overflow {
            64int
        } else {
            0int
        }) + (if self.neg {
            128int
        } else {
            0int
        })) as u8
    }

    /// The flag set encoded by a byte; total, every pattern is valid.
    pub open spec fn from_bits_spec(bits: u8) -> CpuFlags {
        CpuFlags {
            carry: bits % 2 == 1,
            zero: (bits / 2) % 2 == 1,
            int_disable: (bits / 4) % 2 == 1,
            dec_mode: (bits / 8) % 2 == 1,
            brk: (bits / 16) % 2 == 1,
            unused: (bits / 32) % 2 == 1,
            overflow: (bits / 64) % 2 == 1,
            neg: (bits / 128) % 2 == 1,
        }
    }

    /// All flags clear.
    pub fn none() -> (r: CpuFlags)
        ensures
            r == Self::empty_spec(),
    {
        CpuFlags {
            carry: false,
            zero: false,
            int_disable: false,
            dec_mode: false,
            brk: false,
            unused: false,
            overflow: false,
            neg: false,
        }
    }

    /// The flag set holding only CARRY.
    pub fn carry() -> (r: CpuFlags)
        ensures
            r == (CpuFlags { carry: true, ..Self::empty_spec() }),
    {
        let mut f = Self::none();
        f.carry = true;
        f
    }

    /// The flag set holding only ZERO.
    pub fn zero() -> (r: CpuFlags)
        ensures
            r == (CpuFlags { zero: true, ..Self::empty_spec() }),
    {
        let mut f = Self::none();
        f.zero = true;
        f
    }

    /// The flag set holding only INT_DISABLE.
    pub fn int_disable() -> (r: CpuFlags)
        ensures
            r == (CpuFlags { int_disable: true, ..Self::empty_spec() }),
    {
        let mut f = Self::none();
        f.int_disable = true;
        f
    }

    /// The flag set holding only DEC_MODE.
    pub fn dec_mode() -> (r: CpuFlags)
        ensures
            r == (CpuFlags { dec_mode: true, ..Self::empty_spec() }),
    {
        let mut f = Self::none();
        f.dec_mode = true;
        f
    }

    /// The flag set holding only BREAK.
    pub fn brk() -> (r: CpuFlags)
        ensures
            r == (CpuFlags { brk: true, ..Self::empty_spec() }),
    {
        let mut f = Self::none();
        f.brk = true;
        f
    }

    /// The flag set holding only OVERFLOW.
    pub fn overflow() -> (r: CpuFlags)
        ensures
            r == (CpuFlags { overflow: true, ..Self::empty_spec() }),
    {
        let mut f = Self::none();
        f.overflow = true;
        f
    }

    /// The flag set holding only NEG.
    pub fn neg() -> (r: CpuFlags)
        ensures
            r == (CpuFlags { neg: true, ..Self::empty_spec() }),
    {
        let mut f = Self::none();
        f.neg = true;
        f
    }

    /// Set every bit of `other` in `self`.
    pub fn insert(&mut self, other: CpuFlags)
        ensures
            *final(self) == old(self).union_spec(other),
    {
        self.carry = self.carry || other.carry;
        self.zero = self.zero || other.zero;
        self.int_disable = self.int_disable || other.int_disable;
        self.dec_mode = self.dec_mode || other.dec_mode;
        self.brk = self.brk || other.brk;
        self.unused = self.unused || other.unused;
        self.overflow = self.overflow || other.overflow;
        self.neg = self.neg || other.neg;
    }

    /// Clear every bit of `other` in `self`.
    pub fn remove(&mut self, other: CpuFlags)
        ensures
            *final(self) == old(self).difference_spec(other),
    {
        self.carry = self.carry && !other.carry;
        self.zero = self.zero && !other.zero;
        self.int_disable = self.int_disable && !other.int_disable;
        self.dec_mode = self.dec_mode && !other.dec_mode;
        self.brk = self.brk && !other.brk;
        self.unused = self.unused && !other.unused;
        self.overflow = self.overflow && !other.overflow;
        self.neg = self.neg && !other.neg;
    }

    /// True when every bit of `other` is set in `self`.
    pub fn contains(&self, other: CpuFlags) -> (r: bool)
        ensures
            r == self.contains_spec(other),
    {
        (!other.carry || self.carry) && (!other.zero || self.zero) && (!other.int_disable
            || self.int_disable) && (!other.dec_mode || self.dec_mode) && (!other.brk || self.brk)
            && (!other.unused || self.unused) && (!other.overflow || self.overflow) && (!other.neg
            || self.neg)
    }

    /// The numeric byte encoding of the flag set.
    pub fn bits(&self) -> (r: u8)
        ensures
            r == self.bits_spec(),
    {
        let mut b: u8 = 0;
        if self.carry {
            b = b + 1;
        }
        if self.zero {
            b = b + 2;
        }
        if self.int_disable {
            b = b + 4;
        }
        if self.dec_mode {
            b = b + 8;
        }
        if self.brk {
            b = b + 16;
        }
        if self.unused {
            b = b + 32;
        }
        if self.overflow {
            b = b + 64;
        }
        if self.neg {
            b = b + 128;
        }
        b
    }

    /// Decode a byte into a flag set.  Total: every 8-bit pattern is valid,
    /// including the unused 0x20 bit.
    pub fn from_bits(bits: u8) -> (r: CpuFlags)
        ensures
            r == Self::from_bits_spec(bits),
            r.bits_spec() == bits,
    {
        let r = CpuFlags {
            carry: bits % 2 == 1,
            zero: (bits / 2) % 2 == 1,
            int_disable: (bits / 4) % 2 == 1,
            dec_mode: (bits / 8) % 2 == 1,
            brk: (bits / 16) % 2 == 1,
            unused: (bits / 32) % 2 == 1,
            overflow: (bits / 64) % 2 == 1,
            neg: (bits / 128) % 2 == 1,
        };
        proof {
            assert((if bits % 2 == 1 {
                1int
            } else {
                0int
            }) + (if (bits / 2) % 2 == 1 {
                2int
            } else {
                0int
            }) + (if (bits / 4) % 2 == 1 {
                4int
            } else {
                0int
            }) + (if (bits / 8) % 2 == 1 {
                8int
            } else {
                0int
            }) + (if (bits / 16) % 2 == 1 {
                16int
            } else {
                0int
            }) + (if (bits / 32) % 2 == 1 {
                32int
            } else {
                0int
            }) + (if (bits / 64) % 2 == 1 {
                64int
            } else {
                0int
            }) + (if (bits / 128) % 2 == 1 {
                128int
            } else {
                0int
            }) == bits) by (bit_vector);
        }
        r
    }
}

/// The mutable CPU state: 16-bit program counter, 8-bit stack pointer,
/// three 8-bit general registers and the status flags.
#[derive(Debug, Clone, Copy, PartialEq, Eq, Structural)]
pub struct Regs {
    pub pc: u16,
    pub sp: u8,
    pub a: u8,
    pub x: u8,
    pub y: u8,
    pub flags: CpuFlags,
}

impl Regs {
    /// The reset register file: zeroed registers, the stack pointer at the
    /// top of the stack page, and all flags clear.
    pub fn new() -> (r: Regs)
        ensures
            r == (Regs { pc: 0, sp: 0xff, a: 0, x: 0, y: 0, flags: CpuFlags::empty_spec() }),
    {
        Regs { pc: 0, sp: 0xff, a: 0, x: 0, y: 0, flags: CpuFlags::none() }
    }
}

} // verus!
