//! A byte-addressed register window.
//!
//! A [`RegisterWindow`] holds the contents of a contiguous range of a
//! peripheral's memory-mapped registers, starting at a base address. Reads and
//! writes take absolute addresses, as the hardware does.

use vstd::prelude::*;

verus! {

/// Contents of the bytes at addresses `base .. base + len`.
pub struct RegisterWindow {
    base: usize,
    bytes: Vec<u8>,
}

impl View for RegisterWindow {
    type V = Seq<u8>;

    /// The bytes of the window, the one at `base` first.
    closed spec fn view(&self) -> Seq<u8> {
        self.bytes@
    }
}

impl RegisterWindow {
    /// Address of the first byte of the window.
    pub closed spec fn spec_base(&self) -> usize {
        self.base
    }

    /// Every address of the window fits in a `usize`.
    pub open spec fn wf(&self) -> bool {
        self.spec_base() + self@.len() <= usize::MAX
    }

    /// Whether `addr` lies in the window.
    pub open spec fn covers(&self, addr: int) -> bool {
        self.spec_base() <= addr < self.spec_base() + self@.len()
    }

    /// The byte stored at `addr`.
    pub open spec fn byte_at(&self, addr: int) -> u8 {
        self@[addr - self.spec_base()]
    }

    /// `self` is `before` with the byte at `addr` replaced by `value`.
    pub open spec fn is_write_of(&self, before: &RegisterWindow, addr: int, value: u8) -> bool {
        &&& self.spec_base() == before.spec_base()
        &&& self@ == before@.update(addr - before.spec_base(), value)
    }

    /// A window of `len` zeroed bytes starting at `base`.
    pub fn new(base: usize, len: usize) -> (r: RegisterWindow)
        requires
            base + len <= usize::MAX,
        ensures
            r.wf(),
            r.spec_base() == base,
            r@ == Seq::new(len as nat, |i: int| 0u8),
    {
        let mut bytes: Vec<u8> = Vec::with_capacity(len);
        let mut i: usize = 0;
        while i < len
            invariant
                i <= len,
                bytes@ == Seq::new(i as nat, |j: int| 0u8),
            decreases len - i,
        {
            bytes.push(0);
            i = i + 1;
        }
        RegisterWindow { base, bytes }
    }

    /// Address of the first byte of the window.
    pub fn base(&self) -> (r: usize)
        ensures
            r == self.spec_base(),
    {
        self.base
    }

    /// Number of bytes in the window.
    pub fn len(&self) -> (r: usize)
        ensures
            r == self@.len(),
    {
        self.bytes.len()
    }

    /// Reads the byte at `addr`.
    pub fn read(&self, addr: usize) -> (r: u8)
        requires
            self.covers(addr as int),
        ensures
            r == self.byte_at(addr as int),
    {
        self.bytes[addr - self.base]
    }

    /// Writes `value` to the byte at `addr`, leaving every other byte as it was.
    pub fn write(&mut self, addr: usize, value: u8)
        requires
            old(self).covers(addr as int),
        ensures
            final(self).is_write_of(old(self), addr as int, value),
    {
        let i: usize = addr - self.base;
        self.bytes.set(i, value);
    }
}

} // verus!
