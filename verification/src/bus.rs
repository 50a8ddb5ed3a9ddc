//! The memory bus: a flat 64 KiB byte-addressable store with byte and
//! little-endian word access. All address arithmetic wraps modulo 2^16.

use vstd::prelude::*;
use vstd::slice::slice_subrange;

verus! {

/// Number of addressable bytes on the bus.
pub const BUS_SIZE: usize = 0x10000;

/// `i` reduced modulo 2^8.
pub open spec fn w8(i: int) -> u8 {
    (i % 0x100) as u8
}

/// `i` reduced modulo 2^16.
pub open spec fn w16(i: int) -> u16 {
    (i % 0x10000) as u16
}

/// The 16-bit word with low byte `lo` and high byte `hi`.
pub open spec fn word16(lo: u8, hi: u8) -> u16 {
    (hi * 0x100 + lo) as u16
}

/// The low byte of `v`.
pub open spec fn lo_byte(v: u16) -> u8 {
    (v % 0x100) as u8
}

/// The high byte of `v`.
pub open spec fn hi_byte(v: u16) -> u8 {
    (v / 0x100) as u8
}

/// A flat 64 KiB memory. Its view is the sequence of its bytes.
pub struct Bus {
    mem: Vec<u8>,
}

impl View for Bus {
    type V = Seq<u8>;

    closed spec fn view(&self) -> Seq<u8> {
        self.mem@
    }
}

impl Bus {
    /// The bus holds exactly 2^16 bytes.
    pub open spec fn wf(&self) -> bool {
        self@.len() == BUS_SIZE
    }

    /// A bus of all zero bytes.
    pub fn new() -> (r: Bus)
        ensures
            r.wf(),
            forall|i: int| 0 <= i < BUS_SIZE ==> r@[i] == 0,
    {
        let mut mem: Vec<u8> = Vec::new();
        let mut i: usize = 0;
        while i < BUS_SIZE
            invariant
                i <= BUS_SIZE,
                mem@.len() == i,
                forall|j: int| 0 <= j < i ==> mem@[j] == 0,
            decreases BUS_SIZE - i,
        {
            mem.push(0);
            i = i + 1;
        }
        Bus { mem }
    }

    /// The byte stored at `addr`.
    pub fn read_byte(&self, addr: u16) -> (r: u8)
        requires
            self.wf(),
        ensures
            r == self@[addr as int],
    {
        self.mem[addr as usize]
    }

    /// Stores `val` at `addr`; no other byte changes.
    pub fn write_byte(&mut self, addr: u16, val: u8)
        requires
            old(self).wf(),
        ensures
            final(self).wf(),
            final(self)@ == old(self)@.update(addr as int, val),
    {
        self.mem[addr as usize] = val;
    }

    /// The little-endian word at `addr`: low byte at `addr`, high byte at
    /// `addr + 1` (wrapping modulo 2^16).
    pub fn read_word(&self, addr: u16) -> (r: u16)
        requires
            self.wf(),
        ensures
            r == word16(self@[addr as int], self@[w16(addr + 1) as int]),
    {
        let lo = self.read_byte(addr);
        let next: u16 = if addr == 0xffff {
            0
        } else {
            addr + 1
        };
        let hi = self.read_byte(next);
        hi as u16 * 0x100 + lo as u16
    }

    /// Stores `val` little-endian: low byte at `addr`, high byte at
    /// `addr + 1` (wrapping modulo 2^16).
    pub fn write_word(&mut self, addr: u16, val: u16)
        requires
            old(self).wf(),
        ensures
            final(self).wf(),
            final(self)@ == old(self)@.update(addr as int, lo_byte(val)).update(
                w16(addr + 1) as int,
                hi_byte(val),
            ),
    {
        self.write_byte(addr, (val % 0x100) as u8);
        let next: u16 = if addr == 0xffff {
            0
        } else {
            addr + 1
        };
        self.write_byte(next, (val / 0x100) as u8);
    }

    /// A mutable borrow of the byte at `addr`.
    pub fn as_mut(&mut self, addr: u16) -> (r: &mut u8)
        requires
            old(self).wf(),
        ensures
            *r == old(self)@[addr as int],
            final(self)@ == old(self)@.update(addr as int, *final(r)),
    {
        &mut self.mem[addr as usize]
    }

    /// The bytes from `start` to the end of the address space.
    pub fn as_slice(&self, start: u16) -> (r: &[u8])
        requires
            self.wf(),
        ensures
            r@ == self@.subrange(start as int, BUS_SIZE as int),
    {
        slice_subrange(self.mem.as_slice(), start as usize, BUS_SIZE)
    }
}

} // verus!
