//! A sized byte buffer with a selectable byte order for word access,
//! usable as a free-standing memory. Unlike the fixed 64 KiB `Bus`, a
//! `Memory` has any size fixed at construction, and its word accessors
//! honour the configured endianness: little-endian puts the low byte at
//! the lower address.

use vstd::prelude::*;
use crate::bus::word16;

verus! {

/// Byte order for word reads and writes.
#[derive(Copy, Clone, Debug, PartialEq, Eq, Structural)]
pub enum Endian {
    Big,
    Little,
}

/// A byte buffer of fixed size with a byte order. Its view is the
/// sequence of its bytes.
pub struct Memory {
    buf: Vec<u8>,
    endian: Endian,
}

impl View for Memory {
    type V = Seq<u8>;

    closed spec fn view(&self) -> Seq<u8> {
        self.buf@
    }
}

impl Memory {
    /// The byte order this memory was built with.
    pub closed spec fn spec_endian(&self) -> Endian {
        self.endian
    }

    /// A zeroed memory of `size` bytes with the given byte order.
    pub fn new(size: u32, endian: Endian) -> (r: Memory)
        ensures
            r@.len() == size,
            forall|i: int| 0 <= i < size ==> r@[i] == 0,
            r.spec_endian() == endian,
    {
        let mut buf: Vec<u8> = Vec::new();
        let n: usize = size as usize;
        let mut i: usize = 0;
        while i < n
            invariant
                i <= n,
                buf@.len() == i,
                forall|j: int| 0 <= j < i ==> buf@[j] == 0,
            decreases n - i,
        {
            buf.push(0);
            i = i + 1;
        }
        Memory { buf, endian }
    }

    /// A mutable borrow of the byte at `addr`.
    pub fn as_mut(&mut self, addr: usize) -> (r: &mut u8)
        requires
            addr < old(self)@.len(),
        ensures
            *r == old(self)@[addr as int],
            final(self)@ == old(self)@.update(addr as int, *final(r)),
            final(self).spec_endian() == old(self).spec_endian(),
    {
        &mut self.buf[addr]
    }

    /// The byte at `addr`.
    pub fn read_byte(&self, addr: usize) -> (r: u8)
        requires
            addr < self@.len(),
        ensures
            r == self@[addr as int],
    {
        self.buf[addr]
    }

    /// The word at `addr` in the configured byte order: little-endian
    /// reads the low byte at `addr`, big-endian the high byte.
    pub fn read_word(&self, addr: usize) -> (r: u16)
        requires
            addr + 1 < self@.len(),
        ensures
            self.spec_endian() is Little ==> r == word16(self@[addr as int], self@[addr + 1]),
            self.spec_endian() is Big ==> r == word16(self@[addr + 1], self@[addr as int]),
    {
        let n: usize = self.buf.len();
        let first = self.buf[addr];
        let second = self.buf[addr + 1];
        match self.endian {
            Endian::Little => second as u16 * 0x100 + first as u16,
            Endian::Big => first as u16 * 0x100 + second as u16,
        }
    }

    /// Stores `byte` at `addr`; no other byte changes.
    pub fn write_byte(&mut self, addr: usize, byte: u8)
        requires
            addr < old(self)@.len(),
        ensures
            final(self)@ == old(self)@.update(addr as int, byte),
            final(self).spec_endian() == old(self).spec_endian(),
    {
        self.buf[addr] = byte;
    }

    /// Copies `bytes` into the buffer starting at `addr`; everything
    /// outside the copied range is unchanged. The I/O that hands the
    /// bytes over is the caller's business.
    pub fn load(&mut self, bytes: &[u8], addr: usize)
        requires
            addr + bytes@.len() <= old(self)@.len(),
        ensures
            final(self).spec_endian() == old(self).spec_endian(),
            final(self)@.len() == old(self)@.len(),
            forall|i: int| 0 <= i < bytes@.len() ==> final(self)@[addr + i] == bytes@[i],
            forall|i: int|
                (0 <= i < addr || addr + bytes@.len() <= i < old(self)@.len()) ==> final(self)@[i]
                    == old(self)@[i],
    {
        let n: usize = bytes.len();
        let total: usize = self.buf.len();
        let mut i: usize = 0;
        while i < n
            invariant
                i <= n,
                n == bytes@.len(),
                total == self@.len(),
                addr + n <= total,
                self.spec_endian() == old(self).spec_endian(),
                self@.len() == old(self)@.len(),
                forall|j: int| 0 <= j < i ==> self@[addr + j] == bytes@[j],
                forall|j: int|
                    (0 <= j < addr || addr + n <= j < old(self)@.len()) ==> self@[j] == old(self)@[j],
            decreases n - i,
        {
            let b = *vstd::slice::slice_index_get(bytes, i);
            self.buf[addr + i] = b;
            i = i + 1;
        }
    }

    /// Stores `word` at `addr` in the configured byte order:
    /// little-endian puts the low byte at `addr`, big-endian the high
    /// byte.
    pub fn write_word(&mut self, addr: usize, word: u16)
        requires
            addr + 1 < old(self)@.len(),
        ensures
            final(self).spec_endian() == old(self).spec_endian(),
            final(self)@.len() == old(self)@.len(),
            old(self).spec_endian() is Little ==> final(self)@ == old(self)@.update(
                addr as int,
                (word % 0x100) as u8,
            ).update(addr + 1, (word / 0x100) as u8),
            old(self).spec_endian() is Big ==> final(self)@ == old(self)@.update(
                addr as int,
                (word / 0x100) as u8,
            ).update(addr + 1, (word % 0x100) as u8),
    {
        let n: usize = self.buf.len();
        match self.endian {
            Endian::Little => {
                self.buf[addr] = (word % 0x100) as u8;
                self.buf[addr + 1] = (word / 0x100) as u8;
            },
            Endian::Big => {
                self.buf[addr] = (word / 0x100) as u8;
                self.buf[addr + 1] = (word % 0x100) as u8;
            },
        }
    }
}

} // verus!
