//! The boot-reserved memory region.
//!
//! Every tag of the boot information chain lives somewhere inside one
//! contiguous region of memory that the bootloader reserved before handing
//! control to the kernel. The region is modelled explicitly: a start
//! address and the bytes stored from that address on. All reads and the
//! one sanctioned write (directing a secondary CPU) go through it, so no
//! operation of this crate can touch memory outside the reservation.

use vstd::prelude::*;

use crate::bytes::read_u16;
use crate::bytes::read_u32;
use crate::bytes::read_u64;
use crate::bytes::u16_at;
use crate::bytes::u32_at;
use crate::bytes::u64_at;
use crate::bytes::write_u64;

verus! {

/// `n` bytes starting at address `addr` lie inside the region that starts
/// at address `base` and holds the bytes `b`.
pub open spec fn range_ok(b: Seq<u8>, base: u64, addr: u64, n: int) -> bool {
    &&& base <= addr
    &&& addr - base + n <= b.len()
}

/// A contiguous span of boot-reserved memory: the bytes stored from
/// address `base` on.
pub struct BootRegion {
    base: u64,
    bytes: Vec<u8>,
}

impl BootRegion {
    /// The address the region starts at.
    pub closed spec fn spec_base(&self) -> u64 {
        self.base
    }

    /// The bytes of the region, index 0 being the byte at `spec_base()`.
    pub closed spec fn mem(&self) -> Seq<u8> {
        self.bytes@
    }

    /// The region does not wrap around the top of the address space.
    pub open spec fn wf(&self) -> bool {
        self.spec_base() + self.mem().len() <= u64::MAX
    }

    pub fn new(base: u64, bytes: Vec<u8>) -> (r: BootRegion)
        requires
            base + bytes@.len() <= u64::MAX,
        ensures
            r.wf(),
            r.spec_base() == base,
            r.mem() == bytes@,
    {
        BootRegion { base, bytes }
    }

    pub fn base(&self) -> (r: u64)
        ensures
            r == self.spec_base(),
    {
        self.base
    }

    pub fn len(&self) -> (r: usize)
        ensures
            r == self.mem().len(),
    {
        self.bytes.len()
    }

    /// Turns an address into an offset into the region, provided `n` bytes
    /// starting there lie inside it.
    pub fn try_offset(&self, addr: u64, n: u64) -> (r: Option<usize>)
        ensures
            match r {
                Some(off) => range_ok(self.mem(), self.spec_base(), addr, n as int) && off
                    == addr - self.spec_base(),
                None => !range_ok(self.mem(), self.spec_base(), addr, n as int),
            },
    {
        if addr < self.base {
            return None;
        }
        let off = addr - self.base;
        let len = self.bytes.len();
        if off > len as u64 {
            return None;
        }
        if n > len as u64 - off {
            return None;
        }
        Some(off as usize)
    }

    /// Reads the byte at address `addr`.
    pub fn read_u8_at(&self, addr: u64) -> (r: u8)
        requires
            range_ok(self.mem(), self.spec_base(), addr, 1),
        ensures
            r == self.mem()[addr - self.spec_base()],
    {
        proof {
            assert(self.bytes.len() == self.bytes@.len());
        }
        let off = (addr - self.base) as usize;
        self.bytes[off]
    }

    /// Reads the 16-bit little-endian value at address `addr`.
    pub fn read_u16_at(&self, addr: u64) -> (r: u16)
        requires
            range_ok(self.mem(), self.spec_base(), addr, 2),
        ensures
            r == u16_at(self.mem(), addr - self.spec_base()),
    {
        let off = (addr - self.base) as usize;
        read_u16(&self.bytes, off)
    }

    /// Reads the 32-bit little-endian value at address `addr`.
    pub fn read_u32_at(&self, addr: u64) -> (r: u32)
        requires
            range_ok(self.mem(), self.spec_base(), addr, 4),
        ensures
            r == u32_at(self.mem(), addr - self.spec_base()),
    {
        let off = (addr - self.base) as usize;
        read_u32(&self.bytes, off)
    }

    /// Reads the 64-bit little-endian value at address `addr`.
    pub fn read_u64_at(&self, addr: u64) -> (r: u64)
        requires
            range_ok(self.mem(), self.spec_base(), addr, 8),
        ensures
            r == u64_at(self.mem(), addr - self.spec_base()),
    {
        let off = (addr - self.base) as usize;
        read_u64(&self.bytes, off)
    }

    /// Writes the 64-bit little-endian value `v` at address `addr`,
    /// leaving every other byte of the region unchanged.
    pub fn write_u64_at(&mut self, addr: u64, v: u64)
        requires
            range_ok(old(self).mem(), old(self).spec_base(), addr, 8),
        ensures
            final(self).spec_base() == old(self).spec_base(),
            final(self).mem().len() == old(self).mem().len(),
            u64_at(final(self).mem(), addr - old(self).spec_base()) == v,
            forall|k: int|
                0 <= k < old(self).mem().len() && !(addr - old(self).spec_base() <= k < addr
                    - old(self).spec_base() + 8) ==> final(self).mem()[k] == old(self).mem()[k],
    {
        let off = (addr - self.base) as usize;
        write_u64(&mut self.bytes, off, v);
    }
}

} // verus!
