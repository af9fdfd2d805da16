use vstd::prelude::*;
use crate::segoff::{SegOff, seg_value};

verus! {

/// Large enough to allow address ffff:ffff.
pub const MEM_SIZE: usize = 0x10fff0;

/// The emulated machine's memory, one byte per linear address.
pub struct Memory(pub Vec<u8>);

/// The linear address of byte `i` of a multi-byte access at `addr`: the
/// offset wraps at the 64 KiB segment boundary.
pub open spec fn byte_addr(addr: SegOff, i: int) -> int {
    seg_value(addr.seg) * 16 + (addr.off.0 + i) % 0x10000
}

/// The byte at `addr`.
pub open spec fn spec_read_u8(m: Seq<u8>, addr: SegOff) -> u8 {
    m[byte_addr(addr, 0)]
}

/// The little-endian word at `addr`.
pub open spec fn spec_read_u16(m: Seq<u8>, addr: SegOff) -> int {
    m[byte_addr(addr, 0)] + 0x100 * m[byte_addr(addr, 1)]
}

/// The little-endian double word at `addr`.
pub open spec fn spec_read_u32(m: Seq<u8>, addr: SegOff) -> int {
    m[byte_addr(addr, 0)] + 0x100 * m[byte_addr(addr, 1)] + 0x10000 * m[byte_addr(addr, 2)]
        + 0x1000000 * m[byte_addr(addr, 3)]
}

/// Memory after storing the byte `v` at `addr`.
pub open spec fn spec_write_u8(m: Seq<u8>, addr: SegOff, v: u8) -> Seq<u8> {
    m.update(byte_addr(addr, 0), v)
}

/// Memory after storing the word `v` little-endian at `addr`.
pub open spec fn spec_write_u16(m: Seq<u8>, addr: SegOff, v: u16) -> Seq<u8> {
    m.update(byte_addr(addr, 0), (v % 0x100) as u8).update(byte_addr(addr, 1), (v / 0x100) as u8)
}

/// Memory after storing the double word `v` little-endian at `addr`.
pub open spec fn spec_write_u32(m: Seq<u8>, addr: SegOff, v: u32) -> Seq<u8> {
    m.update(byte_addr(addr, 0), (v % 0x100) as u8).update(
        byte_addr(addr, 1),
        ((v / 0x100) % 0x100) as u8,
    ).update(byte_addr(addr, 2), ((v / 0x10000) % 0x100) as u8).update(
        byte_addr(addr, 3),
        (v / 0x1000000) as u8,
    )
}

/// Every byte a segment:offset address reaches, its offset wrapping within
/// the segment, lies in memory.
pub proof fn lemma_byte_addr_bounds(addr: SegOff, i: int)
    ensures
        0 <= byte_addr(addr, i) < MEM_SIZE,
{
}

proof fn lemma_mask16(x: usize)
    ensures
        x & 0xffff == x % 0x10000,
{
    assert(x & 0xffff == x % 0x10000) by (bit_vector);
}

proof fn lemma_join_u16(lo: u8, hi: u8)
    ensures
        ((lo as u16) | ((hi as u16) << 8u16)) == lo + 0x100 * hi,
{
    assert(((lo as u16) | ((hi as u16) << 8u16)) == lo + 0x100 * hi) by (bit_vector);
}

proof fn lemma_join_u32(b0: u8, b1: u8, b2: u8, b3: u8)
    ensures
        ((b0 as u32) | ((b1 as u32) << 8u32) | ((b2 as u32) << 16u32) | ((b3 as u32) << 24u32))
            == b0 + 0x100 * b1 + 0x10000 * b2 + 0x1000000 * b3,
{
    assert(((b0 as u32) | ((b1 as u32) << 8u32) | ((b2 as u32) << 16u32) | ((b3 as u32) << 24u32))
        == b0 + 0x100 * b1 + 0x10000 * b2 + 0x1000000 * b3) by (bit_vector);
}

impl Memory {
    /// Memory holds exactly `MEM_SIZE` bytes.
    pub open spec fn wf(&self) -> bool {
        self.0.len() == MEM_SIZE
    }

    /// Zero-filled memory.
    pub fn new() -> (r: Memory)
        ensures
            r.wf(),
            forall|i: int| 0 <= i < MEM_SIZE ==> r.0@[i] == 0,
    {
        let mut raw: Vec<u8> = Vec::new();
        while raw.len() < MEM_SIZE
            invariant
                raw.len() <= MEM_SIZE,
                forall|i: int| 0 <= i < raw.len() ==> raw@[i] == 0,
            decreases MEM_SIZE - raw.len(),
        {
            raw.push(0);
        }
        Memory(raw)
    }

    pub fn read_u8(&self, addr: SegOff) -> (r: u8)
        requires
            self.wf(),
        ensures
            r == spec_read_u8(self.0@, addr),
    {
        let a = addr.abs_normal();
        self.0[a]
    }

    /// Reads the little-endian word at `addr`; the second byte comes from
    /// `seg:(off + 1) mod 0x10000`.
    pub fn read_u16(&self, addr: SegOff) -> (r: u16)
        requires
            self.wf(),
        ensures
            r == spec_read_u16(self.0@, addr),
    {
        let base = addr.seg.unwrap_normal() as usize * 16;
        let off = addr.off.0 as usize;
        proof {
            lemma_mask16((off + 1) as usize);
        }
        let lo = self.0[base + off];
        let hi = self.0[base + ((off + 1) & 0xffff)];
        proof {
            lemma_join_u16(lo, hi);
        }
        (lo as u16) | ((hi as u16) << 8u16)
    }

    /// Reads the little-endian double word at `addr`, each byte's offset
    /// wrapping at the segment boundary.
    pub fn read_u32(&self, addr: SegOff) -> (r: u32)
        requires
            self.wf(),
        ensures
            r == spec_read_u32(self.0@, addr),
    {
        let base = addr.seg.unwrap_normal() as usize * 16;
        let off = addr.off.0 as usize;
        proof {
            lemma_mask16((off + 1) as usize);
            lemma_mask16((off + 2) as usize);
            lemma_mask16((off + 3) as usize);
        }
        let b0 = self.0[base + off];
        let b1 = self.0[base + ((off + 1) & 0xffff)];
        let b2 = self.0[base + ((off + 2) & 0xffff)];
        let b3 = self.0[base + ((off + 3) & 0xffff)];
        proof {
            lemma_join_u32(b0, b1, b2, b3);
        }
        (b0 as u32) | ((b1 as u32) << 8u32) | ((b2 as u32) << 16u32) | ((b3 as u32) << 24u32)
    }

    pub fn write_u8(&mut self, addr: SegOff, val: u8)
        requires
            old(self).wf(),
        ensures
            final(self).wf(),
            final(self).0@ == spec_write_u8(old(self).0@, addr, val),
    {
        let a = addr.abs_normal();
        self.0.set(a, val);
    }

    /// Stores `val` little-endian at `addr`, wrapping within the segment.
    pub fn write_u16(&mut self, addr: SegOff, val: u16)
        requires
            old(self).wf(),
        ensures
            final(self).wf(),
            final(self).0@ == spec_write_u16(old(self).0@, addr, val),
    {
        let base = addr.seg.unwrap_normal() as usize * 16;
        let off = addr.off.0 as usize;
        let lo = (val & 0xff) as u8;
        let hi = (val >> 8u16) as u8;
        proof {
            assert((val & 0xff) == val % 0x100 && (val >> 8u16) == val / 0x100) by (bit_vector);
            lemma_mask16((off + 1) as usize);
        }
        self.0.set(base + off, lo);
        self.0.set(base + ((off + 1) & 0xffff), hi);
    }

    /// Stores `val` little-endian at `addr`, wrapping within the segment.
    pub fn write_u32(&mut self, addr: SegOff, val: u32)
        requires
            old(self).wf(),
        ensures
            final(self).wf(),
            final(self).0@ == spec_write_u32(old(self).0@, addr, val),
    {
        let base = addr.seg.unwrap_normal() as usize * 16;
        let off = addr.off.0 as usize;
        let b0 = (val & 0xff) as u8;
        let b1 = ((val >> 8u32) & 0xff) as u8;
        let b2 = ((val >> 16u32) & 0xff) as u8;
        let b3 = (val >> 24u32) as u8;
        proof {
            assert((val & 0xff) == val % 0x100 && ((val >> 8u32) & 0xff) == (val / 0x100) % 0x100
                && ((val >> 16u32) & 0xff) == (val / 0x10000) % 0x100 && (val >> 24u32) == val
                / 0x1000000) by (bit_vector);
            lemma_mask16((off + 1) as usize);
            lemma_mask16((off + 2) as usize);
            lemma_mask16((off + 3) as usize);
        }
        self.0.set(base + off, b0);
        self.0.set(base + ((off + 1) & 0xffff), b1);
        self.0.set(base + ((off + 2) & 0xffff), b2);
        self.0.set(base + ((off + 3) & 0xffff), b3);
    }

    /// The bytes from `addr` to the end of memory.
    pub fn slice_starting_at(&self, addr: SegOff) -> (r: &[u8])
        requires
            self.wf(),
        ensures
            r@ == self.0@.subrange(addr.abs(), MEM_SIZE as int),
    {
        let a = addr.abs_normal();
        &self.0.as_slice()[a..self.0.len()]
    }

    /// The bytes from `addr` to the end of memory, to write through: what
    /// is written there is what memory holds from `addr` on afterwards.
    pub fn slice_mut_starting_at(&mut self, addr: SegOff) -> (r: &mut [u8])
        requires
            old(self).wf(),
        ensures
            r@ == old(self).0@.subrange(addr.abs(), MEM_SIZE as int),
            final(self).0@ == old(self).0@.subrange(0, addr.abs()) + final(r)@,
    {
        let a = addr.abs_normal();
        let s = self.0.as_mut_slice();
        let (_, tail) = s.split_at_mut(a);
        tail
    }
}

/// Reading a byte back after writing it at the same address gives the
/// byte written; a byte at another linear address is unaffected.
pub proof fn lemma_read_after_write_u8(m: Seq<u8>, addr: SegOff, other: SegOff, v: u8)
    requires
        m.len() == MEM_SIZE,
    ensures
        spec_read_u8(spec_write_u8(m, addr, v), addr) == v,
        other.abs() != addr.abs() ==> spec_read_u8(spec_write_u8(m, addr, v), other)
            == spec_read_u8(m, other),
{
}

/// Reading a word back after writing it at the same address gives the
/// word written.
pub proof fn lemma_read_after_write_u16(m: Seq<u8>, addr: SegOff, v: u16)
    requires
        m.len() == MEM_SIZE,
    ensures
        spec_read_u16(spec_write_u16(m, addr, v), addr) == v,
{
    assert(byte_addr(addr, 0) != byte_addr(addr, 1));
}

/// Reading a double word back after writing it at the same address gives
/// the double word written.
pub proof fn lemma_read_after_write_u32(m: Seq<u8>, addr: SegOff, v: u32)
    requires
        m.len() == MEM_SIZE,
    ensures
        spec_read_u32(spec_write_u32(m, addr, v), addr) == v,
{
    let w = spec_write_u32(m, addr, v);
    assert(w[byte_addr(addr, 0)] == v % 0x100);
    assert(w[byte_addr(addr, 1)] == (v / 0x100) % 0x100);
    assert(w[byte_addr(addr, 2)] == (v / 0x10000) % 0x100);
    assert(w[byte_addr(addr, 3)] == v / 0x1000000);
    assert((v % 0x100) + 0x100 * ((v / 0x100) % 0x100) + 0x10000 * ((v / 0x10000) % 0x100)
        + 0x1000000 * (v / 0x1000000) == v) by (nonlinear_arith);
}

/// A word write only touches the two bytes it stores.
pub proof fn lemma_write_u16_frame(m: Seq<u8>, addr: SegOff, v: u16, i: int)
    requires
        m.len() == MEM_SIZE,
        0 <= i < MEM_SIZE,
        i != byte_addr(addr, 0),
        i != byte_addr(addr, 1),
    ensures
        spec_write_u16(m, addr, v)[i] == m[i],
        spec_write_u16(m, addr, v).len() == MEM_SIZE,
{
}

} // verus!
