use vstd::prelude::*;

verus! {

/// A real-mode segment.
#[derive(Clone, Copy, Debug, PartialEq, Eq, Structural)]
pub enum Seg {
    Normal(u16),
}

/// A 16-bit offset within a segment.
#[derive(Clone, Copy, Debug, PartialEq, Eq, Structural)]
pub struct Off(pub u16);

/// A segment:offset address.
#[derive(Clone, Copy, Debug, PartialEq, Eq, Structural)]
pub struct SegOff {
    pub seg: Seg,
    pub off: Off,
}

/// The paragraph number of a segment.
pub open spec fn seg_value(s: Seg) -> u16 {
    match s {
        Seg::Normal(v) => v,
    }
}

/// The linear address of a segment:offset pair: `seg * 16 + off`.
pub open spec fn linear(seg: u16, off: u16) -> int {
    seg * 16 + off
}

impl SegOff {
    /// The linear address this pair designates.
    pub open spec fn abs(self) -> int {
        linear(seg_value(self.seg), self.off.0)
    }
}

impl Seg {
    /// The segment's paragraph number.
    pub fn unwrap_normal(self) -> (r: u16)
        ensures
            r == seg_value(self),
    {
        match self {
            Seg::Normal(v) => v,
        }
    }

    /// The linear address of the segment's first byte.
    pub fn abs_normal(self) -> (r: usize)
        ensures
            r == seg_value(self) * 16,
    {
        let v = self.unwrap_normal();
        v as usize * 16
    }
}

impl SegOff {
    pub fn new(seg: u16, off: u16) -> (r: SegOff)
        ensures
            r.seg == Seg::Normal(seg),
            r.off.0 == off,
    {
        SegOff { seg: Seg::Normal(seg), off: Off(off) }
    }

    /// The linear address this pair designates.
    pub fn abs_normal(&self) -> (r: usize)
        ensures
            r == self.abs(),
            r <= 0x10ffef,
    {
        let s = self.seg.unwrap_normal();
        s as usize * 16 + self.off.0 as usize
    }

    /// The same segment with `k` added to the offset, wrapping at 64 KiB.
    pub fn add_offset(&self, k: u16) -> (r: SegOff)
        ensures
            r.seg == self.seg,
            r.off.0 == (self.off.0 + k) % 0x10000,
    {
        SegOff { seg: self.seg, off: Off(self.off.0.wrapping_add(k)) }
    }
}

} // verus!
