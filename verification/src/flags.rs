use vstd::prelude::*;

verus! {

/// A FLAGS bit, written as its mask within the register.
pub type Flag = u16;

pub const FLAG_CF: u16 = 0x0001;
pub const FLAG_PF: u16 = 0x0004;
pub const FLAG_AF: u16 = 0x0010;
pub const FLAG_ZF: u16 = 0x0040;
pub const FLAG_SF: u16 = 0x0080;
pub const FLAG_TF: u16 = 0x0100;
pub const FLAG_IF: u16 = 0x0200;
pub const FLAG_DF: u16 = 0x0400;
pub const FLAG_OF: u16 = 0x0800;

/// The FLAGS bits the emulator models (the reserved bit 1 included).
pub const FLAG_MASK: u16 = 0x0FD7;

/// The value of the FLAGS register.
#[derive(Clone, Copy, Debug, PartialEq, Eq, Structural)]
pub struct Flags(pub u16);

/// `f` with the bits of `mask` set when `b` holds and cleared otherwise.
pub open spec fn with_bit(f: u16, mask: u16, b: bool) -> u16 {
    if b {
        f | mask
    } else {
        f & !mask
    }
}

/// Whether any bit of `mask` is set in `f`.
pub open spec fn has_bit(f: u16, mask: u16) -> bool {
    f & mask != 0
}

impl Flags {
    /// Whether the flag `flag` is set.
    pub fn get(&self, flag: Flag) -> (r: bool)
        ensures
            r == has_bit(self.0, flag),
    {
        self.0 & flag != 0
    }

    /// Sets the flag `flag` to `val`, leaving the other bits alone.
    pub fn set(&mut self, flag: Flag, val: bool)
        ensures
            final(self).0 == with_bit(old(self).0, flag, val),
    {
        if val {
            self.0 = self.0 | flag;
        } else {
            self.0 = self.0 & !flag;
        }
    }
}

/// Setting one flag and reading it back gives the value written, and a
/// flag on other bits keeps its value.
pub proof fn lemma_flag_set_get(f: u16, flag: u16, other: u16, val: bool)
    requires
        flag == FLAG_CF || flag == FLAG_PF || flag == FLAG_AF || flag == FLAG_ZF || flag == FLAG_SF
            || flag == FLAG_TF || flag == FLAG_IF || flag == FLAG_DF || flag == FLAG_OF,
        flag & other == 0,
    ensures
        has_bit(with_bit(f, flag, val), flag) == val,
        has_bit(with_bit(f, flag, val), other) == has_bit(f, other),
{
    assert(has_bit(f | flag, flag) && has_bit(f | flag, other) == has_bit(f, other) && !has_bit(
        f & !flag,
        flag,
    ) && has_bit(f & !flag, other) == has_bit(f, other)) by (bit_vector)
        requires
            flag != 0u16,
            flag & other == 0,
    ;
}

} // verus!
