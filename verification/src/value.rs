use vstd::prelude::*;

verus! {

/// An operand value of one of the three widths the CPU handles.
#[derive(Clone, Copy, Debug, PartialEq, Eq, Structural)]
pub enum Value {
    U8(u8),
    U16(u16),
    U32(u32),
}

impl Value {
    /// The word held by a `U16` value.
    pub fn unwrap_u16(self) -> (r: u16)
        requires
            self is U16,
        ensures
            r == self->U16_0,
    {
        match self {
            Value::U16(v) => v,
            Value::U8(_) => 0,
            Value::U32(_) => 0,
        }
    }
}

} // verus!
