use vstd::prelude::*;
use crate::value::Value;

verus! {

/// A 16-bit register, named by its index in `Cpu::regs`.
pub type Register = usize;

pub const AX: usize = 0;
pub const BX: usize = 1;
pub const CX: usize = 2;
pub const DX: usize = 3;
pub const SI: usize = 4;
pub const DI: usize = 5;
pub const BP: usize = 6;
pub const SP: usize = 7;
pub const IP: usize = 8;
pub const CS: usize = 9;
pub const DS: usize = 10;
pub const ES: usize = 11;
pub const SS: usize = 12;
pub const FLAGS: usize = 13;

/// The number of registers the CPU holds.
pub const NUM_REGS: usize = 14;

/// The register file: AX BX CX DX SI DI BP SP IP CS DS ES SS FLAGS.
#[derive(Clone, Copy, Debug, PartialEq, Eq)]
pub struct Cpu {
    pub regs: [u16; 14],
}

impl Cpu {
    /// All registers zero.
    pub fn new() -> (r: Cpu)
        ensures
            forall|i: int| 0 <= i < NUM_REGS ==> r.regs@[i] == 0,
    {
        Cpu { regs: [0u16, 0, 0, 0, 0, 0, 0, 0, 0, 0, 0, 0, 0, 0] }
    }

    pub fn reg_read_u16(&self, reg: Register) -> (r: u16)
        requires
            reg < NUM_REGS,
        ensures
            r == self.regs@[reg as int],
    {
        self.regs[reg]
    }

    pub fn reg_write_u16(&mut self, reg: Register, val: u16)
        requires
            reg < NUM_REGS,
        ensures
            final(self).regs@ == old(self).regs@.update(reg as int, val),
    {
        self.regs[reg] = val;
    }

    /// The register's contents as a word value.
    pub fn reg_read(&self, reg: Register) -> (r: Value)
        requires
            reg < NUM_REGS,
        ensures
            r == Value::U16(self.regs@[reg as int]),
    {
        Value::U16(self.regs[reg])
    }

    /// Stores a word value into the register.
    pub fn reg_write(&mut self, reg: Register, val: Value)
        requires
            reg < NUM_REGS,
            val is U16,
        ensures
            final(self).regs@ == old(self).regs@.update(reg as int, val->U16_0),
    {
        let v = val.unwrap_u16();
        self.regs[reg] = v;
    }
}

impl Default for Cpu {
    /// All registers zero.
    fn default() -> (r: Self)
        ensures
            forall|i: int| 0 <= i < NUM_REGS ==> r.regs@[i] == 0,
    {
        Cpu::new()
    }
}

/// How an initial state is normalised before two backends' initial states
/// are compared: the general registers AX..BP zeroed when
/// `normalize_general_registers` holds, and the FLAGS bits under
/// `flags_mask` replaced by those of `flags_value`.
#[derive(Clone, Copy, Debug, PartialEq, Eq, Structural)]
pub struct InitialStatePolicy {
    pub normalize_general_registers: bool,
    pub flags_mask: u16,
    pub flags_value: u16,
}

/// The registers a policy zeroes: AX BX CX DX SI DI BP.
pub open spec fn general_register(i: int) -> bool {
    0 <= i <= BP as int
}

/// The register file after normalisation.
pub open spec fn normalized_regs(regs: Seq<u16>, policy: InitialStatePolicy) -> Seq<u16> {
    Seq::new(
        regs.len(),
        |i: int|
            if policy.normalize_general_registers && general_register(i) {
                0u16
            } else if i == FLAGS as int {
                (regs[i] & !policy.flags_mask) | (policy.flags_value & policy.flags_mask)
            } else {
                regs[i]
            },
    )
}

/// Normalises an initial state by `policy`.
pub fn normalize_initial_state(cpu: &mut Cpu, policy: InitialStatePolicy)
    ensures
        final(cpu).regs@ == normalized_regs(old(cpu).regs@, policy),
{
    let ghost regs0 = cpu.regs@;
    if policy.normalize_general_registers {
        let mut i: usize = 0;
        while i <= BP
            invariant
                i <= BP + 1,
                cpu.regs@.len() == NUM_REGS,
                forall|k: int| 0 <= k < i ==> cpu.regs@[k] == 0,
                forall|k: int| i <= k < NUM_REGS ==> cpu.regs@[k] == regs0[k],
            decreases BP + 1 - i,
        {
            cpu.regs[i] = 0;
            i = i + 1;
        }
    }
    let f = cpu.regs[FLAGS];
    cpu.regs[FLAGS] = (f & !policy.flags_mask) | (policy.flags_value & policy.flags_mask);
    assert(cpu.regs@ =~= normalized_regs(regs0, policy));
}

} // verus!
