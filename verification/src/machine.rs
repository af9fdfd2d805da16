use vstd::prelude::*;
use crate::cpu::{Cpu, Register, NUM_REGS, CS, IP, SP, SS, FLAGS};
use crate::flags::{Flags, Flag, has_bit, with_bit};
use crate::mem::{Memory, MEM_SIZE, spec_read_u16, spec_write_u16};
use crate::segoff::SegOff;
use crate::value::Value;

verus! {

/// The paragraph at which the program segment prefix is placed by default.
pub const DEFAULT_PSP_SEGMENT: u16 = 0x0813;

/// The emulated machine: memory, registers and the interrupt vector table.
pub struct Machine {
    pub halted: bool,
    pub mem: Memory,
    pub cpu: Cpu,
    pub interrupt_vectors: Vec<Option<SegOff>>,
    pub exec_count: u64,
    pub psp_segment: u16,
}

/// The segment:offset pair held in two registers.
pub open spec fn reg_addr(regs: Seq<u16>, seg: Register, off: Register) -> SegOff {
    SegOff { seg: crate::segoff::Seg::Normal(regs[seg as int]), off: crate::segoff::Off(regs[off as int]) }
}

impl Machine {
    /// Memory has its full size and there is one vector per interrupt.
    pub open spec fn wf(&self) -> bool {
        self.mem.wf() && self.interrupt_vectors.len() == 256
    }

    /// The register file as a sequence.
    pub open spec fn regs(&self) -> Seq<u16> {
        self.cpu.regs@
    }

    /// A machine whose program segment prefix sits at the default segment.
    /// `root_dir` names the directory that DOS file services resolve against;
    /// this machine offers none, so it is not consulted.
    pub fn new(root_dir: Option<&str>) -> (r: Machine)
        ensures
            r.wf(),
            r.psp_segment == DEFAULT_PSP_SEGMENT,
            !r.halted,
            r.exec_count == 0,
            forall|i: int| 0 <= i < NUM_REGS ==> r.regs()[i] == 0,
            forall|i: int| 0 <= i < MEM_SIZE ==> r.mem.0@[i] == 0,
            forall|i: int| 0 <= i < 256 ==> r.interrupt_vectors@[i] is None,
    {
        Self::new_with_psp_segment(root_dir, DEFAULT_PSP_SEGMENT)
    }

    /// A machine whose program segment prefix sits at `psp_segment`.
    pub fn new_with_psp_segment(root_dir: Option<&str>, psp_segment: u16) -> (r: Machine)
        ensures
            r.wf(),
            r.psp_segment == psp_segment,
            !r.halted,
            r.exec_count == 0,
            forall|i: int| 0 <= i < NUM_REGS ==> r.regs()[i] == 0,
            forall|i: int| 0 <= i < MEM_SIZE ==> r.mem.0@[i] == 0,
            forall|i: int| 0 <= i < 256 ==> r.interrupt_vectors@[i] is None,
    {
        let mem = Memory::new();
        let mut interrupt_vectors: Vec<Option<SegOff>> = Vec::new();
        while interrupt_vectors.len() < 256
            invariant
                interrupt_vectors.len() <= 256,
                forall|i: int| 0 <= i < interrupt_vectors.len() ==> interrupt_vectors@[i] is None,
            decreases 256 - interrupt_vectors.len(),
        {
            interrupt_vectors.push(None);
        }
        Machine {
            halted: false,
            mem,
            cpu: Cpu::new(),
            interrupt_vectors,
            exec_count: 0,
            psp_segment,
        }
    }

    pub fn halted(&self) -> (r: bool)
        ensures
            r == self.halted,
    {
        self.halted
    }

    pub fn reg_read_u16(&self, reg: Register) -> (r: u16)
        requires
            reg < NUM_REGS,
        ensures
            r == self.regs()[reg as int],
    {
        self.cpu.regs[reg]
    }

    pub fn reg_write_u16(&mut self, reg: Register, val: u16)
        requires
            reg < NUM_REGS,
        ensures
            final(self).regs() == old(self).regs().update(reg as int, val),
            final(self).mem == old(self).mem,
            final(self).interrupt_vectors == old(self).interrupt_vectors,
            final(self).halted == old(self).halted,
            final(self).exec_count == old(self).exec_count,
            final(self).psp_segment == old(self).psp_segment,
    {
        self.cpu.regs[reg] = val;
    }

    /// Writes a register; the same as `reg_write_u16`.
    pub fn reg_set(&mut self, reg: Register, val: u16)
        requires
            reg < NUM_REGS,
        ensures
            final(self).regs() == old(self).regs().update(reg as int, val),
            final(self).mem == old(self).mem,
            final(self).interrupt_vectors == old(self).interrupt_vectors,
            final(self).halted == old(self).halted,
            final(self).exec_count == old(self).exec_count,
            final(self).psp_segment == old(self).psp_segment,
    {
        self.reg_write_u16(reg, val);
    }

    pub fn reg(&self, reg: Register) -> (r: u16)
        requires
            reg < NUM_REGS,
        ensures
            r == self.regs()[reg as int],
    {
        self.cpu.regs[reg]
    }

    pub fn reg_read(&self, reg: Register) -> (r: Value)
        requires
            reg < NUM_REGS,
        ensures
            r == Value::U16(self.regs()[reg as int]),
    {
        Value::U16(self.cpu.regs[reg])
    }

    pub fn reg_write(&mut self, reg: Register, val: Value)
        requires
            reg < NUM_REGS,
            val is U16,
        ensures
            final(self).regs() == old(self).regs().update(reg as int, val->U16_0),
            final(self).mem == old(self).mem,
            final(self).interrupt_vectors == old(self).interrupt_vectors,
            final(self).halted == old(self).halted,
            final(self).exec_count == old(self).exec_count,
            final(self).psp_segment == old(self).psp_segment,
    {
        let v = val.unwrap_u16();
        self.cpu.regs[reg] = v;
    }

    /// The address held in a segment register and an offset register.
    pub fn reg_read_addr(&self, seg: Register, off: Register) -> (r: SegOff)
        requires
            seg < NUM_REGS,
            off < NUM_REGS,
        ensures
            r == reg_addr(self.regs(), seg, off),
    {
        SegOff::new(self.cpu.regs[seg], self.cpu.regs[off])
    }

    /// Stores an address into a segment register and an offset register.
    pub fn reg_write_addr(&mut self, seg: Register, off: Register, addr: SegOff)
        requires
            seg < NUM_REGS,
            off < NUM_REGS,
            seg != off,
        ensures
            final(self).regs() == old(self).regs().update(
                seg as int,
                crate::segoff::seg_value(addr.seg),
            ).update(off as int, addr.off.0),
            final(self).mem == old(self).mem,
            final(self).interrupt_vectors == old(self).interrupt_vectors,
            final(self).halted == old(self).halted,
            final(self).exec_count == old(self).exec_count,
            final(self).psp_segment == old(self).psp_segment,
    {
        self.cpu.regs[seg] = addr.seg.unwrap_normal();
        self.cpu.regs[off] = addr.off.0;
    }

    /// The address of the next instruction, CS:IP.
    pub fn instr_addr(&self) -> (r: SegOff)
        ensures
            r == reg_addr(self.regs(), CS, IP),
    {
        SegOff::new(self.cpu.regs[CS], self.cpu.regs[IP])
    }

    pub fn flag_read(&self, flag: Flag) -> (r: bool)
        ensures
            r == has_bit(self.regs()[FLAGS as int], flag),
    {
        self.cpu.regs[FLAGS] & flag != 0
    }

    pub fn flag_write(&mut self, flag: Flag, val: bool)
        ensures
            final(self).regs() == old(self).regs().update(
                FLAGS as int,
                with_bit(old(self).regs()[FLAGS as int], flag, val),
            ),
            final(self).mem == old(self).mem,
            final(self).interrupt_vectors == old(self).interrupt_vectors,
            final(self).halted == old(self).halted,
            final(self).exec_count == old(self).exec_count,
            final(self).psp_segment == old(self).psp_segment,
    {
        let f = self.cpu.regs[FLAGS];
        let nf = if val {
            f | flag
        } else {
            f & !flag
        };
        self.cpu.regs[FLAGS] = nf;
    }

    pub fn flag_read_all(&self) -> (r: Flags)
        ensures
            r.0 == self.regs()[FLAGS as int],
    {
        Flags(self.cpu.regs[FLAGS])
    }

    pub fn flag_write_all(&mut self, flags: Flags)
        ensures
            final(self).regs() == old(self).regs().update(FLAGS as int, flags.0),
            final(self).mem == old(self).mem,
            final(self).interrupt_vectors == old(self).interrupt_vectors,
            final(self).halted == old(self).halted,
            final(self).exec_count == old(self).exec_count,
            final(self).psp_segment == old(self).psp_segment,
    {
        self.cpu.regs[FLAGS] = flags.0;
    }

    /// Pushes a word value onto the stack.
    pub fn stack_push(&mut self, val: Value)
        requires
            old(self).wf(),
            val is U16,
        ensures
            final(self).wf(),
            final(self).regs() == old(self).regs().update(
                SP as int,
                push_sp(old(self).regs()[SP as int]),
            ),
            final(self).mem.0@ == spec_write_u16(
                old(self).mem.0@,
                reg_addr(final(self).regs(), SS, SP),
                val->U16_0,
            ),
            final(self).interrupt_vectors == old(self).interrupt_vectors,
            final(self).halted == old(self).halted,
            final(self).exec_count == old(self).exec_count,
            final(self).psp_segment == old(self).psp_segment,
    {
        self.stack_push_u16(val.unwrap_u16());
    }

    /// Pops a word value off the stack.
    pub fn stack_pop(&mut self) -> (r: Value)
        requires
            old(self).wf(),
        ensures
            final(self).wf(),
            r == Value::U16(spec_read_u16(old(self).mem.0@, reg_addr(old(self).regs(), SS, SP)) as u16),
            final(self).regs() == old(self).regs().update(
                SP as int,
                pop_sp(old(self).regs()[SP as int]),
            ),
            final(self).mem == old(self).mem,
            final(self).interrupt_vectors == old(self).interrupt_vectors,
            final(self).halted == old(self).halted,
            final(self).exec_count == old(self).exec_count,
            final(self).psp_segment == old(self).psp_segment,
    {
        Value::U16(self.stack_pop_u16())
    }

    /// Decrements SP by two (wrapping within the stack segment, as the
    /// 80C286 does) and stores `val` at the new SS:SP.
    pub fn stack_push_u16(&mut self, val: u16)
        requires
            old(self).wf(),
        ensures
            final(self).wf(),
            final(self).regs() == old(self).regs().update(
                SP as int,
                push_sp(old(self).regs()[SP as int]),
            ),
            final(self).mem.0@ == spec_write_u16(
                old(self).mem.0@,
                reg_addr(final(self).regs(), SS, SP),
                val,
            ),
            final(self).interrupt_vectors == old(self).interrupt_vectors,
            final(self).halted == old(self).halted,
            final(self).exec_count == old(self).exec_count,
            final(self).psp_segment == old(self).psp_segment,
    {
        let mut addr = self.reg_read_addr(SS, SP);
        addr.off.0 = addr.off.0.wrapping_sub(2);
        self.reg_write_u16(SP, addr.off.0);
        self.mem.write_u16(addr, val);
    }

    /// Reads the word at SS:SP and increments SP by two, wrapping.
    pub fn stack_pop_u16(&mut self) -> (r: u16)
        requires
            old(self).wf(),
        ensures
            final(self).wf(),
            r == spec_read_u16(old(self).mem.0@, reg_addr(old(self).regs(), SS, SP)),
            final(self).regs() == old(self).regs().update(
                SP as int,
                pop_sp(old(self).regs()[SP as int]),
            ),
            final(self).mem == old(self).mem,
            final(self).interrupt_vectors == old(self).interrupt_vectors,
            final(self).halted == old(self).halted,
            final(self).exec_count == old(self).exec_count,
            final(self).psp_segment == old(self).psp_segment,
    {
        let addr = self.reg_read_addr(SS, SP);
        let val = self.mem.read_u16(addr);
        self.reg_write_u16(SP, addr.off.0.wrapping_add(2));
        val
    }
}

/// SP after a push: two less, modulo 64 KiB.
pub open spec fn push_sp(sp: u16) -> u16 {
    ((sp + 0x10000 - 2) % 0x10000) as u16
}

/// SP after a pop: two more, modulo 64 KiB.
pub open spec fn pop_sp(sp: u16) -> u16 {
    ((sp + 2) % 0x10000) as u16
}

/// Popping right after a push gives back the word pushed and restores SP.
pub proof fn lemma_pop_after_push(regs: Seq<u16>, mem: Seq<u8>, val: u16)
    requires
        regs.len() == NUM_REGS,
        mem.len() == MEM_SIZE,
    ensures
        ({
            let pushed_regs = regs.update(SP as int, push_sp(regs[SP as int]));
            let pushed_mem = spec_write_u16(mem, reg_addr(pushed_regs, SS, SP), val);
            &&& spec_read_u16(pushed_mem, reg_addr(pushed_regs, SS, SP)) == val
            &&& pushed_regs.update(SP as int, pop_sp(pushed_regs[SP as int])) == regs
        }),
{
    let pushed_regs = regs.update(SP as int, push_sp(regs[SP as int]));
    crate::mem::lemma_read_after_write_u16(mem, reg_addr(pushed_regs, SS, SP), val);
    assert(pop_sp(push_sp(regs[SP as int])) == regs[SP as int]);
    assert(pushed_regs.update(SP as int, pop_sp(pushed_regs[SP as int])) =~= regs);
}

} // verus!
