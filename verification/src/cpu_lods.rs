use vstd::prelude::*;
use crate::cpu::{CX, FLAGS, SI};
use crate::instr::{Instr, Opcode, Operand, operand_value, operand_store};
use crate::machine::Machine;
use crate::string_ops::{StrState, advance, elem_size, string_count, string_inc, string_operands_ok, string_step_of};

verus! {

/// One LODS element: load the source into the destination, then step SI.
pub open spec fn lods_step(s: StrState, ops: Seq<Operand>, inc: u16) -> StrState {
    let v = operand_value(s.0, s.1, ops[1]);
    let (regs, mem) = operand_store(s.0, s.1, ops[0], v);
    (advance(regs, SI as int, inc), mem)
}

/// `n` LODS elements in a row.
pub open spec fn lods_from(s: StrState, ops: Seq<Operand>, inc: u16, n: nat) -> StrState
    decreases n,
{
    if n == 0 {
        s
    } else {
        lods_from(lods_step(s, ops, inc), ops, inc, (n - 1) as nat)
    }
}

impl Machine {
    /// LODS: loads CX elements under REP or REPNE (one otherwise) into the
    /// accumulator, stepping SI; LODS sets no flags, so both prefixes just
    /// repeat CX times and leave CX zero.
    pub fn opcode_lods(&mut self, instr: &Instr) -> (r: Result<(), String>)
        requires
            old(self).wf(),
            instr.opcode == Opcode::OP_LODS,
            string_operands_ok(*instr),
        ensures
            r is Ok,
            final(self).wf(),
            ({
                let inc = string_inc(old(self).regs()[FLAGS as int], elem_size(instr.operands@));
                let n = string_count(*instr, old(self).regs());
                let s = lods_from((old(self).regs(), old(self).mem.0@), instr.operands@, inc, n as nat);
                &&& final(self).mem.0@ == s.1
                &&& final(self).regs() == if instr.rep is Some {
                    s.0.update(CX as int, 0)
                } else {
                    s.0
                }
            }),
            final(self).interrupt_vectors == old(self).interrupt_vectors,
            final(self).halted == old(self).halted,
            final(self).exec_count == old(self).exec_count,
            final(self).psp_segment == old(self).psp_segment,
    {
        let (_size, inc) = string_step_of(self, instr);
        let rep = instr.rep;
        let mut count: u16 = if rep.is_some() {
            self.reg_read_u16(CX)
        } else {
            1
        };
        let ghost ops = instr.operands@;
        let ghost goal = lods_from((self.regs(), self.mem.0@), ops, inc, count as nat);
        while count != 0
            invariant
                self.wf(),
                string_operands_ok(*instr),
                ops == instr.operands@,
                lods_from((self.regs(), self.mem.0@), ops, inc, count as nat) == goal,
                self.interrupt_vectors == old(self).interrupt_vectors,
                self.halted == old(self).halted,
                self.exec_count == old(self).exec_count,
                self.psp_segment == old(self).psp_segment,
            decreases count,
        {
            let value = self.operand_read(instr, 1);
            self.operand_write(instr, 0, value);
            let si = self.reg_read_u16(SI);
            self.reg_write_u16(SI, si.wrapping_add(inc));
            count = count - 1;
        }
        if rep.is_some() {
            self.reg_write_u16(CX, count);
        }
        Ok(())
    }
}

} // verus!
