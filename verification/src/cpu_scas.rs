use vstd::prelude::*;
use crate::alu::{self, BinaryOp, binary_flags, raw16, width};
use crate::cpu::{CX, DI, FLAGS};
use crate::cpu_cmps::rep_stops;
use crate::flags::FLAG_ZF;
use crate::instr::{Instr, Opcode, Operand, Rep, operand_value};
use crate::machine::Machine;
use crate::string_ops::{StrState, advance, dest_size, string_count, string_inc, acc_string_operands_ok, acc_string_step_of};

verus! {

/// One SCAS element: set the flags of the accumulator minus the
/// destination (without storing the difference), then step DI.
pub open spec fn scan_step(s: StrState, ops: Seq<Operand>, inc: u16) -> StrState {
    let lhs = operand_value(s.0, s.1, ops[1]);
    let rhs = operand_value(s.0, s.1, ops[0]);
    let flags = binary_flags(BinaryOp::Sub, width(lhs), raw16(lhs), raw16(rhs), s.0[FLAGS as int]);
    (advance(s.0.update(FLAGS as int, flags), DI as int, inc), s.1)
}

/// Up to `n` SCAS elements, stopping early when the prefix's condition
/// says so; gives the final state and the count left.
pub open spec fn scan_run(s: StrState, ops: Seq<Operand>, inc: u16, rep: Option<Rep>, n: nat) -> (StrState, nat)
    decreases n,
{
    if n == 0 {
        (s, 0)
    } else {
        let s1 = scan_step(s, ops, inc);
        if rep_stops(rep, s1.0) {
            (s1, (n - 1) as nat)
        } else {
            scan_run(s1, ops, inc, rep, (n - 1) as nat)
        }
    }
}

/// The registers and memory a scan-string instruction leaves, from the
/// state it starts in.
pub open spec fn scan_string_done(regs0: Seq<u16>, mem0: Seq<u8>, instr: Instr, regs: Seq<u16>, mem: Seq<u8>) -> bool {
    let inc = string_inc(regs0[FLAGS as int], dest_size(instr.operands@));
    let n = string_count(instr, regs0);
    let (s, left) = scan_run((regs0, mem0), instr.operands@, inc, instr.rep, n as nat);
    &&& mem == s.1
    &&& regs == if instr.rep is Some {
        s.0.update(CX as int, left as u16)
    } else {
        s.0
    }
}

impl Machine {
    /// SCAS: compares the accumulator with destination elements, setting
    /// the flags of their difference and stepping DI. Under REPE/REPNE it
    /// repeats up to CX times, stopping after the first element that
    /// differs (REPE) or matches (REPNE), and leaves CX with the count left.
    pub fn opcode_scas(&mut self, instr: &Instr) -> (r: Result<(), String>)
        requires
            old(self).wf(),
            instr.opcode == Opcode::OP_SCAS,
            acc_string_operands_ok(*instr),
        ensures
            r is Ok,
            final(self).wf(),
            scan_string_done(old(self).regs(), old(self).mem.0@, *instr, final(self).regs(), final(self).mem.0@),
            final(self).interrupt_vectors == old(self).interrupt_vectors,
            final(self).halted == old(self).halted,
            final(self).exec_count == old(self).exec_count,
            final(self).psp_segment == old(self).psp_segment,
    {
        let increment = acc_string_step_of(self, instr);
        let rep = instr.rep;
        let mut count: u16 = if rep.is_some() {
            self.reg_read_u16(CX)
        } else {
            1
        };
        let ghost ops = instr.operands@;
        let ghost goal = scan_run((self.regs(), self.mem.0@), ops, increment, rep, count as nat);
        loop
            invariant_except_break
                scan_run((self.regs(), self.mem.0@), ops, increment, rep, count as nat) == goal,
            invariant
                self.wf(),
                acc_string_operands_ok(*instr),
                ops == instr.operands@,
                rep == instr.rep,
                self.interrupt_vectors == old(self).interrupt_vectors,
                self.halted == old(self).halted,
                self.exec_count == old(self).exec_count,
                self.psp_segment == old(self).psp_segment,
            ensures
                goal == ((self.regs(), self.mem.0@), count as nat),
            decreases count,
        {
            if count == 0 {
                break;
            }
            let lhs = self.operand_read(instr, 1);
            let rhs = self.operand_read(instr, 0);
            let (_, flags) = alu::binary(BinaryOp::Sub, lhs, rhs, self.flag_read_all());
            self.flag_write_all(flags);
            let di = self.reg_read_u16(DI);
            self.reg_write_u16(DI, di.wrapping_add(increment));
            count = count - 1;
            match rep {
                Some(Rep::EQ) => {
                    if !self.flag_read(FLAG_ZF) {
                        break;
                    }
                },
                Some(Rep::NE) => {
                    if self.flag_read(FLAG_ZF) {
                        break;
                    }
                },
                None => {},
            }
        }
        if rep.is_some() {
            self.reg_write_u16(CX, count);
        }
        Ok(())
    }
}

} // verus!
