use vstd::prelude::*;
use crate::alu::{self, BinaryOp, binary_flags, raw16, width};
use crate::cpu::{CX, DI, FLAGS, SI};
use crate::flags::{has_bit, FLAG_ZF};
use crate::instr::{Instr, Opcode, Operand, Rep, operand_value};
use crate::machine::Machine;
use crate::string_ops::{StrState, advance, elem_size, string_count, string_inc, string_operands_ok, string_step_of};

verus! {

/// One CMPS element: set the flags of source minus destination (without
/// storing the difference), then step SI and DI.
pub open spec fn compare_step(s: StrState, ops: Seq<Operand>, inc: u16) -> StrState {
    let lhs = operand_value(s.0, s.1, ops[1]);
    let rhs = operand_value(s.0, s.1, ops[0]);
    let flags = binary_flags(BinaryOp::Sub, width(lhs), raw16(lhs), raw16(rhs), s.0[FLAGS as int]);
    (advance(advance(s.0.update(FLAGS as int, flags), SI as int, inc), DI as int, inc), s.1)
}

/// Whether a REP prefix ends the repetition after an element: REPE stops
/// on a difference (ZF clear), REPNE on a match (ZF set).
pub open spec fn rep_stops(rep: Option<Rep>, regs: Seq<u16>) -> bool {
    match rep {
        Some(Rep::EQ) => !has_bit(regs[FLAGS as int], FLAG_ZF),
        Some(Rep::NE) => has_bit(regs[FLAGS as int], FLAG_ZF),
        None => false,
    }
}

/// Up to `n` CMPS elements, stopping early when the prefix's condition
/// says so; gives the final state and the count left.
pub open spec fn compare_run(s: StrState, ops: Seq<Operand>, inc: u16, rep: Option<Rep>, n: nat) -> (
    StrState,
    nat,
)
    decreases n,
{
    if n == 0 {
        (s, 0)
    } else {
        let s1 = compare_step(s, ops, inc);
        if rep_stops(rep, s1.0) {
            (s1, (n - 1) as nat)
        } else {
            compare_run(s1, ops, inc, rep, (n - 1) as nat)
        }
    }
}

/// The registers and memory a compare-string instruction leaves, from the
/// state it starts in.
pub open spec fn compare_string_done(
    regs0: Seq<u16>,
    mem0: Seq<u8>,
    instr: Instr,
    regs: Seq<u16>,
    mem: Seq<u8>,
) -> bool {
    let inc = string_inc(regs0[FLAGS as int], elem_size(instr.operands@));
    let n = string_count(instr, regs0);
    let (s, left) = compare_run((regs0, mem0), instr.operands@, inc, instr.rep, n as nat);
    &&& mem == s.1
    &&& regs == if instr.rep is Some {
        s.0.update(CX as int, left as u16)
    } else {
        s.0
    }
}

/// What is left to do from a state with `count` elements to go.
pub open spec fn compare_rest(
    regs: Seq<u16>,
    mem: Seq<u8>,
    ops: Seq<Operand>,
    inc: u16,
    rep: Option<Rep>,
    count: u16,
) -> (StrState, nat) {
    compare_run((regs, mem), ops, inc, rep, count as nat)
}

/// The run has ended in this state with `count` elements left.
pub open spec fn ended_with(r: (StrState, nat), regs: Seq<u16>, mem: Seq<u8>, count: u16) -> bool {
    r == ((regs, mem), count as nat)
}

impl Machine {
    /// CMPS: compares source and destination elements, setting the flags
    /// of their difference and stepping SI and DI. Under REPE/REPNE it
    /// repeats up to CX times, stopping after the first element that
    /// differs (REPE) or matches (REPNE), and leaves CX with the count left.
    pub fn opcode_cmps(&mut self, instr: &Instr) -> (r: Result<(), String>)
        requires
            old(self).wf(),
            instr.opcode == Opcode::OP_CMPS,
            string_operands_ok(*instr),
            instr.operands@[0] is Mem,
        ensures
            r is Ok,
            final(self).wf(),
            compare_string_done(
                old(self).regs(),
                old(self).mem.0@,
                *instr,
                final(self).regs(),
                final(self).mem.0@,
            ),
            final(self).interrupt_vectors == old(self).interrupt_vectors,
            final(self).halted == old(self).halted,
            final(self).exec_count == old(self).exec_count,
            final(self).psp_segment == old(self).psp_segment,
    {
        let (_size, increment) = string_step_of(self, instr);
        let rep = instr.rep;
        let mut count: u16 = if rep.is_some() {
            self.reg_read_u16(CX)
        } else {
            1
        };
        let ghost ops = instr.operands@;
        let ghost goal = compare_rest(self.regs(), self.mem.0@, ops, increment, rep, count);
        loop
            invariant_except_break
                compare_rest(self.regs(), self.mem.0@, ops, increment, rep, count) == goal,
            invariant
                self.wf(),
                string_operands_ok(*instr),
                instr.operands@[0] is Mem,
                ops == instr.operands@,
                rep == instr.rep,
                self.interrupt_vectors == old(self).interrupt_vectors,
                self.halted == old(self).halted,
                self.exec_count == old(self).exec_count,
                self.psp_segment == old(self).psp_segment,
            ensures
                ended_with(goal, self.regs(), self.mem.0@, count),
            decreases count,
        {
            if count == 0 {
                break;
            }
            let lhs = self.operand_read(instr, 1);
            let rhs = self.operand_read(instr, 0);
            let (_, flags) = alu::binary(BinaryOp::Sub, lhs, rhs, self.flag_read_all());
            self.flag_write_all(flags);
            let si = self.reg_read_u16(SI);
            self.reg_write_u16(SI, si.wrapping_add(increment));
            let di = self.reg_read_u16(DI);
            self.reg_write_u16(DI, di.wrapping_add(increment));
            count = count - 1;
            match rep {
                Some(Rep::EQ) => {
                    if !self.flag_read(FLAG_ZF) {
                        break;
                    }
                },
                Some(Rep::NE) => {
                    if self.flag_read(FLAG_ZF) {
                        break;
                    }
                },
                None => {},
            }
        }
        if rep.is_some() {
            self.reg_write_u16(CX, count);
        }
        Ok(())
    }
}

} // verus!
