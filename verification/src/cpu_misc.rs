use vstd::prelude::*;
use crate::cpu::{AX, BP, DS, DX, ES, FLAGS, NUM_REGS, SP, SS};
use crate::cpu_flow::{next_word, popped, pushed, top};
use crate::instr::{Instr, Opcode, Operand, OperandMem, Reg, is_byte_reg, is_byte_reg_exec, mem_ea, operand_is_byte, operand_is_byte_exec, operand_ok, operand_ok_exec, operand_store, reg_store};
use crate::machine::{Machine, lemma_pop_after_push, reg_addr};
use crate::mem::{MEM_SIZE, spec_read_u16, spec_read_u8};
use crate::segoff::{Off, SegOff};
use crate::value::Value;

verus! {

/// The instructions of this module: CBW, CWD, LEA, XLAT, LES, LDS, PUSHF,
/// POPF, ENTER and LEAVE.
pub open spec fn is_misc(op: Opcode) -> bool {
    op is OP_CBW || op is OP_CWD || op is OP_LEA || op is OP_XLAT || op is OP_LES || op is OP_LDS || op is OP_PUSHF
        || op is OP_POPF || op is OP_ENTER || op is OP_LEAVE
}

/// A memory operand whose segment and index registers are word registers.
pub open spec fn mem_regs_ok(m: OperandMem) -> bool {
    !is_byte_reg(m.sreg) && (m.reg1 matches Some(r) ==> !is_byte_reg(r)) && (m.reg2 matches Some(r)
        ==> !is_byte_reg(r))
}

/// A word register operand other than IP and FLAGS.
pub open spec fn word_reg(o: Operand) -> bool {
    o is Reg && operand_ok(o) && !operand_is_byte(o)
}

/// The operands each instruction needs: none for CBW, CWD, PUSHF, POPF and
/// LEAVE; a word register and a memory operand for LEA, LES and LDS; the
/// table operand for XLAT; a frame size and a nesting level of zero for
/// ENTER (deeper levels are not carried out).
pub open spec fn misc_operands(instr: Instr) -> bool {
    let op = instr.opcode;
    let ops = instr.operands@;
    if op is OP_LEA || op is OP_LES || op is OP_LDS {
        ops.len() == 2 && word_reg(ops[0]) && ops[1] is Mem && mem_regs_ok(ops[1]->Mem_0)
    } else if op is OP_XLAT {
        ops.len() == 1 && ops[0] is Mem && mem_regs_ok(ops[0]->Mem_0)
    } else if op is OP_ENTER {
        ops.len() == 2 && ops[0] is Imm && ops[1] is Imm && ops[1]->Imm_0.val == 0
    } else {
        ops.len() == 0
    }
}

/// AL sign-extended to a word.
pub open spec fn cbw(ax: u16) -> u16 {
    if ax % 0x100 >= 0x80 {
        (ax % 0x100 + 0xff00) as u16
    } else {
        (ax % 0x100) as u16
    }
}

/// The address XLAT reads: the table's address advanced by AL.
pub open spec fn xlat_addr(regs: Seq<u16>, m: OperandMem) -> SegOff {
    let ea = mem_ea(regs, m);
    SegOff { seg: ea.seg, off: Off(((ea.off.0 + regs[AX as int] % 0x100) % 0x10000) as u16) }
}

/// What the instructions of this module do, from registers `regs0` (IP
/// already past the instruction) and memory `mem0`, to `regs` and `mem`:
/// - CBW sets AX to AL sign-extended; CWD sets DX to the sign of AX;
/// - LEA stores the offset of its memory operand in the register;
/// - XLAT loads AL from the table at the operand's address plus AL;
/// - LES and LDS load the register from the pointer's offset word and ES
///   or DS from its segment word;
/// - PUSHF pushes FLAGS and POPF pops it;
/// - ENTER pushes BP, sets BP to SP, then lowers SP by the frame size;
///   LEAVE sets SP to BP, then pops BP.
pub open spec fn misc_done(instr: Instr, regs0: Seq<u16>, mem0: Seq<u8>, regs: Seq<u16>, mem: Seq<u8>) -> bool {
    let op = instr.opcode;
    let ops = instr.operands@;
    if op is OP_CBW {
        regs == regs0.update(AX as int, cbw(regs0[AX as int])) && mem == mem0
    } else if op is OP_CWD {
        regs == regs0.update(
            DX as int,
            if regs0[AX as int] >= 0x8000 {
                0xffffu16
            } else {
                0u16
            },
        ) && mem == mem0
    } else if op is OP_LEA {
        regs == operand_store(regs0, mem0, ops[0], Value::U16(mem_ea(regs0, ops[1]->Mem_0).off.0)).0 && mem
            == mem0
    } else if op is OP_XLAT {
        regs == reg_store(regs0, Reg::AL, Value::U8(spec_read_u8(mem0, xlat_addr(regs0, ops[0]->Mem_0))))
            && mem == mem0
    } else if op is OP_LES || op is OP_LDS {
        let ea = mem_ea(regs0, ops[1]->Mem_0);
        let r1 = operand_store(regs0, mem0, ops[0], Value::U16(spec_read_u16(mem0, ea) as u16)).0;
        regs == r1.update(
            if op is OP_LES {
                ES as int
            } else {
                DS as int
            },
            spec_read_u16(mem0, next_word(ea)) as u16,
        ) && mem == mem0
    } else if op is OP_PUSHF {
        (regs, mem) == pushed((regs0, mem0), regs0[FLAGS as int])
    } else if op is OP_POPF {
        regs == popped(regs0).update(FLAGS as int, top(regs0, mem0)) && mem == mem0
    } else if op is OP_ENTER {
        let s = pushed((regs0, mem0), regs0[BP as int]);
        let sp = s.0[SP as int];
        &&& mem == s.1
        &&& regs == s.0.update(BP as int, sp).update(
            SP as int,
            ((sp + 0x10000 - ops[0]->Imm_0.val) % 0x10000) as u16,
        )
    } else {
        let r1 = regs0.update(SP as int, regs0[BP as int]);
        regs == popped(r1).update(BP as int, top(r1, mem0)) && mem == mem0
    }
}

fn mem_regs_ok_exec(m: &OperandMem) -> (r: bool)
    ensures
        r == mem_regs_ok(*m),
{
    let r1 = match m.reg1 {
        Some(r) => !is_byte_reg_exec(r),
        None => true,
    };
    let r2 = match m.reg2 {
        Some(r) => !is_byte_reg_exec(r),
        None => true,
    };
    !is_byte_reg_exec(m.sreg) && r1 && r2
}

/// Whether an instruction of this module has the operands it needs (see
/// `misc_operands`).
pub fn misc_operands_exec(instr: &Instr) -> (r: bool)
    requires
        is_misc(instr.opcode),
    ensures
        r == misc_operands(*instr),
{
    let ops = &instr.operands;
    let n = ops.len();
    match instr.opcode {
        Opcode::OP_LEA | Opcode::OP_LES | Opcode::OP_LDS => {
            n == 2 && matches!(ops[0], Operand::Reg(_)) && operand_ok_exec(&ops[0]) && !operand_is_byte_exec(&ops[0])
                && match ops[1] {
                Operand::Mem(m) => mem_regs_ok_exec(&m),
                _ => false,
            }
        },
        Opcode::OP_XLAT => n == 1 && match ops[0] {
            Operand::Mem(m) => mem_regs_ok_exec(&m),
            _ => false,
        },
        Opcode::OP_ENTER => n == 2 && matches!(ops[0], Operand::Imm(_)) && match ops[1] {
            Operand::Imm(i) => i.val == 0,
            _ => false,
        },
        _ => n == 0,
    }
}

/// LEAVE right after ENTER with nesting level zero gives BP and SP back
/// their values before the ENTER.
pub proof fn lemma_leave_after_enter(
    enter: Instr,
    leave: Instr,
    regs0: Seq<u16>,
    mem0: Seq<u8>,
    regs1: Seq<u16>,
    mem1: Seq<u8>,
    regs2: Seq<u16>,
    mem2: Seq<u8>,
)
    requires
        regs0.len() == NUM_REGS,
        mem0.len() == MEM_SIZE,
        enter.opcode is OP_ENTER,
        leave.opcode is OP_LEAVE,
        misc_done(enter, regs0, mem0, regs1, mem1),
        misc_done(leave, regs1, mem1, regs2, mem2),
    ensures
        regs2[BP as int] == regs0[BP as int],
        regs2[SP as int] == regs0[SP as int],
{
    lemma_pop_after_push(regs0, mem0, regs0[BP as int]);
    let s = pushed((regs0, mem0), regs0[BP as int]);
    let r1 = regs1.update(SP as int, regs1[BP as int]);
    assert(r1 =~= s.0.update(BP as int, s.0[SP as int]));
    assert(reg_addr(r1, SS, SP) == reg_addr(s.0, SS, SP));
}

/// POPF right after PUSHF gives FLAGS and SP back their values before the
/// PUSHF.
pub proof fn lemma_popf_after_pushf(
    push: Instr,
    pop: Instr,
    regs0: Seq<u16>,
    mem0: Seq<u8>,
    regs1: Seq<u16>,
    mem1: Seq<u8>,
    regs2: Seq<u16>,
    mem2: Seq<u8>,
)
    requires
        regs0.len() == NUM_REGS,
        mem0.len() == MEM_SIZE,
        push.opcode is OP_PUSHF,
        pop.opcode is OP_POPF,
        misc_done(push, regs0, mem0, regs1, mem1),
        misc_done(pop, regs1, mem1, regs2, mem2),
    ensures
        regs2 == regs0,
{
    lemma_pop_after_push(regs0, mem0, regs0[FLAGS as int]);
    assert(regs2 =~= regs0);
}

impl Machine {
    /// Carries out CBW, CWD, LEA, XLAT, LES, LDS, PUSHF, POPF, ENTER or
    /// LEAVE (see `misc_done`).
    pub fn opcode_misc(&mut self, instr: &Instr)
        requires
            old(self).wf(),
            is_misc(instr.opcode),
            misc_operands(*instr),
        ensures
            final(self).wf(),
            misc_done(*instr, old(self).regs(), old(self).mem.0@, final(self).regs(), final(self).mem.0@),
            final(self).halted == old(self).halted,
            final(self).exec_count == old(self).exec_count,
            final(self).interrupt_vectors == old(self).interrupt_vectors,
            final(self).psp_segment == old(self).psp_segment,
    {
        match instr.opcode {
            Opcode::OP_CBW => {
                let ax = self.reg_read_u16(AX);
                let al = ax % 0x100;
                let w = if al >= 0x80 {
                    al + 0xff00
                } else {
                    al
                };
                self.reg_write_u16(AX, w);
            },
            Opcode::OP_CWD => {
                let ax = self.reg_read_u16(AX);
                let w: u16 = if ax >= 0x8000 {
                    0xffff
                } else {
                    0
                };
                self.reg_write_u16(DX, w);
            },
            Opcode::OP_LEA => {
                let m = match instr.operands[1] {
                    Operand::Mem(m) => m,
                    _ => {
                        return;
                    },
                };
                let ea = self.mem_ea(&m);
                self.operand_write(instr, 0, Value::U16(ea.off.0));
            },
            Opcode::OP_XLAT => {
                let m = match instr.operands[0] {
                    Operand::Mem(m) => m,
                    _ => {
                        return;
                    },
                };
                let ea = self.mem_ea(&m);
                let al = self.reg_read_u16(AX) % 0x100;
                let b = self.mem.read_u8(ea.add_offset(al));
                let ax = self.reg_read_u16(AX);
                self.reg_write_u16(AX, ax - ax % 0x100 + b as u16);
            },
            Opcode::OP_LES | Opcode::OP_LDS => {
                let m = match instr.operands[1] {
                    Operand::Mem(m) => m,
                    _ => {
                        return;
                    },
                };
                let ea = self.mem_ea(&m);
                let off = self.mem.read_u16(ea);
                let seg = self.mem.read_u16(ea.add_offset(2));
                self.operand_write(instr, 0, Value::U16(off));
                if matches!(instr.opcode, Opcode::OP_LES) {
                    self.reg_write_u16(ES, seg);
                } else {
                    self.reg_write_u16(DS, seg);
                }
            },
            Opcode::OP_PUSHF => {
                let f = self.reg_read_u16(FLAGS);
                self.stack_push_u16(f);
            },
            Opcode::OP_POPF => {
                let f = self.stack_pop_u16();
                self.reg_write_u16(FLAGS, f);
            },
            Opcode::OP_ENTER => {
                let n = match instr.operands[0] {
                    Operand::Imm(i) => i.val,
                    _ => 0,
                };
                let bp = self.reg_read_u16(BP);
                self.stack_push_u16(bp);
                let sp = self.reg_read_u16(SP);
                self.reg_write_u16(BP, sp);
                self.reg_write_u16(SP, sp.wrapping_sub(n));
            },
            _ => {
                let bp = self.reg_read_u16(BP);
                self.reg_write_u16(SP, bp);
                let v = self.stack_pop_u16();
                self.reg_write_u16(BP, v);
            },
        }
    }
}

} // verus!
