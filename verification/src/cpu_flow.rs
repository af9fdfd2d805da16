use vstd::prelude::*;
use crate::alu::raw16;
use crate::cpu::{CS, CX, FLAGS, IP, NUM_REGS, SP, SS};
use crate::flags::{FLAG_CF, FLAG_OF, FLAG_PF, FLAG_SF, FLAG_ZF};
use crate::instr::{Instr, Opcode, Operand, Size, mem_ea, operand_is_byte, operand_ok, operand_value, operand_ok_exec, operand_is_byte_exec};
use crate::machine::{Machine, lemma_pop_after_push, pop_sp, push_sp, reg_addr};
use crate::mem::{MEM_SIZE, byte_addr, lemma_byte_addr_bounds, lemma_write_u16_frame, spec_read_u16, spec_write_u16};
use crate::segoff::{Off, SegOff};
use crate::value::Value;

verus! {

/// The address two bytes on within the same segment.
pub open spec fn next_word(a: SegOff) -> SegOff {
    SegOff { seg: a.seg, off: Off(((a.off.0 + 2) % 0x10000) as u16) }
}

/// The sixteen conditional jumps.
pub open spec fn is_jcc(op: Opcode) -> bool {
    op is OP_JO || op is OP_JNO || op is OP_JB || op is OP_JAE || op is OP_JE || op is OP_JNE || op is OP_JBE
        || op is OP_JA || op is OP_JS || op is OP_JNS || op is OP_JP || op is OP_JNP || op is OP_JL || op is OP_JGE
        || op is OP_JLE || op is OP_JG
}

/// Whether a conditional jump is taken under FLAGS `f`.
pub open spec fn jcc_taken(op: Opcode, f: u16) -> bool {
    let cf = f & FLAG_CF != 0;
    let zf = f & FLAG_ZF != 0;
    let sf = f & FLAG_SF != 0;
    let of = f & FLAG_OF != 0;
    let pf = f & FLAG_PF != 0;
    match op {
        Opcode::OP_JO => of,
        Opcode::OP_JNO => !of,
        Opcode::OP_JB => cf,
        Opcode::OP_JAE => !cf,
        Opcode::OP_JE => zf,
        Opcode::OP_JNE => !zf,
        Opcode::OP_JBE => cf || zf,
        Opcode::OP_JA => !cf && !zf,
        Opcode::OP_JS => sf,
        Opcode::OP_JNS => !sf,
        Opcode::OP_JP => pf,
        Opcode::OP_JNP => !pf,
        Opcode::OP_JL => sf != of,
        Opcode::OP_JGE => sf == of,
        Opcode::OP_JLE => zf || sf != of,
        _ => !zf && sf == of,
    }
}

/// The displacement of a relative jump: a byte sign-extended, or a word.
pub open spec fn rel_value(o: Operand) -> u16 {
    match o {
        Operand::Imm(i) => if i.sz is Size8 {
            if i.val >= 0x80 {
                (i.val + 0xff00) as u16
            } else {
                i.val
            }
        } else {
            i.val
        },
        _ => 0,
    }
}

/// IP plus the displacement, modulo 64 KiB.
pub open spec fn rel_target(regs: Seq<u16>, o: Operand) -> u16 {
    ((regs[IP as int] + rel_value(o)) % 0x10000) as u16
}

/// The target of a near JMP or CALL: relative to IP for an immediate,
/// else the word the register or memory operand holds.
pub open spec fn near_target(regs: Seq<u16>, mem: Seq<u8>, o: Operand) -> u16 {
    if o is Imm {
        rel_target(regs, o)
    } else {
        raw16(operand_value(regs, mem, o))
    }
}

/// The offset and segment of a far JMP or CALL: the two immediates, or
/// the pointer in memory (offset first).
pub open spec fn far_target(regs: Seq<u16>, mem: Seq<u8>, ops: Seq<Operand>) -> (u16, u16) {
    if ops.len() == 2 {
        (ops[0]->Imm_0.val, ops[1]->Imm_0.val)
    } else {
        let ea = mem_ea(regs, ops[0]->Mem_0);
        (spec_read_u16(mem, ea) as u16, spec_read_u16(mem, next_word(ea)) as u16)
    }
}

/// The bytes a RET or RETF releases after popping: its immediate, if any.
pub open spec fn release(ops: Seq<Operand>) -> u16 {
    if ops.len() == 1 {
        ops[0]->Imm_0.val
    } else {
        0
    }
}

/// `w` pushed: SP two lower and the word stored at the new SS:SP.
pub open spec fn pushed(s: (Seq<u16>, Seq<u8>), w: u16) -> (Seq<u16>, Seq<u8>) {
    let r = s.0.update(SP as int, push_sp(s.0[SP as int]));
    (r, spec_write_u16(s.1, reg_addr(r, SS, SP), w))
}

/// The word at SS:SP.
pub open spec fn top(regs: Seq<u16>, mem: Seq<u8>) -> u16 {
    spec_read_u16(mem, reg_addr(regs, SS, SP)) as u16
}

/// The registers after a pop: SP two higher.
pub open spec fn popped(regs: Seq<u16>) -> Seq<u16> {
    regs.update(SP as int, pop_sp(regs[SP as int]))
}

/// The control transfers this CPU carries out.
pub open spec fn is_flow(op: Opcode) -> bool {
    is_jcc(op) || op is OP_JCXZ || op is OP_LOOP || op is OP_LOOPE || op is OP_LOOPNE || op is OP_JMP
        || op is OP_CALL || op is OP_RET || op is OP_JMPF || op is OP_CALLF || op is OP_RETF || op is OP_IRET
}

/// A displacement byte.
pub open spec fn short_rel(o: Operand) -> bool {
    o is Imm && o->Imm_0.sz is Size8 && o->Imm_0.val < 0x100
}

/// The operands a control transfer needs: a displacement byte for the
/// conditional and counted jumps; for a near JMP or CALL a displacement
/// (byte or word) or a word register or memory operand; for RET and RETF
/// nothing or the immediate count; IRET nothing; for a far JMP or CALL
/// the offset and segment immediates, or a memory operand holding the
/// pointer.
pub open spec fn flow_operands(instr: Instr) -> bool {
    let op = instr.opcode;
    let ops = instr.operands@;
    if is_jcc(op) || op is OP_JCXZ || op is OP_LOOP || op is OP_LOOPE || op is OP_LOOPNE {
        ops.len() == 1 && short_rel(ops[0])
    } else if op is OP_JMP || op is OP_CALL {
        &&& ops.len() == 1
        &&& operand_ok(ops[0])
        &&& if ops[0] is Imm {
            ops[0]->Imm_0.sz is Size16 || short_rel(ops[0])
        } else {
            !operand_is_byte(ops[0])
        }
    } else if op is OP_RET || op is OP_RETF {
        ops.len() == 0 || (ops.len() == 1 && ops[0] is Imm)
    } else if op is OP_IRET {
        ops.len() == 0
    } else {
        (ops.len() == 2 && ops[0] is Imm && ops[1] is Imm) || (ops.len() == 1 && ops[0] is Mem && operand_ok(
            ops[0],
        ))
    }
}

/// What a control transfer does, from registers `regs0` (IP already past
/// the instruction) and memory `mem0`, to `regs` and `mem`:
/// - a conditional jump, or JCXZ (taken when CX is zero), sets IP to its
///   target when taken and changes nothing otherwise;
/// - LOOP, LOOPE, LOOPNE decrement CX (wrapping) and jump while it is not
///   zero (LOOPE also needs ZF set, LOOPNE ZF clear);
/// - JMP sets IP to the target; CALL pushes IP, then sets it;
/// - RET pops IP, then releases its immediate count of stack bytes;
/// - a far JMP sets CS:IP; a far CALL pushes CS, then IP, then sets
///   CS:IP; RETF pops IP, then CS, then releases its count;
/// - IRET pops IP, then CS, then FLAGS.
#[verifier::opaque]
pub open spec fn flow_done(instr: Instr, regs0: Seq<u16>, mem0: Seq<u8>, regs: Seq<u16>, mem: Seq<u8>) -> bool {
    let op = instr.opcode;
    let ops = instr.operands@;
    let f = regs0[FLAGS as int];
    if is_jcc(op) || op is OP_JCXZ {
        let taken = if op is OP_JCXZ {
            regs0[CX as int] == 0
        } else {
            jcc_taken(op, f)
        };
        &&& mem == mem0
        &&& regs == if taken {
            regs0.update(IP as int, rel_target(regs0, ops[0]))
        } else {
            regs0
        }
    } else if op is OP_LOOP || op is OP_LOOPE || op is OP_LOOPNE {
        let cx = ((regs0[CX as int] + 0xffff) % 0x10000) as u16;
        let r1 = regs0.update(CX as int, cx);
        let zf = f & FLAG_ZF != 0;
        let taken = cx != 0 && (op is OP_LOOP || (op is OP_LOOPE && zf) || (op is OP_LOOPNE && !zf));
        &&& mem == mem0
        &&& regs == if taken {
            r1.update(IP as int, rel_target(regs0, ops[0]))
        } else {
            r1
        }
    } else if op is OP_JMP {
        &&& mem == mem0
        &&& regs == regs0.update(IP as int, near_target(regs0, mem0, ops[0]))
    } else if op is OP_CALL {
        let s = pushed((regs0, mem0), regs0[IP as int]);
        &&& mem == s.1
        &&& regs == s.0.update(IP as int, near_target(regs0, mem0, ops[0]))
    } else if op is OP_RET {
        let r1 = popped(regs0);
        &&& mem == mem0
        &&& regs == r1.update(SP as int, ((r1[SP as int] + release(ops)) % 0x10000) as u16).update(
            IP as int,
            top(regs0, mem0),
        )
    } else if op is OP_JMPF {
        let (ip, cs) = far_target(regs0, mem0, ops);
        &&& mem == mem0
        &&& regs == regs0.update(IP as int, ip).update(CS as int, cs)
    } else if op is OP_CALLF {
        let (ip, cs) = far_target(regs0, mem0, ops);
        let s = pushed(pushed((regs0, mem0), regs0[CS as int]), regs0[IP as int]);
        &&& mem == s.1
        &&& regs == s.0.update(IP as int, ip).update(CS as int, cs)
    } else if op is OP_IRET {
        let r1 = popped(regs0);
        let r2 = popped(r1);
        let r3 = popped(r2);
        &&& mem == mem0
        &&& regs == r3.update(IP as int, top(regs0, mem0)).update(CS as int, top(r1, mem0)).update(
            FLAGS as int,
            top(r2, mem0),
        )
    } else {
        let r1 = popped(regs0);
        let r2 = popped(r1);
        &&& mem == mem0
        &&& regs == r2.update(SP as int, ((r2[SP as int] + release(ops)) % 0x10000) as u16).update(
            IP as int,
            top(regs0, mem0),
        ).update(CS as int, top(r1, mem0))
    }
}

/// A near RET right after a near CALL resumes at the instruction after the
/// CALL, with SP back where it was before the CALL.
pub proof fn lemma_ret_after_call(
    call: Instr,
    ret: Instr,
    regs0: Seq<u16>,
    mem0: Seq<u8>,
    regs1: Seq<u16>,
    mem1: Seq<u8>,
    regs2: Seq<u16>,
    mem2: Seq<u8>,
)
    requires
        regs0.len() == NUM_REGS,
        mem0.len() == MEM_SIZE,
        call.opcode is OP_CALL,
        ret.opcode is OP_RET,
        ret.operands@.len() == 0,
        flow_done(call, regs0, mem0, regs1, mem1),
        flow_done(ret, regs1, mem1, regs2, mem2),
    ensures
        regs2[IP as int] == regs0[IP as int],
        regs2[SP as int] == regs0[SP as int],
{
    reveal(flow_done);
    lemma_pop_after_push(regs0, mem0, regs0[IP as int]);
    let s = pushed((regs0, mem0), regs0[IP as int]);
    assert(top(regs1, mem1) == regs0[IP as int]);
    assert(popped(regs1)[SP as int] == regs0[SP as int]);
}

/// After pushing `a` and then `b`: `b` is on top, popping gives back the
/// registers after the first push, `a` lies beneath, and popping again
/// gives back the registers before.
proof fn lemma_two_pushes(regs: Seq<u16>, mem: Seq<u8>, a: u16, b: u16)
    requires
        regs.len() == NUM_REGS,
        mem.len() == MEM_SIZE,
    ensures
        ({
            let s1 = pushed((regs, mem), a);
            let s2 = pushed(s1, b);
            &&& top(s2.0, s2.1) == b
            &&& popped(s2.0) == s1.0
            &&& top(s1.0, s2.1) == a
            &&& popped(s1.0) == regs
        }),
{
    let s1 = pushed((regs, mem), a);
    lemma_pop_after_push(regs, mem, a);
    lemma_pop_after_push(s1.0, s1.1, b);
    let s2 = pushed(s1, b);
    let a1 = reg_addr(s1.0, SS, SP);
    let a2 = reg_addr(s2.0, SS, SP);
    let sp1 = s1.0[SP as int] as int;
    assert(s2.0[SP as int] as int == (sp1 + 0x10000 - 2) % 0x10000);
    assert(a1.seg == a2.seg);
    assert(byte_addr(a1, 0) != byte_addr(a2, 0) && byte_addr(a1, 0) != byte_addr(a2, 1)) by {
        lemma_byte_addr_bounds(a1, 0);
    }
    assert(byte_addr(a1, 1) != byte_addr(a2, 0) && byte_addr(a1, 1) != byte_addr(a2, 1)) by {
        lemma_byte_addr_bounds(a1, 1);
    }
    lemma_byte_addr_bounds(a1, 0);
    lemma_byte_addr_bounds(a1, 1);
    lemma_write_u16_frame(s1.1, a2, b, byte_addr(a1, 0));
    lemma_write_u16_frame(s1.1, a2, b, byte_addr(a1, 1));
}

/// A far RETF right after a far CALL resumes at the instruction after the
/// CALL, in the caller's code segment, with SP back where it was.
#[verifier::spinoff_prover]
#[verifier::rlimit(40)]
pub proof fn lemma_retf_after_callf(
    call: Instr,
    ret: Instr,
    regs0: Seq<u16>,
    mem0: Seq<u8>,
    regs1: Seq<u16>,
    mem1: Seq<u8>,
    regs2: Seq<u16>,
    mem2: Seq<u8>,
)
    requires
        regs0.len() == NUM_REGS,
        mem0.len() == MEM_SIZE,
        call.opcode is OP_CALLF,
        ret.opcode is OP_RETF,
        ret.operands@.len() == 0,
        flow_done(call, regs0, mem0, regs1, mem1),
        flow_done(ret, regs1, mem1, regs2, mem2),
    ensures
        regs2[IP as int] == regs0[IP as int],
        regs2[CS as int] == regs0[CS as int],
        regs2[SP as int] == regs0[SP as int],
{
    reveal(flow_done);
    lemma_two_pushes(regs0, mem0, regs0[CS as int], regs0[IP as int]);
    let s1 = pushed((regs0, mem0), regs0[CS as int]);
    let s2 = pushed(s1, regs0[IP as int]);
    let (ip, cs) = far_target(regs0, mem0, call.operands@);
    assert(regs1 == s2.0.update(IP as int, ip).update(CS as int, cs) && mem1 == s2.1);
    assert(reg_addr(regs1, SS, SP) == reg_addr(s2.0, SS, SP));
    assert(popped(regs1) =~= s1.0.update(IP as int, ip).update(CS as int, cs));
    assert(reg_addr(popped(regs1), SS, SP) == reg_addr(s1.0, SS, SP));
    assert(popped(popped(regs1))[SP as int] == regs0[SP as int]);
}

fn jcc_taken_exec(op: Opcode, f: u16) -> (r: bool)
    ensures
        r == jcc_taken(op, f),
{
    let cf = f & FLAG_CF != 0;
    let zf = f & FLAG_ZF != 0;
    let sf = f & FLAG_SF != 0;
    let of = f & FLAG_OF != 0;
    let pf = f & FLAG_PF != 0;
    match op {
        Opcode::OP_JO => of,
        Opcode::OP_JNO => !of,
        Opcode::OP_JB => cf,
        Opcode::OP_JAE => !cf,
        Opcode::OP_JE => zf,
        Opcode::OP_JNE => !zf,
        Opcode::OP_JBE => cf || zf,
        Opcode::OP_JA => !cf && !zf,
        Opcode::OP_JS => sf,
        Opcode::OP_JNS => !sf,
        Opcode::OP_JP => pf,
        Opcode::OP_JNP => !pf,
        Opcode::OP_JL => sf != of,
        Opcode::OP_JGE => sf == of,
        Opcode::OP_JLE => zf || sf != of,
        _ => !zf && sf == of,
    }
}

fn rel_value_exec(o: &Operand) -> (r: u16)
    requires
        o is Imm ==> (o->Imm_0.sz is Size8 ==> o->Imm_0.val < 0x100),
    ensures
        r == rel_value(*o),
{
    match o {
        Operand::Imm(i) => match i.sz {
            Size::Size8 => if i.val >= 0x80 {
                i.val + 0xff00
            } else {
                i.val
            },
            _ => i.val,
        },
        _ => 0,
    }
}

fn short_rel_exec(o: &Operand) -> (r: bool)
    ensures
        r == short_rel(*o),
{
    match o {
        Operand::Imm(i) => matches!(i.sz, Size::Size8) && i.val < 0x100,
        _ => false,
    }
}

/// Whether a control transfer's operands are those it needs (see
/// `flow_operands`).
pub fn flow_operands_exec(instr: &Instr) -> (r: bool)
    requires
        is_flow(instr.opcode),
    ensures
        r == flow_operands(*instr),
{
    let ops = &instr.operands;
    let n = ops.len();
    match instr.opcode {
        Opcode::OP_JMP | Opcode::OP_CALL => {
            n == 1 && operand_ok_exec(&ops[0]) && match ops[0] {
                Operand::Imm(i) => matches!(i.sz, Size::Size16) || short_rel_exec(&ops[0]),
                _ => !operand_is_byte_exec(&ops[0]),
            }
        },
        Opcode::OP_RET | Opcode::OP_RETF => n == 0 || (n == 1 && matches!(ops[0], Operand::Imm(_))),
        Opcode::OP_IRET => n == 0,
        Opcode::OP_JMPF | Opcode::OP_CALLF => {
            (n == 2 && matches!(ops[0], Operand::Imm(_)) && matches!(ops[1], Operand::Imm(_))) || (n == 1
                && matches!(ops[0], Operand::Mem(_)) && operand_ok_exec(&ops[0]))
        },
        _ => n == 1 && short_rel_exec(&ops[0]),
    }
}

impl Machine {
    /// The target of a near JMP or CALL.
    fn near_target_exec(&self, instr: &Instr) -> (t: u16)
        requires
            self.wf(),
            flow_operands(*instr),
            instr.opcode is OP_JMP || instr.opcode is OP_CALL,
        ensures
            t == near_target(self.regs(), self.mem.0@, instr.operands@[0]),
    {
        if matches!(instr.operands[0], Operand::Imm(_)) {
            let ip = self.reg_read_u16(IP);
            ip.wrapping_add(rel_value_exec(&instr.operands[0]))
        } else {
            let v = self.operand_read(instr, 0);
            match v {
                Value::U16(w) => w,
                _ => 0,
            }
        }
    }

    /// The target of a far JMP or CALL.
    fn far_target_exec(&self, instr: &Instr) -> (t: (u16, u16))
        requires
            self.wf(),
            flow_operands(*instr),
            instr.opcode is OP_JMPF || instr.opcode is OP_CALLF,
        ensures
            t == far_target(self.regs(), self.mem.0@, instr.operands@),
    {
        if instr.operands.len() == 2 {
            let ip = match instr.operands[0] {
                Operand::Imm(i) => i.val,
                _ => 0,
            };
            let cs = match instr.operands[1] {
                Operand::Imm(i) => i.val,
                _ => 0,
            };
            (ip, cs)
        } else {
            let m = match instr.operands[0] {
                Operand::Mem(m) => m,
                _ => {
                    return (0, 0);
                },
            };
            let ea = self.mem_ea(&m);
            (self.mem.read_u16(ea), self.mem.read_u16(ea.add_offset(2)))
        }
    }

    /// The count a RET or RETF releases.
    fn release_exec(instr: &Instr) -> (n: u16)
        requires
            flow_operands(*instr),
            instr.opcode is OP_RET || instr.opcode is OP_RETF,
        ensures
            n == release(instr.operands@),
    {
        if instr.operands.len() == 1 {
            match instr.operands[0] {
                Operand::Imm(i) => i.val,
                _ => 0,
            }
        } else {
            0
        }
    }

    /// Carries out a control transfer (see `flow_done`).
    pub fn opcode_flow(&mut self, instr: &Instr)
        requires
            old(self).wf(),
            is_flow(instr.opcode),
            flow_operands(*instr),
        ensures
            final(self).wf(),
            flow_done(*instr, old(self).regs(), old(self).mem.0@, final(self).regs(), final(self).mem.0@),
            final(self).halted == old(self).halted,
            final(self).exec_count == old(self).exec_count,
            final(self).interrupt_vectors == old(self).interrupt_vectors,
            final(self).psp_segment == old(self).psp_segment,
    {
        proof {
            reveal(flow_done);
        }
        let op = instr.opcode;
        let f = self.reg_read_u16(FLAGS);
        if matches!(op, Opcode::OP_LOOP | Opcode::OP_LOOPE | Opcode::OP_LOOPNE) {
            let cx = self.reg_read_u16(CX).wrapping_add(0xffff);
            let target = self.reg_read_u16(IP).wrapping_add(rel_value_exec(&instr.operands[0]));
            self.reg_write_u16(CX, cx);
            let zf = f & FLAG_ZF != 0;
            let taken = cx != 0 && (matches!(op, Opcode::OP_LOOP) || (matches!(op, Opcode::OP_LOOPE) && zf) || (
            matches!(op, Opcode::OP_LOOPNE) && !zf));
            if taken {
                self.reg_write_u16(IP, target);
            }
        } else if matches!(op, Opcode::OP_JMP) {
            let t = self.near_target_exec(instr);
            self.reg_write_u16(IP, t);
        } else if matches!(op, Opcode::OP_CALL) {
            let t = self.near_target_exec(instr);
            let ip = self.reg_read_u16(IP);
            self.stack_push_u16(ip);
            self.reg_write_u16(IP, t);
        } else if matches!(op, Opcode::OP_RET) {
            let n = Self::release_exec(instr);
            let ip = self.stack_pop_u16();
            let sp = self.reg_read_u16(SP);
            self.reg_write_u16(SP, sp.wrapping_add(n));
            self.reg_write_u16(IP, ip);
        } else if matches!(op, Opcode::OP_JMPF) {
            let (ip, cs) = self.far_target_exec(instr);
            self.reg_write_u16(IP, ip);
            self.reg_write_u16(CS, cs);
        } else if matches!(op, Opcode::OP_CALLF) {
            let (ip, cs) = self.far_target_exec(instr);
            let cs0 = self.reg_read_u16(CS);
            let ip0 = self.reg_read_u16(IP);
            self.stack_push_u16(cs0);
            self.stack_push_u16(ip0);
            self.reg_write_u16(IP, ip);
            self.reg_write_u16(CS, cs);
        } else if matches!(op, Opcode::OP_IRET) {
            let ip = self.stack_pop_u16();
            let cs = self.stack_pop_u16();
            let f = self.stack_pop_u16();
            self.reg_write_u16(IP, ip);
            self.reg_write_u16(CS, cs);
            self.reg_write_u16(FLAGS, f);
        } else if matches!(op, Opcode::OP_RETF) {
            let n = Self::release_exec(instr);
            let ip = self.stack_pop_u16();
            let cs = self.stack_pop_u16();
            let sp = self.reg_read_u16(SP);
            self.reg_write_u16(SP, sp.wrapping_add(n));
            self.reg_write_u16(IP, ip);
            self.reg_write_u16(CS, cs);
        } else {
            let taken = if matches!(op, Opcode::OP_JCXZ) {
                self.reg_read_u16(CX) == 0
            } else {
                jcc_taken_exec(op, f)
            };
            if taken {
                let ip = self.reg_read_u16(IP);
                self.reg_write_u16(IP, ip.wrapping_add(rel_value_exec(&instr.operands[0])));
            }
        }
    }
}

} // verus!
