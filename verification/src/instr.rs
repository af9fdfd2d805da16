use vstd::prelude::*;
use crate::cpu::{AX, BX, CX, DX, SI, DI, BP, SP, IP, CS, DS, ES, SS, FLAGS, NUM_REGS};
use crate::machine::Machine;
use crate::mem::{spec_read_u8, spec_read_u16, spec_write_u8, spec_write_u16};
use crate::segoff::{Off, Seg, SegOff};
use crate::value::Value;

verus! {

/// The registers an instruction operand can name.
#[derive(Clone, Copy, Debug, PartialEq, Eq, Structural)]
pub enum Reg {
    AX,
    CX,
    DX,
    BX,
    SP,
    BP,
    SI,
    DI,
    AL,
    CL,
    DL,
    BL,
    AH,
    CH,
    DH,
    BH,
    ES,
    CS,
    SS,
    DS,
    IP,
    FLAGS,
}

/// The width of a memory or immediate operand.
#[derive(Clone, Copy, Debug, PartialEq, Eq, Structural)]
pub enum Size {
    Size8,
    Size16,
    Size32,
}

/// A REP prefix: REPE/REP (`EQ`) or REPNE (`NE`).
#[derive(Clone, Copy, Debug, PartialEq, Eq, Structural)]
pub enum Rep {
    EQ,
    NE,
}

#[allow(non_camel_case_types)]
#[derive(Clone, Copy, Debug, PartialEq, Eq, Structural)]
pub enum Opcode {
    OP_MOVS,
    OP_CMPS,
    OP_LODS,
    OP_HLT,
    OP_ADD,
    OP_OR,
    OP_ADC,
    OP_SBB,
    OP_AND,
    OP_SUB,
    OP_XOR,
    OP_CMP,
    OP_ROL,
    OP_SHL,
    OP_SHR,
    OP_SAR,
    OP_XCHG,
    OP_DIV,
    OP_IDIV,
    OP_JMPF,
    OP_NOP,
    OP_JMP,
    OP_MOV,
    OP_MUL,
    OP_CLD,
    OP_STD,
    OP_STOS,
    OP_SCAS,
    OP_INC,
    OP_DEC,
    OP_PUSH,
    OP_POP,
    OP_ROR,
    OP_RCL,
    OP_RCR,
    OP_DAA,
    OP_DAS,
    OP_AAA,
    OP_AAS,
    OP_PUSHA,
    OP_POPA,
    OP_IMUL,
    OP_INS,
    OP_OUTS,
    OP_JO,
    OP_JNO,
    OP_JB,
    OP_JAE,
    OP_JE,
    OP_JNE,
    OP_JBE,
    OP_JA,
    OP_JS,
    OP_JNS,
    OP_JP,
    OP_JNP,
    OP_JL,
    OP_JGE,
    OP_JLE,
    OP_JG,
    OP_TEST,
    OP_LEA,
    OP_CBW,
    OP_CWD,
    OP_CALLF,
    OP_PUSHF,
    OP_POPF,
    OP_SAHF,
    OP_LAHF,
    OP_RET,
    OP_LES,
    OP_LDS,
    OP_ENTER,
    OP_LEAVE,
    OP_RETF,
    OP_INT,
    OP_INTO,
    OP_IRET,
    OP_XLAT,
    OP_LOOPNE,
    OP_LOOPE,
    OP_LOOP,
    OP_JCXZ,
    OP_IN,
    OP_OUT,
    OP_CALL,
    OP_CMC,
    OP_NOT,
    OP_NEG,
    OP_CLC,
    OP_STC,
    OP_CLI,
    OP_STI,
}

#[derive(Clone, Copy, Debug, PartialEq, Eq, Structural)]
pub struct OperandReg(pub Reg);

/// A memory operand: `sreg:[reg1 + reg2 + off]`, the offset sum wrapping
/// at 64 KiB.
#[derive(Clone, Copy, Debug, PartialEq, Eq, Structural)]
pub struct OperandMem {
    pub sz: Size,
    pub sreg: Reg,
    pub reg1: Option<Reg>,
    pub reg2: Option<Reg>,
    pub off: Option<u16>,
}

#[derive(Clone, Copy, Debug, PartialEq, Eq, Structural)]
pub struct OperandImm {
    pub sz: Size,
    pub val: u16,
}

#[derive(Clone, Copy, Debug, PartialEq, Eq, Structural)]
pub enum Operand {
    Reg(OperandReg),
    Mem(OperandMem),
    Imm(OperandImm),
}

/// A decoded instruction.
#[derive(Debug)]
pub struct Instr {
    pub rep: Option<Rep>,
    pub opcode: Opcode,
    pub operands: Vec<Operand>,
}

/// The register-file slot that holds a register, and which part of it:
/// 0 the whole word, 1 the low byte, 2 the high byte.
pub open spec fn reg_slot(r: Reg) -> (int, int) {
    match r {
        Reg::AX => (AX as int, 0),
        Reg::CX => (CX as int, 0),
        Reg::DX => (DX as int, 0),
        Reg::BX => (BX as int, 0),
        Reg::SP => (SP as int, 0),
        Reg::BP => (BP as int, 0),
        Reg::SI => (SI as int, 0),
        Reg::DI => (DI as int, 0),
        Reg::AL => (AX as int, 1),
        Reg::CL => (CX as int, 1),
        Reg::DL => (DX as int, 1),
        Reg::BL => (BX as int, 1),
        Reg::AH => (AX as int, 2),
        Reg::CH => (CX as int, 2),
        Reg::DH => (DX as int, 2),
        Reg::BH => (BX as int, 2),
        Reg::ES => (ES as int, 0),
        Reg::CS => (CS as int, 0),
        Reg::SS => (SS as int, 0),
        Reg::DS => (DS as int, 0),
        Reg::IP => (IP as int, 0),
        Reg::FLAGS => (FLAGS as int, 0),
    }
}

/// Whether a register is a byte register.
pub open spec fn is_byte_reg(r: Reg) -> bool {
    reg_slot(r).1 != 0
}

/// The value a register holds.
pub open spec fn reg_value(regs: Seq<u16>, r: Reg) -> Value {
    let (i, part) = reg_slot(r);
    if part == 0 {
        Value::U16(regs[i])
    } else if part == 1 {
        Value::U8((regs[i] % 0x100) as u8)
    } else {
        Value::U8((regs[i] / 0x100) as u8)
    }
}

/// The register file after storing `v` (of the register's width) into `r`.
pub open spec fn reg_store(regs: Seq<u16>, r: Reg, v: Value) -> Seq<u16> {
    let (i, part) = reg_slot(r);
    let old = regs[i];
    let new = match v {
        Value::U8(b) => if part == 1 {
            (old - old % 0x100 + b) as u16
        } else {
            (old % 0x100 + 0x100 * b) as u16
        },
        Value::U16(w) => w,
        Value::U32(d) => d as u16,
    };
    regs.update(i, new)
}

/// The value of an optional register, zero when absent.
pub open spec fn opt_reg_word(regs: Seq<u16>, r: Option<Reg>) -> int {
    match r {
        Some(r) => regs[reg_slot(r).0] as int,
        None => 0,
    }
}

/// The address a memory operand designates.
pub open spec fn mem_ea(regs: Seq<u16>, m: OperandMem) -> SegOff {
    let off = (opt_reg_word(regs, m.reg1) + opt_reg_word(regs, m.reg2) + match m.off {
        Some(o) => o as int,
        None => 0,
    }) % 0x10000;
    SegOff { seg: Seg::Normal(regs[reg_slot(m.sreg).0]), off: Off(off as u16) }
}

/// Whether an operand is one the machine can read or write: a word
/// register, a byte register, a byte or word memory operand, or a byte or
/// word immediate.
pub open spec fn operand_ok(op: Operand) -> bool {
    match op {
        Operand::Reg(r) => !(r.0 is IP) && !(r.0 is FLAGS),
        Operand::Mem(m) => !(m.sz is Size32) && !is_byte_reg(m.sreg) && (m.reg1 matches Some(r)
            ==> !is_byte_reg(r)) && (m.reg2 matches Some(r) ==> !is_byte_reg(r)),
        Operand::Imm(i) => !(i.sz is Size32),
    }
}

/// The value an operand reads.
pub open spec fn operand_value(regs: Seq<u16>, mem: Seq<u8>, op: Operand) -> Value {
    match op {
        Operand::Reg(r) => reg_value(regs, r.0),
        Operand::Mem(m) => if m.sz is Size8 {
            Value::U8(spec_read_u8(mem, mem_ea(regs, m)))
        } else {
            Value::U16(spec_read_u16(mem, mem_ea(regs, m)) as u16)
        },
        Operand::Imm(i) => if i.sz is Size8 {
            Value::U8(i.val as u8)
        } else {
            Value::U16(i.val)
        },
    }
}

/// The width of the value an operand holds.
pub open spec fn operand_is_byte(op: Operand) -> bool {
    match op {
        Operand::Reg(r) => is_byte_reg(r.0),
        Operand::Mem(m) => m.sz is Size8,
        Operand::Imm(i) => i.sz is Size8,
    }
}

/// Whether `v` has the width of the operand it is written to.
pub open spec fn fits_operand(op: Operand, v: Value) -> bool {
    if operand_is_byte(op) {
        v is U8
    } else {
        v is U16
    }
}

/// The machine state (registers, memory) after writing `v` to an operand.
pub open spec fn operand_store(regs: Seq<u16>, mem: Seq<u8>, op: Operand, v: Value) -> (Seq<u16>, Seq<u8>) {
    match op {
        Operand::Reg(r) => (reg_store(regs, r.0, v), mem),
        Operand::Mem(m) => match v {
            Value::U8(b) => (regs, spec_write_u8(mem, mem_ea(regs, m), b)),
            Value::U16(w) => (regs, spec_write_u16(mem, mem_ea(regs, m), w)),
            Value::U32(d) => (regs, mem),
        },
        Operand::Imm(_) => (regs, mem),
    }
}

/// The register-file index of a word register.
fn reg_index(r: Reg) -> (r2: (usize, u8))
    ensures
        r2.0 == reg_slot(r).0,
        r2.1 == reg_slot(r).1,
        r2.0 < NUM_REGS,
{
    match r {
        Reg::AX => (AX, 0),
        Reg::CX => (CX, 0),
        Reg::DX => (DX, 0),
        Reg::BX => (BX, 0),
        Reg::SP => (SP, 0),
        Reg::BP => (BP, 0),
        Reg::SI => (SI, 0),
        Reg::DI => (DI, 0),
        Reg::AL => (AX, 1),
        Reg::CL => (CX, 1),
        Reg::DL => (DX, 1),
        Reg::BL => (BX, 1),
        Reg::AH => (AX, 2),
        Reg::CH => (CX, 2),
        Reg::DH => (DX, 2),
        Reg::BH => (BX, 2),
        Reg::ES => (ES, 0),
        Reg::CS => (CS, 0),
        Reg::SS => (SS, 0),
        Reg::DS => (DS, 0),
        Reg::IP => (IP, 0),
        Reg::FLAGS => (FLAGS, 0),
    }
}

/// Whether a register is a byte register.
pub fn is_byte_reg_exec(r: Reg) -> (b: bool)
    ensures
        b == is_byte_reg(r),
{
    reg_index(r).1 != 0
}

/// Whether an operand is one the machine can read or write.
pub fn operand_ok_exec(op: &Operand) -> (b: bool)
    ensures
        b == operand_ok(*op),
{
    match op {
        Operand::Reg(r) => !matches!(r.0, Reg::IP) && !matches!(r.0, Reg::FLAGS),
        Operand::Mem(m) => {
            let r1_ok = match m.reg1 {
                Some(r) => !is_byte_reg_exec(r),
                None => true,
            };
            let r2_ok = match m.reg2 {
                Some(r) => !is_byte_reg_exec(r),
                None => true,
            };
            !matches!(m.sz, Size::Size32) && !is_byte_reg_exec(m.sreg) && r1_ok && r2_ok
        },
        Operand::Imm(i) => !matches!(i.sz, Size::Size32),
    }
}

/// Whether an operand holds a byte.
pub fn operand_is_byte_exec(op: &Operand) -> (b: bool)
    ensures
        b == operand_is_byte(*op),
{
    match op {
        Operand::Reg(r) => is_byte_reg_exec(r.0),
        Operand::Mem(m) => matches!(m.sz, Size::Size8),
        Operand::Imm(i) => matches!(i.sz, Size::Size8),
    }
}

impl Machine {
    /// The value a register holds.
    pub fn reg_value(&self, r: Reg) -> (v: Value)
        ensures
            v == reg_value(self.regs(), r),
    {
        let (i, part) = reg_index(r);
        let w = self.cpu.regs[i];
        if part == 0 {
            Value::U16(w)
        } else if part == 1 {
            assert((w & 0xff) == w % 0x100) by (bit_vector);
            Value::U8((w & 0xff) as u8)
        } else {
            assert((w >> 8u16) == w / 0x100) by (bit_vector);
            Value::U8((w >> 8u16) as u8)
        }
    }

    fn opt_reg_word(&self, r: Option<Reg>) -> (w: u16)
        ensures
            w == opt_reg_word(self.regs(), r),
    {
        match r {
            Some(r) => self.cpu.regs[reg_index(r).0],
            None => 0,
        }
    }

    /// The address a memory operand designates.
    pub fn mem_ea(&self, m: &OperandMem) -> (a: SegOff)
        requires
            !is_byte_reg(m.sreg),
        ensures
            a == mem_ea(self.regs(), *m),
    {
        let seg = self.cpu.regs[reg_index(m.sreg).0];
        let r1 = self.opt_reg_word(m.reg1);
        let r2 = self.opt_reg_word(m.reg2);
        let o: u16 = match m.off {
            Some(o) => o,
            None => 0,
        };
        let off = r1.wrapping_add(r2).wrapping_add(o);
        proof {
            let s12 = r1.wrapping_add(r2);
            assert(s12 as int == (r1 + r2) % 0x10000);
            assert(off as int == (s12 + o) % 0x10000);
            vstd::arithmetic::div_mod::lemma_add_mod_noop(r1 + r2, o as int, 0x10000);
            vstd::arithmetic::div_mod::lemma_small_mod(o as nat, 0x10000);
            vstd::arithmetic::div_mod::lemma_mod_twice(r1 + r2 + o, 0x10000);
        }
        SegOff::new(seg, off)
    }

    /// Reads operand `i` of `instr`.
    pub fn operand_read(&self, instr: &Instr, i: usize) -> (v: Value)
        requires
            self.wf(),
            i < instr.operands.len(),
            operand_ok(instr.operands@[i as int]),
        ensures
            v == operand_value(self.regs(), self.mem.0@, instr.operands@[i as int]),
            fits_operand(instr.operands@[i as int], v),
    {
        match instr.operands[i] {
            Operand::Reg(r) => self.reg_value(r.0),
            Operand::Mem(m) => {
                let addr = self.mem_ea(&m);
                match m.sz {
                    Size::Size8 => Value::U8(self.mem.read_u8(addr)),
                    _ => Value::U16(self.mem.read_u16(addr)),
                }
            },
            Operand::Imm(imm) => match imm.sz {
                Size::Size8 => Value::U8(imm.val as u8),
                _ => Value::U16(imm.val),
            },
        }
    }

    /// Writes `v` to operand `i` of `instr`.
    pub fn operand_write(&mut self, instr: &Instr, i: usize, v: Value)
        requires
            old(self).wf(),
            i < instr.operands.len(),
            operand_ok(instr.operands@[i as int]),
            !(instr.operands@[i as int] is Imm),
            fits_operand(instr.operands@[i as int], v),
        ensures
            final(self).wf(),
            (final(self).regs(), final(self).mem.0@) == operand_store(
                old(self).regs(),
                old(self).mem.0@,
                instr.operands@[i as int],
                v,
            ),
            final(self).interrupt_vectors == old(self).interrupt_vectors,
            final(self).halted == old(self).halted,
            final(self).exec_count == old(self).exec_count,
            final(self).psp_segment == old(self).psp_segment,
    {
        match instr.operands[i] {
            Operand::Reg(r) => {
                let (idx, part) = reg_index(r.0);
                let w = self.cpu.regs[idx];
                let nw: u16 = match v {
                    Value::U8(b) => if part == 1 {
                        assert((w & 0xff00) | (b as u16) == w - w % 0x100 + b) by (bit_vector);
                        (w & 0xff00) | (b as u16)
                    } else {
                        assert((w & 0x00ff) | ((b as u16) << 8u16) == w % 0x100 + 0x100 * b)
                            by (bit_vector);
                        (w & 0x00ff) | ((b as u16) << 8u16)
                    },
                    Value::U16(x) => x,
                    Value::U32(d) => d as u16,
                };
                self.cpu.regs[idx] = nw;
            },
            Operand::Mem(m) => {
                let addr = self.mem_ea(&m);
                match v {
                    Value::U8(b) => self.mem.write_u8(addr, b),
                    Value::U16(x) => self.mem.write_u16(addr, x),
                    Value::U32(_) => {},
                }
            },
            Operand::Imm(_) => {},
        }
    }
}

} // verus!
