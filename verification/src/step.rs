use vstd::prelude::*;
use crate::cpu::{AX, CX, DX, CS, IP, FLAGS, SP, SS};
use crate::flags::{Flags, FLAG_CF, FLAG_DF, FLAG_IF};
use crate::cpu_cmps::compare_string_done;
use crate::cpu_lods::lods_from;
use crate::cpu_movs::movs_from;
use crate::cpu_stos::stos_from;
use crate::cpu_scas::scan_string_done;
use crate::decode::{decode_one, decodable, decodes_to};
use crate::instr::{Instr, Opcode, Operand, OperandReg, Reg, Size, operand_value, operand_store, operand_ok, operand_is_byte, operand_ok_exec, operand_is_byte_exec};
use crate::alu::{BinaryOp, ShiftOp, DivideOp, MultiplyOp, UnaryOp, unary, unary_result, unary_flags, multiply, multiply_result, multiply_flags, divmod, divide_fits, divide_ok, div_quotient, div_remainder, div_flags, binary, binary_result, binary_flags, shift, shift_result, shift_flags, pack, width, raw, raw16};
use crate::machine::{Machine, reg_addr, push_sp, pop_sp};
use crate::mem::{byte_addr, spec_read_u16, spec_write_u16};
use crate::value::Value;
use crate::cpu_flow::{flow_done, flow_operands, flow_operands_exec};
use crate::cpu_misc::{misc_done, misc_operands, misc_operands_exec};
use crate::string_ops::{elem_size, dest_size, string_count, string_inc, string_operands_ok, acc_string_operands_ok};

verus! {

/// How many bytes the CPU fetches to decode one instruction.
pub const FETCH_LEN: usize = 16;

/// The bytes at CS:IP onward, the offset wrapping within the code segment.
pub open spec fn fetched(regs: Seq<u16>, mem: Seq<u8>) -> Seq<u8> {
    Seq::new(FETCH_LEN as nat, |i: int| mem[byte_addr(reg_addr(regs, CS, IP), i)])
}

/// The registers with IP advanced past an instruction of `len` bytes.
pub open spec fn ip_advanced(regs: Seq<u16>, len: nat) -> Seq<u16> {
    regs.update(IP as int, ((regs[IP as int] + len) % 0x10000) as u16)
}

/// What executing `instr` does, from registers `regs0` (IP already past
/// the instruction) and memory `mem0`, to `regs`, `mem` and `halted`;
/// false for the instructions this CPU does not carry out.
#[verifier::opaque]
pub open spec fn executes(
    instr: Instr,
    regs0: Seq<u16>,
    mem0: Seq<u8>,
    halted0: bool,
    regs: Seq<u16>,
    mem: Seq<u8>,
    halted: bool,
) -> bool {
    let inc = string_inc(regs0[FLAGS as int], elem_size(instr.operands@));
    let n = string_count(instr, regs0) as nat;
    match instr.opcode {
        Opcode::OP_MOVS => {
            let s = movs_from((regs0, mem0), instr.operands@, inc, n);
            &&& mem == s.1
            &&& regs == if instr.rep is Some { s.0.update(CX as int, 0) } else { s.0 }
            &&& halted == halted0
        },
        Opcode::OP_LODS => {
            let s = lods_from((regs0, mem0), instr.operands@, inc, n);
            &&& mem == s.1
            &&& regs == if instr.rep is Some { s.0.update(CX as int, 0) } else { s.0 }
            &&& halted == halted0
        },
        Opcode::OP_CMPS => compare_string_done(regs0, mem0, instr, regs, mem) && halted == halted0,
        Opcode::OP_STOS => {
            let s = stos_from((regs0, mem0), instr.operands@, string_inc(regs0[FLAGS as int], dest_size(instr.operands@)), n);
            &&& mem == s.1
            &&& regs == if instr.rep is Some { s.0.update(CX as int, 0) } else { s.0 }
            &&& halted == halted0
        },
        Opcode::OP_SCAS => scan_string_done(regs0, mem0, instr, regs, mem) && halted == halted0,
        Opcode::OP_HLT => regs == regs0 && mem == mem0 && halted,
        Opcode::OP_ROL | Opcode::OP_SHL | Opcode::OP_SHR | Opcode::OP_SAR => {
            let a = operand_value(regs0, mem0, instr.operands@[0]);
            let n = count_byte(operand_value(regs0, mem0, instr.operands@[1]));
            let op = shift_kind(instr.opcode);
            let res = pack(width(a), shift_result(op, width(a) as u32, raw(a) as u32, n) as int);
            let stored = operand_store(regs0, mem0, instr.operands@[0], res);
            &&& regs == stored.0.update(
                FLAGS as int,
                shift_flags(op, width(a) as u32, raw(a) as u32, n, regs0[FLAGS as int]),
            )
            &&& mem == stored.1
            &&& halted == halted0
        },
        Opcode::OP_XCHG => {
            let a = operand_value(regs0, mem0, instr.operands@[0]);
            let c = operand_value(regs0, mem0, instr.operands@[1]);
            let s1 = operand_store(regs0, mem0, instr.operands@[0], c);
            let s2 = operand_store(s1.0, s1.1, instr.operands@[1], a);
            &&& regs == s2.0
            &&& mem == s2.1
            &&& halted == halted0
        },
        Opcode::OP_DIV | Opcode::OP_IDIV => {
            let op = divide_kind(instr.opcode);
            let a = dividend(regs0);
            let b = raw16(operand_value(regs0, mem0, instr.operands@[0]));
            &&& regs == regs0.update(AX as int, div_quotient(op, a, b) as u16).update(
                DX as int,
                div_remainder(op, a, b) as u16,
            ).update(
                FLAGS as int,
                div_flags(div_quotient(op, a, b), div_remainder(op, a, b), regs0[FLAGS as int]),
            )
            &&& mem == mem0
            &&& halted == halted0
        },
        Opcode::OP_NOP => regs == regs0 && mem == mem0 && halted == halted0,
        Opcode::OP_INC | Opcode::OP_DEC | Opcode::OP_NOT | Opcode::OP_NEG => {
            let a = operand_value(regs0, mem0, instr.operands@[0]);
            let op = unary_kind(instr.opcode);
            let stored = operand_store(regs0, mem0, instr.operands@[0], pack(width(a), unary_result(op, width(a), raw(a))));
            &&& regs == stored.0.update(FLAGS as int, unary_flags(op, width(a), raw(a), regs0[FLAGS as int]))
            &&& mem == stored.1
            &&& halted == halted0
        },
        Opcode::OP_PUSH => {
            let v = raw16(operand_value(regs0, mem0, instr.operands@[0]));
            let r1 = regs0.update(SP as int, push_sp(regs0[SP as int]));
            &&& regs == r1
            &&& mem == spec_write_u16(mem0, reg_addr(r1, SS, SP), v)
            &&& halted == halted0
        },
        Opcode::OP_POP => {
            let v = spec_read_u16(mem0, reg_addr(regs0, SS, SP)) as u16;
            let r1 = regs0.update(SP as int, pop_sp(regs0[SP as int]));
            let s = operand_store(r1, mem0, instr.operands@[0], Value::U16(v));
            &&& regs == s.0
            &&& mem == s.1
            &&& halted == halted0
        },
        Opcode::OP_CBW | Opcode::OP_CWD | Opcode::OP_LEA | Opcode::OP_XLAT | Opcode::OP_LES | Opcode::OP_LDS
        | Opcode::OP_PUSHF | Opcode::OP_POPF | Opcode::OP_ENTER | Opcode::OP_LEAVE => {
            misc_done(instr, regs0, mem0, regs, mem) && halted == halted0
        },
        Opcode::OP_CLC | Opcode::OP_STC | Opcode::OP_CLI | Opcode::OP_STI | Opcode::OP_CLD | Opcode::OP_STD => {
            &&& regs == regs0.update(FLAGS as int, flag_op(instr.opcode, regs0[FLAGS as int]))
            &&& mem == mem0
            &&& halted == halted0
        },
        Opcode::OP_TEST => {
            let a = operand_value(regs0, mem0, instr.operands@[0]);
            let v = operand_value(regs0, mem0, instr.operands@[1]);
            &&& regs == regs0.update(
                FLAGS as int,
                binary_flags(BinaryOp::And, width(a), raw16(a), raw16(v), regs0[FLAGS as int]),
            )
            &&& mem == mem0
            &&& halted == halted0
        },
        Opcode::OP_MOV => {
            let stored = operand_store(regs0, mem0, instr.operands@[0], operand_value(regs0, mem0, instr.operands@[1]));
            &&& regs == stored.0
            &&& mem == stored.1
            &&& halted == halted0
        },
        Opcode::OP_MUL | Opcode::OP_IMUL => {
            let kind = if instr.opcode == Opcode::OP_MUL {
                MultiplyOp::Unsigned
            } else {
                MultiplyOp::Signed
            };
            let f0 = regs0[FLAGS as int];
            if instr.operands@.len() == 3 {
                let a = raw16(operand_value(regs0, mem0, instr.operands@[1])) as int;
                let b = raw16(operand_value(regs0, mem0, instr.operands@[2])) as int;
                let p = multiply_result(kind, 16, a, b);
                &&& regs == operand_store(regs0, mem0, instr.operands@[0], Value::U16((p % 0x10000) as u16)).0.update(
                    FLAGS as int,
                    multiply_flags(kind, 16, a, b, f0),
                )
                &&& mem == mem0
                &&& halted == halted0
            } else {
                let a = regs0[AX as int] as int;
                let b = raw16(operand_value(regs0, mem0, instr.operands@[0])) as int;
                let p = multiply_result(kind, 16, a, b);
                &&& regs == regs0.update(AX as int, (p % 0x10000) as u16).update(DX as int, (p / 0x10000) as u16).update(
                    FLAGS as int,
                    multiply_flags(kind, 16, a, b, f0),
                )
                &&& mem == mem0
                &&& halted == halted0
            }
        },
        Opcode::OP_JO | Opcode::OP_JNO | Opcode::OP_JB | Opcode::OP_JAE | Opcode::OP_JE | Opcode::OP_JNE
        | Opcode::OP_JBE | Opcode::OP_JA | Opcode::OP_JS | Opcode::OP_JNS | Opcode::OP_JP | Opcode::OP_JNP
        | Opcode::OP_JL | Opcode::OP_JGE | Opcode::OP_JLE | Opcode::OP_JG | Opcode::OP_JCXZ | Opcode::OP_LOOP
        | Opcode::OP_LOOPE | Opcode::OP_LOOPNE | Opcode::OP_JMP | Opcode::OP_CALL | Opcode::OP_RET
        | Opcode::OP_JMPF | Opcode::OP_CALLF | Opcode::OP_RETF | Opcode::OP_IRET => {
            flow_done(instr, regs0, mem0, regs, mem) && halted == halted0
        },
        Opcode::OP_ADD | Opcode::OP_OR | Opcode::OP_ADC | Opcode::OP_SBB | Opcode::OP_AND | Opcode::OP_SUB
        | Opcode::OP_XOR | Opcode::OP_CMP => {
            let a = operand_value(regs0, mem0, instr.operands@[0]);
            let v = operand_value(regs0, mem0, instr.operands@[1]);
            let op = arith_binary(instr.opcode);
            let f0 = regs0[FLAGS as int];
            let res = pack(width(a), binary_result(op, width(a), raw16(a), raw16(v), f0));
            let stored = if instr.opcode == Opcode::OP_CMP {
                (regs0, mem0)
            } else {
                operand_store(regs0, mem0, instr.operands@[0], res)
            };
            &&& regs == stored.0.update(FLAGS as int, binary_flags(op, width(a), raw16(a), raw16(v), f0))
            &&& mem == stored.1
            &&& halted == halted0
        },
        _ => false,
    }
}

/// One step from `regs0` and `mem0` can lead to `regs` and `mem`: the
/// bytes at CS:IP decode to an instruction whose execution gives them.
pub open spec fn steps_to(regs0: Seq<u16>, mem0: Seq<u8>, regs: Seq<u16>, mem: Seq<u8>) -> bool {
    exists|instr: Instr, len: nat, h0: bool, h: bool|
        decodes_to(fetched(regs0, mem0), instr, len) && #[trigger] executes(
            instr,
            ip_advanced(regs0, len),
            mem0,
            h0,
            regs,
            mem,
            h,
        )
}

/// The registers and memory one step from `regs` and `mem` leads to, when
/// the bytes at CS:IP decode.
pub open spec fn step_result(regs: Seq<u16>, mem: Seq<u8>) -> (Seq<u16>, Seq<u8>) {
    choose|p: (Seq<u16>, Seq<u8>)| #[trigger] steps_to(regs, mem, p.0, p.1)
}

/// A step's registers and memory are determined by where it starts: any
/// execution of the decoded instruction gives `step_result`.
pub proof fn lemma_step_result(
    regs0: Seq<u16>,
    mem0: Seq<u8>,
    instr: Instr,
    len: nat,
    h0: bool,
    regs: Seq<u16>,
    mem: Seq<u8>,
    h: bool,
)
    requires
        decodes_to(fetched(regs0, mem0), instr, len),
        executes(instr, ip_advanced(regs0, len), mem0, h0, regs, mem, h),
    ensures
        step_result(regs0, mem0) == (regs, mem),
{
    assert(steps_to(regs0, mem0, (regs, mem).0, (regs, mem).1));
    let p = step_result(regs0, mem0);
    assert(steps_to(regs0, mem0, p.0, p.1));
    let (i2, l2, g0, g) = choose|i2: Instr, l2: nat, g0: bool, g: bool|
        decodes_to(fetched(regs0, mem0), i2, l2) && #[trigger] executes(
            i2,
            ip_advanced(regs0, l2),
            mem0,
            g0,
            p.0,
            p.1,
            g,
        );
    assert(i2.opcode == instr.opcode && i2.operands@ == instr.operands@ && i2.rep == instr.rep && l2 == len);
    lemma_executes_deterministic(instr, i2, ip_advanced(regs0, len), mem0, h0, g0, regs, mem, h, p.0, p.1, g);
}

/// Executing an instruction is deterministic: two instructions with the
/// same opcode, operands and prefix, run from the same registers and
/// memory, give the same registers and memory.
proof fn lemma_executes_deterministic(
    a: Instr,
    b: Instr,
    regs0: Seq<u16>,
    mem0: Seq<u8>,
    ha0: bool,
    hb0: bool,
    ra: Seq<u16>,
    ma: Seq<u8>,
    ha: bool,
    rb: Seq<u16>,
    mb: Seq<u8>,
    hb: bool,
)
    requires
        a.opcode == b.opcode,
        a.operands@ == b.operands@,
        a.rep == b.rep,
        executes(a, regs0, mem0, ha0, ra, ma, ha),
        executes(b, regs0, mem0, hb0, rb, mb, hb),
    ensures
        ra == rb,
        ma == mb,
{
    reveal(executes);
    reveal(flow_done);
}

/// Whether the CPU carries an instruction out depends only on its opcode
/// and operands.
proof fn lemma_executable_congruent(a: Instr, b: Instr)
    requires
        a.opcode == b.opcode,
        a.operands@ == b.operands@,
    ensures
        instr_executable(a) == instr_executable(b),
{
    reveal(instr_executable);
}

/// The instruction at CS:IP of `regs` and `mem` is a HLT.
pub open spec fn step_halts(regs: Seq<u16>, mem: Seq<u8>) -> bool {
    exists|instr: Instr, len: nat|
        #[trigger] decodes_to(fetched(regs, mem), instr, len) && instr.opcode == Opcode::OP_HLT
}

/// Only a HLT sets the halted flag; every other instruction keeps it.
proof fn lemma_executes_halted(
    instr: Instr,
    regs0: Seq<u16>,
    mem0: Seq<u8>,
    h0: bool,
    regs: Seq<u16>,
    mem: Seq<u8>,
    h: bool,
)
    requires
        executes(instr, regs0, mem0, h0, regs, mem, h),
    ensures
        h == (h0 || instr.opcode == Opcode::OP_HLT),
{
    reveal(executes);
}

/// The registers and memory after `n` steps from `regs` and `mem`.
pub open spec fn steps_after(regs: Seq<u16>, mem: Seq<u8>, n: nat) -> (Seq<u16>, Seq<u8>)
    decreases n,
{
    if n == 0 {
        (regs, mem)
    } else {
        let p = steps_after(regs, mem, (n - 1) as nat);
        step_result(p.0, p.1)
    }
}

/// The unary operation of INC, DEC, NOT or NEG.
pub open spec fn unary_kind(op: Opcode) -> UnaryOp {
    if op == Opcode::OP_INC {
        UnaryOp::Inc
    } else if op == Opcode::OP_DEC {
        UnaryOp::Dec
    } else if op == Opcode::OP_NOT {
        UnaryOp::Not
    } else {
        UnaryOp::Neg
    }
}

/// FLAGS after a flag instruction: CLC, STC, CLI, STI, CLD and STD clear
/// or set CF, IF and DF.
pub open spec fn flag_op(op: Opcode, f: u16) -> u16 {
    if op == Opcode::OP_CLC {
        f & !FLAG_CF
    } else if op == Opcode::OP_STC {
        f | FLAG_CF
    } else if op == Opcode::OP_CLI {
        f & !FLAG_IF
    } else if op == Opcode::OP_STI {
        f | FLAG_IF
    } else if op == Opcode::OP_CLD {
        f & !FLAG_DF
    } else {
        f | FLAG_DF
    }
}

/// The operand of INC, DEC, NOT or NEG: a register or memory operand.
pub open spec fn unary_operands(instr: Instr) -> bool {
    &&& instr.operands@.len() == 1
    &&& operand_ok(instr.operands@[0])
    &&& !(instr.operands@[0] is Imm)
}

/// The operand of PUSH: a word register, memory operand or immediate.
pub open spec fn push_operands(instr: Instr) -> bool {
    &&& instr.operands@.len() == 1
    &&& operand_ok(instr.operands@[0])
    &&& !operand_is_byte(instr.operands@[0])
}

/// The operand of POP: a word register or memory operand.
pub open spec fn pop_operands(instr: Instr) -> bool {
    &&& instr.operands@.len() == 1
    &&& operand_ok(instr.operands@[0])
    &&& !(instr.operands@[0] is Imm)
    &&& !operand_is_byte(instr.operands@[0])
}

/// The operands of the three-operand IMUL: a word register, a word
/// register or memory operand and an immediate word.
pub open spec fn imul3_operands(instr: Instr) -> bool {
    &&& instr.operands@.len() == 3
    &&& instr.operands@[0] is Reg
    &&& operand_ok(instr.operands@[0])
    &&& !operand_is_byte(instr.operands@[0])
    &&& operand_ok(instr.operands@[1])
    &&& !(instr.operands@[1] is Imm)
    &&& !operand_is_byte(instr.operands@[1])
    &&& instr.operands@[2] is Imm
    &&& instr.operands@[2]->Imm_0.sz is Size16
}

/// The operands of a two-operand arithmetic instruction: a register or
/// memory destination and a source of its width.
pub open spec fn arith_operands(instr: Instr) -> bool {
    &&& instr.operands@.len() == 2
    &&& operand_ok(instr.operands@[0])
    &&& operand_ok(instr.operands@[1])
    &&& !(instr.operands@[0] is Imm)
    &&& operand_is_byte(instr.operands@[0]) == operand_is_byte(instr.operands@[1])
}

/// The division a divide opcode performs.
pub open spec fn divide_kind(op: Opcode) -> DivideOp {
    if op == Opcode::OP_IDIV {
        DivideOp::Signed
    } else {
        DivideOp::Unsigned
    }
}

/// The double word DX:AX a word division divides.
pub open spec fn dividend(regs: Seq<u16>) -> u32 {
    (regs[DX as int] * 0x10000 + regs[AX as int]) as u32
}

/// Whether executing `instr` raises a divide error: a division whose
/// divisor is zero or whose quotient does not fit. The machine has no
/// exception delivery, so such a step fails and changes nothing.
pub open spec fn faults(instr: Instr, regs: Seq<u16>, mem: Seq<u8>) -> bool {
    (instr.opcode == Opcode::OP_DIV || instr.opcode == Opcode::OP_IDIV) && !divide_ok(
        divide_kind(instr.opcode),
        dividend(regs),
        raw16(operand_value(regs, mem, instr.operands@[0])),
    )
}

/// The operand of a division: a word register or word memory operand.
pub open spec fn divide_operands(instr: Instr) -> bool {
    &&& instr.operands@.len() == 1
    &&& operand_ok(instr.operands@[0])
    &&& !(instr.operands@[0] is Imm)
    &&& !operand_is_byte(instr.operands@[0])
}

/// The operands of XCHG: a register or memory operand and a register of
/// the same width.
pub open spec fn xchg_operands(instr: Instr) -> bool {
    &&& instr.operands@.len() == 2
    &&& operand_ok(instr.operands@[0])
    &&& operand_ok(instr.operands@[1])
    &&& !(instr.operands@[0] is Imm)
    &&& instr.operands@[1] is Reg
    &&& operand_is_byte(instr.operands@[0]) == operand_is_byte(instr.operands@[1])
}

/// The operands of MOV: a register or memory target and a source of its
/// width.
pub open spec fn mov_operands(instr: Instr) -> bool {
    &&& instr.operands@.len() == 2
    &&& operand_ok(instr.operands@[0])
    &&& operand_ok(instr.operands@[1])
    &&& !(instr.operands@[0] is Imm)
    &&& operand_is_byte(instr.operands@[0]) == operand_is_byte(instr.operands@[1])
}

/// The shift or rotation a shift opcode performs.
pub open spec fn shift_kind(op: Opcode) -> ShiftOp {
    match op {
        Opcode::OP_ROL => ShiftOp::Rol,
        Opcode::OP_SHR => ShiftOp::Shr,
        Opcode::OP_SAR => ShiftOp::Sar,
        _ => ShiftOp::Shl,
    }
}

fn shift_kind_exec(op: Opcode) -> (r: ShiftOp)
    ensures
        r == shift_kind(op),
{
    match op {
        Opcode::OP_ROL => ShiftOp::Rol,
        Opcode::OP_SHR => ShiftOp::Shr,
        Opcode::OP_SAR => ShiftOp::Sar,
        _ => ShiftOp::Shl,
    }
}

/// The low byte of a count operand.
pub open spec fn count_byte(v: Value) -> u8 {
    match v {
        Value::U8(x) => x,
        Value::U16(x) => (x % 0x100) as u8,
        Value::U32(x) => (x % 0x100) as u8,
    }
}

fn count_byte_exec(v: Value) -> (r: u8)
    ensures
        r == count_byte(v),
{
    match v {
        Value::U8(x) => x,
        Value::U16(x) => (x % 0x100) as u8,
        Value::U32(x) => (x % 0x100) as u8,
    }
}

/// The operands of a shift: a register or memory target and a count that
/// is an immediate byte or CL.
pub open spec fn shift_operands(instr: Instr) -> bool {
    &&& instr.operands@.len() == 2
    &&& operand_ok(instr.operands@[0])
    &&& !(instr.operands@[0] is Imm)
    &&& (instr.operands@[1] == Operand::Reg(OperandReg(Reg::CL)) || (instr.operands@[1] is Imm
        && instr.operands@[1]->Imm_0.sz is Size8))
}

/// The ALU operation an arithmetic opcode performs; CMP subtracts and
/// keeps only the flags.
pub open spec fn arith_binary(op: Opcode) -> BinaryOp {
    match op {
        Opcode::OP_ADD => BinaryOp::Add,
        Opcode::OP_OR => BinaryOp::Or,
        Opcode::OP_ADC => BinaryOp::Adc,
        Opcode::OP_SBB => BinaryOp::Sbb,
        Opcode::OP_AND => BinaryOp::And,
        Opcode::OP_XOR => BinaryOp::Xor,
        _ => BinaryOp::Sub,
    }
}

fn arith_binary_exec(op: Opcode) -> (r: BinaryOp)
    ensures
        r == arith_binary(op),
{
    match op {
        Opcode::OP_ADD => BinaryOp::Add,
        Opcode::OP_OR => BinaryOp::Or,
        Opcode::OP_ADC => BinaryOp::Adc,
        Opcode::OP_SBB => BinaryOp::Sbb,
        Opcode::OP_AND => BinaryOp::And,
        Opcode::OP_XOR => BinaryOp::Xor,
        _ => BinaryOp::Sub,
    }
}

/// Whether a step from `regs` and `mem` fails: the bytes at CS:IP do not
/// decode, or they decode to an instruction this CPU does not carry out,
/// or to a division that raises a divide error.
pub open spec fn step_fails(regs: Seq<u16>, mem: Seq<u8>) -> bool {
    let code = fetched(regs, mem);
    !decodable(code) || exists|instr: Instr, len: nat|
        decodes_to(code, instr, len) && (!instr_executable(instr) || faults(instr, ip_advanced(regs, len), mem))
}

/// The bytes at CS:IP decode to an instruction this CPU does not carry out.
pub open spec fn unimplemented_at(regs: Seq<u16>, mem: Seq<u8>) -> bool {
    exists|instr: Instr, len: nat| decodes_to(fetched(regs, mem), instr, len) && !instr_executable(instr)
}

/// A failing step reports "invalid or unsupported instruction" exactly
/// when the bytes do not decode.
pub proof fn lemma_undecodable_message(regs: Seq<u16>, mem: Seq<u8>)
    ensures
        (step_error(regs, mem) == "invalid or unsupported instruction"@) == !decodable(fetched(regs, mem)),
{
    reveal_strlit("unimplemented instruction");
    reveal_strlit("invalid or unsupported instruction");
    reveal_strlit("Divide Error");
    assert("unimplemented instruction"@.len() == 25);
    assert("invalid or unsupported instruction"@.len() == 34);
    assert("Divide Error"@.len() == 12);
}

/// The error a failing step from `regs` and `mem` reports: the bytes do
/// not decode, the instruction is not carried out, or the division
/// faults.
pub open spec fn step_error(regs: Seq<u16>, mem: Seq<u8>) -> Seq<char> {
    if !decodable(fetched(regs, mem)) {
        "invalid or unsupported instruction"@
    } else if unimplemented_at(regs, mem) {
        "unimplemented instruction"@
    } else {
        "Divide Error"@
    }
}

/// The instructions this CPU carries out, with the operands their
/// handlers need.
#[verifier::opaque]
pub open spec fn instr_executable(instr: Instr) -> bool {
    match instr.opcode {
        Opcode::OP_HLT => true,
        Opcode::OP_CMPS => string_operands_ok(instr) && instr.operands@[0] is Mem,
        Opcode::OP_MOVS | Opcode::OP_LODS => string_operands_ok(instr),
        Opcode::OP_STOS | Opcode::OP_SCAS => acc_string_operands_ok(instr),
        Opcode::OP_ROL | Opcode::OP_SHL | Opcode::OP_SHR | Opcode::OP_SAR => shift_operands(instr),
        Opcode::OP_XCHG => xchg_operands(instr),
        Opcode::OP_DIV | Opcode::OP_IDIV => divide_operands(instr),
        Opcode::OP_NOP | Opcode::OP_CLD | Opcode::OP_STD | Opcode::OP_CLC | Opcode::OP_STC | Opcode::OP_CLI
        | Opcode::OP_STI => true,
        Opcode::OP_INC | Opcode::OP_DEC | Opcode::OP_NOT | Opcode::OP_NEG => unary_operands(instr),
        Opcode::OP_TEST => arith_operands(instr),
        Opcode::OP_PUSH => push_operands(instr),
        Opcode::OP_POP => pop_operands(instr),
        Opcode::OP_JO | Opcode::OP_JNO | Opcode::OP_JB | Opcode::OP_JAE | Opcode::OP_JE | Opcode::OP_JNE
        | Opcode::OP_JBE | Opcode::OP_JA | Opcode::OP_JS | Opcode::OP_JNS | Opcode::OP_JP | Opcode::OP_JNP
        | Opcode::OP_JL | Opcode::OP_JGE | Opcode::OP_JLE | Opcode::OP_JG | Opcode::OP_JCXZ | Opcode::OP_LOOP
        | Opcode::OP_LOOPE | Opcode::OP_LOOPNE | Opcode::OP_JMP | Opcode::OP_CALL | Opcode::OP_RET
        | Opcode::OP_JMPF | Opcode::OP_CALLF | Opcode::OP_RETF | Opcode::OP_IRET => flow_operands(instr),
        Opcode::OP_MOV => mov_operands(instr),
        Opcode::OP_MUL => divide_operands(instr),
        Opcode::OP_IMUL => divide_operands(instr) || imul3_operands(instr),
        Opcode::OP_CBW | Opcode::OP_CWD | Opcode::OP_LEA | Opcode::OP_XLAT | Opcode::OP_LES | Opcode::OP_LDS
        | Opcode::OP_PUSHF | Opcode::OP_POPF | Opcode::OP_ENTER | Opcode::OP_LEAVE => misc_operands(instr),
        Opcode::OP_ADD | Opcode::OP_OR | Opcode::OP_ADC | Opcode::OP_SBB | Opcode::OP_AND | Opcode::OP_SUB
        | Opcode::OP_XOR | Opcode::OP_CMP => arith_operands(instr),
        _ => false,
    }
}

/// Whether the CPU carries out `instr` (see `instr_executable`).
fn executable(instr: &Instr) -> (r: bool)
    ensures
        r == instr_executable(*instr),
{
    proof {
        reveal(instr_executable);
    }
    let ops = &instr.operands;
    let n = ops.len();
    match instr.opcode {
        Opcode::OP_HLT | Opcode::OP_NOP | Opcode::OP_CLD | Opcode::OP_STD | Opcode::OP_CLC | Opcode::OP_STC
        | Opcode::OP_CLI | Opcode::OP_STI => true,
        Opcode::OP_CMPS => n >= 2 && matches!(ops[0], Operand::Mem(_)) && string_operands_exec(ops),
        Opcode::OP_MOVS | Opcode::OP_LODS => n >= 2 && string_operands_exec(ops),
        Opcode::OP_STOS | Opcode::OP_SCAS => {
            n >= 2 && matches!(ops[0], Operand::Mem(_)) && matches!(ops[1], Operand::Reg(_))
                && operand_ok_exec(&ops[0]) && operand_ok_exec(&ops[1]) && operand_is_byte_exec(&ops[0])
                == operand_is_byte_exec(&ops[1])
        },
        Opcode::OP_ROL | Opcode::OP_SHL | Opcode::OP_SHR | Opcode::OP_SAR => {
            n == 2 && operand_ok_exec(&ops[0]) && !matches!(ops[0], Operand::Imm(_)) && (ops[1]
                == Operand::Reg(OperandReg(Reg::CL)) || match ops[1] {
                Operand::Imm(i) => matches!(i.sz, Size::Size8),
                _ => false,
            })
        },
        Opcode::OP_XCHG => {
            n == 2 && operand_ok_exec(&ops[0]) && operand_ok_exec(&ops[1]) && !matches!(ops[0], Operand::Imm(_))
                && matches!(ops[1], Operand::Reg(_)) && operand_is_byte_exec(&ops[0]) == operand_is_byte_exec(
                &ops[1],
            )
        },
        Opcode::OP_DIV | Opcode::OP_IDIV | Opcode::OP_MUL => {
            n == 1 && operand_ok_exec(&ops[0]) && !matches!(ops[0], Operand::Imm(_)) && !operand_is_byte_exec(
                &ops[0],
            )
        },
        Opcode::OP_INC | Opcode::OP_DEC | Opcode::OP_NOT | Opcode::OP_NEG => {
            n == 1 && operand_ok_exec(&ops[0]) && !matches!(ops[0], Operand::Imm(_))
        },
        Opcode::OP_PUSH => n == 1 && operand_ok_exec(&ops[0]) && !operand_is_byte_exec(&ops[0]),
        Opcode::OP_POP => {
            n == 1 && operand_ok_exec(&ops[0]) && !matches!(ops[0], Operand::Imm(_)) && !operand_is_byte_exec(
                &ops[0],
            )
        },
        Opcode::OP_IMUL => {
            (n == 1 && operand_ok_exec(&ops[0]) && !matches!(ops[0], Operand::Imm(_)) && !operand_is_byte_exec(
                &ops[0],
            )) || (n == 3 && matches!(ops[0], Operand::Reg(_)) && operand_ok_exec(&ops[0]) && !operand_is_byte_exec(
                &ops[0],
            ) && operand_ok_exec(&ops[1]) && !matches!(ops[1], Operand::Imm(_)) && !operand_is_byte_exec(&ops[1])
                && match ops[2] {
                Operand::Imm(i) => matches!(i.sz, Size::Size16),
                _ => false,
            })
        },
        Opcode::OP_CBW | Opcode::OP_CWD | Opcode::OP_LEA | Opcode::OP_XLAT | Opcode::OP_LES | Opcode::OP_LDS
        | Opcode::OP_PUSHF | Opcode::OP_POPF | Opcode::OP_ENTER | Opcode::OP_LEAVE => misc_operands_exec(instr),
        Opcode::OP_JO | Opcode::OP_JNO | Opcode::OP_JB | Opcode::OP_JAE | Opcode::OP_JE | Opcode::OP_JNE
        | Opcode::OP_JBE | Opcode::OP_JA | Opcode::OP_JS | Opcode::OP_JNS | Opcode::OP_JP | Opcode::OP_JNP
        | Opcode::OP_JL | Opcode::OP_JGE | Opcode::OP_JLE | Opcode::OP_JG | Opcode::OP_JCXZ | Opcode::OP_LOOP
        | Opcode::OP_LOOPE | Opcode::OP_LOOPNE | Opcode::OP_JMP | Opcode::OP_CALL | Opcode::OP_RET
        | Opcode::OP_JMPF | Opcode::OP_CALLF | Opcode::OP_RETF | Opcode::OP_IRET => flow_operands_exec(instr),
        Opcode::OP_MOV | Opcode::OP_ADD | Opcode::OP_OR | Opcode::OP_ADC | Opcode::OP_SBB | Opcode::OP_AND
        | Opcode::OP_SUB | Opcode::OP_XOR | Opcode::OP_CMP | Opcode::OP_TEST => {
            n == 2 && operand_ok_exec(&ops[0]) && operand_ok_exec(&ops[1]) && !matches!(ops[0], Operand::Imm(_))
                && operand_is_byte_exec(&ops[0]) == operand_is_byte_exec(&ops[1])
        },
        _ => false,
    }
}

/// The operand check shared by MOVS, LODS and CMPS (see `string_operands_ok`).
fn string_operands_exec(ops: &Vec<Operand>) -> (r: bool)
    requires
        ops.len() >= 2,
    ensures
        r == (ops@[1] is Mem && operand_ok(ops@[0]) && operand_ok(ops@[1]) && !(ops@[0] is Imm)
            && operand_is_byte(ops@[0]) == operand_is_byte(ops@[1])),
{
    matches!(ops[1], Operand::Mem(_)) && operand_ok_exec(&ops[0]) && operand_ok_exec(&ops[1]) && !matches!(
        ops[0],
        Operand::Imm(_),
    ) && operand_is_byte_exec(&ops[0]) == operand_is_byte_exec(&ops[1])
}

impl Machine {
    /// Fetches the bytes at CS:IP.
    fn fetch(&self) -> (r: Vec<u8>)
        requires
            self.wf(),
        ensures
            r@ == fetched(self.regs(), self.mem.0@),
    {
        let addr = self.instr_addr();
        let mut code: Vec<u8> = Vec::new();
        let mut i: usize = 0;
        while i < FETCH_LEN
            invariant
                i <= FETCH_LEN,
                self.wf(),
                addr == reg_addr(self.regs(), CS, IP),
                code@ == fetched(self.regs(), self.mem.0@).subrange(0, i as int),
            decreases FETCH_LEN - i,
        {
            let a = addr.add_offset(i as u16);
            let b = self.mem.read_u8(a);
            code.push(b);
            i = i + 1;
            assert(code@ =~= fetched(self.regs(), self.mem.0@).subrange(0, i as int));
        }
        assert(code@ =~= fetched(self.regs(), self.mem.0@));
        code
    }

    /// Carries out a decoded instruction.
    #[verifier::spinoff_prover]
    #[verifier::rlimit(100)]
    fn execute(&mut self, instr: &Instr) -> (r: Result<(), String>)
        requires
            old(self).wf(),
            instr_executable(*instr),
            !faults(*instr, old(self).regs(), old(self).mem.0@),
        ensures
            r is Ok,
            final(self).wf(),
            executes(
                *instr,
                old(self).regs(),
                old(self).mem.0@,
                old(self).halted,
                final(self).regs(),
                final(self).mem.0@,
                final(self).halted,
            ),
            final(self).exec_count == old(self).exec_count,
            final(self).interrupt_vectors == old(self).interrupt_vectors,
            final(self).psp_segment == old(self).psp_segment,
    {
        proof {
            reveal(executes);
            reveal(instr_executable);
        }
        match instr.opcode {
            Opcode::OP_MOVS => self.opcode_movs(instr),
            Opcode::OP_CMPS => self.opcode_cmps(instr),
            Opcode::OP_LODS => self.opcode_lods(instr),
            Opcode::OP_STOS => self.opcode_stos(instr),
            Opcode::OP_SCAS => self.opcode_scas(instr),
            Opcode::OP_HLT => {
                self.halted = true;
                Ok(())
            },
            Opcode::OP_ROL | Opcode::OP_SHL | Opcode::OP_SHR | Opcode::OP_SAR => {
                let a = self.operand_read(instr, 0);
                let c = self.operand_read(instr, 1);
                let n = count_byte_exec(c);
                let f = self.flag_read_all();
                let op = shift_kind_exec(instr.opcode);
                let (res, nf) = shift(op, a, n, f);
                self.operand_write(instr, 0, res);
                self.flag_write_all(nf);
                Ok(())
            },
            Opcode::OP_XCHG => {
                let a = self.operand_read(instr, 0);
                let c = self.operand_read(instr, 1);
                self.operand_write(instr, 0, c);
                self.operand_write(instr, 1, a);
                Ok(())
            },
            Opcode::OP_DIV | Opcode::OP_IDIV => {
                let b = self.operand_read(instr, 0);
                let a = self.dividend_exec();
                let f = self.flag_read_all();
                let op = if instr.opcode == Opcode::OP_IDIV {
                    DivideOp::Signed
                } else {
                    DivideOp::Unsigned
                };
                let (q, r, nf) = divmod(op, Value::U32(a), b, f);
                self.reg_write_u16(AX, q.unwrap_u16());
                self.reg_write_u16(DX, r.unwrap_u16());
                self.flag_write_all(nf);
                Ok(())
            },
            Opcode::OP_NOP => Ok(()),
            Opcode::OP_INC | Opcode::OP_DEC | Opcode::OP_NOT | Opcode::OP_NEG | Opcode::OP_PUSH | Opcode::OP_POP => {
                self.opcode_unary_stack(instr);
                Ok(())
            },
            Opcode::OP_CLC | Opcode::OP_STC | Opcode::OP_CLI | Opcode::OP_STI | Opcode::OP_CLD | Opcode::OP_STD => {
                let f = self.flag_read_all();
                let nf = match instr.opcode {
                    Opcode::OP_CLC => f.0 & !FLAG_CF,
                    Opcode::OP_STC => f.0 | FLAG_CF,
                    Opcode::OP_CLI => f.0 & !FLAG_IF,
                    Opcode::OP_STI => f.0 | FLAG_IF,
                    Opcode::OP_CLD => f.0 & !FLAG_DF,
                    _ => f.0 | FLAG_DF,
                };
                self.flag_write_all(Flags(nf));
                Ok(())
            },
            Opcode::OP_TEST => {
                let a = self.operand_read(instr, 0);
                let v = self.operand_read(instr, 1);
                let f = self.flag_read_all();
                let (_, nf) = binary(BinaryOp::And, a, v, f);
                self.flag_write_all(nf);
                Ok(())
            },
            Opcode::OP_MOV => {
                let v = self.operand_read(instr, 1);
                self.operand_write(instr, 0, v);
                Ok(())
            },
            Opcode::OP_MUL | Opcode::OP_IMUL => {
                self.opcode_mul(instr);
                Ok(())
            },
            Opcode::OP_CBW | Opcode::OP_CWD | Opcode::OP_LEA | Opcode::OP_XLAT | Opcode::OP_LES | Opcode::OP_LDS
            | Opcode::OP_PUSHF | Opcode::OP_POPF | Opcode::OP_ENTER | Opcode::OP_LEAVE => {
                self.opcode_misc(instr);
                Ok(())
            },
            Opcode::OP_JO | Opcode::OP_JNO | Opcode::OP_JB | Opcode::OP_JAE | Opcode::OP_JE | Opcode::OP_JNE
            | Opcode::OP_JBE | Opcode::OP_JA | Opcode::OP_JS | Opcode::OP_JNS | Opcode::OP_JP | Opcode::OP_JNP
            | Opcode::OP_JL | Opcode::OP_JGE | Opcode::OP_JLE | Opcode::OP_JG | Opcode::OP_JCXZ | Opcode::OP_LOOP
            | Opcode::OP_LOOPE | Opcode::OP_LOOPNE | Opcode::OP_JMP | Opcode::OP_CALL | Opcode::OP_RET
            | Opcode::OP_JMPF | Opcode::OP_CALLF | Opcode::OP_RETF | Opcode::OP_IRET => {
                self.opcode_flow(instr);
                Ok(())
            },
            Opcode::OP_ADD | Opcode::OP_OR | Opcode::OP_ADC | Opcode::OP_SBB | Opcode::OP_AND | Opcode::OP_SUB
            | Opcode::OP_XOR | Opcode::OP_CMP => {
                let a = self.operand_read(instr, 0);
                let v = self.operand_read(instr, 1);
                let f = self.flag_read_all();
                let op = arith_binary_exec(instr.opcode);
                let (res, nf) = binary(op, a, v, f);
                if instr.opcode != Opcode::OP_CMP {
                    self.operand_write(instr, 0, res);
                }
                self.flag_write_all(nf);
                Ok(())
            },
            _ => Ok(()),
        }
    }

    /// INC, DEC, NOT, NEG, PUSH and POP.
    fn opcode_unary_stack(&mut self, instr: &Instr)
        requires
            old(self).wf(),
            instr.opcode == Opcode::OP_INC || instr.opcode == Opcode::OP_DEC || instr.opcode == Opcode::OP_NOT
                || instr.opcode == Opcode::OP_NEG || instr.opcode == Opcode::OP_PUSH || instr.opcode == Opcode::OP_POP,
            instr_executable(*instr),
        ensures
            final(self).wf(),
            executes(
                *instr,
                old(self).regs(),
                old(self).mem.0@,
                old(self).halted,
                final(self).regs(),
                final(self).mem.0@,
                final(self).halted,
            ),
            final(self).exec_count == old(self).exec_count,
            final(self).interrupt_vectors == old(self).interrupt_vectors,
            final(self).psp_segment == old(self).psp_segment,
    {
        proof {
            reveal(executes);
            reveal(instr_executable);
        }
        if instr.opcode == Opcode::OP_PUSH {
            let v = self.operand_read(instr, 0);
            let w = match v {
                Value::U16(x) => x,
                _ => 0,
            };
            self.stack_push_u16(w);
        } else if instr.opcode == Opcode::OP_POP {
            let v = self.stack_pop_u16();
            self.operand_write(instr, 0, Value::U16(v));
        } else {
            let a = self.operand_read(instr, 0);
            let f = self.flag_read_all();
            let op = if instr.opcode == Opcode::OP_INC {
                UnaryOp::Inc
            } else if instr.opcode == Opcode::OP_DEC {
                UnaryOp::Dec
            } else if instr.opcode == Opcode::OP_NOT {
                UnaryOp::Not
            } else {
                UnaryOp::Neg
            };
            let (res, nf) = unary(op, a, f);
            self.operand_write(instr, 0, res);
            self.flag_write_all(nf);
        }
    }

    /// Word MUL and IMUL: DX:AX gets AX times the operand; the
    /// three-operand IMUL stores the low word of the product of its second
    /// and third operands in the first.
    fn opcode_mul(&mut self, instr: &Instr)
        requires
            old(self).wf(),
            instr.opcode == Opcode::OP_MUL || instr.opcode == Opcode::OP_IMUL,
            divide_operands(*instr) || (instr.opcode == Opcode::OP_IMUL && imul3_operands(*instr)),
        ensures
            final(self).wf(),
            executes(
                *instr,
                old(self).regs(),
                old(self).mem.0@,
                old(self).halted,
                final(self).regs(),
                final(self).mem.0@,
                final(self).halted,
            ),
            final(self).exec_count == old(self).exec_count,
            final(self).interrupt_vectors == old(self).interrupt_vectors,
            final(self).psp_segment == old(self).psp_segment,
    {
        proof {
            reveal(executes);
        }
        let kind = if instr.opcode == Opcode::OP_MUL {
            MultiplyOp::Unsigned
        } else {
            MultiplyOp::Signed
        };
        let three = instr.operands.len() == 3;
        let (a, b) = if three {
            (self.operand_read(instr, 1), self.operand_read(instr, 2))
        } else {
            (Value::U16(self.reg_read_u16(AX)), self.operand_read(instr, 0))
        };
        let f = self.flag_read_all();
        let (p, nf) = multiply(kind, a, b, f);
        let pw: u32 = match p {
            Value::U32(x) => x,
            Value::U16(x) => x as u32,
            Value::U8(x) => x as u32,
        };
        proof {
            let aa = raw(a);
            let bb = raw(b);
            assert(a is U16 && b is U16);
            assert(0 <= aa * bb <= 0xffff * 0xffff) by (nonlinear_arith)
                requires
                    0 <= aa <= 0xffff,
                    0 <= bb <= 0xffff,
            ;
            assert(0 <= multiply_result(kind, 16, aa, bb) < 0x1_0000_0000);
            assert(pw == multiply_result(kind, 16, aa, bb));
            assert(aa == raw16(a) && bb == raw16(b));
        }
        if three {
            self.operand_write(instr, 0, Value::U16((pw % 0x10000) as u16));
        } else {
            self.reg_write_u16(AX, (pw % 0x10000) as u16);
            self.reg_write_u16(DX, (pw / 0x10000) as u16);
        }
        self.flag_write_all(nf);
    }

    /// DX:AX as a double word.
    fn dividend_exec(&self) -> (r: u32)
        ensures
            r == dividend(self.regs()),
    {
        (self.cpu.regs[DX] as u32) * 0x10000 + (self.cpu.regs[AX] as u32)
    }

    /// Whether executing `instr` now would raise a divide error.
    fn divide_faults(&self, instr: &Instr) -> (r: bool)
        requires
            self.wf(),
            instr_executable(*instr),
        ensures
            r == faults(*instr, self.regs(), self.mem.0@),
    {
        proof {
            reveal(instr_executable);
        }
        if instr.opcode != Opcode::OP_DIV && instr.opcode != Opcode::OP_IDIV {
            return false;
        }
        let b = self.operand_read(instr, 0);
        let bw = match b {
            Value::U16(x) => x,
            Value::U8(x) => x as u16,
            Value::U32(x) => x as u16,
        };
        let a = self.dividend_exec();
        let op = if instr.opcode == Opcode::OP_IDIV {
            DivideOp::Signed
        } else {
            DivideOp::Unsigned
        };
        !divide_fits(op, a, bw)
    }

    /// Executes one instruction: decodes the bytes at CS:IP, advances IP
    /// past them, carries the instruction out and counts it. Bytes that do
    /// not decode, an instruction this CPU does not carry out and a
    /// division that raises a divide error give an error and change
    /// nothing.
    #[verifier::spinoff_prover]
    #[verifier::rlimit(60)]
    pub fn step(&mut self) -> (r: Result<(), String>)
        requires
            old(self).wf(),
            old(self).exec_count < u64::MAX,
        ensures
            final(self).wf(),
            r is Err <==> step_fails(old(self).regs(), old(self).mem.0@),
            r matches Err(e) ==> e@ == step_error(old(self).regs(), old(self).mem.0@),
            r is Err ==> final(self).regs() == old(self).regs() && final(self).mem == old(self).mem
                && final(self).halted == old(self).halted && final(self).exec_count == old(self).exec_count,
            r is Ok ==> final(self).exec_count == old(self).exec_count + 1,
            r is Ok ==> exists|instr: Instr, len: nat|
                decodes_to(fetched(old(self).regs(), old(self).mem.0@), instr, len) && executes(
                    instr,
                    ip_advanced(old(self).regs(), len),
                    old(self).mem.0@,
                    old(self).halted,
                    final(self).regs(),
                    final(self).mem.0@,
                    final(self).halted,
                ),
            r is Ok ==> step_result(old(self).regs(), old(self).mem.0@) == (
                final(self).regs(),
                final(self).mem.0@,
            ),
            r is Ok ==> final(self).halted == (old(self).halted || step_halts(old(self).regs(), old(self).mem.0@)),
            final(self).interrupt_vectors == old(self).interrupt_vectors,
            final(self).psp_segment == old(self).psp_segment,
    {
        let code = self.fetch();
        let decoded = decode_one(code.as_slice());
        let (instr, len) = match decoded {
            Some(d) => d,
            None => {
                return Err("invalid or unsupported instruction".to_owned());
            },
        };
        proof {
            crate::decode::lemma_scan_bound(code@, 0, None, None);
            assert forall|i2: Instr, l2: nat| decodes_to(code@, i2, l2) implies i2.opcode == instr.opcode
                && i2.operands@ == instr.operands@ && l2 == len by {}
        }
        if !executable(&instr) {
            proof {
                lemma_executable_congruent(instr, instr);
                assert(unimplemented_at(old(self).regs(), old(self).mem.0@));
            }
            return Err("unimplemented instruction".to_owned());
        }
        let ip = self.reg_read_u16(IP);
        self.reg_write_u16(IP, ip.wrapping_add(len as u16));
        let ghost regs0 = self.regs();
        let ghost mem0 = self.mem.0@;
        let ghost halted0 = self.halted;
        assert(regs0 == ip_advanced(old(self).regs(), len as nat));
        assert(!unimplemented_at(old(self).regs(), old(self).mem.0@)) by {
            assert forall|i2: Instr, l2: nat| decodes_to(fetched(old(self).regs(), old(self).mem.0@), i2, l2)
                implies instr_executable(i2) by {
                lemma_executable_congruent(instr, i2);
            }
        }
        if self.divide_faults(&instr) {
            self.reg_write_u16(IP, ip);
            assert(self.regs() =~= old(self).regs());
            return Err("Divide Error".to_owned());
        }
        proof {
            assert forall|i2: Instr, l2: nat|
                decodes_to(fetched(old(self).regs(), old(self).mem.0@), i2, l2) implies !faults(
                i2,
                ip_advanced(old(self).regs(), l2),
                old(self).mem.0@,
            ) by {
                assert(i2.opcode == instr.opcode && i2.operands@ == instr.operands@ && l2 == len);
            }
        }
        let result = self.execute(&instr);
        match result {
            Ok(()) => {},
            Err(e) => {
                return Err(e);
            },
        }
        self.exec_count = self.exec_count + 1;
        assert(executes(instr, regs0, mem0, halted0, self.regs(), self.mem.0@, self.halted));
        proof {
            lemma_step_result(
                old(self).regs(),
                old(self).mem.0@,
                instr,
                len as nat,
                halted0,
                self.regs(),
                self.mem.0@,
                self.halted,
            );
            lemma_executes_halted(instr, regs0, mem0, halted0, self.regs(), self.mem.0@, self.halted);
            if step_halts(old(self).regs(), old(self).mem.0@) {
                let (i2, l2) = choose|i2: Instr, l2: nat|
                    #[trigger] decodes_to(fetched(old(self).regs(), old(self).mem.0@), i2, l2) && i2.opcode
                        == Opcode::OP_HLT;
                assert(i2.opcode == instr.opcode);
            }
            if instr.opcode == Opcode::OP_HLT {
                assert(decodes_to(fetched(old(self).regs(), old(self).mem.0@), instr, len as nat));
            }
        }
        Ok(())
    }
}

} // verus!
