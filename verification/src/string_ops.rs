use vstd::prelude::*;
use crate::cpu::{CX, DI, FLAGS, SI};
use crate::flags::{has_bit, FLAG_DF};
use crate::instr::{Instr, Operand, Size, operand_ok, operand_is_byte};
use crate::machine::Machine;

verus! {

/// A machine state as the string instructions see it: registers and memory.
pub type StrState = (Seq<u16>, Seq<u8>);

/// The element size a string instruction moves, from its source operand.
pub open spec fn elem_size(ops: Seq<Operand>) -> int {
    match ops[1] {
        Operand::Mem(m) => if m.sz is Size8 {
            1
        } else {
            2
        },
        _ => 0,
    }
}

/// The step added to SI/DI after each element: the element size, negated
/// when the direction flag is set.
pub open spec fn string_inc(flags: u16, size: int) -> u16 {
    if has_bit(flags, FLAG_DF) {
        (0x10000 - size) as u16
    } else {
        size as u16
    }
}

/// The registers with `inc` added to register `idx`, modulo 64 KiB.
pub open spec fn advance(regs: Seq<u16>, idx: int, inc: u16) -> Seq<u16> {
    regs.update(idx, ((regs[idx] + inc) % 0x10000) as u16)
}

/// The number of elements a string instruction processes: CX under a REP
/// prefix, one otherwise.
pub open spec fn string_count(instr: Instr, regs: Seq<u16>) -> u16 {
    if instr.rep is Some {
        regs[CX as int]
    } else {
        1
    }
}

/// The operands a string instruction works on are well formed: the source
/// (operand 1) is a byte or word memory operand and the destination
/// (operand 0) is a location of the same width.
pub open spec fn string_operands_ok(instr: Instr) -> bool {
    &&& instr.operands.len() >= 2
    &&& instr.operands@[1] is Mem
    &&& operand_ok(instr.operands@[0])
    &&& operand_ok(instr.operands@[1])
    &&& !(instr.operands@[0] is Imm)
    &&& operand_is_byte(instr.operands@[0]) == operand_is_byte(instr.operands@[1])
}

/// The element size and the SI/DI step of a string instruction.
pub(crate) fn string_step_of(m: &Machine, instr: &Instr) -> (r: (u16, u16))
    requires
        string_operands_ok(*instr),
    ensures
        r.0 == elem_size(instr.operands@),
        r.1 == string_inc(m.regs()[FLAGS as int], elem_size(instr.operands@)),
{
    let size: u16 = match instr.operands[1] {
        Operand::Mem(mem) => match mem.sz {
            Size::Size8 => 1,
            _ => 2,
        },
        _ => 1,
    };
    let dir = m.flag_read(FLAG_DF);
    let inc = if !dir {
        size
    } else {
        0u16.wrapping_sub(size)
    };
    (size, inc)
}

/// The element size of an accumulator string instruction (STOS, SCAS),
/// from its memory operand.
pub open spec fn dest_size(ops: Seq<Operand>) -> int {
    match ops[0] {
        Operand::Mem(m) => if m.sz is Size8 {
            1
        } else {
            2
        },
        _ => 0,
    }
}

/// The operands of an accumulator string instruction are well formed: a
/// byte or word memory operand (operand 0) and a register of its width.
pub open spec fn acc_string_operands_ok(instr: Instr) -> bool {
    &&& instr.operands.len() >= 2
    &&& instr.operands@[0] is Mem
    &&& instr.operands@[1] is Reg
    &&& operand_ok(instr.operands@[0])
    &&& operand_ok(instr.operands@[1])
    &&& operand_is_byte(instr.operands@[0]) == operand_is_byte(instr.operands@[1])
}

/// The DI step of an accumulator string instruction.
pub(crate) fn acc_string_step_of(m: &Machine, instr: &Instr) -> (r: u16)
    requires
        acc_string_operands_ok(*instr),
    ensures
        r == string_inc(m.regs()[FLAGS as int], dest_size(instr.operands@)),
{
    let size: u16 = match instr.operands[0] {
        Operand::Mem(mem) => match mem.sz {
            Size::Size8 => 1,
            _ => 2,
        },
        _ => 1,
    };
    if !m.flag_read(FLAG_DF) {
        size
    } else {
        0u16.wrapping_sub(size)
    }
}

} // verus!
