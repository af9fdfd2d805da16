use vstd::prelude::*;
use crate::decode::{byte_sext, modrm_mem, modrm_operand, rm_reg, sreg_of, string_dest, string_source, word_at, decode_modrm, dest, modrm_mem_exec, rm_reg_exec, source};
use crate::instr::{Instr, Opcode, Operand, OperandImm, OperandMem, OperandReg, Reg, Rep, Size};

verus! {

/// An immediate byte operand.
pub open spec fn imm_byte(x: u8) -> Operand {
    Operand::Imm(OperandImm { sz: Size::Size8, val: x as u16 })
}

/// An immediate word operand.
pub open spec fn imm_word(w: u16) -> Operand {
    Operand::Imm(OperandImm { sz: Size::Size16, val: w })
}

/// A register operand.
pub open spec fn reg_op(r: Reg) -> Operand {
    Operand::Reg(OperandReg(r))
}

/// The conditional jump of opcode 70 + k: O, NO, B, AE, E, NE, BE, A, S,
/// NS, P, NP, L, GE, LE, G.
pub open spec fn jcc_of(k: int) -> Opcode {
    if k == 0 {
        Opcode::OP_JO
    } else if k == 1 {
        Opcode::OP_JNO
    } else if k == 2 {
        Opcode::OP_JB
    } else if k == 3 {
        Opcode::OP_JAE
    } else if k == 4 {
        Opcode::OP_JE
    } else if k == 5 {
        Opcode::OP_JNE
    } else if k == 6 {
        Opcode::OP_JBE
    } else if k == 7 {
        Opcode::OP_JA
    } else if k == 8 {
        Opcode::OP_JS
    } else if k == 9 {
        Opcode::OP_JNS
    } else if k == 10 {
        Opcode::OP_JP
    } else if k == 11 {
        Opcode::OP_JNP
    } else if k == 12 {
        Opcode::OP_JL
    } else if k == 13 {
        Opcode::OP_JGE
    } else if k == 14 {
        Opcode::OP_JLE
    } else {
        Opcode::OP_JG
    }
}

/// The counted jump of opcode E0 + k: LOOPNE, LOOPE, LOOP, JCXZ.
pub open spec fn loop_of(k: int) -> Opcode {
    if k == 0 {
        Opcode::OP_LOOPNE
    } else if k == 1 {
        Opcode::OP_LOOPE
    } else if k == 2 {
        Opcode::OP_LOOP
    } else {
        Opcode::OP_JCXZ
    }
}

/// Control transfers without a ModRM byte: Jcc (70..7F) and LOOPNE, LOOPE,
/// LOOP, JCXZ (E0..E3) with a displacement byte; CALL (E8) and JMP (E9)
/// with a displacement word; far JMP (EA) and far CALL (9A) with an
/// offset word then a segment word; RET (C3), RET imm16 (C2), RETF (CB),
/// RETF imm16 (CA); INT 3 (CC), INT imm8 (CD), INTO (CE), IRET (CF);
/// ENTER imm16, imm8 (C8) and LEAVE (C9).
pub open spec fn flow_group(b: Seq<u8>, i: int, rep: Option<Rep>) -> Option<(Opcode, Seq<Operand>, nat)> {
    let op = b[i];
    if 0x70 <= op < 0x80 || 0xe0 <= op < 0xe4 || op == 0xcd {
        if i + 1 < b.len() {
            let opcode = if op < 0x80 {
                jcc_of(op - 0x70)
            } else if op == 0xcd {
                Opcode::OP_INT
            } else {
                loop_of(op - 0xe0)
            };
            Some((opcode, seq![imm_byte(b[i + 1])], (i + 2) as nat))
        } else {
            None
        }
    } else if op == 0xe8 || op == 0xe9 || op == 0xc2 || op == 0xca {
        if i + 2 < b.len() {
            let opcode = if op == 0xe8 {
                Opcode::OP_CALL
            } else if op == 0xe9 {
                Opcode::OP_JMP
            } else if op == 0xc2 {
                Opcode::OP_RET
            } else {
                Opcode::OP_RETF
            };
            Some((opcode, seq![imm_word(word_at(b, i + 1))], (i + 3) as nat))
        } else {
            None
        }
    } else if op == 0xea || op == 0x9a {
        if i + 4 < b.len() {
            let opcode = if op == 0xea {
                Opcode::OP_JMPF
            } else {
                Opcode::OP_CALLF
            };
            Some((opcode, seq![imm_word(word_at(b, i + 1)), imm_word(word_at(b, i + 3))], (i + 5) as nat))
        } else {
            None
        }
    } else if op == 0xc8 {
        if i + 3 < b.len() {
            Some((Opcode::OP_ENTER, seq![imm_word(word_at(b, i + 1)), imm_byte(b[i + 3])], (i + 4) as nat))
        } else {
            None
        }
    } else if op == 0xcc {
        Some((Opcode::OP_INT, seq![imm_byte(3)], (i + 1) as nat))
    } else if op == 0xc3 || op == 0xcb || op == 0xce || op == 0xcf || op == 0xc9 {
        let opcode = if op == 0xc3 {
            Opcode::OP_RET
        } else if op == 0xcb {
            Opcode::OP_RETF
        } else if op == 0xce {
            Opcode::OP_INTO
        } else if op == 0xcf {
            Opcode::OP_IRET
        } else {
            Opcode::OP_LEAVE
        };
        Some((opcode, seq![], (i + 1) as nat))
    } else {
        None
    }
}

/// The operand-less one-byte forms: DAA (27), DAS (2F), AAA (37), AAS
/// (3F), PUSHA (60), POPA (61), CBW (98), CWD (99), PUSHF (9C), POPF (9D),
/// SAHF (9E), LAHF (9F), CMC (F5), CLC (F8), STC (F9), CLI (FA), STI (FB).
pub open spec fn bare_opcode(op: u8) -> Option<Opcode> {
    if op == 0x27 {
        Some(Opcode::OP_DAA)
    } else if op == 0x2f {
        Some(Opcode::OP_DAS)
    } else if op == 0x37 {
        Some(Opcode::OP_AAA)
    } else if op == 0x3f {
        Some(Opcode::OP_AAS)
    } else if op == 0x60 {
        Some(Opcode::OP_PUSHA)
    } else if op == 0x61 {
        Some(Opcode::OP_POPA)
    } else if op == 0x98 {
        Some(Opcode::OP_CBW)
    } else if op == 0x99 {
        Some(Opcode::OP_CWD)
    } else if op == 0x9c {
        Some(Opcode::OP_PUSHF)
    } else if op == 0x9d {
        Some(Opcode::OP_POPF)
    } else if op == 0x9e {
        Some(Opcode::OP_SAHF)
    } else if op == 0x9f {
        Some(Opcode::OP_LAHF)
    } else if op == 0xf5 {
        Some(Opcode::OP_CMC)
    } else if op == 0xf8 {
        Some(Opcode::OP_CLC)
    } else if op == 0xf9 {
        Some(Opcode::OP_STC)
    } else if op == 0xfa {
        Some(Opcode::OP_CLI)
    } else if op == 0xfb {
        Some(Opcode::OP_STI)
    } else {
        None
    }
}

/// The memory operand of XLAT: the byte table at `seg:[BX]`, DS unless
/// overridden; the CPU indexes it with AL.
pub open spec fn xlat_table(seg: Option<Reg>) -> Operand {
    Operand::Mem(
        OperandMem {
            sz: Size::Size8,
            sreg: match seg {
                Some(s) => s,
                None => Reg::DS,
            },
            reg1: Some(Reg::BX),
            reg2: None,
            off: None,
        },
    )
}

/// The one-byte forms without an immediate: INS (6C byte, 6D word, to
/// `ES:[DI]` from port DX) and OUTS (6E, 6F, from the string source to
/// port DX); PUSH of ES, CS, SS, DS (06,
/// 0E, 16, 1E) and POP of ES, SS, DS (07, 17, 1F); XLAT (D7); IN of AL or
/// AX from port DX (EC, ED) and OUT to port DX (EE, EF); and the forms of
/// `bare_opcode`.
pub open spec fn plain_group(b: Seq<u8>, i: int, seg: Option<Reg>, rep: Option<Rep>) -> Option<(Opcode, Seq<Operand>, nat)> {
    let op = b[i];
    let end = (i + 1) as nat;
    let sz = if op % 2 == 0 {
        Size::Size8
    } else {
        Size::Size16
    };
    let acc = reg_op(
        if op % 2 == 0 {
            Reg::AL
        } else {
            Reg::AX
        },
    );
    if 0x6c <= op < 0x6e {
        Some((Opcode::OP_INS, seq![string_dest(sz), reg_op(Reg::DX)], end))
    } else if 0x6e <= op < 0x70 {
        Some((Opcode::OP_OUTS, seq![reg_op(Reg::DX), string_source(sz, seg)], end))
    } else if op == 0x06 || op == 0x0e || op == 0x16 || op == 0x1e {
        Some((Opcode::OP_PUSH, seq![reg_op(sreg_of((op / 8) as int))], end))
    } else if op == 0x07 || op == 0x17 || op == 0x1f {
        Some((Opcode::OP_POP, seq![reg_op(sreg_of((op / 8) as int))], end))
    } else if op == 0xd7 {
        Some((Opcode::OP_XLAT, seq![xlat_table(seg)], end))
    } else if 0xec <= op < 0xee {
        Some((Opcode::OP_IN, seq![acc, reg_op(Reg::DX)], end))
    } else if 0xee <= op < 0xf0 {
        Some((Opcode::OP_OUT, seq![reg_op(Reg::DX), acc], end))
    } else {
        match bare_opcode(op) {
            Some(o) => Some((o, seq![], end)),
            None => None,
        }
    }
}

/// The one-byte forms with an immediate: PUSH of a sign-extended byte
/// (6A); MOV between AL or AX and a direct address (A0, A1 load, A2, A3
/// store; DS unless overridden); TEST of AL with a byte (A8) and of AX
/// with a word (A9); IN of AL or AX from an immediate port (E4, E5) and
/// OUT to one (E6, E7).
pub open spec fn imm_group(b: Seq<u8>, i: int, seg: Option<Reg>, rep: Option<Rep>) -> Option<(Opcode, Seq<Operand>, nat)> {
    let op = b[i];
    let sz = if op % 2 == 0 {
        Size::Size8
    } else {
        Size::Size16
    };
    let acc = reg_op(
        if op % 2 == 0 {
            Reg::AL
        } else {
            Reg::AX
        },
    );
    if (op == 0x6a || op == 0xa8 || (0xe4 <= op < 0xe8)) && i + 1 < b.len() {
        let x = b[i + 1];
        if op == 0x6a {
            Some((Opcode::OP_PUSH, seq![imm_word(byte_sext(x))], (i + 2) as nat))
        } else if op == 0xa8 {
            Some((Opcode::OP_TEST, seq![acc, imm_byte(x)], (i + 2) as nat))
        } else if op < 0xe6 {
            Some((Opcode::OP_IN, seq![acc, imm_byte(x)], (i + 2) as nat))
        } else {
            Some((Opcode::OP_OUT, seq![imm_byte(x), acc], (i + 2) as nat))
        }
    } else if (0xa0 <= op < 0xa4 || op == 0xa9) && i + 2 < b.len() {
        let w = word_at(b, i + 1);
        let m = modrm_mem(sz, 0, 6, seg, Some(w));
        if op == 0xa9 {
            Some((Opcode::OP_TEST, seq![acc, imm_word(w)], (i + 3) as nat))
        } else if op < 0xa2 {
            Some((Opcode::OP_MOV, seq![acc, m], (i + 3) as nat))
        } else {
            Some((Opcode::OP_MOV, seq![m, acc], (i + 3) as nat))
        }
    } else {
        None
    }
}

/// Further forms with a ModRM byte at `i + 1`: TEST of a register or
/// memory operand with a register (84 byte, 85 word); MOV of a segment
/// register to a word operand (8C); LEA (8D) of a memory operand into a
/// word register; POP to a word operand (8F /0); LES and LDS (C4, C5) of a
/// far pointer in memory; IMUL of a word operand by an immediate word
/// (69) or sign-extended byte (6B) into a word register.
pub open spec fn modrm_more(b: Seq<u8>, i: int, seg: Option<Reg>, rep: Option<Rep>) -> Option<(Opcode, Seq<Operand>, nat)> {
    let op = b[i];
    let r = ((b[i + 1] / 8) % 8) as int;
    let md = b[i + 1] / 64;
    let sz = if op % 2 == 0 {
        Size::Size8
    } else {
        Size::Size16
    };
    let reg16 = reg_op(rm_reg(r, Size::Size16));
    if i + 1 >= b.len() {
        None
    } else if op == 0x84 || op == 0x85 {
        match modrm_operand(b, i + 1, sz, seg) {
            Some((t, n)) => Some((Opcode::OP_TEST, seq![t, reg_op(rm_reg(r, sz))], (i + 1 + n) as nat)),
            None => None,
        }
    } else if (op == 0x8c && r < 4) || (op == 0x8d && md != 3) || (op == 0x8f && r == 0) {
        match modrm_operand(b, i + 1, Size::Size16, seg) {
            Some((t, n)) => {
                let ops = if op == 0x8c {
                    seq![t, reg_op(sreg_of(r))]
                } else if op == 0x8d {
                    seq![reg16, t]
                } else {
                    seq![t]
                };
                let opcode = if op == 0x8c {
                    Opcode::OP_MOV
                } else if op == 0x8d {
                    Opcode::OP_LEA
                } else {
                    Opcode::OP_POP
                };
                Some((opcode, ops, (i + 1 + n) as nat))
            },
            None => None,
        }
    } else if (op == 0xc4 || op == 0xc5) && md != 3 {
        match modrm_operand(b, i + 1, Size::Size32, seg) {
            Some((t, n)) => Some(
                (
                    if op == 0xc4 {
                        Opcode::OP_LES
                    } else {
                        Opcode::OP_LDS
                    },
                    seq![reg16, t],
                    (i + 1 + n) as nat,
                ),
            ),
            None => None,
        }
    } else if op == 0x69 || op == 0x6b {
        match modrm_operand(b, i + 1, Size::Size16, seg) {
            Some((t, n)) => {
                let end = i + 1 + n;
                if op == 0x69 && end + 1 < b.len() {
                    Some((Opcode::OP_IMUL, seq![reg16, t, imm_word(word_at(b, end))], (end + 2) as nat))
                } else if op == 0x6b && end < b.len() {
                    Some((Opcode::OP_IMUL, seq![reg16, t, imm_word(byte_sext(b[end]))], (end + 1) as nat))
                } else {
                    None
                }
            },
            None => None,
        }
    } else {
        None
    }
}

/// The one-operand form a group-3, -4 or -5 opcode and reg field select:
/// F6 /2..7 NOT, NEG, MUL, IMUL, DIV, IDIV of a byte; F7 /2, /3, /5 NOT,
/// NEG, IMUL of a word (the other word forms are decoded with the
/// division); FE /0, /1 INC, DEC of a byte; FF /0..4, /6 INC, DEC, CALL,
/// far CALL (memory only), JMP, PUSH of a word.
pub open spec fn unary_form(op: u8, r: int, md: u8) -> Option<Opcode> {
    if op == 0xf6 && 2 <= r {
        Some(
            if r == 2 {
                Opcode::OP_NOT
            } else if r == 3 {
                Opcode::OP_NEG
            } else if r == 4 {
                Opcode::OP_MUL
            } else if r == 5 {
                Opcode::OP_IMUL
            } else if r == 6 {
                Opcode::OP_DIV
            } else {
                Opcode::OP_IDIV
            },
        )
    } else if op == 0xf7 && (r == 2 || r == 3 || r == 5) {
        Some(
            if r == 2 {
                Opcode::OP_NOT
            } else if r == 3 {
                Opcode::OP_NEG
            } else {
                Opcode::OP_IMUL
            },
        )
    } else if (op == 0xfe || op == 0xff) && r < 2 {
        Some(
            if r == 0 {
                Opcode::OP_INC
            } else {
                Opcode::OP_DEC
            },
        )
    } else if op == 0xff && (r == 2 || (r == 3 && md != 3) || r == 4 || r == 6) {
        Some(
            if r == 2 {
                Opcode::OP_CALL
            } else if r == 3 {
                Opcode::OP_CALLF
            } else if r == 4 {
                Opcode::OP_JMP
            } else {
                Opcode::OP_PUSH
            },
        )
    } else {
        None
    }
}

/// Groups 3 to 5 with a ModRM byte at `i + 1`: TEST of a byte or word
/// operand with an immediate of its width (F6, F7 /0 and /1), and the
/// forms of `unary_form`; even opcodes take a byte operand, odd ones a
/// word.
pub open spec fn group_345(b: Seq<u8>, i: int, seg: Option<Reg>, rep: Option<Rep>) -> Option<(Opcode, Seq<Operand>, nat)> {
    let op = b[i];
    let r = ((b[i + 1] / 8) % 8) as int;
    let md = b[i + 1] / 64;
    let sz = if op % 2 == 0 {
        Size::Size8
    } else {
        Size::Size16
    };
    if i + 1 >= b.len() {
        None
    } else if (op == 0xf6 || op == 0xf7) && r < 2 {
        match modrm_operand(b, i + 1, sz, seg) {
            Some((t, n)) => {
                let end = i + 1 + n;
                if op == 0xf6 && end < b.len() {
                    Some((Opcode::OP_TEST, seq![t, imm_byte(b[end])], (end + 1) as nat))
                } else if op == 0xf7 && end + 1 < b.len() {
                    Some((Opcode::OP_TEST, seq![t, imm_word(word_at(b, end))], (end + 2) as nat))
                } else {
                    None
                }
            },
            None => None,
        }
    } else {
        match unary_form(op, r, md) {
            Some(opcode) => match modrm_operand(b, i + 1, sz, seg) {
                Some((t, n)) => Some((opcode, seq![t], (i + 1 + n) as nat)),
                None => None,
            },
            None => None,
        }
    }
}

fn jcc_exec(k: u8) -> (r: Opcode)
    requires
        k < 16,
    ensures
        r == jcc_of(k as int),
{
    match k {
        0 => Opcode::OP_JO,
        1 => Opcode::OP_JNO,
        2 => Opcode::OP_JB,
        3 => Opcode::OP_JAE,
        4 => Opcode::OP_JE,
        5 => Opcode::OP_JNE,
        6 => Opcode::OP_JBE,
        7 => Opcode::OP_JA,
        8 => Opcode::OP_JS,
        9 => Opcode::OP_JNS,
        10 => Opcode::OP_JP,
        11 => Opcode::OP_JNP,
        12 => Opcode::OP_JL,
        13 => Opcode::OP_JGE,
        14 => Opcode::OP_JLE,
        _ => Opcode::OP_JG,
    }
}

fn word_exec(b: &[u8], i: usize) -> (w: u16)
    requires
        i + 1 < b@.len(),
    ensures
        w == word_at(b@, i as int),
{
    b[i] as u16 + 0x100 * (b[i + 1] as u16)
}

fn imm_byte_exec(x: u8) -> (o: Operand)
    ensures
        o == imm_byte(x),
{
    Operand::Imm(OperandImm { sz: Size::Size8, val: x as u16 })
}

fn imm_word_exec(w: u16) -> (o: Operand)
    ensures
        o == imm_word(w),
{
    Operand::Imm(OperandImm { sz: Size::Size16, val: w })
}

/// Decodes a control transfer whose opcode byte is at `i` (see
/// `flow_group`).
pub(crate) fn decode_flow_group(b: &[u8], i: usize, rep: Option<Rep>) -> (r: Option<(Instr, usize)>)
    requires
        i < b@.len(),
    ensures
        r is Some <==> flow_group(b@, i as int, rep) is Some,
        r matches Some((instr, len)) ==> flow_group(b@, i as int, rep) matches Some((opc, ops, n))
            && instr.opcode == opc && instr.operands@ == ops && instr.rep == rep && len == n,
{
    let op = b[i];
    let (opcode, operands, len): (Opcode, Vec<Operand>, usize) = if (0x70 <= op && op < 0x80) || (0xe0 <= op
        && op < 0xe4) || op == 0xcd {
        if b.len() - i <= 1 {
            return None;
        }
        let opcode = if op < 0x80 {
            jcc_exec(op - 0x70)
        } else if op == 0xcd {
            Opcode::OP_INT
        } else if op == 0xe0 {
            Opcode::OP_LOOPNE
        } else if op == 0xe1 {
            Opcode::OP_LOOPE
        } else if op == 0xe2 {
            Opcode::OP_LOOP
        } else {
            Opcode::OP_JCXZ
        };
        (opcode, vec![imm_byte_exec(b[i + 1])], i + 2)
    } else if op == 0xe8 || op == 0xe9 || op == 0xc2 || op == 0xca {
        if b.len() - i <= 2 {
            return None;
        }
        let opcode = if op == 0xe8 {
            Opcode::OP_CALL
        } else if op == 0xe9 {
            Opcode::OP_JMP
        } else if op == 0xc2 {
            Opcode::OP_RET
        } else {
            Opcode::OP_RETF
        };
        (opcode, vec![imm_word_exec(word_exec(b, i + 1))], i + 3)
    } else if op == 0xea || op == 0x9a {
        if b.len() - i <= 4 {
            return None;
        }
        let opcode = if op == 0xea {
            Opcode::OP_JMPF
        } else {
            Opcode::OP_CALLF
        };
        (opcode, vec![imm_word_exec(word_exec(b, i + 1)), imm_word_exec(word_exec(b, i + 3))], i + 5)
    } else if op == 0xc8 {
        if b.len() - i <= 3 {
            return None;
        }
        (Opcode::OP_ENTER, vec![imm_word_exec(word_exec(b, i + 1)), imm_byte_exec(b[i + 3])], i + 4)
    } else if op == 0xcc {
        (Opcode::OP_INT, vec![imm_byte_exec(3)], i + 1)
    } else if op == 0xc3 || op == 0xcb || op == 0xce || op == 0xcf || op == 0xc9 {
        let opcode = if op == 0xc3 {
            Opcode::OP_RET
        } else if op == 0xcb {
            Opcode::OP_RETF
        } else if op == 0xce {
            Opcode::OP_INTO
        } else if op == 0xcf {
            Opcode::OP_IRET
        } else {
            Opcode::OP_LEAVE
        };
        (opcode, Vec::new(), i + 1)
    } else {
        return None;
    };
    proof {
        assert(operands@ =~= flow_group(b@, i as int, rep).unwrap().1);
    }
    Some((Instr { rep, opcode, operands }, len))
}


fn reg_op_exec(r: Reg) -> (o: Operand)
    ensures
        o == reg_op(r),
{
    Operand::Reg(OperandReg(r))
}

fn sreg_exec(r: u8) -> (res: Reg)
    ensures
        res == sreg_of(r as int),
{
    if r == 0 {
        Reg::ES
    } else if r == 1 {
        Reg::CS
    } else if r == 2 {
        Reg::SS
    } else {
        Reg::DS
    }
}

fn sext_exec(x: u8) -> (w: u16)
    ensures
        w == byte_sext(x),
{
    if x >= 0x80 {
        x as u16 + 0xff00
    } else {
        x as u16
    }
}

fn bare_opcode_exec(op: u8) -> (r: Option<Opcode>)
    ensures
        r == bare_opcode(op),
{
    match op {
        0x27 => Some(Opcode::OP_DAA),
        0x2f => Some(Opcode::OP_DAS),
        0x37 => Some(Opcode::OP_AAA),
        0x3f => Some(Opcode::OP_AAS),
        0x60 => Some(Opcode::OP_PUSHA),
        0x61 => Some(Opcode::OP_POPA),
        0x98 => Some(Opcode::OP_CBW),
        0x99 => Some(Opcode::OP_CWD),
        0x9c => Some(Opcode::OP_PUSHF),
        0x9d => Some(Opcode::OP_POPF),
        0x9e => Some(Opcode::OP_SAHF),
        0x9f => Some(Opcode::OP_LAHF),
        0xf5 => Some(Opcode::OP_CMC),
        0xf8 => Some(Opcode::OP_CLC),
        0xf9 => Some(Opcode::OP_STC),
        0xfa => Some(Opcode::OP_CLI),
        0xfb => Some(Opcode::OP_STI),
        _ => None,
    }
}

/// Decodes a one-byte form without an immediate whose opcode byte is at
/// `i` (see `plain_group`).
pub(crate) fn decode_plain_group(b: &[u8], i: usize, seg: Option<Reg>, rep: Option<Rep>) -> (r: Option<(Instr, usize)>)
    requires
        i < b@.len(),
    ensures
        r is Some <==> plain_group(b@, i as int, seg, rep) is Some,
        r matches Some((instr, len)) ==> plain_group(b@, i as int, seg, rep) matches Some((opc, ops, n))
            && instr.opcode == opc && instr.operands@ == ops && instr.rep == rep && len == n,
{
    let op = b[i];
    let sz = if op % 2 == 0 {
        Size::Size8
    } else {
        Size::Size16
    };
    let acc = reg_op_exec(
        if op % 2 == 0 {
            Reg::AL
        } else {
            Reg::AX
        },
    );
    let (opcode, operands): (Opcode, Vec<Operand>) = if 0x6c <= op && op < 0x6e {
        (Opcode::OP_INS, vec![dest(sz), reg_op_exec(Reg::DX)])
    } else if 0x6e <= op && op < 0x70 {
        (Opcode::OP_OUTS, vec![reg_op_exec(Reg::DX), source(sz, seg)])
    } else if op == 0x06 || op == 0x0e || op == 0x16 || op == 0x1e {
        (Opcode::OP_PUSH, vec![reg_op_exec(sreg_exec(op / 8))])
    } else if op == 0x07 || op == 0x17 || op == 0x1f {
        (Opcode::OP_POP, vec![reg_op_exec(sreg_exec(op / 8))])
    } else if op == 0xd7 {
        let sreg = match seg {
            Some(s) => s,
            None => Reg::DS,
        };
        (
            Opcode::OP_XLAT,
            vec![Operand::Mem(OperandMem { sz: Size::Size8, sreg, reg1: Some(Reg::BX), reg2: None, off: None })],
        )
    } else if 0xec <= op && op < 0xee {
        (Opcode::OP_IN, vec![acc, reg_op_exec(Reg::DX)])
    } else if 0xee <= op && op < 0xf0 {
        (Opcode::OP_OUT, vec![reg_op_exec(Reg::DX), acc])
    } else {
        match bare_opcode_exec(op) {
            Some(o) => (o, Vec::new()),
            None => {
                return None;
            },
        }
    };
    proof {
        assert(operands@ =~= plain_group(b@, i as int, seg, rep).unwrap().1);
    }
    Some((Instr { rep, opcode, operands }, i + 1))
}

/// Decodes a one-byte form with an immediate whose opcode byte is at `i`
/// (see `imm_group`).
pub(crate) fn decode_imm_group(b: &[u8], i: usize, seg: Option<Reg>, rep: Option<Rep>) -> (r: Option<(Instr, usize)>)
    requires
        i < b@.len(),
    ensures
        r is Some <==> imm_group(b@, i as int, seg, rep) is Some,
        r matches Some((instr, len)) ==> imm_group(b@, i as int, seg, rep) matches Some((opc, ops, n))
            && instr.opcode == opc && instr.operands@ == ops && instr.rep == rep && len == n,
{
    let op = b[i];
    let sz = if op % 2 == 0 {
        Size::Size8
    } else {
        Size::Size16
    };
    let acc = reg_op_exec(
        if op % 2 == 0 {
            Reg::AL
        } else {
            Reg::AX
        },
    );
    let (opcode, operands, len): (Opcode, Vec<Operand>, usize) = if (op == 0x6a || op == 0xa8 || (0xe4 <= op
        && op < 0xe8)) && b.len() - i > 1 {
        let x = b[i + 1];
        if op == 0x6a {
            (Opcode::OP_PUSH, vec![imm_word_exec(sext_exec(x))], i + 2)
        } else if op == 0xa8 {
            (Opcode::OP_TEST, vec![acc, imm_byte_exec(x)], i + 2)
        } else if op < 0xe6 {
            (Opcode::OP_IN, vec![acc, imm_byte_exec(x)], i + 2)
        } else {
            (Opcode::OP_OUT, vec![imm_byte_exec(x), acc], i + 2)
        }
    } else if ((0xa0 <= op && op < 0xa4) || op == 0xa9) && b.len() - i > 2 {
        let w = word_exec(b, i + 1);
        if op == 0xa9 {
            (Opcode::OP_TEST, vec![acc, imm_word_exec(w)], i + 3)
        } else {
            let m = modrm_mem_exec(sz, 0, 6, seg, Some(w));
            if op < 0xa2 {
                (Opcode::OP_MOV, vec![acc, m], i + 3)
            } else {
                (Opcode::OP_MOV, vec![m, acc], i + 3)
            }
        }
    } else {
        return None;
    };
    proof {
        assert(operands@ =~= imm_group(b@, i as int, seg, rep).unwrap().1);
    }
    Some((Instr { rep, opcode, operands }, len))
}

/// Decodes TEST, MOV from a segment register, LEA, POP to memory, LES,
/// LDS or IMUL by an immediate whose opcode byte is at `i` (see
/// `modrm_more`).
pub(crate) fn decode_modrm_more(b: &[u8], i: usize, seg: Option<Reg>, rep: Option<Rep>) -> (r: Option<(Instr, usize)>)
    requires
        i < b@.len(),
    ensures
        r is Some <==> modrm_more(b@, i as int, seg, rep) is Some,
        r matches Some((instr, len)) ==> modrm_more(b@, i as int, seg, rep) matches Some((opc, ops, n))
            && instr.opcode == opc && instr.operands@ == ops && instr.rep == rep && len == n,
{
    if b.len() - i <= 1 {
        return None;
    }
    let op = b[i];
    let r = (b[i + 1] / 8) % 8;
    let md = b[i + 1] / 64;
    let sz = if op % 2 == 0 {
        Size::Size8
    } else {
        Size::Size16
    };
    let reg16 = reg_op_exec(rm_reg_exec(r, Size::Size16));
    let (opcode, operands, len): (Opcode, Vec<Operand>, usize) = if op == 0x84 || op == 0x85 {
        let (t, n) = match decode_modrm(b, i + 1, sz, seg) {
            Some(d) => d,
            None => {
                return None;
            },
        };
        (Opcode::OP_TEST, vec![t, reg_op_exec(rm_reg_exec(r, sz))], i + 1 + n)
    } else if (op == 0x8c && r < 4) || (op == 0x8d && md != 3) || (op == 0x8f && r == 0) {
        let (t, n) = match decode_modrm(b, i + 1, Size::Size16, seg) {
            Some(d) => d,
            None => {
                return None;
            },
        };
        if op == 0x8c {
            (Opcode::OP_MOV, vec![t, reg_op_exec(sreg_exec(r))], i + 1 + n)
        } else if op == 0x8d {
            (Opcode::OP_LEA, vec![reg16, t], i + 1 + n)
        } else {
            (Opcode::OP_POP, vec![t], i + 1 + n)
        }
    } else if (op == 0xc4 || op == 0xc5) && md != 3 {
        let (t, n) = match decode_modrm(b, i + 1, Size::Size32, seg) {
            Some(d) => d,
            None => {
                return None;
            },
        };
        let opcode = if op == 0xc4 {
            Opcode::OP_LES
        } else {
            Opcode::OP_LDS
        };
        (opcode, vec![reg16, t], i + 1 + n)
    } else if op == 0x69 || op == 0x6b {
        let (t, n) = match decode_modrm(b, i + 1, Size::Size16, seg) {
            Some(d) => d,
            None => {
                return None;
            },
        };
        let end = i + 1 + n;
        if op == 0x69 && b.len() - end > 1 {
            (Opcode::OP_IMUL, vec![reg16, t, imm_word_exec(word_exec(b, end))], end + 2)
        } else if op == 0x6b && end < b.len() {
            (Opcode::OP_IMUL, vec![reg16, t, imm_word_exec(sext_exec(b[end]))], end + 1)
        } else {
            return None;
        }
    } else {
        return None;
    };
    proof {
        assert(operands@ =~= modrm_more(b@, i as int, seg, rep).unwrap().1);
    }
    Some((Instr { rep, opcode, operands }, len))
}

fn unary_form_exec(op: u8, r: u8, md: u8) -> (res: Option<Opcode>)
    ensures
        res == unary_form(op, r as int, md),
{
    if op == 0xf6 && 2 <= r {
        Some(
            if r == 2 {
                Opcode::OP_NOT
            } else if r == 3 {
                Opcode::OP_NEG
            } else if r == 4 {
                Opcode::OP_MUL
            } else if r == 5 {
                Opcode::OP_IMUL
            } else if r == 6 {
                Opcode::OP_DIV
            } else {
                Opcode::OP_IDIV
            },
        )
    } else if op == 0xf7 && (r == 2 || r == 3 || r == 5) {
        Some(
            if r == 2 {
                Opcode::OP_NOT
            } else if r == 3 {
                Opcode::OP_NEG
            } else {
                Opcode::OP_IMUL
            },
        )
    } else if (op == 0xfe || op == 0xff) && r < 2 {
        Some(
            if r == 0 {
                Opcode::OP_INC
            } else {
                Opcode::OP_DEC
            },
        )
    } else if op == 0xff && (r == 2 || (r == 3 && md != 3) || r == 4 || r == 6) {
        Some(
            if r == 2 {
                Opcode::OP_CALL
            } else if r == 3 {
                Opcode::OP_CALLF
            } else if r == 4 {
                Opcode::OP_JMP
            } else {
                Opcode::OP_PUSH
            },
        )
    } else {
        None
    }
}

/// Decodes a group-3, -4 or -5 form whose opcode byte is at `i` (see
/// `group_345`).
pub(crate) fn decode_group_345(b: &[u8], i: usize, seg: Option<Reg>, rep: Option<Rep>) -> (r: Option<(Instr, usize)>)
    requires
        i < b@.len(),
    ensures
        r is Some <==> group_345(b@, i as int, seg, rep) is Some,
        r matches Some((instr, len)) ==> group_345(b@, i as int, seg, rep) matches Some((opc, ops, n))
            && instr.opcode == opc && instr.operands@ == ops && instr.rep == rep && len == n,
{
    if b.len() - i <= 1 {
        return None;
    }
    let op = b[i];
    let r = (b[i + 1] / 8) % 8;
    let md = b[i + 1] / 64;
    let sz = if op % 2 == 0 {
        Size::Size8
    } else {
        Size::Size16
    };
    let (opcode, operands, len): (Opcode, Vec<Operand>, usize) = if (op == 0xf6 || op == 0xf7) && r < 2 {
        let (t, n) = match decode_modrm(b, i + 1, sz, seg) {
            Some(d) => d,
            None => {
                return None;
            },
        };
        let end = i + 1 + n;
        if op == 0xf6 && end < b.len() {
            (Opcode::OP_TEST, vec![t, imm_byte_exec(b[end])], end + 1)
        } else if op == 0xf7 && b.len() - end > 1 {
            (Opcode::OP_TEST, vec![t, imm_word_exec(word_exec(b, end))], end + 2)
        } else {
            return None;
        }
    } else {
        let opcode = match unary_form_exec(op, r, md) {
            Some(o) => o,
            None => {
                return None;
            },
        };
        let (t, n) = match decode_modrm(b, i + 1, sz, seg) {
            Some(d) => d,
            None => {
                return None;
            },
        };
        (opcode, vec![t], i + 1 + n)
    };
    proof {
        assert(operands@ =~= group_345(b@, i as int, seg, rep).unwrap().1);
    }
    Some((Instr { rep, opcode, operands }, len))
}

} // verus!
