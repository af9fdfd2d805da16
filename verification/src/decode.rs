use vstd::prelude::*;
use crate::instr::{Instr, Opcode, Operand, OperandImm, OperandMem, OperandReg, Reg, Rep, Size};
use crate::decode_more::{flow_group, plain_group, imm_group, modrm_more, group_345, decode_flow_group, decode_plain_group, decode_imm_group, decode_modrm_more, decode_group_345};

verus! {

/// The segment register a segment-override prefix byte selects.
pub open spec fn seg_prefix(x: u8) -> Option<Reg> {
    if x == 0x26 {
        Some(Reg::ES)
    } else if x == 0x2e {
        Some(Reg::CS)
    } else if x == 0x36 {
        Some(Reg::SS)
    } else if x == 0x3e {
        Some(Reg::DS)
    } else {
        None
    }
}

/// Reads the prefixes from byte `i` on: the last segment override and the
/// last REP prefix seen win. Gives them and the index of the opcode byte,
/// or `None` when the bytes end before an opcode.
pub open spec fn scan_prefixes(b: Seq<u8>, i: nat, seg: Option<Reg>, rep: Option<Rep>) -> Option<
    (Option<Reg>, Option<Rep>, nat),
>
    decreases b.len() - i,
{
    if i >= b.len() {
        None
    } else if seg_prefix(b[i as int]) is Some {
        scan_prefixes(b, i + 1, seg_prefix(b[i as int]), rep)
    } else if b[i as int] == 0xf3 {
        scan_prefixes(b, i + 1, seg, Some(Rep::EQ))
    } else if b[i as int] == 0xf2 {
        scan_prefixes(b, i + 1, seg, Some(Rep::NE))
    } else {
        Some((seg, rep, i))
    }
}

/// The source operand of a string instruction: `seg:[SI]`, DS unless
/// overridden.
pub open spec fn string_source(sz: Size, seg: Option<Reg>) -> Operand {
    Operand::Mem(
        OperandMem {
            sz,
            sreg: match seg {
                Some(s) => s,
                None => Reg::DS,
            },
            reg1: Some(Reg::SI),
            reg2: None,
            off: None,
        },
    )
}

/// The destination operand of a string instruction: always `ES:[DI]`; an
/// override prefix applies only to the source.
pub open spec fn string_dest(sz: Size) -> Operand {
    Operand::Mem(OperandMem { sz, sreg: Reg::ES, reg1: Some(Reg::DI), reg2: None, off: None })
}

/// The opcode and operands an opcode byte decodes to, among those this
/// decoder knows: MOVS, CMPS, LODS, STOS, SCAS and HLT.
pub open spec fn opcode_of(op: u8, seg: Option<Reg>) -> Option<(Opcode, Seq<Operand>)> {
    let sz = if op % 2 == 0 {
        Size::Size8
    } else {
        Size::Size16
    };
    if op == 0xa4 || op == 0xa5 {
        Some((Opcode::OP_MOVS, seq![string_dest(sz), string_source(sz, seg)]))
    } else if op == 0xa6 || op == 0xa7 {
        Some((Opcode::OP_CMPS, seq![string_dest(sz), string_source(sz, seg)]))
    } else if op == 0xac || op == 0xad {
        Some(
            (
                Opcode::OP_LODS,
                seq![
                    Operand::Reg(OperandReg(if op == 0xac { Reg::AL } else { Reg::AX })),
                    string_source(sz, seg),
                ],
            ),
        )
    } else if op == 0xaa || op == 0xab {
        Some((Opcode::OP_STOS, seq![string_dest(sz), Operand::Reg(OperandReg(if op == 0xaa { Reg::AL } else { Reg::AX }))]))
    } else if op == 0xae || op == 0xaf {
        Some((Opcode::OP_SCAS, seq![string_dest(sz), Operand::Reg(OperandReg(if op == 0xae { Reg::AL } else { Reg::AX }))]))
    } else if op == 0xf4 {
        Some((Opcode::OP_HLT, seq![]))
    } else {
        None
    }
}

/// The arithmetic operation of row `k` of the first quarter of the opcode
/// map: ADD, OR, ADC, SBB, AND, SUB, XOR, CMP.
pub open spec fn arith_of(k: int) -> Opcode {
    if k == 0 {
        Opcode::OP_ADD
    } else if k == 1 {
        Opcode::OP_OR
    } else if k == 2 {
        Opcode::OP_ADC
    } else if k == 3 {
        Opcode::OP_SBB
    } else if k == 4 {
        Opcode::OP_AND
    } else if k == 5 {
        Opcode::OP_SUB
    } else if k == 6 {
        Opcode::OP_XOR
    } else {
        Opcode::OP_CMP
    }
}

/// An arithmetic operation of the accumulator with an immediate: opcode
/// `8k + 4` takes AL and an immediate byte, `8k + 5` AX and an immediate
/// word (little-endian). Gives the opcode, the operands and the length up
/// to the end of the immediate, when the bytes hold it all. As for every
/// form but the string instructions, a REP prefix is kept and has no effect.
pub open spec fn acc_imm(b: Seq<u8>, i: nat, rep: Option<Rep>) -> Option<(Opcode, Seq<Operand>, nat)> {
    let op = b[i as int];
    if op < 0x40 && op % 8 == 4 && i + 1 < b.len() {
        Some(
            (
                arith_of((op / 8) as int),
                seq![
                    Operand::Reg(OperandReg(Reg::AL)),
                    Operand::Imm(OperandImm { sz: Size::Size8, val: b[i + 1int] as u16 }),
                ],
                i + 2,
            ),
        )
    } else if op < 0x40 && op % 8 == 5 && i + 2 < b.len() {
        Some(
            (
                arith_of((op / 8) as int),
                seq![
                    Operand::Reg(OperandReg(Reg::AX)),
                    Operand::Imm(OperandImm { sz: Size::Size16, val: (b[i + 1int] + 0x100 * b[i + 2int]) as u16 }),
                ],
                i + 3,
            ),
        )
    } else {
        None
    }
}

/// The register a ModRM register field names at the given width.
pub open spec fn rm_reg(r: int, sz: Size) -> Reg {
    if sz is Size8 {
        if r == 0 {
            Reg::AL
        } else if r == 1 {
            Reg::CL
        } else if r == 2 {
            Reg::DL
        } else if r == 3 {
            Reg::BL
        } else if r == 4 {
            Reg::AH
        } else if r == 5 {
            Reg::CH
        } else if r == 6 {
            Reg::DH
        } else {
            Reg::BH
        }
    } else {
        if r == 0 {
            Reg::AX
        } else if r == 1 {
            Reg::CX
        } else if r == 2 {
            Reg::DX
        } else if r == 3 {
            Reg::BX
        } else if r == 4 {
            Reg::SP
        } else if r == 5 {
            Reg::BP
        } else if r == 6 {
            Reg::SI
        } else {
            Reg::DI
        }
    }
}

/// The little-endian word at byte `i`.
pub open spec fn word_at(b: Seq<u8>, i: int) -> u16 {
    (b[i] + 0x100 * b[i + 1]) as u16
}

/// A byte displacement sign-extended to a word.
pub open spec fn disp8(x: u8) -> u16 {
    if x >= 0x80 {
        (x + 0xff00) as u16
    } else {
        x as u16
    }
}

/// The memory operand of a ModRM byte with mode 0 to 2: the base and
/// index registers its r/m field names (BP-based forms default to SS), an
/// overriding segment, and the displacement that follows; mode 0 with
/// r/m 6 is a bare 16-bit address.
pub open spec fn modrm_mem(sz: Size, md: int, rm: int, seg: Option<Reg>, disp: Option<u16>) -> Operand {
    let (r1, r2): (Option<Reg>, Option<Reg>) = if md == 0 && rm == 6 {
        (None, None)
    } else if rm == 0 {
        (Some(Reg::BX), Some(Reg::SI))
    } else if rm == 1 {
        (Some(Reg::BX), Some(Reg::DI))
    } else if rm == 2 {
        (Some(Reg::BP), Some(Reg::SI))
    } else if rm == 3 {
        (Some(Reg::BP), Some(Reg::DI))
    } else if rm == 4 {
        (Some(Reg::SI), None)
    } else if rm == 5 {
        (Some(Reg::DI), None)
    } else if rm == 6 {
        (Some(Reg::BP), None)
    } else {
        (Some(Reg::BX), None)
    };
    let default_seg = if (rm == 2 || rm == 3 || rm == 6) && !(md == 0 && rm == 6) {
        Reg::SS
    } else {
        Reg::DS
    };
    Operand::Mem(
        OperandMem {
            sz,
            sreg: match seg {
                Some(s) => s,
                None => default_seg,
            },
            reg1: r1,
            reg2: r2,
            off: disp,
        },
    )
}

/// The r/m operand of the ModRM byte at `i` and the number of bytes it
/// takes with its displacement, when they all lie within `b`.
pub open spec fn modrm_operand(b: Seq<u8>, i: int, sz: Size, seg: Option<Reg>) -> Option<(Operand, nat)> {
    let md = b[i] / 64;
    let rm = b[i] % 8;
    if md == 3 {
        Some((Operand::Reg(OperandReg(rm_reg(rm as int, sz))), 1))
    } else if (md == 0 && rm == 6) || md == 2 {
        if i + 2 < b.len() {
            Some((modrm_mem(sz, md as int, rm as int, seg, Some(word_at(b, i + 1))), 3))
        } else {
            None
        }
    } else if md == 1 {
        if i + 1 < b.len() {
            Some((modrm_mem(sz, md as int, rm as int, seg, Some(disp8(b[i + 1]))), 2))
        } else {
            None
        }
    } else {
        Some((modrm_mem(sz, md as int, rm as int, seg, None), 1))
    }
}

/// The shift or rotation a shift-group ModRM reg field selects: ROL, ROR,
/// RCL, RCR, SHL, SHR, SHL again (the undocumented /6) and SAR.
pub open spec fn shift_of(r: int) -> Option<Opcode> {
    if r == 0 {
        Some(Opcode::OP_ROL)
    } else if r == 1 {
        Some(Opcode::OP_ROR)
    } else if r == 2 {
        Some(Opcode::OP_RCL)
    } else if r == 3 {
        Some(Opcode::OP_RCR)
    } else if r == 4 || r == 6 {
        Some(Opcode::OP_SHL)
    } else if r == 5 {
        Some(Opcode::OP_SHR)
    } else if r == 7 {
        Some(Opcode::OP_SAR)
    } else {
        None
    }
}

/// A shift-group instruction at byte `i`: D0/D1 shift by one, D2/D3 by CL,
/// C0/C1 by an immediate byte; even opcodes take a byte operand, odd ones
/// a word. Gives the opcode, the operands (target, count) and the length.
pub open spec fn shift_group(b: Seq<u8>, i: int, seg: Option<Reg>, rep: Option<Rep>) -> Option<(Opcode, Seq<Operand>, nat)> {
    let op = b[i];
    let sz = if op % 2 == 0 {
        Size::Size8
    } else {
        Size::Size16
    };
    if (op == 0xd0 || op == 0xd1 || op == 0xd2 || op == 0xd3 || op == 0xc0 || op
        == 0xc1) && i + 1 < b.len() && shift_of(((b[i + 1] / 8) % 8) as int) is Some {
        let opcode = shift_of(((b[i + 1] / 8) % 8) as int).unwrap();
        match modrm_operand(b, i + 1, sz, seg) {
            Some((target, n)) => {
                let end = i + 1 + n;
                if op == 0xd0 || op == 0xd1 {
                    Some((opcode, seq![target, Operand::Imm(OperandImm { sz: Size::Size8, val: 1 })], end as nat))
                } else if op == 0xd2 || op == 0xd3 {
                    Some((opcode, seq![target, Operand::Reg(OperandReg(Reg::CL))], end as nat))
                } else if end < b.len() {
                    Some(
                        (
                            opcode,
                            seq![target, Operand::Imm(OperandImm { sz: Size::Size8, val: b[end] as u16 })],
                            (end + 1) as nat,
                        ),
                    )
                } else {
                    None
                }
            },
            None => None,
        }
    } else {
        None
    }
}

/// An instruction with a ModRM byte at `i + 1`: XCHG of a register with a
/// register or memory operand (86 byte, 87 word), word MUL, DIV and IDIV
/// (F7 /4, /6, /7), a far jump through a memory pointer (FF /5) and MOV of
/// an immediate to a register or memory operand (C6 /0 byte, C7 /0 word,
/// the immediate after the operand).
pub open spec fn modrm_group(b: Seq<u8>, i: int, seg: Option<Reg>, rep: Option<Rep>) -> Option<(Opcode, Seq<Operand>, nat)> {
    let op = b[i];
    let r = ((b[i + 1] / 8) % 8) as int;
    if i + 1 >= b.len() {
        None
    } else if op == 0x86 || op == 0x87 {
        let sz = if op == 0x86 {
            Size::Size8
        } else {
            Size::Size16
        };
        match modrm_operand(b, i + 1, sz, seg) {
            Some((t, n)) => Some(
                (Opcode::OP_XCHG, seq![t, Operand::Reg(OperandReg(rm_reg(r, sz)))], (i + 1 + n) as nat),
            ),
            None => None,
        }
    } else if op == 0xf7 && (r == 4 || r == 6 || r == 7) {
        match modrm_operand(b, i + 1, Size::Size16, seg) {
            Some((t, n)) => Some(
                (
                    if r == 4 {
                        Opcode::OP_MUL
                    } else if r == 6 {
                        Opcode::OP_DIV
                    } else {
                        Opcode::OP_IDIV
                    },
                    seq![t],
                    (i + 1 + n) as nat,
                ),
            ),
            None => None,
        }
    } else if op == 0x8e && r < 4 {
        match modrm_operand(b, i + 1, Size::Size16, seg) {
            Some((t, n)) => Some(
                (Opcode::OP_MOV, seq![Operand::Reg(OperandReg(sreg_of(r))), t], (i + 1 + n) as nat),
            ),
            None => None,
        }
    } else if (op == 0xc6 || op == 0xc7) && r == 0 {
        let sz = if op == 0xc6 {
            Size::Size8
        } else {
            Size::Size16
        };
        match modrm_operand(b, i + 1, sz, seg) {
            Some((t, n)) => {
                let end = i + 1 + n;
                if op == 0xc6 && end < b.len() {
                    Some(
                        (
                            Opcode::OP_MOV,
                            seq![t, Operand::Imm(OperandImm { sz: Size::Size8, val: b[end] as u16 })],
                            (end + 1) as nat,
                        ),
                    )
                } else if op == 0xc7 && end + 1 < b.len() {
                    Some(
                        (
                            Opcode::OP_MOV,
                            seq![
                                t,
                                Operand::Imm(OperandImm { sz: Size::Size16, val: (b[end] + 0x100 * b[end + 1]) as u16 }),
                            ],
                            (end + 2) as nat,
                        ),
                    )
                } else {
                    None
                }
            },
            None => None,
        }
    } else if op == 0xff && r == 5 && b[i + 1] / 64 != 3 {
        match modrm_operand(b, i + 1, Size::Size16, seg) {
            Some((t, n)) => Some((Opcode::OP_JMPF, seq![t], (i + 1 + n) as nat)),
            None => None,
        }
    } else {
        None
    }
}

/// A byte sign-extended to a word.
pub open spec fn byte_sext(x: u8) -> u16 {
    if x >= 0x80 {
        (x + 0xff00) as u16
    } else {
        x as u16
    }
}

/// The register and register-or-memory forms with a ModRM byte at `i + 1`:
/// the arithmetic rows of the first quarter (8k+0..3: byte or word, the
/// register as source or as destination), the immediate group 80 and its
/// alias 82 (byte), 81 (word), 83 (word, byte immediate sign-extended) with
/// the operation in the reg field, and MOV 88..8B.
pub open spec fn alu_rm_group(b: Seq<u8>, i: int, seg: Option<Reg>, rep: Option<Rep>) -> Option<(Opcode, Seq<Operand>, nat)> {
    let op = b[i];
    let r = ((b[i + 1] / 8) % 8) as int;
    let sz = if op % 2 == 0 {
        Size::Size8
    } else {
        Size::Size16
    };
    if i + 1 >= b.len() {
        None
    } else if (op < 0x40 && op % 8 < 4) || (0x88 <= op && op <= 0x8b) {
        match modrm_operand(b, i + 1, sz, seg) {
            Some((t, n)) => {
                let reg = Operand::Reg(OperandReg(rm_reg(r, sz)));
                let opcode = if op < 0x40 {
                    arith_of((op / 8) as int)
                } else {
                    Opcode::OP_MOV
                };
                Some(
                    (
                        opcode,
                        if (op / 2) % 2 == 0 {
                            seq![t, reg]
                        } else {
                            seq![reg, t]
                        },
                        (i + 1 + n) as nat,
                    ),
                )
            },
            None => None,
        }
    } else if op == 0x80 || op == 0x81 || op == 0x82 || op == 0x83 {
        match modrm_operand(b, i + 1, sz, seg) {
            Some((t, n)) => {
                let end = i + 1 + n;
                if op == 0x81 {
                    if end + 1 < b.len() {
                        Some(
                            (
                                arith_of(r),
                                seq![t, Operand::Imm(OperandImm { sz: Size::Size16, val: (b[end] + 0x100 * b[end + 1]) as u16 })],
                                (end + 2) as nat,
                            ),
                        )
                    } else {
                        None
                    }
                } else if end < b.len() {
                    let v = if op == 0x80 || op == 0x82 {
                        b[end] as u16
                    } else {
                        byte_sext(b[end])
                    };
                    Some((arith_of(r), seq![t, Operand::Imm(OperandImm { sz, val: v })], (end + 1) as nat))
                } else {
                    None
                }
            },
            None => None,
        }
    } else {
        None
    }
}

/// INC (40+r) and DEC (48+r) of a word register, PUSH (50+r) and POP
/// (58+r) of one, PUSH of an immediate word (68), and XCHG of AX with a
/// word register (90+r, r > 0).
pub open spec fn one_byte_group(b: Seq<u8>, i: int, rep: Option<Rep>) -> Option<(Opcode, Seq<Operand>, nat)> {
    let op = b[i];
    let reg = Operand::Reg(OperandReg(rm_reg((op % 8) as int, Size::Size16)));
    if 0x40 <= op && op < 0x48 {
        Some((Opcode::OP_INC, seq![reg], (i + 1) as nat))
    } else if 0x48 <= op && op < 0x50 {
        Some((Opcode::OP_DEC, seq![reg], (i + 1) as nat))
    } else if 0x50 <= op && op < 0x58 {
        Some((Opcode::OP_PUSH, seq![reg], (i + 1) as nat))
    } else if 0x58 <= op && op < 0x60 {
        Some((Opcode::OP_POP, seq![reg], (i + 1) as nat))
    } else if op == 0x68 && i + 2 < b.len() {
        Some(
            (
                Opcode::OP_PUSH,
                seq![Operand::Imm(OperandImm { sz: Size::Size16, val: (b[i + 1] + 0x100 * b[i + 2]) as u16 })],
                (i + 3) as nat,
            ),
        )
    } else if 0x91 <= op && op < 0x98 {
        Some((Opcode::OP_XCHG, seq![Operand::Reg(OperandReg(Reg::AX)), reg], (i + 1) as nat))
    } else {
        None
    }
}

/// NOP (90), the short jump (EB) with its displacement byte, CLD (FC),
/// STD (FD) and MOV of an immediate to a register: B0+r a byte register
/// and an immediate byte, B8+r a word register and an immediate word.
pub open spec fn short_group(b: Seq<u8>, i: int, rep: Option<Rep>) -> Option<(Opcode, Seq<Operand>, nat)> {
    if b[i] == 0x90 {
        Some((Opcode::OP_NOP, seq![], (i + 1) as nat))
    } else if b[i] == 0xfc {
        Some((Opcode::OP_CLD, seq![], (i + 1) as nat))
    } else if b[i] == 0xfd {
        Some((Opcode::OP_STD, seq![], (i + 1) as nat))
    } else if b[i] == 0xeb && i + 1 < b.len() {
        Some((Opcode::OP_JMP, seq![Operand::Imm(OperandImm { sz: Size::Size8, val: b[i + 1] as u16 })], (i + 2) as nat))
    } else if 0xb0 <= b[i] < 0xb8 && i + 1 < b.len() {
        Some(
            (
                Opcode::OP_MOV,
                seq![
                    Operand::Reg(OperandReg(rm_reg(b[i] - 0xb0, Size::Size8))),
                    Operand::Imm(OperandImm { sz: Size::Size8, val: b[i + 1] as u16 }),
                ],
                (i + 2) as nat,
            ),
        )
    } else if 0xb8 <= b[i] < 0xc0 && i + 2 < b.len() {
        Some(
            (
                Opcode::OP_MOV,
                seq![
                    Operand::Reg(OperandReg(rm_reg(b[i] - 0xb8, Size::Size16))),
                    Operand::Imm(OperandImm { sz: Size::Size16, val: (b[i + 1] + 0x100 * b[i + 2]) as u16 }),
                ],
                (i + 3) as nat,
            ),
        )
    } else {
        None
    }
}

/// The segment register the reg field of MOV Sreg names: ES, CS, SS, DS.
pub open spec fn sreg_of(r: int) -> Reg {
    if r == 0 {
        Reg::ES
    } else if r == 1 {
        Reg::CS
    } else if r == 2 {
        Reg::SS
    } else {
        Reg::DS
    }
}

/// The instruction whose opcode byte is at `i`, its operands and its
/// length.
#[verifier::opaque]
pub open spec fn decode_at(b: Seq<u8>, i: nat, seg: Option<Reg>, rep: Option<Rep>) -> Option<(Opcode, Seq<Operand>, nat)> {
    match opcode_of(b[i as int], seg) {
        Some((opcode, ops)) => Some((opcode, ops, i + 1)),
        None => match acc_imm(b, i, rep) {
            Some(d) => Some(d),
            None => match shift_group(b, i as int, seg, rep) {
                Some(d) => Some(d),
                None => match modrm_group(b, i as int, seg, rep) {
                    Some(d) => Some(d),
                    None => match alu_rm_group(b, i as int, seg, rep) {
                        Some(d) => Some(d),
                        None => match one_byte_group(b, i as int, rep) {
                            Some(d) => Some(d),
                            None => match short_group(b, i as int, rep) {
                                Some(d) => Some(d),
                                None => other_forms(b, i as int, seg, rep),
                            },
                        },
                    },
                },
            },
        },
    }
}

/// The forms the groups above leave: control transfers, the plain and
/// immediate one-byte forms, the further ModRM forms and groups 3 to 5.
pub open spec fn other_forms(b: Seq<u8>, i: int, seg: Option<Reg>, rep: Option<Rep>) -> Option<(Opcode, Seq<Operand>, nat)> {
    match flow_group(b, i, rep) {
        Some(d) => Some(d),
        None => match plain_group(b, i, seg, rep) {
            Some(d) => Some(d),
            None => match imm_group(b, i, seg, rep) {
                Some(d) => Some(d),
                None => match modrm_more(b, i, seg, rep) {
                    Some(d) => Some(d),
                    None => group_345(b, i, seg, rep),
                },
            },
        },
    }
}

/// Decodes one of `other_forms` whose opcode byte is at `i`.
fn decode_other_forms(b: &[u8], i: usize, seg: Option<Reg>, rep: Option<Rep>) -> (r: Option<(Instr, usize)>)
    requires
        i < b@.len(),
    ensures
        r is Some <==> other_forms(b@, i as int, seg, rep) is Some,
        r matches Some((instr, len)) ==> other_forms(b@, i as int, seg, rep) matches Some((opc, ops, n))
            && instr.opcode == opc && instr.operands@ == ops && instr.rep == rep && len == n,
{
    match decode_flow_group(b, i, rep) {
        Some(d) => Some(d),
        None => match decode_plain_group(b, i, seg, rep) {
            Some(d) => Some(d),
            None => match decode_imm_group(b, i, seg, rep) {
                Some(d) => Some(d),
                None => match decode_modrm_more(b, i, seg, rep) {
                    Some(d) => Some(d),
                    None => decode_group_345(b, i, seg, rep),
                },
            },
        },
    }
}

/// What a byte string decodes to: the instruction and its length, when its
/// prefixes end in a known instruction.
pub open spec fn decodes_to(b: Seq<u8>, instr: Instr, len: nat) -> bool {
    match scan_prefixes(b, 0, None, None) {
        Some((seg, rep, i)) => match decode_at(b, i, seg, rep) {
            Some((opcode, ops, n)) => instr.opcode == opcode && instr.operands@ == ops && instr.rep
                == rep && len == n,
            None => false,
        },
        None => false,
    }
}

/// Whether the byte string decodes at all.
pub open spec fn decodable(b: Seq<u8>) -> bool {
    match scan_prefixes(b, 0, None, None) {
        Some((seg, rep, i)) => decode_at(b, i, seg, rep) is Some,
        None => false,
    }
}

/// No override, or an override naming a segment register.
pub open spec fn override_ok(seg: Option<Reg>) -> bool {
    seg matches Some(r) ==> (r is ES || r is CS || r is SS || r is DS)
}

/// The opcode index the prefix scan finds lies within the bytes, and the
/// override it finds names a segment register.
pub proof fn lemma_scan_bound(b: Seq<u8>, i: nat, seg: Option<Reg>, rep: Option<Rep>)
    requires
        override_ok(seg),
    ensures
        scan_prefixes(b, i, seg, rep) matches Some((s, r, j)) ==> i <= j < b.len() && override_ok(s),
    decreases b.len() - i,
{
    if i < b.len() {
        if seg_prefix(b[i as int]) is Some {
            lemma_scan_bound(b, i + 1, seg_prefix(b[i as int]), rep);
        } else if b[i as int] == 0xf3 {
            lemma_scan_bound(b, i + 1, seg, Some(Rep::EQ));
        } else if b[i as int] == 0xf2 {
            lemma_scan_bound(b, i + 1, seg, Some(Rep::NE));
        }
    }
}

fn seg_prefix_of(x: u8) -> (r: Option<Reg>)
    ensures
        r == seg_prefix(x),
{
    if x == 0x26 {
        Some(Reg::ES)
    } else if x == 0x2e {
        Some(Reg::CS)
    } else if x == 0x36 {
        Some(Reg::SS)
    } else if x == 0x3e {
        Some(Reg::DS)
    } else {
        None
    }
}

pub(crate) fn source(sz: Size, seg: Option<Reg>) -> (r: Operand)
    ensures
        r == string_source(sz, seg),
{
    Operand::Mem(
        OperandMem {
            sz,
            sreg: match seg {
                Some(s) => s,
                None => Reg::DS,
            },
            reg1: Some(Reg::SI),
            reg2: None,
            off: None,
        },
    )
}

pub(crate) fn dest(sz: Size) -> (r: Operand)
    ensures
        r == string_dest(sz),
{
    Operand::Mem(OperandMem { sz, sreg: Reg::ES, reg1: Some(Reg::DI), reg2: None, off: None })
}

/// Decodes one instruction at the start of `b`: prefixes, then the opcode.
pub fn decode_one(b: &[u8]) -> (r: Option<(Instr, usize)>)
    ensures
        r is Some <==> decodable(b@),
        r matches Some((instr, len)) ==> decodes_to(b@, instr, len as nat) && len <= b@.len(),
{
    proof {
        reveal(decode_at);
    }
    let mut i: usize = 0;
    let mut seg: Option<Reg> = None;
    let mut rep: Option<Rep> = None;
    while i < b.len()
        invariant
            i <= b@.len(),
            scan_prefixes(b@, i as nat, seg, rep) == scan_prefixes(b@, 0, None, None),
        ensures
            i < b@.len() ==> seg_prefix(b@[i as int]) is None && b@[i as int] != 0xf3 && b@[i as int]
                != 0xf2,
        decreases b@.len() - i,
    {
        let x = b[i];
        let s = seg_prefix_of(x);
        if s.is_some() {
            seg = s;
        } else if x == 0xf3 {
            rep = Some(Rep::EQ);
        } else if x == 0xf2 {
            rep = Some(Rep::NE);
        } else {
            break;
        }
        i = i + 1;
    }
    if i >= b.len() {
        return None;
    }
    let op = b[i];
    let sz = if op % 2 == 0 {
        Size::Size8
    } else {
        Size::Size16
    };
    let (opcode, operands): (Opcode, Vec<Operand>) = if op == 0xa4 || op == 0xa5 {
        (Opcode::OP_MOVS, vec![dest(sz), source(sz, seg)])
    } else if op == 0xa6 || op == 0xa7 {
        (Opcode::OP_CMPS, vec![dest(sz), source(sz, seg)])
    } else if op == 0xac || op == 0xad {
        let acc = if op == 0xac {
            Reg::AL
        } else {
            Reg::AX
        };
        (Opcode::OP_LODS, vec![Operand::Reg(OperandReg(acc)), source(sz, seg)])
    } else if op == 0xaa || op == 0xab || op == 0xae || op == 0xaf {
        let acc = if op == 0xaa || op == 0xae {
            Reg::AL
        } else {
            Reg::AX
        };
        let opcode = if op == 0xaa || op == 0xab {
            Opcode::OP_STOS
        } else {
            Opcode::OP_SCAS
        };
        (opcode, vec![dest(sz), Operand::Reg(OperandReg(acc))])
    } else if op == 0xf4 {
        (Opcode::OP_HLT, Vec::new())
    } else {
        match decode_acc_imm(b, i, rep) {
            Some(d) => {
                return Some(d);
            },
            None => match decode_shift_group(b, i, seg, rep) {
                Some(d) => {
                    return Some(d);
                },
                None => match decode_modrm_group(b, i, seg, rep) {
                    Some(d) => {
                        return Some(d);
                    },
                    None => match decode_alu_rm_group(b, i, seg, rep) {
                        Some(d) => {
                            return Some(d);
                        },
                        None => match decode_one_byte_group(b, i, rep) {
                            Some(d) => {
                                return Some(d);
                            },
                            None => match decode_short_group(b, i, rep) {
                                Some(d) => {
                                    return Some(d);
                                },
                                None => {
                                    return decode_other_forms(b, i, seg, rep);
                                },
                            },
                        },
                    },
                },
            },
        }
    };
    proof {
        assert(operands@ =~= opcode_of(op, seg).unwrap().1);
    }
    Some((Instr { rep, opcode, operands }, i + 1))
}

fn arith_opcode(k: u8) -> (r: Opcode)
    requires
        k < 8,
    ensures
        r == arith_of(k as int),
{
    match k {
        0 => Opcode::OP_ADD,
        1 => Opcode::OP_OR,
        2 => Opcode::OP_ADC,
        3 => Opcode::OP_SBB,
        4 => Opcode::OP_AND,
        5 => Opcode::OP_SUB,
        6 => Opcode::OP_XOR,
        _ => Opcode::OP_CMP,
    }
}

/// Decodes an accumulator-immediate arithmetic instruction whose opcode
/// byte is at `i` (see `acc_imm`).
fn decode_acc_imm(b: &[u8], i: usize, rep: Option<Rep>) -> (r: Option<(Instr, usize)>)
    requires
        i < b@.len(),
    ensures
        r is Some <==> acc_imm(b@, i as nat, rep) is Some,
        r matches Some((instr, len)) ==> acc_imm(b@, i as nat, rep) matches Some((opc, ops, n))
            && instr.opcode == opc && instr.operands@ == ops && instr.rep == rep && len == n,
{
    let op = b[i];
    if op >= 0x40 {
        return None;
    }
    if op % 8 == 4 && i + 1 < b.len() {
        let imm = b[i + 1] as u16;
        let operands = vec![
            Operand::Reg(OperandReg(Reg::AL)),
            Operand::Imm(OperandImm { sz: Size::Size8, val: imm }),
        ];
        proof {
            assert(operands@ =~= acc_imm(b@, i as nat, rep).unwrap().1);
        }
        Some((Instr { rep, opcode: arith_opcode(op / 8), operands }, i + 2))
    } else if op % 8 == 5 && i + 1 < b.len() && i + 2 < b.len() {
        let imm = b[i + 1] as u16 + 0x100 * (b[i + 2] as u16);
        let operands = vec![
            Operand::Reg(OperandReg(Reg::AX)),
            Operand::Imm(OperandImm { sz: Size::Size16, val: imm }),
        ];
        proof {
            assert(operands@ =~= acc_imm(b@, i as nat, rep).unwrap().1);
        }
        Some((Instr { rep, opcode: arith_opcode(op / 8), operands }, i + 3))
    } else {
        None
    }
}


pub(crate) fn rm_reg_exec(r: u8, sz: Size) -> (res: Reg)
    requires
        r < 8,
    ensures
        res == rm_reg(r as int, sz),
{
    match sz {
        Size::Size8 => match r {
            0 => Reg::AL,
            1 => Reg::CL,
            2 => Reg::DL,
            3 => Reg::BL,
            4 => Reg::AH,
            5 => Reg::CH,
            6 => Reg::DH,
            _ => Reg::BH,
        },
        _ => match r {
            0 => Reg::AX,
            1 => Reg::CX,
            2 => Reg::DX,
            3 => Reg::BX,
            4 => Reg::SP,
            5 => Reg::BP,
            6 => Reg::SI,
            _ => Reg::DI,
        },
    }
}

pub(crate) fn modrm_mem_exec(sz: Size, md: u8, rm: u8, seg: Option<Reg>, disp: Option<u16>) -> (r: Operand)
    requires
        rm < 8,
    ensures
        r == modrm_mem(sz, md as int, rm as int, seg, disp),
{
    let (r1, r2): (Option<Reg>, Option<Reg>) = if md == 0 && rm == 6 {
        (None, None)
    } else {
        match rm {
            0 => (Some(Reg::BX), Some(Reg::SI)),
            1 => (Some(Reg::BX), Some(Reg::DI)),
            2 => (Some(Reg::BP), Some(Reg::SI)),
            3 => (Some(Reg::BP), Some(Reg::DI)),
            4 => (Some(Reg::SI), None),
            5 => (Some(Reg::DI), None),
            6 => (Some(Reg::BP), None),
            _ => (Some(Reg::BX), None),
        }
    };
    let default_seg = if (rm == 2 || rm == 3 || rm == 6) && !(md == 0 && rm == 6) {
        Reg::SS
    } else {
        Reg::DS
    };
    let sreg = match seg {
        Some(s) => s,
        None => default_seg,
    };
    Operand::Mem(OperandMem { sz, sreg, reg1: r1, reg2: r2, off: disp })
}

/// Decodes the r/m operand of the ModRM byte at `i`.
pub(crate) fn decode_modrm(b: &[u8], i: usize, sz: Size, seg: Option<Reg>) -> (r: Option<(Operand, usize)>)
    requires
        i < b@.len(),
    ensures
        r is Some <==> modrm_operand(b@, i as int, sz, seg) is Some,
        r matches Some((o, n)) ==> modrm_operand(b@, i as int, sz, seg) == Some((o, n as nat)),
{
    let m = b[i];
    let md = m / 64;
    let rm = m % 8;
    if md == 3 {
        Some((Operand::Reg(OperandReg(rm_reg_exec(rm, sz))), 1))
    } else if (md == 0 && rm == 6) || md == 2 {
        if i + 1 < b.len() && i + 2 < b.len() {
            let w = b[i + 1] as u16 + 0x100 * (b[i + 2] as u16);
            Some((modrm_mem_exec(sz, md, rm, seg, Some(w)), 3))
        } else {
            None
        }
    } else if md == 1 {
        if i + 1 < b.len() {
            let x = b[i + 1];
            let d: u16 = if x >= 0x80 {
                x as u16 + 0xff00
            } else {
                x as u16
            };
            Some((modrm_mem_exec(sz, md, rm, seg, Some(d)), 2))
        } else {
            None
        }
    } else {
        Some((modrm_mem_exec(sz, md, rm, seg, None), 1))
    }
}

fn shift_of_exec(r: u8) -> (res: Option<Opcode>)
    ensures
        res == shift_of(r as int),
{
    match r {
        0 => Some(Opcode::OP_ROL),
        1 => Some(Opcode::OP_ROR),
        2 => Some(Opcode::OP_RCL),
        3 => Some(Opcode::OP_RCR),
        4 | 6 => Some(Opcode::OP_SHL),
        5 => Some(Opcode::OP_SHR),
        7 => Some(Opcode::OP_SAR),
        _ => None,
    }
}

/// Decodes a shift-group instruction whose opcode byte is at `i` (see
/// `shift_group`).
fn decode_shift_group(b: &[u8], i: usize, seg: Option<Reg>, rep: Option<Rep>) -> (r: Option<(Instr, usize)>)
    requires
        i < b@.len(),
    ensures
        r is Some <==> shift_group(b@, i as int, seg, rep) is Some,
        r matches Some((instr, len)) ==> shift_group(b@, i as int, seg, rep) matches Some((opc, ops, n))
            && instr.opcode == opc && instr.operands@ == ops && instr.rep == rep && len == n,
{
    let op = b[i];
    if !(op == 0xd0 || op == 0xd1 || op == 0xd2 || op == 0xd3 || op == 0xc0 || op
        == 0xc1) || i + 1 >= b.len() {
        return None;
    }
    let opcode = match shift_of_exec((b[i + 1] / 8) % 8) {
        Some(o) => o,
        None => {
            return None;
        },
    };
    let sz = if op % 2 == 0 {
        Size::Size8
    } else {
        Size::Size16
    };
    let (target, n) = match decode_modrm(b, i + 1, sz, seg) {
        Some(d) => d,
        None => {
            return None;
        },
    };
    let end = i + 1 + n;
    let (count, len) = if op == 0xd0 || op == 0xd1 {
        (Operand::Imm(OperandImm { sz: Size::Size8, val: 1 }), end)
    } else if op == 0xd2 || op == 0xd3 {
        (Operand::Reg(OperandReg(Reg::CL)), end)
    } else if end < b.len() {
        (Operand::Imm(OperandImm { sz: Size::Size8, val: b[end] as u16 }), end + 1)
    } else {
        return None;
    };
    let operands = vec![target, count];
    proof {
        assert(operands@ =~= shift_group(b@, i as int, seg, rep).unwrap().1);
    }
    Some((Instr { rep, opcode, operands }, len))
}


/// Decodes XCHG, word DIV/IDIV or a far jump through memory whose opcode
/// byte is at `i` (see `modrm_group`).
fn decode_modrm_group(b: &[u8], i: usize, seg: Option<Reg>, rep: Option<Rep>) -> (r: Option<(Instr, usize)>)
    requires
        i < b@.len(),
    ensures
        r is Some <==> modrm_group(b@, i as int, seg, rep) is Some,
        r matches Some((instr, len)) ==> modrm_group(b@, i as int, seg, rep) matches Some((opc, ops, n))
            && instr.opcode == opc && instr.operands@ == ops && instr.rep == rep && len == n,
{
    if i >= b.len() - 1 {
        return None;
    }
    let op = b[i];
    let r = (b[i + 1] / 8) % 8;
    if op == 0x86 || op == 0x87 {
        let sz = if op == 0x86 {
            Size::Size8
        } else {
            Size::Size16
        };
        let (t, n) = match decode_modrm(b, i + 1, sz, seg) {
            Some(d) => d,
            None => {
                return None;
            },
        };
        let operands = vec![t, Operand::Reg(OperandReg(rm_reg_exec(r, sz)))];
        proof {
            assert(operands@ =~= modrm_group(b@, i as int, seg, rep).unwrap().1);
        }
        Some((Instr { rep, opcode: Opcode::OP_XCHG, operands }, i + 1 + n))
    } else if op == 0xf7 && (r == 4 || r == 6 || r == 7) {
        let (t, n) = match decode_modrm(b, i + 1, Size::Size16, seg) {
            Some(d) => d,
            None => {
                return None;
            },
        };
        let opcode = if r == 4 {
            Opcode::OP_MUL
        } else if r == 6 {
            Opcode::OP_DIV
        } else {
            Opcode::OP_IDIV
        };
        let operands = vec![t];
        proof {
            assert(operands@ =~= modrm_group(b@, i as int, seg, rep).unwrap().1);
        }
        Some((Instr { rep, opcode, operands }, i + 1 + n))
    } else if op == 0xff && r == 5 && b[i + 1] / 64 != 3 {
        let (t, n) = match decode_modrm(b, i + 1, Size::Size16, seg) {
            Some(d) => d,
            None => {
                return None;
            },
        };
        let operands = vec![t];
        proof {
            assert(operands@ =~= modrm_group(b@, i as int, seg, rep).unwrap().1);
        }
        Some((Instr { rep, opcode: Opcode::OP_JMPF, operands }, i + 1 + n))
    } else if op == 0x8e && r < 4 {
        let (t, n) = match decode_modrm(b, i + 1, Size::Size16, seg) {
            Some(d) => d,
            None => {
                return None;
            },
        };
        let sreg = match r {
            0 => Reg::ES,
            1 => Reg::CS,
            2 => Reg::SS,
            _ => Reg::DS,
        };
        let operands = vec![Operand::Reg(OperandReg(sreg)), t];
        proof {
            assert(operands@ =~= modrm_group(b@, i as int, seg, rep).unwrap().1);
        }
        Some((Instr { rep, opcode: Opcode::OP_MOV, operands }, i + 1 + n))
    } else if (op == 0xc6 || op == 0xc7) && r == 0 {
        let sz = if op == 0xc6 {
            Size::Size8
        } else {
            Size::Size16
        };
        let (t, n) = match decode_modrm(b, i + 1, sz, seg) {
            Some(d) => d,
            None => {
                return None;
            },
        };
        let end = i + 1 + n;
        if op == 0xc6 && end < b.len() {
            let operands = vec![t, Operand::Imm(OperandImm { sz: Size::Size8, val: b[end] as u16 })];
            proof {
                assert(operands@ =~= modrm_group(b@, i as int, seg, rep).unwrap().1);
            }
            Some((Instr { rep, opcode: Opcode::OP_MOV, operands }, end + 1))
        } else if op == 0xc7 && end < b.len() - 1 {
            let imm = b[end] as u16 + 0x100 * (b[end + 1] as u16);
            let operands = vec![t, Operand::Imm(OperandImm { sz: Size::Size16, val: imm })];
            proof {
                assert(operands@ =~= modrm_group(b@, i as int, seg, rep).unwrap().1);
            }
            Some((Instr { rep, opcode: Opcode::OP_MOV, operands }, end + 2))
        } else {
            None
        }
    } else {
        None
    }
}

/// Decodes NOP, a short jump, CLD, STD or MOV of an immediate to a
/// register whose opcode byte is at `i` (see `short_group`).
fn decode_short_group(b: &[u8], i: usize, rep: Option<Rep>) -> (r: Option<(Instr, usize)>)
    requires
        i < b@.len(),
    ensures
        r is Some <==> short_group(b@, i as int, rep) is Some,
        r matches Some((instr, len)) ==> short_group(b@, i as int, rep) matches Some((opc, ops, n))
            && instr.opcode == opc && instr.operands@ == ops && instr.rep == rep && len == n,
{
    if b[i] == 0x90 {
        let operands: Vec<Operand> = Vec::new();
        proof {
            assert(operands@ =~= short_group(b@, i as int, rep).unwrap().1);
        }
        Some((Instr { rep, opcode: Opcode::OP_NOP, operands }, i + 1))
    } else if b[i] == 0xfc || b[i] == 0xfd {
        let operands: Vec<Operand> = Vec::new();
        proof {
            assert(operands@ =~= short_group(b@, i as int, rep).unwrap().1);
        }
        let opcode = if b[i] == 0xfc {
            Opcode::OP_CLD
        } else {
            Opcode::OP_STD
        };
        Some((Instr { rep, opcode, operands }, i + 1))
    } else if b[i] == 0xeb && i + 1 < b.len() {
        let operands = vec![Operand::Imm(OperandImm { sz: Size::Size8, val: b[i + 1] as u16 })];
        proof {
            assert(operands@ =~= short_group(b@, i as int, rep).unwrap().1);
        }
        Some((Instr { rep, opcode: Opcode::OP_JMP, operands }, i + 2))
    } else if 0xb0 <= b[i] && b[i] < 0xb8 && i + 1 < b.len() {
        let operands = vec![
            Operand::Reg(OperandReg(rm_reg_exec(b[i] - 0xb0, Size::Size8))),
            Operand::Imm(OperandImm { sz: Size::Size8, val: b[i + 1] as u16 }),
        ];
        proof {
            assert(operands@ =~= short_group(b@, i as int, rep).unwrap().1);
        }
        Some((Instr { rep, opcode: Opcode::OP_MOV, operands }, i + 2))
    } else if 0xb8 <= b[i] && b[i] < 0xc0 && i + 1 < b.len() && i + 2 < b.len() {
        let imm = b[i + 1] as u16 + 0x100 * (b[i + 2] as u16);
        let operands = vec![
            Operand::Reg(OperandReg(rm_reg_exec(b[i] - 0xb8, Size::Size16))),
            Operand::Imm(OperandImm { sz: Size::Size16, val: imm }),
        ];
        proof {
            assert(operands@ =~= short_group(b@, i as int, rep).unwrap().1);
        }
        Some((Instr { rep, opcode: Opcode::OP_MOV, operands }, i + 3))
    } else {
        None
    }
}

/// Decodes an arithmetic or MOV form with a ModRM byte, or the immediate
/// group, whose opcode byte is at `i` (see `alu_rm_group`).
fn decode_alu_rm_group(b: &[u8], i: usize, seg: Option<Reg>, rep: Option<Rep>) -> (r: Option<(Instr, usize)>)
    requires
        i < b@.len(),
    ensures
        r is Some <==> alu_rm_group(b@, i as int, seg, rep) is Some,
        r matches Some((instr, len)) ==> alu_rm_group(b@, i as int, seg, rep) matches Some((opc, ops, n))
            && instr.opcode == opc && instr.operands@ == ops && instr.rep == rep && len == n,
{
    if i >= b.len() - 1 {
        return None;
    }
    let op = b[i];
    let r = (b[i + 1] / 8) % 8;
    let sz = if op % 2 == 0 {
        Size::Size8
    } else {
        Size::Size16
    };
    if (op < 0x40 && op % 8 < 4) || (0x88 <= op && op <= 0x8b) {
        let (t, n) = match decode_modrm(b, i + 1, sz, seg) {
            Some(d) => d,
            None => {
                return None;
            },
        };
        let reg = Operand::Reg(OperandReg(rm_reg_exec(r, sz)));
        let opcode = if op < 0x40 {
            arith_opcode(op / 8)
        } else {
            Opcode::OP_MOV
        };
        let operands = if (op / 2) % 2 == 0 {
            vec![t, reg]
        } else {
            vec![reg, t]
        };
        proof {
            assert(operands@ =~= alu_rm_group(b@, i as int, seg, rep).unwrap().1);
        }
        Some((Instr { rep, opcode, operands }, i + 1 + n))
    } else if op == 0x80 || op == 0x81 || op == 0x82 || op == 0x83 {
        let (t, n) = match decode_modrm(b, i + 1, sz, seg) {
            Some(d) => d,
            None => {
                return None;
            },
        };
        let end = i + 1 + n;
        if op == 0x81 {
            if end < b.len() - 1 {
                let imm = b[end] as u16 + 0x100 * (b[end + 1] as u16);
                let operands = vec![t, Operand::Imm(OperandImm { sz: Size::Size16, val: imm })];
                proof {
                    assert(operands@ =~= alu_rm_group(b@, i as int, seg, rep).unwrap().1);
                }
                Some((Instr { rep, opcode: arith_opcode(r), operands }, end + 2))
            } else {
                None
            }
        } else if end < b.len() {
            let x = b[end];
            let v: u16 = if op == 0x80 || op == 0x82 {
                x as u16
            } else if x >= 0x80 {
                x as u16 + 0xff00
            } else {
                x as u16
            };
            let operands = vec![t, Operand::Imm(OperandImm { sz, val: v })];
            proof {
                assert(operands@ =~= alu_rm_group(b@, i as int, seg, rep).unwrap().1);
            }
            Some((Instr { rep, opcode: arith_opcode(r), operands }, end + 1))
        } else {
            None
        }
    } else {
        None
    }
}

/// Decodes INC, DEC, PUSH, POP or XCHG with AX whose opcode byte is at `i`
/// (see `one_byte_group`).
fn decode_one_byte_group(b: &[u8], i: usize, rep: Option<Rep>) -> (r: Option<(Instr, usize)>)
    requires
        i < b@.len(),
    ensures
        r is Some <==> one_byte_group(b@, i as int, rep) is Some,
        r matches Some((instr, len)) ==> one_byte_group(b@, i as int, rep) matches Some((opc, ops, n))
            && instr.opcode == opc && instr.operands@ == ops && instr.rep == rep && len == n,
{
    let op = b[i];
    let reg = Operand::Reg(OperandReg(rm_reg_exec(op % 8, Size::Size16)));
    let (opcode, operands, len): (Opcode, Vec<Operand>, usize) = if 0x40 <= op && op < 0x48 {
        (Opcode::OP_INC, vec![reg], i + 1)
    } else if 0x48 <= op && op < 0x50 {
        (Opcode::OP_DEC, vec![reg], i + 1)
    } else if 0x50 <= op && op < 0x58 {
        (Opcode::OP_PUSH, vec![reg], i + 1)
    } else if 0x58 <= op && op < 0x60 {
        (Opcode::OP_POP, vec![reg], i + 1)
    } else if op == 0x68 && i + 1 < b.len() && i + 2 < b.len() {
        let imm = b[i + 1] as u16 + 0x100 * (b[i + 2] as u16);
        (Opcode::OP_PUSH, vec![Operand::Imm(OperandImm { sz: Size::Size16, val: imm })], i + 3)
    } else if 0x91 <= op && op < 0x98 {
        (Opcode::OP_XCHG, vec![Operand::Reg(OperandReg(Reg::AX)), reg], i + 1)
    } else {
        return None;
    };
    proof {
        assert(operands@ =~= one_byte_group(b@, i as int, rep).unwrap().1);
    }
    Some((Instr { rep, opcode, operands }, len))
}

} // verus!
