use dis86::decode::decode_one;
use dis86::instr::{Opcode, Operand, OperandImm, OperandMem, OperandReg, Reg, Rep, Size};

fn imm8(v: u16) -> Operand {
  Operand::Imm(OperandImm { sz: Size::Size8, val: v })
}

fn imm16(v: u16) -> Operand {
  Operand::Imm(OperandImm { sz: Size::Size16, val: v })
}

fn reg(r: Reg) -> Operand {
  Operand::Reg(OperandReg(r))
}

fn mem(sz: Size, sreg: Reg, reg1: Option<Reg>, reg2: Option<Reg>, off: Option<u16>) -> Operand {
  Operand::Mem(OperandMem { sz, sreg, reg1, reg2, off })
}

fn decoded(b: &[u8]) -> (Opcode, Vec<Operand>, Option<Rep>, usize) {
  let (i, n) = decode_one(b).expect("decodes");
  (i.opcode, i.operands, i.rep, n)
}

#[test]
fn conditional_jump_with_displacement() {
  assert_eq!(decoded(&[0x74, 0x05]), (Opcode::OP_JE, vec![imm8(5)], None, 2));
  assert_eq!(decoded(&[0x7F, 0xFE]), (Opcode::OP_JG, vec![imm8(0xFE)], None, 2));
  assert_eq!(decoded(&[0xE2, 0xFD]), (Opcode::OP_LOOP, vec![imm8(0xFD)], None, 2));
}

#[test]
fn far_call_takes_offset_then_segment() {
  assert_eq!(
    decoded(&[0x9A, 0x34, 0x12, 0x78, 0x56]),
    (Opcode::OP_CALLF, vec![imm16(0x1234), imm16(0x5678)], None, 5)
  );
  // The segment word is cut short.
  assert!(decode_one(&[0x9A, 0x34, 0x12, 0x78]).is_none());
}

#[test]
fn lea_and_group3_test_with_memory() {
  assert_eq!(
    decoded(&[0x8D, 0x40, 0x04]),
    (Opcode::OP_LEA, vec![reg(Reg::AX), mem(Size::Size16, Reg::DS, Some(Reg::BX), Some(Reg::SI), Some(4))], None, 3)
  );
  assert_eq!(
    decoded(&[0xF6, 0x06, 0x34, 0x12, 0x7F]),
    (Opcode::OP_TEST, vec![mem(Size::Size8, Reg::DS, None, None, Some(0x1234)), imm8(0x7F)], None, 5)
  );
}

#[test]
fn direct_address_move_honours_the_override() {
  assert_eq!(
    decoded(&[0x26, 0xA1, 0x00, 0x01]),
    (Opcode::OP_MOV, vec![reg(Reg::AX), mem(Size::Size16, Reg::ES, None, None, Some(0x100))], None, 4)
  );
}

#[test]
fn rep_applies_to_port_strings() {
  assert_eq!(
    decoded(&[0xF3, 0x6C]),
    (
      Opcode::OP_INS,
      vec![mem(Size::Size8, Reg::ES, Some(Reg::DI), None, None), reg(Reg::DX)],
      Some(Rep::EQ),
      2
    )
  );
}

#[test]
fn shift_group_rotations_and_alias() {
  assert_eq!(decoded(&[0xC0, 0xC8, 0x03]), (Opcode::OP_ROR, vec![reg(Reg::AL), imm8(3)], None, 3));
  assert_eq!(decoded(&[0xD1, 0xF0]), (Opcode::OP_SHL, vec![reg(Reg::AX), imm8(1)], None, 2));
}

#[test]
fn push_of_sign_extended_byte_and_segment_registers() {
  assert_eq!(decoded(&[0x6A, 0xFF]), (Opcode::OP_PUSH, vec![imm16(0xFFFF)], None, 2));
  assert_eq!(decoded(&[0x1E]), (Opcode::OP_PUSH, vec![reg(Reg::DS)], None, 1));
  assert_eq!(decoded(&[0x07]), (Opcode::OP_POP, vec![reg(Reg::ES)], None, 1));
}

#[test]
fn three_operand_imul() {
  assert_eq!(
    decoded(&[0x6B, 0xCB, 0xFE]),
    (Opcode::OP_IMUL, vec![reg(Reg::CX), reg(Reg::BX), imm16(0xFFFE)], None, 3)
  );
}

#[test]
fn enter_and_int() {
  assert_eq!(decoded(&[0xC8, 0x10, 0x00, 0x00]), (Opcode::OP_ENTER, vec![imm16(0x10), imm8(0)], None, 4));
  assert_eq!(decoded(&[0xCC]), (Opcode::OP_INT, vec![imm8(3)], None, 1));
  assert_eq!(decoded(&[0xCD, 0x21]), (Opcode::OP_INT, vec![imm8(0x21)], None, 2));
}

#[test]
fn bytes_outside_the_instruction_set_do_not_decode() {
  for b in [0x0Fu8, 0x62, 0x63, 0x9B, 0xD4, 0xD5, 0xD6, 0xD8, 0xDF, 0xF1] {
    assert!(decode_one(&[b, 0, 0, 0, 0, 0]).is_none(), "{:#x}", b);
  }
  // FE takes only INC and DEC; FF /7 is not an instruction.
  assert!(decode_one(&[0xFE, 0xD0]).is_none());
  assert!(decode_one(&[0xFF, 0xF8]).is_none());
  // LEA needs a memory operand.
  assert!(decode_one(&[0x8D, 0xC0]).is_none());
}
