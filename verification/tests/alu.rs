use dis86::alu::{binary, multiply, unary, BinaryOp, MultiplyOp, UnaryOp};
use dis86::flags::{Flags, FLAG_CF, FLAG_OF, FLAG_SF, FLAG_ZF};
use dis86::runner::Outcome;
use dis86::value::Value;

#[test]
fn unsigned_multiply_widens_and_reports_overflow() {
  let (p, f) = multiply(MultiplyOp::Unsigned, Value::U8(0x10), Value::U8(0x10), Flags(0));
  assert_eq!(p, Value::U16(0x0100));
  assert!(f.get(FLAG_CF) && f.get(FLAG_OF));
  let (p, f) = multiply(MultiplyOp::Unsigned, Value::U16(0x0010), Value::U16(0x0010), Flags(FLAG_CF | FLAG_OF));
  assert_eq!(p, Value::U32(0x0100));
  assert!(!f.get(FLAG_CF) && !f.get(FLAG_OF));
  let (p, f) = multiply(MultiplyOp::Unsigned, Value::U16(0), Value::U16(0x1234), Flags(0));
  assert_eq!(p, Value::U32(0));
  assert!(f.get(FLAG_ZF));
}

#[test]
fn signed_multiply_sign_extends() {
  // -2 * 3 = -6 fits a byte: no overflow, the word is the sign extension.
  let (p, f) = multiply(MultiplyOp::Signed, Value::U8(0xFE), Value::U8(0x03), Flags(0));
  assert_eq!(p, Value::U16(0xFFFA));
  assert!(!f.get(FLAG_CF) && !f.get(FLAG_OF));
  // 0x4000 * 2 = 0x8000 does not fit a signed word.
  let (p, f) = multiply(MultiplyOp::Signed, Value::U16(0x4000), Value::U16(0x0002), Flags(0));
  assert_eq!(p, Value::U32(0x0000_8000));
  assert!(f.get(FLAG_CF) && f.get(FLAG_OF));
}

#[test]
fn unary_operations_keep_carry_where_documented() {
  let (r, f) = unary(UnaryOp::Inc, Value::U8(0xFF), Flags(FLAG_CF));
  assert_eq!(r, Value::U8(0x00));
  assert!(f.get(FLAG_ZF) && f.get(FLAG_CF));
  let (r, f) = unary(UnaryOp::Dec, Value::U16(0x8000), Flags(0));
  assert_eq!(r, Value::U16(0x7FFF));
  assert!(f.get(FLAG_OF) && !f.get(FLAG_CF));
  let (r, f) = unary(UnaryOp::Neg, Value::U8(0x01), Flags(0));
  assert_eq!(r, Value::U8(0xFF));
  assert!(f.get(FLAG_CF) && f.get(FLAG_SF));
  let (r, f) = unary(UnaryOp::Not, Value::U16(0x00FF), Flags(0x0ABC));
  assert_eq!(r, Value::U16(0xFF00));
  assert_eq!(f, Flags(0x0ABC));
}

#[test]
fn binary_sub_borrows() {
  let (r, f) = binary(BinaryOp::Sub, Value::U8(0x00), Value::U8(0x01), Flags(0));
  assert_eq!(r, Value::U8(0xFF));
  assert!(f.get(FLAG_CF) && f.get(FLAG_SF) && !f.get(FLAG_ZF));
}

#[test]
fn outcome_bucket_names() {
  assert_eq!(Outcome::Pass.bucket_name(), "PASS");
  assert_eq!(Outcome::DecodeErr(String::new()).bucket_name(), "DECODE_ERR");
  assert_eq!(Outcome::Panic(String::new()).bucket_name(), "PANIC");
  assert_eq!(Outcome::SkipException { num: 0 }.bucket_name(), "SKIP_EXCEPTION");
  assert_eq!(Outcome::Skip32BitState.bucket_name(), "SKIP_32BIT");
  assert_eq!(Outcome::InvalidVector(String::new()).bucket_name(), "INVALID_VECTOR");
  let fail = Outcome::Fail {
    reg_diffs: vec![],
    ram_diffs: vec![],
    unexpected_writes: vec![],
    unexpected_writes_total: 0,
    flags_diff: None,
  };
  assert_eq!(fail.bucket_name(), "FAIL");
}
