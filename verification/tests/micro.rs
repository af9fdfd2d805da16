use dis86::micro::{micro_check, parse_micro_spec};
use dis86::runner::{RamEntry, SstTest, TestRegs, TestState};

#[test]
fn micro_spec_lines_are_read() {
  let text = b"# header\n\n01.MOO pass 01 7\n  F7.6.MOO\tfailrepro F7.6 +12  \r\n";
  let entries = parse_micro_spec("spec.txt", text).unwrap();
  assert_eq!(entries.len(), 2);
  assert_eq!(entries[0].out, "01.MOO");
  assert_eq!(entries[0].kind, "pass");
  assert_eq!(entries[0].src, "01");
  assert_eq!(entries[0].idx, 7);
  assert_eq!(entries[1].out, "F7.6.MOO");
  assert_eq!(entries[1].kind, "failrepro");
  assert_eq!(entries[1].idx, 12);
}

#[test]
fn malformed_micro_spec_lines_are_refused() {
  assert_eq!(
    parse_micro_spec("s.txt", b"a b c\n").unwrap_err(),
    "s.txt:1: expected '<out>.MOO <pass|failrepro> <src> <idx>', got: a b c"
  );
  assert_eq!(parse_micro_spec("s.txt", b"#x\na pass b x1\n").unwrap_err(), "s.txt:2: bad idx 'x1'");
  assert_eq!(
    parse_micro_spec("s.txt", b"a pass b 99999999999999999999999\n").unwrap_err(),
    "s.txt:1: bad idx '99999999999999999999999'"
  );
}

fn nop_test() -> SstTest {
  let mut init = [Some(0u16); 14];
  init[13] = Some(0x0002);
  let mut fin = [None; 14];
  fin[8] = Some(2);
  SstTest {
    name: "nop".to_string(),
    bytes: vec![0x90, 0xF4],
    initial: TestState {
      regs: TestRegs::Sixteen(init),
      ram: vec![RamEntry { address: 0, value: 0x90 }, RamEntry { address: 1, value: 0xF4 }],
    },
    fin: TestState { regs: TestRegs::Sixteen(fin), ram: vec![] },
    exception: None,
    hash: Some([0; 20]),
  }
}

#[test]
fn micro_entries_are_checked() {
  let tests = vec![nop_test()];
  let v = micro_check("pass", "90", 0, &tests).unwrap();
  assert!(v.ok, "{}", v.detail);
  assert_eq!(v.name, "nop");
  assert!(!v.prefix_filtered);
  let v = micro_check("failrepro", "90", 0, &tests).unwrap();
  assert!(!v.ok);
  assert_eq!(micro_check("pass", "90", 3, &tests).unwrap_err(), "90: idx 3 out of range (1 tests)");
}
