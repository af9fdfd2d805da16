use dis86::moo::{parse_moo, write_moo};
use dis86::report::run_moo_file;
use dis86::runner::{RamEntry, SstTest, TestRegs, TestState};

fn chunk(tag: &[u8; 4], payload: &[u8]) -> Vec<u8> {
  let mut v = tag.to_vec();
  v.extend_from_slice(&(payload.len() as u32).to_le_bytes());
  v.extend_from_slice(payload);
  v
}

/// A REGS chunk listing `regs`, given in the chunk's order
/// (AX BX CX DX CS SS DS ES SP BP SI DI IP FLAGS) as (index, value).
fn regs(regs: &[(usize, u16)]) -> Vec<u8> {
  let mut mask = 0u16;
  for (i, _) in regs {
    mask |= 1 << i;
  }
  let mut p = mask.to_le_bytes().to_vec();
  let mut sorted = regs.to_vec();
  sorted.sort();
  for (_, v) in sorted {
    p.extend_from_slice(&v.to_le_bytes());
  }
  chunk(b"REGS", &p)
}

fn ram(entries: &[(u32, u8)]) -> Vec<u8> {
  let mut p = (entries.len() as u32).to_le_bytes().to_vec();
  for (a, v) in entries {
    p.extend_from_slice(&a.to_le_bytes());
    p.push(*v);
  }
  chunk(b"RAM ", &p)
}

/// `inc ax` at 0000:0000: AX 1 -> 2, IP 0 -> 1.
fn inc_test(index: u32, name: &str, hash_byte: u8) -> Vec<u8> {
  let mut body = index.to_le_bytes().to_vec();
  let mut name_p = (name.len() as u32).to_le_bytes().to_vec();
  name_p.extend_from_slice(name.as_bytes());
  body.extend(chunk(b"NAME", &name_p));
  let mut byts = 2u32.to_le_bytes().to_vec();
  byts.extend_from_slice(&[0x40, 0xF4]);
  body.extend(chunk(b"BYTS", &byts));
  let all: Vec<(usize, u16)> = (0..14).map(|i| (i, if i == 0 { 1 } else if i == 13 { 0x0002 } else { 0 })).collect();
  let mut init = regs(&all);
  init.extend(ram(&[(0, 0x40), (1, 0xF4)]));
  body.extend(chunk(b"INIT", &init));
  let mut fina = regs(&[(0, 2), (12, 1)]);
  fina.extend(ram(&[]));
  body.extend(chunk(b"FINA", &fina));
  body.extend(chunk(b"CYCL", &[0, 0, 0, 0]));
  body.extend(chunk(b"HASH", &[hash_byte; 20]));
  chunk(b"TEST", &body)
}

fn moo_file(tests: &[Vec<u8>]) -> Vec<u8> {
  let mut hdr = vec![1u8, 1, 0, 0];
  hdr.extend_from_slice(&(tests.len() as u32).to_le_bytes());
  hdr.extend_from_slice(b"286 ");
  let mut f = chunk(b"MOO ", &hdr);
  f.extend(chunk(b"META", &[0u8; 30]));
  for t in tests {
    f.extend_from_slice(t);
  }
  f
}

#[test]
fn moo_file_is_read_test_by_test() {
  let data = moo_file(&[inc_test(0, "inc ax", 0xAB), inc_test(1, "inc ax again", 0xCD)]);
  let tests = parse_moo(&data).unwrap();
  assert_eq!(tests.len(), 2);
  assert_eq!(tests[0].name, "inc ax");
  assert_eq!(tests[1].name, "inc ax again");
  assert_eq!(tests[0].bytes, vec![0x40, 0xF4]);
  assert_eq!(tests[0].hash, Some([0xAB; 20]));
  assert_eq!(tests[0].exception, None);
  match tests[0].initial.regs {
    TestRegs::Sixteen(r) => {
      assert_eq!(r[0], Some(1));
      assert_eq!(r[13], Some(0x0002));
    }
    TestRegs::ThirtyTwo => panic!("expected 16-bit registers"),
  }
  match tests[0].fin.regs {
    TestRegs::Sixteen(r) => {
      assert_eq!(r[0], Some(2));
      // IP is the chunk's 13th register and the library's 9th.
      assert_eq!(r[8], Some(1));
      assert_eq!(r[1], None);
    }
    TestRegs::ThirtyTwo => panic!("expected 16-bit registers"),
  }
  assert_eq!(tests[0].initial.ram, vec![RamEntry { address: 0, value: 0x40 }, RamEntry { address: 1, value: 0xF4 }]);
}

#[test]
fn malformed_moo_files_are_refused() {
  assert_eq!(
    parse_moo(&[0x1f, 0x8b, 0, 0]).unwrap_err(),
    "Input appears to be gzip-compressed; rebuild with the `gzip` feature enabled."
  );
  assert_eq!(parse_moo(b"MOO ").unwrap_err(), "unexpected end of MOO data");
  assert_eq!(parse_moo(&chunk(b"TEST", &[0; 12])).unwrap_err(), "Expected FileHeader chunk at the start of the file.");
  assert_eq!(parse_moo(&chunk(b"ZZZZ", &[0; 12])).unwrap_err(), "unknown MOO chunk type");
  let mut bad_cpu = moo_file(&[]);
  bad_cpu[16..20].copy_from_slice(b"Z80 ");
  assert_eq!(parse_moo(&bad_cpu).unwrap_err(), "Invalid CPU type");
  // A test without its hash.
  let mut t = inc_test(0, "x", 1);
  let n = t.len();
  t.truncate(n - 28);
  let size = (t.len() - 8) as u32;
  t[4..8].copy_from_slice(&size.to_le_bytes());
  assert_eq!(parse_moo(&moo_file(&[t])).unwrap_err(), "Test is missing required HASH chunk.");
  // Fewer tests than the header counts.
  let mut short = moo_file(&[inc_test(0, "x", 1)]);
  short[12] = 2;
  assert_eq!(parse_moo(&short).unwrap_err(), "unexpected end of MOO data");
}

#[test]
fn moo_file_runs_with_its_form_policy() {
  let data = moo_file(&[inc_test(0, "inc ax", 0xAB)]);
  let report = run_moo_file("dir/40.MOO", Some("40.MOO"), &data, None, None, false, true, None, &[]).unwrap();
  assert_eq!(report.total, 1);
  assert_eq!(report.stride, 1);
  assert_eq!(report.summary.visited, 1);
  assert_eq!(report.summary.executed, 1);
  assert_eq!(report.summary.pass + report.summary.fail, 1);
  let err = run_moo_file("dir/x.MOO", None, b"junkjunk", None, None, false, false, None, &[]).unwrap_err();
  assert_eq!(err, "failed to parse dir/x.MOO: unknown MOO chunk type");
}

#[test]
fn writer_reader_roundtrip_preserves_register() {
  // AX BX CX DX SI DI BP SP IP CS DS ES SS FLAGS
  let init = [
    Some(0x1234u16), Some(0), Some(0), Some(0), Some(0), Some(0), Some(0), Some(0), Some(0), Some(0xF000), Some(0),
    Some(0), Some(0), Some(0x0002),
  ];
  let mut fin = [None; 14];
  fin[0] = Some(0x1235);
  let test = SstTest {
    name: "roundtrip".to_string(),
    bytes: vec![0x04, 0x01],
    initial: TestState { regs: TestRegs::Sixteen(init), ram: vec![] },
    fin: TestState { regs: TestRegs::Sixteen(fin), ram: vec![] },
    exception: None,
    hash: None,
  };
  let buf = write_moo(&[test]);
  let read = parse_moo(&buf).expect("read failed");
  assert_eq!(read.len(), 1);
  let final_regs = match read[0].fin.regs {
    TestRegs::Sixteen(r) => r,
    _ => panic!("expected 16-bit regs"),
  };
  assert_eq!(final_regs[0], Some(0x1235));
  assert!(read[0].hash.is_some());
}

#[test]
fn written_tests_read_back_field_by_field() {
  let data = moo_file(&[inc_test(0, "inc ax", 0xAB)]);
  let mut tests = parse_moo(&data).unwrap();
  tests[0].exception = Some(6);
  let again = parse_moo(&write_moo(&tests)).unwrap();
  assert_eq!(again.len(), 1);
  assert_eq!(again[0].name, tests[0].name);
  assert_eq!(again[0].bytes, tests[0].bytes);
  assert_eq!(again[0].hash, tests[0].hash);
  assert_eq!(again[0].exception, Some(6));
  assert_eq!(again[0].initial.ram, tests[0].initial.ram);
  match (again[0].fin.regs, tests[0].fin.regs) {
    (TestRegs::Sixteen(a), TestRegs::Sixteen(b)) => assert_eq!(a, b),
    _ => panic!("expected 16-bit regs"),
  }
}
