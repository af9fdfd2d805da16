use dis86::flags::{FLAG_AF, FLAG_OF};
use dis86::policy::policy_for_file;
use dis86::runner::{
  is_prefix_filtered, micro_entry_ok, run_file, run_test, sample_detail, FlagsDiff, Outcome, RamEntry, RunOpts,
  SstTest, TestRegs, TestState, DEFAULT_FLAGS_UMASK,
};

/// Registers in the order AX BX CX DX SI DI BP SP IP CS DS ES SS FLAGS.
#[derive(Clone, Copy)]
struct Regs {
  ax: u16,
  bx: u16,
  cx: u16,
  dx: u16,
  si: u16,
  di: u16,
  bp: u16,
  sp: u16,
  ip: u16,
  cs: u16,
  ds: u16,
  es: u16,
  ss: u16,
  flags: u16,
}

impl Regs {
  fn array(&self) -> [u16; 14] {
    [
      self.ax, self.bx, self.cx, self.dx, self.si, self.di, self.bp, self.sp, self.ip, self.cs,
      self.ds, self.es, self.ss, self.flags,
    ]
  }
}

fn base_init() -> Regs {
  Regs {
    ax: 0, bx: 0, cx: 0, dx: 0, si: 0, di: 0, bp: 0, sp: 0, ip: 0, cs: 0, ds: 0, es: 0, ss: 0,
    flags: 0x0002,
  }
}

fn ram(entries: &[(u32, u8)]) -> Vec<RamEntry> {
  entries.iter().map(|&(a, v)| RamEntry { address: a, value: v }).collect()
}

/// A final state lists only the registers that differ from the initial one.
fn sparse(init: &Regs, fin: &Regs) -> [Option<u16>; 14] {
  let i = init.array();
  let f = fin.array();
  let mut out = [None; 14];
  for k in 0..14 {
    if f[k] != i[k] {
      out[k] = Some(f[k]);
    }
  }
  out
}

fn make_test_hashed(
  name: &str,
  bytes: &[u8],
  init: Regs,
  fin: Regs,
  init_ram: Vec<RamEntry>,
  fin_ram: Vec<RamEntry>,
  exception: Option<u8>,
  hash: Option<[u8; 20]>,
) -> SstTest {
  let full = init.array().map(Some);
  SstTest {
    name: name.to_string(),
    bytes: bytes.to_vec(),
    initial: TestState { regs: TestRegs::Sixteen(full), ram: init_ram },
    fin: TestState { regs: TestRegs::Sixteen(sparse(&init, &fin)), ram: fin_ram },
    exception,
    hash,
  }
}

fn make_test(
  name: &str,
  bytes: &[u8],
  init: Regs,
  fin: Regs,
  init_ram: Vec<RamEntry>,
  fin_ram: Vec<RamEntry>,
) -> SstTest {
  make_test_hashed(name, bytes, init, fin, init_ram, fin_ram, None, None)
}

fn add_test(init_ax: u16, exp_ax: u16, init_flags: u16, exp_flags: u16) -> SstTest {
  let mut init = base_init();
  init.ax = init_ax;
  init.flags = init_flags;
  let mut fin = init;
  fin.ax = exp_ax;
  fin.ip = 3;
  fin.flags = exp_flags;
  let init_ram = ram(&[(0x00000, 0x04), (0x00001, 0x05), (0x00002, 0xF4)]);
  make_test("add al,5", &[0x04, 0x05, 0xF4], init, fin, init_ram, vec![])
}

fn expect_fail_ax(outcome: &Outcome, expected_ax: u16, actual_ax: u16) {
  match outcome {
    Outcome::Fail { reg_diffs, flags_diff, .. } => {
      assert!(reg_diffs.contains(&("AX".to_string(), expected_ax, actual_ax)));
      assert!(flags_diff.is_none());
    }
    other => panic!("expected Fail, got {:?}", other),
  }
}

fn final_regs(test: &SstTest) -> [Option<u16>; 14] {
  match test.fin.regs {
    TestRegs::Sixteen(r) => r,
    TestRegs::ThirtyTwo => panic!("expected 16-bit"),
  }
}

#[test]
fn pass_add_al_5() {
  let test = add_test(0x7F, 0x84, 0x0002, 0x0896);
  assert_eq!(run_test(&test, &RunOpts::default()), Outcome::Pass);
}

#[test]
fn ip_halt_normalization() {
  let test = add_test(0x7F, 0x84, 0x0002, 0x0896);
  assert_eq!(final_regs(&test)[8], Some(3));
  assert_eq!(run_test(&test, &RunOpts::default()), Outcome::Pass);
}

#[test]
fn sparse_retention_unchanged_regs_do_not_fail() {
  let test = add_test(0x7F, 0x84, 0x0002, 0x0896);
  let fin = final_regs(&test);
  assert_eq!(fin[1], None);
  assert_eq!(fin[9], None);
  assert_eq!(run_test(&test, &RunOpts::default()), Outcome::Pass);
}

#[test]
fn fail_wrong_expected_ax() {
  let test = add_test(0x7F, 0x85, 0x0002, 0x0896);
  expect_fail_ax(&run_test(&test, &RunOpts::default()), 0x85, 0x84);
}

#[test]
fn skip_exception_does_not_step() {
  let init = base_init();
  let mut fin = init;
  fin.ax = 0x10;
  let init_ram = ram(&[(0x00000, 0x90), (0x00001, 0xF4)]);
  let test = make_test_hashed("nop-exc", &[0x90, 0xF4], init, fin, init_ram, vec![], Some(13), None);
  assert_eq!(run_test(&test, &RunOpts::default()), Outcome::SkipException { num: 13 });
}

#[test]
fn decode_err_invalid_opcode() {
  let init = base_init();
  let mut fin = init;
  fin.ip = 3;
  let init_ram = ram(&[(0x00000, 0x64), (0x00001, 0xF4)]);
  let test = make_test("inval", &[0x64, 0xF4], init, fin, init_ram, vec![]);
  assert!(matches!(run_test(&test, &RunOpts::default()), Outcome::DecodeErr(_)));
}

#[test]
fn panic_bucket_repeated_prefix_on_non_string() {
  let init = base_init();
  let mut fin = init;
  fin.ip = 4;
  let init_ram = ram(&[(0x00000, 0xF3), (0x00001, 0x27), (0x00002, 0xF4)]);
  let test = make_test("rep daa", &[0xF3, 0x27, 0xF4], init, fin, init_ram, vec![]);
  assert!(matches!(run_test(&test, &RunOpts::default()), Outcome::Panic(_)));
}

fn mov_test(fin_ram: Vec<RamEntry>) -> SstTest {
  let mut init = base_init();
  init.ds = 0x2000;
  let mut fin = init;
  fin.ip = 6;
  let init_ram = ram(&[
    (0x00000, 0xC6),
    (0x00001, 0x06),
    (0x00002, 0x00),
    (0x00003, 0x00),
    (0x00004, 0x5A),
    (0x00005, 0xF4),
    (0x20000, 0x00),
  ]);
  make_test("mov byte [abs],imm", &[0xC6, 0x06, 0x00, 0x00, 0x5A, 0xF4], init, fin, init_ram, fin_ram)
}

#[test]
fn unexpected_write_reported_when_not_in_final_ram() {
  let test = mov_test(vec![]);
  match run_test(&test, &RunOpts::default()) {
    Outcome::Fail { unexpected_writes, unexpected_writes_total, .. } => {
      assert_eq!(unexpected_writes_total, 1);
      assert!(unexpected_writes.contains(&(0x20000, 0x00, 0x5A)));
    }
    other => panic!("expected Fail, got {:?}", other),
  }
}

#[test]
fn write_declared_in_final_ram_is_not_unexpected() {
  let test = mov_test(ram(&[(0x20000, 0x5A)]));
  assert_eq!(run_test(&test, &RunOpts::default()), Outcome::Pass);
}

#[test]
fn flags_umask_honored() {
  let test = add_test(0x7F, 0x84, 0x0002, 0x089E);
  assert_eq!(run_test(&test, &RunOpts::default()), Outcome::Pass);
  let opts = RunOpts {
    flags_umask: DEFAULT_FLAGS_UMASK | 0x0008,
    count_sensitive_flags: false,
    ..RunOpts::default()
  };
  match run_test(&test, &opts) {
    Outcome::Fail { flags_diff: Some(fd), .. } => {
      assert_eq!(fd.expected, 0x089E);
      assert_eq!(fd.actual, 0x0896);
      assert_eq!(fd.umask, DEFAULT_FLAGS_UMASK | 0x0008);
    }
    other => panic!("expected Fail, got {:?}", other),
  }
}

#[test]
fn skip_32bit_state() {
  let test = SstTest {
    name: "32bit".to_string(),
    bytes: vec![0x90, 0xF4],
    initial: TestState { regs: TestRegs::ThirtyTwo, ram: vec![] },
    fin: TestState { regs: TestRegs::ThirtyTwo, ram: vec![] },
    exception: None,
    hash: None,
  };
  assert_eq!(run_test(&test, &RunOpts::default()), Outcome::Skip32BitState);
}

#[test]
fn invalid_vector_out_of_bounds_ram() {
  let init = base_init();
  let mut fin = init;
  fin.ip = 2;
  let init_ram = ram(&[(0x10FFF0, 0x00)]);
  let test = make_test("oob", &[0x90, 0xF4], init, fin, init_ram, vec![]);
  assert!(matches!(run_test(&test, &RunOpts::default()), Outcome::InvalidVector(_)));
}

#[test]
fn prefix_filter_predicate() {
  assert!(is_prefix_filtered(&[0x2E, 0x04, 0x05, 0xF4]));
  assert!(is_prefix_filtered(&[0x26, 0x90, 0xF4]));
  assert!(is_prefix_filtered(&[0xF3, 0x27, 0xF4]));
  assert!(!is_prefix_filtered(&[0x04, 0x05, 0xF4]));
  assert!(!is_prefix_filtered(&[0x90, 0xF4]));
  assert!(!is_prefix_filtered(&[0xF3, 0xA4, 0xF4]));
  assert!(!is_prefix_filtered(&[0xF2, 0xAE, 0xF4]));
  assert!(!is_prefix_filtered(&[0x3E, 0xA5, 0xF4]));
  assert!(!is_prefix_filtered(&[0xF0, 0xAA, 0xF4]));
  assert!(!is_prefix_filtered(&[0xA4, 0xF4]));
  assert!(is_prefix_filtered(&[0xF3, 0xA3, 0xF4]));
}

#[test]
fn run_file_conservative_filter_counts_prefix_tests_as_filtered() {
  let prefix_init = base_init();
  let mut prefix_fin = prefix_init;
  prefix_fin.ax = 0x0005;
  prefix_fin.flags = 0x0006;
  prefix_fin.ip = 4;
  let prefix_ram = ram(&[(0x00000, 0x2E), (0x00001, 0x04), (0x00002, 0x05), (0x00003, 0xF4)]);
  let prefix_test =
    make_test("cs add", &[0x2E, 0x04, 0x05, 0xF4], prefix_init, prefix_fin, prefix_ram, vec![]);
  let tests = vec![add_test(0x7F, 0x84, 0x0002, 0x0896), prefix_test];
  let summary = run_file(&tests, &RunOpts::default(), 1, true, None, |_, _| {});
  assert_eq!(summary.executed, 1);
  assert_eq!(summary.filtered, 1);
  assert_eq!(summary.pass, 1);
  let summary = run_file(&tests, &RunOpts::default(), 1, false, None, |_, _| {});
  assert_eq!(summary.executed, 2);
  assert_eq!(summary.pass, 2);
}

fn mul_test(init_flags: u16, fin_flags: u16) -> SstTest {
  let mut init = base_init();
  init.ax = 0x0010;
  init.flags = init_flags;
  let mut fin = init;
  fin.ax = 0x0100;
  fin.dx = 0;
  fin.ip = 3;
  fin.flags = fin_flags;
  let init_ram = ram(&[(0x00000, 0xF7), (0x00001, 0xE0), (0x00002, 0xF4)]);
  make_test("mul ax", &[0xF7, 0xE0, 0xF4], init, fin, init_ram, vec![])
}

fn div_test(init_flags: u16, fin_flags: u16) -> SstTest {
  let mut init = base_init();
  init.ax = 0x0010;
  init.cx = 0x0004;
  init.flags = init_flags;
  let mut fin = init;
  fin.ax = 0x0004;
  fin.ip = 3;
  fin.flags = fin_flags;
  let init_ram = ram(&[(0x00000, 0xF7), (0x00001, 0xF1), (0x00002, 0xF4)]);
  make_test("div cx", &[0xF7, 0xF1, 0xF4], init, fin, init_ram, vec![])
}

#[test]
fn mul_umask_0801_ignores_undefined_flags() {
  let policy_umask = policy_for_file("F7.4").unwrap().flags_umask.unwrap();
  let test = mul_test(0x0002, 0x0002 | 0x00C4);
  let opts = RunOpts { flags_umask: policy_umask, ..RunOpts::default() };
  assert_eq!(run_test(&test, &opts), Outcome::Pass);
}

#[test]
fn mul_umask_0801_still_compares_cf() {
  let policy_umask = policy_for_file("F7.4").unwrap().flags_umask.unwrap();
  let test = mul_test(0x0002, 0x0002 | 0x0001);
  let opts = RunOpts { flags_umask: policy_umask, ..RunOpts::default() };
  assert!(matches!(run_test(&test, &opts), Outcome::Fail { flags_diff: Some(_), .. }));
}

#[test]
fn div_umask_0000_ignores_all_flags() {
  let policy_umask = policy_for_file("F7.6").unwrap().flags_umask.unwrap();
  let test = div_test(0x0002, 0xFFFF);
  let opts = RunOpts { flags_umask: policy_umask, ..RunOpts::default() };
  assert_eq!(run_test(&test, &opts), Outcome::Pass);
}

#[test]
fn absent_final_ip_short_branch_onto_halt_passes_d012() {
  let mut init = base_init();
  init.ip = 2;
  let fin = init;
  let init_ram = ram(&[(0x00001, 0xF4), (0x00002, 0xEB), (0x00003, 0xFD)]);
  let test = make_test("jmp short onto halt", &[0xEB, 0xFD, 0xF4], init, fin, init_ram, vec![]);
  assert_eq!(run_test(&test, &RunOpts::default()), Outcome::Pass);
}

#[test]
fn revocation_skips_matching_hashes() {
  let t0 = add_test(0x7F, 0x84, 0x0002, 0x0896);
  let skip = vec![std::iter::repeat("11").take(20).collect::<String>()];
  let init = base_init();
  let mut fin = init;
  fin.ip = 2;
  let init_ram = ram(&[(0x00000, 0x90), (0x00001, 0xF4)]);
  let t1 = make_test_hashed("nop-hashed", &[0x90, 0xF4], init, fin, init_ram, vec![], None, Some([0x11; 20]));
  let tests = vec![t0, t1];
  let summary = run_file(&tests, &RunOpts::default(), 1, false, Some(&skip), |_, _| {});
  assert_eq!(summary.revoked, 1);
  assert_eq!(summary.executed, 1);
  assert_eq!(summary.pass, 1);
}

// ---------------------------------------------------------------------------
// Shift and rotation FLAGS masks refined by the count
// ---------------------------------------------------------------------------

#[test]
fn shift_count_one_reenables_defined_of() {
  let mut init = base_init();
  init.ax = 0x0040;
  init.cx = 0x0001;
  let mut fin = init;
  fin.ax = 0x0080;
  fin.ip = 3;
  fin.flags = 0x0082;
  let init_ram = ram(&[(0x00000, 0xD2), (0x00001, 0xE0), (0x00002, 0xF4)]);
  let test = make_test("shl al,cl count=1", &[0xD2, 0xE0, 0xF4], init, fin, init_ram, vec![]);
  let policy_umask = policy_for_file("D2.4").unwrap().flags_umask.unwrap();
  let opts = RunOpts { flags_umask: policy_umask, ..RunOpts::default() };
  match run_test(&test, &opts) {
    Outcome::Fail { flags_diff: Some(fd), .. } => {
      assert_eq!(fd.umask, 0x0FC7);
      assert_eq!((fd.expected ^ fd.actual) & FLAG_OF, FLAG_OF);
    }
    other => panic!("defined count==1 OF mismatch must fail, got {:?}", other),
  }
}

#[test]
fn shift_count_gt_one_keeps_of_masked() {
  let mut init = base_init();
  init.ax = 0x0040;
  init.cx = 0x0002;
  let mut fin = init;
  fin.ax = 0x0000;
  fin.ip = 3;
  fin.flags = 0x0847;
  let init_ram = ram(&[(0x00000, 0xD2), (0x00001, 0xE0), (0x00002, 0xF4)]);
  let test = make_test("shl al,cl count=2", &[0xD2, 0xE0, 0xF4], init, fin, init_ram, vec![]);
  let policy_umask = policy_for_file("D2.4").unwrap().flags_umask.unwrap();
  let opts = RunOpts { flags_umask: policy_umask, ..RunOpts::default() };
  assert_eq!(run_test(&test, &opts), Outcome::Pass);
}

#[test]
fn rol_preserved_af_is_compared() {
  let mut init = base_init();
  init.ax = 0x0080;
  init.flags = 0x0012;
  let mut fin = init;
  fin.ax = 0x0001;
  fin.ip = 3;
  fin.flags = 0x0803;
  let init_ram = ram(&[(0x00000, 0xD0), (0x00001, 0xC0), (0x00002, 0xF4)]);
  let test = make_test("rol al,1 preserves af", &[0xD0, 0xC0, 0xF4], init, fin, init_ram, vec![]);
  let policy_umask = policy_for_file("D0.0").unwrap().flags_umask.unwrap();
  let opts = RunOpts { flags_umask: policy_umask, ..RunOpts::default() };
  match run_test(&test, &opts) {
    Outcome::Fail { flags_diff: Some(fd), .. } => {
      assert_eq!(fd.umask, DEFAULT_FLAGS_UMASK);
      assert_eq!((fd.expected ^ fd.actual) & FLAG_AF, FLAG_AF);
    }
    other => panic!("ROL preserved-AF mismatch must fail, got {:?}", other),
  }
}

// ---------------------------------------------------------------------------
// Descriptions and summaries
// ---------------------------------------------------------------------------

#[test]
fn detail_of_simple_outcomes() {
  let t = add_test(0x7F, 0x84, 0x0002, 0x0896);
  assert_eq!(sample_detail(&t, &Outcome::Pass), "pass");
  assert_eq!(sample_detail(&t, &Outcome::DecodeErr("bad".to_string())), "decode: bad");
  assert_eq!(sample_detail(&t, &Outcome::Panic("boom".to_string())), "panic: boom");
  assert_eq!(sample_detail(&t, &Outcome::SkipException { num: 13 }), "exception #13");
  assert_eq!(sample_detail(&t, &Outcome::Skip32BitState), "32-bit state");
  assert_eq!(sample_detail(&t, &Outcome::InvalidVector("x".to_string())), "invalid: x");
}

#[test]
fn detail_of_failure_lists_every_part() {
  let t = add_test(0x7F, 0x84, 0x0002, 0x0896);
  let o = Outcome::Fail {
    reg_diffs: vec![("AX".to_string(), 0x85, 0x84), ("FLAGS".to_string(), 1, 2)],
    ram_diffs: vec![(0x20000, 0x5A, 0x00)],
    unexpected_writes: vec![(0x00010, 1, 255), (0x00011, 0, 7)],
    unexpected_writes_total: 3,
    flags_diff: Some(FlagsDiff { expected: 0x089E, actual: 0x0896, umask: 0x0FDF }),
  };
  assert_eq!(
    sample_detail(&t, &o),
    "flags exp=0x089E act=0x0896 umask=0x0FDF; AX exp=0x0085 act=0x0084; \
     [0x20000] exp=0x5A act=0x00; unexpected_writes 3 (shown: [0x00010] 1->255 [0x00011] 0->7)"
  );
  let empty = Outcome::Fail {
    reg_diffs: vec![],
    ram_diffs: vec![],
    unexpected_writes: vec![],
    unexpected_writes_total: 0,
    flags_diff: None,
  };
  assert_eq!(sample_detail(&t, &empty), "fail");
}

#[test]
fn detail_keeps_flags_register_entry_without_flags_diff() {
  let t = add_test(0x7F, 0x84, 0x0002, 0x0896);
  let o = Outcome::Fail {
    reg_diffs: vec![("FLAGS".to_string(), 0x12, 0x34)],
    ram_diffs: vec![],
    unexpected_writes: vec![],
    unexpected_writes_total: 0,
    flags_diff: None,
  };
  assert_eq!(sample_detail(&t, &o), "FLAGS exp=0x0012 act=0x0034");
}

#[test]
fn hash_string_is_lower_hex_or_marker() {
  let mut t = add_test(0x7F, 0x84, 0x0002, 0x0896);
  assert_eq!(t.hash_string(), "##NOHASH##");
  let mut h = [0u8; 20];
  h[0] = 0xAB;
  h[19] = 0x0C;
  t.hash = Some(h);
  assert_eq!(t.hash_string(), format!("ab{}0c", "00".repeat(18)));
}

#[test]
fn run_file_strides_and_samples_failures() {
  let tests = vec![
    add_test(0x7F, 0x85, 0x0002, 0x0896),
    add_test(0x7F, 0x84, 0x0002, 0x0896),
    add_test(0x7F, 0x86, 0x0002, 0x0896),
    add_test(0x7F, 0x84, 0x0002, 0x0896),
  ];
  let summary = run_file(&tests, &RunOpts::default(), 2, false, None, |_, _| {});
  assert_eq!(summary.total, 4);
  assert_eq!(summary.visited, 2);
  assert_eq!(summary.executed, 2);
  assert_eq!(summary.fail, 2);
  assert_eq!(summary.pass, 0);
  assert_eq!(summary.samples.len(), 2);
  assert_eq!(summary.samples[0].idx, 0);
  assert_eq!(summary.samples[1].idx, 2);
  assert_eq!(summary.samples[0].hash, "##NOHASH##");
  assert_eq!(summary.samples[0].detail, "AX exp=0x0085 act=0x0084");
  let all = run_file(&tests, &RunOpts::default(), 0, false, None, |_, _| {});
  assert_eq!(all.visited, 4);
  assert_eq!(all.pass, 2);
  assert_eq!(all.fail, 2);
}

#[test]
fn run_file_keeps_at_most_five_samples() {
  let tests: Vec<SstTest> = (0..7).map(|_| add_test(0x7F, 0x85, 0x0002, 0x0896)).collect();
  let summary = run_file(&tests, &RunOpts::default(), 1, false, None, |_, _| {});
  assert_eq!(summary.fail, 7);
  assert_eq!(summary.samples.len(), 5);
  assert_eq!(summary.samples[4].idx, 4);
}

#[test]
fn divide_by_zero_is_a_panic() {
  let mut init = base_init();
  init.ax = 0x0010;
  let fin = init;
  let init_ram = ram(&[(0x00000, 0xF7), (0x00001, 0xF1), (0x00002, 0xF4)]);
  let test = make_test("div cx by zero", &[0xF7, 0xF1, 0xF4], init, fin, init_ram, vec![]);
  assert_eq!(run_test(&test, &RunOpts::default()), Outcome::Panic("Divide Error".to_string()));
}

#[test]
fn unchecked_writes_are_not_reported() {
  let test = mov_test(vec![]);
  let opts = RunOpts { check_extra_writes: false, ..RunOpts::default() };
  assert_eq!(run_test(&test, &opts), Outcome::Pass);
}

#[test]
fn run_file_reports_progress_after_each_visited_test() {
  let tests: Vec<SstTest> = (0..5).map(|_| add_test(0x7F, 0x84, 0x0002, 0x0896)).collect();
  let calls = std::cell::RefCell::new(Vec::new());
  let summary = run_file(&tests, &RunOpts::default(), 2, false, None, |completed, visited| {
    calls.borrow_mut().push((completed, visited));
  });
  assert_eq!(summary.visited, 3);
  assert_eq!(*calls.borrow(), vec![(1, 1), (2, 2), (3, 3)]);
}

#[test]
fn micro_entries_are_checked_against_their_kind() {
  let test = add_test(0x7F, 0x84, 0x0002, 0x0896);
  let pass = run_test(&test, &RunOpts::default());
  assert_eq!(pass, Outcome::Pass);
  assert!(micro_entry_ok("pass", &test, &pass));
  assert!(!micro_entry_ok("failrepro", &test, &pass));
  let failing = add_test(0x7F, 0x85, 0x0002, 0x0896);
  let fail = run_test(&failing, &RunOpts::default());
  assert!(micro_entry_ok("failrepro", &failing, &fail));
  assert!(!micro_entry_ok("pass", &failing, &fail));
  assert!(!micro_entry_ok("other", &test, &pass));
  let mut excepted = test.clone();
  excepted.exception = Some(0);
  assert!(!micro_entry_ok("pass", &excepted, &pass));
}
