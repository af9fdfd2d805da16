use std::collections::VecDeque;

use dis86::cpu::{Cpu, Register, AX, BX, CS, FLAGS, SP};
use dis86::emu::{Emu, StepOutcome};
use dis86::fixture::{MemoryRange, MemoryWindow};
use dis86::flags::Flag;
use dis86::segoff::SegOff;
use dis86::validator::{
  advance_candidate, check_step_outcome, crossing_result, compare_initial_states, compare_memory, cpu_text,
  differing_registers, first_difference, synchronize_initial_variance, MemoryDiff,
};
use dis86::value::Value;

struct FakeEmu {
  outcomes: VecDeque<StepOutcome>,
  steps: u32,
  fail_steps: bool,
  finished: bool,
  cpu: Cpu,
  mem: Vec<u8>,
}

impl FakeEmu {
  fn new(outcomes: &[StepOutcome]) -> Self {
    Self {
      outcomes: outcomes.iter().copied().collect(),
      steps: 0,
      fail_steps: false,
      finished: false,
      cpu: Cpu::default(),
      mem: vec![0u8; 0x10000],
    }
  }

  fn with_mem(mem: Vec<u8>) -> Self {
    Self { outcomes: VecDeque::new(), steps: 0, fail_steps: false, finished: false, cpu: Cpu::default(), mem }
  }
}

impl Emu for FakeEmu {
  // The views the library's contracts speak of: the registers and memory
  // it reports, and no constraint on a step.
  fn cpu(&self) -> Cpu {
    self.cpu
  }
  fn last_cpu(&self) -> Cpu {
    self.cpu
  }
  fn stepped(self, _after: Self, _r: Result<StepOutcome, String>) -> bool {
    true
  }
  fn done(&self) -> bool {
    self.finished
  }
  fn mem_size(&self) -> usize {
    self.mem.len()
  }
  fn mem_byte(&self, i: usize) -> u8 {
    self.mem[i]
  }
  fn addr(&self) -> SegOff {
    SegOff::new(0, 0)
  }
  fn finished(&self) -> bool {
    self.finished
  }
  fn step(&mut self) -> Result<StepOutcome, String> {
    self.steps += 1;
    if self.fail_steps {
      return Err("candidate fault".to_string());
    }
    Ok(self.outcomes.pop_front().unwrap_or_else(StepOutcome::single))
  }
  fn cpu_state(&self) -> Cpu {
    self.cpu
  }
  fn last_cpu_state(&self) -> Cpu {
    self.cpu
  }
  fn instr_addr(&self) -> SegOff {
    SegOff::new(0, 0)
  }
  fn reg_read(&self, reg: Register) -> Value {
    self.cpu.reg_read(reg)
  }
  fn reg_write(&mut self, reg: Register, value: Value) {
    self.cpu.reg_write(reg, value);
  }
  fn flag_write(&mut self, _flag: Flag, _set: bool) {}
  fn mem_slice(&self, addr: SegOff, len: u32) -> &[u8] {
    &self.mem[addr.abs_normal()..][..len as usize]
  }
  fn mem_len(&self) -> usize {
    self.mem.len()
  }
  fn interrupt_handler(&self, _vector: u8) -> Option<SegOff> {
    None
  }
}

#[test]
fn interrupt_shadow_node_advances_every_decoded_instruction() {
  let node = StepOutcome { decoded_instructions: 2, step_flags: StepOutcome::MULTI_INSN };
  let mut reference = FakeEmu::new(&[node]);
  let mut candidate = FakeEmu::new(&[]);
  assert_eq!(advance_candidate(&mut reference, &mut candidate), Ok(node));
  assert_eq!(candidate.steps, 2);
}

#[test]
fn rep_same_pc_boundary_advances_consumed_instruction() {
  let node = StepOutcome { decoded_instructions: 1, step_flags: StepOutcome::SAME_PC };
  let mut reference = FakeEmu::new(&[node]);
  let mut candidate = FakeEmu::new(&[]);
  assert_eq!(advance_candidate(&mut reference, &mut candidate), Ok(node));
  assert_eq!(candidate.steps, 1);
}

#[test]
fn terminal_boundaries_do_not_advance_candidate() {
  let exit = StepOutcome { decoded_instructions: 0, step_flags: StepOutcome::TARGET_EXIT };
  let mut reference = FakeEmu::new(&[exit]);
  let mut candidate = FakeEmu::new(&[]);
  assert_eq!(advance_candidate(&mut reference, &mut candidate), Ok(exit));
  assert_eq!(candidate.steps, 0);

  let end = StepOutcome { decoded_instructions: 0, step_flags: StepOutcome::END_ACK };
  let mut reference = FakeEmu::new(&[end]);
  assert!(advance_candidate(&mut reference, &mut candidate).unwrap_err().contains("end acknowledgement"));
}

#[test]
fn fault_and_invalid_metadata_are_explicit_errors() {
  let fault = StepOutcome { decoded_instructions: 1, step_flags: StepOutcome::FAULT };
  let mut reference = FakeEmu::new(&[fault]);
  let mut candidate = FakeEmu::new(&[]);
  assert!(advance_candidate(&mut reference, &mut candidate).unwrap_err().contains("but emu86 did not"));
  assert_eq!(candidate.steps, 1);

  let invalid = StepOutcome { decoded_instructions: 2, step_flags: 0 };
  let mut reference = FakeEmu::new(&[invalid]);
  assert!(advance_candidate(&mut reference, &mut candidate).unwrap_err().contains("inconsistent"));
}

#[test]
fn initial_comparison_normalizes_only_observed_dos_variance() {
  let mut dosemu = Cpu::default();
  let mut emu86 = Cpu::default();
  dosemu.reg_write_u16(AX, 0xffff);
  dosemu.reg_write_u16(FLAGS, 0xf202);
  emu86.reg_write_u16(FLAGS, 0x0200);
  assert!(compare_initial_states(&dosemu, &emu86).is_ok());
  dosemu.reg_write_u16(CS, 1);
  let error = compare_initial_states(&dosemu, &emu86).unwrap_err();
  assert!(error.contains("initial state divergence in CS"));
}

#[test]
fn initial_variance_is_synchronized_for_strict_later_comparisons() {
  let mut reference = FakeEmu::new(&[]);
  let mut candidate = FakeEmu::new(&[]);
  reference.cpu.reg_write_u16(BX, 0x1234);
  reference.cpu.reg_write_u16(FLAGS, 0xf202);
  synchronize_initial_variance(&reference, &mut candidate);
  assert_eq!(candidate.cpu.reg_read_u16(BX), 0x1234);
  assert_eq!(candidate.cpu.reg_read_u16(FLAGS), 0xf202);
  assert_eq!(candidate.cpu.reg_read_u16(SP), 0);
}

#[test]
fn compare_memory_reports_first_differing_byte() {
  let reference = FakeEmu::with_mem(vec![0x00; 0x100]);
  let mut candidate = FakeEmu::with_mem(vec![0x00; 0x100]);
  candidate.mem[0x30] = 0xab;
  candidate.mem[0x10] = 0xcd;
  let window = MemoryWindow { ranges: vec![MemoryRange { start: 0x10, end: 0x80 }] };
  let diff = compare_memory(&reference, &candidate, &window).unwrap();
  assert_eq!(diff.abs, 0x10);
  assert_eq!(diff.reference_byte, 0x00);
  assert_eq!(diff.emu86_byte, 0xcd);
}

#[test]
fn compare_memory_is_identical_when_buffers_match() {
  let reference = FakeEmu::with_mem(vec![0x5a; 0x100]);
  let candidate = FakeEmu::with_mem(vec![0x5a; 0x100]);
  let window = MemoryWindow { ranges: vec![MemoryRange { start: 0x0, end: 0x100 }] };
  assert_eq!(compare_memory(&reference, &candidate, &window), None);
}

#[test]
fn compare_memory_clamps_to_smaller_backend() {
  let reference = FakeEmu::with_mem(vec![0x11; 0x40]);
  let candidate = FakeEmu::with_mem(vec![0x11; 0x100]);
  let window = MemoryWindow { ranges: vec![MemoryRange { start: 0x0, end: 0x100 }] };
  assert_eq!(compare_memory(&reference, &candidate, &window), None);
}

#[test]
fn compare_memory_skips_ranges_past_the_limit() {
  let reference = FakeEmu::with_mem(vec![0x11; 0x40]);
  let candidate = FakeEmu::with_mem(vec![0x11; 0x40]);
  let window = MemoryWindow { ranges: vec![MemoryRange { start: 0x1000, end: 0x2000 }] };
  assert_eq!(compare_memory(&reference, &candidate, &window), None);
}

// ---------------------------------------------------------------------------
// More cases
// ---------------------------------------------------------------------------

#[test]
fn unknown_flags_are_reported_in_hex() {
  let o = StepOutcome { decoded_instructions: 1, step_flags: 0x120 };
  assert_eq!(check_step_outcome(o), Err("backend published unknown step flags 0x120".to_string()));
}

#[test]
fn exit_with_instructions_and_empty_nodes_are_refused() {
  let exit = StepOutcome { decoded_instructions: 1, step_flags: StepOutcome::TARGET_EXIT };
  assert_eq!(
    check_step_outcome(exit),
    Err("target-exit boundary unexpectedly consumed decoded instructions".to_string())
  );
  let empty = StepOutcome { decoded_instructions: 0, step_flags: 0 };
  assert_eq!(
    check_step_outcome(empty),
    Err("non-terminal boundary consumed zero decoded instructions".to_string())
  );
  assert_eq!(check_step_outcome(StepOutcome::single()), Ok(()));
}

#[test]
fn both_backends_faulting_names_the_instruction() {
  let fault = StepOutcome { decoded_instructions: 2, step_flags: StepOutcome::FAULT | StepOutcome::MULTI_INSN };
  let mut reference = FakeEmu::new(&[fault]);
  let mut candidate = FakeEmu::new(&[]);
  candidate.fail_steps = true;
  assert_eq!(
    advance_candidate(&mut reference, &mut candidate),
    Err("both backends faulted while consuming instruction 1/2: candidate fault".to_string())
  );
  let mut reference = FakeEmu::new(&[StepOutcome::single()]);
  assert_eq!(advance_candidate(&mut reference, &mut candidate), Err("candidate fault".to_string()));
}

#[test]
fn reference_fault_message_counts_instructions() {
  let fault = StepOutcome { decoded_instructions: 3, step_flags: StepOutcome::FAULT | StepOutcome::MULTI_INSN };
  let mut reference = FakeEmu::new(&[fault]);
  let mut candidate = FakeEmu::new(&[]);
  assert_eq!(
    advance_candidate(&mut reference, &mut candidate),
    Err("dosemu2 faulted after 3 decoded instruction(s), but emu86 did not".to_string())
  );
  assert_eq!(candidate.steps, 3);
}

#[test]
fn differing_registers_in_register_order() {
  let mut a = Cpu::default();
  let b = Cpu::default();
  a.reg_write_u16(FLAGS, 1);
  a.reg_write_u16(AX, 1);
  a.reg_write_u16(SP, 1);
  assert_eq!(differing_registers(&a, &b), vec!["AX", "SP", "FLAGS"]);
  assert!(differing_registers(&a, &a).is_empty());
}

#[test]
fn initial_divergence_message_shows_normalised_states() {
  let mut dosemu = Cpu::default();
  let emu86 = Cpu::default();
  dosemu.reg_write_u16(CS, 0x0123);
  dosemu.reg_write_u16(AX, 0x5555);
  let error = compare_initial_states(&dosemu, &emu86).unwrap_err();
  assert_eq!(
    error,
    "initial state divergence in CS\n  dosemu2: AX=0000 BX=0000 CX=0000 DX=0000 SI=0000 DI=0000 BP=0000 \
     SP=0000 IP=0000 CS=0123 DS=0000 ES=0000 SS=0000 FLAGS=0000\n  emu86: AX=0000 BX=0000 CX=0000 \
     DX=0000 SI=0000 DI=0000 BP=0000 SP=0000 IP=0000 CS=0000 DS=0000 ES=0000 SS=0000 FLAGS=0000"
  );
  let mut c = Cpu::default();
  c.reg_write_u16(FLAGS, 0xABCD);
  assert!(cpu_text(&c).ends_with("FLAGS=ABCD"));
}

#[test]
fn first_difference_reports_address_and_bytes() {
  assert_eq!(
    first_difference(0x100, &[1, 2, 3], &[1, 9, 3], 3),
    Some(MemoryDiff { abs: 0x101, reference_byte: 2, emu86_byte: 9 })
  );
  assert_eq!(first_difference(0x100, &[1, 2, 3], &[1, 2, 4], 2), None);
}

// ---------------------------------------------------------------------------
// Boundaries, reports, the corpus and the target
// ---------------------------------------------------------------------------

use dis86::validator::{
  advance_boundary, check_boundary, combine_run_results, corpus_fixtures, detect_interrupts, format_changes, interrupt_at,
  select_target, states_match, Boundary, Interrupt, ValidatorTarget,
};

#[test]
fn pic_handler_entry_is_an_interrupt() {
  assert_eq!(interrupt_at(SegOff::new(0x0c77, 0x0096)), Interrupt::Pic(SegOff::new(0x0c77, 0x0096)));
  assert_eq!(interrupt_at(SegOff::new(0x0c77, 0x0097)), Interrupt::NoInterrupt);
  let emu = FakeEmu::new(&[]);
  assert_eq!(detect_interrupts(&emu), Interrupt::NoInterrupt);
}

#[test]
fn boundary_reports_exit_and_continuation() {
  let exit = StepOutcome { decoded_instructions: 0, step_flags: StepOutcome::TARGET_EXIT };
  let mut reference = FakeEmu::new(&[exit]);
  let mut candidate = FakeEmu::new(&[]);
  assert_eq!(advance_boundary(&mut reference, &mut candidate), Ok(Boundary::Exit));
  let mut reference = FakeEmu::new(&[StepOutcome::single()]);
  assert_eq!(advance_boundary(&mut reference, &mut candidate), Ok(Boundary::Continue(Interrupt::NoInterrupt)));
  assert_eq!(candidate.steps, 1);
}

#[test]
fn register_changes_are_listed_in_lower_case() {
  let mut prev = Cpu::default();
  let mut cur = Cpu::default();
  prev.reg_write_u16(AX, 0x00ff);
  cur.reg_write_u16(AX, 0xABCD);
  cur.reg_write_u16(FLAGS, 0x0002);
  assert_eq!(format_changes(&prev, &cur), "  AX | 0x00ff => 0xabcd\n  FLAGS | 0x0000 => 0x0002\n");
  assert!(states_match(&prev, &prev));
  assert!(!states_match(&prev, &cur));
}

#[test]
fn divergence_report_names_both_sides_and_the_byte() {
  let mut reference = FakeEmu::with_mem(vec![0u8; 0x100]);
  let mut candidate = FakeEmu::with_mem(vec![0u8; 0x100]);
  assert_eq!(check_boundary(&reference, &candidate, None, SegOff::new(1, 2), SegOff::new(3, 4)), Ok(()));
  candidate.mem[0x20] = 0x7f;
  let window = MemoryWindow { ranges: vec![MemoryRange { start: 0x10, end: 0x40 }] };
  let report = check_boundary(&reference, &candidate, Some(&window), SegOff::new(1, 2), SegOff::new(3, 4)).unwrap_err();
  assert!(report.starts_with("\nState divergence:\n  dosemu2 @  0001:0002\n  emu86   @  0003:0004\n"));
  assert!(report.ends_with("\nmemory divergence at abs 0x20: dosemu2=00 emu86=7f"));
  reference.cpu.reg_write_u16(BX, 5);
  let report = check_boundary(&reference, &candidate, Some(&window), SegOff::new(1, 2), SegOff::new(3, 4)).unwrap_err();
  assert!(report.contains("dosemu2 state:\nAX=0000 BX=0005"));
  assert!(!report.contains("memory divergence"));
}

#[test]
fn corpus_declares_two_smoke_programs() {
  let fixtures = corpus_fixtures().unwrap();
  assert_eq!(fixtures.len(), 2);
  assert_eq!(fixtures[0].name, "terminating_smoke");
  assert_eq!(fixtures[1].name, "register_mutation_smoke");
  assert_eq!(fixtures[0].code.len(), 13);
  assert_eq!(&fixtures[1].code[fixtures[1].code.len() - 2..], &[0xcd, 0x21]);
}

#[test]
fn target_selection_follows_the_options() {
  let s = |x: &str| Some(x.to_string());
  assert_eq!(select_target(s("a.exe"), None, None), Ok(ValidatorTarget::Exe("a.exe".to_string())));
  assert_eq!(select_target(None, s("dir"), s("DOSEMU2")), Ok(ValidatorTarget::Corpus("dir".to_string())));
  assert_eq!(
    select_target(s("a.exe"), s("dir"), s("dosemu")),
    Err("--corpus and --exe are mutually exclusive.".to_string())
  );
  assert_eq!(select_target(None, None, None), Err("one of --exe or --corpus is required.".to_string()));
  assert_eq!(
    select_target(s("a.exe"), None, s("qemu")),
    Err("unknown emulator backend 'qemu'. Expected 'dosemu2'.".to_string())
  );
  assert_eq!(
    select_target(s("a.exe"), None, s("QEMU")),
    Err("unknown emulator backend 'qemu'. Expected 'dosemu2'.".to_string())
  );
}

#[test]
fn crossing_result_covers_every_branch() {
  let single = StepOutcome::single();
  let fault = StepOutcome { decoded_instructions: 2, step_flags: StepOutcome::FAULT | StepOutcome::MULTI_INSN };
  let exit = StepOutcome { decoded_instructions: 0, step_flags: StepOutcome::TARGET_EXIT };
  assert_eq!(crossing_result(Err("gone".to_string()), None), Err("gone".to_string()));
  assert_eq!(
    crossing_result(Ok(StepOutcome { decoded_instructions: 0, step_flags: StepOutcome::END_ACK }), None),
    Err("backend published an end acknowledgement during an active step".to_string())
  );
  assert_eq!(crossing_result(Ok(exit), Some((0, "x".to_string()))), Ok(exit));
  assert_eq!(crossing_result(Ok(single), None), Ok(single));
  assert_eq!(crossing_result(Ok(single), Some((0, "bad".to_string()))), Err("bad".to_string()));
  assert_eq!(
    crossing_result(Ok(fault), Some((1, "bad".to_string()))),
    Err("both backends faulted while consuming instruction 2/2: bad".to_string())
  );
  assert_eq!(
    crossing_result(Ok(fault), None),
    Err("dosemu2 faulted after 2 decoded instruction(s), but emu86 did not".to_string())
  );
}

#[test]
fn reference_step_error_is_passed_on() {
  let mut reference = FakeEmu::new(&[]);
  reference.fail_steps = true;
  let mut candidate = FakeEmu::new(&[]);
  assert_eq!(advance_candidate(&mut reference, &mut candidate), Err("candidate fault".to_string()));
  assert_eq!(candidate.steps, 0);
  assert_eq!(advance_boundary(&mut reference, &mut candidate), Err("candidate fault".to_string()));
}

#[test]
fn candidate_stops_at_its_first_failure() {
  let node = StepOutcome { decoded_instructions: 3, step_flags: StepOutcome::MULTI_INSN };
  let mut reference = FakeEmu::new(&[node]);
  let mut candidate = FakeEmu::new(&[]);
  candidate.fail_steps = true;
  assert_eq!(advance_candidate(&mut reference, &mut candidate), Err("candidate fault".to_string()));
  assert_eq!(candidate.steps, 1);
}

#[test]
fn finished_reference_ends_the_run() {
  let mut reference = FakeEmu::new(&[StepOutcome::single()]);
  reference.finished = true;
  let mut candidate = FakeEmu::new(&[]);
  assert_eq!(advance_boundary(&mut reference, &mut candidate), Ok(Boundary::Exit));
  assert_eq!(candidate.steps, 1);
}

#[test]
fn compare_memory_goes_through_ranges_in_order() {
  let reference = FakeEmu::with_mem(vec![0u8; 0x100]);
  let mut candidate = FakeEmu::with_mem(vec![0u8; 0x100]);
  candidate.mem[0x08] = 1;
  candidate.mem[0x90] = 2;
  let window = MemoryWindow {
    ranges: vec![MemoryRange { start: 0x80, end: 0xa0 }, MemoryRange { start: 0x00, end: 0x10 }],
  };
  assert_eq!(
    compare_memory(&reference, &candidate, &window),
    Some(MemoryDiff { abs: 0x90, reference_byte: 0, emu86_byte: 2 })
  );
  let window = MemoryWindow {
    ranges: vec![MemoryRange { start: 0x20, end: 0x10 }, MemoryRange { start: 0x00, end: 0x10 }],
  };
  assert_eq!(
    compare_memory(&reference, &candidate, &window),
    Some(MemoryDiff { abs: 0x08, reference_byte: 0, emu86_byte: 1 })
  );
}

#[test]
fn shutdown_failure_is_appended_to_a_validation_error() {
  let ok: Result<(), String> = Ok(());
  let err = |s: &str| -> Result<(), String> { Err(s.to_string()) };
  assert_eq!(combine_run_results(ok.clone(), ok.clone()), Ok(()));
  assert_eq!(combine_run_results(ok.clone(), err("late")), Err("late".to_string()));
  assert_eq!(combine_run_results(err("diverged"), ok), Err("diverged".to_string()));
  assert_eq!(
    combine_run_results(err("diverged"), err("late")),
    Err("diverged\nAdditionally, backend shutdown failed: late".to_string())
  );
}
