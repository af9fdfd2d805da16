use dis86::cpu::{AX, CX, DI, DS, ES, SI};
use dis86::flags::{FLAG_CF, FLAG_DF, FLAG_ZF};
use dis86::machine::Machine;
use dis86::segoff::SegOff;

fn run(
  code: &[u8],
  source: &[u8],
  destination: &[u8],
  si: u16,
  di: u16,
  cx: u16,
  df: bool,
) -> Machine {
  let mut m = Machine::new(None);
  for (i, value) in code.iter().enumerate() {
    m.mem.write_u8(SegOff::new(0, i as u16), *value);
  }
  for (i, value) in source.iter().enumerate() {
    m.mem.write_u8(SegOff::new(0x1000, i as u16), *value);
  }
  for (i, value) in destination.iter().enumerate() {
    m.mem.write_u8(SegOff::new(0x2000, i as u16), *value);
  }
  m.reg_write_u16(DS, 0x1000);
  m.reg_write_u16(ES, 0x2000);
  m.reg_write_u16(SI, si);
  m.reg_write_u16(DI, di);
  m.reg_write_u16(CX, cx);
  m.flag_write(FLAG_DF, df);
  m.step().unwrap();
  m
}

#[test]
fn byte_forward_and_subtraction_flags() {
  let m = run(&[0xa6], &[3], &[5], 0, 0, 9, false);
  assert_eq!((m.reg_read_u16(SI), m.reg_read_u16(DI)), (1, 1));
  assert!(m.flag_read(FLAG_CF));
  assert!(!m.flag_read(FLAG_ZF));
}

#[test]
fn word_backward() {
  let m = run(
    &[0xa7],
    &[0, 0, 0x34, 0x12],
    &[0, 0, 0x34, 0x12],
    2,
    2,
    9,
    true,
  );
  assert_eq!((m.reg_read_u16(SI), m.reg_read_u16(DI)), (0, 0));
  assert!(m.flag_read(FLAG_ZF));
}

#[test]
fn repe_stops_on_mismatch() {
  let m = run(&[0xf3, 0xa6], &[1, 2, 3], &[1, 9, 3], 0, 0, 3, false);
  assert_eq!(
    (m.reg_read_u16(SI), m.reg_read_u16(DI), m.reg_read_u16(CX)),
    (2, 2, 1)
  );
}

#[test]
fn repne_stops_on_equality() {
  let m = run(&[0xf2, 0xa6], &[1, 2, 3], &[9, 2, 8], 0, 0, 3, false);
  assert_eq!(
    (m.reg_read_u16(SI), m.reg_read_u16(DI), m.reg_read_u16(CX)),
    (2, 2, 1)
  );
}

#[test]
fn zero_count_does_not_access_memory_or_update_indices() {
  let m = run(&[0xf3, 0xa6], &[], &[], 0xffff, 0xffff, 0, false);
  assert_eq!(
    (m.reg_read_u16(SI), m.reg_read_u16(DI), m.reg_read_u16(CX)),
    (0xffff, 0xffff, 0)
  );
}

fn mem_write_slice(m: &mut Machine, addr: SegOff, data: &[u8]) {
  for i in 0..data.len() {
    m.mem.write_u8(addr.add_offset(i as u16), data[i]);
  }
}

fn run_impl(data: &[u8], code: &[u8], df: u8, si: u16, cx: u16) -> (u16, u16, u16) {
  let mut m = Machine::new(None);
  let code_addr = SegOff::new(0x0000, 0x0000);
  mem_write_slice(&mut m, code_addr, code);
  let data_addr = SegOff::new(0x1000, 0x0000);
  mem_write_slice(&mut m, data_addr, data);
  m.reg_write_addr(DS, SI, data_addr);
  m.flag_write(FLAG_DF, df != 0);
  m.reg_write_u16(SI, si);
  m.reg_write_u16(CX, cx);
  m.step().unwrap();
  (m.reg_read_u16(SI), m.reg_read_u16(CX), m.reg_read_u16(AX))
}

#[test]
fn lodsb_single_advances_si_by_1() {
  let (si, _cx, ax) = run_impl(&[0x42, 0x99], &[0xac], 0, 0, 0);
  assert_eq!(si, 1);
  assert_eq!(ax & 0xff, 0x42);
}

#[test]
fn rep_lodsb_loops_cx_times_and_keeps_last_byte() {
  let (si, cx, ax) = run_impl(&[0x10, 0x20, 0x30, 0x40, 0x50], &[0xf3, 0xac], 0, 0, 4);
  assert_eq!(si, 4);
  assert_eq!(cx, 0);
  assert_eq!(ax & 0xff, 0x40);
}

#[test]
fn rep_lodsb_backward_decrements_si() {
  let (si, cx, _ax) = run_impl(&[0x10, 0x20, 0x30, 0x40], &[0xf3, 0xac], 1, 3, 3);
  assert_eq!(si, 0);
  assert_eq!(cx, 0);
}

#[test]
fn repne_lodsb_same_as_rep_lodsb() {
  let (si, cx, ax) = run_impl(&[0x10, 0x20, 0x30], &[0xf2, 0xac], 0, 0, 3);
  assert_eq!(si, 3);
  assert_eq!(cx, 0);
  assert_eq!(ax & 0xff, 0x30);
}

#[test]
fn rep_lodsb_cx_zero_no_iteration() {
  let (si, cx, _ax) = run_impl(&[0x10], &[0xf3, 0xac], 0, 0, 0);
  assert_eq!(si, 0);
  assert_eq!(cx, 0);
}

#[test]
fn rep_lodsw_loops_cx_times() {
  let (si, cx, ax) = run_impl(&[0x10, 0x20, 0x30, 0x40], &[0xf3, 0xad], 0, 0, 2);
  assert_eq!(si, 4);
  assert_eq!(cx, 0);
  assert_eq!(ax, 0x4030);
}

#[test]
fn ds_override_movsb_writes_dest_to_es_not_ds() {
  let mut m = Machine::new(None);
  mem_write_slice(&mut m, SegOff::new(0x0000, 0x0000), &[0x3e, 0xa4, 0xf4]);
  m.reg_write_u16(DS, 0x1000);
  m.reg_write_u16(SI, 0x0000);
  m.mem.write_u8(SegOff::new(0x1000, 0x0000), 0x5A);
  m.reg_write_u16(ES, 0x2000);
  m.reg_write_u16(DI, 0x0000);
  m.flag_write(FLAG_DF, false);
  m.step().unwrap();
  assert_eq!(m.mem.read_u8(SegOff::new(0x2000, 0x0000)), 0x5A, "dest must be ES:DI");
  assert_eq!(m.mem.read_u8(SegOff::new(0x1000, 0x0001)), 0x00, "DS:DI must be untouched");
  assert_eq!(m.reg_read_u16(SI), 0x0001);
  assert_eq!(m.reg_read_u16(DI), 0x0001);
}

#[test]
fn bare_movsb_copies_ds_si_to_es_di() {
  let mut m = Machine::new(None);
  mem_write_slice(&mut m, SegOff::new(0x0000, 0x0000), &[0xa4, 0xf4]);
  m.reg_write_u16(DS, 0x1000);
  m.reg_write_u16(SI, 0x0000);
  m.mem.write_u8(SegOff::new(0x1000, 0x0000), 0x77);
  m.reg_write_u16(ES, 0x2000);
  m.reg_write_u16(DI, 0x0000);
  m.flag_write(FLAG_DF, false);
  m.step().unwrap();
  assert_eq!(m.mem.read_u8(SegOff::new(0x2000, 0x0000)), 0x77);
  assert_eq!(m.reg_read_u16(SI), 0x0001);
  assert_eq!(m.reg_read_u16(DI), 0x0001);
}
