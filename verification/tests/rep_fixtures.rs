use dis86::cpu::{CX, DI, SI};
use dis86::emu::Emulator;
use dis86::fixture::{seg_off_from_abs, Fixture, MemoryRange};
use dis86::flags::FLAG_ZF;
use dis86::machine::Machine;
use dis86::mz::Exe;

// Source and destination buffers: disjoint absolute ranges in conventional
// memory, at segment offset zero so SI/DI stay within one segment.
const SRC_SEG: u16 = 0x5000;
const DST_SEG: u16 = 0x4000;
const SRC_ABS: usize = (SRC_SEG as usize) << 4;
const DST_ABS: usize = (DST_SEG as usize) << 4;
const COUNT: u16 = 8;

fn mov_ax(imm: u16) -> [u8; 3] {
  [0xb8, imm as u8, (imm >> 8) as u8]
}
fn mov_si(imm: u16) -> [u8; 3] {
  [0xbe, imm as u8, (imm >> 8) as u8]
}
fn mov_di(imm: u16) -> [u8; 3] {
  [0xbf, imm as u8, (imm >> 8) as u8]
}
fn mov_cx(imm: u16) -> [u8; 3] {
  [0xb9, imm as u8, (imm >> 8) as u8]
}
fn dir_byte(df: bool) -> u8 {
  if df { 0xfd } else { 0xfc }
}

fn write_bytes(m: &mut Machine, abs: usize, bytes: &[u8]) {
  for (i, &b) in bytes.iter().enumerate() {
    m.mem.write_u8(seg_off_from_abs(abs + i), b);
  }
}

fn fill(m: &mut Machine, abs: usize, len: usize, val: u8) {
  for i in 0..len {
    m.mem.write_u8(seg_off_from_abs(abs + i), val);
  }
}

fn read_bytes(m: &Machine, abs: usize, len: usize) -> Vec<u8> {
  (0..len).map(|i| m.mem.read_u8(seg_off_from_abs(abs + i))).collect()
}

/// Loads the fixture's MZ image into a fresh emulator.
fn into_emulator(fx: &Fixture) -> Emulator {
  let exe = Exe::decode(&fx.build_mz()).unwrap();
  Emulator::new(&format!("{}.exe", fx.name), exe).unwrap()
}

fn step_emulator(emu: &mut Emulator, n: usize) {
  for _ in 0..n {
    emu.step().unwrap();
  }
}

fn movs_code(size: usize, df: bool, count: u16) -> Vec<u8> {
  let len = size * count as usize;
  let (src_off, dst_off) = if df {
    (len.saturating_sub(size) as u16, len.saturating_sub(size) as u16)
  } else {
    (0, 0)
  };
  let mut c = Vec::new();
  c.extend_from_slice(&mov_ax(SRC_SEG));
  c.extend_from_slice(&[0x8e, 0xd8]); // mov ds, ax
  c.extend_from_slice(&mov_ax(DST_SEG));
  c.extend_from_slice(&[0x8e, 0xc0]); // mov es, ax
  c.extend_from_slice(&mov_si(src_off));
  c.extend_from_slice(&mov_di(dst_off));
  c.extend_from_slice(&mov_cx(count));
  c.push(dir_byte(df));
  c.push(0xf3); // rep
  c.push(if size == 1 { 0xa4 } else { 0xa5 });
  c.push(0x90); // nop
  c
}

fn movs_steps() -> usize {
  10
}

fn run_movs(size: usize, df: bool, count: u16, src: &[u8]) -> Machine {
  let len = size * count as usize;
  let fx = Fixture::new(&format!("rep_movs_{}_{}_{}", size, df, count), movs_code(size, df, count))
    .with_scratch(vec![
      MemoryRange { start: SRC_ABS, end: SRC_ABS + len },
      MemoryRange { start: DST_ABS, end: DST_ABS + len },
    ]);
  let mut emu = into_emulator(&fx);
  write_bytes(&mut emu.machine, SRC_ABS, src);
  fill(&mut emu.machine, DST_ABS, len, 0x00);
  step_emulator(&mut emu, movs_steps());
  emu.machine
}

fn cmps_code(size: usize, df: bool, count: u16, prefix: u8) -> Vec<u8> {
  let len = size * count as usize;
  let (src_off, dst_off) = if df {
    (len.saturating_sub(size) as u16, len.saturating_sub(size) as u16)
  } else {
    (0, 0)
  };
  let mut c = Vec::new();
  c.extend_from_slice(&mov_ax(SRC_SEG));
  c.extend_from_slice(&[0x8e, 0xd8]); // mov ds, ax
  c.extend_from_slice(&mov_ax(DST_SEG));
  c.extend_from_slice(&[0x8e, 0xc0]); // mov es, ax
  c.extend_from_slice(&mov_si(src_off));
  c.extend_from_slice(&mov_di(dst_off));
  c.extend_from_slice(&mov_cx(count));
  c.push(dir_byte(df));
  c.push(prefix);
  c.push(if size == 1 { 0xa6 } else { 0xa7 });
  c.push(0x90); // nop
  c
}

fn cmps_steps() -> usize {
  10
}

fn run_cmps(size: usize, df: bool, count: u16, prefix: u8, src: &[u8], dst: &[u8]) -> Machine {
  let len = size * count as usize;
  let fx = Fixture::new(&format!("rep_cmps_{}_{}_{}_{}", size, df, count, prefix), cmps_code(size, df, count, prefix))
    .with_scratch(vec![
      MemoryRange { start: SRC_ABS, end: SRC_ABS + len },
      MemoryRange { start: DST_ABS, end: DST_ABS + len },
    ]);
  let mut emu = into_emulator(&fx);
  write_bytes(&mut emu.machine, SRC_ABS, src);
  write_bytes(&mut emu.machine, DST_ABS, dst);
  step_emulator(&mut emu, cmps_steps());
  emu.machine
}

fn stos_code(size: usize, df: bool, count: u16) -> Vec<u8> {
  let len = size * count as usize;
  let dst_off = if df { len.saturating_sub(size) as u16 } else { 0 };
  let mut c = Vec::new();
  c.extend_from_slice(&mov_ax(DST_SEG));
  c.extend_from_slice(&[0x8e, 0xc0]); // mov es, ax
  c.extend_from_slice(&mov_di(dst_off));
  c.extend_from_slice(&mov_cx(count));
  if size == 1 {
    c.extend_from_slice(&[0xb0, 0x5a]); // mov al, 0x5a
  } else {
    c.extend_from_slice(&mov_ax(0xabcd)); // mov ax, 0xabcd
  }
  c.push(dir_byte(df));
  c.push(0xf3); // rep
  c.push(if size == 1 { 0xaa } else { 0xab });
  c.push(0x90); // nop
  c
}

fn stos_steps() -> usize {
  8
}

fn run_stos(size: usize, df: bool, count: u16) -> Machine {
  let len = size * count as usize;
  let fx = Fixture::new(&format!("rep_stos_{}_{}_{}", size, df, count), stos_code(size, df, count))
    .with_scratch(vec![MemoryRange { start: DST_ABS, end: DST_ABS + len }]);
  let mut emu = into_emulator(&fx);
  fill(&mut emu.machine, DST_ABS, len, 0x00);
  step_emulator(&mut emu, stos_steps());
  emu.machine
}

fn scas_code(size: usize, df: bool, count: u16, prefix: u8) -> Vec<u8> {
  let len = size * count as usize;
  let dst_off = if df { len.saturating_sub(size) as u16 } else { 0 };
  let mut c = Vec::new();
  c.extend_from_slice(&mov_ax(DST_SEG));
  c.extend_from_slice(&[0x8e, 0xc0]); // mov es, ax
  c.extend_from_slice(&mov_di(dst_off));
  c.extend_from_slice(&mov_cx(count));
  if size == 1 {
    c.extend_from_slice(&[0xb0, 0x42]); // mov al, 0x42
  } else {
    c.extend_from_slice(&mov_ax(0x1234)); // mov ax, 0x1234
  }
  c.push(dir_byte(df));
  c.push(prefix);
  c.push(if size == 1 { 0xae } else { 0xaf });
  c.push(0x90); // nop
  c
}

fn scas_steps() -> usize {
  8
}

fn run_scas(size: usize, df: bool, count: u16, prefix: u8, data: &[u8]) -> Machine {
  let len = size * count as usize;
  let fx = Fixture::new(&format!("rep_scas_{}_{}_{}_{}", size, df, count, prefix), scas_code(size, df, count, prefix))
    .with_scratch(vec![MemoryRange { start: DST_ABS, end: DST_ABS + len }]);
  let mut emu = into_emulator(&fx);
  write_bytes(&mut emu.machine, DST_ABS, data);
  step_emulator(&mut emu, scas_steps());
  emu.machine
}

fn assert_ptr(base_off: u16, size: usize, df: bool, count: u16, si: u16, di: u16) {
  let len = size * count as usize;
  let expect = if df {
    base_off.wrapping_sub(size as u16)
  } else {
    base_off + len as u16
  };
  assert_eq!(si, expect, "unexpected SI");
  assert_eq!(di, expect, "unexpected DI");
}

// REP MOVS

#[test]
fn rep_movsb_fwd_exhaust() {
  let src: Vec<u8> = (0x10..0x10 + COUNT as usize).map(|x| x as u8).collect();
  let m = run_movs(1, false, COUNT, &src);
  assert_eq!(m.reg_read_u16(CX), 0);
  assert_ptr(0, 1, false, COUNT, m.reg_read_u16(SI), m.reg_read_u16(DI));
  assert_eq!(read_bytes(&m, DST_ABS, COUNT as usize), src);
}

#[test]
fn rep_movsb_back_exhaust() {
  let src: Vec<u8> = (0x20..0x20 + COUNT as usize).map(|x| x as u8).collect();
  let m = run_movs(1, true, COUNT, &src);
  assert_eq!(m.reg_read_u16(CX), 0);
  assert_ptr(0, 1, true, COUNT, m.reg_read_u16(SI), m.reg_read_u16(DI));
  assert_eq!(read_bytes(&m, DST_ABS, COUNT as usize), src);
}

#[test]
fn rep_movsw_fwd_exhaust() {
  let src: Vec<u8> = (0x30u16..0x30 + 2 * COUNT as u16).map(|x| x as u8).collect();
  let m = run_movs(2, false, COUNT, &src);
  assert_eq!(m.reg_read_u16(CX), 0);
  assert_ptr(0, 2, false, COUNT, m.reg_read_u16(SI), m.reg_read_u16(DI));
  assert_eq!(read_bytes(&m, DST_ABS, 2 * COUNT as usize), src);
}

#[test]
fn rep_movsw_back_exhaust() {
  let src: Vec<u8> = (0x40u16..0x40 + 2 * COUNT as u16).map(|x| x as u8).collect();
  let m = run_movs(2, true, COUNT, &src);
  assert_eq!(m.reg_read_u16(CX), 0);
  assert_ptr(0, 2, true, COUNT, m.reg_read_u16(SI), m.reg_read_u16(DI));
  assert_eq!(read_bytes(&m, DST_ABS, 2 * COUNT as usize), src);
}

#[test]
fn rep_movsb_cx_zero_no_iteration() {
  let src = vec![0x55; 4];
  let m = run_movs(1, false, 0, &src);
  assert_eq!(m.reg_read_u16(CX), 0);
  assert_eq!(m.reg_read_u16(SI), 0);
  assert_eq!(m.reg_read_u16(DI), 0);
  assert_eq!(read_bytes(&m, DST_ABS, 4), vec![0x00; 4]);
}

#[test]
fn rep_movsw_cx_zero_no_iteration() {
  let src = vec![0x66; 8];
  let m = run_movs(2, false, 0, &src);
  assert_eq!(m.reg_read_u16(CX), 0);
  assert_eq!(m.reg_read_u16(SI), 0);
  assert_eq!(m.reg_read_u16(DI), 0);
  assert_eq!(read_bytes(&m, DST_ABS, 8), vec![0x00; 8]);
}

// REPE / REPNE CMPS

#[test]
fn repe_cmpsb_fwd_exhaust() {
  let src: Vec<u8> = vec![0x11; COUNT as usize];
  let dst: Vec<u8> = vec![0x11; COUNT as usize];
  let m = run_cmps(1, false, COUNT, 0xf3, &src, &dst);
  assert_eq!(m.reg_read_u16(CX), 0);
  assert_eq!(m.reg_read_u16(SI), COUNT);
  assert_eq!(m.reg_read_u16(DI), COUNT);
  assert!(m.flag_read(FLAG_ZF));
}

#[test]
fn repe_cmpsb_fwd_cond_exit() {
  // Mismatch at index 4: REPE stops after comparing index 4 (5 consumed).
  let mut src = vec![0x11; COUNT as usize];
  let dst = vec![0x11; COUNT as usize];
  src[4] = 0x99;
  let m = run_cmps(1, false, COUNT, 0xf3, &src, &dst);
  assert_eq!(m.reg_read_u16(CX), COUNT - 5);
  assert_eq!(m.reg_read_u16(SI), 5);
  assert_eq!(m.reg_read_u16(DI), 5);
  assert!(!m.flag_read(FLAG_ZF));
}

#[test]
fn repe_cmpsb_back_exhaust() {
  let src: Vec<u8> = vec![0x22; COUNT as usize];
  let dst: Vec<u8> = vec![0x22; COUNT as usize];
  let m = run_cmps(1, true, COUNT, 0xf3, &src, &dst);
  assert_eq!(m.reg_read_u16(CX), 0);
  assert_eq!(m.reg_read_u16(SI), 0xffff);
  assert_eq!(m.reg_read_u16(DI), 0xffff);
  assert!(m.flag_read(FLAG_ZF));
}

#[test]
fn repe_cmpsb_back_cond_exit() {
  // Backward; mismatch at element index 4 from the end (abs index 3).
  let mut src = vec![0x22; COUNT as usize];
  let dst = vec![0x22; COUNT as usize];
  src[3] = 0x77;
  let m = run_cmps(1, true, COUNT, 0xf3, &src, &dst);
  // Elements compared: index 7,6,5,4, then 3 (mismatch) => 5 consumed; start off 7.
  assert_eq!(m.reg_read_u16(CX), COUNT - 5);
  assert_eq!(m.reg_read_u16(SI), 8 - 1 - 5);
  assert_eq!(m.reg_read_u16(DI), 8 - 1 - 5);
  assert!(!m.flag_read(FLAG_ZF));
}

#[test]
fn repne_cmpsb_fwd_exhaust() {
  // All unequal: REPNE runs to exhaustion, ZF=0.
  let src: Vec<u8> = (0x30u16..0x30 + COUNT as u16).map(|x| x as u8).collect();
  let dst: Vec<u8> = vec![0xff; COUNT as usize];
  let m = run_cmps(1, false, COUNT, 0xf2, &src, &dst);
  assert_eq!(m.reg_read_u16(CX), 0);
  assert_eq!(m.reg_read_u16(SI), COUNT);
  assert_eq!(m.reg_read_u16(DI), COUNT);
  assert!(!m.flag_read(FLAG_ZF));
}

#[test]
fn repne_cmpsb_fwd_cond_exit() {
  // Equality at index 3: REPNE stops after comparing index 3 (4 consumed).
  let src = vec![0x40; COUNT as usize];
  let mut dst = vec![0x99; COUNT as usize];
  dst[3] = 0x40;
  let m = run_cmps(1, false, COUNT, 0xf2, &src, &dst);
  assert_eq!(m.reg_read_u16(CX), COUNT - 4);
  assert_eq!(m.reg_read_u16(SI), 4);
  assert_eq!(m.reg_read_u16(DI), 4);
  assert!(m.flag_read(FLAG_ZF));
}

#[test]
fn repne_cmpsb_back_exhaust() {
  let src: Vec<u8> = (0x50u16..0x50 + COUNT as u16).map(|x| x as u8).collect();
  let dst: Vec<u8> = vec![0xee; COUNT as usize];
  let m = run_cmps(1, true, COUNT, 0xf2, &src, &dst);
  assert_eq!(m.reg_read_u16(CX), 0);
  assert_eq!(m.reg_read_u16(SI), 0xffff);
  assert_eq!(m.reg_read_u16(DI), 0xffff);
  assert!(!m.flag_read(FLAG_ZF));
}

#[test]
fn repne_cmpsb_back_cond_exit() {
  let src = vec![0x60; COUNT as usize];
  let mut dst = vec![0xdd; COUNT as usize];
  dst[5] = 0x60; // equality at abs index 5
  let m = run_cmps(1, true, COUNT, 0xf2, &src, &dst);
  // Backward elements: 7,6,5(equal) => 3 consumed; start off 7.
  assert_eq!(m.reg_read_u16(CX), COUNT - 3);
  assert_eq!(m.reg_read_u16(SI), 8 - 1 - 3);
  assert_eq!(m.reg_read_u16(DI), 8 - 1 - 3);
  assert!(m.flag_read(FLAG_ZF));
}

#[test]
fn repe_cmpsw_fwd_exhaust() {
  let src: Vec<u8> = vec![0x12, 0x34].repeat(COUNT as usize);
  let dst: Vec<u8> = vec![0x12, 0x34].repeat(COUNT as usize);
  let m = run_cmps(2, false, COUNT, 0xf3, &src, &dst);
  assert_eq!(m.reg_read_u16(CX), 0);
  assert_eq!(m.reg_read_u16(SI), 2 * COUNT);
  assert_eq!(m.reg_read_u16(DI), 2 * COUNT);
  assert!(m.flag_read(FLAG_ZF));
}

#[test]
fn repe_cmpsw_fwd_cond_exit() {
  let mut src = vec![0x12, 0x34].repeat(COUNT as usize);
  let dst = vec![0x12, 0x34].repeat(COUNT as usize);
  // Differ word 2 (bytes 4,5): src=0x99,0x99.
  src[4] = 0x99;
  src[5] = 0x99;
  let m = run_cmps(2, false, COUNT, 0xf3, &src, &dst);
  assert_eq!(m.reg_read_u16(CX), COUNT - 3);
  assert_eq!(m.reg_read_u16(SI), 6);
  assert_eq!(m.reg_read_u16(DI), 6);
  assert!(!m.flag_read(FLAG_ZF));
}

#[test]
fn repe_cmpsw_back_exhaust() {
  let src: Vec<u8> = vec![0x56, 0x78].repeat(COUNT as usize);
  let dst: Vec<u8> = vec![0x56, 0x78].repeat(COUNT as usize);
  let m = run_cmps(2, true, COUNT, 0xf3, &src, &dst);
  assert_eq!(m.reg_read_u16(CX), 0);
  assert_eq!(m.reg_read_u16(SI), 0xfffe);
  assert_eq!(m.reg_read_u16(DI), 0xfffe);
  assert!(m.flag_read(FLAG_ZF));
}

#[test]
fn repe_cmpsw_back_cond_exit() {
  let mut src = vec![0x9a, 0xbc].repeat(COUNT as usize);
  let dst = vec![0x9a, 0xbc].repeat(COUNT as usize);
  // Differ word at abs index 1 (bytes 2,3) from the low end => element 1.
  src[2] = 0x00;
  src[3] = 0x00;
  let m = run_cmps(2, true, COUNT, 0xf3, &src, &dst);
  // Backward elements: 7,6,5,4,3,2,1(mismatch) => 7 consumed; start off 14.
  assert_eq!(m.reg_read_u16(CX), COUNT - 7);
  assert_eq!(m.reg_read_u16(SI), 14 - 7 * 2);
  assert_eq!(m.reg_read_u16(DI), 14 - 7 * 2);
  assert!(!m.flag_read(FLAG_ZF));
}

#[test]
fn repne_cmpsw_fwd_exhaust() {
  let src: Vec<u8> = vec![0x01, 0x02].repeat(COUNT as usize);
  let dst: Vec<u8> = vec![0xff, 0xff].repeat(COUNT as usize);
  let m = run_cmps(2, false, COUNT, 0xf2, &src, &dst);
  assert_eq!(m.reg_read_u16(CX), 0);
  assert_eq!(m.reg_read_u16(SI), 2 * COUNT);
  assert_eq!(m.reg_read_u16(DI), 2 * COUNT);
  assert!(!m.flag_read(FLAG_ZF));
}

#[test]
fn repne_cmpsw_fwd_cond_exit() {
  let src = vec![0x03, 0x04].repeat(COUNT as usize);
  let mut dst = vec![0xaa, 0xaa].repeat(COUNT as usize);
  // Equality in word 4 (bytes 8,9).
  dst[8] = 0x03;
  dst[9] = 0x04;
  let m = run_cmps(2, false, COUNT, 0xf2, &src, &dst);
  assert_eq!(m.reg_read_u16(CX), COUNT - 5);
  assert_eq!(m.reg_read_u16(SI), 10);
  assert_eq!(m.reg_read_u16(DI), 10);
  assert!(m.flag_read(FLAG_ZF));
}

#[test]
fn repne_cmpsw_back_exhaust() {
  let src: Vec<u8> = vec![0x11, 0x22].repeat(COUNT as usize);
  let dst: Vec<u8> = vec![0x88, 0x88].repeat(COUNT as usize);
  let m = run_cmps(2, true, COUNT, 0xf2, &src, &dst);
  assert_eq!(m.reg_read_u16(CX), 0);
  assert_eq!(m.reg_read_u16(SI), 0xfffe);
  assert_eq!(m.reg_read_u16(DI), 0xfffe);
  assert!(!m.flag_read(FLAG_ZF));
}

#[test]
fn repne_cmpsw_back_cond_exit() {
  let src = vec![0x33, 0x44].repeat(COUNT as usize);
  let mut dst = vec![0x77, 0x77].repeat(COUNT as usize);
  // Equality at abs word index 6 (bytes 12,13).
  dst[12] = 0x33;
  dst[13] = 0x44;
  let m = run_cmps(2, true, COUNT, 0xf2, &src, &dst);
  // Backward elements: 7,6(equal) => 2 consumed; start off 14.
  assert_eq!(m.reg_read_u16(CX), COUNT - 2);
  assert_eq!(m.reg_read_u16(SI), 14 - 2 * 2);
  assert_eq!(m.reg_read_u16(DI), 14 - 2 * 2);
  assert!(m.flag_read(FLAG_ZF));
}

// REP STOS

#[test]
fn rep_stosb_fwd_exhaust() {
  let m = run_stos(1, false, COUNT);
  assert_eq!(m.reg_read_u16(CX), 0);
  assert_eq!(m.reg_read_u16(DI), COUNT);
  assert_eq!(read_bytes(&m, DST_ABS, COUNT as usize), vec![0x5a; COUNT as usize]);
}

#[test]
fn rep_stosb_back_exhaust() {
  let m = run_stos(1, true, COUNT);
  assert_eq!(m.reg_read_u16(CX), 0);
  assert_eq!(m.reg_read_u16(DI), 0xffff);
  assert_eq!(read_bytes(&m, DST_ABS, COUNT as usize), vec![0x5a; COUNT as usize]);
}

#[test]
fn rep_stosw_fwd_exhaust() {
  let m = run_stos(2, false, COUNT);
  assert_eq!(m.reg_read_u16(CX), 0);
  assert_eq!(m.reg_read_u16(DI), 2 * COUNT);
  let expect: Vec<u8> = vec![0xcd, 0xab].repeat(COUNT as usize);
  assert_eq!(read_bytes(&m, DST_ABS, 2 * COUNT as usize), expect);
}

#[test]
fn rep_stosw_back_exhaust() {
  let m = run_stos(2, true, COUNT);
  assert_eq!(m.reg_read_u16(CX), 0);
  assert_eq!(m.reg_read_u16(DI), 0xfffe);
  let expect: Vec<u8> = vec![0xcd, 0xab].repeat(COUNT as usize);
  assert_eq!(read_bytes(&m, DST_ABS, 2 * COUNT as usize), expect);
}

#[test]
fn rep_stosb_cx_zero_no_iteration() {
  let m = run_stos(1, false, 0);
  assert_eq!(m.reg_read_u16(CX), 0);
  assert_eq!(m.reg_read_u16(DI), 0);
  assert_eq!(read_bytes(&m, DST_ABS, 4), vec![0x00; 4]);
}

#[test]
fn rep_stosw_cx_zero_no_iteration() {
  let m = run_stos(2, true, 0);
  assert_eq!(m.reg_read_u16(CX), 0);
  assert_eq!(m.reg_read_u16(DI), 0);
  assert_eq!(read_bytes(&m, DST_ABS, 8), vec![0x00; 8]);
}

// REPE / REPNE SCAS

#[test]
fn repe_scasb_fwd_exhaust() {
  // Search value 0x42 in a buffer of all 0x42: CX-exhaust, ZF=1.
  let m = run_scas(1, false, COUNT, 0xf3, &vec![0x42; COUNT as usize]);
  assert_eq!(m.reg_read_u16(CX), 0);
  assert_eq!(m.reg_read_u16(DI), COUNT);
  assert!(m.flag_read(FLAG_ZF));
}

#[test]
fn repe_scasb_fwd_cond_exit() {
  // All 0x42 except index 5 (0x99): REPE stops at the mismatch (6 consumed).
  let mut data = vec![0x42; COUNT as usize];
  data[5] = 0x99;
  let m = run_scas(1, false, COUNT, 0xf3, &data);
  assert_eq!(m.reg_read_u16(CX), COUNT - 6);
  assert_eq!(m.reg_read_u16(DI), 6);
  assert!(!m.flag_read(FLAG_ZF));
}

#[test]
fn repe_scasb_back_exhaust() {
  let m = run_scas(1, true, COUNT, 0xf3, &vec![0x42; COUNT as usize]);
  assert_eq!(m.reg_read_u16(CX), 0);
  assert_eq!(m.reg_read_u16(DI), 0xffff);
  assert!(m.flag_read(FLAG_ZF));
}

#[test]
fn repe_scasb_back_cond_exit() {
  // Backward; mismatch at abs index 2. Elements 7,6,5,4,3,2(mismatch)=6 consumed.
  let mut data = vec![0x42; COUNT as usize];
  data[2] = 0x99;
  let m = run_scas(1, true, COUNT, 0xf3, &data);
  assert_eq!(m.reg_read_u16(CX), COUNT - 6);
  assert_eq!(m.reg_read_u16(DI), 8 - 1 - 6);
  assert!(!m.flag_read(FLAG_ZF));
}

#[test]
fn repne_scasb_fwd_exhaust() {
  // Search 0x42 in a buffer with no 0x42: REPNE runs to exhaustion, ZF=0.
  let data: Vec<u8> = vec![0x00; COUNT as usize];
  let m = run_scas(1, false, COUNT, 0xf2, &data);
  assert_eq!(m.reg_read_u16(CX), 0);
  assert_eq!(m.reg_read_u16(DI), COUNT);
  assert!(!m.flag_read(FLAG_ZF));
}

#[test]
fn repne_scasb_fwd_cond_exit() {
  // 0x42 at index 3: stops after comparing index 3 (4 consumed).
  let mut data = vec![0x00; COUNT as usize];
  data[3] = 0x42;
  let m = run_scas(1, false, COUNT, 0xf2, &data);
  assert_eq!(m.reg_read_u16(CX), COUNT - 4);
  assert_eq!(m.reg_read_u16(DI), 4);
  assert!(m.flag_read(FLAG_ZF));
}

#[test]
fn repne_scasb_back_exhaust() {
  let data: Vec<u8> = vec![0x01; COUNT as usize];
  let m = run_scas(1, true, COUNT, 0xf2, &data);
  assert_eq!(m.reg_read_u16(CX), 0);
  assert_eq!(m.reg_read_u16(DI), 0xffff);
  assert!(!m.flag_read(FLAG_ZF));
}

#[test]
fn repne_scasb_back_cond_exit() {
  // Backward; 0x42 at abs index 6. Elements 7,6(equal)=2 consumed.
  let mut data = vec![0x01; COUNT as usize];
  data[6] = 0x42;
  let m = run_scas(1, true, COUNT, 0xf2, &data);
  assert_eq!(m.reg_read_u16(CX), COUNT - 2);
  assert_eq!(m.reg_read_u16(DI), 8 - 1 - 2);
  assert!(m.flag_read(FLAG_ZF));
}

#[test]
fn repe_scasw_fwd_exhaust() {
  // Search value 0x1234 in a buffer of all 0x1234: exhaust, ZF=1.
  let data: Vec<u8> = vec![0x34, 0x12].repeat(COUNT as usize);
  let m = run_scas(2, false, COUNT, 0xf3, &data);
  assert_eq!(m.reg_read_u16(CX), 0);
  assert_eq!(m.reg_read_u16(DI), 2 * COUNT);
  assert!(m.flag_read(FLAG_ZF));
}

#[test]
fn repe_scasw_fwd_cond_exit() {
  // All 0x1234 except word 2 (bytes 4,5): stops at mismatch, 3 consumed.
  let mut data = vec![0x34, 0x12].repeat(COUNT as usize);
  data[4] = 0x00;
  data[5] = 0x00;
  let m = run_scas(2, false, COUNT, 0xf3, &data);
  assert_eq!(m.reg_read_u16(CX), COUNT - 3);
  assert_eq!(m.reg_read_u16(DI), 6);
  assert!(!m.flag_read(FLAG_ZF));
}

#[test]
fn repe_scasw_back_exhaust() {
  let data: Vec<u8> = vec![0x34, 0x12].repeat(COUNT as usize);
  let m = run_scas(2, true, COUNT, 0xf3, &data);
  assert_eq!(m.reg_read_u16(CX), 0);
  assert_eq!(m.reg_read_u16(DI), 0xfffe);
  assert!(m.flag_read(FLAG_ZF));
}

#[test]
fn repe_scasw_back_cond_exit() {
  // Backward; mismatch at abs word index 1 (bytes 2,3).
  let mut data = vec![0x34, 0x12].repeat(COUNT as usize);
  data[2] = 0x00;
  data[3] = 0x00;
  let m = run_scas(2, true, COUNT, 0xf3, &data);
  // Backward elements: 7,6,5,4,3,2,1(mismatch)=7 consumed; start off 14.
  assert_eq!(m.reg_read_u16(CX), COUNT - 7);
  assert_eq!(m.reg_read_u16(DI), 14 - 7 * 2);
  assert!(!m.flag_read(FLAG_ZF));
}

#[test]
fn repne_scasw_fwd_exhaust() {
  // Search 0x1234 in a buffer with no 0x1234: exhaust, ZF=0.
  let data: Vec<u8> = vec![0x00, 0x00].repeat(COUNT as usize);
  let m = run_scas(2, false, COUNT, 0xf2, &data);
  assert_eq!(m.reg_read_u16(CX), 0);
  assert_eq!(m.reg_read_u16(DI), 2 * COUNT);
  assert!(!m.flag_read(FLAG_ZF));
}

#[test]
fn repne_scasw_fwd_cond_exit() {
  // 0x1234 at word 5 (bytes 10,11): stops after comparing it, 6 consumed.
  let mut data = vec![0x00, 0x00].repeat(COUNT as usize);
  data[10] = 0x34;
  data[11] = 0x12;
  let m = run_scas(2, false, COUNT, 0xf2, &data);
  assert_eq!(m.reg_read_u16(CX), COUNT - 6);
  assert_eq!(m.reg_read_u16(DI), 12);
  assert!(m.flag_read(FLAG_ZF));
}

#[test]
fn repne_scasw_back_exhaust() {
  let data: Vec<u8> = vec![0xaa, 0xaa].repeat(COUNT as usize);
  let m = run_scas(2, true, COUNT, 0xf2, &data);
  assert_eq!(m.reg_read_u16(CX), 0);
  assert_eq!(m.reg_read_u16(DI), 0xfffe);
  assert!(!m.flag_read(FLAG_ZF));
}

#[test]
fn repne_scasw_back_cond_exit() {
  // Backward; 0x1234 at abs word index 6 (bytes 12,13).
  let mut data = vec![0xaa, 0xaa].repeat(COUNT as usize);
  data[12] = 0x34;
  data[13] = 0x12;
  let m = run_scas(2, true, COUNT, 0xf2, &data);
  // Backward elements: 7,6(equal)=2 consumed; start off 14.
  assert_eq!(m.reg_read_u16(CX), COUNT - 2);
  assert_eq!(m.reg_read_u16(DI), 14 - 2 * 2);
  assert!(m.flag_read(FLAG_ZF));
}
