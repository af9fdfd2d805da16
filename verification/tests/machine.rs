use dis86::cpu::{CS, DS, ES, SP, SS};
use dis86::machine::Machine;
use dis86::mz;
use dis86::segoff::SegOff;

fn machine_with_sp(sp: u16) -> Machine {
  let mut m = Machine::new(None);
  m.reg_write_u16(SS, 0x2000);
  m.reg_write_u16(SP, sp);
  m
}

fn seg_off(seg: u16, off: u16) -> SegOff {
  SegOff::new(seg, off)
}

#[test]
fn stack_push_wraps_sp_at_zero() {
  let mut m = machine_with_sp(0x0000);
  m.stack_push_u16(0x1234);
  assert_eq!(m.reg_read_u16(SP), 0xFFFE);
  assert_eq!(m.mem.read_u16(seg_off(0x2000, 0xFFFE)), 0x1234);
}

#[test]
fn stack_pop_wraps_sp_at_max() {
  let mut m = machine_with_sp(0xFFFE);
  m.mem.write_u16(seg_off(0x2000, 0xFFFE), 0x5678);
  assert_eq!(m.stack_pop_u16(), 0x5678);
  assert_eq!(m.reg_read_u16(SP), 0x0000);
}

#[test]
fn stack_push_under_sp_gt_zero() {
  let mut m = machine_with_sp(0x0100);
  m.stack_push_u16(0x1234);
  assert_eq!(m.reg_read_u16(SP), 0x00FE);
  assert_eq!(m.mem.read_u16(seg_off(0x2000, 0x00FE)), 0x1234);
}

#[test]
fn stack_pop_over_sp_lt_max() {
  let mut m = machine_with_sp(0x0100);
  m.mem.write_u16(seg_off(0x2000, 0x0100), 0x5678);
  assert_eq!(m.stack_pop_u16(), 0x5678);
  assert_eq!(m.reg_read_u16(SP), 0x0102);
}

fn exe() -> mz::Exe {
  let mut rawdata = vec![0; 512];
  rawdata[32] = 0xcc;
  rawdata[34..36].copy_from_slice(&7u16.to_le_bytes());
  mz::Exe {
    hdr: mz::Header { magic: *b"MZ", cblp: 0, cp: 1, crlc: 1, cparhdr: 2,
      minalloc: 0, maxalloc: 0, ss: 4, sp: 0x1234, csum: 0, ip: 0x5678,
      cs: 3, lfarlc: 0, ovno: 0 },
    exe_start: 32, exe_end: 512, relocs: vec![mz::Reloc { offset: 2, segment: 0 }],
    rawdata,
  }
}

#[test]
fn default_machine_retains_legacy_psp_segment() {
  let mut m = Machine::new(None);
  m.load_exe(&exe()).unwrap();
  assert_eq!((m.psp_segment, m.reg_read_u16(DS), m.reg_read_u16(ES)),
    (0x0813, 0x0813, 0x0813));
}

#[test]
fn custom_psp_rebases_all_load_state() {
  let mut m = Machine::new_with_psp_segment(None, 0x2000);
  m.load_exe(&exe()).unwrap();
  let image = 0x2010;
  assert_eq!(m.mem.read_u8(SegOff::new(0x2000, 0x81)), 0x0d);
  assert_eq!(m.mem.read_u8(SegOff::new(image, 0)), 0xcc);
  assert_eq!(m.mem.read_u16(SegOff::new(image, 2)), image + 7);
  assert_eq!((m.reg_read_u16(CS), m.reg_read_u16(SS)), (image + 3, image + 4));
  assert_eq!((m.reg_read_u16(DS), m.reg_read_u16(ES)), (0x2000, 0x2000));
}
