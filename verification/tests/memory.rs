use dis86::mem::{Memory, MEM_SIZE};
use dis86::segoff::SegOff;

#[test]
fn writes_through_a_mutable_tail_are_seen_by_reads() {
  let mut mem = Memory::new();
  let addr = SegOff::new(0x1000, 0x0010);
  {
    let tail = mem.slice_mut_starting_at(addr);
    assert_eq!(tail.len(), MEM_SIZE - 0x10010);
    tail[0] = 0x34;
    tail[1] = 0x12;
  }
  assert_eq!(mem.read_u16(addr), 0x1234);
  assert_eq!(mem.slice_starting_at(addr)[..2], [0x34, 0x12]);
}

#[test]
fn word_writes_wrap_within_the_segment() {
  let mut mem = Memory::new();
  let addr = SegOff::new(0x2000, 0xffff);
  mem.write_u16(addr, 0xbeef);
  assert_eq!(mem.read_u8(addr), 0xef);
  assert_eq!(mem.read_u8(SegOff::new(0x2000, 0x0000)), 0xbe);
  assert_eq!(mem.read_u16(addr), 0xbeef);
  mem.write_u32(SegOff::new(0x3000, 0xfffe), 0x0102_0304);
  assert_eq!(mem.read_u32(SegOff::new(0x3000, 0xfffe)), 0x0102_0304);
  assert_eq!(mem.read_u8(SegOff::new(0x3000, 0x0001)), 0x01);
}
