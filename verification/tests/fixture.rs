use dis86::fixture::{seg_off_from_abs, Fixture, MemoryRange, MemoryWindow};
use dis86::mz::Exe;

#[test]
fn mz_layout_matches_script_and_loader() {
  let fx = Fixture::new("layout", vec![0xb8, 0x34, 0x12]);
  let mz = fx.build_mz();
  assert_eq!(&mz[0..2], b"MZ");
  let decoded = Exe::decode(&mz).unwrap();
  let cs = decoded.hdr.cs;
  let ip = decoded.hdr.ip;
  assert_eq!(cs, 0);
  assert_eq!(ip, 0);
  let header_paragraphs = decoded.hdr.cparhdr as usize * 16;
  let image_end = decoded.hdr.cp as usize * 512;
  assert_eq!(fx.image_length(), image_end - header_paragraphs);
  assert_eq!(&mz[header_paragraphs..header_paragraphs + 3], &[0xb8, 0x34, 0x12]);
}

#[test]
fn image_length_tracks_pages() {
  let fx = Fixture::new("len", vec![0x90, 0x90, 0x90]);
  assert_eq!(fx.image_length(), 512 - 32);
}

#[test]
fn window_combines_image_region_and_scratch() {
  let fx = Fixture::new("win", vec![0x90]).with_scratch(vec![MemoryRange { start: 0x90000, end: 0x90020 }]);
  let window = fx.window(0x1000);
  assert_eq!(
    window.ranges,
    vec![
      MemoryRange { start: 0x10000, end: 0x10000 + (512 - 32) },
      MemoryRange { start: 0x90000, end: 0x90020 },
    ]
  );
}

#[test]
fn seg_off_from_abs_roundtrips_linear_address() {
  for abs in [0usize, 0x20, 0x12345, 0x90000, 0x9ffff, 0xffff0, 0xfffff] {
    assert_eq!(seg_off_from_abs(abs).abs_normal(), abs);
  }
}

#[test]
fn mz_header_fields_and_padding() {
  let code: Vec<u8> = (0..600u32).map(|x| x as u8).collect();
  let fx = Fixture::new("big", code.clone());
  let mz = fx.build_mz();
  // 32 + 600 = 632 bytes: two pages, 120 bytes in the last one.
  assert_eq!(mz.len(), 1024);
  assert_eq!(u16::from_le_bytes([mz[2], mz[3]]), 632 % 512);
  assert_eq!(u16::from_le_bytes([mz[4], mz[5]]), 2);
  assert_eq!(u16::from_le_bytes([mz[8], mz[9]]), 2);
  assert_eq!(u16::from_le_bytes([mz[16], mz[17]]), 0x0200);
  assert_eq!(u16::from_le_bytes([mz[24], mz[25]]), 0x001C);
  assert!(mz[28..32].iter().all(|&b| b == 0));
  assert_eq!(&mz[32..632], &code[..]);
  assert!(mz[632..].iter().all(|&b| b == 0));
  assert_eq!(fx.image_length(), 1024 - 32);
}

#[test]
fn empty_window_and_segment_split() {
  assert!(MemoryWindow::default().is_empty());
  let fx = Fixture::new("w", vec![]);
  assert!(!fx.window(0).is_empty());
  let so = seg_off_from_abs(0x12345);
  assert_eq!(so, dis86::segoff::SegOff::new(0x1234, 0x5));
}
