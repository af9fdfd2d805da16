use dis86::cpu::{AX, BP, BX, CS, CX, DI, DS, DX, ES, IP, SI, SP};
use dis86::emu::Emulator;
use dis86::fixture::{seg_off_from_abs, Fixture, MemoryRange};
use dis86::flags::{FLAG_CF, FLAG_IF, FLAG_ZF};
use dis86::mz::Exe;

const SCRATCH_SEG: u16 = 0x6000;
const SCRATCH_ABS: usize = (SCRATCH_SEG as usize) << 4;

/// Loads `code` as a fixture and executes `n` instructions.
fn run(code: &[u8], n: usize) -> Emulator {
  let fx = Fixture::new("instr", code.to_vec())
    .with_scratch(vec![MemoryRange { start: SCRATCH_ABS, end: SCRATCH_ABS + 0x1000 }]);
  let exe = Exe::decode(&fx.build_mz()).unwrap();
  let mut emu = Emulator::new("instr.exe", exe).unwrap();
  for _ in 0..n {
    emu.step().unwrap();
  }
  emu
}

fn reg(emu: &Emulator, r: usize) -> u16 {
  emu.machine.reg_read_u16(r)
}

fn word_at(emu: &Emulator, abs: usize) -> u16 {
  let lo = emu.machine.mem.read_u8(seg_off_from_abs(abs)) as u16;
  let hi = emu.machine.mem.read_u8(seg_off_from_abs(abs + 1)) as u16;
  (hi << 8) | lo
}

// mov ds, 0x6000 (through AX): the scratch window.
const DS_SCRATCH: [u8; 5] = [0xB8, 0x00, 0x60, 0x8E, 0xD8];

#[test]
fn je_taken_skips_and_not_taken_falls_through() {
  let code = [
    0xB8, 0x05, 0x00, // mov ax, 5
    0x3D, 0x05, 0x00, // cmp ax, 5
    0x74, 0x03, // je +3
    0xBB, 0x01, 0x00, // mov bx, 1 (skipped)
    0x75, 0x03, // jne +3 (not taken)
    0xB9, 0x02, 0x00, // mov cx, 2
  ];
  let emu = run(&code, 5);
  assert_eq!(reg(&emu, BX), 0);
  assert_eq!(reg(&emu, CX), 2);
  assert_eq!(reg(&emu, IP), 16);
}

#[test]
fn signed_and_unsigned_conditions() {
  // 0xFFFF < 1 signed (JL taken), but above unsigned (JB not taken).
  let code = [
    0xB8, 0xFF, 0xFF, // mov ax, 0xffff
    0x3D, 0x01, 0x00, // cmp ax, 1
    0x72, 0x03, // jb +3 (not taken)
    0xBB, 0x01, 0x00, // mov bx, 1
    0x7C, 0x03, // jl +3 (taken)
    0xB9, 0x02, 0x00, // mov cx, 2 (skipped)
  ];
  let emu = run(&code, 5);
  assert_eq!(reg(&emu, BX), 1);
  assert_eq!(reg(&emu, CX), 0);
}

#[test]
fn loop_counts_cx_down_to_zero() {
  let code = [
    0xB9, 0x03, 0x00, // mov cx, 3
    0x40, // inc ax
    0xE2, 0xFD, // loop -3
  ];
  let emu = run(&code, 1 + 3 * 2);
  assert_eq!(reg(&emu, AX), 3);
  assert_eq!(reg(&emu, CX), 0);
  assert_eq!(reg(&emu, IP), 6);
}

#[test]
fn jcxz_jumps_only_when_cx_is_zero() {
  let code = [
    0xE3, 0x03, // jcxz +3 (CX is 0: taken)
    0xBB, 0x01, 0x00, // mov bx, 1 (skipped)
    0xB9, 0x01, 0x00, // mov cx, 1
    0xE3, 0x03, // jcxz +3 (not taken)
    0xBA, 0x02, 0x00, // mov dx, 2
  ];
  let emu = run(&code, 4);
  assert_eq!(reg(&emu, BX), 0);
  assert_eq!(reg(&emu, DX), 2);
}

#[test]
fn call_and_ret_return_past_the_call() {
  let code = [
    0xBC, 0x00, 0x20, // mov sp, 0x2000
    0xE8, 0x04, 0x00, // call +4 (to 10)
    0xBB, 0x22, 0x22, // mov bx, 0x2222
    0xF4, // hlt
    0xB8, 0x11, 0x11, // mov ax, 0x1111
    0xC3, // ret
  ];
  let emu = run(&code, 6);
  assert_eq!(reg(&emu, AX), 0x1111);
  assert_eq!(reg(&emu, BX), 0x2222);
  assert_eq!(reg(&emu, SP), 0x2000);
  assert!(emu.machine.halted());
}

#[test]
fn ret_imm_releases_arguments() {
  let code = [
    0xBC, 0x00, 0x20, // mov sp, 0x2000
    0x6A, 0x07, // push 7
    0xE8, 0x01, 0x00, // call +1 (to 9)
    0xF4, // hlt
    0xC2, 0x02, 0x00, // ret 2
  ];
  let emu = run(&code, 5);
  assert_eq!(reg(&emu, SP), 0x2000);
  assert!(emu.machine.halted());
}

#[test]
fn near_jump_by_word_and_through_register() {
  let code = [
    0xE9, 0x03, 0x00, // jmp +3 (to 6)
    0xBB, 0x01, 0x00, // mov bx, 1 (skipped)
    0xB8, 0x0E, 0x00, // mov ax, 14
    0xFF, 0xE0, // jmp ax
    0xBA, 0x01, 0x00, // mov dx, 1 (skipped)
    0xF4, // hlt (at 14)
  ];
  let emu = run(&code, 4);
  assert_eq!(reg(&emu, BX), 0);
  assert_eq!(reg(&emu, DX), 0);
  assert!(emu.machine.halted());
}

#[test]
fn far_call_and_retf() {
  // CS = 0x0823 after loading.
  let code = [
    0xBC, 0x00, 0x20, // mov sp, 0x2000
    0x9A, 0x0A, 0x00, 0x23, 0x08, // call 0x0823:0x000a
    0xF4, // hlt (at 8)
    0x90, // nop
    0xB8, 0x34, 0x12, // mov ax, 0x1234 (at 10)
    0xCB, // retf
  ];
  let emu = run(&code, 5);
  assert_eq!(reg(&emu, AX), 0x1234);
  assert_eq!(reg(&emu, CS), 0x0823);
  assert_eq!(reg(&emu, SP), 0x2000);
  assert!(emu.machine.halted());
}

#[test]
fn far_jump_direct_sets_cs_and_ip() {
  let code = [0xEA, 0x34, 0x12, 0x00, 0x50];
  let emu = run(&code, 1);
  assert_eq!(reg(&emu, IP), 0x1234);
  assert_eq!(reg(&emu, CS), 0x5000);
}

#[test]
fn test_sets_flags_without_storing() {
  let code = [
    0xB0, 0x0F, // mov al, 0x0f
    0xA8, 0xF0, // test al, 0xf0
  ];
  let emu = run(&code, 2);
  assert_eq!(reg(&emu, AX), 0x000F);
  assert!(emu.machine.flag_read(FLAG_ZF));
}

#[test]
fn not_and_neg() {
  let code = [
    0xB8, 0x05, 0x00, // mov ax, 5
    0xF7, 0xD8, // neg ax
    0x89, 0xC3, // mov bx, ax
    0xF7, 0xD0, // not ax
  ];
  let emu = run(&code, 4);
  assert_eq!(reg(&emu, BX), 0xFFFB);
  assert_eq!(reg(&emu, AX), 0x0004);
  assert!(emu.machine.flag_read(FLAG_CF));
}

#[test]
fn cbw_and_cwd_sign_extend() {
  let code = [
    0xB0, 0x80, // mov al, 0x80
    0x98, // cbw
    0x99, // cwd
  ];
  let emu = run(&code, 3);
  assert_eq!(reg(&emu, AX), 0xFF80);
  assert_eq!(reg(&emu, DX), 0xFFFF);
}

#[test]
fn lea_computes_the_offset() {
  let code = [
    0xBB, 0x02, 0x00, // mov bx, 2
    0xBF, 0x03, 0x00, // mov di, 3
    0x8D, 0x71, 0x04, // lea si, [bx+di+4]
  ];
  let emu = run(&code, 3);
  assert_eq!(reg(&emu, SI), 9);
}

#[test]
fn xlat_reads_the_table_entry() {
  let mut code = DS_SCRATCH.to_vec();
  code.extend_from_slice(&[
    0xBB, 0x00, 0x01, // mov bx, 0x100
    0xC6, 0x47, 0x05, 0x77, // mov byte [bx+5], 0x77
    0xB0, 0x05, // mov al, 5
    0xD7, // xlat
  ]);
  let emu = run(&code, 6);
  // AL gets the entry; AH keeps the segment's high byte.
  assert_eq!(reg(&emu, AX), 0x6077);
}

#[test]
fn les_and_lds_load_far_pointers() {
  let mut code = DS_SCRATCH.to_vec();
  code.extend_from_slice(&[
    0xC7, 0x06, 0x00, 0x01, 0x34, 0x12, // mov word [0x100], 0x1234
    0xC7, 0x06, 0x02, 0x01, 0x78, 0x56, // mov word [0x102], 0x5678
    0xC4, 0x3E, 0x00, 0x01, // les di, [0x100]
    0xC5, 0x36, 0x00, 0x01, // lds si, [0x100]
  ]);
  let emu = run(&code, 6);
  assert_eq!(reg(&emu, DI), 0x1234);
  assert_eq!(reg(&emu, ES), 0x5678);
  assert_eq!(reg(&emu, SI), 0x1234);
  assert_eq!(reg(&emu, DS), 0x5678);
}

#[test]
fn pushf_popf_restore_flags() {
  let code = [
    0xBC, 0x00, 0x20, // mov sp, 0x2000
    0xF9, // stc
    0x9C, // pushf
    0xF8, // clc
    0x9D, // popf
  ];
  let emu = run(&code, 5);
  assert!(emu.machine.flag_read(FLAG_CF));
  assert_eq!(reg(&emu, SP), 0x2000);
}

#[test]
fn flag_instructions() {
  let code = [0xF9, 0xFB, 0xF8, 0xFA, 0xFB];
  let emu = run(&code, 2);
  assert!(emu.machine.flag_read(FLAG_CF));
  assert!(emu.machine.flag_read(FLAG_IF));
  let emu = run(&code, 4);
  assert!(!emu.machine.flag_read(FLAG_CF));
  assert!(!emu.machine.flag_read(FLAG_IF));
}

#[test]
fn enter_and_leave_build_and_drop_a_frame() {
  let code = [
    0xBC, 0x00, 0x20, // mov sp, 0x2000
    0xBD, 0x11, 0x11, // mov bp, 0x1111
    0xC8, 0x08, 0x00, 0x00, // enter 8, 0
  ];
  let emu = run(&code, 3);
  assert_eq!(reg(&emu, BP), 0x1FFE);
  assert_eq!(reg(&emu, SP), 0x1FF6);
  let mut code2 = code.to_vec();
  code2.push(0xC9); // leave
  let emu = run(&code2, 4);
  assert_eq!(reg(&emu, BP), 0x1111);
  assert_eq!(reg(&emu, SP), 0x2000);
}

#[test]
fn imul_one_and_three_operand_forms() {
  let code = [
    0xB8, 0xFD, 0xFF, // mov ax, -3
    0xBB, 0x07, 0x00, // mov bx, 7
    0xF7, 0xEB, // imul bx
    0x69, 0xCB, 0x10, 0x00, // imul cx, bx, 0x10
    0x6B, 0xD3, 0xFF, // imul dx, bx, -1
  ];
  let emu = run(&code, 3);
  assert_eq!(reg(&emu, AX), 0xFFEB);
  assert_eq!(reg(&emu, DX), 0xFFFF);
  assert!(!emu.machine.flag_read(FLAG_CF));
  let emu = run(&code, 5);
  assert_eq!(reg(&emu, CX), 0x0070);
  assert_eq!(reg(&emu, DX), 0xFFF9);
}

#[test]
fn pop_to_memory_and_segment_push_pop() {
  let mut code = DS_SCRATCH.to_vec();
  code.extend_from_slice(&[
    0xBC, 0x00, 0x20, // mov sp, 0x2000
    0x68, 0x34, 0x12, // push 0x1234
    0x8F, 0x06, 0x00, 0x01, // pop word [0x100]
    0x1E, // push ds
    0x07, // pop es
    0x8C, 0xC1, // mov cx, es
    0xA1, 0x00, 0x01, // mov ax, [0x100]
  ]);
  let emu = run(&code, 9);
  assert_eq!(word_at(&emu, SCRATCH_ABS + 0x100), 0x1234);
  assert_eq!(reg(&emu, ES), SCRATCH_SEG);
  assert_eq!(reg(&emu, CX), SCRATCH_SEG);
  assert_eq!(reg(&emu, AX), 0x1234);
}

#[test]
fn shift_alias_and_immediate_group_alias() {
  let code = [
    0xB8, 0x01, 0x00, // mov ax, 1
    0xD1, 0xF0, // shl ax, 1 (the /6 alias)
    0x82, 0xC0, 0x05, // add al, 5 (the 82 alias)
  ];
  let emu = run(&code, 3);
  assert_eq!(reg(&emu, AX), 7);
}

#[test]
fn decoded_forms_the_cpu_does_not_carry_out_are_errors() {
  for code in [vec![0x27u8], vec![0xD1, 0xC8], vec![0xF6, 0xE3], vec![0xCD, 0x21], vec![0xE4, 0x60]] {
    let fx = Fixture::new("unimpl", code);
    let exe = Exe::decode(&fx.build_mz()).unwrap();
    let mut emu = Emulator::new("unimpl.exe", exe).unwrap();
    assert_eq!(emu.step(), Err("unimplemented instruction".to_string()));
    assert_eq!(reg(&emu, IP), 0);
  }
}

#[test]
fn undecodable_bytes_are_errors() {
  let fx = Fixture::new("inval", vec![0x62, 0x00]);
  let exe = Exe::decode(&fx.build_mz()).unwrap();
  let mut emu = Emulator::new("inval.exe", exe).unwrap();
  assert_eq!(emu.step(), Err("invalid or unsupported instruction".to_string()));
}

#[test]
fn iret_pops_ip_cs_and_flags() {
  let code = [
    0xBC, 0x00, 0x20, // mov sp, 0x2000
    0xF9, // stc
    0x9C, // pushf
    0x0E, // push cs
    0x6A, 0x0F, // push 15
    0xF8, // clc
    0xCF, // iret
    0x90, 0x90, 0x90, 0x90, 0x90, // nop x5
    0xF4, // hlt (at 15)
  ];
  let emu = run(&code, 8);
  assert!(emu.machine.flag_read(FLAG_CF));
  assert_eq!(reg(&emu, SP), 0x2000);
  assert_eq!(reg(&emu, CS), 0x0823);
  assert!(emu.machine.halted());
}
