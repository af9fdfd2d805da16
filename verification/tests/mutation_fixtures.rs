use dis86::cpu::{AX, BP, BX, CS, CX, DI, DS, DX, ES, SI, SP, SS};
use dis86::emu::Emulator;
use dis86::fixture::{seg_off_from_abs, Fixture, MemoryRange};
use dis86::mz::Exe;
use std::collections::HashMap;

// Scratch window for segment-override memory ops: ES points here and
// memory-op BX offsets stay inside [0, 0x1000).
const SCRATCH_SEG: u16 = 0x6000;
const SCRATCH_ABS: usize = (SCRATCH_SEG as usize) << 4;
const SCRATCH_LEN: usize = 0x1000;

// ModRM register-field order: AX, CX, DX, BX, SP, BP, SI, DI.
const R_AX: usize = 0;
const R_CX: usize = 1;
const R_DX: usize = 2;
const R_BX: usize = 3;
const R_SP: usize = 4;
const R_BP: usize = 5;
const R_SI: usize = 6;
const R_DI: usize = 7;

// ModRM sreg-field order: ES, CS, SS, DS.
const S_ES: usize = 0;
const S_DS: usize = 3;

/// Deterministic LCG: a fixed seed always yields the same op stream.
struct Prng(u64);

impl Prng {
  fn new(seed: u64) -> Self {
    Self(seed)
  }
  fn next_u16(&mut self) -> u16 {
    self.0 = self.0.wrapping_mul(6364136223846793005).wrapping_add(1442695040888963407);
    (self.0 >> 16) as u16
  }
}

/// One mutation instruction in symbolic form, consumed both by the byte
/// encoder and by the independent model.
#[derive(Debug, Clone, Copy)]
enum Op {
  Add(usize, usize),
  Sub(usize, usize),
  Xor(usize, usize),
  And(usize, usize),
  Or(usize, usize),
  Mov(usize, usize),
  Xchg(usize, usize),
  XchgAx(usize),
  Inc(usize),
  Dec(usize),
  AddImm(usize, u16),
  MovImm(usize, u16),
  PushReg(usize),
  PopReg(usize),
  PushImm(u16),
  Cmp(usize, usize),
  MovSreg(usize, usize),
  MovMemAX,
  MovAXMem,
}

fn imm16(v: u16) -> [u8; 2] {
  [v as u8, (v >> 8) as u8]
}

fn modrm_rr(reg: usize, rm: usize) -> u8 {
  0xC0 | ((reg as u8) << 3) | (rm as u8)
}

fn encode(op: &Op) -> Vec<u8> {
  match *op {
    Op::Add(rd, rs) => vec![0x03, modrm_rr(rd, rs)],
    Op::Sub(rd, rs) => vec![0x2B, modrm_rr(rd, rs)],
    Op::Xor(rd, rs) => vec![0x33, modrm_rr(rd, rs)],
    Op::And(rd, rs) => vec![0x23, modrm_rr(rd, rs)],
    Op::Or(rd, rs) => vec![0x0B, modrm_rr(rd, rs)],
    Op::Mov(rd, rs) => vec![0x8B, modrm_rr(rd, rs)],
    Op::Xchg(rd, rs) => vec![0x87, modrm_rr(rd, rs)],
    Op::XchgAx(r) => vec![0x90 + r as u8],
    Op::Inc(rd) => vec![0x40 + rd as u8],
    Op::Dec(rd) => vec![0x48 + rd as u8],
    Op::AddImm(rd, v) => {
      let mut b = vec![0x81, modrm_rr(0, rd)];
      b.extend_from_slice(&imm16(v));
      b
    }
    Op::MovImm(rd, v) => {
      let mut b = vec![0xB8 + rd as u8];
      b.extend_from_slice(&imm16(v));
      b
    }
    Op::PushReg(r) => vec![0x50 + r as u8],
    Op::PopReg(r) => vec![0x58 + r as u8],
    Op::PushImm(v) => {
      let mut b = vec![0x68];
      b.extend_from_slice(&imm16(v));
      b
    }
    Op::Cmp(rd, rs) => vec![0x3B, modrm_rr(rd, rs)],
    Op::MovSreg(s, r) => vec![0x8E, modrm_rr(s, r)],
    Op::MovMemAX => vec![0x26, 0x89, 0x07],
    Op::MovAXMem => vec![0x26, 0x8B, 0x07],
  }
}

/// Independent model of the mutation instructions' effects.
#[derive(Debug, Clone, Default)]
struct Model {
  regs: [u16; 8],
  sreg: [u16; 4],
  stack: Vec<u16>,
  mem: HashMap<u32, u16>,
}

// The loader's initial state: DS=ES=0x0813, CS=SS=0x0823, general registers 0.
fn model_init() -> Model {
  let mut m = Model::default();
  m.sreg[0] = 0x0813;
  m.sreg[1] = 0x0823;
  m.sreg[2] = 0x0823;
  m.sreg[3] = 0x0813;
  m
}

fn mem_addr(m: &Model) -> u32 {
  ((m.sreg[S_ES] as u32) << 4) | (m.regs[R_BX] as u32)
}

fn apply(m: &mut Model, op: &Op) {
  match *op {
    Op::Add(rd, rs) => m.regs[rd] = m.regs[rd].wrapping_add(m.regs[rs]),
    Op::Sub(rd, rs) => m.regs[rd] = m.regs[rd].wrapping_sub(m.regs[rs]),
    Op::Xor(rd, rs) => m.regs[rd] ^= m.regs[rs],
    Op::And(rd, rs) => m.regs[rd] &= m.regs[rs],
    Op::Or(rd, rs) => m.regs[rd] |= m.regs[rs],
    Op::Mov(rd, rs) => m.regs[rd] = m.regs[rs],
    Op::Xchg(rd, rs) => {
      let t = m.regs[rd];
      m.regs[rd] = m.regs[rs];
      m.regs[rs] = t;
    }
    Op::XchgAx(r) => {
      let t = m.regs[R_AX];
      m.regs[R_AX] = m.regs[r];
      m.regs[r] = t;
    }
    Op::Inc(rd) => m.regs[rd] = m.regs[rd].wrapping_add(1),
    Op::Dec(rd) => m.regs[rd] = m.regs[rd].wrapping_sub(1),
    Op::AddImm(rd, v) => m.regs[rd] = m.regs[rd].wrapping_add(v),
    Op::MovImm(rd, v) => m.regs[rd] = v,
    Op::PushReg(r) => {
      m.stack.push(m.regs[r]);
      m.regs[R_SP] = m.regs[R_SP].wrapping_sub(2);
    }
    Op::PopReg(r) => {
      let v = m.stack.pop().expect("model pop underflow");
      m.regs[r] = v;
      m.regs[R_SP] = m.regs[R_SP].wrapping_add(2);
    }
    Op::PushImm(v) => {
      m.stack.push(v);
      m.regs[R_SP] = m.regs[R_SP].wrapping_sub(2);
    }
    Op::Cmp(..) => {}
    Op::MovSreg(s, r) => m.sreg[s] = m.regs[r],
    Op::MovMemAX => {
      let a = mem_addr(m);
      m.mem.insert(a, m.regs[R_AX]);
    }
    Op::MovAXMem => {
      let v = *m.mem.get(&mem_addr(m)).unwrap_or(&0);
      m.regs[R_AX] = v;
    }
  }
}

fn replay(ops: &[Op]) -> Model {
  let mut m = model_init();
  for op in ops {
    apply(&mut m, op);
  }
  m
}

// A general register other than SP, which only PUSH/POP and the set-up move.
fn rng_reg(rng: &mut Prng) -> usize {
  const POOL: [usize; 7] = [R_AX, R_CX, R_DX, R_BX, R_BP, R_SI, R_DI];
  POOL[(rng.next_u16() % 7) as usize]
}

/// Seeded register initialisation, then `len` seeded mutation instructions.
fn gen_ops(seed: u64, len: usize) -> Vec<Op> {
  let mut rng = Prng::new(seed);
  let mut ops = Vec::new();
  for rd in 0..8 {
    ops.push(Op::MovImm(rd, rng.next_u16()));
  }
  ops.push(Op::MovImm(R_SP, 0x2000));
  ops.push(Op::MovImm(R_AX, SCRATCH_SEG));
  ops.push(Op::MovSreg(S_ES, R_AX));

  let mut depth = 0usize;
  for _ in 0..len {
    let k = rng.next_u16() % 16;
    match k {
      0 => ops.push(Op::Add(rng_reg(&mut rng), rng_reg(&mut rng))),
      1 => ops.push(Op::Sub(rng_reg(&mut rng), rng_reg(&mut rng))),
      2 => ops.push(Op::Xor(rng_reg(&mut rng), rng_reg(&mut rng))),
      3 => ops.push(Op::And(rng_reg(&mut rng), rng_reg(&mut rng))),
      4 => ops.push(Op::Or(rng_reg(&mut rng), rng_reg(&mut rng))),
      5 => ops.push(Op::Mov(rng_reg(&mut rng), rng_reg(&mut rng))),
      6 => {
        let rd = rng_reg(&mut rng);
        let rs = rng_reg(&mut rng);
        if rd != rs {
          ops.push(Op::Xchg(rd, rs));
        } else {
          ops.push(Op::Inc(rd));
        }
      }
      7 => {
        const REGS: [usize; 6] = [R_CX, R_DX, R_BX, R_BP, R_SI, R_DI];
        ops.push(Op::XchgAx(REGS[(rng.next_u16() % 6) as usize]));
      }
      8 => ops.push(Op::Inc(rng_reg(&mut rng))),
      9 => ops.push(Op::Dec(rng_reg(&mut rng))),
      10 => ops.push(Op::AddImm(rng_reg(&mut rng), rng.next_u16())),
      11 => {
        if rng.next_u16() & 1 == 0 {
          ops.push(Op::PushImm(rng.next_u16()));
        } else {
          ops.push(Op::PushReg(rng_reg(&mut rng)));
        }
        depth += 1;
      }
      12 => {
        if depth > 0 {
          ops.push(Op::PopReg(rng_reg(&mut rng)));
          depth -= 1;
        } else {
          ops.push(Op::MovImm(R_AX, rng.next_u16()));
        }
      }
      13 => ops.push(Op::Cmp(rng_reg(&mut rng), rng_reg(&mut rng))),
      14 => ops.push(Op::MovSreg(S_DS, rng_reg(&mut rng))),
      15 => {
        ops.push(Op::MovImm(R_BX, rng.next_u16() % SCRATCH_LEN as u16));
        if rng.next_u16() & 1 == 0 {
          ops.push(Op::MovMemAX);
        } else {
          ops.push(Op::MovAXMem);
        }
      }
      _ => unreachable!(),
    }
  }
  ops
}

fn code_from_ops(ops: &[Op]) -> Vec<u8> {
  let mut code = Vec::new();
  for op in ops {
    code.extend_from_slice(&encode(op));
  }
  code
}

/// Loads the fixture's MZ image into a fresh emulator.
fn into_emulator(fx: &Fixture) -> Emulator {
  let exe = Exe::decode(&fx.build_mz()).unwrap();
  Emulator::new(&format!("{}.exe", fx.name), exe).unwrap()
}

fn step_emulator(emu: &mut Emulator, n: usize) {
  for _ in 0..n {
    emu.step().unwrap();
  }
}

fn scratch() -> Vec<MemoryRange> {
  vec![MemoryRange { start: SCRATCH_ABS, end: SCRATCH_ABS + SCRATCH_LEN }]
}

fn read_word(emu: &Emulator, abs: usize) -> u16 {
  let lo = emu.machine.mem.read_u8(seg_off_from_abs(abs)) as u16;
  let hi = emu.machine.mem.read_u8(seg_off_from_abs(abs + 1)) as u16;
  (hi << 8) | lo
}

fn run_corpus(seed: u64, len: usize) -> (Model, Emulator) {
  let ops = gen_ops(seed, len);
  let fx = Fixture::new(&format!("mut_corpus_{}_{}", seed, len), code_from_ops(&ops)).with_scratch(scratch());
  let mut emu = into_emulator(&fx);
  step_emulator(&mut emu, ops.len());
  let model = replay(&ops);
  (model, emu)
}

fn assert_model(m: &Model, emu: &Emulator) {
  let mc = &emu.machine;
  assert_eq!(mc.reg_read_u16(AX), m.regs[R_AX], "AX");
  assert_eq!(mc.reg_read_u16(CX), m.regs[R_CX], "CX");
  assert_eq!(mc.reg_read_u16(DX), m.regs[R_DX], "DX");
  assert_eq!(mc.reg_read_u16(BX), m.regs[R_BX], "BX");
  assert_eq!(mc.reg_read_u16(SP), m.regs[R_SP], "SP");
  assert_eq!(mc.reg_read_u16(BP), m.regs[R_BP], "BP");
  assert_eq!(mc.reg_read_u16(SI), m.regs[R_SI], "SI");
  assert_eq!(mc.reg_read_u16(DI), m.regs[R_DI], "DI");
  assert_eq!(mc.reg_read_u16(ES), m.sreg[0], "ES");
  assert_eq!(mc.reg_read_u16(CS), m.sreg[1], "CS");
  assert_eq!(mc.reg_read_u16(SS), m.sreg[2], "SS");
  assert_eq!(mc.reg_read_u16(DS), m.sreg[3], "DS");
  for (&addr, &val) in &m.mem {
    let abs = addr as usize;
    assert_eq!(read_word(emu, abs), val, "mem@{:#x}", abs);
  }
}

#[test]
fn corpus_seed_1_len_200() {
  let (m, emu) = run_corpus(1, 200);
  assert_model(&m, &emu);
}

#[test]
fn corpus_seed_2_len_180() {
  let (m, emu) = run_corpus(2, 180);
  assert_model(&m, &emu);
}

#[test]
fn corpus_seed_3_len_240() {
  let (m, emu) = run_corpus(3, 240);
  assert_model(&m, &emu);
}

#[test]
fn corpus_seed_4_len_160() {
  let (m, emu) = run_corpus(4, 160);
  assert_model(&m, &emu);
}

#[test]
fn corpus_seed_5_len_220() {
  let (m, emu) = run_corpus(5, 220);
  assert_model(&m, &emu);
}

#[test]
fn corpus_seed_6_len_280() {
  let (m, emu) = run_corpus(6, 280);
  assert_model(&m, &emu);
}

#[test]
fn corpus_seed_7_len_140() {
  let (m, emu) = run_corpus(7, 140);
  assert_model(&m, &emu);
}

#[test]
fn corpus_seed_8_len_260() {
  let (m, emu) = run_corpus(8, 260);
  assert_model(&m, &emu);
}

#[test]
fn corpus_seed_9_len_120() {
  let (m, emu) = run_corpus(9, 120);
  assert_model(&m, &emu);
}

#[test]
fn corpus_seed_10_len_300() {
  let (m, emu) = run_corpus(10, 300);
  assert_model(&m, &emu);
}

#[test]
fn corpus_seed_42_len_256() {
  let (m, emu) = run_corpus(42, 256);
  assert_model(&m, &emu);
}

#[test]
fn corpus_seed_1337_len_232() {
  let (m, emu) = run_corpus(1337, 232);
  assert_model(&m, &emu);
}

/// ES/DS/CS segment-override memory operands at known absolute addresses.
#[test]
fn segment_override_memory() {
  let abs = SCRATCH_ABS + 0x0100;
  let cs_abs = 0x08230 + 0x0600;
  let code: Vec<u8> = vec![
    0xB8, 0x00, 0x60, // mov ax, 0x6000
    0x8E, 0xC0, // mov es, ax
    0x8E, 0xD8, // mov ds, ax
    0xBB, 0x00, 0x01, // mov bx, 0x0100
    0xB8, 0xFE, 0xCA, // mov ax, 0xCAFE
    0x26, 0x89, 0x07, // mov word ptr es:[bx], ax
    0xB9, 0xEF, 0xBE, // mov cx, 0xBEEF
    0x3E, 0x89, 0x0F, // mov word ptr ds:[bx], cx
    0x26, 0x8B, 0x17, // mov dx, word ptr es:[bx]
    0xB8, 0x57, 0x13, // mov ax, 0x1357
    0x2E, 0x89, 0x06, 0x00, 0x06, // mov word ptr cs:[0x0600], ax
    0x3E, 0x8B, 0x37, // mov si, word ptr ds:[bx]
  ];
  let fx = Fixture::new("seg_override_mem", code).with_scratch(scratch());
  let mut emu = into_emulator(&fx);
  step_emulator(&mut emu, 12);

  assert_eq!(read_word(&emu, abs), 0xBEEF, "scratch word");
  assert_eq!(emu.machine.reg_read_u16(DX), 0xBEEF);
  assert_eq!(emu.machine.reg_read_u16(SI), 0xBEEF);
  assert_eq!(read_word(&emu, cs_abs), 0x1357, "cs word");
}

/// Three pushes and three pops: the values come back in reverse and SP
/// returns to where it started.
#[test]
fn stack_balance_push_pop() {
  let code: Vec<u8> = vec![
    0xBC, 0x00, 0x20, // mov sp, 0x2000
    0xB8, 0x11, 0x11, // mov ax, 0x1111
    0xBB, 0x22, 0x22, // mov bx, 0x2222
    0x50, // push ax
    0x53, // push bx
    0x68, 0x33, 0x33, // push 0x3333
    0x59, // pop cx
    0x5A, // pop dx
    0x5E, // pop si
  ];
  let fx = Fixture::new("stack_balance", code);
  let mut emu = into_emulator(&fx);
  step_emulator(&mut emu, 9);

  assert_eq!(emu.machine.reg_read_u16(SP), 0x2000, "SP net change");
  assert_eq!(emu.machine.reg_read_u16(CX), 0x3333);
  assert_eq!(emu.machine.reg_read_u16(DX), 0x2222);
  assert_eq!(emu.machine.reg_read_u16(SI), 0x1111);
}

/// `mov sreg, r16` sets ES and DS.
#[test]
fn segment_mutation_sreg_mov() {
  let code: Vec<u8> = vec![
    0xB8, 0x11, 0x11, // mov ax, 0x1111
    0xBB, 0x22, 0x22, // mov bx, 0x2222
    0xB9, 0x33, 0x33, // mov cx, 0x3333
    0x8E, 0xC0, // mov es, ax
    0x8E, 0xDB, // mov ds, bx
    0x8E, 0xC1, // mov es, cx
  ];
  let fx = Fixture::new("seg_mutation", code);
  let mut emu = into_emulator(&fx);
  step_emulator(&mut emu, 6);

  assert_eq!(emu.machine.reg_read_u16(ES), 0x3333);
  assert_eq!(emu.machine.reg_read_u16(DS), 0x2222);
}
