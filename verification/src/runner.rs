use vstd::prelude::*;
use vstd::string::StringExecFns;
use crate::cpu::{NUM_REGS, CX, IP, FLAGS};
use crate::decode::{decode_one, decode_at, scan_prefixes};
use crate::flags::{Flags, FLAG_AF, FLAG_OF};
use crate::instr::{Opcode, Operand, OperandReg, Reg};
use crate::machine::Machine;
use crate::mem::MEM_SIZE;
use crate::step::{fetched, step_error, step_fails, step_result, lemma_undecodable_message, executes};
use crate::decode::decodable;
use crate::text::{hex_pad, dec, push_hex, push_dec, push_str};

verus! {

/// The FLAGS bits the runner compares by default: the bits the emulator
/// models.
pub const DEFAULT_FLAGS_UMASK: u16 = 0x0FD7;

/// The most unexpected writes an outcome keeps as samples.
pub const MAX_UNEXPECTED_SAMPLES: usize = 8;

/// The name of register `i` of the register file.
pub open spec fn reg_name_spec(i: int) -> &'static str {
    if i == 0 {
        "AX"
    } else if i == 1 {
        "BX"
    } else if i == 2 {
        "CX"
    } else if i == 3 {
        "DX"
    } else if i == 4 {
        "SI"
    } else if i == 5 {
        "DI"
    } else if i == 6 {
        "BP"
    } else if i == 7 {
        "SP"
    } else if i == 8 {
        "IP"
    } else if i == 9 {
        "CS"
    } else if i == 10 {
        "DS"
    } else if i == 11 {
        "ES"
    } else if i == 12 {
        "SS"
    } else {
        "FLAGS"
    }
}

/// The name of register `i`: AX BX CX DX SI DI BP SP IP CS DS ES SS FLAGS.
pub fn reg_name(i: usize) -> (r: &'static str)
    ensures
        r == reg_name_spec(i as int),
{
    if i == 0 {
        "AX"
    } else if i == 1 {
        "BX"
    } else if i == 2 {
        "CX"
    } else if i == 3 {
        "DX"
    } else if i == 4 {
        "SI"
    } else if i == 5 {
        "DI"
    } else if i == 6 {
        "BP"
    } else if i == 7 {
        "SP"
    } else if i == 8 {
        "IP"
    } else if i == 9 {
        "CS"
    } else if i == 10 {
        "DS"
    } else if i == 11 {
        "ES"
    } else if i == 12 {
        "SS"
    } else {
        "FLAGS"
    }
}

/// Options of a run.
#[derive(Clone, Copy, Debug)]
pub struct RunOpts {
    /// The FLAGS bits to compare. With `count_sensitive_flags`, the bits a
    /// shift or rotation leaves undefined are refined by the test's
    /// effective count.
    pub flags_umask: u16,
    /// Report bytes the step changed that the test's final RAM does not
    /// declare, as unexpected writes.
    pub check_extra_writes: bool,
    /// Refine the FLAGS mask of shifts and rotations by their count.
    pub count_sensitive_flags: bool,
}

impl Default for RunOpts {
    fn default() -> (r: Self)
        ensures
            r.flags_umask == DEFAULT_FLAGS_UMASK,
            r.check_extra_writes,
            r.count_sensitive_flags,
    {
        RunOpts { flags_umask: DEFAULT_FLAGS_UMASK, check_extra_writes: true, count_sensitive_flags: true }
    }
}

/// A FLAGS mismatch on compared bits.
#[derive(Clone, Copy, Debug, PartialEq, Eq, Structural)]
pub struct FlagsDiff {
    pub expected: u16,
    pub actual: u16,
    pub umask: u16,
}

/// How one test run came out.
#[derive(Clone, Debug, PartialEq)]
pub enum Outcome {
    Pass,
    Fail {
        reg_diffs: Vec<(String, u16, u16)>,
        ram_diffs: Vec<(u32, u8, u8)>,
        unexpected_writes: Vec<(u32, u8, u8)>,
        unexpected_writes_total: usize,
        flags_diff: Option<FlagsDiff>,
    },
    DecodeErr(String),
    Panic(String),
    SkipException { num: u8 },
    Skip32BitState,
    InvalidVector(String),
}

/// The tag of an outcome's bucket.
pub open spec fn bucket_of(o: &Outcome) -> &'static str {
    match o {
        Outcome::Pass => "PASS",
        Outcome::Fail { .. } => "FAIL",
        Outcome::DecodeErr(_) => "DECODE_ERR",
        Outcome::Panic(_) => "PANIC",
        Outcome::SkipException { .. } => "SKIP_EXCEPTION",
        Outcome::Skip32BitState => "SKIP_32BIT",
        Outcome::InvalidVector(_) => "INVALID_VECTOR",
    }
}

impl Outcome {
    /// A short tag naming the outcome's bucket.
    pub fn bucket_name(&self) -> (r: &'static str)
        ensures
            r == bucket_of(self),
    {
        match self {
            Outcome::Pass => "PASS",
            Outcome::Fail { .. } => "FAIL",
            Outcome::DecodeErr(_) => "DECODE_ERR",
            Outcome::Panic(_) => "PANIC",
            Outcome::SkipException { .. } => "SKIP_EXCEPTION",
            Outcome::Skip32BitState => "SKIP_32BIT",
            Outcome::InvalidVector(_) => "INVALID_VECTOR",
        }
    }
}

// ---------------------------------------------------------------------------
// Prefix filter
// ---------------------------------------------------------------------------

/// A prefix byte of the conservative filter: segment overrides, operand
/// and address size, LOCK and REP.
pub open spec fn filter_prefix(x: u8) -> bool {
    x == 0x26 || x == 0x2e || x == 0x36 || x == 0x3e || x == 0x66 || x == 0x67 || x == 0xf0 || x
        == 0xf2 || x == 0xf3
}

/// The index of the first byte from `i` on that is not a filter prefix.
pub open spec fn skip_prefixes(b: Seq<u8>, i: nat) -> nat
    decreases b.len() - i,
{
    if i < b.len() && filter_prefix(b[i as int]) {
        skip_prefixes(b, i + 1)
    } else {
        i
    }
}

/// A string-operation opcode (MOVS, CMPS, STOS, LODS, SCAS).
pub open spec fn string_opcode(x: u8) -> bool {
    (0xa4 <= x <= 0xa7) || (0xaa <= x <= 0xaf)
}

/// The conservative filter skips a test that starts with a prefix byte,
/// except when the opcode after the prefixes is a string operation, where
/// the prefix means something the emulator implements.
pub open spec fn prefix_filtered(b: Seq<u8>) -> bool {
    let i = skip_prefixes(b, 0);
    !(i < b.len() && string_opcode(b[i as int])) && b.len() > 0 && filter_prefix(b[0])
}

fn is_filter_prefix(x: u8) -> (r: bool)
    ensures
        r == filter_prefix(x),
{
    x == 0x26 || x == 0x2e || x == 0x36 || x == 0x3e || x == 0x66 || x == 0x67 || x == 0xf0 || x
        == 0xf2 || x == 0xf3
}

/// Whether the conservative prefix filter skips a test whose instruction
/// bytes are `bytes`.
pub fn is_prefix_filtered(bytes: &[u8]) -> (r: bool)
    ensures
        r == prefix_filtered(bytes@),
{
    let mut i: usize = 0;
    while i < bytes.len() && is_filter_prefix(bytes[i])
        invariant
            i <= bytes@.len(),
            skip_prefixes(bytes@, i as nat) == skip_prefixes(bytes@, 0),
        decreases bytes@.len() - i,
    {
        i = i + 1;
    }
    if i < bytes.len() && ((0xa4 <= bytes[i] && bytes[i] <= 0xa7) || (0xaa <= bytes[i] && bytes[i] <= 0xaf)) {
        return false;
    }
    bytes.len() > 0 && is_filter_prefix(bytes[0])
}


/// The prefixes are skipped one by one: from any index among the first `k`
/// prefix bytes, skipping stops at `k`.
proof fn lemma_skip_to(b: Seq<u8>, j: nat, k: nat)
    requires
        j <= k <= b.len(),
        forall|m: int| j <= m < k ==> #[trigger] filter_prefix(b[m]),
        k == b.len() || !filter_prefix(b[k as int]),
    ensures
        skip_prefixes(b, j) == k,
    decreases k - j,
{
    if j < k {
        lemma_skip_to(b, j + 1, k);
    }
}

/// The conservative filter, byte by byte: let the instruction start with
/// `k` prefix bytes (26, 2E, 36, 3E, 66, 67, F0, F2, F3) and no more. A test
/// with no prefix runs; a prefixed test runs when the byte after its
/// prefixes is a string opcode (A4..A7 or AA..AF) and is skipped
/// otherwise.
pub proof fn lemma_prefix_filter_bytes(b: Seq<u8>, k: nat)
    requires
        k <= b.len(),
        forall|m: int|
            0 <= m < k ==> (#[trigger] b[m] == 0x26 || b[m] == 0x2e || b[m] == 0x36 || b[m] == 0x3e || b[m]
                == 0x66 || b[m] == 0x67 || b[m] == 0xf0 || b[m] == 0xf2 || b[m] == 0xf3),
        k == b.len() || !(b[k as int] == 0x26 || b[k as int] == 0x2e || b[k as int] == 0x36 || b[k as int]
            == 0x3e || b[k as int] == 0x66 || b[k as int] == 0x67 || b[k as int] == 0xf0 || b[k as int]
            == 0xf2 || b[k as int] == 0xf3),
    ensures
        prefix_filtered(b) == (k > 0 && !(k < b.len() && ((0xa4 <= b[k as int] && b[k as int] <= 0xa7) || (
        0xaa <= b[k as int] && b[k as int] <= 0xaf)))),
{
    assert forall|m: int| 0 <= m < k implies #[trigger] filter_prefix(b[m]) by {
        assert(b[m] == 0x26 || b[m] == 0x2e || b[m] == 0x36 || b[m] == 0x3e || b[m] == 0x66 || b[m] == 0x67
            || b[m] == 0xf0 || b[m] == 0xf2 || b[m] == 0xf3);
    }
    lemma_skip_to(b, 0, k);
    if k > 0 {
        assert(filter_prefix(b[0]));
    }
}

// ---------------------------------------------------------------------------
// The tests
// ---------------------------------------------------------------------------

/// One byte of a test state's RAM.
#[derive(Clone, Copy, Debug, PartialEq, Eq, Structural)]
pub struct RamEntry {
    pub address: u32,
    pub value: u8,
}

/// The registers of a test state: the 16-bit register file (AX BX CX DX
/// SI DI BP SP IP CS DS ES SS FLAGS), each present or not (a final state
/// lists only the registers the instruction changed), or a 32-bit state.
#[derive(Clone, Copy, Debug)]
pub enum TestRegs {
    Sixteen([Option<u16>; 14]),
    ThirtyTwo,
}

/// A machine state a test starts from or ends in.
#[derive(Clone, Debug)]
pub struct TestState {
    pub regs: TestRegs,
    pub ram: Vec<RamEntry>,
}

/// One hardware-captured single-step test: the instruction bytes, the
/// states before and after, the exception the hardware raised, if any, and
/// the test's SHA-1 hash, if recorded.
#[derive(Clone, Debug)]
pub struct SstTest {
    pub name: String,
    pub bytes: Vec<u8>,
    pub initial: TestState,
    pub fin: TestState,
    pub exception: Option<u8>,
    pub hash: Option<[u8; 20]>,
}

/// The first `n` bytes in lower-case hexadecimal, two digits each.
pub open spec fn hex_bytes(h: Seq<u8>, n: nat) -> Seq<char>
    decreases n,
{
    if n == 0 {
        Seq::empty()
    } else {
        hex_bytes(h, (n - 1) as nat) + hex_pad(h[n - 1] as nat, 2, false)
    }
}

/// The text of a test's hash: its bytes in hexadecimal, or `##NOHASH##`.
pub open spec fn hash_text(h: Option<[u8; 20]>) -> Seq<char> {
    match h {
        Some(h) => hex_bytes(h@, 20),
        None => "##NOHASH##"@,
    }
}

impl SstTest {
    /// The test's hash in lower-case hexadecimal, or `##NOHASH##` when it
    /// has none.
    pub fn hash_string(&self) -> (r: String)
        ensures
            r@ == hash_text(self.hash),
    {
        match &self.hash {
            Some(h) => {
                let mut s = String::new();
                let mut k: usize = 0;
                while k < 20
                    invariant
                        k <= 20,
                        s@ == hex_bytes(h@, k as nat),
                    decreases 20 - k,
                {
                    push_hex(&mut s, h[k] as u32, 2, false);
                    k = k + 1;
                }
                s
            },
            None => String::from_str("##NOHASH##"),
        }
    }
}

/// A register of a test state, zero when absent.
pub open spec fn init_reg(init: Seq<Option<u16>>, i: int) -> u16 {
    match init[i] {
        Some(v) => v,
        None => 0,
    }
}

/// The register file a test starts from.
pub open spec fn init_regs(init: Seq<Option<u16>>) -> Seq<u16> {
    Seq::new(NUM_REGS as nat, |i: int| init_reg(init, i))
}

/// The initial register file, absent registers zero.
pub fn initial_regs(init: &[Option<u16>; 14]) -> (r: [u16; 14])
    ensures
        r@ == init_regs(init@),
{
    let mut r = [0u16; 14];
    let mut i: usize = 0;
    while i < 14
        invariant
            i <= 14,
            r@.len() == 14,
            forall|k: int| 0 <= k < i ==> r@[k] == init_reg(init@, k),
        decreases 14 - i,
    {
        r[i] = match init[i] {
            Some(v) => v,
            None => 0,
        };
        i = i + 1;
    }
    assert(r@ =~= init_regs(init@));
    r
}

// ---------------------------------------------------------------------------
// Count-sensitive FLAGS mask
// ---------------------------------------------------------------------------

/// The opcode and operands the bytes decode to.
pub open spec fn decoded(b: Seq<u8>) -> Option<(Opcode, Seq<Operand>)> {
    match scan_prefixes(b, 0, None, None) {
        Some((seg, rep, i)) => match decode_at(b, i, seg, rep) {
            Some((op, ops, n)) => Some((op, ops)),
            None => None,
        },
        None => None,
    }
}

/// The count of a shift: its immediate or CL, masked to five bits; none
/// for another second operand.
pub open spec fn shift_count_of(ops: Seq<Operand>, init: Seq<u16>) -> Option<u8> {
    if ops.len() > 1 {
        match ops[1] {
            Operand::Imm(i) => Some((i.val as u8) & 0x1f),
            Operand::Reg(r) => if r == OperandReg(Reg::CL) {
                Some((init[CX as int] as u8) & 0x1f)
            } else {
                None
            },
            _ => None,
        }
    } else {
        None
    }
}

/// The FLAGS mask for a shift or rotation by `count`: AF is compared only
/// when the count is zero (the flags are then preserved) for SHL/SHR/SAR,
/// and always for ROL, which never defines it; OF only when the count is
/// at most one, where it is defined.
pub open spec fn count_umask(op: Opcode, count: u8, umask: u16) -> u16 {
    let m = umask | FLAG_AF | FLAG_OF;
    if op == Opcode::OP_SHL || op == Opcode::OP_SHR || op == Opcode::OP_SAR {
        let m1 = if count != 0 {
            m & !FLAG_AF
        } else {
            m
        };
        if count > 1 {
            m1 & !FLAG_OF
        } else {
            m1
        }
    } else if op == Opcode::OP_ROL {
        if count > 1 {
            m & !FLAG_OF
        } else {
            m
        }
    } else {
        umask
    }
}

/// The FLAGS mask a test is compared with.
pub open spec fn effective_umask(bytes: Seq<u8>, init: Seq<u16>, opts: RunOpts) -> u16 {
    if !opts.count_sensitive_flags {
        opts.flags_umask
    } else {
        match decoded(bytes) {
            Some((op, ops)) => match shift_count_of(ops, init) {
                Some(c) => count_umask(op, c, opts.flags_umask),
                None => opts.flags_umask,
            },
            None => opts.flags_umask,
        }
    }
}

/// The FLAGS mask a test is compared with: the options' mask, refined for
/// a shift or rotation by its effective count.
pub fn effective_flags_umask(test: &SstTest, init: &[u16; 14], opts: &RunOpts) -> (r: u16)
    ensures
        r == effective_umask(test.bytes@, init@, *opts),
{
    if !opts.count_sensitive_flags {
        return opts.flags_umask;
    }
    let instr = match decode_one(test.bytes.as_slice()) {
        Some((instr, _)) => instr,
        None => {
            return opts.flags_umask;
        },
    };
    if instr.operands.len() <= 1 {
        return opts.flags_umask;
    }
    let count: u8 = match instr.operands[1] {
        Operand::Imm(imm) => (imm.val as u8) & 0x1f,
        Operand::Reg(r) => {
            if r == OperandReg(Reg::CL) {
                (init[CX] as u8) & 0x1f
            } else {
                return opts.flags_umask;
            }
        },
        _ => {
            return opts.flags_umask;
        },
    };
    let umask = opts.flags_umask;
    match instr.opcode {
        Opcode::OP_SHL | Opcode::OP_SHR | Opcode::OP_SAR => {
            let mut mask = umask | FLAG_AF | FLAG_OF;
            if count != 0 {
                mask = mask & !FLAG_AF;
            }
            if count > 1 {
                mask = mask & !FLAG_OF;
            }
            mask
        },
        Opcode::OP_ROL => {
            let mut mask = umask | FLAG_AF | FLAG_OF;
            if count > 1 {
                mask = mask & !FLAG_OF;
            }
            mask
        },
        _ => umask,
    }
}


// ---------------------------------------------------------------------------
// Setting up the machine
// ---------------------------------------------------------------------------

/// Memory `mem` with the first `n` RAM entries written in order.
pub open spec fn mem_with_ram(mem: Seq<u8>, ram: Seq<RamEntry>, n: nat) -> Seq<u8>
    decreases n,
{
    if n == 0 {
        mem
    } else {
        mem_with_ram(mem, ram, (n - 1) as nat).update(ram[n - 1].address as int, ram[n - 1].value)
    }
}

/// The first of the first `n` RAM entries that lies outside memory.
pub open spec fn first_out_of_bounds(ram: Seq<RamEntry>, n: nat) -> Option<u32>
    decreases n,
{
    if n == 0 {
        None
    } else {
        match first_out_of_bounds(ram, (n - 1) as nat) {
            Some(a) => Some(a),
            None => if ram[n - 1].address >= MEM_SIZE {
                Some(ram[n - 1].address)
            } else {
                None
            },
        }
    }
}

/// The message of an initial RAM entry outside memory.
pub open spec fn out_of_bounds_message(addr: u32) -> Seq<char> {
    "initial ram address 0x"@ + hex_pad(addr as nat, 5, true) + " out of bounds (len 0x"@ + hex_pad(
        MEM_SIZE as nat,
        5,
        true,
    ) + ")"@
}

proof fn lemma_oob_stable(ram: Seq<RamEntry>, m: nat, n: nat)
    requires
        m <= n,
        first_out_of_bounds(ram, m) is Some,
    ensures
        first_out_of_bounds(ram, n) == first_out_of_bounds(ram, m),
    decreases n,
{
    if n > m {
        lemma_oob_stable(ram, m, (n - 1) as nat);
    }
}

/// Writes the test's initial RAM, refusing an entry outside memory.
fn write_initial_ram(machine: &mut Machine, ram: &[RamEntry]) -> (r: Result<(), Outcome>)
    requires
        old(machine).wf(),
    ensures
        final(machine).wf(),
        final(machine).regs() == old(machine).regs(),
        final(machine).exec_count == old(machine).exec_count,
        r is Ok <==> first_out_of_bounds(ram@, ram@.len()) is None,
        r is Ok ==> final(machine).mem.0@ == mem_with_ram(old(machine).mem.0@, ram@, ram@.len()),
        r matches Err(o) ==> o matches Outcome::InvalidVector(m) && m@ == out_of_bounds_message(
            first_out_of_bounds(ram@, ram@.len()).unwrap(),
        ),
{
    let mut k: usize = 0;
    while k < ram.len()
        invariant
            k <= ram@.len(),
            machine.wf(),
            machine.regs() == old(machine).regs(),
            machine.exec_count == old(machine).exec_count,
            first_out_of_bounds(ram@, k as nat) is None,
            machine.mem.0@ == mem_with_ram(old(machine).mem.0@, ram@, k as nat),
        decreases ram@.len() - k,
    {
        let e = ram[k];
        let addr = e.address as usize;
        if addr >= machine.mem.0.len() {
            proof {
                assert(first_out_of_bounds(ram@, (k + 1) as nat) == Some(e.address));
                lemma_oob_stable(ram@, (k + 1) as nat, ram@.len());
            }
            let mut msg = String::from_str("initial ram address 0x");
            push_hex(&mut msg, e.address, 5, true);
            push_str(&mut msg, " out of bounds (len 0x");
            push_hex(&mut msg, machine.mem.0.len() as u32, 5, true);
            push_str(&mut msg, ")");
            return Err(Outcome::InvalidVector(msg));
        }
        machine.mem.0.set(addr, e.value);
        k = k + 1;
    }
    Ok(())
}

/// Loads the register file.
fn set_registers(machine: &mut Machine, init: &[u16; 14])
    requires
        old(machine).wf(),
    ensures
        final(machine).wf(),
        final(machine).regs() == init@,
        final(machine).mem == old(machine).mem,
        final(machine).exec_count == old(machine).exec_count,
{
    let mut i: usize = 0;
    while i < 14
        invariant
            i <= 14,
            machine.wf(),
            machine.mem == old(machine).mem,
            machine.exec_count == old(machine).exec_count,
            machine.regs().len() == 14,
            forall|k: int| 0 <= k < i ==> machine.regs()[k] == init@[k],
        decreases 14 - i,
    {
        if i == FLAGS {
            machine.flag_write_all(Flags(init[i]));
        } else {
            machine.reg_write_u16(i, init[i]);
        }
        i = i + 1;
    }
    assert(machine.regs() =~= init@);
}

/// A copy of a byte vector.
fn copy_bytes(v: &Vec<u8>) -> (r: Vec<u8>)
    ensures
        r@ == v@,
{
    let mut r: Vec<u8> = Vec::new();
    let mut i: usize = 0;
    while i < v.len()
        invariant
            i <= v@.len(),
            r@ == v@.subrange(0, i as int),
        decreases v@.len() - i,
    {
        r.push(v[i]);
        i = i + 1;
        assert(r@ =~= v@.subrange(0, i as int));
    }
    assert(r@ =~= v@);
    r
}

// ---------------------------------------------------------------------------
// Comparing the final state
// ---------------------------------------------------------------------------

/// The value register `i` should hold after the step: the final state's,
/// or the initial one when the final state leaves it out. The tests halt
/// on a HLT after the instruction, so their IP is one past ours.
pub open spec fn expected_reg(init: Seq<u16>, fin: Seq<Option<u16>>, i: int) -> u16 {
    let v = match fin[i] {
        Some(v) => v,
        None => init[i],
    };
    if i == IP as int {
        ((v + 0xffff) % 0x10000) as u16
    } else {
        v
    }
}

/// The mismatching registers among the first `n`, FLAGS aside, with the
/// expected and the actual value.
pub open spec fn reg_diffs_upto(actual: Seq<u16>, init: Seq<u16>, fin: Seq<Option<u16>>, n: nat) -> Seq<(Seq<char>, u16, u16)>
    decreases n,
{
    if n == 0 {
        Seq::empty()
    } else {
        let rest = reg_diffs_upto(actual, init, fin, (n - 1) as nat);
        let i = n - 1;
        if i != FLAGS as int && actual[i] != expected_reg(init, fin, i) {
            rest.push((reg_name_spec(i)@, expected_reg(init, fin, i), actual[i]))
        } else {
            rest
        }
    }
}

/// A FLAGS mismatch on the compared bits.
pub open spec fn flags_mismatch(actual: Seq<u16>, init: Seq<u16>, fin: Seq<Option<u16>>, umask: u16) -> Option<FlagsDiff> {
    let e = expected_reg(init, fin, FLAGS as int);
    let a = actual[FLAGS as int];
    if (a ^ e) & umask != 0 {
        Some(FlagsDiff { expected: e, actual: a, umask })
    } else {
        None
    }
}

/// The byte memory holds at `a`, zero outside it.
pub open spec fn byte_at(mem: Seq<u8>, a: int) -> u8 {
    if 0 <= a < mem.len() {
        mem[a]
    } else {
        0
    }
}

/// The mismatching bytes among the first `n` final RAM entries: address,
/// expected and actual value.
pub open spec fn ram_diffs_upto(mem: Seq<u8>, fin_ram: Seq<RamEntry>, n: nat) -> Seq<(u32, u8, u8)>
    decreases n,
{
    if n == 0 {
        Seq::empty()
    } else {
        let rest = ram_diffs_upto(mem, fin_ram, (n - 1) as nat);
        let e = fin_ram[n - 1];
        if byte_at(mem, e.address as int) != e.value {
            rest.push((e.address, e.value, byte_at(mem, e.address as int)))
        } else {
            rest
        }
    }
}

/// The final RAM declares address `a`.
pub open spec fn declared(fin_ram: Seq<RamEntry>, a: int) -> bool {
    exists|k: int| 0 <= k < fin_ram.len() && fin_ram[k].address == a
}

/// The addresses below `n` whose byte the step changed and the final RAM
/// does not declare, in order: address, byte before, byte after.
pub open spec fn undeclared_changes(before: Seq<u8>, after: Seq<u8>, fin_ram: Seq<RamEntry>, n: nat) -> Seq<(u32, u8, u8)>
    decreases n,
{
    if n == 0 {
        Seq::empty()
    } else {
        let rest = undeclared_changes(before, after, fin_ram, (n - 1) as nat);
        let a = n - 1;
        if before[a] != after[a] && !declared(fin_ram, a) {
            rest.push((a as u32, before[a], after[a]))
        } else {
            rest
        }
    }
}

/// What a comparison finds.
pub struct Mismatch {
    pub reg_diffs: Seq<(Seq<char>, u16, u16)>,
    pub ram_diffs: Seq<(u32, u8, u8)>,
    pub unexpected: Seq<(u32, u8, u8)>,
    pub flags: Option<FlagsDiff>,
}

/// The comparison of the state after the step (`regs`, `mem`) with the
/// test's expectations; `before` is the memory before the step when
/// writes are checked.
pub open spec fn compare_spec(
    regs: Seq<u16>,
    mem: Seq<u8>,
    before: Option<Seq<u8>>,
    init: Seq<u16>,
    fin: Seq<Option<u16>>,
    fin_ram: Seq<RamEntry>,
    umask: u16,
) -> Mismatch {
    Mismatch {
        reg_diffs: reg_diffs_upto(regs, init, fin, NUM_REGS as nat),
        ram_diffs: ram_diffs_upto(mem, fin_ram, fin_ram.len()),
        unexpected: match before {
            Some(b) => undeclared_changes(b, mem, fin_ram, MEM_SIZE as nat),
            None => Seq::empty(),
        },
        flags: flags_mismatch(regs, init, fin, umask),
    }
}

/// A comparison that finds nothing.
pub open spec fn clean(m: Mismatch) -> bool {
    m.reg_diffs.len() == 0 && m.ram_diffs.len() == 0 && m.unexpected.len() == 0 && m.flags is None
}

/// A register difference as a value.
pub open spec fn reg_diff_view(d: (String, u16, u16)) -> (Seq<char>, u16, u16) {
    (d.0@, d.1, d.2)
}

/// Register differences as values.
pub open spec fn reg_diffs_view(v: Seq<(String, u16, u16)>) -> Seq<(Seq<char>, u16, u16)> {
    v.map_values(|d: (String, u16, u16)| reg_diff_view(d))
}

/// An outcome is what a comparison found: a pass when it found nothing,
/// otherwise a failure listing it, with at most eight unexpected writes
/// kept besides their count.
pub open spec fn outcome_of(o: Outcome, m: Mismatch) -> bool {
    if clean(m) {
        o is Pass
    } else {
        match o {
            Outcome::Fail { reg_diffs, ram_diffs, unexpected_writes, unexpected_writes_total, flags_diff } => {
                &&& reg_diffs_view(reg_diffs@) == m.reg_diffs
                &&& ram_diffs@ == m.ram_diffs
                &&& unexpected_writes@ == m.unexpected.take(
                    if m.unexpected.len() < MAX_UNEXPECTED_SAMPLES {
                        m.unexpected.len() as int
                    } else {
                        MAX_UNEXPECTED_SAMPLES as int
                    },
                )
                &&& unexpected_writes_total == m.unexpected.len()
                &&& flags_diff == m.flags
            },
            _ => false,
        }
    }
}


/// The memory before the step, as a value, when writes are checked.
pub open spec fn before_view(before: Option<&Vec<u8>>) -> Option<Seq<u8>> {
    match before {
        Some(b) => Some(b@),
        None => None,
    }
}

/// Whether the final RAM declares address `a`.
fn is_declared(fin_ram: &[RamEntry], a: usize) -> (r: bool)
    ensures
        r == declared(fin_ram@, a as int),
{
    let mut k: usize = 0;
    while k < fin_ram.len()
        invariant
            k <= fin_ram@.len(),
            forall|j: int| 0 <= j < k ==> fin_ram@[j].address != a,
        decreases fin_ram@.len() - k,
    {
        if fin_ram[k].address as usize == a {
            return true;
        }
        k = k + 1;
    }
    false
}

/// Compares the machine after the step with the test's expectations:
/// every register but FLAGS exactly, FLAGS on the compared bits, the final
/// RAM entries, and, when `before` holds the memory before the step, every
/// changed byte the final RAM does not declare.
fn compare_state(
    machine: &Machine,
    init: &[u16; 14],
    fin: &[Option<u16>; 14],
    fin_ram: &[RamEntry],
    opts: &RunOpts,
    before: Option<&Vec<u8>>,
) -> (o: Outcome)
    requires
        machine.wf(),
        before matches Some(b) ==> b@.len() == MEM_SIZE,
    ensures
        outcome_of(
            o,
            compare_spec(
                machine.regs(),
                machine.mem.0@,
                before_view(before),
                init@,
                fin@,
                fin_ram@,
                opts.flags_umask,
            ),
        ),
{
    let ghost regs = machine.regs();
    let ghost m = compare_spec(
        machine.regs(),
        machine.mem.0@,
        before_view(before),
        init@,
        fin@,
        fin_ram@,
        opts.flags_umask,
    );
    let mut reg_diffs: Vec<(String, u16, u16)> = Vec::new();
    let mut flags_diff: Option<FlagsDiff> = None;
    let mut i: usize = 0;
    while i < 14
        invariant
            i <= 14,
            regs == machine.regs(),
            regs.len() == 14,
            reg_diffs_view(reg_diffs@) == reg_diffs_upto(
                regs,
                init@,
                fin@,
                i as nat,
            ),
            flags_diff == if i > FLAGS {
                flags_mismatch(regs, init@, fin@, opts.flags_umask)
            } else {
                None
            },
        decreases 14 - i,
    {
        let v = match fin[i] {
            Some(v) => v,
            None => init[i],
        };
        let expected = if i == IP {
            v.wrapping_sub(1)
        } else {
            v
        };
        assert(expected == expected_reg(init@, fin@, i as int));
        let actual = machine.cpu.regs[i];
        if i == FLAGS {
            if (actual ^ expected) & opts.flags_umask != 0 {
                flags_diff = Some(FlagsDiff { expected, actual, umask: opts.flags_umask });
            }
        } else if actual != expected {
            let ghost before_push = reg_diffs@;
            let name = String::from_str(reg_name(i));
            let ghost item = (name, expected, actual);
            reg_diffs.push((name, expected, actual));
            assert(reg_diffs@ =~= before_push.push(item));
            assert(reg_diffs_view(reg_diffs@) =~= reg_diffs_view(before_push).push(
                (reg_name_spec(i as int)@, expected, actual),
            ));
        }
        i = i + 1;
    }
    let mut ram_diffs: Vec<(u32, u8, u8)> = Vec::new();
    let mut k: usize = 0;
    while k < fin_ram.len()
        invariant
            k <= fin_ram@.len(),
            machine.wf(),
            ram_diffs@ == ram_diffs_upto(machine.mem.0@, fin_ram@, k as nat),
        decreases fin_ram@.len() - k,
    {
        let e = fin_ram[k];
        let addr = e.address as usize;
        let actual_byte: u8 = if addr < machine.mem.0.len() {
            machine.mem.0[addr]
        } else {
            0
        };
        if actual_byte != e.value {
            ram_diffs.push((e.address, e.value, actual_byte));
        }
        k = k + 1;
    }
    let mut unexpected: Vec<(u32, u8, u8)> = Vec::new();
    let mut total: usize = 0;
    match before {
        Some(b) => {
            let ghost changes = undeclared_changes(b@, machine.mem.0@, fin_ram@, MEM_SIZE as nat);
            let mut a: usize = 0;
            while a < MEM_SIZE
                invariant
                    a <= MEM_SIZE,
                    machine.wf(),
                    b@.len() == MEM_SIZE,
                    total == undeclared_changes(b@, machine.mem.0@, fin_ram@, a as nat).len(),
                    total <= a,
                    unexpected@ == undeclared_changes(b@, machine.mem.0@, fin_ram@, a as nat).take(
                        if total < MAX_UNEXPECTED_SAMPLES {
                            total as int
                        } else {
                            MAX_UNEXPECTED_SAMPLES as int
                        },
                    ),
                decreases MEM_SIZE - a,
            {
                let x = b[a];
                let y = machine.mem.0[a];
                if x != y && !is_declared(fin_ram, a) {
                    let ghost prev = undeclared_changes(b@, machine.mem.0@, fin_ram@, a as nat);
                    if unexpected.len() < MAX_UNEXPECTED_SAMPLES {
                        unexpected.push((a as u32, x, y));
                    }
                    total = total + 1;
                    proof {
                        let next = undeclared_changes(b@, machine.mem.0@, fin_ram@, (a + 1) as nat);
                        assert(next == prev.push((a as u32, x, y)));
                        if total <= MAX_UNEXPECTED_SAMPLES {
                            assert(unexpected@ =~= next.take(total as int));
                        } else {
                            assert(unexpected@ =~= next.take(MAX_UNEXPECTED_SAMPLES as int));
                        }
                    }
                }
                a = a + 1;
            }
        },
        None => {},
    }
    assert(reg_diffs_view(reg_diffs@) == m.reg_diffs);
    assert(ram_diffs@ == m.ram_diffs);
    assert(flags_diff == m.flags);
    assert(total == m.unexpected.len());
    assert(reg_diffs_view(reg_diffs@).len() == reg_diffs@.len());
    assert(unexpected@ =~= m.unexpected.take(
        if m.unexpected.len() < MAX_UNEXPECTED_SAMPLES {
            m.unexpected.len() as int
        } else {
            MAX_UNEXPECTED_SAMPLES as int
        },
    ));
    if reg_diffs.len() == 0 && ram_diffs.len() == 0 && total == 0 && flags_diff.is_none() {
        Outcome::Pass
    } else {
        Outcome::Fail {
            reg_diffs,
            ram_diffs,
            unexpected_writes: unexpected,
            unexpected_writes_total: total,
            flags_diff,
        }
    }
}


// ---------------------------------------------------------------------------
// Running one test
// ---------------------------------------------------------------------------

/// Zero-filled memory.
pub open spec fn zero_mem() -> Seq<u8> {
    Seq::new(MEM_SIZE as nat, |i: int| 0u8)
}

/// The memory a test starts from: zeros with its initial RAM written.
pub open spec fn initial_mem(ram: Seq<RamEntry>) -> Seq<u8> {
    mem_with_ram(zero_mem(), ram, ram.len())
}

/// How a test comes out: skipped when the hardware raised an exception or
/// a state is not a 16-bit one; invalid when its initial RAM lies outside
/// memory; a decode error when the bytes do not decode, and a panic when
/// the step fails otherwise (an instruction the CPU does not carry out, or
/// a division that raises a divide error); else what
/// comparing the state after one step with the final state finds.
pub open spec fn test_outcome(test: SstTest, opts: RunOpts, o: Outcome) -> bool {
    match test.exception {
        Some(n) => o == Outcome::SkipException { num: n },
        None => match (test.initial.regs, test.fin.regs) {
            (TestRegs::Sixteen(init), TestRegs::Sixteen(fin)) => {
                let regs0 = init_regs(init@);
                let ram = test.initial.ram@;
                match first_out_of_bounds(ram, ram.len()) {
                    Some(a) => o matches Outcome::InvalidVector(m) && m@ == out_of_bounds_message(a),
                    None => {
                        let mem0 = initial_mem(ram);
                        if step_fails(regs0, mem0) {
                            if decodable(fetched(regs0, mem0)) {
                                o matches Outcome::Panic(m) && m@ == step_error(regs0, mem0)
                            } else {
                                o matches Outcome::DecodeErr(m) && m@ == step_error(regs0, mem0)
                            }
                        } else {
                            let after = step_result(regs0, mem0);
                            outcome_of(
                                o,
                                compare_spec(
                                    after.0,
                                    after.1,
                                    if opts.check_extra_writes {
                                        Some(mem0)
                                    } else {
                                        None
                                    },
                                    regs0,
                                    fin@,
                                    test.fin.ram@,
                                    effective_umask(test.bytes@, regs0, opts),
                                ),
                            )
                        }
                    },
                }
            },
            _ => o is Skip32BitState,
        },
    }
}

/// Runs a test: loads its initial state into a fresh machine, executes one
/// instruction and compares the result with the test's final state.
pub fn run_test(test: &SstTest, opts: &RunOpts) -> (o: Outcome)
    ensures
        test_outcome(*test, *opts, o),
{
    match test.exception {
        Some(n) => {
            return Outcome::SkipException { num: n };
        },
        None => {},
    }
    let (init, fin) = match (&test.initial.regs, &test.fin.regs) {
        (TestRegs::Sixteen(init), TestRegs::Sixteen(fin)) => (init, fin),
        _ => {
            return Outcome::Skip32BitState;
        },
    };
    let init_r = initial_regs(init);
    let compare_opts = RunOpts {
        flags_umask: effective_flags_umask(test, &init_r, opts),
        check_extra_writes: opts.check_extra_writes,
        count_sensitive_flags: opts.count_sensitive_flags,
    };
    let mut machine = Machine::new(None);
    assert(machine.mem.0@ =~= zero_mem());
    match write_initial_ram(&mut machine, test.initial.ram.as_slice()) {
        Ok(()) => {},
        Err(o) => {
            return o;
        },
    }
    set_registers(&mut machine, &init_r);
    let ghost regs0 = machine.regs();
    let ghost mem0 = machine.mem.0@;
    assert(mem0 == initial_mem(test.initial.ram@));
    let before: Option<Vec<u8>> = if opts.check_extra_writes {
        Some(copy_bytes(&machine.mem.0))
    } else {
        None
    };
    match machine.step() {
        Ok(()) => {},
        Err(e) => {
            proof {
                lemma_undecodable_message(regs0, mem0);
            }
            if e == "invalid or unsupported instruction".to_owned() {
                return Outcome::DecodeErr(e);
            }
            return Outcome::Panic(e);
        },
    }
    let o = match &before {
        Some(b) => compare_state(&machine, &init_r, fin, test.fin.ram.as_slice(), &compare_opts, Some(b)),
        None => compare_state(&machine, &init_r, fin, test.fin.ram.as_slice(), &compare_opts, None),
    };
    o
}


// ---------------------------------------------------------------------------
// Describing an outcome
// ---------------------------------------------------------------------------

/// The parts joined by `sep`.
pub open spec fn join(parts: Seq<Seq<char>>, sep: Seq<char>) -> Seq<char>
    decreases parts.len(),
{
    if parts.len() == 0 {
        Seq::empty()
    } else if parts.len() == 1 {
        parts[0]
    } else {
        join(parts.drop_last(), sep) + sep + parts.last()
    }
}

/// A FLAGS mismatch: `flags exp=0x.... act=0x.... umask=0x....`.
pub open spec fn flags_part(fd: FlagsDiff) -> Seq<char> {
    "flags exp=0x"@ + hex_pad(fd.expected as nat, 4, true) + " act=0x"@ + hex_pad(fd.actual as nat, 4, true)
        + " umask=0x"@ + hex_pad(fd.umask as nat, 4, true)
}

/// A register mismatch: `NAME exp=0x.... act=0x....`.
pub open spec fn reg_part(d: (Seq<char>, u16, u16)) -> Seq<char> {
    d.0 + " exp=0x"@ + hex_pad(d.1 as nat, 4, true) + " act=0x"@ + hex_pad(d.2 as nat, 4, true)
}

/// A RAM mismatch: `[0x.....] exp=0x.. act=0x..`.
pub open spec fn ram_part(d: (u32, u8, u8)) -> Seq<char> {
    "[0x"@ + hex_pad(d.0 as nat, 5, true) + "] exp=0x"@ + hex_pad(d.1 as nat, 2, true) + " act=0x"@
        + hex_pad(d.2 as nat, 2, true)
}

/// An unexpected write: `[0x.....] before->after`, in decimal.
pub open spec fn write_part(d: (u32, u8, u8)) -> Seq<char> {
    "[0x"@ + hex_pad(d.0 as nat, 5, true) + "] "@ + dec(d.1 as nat) + "->"@ + dec(d.2 as nat)
}

/// The register mismatches among the first `n`, without a FLAGS entry when
/// the FLAGS mismatch is reported on its own.
pub open spec fn reg_parts(regs: Seq<(Seq<char>, u16, u16)>, has_flags: bool, n: nat) -> Seq<Seq<char>>
    decreases n,
{
    if n == 0 {
        Seq::empty()
    } else {
        let rest = reg_parts(regs, has_flags, (n - 1) as nat);
        if regs[n - 1].0 == "FLAGS"@ && has_flags {
            rest
        } else {
            rest.push(reg_part(regs[n - 1]))
        }
    }
}

/// The parts of a failure's description, in order: FLAGS, registers, RAM,
/// unexpected writes.
pub open spec fn fail_parts(
    regs: Seq<(Seq<char>, u16, u16)>,
    rams: Seq<(u32, u8, u8)>,
    shown: Seq<(u32, u8, u8)>,
    total: nat,
    flags: Option<FlagsDiff>,
) -> Seq<Seq<char>> {
    let f = match flags {
        Some(fd) => seq![flags_part(fd)],
        None => Seq::empty(),
    };
    let w = if total > 0 {
        seq![
            "unexpected_writes "@ + dec(total) + " (shown: "@ + join(shown.map_values(|d: (u32, u8, u8)| write_part(d)), " "@)
                + ")"@,
        ]
    } else {
        Seq::empty()
    };
    f + reg_parts(regs, flags is Some, regs.len()) + rams.map_values(|d: (u32, u8, u8)| ram_part(d)) + w
}

/// The one-line description of an outcome.
pub open spec fn detail_text(o: Outcome) -> Seq<char> {
    match o {
        Outcome::Pass => "pass"@,
        Outcome::DecodeErr(e) => "decode: "@ + e@,
        Outcome::Panic(e) => "panic: "@ + e@,
        Outcome::SkipException { num } => "exception #"@ + dec(num as nat),
        Outcome::Skip32BitState => "32-bit state"@,
        Outcome::InvalidVector(e) => "invalid: "@ + e@,
        Outcome::Fail { reg_diffs, ram_diffs, unexpected_writes, unexpected_writes_total, flags_diff } => {
            let parts = fail_parts(
                reg_diffs_view(reg_diffs@),
                ram_diffs@,
                unexpected_writes@,
                unexpected_writes_total as nat,
                flags_diff,
            );
            if parts.len() == 0 {
                "fail"@
            } else {
                join(parts, "; "@)
            }
        },
    }
}

proof fn lemma_join_push(parts: Seq<Seq<char>>, sep: Seq<char>, x: Seq<char>)
    ensures
        join(parts.push(x), sep) == if parts.len() == 0 {
            x
        } else {
            join(parts, sep) + sep + x
        },
{
    assert(parts.push(x).drop_last() =~= parts);
}

/// Appends a part to a joined list of `n` parts.
fn append_part(s: &mut String, parts: Ghost<Seq<Seq<char>>>, first: bool, part: &String, sep: &str)
    requires
        old(s)@ == join(parts@, sep@),
        first == (parts@.len() == 0),
    ensures
        final(s)@ == join(parts@.push(part@), sep@),
{
    proof {
        lemma_join_push(parts@, sep@, part@);
    }
    if first {
        *s = String::new();
        push_str(s, part.as_str());
        assert(s@ =~= part@);
    } else {
        push_str(s, sep);
        push_str(s, part.as_str());
    }
}


fn flags_text(fd: FlagsDiff) -> (r: String)
    ensures
        r@ == flags_part(fd),
{
    let mut s = String::from_str("flags exp=0x");
    push_hex(&mut s, fd.expected as u32, 4, true);
    push_str(&mut s, " act=0x");
    push_hex(&mut s, fd.actual as u32, 4, true);
    push_str(&mut s, " umask=0x");
    push_hex(&mut s, fd.umask as u32, 4, true);
    s
}

fn reg_text(d: &(String, u16, u16)) -> (r: String)
    ensures
        r@ == reg_part(reg_diff_view(*d)),
{
    let mut s = String::new();
    push_str(&mut s, d.0.as_str());
    push_str(&mut s, " exp=0x");
    push_hex(&mut s, d.1 as u32, 4, true);
    push_str(&mut s, " act=0x");
    push_hex(&mut s, d.2 as u32, 4, true);
    s
}

fn ram_text(d: (u32, u8, u8)) -> (r: String)
    ensures
        r@ == ram_part(d),
{
    let mut s = String::from_str("[0x");
    push_hex(&mut s, d.0, 5, true);
    push_str(&mut s, "] exp=0x");
    push_hex(&mut s, d.1 as u32, 2, true);
    push_str(&mut s, " act=0x");
    push_hex(&mut s, d.2 as u32, 2, true);
    s
}

fn write_text(d: (u32, u8, u8)) -> (r: String)
    ensures
        r@ == write_part(d),
{
    let mut s = String::from_str("[0x");
    push_hex(&mut s, d.0, 5, true);
    push_str(&mut s, "] ");
    push_dec(&mut s, d.1 as u64);
    push_str(&mut s, "->");
    push_dec(&mut s, d.2 as u64);
    s
}

/// The unexpected writes shown, separated by spaces.
fn writes_text(shown: &Vec<(u32, u8, u8)>) -> (r: String)
    ensures
        r@ == join(shown@.map_values(|d: (u32, u8, u8)| write_part(d)), " "@),
{
    let mut s = String::new();
    let mut k: usize = 0;
    while k < shown.len()
        invariant
            k <= shown@.len(),
            s@ == join(shown@.subrange(0, k as int).map_values(|d: (u32, u8, u8)| write_part(d)), " "@),
        decreases shown@.len() - k,
    {
        let part = write_text(shown[k]);
        let ghost prev = shown@.subrange(0, k as int).map_values(|d: (u32, u8, u8)| write_part(d));
        append_part(&mut s, Ghost(prev), k == 0, &part, " ");
        assert(shown@.subrange(0, k + 1).map_values(|d: (u32, u8, u8)| write_part(d)) =~= prev.push(part@));
        k = k + 1;
    }
    assert(shown@.subrange(0, shown@.len() as int) =~= shown@);
    s
}

/// The description of a failure.
fn fail_detail(
    reg_diffs: &Vec<(String, u16, u16)>,
    ram_diffs: &Vec<(u32, u8, u8)>,
    shown: &Vec<(u32, u8, u8)>,
    total: usize,
    flags: Option<FlagsDiff>,
) -> (r: String)
    ensures
        r@ == ({
            let parts = fail_parts(reg_diffs_view(reg_diffs@), ram_diffs@, shown@, total as nat, flags);
            if parts.len() == 0 {
                "fail"@
            } else {
                join(parts, "; "@)
            }
        }),
{
    let ghost regs = reg_diffs_view(reg_diffs@);
    let ghost f: Seq<Seq<char>> = match flags {
        Some(fd) => seq![flags_part(fd)],
        None => Seq::empty(),
    };
    let mut s = String::new();
    let mut any = false;
    let ghost mut parts: Seq<Seq<char>> = Seq::empty();
    match flags {
        Some(fd) => {
            let part = flags_text(fd);
            append_part(&mut s, Ghost(parts), true, &part, "; ");
            proof {
                parts = parts.push(part@);
            }
            any = true;
        },
        None => {},
    }
    assert(parts =~= f);
    let flags_name = String::from_str("FLAGS");
    let has_flags = flags.is_some();
    let mut k: usize = 0;
    while k < reg_diffs.len()
        invariant
            k <= reg_diffs@.len(),
            regs == reg_diffs_view(reg_diffs@),
            flags_name@ == "FLAGS"@,
            has_flags == flags is Some,
            parts == f + reg_parts(regs, has_flags, k as nat),
            any == (parts.len() > 0),
            s@ == join(parts, "; "@),
        decreases reg_diffs@.len() - k,
    {
        let d = &reg_diffs[k];
        assert(regs[k as int] == reg_diff_view(*d));
        if d.0 == flags_name && has_flags {
        } else {
            let part = reg_text(d);
            append_part(&mut s, Ghost(parts), !any, &part, "; ");
            proof {
                parts = parts.push(part@);
            }
            any = true;
        }
        k = k + 1;
    }
    let ghost pre = parts;
    let mut k: usize = 0;
    while k < ram_diffs.len()
        invariant
            k <= ram_diffs@.len(),
            parts == pre + ram_diffs@.subrange(0, k as int).map_values(|d: (u32, u8, u8)| ram_part(d)),
            any == (parts.len() > 0),
            s@ == join(parts, "; "@),
        decreases ram_diffs@.len() - k,
    {
        let part = ram_text(ram_diffs[k]);
        append_part(&mut s, Ghost(parts), !any, &part, "; ");
        proof {
            assert(ram_diffs@.subrange(0, k + 1).map_values(|d: (u32, u8, u8)| ram_part(d)) =~= ram_diffs@.subrange(
                0,
                k as int,
            ).map_values(|d: (u32, u8, u8)| ram_part(d)).push(part@));
            parts = parts.push(part@);
        }
        any = true;
        k = k + 1;
    }
    assert(ram_diffs@.subrange(0, ram_diffs@.len() as int) =~= ram_diffs@);
    if total > 0 {
        let mut part = String::from_str("unexpected_writes ");
        push_dec(&mut part, total as u64);
        push_str(&mut part, " (shown: ");
        let w = writes_text(shown);
        push_str(&mut part, w.as_str());
        push_str(&mut part, ")");
        append_part(&mut s, Ghost(parts), !any, &part, "; ");
        proof {
            parts = parts.push(part@);
        }
        any = true;
    }
    assert(parts =~= fail_parts(regs, ram_diffs@, shown@, total as nat, flags));
    if !any {
        String::from_str("fail")
    } else {
        s
    }
}

/// The one-line description of an outcome, as the samples of a file's
/// summary carry it.
pub fn sample_detail(_test: &SstTest, outcome: &Outcome) -> (r: String)
    ensures
        r@ == detail_text(*outcome),
{
    match outcome {
        Outcome::Pass => String::from_str("pass"),
        Outcome::DecodeErr(e) => {
            let mut s = String::from_str("decode: ");
            push_str(&mut s, e.as_str());
            s
        },
        Outcome::Panic(e) => {
            let mut s = String::from_str("panic: ");
            push_str(&mut s, e.as_str());
            s
        },
        Outcome::SkipException { num } => {
            let mut s = String::from_str("exception #");
            push_dec(&mut s, *num as u64);
            s
        },
        Outcome::Skip32BitState => String::from_str("32-bit state"),
        Outcome::InvalidVector(e) => {
            let mut s = String::from_str("invalid: ");
            push_str(&mut s, e.as_str());
            s
        },
        Outcome::Fail { reg_diffs, ram_diffs, unexpected_writes, unexpected_writes_total, flags_diff } => {
            fail_detail(reg_diffs, ram_diffs, unexpected_writes, *unexpected_writes_total, *flags_diff)
        },
    }
}


// ---------------------------------------------------------------------------
// Running a file of tests
// ---------------------------------------------------------------------------

/// A classified test kept as a sample for the report.
#[derive(Clone, Debug)]
pub struct Sample {
    pub idx: usize,
    pub name: String,
    pub hash: String,
    pub detail: String,
}

/// What running one file of tests found.
#[derive(Clone, Debug)]
pub struct FileSummary {
    pub filename: String,
    pub total: usize,
    /// Tests walked: those at a multiple of the stride.
    pub visited: usize,
    /// Tests run: those walked that were neither revoked nor filtered.
    pub executed: usize,
    pub pass: usize,
    pub fail: usize,
    pub decode_err: usize,
    pub panic: usize,
    pub skip_exception: usize,
    pub skip_32bit: usize,
    pub filtered: usize,
    /// Tests skipped because their hash is on the revocation list.
    pub revoked: usize,
    pub samples: Vec<Sample>,
}

impl Default for FileSummary {
    fn default() -> (r: Self)
        ensures
            r.filename@.len() == 0,
            r.total == 0 && r.visited == 0 && r.executed == 0,
            r.pass == 0 && r.fail == 0 && r.decode_err == 0 && r.panic == 0,
            r.skip_exception == 0 && r.skip_32bit == 0 && r.filtered == 0 && r.revoked == 0,
            r.samples@.len() == 0,
    {
        FileSummary {
            filename: String::new(),
            total: 0,
            visited: 0,
            executed: 0,
            pass: 0,
            fail: 0,
            decode_err: 0,
            panic: 0,
            skip_exception: 0,
            skip_32bit: 0,
            filtered: 0,
            revoked: 0,
            samples: Vec::new(),
        }
    }
}

/// The most samples a file's summary keeps.
pub const MAX_SAMPLES: usize = 5;

/// The bucket of an outcome: 0 pass, 1 fail, 2 decode error, 3 panic,
/// 4 exception, 5 32-bit state, 6 invalid vector.
pub open spec fn outcome_kind(o: Outcome) -> int {
    match o {
        Outcome::Pass => 0,
        Outcome::Fail { .. } => 1,
        Outcome::DecodeErr(_) => 2,
        Outcome::Panic(_) => 3,
        Outcome::SkipException { .. } => 4,
        Outcome::Skip32BitState => 5,
        Outcome::InvalidVector(_) => 6,
    }
}

/// The bucket a test's outcome falls in.
pub open spec fn test_kind(test: SstTest, opts: RunOpts) -> int {
    match test.exception {
        Some(n) => 4,
        None => match (test.initial.regs, test.fin.regs) {
            (TestRegs::Sixteen(init), TestRegs::Sixteen(fin)) => {
                let regs0 = init_regs(init@);
                let ram = test.initial.ram@;
                if first_out_of_bounds(ram, ram.len()) is Some {
                    6
                } else {
                    let mem0 = initial_mem(ram);
                    if step_fails(regs0, mem0) {
                        if decodable(fetched(regs0, mem0)) {
                            3
                        } else {
                            2
                        }
                    } else {
                        let after = step_result(regs0, mem0);
                        if clean(
                            compare_spec(
                                after.0,
                                after.1,
                                if opts.check_extra_writes {
                                    Some(mem0)
                                } else {
                                    None
                                },
                                regs0,
                                fin@,
                                test.fin.ram@,
                                effective_umask(test.bytes@, regs0, opts),
                            ),
                        ) {
                            0
                        } else {
                            1
                        }
                    }
                }
            },
            _ => 5,
        },
    }
}

/// An outcome's bucket is the test's.
pub proof fn lemma_test_kind(test: SstTest, opts: RunOpts, o: Outcome)
    requires
        test_outcome(test, opts, o),
    ensures
        outcome_kind(o) == test_kind(test, opts),
{
}

/// The test's hash is on the revocation list.
pub open spec fn hash_revoked(test: SstTest, skip: Option<Seq<Seq<char>>>) -> bool {
    match skip {
        Some(v) => v.contains(hash_text(test.hash)),
        None => false,
    }
}

/// The counts of a file's run.
pub struct Tally {
    pub visited: nat,
    pub executed: nat,
    pub pass: nat,
    pub fail: nat,
    pub decode_err: nat,
    pub panic: nat,
    pub skip_exception: nat,
    pub skip_32bit: nat,
    pub filtered: nat,
    pub revoked: nat,
    /// The indices of the failed, undecodable, panicking and invalid tests.
    pub sampled: Seq<nat>,
}

/// The tally after test `i`.
pub open spec fn tally_step(
    t: Tally,
    i: nat,
    test: SstTest,
    opts: RunOpts,
    stride: nat,
    filter: bool,
    skip: Option<Seq<Seq<char>>>,
) -> Tally {
    if i % stride != 0 {
        t
    } else if hash_revoked(test, skip) {
        Tally { visited: t.visited + 1, revoked: t.revoked + 1, ..t }
    } else if filter && prefix_filtered(test.bytes@) {
        Tally { visited: t.visited + 1, filtered: t.filtered + 1, ..t }
    } else {
        let u = Tally { visited: t.visited + 1, executed: t.executed + 1, ..t };
        let k = test_kind(test, opts);
        if k == 0 {
            Tally { pass: u.pass + 1, ..u }
        } else if k == 1 {
            Tally { fail: u.fail + 1, sampled: u.sampled.push(i), ..u }
        } else if k == 2 || k == 6 {
            Tally { decode_err: u.decode_err + 1, sampled: u.sampled.push(i), ..u }
        } else if k == 3 {
            Tally { panic: u.panic + 1, sampled: u.sampled.push(i), ..u }
        } else if k == 4 {
            Tally { skip_exception: u.skip_exception + 1, ..u }
        } else {
            Tally { skip_32bit: u.skip_32bit + 1, ..u }
        }
    }
}

/// The tally of the first `n` tests.
pub open spec fn tally_upto(
    tests: Seq<SstTest>,
    n: nat,
    opts: RunOpts,
    stride: nat,
    filter: bool,
    skip: Option<Seq<Seq<char>>>,
) -> Tally
    decreases n,
{
    if n == 0 {
        Tally {
            visited: 0,
            executed: 0,
            pass: 0,
            fail: 0,
            decode_err: 0,
            panic: 0,
            skip_exception: 0,
            skip_32bit: 0,
            filtered: 0,
            revoked: 0,
            sampled: Seq::empty(),
        }
    } else {
        tally_step(
            tally_upto(tests, (n - 1) as nat, opts, stride, filter, skip),
            (n - 1) as nat,
            tests[n - 1],
            opts,
            stride,
            filter,
            skip,
        )
    }
}

/// A summary's counts are the tally's, and its samples are the first
/// sampled tests, with their names, hashes and descriptions.
pub open spec fn summary_matches(s: FileSummary, t: Tally, tests: Seq<SstTest>, opts: RunOpts) -> bool {
    &&& s.visited == t.visited
    &&& s.executed == t.executed
    &&& s.pass == t.pass
    &&& s.fail == t.fail
    &&& s.decode_err == t.decode_err
    &&& s.panic == t.panic
    &&& s.skip_exception == t.skip_exception
    &&& s.skip_32bit == t.skip_32bit
    &&& s.filtered == t.filtered
    &&& s.revoked == t.revoked
    &&& s.samples@.len() == if t.sampled.len() < MAX_SAMPLES {
        t.sampled.len()
    } else {
        MAX_SAMPLES as nat
    }
    &&& forall|k: int|
        0 <= k < s.samples@.len() ==> {
            let smp = #[trigger] s.samples@[k];
            &&& smp.idx == t.sampled[k]
            &&& smp.idx < tests.len()
            &&& smp.name@ == tests[smp.idx as int].name@
            &&& smp.hash@ == hash_text(tests[smp.idx as int].hash)
            &&& exists|o: Outcome| test_outcome(tests[smp.idx as int], opts, o) && smp.detail@ == detail_text(o)
        }
}

/// The counts of a file's run add up: every test walked was revoked,
/// filtered or run, every test run fell in exactly one bucket, no more
/// tests were walked than the file holds, and every sample names one of
/// them.
pub proof fn lemma_tally_bounds(
    tests: Seq<SstTest>,
    n: nat,
    opts: RunOpts,
    stride: nat,
    filter: bool,
    skip: Option<Seq<Seq<char>>>,
)
    ensures
        ({
            let t = tally_upto(tests, n, opts, stride, filter, skip);
            &&& t.visited <= n
            &&& t.visited == t.executed + t.filtered + t.revoked
            &&& t.executed == t.pass + t.fail + t.decode_err + t.panic + t.skip_exception + t.skip_32bit
            &&& forall|k: int| 0 <= k < t.sampled.len() ==> t.sampled[k] < n
        }),
    decreases n,
{
    if n > 0 {
        lemma_tally_bounds(tests, (n - 1) as nat, opts, stride, filter, skip);
    }
}

/// Whether the test's hash is on the revocation list.
fn is_revoked(test: &SstTest, skip: Option<&[String]>) -> (r: bool)
    ensures
        r == hash_revoked(*test, skip_view(skip)),
{
    match skip {
        Some(v) => {
            let h = test.hash_string();
            let mut k: usize = 0;
            while k < v.len()
                invariant
                    k <= v@.len(),
                    skip == Some(v),
                    h@ == hash_text(test.hash),
                    forall|j: int| 0 <= j < k ==> v@[j]@ != hash_text(test.hash),
                decreases v@.len() - k,
            {
                if v[k] == h {
                    assert(v@.map_values(|h: String| h@)[k as int] == hash_text(test.hash));
                    return true;
                }
                k = k + 1;
            }
            false
        },
        None => false,
    }
}

/// The revocation list as a value.
pub open spec fn skip_view(skip: Option<&[String]>) -> Option<Seq<Seq<char>>> {
    match skip {
        Some(v) => Some(v@.map_values(|h: String| h@)),
        None => None,
    }
}

/// Runs every `sample_stride`-th test of a file (every test for a stride
/// of zero or one) and buckets the outcomes. Tests whose hash is on
/// `skip_hashes` are counted as revoked, and with `conservative_filter`
/// tests that start with a prefix (but for string instructions) as
/// filtered; neither is run. The first five failures, decode errors,
/// panics and invalid vectors are kept as samples. After each visited
/// test, `on_progress` is told how many tests have been visited so far
/// (twice: those completed and those visited).
pub fn run_file(
    tests: &[SstTest],
    opts: &RunOpts,
    sample_stride: usize,
    conservative_filter: bool,
    skip_hashes: Option<&[String]>,
    on_progress: impl Fn(usize, usize),
) -> (r: FileSummary)
    requires
        forall|completed: usize, visited: usize| call_requires(on_progress, (completed, visited)),
    ensures
        r.total == tests@.len(),
        r.filename@.len() == 0,
        summary_matches(
            r,
            tally_upto(
                tests@,
                tests@.len(),
                *opts,
                if sample_stride > 1 { sample_stride as nat } else { 1 },
                conservative_filter,
                skip_view(skip_hashes),
            ),
            tests@,
            *opts,
        ),
{
    let stride: usize = if sample_stride > 1 {
        sample_stride
    } else {
        1
    };
    let ghost skip = skip_view(skip_hashes);
    let mut summary = FileSummary::default();
    summary.total = tests.len();
    let mut i: usize = 0;
    while i < tests.len()
        invariant
            i <= tests@.len(),
            stride >= 1,
            stride == if sample_stride > 1 { sample_stride as nat } else { 1 },
            skip == skip_view(skip_hashes),
            forall|completed: usize, visited: usize| call_requires(on_progress, (completed, visited)),
            summary.total == tests@.len(),
            summary.filename@.len() == 0,
            summary_matches(
                summary,
                tally_upto(tests@, i as nat, *opts, stride as nat, conservative_filter, skip),
                tests@,
                *opts,
            ),
        decreases tests@.len() - i,
    {
        let ghost t0 = tally_upto(tests@, i as nat, *opts, stride as nat, conservative_filter, skip);
        let ghost t1 = tally_upto(tests@, (i + 1) as nat, *opts, stride as nat, conservative_filter, skip);
        proof {
            lemma_tally_bounds(tests@, i as nat, *opts, stride as nat, conservative_filter, skip);
            assert(t1 == tally_step(t0, i as nat, tests@[i as int], *opts, stride as nat, conservative_filter, skip));
        }
        let test = &tests[i];
        if i % stride == 0 {
            summary.visited = summary.visited + 1;
            if is_revoked(test, skip_hashes) {
                summary.revoked = summary.revoked + 1;
            } else if conservative_filter && is_prefix_filtered(test.bytes.as_slice()) {
                summary.filtered = summary.filtered + 1;
            } else {
                summary.executed = summary.executed + 1;
                let outcome = run_test(test, opts);
                proof {
                    lemma_test_kind(*test, *opts, outcome);
                }
                let sampled = match &outcome {
                    Outcome::Pass => {
                        summary.pass = summary.pass + 1;
                        false
                    },
                    Outcome::Fail { .. } => {
                        summary.fail = summary.fail + 1;
                        true
                    },
                    Outcome::DecodeErr(_) => {
                        summary.decode_err = summary.decode_err + 1;
                        true
                    },
                    Outcome::Panic(_) => {
                        summary.panic = summary.panic + 1;
                        true
                    },
                    Outcome::SkipException { .. } => {
                        summary.skip_exception = summary.skip_exception + 1;
                        false
                    },
                    Outcome::Skip32BitState => {
                        summary.skip_32bit = summary.skip_32bit + 1;
                        false
                    },
                    Outcome::InvalidVector(_) => {
                        summary.decode_err = summary.decode_err + 1;
                        true
                    },
                };
                if sampled && summary.samples.len() < MAX_SAMPLES {
                    let detail = sample_detail(test, &outcome);
                    let name = test.name.clone();
                    let hash = test.hash_string();
                    let ghost old_samples = summary.samples@;
                    summary.samples.push(Sample { idx: i, name, hash, detail });
                    assert(summary.samples@[old_samples.len() as int].detail@ == detail_text(outcome));
                    assert forall|k: int| 0 <= k < summary.samples@.len() implies ({
                        let smp = #[trigger] summary.samples@[k];
                        &&& smp.idx == t1.sampled[k]
                        &&& smp.idx < tests@.len()
                        &&& smp.name@ == tests@[smp.idx as int].name@
                        &&& smp.hash@ == hash_text(tests@[smp.idx as int].hash)
                        &&& exists|o: Outcome|
                            test_outcome(tests@[smp.idx as int], *opts, o) && smp.detail@ == detail_text(o)
                    }) by {
                        if k < old_samples.len() {
                            assert(summary.samples@[k] == old_samples[k]);
                        } else {
                            assert(test_outcome(tests@[i as int], *opts, outcome));
                        }
                    }
                }
            }
            on_progress(summary.visited, summary.visited);
        }
        i = i + 1;
    }
    summary
}

/// Whether an entry of the micro corpus behaves as its kind declares: a
/// `pass` entry runs to a pass, starts with no filtered prefix and expects
/// no exception; a `failrepro` entry does not pass.
pub open spec fn micro_entry_matches(kind: Seq<char>, test: SstTest, outcome: Outcome) -> bool {
    ||| kind == "pass"@ && outcome is Pass && !prefix_filtered(test.bytes@) && test.exception is None
    ||| kind == "failrepro"@ && !(outcome is Pass)
}

/// Checks an entry of the micro corpus against its declared kind (see
/// `micro_entry_matches`), given the outcome of running its test.
pub fn micro_entry_ok(kind: &str, test: &SstTest, outcome: &Outcome) -> (r: bool)
    ensures
        r == micro_entry_matches(kind@, *test, *outcome),
{
    let k = kind.to_string();
    let pass_kind = String::from_str("pass");
    let fail_kind = String::from_str("failrepro");
    let passed = match outcome {
        Outcome::Pass => true,
        _ => false,
    };
    let pass_ok = k == pass_kind && passed && !is_prefix_filtered(test.bytes.as_slice()) && test.exception.is_none();
    let fail_ok = k == fail_kind && !passed;
    pass_ok || fail_ok
}

} // verus!
