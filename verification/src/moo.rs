use vstd::prelude::*;
use vstd::string::StringExecFns;
use vstd::string::StringSliceAdditionalSpecFns;
use crate::runner::{RamEntry, SstTest, TestRegs, TestState};
use crate::text::{dec, from_utf8_lossy, push_dec, push_str, utf8_lossy};
use sha1::Digest;

verus! {

// ---------------------------------------------------------------------------
// The MOO test-file format
//
// A file is a sequence of chunks, each an ASCII tag of four bytes and a
// little-endian 32-bit payload size. It opens with a `MOO ` chunk (format
// version, test count, CPU); each `TEST` chunk holds the chunks of one
// test: its name, its instruction bytes, its initial and final states
// (each made of register and RAM chunks), its SHA-1 hash and the
// exception it raised.
// ---------------------------------------------------------------------------

/// The little-endian word at `p`.
pub open spec fn le16(b: Seq<u8>, p: int) -> int {
    b[p] + 256 * b[p + 1]
}

/// The little-endian double word at `p`.
pub open spec fn le32(b: Seq<u8>, p: int) -> int {
    le16(b, p) + 65536 * le16(b, p + 2)
}

/// The chunk tags of the format.
#[derive(Clone, Copy, Debug, PartialEq, Eq, Structural)]
pub enum ChunkKind {
    FileHeader,
    TestHeader,
    Name,
    Bytes,
    InitialState,
    EffectiveAddress32,
    FinalState,
    Registers16,
    RegisterMask16,
    XRegisters,
    Registers32,
    RegisterMask32,
    Descriptors32,
    Ram,
    QueueState,
    CycleStates,
    Hash,
    FileMetadata,
    GeneratorMetadata,
    Exception,
}

/// The chunk a four-byte tag names, if any.
pub open spec fn chunk_kind(t: (u8, u8, u8, u8)) -> Option<ChunkKind> {
    match t {
        (0x4d, 0x4f, 0x4f, 0x20) => Some(ChunkKind::FileHeader),  // "MOO "
        (0x54, 0x45, 0x53, 0x54) => Some(ChunkKind::TestHeader),  // "TEST"
        (0x4e, 0x41, 0x4d, 0x45) => Some(ChunkKind::Name),  // "NAME"
        (0x42, 0x59, 0x54, 0x53) => Some(ChunkKind::Bytes),  // "BYTS"
        (0x49, 0x4e, 0x49, 0x54) => Some(ChunkKind::InitialState),  // "INIT"
        (0x45, 0x41, 0x33, 0x32) => Some(ChunkKind::EffectiveAddress32),  // "EA32"
        (0x46, 0x49, 0x4e, 0x41) => Some(ChunkKind::FinalState),  // "FINA"
        (0x52, 0x45, 0x47, 0x53) => Some(ChunkKind::Registers16),  // "REGS"
        (0x52, 0x4d, 0x53, 0x4b) => Some(ChunkKind::RegisterMask16),  // "RMSK"
        (0x52, 0x45, 0x47, 0x58) => Some(ChunkKind::XRegisters),  // "REGX"
        (0x52, 0x47, 0x33, 0x32) => Some(ChunkKind::Registers32),  // "RG32"
        (0x52, 0x4d, 0x33, 0x32) => Some(ChunkKind::RegisterMask32),  // "RM32"
        (0x44, 0x43, 0x33, 0x32) => Some(ChunkKind::Descriptors32),  // "DC32"
        (0x52, 0x41, 0x4d, 0x20) => Some(ChunkKind::Ram),  // "RAM "
        (0x51, 0x55, 0x45, 0x55) => Some(ChunkKind::QueueState),  // "QUEU"
        (0x43, 0x59, 0x43, 0x4c) => Some(ChunkKind::CycleStates),  // "CYCL"
        (0x48, 0x41, 0x53, 0x48) => Some(ChunkKind::Hash),  // "HASH"
        (0x4d, 0x45, 0x54, 0x41) => Some(ChunkKind::FileMetadata),  // "META"
        (0x47, 0x4d, 0x45, 0x54) => Some(ChunkKind::GeneratorMetadata),  // "GMET"
        (0x45, 0x58, 0x43, 0x50) => Some(ChunkKind::Exception),  // "EXCP"
        _ => None,
    }
}

/// The chunk whose header starts at `p`.
pub open spec fn kind_at(b: Seq<u8>, p: int) -> Option<ChunkKind> {
    chunk_kind((b[p], b[p + 1], b[p + 2], b[p + 3]))
}

/// Where reading resumes after skipping the payload of the chunk at `p`,
/// at `end` at the latest.
pub open spec fn skipped(b: Seq<u8>, p: int, end: int) -> int {
    if p + 8 + le32(b, p + 4) < end {
        p + 8 + le32(b, p + 4)
    } else {
        end
    }
}

/// The CPU identifiers the format knows: "286 ", "C286", "386E", "88  ",
/// "8088", "8086", "188 ", "186 ", "V20 " and "V30 ".
pub open spec fn known_cpu(c: (u8, u8, u8, u8)) -> bool {
    match c {
        (0x32, 0x38, 0x36, 0x20) | (0x43, 0x32, 0x38, 0x36) | (0x33, 0x38, 0x36, 0x45) | (0x38, 0x38, 0x20, 0x20)
        | (0x38, 0x30, 0x38, 0x38) | (0x38, 0x30, 0x38, 0x36) | (0x31, 0x38, 0x38, 0x20) | (0x31, 0x38, 0x36, 0x20)
        | (0x56, 0x32, 0x30, 0x20) | (0x56, 0x33, 0x30, 0x20) => true,
        _ => false,
    }
}

// The messages of a file that cannot be read.

pub open spec fn msg_eof() -> Seq<char> {
    "unexpected end of MOO data"@
}

pub open spec fn msg_unknown_chunk() -> Seq<char> {
    "unknown MOO chunk type"@
}

pub open spec fn msg_gzip() -> Seq<char> {
    "Input appears to be gzip-compressed; rebuild with the `gzip` feature enabled."@
}

pub open spec fn msg_no_header() -> Seq<char> {
    "Expected FileHeader chunk at the start of the file."@
}

pub open spec fn msg_bad_cpu() -> Seq<char> {
    "Invalid CPU type"@
}

pub open spec fn msg_missing_states(n: nat) -> Seq<char> {
    "Test "@ + dec(n) + " did not have both initial and final states."@
}

pub open spec fn msg_missing_hash() -> Seq<char> {
    "Test is missing required HASH chunk."@
}

pub open spec fn msg_short(n: nat) -> Seq<char> {
    "Remaining data bytes ("@ + dec(n) + ") too short to contain a valid chunk."@
}

pub open spec fn msg_state_too_large() -> Seq<char> {
    "Test state chunk is larger than the remaining stream data."@
}

pub open spec fn msg_state_incomplete() -> Seq<char> {
    "Test state chunk is missing required registers or RAM."@
}

pub open spec fn msg_test_too_small() -> Seq<char> {
    "TEST chunk too small to hold its index"@
}

// The values a file holds.

/// The registers of a state.
pub enum RegsV {
    Sixteen(Seq<Option<u16>>),
    ThirtyTwo,
}

/// A test state: its registers and its RAM.
pub struct StateV {
    pub regs: RegsV,
    pub ram: Seq<RamEntry>,
}

/// A test.
pub struct MooTestV {
    pub name: Seq<char>,
    pub bytes: Seq<u8>,
    pub initial: StateV,
    pub fin: StateV,
    pub exception: Option<u8>,
    pub hash: Option<Seq<u8>>,
}

/// A state no chunk described: no register, no RAM.
pub open spec fn empty_state() -> StateV {
    StateV { regs: RegsV::Sixteen(Seq::new(14, |i: int| None)), ram: Seq::empty() }
}

/// A test no chunk described yet.
pub open spec fn empty_test() -> MooTestV {
    MooTestV {
        name: Seq::empty(),
        bytes: Seq::empty(),
        initial: empty_state(),
        fin: empty_state(),
        exception: None,
        hash: None,
    }
}

/// The registers of a REGS chunk, in the chunk's order (AX BX CX DX CS SS
/// DS ES SP BP SI DI IP FLAGS), from register `i` on, values from `q` on;
/// `m` holds the presence bits of registers `i` and after. `acc` holds the
/// registers before `i`; the result is all 14 and where the chunk ends.
pub open spec fn regs_acc(b: Seq<u8>, q: int, end: int, m: int, i: nat, acc: Seq<Option<u16>>) -> Option<
    (Seq<Option<u16>>, int),
>
    decreases 14 - i,
{
    if i >= 14 {
        Some((acc, q))
    } else if m % 2 == 1 {
        if q + 2 > end {
            None
        } else {
            regs_acc(b, q + 2, end, m / 2, i + 1, acc.push(Some(le16(b, q) as u16)))
        }
    } else {
        regs_acc(b, q, end, m / 2, i + 1, acc.push(None))
    }
}

/// The registers in the library's order (AX BX CX DX SI DI BP SP IP CS DS
/// ES SS FLAGS) from the chunk's order.
pub open spec fn reordered(r: Seq<Option<u16>>) -> Seq<Option<u16>> {
    seq![r[0], r[1], r[2], r[3], r[10], r[11], r[9], r[8], r[12], r[4], r[6], r[7], r[5], r[13]]
}

/// RAM entries of five bytes (address, value) from `q` on, `n` of them
/// left, after those in `acc`; the result is the entries and where they
/// end.
pub open spec fn ram_acc(b: Seq<u8>, q: int, end: int, n: nat, acc: Seq<RamEntry>) -> Option<(Seq<RamEntry>, int)>
    decreases n,
{
    if n == 0 {
        Some((acc, q))
    } else if q + 5 > end {
        None
    } else {
        ram_acc(b, q + 5, end, (n - 1) as nat, acc.push(RamEntry { address: le32(b, q) as u32, value: b[q + 4] }))
    }
}

/// The chunks of a state from `p` on, the state ending at `send` and the
/// test's data at `tend`: registers and RAM are required.
#[verifier::opaque]
pub open spec fn state_acc(b: Seq<u8>, p: int, send: int, tend: int, regs: Option<RegsV>, ram: Option<Seq<RamEntry>>) -> Result<
    (StateV, int),
    Seq<char>,
>
    decreases tend - p,
{
    if p >= send {
        if regs is Some && ram is Some {
            Ok((StateV { regs: regs->Some_0, ram: ram->Some_0 }, p))
        } else {
            Err(msg_state_incomplete())
        }
    } else if p + 8 > tend {
        Err(msg_eof())
    } else {
        match kind_at(b, p) {
            None => Err(msg_unknown_chunk()),
            Some(ChunkKind::Registers16) => if p + 10 > tend {
                Err(msg_eof())
            } else {
                match regs_acc(b, p + 10, tend, le16(b, p + 8), 0, Seq::empty()) {
                    None => Err(msg_eof()),
                    Some((r, q)) => if q <= p || q > tend {
                        Err(msg_eof())
                    } else {
                        state_acc(b, q, send, tend, Some(RegsV::Sixteen(reordered(r))), ram)
                    },
                }
            },
            Some(ChunkKind::Registers32) => state_acc(b, skipped(b, p, tend), send, tend, Some(RegsV::ThirtyTwo), ram),
            Some(ChunkKind::Ram) => if p + 12 > tend {
                Err(msg_eof())
            } else {
                match ram_acc(b, p + 12, tend, le32(b, p + 8) as nat, Seq::empty()) {
                    None => Err(msg_eof()),
                    Some((e, q)) => if q <= p || q > tend {
                        Err(msg_eof())
                    } else {
                        state_acc(b, q, send, tend, regs, Some(e))
                    },
                }
            },
            Some(ChunkKind::QueueState) => if p + 12 > tend || p + 12 + le32(b, p + 8) > tend {
                Err(msg_eof())
            } else {
                state_acc(b, p + 12 + le32(b, p + 8), send, tend, regs, ram)
            },
            Some(_) => state_acc(b, skipped(b, p, tend), send, tend, regs, ram),
        }
    }
}

/// A test being read: the test so far, and whether it had an initial and
/// a final state.
pub struct TestAcc {
    pub test: MooTestV,
    pub has_initial: bool,
    pub has_fin: bool,
}

/// The state chunk at `p` (initial or final) read, with where reading
/// resumes.
pub open spec fn state_at(b: Seq<u8>, p: int, tend: int) -> Result<(StateV, int), Seq<char>> {
    if le32(b, p + 4) > tend - (p + 8) {
        Err(msg_state_too_large())
    } else {
        state_acc(b, p + 8, p + 8 + le32(b, p + 4), tend, None, None)
    }
}

/// The chunks of a test from `p` on, its data ending at `tend`: the hash is
/// required; chunks the runner has no use for are skipped.
#[verifier::opaque]
pub open spec fn test_acc(b: Seq<u8>, p: int, tend: int, acc: TestAcc) -> Result<TestAcc, Seq<char>>
    decreases tend - p,
{
    if p >= tend {
        if acc.test.hash is None {
            Err(msg_missing_hash())
        } else {
            Ok(acc)
        }
    } else if p + 8 > tend {
        Err(msg_short((tend - p) as nat))
    } else {
        match kind_at(b, p) {
            None => Err(msg_unknown_chunk()),
            Some(ChunkKind::Name) | Some(ChunkKind::Bytes) => if p + 12 > tend || p + 12 + le32(b, p + 8) > tend {
                Err(msg_eof())
            } else {
                let data = b.subrange(p + 12, p + 12 + le32(b, p + 8));
                let t = if kind_at(b, p) == Some(ChunkKind::Name) {
                    MooTestV { name: utf8_lossy(data), ..acc.test }
                } else {
                    MooTestV { bytes: data, ..acc.test }
                };
                test_acc(b, p + 12 + le32(b, p + 8), tend, TestAcc { test: t, ..acc })
            },
            Some(ChunkKind::InitialState) => match state_at(b, p, tend) {
                Err(e) => Err(e),
                Ok((s, q)) => if q <= p || q > tend {
                    Err(msg_eof())
                } else {
                    test_acc(b, q, tend, TestAcc { test: MooTestV { initial: s, ..acc.test }, has_initial: true, ..acc })
                },
            },
            Some(ChunkKind::FinalState) => match state_at(b, p, tend) {
                Err(e) => Err(e),
                Ok((s, q)) => if q <= p || q > tend {
                    Err(msg_eof())
                } else {
                    test_acc(b, q, tend, TestAcc { test: MooTestV { fin: s, ..acc.test }, has_fin: true, ..acc })
                },
            },
            Some(ChunkKind::Hash) => if p + 28 > tend {
                Err(msg_eof())
            } else {
                test_acc(b, p + 28, tend, TestAcc { test: MooTestV { hash: Some(b.subrange(p + 8, p + 28)), ..acc.test }, ..acc })
            },
            Some(ChunkKind::Exception) => if p + 13 > tend {
                Err(msg_eof())
            } else {
                test_acc(b, p + 13, tend, TestAcc { test: MooTestV { exception: Some(b[p + 8]), ..acc.test }, ..acc })
            },
            Some(_) => test_acc(b, skipped(b, p, tend), tend, acc),
        }
    }
}

/// The top-level chunks from `p` on, until `count` tests are read: `num`
/// tests read so far (the last complete or not, as `complete` says), into
/// `tests`. Metadata and register masks are skipped; a chunk of a test
/// found at the top level ends the file.
pub open spec fn file_acc(b: Seq<u8>, p: int, count: nat, num: nat, complete: bool, tests: Seq<MooTestV>) -> Result<
    Seq<MooTestV>,
    Seq<char>,
>
    decreases b.len() - p,
{
    if num >= count {
        Ok(tests)
    } else if p + 8 > b.len() {
        Err(msg_eof())
    } else {
        match kind_at(b, p) {
            None => Err(msg_unknown_chunk()),
            Some(ChunkKind::FileHeader) => file_acc(b, p + 8, count, num, complete, tests),
            Some(ChunkKind::FileMetadata) | Some(ChunkKind::RegisterMask16) | Some(ChunkKind::RegisterMask32) =>
                file_acc(b, skipped(b, p, b.len() as int), count, num, complete, tests),
            Some(ChunkKind::TestHeader) => if !complete {
                Err(msg_missing_states(num))
            } else if le32(b, p + 4) < 4 {
                Err(msg_test_too_small())
            } else if p + 8 + le32(b, p + 4) > b.len() {
                Err(msg_eof())
            } else {
                match test_acc(
                    b,
                    p + 12,
                    p + 8 + le32(b, p + 4),
                    TestAcc { test: empty_test(), has_initial: false, has_fin: false },
                ) {
                    Err(e) => Err(e),
                    Ok(t) => file_acc(
                        b,
                        p + 8 + le32(b, p + 4),
                        count,
                        num + 1,
                        t.has_initial && t.has_fin,
                        tests.push(t.test),
                    ),
                }
            },
            Some(_) => Ok(tests),
        }
    }
}

/// The tests of a MOO file, or why it cannot be read: a gzip stream is
/// refused, the file must open with a `MOO ` chunk naming a known CPU, and
/// then as many tests are read as the header counts.
pub open spec fn moo_parse(b: Seq<u8>) -> Result<Seq<MooTestV>, Seq<char>> {
    if b.len() >= 2 && b[0] == 0x1f && b[1] == 0x8b {
        Err(msg_gzip())
    } else if b.len() < 8 {
        Err(msg_eof())
    } else if kind_at(b, 0) is None {
        Err(msg_unknown_chunk())
    } else if kind_at(b, 0) != Some(ChunkKind::FileHeader) {
        Err(msg_no_header())
    } else if b.len() < 20 {
        Err(msg_eof())
    } else if !known_cpu((b[16], b[17], b[18], b[19])) {
        Err(msg_bad_cpu())
    } else {
        file_acc(b, 20, le32(b, 12) as nat, 0, true, Seq::empty())
    }
}

// The library's values as the format's.

pub open spec fn regs_view(r: TestRegs) -> RegsV {
    match r {
        TestRegs::Sixteen(a) => RegsV::Sixteen(a@),
        TestRegs::ThirtyTwo => RegsV::ThirtyTwo,
    }
}

pub open spec fn state_view(s: TestState) -> StateV {
    StateV { regs: regs_view(s.regs), ram: s.ram@ }
}

pub open spec fn test_view(t: SstTest) -> MooTestV {
    MooTestV {
        name: t.name@,
        bytes: t.bytes@,
        initial: state_view(t.initial),
        fin: state_view(t.fin),
        exception: t.exception,
        hash: match t.hash {
            Some(h) => Some(h@),
            None => None,
        },
    }
}

pub open spec fn tests_view(v: Seq<SstTest>) -> Seq<MooTestV> {
    v.map_values(|t: SstTest| test_view(t))
}

// ---------------------------------------------------------------------------
// Reading
// ---------------------------------------------------------------------------

fn rd16(b: &[u8], p: usize) -> (r: u16)
    requires
        p + 2 <= b@.len(),
    ensures
        r == le16(b@, p as int),
{
    b[p] as u16 + (b[p + 1] as u16) * 256
}

fn rd32(b: &[u8], p: usize) -> (r: u32)
    requires
        p + 4 <= b@.len(),
    ensures
        r == le32(b@, p as int),
{
    let _len: usize = b.len();
    let lo: u16 = rd16(b, p);
    let hi: u16 = rd16(b, p + 2);
    lo as u32 + (hi as u32) * 65536
}

fn kind(b: &[u8], p: usize) -> (r: Option<ChunkKind>)
    requires
        p + 4 <= b@.len(),
    ensures
        r == kind_at(b@, p as int),
{
    match (b[p], b[p + 1], b[p + 2], b[p + 3]) {
        (0x4d, 0x4f, 0x4f, 0x20) => Some(ChunkKind::FileHeader),
        (0x54, 0x45, 0x53, 0x54) => Some(ChunkKind::TestHeader),
        (0x4e, 0x41, 0x4d, 0x45) => Some(ChunkKind::Name),
        (0x42, 0x59, 0x54, 0x53) => Some(ChunkKind::Bytes),
        (0x49, 0x4e, 0x49, 0x54) => Some(ChunkKind::InitialState),
        (0x45, 0x41, 0x33, 0x32) => Some(ChunkKind::EffectiveAddress32),
        (0x46, 0x49, 0x4e, 0x41) => Some(ChunkKind::FinalState),
        (0x52, 0x45, 0x47, 0x53) => Some(ChunkKind::Registers16),
        (0x52, 0x4d, 0x53, 0x4b) => Some(ChunkKind::RegisterMask16),
        (0x52, 0x45, 0x47, 0x58) => Some(ChunkKind::XRegisters),
        (0x52, 0x47, 0x33, 0x32) => Some(ChunkKind::Registers32),
        (0x52, 0x4d, 0x33, 0x32) => Some(ChunkKind::RegisterMask32),
        (0x44, 0x43, 0x33, 0x32) => Some(ChunkKind::Descriptors32),
        (0x52, 0x41, 0x4d, 0x20) => Some(ChunkKind::Ram),
        (0x51, 0x55, 0x45, 0x55) => Some(ChunkKind::QueueState),
        (0x43, 0x59, 0x43, 0x4c) => Some(ChunkKind::CycleStates),
        (0x48, 0x41, 0x53, 0x48) => Some(ChunkKind::Hash),
        (0x4d, 0x45, 0x54, 0x41) => Some(ChunkKind::FileMetadata),
        (0x47, 0x4d, 0x45, 0x54) => Some(ChunkKind::GeneratorMetadata),
        (0x45, 0x58, 0x43, 0x50) => Some(ChunkKind::Exception),
        _ => None,
    }
}

fn cpu_known(b: &[u8], p: usize) -> (r: bool)
    requires
        p + 4 <= b@.len(),
    ensures
        r == known_cpu((b@[p as int], b@[p + 1], b@[p + 2], b@[p + 3])),
{
    match (b[p], b[p + 1], b[p + 2], b[p + 3]) {
        (0x32, 0x38, 0x36, 0x20) | (0x43, 0x32, 0x38, 0x36) | (0x33, 0x38, 0x36, 0x45) | (0x38, 0x38, 0x20, 0x20)
        | (0x38, 0x30, 0x38, 0x38) | (0x38, 0x30, 0x38, 0x36) | (0x31, 0x38, 0x38, 0x20) | (0x31, 0x38, 0x36, 0x20)
        | (0x56, 0x32, 0x30, 0x20) | (0x56, 0x33, 0x30, 0x20) => true,
        _ => false,
    }
}

fn skip_chunk(b: &[u8], p: usize, end: usize) -> (r: usize)
    requires
        p + 8 <= end <= b@.len(),
    ensures
        r == skipped(b@, p as int, end as int),
{
    let size: u32 = rd32(b, p + 4);
    if (size as usize) < end - (p + 8) {
        p + 8 + size as usize
    } else {
        end
    }
}

/// The registers of the REGS chunk whose values start at `q0`, in the
/// chunk's order (see `regs_acc`).
fn parse_regs(b: &[u8], q0: usize, end: usize, m0: u16) -> (r: Option<(Vec<Option<u16>>, usize)>)
    requires
        q0 <= end <= b@.len(),
    ensures
        match (r, regs_acc(b@, q0 as int, end as int, m0 as int, 0, Seq::empty())) {
            (None, None) => true,
            (Some((v, q)), Some((s, e))) => v@ == s && q == e,
            _ => false,
        },
{
    let mut acc: Vec<Option<u16>> = Vec::new();
    let mut q: usize = q0;
    let mut m: u16 = m0;
    let mut i: usize = 0;
    while i < 14
        invariant
            i <= 14,
            q <= end <= b@.len(),
            regs_acc(b@, q as int, end as int, m as int, i as nat, acc@) == regs_acc(
                b@,
                q0 as int,
                end as int,
                m0 as int,
                0,
                Seq::empty(),
            ),
        decreases 14 - i,
    {
        if m % 2 == 1 {
            if end - q < 2 {
                return None;
            }
            let v: u16 = rd16(b, q);
            acc.push(Some(v));
            q = q + 2;
        } else {
            acc.push(None);
        }
        m = m / 2;
        i = i + 1;
    }
    Some((acc, q))
}

/// The registers in the library's order (see `reordered`).
fn reorder(v: &Vec<Option<u16>>) -> (r: [Option<u16>; 14])
    requires
        v@.len() == 14,
    ensures
        r@ == reordered(v@),
{
    let a: [Option<u16>; 14] = [v[0], v[1], v[2], v[3], v[10], v[11], v[9], v[8], v[12], v[4], v[6], v[7], v[5], v[13]];
    assert(a@ =~= reordered(v@));
    a
}

/// The `n0` RAM entries from `q0` on (see `ram_acc`).
fn parse_ram(b: &[u8], q0: usize, end: usize, n0: u32) -> (r: Option<(Vec<RamEntry>, usize)>)
    requires
        q0 <= end <= b@.len(),
    ensures
        match (r, ram_acc(b@, q0 as int, end as int, n0 as nat, Seq::empty())) {
            (None, None) => true,
            (Some((v, q)), Some((s, e))) => v@ == s && q == e,
            _ => false,
        },
{
    let mut acc: Vec<RamEntry> = Vec::new();
    let mut q: usize = q0;
    let mut n: u32 = n0;
    while n > 0
        invariant
            q <= end <= b@.len(),
            ram_acc(b@, q as int, end as int, n as nat, acc@) == ram_acc(b@, q0 as int, end as int, n0 as nat, Seq::empty()),
        decreases n,
    {
        if end - q < 5 {
            return None;
        }
        let address: u32 = rd32(b, q);
        acc.push(RamEntry { address, value: b[q + 4] });
        q = q + 5;
        n = n - 1;
    }
    Some((acc, q))
}

/// A state's registers, if read, as the format's.
pub open spec fn opt_regs_view(r: Option<TestRegs>) -> Option<RegsV> {
    match r {
        Some(x) => Some(regs_view(x)),
        None => None,
    }
}

/// A state's RAM, if read.
pub open spec fn opt_ram_view(r: Option<Vec<RamEntry>>) -> Option<Seq<RamEntry>> {
    match r {
        Some(x) => Some(x@),
        None => None,
    }
}

/// A state read, with where reading resumes, as the format's.
pub open spec fn state_result_view(r: Result<(TestState, usize), String>) -> Result<(StateV, int), Seq<char>> {
    match r {
        Ok((s, q)) => Ok((state_view(s), q as int)),
        Err(e) => Err(e@),
    }
}

/// The chunks of a state from `p0` until `send` (see `state_acc`).
fn parse_state(b: &[u8], p0: usize, send: usize, tend: usize) -> (r: Result<(TestState, usize), String>)
    requires
        p0 <= send <= tend <= b@.len(),
    ensures
        state_result_view(r) == state_acc(b@, p0 as int, send as int, tend as int, None, None),
{
    reveal(state_acc);
    let mut p: usize = p0;
    let mut regs: Option<TestRegs> = None;
    let mut ram: Option<Vec<RamEntry>> = None;
    loop
        invariant
            p <= tend <= b@.len(),
            send <= tend,
            state_acc(b@, p as int, send as int, tend as int, opt_regs_view(regs), opt_ram_view(ram)) == state_acc(
                b@,
                p0 as int,
                send as int,
                tend as int,
                None,
                None,
            ),
        decreases tend - p,
    {
        proof {
            reveal(state_acc);
        }
        if p >= send {
            match (regs, ram) {
                (Some(r), Some(m)) => {
                    return Ok((TestState { regs: r, ram: m }, p));
                },
                _ => {
                    return Err(String::from_str("Test state chunk is missing required registers or RAM."));
                },
            }
        }
        if tend - p < 8 {
            return Err(String::from_str("unexpected end of MOO data"));
        }
        match kind(b, p) {
            None => {
                return Err(String::from_str("unknown MOO chunk type"));
            },
            Some(ChunkKind::Registers16) => {
                if tend - p < 10 {
                    return Err(String::from_str("unexpected end of MOO data"));
                }
                let mask: u16 = rd16(b, p + 8);
                match parse_regs(b, p + 10, tend, mask) {
                    None => {
                        return Err(String::from_str("unexpected end of MOO data"));
                    },
                    Some((v, q)) => {
                        if q <= p || q > tend {
                            return Err(String::from_str("unexpected end of MOO data"));
                        }
                        assert(v@.len() == 14) by {
                            lemma_regs_len(b@, (p + 10) as int, tend as int, mask as int, 0, Seq::empty());
                        }
                        let a = reorder(&v);
                        regs = Some(TestRegs::Sixteen(a));
                        p = q;
                    },
                }
            },
            Some(ChunkKind::Registers32) => {
                regs = Some(TestRegs::ThirtyTwo);
                p = skip_chunk(b, p, tend);
            },
            Some(ChunkKind::Ram) => {
                if tend - p < 12 {
                    return Err(String::from_str("unexpected end of MOO data"));
                }
                let n: u32 = rd32(b, p + 8);
                match parse_ram(b, p + 12, tend, n) {
                    None => {
                        return Err(String::from_str("unexpected end of MOO data"));
                    },
                    Some((v, q)) => {
                        if q <= p || q > tend {
                            return Err(String::from_str("unexpected end of MOO data"));
                        }
                        ram = Some(v);
                        p = q;
                    },
                }
            },
            Some(ChunkKind::QueueState) => {
                if tend - p < 12 {
                    return Err(String::from_str("unexpected end of MOO data"));
                }
                let n: u32 = rd32(b, p + 8);
                if n as usize > tend - (p + 12) {
                    return Err(String::from_str("unexpected end of MOO data"));
                }
                p = p + 12 + n as usize;
            },
            Some(_) => {
                p = skip_chunk(b, p, tend);
            },
        }
    }
}

/// `regs_acc` gives all 14 registers.
proof fn lemma_regs_len(b: Seq<u8>, q: int, end: int, m: int, i: nat, acc: Seq<Option<u16>>)
    requires
        i <= 14,
        acc.len() == i,
    ensures
        regs_acc(b, q, end, m, i, acc) matches Some((r, e)) ==> r.len() == 14,
    decreases 14 - i,
{
    if i < 14 {
        if m % 2 == 1 {
            if q + 2 <= end {
                lemma_regs_len(b, q + 2, end, m / 2, i + 1, acc.push(Some(le16(b, q) as u16)));
            }
        } else {
            lemma_regs_len(b, q, end, m / 2, i + 1, acc.push(None));
        }
    }
}

/// A test read so far, as the format's.
pub open spec fn acc_view(
    name: String,
    bytes: Vec<u8>,
    initial: TestState,
    fin: TestState,
    exception: Option<u8>,
    hash: Option<[u8; 20]>,
    has_initial: bool,
    has_fin: bool,
) -> TestAcc {
    TestAcc {
        test: test_view(SstTest { name, bytes, initial, fin, exception, hash }),
        has_initial,
        has_fin,
    }
}

/// A test read, with whether it had both states, as the format's.
pub open spec fn test_result_view(r: Result<(SstTest, bool, bool), String>) -> Result<TestAcc, Seq<char>> {
    match r {
        Ok((t, i, f)) => Ok(TestAcc { test: test_view(t), has_initial: i, has_fin: f }),
        Err(e) => Err(e@),
    }
}

/// A state no chunk described.
fn empty_test_state() -> (r: TestState)
    ensures
        state_view(r) == empty_state(),
{
    let a: [Option<u16>; 14] = [None, None, None, None, None, None, None, None, None, None, None, None, None, None];
    assert(a@ =~= Seq::new(14, |i: int| None::<u16>));
    let ram: Vec<RamEntry> = Vec::new();
    assert(ram@ =~= Seq::<RamEntry>::empty());
    TestState { regs: TestRegs::Sixteen(a), ram }
}

/// The 20 bytes of a hash from `p` on.
fn hash_at(b: &[u8], p: usize) -> (r: [u8; 20])
    requires
        p + 20 <= b@.len(),
    ensures
        r@ == b@.subrange(p as int, p + 20),
{
    let h: [u8; 20] = [
        b[p], b[p + 1], b[p + 2], b[p + 3], b[p + 4], b[p + 5], b[p + 6], b[p + 7], b[p + 8], b[p + 9],
        b[p + 10], b[p + 11], b[p + 12], b[p + 13], b[p + 14], b[p + 15], b[p + 16], b[p + 17], b[p + 18], b[p + 19],
    ];
    assert(h@ =~= b@.subrange(p as int, p + 20));
    h
}

/// The chunks of the test whose data runs from `p0` to `tend` (see
/// `test_acc`).
fn parse_test(b: &[u8], p0: usize, tend: usize) -> (r: Result<(SstTest, bool, bool), String>)
    requires
        p0 <= tend <= b@.len(),
    ensures
        test_result_view(r) == test_acc(
            b@,
            p0 as int,
            tend as int,
            TestAcc { test: empty_test(), has_initial: false, has_fin: false },
        ),
{
    reveal(test_acc);
    let mut p: usize = p0;
    let mut name: String = String::new();
    let mut bytes: Vec<u8> = Vec::new();
    let mut initial: TestState = empty_test_state();
    let mut fin: TestState = empty_test_state();
    let mut exception: Option<u8> = None;
    let mut hash: Option<[u8; 20]> = None;
    let mut has_initial: bool = false;
    let mut has_fin: bool = false;
    assert(acc_view(name, bytes, initial, fin, exception, hash, has_initial, has_fin) == TestAcc {
        test: empty_test(),
        has_initial: false,
        has_fin: false,
    });
    loop
        invariant
            p <= tend <= b@.len(),
            test_acc(b@, p as int, tend as int, acc_view(name, bytes, initial, fin, exception, hash, has_initial, has_fin))
                == test_acc(b@, p0 as int, tend as int, TestAcc { test: empty_test(), has_initial: false, has_fin: false }),
        decreases tend - p,
    {
        proof {
            reveal(test_acc);
        }
        let ghost acc = acc_view(name, bytes, initial, fin, exception, hash, has_initial, has_fin);
        if p >= tend {
            if hash.is_none() {
                return Err(String::from_str("Test is missing required HASH chunk."));
            }
            return Ok((SstTest { name, bytes, initial, fin, exception, hash }, has_initial, has_fin));
        }
        if tend - p < 8 {
            let mut m = String::from_str("Remaining data bytes (");
            push_dec(&mut m, (tend - p) as u64);
            push_str(&mut m, ") too short to contain a valid chunk.");
            return Err(m);
        }
        match kind(b, p) {
            None => {
                return Err(String::from_str("unknown MOO chunk type"));
            },
            Some(ChunkKind::Name) => {
                if tend - p < 12 {
                    return Err(String::from_str("unexpected end of MOO data"));
                }
                let n: u32 = rd32(b, p + 8);
                if n as usize > tend - (p + 12) {
                    return Err(String::from_str("unexpected end of MOO data"));
                }
                let data = vstd::slice::slice_subrange(b, p + 12, p + 12 + n as usize);
                name = from_utf8_lossy(data);
                p = p + 12 + n as usize;
            },
            Some(ChunkKind::Bytes) => {
                if tend - p < 12 {
                    return Err(String::from_str("unexpected end of MOO data"));
                }
                let n: u32 = rd32(b, p + 8);
                if n as usize > tend - (p + 12) {
                    return Err(String::from_str("unexpected end of MOO data"));
                }
                let data = vstd::slice::slice_subrange(b, p + 12, p + 12 + n as usize);
                bytes = vstd::slice::slice_to_vec(data);
                p = p + 12 + n as usize;
            },
            Some(ChunkKind::InitialState) | Some(ChunkKind::FinalState) => {
                let is_initial: bool = match kind(b, p) {
                    Some(ChunkKind::InitialState) => true,
                    _ => false,
                };
                let size: u32 = rd32(b, p + 4);
                if size as usize > tend - (p + 8) {
                    return Err(String::from_str("Test state chunk is larger than the remaining stream data."));
                }
                match parse_state(b, p + 8, p + 8 + size as usize, tend) {
                    Err(e) => {
                        return Err(e);
                    },
                    Ok((st, q)) => {
                        if q <= p || q > tend {
                            return Err(String::from_str("unexpected end of MOO data"));
                        }
                        if is_initial {
                            initial = st;
                            has_initial = true;
                        } else {
                            fin = st;
                            has_fin = true;
                        }
                        p = q;
                    },
                }
            },
            Some(ChunkKind::Hash) => {
                if tend - p < 28 {
                    return Err(String::from_str("unexpected end of MOO data"));
                }
                hash = Some(hash_at(b, p + 8));
                p = p + 28;
            },
            Some(ChunkKind::Exception) => {
                if tend - p < 13 {
                    return Err(String::from_str("unexpected end of MOO data"));
                }
                exception = Some(b[p + 8]);
                p = p + 13;
            },
            Some(_) => {
                p = skip_chunk(b, p, tend);
            },
        }
    }
}

/// The tests of a file read, as the format's.
pub open spec fn moo_result_view(r: Result<Vec<SstTest>, String>) -> Result<Seq<MooTestV>, Seq<char>> {
    match r {
        Ok(v) => Ok(tests_view(v@)),
        Err(e) => Err(e@),
    }
}

/// Reads the tests of a MOO file (see `moo_parse`): the file is read
/// exactly as `moo_parse` describes, or refused with its message.
#[verifier::rlimit(50)]
pub fn parse_moo(bytes: &[u8]) -> (r: Result<Vec<SstTest>, String>)
    ensures
        moo_result_view(r) == moo_parse(bytes@),
{
    let b = bytes;
    let len: usize = b.len();
    if len >= 2 && b[0] == 0x1f && b[1] == 0x8b {
        return Err(String::from_str("Input appears to be gzip-compressed; rebuild with the `gzip` feature enabled."));
    }
    if len < 8 {
        return Err(String::from_str("unexpected end of MOO data"));
    }
    match kind(b, 0) {
        None => {
            return Err(String::from_str("unknown MOO chunk type"));
        },
        Some(ChunkKind::FileHeader) => {},
        Some(_) => {
            return Err(String::from_str("Expected FileHeader chunk at the start of the file."));
        },
    }
    if len < 20 {
        return Err(String::from_str("unexpected end of MOO data"));
    }
    if !cpu_known(b, 16) {
        return Err(String::from_str("Invalid CPU type"));
    }
    let count: u32 = rd32(b, 12);
    let mut p: usize = 20;
    let mut num: u32 = 0;
    let mut complete: bool = true;
    let mut tests: Vec<SstTest> = Vec::new();
    assert(tests_view(tests@) =~= Seq::<MooTestV>::empty());
    assert(moo_parse(b@) == file_acc(b@, 20, count as nat, 0, true, Seq::empty()));
    loop
        invariant
            b@ == bytes@,
            p <= b@.len(),
            len == b@.len(),
            moo_parse(b@) == file_acc(b@, 20, count as nat, 0, true, Seq::empty()),
            num <= count,
            file_acc(b@, p as int, count as nat, num as nat, complete, tests_view(tests@)) == file_acc(
                b@,
                20,
                count as nat,
                0,
                true,
                Seq::empty(),
            ),
        decreases b@.len() - p,
    {
        let ghost here = file_acc(b@, p as int, count as nat, num as nat, complete, tests_view(tests@));
        if num >= count {
            assert(here == Ok::<Seq<MooTestV>, Seq<char>>(tests_view(tests@)));
            return Ok(tests);
        }
        if len - p < 8 {
            assert(here == Err::<Seq<MooTestV>, Seq<char>>(msg_eof()));
            return Err(String::from_str("unexpected end of MOO data"));
        }
        match kind(b, p) {
            None => {
                return Err(String::from_str("unknown MOO chunk type"));
            },
            Some(ChunkKind::FileHeader) => {
                p = p + 8;
            },
            Some(ChunkKind::FileMetadata) | Some(ChunkKind::RegisterMask16) | Some(ChunkKind::RegisterMask32) => {
                p = skip_chunk(b, p, len);
            },
            Some(ChunkKind::TestHeader) => {
                if !complete {
                    let mut m = String::from_str("Test ");
                    push_dec(&mut m, num as u64);
                    push_str(&mut m, " did not have both initial and final states.");
                    return Err(m);
                }
                let size: u32 = rd32(b, p + 4);
                if size < 4 {
                    return Err(String::from_str("TEST chunk too small to hold its index"));
                }
                if size as usize > len - (p + 8) {
                    return Err(String::from_str("unexpected end of MOO data"));
                }
                let tend: usize = p + 8 + size as usize;
                match parse_test(b, p + 12, tend) {
                    Err(e) => {
                        return Err(e);
                    },
                    Ok((t, has_initial, has_fin)) => {
                        let ghost before = tests@;
                        tests.push(t);
                        assert(tests_view(tests@) =~= tests_view(before).push(test_view(t)));
                        complete = has_initial && has_fin;
                        num = num + 1;
                        p = tend;
                    },
                }
            },
            Some(_) => {
                return Ok(tests);
            },
        }
    }
}

// ---------------------------------------------------------------------------
// Writing
// ---------------------------------------------------------------------------

/// What SHA-1 gives for some bytes.
pub uninterp spec fn sha1_of(data: Seq<u8>) -> Seq<u8>;

/// `sha1::Sha1::digest`. Claimed: the result is the SHA-1 digest of `data`,
/// a function of `data` alone, of 20 bytes.
#[verifier::external_body]
fn sha1_digest(data: &[u8]) -> (r: [u8; 20])
    ensures
        r@ == sha1_of(data@),
{
    sha1::Sha1::digest(data).into()
}

/// A double word, little-endian.
pub open spec fn u32_bytes(v: nat) -> Seq<u8> {
    seq![(v % 256) as u8, ((v / 256) % 256) as u8, ((v / 65536) % 256) as u8, ((v / 16777216) % 256) as u8]
}

/// A word, little-endian.
pub open spec fn u16_bytes(v: u16) -> Seq<u8> {
    seq![(v % 256) as u8, (v / 256) as u8]
}

/// A chunk: its tag, its payload's size and its payload.
pub open spec fn chunk_bytes(tag: Seq<u8>, payload: Seq<u8>) -> Seq<u8> {
    tag + u32_bytes(payload.len()) + payload
}

pub open spec fn tag_moo() -> Seq<u8> { seq![0x4du8, 0x4f, 0x4f, 0x20] }
pub open spec fn tag_test() -> Seq<u8> { seq![0x54u8, 0x45, 0x53, 0x54] }
pub open spec fn tag_name() -> Seq<u8> { seq![0x4eu8, 0x41, 0x4d, 0x45] }
pub open spec fn tag_bytes() -> Seq<u8> { seq![0x42u8, 0x59, 0x54, 0x53] }
pub open spec fn tag_init() -> Seq<u8> { seq![0x49u8, 0x4e, 0x49, 0x54] }
pub open spec fn tag_fina() -> Seq<u8> { seq![0x46u8, 0x49, 0x4e, 0x41] }
pub open spec fn tag_regs() -> Seq<u8> { seq![0x52u8, 0x45, 0x47, 0x53] }
pub open spec fn tag_ram() -> Seq<u8> { seq![0x52u8, 0x41, 0x4d, 0x20] }
pub open spec fn tag_cycl() -> Seq<u8> { seq![0x43u8, 0x59, 0x43, 0x4c] }
pub open spec fn tag_hash() -> Seq<u8> { seq![0x48u8, 0x41, 0x53, 0x48] }
pub open spec fn tag_excp() -> Seq<u8> { seq![0x45u8, 0x58, 0x43, 0x50] }

/// The registers in the chunk's order from the library's (the inverse of
/// `reordered`).
pub open spec fn chunk_order(a: Seq<Option<u16>>) -> Seq<Option<u16>> {
    seq![a[0], a[1], a[2], a[3], a[9], a[12], a[10], a[11], a[7], a[6], a[4], a[5], a[8], a[13]]
}

/// The presence mask of registers `i` and after of `m` (chunk order),
/// shifted down by `i`: bit `k` is set when register `i + k` is listed.
pub open spec fn mask_from(m: Seq<Option<u16>>, i: nat) -> int
    decreases 14 - i,
{
    if i >= 14 {
        0
    } else {
        (if m[i as int] is Some { 1int } else { 0int }) + 2 * mask_from(m, i + 1)
    }
}

/// The values of the registers `i` and after that `m` (chunk order) lists.
pub open spec fn vals_from(m: Seq<Option<u16>>, i: nat) -> Seq<u8>
    decreases 14 - i,
{
    if i >= 14 {
        Seq::empty()
    } else {
        match m[i as int] {
            Some(v) => u16_bytes(v) + vals_from(m, i + 1),
            None => vals_from(m, i + 1),
        }
    }
}

/// The REGS chunk of a register file (library order): the presence mask,
/// then the listed values, in the chunk's order.
pub open spec fn regs_chunk(a: Seq<Option<u16>>) -> Seq<u8> {
    chunk_bytes(tag_regs(), u16_bytes(mask_from(chunk_order(a), 0) as u16) + vals_from(chunk_order(a), 0))
}

/// The entries of a RAM chunk.
pub open spec fn ram_entries(ram: Seq<RamEntry>) -> Seq<u8>
    decreases ram.len(),
{
    if ram.len() == 0 {
        Seq::empty()
    } else {
        ram_entries(ram.drop_last()) + u32_bytes(ram.last().address as nat) + seq![ram.last().value]
    }
}

/// The chunk of a 16-bit state: its registers, then its RAM.
pub open spec fn state_chunk(tag: Seq<u8>, regs: Seq<Option<u16>>, ram: Seq<RamEntry>) -> Seq<u8> {
    chunk_bytes(tag, regs_chunk(regs) + chunk_bytes(tag_ram(), u32_bytes(ram.len()) + ram_entries(ram)))
}

/// A 16-bit state's registers.
pub open spec fn regs16(s: TestState) -> Seq<Option<u16>> {
    match s.regs {
        TestRegs::Sixteen(a) => a@,
        TestRegs::ThirtyTwo => Seq::empty(),
    }
}

/// The chunks of a test up to its hash: its index, name, bytes, states, no
/// cycle states, and its exception (with no flag address).
pub open spec fn test_body(index: nat, t: SstTest) -> Seq<u8> {
    test_head(index, t) + test_tail(t)
}

/// The TEST chunk of a test: its body, then its hash, or the SHA-1 of its
/// body when it has none.
pub open spec fn test_chunk(index: nat, t: SstTest) -> Seq<u8> {
    chunk_bytes(tag_test(), test_body(index, t) + chunk_bytes(tag_hash(), written_hash(index, t)))
}

/// The hash written for a test: its own, or the SHA-1 of its body.
pub open spec fn written_hash(index: nat, t: SstTest) -> Seq<u8> {
    match t.hash {
        Some(h) => h@,
        None => sha1_of(test_body(index, t)),
    }
}

/// The TEST chunks of the first `n` tests.
pub open spec fn tests_chunks(tests: Seq<SstTest>, n: nat) -> Seq<u8>
    decreases n,
{
    if n == 0 {
        Seq::empty()
    } else {
        tests_chunks(tests, (n - 1) as nat) + test_chunk((n - 1) as nat, tests[n - 1])
    }
}

/// A MOO file of `tests`: a version 1.1 header for the 80286, then the
/// tests in order.
pub open spec fn moo_bytes(tests: Seq<SstTest>) -> Seq<u8> {
    chunk_bytes(tag_moo(), seq![1u8, 1, 0, 0] + u32_bytes(tests.len()) + seq![0x32u8, 0x38, 0x36, 0x20]) + tests_chunks(
        tests,
        tests.len(),
    )
}

/// A test the writer can write: 16-bit states, and every chunk within the
/// sizes the format counts.
pub open spec fn writable(t: SstTest) -> bool {
    &&& t.initial.regs is Sixteen
    &&& t.fin.regs is Sixteen
    &&& vstd::utf8::encode_utf8(t.name@).len() + t.bytes@.len() + 5 * (t.initial.ram@.len() + t.fin.ram@.len())
        + 1024 <= u32::MAX
}

fn put_u32(v: &mut Vec<u8>, x: u32)
    ensures
        final(v)@ == old(v)@ + u32_bytes(x as nat),
{
    v.push((x % 256) as u8);
    v.push(((x / 256) % 256) as u8);
    v.push(((x / 65536) % 256) as u8);
    v.push(((x / 16777216) % 256) as u8);
}

fn put_all(v: &mut Vec<u8>, s: &[u8])
    ensures
        final(v)@ == old(v)@ + s@,
{
    let mut i: usize = 0;
    while i < s.len()
        invariant
            i <= s@.len(),
            v@ == old(v)@ + s@.subrange(0, i as int),
        decreases s@.len() - i,
    {
        v.push(s[i]);
        i = i + 1;
        assert(v@ =~= old(v)@ + s@.subrange(0, i as int));
    }
    assert(s@.subrange(0, s@.len() as int) =~= s@);
}

/// Appends a chunk with the given tag and payload.
fn put_chunk(v: &mut Vec<u8>, tag: &[u8], payload: &Vec<u8>)
    requires
        payload@.len() <= u32::MAX,
    ensures
        final(v)@ == old(v)@ + chunk_bytes(tag@, payload@),
{
    put_all(v, tag);
    put_u32(v, payload.len() as u32);
    put_all(v, payload.as_slice());
    assert(v@ =~= old(v)@ + chunk_bytes(tag@, payload@));
}

/// Registers `i` and after give a mask below `2^(14 - i)`.
proof fn lemma_mask_small_pow(m: Seq<Option<u16>>, i: nat)
    requires
        i <= 14,
    ensures
        0 <= mask_from(m, i) < pow2_from(i),
    decreases 14 - i,
{
    if i < 14 {
        lemma_mask_small_pow(m, i + 1);
    }
}

/// `2^(14 - i)`.
pub open spec fn pow2_from(i: nat) -> int {
    if i >= 14 { 1 } else if i == 13 { 2 } else if i == 12 { 4 } else if i == 11 { 8 } else if i == 10 { 16 }
    else if i == 9 { 32 } else if i == 8 { 64 } else if i == 7 { 128 } else if i == 6 { 256 }
    else if i == 5 { 512 } else if i == 4 { 1024 } else if i == 3 { 2048 } else if i == 2 { 4096 }
    else if i == 1 { 8192 } else { 16384 }
}

/// Reading a REGS chunk's values back: from `q`, where the values of
/// registers `i` and after start, the reader finds registers `i` and after
/// of `m` (chunk order), and ends where the values end.
proof fn lemma_read_regs(b: Seq<u8>, q: int, end: int, m: Seq<Option<u16>>, i: nat, acc: Seq<Option<u16>>)
    requires
        m.len() == 14,
        i <= 14,
        0 <= q,
        q + vals_from(m, i).len() <= end <= b.len(),
        b.subrange(q, q + vals_from(m, i).len()) == vals_from(m, i),
    ensures
        regs_acc(b, q, end, mask_from(m, i), i, acc) == Some(
            (acc + m.subrange(i as int, 14), q + vals_from(m, i).len()),
        ),
    decreases 14 - i,
{
    if i < 14 {
        lemma_mask_small_pow(m, i + 1);
        let y = mask_from(m, i + 1);
        let x = mask_from(m, i);
        let bit: int = if m[i as int] is Some { 1 } else { 0 };
        assert(x == bit + 2 * y);
        assert(x % 2 == bit && x / 2 == y) by (nonlinear_arith)
            requires
                x == bit + 2 * y,
                0 <= y,
                bit == 0 || bit == 1,
        ;
        let vals = vals_from(m, i);
        match m[i as int] {
            Some(v) => {
                let rest = vals_from(m, i + 1);
                assert(vals == u16_bytes(v) + rest);
                assert(b[q] == b.subrange(q, q + vals.len())[0]);
                assert(b[q + 1] == b.subrange(q, q + vals.len())[1]);
                assert(le16(b, q) == v as int);
                assert(b.subrange(q + 2, q + 2 + rest.len()) =~= rest) by {
                    assert forall|k: int| 0 <= k < rest.len() implies b.subrange(q + 2, q + 2 + rest.len())[k]
                        == rest[k] by {
                        assert(b.subrange(q, q + vals.len())[k + 2] == rest[k]);
                    }
                }
                lemma_read_regs(b, q + 2, end, m, i + 1, acc.push(Some(v)));
                assert(acc.push(Some(v)) + m.subrange((i + 1) as int, 14) =~= acc + m.subrange(i as int, 14));
            },
            None => {
                lemma_read_regs(b, q, end, m, i + 1, acc.push(None));
                assert(acc.push(None) + m.subrange((i + 1) as int, 14) =~= acc + m.subrange(i as int, 14));
            },
        }
    } else {
        assert(acc + m.subrange(14, 14) =~= acc);
    }
}

/// What a read gives back of a write, for registers: the REGS chunk the
/// writer makes of a register file is one the reader takes as such, and
/// reading its registers gives the file back, ending at the chunk's end.
pub proof fn lemma_regs_chunk_roundtrip(a: Seq<Option<u16>>)
    requires
        a.len() == 14,
    ensures
        regs_chunk(a).len() >= 10,
        kind_at(regs_chunk(a), 0) == Some(ChunkKind::Registers16),
        regs_acc(regs_chunk(a), 10, regs_chunk(a).len() as int, le16(regs_chunk(a), 8), 0, Seq::empty()) matches Some(
            (r, e),
        ) && e == regs_chunk(a).len() && reordered(r) == a,
{
    let m = chunk_order(a);
    let b = regs_chunk(a);
    lemma_mask_small_pow(m, 0);
    let mask = mask_from(m, 0);
    let vals = vals_from(m, 0);
    let payload = u16_bytes(mask as u16) + vals;
    assert(b == tag_regs() + u32_bytes(payload.len()) + payload);
    assert(b.len() == 10 + vals.len());
    assert(b[0] == 0x52 && b[1] == 0x45 && b[2] == 0x47 && b[3] == 0x53);
    assert(b[8] == payload[0] && b[9] == payload[1]);
    assert(le16(b, 8) == mask);
    assert(b.subrange(10, b.len() as int) =~= vals) by {
        assert forall|k: int| 0 <= k < vals.len() implies b.subrange(10, b.len() as int)[k] == vals[k] by {
            assert(b[10 + k] == payload[2 + k]);
        }
    }
    lemma_read_regs(b, 10, b.len() as int, m, 0, Seq::empty());
    assert(Seq::<Option<u16>>::empty() + m.subrange(0, 14) =~= m);
    assert(reordered(m) =~= a);
}

/// The bytes of one RAM entry.
pub open spec fn entry_bytes(e: RamEntry) -> Seq<u8> {
    u32_bytes(e.address as nat) + seq![e.value]
}

/// A double word reads back from its bytes.
proof fn lemma_le32_roundtrip(x: u32)
    ensures
        le32(u32_bytes(x as nat), 0) == x,
{
    let b = u32_bytes(x as nat);
    assert(x % 256 + 256 * ((x / 256) % 256) + 65536 * (((x / 65536) % 256) + 256 * ((x / 16777216) % 256)) == x)
        by (bit_vector);
}

/// The bytes of RAM entry `k` lie at `5 * k` in the entries' bytes.
proof fn lemma_ram_entries_index(ram: Seq<RamEntry>, k: int, j: int)
    requires
        0 <= k < ram.len(),
        0 <= j < 5,
    ensures
        ram_entries(ram).len() == 5 * ram.len(),
        ram_entries(ram)[5 * k + j] == entry_bytes(ram[k])[j],
    decreases ram.len(),
{
    lemma_ram_entries_len(ram);
    let n = ram.len() as int;
    assert(ram_entries(ram) == ram_entries(ram.drop_last()) + entry_bytes(ram.last()));
    lemma_ram_entries_len(ram.drop_last());
    if k < n - 1 {
        lemma_ram_entries_index(ram.drop_last(), k, j);
    }
}

proof fn lemma_ram_entries_len(ram: Seq<RamEntry>)
    ensures
        ram_entries(ram).len() == 5 * ram.len(),
    decreases ram.len(),
{
    if ram.len() > 0 {
        lemma_ram_entries_len(ram.drop_last());
    }
}

/// Reading RAM entries back: from entry `k` on, the reader finds the rest
/// of `ram` and ends where the entries end.
proof fn lemma_read_ram(b: Seq<u8>, q0: int, end: int, ram: Seq<RamEntry>, k: nat)
    requires
        0 <= q0,
        k <= ram.len(),
        q0 + 5 * ram.len() <= end <= b.len(),
        b.subrange(q0, q0 + 5 * ram.len()) == ram_entries(ram),
    ensures
        ram_acc(b, q0 + 5 * k, end, (ram.len() - k) as nat, ram.subrange(0, k as int)) == Some(
            (ram, q0 + 5 * ram.len()),
        ),
    decreases ram.len() - k,
{
    lemma_ram_entries_len(ram);
    if k < ram.len() {
        let q = q0 + 5 * k;
        let e = ram[k as int];
        assert forall|j: int| 0 <= j < 5 implies b[q + j] == entry_bytes(e)[j] by {
            lemma_ram_entries_index(ram, k as int, j);
            assert(b[q + j] == b.subrange(q0, q0 + 5 * ram.len())[5 * k + j]);
        }
        let ub = u32_bytes(e.address as nat);
        assert(entry_bytes(e) == ub + seq![e.value]);
        assert forall|j: int| 0 <= j < 4 implies #[trigger] b.subrange(q, q + 4)[j] == ub[j] by {
            assert(b[q + j] == entry_bytes(e)[j]);
            assert(entry_bytes(e)[j] == ub[j]);
        }
        assert(b.subrange(q, q + 4) =~= ub);
        assert(b[q + 4] == entry_bytes(e)[4]);
        assert(b[q + 4] == e.value);
        lemma_le32_roundtrip(e.address);
        assert(le32(b, q) == le32(b.subrange(q, q + 4), 0));
        assert(ram.subrange(0, k as int).push(RamEntry { address: le32(b, q) as u32, value: b[q + 4] }) =~= ram.subrange(
            0,
            (k + 1) as int,
        ));
        lemma_read_ram(b, q0, end, ram, k + 1);
        assert(q0 + 5 * (k + 1) == q + 5);
    } else {
        assert(ram.subrange(0, k as int) =~= ram);
    }
}

/// Where the RAM chunk of a state chunk starts, from the chunk's start.
pub open spec fn ram_offset(regs: Seq<Option<u16>>) -> int {
    18 + vals_from(chunk_order(regs), 0).len() as int
}

/// The REGS chunk of a state chunk at `p` reads back as its registers.
#[verifier::spinoff_prover]
#[verifier::rlimit(60)]
proof fn lemma_state_regs_part(b: Seq<u8>, p: int, tend: int, tag: Seq<u8>, regs: Seq<Option<u16>>, ram: Seq<RamEntry>)
    requires
        tag.len() == 4,
        regs.len() == 14,
        5 * ram.len() + 64 <= u32::MAX,
        0 <= p,
        p + state_chunk(tag, regs, ram).len() <= tend <= b.len(),
        b.subrange(p, p + state_chunk(tag, regs, ram).len()) == state_chunk(tag, regs, ram),
    ensures
        ram_offset(regs) + 12 + 5 * ram.len() == state_chunk(tag, regs, ram).len(),
        le32(b, p + 4) == state_chunk(tag, regs, ram).len() - 8,
        state_acc(b, p + 8, p + state_chunk(tag, regs, ram).len(), tend, None, None) == state_acc(
            b,
            p + ram_offset(regs),
            p + state_chunk(tag, regs, ram).len(),
            tend,
            Some(RegsV::Sixteen(regs)),
            None,
        ),
{
    let m = chunk_order(regs);
    let r = regs_chunk(regs);
    let vals = vals_from(m, 0);
    lemma_ram_entries_len(ram);
    lemma_vals_len(m, 0);
    let c = chunk_bytes(tag_ram(), u32_bytes(ram.len()) + ram_entries(ram));
    let payload = r + c;
    let sc = state_chunk(tag, regs, ram);
    let l = p + sc.len();
    lemma_mask_small_pow(m, 0);
    let mask = mask_from(m, 0);
    assert(r == tag_regs() + u32_bytes((2 + vals.len()) as nat) + (u16_bytes(mask as u16) + vals));
    assert(sc == tag + u32_bytes(payload.len()) + payload);
    assert forall|k: int| 0 <= k < sc.len() implies #[trigger] b[p + k] == sc[k] by {
        assert(b.subrange(p, l)[k] == sc[k]);
    }
    assert(b.subrange(p + 4, p + 8) =~= u32_bytes(payload.len())) by {
        assert forall|k: int| 0 <= k < 4 implies b.subrange(p + 4, p + 8)[k] == u32_bytes(payload.len())[k] by {
            assert(b[p + 4 + k] == sc[4 + k]);
        }
    }
    lemma_le32_roundtrip(payload.len() as u32);
    assert(le32(b, p + 4) == le32(b.subrange(p + 4, p + 8), 0));
    assert(b[p + 8] == sc[8] && b[p + 9] == sc[9] && b[p + 10] == sc[10] && b[p + 11] == sc[11]);
    assert(kind_at(b, p + 8) == Some(ChunkKind::Registers16));
    assert(b[p + 16] == sc[16] && b[p + 17] == sc[17]);
    assert(le16(b, p + 16) == mask);
    assert(b.subrange(p + 18, p + 18 + vals.len() as int) =~= vals) by {
        assert forall|k: int| 0 <= k < vals.len() implies b.subrange(p + 18, p + 18 + vals.len() as int)[k]
            == vals[k] by {
            assert(b[p + 18 + k] == sc[18 + k]);
        }
    }
    lemma_read_regs(b, p + 18, tend, m, 0, Seq::empty());
    assert(Seq::<Option<u16>>::empty() + m.subrange(0, 14) =~= m);
    assert(reordered(m) =~= regs);
    reveal(state_acc);
}

/// The RAM chunk of a state chunk at `p` reads back as its RAM, and the
/// state ends there.
#[verifier::spinoff_prover]
#[verifier::rlimit(100)]
proof fn lemma_state_ram_part(b: Seq<u8>, p: int, tend: int, tag: Seq<u8>, regs: Seq<Option<u16>>, ram: Seq<RamEntry>)
    requires
        tag.len() == 4,
        regs.len() == 14,
        5 * ram.len() + 64 <= u32::MAX,
        0 <= p,
        p + state_chunk(tag, regs, ram).len() <= tend <= b.len(),
        b.subrange(p, p + state_chunk(tag, regs, ram).len()) == state_chunk(tag, regs, ram),
    ensures
        state_acc(
            b,
            p + ram_offset(regs),
            p + state_chunk(tag, regs, ram).len(),
            tend,
            Some(RegsV::Sixteen(regs)),
            None,
        ) == Ok::<(StateV, int), Seq<char>>(
            (StateV { regs: RegsV::Sixteen(regs), ram }, p + state_chunk(tag, regs, ram).len()),
        ),
{
    let m = chunk_order(regs);
    let r = regs_chunk(regs);
    let vals = vals_from(m, 0);
    let entries = ram_entries(ram);
    lemma_ram_entries_len(ram);
    lemma_vals_len(m, 0);
    let c = chunk_bytes(tag_ram(), u32_bytes(ram.len()) + entries);
    let payload = r + c;
    let sc = state_chunk(tag, regs, ram);
    let l = p + sc.len();
    assert(r.len() == 10 + vals.len());
    assert(sc == tag + u32_bytes(payload.len()) + payload);
    let q1: int = p + 18 + vals.len() as int;
    assert(payload.subrange(r.len() as int, payload.len() as int) =~= c);
    assert(sc.subrange(8 + r.len() as int, sc.len() as int) =~= c);
    assert(b.subrange(q1, l) =~= c) by {
        assert forall|k: int| 0 <= k < c.len() implies b.subrange(q1, l)[k] == c[k] by {
            assert(b.subrange(q1, l)[k] == b.subrange(p, l)[18 + vals.len() + k]);
            assert(sc.subrange(8 + r.len() as int, sc.len() as int)[k] == sc[18 + vals.len() + k]);
        }
    }
    let bc = b.subrange(q1, l);
    assert(b[q1] == bc[0] && b[q1 + 1] == bc[1] && b[q1 + 2] == bc[2] && b[q1 + 3] == bc[3]);
    assert(kind_at(b, q1) == Some(ChunkKind::Ram));
    assert(b.subrange(q1 + 8, q1 + 12) =~= u32_bytes(ram.len())) by {
        assert forall|k: int| 0 <= k < 4 implies b.subrange(q1 + 8, q1 + 12)[k] == u32_bytes(ram.len())[k] by {
            assert(b[q1 + 8 + k] == bc[8 + k]);
        }
    }
    lemma_le32_roundtrip(ram.len() as u32);
    assert(le32(b, q1 + 8) == le32(b.subrange(q1 + 8, q1 + 12), 0));
    assert(b.subrange(q1 + 12, q1 + 12 + 5 * ram.len() as int) =~= entries) by {
        assert forall|k: int| 0 <= k < entries.len() implies b.subrange(q1 + 12, q1 + 12 + 5 * ram.len() as int)[k]
            == entries[k] by {
            assert(b[q1 + 12 + k] == bc[12 + k]);
        }
    }
    lemma_read_ram(b, q1 + 12, tend, ram, 0);
    assert(ram.subrange(0, 0) =~= Seq::<RamEntry>::empty());
    reveal(state_acc);
    assert(state_acc(b, l, l, tend, Some(RegsV::Sixteen(regs)), Some(ram)) == Ok::<(StateV, int), Seq<char>>(
        (StateV { regs: RegsV::Sixteen(regs), ram }, l),
    ));
}

/// What a read gives back of a write, for a state: the chunk the writer
/// makes of a 16-bit state (see `state_chunk`), found at `p` in data that
/// runs on to `tend`, reads back as that state, reading ending at the
/// chunk's end.
pub proof fn lemma_state_chunk_roundtrip(
    b: Seq<u8>,
    p: int,
    tend: int,
    tag: Seq<u8>,
    regs: Seq<Option<u16>>,
    ram: Seq<RamEntry>,
)
    requires
        tag.len() == 4,
        regs.len() == 14,
        5 * ram.len() + 64 <= u32::MAX,
        0 <= p,
        p + state_chunk(tag, regs, ram).len() <= tend <= b.len(),
        b.subrange(p, p + state_chunk(tag, regs, ram).len()) == state_chunk(tag, regs, ram),
    ensures
        state_at(b, p, tend) == Ok::<(StateV, int), Seq<char>>(
            (StateV { regs: RegsV::Sixteen(regs), ram }, p + state_chunk(tag, regs, ram).len()),
        ),
{
    lemma_state_regs_part(b, p, tend, tag, regs, ram);
    lemma_state_ram_part(b, p, tend, tag, regs, ram);
}

proof fn lemma_vals_len(m: Seq<Option<u16>>, i: nat)
    requires
        m.len() == 14,
        i <= 14,
    ensures
        vals_from(m, i).len() <= 2 * (14 - i),
    decreases 14 - i,
{
    if i < 14 {
        lemma_vals_len(m, i + 1);
    }
}

/// The REGS chunk of a register file (see `regs_chunk`).
fn regs_chunk_bytes(a: &[Option<u16>; 14]) -> (r: Vec<u8>)
    ensures
        r@ == regs_chunk(a@),
        r@.len() <= 8 + 2 + 28,
{
    let m: [Option<u16>; 14] = [a[0], a[1], a[2], a[3], a[9], a[12], a[10], a[11], a[7], a[6], a[4], a[5], a[8], a[13]];
    assert(m@ =~= chunk_order(a@));
    let mut mask: u16 = 0;
    let mut i: usize = 14;
    while i > 0
        invariant
            i <= 14,
            mask as int == mask_from(m@, i as nat),
            mask_from(m@, i as nat) < pow2_from(i as nat),
            pow2_from(i as nat) <= 16384,
        decreases i,
    {
        proof {
            lemma_mask_small_pow(m@, (i - 1) as nat);
        }
        let bit: u16 = if m[i - 1].is_some() {
            1
        } else {
            0
        };
        mask = bit + 2 * mask;
        i = i - 1;
    }
    let mut vals: Vec<u8> = Vec::new();
    let mut k: usize = 0;
    while k < 14
        invariant
            k <= 14,
            vals_from(m@, 0) == vals@ + vals_from(m@, k as nat),
            vals@.len() <= 2 * k,
        decreases 14 - k,
    {
        match m[k] {
            Some(x) => {
                vals.push((x % 256) as u8);
                vals.push((x / 256) as u8);
                assert(vals_from(m@, k as nat) == u16_bytes(x) + vals_from(m@, (k + 1) as nat));
            },
            None => {},
        }
        k = k + 1;
    }
    let mut payload: Vec<u8> = Vec::new();
    payload.push((mask % 256) as u8);
    payload.push((mask / 256) as u8);
    put_all(&mut payload, vals.as_slice());
    assert(payload@ =~= u16_bytes(mask) + vals@);
    let mut out: Vec<u8> = Vec::new();
    let tag: [u8; 4] = [0x52, 0x45, 0x47, 0x53];
    assert(tag@ =~= tag_regs());
    put_chunk(&mut out, &tag, &payload);
    out
}

/// The state chunk with tag `tag` (see `state_chunk`).
fn state_chunk_bytes(tag: &[u8], regs: &[Option<u16>; 14], ram: &Vec<RamEntry>) -> (r: Vec<u8>)
    requires
        5 * ram@.len() + 64 <= u32::MAX,
    ensures
        r@ == state_chunk(tag@, regs@, ram@),
        r@.len() <= tag@.len() + 58 + 5 * ram@.len(),
{
    let mut entries: Vec<u8> = Vec::new();
    put_u32(&mut entries, ram.len() as u32);
    let mut i: usize = 0;
    while i < ram.len()
        invariant
            i <= ram@.len(),
            5 * ram@.len() + 64 <= u32::MAX,
            entries@ == u32_bytes(ram@.len()) + ram_entries(ram@.subrange(0, i as int)),
            entries@.len() == 4 + 5 * i,
        decreases ram@.len() - i,
    {
        let ghost before = entries@;
        put_u32(&mut entries, ram[i].address);
        entries.push(ram[i].value);
        assert(ram@.subrange(0, i + 1).drop_last() =~= ram@.subrange(0, i as int));
        assert(entries@ =~= u32_bytes(ram@.len()) + ram_entries(ram@.subrange(0, i + 1)));
        i = i + 1;
    }
    assert(ram@.subrange(0, ram@.len() as int) =~= ram@);
    let mut payload = regs_chunk_bytes(regs);
    let ram_tag: [u8; 4] = [0x52, 0x41, 0x4d, 0x20];
    assert(ram_tag@ =~= tag_ram());
    put_chunk(&mut payload, &ram_tag, &entries);
    let mut out: Vec<u8> = Vec::new();
    put_chunk(&mut out, tag, &payload);
    out
}

/// The name and bytes chunks of a test, after its index.
#[verifier::opaque]
pub open spec fn test_head(index: nat, t: SstTest) -> Seq<u8> {
    u32_bytes(index) + chunk_bytes(tag_name(), u32_bytes(vstd::utf8::encode_utf8(t.name@).len()) + vstd::utf8::encode_utf8(
        t.name@,
    )) + chunk_bytes(tag_bytes(), u32_bytes(t.bytes@.len()) + t.bytes@)
}

/// The state, cycle and exception chunks of a test.
#[verifier::opaque]
pub open spec fn test_tail(t: SstTest) -> Seq<u8> {
    state_chunk(tag_init(), regs16(t.initial), t.initial.ram@) + state_chunk(tag_fina(), regs16(t.fin), t.fin.ram@)
        + chunk_bytes(tag_cycl(), u32_bytes(0)) + match t.exception {
        Some(n) => chunk_bytes(tag_excp(), seq![n] + u32_bytes(0)),
        None => Seq::empty(),
    }
}

fn test_head_bytes(index: u32, t: &SstTest) -> (r: Vec<u8>)
    requires
        writable(*t),
    ensures
        r@ == test_head(index as nat, *t),
        r@.len() == 4 + 12 + vstd::utf8::encode_utf8(t.name@).len() + 12 + t.bytes@.len(),
{
    reveal(test_head);
    let mut body: Vec<u8> = Vec::new();
    put_u32(&mut body, index);
    let name_bytes = t.name.as_str().as_bytes();
    let mut name_payload: Vec<u8> = Vec::new();
    put_u32(&mut name_payload, name_bytes.len() as u32);
    put_all(&mut name_payload, name_bytes);
    let name_tag: [u8; 4] = [0x4e, 0x41, 0x4d, 0x45];
    assert(name_tag@ =~= tag_name());
    put_chunk(&mut body, &name_tag, &name_payload);
    let mut bytes_payload: Vec<u8> = Vec::new();
    put_u32(&mut bytes_payload, t.bytes.len() as u32);
    put_all(&mut bytes_payload, t.bytes.as_slice());
    let bytes_tag: [u8; 4] = [0x42, 0x59, 0x54, 0x53];
    assert(bytes_tag@ =~= tag_bytes());
    put_chunk(&mut body, &bytes_tag, &bytes_payload);
    assert(body@ =~= test_head(index as nat, *t));
    body
}

fn test_tail_bytes(t: &SstTest) -> (r: Vec<u8>)
    requires
        writable(*t),
    ensures
        r@ == test_tail(*t),
        r@.len() <= 150 + 5 * (t.initial.ram@.len() + t.fin.ram@.len()),
{
    reveal(test_tail);
    let (ri, rf) = match (&t.initial.regs, &t.fin.regs) {
        (TestRegs::Sixteen(a), TestRegs::Sixteen(b)) => (a, b),
        _ => {
            assert(false);
            return Vec::new();
        },
    };
    let init_tag: [u8; 4] = [0x49, 0x4e, 0x49, 0x54];
    assert(init_tag@ =~= tag_init());
    let mut body = state_chunk_bytes(&init_tag, ri, &t.initial.ram);
    let fina_tag: [u8; 4] = [0x46, 0x49, 0x4e, 0x41];
    assert(fina_tag@ =~= tag_fina());
    let fin = state_chunk_bytes(&fina_tag, rf, &t.fin.ram);
    put_all(&mut body, fin.as_slice());
    let mut cycles: Vec<u8> = Vec::new();
    put_u32(&mut cycles, 0);
    let cycl_tag: [u8; 4] = [0x43, 0x59, 0x43, 0x4c];
    assert(cycl_tag@ =~= tag_cycl());
    put_chunk(&mut body, &cycl_tag, &cycles);
    match t.exception {
        Some(n) => {
            let mut ex: Vec<u8> = Vec::new();
            ex.push(n);
            put_u32(&mut ex, 0);
            let excp_tag: [u8; 4] = [0x45, 0x58, 0x43, 0x50];
            assert(excp_tag@ =~= tag_excp());
            put_chunk(&mut body, &excp_tag, &ex);
        },
        None => {},
    }
    assert(body@ =~= test_tail(*t));
    body
}

/// The TEST chunk of test `t`, the `index`-th (see `test_chunk`).
fn test_chunk_bytes(index: u32, t: &SstTest) -> (r: Vec<u8>)
    requires
        writable(*t),
    ensures
        r@ == test_chunk(index as nat, *t),
        r@.len() <= u32::MAX,
        written_hash(index as nat, *t).len() == 20,
{
    let mut body = test_head_bytes(index, t);
    let tail = test_tail_bytes(t);
    put_all(&mut body, tail.as_slice());
    assert(body@ =~= test_body(index as nat, *t));
    let hash: [u8; 20] = match t.hash {
        Some(h) => h,
        None => sha1_digest(body.as_slice()),
    };
    let mut hash_payload: Vec<u8> = Vec::new();
    put_all(&mut hash_payload, &hash);
    let hash_tag: [u8; 4] = [0x48, 0x41, 0x53, 0x48];
    assert(hash_tag@ =~= tag_hash());
    let mut payload = body;
    put_chunk(&mut payload, &hash_tag, &hash_payload);
    let test_tag: [u8; 4] = [0x54, 0x45, 0x53, 0x54];
    assert(test_tag@ =~= tag_test());
    let mut out: Vec<u8> = Vec::new();
    put_chunk(&mut out, &test_tag, &payload);
    out
}

/// Writes a MOO file of `tests` (see `moo_bytes`): each test keeps its
/// hash, or gets the SHA-1 of its chunks when it has none. Read back, the
/// file gives the tests as written (see `reads_back`).
#[verifier::spinoff_prover]
#[verifier::rlimit(60)]
pub fn write_moo(tests: &[SstTest]) -> (r: Vec<u8>)
    requires
        tests@.len() <= u32::MAX,
        forall|i: int| 0 <= i < tests@.len() ==> writable(#[trigger] tests@[i]),
    ensures
        r@ == moo_bytes(tests@),
        moo_parse(r@) == Ok::<Seq<MooTestV>, Seq<char>>(reads_back(tests@, tests@.len())),
{
    let mut header: Vec<u8> = Vec::new();
    header.push(1);
    header.push(1);
    header.push(0);
    header.push(0);
    put_u32(&mut header, tests.len() as u32);
    header.push(0x32);
    header.push(0x38);
    header.push(0x36);
    header.push(0x20);
    let moo_tag: [u8; 4] = [0x4d, 0x4f, 0x4f, 0x20];
    assert(moo_tag@ =~= tag_moo());
    assert(header@ =~= seq![1u8, 1, 0, 0] + u32_bytes(tests@.len()) + seq![0x32u8, 0x38, 0x36, 0x20]);
    let mut out: Vec<u8> = Vec::new();
    put_chunk(&mut out, &moo_tag, &header);
    let ghost head = out@;
    let mut i: usize = 0;
    while i < tests.len()
        invariant
            i <= tests@.len() <= u32::MAX,
            forall|k: int| 0 <= k < tests@.len() ==> writable(#[trigger] tests@[k]),
            out@ == head + tests_chunks(tests@, i as nat),
            head == chunk_bytes(tag_moo(), seq![1u8, 1, 0, 0] + u32_bytes(tests@.len()) + seq![0x32u8, 0x38, 0x36, 0x20]),
            forall|k: int| 0 <= k < i ==> #[trigger] hash_written(tests@, k),
        decreases tests@.len() - i,
    {
        let c = test_chunk_bytes(i as u32, &tests[i]);
        assert(hash_written(tests@, i as int));
        put_all(&mut out, c.as_slice());
        assert(out@ =~= head + tests_chunks(tests@, (i + 1) as nat));
        i = i + 1;
    }
    proof {
        lemma_written_file_reads_back(tests@);
    }
    out
}

// ---------------------------------------------------------------------------
// Reading back what was written
// ---------------------------------------------------------------------------

/// The bytes of a chunk at `p` read as a double word at `p + k`.
proof fn lemma_le32_at(b: Seq<u8>, p: int, x: Seq<u8>, k: int, v: u32)
    requires
        0 <= p,
        0 <= k,
        k + 4 <= x.len(),
        p + x.len() <= b.len(),
        b.subrange(p, p + x.len()) == x,
        x.subrange(k, k + 4) == u32_bytes(v as nat),
    ensures
        le32(b, p + k) == v,
{
    assert(b.subrange(p + k, p + k + 4) =~= u32_bytes(v as nat)) by {
        assert forall|j: int| 0 <= j < 4 implies b.subrange(p + k, p + k + 4)[j] == u32_bytes(v as nat)[j] by {
            assert(b[p + k + j] == b.subrange(p, p + x.len())[k + j]);
            assert(x[k + j] == x.subrange(k, k + 4)[j]);
        }
    }
    lemma_le32_roundtrip(v);
    assert(le32(b, p + k) == le32(b.subrange(p + k, p + k + 4), 0));
}

/// A NAME or BYTS chunk reads back as its data.
#[verifier::spinoff_prover]
#[verifier::rlimit(60)]
proof fn lemma_data_step(b: Seq<u8>, p: int, tend: int, tag: Seq<u8>, data: Seq<u8>, acc: TestAcc)
    requires
        tag == tag_name() || tag == tag_bytes(),
        data.len() + 8 <= u32::MAX,
        0 <= p,
        p + 12 + data.len() <= tend <= b.len(),
        b.subrange(p, p + 12 + data.len()) == chunk_bytes(tag, u32_bytes(data.len()) + data),
    ensures
        test_acc(b, p, tend, acc) == test_acc(
            b,
            p + 12 + data.len(),
            tend,
            if tag == tag_name() {
                TestAcc { test: MooTestV { name: utf8_lossy(data), ..acc.test }, ..acc }
            } else {
                TestAcc { test: MooTestV { bytes: data, ..acc.test }, ..acc }
            },
        ),
{
    let x = chunk_bytes(tag, u32_bytes(data.len()) + data);
    assert(x.len() == 12 + data.len());
    assert(b[p] == x[0] && b[p + 1] == x[1] && b[p + 2] == x[2] && b[p + 3] == x[3]) by {
        assert(b[p] == b.subrange(p, p + x.len())[0]);
        assert(b[p + 1] == b.subrange(p, p + x.len())[1]);
        assert(b[p + 2] == b.subrange(p, p + x.len())[2]);
        assert(b[p + 3] == b.subrange(p, p + x.len())[3]);
    }
    assert(x.subrange(8, 12) =~= u32_bytes(data.len()));
    lemma_le32_at(b, p, x, 8, data.len() as u32);
    assert(b.subrange(p + 12, p + 12 + data.len()) =~= data) by {
        assert forall|j: int| 0 <= j < data.len() implies b.subrange(p + 12, p + 12 + data.len())[j] == data[j] by {
            assert(b[p + 12 + j] == b.subrange(p, p + x.len())[12 + j]);
        }
    }
    reveal(test_acc);
}

/// A state chunk reads back as its state.
#[verifier::spinoff_prover]
#[verifier::rlimit(60)]
proof fn lemma_state_step(
    b: Seq<u8>,
    p: int,
    tend: int,
    tag: Seq<u8>,
    regs: Seq<Option<u16>>,
    ram: Seq<RamEntry>,
    acc: TestAcc,
)
    requires
        tag == tag_init() || tag == tag_fina(),
        regs.len() == 14,
        5 * ram.len() + 64 <= u32::MAX,
        0 <= p,
        p + state_chunk(tag, regs, ram).len() <= tend <= b.len(),
        b.subrange(p, p + state_chunk(tag, regs, ram).len()) == state_chunk(tag, regs, ram),
    ensures
        test_acc(b, p, tend, acc) == test_acc(
            b,
            p + state_chunk(tag, regs, ram).len(),
            tend,
            if tag == tag_init() {
                TestAcc {
                    test: MooTestV { initial: StateV { regs: RegsV::Sixteen(regs), ram }, ..acc.test },
                    has_initial: true,
                    ..acc
                }
            } else {
                TestAcc {
                    test: MooTestV { fin: StateV { regs: RegsV::Sixteen(regs), ram }, ..acc.test },
                    has_fin: true,
                    ..acc
                }
            },
        ),
{
    let x = state_chunk(tag, regs, ram);
    lemma_state_chunk_roundtrip(b, p, tend, tag, regs, ram);
    assert(x.len() >= 8);
    assert(b[p] == x[0] && b[p + 1] == x[1] && b[p + 2] == x[2] && b[p + 3] == x[3]) by {
        assert(b[p] == b.subrange(p, p + x.len())[0]);
        assert(b[p + 1] == b.subrange(p, p + x.len())[1]);
        assert(b[p + 2] == b.subrange(p, p + x.len())[2]);
        assert(b[p + 3] == b.subrange(p, p + x.len())[3]);
    }
    reveal(test_acc);
}

/// The cycle-state chunk is skipped.
#[verifier::spinoff_prover]
proof fn lemma_cycl_step(b: Seq<u8>, p: int, tend: int, acc: TestAcc)
    requires
        0 <= p,
        p + 12 < tend <= b.len(),
        b.subrange(p, p + 12) == chunk_bytes(tag_cycl(), u32_bytes(0)),
    ensures
        test_acc(b, p, tend, acc) == test_acc(b, p + 12, tend, acc),
{
    let x = chunk_bytes(tag_cycl(), u32_bytes(0));
    assert(x.len() == 12);
    assert(b[p] == x[0] && b[p + 1] == x[1] && b[p + 2] == x[2] && b[p + 3] == x[3]) by {
        assert(b[p] == b.subrange(p, p + 12)[0]);
        assert(b[p + 1] == b.subrange(p, p + 12)[1]);
        assert(b[p + 2] == b.subrange(p, p + 12)[2]);
        assert(b[p + 3] == b.subrange(p, p + 12)[3]);
    }
    assert(x.subrange(4, 8) =~= u32_bytes(4));
    lemma_le32_at(b, p, x, 4, 4);
    reveal(test_acc);
}

/// The exception chunk reads back as the exception.
#[verifier::spinoff_prover]
proof fn lemma_excp_step(b: Seq<u8>, p: int, tend: int, n: u8, acc: TestAcc)
    requires
        0 <= p,
        p + 13 <= tend <= b.len(),
        b.subrange(p, p + 13) == chunk_bytes(tag_excp(), seq![n] + u32_bytes(0)),
    ensures
        test_acc(b, p, tend, acc) == test_acc(b, p + 13, tend, TestAcc { test: MooTestV { exception: Some(n), ..acc.test }, ..acc }),
{
    let x = chunk_bytes(tag_excp(), seq![n] + u32_bytes(0));
    assert(x.len() == 13);
    assert(b[p] == x[0] && b[p + 1] == x[1] && b[p + 2] == x[2] && b[p + 3] == x[3] && b[p + 8] == x[8]) by {
        assert(b[p] == b.subrange(p, p + 13)[0]);
        assert(b[p + 1] == b.subrange(p, p + 13)[1]);
        assert(b[p + 2] == b.subrange(p, p + 13)[2]);
        assert(b[p + 3] == b.subrange(p, p + 13)[3]);
        assert(b[p + 8] == b.subrange(p, p + 13)[8]);
    }
    reveal(test_acc);
}

/// The hash chunk reads back as the hash, and ends the test.
#[verifier::spinoff_prover]
proof fn lemma_hash_step(b: Seq<u8>, p: int, h: Seq<u8>, acc: TestAcc)
    requires
        0 <= p,
        h.len() == 20,
        p + 28 <= b.len(),
        b.subrange(p, p + 28) == chunk_bytes(tag_hash(), h),
    ensures
        test_acc(b, p, p + 28, acc) == Ok::<TestAcc, Seq<char>>(TestAcc { test: MooTestV { hash: Some(h), ..acc.test }, ..acc }),
{
    let x = chunk_bytes(tag_hash(), h);
    assert(x.len() == 28);
    assert(b[p] == x[0] && b[p + 1] == x[1] && b[p + 2] == x[2] && b[p + 3] == x[3]) by {
        assert(b[p] == b.subrange(p, p + 28)[0]);
        assert(b[p + 1] == b.subrange(p, p + 28)[1]);
        assert(b[p + 2] == b.subrange(p, p + 28)[2]);
        assert(b[p + 3] == b.subrange(p, p + 28)[3]);
    }
    assert(b.subrange(p + 8, p + 28) =~= h) by {
        assert forall|j: int| 0 <= j < 20 implies b.subrange(p + 8, p + 28)[j] == h[j] by {
            assert(b[p + 8 + j] == b.subrange(p, p + 28)[8 + j]);
        }
    }
    reveal(test_acc);
    let acc2 = TestAcc { test: MooTestV { hash: Some(h), ..acc.test }, ..acc };
    assert(test_acc(b, p + 28, p + 28, acc2) == Ok::<TestAcc, Seq<char>>(acc2));
}


/// What a test written with hash `h` reads back as: its name through the
/// lossy UTF-8 decoding of its encoding, its bytes, its 16-bit states and
/// its exception, as written.
pub open spec fn read_back(t: SstTest, h: Seq<u8>) -> MooTestV {
    MooTestV {
        name: utf8_lossy(vstd::utf8::encode_utf8(t.name@)),
        bytes: t.bytes@,
        initial: StateV { regs: RegsV::Sixteen(regs16(t.initial)), ram: t.initial.ram@ },
        fin: StateV { regs: RegsV::Sixteen(regs16(t.fin)), ram: t.fin.ram@ },
        exception: t.exception,
        hash: Some(h),
    }
}

/// The NAME chunk of a test.
pub open spec fn name_chunk(t: SstTest) -> Seq<u8> {
    chunk_bytes(tag_name(), u32_bytes(vstd::utf8::encode_utf8(t.name@).len()) + vstd::utf8::encode_utf8(t.name@))
}

/// The BYTS chunk of a test.
pub open spec fn bytes_chunk(t: SstTest) -> Seq<u8> {
    chunk_bytes(tag_bytes(), u32_bytes(t.bytes@.len()) + t.bytes@)
}

/// The EXCP chunk of a test, none without an exception.
pub open spec fn excp_chunk(t: SstTest) -> Seq<u8> {
    match t.exception {
        Some(k) => chunk_bytes(tag_excp(), seq![k] + u32_bytes(0)),
        None => Seq::empty(),
    }
}

/// A test's body as its chunks, one after the other.
#[verifier::spinoff_prover]
#[verifier::rlimit(100)]
proof fn lemma_body_layout(index: nat, t: SstTest, h: Seq<u8>)
    ensures
        ({
            let x = test_body(index, t) + chunk_bytes(tag_hash(), h);
            let o1: int = 4 + name_chunk(t).len() as int;
            let o2: int = o1 + bytes_chunk(t).len() as int;
            let o3: int = o2 + state_chunk(tag_init(), regs16(t.initial), t.initial.ram@).len() as int;
            let o4: int = o3 + state_chunk(tag_fina(), regs16(t.fin), t.fin.ram@).len() as int;
            let o5: int = o4 + 12;
            let o6: int = o5 + excp_chunk(t).len() as int;
            &&& x.len() == o6 + 8 + h.len()
            &&& x.subrange(4, o1) == name_chunk(t)
            &&& x.subrange(o1, o2) == bytes_chunk(t)
            &&& x.subrange(o2, o3) == state_chunk(tag_init(), regs16(t.initial), t.initial.ram@)
            &&& x.subrange(o3, o4) == state_chunk(tag_fina(), regs16(t.fin), t.fin.ram@)
            &&& x.subrange(o4, o5) == chunk_bytes(tag_cycl(), u32_bytes(0))
            &&& x.subrange(o5, o6) == excp_chunk(t)
            &&& x.subrange(o6, x.len() as int) == chunk_bytes(tag_hash(), h)
        }),
{
    reveal(test_head);
    reveal(test_tail);
    let w = u32_bytes(index);
    let n = name_chunk(t);
    let bb = bytes_chunk(t);
    let i = state_chunk(tag_init(), regs16(t.initial), t.initial.ram@);
    let f = state_chunk(tag_fina(), regs16(t.fin), t.fin.ram@);
    let c = chunk_bytes(tag_cycl(), u32_bytes(0));
    let e = excp_chunk(t);
    let hc = chunk_bytes(tag_hash(), h);
    let x = test_body(index, t) + hc;
    let y = w + n + bb + i + f + c + e + hc;
    assert(x =~= y);
    let o1: int = 4 + n.len() as int;
    let o2: int = o1 + bb.len();
    let o3: int = o2 + i.len();
    let o4: int = o3 + f.len();
    let o5: int = o4 + c.len();
    let o6: int = o5 + e.len();
    assert(y.subrange(4, o1) =~= n);
    assert(y.subrange(o1, o2) =~= bb);
    assert(y.subrange(o2, o3) =~= i);
    assert(y.subrange(o3, o4) =~= f);
    assert(y.subrange(o4, o5) =~= c);
    assert(y.subrange(o5, o6) =~= e);
    assert(y.subrange(o6, y.len() as int) =~= hc);
}

/// A piece of a piece of `b`.
proof fn lemma_sub_sub(b: Seq<u8>, p: int, x: Seq<u8>, o: int, o2: int)
    requires
        0 <= p,
        p + x.len() <= b.len(),
        b.subrange(p, p + x.len()) == x,
        0 <= o <= o2 <= x.len(),
    ensures
        b.subrange(p + o, p + o2) == x.subrange(o, o2),
{
    assert forall|j: int| 0 <= j < o2 - o implies b.subrange(p + o, p + o2)[j] == x.subrange(o, o2)[j] by {
        assert(b[p + o + j] == b.subrange(p, p + x.len())[o + j]);
    }
    assert(b.subrange(p + o, p + o2) =~= x.subrange(o, o2));
}

/// The body of a writable test followed by any 20-byte hash chunk, found
/// at `p` in `b`, reads back chunk by chunk as the test with that hash,
/// both of its states present.
#[verifier::spinoff_prover]
#[verifier::rlimit(100)]
pub proof fn lemma_test_body_reads_back(b: Seq<u8>, p: int, index: nat, t: SstTest, h: Seq<u8>)
    requires
        writable(t),
        h.len() == 20,
        0 <= p,
        p + (test_body(index, t) + chunk_bytes(tag_hash(), h)).len() <= b.len(),
        b.subrange(p, p + (test_body(index, t) + chunk_bytes(tag_hash(), h)).len()) == test_body(index, t)
            + chunk_bytes(tag_hash(), h),
    ensures
        ({
            let x = test_body(index, t) + chunk_bytes(tag_hash(), h);
            test_acc(b, p + 4, p + x.len(), TestAcc { test: empty_test(), has_initial: false, has_fin: false })
                == Ok::<TestAcc, Seq<char>>(TestAcc { test: read_back(t, h), has_initial: true, has_fin: true })
        }),
{
    let enc = vstd::utf8::encode_utf8(t.name@);
    let x = test_body(index, t) + chunk_bytes(tag_hash(), h);
    lemma_body_layout(index, t, h);
    let o1: int = 4 + name_chunk(t).len() as int;
    let o2: int = o1 + bytes_chunk(t).len();
    let o3: int = o2 + state_chunk(tag_init(), regs16(t.initial), t.initial.ram@).len();
    let o4: int = o3 + state_chunk(tag_fina(), regs16(t.fin), t.fin.ram@).len();
    let o5: int = o4 + 12;
    let o6: int = o5 + excp_chunk(t).len();
    let end = p + x.len();
    lemma_sub_sub(b, p, x, 4, o1);
    lemma_sub_sub(b, p, x, o1, o2);
    lemma_sub_sub(b, p, x, o2, o3);
    lemma_sub_sub(b, p, x, o3, o4);
    lemma_sub_sub(b, p, x, o4, o5);
    lemma_sub_sub(b, p, x, o5, o6);
    lemma_sub_sub(b, p, x, o6, x.len() as int);
    let a0 = TestAcc { test: empty_test(), has_initial: false, has_fin: false };
    lemma_data_step(b, p + 4, end, tag_name(), enc, a0);
    let a1 = TestAcc { test: MooTestV { name: utf8_lossy(enc), ..a0.test }, ..a0 };
    lemma_data_step(b, p + o1, end, tag_bytes(), t.bytes@, a1);
    let a2 = TestAcc { test: MooTestV { bytes: t.bytes@, ..a1.test }, ..a1 };
    lemma_state_step(b, p + o2, end, tag_init(), regs16(t.initial), t.initial.ram@, a2);
    let a3 = TestAcc {
        test: MooTestV { initial: StateV { regs: RegsV::Sixteen(regs16(t.initial)), ram: t.initial.ram@ }, ..a2.test },
        has_initial: true,
        ..a2
    };
    lemma_state_step(b, p + o3, end, tag_fina(), regs16(t.fin), t.fin.ram@, a3);
    let a4 = TestAcc {
        test: MooTestV { fin: StateV { regs: RegsV::Sixteen(regs16(t.fin)), ram: t.fin.ram@ }, ..a3.test },
        has_fin: true,
        ..a3
    };
    lemma_cycl_step(b, p + o4, end, a4);
    let a5 = match t.exception {
        Some(k) => TestAcc { test: MooTestV { exception: Some(k), ..a4.test }, ..a4 },
        None => a4,
    };
    match t.exception {
        Some(k) => {
            lemma_excp_step(b, p + o5, end, k, a4);
        },
        None => {},
    }
    lemma_hash_step(b, p + o6, h, a5);
    assert(TestAcc { test: MooTestV { hash: Some(h), ..a5.test }, ..a5 } == TestAcc {
        test: read_back(t, h),
        has_initial: true,
        has_fin: true,
    });
}

/// The hash written for the `j`-th of `tests` is 20 bytes long.
pub open spec fn hash_written(tests: Seq<SstTest>, j: int) -> bool {
    written_hash(j as nat, tests[j]).len() == 20
}

/// What the tests of a written file read back as, the first `n` of them.
pub open spec fn reads_back(tests: Seq<SstTest>, n: nat) -> Seq<MooTestV> {
    Seq::new(n, |k: int| read_back(tests[k], written_hash(k as nat, tests[k])))
}

/// The chunks of the first `m` tests open those of the first `n`.
proof fn lemma_chunks_prefix(tests: Seq<SstTest>, m: nat, n: nat)
    requires
        m <= n <= tests.len(),
    ensures
        tests_chunks(tests, m).len() <= tests_chunks(tests, n).len(),
        tests_chunks(tests, n).subrange(0, tests_chunks(tests, m).len() as int) == tests_chunks(tests, m),
    decreases n - m,
{
    if m < n {
        lemma_chunks_prefix(tests, m, (n - 1) as nat);
        let c = tests_chunks(tests, (n - 1) as nat);
        let d = tests_chunks(tests, n);
        assert(d == c + test_chunk((n - 1) as nat, tests[n - 1]));
        assert(d.subrange(0, tests_chunks(tests, m).len() as int) =~= c.subrange(0, tests_chunks(tests, m).len() as int));
    } else {
        assert(tests_chunks(tests, n).subrange(0, tests_chunks(tests, n).len() as int) =~= tests_chunks(tests, n));
    }
}

/// The size of a written test's chunks.
proof fn lemma_body_size(index: nat, t: SstTest, h: Seq<u8>)
    requires
        writable(t),
        h.len() == 20,
    ensures
        (test_body(index, t) + chunk_bytes(tag_hash(), h)).len() + 8 <= u32::MAX,
        (test_body(index, t) + chunk_bytes(tag_hash(), h)).len() >= 4,
{
    lemma_body_layout(index, t, h);
    lemma_vals_len(chunk_order(regs16(t.initial)), 0);
    lemma_vals_len(chunk_order(regs16(t.fin)), 0);
    lemma_ram_entries_len(t.initial.ram@);
    lemma_ram_entries_len(t.fin.ram@);
}

/// From the `k`-th test on, the tests of a written file read back.
#[verifier::spinoff_prover]
#[verifier::rlimit(100)]
proof fn lemma_file_from(tests: Seq<SstTest>, k: nat)
    requires
        k <= tests.len() <= u32::MAX,
        forall|j: int| 0 <= j < tests.len() ==> writable(#[trigger] tests[j]),
        forall|j: int| 0 <= j < tests.len() ==> #[trigger] hash_written(tests, j),
    ensures
        file_acc(moo_bytes(tests), 20 + tests_chunks(tests, k).len() as int, tests.len(), k, true, reads_back(tests, k))
            == Ok::<Seq<MooTestV>, Seq<char>>(reads_back(tests, tests.len())),
    decreases tests.len() - k,
{
    let n = tests.len();
    let b = moo_bytes(tests);
    let head = chunk_bytes(tag_moo(), seq![1u8, 1, 0, 0] + u32_bytes(n) + seq![0x32u8, 0x38, 0x36, 0x20]);
    assert(head.len() == 20);
    if k == n {
        assert(reads_back(tests, k) =~= reads_back(tests, n));
    } else {
        let t = tests[k as int];
        let h = written_hash(k, t);
        assert(hash_written(tests, k as int));
        assert(h.len() == 20);
        let x = test_body(k, t) + chunk_bytes(tag_hash(), h);
        let tc = test_chunk(k, t);
        assert(tc == chunk_bytes(tag_test(), x));
        lemma_body_size(k, t, h);
        lemma_chunks_prefix(tests, k + 1, n);
        let ck = tests_chunks(tests, k);
        let ck1 = tests_chunks(tests, k + 1);
        assert(ck1 == ck + tc);
        let p: int = 20 + ck.len() as int;
        let all = tests_chunks(tests, n);
        assert(b == head + all);
        assert(b.subrange(p, p + tc.len()) =~= tc) by {
            assert forall|j: int| 0 <= j < tc.len() implies b.subrange(p, p + tc.len())[j] == tc[j] by {
                assert(b[p + j] == all[ck.len() + j]);
                assert(all[ck.len() + j] == all.subrange(0, ck1.len() as int)[ck.len() + j]);
                assert(ck1[ck.len() + j] == tc[j]);
            }
        }
        assert(p + tc.len() <= b.len()) by {
            assert(b.len() == 20 + all.len());
        }
        // the TEST header
        assert(b[p] == tc[0] && b[p + 1] == tc[1] && b[p + 2] == tc[2] && b[p + 3] == tc[3]) by {
            assert(b[p] == b.subrange(p, p + tc.len())[0]);
            assert(b[p + 1] == b.subrange(p, p + tc.len())[1]);
            assert(b[p + 2] == b.subrange(p, p + tc.len())[2]);
            assert(b[p + 3] == b.subrange(p, p + tc.len())[3]);
        }
        assert(tc.subrange(4, 8) =~= u32_bytes(x.len()));
        lemma_le32_at(b, p, tc, 4, x.len() as u32);
        lemma_sub_sub(b, p, tc, 8, tc.len() as int);
        assert(tc.subrange(8, tc.len() as int) =~= x);
        lemma_test_body_reads_back(b, p + 8, k, t, h);
        assert(reads_back(tests, k).push(read_back(t, h)) =~= reads_back(tests, k + 1));
        lemma_file_from(tests, k + 1);
        assert(p + 8 + x.len() == 20 + ck1.len());
    }
}

/// A file the writer wrote reads back test by test: each test's name
/// through the lossy UTF-8 decoding of its encoding, its bytes, states and
/// exception as they were, and the hash that was written for it.
#[verifier::spinoff_prover]
#[verifier::rlimit(60)]
pub proof fn lemma_written_file_reads_back(tests: Seq<SstTest>)
    requires
        tests.len() <= u32::MAX,
        forall|j: int| 0 <= j < tests.len() ==> writable(#[trigger] tests[j]),
        forall|j: int| 0 <= j < tests.len() ==> #[trigger] hash_written(tests, j),
    ensures
        moo_parse(moo_bytes(tests)) == Ok::<Seq<MooTestV>, Seq<char>>(reads_back(tests, tests.len())),
{
    let n = tests.len();
    let b = moo_bytes(tests);
    let hp = seq![1u8, 1, 0, 0] + u32_bytes(n) + seq![0x32u8, 0x38, 0x36, 0x20];
    let head = chunk_bytes(tag_moo(), hp);
    let all = tests_chunks(tests, n);
    assert(b == head + all);
    assert(head.len() == 20);
    assert(b[0] == 0x4d && b[1] == 0x4f && b[2] == 0x4f && b[3] == 0x20);
    assert(b[16] == 0x32 && b[17] == 0x38 && b[18] == 0x36 && b[19] == 0x20);
    assert(b.subrange(0, 20) =~= head);
    assert(head.subrange(12, 16) =~= u32_bytes(n));
    lemma_le32_at(b, 0, head, 12, n as u32);
    lemma_file_from(tests, 0);
    assert(tests_chunks(tests, 0).len() == 0);
    assert(reads_back(tests, 0) =~= Seq::<MooTestV>::empty());
}

} // verus!
