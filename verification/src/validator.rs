use vstd::prelude::*;
use vstd::string::StringExecFns;
use crate::cpu::{Cpu, InitialStatePolicy, normalize_initial_state, normalized_regs, NUM_REGS, AX, BX, CX, DX, SI, DI, BP, FLAGS};
use crate::emu::{Emu, StepOutcome};
use crate::fixture::{Fixture, MemoryRange, MemoryWindow, seg_off_from_abs};
use crate::segoff::{Off, Seg, SegOff, seg_value};
use crate::flags::FLAG_MASK;
use crate::mem::MEM_SIZE;
use crate::runner::{reg_name, reg_name_spec, join};
use crate::text::{dec, hex_pad, lowercase, push_hex, push_hex_wide, push_dec, push_str, to_lowercase};

verus! {

// ---------------------------------------------------------------------------
// Initial states
// ---------------------------------------------------------------------------

/// How the validator normalises the initial states of the reference and
/// the candidate: DOS leaves the general registers and the FLAGS bits the
/// emulator does not model (but the reserved bit 1) unspecified.
pub fn dosemu_initial_policy() -> (r: InitialStatePolicy)
    ensures
        r == (InitialStatePolicy {
            normalize_general_registers: true,
            flags_mask: !FLAG_MASK | 0x0002,
            flags_value: 0,
        }),
{
    InitialStatePolicy { normalize_general_registers: true, flags_mask: !FLAG_MASK | 0x0002, flags_value: 0 }
}

/// The names of the registers among the first `n` that differ.
pub open spec fn differing_upto(left: Seq<u16>, right: Seq<u16>, n: nat) -> Seq<&'static str>
    decreases n,
{
    if n == 0 {
        Seq::empty()
    } else {
        let rest = differing_upto(left, right, (n - 1) as nat);
        if left[n - 1] != right[n - 1] {
            rest.push(reg_name_spec(n - 1))
        } else {
            rest
        }
    }
}

/// The names of the registers whose values differ, in register order.
pub fn differing_registers(left: &Cpu, right: &Cpu) -> (r: Vec<&'static str>)
    ensures
        r@ == differing_upto(left.regs@, right.regs@, NUM_REGS as nat),
{
    let mut out: Vec<&'static str> = Vec::new();
    let mut i: usize = 0;
    while i < NUM_REGS
        invariant
            i <= NUM_REGS,
            out@ == differing_upto(left.regs@, right.regs@, i as nat),
        decreases NUM_REGS - i,
    {
        if left.regs[i] != right.regs[i] {
            out.push(reg_name(i));
        }
        i = i + 1;
    }
    out
}

/// A register file as text: `AX=0000 BX=0000 ... FLAGS=0000`.
pub open spec fn regs_text(regs: Seq<u16>) -> Seq<char> {
    join(
        Seq::new(NUM_REGS as nat, |i: int| reg_name_spec(i)@ + "="@ + hex_pad(regs[i] as nat, 4, true)),
        " "@,
    )
}

/// The registers of `cpu` as text.
pub fn cpu_text(cpu: &Cpu) -> (r: String)
    ensures
        r@ == regs_text(cpu.regs@),
{
    let ghost parts = Seq::new(
        NUM_REGS as nat,
        |i: int| reg_name_spec(i)@ + "="@ + hex_pad(cpu.regs@[i] as nat, 4, true),
    );
    let mut s = String::new();
    let mut i: usize = 0;
    while i < NUM_REGS
        invariant
            i <= NUM_REGS,
            parts == Seq::new(
                NUM_REGS as nat,
                |i: int| reg_name_spec(i)@ + "="@ + hex_pad(cpu.regs@[i] as nat, 4, true),
            ),
            s@ == join(parts.subrange(0, i as int), " "@),
        decreases NUM_REGS - i,
    {
        let mut part = String::from_str(reg_name(i));
        push_str(&mut part, "=");
        push_hex(&mut part, cpu.regs[i] as u32, 4, true);
        proof {
            assert(parts.subrange(0, i + 1) =~= parts.subrange(0, i as int).push(part@));
            assert(parts.subrange(0, i + 1).drop_last() =~= parts.subrange(0, i as int));
        }
        if i > 0 {
            push_str(&mut s, " ");
            push_str(&mut s, part.as_str());
        } else {
            s = part;
        }
        i = i + 1;
    }
    assert(parts.subrange(0, NUM_REGS as int) =~= parts);
    s
}

/// The names joined by `", "`.
fn names_text(names: &Vec<&'static str>) -> (r: String)
    ensures
        r@ == join(names@.map_values(|n: &'static str| n@), ", "@),
{
    let ghost parts = names@.map_values(|n: &'static str| n@);
    let mut s = String::new();
    let mut k: usize = 0;
    while k < names.len()
        invariant
            k <= names@.len(),
            parts == names@.map_values(|n: &'static str| n@),
            s@ == join(parts.subrange(0, k as int), ", "@),
        decreases names@.len() - k,
    {
        proof {
            assert(parts.subrange(0, k + 1).drop_last() =~= parts.subrange(0, k as int));
        }
        if k > 0 {
            push_str(&mut s, ", ");
        } else {
            s = String::new();
        }
        push_str(&mut s, names[k]);
        k = k + 1;
    }
    assert(parts.subrange(0, names@.len() as int) =~= parts);
    s
}

/// What comparing two initial states finds: nothing when the normalised
/// register files agree, otherwise the differing registers and both
/// normalised states.
pub open spec fn initial_divergence(reference: Seq<u16>, emu86: Seq<u16>) -> Option<Seq<char>> {
    let policy = InitialStatePolicy { normalize_general_registers: true, flags_mask: !FLAG_MASK | 0x0002, flags_value: 0 };
    let r = normalized_regs(reference, policy);
    let e = normalized_regs(emu86, policy);
    let d = differing_upto(r, e, NUM_REGS as nat);
    if d.len() == 0 {
        None
    } else {
        Some(
            "initial state divergence in "@ + join(d.map_values(|n: &'static str| n@), ", "@)
                + "\n  dosemu2: "@ + regs_text(r) + "\n  emu86: "@ + regs_text(e),
        )
    }
}

/// Compares the initial states of the reference and the candidate after
/// normalising both.
pub fn compare_initial_states(reference: &Cpu, emu86: &Cpu) -> (r: Result<(), String>)
    ensures
        r is Ok <==> initial_divergence(reference.regs@, emu86.regs@) is None,
        r matches Err(e) ==> Some(e@) == initial_divergence(reference.regs@, emu86.regs@),
{
    let policy = dosemu_initial_policy();
    let mut r = *reference;
    let mut e = *emu86;
    normalize_initial_state(&mut r, policy);
    normalize_initial_state(&mut e, policy);
    let differing = differing_registers(&r, &e);
    if differing.len() == 0 {
        return Ok(());
    }
    let mut msg = String::from_str("initial state divergence in ");
    let names = names_text(&differing);
    push_str(&mut msg, names.as_str());
    push_str(&mut msg, "\n  dosemu2: ");
    let rt = cpu_text(&r);
    push_str(&mut msg, rt.as_str());
    push_str(&mut msg, "\n  emu86: ");
    let et = cpu_text(&e);
    push_str(&mut msg, et.as_str());
    Err(msg)
}

/// The registers whose initial value DOS leaves open, in the order they
/// are copied.
pub open spec fn open_regs() -> Seq<usize> {
    seq![AX, BX, CX, DX, SI, DI, BP, FLAGS]
}

/// Whether register `i` is one of `open_regs`.
pub open spec fn is_open_reg(i: int) -> bool {
    i == AX || i == BX || i == CX || i == DX || i == SI || i == DI || i == BP || i == FLAGS
}

/// `cand` with the first `k` of `open_regs` taken from `reference`.
pub open spec fn synced_upto(cand: Seq<u16>, reference: Seq<u16>, k: nat) -> Seq<u16>
    decreases k,
{
    if k == 0 {
        cand
    } else {
        let r = open_regs()[k - 1] as int;
        synced_upto(cand, reference, (k - 1) as nat).update(r, reference[r])
    }
}

/// Copies the registers whose initial value DOS leaves open (AX BX CX DX SI
/// DI BP and FLAGS) from the reference to the candidate, so that later
/// comparisons can be strict; the candidate's other registers keep their
/// values.
pub fn synchronize_initial_variance<R: Emu, C: Emu>(reference: &R, candidate: &mut C)
    ensures
        final(candidate).cpu().regs@.len() == NUM_REGS,
        forall|i: int|
            0 <= i < NUM_REGS ==> #[trigger] final(candidate).cpu().regs@[i] == if is_open_reg(i) {
                reference.cpu().regs@[i]
            } else {
                old(candidate).cpu().regs@[i]
            },
{
    let regs: [usize; 8] = [AX, BX, CX, DX, SI, DI, BP, FLAGS];
    let ghost cand0 = candidate.cpu().regs@;
    let mut k: usize = 0;
    while k < 8
        invariant
            k <= 8,
            regs@ == open_regs(),
            candidate.cpu().regs@ == synced_upto(cand0, reference.cpu().regs@, k as nat),
        decreases 8 - k,
    {
        let reg = regs[k];
        let v = reference.reg_read(reg);
        candidate.reg_write(reg, v);
        k = k + 1;
    }
    proof {
        reveal_with_fuel(synced_upto, 9);
        let f = candidate.cpu().regs@;
        assert(cand0.len() == NUM_REGS);
        assert forall|i: int| 0 <= i < NUM_REGS implies #[trigger] f[i] == if is_open_reg(i) {
            reference.cpu().regs@[i]
        } else {
            cand0[i]
        } by {}
    }
}

// ---------------------------------------------------------------------------
// Stepping in lockstep
// ---------------------------------------------------------------------------

/// The step flags a backend may publish.
pub open spec fn known_flags() -> u32 {
    StepOutcome::MULTI_INSN | StepOutcome::SAME_PC | StepOutcome::FAULT | StepOutcome::END_ACK
        | StepOutcome::TARGET_EXIT
}

/// What is wrong with a boundary the reference published, if anything:
/// unknown flags, an end acknowledgement in an active step, a target exit
/// that consumed instructions, a non-terminal boundary that consumed none,
/// or a multi-instruction flag that disagrees with the count.
pub open spec fn outcome_error(o: StepOutcome) -> Option<Seq<char>> {
    if o.step_flags & !known_flags() != 0 {
        Some("backend published unknown step flags 0x"@ + hex_pad((o.step_flags & !known_flags()) as nat, 1, false))
    } else if o.step_flags & StepOutcome::END_ACK != 0 {
        Some("backend published an end acknowledgement during an active step"@)
    } else if o.step_flags & StepOutcome::TARGET_EXIT != 0 {
        if o.decoded_instructions != 0 {
            Some("target-exit boundary unexpectedly consumed decoded instructions"@)
        } else {
            None
        }
    } else if o.decoded_instructions == 0 {
        Some("non-terminal boundary consumed zero decoded instructions"@)
    } else if (o.step_flags & StepOutcome::MULTI_INSN != 0) != (o.decoded_instructions > 1) {
        Some("inconsistent multi-instruction node metadata"@)
    } else {
        None
    }
}

/// Checks a boundary the reference published.
pub fn check_step_outcome(o: StepOutcome) -> (r: Result<(), String>)
    ensures
        r is Ok <==> outcome_error(o) is None,
        r matches Err(e) ==> Some(e@) == outcome_error(o),
{
    let known = StepOutcome::MULTI_INSN | StepOutcome::SAME_PC | StepOutcome::FAULT | StepOutcome::END_ACK
        | StepOutcome::TARGET_EXIT;
    let unknown = o.step_flags & !known;
    if unknown != 0 {
        let mut s = String::from_str("backend published unknown step flags 0x");
        push_hex(&mut s, unknown, 1, false);
        return Err(s);
    }
    if o.has(StepOutcome::END_ACK) {
        return Err(String::from_str("backend published an end acknowledgement during an active step"));
    }
    if o.has(StepOutcome::TARGET_EXIT) {
        if o.decoded_instructions != 0 {
            return Err(String::from_str("target-exit boundary unexpectedly consumed decoded instructions"));
        }
        return Ok(());
    }
    if o.decoded_instructions == 0 {
        return Err(String::from_str("non-terminal boundary consumed zero decoded instructions"));
    }
    if o.has(StepOutcome::MULTI_INSN) != (o.decoded_instructions > 1) {
        return Err(String::from_str("inconsistent multi-instruction node metadata"));
    }
    Ok(())
}

/// A boundary the validator accepts: well formed, and not a fault unless
/// it ends the program.
pub open spec fn accepted(o: StepOutcome) -> bool {
    &&& outcome_error(o) is None
    &&& o.step_flags & StepOutcome::TARGET_EXIT == 0 ==> o.step_flags & StepOutcome::FAULT == 0
}

/// A step result with its error as text.
pub open spec fn result_view(r: Result<StepOutcome, String>) -> Result<StepOutcome, Seq<char>> {
    match r {
        Ok(o) => Ok(o),
        Err(e) => Err(e@),
    }
}

/// The candidate steps a boundary owes: as many instructions as the
/// reference decoded, when it published a well-formed boundary that does
/// not end the program; none otherwise.
pub open spec fn owed_steps(reference: Result<StepOutcome, Seq<char>>) -> nat {
    match reference {
        Ok(o) => if outcome_error(o) is None && o.step_flags & StepOutcome::TARGET_EXIT == 0 {
            o.decoded_instructions as nat
        } else {
            0
        },
        Err(_) => 0,
    }
}

/// The candidate's steps at a boundary: at most `owed`, all but the last
/// successful, and fewer than `owed` only when the last one failed.
pub open spec fn candidate_trace(owed: nat, results: Seq<Result<StepOutcome, String>>) -> bool {
    &&& results.len() <= owed
    &&& forall|i: int| 0 <= i < results.len() - 1 ==> (#[trigger] results[i]) is Ok
    &&& results.len() < owed ==> results.len() > 0 && results.last() is Err
}

/// The failing step among the candidate's, if any (the last one), by its
/// index and with its error.
pub open spec fn first_failure(results: Seq<Result<StepOutcome, String>>) -> Option<(nat, Seq<char>)> {
    if results.len() > 0 && results.last() is Err {
        Some(((results.len() - 1) as nat, results.last()->Err_0@))
    } else {
        None
    }
}

/// The states a backend went through, each stepped to the next with the
/// result of the same index.
pub open spec fn chain<C: Emu>(states: Seq<C>, results: Seq<Result<StepOutcome, String>>) -> bool {
    &&& states.len() == results.len() + 1
    &&& forall|i: int| 0 <= i < results.len() ==> (#[trigger] states[i]).stepped(states[i + 1], results[i])
}

/// One boundary crossed: the reference stepped once from `r0` to `r1` with
/// result `reference`, and the candidate went from `c0` to `c1` through the
/// steps `results` the boundary owed it, stopping at the first failure.
pub open spec fn crossed<R: Emu, C: Emu>(
    r0: R,
    r1: R,
    reference: Result<StepOutcome, String>,
    c0: C,
    c1: C,
    states: Seq<C>,
    results: Seq<Result<StepOutcome, String>>,
) -> bool {
    &&& r0.stepped(r1, reference)
    &&& chain(states, results)
    &&& states[0] == c0
    &&& states.last() == c1
    &&& candidate_trace(owed_steps(result_view(reference)), results)
}

/// What crossing a boundary returns, given the reference's step result and
/// the candidate's failing step: a reference error as it is; a malformed
/// boundary refused (see `outcome_error`); a target exit at once; a
/// candidate failure, prefixed when the reference faulted too; a fault of
/// the reference alone refused; otherwise the boundary.
pub open spec fn crossing(reference: Result<StepOutcome, Seq<char>>, failure: Option<(nat, Seq<char>)>) -> Result<
    StepOutcome,
    Seq<char>,
> {
    match reference {
        Err(e) => Err(e),
        Ok(o) => if outcome_error(o) is Some {
            Err(outcome_error(o)->Some_0)
        } else if o.step_flags & StepOutcome::TARGET_EXIT != 0 {
            Ok(o)
        } else {
            match failure {
                Some((i, e)) => if o.step_flags & StepOutcome::FAULT != 0 {
                    Err(
                        "both backends faulted while consuming instruction "@ + dec(i + 1) + "/"@ + dec(
                            o.decoded_instructions as nat,
                        ) + ": "@ + e,
                    )
                } else {
                    Err(e)
                },
                None => if o.step_flags & StepOutcome::FAULT != 0 {
                    Err(
                        "dosemu2 faulted after "@ + dec(o.decoded_instructions as nat)
                            + " decoded instruction(s), but emu86 did not"@,
                    )
                } else {
                    Ok(o)
                },
            }
        },
    }
}

/// A candidate's failing step as plain values.
pub open spec fn failure_view(failure: Option<(u32, String)>) -> Option<(nat, Seq<char>)> {
    match failure {
        Some((i, e)) => Some((i as nat, e@)),
        None => None,
    }
}

/// The result of a boundary (see `crossing`) from the reference's step
/// result and the candidate's failing step, by index, if any.
pub fn crossing_result(reference: Result<StepOutcome, String>, failure: Option<(u32, String)>) -> (r: Result<
    StepOutcome,
    String,
>)
    ensures
        result_view(r) == crossing(result_view(reference), failure_view(failure)),
{
    let outcome = match reference {
        Ok(o) => o,
        Err(e) => {
            return Err(e);
        },
    };
    match check_step_outcome(outcome) {
        Ok(()) => {},
        Err(e) => {
            return Err(e);
        },
    }
    if outcome.has(StepOutcome::TARGET_EXIT) {
        return Ok(outcome);
    }
    let n = outcome.decoded_instructions;
    match failure {
        Some((index, error)) => {
            if outcome.has(StepOutcome::FAULT) {
                let mut s = String::from_str("both backends faulted while consuming instruction ");
                push_dec(&mut s, index as u64 + 1);
                push_str(&mut s, "/");
                push_dec(&mut s, n as u64);
                push_str(&mut s, ": ");
                push_str(&mut s, error.as_str());
                return Err(s);
            }
            Err(error)
        },
        None => {
            if outcome.has(StepOutcome::FAULT) {
                let mut s = String::from_str("dosemu2 faulted after ");
                push_dec(&mut s, n as u64);
                push_str(&mut s, " decoded instruction(s), but emu86 did not");
                return Err(s);
            }
            Ok(outcome)
        },
    }
}

/// The candidate steps a boundary owes (see `owed_steps`).
fn owed(reference: &Result<StepOutcome, String>) -> (r: u32)
    ensures
        r == owed_steps(result_view(*reference)),
{
    match reference {
        Ok(o) => {
            let checked = check_step_outcome(*o);
            if checked.is_ok() && !o.has(StepOutcome::TARGET_EXIT) {
                o.decoded_instructions
            } else {
                0
            }
        },
        Err(_) => 0,
    }
}

/// Advances the reference by one boundary and the candidate by as many
/// instructions as the reference decoded in it, stopping at the
/// candidate's first failure. The result is `crossing` of the two: a
/// malformed boundary is refused, and a fault of either side is an error.
pub fn advance_candidate<R: Emu, C: Emu>(reference: &mut R, candidate: &mut C) -> (r: Result<StepOutcome, String>)
    ensures
        exists|ref_r: Result<StepOutcome, String>, states: Seq<C>, results: Seq<Result<StepOutcome, String>>|
            #[trigger] crossed(*old(reference), *final(reference), ref_r, *old(candidate), *final(candidate), states, results)
                && result_view(r) == crossing(result_view(ref_r), first_failure(results)),
        r matches Ok(o) ==> (*old(reference)).stepped(*final(reference), Ok(o)),
{
    let ref_r = reference.step();
    let n = owed(&ref_r);
    let ghost c0 = *candidate;
    let ghost mut states: Seq<C> = seq![*candidate];
    let ghost mut results: Seq<Result<StepOutcome, String>> = Seq::empty();
    let mut failure: Option<(u32, String)> = None;
    let mut index: u32 = 0;
    while index < n
        invariant_except_break
            index <= n,
            failure is None,
            results.len() == index,
            forall|i: int| 0 <= i < results.len() ==> (#[trigger] results[i]) is Ok,
        invariant
            chain(states, results),
            states[0] == c0,
            states.last() == *candidate,
            results.len() <= n,
            forall|i: int| 0 <= i < results.len() - 1 ==> (#[trigger] results[i]) is Ok,
        ensures
            chain(states, results),
            states[0] == c0,
            states.last() == *candidate,
            candidate_trace(n as nat, results),
            failure_view(failure) == first_failure(results),
        decreases n - index,
    {
        let stepped = candidate.step();
        proof {
            let s0 = states;
            let r0 = results;
            states = states.push(*candidate);
            results = results.push(stepped);
            assert forall|i: int| 0 <= i < results.len() implies (#[trigger] states[i]).stepped(
                states[i + 1],
                results[i],
            ) by {
                if i < r0.len() {
                    assert(s0[i].stepped(s0[i + 1], r0[i]));
                    assert(states[i] == s0[i] && states[i + 1] == s0[i + 1] && results[i] == r0[i]);
                }
            }
        }
        match stepped {
            Ok(_) => {},
            Err(error) => {
                failure = Some((index, error));
                break;
            },
        }
        index = index + 1;
    }
    proof {
        if results.len() > 0 && results.last() is Ok {
            assert(failure is None);
        }
    }
    let r = crossing_result(ref_r, failure);
    proof {
        assert(crossed(*old(reference), *reference, ref_r, c0, *candidate, states, results));
    }
    r
}

// ---------------------------------------------------------------------------
// Comparing memory
// ---------------------------------------------------------------------------

/// A byte that differs between the two backends within a compared window.
#[derive(Clone, Copy, Debug, PartialEq, Eq, Structural)]
pub struct MemoryDiff {
    pub abs: usize,
    pub reference_byte: u8,
    pub emu86_byte: u8,
}

/// The first byte where `reference` and `candidate` differ within their
/// first `len` bytes, reported at linear address `start` plus its index.
pub fn first_difference(start: usize, reference: &[u8], candidate: &[u8], len: usize) -> (r: Option<MemoryDiff>)
    requires
        len <= reference@.len(),
        len <= candidate@.len(),
        start + len <= usize::MAX,
    ensures
        r is None <==> forall|i: int| 0 <= i < len ==> reference@[i] == candidate@[i],
        r matches Some(d) ==> exists|i: int|
            0 <= i < len && d.abs == start + i && d.reference_byte == reference@[i] && d.emu86_byte
                == candidate@[i] && reference@[i] != candidate@[i] && forall|j: int|
                0 <= j < i ==> reference@[j] == candidate@[j],
{
    let mut i: usize = 0;
    while i < len
        invariant
            i <= len,
            start + len <= usize::MAX,
            len <= reference@.len(),
            len <= candidate@.len(),
            forall|j: int| 0 <= j < i ==> reference@[j] == candidate@[j],
        decreases len - i,
    {
        if reference[i] != candidate[i] {
            return Some(MemoryDiff { abs: start + i, reference_byte: reference[i], emu86_byte: candidate[i] });
        }
        i = i + 1;
    }
    None
}

/// How far a window is compared: up to the smaller of the two backends'
/// memories, and at most the machine's.
pub open spec fn compare_limit(a: usize, b: usize) -> usize {
    let m = if a < b {
        a
    } else {
        b
    };
    if m > MEM_SIZE {
        MEM_SIZE
    } else {
        m
    }
}

/// The end of `range` clamped to `limit`.
pub open spec fn clamped_end(range: MemoryRange, limit: usize) -> usize {
    if range.end < limit {
        range.end
    } else {
        limit
    }
}

/// The two backends agree on every byte from `start` up to `end`.
pub open spec fn range_agrees<R: Emu, C: Emu>(reference: &R, candidate: &C, start: usize, end: usize) -> bool {
    forall|a: usize| start <= a < end ==> #[trigger] reference.mem_byte(a) == candidate.mem_byte(a)
}

/// The two backends agree on the first `k` ranges, each clamped to
/// `limit`.
pub open spec fn ranges_agree<R: Emu, C: Emu>(
    reference: &R,
    candidate: &C,
    ranges: Seq<MemoryRange>,
    limit: usize,
    k: int,
) -> bool {
    forall|j: int| 0 <= j < k ==> range_agrees(reference, candidate, (#[trigger] ranges[j]).start, clamped_end(ranges[j], limit))
}

/// `d` is the first byte, ranges in order, where the two backends differ
/// within `ranges`, each clamped to `limit`: every byte before it agrees,
/// and it holds the two backends' bytes at its address.
pub open spec fn first_window_diff<R: Emu, C: Emu>(
    reference: &R,
    candidate: &C,
    ranges: Seq<MemoryRange>,
    limit: usize,
    d: MemoryDiff,
) -> bool {
    &&& exists|k: int|
        0 <= k < ranges.len() && (#[trigger] ranges[k]).start <= d.abs < clamped_end(ranges[k], limit)
            && ranges_agree(reference, candidate, ranges, limit, k) && range_agrees(
            reference,
            candidate,
            ranges[k].start,
            d.abs,
        )
    &&& d.reference_byte == reference.mem_byte(d.abs)
    &&& d.emu86_byte == candidate.mem_byte(d.abs)
    &&& d.reference_byte != d.emu86_byte
}

/// The first byte where the two backends differ within `window`, ranges in
/// order, each clamped to the smaller of the two backends' memory (and to
/// the machine's). A range that starts at or past its clamped end is
/// skipped.
pub fn compare_memory<R: Emu, C: Emu>(reference: &R, candidate: &C, window: &MemoryWindow) -> (r: Option<MemoryDiff>)
    requires
        forall|k: int|
            0 <= k < window.ranges@.len() ==> (#[trigger] window.ranges@[k]).start < 0x100000
                || window.ranges@[k].start >= window.ranges@[k].end,
    ensures
        r is None <==> ranges_agree(
            reference,
            candidate,
            window.ranges@,
            compare_limit(reference.mem_size(), candidate.mem_size()),
            window.ranges@.len() as int,
        ),
        r matches Some(d) ==> first_window_diff(
            reference,
            candidate,
            window.ranges@,
            compare_limit(reference.mem_size(), candidate.mem_size()),
            d,
        ),
{
    let a = reference.mem_len();
    let b = candidate.mem_len();
    let mut limit = if a < b {
        a
    } else {
        b
    };
    if limit > MEM_SIZE {
        limit = MEM_SIZE;
    }
    let ghost ranges = window.ranges@;
    let mut k: usize = 0;
    while k < window.ranges.len()
        invariant
            k <= ranges.len(),
            ranges == window.ranges@,
            limit == compare_limit(reference.mem_size(), candidate.mem_size()),
            forall|k: int|
                0 <= k < ranges.len() ==> (#[trigger] ranges[k]).start < 0x100000 || ranges[k].start >= ranges[k].end,
            ranges_agree(reference, candidate, ranges, limit, k as int),
        decreases ranges.len() - k,
    {
        let range = window.ranges[k];
        assert(ranges[k as int] == range);
        let start = range.start;
        let end = if range.end < limit {
            range.end
        } else {
            limit
        };
        if start < end {
            let len = end - start;
            let seg_off = seg_off_from_abs(start);
            let reference_bytes = reference.mem_slice(seg_off, len as u32);
            let candidate_bytes = candidate.mem_slice(seg_off, len as u32);
            match first_difference(start, reference_bytes, candidate_bytes, len) {
                Some(d) => {
                    proof {
                        let i = choose|i: int|
                            0 <= i < len && d.abs == start + i && d.reference_byte == reference_bytes@[i]
                                && d.emu86_byte == candidate_bytes@[i] && reference_bytes@[i] != candidate_bytes@[i]
                                && forall|j: int| 0 <= j < i ==> reference_bytes@[j] == candidate_bytes@[j];
                        assert(reference_bytes@[i] == reference.mem_byte((start + i) as usize));
                        assert(candidate_bytes@[i] == candidate.mem_byte((start + i) as usize));
                        assert forall|x: usize| start <= x < d.abs implies #[trigger] reference.mem_byte(x)
                            == candidate.mem_byte(x) by {
                            let j = x - start;
                            assert(reference_bytes@[j] == reference.mem_byte((start + j) as usize));
                            assert(candidate_bytes@[j] == candidate.mem_byte((start + j) as usize));
                        }
                        assert(ranges[k as int] == range);
                    }
                    return Some(d);
                },
                None => {
                    proof {
                        assert forall|x: usize| start <= x < end implies #[trigger] reference.mem_byte(x)
                            == candidate.mem_byte(x) by {
                            let j = x - start;
                            assert(reference_bytes@[j] == reference.mem_byte((start + j) as usize));
                            assert(candidate_bytes@[j] == candidate.mem_byte((start + j) as usize));
                        }
                    }
                },
            }
        }
        proof {
            assert forall|j: int| 0 <= j < k + 1 implies range_agrees(
                reference,
                candidate,
                (#[trigger] ranges[j]).start,
                clamped_end(ranges[j], limit),
            ) by {
                if j < k {
                } else {
                    assert(ranges[j] == range);
                }
            }
        }
        k = k + 1;
    }
    None
}

// ---------------------------------------------------------------------------
// Boundaries
// ---------------------------------------------------------------------------

/// The entry of the reference emulator's PIC interrupt handler.
pub open spec fn pic_handler() -> SegOff {
    SegOff { seg: Seg::Normal(0x0c77), off: Off(0x0096) }
}

/// An interrupt the reference entered at a boundary.
#[derive(Clone, Copy, Debug, PartialEq, Eq, Structural)]
pub enum Interrupt {
    NoInterrupt,
    Pic(SegOff),
}

/// The interrupt a backend standing at `addr` has entered: the PIC
/// handler's entry, or none.
pub open spec fn interrupt_of(addr: SegOff) -> Interrupt {
    if addr == pic_handler() {
        Interrupt::Pic(addr)
    } else {
        Interrupt::NoInterrupt
    }
}

/// The interrupt a backend standing at `addr` has entered (see
/// `interrupt_of`).
pub fn interrupt_at(addr: SegOff) -> (r: Interrupt)
    ensures
        r == interrupt_of(addr),
{
    let pic = SegOff::new(0x0c77, 0x0096);
    if addr == pic {
        Interrupt::Pic(pic)
    } else {
        Interrupt::NoInterrupt
    }
}

/// The interrupt the backend has entered, judged by where it stands.
pub fn detect_interrupts<E: Emu>(emu: &E) -> (r: Interrupt)
    ensures
        r == interrupt_of(emu.addr()),
{
    interrupt_at(emu.instr_addr())
}

/// Whether two register files agree on every register.
pub fn states_match(reference: &Cpu, emu86: &Cpu) -> (r: bool)
    ensures
        r == (reference.regs@ == emu86.regs@),
{
    let mut i: usize = 0;
    while i < NUM_REGS
        invariant
            i <= NUM_REGS,
            reference.regs@.len() == NUM_REGS,
            emu86.regs@.len() == NUM_REGS,
            forall|k: int| 0 <= k < i ==> reference.regs@[k] == emu86.regs@[k],
        decreases NUM_REGS - i,
    {
        if reference.regs[i] != emu86.regs[i] {
            return false;
        }
        i = i + 1;
    }
    assert(reference.regs@ =~= emu86.regs@);
    true
}

/// Whether the two backends' registers agree.
pub fn match_states<R: Emu, C: Emu>(reference: &R, emu86: &C) -> (r: bool)
    ensures
        r == (reference.cpu().regs@ == emu86.cpu().regs@),
{
    let r = reference.cpu_state();
    let e = emu86.cpu_state();
    states_match(&r, &e)
}

/// The line of a changed register: `  NAME | 0xprev => 0xcur`, in lower
/// case.
pub open spec fn change_line(i: int, prev: u16, cur: u16) -> Seq<char> {
    "  "@ + reg_name_spec(i)@ + " | 0x"@ + hex_pad(prev as nat, 4, false) + " => 0x"@ + hex_pad(cur as nat, 4, false)
        + "\n"@
}

/// The lines of the registers among the first `n` that changed.
pub open spec fn changes_upto(prev: Seq<u16>, cur: Seq<u16>, n: nat) -> Seq<char>
    decreases n,
{
    if n == 0 {
        Seq::empty()
    } else {
        let rest = changes_upto(prev, cur, (n - 1) as nat);
        if prev[n - 1] != cur[n - 1] {
            rest + change_line(n - 1, prev[n - 1], cur[n - 1])
        } else {
            rest
        }
    }
}

/// The registers that changed from `prev` to `cur`, one line each.
pub fn format_changes(prev: &Cpu, cur: &Cpu) -> (r: String)
    ensures
        r@ == changes_upto(prev.regs@, cur.regs@, NUM_REGS as nat),
{
    let mut out = String::new();
    let mut i: usize = 0;
    while i < NUM_REGS
        invariant
            i <= NUM_REGS,
            out@ == changes_upto(prev.regs@, cur.regs@, i as nat),
        decreases NUM_REGS - i,
    {
        format_change_reg(&mut out, i, prev, cur);
        i = i + 1;
    }
    out
}

/// Appends the line of register `i` when it changed.
pub fn format_change_reg(out: &mut String, i: usize, prev: &Cpu, cur: &Cpu)
    requires
        i < NUM_REGS,
    ensures
        final(out)@ == old(out)@ + if prev.regs@[i as int] != cur.regs@[i as int] {
            change_line(i as int, prev.regs@[i as int], cur.regs@[i as int])
        } else {
            Seq::empty()
        },
{
    let p = prev.regs[i];
    let c = cur.regs[i];
    if p != c {
        push_str(out, "  ");
        push_str(out, reg_name(i));
        push_str(out, " | 0x");
        push_hex(out, p as u32, 4, false);
        push_str(out, " => 0x");
        push_hex(out, c as u32, 4, false);
        push_str(out, "\n");
    } else {
        assert(out@ =~= old(out)@ + Seq::<char>::empty());
    }
}

/// An address as text: `ssss:oooo`, in lower case.
pub open spec fn segoff_text(a: SegOff) -> Seq<char> {
    hex_pad(seg_value(a.seg) as nat, 4, false) + ":"@ + hex_pad(a.off.0 as nat, 4, false)
}

fn push_segoff(out: &mut String, a: SegOff)
    ensures
        final(out)@ == old(out)@ + segoff_text(a),
{
    push_hex(out, a.seg.unwrap_normal() as u32, 4, false);
    push_str(out, ":");
    push_hex(out, a.off.0 as u32, 4, false);
}

/// The report of a divergence: where each backend stood, what each
/// changed in its last step, both states, and the first differing byte
/// of memory when memory diverged.
pub open spec fn failure_text(
    reference_addr: SegOff,
    emu86_addr: SegOff,
    reference_last: Seq<u16>,
    reference_now: Seq<u16>,
    emu86_last: Seq<u16>,
    emu86_now: Seq<u16>,
    diff: Option<MemoryDiff>,
) -> Seq<char> {
    "\nState divergence:\n  dosemu2 @  "@ + segoff_text(reference_addr) + "\n  emu86   @  "@ + segoff_text(emu86_addr)
        + "\n\n"@ + "dosemu2 changes:\n"@ + changes_upto(reference_last, reference_now, NUM_REGS as nat)
        + "\nemu86 changes:\n"@ + changes_upto(emu86_last, emu86_now, NUM_REGS as nat) + "\ndosemu2 state:\n"@
        + regs_text(reference_now) + "\n"@ + "emu86 state:\n"@ + regs_text(emu86_now) + "\n"@ + match diff {
        Some(d) => "\nmemory divergence at abs 0x"@ + hex_pad(d.abs as nat, 1, false) + ": dosemu2="@ + hex_pad(
            d.reference_byte as nat,
            2,
            false,
        ) + " emu86="@ + hex_pad(d.emu86_byte as nat, 2, false),
        None => Seq::empty(),
    }
}

/// The report of a divergence (see `failure_text`).
pub fn failure_report(
    reference_addr: SegOff,
    emu86_addr: SegOff,
    reference_last: &Cpu,
    reference_now: &Cpu,
    emu86_last: &Cpu,
    emu86_now: &Cpu,
    diff: Option<MemoryDiff>,
) -> (r: String)
    ensures
        r@ == failure_text(
            reference_addr,
            emu86_addr,
            reference_last.regs@,
            reference_now.regs@,
            emu86_last.regs@,
            emu86_now.regs@,
            diff,
        ),
{
    let mut out = String::from_str("\nState divergence:\n  dosemu2 @  ");
    push_segoff(&mut out, reference_addr);
    push_str(&mut out, "\n  emu86   @  ");
    push_segoff(&mut out, emu86_addr);
    push_str(&mut out, "\n\n");
    push_str(&mut out, "dosemu2 changes:\n");
    let rc = format_changes(reference_last, reference_now);
    push_str(&mut out, rc.as_str());
    push_str(&mut out, "\nemu86 changes:\n");
    let ec = format_changes(emu86_last, emu86_now);
    push_str(&mut out, ec.as_str());
    push_str(&mut out, "\ndosemu2 state:\n");
    let rs = cpu_text(reference_now);
    push_str(&mut out, rs.as_str());
    push_str(&mut out, "\n");
    push_str(&mut out, "emu86 state:\n");
    let es = cpu_text(emu86_now);
    push_str(&mut out, es.as_str());
    push_str(&mut out, "\n");
    match diff {
        Some(d) => {
            push_str(&mut out, "\nmemory divergence at abs 0x");
            push_hex_wide(&mut out, d.abs as u64, 1, false);
            push_str(&mut out, ": dosemu2=");
            push_hex(&mut out, d.reference_byte as u32, 2, false);
            push_str(&mut out, " emu86=");
            push_hex(&mut out, d.emu86_byte as u32, 2, false);
        },
        None => {
            assert(out@ =~= out@ + Seq::<char>::empty());
        },
    }
    out
}

/// What follows a boundary both backends crossed.
#[derive(Clone, Copy, Debug, PartialEq, Eq, Structural)]
pub enum Boundary {
    /// The guest program ended: the validation is over.
    Exit,
    /// The run goes on; the reference entered this interrupt, which the
    /// candidate must enter too before the states are compared.
    Continue(Interrupt),
}

/// A boundary's outcome with its error as text.
pub open spec fn boundary_view(r: Result<Boundary, String>) -> Result<Boundary, Seq<char>> {
    match r {
        Ok(b) => Ok(b),
        Err(e) => Err(e@),
    }
}

/// What follows a crossing whose result is `c`: its error; the end of the
/// run when the guest exited or the reference reports itself `finished`;
/// otherwise the interrupt of the reference standing at `addr`.
pub open spec fn boundary_after(c: Result<StepOutcome, Seq<char>>, finished: bool, addr: SegOff) -> Result<
    Boundary,
    Seq<char>,
> {
    match c {
        Err(e) => Err(e),
        Ok(o) => if o.step_flags & StepOutcome::TARGET_EXIT != 0 || finished {
            Ok(Boundary::Exit)
        } else {
            Ok(Boundary::Continue(interrupt_of(addr)))
        },
    }
}

/// Crosses one boundary: advances both backends (see `advance_candidate`)
/// and tells whether the run ended and which interrupt the reference
/// entered.
pub fn advance_boundary<R: Emu, C: Emu>(reference: &mut R, emu86: &mut C) -> (r: Result<Boundary, String>)
    ensures
        exists|ref_r: Result<StepOutcome, String>, states: Seq<C>, results: Seq<Result<StepOutcome, String>>|
            #[trigger] crossed(*old(reference), *final(reference), ref_r, *old(emu86), *final(emu86), states, results)
                && boundary_view(r) == boundary_after(
                crossing(result_view(ref_r), first_failure(results)),
                final(reference).done(),
                final(reference).addr(),
            ),
{
    let crossed_r = advance_candidate(reference, emu86);
    let ghost w = choose|ref_r: Result<StepOutcome, String>, states: Seq<C>, results: Seq<Result<StepOutcome, String>>|
        #[trigger] crossed(*old(reference), *reference, ref_r, *old(emu86), *emu86, states, results)
            && result_view(crossed_r) == crossing(result_view(ref_r), first_failure(results));
    let outcome = match crossed_r {
        Ok(o) => o,
        Err(e) => {
            assert(crossed(*old(reference), *reference, w.0, *old(emu86), *emu86, w.1, w.2));
            return Err(e);
        },
    };
    if outcome.has(StepOutcome::TARGET_EXIT) || reference.finished() {
        assert(crossed(*old(reference), *reference, w.0, *old(emu86), *emu86, w.1, w.2));
        return Ok(Boundary::Exit);
    }
    let i = detect_interrupts(reference);
    assert(crossed(*old(reference), *reference, w.0, *old(emu86), *emu86, w.1, w.2));
    Ok(Boundary::Continue(i))
}

/// The result of a validation run once the reference was shut down: the
/// shutdown's result when the validation passed; otherwise the
/// validation's error, with the shutdown's error appended when it failed
/// too.
pub open spec fn run_result(validation: Result<(), Seq<char>>, shutdown: Result<(), Seq<char>>) -> Result<(), Seq<char>> {
    match (validation, shutdown) {
        (Ok(()), r) => r,
        (Err(e), Ok(())) => Err(e),
        (Err(e), Err(f)) => Err(e + "\nAdditionally, backend shutdown failed: "@ + f),
    }
}

/// A unit result with its error as text.
pub open spec fn unit_view(r: Result<(), String>) -> Result<(), Seq<char>> {
    match r {
        Ok(()) => Ok(()),
        Err(e) => Err(e@),
    }
}

/// Combines a validation's result with the shutdown's (see `run_result`).
pub fn combine_run_results(validation: Result<(), String>, shutdown: Result<(), String>) -> (r: Result<(), String>)
    ensures
        unit_view(r) == run_result(unit_view(validation), unit_view(shutdown)),
{
    match validation {
        Ok(()) => shutdown,
        Err(error) => match shutdown {
            Ok(()) => Err(error),
            Err(shutdown_error) => {
                let mut s = error;
                push_str(&mut s, "\nAdditionally, backend shutdown failed: ");
                push_str(&mut s, shutdown_error.as_str());
                Err(s)
            },
        },
    }
}

/// Compares the two backends after a boundary: every register, then the
/// memory window when there is one. A divergence is reported with where
/// each backend stood before the boundary: the report of `failure_text`
/// at those two addresses, naming the first differing byte of the window
/// (see `compare_memory`) when only memory diverged.
pub fn check_boundary<R: Emu, C: Emu>(
    reference: &R,
    emu86: &C,
    window: Option<&MemoryWindow>,
    reference_addr: SegOff,
    emu86_addr: SegOff,
) -> (r: Result<(), String>)
    requires
        window matches Some(w) ==> forall|k: int|
            0 <= k < w.ranges@.len() ==> (#[trigger] w.ranges@[k]).start < 0x100000 || w.ranges@[k].start
                >= w.ranges@[k].end,
    ensures
        reference.cpu().regs@ != emu86.cpu().regs@ ==> (r matches Err(e) && e@ == failure_text(
            reference_addr,
            emu86_addr,
            reference.last_cpu().regs@,
            reference.cpu().regs@,
            emu86.last_cpu().regs@,
            emu86.cpu().regs@,
            None,
        )),
        reference.cpu().regs@ == emu86.cpu().regs@ && window is None ==> r is Ok,
        reference.cpu().regs@ == emu86.cpu().regs@ && window is Some ==> (r is Ok <==> ranges_agree(
            reference,
            emu86,
            window->Some_0.ranges@,
            compare_limit(reference.mem_size(), emu86.mem_size()),
            window->Some_0.ranges@.len() as int,
        )),
        reference.cpu().regs@ == emu86.cpu().regs@ && window is Some ==> (r matches Err(e) ==> exists|d: MemoryDiff|
            first_window_diff(
                reference,
                emu86,
                window->Some_0.ranges@,
                compare_limit(reference.mem_size(), emu86.mem_size()),
                d,
            ) && #[trigger] failure_text(
                reference_addr,
                emu86_addr,
                reference.last_cpu().regs@,
                reference.cpu().regs@,
                emu86.last_cpu().regs@,
                emu86.cpu().regs@,
                Some(d),
            ) == e@),
{
    let reference_now = reference.cpu_state();
    let emu86_now = emu86.cpu_state();
    let diff = if !states_match(&reference_now, &emu86_now) {
        None
    } else {
        match window {
            Some(w) => match compare_memory(reference, emu86, w) {
                Some(d) => Some(d),
                None => {
                    return Ok(());
                },
            },
            None => {
                return Ok(());
            },
        }
    };
    let reference_last = reference.last_cpu_state();
    let emu86_last = emu86.last_cpu_state();
    let e = failure_report(
        reference_addr,
        emu86_addr,
        &reference_last,
        &reference_now,
        &emu86_last,
        &emu86_now,
        diff,
    );
    proof {
        assert(failure_text(
            reference_addr,
            emu86_addr,
            reference_last.regs@,
            reference_now.regs@,
            emu86_last.regs@,
            emu86_now.regs@,
            diff,
        ) == e@);
    }
    Err(e)
}

// ---------------------------------------------------------------------------
// The corpus
// ---------------------------------------------------------------------------

/// The differential corpus: short terminating programs of register
/// arithmetic and moves, ending in the DOS terminate service.
pub fn corpus_fixtures() -> (r: Result<Vec<Fixture>, String>)
    ensures
        r matches Ok(v) && v@.len() == 2 && v@[0].name@ == "terminating_smoke"@ && v@[0].code@ == seq![
            0xb8u8, 0x34, 0x12, 0xbb, 0xff, 0x00, 0x01, 0xd8, 0xb8, 0x00, 0x4c, 0xcd, 0x21,
        ] && v@[0].scratch@.len() == 0 && v@[1].name@ == "register_mutation_smoke"@ && v@[1].code@ == seq![
            0xb8u8, 0x34, 0x12, 0x89, 0xc3, 0x01, 0xd8, 0x31, 0xc9, 0x41, 0x93, 0x89, 0xca, 0xb8, 0x00, 0x4c, 0xcd, 0x21,
        ] && v@[1].scratch@.len() == 0,
{
    let terminating = Fixture::new(
        "terminating_smoke",
        vec![
            0xb8u8, 0x34, 0x12,  // mov ax,1234h
            0xbb, 0xff, 0x00,  // mov bx,00ffh
            0x01, 0xd8,  // add ax,bx
            0xb8, 0x00, 0x4c,  // mov ax,4c00h
            0xcd, 0x21,  // int 21h
        ],
    );
    let register_smoke = Fixture::new(
        "register_mutation_smoke",
        vec![
            0xb8u8, 0x34, 0x12,  // mov ax,1234h
            0x89, 0xc3,  // mov bx,ax
            0x01, 0xd8,  // add ax,bx
            0x31, 0xc9,  // xor cx,cx
            0x41,  // inc cx
            0x93,  // xchg bx,ax
            0x89, 0xca,  // mov dx,cx
            0xb8, 0x00, 0x4c,  // mov ax,4c00h
            0xcd, 0x21,  // int 21h
        ],
    );
    let mut v: Vec<Fixture> = Vec::new();
    v.push(terminating);
    v.push(register_smoke);
    Ok(v)
}

// ---------------------------------------------------------------------------
// What to validate
// ---------------------------------------------------------------------------

/// What a validator run checks: one executable, or the corpus with its
/// images written under a directory.
#[derive(Clone, Debug, PartialEq, Eq)]
pub enum ValidatorTarget {
    Exe(String),
    Corpus(String),
}

/// A backend name the validator accepts, in any case.
pub open spec fn known_backend(name: Seq<char>) -> bool {
    lowercase(name) == "dosemu2"@ || lowercase(name) == "dosemu"@
}

/// The target chosen by the `--exe`, `--corpus` and `--backend` options:
/// an unknown backend is refused first; then the corpus, which excludes an
/// executable; then the executable, which one of the two must give.
pub open spec fn target_choice(exe: Option<String>, corpus: Option<String>, backend: Option<String>) -> Result<
    ValidatorTarget,
    Seq<char>,
> {
    if backend is Some && !known_backend(backend->Some_0@) {
        Err("unknown emulator backend '"@ + lowercase(backend->Some_0@) + "'. Expected 'dosemu2'."@)
    } else if corpus is Some {
        if exe is Some {
            Err("--corpus and --exe are mutually exclusive."@)
        } else {
            Ok(ValidatorTarget::Corpus(corpus->Some_0))
        }
    } else if exe is Some {
        Ok(ValidatorTarget::Exe(exe->Some_0))
    } else {
        Err("one of --exe or --corpus is required."@)
    }
}

/// Chooses what to validate from the command-line options.
pub fn select_target(exe: Option<String>, corpus: Option<String>, backend: Option<String>) -> (r: Result<
    ValidatorTarget,
    String,
>)
    ensures
        match (r, target_choice(exe, corpus, backend)) {
            (Ok(t), Ok(u)) => t == u,
            (Err(e), Err(m)) => e@ == m,
            _ => false,
        },
{
    match &backend {
        Some(b) => {
            let lower = to_lowercase(b.as_str());
            let d2 = String::from_str("dosemu2");
            let d1 = String::from_str("dosemu");
            if !(lower == d2 || lower == d1) {
                let mut msg = String::from_str("unknown emulator backend '");
                push_str(&mut msg, lower.as_str());
                push_str(&mut msg, "'. Expected 'dosemu2'.");
                return Err(msg);
            }
        },
        None => {},
    }
    match corpus {
        Some(c) => {
            if exe.is_some() {
                return Err(String::from_str("--corpus and --exe are mutually exclusive."));
            }
            Ok(ValidatorTarget::Corpus(c))
        },
        None => match exe {
            Some(e) => Ok(ValidatorTarget::Exe(e)),
            None => Err(String::from_str("one of --exe or --corpus is required.")),
        },
    }
}

} // verus!
