use vstd::prelude::*;
use vstd::string::StringExecFns;
use crate::emu::StepOutcome;
use crate::text::{dec, hex_pad, push_dec, push_hex, push_hex_wide, push_str};

verus! {

// ---------------------------------------------------------------------------
// Verdicts of the runtime probes
//
// The probes drive a live reference emulator through its shared control
// block and low memory, one request at a time, and hold what it publishes
// to what the probe program must produce. These are the checks, on the
// values read; each error is the head of the probe's message (the driver
// appends a snapshot of the control block).
// ---------------------------------------------------------------------------

/// The version and size of the control block the probes speak.
pub const CONTROL_ABI_VERSION: u32 = 1;
pub const CONTROL_ABI_SIZE: u32 = 88;

/// `v` as four lower-case hexadecimal digits.
pub open spec fn hex4(v: u16) -> Seq<char> {
    hex_pad(v as nat, 4, false)
}

/// The control block has the expected version and size.
pub open spec fn abi_error(abi: u32, size: u32) -> Option<Seq<char>> {
    if abi != CONTROL_ABI_VERSION || size != CONTROL_ABI_SIZE {
        Some("unexpected control ABI: version="@ + dec(abi as nat) + ", size="@ + dec(size as nat))
    } else {
        None
    }
}

/// Checks the control block's version and size (see `abi_error`).
pub fn abi_verdict(abi: u32, size: u32) -> (r: Result<(), String>)
    ensures
        r is Ok <==> abi_error(abi, size) is None,
        r matches Err(e) ==> Some(e@) == abi_error(abi, size),
{
    if abi != CONTROL_ABI_VERSION || size != CONTROL_ABI_SIZE {
        let mut m = String::from_str("unexpected control ABI: version=");
        push_dec(&mut m, abi as u64);
        push_str(&mut m, ", size=");
        push_dec(&mut m, size as u64);
        return Err(m);
    }
    Ok(())
}

/// The segment the probe image is loaded at: the paragraph after the PSP.
pub open spec fn image_segment(psp: u16) -> u16 {
    ((psp + 0x10) % 0x10000) as u16
}

/// The PSP was published and the entry CS is the image's segment; the
/// result is that segment.
pub open spec fn entry_result(psp: u16, cs: u16) -> Result<u16, Seq<char>> {
    if psp == 0 {
        Err("runtime PSP was not published"@)
    } else if cs != image_segment(psp) {
        Err(
            "expected entry CS="@ + hex4(image_segment(psp)) + " from PSP="@ + hex4(psp) + ", got "@ + hex4(cs),
        )
    } else {
        Ok(image_segment(psp))
    }
}

/// Checks the published PSP and entry CS (see `entry_result`).
pub fn entry_verdict(psp: u16, cs: u16) -> (r: Result<u16, String>)
    ensures
        match (r, entry_result(psp, cs)) {
            (Ok(a), Ok(b)) => a == b,
            (Err(a), Err(b)) => a@ == b,
            _ => false,
        },
{
    if psp == 0 {
        return Err(String::from_str("runtime PSP was not published"));
    }
    let image: u16 = psp.wrapping_add(0x10);
    if cs != image {
        let mut m = String::from_str("expected entry CS=");
        push_hex(&mut m, image as u32, 4, false);
        push_str(&mut m, " from PSP=");
        push_hex(&mut m, psp as u32, 4, false);
        push_str(&mut m, ", got ");
        push_hex(&mut m, cs as u32, 4, false);
        return Err(m);
    }
    Ok(image)
}

/// The linear address of the probe image's sentinel word, 0x20 bytes into
/// the image, which must lie within low memory.
pub open spec fn sentinel_result(image: u16, lowmem_len: usize) -> Result<usize, Seq<char>> {
    let sentinel = image * 16 + 0x20;
    if sentinel + 2 > lowmem_len {
        Err(
            "sentinel linear address 0x"@ + hex_pad(sentinel as nat, 1, false) + " exceeds /dosemu_mem size 0x"@
                + hex_pad(lowmem_len as nat, 1, false),
        )
    } else {
        Ok(sentinel as usize)
    }
}

/// Locates the sentinel (see `sentinel_result`).
pub fn sentinel_verdict(image: u16, lowmem_len: usize) -> (r: Result<usize, String>)
    ensures
        match (r, sentinel_result(image, lowmem_len)) {
            (Ok(a), Ok(b)) => a == b,
            (Err(a), Err(b)) => a@ == b,
            _ => false,
        },
{
    let sentinel: usize = image as usize * 16 + 0x20;
    if lowmem_len < 2 || sentinel > lowmem_len - 2 {
        let mut m = String::from_str("sentinel linear address 0x");
        push_hex_wide(&mut m, sentinel as u64, 1, false);
        push_str(&mut m, " exceeds /dosemu_mem size 0x");
        push_hex_wide(&mut m, lowmem_len as u64, 1, false);
        return Err(m);
    }
    Ok(sentinel)
}

/// What a stepped request published is wrong about, if anything: the
/// target exited, the end was acknowledged, not one instruction was
/// decoded, or AX and IP are not the expected ones.
pub open spec fn step_error_of(req: u64, flags: u32, decoded: u32, ax: u16, ip: u16, expected_ip: u16, expected_ax: u16) -> Option<
    Seq<char>,
> {
    if flags & StepOutcome::TARGET_EXIT != 0 {
        Some("target exited while waiting for request "@ + dec(req as nat))
    } else if flags & StepOutcome::END_ACK != 0 {
        Some("unexpected END_ACK while waiting for request "@ + dec(req as nat))
    } else if decoded != 1 {
        Some("request "@ + dec(req as nat) + ": expected one decoded instruction, got "@ + dec(decoded as nat))
    } else if ax != expected_ax || ip != expected_ip {
        Some(
            "request "@ + dec(req as nat) + ": expected AX="@ + hex4(expected_ax) + " IP="@ + hex4(expected_ip)
                + ", got AX="@ + hex4(ax) + " IP="@ + hex4(ip),
        )
    } else {
        None
    }
}

/// Checks what a stepped request published (see `step_error_of`).
pub fn step_verdict(req: u64, flags: u32, decoded: u32, ax: u16, ip: u16, expected_ip: u16, expected_ax: u16) -> (r: Result<
    (),
    String,
>)
    ensures
        r is Ok <==> step_error_of(req, flags, decoded, ax, ip, expected_ip, expected_ax) is None,
        r matches Err(e) ==> Some(e@) == step_error_of(req, flags, decoded, ax, ip, expected_ip, expected_ax),
{
    if flags & StepOutcome::TARGET_EXIT != 0 {
        let mut m = String::from_str("target exited while waiting for request ");
        push_dec(&mut m, req);
        return Err(m);
    }
    if flags & StepOutcome::END_ACK != 0 {
        let mut m = String::from_str("unexpected END_ACK while waiting for request ");
        push_dec(&mut m, req);
        return Err(m);
    }
    if decoded != 1 {
        let mut m = String::from_str("request ");
        push_dec(&mut m, req);
        push_str(&mut m, ": expected one decoded instruction, got ");
        push_dec(&mut m, decoded as u64);
        return Err(m);
    }
    if ax != expected_ax || ip != expected_ip {
        let mut m = String::from_str("request ");
        push_dec(&mut m, req);
        push_str(&mut m, ": expected AX=");
        push_hex(&mut m, expected_ax as u32, 4, false);
        push_str(&mut m, " IP=");
        push_hex(&mut m, expected_ip as u32, 4, false);
        push_str(&mut m, ", got AX=");
        push_hex(&mut m, ax as u32, 4, false);
        push_str(&mut m, " IP=");
        push_hex(&mut m, ip as u32, 4, false);
        return Err(m);
    }
    Ok(())
}

/// Where the probe reads the sentinel word.
#[derive(Clone, Copy, Debug, PartialEq, Eq, Structural)]
pub enum SentinelRead {
    /// Before the first request: the image's initial value.
    Loaded,
    /// After the guest stored AX into it.
    GuestWritten,
    /// Right after the end acknowledgement.
    AfterEnd,
    /// A while after the end acknowledgement.
    StableAfterEnd,
}

/// The value the sentinel must hold at each read.
pub open spec fn sentinel_expected(at: SentinelRead) -> u16 {
    match at {
        SentinelRead::Loaded => 0x1111,
        _ => 0x1235,
    }
}

/// What is wrong with a sentinel read, if anything.
pub open spec fn sentinel_error(at: SentinelRead, value: u16) -> Option<Seq<char>> {
    if value == sentinel_expected(at) {
        None
    } else {
        Some(
            match at {
                SentinelRead::Loaded => "probe image sentinel not visible through /dosemu_mem: expected 1111, got "@,
                SentinelRead::GuestWritten => "guest write not visible through /dosemu_mem: expected 1235, got "@,
                SentinelRead::AfterEnd => "instruction after end barrier executed: sentinel changed to "@,
                SentinelRead::StableAfterEnd => "sentinel changed after END_ACK: "@,
            } + hex4(value),
        )
    }
}

/// Checks a sentinel read (see `sentinel_error`).
pub fn sentinel_read_verdict(at: SentinelRead, value: u16) -> (r: Result<(), String>)
    ensures
        r is Ok <==> sentinel_error(at, value) is None,
        r matches Err(e) ==> Some(e@) == sentinel_error(at, value),
{
    let expected: u16 = match at {
        SentinelRead::Loaded => 0x1111,
        _ => 0x1235,
    };
    if value == expected {
        return Ok(());
    }
    let mut m = match at {
        SentinelRead::Loaded => String::from_str("probe image sentinel not visible through /dosemu_mem: expected 1111, got "),
        SentinelRead::GuestWritten => String::from_str("guest write not visible through /dosemu_mem: expected 1235, got "),
        SentinelRead::AfterEnd => String::from_str("instruction after end barrier executed: sentinel changed to "),
        SentinelRead::StableAfterEnd => String::from_str("sentinel changed after END_ACK: "),
    };
    push_hex(&mut m, value as u32, 4, false);
    Err(m)
}

/// The DOS service request was acknowledged at the boundary after the
/// service: no flags, one decoded instruction, back in the image at IP
/// 000Eh, AX changed by the service.
pub open spec fn service_return_ok(flags: u32, decoded: u32, ax: u16, cs: u16, ip: u16, image: u16) -> bool {
    flags == 0 && decoded == 1 && cs == image && ip == 0x000e && ax != 0x3000
}

/// Checks the boundary after the DOS service (see `service_return_ok`).
pub fn service_return_verdict(flags: u32, decoded: u32, ax: u16, cs: u16, ip: u16, image: u16) -> (r: Result<(), String>)
    ensures
        r is Ok <==> service_return_ok(flags, decoded, ax, cs, ip, image),
        r matches Err(e) ==> e@ == "DOS service was not acknowledged at the normalized post-service boundary"@,
{
    if flags != 0 || decoded != 1 || cs != image || ip != 0x000e || ax == 0x3000 {
        return Err(String::from_str("DOS service was not acknowledged at the normalized post-service boundary"));
    }
    Ok(())
}

/// The target consumed the service's result: BX holds the AX the service
/// returned.
pub open spec fn service_result_error(ax: u16, bx: u16) -> Option<Seq<char>> {
    if bx != ax {
        Some("post-service AX was not consumable by target code: AX="@ + hex4(ax) + ", BX="@ + hex4(bx))
    } else {
        None
    }
}

/// Checks that the target consumed the service's result (see
/// `service_result_error`).
pub fn service_result_verdict(ax: u16, bx: u16) -> (r: Result<(), String>)
    ensures
        r is Ok <==> service_result_error(ax, bx) is None,
        r matches Err(e) ==> Some(e@) == service_result_error(ax, bx),
{
    if bx != ax {
        let mut m = String::from_str("post-service AX was not consumable by target code: AX=");
        push_hex(&mut m, ax as u32, 4, false);
        push_str(&mut m, ", BX=");
        push_hex(&mut m, bx as u32, 4, false);
        return Err(m);
    }
    Ok(())
}

/// The target's exit was published alone: the exit flag, no decoded
/// instruction, and the PSP withdrawn.
pub open spec fn target_exit_ok(flags: u32, decoded: u32, psp: u16) -> bool {
    flags == StepOutcome::TARGET_EXIT && decoded == 0 && psp == 0
}

/// Checks the target's exit publication (see `target_exit_ok`).
pub fn target_exit_verdict(flags: u32, decoded: u32, psp: u16) -> (r: Result<(), String>)
    ensures
        r is Ok <==> target_exit_ok(flags, decoded, psp),
        r matches Err(e) ==> e@ == "inconsistent TARGET_EXIT publication"@,
{
    if flags != StepOutcome::TARGET_EXIT || decoded != 0 || psp != 0 {
        return Err(String::from_str("inconsistent TARGET_EXIT publication"));
    }
    Ok(())
}

/// The control block of the handler-return probe is initialised: the
/// expected version and size, and a published PSP.
pub open spec fn initialized_ok(abi: u32, size: u32, psp: u16) -> bool {
    abi == CONTROL_ABI_VERSION && size == CONTROL_ABI_SIZE && psp != 0
}

/// Checks the handler-return probe's control block (see `initialized_ok`).
pub fn initialized_verdict(abi: u32, size: u32, psp: u16) -> (r: Result<(), String>)
    ensures
        r is Ok <==> initialized_ok(abi, size, psp),
        r matches Err(e) ==> e@ == "invalid initialized control block"@,
{
    if abi != CONTROL_ABI_VERSION || size != CONTROL_ABI_SIZE || psp == 0 {
        return Err(String::from_str("invalid initialized control block"));
    }
    Ok(())
}

/// A request consumed one instruction ending at IP `expected_ip`, with
/// neither the end acknowledged nor the target exited.
pub open spec fn single_ok(decoded: u32, ip: u16, flags: u32, expected_ip: u16) -> bool {
    decoded == 1 && ip == expected_ip && flags & (StepOutcome::END_ACK | StepOutcome::TARGET_EXIT) == 0
}

/// Checks a single-instruction request (see `single_ok`).
pub fn single_verdict(decoded: u32, ip: u16, flags: u32, expected_ip: u16) -> (r: Result<(), String>)
    ensures
        r is Ok <==> single_ok(decoded, ip, flags, expected_ip),
        r matches Err(e) ==> e@ == "expected single instruction ending at IP="@ + hex4(expected_ip),
{
    if decoded != 1 || ip != expected_ip || flags & (StepOutcome::END_ACK | StepOutcome::TARGET_EXIT) != 0 {
        let mut m = String::from_str("expected single instruction ending at IP=");
        push_hex(&mut m, expected_ip as u32, 4, false);
        return Err(m);
    }
    Ok(())
}

/// The DOS service had set interrupt vector 60h to the target's handler,
/// `target_cs`:000Ah, when the request was acknowledged.
pub open spec fn vector_error(off: u16, seg: u16, target_cs: u16) -> Option<Seq<char>> {
    if off != 0x000a || seg != target_cs {
        Some("DOS service had not completed at ACK: vector 60h="@ + hex4(seg) + ":"@ + hex4(off))
    } else {
        None
    }
}

/// Checks interrupt vector 60h (see `vector_error`).
pub fn vector_verdict(off: u16, seg: u16, target_cs: u16) -> (r: Result<(), String>)
    ensures
        r is Ok <==> vector_error(off, seg, target_cs) is None,
        r matches Err(e) ==> Some(e@) == vector_error(off, seg, target_cs),
{
    if off != 0x000a || seg != target_cs {
        let mut m = String::from_str("DOS service had not completed at ACK: vector 60h=");
        push_hex(&mut m, seg as u32, 4, false);
        push_str(&mut m, ":");
        push_hex(&mut m, off as u32, 4, false);
        return Err(m);
    }
    Ok(())
}

/// A register the handler-return probe checks after a request.
#[derive(Clone, Copy, Debug, PartialEq, Eq, Structural)]
pub enum HandlerCheck {
    /// DX after `MOV DX,000Ah`.
    MovDx,
    /// AX after `MOV AX,2560h`.
    MovAx,
    /// SI after `MOV SI,AX`, which must hold the AX the service returned.
    SiIsolated,
}

/// The message of a failed register check.
pub open spec fn handler_message(c: HandlerCheck) -> Seq<char> {
    match c {
        HandlerCheck::MovDx => "MOV DX did not execute"@,
        HandlerCheck::MovAx => "MOV AX did not execute"@,
        HandlerCheck::SiIsolated => "post-service MOV SI,AX was not isolated to the next request"@,
    }
}

/// Checks a register the handler-return probe reads: it must hold
/// `expected`.
pub fn handler_register_verdict(c: HandlerCheck, observed: u16, expected: u16) -> (r: Result<(), String>)
    ensures
        r is Ok <==> observed == expected,
        r matches Err(e) ==> e@ == handler_message(c),
{
    if observed == expected {
        return Ok(());
    }
    match c {
        HandlerCheck::MovDx => Err(String::from_str("MOV DX did not execute")),
        HandlerCheck::MovAx => Err(String::from_str("MOV AX did not execute")),
        HandlerCheck::SiIsolated => Err(String::from_str("post-service MOV SI,AX was not isolated to the next request")),
    }
}

/// The service request was acknowledged back in the target's code with
/// the next instruction still pending (SI unchanged).
pub fn return_boundary_verdict(cs: u16, si: u16, target_cs: u16) -> (r: Result<(), String>)
    ensures
        r is Ok <==> (cs == target_cs && si == 0x1234),
        r matches Err(e) ==> e@ == "interrupt acknowledged at the wrong boundary"@,
{
    if cs != target_cs || si != 0x1234 {
        return Err(String::from_str("interrupt acknowledged at the wrong boundary"));
    }
    Ok(())
}

/// A faulting divide was published as a fault of one decoded instruction
/// that changed nothing: AX 1234h, BX and DX zero, IP 0007h.
pub open spec fn fault_ok(flags: u32, decoded: u32, ax: u16, bx: u16, dx: u16, ip: u16) -> bool {
    flags & StepOutcome::FAULT != 0 && decoded == 1 && ax == 0x1234 && bx == 0 && dx == 0 && ip == 0x0007
}

/// Checks the publication of a faulting divide (see `fault_ok`).
pub fn fault_verdict(flags: u32, decoded: u32, ax: u16, bx: u16, dx: u16, ip: u16) -> (r: Result<(), String>)
    ensures
        r is Ok <==> fault_ok(flags, decoded, ax, bx, dx, ip),
        r matches Err(e) ==> e@ == "inconsistent post-fault publication"@,
{
    if flags & StepOutcome::FAULT == 0 || decoded != 1 || ax != 0x1234 || bx != 0 || dx != 0 || ip != 0x0007 {
        return Err(String::from_str("inconsistent post-fault publication"));
    }
    Ok(())
}

} // verus!
