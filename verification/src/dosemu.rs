use vstd::prelude::*;
use vstd::string::StringExecFns;
use crate::mz::Exe;
use crate::text::{dec, push_dec, push_str};

verus! {

/// How the reference DOS emulator is started on a target executable: the
/// program, its arguments and the environment it adds.
#[derive(Clone, Debug, PartialEq, Eq)]
pub struct DosemuCommand {
    pub program: String,
    pub args: Vec<String>,
    pub env: Vec<(String, String)>,
}

/// The arguments: a dumb quiet terminal, the target's directory mounted as
/// a drive, the target run from it, and the CPU emulated with shared-memory
/// mapping.
pub open spec fn dosemu_args(directory: Seq<char>, name: Seq<char>) -> Seq<Seq<char>> {
    seq![
        "-dumb"@,
        "-quiet"@,
        "-K"@,
        directory,
        "-E"@,
        name,
        "-I"@,
        "cpu_vm emulated"@,
        "-I"@,
        "cpuemu 1"@,
        "-I"@,
        "cpu_vm_dpmi emulated"@,
        "-I"@,
        "mappingdriver mapshm"@,
    ]
}

/// The environment: the validator switched on, the executable's entry
/// CS and IP in decimal, and its DOS path on the mounted drive.
pub open spec fn dosemu_env(cs: u16, ip: u16, name: Seq<char>) -> Seq<(Seq<char>, Seq<char>)> {
    seq![
        ("DIIS_DOSEMU_VALIDATOR"@, "1"@),
        ("DIIS_DOSEMU_MZ_CS"@, dec(cs as nat)),
        ("DIIS_DOSEMU_MZ_IP"@, dec(ip as nat)),
        ("DIIS_DOSEMU_TARGET_DOS_PATH"@, "?:\\"@ + name),
    ]
}

/// Strings as values.
pub open spec fn strings_view(v: Seq<String>) -> Seq<Seq<char>> {
    v.map_values(|s: String| s@)
}

/// Pairs of strings as values.
pub open spec fn pairs_view(v: Seq<(String, String)>) -> Seq<(Seq<char>, Seq<char>)> {
    v.map_values(|p: (String, String)| (p.0@, p.1@))
}

fn owned(s: &str) -> (r: String)
    ensures
        r@ == s@,
{
    String::from_str(s)
}

/// The command that starts `program` on the executable `name` in
/// `directory` (the canonical directory holding it), whose decoded header
/// is `exe`'s.
pub fn dosemu_command(program: String, directory: &str, name: &str, exe: &Exe) -> (r: DosemuCommand)
    ensures
        r.program@ == program@,
        strings_view(r.args@) == dosemu_args(directory@, name@),
        pairs_view(r.env@) == dosemu_env(exe.hdr.cs, exe.hdr.ip, name@),
{
    let mut args: Vec<String> = Vec::new();
    args.push(owned("-dumb"));
    args.push(owned("-quiet"));
    args.push(owned("-K"));
    args.push(owned(directory));
    args.push(owned("-E"));
    args.push(owned(name));
    args.push(owned("-I"));
    args.push(owned("cpu_vm emulated"));
    args.push(owned("-I"));
    args.push(owned("cpuemu 1"));
    args.push(owned("-I"));
    args.push(owned("cpu_vm_dpmi emulated"));
    args.push(owned("-I"));
    args.push(owned("mappingdriver mapshm"));
    assert(strings_view(args@) =~= dosemu_args(directory@, name@));
    let mut cs = String::new();
    push_dec(&mut cs, exe.hdr.cs as u64);
    let mut ip = String::new();
    push_dec(&mut ip, exe.hdr.ip as u64);
    let mut path = owned("?:\\");
    push_str(&mut path, name);
    let mut env: Vec<(String, String)> = Vec::new();
    env.push((owned("DIIS_DOSEMU_VALIDATOR"), owned("1")));
    env.push((owned("DIIS_DOSEMU_MZ_CS"), cs));
    env.push((owned("DIIS_DOSEMU_MZ_IP"), ip));
    env.push((owned("DIIS_DOSEMU_TARGET_DOS_PATH"), path));
    assert(pairs_view(env@) =~= dosemu_env(exe.hdr.cs, exe.hdr.ip, name@));
    DosemuCommand { program, args, env }
}

// ---------------------------------------------------------------------------
// Stepping the reference
// ---------------------------------------------------------------------------

/// Why the reference cannot take a step: it was shut down, the target
/// exited, or the reference acknowledged the end of the run; in that
/// order.
pub open spec fn step_refusal(shut_down: bool, finished: bool, end_acked: bool) -> Option<Seq<char>> {
    if shut_down {
        Some("cannot step dosemu2 validator after shutdown"@)
    } else if finished {
        Some("cannot step dosemu2 validator after target exit"@)
    } else if end_acked {
        Some("cannot step dosemu2 validator after shutdown acknowledgement"@)
    } else {
        None
    }
}

/// Checks that the reference can take a step (see `step_refusal`).
pub fn step_guard(shut_down: bool, finished: bool, end_acked: bool) -> (r: Result<(), String>)
    ensures
        r is Ok <==> step_refusal(shut_down, finished, end_acked) is None,
        r matches Err(e) ==> Some(e@) == step_refusal(shut_down, finished, end_acked),
{
    if shut_down {
        return Err(String::from_str("cannot step dosemu2 validator after shutdown"));
    }
    if finished {
        return Err(String::from_str("cannot step dosemu2 validator after target exit"));
    }
    if end_acked {
        return Err(String::from_str("cannot step dosemu2 validator after shutdown acknowledgement"));
    }
    Ok(())
}

// ---------------------------------------------------------------------------
// Waiting for the reference to initialise
// ---------------------------------------------------------------------------

/// How long the reference gets to publish its initialisation, in
/// milliseconds.
pub const STARTUP_TIMEOUT_MS: u64 = 10000;

/// The validator ABI version the reference must publish.
pub const VALIDATOR_ABI_VERSION: u32 = 1;

/// Where the wait for initialisation stands: which observation it waits
/// for.
#[derive(Clone, Copy, Debug, PartialEq, Eq, Structural)]
pub enum InitPhase {
    /// The clock, to set the deadline.
    Deadline,
    /// The init flag of the control block.
    InitFlag,
    /// A poll of the child while the flag is clear.
    Poll,
    /// The clock, against the deadline.
    Clock,
    /// Whether the control block belongs to the launched process.
    Owner,
    /// The ABI the control block publishes.
    Abi,
    /// The wait is over.
    Done,
}

/// A wait in progress: its phase and deadline.
#[derive(Clone, Copy, Debug, PartialEq, Eq, Structural)]
pub struct InitWaitState {
    pub phase: InitPhase,
    pub deadline: u64,
}

/// What the driver observed.
#[derive(Clone, Copy, Debug, PartialEq, Eq, Structural)]
pub enum InitEvent {
    Clock(u64),
    /// Whether the init flag is set.
    InitFlag(bool),
    /// Whether the child has exited.
    Exited(bool),
    /// Whether the PID in the control block is the launched process or a
    /// descendant of it.
    Owner(bool),
    /// The published ABI version and structure size, and the size the
    /// validator needs.
    Abi(u32, u64, u64),
}

/// Why the wait failed.
#[derive(Clone, Copy, Debug, PartialEq, Eq, Structural)]
pub enum InitError {
    /// The child exited first.
    Exited,
    /// The deadline passed.
    TimedOut,
    /// The control block belongs to another process.
    ForeignOwner,
    /// The control block's ABI is not the validator's.
    Unsupported,
}

/// What the driver does next.
#[derive(Clone, Copy, Debug, PartialEq, Eq, Structural)]
pub enum InitAction {
    ReadClock,
    ReadInitFlag,
    PollExit,
    /// Sleep a millisecond, then read the init flag.
    SleepThenReadInitFlag,
    ReadOwner,
    ReadAbi,
    Fail(InitError),
    Succeed,
}

/// A wait for initialisation begins by reading the clock.
pub open spec fn init_start() -> (InitWaitState, InitAction) {
    (InitWaitState { phase: InitPhase::Deadline, deadline: 0 }, InitAction::ReadClock)
}

/// The deadline `STARTUP_TIMEOUT_MS` after `now`, at the end of the clock
/// at the latest.
pub open spec fn init_deadline(now: u64) -> u64 {
    if now + STARTUP_TIMEOUT_MS > u64::MAX {
        u64::MAX
    } else {
        (now + STARTUP_TIMEOUT_MS) as u64
    }
}

/// One step of the wait: while the init flag is clear, the child is
/// polled (its exit fails the wait) and the clock read (the deadline fails
/// it), with a millisecond's sleep in between; once the flag is set, the
/// control block must belong to the launched process and publish the
/// validator's ABI. An event the phase does not wait for changes nothing
/// and asks again; a finished wait stays finished.
pub open spec fn init_transition(s: InitWaitState, ev: InitEvent) -> (InitWaitState, InitAction) {
    let done = InitWaitState { phase: InitPhase::Done, ..s };
    match s.phase {
        InitPhase::Deadline => match ev {
            InitEvent::Clock(t) => (
                InitWaitState { phase: InitPhase::InitFlag, deadline: init_deadline(t) },
                InitAction::ReadInitFlag,
            ),
            _ => (s, InitAction::ReadClock),
        },
        InitPhase::InitFlag => match ev {
            InitEvent::InitFlag(true) => (InitWaitState { phase: InitPhase::Owner, ..s }, InitAction::ReadOwner),
            InitEvent::InitFlag(false) => (InitWaitState { phase: InitPhase::Poll, ..s }, InitAction::PollExit),
            _ => (s, InitAction::ReadInitFlag),
        },
        InitPhase::Poll => match ev {
            InitEvent::Exited(true) => (done, InitAction::Fail(InitError::Exited)),
            InitEvent::Exited(false) => (InitWaitState { phase: InitPhase::Clock, ..s }, InitAction::ReadClock),
            _ => (s, InitAction::PollExit),
        },
        InitPhase::Clock => match ev {
            InitEvent::Clock(t) => if t >= s.deadline {
                (done, InitAction::Fail(InitError::TimedOut))
            } else {
                (InitWaitState { phase: InitPhase::InitFlag, ..s }, InitAction::SleepThenReadInitFlag)
            },
            _ => (s, InitAction::ReadClock),
        },
        InitPhase::Owner => match ev {
            InitEvent::Owner(true) => (InitWaitState { phase: InitPhase::Abi, ..s }, InitAction::ReadAbi),
            InitEvent::Owner(false) => (done, InitAction::Fail(InitError::ForeignOwner)),
            _ => (s, InitAction::ReadOwner),
        },
        InitPhase::Abi => match ev {
            InitEvent::Abi(version, size, needed) => if version != VALIDATOR_ABI_VERSION || size < needed {
                (done, InitAction::Fail(InitError::Unsupported))
            } else {
                (done, InitAction::Succeed)
            },
            _ => (s, InitAction::ReadAbi),
        },
        InitPhase::Done => (s, InitAction::Succeed),
    }
}

/// Begins a wait for initialisation (see `init_start`).
pub fn init_wait_begin() -> (r: (InitWaitState, InitAction))
    ensures
        r == init_start(),
{
    (InitWaitState { phase: InitPhase::Deadline, deadline: 0 }, InitAction::ReadClock)
}

/// One step of the wait for initialisation (see `init_transition`). A
/// step succeeds only on the validator's ABI from the launched process,
/// or when the wait was over already.
pub fn init_wait_step(s: InitWaitState, ev: InitEvent) -> (r: (InitWaitState, InitAction))
    ensures
        r == init_transition(s, ev),
        r.1 is Succeed ==> s.phase == InitPhase::Done || (s.phase == InitPhase::Abi && (ev matches InitEvent::Abi(
            v,
            size,
            needed,
        ) && v == VALIDATOR_ABI_VERSION && size >= needed)),
{
    let done = InitWaitState { phase: InitPhase::Done, deadline: s.deadline };
    match s.phase {
        InitPhase::Deadline => match ev {
            InitEvent::Clock(t) => (
                InitWaitState { phase: InitPhase::InitFlag, deadline: t.saturating_add(STARTUP_TIMEOUT_MS) },
                InitAction::ReadInitFlag,
            ),
            _ => (s, InitAction::ReadClock),
        },
        InitPhase::InitFlag => match ev {
            InitEvent::InitFlag(true) => (InitWaitState { phase: InitPhase::Owner, deadline: s.deadline }, InitAction::ReadOwner),
            InitEvent::InitFlag(false) => (InitWaitState { phase: InitPhase::Poll, deadline: s.deadline }, InitAction::PollExit),
            _ => (s, InitAction::ReadInitFlag),
        },
        InitPhase::Poll => match ev {
            InitEvent::Exited(true) => (done, InitAction::Fail(InitError::Exited)),
            InitEvent::Exited(false) => (InitWaitState { phase: InitPhase::Clock, deadline: s.deadline }, InitAction::ReadClock),
            _ => (s, InitAction::PollExit),
        },
        InitPhase::Clock => match ev {
            InitEvent::Clock(t) => if t >= s.deadline {
                (done, InitAction::Fail(InitError::TimedOut))
            } else {
                (InitWaitState { phase: InitPhase::InitFlag, deadline: s.deadline }, InitAction::SleepThenReadInitFlag)
            },
            _ => (s, InitAction::ReadClock),
        },
        InitPhase::Owner => match ev {
            InitEvent::Owner(true) => (InitWaitState { phase: InitPhase::Abi, deadline: s.deadline }, InitAction::ReadAbi),
            InitEvent::Owner(false) => (done, InitAction::Fail(InitError::ForeignOwner)),
            _ => (s, InitAction::ReadOwner),
        },
        InitPhase::Abi => match ev {
            InitEvent::Abi(version, size, needed) => if version != VALIDATOR_ABI_VERSION || size < needed {
                (done, InitAction::Fail(InitError::Unsupported))
            } else {
                (done, InitAction::Succeed)
            },
            _ => (s, InitAction::ReadAbi),
        },
        InitPhase::Done => (s, InitAction::Succeed),
    }
}

/// The message of a failed wait: the child's exit status, the control
/// block's PID and the launched PID, or the published ABI, as the error
/// needs them.
pub open spec fn init_message(e: InitError, status: Seq<char>, shared_pid: u32, launcher: u32, version: u32, size: u64) -> Seq<
    char,
> {
    match e {
        InitError::Exited => "dosemu2 exited before Hydra initialized: "@ + status,
        InitError::TimedOut => "Timed out waiting for Hydra initialization in dosemu2"@,
        InitError::ForeignOwner => "hydra_remote belongs to PID "@ + dec(shared_pid as nat) + ", which is not launcher PID "@
            + dec(launcher as nat) + " or its descendant"@,
        InitError::Unsupported => "unsupported dosemu2 validator ABI version "@ + dec(version as nat) + " size "@ + dec(
            size as nat,
        ),
    }
}

/// The message of a failed wait (see `init_message`).
pub fn init_error_text(e: InitError, status: &str, shared_pid: u32, launcher: u32, version: u32, size: u64) -> (r: String)
    ensures
        r@ == init_message(e, status@, shared_pid, launcher, version, size),
{
    match e {
        InitError::Exited => {
            let mut m = String::from_str("dosemu2 exited before Hydra initialized: ");
            push_str(&mut m, status);
            m
        },
        InitError::TimedOut => String::from_str("Timed out waiting for Hydra initialization in dosemu2"),
        InitError::ForeignOwner => {
            let mut m = String::from_str("hydra_remote belongs to PID ");
            push_dec(&mut m, shared_pid as u64);
            push_str(&mut m, ", which is not launcher PID ");
            push_dec(&mut m, launcher as u64);
            push_str(&mut m, " or its descendant");
            m
        },
        InitError::Unsupported => {
            let mut m = String::from_str("unsupported dosemu2 validator ABI version ");
            push_dec(&mut m, version as u64);
            push_str(&mut m, " size ");
            push_dec(&mut m, size);
            m
        },
    }
}

// ---------------------------------------------------------------------------
// Shutting the reference down
// ---------------------------------------------------------------------------

/// How long the reference gets to acknowledge the end request, and then to
/// exit, in milliseconds.
pub const SHUTDOWN_TIMEOUT_MS: u64 = 5000;

/// Where a shutdown stands: which observation it waits for.
#[derive(Clone, Copy, Debug, PartialEq, Eq, Structural)]
pub enum ShutdownPhase {
    /// The first poll of the child, before the end request.
    FirstPoll,
    /// The clock, to set the deadline of the acknowledgement.
    AckDeadline,
    /// The acknowledgement flag.
    AckCheck,
    /// A poll of the child while waiting for the acknowledgement.
    AckPoll,
    /// The clock, against the acknowledgement deadline.
    AckClock,
    /// The clock, to set the deadline of the exit.
    ExitDeadline,
    /// A poll of the child while waiting for it to exit.
    ExitPoll,
    /// The clock, against the exit deadline.
    ExitClock,
    /// The shutdown is over.
    Closed,
}

/// A shutdown in progress.
#[derive(Clone, Copy, Debug, PartialEq, Eq, Structural)]
pub struct ShutdownState {
    /// The process has been shut down.
    pub shut_down: bool,
    /// The target program exited before the shutdown.
    pub finished: bool,
    pub phase: ShutdownPhase,
    /// The deadline of the current wait, in milliseconds.
    pub deadline: u64,
}

/// What the driver observed for the shutdown.
#[derive(Clone, Copy, Debug, PartialEq, Eq, Structural)]
pub enum ShutdownEvent {
    /// The child's exit status: `None` while it runs, else whether it
    /// exited successfully.
    Exited(Option<bool>),
    /// Whether the reference published its end acknowledgement.
    EndAck(bool),
    /// The clock, in milliseconds.
    Clock(u64),
}

/// Why a shutdown failed.
#[derive(Clone, Copy, Debug, PartialEq, Eq, Structural)]
pub enum ShutdownError {
    /// The child exited before acknowledging the end request (and the
    /// target had not finished successfully).
    ExitedEarly,
    /// No acknowledgement came before the deadline.
    AckTimeout,
    /// The child failed after acknowledging.
    FailedAfterAck,
    /// The child did not exit before the deadline.
    ExitTimeout,
}

/// What the driver does next.
#[derive(Clone, Copy, Debug, PartialEq, Eq, Structural)]
pub enum ShutdownAction {
    /// Poll the child's exit status; hand back `Exited`.
    PollExit,
    /// Publish the end request, then read the clock; hand back `Clock`.
    RequestEnd,
    /// Read the acknowledgement flag; hand back `EndAck`.
    ReadAck,
    /// Read the clock; hand back `Clock`.
    ReadClock,
    /// Sleep a millisecond, then read the acknowledgement flag.
    SleepThenReadAck,
    /// Sleep a millisecond, then poll the child.
    SleepThenPollExit,
    /// Kill the child and wait for it; the shutdown fails with the error.
    Terminate(ShutdownError),
    /// The shutdown succeeded.
    Succeed,
    /// The shutdown failed with the error.
    Fail(ShutdownError),
}

/// How a shutdown begins: at once successful when the process was shut
/// down already; otherwise with a poll of the child.
pub open spec fn shutdown_start(shut_down: bool, finished: bool) -> (ShutdownState, ShutdownAction) {
    if shut_down {
        (ShutdownState { shut_down, finished, phase: ShutdownPhase::Closed, deadline: 0 }, ShutdownAction::Succeed)
    } else {
        (ShutdownState { shut_down, finished, phase: ShutdownPhase::FirstPoll, deadline: 0 }, ShutdownAction::PollExit)
    }
}

/// `s` closed, with the process shut down.
pub open spec fn closed(s: ShutdownState) -> ShutdownState {
    ShutdownState { shut_down: true, phase: ShutdownPhase::Closed, ..s }
}

/// `s` in phase `p`.
pub open spec fn in_phase(s: ShutdownState, p: ShutdownPhase) -> ShutdownState {
    ShutdownState { phase: p, ..s }
}

/// The deadline `SHUTDOWN_TIMEOUT_MS` after `now`, at the end of the clock
/// at the latest.
pub open spec fn deadline_after(now: u64) -> u64 {
    if now + SHUTDOWN_TIMEOUT_MS > u64::MAX {
        u64::MAX
    } else {
        (now + SHUTDOWN_TIMEOUT_MS) as u64
    }
}

/// The child exited before the acknowledgement: a success only when the
/// target had finished and the child succeeded.
pub open spec fn early_exit(s: ShutdownState, success: bool) -> (ShutdownState, ShutdownAction) {
    (closed(s), if s.finished && success {
        ShutdownAction::Succeed
    } else {
        ShutdownAction::Fail(ShutdownError::ExitedEarly)
    })
}

/// One step of a shutdown. The child's first poll decides an early exit;
/// otherwise the end is requested and the acknowledgement awaited until
/// its deadline, the child polled in between; after the acknowledgement
/// the child's exit is awaited until a second deadline. A timeout kills
/// the child. An event the phase does not wait for changes nothing and
/// asks again; a closed shutdown succeeds at once.
pub open spec fn shutdown_transition(s: ShutdownState, ev: ShutdownEvent) -> (ShutdownState, ShutdownAction) {
    match s.phase {
        ShutdownPhase::FirstPoll => match ev {
            ShutdownEvent::Exited(Some(ok)) => early_exit(s, ok),
            ShutdownEvent::Exited(None) => (in_phase(s, ShutdownPhase::AckDeadline), ShutdownAction::RequestEnd),
            _ => (s, ShutdownAction::PollExit),
        },
        ShutdownPhase::AckDeadline => match ev {
            ShutdownEvent::Clock(t) => (
                ShutdownState { phase: ShutdownPhase::AckCheck, deadline: deadline_after(t), ..s },
                ShutdownAction::ReadAck,
            ),
            _ => (s, ShutdownAction::ReadClock),
        },
        ShutdownPhase::AckCheck => match ev {
            ShutdownEvent::EndAck(true) => (in_phase(s, ShutdownPhase::ExitDeadline), ShutdownAction::ReadClock),
            ShutdownEvent::EndAck(false) => (in_phase(s, ShutdownPhase::AckPoll), ShutdownAction::PollExit),
            _ => (s, ShutdownAction::ReadAck),
        },
        ShutdownPhase::AckPoll => match ev {
            ShutdownEvent::Exited(Some(ok)) => early_exit(s, ok),
            ShutdownEvent::Exited(None) => (in_phase(s, ShutdownPhase::AckClock), ShutdownAction::ReadClock),
            _ => (s, ShutdownAction::PollExit),
        },
        ShutdownPhase::AckClock => match ev {
            ShutdownEvent::Clock(t) => if t >= s.deadline {
                (closed(s), ShutdownAction::Terminate(ShutdownError::AckTimeout))
            } else {
                (in_phase(s, ShutdownPhase::AckCheck), ShutdownAction::SleepThenReadAck)
            },
            _ => (s, ShutdownAction::ReadClock),
        },
        ShutdownPhase::ExitDeadline => match ev {
            ShutdownEvent::Clock(t) => (
                ShutdownState { phase: ShutdownPhase::ExitPoll, deadline: deadline_after(t), ..s },
                ShutdownAction::PollExit,
            ),
            _ => (s, ShutdownAction::ReadClock),
        },
        ShutdownPhase::ExitPoll => match ev {
            ShutdownEvent::Exited(Some(ok)) => (closed(s), if ok {
                ShutdownAction::Succeed
            } else {
                ShutdownAction::Fail(ShutdownError::FailedAfterAck)
            }),
            ShutdownEvent::Exited(None) => (in_phase(s, ShutdownPhase::ExitClock), ShutdownAction::ReadClock),
            _ => (s, ShutdownAction::PollExit),
        },
        ShutdownPhase::ExitClock => match ev {
            ShutdownEvent::Clock(t) => if t >= s.deadline {
                (closed(s), ShutdownAction::Terminate(ShutdownError::ExitTimeout))
            } else {
                (in_phase(s, ShutdownPhase::ExitPoll), ShutdownAction::SleepThenPollExit)
            },
            _ => (s, ShutdownAction::ReadClock),
        },
        ShutdownPhase::Closed => (s, ShutdownAction::Succeed),
    }
}

/// A closed shutdown has shut the process down.
pub open spec fn shutdown_wf(s: ShutdownState) -> bool {
    s.phase == ShutdownPhase::Closed ==> s.shut_down
}

/// Whether an action ends the shutdown.
pub open spec fn ends(a: ShutdownAction) -> bool {
    a is Succeed || a is Fail || a is Terminate
}

/// Begins a shutdown (see `shutdown_start`).
pub fn shutdown_begin(shut_down: bool, finished: bool) -> (r: (ShutdownState, ShutdownAction))
    ensures
        r == shutdown_start(shut_down, finished),
        shutdown_wf(r.0),
        ends(r.1) ==> r.0.phase == ShutdownPhase::Closed,
{
    if shut_down {
        (ShutdownState { shut_down, finished, phase: ShutdownPhase::Closed, deadline: 0 }, ShutdownAction::Succeed)
    } else {
        (ShutdownState { shut_down, finished, phase: ShutdownPhase::FirstPoll, deadline: 0 }, ShutdownAction::PollExit)
    }
}

fn deadline_from(now: u64) -> (r: u64)
    ensures
        r == deadline_after(now),
{
    now.saturating_add(SHUTDOWN_TIMEOUT_MS)
}

/// One step of a shutdown (see `shutdown_transition`). Whatever happens,
/// a step that ends the shutdown closes it, a closed shutdown has shut the
/// process down, and a step succeeds only on a successful exit of the
/// child, or when the shutdown was closed already.
pub fn shutdown_step(s: ShutdownState, ev: ShutdownEvent) -> (r: (ShutdownState, ShutdownAction))
    ensures
        r == shutdown_transition(s, ev),
        ends(r.1) ==> r.0.phase == ShutdownPhase::Closed,
        shutdown_wf(s) ==> shutdown_wf(r.0),
        r.1 is Succeed ==> s.phase == ShutdownPhase::Closed || ev == ShutdownEvent::Exited(Some(true)),
        r.0.finished == s.finished,
{
    let closed_state = ShutdownState { shut_down: true, finished: s.finished, phase: ShutdownPhase::Closed, deadline: s.deadline };
    let early = if s.finished {
        ShutdownAction::Succeed
    } else {
        ShutdownAction::Fail(ShutdownError::ExitedEarly)
    };
    match s.phase {
        ShutdownPhase::FirstPoll | ShutdownPhase::AckPoll => match ev {
            ShutdownEvent::Exited(Some(ok)) => (closed_state, if ok {
                early
            } else {
                ShutdownAction::Fail(ShutdownError::ExitedEarly)
            }),
            ShutdownEvent::Exited(None) => match s.phase {
                ShutdownPhase::FirstPoll => (
                    ShutdownState { phase: ShutdownPhase::AckDeadline, ..s },
                    ShutdownAction::RequestEnd,
                ),
                _ => (ShutdownState { phase: ShutdownPhase::AckClock, ..s }, ShutdownAction::ReadClock),
            },
            _ => (s, ShutdownAction::PollExit),
        },
        ShutdownPhase::AckDeadline | ShutdownPhase::ExitDeadline => match ev {
            ShutdownEvent::Clock(t) => {
                let d = deadline_from(t);
                match s.phase {
                    ShutdownPhase::AckDeadline => (
                        ShutdownState { phase: ShutdownPhase::AckCheck, deadline: d, ..s },
                        ShutdownAction::ReadAck,
                    ),
                    _ => (
                        ShutdownState { phase: ShutdownPhase::ExitPoll, deadline: d, ..s },
                        ShutdownAction::PollExit,
                    ),
                }
            },
            _ => (s, ShutdownAction::ReadClock),
        },
        ShutdownPhase::AckCheck => match ev {
            ShutdownEvent::EndAck(true) => (ShutdownState { phase: ShutdownPhase::ExitDeadline, ..s }, ShutdownAction::ReadClock),
            ShutdownEvent::EndAck(false) => (ShutdownState { phase: ShutdownPhase::AckPoll, ..s }, ShutdownAction::PollExit),
            _ => (s, ShutdownAction::ReadAck),
        },
        ShutdownPhase::AckClock => match ev {
            ShutdownEvent::Clock(t) => if t >= s.deadline {
                (closed_state, ShutdownAction::Terminate(ShutdownError::AckTimeout))
            } else {
                (ShutdownState { phase: ShutdownPhase::AckCheck, ..s }, ShutdownAction::SleepThenReadAck)
            },
            _ => (s, ShutdownAction::ReadClock),
        },
        ShutdownPhase::ExitPoll => match ev {
            ShutdownEvent::Exited(Some(ok)) => (closed_state, if ok {
                ShutdownAction::Succeed
            } else {
                ShutdownAction::Fail(ShutdownError::FailedAfterAck)
            }),
            ShutdownEvent::Exited(None) => (ShutdownState { phase: ShutdownPhase::ExitClock, ..s }, ShutdownAction::ReadClock),
            _ => (s, ShutdownAction::PollExit),
        },
        ShutdownPhase::ExitClock => match ev {
            ShutdownEvent::Clock(t) => if t >= s.deadline {
                (closed_state, ShutdownAction::Terminate(ShutdownError::ExitTimeout))
            } else {
                (ShutdownState { phase: ShutdownPhase::ExitPoll, ..s }, ShutdownAction::SleepThenPollExit)
            },
            _ => (s, ShutdownAction::ReadClock),
        },
        ShutdownPhase::Closed => (s, ShutdownAction::Succeed),
    }
}

/// However a shutdown goes, one that has begun (see `shutdown_begin`) and
/// then ended has shut the process down.
pub proof fn lemma_ended_shutdown_is_shut_down(s: ShutdownState, ev: ShutdownEvent)
    requires
        shutdown_wf(s),
    ensures
        ends(shutdown_transition(s, ev).1) ==> shutdown_transition(s, ev).0.shut_down,
{
}

/// A shutdown after one that ended, however it ended (success, the
/// child's exit, a timeout), succeeds at once: it asks for no poll, no
/// end request and no kill.
pub proof fn lemma_shutdown_again_succeeds(s: ShutdownState, ev: ShutdownEvent)
    requires
        shutdown_wf(s),
        ends(shutdown_transition(s, ev).1),
    ensures
        shutdown_start(shutdown_transition(s, ev).0.shut_down, s.finished).1 == ShutdownAction::Succeed,
{
}

/// The message of a failed shutdown, with the child's exit status as
/// text where the error concerns its exit.
pub open spec fn shutdown_message(e: ShutdownError, status: Seq<char>) -> Seq<char> {
    match e {
        ShutdownError::ExitedEarly => "dosemu2 exited before shutdown acknowledgement: "@ + status,
        ShutdownError::AckTimeout => "Timed out waiting for dosemu2 shutdown acknowledgement"@,
        ShutdownError::FailedAfterAck => "dosemu2 failed after shutdown acknowledgement: "@ + status,
        ShutdownError::ExitTimeout => "Timed out waiting for dosemu2 to exit after shutdown acknowledgement"@,
    }
}

/// The message of a failed shutdown (see `shutdown_message`).
pub fn shutdown_error_text(e: ShutdownError, status: &str) -> (r: String)
    ensures
        r@ == shutdown_message(e, status@),
{
    match e {
        ShutdownError::ExitedEarly => {
            let mut s = String::from_str("dosemu2 exited before shutdown acknowledgement: ");
            push_str(&mut s, status);
            s
        },
        ShutdownError::AckTimeout => String::from_str("Timed out waiting for dosemu2 shutdown acknowledgement"),
        ShutdownError::FailedAfterAck => {
            let mut s = String::from_str("dosemu2 failed after shutdown acknowledgement: ");
            push_str(&mut s, status);
            s
        },
        ShutdownError::ExitTimeout => String::from_str(
            "Timed out waiting for dosemu2 to exit after shutdown acknowledgement",
        ),
    }
}

} // verus!
