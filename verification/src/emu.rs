use vstd::prelude::*;
use crate::cpu::{Cpu, Register, CS, FLAGS, IP, NUM_REGS};
use crate::flags::{Flag, with_bit};
use crate::instr::Instr;
use crate::decode::decodes_to;
use crate::loader::{loadable, loaded_mem, loaded_regs, is_loadable};
use crate::machine::{Machine, DEFAULT_PSP_SEGMENT, reg_addr};
use crate::mem::MEM_SIZE;
use crate::mz::Exe;
use crate::segoff::{Seg, SegOff};
use crate::step::{fetched, ip_advanced, executes, step_error, step_fails, step_halts, step_result, steps_after};
use crate::value::Value;

verus! {

/// Where an executable is placed in memory: the paragraph of its program
/// segment prefix.
#[derive(Clone, Copy, Debug, PartialEq, Eq, Structural)]
pub struct LoadConfig {
    pub psp_segment: u16,
}

impl Default for LoadConfig {
    fn default() -> (r: Self)
        ensures
            r.psp_segment == DEFAULT_PSP_SEGMENT,
    {
        LoadConfig { psp_segment: 0x0813 }
    }
}

/// How much guest work an emulator consumed at one validation boundary. A
/// translated backend may execute several decoded instructions in one node;
/// instruction-at-a-time backends always return `single()`.
#[derive(Clone, Copy, Debug, PartialEq, Eq, Structural)]
pub struct StepOutcome {
    pub decoded_instructions: u32,
    pub step_flags: u32,
}

impl StepOutcome {
    /// The node consumed more than one decoded instruction.
    pub const MULTI_INSN: u32 = 1;
    /// The node ended at the address it started at (one REP iteration).
    pub const SAME_PC: u32 = 2;
    /// The backend faulted while executing the node.
    pub const FAULT: u32 = 4;
    /// The backend acknowledged the end of the run.
    pub const END_ACK: u32 = 8;
    /// The guest program exited.
    pub const TARGET_EXIT: u32 = 16;

    /// One decoded instruction and no flags.
    pub fn single() -> (r: Self)
        ensures
            r == (StepOutcome { decoded_instructions: 1, step_flags: 0 }),
    {
        StepOutcome { decoded_instructions: 1, step_flags: 0 }
    }

    /// Whether any bit of `flag` is set in the outcome's flags.
    pub fn has(self, flag: u32) -> (r: bool)
        ensures
            r == (self.step_flags & flag != 0),
    {
        self.step_flags & flag != 0
    }
}

/// The frontend of a headless run: it never asks to quit.
struct App;

impl App {
    fn new() -> (r: App) {
        App
    }

    /// Polls the frontend; `Ok(true)` asks the emulator to stop.
    fn update(&mut self) -> (r: Result<bool, String>)
        ensures
            r == Ok::<bool, String>(false),
    {
        Ok(false)
    }
}

/// An emulator running one loaded executable.
pub struct Emulator {
    exe_path: String,
    exe: Exe,
    pub machine: Machine,
    app: App,
    step_count: u64,
    last_cpu_state: Cpu,
}

impl Emulator {
    /// The machine is well formed.
    pub closed spec fn wf(&self) -> bool {
        self.machine.wf()
    }

    /// The machine the emulator drives.
    pub closed spec fn mach(&self) -> Machine {
        self.machine
    }

    /// The number of steps taken so far.
    pub closed spec fn steps(&self) -> u64 {
        self.step_count
    }

    /// The machine is well formed and neither counter is exhausted: a step
    /// can be taken.
    pub closed spec fn ready(&self) -> bool {
        self.wf() && self.step_count < u64::MAX && self.machine.exec_count < u64::MAX
    }

    /// The register file before the last step.
    pub closed spec fn last_regs(&self) -> Seq<u16> {
        self.last_cpu_state.regs@
    }

    /// The path the executable was read from.
    pub closed spec fn path(&self) -> Seq<char> {
        self.exe_path@
    }

    /// An emulator with `exe` loaded behind a PSP at the default segment.
    pub fn new(exe_path: &str, exe: Exe) -> (r: Result<Emulator, String>)
        requires
            loadable(DEFAULT_PSP_SEGMENT, &exe),
        ensures
            r matches Ok(e) && e.wf() && e.steps() == 0 && e.path() == exe_path@
                && e.mach().psp_segment == DEFAULT_PSP_SEGMENT && !e.mach().halted
                && e.mach().exec_count == 0,
            r matches Ok(e) ==> e.mach().mem.0@ == loaded_mem(
                Seq::new(MEM_SIZE as nat, |i: int| 0u8),
                DEFAULT_PSP_SEGMENT,
                &exe,
            ) && e.mach().regs() == loaded_regs(
                Seq::new(NUM_REGS as nat, |i: int| 0u16),
                DEFAULT_PSP_SEGMENT,
                &exe,
            ),
    {
        let config = LoadConfig::default();
        Self::new_with_load_config(exe_path, exe, config)
    }

    /// An emulator with `exe` loaded behind a PSP at `config.psp_segment`.
    pub fn new_with_load_config(exe_path: &str, exe: Exe, config: LoadConfig) -> (r: Result<
        Emulator,
        String,
    >)
        requires
            loadable(config.psp_segment, &exe),
        ensures
            r matches Ok(e) && e.wf() && e.steps() == 0 && e.path() == exe_path@
                && e.mach().psp_segment == config.psp_segment && !e.mach().halted
                && e.mach().exec_count == 0,
            r matches Ok(e) ==> e.mach().mem.0@ == loaded_mem(
                Seq::new(MEM_SIZE as nat, |i: int| 0u8),
                config.psp_segment,
                &exe,
            ) && e.mach().regs() == loaded_regs(
                Seq::new(NUM_REGS as nat, |i: int| 0u16),
                config.psp_segment,
                &exe,
            ),
    {
        let mut machine = Machine::new_with_psp_segment(Some(exe_path), config.psp_segment);
        assert(machine.mem.0@ =~= Seq::new(MEM_SIZE as nat, |i: int| 0u8));
        assert(machine.regs() =~= Seq::new(NUM_REGS as nat, |i: int| 0u16));
        let loaded = machine.load_exe(&exe);
        match loaded {
            Ok(()) => {},
            Err(e) => {
                return Err(e);
            },
        }
        let app = App::new();
        Ok(
            Emulator {
                exe_path: exe_path.to_string(),
                exe,
                machine,
                app,
                step_count: 0,
                last_cpu_state: Cpu::new(),
            },
        )
    }

    /// Executes one instruction, remembering the registers as they were
    /// before it. The frontend is polled every 256 steps.
    pub fn step(&mut self) -> (r: Result<(), String>)
        requires
            old(self).wf(),
            old(self).steps() < u64::MAX,
            old(self).mach().exec_count < u64::MAX,
        ensures
            final(self).wf(),
            final(self).last_regs() == old(self).mach().regs(),
            final(self).path() == old(self).path(),
            r is Err <==> step_fails(old(self).mach().regs(), old(self).mach().mem.0@),
            r matches Err(e) ==> e@ == step_error(old(self).mach().regs(), old(self).mach().mem.0@),
            r is Ok ==> final(self).steps() == old(self).steps() + 1 && final(self).mach().exec_count
                == old(self).mach().exec_count + 1,
            r is Ok ==> exists|instr: Instr, len: nat|
                decodes_to(fetched(old(self).mach().regs(), old(self).mach().mem.0@), instr, len)
                    && executes(
                    instr,
                    ip_advanced(old(self).mach().regs(), len),
                    old(self).mach().mem.0@,
                    old(self).mach().halted,
                    final(self).mach().regs(),
                    final(self).mach().mem.0@,
                    final(self).mach().halted,
                ),
            r is Ok ==> step_result(old(self).mach().regs(), old(self).mach().mem.0@) == (
                final(self).mach().regs(),
                final(self).mach().mem.0@,
            ),
            r is Ok ==> final(self).mach().halted == (old(self).mach().halted || step_halts(
                old(self).mach().regs(),
                old(self).mach().mem.0@,
            )),
            r is Err ==> final(self).steps() == old(self).steps() && final(self).mach().regs()
                == old(self).mach().regs() && final(self).mach().mem == old(self).mach().mem
                && final(self).mach().halted == old(self).mach().halted && final(self).mach().exec_count
                == old(self).mach().exec_count,
            final(self).mach().psp_segment == old(self).mach().psp_segment,
            final(self).mach().interrupt_vectors == old(self).mach().interrupt_vectors,
    {
        if self.step_count % 256 == 0 {
            let quit = match self.app.update() {
                Ok(q) => q,
                Err(e) => {
                    return Err(e);
                },
            };
            if quit {
                return Err("SDL Exited".to_string());
            }
        }
        self.last_cpu_state = self.machine.cpu;
        let stepped = self.machine.step();
        match stepped {
            Ok(()) => {},
            Err(e) => {
                return Err(e);
            },
        }
        self.step_count = self.step_count + 1;
        Ok(())
    }

    /// Steps until the machine halts, returning the final registers. An
    /// instruction that cannot be executed ends the run with its error,
    /// the machine left as it was before that instruction; so does running
    /// out of the step counter.
    pub fn run(&mut self) -> (r: Result<Cpu, String>)
        requires
            old(self).wf(),
        ensures
            final(self).wf(),
            r is Ok ==> final(self).mach().halted,
            r matches Ok(cpu) ==> cpu == final(self).mach().cpu,
            old(self).mach().halted ==> r == Ok::<Cpu, String>(old(self).mach().cpu) && *final(self) == *old(self),
            old(self).steps() <= final(self).steps(),
            final(self).mach().exec_count - old(self).mach().exec_count == final(self).steps() - old(self).steps(),
            steps_after(
                old(self).mach().regs(),
                old(self).mach().mem.0@,
                (final(self).steps() - old(self).steps()) as nat,
            ) == (final(self).mach().regs(), final(self).mach().mem.0@),
            !old(self).mach().halted && r is Ok ==> halts_after(
                (old(self).mach().regs(), old(self).mach().mem.0@),
                (final(self).steps() - old(self).steps()) as nat,
            ),
            r is Err ==> runs_clear(
                (old(self).mach().regs(), old(self).mach().mem.0@),
                (final(self).steps() - old(self).steps()) as nat,
            ),
            r matches Err(e) ==> !final(self).mach().halted && (if final(self).steps() == u64::MAX
                || final(self).mach().exec_count == u64::MAX {
                e@ == "step limit reached"@
            } else {
                step_fails(final(self).mach().regs(), final(self).mach().mem.0@) && e@ == step_error(
                    final(self).mach().regs(),
                    final(self).mach().mem.0@,
                )
            }),
    {
        if self.machine.halted() {
            return Ok(self.machine.cpu);
        }
        while !self.machine.halted()
            invariant
                self.wf(),
                !old(self).mach().halted,
                old(self).steps() <= self.steps(),
                self.mach().exec_count - old(self).mach().exec_count == self.steps() - old(self).steps(),
                steps_after(
                    old(self).mach().regs(),
                    old(self).mach().mem.0@,
                    (self.steps() - old(self).steps()) as nat,
                ) == (self.mach().regs(), self.mach().mem.0@),
                forall|k: nat|
                    k < self.steps() - old(self).steps() ==> !#[trigger] fails_at(
                        (old(self).mach().regs(), old(self).mach().mem.0@),
                        k,
                    ),
                forall|k: nat|
                    k + 1 < self.steps() - old(self).steps() ==> !#[trigger] halts_at(
                        (old(self).mach().regs(), old(self).mach().mem.0@),
                        k,
                    ),
                self.mach().halted == (self.steps() > old(self).steps() && halts_at(
                    (old(self).mach().regs(), old(self).mach().mem.0@),
                    (self.steps() - old(self).steps() - 1) as nat,
                )),
            decreases u64::MAX - self.step_count,
        {
            let ghost start = (old(self).mach().regs(), old(self).mach().mem.0@);
            let ghost m = (self.steps() - old(self).steps()) as nat;
            assert(runs_clear(start, m)) by {
                assert forall|k: nat| k < m implies !#[trigger] fails_at(start, k) && !halts_at(start, k) by {}
            }
            if self.step_count == u64::MAX || self.machine.exec_count == u64::MAX {
                return Err("step limit reached".to_string());
            }
            let stepped = self.step();
            match stepped {
                Ok(()) => {},
                Err(e) => {
                    return Err(e);
                },
            }
            proof {
                assert(!fails_at(start, m));
                assert forall|k: nat| k < m + 1 implies !#[trigger] fails_at(start, k) by {
                    if k < m {
                        assert(!fails_at(start, k));
                    }
                }
                assert forall|k: nat| k + 1 < m + 1 implies !#[trigger] halts_at(start, k) by {
                    assert(runs_clear(start, m));
                }
            }
        }
        Ok(self.machine.cpu)
    }
}

/// A unified interface to two very different implementations of the CPU,
/// so that one can be validated against the other.
pub trait Emu {
    /// The registers the backend currently reports.
    spec fn cpu(&self) -> Cpu;

    /// The registers the backend reported before its last boundary.
    spec fn last_cpu(&self) -> Cpu;

    /// How one boundary relates the backend's state before, its state
    /// after and the step's result.
    spec fn stepped(self, after: Self, r: Result<StepOutcome, String>) -> bool;

    /// Whether the backend reports its run finished.
    spec fn done(&self) -> bool;

    /// The number of bytes of linear memory the backend exposes.
    spec fn mem_size(&self) -> usize;

    /// The byte at linear address `i` of that memory.
    spec fn mem_byte(&self, i: usize) -> u8;

    /// The address of the next instruction the backend reports.
    spec fn addr(&self) -> SegOff;

    /// Advances by one boundary and reports how much work it consumed.
    fn step(&mut self) -> (r: Result<StepOutcome, String>)
        ensures
            (*old(self)).stepped(*final(self), r),
    ;

    /// Gives process-backed emulators an opportunity to complete their
    /// shutdown protocol; others have nothing to do.
    fn shutdown(&mut self) -> (r: Result<(), String>)
        default_ensures
            r == Ok::<(), String>(()),
    {
        Ok(())
    }

    /// Whether the backend has finished its run.
    fn finished(&self) -> (r: bool)
        ensures
            r == self.done(),
    ;

    /// The registers the backend currently reports.
    fn cpu_state(&self) -> (r: Cpu)
        ensures
            r == self.cpu(),
    ;

    /// The registers the backend reported before its last boundary.
    fn last_cpu_state(&self) -> (r: Cpu)
        ensures
            r == self.last_cpu(),
    ;

    /// The address of the next instruction.
    fn instr_addr(&self) -> (r: SegOff)
        ensures
            r == self.addr(),
    ;

    /// The register's contents, a word.
    fn reg_read(&self, reg: Register) -> (r: Value)
        requires
            reg < NUM_REGS,
        ensures
            r == Value::U16(self.cpu().regs@[reg as int]),
    ;

    /// Sets a register; the others keep their values.
    fn reg_write(&mut self, reg: Register, val: Value)
        requires
            reg < NUM_REGS,
            val is U16,
        ensures
            final(self).cpu().regs@ == old(self).cpu().regs@.update(reg as int, val->U16_0),
    ;

    fn flag_write(&mut self, f: Flag, set: bool);

    /// The `len` bytes of memory from linear address `addr` on.
    fn mem_slice(&self, addr: SegOff, len: u32) -> (r: &[u8])
        requires
            addr.abs() + len <= self.mem_size(),
        ensures
            r@.len() == len,
            forall|i: int| 0 <= i < len ==> #[trigger] r@[i] == self.mem_byte((addr.abs() + i) as usize),
    ;

    /// The length of the linear memory the backend exposes through
    /// `mem_slice`.
    fn mem_len(&self) -> (r: usize)
        ensures
            r == self.mem_size(),
    ;

    fn interrupt_handler(&self, vector: u8) -> Option<SegOff>;

    /// The segment the program image is loaded at; by default the one
    /// behind a PSP at the default segment.
    fn code_load_seg(&self) -> (r: Seg)
        default_ensures
            r == Seg::Normal(0x823),
    {
        Seg::Normal(0x823)
    }
}

impl Emu for Emulator {
    closed spec fn cpu(&self) -> Cpu {
        self.machine.cpu
    }

    closed spec fn last_cpu(&self) -> Cpu {
        self.last_cpu_state
    }

    /// The machine never finishes on its own: its run ends when the
    /// program halts.
    open spec fn done(&self) -> bool {
        false
    }

    /// The machine's whole memory.
    closed spec fn mem_size(&self) -> usize {
        self.machine.mem.0@.len() as usize
    }

    closed spec fn mem_byte(&self, i: usize) -> u8 {
        self.machine.mem.0@[i as int]
    }

    /// CS:IP.
    open spec fn addr(&self) -> SegOff {
        reg_addr(self.mach().regs(), CS, IP)
    }

    /// A step of the machine (see `Emulator::step`), refused when the
    /// memory is not set up or a counter is exhausted; a step that is taken
    /// consumes one decoded instruction.
    open spec fn stepped(self, after: Self, r: Result<StepOutcome, String>) -> bool {
        if !self.wf() {
            r matches Err(e) && e@ == "emulator memory is not initialised"@ && after == self
        } else if !self.ready() {
            r matches Err(e) && e@ == "step limit reached"@ && after == self
        } else {
            &&& after.wf()
            &&& (r is Err <==> step_fails(self.mach().regs(), self.mach().mem.0@))
            &&& (r is Ok ==> r == Ok::<StepOutcome, String>(StepOutcome { decoded_instructions: 1, step_flags: 0 })
                && step_result(self.mach().regs(), self.mach().mem.0@) == (after.mach().regs(), after.mach().mem.0@)
                && after.steps() == self.steps() + 1 && after.last_regs() == self.mach().regs())
            &&& (r matches Err(e) ==> e@ == step_error(self.mach().regs(), self.mach().mem.0@))
            &&& (r is Err ==> after.mach().regs() == self.mach().regs() && after.mach().mem == self.mach().mem
                && after.steps() == self.steps())
        }
    }

    fn step(&mut self) -> (r: Result<StepOutcome, String>)
    {
        if !(self.machine.mem.0.len() == MEM_SIZE && self.machine.interrupt_vectors.len() == 256) {
            return Err("emulator memory is not initialised".to_string());
        }
        if self.step_count == u64::MAX || self.machine.exec_count == u64::MAX {
            return Err("step limit reached".to_string());
        }
        match Emulator::step(self) {
            Ok(()) => Ok(StepOutcome::single()),
            Err(e) => Err(e),
        }
    }

    fn cpu_state(&self) -> (r: Cpu) {
        self.machine.cpu
    }

    fn last_cpu_state(&self) -> (r: Cpu) {
        self.last_cpu_state
    }

    fn instr_addr(&self) -> (r: SegOff) {
        self.machine.instr_addr()
    }

    fn reg_read(&self, reg: Register) -> (r: Value) {
        self.machine.reg_read(reg)
    }

    fn reg_write(&mut self, reg: Register, val: Value)
        ensures
            final(self).mach().regs() == old(self).mach().regs().update(reg as int, val->U16_0),
            final(self).mach().mem == old(self).mach().mem,
            final(self).mach().halted == old(self).mach().halted,
            final(self).steps() == old(self).steps(),
    {
        self.machine.reg_write(reg, val)
    }

    /// Sets or clears a FLAGS bit.
    fn flag_write(&mut self, f: Flag, set: bool)
        ensures
            final(self).mach().regs() == old(self).mach().regs().update(
                FLAGS as int,
                with_bit(old(self).mach().regs()[FLAGS as int], f, set),
            ),
            final(self).mach().mem == old(self).mach().mem,
            final(self).mach().halted == old(self).mach().halted,
            final(self).steps() == old(self).steps(),
    {
        self.machine.flag_write(f, set)
    }

    fn finished(&self) -> (r: bool) {
        false
    }

    fn mem_slice(&self, addr: SegOff, len: u32) -> &[u8] {
        let a = addr.abs_normal();
        vstd::slice::slice_subrange(self.machine.mem.0.as_slice(), a, a + len as usize)
    }

    fn mem_len(&self) -> (r: usize) {
        self.machine.mem.0.len()
    }

    /// The handler the guest registered for `vector`, if any.
    fn interrupt_handler(&self, vector: u8) -> (r: Option<SegOff>)
        ensures
            r == if (vector as int) < self.mach().interrupt_vectors@.len() {
                self.mach().interrupt_vectors@[vector as int]
            } else {
                None
            },
    {
        if (vector as usize) < self.machine.interrupt_vectors.len() {
            self.machine.interrupt_vectors[vector as usize]
        } else {
            None
        }
    }

    /// The segment the program image is loaded at: the paragraph after the
    /// PSP, wrapping at 64 KiB.
    fn code_load_seg(&self) -> (r: Seg)
        ensures
            r == Seg::Normal(((self.mach().psp_segment + 0x10) % 0x10000) as u16),
    {
        if self.machine.psp_segment <= 0xffef {
            self.machine.code_load_seg()
        } else {
            Seg::Normal(self.machine.psp_segment.wrapping_add(0x10))
        }
    }
}

/// The step a run from `start` takes after `k` steps fails.
pub open spec fn fails_at(start: (Seq<u16>, Seq<u8>), k: nat) -> bool {
    let s = steps_after(start.0, start.1, k);
    step_fails(s.0, s.1)
}

/// The step a run from `start` takes after `k` steps carries out a HLT.
pub open spec fn halts_at(start: (Seq<u16>, Seq<u8>), k: nat) -> bool {
    let s = steps_after(start.0, start.1, k);
    step_halts(s.0, s.1)
}

/// The first `n` steps of a run from `start` neither fail nor halt.
pub open spec fn runs_clear(start: (Seq<u16>, Seq<u8>), n: nat) -> bool {
    forall|k: nat| k < n ==> !#[trigger] fails_at(start, k) && !halts_at(start, k)
}

/// A run from `start` halts after `n` steps: its first `n - 1` steps
/// neither fail nor halt, and the last one carries out a HLT.
pub open spec fn halts_after(start: (Seq<u16>, Seq<u8>), n: nat) -> bool {
    &&& n > 0
    &&& runs_clear(start, (n - 1) as nat)
    &&& !fails_at(start, (n - 1) as nat)
    &&& halts_at(start, (n - 1) as nat)
}

/// The registers and memory of a fresh machine with `exe` loaded behind a
/// PSP at the default segment.
pub open spec fn start_state(exe: &Exe) -> (Seq<u16>, Seq<u8>) {
    (
        loaded_regs(Seq::new(NUM_REGS as nat, |i: int| 0u16), DEFAULT_PSP_SEGMENT, exe),
        loaded_mem(Seq::new(MEM_SIZE as nat, |i: int| 0u8), DEFAULT_PSP_SEGMENT, exe),
    )
}

/// Whether a run from `start` ends with error `e` after `n` steps: the step
/// counter is exhausted, or the state reached fails to step, with that
/// step's error.
pub open spec fn run_fails_at(start: (Seq<u16>, Seq<u8>), n: nat, e: Seq<char>) -> bool {
    let s = steps_after(start.0, start.1, n);
    ||| n == u64::MAX && e == "step limit reached"@
    ||| step_fails(s.0, s.1) && e == step_error(s.0, s.1)
}

/// Loads `exe` (read from `exe_path`) and runs it until it halts, returning
/// the final registers: those of the state the run from the loaded state
/// reaches by its first HLT (see `halts_after`). An executable that does
/// not fit the machine is refused; any other error is that of the step at
/// which the run stopped, no step before it having failed or halted.
pub fn run(exe_path: &str, exe: Exe) -> (r: Result<Cpu, String>)
    ensures
        !loadable(DEFAULT_PSP_SEGMENT, &exe) ==> (r matches Err(e) && e@ == "executable does not fit in memory"@),
        r matches Ok(cpu) ==> exists|n: nat|
            #[trigger] halts_after(start_state(&exe), n) && steps_after(start_state(&exe).0, start_state(&exe).1, n).0
                == cpu.regs@,
        loadable(DEFAULT_PSP_SEGMENT, &exe) ==> (r matches Err(e) ==> exists|n: nat|
            runs_clear(start_state(&exe), n) && #[trigger] run_fails_at(start_state(&exe), n, e@)),
{
    if !is_loadable(DEFAULT_PSP_SEGMENT, &exe) {
        return Err("executable does not fit in memory".to_string());
    }
    let ghost start = start_state(&exe);
    let mut emu = match Emulator::new(exe_path, exe) {
        Ok(e) => e,
        Err(e) => {
            return Err(e);
        },
    };
    let ghost steps0 = emu.steps();
    let r = emu.run();
    proof {
        let n = (emu.steps() - steps0) as nat;
        if r is Ok {
            assert(halts_after(start, n) && steps_after(start.0, start.1, n).0 == r->Ok_0.regs@);
        } else {
            assert(runs_clear(start, n) && run_fails_at(start, n, r->Err_0@));
        }
    }
    r
}

} // verus!
