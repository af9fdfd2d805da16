# dis86

A verified library for 16-bit x86 real-mode work: an emulator core, the
harnesses that hold it to hardware-captured single-step tests and to a
reference emulator, and the optimisation passes of a decompiler IR. Every
function under `src/` is proved by Verus against its `requires`/`ensures`.

## Layout

- `value`, `flags`, `segoff`, `mem`, `cpu`: operand values, FLAGS bits,
  segment:offset addresses, the 1 MiB (+ HMA) memory and the register file.
- `alu`: the arithmetic, logic, shift, multiply and divide operations with
  their flag effects.
- `instr`, `decode`, `decode_more`: instructions and operands, and a
  decoder for the real-mode instruction set, specified byte for byte.
- `machine`, `string_ops`, `cpu_movs`, `cpu_lods`, `cpu_cmps`, `cpu_stos`,
  `cpu_scas`, `cpu_flow`, `cpu_misc`, `step`: the machine state, the string
  instructions (with REP), jumps, calls and returns, the remaining
  register and stack instructions, and the single step, whose result is
  stated as a relation `executes` over registers and memory. Forms that
  decode but that the CPU does not carry out (BCD adjustment, port I/O,
  software interrupts, ...) make the step fail with an error.
- `mz`, `loader`, `emu`: MZ executables, loading them into a machine and the
  headless emulator with its `Emu` backend trait.
- `policy`, `runner`, `report`, `text`: the classification of the test
  suite's forms, the single-step test runner, a file's run and the text it
  reports.
- `moo`, `micro`: reading and writing MOO test files (a written file reads
  back as the tests written), and the spec and checks of the hermetic
  micro corpus.
- `fixture`, `validator`, `dosemu`: differential-test programs, the lockstep
  comparison of two backends, the command that starts the reference and
  the decisions of its start-up wait, step guard and shutdown protocol.
- `probe`: the checks of the runtime probes that drive a live reference
  through its control block.
- `ir`, `pass`, `opt`: the decompiler IR, a rewrite-pass framework and the
  optimisation passes (constant folding, propagation, CSE, dead code and
  dead block elimination, ...).

`tests/` exercises the library from outside; `app/` is the command line
(file reading, argument parsing, printing), including `run` and
`micro-extract` over MOO files.
