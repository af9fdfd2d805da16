use vstd::prelude::*;

pub mod value;
pub mod flags;
pub mod segoff;
pub mod mem;
pub mod cpu;
pub mod alu;
pub mod machine;
pub mod mz;
pub mod loader;
pub mod instr;
pub mod string_ops;
pub mod cpu_movs;
pub mod cpu_lods;
pub mod cpu_cmps;
pub mod cpu_stos;
pub mod cpu_scas;
pub mod cpu_flow;
pub mod cpu_misc;
pub mod decode;
pub mod decode_more;
pub mod step;
pub mod emu;
pub mod ir;
pub mod pass;
pub mod opt;
pub mod policy;
pub mod text;
pub mod runner;
pub mod fixture;
pub mod validator;
pub mod dosemu;
pub mod report;
pub mod moo;
pub mod micro;
pub mod probe;

verus! {
} // verus!
