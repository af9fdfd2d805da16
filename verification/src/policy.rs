use vstd::prelude::*;
use crate::decode::{decode_one, decodable};
use vstd::string::StringSliceAdditionalSpecFns;
use vstd::string::StringExecFns;
use crate::text::{hex_pad, push_hex, push_str};

verus! {

/// What the emulator can do with a form's opcode.
#[derive(Clone, Copy, Debug, PartialEq, Eq, Structural)]
pub enum Capability {
    /// The step has a working handler for it.
    Implemented,
    /// It decodes, but the step has no handler for it.
    DecodeOnly,
    /// It does not decode.
    Undecodable,
}

impl Capability {
    pub fn name(&self) -> (r: &'static str)
        ensures
            r@ == capability_name(*self)@,
    {
        match self {
            Capability::Implemented => "Implemented",
            Capability::DecodeOnly => "DecodeOnly",
            Capability::Undecodable => "Undecodable",
        }
    }
}

/// The name a capability reports.
pub open spec fn capability_name(c: Capability) -> &'static str {
    match c {
        Capability::Implemented => "Implemented",
        Capability::DecodeOnly => "DecodeOnly",
        Capability::Undecodable => "Undecodable",
    }
}

/// Why a form is outside the conservative first scope.
#[derive(Clone, Copy, Debug, PartialEq, Eq, Structural)]
pub enum DeferReason {
    /// REP and the string-operation family.
    RepString,
    /// LOCK and segment-override prefixes.
    PrefixLock,
    /// IN/OUT port I/O.
    Io,
    /// The INT/INTO/IRET/HLT family.
    IntHlt,
    /// Not implemented (or deliberately excluded) by the emulator.
    NotImplemented,
}

/// Membership of the conservative first scope.
#[derive(Clone, Copy, Debug, PartialEq, Eq, Structural)]
pub enum Scope {
    V1,
    Deferred(DeferReason),
}

/// The name a scope reports.
pub open spec fn scope_name(s: Scope) -> &'static str {
    match s {
        Scope::V1 => "V1",
        Scope::Deferred(DeferReason::RepString) => "DEFERRED(REP/string)",
        Scope::Deferred(DeferReason::PrefixLock) => "DEFERRED(LOCK/prefix)",
        Scope::Deferred(DeferReason::Io) => "DEFERRED(I/O)",
        Scope::Deferred(DeferReason::IntHlt) => "DEFERRED(INT/HLT)",
        Scope::Deferred(DeferReason::NotImplemented) => "DEFERRED(not impl)",
    }
}

impl Scope {
    pub fn name(&self) -> (r: &'static str)
        ensures
            r@ == scope_name(*self)@,
    {
        match self {
            Scope::V1 => "V1",
            Scope::Deferred(DeferReason::RepString) => "DEFERRED(REP/string)",
            Scope::Deferred(DeferReason::PrefixLock) => "DEFERRED(LOCK/prefix)",
            Scope::Deferred(DeferReason::Io) => "DEFERRED(I/O)",
            Scope::Deferred(DeferReason::IntHlt) => "DEFERRED(INT/HLT)",
            Scope::Deferred(DeferReason::NotImplemented) => "DEFERRED(not impl)",
        }
    }
}

/// The classified expectation for one form of the test suite.
#[derive(Clone, Copy, Debug)]
pub struct FormPolicy {
    /// The file's stem (without the `.MOO` extension), such as "80.3".
    pub file: &'static str,
    /// Probe bytes: the opcode, a ModRM byte carrying the group number in
    /// its reg field, and zero padding, for `decode_check`.
    pub opcode_bytes: &'static [u8],
    pub cap: Capability,
    pub scope: Scope,
    /// The FLAGS comparison mask of the form; `None` means the runner's
    /// default.
    pub flags_umask: Option<u16>,
    pub note: &'static str,
}

/// Entries 0 to 24 of the table.
#[verifier::opaque]
pub open spec fn form_part0() -> Seq<FormPolicy> {
    seq![
        FormPolicy { file: "00", opcode_bytes: &[0x00, 0x00, 0x00, 0x00, 0x00, 0x00, 0x00, 0x00], cap: Capability::Implemented, scope: Scope::V1, flags_umask: None, note: "ADD" },
        FormPolicy { file: "01", opcode_bytes: &[0x01, 0x00, 0x00, 0x00, 0x00, 0x00, 0x00, 0x00], cap: Capability::Implemented, scope: Scope::V1, flags_umask: None, note: "ADD" },
        FormPolicy { file: "02", opcode_bytes: &[0x02, 0x00, 0x00, 0x00, 0x00, 0x00, 0x00, 0x00], cap: Capability::Implemented, scope: Scope::V1, flags_umask: None, note: "ADD" },
        FormPolicy { file: "03", opcode_bytes: &[0x03, 0x00, 0x00, 0x00, 0x00, 0x00, 0x00, 0x00], cap: Capability::Implemented, scope: Scope::V1, flags_umask: None, note: "ADD" },
        FormPolicy { file: "04", opcode_bytes: &[0x04, 0x00, 0x00, 0x00, 0x00, 0x00, 0x00, 0x00], cap: Capability::Implemented, scope: Scope::V1, flags_umask: None, note: "ADD" },
        FormPolicy { file: "05", opcode_bytes: &[0x05, 0x00, 0x00, 0x00, 0x00, 0x00, 0x00, 0x00], cap: Capability::Implemented, scope: Scope::V1, flags_umask: None, note: "ADD" },
        FormPolicy { file: "06", opcode_bytes: &[0x06, 0x00, 0x00, 0x00, 0x00, 0x00, 0x00, 0x00], cap: Capability::Implemented, scope: Scope::V1, flags_umask: None, note: "PUSH seg" },
        FormPolicy { file: "07", opcode_bytes: &[0x07, 0x00, 0x00, 0x00, 0x00, 0x00, 0x00, 0x00], cap: Capability::Implemented, scope: Scope::V1, flags_umask: None, note: "POP seg" },
        FormPolicy { file: "08", opcode_bytes: &[0x08, 0x00, 0x00, 0x00, 0x00, 0x00, 0x00, 0x00], cap: Capability::Implemented, scope: Scope::V1, flags_umask: None, note: "OR" },
        FormPolicy { file: "09", opcode_bytes: &[0x09, 0x00, 0x00, 0x00, 0x00, 0x00, 0x00, 0x00], cap: Capability::Implemented, scope: Scope::V1, flags_umask: None, note: "OR" },
        FormPolicy { file: "0A", opcode_bytes: &[0x0A, 0x00, 0x00, 0x00, 0x00, 0x00, 0x00, 0x00], cap: Capability::Implemented, scope: Scope::V1, flags_umask: None, note: "OR" },
        FormPolicy { file: "0B", opcode_bytes: &[0x0B, 0x00, 0x00, 0x00, 0x00, 0x00, 0x00, 0x00], cap: Capability::Implemented, scope: Scope::V1, flags_umask: None, note: "OR" },
        FormPolicy { file: "0C", opcode_bytes: &[0x0C, 0x00, 0x00, 0x00, 0x00, 0x00, 0x00, 0x00], cap: Capability::Implemented, scope: Scope::V1, flags_umask: None, note: "OR" },
        FormPolicy { file: "0D", opcode_bytes: &[0x0D, 0x00, 0x00, 0x00, 0x00, 0x00, 0x00, 0x00], cap: Capability::Implemented, scope: Scope::V1, flags_umask: None, note: "OR" },
        FormPolicy { file: "0E", opcode_bytes: &[0x0E, 0x00, 0x00, 0x00, 0x00, 0x00, 0x00, 0x00], cap: Capability::Implemented, scope: Scope::V1, flags_umask: None, note: "PUSH seg" },
        FormPolicy { file: "10", opcode_bytes: &[0x10, 0x00, 0x00, 0x00, 0x00, 0x00, 0x00, 0x00], cap: Capability::Implemented, scope: Scope::V1, flags_umask: None, note: "ADC" },
        FormPolicy { file: "11", opcode_bytes: &[0x11, 0x00, 0x00, 0x00, 0x00, 0x00, 0x00, 0x00], cap: Capability::Implemented, scope: Scope::V1, flags_umask: None, note: "ADC" },
        FormPolicy { file: "12", opcode_bytes: &[0x12, 0x00, 0x00, 0x00, 0x00, 0x00, 0x00, 0x00], cap: Capability::Implemented, scope: Scope::V1, flags_umask: None, note: "ADC" },
        FormPolicy { file: "13", opcode_bytes: &[0x13, 0x00, 0x00, 0x00, 0x00, 0x00, 0x00, 0x00], cap: Capability::Implemented, scope: Scope::V1, flags_umask: None, note: "ADC" },
        FormPolicy { file: "14", opcode_bytes: &[0x14, 0x00, 0x00, 0x00, 0x00, 0x00, 0x00, 0x00], cap: Capability::Implemented, scope: Scope::V1, flags_umask: None, note: "ADC" },
        FormPolicy { file: "15", opcode_bytes: &[0x15, 0x00, 0x00, 0x00, 0x00, 0x00, 0x00, 0x00], cap: Capability::Implemented, scope: Scope::V1, flags_umask: None, note: "ADC" },
        FormPolicy { file: "16", opcode_bytes: &[0x16, 0x00, 0x00, 0x00, 0x00, 0x00, 0x00, 0x00], cap: Capability::Implemented, scope: Scope::V1, flags_umask: None, note: "PUSH seg" },
        FormPolicy { file: "17", opcode_bytes: &[0x17, 0x00, 0x00, 0x00, 0x00, 0x00, 0x00, 0x00], cap: Capability::Implemented, scope: Scope::V1, flags_umask: None, note: "POP seg" },
        FormPolicy { file: "18", opcode_bytes: &[0x18, 0x00, 0x00, 0x00, 0x00, 0x00, 0x00, 0x00], cap: Capability::Implemented, scope: Scope::V1, flags_umask: None, note: "SBB" },
        FormPolicy { file: "19", opcode_bytes: &[0x19, 0x00, 0x00, 0x00, 0x00, 0x00, 0x00, 0x00], cap: Capability::Implemented, scope: Scope::V1, flags_umask: None, note: "SBB" },
    ]
}

/// Entries 25 to 49 of the table.
#[verifier::opaque]
pub open spec fn form_part1() -> Seq<FormPolicy> {
    seq![
        FormPolicy { file: "1A", opcode_bytes: &[0x1A, 0x00, 0x00, 0x00, 0x00, 0x00, 0x00, 0x00], cap: Capability::Implemented, scope: Scope::V1, flags_umask: None, note: "SBB" },
        FormPolicy { file: "1B", opcode_bytes: &[0x1B, 0x00, 0x00, 0x00, 0x00, 0x00, 0x00, 0x00], cap: Capability::Implemented, scope: Scope::V1, flags_umask: None, note: "SBB" },
        FormPolicy { file: "1C", opcode_bytes: &[0x1C, 0x00, 0x00, 0x00, 0x00, 0x00, 0x00, 0x00], cap: Capability::Implemented, scope: Scope::V1, flags_umask: None, note: "SBB" },
        FormPolicy { file: "1D", opcode_bytes: &[0x1D, 0x00, 0x00, 0x00, 0x00, 0x00, 0x00, 0x00], cap: Capability::Implemented, scope: Scope::V1, flags_umask: None, note: "SBB" },
        FormPolicy { file: "1E", opcode_bytes: &[0x1E, 0x00, 0x00, 0x00, 0x00, 0x00, 0x00, 0x00], cap: Capability::Implemented, scope: Scope::V1, flags_umask: None, note: "PUSH seg" },
        FormPolicy { file: "1F", opcode_bytes: &[0x1F, 0x00, 0x00, 0x00, 0x00, 0x00, 0x00, 0x00], cap: Capability::Implemented, scope: Scope::V1, flags_umask: None, note: "POP seg" },
        FormPolicy { file: "20", opcode_bytes: &[0x20, 0x00, 0x00, 0x00, 0x00, 0x00, 0x00, 0x00], cap: Capability::Implemented, scope: Scope::V1, flags_umask: None, note: "AND" },
        FormPolicy { file: "21", opcode_bytes: &[0x21, 0x00, 0x00, 0x00, 0x00, 0x00, 0x00, 0x00], cap: Capability::Implemented, scope: Scope::V1, flags_umask: None, note: "AND" },
        FormPolicy { file: "22", opcode_bytes: &[0x22, 0x00, 0x00, 0x00, 0x00, 0x00, 0x00, 0x00], cap: Capability::Implemented, scope: Scope::V1, flags_umask: None, note: "AND" },
        FormPolicy { file: "23", opcode_bytes: &[0x23, 0x00, 0x00, 0x00, 0x00, 0x00, 0x00, 0x00], cap: Capability::Implemented, scope: Scope::V1, flags_umask: None, note: "AND" },
        FormPolicy { file: "24", opcode_bytes: &[0x24, 0x00, 0x00, 0x00, 0x00, 0x00, 0x00, 0x00], cap: Capability::Implemented, scope: Scope::V1, flags_umask: None, note: "AND" },
        FormPolicy { file: "25", opcode_bytes: &[0x25, 0x00, 0x00, 0x00, 0x00, 0x00, 0x00, 0x00], cap: Capability::Implemented, scope: Scope::V1, flags_umask: None, note: "AND" },
        FormPolicy { file: "27", opcode_bytes: &[0x27, 0x00, 0x00, 0x00, 0x00, 0x00, 0x00, 0x00], cap: Capability::DecodeOnly, scope: Scope::Deferred(DeferReason::NotImplemented), flags_umask: Some(0x07D7), note: "DAA/DAS/AAA/AAS decode but are not carried out -> PANIC; umask 0x07D7 recorded per Intel flag definitions" },
        FormPolicy { file: "28", opcode_bytes: &[0x28, 0x00, 0x00, 0x00, 0x00, 0x00, 0x00, 0x00], cap: Capability::Implemented, scope: Scope::V1, flags_umask: None, note: "SUB" },
        FormPolicy { file: "29", opcode_bytes: &[0x29, 0x00, 0x00, 0x00, 0x00, 0x00, 0x00, 0x00], cap: Capability::Implemented, scope: Scope::V1, flags_umask: None, note: "SUB" },
        FormPolicy { file: "2A", opcode_bytes: &[0x2A, 0x00, 0x00, 0x00, 0x00, 0x00, 0x00, 0x00], cap: Capability::Implemented, scope: Scope::V1, flags_umask: None, note: "SUB" },
        FormPolicy { file: "2B", opcode_bytes: &[0x2B, 0x00, 0x00, 0x00, 0x00, 0x00, 0x00, 0x00], cap: Capability::Implemented, scope: Scope::V1, flags_umask: None, note: "SUB" },
        FormPolicy { file: "2C", opcode_bytes: &[0x2C, 0x00, 0x00, 0x00, 0x00, 0x00, 0x00, 0x00], cap: Capability::Implemented, scope: Scope::V1, flags_umask: None, note: "SUB" },
        FormPolicy { file: "2D", opcode_bytes: &[0x2D, 0x00, 0x00, 0x00, 0x00, 0x00, 0x00, 0x00], cap: Capability::Implemented, scope: Scope::V1, flags_umask: None, note: "SUB" },
        FormPolicy { file: "2F", opcode_bytes: &[0x2F, 0x00, 0x00, 0x00, 0x00, 0x00, 0x00, 0x00], cap: Capability::DecodeOnly, scope: Scope::Deferred(DeferReason::NotImplemented), flags_umask: Some(0x07D7), note: "DAA/DAS/AAA/AAS decode but are not carried out -> PANIC; umask 0x07D7 recorded per Intel flag definitions" },
        FormPolicy { file: "30", opcode_bytes: &[0x30, 0x00, 0x00, 0x00, 0x00, 0x00, 0x00, 0x00], cap: Capability::Implemented, scope: Scope::V1, flags_umask: None, note: "XOR" },
        FormPolicy { file: "31", opcode_bytes: &[0x31, 0x00, 0x00, 0x00, 0x00, 0x00, 0x00, 0x00], cap: Capability::Implemented, scope: Scope::V1, flags_umask: None, note: "XOR" },
        FormPolicy { file: "32", opcode_bytes: &[0x32, 0x00, 0x00, 0x00, 0x00, 0x00, 0x00, 0x00], cap: Capability::Implemented, scope: Scope::V1, flags_umask: None, note: "XOR" },
        FormPolicy { file: "33", opcode_bytes: &[0x33, 0x00, 0x00, 0x00, 0x00, 0x00, 0x00, 0x00], cap: Capability::Implemented, scope: Scope::V1, flags_umask: None, note: "XOR" },
        FormPolicy { file: "34", opcode_bytes: &[0x34, 0x00, 0x00, 0x00, 0x00, 0x00, 0x00, 0x00], cap: Capability::Implemented, scope: Scope::V1, flags_umask: None, note: "XOR" },
    ]
}

/// Entries 50 to 74 of the table.
#[verifier::opaque]
pub open spec fn form_part2() -> Seq<FormPolicy> {
    seq![
        FormPolicy { file: "35", opcode_bytes: &[0x35, 0x00, 0x00, 0x00, 0x00, 0x00, 0x00, 0x00], cap: Capability::Implemented, scope: Scope::V1, flags_umask: None, note: "XOR" },
        FormPolicy { file: "37", opcode_bytes: &[0x37, 0x00, 0x00, 0x00, 0x00, 0x00, 0x00, 0x00], cap: Capability::DecodeOnly, scope: Scope::Deferred(DeferReason::NotImplemented), flags_umask: Some(0x0011), note: "DAA/DAS/AAA/AAS decode but are not carried out -> PANIC; umask 0x0011 recorded per Intel flag definitions" },
        FormPolicy { file: "38", opcode_bytes: &[0x38, 0x00, 0x00, 0x00, 0x00, 0x00, 0x00, 0x00], cap: Capability::Implemented, scope: Scope::V1, flags_umask: None, note: "CMP" },
        FormPolicy { file: "39", opcode_bytes: &[0x39, 0x00, 0x00, 0x00, 0x00, 0x00, 0x00, 0x00], cap: Capability::Implemented, scope: Scope::V1, flags_umask: None, note: "CMP" },
        FormPolicy { file: "3A", opcode_bytes: &[0x3A, 0x00, 0x00, 0x00, 0x00, 0x00, 0x00, 0x00], cap: Capability::Implemented, scope: Scope::V1, flags_umask: None, note: "CMP" },
        FormPolicy { file: "3B", opcode_bytes: &[0x3B, 0x00, 0x00, 0x00, 0x00, 0x00, 0x00, 0x00], cap: Capability::Implemented, scope: Scope::V1, flags_umask: None, note: "CMP" },
        FormPolicy { file: "3C", opcode_bytes: &[0x3C, 0x00, 0x00, 0x00, 0x00, 0x00, 0x00, 0x00], cap: Capability::Implemented, scope: Scope::V1, flags_umask: None, note: "CMP" },
        FormPolicy { file: "3D", opcode_bytes: &[0x3D, 0x00, 0x00, 0x00, 0x00, 0x00, 0x00, 0x00], cap: Capability::Implemented, scope: Scope::V1, flags_umask: None, note: "CMP" },
        FormPolicy { file: "3F", opcode_bytes: &[0x3F, 0x00, 0x00, 0x00, 0x00, 0x00, 0x00, 0x00], cap: Capability::DecodeOnly, scope: Scope::Deferred(DeferReason::NotImplemented), flags_umask: Some(0x0011), note: "DAA/DAS/AAA/AAS decode but are not carried out -> PANIC; umask 0x0011 recorded per Intel flag definitions" },
        FormPolicy { file: "40", opcode_bytes: &[0x40, 0x00, 0x00, 0x00, 0x00, 0x00, 0x00, 0x00], cap: Capability::Implemented, scope: Scope::V1, flags_umask: None, note: "INC r16" },
        FormPolicy { file: "41", opcode_bytes: &[0x41, 0x00, 0x00, 0x00, 0x00, 0x00, 0x00, 0x00], cap: Capability::Implemented, scope: Scope::V1, flags_umask: None, note: "INC r16" },
        FormPolicy { file: "42", opcode_bytes: &[0x42, 0x00, 0x00, 0x00, 0x00, 0x00, 0x00, 0x00], cap: Capability::Implemented, scope: Scope::V1, flags_umask: None, note: "INC r16" },
        FormPolicy { file: "43", opcode_bytes: &[0x43, 0x00, 0x00, 0x00, 0x00, 0x00, 0x00, 0x00], cap: Capability::Implemented, scope: Scope::V1, flags_umask: None, note: "INC r16" },
        FormPolicy { file: "44", opcode_bytes: &[0x44, 0x00, 0x00, 0x00, 0x00, 0x00, 0x00, 0x00], cap: Capability::Implemented, scope: Scope::V1, flags_umask: None, note: "INC r16" },
        FormPolicy { file: "45", opcode_bytes: &[0x45, 0x00, 0x00, 0x00, 0x00, 0x00, 0x00, 0x00], cap: Capability::Implemented, scope: Scope::V1, flags_umask: None, note: "INC r16" },
        FormPolicy { file: "46", opcode_bytes: &[0x46, 0x00, 0x00, 0x00, 0x00, 0x00, 0x00, 0x00], cap: Capability::Implemented, scope: Scope::V1, flags_umask: None, note: "INC r16" },
        FormPolicy { file: "47", opcode_bytes: &[0x47, 0x00, 0x00, 0x00, 0x00, 0x00, 0x00, 0x00], cap: Capability::Implemented, scope: Scope::V1, flags_umask: None, note: "INC r16" },
        FormPolicy { file: "48", opcode_bytes: &[0x48, 0x00, 0x00, 0x00, 0x00, 0x00, 0x00, 0x00], cap: Capability::Implemented, scope: Scope::V1, flags_umask: None, note: "DEC r16" },
        FormPolicy { file: "49", opcode_bytes: &[0x49, 0x00, 0x00, 0x00, 0x00, 0x00, 0x00, 0x00], cap: Capability::Implemented, scope: Scope::V1, flags_umask: None, note: "DEC r16" },
        FormPolicy { file: "4A", opcode_bytes: &[0x4A, 0x00, 0x00, 0x00, 0x00, 0x00, 0x00, 0x00], cap: Capability::Implemented, scope: Scope::V1, flags_umask: None, note: "DEC r16" },
        FormPolicy { file: "4B", opcode_bytes: &[0x4B, 0x00, 0x00, 0x00, 0x00, 0x00, 0x00, 0x00], cap: Capability::Implemented, scope: Scope::V1, flags_umask: None, note: "DEC r16" },
        FormPolicy { file: "4C", opcode_bytes: &[0x4C, 0x00, 0x00, 0x00, 0x00, 0x00, 0x00, 0x00], cap: Capability::Implemented, scope: Scope::V1, flags_umask: None, note: "DEC r16" },
        FormPolicy { file: "4D", opcode_bytes: &[0x4D, 0x00, 0x00, 0x00, 0x00, 0x00, 0x00, 0x00], cap: Capability::Implemented, scope: Scope::V1, flags_umask: None, note: "DEC r16" },
        FormPolicy { file: "4E", opcode_bytes: &[0x4E, 0x00, 0x00, 0x00, 0x00, 0x00, 0x00, 0x00], cap: Capability::Implemented, scope: Scope::V1, flags_umask: None, note: "DEC r16" },
        FormPolicy { file: "4F", opcode_bytes: &[0x4F, 0x00, 0x00, 0x00, 0x00, 0x00, 0x00, 0x00], cap: Capability::Implemented, scope: Scope::V1, flags_umask: None, note: "DEC r16" },
    ]
}

/// Entries 75 to 99 of the table.
#[verifier::opaque]
pub open spec fn form_part3() -> Seq<FormPolicy> {
    seq![
        FormPolicy { file: "50", opcode_bytes: &[0x50, 0x00, 0x00, 0x00, 0x00, 0x00, 0x00, 0x00], cap: Capability::Implemented, scope: Scope::V1, flags_umask: None, note: "PUSH r16" },
        FormPolicy { file: "51", opcode_bytes: &[0x51, 0x00, 0x00, 0x00, 0x00, 0x00, 0x00, 0x00], cap: Capability::Implemented, scope: Scope::V1, flags_umask: None, note: "PUSH r16" },
        FormPolicy { file: "52", opcode_bytes: &[0x52, 0x00, 0x00, 0x00, 0x00, 0x00, 0x00, 0x00], cap: Capability::Implemented, scope: Scope::V1, flags_umask: None, note: "PUSH r16" },
        FormPolicy { file: "53", opcode_bytes: &[0x53, 0x00, 0x00, 0x00, 0x00, 0x00, 0x00, 0x00], cap: Capability::Implemented, scope: Scope::V1, flags_umask: None, note: "PUSH r16" },
        FormPolicy { file: "54", opcode_bytes: &[0x54, 0x00, 0x00, 0x00, 0x00, 0x00, 0x00, 0x00], cap: Capability::Implemented, scope: Scope::V1, flags_umask: None, note: "PUSH r16" },
        FormPolicy { file: "55", opcode_bytes: &[0x55, 0x00, 0x00, 0x00, 0x00, 0x00, 0x00, 0x00], cap: Capability::Implemented, scope: Scope::V1, flags_umask: None, note: "PUSH r16" },
        FormPolicy { file: "56", opcode_bytes: &[0x56, 0x00, 0x00, 0x00, 0x00, 0x00, 0x00, 0x00], cap: Capability::Implemented, scope: Scope::V1, flags_umask: None, note: "PUSH r16" },
        FormPolicy { file: "57", opcode_bytes: &[0x57, 0x00, 0x00, 0x00, 0x00, 0x00, 0x00, 0x00], cap: Capability::Implemented, scope: Scope::V1, flags_umask: None, note: "PUSH r16" },
        FormPolicy { file: "58", opcode_bytes: &[0x58, 0x00, 0x00, 0x00, 0x00, 0x00, 0x00, 0x00], cap: Capability::Implemented, scope: Scope::V1, flags_umask: None, note: "POP r16" },
        FormPolicy { file: "59", opcode_bytes: &[0x59, 0x00, 0x00, 0x00, 0x00, 0x00, 0x00, 0x00], cap: Capability::Implemented, scope: Scope::V1, flags_umask: None, note: "POP r16" },
        FormPolicy { file: "5A", opcode_bytes: &[0x5A, 0x00, 0x00, 0x00, 0x00, 0x00, 0x00, 0x00], cap: Capability::Implemented, scope: Scope::V1, flags_umask: None, note: "POP r16" },
        FormPolicy { file: "5B", opcode_bytes: &[0x5B, 0x00, 0x00, 0x00, 0x00, 0x00, 0x00, 0x00], cap: Capability::Implemented, scope: Scope::V1, flags_umask: None, note: "POP r16" },
        FormPolicy { file: "5C", opcode_bytes: &[0x5C, 0x00, 0x00, 0x00, 0x00, 0x00, 0x00, 0x00], cap: Capability::Implemented, scope: Scope::V1, flags_umask: None, note: "POP r16" },
        FormPolicy { file: "5D", opcode_bytes: &[0x5D, 0x00, 0x00, 0x00, 0x00, 0x00, 0x00, 0x00], cap: Capability::Implemented, scope: Scope::V1, flags_umask: None, note: "POP r16" },
        FormPolicy { file: "5E", opcode_bytes: &[0x5E, 0x00, 0x00, 0x00, 0x00, 0x00, 0x00, 0x00], cap: Capability::Implemented, scope: Scope::V1, flags_umask: None, note: "POP r16" },
        FormPolicy { file: "5F", opcode_bytes: &[0x5F, 0x00, 0x00, 0x00, 0x00, 0x00, 0x00, 0x00], cap: Capability::Implemented, scope: Scope::V1, flags_umask: None, note: "POP r16" },
        FormPolicy { file: "60", opcode_bytes: &[0x60, 0x00, 0x00, 0x00, 0x00, 0x00, 0x00, 0x00], cap: Capability::DecodeOnly, scope: Scope::Deferred(DeferReason::NotImplemented), flags_umask: None, note: "PUSHA/POPA decode but are not carried out -> PANIC" },
        FormPolicy { file: "61", opcode_bytes: &[0x61, 0x00, 0x00, 0x00, 0x00, 0x00, 0x00, 0x00], cap: Capability::DecodeOnly, scope: Scope::Deferred(DeferReason::NotImplemented), flags_umask: None, note: "PUSHA/POPA decode but are not carried out -> PANIC" },
        FormPolicy { file: "62", opcode_bytes: &[0x62, 0x00, 0x00, 0x00, 0x00, 0x00, 0x00, 0x00], cap: Capability::Undecodable, scope: Scope::Deferred(DeferReason::NotImplemented), flags_umask: None, note: "BOUND does not decode -> DECODE_ERR" },
        FormPolicy { file: "68", opcode_bytes: &[0x68, 0x00, 0x00, 0x00, 0x00, 0x00, 0x00, 0x00], cap: Capability::Implemented, scope: Scope::V1, flags_umask: None, note: "PUSH imm16" },
        FormPolicy { file: "69", opcode_bytes: &[0x69, 0x00, 0x00, 0x00, 0x00, 0x00, 0x00, 0x00], cap: Capability::Implemented, scope: Scope::V1, flags_umask: None, note: "IMUL r16,rm16,imm16; CF/OF defined, rest undefined (Intel 80286)" },
        FormPolicy { file: "6A", opcode_bytes: &[0x6A, 0x00, 0x00, 0x00, 0x00, 0x00, 0x00, 0x00], cap: Capability::Implemented, scope: Scope::V1, flags_umask: None, note: "PUSH imm8" },
        FormPolicy { file: "6B", opcode_bytes: &[0x6B, 0x00, 0x00, 0x00, 0x00, 0x00, 0x00, 0x00], cap: Capability::Implemented, scope: Scope::V1, flags_umask: None, note: "IMUL r16,rm16,imm8; CF/OF defined, rest undefined (Intel 80286)" },
        FormPolicy { file: "6C", opcode_bytes: &[0x6C, 0x06, 0x00, 0x00, 0x00, 0x00, 0x00, 0x00], cap: Capability::DecodeOnly, scope: Scope::Deferred(DeferReason::RepString), flags_umask: None, note: "INS/OUTS decode but are not carried out -> PANIC; string I/O, deferred" },
        FormPolicy { file: "6D", opcode_bytes: &[0x6D, 0x06, 0x00, 0x00, 0x00, 0x00, 0x00, 0x00], cap: Capability::DecodeOnly, scope: Scope::Deferred(DeferReason::RepString), flags_umask: None, note: "INS/OUTS decode but are not carried out -> PANIC; string I/O, deferred" },
    ]
}

/// Entries 100 to 124 of the table.
#[verifier::opaque]
pub open spec fn form_part4() -> Seq<FormPolicy> {
    seq![
        FormPolicy { file: "6E", opcode_bytes: &[0x6E, 0x06, 0x00, 0x00, 0x00, 0x00, 0x00, 0x00], cap: Capability::DecodeOnly, scope: Scope::Deferred(DeferReason::RepString), flags_umask: None, note: "INS/OUTS decode but are not carried out -> PANIC; string I/O, deferred" },
        FormPolicy { file: "6F", opcode_bytes: &[0x6F, 0x06, 0x00, 0x00, 0x00, 0x00, 0x00, 0x00], cap: Capability::DecodeOnly, scope: Scope::Deferred(DeferReason::RepString), flags_umask: None, note: "INS/OUTS decode but are not carried out -> PANIC; string I/O, deferred" },
        FormPolicy { file: "70", opcode_bytes: &[0x70, 0x00, 0x00, 0x00, 0x00, 0x00, 0x00, 0x00], cap: Capability::Implemented, scope: Scope::V1, flags_umask: None, note: "Jcc rel8" },
        FormPolicy { file: "71", opcode_bytes: &[0x71, 0x00, 0x00, 0x00, 0x00, 0x00, 0x00, 0x00], cap: Capability::Implemented, scope: Scope::V1, flags_umask: None, note: "Jcc rel8" },
        FormPolicy { file: "72", opcode_bytes: &[0x72, 0x00, 0x00, 0x00, 0x00, 0x00, 0x00, 0x00], cap: Capability::Implemented, scope: Scope::V1, flags_umask: None, note: "Jcc rel8" },
        FormPolicy { file: "73", opcode_bytes: &[0x73, 0x00, 0x00, 0x00, 0x00, 0x00, 0x00, 0x00], cap: Capability::Implemented, scope: Scope::V1, flags_umask: None, note: "Jcc rel8" },
        FormPolicy { file: "74", opcode_bytes: &[0x74, 0x00, 0x00, 0x00, 0x00, 0x00, 0x00, 0x00], cap: Capability::Implemented, scope: Scope::V1, flags_umask: None, note: "Jcc rel8" },
        FormPolicy { file: "75", opcode_bytes: &[0x75, 0x00, 0x00, 0x00, 0x00, 0x00, 0x00, 0x00], cap: Capability::Implemented, scope: Scope::V1, flags_umask: None, note: "Jcc rel8" },
        FormPolicy { file: "76", opcode_bytes: &[0x76, 0x00, 0x00, 0x00, 0x00, 0x00, 0x00, 0x00], cap: Capability::Implemented, scope: Scope::V1, flags_umask: None, note: "Jcc rel8" },
        FormPolicy { file: "77", opcode_bytes: &[0x77, 0x00, 0x00, 0x00, 0x00, 0x00, 0x00, 0x00], cap: Capability::Implemented, scope: Scope::V1, flags_umask: None, note: "Jcc rel8" },
        FormPolicy { file: "78", opcode_bytes: &[0x78, 0x00, 0x00, 0x00, 0x00, 0x00, 0x00, 0x00], cap: Capability::Implemented, scope: Scope::V1, flags_umask: None, note: "Jcc rel8" },
        FormPolicy { file: "79", opcode_bytes: &[0x79, 0x00, 0x00, 0x00, 0x00, 0x00, 0x00, 0x00], cap: Capability::Implemented, scope: Scope::V1, flags_umask: None, note: "Jcc rel8" },
        FormPolicy { file: "7A", opcode_bytes: &[0x7A, 0x00, 0x00, 0x00, 0x00, 0x00, 0x00, 0x00], cap: Capability::Implemented, scope: Scope::V1, flags_umask: None, note: "Jcc rel8" },
        FormPolicy { file: "7B", opcode_bytes: &[0x7B, 0x00, 0x00, 0x00, 0x00, 0x00, 0x00, 0x00], cap: Capability::Implemented, scope: Scope::V1, flags_umask: None, note: "Jcc rel8" },
        FormPolicy { file: "7C", opcode_bytes: &[0x7C, 0x00, 0x00, 0x00, 0x00, 0x00, 0x00, 0x00], cap: Capability::Implemented, scope: Scope::V1, flags_umask: None, note: "Jcc rel8" },
        FormPolicy { file: "7D", opcode_bytes: &[0x7D, 0x00, 0x00, 0x00, 0x00, 0x00, 0x00, 0x00], cap: Capability::Implemented, scope: Scope::V1, flags_umask: None, note: "Jcc rel8" },
        FormPolicy { file: "7E", opcode_bytes: &[0x7E, 0x00, 0x00, 0x00, 0x00, 0x00, 0x00, 0x00], cap: Capability::Implemented, scope: Scope::V1, flags_umask: None, note: "Jcc rel8" },
        FormPolicy { file: "7F", opcode_bytes: &[0x7F, 0x00, 0x00, 0x00, 0x00, 0x00, 0x00, 0x00], cap: Capability::Implemented, scope: Scope::V1, flags_umask: None, note: "Jcc rel8" },
        FormPolicy { file: "80.0", opcode_bytes: &[0x80, 0xC0, 0x00, 0x00, 0x00, 0x00, 0x00, 0x00], cap: Capability::Implemented, scope: Scope::V1, flags_umask: None, note: "ADD grp1" },
        FormPolicy { file: "80.1", opcode_bytes: &[0x80, 0xC8, 0x00, 0x00, 0x00, 0x00, 0x00, 0x00], cap: Capability::Implemented, scope: Scope::V1, flags_umask: None, note: "OR grp1" },
        FormPolicy { file: "80.2", opcode_bytes: &[0x80, 0xD0, 0x00, 0x00, 0x00, 0x00, 0x00, 0x00], cap: Capability::Implemented, scope: Scope::V1, flags_umask: None, note: "ADC grp1" },
        FormPolicy { file: "80.3", opcode_bytes: &[0x80, 0xD8, 0x00, 0x00, 0x00, 0x00, 0x00, 0x00], cap: Capability::Implemented, scope: Scope::V1, flags_umask: None, note: "SBB grp1" },
        FormPolicy { file: "80.4", opcode_bytes: &[0x80, 0xE0, 0x00, 0x00, 0x00, 0x00, 0x00, 0x00], cap: Capability::Implemented, scope: Scope::V1, flags_umask: None, note: "AND grp1" },
        FormPolicy { file: "80.5", opcode_bytes: &[0x80, 0xE8, 0x00, 0x00, 0x00, 0x00, 0x00, 0x00], cap: Capability::Implemented, scope: Scope::V1, flags_umask: None, note: "SUB grp1" },
        FormPolicy { file: "80.6", opcode_bytes: &[0x80, 0xF0, 0x00, 0x00, 0x00, 0x00, 0x00, 0x00], cap: Capability::Implemented, scope: Scope::V1, flags_umask: None, note: "XOR grp1" },
    ]
}

/// Entries 125 to 149 of the table.
#[verifier::opaque]
pub open spec fn form_part5() -> Seq<FormPolicy> {
    seq![
        FormPolicy { file: "80.7", opcode_bytes: &[0x80, 0xF8, 0x00, 0x00, 0x00, 0x00, 0x00, 0x00], cap: Capability::Implemented, scope: Scope::V1, flags_umask: None, note: "CMP grp1" },
        FormPolicy { file: "81.0", opcode_bytes: &[0x81, 0xC0, 0x00, 0x00, 0x00, 0x00, 0x00, 0x00], cap: Capability::Implemented, scope: Scope::V1, flags_umask: None, note: "ADD grp1" },
        FormPolicy { file: "81.1", opcode_bytes: &[0x81, 0xC8, 0x00, 0x00, 0x00, 0x00, 0x00, 0x00], cap: Capability::Implemented, scope: Scope::V1, flags_umask: None, note: "OR grp1" },
        FormPolicy { file: "81.2", opcode_bytes: &[0x81, 0xD0, 0x00, 0x00, 0x00, 0x00, 0x00, 0x00], cap: Capability::Implemented, scope: Scope::V1, flags_umask: None, note: "ADC grp1" },
        FormPolicy { file: "81.3", opcode_bytes: &[0x81, 0xD8, 0x00, 0x00, 0x00, 0x00, 0x00, 0x00], cap: Capability::Implemented, scope: Scope::V1, flags_umask: None, note: "SBB grp1" },
        FormPolicy { file: "81.4", opcode_bytes: &[0x81, 0xE0, 0x00, 0x00, 0x00, 0x00, 0x00, 0x00], cap: Capability::Implemented, scope: Scope::V1, flags_umask: None, note: "AND grp1" },
        FormPolicy { file: "81.5", opcode_bytes: &[0x81, 0xE8, 0x00, 0x00, 0x00, 0x00, 0x00, 0x00], cap: Capability::Implemented, scope: Scope::V1, flags_umask: None, note: "SUB grp1" },
        FormPolicy { file: "81.6", opcode_bytes: &[0x81, 0xF0, 0x00, 0x00, 0x00, 0x00, 0x00, 0x00], cap: Capability::Implemented, scope: Scope::V1, flags_umask: None, note: "XOR grp1" },
        FormPolicy { file: "81.7", opcode_bytes: &[0x81, 0xF8, 0x00, 0x00, 0x00, 0x00, 0x00, 0x00], cap: Capability::Implemented, scope: Scope::V1, flags_umask: None, note: "CMP grp1" },
        FormPolicy { file: "82.0", opcode_bytes: &[0x82, 0xC0, 0x00, 0x00, 0x00, 0x00, 0x00, 0x00], cap: Capability::Implemented, scope: Scope::V1, flags_umask: None, note: "ADD grp1" },
        FormPolicy { file: "82.1", opcode_bytes: &[0x82, 0xC8, 0x00, 0x00, 0x00, 0x00, 0x00, 0x00], cap: Capability::Implemented, scope: Scope::V1, flags_umask: None, note: "OR grp1" },
        FormPolicy { file: "82.2", opcode_bytes: &[0x82, 0xD0, 0x00, 0x00, 0x00, 0x00, 0x00, 0x00], cap: Capability::Implemented, scope: Scope::V1, flags_umask: None, note: "ADC grp1" },
        FormPolicy { file: "82.3", opcode_bytes: &[0x82, 0xD8, 0x00, 0x00, 0x00, 0x00, 0x00, 0x00], cap: Capability::Implemented, scope: Scope::V1, flags_umask: None, note: "SBB grp1" },
        FormPolicy { file: "82.4", opcode_bytes: &[0x82, 0xE0, 0x00, 0x00, 0x00, 0x00, 0x00, 0x00], cap: Capability::Implemented, scope: Scope::V1, flags_umask: None, note: "AND grp1" },
        FormPolicy { file: "82.5", opcode_bytes: &[0x82, 0xE8, 0x00, 0x00, 0x00, 0x00, 0x00, 0x00], cap: Capability::Implemented, scope: Scope::V1, flags_umask: None, note: "SUB grp1" },
        FormPolicy { file: "82.6", opcode_bytes: &[0x82, 0xF0, 0x00, 0x00, 0x00, 0x00, 0x00, 0x00], cap: Capability::Implemented, scope: Scope::V1, flags_umask: None, note: "XOR grp1" },
        FormPolicy { file: "82.7", opcode_bytes: &[0x82, 0xF8, 0x00, 0x00, 0x00, 0x00, 0x00, 0x00], cap: Capability::Implemented, scope: Scope::V1, flags_umask: None, note: "CMP grp1" },
        FormPolicy { file: "83.0", opcode_bytes: &[0x83, 0xC0, 0x00, 0x00, 0x00, 0x00, 0x00, 0x00], cap: Capability::Implemented, scope: Scope::V1, flags_umask: None, note: "ADD grp1" },
        FormPolicy { file: "83.1", opcode_bytes: &[0x83, 0xC8, 0x00, 0x00, 0x00, 0x00, 0x00, 0x00], cap: Capability::Implemented, scope: Scope::V1, flags_umask: None, note: "OR grp1" },
        FormPolicy { file: "83.2", opcode_bytes: &[0x83, 0xD0, 0x00, 0x00, 0x00, 0x00, 0x00, 0x00], cap: Capability::Implemented, scope: Scope::V1, flags_umask: None, note: "ADC grp1" },
        FormPolicy { file: "83.3", opcode_bytes: &[0x83, 0xD8, 0x00, 0x00, 0x00, 0x00, 0x00, 0x00], cap: Capability::Implemented, scope: Scope::V1, flags_umask: None, note: "SBB grp1" },
        FormPolicy { file: "83.4", opcode_bytes: &[0x83, 0xE0, 0x00, 0x00, 0x00, 0x00, 0x00, 0x00], cap: Capability::Implemented, scope: Scope::V1, flags_umask: None, note: "AND grp1" },
        FormPolicy { file: "83.5", opcode_bytes: &[0x83, 0xE8, 0x00, 0x00, 0x00, 0x00, 0x00, 0x00], cap: Capability::Implemented, scope: Scope::V1, flags_umask: None, note: "SUB grp1" },
        FormPolicy { file: "83.6", opcode_bytes: &[0x83, 0xF0, 0x00, 0x00, 0x00, 0x00, 0x00, 0x00], cap: Capability::Implemented, scope: Scope::V1, flags_umask: None, note: "XOR grp1" },
        FormPolicy { file: "83.7", opcode_bytes: &[0x83, 0xF8, 0x00, 0x00, 0x00, 0x00, 0x00, 0x00], cap: Capability::Implemented, scope: Scope::V1, flags_umask: None, note: "CMP grp1" },
    ]
}

/// Entries 150 to 174 of the table.
#[verifier::opaque]
pub open spec fn form_part6() -> Seq<FormPolicy> {
    seq![
        FormPolicy { file: "84", opcode_bytes: &[0x84, 0x00, 0x00, 0x00, 0x00, 0x00, 0x00, 0x00], cap: Capability::Implemented, scope: Scope::V1, flags_umask: None, note: "TEST rm8,r8" },
        FormPolicy { file: "85", opcode_bytes: &[0x85, 0x00, 0x00, 0x00, 0x00, 0x00, 0x00, 0x00], cap: Capability::Implemented, scope: Scope::V1, flags_umask: None, note: "TEST rm16,r16" },
        FormPolicy { file: "86", opcode_bytes: &[0x86, 0x00, 0x00, 0x00, 0x00, 0x00, 0x00, 0x00], cap: Capability::Implemented, scope: Scope::V1, flags_umask: None, note: "XCHG r8,rm8" },
        FormPolicy { file: "87", opcode_bytes: &[0x87, 0x00, 0x00, 0x00, 0x00, 0x00, 0x00, 0x00], cap: Capability::Implemented, scope: Scope::V1, flags_umask: None, note: "XCHG r16,rm16" },
        FormPolicy { file: "88", opcode_bytes: &[0x88, 0x00, 0x00, 0x00, 0x00, 0x00, 0x00, 0x00], cap: Capability::Implemented, scope: Scope::V1, flags_umask: None, note: "MOV rm8,r8" },
        FormPolicy { file: "89", opcode_bytes: &[0x89, 0x00, 0x00, 0x00, 0x00, 0x00, 0x00, 0x00], cap: Capability::Implemented, scope: Scope::V1, flags_umask: None, note: "MOV rm16,r16" },
        FormPolicy { file: "8A", opcode_bytes: &[0x8A, 0x00, 0x00, 0x00, 0x00, 0x00, 0x00, 0x00], cap: Capability::Implemented, scope: Scope::V1, flags_umask: None, note: "MOV r8,rm8" },
        FormPolicy { file: "8B", opcode_bytes: &[0x8B, 0x00, 0x00, 0x00, 0x00, 0x00, 0x00, 0x00], cap: Capability::Implemented, scope: Scope::V1, flags_umask: None, note: "MOV r16,rm16" },
        FormPolicy { file: "8C", opcode_bytes: &[0x8C, 0x00, 0x00, 0x00, 0x00, 0x00, 0x00, 0x00], cap: Capability::Implemented, scope: Scope::V1, flags_umask: None, note: "MOV rm16,sreg" },
        FormPolicy { file: "8D", opcode_bytes: &[0x8D, 0x06, 0x00, 0x00, 0x00, 0x00, 0x00, 0x00], cap: Capability::Implemented, scope: Scope::V1, flags_umask: None, note: "LEA r16,m" },
        FormPolicy { file: "8E", opcode_bytes: &[0x8E, 0x00, 0x00, 0x00, 0x00, 0x00, 0x00, 0x00], cap: Capability::Implemented, scope: Scope::V1, flags_umask: None, note: "MOV sreg,rm16" },
        FormPolicy { file: "8F", opcode_bytes: &[0x8F, 0x00, 0x00, 0x00, 0x00, 0x00, 0x00, 0x00], cap: Capability::Implemented, scope: Scope::V1, flags_umask: None, note: "POP rm16" },
        FormPolicy { file: "90", opcode_bytes: &[0x90, 0x00, 0x00, 0x00, 0x00, 0x00, 0x00, 0x00], cap: Capability::Implemented, scope: Scope::V1, flags_umask: None, note: "NOP" },
        FormPolicy { file: "91", opcode_bytes: &[0x91, 0x00, 0x00, 0x00, 0x00, 0x00, 0x00, 0x00], cap: Capability::Implemented, scope: Scope::V1, flags_umask: None, note: "XCHG r16,AX" },
        FormPolicy { file: "92", opcode_bytes: &[0x92, 0x00, 0x00, 0x00, 0x00, 0x00, 0x00, 0x00], cap: Capability::Implemented, scope: Scope::V1, flags_umask: None, note: "XCHG r16,AX" },
        FormPolicy { file: "93", opcode_bytes: &[0x93, 0x00, 0x00, 0x00, 0x00, 0x00, 0x00, 0x00], cap: Capability::Implemented, scope: Scope::V1, flags_umask: None, note: "XCHG r16,AX" },
        FormPolicy { file: "94", opcode_bytes: &[0x94, 0x00, 0x00, 0x00, 0x00, 0x00, 0x00, 0x00], cap: Capability::Implemented, scope: Scope::V1, flags_umask: None, note: "XCHG r16,AX" },
        FormPolicy { file: "95", opcode_bytes: &[0x95, 0x00, 0x00, 0x00, 0x00, 0x00, 0x00, 0x00], cap: Capability::Implemented, scope: Scope::V1, flags_umask: None, note: "XCHG r16,AX" },
        FormPolicy { file: "96", opcode_bytes: &[0x96, 0x00, 0x00, 0x00, 0x00, 0x00, 0x00, 0x00], cap: Capability::Implemented, scope: Scope::V1, flags_umask: None, note: "XCHG r16,AX" },
        FormPolicy { file: "97", opcode_bytes: &[0x97, 0x00, 0x00, 0x00, 0x00, 0x00, 0x00, 0x00], cap: Capability::Implemented, scope: Scope::V1, flags_umask: None, note: "XCHG r16,AX" },
        FormPolicy { file: "98", opcode_bytes: &[0x98, 0x00, 0x00, 0x00, 0x00, 0x00, 0x00, 0x00], cap: Capability::Implemented, scope: Scope::V1, flags_umask: None, note: "CBW; no flags affected (Intel 80286)" },
        FormPolicy { file: "99", opcode_bytes: &[0x99, 0x00, 0x00, 0x00, 0x00, 0x00, 0x00, 0x00], cap: Capability::Implemented, scope: Scope::V1, flags_umask: None, note: "CWD; no flags affected (Intel 80286)" },
        FormPolicy { file: "9A", opcode_bytes: &[0x9A, 0x00, 0x00, 0x00, 0x00, 0x00, 0x00, 0x00], cap: Capability::Implemented, scope: Scope::V1, flags_umask: None, note: "CALLF far" },
        FormPolicy { file: "9B", opcode_bytes: &[0x9B, 0x00, 0x00, 0x00, 0x00, 0x00, 0x00, 0x00], cap: Capability::Undecodable, scope: Scope::Deferred(DeferReason::NotImplemented), flags_umask: None, note: "WAIT does not decode -> DECODE_ERR" },
        FormPolicy { file: "9C", opcode_bytes: &[0x9C, 0x00, 0x00, 0x00, 0x00, 0x00, 0x00, 0x00], cap: Capability::Implemented, scope: Scope::V1, flags_umask: None, note: "PUSHF" },
    ]
}

/// Entries 175 to 199 of the table.
#[verifier::opaque]
pub open spec fn form_part7() -> Seq<FormPolicy> {
    seq![
        FormPolicy { file: "9D", opcode_bytes: &[0x9D, 0x00, 0x00, 0x00, 0x00, 0x00, 0x00, 0x00], cap: Capability::Implemented, scope: Scope::V1, flags_umask: None, note: "POPF" },
        FormPolicy { file: "9E", opcode_bytes: &[0x9E, 0x00, 0x00, 0x00, 0x00, 0x00, 0x00, 0x00], cap: Capability::DecodeOnly, scope: Scope::Deferred(DeferReason::NotImplemented), flags_umask: None, note: "LAHF/SAHF decode but are not carried out -> PANIC" },
        FormPolicy { file: "9F", opcode_bytes: &[0x9F, 0x00, 0x00, 0x00, 0x00, 0x00, 0x00, 0x00], cap: Capability::DecodeOnly, scope: Scope::Deferred(DeferReason::NotImplemented), flags_umask: None, note: "LAHF/SAHF decode but are not carried out -> PANIC" },
        FormPolicy { file: "A0", opcode_bytes: &[0xA0, 0x00, 0x00, 0x00, 0x00, 0x00, 0x00, 0x00], cap: Capability::Implemented, scope: Scope::V1, flags_umask: None, note: "MOV AL,moffs8" },
        FormPolicy { file: "A1", opcode_bytes: &[0xA1, 0x00, 0x00, 0x00, 0x00, 0x00, 0x00, 0x00], cap: Capability::Implemented, scope: Scope::V1, flags_umask: None, note: "MOV AX,moffs16" },
        FormPolicy { file: "A2", opcode_bytes: &[0xA2, 0x00, 0x00, 0x00, 0x00, 0x00, 0x00, 0x00], cap: Capability::Implemented, scope: Scope::V1, flags_umask: None, note: "MOV moffs8,AL" },
        FormPolicy { file: "A3", opcode_bytes: &[0xA3, 0x00, 0x00, 0x00, 0x00, 0x00, 0x00, 0x00], cap: Capability::Implemented, scope: Scope::V1, flags_umask: None, note: "MOV moffs16,AX" },
        FormPolicy { file: "A4", opcode_bytes: &[0xA4, 0x00, 0x00, 0x00, 0x00, 0x00, 0x00, 0x00], cap: Capability::Implemented, scope: Scope::Deferred(DeferReason::RepString), flags_umask: None, note: "MOVS m8 implemented but REP/string family deferred" },
        FormPolicy { file: "A5", opcode_bytes: &[0xA5, 0x00, 0x00, 0x00, 0x00, 0x00, 0x00, 0x00], cap: Capability::Implemented, scope: Scope::Deferred(DeferReason::RepString), flags_umask: None, note: "MOVS m16 implemented but REP/string family deferred" },
        FormPolicy { file: "A6", opcode_bytes: &[0xA6, 0x00, 0x00, 0x00, 0x00, 0x00, 0x00, 0x00], cap: Capability::Implemented, scope: Scope::Deferred(DeferReason::RepString), flags_umask: None, note: "CMPS m8 implemented but REP/string family deferred" },
        FormPolicy { file: "A7", opcode_bytes: &[0xA7, 0x00, 0x00, 0x00, 0x00, 0x00, 0x00, 0x00], cap: Capability::Implemented, scope: Scope::Deferred(DeferReason::RepString), flags_umask: None, note: "CMPS m16 implemented but REP/string family deferred" },
        FormPolicy { file: "A8", opcode_bytes: &[0xA8, 0x00, 0x00, 0x00, 0x00, 0x00, 0x00, 0x00], cap: Capability::Implemented, scope: Scope::V1, flags_umask: None, note: "TEST AL,imm8" },
        FormPolicy { file: "A9", opcode_bytes: &[0xA9, 0x00, 0x00, 0x00, 0x00, 0x00, 0x00, 0x00], cap: Capability::Implemented, scope: Scope::V1, flags_umask: None, note: "TEST AX,imm16" },
        FormPolicy { file: "AA", opcode_bytes: &[0xAA, 0x00, 0x00, 0x00, 0x00, 0x00, 0x00, 0x00], cap: Capability::Implemented, scope: Scope::Deferred(DeferReason::RepString), flags_umask: None, note: "STOS m8 implemented but REP/string family deferred" },
        FormPolicy { file: "AB", opcode_bytes: &[0xAB, 0x00, 0x00, 0x00, 0x00, 0x00, 0x00, 0x00], cap: Capability::Implemented, scope: Scope::Deferred(DeferReason::RepString), flags_umask: None, note: "STOS m16 implemented but REP/string family deferred" },
        FormPolicy { file: "AC", opcode_bytes: &[0xAC, 0x00, 0x00, 0x00, 0x00, 0x00, 0x00, 0x00], cap: Capability::Implemented, scope: Scope::Deferred(DeferReason::RepString), flags_umask: None, note: "LODS m8 implemented but REP/string family deferred" },
        FormPolicy { file: "AD", opcode_bytes: &[0xAD, 0x00, 0x00, 0x00, 0x00, 0x00, 0x00, 0x00], cap: Capability::Implemented, scope: Scope::Deferred(DeferReason::RepString), flags_umask: None, note: "LODS m16 implemented but REP/string family deferred" },
        FormPolicy { file: "AE", opcode_bytes: &[0xAE, 0x00, 0x00, 0x00, 0x00, 0x00, 0x00, 0x00], cap: Capability::Implemented, scope: Scope::Deferred(DeferReason::RepString), flags_umask: None, note: "SCAS m8 implemented but REP/string family deferred" },
        FormPolicy { file: "AF", opcode_bytes: &[0xAF, 0x00, 0x00, 0x00, 0x00, 0x00, 0x00, 0x00], cap: Capability::Implemented, scope: Scope::Deferred(DeferReason::RepString), flags_umask: None, note: "SCAS m16 implemented but REP/string family deferred" },
        FormPolicy { file: "B0", opcode_bytes: &[0xB0, 0x00, 0x00, 0x00, 0x00, 0x00, 0x00, 0x00], cap: Capability::Implemented, scope: Scope::V1, flags_umask: None, note: "MOV r8,imm8" },
        FormPolicy { file: "B1", opcode_bytes: &[0xB1, 0x00, 0x00, 0x00, 0x00, 0x00, 0x00, 0x00], cap: Capability::Implemented, scope: Scope::V1, flags_umask: None, note: "MOV r8,imm8" },
        FormPolicy { file: "B2", opcode_bytes: &[0xB2, 0x00, 0x00, 0x00, 0x00, 0x00, 0x00, 0x00], cap: Capability::Implemented, scope: Scope::V1, flags_umask: None, note: "MOV r8,imm8" },
        FormPolicy { file: "B3", opcode_bytes: &[0xB3, 0x00, 0x00, 0x00, 0x00, 0x00, 0x00, 0x00], cap: Capability::Implemented, scope: Scope::V1, flags_umask: None, note: "MOV r8,imm8" },
        FormPolicy { file: "B4", opcode_bytes: &[0xB4, 0x00, 0x00, 0x00, 0x00, 0x00, 0x00, 0x00], cap: Capability::Implemented, scope: Scope::V1, flags_umask: None, note: "MOV r8,imm8" },
        FormPolicy { file: "B5", opcode_bytes: &[0xB5, 0x00, 0x00, 0x00, 0x00, 0x00, 0x00, 0x00], cap: Capability::Implemented, scope: Scope::V1, flags_umask: None, note: "MOV r8,imm8" },
    ]
}

/// Entries 200 to 224 of the table.
#[verifier::opaque]
pub open spec fn form_part8() -> Seq<FormPolicy> {
    seq![
        FormPolicy { file: "B6", opcode_bytes: &[0xB6, 0x00, 0x00, 0x00, 0x00, 0x00, 0x00, 0x00], cap: Capability::Implemented, scope: Scope::V1, flags_umask: None, note: "MOV r8,imm8" },
        FormPolicy { file: "B7", opcode_bytes: &[0xB7, 0x00, 0x00, 0x00, 0x00, 0x00, 0x00, 0x00], cap: Capability::Implemented, scope: Scope::V1, flags_umask: None, note: "MOV r8,imm8" },
        FormPolicy { file: "B8", opcode_bytes: &[0xB8, 0x00, 0x00, 0x00, 0x00, 0x00, 0x00, 0x00], cap: Capability::Implemented, scope: Scope::V1, flags_umask: None, note: "MOV r16,imm16" },
        FormPolicy { file: "B9", opcode_bytes: &[0xB9, 0x00, 0x00, 0x00, 0x00, 0x00, 0x00, 0x00], cap: Capability::Implemented, scope: Scope::V1, flags_umask: None, note: "MOV r16,imm16" },
        FormPolicy { file: "BA", opcode_bytes: &[0xBA, 0x00, 0x00, 0x00, 0x00, 0x00, 0x00, 0x00], cap: Capability::Implemented, scope: Scope::V1, flags_umask: None, note: "MOV r16,imm16" },
        FormPolicy { file: "BB", opcode_bytes: &[0xBB, 0x00, 0x00, 0x00, 0x00, 0x00, 0x00, 0x00], cap: Capability::Implemented, scope: Scope::V1, flags_umask: None, note: "MOV r16,imm16" },
        FormPolicy { file: "BC", opcode_bytes: &[0xBC, 0x00, 0x00, 0x00, 0x00, 0x00, 0x00, 0x00], cap: Capability::Implemented, scope: Scope::V1, flags_umask: None, note: "MOV r16,imm16" },
        FormPolicy { file: "BD", opcode_bytes: &[0xBD, 0x00, 0x00, 0x00, 0x00, 0x00, 0x00, 0x00], cap: Capability::Implemented, scope: Scope::V1, flags_umask: None, note: "MOV r16,imm16" },
        FormPolicy { file: "BE", opcode_bytes: &[0xBE, 0x00, 0x00, 0x00, 0x00, 0x00, 0x00, 0x00], cap: Capability::Implemented, scope: Scope::V1, flags_umask: None, note: "MOV r16,imm16" },
        FormPolicy { file: "BF", opcode_bytes: &[0xBF, 0x00, 0x00, 0x00, 0x00, 0x00, 0x00, 0x00], cap: Capability::Implemented, scope: Scope::V1, flags_umask: None, note: "MOV r16,imm16" },
        FormPolicy { file: "C0.0", opcode_bytes: &[0xC0, 0xC0, 0x00, 0x00, 0x00, 0x00, 0x00, 0x00], cap: Capability::Implemented, scope: Scope::V1, flags_umask: None, note: "ROL grp2" },
        FormPolicy { file: "C0.1", opcode_bytes: &[0xC0, 0xC8, 0x00, 0x00, 0x00, 0x00, 0x00, 0x00], cap: Capability::DecodeOnly, scope: Scope::Deferred(DeferReason::NotImplemented), flags_umask: None, note: "ROR grp2 decodes but is not carried out (only SHL/SHR/SAR/ROL are) -> PANIC" },
        FormPolicy { file: "C0.2", opcode_bytes: &[0xC0, 0xD0, 0x00, 0x00, 0x00, 0x00, 0x00, 0x00], cap: Capability::DecodeOnly, scope: Scope::Deferred(DeferReason::NotImplemented), flags_umask: None, note: "RCL grp2 decodes but is not carried out (only SHL/SHR/SAR/ROL are) -> PANIC" },
        FormPolicy { file: "C0.3", opcode_bytes: &[0xC0, 0xD8, 0x00, 0x00, 0x00, 0x00, 0x00, 0x00], cap: Capability::DecodeOnly, scope: Scope::Deferred(DeferReason::NotImplemented), flags_umask: None, note: "RCR grp2 decodes but is not carried out (only SHL/SHR/SAR/ROL are) -> PANIC" },
        FormPolicy { file: "C0.4", opcode_bytes: &[0xC0, 0xE0, 0x00, 0x00, 0x00, 0x00, 0x00, 0x00], cap: Capability::Implemented, scope: Scope::V1, flags_umask: None, note: "SHL grp2" },
        FormPolicy { file: "C0.5", opcode_bytes: &[0xC0, 0xE8, 0x00, 0x00, 0x00, 0x00, 0x00, 0x00], cap: Capability::Implemented, scope: Scope::V1, flags_umask: None, note: "SHR grp2" },
        FormPolicy { file: "C0.6", opcode_bytes: &[0xC0, 0xF0, 0x00, 0x00, 0x00, 0x00, 0x00, 0x00], cap: Capability::Implemented, scope: Scope::V1, flags_umask: None, note: "SHL grp2" },
        FormPolicy { file: "C0.7", opcode_bytes: &[0xC0, 0xF8, 0x00, 0x00, 0x00, 0x00, 0x00, 0x00], cap: Capability::Implemented, scope: Scope::V1, flags_umask: None, note: "SAR grp2" },
        FormPolicy { file: "C1.0", opcode_bytes: &[0xC1, 0xC0, 0x00, 0x00, 0x00, 0x00, 0x00, 0x00], cap: Capability::Implemented, scope: Scope::V1, flags_umask: None, note: "ROL grp2" },
        FormPolicy { file: "C1.1", opcode_bytes: &[0xC1, 0xC8, 0x00, 0x00, 0x00, 0x00, 0x00, 0x00], cap: Capability::DecodeOnly, scope: Scope::Deferred(DeferReason::NotImplemented), flags_umask: None, note: "ROR grp2 decodes but is not carried out (only SHL/SHR/SAR/ROL are) -> PANIC" },
        FormPolicy { file: "C1.2", opcode_bytes: &[0xC1, 0xD0, 0x00, 0x00, 0x00, 0x00, 0x00, 0x00], cap: Capability::DecodeOnly, scope: Scope::Deferred(DeferReason::NotImplemented), flags_umask: None, note: "RCL grp2 decodes but is not carried out (only SHL/SHR/SAR/ROL are) -> PANIC" },
        FormPolicy { file: "C1.3", opcode_bytes: &[0xC1, 0xD8, 0x00, 0x00, 0x00, 0x00, 0x00, 0x00], cap: Capability::DecodeOnly, scope: Scope::Deferred(DeferReason::NotImplemented), flags_umask: None, note: "RCR grp2 decodes but is not carried out (only SHL/SHR/SAR/ROL are) -> PANIC" },
        FormPolicy { file: "C1.4", opcode_bytes: &[0xC1, 0xE0, 0x00, 0x00, 0x00, 0x00, 0x00, 0x00], cap: Capability::Implemented, scope: Scope::V1, flags_umask: None, note: "SHL grp2" },
        FormPolicy { file: "C1.5", opcode_bytes: &[0xC1, 0xE8, 0x00, 0x00, 0x00, 0x00, 0x00, 0x00], cap: Capability::Implemented, scope: Scope::V1, flags_umask: None, note: "SHR grp2" },
        FormPolicy { file: "C1.6", opcode_bytes: &[0xC1, 0xF0, 0x00, 0x00, 0x00, 0x00, 0x00, 0x00], cap: Capability::Implemented, scope: Scope::V1, flags_umask: None, note: "SHL grp2" },
    ]
}

/// Entries 225 to 249 of the table.
#[verifier::opaque]
pub open spec fn form_part9() -> Seq<FormPolicy> {
    seq![
        FormPolicy { file: "C1.7", opcode_bytes: &[0xC1, 0xF8, 0x00, 0x00, 0x00, 0x00, 0x00, 0x00], cap: Capability::Implemented, scope: Scope::V1, flags_umask: None, note: "SAR grp2" },
        FormPolicy { file: "C2", opcode_bytes: &[0xC2, 0x00, 0x00, 0x00, 0x00, 0x00, 0x00, 0x00], cap: Capability::Implemented, scope: Scope::V1, flags_umask: None, note: "RET imm16" },
        FormPolicy { file: "C3", opcode_bytes: &[0xC3, 0x00, 0x00, 0x00, 0x00, 0x00, 0x00, 0x00], cap: Capability::Implemented, scope: Scope::V1, flags_umask: None, note: "RET" },
        FormPolicy { file: "C4", opcode_bytes: &[0xC4, 0x06, 0x00, 0x00, 0x00, 0x00, 0x00, 0x00], cap: Capability::Implemented, scope: Scope::Deferred(DeferReason::NotImplemented), flags_umask: None, note: "LES/LDS implemented but segmented addressing deferred" },
        FormPolicy { file: "C5", opcode_bytes: &[0xC5, 0x06, 0x00, 0x00, 0x00, 0x00, 0x00, 0x00], cap: Capability::Implemented, scope: Scope::Deferred(DeferReason::NotImplemented), flags_umask: None, note: "LES/LDS implemented but segmented addressing deferred" },
        FormPolicy { file: "C6", opcode_bytes: &[0xC6, 0x00, 0x00, 0x00, 0x00, 0x00, 0x00, 0x00], cap: Capability::Implemented, scope: Scope::V1, flags_umask: None, note: "MOV rm8,imm8" },
        FormPolicy { file: "C7", opcode_bytes: &[0xC7, 0x00, 0x00, 0x00, 0x00, 0x00, 0x00, 0x00], cap: Capability::Implemented, scope: Scope::V1, flags_umask: None, note: "MOV rm16,imm16" },
        FormPolicy { file: "C8", opcode_bytes: &[0xC8, 0x00, 0x00, 0x00, 0x00, 0x00, 0x00, 0x00], cap: Capability::Implemented, scope: Scope::Deferred(DeferReason::NotImplemented), flags_umask: None, note: "ENTER carries out nesting level 0 only; LEAVE implemented; deferred from v1" },
        FormPolicy { file: "C9", opcode_bytes: &[0xC9, 0x00, 0x00, 0x00, 0x00, 0x00, 0x00, 0x00], cap: Capability::Implemented, scope: Scope::Deferred(DeferReason::NotImplemented), flags_umask: None, note: "ENTER carries out nesting level 0 only; LEAVE implemented; deferred from v1" },
        FormPolicy { file: "CA", opcode_bytes: &[0xCA, 0x00, 0x00, 0x00, 0x00, 0x00, 0x00, 0x00], cap: Capability::Implemented, scope: Scope::V1, flags_umask: None, note: "RETF imm16" },
        FormPolicy { file: "CB", opcode_bytes: &[0xCB, 0x00, 0x00, 0x00, 0x00, 0x00, 0x00, 0x00], cap: Capability::Implemented, scope: Scope::V1, flags_umask: None, note: "RETF" },
        FormPolicy { file: "CC", opcode_bytes: &[0xCC, 0x00, 0x00, 0x00, 0x00, 0x00, 0x00, 0x00], cap: Capability::Implemented, scope: Scope::Deferred(DeferReason::IntHlt), flags_umask: None, note: "INT family deferred: software interrupts are not carried out" },
        FormPolicy { file: "CD", opcode_bytes: &[0xCD, 0x00, 0x00, 0x00, 0x00, 0x00, 0x00, 0x00], cap: Capability::Implemented, scope: Scope::Deferred(DeferReason::IntHlt), flags_umask: None, note: "INT family deferred: software interrupts are not carried out" },
        FormPolicy { file: "CE", opcode_bytes: &[0xCE, 0x00, 0x00, 0x00, 0x00, 0x00, 0x00, 0x00], cap: Capability::DecodeOnly, scope: Scope::Deferred(DeferReason::IntHlt), flags_umask: None, note: "INTO decodes but is not carried out -> PANIC" },
        FormPolicy { file: "CF", opcode_bytes: &[0xCF, 0x00, 0x00, 0x00, 0x00, 0x00, 0x00, 0x00], cap: Capability::Implemented, scope: Scope::Deferred(DeferReason::IntHlt), flags_umask: None, note: "IRET implemented but INT family deferred" },
        FormPolicy { file: "D0.0", opcode_bytes: &[0xD0, 0xC0, 0x00, 0x00, 0x00, 0x00, 0x00, 0x00], cap: Capability::Implemented, scope: Scope::V1, flags_umask: Some(0x07C7), note: "ROL grp2" },
        FormPolicy { file: "D0.1", opcode_bytes: &[0xD0, 0xC8, 0x00, 0x00, 0x00, 0x00, 0x00, 0x00], cap: Capability::DecodeOnly, scope: Scope::Deferred(DeferReason::NotImplemented), flags_umask: None, note: "ROR grp2 decodes but is not carried out (only SHL/SHR/SAR/ROL are) -> PANIC" },
        FormPolicy { file: "D0.2", opcode_bytes: &[0xD0, 0xD0, 0x00, 0x00, 0x00, 0x00, 0x00, 0x00], cap: Capability::DecodeOnly, scope: Scope::Deferred(DeferReason::NotImplemented), flags_umask: None, note: "RCL grp2 decodes but is not carried out (only SHL/SHR/SAR/ROL are) -> PANIC" },
        FormPolicy { file: "D0.3", opcode_bytes: &[0xD0, 0xD8, 0x00, 0x00, 0x00, 0x00, 0x00, 0x00], cap: Capability::DecodeOnly, scope: Scope::Deferred(DeferReason::NotImplemented), flags_umask: None, note: "RCR grp2 decodes but is not carried out (only SHL/SHR/SAR/ROL are) -> PANIC" },
        FormPolicy { file: "D0.4", opcode_bytes: &[0xD0, 0xE0, 0x00, 0x00, 0x00, 0x00, 0x00, 0x00], cap: Capability::Implemented, scope: Scope::V1, flags_umask: None, note: "SHL grp2" },
        FormPolicy { file: "D0.5", opcode_bytes: &[0xD0, 0xE8, 0x00, 0x00, 0x00, 0x00, 0x00, 0x00], cap: Capability::Implemented, scope: Scope::V1, flags_umask: None, note: "SHR grp2" },
        FormPolicy { file: "D0.6", opcode_bytes: &[0xD0, 0xF0, 0x00, 0x00, 0x00, 0x00, 0x00, 0x00], cap: Capability::Implemented, scope: Scope::V1, flags_umask: None, note: "SHL grp2" },
        FormPolicy { file: "D0.7", opcode_bytes: &[0xD0, 0xF8, 0x00, 0x00, 0x00, 0x00, 0x00, 0x00], cap: Capability::Implemented, scope: Scope::V1, flags_umask: None, note: "SAR grp2" },
        FormPolicy { file: "D1.0", opcode_bytes: &[0xD1, 0xC0, 0x00, 0x00, 0x00, 0x00, 0x00, 0x00], cap: Capability::Implemented, scope: Scope::V1, flags_umask: None, note: "ROL grp2" },
        FormPolicy { file: "D1.1", opcode_bytes: &[0xD1, 0xC8, 0x00, 0x00, 0x00, 0x00, 0x00, 0x00], cap: Capability::DecodeOnly, scope: Scope::Deferred(DeferReason::NotImplemented), flags_umask: None, note: "ROR grp2 decodes but is not carried out (only SHL/SHR/SAR/ROL are) -> PANIC" },
    ]
}

/// Entries 250 to 274 of the table.
#[verifier::opaque]
pub open spec fn form_part10() -> Seq<FormPolicy> {
    seq![
        FormPolicy { file: "D1.2", opcode_bytes: &[0xD1, 0xD0, 0x00, 0x00, 0x00, 0x00, 0x00, 0x00], cap: Capability::DecodeOnly, scope: Scope::Deferred(DeferReason::NotImplemented), flags_umask: None, note: "RCL grp2 decodes but is not carried out (only SHL/SHR/SAR/ROL are) -> PANIC" },
        FormPolicy { file: "D1.3", opcode_bytes: &[0xD1, 0xD8, 0x00, 0x00, 0x00, 0x00, 0x00, 0x00], cap: Capability::DecodeOnly, scope: Scope::Deferred(DeferReason::NotImplemented), flags_umask: None, note: "RCR grp2 decodes but is not carried out (only SHL/SHR/SAR/ROL are) -> PANIC" },
        FormPolicy { file: "D1.4", opcode_bytes: &[0xD1, 0xE0, 0x00, 0x00, 0x00, 0x00, 0x00, 0x00], cap: Capability::Implemented, scope: Scope::V1, flags_umask: None, note: "SHL grp2" },
        FormPolicy { file: "D1.5", opcode_bytes: &[0xD1, 0xE8, 0x00, 0x00, 0x00, 0x00, 0x00, 0x00], cap: Capability::Implemented, scope: Scope::V1, flags_umask: None, note: "SHR grp2" },
        FormPolicy { file: "D1.6", opcode_bytes: &[0xD1, 0xF0, 0x00, 0x00, 0x00, 0x00, 0x00, 0x00], cap: Capability::Implemented, scope: Scope::V1, flags_umask: None, note: "SHL grp2" },
        FormPolicy { file: "D1.7", opcode_bytes: &[0xD1, 0xF8, 0x00, 0x00, 0x00, 0x00, 0x00, 0x00], cap: Capability::Implemented, scope: Scope::V1, flags_umask: None, note: "SAR grp2" },
        FormPolicy { file: "D2.0", opcode_bytes: &[0xD2, 0xC0, 0x00, 0x00, 0x00, 0x00, 0x00, 0x00], cap: Capability::Implemented, scope: Scope::V1, flags_umask: None, note: "ROL grp2" },
        FormPolicy { file: "D2.1", opcode_bytes: &[0xD2, 0xC8, 0x00, 0x00, 0x00, 0x00, 0x00, 0x00], cap: Capability::DecodeOnly, scope: Scope::Deferred(DeferReason::NotImplemented), flags_umask: None, note: "ROR grp2 decodes but is not carried out (only SHL/SHR/SAR/ROL are) -> PANIC" },
        FormPolicy { file: "D2.2", opcode_bytes: &[0xD2, 0xD0, 0x00, 0x00, 0x00, 0x00, 0x00, 0x00], cap: Capability::DecodeOnly, scope: Scope::Deferred(DeferReason::NotImplemented), flags_umask: None, note: "RCL grp2 decodes but is not carried out (only SHL/SHR/SAR/ROL are) -> PANIC" },
        FormPolicy { file: "D2.3", opcode_bytes: &[0xD2, 0xD8, 0x00, 0x00, 0x00, 0x00, 0x00, 0x00], cap: Capability::DecodeOnly, scope: Scope::Deferred(DeferReason::NotImplemented), flags_umask: None, note: "RCR grp2 decodes but is not carried out (only SHL/SHR/SAR/ROL are) -> PANIC" },
        FormPolicy { file: "D2.4", opcode_bytes: &[0xD2, 0xE0, 0x00, 0x00, 0x00, 0x00, 0x00, 0x00], cap: Capability::Implemented, scope: Scope::V1, flags_umask: Some(0x07C7), note: "SHL grp2" },
        FormPolicy { file: "D2.5", opcode_bytes: &[0xD2, 0xE8, 0x00, 0x00, 0x00, 0x00, 0x00, 0x00], cap: Capability::Implemented, scope: Scope::V1, flags_umask: None, note: "SHR grp2" },
        FormPolicy { file: "D2.6", opcode_bytes: &[0xD2, 0xF0, 0x00, 0x00, 0x00, 0x00, 0x00, 0x00], cap: Capability::Implemented, scope: Scope::V1, flags_umask: None, note: "SHL grp2" },
        FormPolicy { file: "D2.7", opcode_bytes: &[0xD2, 0xF8, 0x00, 0x00, 0x00, 0x00, 0x00, 0x00], cap: Capability::Implemented, scope: Scope::V1, flags_umask: None, note: "SAR grp2" },
        FormPolicy { file: "D3.0", opcode_bytes: &[0xD3, 0xC0, 0x00, 0x00, 0x00, 0x00, 0x00, 0x00], cap: Capability::Implemented, scope: Scope::V1, flags_umask: None, note: "ROL grp2" },
        FormPolicy { file: "D3.1", opcode_bytes: &[0xD3, 0xC8, 0x00, 0x00, 0x00, 0x00, 0x00, 0x00], cap: Capability::DecodeOnly, scope: Scope::Deferred(DeferReason::NotImplemented), flags_umask: None, note: "ROR grp2 decodes but is not carried out (only SHL/SHR/SAR/ROL are) -> PANIC" },
        FormPolicy { file: "D3.2", opcode_bytes: &[0xD3, 0xD0, 0x00, 0x00, 0x00, 0x00, 0x00, 0x00], cap: Capability::DecodeOnly, scope: Scope::Deferred(DeferReason::NotImplemented), flags_umask: None, note: "RCL grp2 decodes but is not carried out (only SHL/SHR/SAR/ROL are) -> PANIC" },
        FormPolicy { file: "D3.3", opcode_bytes: &[0xD3, 0xD8, 0x00, 0x00, 0x00, 0x00, 0x00, 0x00], cap: Capability::DecodeOnly, scope: Scope::Deferred(DeferReason::NotImplemented), flags_umask: None, note: "RCR grp2 decodes but is not carried out (only SHL/SHR/SAR/ROL are) -> PANIC" },
        FormPolicy { file: "D3.4", opcode_bytes: &[0xD3, 0xE0, 0x00, 0x00, 0x00, 0x00, 0x00, 0x00], cap: Capability::Implemented, scope: Scope::V1, flags_umask: None, note: "SHL grp2" },
        FormPolicy { file: "D3.5", opcode_bytes: &[0xD3, 0xE8, 0x00, 0x00, 0x00, 0x00, 0x00, 0x00], cap: Capability::Implemented, scope: Scope::V1, flags_umask: None, note: "SHR grp2" },
        FormPolicy { file: "D3.6", opcode_bytes: &[0xD3, 0xF0, 0x00, 0x00, 0x00, 0x00, 0x00, 0x00], cap: Capability::Implemented, scope: Scope::V1, flags_umask: None, note: "SHL grp2" },
        FormPolicy { file: "D3.7", opcode_bytes: &[0xD3, 0xF8, 0x00, 0x00, 0x00, 0x00, 0x00, 0x00], cap: Capability::Implemented, scope: Scope::V1, flags_umask: None, note: "SAR grp2" },
        FormPolicy { file: "D4", opcode_bytes: &[0xD4, 0x00, 0x00, 0x00, 0x00, 0x00, 0x00, 0x00], cap: Capability::Undecodable, scope: Scope::Deferred(DeferReason::NotImplemented), flags_umask: Some(0x00C4), note: "AAM/AAD do not decode -> DECODE_ERR; umask 0x00C4 recorded (SF/ZF/PF defined per Intel)" },
        FormPolicy { file: "D5", opcode_bytes: &[0xD5, 0x00, 0x00, 0x00, 0x00, 0x00, 0x00, 0x00], cap: Capability::Undecodable, scope: Scope::Deferred(DeferReason::NotImplemented), flags_umask: Some(0x00C4), note: "AAM/AAD do not decode -> DECODE_ERR; umask 0x00C4 recorded (SF/ZF/PF defined per Intel)" },
        FormPolicy { file: "D6", opcode_bytes: &[0xD6, 0x00, 0x00, 0x00, 0x00, 0x00, 0x00, 0x00], cap: Capability::Undecodable, scope: Scope::Deferred(DeferReason::NotImplemented), flags_umask: None, note: "undocumented D6 does not decode -> DECODE_ERR" },
    ]
}

/// Entries 275 to 299 of the table.
#[verifier::opaque]
pub open spec fn form_part11() -> Seq<FormPolicy> {
    seq![
        FormPolicy { file: "D7", opcode_bytes: &[0xD7, 0x00, 0x00, 0x00, 0x00, 0x00, 0x00, 0x00], cap: Capability::Implemented, scope: Scope::V1, flags_umask: None, note: "XLAT" },
        FormPolicy { file: "D8", opcode_bytes: &[0xD8, 0x00, 0x00, 0x00, 0x00, 0x00, 0x00, 0x00], cap: Capability::Undecodable, scope: Scope::Deferred(DeferReason::NotImplemented), flags_umask: None, note: "ESC/co-processor D8 does not decode -> DECODE_ERR" },
        FormPolicy { file: "E0", opcode_bytes: &[0xE0, 0x00, 0x00, 0x00, 0x00, 0x00, 0x00, 0x00], cap: Capability::Implemented, scope: Scope::V1, flags_umask: None, note: "LOOPNE" },
        FormPolicy { file: "E1", opcode_bytes: &[0xE1, 0x00, 0x00, 0x00, 0x00, 0x00, 0x00, 0x00], cap: Capability::Implemented, scope: Scope::V1, flags_umask: None, note: "LOOPE" },
        FormPolicy { file: "E2", opcode_bytes: &[0xE2, 0x00, 0x00, 0x00, 0x00, 0x00, 0x00, 0x00], cap: Capability::Implemented, scope: Scope::V1, flags_umask: None, note: "LOOP" },
        FormPolicy { file: "E3", opcode_bytes: &[0xE3, 0x00, 0x00, 0x00, 0x00, 0x00, 0x00, 0x00], cap: Capability::Implemented, scope: Scope::V1, flags_umask: None, note: "JCXZ" },
        FormPolicy { file: "E4", opcode_bytes: &[0xE4, 0x00, 0x00, 0x00, 0x00, 0x00, 0x00, 0x00], cap: Capability::Implemented, scope: Scope::Deferred(DeferReason::Io), flags_umask: None, note: "IN/OUT deferred: port I/O is not carried out" },
        FormPolicy { file: "E5", opcode_bytes: &[0xE5, 0x00, 0x00, 0x00, 0x00, 0x00, 0x00, 0x00], cap: Capability::Implemented, scope: Scope::Deferred(DeferReason::Io), flags_umask: None, note: "IN/OUT deferred: port I/O is not carried out" },
        FormPolicy { file: "E6", opcode_bytes: &[0xE6, 0x00, 0x00, 0x00, 0x00, 0x00, 0x00, 0x00], cap: Capability::Implemented, scope: Scope::Deferred(DeferReason::Io), flags_umask: None, note: "IN/OUT deferred: port I/O is not carried out" },
        FormPolicy { file: "E7", opcode_bytes: &[0xE7, 0x00, 0x00, 0x00, 0x00, 0x00, 0x00, 0x00], cap: Capability::Implemented, scope: Scope::Deferred(DeferReason::Io), flags_umask: None, note: "IN/OUT deferred: port I/O is not carried out" },
        FormPolicy { file: "E8", opcode_bytes: &[0xE8, 0x00, 0x00, 0x00, 0x00, 0x00, 0x00, 0x00], cap: Capability::Implemented, scope: Scope::V1, flags_umask: None, note: "CALL rel16" },
        FormPolicy { file: "E9", opcode_bytes: &[0xE9, 0x00, 0x00, 0x00, 0x00, 0x00, 0x00, 0x00], cap: Capability::Implemented, scope: Scope::V1, flags_umask: None, note: "JMP rel16" },
        FormPolicy { file: "EA", opcode_bytes: &[0xEA, 0x00, 0x00, 0x00, 0x00, 0x00, 0x00, 0x00], cap: Capability::Implemented, scope: Scope::V1, flags_umask: None, note: "JMPF far" },
        FormPolicy { file: "EB", opcode_bytes: &[0xEB, 0x00, 0x00, 0x00, 0x00, 0x00, 0x00, 0x00], cap: Capability::Implemented, scope: Scope::V1, flags_umask: None, note: "JMP rel8" },
        FormPolicy { file: "EC", opcode_bytes: &[0xEC, 0x00, 0x00, 0x00, 0x00, 0x00, 0x00, 0x00], cap: Capability::Implemented, scope: Scope::Deferred(DeferReason::Io), flags_umask: None, note: "IN/OUT deferred: port I/O is not carried out" },
        FormPolicy { file: "ED", opcode_bytes: &[0xED, 0x00, 0x00, 0x00, 0x00, 0x00, 0x00, 0x00], cap: Capability::Implemented, scope: Scope::Deferred(DeferReason::Io), flags_umask: None, note: "IN/OUT deferred: port I/O is not carried out" },
        FormPolicy { file: "EE", opcode_bytes: &[0xEE, 0x00, 0x00, 0x00, 0x00, 0x00, 0x00, 0x00], cap: Capability::Implemented, scope: Scope::Deferred(DeferReason::Io), flags_umask: None, note: "IN/OUT deferred: port I/O is not carried out" },
        FormPolicy { file: "EF", opcode_bytes: &[0xEF, 0x00, 0x00, 0x00, 0x00, 0x00, 0x00, 0x00], cap: Capability::Implemented, scope: Scope::Deferred(DeferReason::Io), flags_umask: None, note: "IN/OUT deferred: port I/O is not carried out" },
        FormPolicy { file: "F4", opcode_bytes: &[0xF4, 0x00, 0x00, 0x00, 0x00, 0x00, 0x00, 0x00], cap: Capability::DecodeOnly, scope: Scope::Deferred(DeferReason::IntHlt), flags_umask: None, note: "HLT ends the run; tests terminate with F4, so it is never stepped as a form of its own" },
        FormPolicy { file: "F5", opcode_bytes: &[0xF5, 0x00, 0x00, 0x00, 0x00, 0x00, 0x00, 0x00], cap: Capability::DecodeOnly, scope: Scope::Deferred(DeferReason::NotImplemented), flags_umask: None, note: "CMC decodes but is not carried out -> PANIC" },
        FormPolicy { file: "F6.0", opcode_bytes: &[0xF6, 0xC0, 0x00, 0x00, 0x00, 0x00, 0x00, 0x00], cap: Capability::Implemented, scope: Scope::V1, flags_umask: None, note: "TEST grp3" },
        FormPolicy { file: "F6.1", opcode_bytes: &[0xF6, 0xC8, 0x00, 0x00, 0x00, 0x00, 0x00, 0x00], cap: Capability::Implemented, scope: Scope::V1, flags_umask: None, note: "TEST grp3" },
        FormPolicy { file: "F6.2", opcode_bytes: &[0xF6, 0xD0, 0x00, 0x00, 0x00, 0x00, 0x00, 0x00], cap: Capability::Implemented, scope: Scope::V1, flags_umask: None, note: "NOT grp3" },
        FormPolicy { file: "F6.3", opcode_bytes: &[0xF6, 0xD8, 0x00, 0x00, 0x00, 0x00, 0x00, 0x00], cap: Capability::Implemented, scope: Scope::V1, flags_umask: None, note: "NEG grp3" },
        FormPolicy { file: "F6.4", opcode_bytes: &[0xF6, 0xE0, 0x00, 0x00, 0x00, 0x00, 0x00, 0x00], cap: Capability::DecodeOnly, scope: Scope::Deferred(DeferReason::NotImplemented), flags_umask: Some(0x0801), note: "8-bit MUL/IMUL decodes but only the word forms are carried out -> PANIC; umask 0x0801 recorded (CF/OF defined per Intel)" },
    ]
}

/// Entries 300 to 324 of the table.
#[verifier::opaque]
pub open spec fn form_part12() -> Seq<FormPolicy> {
    seq![
        FormPolicy { file: "F6.5", opcode_bytes: &[0xF6, 0xE8, 0x00, 0x00, 0x00, 0x00, 0x00, 0x00], cap: Capability::DecodeOnly, scope: Scope::Deferred(DeferReason::NotImplemented), flags_umask: Some(0x0801), note: "8-bit MUL/IMUL decodes but only the word forms are carried out -> PANIC; umask 0x0801 recorded (CF/OF defined per Intel)" },
        FormPolicy { file: "F6.6", opcode_bytes: &[0xF6, 0xF0, 0x00, 0x00, 0x00, 0x00, 0x00, 0x00], cap: Capability::DecodeOnly, scope: Scope::Deferred(DeferReason::NotImplemented), flags_umask: Some(0x0000), note: "8-bit DIV/IDIV decodes but only the word forms are carried out -> PANIC; umask 0x0000 recorded (flags undefined per Intel)" },
        FormPolicy { file: "F6.7", opcode_bytes: &[0xF6, 0xF8, 0x00, 0x00, 0x00, 0x00, 0x00, 0x00], cap: Capability::DecodeOnly, scope: Scope::Deferred(DeferReason::NotImplemented), flags_umask: Some(0x0000), note: "8-bit DIV/IDIV decodes but only the word forms are carried out -> PANIC; umask 0x0000 recorded (flags undefined per Intel)" },
        FormPolicy { file: "F7.0", opcode_bytes: &[0xF7, 0xC0, 0x00, 0x00, 0x00, 0x00, 0x00, 0x00], cap: Capability::Implemented, scope: Scope::V1, flags_umask: None, note: "TEST grp3" },
        FormPolicy { file: "F7.1", opcode_bytes: &[0xF7, 0xC8, 0x00, 0x00, 0x00, 0x00, 0x00, 0x00], cap: Capability::Implemented, scope: Scope::V1, flags_umask: None, note: "TEST grp3" },
        FormPolicy { file: "F7.2", opcode_bytes: &[0xF7, 0xD0, 0x00, 0x00, 0x00, 0x00, 0x00, 0x00], cap: Capability::Implemented, scope: Scope::V1, flags_umask: None, note: "NOT grp3" },
        FormPolicy { file: "F7.3", opcode_bytes: &[0xF7, 0xD8, 0x00, 0x00, 0x00, 0x00, 0x00, 0x00], cap: Capability::Implemented, scope: Scope::V1, flags_umask: None, note: "NEG grp3" },
        FormPolicy { file: "F7.4", opcode_bytes: &[0xF7, 0xE0, 0x00, 0x00, 0x00, 0x00, 0x00, 0x00], cap: Capability::Implemented, scope: Scope::V1, flags_umask: Some(0x0801), note: "MUL grp3; CF/OF defined, rest UNDEFINED (Intel 80286) -> umask 0x0801" },
        FormPolicy { file: "F7.5", opcode_bytes: &[0xF7, 0xE8, 0x00, 0x00, 0x00, 0x00, 0x00, 0x00], cap: Capability::Implemented, scope: Scope::V1, flags_umask: Some(0x0801), note: "IMUL grp3; CF/OF defined, rest UNDEFINED (Intel 80286) -> umask 0x0801" },
        FormPolicy { file: "F7.6", opcode_bytes: &[0xF7, 0xF0, 0x00, 0x00, 0x00, 0x00, 0x00, 0x00], cap: Capability::Implemented, scope: Scope::V1, flags_umask: Some(0x0000), note: "DIV grp3; all status flags UNDEFINED (Intel 80286) -> umask 0x0000" },
        FormPolicy { file: "F7.7", opcode_bytes: &[0xF7, 0xF8, 0x00, 0x00, 0x00, 0x00, 0x00, 0x00], cap: Capability::Implemented, scope: Scope::V1, flags_umask: Some(0x0000), note: "IDIV grp3; all status flags UNDEFINED (Intel 80286) -> umask 0x0000" },
        FormPolicy { file: "F8", opcode_bytes: &[0xF8, 0x00, 0x00, 0x00, 0x00, 0x00, 0x00, 0x00], cap: Capability::Implemented, scope: Scope::V1, flags_umask: None, note: "CLC" },
        FormPolicy { file: "F9", opcode_bytes: &[0xF9, 0x00, 0x00, 0x00, 0x00, 0x00, 0x00, 0x00], cap: Capability::Implemented, scope: Scope::V1, flags_umask: None, note: "STC" },
        FormPolicy { file: "FA", opcode_bytes: &[0xFA, 0x00, 0x00, 0x00, 0x00, 0x00, 0x00, 0x00], cap: Capability::Implemented, scope: Scope::V1, flags_umask: None, note: "CLI" },
        FormPolicy { file: "FB", opcode_bytes: &[0xFB, 0x00, 0x00, 0x00, 0x00, 0x00, 0x00, 0x00], cap: Capability::Implemented, scope: Scope::V1, flags_umask: None, note: "STI" },
        FormPolicy { file: "FC", opcode_bytes: &[0xFC, 0x00, 0x00, 0x00, 0x00, 0x00, 0x00, 0x00], cap: Capability::Implemented, scope: Scope::V1, flags_umask: None, note: "CLD" },
        FormPolicy { file: "FD", opcode_bytes: &[0xFD, 0x00, 0x00, 0x00, 0x00, 0x00, 0x00, 0x00], cap: Capability::Implemented, scope: Scope::V1, flags_umask: None, note: "STD" },
        FormPolicy { file: "FE.0", opcode_bytes: &[0xFE, 0xC0, 0x00, 0x00, 0x00, 0x00, 0x00, 0x00], cap: Capability::Implemented, scope: Scope::V1, flags_umask: None, note: "INC rm8" },
        FormPolicy { file: "FE.1", opcode_bytes: &[0xFE, 0xC8, 0x00, 0x00, 0x00, 0x00, 0x00, 0x00], cap: Capability::Implemented, scope: Scope::V1, flags_umask: None, note: "DEC rm8" },
        FormPolicy { file: "FF.0", opcode_bytes: &[0xFF, 0xC0, 0x00, 0x00, 0x00, 0x00, 0x00, 0x00], cap: Capability::Implemented, scope: Scope::V1, flags_umask: None, note: "INC grp5" },
        FormPolicy { file: "FF.1", opcode_bytes: &[0xFF, 0xC8, 0x00, 0x00, 0x00, 0x00, 0x00, 0x00], cap: Capability::Implemented, scope: Scope::V1, flags_umask: None, note: "DEC grp5" },
        FormPolicy { file: "FF.2", opcode_bytes: &[0xFF, 0xD0, 0x00, 0x00, 0x00, 0x00, 0x00, 0x00], cap: Capability::Implemented, scope: Scope::V1, flags_umask: None, note: "CALL grp5" },
        FormPolicy { file: "FF.3", opcode_bytes: &[0xFF, 0x1E, 0x00, 0x00, 0x00, 0x00, 0x00, 0x00], cap: Capability::Implemented, scope: Scope::V1, flags_umask: None, note: "CALLF grp5" },
        FormPolicy { file: "FF.4", opcode_bytes: &[0xFF, 0xE0, 0x00, 0x00, 0x00, 0x00, 0x00, 0x00], cap: Capability::Implemented, scope: Scope::V1, flags_umask: None, note: "JMP grp5" },
        FormPolicy { file: "FF.5", opcode_bytes: &[0xFF, 0x2E, 0x00, 0x00, 0x00, 0x00, 0x00, 0x00], cap: Capability::Implemented, scope: Scope::V1, flags_umask: None, note: "JMPF grp5" },
    ]
}

/// Entries 325 to 326 of the table.
#[verifier::opaque]
pub open spec fn form_part13() -> Seq<FormPolicy> {
    seq![
        FormPolicy { file: "FF.6", opcode_bytes: &[0xFF, 0xF0, 0x00, 0x00, 0x00, 0x00, 0x00, 0x00], cap: Capability::Implemented, scope: Scope::V1, flags_umask: None, note: "PUSH grp5" },
        FormPolicy { file: "metadata.json", opcode_bytes: &[], cap: Capability::Undecodable, scope: Scope::Deferred(DeferReason::NotImplemented), flags_umask: None, note: "not a MOO test form; upstream metadata.json blob (counted to match the 327-entry upstream listing)" },
    ]
}

/// The classification of every entry of the suite's listing.
#[verifier::opaque]
pub open spec fn form_table() -> Seq<FormPolicy> {
    form_part0() + form_part1() + form_part2() + form_part3() + form_part4() + form_part5() + form_part6() + form_part7() + form_part8() + form_part9() + form_part10() + form_part11() + form_part12() + form_part13()
}

#[verifier::spinoff_prover]
#[verifier::rlimit(40)]
fn push_part0(v: &mut Vec<FormPolicy>)
    ensures
        final(v)@ == old(v)@ + form_part0(),
{
    let ghost v0 = v@;
    proof {
        reveal(form_part0);
    }
    v.push(FormPolicy { file: "00", opcode_bytes: &[0x00, 0x00, 0x00, 0x00, 0x00, 0x00, 0x00, 0x00], cap: Capability::Implemented, scope: Scope::V1, flags_umask: None, note: "ADD" });
    v.push(FormPolicy { file: "01", opcode_bytes: &[0x01, 0x00, 0x00, 0x00, 0x00, 0x00, 0x00, 0x00], cap: Capability::Implemented, scope: Scope::V1, flags_umask: None, note: "ADD" });
    v.push(FormPolicy { file: "02", opcode_bytes: &[0x02, 0x00, 0x00, 0x00, 0x00, 0x00, 0x00, 0x00], cap: Capability::Implemented, scope: Scope::V1, flags_umask: None, note: "ADD" });
    v.push(FormPolicy { file: "03", opcode_bytes: &[0x03, 0x00, 0x00, 0x00, 0x00, 0x00, 0x00, 0x00], cap: Capability::Implemented, scope: Scope::V1, flags_umask: None, note: "ADD" });
    v.push(FormPolicy { file: "04", opcode_bytes: &[0x04, 0x00, 0x00, 0x00, 0x00, 0x00, 0x00, 0x00], cap: Capability::Implemented, scope: Scope::V1, flags_umask: None, note: "ADD" });
    v.push(FormPolicy { file: "05", opcode_bytes: &[0x05, 0x00, 0x00, 0x00, 0x00, 0x00, 0x00, 0x00], cap: Capability::Implemented, scope: Scope::V1, flags_umask: None, note: "ADD" });
    v.push(FormPolicy { file: "06", opcode_bytes: &[0x06, 0x00, 0x00, 0x00, 0x00, 0x00, 0x00, 0x00], cap: Capability::Implemented, scope: Scope::V1, flags_umask: None, note: "PUSH seg" });
    v.push(FormPolicy { file: "07", opcode_bytes: &[0x07, 0x00, 0x00, 0x00, 0x00, 0x00, 0x00, 0x00], cap: Capability::Implemented, scope: Scope::V1, flags_umask: None, note: "POP seg" });
    v.push(FormPolicy { file: "08", opcode_bytes: &[0x08, 0x00, 0x00, 0x00, 0x00, 0x00, 0x00, 0x00], cap: Capability::Implemented, scope: Scope::V1, flags_umask: None, note: "OR" });
    v.push(FormPolicy { file: "09", opcode_bytes: &[0x09, 0x00, 0x00, 0x00, 0x00, 0x00, 0x00, 0x00], cap: Capability::Implemented, scope: Scope::V1, flags_umask: None, note: "OR" });
    v.push(FormPolicy { file: "0A", opcode_bytes: &[0x0A, 0x00, 0x00, 0x00, 0x00, 0x00, 0x00, 0x00], cap: Capability::Implemented, scope: Scope::V1, flags_umask: None, note: "OR" });
    v.push(FormPolicy { file: "0B", opcode_bytes: &[0x0B, 0x00, 0x00, 0x00, 0x00, 0x00, 0x00, 0x00], cap: Capability::Implemented, scope: Scope::V1, flags_umask: None, note: "OR" });
    v.push(FormPolicy { file: "0C", opcode_bytes: &[0x0C, 0x00, 0x00, 0x00, 0x00, 0x00, 0x00, 0x00], cap: Capability::Implemented, scope: Scope::V1, flags_umask: None, note: "OR" });
    v.push(FormPolicy { file: "0D", opcode_bytes: &[0x0D, 0x00, 0x00, 0x00, 0x00, 0x00, 0x00, 0x00], cap: Capability::Implemented, scope: Scope::V1, flags_umask: None, note: "OR" });
    v.push(FormPolicy { file: "0E", opcode_bytes: &[0x0E, 0x00, 0x00, 0x00, 0x00, 0x00, 0x00, 0x00], cap: Capability::Implemented, scope: Scope::V1, flags_umask: None, note: "PUSH seg" });
    v.push(FormPolicy { file: "10", opcode_bytes: &[0x10, 0x00, 0x00, 0x00, 0x00, 0x00, 0x00, 0x00], cap: Capability::Implemented, scope: Scope::V1, flags_umask: None, note: "ADC" });
    v.push(FormPolicy { file: "11", opcode_bytes: &[0x11, 0x00, 0x00, 0x00, 0x00, 0x00, 0x00, 0x00], cap: Capability::Implemented, scope: Scope::V1, flags_umask: None, note: "ADC" });
    v.push(FormPolicy { file: "12", opcode_bytes: &[0x12, 0x00, 0x00, 0x00, 0x00, 0x00, 0x00, 0x00], cap: Capability::Implemented, scope: Scope::V1, flags_umask: None, note: "ADC" });
    v.push(FormPolicy { file: "13", opcode_bytes: &[0x13, 0x00, 0x00, 0x00, 0x00, 0x00, 0x00, 0x00], cap: Capability::Implemented, scope: Scope::V1, flags_umask: None, note: "ADC" });
    v.push(FormPolicy { file: "14", opcode_bytes: &[0x14, 0x00, 0x00, 0x00, 0x00, 0x00, 0x00, 0x00], cap: Capability::Implemented, scope: Scope::V1, flags_umask: None, note: "ADC" });
    v.push(FormPolicy { file: "15", opcode_bytes: &[0x15, 0x00, 0x00, 0x00, 0x00, 0x00, 0x00, 0x00], cap: Capability::Implemented, scope: Scope::V1, flags_umask: None, note: "ADC" });
    v.push(FormPolicy { file: "16", opcode_bytes: &[0x16, 0x00, 0x00, 0x00, 0x00, 0x00, 0x00, 0x00], cap: Capability::Implemented, scope: Scope::V1, flags_umask: None, note: "PUSH seg" });
    v.push(FormPolicy { file: "17", opcode_bytes: &[0x17, 0x00, 0x00, 0x00, 0x00, 0x00, 0x00, 0x00], cap: Capability::Implemented, scope: Scope::V1, flags_umask: None, note: "POP seg" });
    v.push(FormPolicy { file: "18", opcode_bytes: &[0x18, 0x00, 0x00, 0x00, 0x00, 0x00, 0x00, 0x00], cap: Capability::Implemented, scope: Scope::V1, flags_umask: None, note: "SBB" });
    v.push(FormPolicy { file: "19", opcode_bytes: &[0x19, 0x00, 0x00, 0x00, 0x00, 0x00, 0x00, 0x00], cap: Capability::Implemented, scope: Scope::V1, flags_umask: None, note: "SBB" });
    assert(v@ =~= v0 + form_part0());
}

#[verifier::spinoff_prover]
#[verifier::rlimit(40)]
fn push_part1(v: &mut Vec<FormPolicy>)
    ensures
        final(v)@ == old(v)@ + form_part1(),
{
    let ghost v0 = v@;
    proof {
        reveal(form_part1);
    }
    v.push(FormPolicy { file: "1A", opcode_bytes: &[0x1A, 0x00, 0x00, 0x00, 0x00, 0x00, 0x00, 0x00], cap: Capability::Implemented, scope: Scope::V1, flags_umask: None, note: "SBB" });
    v.push(FormPolicy { file: "1B", opcode_bytes: &[0x1B, 0x00, 0x00, 0x00, 0x00, 0x00, 0x00, 0x00], cap: Capability::Implemented, scope: Scope::V1, flags_umask: None, note: "SBB" });
    v.push(FormPolicy { file: "1C", opcode_bytes: &[0x1C, 0x00, 0x00, 0x00, 0x00, 0x00, 0x00, 0x00], cap: Capability::Implemented, scope: Scope::V1, flags_umask: None, note: "SBB" });
    v.push(FormPolicy { file: "1D", opcode_bytes: &[0x1D, 0x00, 0x00, 0x00, 0x00, 0x00, 0x00, 0x00], cap: Capability::Implemented, scope: Scope::V1, flags_umask: None, note: "SBB" });
    v.push(FormPolicy { file: "1E", opcode_bytes: &[0x1E, 0x00, 0x00, 0x00, 0x00, 0x00, 0x00, 0x00], cap: Capability::Implemented, scope: Scope::V1, flags_umask: None, note: "PUSH seg" });
    v.push(FormPolicy { file: "1F", opcode_bytes: &[0x1F, 0x00, 0x00, 0x00, 0x00, 0x00, 0x00, 0x00], cap: Capability::Implemented, scope: Scope::V1, flags_umask: None, note: "POP seg" });
    v.push(FormPolicy { file: "20", opcode_bytes: &[0x20, 0x00, 0x00, 0x00, 0x00, 0x00, 0x00, 0x00], cap: Capability::Implemented, scope: Scope::V1, flags_umask: None, note: "AND" });
    v.push(FormPolicy { file: "21", opcode_bytes: &[0x21, 0x00, 0x00, 0x00, 0x00, 0x00, 0x00, 0x00], cap: Capability::Implemented, scope: Scope::V1, flags_umask: None, note: "AND" });
    v.push(FormPolicy { file: "22", opcode_bytes: &[0x22, 0x00, 0x00, 0x00, 0x00, 0x00, 0x00, 0x00], cap: Capability::Implemented, scope: Scope::V1, flags_umask: None, note: "AND" });
    v.push(FormPolicy { file: "23", opcode_bytes: &[0x23, 0x00, 0x00, 0x00, 0x00, 0x00, 0x00, 0x00], cap: Capability::Implemented, scope: Scope::V1, flags_umask: None, note: "AND" });
    v.push(FormPolicy { file: "24", opcode_bytes: &[0x24, 0x00, 0x00, 0x00, 0x00, 0x00, 0x00, 0x00], cap: Capability::Implemented, scope: Scope::V1, flags_umask: None, note: "AND" });
    v.push(FormPolicy { file: "25", opcode_bytes: &[0x25, 0x00, 0x00, 0x00, 0x00, 0x00, 0x00, 0x00], cap: Capability::Implemented, scope: Scope::V1, flags_umask: None, note: "AND" });
    v.push(FormPolicy { file: "27", opcode_bytes: &[0x27, 0x00, 0x00, 0x00, 0x00, 0x00, 0x00, 0x00], cap: Capability::DecodeOnly, scope: Scope::Deferred(DeferReason::NotImplemented), flags_umask: Some(0x07D7), note: "DAA/DAS/AAA/AAS decode but are not carried out -> PANIC; umask 0x07D7 recorded per Intel flag definitions" });
    v.push(FormPolicy { file: "28", opcode_bytes: &[0x28, 0x00, 0x00, 0x00, 0x00, 0x00, 0x00, 0x00], cap: Capability::Implemented, scope: Scope::V1, flags_umask: None, note: "SUB" });
    v.push(FormPolicy { file: "29", opcode_bytes: &[0x29, 0x00, 0x00, 0x00, 0x00, 0x00, 0x00, 0x00], cap: Capability::Implemented, scope: Scope::V1, flags_umask: None, note: "SUB" });
    v.push(FormPolicy { file: "2A", opcode_bytes: &[0x2A, 0x00, 0x00, 0x00, 0x00, 0x00, 0x00, 0x00], cap: Capability::Implemented, scope: Scope::V1, flags_umask: None, note: "SUB" });
    v.push(FormPolicy { file: "2B", opcode_bytes: &[0x2B, 0x00, 0x00, 0x00, 0x00, 0x00, 0x00, 0x00], cap: Capability::Implemented, scope: Scope::V1, flags_umask: None, note: "SUB" });
    v.push(FormPolicy { file: "2C", opcode_bytes: &[0x2C, 0x00, 0x00, 0x00, 0x00, 0x00, 0x00, 0x00], cap: Capability::Implemented, scope: Scope::V1, flags_umask: None, note: "SUB" });
    v.push(FormPolicy { file: "2D", opcode_bytes: &[0x2D, 0x00, 0x00, 0x00, 0x00, 0x00, 0x00, 0x00], cap: Capability::Implemented, scope: Scope::V1, flags_umask: None, note: "SUB" });
    v.push(FormPolicy { file: "2F", opcode_bytes: &[0x2F, 0x00, 0x00, 0x00, 0x00, 0x00, 0x00, 0x00], cap: Capability::DecodeOnly, scope: Scope::Deferred(DeferReason::NotImplemented), flags_umask: Some(0x07D7), note: "DAA/DAS/AAA/AAS decode but are not carried out -> PANIC; umask 0x07D7 recorded per Intel flag definitions" });
    v.push(FormPolicy { file: "30", opcode_bytes: &[0x30, 0x00, 0x00, 0x00, 0x00, 0x00, 0x00, 0x00], cap: Capability::Implemented, scope: Scope::V1, flags_umask: None, note: "XOR" });
    v.push(FormPolicy { file: "31", opcode_bytes: &[0x31, 0x00, 0x00, 0x00, 0x00, 0x00, 0x00, 0x00], cap: Capability::Implemented, scope: Scope::V1, flags_umask: None, note: "XOR" });
    v.push(FormPolicy { file: "32", opcode_bytes: &[0x32, 0x00, 0x00, 0x00, 0x00, 0x00, 0x00, 0x00], cap: Capability::Implemented, scope: Scope::V1, flags_umask: None, note: "XOR" });
    v.push(FormPolicy { file: "33", opcode_bytes: &[0x33, 0x00, 0x00, 0x00, 0x00, 0x00, 0x00, 0x00], cap: Capability::Implemented, scope: Scope::V1, flags_umask: None, note: "XOR" });
    v.push(FormPolicy { file: "34", opcode_bytes: &[0x34, 0x00, 0x00, 0x00, 0x00, 0x00, 0x00, 0x00], cap: Capability::Implemented, scope: Scope::V1, flags_umask: None, note: "XOR" });
    assert(v@ =~= v0 + form_part1());
}

#[verifier::spinoff_prover]
#[verifier::rlimit(40)]
fn push_part2(v: &mut Vec<FormPolicy>)
    ensures
        final(v)@ == old(v)@ + form_part2(),
{
    let ghost v0 = v@;
    proof {
        reveal(form_part2);
    }
    v.push(FormPolicy { file: "35", opcode_bytes: &[0x35, 0x00, 0x00, 0x00, 0x00, 0x00, 0x00, 0x00], cap: Capability::Implemented, scope: Scope::V1, flags_umask: None, note: "XOR" });
    v.push(FormPolicy { file: "37", opcode_bytes: &[0x37, 0x00, 0x00, 0x00, 0x00, 0x00, 0x00, 0x00], cap: Capability::DecodeOnly, scope: Scope::Deferred(DeferReason::NotImplemented), flags_umask: Some(0x0011), note: "DAA/DAS/AAA/AAS decode but are not carried out -> PANIC; umask 0x0011 recorded per Intel flag definitions" });
    v.push(FormPolicy { file: "38", opcode_bytes: &[0x38, 0x00, 0x00, 0x00, 0x00, 0x00, 0x00, 0x00], cap: Capability::Implemented, scope: Scope::V1, flags_umask: None, note: "CMP" });
    v.push(FormPolicy { file: "39", opcode_bytes: &[0x39, 0x00, 0x00, 0x00, 0x00, 0x00, 0x00, 0x00], cap: Capability::Implemented, scope: Scope::V1, flags_umask: None, note: "CMP" });
    v.push(FormPolicy { file: "3A", opcode_bytes: &[0x3A, 0x00, 0x00, 0x00, 0x00, 0x00, 0x00, 0x00], cap: Capability::Implemented, scope: Scope::V1, flags_umask: None, note: "CMP" });
    v.push(FormPolicy { file: "3B", opcode_bytes: &[0x3B, 0x00, 0x00, 0x00, 0x00, 0x00, 0x00, 0x00], cap: Capability::Implemented, scope: Scope::V1, flags_umask: None, note: "CMP" });
    v.push(FormPolicy { file: "3C", opcode_bytes: &[0x3C, 0x00, 0x00, 0x00, 0x00, 0x00, 0x00, 0x00], cap: Capability::Implemented, scope: Scope::V1, flags_umask: None, note: "CMP" });
    v.push(FormPolicy { file: "3D", opcode_bytes: &[0x3D, 0x00, 0x00, 0x00, 0x00, 0x00, 0x00, 0x00], cap: Capability::Implemented, scope: Scope::V1, flags_umask: None, note: "CMP" });
    v.push(FormPolicy { file: "3F", opcode_bytes: &[0x3F, 0x00, 0x00, 0x00, 0x00, 0x00, 0x00, 0x00], cap: Capability::DecodeOnly, scope: Scope::Deferred(DeferReason::NotImplemented), flags_umask: Some(0x0011), note: "DAA/DAS/AAA/AAS decode but are not carried out -> PANIC; umask 0x0011 recorded per Intel flag definitions" });
    v.push(FormPolicy { file: "40", opcode_bytes: &[0x40, 0x00, 0x00, 0x00, 0x00, 0x00, 0x00, 0x00], cap: Capability::Implemented, scope: Scope::V1, flags_umask: None, note: "INC r16" });
    v.push(FormPolicy { file: "41", opcode_bytes: &[0x41, 0x00, 0x00, 0x00, 0x00, 0x00, 0x00, 0x00], cap: Capability::Implemented, scope: Scope::V1, flags_umask: None, note: "INC r16" });
    v.push(FormPolicy { file: "42", opcode_bytes: &[0x42, 0x00, 0x00, 0x00, 0x00, 0x00, 0x00, 0x00], cap: Capability::Implemented, scope: Scope::V1, flags_umask: None, note: "INC r16" });
    v.push(FormPolicy { file: "43", opcode_bytes: &[0x43, 0x00, 0x00, 0x00, 0x00, 0x00, 0x00, 0x00], cap: Capability::Implemented, scope: Scope::V1, flags_umask: None, note: "INC r16" });
    v.push(FormPolicy { file: "44", opcode_bytes: &[0x44, 0x00, 0x00, 0x00, 0x00, 0x00, 0x00, 0x00], cap: Capability::Implemented, scope: Scope::V1, flags_umask: None, note: "INC r16" });
    v.push(FormPolicy { file: "45", opcode_bytes: &[0x45, 0x00, 0x00, 0x00, 0x00, 0x00, 0x00, 0x00], cap: Capability::Implemented, scope: Scope::V1, flags_umask: None, note: "INC r16" });
    v.push(FormPolicy { file: "46", opcode_bytes: &[0x46, 0x00, 0x00, 0x00, 0x00, 0x00, 0x00, 0x00], cap: Capability::Implemented, scope: Scope::V1, flags_umask: None, note: "INC r16" });
    v.push(FormPolicy { file: "47", opcode_bytes: &[0x47, 0x00, 0x00, 0x00, 0x00, 0x00, 0x00, 0x00], cap: Capability::Implemented, scope: Scope::V1, flags_umask: None, note: "INC r16" });
    v.push(FormPolicy { file: "48", opcode_bytes: &[0x48, 0x00, 0x00, 0x00, 0x00, 0x00, 0x00, 0x00], cap: Capability::Implemented, scope: Scope::V1, flags_umask: None, note: "DEC r16" });
    v.push(FormPolicy { file: "49", opcode_bytes: &[0x49, 0x00, 0x00, 0x00, 0x00, 0x00, 0x00, 0x00], cap: Capability::Implemented, scope: Scope::V1, flags_umask: None, note: "DEC r16" });
    v.push(FormPolicy { file: "4A", opcode_bytes: &[0x4A, 0x00, 0x00, 0x00, 0x00, 0x00, 0x00, 0x00], cap: Capability::Implemented, scope: Scope::V1, flags_umask: None, note: "DEC r16" });
    v.push(FormPolicy { file: "4B", opcode_bytes: &[0x4B, 0x00, 0x00, 0x00, 0x00, 0x00, 0x00, 0x00], cap: Capability::Implemented, scope: Scope::V1, flags_umask: None, note: "DEC r16" });
    v.push(FormPolicy { file: "4C", opcode_bytes: &[0x4C, 0x00, 0x00, 0x00, 0x00, 0x00, 0x00, 0x00], cap: Capability::Implemented, scope: Scope::V1, flags_umask: None, note: "DEC r16" });
    v.push(FormPolicy { file: "4D", opcode_bytes: &[0x4D, 0x00, 0x00, 0x00, 0x00, 0x00, 0x00, 0x00], cap: Capability::Implemented, scope: Scope::V1, flags_umask: None, note: "DEC r16" });
    v.push(FormPolicy { file: "4E", opcode_bytes: &[0x4E, 0x00, 0x00, 0x00, 0x00, 0x00, 0x00, 0x00], cap: Capability::Implemented, scope: Scope::V1, flags_umask: None, note: "DEC r16" });
    v.push(FormPolicy { file: "4F", opcode_bytes: &[0x4F, 0x00, 0x00, 0x00, 0x00, 0x00, 0x00, 0x00], cap: Capability::Implemented, scope: Scope::V1, flags_umask: None, note: "DEC r16" });
    assert(v@ =~= v0 + form_part2());
}

#[verifier::spinoff_prover]
#[verifier::rlimit(40)]
fn push_part3(v: &mut Vec<FormPolicy>)
    ensures
        final(v)@ == old(v)@ + form_part3(),
{
    let ghost v0 = v@;
    proof {
        reveal(form_part3);
    }
    v.push(FormPolicy { file: "50", opcode_bytes: &[0x50, 0x00, 0x00, 0x00, 0x00, 0x00, 0x00, 0x00], cap: Capability::Implemented, scope: Scope::V1, flags_umask: None, note: "PUSH r16" });
    v.push(FormPolicy { file: "51", opcode_bytes: &[0x51, 0x00, 0x00, 0x00, 0x00, 0x00, 0x00, 0x00], cap: Capability::Implemented, scope: Scope::V1, flags_umask: None, note: "PUSH r16" });
    v.push(FormPolicy { file: "52", opcode_bytes: &[0x52, 0x00, 0x00, 0x00, 0x00, 0x00, 0x00, 0x00], cap: Capability::Implemented, scope: Scope::V1, flags_umask: None, note: "PUSH r16" });
    v.push(FormPolicy { file: "53", opcode_bytes: &[0x53, 0x00, 0x00, 0x00, 0x00, 0x00, 0x00, 0x00], cap: Capability::Implemented, scope: Scope::V1, flags_umask: None, note: "PUSH r16" });
    v.push(FormPolicy { file: "54", opcode_bytes: &[0x54, 0x00, 0x00, 0x00, 0x00, 0x00, 0x00, 0x00], cap: Capability::Implemented, scope: Scope::V1, flags_umask: None, note: "PUSH r16" });
    v.push(FormPolicy { file: "55", opcode_bytes: &[0x55, 0x00, 0x00, 0x00, 0x00, 0x00, 0x00, 0x00], cap: Capability::Implemented, scope: Scope::V1, flags_umask: None, note: "PUSH r16" });
    v.push(FormPolicy { file: "56", opcode_bytes: &[0x56, 0x00, 0x00, 0x00, 0x00, 0x00, 0x00, 0x00], cap: Capability::Implemented, scope: Scope::V1, flags_umask: None, note: "PUSH r16" });
    v.push(FormPolicy { file: "57", opcode_bytes: &[0x57, 0x00, 0x00, 0x00, 0x00, 0x00, 0x00, 0x00], cap: Capability::Implemented, scope: Scope::V1, flags_umask: None, note: "PUSH r16" });
    v.push(FormPolicy { file: "58", opcode_bytes: &[0x58, 0x00, 0x00, 0x00, 0x00, 0x00, 0x00, 0x00], cap: Capability::Implemented, scope: Scope::V1, flags_umask: None, note: "POP r16" });
    v.push(FormPolicy { file: "59", opcode_bytes: &[0x59, 0x00, 0x00, 0x00, 0x00, 0x00, 0x00, 0x00], cap: Capability::Implemented, scope: Scope::V1, flags_umask: None, note: "POP r16" });
    v.push(FormPolicy { file: "5A", opcode_bytes: &[0x5A, 0x00, 0x00, 0x00, 0x00, 0x00, 0x00, 0x00], cap: Capability::Implemented, scope: Scope::V1, flags_umask: None, note: "POP r16" });
    v.push(FormPolicy { file: "5B", opcode_bytes: &[0x5B, 0x00, 0x00, 0x00, 0x00, 0x00, 0x00, 0x00], cap: Capability::Implemented, scope: Scope::V1, flags_umask: None, note: "POP r16" });
    v.push(FormPolicy { file: "5C", opcode_bytes: &[0x5C, 0x00, 0x00, 0x00, 0x00, 0x00, 0x00, 0x00], cap: Capability::Implemented, scope: Scope::V1, flags_umask: None, note: "POP r16" });
    v.push(FormPolicy { file: "5D", opcode_bytes: &[0x5D, 0x00, 0x00, 0x00, 0x00, 0x00, 0x00, 0x00], cap: Capability::Implemented, scope: Scope::V1, flags_umask: None, note: "POP r16" });
    v.push(FormPolicy { file: "5E", opcode_bytes: &[0x5E, 0x00, 0x00, 0x00, 0x00, 0x00, 0x00, 0x00], cap: Capability::Implemented, scope: Scope::V1, flags_umask: None, note: "POP r16" });
    v.push(FormPolicy { file: "5F", opcode_bytes: &[0x5F, 0x00, 0x00, 0x00, 0x00, 0x00, 0x00, 0x00], cap: Capability::Implemented, scope: Scope::V1, flags_umask: None, note: "POP r16" });
    v.push(FormPolicy { file: "60", opcode_bytes: &[0x60, 0x00, 0x00, 0x00, 0x00, 0x00, 0x00, 0x00], cap: Capability::DecodeOnly, scope: Scope::Deferred(DeferReason::NotImplemented), flags_umask: None, note: "PUSHA/POPA decode but are not carried out -> PANIC" });
    v.push(FormPolicy { file: "61", opcode_bytes: &[0x61, 0x00, 0x00, 0x00, 0x00, 0x00, 0x00, 0x00], cap: Capability::DecodeOnly, scope: Scope::Deferred(DeferReason::NotImplemented), flags_umask: None, note: "PUSHA/POPA decode but are not carried out -> PANIC" });
    v.push(FormPolicy { file: "62", opcode_bytes: &[0x62, 0x00, 0x00, 0x00, 0x00, 0x00, 0x00, 0x00], cap: Capability::Undecodable, scope: Scope::Deferred(DeferReason::NotImplemented), flags_umask: None, note: "BOUND does not decode -> DECODE_ERR" });
    v.push(FormPolicy { file: "68", opcode_bytes: &[0x68, 0x00, 0x00, 0x00, 0x00, 0x00, 0x00, 0x00], cap: Capability::Implemented, scope: Scope::V1, flags_umask: None, note: "PUSH imm16" });
    v.push(FormPolicy { file: "69", opcode_bytes: &[0x69, 0x00, 0x00, 0x00, 0x00, 0x00, 0x00, 0x00], cap: Capability::Implemented, scope: Scope::V1, flags_umask: None, note: "IMUL r16,rm16,imm16; CF/OF defined, rest undefined (Intel 80286)" });
    v.push(FormPolicy { file: "6A", opcode_bytes: &[0x6A, 0x00, 0x00, 0x00, 0x00, 0x00, 0x00, 0x00], cap: Capability::Implemented, scope: Scope::V1, flags_umask: None, note: "PUSH imm8" });
    v.push(FormPolicy { file: "6B", opcode_bytes: &[0x6B, 0x00, 0x00, 0x00, 0x00, 0x00, 0x00, 0x00], cap: Capability::Implemented, scope: Scope::V1, flags_umask: None, note: "IMUL r16,rm16,imm8; CF/OF defined, rest undefined (Intel 80286)" });
    v.push(FormPolicy { file: "6C", opcode_bytes: &[0x6C, 0x06, 0x00, 0x00, 0x00, 0x00, 0x00, 0x00], cap: Capability::DecodeOnly, scope: Scope::Deferred(DeferReason::RepString), flags_umask: None, note: "INS/OUTS decode but are not carried out -> PANIC; string I/O, deferred" });
    v.push(FormPolicy { file: "6D", opcode_bytes: &[0x6D, 0x06, 0x00, 0x00, 0x00, 0x00, 0x00, 0x00], cap: Capability::DecodeOnly, scope: Scope::Deferred(DeferReason::RepString), flags_umask: None, note: "INS/OUTS decode but are not carried out -> PANIC; string I/O, deferred" });
    assert(v@ =~= v0 + form_part3());
}

#[verifier::spinoff_prover]
#[verifier::rlimit(40)]
fn push_part4(v: &mut Vec<FormPolicy>)
    ensures
        final(v)@ == old(v)@ + form_part4(),
{
    let ghost v0 = v@;
    proof {
        reveal(form_part4);
    }
    v.push(FormPolicy { file: "6E", opcode_bytes: &[0x6E, 0x06, 0x00, 0x00, 0x00, 0x00, 0x00, 0x00], cap: Capability::DecodeOnly, scope: Scope::Deferred(DeferReason::RepString), flags_umask: None, note: "INS/OUTS decode but are not carried out -> PANIC; string I/O, deferred" });
    v.push(FormPolicy { file: "6F", opcode_bytes: &[0x6F, 0x06, 0x00, 0x00, 0x00, 0x00, 0x00, 0x00], cap: Capability::DecodeOnly, scope: Scope::Deferred(DeferReason::RepString), flags_umask: None, note: "INS/OUTS decode but are not carried out -> PANIC; string I/O, deferred" });
    v.push(FormPolicy { file: "70", opcode_bytes: &[0x70, 0x00, 0x00, 0x00, 0x00, 0x00, 0x00, 0x00], cap: Capability::Implemented, scope: Scope::V1, flags_umask: None, note: "Jcc rel8" });
    v.push(FormPolicy { file: "71", opcode_bytes: &[0x71, 0x00, 0x00, 0x00, 0x00, 0x00, 0x00, 0x00], cap: Capability::Implemented, scope: Scope::V1, flags_umask: None, note: "Jcc rel8" });
    v.push(FormPolicy { file: "72", opcode_bytes: &[0x72, 0x00, 0x00, 0x00, 0x00, 0x00, 0x00, 0x00], cap: Capability::Implemented, scope: Scope::V1, flags_umask: None, note: "Jcc rel8" });
    v.push(FormPolicy { file: "73", opcode_bytes: &[0x73, 0x00, 0x00, 0x00, 0x00, 0x00, 0x00, 0x00], cap: Capability::Implemented, scope: Scope::V1, flags_umask: None, note: "Jcc rel8" });
    v.push(FormPolicy { file: "74", opcode_bytes: &[0x74, 0x00, 0x00, 0x00, 0x00, 0x00, 0x00, 0x00], cap: Capability::Implemented, scope: Scope::V1, flags_umask: None, note: "Jcc rel8" });
    v.push(FormPolicy { file: "75", opcode_bytes: &[0x75, 0x00, 0x00, 0x00, 0x00, 0x00, 0x00, 0x00], cap: Capability::Implemented, scope: Scope::V1, flags_umask: None, note: "Jcc rel8" });
    v.push(FormPolicy { file: "76", opcode_bytes: &[0x76, 0x00, 0x00, 0x00, 0x00, 0x00, 0x00, 0x00], cap: Capability::Implemented, scope: Scope::V1, flags_umask: None, note: "Jcc rel8" });
    v.push(FormPolicy { file: "77", opcode_bytes: &[0x77, 0x00, 0x00, 0x00, 0x00, 0x00, 0x00, 0x00], cap: Capability::Implemented, scope: Scope::V1, flags_umask: None, note: "Jcc rel8" });
    v.push(FormPolicy { file: "78", opcode_bytes: &[0x78, 0x00, 0x00, 0x00, 0x00, 0x00, 0x00, 0x00], cap: Capability::Implemented, scope: Scope::V1, flags_umask: None, note: "Jcc rel8" });
    v.push(FormPolicy { file: "79", opcode_bytes: &[0x79, 0x00, 0x00, 0x00, 0x00, 0x00, 0x00, 0x00], cap: Capability::Implemented, scope: Scope::V1, flags_umask: None, note: "Jcc rel8" });
    v.push(FormPolicy { file: "7A", opcode_bytes: &[0x7A, 0x00, 0x00, 0x00, 0x00, 0x00, 0x00, 0x00], cap: Capability::Implemented, scope: Scope::V1, flags_umask: None, note: "Jcc rel8" });
    v.push(FormPolicy { file: "7B", opcode_bytes: &[0x7B, 0x00, 0x00, 0x00, 0x00, 0x00, 0x00, 0x00], cap: Capability::Implemented, scope: Scope::V1, flags_umask: None, note: "Jcc rel8" });
    v.push(FormPolicy { file: "7C", opcode_bytes: &[0x7C, 0x00, 0x00, 0x00, 0x00, 0x00, 0x00, 0x00], cap: Capability::Implemented, scope: Scope::V1, flags_umask: None, note: "Jcc rel8" });
    v.push(FormPolicy { file: "7D", opcode_bytes: &[0x7D, 0x00, 0x00, 0x00, 0x00, 0x00, 0x00, 0x00], cap: Capability::Implemented, scope: Scope::V1, flags_umask: None, note: "Jcc rel8" });
    v.push(FormPolicy { file: "7E", opcode_bytes: &[0x7E, 0x00, 0x00, 0x00, 0x00, 0x00, 0x00, 0x00], cap: Capability::Implemented, scope: Scope::V1, flags_umask: None, note: "Jcc rel8" });
    v.push(FormPolicy { file: "7F", opcode_bytes: &[0x7F, 0x00, 0x00, 0x00, 0x00, 0x00, 0x00, 0x00], cap: Capability::Implemented, scope: Scope::V1, flags_umask: None, note: "Jcc rel8" });
    v.push(FormPolicy { file: "80.0", opcode_bytes: &[0x80, 0xC0, 0x00, 0x00, 0x00, 0x00, 0x00, 0x00], cap: Capability::Implemented, scope: Scope::V1, flags_umask: None, note: "ADD grp1" });
    v.push(FormPolicy { file: "80.1", opcode_bytes: &[0x80, 0xC8, 0x00, 0x00, 0x00, 0x00, 0x00, 0x00], cap: Capability::Implemented, scope: Scope::V1, flags_umask: None, note: "OR grp1" });
    v.push(FormPolicy { file: "80.2", opcode_bytes: &[0x80, 0xD0, 0x00, 0x00, 0x00, 0x00, 0x00, 0x00], cap: Capability::Implemented, scope: Scope::V1, flags_umask: None, note: "ADC grp1" });
    v.push(FormPolicy { file: "80.3", opcode_bytes: &[0x80, 0xD8, 0x00, 0x00, 0x00, 0x00, 0x00, 0x00], cap: Capability::Implemented, scope: Scope::V1, flags_umask: None, note: "SBB grp1" });
    v.push(FormPolicy { file: "80.4", opcode_bytes: &[0x80, 0xE0, 0x00, 0x00, 0x00, 0x00, 0x00, 0x00], cap: Capability::Implemented, scope: Scope::V1, flags_umask: None, note: "AND grp1" });
    v.push(FormPolicy { file: "80.5", opcode_bytes: &[0x80, 0xE8, 0x00, 0x00, 0x00, 0x00, 0x00, 0x00], cap: Capability::Implemented, scope: Scope::V1, flags_umask: None, note: "SUB grp1" });
    v.push(FormPolicy { file: "80.6", opcode_bytes: &[0x80, 0xF0, 0x00, 0x00, 0x00, 0x00, 0x00, 0x00], cap: Capability::Implemented, scope: Scope::V1, flags_umask: None, note: "XOR grp1" });
    assert(v@ =~= v0 + form_part4());
}

#[verifier::spinoff_prover]
#[verifier::rlimit(40)]
fn push_part5(v: &mut Vec<FormPolicy>)
    ensures
        final(v)@ == old(v)@ + form_part5(),
{
    let ghost v0 = v@;
    proof {
        reveal(form_part5);
    }
    v.push(FormPolicy { file: "80.7", opcode_bytes: &[0x80, 0xF8, 0x00, 0x00, 0x00, 0x00, 0x00, 0x00], cap: Capability::Implemented, scope: Scope::V1, flags_umask: None, note: "CMP grp1" });
    v.push(FormPolicy { file: "81.0", opcode_bytes: &[0x81, 0xC0, 0x00, 0x00, 0x00, 0x00, 0x00, 0x00], cap: Capability::Implemented, scope: Scope::V1, flags_umask: None, note: "ADD grp1" });
    v.push(FormPolicy { file: "81.1", opcode_bytes: &[0x81, 0xC8, 0x00, 0x00, 0x00, 0x00, 0x00, 0x00], cap: Capability::Implemented, scope: Scope::V1, flags_umask: None, note: "OR grp1" });
    v.push(FormPolicy { file: "81.2", opcode_bytes: &[0x81, 0xD0, 0x00, 0x00, 0x00, 0x00, 0x00, 0x00], cap: Capability::Implemented, scope: Scope::V1, flags_umask: None, note: "ADC grp1" });
    v.push(FormPolicy { file: "81.3", opcode_bytes: &[0x81, 0xD8, 0x00, 0x00, 0x00, 0x00, 0x00, 0x00], cap: Capability::Implemented, scope: Scope::V1, flags_umask: None, note: "SBB grp1" });
    v.push(FormPolicy { file: "81.4", opcode_bytes: &[0x81, 0xE0, 0x00, 0x00, 0x00, 0x00, 0x00, 0x00], cap: Capability::Implemented, scope: Scope::V1, flags_umask: None, note: "AND grp1" });
    v.push(FormPolicy { file: "81.5", opcode_bytes: &[0x81, 0xE8, 0x00, 0x00, 0x00, 0x00, 0x00, 0x00], cap: Capability::Implemented, scope: Scope::V1, flags_umask: None, note: "SUB grp1" });
    v.push(FormPolicy { file: "81.6", opcode_bytes: &[0x81, 0xF0, 0x00, 0x00, 0x00, 0x00, 0x00, 0x00], cap: Capability::Implemented, scope: Scope::V1, flags_umask: None, note: "XOR grp1" });
    v.push(FormPolicy { file: "81.7", opcode_bytes: &[0x81, 0xF8, 0x00, 0x00, 0x00, 0x00, 0x00, 0x00], cap: Capability::Implemented, scope: Scope::V1, flags_umask: None, note: "CMP grp1" });
    v.push(FormPolicy { file: "82.0", opcode_bytes: &[0x82, 0xC0, 0x00, 0x00, 0x00, 0x00, 0x00, 0x00], cap: Capability::Implemented, scope: Scope::V1, flags_umask: None, note: "ADD grp1" });
    v.push(FormPolicy { file: "82.1", opcode_bytes: &[0x82, 0xC8, 0x00, 0x00, 0x00, 0x00, 0x00, 0x00], cap: Capability::Implemented, scope: Scope::V1, flags_umask: None, note: "OR grp1" });
    v.push(FormPolicy { file: "82.2", opcode_bytes: &[0x82, 0xD0, 0x00, 0x00, 0x00, 0x00, 0x00, 0x00], cap: Capability::Implemented, scope: Scope::V1, flags_umask: None, note: "ADC grp1" });
    v.push(FormPolicy { file: "82.3", opcode_bytes: &[0x82, 0xD8, 0x00, 0x00, 0x00, 0x00, 0x00, 0x00], cap: Capability::Implemented, scope: Scope::V1, flags_umask: None, note: "SBB grp1" });
    v.push(FormPolicy { file: "82.4", opcode_bytes: &[0x82, 0xE0, 0x00, 0x00, 0x00, 0x00, 0x00, 0x00], cap: Capability::Implemented, scope: Scope::V1, flags_umask: None, note: "AND grp1" });
    v.push(FormPolicy { file: "82.5", opcode_bytes: &[0x82, 0xE8, 0x00, 0x00, 0x00, 0x00, 0x00, 0x00], cap: Capability::Implemented, scope: Scope::V1, flags_umask: None, note: "SUB grp1" });
    v.push(FormPolicy { file: "82.6", opcode_bytes: &[0x82, 0xF0, 0x00, 0x00, 0x00, 0x00, 0x00, 0x00], cap: Capability::Implemented, scope: Scope::V1, flags_umask: None, note: "XOR grp1" });
    v.push(FormPolicy { file: "82.7", opcode_bytes: &[0x82, 0xF8, 0x00, 0x00, 0x00, 0x00, 0x00, 0x00], cap: Capability::Implemented, scope: Scope::V1, flags_umask: None, note: "CMP grp1" });
    v.push(FormPolicy { file: "83.0", opcode_bytes: &[0x83, 0xC0, 0x00, 0x00, 0x00, 0x00, 0x00, 0x00], cap: Capability::Implemented, scope: Scope::V1, flags_umask: None, note: "ADD grp1" });
    v.push(FormPolicy { file: "83.1", opcode_bytes: &[0x83, 0xC8, 0x00, 0x00, 0x00, 0x00, 0x00, 0x00], cap: Capability::Implemented, scope: Scope::V1, flags_umask: None, note: "OR grp1" });
    v.push(FormPolicy { file: "83.2", opcode_bytes: &[0x83, 0xD0, 0x00, 0x00, 0x00, 0x00, 0x00, 0x00], cap: Capability::Implemented, scope: Scope::V1, flags_umask: None, note: "ADC grp1" });
    v.push(FormPolicy { file: "83.3", opcode_bytes: &[0x83, 0xD8, 0x00, 0x00, 0x00, 0x00, 0x00, 0x00], cap: Capability::Implemented, scope: Scope::V1, flags_umask: None, note: "SBB grp1" });
    v.push(FormPolicy { file: "83.4", opcode_bytes: &[0x83, 0xE0, 0x00, 0x00, 0x00, 0x00, 0x00, 0x00], cap: Capability::Implemented, scope: Scope::V1, flags_umask: None, note: "AND grp1" });
    v.push(FormPolicy { file: "83.5", opcode_bytes: &[0x83, 0xE8, 0x00, 0x00, 0x00, 0x00, 0x00, 0x00], cap: Capability::Implemented, scope: Scope::V1, flags_umask: None, note: "SUB grp1" });
    v.push(FormPolicy { file: "83.6", opcode_bytes: &[0x83, 0xF0, 0x00, 0x00, 0x00, 0x00, 0x00, 0x00], cap: Capability::Implemented, scope: Scope::V1, flags_umask: None, note: "XOR grp1" });
    v.push(FormPolicy { file: "83.7", opcode_bytes: &[0x83, 0xF8, 0x00, 0x00, 0x00, 0x00, 0x00, 0x00], cap: Capability::Implemented, scope: Scope::V1, flags_umask: None, note: "CMP grp1" });
    assert(v@ =~= v0 + form_part5());
}

#[verifier::spinoff_prover]
#[verifier::rlimit(40)]
fn push_part6(v: &mut Vec<FormPolicy>)
    ensures
        final(v)@ == old(v)@ + form_part6(),
{
    let ghost v0 = v@;
    proof {
        reveal(form_part6);
    }
    v.push(FormPolicy { file: "84", opcode_bytes: &[0x84, 0x00, 0x00, 0x00, 0x00, 0x00, 0x00, 0x00], cap: Capability::Implemented, scope: Scope::V1, flags_umask: None, note: "TEST rm8,r8" });
    v.push(FormPolicy { file: "85", opcode_bytes: &[0x85, 0x00, 0x00, 0x00, 0x00, 0x00, 0x00, 0x00], cap: Capability::Implemented, scope: Scope::V1, flags_umask: None, note: "TEST rm16,r16" });
    v.push(FormPolicy { file: "86", opcode_bytes: &[0x86, 0x00, 0x00, 0x00, 0x00, 0x00, 0x00, 0x00], cap: Capability::Implemented, scope: Scope::V1, flags_umask: None, note: "XCHG r8,rm8" });
    v.push(FormPolicy { file: "87", opcode_bytes: &[0x87, 0x00, 0x00, 0x00, 0x00, 0x00, 0x00, 0x00], cap: Capability::Implemented, scope: Scope::V1, flags_umask: None, note: "XCHG r16,rm16" });
    v.push(FormPolicy { file: "88", opcode_bytes: &[0x88, 0x00, 0x00, 0x00, 0x00, 0x00, 0x00, 0x00], cap: Capability::Implemented, scope: Scope::V1, flags_umask: None, note: "MOV rm8,r8" });
    v.push(FormPolicy { file: "89", opcode_bytes: &[0x89, 0x00, 0x00, 0x00, 0x00, 0x00, 0x00, 0x00], cap: Capability::Implemented, scope: Scope::V1, flags_umask: None, note: "MOV rm16,r16" });
    v.push(FormPolicy { file: "8A", opcode_bytes: &[0x8A, 0x00, 0x00, 0x00, 0x00, 0x00, 0x00, 0x00], cap: Capability::Implemented, scope: Scope::V1, flags_umask: None, note: "MOV r8,rm8" });
    v.push(FormPolicy { file: "8B", opcode_bytes: &[0x8B, 0x00, 0x00, 0x00, 0x00, 0x00, 0x00, 0x00], cap: Capability::Implemented, scope: Scope::V1, flags_umask: None, note: "MOV r16,rm16" });
    v.push(FormPolicy { file: "8C", opcode_bytes: &[0x8C, 0x00, 0x00, 0x00, 0x00, 0x00, 0x00, 0x00], cap: Capability::Implemented, scope: Scope::V1, flags_umask: None, note: "MOV rm16,sreg" });
    v.push(FormPolicy { file: "8D", opcode_bytes: &[0x8D, 0x06, 0x00, 0x00, 0x00, 0x00, 0x00, 0x00], cap: Capability::Implemented, scope: Scope::V1, flags_umask: None, note: "LEA r16,m" });
    v.push(FormPolicy { file: "8E", opcode_bytes: &[0x8E, 0x00, 0x00, 0x00, 0x00, 0x00, 0x00, 0x00], cap: Capability::Implemented, scope: Scope::V1, flags_umask: None, note: "MOV sreg,rm16" });
    v.push(FormPolicy { file: "8F", opcode_bytes: &[0x8F, 0x00, 0x00, 0x00, 0x00, 0x00, 0x00, 0x00], cap: Capability::Implemented, scope: Scope::V1, flags_umask: None, note: "POP rm16" });
    v.push(FormPolicy { file: "90", opcode_bytes: &[0x90, 0x00, 0x00, 0x00, 0x00, 0x00, 0x00, 0x00], cap: Capability::Implemented, scope: Scope::V1, flags_umask: None, note: "NOP" });
    v.push(FormPolicy { file: "91", opcode_bytes: &[0x91, 0x00, 0x00, 0x00, 0x00, 0x00, 0x00, 0x00], cap: Capability::Implemented, scope: Scope::V1, flags_umask: None, note: "XCHG r16,AX" });
    v.push(FormPolicy { file: "92", opcode_bytes: &[0x92, 0x00, 0x00, 0x00, 0x00, 0x00, 0x00, 0x00], cap: Capability::Implemented, scope: Scope::V1, flags_umask: None, note: "XCHG r16,AX" });
    v.push(FormPolicy { file: "93", opcode_bytes: &[0x93, 0x00, 0x00, 0x00, 0x00, 0x00, 0x00, 0x00], cap: Capability::Implemented, scope: Scope::V1, flags_umask: None, note: "XCHG r16,AX" });
    v.push(FormPolicy { file: "94", opcode_bytes: &[0x94, 0x00, 0x00, 0x00, 0x00, 0x00, 0x00, 0x00], cap: Capability::Implemented, scope: Scope::V1, flags_umask: None, note: "XCHG r16,AX" });
    v.push(FormPolicy { file: "95", opcode_bytes: &[0x95, 0x00, 0x00, 0x00, 0x00, 0x00, 0x00, 0x00], cap: Capability::Implemented, scope: Scope::V1, flags_umask: None, note: "XCHG r16,AX" });
    v.push(FormPolicy { file: "96", opcode_bytes: &[0x96, 0x00, 0x00, 0x00, 0x00, 0x00, 0x00, 0x00], cap: Capability::Implemented, scope: Scope::V1, flags_umask: None, note: "XCHG r16,AX" });
    v.push(FormPolicy { file: "97", opcode_bytes: &[0x97, 0x00, 0x00, 0x00, 0x00, 0x00, 0x00, 0x00], cap: Capability::Implemented, scope: Scope::V1, flags_umask: None, note: "XCHG r16,AX" });
    v.push(FormPolicy { file: "98", opcode_bytes: &[0x98, 0x00, 0x00, 0x00, 0x00, 0x00, 0x00, 0x00], cap: Capability::Implemented, scope: Scope::V1, flags_umask: None, note: "CBW; no flags affected (Intel 80286)" });
    v.push(FormPolicy { file: "99", opcode_bytes: &[0x99, 0x00, 0x00, 0x00, 0x00, 0x00, 0x00, 0x00], cap: Capability::Implemented, scope: Scope::V1, flags_umask: None, note: "CWD; no flags affected (Intel 80286)" });
    v.push(FormPolicy { file: "9A", opcode_bytes: &[0x9A, 0x00, 0x00, 0x00, 0x00, 0x00, 0x00, 0x00], cap: Capability::Implemented, scope: Scope::V1, flags_umask: None, note: "CALLF far" });
    v.push(FormPolicy { file: "9B", opcode_bytes: &[0x9B, 0x00, 0x00, 0x00, 0x00, 0x00, 0x00, 0x00], cap: Capability::Undecodable, scope: Scope::Deferred(DeferReason::NotImplemented), flags_umask: None, note: "WAIT does not decode -> DECODE_ERR" });
    v.push(FormPolicy { file: "9C", opcode_bytes: &[0x9C, 0x00, 0x00, 0x00, 0x00, 0x00, 0x00, 0x00], cap: Capability::Implemented, scope: Scope::V1, flags_umask: None, note: "PUSHF" });
    assert(v@ =~= v0 + form_part6());
}

#[verifier::spinoff_prover]
#[verifier::rlimit(40)]
fn push_part7(v: &mut Vec<FormPolicy>)
    ensures
        final(v)@ == old(v)@ + form_part7(),
{
    let ghost v0 = v@;
    proof {
        reveal(form_part7);
    }
    v.push(FormPolicy { file: "9D", opcode_bytes: &[0x9D, 0x00, 0x00, 0x00, 0x00, 0x00, 0x00, 0x00], cap: Capability::Implemented, scope: Scope::V1, flags_umask: None, note: "POPF" });
    v.push(FormPolicy { file: "9E", opcode_bytes: &[0x9E, 0x00, 0x00, 0x00, 0x00, 0x00, 0x00, 0x00], cap: Capability::DecodeOnly, scope: Scope::Deferred(DeferReason::NotImplemented), flags_umask: None, note: "LAHF/SAHF decode but are not carried out -> PANIC" });
    v.push(FormPolicy { file: "9F", opcode_bytes: &[0x9F, 0x00, 0x00, 0x00, 0x00, 0x00, 0x00, 0x00], cap: Capability::DecodeOnly, scope: Scope::Deferred(DeferReason::NotImplemented), flags_umask: None, note: "LAHF/SAHF decode but are not carried out -> PANIC" });
    v.push(FormPolicy { file: "A0", opcode_bytes: &[0xA0, 0x00, 0x00, 0x00, 0x00, 0x00, 0x00, 0x00], cap: Capability::Implemented, scope: Scope::V1, flags_umask: None, note: "MOV AL,moffs8" });
    v.push(FormPolicy { file: "A1", opcode_bytes: &[0xA1, 0x00, 0x00, 0x00, 0x00, 0x00, 0x00, 0x00], cap: Capability::Implemented, scope: Scope::V1, flags_umask: None, note: "MOV AX,moffs16" });
    v.push(FormPolicy { file: "A2", opcode_bytes: &[0xA2, 0x00, 0x00, 0x00, 0x00, 0x00, 0x00, 0x00], cap: Capability::Implemented, scope: Scope::V1, flags_umask: None, note: "MOV moffs8,AL" });
    v.push(FormPolicy { file: "A3", opcode_bytes: &[0xA3, 0x00, 0x00, 0x00, 0x00, 0x00, 0x00, 0x00], cap: Capability::Implemented, scope: Scope::V1, flags_umask: None, note: "MOV moffs16,AX" });
    v.push(FormPolicy { file: "A4", opcode_bytes: &[0xA4, 0x00, 0x00, 0x00, 0x00, 0x00, 0x00, 0x00], cap: Capability::Implemented, scope: Scope::Deferred(DeferReason::RepString), flags_umask: None, note: "MOVS m8 implemented but REP/string family deferred" });
    v.push(FormPolicy { file: "A5", opcode_bytes: &[0xA5, 0x00, 0x00, 0x00, 0x00, 0x00, 0x00, 0x00], cap: Capability::Implemented, scope: Scope::Deferred(DeferReason::RepString), flags_umask: None, note: "MOVS m16 implemented but REP/string family deferred" });
    v.push(FormPolicy { file: "A6", opcode_bytes: &[0xA6, 0x00, 0x00, 0x00, 0x00, 0x00, 0x00, 0x00], cap: Capability::Implemented, scope: Scope::Deferred(DeferReason::RepString), flags_umask: None, note: "CMPS m8 implemented but REP/string family deferred" });
    v.push(FormPolicy { file: "A7", opcode_bytes: &[0xA7, 0x00, 0x00, 0x00, 0x00, 0x00, 0x00, 0x00], cap: Capability::Implemented, scope: Scope::Deferred(DeferReason::RepString), flags_umask: None, note: "CMPS m16 implemented but REP/string family deferred" });
    v.push(FormPolicy { file: "A8", opcode_bytes: &[0xA8, 0x00, 0x00, 0x00, 0x00, 0x00, 0x00, 0x00], cap: Capability::Implemented, scope: Scope::V1, flags_umask: None, note: "TEST AL,imm8" });
    v.push(FormPolicy { file: "A9", opcode_bytes: &[0xA9, 0x00, 0x00, 0x00, 0x00, 0x00, 0x00, 0x00], cap: Capability::Implemented, scope: Scope::V1, flags_umask: None, note: "TEST AX,imm16" });
    v.push(FormPolicy { file: "AA", opcode_bytes: &[0xAA, 0x00, 0x00, 0x00, 0x00, 0x00, 0x00, 0x00], cap: Capability::Implemented, scope: Scope::Deferred(DeferReason::RepString), flags_umask: None, note: "STOS m8 implemented but REP/string family deferred" });
    v.push(FormPolicy { file: "AB", opcode_bytes: &[0xAB, 0x00, 0x00, 0x00, 0x00, 0x00, 0x00, 0x00], cap: Capability::Implemented, scope: Scope::Deferred(DeferReason::RepString), flags_umask: None, note: "STOS m16 implemented but REP/string family deferred" });
    v.push(FormPolicy { file: "AC", opcode_bytes: &[0xAC, 0x00, 0x00, 0x00, 0x00, 0x00, 0x00, 0x00], cap: Capability::Implemented, scope: Scope::Deferred(DeferReason::RepString), flags_umask: None, note: "LODS m8 implemented but REP/string family deferred" });
    v.push(FormPolicy { file: "AD", opcode_bytes: &[0xAD, 0x00, 0x00, 0x00, 0x00, 0x00, 0x00, 0x00], cap: Capability::Implemented, scope: Scope::Deferred(DeferReason::RepString), flags_umask: None, note: "LODS m16 implemented but REP/string family deferred" });
    v.push(FormPolicy { file: "AE", opcode_bytes: &[0xAE, 0x00, 0x00, 0x00, 0x00, 0x00, 0x00, 0x00], cap: Capability::Implemented, scope: Scope::Deferred(DeferReason::RepString), flags_umask: None, note: "SCAS m8 implemented but REP/string family deferred" });
    v.push(FormPolicy { file: "AF", opcode_bytes: &[0xAF, 0x00, 0x00, 0x00, 0x00, 0x00, 0x00, 0x00], cap: Capability::Implemented, scope: Scope::Deferred(DeferReason::RepString), flags_umask: None, note: "SCAS m16 implemented but REP/string family deferred" });
    v.push(FormPolicy { file: "B0", opcode_bytes: &[0xB0, 0x00, 0x00, 0x00, 0x00, 0x00, 0x00, 0x00], cap: Capability::Implemented, scope: Scope::V1, flags_umask: None, note: "MOV r8,imm8" });
    v.push(FormPolicy { file: "B1", opcode_bytes: &[0xB1, 0x00, 0x00, 0x00, 0x00, 0x00, 0x00, 0x00], cap: Capability::Implemented, scope: Scope::V1, flags_umask: None, note: "MOV r8,imm8" });
    v.push(FormPolicy { file: "B2", opcode_bytes: &[0xB2, 0x00, 0x00, 0x00, 0x00, 0x00, 0x00, 0x00], cap: Capability::Implemented, scope: Scope::V1, flags_umask: None, note: "MOV r8,imm8" });
    v.push(FormPolicy { file: "B3", opcode_bytes: &[0xB3, 0x00, 0x00, 0x00, 0x00, 0x00, 0x00, 0x00], cap: Capability::Implemented, scope: Scope::V1, flags_umask: None, note: "MOV r8,imm8" });
    v.push(FormPolicy { file: "B4", opcode_bytes: &[0xB4, 0x00, 0x00, 0x00, 0x00, 0x00, 0x00, 0x00], cap: Capability::Implemented, scope: Scope::V1, flags_umask: None, note: "MOV r8,imm8" });
    v.push(FormPolicy { file: "B5", opcode_bytes: &[0xB5, 0x00, 0x00, 0x00, 0x00, 0x00, 0x00, 0x00], cap: Capability::Implemented, scope: Scope::V1, flags_umask: None, note: "MOV r8,imm8" });
    assert(v@ =~= v0 + form_part7());
}

#[verifier::spinoff_prover]
#[verifier::rlimit(40)]
fn push_part8(v: &mut Vec<FormPolicy>)
    ensures
        final(v)@ == old(v)@ + form_part8(),
{
    let ghost v0 = v@;
    proof {
        reveal(form_part8);
    }
    v.push(FormPolicy { file: "B6", opcode_bytes: &[0xB6, 0x00, 0x00, 0x00, 0x00, 0x00, 0x00, 0x00], cap: Capability::Implemented, scope: Scope::V1, flags_umask: None, note: "MOV r8,imm8" });
    v.push(FormPolicy { file: "B7", opcode_bytes: &[0xB7, 0x00, 0x00, 0x00, 0x00, 0x00, 0x00, 0x00], cap: Capability::Implemented, scope: Scope::V1, flags_umask: None, note: "MOV r8,imm8" });
    v.push(FormPolicy { file: "B8", opcode_bytes: &[0xB8, 0x00, 0x00, 0x00, 0x00, 0x00, 0x00, 0x00], cap: Capability::Implemented, scope: Scope::V1, flags_umask: None, note: "MOV r16,imm16" });
    v.push(FormPolicy { file: "B9", opcode_bytes: &[0xB9, 0x00, 0x00, 0x00, 0x00, 0x00, 0x00, 0x00], cap: Capability::Implemented, scope: Scope::V1, flags_umask: None, note: "MOV r16,imm16" });
    v.push(FormPolicy { file: "BA", opcode_bytes: &[0xBA, 0x00, 0x00, 0x00, 0x00, 0x00, 0x00, 0x00], cap: Capability::Implemented, scope: Scope::V1, flags_umask: None, note: "MOV r16,imm16" });
    v.push(FormPolicy { file: "BB", opcode_bytes: &[0xBB, 0x00, 0x00, 0x00, 0x00, 0x00, 0x00, 0x00], cap: Capability::Implemented, scope: Scope::V1, flags_umask: None, note: "MOV r16,imm16" });
    v.push(FormPolicy { file: "BC", opcode_bytes: &[0xBC, 0x00, 0x00, 0x00, 0x00, 0x00, 0x00, 0x00], cap: Capability::Implemented, scope: Scope::V1, flags_umask: None, note: "MOV r16,imm16" });
    v.push(FormPolicy { file: "BD", opcode_bytes: &[0xBD, 0x00, 0x00, 0x00, 0x00, 0x00, 0x00, 0x00], cap: Capability::Implemented, scope: Scope::V1, flags_umask: None, note: "MOV r16,imm16" });
    v.push(FormPolicy { file: "BE", opcode_bytes: &[0xBE, 0x00, 0x00, 0x00, 0x00, 0x00, 0x00, 0x00], cap: Capability::Implemented, scope: Scope::V1, flags_umask: None, note: "MOV r16,imm16" });
    v.push(FormPolicy { file: "BF", opcode_bytes: &[0xBF, 0x00, 0x00, 0x00, 0x00, 0x00, 0x00, 0x00], cap: Capability::Implemented, scope: Scope::V1, flags_umask: None, note: "MOV r16,imm16" });
    v.push(FormPolicy { file: "C0.0", opcode_bytes: &[0xC0, 0xC0, 0x00, 0x00, 0x00, 0x00, 0x00, 0x00], cap: Capability::Implemented, scope: Scope::V1, flags_umask: None, note: "ROL grp2" });
    v.push(FormPolicy { file: "C0.1", opcode_bytes: &[0xC0, 0xC8, 0x00, 0x00, 0x00, 0x00, 0x00, 0x00], cap: Capability::DecodeOnly, scope: Scope::Deferred(DeferReason::NotImplemented), flags_umask: None, note: "ROR grp2 decodes but is not carried out (only SHL/SHR/SAR/ROL are) -> PANIC" });
    v.push(FormPolicy { file: "C0.2", opcode_bytes: &[0xC0, 0xD0, 0x00, 0x00, 0x00, 0x00, 0x00, 0x00], cap: Capability::DecodeOnly, scope: Scope::Deferred(DeferReason::NotImplemented), flags_umask: None, note: "RCL grp2 decodes but is not carried out (only SHL/SHR/SAR/ROL are) -> PANIC" });
    v.push(FormPolicy { file: "C0.3", opcode_bytes: &[0xC0, 0xD8, 0x00, 0x00, 0x00, 0x00, 0x00, 0x00], cap: Capability::DecodeOnly, scope: Scope::Deferred(DeferReason::NotImplemented), flags_umask: None, note: "RCR grp2 decodes but is not carried out (only SHL/SHR/SAR/ROL are) -> PANIC" });
    v.push(FormPolicy { file: "C0.4", opcode_bytes: &[0xC0, 0xE0, 0x00, 0x00, 0x00, 0x00, 0x00, 0x00], cap: Capability::Implemented, scope: Scope::V1, flags_umask: None, note: "SHL grp2" });
    v.push(FormPolicy { file: "C0.5", opcode_bytes: &[0xC0, 0xE8, 0x00, 0x00, 0x00, 0x00, 0x00, 0x00], cap: Capability::Implemented, scope: Scope::V1, flags_umask: None, note: "SHR grp2" });
    v.push(FormPolicy { file: "C0.6", opcode_bytes: &[0xC0, 0xF0, 0x00, 0x00, 0x00, 0x00, 0x00, 0x00], cap: Capability::Implemented, scope: Scope::V1, flags_umask: None, note: "SHL grp2" });
    v.push(FormPolicy { file: "C0.7", opcode_bytes: &[0xC0, 0xF8, 0x00, 0x00, 0x00, 0x00, 0x00, 0x00], cap: Capability::Implemented, scope: Scope::V1, flags_umask: None, note: "SAR grp2" });
    v.push(FormPolicy { file: "C1.0", opcode_bytes: &[0xC1, 0xC0, 0x00, 0x00, 0x00, 0x00, 0x00, 0x00], cap: Capability::Implemented, scope: Scope::V1, flags_umask: None, note: "ROL grp2" });
    v.push(FormPolicy { file: "C1.1", opcode_bytes: &[0xC1, 0xC8, 0x00, 0x00, 0x00, 0x00, 0x00, 0x00], cap: Capability::DecodeOnly, scope: Scope::Deferred(DeferReason::NotImplemented), flags_umask: None, note: "ROR grp2 decodes but is not carried out (only SHL/SHR/SAR/ROL are) -> PANIC" });
    v.push(FormPolicy { file: "C1.2", opcode_bytes: &[0xC1, 0xD0, 0x00, 0x00, 0x00, 0x00, 0x00, 0x00], cap: Capability::DecodeOnly, scope: Scope::Deferred(DeferReason::NotImplemented), flags_umask: None, note: "RCL grp2 decodes but is not carried out (only SHL/SHR/SAR/ROL are) -> PANIC" });
    v.push(FormPolicy { file: "C1.3", opcode_bytes: &[0xC1, 0xD8, 0x00, 0x00, 0x00, 0x00, 0x00, 0x00], cap: Capability::DecodeOnly, scope: Scope::Deferred(DeferReason::NotImplemented), flags_umask: None, note: "RCR grp2 decodes but is not carried out (only SHL/SHR/SAR/ROL are) -> PANIC" });
    v.push(FormPolicy { file: "C1.4", opcode_bytes: &[0xC1, 0xE0, 0x00, 0x00, 0x00, 0x00, 0x00, 0x00], cap: Capability::Implemented, scope: Scope::V1, flags_umask: None, note: "SHL grp2" });
    v.push(FormPolicy { file: "C1.5", opcode_bytes: &[0xC1, 0xE8, 0x00, 0x00, 0x00, 0x00, 0x00, 0x00], cap: Capability::Implemented, scope: Scope::V1, flags_umask: None, note: "SHR grp2" });
    v.push(FormPolicy { file: "C1.6", opcode_bytes: &[0xC1, 0xF0, 0x00, 0x00, 0x00, 0x00, 0x00, 0x00], cap: Capability::Implemented, scope: Scope::V1, flags_umask: None, note: "SHL grp2" });
    assert(v@ =~= v0 + form_part8());
}

#[verifier::spinoff_prover]
#[verifier::rlimit(40)]
fn push_part9(v: &mut Vec<FormPolicy>)
    ensures
        final(v)@ == old(v)@ + form_part9(),
{
    let ghost v0 = v@;
    proof {
        reveal(form_part9);
    }
    v.push(FormPolicy { file: "C1.7", opcode_bytes: &[0xC1, 0xF8, 0x00, 0x00, 0x00, 0x00, 0x00, 0x00], cap: Capability::Implemented, scope: Scope::V1, flags_umask: None, note: "SAR grp2" });
    v.push(FormPolicy { file: "C2", opcode_bytes: &[0xC2, 0x00, 0x00, 0x00, 0x00, 0x00, 0x00, 0x00], cap: Capability::Implemented, scope: Scope::V1, flags_umask: None, note: "RET imm16" });
    v.push(FormPolicy { file: "C3", opcode_bytes: &[0xC3, 0x00, 0x00, 0x00, 0x00, 0x00, 0x00, 0x00], cap: Capability::Implemented, scope: Scope::V1, flags_umask: None, note: "RET" });
    v.push(FormPolicy { file: "C4", opcode_bytes: &[0xC4, 0x06, 0x00, 0x00, 0x00, 0x00, 0x00, 0x00], cap: Capability::Implemented, scope: Scope::Deferred(DeferReason::NotImplemented), flags_umask: None, note: "LES/LDS implemented but segmented addressing deferred" });
    v.push(FormPolicy { file: "C5", opcode_bytes: &[0xC5, 0x06, 0x00, 0x00, 0x00, 0x00, 0x00, 0x00], cap: Capability::Implemented, scope: Scope::Deferred(DeferReason::NotImplemented), flags_umask: None, note: "LES/LDS implemented but segmented addressing deferred" });
    v.push(FormPolicy { file: "C6", opcode_bytes: &[0xC6, 0x00, 0x00, 0x00, 0x00, 0x00, 0x00, 0x00], cap: Capability::Implemented, scope: Scope::V1, flags_umask: None, note: "MOV rm8,imm8" });
    v.push(FormPolicy { file: "C7", opcode_bytes: &[0xC7, 0x00, 0x00, 0x00, 0x00, 0x00, 0x00, 0x00], cap: Capability::Implemented, scope: Scope::V1, flags_umask: None, note: "MOV rm16,imm16" });
    v.push(FormPolicy { file: "C8", opcode_bytes: &[0xC8, 0x00, 0x00, 0x00, 0x00, 0x00, 0x00, 0x00], cap: Capability::Implemented, scope: Scope::Deferred(DeferReason::NotImplemented), flags_umask: None, note: "ENTER carries out nesting level 0 only; LEAVE implemented; deferred from v1" });
    v.push(FormPolicy { file: "C9", opcode_bytes: &[0xC9, 0x00, 0x00, 0x00, 0x00, 0x00, 0x00, 0x00], cap: Capability::Implemented, scope: Scope::Deferred(DeferReason::NotImplemented), flags_umask: None, note: "ENTER carries out nesting level 0 only; LEAVE implemented; deferred from v1" });
    v.push(FormPolicy { file: "CA", opcode_bytes: &[0xCA, 0x00, 0x00, 0x00, 0x00, 0x00, 0x00, 0x00], cap: Capability::Implemented, scope: Scope::V1, flags_umask: None, note: "RETF imm16" });
    v.push(FormPolicy { file: "CB", opcode_bytes: &[0xCB, 0x00, 0x00, 0x00, 0x00, 0x00, 0x00, 0x00], cap: Capability::Implemented, scope: Scope::V1, flags_umask: None, note: "RETF" });
    v.push(FormPolicy { file: "CC", opcode_bytes: &[0xCC, 0x00, 0x00, 0x00, 0x00, 0x00, 0x00, 0x00], cap: Capability::Implemented, scope: Scope::Deferred(DeferReason::IntHlt), flags_umask: None, note: "INT family deferred: software interrupts are not carried out" });
    v.push(FormPolicy { file: "CD", opcode_bytes: &[0xCD, 0x00, 0x00, 0x00, 0x00, 0x00, 0x00, 0x00], cap: Capability::Implemented, scope: Scope::Deferred(DeferReason::IntHlt), flags_umask: None, note: "INT family deferred: software interrupts are not carried out" });
    v.push(FormPolicy { file: "CE", opcode_bytes: &[0xCE, 0x00, 0x00, 0x00, 0x00, 0x00, 0x00, 0x00], cap: Capability::DecodeOnly, scope: Scope::Deferred(DeferReason::IntHlt), flags_umask: None, note: "INTO decodes but is not carried out -> PANIC" });
    v.push(FormPolicy { file: "CF", opcode_bytes: &[0xCF, 0x00, 0x00, 0x00, 0x00, 0x00, 0x00, 0x00], cap: Capability::Implemented, scope: Scope::Deferred(DeferReason::IntHlt), flags_umask: None, note: "IRET implemented but INT family deferred" });
    v.push(FormPolicy { file: "D0.0", opcode_bytes: &[0xD0, 0xC0, 0x00, 0x00, 0x00, 0x00, 0x00, 0x00], cap: Capability::Implemented, scope: Scope::V1, flags_umask: Some(0x07C7), note: "ROL grp2" });
    v.push(FormPolicy { file: "D0.1", opcode_bytes: &[0xD0, 0xC8, 0x00, 0x00, 0x00, 0x00, 0x00, 0x00], cap: Capability::DecodeOnly, scope: Scope::Deferred(DeferReason::NotImplemented), flags_umask: None, note: "ROR grp2 decodes but is not carried out (only SHL/SHR/SAR/ROL are) -> PANIC" });
    v.push(FormPolicy { file: "D0.2", opcode_bytes: &[0xD0, 0xD0, 0x00, 0x00, 0x00, 0x00, 0x00, 0x00], cap: Capability::DecodeOnly, scope: Scope::Deferred(DeferReason::NotImplemented), flags_umask: None, note: "RCL grp2 decodes but is not carried out (only SHL/SHR/SAR/ROL are) -> PANIC" });
    v.push(FormPolicy { file: "D0.3", opcode_bytes: &[0xD0, 0xD8, 0x00, 0x00, 0x00, 0x00, 0x00, 0x00], cap: Capability::DecodeOnly, scope: Scope::Deferred(DeferReason::NotImplemented), flags_umask: None, note: "RCR grp2 decodes but is not carried out (only SHL/SHR/SAR/ROL are) -> PANIC" });
    v.push(FormPolicy { file: "D0.4", opcode_bytes: &[0xD0, 0xE0, 0x00, 0x00, 0x00, 0x00, 0x00, 0x00], cap: Capability::Implemented, scope: Scope::V1, flags_umask: None, note: "SHL grp2" });
    v.push(FormPolicy { file: "D0.5", opcode_bytes: &[0xD0, 0xE8, 0x00, 0x00, 0x00, 0x00, 0x00, 0x00], cap: Capability::Implemented, scope: Scope::V1, flags_umask: None, note: "SHR grp2" });
    v.push(FormPolicy { file: "D0.6", opcode_bytes: &[0xD0, 0xF0, 0x00, 0x00, 0x00, 0x00, 0x00, 0x00], cap: Capability::Implemented, scope: Scope::V1, flags_umask: None, note: "SHL grp2" });
    v.push(FormPolicy { file: "D0.7", opcode_bytes: &[0xD0, 0xF8, 0x00, 0x00, 0x00, 0x00, 0x00, 0x00], cap: Capability::Implemented, scope: Scope::V1, flags_umask: None, note: "SAR grp2" });
    v.push(FormPolicy { file: "D1.0", opcode_bytes: &[0xD1, 0xC0, 0x00, 0x00, 0x00, 0x00, 0x00, 0x00], cap: Capability::Implemented, scope: Scope::V1, flags_umask: None, note: "ROL grp2" });
    v.push(FormPolicy { file: "D1.1", opcode_bytes: &[0xD1, 0xC8, 0x00, 0x00, 0x00, 0x00, 0x00, 0x00], cap: Capability::DecodeOnly, scope: Scope::Deferred(DeferReason::NotImplemented), flags_umask: None, note: "ROR grp2 decodes but is not carried out (only SHL/SHR/SAR/ROL are) -> PANIC" });
    assert(v@ =~= v0 + form_part9());
}

#[verifier::spinoff_prover]
#[verifier::rlimit(40)]
fn push_part10(v: &mut Vec<FormPolicy>)
    ensures
        final(v)@ == old(v)@ + form_part10(),
{
    let ghost v0 = v@;
    proof {
        reveal(form_part10);
    }
    v.push(FormPolicy { file: "D1.2", opcode_bytes: &[0xD1, 0xD0, 0x00, 0x00, 0x00, 0x00, 0x00, 0x00], cap: Capability::DecodeOnly, scope: Scope::Deferred(DeferReason::NotImplemented), flags_umask: None, note: "RCL grp2 decodes but is not carried out (only SHL/SHR/SAR/ROL are) -> PANIC" });
    v.push(FormPolicy { file: "D1.3", opcode_bytes: &[0xD1, 0xD8, 0x00, 0x00, 0x00, 0x00, 0x00, 0x00], cap: Capability::DecodeOnly, scope: Scope::Deferred(DeferReason::NotImplemented), flags_umask: None, note: "RCR grp2 decodes but is not carried out (only SHL/SHR/SAR/ROL are) -> PANIC" });
    v.push(FormPolicy { file: "D1.4", opcode_bytes: &[0xD1, 0xE0, 0x00, 0x00, 0x00, 0x00, 0x00, 0x00], cap: Capability::Implemented, scope: Scope::V1, flags_umask: None, note: "SHL grp2" });
    v.push(FormPolicy { file: "D1.5", opcode_bytes: &[0xD1, 0xE8, 0x00, 0x00, 0x00, 0x00, 0x00, 0x00], cap: Capability::Implemented, scope: Scope::V1, flags_umask: None, note: "SHR grp2" });
    v.push(FormPolicy { file: "D1.6", opcode_bytes: &[0xD1, 0xF0, 0x00, 0x00, 0x00, 0x00, 0x00, 0x00], cap: Capability::Implemented, scope: Scope::V1, flags_umask: None, note: "SHL grp2" });
    v.push(FormPolicy { file: "D1.7", opcode_bytes: &[0xD1, 0xF8, 0x00, 0x00, 0x00, 0x00, 0x00, 0x00], cap: Capability::Implemented, scope: Scope::V1, flags_umask: None, note: "SAR grp2" });
    v.push(FormPolicy { file: "D2.0", opcode_bytes: &[0xD2, 0xC0, 0x00, 0x00, 0x00, 0x00, 0x00, 0x00], cap: Capability::Implemented, scope: Scope::V1, flags_umask: None, note: "ROL grp2" });
    v.push(FormPolicy { file: "D2.1", opcode_bytes: &[0xD2, 0xC8, 0x00, 0x00, 0x00, 0x00, 0x00, 0x00], cap: Capability::DecodeOnly, scope: Scope::Deferred(DeferReason::NotImplemented), flags_umask: None, note: "ROR grp2 decodes but is not carried out (only SHL/SHR/SAR/ROL are) -> PANIC" });
    v.push(FormPolicy { file: "D2.2", opcode_bytes: &[0xD2, 0xD0, 0x00, 0x00, 0x00, 0x00, 0x00, 0x00], cap: Capability::DecodeOnly, scope: Scope::Deferred(DeferReason::NotImplemented), flags_umask: None, note: "RCL grp2 decodes but is not carried out (only SHL/SHR/SAR/ROL are) -> PANIC" });
    v.push(FormPolicy { file: "D2.3", opcode_bytes: &[0xD2, 0xD8, 0x00, 0x00, 0x00, 0x00, 0x00, 0x00], cap: Capability::DecodeOnly, scope: Scope::Deferred(DeferReason::NotImplemented), flags_umask: None, note: "RCR grp2 decodes but is not carried out (only SHL/SHR/SAR/ROL are) -> PANIC" });
    v.push(FormPolicy { file: "D2.4", opcode_bytes: &[0xD2, 0xE0, 0x00, 0x00, 0x00, 0x00, 0x00, 0x00], cap: Capability::Implemented, scope: Scope::V1, flags_umask: Some(0x07C7), note: "SHL grp2" });
    v.push(FormPolicy { file: "D2.5", opcode_bytes: &[0xD2, 0xE8, 0x00, 0x00, 0x00, 0x00, 0x00, 0x00], cap: Capability::Implemented, scope: Scope::V1, flags_umask: None, note: "SHR grp2" });
    v.push(FormPolicy { file: "D2.6", opcode_bytes: &[0xD2, 0xF0, 0x00, 0x00, 0x00, 0x00, 0x00, 0x00], cap: Capability::Implemented, scope: Scope::V1, flags_umask: None, note: "SHL grp2" });
    v.push(FormPolicy { file: "D2.7", opcode_bytes: &[0xD2, 0xF8, 0x00, 0x00, 0x00, 0x00, 0x00, 0x00], cap: Capability::Implemented, scope: Scope::V1, flags_umask: None, note: "SAR grp2" });
    v.push(FormPolicy { file: "D3.0", opcode_bytes: &[0xD3, 0xC0, 0x00, 0x00, 0x00, 0x00, 0x00, 0x00], cap: Capability::Implemented, scope: Scope::V1, flags_umask: None, note: "ROL grp2" });
    v.push(FormPolicy { file: "D3.1", opcode_bytes: &[0xD3, 0xC8, 0x00, 0x00, 0x00, 0x00, 0x00, 0x00], cap: Capability::DecodeOnly, scope: Scope::Deferred(DeferReason::NotImplemented), flags_umask: None, note: "ROR grp2 decodes but is not carried out (only SHL/SHR/SAR/ROL are) -> PANIC" });
    v.push(FormPolicy { file: "D3.2", opcode_bytes: &[0xD3, 0xD0, 0x00, 0x00, 0x00, 0x00, 0x00, 0x00], cap: Capability::DecodeOnly, scope: Scope::Deferred(DeferReason::NotImplemented), flags_umask: None, note: "RCL grp2 decodes but is not carried out (only SHL/SHR/SAR/ROL are) -> PANIC" });
    v.push(FormPolicy { file: "D3.3", opcode_bytes: &[0xD3, 0xD8, 0x00, 0x00, 0x00, 0x00, 0x00, 0x00], cap: Capability::DecodeOnly, scope: Scope::Deferred(DeferReason::NotImplemented), flags_umask: None, note: "RCR grp2 decodes but is not carried out (only SHL/SHR/SAR/ROL are) -> PANIC" });
    v.push(FormPolicy { file: "D3.4", opcode_bytes: &[0xD3, 0xE0, 0x00, 0x00, 0x00, 0x00, 0x00, 0x00], cap: Capability::Implemented, scope: Scope::V1, flags_umask: None, note: "SHL grp2" });
    v.push(FormPolicy { file: "D3.5", opcode_bytes: &[0xD3, 0xE8, 0x00, 0x00, 0x00, 0x00, 0x00, 0x00], cap: Capability::Implemented, scope: Scope::V1, flags_umask: None, note: "SHR grp2" });
    v.push(FormPolicy { file: "D3.6", opcode_bytes: &[0xD3, 0xF0, 0x00, 0x00, 0x00, 0x00, 0x00, 0x00], cap: Capability::Implemented, scope: Scope::V1, flags_umask: None, note: "SHL grp2" });
    v.push(FormPolicy { file: "D3.7", opcode_bytes: &[0xD3, 0xF8, 0x00, 0x00, 0x00, 0x00, 0x00, 0x00], cap: Capability::Implemented, scope: Scope::V1, flags_umask: None, note: "SAR grp2" });
    v.push(FormPolicy { file: "D4", opcode_bytes: &[0xD4, 0x00, 0x00, 0x00, 0x00, 0x00, 0x00, 0x00], cap: Capability::Undecodable, scope: Scope::Deferred(DeferReason::NotImplemented), flags_umask: Some(0x00C4), note: "AAM/AAD do not decode -> DECODE_ERR; umask 0x00C4 recorded (SF/ZF/PF defined per Intel)" });
    v.push(FormPolicy { file: "D5", opcode_bytes: &[0xD5, 0x00, 0x00, 0x00, 0x00, 0x00, 0x00, 0x00], cap: Capability::Undecodable, scope: Scope::Deferred(DeferReason::NotImplemented), flags_umask: Some(0x00C4), note: "AAM/AAD do not decode -> DECODE_ERR; umask 0x00C4 recorded (SF/ZF/PF defined per Intel)" });
    v.push(FormPolicy { file: "D6", opcode_bytes: &[0xD6, 0x00, 0x00, 0x00, 0x00, 0x00, 0x00, 0x00], cap: Capability::Undecodable, scope: Scope::Deferred(DeferReason::NotImplemented), flags_umask: None, note: "undocumented D6 does not decode -> DECODE_ERR" });
    assert(v@ =~= v0 + form_part10());
}

#[verifier::spinoff_prover]
#[verifier::rlimit(40)]
fn push_part11(v: &mut Vec<FormPolicy>)
    ensures
        final(v)@ == old(v)@ + form_part11(),
{
    let ghost v0 = v@;
    proof {
        reveal(form_part11);
    }
    v.push(FormPolicy { file: "D7", opcode_bytes: &[0xD7, 0x00, 0x00, 0x00, 0x00, 0x00, 0x00, 0x00], cap: Capability::Implemented, scope: Scope::V1, flags_umask: None, note: "XLAT" });
    v.push(FormPolicy { file: "D8", opcode_bytes: &[0xD8, 0x00, 0x00, 0x00, 0x00, 0x00, 0x00, 0x00], cap: Capability::Undecodable, scope: Scope::Deferred(DeferReason::NotImplemented), flags_umask: None, note: "ESC/co-processor D8 does not decode -> DECODE_ERR" });
    v.push(FormPolicy { file: "E0", opcode_bytes: &[0xE0, 0x00, 0x00, 0x00, 0x00, 0x00, 0x00, 0x00], cap: Capability::Implemented, scope: Scope::V1, flags_umask: None, note: "LOOPNE" });
    v.push(FormPolicy { file: "E1", opcode_bytes: &[0xE1, 0x00, 0x00, 0x00, 0x00, 0x00, 0x00, 0x00], cap: Capability::Implemented, scope: Scope::V1, flags_umask: None, note: "LOOPE" });
    v.push(FormPolicy { file: "E2", opcode_bytes: &[0xE2, 0x00, 0x00, 0x00, 0x00, 0x00, 0x00, 0x00], cap: Capability::Implemented, scope: Scope::V1, flags_umask: None, note: "LOOP" });
    v.push(FormPolicy { file: "E3", opcode_bytes: &[0xE3, 0x00, 0x00, 0x00, 0x00, 0x00, 0x00, 0x00], cap: Capability::Implemented, scope: Scope::V1, flags_umask: None, note: "JCXZ" });
    v.push(FormPolicy { file: "E4", opcode_bytes: &[0xE4, 0x00, 0x00, 0x00, 0x00, 0x00, 0x00, 0x00], cap: Capability::Implemented, scope: Scope::Deferred(DeferReason::Io), flags_umask: None, note: "IN/OUT deferred: port I/O is not carried out" });
    v.push(FormPolicy { file: "E5", opcode_bytes: &[0xE5, 0x00, 0x00, 0x00, 0x00, 0x00, 0x00, 0x00], cap: Capability::Implemented, scope: Scope::Deferred(DeferReason::Io), flags_umask: None, note: "IN/OUT deferred: port I/O is not carried out" });
    v.push(FormPolicy { file: "E6", opcode_bytes: &[0xE6, 0x00, 0x00, 0x00, 0x00, 0x00, 0x00, 0x00], cap: Capability::Implemented, scope: Scope::Deferred(DeferReason::Io), flags_umask: None, note: "IN/OUT deferred: port I/O is not carried out" });
    v.push(FormPolicy { file: "E7", opcode_bytes: &[0xE7, 0x00, 0x00, 0x00, 0x00, 0x00, 0x00, 0x00], cap: Capability::Implemented, scope: Scope::Deferred(DeferReason::Io), flags_umask: None, note: "IN/OUT deferred: port I/O is not carried out" });
    v.push(FormPolicy { file: "E8", opcode_bytes: &[0xE8, 0x00, 0x00, 0x00, 0x00, 0x00, 0x00, 0x00], cap: Capability::Implemented, scope: Scope::V1, flags_umask: None, note: "CALL rel16" });
    v.push(FormPolicy { file: "E9", opcode_bytes: &[0xE9, 0x00, 0x00, 0x00, 0x00, 0x00, 0x00, 0x00], cap: Capability::Implemented, scope: Scope::V1, flags_umask: None, note: "JMP rel16" });
    v.push(FormPolicy { file: "EA", opcode_bytes: &[0xEA, 0x00, 0x00, 0x00, 0x00, 0x00, 0x00, 0x00], cap: Capability::Implemented, scope: Scope::V1, flags_umask: None, note: "JMPF far" });
    v.push(FormPolicy { file: "EB", opcode_bytes: &[0xEB, 0x00, 0x00, 0x00, 0x00, 0x00, 0x00, 0x00], cap: Capability::Implemented, scope: Scope::V1, flags_umask: None, note: "JMP rel8" });
    v.push(FormPolicy { file: "EC", opcode_bytes: &[0xEC, 0x00, 0x00, 0x00, 0x00, 0x00, 0x00, 0x00], cap: Capability::Implemented, scope: Scope::Deferred(DeferReason::Io), flags_umask: None, note: "IN/OUT deferred: port I/O is not carried out" });
    v.push(FormPolicy { file: "ED", opcode_bytes: &[0xED, 0x00, 0x00, 0x00, 0x00, 0x00, 0x00, 0x00], cap: Capability::Implemented, scope: Scope::Deferred(DeferReason::Io), flags_umask: None, note: "IN/OUT deferred: port I/O is not carried out" });
    v.push(FormPolicy { file: "EE", opcode_bytes: &[0xEE, 0x00, 0x00, 0x00, 0x00, 0x00, 0x00, 0x00], cap: Capability::Implemented, scope: Scope::Deferred(DeferReason::Io), flags_umask: None, note: "IN/OUT deferred: port I/O is not carried out" });
    v.push(FormPolicy { file: "EF", opcode_bytes: &[0xEF, 0x00, 0x00, 0x00, 0x00, 0x00, 0x00, 0x00], cap: Capability::Implemented, scope: Scope::Deferred(DeferReason::Io), flags_umask: None, note: "IN/OUT deferred: port I/O is not carried out" });
    v.push(FormPolicy { file: "F4", opcode_bytes: &[0xF4, 0x00, 0x00, 0x00, 0x00, 0x00, 0x00, 0x00], cap: Capability::DecodeOnly, scope: Scope::Deferred(DeferReason::IntHlt), flags_umask: None, note: "HLT ends the run; tests terminate with F4, so it is never stepped as a form of its own" });
    v.push(FormPolicy { file: "F5", opcode_bytes: &[0xF5, 0x00, 0x00, 0x00, 0x00, 0x00, 0x00, 0x00], cap: Capability::DecodeOnly, scope: Scope::Deferred(DeferReason::NotImplemented), flags_umask: None, note: "CMC decodes but is not carried out -> PANIC" });
    v.push(FormPolicy { file: "F6.0", opcode_bytes: &[0xF6, 0xC0, 0x00, 0x00, 0x00, 0x00, 0x00, 0x00], cap: Capability::Implemented, scope: Scope::V1, flags_umask: None, note: "TEST grp3" });
    v.push(FormPolicy { file: "F6.1", opcode_bytes: &[0xF6, 0xC8, 0x00, 0x00, 0x00, 0x00, 0x00, 0x00], cap: Capability::Implemented, scope: Scope::V1, flags_umask: None, note: "TEST grp3" });
    v.push(FormPolicy { file: "F6.2", opcode_bytes: &[0xF6, 0xD0, 0x00, 0x00, 0x00, 0x00, 0x00, 0x00], cap: Capability::Implemented, scope: Scope::V1, flags_umask: None, note: "NOT grp3" });
    v.push(FormPolicy { file: "F6.3", opcode_bytes: &[0xF6, 0xD8, 0x00, 0x00, 0x00, 0x00, 0x00, 0x00], cap: Capability::Implemented, scope: Scope::V1, flags_umask: None, note: "NEG grp3" });
    v.push(FormPolicy { file: "F6.4", opcode_bytes: &[0xF6, 0xE0, 0x00, 0x00, 0x00, 0x00, 0x00, 0x00], cap: Capability::DecodeOnly, scope: Scope::Deferred(DeferReason::NotImplemented), flags_umask: Some(0x0801), note: "8-bit MUL/IMUL decodes but only the word forms are carried out -> PANIC; umask 0x0801 recorded (CF/OF defined per Intel)" });
    assert(v@ =~= v0 + form_part11());
}

#[verifier::spinoff_prover]
#[verifier::rlimit(40)]
fn push_part12(v: &mut Vec<FormPolicy>)
    ensures
        final(v)@ == old(v)@ + form_part12(),
{
    let ghost v0 = v@;
    proof {
        reveal(form_part12);
    }
    v.push(FormPolicy { file: "F6.5", opcode_bytes: &[0xF6, 0xE8, 0x00, 0x00, 0x00, 0x00, 0x00, 0x00], cap: Capability::DecodeOnly, scope: Scope::Deferred(DeferReason::NotImplemented), flags_umask: Some(0x0801), note: "8-bit MUL/IMUL decodes but only the word forms are carried out -> PANIC; umask 0x0801 recorded (CF/OF defined per Intel)" });
    v.push(FormPolicy { file: "F6.6", opcode_bytes: &[0xF6, 0xF0, 0x00, 0x00, 0x00, 0x00, 0x00, 0x00], cap: Capability::DecodeOnly, scope: Scope::Deferred(DeferReason::NotImplemented), flags_umask: Some(0x0000), note: "8-bit DIV/IDIV decodes but only the word forms are carried out -> PANIC; umask 0x0000 recorded (flags undefined per Intel)" });
    v.push(FormPolicy { file: "F6.7", opcode_bytes: &[0xF6, 0xF8, 0x00, 0x00, 0x00, 0x00, 0x00, 0x00], cap: Capability::DecodeOnly, scope: Scope::Deferred(DeferReason::NotImplemented), flags_umask: Some(0x0000), note: "8-bit DIV/IDIV decodes but only the word forms are carried out -> PANIC; umask 0x0000 recorded (flags undefined per Intel)" });
    v.push(FormPolicy { file: "F7.0", opcode_bytes: &[0xF7, 0xC0, 0x00, 0x00, 0x00, 0x00, 0x00, 0x00], cap: Capability::Implemented, scope: Scope::V1, flags_umask: None, note: "TEST grp3" });
    v.push(FormPolicy { file: "F7.1", opcode_bytes: &[0xF7, 0xC8, 0x00, 0x00, 0x00, 0x00, 0x00, 0x00], cap: Capability::Implemented, scope: Scope::V1, flags_umask: None, note: "TEST grp3" });
    v.push(FormPolicy { file: "F7.2", opcode_bytes: &[0xF7, 0xD0, 0x00, 0x00, 0x00, 0x00, 0x00, 0x00], cap: Capability::Implemented, scope: Scope::V1, flags_umask: None, note: "NOT grp3" });
    v.push(FormPolicy { file: "F7.3", opcode_bytes: &[0xF7, 0xD8, 0x00, 0x00, 0x00, 0x00, 0x00, 0x00], cap: Capability::Implemented, scope: Scope::V1, flags_umask: None, note: "NEG grp3" });
    v.push(FormPolicy { file: "F7.4", opcode_bytes: &[0xF7, 0xE0, 0x00, 0x00, 0x00, 0x00, 0x00, 0x00], cap: Capability::Implemented, scope: Scope::V1, flags_umask: Some(0x0801), note: "MUL grp3; CF/OF defined, rest UNDEFINED (Intel 80286) -> umask 0x0801" });
    v.push(FormPolicy { file: "F7.5", opcode_bytes: &[0xF7, 0xE8, 0x00, 0x00, 0x00, 0x00, 0x00, 0x00], cap: Capability::Implemented, scope: Scope::V1, flags_umask: Some(0x0801), note: "IMUL grp3; CF/OF defined, rest UNDEFINED (Intel 80286) -> umask 0x0801" });
    v.push(FormPolicy { file: "F7.6", opcode_bytes: &[0xF7, 0xF0, 0x00, 0x00, 0x00, 0x00, 0x00, 0x00], cap: Capability::Implemented, scope: Scope::V1, flags_umask: Some(0x0000), note: "DIV grp3; all status flags UNDEFINED (Intel 80286) -> umask 0x0000" });
    v.push(FormPolicy { file: "F7.7", opcode_bytes: &[0xF7, 0xF8, 0x00, 0x00, 0x00, 0x00, 0x00, 0x00], cap: Capability::Implemented, scope: Scope::V1, flags_umask: Some(0x0000), note: "IDIV grp3; all status flags UNDEFINED (Intel 80286) -> umask 0x0000" });
    v.push(FormPolicy { file: "F8", opcode_bytes: &[0xF8, 0x00, 0x00, 0x00, 0x00, 0x00, 0x00, 0x00], cap: Capability::Implemented, scope: Scope::V1, flags_umask: None, note: "CLC" });
    v.push(FormPolicy { file: "F9", opcode_bytes: &[0xF9, 0x00, 0x00, 0x00, 0x00, 0x00, 0x00, 0x00], cap: Capability::Implemented, scope: Scope::V1, flags_umask: None, note: "STC" });
    v.push(FormPolicy { file: "FA", opcode_bytes: &[0xFA, 0x00, 0x00, 0x00, 0x00, 0x00, 0x00, 0x00], cap: Capability::Implemented, scope: Scope::V1, flags_umask: None, note: "CLI" });
    v.push(FormPolicy { file: "FB", opcode_bytes: &[0xFB, 0x00, 0x00, 0x00, 0x00, 0x00, 0x00, 0x00], cap: Capability::Implemented, scope: Scope::V1, flags_umask: None, note: "STI" });
    v.push(FormPolicy { file: "FC", opcode_bytes: &[0xFC, 0x00, 0x00, 0x00, 0x00, 0x00, 0x00, 0x00], cap: Capability::Implemented, scope: Scope::V1, flags_umask: None, note: "CLD" });
    v.push(FormPolicy { file: "FD", opcode_bytes: &[0xFD, 0x00, 0x00, 0x00, 0x00, 0x00, 0x00, 0x00], cap: Capability::Implemented, scope: Scope::V1, flags_umask: None, note: "STD" });
    v.push(FormPolicy { file: "FE.0", opcode_bytes: &[0xFE, 0xC0, 0x00, 0x00, 0x00, 0x00, 0x00, 0x00], cap: Capability::Implemented, scope: Scope::V1, flags_umask: None, note: "INC rm8" });
    v.push(FormPolicy { file: "FE.1", opcode_bytes: &[0xFE, 0xC8, 0x00, 0x00, 0x00, 0x00, 0x00, 0x00], cap: Capability::Implemented, scope: Scope::V1, flags_umask: None, note: "DEC rm8" });
    v.push(FormPolicy { file: "FF.0", opcode_bytes: &[0xFF, 0xC0, 0x00, 0x00, 0x00, 0x00, 0x00, 0x00], cap: Capability::Implemented, scope: Scope::V1, flags_umask: None, note: "INC grp5" });
    v.push(FormPolicy { file: "FF.1", opcode_bytes: &[0xFF, 0xC8, 0x00, 0x00, 0x00, 0x00, 0x00, 0x00], cap: Capability::Implemented, scope: Scope::V1, flags_umask: None, note: "DEC grp5" });
    v.push(FormPolicy { file: "FF.2", opcode_bytes: &[0xFF, 0xD0, 0x00, 0x00, 0x00, 0x00, 0x00, 0x00], cap: Capability::Implemented, scope: Scope::V1, flags_umask: None, note: "CALL grp5" });
    v.push(FormPolicy { file: "FF.3", opcode_bytes: &[0xFF, 0x1E, 0x00, 0x00, 0x00, 0x00, 0x00, 0x00], cap: Capability::Implemented, scope: Scope::V1, flags_umask: None, note: "CALLF grp5" });
    v.push(FormPolicy { file: "FF.4", opcode_bytes: &[0xFF, 0xE0, 0x00, 0x00, 0x00, 0x00, 0x00, 0x00], cap: Capability::Implemented, scope: Scope::V1, flags_umask: None, note: "JMP grp5" });
    v.push(FormPolicy { file: "FF.5", opcode_bytes: &[0xFF, 0x2E, 0x00, 0x00, 0x00, 0x00, 0x00, 0x00], cap: Capability::Implemented, scope: Scope::V1, flags_umask: None, note: "JMPF grp5" });
    assert(v@ =~= v0 + form_part12());
}

#[verifier::spinoff_prover]
#[verifier::rlimit(40)]
fn push_part13(v: &mut Vec<FormPolicy>)
    ensures
        final(v)@ == old(v)@ + form_part13(),
{
    let ghost v0 = v@;
    proof {
        reveal(form_part13);
    }
    v.push(FormPolicy { file: "FF.6", opcode_bytes: &[0xFF, 0xF0, 0x00, 0x00, 0x00, 0x00, 0x00, 0x00], cap: Capability::Implemented, scope: Scope::V1, flags_umask: None, note: "PUSH grp5" });
    v.push(FormPolicy { file: "metadata.json", opcode_bytes: &[], cap: Capability::Undecodable, scope: Scope::Deferred(DeferReason::NotImplemented), flags_umask: None, note: "not a MOO test form; upstream metadata.json blob (counted to match the 327-entry upstream listing)" });
    assert(v@ =~= v0 + form_part13());
}

/// The policy table as a vector.
pub fn form_policies() -> (r: Vec<FormPolicy>)
    ensures
        r@ == form_table(),
{
    proof {
        reveal(form_table);
    }
    let mut v: Vec<FormPolicy> = Vec::new();
    push_part0(&mut v);
    push_part1(&mut v);
    push_part2(&mut v);
    push_part3(&mut v);
    push_part4(&mut v);
    push_part5(&mut v);
    push_part6(&mut v);
    push_part7(&mut v);
    push_part8(&mut v);
    push_part9(&mut v);
    push_part10(&mut v);
    push_part11(&mut v);
    push_part12(&mut v);
    push_part13(&mut v);
    assert(v@ =~= form_table());
    v
}

/// The bytes of `.MOO`.
pub open spec fn moo_suffix() -> Seq<u8> {
    seq![0x2eu8, 0x4du8, 0x4fu8, 0x4fu8]
}

/// A stem with a trailing `.MOO` removed.
pub open spec fn strip_moo(s: Seq<u8>) -> Seq<u8> {
    if s.len() >= 4 && s.subrange(s.len() - 4, s.len() as int) == moo_suffix() {
        s.subrange(0, s.len() - 4)
    } else {
        s
    }
}

/// The first of the first `n` policies whose file is `key`.
pub open spec fn find_policy(t: Seq<FormPolicy>, key: Seq<u8>, n: nat) -> Option<FormPolicy>
    decreases n,
{
    if n == 0 {
        None
    } else {
        match find_policy(t, key, (n - 1) as nat) {
            Some(p) => Some(p),
            None => if t[n - 1].file.spec_bytes() == key {
                Some(t[n - 1])
            } else {
                None
            },
        }
    }
}

/// Whether two byte strings are equal.
fn bytes_eq(a: &[u8], b: &[u8]) -> (r: bool)
    ensures
        r == (a@ == b@),
{
    if a.len() != b.len() {
        return false;
    }
    let mut i: usize = 0;
    while i < a.len()
        invariant
            i <= a@.len(),
            a@.len() == b@.len(),
            forall|k: int| 0 <= k < i ==> a@[k] == b@[k],
        decreases a.len() - i,
    {
        if a[i] != b[i] {
            return false;
        }
        i = i + 1;
    }
    assert(a@ =~= b@);
    true
}

/// Looks up the policy of a file stem, given with or without `.MOO`.
pub fn policy_for_file(stem: &str) -> (r: Option<FormPolicy>)
    ensures
        r == find_policy(form_table(), strip_moo(stem.spec_bytes()), form_table().len()),
{
    let bytes = stem.as_bytes();
    let n = bytes.len();
    let key: &[u8] = if n >= 4 && bytes[n - 4] == 0x2e && bytes[n - 3] == 0x4d && bytes[n - 2] == 0x4f
        && bytes[n - 1] == 0x4f {
        assert(bytes@.subrange(n - 4, n as int) =~= moo_suffix());
        slice_prefix(bytes, n - 4)
    } else {
        proof {
            if n >= 4 && bytes@.subrange(n - 4, n as int) == moo_suffix() {
                assert(bytes@.subrange(n - 4, n as int)[0] == bytes@[n - 4]);
                assert(bytes@.subrange(n - 4, n as int)[1] == bytes@[n - 3]);
                assert(bytes@.subrange(n - 4, n as int)[2] == bytes@[n - 2]);
                assert(bytes@.subrange(n - 4, n as int)[3] == bytes@[n - 1]);
            }
        }
        bytes
    };
    let table = form_policies();
    let mut i: usize = 0;
    while i < table.len()
        invariant
            i <= table@.len(),
            table@ == form_table(),
            key@ == strip_moo(stem.spec_bytes()),
            find_policy(form_table(), key@, i as nat) is None,
        decreases table.len() - i,
    {
        if bytes_eq(table[i].file.as_bytes(), key) {
            proof {
                lemma_find_stable(form_table(), key@, (i + 1) as nat, form_table().len());
            }
            return Some(table[i]);
        }
        i = i + 1;
    }
    None
}

/// The first `n` bytes of a slice.
fn slice_prefix(s: &[u8], n: usize) -> (r: &[u8])
    requires
        n <= s@.len(),
    ensures
        r@ == s@.subrange(0, n as int),
{
    let (a, _) = s.split_at(n);
    a
}

proof fn lemma_find_stable(t: Seq<FormPolicy>, key: Seq<u8>, m: nat, n: nat)
    requires
        m <= n,
        find_policy(t, key, m) is Some,
    ensures
        find_policy(t, key, n) == find_policy(t, key, m),
    decreases n,
{
    if n > m {
        lemma_find_stable(t, key, m, (n - 1) as nat);
    }
}

/// The files of the first `n` policies that are in the first scope and
/// implemented, in order.
pub open spec fn v1_files(t: Seq<FormPolicy>, n: nat) -> Seq<&'static str>
    decreases n,
{
    if n == 0 {
        Seq::empty()
    } else {
        let rest = v1_files(t, (n - 1) as nat);
        if t[n - 1].scope == Scope::V1 && t[n - 1].cap == Capability::Implemented {
            rest.push(t[n - 1].file)
        } else {
            rest
        }
    }
}

/// The conservative first fetch list: the forms that are both in the first
/// scope and implemented.
pub fn v1_form_files() -> (r: Vec<&'static str>)
    ensures
        r@ == v1_files(form_table(), form_table().len()),
{
    let table = form_policies();
    let mut r: Vec<&'static str> = Vec::new();
    let mut i: usize = 0;
    while i < table.len()
        invariant
            i <= table@.len(),
            table@ == form_table(),
            r@ == v1_files(form_table(), i as nat),
        decreases table.len() - i,
    {
        let p = table[i];
        if p.scope == Scope::V1 && p.cap == Capability::Implemented {
            r.push(p.file);
        }
        i = i + 1;
    }
    r
}

/// Whether the form's probe bytes decode to an instruction.
pub fn decode_check(file: &FormPolicy) -> (r: bool)
    ensures
        r == decodable(file.opcode_bytes@),
{
    decode_one(file.opcode_bytes).is_some()
}

// ---------------------------------------------------------------------------
// The audit of the table
// ---------------------------------------------------------------------------

/// `s` padded with spaces on the right to at least `w` characters.
pub open spec fn pad_right(s: Seq<char>, w: nat) -> Seq<char> {
    if s.len() < w {
        s + Seq::new((w - s.len()) as nat, |i: int| ' ')
    } else {
        s
    }
}

/// Appends `t` padded with spaces on the right to at least `w` characters.
fn push_padded(s: &mut String, t: &str, w: usize)
    ensures
        final(s)@ == old(s)@ + pad_right(t@, w as nat),
{
    let ghost s0 = s@;
    push_str(s, t);
    let n = t.unicode_len();
    let ghost base = s0 + t@;
    let mut k: usize = n;
    while k < w
        invariant
            n == t@.len(),
            base == s0 + t@,
            n <= k,
            k <= w || k == n,
            s@ == base + Seq::new((k - n) as nat, |i: int| ' '),
        decreases w - k,
    {
        push_str(s, " ");
        proof {
            reveal_strlit(" ");
        }
        k = k + 1;
        assert(s@ =~= base + Seq::new((k - n) as nat, |i: int| ' '));
    }
    if n < w {
        assert(k == w);
        assert(s@ =~= s0 + pad_right(t@, w as nat));
    } else {
        assert(k == n);
        assert(s@ =~= s0 + pad_right(t@, w as nat));
    }
}

/// The mask column of the audit: the form's mask, or `default`.
pub open spec fn umask_text(m: Option<u16>) -> Seq<char> {
    match m {
        Some(v) => "0x"@ + hex_pad(v as nat, 4, true),
        None => "default"@,
    }
}

/// The probe disagrees with the capability: the bytes decode exactly when
/// the form is not undecodable.
pub open spec fn probe_mismatch(p: FormPolicy) -> bool {
    decodable(p.opcode_bytes@) != (p.cap != Capability::Undecodable)
}

/// The line of a form in the audit: file, capability, scope and mask in
/// columns of 13, 12, 20 and 8 characters, then the note, and with the
/// probe a mark when the probe disagrees with the capability.
pub open spec fn audit_line(p: FormPolicy, probe: bool) -> Seq<char> {
    pad_right(p.file@, 13) + " "@ + pad_right(capability_name(p.cap)@, 12) + " "@ + pad_right(
        scope_name(p.scope)@,
        20,
    ) + " "@ + pad_right(umask_text(p.flags_umask), 8) + " "@ + p.note@ + if probe && probe_mismatch(p) {
        "  !! PROBE-MISMATCH"@
    } else {
        Seq::empty()
    }
}

/// The header line of the audit table.
pub fn audit_header() -> (r: String)
    ensures
        r@ == pad_right("file"@, 13) + " "@ + pad_right("cap"@, 12) + " "@ + pad_right("scope"@, 20) + " "@
            + pad_right("umask"@, 8) + " "@ + "note"@,
{
    let mut s = String::new();
    push_padded(&mut s, "file", 13);
    push_str(&mut s, " ");
    push_padded(&mut s, "cap", 12);
    push_str(&mut s, " ");
    push_padded(&mut s, "scope", 20);
    push_str(&mut s, " ");
    push_padded(&mut s, "umask", 8);
    push_str(&mut s, " ");
    push_str(&mut s, "note");
    s
}

/// The line of a form in the audit table.
pub fn audit_row(p: &FormPolicy, probe: bool) -> (r: String)
    ensures
        r@ == audit_line(*p, probe),
{
    let mut s = String::new();
    push_padded(&mut s, p.file, 13);
    push_str(&mut s, " ");
    push_padded(&mut s, p.cap.name(), 12);
    push_str(&mut s, " ");
    push_padded(&mut s, p.scope.name(), 20);
    push_str(&mut s, " ");
    let mut umask = String::new();
    match p.flags_umask {
        Some(m) => {
            push_str(&mut umask, "0x");
            push_hex(&mut umask, m as u32, 4, true);
        },
        None => {
            push_str(&mut umask, "default");
        },
    }
    push_padded(&mut s, umask.as_str(), 8);
    push_str(&mut s, " ");
    push_str(&mut s, p.note);
    if probe {
        let ok = decode_check(p);
        let expected = match p.cap {
            Capability::Undecodable => false,
            _ => true,
        };
        if ok != expected {
            push_str(&mut s, "  !! PROBE-MISMATCH");
        } else {
            assert(s@ =~= s@ + Seq::<char>::empty());
        }
    } else {
        assert(s@ =~= s@ + Seq::<char>::empty());
    }
    s
}

/// How many of the first `n` policies have capability `c`.
pub open spec fn count_cap(t: Seq<FormPolicy>, c: Capability, n: nat) -> nat
    decreases n,
{
    if n == 0 {
        0
    } else {
        count_cap(t, c, (n - 1) as nat) + if t[n - 1].cap == c {
            1nat
        } else {
            0nat
        }
    }
}

/// How many of the first `n` policies are in the first scope.
pub open spec fn count_v1(t: Seq<FormPolicy>, n: nat) -> nat
    decreases n,
{
    if n == 0 {
        0
    } else {
        count_v1(t, (n - 1) as nat) + if t[n - 1].scope == Scope::V1 {
            1nat
        } else {
            0nat
        }
    }
}

/// The totals of the audit.
#[derive(Clone, Copy, Debug, PartialEq, Eq, Structural)]
pub struct AuditTotals {
    pub implemented: usize,
    pub decode_only: usize,
    pub undecodable: usize,
    pub v1: usize,
    pub deferred: usize,
    pub entries: usize,
}

/// Counts the policies by capability and by scope.
pub fn audit_totals(policies: &[FormPolicy]) -> (r: AuditTotals)
    ensures
        r.implemented == count_cap(policies@, Capability::Implemented, policies@.len()),
        r.decode_only == count_cap(policies@, Capability::DecodeOnly, policies@.len()),
        r.undecodable == count_cap(policies@, Capability::Undecodable, policies@.len()),
        r.v1 == count_v1(policies@, policies@.len()),
        r.deferred == policies@.len() - count_v1(policies@, policies@.len()),
        r.entries == policies@.len(),
{
    let mut t = AuditTotals { implemented: 0, decode_only: 0, undecodable: 0, v1: 0, deferred: 0, entries: policies.len() };
    let mut i: usize = 0;
    while i < policies.len()
        invariant
            i <= policies@.len(),
            t.entries == policies@.len(),
            t.implemented == count_cap(policies@, Capability::Implemented, i as nat),
            t.decode_only == count_cap(policies@, Capability::DecodeOnly, i as nat),
            t.undecodable == count_cap(policies@, Capability::Undecodable, i as nat),
            t.v1 == count_v1(policies@, i as nat),
            t.deferred == i - count_v1(policies@, i as nat),
            t.implemented <= i && t.decode_only <= i && t.undecodable <= i && t.v1 <= i,
            count_v1(policies@, i as nat) <= i,
        decreases policies@.len() - i,
    {
        let p = policies[i];
        match p.cap {
            Capability::Implemented => {
                t.implemented = t.implemented + 1;
            },
            Capability::DecodeOnly => {
                t.decode_only = t.decode_only + 1;
            },
            Capability::Undecodable => {
                t.undecodable = t.undecodable + 1;
            },
        }
        if p.scope == Scope::V1 {
            t.v1 = t.v1 + 1;
        } else {
            t.deferred = t.deferred + 1;
        }
        i = i + 1;
    }
    t
}

/// A form in the first scope is implemented.
pub open spec fn v1_implemented(p: FormPolicy) -> bool {
    p.scope == Scope::V1 ==> p.cap == Capability::Implemented
}

proof fn lemma_concat_all<A>(a: Seq<A>, b: Seq<A>, p: spec_fn(A) -> bool)
    requires
        forall|i: int| 0 <= i < a.len() ==> p(#[trigger] a[i]),
        forall|i: int| 0 <= i < b.len() ==> p(#[trigger] b[i]),
    ensures
        forall|i: int| 0 <= i < (a + b).len() ==> p(#[trigger] (a + b)[i]),
{
    assert forall|i: int| 0 <= i < (a + b).len() implies p(#[trigger] (a + b)[i]) by {
        if i < a.len() {
            assert((a + b)[i] == a[i]);
        } else {
            assert((a + b)[i] == b[i - a.len()]);
        }
    }
}

/// Every form of the table in the first scope is one the emulator
/// implements: the first scope only ever selects executable forms.
pub proof fn lemma_v1_forms_implemented()
    ensures
        forall|i: int| 0 <= i < form_table().len() ==> v1_implemented(#[trigger] form_table()[i]),
{
    assert(forall|i: int| 0 <= i < form_part0().len() ==> v1_implemented(#[trigger] form_part0()[i])) by {
        reveal(form_part0);
    }
    assert(forall|i: int| 0 <= i < form_part1().len() ==> v1_implemented(#[trigger] form_part1()[i])) by {
        reveal(form_part1);
    }
    assert(forall|i: int| 0 <= i < form_part2().len() ==> v1_implemented(#[trigger] form_part2()[i])) by {
        reveal(form_part2);
    }
    assert(forall|i: int| 0 <= i < form_part3().len() ==> v1_implemented(#[trigger] form_part3()[i])) by {
        reveal(form_part3);
    }
    assert(forall|i: int| 0 <= i < form_part4().len() ==> v1_implemented(#[trigger] form_part4()[i])) by {
        reveal(form_part4);
    }
    assert(forall|i: int| 0 <= i < form_part5().len() ==> v1_implemented(#[trigger] form_part5()[i])) by {
        reveal(form_part5);
    }
    assert(forall|i: int| 0 <= i < form_part6().len() ==> v1_implemented(#[trigger] form_part6()[i])) by {
        reveal(form_part6);
    }
    assert(forall|i: int| 0 <= i < form_part7().len() ==> v1_implemented(#[trigger] form_part7()[i])) by {
        reveal(form_part7);
    }
    assert(forall|i: int| 0 <= i < form_part8().len() ==> v1_implemented(#[trigger] form_part8()[i])) by {
        reveal(form_part8);
    }
    assert(forall|i: int| 0 <= i < form_part9().len() ==> v1_implemented(#[trigger] form_part9()[i])) by {
        reveal(form_part9);
    }
    assert(forall|i: int| 0 <= i < form_part10().len() ==> v1_implemented(#[trigger] form_part10()[i])) by {
        reveal(form_part10);
    }
    assert(forall|i: int| 0 <= i < form_part11().len() ==> v1_implemented(#[trigger] form_part11()[i])) by {
        reveal(form_part11);
    }
    assert(forall|i: int| 0 <= i < form_part12().len() ==> v1_implemented(#[trigger] form_part12()[i])) by {
        reveal(form_part12);
    }
    assert(forall|i: int| 0 <= i < form_part13().len() ==> v1_implemented(#[trigger] form_part13()[i])) by {
        reveal(form_part13);
    }
    let p = |f: FormPolicy| v1_implemented(f);
    reveal(form_table);
    let mut acc = form_part0();
    assert(forall|i: int| 0 <= i < acc.len() ==> p(#[trigger] acc[i]));
    assert(forall|i: int| 0 <= i < form_part1().len() ==> p(#[trigger] form_part1()[i]));
    lemma_concat_all(acc, form_part1(), p);
    acc = acc + form_part1();
    assert(forall|i: int| 0 <= i < form_part2().len() ==> p(#[trigger] form_part2()[i]));
    lemma_concat_all(acc, form_part2(), p);
    acc = acc + form_part2();
    assert(forall|i: int| 0 <= i < form_part3().len() ==> p(#[trigger] form_part3()[i]));
    lemma_concat_all(acc, form_part3(), p);
    acc = acc + form_part3();
    assert(forall|i: int| 0 <= i < form_part4().len() ==> p(#[trigger] form_part4()[i]));
    lemma_concat_all(acc, form_part4(), p);
    acc = acc + form_part4();
    assert(forall|i: int| 0 <= i < form_part5().len() ==> p(#[trigger] form_part5()[i]));
    lemma_concat_all(acc, form_part5(), p);
    acc = acc + form_part5();
    assert(forall|i: int| 0 <= i < form_part6().len() ==> p(#[trigger] form_part6()[i]));
    lemma_concat_all(acc, form_part6(), p);
    acc = acc + form_part6();
    assert(forall|i: int| 0 <= i < form_part7().len() ==> p(#[trigger] form_part7()[i]));
    lemma_concat_all(acc, form_part7(), p);
    acc = acc + form_part7();
    assert(forall|i: int| 0 <= i < form_part8().len() ==> p(#[trigger] form_part8()[i]));
    lemma_concat_all(acc, form_part8(), p);
    acc = acc + form_part8();
    assert(forall|i: int| 0 <= i < form_part9().len() ==> p(#[trigger] form_part9()[i]));
    lemma_concat_all(acc, form_part9(), p);
    acc = acc + form_part9();
    assert(forall|i: int| 0 <= i < form_part10().len() ==> p(#[trigger] form_part10()[i]));
    lemma_concat_all(acc, form_part10(), p);
    acc = acc + form_part10();
    assert(forall|i: int| 0 <= i < form_part11().len() ==> p(#[trigger] form_part11()[i]));
    lemma_concat_all(acc, form_part11(), p);
    acc = acc + form_part11();
    assert(forall|i: int| 0 <= i < form_part12().len() ==> p(#[trigger] form_part12()[i]));
    lemma_concat_all(acc, form_part12(), p);
    acc = acc + form_part12();
    assert(forall|i: int| 0 <= i < form_part13().len() ==> p(#[trigger] form_part13()[i]));
    lemma_concat_all(acc, form_part13(), p);
    acc = acc + form_part13();
    assert(acc =~= form_table());
}

} // verus!
