use vstd::prelude::*;
use crate::ir::{IR, IrV, InstrV, BlockV, BlockRef, Instr, Opcode, Ref, Type, Attribute, exits, without_operand, rewritten, lemma_edit_shape, one_ref, two_refs, copy_refs, copy_instr, instr_eq, side_effects};
use crate::pass::{Rewrite, pass, run_pass};
use crate::alu::{signed, modulus, half};

verus! {

// ---------------------------------------------------------------------------
// xor t t  ==>  #0
// ---------------------------------------------------------------------------

/// `t2 = xor t1 t1` becomes `t2 = ref #0`, with a fresh constant zero.
pub struct ReduceXor;

impl Rewrite for ReduceXor {
    open spec fn ok(ir: IrV, b: int, i: int) -> bool {
        ir.at(b, i).opcode == Opcode::Xor ==> ir.at(b, i).operands.len() >= 2
    }

    open spec fn step(ir: IrV, b: int, i: int) -> IrV {
        let x = ir.at(b, i);
        if x.opcode == Opcode::Xor && x.operands[0] == x.operands[1] {
            ir.with_const(0).with_instr(b, i, rewritten(x, Opcode::Ref, seq![ir.next_const()]))
        } else {
            ir
        }
    }

    proof fn lemma_step_shape(ir: IrV, b: int, i: int) {
        lemma_edit_shape(ir, b, i, rewritten(ir.at(b, i), Opcode::Ref, seq![ir.next_const()]), 0);
    }

    fn apply(ir: &mut IR, b: usize, i: usize) {
        let x = ir.instr_at(b, i);
        if x.opcode != Opcode::Xor || x.operands[0] != x.operands[1] {
            return;
        }
        let k = ir.const_new(0);
        ir.rewrite(b, i, Opcode::Ref, one_ref(k));
    }
}

/// Replaces every `xor t t` by the constant zero.
pub fn reduce_xor(ir: &mut IR)
    requires
        pass::<ReduceXor>(old(ir)@) is Some,
    ensures
        pass::<ReduceXor>(old(ir)@) == Some(final(ir)@),
{
    run_pass::<ReduceXor>(ir);
}

// ---------------------------------------------------------------------------
// or t t  ==>  ref t
// ---------------------------------------------------------------------------

/// `t2 = or t1 t1` becomes `t2 = ref t1`.
pub struct ReduceTrivialOr;

impl Rewrite for ReduceTrivialOr {
    open spec fn ok(ir: IrV, b: int, i: int) -> bool {
        ir.at(b, i).opcode == Opcode::Or ==> ir.at(b, i).operands.len() >= 2
    }

    open spec fn step(ir: IrV, b: int, i: int) -> IrV {
        let x = ir.at(b, i);
        if x.opcode == Opcode::Or && x.operands[0] == x.operands[1] {
            ir.with_instr(b, i, rewritten(x, Opcode::Ref, seq![x.operands[0]]))
        } else {
            ir
        }
    }

    proof fn lemma_step_shape(ir: IrV, b: int, i: int) {
        let x = ir.at(b, i);
        lemma_edit_shape(ir, b, i, rewritten(x, Opcode::Ref, seq![x.operands[0]]), 0);
    }

    fn apply(ir: &mut IR, b: usize, i: usize) {
        let x = ir.instr_at(b, i);
        if x.opcode != Opcode::Or || x.operands[0] != x.operands[1] {
            return;
        }
        let a = x.operands[0];
        ir.rewrite(b, i, Opcode::Ref, one_ref(a));
    }
}

/// Replaces every `or t t` by a reference to `t`.
pub fn reduce_trivial_or(ir: &mut IR)
    requires
        pass::<ReduceTrivialOr>(old(ir)@) is Some,
    ensures
        pass::<ReduceTrivialOr>(old(ir)@) == Some(final(ir)@),
{
    run_pass::<ReduceTrivialOr>(ir);
}

// ---------------------------------------------------------------------------
// Constant folding
// ---------------------------------------------------------------------------

/// A constant read as an unsigned word.
pub open spec fn unsigned16(k: i16) -> int {
    if k < 0 {
        k + 0x10000
    } else {
        k as int
    }
}

/// One if `c` holds, zero otherwise.
pub open spec fn bool_value(c: bool) -> i16 {
    if c {
        1
    } else {
        0
    }
}

/// The value of `op` on two constants, where the 16-bit constants capture
/// the operation exactly: word arithmetic and bitwise operations on 16-bit
/// types, comparisons on unsigned byte and word types. Other operations,
/// such as shifts, multiplication or byte and 32-bit arithmetic, are not
/// folded.
pub open spec fn fold_value(op: Opcode, typ: Type, lhs: i16, rhs: i16) -> Option<i16> {
    let word = typ == Type::U16 || typ == Type::I16;
    let boolean = typ == Type::U8 || typ == Type::U16;
    if word && op == Opcode::Add {
        Some(lhs.wrapping_add(rhs))
    } else if word && op == Opcode::Sub {
        Some(lhs.wrapping_sub(rhs))
    } else if word && op == Opcode::And {
        Some(lhs & rhs)
    } else if word && op == Opcode::Or {
        Some(lhs | rhs)
    } else if word && op == Opcode::Xor {
        Some(lhs ^ rhs)
    } else if boolean && op == Opcode::Eq {
        Some(bool_value(lhs == rhs))
    } else if boolean && op == Opcode::Neq {
        Some(bool_value(lhs != rhs))
    } else if boolean && op == Opcode::Lt {
        Some(bool_value(lhs < rhs))
    } else if boolean && op == Opcode::Leq {
        Some(bool_value(lhs <= rhs))
    } else if boolean && op == Opcode::Gt {
        Some(bool_value(lhs > rhs))
    } else if boolean && op == Opcode::Geq {
        Some(bool_value(lhs >= rhs))
    } else if boolean && op == Opcode::ULt {
        Some(bool_value(unsigned16(lhs) < unsigned16(rhs)))
    } else if boolean && op == Opcode::ULeq {
        Some(bool_value(unsigned16(lhs) <= unsigned16(rhs)))
    } else if boolean && op == Opcode::UGt {
        Some(bool_value(unsigned16(lhs) > unsigned16(rhs)))
    } else if boolean && op == Opcode::UGeq {
        Some(bool_value(unsigned16(lhs) >= unsigned16(rhs)))
    } else {
        None
    }
}

proof fn lemma_unsigned16(k: i16)
    ensures
        (k as u16) as int == unsigned16(k),
{
    assert((k as u16) as int == if k < 0 { k + 0x10000 } else { k as int }) by (bit_vector);
}

fn fold_value_exec(op: Opcode, typ: Type, lhs: i16, rhs: i16) -> (r: Option<i16>)
    ensures
        r == fold_value(op, typ, lhs, rhs),
{
    proof {
        lemma_unsigned16(lhs);
        lemma_unsigned16(rhs);
    }
    let word = typ == Type::U16 || typ == Type::I16;
    let boolean = typ == Type::U8 || typ == Type::U16;
    let ul = lhs as u16;
    let ur = rhs as u16;
    match op {
        Opcode::Add if word => Some(lhs.wrapping_add(rhs)),
        Opcode::Sub if word => Some(lhs.wrapping_sub(rhs)),
        Opcode::And if word => Some(lhs & rhs),
        Opcode::Or if word => Some(lhs | rhs),
        Opcode::Xor if word => Some(lhs ^ rhs),
        Opcode::Eq if boolean => Some(if lhs == rhs { 1 } else { 0 }),
        Opcode::Neq if boolean => Some(if lhs != rhs { 1 } else { 0 }),
        Opcode::Lt if boolean => Some(if lhs < rhs { 1 } else { 0 }),
        Opcode::Leq if boolean => Some(if lhs <= rhs { 1 } else { 0 }),
        Opcode::Gt if boolean => Some(if lhs > rhs { 1 } else { 0 }),
        Opcode::Geq if boolean => Some(if lhs >= rhs { 1 } else { 0 }),
        Opcode::ULt if boolean => Some(if ul < ur { 1 } else { 0 }),
        Opcode::ULeq if boolean => Some(if ul <= ur { 1 } else { 0 }),
        Opcode::UGt if boolean => Some(if ul > ur { 1 } else { 0 }),
        Opcode::UGeq if boolean => Some(if ul >= ur { 1 } else { 0 }),
        _ => None,
    }
}

/// An instruction with exactly two constant operands whose operation folds
/// becomes a reference to a fresh constant holding the folded value.
pub struct ConstantFolding;

impl Rewrite for ConstantFolding {
    open spec fn ok(ir: IrV, b: int, i: int) -> bool {
        true
    }

    open spec fn step(ir: IrV, b: int, i: int) -> IrV {
        let x = ir.at(b, i);
        if x.operands.len() == 2 && ir.const_value(x.operands[0]) is Some && ir.const_value(
            x.operands[1],
        ) is Some {
            match fold_value(
                x.opcode,
                x.typ,
                ir.const_value(x.operands[0]).unwrap(),
                ir.const_value(x.operands[1]).unwrap(),
            ) {
                Some(v) => ir.with_const(v).with_instr(
                    b,
                    i,
                    rewritten(x, Opcode::Ref, seq![ir.next_const()]),
                ),
                None => ir,
            }
        } else {
            ir
        }
    }

    proof fn lemma_step_shape(ir: IrV, b: int, i: int) {
        let x = ir.at(b, i);
        if x.operands.len() == 2 && ir.const_value(x.operands[0]) is Some && ir.const_value(
            x.operands[1],
        ) is Some {
            match fold_value(
                x.opcode,
                x.typ,
                ir.const_value(x.operands[0]).unwrap(),
                ir.const_value(x.operands[1]).unwrap(),
            ) {
                Some(v) => lemma_edit_shape(
                    ir,
                    b,
                    i,
                    rewritten(x, Opcode::Ref, seq![ir.next_const()]),
                    v,
                ),
                None => {},
            }
        }
    }

    fn apply(ir: &mut IR, b: usize, i: usize) {
        let x = ir.instr_at(b, i);
        if x.operands.len() != 2 {
            return;
        }
        let lhs = match ir.const_lookup(x.operands[0]) {
            Some(v) => v,
            None => {
                return;
            },
        };
        let rhs = match ir.const_lookup(x.operands[1]) {
            Some(v) => v,
            None => {
                return;
            },
        };
        let result = match fold_value_exec(x.opcode, x.typ, lhs, rhs) {
            Some(v) => v,
            None => {
                return;
            },
        };
        let k = ir.const_new(result);
        ir.rewrite(b, i, Opcode::Ref, one_ref(k));
    }
}

/// Folds operations on constants where the 16-bit constant representation
/// captures the operation's full meaning (see `fold_value`).
pub fn constant_folding(ir: &mut IR)
    requires
        pass::<ConstantFolding>(old(ir)@) is Some,
    ensures
        pass::<ConstantFolding>(old(ir)@) == Some(final(ir)@),
{
    run_pass::<ConstantFolding>(ir);
}


// ---------------------------------------------------------------------------
// Helpers
// ---------------------------------------------------------------------------

/// `r` names an instruction whose operation is `op`.
pub open spec fn names_op(ir: IrV, r: Ref, op: Opcode) -> bool {
    ir.instr(r) is Some && ir.instr(r).unwrap().opcode == op
}

/// The instruction `r` names (arbitrary when it names none).
pub open spec fn target(ir: IrV, r: Ref) -> InstrV {
    ir.instr(r).unwrap()
}

fn names_op_exec(ir: &IR, r: Ref, op: Opcode) -> (res: bool)
    ensures
        res == names_op(ir@, r, op),
{
    match ir.instr(r) {
        Some(x) => x.opcode == op,
        None => false,
    }
}

// ---------------------------------------------------------------------------
// make32 (upper16 (signext32 t)) t  ==>  ref (signext32 t)
// ---------------------------------------------------------------------------

/// `t37 = make32 (upper16 t36) t34` with `t36 = signext32 t34` becomes
/// `t37 = ref t36`.
pub struct ReduceMake32SignExt32;

impl Rewrite for ReduceMake32SignExt32 {
    open spec fn ok(ir: IrV, b: int, i: int) -> bool {
        let x = ir.at(b, i);
        let u = target(ir, x.operands[0]);
        let s = target(ir, u.operands[0]);
        x.opcode == Opcode::Make32 ==> (x.operands.len() >= 1 && (names_op(
            ir,
            x.operands[0],
            Opcode::Upper16,
        ) ==> (u.operands.len() >= 1 && (names_op(ir, u.operands[0], Opcode::SignExtTo32) ==> (
        x.operands.len() >= 2 && s.operands.len() >= 1)))))
    }

    open spec fn step(ir: IrV, b: int, i: int) -> IrV {
        let x = ir.at(b, i);
        let u = target(ir, x.operands[0]);
        let s = target(ir, u.operands[0]);
        if x.opcode == Opcode::Make32 && names_op(ir, x.operands[0], Opcode::Upper16) && names_op(
            ir,
            u.operands[0],
            Opcode::SignExtTo32,
        ) && x.operands[1] == s.operands[0] {
            ir.with_instr(b, i, rewritten(x, Opcode::Ref, seq![u.operands[0]]))
        } else {
            ir
        }
    }

    proof fn lemma_step_shape(ir: IrV, b: int, i: int) {
        let x = ir.at(b, i);
        let u = target(ir, x.operands[0]);
        lemma_edit_shape(ir, b, i, rewritten(x, Opcode::Ref, seq![u.operands[0]]), 0);
    }

    fn apply(ir: &mut IR, b: usize, i: usize) {
        let x = ir.instr_at(b, i);
        if x.opcode != Opcode::Make32 {
            return;
        }
        let upper = match ir.instr(x.operands[0]) {
            Some(u) => u,
            None => {
                return;
            },
        };
        if upper.opcode != Opcode::Upper16 {
            return;
        }
        let sref = upper.operands[0];
        let signext = match ir.instr(sref) {
            Some(s) => s,
            None => {
                return;
            },
        };
        if signext.opcode != Opcode::SignExtTo32 {
            return;
        }
        if x.operands[1] == signext.operands[0] {
            ir.rewrite(b, i, Opcode::Ref, one_ref(sref));
        }
    }
}

/// Replaces `make32 (upper16 (signext32 t)) t` by the sign extension itself.
pub fn reduce_make_32_signext_32(ir: &mut IR)
    requires
        pass::<ReduceMake32SignExt32>(old(ir)@) is Some,
    ensures
        pass::<ReduceMake32SignExt32>(old(ir)@) == Some(final(ir)@),
{
    run_pass::<ReduceMake32SignExt32>(ir);
}

// ---------------------------------------------------------------------------
// make32 (upper16 t) (lower16 t)  ==>  ref t
// ---------------------------------------------------------------------------

/// `t4 = make32 (upper16 t1) (lower16 t1)` becomes `t4 = ref t1`.
pub struct ReduceUpperLowerMake32;

impl Rewrite for ReduceUpperLowerMake32 {
    open spec fn ok(ir: IrV, b: int, i: int) -> bool {
        let x = ir.at(b, i);
        let u = target(ir, x.operands[0]);
        let l = target(ir, x.operands[1]);
        x.opcode == Opcode::Make32 ==> (x.operands.len() >= 1 && (names_op(
            ir,
            x.operands[0],
            Opcode::Upper16,
        ) ==> (x.operands.len() >= 2 && (names_op(ir, x.operands[1], Opcode::Lower16) ==> (
        u.operands.len() >= 1 && l.operands.len() >= 1)))))
    }

    open spec fn step(ir: IrV, b: int, i: int) -> IrV {
        let x = ir.at(b, i);
        let u = target(ir, x.operands[0]);
        let l = target(ir, x.operands[1]);
        if x.opcode == Opcode::Make32 && names_op(ir, x.operands[0], Opcode::Upper16) && names_op(
            ir,
            x.operands[1],
            Opcode::Lower16,
        ) && u.operands[0] == l.operands[0] {
            ir.with_instr(b, i, rewritten(x, Opcode::Ref, seq![u.operands[0]]))
        } else {
            ir
        }
    }

    proof fn lemma_step_shape(ir: IrV, b: int, i: int) {
        let x = ir.at(b, i);
        let u = target(ir, x.operands[0]);
        lemma_edit_shape(ir, b, i, rewritten(x, Opcode::Ref, seq![u.operands[0]]), 0);
    }

    fn apply(ir: &mut IR, b: usize, i: usize) {
        let x = ir.instr_at(b, i);
        if x.opcode != Opcode::Make32 {
            return;
        }
        let upper = match ir.instr(x.operands[0]) {
            Some(u) => u,
            None => {
                return;
            },
        };
        if upper.opcode != Opcode::Upper16 {
            return;
        }
        let lower = match ir.instr(x.operands[1]) {
            Some(l) => l,
            None => {
                return;
            },
        };
        if lower.opcode != Opcode::Lower16 {
            return;
        }
        if upper.operands[0] != lower.operands[0] {
            return;
        }
        let src = upper.operands[0];
        ir.rewrite(b, i, Opcode::Ref, one_ref(src));
    }
}

/// Replaces `make32 (upper16 t) (lower16 t)` by `t`.
pub fn reduce_upper_lower_make32(ir: &mut IR)
    requires
        pass::<ReduceUpperLowerMake32>(old(ir)@) is Some,
    ensures
        pass::<ReduceUpperLowerMake32>(old(ir)@) == Some(final(ir)@),
{
    run_pass::<ReduceUpperLowerMake32>(ir);
}

// ---------------------------------------------------------------------------
// eq (or (upper16 t) (lower16 t)) #0  ==>  eq t #0   (32-bit)
// ---------------------------------------------------------------------------

/// `t5 = eq (or (lower16 t1) (upper16 t1)) #0` (or `neq`) becomes a 32-bit
/// `t5 = eq t1 #0`: the first operand is replaced and the type becomes U32.
pub struct ReduceEqualZero32;

/// One of the two operands of `o` names an instruction with operation `op`.
pub open spec fn either_names(ir: IrV, o: InstrV, op: Opcode) -> bool {
    names_op(ir, o.operands[0], op) || names_op(ir, o.operands[1], op)
}

impl Rewrite for ReduceEqualZero32 {
    open spec fn ok(ir: IrV, b: int, i: int) -> bool {
        let x = ir.at(b, i);
        let o = target(ir, x.operands[0]);
        (x.opcode == Opcode::Eq || x.opcode == Opcode::Neq) ==> (x.operands.len() >= 2 && (
        ir.const_value(x.operands[1]) == Some(0i16) && names_op(ir, x.operands[0], Opcode::Or)
            ==> (o.operands.len() >= 2 && (either_names(ir, o, Opcode::Upper16) && either_names(
            ir,
            o,
            Opcode::Lower16,
        ) ==> target(ir, o.operands[0]).operands.len() >= 1 && target(
            ir,
            o.operands[1],
        ).operands.len() >= 1))))
    }

    open spec fn step(ir: IrV, b: int, i: int) -> IrV {
        let x = ir.at(b, i);
        let o = target(ir, x.operands[0]);
        let t1 = target(ir, o.operands[0]).operands[0];
        let t2 = target(ir, o.operands[1]).operands[0];
        if (x.opcode == Opcode::Eq || x.opcode == Opcode::Neq) && ir.const_value(x.operands[1])
            == Some(0i16) && names_op(ir, x.operands[0], Opcode::Or) && either_names(
            ir,
            o,
            Opcode::Upper16,
        ) && either_names(ir, o, Opcode::Lower16) && t1 == t2 {
            ir.with_instr(
                b,
                i,
                InstrV {
                    typ: Type::U32,
                    attrs: x.attrs,
                    opcode: x.opcode,
                    operands: x.operands.update(0, t1),
                },
            )
        } else {
            ir
        }
    }

    proof fn lemma_step_shape(ir: IrV, b: int, i: int) {
        let x = ir.at(b, i);
        let o = target(ir, x.operands[0]);
        let t1 = target(ir, o.operands[0]).operands[0];
        lemma_edit_shape(
            ir,
            b,
            i,
            InstrV {
                typ: Type::U32,
                attrs: x.attrs,
                opcode: x.opcode,
                operands: x.operands.update(0, t1),
            },
            0,
        );
    }

    fn apply(ir: &mut IR, b: usize, i: usize) {
        let x = ir.instr_at(b, i);
        if x.opcode != Opcode::Eq && x.opcode != Opcode::Neq {
            return;
        }
        match ir.const_lookup(x.operands[1]) {
            Some(k) => {
                if k != 0 {
                    return;
                }
            },
            None => {
                return;
            },
        }
        let or_instr = match ir.instr(x.operands[0]) {
            Some(o) => o,
            None => {
                return;
            },
        };
        if or_instr.opcode != Opcode::Or {
            return;
        }
        let o0 = or_instr.operands[0];
        let o1 = or_instr.operands[1];
        let mut upper = false;
        let mut lower = false;
        if names_op_exec(ir, o0, Opcode::Upper16) {
            upper = true;
        }
        if names_op_exec(ir, o0, Opcode::Lower16) {
            lower = true;
        }
        if names_op_exec(ir, o1, Opcode::Upper16) {
            upper = true;
        }
        if names_op_exec(ir, o1, Opcode::Lower16) {
            lower = true;
        }
        if !upper || !lower {
            return;
        }
        let ref32_1 = match ir.instr(o0) {
            Some(t) => t.operands[0],
            None => {
                return;
            },
        };
        let ref32_2 = match ir.instr(o1) {
            Some(t) => t.operands[0],
            None => {
                return;
            },
        };
        if ref32_1 != ref32_2 {
            return;
        }
        let attrs = x.attrs;
        let opcode = x.opcode;
        let mut operands = copy_refs(&x.operands);
        operands.set(0, ref32_1);
        ir.set_instr(b, i, Instr { typ: Type::U32, attrs, opcode, operands });
    }
}

/// Rewrites a test of the two halves of a 32-bit value against zero into a
/// 32-bit test of the value.
pub fn reduce_equal_zero_32(ir: &mut IR)
    requires
        pass::<ReduceEqualZero32>(old(ir)@) is Some,
    ensures
        pass::<ReduceEqualZero32>(old(ir)@) == Some(final(ir)@),
{
    run_pass::<ReduceEqualZero32>(ir);
}

// ---------------------------------------------------------------------------
// signf (updf f t)  ==>  sign t
// ---------------------------------------------------------------------------

/// `t9 = signf flags.10` with `flags.10 = updf flags.8 dx.2` becomes
/// `t9 = sign dx.2`.
pub struct SimplifySignConds;

impl Rewrite for SimplifySignConds {
    open spec fn ok(ir: IrV, b: int, i: int) -> bool {
        let x = ir.at(b, i);
        let u = target(ir, x.operands[0]);
        x.opcode == Opcode::SignFlags ==> (x.operands.len() >= 1 && ir.instr(x.operands[0]) is Some
            && (u.opcode == Opcode::UpdateFlags ==> u.operands.len() >= 2))
    }

    open spec fn step(ir: IrV, b: int, i: int) -> IrV {
        let x = ir.at(b, i);
        let u = target(ir, x.operands[0]);
        if x.opcode == Opcode::SignFlags && u.opcode == Opcode::UpdateFlags {
            ir.with_instr(b, i, rewritten(x, Opcode::Sign, seq![u.operands[1]]))
        } else {
            ir
        }
    }

    proof fn lemma_step_shape(ir: IrV, b: int, i: int) {
        let x = ir.at(b, i);
        let u = target(ir, x.operands[0]);
        lemma_edit_shape(ir, b, i, rewritten(x, Opcode::Sign, seq![u.operands[1]]), 0);
    }

    fn apply(ir: &mut IR, b: usize, i: usize) {
        let x = ir.instr_at(b, i);
        if x.opcode != Opcode::SignFlags {
            return;
        }
        let upd = match ir.instr(x.operands[0]) {
            Some(u) => u,
            None => {
                return;
            },
        };
        if upd.opcode != Opcode::UpdateFlags {
            return;
        }
        let lhs = upd.operands[1];
        ir.rewrite(b, i, Opcode::Sign, one_ref(lhs));
    }
}

/// Replaces a sign-flag test of a flags update by a sign test of the value
/// the flags were computed from.
pub fn simplify_sign_conds(ir: &mut IR)
    requires
        pass::<SimplifySignConds>(old(ir)@) is Some,
    ensures
        pass::<SimplifySignConds>(old(ir)@) == Some(final(ir)@),
{
    run_pass::<SimplifySignConds>(ir);
}

// ---------------------------------------------------------------------------
// Branch conditions on flags  ==>  comparisons
// ---------------------------------------------------------------------------

/// The comparison a flags condition tests.
pub open spec fn flags_comparison(op: Opcode) -> Option<Opcode> {
    match op {
        Opcode::EqFlags => Some(Opcode::Eq),
        Opcode::NeqFlags => Some(Opcode::Neq),
        Opcode::GtFlags => Some(Opcode::Gt),
        Opcode::GeqFlags => Some(Opcode::Geq),
        Opcode::LtFlags => Some(Opcode::Lt),
        Opcode::LeqFlags => Some(Opcode::Leq),
        Opcode::UGtFlags => Some(Opcode::UGt),
        Opcode::UGeqFlags => Some(Opcode::UGeq),
        Opcode::ULtFlags => Some(Opcode::ULt),
        Opcode::ULeqFlags => Some(Opcode::ULeq),
        _ => None,
    }
}

fn flags_comparison_exec(op: Opcode) -> (r: Option<Opcode>)
    ensures
        r == flags_comparison(op),
{
    match op {
        Opcode::EqFlags => Some(Opcode::Eq),
        Opcode::NeqFlags => Some(Opcode::Neq),
        Opcode::GtFlags => Some(Opcode::Gt),
        Opcode::GeqFlags => Some(Opcode::Geq),
        Opcode::LtFlags => Some(Opcode::Lt),
        Opcode::LeqFlags => Some(Opcode::Leq),
        Opcode::UGtFlags => Some(Opcode::UGt),
        Opcode::UGeqFlags => Some(Opcode::UGeq),
        Opcode::ULtFlags => Some(Opcode::ULt),
        Opcode::ULeqFlags => Some(Opcode::ULeq),
        _ => None,
    }
}

/// What a flags condition on a flags update of the result `p` of `pred`
/// becomes, given the comparison `c` it tests and the fresh constant `z`:
/// after `cmp a, b` (a subtraction) the comparison of `a` and `b`; after
/// `test` (an and) or `or`, an equality test against zero; after `or`,
/// "above" is "not zero", "less" is "negative" and "greater or equal" is
/// "not negative".
pub open spec fn branch_rewrite(pred: InstrV, p: Ref, c: Opcode, z: Ref) -> Option<(Opcode, Seq<Ref>)> {
    let eq = c == Opcode::Eq || c == Opcode::Neq;
    if pred.opcode == Opcode::Sub {
        Some((c, seq![pred.operands[0], pred.operands[1]]))
    } else if pred.opcode == Opcode::And && eq {
        Some((c, seq![p, z]))
    } else if pred.opcode == Opcode::Or && eq {
        Some((c, seq![p, z]))
    } else if pred.opcode == Opcode::Or && c == Opcode::UGt {
        Some((Opcode::Neq, seq![p, z]))
    } else if pred.opcode == Opcode::Or && c == Opcode::Lt {
        Some((Opcode::Sign, seq![p, z]))
    } else if pred.opcode == Opcode::Or && c == Opcode::Geq {
        Some((Opcode::NotSign, seq![p, z]))
    } else {
        None
    }
}

/// A condition on flags that an `updf` computed from a subtraction, an and
/// or an or becomes a direct comparison (see `branch_rewrite`). A rewrite
/// against zero takes a fresh constant zero.
pub struct SimplifyBranchConds;

impl Rewrite for SimplifyBranchConds {
    open spec fn ok(ir: IrV, b: int, i: int) -> bool {
        let x = ir.at(b, i);
        let u = target(ir, x.operands[0]);
        let pred = target(ir, u.operands[1]);
        flags_comparison(x.opcode) is Some ==> (x.operands.len() >= 1 && ir.instr(x.operands[0]) is Some
            && (u.opcode == Opcode::UpdateFlags ==> (u.operands.len() >= 2 && ir.instr(
            u.operands[1],
        ) is Some && (pred.opcode == Opcode::Sub ==> pred.operands.len() >= 2))))
    }

    open spec fn step(ir: IrV, b: int, i: int) -> IrV {
        let x = ir.at(b, i);
        let u = target(ir, x.operands[0]);
        let p = u.operands[1];
        let pred = target(ir, p);
        let c = flags_comparison(x.opcode).unwrap();
        if flags_comparison(x.opcode) is Some && u.opcode == Opcode::UpdateFlags {
            match branch_rewrite(pred, p, c, ir.next_const()) {
                Some((op, operands)) => if pred.opcode == Opcode::Sub {
                    ir.with_instr(b, i, rewritten(x, op, operands))
                } else {
                    ir.with_const(0).with_instr(b, i, rewritten(x, op, operands))
                },
                None => ir,
            }
        } else {
            ir
        }
    }

    proof fn lemma_step_shape(ir: IrV, b: int, i: int) {
        let x = ir.at(b, i);
        let u = target(ir, x.operands[0]);
        let p = u.operands[1];
        let pred = target(ir, p);
        let c = flags_comparison(x.opcode).unwrap();
        match branch_rewrite(pred, p, c, ir.next_const()) {
            Some((op, operands)) => lemma_edit_shape(ir, b, i, rewritten(x, op, operands), 0),
            None => {},
        }
    }

    fn apply(ir: &mut IR, b: usize, i: usize) {
        let x = ir.instr_at(b, i);
        let c = match flags_comparison_exec(x.opcode) {
            Some(c) => c,
            None => {
                return;
            },
        };
        let eq = c == Opcode::Eq || c == Opcode::Neq;
        let above = c == Opcode::UGt;
        let lt = c == Opcode::Lt;
        let ge = c == Opcode::Geq;
        let upd = match ir.instr(x.operands[0]) {
            Some(u) => u,
            None => {
                return;
            },
        };
        if upd.opcode != Opcode::UpdateFlags {
            return;
        }
        let pred_ref = upd.operands[1];
        let pred = match ir.instr(pred_ref) {
            Some(p) => p,
            None => {
                return;
            },
        };
        let pop = pred.opcode;
        if pop == Opcode::Sub {
            let lhs = pred.operands[0];
            let rhs = pred.operands[1];
            ir.rewrite(b, i, c, two_refs(lhs, rhs));
        } else if (pop == Opcode::And && eq) || (pop == Opcode::Or && eq) {
            let z = ir.const_new(0);
            ir.rewrite(b, i, c, two_refs(pred_ref, z));
        } else if pop == Opcode::Or && above {
            let z = ir.const_new(0);
            ir.rewrite(b, i, Opcode::Neq, two_refs(pred_ref, z));
        } else if pop == Opcode::Or && lt {
            let z = ir.const_new(0);
            ir.rewrite(b, i, Opcode::Sign, two_refs(pred_ref, z));
        } else if pop == Opcode::Or && ge {
            let z = ir.const_new(0);
            ir.rewrite(b, i, Opcode::NotSign, two_refs(pred_ref, z));
        }
    }
}

/// Turns conditions on flags computed by `cmp`, `test` and `or` into direct
/// comparisons of the values.
pub fn simplify_branch_conds(ir: &mut IR)
    requires
        pass::<SimplifyBranchConds>(old(ir)@) is Some,
    ensures
        pass::<SimplifyBranchConds>(old(ir)@) == Some(final(ir)@),
{
    run_pass::<SimplifyBranchConds>(ir);
}

// ---------------------------------------------------------------------------
// eq (cmp t #0) #0  ==>  !cmp t #0
// ---------------------------------------------------------------------------

/// The comparison that holds exactly when `op` does not.
pub open spec fn inverse_comparison(op: Opcode) -> Option<Opcode> {
    match op {
        Opcode::Eq => Some(Opcode::Neq),
        Opcode::Neq => Some(Opcode::Eq),
        Opcode::Gt => Some(Opcode::Leq),
        Opcode::Geq => Some(Opcode::Lt),
        Opcode::Lt => Some(Opcode::Geq),
        Opcode::Leq => Some(Opcode::Gt),
        Opcode::UGt => Some(Opcode::ULeq),
        Opcode::UGeq => Some(Opcode::ULt),
        Opcode::ULt => Some(Opcode::UGeq),
        Opcode::ULeq => Some(Opcode::UGt),
        _ => None,
    }
}

fn inverse_comparison_exec(op: Opcode) -> (r: Option<Opcode>)
    ensures
        r == inverse_comparison(op),
{
    match op {
        Opcode::Eq => Some(Opcode::Neq),
        Opcode::Neq => Some(Opcode::Eq),
        Opcode::Gt => Some(Opcode::Leq),
        Opcode::Geq => Some(Opcode::Lt),
        Opcode::Lt => Some(Opcode::Geq),
        Opcode::Leq => Some(Opcode::Gt),
        Opcode::UGt => Some(Opcode::ULeq),
        Opcode::UGeq => Some(Opcode::ULt),
        Opcode::ULt => Some(Opcode::UGeq),
        Opcode::ULeq => Some(Opcode::UGt),
        _ => None,
    }
}

/// Comparisons give zero or one, so `(t cmp #0) == #0` is the inverse
/// comparison `t !cmp #0`, and `(t cmp #0) != #0` is `t cmp #0` itself.
/// Both instructions must have exactly two operands.
pub struct SimplifyChainedComparisons;

impl Rewrite for SimplifyChainedComparisons {
    open spec fn ok(ir: IrV, b: int, i: int) -> bool {
        true
    }

    open spec fn step(ir: IrV, b: int, i: int) -> IrV {
        let x = ir.at(b, i);
        let inner = target(ir, x.operands[0]);
        if (x.opcode == Opcode::Eq || x.opcode == Opcode::Neq) && x.operands.len() == 2
            && ir.const_value(x.operands[1]) == Some(0i16) && ir.instr(x.operands[0]) is Some
            && inner.operands.len() == 2 && ir.const_value(inner.operands[1]) == Some(0i16)
            && inverse_comparison(inner.opcode) is Some {
            let new_op = if x.opcode == Opcode::Eq {
                inverse_comparison(inner.opcode).unwrap()
            } else {
                inner.opcode
            };
            ir.with_instr(b, i, rewritten(x, new_op, seq![inner.operands[0], inner.operands[1]]))
        } else {
            ir
        }
    }

    proof fn lemma_step_shape(ir: IrV, b: int, i: int) {
        let x = ir.at(b, i);
        let inner = target(ir, x.operands[0]);
        let new_op = if x.opcode == Opcode::Eq {
            inverse_comparison(inner.opcode).unwrap()
        } else {
            inner.opcode
        };
        lemma_edit_shape(
            ir,
            b,
            i,
            rewritten(x, new_op, seq![inner.operands[0], inner.operands[1]]),
            0,
        );
    }

    fn apply(ir: &mut IR, b: usize, i: usize) {
        let x = ir.instr_at(b, i);
        if x.opcode != Opcode::Eq && x.opcode != Opcode::Neq {
            return;
        }
        let outer_eq = x.opcode == Opcode::Eq;
        if x.operands.len() != 2 {
            return;
        }
        match ir.const_lookup(x.operands[1]) {
            Some(k) => {
                if k != 0 {
                    return;
                }
            },
            None => {
                return;
            },
        }
        let inner = match ir.instr(x.operands[0]) {
            Some(t) => t,
            None => {
                return;
            },
        };
        if inner.operands.len() != 2 {
            return;
        }
        let inner_lhs = inner.operands[0];
        let inner_rhs = inner.operands[1];
        match ir.const_lookup(inner_rhs) {
            Some(k) => {
                if k != 0 {
                    return;
                }
            },
            None => {
                return;
            },
        }
        let flipped = match inverse_comparison_exec(inner.opcode) {
            Some(f) => f,
            None => {
                return;
            },
        };
        let new_op = if outer_eq {
            flipped
        } else {
            inner.opcode
        };
        ir.rewrite(b, i, new_op, two_refs(inner_lhs, inner_rhs));
    }
}

/// Simplifies a comparison result tested against zero.
pub fn simplify_chained_comparisons(ir: &mut IR)
    requires
        pass::<SimplifyChainedComparisons>(old(ir)@) is Some,
    ensures
        pass::<SimplifyChainedComparisons>(old(ir)@) == Some(final(ir)@),
{
    run_pass::<SimplifyChainedComparisons>(ir);
}


// ---------------------------------------------------------------------------
// Following chains of references
// ---------------------------------------------------------------------------

/// The number of instructions in the first `n` blocks, capped at the
/// largest `usize`.
pub open spec fn capped_count(ir: IrV, n: nat) -> nat
    decreases n,
{
    if n == 0 {
        0
    } else {
        let c = capped_count(ir, (n - 1) as nat) + ir.blocks[n - 1].instrs.len();
        if c > usize::MAX {
            usize::MAX as nat
        } else {
            c as nat
        }
    }
}

/// How many links of a chain of references are followed: one per
/// instruction of the function. A chain that is longer visits some
/// instruction twice, so it runs in a cycle and has no end.
pub open spec fn chain_limit(ir: IrV) -> nat {
    capped_count(ir, ir.blocks.len())
}

/// The operand `r` with chains of `ref` instructions followed to their end,
/// for at most `fuel` links.
pub open spec fn propagate(ir: IrV, r: Ref, fuel: nat) -> Ref
    decreases fuel,
{
    if fuel == 0 {
        r
    } else {
        match ir.instr(r) {
            Some(x) => if x.opcode == Opcode::Ref {
                propagate(ir, x.operands[0], (fuel - 1) as nat)
            } else {
                r
            },
            None => r,
        }
    }
}

/// Every `ref` instruction on the chain from `r` has an operand.
pub open spec fn propagate_ok(ir: IrV, r: Ref, fuel: nat) -> bool
    decreases fuel,
{
    fuel == 0 || match ir.instr(r) {
        Some(x) => x.opcode == Opcode::Ref ==> (x.operands.len() >= 1 && propagate_ok(
            ir,
            x.operands[0],
            (fuel - 1) as nat,
        )),
        None => true,
    }
}

/// `r` with its chain of references followed.
pub open spec fn resolved(ir: IrV, r: Ref) -> Ref {
    propagate(ir, r, chain_limit(ir))
}

/// The operands of `x` with their chains of references followed.
pub open spec fn resolved_operands(ir: IrV, x: InstrV) -> Seq<Ref> {
    Seq::new(x.operands.len(), |j: int| resolved(ir, x.operands[j]))
}

/// Every operand of `x` can be followed.
pub open spec fn operands_resolve(ir: IrV, x: InstrV) -> bool {
    forall|j: int| 0 <= j < x.operands.len() ==> propagate_ok(ir, #[trigger] x.operands[j], chain_limit(ir))
}

fn chain_limit_exec(ir: &IR) -> (n: usize)
    ensures
        n == chain_limit(ir@),
{
    let mut c: usize = 0;
    let mut k: usize = 0;
    while k < ir.blocks.len()
        invariant
            k <= ir.blocks.len(),
            c == capped_count(ir@, k as nat),
        decreases ir.blocks.len() - k,
    {
        let len = ir.blocks[k].instrs.len();
        if c > usize::MAX - len {
            c = usize::MAX;
        } else {
            c = c + len;
        }
        k = k + 1;
    }
    c
}

/// Follows a chain of `ref` instructions from `r` to its end.
fn operand_propagate(ir: &IR, r: Ref) -> (res: Ref)
    requires
        propagate_ok(ir@, r, chain_limit(ir@)),
    ensures
        res == resolved(ir@, r),
{
    let fuel = chain_limit_exec(ir);
    let mut cur = r;
    let mut left = fuel;
    loop
        invariant
            propagate(ir@, cur, left as nat) == propagate(ir@, r, fuel as nat),
            propagate_ok(ir@, cur, left as nat),
            fuel == chain_limit(ir@),
        decreases left,
    {
        if left == 0 {
            return cur;
        }
        match ir.instr(cur) {
            Some(x) => {
                if x.opcode != Opcode::Ref {
                    return cur;
                }
                cur = x.operands[0];
                left = left - 1;
            },
            None => {
                return cur;
            },
        }
    }
}

/// The operands of `x` with their chains followed.
fn propagate_all(ir: &IR, x: &Instr) -> (ops: Vec<Ref>)
    requires
        operands_resolve(ir@, x@),
    ensures
        ops@ == resolved_operands(ir@, x@),
{
    let mut ops: Vec<Ref> = Vec::new();
    let mut j: usize = 0;
    while j < x.operands.len()
        invariant
            j <= x.operands.len(),
            operands_resolve(ir@, x@),
            ops@ == resolved_operands(ir@, x@).subrange(0, j as int),
        decreases x.operands.len() - j,
    {
        let o = operand_propagate(ir, x.operands[j]);
        ops.push(o);
        j = j + 1;
        assert(ops@ =~= resolved_operands(ir@, x@).subrange(0, j as int));
    }
    assert(ops@ =~= resolved_operands(ir@, x@));
    ops
}

/// The reference naming the instruction at `(b, i)`.
pub open spec fn self_ref(b: int, i: int) -> Ref {
    Ref::Instr(b as usize, i as usize)
}

/// Some operand is other than `me`.
pub open spec fn has_other(ops: Seq<Ref>, me: Ref) -> bool {
    exists|j: int| 0 <= j < ops.len() && ops[j] != me
}

/// An operand other than `me` (when there is one).
pub open spec fn some_other(ops: Seq<Ref>, me: Ref) -> Ref {
    ops[choose|j: int| 0 <= j < ops.len() && ops[j] != me]
}

/// The operands other than `me` are one and the same value.
pub open spec fn single_other(ops: Seq<Ref>, me: Ref) -> bool {
    has_other(ops, me) && forall|k: int|
        0 <= k < ops.len() ==> ops[k] == me || ops[k] == some_other(ops, me)
}

// ---------------------------------------------------------------------------
// phi with a single value  ==>  ref
// ---------------------------------------------------------------------------

/// A phi's operands are replaced by their resolved values; when all of them
/// other than the phi itself are one value `t`, the phi becomes `ref t`.
pub struct ReducePhiSingleRef;

impl Rewrite for ReducePhiSingleRef {
    open spec fn ok(ir: IrV, b: int, i: int) -> bool {
        ir.at(b, i).opcode == Opcode::Phi ==> operands_resolve(ir, ir.at(b, i))
    }

    open spec fn step(ir: IrV, b: int, i: int) -> IrV {
        let x = ir.at(b, i);
        let ops = resolved_operands(ir, x);
        let me = self_ref(b, i);
        if x.opcode != Opcode::Phi {
            ir
        } else if single_other(ops, me) {
            ir.with_instr(b, i, rewritten(x, Opcode::Ref, seq![some_other(ops, me)]))
        } else {
            ir.with_instr(b, i, rewritten(x, Opcode::Phi, ops))
        }
    }

    proof fn lemma_step_shape(ir: IrV, b: int, i: int) {
        let x = ir.at(b, i);
        let ops = resolved_operands(ir, x);
        let me = self_ref(b, i);
        lemma_edit_shape(ir, b, i, rewritten(x, Opcode::Ref, seq![some_other(ops, me)]), 0);
        lemma_edit_shape(ir, b, i, rewritten(x, Opcode::Phi, ops), 0);
    }

    fn apply(ir: &mut IR, b: usize, i: usize) {
        let x = ir.instr_at(b, i);
        if x.opcode != Opcode::Phi {
            return;
        }
        let me = Ref::Instr(b, i);
        let ops = propagate_all(ir, x);
        let ghost gops = ops@;
        let mut trivial = true;
        let mut single: Option<Ref> = None;
        let mut j: usize = 0;
        while j < ops.len()
            invariant
                j <= ops.len(),
                ops@ == gops,
                single is None <==> forall|k: int| 0 <= k < j ==> gops[k] == me,
                single matches Some(s) ==> s != me && exists|k: int| 0 <= k < j && gops[k] == s,
                single matches Some(s) ==> (trivial <==> forall|k: int|
                    0 <= k < j ==> gops[k] == me || gops[k] == s),
                single is None ==> trivial,
            decreases ops.len() - j,
        {
            let o = ops[j];
            if o != me {
                match single {
                    None => {
                        single = Some(o);
                    },
                    Some(s) => {
                        if s != o {
                            trivial = false;
                        }
                    },
                }
            }
            j = j + 1;
        }
        let typ = x.typ;
        let attrs = x.attrs;
        proof {
            let w = choose|k: int| 0 <= k < gops.len() && gops[k] != me;
            if let Some(s) = single {
                if trivial {
                    assert(gops[w] == s);
                    assert(single_other(gops, me));
                } else {
                    assert(!single_other(gops, me)) by {
                        if single_other(gops, me) {
                            let k0 = choose|k: int| 0 <= k < gops.len() && gops[k] == s;
                            assert(gops[k0] == some_other(gops, me));
                        }
                    }
                }
            } else {
                assert(!has_other(gops, me));
            }
        }
        match single {
            Some(s) => {
                if trivial {
                    ir.set_instr(b, i, Instr { typ, attrs, opcode: Opcode::Ref, operands: one_ref(s) });
                } else {
                    ir.set_instr(b, i, Instr { typ, attrs, opcode: Opcode::Phi, operands: ops });
                }
            },
            None => {
                ir.set_instr(b, i, Instr { typ, attrs, opcode: Opcode::Phi, operands: ops });
            },
        }
    }
}

/// Resolves the operands of every phi and reduces a phi of a single value
/// to a reference to it.
pub fn reduce_phi_single_ref(ir: &mut IR)
    requires
        pass::<ReducePhiSingleRef>(old(ir)@) is Some,
    ensures
        pass::<ReducePhiSingleRef>(old(ir)@) == Some(final(ir)@),
{
    run_pass::<ReducePhiSingleRef>(ir);
}

// ---------------------------------------------------------------------------
// phi of equal instructions  ==>  the instruction
// ---------------------------------------------------------------------------

/// Every resolved operand other than `me` names an instruction equal to
/// `common`.
pub open spec fn all_name(ir: IrV, ops: Seq<Ref>, me: Ref, common: InstrV) -> bool {
    forall|k: int| 0 <= k < ops.len() && ops[k] != me ==> ir.instr(#[trigger] ops[k]) == Some(common)
}

/// When the resolved operands of a phi, other than the phi itself, all
/// name equal instructions free of side effects and other than phis, the
/// phi becomes a copy of that instruction.
pub struct ReducePhiCommonSubexpr;

impl Rewrite for ReducePhiCommonSubexpr {
    open spec fn ok(ir: IrV, b: int, i: int) -> bool {
        ir.at(b, i).opcode == Opcode::Phi ==> operands_resolve(ir, ir.at(b, i))
    }

    open spec fn step(ir: IrV, b: int, i: int) -> IrV {
        let x = ir.at(b, i);
        let ops = resolved_operands(ir, x);
        let me = self_ref(b, i);
        let common = target(ir, some_other(ops, me));
        if x.opcode == Opcode::Phi && has_other(ops, me) && ir.instr(some_other(ops, me)) is Some
            && !side_effects(common.opcode) && common.opcode != Opcode::Phi && all_name(
            ir,
            ops,
            me,
            common,
        ) {
            ir.with_instr(b, i, common)
        } else {
            ir
        }
    }

    proof fn lemma_step_shape(ir: IrV, b: int, i: int) {
        let x = ir.at(b, i);
        let ops = resolved_operands(ir, x);
        let me = self_ref(b, i);
        lemma_edit_shape(ir, b, i, target(ir, some_other(ops, me)), 0);
    }

    fn apply(ir: &mut IR, b: usize, i: usize) {
        let x = ir.instr_at(b, i);
        if x.opcode != Opcode::Phi {
            return;
        }
        let me = Ref::Instr(b, i);
        let ops = propagate_all(ir, x);
        let ghost gops = ops@;
        let mut first: usize = 0;
        while first < ops.len() && ops[first] == me
            invariant
                first <= ops.len(),
                forall|k: int| 0 <= k < first ==> gops[k] == me,
                ops@ == gops,
            decreases ops.len() - first,
        {
            first = first + 1;
        }
        if first == ops.len() {
            assert(!has_other(gops, me));
            return;
        }
        let common = ops[first];
        let common_instr = match ir.instr(common) {
            Some(c) => copy_instr(c),
            None => {
                proof {
                    let w = choose|k: int| 0 <= k < gops.len() && gops[k] != me;
                    if all_name(ir@, gops, me, target(ir@, some_other(gops, me))) {
                        assert(ir@.instr(gops[first as int]) == Some(target(ir@, some_other(gops, me))));
                    }
                }
                return;
            },
        };
        if common_instr.opcode.has_side_effects() || common_instr.opcode == Opcode::Phi {
            proof {
                if all_name(ir@, gops, me, target(ir@, some_other(gops, me))) && ir@.instr(
                    some_other(gops, me),
                ) is Some {
                    assert(ir@.instr(gops[first as int]) == Some(target(ir@, some_other(gops, me))));
                }
            }
            return;
        }
        let mut all_match = true;
        let mut k: usize = 0;
        while k < ops.len()
            invariant
                k <= ops.len(),
                ops@ == gops,
                all_match <==> forall|m: int|
                    0 <= m < k && gops[m] != me ==> ir@.instr(#[trigger] gops[m]) == Some(common_instr@),
            decreases ops.len() - k,
        {
            let o = ops[k];
            if o != me {
                match ir.instr(o) {
                    Some(y) => {
                        if !instr_eq(&common_instr, y) {
                            all_match = false;
                        }
                    },
                    None => {
                        all_match = false;
                    },
                }
            }
            k = k + 1;
        }
        proof {
            assert(ir@.instr(gops[first as int]) == Some(common_instr@));
            let w = choose|k: int| 0 <= k < gops.len() && gops[k] != me;
            assert(gops[w] != me);
            if all_match {
                assert(ir@.instr(some_other(gops, me)) == Some(common_instr@));
                assert(all_name(ir@, gops, me, common_instr@));
            } else if all_name(ir@, gops, me, target(ir@, some_other(gops, me))) && ir@.instr(
                some_other(gops, me),
            ) is Some {
                assert(ir@.instr(gops[first as int]) == Some(target(ir@, some_other(gops, me))));
                assert(all_name(ir@, gops, me, common_instr@));
            }
        }
        if all_match {
            ir.set_instr(b, i, common_instr);
        }
    }
}

/// Replaces a phi whose inputs all compute the same thing by that
/// computation.
pub fn reduce_phi_common_subexpr(ir: &mut IR)
    requires
        pass::<ReducePhiCommonSubexpr>(old(ir)@) is Some,
    ensures
        pass::<ReducePhiCommonSubexpr>(old(ir)@) == Some(final(ir)@),
{
    run_pass::<ReducePhiCommonSubexpr>(ir);
}

// ---------------------------------------------------------------------------
// Value propagation
// ---------------------------------------------------------------------------

/// Every operand is replaced by the end of its chain of references.
pub struct ValuePropagation;

impl Rewrite for ValuePropagation {
    open spec fn ok(ir: IrV, b: int, i: int) -> bool {
        operands_resolve(ir, ir.at(b, i))
    }

    open spec fn step(ir: IrV, b: int, i: int) -> IrV {
        let x = ir.at(b, i);
        ir.with_instr(b, i, rewritten(x, x.opcode, resolved_operands(ir, x)))
    }

    proof fn lemma_step_shape(ir: IrV, b: int, i: int) {
        let x = ir.at(b, i);
        lemma_edit_shape(ir, b, i, rewritten(x, x.opcode, resolved_operands(ir, x)), 0);
    }

    fn apply(ir: &mut IR, b: usize, i: usize) {
        let x = ir.instr_at(b, i);
        let ops = propagate_all(ir, x);
        let op = x.opcode;
        ir.rewrite(b, i, op, ops);
    }
}

/// Replaces every operand by the end of its chain of references.
pub fn value_propagation(ir: &mut IR)
    requires
        pass::<ValuePropagation>(old(ir)@) is Some,
    ensures
        pass::<ValuePropagation>(old(ir)@) == Some(final(ir)@),
{
    run_pass::<ValuePropagation>(ir);
}


// ---------------------------------------------------------------------------
// Stack pointer arithmetic
// ---------------------------------------------------------------------------

/// `r` names a stack-pointer instruction `add t #k` or `sub t #k` with
/// exactly two operands, the second a constant.
pub open spec fn sp_candidate(ir: IrV, r: Ref) -> bool {
    let x = target(ir, r);
    ir.instr(r) is Some && x.operands.len() == 2 && x.attrs & Attribute::STACK_PTR != 0
        && x.operands[1] is Const && (x.opcode == Opcode::Add || x.opcode == Opcode::Sub)
}

/// Reading such an instruction's offset is defined: the constant exists,
/// and a subtracted one can be negated.
pub open spec fn sp_ok(ir: IrV, r: Ref) -> bool {
    let x = target(ir, r);
    sp_candidate(ir, r) ==> (ir.const_value(x.operands[1]) is Some && (x.opcode == Opcode::Sub
        ==> ir.const_value(x.operands[1]).unwrap() != i16::MIN))
}

/// The base and signed offset of a stack-pointer instruction.
pub open spec fn sp_offset(ir: IrV, r: Ref) -> (Ref, int) {
    let x = target(ir, r);
    let k = ir.const_value(x.operands[1]).unwrap();
    (x.operands[0], if x.opcode == Opcode::Add { k as int } else { -k })
}

fn stack_ptr_const_oper(ir: &IR, vref: Ref) -> (res: Option<(Ref, i16)>)
    requires
        sp_ok(ir@, vref),
    ensures
        res is Some <==> sp_candidate(ir@, vref),
        res matches Some((n, k)) ==> (n, k as int) == sp_offset(ir@, vref),
{
    let x = match ir.instr(vref) {
        Some(x) => x,
        None => {
            return None;
        },
    };
    if x.operands.len() != 2 {
        return None;
    }
    if (x.attrs & Attribute::STACK_PTR) == 0 {
        return None;
    }
    let nref = x.operands[0];
    let cref = x.operands[1];
    match cref {
        Ref::Const(_) => {},
        _ => {
            return None;
        },
    }
    match x.opcode {
        Opcode::Add => {
            let k = ir.const_lookup(cref).unwrap();
            Some((nref, k))
        },
        Opcode::Sub => {
            let k = ir.const_lookup(cref).unwrap();
            Some((nref, -k))
        },
        _ => None,
    }
}

/// A stack-pointer `add`/`sub` of a constant applied to another such
/// instruction becomes one `add` or `sub` of the summed offset applied to
/// the inner base (a `ref` to the base when the offsets cancel), with a
/// fresh constant for the offset.
pub struct StackPtrAccumulation;

impl Rewrite for StackPtrAccumulation {
    open spec fn ok(ir: IrV, b: int, i: int) -> bool {
        let me = self_ref(b, i);
        let inner = ir.at(b, i).operands[0];
        let k = sp_offset(ir, me).1 + sp_offset(ir, inner).1;
        sp_ok(ir, me) && (sp_candidate(ir, me) ==> (sp_ok(ir, inner) && (sp_candidate(ir, inner)
            ==> i16::MIN < k <= i16::MAX)))
    }

    open spec fn step(ir: IrV, b: int, i: int) -> IrV {
        let me = self_ref(b, i);
        let x = ir.at(b, i);
        let inner = x.operands[0];
        let n = sp_offset(ir, inner).0;
        let k = sp_offset(ir, me).1 + sp_offset(ir, inner).1;
        if !sp_candidate(ir, me) || !sp_candidate(ir, inner) {
            ir
        } else if k > 0 {
            ir.with_const(k as i16).with_instr(b, i, rewritten(x, Opcode::Add, seq![n, ir.next_const()]))
        } else if k < 0 {
            ir.with_const((-k) as i16).with_instr(
                b,
                i,
                rewritten(x, Opcode::Sub, seq![n, ir.next_const()]),
            )
        } else {
            ir.with_instr(b, i, rewritten(x, Opcode::Ref, seq![n]))
        }
    }

    proof fn lemma_step_shape(ir: IrV, b: int, i: int) {
        let me = self_ref(b, i);
        let x = ir.at(b, i);
        let inner = x.operands[0];
        let n = sp_offset(ir, inner).0;
        let k = sp_offset(ir, me).1 + sp_offset(ir, inner).1;
        lemma_edit_shape(ir, b, i, rewritten(x, Opcode::Add, seq![n, ir.next_const()]), k as i16);
        lemma_edit_shape(ir, b, i, rewritten(x, Opcode::Sub, seq![n, ir.next_const()]), (-k) as i16);
        lemma_edit_shape(ir, b, i, rewritten(x, Opcode::Ref, seq![n]), 0);
    }

    fn apply(ir: &mut IR, b: usize, i: usize) {
        let me = Ref::Instr(b, i);
        let a = match stack_ptr_const_oper(ir, me) {
            Some((_, a)) => a,
            None => {
                return;
            },
        };
        let x = ir.instr_at(b, i);
        let (nref, bb) = match stack_ptr_const_oper(ir, x.operands[0]) {
            Some(p) => p,
            None => {
                return;
            },
        };
        let k = a + bb;
        if k > 0 {
            let cref = ir.const_new(k);
            ir.rewrite(b, i, Opcode::Add, two_refs(nref, cref));
        } else if k < 0 {
            let cref = ir.const_new(-k);
            ir.rewrite(b, i, Opcode::Sub, two_refs(nref, cref));
        } else {
            ir.rewrite(b, i, Opcode::Ref, one_ref(nref));
        }
    }
}

/// Merges nested constant adjustments of stack pointers.
pub fn stack_ptr_accumulation(ir: &mut IR)
    requires
        pass::<StackPtrAccumulation>(old(ir)@) is Some,
    ensures
        pass::<StackPtrAccumulation>(old(ir)@) == Some(final(ir)@),
{
    run_pass::<StackPtrAccumulation>(ir);
}

// ---------------------------------------------------------------------------
// Common subexpression elimination
// ---------------------------------------------------------------------------

/// The pure computations whose repetitions are merged.
pub open spec fn cse_allowed(op: Opcode) -> bool {
    match op {
        Opcode::Add | Opcode::Sub | Opcode::Shl | Opcode::Shr | Opcode::UShr | Opcode::And
        | Opcode::Or | Opcode::Xor | Opcode::IMul | Opcode::UMul | Opcode::IDiv | Opcode::UDiv
        | Opcode::Neg | Opcode::SignExtTo32 | Opcode::Lower16 | Opcode::Upper16 | Opcode::Make32
        | Opcode::UpdateFlags | Opcode::EqFlags | Opcode::NeqFlags | Opcode::GtFlags
        | Opcode::GeqFlags | Opcode::LtFlags | Opcode::LeqFlags | Opcode::UGtFlags
        | Opcode::UGeqFlags | Opcode::ULtFlags | Opcode::ULeqFlags | Opcode::Eq | Opcode::Neq
        | Opcode::Gt | Opcode::Geq | Opcode::Lt | Opcode::Leq | Opcode::UGt | Opcode::UGeq
        | Opcode::ULt | Opcode::ULeq => true,
        _ => false,
    }
}

fn allow_cse(opcode: Opcode) -> (r: bool)
    ensures
        r == cse_allowed(opcode),
{
    match opcode {
        Opcode::Add | Opcode::Sub | Opcode::Shl | Opcode::Shr | Opcode::UShr | Opcode::And
        | Opcode::Or | Opcode::Xor | Opcode::IMul | Opcode::UMul | Opcode::IDiv | Opcode::UDiv
        | Opcode::Neg | Opcode::SignExtTo32 | Opcode::Lower16 | Opcode::Upper16 | Opcode::Make32
        | Opcode::UpdateFlags | Opcode::EqFlags | Opcode::NeqFlags | Opcode::GtFlags
        | Opcode::GeqFlags | Opcode::LtFlags | Opcode::LeqFlags | Opcode::UGtFlags
        | Opcode::UGeqFlags | Opcode::ULtFlags | Opcode::ULeqFlags | Opcode::Eq | Opcode::Neq
        | Opcode::Gt | Opcode::Geq | Opcode::Lt | Opcode::Leq | Opcode::UGt | Opcode::UGeq
        | Opcode::ULt | Opcode::ULeq => true,
        _ => false,
    }
}

/// The first of the first `n` instructions of block `b` equal to `x`.
pub open spec fn first_equal(ir: IrV, b: int, x: InstrV, n: nat) -> Option<int>
    decreases n,
{
    if n == 0 {
        None
    } else {
        match first_equal(ir, b, x, (n - 1) as nat) {
            Some(j) => Some(j),
            None => if ir.at(b, n - 1) == x {
                Some(n - 1)
            } else {
                None
            },
        }
    }
}

/// A pure computation equal to an earlier one of its block becomes a
/// reference to the first of them.
pub struct CommonSubexpressionElimination;

impl Rewrite for CommonSubexpressionElimination {
    open spec fn ok(ir: IrV, b: int, i: int) -> bool {
        true
    }

    open spec fn step(ir: IrV, b: int, i: int) -> IrV {
        let x = ir.at(b, i);
        if cse_allowed(x.opcode) && first_equal(ir, b, x, i as nat) is Some {
            ir.with_instr(
                b,
                i,
                rewritten(x, Opcode::Ref, seq![self_ref(b, first_equal(ir, b, x, i as nat).unwrap())]),
            )
        } else {
            ir
        }
    }

    proof fn lemma_step_shape(ir: IrV, b: int, i: int) {
        let x = ir.at(b, i);
        lemma_edit_shape(
            ir,
            b,
            i,
            rewritten(x, Opcode::Ref, seq![self_ref(b, first_equal(ir, b, x, i as nat).unwrap())]),
            0,
        );
    }

    fn apply(ir: &mut IR, b: usize, i: usize) {
        let x = ir.instr_at(b, i);
        if !allow_cse(x.opcode) {
            return;
        }
        let mut j: usize = 0;
        while j < i
            invariant
                j <= i,
                ir@ == old(ir)@,
                ir@.has_pos(b as int, i as int),
                x@ == ir@.at(b as int, i as int),
                cse_allowed(x@.opcode),
                first_equal(ir@, b as int, x@, j as nat) is None,
            decreases i - j,
        {
            if instr_eq(ir.instr_at(b, j), x) {
                assert(first_equal(ir@, b as int, x@, (j + 1) as nat) == Some(j as int));
                proof {
                    lemma_first_equal_stable(ir@, b as int, x@, (j + 1) as nat, i as nat);
                }
                ir.rewrite(b, i, Opcode::Ref, one_ref(Ref::Instr(b, j)));
                return;
            }
            j = j + 1;
        }
    }
}

/// Once found, the first equal instruction stays the first as the scan
/// goes on.
proof fn lemma_first_equal_stable(ir: IrV, b: int, x: InstrV, m: nat, n: nat)
    requires
        m <= n,
        first_equal(ir, b, x, m) is Some,
    ensures
        first_equal(ir, b, x, n) == first_equal(ir, b, x, m),
    decreases n,
{
    if n > m {
        lemma_first_equal_stable(ir, b, x, m, (n - 1) as nat);
    }
}

/// Within each block, replaces a pure computation that repeats an earlier
/// one by a reference to the earlier one.
pub fn common_subexpression_elimination(ir: &mut IR)
    requires
        pass::<CommonSubexpressionElimination>(old(ir)@) is Some,
    ensures
        pass::<CommonSubexpressionElimination>(old(ir)@) == Some(final(ir)@),
{
    run_pass::<CommonSubexpressionElimination>(ir);
}

// ---------------------------------------------------------------------------
// Store to load forwarding
// ---------------------------------------------------------------------------

/// The value stored by the last store before instruction `k` of block `b`
/// to the address `seg:off`, scanning the stores backwards.
pub open spec fn stored_value(ir: IrV, b: int, k: nat, seg: Ref, off: Ref) -> Option<Ref>
    decreases k,
{
    if k == 0 {
        None
    } else {
        let s = ir.at(b, k - 1);
        if s.opcode == Opcode::Store16 && s.operands[0] == seg && s.operands[1] == off {
            Some(s.operands[2])
        } else {
            stored_value(ir, b, (k - 1) as nat, seg, off)
        }
    }
}

/// The stores the backward scan reads have an address, and the one it
/// stops at has a value.
pub open spec fn stored_value_ok(ir: IrV, b: int, k: nat, seg: Ref, off: Ref) -> bool
    decreases k,
{
    if k == 0 {
        true
    } else {
        let s = ir.at(b, k - 1);
        if s.opcode == Opcode::Store16 {
            s.operands.len() >= 2 && if s.operands[0] == seg && s.operands[1] == off {
                s.operands.len() >= 3
            } else {
                stored_value_ok(ir, b, (k - 1) as nat, seg, off)
            }
        } else {
            stored_value_ok(ir, b, (k - 1) as nat, seg, off)
        }
    }
}

/// A load from an address an earlier store of the same block wrote becomes
/// a reference to the value stored last.
pub struct ForwardStoreToLoad;

impl Rewrite for ForwardStoreToLoad {
    open spec fn ok(ir: IrV, b: int, i: int) -> bool {
        let x = ir.at(b, i);
        x.opcode == Opcode::Load16 ==> (x.operands.len() >= 2 && stored_value_ok(
            ir,
            b,
            i as nat,
            x.operands[0],
            x.operands[1],
        ))
    }

    open spec fn step(ir: IrV, b: int, i: int) -> IrV {
        let x = ir.at(b, i);
        let v = stored_value(ir, b, i as nat, x.operands[0], x.operands[1]);
        if x.opcode == Opcode::Load16 && v is Some {
            ir.with_instr(b, i, rewritten(x, Opcode::Ref, seq![v.unwrap()]))
        } else {
            ir
        }
    }

    proof fn lemma_step_shape(ir: IrV, b: int, i: int) {
        let x = ir.at(b, i);
        let v = stored_value(ir, b, i as nat, x.operands[0], x.operands[1]);
        lemma_edit_shape(ir, b, i, rewritten(x, Opcode::Ref, seq![v.unwrap()]), 0);
    }

    fn apply(ir: &mut IR, b: usize, i: usize) {
        let x = ir.instr_at(b, i);
        if !x.opcode.is_load() {
            return;
        }
        let seg = x.operands[0];
        let off = x.operands[1];
        let mut k: usize = i;
        while k > 0
            invariant
                k <= i,
                ir@ == old(ir)@,
                ir@.has_pos(b as int, i as int),
                x@ == ir@.at(b as int, i as int),
                x@.opcode == Opcode::Load16,
                seg == x@.operands[0],
                off == x@.operands[1],
                stored_value_ok(ir@, b as int, k as nat, seg, off),
                stored_value(ir@, b as int, k as nat, seg, off) == stored_value(
                    ir@,
                    b as int,
                    i as nat,
                    seg,
                    off,
                ),
            decreases k,
        {
            let s = ir.instr_at(b, k - 1);
            if s.opcode.is_store() && s.operands[0] == seg && s.operands[1] == off {
                let v = s.operands[2];
                ir.rewrite(b, i, Opcode::Ref, one_ref(v));
                return;
            }
            k = k - 1;
        }
    }
}

/// Within each block, replaces a load from an address stored to earlier by
/// the value stored.
pub fn forward_store_to_load(ir: &mut IR)
    requires
        pass::<ForwardStoreToLoad>(old(ir)@) is Some,
    ensures
        pass::<ForwardStoreToLoad>(old(ir)@) == Some(final(ir)@),
{
    run_pass::<ForwardStoreToLoad>(ir);
}


// ---------------------------------------------------------------------------
// Dead blocks
// ---------------------------------------------------------------------------

/// The first index among the first `n` predecessors that is `b`.
pub open spec fn pred_index(preds: Seq<BlockRef>, b: BlockRef, n: nat) -> Option<int>
    decreases n,
{
    if n == 0 {
        None
    } else {
        match pred_index(preds, b, (n - 1) as nat) {
            Some(p) => Some(p),
            None => if preds[n - 1] == b {
                Some(n - 1)
            } else {
                None
            },
        }
    }
}

/// The instructions with operand `p` dropped from each phi among the first
/// `k` of them.
pub open spec fn phis_dropped(instrs: Seq<InstrV>, p: int, k: int) -> Seq<InstrV> {
    Seq::new(
        instrs.len(),
        |m: int|
            if m < k && instrs[m].opcode == Opcode::Phi {
                without_operand(instrs[m], p)
            } else {
                instrs[m]
            },
    )
}

/// Every phi has an operand `p`.
pub open spec fn phis_have(instrs: Seq<InstrV>, p: int) -> bool {
    forall|m: int| 0 <= m < instrs.len() && instrs[m].opcode == Opcode::Phi ==> p < #[trigger] instrs[m].operands.len()
}

/// Block `e` with predecessor `p` dropped and the first `k` instructions'
/// phi operands `p` dropped.
pub open spec fn unlinked_partly(ir: IrV, e: int, p: int, k: int) -> IrV {
    IrV {
        consts: ir.consts,
        blocks: ir.blocks.update(
            e,
            BlockV {
                name: ir.blocks[e].name,
                preds: ir.blocks[e].preds.remove(p),
                instrs: phis_dropped(ir.blocks[e].instrs, p, k),
                removed: ir.blocks[e].removed,
            },
        ),
    }
}

/// Removes block `b` as a predecessor of block `e`: its first entry in
/// `e`'s predecessors, and the matching operand of every phi of `e`.
/// Undefined when `e` does not exist, does not list `b`, or has a phi
/// without that operand.
pub open spec fn unlink(ir: IrV, e: BlockRef, b: BlockRef) -> Option<IrV> {
    if e.0 >= ir.blocks.len() {
        None
    } else {
        let preds = ir.blocks[e.0 as int].preds;
        match pred_index(preds, b, preds.len()) {
            Some(p) => if phis_have(ir.blocks[e.0 as int].instrs, p) {
                Some(unlinked_partly(ir, e.0 as int, p, ir.blocks[e.0 as int].instrs.len() as int))
            } else {
                None
            },
            None => None,
        }
    }
}

/// Unlinks `b` from the first `n` of the exits `ex` in turn.
pub open spec fn unlink_all(ir: IrV, ex: Seq<BlockRef>, n: nat, b: BlockRef) -> Option<IrV>
    decreases n,
{
    if n == 0 {
        Some(ir)
    } else {
        match unlink_all(ir, ex, (n - 1) as nat, b) {
            Some(p) => unlink(p, ex[n - 1], b),
            None => None,
        }
    }
}

/// Block `b` is dead when it is not the entry block and has no
/// predecessors: it is unlinked from every block it exits to and removed.
pub open spec fn deadblock_step(ir: IrV, b: int) -> Option<IrV> {
    if b == 0 || ir.blocks[b].removed || ir.blocks[b].preds.len() > 0 {
        Some(ir)
    } else {
        let ex = exits(ir, b);
        match unlink_all(ir, ex, ex.len(), BlockRef(b as usize)) {
            Some(p) => Some(p.removed_block(b)),
            None => None,
        }
    }
}

/// The function after visiting the first `n` blocks in order.
pub open spec fn deadblock_fold(ir: IrV, n: nat) -> Option<IrV>
    decreases n,
{
    if n == 0 {
        Some(ir)
    } else {
        match deadblock_fold(ir, (n - 1) as nat) {
            Some(p) => deadblock_step(p, n - 1),
            None => None,
        }
    }
}

/// The function after dead block elimination.
pub open spec fn deadblock_result(ir: IrV) -> Option<IrV> {
    deadblock_fold(ir, ir.blocks.len())
}

proof fn lemma_unlink_all_prefix(ir: IrV, ex: Seq<BlockRef>, n: nat, k: nat, b: BlockRef)
    requires
        k <= n,
        unlink_all(ir, ex, n, b) is Some,
    ensures
        unlink_all(ir, ex, k, b) is Some,
        unlink_all(ir, ex, k, b).unwrap().blocks.len() == ir.blocks.len(),
    decreases n,
{
    if n > k {
        lemma_unlink_all_prefix(ir, ex, (n - 1) as nat, k, b);
    } else if n > 0 {
        lemma_unlink_all_prefix(ir, ex, (n - 1) as nat, (n - 1) as nat, b);
    }
}

proof fn lemma_deadblock_prefix(ir: IrV, n: nat, k: nat)
    requires
        k <= n,
        n <= ir.blocks.len(),
        deadblock_fold(ir, n) is Some,
    ensures
        deadblock_fold(ir, k) is Some,
        deadblock_fold(ir, k).unwrap().blocks.len() == ir.blocks.len(),
    decreases n,
{
    if n > k {
        lemma_deadblock_prefix(ir, (n - 1) as nat, k);
    } else if n > 0 {
        lemma_deadblock_prefix(ir, (n - 1) as nat, (n - 1) as nat);
        let p = deadblock_fold(ir, (n - 1) as nat).unwrap();
        let b = n - 1;
        assert(deadblock_fold(ir, n) == deadblock_step(p, b));
        if !(b == 0 || p.blocks[b].removed || p.blocks[b].preds.len() > 0) {
            let ex = exits(p, b);
            lemma_unlink_all_prefix(p, ex, ex.len(), ex.len(), BlockRef(b as usize));
            let q = unlink_all(p, ex, ex.len(), BlockRef(b as usize)).unwrap();
            assert(deadblock_step(p, b) == Some(q.removed_block(b)));
            assert(q.removed_block(b).blocks.len() == q.blocks.len());
        }
    }
}

/// Unlinks block `b` from block `e` (see `unlink`).
fn unlink_exec(ir: &mut IR, e: BlockRef, b: BlockRef)
    requires
        unlink(old(ir)@, e, b) is Some,
    ensures
        unlink(old(ir)@, e, b) == Some(final(ir)@),
{
    let ghost ir0 = ir@;
    let ei = e.0;
    let np = ir.blocks[ei].preds.len();
    let mut p: usize = 0;
    while p < np && ir.blocks[ei].preds[p] != b
        invariant
            p <= np,
            ir@ == ir0,
            ei < ir0.blocks.len(),
            np == ir0.blocks[ei as int].preds.len(),
            pred_index(ir0.blocks[ei as int].preds, b, p as nat) is None,
            pred_index(ir0.blocks[ei as int].preds, b, np as nat) is Some,
        decreases np - p,
    {
        p = p + 1;
    }
    proof {
        if p == np {
            assert(false);
        }
        assert(pred_index(ir0.blocks[ei as int].preds, b, (p + 1) as nat) == Some(p as int));
        lemma_pred_index_stable(ir0.blocks[ei as int].preds, b, (p + 1) as nat, np as nat);
    }
    ir.remove_pred(ei, p);
    assert(ir@.blocks.len() == ir0.blocks.len());
    assert(ir.blocks@.len() == ir@.blocks.len());
    assert(ir@.blocks[ei as int] == ir.blocks@[ei as int]@);
    assert(ir.blocks@[ei as int]@.instrs.len() == ir0.blocks[ei as int].instrs.len());
    let n = ir.blocks[ei].instrs.len();
    let mut k: usize = 0;
    assert(ir@ =~= unlinked_partly(ir0, ei as int, p as int, 0)) by {
        assert(phis_dropped(ir0.blocks[ei as int].instrs, p as int, 0) =~= ir0.blocks[ei as int].instrs);
    }
    while k < n
        invariant
            k <= n,
            ei < ir0.blocks.len(),
            n == ir0.blocks[ei as int].instrs.len(),
            p < np,
            phis_have(ir0.blocks[ei as int].instrs, p as int),
            ir@ == unlinked_partly(ir0, ei as int, p as int, k as int),
        decreases n - k,
    {
        assert(ir.blocks@.len() == ir@.blocks.len());
        assert(ir@.blocks[ei as int] == ir.blocks@[ei as int]@);
        assert(ir.blocks@[ei as int]@.instrs.len() == n);
        if ir.blocks[ei].instrs[k].opcode == Opcode::Phi {
            assert(ir@.at(ei as int, k as int) == ir0.blocks[ei as int].instrs[k as int]);
            ir.remove_operand(ei, k, p);
        }
        proof {
            let a = ir@.blocks[ei as int].instrs;
            let c = phis_dropped(ir0.blocks[ei as int].instrs, p as int, k as int + 1);
            assert(a =~= c);
            assert(ir@.blocks =~= unlinked_partly(ir0, ei as int, p as int, k as int + 1).blocks);
        }
        k = k + 1;
    }
}

proof fn lemma_pred_index_stable(preds: Seq<BlockRef>, b: BlockRef, m: nat, n: nat)
    requires
        m <= n,
        pred_index(preds, b, m) is Some,
    ensures
        pred_index(preds, b, n) == pred_index(preds, b, m),
    decreases n,
{
    if n > m {
        lemma_pred_index_stable(preds, b, m, (n - 1) as nat);
    }
}

/// Removes every block other than the entry that has no predecessors,
/// visiting the blocks in order: a dead block is unlinked from the blocks it
/// exits to (dropping the matching phi operands), which may leave a later
/// block dead as well.
pub fn deadblock_elimination(ir: &mut IR)
    requires
        deadblock_result(old(ir)@) is Some,
    ensures
        deadblock_result(old(ir)@) == Some(final(ir)@),
{
    let ghost ir0 = ir@;
    let nb = ir.blocks.len();
    let mut b: usize = 0;
    while b < nb
        invariant
            b <= nb,
            nb == ir0.blocks.len(),
            deadblock_fold(ir0, nb as nat) is Some,
            deadblock_fold(ir0, b as nat) == Some(ir@),
            ir@.blocks.len() == nb,
        decreases nb - b,
    {
        proof {
            lemma_deadblock_prefix(ir0, nb as nat, (b + 1) as nat);
        }
        if b != 0 && !ir.blocks[b].removed && ir.blocks[b].preds.len() == 0 {
            let ghost pre = ir@;
            let blk = BlockRef(b);
            let ex = ir.block_exits(blk);
            let mut t: usize = 0;
            proof {
                lemma_unlink_all_prefix(pre, ex@, ex@.len(), 0, blk);
            }
            while t < ex.len()
                invariant
                    t <= ex.len(),
                    b < nb,
                    pre.blocks.len() == nb,
                    ex@ == exits(pre, b as int),
                    unlink_all(pre, ex@, ex@.len(), blk) is Some,
                    unlink_all(pre, ex@, t as nat, blk) == Some(ir@),
                decreases ex.len() - t,
            {
                proof {
                    lemma_unlink_all_prefix(pre, ex@, ex@.len(), (t + 1) as nat, blk);
                }
                unlink_exec(ir, ex[t], blk);
                t = t + 1;
            }
            proof {
                lemma_unlink_all_prefix(pre, ex@, ex@.len(), ex@.len(), blk);
            }
            ir.block_remove(blk);
        }
        b = b + 1;
    }
}


// ---------------------------------------------------------------------------
// Dead code
// ---------------------------------------------------------------------------

/// An instruction kept whatever uses it: one with side effects or pinned,
/// in a block still in place.
pub open spec fn is_root(ir: IrV, r: Ref) -> bool {
    match r {
        Ref::Instr(b, i) => ir.has_pos(b as int, i as int) && !ir.blocks[b as int].removed && (
        side_effects(ir.at(b as int, i as int).opcode) || ir.at(b as int, i as int).attrs
            & Attribute::PIN != 0),
        _ => false,
    }
}

/// `r` is an operand of the instruction `q` names.
pub open spec fn operand_of(ir: IrV, q: Ref, r: Ref) -> bool {
    ir.instr(q) is Some && exists|j: int| 0 <= j < target(ir, q).operands.len() && #[trigger] target(ir, q).operands[j] == r
}

/// `r` is a root, or an operand of an instruction reached in fewer than
/// `n` steps.
pub open spec fn reaches(ir: IrV, r: Ref, n: nat) -> bool
    decreases n,
{
    is_root(ir, r) || (n > 0 && exists|q: Ref| #[trigger] operand_of(ir, q, r) && reaches(ir, q, (n - 1) as nat))
}

/// `r` is live: the roots use it, directly or through other instructions.
pub open spec fn live(ir: IrV, r: Ref) -> bool {
    exists|n: nat| reaches(ir, r, n)
}

/// Instruction `(b, i)` after dead code elimination.
pub open spec fn swept_instr(ir: IrV, b: int, i: int) -> InstrV {
    if live(ir, self_ref(b, i)) {
        ir.at(b, i)
    } else {
        rewritten(ir.at(b, i), Opcode::Nop, Seq::empty())
    }
}

/// Block `b` with its first `k` instructions swept (all of it when `k` is
/// its length); a removed block is left alone.
pub open spec fn swept_block(ir: IrV, b: int, k: int) -> BlockV {
    if ir.blocks[b].removed {
        ir.blocks[b]
    } else {
        BlockV {
            name: ir.blocks[b].name,
            preds: ir.blocks[b].preds,
            instrs: Seq::new(
                ir.blocks[b].instrs.len(),
                |i: int|
                    if i < k {
                        swept_instr(ir, b, i)
                    } else {
                        ir.at(b, i)
                    },
            ),
            removed: false,
        }
    }
}

/// The function with the blocks before `b` swept, and block `b` swept up
/// to instruction `k`.
pub open spec fn swept_upto(ir: IrV, b: int, k: int) -> IrV {
    IrV {
        consts: ir.consts,
        blocks: Seq::new(
            ir.blocks.len(),
            |c: int|
                if c < b {
                    swept_block(ir, c, ir.blocks[c].instrs.len() as int)
                } else if c == b {
                    swept_block(ir, c, k)
                } else {
                    ir.blocks[c]
                },
        ),
    }
}

proof fn lemma_swept_none(ir: IrV, c: int)
    requires
        0 <= c < ir.blocks.len(),
    ensures
        swept_block(ir, c, 0) == ir.blocks[c],
{
    if !ir.blocks[c].removed {
        assert(swept_block(ir, c, 0).instrs =~= ir.blocks[c].instrs);
    }
}

/// The function after dead code elimination: every instruction of a block
/// in place that is not live becomes a `nop` without operands.
pub open spec fn dce_result(ir: IrV) -> IrV {
    swept_upto(ir, ir.blocks.len() as int, 0)
}

/// The number of `false` entries.
pub open spec fn count_false(s: Seq<bool>) -> nat
    decreases s.len(),
{
    if s.len() == 0 {
        0
    } else {
        count_false(s.drop_last()) + if s.last() {
            0nat
        } else {
            1nat
        }
    }
}

/// The number of `false` entries over all rows.
pub open spec fn total_false(m: Seq<Seq<bool>>) -> nat
    decreases m.len(),
{
    if m.len() == 0 {
        0
    } else {
        total_false(m.drop_last()) + count_false(m.last())
    }
}

proof fn lemma_count_false_set(s: Seq<bool>, k: int)
    requires
        0 <= k < s.len(),
        !s[k],
    ensures
        count_false(s.update(k, true)) + 1 == count_false(s),
    decreases s.len(),
{
    let t = s.update(k, true);
    if k == s.len() - 1 {
        assert(t.drop_last() =~= s.drop_last());
    } else {
        assert(t.drop_last() =~= s.drop_last().update(k, true));
        lemma_count_false_set(s.drop_last(), k);
    }
}

proof fn lemma_total_false_set(m: Seq<Seq<bool>>, b: int, row: Seq<bool>)
    requires
        0 <= b < m.len(),
        count_false(row) + 1 == count_false(m[b]),
    ensures
        total_false(m.update(b, row)) + 1 == total_false(m),
    decreases m.len(),
{
    let t = m.update(b, row);
    if b == m.len() - 1 {
        assert(t.drop_last() =~= m.drop_last());
    } else {
        assert(t.drop_last() =~= m.drop_last().update(b, row));
        lemma_total_false_set(m.drop_last(), b, row);
    }
}

/// The marks as rows of booleans.
pub open spec fn mview(m: Seq<Vec<bool>>) -> Seq<Seq<bool>> {
    Seq::new(m.len(), |b: int| m[b]@)
}

/// The marks with `(b, i)` set.
pub open spec fn set_mark(m: Seq<Seq<bool>>, b: int, i: int) -> Seq<Seq<bool>> {
    m.update(b, m[b].update(i, true))
}

/// The marks have one row per block and one entry per instruction.
pub open spec fn marks_fit(ir: IrV, m: Seq<Seq<bool>>) -> bool {
    &&& m.len() == ir.blocks.len()
    &&& forall|b: int| 0 <= b < m.len() ==> #[trigger] m[b].len() == ir.blocks[b].instrs.len()
}

/// Every marked instruction is live.
pub open spec fn marks_sound(ir: IrV, m: Seq<Seq<bool>>) -> bool {
    forall|b: int, i: int| ir.has_pos(b, i) && #[trigger] m[b][i] ==> live(ir, self_ref(b, i))
}

/// `r` names an instruction that is marked.
pub open spec fn marked(ir: IrV, m: Seq<Seq<bool>>, r: Ref) -> bool {
    match r {
        Ref::Instr(b, i) => ir.has_pos(b as int, i as int) && m[b as int][i as int],
        _ => false,
    }
}

/// Every marked instruction not waiting in `work` has all its operands
/// that name instructions marked.
pub open spec fn marks_closed(ir: IrV, m: Seq<Seq<bool>>, work: Seq<(usize, usize)>) -> bool {
    forall|b: int, i: int, j: int|
        ir.has_pos(b, i) && m[b][i] && !work.contains((b as usize, i as usize)) && 0 <= j
            < ir.at(b, i).operands.len() && ir.instr(#[trigger] ir.at(b, i).operands[j]) is Some
            ==> marked(ir, m, ir.at(b, i).operands[j])
}

/// Every instruction waiting in `work` exists and is marked.
pub open spec fn work_marked(ir: IrV, m: Seq<Seq<bool>>, work: Seq<(usize, usize)>) -> bool {
    forall|t: int| 0 <= t < work.len() ==> ir.has_pos(#[trigger] work[t].0 as int, work[t].1 as int)
        && m[work[t].0 as int][work[t].1 as int]
}

/// Every root at or before `(b, i)` in block order is marked.
pub open spec fn roots_marked_upto(ir: IrV, m: Seq<Seq<bool>>, b: int, i: int) -> bool {
    forall|c: int, k: int|
        (c < b || (c == b && k < i)) && ir.has_pos(c, k) && is_root(ir, self_ref(c, k)) ==> #[trigger] m[c][k]
}

proof fn lemma_closed_mark(
    ir: IrV,
    m: Seq<Seq<bool>>,
    a: Seq<(usize, usize)>,
    w: Seq<(usize, usize)>,
    b: int,
    i: int,
)
    requires
        marks_fit(ir, m),
        ir.has_pos(b, i),
        marks_closed(ir, m, a),
        w.contains((b as usize, i as usize)),
        forall|y: (usize, usize)| a.contains(y) ==> w.contains(y),
    ensures
        marks_closed(ir, set_mark(m, b, i), w),
{
    let m1 = set_mark(m, b, i);
    assert forall|c: int, k: int, j: int|
        ir.has_pos(c, k) && m1[c][k] && !w.contains((c as usize, k as usize)) && 0 <= j
            < ir.at(c, k).operands.len() && ir.instr(#[trigger] ir.at(c, k).operands[j]) is Some
        implies marked(ir, m1, ir.at(c, k).operands[j]) by {
        if c == b && k == i {
            assert(w.contains((c as usize, k as usize)));
        }
        assert(m[c][k]);
        assert(!a.contains((c as usize, k as usize)));
        assert(marked(ir, m, ir.at(c, k).operands[j]));
    }
}

proof fn lemma_operand_live(ir: IrV, b: int, i: int, j: int)
    requires
        ir.has_pos(b, i),
        live(ir, self_ref(b, i)),
        0 <= j < ir.at(b, i).operands.len(),
    ensures
        live(ir, ir.at(b, i).operands[j]),
{
    let n = choose|n: nat| reaches(ir, self_ref(b, i), n);
    let q = self_ref(b, i);
    let r = ir.at(b, i).operands[j];
    assert(ir.instr(q) == Some(ir.at(b, i)));
    assert(target(ir, q).operands[j] == r);
    assert(operand_of(ir, q, r));
    assert(reaches(ir, q, ((n + 1) - 1) as nat));
    assert(reaches(ir, r, n + 1));
}

proof fn lemma_reaches_marked(ir: IrV, m: Seq<Seq<bool>>, r: Ref, n: nat)
    requires
        marks_fit(ir, m),
        marks_closed(ir, m, Seq::empty()),
        roots_marked_upto(ir, m, ir.blocks.len() as int, 0),
        reaches(ir, r, n),
        ir.instr(r) is Some,
    ensures
        marked(ir, m, r),
    decreases n,
{
    match r {
        Ref::Instr(b, i) => {
            if is_root(ir, r) {
                assert(ir.has_pos(b as int, i as int) && is_root(ir, self_ref(b as int, i as int)));
            } else {
                let q = choose|q: Ref| #[trigger] operand_of(ir, q, r) && reaches(ir, q, (n - 1) as nat);
                lemma_reaches_marked(ir, m, q, (n - 1) as nat);
                match q {
                    Ref::Instr(qb, qi) => {
                        let j = choose|j: int| 0 <= j < target(ir, q).operands.len() && #[trigger] target(ir, q).operands[j] == r;
                        assert(!Seq::<(usize, usize)>::empty().contains((qb, qi)));
                        assert(ir.at(qb as int, qi as int).operands[j] == r);
                    },
                    _ => {},
                }
            }
        },
        _ => {},
    }
}

/// Mark-and-sweep dead code elimination: instructions with side effects
/// and pinned ones are live, and so is every operand of a live
/// instruction; every other instruction of a block in place becomes a
/// `nop`. Unlike counting uses, this also removes dead cycles.
pub fn deadcode_elimination(ir: &mut IR)
    ensures
        final(ir)@ == dce_result(old(ir)@),
{
    let ghost g = ir@;
    let nb = ir.blocks.len();
    // one row of marks per block
    let mut marks: Vec<Vec<bool>> = Vec::new();
    let mut b: usize = 0;
    while b < nb
        invariant
            b <= nb,
            nb == g.blocks.len(),
            ir@ == g,
            marks@.len() == b,
            forall|c: int| 0 <= c < b ==> #[trigger] marks@[c]@.len() == g.blocks[c].instrs.len(),
            forall|c: int, i: int| 0 <= c < b && 0 <= i < marks@[c]@.len() ==> !#[trigger] marks@[c]@[i],
        decreases nb - b,
    {
        let n = ir.blocks[b].instrs.len();
        let mut row: Vec<bool> = Vec::new();
        let mut i: usize = 0;
        while i < n
            invariant
                i <= n,
                row@.len() == i,
                forall|k: int| 0 <= k < i ==> !#[trigger] row@[k],
            decreases n - i,
        {
            row.push(false);
            i = i + 1;
        }
        marks.push(row);
        b = b + 1;
    }
    proof {
        let m = mview(marks@);
        assert forall|c: int, i: int| g.has_pos(c, i) && #[trigger] m[c][i] implies live(g, self_ref(c, i)) by {
            assert(!marks@[c]@[i]);
        }
    }
    // the roots
    let mut work: Vec<(usize, usize)> = Vec::new();
    let mut b: usize = 0;
    while b < nb
        invariant
            b <= nb,
            nb == g.blocks.len(),
            ir@ == g,
            marks_fit(g, mview(marks@)),
            marks_sound(g, mview(marks@)),
            marks_closed(g, mview(marks@), work@),
            work_marked(g, mview(marks@), work@),
            roots_marked_upto(g, mview(marks@), b as int, 0),
        decreases nb - b,
    {
        let n = ir.blocks[b].instrs.len();
        let mut i: usize = 0;
        while i < n
            invariant
                i <= n,
                b < nb,
                nb == g.blocks.len(),
                n == g.blocks[b as int].instrs.len(),
                ir@ == g,
                marks_fit(g, mview(marks@)),
                marks_sound(g, mview(marks@)),
                marks_closed(g, mview(marks@), work@),
                work_marked(g, mview(marks@), work@),
                roots_marked_upto(g, mview(marks@), b as int, i as int),
            decreases n - i,
        {
            let x = ir.instr_at(b, i);
            let ghost m0 = mview(marks@);
            assert(m0[b as int] == marks@[b as int]@);
            if !ir.blocks[b].removed && (x.opcode.has_side_effects() || (x.attrs & Attribute::PIN) != 0)
                && !marks[b][i] {
                assert(is_root(g, self_ref(b as int, i as int)));
                assert(reaches(g, self_ref(b as int, i as int), 0));
                let ghost w0 = work@;
                marks[b].set(i, true);
                work.push((b, i));
                proof {
                    assert(mview(marks@) =~= set_mark(m0, b as int, i as int));
                    assert(work@.contains((b, i))) by {
                        assert(work@[w0.len() as int] == (b, i));
                    }
                    assert forall|y: (usize, usize)| w0.contains(y) implies work@.contains(y) by {
                        let t = choose|t: int| 0 <= t < w0.len() && w0[t] == y;
                        assert(work@[t] == y);
                    }
                    lemma_closed_mark(g, m0, w0, work@, b as int, i as int);
                }
            }
            i = i + 1;
        }
        b = b + 1;
    }
    // the closure
    while work.len() > 0
        invariant
            nb == g.blocks.len(),
            ir@ == g,
            marks_fit(g, mview(marks@)),
            marks_sound(g, mview(marks@)),
            marks_closed(g, mview(marks@), work@),
            work_marked(g, mview(marks@), work@),
            roots_marked_upto(g, mview(marks@), nb as int, 0),
        decreases 2 * total_false(mview(marks@)) + work@.len(),
    {
        let ghost measure = 2 * total_false(mview(marks@)) + work@.len();
        let ghost w_before = work@;
        let (b, i) = work.pop().unwrap();
        assert(work@.push((b, i)) =~= w_before);
        assert(g.has_pos(b as int, i as int) && mview(marks@)[b as int][i as int]) by {
            assert(w_before[w_before.len() - 1] == (b, i));
        }
        let x = ir.instr_at(b, i);
        let nops = x.operands.len();
        let mut j: usize = 0;
        while j < nops
            invariant
                j <= nops,
                nops == x@.operands.len(),
                g.has_pos(b as int, i as int),
                x@ == g.at(b as int, i as int),
                nb == g.blocks.len(),
                ir@ == g,
                marks_fit(g, mview(marks@)),
                marks_sound(g, mview(marks@)),
                mview(marks@)[b as int][i as int],
                marks_closed(g, mview(marks@), work@.push((b, i))),
                work_marked(g, mview(marks@), work@),
                roots_marked_upto(g, mview(marks@), nb as int, 0),
                forall|k: int| 0 <= k < j && g.instr(#[trigger] x@.operands[k]) is Some ==> marked(g, mview(marks@), x@.operands[k]),
                2 * total_false(mview(marks@)) + work@.len() < measure,
            decreases nops - j,
        {
            let o = x.operands[j];
            match o {
                Ref::Instr(ob, oi) => {
                    if ob < nb && oi < ir.blocks[ob].instrs.len() {
                        let ghost m0 = mview(marks@);
                        assert(m0[ob as int] == marks@[ob as int]@);
                        if !marks[ob][oi] {
                            proof {
                                lemma_operand_live(g, b as int, i as int, j as int);
                            }
                            let ghost w0 = work@;
                            marks[ob].set(oi, true);
                            work.push((ob, oi));
                            proof {
                                let m1 = set_mark(m0, ob as int, oi as int);
                                assert(mview(marks@) =~= m1);
                                lemma_count_false_set(m0[ob as int], oi as int);
                                lemma_total_false_set(m0, ob as int, m0[ob as int].update(oi as int, true));
                                assert(work@.push((b, i)).contains((ob, oi))) by {
                                    assert(work@.push((b, i))[w0.len() as int] == (ob, oi));
                                }
                                assert forall|y: (usize, usize)| w0.push((b, i)).contains(y) implies work@.push((b, i)).contains(y) by {
                                    let t = choose|t: int| 0 <= t < w0.push((b, i)).len() && w0.push((b, i))[t] == y;
                                    if t < w0.len() {
                                        assert(work@.push((b, i))[t] == y);
                                    } else {
                                        assert(work@.push((b, i))[work@.len() as int] == y);
                                    }
                                }
                                lemma_closed_mark(g, m0, w0.push((b, i)), work@.push((b, i)), ob as int, oi as int);
                                assert forall|t: int| 0 <= t < work@.len() implies g.has_pos(#[trigger] work@[t].0 as int, work@[t].1 as int)
                                    && m1[work@[t].0 as int][work@[t].1 as int] by {
                                    if t < w0.len() {
                                        assert(work@[t] == w0[t]);
                                    }
                                }
                            }
                        }
                    }
                },
                _ => {},
            }
            j = j + 1;
        }
        proof {
            let m = mview(marks@);
            assert forall|c: int, k: int, jj: int|
                g.has_pos(c, k) && m[c][k] && !work@.contains((c as usize, k as usize)) && 0 <= jj
                    < g.at(c, k).operands.len() && g.instr(#[trigger] g.at(c, k).operands[jj]) is Some
                implies marked(g, m, g.at(c, k).operands[jj]) by {
                if c == b && k == i {
                    assert(x@.operands[jj] == g.at(c, k).operands[jj]);
                } else {
                    assert(!work@.push((b, i)).contains((c as usize, k as usize))) by {
                        if work@.push((b, i)).contains((c as usize, k as usize)) {
                            let t = choose|t: int| 0 <= t < work@.push((b, i)).len() && work@.push((b, i))[t] == (c as usize, k as usize);
                            if t < work@.len() {
                                assert(work@[t] == (c as usize, k as usize));
                            }
                        }
                    }
                }
            }
        }
    }
    // every live instruction is marked
    proof {
        let m = mview(marks@);
        assert(work@ =~= Seq::<(usize, usize)>::empty());
        assert forall|c: int, k: int| g.has_pos(c, k) implies (#[trigger] m[c][k] <==> live(g, self_ref(c, k))) by {
            if live(g, self_ref(c, k)) {
                let n = choose|n: nat| reaches(g, self_ref(c, k), n);
                lemma_reaches_marked(g, m, self_ref(c, k), n);
            }
        }
    }
    // the sweep
    let ghost m = mview(marks@);
    proof {
        let s0 = swept_upto(g, 0, 0);
        assert forall|c: int| 0 <= c < g.blocks.len() implies s0.blocks[c] == g.blocks[c] by {
            if c == 0 && !g.blocks[c].removed {
                assert(s0.blocks[c].instrs =~= g.blocks[c].instrs);
            }
        }
        assert(s0.blocks =~= g.blocks);
    }
    let mut b: usize = 0;
    while b < nb
        invariant
            b <= nb,
            nb == g.blocks.len(),
            marks_fit(g, m),
            m == mview(marks@),
            forall|c: int, k: int| g.has_pos(c, k) ==> (#[trigger] m[c][k] <==> live(g, self_ref(c, k))),
            ir@ == swept_upto(g, b as int, 0),
        decreases nb - b,
    {
        assert(ir.blocks@.len() == ir@.blocks.len());
        assert(ir@.blocks[b as int] == ir.blocks@[b as int]@);
        if !ir.blocks[b].removed {
            let n = ir.blocks[b].instrs.len();
            assert(ir@.blocks[b as int] == swept_block(g, b as int, 0));
            assert(ir@.blocks[b as int].instrs.len() == ir.blocks@[b as int].instrs@.len());
            assert(n == g.blocks[b as int].instrs.len());
            let mut i: usize = 0;
            while i < n
                invariant
                    i <= n,
                    b < nb,
                    nb == g.blocks.len(),
                    n == g.blocks[b as int].instrs.len(),
                    !g.blocks[b as int].removed,
                    marks_fit(g, m),
                    m == mview(marks@),
                    forall|c: int, k: int| g.has_pos(c, k) ==> (#[trigger] m[c][k] <==> live(g, self_ref(c, k))),
                    ir@ == swept_upto(g, b as int, i as int),
                decreases n - i,
            {
                assert(m[b as int] == marks@[b as int]@);
                if !marks[b][i] {
                    ir.rewrite(b, i, Opcode::Nop, Vec::new());
                }
                proof {
                    assert(ir@.blocks[b as int].instrs =~= swept_upto(g, b as int, i as int + 1).blocks[b as int].instrs);
                    assert(ir@.blocks =~= swept_upto(g, b as int, i as int + 1).blocks);
                }
                i = i + 1;
            }
            proof {
                if b + 1 < nb {
                    lemma_swept_none(g, b as int + 1);
                }
                assert(ir@.blocks =~= swept_upto(g, b as int + 1, 0).blocks);
            }
        } else {
            proof {
                if b + 1 < nb {
                    lemma_swept_none(g, b as int + 1);
                }
                assert(ir@.blocks =~= swept_upto(g, b as int + 1, 0).blocks);
            }
        }
        b = b + 1;
    }
}


// ---------------------------------------------------------------------------
// The pipeline
// ---------------------------------------------------------------------------

/// A pass of `R` after a defined result.
pub open spec fn then<R: Rewrite>(o: Option<IrV>) -> Option<IrV> {
    match o {
        Some(ir) => pass::<R>(ir),
        None => None,
    }
}

/// One round of the local passes, in order. Reducing trivial ors after
/// simplifying branch conditions matters: the branch rewrite looks at the
/// `or` itself.
pub open spec fn opt_round(ir: IrV) -> Option<IrV> {
    let s1 = pass::<ReduceXor>(ir);
    let s2 = then::<ReduceMake32SignExt32>(s1);
    let s3 = then::<ReduceUpperLowerMake32>(s2);
    let s4 = then::<ReduceEqualZero32>(s3);
    let s5 = then::<ReducePhiSingleRef>(s4);
    let s6 = then::<ReducePhiCommonSubexpr>(s5);
    let s7 = then::<SimplifyBranchConds>(s6);
    let s8 = then::<SimplifySignConds>(s7);
    let s9 = then::<ReduceTrivialOr>(s8);
    let s10 = then::<SimplifyChainedComparisons>(s9);
    let s11 = then::<ConstantFolding>(s10);
    let s12 = then::<StackPtrAccumulation>(s11);
    let s13 = then::<ValuePropagation>(s12);
    let s14 = then::<CommonSubexpressionElimination>(s13);
    then::<ValuePropagation>(s14)
}

/// `n` rounds of the local passes.
pub open spec fn opt_rounds(ir: IrV, n: nat) -> Option<IrV>
    decreases n,
{
    if n == 0 {
        Some(ir)
    } else {
        match opt_rounds(ir, (n - 1) as nat) {
            Some(p) => opt_round(p),
            None => None,
        }
    }
}

/// The number of rounds of local passes.
pub const N_OPT_PASSES: usize = 5;

/// The function after the whole pipeline: dead blocks removed, the rounds
/// of local passes, and dead code removed.
pub open spec fn optimize_result(ir: IrV) -> Option<IrV> {
    match deadblock_result(ir) {
        Some(a) => match opt_rounds(a, N_OPT_PASSES as nat) {
            Some(c) => Some(dce_result(c)),
            None => None,
        },
        None => None,
    }
}

proof fn lemma_rounds_prefix(ir: IrV, n: nat, k: nat)
    requires
        k <= n,
        opt_rounds(ir, n) is Some,
    ensures
        opt_rounds(ir, k) is Some,
    decreases n,
{
    if n > k {
        lemma_rounds_prefix(ir, (n - 1) as nat, k);
    }
}

fn opt_round_exec(ir: &mut IR)
    requires
        opt_round(old(ir)@) is Some,
    ensures
        opt_round(old(ir)@) == Some(final(ir)@),
{
    reduce_xor(ir);
    reduce_make_32_signext_32(ir);
    reduce_upper_lower_make32(ir);
    reduce_equal_zero_32(ir);
    reduce_phi_single_ref(ir);
    reduce_phi_common_subexpr(ir);
    simplify_branch_conds(ir);
    simplify_sign_conds(ir);
    reduce_trivial_or(ir);
    simplify_chained_comparisons(ir);
    constant_folding(ir);
    stack_ptr_accumulation(ir);
    value_propagation(ir);
    common_subexpression_elimination(ir);
    value_propagation(ir);
}

/// Runs the optimisation pipeline: dead block elimination, five rounds of
/// the local passes, then dead code elimination.
pub fn optimize(ir: &mut IR)
    requires
        optimize_result(old(ir)@) is Some,
    ensures
        optimize_result(old(ir)@) == Some(final(ir)@),
{
    deadblock_elimination(ir);
    let ghost a = ir@;
    let mut k: usize = 0;
    while k < N_OPT_PASSES
        invariant
            k <= N_OPT_PASSES,
            opt_rounds(a, N_OPT_PASSES as nat) is Some,
            opt_rounds(a, k as nat) == Some(ir@),
        decreases N_OPT_PASSES - k,
    {
        proof {
            lemma_rounds_prefix(a, N_OPT_PASSES as nat, (k + 1) as nat);
        }
        opt_round_exec(ir);
        k = k + 1;
    }
    deadcode_elimination(ir);
}

// ---------------------------------------------------------------------------
// What the condition rewrites preserve
// ---------------------------------------------------------------------------

/// Whether the flags condition `op` holds on flags with the given zero,
/// sign, overflow and carry bits, as the 8086 conditional jumps test them.
pub open spec fn flags_condition(op: Opcode, zf: bool, sf: bool, of: bool, cf: bool) -> bool {
    match op {
        Opcode::EqFlags => zf,
        Opcode::NeqFlags => !zf,
        Opcode::GtFlags => !zf && sf == of,
        Opcode::GeqFlags => sf == of,
        Opcode::LtFlags => sf != of,
        Opcode::LeqFlags => zf || sf != of,
        Opcode::UGtFlags => !cf && !zf,
        Opcode::UGeqFlags => !cf,
        Opcode::ULtFlags => cf,
        Opcode::ULeqFlags => cf || zf,
        Opcode::SignFlags => sf,
        _ => false,
    }
}

/// Whether the one-operand test `op` holds of the `w`-bit value `x`.
pub open spec fn unary_test_holds(op: Opcode, w: nat, x: int) -> bool {
    match op {
        Opcode::Sign => x >= half(w),
        Opcode::NotSign => x < half(w),
        _ => false,
    }
}

/// Whether the comparison `op` holds of the `w`-bit values `x` and `y`
/// (signed for the plain ones, unsigned for the `U` ones; a sign test
/// looks at `x` alone).
pub open spec fn comparison_holds(op: Opcode, w: nat, x: int, y: int) -> bool {
    match op {
        Opcode::Eq => x == y,
        Opcode::Neq => x != y,
        Opcode::Gt => signed(x, w) > signed(y, w),
        Opcode::Geq => signed(x, w) >= signed(y, w),
        Opcode::Lt => signed(x, w) < signed(y, w),
        Opcode::Leq => signed(x, w) <= signed(y, w),
        Opcode::UGt => x > y,
        Opcode::UGeq => x >= y,
        Opcode::ULt => x < y,
        Opcode::ULeq => x <= y,
        _ => unary_test_holds(op, w, x),
    }
}

/// A rewritten branch condition means what the flags condition meant. For
/// `cmp a, b` (a subtraction) with values `x` and `y`, the comparison of
/// `a` and `b` holds exactly when the flags condition holds on the flags of
/// `x - y` (ZF: the difference is zero; SF: its top bit; OF: the signed
/// difference does not fit; CF: a borrow). For `test` (an and) or `or`
/// with result `r`, which clear CF and OF, the test of `r` against zero
/// holds exactly when the flags condition holds on the flags of `r`. The
/// comparison of a subtraction is always found.
pub proof fn lemma_branch_rewrite_meaning(xop: Opcode, pred: InstrV, p: Ref, z: Ref, w: nat, x: int, y: int, r: int)
    requires
        w == 8 || w == 16,
        0 <= x < modulus(w),
        0 <= y < modulus(w),
        0 <= r < modulus(w),
        flags_comparison(xop) is Some,
        pred.opcode == Opcode::Sub ==> pred.operands.len() >= 2,
    ensures
        pred.opcode == Opcode::Sub ==> branch_rewrite(pred, p, flags_comparison(xop).unwrap(), z) is Some,
        match branch_rewrite(pred, p, flags_comparison(xop).unwrap(), z) {
            Some((c, ops)) => {
                let d = if x >= y { x - y } else { x - y + modulus(w) };
                &&& (pred.opcode == Opcode::Sub ==> ops == seq![pred.operands[0], pred.operands[1]]
                    && comparison_holds(c, w, x, y) == flags_condition(
                    xop,
                    d == 0,
                    d >= half(w),
                    signed(x, w) - signed(y, w) != signed(d, w),
                    x < y,
                ))
                &&& (pred.opcode != Opcode::Sub ==> (pred.opcode == Opcode::And || pred.opcode == Opcode::Or)
                    && ops == seq![p, z] && comparison_holds(c, w, r, 0) == flags_condition(
                    xop,
                    r == 0,
                    r >= half(w),
                    false,
                    false,
                ))
            },
            None => true,
        },
{
    assert(modulus(w) == 2 * half(w));
    assert(signed(0, w) == 0);
}

/// A flags condition on a flags update of a subtraction, an and or an or
/// is rewritten in place to a condition that means the same for all
/// values: after `cmp a, b` it compares `a` and `b`, holding exactly when
/// the flags condition holds on the flags of their difference; after
/// `test` or `or` it tests the result against a new constant zero, holding
/// exactly when the flags condition holds on the flags of the result.
pub proof fn lemma_branch_conds_step(ir: IrV, b: int, i: int)
    requires
        ir.has_pos(b, i),
        SimplifyBranchConds::ok(ir, b, i),
        ir.consts.len() < usize::MAX,
        flags_comparison(ir.at(b, i).opcode) is Some,
        target(ir, ir.at(b, i).operands[0]).opcode == Opcode::UpdateFlags,
    ensures
        ({
            let x = ir.at(b, i);
            let u = target(ir, x.operands[0]);
            let pred = target(ir, u.operands[1]);
            let s = SimplifyBranchConds::step(ir, b, i);
            let y = s.blocks[b].instrs[i];
            &&& pred.opcode == Opcode::Sub ==> y.operands == seq![pred.operands[0], pred.operands[1]] && y.typ == x.typ
                && forall|w: nat, v1: int, v2: int|
                (w == 8 || w == 16) && 0 <= v1 < modulus(w) && 0 <= v2 < modulus(w) ==> #[trigger] comparison_holds(
                    y.opcode,
                    w,
                    v1,
                    v2,
                ) == flags_condition(
                    x.opcode,
                    (if v1 >= v2 { v1 - v2 } else { v1 - v2 + modulus(w) }) == 0,
                    (if v1 >= v2 { v1 - v2 } else { v1 - v2 + modulus(w) }) >= half(w),
                    signed(v1, w) - signed(v2, w) != signed(
                        if v1 >= v2 { v1 - v2 } else { v1 - v2 + modulus(w) },
                        w,
                    ),
                    v1 < v2,
                )
            &&& pred.opcode != Opcode::Sub && s != ir ==> (pred.opcode == Opcode::And || pred.opcode == Opcode::Or)
                && y.operands == seq![u.operands[1], ir.next_const()] && s.const_value(ir.next_const()) == Some(0i16)
                && y.typ == x.typ && forall|w: nat, v: int|
                (w == 8 || w == 16) && 0 <= v < modulus(w) ==> #[trigger] comparison_holds(y.opcode, w, v, 0)
                    == flags_condition(x.opcode, v == 0, v >= half(w), false, false)
        }),
{
    let x = ir.at(b, i);
    let u = target(ir, x.operands[0]);
    let p = u.operands[1];
    let pred = target(ir, p);
    let z = ir.next_const();
    let c = flags_comparison(x.opcode).unwrap();
    let s = SimplifyBranchConds::step(ir, b, i);
    let y = s.blocks[b].instrs[i];
    if pred.opcode == Opcode::Sub {
        lemma_branch_rewrite_meaning(x.opcode, pred, p, z, 8, 0, 0, 0);
        assert(s == ir.with_instr(b, i, rewritten(x, c, seq![pred.operands[0], pred.operands[1]])));
        assert(y == rewritten(x, c, seq![pred.operands[0], pred.operands[1]]));
        assert forall|w: nat, v1: int, v2: int|
            (w == 8 || w == 16) && 0 <= v1 < modulus(w) && 0 <= v2 < modulus(w) implies #[trigger] comparison_holds(
            y.opcode,
            w,
            v1,
            v2,
        ) == flags_condition(
            x.opcode,
            (if v1 >= v2 { v1 - v2 } else { v1 - v2 + modulus(w) }) == 0,
            (if v1 >= v2 { v1 - v2 } else { v1 - v2 + modulus(w) }) >= half(w),
            signed(v1, w) - signed(v2, w) != signed(if v1 >= v2 { v1 - v2 } else { v1 - v2 + modulus(w) }, w),
            v1 < v2,
        ) by {
            lemma_branch_rewrite_meaning(x.opcode, pred, p, z, w, v1, v2, 0);
        }
    } else if s != ir {
        lemma_branch_rewrite_meaning(x.opcode, pred, p, z, 8, 0, 0, 0);
        assert(branch_rewrite(pred, p, c, z) is Some);
        let (op, ops) = branch_rewrite(pred, p, c, z).unwrap();
        assert(s == ir.with_const(0).with_instr(b, i, rewritten(x, op, ops)));
        assert(y == rewritten(x, op, ops));
        assert(s.consts == ir.consts.push(0i16));
        assert(s.const_value(z) == Some(0i16));
        assert forall|w: nat, v: int|
            (w == 8 || w == 16) && 0 <= v < modulus(w) implies #[trigger] comparison_holds(y.opcode, w, v, 0)
            == flags_condition(x.opcode, v == 0, v >= half(w), false, false) by {
            lemma_branch_rewrite_meaning(x.opcode, pred, p, z, w, 0, 0, v);
        }
    }
}

/// A sign-flag test of a flags update becomes a one-operand test of the
/// updated value that holds exactly when that value's sign bit (the sign
/// flag the update computes) is set, for every value of any width.
pub proof fn lemma_sign_conds_meaning(ir: IrV, b: int, i: int, w: nat, v: int)
    requires
        ir.has_pos(b, i),
        SimplifySignConds::ok(ir, b, i),
        ir.at(b, i).opcode == Opcode::SignFlags,
        target(ir, ir.at(b, i).operands[0]).opcode == Opcode::UpdateFlags,
        w == 8 || w == 16,
        0 <= v < modulus(w),
    ensures
        ({
            let x = ir.at(b, i);
            let y = SimplifySignConds::step(ir, b, i).at(b, i);
            &&& y.operands == seq![target(ir, x.operands[0]).operands[1]]
            &&& y.typ == x.typ
            &&& unary_test_holds(y.opcode, w, v) == flags_condition(x.opcode, v == 0, v >= half(w), false, false)
        }),
{
}

/// The branch-condition rewrite touches nothing but flags conditions on
/// flags updates of a subtraction, an and or an or.
pub proof fn lemma_branch_conds_only_flag_tests(ir: IrV, b: int, i: int)
    requires
        ir.has_pos(b, i),
    ensures
        ({
            let x = ir.at(b, i);
            let u = target(ir, x.operands[0]);
            let pred = target(ir, u.operands[1]);
            !(x.opcode == Opcode::EqFlags || x.opcode == Opcode::NeqFlags || x.opcode == Opcode::GtFlags || x.opcode
                == Opcode::GeqFlags || x.opcode == Opcode::LtFlags || x.opcode == Opcode::LeqFlags || x.opcode
                == Opcode::UGtFlags || x.opcode == Opcode::UGeqFlags || x.opcode == Opcode::ULtFlags || x.opcode
                == Opcode::ULeqFlags) || u.opcode != Opcode::UpdateFlags || !(pred.opcode == Opcode::Sub
                || pred.opcode == Opcode::And || pred.opcode == Opcode::Or) ==> SimplifyBranchConds::step(ir, b, i) == ir
        }),
{
}

/// The sign-condition rewrite touches nothing but sign-flag tests of
/// flags updates.
pub proof fn lemma_sign_conds_only_sign_tests(ir: IrV, b: int, i: int)
    requires
        ir.has_pos(b, i),
    ensures
        ir.at(b, i).opcode != Opcode::SignFlags || target(ir, ir.at(b, i).operands[0]).opcode != Opcode::UpdateFlags
            ==> SimplifySignConds::step(ir, b, i) == ir,
{
}

/// The position of the instruction equal to `x` that the scan finds lies
/// among the first `n`, and holds `x`.
proof fn lemma_first_equal_found(ir: IrV, b: int, x: InstrV, n: nat)
    requires
        first_equal(ir, b, x, n) is Some,
    ensures
        0 <= first_equal(ir, b, x, n).unwrap() < n,
        ir.at(b, first_equal(ir, b, x, n).unwrap()) == x,
    decreases n,
{
    if n > 0 && first_equal(ir, b, x, (n - 1) as nat) is Some {
        lemma_first_equal_found(ir, b, x, (n - 1) as nat);
    }
}

/// The scan finds the first instruction among the first `n` that equals
/// `x` whenever there is one.
proof fn lemma_first_equal_first(ir: IrV, b: int, x: InstrV, n: nat, j: int)
    requires
        0 <= j < n,
        ir.at(b, j) == x,
    ensures
        first_equal(ir, b, x, n) is Some,
        forall|k: int| 0 <= k < first_equal(ir, b, x, n).unwrap() ==> ir.at(b, k) != x,
    decreases n,
{
    if j < n - 1 {
        lemma_first_equal_first(ir, b, x, (n - 1) as nat, j);
    } else if first_equal(ir, b, x, (n - 1) as nat) is Some {
        lemma_first_equal_found(ir, b, x, (n - 1) as nat);
        let k0 = first_equal(ir, b, x, (n - 1) as nat).unwrap();
        lemma_first_equal_first(ir, b, x, (n - 1) as nat, k0);
    } else {
        assert forall|k: int| 0 <= k < n - 1 implies ir.at(b, k) != x by {
            if ir.at(b, k) == x {
                lemma_first_equal_first(ir, b, x, (n - 1) as nat, k);
            }
        }
    }
}

/// The arithmetic, comparison and flags computations: operations whose
/// value depends on their operands alone.
pub open spec fn pure_computation(op: Opcode) -> bool {
    ||| op == Opcode::Add || op == Opcode::Sub || op == Opcode::Shl || op == Opcode::Shr || op == Opcode::UShr
    ||| op == Opcode::And || op == Opcode::Or || op == Opcode::Xor || op == Opcode::IMul || op == Opcode::UMul
    ||| op == Opcode::IDiv || op == Opcode::UDiv || op == Opcode::Neg || op == Opcode::SignExtTo32
    ||| op == Opcode::Lower16 || op == Opcode::Upper16 || op == Opcode::Make32 || op == Opcode::UpdateFlags
    ||| op == Opcode::EqFlags || op == Opcode::NeqFlags || op == Opcode::GtFlags || op == Opcode::GeqFlags
    ||| op == Opcode::LtFlags || op == Opcode::LeqFlags || op == Opcode::UGtFlags || op == Opcode::UGeqFlags
    ||| op == Opcode::ULtFlags || op == Opcode::ULeqFlags
    ||| op == Opcode::Eq || op == Opcode::Neq || op == Opcode::Gt || op == Opcode::Geq || op == Opcode::Lt
    ||| op == Opcode::Leq || op == Opcode::UGt || op == Opcode::UGeq || op == Opcode::ULt || op == Opcode::ULeq
}

/// Common subexpression elimination touches no memory access, no
/// side effect and no join: a load, a variable read, a store, a variable
/// write, a call, a jump, a return, a phi, a no-op or a reference is left
/// as it is. Whatever it does rewrite becomes a reference to an earlier
/// instruction of the same block that is identical to it; and a pure
/// computation (see `pure_computation`) that repeats an earlier one of its
/// block becomes a reference to the first of them.
pub proof fn lemma_cse_merges_pure_repeats(ir: IrV, b: int, i: int)
    requires
        ir.has_pos(b, i),
    ensures
        ({
            let x = ir.at(b, i);
            &&& (x.opcode == Opcode::Load16 || x.opcode == Opcode::ReadVar16 || x.opcode == Opcode::Store16
                || x.opcode == Opcode::WriteVar16 || x.opcode == Opcode::Call || x.opcode == Opcode::Jmp
                || x.opcode == Opcode::Jne || x.opcode == Opcode::Ret || x.opcode == Opcode::Phi || x.opcode
                == Opcode::Nop || x.opcode == Opcode::Ref) ==> CommonSubexpressionElimination::step(ir, b, i)
                == ir
            &&& CommonSubexpressionElimination::step(ir, b, i) == ir || exists|j: int|
                0 <= j < i && ir.at(b, j) == x && CommonSubexpressionElimination::step(ir, b, i) == ir.with_instr(
                    b,
                    i,
                    rewritten(x, Opcode::Ref, seq![Ref::Instr(b as usize, j as usize)]),
                )
            &&& (pure_computation(x.opcode) && exists|j: int| 0 <= j < i && ir.at(b, j) == x) ==> exists|j: int|
                0 <= j < i && ir.at(b, j) == x && (forall|k: int| 0 <= k < j ==> ir.at(b, k) != x)
                    && CommonSubexpressionElimination::step(ir, b, i) == ir.with_instr(
                    b,
                    i,
                    rewritten(x, Opcode::Ref, seq![Ref::Instr(b as usize, j as usize)]),
                )
        }),
{
    let x = ir.at(b, i);
    if pure_computation(x.opcode) && exists|j: int| 0 <= j < i && ir.at(b, j) == x {
        let j0 = choose|j: int| 0 <= j < i && ir.at(b, j) == x;
        lemma_first_equal_first(ir, b, x, i as nat, j0);
    }
    if cse_allowed(x.opcode) && first_equal(ir, b, x, i as nat) is Some {
        lemma_first_equal_found(ir, b, x, i as nat);
        let j = first_equal(ir, b, x, i as nat).unwrap();
        assert(self_ref(b, j) == Ref::Instr(b as usize, j as usize));
    }
}

} // verus!
