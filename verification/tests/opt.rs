use dis86::ir::{Attribute, BlockRef, Instr, Opcode, Ref, Type, IR};
use dis86::opt::{
    common_subexpression_elimination, constant_folding, deadblock_elimination,
    deadcode_elimination, forward_store_to_load, optimize, reduce_phi_single_ref, reduce_xor,
    simplify_branch_conds, simplify_chained_comparisons, stack_ptr_accumulation,
    value_propagation,
};

fn test_ir() -> (IR, BlockRef) {
    let mut ir = IR::new();
    let blk = ir.add_block("entry");
    (ir, blk)
}

fn append_typed(ir: &mut IR, blk: BlockRef, typ: Type, opcode: Opcode, operands: Vec<Ref>) -> Ref {
    ir.block_instr_append(blk, Instr { typ, attrs: Attribute::NONE, opcode, operands })
}

fn append(ir: &mut IR, blk: BlockRef, opcode: Opcode, operands: Vec<Ref>) -> Ref {
    append_typed(ir, blk, Type::U16, opcode, operands)
}

#[test]
fn chained_comparison_inverts_eq_zero_and_preserves_neq_zero() {
    let pairs = [
        (Opcode::Eq, Opcode::Neq),
        (Opcode::Neq, Opcode::Eq),
        (Opcode::Gt, Opcode::Leq),
        (Opcode::Geq, Opcode::Lt),
        (Opcode::Lt, Opcode::Geq),
        (Opcode::Leq, Opcode::Gt),
        (Opcode::UGt, Opcode::ULeq),
        (Opcode::UGeq, Opcode::ULt),
        (Opcode::ULt, Opcode::UGeq),
        (Opcode::ULeq, Opcode::UGt),
    ];

    for (inner_op, inverse_op) in pairs {
        for (outer_op, expected_op) in [(Opcode::Eq, inverse_op), (Opcode::Neq, inner_op)] {
            let (mut ir, blk) = test_ir();
            let x = ir.const_new(5);
            let zero = ir.const_new(0);
            let inner = append(&mut ir, blk, inner_op, vec![x, zero]);
            let outer = append(&mut ir, blk, outer_op, vec![inner, zero]);

            simplify_chained_comparisons(&mut ir);

            let instr = ir.instr(outer).unwrap();
            assert_eq!(instr.opcode, expected_op);
            assert_eq!(instr.operands, vec![x, zero]);
        }
    }
}

#[test]
fn chained_comparison_requires_zero_on_both_rhs_operands() {
    for (inner_rhs_val, outer_rhs_val) in [(1, 0), (0, 1)] {
        let (mut ir, blk) = test_ir();
        let x = ir.const_new(5);
        let inner_rhs = ir.const_new(inner_rhs_val);
        let outer_rhs = ir.const_new(outer_rhs_val);
        let inner = append(&mut ir, blk, Opcode::Eq, vec![x, inner_rhs]);
        let outer = append(&mut ir, blk, Opcode::Eq, vec![inner, outer_rhs]);

        simplify_chained_comparisons(&mut ir);

        let instr = ir.instr(outer).unwrap();
        assert_eq!(instr.opcode, Opcode::Eq);
        assert_eq!(instr.operands, vec![inner, outer_rhs]);
    }
}

#[test]
fn chained_comparison_skips_malformed_inner_arity() {
    for operands_len in [0, 1, 3] {
        let (mut ir, blk) = test_ir();
        let zero = ir.const_new(0);
        let mut operands = vec![zero; operands_len];
        if operands_len >= 2 {
            operands[1] = zero;
        }
        let inner = append(&mut ir, blk, Opcode::Eq, operands);
        let outer = append(&mut ir, blk, Opcode::Eq, vec![inner, zero]);

        simplify_chained_comparisons(&mut ir);

        let instr = ir.instr(outer).unwrap();
        assert_eq!(instr.opcode, Opcode::Eq);
        assert_eq!(instr.operands, vec![inner, zero]);
    }
}

#[test]
fn constant_folding_folds_word_arithmetic_and_bitwise_ops() {
    let cases = [
        (Opcode::Add, 0x7fff, 1, i16::MIN),
        (Opcode::Sub, i16::MIN, 1, i16::MAX),
        (Opcode::And, -1, 0x00ff, 0x00ff),
        (Opcode::Or, 0x0f00, 0x00f0, 0x0ff0),
        (Opcode::Xor, 0x0ff0, 0x00ff, 0x0f0f),
    ];

    for typ in [Type::U16, Type::I16] {
        for (opcode, lhs_val, rhs_val, expected) in cases {
            let (mut ir, blk) = test_ir();
            let lhs = ir.const_new(lhs_val);
            let rhs = ir.const_new(rhs_val);
            let folded = append_typed(&mut ir, blk, typ.clone(), opcode, vec![lhs, rhs]);

            constant_folding(&mut ir);

            let instr = ir.instr(folded).unwrap();
            assert_eq!(instr.opcode, Opcode::Ref);
            assert_eq!(ir.const_lookup(instr.operands[0]), Some(expected));
            assert_eq!(instr.typ, typ);
        }
    }
}

#[test]
fn constant_folding_folds_signed_and_unsigned_comparisons() {
    let cases = [
        (Opcode::Eq, -1, -1, 1),
        (Opcode::Neq, -1, 0, 1),
        (Opcode::Lt, -1, 0, 1),
        (Opcode::Leq, 0, 0, 1),
        (Opcode::Gt, -1, 0, 0),
        (Opcode::Geq, 0, -1, 1),
        (Opcode::ULt, -1, 0, 0),
        (Opcode::ULeq, 0, 0, 1),
        (Opcode::UGt, -1, 0, 1),
        (Opcode::UGeq, 0, -1, 0),
    ];

    for typ in [Type::U8, Type::U16] {
        for (opcode, lhs_val, rhs_val, expected) in cases {
            let (mut ir, blk) = test_ir();
            let lhs = ir.const_new(lhs_val);
            let rhs = ir.const_new(rhs_val);
            let folded = append_typed(&mut ir, blk, typ.clone(), opcode, vec![lhs, rhs]);

            constant_folding(&mut ir);

            let instr = ir.instr(folded).unwrap();
            assert_eq!(instr.opcode, Opcode::Ref);
            assert_eq!(ir.const_lookup(instr.operands[0]), Some(expected));
            assert_eq!(instr.typ, typ);
        }
    }
}

#[test]
fn constant_folding_skips_width_sensitive_arithmetic() {
    for typ in [Type::U8, Type::I8, Type::U32, Type::I32, Type::Unknown] {
        let (mut ir, blk) = test_ir();
        let lhs = ir.const_new(1);
        let rhs = ir.const_new(2);
        let op = append_typed(&mut ir, blk, typ.clone(), Opcode::Add, vec![lhs, rhs]);

        constant_folding(&mut ir);

        let instr = ir.instr(op).unwrap();
        assert_eq!(instr.opcode, Opcode::Add);
        assert_eq!(instr.typ, typ);
    }
}

#[test]
fn constant_folding_leaves_shifts_and_multiplication_for_separate_width_rules() {
    for opcode in [Opcode::Shl, Opcode::Shr, Opcode::UShr, Opcode::IMul, Opcode::UMul] {
        let (mut ir, blk) = test_ir();
        let lhs = ir.const_new(3);
        let rhs = ir.const_new(2);
        let op = append(&mut ir, blk, opcode, vec![lhs, rhs]);

        constant_folding(&mut ir);

        assert_eq!(ir.instr(op).unwrap().opcode, opcode);
    }
}

#[test]
fn constant_folding_requires_exact_binary_arity() {
    for operands_len in [0, 1, 3] {
        let (mut ir, blk) = test_ir();
        let zero = ir.const_new(0);
        let op = append(&mut ir, blk, Opcode::Add, vec![zero; operands_len]);

        constant_folding(&mut ir);

        assert_eq!(ir.instr(op).unwrap().opcode, Opcode::Add);
    }
}

#[test]
fn chained_comparison_skips_non_comparison_inner_opcode() {
    let (mut ir, blk) = test_ir();
    let x = ir.const_new(5);
    let zero = ir.const_new(0);
    let inner = append(&mut ir, blk, Opcode::Add, vec![x, zero]);
    let outer = append(&mut ir, blk, Opcode::Eq, vec![inner, zero]);

    simplify_chained_comparisons(&mut ir);

    let instr = ir.instr(outer).unwrap();
    assert_eq!(instr.opcode, Opcode::Eq);
    assert_eq!(instr.operands, vec![inner, zero]);
}

#[test]
fn xor_of_equal_operands_becomes_zero() {
    let (mut ir, blk) = test_ir();
    let t = Ref::Init(0);
    let u = Ref::Init(1);
    let same = append(&mut ir, blk, Opcode::Xor, vec![t, t]);
    let different = append(&mut ir, blk, Opcode::Xor, vec![t, u]);

    reduce_xor(&mut ir);

    let instr = ir.instr(same).unwrap();
    assert_eq!(instr.opcode, Opcode::Ref);
    assert_eq!(ir.const_lookup(instr.operands[0]), Some(0));
    assert_eq!(ir.instr(different).unwrap().opcode, Opcode::Xor);
}

#[test]
fn value_propagation_follows_reference_chains() {
    let (mut ir, blk) = test_ir();
    let t = Ref::Init(3);
    let a = append(&mut ir, blk, Opcode::Ref, vec![t]);
    let b = append(&mut ir, blk, Opcode::Ref, vec![a]);
    let c = append(&mut ir, blk, Opcode::Neg, vec![b]);

    value_propagation(&mut ir);

    assert_eq!(ir.instr(c).unwrap().operands, vec![t]);
    assert_eq!(ir.instr(b).unwrap().operands, vec![t]);
}

#[test]
fn phi_of_itself_and_one_value_becomes_a_reference() {
    let (mut ir, blk) = test_ir();
    let t = Ref::Init(2);
    let phi_ref = Ref::Instr(blk.0, 0);
    let phi = append(&mut ir, blk, Opcode::Phi, vec![phi_ref, t, t, phi_ref]);
    assert_eq!(phi, phi_ref);

    reduce_phi_single_ref(&mut ir);

    let instr = ir.instr(phi).unwrap();
    assert_eq!(instr.opcode, Opcode::Ref);
    assert_eq!(instr.operands, vec![t]);
}

#[test]
fn cse_refers_repeated_computation_to_the_first() {
    let (mut ir, blk) = test_ir();
    let t = Ref::Init(0);
    let u = Ref::Init(1);
    let first = append(&mut ir, blk, Opcode::Add, vec![t, u]);
    let second = append(&mut ir, blk, Opcode::Add, vec![t, u]);
    let other = append(&mut ir, blk, Opcode::Sub, vec![t, u]);

    common_subexpression_elimination(&mut ir);

    assert_eq!(ir.instr(first).unwrap().opcode, Opcode::Add);
    let instr = ir.instr(second).unwrap();
    assert_eq!(instr.opcode, Opcode::Ref);
    assert_eq!(instr.operands, vec![first]);
    assert_eq!(ir.instr(other).unwrap().opcode, Opcode::Sub);
}

#[test]
fn load_after_store_reads_the_stored_value() {
    let (mut ir, blk) = test_ir();
    let seg = Ref::Init(10);
    let off = Ref::Init(11);
    let v1 = Ref::Init(1);
    let v2 = Ref::Init(2);
    append(&mut ir, blk, Opcode::Store16, vec![seg, off, v1]);
    append(&mut ir, blk, Opcode::Store16, vec![seg, off, v2]);
    let load = append(&mut ir, blk, Opcode::Load16, vec![seg, off]);

    forward_store_to_load(&mut ir);

    let instr = ir.instr(load).unwrap();
    assert_eq!(instr.opcode, Opcode::Ref);
    assert_eq!(instr.operands, vec![v2]);
}

#[test]
fn stack_pointer_adjustments_accumulate() {
    let (mut ir, blk) = test_ir();
    let sp = Ref::Init(7);
    let k4 = ir.const_new(4);
    let k6 = ir.const_new(6);
    let a = ir.block_instr_append(
        blk,
        Instr { typ: Type::U16, attrs: Attribute::STACK_PTR, opcode: Opcode::Sub, operands: vec![sp, k6] },
    );
    let b = ir.block_instr_append(
        blk,
        Instr { typ: Type::U16, attrs: Attribute::STACK_PTR, opcode: Opcode::Add, operands: vec![a, k4] },
    );

    stack_ptr_accumulation(&mut ir);

    let instr = ir.instr(b).unwrap();
    assert_eq!(instr.opcode, Opcode::Sub);
    assert_eq!(instr.operands[0], sp);
    assert_eq!(ir.const_lookup(instr.operands[1]), Some(2));
}

#[test]
fn branch_on_compare_becomes_comparison() {
    let (mut ir, blk) = test_ir();
    let a = Ref::Init(0);
    let b = Ref::Init(1);
    let flags = Ref::Init(13);
    let sub = append(&mut ir, blk, Opcode::Sub, vec![a, b]);
    let upd = append(&mut ir, blk, Opcode::UpdateFlags, vec![flags, sub]);
    let cond = append(&mut ir, blk, Opcode::GtFlags, vec![upd]);

    simplify_branch_conds(&mut ir);

    let instr = ir.instr(cond).unwrap();
    assert_eq!(instr.opcode, Opcode::Gt);
    assert_eq!(instr.operands, vec![a, b]);
}

#[test]
fn dead_code_is_removed_and_side_effects_kept() {
    let (mut ir, blk) = test_ir();
    let t = Ref::Init(0);
    let used = append(&mut ir, blk, Opcode::Neg, vec![t]);
    let unused = append(&mut ir, blk, Opcode::Neg, vec![t]);
    let ret = append(&mut ir, blk, Opcode::Ret, vec![used]);

    deadcode_elimination(&mut ir);

    assert_eq!(ir.instr(used).unwrap().opcode, Opcode::Neg);
    let instr = ir.instr(unused).unwrap();
    assert_eq!(instr.opcode, Opcode::Nop);
    assert!(instr.operands.is_empty());
    assert_eq!(ir.instr(ret).unwrap().opcode, Opcode::Ret);
}

#[test]
fn dead_cycles_are_removed() {
    let (mut ir, blk) = test_ir();
    let p0 = Ref::Instr(blk.0, 0);
    let p1 = Ref::Instr(blk.0, 1);
    append(&mut ir, blk, Opcode::Phi, vec![p1]);
    append(&mut ir, blk, Opcode::Phi, vec![p0]);
    append(&mut ir, blk, Opcode::Ret, vec![]);

    deadcode_elimination(&mut ir);

    assert_eq!(ir.instr(p0).unwrap().opcode, Opcode::Nop);
    assert_eq!(ir.instr(p1).unwrap().opcode, Opcode::Nop);
}

#[test]
fn dead_block_is_unlinked_and_removed() {
    let mut ir = IR::new();
    let entry = ir.add_block("entry");
    let dead = ir.add_block("dead");
    let join = ir.add_block("join");
    ir.block_add_pred(join, entry);
    ir.block_add_pred(join, dead);
    append(&mut ir, entry, Opcode::Jmp, vec![Ref::Block(join.0)]);
    append(&mut ir, dead, Opcode::Jmp, vec![Ref::Block(join.0)]);
    let phi = append(&mut ir, join, Opcode::Phi, vec![Ref::Init(1), Ref::Init(2)]);

    deadblock_elimination(&mut ir);

    assert!(ir.blocks[dead.0].removed);
    assert!(!ir.blocks[entry.0].removed);
    assert_eq!(ir.blocks[join.0].preds, vec![entry]);
    assert_eq!(ir.instr(phi).unwrap().operands, vec![Ref::Init(1)]);
}

#[test]
fn optimize_folds_and_cleans_up() {
    let (mut ir, blk) = test_ir();
    let t = Ref::Init(0);
    let x = append(&mut ir, blk, Opcode::Xor, vec![t, t]);
    let y = append(&mut ir, blk, Opcode::Neg, vec![t]);
    let ret = append(&mut ir, blk, Opcode::Ret, vec![x]);

    optimize(&mut ir);

    let r = ir.instr(ret).unwrap();
    assert_eq!(r.opcode, Opcode::Ret);
    assert_eq!(ir.const_lookup(r.operands[0]), Some(0));
    assert_eq!(ir.instr(y).unwrap().opcode, Opcode::Nop);
}
