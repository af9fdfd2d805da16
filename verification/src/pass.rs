use vstd::prelude::*;
use crate::ir::{IR, IrV};

verus! {

/// A local rewrite: what a pass does at one instruction, given the function
/// as the earlier instructions of the pass left it. `ok` says when the
/// rewrite is defined (the operands it reads exist); `step` is the function
/// after it.
pub trait Rewrite {
    spec fn ok(ir: IrV, b: int, i: int) -> bool;

    spec fn step(ir: IrV, b: int, i: int) -> IrV;

    /// A rewrite changes instructions in place: no block or instruction is
    /// added or removed.
    proof fn lemma_step_shape(ir: IrV, b: int, i: int)
        requires
            ir.has_pos(b, i),
            !ir.blocks[b].removed,
            Self::ok(ir, b, i),
        ensures
            Self::step(ir, b, i).same_shape(ir),
    ;

    fn apply(ir: &mut IR, b: usize, i: usize)
        requires
            old(ir)@.has_pos(b as int, i as int),
            !old(ir)@.blocks[b as int].removed,
            Self::ok(old(ir)@, b as int, i as int),
        ensures
            final(ir)@ == Self::step(old(ir)@, b as int, i as int),
    ;
}

/// The function after rewriting the first `n` instructions of block `b` in
/// order, or `None` when a rewrite on the way is undefined.
pub open spec fn fold_instrs<R: Rewrite>(ir: IrV, b: int, n: nat) -> Option<IrV>
    decreases n,
{
    if n == 0 {
        Some(ir)
    } else {
        match fold_instrs::<R>(ir, b, (n - 1) as nat) {
            Some(p) => if R::ok(p, b, n - 1) {
                Some(R::step(p, b, n - 1))
            } else {
                None
            },
            None => None,
        }
    }
}

/// The function after rewriting every instruction of the first `nb` blocks
/// still in place, block by block.
pub open spec fn fold_blocks<R: Rewrite>(ir: IrV, nb: nat) -> Option<IrV>
    decreases nb,
{
    if nb == 0 {
        Some(ir)
    } else {
        match fold_blocks::<R>(ir, (nb - 1) as nat) {
            Some(p) => if p.blocks[nb - 1].removed {
                Some(p)
            } else {
                fold_instrs::<R>(p, nb - 1, p.blocks[nb - 1].instrs.len())
            },
            None => None,
        }
    }
}

/// The function after a whole pass of the rewrite `R`, or `None` when it is
/// undefined somewhere.
pub open spec fn pass<R: Rewrite>(ir: IrV) -> Option<IrV> {
    fold_blocks::<R>(ir, ir.blocks.len())
}

proof fn lemma_same_shape_trans(a: IrV, b: IrV, c: IrV)
    requires
        a.same_shape(b),
        b.same_shape(c),
    ensures
        a.same_shape(c),
{
    assert forall|k: int| 0 <= k < a.blocks.len() implies #[trigger] a.blocks[k].instrs.len()
        == c.blocks[k].instrs.len() && a.blocks[k].removed == c.blocks[k].removed by {
        assert(a.blocks[k].instrs.len() == b.blocks[k].instrs.len());
    }
}

proof fn lemma_fits_shape(a: IrV, b: IrV)
    requires
        a.same_shape(b),
        b.fits(),
    ensures
        a.fits(),
{
    assert forall|k: int| 0 <= k < a.blocks.len() implies #[trigger] a.blocks[k].instrs.len() <= usize::MAX by {
        assert(a.blocks[k].instrs.len() == b.blocks[k].instrs.len());
    }
}

/// A defined run over a block keeps the shape, and every shorter run is
/// defined too.
pub proof fn lemma_fold_instrs<R: Rewrite>(ir: IrV, b: int, n: nat, k: nat)
    requires
        0 <= b < ir.blocks.len(),
        ir.fits(),
        !ir.blocks[b].removed,
        n <= ir.blocks[b].instrs.len(),
        k <= n,
        fold_instrs::<R>(ir, b, n) is Some,
    ensures
        fold_instrs::<R>(ir, b, k) is Some,
        fold_instrs::<R>(ir, b, n).unwrap().same_shape(ir),
    decreases n,
{
    if n > 0 {
        lemma_fold_instrs::<R>(ir, b, (n - 1) as nat, if k == n { (n - 1) as nat } else { k });
        let p = fold_instrs::<R>(ir, b, (n - 1) as nat).unwrap();
        assert(p.blocks[b].instrs.len() == ir.blocks[b].instrs.len());
        R::lemma_step_shape(p, b, n - 1);
        lemma_same_shape_trans(R::step(p, b, n - 1), p, ir);
    }
}

/// A defined run over the blocks keeps the shape, and every shorter run is
/// defined too.
pub proof fn lemma_fold_blocks<R: Rewrite>(ir: IrV, nb: nat, k: nat)
    requires
        nb <= ir.blocks.len(),
        ir.fits(),
        k <= nb,
        fold_blocks::<R>(ir, nb) is Some,
    ensures
        fold_blocks::<R>(ir, k) is Some,
        fold_blocks::<R>(ir, nb).unwrap().same_shape(ir),
    decreases nb,
{
    if nb > 0 {
        lemma_fold_blocks::<R>(ir, (nb - 1) as nat, if k == nb { (nb - 1) as nat } else { k });
        let p = fold_blocks::<R>(ir, (nb - 1) as nat).unwrap();
        if !p.blocks[nb - 1].removed {
            lemma_fits_shape(p, ir);
            lemma_fold_instrs::<R>(p, nb - 1, p.blocks[nb - 1].instrs.len(), 0);
            lemma_same_shape_trans(
                fold_instrs::<R>(p, nb - 1, p.blocks[nb - 1].instrs.len()).unwrap(),
                p,
                ir,
            );
        }
    }
}

/// Runs the rewrite `R` over every instruction of every block still in
/// place, in order.
pub fn run_pass<R: Rewrite>(ir: &mut IR)
    requires
        pass::<R>(old(ir)@) is Some,
    ensures
        pass::<R>(old(ir)@) == Some(final(ir)@),
{
    let ghost ir0 = ir@;
    proof {
        ir.lemma_fits();
    }
    let nb = ir.blocks.len();
    let mut b: usize = 0;
    while b < nb
        invariant
            b <= nb,
            nb == ir0.blocks.len(),
            ir0.fits(),
            fold_blocks::<R>(ir0, nb as nat) is Some,
            fold_blocks::<R>(ir0, b as nat) == Some(ir@),
            ir@.same_shape(ir0),
        decreases nb - b,
    {
        proof {
            lemma_fold_blocks::<R>(ir0, nb as nat, (b + 1) as nat);
        }
        if !ir.blocks[b].removed {
            let n = ir.blocks[b].instrs.len();
            let ghost pre = ir@;
            proof {
                ir.lemma_fits();
            }
            assert(fold_instrs::<R>(pre, b as int, n as nat) is Some);
            let mut i: usize = 0;
            while i < n
                invariant
                    i <= n,
                    b < nb,
                    nb == ir0.blocks.len(),
                    pre.blocks.len() == nb,
                    pre.fits(),
                    n == pre.blocks[b as int].instrs.len(),
                    !pre.blocks[b as int].removed,
                    fold_instrs::<R>(pre, b as int, n as nat) is Some,
                    fold_instrs::<R>(pre, b as int, i as nat) == Some(ir@),
                    ir@.same_shape(pre),
                decreases n - i,
            {
                proof {
                    lemma_fold_instrs::<R>(pre, b as int, n as nat, (i + 1) as nat);
                    assert(ir@.blocks[b as int].instrs.len() == n);
                }
                R::apply(ir, b, i);
                proof {
                    lemma_fold_instrs::<R>(pre, b as int, (i + 1) as nat, 0);
                }
                i = i + 1;
            }
            proof {
                lemma_same_shape_trans(ir@, pre, ir0);
            }
        }
        b = b + 1;
    }
}

} // verus!
