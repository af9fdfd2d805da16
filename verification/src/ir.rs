use vstd::prelude::*;

verus! {

/// The type an instruction computes.
#[derive(Clone, Copy, Debug, PartialEq, Eq, Structural, Hash)]
pub enum Type {
    Void,
    U8,
    I8,
    U16,
    I16,
    U32,
    I32,
    Unknown,
}

/// A block, by its index in the function.
#[derive(Clone, Copy, Debug, PartialEq, Eq, Structural, Hash)]
pub struct BlockRef(pub usize);

/// An operand: a constant of the constant table, the result of an
/// instruction (block and index), a register's value on entry, or a block
/// (the target of a jump).
#[derive(Clone, Copy, Debug, PartialEq, Eq, Structural, Hash)]
pub enum Ref {
    Const(usize),
    Instr(usize, usize),
    Init(u16),
    Block(usize),
}

/// The operation of an instruction.
#[derive(Clone, Copy, Debug, PartialEq, Eq, Structural, Hash)]
pub enum Opcode {
    Nop,
    Ref,
    Phi,
    Add,
    Sub,
    Shl,
    Shr,
    UShr,
    And,
    Or,
    Xor,
    IMul,
    UMul,
    IDiv,
    UDiv,
    Neg,
    SignExtTo32,
    Lower16,
    Upper16,
    Make32,
    UpdateFlags,
    EqFlags,
    NeqFlags,
    GtFlags,
    GeqFlags,
    LtFlags,
    LeqFlags,
    UGtFlags,
    UGeqFlags,
    ULtFlags,
    ULeqFlags,
    SignFlags,
    Eq,
    Neq,
    Gt,
    Geq,
    Lt,
    Leq,
    UGt,
    UGeq,
    ULt,
    ULeq,
    Sign,
    NotSign,
    Load16,
    Store16,
    ReadVar16,
    WriteVar16,
    Call,
    Jmp,
    Jne,
    Ret,
}

/// Whether an operation does more than compute its result: stores, calls
/// and control transfers.
pub open spec fn side_effects(op: Opcode) -> bool {
    op == Opcode::Store16 || op == Opcode::WriteVar16 || op == Opcode::Call || op == Opcode::Jmp
        || op == Opcode::Jne || op == Opcode::Ret
}

impl Opcode {
    pub fn has_side_effects(&self) -> (r: bool)
        ensures
            r == side_effects(*self),
    {
        match self {
            Opcode::Store16 | Opcode::WriteVar16 | Opcode::Call | Opcode::Jmp | Opcode::Jne
            | Opcode::Ret => true,
            _ => false,
        }
    }

    pub fn is_load(&self) -> (r: bool)
        ensures
            r == (*self == Opcode::Load16),
    {
        match self {
            Opcode::Load16 => true,
            _ => false,
        }
    }

    pub fn is_store(&self) -> (r: bool)
        ensures
            r == (*self == Opcode::Store16),
    {
        match self {
            Opcode::Store16 => true,
            _ => false,
        }
    }
}

/// The attribute bits an instruction carries.
pub struct Attribute;

impl Attribute {
    pub const NONE: u8 = 0;
    /// The result is an address on the stack.
    pub const STACK_PTR: u8 = 1;
    /// The memory the instruction touches may be reachable from elsewhere.
    pub const MAY_ESCAPE: u8 = 2;
    /// The instruction is kept even when nothing uses its result.
    pub const PIN: u8 = 4;
}

/// One instruction.
#[derive(Clone, Debug, PartialEq, Eq)]
pub struct Instr {
    pub typ: Type,
    pub attrs: u8,
    pub opcode: Opcode,
    pub operands: Vec<Ref>,
}

/// An instruction as a mathematical value.
pub struct InstrV {
    pub typ: Type,
    pub attrs: u8,
    pub opcode: Opcode,
    pub operands: Seq<Ref>,
}

impl View for Instr {
    type V = InstrV;

    open spec fn view(&self) -> InstrV {
        InstrV { typ: self.typ, attrs: self.attrs, opcode: self.opcode, operands: self.operands@ }
    }
}

/// A basic block: its predecessors, in the order phi operands follow, and
/// its instructions. A removed block stays in place, marked.
pub struct Block {
    pub name: String,
    pub preds: Vec<BlockRef>,
    pub instrs: Vec<Instr>,
    pub removed: bool,
}

/// A block as a mathematical value.
pub struct BlockV {
    pub name: Seq<char>,
    pub preds: Seq<BlockRef>,
    pub instrs: Seq<InstrV>,
    pub removed: bool,
}

impl View for Block {
    type V = BlockV;

    open spec fn view(&self) -> BlockV {
        BlockV {
            name: self.name@,
            preds: self.preds@,
            instrs: Seq::new(self.instrs@.len(), |i: int| self.instrs@[i]@),
            removed: self.removed,
        }
    }
}

/// A function in SSA form: its constant table and its blocks.
pub struct IR {
    pub consts: Vec<i16>,
    pub blocks: Vec<Block>,
}

/// A function as a mathematical value.
pub struct IrV {
    pub consts: Seq<i16>,
    pub blocks: Seq<BlockV>,
}

impl View for IR {
    type V = IrV;

    open spec fn view(&self) -> IrV {
        IrV {
            consts: self.consts@,
            blocks: Seq::new(self.blocks@.len(), |b: int| self.blocks@[b]@),
        }
    }
}

impl IrV {
    /// `(b, i)` names an instruction of a block that is still in place.
    pub open spec fn has_pos(self, b: int, i: int) -> bool {
        0 <= b < self.blocks.len() && 0 <= i < self.blocks[b].instrs.len() && b <= usize::MAX && i
            <= usize::MAX
    }

    /// Block and instruction indices fit in `usize`, as they do for every
    /// function held in memory.
    pub open spec fn fits(self) -> bool {
        &&& self.blocks.len() <= usize::MAX
        &&& forall|b: int| 0 <= b < self.blocks.len() ==> #[trigger] self.blocks[b].instrs.len() <= usize::MAX
    }

    /// The instruction a reference names, if it names one.
    pub open spec fn instr(self, r: Ref) -> Option<InstrV> {
        match r {
            Ref::Instr(b, i) => if self.has_pos(b as int, i as int) {
                Some(self.blocks[b as int].instrs[i as int])
            } else {
                None
            },
            _ => None,
        }
    }

    /// The instruction at `(b, i)`.
    pub open spec fn at(self, b: int, i: int) -> InstrV {
        self.blocks[b].instrs[i]
    }

    /// The value a reference names, if it names a constant.
    pub open spec fn const_value(self, r: Ref) -> Option<i16> {
        match r {
            Ref::Const(k) => if k < self.consts.len() {
                Some(self.consts[k as int])
            } else {
                None
            },
            _ => None,
        }
    }

    /// The function with the instruction at `(b, i)` replaced by `x`.
    pub open spec fn with_instr(self, b: int, i: int, x: InstrV) -> IrV {
        IrV {
            consts: self.consts,
            blocks: self.blocks.update(
                b,
                BlockV {
                    name: self.blocks[b].name,
                    preds: self.blocks[b].preds,
                    instrs: self.blocks[b].instrs.update(i, x),
                    removed: self.blocks[b].removed,
                },
            ),
        }
    }

    /// The function with `k` appended to the constant table.
    pub open spec fn with_const(self, k: i16) -> IrV {
        IrV { consts: self.consts.push(k), blocks: self.blocks }
    }

    /// The reference to the constant `with_const` appends.
    pub open spec fn next_const(self) -> Ref {
        Ref::Const(self.consts.len() as usize)
    }

    /// The function with block `b` marked removed.
    pub open spec fn removed_block(self, b: int) -> IrV {
        IrV {
            consts: self.consts,
            blocks: self.blocks.update(
                b,
                BlockV { name: self.blocks[b].name, preds: self.blocks[b].preds, instrs: self.blocks[b].instrs, removed: true },
            ),
        }
    }

    /// The function with predecessor `p` of block `e` dropped.
    pub open spec fn without_pred(self, e: int, p: int) -> IrV {
        IrV {
            consts: self.consts,
            blocks: self.blocks.update(
                e,
                BlockV {
                    name: self.blocks[e].name,
                    preds: self.blocks[e].preds.remove(p),
                    instrs: self.blocks[e].instrs,
                    removed: self.blocks[e].removed,
                },
            ),
        }
    }

    /// Both functions have the same blocks, removed alike, with the same
    /// numbers of instructions.
    pub open spec fn same_shape(self, other: IrV) -> bool {
        &&& self.blocks.len() == other.blocks.len()
        &&& forall|b: int|
            0 <= b < self.blocks.len() ==> #[trigger] self.blocks[b].instrs.len()
                == other.blocks[b].instrs.len() && self.blocks[b].removed == other.blocks[b].removed
    }
}

/// Replacing an instruction or adding a constant keeps the shape.
pub proof fn lemma_edit_shape(ir: IrV, b: int, i: int, x: InstrV, k: i16)
    requires
        ir.has_pos(b, i),
    ensures
        ir.with_instr(b, i, x).same_shape(ir),
        ir.with_const(k).same_shape(ir),
        ir.with_const(k).with_instr(b, i, x).same_shape(ir),
{
    let a = ir.with_instr(b, i, x);
    assert forall|c: int| 0 <= c < a.blocks.len() implies #[trigger] a.blocks[c].instrs.len()
        == ir.blocks[c].instrs.len() && a.blocks[c].removed == ir.blocks[c].removed by {
        if c == b {
        }
    }
    let d = ir.with_const(k).with_instr(b, i, x);
    assert forall|c: int| 0 <= c < d.blocks.len() implies #[trigger] d.blocks[c].instrs.len()
        == ir.blocks[c].instrs.len() && d.blocks[c].removed == ir.blocks[c].removed by {
        if c == b {
        }
    }
}

/// The blocks named by the block operands among `ops`, in order.
pub open spec fn block_targets(ops: Seq<Ref>) -> Seq<BlockRef>
    decreases ops.len(),
{
    if ops.len() == 0 {
        Seq::empty()
    } else {
        let rest = block_targets(ops.drop_last());
        match ops.last() {
            Ref::Block(t) => rest.push(BlockRef(t)),
            _ => rest,
        }
    }
}

/// The blocks control can leave block `b` for: the block operands of its
/// last instruction.
pub open spec fn exits(ir: IrV, b: int) -> Seq<BlockRef> {
    let is = ir.blocks[b].instrs;
    if is.len() == 0 {
        Seq::empty()
    } else {
        block_targets(is.last().operands)
    }
}

/// `x` with operand `p` dropped.
pub open spec fn without_operand(x: InstrV, p: int) -> InstrV {
    InstrV { typ: x.typ, attrs: x.attrs, opcode: x.opcode, operands: x.operands.remove(p) }
}

/// An instruction with the same type and attributes as `x`, the given
/// operation and the given operands.
pub open spec fn rewritten(x: InstrV, op: Opcode, operands: Seq<Ref>) -> InstrV {
    InstrV { typ: x.typ, attrs: x.attrs, opcode: op, operands }
}

impl IR {
    /// The view of a function in memory fits.
    pub proof fn lemma_fits(&self)
        ensures
            self@.fits(),
    {
        assert forall|b: int| 0 <= b < self@.blocks.len() implies #[trigger] self@.blocks[b].instrs.len() <= usize::MAX by {
            assert(self@.blocks[b].instrs.len() == self.blocks@[b].instrs.len());
        }
        assert(self@.blocks.len() == self.blocks.len());
    }

    /// An empty function.
    pub fn new() -> (r: IR)
        ensures
            r@.consts.len() == 0,
            r@.blocks.len() == 0,
    {
        IR { consts: Vec::new(), blocks: Vec::new() }
    }

    /// Appends an empty block with no predecessors.
    pub fn add_block(&mut self, name: &str) -> (r: BlockRef)
        ensures
            r.0 == old(self)@.blocks.len(),
            final(self)@.consts == old(self)@.consts,
            final(self)@.blocks == old(self)@.blocks.push(
                BlockV { name: name@, preds: Seq::empty(), instrs: Seq::empty(), removed: false },
            ),
    {
        let r = BlockRef(self.blocks.len());
        self.blocks.push(
            Block { name: name.to_string(), preds: Vec::new(), instrs: Vec::new(), removed: false },
        );
        let ghost n = old(self)@.blocks.len() as int;
        assert(self@.blocks[n].instrs =~= Seq::<InstrV>::empty());
        assert(self@.blocks[n].preds =~= Seq::<BlockRef>::empty());
        assert(self@.blocks =~= old(self)@.blocks.push(
            BlockV { name: name@, preds: Seq::empty(), instrs: Seq::empty(), removed: false },
        ));
        r
    }

    /// Records `pred` as a predecessor of `blk`.
    pub fn block_add_pred(&mut self, blk: BlockRef, pred: BlockRef)
        requires
            blk.0 < old(self)@.blocks.len(),
        ensures
            final(self)@.consts == old(self)@.consts,
            final(self)@.blocks == old(self)@.blocks.update(
                blk.0 as int,
                BlockV {
                    name: old(self)@.blocks[blk.0 as int].name,
                    preds: old(self)@.blocks[blk.0 as int].preds.push(pred),
                    instrs: old(self)@.blocks[blk.0 as int].instrs,
                    removed: old(self)@.blocks[blk.0 as int].removed,
                },
            ),
    {
        self.blocks[blk.0].preds.push(pred);
        assert(self@.blocks =~= old(self)@.blocks.update(
            blk.0 as int,
            BlockV {
                name: old(self)@.blocks[blk.0 as int].name,
                preds: old(self)@.blocks[blk.0 as int].preds.push(pred),
                instrs: old(self)@.blocks[blk.0 as int].instrs,
                removed: old(self)@.blocks[blk.0 as int].removed,
            },
        ));
    }

    /// Appends an instruction to a block and returns a reference to it.
    pub fn block_instr_append(&mut self, blk: BlockRef, instr: Instr) -> (r: Ref)
        requires
            blk.0 < old(self)@.blocks.len(),
        ensures
            r == Ref::Instr(blk.0, old(self)@.blocks[blk.0 as int].instrs.len() as usize),
            final(self)@.consts == old(self)@.consts,
            final(self)@.blocks == old(self)@.blocks.update(
                blk.0 as int,
                BlockV {
                    name: old(self)@.blocks[blk.0 as int].name,
                    preds: old(self)@.blocks[blk.0 as int].preds,
                    instrs: old(self)@.blocks[blk.0 as int].instrs.push(instr@),
                    removed: old(self)@.blocks[blk.0 as int].removed,
                },
            ),
    {
        let i = self.blocks[blk.0].instrs.len();
        let ghost x = instr@;
        self.blocks[blk.0].instrs.push(instr);
        assert(self@.blocks[blk.0 as int].instrs =~= old(self)@.blocks[blk.0 as int].instrs.push(x));
        assert(self@.blocks =~= old(self)@.blocks.update(
            blk.0 as int,
            BlockV {
                name: old(self)@.blocks[blk.0 as int].name,
                preds: old(self)@.blocks[blk.0 as int].preds,
                instrs: old(self)@.blocks[blk.0 as int].instrs.push(x),
                removed: old(self)@.blocks[blk.0 as int].removed,
            },
        ));
        Ref::Instr(blk.0, i)
    }

    /// Appends `k` to the constant table and returns a reference to it.
    pub fn const_new(&mut self, k: i16) -> (r: Ref)
        ensures
            r == old(self)@.next_const(),
            final(self)@ == old(self)@.with_const(k),
    {
        let r = Ref::Const(self.consts.len());
        self.consts.push(k);
        assert(self@.blocks =~= old(self)@.blocks);
        r
    }

    /// The value of a constant reference.
    pub fn const_lookup(&self, r: Ref) -> (v: Option<i16>)
        ensures
            v == self@.const_value(r),
    {
        match r {
            Ref::Const(k) => if k < self.consts.len() {
                Some(self.consts[k])
            } else {
                None
            },
            _ => None,
        }
    }

    /// The instruction a reference names.
    pub fn instr(&self, r: Ref) -> (o: Option<&Instr>)
        ensures
            o is Some <==> self@.instr(r) is Some,
            o matches Some(x) ==> self@.instr(r) == Some(x@),
    {
        match r {
            Ref::Instr(b, i) => if b < self.blocks.len() && i < self.blocks[b].instrs.len() {
                Some(&self.blocks[b].instrs[i])
            } else {
                None
            },
            _ => None,
        }
    }

    /// The instruction at `(b, i)`.
    pub fn instr_at(&self, b: usize, i: usize) -> (x: &Instr)
        requires
            self@.has_pos(b as int, i as int),
        ensures
            x@ == self@.at(b as int, i as int),
    {
        &self.blocks[b].instrs[i]
    }

    /// Replaces the instruction at `(b, i)`.
    pub fn set_instr(&mut self, b: usize, i: usize, x: Instr)
        requires
            old(self)@.has_pos(b as int, i as int),
        ensures
            final(self)@ == old(self)@.with_instr(b as int, i as int, x@),
    {
        let ghost xv = x@;
        self.blocks[b].instrs.set(i, x);
        assert(self@.blocks[b as int].instrs =~= old(self)@.blocks[b as int].instrs.update(
            i as int,
            xv,
        ));
        assert(self@.blocks =~= old(self)@.with_instr(b as int, i as int, xv).blocks);
    }

    /// Replaces the operation and operands of the instruction at `(b, i)`,
    /// keeping its type and attributes.
    pub fn rewrite(&mut self, b: usize, i: usize, op: Opcode, operands: Vec<Ref>)
        requires
            old(self)@.has_pos(b as int, i as int),
        ensures
            final(self)@ == old(self)@.with_instr(
                b as int,
                i as int,
                rewritten(old(self)@.at(b as int, i as int), op, operands@),
            ),
    {
        let typ = self.blocks[b].instrs[i].typ;
        let attrs = self.blocks[b].instrs[i].attrs;
        self.set_instr(b, i, Instr { typ, attrs, opcode: op, operands });
    }

    /// Marks a block removed.
    pub fn block_remove(&mut self, b: BlockRef)
        requires
            b.0 < old(self)@.blocks.len(),
        ensures
            final(self)@ == old(self)@.removed_block(b.0 as int),
    {
        self.blocks[b.0].removed = true;
        assert(self@.blocks[b.0 as int].instrs =~= old(self)@.blocks[b.0 as int].instrs);
        assert(self@.blocks =~= old(self)@.removed_block(b.0 as int).blocks);
    }

    /// Drops predecessor `p` of block `e`.
    pub fn remove_pred(&mut self, e: usize, p: usize)
        requires
            e < old(self)@.blocks.len(),
            p < old(self)@.blocks[e as int].preds.len(),
        ensures
            final(self)@ == old(self)@.without_pred(e as int, p as int),
    {
        self.blocks[e].preds.remove(p);
        assert(self@.blocks[e as int].instrs =~= old(self)@.blocks[e as int].instrs);
        assert(self@.blocks =~= old(self)@.without_pred(e as int, p as int).blocks);
    }

    /// Drops operand `p` of the instruction at `(e, k)`.
    pub fn remove_operand(&mut self, e: usize, k: usize, p: usize)
        requires
            old(self)@.has_pos(e as int, k as int),
            p < old(self)@.at(e as int, k as int).operands.len(),
        ensures
            final(self)@ == old(self)@.with_instr(
                e as int,
                k as int,
                without_operand(old(self)@.at(e as int, k as int), p as int),
            ),
    {
        self.blocks[e].instrs[k].operands.remove(p);
        assert(self@.blocks[e as int].instrs =~= old(self)@.blocks[e as int].instrs.update(
            k as int,
            without_operand(old(self)@.at(e as int, k as int), p as int),
        ));
        assert(self@.blocks =~= old(self)@.with_instr(
            e as int,
            k as int,
            without_operand(old(self)@.at(e as int, k as int), p as int),
        ).blocks);
    }

    /// The blocks control can leave block `b` for.
    pub fn block_exits(&self, b: BlockRef) -> (r: Vec<BlockRef>)
        requires
            b.0 < self@.blocks.len(),
        ensures
            r@ == exits(self@, b.0 as int),
    {
        let n = self.blocks[b.0].instrs.len();
        let mut r: Vec<BlockRef> = Vec::new();
        if n == 0 {
            return r;
        }
        let last = &self.blocks[b.0].instrs[n - 1];
        let mut j: usize = 0;
        while j < last.operands.len()
            invariant
                j <= last.operands.len(),
                last@ == self@.blocks[b.0 as int].instrs.last(),
                r@ == block_targets(last@.operands.subrange(0, j as int)),
            decreases last.operands.len() - j,
        {
            let o = last.operands[j];
            proof {
                let s = last@.operands.subrange(0, j as int + 1);
                assert(s.drop_last() =~= last@.operands.subrange(0, j as int));
                assert(s.last() == o);
            }
            match o {
                Ref::Block(t) => {
                    r.push(BlockRef(t));
                },
                _ => {},
            }
            j = j + 1;
        }
        assert(last@.operands.subrange(0, j as int) =~= last@.operands);
        r
    }

    /// The blocks still in place, in order.
    pub fn iter_blocks(&self) -> (r: Vec<BlockRef>)
        ensures
            r@ == live_blocks(self@.blocks, self@.blocks.len()),
            forall|k: int| 0 <= k < r@.len() ==> #[trigger] r@[k].0 < self@.blocks.len() && !self@.blocks[r@[k].0 as int].removed,
    {
        let mut r: Vec<BlockRef> = Vec::new();
        let mut b: usize = 0;
        while b < self.blocks.len()
            invariant
                b <= self.blocks.len(),
                r@ == live_blocks(self@.blocks, b as nat),
                forall|k: int| 0 <= k < r@.len() ==> #[trigger] r@[k].0 < self@.blocks.len() && !self@.blocks[r@[k].0 as int].removed,
            decreases self.blocks.len() - b,
        {
            if !self.blocks[b].removed {
                r.push(BlockRef(b));
            }
            b = b + 1;
        }
        r
    }

    /// References to the instructions of a block, in order.
    pub fn iter_instrs(&self, blk: BlockRef) -> (r: Vec<Ref>)
        requires
            blk.0 < self@.blocks.len(),
        ensures
            r@.len() == self@.blocks[blk.0 as int].instrs.len(),
            forall|k: int| 0 <= k < r@.len() ==> #[trigger] r@[k] == Ref::Instr(blk.0, k as usize),
    {
        let n = self.blocks[blk.0].instrs.len();
        let mut r: Vec<Ref> = Vec::new();
        let mut i: usize = 0;
        while i < n
            invariant
                i <= n,
                r@.len() == i,
                forall|k: int| 0 <= k < i ==> #[trigger] r@[k] == Ref::Instr(blk.0, k as usize),
            decreases n - i,
        {
            r.push(Ref::Instr(blk.0, i));
            i = i + 1;
        }
        r
    }
}

/// The blocks among the first `n` that are still in place, in order.
pub open spec fn live_blocks(blocks: Seq<BlockV>, n: nat) -> Seq<BlockRef>
    decreases n,
{
    if n == 0 {
        Seq::empty()
    } else {
        let prev = live_blocks(blocks, (n - 1) as nat);
        if blocks[n - 1].removed {
            prev
        } else {
            prev.push(BlockRef((n - 1) as usize))
        }
    }
}

/// The list holding just `a`.
pub fn one_ref(a: Ref) -> (v: Vec<Ref>)
    ensures
        v@ == seq![a],
{
    let mut v: Vec<Ref> = Vec::new();
    v.push(a);
    assert(v@ =~= seq![a]);
    v
}

/// The list holding `a` and then `b`.
pub fn two_refs(a: Ref, b: Ref) -> (v: Vec<Ref>)
    ensures
        v@ == seq![a, b],
{
    let mut v: Vec<Ref> = Vec::new();
    v.push(a);
    v.push(b);
    assert(v@ =~= seq![a, b]);
    v
}

/// A copy of a list of references.
pub fn copy_refs(v: &Vec<Ref>) -> (r: Vec<Ref>)
    ensures
        r@ == v@,
{
    let mut r: Vec<Ref> = Vec::new();
    let mut i: usize = 0;
    while i < v.len()
        invariant
            i <= v.len(),
            r@ == v@.subrange(0, i as int),
        decreases v.len() - i,
    {
        r.push(v[i]);
        i = i + 1;
        assert(r@ =~= v@.subrange(0, i as int));
    }
    assert(r@ =~= v@);
    r
}

/// A copy of an instruction.
pub fn copy_instr(x: &Instr) -> (r: Instr)
    ensures
        r@ == x@,
{
    Instr { typ: x.typ, attrs: x.attrs, opcode: x.opcode, operands: copy_refs(&x.operands) }
}

/// Whether two instructions are equal: same type, attributes, operation
/// and operands.
pub fn instr_eq(x: &Instr, y: &Instr) -> (r: bool)
    ensures
        r == (x@ == y@),
{
    if x.typ != y.typ || x.attrs != y.attrs || x.opcode != y.opcode || x.operands.len()
        != y.operands.len() {
        return false;
    }
    let mut i: usize = 0;
    while i < x.operands.len()
        invariant
            i <= x.operands.len(),
            x.operands.len() == y.operands.len(),
            forall|k: int| 0 <= k < i ==> x.operands@[k] == y.operands@[k],
        decreases x.operands.len() - i,
    {
        if x.operands[i] != y.operands[i] {
            return false;
        }
        i = i + 1;
    }
    assert(x.operands@ =~= y.operands@);
    true
}

} // verus!
