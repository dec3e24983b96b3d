//! The target intermediate representation.
//!
//! A module holds one basic block per source instruction, plus a distinct
//! entry block that branches into the block of instruction 0. Each block
//! carries straight-line assignments and ends in at most one terminator;
//! a block still missing its terminator is a structural fault that module
//! verification reports.
//!
//! Branch targets are indices into the block table: the block of
//! instruction `i` sits at index `i`.

use vstd::prelude::*;

verus! {

/// Width of a bounds-checked packet load.
#[derive(Clone, Copy, PartialEq, Eq, Structural, Debug)]
pub enum Size {
    Word,
    Half,
    Byte,
}

/// A simple 32-bit value: one of the two registers, or a constant.
#[derive(Clone, Copy, PartialEq, Eq, Structural, Debug)]
pub enum Scalar {
    A,
    X,
    Imm(u32),
}

/// Where a packet load takes its byte offset from: the immediate alone,
/// or the index register plus the immediate.
#[derive(Clone, Copy, PartialEq, Eq, Structural, Debug)]
pub enum Offset {
    Abs(u32),
    Ind(u32),
}

/// Binary ALU operation; the left operand is always the accumulator.
#[derive(Clone, Copy, PartialEq, Eq, Structural, Debug)]
pub enum AluOp {
    Add,
    Sub,
    Mul,
    Div,
    Mod,
    And,
    Or,
    Xor,
    Lsh,
    Rsh,
}

/// Right-hand side of an assignment.
#[derive(Clone, Copy, PartialEq, Eq, Structural, Debug)]
pub enum Rvalue {
    /// A register or constant, unchanged.
    Move(Scalar),
    /// The scratch word `M[idx]`.
    MemRead(u32),
    /// A call of the size-appropriate packet-load helper routine.
    PacketRead(Size, Offset),
    /// A call of the mask-and-shift helper: `(packet[k] & 0xf) << 2`.
    MaskShift(u32),
    /// Arithmetic negation of the accumulator.
    Neg,
    /// Accumulator combined with an operand.
    Alu(AluOp, Scalar),
}

/// Destination of an assignment.
#[derive(Clone, Copy, PartialEq, Eq, Structural, Debug)]
pub enum Lvalue {
    RegA,
    RegX,
    /// The scratch word `M[idx]`.
    Mem(u32),
}

/// One straight-line IR operation.
#[derive(Clone, Copy, PartialEq, Eq, Structural, Debug)]
pub struct Assign {
    pub dst: Lvalue,
    pub src: Rvalue,
}

/// Comparison of a conditional branch. The left operand is always the
/// accumulator; all comparisons are signed.
#[derive(Clone, Copy, PartialEq, Eq, Structural, Debug)]
pub enum CondOp {
    /// `A > v`
    Jgt,
    /// `A >= v`
    Jge,
    /// `A == v`
    Jeq,
    /// `(A & v) > 0`
    Jset,
}

/// The operation that ends a basic block.
#[derive(Clone, Copy, PartialEq, Eq, Structural, Debug)]
pub enum Term {
    /// Return a 32-bit verdict.
    Ret(Scalar),
    /// Unconditional branch to a block index.
    Br(u64),
    /// Two-way branch on a comparison of the accumulator.
    CondBr { op: CondOp, rhs: Scalar, on_true: u64, on_false: u64 },
}

/// A basic block: straight-line assignments, then at most one terminator.
pub struct Block {
    pub stmts: Vec<Assign>,
    pub term: Option<Term>,
}

/// A translated module: the entry block and one block per instruction.
pub struct Module {
    pub entry: Block,
    pub blocks: Vec<Block>,
}

/// Mathematical model of a basic block.
pub ghost struct SpecBlock {
    pub stmts: Seq<Assign>,
    pub term: Option<Term>,
}

/// Mathematical model of a module.
pub ghost struct SpecModule {
    pub entry: SpecBlock,
    pub blocks: Seq<SpecBlock>,
}

impl View for Block {
    type V = SpecBlock;

    open spec fn view(&self) -> SpecBlock {
        SpecBlock { stmts: self.stmts@, term: self.term }
    }
}

impl View for Module {
    type V = SpecModule;

    open spec fn view(&self) -> SpecModule {
        SpecModule { entry: self.entry@, blocks: self.blocks@.map_values(|b: Block| b@) }
    }
}

/// A terminator standing in the block at index `own` is sound when every
/// target lies inside the block table and strictly ahead of `own`: control
/// only ever moves forward, so execution must reach a return.
pub open spec fn spec_term_wf(t: Term, own: int, n: int) -> bool {
    match t {
        Term::Ret(_) => true,
        Term::Br(target) => own < target < n,
        Term::CondBr { op: _, rhs: _, on_true, on_false } => {
            own < on_true < n && own < on_false < n
        },
    }
}

/// A block is well formed when it has a terminator and that terminator is
/// sound for its position.
pub open spec fn spec_block_wf(b: SpecBlock, own: int, n: int) -> bool {
    match b.term {
        Some(t) => spec_term_wf(t, own, n),
        None => false,
    }
}

/// Structural well-formedness of a whole module: every block, the entry
/// included, ends in a terminator whose targets exist and point forward.
/// The entry block sits before the instruction blocks, so any target is
/// ahead of it.
pub open spec fn spec_module_wf(m: SpecModule) -> bool {
    &&& spec_block_wf(m.entry, -1, m.blocks.len() as int)
    &&& forall|i: int|
        0 <= i < m.blocks.len() ==> spec_block_wf(#[trigger] m.blocks[i], i, m.blocks.len() as int)
}

fn check_term(t: &Term, own: u64, n: u64) -> (r: bool)
    requires
        own < u64::MAX,
    ensures
        r == spec_term_wf(*t, own as int - 1, n as int),
{
    match t {
        Term::Ret(_) => true,
        Term::Br(target) => own <= *target && *target < n,
        Term::CondBr { op: _, rhs: _, on_true, on_false } => {
            own <= *on_true && *on_true < n && own <= *on_false && *on_false < n
        },
    }
}

fn check_block(b: &Block, own: u64, n: u64) -> (r: bool)
    requires
        own < u64::MAX,
    ensures
        r == spec_block_wf(b@, own as int - 1, n as int),
{
    match &b.term {
        Some(t) => check_term(t, own, n),
        None => false,
    }
}

/// Structural verification of a completed module, mirroring
/// [`spec_module_wf`]: it reports whether every block is terminated and
/// every branch target resolves to a block further ahead.
pub fn verify_module(m: &Module) -> (r: bool)
    requires
        m.blocks@.len() < u64::MAX,
    ensures
        r == spec_module_wf(m@),
{
    let n = m.blocks.len() as u64;
    if !check_block(&m.entry, 0, n) {
        return false;
    }
    let ghost gn = m.blocks@.len() as int;
    let mut i: usize = 0;
    while i < m.blocks.len()
        invariant
            0 <= i <= m.blocks@.len(),
            m.blocks@.len() < u64::MAX,
            n == m.blocks@.len(),
            gn == m.blocks@.len() as int,
            spec_block_wf(m@.entry, -1, gn),
            forall|j: int| 0 <= j < i ==> spec_block_wf(#[trigger] m@.blocks[j], j, gn),
        decreases m.blocks@.len() - i,
    {
        let b = &m.blocks[i];
        assert(m@.blocks[i as int] == m.blocks@[i as int]@);
        if !check_block(b, (i as u64) + 1, n) {
            assert(!spec_block_wf(m@.blocks[i as int], i as int, gn));
            return false;
        }
        assert(spec_block_wf(m@.blocks[i as int], i as int, gn));
        i = i + 1;
    }
    true
}

} // verus!
