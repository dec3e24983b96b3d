//! Per-instruction translation and whole-program conversion.
//!
//! Every instruction is lowered to exactly one IR operation in a block of
//! its own: an assignment, or a terminator. A block left open by an
//! assignment falls through to the next instruction's block by an
//! unconditional branch, inserted as long as a next block exists. The
//! entry block branches into the block of instruction 0.
//!
//! A jump at position `i` resolves against the 1:1 instruction-to-block
//! mapping: the unconditional target is block `i + 1 + k`, a conditional
//! branch goes to block `i + 1 + jt` when the comparison holds and to
//! block `i + 1 + jf` otherwise. Targets are not validated here; module
//! verification rejects a branch that leaves the block table.

use vstd::prelude::*;

use crate::insn::{
    bpf_class, bpf_miscop, bpf_mode, bpf_op, bpf_rval, bpf_size, bpf_src, spec_class, spec_miscop,
    spec_mode, spec_op, spec_rval, spec_size, spec_src, Insn, BPF_A, BPF_ABS, BPF_ADD, BPF_ALU,
    BPF_AND, BPF_B, BPF_DIV, BPF_H, BPF_IMM, BPF_IND, BPF_JA, BPF_JEQ, BPF_JGE, BPF_JGT, BPF_JMP,
    BPF_JSET, BPF_K, BPF_LD, BPF_LDX, BPF_LEN, BPF_LSH, BPF_MEM, BPF_MISC, BPF_MOD, BPF_MSH,
    BPF_MUL, BPF_NEG, BPF_OR, BPF_RET, BPF_RSH, BPF_ST, BPF_STX, BPF_SUB, BPF_TAX, BPF_TXA, BPF_W,
    BPF_X, BPF_XOR,
};
use crate::ir::{
    AluOp, Assign, Block, CondOp, Lvalue, Module, Offset, Rvalue, Scalar, Size, SpecBlock,
    SpecModule, Term,
};

verus! {

/// Why a conversion was aborted. Every failure is fatal to the whole
/// conversion: no partial module is handed out.
#[derive(Clone, Copy, PartialEq, Eq, Structural, Debug)]
pub enum ConvertError {
    /// An opcode combination outside the instruction taxonomy.
    InvalidInstruction,
    /// A recognized mode that is intentionally not implemented
    /// (length-based loads).
    UnsupportedInstruction,
    /// The completed module failed structural verification.
    VerificationFailed,
}

/// What one instruction turns into: one assignment, or one terminator.
#[derive(Clone, Copy, PartialEq, Eq, Structural, Debug)]
pub enum Emit {
    Op(Assign),
    End(Term),
}

/// The IR operation emitted for `insn` standing at position `idx`, or the
/// error that rejects it. This is the exact instruction taxonomy: every
/// combination not listed here is refused as invalid, and the two
/// length-based load modes are refused as unsupported.
pub open spec fn spec_translate_insn(insn: Insn, idx: u64) -> Result<Emit, ConvertError> {
    let code = insn.code;
    if spec_class(code) == BPF_RET {
        if spec_rval(code) == BPF_A {
            Ok(Emit::End(Term::Ret(Scalar::A)))
        } else if spec_rval(code) == BPF_K {
            Ok(Emit::End(Term::Ret(Scalar::Imm(insn.k))))
        } else {
            Err(ConvertError::InvalidInstruction)
        }
    } else if spec_class(code) == BPF_LD {
        let mode = spec_mode(code);
        let size = spec_size(code);
        if (mode == BPF_ABS || mode == BPF_IND) && (size == BPF_W || size == BPF_H || size
            == BPF_B) {
            let sz = if size == BPF_W {
                Size::Word
            } else if size == BPF_H {
                Size::Half
            } else {
                Size::Byte
            };
            let off = if mode == BPF_IND {
                Offset::Ind(insn.k)
            } else {
                Offset::Abs(insn.k)
            };
            Ok(Emit::Op(Assign { dst: Lvalue::RegA, src: Rvalue::PacketRead(sz, off) }))
        } else if size == BPF_W && mode == BPF_LEN {
            Err(ConvertError::UnsupportedInstruction)
        } else if size == BPF_W && mode == BPF_IMM {
            Ok(Emit::Op(Assign { dst: Lvalue::RegA, src: Rvalue::Move(Scalar::Imm(insn.k)) }))
        } else if size == BPF_W && mode == BPF_MEM {
            Ok(Emit::Op(Assign { dst: Lvalue::RegA, src: Rvalue::MemRead(insn.k) }))
        } else {
            Err(ConvertError::InvalidInstruction)
        }
    } else if spec_class(code) == BPF_LDX {
        let mode = spec_mode(code);
        let size = spec_size(code);
        if size == BPF_W && mode == BPF_LEN {
            Err(ConvertError::UnsupportedInstruction)
        } else if size == BPF_B && mode == BPF_MSH {
            Ok(Emit::Op(Assign { dst: Lvalue::RegX, src: Rvalue::MaskShift(insn.k) }))
        } else if size == BPF_W && mode == BPF_IMM {
            Ok(Emit::Op(Assign { dst: Lvalue::RegX, src: Rvalue::Move(Scalar::Imm(insn.k)) }))
        } else if size == BPF_W && mode == BPF_MEM {
            Ok(Emit::Op(Assign { dst: Lvalue::RegX, src: Rvalue::MemRead(insn.k) }))
        } else {
            Err(ConvertError::InvalidInstruction)
        }
    } else if spec_class(code) == BPF_ST {
        Ok(Emit::Op(Assign { dst: Lvalue::Mem(insn.k), src: Rvalue::Move(Scalar::A) }))
    } else if spec_class(code) == BPF_STX {
        Ok(Emit::Op(Assign { dst: Lvalue::Mem(insn.k), src: Rvalue::Move(Scalar::X) }))
    } else if spec_class(code) == BPF_JMP {
        let op = spec_op(code);
        if op == BPF_JA {
            Ok(Emit::End(Term::Br((idx + 1 + insn.k) as u64)))
        } else {
            let rhs = if spec_src(code) == BPF_X {
                Scalar::X
            } else {
                Scalar::Imm(insn.k)
            };
            let on_true = (idx + 1 + insn.jt) as u64;
            let on_false = (idx + 1 + insn.jf) as u64;
            if op == BPF_JGT {
                Ok(Emit::End(Term::CondBr { op: CondOp::Jgt, rhs: rhs, on_true: on_true, on_false: on_false }))
            } else if op == BPF_JGE {
                Ok(Emit::End(Term::CondBr { op: CondOp::Jge, rhs: rhs, on_true: on_true, on_false: on_false }))
            } else if op == BPF_JEQ {
                Ok(Emit::End(Term::CondBr { op: CondOp::Jeq, rhs: rhs, on_true: on_true, on_false: on_false }))
            } else if op == BPF_JSET {
                Ok(Emit::End(Term::CondBr { op: CondOp::Jset, rhs: rhs, on_true: on_true, on_false: on_false }))
            } else {
                Err(ConvertError::InvalidInstruction)
            }
        }
    } else if spec_class(code) == BPF_ALU {
        let op = spec_op(code);
        if op == BPF_NEG {
            Ok(Emit::Op(Assign { dst: Lvalue::RegA, src: Rvalue::Neg }))
        } else {
            let v = if spec_src(code) == BPF_X {
                Scalar::X
            } else {
                Scalar::Imm(insn.k)
            };
            if op == BPF_ADD {
                Ok(Emit::Op(Assign { dst: Lvalue::RegA, src: Rvalue::Alu(AluOp::Add, v) }))
            } else if op == BPF_SUB {
                Ok(Emit::Op(Assign { dst: Lvalue::RegA, src: Rvalue::Alu(AluOp::Sub, v) }))
            } else if op == BPF_MUL {
                Ok(Emit::Op(Assign { dst: Lvalue::RegA, src: Rvalue::Alu(AluOp::Mul, v) }))
            } else if op == BPF_DIV {
                Ok(Emit::Op(Assign { dst: Lvalue::RegA, src: Rvalue::Alu(AluOp::Div, v) }))
            } else if op == BPF_MOD {
                Ok(Emit::Op(Assign { dst: Lvalue::RegA, src: Rvalue::Alu(AluOp::Mod, v) }))
            } else if op == BPF_AND {
                Ok(Emit::Op(Assign { dst: Lvalue::RegA, src: Rvalue::Alu(AluOp::And, v) }))
            } else if op == BPF_OR {
                Ok(Emit::Op(Assign { dst: Lvalue::RegA, src: Rvalue::Alu(AluOp::Or, v) }))
            } else if op == BPF_XOR {
                Ok(Emit::Op(Assign { dst: Lvalue::RegA, src: Rvalue::Alu(AluOp::Xor, v) }))
            } else if op == BPF_LSH {
                Ok(Emit::Op(Assign { dst: Lvalue::RegA, src: Rvalue::Alu(AluOp::Lsh, v) }))
            } else if op == BPF_RSH {
                Ok(Emit::Op(Assign { dst: Lvalue::RegA, src: Rvalue::Alu(AluOp::Rsh, v) }))
            } else {
                Err(ConvertError::InvalidInstruction)
            }
        }
    } else if spec_class(code) == BPF_MISC {
        let mop = spec_miscop(code);
        if mop == BPF_TAX {
            Ok(Emit::Op(Assign { dst: Lvalue::RegX, src: Rvalue::Move(Scalar::A) }))
        } else if mop == BPF_TXA {
            Ok(Emit::Op(Assign { dst: Lvalue::RegA, src: Rvalue::Move(Scalar::X) }))
        } else {
            Err(ConvertError::InvalidInstruction)
        }
    } else {
        Err(ConvertError::InvalidInstruction)
    }
}

/// Lower one instruction to its IR operation. Pure dispatch over the
/// opcode fields; fails exactly as [`spec_translate_insn`] says.
pub fn translate_insn(insn: &Insn, idx: u64) -> (r: Result<Emit, ConvertError>)
    requires
        idx + 1 + u32::MAX <= u64::MAX,
    ensures
        r == spec_translate_insn(*insn, idx),
{
    let code = insn.code;
    let cls = bpf_class(code);
    if cls == BPF_RET {
        let rv = bpf_rval(code);
        if rv == BPF_A {
            Ok(Emit::End(Term::Ret(Scalar::A)))
        } else if rv == BPF_K {
            Ok(Emit::End(Term::Ret(Scalar::Imm(insn.k))))
        } else {
            Err(ConvertError::InvalidInstruction)
        }
    } else if cls == BPF_LD {
        let mode = bpf_mode(code);
        let size = bpf_size(code);
        if (mode == BPF_ABS || mode == BPF_IND) && (size == BPF_W || size == BPF_H || size
            == BPF_B) {
            let sz = if size == BPF_W {
                Size::Word
            } else if size == BPF_H {
                Size::Half
            } else {
                Size::Byte
            };
            let off = if mode == BPF_IND {
                Offset::Ind(insn.k)
            } else {
                Offset::Abs(insn.k)
            };
            Ok(Emit::Op(Assign { dst: Lvalue::RegA, src: Rvalue::PacketRead(sz, off) }))
        } else if size == BPF_W && mode == BPF_LEN {
            Err(ConvertError::UnsupportedInstruction)
        } else if size == BPF_W && mode == BPF_IMM {
            Ok(Emit::Op(Assign { dst: Lvalue::RegA, src: Rvalue::Move(Scalar::Imm(insn.k)) }))
        } else if size == BPF_W && mode == BPF_MEM {
            Ok(Emit::Op(Assign { dst: Lvalue::RegA, src: Rvalue::MemRead(insn.k) }))
        } else {
            Err(ConvertError::InvalidInstruction)
        }
    } else if cls == BPF_LDX {
        let mode = bpf_mode(code);
        let size = bpf_size(code);
        if size == BPF_W && mode == BPF_LEN {
            Err(ConvertError::UnsupportedInstruction)
        } else if size == BPF_B && mode == BPF_MSH {
            Ok(Emit::Op(Assign { dst: Lvalue::RegX, src: Rvalue::MaskShift(insn.k) }))
        } else if size == BPF_W && mode == BPF_IMM {
            Ok(Emit::Op(Assign { dst: Lvalue::RegX, src: Rvalue::Move(Scalar::Imm(insn.k)) }))
        } else if size == BPF_W && mode == BPF_MEM {
            Ok(Emit::Op(Assign { dst: Lvalue::RegX, src: Rvalue::MemRead(insn.k) }))
        } else {
            Err(ConvertError::InvalidInstruction)
        }
    } else if cls == BPF_ST {
        Ok(Emit::Op(Assign { dst: Lvalue::Mem(insn.k), src: Rvalue::Move(Scalar::A) }))
    } else if cls == BPF_STX {
        Ok(Emit::Op(Assign { dst: Lvalue::Mem(insn.k), src: Rvalue::Move(Scalar::X) }))
    } else if cls == BPF_JMP {
        let op = bpf_op(code);
        if op == BPF_JA {
            Ok(Emit::End(Term::Br(idx + 1 + (insn.k as u64))))
        } else {
            let rhs = if bpf_src(code) == BPF_X {
                Scalar::X
            } else {
                Scalar::Imm(insn.k)
            };
            let on_true = idx + 1 + (insn.jt as u64);
            let on_false = idx + 1 + (insn.jf as u64);
            if op == BPF_JGT {
                Ok(Emit::End(Term::CondBr { op: CondOp::Jgt, rhs: rhs, on_true: on_true, on_false: on_false }))
            } else if op == BPF_JGE {
                Ok(Emit::End(Term::CondBr { op: CondOp::Jge, rhs: rhs, on_true: on_true, on_false: on_false }))
            } else if op == BPF_JEQ {
                Ok(Emit::End(Term::CondBr { op: CondOp::Jeq, rhs: rhs, on_true: on_true, on_false: on_false }))
            } else if op == BPF_JSET {
                Ok(Emit::End(Term::CondBr { op: CondOp::Jset, rhs: rhs, on_true: on_true, on_false: on_false }))
            } else {
                Err(ConvertError::InvalidInstruction)
            }
        }
    } else if cls == BPF_ALU {
        let op = bpf_op(code);
        if op == BPF_NEG {
            Ok(Emit::Op(Assign { dst: Lvalue::RegA, src: Rvalue::Neg }))
        } else {
            let v = if bpf_src(code) == BPF_X {
                Scalar::X
            } else {
                Scalar::Imm(insn.k)
            };
            if op == BPF_ADD {
                Ok(Emit::Op(Assign { dst: Lvalue::RegA, src: Rvalue::Alu(AluOp::Add, v) }))
            } else if op == BPF_SUB {
                Ok(Emit::Op(Assign { dst: Lvalue::RegA, src: Rvalue::Alu(AluOp::Sub, v) }))
            } else if op == BPF_MUL {
                Ok(Emit::Op(Assign { dst: Lvalue::RegA, src: Rvalue::Alu(AluOp::Mul, v) }))
            } else if op == BPF_DIV {
                Ok(Emit::Op(Assign { dst: Lvalue::RegA, src: Rvalue::Alu(AluOp::Div, v) }))
            } else if op == BPF_MOD {
                Ok(Emit::Op(Assign { dst: Lvalue::RegA, src: Rvalue::Alu(AluOp::Mod, v) }))
            } else if op == BPF_AND {
                Ok(Emit::Op(Assign { dst: Lvalue::RegA, src: Rvalue::Alu(AluOp::And, v) }))
            } else if op == BPF_OR {
                Ok(Emit::Op(Assign { dst: Lvalue::RegA, src: Rvalue::Alu(AluOp::Or, v) }))
            } else if op == BPF_XOR {
                Ok(Emit::Op(Assign { dst: Lvalue::RegA, src: Rvalue::Alu(AluOp::Xor, v) }))
            } else if op == BPF_LSH {
                Ok(Emit::Op(Assign { dst: Lvalue::RegA, src: Rvalue::Alu(AluOp::Lsh, v) }))
            } else if op == BPF_RSH {
                Ok(Emit::Op(Assign { dst: Lvalue::RegA, src: Rvalue::Alu(AluOp::Rsh, v) }))
            } else {
                Err(ConvertError::InvalidInstruction)
            }
        }
    } else if cls == BPF_MISC {
        let mop = bpf_miscop(code);
        if mop == BPF_TAX {
            Ok(Emit::Op(Assign { dst: Lvalue::RegX, src: Rvalue::Move(Scalar::A) }))
        } else if mop == BPF_TXA {
            Ok(Emit::Op(Assign { dst: Lvalue::RegA, src: Rvalue::Move(Scalar::X) }))
        } else {
            Err(ConvertError::InvalidInstruction)
        }
    } else {
        Err(ConvertError::InvalidInstruction)
    }
}

/// The block built for `insn` at position `idx` of a program of `n`
/// instructions: the emitted operation, and for an assignment the
/// fallthrough branch into the next block, as long as one exists. A final
/// block left without a terminator is caught by module verification.
pub open spec fn spec_block_of(insn: Insn, idx: u64, n: nat) -> Result<SpecBlock, ConvertError> {
    match spec_translate_insn(insn, idx) {
        Err(e) => Err(e),
        Ok(Emit::End(t)) => Ok(SpecBlock { stmts: Seq::empty(), term: Some(t) }),
        Ok(Emit::Op(a)) => Ok(
            SpecBlock {
                stmts: seq![a],
                term: if idx + 1 < n {
                    Some(Term::Br((idx + 1) as u64))
                } else {
                    None
                },
            },
        ),
    }
}

/// The blocks of instructions `idx ..` of the program, or the first error
/// among them in source order.
pub open spec fn spec_translate_from(insns: Seq<Insn>, idx: nat) -> Result<
    Seq<SpecBlock>,
    ConvertError,
>
    decreases insns.len() - idx,
{
    if idx >= insns.len() {
        Ok(Seq::empty())
    } else {
        match spec_block_of(insns[idx as int], idx as u64, insns.len()) {
            Err(e) => Err(e),
            Ok(b) => match spec_translate_from(insns, idx + 1) {
                Err(e) => Err(e),
                Ok(rest) => Ok(seq![b] + rest),
            },
        }
    }
}

/// The whole conversion, before verification: the entry block, which
/// branches into the block of instruction 0 as soon as that block exists,
/// and one block per instruction.
pub open spec fn spec_translate_program(insns: Seq<Insn>) -> Result<SpecModule, ConvertError> {
    match spec_translate_from(insns, 0) {
        Err(e) => Err(e),
        Ok(blocks) => Ok(
            SpecModule {
                entry: SpecBlock {
                    stmts: Seq::empty(),
                    term: if insns.len() > 0 {
                        Some(Term::Br(0))
                    } else {
                        None
                    },
                },
                blocks: blocks,
            },
        ),
    }
}

proof fn lemma_translate_from_ok(insns: Seq<Insn>, idx: nat, blocks: Seq<SpecBlock>)
    requires
        idx <= insns.len(),
        blocks.len() == insns.len() - idx,
        forall|j: int|
            idx <= j < insns.len() ==> ((#[trigger] spec_block_of(
                insns[j],
                j as u64,
                insns.len(),
            )) matches Ok(b) && blocks[j - idx] == b),
    ensures
        spec_translate_from(insns, idx) == Ok::<Seq<SpecBlock>, ConvertError>(blocks),
    decreases insns.len() - idx,
{
    if idx >= insns.len() {
        assert(blocks =~= Seq::<SpecBlock>::empty());
    } else {
        let rest = blocks.subrange(1, blocks.len() as int);
        lemma_translate_from_ok(insns, idx + 1, rest);
        assert(spec_block_of(insns[idx as int], idx as u64, insns.len()) matches Ok(b)
            && blocks[0] == b);
        assert(blocks =~= seq![blocks[0]] + rest);
    }
}

proof fn lemma_translate_from_err(insns: Seq<Insn>, idx: nat, bad: nat, e: ConvertError)
    requires
        idx <= bad < insns.len(),
        forall|j: int|
            idx <= j < bad ==> (#[trigger] spec_block_of(insns[j], j as u64, insns.len())) is Ok,
        spec_block_of(insns[bad as int], bad as u64, insns.len()) == Err::<SpecBlock, ConvertError>(
            e,
        ),
    ensures
        spec_translate_from(insns, idx) == Err::<Seq<SpecBlock>, ConvertError>(e),
    decreases bad - idx,
{
    if idx < bad {
        lemma_translate_from_err(insns, idx + 1, bad, e);
    }
}

/// Convert a whole program into a module: one block per instruction,
/// blocks wired by the translated branches and the fallthrough rule, the
/// entry block in front. Fails with the first instruction's error, in
/// source order; branch targets are not validated here.
pub fn translate_program(insns: &[Insn]) -> (r: Result<Module, ConvertError>)
    requires
        insns@.len() + 1 + u32::MAX <= u64::MAX,
    ensures
        match r {
            Ok(m) => spec_translate_program(insns@) == Ok::<SpecModule, ConvertError>(m@)
                && m@.blocks.len() == insns@.len(),
            Err(e) => spec_translate_program(insns@) == Err::<SpecModule, ConvertError>(e),
        },
{
    let n = insns.len();
    let mut blocks: Vec<Block> = Vec::new();
    let mut i: usize = 0;
    while i < n
        invariant
            n == insns@.len(),
            insns@.len() + 1 + u32::MAX <= u64::MAX,
            0 <= i <= n,
            blocks@.len() == i,
            forall|j: int|
                0 <= j < i ==> ((#[trigger] spec_block_of(insns@[j], j as u64, insns@.len()))
                    matches Ok(b) && blocks@[j]@ == b),
        decreases n - i,
    {
        let insn = insns[i];
        match translate_insn(&insn, i as u64) {
            Err(e) => {
                proof {
                    lemma_translate_from_err(insns@, 0, i as nat, e);
                }
                return Err(e);
            },
            Ok(Emit::End(t)) => {
                let b = Block { stmts: Vec::new(), term: Some(t) };
                assert(b@ == spec_block_of(insns@[i as int], i as u64, insns@.len())->Ok_0);
                blocks.push(b);
            },
            Ok(Emit::Op(a)) => {
                let term = if i + 1 < n {
                    Some(Term::Br((i as u64) + 1))
                } else {
                    None
                };
                let mut stmts: Vec<Assign> = Vec::new();
                stmts.push(a);
                let b = Block { stmts, term };
                assert(b@.stmts =~= seq![a]);
                assert(b@ == spec_block_of(insns@[i as int], i as u64, insns@.len())->Ok_0);
                blocks.push(b);
            },
        }
        i = i + 1;
    }
    let entry_term = if n > 0 {
        Some(Term::Br(0))
    } else {
        None
    };
    let entry = Block { stmts: Vec::new(), term: entry_term };
    let m = Module { entry, blocks };
    proof {
        lemma_translate_from_ok(insns@, 0, m@.blocks);
        assert(m@.entry.stmts =~= Seq::<Assign>::empty());
        assert(spec_translate_program(insns@) matches Ok(sm) && sm.entry == m@.entry && sm.blocks
            == m@.blocks);
    }
    Ok(m)
}

} // verus!
