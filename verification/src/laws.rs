//! The library's stated laws: what the translator guarantees of whole
//! programs, proved once and for all from the contracts in the other
//! modules.

use vstd::prelude::*;

use crate::converter::spec_convert_result;
use crate::insn::{
    spec_class, spec_mode, spec_op, spec_rval, spec_size, Insn, BPF_JA, BPF_JMP, BPF_LD, BPF_LDX,
    BPF_LEN, BPF_RET, BPF_W, BPF_A, BPF_K,
};
use crate::ir::{spec_block_wf, spec_module_wf, SpecBlock, Term};
use crate::translate::{
    spec_block_of, spec_translate_from, spec_translate_insn, spec_translate_program, ConvertError,
    Emit,
};

verus! {

/// An instruction the taxonomy accepts: translation emits an operation
/// for it rather than an error.
pub open spec fn spec_insn_supported(insn: Insn) -> bool {
    spec_translate_insn(insn, 0) is Ok
}

/// An instruction that ends its block: a return or a jump.
pub open spec fn spec_insn_terminates(insn: Insn) -> bool {
    spec_translate_insn(insn, 0) matches Ok(Emit::End(_))
}

/// The jump offsets of the instruction at position `i` stay inside a
/// program of `n` instructions.
pub open spec fn spec_jump_in_range(insn: Insn, i: int, n: int) -> bool {
    spec_class(insn.code) == BPF_JMP ==> if spec_op(insn.code) == BPF_JA {
        i + 1 + insn.k < n
    } else {
        i + 1 + insn.jt < n && i + 1 + insn.jf < n
    }
}

/// A well-formed program: nonempty, every instruction inside the
/// taxonomy, every jump target inside the program, and a return or jump
/// as the last instruction, so that no block is left without terminator.
pub open spec fn spec_program_wf(insns: Seq<Insn>) -> bool {
    &&& insns.len() >= 1
    &&& forall|i: int| 0 <= i < insns.len() ==> spec_insn_supported(#[trigger] insns[i])
    &&& forall|i: int|
        0 <= i < insns.len() ==> spec_jump_in_range(#[trigger] insns[i], i, insns.len() as int)
    &&& spec_insn_terminates(insns[insns.len() - 1])
}

/// Whether an instruction translates, which operation it becomes, and
/// which error rejects it do not depend on its position; the position
/// only shifts branch targets.
pub proof fn lemma_position_independent(insn: Insn, i: u64, j: u64)
    ensures
        (spec_translate_insn(insn, i) is Ok) == (spec_translate_insn(insn, j) is Ok),
        (spec_translate_insn(insn, i) matches Ok(Emit::End(_))) == (spec_translate_insn(insn, j)
            matches Ok(Emit::End(_))),
        spec_translate_insn(insn, i) is Err ==> spec_translate_insn(insn, i)
            == spec_translate_insn(insn, j),
{
}

/// Every instruction inside the taxonomy translates without error, at
/// every position of a program; no instruction outside it ever does.
pub proof fn lemma_supported_translates(insn: Insn, idx: u64)
    ensures
        (spec_translate_insn(insn, idx) is Ok) == spec_insn_supported(insn),
{
    lemma_position_independent(insn, 0, idx);
}

/// Converting a single-instruction program of any supported kind
/// succeeds: translation itself rejects nothing the taxonomy accepts.
pub proof fn lemma_single_insn_translates(insn: Insn)
    requires
        spec_insn_supported(insn),
    ensures
        spec_translate_program(seq![insn]) is Ok,
{
    let s = seq![insn];
    lemma_supported_translates(insn, 0);
    assert(spec_block_of(s[0], 0, s.len()) is Ok);
    assert(spec_translate_from(s, 1) == Ok::<Seq<SpecBlock>, ConvertError>(Seq::empty()));
}

/// A single-return program converts end to end: the module it yields
/// passes structural verification, and its text is handed out.
pub proof fn lemma_single_return_converts(insn: Insn)
    requires
        spec_class(insn.code) == BPF_RET,
        spec_rval(insn.code) == BPF_A || spec_rval(insn.code) == BPF_K,
    ensures
        spec_convert_result(seq![insn]) is Ok,
{
    theorem_wf_program_converts(seq![insn]);
}

/// A single-instruction program whose instruction does not end its block
/// leaves that block without a terminator, and the conversion then fails
/// structural verification: only a lone return stands on its own (a lone
/// jump converts too, but its target lies beyond the block table).
pub proof fn lemma_single_open_block_fails_verification(insn: Insn)
    requires
        spec_insn_supported(insn),
        !spec_insn_terminates(insn),
    ensures
        spec_convert_result(seq![insn]) == Err::<Seq<char>, ConvertError>(
            ConvertError::VerificationFailed,
        ),
{
    let s = seq![insn];
    lemma_single_insn_translates(insn);
    assert(spec_block_of(s[0], 0, 1) matches Ok(b) && b.term is None);
    assert(spec_translate_program(s) matches Ok(m) && !spec_module_wf(m)) by {
        assert(spec_translate_from(s, 1) == Ok::<Seq<SpecBlock>, ConvertError>(Seq::empty()));
        let m = spec_translate_program(s)->Ok_0;
        assert(!spec_block_wf(m.blocks[0], 0, 1));
    }
}

proof fn lemma_block_wf(insns: Seq<Insn>, i: int)
    requires
        spec_program_wf(insns),
        insns.len() + 1 + u32::MAX <= u64::MAX,
        0 <= i < insns.len(),
    ensures
        spec_block_of(insns[i], i as u64, insns.len()) matches Ok(b) && spec_block_wf(
            b,
            i,
            insns.len() as int,
        ),
{
    let insn = insns[i];
    let n = insns.len();
    lemma_position_independent(insn, 0, i as u64);
    assert(i + 1 + insn.k <= u64::MAX);
    assert(i + 1 + insn.jt <= u64::MAX);
    assert(i + 1 + insn.jf <= u64::MAX);
    if i + 1 < n {
    } else {
        assert(spec_insn_terminates(insns[n - 1]));
    }
}

proof fn lemma_translate_from_wf(insns: Seq<Insn>, i: nat)
    requires
        spec_program_wf(insns),
        insns.len() + 1 + u32::MAX <= u64::MAX,
        i <= insns.len(),
    ensures
        spec_translate_from(insns, i) matches Ok(bs) && bs.len() == insns.len() - i && forall|
            p: int,
        |
            0 <= p < insns.len() - i ==> spec_block_wf(#[trigger] bs[p], i + p, insns.len() as int),
    decreases insns.len() - i,
{
    if i < insns.len() {
        lemma_block_wf(insns, i as int);
        lemma_translate_from_wf(insns, i + 1);
    }
}

/// Converting a well-formed program of `n` instructions succeeds, yields
/// one block per instruction beside the entry block — `n + 1` blocks in
/// all — and the module passes structural verification, so the conversion
/// returns its text.
pub proof fn theorem_wf_program_converts(insns: Seq<Insn>)
    requires
        spec_program_wf(insns),
        insns.len() + 1 + u32::MAX <= u64::MAX,
    ensures
        spec_translate_program(insns) matches Ok(m) && m.blocks.len() == insns.len()
            && spec_module_wf(m),
        spec_convert_result(insns) is Ok,
{
    lemma_translate_from_wf(insns, 0);
}

/// Conversion is deterministic: converting the same instruction sequence
/// twice yields textually identical output, or the same error twice.
pub proof fn lemma_conversion_idempotent(
    insns: Seq<Insn>,
    r1: Result<Seq<char>, ConvertError>,
    r2: Result<Seq<char>, ConvertError>,
)
    requires
        r1 == spec_convert_result(insns),
        r2 == spec_convert_result(insns),
    ensures
        r1 == r2,
{
}

/// Branch resolution: an unconditional jump at position `i` with
/// immediate `k` goes to block `i + 1 + k`; a conditional jump takes its
/// true edge to block `i + 1 + jt` and its false edge to block
/// `i + 1 + jf`, each from its own offset field.
pub proof fn lemma_jump_targets(insn: Insn, idx: u64)
    requires
        idx + 1 + u32::MAX <= u64::MAX,
        spec_class(insn.code) == BPF_JMP,
    ensures
        spec_op(insn.code) == BPF_JA ==> (spec_translate_insn(insn, idx) matches Ok(
            Emit::End(Term::Br(t)),
        ) && t == idx + 1 + insn.k),
        spec_translate_insn(insn, idx) matches Ok(
            Emit::End(Term::CondBr { op: _, rhs: _, on_true, on_false }),
        ) ==> on_true == idx + 1 + insn.jt && on_false == idx + 1 + insn.jf,
{
}

/// The two length-based load modes are the exact inputs that fail with
/// `UnsupportedInstruction`; they never translate, and nothing else is
/// rejected as unsupported.
pub proof fn lemma_length_loads_unsupported(insn: Insn, idx: u64)
    ensures
        (spec_translate_insn(insn, idx) == Err::<Emit, ConvertError>(
            ConvertError::UnsupportedInstruction,
        )) == ((spec_class(insn.code) == BPF_LD || spec_class(insn.code) == BPF_LDX) && spec_size(
            insn.code,
        ) == BPF_W && spec_mode(insn.code) == BPF_LEN),
{
}

} // verus!
