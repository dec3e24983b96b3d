//! Translation preserves meaning.
//!
//! A program's meaning is fixed here directly over the instruction list:
//! each instruction acts as the one IR operation it translates to, and a
//! jump moves to the instruction its offsets name, all without building a
//! module. The theorem at the end says that running the translated module
//! — entry block, block table, fallthrough branches and all — computes
//! exactly this meaning, on every packet and from every machine state.

use vstd::prelude::*;

use crate::insn::Insn;
use crate::interp::{
    spec_do_stmt, spec_do_stmts, spec_run_from, spec_run_module, spec_run_term, spec_scalar,
    spec_cond, SpecVm, MEM_WORDS,
};
use crate::ir::{SpecBlock, SpecModule, Term};
use crate::translate::{
    spec_block_of, spec_translate_from, spec_translate_insn, spec_translate_program, ConvertError,
    Emit,
};

verus! {

/// Meaning of a program from instruction `pc` on: the instruction's own
/// operation is applied, execution falls through to the next instruction,
/// a return ends it, and a jump moves to instruction `pc + 1 + offset`.
/// `None` where execution traps, falls off the program, jumps backwards
/// or out of it, or meets an instruction outside the taxonomy.
pub open spec fn spec_exec_insns(insns: Seq<Insn>, pc: int, vm: SpecVm, pkt: Seq<u8>) -> Option<
    i32,
>
    decreases insns.len() - pc,
{
    if pc < 0 || pc >= insns.len() {
        None
    } else {
        match spec_translate_insn(insns[pc], pc as u64) {
            Err(_) => None,
            Ok(Emit::Op(a)) => match spec_do_stmt(a, vm, pkt) {
                None => None,
                Some(vm2) => if pc + 1 < insns.len() {
                    spec_exec_insns(insns, pc + 1, vm2, pkt)
                } else {
                    None
                },
            },
            Ok(Emit::End(t)) => match t {
                Term::Ret(s) => Some(spec_scalar(s, vm)),
                Term::Br(target) => if pc < target < insns.len() {
                    spec_exec_insns(insns, target as int, vm, pkt)
                } else {
                    None
                },
                Term::CondBr { op, rhs, on_true, on_false } => {
                    let target = if spec_cond(op, vm.a, spec_scalar(rhs, vm)) {
                        on_true
                    } else {
                        on_false
                    };
                    if pc < target < insns.len() {
                        spec_exec_insns(insns, target as int, vm, pkt)
                    } else {
                        None
                    }
                },
            },
        }
    }
}

/// Meaning of a whole program on a packet, from the zeroed machine state.
pub open spec fn spec_exec_program(insns: Seq<Insn>, pkt: Seq<u8>) -> Option<i32> {
    spec_exec_insns(
        insns,
        0,
        SpecVm { a: 0, x: 0, mem: Seq::new(MEM_WORDS as nat, |i: int| 0i32) },
        pkt,
    )
}

proof fn lemma_translate_from_index(insns: Seq<Insn>, i: nat)
    requires
        i <= insns.len(),
        spec_translate_from(insns, i) is Ok,
    ensures
        spec_translate_from(insns, i) matches Ok(bs) && bs.len() == insns.len() - i && forall|
            p: int,
        |
            i <= p < insns.len() ==> ((#[trigger] spec_block_of(insns[p], p as u64, insns.len()))
                matches Ok(b) && bs[p - i] == b),
    decreases insns.len() - i,
{
    if i < insns.len() {
        lemma_translate_from_index(insns, i + 1);
    }
}

proof fn lemma_run_from_matches(
    insns: Seq<Insn>,
    m: SpecModule,
    pc: int,
    vm: SpecVm,
    pkt: Seq<u8>,
)
    requires
        insns.len() + 1 + u32::MAX <= u64::MAX,
        spec_translate_program(insns) == Ok::<SpecModule, ConvertError>(m),
        0 <= pc < insns.len(),
    ensures
        spec_run_from(m, pc, vm, pkt) == spec_exec_insns(insns, pc, vm, pkt),
    decreases insns.len() - pc,
{
    let n = insns.len();
    lemma_translate_from_index(insns, 0);
    assert(m.blocks.len() == n);
    let b = m.blocks[pc];
    assert(spec_block_of(insns[pc], pc as u64, n) == Ok::<SpecBlock, ConvertError>(b));
    match spec_translate_insn(insns[pc], pc as u64) {
        Err(_) => {
            assert(false);
        },
        Ok(Emit::Op(a)) => {
            assert(b.stmts =~= seq![a]);
            assert(b.stmts[0] == a);
            match spec_do_stmt(a, vm, pkt) {
                None => {
                    assert(spec_do_stmts(b.stmts, 0, vm, pkt) is None);
                },
                Some(vm2) => {
                    assert(spec_do_stmts(b.stmts, 1, vm2, pkt) == Some(vm2));
                    assert(spec_do_stmts(b.stmts, 0, vm, pkt) == Some(vm2));
                    if pc + 1 < n {
                        assert(b.term == Some(Term::Br((pc + 1) as u64)));
                        lemma_run_from_matches(insns, m, pc + 1, vm2, pkt);
                    } else {
                        assert(b.term is None);
                    }
                },
            }
        },
        Ok(Emit::End(t)) => {
            assert(b.stmts =~= Seq::<crate::ir::Assign>::empty());
            assert(spec_do_stmts(b.stmts, 0, vm, pkt) == Some(vm));
            assert(b.term == Some(t));
            match t {
                Term::Ret(_) => {
                },
                Term::Br(target) => {
                    if pc < target < n {
                        lemma_run_from_matches(insns, m, target as int, vm, pkt);
                    }
                },
                Term::CondBr { op, rhs, on_true, on_false } => {
                    let target = if spec_cond(op, vm.a, spec_scalar(rhs, vm)) {
                        on_true
                    } else {
                        on_false
                    };
                    if pc < target < n {
                        lemma_run_from_matches(insns, m, target as int, vm, pkt);
                    }
                },
            }
        },
    }
}

/// Translation preserves meaning: whenever a program translates, running
/// the translated module on a packet returns exactly the program's own
/// meaning — the same verdict, and a trap where the program traps.
pub proof fn theorem_translation_preserves_meaning(insns: Seq<Insn>, pkt: Seq<u8>)
    requires
        insns.len() + 1 + u32::MAX <= u64::MAX,
        spec_translate_program(insns) is Ok,
    ensures
        spec_run_module(spec_translate_program(insns)->Ok_0, pkt) == spec_exec_program(insns, pkt),
{
    let m = spec_translate_program(insns)->Ok_0;
    let vm0 = SpecVm { a: 0, x: 0, mem: Seq::new(MEM_WORDS as nat, |i: int| 0i32) };
    assert(m.entry.stmts =~= Seq::<crate::ir::Assign>::empty());
    assert(spec_do_stmts(m.entry.stmts, 0, vm0, pkt) == Some(vm0));
    if insns.len() > 0 {
        assert(m.entry.term == Some(Term::Br(0)));
        assert(spec_run_module(m, pkt) == spec_run_term(m, -1, Term::Br(0), vm0, pkt));
        lemma_translate_from_index(insns, 0);
        assert(m.blocks.len() == insns.len());
        lemma_run_from_matches(insns, m, 0, vm0, pkt);
    } else {
        assert(m.entry.term is None);
    }
}

} // verus!
