//! The reference evaluator: runs a translated module on a packet buffer
//! and produces the 32-bit verdict native execution would.
//!
//! Machine state is the accumulator `A`, the index register `X` and the
//! sixteen-word scratch array `M`, all zero at entry. The packet-access
//! helper routines are given the semantics the helper library documents:
//! big-endian loads of one, two or four bytes, zero when any touched byte
//! lies outside the buffer, and mask-and-shift as `(packet[k] & 0xf) << 2`.
//!
//! Evaluation is total and never aborts the host: it yields `None` where
//! native code would trap or fall off the program — a division or
//! remainder by zero (or the one overflowing signed division), a scratch
//! index outside `M`, a block without terminator, or a branch that leaves
//! the block table or points backwards.

use vstd::prelude::*;

use crate::ir::{Assign, Block, CondOp, Lvalue, Module, Offset, Rvalue, Scalar, SpecModule, Size, Term};

verus! {

/// Number of scratch words.
pub const MEM_WORDS: u32 = 16;

/// Machine state of the virtual machine.
pub ghost struct SpecVm {
    pub a: i32,
    pub x: i32,
    pub mem: Seq<i32>,
}

/// One byte of the packet, zero-extended; 0 outside the buffer.
pub open spec fn spec_load_byte(pkt: Seq<u8>, off: i32) -> i32 {
    if 0 <= off && off < pkt.len() {
        pkt[off as int] as i32
    } else {
        0
    }
}

/// Two packet bytes, big endian; 0 when any byte is outside the buffer.
pub open spec fn spec_load_half(pkt: Seq<u8>, off: i32) -> i32 {
    if 0 <= off && off + 2 <= pkt.len() {
        ((pkt[off as int] as int) * 0x100 + (pkt[off as int + 1] as int)) as i32
    } else {
        0
    }
}

/// Four packet bytes, big endian; 0 when any byte is outside the buffer.
pub open spec fn spec_load_word(pkt: Seq<u8>, off: i32) -> i32 {
    if 0 <= off && off + 4 <= pkt.len() {
        (((pkt[off as int] as int) * 0x1000000 + (pkt[off as int + 1] as int) * 0x10000 + (
        pkt[off as int + 2] as int) * 0x100 + (pkt[off as int + 3] as int)) as u32) as i32
    } else {
        0
    }
}

/// The mask-and-shift helper: `(packet[k] & 0xf) << 2`, 0 outside the
/// buffer.
pub open spec fn spec_mask_shift(pkt: Seq<u8>, off: i32) -> i32 {
    if 0 <= off && off < pkt.len() {
        (((pkt[off as int] & 0x0f) as int) * 4) as i32
    } else {
        0
    }
}

/// Value of a register or constant; the immediate is reinterpreted as a
/// signed word.
pub open spec fn spec_scalar(s: Scalar, vm: SpecVm) -> i32 {
    match s {
        Scalar::A => vm.a,
        Scalar::X => vm.x,
        Scalar::Imm(k) => k as i32,
    }
}

/// Whether a conditional branch takes its true edge.
pub open spec fn spec_cond(op: CondOp, a: i32, b: i32) -> bool {
    match op {
        CondOp::Jgt => a > b,
        CondOp::Jge => a >= b,
        CondOp::Jeq => a == b,
        CondOp::Jset => (a & b) > 0,
    }
}

/// Value of a right-hand side, or `None` where native code would trap:
/// a scratch read outside `M`, a division or remainder by zero, or the
/// overflowing signed division. All arithmetic wraps as 32-bit two's
/// complement; shift amounts are taken modulo 32.
pub open spec fn spec_rvalue(r: Rvalue, vm: SpecVm, pkt: Seq<u8>) -> Option<i32> {
    match r {
        Rvalue::Move(s) => Some(spec_scalar(s, vm)),
        Rvalue::MemRead(k) => if k < MEM_WORDS {
            Some(vm.mem[k as int])
        } else {
            None
        },
        Rvalue::PacketRead(sz, off) => {
            let o = match off {
                Offset::Abs(k) => k as i32,
                Offset::Ind(k) => vm.x.wrapping_add(k as i32),
            };
            match sz {
                Size::Word => Some(spec_load_word(pkt, o)),
                Size::Half => Some(spec_load_half(pkt, o)),
                Size::Byte => Some(spec_load_byte(pkt, o)),
            }
        },
        Rvalue::MaskShift(k) => Some(spec_mask_shift(pkt, k as i32)),
        Rvalue::Neg => Some((0 as i32).wrapping_sub(vm.a)),
        Rvalue::Alu(op, v) => {
            let b = spec_scalar(v, vm);
            match op {
                crate::ir::AluOp::Add => Some(vm.a.wrapping_add(b)),
                crate::ir::AluOp::Sub => Some(vm.a.wrapping_sub(b)),
                crate::ir::AluOp::Mul => Some(vm.a.wrapping_mul(b)),
                crate::ir::AluOp::Div => vm.a.checked_div(b),
                crate::ir::AluOp::Mod => vm.a.checked_rem(b),
                crate::ir::AluOp::And => Some(vm.a & b),
                crate::ir::AluOp::Or => Some(vm.a | b),
                crate::ir::AluOp::Xor => Some(vm.a ^ b),
                crate::ir::AluOp::Lsh => Some(vm.a.wrapping_shl(b as u32)),
                crate::ir::AluOp::Rsh => Some(vm.a.wrapping_shr(b as u32)),
            }
        },
    }
}

/// Machine state after one assignment, or `None` where it traps.
pub open spec fn spec_do_stmt(s: Assign, vm: SpecVm, pkt: Seq<u8>) -> Option<SpecVm> {
    match spec_rvalue(s.src, vm, pkt) {
        None => None,
        Some(v) => match s.dst {
            Lvalue::RegA => Some(SpecVm { a: v, ..vm }),
            Lvalue::RegX => Some(SpecVm { x: v, ..vm }),
            Lvalue::Mem(k) => if k < MEM_WORDS {
                Some(SpecVm { mem: vm.mem.update(k as int, v), ..vm })
            } else {
                None
            },
        },
    }
}

/// Machine state after the assignments `ss[i ..]`.
pub open spec fn spec_do_stmts(ss: Seq<Assign>, i: int, vm: SpecVm, pkt: Seq<u8>) -> Option<SpecVm>
    decreases ss.len() - i,
{
    if i < 0 || i >= ss.len() {
        Some(vm)
    } else {
        match spec_do_stmt(ss[i], vm, pkt) {
            None => None,
            Some(vm2) => spec_do_stmts(ss, i + 1, vm2, pkt),
        }
    }
}

/// Verdict reached from the terminator of the block at `own`: a return
/// yields its value; a branch continues at its target, which must lie in
/// the block table and strictly ahead of `own`.
pub open spec fn spec_run_term(
    m: SpecModule,
    own: int,
    t: Term,
    vm: SpecVm,
    pkt: Seq<u8>,
) -> Option<i32>
    decreases m.blocks.len() - own, 0int,
{
    match t {
        Term::Ret(s) => Some(spec_scalar(s, vm)),
        Term::Br(target) => if own < target < m.blocks.len() {
            spec_run_from(m, target as int, vm, pkt)
        } else {
            None
        },
        Term::CondBr { op, rhs, on_true, on_false } => {
            let target = if spec_cond(op, vm.a, spec_scalar(rhs, vm)) {
                on_true
            } else {
                on_false
            };
            if own < target < m.blocks.len() {
                spec_run_from(m, target as int, vm, pkt)
            } else {
                None
            }
        },
    }
}

/// Verdict reached from the start of block `pc`.
pub open spec fn spec_run_from(m: SpecModule, pc: int, vm: SpecVm, pkt: Seq<u8>) -> Option<i32>
    decreases m.blocks.len() - pc, 1int,
{
    if pc < 0 || pc >= m.blocks.len() {
        None
    } else {
        match spec_do_stmts(m.blocks[pc].stmts, 0, vm, pkt) {
            None => None,
            Some(vm2) => match m.blocks[pc].term {
                None => None,
                Some(t) => spec_run_term(m, pc, t, vm2, pkt),
            },
        }
    }
}

/// Verdict of a whole module on a packet, starting in the entry block
/// with `A`, `X` and all of `M` zero.
pub open spec fn spec_run_module(m: SpecModule, pkt: Seq<u8>) -> Option<i32> {
    let vm0 = SpecVm { a: 0, x: 0, mem: Seq::new(MEM_WORDS as nat, |i: int| 0i32) };
    match spec_do_stmts(m.entry.stmts, 0, vm0, pkt) {
        None => None,
        Some(vm) => match m.entry.term {
            None => None,
            Some(t) => spec_run_term(m, -1, t, vm, pkt),
        },
    }
}

struct Vm {
    a: i32,
    x: i32,
    mem: Vec<i32>,
}

impl View for Vm {
    type V = SpecVm;

    closed spec fn view(&self) -> SpecVm {
        SpecVm { a: self.a, x: self.x, mem: self.mem@ }
    }
}

fn load_byte(pkt: &[u8], off: i32) -> (r: i32)
    ensures
        r == spec_load_byte(pkt@, off),
{
    if off >= 0 && (off as usize) < pkt.len() {
        pkt[off as usize] as i32
    } else {
        0
    }
}

fn load_half(pkt: &[u8], off: i32) -> (r: i32)
    ensures
        r == spec_load_half(pkt@, off),
{
    if off >= 0 && pkt.len() >= 2 && (off as usize) <= pkt.len() - 2 {
        let o = off as usize;
        (pkt[o] as i32) * 0x100 + (pkt[o + 1] as i32)
    } else {
        0
    }
}

fn load_word(pkt: &[u8], off: i32) -> (r: i32)
    ensures
        r == spec_load_word(pkt@, off),
{
    if off >= 0 && pkt.len() >= 4 && (off as usize) <= pkt.len() - 4 {
        let o = off as usize;
        let w: u32 = (pkt[o] as u32) * 0x1000000 + (pkt[o + 1] as u32) * 0x10000 + (pkt[o
            + 2] as u32) * 0x100 + (pkt[o + 3] as u32);
        w as i32
    } else {
        0
    }
}

fn mask_shift(pkt: &[u8], off: i32) -> (r: i32)
    ensures
        r == spec_mask_shift(pkt@, off),
{
    if off >= 0 && (off as usize) < pkt.len() {
        ((pkt[off as usize] & 0x0f) as i32) * 4
    } else {
        0
    }
}

fn eval_scalar(s: &Scalar, vm: &Vm) -> (r: i32)
    ensures
        r == spec_scalar(*s, vm@),
{
    match s {
        Scalar::A => vm.a,
        Scalar::X => vm.x,
        Scalar::Imm(k) => *k as i32,
    }
}

fn eval_rvalue(r: &Rvalue, vm: &Vm, pkt: &[u8]) -> (res: Option<i32>)
    requires
        vm.mem@.len() == MEM_WORDS,
    ensures
        res == spec_rvalue(*r, vm@, pkt@),
{
    match r {
        Rvalue::Move(s) => Some(eval_scalar(s, vm)),
        Rvalue::MemRead(k) => if *k < MEM_WORDS {
            Some(vm.mem[*k as usize])
        } else {
            None
        },
        Rvalue::PacketRead(sz, off) => {
            let o = match off {
                Offset::Abs(k) => *k as i32,
                Offset::Ind(k) => vm.x.wrapping_add(*k as i32),
            };
            match sz {
                Size::Word => Some(load_word(pkt, o)),
                Size::Half => Some(load_half(pkt, o)),
                Size::Byte => Some(load_byte(pkt, o)),
            }
        },
        Rvalue::MaskShift(k) => Some(mask_shift(pkt, *k as i32)),
        Rvalue::Neg => Some((0 as i32).wrapping_sub(vm.a)),
        Rvalue::Alu(op, v) => {
            let b = eval_scalar(v, vm);
            match op {
                crate::ir::AluOp::Add => Some(vm.a.wrapping_add(b)),
                crate::ir::AluOp::Sub => Some(vm.a.wrapping_sub(b)),
                crate::ir::AluOp::Mul => Some(vm.a.wrapping_mul(b)),
                crate::ir::AluOp::Div => vm.a.checked_div(b),
                crate::ir::AluOp::Mod => vm.a.checked_rem(b),
                crate::ir::AluOp::And => Some(vm.a & b),
                crate::ir::AluOp::Or => Some(vm.a | b),
                crate::ir::AluOp::Xor => Some(vm.a ^ b),
                crate::ir::AluOp::Lsh => Some(vm.a.wrapping_shl(b as u32)),
                crate::ir::AluOp::Rsh => Some(vm.a.wrapping_shr(b as u32)),
            }
        },
    }
}

fn do_stmt(s: &Assign, vm: &mut Vm, pkt: &[u8]) -> (ok: bool)
    requires
        old(vm).mem@.len() == MEM_WORDS,
    ensures
        final(vm).mem@.len() == MEM_WORDS,
        match spec_do_stmt(*s, old(vm)@, pkt@) {
            Some(vm2) => ok && final(vm)@ == vm2,
            None => !ok && final(vm)@ == old(vm)@,
        },
{
    match eval_rvalue(&s.src, vm, pkt) {
        None => false,
        Some(v) => match s.dst {
            Lvalue::RegA => {
                vm.a = v;
                true
            },
            Lvalue::RegX => {
                vm.x = v;
                true
            },
            Lvalue::Mem(k) => if k < MEM_WORDS {
                vm.mem[k as usize] = v;
                true
            } else {
                false
            },
        },
    }
}

fn do_stmts(ss: &Vec<Assign>, vm: &mut Vm, pkt: &[u8]) -> (ok: bool)
    requires
        old(vm).mem@.len() == MEM_WORDS,
    ensures
        final(vm).mem@.len() == MEM_WORDS,
        match spec_do_stmts(ss@, 0, old(vm)@, pkt@) {
            Some(vm2) => ok && final(vm)@ == vm2,
            None => !ok,
        },
{
    let n = ss.len();
    let mut i: usize = 0;
    while i < n
        invariant
            n == ss@.len(),
            0 <= i <= n,
            vm.mem@.len() == MEM_WORDS,
            spec_do_stmts(ss@, 0, old(vm)@, pkt@) == spec_do_stmts(ss@, i as int, vm@, pkt@),
        decreases n - i,
    {
        let ok = do_stmt(&ss[i], vm, pkt);
        if !ok {
            return false;
        }
        i = i + 1;
    }
    true
}

fn new_vm() -> (r: Vm)
    ensures
        r@ == (SpecVm { a: 0, x: 0, mem: Seq::new(MEM_WORDS as nat, |i: int| 0i32) }),
{
    let mut mem: Vec<i32> = Vec::new();
    let mut i: u32 = 0;
    while i < MEM_WORDS
        invariant
            0 <= i <= MEM_WORDS,
            mem@.len() == i,
            forall|j: int| 0 <= j < i ==> mem@[j] == 0i32,
        decreases MEM_WORDS - i,
    {
        mem.push(0);
        i = i + 1;
    }
    let r = Vm { a: 0, x: 0, mem };
    proof {
        assert(r@.mem =~= Seq::new(MEM_WORDS as nat, |i: int| 0i32));
    }
    r
}

/// Run a module on a packet, as [`spec_run_module`] says: the verdict of
/// the program, or `None` where native execution would trap or the module
/// is not structurally sound along the path taken.
pub fn run_module(m: &Module, pkt: &[u8]) -> (r: Option<i32>)
    ensures
        r == spec_run_module(m@, pkt@),
{
    let mut vm = new_vm();
    if !do_stmts(&m.entry.stmts, &mut vm, pkt) {
        return None;
    }
    let mut cur: Term = match m.entry.term {
        None => {
            return None;
        },
        Some(t) => t,
    };
    let mut own_plus: u64 = 0;
    let n64 = m.blocks.len() as u64;
    loop
        invariant
            vm.mem@.len() == MEM_WORDS,
            n64 == m.blocks@.len(),
            m@.blocks.len() == m.blocks@.len(),
            own_plus <= m.blocks@.len(),
            m.blocks@.len() <= usize::MAX,
            spec_run_module(m@, pkt@) == spec_run_term(
                m@,
                own_plus as int - 1,
                cur,
                vm@,
                pkt@,
            ),
        decreases m.blocks@.len() - own_plus,
    {
        let target: u64;
        match cur {
            Term::Ret(s) => {
                return Some(eval_scalar(&s, &vm));
            },
            Term::Br(t) => {
                target = t;
            },
            Term::CondBr { op, rhs, on_true, on_false } => {
                let b = eval_scalar(&rhs, &vm);
                let taken = match op {
                    CondOp::Jgt => vm.a > b,
                    CondOp::Jge => vm.a >= b,
                    CondOp::Jeq => vm.a == b,
                    CondOp::Jset => (vm.a & b) > 0,
                };
                target = if taken {
                    on_true
                } else {
                    on_false
                };
            },
        }
        if !(target >= own_plus && target < n64) {
            assert(spec_run_term(m@, own_plus as int - 1, cur, vm@, pkt@) is None);
            return None;
        }
        assert(spec_run_term(m@, own_plus as int - 1, cur, vm@, pkt@) == spec_run_from(
            m@,
            target as int,
            vm@,
            pkt@,
        ));
        assert(target < m.blocks@.len());
        let ti = target as usize;
        let blk: &Block = &m.blocks[ti];
        assert(m@.blocks[ti as int] == m.blocks@[ti as int]@);
        let ghost vm_pre = vm@;
        assert(blk.stmts@ == m@.blocks[target as int].stmts);
        if !do_stmts(&blk.stmts, &mut vm, pkt) {
            assert(spec_run_from(m@, target as int, vm_pre, pkt@) is None);
            return None;
        }
        assert(spec_do_stmts(m@.blocks[target as int].stmts, 0, vm_pre, pkt@) == Some(vm@));
        match &blk.term {
            None => {
                assert(spec_run_from(m@, target as int, vm_pre, pkt@) is None);
                return None;
            },
            Some(t2) => {
                cur = *t2;
                assert(spec_run_from(m@, target as int, vm_pre, pkt@) == spec_run_term(
                    m@,
                    target as int,
                    cur,
                    vm@,
                    pkt@,
                ));
            },
        }
        own_plus = target + 1;
    }
}

} // verus!
