//! Textual serialization of a module.
//!
//! The dump is plain ASCII, one block per label: the entry block under
//! `entry:`, the block of instruction `i` under `Li:`. Every line below a
//! label is one IR operation; a block whose terminator is still missing
//! simply ends after its assignments. The format is fixed, so equal
//! modules always serialize to identical text.

use vstd::prelude::*;

use crate::ir::{
    AluOp, Assign, Block, CondOp, Lvalue, Module, Offset, Rvalue, Scalar, Size, SpecBlock,
    SpecModule, Term,
};

verus! {

/// Every byte of the sequence is ASCII.
pub open spec fn ascii_seq(s: Seq<u8>) -> bool {
    forall|i: int| 0 <= i < s.len() ==> s[i] < 128
}

/// Decimal digits of `v`, most significant first, no leading zeros.
pub open spec fn spec_dec(v: u64) -> Seq<u8>
    decreases v,
{
    if v < 10 {
        seq![((v % 10 + 48) as u8)]
    } else {
        spec_dec(v / 10) + seq![((v % 10 + 48) as u8)]
    }
}

pub open spec fn txt_scalar(s: Scalar) -> Seq<u8> {
    match s {
        Scalar::A => seq![('A' as u8)],
        Scalar::X => seq![('X' as u8)],
        Scalar::Imm(k) => seq![('#' as u8)] + spec_dec(k as u64),
    }
}

pub open spec fn txt_mem(k: u32) -> Seq<u8> {
    seq![('M' as u8), ('[' as u8)] + spec_dec(k as u64) + seq![(']' as u8)]
}

pub open spec fn txt_size(sz: Size) -> Seq<u8> {
    match sz {
        Size::Word => seq![('w' as u8)],
        Size::Half => seq![('h' as u8)],
        Size::Byte => seq![('b' as u8)],
    }
}

pub open spec fn txt_offset(off: Offset) -> Seq<u8> {
    match off {
        Offset::Abs(k) => spec_dec(k as u64),
        Offset::Ind(k) => seq![('X' as u8), ('+' as u8)] + spec_dec(k as u64),
    }
}

pub open spec fn txt_alu_op(op: AluOp) -> Seq<u8> {
    match op {
        AluOp::Add => seq![('+' as u8)],
        AluOp::Sub => seq![('-' as u8)],
        AluOp::Mul => seq![('*' as u8)],
        AluOp::Div => seq![('/' as u8)],
        AluOp::Mod => seq![('%' as u8)],
        AluOp::And => seq![('&' as u8)],
        AluOp::Or => seq![('|' as u8)],
        AluOp::Xor => seq![('^' as u8)],
        AluOp::Lsh => seq![('<' as u8), ('<' as u8)],
        AluOp::Rsh => seq![('>' as u8), ('>' as u8)],
    }
}

pub open spec fn txt_rvalue(r: Rvalue) -> Seq<u8> {
    match r {
        Rvalue::Move(s) => txt_scalar(s),
        Rvalue::MemRead(k) => txt_mem(k),
        Rvalue::PacketRead(sz, off) => seq![('p' as u8), ('k' as u8), ('t' as u8), ('.' as u8)] + txt_size(sz) + seq![('[' as u8)]
            + txt_offset(off) + seq![(']' as u8)],
        Rvalue::MaskShift(k) => seq![('m' as u8), ('s' as u8), ('h' as u8), ('[' as u8)] + spec_dec(k as u64) + seq![(']' as u8)],
        Rvalue::Neg => seq![('-' as u8), ('A' as u8)],
        Rvalue::Alu(op, v) => seq![('A' as u8), (' ' as u8)] + txt_alu_op(op) + seq![(' ' as u8)] + txt_scalar(v),
    }
}

pub open spec fn txt_lvalue(l: Lvalue) -> Seq<u8> {
    match l {
        Lvalue::RegA => seq![('A' as u8)],
        Lvalue::RegX => seq![('X' as u8)],
        Lvalue::Mem(k) => txt_mem(k),
    }
}

pub open spec fn txt_cond(c: CondOp) -> Seq<u8> {
    match c {
        CondOp::Jgt => seq![('>' as u8)],
        CondOp::Jge => seq![('>' as u8), ('=' as u8)],
        CondOp::Jeq => seq![('=' as u8), ('=' as u8)],
        CondOp::Jset => seq![('&' as u8)],
    }
}

pub open spec fn txt_label(t: u64) -> Seq<u8> {
    seq![('L' as u8)] + spec_dec(t)
}

pub open spec fn txt_term(t: Term) -> Seq<u8> {
    match t {
        Term::Ret(s) => seq![('r' as u8), ('e' as u8), ('t' as u8), (' ' as u8)] + txt_scalar(s),
        Term::Br(target) => seq![('b' as u8), ('r' as u8), (' ' as u8)] + txt_label(target),
        Term::CondBr { op, rhs, on_true, on_false } => seq![('b' as u8), ('r' as u8), (' ' as u8), ('A' as u8), (' ' as u8)]
            + txt_cond(op) + seq![(' ' as u8)] + txt_scalar(rhs) + seq![(' ' as u8), ('?' as u8), (' ' as u8)] + txt_label(
            on_true,
        ) + seq![(' ' as u8), (':' as u8), (' ' as u8)] + txt_label(on_false),
    }
}

/// One indented line holding a single assignment.
pub open spec fn txt_stmt_line(s: Assign) -> Seq<u8> {
    seq![(' ' as u8), (' ' as u8)] + txt_lvalue(s.dst) + seq![(' ' as u8), ('=' as u8), (' ' as u8)] + txt_rvalue(s.src) + seq![('\n' as u8)]
}

/// The lines of the assignments `ss[i ..]`.
pub open spec fn txt_stmts_from(ss: Seq<Assign>, i: int) -> Seq<u8>
    decreases ss.len() - i,
{
    if i < 0 || i >= ss.len() {
        Seq::empty()
    } else {
        txt_stmt_line(ss[i]) + txt_stmts_from(ss, i + 1)
    }
}

/// The lines of one block: its assignments, then its terminator if the
/// block already has one.
pub open spec fn txt_block(b: SpecBlock) -> Seq<u8> {
    txt_stmts_from(b.stmts, 0) + match b.term {
        Some(t) => seq![(' ' as u8), (' ' as u8)] + txt_term(t) + seq![('\n' as u8)],
        None => Seq::empty(),
    }
}

/// Labels and lines of the blocks `bs[i ..]`.
pub open spec fn txt_blocks_from(bs: Seq<SpecBlock>, i: int) -> Seq<u8>
    decreases bs.len() - i,
{
    if i < 0 || i >= bs.len() {
        Seq::empty()
    } else {
        txt_label(i as u64) + seq![(':' as u8), ('\n' as u8)] + txt_block(bs[i]) + txt_blocks_from(bs, i + 1)
    }
}

/// The full serialized module: the entry block, then every instruction
/// block in order.
pub open spec fn spec_module_text(m: SpecModule) -> Seq<u8> {
    seq![('e' as u8), ('n' as u8), ('t' as u8), ('r' as u8), ('y' as u8), (':' as u8), ('\n' as u8)] + txt_block(m.entry) + txt_blocks_from(
        m.blocks,
        0,
    )
}

/// Append the decimal digits of `v`.
fn push_dec(out: &mut Vec<u8>, v: u64)
    ensures
        final(out)@ == old(out)@ + spec_dec(v),
        ascii_seq(old(out)@) ==> ascii_seq(final(out)@),
    decreases v,
{
    if v >= 10 {
        push_dec(out, v / 10);
    }
    out.push((v % 10) as u8 + 48);
    assert(out@ =~= old(out)@ + spec_dec(v));
}

fn push_scalar(out: &mut Vec<u8>, s: &Scalar)
    ensures
        final(out)@ == old(out)@ + txt_scalar(*s),
        ascii_seq(old(out)@) ==> ascii_seq(final(out)@),
{
    match s {
        Scalar::A => {
            out.push(('A' as u8));
            assert(out@ =~= old(out)@ + txt_scalar(*s));
        },
        Scalar::X => {
            out.push(('X' as u8));
            assert(out@ =~= old(out)@ + txt_scalar(*s));
        },
        Scalar::Imm(k) => {
            out.push(('#' as u8));
            push_dec(out, *k as u64);
            assert(out@ =~= old(out)@ + txt_scalar(*s));
        },
    }
}

fn push_mem(out: &mut Vec<u8>, k: u32)
    ensures
        final(out)@ == old(out)@ + txt_mem(k),
        ascii_seq(old(out)@) ==> ascii_seq(final(out)@),
{
    out.push(('M' as u8));
    out.push(('[' as u8));
    push_dec(out, k as u64);
    out.push((']' as u8));
    assert(out@ =~= old(out)@ + txt_mem(k));
}

fn push_label(out: &mut Vec<u8>, t: u64)
    ensures
        final(out)@ == old(out)@ + txt_label(t),
        ascii_seq(old(out)@) ==> ascii_seq(final(out)@),
{
    out.push(('L' as u8));
    push_dec(out, t);
    assert(out@ =~= old(out)@ + txt_label(t));
}

fn push_rvalue(out: &mut Vec<u8>, r: &Rvalue)
    ensures
        final(out)@ == old(out)@ + txt_rvalue(*r),
        ascii_seq(old(out)@) ==> ascii_seq(final(out)@),
{
    match r {
        Rvalue::Move(s) => {
            push_scalar(out, s);
        },
        Rvalue::MemRead(k) => {
            push_mem(out, *k);
        },
        Rvalue::PacketRead(sz, off) => {
            out.push(('p' as u8));
            out.push(('k' as u8));
            out.push(('t' as u8));
            out.push(('.' as u8));
            match sz {
                Size::Word => out.push(('w' as u8)),
                Size::Half => out.push(('h' as u8)),
                Size::Byte => out.push(('b' as u8)),
            }
            out.push(('[' as u8));
            match off {
                Offset::Abs(k) => {
                    push_dec(out, *k as u64);
                },
                Offset::Ind(k) => {
                    out.push(('X' as u8));
                    out.push(('+' as u8));
                    push_dec(out, *k as u64);
                },
            }
            out.push((']' as u8));
            assert(out@ =~= old(out)@ + txt_rvalue(*r));
        },
        Rvalue::MaskShift(k) => {
            out.push(('m' as u8));
            out.push(('s' as u8));
            out.push(('h' as u8));
            out.push(('[' as u8));
            push_dec(out, *k as u64);
            out.push((']' as u8));
            assert(out@ =~= old(out)@ + txt_rvalue(*r));
        },
        Rvalue::Neg => {
            out.push(('-' as u8));
            out.push(('A' as u8));
            assert(out@ =~= old(out)@ + txt_rvalue(*r));
        },
        Rvalue::Alu(op, v) => {
            out.push(('A' as u8));
            out.push((' ' as u8));
            match op {
                AluOp::Add => out.push(('+' as u8)),
                AluOp::Sub => out.push(('-' as u8)),
                AluOp::Mul => out.push(('*' as u8)),
                AluOp::Div => out.push(('/' as u8)),
                AluOp::Mod => out.push(('%' as u8)),
                AluOp::And => out.push(('&' as u8)),
                AluOp::Or => out.push(('|' as u8)),
                AluOp::Xor => out.push(('^' as u8)),
                AluOp::Lsh => {
                    out.push(('<' as u8));
                    out.push(('<' as u8));
                },
                AluOp::Rsh => {
                    out.push(('>' as u8));
                    out.push(('>' as u8));
                },
            }
            out.push((' ' as u8));
            push_scalar(out, v);
            assert(out@ =~= old(out)@ + txt_rvalue(*r));
        },
    }
}

#[verifier::rlimit(40)]
fn push_term(out: &mut Vec<u8>, t: &Term)
    ensures
        final(out)@ == old(out)@ + txt_term(*t),
        ascii_seq(old(out)@) ==> ascii_seq(final(out)@),
{
    match t {
        Term::Ret(s) => {
            out.push(('r' as u8));
            out.push(('e' as u8));
            out.push(('t' as u8));
            out.push((' ' as u8));
            push_scalar(out, s);
            assert(out@ =~= old(out)@ + txt_term(*t));
        },
        Term::Br(target) => {
            out.push(('b' as u8));
            out.push(('r' as u8));
            out.push((' ' as u8));
            push_label(out, *target);
            assert(out@ =~= old(out)@ + txt_term(*t));
        },
        Term::CondBr { op, rhs, on_true, on_false } => {
            out.push(('b' as u8));
            out.push(('r' as u8));
            out.push((' ' as u8));
            out.push(('A' as u8));
            out.push((' ' as u8));
            match op {
                CondOp::Jgt => out.push(('>' as u8)),
                CondOp::Jge => {
                    out.push(('>' as u8));
                    out.push(('=' as u8));
                },
                CondOp::Jeq => {
                    out.push(('=' as u8));
                    out.push(('=' as u8));
                },
                CondOp::Jset => out.push(('&' as u8)),
            }
            out.push((' ' as u8));
            push_scalar(out, rhs);
            out.push((' ' as u8));
            out.push(('?' as u8));
            out.push((' ' as u8));
            push_label(out, *on_true);
            out.push((' ' as u8));
            out.push((':' as u8));
            out.push((' ' as u8));
            push_label(out, *on_false);
            assert(out@ =~= old(out)@ + txt_term(*t));
        },
    }
}

fn push_block(out: &mut Vec<u8>, b: &Block)
    ensures
        final(out)@ == old(out)@ + txt_block(b@),
        ascii_seq(old(out)@) ==> ascii_seq(final(out)@),
{
    let n = b.stmts.len();
    let mut i: usize = 0;
    while i < n
        invariant
            n == b.stmts@.len(),
            0 <= i <= n,
            out@ + txt_stmts_from(b.stmts@, i as int) == old(out)@ + txt_stmts_from(b.stmts@, 0),
            ascii_seq(old(out)@) ==> ascii_seq(out@),
        decreases n - i,
    {
        let ghost prev = out@;
        out.push((' ' as u8));
        out.push((' ' as u8));
        let s = &b.stmts[i];
        match s.dst {
            Lvalue::RegA => out.push(('A' as u8)),
            Lvalue::RegX => out.push(('X' as u8)),
            Lvalue::Mem(k) => push_mem(out, k),
        }
        out.push((' ' as u8));
        out.push(('=' as u8));
        out.push((' ' as u8));
        push_rvalue(out, &s.src);
        out.push(('\n' as u8));
        assert(out@ =~= prev + txt_stmt_line(b.stmts@[i as int]));
        proof {
            assert(txt_stmts_from(b.stmts@, i as int) == txt_stmt_line(b.stmts@[i as int])
                + txt_stmts_from(b.stmts@, i + 1));
            assert(out@ + txt_stmts_from(b.stmts@, i + 1) =~= prev + txt_stmts_from(
                b.stmts@,
                i as int,
            ));
        }
        i = i + 1;
    }
    assert(txt_stmts_from(b.stmts@, n as int) =~= Seq::<u8>::empty());
    assert(out@ =~= old(out)@ + txt_stmts_from(b.stmts@, 0));
    let ghost mid = out@;
    match &b.term {
        Some(t) => {
            out.push((' ' as u8));
            out.push((' ' as u8));
            push_term(out, t);
            out.push(('\n' as u8));
            assert(out@ =~= old(out)@ + txt_block(b@));
        },
        None => {
            assert(out@ =~= old(out)@ + txt_block(b@));
        },
    }
}

/// Serialize a whole module, mirroring [`spec_module_text`] byte for byte.
pub fn render_module(m: &Module) -> (r: Vec<u8>)
    ensures
        r@ == spec_module_text(m@),
        ascii_seq(r@),
{
    let mut out: Vec<u8> = Vec::new();
    out.push(('e' as u8));
    out.push(('n' as u8));
    out.push(('t' as u8));
    out.push(('r' as u8));
    out.push(('y' as u8));
    out.push((':' as u8));
    out.push(('\n' as u8));
    push_block(&mut out, &m.entry);
    assert(out@ =~= seq![('e' as u8), ('n' as u8), ('t' as u8), ('r' as u8), ('y' as u8), (':' as u8), ('\n' as u8)] + txt_block(m@.entry));
    let ghost head = out@;
    let n = m.blocks.len();
    let mut i: usize = 0;
    while i < n
        invariant
            n == m.blocks@.len(),
            0 <= i <= n,
            out@ + txt_blocks_from(m@.blocks, i as int) == head + txt_blocks_from(m@.blocks, 0),
            ascii_seq(out@),
            head == seq![('e' as u8), ('n' as u8), ('t' as u8), ('r' as u8), ('y' as u8), (':' as u8), ('\n' as u8)] + txt_block(m@.entry),
            m@.blocks.len() == m.blocks@.len(),
        decreases n - i,
    {
        let ghost prev = out@;
        push_label(&mut out, i as u64);
        out.push((':' as u8));
        out.push(('\n' as u8));
        push_block(&mut out, &m.blocks[i]);
        proof {
            assert(m@.blocks[i as int] == m.blocks@[i as int]@);
            assert(out@ =~= prev + (txt_label(i as u64) + seq![(':' as u8), ('\n' as u8)] + txt_block(
                m@.blocks[i as int],
            )));
            assert(txt_blocks_from(m@.blocks, i as int) == txt_label(i as u64) + seq![(':' as u8), ('\n' as u8)]
                + txt_block(m@.blocks[i as int]) + txt_blocks_from(m@.blocks, i + 1));
            assert(out@ + txt_blocks_from(m@.blocks, i + 1) =~= prev + txt_blocks_from(
                m@.blocks,
                i as int,
            ));
        }
        i = i + 1;
    }
    proof {
        assert(txt_blocks_from(m@.blocks, n as int) =~= Seq::<u8>::empty());
        assert(out@ =~= spec_module_text(m@));
    }
    out
}

} // verus!
