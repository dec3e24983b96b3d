//! The instruction model: the raw instruction word and its decoding.
//!
//! An instruction is a fixed-format record: a 16-bit opcode word `code`
//! (class, size, addressing mode, operation and operand source are bit
//! fields inside it), two 8-bit relative jump offsets `jt` and `jf`, and a
//! 32-bit immediate `k`. Decoding is pure: each field is a mask of `code`.

use vstd::prelude::*;

verus! {

/// One packet-filter instruction, exactly as an external bytecode compiler
/// produces it. The translator only reads it.
#[derive(Clone, Copy, PartialEq, Eq, Structural, Debug)]
pub struct Insn {
    pub code: u16,
    pub jt: u8,
    pub jf: u8,
    pub k: u32,
}

impl Insn {
    pub fn new(code: u16, jt: u8, jf: u8, k: u32) -> (r: Insn)
        ensures
            r == (Insn { code, jt, jf, k }),
    {
        Insn { code, jt, jf, k }
    }
}

// Class field: the low three bits of the opcode word.
pub const BPF_LD: u16 = 0x00;
pub const BPF_LDX: u16 = 0x01;
pub const BPF_ST: u16 = 0x02;
pub const BPF_STX: u16 = 0x03;
pub const BPF_ALU: u16 = 0x04;
pub const BPF_JMP: u16 = 0x05;
pub const BPF_RET: u16 = 0x06;
pub const BPF_MISC: u16 = 0x07;

// Size field of a load.
pub const BPF_W: u16 = 0x00;
pub const BPF_H: u16 = 0x08;
pub const BPF_B: u16 = 0x10;

// Addressing-mode field of a load.
pub const BPF_IMM: u16 = 0x00;
pub const BPF_ABS: u16 = 0x20;
pub const BPF_IND: u16 = 0x40;
pub const BPF_MEM: u16 = 0x60;
pub const BPF_LEN: u16 = 0x80;
pub const BPF_MSH: u16 = 0xa0;

// Operation field of an ALU or jump instruction.
pub const BPF_ADD: u16 = 0x00;
pub const BPF_SUB: u16 = 0x10;
pub const BPF_MUL: u16 = 0x20;
pub const BPF_DIV: u16 = 0x30;
pub const BPF_OR: u16 = 0x40;
pub const BPF_AND: u16 = 0x50;
pub const BPF_LSH: u16 = 0x60;
pub const BPF_RSH: u16 = 0x70;
pub const BPF_NEG: u16 = 0x80;
pub const BPF_MOD: u16 = 0x90;
pub const BPF_XOR: u16 = 0xa0;
pub const BPF_JA: u16 = 0x00;
pub const BPF_JEQ: u16 = 0x10;
pub const BPF_JGT: u16 = 0x20;
pub const BPF_JGE: u16 = 0x30;
pub const BPF_JSET: u16 = 0x40;

// Operand-source field (`k` or `X`), and the return-value field.
pub const BPF_K: u16 = 0x00;
pub const BPF_X: u16 = 0x08;
pub const BPF_A: u16 = 0x10;

// Register-transfer field of a miscellaneous instruction.
pub const BPF_TAX: u16 = 0x00;
pub const BPF_TXA: u16 = 0x80;

/// Number of 32-bit words in the scratch array `M`.
pub const BPF_MEMWORDS: u32 = 16;

// Whole opcode words for every class/mode/op combination the translator
// accepts, so that programs can be written down without bit fiddling.
pub const BPF_LD_W_ABS: u16 = 0x20;
pub const BPF_LD_H_ABS: u16 = 0x28;
pub const BPF_LD_B_ABS: u16 = 0x30;
pub const BPF_LD_W_IND: u16 = 0x40;
pub const BPF_LD_H_IND: u16 = 0x48;
pub const BPF_LD_B_IND: u16 = 0x50;
pub const BPF_LDX_B_MSH: u16 = 0xb1;
pub const BPF_LD_IMM: u16 = 0x00;
pub const BPF_LDX_IMM: u16 = 0x01;
pub const BPF_LD_MEM: u16 = 0x60;
pub const BPF_LDX_MEM: u16 = 0x61;
pub const BPF_JMP_JA: u16 = 0x05;
pub const BPF_JGT_K: u16 = 0x25;
pub const BPF_JGE_K: u16 = 0x35;
pub const BPF_JEQ_K: u16 = 0x15;
pub const BPF_JSET_K: u16 = 0x45;
pub const BPF_JGT_X: u16 = 0x2d;
pub const BPF_JGE_X: u16 = 0x3d;
pub const BPF_JEQ_X: u16 = 0x1d;
pub const BPF_JSET_X: u16 = 0x4d;
pub const BPF_ADD_X: u16 = 0x0c;
pub const BPF_SUB_X: u16 = 0x1c;
pub const BPF_MUL_X: u16 = 0x2c;
pub const BPF_DIV_X: u16 = 0x3c;
pub const BPF_MOD_X: u16 = 0x9c;
pub const BPF_AND_X: u16 = 0x5c;
pub const BPF_OR_X: u16 = 0x4c;
pub const BPF_XOR_X: u16 = 0xac;
pub const BPF_LSH_X: u16 = 0x6c;
pub const BPF_RSH_X: u16 = 0x7c;
pub const BPF_ADD_K: u16 = 0x04;
pub const BPF_SUB_K: u16 = 0x14;
pub const BPF_MUL_K: u16 = 0x24;
pub const BPF_DIV_K: u16 = 0x34;
pub const BPF_MOD_K: u16 = 0x94;
pub const BPF_AND_K: u16 = 0x54;
pub const BPF_OR_K: u16 = 0x44;
pub const BPF_XOR_K: u16 = 0xa4;
pub const BPF_LSH_K: u16 = 0x64;
pub const BPF_RSH_K: u16 = 0x74;
pub const BPF_ALU_NEG: u16 = 0x84;
pub const BPF_MISC_TAX: u16 = 0x07;
pub const BPF_MISC_TXA: u16 = 0x87;
pub const BPF_RET_A: u16 = 0x16;
pub const BPF_RET_K: u16 = 0x06;

/// Instruction class encoded in an opcode word.
pub open spec fn spec_class(code: u16) -> u16 {
    code & 0x07
}

/// Size field of a load opcode.
pub open spec fn spec_size(code: u16) -> u16 {
    code & 0x18
}

/// Addressing-mode field of a load opcode.
pub open spec fn spec_mode(code: u16) -> u16 {
    code & 0xe0
}

/// Operation field of an ALU or jump opcode.
pub open spec fn spec_op(code: u16) -> u16 {
    code & 0xf0
}

/// Operand-source field of an ALU or jump opcode: `k` or `X`.
pub open spec fn spec_src(code: u16) -> u16 {
    code & 0x08
}

/// Return-value field of a return opcode: `A` or `k`.
pub open spec fn spec_rval(code: u16) -> u16 {
    code & 0x18
}

/// Register-transfer field of a miscellaneous opcode.
pub open spec fn spec_miscop(code: u16) -> u16 {
    code & 0xf8
}

pub fn bpf_class(code: u16) -> (r: u16)
    ensures
        r == spec_class(code),
{
    code & 0x07
}

pub fn bpf_size(code: u16) -> (r: u16)
    ensures
        r == spec_size(code),
{
    code & 0x18
}

pub fn bpf_mode(code: u16) -> (r: u16)
    ensures
        r == spec_mode(code),
{
    code & 0xe0
}

pub fn bpf_op(code: u16) -> (r: u16)
    ensures
        r == spec_op(code),
{
    code & 0xf0
}

pub fn bpf_src(code: u16) -> (r: u16)
    ensures
        r == spec_src(code),
{
    code & 0x08
}

pub fn bpf_rval(code: u16) -> (r: u16)
    ensures
        r == spec_rval(code),
{
    code & 0x18
}

pub fn bpf_miscop(code: u16) -> (r: u16)
    ensures
        r == spec_miscop(code),
{
    code & 0xf8
}

} // verus!
