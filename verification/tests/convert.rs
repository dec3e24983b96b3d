//! Conversion of whole programs: taxonomy coverage, error reporting,
//! serialized text.

use cbpf_ir::insn::{
    Insn, BPF_ADD_K, BPF_ADD_X, BPF_ALU_NEG, BPF_AND_K, BPF_AND_X, BPF_DIV_K, BPF_DIV_X,
    BPF_JEQ_K, BPF_JEQ_X, BPF_JGE_K, BPF_JGE_X, BPF_JGT_K, BPF_JGT_X, BPF_JMP_JA, BPF_JSET_K,
    BPF_JSET_X, BPF_LDX_B_MSH, BPF_LDX_IMM, BPF_LDX_MEM, BPF_LD_B_ABS, BPF_LD_B_IND, BPF_LD_H_ABS,
    BPF_LD_H_IND, BPF_LD_IMM, BPF_LD_MEM, BPF_LD_W_ABS, BPF_LD_W_IND, BPF_LSH_K, BPF_LSH_X,
    BPF_MISC_TAX, BPF_MISC_TXA, BPF_MOD_K, BPF_MOD_X, BPF_MUL_K, BPF_MUL_X, BPF_OR_K, BPF_OR_X,
    BPF_RET_A, BPF_RET_K, BPF_RSH_K, BPF_RSH_X, BPF_ST, BPF_STX, BPF_SUB_K, BPF_SUB_X, BPF_XOR_K,
    BPF_XOR_X,
};
use cbpf_ir::{ConvertError, Converter};

fn convert(insns: &[Insn]) -> Result<String, ConvertError> {
    let mut converter = Converter::new();
    converter.convert(insns)
}

#[test]
fn convert_all_insn() {
    let insns = [
        Insn::new(BPF_LD_W_ABS, 0, 0, 0),
        Insn::new(BPF_LD_H_ABS, 0, 0, 0),
        Insn::new(BPF_LD_B_ABS, 0, 0, 0),
        Insn::new(BPF_LD_W_IND, 0, 0, 0),
        Insn::new(BPF_LD_H_IND, 0, 0, 0),
        Insn::new(BPF_LD_B_IND, 0, 0, 0),
        Insn::new(BPF_LDX_B_MSH, 0, 0, 0),
        Insn::new(BPF_LD_IMM, 0, 0, 0),
        Insn::new(BPF_LDX_IMM, 0, 0, 0),
        Insn::new(BPF_LD_MEM, 0, 0, 0),
        Insn::new(BPF_LDX_MEM, 0, 0, 0),
        Insn::new(BPF_ST, 0, 0, 0),
        Insn::new(BPF_STX, 0, 0, 0),
        Insn::new(BPF_JMP_JA, 0, 0, 0),
        Insn::new(BPF_JGT_K, 0, 0, 0),
        Insn::new(BPF_JGE_K, 0, 0, 0),
        Insn::new(BPF_JEQ_K, 0, 0, 0),
        Insn::new(BPF_JSET_K, 0, 0, 0),
        Insn::new(BPF_JGT_X, 0, 0, 0),
        Insn::new(BPF_JGE_X, 0, 0, 0),
        Insn::new(BPF_JEQ_X, 0, 0, 0),
        Insn::new(BPF_JSET_X, 0, 0, 0),
        Insn::new(BPF_ADD_X, 0, 0, 0),
        Insn::new(BPF_SUB_X, 0, 0, 0),
        Insn::new(BPF_MUL_X, 0, 0, 0),
        Insn::new(BPF_DIV_X, 0, 0, 0),
        Insn::new(BPF_MOD_X, 0, 0, 0),
        Insn::new(BPF_AND_X, 0, 0, 0),
        Insn::new(BPF_OR_X, 0, 0, 0),
        Insn::new(BPF_XOR_X, 0, 0, 0),
        Insn::new(BPF_LSH_X, 0, 0, 0),
        Insn::new(BPF_RSH_X, 0, 0, 0),
        Insn::new(BPF_ADD_K, 0, 0, 0),
        Insn::new(BPF_SUB_K, 0, 0, 0),
        Insn::new(BPF_MUL_K, 0, 0, 0),
        Insn::new(BPF_DIV_K, 0, 0, 0),
        Insn::new(BPF_MOD_K, 0, 0, 0),
        Insn::new(BPF_AND_K, 0, 0, 0),
        Insn::new(BPF_OR_K, 0, 0, 0),
        Insn::new(BPF_XOR_K, 0, 0, 0),
        Insn::new(BPF_LSH_K, 0, 0, 0),
        Insn::new(BPF_RSH_K, 0, 0, 0),
        Insn::new(BPF_ALU_NEG, 0, 0, 0),
        Insn::new(BPF_MISC_TAX, 0, 0, 0),
        Insn::new(BPF_MISC_TXA, 0, 0, 0),
        Insn::new(BPF_RET_A, 0, 0, 0),
        Insn::new(BPF_RET_K, 0, 0, 0),
    ];
    let ir = convert(&insns);
    assert!(ir.is_ok());
}

#[test]
fn single_return_text() {
    let insns = [Insn::new(BPF_RET_A, 0, 0, 0)];
    let ir = convert(&insns).unwrap();
    assert_eq!(ir, "entry:\n  br L0\nL0:\n  ret A\n");
}

#[test]
fn return_immediate_uses_k() {
    // The constant-return form returns the instruction's immediate.
    let insns = [Insn::new(BPF_RET_K, 0, 0, 7)];
    let ir = convert(&insns).unwrap();
    assert_eq!(ir, "entry:\n  br L0\nL0:\n  ret #7\n");
}

#[test]
fn fallthrough_and_branch_text() {
    let insns = [
        Insn::new(BPF_LD_IMM, 0, 0, 10),
        Insn::new(BPF_JMP_JA, 0, 0, 1),
        Insn::new(BPF_RET_K, 0, 0, 1),
        Insn::new(BPF_RET_A, 0, 0, 0),
    ];
    let ir = convert(&insns).unwrap();
    assert_eq!(
        ir,
        "entry:\n  br L0\nL0:\n  A = #10\n  br L1\nL1:\n  br L3\nL2:\n  ret #1\nL3:\n  ret A\n"
    );
}

#[test]
fn conditional_edges_resolve_from_their_own_fields() {
    // jt and jf differ, so the two edges are distinguishable in the text:
    // true edge to 1 + 1 + 2 = block 4, false edge to 1 + 1 + 0 = block 2.
    let insns = [
        Insn::new(BPF_LD_IMM, 0, 0, 5),
        Insn::new(BPF_JGT_K, 2, 0, 1),
        Insn::new(BPF_RET_K, 0, 0, 11),
        Insn::new(BPF_RET_K, 0, 0, 12),
        Insn::new(BPF_RET_K, 0, 0, 13),
    ];
    let ir = convert(&insns).unwrap();
    assert_eq!(
        ir,
        "entry:\n  br L0\nL0:\n  A = #5\n  br L1\nL1:\n  br A > #1 ? L4 : L2\nL2:\n  ret #11\nL3:\n  ret #12\nL4:\n  ret #13\n"
    );
}

#[test]
fn converting_twice_gives_identical_text() {
    let insns = [
        Insn::new(BPF_LD_IMM, 0, 0, 3),
        Insn::new(BPF_ADD_K, 0, 0, 4),
        Insn::new(BPF_RET_A, 0, 0, 0),
    ];
    let first = convert(&insns).unwrap();
    let second = convert(&insns).unwrap();
    assert_eq!(first, second);
    // The same session converts twice to the same text as well.
    let mut converter = Converter::new();
    let third = converter.convert(&insns).unwrap();
    let fourth = converter.convert(&insns).unwrap();
    assert_eq!(third, fourth);
    assert_eq!(first, third);
}

#[test]
fn get_ir_matches_convert_output() {
    let insns = [Insn::new(BPF_RET_K, 0, 0, 3)];
    let mut converter = Converter::new();
    let ir = converter.convert(&insns).unwrap();
    assert_eq!(converter.get_ir(), ir);
}

#[test]
fn length_load_a_is_unsupported() {
    // LOAD_A, word size, length mode: 0x00 | 0x00 | 0x80.
    let insns = [Insn::new(0x80, 0, 0, 0)];
    assert_eq!(convert(&insns), Err(ConvertError::UnsupportedInstruction));
}

#[test]
fn length_load_x_is_unsupported() {
    // LOAD_X, word size, length mode: 0x01 | 0x00 | 0x80.
    let insns = [Insn::new(0x81, 0, 0, 0)];
    assert_eq!(convert(&insns), Err(ConvertError::UnsupportedInstruction));
}

#[test]
fn unknown_load_size_is_invalid() {
    // LOAD_A absolute with the unused fourth size pattern: 0x00 | 0x18 | 0x20.
    let insns = [Insn::new(0x38, 0, 0, 0)];
    assert_eq!(convert(&insns), Err(ConvertError::InvalidInstruction));
}

#[test]
fn unknown_return_source_is_invalid() {
    // RETURN with the unused operand-source pattern: 0x06 | 0x08.
    let insns = [Insn::new(0x0e, 0, 0, 0)];
    assert_eq!(convert(&insns), Err(ConvertError::InvalidInstruction));
}

#[test]
fn first_error_in_source_order_wins() {
    let insns = [
        Insn::new(0x80, 0, 0, 0),  // unsupported length load
        Insn::new(0x38, 0, 0, 0),  // invalid load size
    ];
    assert_eq!(convert(&insns), Err(ConvertError::UnsupportedInstruction));
}

#[test]
fn empty_program_fails_verification() {
    let insns: [Insn; 0] = [];
    assert_eq!(convert(&insns), Err(ConvertError::VerificationFailed));
}

#[test]
fn unterminated_last_block_fails_verification() {
    let insns = [Insn::new(BPF_LD_IMM, 0, 0, 1)];
    assert_eq!(convert(&insns), Err(ConvertError::VerificationFailed));
}

#[test]
fn out_of_range_jump_fails_verification() {
    let insns = [
        Insn::new(BPF_JMP_JA, 0, 0, 5),
        Insn::new(BPF_RET_A, 0, 0, 0),
    ];
    assert_eq!(convert(&insns), Err(ConvertError::VerificationFailed));
}

#[test]
fn fresh_session_holds_an_empty_module() {
    let converter = Converter::new();
    assert_eq!(converter.get_ir(), "entry:\n");
}
