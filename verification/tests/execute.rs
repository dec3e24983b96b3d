//! End-to-end scenarios: translated modules run by the reference
//! evaluator.

use cbpf_ir::insn::{
    Insn, BPF_ADD_X, BPF_ALU_NEG, BPF_DIV_K, BPF_JGT_K, BPF_JSET_K, BPF_LDX_B_MSH, BPF_LDX_IMM,
    BPF_LD_B_ABS, BPF_LD_B_IND, BPF_LD_H_ABS, BPF_LD_IMM, BPF_LD_MEM, BPF_LD_W_ABS, BPF_LSH_K,
    BPF_MISC_TXA, BPF_RET_A, BPF_RET_K, BPF_ST,
};
use cbpf_ir::interp::run_module;
use cbpf_ir::translate::translate_program;
use cbpf_ir::Module;

fn build(insns: &[Insn]) -> Module {
    translate_program(insns).unwrap()
}

fn run(insns: &[Insn], pkt: &[u8]) -> Option<i32> {
    run_module(&build(insns), pkt)
}

#[test]
fn add_with_x_source_returns_30() {
    // A = 10; X = 20; A += X; return A.
    let insns = [
        Insn::new(BPF_LD_IMM, 0, 0, 10),
        Insn::new(BPF_LDX_IMM, 0, 0, 20),
        Insn::new(BPF_ADD_X, 0, 0, 0),
        Insn::new(BPF_RET_A, 0, 0, 0),
    ];
    assert_eq!(run(&insns, &[1, 2, 3]), Some(30));
}

#[test]
fn lone_return_yields_zero_initialized_accumulator() {
    let insns = [Insn::new(BPF_RET_A, 0, 0, 0)];
    assert_eq!(run(&insns, &[9, 9, 9]), Some(0));
    assert_eq!(run(&insns, &[]), Some(0));
}

#[test]
fn conditional_jump_diverges_on_the_comparison() {
    // A = a0; if A > 1 jump 1 else jump 0; return 7 (false) or 9 (true).
    let prog = |a0: u32| {
        [
            Insn::new(BPF_LD_IMM, 0, 0, a0),
            Insn::new(BPF_JGT_K, 1, 0, 1),
            Insn::new(BPF_RET_K, 0, 0, 7),
            Insn::new(BPF_RET_K, 0, 0, 9),
        ]
    };
    assert_eq!(run(&prog(5), &[]), Some(9));
    assert_eq!(run(&prog(0), &[]), Some(7));
}

#[test]
fn jset_takes_true_edge_when_bits_overlap() {
    let prog = |a0: u32| {
        [
            Insn::new(BPF_LD_IMM, 0, 0, a0),
            Insn::new(BPF_JSET_K, 1, 0, 2),
            Insn::new(BPF_RET_K, 0, 0, 1),
            Insn::new(BPF_RET_K, 0, 0, 2),
        ]
    };
    assert_eq!(run(&prog(6), &[]), Some(2));
    assert_eq!(run(&prog(5), &[]), Some(1));
}

#[test]
fn absolute_loads_are_big_endian() {
    let pkt = [0x00, 0x00, 0x01, 0x02, 0xab];
    let word = [Insn::new(BPF_LD_W_ABS, 0, 0, 0), Insn::new(BPF_RET_A, 0, 0, 0)];
    assert_eq!(run(&word, &pkt), Some(0x0102));
    let half = [Insn::new(BPF_LD_H_ABS, 0, 0, 2), Insn::new(BPF_RET_A, 0, 0, 0)];
    assert_eq!(run(&half, &pkt), Some(0x0102));
    let byte = [Insn::new(BPF_LD_B_ABS, 0, 0, 4), Insn::new(BPF_RET_A, 0, 0, 0)];
    assert_eq!(run(&byte, &pkt), Some(0xab));
}

#[test]
fn out_of_range_packet_load_yields_zero() {
    let insns = [Insn::new(BPF_LD_W_ABS, 0, 0, 100), Insn::new(BPF_RET_A, 0, 0, 0)];
    assert_eq!(run(&insns, &[1, 2]), Some(0));
}

#[test]
fn indirect_load_adds_x_to_the_offset() {
    let insns = [
        Insn::new(BPF_LDX_IMM, 0, 0, 1),
        Insn::new(BPF_LD_B_IND, 0, 0, 1),
        Insn::new(BPF_RET_A, 0, 0, 0),
    ];
    assert_eq!(run(&insns, &[10, 20, 30]), Some(30));
}

#[test]
fn scratch_store_and_load_round_trip() {
    let insns = [
        Insn::new(BPF_LD_IMM, 0, 0, 42),
        Insn::new(BPF_ST, 0, 0, 3),
        Insn::new(BPF_LD_IMM, 0, 0, 0),
        Insn::new(BPF_LD_MEM, 0, 0, 3),
        Insn::new(BPF_RET_A, 0, 0, 0),
    ];
    assert_eq!(run(&insns, &[]), Some(42));
}

#[test]
fn mask_shift_sets_x_from_the_packet() {
    // X = (packet[0] & 0xf) << 2; A = X; return A.
    let insns = [
        Insn::new(BPF_LDX_B_MSH, 0, 0, 0),
        Insn::new(BPF_MISC_TXA, 0, 0, 0),
        Insn::new(BPF_RET_A, 0, 0, 0),
    ];
    assert_eq!(run(&insns, &[0xf5]), Some(20));
}

#[test]
fn negation_flips_the_accumulator() {
    let insns = [
        Insn::new(BPF_LD_IMM, 0, 0, 5),
        Insn::new(BPF_ALU_NEG, 0, 0, 0),
        Insn::new(BPF_RET_A, 0, 0, 0),
    ];
    assert_eq!(run(&insns, &[]), Some(-5));
}

#[test]
fn shift_amounts_wrap_modulo_32() {
    let insns = [
        Insn::new(BPF_LD_IMM, 0, 0, 3),
        Insn::new(BPF_LSH_K, 0, 0, 33),
        Insn::new(BPF_RET_A, 0, 0, 0),
    ];
    assert_eq!(run(&insns, &[]), Some(6));
}

#[test]
fn division_by_zero_has_no_verdict() {
    let insns = [
        Insn::new(BPF_LD_IMM, 0, 0, 1),
        Insn::new(BPF_DIV_K, 0, 0, 0),
        Insn::new(BPF_RET_A, 0, 0, 0),
    ];
    assert_eq!(run(&insns, &[]), None);
}

#[test]
fn scratch_index_out_of_range_has_no_verdict() {
    // Conversion does not validate scratch indices; the evaluator refuses
    // to touch memory outside M.
    let insns = [
        Insn::new(BPF_LD_IMM, 0, 0, 1),
        Insn::new(BPF_ST, 0, 0, 20),
        Insn::new(BPF_RET_A, 0, 0, 0),
    ];
    assert_eq!(run(&insns, &[]), None);
}

#[test]
fn translated_module_passes_structural_verification() {
    // A program touching each instruction class, ending in a return so
    // every block is terminated.
    let insns = [
        Insn::new(BPF_LD_W_ABS, 0, 0, 0),
        Insn::new(BPF_LD_B_IND, 0, 0, 0),
        Insn::new(BPF_LDX_B_MSH, 0, 0, 0),
        Insn::new(BPF_LD_IMM, 0, 0, 1),
        Insn::new(BPF_ADD_X, 0, 0, 0),
        Insn::new(BPF_ST, 0, 0, 0),
        Insn::new(BPF_RET_A, 0, 0, 0),
    ];
    let m = build(&insns);
    assert!(cbpf_ir::ir::verify_module(&m));
}
