use arm7_core::instruction::{ArmFormat, ArmInstruction};

fn render(raw: u32, fmt: ArmFormat, pc: u32) -> String {
    ArmInstruction::decode(raw, fmt, pc).render()
}

#[test]
fn mov_immediate() {
    assert_eq!(render(0xe3a0_0005, ArmFormat::DP, 0), "mov\tr0, #5\t; 0x5");
}

#[test]
fn movs_with_condition() {
    // MOVS r1, #5 under the EQ condition: set-flags marker before suffix.
    assert_eq!(render(0x03b0_1005, ArmFormat::DP, 0), "movseq\tr1, #5\t; 0x5");
}

#[test]
fn mvn_immediate_zero() {
    assert_eq!(render(0xe3e0_0000, ArmFormat::DP, 0), "mvn\tr0, #0\t; 0x0");
}

#[test]
fn compare_shows_no_destination_and_no_set_flags_marker() {
    // CMP encodings carry the set-flags bit, but the rendering never shows
    // it, and only the source register appears.
    assert_eq!(render(0xe351_0001, ArmFormat::DP, 0), "cmp\tr1, #1\t; 0x1");
    assert_eq!(render(0xe331_0001, ArmFormat::DP, 0), "teq\tr1, #1\t; 0x1");
}

#[test]
fn alu_three_operand_with_shifted_register() {
    assert_eq!(render(0xe081_0102, ArmFormat::DP, 0), "add\tr0, r1, r2, lsl #2");
    assert_eq!(render(0xe001_0372, ArmFormat::DP, 0), "and\tr0, r1, r2, ror r3");
}

#[test]
fn alu_register_operand_without_shift() {
    // MOV r0, r1 with the canonical no-shift operand renders bare.
    assert_eq!(render(0xe1a0_0001, ArmFormat::DP, 0), "mov\tr0, r1");
}

#[test]
fn negative_rotated_immediate_renders_signed_decimal() {
    // MOV r0, #0xff000000: the decoded value prints as a signed decimal
    // with its unsigned hexadecimal comment.
    assert_eq!(render(0xe3a0_04ff, ArmFormat::DP, 0), "mov\tr0, #-16777216\t; 0xff000000");
}

#[test]
fn branch_with_link_pipeline_target() {
    // Fetched at 0x2000 with an encoded word offset resolving to -8 bytes:
    // target is 0x2000 + 8 - 8 and the mnemonic carries the link marker.
    assert_eq!(render(0xebff_fffe, ArmFormat::B_BL, 0x2000), "bl\t0x2000");
}

#[test]
fn branch_conditional_forward() {
    assert_eq!(render(0x1a00_0000, ArmFormat::B_BL, 0), "bne\t0x8");
    assert_eq!(render(0xea00_0003, ArmFormat::B_BL, 0x100), "b\t0x114");
}

#[test]
fn branch_exchange() {
    assert_eq!(render(0xe12f_ff13, ArmFormat::BX, 0), "bx\tr3");
}

#[test]
fn ldr_pc_relative_effective_address() {
    // LDR with the program counter as base and immediate +4, fetched at
    // 0x1000: the comment shows 0x1000 + 8 + 4.
    assert_eq!(render(0xe59f_0004, ArmFormat::LDR_STR, 0x1000), "ldr\tr0, [pc, #4]\t; 0x100c");
}

#[test]
fn str_post_indexed_write_back_translate() {
    // Post-indexed with write-back requested: the translate suffix
    // appears and the negative immediate keeps its comment.
    assert_eq!(
        render(0xe422_1004, ArmFormat::LDR_STR, 0),
        "strt\tr1, [r2], #-4\t; 0xfffffffc"
    );
}

#[test]
fn ldrb_pre_indexed_negative_register_offset() {
    assert_eq!(render(0xe771_0002, ArmFormat::LDR_STR, 0), "ldrb\tr0, [r1, -r2]!");
}

#[test]
fn ldm_ascending_register_list() {
    assert_eq!(render(0xe8bd_8003, ArmFormat::LDM_STM, 0), "ldmia\tr13!, {r0, r1, pc}");
}

#[test]
fn stm_decrement_before_with_psr_marker() {
    assert_eq!(render(0xe949_0004, ArmFormat::LDM_STM, 0), "stmdb\tr9, {r2}^");
}

#[test]
fn ldm_empty_register_list() {
    assert_eq!(render(0xe8b0_0000, ArmFormat::LDM_STM, 0), "ldmia\tr0!, {}");
}

#[test]
fn mrs_names_status_register() {
    assert_eq!(render(0xe10f_0000, ArmFormat::MRS, 0), "mrs\tr0, CPSR");
    assert_eq!(render(0xe14f_2000, ArmFormat::MRS, 0), "mrs\tr2, SPSR");
}

#[test]
fn msr_register_form() {
    assert_eq!(render(0xe129_f001, ArmFormat::MSR_REG, 0), "msr\tCPSR, r1");
    assert_eq!(render(0xe169_f001, ArmFormat::MSR_REG, 0), "msr\tSPSR, r1");
}

#[test]
fn msr_flags_immediate_breaks_down_top_nibble() {
    // #0xf0000000 decoded from value 0xf0, rotate 4: all four flag bits of
    // the immediate's top nibble are set.
    assert_eq!(
        render(0xe328_f4f0, ArmFormat::MSR_FLAGS, 0),
        "msr\tCPSR_f, #-268435456\t; 0xf0000000\t; N=true Z=true C=true V=true"
    );
    // #0x80000000: only the N bit of the top nibble is set.
    assert_eq!(
        render(0xe328_f102, ArmFormat::MSR_FLAGS, 0),
        "msr\tCPSR_f, #-2147483648\t; 0x80000000\t; N=true Z=false C=false V=false"
    );
}

#[test]
fn msr_flags_register_operand_has_no_breakdown() {
    assert_eq!(render(0xe128_f003, ArmFormat::MSR_FLAGS, 0), "msr\tCPSR_f, r3");
}

#[test]
fn mul_and_mla() {
    assert_eq!(render(0xe000_0291, ArmFormat::MUL_MLA, 0), "mul\tr0, r1, r2");
    assert_eq!(render(0xe033_4291, ArmFormat::MUL_MLA, 0), "mlas\tr3, r1, r2, r4");
}

#[test]
fn long_multiply_sign_markers() {
    assert_eq!(render(0xe081_0392, ArmFormat::MULL_MLAL, 0), "umull\tr0, r1, r2, r3");
    assert_eq!(render(0xe0f2_1493, ArmFormat::MULL_MLAL, 0), "smlals\tr1, r2, r3, r4");
}

#[test]
fn halfword_transfer_immediate() {
    assert_eq!(render(0xe1d1_00b2, ArmFormat::LDR_STR_HS_IMM, 0), "ldrh\tr0, [r1, #2]\t; 0x2");
}

#[test]
fn signed_byte_transfer_register_post_indexed() {
    assert_eq!(render(0xe093_20d4, ArmFormat::LDR_STR_HS_REG, 0), "ldrsb\tr2, [r3], r4");
}

#[test]
fn unrecognized_halfword_type_renders_undefined() {
    // SH field 0 matches no recognized transfer type; the rendering is the
    // explicit undefined marker, not a failure.
    assert_eq!(render(0xe1d1_0092, ArmFormat::LDR_STR_HS_IMM, 0), "<undefined>");
}

#[test]
fn software_interrupt_comment_field() {
    assert_eq!(render(0xef03_0000, ArmFormat::SWI, 0), "swi\t#0x30000");
    assert_eq!(render(0xbf00_0001, ArmFormat::SWI, 0), "swilt\t#0x1");
}

#[test]
fn reserved_condition_field_decodes_as_undefined() {
    assert_eq!(render(0xf3a0_0005, ArmFormat::DP, 0), "<undefined>");
}

#[test]
fn undefined_format_renders_marker() {
    assert_eq!(render(0xe000_0000, ArmFormat::Undefined, 0), "<undefined>");
}
