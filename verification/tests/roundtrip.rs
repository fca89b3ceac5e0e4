use arm7_core::instruction::{ArmFormat, ArmInstruction, ArmInstructionKind};

#[test]
fn mov_immediate_decode_encode_roundtrip() {
    let raw = 0xe3a0_7005u32;  // MOV r7, #5
    let decoded = ArmInstruction::decode(raw, ArmFormat::DP, 0x100);
    let encoded = decoded.encode().unwrap();
    assert_eq!(encoded, raw);
    let again = ArmInstruction::decode(encoded, ArmFormat::DP, 0x100);
    assert_eq!(again, decoded);
    match again.kind {
        ArmInstructionKind::DataProcessing { rd, operand2, .. } => {
            assert_eq!(rd, 7);
            assert_eq!(
                operand2,
                arm7_core::shifter::Operand2::RotatedImmediate(5, 0)
            );
        },
        _ => panic!("expected a data-processing instruction"),
    }
}

#[test]
fn register_operand_decode_encode_roundtrip() {
    // ADDS r0, r1, r2, lsl #2 and AND r0, r1, r2, ror r3.
    for raw in [0xe091_0102u32, 0xe001_0372] {
        let decoded = ArmInstruction::decode(raw, ArmFormat::DP, 0);
        let encoded = decoded.encode().unwrap();
        assert_eq!(encoded, raw);
        assert_eq!(ArmInstruction::decode(encoded, ArmFormat::DP, 0), decoded);
    }
}

#[test]
fn encode_is_only_for_data_processing() {
    let b = ArmInstruction::decode(0xea00_0000, ArmFormat::B_BL, 0);
    assert!(b.encode().is_none());
}

#[test]
fn rendered_mov_reparses_to_same_fields() {
    let decoded = ArmInstruction::decode(0xe3a0_7005, ArmFormat::DP, 0);
    assert_eq!(decoded.render(), "mov\tr7, #5\t; 0x5");
    let encoded = decoded.encode().unwrap();
    let again = ArmInstruction::decode(encoded, ArmFormat::DP, 0);
    assert_eq!(again.render(), "mov\tr7, #5\t; 0x5");
}
