use arm7_core::shifter::{BarrelShiftOpCode, ShiftedRegister, decode_rotated_immediate, is_shift,
    make_shifted_reg_string};

#[test]
fn rotated_immediate_basic_values() {
    assert_eq!(decode_rotated_immediate(0xff, 0), 0xff);
    assert_eq!(decode_rotated_immediate(1, 1), 0x4000_0000);
    assert_eq!(decode_rotated_immediate(0x2f, 4), 0x2f00_0000);
    assert_eq!(decode_rotated_immediate(0xf0, 4), 0xf000_0000);
    assert_eq!(decode_rotated_immediate(0, 7), 0);
}

#[test]
fn rotated_immediate_periodic_in_rotate_count() {
    for value in [0u32, 1, 0x2f, 0x80, 0xff] {
        for rotate in 0..16u32 {
            assert_eq!(
                decode_rotated_immediate(value, rotate),
                decode_rotated_immediate(value, rotate + 16)
            );
        }
    }
}

#[test]
fn no_shift_is_only_lsl_zero() {
    assert!(!is_shift(&ShiftedRegister::ByAmount(0, BarrelShiftOpCode::LSL)));
    assert!(is_shift(&ShiftedRegister::ByAmount(0, BarrelShiftOpCode::LSR)));
    assert!(is_shift(&ShiftedRegister::ByAmount(0, BarrelShiftOpCode::ASR)));
    assert!(is_shift(&ShiftedRegister::ByAmount(0, BarrelShiftOpCode::ROR)));
    assert!(is_shift(&ShiftedRegister::ByAmount(1, BarrelShiftOpCode::LSL)));
    assert!(is_shift(&ShiftedRegister::ByAmount(31, BarrelShiftOpCode::LSL)));
    assert!(is_shift(&ShiftedRegister::ByRegister(0, BarrelShiftOpCode::LSL)));
}

#[test]
fn shifted_register_rendering() {
    let s = make_shifted_reg_string(1, &ShiftedRegister::ByAmount(0, BarrelShiftOpCode::LSL));
    assert_eq!(s, "r1");
    let s = make_shifted_reg_string(1, &ShiftedRegister::ByAmount(3, BarrelShiftOpCode::LSL));
    assert_eq!(s, "r1, lsl #3");
    let s = make_shifted_reg_string(2, &ShiftedRegister::ByAmount(0, BarrelShiftOpCode::ROR));
    assert_eq!(s, "r2, ror #0");
    let s = make_shifted_reg_string(2, &ShiftedRegister::ByRegister(3, BarrelShiftOpCode::ASR));
    assert_eq!(s, "r2, asr r3");
    let s = make_shifted_reg_string(15, &ShiftedRegister::ByAmount(0, BarrelShiftOpCode::LSL));
    assert_eq!(s, "pc");
}
