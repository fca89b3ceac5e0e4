use arm7_core::textnum::{bool_str, dec_i32, dec_u32, hex_u32, reg_string};

#[test]
fn decimal_rendering() {
    assert_eq!(dec_u32(0), "0");
    assert_eq!(dec_u32(7), "7");
    assert_eq!(dec_u32(10), "10");
    assert_eq!(dec_u32(4096), "4096");
    assert_eq!(dec_u32(u32::MAX), "4294967295");
}

#[test]
fn signed_decimal_rendering() {
    assert_eq!(dec_i32(0), "0");
    assert_eq!(dec_i32(42), "42");
    assert_eq!(dec_i32(-1), "-1");
    assert_eq!(dec_i32(-4096), "-4096");
    assert_eq!(dec_i32(i32::MIN), "-2147483648");
    assert_eq!(dec_i32(i32::MAX), "2147483647");
}

#[test]
fn hexadecimal_rendering() {
    assert_eq!(hex_u32(0), "0x0");
    assert_eq!(hex_u32(0x5), "0x5");
    assert_eq!(hex_u32(0x100c), "0x100c");
    assert_eq!(hex_u32(0xdead_beef), "0xdeadbeef");
    assert_eq!(hex_u32(u32::MAX), "0xffffffff");
}

#[test]
fn register_names() {
    assert_eq!(reg_string(0), "r0");
    assert_eq!(reg_string(10), "r10");
    assert_eq!(reg_string(14), "r14");
    assert_eq!(reg_string(15), "pc");
}

#[test]
fn boolean_rendering() {
    assert_eq!(bool_str(true), "true");
    assert_eq!(bool_str(false), "false");
}
