//! Textual building blocks of the disassembly format: register names,
//! decimal and hexadecimal immediates, and boolean flag values.
//!
//! Each exec renderer is proved to produce exactly the character sequence
//! that its spec function describes.

use vstd::prelude::*;
use vstd::string::StringExecFns;

verus! {

/// Index of the program counter in the general register file.
pub const REG_PC: u32 = 15;

/// The character of a single digit below 16 (decimal digits and lower-case
/// hexadecimal digits share this table).
pub open spec fn spec_digit(d: int) -> Seq<char> {
    if d == 0 {
        "0"@
    } else if d == 1 {
        "1"@
    } else if d == 2 {
        "2"@
    } else if d == 3 {
        "3"@
    } else if d == 4 {
        "4"@
    } else if d == 5 {
        "5"@
    } else if d == 6 {
        "6"@
    } else if d == 7 {
        "7"@
    } else if d == 8 {
        "8"@
    } else if d == 9 {
        "9"@
    } else if d == 10 {
        "a"@
    } else if d == 11 {
        "b"@
    } else if d == 12 {
        "c"@
    } else if d == 13 {
        "d"@
    } else if d == 14 {
        "e"@
    } else {
        "f"@
    }
}

/// Decimal rendering of a non-negative integer, most significant digit
/// first, with no leading zeroes (`0` renders as "0").
pub open spec fn spec_dec_nat(n: int) -> Seq<char>
    decreases n,
{
    if n < 10 {
        spec_digit(n)
    } else {
        spec_dec_nat(n / 10) + spec_digit(n % 10)
    }
}

/// Decimal rendering of a signed integer: a minus sign followed by the
/// magnitude when negative.
pub open spec fn spec_dec_int(v: int) -> Seq<char> {
    if v >= 0 {
        spec_dec_nat(v)
    } else {
        "-"@ + spec_dec_nat(-v)
    }
}

/// Lower-case hexadecimal digits of a non-negative integer, most
/// significant digit first, with no leading zeroes.
pub open spec fn spec_hex_digits(n: int) -> Seq<char>
    decreases n,
{
    if n < 16 {
        spec_digit(n)
    } else {
        spec_hex_digits(n / 16) + spec_digit(n % 16)
    }
}

/// The `0x`-prefixed hexadecimal rendering used for immediates and
/// addresses in the disassembly.
pub open spec fn spec_hex(n: int) -> Seq<char> {
    "0x"@ + spec_hex_digits(n)
}

/// Rendering of a boolean flag value.
pub open spec fn spec_bool_str(b: bool) -> Seq<char> {
    if b {
        "true"@
    } else {
        "false"@
    }
}

/// The printed name of each general register; 15 prints as the program
/// counter alias.
pub open spec fn spec_reg_name(r: int) -> Seq<char> {
    if r == 0 {
        "r0"@
    } else if r == 1 {
        "r1"@
    } else if r == 2 {
        "r2"@
    } else if r == 3 {
        "r3"@
    } else if r == 4 {
        "r4"@
    } else if r == 5 {
        "r5"@
    } else if r == 6 {
        "r6"@
    } else if r == 7 {
        "r7"@
    } else if r == 8 {
        "r8"@
    } else if r == 9 {
        "r9"@
    } else if r == 10 {
        "r10"@
    } else if r == 11 {
        "r11"@
    } else if r == 12 {
        "r12"@
    } else if r == 13 {
        "r13"@
    } else if r == 14 {
        "r14"@
    } else {
        "pc"@
    }
}

/// The character of a digit value below 16.
pub fn digit_str(d: u32) -> (r: &'static str)
    requires
        d < 16,
    ensures
        r@ == spec_digit(d as int),
{
    if d == 0 {
        "0"
    } else if d == 1 {
        "1"
    } else if d == 2 {
        "2"
    } else if d == 3 {
        "3"
    } else if d == 4 {
        "4"
    } else if d == 5 {
        "5"
    } else if d == 6 {
        "6"
    } else if d == 7 {
        "7"
    } else if d == 8 {
        "8"
    } else if d == 9 {
        "9"
    } else if d == 10 {
        "a"
    } else if d == 11 {
        "b"
    } else if d == 12 {
        "c"
    } else if d == 13 {
        "d"
    } else if d == 14 {
        "e"
    } else {
        "f"
    }
}

/// Decimal rendering of an unsigned 32-bit value.
pub fn dec_u32(n: u32) -> (r: String)
    ensures
        r@ == spec_dec_nat(n as int),
    decreases n,
{
    if n < 10 {
        String::from_str(digit_str(n))
    } else {
        proof {
            assert(n / 10 < n && n / 10 >= 1) by (nonlinear_arith)
                requires
                    n >= 10,
            ;
        }
        let mut s = dec_u32(n / 10);
        s.append(digit_str(n % 10));
        s
    }
}

/// Decimal rendering of a signed 32-bit value.
pub fn dec_i32(v: i32) -> (r: String)
    ensures
        r@ == spec_dec_int(v as int),
{
    if v >= 0 {
        dec_u32(v as u32)
    } else {
        let mag = (-(v as i64)) as u32;
        let mut s = String::from_str("-");
        let digits = dec_u32(mag);
        s.append(digits.as_str());
        s
    }
}

/// Lower-case hexadecimal digits of an unsigned 32-bit value.
pub fn hex_digits_u32(n: u32) -> (r: String)
    ensures
        r@ == spec_hex_digits(n as int),
    decreases n,
{
    if n < 16 {
        String::from_str(digit_str(n))
    } else {
        proof {
            assert(n / 16 < n && n / 16 >= 1) by (nonlinear_arith)
                requires
                    n >= 16,
            ;
        }
        let mut s = hex_digits_u32(n / 16);
        s.append(digit_str(n % 16));
        s
    }
}

/// The `0x`-prefixed hexadecimal rendering of an unsigned 32-bit value.
pub fn hex_u32(n: u32) -> (r: String)
    ensures
        r@ == spec_hex(n as int),
{
    let mut s = String::from_str("0x");
    let digits = hex_digits_u32(n);
    s.append(digits.as_str());
    s
}

/// Rendering of a boolean flag value.
pub fn bool_str(b: bool) -> (r: &'static str)
    ensures
        r@ == spec_bool_str(b),
{
    if b {
        "true"
    } else {
        "false"
    }
}

/// The printed name of a general register.
pub fn reg_string(reg: u32) -> (r: &'static str)
    requires
        reg < 16,
    ensures
        r@ == spec_reg_name(reg as int),
{
    if reg == 0 {
        "r0"
    } else if reg == 1 {
        "r1"
    } else if reg == 2 {
        "r2"
    } else if reg == 3 {
        "r3"
    } else if reg == 4 {
        "r4"
    } else if reg == 5 {
        "r5"
    } else if reg == 6 {
        "r6"
    } else if reg == 7 {
        "r7"
    } else if reg == 8 {
        "r8"
    } else if reg == 9 {
        "r9"
    } else if reg == 10 {
        "r10"
    } else if reg == 11 {
        "r11"
    } else if reg == 12 {
        "r12"
    } else if reg == 13 {
        "r13"
    } else if reg == 14 {
        "r14"
    } else {
        "pc"
    }
}

} // verus!
