//! The barrel shifter side of operand decoding: shift operators, shifted
//! register operands, the flexible "operand2" of data-processing
//! instructions, and load/store offsets.

use vstd::prelude::*;
use vstd::string::StringExecFns;

use crate::textnum::{dec_i32, dec_u32, hex_u32, reg_string, spec_dec_int, spec_dec_nat, spec_hex,
    spec_reg_name};

verus! {

/// The four shift operators of the barrel shifter.
#[derive(Clone, Copy, PartialEq, Eq, Structural, Debug)]
pub enum BarrelShiftOpCode {
    LSL,
    LSR,
    ASR,
    ROR,
}

/// A register shift: either by a literal amount, or by the low byte of a
/// named register, read at evaluation time.
#[derive(Clone, Copy, PartialEq, Eq, Structural, Debug)]
pub enum ShiftedRegister {
    ByAmount(u32, BarrelShiftOpCode),
    ByRegister(u32, BarrelShiftOpCode),
}

/// The flexible second operand of data-processing (and flags-only MSR)
/// instructions: a rotated 8-bit immediate, or a shifted register.
/// Addressing-mode offsets use `LdrStrOffset` instead, so neither context
/// can see a structurally invalid operand.
#[derive(Clone, Copy, PartialEq, Eq, Structural, Debug)]
pub enum Operand2 {
    /// An 8-bit value and a 4-bit rotate count; the effective value is the
    /// 8-bit value rotated right by twice the count within 32 bits.
    RotatedImmediate(u32, u32),
    /// A register index and its shift.
    ShiftedRegister(u32, ShiftedRegister),
}

/// The offset of a single load/store: a signed immediate, or a shifted
/// register with an explicit added/subtracted direction.
#[derive(Clone, Copy, PartialEq, Eq, Structural, Debug)]
pub enum LdrStrOffset {
    Immediate(i32),
    /// Register index, shift, and whether the offset is added (`true`) or
    /// subtracted (`false`).
    ShiftedRegister(u32, ShiftedRegister, bool),
}

/// Rotate a 32-bit value right by `amount` bit positions, `amount < 32`.
pub open spec fn spec_ror32(v: u32, amount: u32) -> u32 {
    if amount == 0 {
        v
    } else {
        (v >> amount) | (v << ((32 - amount) as u32))
    }
}

/// The effective value of a rotated immediate: the value rotated right by
/// twice the rotate count within a 32-bit word. Only the rotate count's low
/// four bits matter, since the rotation amount is taken modulo 32.
pub open spec fn spec_decode_rotated_immediate(value: u32, rotate: u32) -> u32 {
    spec_ror32(value, ((rotate % 16) * 2) as u32)
}

/// Decode a rotated immediate to its 32-bit value. Shared by
/// data-processing operand decoding and the flags-only form of MSR.
pub fn decode_rotated_immediate(value: u32, rotate: u32) -> (r: u32)
    ensures
        r == spec_decode_rotated_immediate(value, rotate),
{
    let amount = (rotate % 16) * 2;
    if amount == 0 {
        value
    } else {
        (value >> amount) | (value << (32 - amount))
    }
}

/// Rotated-immediate decoding is periodic in the rotate count with period
/// 16: counts `r` and `r + 16` produce the same 32-bit result, because the
/// rotation amount `2 * r` wraps modulo 32.
pub proof fn lemma_rotated_immediate_periodic(value: u32, rotate: u32)
    requires
        rotate + 16 <= u32::MAX,
    ensures
        spec_decode_rotated_immediate(value, (rotate + 16) as u32) == spec_decode_rotated_immediate(
            value,
            rotate,
        ),
{
    let bumped = (rotate + 16) as u32;
    assert(bumped % 16 == rotate % 16) by (nonlinear_arith)
        requires
            bumped == rotate + 16,
    ;
}

/// A shifted-register operand is a real shift unless it is the canonical
/// no-shift form: amount 0 with the logical-shift-left operator. Amount 0
/// with any other operator, or any other amount, always counts as a shift.
pub open spec fn spec_is_shift(shift: ShiftedRegister) -> bool {
    shift != ShiftedRegister::ByAmount(0, BarrelShiftOpCode::LSL)
}

/// Recognize whether a shifted-register operand denotes a real shift.
/// `false` exactly for the canonical no-shift form.
pub fn is_shift(shift: &ShiftedRegister) -> (r: bool)
    ensures
        r == spec_is_shift(*shift),
{
    if let ShiftedRegister::ByAmount(val, typ) = shift {
        return !(*val == 0 && *typ == BarrelShiftOpCode::LSL);
    }
    true
}

/// Internal well-formedness of a shift: the literal amount fits its 5-bit
/// field, and a by-register shift names a real register.
pub open spec fn spec_shift_wf(shift: ShiftedRegister) -> bool {
    match shift {
        ShiftedRegister::ByAmount(amount, _) => amount < 32,
        ShiftedRegister::ByRegister(rs, _) => rs < 16,
    }
}

/// Internal well-formedness of an operand2: field values fit their
/// instruction bit fields.
pub open spec fn spec_operand2_wf(op2: Operand2) -> bool {
    match op2 {
        Operand2::RotatedImmediate(value, rotate) => value < 256 && rotate < 16,
        Operand2::ShiftedRegister(reg, shift) => reg < 16 && spec_shift_wf(shift),
    }
}

/// Internal well-formedness of a load/store offset.
pub open spec fn spec_ldr_str_offset_wf(offset: LdrStrOffset) -> bool {
    match offset {
        LdrStrOffset::Immediate(_) => true,
        LdrStrOffset::ShiftedRegister(reg, shift, _) => reg < 16 && spec_shift_wf(shift),
    }
}

/// The disassembly mnemonic of each shift operator.
pub open spec fn spec_shift_mnemonic(op: BarrelShiftOpCode) -> Seq<char> {
    match op {
        BarrelShiftOpCode::LSL => "lsl"@,
        BarrelShiftOpCode::LSR => "lsr"@,
        BarrelShiftOpCode::ASR => "asr"@,
        BarrelShiftOpCode::ROR => "ror"@,
    }
}

impl BarrelShiftOpCode {
    /// The disassembly mnemonic of this shift operator.
    pub fn mnemonic_str(&self) -> (r: &'static str)
        ensures
            r@ == spec_shift_mnemonic(*self),
    {
        match self {
            BarrelShiftOpCode::LSL => "lsl",
            BarrelShiftOpCode::LSR => "lsr",
            BarrelShiftOpCode::ASR => "asr",
            BarrelShiftOpCode::ROR => "ror",
        }
    }

    /// The shift operator selected by a 2-bit field value.
    pub fn from_bits(bits: u32) -> (r: BarrelShiftOpCode)
        requires
            bits < 4,
        ensures
            r == spec_shift_op_from_bits(bits as int),
    {
        if bits == 0 {
            BarrelShiftOpCode::LSL
        } else if bits == 1 {
            BarrelShiftOpCode::LSR
        } else if bits == 2 {
            BarrelShiftOpCode::ASR
        } else {
            BarrelShiftOpCode::ROR
        }
    }

    /// The 2-bit encoding of this shift operator.
    pub fn bits(&self) -> (r: u32)
        ensures
            r == spec_shift_op_bits(*self),
    {
        match self {
            BarrelShiftOpCode::LSL => 0,
            BarrelShiftOpCode::LSR => 1,
            BarrelShiftOpCode::ASR => 2,
            BarrelShiftOpCode::ROR => 3,
        }
    }
}

/// The shift operator selected by a 2-bit field value.
pub open spec fn spec_shift_op_from_bits(bits: int) -> BarrelShiftOpCode {
    if bits == 0 {
        BarrelShiftOpCode::LSL
    } else if bits == 1 {
        BarrelShiftOpCode::LSR
    } else if bits == 2 {
        BarrelShiftOpCode::ASR
    } else {
        BarrelShiftOpCode::ROR
    }
}

/// The 2-bit encoding of a shift operator.
pub open spec fn spec_shift_op_bits(op: BarrelShiftOpCode) -> u32 {
    match op {
        BarrelShiftOpCode::LSL => 0,
        BarrelShiftOpCode::LSR => 1,
        BarrelShiftOpCode::ASR => 2,
        BarrelShiftOpCode::ROR => 3,
    }
}

/// Rendering of a shifted register operand: the register alone for the
/// canonical no-shift form, otherwise the register followed by the shift
/// operator and its literal amount or register name.
pub open spec fn spec_shifted_reg_str(reg: int, shift: ShiftedRegister) -> Seq<char> {
    if !spec_is_shift(shift) {
        spec_reg_name(reg)
    } else {
        match shift {
            ShiftedRegister::ByAmount(imm, typ) => spec_reg_name(reg) + ", "@
                + spec_shift_mnemonic(typ) + " #"@ + spec_dec_nat(imm as int),
            ShiftedRegister::ByRegister(rs, typ) => spec_reg_name(reg) + ", "@
                + spec_shift_mnemonic(typ) + " "@ + spec_reg_name(rs as int),
        }
    }
}

/// A consumer can recognize the canonical no-shift form from the rendering
/// alone: a shifted register renders as the bare register name exactly when
/// it is the no-shift form; every real shift renders strictly longer.
pub proof fn lemma_no_shift_rendering(reg: int, shift: ShiftedRegister)
    ensures
        (spec_shifted_reg_str(reg, shift) == spec_reg_name(reg)) <==> !spec_is_shift(shift),
{
    if spec_is_shift(shift) {
        reveal_strlit(", ");
        assert(", "@.len() == 2);
        assert(spec_shifted_reg_str(reg, shift).len() > spec_reg_name(reg).len());
    }
}

/// Render a shifted register operand.
pub fn make_shifted_reg_string(reg: u32, shift: &ShiftedRegister) -> (r: String)
    requires
        reg < 16,
        spec_shift_wf(*shift),
    ensures
        r@ == spec_shifted_reg_str(reg as int, *shift),
{
    let mut s = String::from_str(reg_string(reg));
    if !is_shift(shift) {
        return s;
    }
    match shift {
        ShiftedRegister::ByAmount(imm, typ) => {
            s.append(", ");
            s.append(typ.mnemonic_str());
            s.append(" #");
            let amount = dec_u32(*imm);
            s.append(amount.as_str());
        },
        ShiftedRegister::ByRegister(rs, typ) => {
            s.append(", ");
            s.append(typ.mnemonic_str());
            s.append(" ");
            s.append(reg_string(*rs));
        },
    }
    s
}

/// Rendering of an operand2: a decoded immediate with its hexadecimal
/// comment, or a shifted register.
pub open spec fn spec_fmt_operand2(op2: Operand2) -> Seq<char> {
    match op2 {
        Operand2::RotatedImmediate(value, rotate) => {
            let v = spec_decode_rotated_immediate(value, rotate);
            "#"@ + spec_dec_int(v as i32 as int) + "\t; "@ + spec_hex(v as int)
        },
        Operand2::ShiftedRegister(reg, shift) => spec_shifted_reg_str(reg as int, shift),
    }
}

/// Render an operand2. An immediate prints its decoded value in decimal
/// (read as a signed 32-bit quantity) with a hexadecimal comment.
pub fn fmt_operand2(op2: &Operand2) -> (r: String)
    requires
        spec_operand2_wf(*op2),
    ensures
        r@ == spec_fmt_operand2(*op2),
{
    match op2 {
        Operand2::RotatedImmediate(value, rotate) => {
            let v = decode_rotated_immediate(*value, *rotate);
            let mut s = String::from_str("#");
            let dec = dec_i32(v as i32);
            s.append(dec.as_str());
            s.append("\t; ");
            let hex = hex_u32(v);
            s.append(hex.as_str());
            s
        },
        Operand2::ShiftedRegister(reg, shift) => make_shifted_reg_string(*reg, shift),
    }
}

} // verus!
