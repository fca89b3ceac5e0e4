//! Bit-exact textual rendering of decoded instructions, one line per
//! instruction: mnemonic and operand list separated by a tab, hexadecimal
//! immediates prefixed `#`/`0x`, and comments introduced by `; `.
//!
//! Each renderer is proved to produce exactly the character sequence of its
//! spec function, so the spec functions double as the textual contract.

use vstd::prelude::*;
use vstd::string::StringExecFns;

use crate::cond::spec_cond_suffix;
use crate::instruction::{AluOpCode, ArmHalfwordTransferType, ArmInstruction, ArmInstructionKind};
use crate::shifter::{LdrStrOffset, Operand2, fmt_operand2, make_shifted_reg_string,
    spec_decode_rotated_immediate, spec_fmt_operand2, spec_ldr_str_offset_wf, spec_shifted_reg_str};
use crate::textnum::{REG_PC, bool_str, dec_i32, hex_u32, reg_string, spec_bool_str, spec_dec_int,
    spec_hex, spec_reg_name};

verus! {

/// The disassembly mnemonic of each ALU operation.
pub open spec fn spec_alu_mnemonic(op: AluOpCode) -> Seq<char> {
    match op {
        AluOpCode::AND => "and"@,
        AluOpCode::EOR => "eor"@,
        AluOpCode::SUB => "sub"@,
        AluOpCode::RSB => "rsb"@,
        AluOpCode::ADD => "add"@,
        AluOpCode::ADC => "adc"@,
        AluOpCode::SBC => "sbc"@,
        AluOpCode::RSC => "rsc"@,
        AluOpCode::TST => "tst"@,
        AluOpCode::TEQ => "teq"@,
        AluOpCode::CMP => "cmp"@,
        AluOpCode::CMN => "cmn"@,
        AluOpCode::ORR => "orr"@,
        AluOpCode::MOV => "mov"@,
        AluOpCode::BIC => "bic"@,
        AluOpCode::MVN => "mvn"@,
    }
}

impl AluOpCode {
    /// The disassembly mnemonic of this ALU operation.
    pub fn mnemonic_str(&self) -> (r: &'static str)
        ensures
            r@ == spec_alu_mnemonic(*self),
    {
        match self {
            AluOpCode::AND => "and",
            AluOpCode::EOR => "eor",
            AluOpCode::SUB => "sub",
            AluOpCode::RSB => "rsb",
            AluOpCode::ADD => "add",
            AluOpCode::ADC => "adc",
            AluOpCode::SBC => "sbc",
            AluOpCode::RSC => "rsc",
            AluOpCode::TST => "tst",
            AluOpCode::TEQ => "teq",
            AluOpCode::CMP => "cmp",
            AluOpCode::CMN => "cmn",
            AluOpCode::ORR => "orr",
            AluOpCode::MOV => "mov",
            AluOpCode::BIC => "bic",
            AluOpCode::MVN => "mvn",
        }
    }
}

/// The disassembly suffix of each halfword/signed transfer type.
pub open spec fn spec_hs_suffix(t: ArmHalfwordTransferType) -> Seq<char> {
    match t {
        ArmHalfwordTransferType::UnsignedHalfwords => "h"@,
        ArmHalfwordTransferType::SignedHalfwords => "sh"@,
        ArmHalfwordTransferType::SignedByte => "sb"@,
    }
}

impl ArmHalfwordTransferType {
    /// The disassembly suffix of this transfer type.
    pub fn suffix_str(&self) -> (r: &'static str)
        ensures
            r@ == spec_hs_suffix(*self),
    {
        match self {
            ArmHalfwordTransferType::UnsignedHalfwords => "h",
            ArmHalfwordTransferType::SignedHalfwords => "sh",
            ArmHalfwordTransferType::SignedByte => "sb",
        }
    }
}

/// The set-flags marker: `s` exactly when the set-flags bit is set.
pub open spec fn spec_set_cond_mark(set_cond: bool) -> Seq<char> {
    if set_cond {
        "s"@
    } else {
        ""@
    }
}

/// The set-flags marker of an instruction.
pub fn set_cond_mark(set_cond: bool) -> (r: &'static str)
    ensures
        r@ == spec_set_cond_mark(set_cond),
{
    if set_cond {
        "s"
    } else {
        ""
    }
}

/// The write-back marker: `!` exactly when write-back is requested.
pub open spec fn spec_auto_increment_mark(write_back: bool) -> Seq<char> {
    if write_back {
        "!"@
    } else {
        ""@
    }
}

/// The write-back marker of an addressing mode.
pub fn auto_increment_mark(write_back: bool) -> (r: &'static str)
    ensures
        r@ == spec_auto_increment_mark(write_back),
{
    if write_back {
        "!"
    } else {
        ""
    }
}

/// The sign marker of a long multiply: `s` for signed, `u` for unsigned.
pub open spec fn spec_sign_mark(signed: bool) -> Seq<char> {
    if signed {
        "s"@
    } else {
        "u"@
    }
}

/// The sign marker of a long multiply.
pub fn sign_mark(signed: bool) -> (r: &'static str)
    ensures
        r@ == spec_sign_mark(signed),
{
    if signed {
        "s"
    } else {
        "u"
    }
}

/// The link marker of a branch: `l` exactly when the link bit is set.
pub open spec fn spec_link_mark(link: bool) -> Seq<char> {
    if link {
        "l"@
    } else {
        ""@
    }
}

/// The link marker of a branch.
pub fn link_mark(link: bool) -> (r: &'static str)
    ensures
        r@ == spec_link_mark(link),
{
    if link {
        "l"
    } else {
        ""
    }
}

/// The rendered branch target: the fetch-time program counter plus the
/// pipeline lookahead of 8 plus the decoded byte offset, wrapping within
/// 32 bits.
pub open spec fn spec_branch_target(pc: u32, offset: i32) -> u32 {
    pc.wrapping_add(offset as u32).wrapping_add(8)
}

/// Rendering of a branch: mnemonic with link marker and condition suffix,
/// then the absolute target address.
pub open spec fn spec_fmt_branch(i: ArmInstruction) -> Seq<char> {
    match i.kind {
        ArmInstructionKind::Branch { link, offset } => "b"@ + spec_link_mark(link)
            + spec_cond_suffix(i.cond) + "\t"@ + spec_hex(spec_branch_target(i.pc, offset) as int),
        _ => Seq::empty(),
    }
}

/// Rendering of a branch-and-exchange: the target register alone.
pub open spec fn spec_fmt_bx(i: ArmInstruction) -> Seq<char> {
    match i.kind {
        ArmInstructionKind::BranchExchange { rn } => "bx\t"@ + spec_reg_name(rn as int),
        _ => Seq::empty(),
    }
}

/// Rendering of a data-processing instruction. Move forms show only the
/// destination, compare forms only the source and never a set-flags
/// marker; all other operations show destination, source and operand2.
pub open spec fn spec_fmt_data_processing(i: ArmInstruction) -> Seq<char> {
    match i.kind {
        ArmInstructionKind::DataProcessing { opcode, set_cond, rn, rd, operand2 } => {
            let head = match opcode {
                AluOpCode::MOV | AluOpCode::MVN => spec_alu_mnemonic(opcode) + spec_set_cond_mark(
                    set_cond,
                ) + spec_cond_suffix(i.cond) + "\t"@ + spec_reg_name(rd as int) + ", "@,
                AluOpCode::CMP | AluOpCode::CMN | AluOpCode::TEQ | AluOpCode::TST
                    => spec_alu_mnemonic(opcode) + spec_cond_suffix(i.cond) + "\t"@ + spec_reg_name(
                    rn as int,
                ) + ", "@,
                _ => spec_alu_mnemonic(opcode) + spec_set_cond_mark(set_cond) + spec_cond_suffix(
                    i.cond,
                ) + "\t"@ + spec_reg_name(rd as int) + ", "@ + spec_reg_name(rn as int) + ", "@,
            };
            head + spec_fmt_operand2(operand2)
        },
        _ => Seq::empty(),
    }
}

/// The offset part of an addressing mode: a `#`-prefixed signed immediate,
/// or a possibly negated shifted register.
pub open spec fn spec_offset_string(offset: LdrStrOffset) -> Seq<char> {
    match offset {
        LdrStrOffset::Immediate(value) => "#"@ + spec_dec_int(value as int),
        LdrStrOffset::ShiftedRegister(reg, shift, added) => (
        if added {
            ""@
        } else {
            "-"@
        }) + spec_shifted_reg_str(reg as int, shift),
    }
}

/// The trailing comment of an immediate offset: its absolute value, with
/// the pipeline correction `pc + 8` applied when the base register is the
/// program counter. Register offsets carry no comment.
pub open spec fn spec_offset_comment(offset: LdrStrOffset, rn: u32, pc: u32) -> Seq<char> {
    match offset {
        LdrStrOffset::Immediate(value) => {
            let shown = if rn == REG_PC {
                value.wrapping_add(pc as i32).wrapping_add(8)
            } else {
                value
            };
            "\t; "@ + spec_hex((shown as u32) as int)
        },
        LdrStrOffset::ShiftedRegister(_, _, _) => ""@,
    }
}

/// Rendering of a base-plus-offset addressing mode, bracketed according to
/// pre- or post-indexing, with the write-back marker and the immediate
/// comment.
pub open spec fn spec_fmt_rn_offset(
    rn: u32,
    pc: u32,
    pre_index: bool,
    write_back: bool,
    offset: LdrStrOffset,
) -> Seq<char> {
    if pre_index {
        "["@ + spec_reg_name(rn as int) + ", "@ + spec_offset_string(offset) + "]"@
            + spec_auto_increment_mark(write_back) + spec_offset_comment(offset, rn, pc)
    } else {
        "["@ + spec_reg_name(rn as int) + "], "@ + spec_offset_string(offset)
            + spec_offset_comment(offset, rn, pc)
    }
}

/// Rendering of a single load/store: `ldr`/`str` with byte-size suffix,
/// translate suffix exactly for post-indexed write-back, condition suffix,
/// destination and addressing mode.
pub open spec fn spec_fmt_ldr_str(i: ArmInstruction) -> Seq<char> {
    match i.kind {
        ArmInstructionKind::LoadStore { load, byte, pre_index, write_back, rd, rn, offset } => (
        if load {
            "ldr"@
        } else {
            "str"@
        }) + (
        if byte {
            "b"@
        } else {
            ""@
        }) + (
        if !pre_index && write_back {
            "t"@
        } else {
            ""@
        }) + spec_cond_suffix(i.cond) + "\t"@ + spec_reg_name(rd as int) + ", "@
            + spec_fmt_rn_offset(rn, i.pc, pre_index, write_back, offset),
        _ => Seq::empty(),
    }
}

/// Whether any register below index `i` is in the transfer list.
pub open spec fn spec_has_bit_below(mask: u16, i: int) -> bool
    decreases i,
{
    if i <= 0 {
        false
    } else {
        spec_has_bit_below(mask, i - 1) || (mask >> ((i - 1) as u16)) & 1 == 1
    }
}

/// The rendered register list restricted to registers below index `i`:
/// ascending, comma-separated.
pub open spec fn spec_reg_list_upto(mask: u16, i: int) -> Seq<char>
    decreases i,
{
    if i <= 0 {
        Seq::empty()
    } else {
        let rest = spec_reg_list_upto(mask, i - 1);
        if (mask >> ((i - 1) as u16)) & 1 == 1 {
            if spec_has_bit_below(mask, i - 1) {
                rest + ", "@ + spec_reg_name(i - 1)
            } else {
                rest + spec_reg_name(i - 1)
            }
        } else {
            rest
        }
    }
}

/// The rendered register list of a block transfer.
pub open spec fn spec_reg_list(mask: u16) -> Seq<char> {
    spec_reg_list_upto(mask, 16)
}

/// A register list with no member below `i` renders empty up to `i`.
proof fn lemma_reg_list_upto_empty(mask: u16, i: int)
    requires
        !spec_has_bit_below(mask, i),
    ensures
        spec_reg_list_upto(mask, i) == Seq::<char>::empty(),
    decreases i,
{
    if i > 0 {
        lemma_reg_list_upto_empty(mask, i - 1);
    }
}

/// Render the register list of a block transfer: the listed registers in
/// ascending order, comma-separated.
pub fn reg_list_string(mask: u16) -> (r: String)
    ensures
        r@ == spec_reg_list(mask),
{
    let mut s = String::new();
    let mut first: bool = true;
    let mut i: u16 = 0;
    while i < 16
        invariant
            0 <= i <= 16,
            s@ == spec_reg_list_upto(mask, i as int),
            first == !spec_has_bit_below(mask, i as int),
        decreases 16 - i,
    {
        if (mask >> i) & 1 == 1 {
            proof {
                if !spec_has_bit_below(mask, i as int) {
                    lemma_reg_list_upto_empty(mask, i as int);
                }
            }
            if first {
                s.append(reg_string(i as u32));
                first = false;
            } else {
                s.append(", ");
                s.append(reg_string(i as u32));
            }
        }
        i = i + 1;
    }
    s
}

/// Rendering of a block transfer: mnemonic with increment/decrement and
/// before/after suffixes, base register with write-back marker, the braced
/// register list, and the PSR/force-user marker.
pub open spec fn spec_fmt_ldm_stm(i: ArmInstruction) -> Seq<char> {
    match i.kind {
        ArmInstructionKind::LoadStoreMultiple {
            load,
            add_offset,
            pre_index,
            write_back,
            psr_force_user,
            rn,
            register_list,
        } => (
        if load {
            "ldm"@
        } else {
            "stm"@
        }) + (
        if add_offset {
            "i"@
        } else {
            "d"@
        }) + (
        if pre_index {
            "b"@
        } else {
            "a"@
        }) + spec_cond_suffix(i.cond) + "\t"@ + spec_reg_name(rn as int)
            + spec_auto_increment_mark(write_back) + ", {"@ + spec_reg_list(register_list) + "}"@
            + (
        if psr_force_user {
            "^"@
        } else {
            ""@
        }),
        _ => Seq::empty(),
    }
}

/// The printed name of the selected status register.
pub open spec fn spec_psr_name(spsr: bool) -> Seq<char> {
    if spsr {
        "SPSR"@
    } else {
        "CPSR"@
    }
}

/// The printed name of the flags half of the selected status register.
pub open spec fn spec_psr_flags_name(spsr: bool) -> Seq<char> {
    if spsr {
        "SPSR_f"@
    } else {
        "CPSR_f"@
    }
}

/// Rendering of MRS: destination register and source status register.
pub open spec fn spec_fmt_mrs(i: ArmInstruction) -> Seq<char> {
    match i.kind {
        ArmInstructionKind::Mrs { spsr, rd } => "mrs"@ + spec_cond_suffix(i.cond) + "\t"@
            + spec_reg_name(rd as int) + ", "@ + spec_psr_name(spsr),
        _ => Seq::empty(),
    }
}

/// Rendering of the register form of MSR: destination status register and
/// source register.
pub open spec fn spec_fmt_msr_reg(i: ArmInstruction) -> Seq<char> {
    match i.kind {
        ArmInstructionKind::MsrReg { spsr, rm } => "msr"@ + spec_cond_suffix(i.cond) + "\t"@
            + spec_psr_name(spsr) + ", "@ + spec_reg_name(rm as int),
        _ => Seq::empty(),
    }
}

/// The flags breakdown comment of the flags-only MSR form: the N/Z/C/V
/// bits of the decoded immediate's top nibble, since this form can affect
/// only the flag bits of the status register. A register operand carries
/// no comment.
pub open spec fn spec_msr_flags_comment(operand2: Operand2) -> Seq<char> {
    match operand2 {
        Operand2::RotatedImmediate(value, rotate) => {
            let op = spec_decode_rotated_immediate(value, rotate);
            "\t; N="@ + spec_bool_str((op >> 31) & 1 == 1) + " Z="@ + spec_bool_str(
                (op >> 30) & 1 == 1,
            ) + " C="@ + spec_bool_str((op >> 29) & 1 == 1) + " V="@ + spec_bool_str(
                (op >> 28) & 1 == 1,
            )
        },
        Operand2::ShiftedRegister(_, _) => ""@,
    }
}

/// Rendering of the flags-only MSR form: the flags half of the status
/// register, the operand, and the flags breakdown comment.
pub open spec fn spec_fmt_msr_flags(i: ArmInstruction) -> Seq<char> {
    match i.kind {
        ArmInstructionKind::MsrFlags { spsr, operand2 } => "msr"@ + spec_cond_suffix(i.cond) + "\t"@
            + spec_psr_flags_name(spsr) + ", "@ + spec_fmt_operand2(operand2)
            + spec_msr_flags_comment(operand2),
        _ => Seq::empty(),
    }
}

/// Rendering of multiply/multiply-accumulate: destination, multiplicand
/// and multiplier, plus the accumulator for MLA.
pub open spec fn spec_fmt_mul_mla(i: ArmInstruction) -> Seq<char> {
    match i.kind {
        ArmInstructionKind::MulMla { accumulate, set_cond, rd, rn, rs, rm } => if accumulate {
            "mla"@ + spec_set_cond_mark(set_cond) + spec_cond_suffix(i.cond) + "\t"@ + spec_reg_name(
                rd as int,
            ) + ", "@ + spec_reg_name(rm as int) + ", "@ + spec_reg_name(rs as int) + ", "@
                + spec_reg_name(rn as int)
        } else {
            "mul"@ + spec_set_cond_mark(set_cond) + spec_cond_suffix(i.cond) + "\t"@ + spec_reg_name(
                rd as int,
            ) + ", "@ + spec_reg_name(rm as int) + ", "@ + spec_reg_name(rs as int)
        },
        _ => Seq::empty(),
    }
}

/// Rendering of long multiply: the sign marker, the low and high
/// destination registers, and both operands — MULL and MLAL alike show the
/// multiplicand and the multiplier.
pub open spec fn spec_fmt_mull_mlal(i: ArmInstruction) -> Seq<char> {
    match i.kind {
        ArmInstructionKind::MullMlal { signed, accumulate, set_cond, rd_hi, rd_lo, rs, rm }
            => spec_sign_mark(signed) + (
        if accumulate {
            "mlal"@
        } else {
            "mull"@
        }) + spec_set_cond_mark(set_cond) + spec_cond_suffix(i.cond) + "\t"@ + spec_reg_name(
            rd_lo as int,
        ) + ", "@ + spec_reg_name(rd_hi as int) + ", "@ + spec_reg_name(rm as int) + ", "@
            + spec_reg_name(rs as int),
        _ => Seq::empty(),
    }
}

/// Rendering of a halfword/signed transfer; an unrecognized type field
/// renders as the explicit undefined marker instead of failing.
pub open spec fn spec_fmt_ldr_str_hs(i: ArmInstruction) -> Seq<char> {
    match i.kind {
        ArmInstructionKind::HalfwordTransfer {
            load,
            pre_index,
            write_back,
            transfer,
            rd,
            rn,
            offset,
        } => match transfer {
            Some(t) => (
            if load {
                "ldr"@
            } else {
                "str"@
            }) + spec_hs_suffix(t) + spec_cond_suffix(i.cond) + "\t"@ + spec_reg_name(rd as int)
                + ", "@ + spec_fmt_rn_offset(rn, i.pc, pre_index, write_back, offset),
            None => "<undefined>"@,
        },
        _ => Seq::empty(),
    }
}

/// Rendering of a software interrupt: condition suffix and the raw comment
/// field as a hexadecimal immediate.
pub open spec fn spec_fmt_swi(i: ArmInstruction) -> Seq<char> {
    match i.kind {
        ArmInstructionKind::SoftwareInterrupt { comment } => "swi"@ + spec_cond_suffix(i.cond)
            + "\t#"@ + spec_hex(comment as int),
        _ => Seq::empty(),
    }
}

/// The rendered line of any decoded instruction.
pub open spec fn spec_render(i: ArmInstruction) -> Seq<char> {
    match i.kind {
        ArmInstructionKind::BranchExchange { .. } => spec_fmt_bx(i),
        ArmInstructionKind::Branch { .. } => spec_fmt_branch(i),
        ArmInstructionKind::DataProcessing { .. } => spec_fmt_data_processing(i),
        ArmInstructionKind::LoadStore { .. } => spec_fmt_ldr_str(i),
        ArmInstructionKind::LoadStoreMultiple { .. } => spec_fmt_ldm_stm(i),
        ArmInstructionKind::Mrs { .. } => spec_fmt_mrs(i),
        ArmInstructionKind::MsrReg { .. } => spec_fmt_msr_reg(i),
        ArmInstructionKind::MsrFlags { .. } => spec_fmt_msr_flags(i),
        ArmInstructionKind::MulMla { .. } => spec_fmt_mul_mla(i),
        ArmInstructionKind::MullMlal { .. } => spec_fmt_mull_mlal(i),
        ArmInstructionKind::HalfwordTransfer { .. } => spec_fmt_ldr_str_hs(i),
        ArmInstructionKind::SoftwareInterrupt { .. } => spec_fmt_swi(i),
        ArmInstructionKind::Undefined => "<undefined>"@,
    }
}

impl ArmInstruction {
    /// Render a branch-and-exchange.
    pub fn fmt_bx(&self) -> (r: String)
        requires
            self.wf(),
        ensures
            r@ == spec_fmt_bx(*self),
    {
        match self.kind {
            ArmInstructionKind::BranchExchange { rn } => {
                let mut s = String::from_str("bx\t");
                s.append(reg_string(rn));
                s
            },
            _ => String::new(),
        }
    }

    /// Render a branch, with the link marker and the absolute target
    /// address corrected for pipeline lookahead.
    pub fn fmt_branch(&self) -> (r: String)
        requires
            self.wf(),
        ensures
            r@ == spec_fmt_branch(*self),
    {
        match self.kind {
            ArmInstructionKind::Branch { link, offset } => {
                let mut s = String::from_str("b");
                s.append(link_mark(link));
                s.append(self.cond.suffix_str());
                s.append("\t");
                let target = self.pc.wrapping_add(#[verifier::truncate] (offset as u32))
                    .wrapping_add(8);
                let hex = hex_u32(target);
                s.append(hex.as_str());
                s
            },
            _ => String::new(),
        }
    }

    /// Render a data-processing instruction.
    pub fn fmt_data_processing(&self) -> (r: String)
        requires
            self.wf(),
        ensures
            r@ == spec_fmt_data_processing(*self),
    {
        match self.kind {
            ArmInstructionKind::DataProcessing { opcode, set_cond, rn, rd, operand2 } => {
                let mut s = String::from_str(opcode.mnemonic_str());
                match opcode {
                    AluOpCode::MOV | AluOpCode::MVN => {
                        s.append(set_cond_mark(set_cond));
                        s.append(self.cond.suffix_str());
                        s.append("\t");
                        s.append(reg_string(rd));
                        s.append(", ");
                    },
                    AluOpCode::CMP | AluOpCode::CMN | AluOpCode::TEQ | AluOpCode::TST => {
                        s.append(self.cond.suffix_str());
                        s.append("\t");
                        s.append(reg_string(rn));
                        s.append(", ");
                    },
                    _ => {
                        s.append(set_cond_mark(set_cond));
                        s.append(self.cond.suffix_str());
                        s.append("\t");
                        s.append(reg_string(rd));
                        s.append(", ");
                        s.append(reg_string(rn));
                        s.append(", ");
                    },
                }
                let op2 = fmt_operand2(&operand2);
                s.append(op2.as_str());
                s
            },
            _ => String::new(),
        }
    }

    /// Render a base-plus-offset addressing mode.
    fn fmt_rn_offset(rn: u32, pc: u32, pre_index: bool, write_back: bool, offset: &LdrStrOffset) -> (r:
        String)
        requires
            rn < 16,
            spec_ldr_str_offset_wf(*offset),
        ensures
            r@ == spec_fmt_rn_offset(rn, pc, pre_index, write_back, *offset),
    {
        let ofs_string: String;
        let comment: String;
        match offset {
            LdrStrOffset::Immediate(value) => {
                let mut o = String::from_str("#");
                let dec = dec_i32(*value);
                o.append(dec.as_str());
                ofs_string = o;
                let shown = if rn == REG_PC {
                    value.wrapping_add(#[verifier::truncate] (pc as i32)).wrapping_add(8)
                } else {
                    *value
                };
                let mut c = String::from_str("\t; ");
                let hex = hex_u32(#[verifier::truncate] (shown as u32));
                c.append(hex.as_str());
                comment = c;
            },
            LdrStrOffset::ShiftedRegister(reg, shift, added) => {
                let mut o = String::from_str(
                    if *added {
                        ""
                    } else {
                        "-"
                    },
                );
                let sr = make_shifted_reg_string(*reg, shift);
                o.append(sr.as_str());
                ofs_string = o;
                comment = String::from_str("");
            },
        }
        let mut s = String::from_str("[");
        s.append(reg_string(rn));
        if pre_index {
            s.append(", ");
            s.append(ofs_string.as_str());
            s.append("]");
            s.append(auto_increment_mark(write_back));
            s.append(comment.as_str());
        } else {
            s.append("], ");
            s.append(ofs_string.as_str());
            s.append(comment.as_str());
        }
        s
    }

    /// Render a single load/store.
    pub fn fmt_ldr_str(&self) -> (r: String)
        requires
            self.wf(),
        ensures
            r@ == spec_fmt_ldr_str(*self),
    {
        match self.kind {
            ArmInstructionKind::LoadStore { load, byte, pre_index, write_back, rd, rn, offset } => {
                let mut s = String::from_str(
                    if load {
                        "ldr"
                    } else {
                        "str"
                    },
                );
                s.append(
                    if byte {
                        "b"
                    } else {
                        ""
                    },
                );
                s.append(
                    if !pre_index && write_back {
                        "t"
                    } else {
                        ""
                    },
                );
                s.append(self.cond.suffix_str());
                s.append("\t");
                s.append(reg_string(rd));
                s.append(", ");
                let ofs = Self::fmt_rn_offset(rn, self.pc, pre_index, write_back, &offset);
                s.append(ofs.as_str());
                s
            },
            _ => String::new(),
        }
    }

    /// Render a block transfer.
    pub fn fmt_ldm_stm(&self) -> (r: String)
        requires
            self.wf(),
        ensures
            r@ == spec_fmt_ldm_stm(*self),
    {
        match self.kind {
            ArmInstructionKind::LoadStoreMultiple {
                load,
                add_offset,
                pre_index,
                write_back,
                psr_force_user,
                rn,
                register_list,
            } => {
                let mut s = String::from_str(
                    if load {
                        "ldm"
                    } else {
                        "stm"
                    },
                );
                s.append(
                    if add_offset {
                        "i"
                    } else {
                        "d"
                    },
                );
                s.append(
                    if pre_index {
                        "b"
                    } else {
                        "a"
                    },
                );
                s.append(self.cond.suffix_str());
                s.append("\t");
                s.append(reg_string(rn));
                s.append(auto_increment_mark(write_back));
                s.append(", {");
                let list = reg_list_string(register_list);
                s.append(list.as_str());
                s.append("}");
                s.append(
                    if psr_force_user {
                        "^"
                    } else {
                        ""
                    },
                );
                s
            },
            _ => String::new(),
        }
    }

    /// Render an MRS (status register to register) transfer.
    pub fn fmt_mrs(&self) -> (r: String)
        requires
            self.wf(),
        ensures
            r@ == spec_fmt_mrs(*self),
    {
        match self.kind {
            ArmInstructionKind::Mrs { spsr, rd } => {
                let mut s = String::from_str("mrs");
                s.append(self.cond.suffix_str());
                s.append("\t");
                s.append(reg_string(rd));
                s.append(", ");
                s.append(
                    if spsr {
                        "SPSR"
                    } else {
                        "CPSR"
                    },
                );
                s
            },
            _ => String::new(),
        }
    }

    /// Render an MSR (register to status register) transfer.
    pub fn fmt_msr_reg(&self) -> (r: String)
        requires
            self.wf(),
        ensures
            r@ == spec_fmt_msr_reg(*self),
    {
        match self.kind {
            ArmInstructionKind::MsrReg { spsr, rm } => {
                let mut s = String::from_str("msr");
                s.append(self.cond.suffix_str());
                s.append("\t");
                s.append(
                    if spsr {
                        "SPSR"
                    } else {
                        "CPSR"
                    },
                );
                s.append(", ");
                s.append(reg_string(rm));
                s
            },
            _ => String::new(),
        }
    }

    /// Render the flags-only MSR form, with the N/Z/C/V breakdown of a
    /// decoded immediate operand.
    #[verifier::rlimit(60)]
    pub fn fmt_msr_flags(&self) -> (r: String)
        requires
            self.wf(),
        ensures
            r@ == spec_fmt_msr_flags(*self),
    {
        match self.kind {
            ArmInstructionKind::MsrFlags { spsr, operand2 } => {
                let mut s = String::from_str("msr");
                s.append(self.cond.suffix_str());
                s.append("\t");
                s.append(
                    if spsr {
                        "SPSR_f"
                    } else {
                        "CPSR_f"
                    },
                );
                s.append(", ");
                let op2 = fmt_operand2(&operand2);
                s.append(op2.as_str());
                match operand2 {
                    Operand2::RotatedImmediate(value, rotate) => {
                        let op = crate::shifter::decode_rotated_immediate(value, rotate);
                        s.append("\t; N=");
                        s.append(bool_str((op >> 31) & 1 == 1));
                        s.append(" Z=");
                        s.append(bool_str((op >> 30) & 1 == 1));
                        s.append(" C=");
                        s.append(bool_str((op >> 29) & 1 == 1));
                        s.append(" V=");
                        s.append(bool_str((op >> 28) & 1 == 1));
                    },
                    Operand2::ShiftedRegister(_, _) => {
                        s.append("");
                    },
                }
                s
            },
            _ => String::new(),
        }
    }

    /// Render a multiply/multiply-accumulate.
    pub fn fmt_mul_mla(&self) -> (r: String)
        requires
            self.wf(),
        ensures
            r@ == spec_fmt_mul_mla(*self),
    {
        match self.kind {
            ArmInstructionKind::MulMla { accumulate, set_cond, rd, rn, rs, rm } => {
                let mut s = String::from_str(
                    if accumulate {
                        "mla"
                    } else {
                        "mul"
                    },
                );
                s.append(set_cond_mark(set_cond));
                s.append(self.cond.suffix_str());
                s.append("\t");
                s.append(reg_string(rd));
                s.append(", ");
                s.append(reg_string(rm));
                s.append(", ");
                s.append(reg_string(rs));
                if accumulate {
                    s.append(", ");
                    s.append(reg_string(rn));
                }
                s
            },
            _ => String::new(),
        }
    }

    /// Render a long multiply.
    pub fn fmt_mull_mlal(&self) -> (r: String)
        requires
            self.wf(),
        ensures
            r@ == spec_fmt_mull_mlal(*self),
    {
        match self.kind {
            ArmInstructionKind::MullMlal { signed, accumulate, set_cond, rd_hi, rd_lo, rs, rm } => {
                let mut s = String::from_str(sign_mark(signed));
                s.append(
                    if accumulate {
                        "mlal"
                    } else {
                        "mull"
                    },
                );
                s.append(set_cond_mark(set_cond));
                s.append(self.cond.suffix_str());
                s.append("\t");
                s.append(reg_string(rd_lo));
                s.append(", ");
                s.append(reg_string(rd_hi));
                s.append(", ");
                s.append(reg_string(rm));
                s.append(", ");
                s.append(reg_string(rs));
                s
            },
            _ => String::new(),
        }
    }

    /// Render a halfword/signed transfer; the unrecognized type field
    /// renders as the explicit undefined marker.
    pub fn fmt_ldr_str_hs(&self) -> (r: String)
        requires
            self.wf(),
        ensures
            r@ == spec_fmt_ldr_str_hs(*self),
    {
        match self.kind {
            ArmInstructionKind::HalfwordTransfer {
                load,
                pre_index,
                write_back,
                transfer,
                rd,
                rn,
                offset,
            } => {
                match transfer {
                    Some(t) => {
                        let mut s = String::from_str(
                            if load {
                                "ldr"
                            } else {
                                "str"
                            },
                        );
                        s.append(t.suffix_str());
                        s.append(self.cond.suffix_str());
                        s.append("\t");
                        s.append(reg_string(rd));
                        s.append(", ");
                        let ofs = Self::fmt_rn_offset(rn, self.pc, pre_index, write_back, &offset);
                        s.append(ofs.as_str());
                        s
                    },
                    None => String::from_str("<undefined>"),
                }
            },
            _ => String::new(),
        }
    }

    /// Render a software interrupt.
    pub fn fmt_swi(&self) -> (r: String)
        requires
            self.wf(),
        ensures
            r@ == spec_fmt_swi(*self),
    {
        match self.kind {
            ArmInstructionKind::SoftwareInterrupt { comment } => {
                let mut s = String::from_str("swi");
                s.append(self.cond.suffix_str());
                s.append("\t#");
                let hex = hex_u32(comment);
                s.append(hex.as_str());
                s
            },
            _ => String::new(),
        }
    }

    /// Render the full disassembly line of this instruction.
    pub fn render(&self) -> (r: String)
        requires
            self.wf(),
        ensures
            r@ == spec_render(*self),
    {
        match self.kind {
            ArmInstructionKind::BranchExchange { .. } => self.fmt_bx(),
            ArmInstructionKind::Branch { .. } => self.fmt_branch(),
            ArmInstructionKind::DataProcessing { .. } => self.fmt_data_processing(),
            ArmInstructionKind::LoadStore { .. } => self.fmt_ldr_str(),
            ArmInstructionKind::LoadStoreMultiple { .. } => self.fmt_ldm_stm(),
            ArmInstructionKind::Mrs { .. } => self.fmt_mrs(),
            ArmInstructionKind::MsrReg { .. } => self.fmt_msr_reg(),
            ArmInstructionKind::MsrFlags { .. } => self.fmt_msr_flags(),
            ArmInstructionKind::MulMla { .. } => self.fmt_mul_mla(),
            ArmInstructionKind::MullMlal { .. } => self.fmt_mull_mlal(),
            ArmInstructionKind::HalfwordTransfer { .. } => self.fmt_ldr_str_hs(),
            ArmInstructionKind::SoftwareInterrupt { .. } => self.fmt_swi(),
            ArmInstructionKind::Undefined => String::from_str("<undefined>"),
        }
    }
}

} // verus!
